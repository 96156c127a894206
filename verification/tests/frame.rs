use loudness::error::AudioError;
use loudness::frame::{average_pair, reduce_to_mono, DecodedFrame};

fn frame(samples: Vec<i16>, channels: usize) -> DecodedFrame {
    DecodedFrame { samples, channels, sample_rate: 44100 }
}

#[test]
fn average_rounds_toward_zero() {
    assert_eq!(average_pair(100, 200), 150);
    assert_eq!(average_pair(1, 2), 1);
    assert_eq!(average_pair(-1, -2), -1);
    assert_eq!(average_pair(1, -2), 0);
    assert_eq!(average_pair(-1, 2), 0);
    assert_eq!(average_pair(0, 0), 0);
}

#[test]
fn average_of_extremes_does_not_overflow() {
    assert_eq!(average_pair(i16::MAX, i16::MAX), i16::MAX);
    assert_eq!(average_pair(i16::MIN, i16::MIN), i16::MIN);
    assert_eq!(average_pair(i16::MAX, i16::MIN), 0);
    assert_eq!(average_pair(i16::MIN, i16::MAX), 0);
}

#[test]
fn stereo_pairs_are_averaged() {
    let stereo = frame(vec![100, 200, -100, -200, 3, 4, -3, -4, 32767, 32767, -32768, -32768], 2);
    assert_eq!(reduce_to_mono(&stereo), Ok(vec![150, -150, 3, -3, 32767, -32768]));
}

#[test]
fn stereo_reduction_halves_the_length() {
    let samples: Vec<i16> = (0..2304).map(|i| (i % 7) as i16).collect();
    let mono = reduce_to_mono(&frame(samples.clone(), 2)).unwrap();
    assert_eq!(mono.len() * 2, samples.len());
}

#[test]
fn stereo_reduction_is_within_one_of_the_rounded_mean() {
    let pairs: [(i16, i16); 8] = [
        (0, 1),
        (1, 2),
        (-1, -2),
        (-3, 0),
        (32767, 32766),
        (-32768, -32767),
        (12345, -12344),
        (-7, 8),
    ];
    let mut samples = Vec::new();
    for (left, right) in pairs {
        samples.push(left);
        samples.push(right);
    }
    let mono = reduce_to_mono(&frame(samples, 2)).unwrap();
    assert_eq!(mono.len(), pairs.len());
    for (i, (left, right)) in pairs.iter().enumerate() {
        let sum = *left as i32 + *right as i32;
        let rounded = (sum as f64 / 2.0 + 0.5).floor() as i32;
        assert!((mono[i] as i32 - rounded).abs() <= 1);
        assert!((2 * mono[i] as i32 - sum).abs() <= 1);
    }
}

#[test]
fn mono_frame_passes_through() {
    let samples = vec![5, -6, 7, i16::MIN, i16::MAX, 0, 1];
    assert_eq!(reduce_to_mono(&frame(samples.clone(), 1)), Ok(samples));
}

#[test]
fn empty_frames_reduce_to_nothing() {
    assert_eq!(reduce_to_mono(&frame(vec![], 1)), Ok(vec![]));
    assert_eq!(reduce_to_mono(&frame(vec![], 2)), Ok(vec![]));
}

#[test]
fn stereo_frame_with_unpaired_sample_is_malformed() {
    assert_eq!(reduce_to_mono(&frame(vec![1, 2, 3], 2)), Err(AudioError::Decode));
    assert_eq!(reduce_to_mono(&frame(vec![1], 2)), Err(AudioError::Decode));
}

#[test]
fn three_channels_are_unsupported() {
    assert_eq!(
        reduce_to_mono(&frame(vec![1, 2, 3], 3)),
        Err(AudioError::UnsupportedFormat { channels: 3 })
    );
}

#[test]
fn zero_channels_are_unsupported() {
    assert_eq!(
        reduce_to_mono(&frame(vec![], 0)),
        Err(AudioError::UnsupportedFormat { channels: 0 })
    );
}
