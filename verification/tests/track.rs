use loudness::error::AudioError;
use loudness::frame::DecodedFrame;
use loudness::track::{FrameOutcome, MonoSampleBuffer};

#[test]
fn new_buffer_is_empty_with_rate_zero() {
    let buffer = MonoSampleBuffer::new();
    assert!(buffer.samples.is_empty());
    assert_eq!(buffer.sample_rate, None);
    assert_eq!(buffer.into_parts(), (vec![], 0));
}

#[test]
fn frames_are_appended_in_order() {
    let mut buffer = MonoSampleBuffer::new();
    let mono = DecodedFrame { samples: vec![1, 2, 3], channels: 1, sample_rate: 8000 };
    let stereo = DecodedFrame { samples: vec![10, 20, -10, -30], channels: 2, sample_rate: 8000 };
    assert_eq!(buffer.append_frame(&mono), Ok(()));
    assert_eq!(buffer.append_frame(&stereo), Ok(()));
    assert_eq!(buffer.append_frame(&mono), Ok(()));
    assert_eq!(buffer.into_parts(), (vec![1, 2, 3, 15, -20, 1, 2, 3], 8000));
}

#[test]
fn first_frame_fixes_the_sample_rate() {
    let mut buffer = MonoSampleBuffer::new();
    let first = DecodedFrame { samples: vec![1], channels: 1, sample_rate: 44100 };
    let second = DecodedFrame { samples: vec![2], channels: 1, sample_rate: 48000 };
    assert_eq!(buffer.append_frame(&first), Ok(()));
    assert_eq!(buffer.sample_rate, Some(44100));
    assert_eq!(buffer.append_frame(&second), Ok(()));
    assert_eq!(buffer.into_parts(), (vec![1, 2], 44100));
}

#[test]
fn rejected_frame_leaves_the_buffer_unchanged() {
    let mut buffer = MonoSampleBuffer::new();
    let good = DecodedFrame { samples: vec![4, 5], channels: 1, sample_rate: 32000 };
    let surround = DecodedFrame { samples: vec![1, 2, 3], channels: 3, sample_rate: 48000 };
    let torn = DecodedFrame { samples: vec![1, 2, 3], channels: 2, sample_rate: 48000 };
    assert_eq!(buffer.append_frame(&good), Ok(()));
    assert_eq!(
        buffer.append_frame(&surround),
        Err(AudioError::UnsupportedFormat { channels: 3 })
    );
    assert_eq!(buffer.append_frame(&torn), Err(AudioError::Decode));
    assert_eq!(buffer.samples, vec![4, 5]);
    assert_eq!(buffer.sample_rate, Some(32000));
}

#[test]
fn unsupported_first_frame_fixes_no_rate() {
    let mut buffer = MonoSampleBuffer::new();
    let surround = DecodedFrame { samples: vec![1, 2, 3], channels: 3, sample_rate: 48000 };
    assert_eq!(
        buffer.append_frame(&surround),
        Err(AudioError::UnsupportedFormat { channels: 3 })
    );
    assert!(buffer.samples.is_empty());
    assert_eq!(buffer.sample_rate, None);
}

#[test]
fn frame_outcome_is_appended_and_the_stream_goes_on() {
    let mut buffer = MonoSampleBuffer::new();
    let frame = DecodedFrame { samples: vec![2, 4, 6, 8], channels: 2, sample_rate: 22050 };
    assert_eq!(buffer.absorb_outcome(&FrameOutcome::Frame(frame)), Ok(true));
    assert_eq!(buffer.samples, vec![3, 7]);
    assert_eq!(buffer.sample_rate, Some(22050));
}

#[test]
fn end_of_stream_stops_without_a_change() {
    let mut buffer = MonoSampleBuffer::new();
    let frame = DecodedFrame { samples: vec![9], channels: 1, sample_rate: 22050 };
    assert_eq!(buffer.absorb_outcome(&FrameOutcome::Frame(frame)), Ok(true));
    assert_eq!(buffer.absorb_outcome(&FrameOutcome::EndOfStream), Ok(false));
    assert_eq!(buffer.into_parts(), (vec![9], 22050));
}

#[test]
fn decoder_failure_is_a_decode_error() {
    let mut buffer = MonoSampleBuffer::new();
    let frame = DecodedFrame { samples: vec![9], channels: 1, sample_rate: 22050 };
    assert_eq!(buffer.absorb_outcome(&FrameOutcome::Frame(frame)), Ok(true));
    assert_eq!(buffer.absorb_outcome(&FrameOutcome::Failed), Err(AudioError::Decode));
    assert_eq!(buffer.samples, vec![9]);
}

#[test]
fn rejected_frame_outcome_gives_its_error() {
    let mut buffer = MonoSampleBuffer::new();
    let surround = DecodedFrame { samples: vec![1, 2, 3], channels: 3, sample_rate: 48000 };
    assert_eq!(
        buffer.absorb_outcome(&FrameOutcome::Frame(surround)),
        Err(AudioError::UnsupportedFormat { channels: 3 })
    );
    assert!(buffer.samples.is_empty());
}
