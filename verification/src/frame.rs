//! Decoded frames and their reduction to a single channel.

use vstd::prelude::*;

use crate::error::AudioError;

verus! {

/// One unit of decoded audio: interleaved 16-bit samples with the channel count
/// and the sample rate in hertz that the stream announced for them.
#[derive(Debug)]
pub struct DecodedFrame {
    pub samples: Vec<i16>,
    pub channels: usize,
    pub sample_rate: u32,
}

/// The mathematical content of a [`DecodedFrame`].
pub struct FrameView {
    pub samples: Seq<i16>,
    pub channels: usize,
    pub sample_rate: u32,
}

impl View for DecodedFrame {
    type V = FrameView;

    open spec fn view(&self) -> FrameView {
        FrameView { samples: self.samples@, channels: self.channels, sample_rate: self.sample_rate }
    }
}

/// The mean of a left and a right sample, rounded toward zero.
pub open spec fn average(left: i16, right: i16) -> int {
    let sum = left + right;
    if sum >= 0 {
        sum / 2
    } else {
        -((-sum) / 2)
    }
}

/// Half of `sum`, rounded to the nearest integer, halves rounded up.
pub open spec fn rounded_half(sum: int) -> int {
    (sum + 1) / 2
}

/// The single channel that interleaved stereo samples reduce to: one sample per
/// left/right pair, their [`average`].
pub open spec fn downmix(stereo: Seq<i16>) -> Seq<i16> {
    Seq::new(stereo.len() / 2, |i: int| average(stereo[2 * i], stereo[2 * i + 1]) as i16)
}

/// What a frame reduces to: its samples as they are for one channel, the
/// [`downmix`] of its pairs for two, and an error for anything else.
pub open spec fn mono_of(frame: FrameView) -> Result<Seq<i16>, AudioError> {
    if frame.channels == 1 {
        Ok(frame.samples)
    } else if frame.channels == 2 {
        if frame.samples.len() % 2 == 0 {
            Ok(downmix(frame.samples))
        } else {
            Err(AudioError::Decode)
        }
    } else {
        Err(AudioError::UnsupportedFormat { channels: frame.channels })
    }
}

/// The average of two samples is itself a 16-bit sample, and twice the average
/// is within one of their sum.
pub proof fn lemma_average_bounds(left: i16, right: i16)
    ensures
        i16::MIN <= average(left, right) <= i16::MAX,
        -1 <= 2 * average(left, right) - (left + right) <= 1,
        -1 <= average(left, right) - rounded_half(left + right) <= 1,
{
}

/// The reduction of an even number of stereo samples has exactly half as many
/// samples, and each is within one of the rounded mean of its pair.
pub proof fn lemma_downmix(stereo: Seq<i16>)
    requires
        stereo.len() % 2 == 0,
    ensures
        downmix(stereo).len() * 2 == stereo.len(),
        forall|i: int|
            0 <= i < downmix(stereo).len() ==> {
                let sum = stereo[2 * i] + stereo[2 * i + 1];
                &&& #[trigger] downmix(stereo)[i] == average(stereo[2 * i], stereo[2 * i + 1])
                &&& -1 <= downmix(stereo)[i] - rounded_half(sum) <= 1
                &&& -1 <= 2 * downmix(stereo)[i] - sum <= 1
            },
{
    assert forall|i: int| 0 <= i < downmix(stereo).len() implies {
        let sum = stereo[2 * i] + stereo[2 * i + 1];
        &&& #[trigger] downmix(stereo)[i] == average(stereo[2 * i], stereo[2 * i + 1])
        &&& -1 <= downmix(stereo)[i] - rounded_half(sum) <= 1
        &&& -1 <= 2 * downmix(stereo)[i] - sum <= 1
    } by {
        lemma_average_bounds(stereo[2 * i], stereo[2 * i + 1]);
    }
}

/// Averages one left/right pair in a wider type and narrows the result.
pub fn average_pair(left: i16, right: i16) -> (mono: i16)
    ensures
        mono == average(left, right),
{
    let sum: i32 = left as i32 + right as i32;
    let half: i32 = if sum >= 0 {
        sum / 2
    } else {
        -((-sum) / 2)
    };
    half as i16
}

/// Reduces one frame to a single channel.
///
/// A one-channel frame passes through unchanged. A two-channel frame yields the
/// average of each left/right pair. A two-channel frame with an odd number of
/// samples is rejected as malformed, and any other channel count as unsupported.
pub fn reduce_to_mono(frame: &DecodedFrame) -> (result: Result<Vec<i16>, AudioError>)
    ensures
        match result {
            Ok(mono) => mono_of(frame@) == Ok::<Seq<i16>, AudioError>(mono@),
            Err(error) => mono_of(frame@) == Err::<Seq<i16>, AudioError>(error),
        },
{
    if frame.channels == 1 {
        Ok(frame.samples.clone())
    } else if frame.channels == 2 {
        let len: usize = frame.samples.len();
        if len % 2 != 0 {
            return Err(AudioError::Decode);
        }
        let mut mono: Vec<i16> = Vec::new();
        let mut i: usize = 0;
        while i < len
            invariant
                len == frame.samples@.len(),
                len % 2 == 0,
                i % 2 == 0,
                i <= len,
                mono@.len() == i / 2,
                forall|k: int| 0 <= k < mono@.len() ==> mono@[k] == downmix(frame.samples@)[k],
            decreases len - i,
        {
            let pair: i16 = average_pair(frame.samples[i], frame.samples[i + 1]);
            mono.push(pair);
            i = i + 2;
        }
        assert(mono@ =~= downmix(frame.samples@));
        Ok(mono)
    } else {
        Err(AudioError::UnsupportedFormat { channels: frame.channels })
    }
}

} // verus!
