//! The loudness envelope of a mono track.
//!
//! The loudness of a sample is its magnitude relative to the peak magnitude of
//! the whole track. It is kept as the exact ratio of the two. A track whose
//! samples are all zero has peak zero, and every loudness of it counts as zero.

use vstd::prelude::*;

verus! {

/// A loudness between zero and one, as the ratio `magnitude / peak`.
/// With `peak == 0` the track is silent and the loudness is zero.
#[derive(Debug, Clone, Copy, PartialEq, Eq, Structural)]
pub struct Loudness {
    pub magnitude: u16,
    pub peak: u16,
}

impl Loudness {
    /// The ratio lies between zero and one.
    pub open spec fn normalized(self) -> bool {
        self.magnitude <= self.peak
    }

    /// The ratio is exactly one.
    pub open spec fn is_full(self) -> bool {
        self.peak > 0 && self.magnitude == self.peak
    }
}

/// The absolute value of a sample.
pub open spec fn magnitude(sample: i16) -> nat {
    if sample >= 0 {
        sample as nat
    } else {
        (-sample) as nat
    }
}

/// The largest magnitude among `samples`, and zero if there are none.
pub open spec fn peak_of(samples: Seq<i16>) -> nat
    decreases samples.len(),
{
    if samples.len() == 0 {
        0
    } else {
        let rest = peak_of(samples.drop_last());
        if magnitude(samples.last()) > rest {
            magnitude(samples.last())
        } else {
            rest
        }
    }
}

/// The loudness of every sample of a track, with the track's sample rate.
pub struct LoudnessEnvelope {
    pub magnitudes: Seq<nat>,
    pub peak: nat,
    pub sample_rate: u32,
}

impl LoudnessEnvelope {
    /// The number of samples that the envelope covers.
    pub open spec fn len(self) -> nat {
        self.magnitudes.len()
    }

    /// The loudness at position `index`.
    pub open spec fn value_at(self, index: int) -> Loudness {
        Loudness { magnitude: self.magnitudes[index] as u16, peak: self.peak as u16 }
    }
}

/// The envelope of a whole track: one magnitude per sample, over the peak of
/// all samples.
pub open spec fn envelope_of(samples: Seq<i16>, sample_rate: u32) -> LoudnessEnvelope {
    LoudnessEnvelope {
        magnitudes: Seq::new(samples.len(), |i: int| magnitude(samples[i])),
        peak: peak_of(samples),
        sample_rate,
    }
}

/// The peak bounds every magnitude, fits in 16 bits, and is the magnitude of
/// some sample unless there is none.
pub proof fn lemma_peak_of(samples: Seq<i16>)
    ensures
        peak_of(samples) <= 32768,
        forall|i: int| 0 <= i < samples.len() ==> magnitude(#[trigger] samples[i]) <= peak_of(samples),
        samples.len() > 0 ==> exists|i: int|
            0 <= i < samples.len() && magnitude(#[trigger] samples[i]) == peak_of(samples),
        samples.len() == 0 ==> peak_of(samples) == 0,
    decreases samples.len(),
{
    if samples.len() > 0 {
        let rest = samples.drop_last();
        lemma_peak_of(rest);
        let last = samples.len() - 1;
        assert(forall|i: int| 0 <= i < rest.len() ==> rest[i] == samples[i]);
        if magnitude(samples.last()) > peak_of(rest) {
            assert(magnitude(samples[last]) == peak_of(samples));
        } else if rest.len() > 0 {
            let i = choose|i: int| 0 <= i < rest.len() && magnitude(#[trigger] rest[i]) == peak_of(rest);
            assert(magnitude(samples[i]) == peak_of(samples));
        } else {
            assert(magnitude(samples[last]) == peak_of(samples));
        }
    }
}

/// The peak of a track extended by one sample.
pub proof fn lemma_peak_of_push(samples: Seq<i16>, sample: i16)
    ensures
        peak_of(samples.push(sample)) == if magnitude(sample) > peak_of(samples) {
            magnitude(sample)
        } else {
            peak_of(samples)
        },
{
    assert(samples.push(sample).drop_last() =~= samples);
}

/// The envelope has one entry per sample, every entry lies between zero and
/// one, and a track with a sample other than zero has an entry that is exactly
/// one.
pub proof fn lemma_envelope_normalized(samples: Seq<i16>, sample_rate: u32)
    ensures
        envelope_of(samples, sample_rate).len() == samples.len(),
        forall|i: int|
            0 <= i < samples.len() ==> (#[trigger] envelope_of(samples, sample_rate).value_at(
                i,
            )).normalized(),
        (exists|k: int| 0 <= k < samples.len() && samples[k] != 0) ==> exists|i: int|
            0 <= i < samples.len() && (#[trigger] envelope_of(samples, sample_rate).value_at(
                i,
            )).is_full(),
{
    lemma_peak_of(samples);
    let envelope = envelope_of(samples, sample_rate);
    assert forall|i: int| 0 <= i < samples.len() implies (#[trigger] envelope.value_at(
        i,
    )).normalized() by {
        assert(magnitude(samples[i]) <= peak_of(samples));
    }
    if exists|k: int| 0 <= k < samples.len() && samples[k] != 0 {
        let k = choose|k: int| 0 <= k < samples.len() && samples[k] != 0;
        assert(magnitude(samples[k]) > 0);
        assert(peak_of(samples) > 0);
        let i = choose|i: int|
            0 <= i < samples.len() && magnitude(#[trigger] samples[i]) == peak_of(samples);
        assert(envelope.value_at(i).is_full());
    }
}

/// A track of nothing but zeros has peak zero, and each of its loudness values
/// is the zero ratio over a zero peak: no division by the peak takes place.
pub proof fn lemma_silent_envelope(samples: Seq<i16>, sample_rate: u32)
    requires
        forall|i: int| 0 <= i < samples.len() ==> samples[i] == 0,
    ensures
        envelope_of(samples, sample_rate).peak == 0,
        forall|i: int|
            0 <= i < samples.len() ==> #[trigger] envelope_of(samples, sample_rate).value_at(i)
                == (Loudness { magnitude: 0, peak: 0 }),
{
    lemma_peak_of(samples);
    if samples.len() > 0 {
        let i = choose|i: int|
            0 <= i < samples.len() && magnitude(#[trigger] samples[i]) == peak_of(samples);
        assert(samples[i] == 0);
    }
}

/// The absolute value of a sample, in a type that holds that of every sample.
pub fn sample_magnitude(sample: i16) -> (result: u16)
    ensures
        result == magnitude(sample),
{
    if sample >= 0 {
        sample as u16
    } else {
        (-(sample as i32)) as u16
    }
}

/// The largest magnitude among `samples`, found in one pass.
pub fn peak_magnitude(samples: &Vec<i16>) -> (peak: u16)
    ensures
        peak == peak_of(samples@),
{
    let mut peak: u16 = 0;
    let mut i: usize = 0;
    while i < samples.len()
        invariant
            i <= samples@.len(),
            peak == peak_of(samples@.take(i as int)),
        decreases samples@.len() - i,
    {
        proof {
            assert(samples@.take(i + 1) =~= samples@.take(i as int).push(samples@[i as int]));
            lemma_peak_of_push(samples@.take(i as int), samples@[i as int]);
        }
        let current: u16 = sample_magnitude(samples[i]);
        if current > peak {
            peak = current;
        }
        i = i + 1;
    }
    assert(samples@.take(samples@.len() as int) =~= samples@);
    peak
}

} // verus!
