//! A decoded track, ready to be asked for its loudness at any playback time.

use vstd::prelude::*;

use crate::clock::{clamped_index, playback_index};
use crate::decoder::{mp3_stream, read_mp3_to_mono};
use crate::envelope::{
    envelope_of, lemma_peak_of, magnitude, peak_magnitude, peak_of, sample_magnitude, Loudness,
    LoudnessEnvelope,
};
use crate::error::AudioError;
use crate::track::mono_track;

verus! {

/// The loudness of a track after `elapsed_millis` milliseconds of playback: the
/// entry of the envelope at the clamped position, and zero for a track without
/// samples.
pub open spec fn loudness_at_time(envelope: LoudnessEnvelope, elapsed_millis: nat) -> Loudness {
    if envelope.len() == 0 {
        Loudness { magnitude: 0, peak: 0 }
    } else {
        envelope.value_at(
            clamped_index(elapsed_millis, envelope.sample_rate as nat, envelope.len()) as int,
        )
    }
}

/// The track that a compressed stream of `bytes` decodes to, as an envelope.
pub open spec fn decoded_envelope(bytes: Seq<u8>) -> Result<LoudnessEnvelope, AudioError> {
    match mono_track(mp3_stream(bytes)) {
        Ok(track) => Ok(envelope_of(track.0, track.1)),
        Err(error) => Err(error),
    }
}

/// The mono samples of a track with their peak magnitude and sample rate.
/// Built once and read-only from then on.
#[derive(Debug)]
pub struct Music {
    peak: u16,
    samples: Vec<i16>,
    sample_rate: u32,
}

impl View for Music {
    type V = LoudnessEnvelope;

    closed spec fn view(&self) -> LoudnessEnvelope {
        envelope_of(self.samples@, self.sample_rate)
    }
}

impl Music {
    #[verifier::type_invariant]
    spec fn peak_is_maximum(self) -> bool {
        self.peak == peak_of(self.samples@)
    }

    /// Builds the envelope of a whole track: finds the peak magnitude of
    /// `samples` and keeps it with them.
    pub fn new(samples: Vec<i16>, sample_rate: u32) -> (music: Music)
        ensures
            music@ == envelope_of(samples@, sample_rate),
    {
        let peak: u16 = peak_magnitude(&samples);
        Music { peak, samples, sample_rate }
    }

    /// Decodes a compressed track held in memory and builds its envelope.
    /// No envelope is built from a track that fails to decode.
    pub fn decode(bytes: &[u8]) -> (result: Result<Music, AudioError>)
        ensures
            match result {
                Ok(music) => decoded_envelope(bytes@) == Ok::<LoudnessEnvelope, AudioError>(music@),
                Err(error) => decoded_envelope(bytes@) == Err::<LoudnessEnvelope, AudioError>(
                    error,
                ),
            },
    {
        match read_mp3_to_mono(bytes) {
            Ok(track) => Ok(Music::new(track.0, track.1)),
            Err(error) => Err(error),
        }
    }

    /// The number of samples.
    pub fn len(&self) -> (len: usize)
        ensures
            len == self@.len(),
    {
        self.samples.len()
    }

    /// The sample rate in hertz.
    pub fn sample_rate(&self) -> (rate: u32)
        ensures
            rate == self@.sample_rate,
    {
        self.sample_rate
    }

    /// The largest magnitude of the track; zero for a silent track.
    pub fn peak(&self) -> (peak: u16)
        ensures
            peak == self@.peak,
    {
        proof {
            use_type_invariant(self);
        }
        self.peak
    }

    /// The position in the track after `elapsed_millis` milliseconds of
    /// playback, held to the last sample once the track is over. `None` for a
    /// track without samples.
    pub fn sample_index(&self, elapsed_millis: u128) -> (index: Option<usize>)
        ensures
            self@.len() == 0 <==> index is None,
            index matches Some(i) ==> i < self@.len() && i == clamped_index(
                elapsed_millis as nat,
                self@.sample_rate as nat,
                self@.len(),
            ),
    {
        playback_index(elapsed_millis, self.sample_rate, self.samples.len())
    }

    /// The loudness at position `index`, or `None` past the end of the track.
    pub fn loudness_at(&self, index: usize) -> (loudness: Option<Loudness>)
        ensures
            index >= self@.len() <==> loudness is None,
            index < self@.len() ==> loudness == Some(self@.value_at(index as int)),
            loudness matches Some(l) ==> l.normalized(),
    {
        proof {
            use_type_invariant(self);
            lemma_peak_of(self.samples@);
        }
        if index < self.samples.len() {
            let level: u16 = sample_magnitude(self.samples[index]);
            assert(magnitude(self.samples@[index as int]) <= peak_of(self.samples@));
            Some(Loudness { magnitude: level, peak: self.peak })
        } else {
            None
        }
    }

    /// The loudness after `elapsed_millis` milliseconds of playback. Once the
    /// track is over, this is the loudness of its last sample. A track without
    /// samples and a silent track have loudness zero throughout.
    pub fn current_loudness(&self, elapsed_millis: u128) -> (loudness: Loudness)
        ensures
            loudness == loudness_at_time(self@, elapsed_millis as nat),
            loudness.normalized(),
    {
        match self.sample_index(elapsed_millis) {
            Some(index) => {
                match self.loudness_at(index) {
                    Some(loudness) => loudness,
                    None => Loudness { magnitude: 0, peak: 0 },
                }
            },
            None => Loudness { magnitude: 0, peak: 0 },
        }
    }
}

/// Once the plain position has reached the last sample, the loudness stays
/// that of the last sample for good.
pub proof fn lemma_loudness_holds_past_end(envelope: LoudnessEnvelope, elapsed_millis: nat)
    requires
        envelope.len() > 0,
        crate::clock::sample_index(elapsed_millis, envelope.sample_rate as nat) >= envelope.len()
            - 1,
    ensures
        loudness_at_time(envelope, elapsed_millis) == envelope.value_at(envelope.len() - 1),
{
}

} // verus!
