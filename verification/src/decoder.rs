//! Decoding a compressed track into mono samples.

use vstd::prelude::*;

use minimp3::Decoder;

use crate::error::AudioError;
use crate::frame::DecodedFrame;
use crate::track::{mono_track, FrameOutcome, MonoSampleBuffer, StreamItem, TrackView};

verus! {

/// `minimp3::Decoder`, carried through as an opaque value.
#[verifier::external_type_specification]
#[verifier::external_body]
#[verifier::reject_recursive_types(R)]
pub struct ExDecoder<R>(Decoder<R>);

/// The items that a fresh `minimp3::Decoder` over `bytes` hands out, one per
/// call of `next_frame`, before its first report of the end of the input.
/// There are finitely many: the input is finite and every frame takes up some
/// of it.
pub uninterp spec fn mp3_stream(bytes: Seq<u8>) -> Seq<StreamItem>;

/// The items that `decoder` has yet to hand out before it reports the end of
/// its input.
pub uninterp spec fn pending(decoder: Decoder<&[u8]>) -> Seq<StreamItem>;

/// Calls `minimp3::Decoder::new` on a byte slice.
///
/// Not proved: the new decoder has the whole stream of `bytes` pending.
#[verifier::external_body]
fn open_decoder<'a>(bytes: &'a [u8]) -> (decoder: Decoder<&'a [u8]>)
    ensures
        pending(decoder) == mp3_stream(bytes@),
{
    Decoder::new(bytes)
}

/// Calls `minimp3::Decoder::next_frame` and carries its result over: a frame
/// with its samples, channel count and sample rate (held by the decoder as an
/// `i32`, cast to `u32`), `Eof` as the end of the stream, any other error as a
/// failure.
///
/// Not proved: a frame or a failure is the first pending item and leaves the
/// rest pending; the end of the stream comes only when nothing is pending.
#[verifier::external_body]
fn next_outcome(decoder: &mut Decoder<&[u8]>) -> (outcome: FrameOutcome)
    ensures
        match outcome.item() {
            Some(item) => {
                &&& pending(*old(decoder)).len() > 0
                &&& pending(*old(decoder))[0] == item
                &&& pending(*final(decoder)) == pending(*old(decoder)).skip(1)
            },
            None => pending(*old(decoder)).len() == 0,
        },
{
    match decoder.next_frame() {
        Ok(frame) => FrameOutcome::Frame(
            DecodedFrame {
                samples: frame.data,
                channels: frame.channels,
                sample_rate: frame.sample_rate as u32,
            },
        ),
        Err(minimp3::Error::Eof) => FrameOutcome::EndOfStream,
        Err(_) => FrameOutcome::Failed,
    }
}

/// Decodes a compressed track held in memory and reduces it to one channel.
///
/// Returns the mono samples of all frames in order, with the sample rate of the
/// first frame (zero for a track without frames). Decoding stops at the first
/// frame that cannot be reduced and at the first failure of the decoder, and
/// then returns that error and no samples.
pub fn read_mp3_to_mono(bytes: &[u8]) -> (result: Result<(Vec<i16>, u32), AudioError>)
    ensures
        match result {
            Ok(track) => mono_track(mp3_stream(bytes@)) == Ok::<(Seq<i16>, u32), AudioError>(
                (track.0@, track.1),
            ),
            Err(error) => mono_track(mp3_stream(bytes@)) == Err::<(Seq<i16>, u32), AudioError>(
                error,
            ),
        },
{
    let mut decoder = open_decoder(bytes);
    let mut buffer = MonoSampleBuffer::new();
    loop
        invariant
            buffer@.absorb_all(pending(decoder)) == TrackView::empty().absorb_all(
                mp3_stream(bytes@),
            ),
        decreases pending(decoder).len(),
    {
        let outcome = next_outcome(&mut decoder);
        match buffer.absorb_outcome(&outcome) {
            Ok(true) => {},
            Ok(false) => {
                return Ok(buffer.into_parts());
            },
            Err(error) => {
                return Err(error);
            },
        }
    }
}

} // verus!
