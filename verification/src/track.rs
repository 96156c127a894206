//! The mono sample buffer that a stream of frames accumulates into.

use vstd::prelude::*;

use crate::error::AudioError;
use crate::frame::{mono_of, reduce_to_mono, DecodedFrame, FrameView};

verus! {

/// What a decoder hands out when asked for the next frame before the end of
/// the stream: a frame, or a failure to produce one.
pub enum StreamItem {
    Frame(FrameView),
    Failure,
}

/// What one request for the next frame brought.
#[derive(Debug)]
pub enum FrameOutcome {
    Frame(DecodedFrame),
    Failed,
    EndOfStream,
}

impl FrameOutcome {
    /// The stream item that the outcome stands for; none for the end of the
    /// stream.
    pub open spec fn item(self) -> Option<StreamItem> {
        match self {
            FrameOutcome::Frame(frame) => Some(StreamItem::Frame(frame@)),
            FrameOutcome::Failed => Some(StreamItem::Failure),
            FrameOutcome::EndOfStream => None,
        }
    }
}

/// The mathematical content of a [`MonoSampleBuffer`].
pub struct TrackView {
    pub samples: Seq<i16>,
    pub sample_rate: Option<u32>,
}

impl TrackView {
    /// The buffer before any frame.
    pub open spec fn empty() -> TrackView {
        TrackView { samples: Seq::empty(), sample_rate: None }
    }

    /// The rate of the track in hertz: that of its first frame, and zero for a
    /// track without frames.
    pub open spec fn rate(self) -> u32 {
        match self.sample_rate {
            Some(rate) => rate,
            None => 0,
        }
    }

    /// The buffer after one more frame. The frame's mono samples follow those
    /// already held. The first frame fixes the sample rate; the rate of a later
    /// frame is not looked at.
    pub open spec fn absorb(self, frame: FrameView) -> Result<TrackView, AudioError> {
        match mono_of(frame) {
            Ok(mono) => Ok(
                TrackView {
                    samples: self.samples + mono,
                    sample_rate: Some(
                        match self.sample_rate {
                            Some(rate) => rate,
                            None => frame.sample_rate,
                        },
                    ),
                },
            ),
            Err(error) => Err(error),
        }
    }

    /// The buffer after one more item of a stream. A failure of the decoder
    /// is a decode error.
    pub open spec fn absorb_item(self, item: StreamItem) -> Result<TrackView, AudioError> {
        match item {
            StreamItem::Frame(frame) => self.absorb(frame),
            StreamItem::Failure => Err(AudioError::Decode),
        }
    }

    /// The buffer after every item of `stream`, taken in order. The first
    /// failure or rejected frame ends the run with its error.
    pub open spec fn absorb_all(self, stream: Seq<StreamItem>) -> Result<TrackView, AudioError>
        decreases stream.len(),
    {
        if stream.len() == 0 {
            Ok(self)
        } else {
            match self.absorb_item(stream[0]) {
                Ok(next) => next.absorb_all(stream.skip(1)),
                Err(error) => Err(error),
            }
        }
    }
}

/// The mono samples and the sample rate that a whole stream comes to, or the
/// error that ends it.
pub open spec fn mono_track(stream: Seq<StreamItem>) -> Result<(Seq<i16>, u32), AudioError> {
    match TrackView::empty().absorb_all(stream) {
        Ok(track) => Ok((track.samples, track.rate())),
        Err(error) => Err(error),
    }
}

/// Mono samples in playback order, at one sample rate.
#[derive(Debug)]
pub struct MonoSampleBuffer {
    pub samples: Vec<i16>,
    pub sample_rate: Option<u32>,
}

impl View for MonoSampleBuffer {
    type V = TrackView;

    open spec fn view(&self) -> TrackView {
        TrackView { samples: self.samples@, sample_rate: self.sample_rate }
    }
}

impl MonoSampleBuffer {
    /// A buffer without samples, its rate not yet fixed.
    pub fn new() -> (buffer: MonoSampleBuffer)
        ensures
            buffer@ == TrackView::empty(),
    {
        MonoSampleBuffer { samples: Vec::new(), sample_rate: None }
    }

    /// Appends the mono reduction of `frame`. A rejected frame leaves the
    /// buffer as it was.
    pub fn append_frame(&mut self, frame: &DecodedFrame) -> (result: Result<(), AudioError>)
        ensures
            match result {
                Ok(()) => old(self)@.absorb(frame@) == Ok::<TrackView, AudioError>(final(self)@),
                Err(error) => old(self)@.absorb(frame@) == Err::<TrackView, AudioError>(error)
                    && *final(self) == *old(self),
            },
    {
        match reduce_to_mono(frame) {
            Ok(mut mono) => {
                self.samples.append(&mut mono);
                if self.sample_rate.is_none() {
                    self.sample_rate = Some(frame.sample_rate);
                }
                Ok(())
            },
            Err(error) => Err(error),
        }
    }

    /// Takes in what one request to the decoder brought. `Ok(true)` says that
    /// a frame was appended and the stream goes on, `Ok(false)` that the
    /// stream has ended. A failure of the decoder and a rejected frame give
    /// their error. Only an appended frame changes the buffer.
    pub fn absorb_outcome(&mut self, outcome: &FrameOutcome) -> (result: Result<bool, AudioError>)
        ensures
            match outcome.item() {
                None => result == Ok::<bool, AudioError>(false) && *final(self) == *old(self),
                Some(item) => match old(self)@.absorb_item(item) {
                    Ok(next) => result == Ok::<bool, AudioError>(true) && final(self)@ == next,
                    Err(error) => result == Err::<bool, AudioError>(error) && *final(self) == *old(
                        self,
                    ),
                },
            },
    {
        match outcome {
            FrameOutcome::Frame(frame) => match self.append_frame(frame) {
                Ok(()) => Ok(true),
                Err(error) => Err(error),
            },
            FrameOutcome::Failed => Err(AudioError::Decode),
            FrameOutcome::EndOfStream => Ok(false),
        }
    }

    /// The samples and the rate in hertz; the rate is zero if no frame was
    /// appended.
    pub fn into_parts(self) -> (parts: (Vec<i16>, u32))
        ensures
            parts.0@ == self@.samples,
            parts.1 == self@.rate(),
    {
        let rate: u32 = match self.sample_rate {
            Some(rate) => rate,
            None => 0,
        };
        (self.samples, rate)
    }
}

/// A one-channel frame passes through: its samples follow those already in the
/// buffer, unchanged and in order.
pub proof fn lemma_mono_passthrough(track: TrackView, frame: FrameView)
    requires
        frame.channels == 1,
    ensures
        track.absorb(frame) is Ok,
        track.absorb(frame).unwrap().samples == track.samples + frame.samples,
        track.absorb(frame).unwrap().samples.len() == track.samples.len() + frame.samples.len(),
        forall|i: int|
            0 <= i < frame.samples.len() ==> track.absorb(frame).unwrap().samples[track.samples.len()
                + i] == frame.samples[i],
{
}

/// The first item of a stream that cannot be taken in decides the result: when
/// every item before position `at` is taken in and the item at `at` is not,
/// the whole stream comes to the error of that item, whatever follows it.
pub proof fn lemma_first_rejection_decides(track: TrackView, stream: Seq<StreamItem>, at: int)
    requires
        0 <= at < stream.len(),
        track.absorb_all(stream.take(at)) is Ok,
        track.absorb_all(stream.take(at)).unwrap().absorb_item(stream[at]) is Err,
    ensures
        track.absorb_all(stream) == track.absorb_all(stream.take(at)).unwrap().absorb_item(
            stream[at],
        ),
    decreases at,
{
    if at == 0 {
        assert(stream.take(0).len() == 0);
    } else {
        let head = stream.take(at);
        assert(head[0] == stream[0]);
        assert(head.skip(1) =~= stream.skip(1).take(at - 1));
        let next = track.absorb_item(stream[0]).unwrap();
        assert(stream.skip(1)[at - 1] == stream[at]);
        lemma_first_rejection_decides(next, stream.skip(1), at - 1);
    }
}

/// A frame whose channel count is neither one nor two is never taken in, and
/// its error names the count.
pub proof fn lemma_unsupported_channels(track: TrackView, frame: FrameView)
    requires
        frame.channels != 1,
        frame.channels != 2,
    ensures
        track.absorb_item(StreamItem::Frame(frame)) == Err::<TrackView, AudioError>(
            AudioError::UnsupportedFormat { channels: frame.channels },
        ),
{
}

} // verus!
