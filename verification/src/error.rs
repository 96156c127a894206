//! The ways in which preparing a track can fail.

use vstd::prelude::*;

verus! {

/// A failure that ends the preparation of a track. No partial track is handed out.
#[derive(Debug, Clone, Copy, PartialEq, Eq, Structural)]
pub enum AudioError {
    /// The stream is malformed: the decoder reported a failure before the end of
    /// the stream, or a stereo frame holds a sample without its partner.
    Decode,
    /// A frame has a channel count other than one or two.
    UnsupportedFormat { channels: usize },
}

} // verus!
