//! Loudness of a decoded audio track over playback time.
//!
//! A compressed track is decoded frame by frame and reduced to one channel.
//! The mono samples yield a loudness envelope: the magnitude of every sample
//! relative to the loudest sample of the track. Elapsed playback time maps to
//! a position in that envelope, held to the last sample once the track is over.
//!
//! Loudness values are exact ratios of integers; turning one into a display
//! quantity is left to the caller.

pub mod error;
pub mod frame;
pub mod track;
pub mod decoder;
pub mod envelope;
pub mod clock;
pub mod music;
