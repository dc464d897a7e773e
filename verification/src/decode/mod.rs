//! Decoding one stream of a container, one step at a time.
//!
//! The native work of a decode loop is done by the caller: it reads
//! packets, submits them and asks for frames. What to do next, and how each
//! answer of the native layer moves the loop on, is decided here.

pub mod image_decode;
pub mod sequencer;
pub mod simple;

pub use image_decode::ImageDecoder;
pub use sequencer::SimpleSequencer;
pub use simple::{DecodeEvent, DecodeState, Decoded, SimpleDecoder};
