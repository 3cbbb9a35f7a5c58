//! A framing layer between protocol logic and a non-blocking byte transport.
//!
//! The crate holds the buffering state machine only: it decides when the
//! codec is offered the read buffer, when the transport has to be read or
//! written, and how each completed transport operation changes the buffers.
//! The caller performs the transport operations and reports their outcome.

pub mod buffer;
pub mod codec;
pub mod error;
pub mod frames;
pub mod laws;

pub use crate::codec::{BytesCodec, Decoder, Encoder};
pub use crate::error::FramesError;
pub use crate::frames::{Close, Flush, Frames, FramesInner, FramesView, Next};
