//! Frame-by-frame navigation over an MPEG audio (Layer I/II/III) bitstream held in memory.
//!
//! The bit-level decoding is the work of a codec engine that runs outside this crate, one
//! attempt per call. Before a call that takes an [`EngineReply`] the caller runs the engine
//! on the bytes that the call is about ([`DecoderStream::remaining`] for a stream, the
//! caller's own slice for a [`Decoder`]), with the length [`data_len_safe`] gives, and
//! makes sure with [`EngineReply::check`] that the engine kept to its contract. The crate
//! turns the reply into a [`Frame`], moves the cursor, and keeps the length of the frame
//! last peeked at, so that a skip after a peek needs no second attempt.
//!
//! Contracts speak of a stream through its [`StreamView`]; [`laws`] holds what follows
//! for every buffer and every run of replies.
pub mod decoder;
pub mod engine;
pub mod frame;
pub mod laws;
pub mod stream;
pub mod translate;

pub use crate::decoder::{Decoder, DecoderBuf};
pub use crate::engine::{data_len_safe, data_len_spec, EngineReply, FrameInfo};
pub use crate::frame::{
    Frame, FrameView, InsufficientData, Sample, Samples, SamplesView, MAX_SAMPLES_PER_FRAME,
};
pub use crate::stream::{DecoderStream, DecoderStreamOwned, StreamView};
pub use crate::translate::{source_slice, translate_response, translate_spec};
