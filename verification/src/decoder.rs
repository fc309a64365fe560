//! The single-shot decoder and the buffer that the engine decodes into.
use crate::engine::{data_len_spec, EngineReply};
use crate::frame::{outcome, Frame, InsufficientData, Sample, MAX_SAMPLES_PER_FRAME};
use crate::translate::{translate_response, translate_spec};
use vstd::array::array_as_slice;
use vstd::prelude::*;

verus! {

/// Fixed buffer for the PCM data of one frame, used alongside a [`Decoder`].
///
/// Every decode overwrites it: a frame's samples are good until the next decode into the
/// same buffer, which the borrow in [`Decoder::next`] enforces.
pub struct DecoderBuf([Sample; MAX_SAMPLES_PER_FRAME]);

impl View for DecoderBuf {
    type V = Seq<Sample>;

    closed spec fn view(&self) -> Seq<Sample> {
        self.0@
    }
}

impl DecoderBuf {
    /// The contents of a new buffer: [`MAX_SAMPLES_PER_FRAME`] samples, all zero.
    pub open spec fn zeroed() -> Seq<Sample> {
        Seq::new(MAX_SAMPLES_PER_FRAME as nat, |i: int| 0i16)
    }

    /// Constructs a new `DecoderBuf`, all samples zero.
    pub fn new() -> (buf: Self)
        ensures
            buf@ == Self::zeroed(),
    {
        DecoderBuf([0; MAX_SAMPLES_PER_FRAME])
    }

    /// A buffer always holds [`MAX_SAMPLES_PER_FRAME`] samples.
    pub proof fn lemma_len(&self)
        ensures
            self@.len() == MAX_SAMPLES_PER_FRAME,
    {
    }

    /// The samples in the buffer.
    pub fn as_slice(&self) -> (samples: &[Sample])
        ensures
            samples@ == self@,
    {
        array_as_slice(&self.0)
    }

    /// The samples in the buffer, for the engine to write to.
    pub fn samples_mut(&mut self) -> (samples: &mut [Sample; MAX_SAMPLES_PER_FRAME])
        ensures
            samples@ == old(self)@,
            final(self)@ == final(samples)@,
    {
        &mut self.0
    }
}

/// Primitive decoder for parsing or decoding MPEG audio data.
///
/// It holds no position: every call works on the slice it is given, from its first
/// byte, and on what the engine reported of that same slice. To walk a whole buffer,
/// [`DecoderStream`](crate::stream::DecoderStream) is more convenient.
pub struct Decoder {}

impl Decoder {
    /// Constructs a new `Decoder` for processing MPEG audio data.
    pub fn new() -> Self {
        Decoder {  }
    }

    /// Reads a frame without decoding it, from what the engine, asked to parse only,
    /// reported of `data`.
    ///
    /// The samples of an audio frame are empty;
    /// [`sample_count`](crate::frame::Samples::sample_count) tells how many there would be.
    pub fn peek<'src>(&mut self, data: &'src [u8], reply: &EngineReply) -> (r: Result<
        Frame<'src, 'static>,
        InsufficientData,
    >)
        requires
            reply.conforms(data_len_spec(data@.len())),
        ensures
            outcome(r) == translate_spec(*reply, data@, None),
            r is Err <==> reply.found_nothing(),
            r matches Ok(frame) ==> 0 < frame@.bytes_consumed() <= data@.len(),
            r matches Ok(Frame::Audio(s)) ==> s.samples@.len() == 0,
    {
        translate_response(reply, data, None)
    }

    /// Reads the next frame, from what the engine reported of `data` after decoding it
    /// into `buf`.
    pub fn next<'src, 'pcm>(
        &mut self,
        data: &'src [u8],
        buf: &'pcm mut DecoderBuf,
        reply: &EngineReply,
    ) -> (r: Result<Frame<'src, 'pcm>, InsufficientData>)
        requires
            reply.conforms(data_len_spec(data@.len())),
        ensures
            final(buf)@ == old(buf)@,
            outcome(r) == translate_spec(*reply, data@, Some(old(buf)@)),
            r is Err <==> reply.found_nothing(),
            r matches Ok(frame) ==> 0 < frame@.bytes_consumed() <= data@.len(),
            r matches Ok(Frame::Audio(s)) ==> s.samples@.len() == s.sample_count * s.channels,
    {
        translate_response(reply, data, Some(&*buf))
    }
}

} // verus!
