//! Sequential access to the frames of one buffer: a cursor, the length of the frame last
//! peeked at, and the buffer that frames are decoded into.
use crate::decoder::{Decoder, DecoderBuf};
use crate::engine::{data_len_spec, EngineReply};
use crate::frame::{outcome, Frame, FrameView, InsufficientData, Sample};
use crate::translate::translate_spec;
use vstd::prelude::*;
use vstd::slice::slice_subrange;

verus! {

/// The state of a stream as contracts speak of it.
pub struct StreamView {
    /// The whole buffer that the stream walks.
    pub source: Seq<u8>,
    /// Bytes consumed so far: the cursor's offset from the start of `source`.
    pub position: nat,
    /// The bytes that the frame at the cursor consumes, where the last call was a peek
    /// that found one.
    pub peek_cache: Option<nat>,
    /// The samples in the stream's output buffer.
    pub pcm: Seq<Sample>,
}

impl StreamView {
    /// The cursor lies inside the buffer, and a cached frame length is that of a frame
    /// that lies inside what remains.
    pub open spec fn wf(self) -> bool {
        &&& self.position <= self.source.len()
        &&& self.peek_cache matches Some(n) ==> 0 < n && self.position + n <= self.source.len()
    }

    /// The bytes from the cursor to the end of the buffer: the input of the next attempt.
    pub open spec fn remaining(self) -> Seq<u8> {
        self.source.subrange(self.position as int, self.source.len() as int)
    }

    /// The length that the engine is given with [`remaining`](Self::remaining).
    pub open spec fn input_len(self) -> int {
        data_len_spec(self.remaining().len())
    }

    /// The stream moved on by `n` bytes, with nothing cached.
    pub open spec fn advanced(self, n: nat) -> StreamView {
        StreamView { position: self.position + n, peek_cache: None, ..self }
    }

    /// What `next` returns on `reply`.
    pub open spec fn next_frame(self, reply: EngineReply) -> Option<FrameView> {
        translate_spec(reply, self.remaining(), Some(self.pcm))
    }

    /// The stream after `next` on `reply`: past the frame if there was one, where it was
    /// if not; nothing cached either way.
    pub open spec fn after_next(self, reply: EngineReply) -> StreamView {
        match self.next_frame(reply) {
            Some(frame) => self.advanced(frame.bytes_consumed()),
            None => self.advanced(0),
        }
    }

    /// What `peek` returns on `reply`.
    pub open spec fn peek_frame(self, reply: EngineReply) -> Option<FrameView> {
        translate_spec(reply, self.remaining(), None)
    }

    /// The stream after `peek` on `reply`: where it was, with the frame's length cached
    /// if there was one.
    pub open spec fn after_peek(self, reply: EngineReply) -> StreamView {
        StreamView {
            peek_cache: match self.peek_frame(reply) {
                Some(frame) => Some(frame.bytes_consumed()),
                None => None,
            },
            ..self
        }
    }

    /// What `skip` asks of its caller: after a peek that found a frame, nothing; else a
    /// reply, and one that keeps to the engine's contract for what remains.
    pub open spec fn can_skip(self, reply: Option<EngineReply>) -> bool {
        match self.peek_cache {
            Some(_) => true,
            None => reply is Some && reply->0.conforms(self.input_len()),
        }
    }

    /// The bytes that `skip` moves the cursor by: the cached length where there is one,
    /// else the length of the frame that a peek on `reply` finds; `None` where it finds
    /// no frame.
    pub open spec fn skip_len(self, reply: Option<EngineReply>) -> Option<nat> {
        match (self.peek_cache, reply) {
            (Some(n), _) => Some(n),
            (None, Some(reply)) => self.after_peek(reply).peek_cache,
            (None, None) => None,
        }
    }

    /// The stream after `skip`: past the frame if there was one, where it was if not;
    /// nothing cached either way.
    pub open spec fn after_skip(self, reply: Option<EngineReply>) -> StreamView {
        match self.skip_len(reply) {
            Some(n) => self.advanced(n),
            None => self.advanced(0),
        }
    }

    /// The stream after `set_position(n)`: the cursor at `n`, or at the end of the
    /// buffer where `n` lies beyond it; nothing cached.
    pub open spec fn after_set_position(self, n: nat) -> StreamView {
        StreamView {
            position: if n <= self.source.len() {
                n
            } else {
                self.source.len()
            },
            peek_cache: None,
            ..self
        }
    }
}

/// The reply that a call was given, as contracts speak of it.
pub open spec fn reply_view(reply: Option<&EngineReply>) -> Option<EngineReply> {
    match reply {
        Some(reply) => Some(*reply),
        None => None,
    }
}

/// The part of a stream that moves: the cursor, the length last peeked at, and the output
/// buffer. The bytes it walks are held by the stream around it and handed to each call.
struct Navigator {
    decoder: Decoder,
    decoder_buf: DecoderBuf,
    peek_cache_len: Option<usize>,
    position: usize,
}

impl Navigator {
    /// The state of a stream that holds this navigator and the bytes `source`.
    closed spec fn over(&self, source: Seq<u8>) -> StreamView {
        StreamView {
            source,
            position: self.position as nat,
            peek_cache: match self.peek_cache_len {
                Some(n) => Some(n as nat),
                None => None,
            },
            pcm: self.decoder_buf@,
        }
    }

    /// A navigator at the start of its bytes, with nothing peeked and a zeroed buffer.
    fn new() -> (nav: Self)
        ensures
            forall|source: Seq<u8>| #[trigger]
                nav.over(source) == (StreamView {
                    source,
                    position: 0,
                    peek_cache: None,
                    pcm: DecoderBuf::zeroed(),
                }),
    {
        Navigator {
            decoder: Decoder::new(),
            decoder_buf: DecoderBuf::new(),
            peek_cache_len: None,
            position: 0,
        }
    }

    /// The bytes of `source` from the cursor on.
    fn remaining<'src>(&self, source: &'src [u8]) -> (data: &'src [u8])
        requires
            self.over(source@).wf(),
        ensures
            data@ == self.over(source@).remaining(),
    {
        slice_subrange(source, self.position, source.len())
    }

    /// Moves a cursor on by `offset` bytes that are known to lie before the end of the
    /// buffer.
    fn offset_trusted(position: &mut usize, offset: usize)
        requires
            *old(position) + offset <= usize::MAX,
        ensures
            *final(position) == *old(position) + offset,
    {
        *position = *position + offset;
    }

    /// Forgets what was peeked, reads the frame that `reply` stands for, and moves past
    /// it if there is one.
    fn next<'src, 'pcm>(&'pcm mut self, source: &'src [u8], reply: &EngineReply) -> (r: Result<
        Frame<'src, 'pcm>,
        InsufficientData,
    >)
        requires
            old(self).over(source@).wf(),
            reply.conforms(old(self).over(source@).input_len()),
        ensures
            final(self).over(source@).wf(),
            outcome(r) == old(self).over(source@).next_frame(*reply),
            final(self).over(source@) == old(self).over(source@).after_next(*reply),
            r is Err <==> reply.found_nothing(),
            r matches Ok(Frame::Audio(s)) ==> s.samples@.len() == s.sample_count * s.channels,
    {
        self.peek_cache_len = None;
        let data = slice_subrange(source, self.position, source.len());
        let response = self.decoder.next(data, &mut self.decoder_buf, reply);
        if response.is_ok() {
            Self::offset_trusted(&mut self.position, reply.info.frame_bytes as usize);
        }
        response
    }

    /// Reads the frame that `reply` stands for and keeps its length; the cursor stays.
    fn peek<'src>(&mut self, source: &'src [u8], reply: &EngineReply) -> (r: Result<
        Frame<'src, 'static>,
        InsufficientData,
    >)
        requires
            old(self).over(source@).wf(),
            reply.conforms(old(self).over(source@).input_len()),
        ensures
            final(self).over(source@).wf(),
            outcome(r) == old(self).over(source@).peek_frame(*reply),
            final(self).over(source@) == old(self).over(source@).after_peek(*reply),
            r is Err <==> reply.found_nothing(),
            r matches Ok(Frame::Audio(s)) ==> s.samples@.len() == 0 && s.sample_count
                == reply.samples,
    {
        self.peek_cache_len = None;
        let data = slice_subrange(source, self.position, source.len());
        let response = self.decoder.peek(data, reply);
        match &response {
            Ok(frame) => {
                self.peek_cache_len = Some(frame.bytes_consumed());
            },
            Err(_) => {
                self.peek_cache_len = None;
            },
        }
        response
    }

    /// Puts the cursor at `position`, or at the end of `source` where `position` lies
    /// beyond it, and forgets what was peeked.
    fn set_position(&mut self, source: &[u8], position: usize)
        requires
            old(self).over(source@).wf(),
        ensures
            final(self).over(source@).wf(),
            final(self).over(source@) == old(self).over(source@).after_set_position(
                position as nat,
            ),
    {
        let len: usize = source.len();
        self.peek_cache_len = None;
        self.position = if position <= len {
            position
        } else {
            len
        };
    }

    /// Moves past the frame at the cursor: by the length that a peek kept, or else by
    /// that of the frame that a peek on `reply` finds.
    fn skip(&mut self, source: &[u8], reply: Option<&EngineReply>) -> (r: Result<
        (),
        InsufficientData,
    >)
        requires
            old(self).over(source@).wf(),
            old(self).over(source@).can_skip(reply_view(reply)),
        ensures
            final(self).over(source@).wf(),
            r is Ok <==> old(self).over(source@).skip_len(reply_view(reply)) is Some,
            final(self).over(source@) == old(self).over(source@).after_skip(reply_view(reply)),
    {
        let offset: usize = match self.peek_cache_len.take() {
            Some(offset) => offset,
            None => match reply {
                Some(reply) => match self.peek(source, reply) {
                    Ok(frame) => frame.bytes_consumed(),
                    Err(e) => {
                        return Err(e);
                    },
                },
                None => {
                    // No frame is known and none was reported.
                    return Err(InsufficientData);
                },
            },
        };
        proof {
            vstd::slice::axiom_spec_len(source);
        }
        self.peek_cache_len = None;
        Self::offset_trusted(&mut self.position, offset);
        Ok(())
    }
}

/// High-level streaming iterator for parsing or decoding MPEG audio data.
///
/// For each call that takes an [`EngineReply`], the caller first runs the engine on
/// [`remaining`](Self::remaining), cut to [`input_len`](StreamView::input_len) bytes:
/// decoding into [`decoder_buf_mut`](Self::decoder_buf_mut) for [`next`](Self::next),
/// parsing only for [`peek`](Self::peek) and [`skip`](Self::skip).
pub struct DecoderStream<'src> {
    nav: Navigator,
    source: &'src [u8],
}

impl<'src> View for DecoderStream<'src> {
    type V = StreamView;

    closed spec fn view(&self) -> StreamView {
        self.nav.over(self.source@)
    }
}

impl<'src> DecoderStream<'src> {
    /// The stream's invariant: see [`StreamView::wf`].
    pub open spec fn wf(&self) -> bool {
        self@.wf()
    }

    /// Constructs a new `DecoderStream` over the given MPEG audio bytes.
    pub fn new(source: &'src [u8]) -> (stream: Self)
        ensures
            stream.wf(),
            stream@ == (StreamView {
                source: source@,
                position: 0,
                peek_cache: None,
                pcm: DecoderBuf::zeroed(),
            }),
    {
        DecoderStream { nav: Navigator::new(), source }
    }

    /// The bytes from the cursor to the end of the buffer: what the engine is to be run
    /// on for the next call.
    pub fn remaining(&self) -> (data: &'src [u8])
        requires
            self.wf(),
        ensures
            data@ == self@.remaining(),
    {
        self.nav.remaining(self.source)
    }

    /// The output buffer, for the engine to decode into before [`next`](Self::next).
    pub fn decoder_buf_mut(&mut self) -> (buf: &mut DecoderBuf)
        ensures
            buf@ == old(self)@.pcm,
            final(self)@ == (StreamView { pcm: final(buf)@, ..old(self)@ }),
            final(self).wf() == old(self).wf(),
    {
        &mut self.nav.decoder_buf
    }

    /// The length of the frame at the cursor, where the last call was a peek that found
    /// one: [`skip`](Self::skip) then needs no reply.
    pub fn peeked_len(&self) -> (len: Option<usize>)
        ensures
            len is Some <==> self@.peek_cache is Some,
            len matches Some(n) ==> self@.peek_cache == Some(n as nat),
    {
        self.nav.peek_cache_len
    }

    /// Reads the next frame, passing over garbage, from what the engine reported after
    /// decoding [`remaining`](Self::remaining) into the stream's buffer. The cursor
    /// moves past the frame; on [`InsufficientData`] it stays.
    pub fn next<'pcm>(&'pcm mut self, reply: &EngineReply) -> (r: Result<
        Frame<'src, 'pcm>,
        InsufficientData,
    >)
        requires
            old(self).wf(),
            reply.conforms(old(self)@.input_len()),
        ensures
            final(self).wf(),
            outcome(r) == old(self)@.next_frame(*reply),
            final(self)@ == old(self)@.after_next(*reply),
            r is Err <==> reply.found_nothing(),
            r matches Ok(Frame::Audio(s)) ==> s.samples@.len() == s.sample_count * s.channels,
    {
        self.nav.next(self.source, reply)
    }

    /// Gets the current position in the input data.
    pub fn position(&self) -> (position: usize)
        ensures
            position == self@.position,
    {
        self.nav.position
    }

    /// Reads a frame without decoding it or advancing the stream, from what the engine
    /// reported after parsing [`remaining`](Self::remaining). The samples of an audio
    /// frame are empty.
    ///
    /// Use [`skip`](Self::skip) to advance without decoding.
    pub fn peek(&mut self, reply: &EngineReply) -> (r: Result<
        Frame<'src, 'static>,
        InsufficientData,
    >)
        requires
            old(self).wf(),
            reply.conforms(old(self)@.input_len()),
        ensures
            final(self).wf(),
            outcome(r) == old(self)@.peek_frame(*reply),
            final(self)@ == old(self)@.after_peek(*reply),
            r is Err <==> reply.found_nothing(),
            r matches Ok(Frame::Audio(s)) ==> s.samples@.len() == 0 && s.sample_count
                == reply.samples,
    {
        self.nav.peek(self.source, reply)
    }

    /// Sets the current position in the input data.
    ///
    /// If `position` is out of bounds, it's set to the end of the buffer instead.
    pub fn set_position(&mut self, position: usize)
        requires
            old(self).wf(),
        ensures
            final(self).wf(),
            final(self)@ == old(self)@.after_set_position(position as nat),
    {
        self.nav.set_position(self.source, position)
    }

    /// Skips the frame that the stream is over, if any.
    ///
    /// After a peek that found a frame no reply is read: the cursor moves by the length
    /// that the peek kept. Otherwise `reply` is what the engine reported after parsing
    /// [`remaining`](Self::remaining), and the call peeks first.
    pub fn skip(&mut self, reply: Option<&EngineReply>) -> (r: Result<(), InsufficientData>)
        requires
            old(self).wf(),
            old(self)@.can_skip(reply_view(reply)),
        ensures
            final(self).wf(),
            r is Ok <==> old(self)@.skip_len(reply_view(reply)) is Some,
            final(self)@ == old(self)@.after_skip(reply_view(reply)),
    {
        self.nav.skip(self.source, reply)
    }
}

/// A [`DecoderStream`] that owns the bytes it walks, so that the two can be held and
/// passed on as one.
pub struct DecoderStreamOwned {
    nav: Navigator,
    data: Vec<u8>,
}

impl View for DecoderStreamOwned {
    type V = StreamView;

    closed spec fn view(&self) -> StreamView {
        self.nav.over(self.data@)
    }
}

impl DecoderStreamOwned {
    /// The stream's invariant: see [`StreamView::wf`].
    pub open spec fn wf(&self) -> bool {
        self@.wf()
    }

    /// Constructs a new `DecoderStreamOwned` over the given MPEG audio bytes.
    pub fn new(source: Vec<u8>) -> (stream: Self)
        ensures
            stream.wf(),
            stream@ == (StreamView {
                source: source@,
                position: 0,
                peek_cache: None,
                pcm: DecoderBuf::zeroed(),
            }),
    {
        DecoderStreamOwned { nav: Navigator::new(), data: source }
    }

    /// The bytes from the cursor to the end of the buffer: what the engine is to be run
    /// on for the next call.
    pub fn remaining(&self) -> (data: &[u8])
        requires
            self.wf(),
        ensures
            data@ == self@.remaining(),
    {
        self.nav.remaining(self.data.as_slice())
    }

    /// The output buffer, for the engine to decode into before [`next`](Self::next).
    pub fn decoder_buf_mut(&mut self) -> (buf: &mut DecoderBuf)
        ensures
            buf@ == old(self)@.pcm,
            final(self)@ == (StreamView { pcm: final(buf)@, ..old(self)@ }),
            final(self).wf() == old(self).wf(),
    {
        &mut self.nav.decoder_buf
    }

    /// The length of the frame at the cursor, where the last call was a peek that found
    /// one: [`skip`](Self::skip) then needs no reply.
    pub fn peeked_len(&self) -> (len: Option<usize>)
        ensures
            len is Some <==> self@.peek_cache is Some,
            len matches Some(n) ==> self@.peek_cache == Some(n as nat),
    {
        self.nav.peek_cache_len
    }

    /// Reads a frame without decoding it or advancing the stream: see
    /// [`DecoderStream::peek`].
    pub fn peek<'src>(&'src mut self, reply: &EngineReply) -> (r: Result<
        Frame<'src, 'static>,
        InsufficientData,
    >)
        requires
            old(self).wf(),
            reply.conforms(old(self)@.input_len()),
        ensures
            final(self).wf(),
            outcome(r) == old(self)@.peek_frame(*reply),
            final(self)@ == old(self)@.after_peek(*reply),
            r is Err <==> reply.found_nothing(),
            r matches Ok(Frame::Audio(s)) ==> s.samples@.len() == 0 && s.sample_count
                == reply.samples,
    {
        self.nav.peek(self.data.as_slice(), reply)
    }

    /// Reads the next frame and moves past it: see [`DecoderStream::next`].
    pub fn next<'dec>(&'dec mut self, reply: &EngineReply) -> (r: Result<
        Frame<'dec, 'dec>,
        InsufficientData,
    >)
        requires
            old(self).wf(),
            reply.conforms(old(self)@.input_len()),
        ensures
            final(self).wf(),
            outcome(r) == old(self)@.next_frame(*reply),
            final(self)@ == old(self)@.after_next(*reply),
            r is Err <==> reply.found_nothing(),
            r matches Ok(Frame::Audio(s)) ==> s.samples@.len() == s.sample_count * s.channels,
    {
        self.nav.next(self.data.as_slice(), reply)
    }

    /// Skips the frame that the stream is over, if any: see [`DecoderStream::skip`].
    pub fn skip(&mut self, reply: Option<&EngineReply>) -> (r: Result<(), InsufficientData>)
        requires
            old(self).wf(),
            old(self)@.can_skip(reply_view(reply)),
        ensures
            final(self).wf(),
            r is Ok <==> old(self)@.skip_len(reply_view(reply)) is Some,
            final(self)@ == old(self)@.after_skip(reply_view(reply)),
    {
        self.nav.skip(self.data.as_slice(), reply)
    }
}

} // verus!
