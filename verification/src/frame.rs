//! The result of one decode attempt: a frame of audio, a span of bytes that is no frame,
//! or the news that the input holds no complete frame.
use vstd::prelude::*;

verus! {

/// One PCM sample as the codec engine writes it.
pub type Sample = i16;

/// The most interleaved samples one frame can yield: 1152 per channel for two channels.
pub const MAX_SAMPLES_PER_FRAME: usize = 2304;

/// The input holds no complete frame and no span of bytes that can be passed over.
/// Nothing was consumed.
#[derive(Clone, Copy, Debug, PartialEq, Eq)]
pub struct InsufficientData;

/// PCM frame data.
///
/// After a peek, [`samples`](Self::samples) is empty and
/// [`sample_count`](Self::sample_count) still tells how many samples the frame holds.
#[derive(Clone, Copy, Debug)]
pub struct Samples<'src, 'pcm> {
    /// Bitrate of the source frame in kb/s.
    pub bitrate: u32,
    /// Number of channels in this frame.
    pub channels: u32,
    /// MPEG layer of this frame.
    pub mpeg_layer: u32,
    /// Sample rate of this frame in Hz.
    pub sample_rate: u32,
    /// Total bytes consumed from the start of the input data.
    pub bytes_consumed: usize,
    /// Source bytes of the frame, including the header, excluding the bytes passed over
    /// before it.
    pub source: &'src [u8],
    /// The decoded samples, channels interleaved, inside the output buffer.
    pub samples: &'pcm [Sample],
    /// Samples per channel in this frame.
    pub sample_count: usize,
}

/// Audio or miscellaneous data in a frame.
#[derive(Clone, Copy, Debug)]
pub enum Frame<'src, 'pcm> {
    /// PCM sample data.
    Audio(Samples<'src, 'pcm>),
    /// Bytes that are no frame the engine can decode.
    Unknown {
        /// Total bytes consumed from the start of the input data.
        bytes_consumed: usize,
        /// The bytes of the span, excluding the bytes passed over before it.
        source: &'src [u8],
    },
}

/// What a [`Samples`] value holds, with its two slices as sequences.
pub struct SamplesView {
    pub bitrate: u32,
    pub channels: u32,
    pub mpeg_layer: u32,
    pub sample_rate: u32,
    pub bytes_consumed: nat,
    pub source: Seq<u8>,
    pub samples: Seq<Sample>,
    pub sample_count: nat,
}

/// What a [`Frame`] holds, with its slices as sequences.
pub enum FrameView {
    Audio(SamplesView),
    Unknown { bytes_consumed: nat, source: Seq<u8> },
}

impl FrameView {
    /// Total bytes that the frame takes from the input, whichever variant it is.
    pub open spec fn bytes_consumed(self) -> nat {
        match self {
            FrameView::Audio(s) => s.bytes_consumed,
            FrameView::Unknown { bytes_consumed, .. } => bytes_consumed,
        }
    }

    /// The source bytes of the frame, whichever variant it is.
    pub open spec fn source(self) -> Seq<u8> {
        match self {
            FrameView::Audio(s) => s.source,
            FrameView::Unknown { source, .. } => source,
        }
    }
}

impl<'src, 'pcm> View for Samples<'src, 'pcm> {
    type V = SamplesView;

    open spec fn view(&self) -> SamplesView {
        SamplesView {
            bitrate: self.bitrate,
            channels: self.channels,
            mpeg_layer: self.mpeg_layer,
            sample_rate: self.sample_rate,
            bytes_consumed: self.bytes_consumed as nat,
            source: self.source@,
            samples: self.samples@,
            sample_count: self.sample_count as nat,
        }
    }
}

impl<'src, 'pcm> View for Frame<'src, 'pcm> {
    type V = FrameView;

    open spec fn view(&self) -> FrameView {
        match *self {
            Frame::Audio(s) => FrameView::Audio(s@),
            Frame::Unknown { bytes_consumed, source } => FrameView::Unknown {
                bytes_consumed: bytes_consumed as nat,
                source: source@,
            },
        }
    }
}

impl<'src, 'pcm> Frame<'src, 'pcm> {
    /// Total bytes consumed from the start of the input data.
    pub fn bytes_consumed(&self) -> (n: usize)
        ensures
            n == self@.bytes_consumed(),
    {
        match self {
            Frame::Audio(s) => s.bytes_consumed,
            Frame::Unknown { bytes_consumed, .. } => *bytes_consumed,
        }
    }

    /// The source bytes of the frame.
    pub fn source(&self) -> (s: &'src [u8])
        ensures
            s@ == self@.source(),
    {
        match self {
            Frame::Audio(s) => s.source,
            Frame::Unknown { source, .. } => *source,
        }
    }
}

/// A result as contracts speak of it: the frame's view, or `None` for
/// [`InsufficientData`].
pub open spec fn outcome<'src, 'pcm>(r: Result<Frame<'src, 'pcm>, InsufficientData>) -> Option<
    FrameView,
> {
    match r {
        Ok(frame) => Some(frame@),
        Err(_) => None,
    }
}

} // verus!
