//! What passes between this crate and the codec engine: the length handed to it, and
//! what it reports of one decode attempt.
use crate::frame::MAX_SAMPLES_PER_FRAME;
use libc::c_int;
use vstd::prelude::*;

verus! {

/// The frame metadata that the engine fills in on every attempt.
#[derive(Clone, Copy, Debug)]
pub struct FrameInfo {
    /// Bytes taken from the start of the input: what was passed over, then the frame.
    pub frame_bytes: c_int,
    /// Bytes passed over before the frame begins.
    pub frame_offset: c_int,
    /// Number of channels.
    pub channels: c_int,
    /// Sample rate in Hz.
    pub hz: c_int,
    /// MPEG layer.
    pub layer: c_int,
    /// Bitrate in kb/s.
    pub bitrate_kbps: c_int,
}

/// What the engine reported of one decode attempt.
#[derive(Clone, Copy, Debug)]
pub struct EngineReply {
    /// Samples per channel that the attempt yielded; 0 where it yielded none.
    pub samples: c_int,
    /// The metadata that came with it.
    pub info: FrameInfo,
}

/// The input length as the engine is given it: the engine counts in `c_int`, so a longer
/// input is cut to the most a `c_int` holds.
pub open spec fn data_len_spec(len: nat) -> int {
    if len <= c_int::MAX {
        len as int
    } else {
        c_int::MAX as int
    }
}

/// The input length to hand to the engine for `len` bytes of input.
pub fn data_len_safe(len: usize) -> (r: c_int)
    ensures
        r == data_len_spec(len as nat),
{
    if len > c_int::MAX as usize {
        c_int::MAX
    } else {
        len as c_int
    }
}

impl EngineReply {
    /// The contract that every engine keeps for an attempt on `input_len` bytes. The
    /// crate cuts slices by these numbers and relies on each clause:
    ///
    /// - what was consumed lies inside the input, and the frame begins inside what was
    ///   consumed;
    /// - the counts of samples and channels are not negative;
    /// - the samples of all channels together fit the output buffer;
    /// - an attempt that yields samples consumes at least one byte.
    pub open spec fn conforms(self, input_len: int) -> bool {
        &&& 0 <= self.info.frame_offset <= self.info.frame_bytes <= input_len
        &&& 0 <= self.samples
        &&& 0 <= self.info.channels
        &&& self.samples * self.info.channels <= MAX_SAMPLES_PER_FRAME
        &&& self.samples != 0 ==> self.info.frame_bytes != 0
    }

    /// The reply of an engine that found nothing: no samples, no bytes to pass over.
    pub open spec fn found_nothing(self) -> bool {
        self.samples == 0 && self.info.frame_bytes == 0
    }

    /// The interleaved samples that the attempt yielded: samples per channel times
    /// channels.
    pub open spec fn pcm_points(self) -> int {
        self.samples * self.info.channels
    }

    /// Tests whether the reply keeps to [`conforms`](Self::conforms) for an attempt on
    /// `input_len` bytes.
    pub fn check(&self, input_len: c_int) -> (ok: bool)
        ensures
            ok == self.conforms(input_len as int),
    {
        let info = &self.info;
        if info.frame_offset < 0 || info.frame_offset > info.frame_bytes || info.frame_bytes
            > input_len {
            return false;
        }
        if self.samples < 0 || info.channels < 0 {
            return false;
        }
        assert(0 <= self.samples * info.channels <= 0x7fff_ffff * 0x7fff_ffff)
            by (nonlinear_arith)
            requires
                0 <= self.samples <= 0x7fff_ffff,
                0 <= info.channels <= 0x7fff_ffff,
        ;
        let points: i64 = self.samples as i64 * info.channels as i64;
        points <= MAX_SAMPLES_PER_FRAME as i64 && (self.samples == 0 || info.frame_bytes != 0)
    }
}

} // verus!
