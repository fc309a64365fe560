//! From what the engine reported to a [`Frame`]: the one place where the engine's
//! offsets are turned into slices.
use crate::decoder::DecoderBuf;
use crate::engine::{data_len_spec, EngineReply, FrameInfo};
use crate::frame::{outcome, Frame, FrameView, InsufficientData, Sample, Samples, SamplesView};
use vstd::prelude::*;
use vstd::slice::slice_subrange;

verus! {

/// The source bytes of a frame: from where the frame begins to the end of what the
/// attempt consumed, both counted from the start of `data`.
pub open spec fn source_span(info: FrameInfo, data: Seq<u8>) -> Seq<u8> {
    data.subrange(info.frame_offset as int, info.frame_bytes as int)
}

/// The samples that a frame shows: the first [`pcm_points`](EngineReply::pcm_points)
/// of the output buffer after a decode, nothing after a peek (`pcm` is `None`).
pub open spec fn sample_span(reply: EngineReply, pcm: Option<Seq<Sample>>) -> Seq<Sample> {
    match pcm {
        Some(buf) => buf.subrange(0, reply.pcm_points()),
        None => Seq::empty(),
    }
}

/// The frame that a reply stands for, in this order: samples make an audio frame; else
/// consumed bytes make an unknown frame; else there is no frame.
pub open spec fn translate_spec(
    reply: EngineReply,
    data: Seq<u8>,
    pcm: Option<Seq<Sample>>,
) -> Option<FrameView> {
    if reply.samples != 0 {
        Some(
            FrameView::Audio(
                SamplesView {
                    bitrate: reply.info.bitrate_kbps as u32,
                    channels: reply.info.channels as u32,
                    mpeg_layer: reply.info.layer as u32,
                    sample_rate: reply.info.hz as u32,
                    bytes_consumed: reply.info.frame_bytes as nat,
                    source: source_span(reply.info, data),
                    samples: sample_span(reply, pcm),
                    sample_count: reply.samples as nat,
                },
            ),
        )
    } else if reply.info.frame_bytes != 0 {
        Some(
            FrameView::Unknown {
                bytes_consumed: reply.info.frame_bytes as nat,
                source: source_span(reply.info, data),
            },
        )
    } else {
        None
    }
}

/// The view of the buffer that a decode was given, `None` for a peek.
pub open spec fn pcm_view<'pcm>(pcm: Option<&'pcm DecoderBuf>) -> Option<Seq<Sample>> {
    match pcm {
        Some(buf) => Some(buf@),
        None => None,
    }
}

/// The source bytes of the frame that `frame_recv` describes, out of the input `data`.
pub fn source_slice<'src>(data: &'src [u8], frame_recv: &FrameInfo) -> (source: &'src [u8])
    requires
        0 <= frame_recv.frame_offset <= frame_recv.frame_bytes <= data@.len(),
    ensures
        source@ == source_span(*frame_recv, data@),
{
    slice_subrange(data, frame_recv.frame_offset as usize, frame_recv.frame_bytes as usize)
}

/// Turns the engine's reply to an attempt on `source` into a frame or
/// [`InsufficientData`]. `pcm` is the buffer that the engine decoded into, `None` where
/// it was asked to parse only.
pub fn translate_response<'src, 'pcm>(
    reply: &EngineReply,
    source: &'src [u8],
    pcm: Option<&'pcm DecoderBuf>,
) -> (r: Result<Frame<'src, 'pcm>, InsufficientData>)
    requires
        reply.conforms(data_len_spec(source@.len())),
    ensures
        outcome(r) == translate_spec(*reply, source@, pcm_view(pcm)),
        r is Err <==> reply.found_nothing(),
        r matches Ok(frame) ==> 0 < frame@.bytes_consumed() <= source@.len(),
        r matches Ok(Frame::Audio(s)) ==> s.samples@.len() == (if pcm is Some {
            s.sample_count * s.channels
        } else {
            0
        }),
{
    let frame_recv = &reply.info;
    if reply.samples != 0 {
        let pcm_points: usize = reply.samples as usize * frame_recv.channels as usize;
        let samples: &'pcm [Sample] = match pcm {
            Some(buf) => {
                proof {
                    buf.lemma_len();
                }
                slice_subrange(buf.as_slice(), 0, pcm_points)
            },
            None => &[],
        };
        assert(samples@ =~= sample_span(*reply, pcm_view(pcm)));
        Ok(
            Frame::Audio(
                Samples {
                    bitrate: frame_recv.bitrate_kbps as u32,
                    channels: frame_recv.channels as u32,
                    mpeg_layer: frame_recv.layer as u32,
                    sample_rate: frame_recv.hz as u32,
                    bytes_consumed: frame_recv.frame_bytes as usize,
                    source: source_slice(source, frame_recv),
                    samples,
                    sample_count: reply.samples as usize,
                },
            ),
        )
    } else if frame_recv.frame_bytes != 0 {
        Ok(
            Frame::Unknown {
                bytes_consumed: frame_recv.frame_bytes as usize,
                source: source_slice(source, frame_recv),
            },
        )
    } else {
        Err(InsufficientData)
    }
}

} // verus!
