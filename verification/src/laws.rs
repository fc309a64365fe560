//! What holds of a stream over every buffer and whatever the engine replies, as long as
//! the replies keep to the engine's contract.
use crate::engine::EngineReply;
use crate::frame::FrameView;
use crate::stream::StreamView;
use vstd::prelude::*;

verus! {

/// The stream after one `next` on each of `replies` in turn, starting from `s`.
pub open spec fn run(s: StreamView, replies: Seq<EngineReply>) -> StreamView
    decreases replies.len(),
{
    if replies.len() == 0 {
        s
    } else {
        run(s, replies.drop_last()).after_next(replies.last())
    }
}

/// The stream just before the `i`-th of the calls of [`run`].
pub open spec fn before(s: StreamView, replies: Seq<EngineReply>, i: int) -> StreamView {
    run(s, replies.take(i))
}

/// The frame that the `i`-th of the calls of [`run`] returns.
pub open spec fn frame_at(s: StreamView, replies: Seq<EngineReply>, i: int) -> Option<FrameView> {
    before(s, replies, i).next_frame(replies[i])
}

/// The `i`-th of `replies` keeps to the engine's contract for what remained when it
/// came, and is not the reply of an engine that found nothing.
pub open spec fn yields_frame(s: StreamView, replies: Seq<EngineReply>, i: int) -> bool {
    &&& replies[i].conforms(before(s, replies, i).input_len())
    &&& !replies[i].found_nothing()
}

/// Every call of [`run`] returns a frame.
pub open spec fn all_frames(s: StreamView, replies: Seq<EngineReply>) -> bool {
    forall|i: int| 0 <= i < replies.len() ==> #[trigger] yields_frame(s, replies, i)
}

/// The `i`-th call of [`run`] returns a frame that is not empty, moves the cursor
/// forward by the frame's `bytes_consumed` and not beyond the buffer, and the frame's
/// `source` is what was consumed but for the bytes that the engine passed over first.
pub open spec fn cuts_span(s: StreamView, replies: Seq<EngineReply>, i: int) -> bool {
    &&& frame_at(s, replies, i) matches Some(frame)
    &&& 0 < frame.bytes_consumed()
    &&& before(s, replies, i + 1).position == before(s, replies, i).position
        + frame.bytes_consumed()
    &&& before(s, replies, i + 1).position <= s.source.len()
    &&& frame.source() == s.source.subrange(
        before(s, replies, i).position + replies[i].info.frame_offset,
        before(s, replies, i + 1).position as int,
    )
}

/// The frame that the `i`-th call of [`run`] returns has as its `source` exactly the
/// bytes that the call consumed, and they are not empty.
pub open spec fn source_is_span(s: StreamView, replies: Seq<EngineReply>, i: int) -> bool {
    &&& frame_at(s, replies, i) matches Some(frame)
    &&& before(s, replies, i).position < before(s, replies, i + 1).position <= s.source.len()
    &&& frame.source() == s.source.subrange(
        before(s, replies, i).position as int,
        before(s, replies, i + 1).position as int,
    )
}

/// The `source` bytes of all frames that the calls of [`run`] return, one after the
/// other.
pub open spec fn joined_sources(s: StreamView, replies: Seq<EngineReply>) -> Seq<u8>
    decreases replies.len(),
{
    if replies.len() == 0 {
        Seq::empty()
    } else {
        joined_sources(s, replies.drop_last()) + match frame_at(s, replies, replies.len() - 1) {
            Some(frame) => frame.source(),
            None => Seq::empty(),
        }
    }
}

/// The `i + 1`-th stream of a run is the `i`-th after one more `next`.
pub proof fn lemma_run_step(s: StreamView, replies: Seq<EngineReply>, i: int)
    requires
        0 <= i < replies.len(),
    ensures
        before(s, replies, i + 1) == before(s, replies, i).after_next(replies[i]),
{
    assert(replies.take(i + 1).drop_last() =~= replies.take(i));
    assert(replies.take(i + 1).last() == replies[i]);
}

/// A run begins with the stream it is given and ends with the stream after all calls.
pub proof fn lemma_run_ends(s: StreamView, replies: Seq<EngineReply>)
    ensures
        before(s, replies, 0) == s,
        before(s, replies, replies.len() as int) == run(s, replies),
{
    assert(replies.take(0) =~= Seq::<EngineReply>::empty());
    assert(replies.take(replies.len() as int) =~= replies);
}

/// A run of calls that all return frames keeps the stream well formed, over the same
/// buffer and the same output buffer, and never moves the cursor back.
pub proof fn lemma_run_keeps_wf(s: StreamView, replies: Seq<EngineReply>, i: int)
    requires
        s.wf(),
        all_frames(s, replies),
        0 <= i <= replies.len(),
    ensures
        before(s, replies, i).wf(),
        before(s, replies, i).source == s.source,
        before(s, replies, i).pcm == s.pcm,
        s.position <= before(s, replies, i).position,
    decreases i,
{
    if i == 0 {
        lemma_run_ends(s, replies);
    } else {
        lemma_run_keeps_wf(s, replies, i - 1);
        lemma_run_step(s, replies, i - 1);
        assert(yields_frame(s, replies, i - 1));
    }
}

/// Each call of a run that returns frames cuts its span: see [`cuts_span`].
pub proof fn lemma_call_cuts_span(s: StreamView, replies: Seq<EngineReply>, i: int)
    requires
        s.wf(),
        all_frames(s, replies),
        0 <= i < replies.len(),
    ensures
        cuts_span(s, replies, i),
{
    lemma_run_keeps_wf(s, replies, i);
    lemma_run_keeps_wf(s, replies, i + 1);
    lemma_run_step(s, replies, i);
    assert(yields_frame(s, replies, i));
    let at = before(s, replies, i);
    let reply = replies[i];
    assert(at.remaining().subrange(reply.info.frame_offset as int, reply.info.frame_bytes as int)
        =~= s.source.subrange(
        at.position + reply.info.frame_offset,
        at.position + reply.info.frame_bytes,
    ));
}

/// Calling `next` until it first returns `InsufficientData` cuts what was consumed
/// into the frames' spans: each call that returns a frame moves the cursor forward by
/// the frame's `bytes_consumed`, beginning where the call before it ended, and the
/// frame's `source` is the end of that span, after the bytes that the engine passed
/// over. The call that returns `InsufficientData` leaves the cursor where the last
/// frame ended.
pub proof fn lemma_next_cuts_consumed_spans(
    s: StreamView,
    replies: Seq<EngineReply>,
    last: EngineReply,
)
    requires
        s.wf(),
        all_frames(s, replies),
        last.conforms(run(s, replies).input_len()),
        last.found_nothing(),
    ensures
        before(s, replies, 0) == s,
        before(s, replies, replies.len() as int) == run(s, replies),
        run(s, replies).wf(),
        run(s, replies).next_frame(last) is None,
        run(s, replies).after_next(last).position == run(s, replies).position,
        forall|i: int| 0 <= i < replies.len() ==> #[trigger] cuts_span(s, replies, i),
{
    lemma_run_ends(s, replies);
    lemma_run_keeps_wf(s, replies, replies.len() as int);
    assert forall|i: int| 0 <= i < replies.len() implies #[trigger] cuts_span(s, replies, i) by {
        lemma_call_cuts_span(s, replies, i);
    }
}

/// A run of calls that all return frames is such a run without its last call.
pub proof fn lemma_all_frames_without_last(s: StreamView, replies: Seq<EngineReply>)
    requires
        all_frames(s, replies),
        replies.len() > 0,
    ensures
        all_frames(s, replies.drop_last()),
{
    let shorter = replies.drop_last();
    assert forall|i: int| 0 <= i < shorter.len() implies #[trigger] yields_frame(
        s,
        shorter,
        i,
    ) by {
        assert(yields_frame(s, replies, i));
        assert(shorter.take(i) =~= replies.take(i));
    }
}

/// Where the engine passes over no bytes before a frame, the `source` bytes of the
/// frames that a run from the start of the buffer returns, joined in their order, are
/// the buffer up to where the run ends.
pub proof fn lemma_joined_sources_are_consumed(s: StreamView, replies: Seq<EngineReply>)
    requires
        s.wf(),
        s.position == 0,
        all_frames(s, replies),
        forall|i: int| 0 <= i < replies.len() ==> (#[trigger] replies[i]).info.frame_offset == 0,
    ensures
        joined_sources(s, replies) == s.source.subrange(0, run(s, replies).position as int),
    decreases replies.len(),
{
    if replies.len() > 0 {
        let shorter = replies.drop_last();
        let k = replies.len() - 1;
        lemma_all_frames_without_last(s, replies);
        assert forall|i: int| 0 <= i < shorter.len() implies (#[trigger] shorter[i]).info.frame_offset
            == 0 by {
            assert(replies[i].info.frame_offset == 0);
        }
        lemma_joined_sources_are_consumed(s, shorter);
        lemma_call_cuts_span(s, replies, k);
        lemma_run_ends(s, replies);
        assert(replies.take(k) =~= shorter);
        assert(replies[k].info.frame_offset == 0);
        let frame = frame_at(s, replies, k)->0;
        assert(frame.source() == s.source.subrange(
            run(s, shorter).position as int,
            run(s, replies).position as int,
        ));
        assert(joined_sources(s, replies) =~= s.source.subrange(
            0,
            run(s, replies).position as int,
        ));
    }
}

/// Where the engine passes over no bytes before a frame, calling `next` from the start
/// of the buffer until it first returns `InsufficientData` yields frames whose `source`
/// ranges follow one another without gap or overlap and cover exactly the bytes from 0
/// to the final position: the first begins at 0, each begins where the one before it
/// ended, none is empty, the last ends at the final position, and joined in their order
/// they are the buffer up to that position.
pub proof fn lemma_next_sources_partition(
    s: StreamView,
    replies: Seq<EngineReply>,
    last: EngineReply,
)
    requires
        s.wf(),
        s.position == 0,
        all_frames(s, replies),
        forall|i: int| 0 <= i < replies.len() ==> (#[trigger] replies[i]).info.frame_offset == 0,
        last.conforms(run(s, replies).input_len()),
        last.found_nothing(),
    ensures
        before(s, replies, 0).position == 0,
        before(s, replies, replies.len() as int).position == run(s, replies).after_next(
            last,
        ).position,
        forall|i: int| 0 <= i < replies.len() ==> #[trigger] source_is_span(s, replies, i),
        joined_sources(s, replies) == s.source.subrange(
            0,
            run(s, replies).after_next(last).position as int,
        ),
{
    lemma_next_cuts_consumed_spans(s, replies, last);
    lemma_joined_sources_are_consumed(s, replies);
    assert forall|i: int| 0 <= i < replies.len() implies #[trigger] source_is_span(
        s,
        replies,
        i,
    ) by {
        assert(cuts_span(s, replies, i));
        assert(replies[i].info.frame_offset == 0);
    }
}

/// `next`, `peek`, `skip` and `set_position` keep a stream well formed, over the same
/// buffer, and none but `next` and `skip` moves the cursor, and those only forward.
pub proof fn lemma_calls_keep_wf(
    s: StreamView,
    reply: EngineReply,
    skipped: Option<EngineReply>,
    n: nat,
)
    requires
        s.wf(),
        reply.conforms(s.input_len()),
        s.can_skip(skipped),
    ensures
        s.after_next(reply).wf(),
        s.after_peek(reply).wf(),
        s.after_skip(skipped).wf(),
        s.after_set_position(n).wf(),
        s.after_next(reply).source == s.source,
        s.after_peek(reply).source == s.source,
        s.after_skip(skipped).source == s.source,
        s.after_set_position(n).source == s.source,
        s.after_next(reply).position >= s.position,
        s.after_peek(reply).position == s.position,
        s.after_skip(skipped).position >= s.position,
{
}

/// A second `peek`, on the same reply of the engine, returns the frame that the first
/// returned and leaves the stream as the first left it; neither moves the cursor.
pub proof fn lemma_peek_idempotent(s: StreamView, reply: EngineReply)
    requires
        s.wf(),
        reply.conforms(s.input_len()),
    ensures
        s.after_peek(reply).wf(),
        s.after_peek(reply).position == s.position,
        reply.conforms(s.after_peek(reply).input_len()),
        s.after_peek(reply).peek_frame(reply) == s.peek_frame(reply),
        s.after_peek(reply).after_peek(reply) == s.after_peek(reply),
{
}

/// `skip` after a `peek` that found a frame moves the cursor by the `bytes_consumed`
/// that the peek reported, whatever reply it is given; and that is where a `skip`
/// ends that finds nothing cached and peeks on the same reply itself. After a `peek`
/// that found no frame, `skip` on the same reply fails as the peek did and moves
/// nothing.
pub proof fn lemma_skip_equivalence(s: StreamView, reply: EngineReply, later: Option<EngineReply>)
    requires
        s.wf(),
        reply.conforms(s.input_len()),
    ensures
        s.after_peek(reply).can_skip(Some(reply)),
        s.advanced(0).can_skip(Some(reply)),
        s.after_peek(reply).after_skip(Some(reply)) == s.advanced(0).after_skip(Some(reply)),
        s.after_peek(reply).after_skip(Some(reply)).wf(),
        match s.peek_frame(reply) {
            Some(frame) => {
                &&& s.after_peek(reply).can_skip(later)
                &&& s.after_peek(reply).skip_len(later) == Some(frame.bytes_consumed())
                &&& s.after_peek(reply).after_skip(later) == s.advanced(frame.bytes_consumed())
            },
            None => {
                &&& s.after_peek(reply).skip_len(Some(reply)) is None
                &&& s.after_peek(reply).after_skip(Some(reply)) == s.advanced(0)
            },
        },
{
}

/// Once a call returned `InsufficientData`, `peek` and `next` at the same position, on
/// the same reply of the engine, return it again, and the cursor stays.
pub proof fn lemma_error_stable(s: StreamView, reply: EngineReply)
    requires
        s.wf(),
        reply.conforms(s.input_len()),
        s.next_frame(reply) is None || s.peek_frame(reply) is None,
    ensures
        reply.found_nothing(),
        s.next_frame(reply) is None,
        s.peek_frame(reply) is None,
        s.after_next(reply) == s.advanced(0),
        s.after_peek(reply) == s.advanced(0),
        s.advanced(0).wf(),
        s.advanced(0).position == s.position,
        reply.conforms(s.advanced(0).input_len()),
        s.advanced(0).next_frame(reply) is None,
        s.advanced(0).peek_frame(reply) is None,
        s.advanced(0).after_next(reply) == s.advanced(0),
        s.advanced(0).after_peek(reply) == s.advanced(0),
{
}

/// `set_position` beyond the end of the buffer is `set_position` at its end; and there
/// every reply that keeps to the engine's contract is that of an engine that found
/// nothing, so that `peek` and `next` return `InsufficientData`.
pub proof fn lemma_set_position_clamps(s: StreamView, n: nat, reply: EngineReply)
    requires
        s.wf(),
        n >= s.source.len(),
        reply.conforms(s.after_set_position(n).input_len()),
    ensures
        s.after_set_position(n) == s.after_set_position(s.source.len()),
        s.after_set_position(n).wf(),
        s.after_set_position(n).position == s.source.len(),
        reply.found_nothing(),
        s.after_set_position(n).peek_frame(reply) is None,
        s.after_set_position(n).next_frame(reply) is None,
{
}

} // verus!
