//! The streaming writer bridge: the callback through which the runtime hands
//! its data, one list of byte ranges at a time, to the sink.

use vstd::prelude::*;
use vstd::slice::slice_subrange;
use crate::range::{ByteRange, ByteRangeView, ZERO_CHUNK_LEN, zero_chunk_count, zero_chunks, zeros};
use crate::sink::{
    CoverageWriter, delivers, lemma_buffer_delivery, lemma_delivers_append, lemma_delivers_push,
};
use crate::stream::{
    chunk_plan, concat, lemma_plan_append, lemma_plan_carries_stream, lemma_stream_append,
    lemma_stream_len, stream, total_len,
};

verus! {

/// The mathematical content of each range of a list.
pub open spec fn views(iovecs: Seq<ByteRange<'_>>) -> Seq<ByteRangeView> {
    iovecs.map_values(|r: ByteRange<'_>| r@)
}

/// What one run of the bridge over `ranges` does to a sink that was in state
/// `pre`. The bridge makes `calls` calls of `write`, on the first `calls`
/// chunks of the plan and in their order, and `post` is the state in which
/// the last of them leaves the sink. With status 0 these are all the chunks
/// of the plan, and the sink took each; with status 1 the sink took all but
/// the last of them, and refused that one.
pub open spec fn forwarded<W: CoverageWriter>(
    pre: W,
    ranges: Seq<ByteRangeView>,
    status: u32,
    post: W,
) -> bool {
    &&& status == 0 || status == 1
    &&& exists|calls: int|
        {
            &&& 0 <= calls <= chunk_plan(ranges).len()
            &&& delivers(pre, #[trigger] chunk_plan(ranges).take(calls), status == 0, post)
            &&& status == 0 ==> calls == chunk_plan(ranges).len()
        }
}

proof fn lemma_plan_step(ranges: Seq<ByteRangeView>, i: int)
    requires
        0 <= i < ranges.len(),
    ensures
        chunk_plan(ranges.take(i + 1)) == chunk_plan(ranges.take(i)) + ranges[i].chunks(),
{
    assert(ranges.take(i + 1).drop_last() =~= ranges.take(i));
}

proof fn lemma_plan_prefix(ranges: Seq<ByteRangeView>, i: int)
    requires
        0 <= i <= ranges.len(),
    ensures
        chunk_plan(ranges.take(i)).is_prefix_of(chunk_plan(ranges)),
    decreases ranges.len() - i,
{
    if i == ranges.len() {
        assert(ranges.take(i) =~= ranges);
    } else {
        lemma_plan_step(ranges, i);
        lemma_plan_prefix(ranges, i + 1);
    }
}

/// Forwards a list of byte ranges to the sink, in order: a real range in one
/// call, padding as zero bytes in scratch-sized pieces, an empty range not
/// at all. Stops at the first call that the sink refuses.
///
/// Returns 0 when every byte was handed over, 1 when the sink refused a chunk.
pub fn write_callback<W: CoverageWriter>(writer: &mut W, iovecs: &[ByteRange<'_>]) -> (status: u32)
    ensures
        forwarded(*old(writer), views(iovecs@), status, *final(writer)),
{
    let zero = [0u8; ZERO_CHUNK_LEN];
    let ghost pre = *writer;
    let ghost ranges = views(iovecs@);
    let mut i: usize = 0;
    while i < iovecs.len()
        invariant
            i <= iovecs.len(),
            pre == *old(writer),
            ranges == views(iovecs@),
            zero@ =~= zeros(ZERO_CHUNK_LEN as nat),
            delivers(pre, chunk_plan(ranges.take(i as int)), true, *writer),
        decreases iovecs.len() - i,
    {
        let iov = &iovecs[i];
        proof {
            lemma_plan_step(ranges, i as int);
            lemma_plan_prefix(ranges, i as int + 1);
        }
        let ghost before = chunk_plan(ranges.take(i as int));
        let len: usize = iov.len();
        match iov.data() {
            None => {
                let mut remaining: usize = len;
                let ghost mut sent: int = 0;
                while remaining != 0
                    invariant
                        pre == *old(writer),
                        ranges == views(iovecs@),
                        0 <= sent <= zero_chunk_count(len as nat),
                        remaining == if sent * ZERO_CHUNK_LEN < len {
                            len - sent * ZERO_CHUNK_LEN
                        } else {
                            0
                        },
                        zero@ =~= zeros(ZERO_CHUNK_LEN as nat),
                        delivers(pre, before + zero_chunks(len as nat).take(sent), true, *writer),
                        (before + zero_chunks(len as nat)).is_prefix_of(chunk_plan(ranges)),
                    decreases remaining,
                {
                    assert((sent + 1) * ZERO_CHUNK_LEN == sent * ZERO_CHUNK_LEN + ZERO_CHUNK_LEN)
                        by (nonlinear_arith);
                    let n: usize = if remaining < ZERO_CHUNK_LEN {
                        remaining
                    } else {
                        ZERO_CHUNK_LEN
                    };
                    let data = slice_subrange(zero.as_slice(), 0, n);
                    let ghost mid = *writer;
                    let ghost made = before + zero_chunks(len as nat).take(sent);
                    let res = writer.write(data);
                    proof {
                        assert(data@ =~= zero_chunks(len as nat)[sent]);
                        lemma_delivers_push(pre, made, mid, data@, res is Ok, *writer);
                        assert(made.push(data@) =~= before + zero_chunks(len as nat).take(sent + 1));
                    }
                    if res.is_err() {
                        assert(made.push(data@) =~= chunk_plan(ranges).take(made.len() as int + 1));
                        return 1;
                    }
                    remaining -= n;
                    proof {
                        sent = sent + 1;
                    }
                }
                assert(zero_chunks(len as nat).take(sent) =~= zero_chunks(len as nat));
            },
            Some(data) => {
                if len != 0 {
                    let ghost mid = *writer;
                    let res = writer.write(data);
                    proof {
                        lemma_delivers_push(pre, before, mid, data@, res is Ok, *writer);
                        assert(before.push(data@) =~= before + seq![data@]);
                    }
                    if res.is_err() {
                        return 1;
                    }
                }
            },
        }
        i += 1;
    }
    assert(ranges.take(i as int) =~= ranges);
    assert(chunk_plan(ranges) =~= chunk_plan(ranges).take(chunk_plan(ranges).len() as int));
    0
}

/// What success means, whatever the sink: it took every chunk of the plan, in
/// order; joined in that order the chunks are the stream of the list, the
/// bytes of each real range and a run of zero bytes for each padding; and of
/// well-formed ranges the stream is as long as the sum of their lengths.
pub proof fn lemma_success_delivers_stream<W: CoverageWriter>(
    pre: W,
    ranges: Seq<ByteRangeView>,
    post: W,
)
    requires
        forwarded(pre, ranges, 0, post),
    ensures
        delivers(pre, chunk_plan(ranges), true, post),
        concat(chunk_plan(ranges)) == stream(ranges),
        (forall|i: int| 0 <= i < ranges.len() ==> (#[trigger] ranges[i]).wf()) ==> stream(
            ranges,
        ).len() == total_len(ranges),
{
    let plan = chunk_plan(ranges);
    assert(plan.take(plan.len() as int) =~= plan);
    lemma_plan_carries_stream(ranges);
    if forall|i: int| 0 <= i < ranges.len() ==> (#[trigger] ranges[i]).wf() {
        lemma_stream_len(ranges);
    }
}

/// Lists come one after the other as one stream: a run over `first` that
/// succeeds, followed by a run over `second`, does to the sink what one run
/// over the two lists joined does, and the stream of the joined lists is the
/// stream of `first` followed by that of `second`.
pub proof fn lemma_runs_compose<W: CoverageWriter>(
    pre: W,
    first: Seq<ByteRangeView>,
    mid: W,
    second: Seq<ByteRangeView>,
    status: u32,
    post: W,
)
    requires
        forwarded(pre, first, 0, mid),
        forwarded(mid, second, status, post),
    ensures
        forwarded(pre, first + second, status, post),
        stream(first + second) == stream(first) + stream(second),
{
    lemma_stream_append(first, second);
    let head = chunk_plan(first);
    let tail = chunk_plan(second);
    let calls = choose|calls: int|
        {
            &&& 0 <= calls <= tail.len()
            &&& delivers(mid, #[trigger] tail.take(calls), status == 0, post)
            &&& status == 0 ==> calls == tail.len()
        };
    assert(head.take(head.len() as int) =~= head);
    lemma_delivers_append(pre, head, mid, tail.take(calls), status == 0, post);
    lemma_plan_append(first, second);
    assert(head + tail.take(calls) =~= (head + tail).take(head.len() + calls));
}

/// A list of ranges whose plan is empty costs no call: the bridge reports
/// success and leaves the sink as it was.
pub proof fn lemma_nothing_to_write<W: CoverageWriter>(
    pre: W,
    ranges: Seq<ByteRangeView>,
    status: u32,
    post: W,
)
    requires
        forwarded(pre, ranges, status, post),
        chunk_plan(ranges).len() == 0,
    ensures
        status == 0,
        post == pre,
{
}

/// A refusal ends the run: when the bridge reports failure, the sink took
/// the first `accepted` chunks of the plan, refused the next one, and was
/// not called again, so that it stays as that refused call left it.
pub proof fn lemma_refusal_is_the_last_call<W: CoverageWriter>(
    pre: W,
    ranges: Seq<ByteRangeView>,
    post: W,
)
    requires
        forwarded(pre, ranges, 1, post),
    ensures
        exists|accepted: int, mid: W|
            {
                &&& 0 <= accepted < chunk_plan(ranges).len()
                &&& #[trigger] delivers(pre, chunk_plan(ranges).take(accepted), true, mid)
                &&& mid.wrote(chunk_plan(ranges)[accepted], false, &post)
            },
{
    let plan = chunk_plan(ranges);
    let calls = choose|calls: int|
        {
            &&& 0 <= calls <= plan.len()
            &&& delivers(pre, #[trigger] plan.take(calls), false, post)
        };
    let made = plan.take(calls);
    let mid = choose|mid: W|
        delivers(pre, made.drop_last(), true, mid) && #[trigger] mid.wrote(
            made.last(),
            false,
            &post,
        );
    assert(made.drop_last() =~= plan.take(calls - 1));
}

/// Into the growable buffer the bridge always writes the whole stream: it
/// reports success, and the buffer holds what it held before followed by
/// the bytes of each real range and a run of zero bytes for each padding.
pub proof fn lemma_buffer_holds_stream(
    pre: Vec<u8>,
    ranges: Seq<ByteRangeView>,
    status: u32,
    post: Vec<u8>,
)
    requires
        forwarded(pre, ranges, status, post),
    ensures
        status == 0,
        post@ == pre@ + stream(ranges),
{
    let plan = chunk_plan(ranges);
    let calls = choose|calls: int|
        {
            &&& 0 <= calls <= plan.len()
            &&& delivers(pre, #[trigger] plan.take(calls), status == 0, post)
            &&& status == 0 ==> calls == plan.len()
        };
    lemma_buffer_delivery(pre, plan.take(calls), status == 0, post);
    assert(plan.take(calls) =~= plan);
    lemma_plan_carries_stream(ranges);
}

} // verus!
