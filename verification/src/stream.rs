//! The byte stream that a list of ranges stands for, and the chunks in which
//! it reaches the sink.

use vstd::prelude::*;
use crate::range::{ByteRangeView, ZERO_CHUNK_LEN, zero_chunk_count, zero_chunks, zeros};

verus! {

/// The concatenation of `chunks`, in order.
pub open spec fn concat(chunks: Seq<Seq<u8>>) -> Seq<u8>
    decreases chunks.len(),
{
    if chunks.len() == 0 {
        Seq::empty()
    } else {
        concat(chunks.drop_last()) + chunks.last()
    }
}

/// The byte stream that a list of ranges stands for: the bytes of each range, in order.
pub open spec fn stream(ranges: Seq<ByteRangeView>) -> Seq<u8>
    decreases ranges.len(),
{
    if ranges.len() == 0 {
        Seq::empty()
    } else {
        stream(ranges.drop_last()) + ranges.last().bytes()
    }
}

/// The sum of the lengths of the ranges.
pub open spec fn total_len(ranges: Seq<ByteRangeView>) -> nat
    decreases ranges.len(),
{
    if ranges.len() == 0 {
        0
    } else {
        total_len(ranges.drop_last()) + ranges.last().len()
    }
}

/// The chunks in which a list of ranges reaches the sink, in order.
pub open spec fn chunk_plan(ranges: Seq<ByteRangeView>) -> Seq<Seq<u8>>
    decreases ranges.len(),
{
    if ranges.len() == 0 {
        Seq::empty()
    } else {
        chunk_plan(ranges.drop_last()) + ranges.last().chunks()
    }
}

/// Joining two lists of chunks one after the other joins their bytes.
pub proof fn lemma_concat_append(a: Seq<Seq<u8>>, b: Seq<Seq<u8>>)
    ensures
        concat(a + b) == concat(a) + concat(b),
    decreases b.len(),
{
    if b.len() != 0 {
        lemma_concat_append(a, b.drop_last());
        assert((a + b).drop_last() =~= a + b.drop_last());
        assert(concat(a) + (concat(b.drop_last()) + b.last()) =~= (concat(a) + concat(
            b.drop_last(),
        )) + b.last());
    }
}

/// The plan of two lists of ranges, one after the other, is the plan of the
/// first followed by the plan of the second.
pub proof fn lemma_plan_append(a: Seq<ByteRangeView>, b: Seq<ByteRangeView>)
    ensures
        chunk_plan(a + b) == chunk_plan(a) + chunk_plan(b),
    decreases b.len(),
{
    if b.len() != 0 {
        lemma_plan_append(a, b.drop_last());
        assert((a + b).drop_last() =~= a + b.drop_last());
        assert(chunk_plan(a) + (chunk_plan(b.drop_last()) + b.last().chunks()) =~= (chunk_plan(a)
            + chunk_plan(b.drop_last())) + b.last().chunks());
    }
}

/// The stream of two lists of ranges, one after the other, is the stream of
/// the first followed by the stream of the second.
pub proof fn lemma_stream_append(a: Seq<ByteRangeView>, b: Seq<ByteRangeView>)
    ensures
        stream(a + b) == stream(a) + stream(b),
    decreases b.len(),
{
    if b.len() != 0 {
        lemma_stream_append(a, b.drop_last());
        assert((a + b).drop_last() =~= a + b.drop_last());
        assert(stream(a) + (stream(b.drop_last()) + b.last().bytes()) =~= (stream(a) + stream(
            b.drop_last(),
        )) + b.last().bytes());
    }
}

proof fn lemma_zero_chunks_prefix(n: nat, k: int)
    requires
        0 <= k <= zero_chunk_count(n),
    ensures
        concat(zero_chunks(n).take(k)) == zeros(
            if k * ZERO_CHUNK_LEN < n {
                (k * ZERO_CHUNK_LEN) as nat
            } else {
                n
            },
        ),
    decreases k,
{
    let pieces = zero_chunks(n).take(k);
    if k != 0 {
        lemma_zero_chunks_prefix(n, k - 1);
        assert(k * ZERO_CHUNK_LEN == (k - 1) * ZERO_CHUNK_LEN + ZERO_CHUNK_LEN)
            by (nonlinear_arith);
        assert(pieces.drop_last() =~= zero_chunks(n).take(k - 1));
        assert(concat(pieces) =~= zeros(
            if k * ZERO_CHUNK_LEN < n {
                (k * ZERO_CHUNK_LEN) as nat
            } else {
                n
            },
        ));
    }
}

/// The pieces of a run of padding, joined, are as many zero bytes as the run is long.
pub proof fn lemma_zero_chunks_concat(n: nat)
    ensures
        concat(zero_chunks(n)) == zeros(n),
{
    let count = zero_chunk_count(n) as int;
    lemma_zero_chunks_prefix(n, count);
    assert(zero_chunks(n).take(count) =~= zero_chunks(n));
}

/// The bridge delivers the stream: whatever the list of ranges, the chunks
/// that reach the sink, joined in the order of the calls, are the bytes of
/// each real range and a run of zero bytes for each padding, in the order of
/// the list.
pub proof fn lemma_plan_carries_stream(ranges: Seq<ByteRangeView>)
    ensures
        concat(chunk_plan(ranges)) == stream(ranges),
    decreases ranges.len(),
{
    if ranges.len() != 0 {
        let last = ranges.last();
        lemma_plan_carries_stream(ranges.drop_last());
        lemma_concat_append(chunk_plan(ranges.drop_last()), last.chunks());
        match last.data {
            Some(d) => {
                if d.len() != 0 {
                    assert(concat(last.chunks().drop_last()) =~= Seq::<u8>::empty());
                }
            },
            None => {
                lemma_zero_chunks_concat(last.len());
            },
        }
    }
}

/// The stream of a list of well-formed ranges is exactly as long as the sum
/// of the products of element size and element count over the list.
pub proof fn lemma_stream_len(ranges: Seq<ByteRangeView>)
    requires
        forall|i: int| 0 <= i < ranges.len() ==> (#[trigger] ranges[i]).wf(),
    ensures
        stream(ranges).len() == total_len(ranges),
    decreases ranges.len(),
{
    if ranges.len() != 0 {
        lemma_stream_len(ranges.drop_last());
    }
}

/// No chunk of a plan is empty: the sink is never called with nothing to write.
pub proof fn lemma_plan_has_no_empty_chunk(ranges: Seq<ByteRangeView>, j: int)
    requires
        0 <= j < chunk_plan(ranges).len(),
    ensures
        chunk_plan(ranges)[j].len() > 0,
    decreases ranges.len(),
{
    if ranges.len() != 0 {
        let front = chunk_plan(ranges.drop_last());
        if j < front.len() {
            lemma_plan_has_no_empty_chunk(ranges.drop_last(), j);
        } else {
            let last = ranges.last();
            let k = j - front.len();
            if last.data is None {
                assert(k * ZERO_CHUNK_LEN < last.len()) by (nonlinear_arith)
                    requires
                        0 <= k < zero_chunk_count(last.len()),
                        ZERO_CHUNK_LEN == 16,
                ;
            }
        }
    }
}

/// A range of no bytes, be it for an element size or for an element count of
/// zero, causes no call of the sink: the plan of a list is that of the list
/// without the range.
pub proof fn lemma_empty_range_is_skipped(ranges: Seq<ByteRangeView>, i: int)
    requires
        0 <= i < ranges.len(),
        ranges[i].wf(),
        ranges[i].element_size == 0 || ranges[i].element_count == 0,
    ensures
        ranges[i].chunks() == Seq::<Seq<u8>>::empty(),
        chunk_plan(ranges.remove(i)) == chunk_plan(ranges),
{
    let head = ranges.take(i);
    let tail = ranges.skip(i + 1);
    let one = seq![ranges[i]];
    assert(ranges[i].len() == 0) by (nonlinear_arith)
        requires
            ranges[i].element_size == 0 || ranges[i].element_count == 0,
            ranges[i].len() == ranges[i].element_size * ranges[i].element_count,
    ;
    assert(chunk_plan(one.drop_last()) =~= Seq::<Seq<u8>>::empty());
    assert(ranges =~= (head + one) + tail);
    lemma_plan_append(head, one);
    lemma_plan_append(head + one, tail);
    lemma_plan_append(head, tail);
}

} // verus!
