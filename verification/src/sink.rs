//! The sink into which coverage data is written: what a sink is, the
//! growable buffer as the sink at hand, and what it means to deliver a
//! sequence of chunks to a sink.

use vstd::prelude::*;
use crate::error::CoverageWriteError;
use crate::stream::concat;

verus! {

/// Sink into which coverage data can be written.
///
/// A sink takes the data in many calls, often of a few bytes each, and is to
/// treat them as one stream, in the order of the calls. An implementation
/// for `Vec<u8>` is provided.
pub trait CoverageWriter {
    /// What one call of `write` may do: whether a call with `data` on a sink
    /// in state `self` can succeed (`ok`) or fail (`!ok`) and leave the sink in
    /// state `post`. An implementation says here what its `write` keeps to;
    /// one that says nothing promises nothing.
    open spec fn wrote(&self, data: Seq<u8>, ok: bool, post: &Self) -> bool {
        true
    }

    /// Writes the given bytes to the sink.
    ///
    /// This method should return an error if all bytes could not be written to
    /// the sink.
    fn write(&mut self, data: &[u8]) -> (res: Result<(), CoverageWriteError>)
        ensures
            old(self).wrote(data@, res is Ok, final(self)),
    ;
}

/// The growable buffer takes every chunk and keeps it behind what it holds.
impl CoverageWriter for Vec<u8> {
    open spec fn wrote(&self, data: Seq<u8>, ok: bool, post: &Self) -> bool {
        ok && post@ == self@ + data
    }

    fn write(&mut self, data: &[u8]) -> (res: Result<(), CoverageWriteError>) {
        self.extend_from_slice(data);
        assert(self@ =~= old(self)@ + data@);
        Ok(())
    }
}

/// Whether handing `chunks` to a sink in state `pre`, one call of `write`
/// for each and in order, can leave it in state `post`, with every call
/// succeeding if `ok` holds, and every call but the last one if it does not.
/// Without a chunk there is no call: the sink stays as it was, and nothing
/// has failed.
pub open spec fn delivers<W: CoverageWriter>(pre: W, chunks: Seq<Seq<u8>>, ok: bool, post: W) -> bool
    decreases chunks.len(),
{
    if chunks.len() == 0 {
        ok && post == pre
    } else {
        exists|mid: W|
            delivers(pre, chunks.drop_last(), true, mid) && #[trigger] mid.wrote(
                chunks.last(),
                ok,
                &post,
            )
    }
}

/// One more call: after a delivery of `made` that left the sink in state
/// `mid`, a call of `write` on `chunk` makes it a delivery of `made` with
/// `chunk` behind it.
pub proof fn lemma_delivers_push<W: CoverageWriter>(
    pre: W,
    made: Seq<Seq<u8>>,
    mid: W,
    chunk: Seq<u8>,
    ok: bool,
    post: W,
)
    requires
        delivers(pre, made, true, mid),
        mid.wrote(chunk, ok, &post),
    ensures
        delivers(pre, made.push(chunk), ok, post),
{
    let all = made.push(chunk);
    assert(all.drop_last() =~= made);
    assert(mid.wrote(all.last(), ok, &post));
}

/// Deliveries follow one another: what leaves a sink in state `mid`, and what
/// then takes it from `mid` to `post`, together take it from `pre` to `post`.
pub proof fn lemma_delivers_append<W: CoverageWriter>(
    pre: W,
    first: Seq<Seq<u8>>,
    mid: W,
    second: Seq<Seq<u8>>,
    ok: bool,
    post: W,
)
    requires
        delivers(pre, first, true, mid),
        delivers(mid, second, ok, post),
    ensures
        delivers(pre, first + second, ok, post),
    decreases second.len(),
{
    if second.len() != 0 {
        let before = choose|before: W|
            delivers(mid, second.drop_last(), true, before) && #[trigger] before.wrote(
                second.last(),
                ok,
                &post,
            );
        lemma_delivers_append(pre, first, mid, second.drop_last(), true, before);
        lemma_delivers_push(pre, first + second.drop_last(), before, second.last(), ok, post);
        assert((first + second.drop_last()).push(second.last()) =~= first + second);
    }
}

/// The growable buffer refuses nothing and keeps everything: whatever chunks
/// it was handed, every call succeeded, and it holds what it held before
/// followed by the chunks, in the order of the calls.
pub proof fn lemma_buffer_delivery(pre: Vec<u8>, chunks: Seq<Seq<u8>>, ok: bool, post: Vec<u8>)
    requires
        delivers(pre, chunks, ok, post),
    ensures
        ok,
        post@ == pre@ + concat(chunks),
    decreases chunks.len(),
{
    if chunks.len() != 0 {
        let mid = choose|mid: Vec<u8>|
            delivers(pre, chunks.drop_last(), true, mid) && #[trigger] mid.wrote(
                chunks.last(),
                ok,
                &post,
            );
        lemma_buffer_delivery(pre, chunks.drop_last(), true, mid);
    }
}

} // verus!
