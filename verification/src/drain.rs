//! The parent-side drain: a two-state machine — awaiting completion, done —
//! that accumulates the fixed-size chunks read from the channel until a short
//! chunk signals end-of-stream.
//!
//! The loop that performs the reads lives with the operating-system calls,
//! outside this crate; it feeds each chunk, with the size it had requested,
//! into this machine, which decides whether the stream is complete and owns
//! the accumulated payload.

use vstd::prelude::*;

verus! {

/// The number of bytes the parent requests per read of the channel.
pub const CHUNK_SIZE: usize = 4096;

/// Mathematical model of the drain: the bytes accumulated so far, and whether
/// a short chunk has already signalled end-of-stream.
pub ghost struct DrainModel {
    /// The bytes accumulated so far, in the order they were read.
    pub data: Seq<u8>,
    /// Whether the end of the stream has been seen.
    pub complete: bool,
}

/// One step of the drain: append the chunk, and be complete exactly when the
/// chunk was shorter than what was requested.
pub open spec fn drain_step(state: DrainModel, chunk: Seq<u8>, requested: nat) -> DrainModel {
    DrainModel { data: state.data + chunk, complete: chunk.len() < requested }
}

/// The drain run to completion over a whole sequence of chunks, from the
/// given state.
pub open spec fn drain_run(state: DrainModel, chunks: Seq<Seq<u8>>, requested: nat) -> DrainModel
    decreases chunks.len(),
{
    if chunks.len() == 0 {
        state
    } else {
        drain_run(drain_step(state, chunks[0], requested), chunks.drop_first(), requested)
    }
}

/// All the chunks' bytes, in order.
pub open spec fn concat_bytes(chunks: Seq<Seq<u8>>) -> Seq<u8>
    decreases chunks.len(),
{
    if chunks.len() == 0 {
        Seq::empty()
    } else {
        chunks[0] + concat_bytes(chunks.drop_first())
    }
}

/// The shape of the chunk sequence the one-shot read protocol produces: every
/// chunk fills the requested size except the last, whose shortfall is the
/// end-of-stream signal (a payload that is an exact multiple of the requested
/// size ends in an empty chunk).
pub open spec fn protocol_chunking(chunks: Seq<Seq<u8>>, requested: nat) -> bool {
    &&& chunks.len() > 0
    &&& forall|i: int| 0 <= i < chunks.len() - 1 ==> (#[trigger] chunks[i]).len() == requested
    &&& chunks[chunks.len() - 1].len() < requested
}

/// The drain from any incomplete state appends exactly the chunks' bytes, and
/// ends complete precisely on a protocol-shaped chunk sequence.
pub proof fn lemma_drain_run_appends(state: DrainModel, chunks: Seq<Seq<u8>>, requested: nat)
    requires
        protocol_chunking(chunks, requested),
    ensures
        drain_run(state, chunks, requested).data == state.data + concat_bytes(chunks),
        drain_run(state, chunks, requested).complete,
    decreases chunks.len(),
{
    let stepped = drain_step(state, chunks[0], requested);
    let rest = chunks.drop_first();
    assert(drain_run(state, chunks, requested) == drain_run(stepped, rest, requested));
    assert(concat_bytes(chunks) == chunks[0] + concat_bytes(rest));
    if chunks.len() == 1 {
        assert(rest.len() == 0);
        assert(drain_run(stepped, rest, requested) == stepped);
        assert(concat_bytes(rest) == Seq::<u8>::empty());
        assert(stepped.data =~= state.data + concat_bytes(chunks));
    } else {
        assert(rest[rest.len() - 1] == chunks[chunks.len() - 1]);
        assert forall|i: int| 0 <= i < rest.len() - 1 implies (#[trigger] rest[i]).len()
            == requested by {
            assert(rest[i] == chunks[i + 1]);
        }
        assert(protocol_chunking(rest, requested));
        lemma_drain_run_appends(stepped, rest, requested);
        assert(state.data + chunks[0] + concat_bytes(rest) =~= state.data + concat_bytes(chunks));
    }
}

/// A payload split into chunks by the read protocol — several full chunks,
/// then a short one — is accumulated intact: the drain of those chunks ends
/// complete and holds their concatenation, the whole payload.
pub proof fn lemma_multi_chunk_payload_intact(chunks: Seq<Seq<u8>>, requested: nat)
    requires
        protocol_chunking(chunks, requested),
    ensures
        ({
            let end = drain_run(
                DrainModel { data: Seq::empty(), complete: false },
                chunks,
                requested,
            );
            end.data == concat_bytes(chunks) && end.complete
        }),
{
    let start = DrainModel { data: Seq::empty(), complete: false };
    lemma_drain_run_appends(start, chunks, requested);
    assert(start.data + concat_bytes(chunks) =~= concat_bytes(chunks));
}

/// The parent's accumulating read buffer and its completion flag.
pub struct Drain {
    data: Vec<u8>,
    complete: bool,
}

impl View for Drain {
    type V = DrainModel;

    closed spec fn view(&self) -> DrainModel {
        DrainModel { data: self.data@, complete: self.complete }
    }
}

impl Drain {
    /// A fresh drain: nothing accumulated, end-of-stream not yet seen.
    pub fn new() -> (r: Self)
        ensures
            r@ == (DrainModel { data: Seq::<u8>::empty(), complete: false }),
    {
        Drain { data: Vec::new(), complete: false }
    }

    /// Feed one chunk that a read of `requested` bytes returned. Appends the
    /// chunk and records end-of-stream exactly when the chunk fell short of
    /// the request.
    pub fn push_chunk(&mut self, chunk: &Vec<u8>, requested: usize)
        requires
            !old(self)@.complete,
            chunk@.len() <= requested,
        ensures
            final(self)@ == drain_step(old(self)@, chunk@, requested as nat),
    {
        let mut i: usize = 0;
        while i < chunk.len()
            invariant
                i <= chunk@.len(),
                self.data@ == old(self).data@ + chunk@.subrange(0, i as int),
                self.complete == old(self).complete,
            decreases chunk@.len() - i,
        {
            self.data.push(chunk[i]);
            proof {
                assert(old(self).data@ + chunk@.subrange(0, i + 1) =~= (old(self).data@
                    + chunk@.subrange(0, i as int)).push(chunk@[i as int]));
            }
            i = i + 1;
        }
        self.complete = chunk.len() < requested;
        proof {
            assert(chunk@.subrange(0, chunk@.len() as int) =~= chunk@);
            assert(old(self).data@ + Seq::<u8>::empty() =~= old(self).data@);
        }
    }

    /// Whether a short chunk has signalled end-of-stream.
    pub fn is_complete(&self) -> (r: bool)
        ensures
            r == self@.complete,
    {
        self.complete
    }

    /// Hand over everything accumulated.
    pub fn into_bytes(self) -> (r: Vec<u8>)
        ensures
            r@ == self@.data,
    {
        self.data
    }
}

} // verus!
