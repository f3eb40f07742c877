//! Chunked traversal of an extensible memory bank.
//!
//! A bank does not advertise its length up front, so a full read probes past
//! the end: it issues fixed-size chunk reads at increasing addresses and
//! stops the first time the module reports a failed read. That failure is
//! the expected end-of-bank signal, and the bytes collected so far are the
//! successful result — it is never escalated as an error.

use vstd::prelude::*;

use crate::device::MemoryBank;
use crate::protocol::append_bytes;

verus! {

/// Where a chunked read stands: waiting for the one read that covers the
/// bytes below the start address, probing the bank body chunk by chunk, or
/// finished.
#[derive(Debug, Clone, Copy, PartialEq, Eq, Structural)]
pub enum ChunkPhase {
    Prefix,
    Body,
    Done,
}

/// True when every outcome in the sequence is a successful chunk.
pub open spec fn all_chunks_ok(outcomes: Seq<Option<Seq<u8>>>) -> bool {
    forall|i: int| 0 <= i < outcomes.len() ==> outcomes[i] is Some
}

/// The concatenation of the successful chunks that precede the first failed
/// read; the failure itself and anything after it contribute nothing.
pub open spec fn chunks_before_failure(outcomes: Seq<Option<Seq<u8>>>) -> Seq<u8>
    decreases outcomes.len(),
{
    if outcomes.len() == 0 {
        Seq::<u8>::empty()
    } else {
        match outcomes[0] {
            Option::None => Seq::<u8>::empty(),
            Option::Some(c) => c + chunks_before_failure(outcomes.drop_first()),
        }
    }
}

/// Appending one more successful chunk to a run without failures extends the
/// collected bytes by exactly that chunk.
pub proof fn lemma_chunks_push_ok(outcomes: Seq<Option<Seq<u8>>>, c: Seq<u8>)
    requires
        all_chunks_ok(outcomes),
    ensures
        chunks_before_failure(outcomes.push(Some(c))) == chunks_before_failure(outcomes) + c,
    decreases outcomes.len(),
{
    let pushed = outcomes.push(Some(c));
    if outcomes.len() == 0 {
        assert(pushed[0] == Some(c));
        assert(pushed.drop_first() =~= Seq::<Option<Seq<u8>>>::empty());
        assert(chunks_before_failure(pushed) == c + chunks_before_failure(pushed.drop_first()));
        assert(c + Seq::<u8>::empty() =~= c);
        assert(Seq::<u8>::empty() + c =~= c);
    } else {
        assert(outcomes[0] is Some);
        let c0 = outcomes[0]->0;
        assert(pushed[0] == Some(c0));
        assert(pushed.drop_first() =~= outcomes.drop_first().push(Some(c)));
        assert(all_chunks_ok(outcomes.drop_first()));
        lemma_chunks_push_ok(outcomes.drop_first(), c);
        assert(chunks_before_failure(pushed) == c0 + chunks_before_failure(pushed.drop_first()));
        assert(chunks_before_failure(outcomes) == c0 + chunks_before_failure(
            outcomes.drop_first(),
        ));
        assert(c0 + (chunks_before_failure(outcomes.drop_first()) + c) =~= (c0
            + chunks_before_failure(outcomes.drop_first())) + c);
    }
}

/// Ending a run without failures on a failed read leaves the collected bytes
/// unchanged.
pub proof fn lemma_chunks_push_failure(outcomes: Seq<Option<Seq<u8>>>)
    requires
        all_chunks_ok(outcomes),
    ensures
        chunks_before_failure(outcomes.push(None)) == chunks_before_failure(outcomes),
    decreases outcomes.len(),
{
    let pushed = outcomes.push(None);
    if outcomes.len() == 0 {
        assert(pushed[0] is None);
    } else {
        assert(outcomes[0] is Some);
        assert(pushed.drop_first() =~= outcomes.drop_first().push(None));
        assert(all_chunks_ok(outcomes.drop_first()));
        lemma_chunks_push_failure(outcomes.drop_first());
    }
}

/// A chunked read in progress. `outcomes` is the ghost record of every body
/// read fed in so far, and the accumulated `data` always equals the prefix
/// bytes followed by the chunks collected before the first failure — which
/// is exactly what the finished read hands back.
pub struct ChunkedReader {
    pub bank: MemoryBank,
    pub chunk_size: u16,
    pub address: u16,
    pub data: Vec<u8>,
    pub phase: ChunkPhase,
    pub prefix: Ghost<Seq<u8>>,
    pub outcomes: Ghost<Seq<Option<Seq<u8>>>>,
}

impl ChunkedReader {
    /// The shape every reachable reader state has. In particular the
    /// collected bytes are always the prefix plus the chunks read before the
    /// first failure, and a traversal that is still probing has seen no
    /// failure yet.
    pub open spec fn wf(self) -> bool {
        &&& self.chunk_size > 0
        &&& self.chunk_size % 2 == 0
        &&& self.phase is Prefix ==> {
            &&& self.address > 0
            &&& self.address % 2 == 0
            &&& self.prefix@ == Seq::<u8>::empty()
            &&& self.outcomes@ == Seq::<Option<Seq<u8>>>::empty()
        }
        &&& self.phase is Body ==> all_chunks_ok(self.outcomes@)
        &&& self.data@ == self.prefix@ + chunks_before_failure(self.outcomes@)
    }

    /// Starts a full read of `bank`. A bank whose interesting bytes begin at
    /// a nonzero start address first needs one read that covers everything
    /// below that address; a bank read from address zero goes straight to
    /// chunk probing.
    pub fn new(bank: MemoryBank, start_address: u16, chunk_size: u16) -> (r: ChunkedReader)
        requires
            chunk_size > 0,
            chunk_size % 2 == 0,
            start_address % 2 == 0,
        ensures
            r.wf(),
            r.bank == bank,
            r.chunk_size == chunk_size,
            r.address == start_address,
            r.data@ == Seq::<u8>::empty(),
            r.phase == (if start_address == 0 {
                ChunkPhase::Body
            } else {
                ChunkPhase::Prefix
            }),
            r.prefix@ == Seq::<u8>::empty(),
            r.outcomes@ == Seq::<Option<Seq<u8>>>::empty(),
    {
        let phase = if start_address == 0 {
            ChunkPhase::Body
        } else {
            ChunkPhase::Prefix
        };
        let r = ChunkedReader {
            bank,
            chunk_size,
            address: start_address,
            data: Vec::new(),
            phase,
            prefix: Ghost(Seq::<u8>::empty()),
            outcomes: Ghost(Seq::<Option<Seq<u8>>>::empty()),
        };
        assert(r.data@ =~= r.prefix@ + chunks_before_failure(r.outcomes@));
        r
    }

    /// True once the traversal is finished and `into_data` may be taken.
    pub fn is_done(&self) -> (r: bool)
        ensures
            r == (self.phase is Done),
    {
        match self.phase {
            ChunkPhase::Done => true,
            _ => false,
        }
    }

    /// The bank, address and length of the next read to issue: the one
    /// prefix read first when there is one, then a chunk read at the current
    /// address. The length is always a valid (positive, even) read length.
    pub fn next_request(&self) -> (r: (MemoryBank, u16, u16))
        requires
            self.wf(),
            !(self.phase is Done),
        ensures
            r.0 == self.bank,
            self.phase is Prefix ==> r.1 == 0 && r.2 == self.address,
            self.phase is Body ==> r.1 == self.address && r.2 == self.chunk_size,
            r.2 > 0 && r.2 % 2 == 0,
    {
        match self.phase {
            ChunkPhase::Prefix => (self.bank, 0, self.address),
            _ => (self.bank, self.address, self.chunk_size),
        }
    }

    /// Records the successful read of the bytes below the start address.
    /// (A failed prefix read fails the whole bank read; it is not fed here.)
    pub fn on_prefix(&mut self, chunk: &[u8])
        requires
            old(self).wf(),
            old(self).phase is Prefix,
        ensures
            final(self).wf(),
            final(self).phase is Body,
            final(self).data@ == old(self).data@ + chunk@,
            final(self).bank == old(self).bank,
            final(self).chunk_size == old(self).chunk_size,
            final(self).address == old(self).address,
            final(self).prefix@ == chunk@,
            final(self).outcomes@ == old(self).outcomes@,
    {
        append_bytes(&mut self.data, chunk);
        self.prefix = Ghost(chunk@);
        self.phase = ChunkPhase::Body;
        assert(self.data@ =~= self.prefix@ + chunks_before_failure(self.outcomes@));
    }

    /// Records one successful chunk read: the chunk joins the collected
    /// bytes and the address moves past it. Should the next chunk begin
    /// beyond the 16-bit address space, the traversal is complete there and
    /// then, since no further address can be asked for.
    pub fn on_chunk(&mut self, chunk: &[u8])
        requires
            old(self).wf(),
            old(self).phase is Body,
        ensures
            final(self).wf(),
            final(self).data@ == old(self).data@ + chunk@,
            final(self).bank == old(self).bank,
            final(self).chunk_size == old(self).chunk_size,
            final(self).prefix@ == old(self).prefix@,
            final(self).outcomes@ == old(self).outcomes@.push(Some(chunk@)),
            old(self).address + old(self).chunk_size <= 0xFFFF ==> final(self).phase is Body
                && final(self).address == old(self).address + old(self).chunk_size,
            old(self).address + old(self).chunk_size > 0xFFFF ==> final(self).phase is Done,
    {
        append_bytes(&mut self.data, chunk);
        proof {
            lemma_chunks_push_ok(self.outcomes@, chunk@);
        }
        self.outcomes = Ghost(self.outcomes@.push(Some(chunk@)));
        proof {
            assert forall|i: int| 0 <= i < self.outcomes@.len() implies self.outcomes@[i]
                is Some by {
                if i < old(self).outcomes@.len() {
                    assert(old(self).outcomes@[i] is Some);
                }
            }
            assert(self.data@ =~= self.prefix@ + chunks_before_failure(self.outcomes@));
        }
        if self.address <= 0xFFFF - self.chunk_size {
            self.address = self.address + self.chunk_size;
        } else {
            self.phase = ChunkPhase::Done;
        }
    }

    /// Records a failed chunk read. The failure is the expected end-of-bank
    /// signal: the traversal stops, and the bytes collected so far stand as
    /// the successful result of the whole read.
    pub fn on_read_error(&mut self)
        requires
            old(self).wf(),
            old(self).phase is Body,
        ensures
            final(self).wf(),
            final(self).phase is Done,
            final(self).data@ == old(self).data@,
            final(self).bank == old(self).bank,
            final(self).chunk_size == old(self).chunk_size,
            final(self).prefix@ == old(self).prefix@,
            final(self).outcomes@ == old(self).outcomes@.push(None),
    {
        proof {
            lemma_chunks_push_failure(self.outcomes@);
        }
        self.outcomes = Ghost(self.outcomes@.push(None));
        self.phase = ChunkPhase::Done;
    }

    /// Hands back everything the finished traversal collected: exactly the
    /// prefix bytes followed by every chunk read before the first failure.
    pub fn into_data(self) -> (r: Vec<u8>)
        requires
            self.wf(),
            self.phase is Done,
        ensures
            r@ == self.prefix@ + chunks_before_failure(self.outcomes@),
            r@ == self.data@,
    {
        self.data
    }
}

} // verus!
