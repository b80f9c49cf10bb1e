//! A bounded record of what was sent to a client, for repeating what it has not read.

use vstd::prelude::*;
use crate::mesh_session::ReplayOutcome;

verus! {

/// The last `capacity` bytes of a downlink, and how many there were in all.
pub struct DownlinkRing {
    buffer: Vec<u8>,
    capacity: usize,
    total: u64,
    history: Ghost<Seq<u8>>,
}

impl View for DownlinkRing {
    type V = Seq<u8>;

    /// Everything that was ever sent.
    closed spec fn view(&self) -> Seq<u8> {
        self.history@
    }
}

impl DownlinkRing {
    pub closed spec fn cap(self) -> nat {
        self.capacity as nat
    }

    /// The offset of the oldest byte that is still held.
    pub open spec fn oldest(self) -> int {
        if self@.len() <= self.cap() {
            0
        } else {
            self@.len() - self.cap()
        }
    }

    /// What the ring owes a client that has read the first `offset` bytes: the rest where
    /// it holds all of it, and the reason where it does not.
    pub open spec fn answers(self, offset: u64, outcome: ReplayOutcome) -> bool {
        match outcome {
            ReplayOutcome::Available(bytes) => {
                &&& self.oldest() <= offset <= self@.len()
                &&& bytes@ == self@.subrange(offset as int, self@.len() as int)
            },
            ReplayOutcome::Truncated => offset < self.oldest(),
            ReplayOutcome::OffsetAhead => offset > self@.len(),
        }
    }

    pub closed spec fn wf(self) -> bool {
        &&& self.total == self.history@.len()
        &&& self.buffer@.len() <= self.capacity
        &&& self.buffer@ == self.history@.subrange(self.oldest(), self.history@.len() as int)
    }

    /// A ring that holds up to `capacity` bytes.
    pub fn new(capacity: usize) -> (ring: DownlinkRing)
        ensures
            ring.wf(),
            ring.cap() == capacity,
            ring@ == Seq::<u8>::empty(),
    {
        let ring = DownlinkRing {
            buffer: Vec::new(),
            capacity,
            total: 0,
            history: Ghost(Seq::empty()),
        };
        assert(ring.buffer@ =~= ring.history@.subrange(0, 0));
        ring
    }

    /// How many bytes were sent in all.
    pub fn total_sent(&self) -> (total: u64)
        requires
            self.wf(),
        ensures
            total == self@.len(),
    {
        self.total
    }

    /// Records bytes that are about to be sent.
    pub fn push(&mut self, bytes: &[u8])
        requires
            old(self).wf(),
            old(self)@.len() + bytes@.len() <= u64::MAX,
        ensures
            final(self).wf(),
            final(self).cap() == old(self).cap(),
            final(self)@ == old(self)@ + bytes@,
    {
        let ghost sent = self.history@;
        let ghost oldest = self.oldest();
        let keep: usize = self.capacity;
        let skip: usize = if bytes.len() > keep { bytes.len() - keep } else { 0 };
        let fresh: usize = bytes.len() - skip;
        let held: usize = self.buffer.len();
        let drop_front: usize = if held > keep - fresh { held - (keep - fresh) } else { 0 };
        let mut next: Vec<u8> = Vec::new();
        let mut i: usize = drop_front;
        while i < held
            invariant
                drop_front <= i <= held == self.buffer@.len(),
                next@ == self.buffer@.subrange(drop_front as int, i as int),
            decreases held - i,
        {
            next.push(self.buffer[i]);
            assert(next@ =~= self.buffer@.subrange(drop_front as int, i + 1));
            i = i + 1;
        }
        let ghost front = next@;
        let mut j: usize = skip;
        assert(next@ =~= front + bytes@.subrange(skip as int, j as int));
        while j < bytes.len()
            invariant
                skip <= j <= bytes@.len(),
                next@ == front + bytes@.subrange(skip as int, j as int),
            decreases bytes@.len() - j,
        {
            next.push(bytes[j]);
            assert(next@ =~= front + bytes@.subrange(skip as int, j + 1));
            j = j + 1;
        }
        self.buffer = next;
        self.total = self.total + bytes.len() as u64;
        self.history = Ghost(sent + bytes@);
        assert(self.buffer@ =~= self.history@.subrange(self.oldest(), self.history@.len() as int));
    }

    /// What was sent from `offset` on, where all of it is still held.
    pub fn replay_from(&self, offset: u64) -> (outcome: ReplayOutcome)
        requires
            self.wf(),
        ensures
            self.answers(offset, outcome),
    {
        if offset > self.total {
            return ReplayOutcome::OffsetAhead;
        }
        let behind: u64 = self.total - offset;
        if behind > self.buffer.len() as u64 {
            return ReplayOutcome::Truncated;
        }
        let start: usize = self.buffer.len() - behind as usize;
        let mut bytes: Vec<u8> = Vec::new();
        let mut i: usize = start;
        while i < self.buffer.len()
            invariant
                start <= i <= self.buffer@.len(),
                bytes@ == self.buffer@.subrange(start as int, i as int),
            decreases self.buffer@.len() - i,
        {
            bytes.push(self.buffer[i]);
            assert(bytes@ =~= self.buffer@.subrange(start as int, i + 1));
            i = i + 1;
        }
        assert(bytes@ =~= self@.subrange(offset as int, self@.len() as int));
        ReplayOutcome::Available(bytes)
    }
}

/// A client that has read the first `offset` bytes and is given a replay has the whole
/// stream, without a hole and without a repetition.
pub proof fn law_a_replay_completes_the_stream(ring: DownlinkRing, offset: u64, bytes: Vec<u8>)
    requires
        ring.answers(offset, ReplayOutcome::Available(bytes)),
    ensures
        ring@.take(offset as int) + bytes@ == ring@,
{
    assert(ring@.take(offset as int) + bytes@ =~= ring@);
}

/// A ring reaches back exactly as far as its capacity: it has everything from an offset
/// on where no more than that was sent since, it says so where more was, and it knows an
/// offset that lies beyond what was sent.
pub proof fn law_a_ring_reaches_back_its_capacity(
    ring: DownlinkRing,
    offset: u64,
    outcome: ReplayOutcome,
)
    requires
        ring.answers(offset, outcome),
    ensures
        outcome is OffsetAhead <==> offset > ring@.len(),
        outcome is Truncated <==> offset <= ring@.len() && ring@.len() - offset > ring.cap(),
        outcome is Available <==> offset <= ring@.len() && ring@.len() - offset <= ring.cap(),
        outcome matches ReplayOutcome::Available(bytes) ==> {
            &&& bytes@.len() == ring@.len() - offset
            &&& forall|i: int| 0 <= i < bytes@.len() ==> #[trigger] bytes@[i] == ring@[offset + i]
        },
{
}

} // verus!
