//! Transaction sequencer: serializes every signing operation issued against
//! the single shared faucet key, so that concurrent submissions obtain
//! monotonically increasing, non-colliding sequence numbers (nonces).
//!
//! The surrounding server holds one `Sequencer` per signer identity (here one
//! in total) behind an admission queue such as an async mutex; the methods
//! here are the decisions taken while that lock is held. `try_admit` admits at
//! most one operation at a time, and a completion — success or failure — must
//! be reported on every exit path so the queue never deadlocks.

use vstd::prelude::*;

verus! {

/// The sequencing state of one signer identity: whether an operation is
/// currently in flight, and the chain's next expected sequence number for the
/// signer. The counter is owned exclusively by the sequencer: no other
/// component reads or advances it.
pub struct Sequencer {
    in_flight: bool,
    next_sequence: u64,
}

impl Sequencer {
    /// Whether an operation is currently admitted and not yet completed.
    pub closed spec fn is_in_flight(&self) -> bool {
        self.in_flight
    }

    /// The chain's next expected sequence number for the signer.
    pub closed spec fn sequence(&self) -> u64 {
        self.next_sequence
    }

    /// A fresh sequencer for a signer whose chain state currently expects
    /// `chain_sequence` as the next nonce.
    pub fn new(chain_sequence: u64) -> (s: Sequencer)
        ensures
            !s.is_in_flight(),
            s.sequence() == chain_sequence,
    {
        Sequencer { in_flight: false, next_sequence: chain_sequence }
    }

    /// Whether an operation is in flight, for callers that must check before
    /// reporting a completion.
    pub fn in_flight(&self) -> (r: bool)
        ensures
            r == self.is_in_flight(),
    {
        self.in_flight
    }

    /// The next sequence number the signer will sign with, for callers that
    /// must check the counter has room before reporting a success.
    pub fn current_sequence(&self) -> (r: u64)
        ensures
            r == self.sequence(),
    {
        self.next_sequence
    }

    /// Ask to start a signing operation. While another operation is in
    /// flight, admission is refused and the state is untouched: the caller
    /// queues and retries once the earlier operation completes. Otherwise the
    /// operation is admitted and receives the sequence number it must sign
    /// with.
    pub fn try_admit(&mut self) -> (ticket: Option<u64>)
        ensures
            old(self).is_in_flight() ==> {
                &&& ticket is None
                &&& *final(self) == *old(self)
            },
            !old(self).is_in_flight() ==> {
                &&& ticket == Some(old(self).sequence())
                &&& final(self).is_in_flight()
                &&& final(self).sequence() == old(self).sequence()
            },
    {
        if self.in_flight {
            None
        } else {
            self.in_flight = true;
            Some(self.next_sequence)
        }
    }

    /// Report that the admitted operation broadcast successfully: the chain
    /// consumed the sequence number, so the next operation signs with the
    /// successor.
    pub fn complete_success(&mut self)
        requires
            old(self).is_in_flight(),
            old(self).sequence() < u64::MAX,
        ensures
            !final(self).is_in_flight(),
            final(self).sequence() == old(self).sequence() + 1,
    {
        self.in_flight = false;
        self.next_sequence = self.next_sequence + 1;
    }

    /// Report that the admitted operation failed before the chain accepted
    /// it: the sequence number was not consumed, so the next operation
    /// observes the same value the failed one did.
    pub fn complete_failure(&mut self)
        requires
            old(self).is_in_flight(),
        ensures
            !final(self).is_in_flight(),
            final(self).sequence() == old(self).sequence(),
    {
        self.in_flight = false;
    }
}

/// The sequence numbers that a batch of `m` successful operations starting
/// from chain sequence `start` signs with.
pub open spec fn batch_tickets(start: u64, m: nat) -> Seq<u64> {
    Seq::new(m, |i: int| (start + i) as u64)
}

/// The tickets of a successful batch are strictly increasing and gap-free:
/// each operation signs with exactly the successor of the one before it.
pub proof fn lemma_batch_tickets_gap_free(start: u64, m: nat)
    requires
        start + m <= u64::MAX + 1,
    ensures
        batch_tickets(start, m).len() == m,
        forall|i: int| 0 <= i < m ==> batch_tickets(start, m)[i] == start + i,
        forall|i: int, j: int| 0 <= i < j < m ==> batch_tickets(start, m)[i] < batch_tickets(
            start,
            m,
        )[j],
        forall|i: int| 1 <= i < m ==> #[trigger] batch_tickets(start, m)[i] == batch_tickets(
            start,
            m,
        )[i - 1] + 1,
{
}

/// Run `m` signing operations to successful completion, one after the other,
/// against one sequencer. This is the serialized order that the admission
/// queue imposes on `m` concurrent requests for the same signer: no two
/// operations are ever in flight at once (`try_admit` refuses admission while
/// one is), and the tickets handed out are strictly increasing and gap-free.
pub fn run_sequenced_batch(s: &mut Sequencer, m: usize) -> (tickets: Vec<u64>)
    requires
        !old(s).is_in_flight(),
        old(s).sequence() + m <= u64::MAX,
    ensures
        tickets@ == batch_tickets(old(s).sequence(), m as nat),
        !final(s).is_in_flight(),
        final(s).sequence() == old(s).sequence() + m,
{
    let mut tickets: Vec<u64> = Vec::new();
    let mut done: usize = 0;
    while done < m
        invariant
            done <= m,
            !s.is_in_flight(),
            s.sequence() == old(s).sequence() + done,
            old(s).sequence() + m <= u64::MAX,
            tickets@.len() == done,
            forall|i: int| 0 <= i < done ==> tickets@[i] == old(s).sequence() + i,
        decreases m - done,
    {
        let ticket = s.try_admit();
        match ticket {
            Some(t) => {
                tickets.push(t);
                s.complete_success();
            },
            None => {
                proof {
                    assert(false);
                }
            },
        }
        done = done + 1;
    }
    proof {
        assert(tickets@ =~= batch_tickets(old(s).sequence(), m as nat));
    }
    tickets
}

} // verus!
