//! The candidate registry: the contents of one snapshot of the persistent
//! slot-keyed candidate map.
//!
//! Slots are assigned sequentially from zero and never removed or renumbered,
//! so a snapshot's contents are exactly a vector whose position `i` holds the
//! candidate of slot `i`. Every mutation yields a new snapshot value; turning
//! a snapshot into a content address (and back) is the backing blob store's
//! work and happens outside the core.

use vstd::prelude::*;

use crate::types::Address;
use crate::types::Candidate;
use crate::types::CandidateV;

verus! {

/// The slots of all candidates still eligible to win — those whose `winner`
/// flag is still false — in traversal order.
pub open spec fn eligible_slots(cs: Seq<CandidateV>) -> Seq<u32>
    decreases cs.len(),
{
    if cs.len() == 0 {
        Seq::empty()
    } else {
        let rest = eligible_slots(cs.drop_last());
        if cs.last().winner {
            rest
        } else {
            rest.push(cs.last().idx)
        }
    }
}

/// In a store whose candidates sit at their own slots, the eligible pool
/// holds exactly the slots of the non-winners: every pool entry is a valid
/// slot of a non-winner, and every non-winner's slot is in the pool.
pub proof fn lemma_eligible_slots(cs: Seq<CandidateV>)
    requires
        forall|i: int| 0 <= i < cs.len() ==> (#[trigger] cs[i]).idx == i,
    ensures
        eligible_slots(cs).len() <= cs.len(),
        forall|k: int| 0 <= k < eligible_slots(cs).len() ==> (#[trigger] eligible_slots(cs)[k])
            < cs.len(),
        forall|k: int| 0 <= k < eligible_slots(cs).len() ==> !cs[#[trigger] eligible_slots(
            cs,
        )[k] as int].winner,
        forall|i: int| 0 <= i < cs.len() && !(#[trigger] cs[i]).winner ==> eligible_slots(
            cs,
        ).contains(i as u32),
    decreases cs.len(),
{
    if cs.len() > 0 {
        let prefix = cs.drop_last();
        let pool = eligible_slots(cs);
        let rest = eligible_slots(prefix);
        lemma_eligible_slots(prefix);
        assert forall|i: int| 0 <= i < cs.len() && !(#[trigger] cs[i]).winner implies pool.contains(
            i as u32,
        ) by {
            if i < cs.len() - 1 {
                assert(prefix[i] == cs[i]);
                let k = choose|k: int| 0 <= k < rest.len() && rest[k] == i as u32;
                assert(pool[k] == i as u32);
            } else {
                assert(cs.last().idx == i as u32);
                assert(pool.last() == i as u32);
            }
        }
    }
}

/// If every candidate has already won, no slot is eligible.
pub proof fn lemma_exhausted_pool_is_empty(cs: Seq<CandidateV>)
    requires
        forall|i: int| 0 <= i < cs.len() ==> (#[trigger] cs[i]).winner,
    ensures
        eligible_slots(cs).len() == 0,
    decreases cs.len(),
{
    if cs.len() > 0 {
        lemma_exhausted_pool_is_empty(cs.drop_last());
    }
}

/// One snapshot of the candidate registry. Position `i` of the vector is
/// slot `i`; the engine keeps that alignment as part of its well-formedness
/// invariant.
#[derive(Debug, PartialEq, Eq)]
pub struct CandidateStore {
    candidates: Vec<Candidate>,
}

impl View for CandidateStore {
    type V = Seq<CandidateV>;

    closed spec fn view(&self) -> Seq<CandidateV> {
        Seq::new(self.candidates@.len(), |i: int| self.candidates@[i]@)
    }
}

impl Clone for CandidateStore {
    fn clone(&self) -> (r: Self)
        ensures
            r@ == self@,
    {
        let mut candidates: Vec<Candidate> = Vec::new();
        let mut i: usize = 0;
        while i < self.candidates.len()
            invariant
                i <= self.candidates.len(),
                candidates@.len() == i,
                forall|j: int| 0 <= j < i ==> (#[trigger] candidates@[j])@ == self@[j],
            decreases self.candidates.len() - i,
        {
            candidates.push(self.candidates[i].clone());
            i = i + 1;
        }
        let r = CandidateStore { candidates };
        proof {
            assert(r@ =~= self@);
        }
        r
    }
}

impl CandidateStore {
    /// A snapshot with no candidates.
    pub fn new() -> (s: CandidateStore)
        ensures
            s@ == Seq::<CandidateV>::empty(),
    {
        let s = CandidateStore { candidates: Vec::new() };
        proof {
            assert(s@ =~= Seq::<CandidateV>::empty());
        }
        s
    }

    /// How many candidates the snapshot holds.
    pub fn len(&self) -> (n: usize)
        ensures
            n == self@.len(),
    {
        self.candidates.len()
    }

    /// The candidate at position `i` of the snapshot.
    pub fn candidate_at(&self, i: usize) -> (c: &Candidate)
        requires
            i < self@.len(),
        ensures
            c@ == self@[i as int],
    {
        &self.candidates[i]
    }

    /// Point lookup by slot; an absent slot is not an error.
    pub fn get(&self, slot: u32) -> (r: Option<&Candidate>)
        ensures
            (slot as int) < self@.len() ==> (r matches Some(c) && c@ == self@[slot as int]),
            (slot as int) >= self@.len() ==> r is None,
    {
        if (slot as usize) < self.candidates.len() {
            Some(&self.candidates[slot as usize])
        } else {
            None
        }
    }

    /// Registers one more candidate: a record with `winner` false is appended
    /// at the next slot, which equals the snapshot's size so far.
    pub fn add(&mut self, address: Address)
        requires
            old(self)@.len() < u32::MAX,
        ensures
            final(self)@ == old(self)@.push(
                (CandidateV { address: address@, winner: false, idx: old(self)@.len() as u32 }),
            ),
    {
        let idx: u32 = self.candidates.len() as u32;
        let ghost a = address@;
        self.candidates.push(Candidate { address, winner: false, idx });
        proof {
            assert(self@ =~= old(self)@.push(
                CandidateV { address: a, winner: false, idx: old(self)@.len() as u32 },
            ));
        }
    }

    /// Marks the candidate in `slot` as a winner; its address and slot are
    /// kept, and no other candidate changes.
    pub fn set_winner(&mut self, slot: u32)
        requires
            (slot as int) < old(self)@.len(),
        ensures
            final(self)@ == old(self)@.update(
                slot as int,
                (CandidateV {
                    address: old(self)@[slot as int].address,
                    winner: true,
                    idx: old(self)@[slot as int].idx,
                }),
            ),
    {
        let i = slot as usize;
        let address = self.candidates[i].address.clone();
        let idx = self.candidates[i].idx;
        self.candidates.set(i, Candidate { address, winner: true, idx });
        proof {
            assert(self@ =~= old(self)@.update(
                slot as int,
                CandidateV {
                    address: old(self)@[slot as int].address,
                    winner: true,
                    idx: old(self)@[slot as int].idx,
                },
            ));
        }
    }

    /// Walks the snapshot once and collects the slots of all candidates that
    /// have not yet won, in traversal order.
    pub fn eligible(&self) -> (pool: Vec<u32>)
        ensures
            pool@ == eligible_slots(self@),
    {
        let mut pool: Vec<u32> = Vec::new();
        let mut j: usize = 0;
        while j < self.candidates.len()
            invariant
                j <= self.candidates.len(),
                pool@ == eligible_slots(self@.take(j as int)),
            decreases self.candidates.len() - j,
        {
            proof {
                assert(self@.take(j as int + 1).drop_last() =~= self@.take(j as int));
                assert(self@.take(j as int + 1).last() == self@[j as int]);
            }
            if !self.candidates[j].winner {
                pool.push(self.candidates[j].idx);
            }
            j = j + 1;
        }
        proof {
            assert(self@.take(self@.len() as int) =~= self@);
        }
        pool
    }
}

} // verus!
