//! The lottery engine: owner-gated lifecycle transitions and the
//! without-replacement draw.
//!
//! Every operation is a whole-state transition: it takes the current state
//! (and, where candidates are involved, the candidate snapshot the state
//! refers to) and either applies the operation completely or returns an error
//! and leaves both untouched. The host layer around the core loads the pair
//! before calling and persists it afterwards only on success, which gives
//! each operation all-or-nothing effect on observable state.

use vstd::prelude::*;

use crate::store::eligible_slots;
use crate::store::lemma_eligible_slots;
use crate::store::lemma_exhausted_pool_is_empty;
use crate::store::CandidateStore;
use crate::types::clone_vec;
use crate::types::ActorID;
use crate::types::AddCandidatesParam;
use crate::types::Address;
use crate::types::CandidateV;
use crate::types::Error;
use crate::types::InitParam;
use crate::types::State;
use crate::types::Status;
use crate::types::INIT_ACTOR_ADDR;

verus! {

/// No value occurs twice in the sequence.
pub open spec fn distinct(s: Seq<u32>) -> bool {
    forall|a: int, b: int| 0 <= a < b < s.len() ==> s[a] != s[b]
}

/// Well-formedness of a lottery state together with the candidate snapshot
/// it refers to. The constructor establishes it and every operation
/// preserves it:
/// - the snapshot holds exactly the slots assigned so far, each candidate
///   sitting at its own slot;
/// - the winners list names pairwise different slots, each of a registered
///   candidate that is marked as a winner, and every marked candidate is
///   named in it;
/// - no more winners than the quota have been drawn, the quota is positive,
///   and `finished` holds exactly when the quota has been reached.
pub open spec fn wf(state: State, cs: Seq<CandidateV>) -> bool {
    &&& cs.len() == state.canidx
    &&& (forall|i: int| 0 <= i < cs.len() ==> (#[trigger] cs[i]).idx == i)
    &&& distinct(state.winners@)
    &&& (forall|k: int|
        0 <= k < state.winners@.len() ==> (#[trigger] state.winners@[k]) < state.canidx)
    &&& (forall|k: int|
        0 <= k < state.winners@.len() ==> cs[(#[trigger] state.winners@[k]) as int].winner)
    &&& (forall|i: int|
        0 <= i < cs.len() && (#[trigger] cs[i]).winner ==> state.winners@.contains(i as u32))
    &&& state.winners@.len() <= state.winners_num
    &&& 1 <= state.winners_num
    &&& state.finished == (state.winners@.len() == state.winners_num)
}

/// One operation step moves one way only: `ready` and `finished` never
/// revert, the slot counter never shrinks, the winners list only grows by
/// appending, and a registered candidate keeps its slot and address and
/// never loses a winner mark. Every operation ensures this of the state and
/// snapshot it was given, so it holds across any sequence of operations.
pub open spec fn monotone_step(
    pre: State,
    pre_cs: Seq<CandidateV>,
    post: State,
    post_cs: Seq<CandidateV>,
) -> bool {
    &&& (pre.ready ==> post.ready)
    &&& (pre.finished ==> post.finished)
    &&& pre.canidx <= post.canidx
    &&& pre.winners@.len() <= post.winners@.len()
    &&& (forall|k: int|
        0 <= k < pre.winners@.len() ==> (#[trigger] post.winners@[k]) == pre.winners@[k])
    &&& pre_cs.len() <= post_cs.len()
    &&& (forall|i: int|
        0 <= i < pre_cs.len() ==> ((#[trigger] post_cs[i]).address == pre_cs[i].address
            && post_cs[i].idx == pre_cs[i].idx && (pre_cs[i].winner ==> post_cs[i].winner)))
}

/// The unsigned integer carried big-endian by the first four bytes.
pub open spec fn be32(b: Seq<u8>) -> nat
    recommends
        b.len() >= 4,
{
    (b[0] * 0x1000000 + b[1] * 0x10000 + b[2] * 0x100 + b[3]) as nat
}

/// Reduces beacon randomness to a number in `[low, high)`: the first four
/// bytes are read as a big-endian unsigned integer and taken modulo the
/// width of the range. Any observer holding the same beacon bytes recomputes
/// the same value.
pub fn rng_gen_range(low: u32, high: u32, randomness: &Vec<u8>) -> (r: u32)
    requires
        low < high,
        randomness@.len() >= 4,
    ensures
        r == low + be32(randomness@) % ((high - low) as nat),
        low <= r < high,
{
    let x: u32 = (randomness[0] as u32) * 0x1000000 + (randomness[1] as u32) * 0x10000 + (
    randomness[2] as u32) * 0x100 + (randomness[3] as u32);
    low + x % (high - low)
}

/// Creates the lottery: only the bootstrap identity may run it, the quota
/// must be positive, and the initial candidates are assigned the slots
/// `0, 1, ...` in the order given, none of them a winner yet.
///
/// `owner` is the canonical identity that `param.owner` resolves to;
/// resolution is the host's work and happens before this call.
pub fn constructor(caller: ActorID, owner: ActorID, param: &InitParam) -> (r: Result<
    (State, CandidateStore),
    Error,
>)
    requires
        param.candidates@.len() <= u32::MAX,
    ensures
        (caller != INIT_ACTOR_ADDR) <==> (r matches Err(e) && e == Error::Forbidden),
        (caller == INIT_ACTOR_ADDR && param.winners_num == 0) <==> (r matches Err(e) && e
            == Error::IllegalArgument),
        (caller == INIT_ACTOR_ADDR && param.winners_num >= 1) <==> r matches Ok(_),
        r matches Ok(p) ==> ({
            &&& p.0.owner == owner
            &&& p.0.winners@ == Seq::<u32>::empty()
            &&& p.0.ready == false
            &&& p.0.finished == false
            &&& p.0.winners_num == param.winners_num
            &&& p.0.canidx == param.candidates@.len()
            &&& p.1@.len() == param.candidates@.len()
            &&& (forall|i: int|
                0 <= i < param.candidates@.len() ==> (#[trigger] p.1@[i]) == (CandidateV {
                    address: param.candidates@[i]@,
                    winner: false,
                    idx: i as u32,
                }))
            &&& wf(p.0, p.1@)
        }),
{
    if caller != INIT_ACTOR_ADDR {
        return Err(Error::Forbidden);
    }
    if param.winners_num == 0 {
        return Err(Error::IllegalArgument);
    }
    let mut store = CandidateStore::new();
    let mut i: usize = 0;
    while i < param.candidates.len()
        invariant
            i <= param.candidates@.len(),
            param.candidates@.len() <= u32::MAX,
            store@.len() == i,
            forall|j: int|
                0 <= j < i ==> (#[trigger] store@[j]) == (CandidateV {
                    address: param.candidates@[j]@,
                    winner: false,
                    idx: j as u32,
                }),
        decreases param.candidates@.len() - i,
    {
        store.add(param.candidates[i].clone());
        i = i + 1;
    }
    let state = State {
        owner,
        winners: Vec::new(),
        ready: false,
        finished: false,
        winners_num: param.winners_num,
        canidx: store.len() as u32,
    };
    proof {
        assert(state.winners@ =~= Seq::<u32>::empty());
    }
    Ok((state, store))
}

/// Seals registration: only the owner may call, and the effect is to set
/// `ready` — calling it again changes nothing further.
pub fn ready(state: &mut State, caller: ActorID) -> (r: Result<(), Error>)
    ensures
        (caller != old(state).owner) <==> (r matches Err(e) && e == Error::Forbidden),
        (caller == old(state).owner) <==> r matches Ok(_),
        r matches Err(_) ==> *final(state) == *old(state),
        r matches Ok(_) ==> ({
            &&& final(state).ready == true
            &&& final(state).owner == old(state).owner
            &&& final(state).winners@ == old(state).winners@
            &&& final(state).finished == old(state).finished
            &&& final(state).winners_num == old(state).winners_num
            &&& final(state).canidx == old(state).canidx
        }),
        forall|cs: Seq<CandidateV>| wf(*old(state), cs) ==> #[trigger] wf(*final(state), cs),
        forall|cs: Seq<CandidateV>| #[trigger] monotone_step(*old(state), cs, *final(state), cs),
{
    if caller != state.owner {
        return Err(Error::Forbidden);
    }
    state.ready = true;
    Ok(())
}

/// Registers more candidates: only the owner may call, and each address is
/// appended under the next slot, in the order given. Registration never
/// removes or renumbers existing candidates, and is allowed before and after
/// sealing alike.
pub fn add_candidates(
    state: &mut State,
    store: &mut CandidateStore,
    caller: ActorID,
    param: &AddCandidatesParam,
) -> (r: Result<(), Error>)
    requires
        wf(*old(state), old(store)@),
        old(state).canidx + param.addresses@.len() <= u32::MAX,
    ensures
        (caller != old(state).owner) <==> (r matches Err(e) && e == Error::Forbidden),
        (caller == old(state).owner) <==> r matches Ok(_),
        r matches Err(_) ==> *final(state) == *old(state) && final(store)@ == old(store)@,
        r matches Ok(_) ==> ({
            &&& final(state).canidx == old(state).canidx + param.addresses@.len()
            &&& final(state).owner == old(state).owner
            &&& final(state).winners@ == old(state).winners@
            &&& final(state).ready == old(state).ready
            &&& final(state).finished == old(state).finished
            &&& final(state).winners_num == old(state).winners_num
            &&& final(store)@.len() == old(store)@.len() + param.addresses@.len()
            &&& (forall|i: int|
                0 <= i < old(store)@.len() ==> (#[trigger] final(store)@[i]) == old(store)@[i])
            &&& (forall|k: int|
                0 <= k < param.addresses@.len() ==> (#[trigger] final(store)@[old(store)@.len()
                    + k]) == (CandidateV {
                    address: param.addresses@[k]@,
                    winner: false,
                    idx: (old(state).canidx + k) as u32,
                }))
            &&& wf(*final(state), final(store)@)
        }),
        monotone_step(*old(state), old(store)@, *final(state), final(store)@),
{
    if caller != state.owner {
        return Err(Error::Forbidden);
    }
    let mut k: usize = 0;
    while k < param.addresses.len()
        invariant
            k <= param.addresses@.len(),
            store@.len() == old(store)@.len() + k,
            old(store)@.len() + param.addresses@.len() <= u32::MAX,
            forall|i: int| 0 <= i < old(store)@.len() ==> (#[trigger] store@[i]) == old(store)@[i],
            forall|j: int|
                0 <= j < k ==> (#[trigger] store@[old(store)@.len() + j]) == (CandidateV {
                    address: param.addresses@[j]@,
                    winner: false,
                    idx: (old(store)@.len() + j) as u32,
                }),
        decreases param.addresses@.len() - k,
    {
        store.add(param.addresses[k].clone());
        k = k + 1;
    }
    state.canidx = state.canidx + param.addresses.len() as u32;
    proof {
        let cs = old(store)@;
        let csnew = store@;
        assert forall|i: int| 0 <= i < csnew.len() implies (#[trigger] csnew[i]).idx == i by {
            if i < cs.len() {
                assert(csnew[i] == cs[i]);
            } else {
                assert(csnew[cs.len() + (i - cs.len())].idx == (cs.len() + (i - cs.len())) as u32);
            }
        }
        assert forall|k: int| 0 <= k < state.winners@.len() implies cs[(#[trigger] state.winners@[k]) as int].winner
            == csnew[state.winners@[k] as int].winner by {
            assert(csnew[state.winners@[k] as int] == cs[state.winners@[k] as int]);
        }
        assert forall|i: int|
            0 <= i < csnew.len() && (#[trigger] csnew[i]).winner implies state.winners@.contains(
            i as u32,
        ) by {
            if i < cs.len() {
                assert(csnew[i] == cs[i]);
            } else {
                assert(csnew[cs.len() + (i - cs.len())].winner == false);
            }
        }
    }
    Ok(())
}

/// Draws one winner. Only the owner may call; the lottery must be sealed and
/// the quota not yet reached; at least one candidate must still be eligible.
/// The winner is picked uniformly over the currently eligible candidates by
/// reducing the given beacon randomness modulo the pool size; its slot is
/// appended to the winners, its record is marked, and `finished` is set
/// exactly when this draw fills the quota. The winner's address is reported.
pub fn lucky_draw(
    state: &mut State,
    store: &mut CandidateStore,
    caller: ActorID,
    randomness: &Vec<u8>,
) -> (r: Result<Address, Error>)
    requires
        wf(*old(state), old(store)@),
        randomness@.len() >= 4,
    ensures
        (caller != old(state).owner) <==> (r matches Err(e) && e == Error::Forbidden),
        caller == old(state).owner ==> ((r matches Err(e) && e == Error::IllegalState) <==> (!old(
            state,
        ).ready || old(state).winners@.len() >= old(state).winners_num || eligible_slots(
            old(store)@,
        ).len() == 0)),
        (caller == old(state).owner && old(state).ready && old(state).winners@.len() < old(
            state,
        ).winners_num && eligible_slots(old(store)@).len() > 0) <==> r matches Ok(_),
        r matches Err(_) ==> *final(state) == *old(state) && final(store)@ == old(store)@,
        r matches Ok(a) ==> ({
            let pool = eligible_slots(old(store)@);
            let i = be32(randomness@) % pool.len();
            let w = pool[i as int];
            &&& a@ == old(store)@[w as int].address
            &&& final(state).winners@ == old(state).winners@.push(w)
            &&& final(store)@ == old(store)@.update(
                w as int,
                (CandidateV { address: old(store)@[w as int].address, winner: true, idx: w }),
            )
            &&& final(state).finished == (old(state).winners@.len() + 1 == old(
                state,
            ).winners_num)
            &&& final(state).owner == old(state).owner
            &&& final(state).ready == old(state).ready
            &&& final(state).winners_num == old(state).winners_num
            &&& final(state).canidx == old(state).canidx
            &&& wf(*final(state), final(store)@)
        }),
        monotone_step(*old(state), old(store)@, *final(state), final(store)@),
{
    if caller != state.owner {
        return Err(Error::Forbidden);
    }
    if !state.ready {
        return Err(Error::IllegalState);
    }
    if state.winners.len() >= state.winners_num as usize {
        return Err(Error::IllegalState);
    }
    let pool = store.eligible();
    if pool.len() == 0 {
        return Err(Error::IllegalState);
    }
    proof {
        lemma_eligible_slots(store@);
    }
    let cvlen: u32 = pool.len() as u32;
    let i = rng_gen_range(0, cvlen, randomness) as usize;
    let winner: u32 = pool[i];
    state.winners.push(winner);
    store.set_winner(winner);
    if state.winners.len() == state.winners_num as usize {
        state.finished = true;
    }
    let addr = store.candidate_at(winner as usize).address.clone();
    proof {
        let cs = old(store)@;
        let wold = old(state).winners@;
        let wnew = state.winners@;
        let csnew = store@;
        let w = winner;
        assert forall|a: int, b: int| 0 <= a < b < wnew.len() implies wnew[a] != wnew[b] by {
            if b < wold.len() {
            } else {
                assert(wnew[b] == w);
                assert(!cs[w as int].winner);
                if a < wold.len() {
                    assert(cs[wold[a] as int].winner);
                }
            }
        }
        assert forall|i2: int|
            0 <= i2 < csnew.len() && (#[trigger] csnew[i2]).winner implies wnew.contains(
            i2 as u32,
        ) by {
            if i2 == w as int {
                assert(wnew.last() == w);
            } else {
                assert(cs[i2].winner);
                let k = choose|k: int| 0 <= k < wold.len() && wold[k] == i2 as u32;
                assert(wnew[k] == i2 as u32);
            }
        }
    }
    Ok(addr)
}

/// Reports the status snapshot: owner, lifecycle flags and the winners drawn
/// so far, in draw order. No access check, and no state change.
pub fn current_state(state: &State) -> (s: Status)
    ensures
        s.owner == state.owner,
        s.ready == state.ready,
        s.finished == state.finished,
        s.winners@ == state.winners@,
{
    Status {
        owner: state.owner,
        ready: state.ready,
        finished: state.finished,
        winners: clone_vec(&state.winners),
    }
}

/// Decides well-formedness of a state and snapshot pair by walking the data
/// once, e.g. right after both were decoded from the backing store. Returns
/// exactly whether `wf` holds.
pub fn wf_check(state: &State, store: &CandidateStore) -> (b: bool)
    ensures
        b == wf(*state, store@),
{
    let n = store.len();
    if n != state.canidx as usize {
        return false;
    }
    let mut i: usize = 0;
    while i < n
        invariant
            i <= n,
            n == store@.len(),
            n == state.canidx as usize,
            forall|j: int| 0 <= j < i ==> (#[trigger] store@[j]).idx == j,
        decreases n - i,
    {
        if store.candidate_at(i).idx != i as u32 {
            proof {
                assert(store@[i as int].idx != i);
            }
            return false;
        }
        i = i + 1;
    }
    let m = state.winners.len();
    let mut a: usize = 0;
    while a < m
        invariant
            a <= m,
            m == state.winners@.len(),
            forall|x: int, y: int|
                0 <= x < y < m && x < a ==> state.winners@[x] != state.winners@[y],
        decreases m - a,
    {
        let mut b2: usize = a + 1;
        while b2 < m
            invariant
                a < m,
                a + 1 <= b2 <= m,
                m == state.winners@.len(),
                forall|y: int| a < y < b2 ==> state.winners@[a as int] != state.winners@[y],
            decreases m - b2,
        {
            if state.winners[a] == state.winners[b2] {
                proof {
                    assert(state.winners@[a as int] == state.winners@[b2 as int]);
                    assert(!distinct(state.winners@));
                }
                return false;
            }
            b2 = b2 + 1;
        }
        a = a + 1;
    }
    let mut k: usize = 0;
    while k < m
        invariant
            k <= m,
            m == state.winners@.len(),
            n == store@.len(),
            n == state.canidx as usize,
            forall|t: int| 0 <= t < k ==> (#[trigger] state.winners@[t]) < state.canidx,
            forall|t: int| 0 <= t < k ==> store@[(#[trigger] state.winners@[t]) as int].winner,
        decreases m - k,
    {
        let w = state.winners[k];
        if w as usize >= n {
            return false;
        }
        if !store.candidate_at(w as usize).winner {
            return false;
        }
        k = k + 1;
    }
    let mut i2: usize = 0;
    while i2 < n
        invariant
            i2 <= n,
            n == store@.len(),
            n == state.canidx as usize,
            m == state.winners@.len(),
            forall|j: int|
                0 <= j < i2 && (#[trigger] store@[j]).winner ==> state.winners@.contains(j as u32),
        decreases n - i2,
    {
        if store.candidate_at(i2).winner {
            let target = i2 as u32;
            let mut found = false;
            let mut t: usize = 0;
            while t < m
                invariant
                    t <= m,
                    m == state.winners@.len(),
                    target == i2 as u32,
                    found == exists|x: int| 0 <= x < t && state.winners@[x] == target,
                decreases m - t,
            {
                if state.winners[t] == target {
                    found = true;
                }
                t = t + 1;
            }
            if !found {
                proof {
                    assert(!state.winners@.contains(i2 as u32));
                    assert(store@[i2 as int].winner);
                }
                return false;
            }
            proof {
                assert(state.winners@.contains(i2 as u32));
            }
        }
        i2 = i2 + 1;
    }
    if m > state.winners_num as usize {
        return false;
    }
    if state.winners_num < 1 {
        return false;
    }
    if state.finished != (m == state.winners_num as usize) {
        return false;
    }
    true
}

/// No double win: in any well-formed lottery, the winners list names each
/// slot at most once, whatever sequence of draws produced it.
pub proof fn lemma_no_double_win(state: State, cs: Seq<CandidateV>)
    requires
        wf(state, cs),
    ensures
        distinct(state.winners@),
{
}

/// Exhaustion: when every registered candidate has already won, the eligible
/// pool is empty, so by `lucky_draw`'s contract the next draw reports an
/// illegal state instead of drawing or crashing.
pub proof fn lemma_exhaustion(state: State, cs: Seq<CandidateV>)
    requires
        wf(state, cs),
        forall|i: int| 0 <= i < cs.len() ==> (#[trigger] cs[i]).winner,
    ensures
        eligible_slots(cs).len() == 0,
{
    lemma_exhausted_pool_is_empty(cs);
}

/// Quota completion: in any well-formed lottery, `finished` holds exactly
/// when as many winners as the quota asks for have been drawn.
pub proof fn lemma_quota_completion(state: State, cs: Seq<CandidateV>)
    requires
        wf(state, cs),
    ensures
        state.finished <==> state.winners@.len() == state.winners_num,
{
}

} // verus!
