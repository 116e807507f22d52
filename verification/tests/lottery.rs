use lucky_draw::engine::add_candidates;
use lucky_draw::engine::constructor;
use lucky_draw::engine::current_state;
use lucky_draw::engine::lucky_draw;
use lucky_draw::engine::ready;
use lucky_draw::engine::rng_gen_range;
use lucky_draw::engine::wf_check;
use lucky_draw::store::CandidateStore;
use lucky_draw::types::AddCandidatesParam;
use lucky_draw::types::Address;
use lucky_draw::types::Error;
use lucky_draw::types::InitParam;
use lucky_draw::types::State;

const OWNER: u64 = 100;
const INIT_ACTOR: u64 = 1;

fn addr(tag: u8) -> Address {
    Address::new(vec![1, tag, tag, tag])
}

fn init(quota: u32, candidates: Vec<Address>) -> (State, CandidateStore) {
    let param = InitParam {
        owner: addr(9),
        winners_num: quota,
        candidates,
    };
    constructor(INIT_ACTOR, OWNER, &param).unwrap()
}

#[test]
fn constructor_assigns_slots_in_order() {
    let (state, store) = init(2, vec![addr(10), addr(11), addr(12)]);
    assert_eq!(state.owner, OWNER);
    assert_eq!(state.winners, Vec::<u32>::new());
    assert!(!state.ready);
    assert!(!state.finished);
    assert_eq!(state.winners_num, 2);
    assert_eq!(state.canidx, 3);
    assert_eq!(store.len(), 3);
    for slot in 0..3u32 {
        let c = store.get(slot).unwrap();
        assert_eq!(c.idx, slot);
        assert!(!c.winner);
        assert_eq!(c.address, addr(10 + slot as u8));
    }
    assert!(store.get(3).is_none());
    assert!(wf_check(&state, &store));
}

#[test]
fn constructor_without_candidates() {
    let (state, store) = init(1, vec![]);
    assert_eq!(state.canidx, 0);
    assert_eq!(store.len(), 0);
    assert!(wf_check(&state, &store));
}

#[test]
fn constructor_by_non_initializer_is_forbidden() {
    let param = InitParam {
        owner: addr(9),
        winners_num: 1,
        candidates: vec![addr(10)],
    };
    assert_eq!(constructor(OWNER, OWNER, &param).unwrap_err(), Error::Forbidden);
}

#[test]
fn constructor_with_zero_quota_is_an_illegal_argument() {
    let param = InitParam {
        owner: addr(9),
        winners_num: 0,
        candidates: vec![addr(10)],
    };
    assert_eq!(
        constructor(INIT_ACTOR, OWNER, &param).unwrap_err(),
        Error::IllegalArgument
    );
}

#[test]
fn seal_by_owner_sets_ready_and_is_idempotent() {
    let (mut state, _store) = init(1, vec![addr(10)]);
    assert!(ready(&mut state, OWNER).is_ok());
    assert!(state.ready);
    assert!(ready(&mut state, OWNER).is_ok());
    assert!(state.ready);
}

#[test]
fn seal_by_non_owner_is_forbidden_and_changes_nothing() {
    let (mut state, _store) = init(1, vec![addr(10)]);
    let before = state.clone();
    assert_eq!(ready(&mut state, OWNER + 1).unwrap_err(), Error::Forbidden);
    assert_eq!(state, before);
}

#[test]
fn add_candidates_appends_at_the_next_slots() {
    let (mut state, mut store) = init(2, vec![addr(10)]);
    let param = AddCandidatesParam {
        addresses: vec![addr(11), addr(12)],
    };
    assert!(add_candidates(&mut state, &mut store, OWNER, &param).is_ok());
    assert_eq!(state.canidx, 3);
    assert_eq!(store.len(), 3);
    assert_eq!(store.get(1).unwrap().address, addr(11));
    assert_eq!(store.get(1).unwrap().idx, 1);
    assert_eq!(store.get(2).unwrap().address, addr(12));
    assert_eq!(store.get(2).unwrap().idx, 2);
    assert!(!store.get(1).unwrap().winner);
    assert!(wf_check(&state, &store));
}

#[test]
fn add_candidates_is_allowed_after_sealing() {
    let (mut state, mut store) = init(2, vec![addr(10)]);
    assert!(ready(&mut state, OWNER).is_ok());
    let param = AddCandidatesParam {
        addresses: vec![addr(11)],
    };
    assert!(add_candidates(&mut state, &mut store, OWNER, &param).is_ok());
    assert_eq!(state.canidx, 2);
}

#[test]
fn add_candidates_by_non_owner_is_forbidden_and_changes_nothing() {
    let (mut state, mut store) = init(2, vec![addr(10)]);
    let state_before = state.clone();
    let store_before = store.clone();
    let param = AddCandidatesParam {
        addresses: vec![addr(11)],
    };
    assert_eq!(
        add_candidates(&mut state, &mut store, OWNER + 1, &param).unwrap_err(),
        Error::Forbidden
    );
    assert_eq!(state, state_before);
    assert_eq!(store, store_before);
}

#[test]
fn draw_before_ready_is_an_illegal_state() {
    let (mut state, mut store) = init(1, vec![addr(10)]);
    let rand = vec![0, 0, 0, 0];
    assert_eq!(
        lucky_draw(&mut state, &mut store, OWNER, &rand).unwrap_err(),
        Error::IllegalState
    );
}

#[test]
fn draw_by_non_owner_is_forbidden_and_changes_nothing() {
    let (mut state, mut store) = init(1, vec![addr(10)]);
    assert!(ready(&mut state, OWNER).is_ok());
    let state_before = state.clone();
    let store_before = store.clone();
    let rand = vec![0, 0, 0, 0];
    assert_eq!(
        lucky_draw(&mut state, &mut store, OWNER + 1, &rand).unwrap_err(),
        Error::Forbidden
    );
    assert_eq!(state, state_before);
    assert_eq!(store, store_before);
}

#[test]
fn quota_of_two_is_reached_after_two_draws() {
    // Owner O, quota 2, candidates in slots 0, 1 and 2: two draws succeed and
    // mark two distinct slots, `finished` turns true on the second, and a
    // third draw fails because the quota is reached.
    let (mut state, mut store) = init(2, vec![addr(10), addr(11), addr(12)]);
    assert!(ready(&mut state, OWNER).is_ok());

    let first = lucky_draw(&mut state, &mut store, OWNER, &vec![0, 0, 0, 0]).unwrap();
    assert_eq!(state.winners.len(), 1);
    assert!(!state.finished);

    let second = lucky_draw(&mut state, &mut store, OWNER, &vec![0, 0, 0, 0]).unwrap();
    assert_eq!(state.winners.len(), 2);
    assert!(state.finished);

    let w0 = state.winners[0];
    let w1 = state.winners[1];
    assert_ne!(w0, w1);
    assert!(w0 < 3 && w1 < 3);
    assert!(store.get(w0).unwrap().winner);
    assert!(store.get(w1).unwrap().winner);
    assert_eq!(first, store.get(w0).unwrap().address);
    assert_eq!(second, store.get(w1).unwrap().address);
    assert!(wf_check(&state, &store));

    assert_eq!(
        lucky_draw(&mut state, &mut store, OWNER, &vec![0, 0, 0, 0]).unwrap_err(),
        Error::IllegalState
    );
}

#[test]
fn sole_candidate_wins_whatever_the_randomness() {
    // Quota 1 and no initial candidates; one candidate is registered later,
    // so the pool has size one and any beacon value reduces to index 0.
    let (mut state, mut store) = init(1, vec![]);
    let param = AddCandidatesParam {
        addresses: vec![addr(42)],
    };
    assert!(add_candidates(&mut state, &mut store, OWNER, &param).is_ok());
    assert!(ready(&mut state, OWNER).is_ok());
    let winner = lucky_draw(&mut state, &mut store, OWNER, &vec![137, 5, 211, 9]).unwrap();
    assert_eq!(winner, addr(42));
    assert_eq!(state.winners, vec![0]);
    assert!(state.finished);
}

#[test]
fn draws_fail_once_every_candidate_has_won() {
    // Quota 2 but a single candidate: after it wins, the pool is empty while
    // the quota is still unmet, and the next draw reports an illegal state.
    let (mut state, mut store) = init(2, vec![addr(10)]);
    assert!(ready(&mut state, OWNER).is_ok());
    assert!(lucky_draw(&mut state, &mut store, OWNER, &vec![0, 0, 0, 7]).is_ok());
    assert!(!state.finished);
    assert_eq!(
        lucky_draw(&mut state, &mut store, OWNER, &vec![0, 0, 0, 7]).unwrap_err(),
        Error::IllegalState
    );
    assert!(wf_check(&state, &store));
}

#[test]
fn flags_and_counters_move_one_way_only() {
    // ready and finished only go false to true, canidx only grows, winners
    // only grows by appending, and a winner mark never reverts.
    let (mut state, mut store) = init(2, vec![addr(10), addr(11)]);
    assert!(!state.ready && !state.finished);

    let param = AddCandidatesParam {
        addresses: vec![addr(12)],
    };
    assert!(add_candidates(&mut state, &mut store, OWNER, &param).is_ok());
    assert_eq!(state.canidx, 3);

    assert!(ready(&mut state, OWNER).is_ok());
    assert!(state.ready);

    let first = lucky_draw(&mut state, &mut store, OWNER, &vec![0, 0, 0, 1]).unwrap();
    assert!(state.ready);
    let winners_after_first = state.winners.clone();
    assert_eq!(first, store.get(winners_after_first[0]).unwrap().address);
    let marked: Vec<u32> = (0..3u32)
        .filter(|s| store.get(*s).unwrap().winner)
        .collect();
    assert_eq!(marked, winners_after_first);

    let param = AddCandidatesParam {
        addresses: vec![addr(13)],
    };
    assert!(add_candidates(&mut state, &mut store, OWNER, &param).is_ok());
    assert_eq!(state.canidx, 4);
    assert_eq!(state.winners, winners_after_first);

    assert!(lucky_draw(&mut state, &mut store, OWNER, &vec![0, 0, 0, 1]).is_ok());
    assert!(state.ready && state.finished);
    assert_eq!(state.winners.len(), 2);
    assert_eq!(state.winners[0], winners_after_first[0]);
    // the first winner is still marked after later operations
    assert!(store.get(winners_after_first[0]).unwrap().winner);
    assert!(wf_check(&state, &store));
}

#[test]
fn eligible_pool_shrinks_as_winners_are_marked() {
    let mut store = CandidateStore::new();
    store.add(addr(10));
    store.add(addr(11));
    store.add(addr(12));
    assert_eq!(store.eligible(), vec![0, 1, 2]);
    store.set_winner(1);
    assert_eq!(store.eligible(), vec![0, 2]);
    assert_eq!(store.get(1).unwrap().address, addr(11));
    store.set_winner(0);
    store.set_winner(2);
    assert_eq!(store.eligible(), Vec::<u32>::new());
}

#[test]
fn rng_gen_range_reduces_the_leading_four_bytes() {
    // big-endian read of the first four bytes, then modulo the range width
    assert_eq!(rng_gen_range(0, 100, &vec![0, 0, 1, 2]), 58); // 258 % 100
    assert_eq!(rng_gen_range(0, 3, &vec![0, 0, 0, 5]), 2); // 5 % 3
    assert_eq!(rng_gen_range(0, 7, &vec![1, 0, 0, 0, 99, 99]), 16777216 % 7);
    assert_eq!(rng_gen_range(5, 6, &vec![255, 255, 255, 255]), 5);
    assert_eq!(rng_gen_range(10, 20, &vec![0, 0, 0, 25]), 15);
}

#[test]
fn status_reports_the_state_without_touching_it() {
    let (mut state, mut store) = init(1, vec![addr(10)]);
    assert!(ready(&mut state, OWNER).is_ok());
    assert!(lucky_draw(&mut state, &mut store, OWNER, &vec![0, 0, 0, 0]).is_ok());
    let before = state.clone();
    // no access check: any caller may ask, so the call takes no caller at all
    let status = current_state(&state);
    assert_eq!(status.owner, OWNER);
    assert!(status.ready);
    assert!(status.finished);
    assert_eq!(status.winners, vec![0]);
    assert_eq!(state, before);
}

#[test]
fn wf_check_rejects_corrupted_state() {
    let (state, store) = init(2, vec![addr(10)]);
    assert!(wf_check(&state, &store));

    // finished may not hold before the quota is reached
    let mut bad = state.clone();
    bad.finished = true;
    assert!(!wf_check(&bad, &store));

    // the winners list may not name an unregistered slot
    let mut bad = state.clone();
    bad.winners = vec![5];
    assert!(!wf_check(&bad, &store));

    // the slot counter must match the snapshot
    let mut bad = state.clone();
    bad.canidx = 7;
    assert!(!wf_check(&bad, &store));

    // a zero quota is never well-formed
    let mut bad = state.clone();
    bad.winners_num = 0;
    assert!(!wf_check(&bad, &store));

    // a winners entry must be marked in the snapshot, and listed slots must
    // be pairwise different
    let mut bad = state.clone();
    bad.winners = vec![0];
    bad.finished = false;
    assert!(!wf_check(&bad, &store));
}
