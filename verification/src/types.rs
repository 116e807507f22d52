//! Data model of the lottery: participants, the aggregate state, the wire
//! parameter shapes, the status snapshot, and the error taxonomy.

use vstd::prelude::*;

verus! {

/// Canonical identity of an actor in the host environment. All access
/// control compares identities of this type.
pub type ActorID = u64;

/// The bootstrap identity that alone may run the constructor.
pub const INIT_ACTOR_ADDR: ActorID = 1;

/// An external participant address, kept as the raw bytes the host handed
/// over. The lottery never looks inside; it stores the address at
/// registration and reports it back when its owner wins.
#[derive(Debug, PartialEq, Eq)]
pub struct Address {
    pub bytes: Vec<u8>,
}

impl View for Address {
    type V = Seq<u8>;

    open spec fn view(&self) -> Seq<u8> {
        self.bytes@
    }
}

impl Clone for Address {
    fn clone(&self) -> (r: Self)
        ensures
            r@ == self@,
    {
        Address { bytes: clone_vec(&self.bytes) }
    }
}

impl Address {
    pub fn new(bytes: Vec<u8>) -> (a: Address)
        ensures
            a@ == bytes@,
    {
        Address { bytes }
    }
}

/// One registered participant: the address it registered under, whether it
/// has already won, and the slot it was assigned at registration.
#[derive(Debug, PartialEq, Eq)]
pub struct Candidate {
    pub address: Address,
    pub winner: bool,
    pub idx: u32,
}

/// Mathematical image of a `Candidate`.
pub ghost struct CandidateV {
    pub address: Seq<u8>,
    pub winner: bool,
    pub idx: u32,
}

impl View for Candidate {
    type V = CandidateV;

    open spec fn view(&self) -> CandidateV {
        CandidateV { address: self.address@, winner: self.winner, idx: self.idx }
    }
}

impl Clone for Candidate {
    fn clone(&self) -> (r: Self)
        ensures
            r@ == self@,
    {
        Candidate { address: self.address.clone(), winner: self.winner, idx: self.idx }
    }
}

/// The aggregate root of one lottery instance.
///
/// The content reference that binds this state to its current candidate
/// snapshot lives with the host-integration layer, since its value is a
/// digest the backing blob store computes; the core works on the snapshot's
/// contents, a `CandidateStore`, passed alongside the state.
#[derive(Debug, PartialEq, Eq)]
pub struct State {
    /// Identity allowed to register candidates, seal registration and draw.
    pub owner: ActorID,
    /// Slots that have won so far, in draw order; append-only.
    pub winners: Vec<u32>,
    /// False while registration is open, true once sealed; never reverts.
    pub ready: bool,
    /// True once the quota of winners has been drawn; never reverts.
    pub finished: bool,
    /// Fixed at construction: how many winners will ever be drawn.
    pub winners_num: u32,
    /// The next slot to assign; increases by one per registered candidate.
    pub canidx: u32,
}

impl Clone for State {
    fn clone(&self) -> (r: Self)
        ensures
            r.owner == self.owner,
            r.winners@ == self.winners@,
            r.ready == self.ready,
            r.finished == self.finished,
            r.winners_num == self.winners_num,
            r.canidx == self.canidx,
    {
        State {
            owner: self.owner,
            winners: clone_vec(&self.winners),
            ready: self.ready,
            finished: self.finished,
            winners_num: self.winners_num,
            canidx: self.canidx,
        }
    }
}

/// Parameters of a registration call: the addresses to add, in order.
#[derive(Debug, PartialEq, Eq)]
pub struct AddCandidatesParam {
    pub addresses: Vec<Address>,
}

/// Parameters of the constructor: the owner's address, the winner quota,
/// and the initial candidates.
#[derive(Debug, PartialEq, Eq)]
pub struct InitParam {
    pub owner: Address,
    pub winners_num: u32,
    pub candidates: Vec<Address>,
}

/// Status snapshot reported without any access check: who owns the lottery,
/// where it is in its lifecycle, and the winners drawn so far.
#[derive(Debug, PartialEq, Eq)]
pub struct Status {
    pub owner: ActorID,
    pub ready: bool,
    pub finished: bool,
    pub winners: Vec<u32>,
}

/// Why an operation was refused. Every kind aborts the operation as a whole:
/// a caller sees either a fully applied operation or an unchanged state.
#[derive(Clone, Copy, Debug, PartialEq, Eq)]
pub enum Error {
    /// The caller failed an access check.
    Forbidden,
    /// An input was malformed, or an address did not resolve.
    IllegalArgument,
    /// The operation arrived out of lifecycle order, no eligible candidate
    /// was left to draw, or the backing store failed.
    IllegalState,
    /// Encoding or decoding of persisted state or parameters failed.
    Serialization,
}

/// Copies a vector of plain values element by element.
pub(crate) fn clone_vec<T: Copy>(v: &Vec<T>) -> (r: Vec<T>)
    ensures
        r@ == v@,
{
    let mut r: Vec<T> = Vec::new();
    let mut i: usize = 0;
    while i < v.len()
        invariant
            i <= v.len(),
            r@ == v@.take(i as int),
        decreases v.len() - i,
    {
        proof {
            assert(v@.take(i as int + 1) =~= v@.take(i as int).push(v@[i as int]));
        }
        r.push(v[i]);
        i = i + 1;
    }
    proof {
        assert(v@.take(v@.len() as int) =~= v@);
    }
    r
}

} // verus!
