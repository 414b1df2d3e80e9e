//! The persisted record, its legacy predecessor, the version marker, and the
//! in-memory store handle that every operation works against.

use vstd::prelude::*;

verus! {

/// The current record schema: a counter, the owner authorized to reset it,
/// and the ordered history of callers that incremented it since the last
/// reset (or since migration).
pub struct State {
    pub count: i32,
    pub owner: String,
    pub incrementors: Vec<String>,
}

/// The mathematical model of a record: the counter as an unbounded integer,
/// identities as character sequences.
#[verifier::ext_equal]
pub ghost struct StateView {
    pub count: int,
    pub owner: Seq<char>,
    pub incrementors: Seq<Seq<char>>,
}

impl View for State {
    type V = StateView;

    open spec fn view(&self) -> StateView {
        StateView {
            count: self.count as int,
            owner: self.owner@,
            incrementors: self.incrementors.deep_view(),
        }
    }
}

/// The legacy record schema: the current schema without the incrementor
/// history. Written once at genesis, read only by migration.
pub struct Oldstate {
    pub count: i32,
    pub owner: String,
}

#[verifier::ext_equal]
pub ghost struct OldstateView {
    pub count: int,
    pub owner: Seq<char>,
}

impl View for Oldstate {
    type V = OldstateView;

    open spec fn view(&self) -> OldstateView {
        OldstateView { count: self.count as int, owner: self.owner@ }
    }
}

/// The version marker stored alongside the record: the contract's registered
/// name and its schema version string.
pub struct ContractVersion {
    pub contract: String,
    pub version: String,
}

#[verifier::ext_equal]
pub ghost struct ContractVersionView {
    pub contract: Seq<char>,
    pub version: Seq<char>,
}

impl View for ContractVersion {
    type V = ContractVersionView;

    open spec fn view(&self) -> ContractVersionView {
        ContractVersionView { contract: self.contract@, version: self.version@ }
    }
}

/// An in-memory handle to the three slots of the persistence engine this
/// library uses: the current record, the write-once legacy record, and the
/// version marker. Operations take the handle explicitly; the surrounding
/// runtime loads the slots before a call and persists them afterwards.
pub struct Store {
    pub state: Option<State>,
    pub legacy: Option<Oldstate>,
    pub version: Option<ContractVersion>,
}

#[verifier::ext_equal]
pub ghost struct StoreView {
    pub state: Option<StateView>,
    pub legacy: Option<OldstateView>,
    pub version: Option<ContractVersionView>,
}

impl View for Store {
    type V = StoreView;

    open spec fn view(&self) -> StoreView {
        StoreView {
            state: match self.state {
                Some(s) => Some(s@),
                None => None,
            },
            legacy: match self.legacy {
                Some(o) => Some(o@),
                None => None,
            },
            version: match self.version {
                Some(v) => Some(v@),
                None => None,
            },
        }
    }
}

impl Store {
    /// A store with every slot empty, as before instantiation.
    pub fn new() -> (s: Store)
        ensures
            s@.state is None,
            s@.legacy is None,
            s@.version is None,
    {
        Store { state: None, legacy: None, version: None }
    }
}

/// The record created at instantiation: zero count, empty history, the
/// instantiating caller as owner.
pub open spec fn initial_state(owner: Seq<char>) -> StateView {
    StateView { count: 0, owner, incrementors: Seq::empty() }
}

/// The counter's successor value. The counter wraps around at the upper
/// bound of its 32-bit signed range; this library fixes wrapping as its
/// overflow policy, so increment is total and deterministic.
pub open spec fn wrapped_inc(count: int) -> int {
    if count == i32::MAX { i32::MIN as int } else { count + 1 }
}

/// One successful increment: the counter advances (wrapping) and the caller
/// is appended to the history. The owner never changes.
pub open spec fn incremented(s: StateView, caller: Seq<char>) -> StateView {
    StateView {
        count: wrapped_inc(s.count),
        owner: s.owner,
        incrementors: s.incrementors.push(caller),
    }
}

/// A successful reset: zero count, empty history, same owner.
pub open spec fn reset_state(s: StateView) -> StateView {
    StateView { count: 0, owner: s.owner, incrementors: Seq::empty() }
}

/// Migration of a legacy record into the current schema: count and owner are
/// copied unchanged, the incrementor history starts empty.
pub open spec fn migrated(o: OldstateView) -> StateView {
    StateView { count: o.count, owner: o.owner, incrementors: Seq::empty() }
}

/// The state reached from `s` by the increments of `callers`, in order.
pub open spec fn applied_increments(s: StateView, callers: Seq<Seq<char>>) -> StateView
    decreases callers.len(),
{
    if callers.len() == 0 {
        s
    } else {
        incremented(applied_increments(s, callers.drop_last()), callers.last())
    }
}

/// Law: starting from a freshly instantiated record, any sequence of
/// increments by callers `c1..cn` leaves `count == n` and the history equal
/// to `[c1..cn]` in order, with the owner untouched — as long as `n` stays
/// within the counter's 32-bit signed range, below which it cannot wrap.
pub proof fn lemma_increment_sequence(owner: Seq<char>, callers: Seq<Seq<char>>)
    requires
        callers.len() <= i32::MAX,
    ensures
        applied_increments(initial_state(owner), callers).count == callers.len(),
        applied_increments(initial_state(owner), callers).incrementors == callers,
        applied_increments(initial_state(owner), callers).owner == owner,
    decreases callers.len(),
{
    if callers.len() == 0 {
        assert(applied_increments(initial_state(owner), callers).incrementors =~= callers);
    } else {
        lemma_increment_sequence(owner, callers.drop_last());
        assert(callers.drop_last().push(callers.last()) =~= callers);
    }
}

} // verus!
