//! The four entry points of the state machine — instantiate, execute
//! (increment or reset), query, migrate — each working against an explicit
//! [`Store`] handle.

use vstd::prelude::*;
use vstd::string::StringSliceAdditionalSpecFns;

use crate::error::ContractError;
use crate::msg::{
    ExecuteMsg, GetCountResponse, InstantiateMsg, MessageInfo, MigrateMsg, QueryMsg, Response,
};
use crate::state::{
    incremented, initial_state, migrated, reset_state, ContractVersion, State, Store, StoreView,
};

verus! {

/// The registered name of this contract, checked by migration's identity gate.
pub const CONTRACT_NAME: &'static str = "crates.io:counter";

/// The current schema version, compared lexicographically by migration's
/// version gate.
pub const CONTRACT_VERSION: &'static str = "0.2";

/// Creates the record — zero count, the caller as owner, empty history — and
/// stamps the version marker with this contract's name and current version.
/// Always succeeds; the store's save overwrites, so a repeated instantiation
/// starts the record afresh. The legacy slot is left alone. Emits
/// `{action: "instantiate", owner: caller}`.
pub fn instantiate(
    store: &mut Store,
    info: MessageInfo,
    _msg: InstantiateMsg,
) -> (r: Result<Response, ContractError>)
    ensures
        r is Ok,
        final(store)@.state == Some(initial_state(info.sender@)),
        final(store)@.version matches Some(v) && v.contract == CONTRACT_NAME@ && v.version
            == CONTRACT_VERSION@,
        final(store)@.legacy == old(store)@.legacy,
        r matches Ok(resp) && resp.attributes@.len() == 2
            && resp.attributes@[0].key@ == "action"@
            && resp.attributes@[0].value@ == "instantiate"@
            && resp.attributes@[1].key@ == "owner"@
            && resp.attributes@[1].value@ == info.sender@,
{
    let resp = Response::new()
        .add_attribute("action", "instantiate")
        .add_attribute("owner", info.sender.as_str());
    let state = State { count: 0, owner: info.sender, incrementors: Vec::new() };
    proof {
        assert(state@.incrementors =~= Seq::<Seq<char>>::empty());
        assert(state@ =~= initial_state(state.owner@));
    }
    store.version = Some(
        ContractVersion { contract: CONTRACT_NAME.to_owned(), version: CONTRACT_VERSION.to_owned() },
    );
    store.state = Some(state);
    Ok(resp)
}

/// Dispatches an execute request to the operation its message names.
pub fn execute(store: &mut Store, info: MessageInfo, msg: ExecuteMsg) -> (r: Result<
    Response,
    ContractError,
>)
    ensures
        msg is Increment ==> increment_post(old(store)@, final(store)@, info.sender@, r),
        msg is Reset ==> reset_post(old(store)@, final(store)@, info.sender@, r),
{
    match msg {
        ExecuteMsg::Increment {} => increment(store, info),
        ExecuteMsg::Reset {} => reset(store, info),
    }
}

/// What a call of [`increment`] does: with no record instantiated it fails
/// with `NotFound` and the store keeps its value; otherwise the record
/// advances by [`incremented`] — counter up by one (wrapping), caller
/// appended to the history — the other slots keep their values, and the
/// response observes `{action: "increment"}`.
pub open spec fn increment_post(
    pre: StoreView,
    post: StoreView,
    sender: Seq<char>,
    r: Result<Response, ContractError>,
) -> bool {
    &&& pre.state is None ==> r == Err::<Response, ContractError>(ContractError::NotFound)
        && post == pre
    &&& pre.state matches Some(s) ==> {
        &&& post.state == Some(incremented(s, sender))
        &&& post.legacy == pre.legacy
        &&& post.version == pre.version
        &&& r matches Ok(resp) && resp.attributes@.len() == 1
            && resp.attributes@[0].key@ == "action"@
            && resp.attributes@[0].value@ == "increment"@
    }
}

/// Advances the counter by one and appends the caller to the incrementor
/// history. No authorization check: any caller may increment. The counter
/// wraps at the upper bound of its 32-bit signed range (this library's
/// documented overflow policy), so the operation never aborts once a record
/// exists.
pub fn increment(store: &mut Store, info: MessageInfo) -> (r: Result<Response, ContractError>)
    ensures
        increment_post(old(store)@, final(store)@, info.sender@, r),
{
    match store.state.take() {
        None => Err(ContractError::NotFound),
        Some(mut state) => {
            let ghost pre = state@;
            state.count = if state.count == i32::MAX {
                i32::MIN
            } else {
                state.count + 1
            };
            state.incrementors.push(info.sender);
            proof {
                assert(state@.incrementors =~= pre.incrementors.push(info.sender@));
                assert(state@ =~= incremented(pre, info.sender@));
            }
            store.state = Some(state);
            Ok(Response::new().add_attribute("action", "increment"))
        },
    }
}

/// What a call of [`reset`] does: `NotFound` with the store unchanged when
/// no record exists; `Unauthorized` with the store unchanged when the caller
/// is not the owner; otherwise the record becomes [`reset_state`] — zero
/// counter, empty history, same owner — the other slots keep their values,
/// and the response observes `{action: "reset"}`.
pub open spec fn reset_post(
    pre: StoreView,
    post: StoreView,
    sender: Seq<char>,
    r: Result<Response, ContractError>,
) -> bool {
    &&& pre.state is None ==> r == Err::<Response, ContractError>(ContractError::NotFound)
        && post == pre
    &&& pre.state matches Some(s) ==> {
        &&& sender != s.owner ==> r == Err::<Response, ContractError>(ContractError::Unauthorized)
            && post == pre
        &&& sender == s.owner ==> {
            &&& post.state == Some(reset_state(s))
            &&& post.legacy == pre.legacy
            &&& post.version == pre.version
            &&& r matches Ok(resp) && resp.attributes@.len() == 1
                && resp.attributes@[0].key@ == "action"@
                && resp.attributes@[0].value@ == "reset"@
        }
    }
}

/// Sets the counter back to zero and clears the incrementor history — owner
/// only. A caller other than the owner recorded at instantiation gets
/// `Unauthorized` and mutates nothing.
pub fn reset(store: &mut Store, info: MessageInfo) -> (r: Result<Response, ContractError>)
    ensures
        reset_post(old(store)@, final(store)@, info.sender@, r),
{
    match store.state.take() {
        None => Err(ContractError::NotFound),
        Some(mut state) => {
            if !(info.sender == state.owner) {
                store.state = Some(state);
                return Err(ContractError::Unauthorized);
            }
            let ghost pre = state@;
            state.count = 0;
            state.incrementors.clear();
            proof {
                assert(state@.incrementors =~= Seq::<Seq<char>>::empty());
                assert(state@ =~= reset_state(pre));
            }
            store.state = Some(state);
            Ok(Response::new().add_attribute("action", "reset"))
        },
    }
}

/// Dispatches a query request; read-only. The one query is `GetCount`,
/// answered by [`count`].
pub fn query(store: &Store, msg: QueryMsg) -> (r: Result<GetCountResponse, ContractError>)
    ensures
        msg is GetCount ==> count_post(store@, r),
{
    match msg {
        QueryMsg::GetCount {} => count(store),
    }
}

/// What a call of [`count`] returns: `NotFound` when no record exists,
/// otherwise the record's counter and incrementor history, verbatim.
pub open spec fn count_post(
    store: StoreView,
    r: Result<GetCountResponse, ContractError>,
) -> bool {
    &&& store.state is None ==> r == Err::<GetCountResponse, ContractError>(
        ContractError::NotFound,
    )
    &&& store.state matches Some(s) ==> r matches Ok(resp) && resp.count == s.count
        && resp.incrementors.deep_view() == s.incrementors
}

/// Reads the record and reports its counter and incrementor history.
pub fn count(store: &Store) -> (r: Result<GetCountResponse, ContractError>)
    ensures
        count_post(store@, r),
{
    match &store.state {
        None => Err(ContractError::NotFound),
        Some(state) => {
            let incrementors = clone_identities(&state.incrementors);
            Ok(GetCountResponse { count: state.count, incrementors })
        },
    }
}

/// Copies a list of identity tokens, value for value.
fn clone_identities(v: &Vec<String>) -> (r: Vec<String>)
    ensures
        r.deep_view() == v.deep_view(),
{
    let mut r: Vec<String> = Vec::new();
    let mut i: usize = 0;
    while i < v.len()
        invariant
            i <= v@.len(),
            r@.len() == i,
            forall|j: int| 0 <= j < i ==> r@[j]@ == v@[j]@,
        decreases v@.len() - i,
    {
        r.push(v[i].clone());
        i += 1;
    }
    proof {
        assert(r.deep_view() =~= v.deep_view());
    }
    r
}

/// Strict lexicographic order on byte sequences: the order in which the
/// version gate compares version strings.
pub open spec fn lex_lt(a: Seq<u8>, b: Seq<u8>) -> bool
    decreases a.len(),
{
    if b.len() == 0 {
        false
    } else if a.len() == 0 {
        true
    } else if a[0] < b[0] {
        true
    } else if a[0] > b[0] {
        false
    } else {
        lex_lt(a.drop_first(), b.drop_first())
    }
}

/// The strict order on version strings: plain lexicographic comparison of
/// their UTF-8 bytes (the order `str` carries), not a semantic-version
/// order. A sharp edge kept deliberately: `"0.10"` sorts below `"0.2"`.
pub open spec fn version_lt(a: Seq<char>, b: Seq<char>) -> bool {
    lex_lt(vstd::utf8::encode_utf8(a), vstd::utf8::encode_utf8(b))
}

/// No byte sequence sorts strictly below itself, so a version never admits
/// migration to itself.
pub proof fn lemma_lex_lt_irreflexive(a: Seq<u8>)
    ensures
        !lex_lt(a, a),
    decreases a.len(),
{
    if a.len() > 0 {
        lemma_lex_lt_irreflexive(a.drop_first());
    }
}

/// Skipping one position on which two sequences agree does not change how
/// they compare.
proof fn lemma_lex_lt_step(a: Seq<u8>, b: Seq<u8>, i: int)
    requires
        0 <= i < a.len(),
        i < b.len(),
        a[i] == b[i],
    ensures
        lex_lt(a.skip(i), b.skip(i)) == lex_lt(a.skip(i + 1), b.skip(i + 1)),
{
    assert(a.skip(i).drop_first() =~= a.skip(i + 1));
    assert(b.skip(i).drop_first() =~= b.skip(i + 1));
    assert(a.skip(i)[0] == a[i]);
    assert(b.skip(i)[0] == b[i]);
}

/// Decides whether `a` sorts strictly below `b` in the version order, by
/// comparing their bytes left to right.
fn version_str_lt(a: &str, b: &str) -> (r: bool)
    ensures
        r == version_lt(a@, b@),
{
    let abytes = a.as_bytes();
    let bbytes = b.as_bytes();
    let mut i: usize = 0;
    proof {
        assert(abytes@.skip(0) =~= abytes@);
        assert(bbytes@.skip(0) =~= bbytes@);
    }
    loop
        invariant
            i <= abytes@.len(),
            i <= bbytes@.len(),
            abytes@ == a.spec_bytes(),
            bbytes@ == b.spec_bytes(),
            lex_lt(abytes@, bbytes@) == lex_lt(abytes@.skip(i as int), bbytes@.skip(i as int)),
        decreases abytes@.len() - i,
    {
        proof {
            assert(abytes@.skip(i as int).len() == abytes@.len() - i);
            assert(bbytes@.skip(i as int).len() == bbytes@.len() - i);
        }
        if i == bbytes.len() {
            return false;
        }
        if i == abytes.len() {
            return true;
        }
        proof {
            assert(abytes@.skip(i as int)[0] == abytes@[i as int]);
            assert(bbytes@.skip(i as int)[0] == bbytes@[i as int]);
        }
        if abytes[i] < bbytes[i] {
            return true;
        }
        if abytes[i] > bbytes[i] {
            return false;
        }
        proof {
            lemma_lex_lt_step(abytes@, bbytes@, i as int);
        }
        i = i + 1;
    }
}

/// What a call of [`migrate`] does, gate by gate. Every failure leaves the
/// store exactly as it was; only a run that passes both gates and finds the
/// legacy record writes anything, and then it writes the migrated record and
/// the refreshed version marker together.
pub open spec fn migrate_post(
    pre: StoreView,
    post: StoreView,
    r: Result<Response, ContractError>,
) -> bool {
    &&& pre.version is None ==> r == Err::<Response, ContractError>(ContractError::NotFound)
        && post == pre
    &&& pre.version matches Some(v) ==> {
        &&& v.contract != CONTRACT_NAME@ ==> r == Err::<Response, ContractError>(
            ContractError::InvalidMigrationSource,
        ) && post == pre
        &&& v.contract == CONTRACT_NAME@ && !version_lt(v.version, CONTRACT_VERSION@) ==> r
            == Err::<Response, ContractError>(ContractError::NoDowngrade) && post == pre
        &&& v.contract == CONTRACT_NAME@ && version_lt(v.version, CONTRACT_VERSION@) ==> {
            &&& pre.legacy is None ==> r == Err::<Response, ContractError>(
                ContractError::NotFound,
            ) && post == pre
            &&& pre.legacy matches Some(o) ==> {
                &&& r matches Ok(resp) && resp.attributes@.len() == 0
                &&& post.state == Some(migrated(o))
                &&& post.legacy == pre.legacy
                &&& post.version matches Some(nv) && nv.contract == CONTRACT_NAME@
                    && nv.version == CONTRACT_VERSION@
            }
        }
    }
}

/// Transforms the legacy record into the current schema, exactly once.
///
/// Two gates guard the transformation: the version marker must name this
/// very contract (else `InvalidMigrationSource`), and the stored version
/// must sort strictly below the current one in the lexicographic order of
/// [`version_lt`] (else `NoDowngrade`). A missing marker or a missing
/// legacy record fails with `NotFound`. The operation is all-or-nothing:
/// the version marker is refreshed together with the record write, as the
/// last effect, so no failure can leave the store partly migrated. Takes no
/// payload and checks no caller identity: the privileged upgrade mechanism
/// around this core is assumed to gate who may call it.
pub fn migrate(store: &mut Store, _msg: MigrateMsg) -> (r: Result<Response, ContractError>)
    ensures
        migrate_post(old(store)@, final(store)@, r),
{
    match &store.version {
        None => {
            return Err(ContractError::NotFound);
        },
        Some(ver) => {
            if !(ver.contract == CONTRACT_NAME.to_owned()) {
                return Err(ContractError::InvalidMigrationSource);
            }
            if !version_str_lt(ver.version.as_str(), CONTRACT_VERSION) {
                return Err(ContractError::NoDowngrade);
            }
        },
    }

    migrate_state(store)?;

    store.version = Some(
        ContractVersion { contract: CONTRACT_NAME.to_owned(), version: CONTRACT_VERSION.to_owned() },
    );
    Ok(Response::default())
}

/// Reads the legacy record and writes it, mapped by [`migrated`], to the
/// current-record slot. Fails with `NotFound`, writing nothing, when no
/// legacy record exists. The legacy slot itself is read-only to this
/// library and keeps its value.
fn migrate_state(store: &mut Store) -> (r: Result<(), ContractError>)
    ensures
        old(store)@.legacy is None ==> r == Err::<(), ContractError>(ContractError::NotFound)
            && final(store)@ == old(store)@,
        old(store)@.legacy matches Some(o) ==> {
            &&& r is Ok
            &&& final(store)@.state == Some(migrated(o))
            &&& final(store)@.legacy == old(store)@.legacy
            &&& final(store)@.version == old(store)@.version
        },
{
    let new_state = match &store.legacy {
        None => {
            return Err(ContractError::NotFound);
        },
        Some(old_state) => State {
            count: old_state.count,
            owner: old_state.owner.clone(),
            incrementors: Vec::new(),
        },
    };
    proof {
        assert(new_state@.incrementors =~= Seq::<Seq<char>>::empty());
        assert(new_state@ =~= migrated(old(store)@.legacy->Some_0));
    }
    store.state = Some(new_state);
    Ok(())
}

/// Law: migration does not repeat. A successful migration stamps the marker
/// with the current version (see [`migrate_post`]), and against such a
/// marker any further migration call must return `NoDowngrade` and leave
/// the store unchanged, because the version order is irreflexive.
pub proof fn lemma_second_migration_rejected(st: StoreView)
    requires
        st.version matches Some(v) && v.contract == CONTRACT_NAME@ && v.version
            == CONTRACT_VERSION@,
    ensures
        forall|post: StoreView, r: Result<Response, ContractError>|
            #[trigger] migrate_post(st, post, r) ==> r == Err::<Response, ContractError>(
                ContractError::NoDowngrade,
            ) && post == st,
{
    lemma_lex_lt_irreflexive(vstd::utf8::encode_utf8(CONTRACT_VERSION@));
}

} // verus!

