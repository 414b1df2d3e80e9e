use counter::contract::{
    count, execute, increment, instantiate, migrate, query, reset, CONTRACT_NAME,
    CONTRACT_VERSION,
};
use counter::error::ContractError;
use counter::msg::{ExecuteMsg, InstantiateMsg, MessageInfo, MigrateMsg, QueryMsg};
use counter::state::{ContractVersion, Oldstate, State, Store};

fn info(sender: &str) -> MessageInfo {
    MessageInfo { sender: sender.to_string() }
}

fn instantiated(owner: &str) -> Store {
    let mut store = Store::new();
    instantiate(&mut store, info(owner), InstantiateMsg {}).unwrap();
    store
}

fn migration_store(contract: &str, version: &str, legacy: Option<Oldstate>) -> Store {
    let mut store = Store::new();
    store.version = Some(ContractVersion {
        contract: contract.to_string(),
        version: version.to_string(),
    });
    store.legacy = legacy;
    store
}

fn legacy_record(count: i32, owner: &str) -> Oldstate {
    Oldstate { count, owner: owner.to_string() }
}

#[test]
fn query_before_instantiate_is_not_found() {
    let store = Store::new();
    let r = query(&store, QueryMsg::GetCount {});
    assert!(matches!(r, Err(ContractError::NotFound)));
}

#[test]
fn query_after_instantiate_reports_zero_and_empty_history() {
    let store = instantiated("alice");
    let resp = query(&store, QueryMsg::GetCount {}).unwrap();
    assert_eq!(resp.count, 0);
    assert_eq!(resp.incrementors, Vec::<String>::new());
}

#[test]
fn instantiate_records_owner_version_and_observations() {
    let mut store = Store::new();
    let resp = instantiate(&mut store, info("alice"), InstantiateMsg {}).unwrap();
    let state = store.state.as_ref().unwrap();
    assert_eq!(state.count, 0);
    assert_eq!(state.owner, "alice");
    assert!(state.incrementors.is_empty());
    let version = store.version.as_ref().unwrap();
    assert_eq!(version.contract, CONTRACT_NAME);
    assert_eq!(version.version, CONTRACT_VERSION);
    assert_eq!(resp.attributes.len(), 2);
    assert_eq!(resp.attributes[0].key, "action");
    assert_eq!(resp.attributes[0].value, "instantiate");
    assert_eq!(resp.attributes[1].key, "owner");
    assert_eq!(resp.attributes[1].value, "alice");
}

#[test]
fn instantiate_again_starts_the_record_afresh() {
    // The store's save overwrites, so a repeated instantiation replaces the
    // record: new owner, zero count, empty history.
    let mut store = instantiated("alice");
    increment(&mut store, info("b")).unwrap();
    instantiate(&mut store, info("carol"), InstantiateMsg {}).unwrap();
    let state = store.state.as_ref().unwrap();
    assert_eq!(state.count, 0);
    assert_eq!(state.owner, "carol");
    assert!(state.incrementors.is_empty());
}

#[test]
fn increment_before_instantiate_is_not_found() {
    let mut store = Store::new();
    let r = increment(&mut store, info("a"));
    assert!(matches!(r, Err(ContractError::NotFound)));
    assert!(store.state.is_none());
}

#[test]
fn increments_count_and_record_callers_in_order() {
    let mut store = instantiated("alice");
    for caller in ["a", "b", "a"] {
        let resp = increment(&mut store, info(caller)).unwrap();
        assert_eq!(resp.attributes.len(), 1);
        assert_eq!(resp.attributes[0].key, "action");
        assert_eq!(resp.attributes[0].value, "increment");
    }
    let resp = query(&store, QueryMsg::GetCount {}).unwrap();
    assert_eq!(resp.count, 3);
    assert_eq!(resp.incrementors, vec!["a", "b", "a"]);
}

#[test]
fn counter_wraps_at_the_upper_bound() {
    let mut store = instantiated("alice");
    store.state = Some(State {
        count: i32::MAX,
        owner: "alice".to_string(),
        incrementors: Vec::new(),
    });
    increment(&mut store, info("a")).unwrap();
    assert_eq!(store.state.as_ref().unwrap().count, i32::MIN);
}

#[test]
fn reset_before_instantiate_is_not_found() {
    let mut store = Store::new();
    let r = reset(&mut store, info("alice"));
    assert!(matches!(r, Err(ContractError::NotFound)));
}

#[test]
fn reset_by_owner_clears_count_and_history() {
    let mut store = instantiated("alice");
    increment(&mut store, info("b")).unwrap();
    increment(&mut store, info("c")).unwrap();
    let resp = reset(&mut store, info("alice")).unwrap();
    assert_eq!(resp.attributes.len(), 1);
    assert_eq!(resp.attributes[0].key, "action");
    assert_eq!(resp.attributes[0].value, "reset");
    let resp = query(&store, QueryMsg::GetCount {}).unwrap();
    assert_eq!(resp.count, 0);
    assert_eq!(resp.incrementors, Vec::<String>::new());
}

#[test]
fn reset_by_non_owner_is_unauthorized_and_changes_nothing() {
    let mut store = instantiated("alice");
    increment(&mut store, info("b")).unwrap();
    let r = reset(&mut store, info("mallory"));
    assert!(matches!(r, Err(ContractError::Unauthorized)));
    let resp = query(&store, QueryMsg::GetCount {}).unwrap();
    assert_eq!(resp.count, 1);
    assert_eq!(resp.incrementors, vec!["b"]);
    assert_eq!(store.state.as_ref().unwrap().owner, "alice");
}

#[test]
fn execute_dispatches_increment_and_reset() {
    let mut store = instantiated("alice");
    execute(&mut store, info("b"), ExecuteMsg::Increment {}).unwrap();
    assert_eq!(store.state.as_ref().unwrap().count, 1);
    execute(&mut store, info("alice"), ExecuteMsg::Reset {}).unwrap();
    assert_eq!(store.state.as_ref().unwrap().count, 0);
    let r = execute(&mut store, info("mallory"), ExecuteMsg::Reset {});
    assert!(matches!(r, Err(ContractError::Unauthorized)));
}

#[test]
fn count_matches_query() {
    let mut store = instantiated("alice");
    increment(&mut store, info("b")).unwrap();
    let resp = count(&store).unwrap();
    assert_eq!(resp.count, 1);
    assert_eq!(resp.incrementors, vec!["b"]);
}

#[test]
fn migration_from_an_older_version_copies_the_legacy_record() {
    let mut store =
        migration_store(CONTRACT_NAME, "0.1", Some(legacy_record(5, "alice")));
    let resp = migrate(&mut store, MigrateMsg {}).unwrap();
    assert!(resp.attributes.is_empty());
    let state = store.state.as_ref().unwrap();
    assert_eq!(state.count, 5);
    assert_eq!(state.owner, "alice");
    assert!(state.incrementors.is_empty());
    let version = store.version.as_ref().unwrap();
    assert_eq!(version.contract, CONTRACT_NAME);
    assert_eq!(version.version, CONTRACT_VERSION);
}

#[test]
fn second_migration_is_a_no_downgrade() {
    let mut store =
        migration_store(CONTRACT_NAME, "0.1", Some(legacy_record(5, "alice")));
    migrate(&mut store, MigrateMsg {}).unwrap();
    let r = migrate(&mut store, MigrateMsg {});
    assert!(matches!(r, Err(ContractError::NoDowngrade)));
    assert_eq!(store.version.as_ref().unwrap().version, CONTRACT_VERSION);
}

#[test]
fn migration_from_the_current_version_is_a_no_downgrade() {
    let mut store =
        migration_store(CONTRACT_NAME, CONTRACT_VERSION, Some(legacy_record(5, "alice")));
    let r = migrate(&mut store, MigrateMsg {});
    assert!(matches!(r, Err(ContractError::NoDowngrade)));
    assert!(store.state.is_none());
}

#[test]
fn migration_from_a_newer_version_is_a_no_downgrade() {
    let mut store = migration_store(CONTRACT_NAME, "0.3", Some(legacy_record(5, "alice")));
    let r = migrate(&mut store, MigrateMsg {});
    assert!(matches!(r, Err(ContractError::NoDowngrade)));
}

#[test]
fn version_comparison_is_lexicographic_not_numeric() {
    // "0.10" sorts below "0.2" byte by byte, so migration from "0.10" is
    // accepted although it is numerically the newer version.
    let mut store = migration_store(CONTRACT_NAME, "0.10", Some(legacy_record(7, "bob")));
    migrate(&mut store, MigrateMsg {}).unwrap();
    assert_eq!(store.state.as_ref().unwrap().count, 7);
}

#[test]
fn migration_with_a_foreign_name_is_rejected_and_changes_nothing() {
    let mut store = instantiated("alice");
    increment(&mut store, info("b")).unwrap();
    store.version = Some(ContractVersion {
        contract: "crates.io:somethingelse".to_string(),
        version: "0.1".to_string(),
    });
    store.legacy = Some(legacy_record(5, "alice"));
    let r = migrate(&mut store, MigrateMsg {});
    assert!(matches!(r, Err(ContractError::InvalidMigrationSource)));
    let resp = query(&store, QueryMsg::GetCount {}).unwrap();
    assert_eq!(resp.count, 1);
    assert_eq!(resp.incrementors, vec!["b"]);
    assert_eq!(store.version.as_ref().unwrap().version, "0.1");
}

#[test]
fn migration_without_a_version_marker_is_not_found() {
    let mut store = Store::new();
    store.legacy = Some(legacy_record(5, "alice"));
    let r = migrate(&mut store, MigrateMsg {});
    assert!(matches!(r, Err(ContractError::NotFound)));
}

#[test]
fn migration_without_a_legacy_record_writes_nothing() {
    let mut store = migration_store(CONTRACT_NAME, "0.1", None);
    let r = migrate(&mut store, MigrateMsg {});
    assert!(matches!(r, Err(ContractError::NotFound)));
    assert!(store.state.is_none());
    // The version marker is untouched: the bump is the last effect of a
    // successful migration, never of a failed one.
    assert_eq!(store.version.as_ref().unwrap().version, "0.1");
}

#[test]
fn round_trip_instantiate_increment_query_reset_query() {
    let mut store = instantiated("alice");
    for caller in ["a", "b", "a"] {
        increment(&mut store, info(caller)).unwrap();
    }
    let resp = query(&store, QueryMsg::GetCount {}).unwrap();
    assert_eq!(resp.count, 3);
    assert_eq!(resp.incrementors, vec!["a", "b", "a"]);
    reset(&mut store, info("alice")).unwrap();
    let resp = query(&store, QueryMsg::GetCount {}).unwrap();
    assert_eq!(resp.count, 0);
    assert_eq!(resp.incrementors, Vec::<String>::new());
}

#[test]
fn error_messages_name_the_failure() {
    assert_eq!(
        ContractError::InvalidMigrationSource.message(),
        "can only upgrade from same contract type"
    );
    assert_eq!(
        ContractError::NoDowngrade.message(),
        "cannot upgrade from a newer or equal contract version"
    );
    assert_eq!(ContractError::NotFound.message(), "not found");
    assert_eq!(ContractError::Unauthorized.message(), "unauthorized");
}
