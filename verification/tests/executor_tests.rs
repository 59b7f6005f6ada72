use agent_actions::executor::{
    execute, execute_with_fault, plan_swap, CredRecord, CredStore, ExecError,
};
use agent_actions::protocol::Action;

fn rec(user_id: i32, username: &str, password_hash: &str) -> CredRecord {
    CredRecord {
        user_id,
        username: username.to_string(),
        password_hash: password_hash.to_string(),
    }
}

fn store_with(records: Vec<CredRecord>) -> CredStore {
    let mut store = CredStore::new();
    for r in records {
        store.insert(r).unwrap();
    }
    store
}

fn transfer(old_username: &str, new_username: &str) -> Action {
    Action::TransferPlus {
        old_username: old_username.to_string(),
        new_username: new_username.to_string(),
    }
}

fn assert_row(store: &CredStore, username: &str, user_id: i32, password_hash: &str) {
    let row = store.lookup(username).unwrap();
    assert_eq!(row.user_id, user_id);
    assert_eq!(row.username, username);
    assert_eq!(row.password_hash, password_hash);
}

#[test]
fn swap_exchanges_the_two_bindings() {
    let mut store = store_with(vec![rec(1, "alice", "h1"), rec(2, "bob", "h2")]);
    execute(&transfer("alice", "bob"), &mut store).unwrap();
    assert_eq!(store.len(), 2);
    assert_row(&store, "alice", 2, "h2");
    assert_row(&store, "bob", 1, "h1");
}

#[test]
fn swap_leaves_other_rows_alone() {
    let mut store = store_with(vec![
        rec(1, "alice", "h1"),
        rec(2, "bob", "h2"),
        rec(3, "carol", "h3"),
    ]);
    execute(&transfer("alice", "carol"), &mut store).unwrap();
    assert_eq!(store.len(), 3);
    assert_row(&store, "alice", 3, "h3");
    assert_row(&store, "bob", 2, "h2");
    assert_row(&store, "carol", 1, "h1");
}

#[test]
fn missing_old_username_fails_and_changes_nothing() {
    let mut store = store_with(vec![rec(1, "alice", "h1"), rec(2, "bob", "h2")]);
    let err = execute(&transfer("carol", "bob"), &mut store).unwrap_err();
    match err {
        ExecError::NotFound(u) => assert_eq!(u, "carol"),
        other => panic!("expected NotFound, got {:?}", other),
    }
    assert_eq!(store.len(), 2);
    assert_row(&store, "alice", 1, "h1");
    assert_row(&store, "bob", 2, "h2");
}

#[test]
fn missing_new_username_fails_and_changes_nothing() {
    let mut store = store_with(vec![rec(1, "alice", "h1"), rec(2, "bob", "h2")]);
    let err = execute(&transfer("alice", "carol"), &mut store).unwrap_err();
    match err {
        ExecError::NotFound(u) => assert_eq!(u, "carol"),
        other => panic!("expected NotFound, got {:?}", other),
    }
    assert_eq!(store.len(), 2);
    assert_row(&store, "alice", 1, "h1");
    assert_row(&store, "bob", 2, "h2");
}

#[test]
fn forced_write_failure_rolls_back() {
    let mut store = store_with(vec![rec(1, "alice", "h1"), rec(2, "bob", "h2")]);
    let err = execute_with_fault(&transfer("alice", "bob"), &mut store, true).unwrap_err();
    assert!(matches!(err, ExecError::Storage(_)));
    assert_eq!(store.len(), 2);
    assert_row(&store, "alice", 1, "h1");
    assert_row(&store, "bob", 2, "h2");
}

#[test]
fn swap_with_itself_fails_and_changes_nothing() {
    let mut store = store_with(vec![rec(1, "alice", "h1"), rec(2, "bob", "h2")]);
    let err = execute(&transfer("alice", "alice"), &mut store).unwrap_err();
    assert!(matches!(err, ExecError::Storage(_)));
    assert_eq!(store.len(), 2);
    assert_row(&store, "alice", 1, "h1");
    assert_row(&store, "bob", 2, "h2");
}

#[test]
fn null_and_abort_do_nothing() {
    let mut store = store_with(vec![rec(1, "alice", "h1")]);
    execute(&Action::Null, &mut store).unwrap();
    execute(&Action::Abort, &mut store).unwrap();
    assert_eq!(store.len(), 1);
    assert_row(&store, "alice", 1, "h1");
}

#[test]
fn repeating_a_swap_swaps_back() {
    let mut store = store_with(vec![rec(1, "alice", "h1"), rec(2, "bob", "h2")]);
    execute(&transfer("alice", "bob"), &mut store).unwrap();
    execute(&transfer("alice", "bob"), &mut store).unwrap();
    assert_row(&store, "alice", 1, "h1");
    assert_row(&store, "bob", 2, "h2");
}

#[test]
fn duplicate_insert_is_refused() {
    let mut store = store_with(vec![rec(1, "alice", "h1")]);
    let err = store.insert(rec(3, "alice", "h3")).unwrap_err();
    assert!(matches!(err, ExecError::Storage(_)));
    assert_eq!(store.len(), 1);
    assert_row(&store, "alice", 1, "h1");
}

#[test]
fn lookup_misses_absent_username() {
    let store = store_with(vec![rec(1, "alice", "h1")]);
    assert!(store.lookup("bob").is_none());
}

#[test]
fn disjoint_swaps_commute() {
    let rows = vec![
        rec(1, "alice", "h1"),
        rec(2, "bob", "h2"),
        rec(3, "carol", "h3"),
        rec(4, "dave", "h4"),
    ];
    let mut first = store_with(rows.clone());
    execute(&transfer("alice", "bob"), &mut first).unwrap();
    execute(&transfer("carol", "dave"), &mut first).unwrap();
    let mut second = store_with(rows);
    execute(&transfer("carol", "dave"), &mut second).unwrap();
    execute(&transfer("alice", "bob"), &mut second).unwrap();
    for name in ["alice", "bob", "carol", "dave"] {
        let a = first.lookup(name).unwrap();
        let b = second.lookup(name).unwrap();
        assert_eq!(a.user_id, b.user_id);
        assert_eq!(a.password_hash, b.password_hash);
    }
    assert_row(&first, "alice", 2, "h2");
    assert_row(&first, "bob", 1, "h1");
    assert_row(&first, "carol", 4, "h4");
    assert_row(&first, "dave", 3, "h3");
}

#[test]
fn overlapping_swaps_serialise() {
    let mut store = store_with(vec![
        rec(1, "alice", "h1"),
        rec(2, "bob", "h2"),
        rec(3, "carol", "h3"),
    ]);
    execute(&transfer("alice", "bob"), &mut store).unwrap();
    execute(&transfer("bob", "carol"), &mut store).unwrap();
    assert_eq!(store.len(), 3);
    assert_row(&store, "alice", 2, "h2");
    assert_row(&store, "bob", 3, "h3");
    assert_row(&store, "carol", 1, "h1");
}

#[test]
fn plan_swap_cross_wires_the_two_rows() {
    let plan = plan_swap(
        "alice".to_string(),
        "bob".to_string(),
        Some((1, "h1".to_string())),
        Some((2, "h2".to_string())),
    )
    .unwrap();
    assert_eq!(plan.first.user_id, 2);
    assert_eq!(plan.first.username, "alice");
    assert_eq!(plan.first.password_hash, "h2");
    assert_eq!(plan.second.user_id, 1);
    assert_eq!(plan.second.username, "bob");
    assert_eq!(plan.second.password_hash, "h1");
}

#[test]
fn plan_swap_reports_the_missing_username() {
    let err = plan_swap(
        "alice".to_string(),
        "bob".to_string(),
        None,
        Some((2, "h2".to_string())),
    )
    .unwrap_err();
    match err {
        ExecError::NotFound(u) => assert_eq!(u, "alice"),
        other => panic!("expected NotFound, got {:?}", other),
    }
    let err = plan_swap(
        "alice".to_string(),
        "bob".to_string(),
        Some((1, "h1".to_string())),
        None,
    )
    .unwrap_err();
    match err {
        ExecError::NotFound(u) => assert_eq!(u, "bob"),
        other => panic!("expected NotFound, got {:?}", other),
    }
}

#[test]
fn plan_swap_refuses_equal_usernames() {
    let err = plan_swap(
        "alice".to_string(),
        "alice".to_string(),
        Some((1, "h1".to_string())),
        Some((1, "h1".to_string())),
    )
    .unwrap_err();
    assert!(matches!(err, ExecError::Storage(_)));
}
