use next_dev::hmr::{hmr_cycle, ClientUpdateInstruction, Update};
use next_dev::session::{SessionTable, SessionVersionState};

#[test]
fn version_state_starts_empty_and_advances() {
    let mut state = SessionVersionState::new();
    assert_eq!(state.current(), None);
    state.advance(41);
    assert_eq!(state.current(), Some(41));
    state.advance(7);
    assert_eq!(state.current(), Some(7));
}

#[test]
fn get_or_create_is_idempotent() {
    let mut table = SessionTable::new();
    let ident = "app/page.js".to_string();
    let idx = table.get_or_create(1, &ident);
    assert_eq!(table.len(), 1);
    assert_eq!(table.version_at(idx), None);
    let idx_again = table.get_or_create(1, &ident);
    assert_eq!(idx, idx_again);
    assert_eq!(table.len(), 1);
}

#[test]
fn sessions_keep_independent_versions() {
    let mut table = SessionTable::new();
    let ident = "app/page.js".to_string();
    let s1 = table.get_or_create(1, &ident);
    let s2 = table.get_or_create(2, &ident);
    assert_ne!(s1, s2);
    table.advance_at(s1, 10);
    assert_eq!(table.version_at(s1), Some(10));
    assert_eq!(table.version_at(s2), None);
    table.advance_at(s2, 3);
    assert_eq!(table.version_at(s1), Some(10));
    assert_eq!(table.version_at(s2), Some(3));
}

#[test]
fn removing_one_session_leaves_the_others() {
    let mut table = SessionTable::new();
    let a = "a.js".to_string();
    let b = "b.js".to_string();
    let s1a = table.get_or_create(1, &a);
    let _s2a = table.get_or_create(2, &a);
    let _s2b = table.get_or_create(2, &b);
    table.advance_at(s1a, 5);
    assert_eq!(table.len(), 3);
    table.remove_session(2);
    assert_eq!(table.len(), 1);
    assert_eq!(table.version_at(0), Some(5));
}

#[test]
fn idle_session_leaves_no_trace() {
    let mut table = SessionTable::new();
    let ident = "a.js".to_string();
    let resident = table.get_or_create(1, &ident);
    table.advance_at(resident, 9);

    // A new session subscribes, sees one "no change" cycle, and goes away.
    let idx = table.get_or_create(2, &ident);
    let instr = hmr_cycle(&mut table, idx, Update::Unchanged);
    assert!(matches!(instr, ClientUpdateInstruction::Issues));
    assert_eq!(table.version_at(idx), None);
    table.remove_session(2);

    assert_eq!(table.len(), 1);
    assert_eq!(table.version_at(0), Some(9));
}
