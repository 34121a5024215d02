use next_dev::envelope::{Diagnostic, Issue, IssueSeverity};
use next_dev::hmr::{
    compute_update, hmr_compute_step, process_hmr_update, ClientUpdateInstruction, Update,
};
use next_dev::session::{SessionTable, SessionVersionState};

#[test]
fn unchanged_update_surfaces_issues_only() {
    let mut state = SessionVersionState::new();
    state.advance(4);
    let instr = process_hmr_update(&mut state, Update::Unchanged);
    assert!(matches!(instr, ClientUpdateInstruction::Issues));
    assert_eq!(state.current(), Some(4));
}

#[test]
fn total_update_restarts_and_advances() {
    let mut state = SessionVersionState::new();
    let instr = process_hmr_update(&mut state, Update::Total { to: 11 });
    assert!(matches!(instr, ClientUpdateInstruction::Restart { to: 11 }));
    assert_eq!(state.current(), Some(11));
}

#[test]
fn matching_partial_update_is_relayed() {
    let mut state = SessionVersionState::new();
    state.advance(11);
    let instr = process_hmr_update(
        &mut state,
        Update::Partial { base: 11, to: 12, instruction: "patch-11-12".to_string() },
    );
    match instr {
        ClientUpdateInstruction::Partial { to, instruction } => {
            assert_eq!(to, 12);
            assert_eq!(instruction, "patch-11-12");
        }
        _ => panic!("expected a partial instruction"),
    }
    assert_eq!(state.current(), Some(12));
}

#[test]
fn stale_partial_update_degrades_to_restart() {
    let mut state = SessionVersionState::new();
    state.advance(3);
    let instr = process_hmr_update(
        &mut state,
        Update::Partial { base: 5, to: 9, instruction: "patch-5-9".to_string() },
    );
    assert!(matches!(instr, ClientUpdateInstruction::Restart { to: 9 }));
    assert_eq!(state.current(), Some(9));
}

#[test]
fn engine_reports_no_change_at_held_version() {
    let u = compute_update(5, Some(5), Some("patch".to_string()));
    assert!(matches!(u, Update::Unchanged));
}

#[test]
fn engine_reports_partial_when_delta_exists() {
    let u = compute_update(8, Some(5), Some("patch-5-8".to_string()));
    match u {
        Update::Partial { base, to, instruction } => {
            assert_eq!(base, 5);
            assert_eq!(to, 8);
            assert_eq!(instruction, "patch-5-8");
        }
        _ => panic!("expected a partial update"),
    }
}

#[test]
fn engine_reports_total_without_delta_or_history() {
    assert!(matches!(compute_update(8, Some(5), None), Update::Total { to: 8 }));
    assert!(matches!(
        compute_update(8, None, Some("patch".to_string())),
        Update::Total { to: 8 }
    ));
}

#[test]
fn round_trip_total_then_no_change() {
    let mut state = SessionVersionState::new();
    state.advance(2);
    // The resource moved to version 6; no delta from 2 was available.
    let u = compute_update(6, state.current(), None);
    assert!(matches!(u, Update::Total { to: 6 }));
    process_hmr_update(&mut state, u);
    // Nothing further changed: re-reading at the new version is "no change".
    let next = compute_update(6, state.current(), Some("patch".to_string()));
    assert!(matches!(next, Update::Unchanged));
}

#[test]
fn compute_step_packages_issues_and_diagnostics() {
    let mut table = SessionTable::new();
    let ident = "lib.js".to_string();
    let idx = table.get_or_create(9, &ident);
    let issues = vec![Issue {
        severity: IssueSeverity::Warning,
        message: "unused import".to_string(),
        file: Some("lib.js".to_string()),
        line: Some(3),
    }];
    let diagnostics = vec![Diagnostic {
        category: "timing".to_string(),
        message: "slow module".to_string(),
    }];
    let e = hmr_compute_step(&mut table, idx, Update::Total { to: 1 }, issues, diagnostics);
    assert!(matches!(e.result, ClientUpdateInstruction::Restart { to: 1 }));
    assert_eq!(e.issues.len(), 1);
    assert_eq!(e.issues[0].message, "unused import");
    assert_eq!(e.diagnostics.len(), 1);
    assert_eq!(e.diagnostics[0].category, "timing");
    assert_eq!(table.version_at(idx), Some(1));
}
