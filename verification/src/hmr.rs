//! Hot-reload update classification.
//!
//! Each cycle the engine reports, per resource identifier, either no change,
//! a full replacement up to some version, or a delta from a base version.
//! Against the subscriber session's last-acknowledged version this is
//! classified into the instruction sent to the client: surface issues only,
//! restart, or apply the delta. A delta whose base does not match the
//! session's held version is stale and degrades to a restart instruction
//! rather than failing.

use vstd::prelude::*;

use crate::envelope::{envelope, Diagnostic, Issue, ResultEnvelope};
use crate::session::{SessionTable, SessionVersionState};

verus! {

/// A computed update for one resource, as the engine reports it.
pub enum Update {
    /// No observable change since the version the session holds.
    Unchanged,
    /// The subscriber must discard prior state and reload at version `to`.
    Total { to: u64 },
    /// The delta `instruction` carries version `base` forward to `to`.
    Partial { base: u64, to: u64, instruction: String },
}

/// The instruction delivered to the subscribed client for one cycle.
pub enum ClientUpdateInstruction {
    /// No code change; only newly collected issues are surfaced.
    Issues,
    /// Discard and reload at version `to`.
    Restart { to: u64 },
    /// Apply `instruction` on top of the last-acknowledged version.
    Partial { to: u64, instruction: String },
}

/// How an update is classified against the version the session holds.
pub open spec fn classified(update: Update, held: Option<u64>) -> ClientUpdateInstruction {
    match update {
        Update::Unchanged => ClientUpdateInstruction::Issues,
        Update::Total { to } => ClientUpdateInstruction::Restart { to },
        Update::Partial { base, to, instruction } => {
            if held == Some(base) {
                ClientUpdateInstruction::Partial { to, instruction }
            } else {
                ClientUpdateInstruction::Restart { to }
            }
        },
    }
}

/// The version the session holds after an update is applied: unchanged on
/// "no change", otherwise the update's target version.
pub open spec fn advanced(update: Update, held: Option<u64>) -> Option<u64> {
    match update {
        Update::Unchanged => held,
        Update::Total { to } => Some(to),
        Update::Partial { base: _, to, instruction: _ } => Some(to),
    }
}

/// Classify one computed update against the session's version state,
/// advance the state for a versioned update, and leave it untouched on "no
/// change".
pub fn process_hmr_update(state: &mut SessionVersionState, update: Update) -> (instr:
    ClientUpdateInstruction)
    ensures
        instr == classified(update, old(state).version()),
        final(state).version() == advanced(update, old(state).version()),
        update is Unchanged ==> *final(state) == *old(state),
{
    match update {
        Update::Unchanged => ClientUpdateInstruction::Issues,
        Update::Total { to } => {
            state.advance(to);
            ClientUpdateInstruction::Restart { to }
        },
        Update::Partial { base, to, instruction } => {
            let held = state.current();
            state.advance(to);
            match held {
                Some(h) if h == base => ClientUpdateInstruction::Partial { to, instruction },
                _ => ClientUpdateInstruction::Restart { to },
            }
        },
    }
}

/// The engine facade's own classification of a resource read: `current` is
/// the resource's computed version, `held` the version the session last
/// acknowledged, and `delta` the instruction the engine could compute from
/// `held` to `current`, if any. The engine reports no change exactly when
/// the session is already at the current version.
pub open spec fn spec_compute_update(
    current: u64,
    held: Option<u64>,
    delta: Option<String>,
) -> Update {
    if held == Some(current) {
        Update::Unchanged
    } else {
        match (held, delta) {
            (Some(base), Some(instruction)) => Update::Partial { base, to: current, instruction },
            _ => Update::Total { to: current },
        }
    }
}

/// Compute the update the engine reports for one resource read.
pub fn compute_update(current: u64, held: Option<u64>, delta: Option<String>) -> (u: Update)
    ensures
        u == spec_compute_update(current, held, delta),
{
    match held {
        Some(h) if h == current => Update::Unchanged,
        Some(base) => match delta {
            Some(instruction) => Update::Partial { base, to: current, instruction },
            None => Update::Total { to: current },
        },
        None => Update::Total { to: current },
    }
}

/// One hot-reload cycle against the session table: classify the update for
/// the session owning row `idx` and record its new version. A "no change"
/// cycle leaves the table exactly as it was.
pub fn hmr_cycle(table: &mut SessionTable, idx: usize, update: Update) -> (instr:
    ClientUpdateInstruction)
    requires
        old(table).wf(),
        idx < old(table).rows().len(),
    ensures
        final(table).wf(),
        instr == classified(update, old(table).rows()[idx as int].state.version()),
        update is Unchanged ==> *final(table) == *old(table),
        !(update is Unchanged) ==> SessionTable::advances_only(
            *old(table),
            *final(table),
            idx as int,
            advanced(update, old(table).rows()[idx as int].state.version())->0,
        ),
    {
    let held = table.version_at(idx);
    match update {
        Update::Unchanged => ClientUpdateInstruction::Issues,
        Update::Total { to } => {
            table.advance_at(idx, to);
            ClientUpdateInstruction::Restart { to }
        },
        Update::Partial { base, to, instruction } => {
            table.advance_at(idx, to);
            match held {
                Some(h) if h == base => ClientUpdateInstruction::Partial { to, instruction },
                _ => ClientUpdateInstruction::Restart { to },
            }
        },
    }
}

/// Round trip: once a versioned update (total or partial) is applied, a
/// re-read of the resource at that same version — no further change having
/// happened — is classified as no change, whatever delta the engine offers.
pub proof fn lemma_round_trip(
    current: u64,
    held: Option<u64>,
    delta: Option<String>,
    next_delta: Option<String>,
)
    ensures
        ({
            let u = spec_compute_update(current, held, delta);
            !(u is Unchanged) ==> spec_compute_update(current, advanced(u, held), next_delta) is Unchanged
        }),
{
}

/// Subscribing, receiving one "no change" cycle, and unsubscribing leaves
/// the session table exactly as it was: `t0` before the subscription, `t1`
/// after the row was created, `t2` after the cycle, `t3` after teardown.
pub proof fn lemma_idle_session_leaves_no_trace(
    t0: SessionTable,
    t1: SessionTable,
    t2: SessionTable,
    t3: SessionTable,
    session: u64,
    identifier: Seq<char>,
    update: Update,
)
    requires
        t0.wf(),
        forall|k: int| 0 <= k < t0.rows().len() ==> (#[trigger] t0.rows()[k]).session != session,
        SessionTable::created_fresh(t0, t1, session, identifier),
        update is Unchanged,
        t2 == t1,
        t3.rows() == t2.rows().filter(|e: crate::session::SessionEntry| e.session != session),
    ensures
        t3.rows() == t0.rows(),
{
    let p = |e: crate::session::SessionEntry| e.session != session;
    assert(t1.rows().drop_last() =~= t0.rows());
    assert(t1.rows().len() > 0);
    reveal_with_fuel(Seq::<_>::filter, 2);
    assert(!p(t1.rows().last()));
    assert(t1.rows().filter(p) == t0.rows().filter(p));
    lemma_filter_keeps_all(t0.rows(), p);
    assert(t3.rows() =~= t0.rows());
}

/// Filtering with a predicate every element satisfies keeps the sequence.
proof fn lemma_filter_keeps_all(
    rows: Seq<crate::session::SessionEntry>,
    p: spec_fn(crate::session::SessionEntry) -> bool,
)
    requires
        forall|k: int| 0 <= k < rows.len() ==> p(#[trigger] rows[k]),
    ensures
        rows.filter(p) == rows,
    decreases rows.len(),
{
    reveal_with_fuel(Seq::<_>::filter, 2);
    if rows.len() == 0 {
        assert(rows.filter(p) =~= rows);
    } else {
        assert(forall|k: int|
            0 <= k < rows.drop_last().len() ==> p(#[trigger] rows.drop_last()[k]));
        lemma_filter_keeps_all(rows.drop_last(), p);
        assert(rows.filter(p) =~= rows);
    }
}

/// One whole hot-reload compute step: classify the update for the session
/// owning row `idx`, advance its version, and package the instruction with
/// the issues and diagnostics collected during the read.
pub fn hmr_compute_step(
    table: &mut SessionTable,
    idx: usize,
    update: Update,
    issues: Vec<Issue>,
    diagnostics: Vec<Diagnostic>,
) -> (e: ResultEnvelope<ClientUpdateInstruction>)
    requires
        old(table).wf(),
        idx < old(table).rows().len(),
    ensures
        final(table).wf(),
        e.result == classified(update, old(table).rows()[idx as int].state.version()),
        update is Unchanged ==> *final(table) == *old(table),
        !(update is Unchanged) ==> SessionTable::advances_only(
            *old(table),
            *final(table),
            idx as int,
            advanced(update, old(table).rows()[idx as int].state.version())->0,
        ),
        e.issues == issues,
        e.diagnostics == diagnostics,
{
    let instr = hmr_cycle(table, idx, update);
    envelope(instr, issues, diagnostics)
}

/// Sessions are independent: a versioned update delivered to the session
/// owning row `idx` — a partial delta as much as a total reload — never
/// advances any other session's version state.
pub proof fn lemma_sessions_independent(
    pre: SessionTable,
    post: SessionTable,
    idx: int,
    to: u64,
    j: int,
)
    requires
        SessionTable::advances_only(pre, post, idx, to),
        0 <= j < pre.rows().len(),
        j != idx,
    ensures
        post.rows()[j] == pre.rows()[j],
{
}

} // verus!
