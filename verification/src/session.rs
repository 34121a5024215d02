//! Per-session version bookkeeping.
//!
//! Each subscriber session tracks, per resource identifier, the version
//! token of the last update it acknowledged. Two sessions subscribed to the
//! same identifier keep independent histories, because each may be at a
//! different point in the update stream.

use vstd::prelude::*;

verus! {

/// Last-acknowledged version token for one resource identifier within one
/// subscriber session. `None` until the first versioned delivery.
pub struct SessionVersionState {
    token: Option<u64>,
}

impl SessionVersionState {
    /// The token recorded so far, if any.
    pub closed spec fn version(&self) -> Option<u64> {
        self.token
    }

    /// A fresh state: nothing delivered yet.
    pub fn new() -> (s: Self)
        ensures
            s.version() == Option::<u64>::None,
    {
        SessionVersionState { token: None }
    }

    /// Record that the session has acknowledged version `to`.
    pub fn advance(&mut self, to: u64)
        ensures
            final(self).version() == Some(to),
    {
        self.token = Some(to);
    }

    /// Read the recorded token.
    pub fn current(&self) -> (r: Option<u64>)
        ensures
            r == self.version(),
    {
        self.token
    }
}

/// One row of the session version table.
pub struct SessionEntry {
    pub session: u64,
    pub identifier: String,
    pub state: SessionVersionState,
}

impl SessionEntry {
    /// Whether this row belongs to the given session and identifier.
    pub open spec fn keyed(&self, session: u64, identifier: Seq<char>) -> bool {
        self.session == session && self.identifier@ == identifier
    }
}

/// No two rows share a session and an identifier.
pub open spec fn key_distinct(rows: Seq<SessionEntry>) -> bool {
    forall|i: int, j: int|
        0 <= i < j < rows.len() ==> !(#[trigger] rows[i]).keyed(
            (#[trigger] rows[j]).session,
            rows[j].identifier@,
        )
}

/// The session version table: one `SessionVersionState` per pair of
/// subscriber session and resource identifier, created lazily on first
/// subscription and removed when the session is torn down.
pub struct SessionTable {
    entries: Vec<SessionEntry>,
}

impl SessionTable {
    /// The rows of the table.
    pub closed spec fn rows(&self) -> Seq<SessionEntry> {
        self.entries@
    }

    /// No two rows share a session and an identifier.
    pub open spec fn wf(&self) -> bool {
        key_distinct(self.rows())
    }

    /// Whether some row is keyed by the given session and identifier.
    pub open spec fn has_key(&self, session: u64, identifier: Seq<char>) -> bool {
        exists|k: int|
            0 <= k < self.rows().len() && (#[trigger] self.rows()[k]).keyed(session, identifier)
    }

    /// An empty table.
    pub fn new() -> (t: Self)
        ensures
            t.rows() == Seq::<SessionEntry>::empty(),
            t.wf(),
    {
        SessionTable { entries: Vec::new() }
    }

    /// Number of rows.
    pub fn len(&self) -> (n: usize)
        ensures
            n == self.rows().len(),
    {
        self.entries.len()
    }

    /// What `get_or_create` does when the pair is new: one fresh row with an
    /// empty version state is appended; every existing row is untouched.
    pub open spec fn created_fresh(pre: Self, post: Self, session: u64, identifier: Seq<
        char,
    >) -> bool {
        &&& post.rows().len() == pre.rows().len() + 1
        &&& forall|k: int| 0 <= k < pre.rows().len() ==> post.rows()[k] == pre.rows()[k]
        &&& post.rows().last().keyed(session, identifier)
        &&& post.rows().last().state.version() == Option::<u64>::None
    }

    /// Look up the row for `(session, identifier)`, creating it with an
    /// empty version state if the pair is new. Idempotent: an existing pair
    /// leaves the table untouched and always yields the same row.
    pub fn get_or_create(&mut self, session: u64, identifier: &String) -> (idx: usize)
        requires
            old(self).wf(),
            old(self).rows().len() < usize::MAX,
        ensures
            final(self).wf(),
            idx < final(self).rows().len(),
            final(self).rows()[idx as int].keyed(session, identifier@),
            old(self).has_key(session, identifier@) ==> *final(self) == *old(self),
            !old(self).has_key(session, identifier@) ==> idx == old(self).rows().len()
                && Self::created_fresh(*old(self), *final(self), session, identifier@),
    {
        let ghost pre = *self;
        let n = self.entries.len();
        let mut i: usize = 0;
        while i < n
            invariant
                *self == pre,
                pre.wf(),
                n == self.rows().len(),
                i <= n,
                forall|k: int|
                    0 <= k < i ==> !(#[trigger] self.rows()[k]).keyed(session, identifier@),
            decreases n - i,
        {
            let e = &self.entries[i];
            if e.session == session && e.identifier == *identifier {
                return i;
            }
            i += 1;
        }
        let entry = SessionEntry {
            session,
            identifier: identifier.clone(),
            state: SessionVersionState::new(),
        };
        self.entries.push(entry);
        assert(!pre.has_key(session, identifier@));
        n
    }

    /// Read the version state of a row.
    pub fn version_at(&self, idx: usize) -> (r: Option<u64>)
        requires
            idx < self.rows().len(),
        ensures
            r == self.rows()[idx as int].state.version(),
    {
        self.entries[idx].state.current()
    }

    /// What `advance_at` does: row `idx` records `to`; every other row is
    /// left exactly as it was.
    pub open spec fn advances_only(pre: Self, post: Self, idx: int, to: u64) -> bool {
        &&& post.rows().len() == pre.rows().len()
        &&& post.rows()[idx].state.version() == Some(to)
        &&& post.rows()[idx].session == pre.rows()[idx].session
        &&& post.rows()[idx].identifier@ == pre.rows()[idx].identifier@
        &&& forall|k: int|
            0 <= k < pre.rows().len() && k != idx ==> post.rows()[k] == pre.rows()[k]
    }

    /// Record that the session owning row `idx` acknowledged version `to`.
    pub fn advance_at(&mut self, idx: usize, to: u64)
        requires
            old(self).wf(),
            idx < old(self).rows().len(),
        ensures
            final(self).wf(),
            Self::advances_only(*old(self), *final(self), idx as int, to),
    {
        let entry = &mut self.entries[idx];
        entry.state.advance(to);
        proof {
            let pre = *old(self);
            assert forall|i: int, j: int| 0 <= i < j < self.rows().len() implies !(
            #[trigger] self.rows()[i]).keyed(
                (#[trigger] self.rows()[j]).session,
                self.rows()[j].identifier@,
            ) by {
                assert(!pre.rows()[i].keyed(pre.rows()[j].session, pre.rows()[j].identifier@));
            }
        }
    }

    /// Drop every row of one session; rows of other sessions are untouched.
    pub fn remove_session(&mut self, session: u64)
        requires
            old(self).wf(),
        ensures
            final(self).wf(),
            final(self).rows() == old(self).rows().filter(
                |e: SessionEntry| e.session != session,
            ),
    {
        let ghost pre = self.entries@;
        let ghost p = |e: SessionEntry| e.session != session;
        let mut kept: Vec<SessionEntry> = Vec::new();
        while self.entries.len() > 0
            invariant
                self.entries@ == pre.skip(pre.len() - self.entries@.len()),
                self.entries@.len() <= pre.len(),
                kept@ == pre.take(pre.len() - self.entries@.len()).filter(p),
                p == (|e: SessionEntry| e.session != session),
            decreases self.entries@.len(),
        {
            let ghost i = pre.len() - self.entries@.len();
            let e = self.entries.remove(0);
            proof {
                assert(e == pre[i]);
                assert(self.entries@ == pre.skip(i + 1)) by {
                    assert(self.entries@ =~= pre.skip(i + 1));
                }
                assert(pre.take(i + 1).drop_last() =~= pre.take(i));
                assert(pre.take(i + 1).last() == pre[i]);
                reveal_with_fuel(Seq::<_>::filter, 2);
            }
            if e.session != session {
                kept.push(e);
            }
        }
        proof {
            assert(pre.take(pre.len() as int) =~= pre);
        }
        self.entries = kept;
        proof {
            lemma_filter_keeps_distinct(pre, p);
        }
    }
}

/// Filtering a table whose rows have pairwise distinct keys yields rows
/// with pairwise distinct keys, each taken from the table it was cut from.
proof fn lemma_filter_keeps_distinct(rows: Seq<SessionEntry>, p: spec_fn(SessionEntry) -> bool)
    requires
        key_distinct(rows),
    ensures
        key_distinct(rows.filter(p)),
        forall|m: int|
            0 <= m < rows.filter(p).len() ==> rows.contains(#[trigger] rows.filter(p)[m]),
    decreases rows.len(),
{
    reveal_with_fuel(Seq::<_>::filter, 2);
    if rows.len() == 0 {
    } else {
        let head = rows.drop_last();
        let last = rows.last();
        assert(key_distinct(head)) by {
            assert forall|i: int, j: int| 0 <= i < j < head.len() implies !(
            #[trigger] head[i]).keyed((#[trigger] head[j]).session, head[j].identifier@) by {
                assert(head[i] == rows[i] && head[j] == rows[j]);
                assert(!rows[i].keyed(rows[j].session, rows[j].identifier@));
            }
        }
        lemma_filter_keeps_distinct(head, p);
        let sub = head.filter(p);
        assert forall|m: int| 0 <= m < sub.len() implies rows.contains(#[trigger] sub[m]) by {
            assert(head.contains(sub[m]));
            let k = choose|k: int| 0 <= k < head.len() && head[k] == sub[m];
            assert(rows[k] == sub[m]);
        }
        if p(last) {
            assert(rows.filter(p) == sub.push(last));
            let f = rows.filter(p);
            assert forall|i: int, j: int| 0 <= i < j < f.len() implies !(
            #[trigger] f[i]).keyed((#[trigger] f[j]).session, f[j].identifier@) by {
                if j < sub.len() {
                    assert(f[i] == sub[i] && f[j] == sub[j]);
                } else {
                    assert(f[j] == last && f[i] == sub[i]);
                    assert(head.contains(sub[i]));
                    let k = choose|k: int| 0 <= k < head.len() && head[k] == sub[i];
                    assert(rows[k] == sub[i] && rows[rows.len() - 1] == last);
                    assert(!rows[k].keyed(
                        rows[rows.len() - 1].session,
                        rows[rows.len() - 1].identifier@,
                    ));
                }
            }
            assert forall|m: int| 0 <= m < f.len() implies rows.contains(#[trigger] f[m]) by {
                if m < sub.len() {
                    assert(f[m] == sub[m]);
                } else {
                    assert(f[m] == last && rows[rows.len() - 1] == last);
                }
            }
        } else {
            assert(rows.filter(p) == sub);
        }
    }
}

/// Within one well-formed table, a session and an identifier name at most
/// one row: the same pair always reaches the same version state.
pub proof fn lemma_key_names_one_row(
    t: SessionTable,
    session: u64,
    identifier: Seq<char>,
    i: int,
    j: int,
)
    requires
        t.wf(),
        0 <= i < t.rows().len(),
        0 <= j < t.rows().len(),
        t.rows()[i].keyed(session, identifier),
        t.rows()[j].keyed(session, identifier),
    ensures
        i == j,
{
    if i < j {
        assert(t.rows()[i].keyed(t.rows()[j].session, t.rows()[j].identifier@));
    } else if j < i {
        assert(t.rows()[j].keyed(t.rows()[i].session, t.rows()[i].identifier@));
    }
}

/// Looking a pair up is idempotent: once `(session, identifier)` has its
/// row, a second lookup touches nothing and yields the same row again.
/// `t1` and `idx1` are one lookup's table and row, `t2` and `idx2` the
/// next lookup's.
pub proof fn lemma_get_or_create_idempotent(
    t1: SessionTable,
    t2: SessionTable,
    session: u64,
    identifier: Seq<char>,
    idx1: int,
    idx2: int,
)
    requires
        t1.wf(),
        0 <= idx1 < t1.rows().len(),
        t1.rows()[idx1].keyed(session, identifier),
        t1.has_key(session, identifier) ==> t2 == t1,
        0 <= idx2 < t2.rows().len(),
        t2.rows()[idx2].keyed(session, identifier),
    ensures
        t2 == t1,
        idx2 == idx1,
{
    assert(t1.has_key(session, identifier));
    lemma_key_names_one_row(t1, session, identifier, idx1, idx2);
}

} // verus!
