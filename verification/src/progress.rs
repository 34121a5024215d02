//! Progress aggregation and reporting decisions.
//!
//! A background loop polls the engine for the update statistics accumulated
//! since the last call — blocking up to a fixed tick when none are pending —
//! and delivers them to a persistent sink. The loop stops only when the
//! sink is gone; that is logged, never escalated. A second loop renders the
//! statistics as console progress lines; which line a cycle prints is a
//! pure decision over the statistics and the logging options, taken here.

use vstd::prelude::*;

verus! {

/// How long one statistics window lasts, in milliseconds: the poll blocks
/// up to this long when no updates are pending.
pub const UPDATE_INFO_TICK_MS: u64 = 1000;

/// The build-mode settle window, in milliseconds: a burst counts as
/// finished only after this long with no new tasks, with no upper bound on
/// the wait, so one long compile never triggers a stray partial report.
pub const BUILD_SETTLE_MS: u64 = 100;

/// Aggregated update statistics for one window: elapsed time, task count,
/// and the rendered reasons that triggered recomputation (empty when the
/// engine reported none). Produced fresh each window, never persisted.
pub struct UpdateInfo {
    pub duration_ms: u64,
    pub tasks: u64,
    pub reasons: String,
}

/// The statistics in the narrow shape the host bridge delivers: durations
/// and counts truncated to 32 bits, as the bridge's wire format carries
/// them.
pub struct NapiUpdateInfo {
    pub duration: u32,
    pub tasks: u32,
}

impl NapiUpdateInfo {
    /// Narrow the window's statistics to the bridge shape. Values beyond
    /// the 32-bit range wrap, as the bridge's plain cast does.
    pub fn from_update_info(info: &UpdateInfo) -> (r: Self)
        ensures
            r.duration == info.duration_ms as u32,
            r.tasks == info.tasks as u32,
    {
        NapiUpdateInfo {
            duration: #[verifier::truncate] (info.duration_ms as u32),
            tasks: #[verifier::truncate] (info.tasks as u32),
        }
    }
}

/// One console progress line.
pub enum ProgressLine {
    /// Detailed logging, with reasons: the reasons, elapsed time and task
    /// count are printed.
    Event { reasons: String, duration_ms: u64, tasks: u64 },
    /// Detailed logging, no reasons: a compilation line with elapsed time
    /// and task count.
    Compilation { duration_ms: u64, tasks: u64 },
    /// Plain logging, with reasons: the reasons and elapsed time.
    EventPlain { reasons: String, duration_ms: u64 },
    /// Plain logging, no reasons: a compilation line, printed only for a
    /// window that ran longer than one second.
    CompilationSlow { duration_ms: u64 },
    /// Nothing is printed for this window.
    Silent,
    /// No update arrived within the window: a waiting spinner with the
    /// seconds elapsed since the last update.
    Spinner { seconds: u64 },
}

/// `n + 1`, frozen at the top of the counter's range.
pub open spec fn spec_tick(n: u64) -> u64 {
    if n == u64::MAX {
        n
    } else {
        (n + 1) as u64
    }
}

/// Which line one polling cycle prints, and the waiting counter it leaves
/// behind: statistics reset the counter and are rendered by the logging
/// detail and whether any reasons were collected; an empty window bumps the
/// counter and shows it.
pub open spec fn spec_progress_line(
    log_detail: bool,
    info: Option<UpdateInfo>,
    counter: u64,
) -> (u64, ProgressLine) {
    match info {
        Some(i) => (
            0u64,
            if log_detail {
                if i.reasons@.len() > 0 {
                    ProgressLine::Event {
                        reasons: i.reasons,
                        duration_ms: i.duration_ms,
                        tasks: i.tasks,
                    }
                } else {
                    ProgressLine::Compilation { duration_ms: i.duration_ms, tasks: i.tasks }
                }
            } else {
                if i.reasons@.len() > 0 {
                    ProgressLine::EventPlain { reasons: i.reasons, duration_ms: i.duration_ms }
                } else {
                    if i.duration_ms > 1000 {
                        ProgressLine::CompilationSlow { duration_ms: i.duration_ms }
                    } else {
                        ProgressLine::Silent
                    }
                }
            },
        ),
        None => (spec_tick(counter), ProgressLine::Spinner { seconds: spec_tick(counter) }),
    }
}

/// Decide the progress line for one polling cycle.
pub fn progress_line(log_detail: bool, info: Option<UpdateInfo>, counter: u64) -> (r: (
    u64,
    ProgressLine,
))
    ensures
        r == spec_progress_line(log_detail, info, counter),
{
    match info {
        Some(i) => {
            let has_reasons = !i.reasons.as_str().is_empty();
            let line = if log_detail {
                if has_reasons {
                    ProgressLine::Event {
                        reasons: i.reasons,
                        duration_ms: i.duration_ms,
                        tasks: i.tasks,
                    }
                } else {
                    ProgressLine::Compilation { duration_ms: i.duration_ms, tasks: i.tasks }
                }
            } else {
                if has_reasons {
                    ProgressLine::EventPlain { reasons: i.reasons, duration_ms: i.duration_ms }
                } else {
                    if i.duration_ms > 1000 {
                        ProgressLine::CompilationSlow { duration_ms: i.duration_ms }
                    } else {
                        ProgressLine::Silent
                    }
                }
            };
            (0, line)
        },
        None => {
            let next = tick(counter);
            (next, ProgressLine::Spinner { seconds: next })
        },
    }
}

/// `n + 1`, frozen at the top of the counter's range.
fn tick(n: u64) -> (r: u64)
    ensures
        r == spec_tick(n),
{
    if n == u64::MAX {
        n
    } else {
        n + 1
    }
}

/// The statistics delivery loop's state: how many windows were delivered,
/// and whether the sink is gone.
pub struct UpdateInfoSubscription {
    pub delivered: u64,
    pub stopped: bool,
}

impl UpdateInfoSubscription {
    /// A fresh loop, ready to deliver.
    pub fn new() -> (s: Self)
        ensures
            s.delivered == 0,
            !s.stopped,
    {
        UpdateInfoSubscription { delivered: 0, stopped: false }
    }

    /// Account for one delivery attempt: a sink that accepted keeps the
    /// loop alive; a sink that failed stops it for good — logged by the
    /// host, never escalated.
    pub fn step(&mut self, delivery_ok: bool) -> (keep_going: bool)
        ensures
            old(self).stopped ==> *final(self) == *old(self) && !keep_going,
            !old(self).stopped && delivery_ok ==> final(self).delivered == spec_tick(
                old(self).delivered,
            ) && !final(self).stopped && keep_going,
            !old(self).stopped && !delivery_ok ==> final(self).stopped && final(self).delivered
                == old(self).delivered && !keep_going,
    {
        if self.stopped {
            return false;
        }
        if delivery_ok {
            self.delivered = tick(self.delivered);
            true
        } else {
            self.stopped = true;
            false
        }
    }
}

/// Whether the profiling fast-exit fires: after an idle window, the process
/// exits exactly when no task is in flight.
pub fn profile_should_exit(in_progress: u64) -> (r: bool)
    ensures
        r == (in_progress == 0),
{
    in_progress == 0
}

} // verus!
