//! Port allocation with a bounded retry rule.
//!
//! The server tries to bind `starting_port`, `starting_port + 1`, and so on,
//! for at most `max_attempts` consecutive ports. It moves on to the next
//! port only when retrying is enabled, attempts remain, and the bind failed
//! specifically because the address was already in use; any other failure is
//! fatal at once, and exhausting the attempts surfaces the last bind error
//! unchanged. The host performs the binds and reports each outcome; it also
//! emits a human-readable notice for every retry, so the number of retries
//! is part of the result.

use vstd::prelude::*;

verus! {

/// What one bind attempt returned.
pub enum BindOutcome {
    /// The port was bound.
    Bound,
    /// The address is already in use; the only failure that permits a retry.
    AddrInUse,
    /// Any other bind failure (permission denied, invalid address, ...).
    Fatal { message: String },
}

/// What to do after one bind attempt.
#[derive(Clone, Copy, Debug, PartialEq, Eq, Structural)]
pub enum PortDecision {
    /// Keep the listener: the search is over.
    Accept,
    /// Log a notice and try the next consecutive port.
    Retry,
    /// Surface this attempt's error unchanged.
    Fail,
}

/// The retry rule: retry only when retrying is enabled, a further attempt
/// remains, and the failure was "address already in use".
pub open spec fn spec_port_decision(
    allow_retry: bool,
    attempt: u16,
    max_attempts: u16,
    outcome: BindOutcome,
) -> PortDecision {
    match outcome {
        BindOutcome::Bound => PortDecision::Accept,
        BindOutcome::AddrInUse => {
            if allow_retry && attempt + 1 < max_attempts {
                PortDecision::Retry
            } else {
                PortDecision::Fail
            }
        },
        BindOutcome::Fatal { message: _ } => PortDecision::Fail,
    }
}

/// Decide what to do after the bind attempt numbered `attempt` (counting
/// from zero) out of `max_attempts` returned `outcome`.
pub fn port_decision(allow_retry: bool, attempt: u16, max_attempts: u16, outcome: &BindOutcome) -> (
    r: PortDecision)
    requires
        attempt < max_attempts,
    ensures
        r == spec_port_decision(allow_retry, attempt, max_attempts, *outcome),
{
    match outcome {
        BindOutcome::Bound => PortDecision::Accept,
        BindOutcome::AddrInUse => {
            if allow_retry && attempt + 1 < max_attempts {
                PortDecision::Retry
            } else {
                PortDecision::Fail
            }
        },
        BindOutcome::Fatal { message: _ } => PortDecision::Fail,
    }
}

/// How a port search ended.
pub enum PortSearchResult {
    /// A listener is bound at `port`, reached after `retries` logged
    /// retries.
    Bound { port: u16, retries: u16 },
    /// The search stopped at `port` after `retries` logged retries; `error`
    /// is that attempt's bind error, surfaced unchanged.
    Failed { port: u16, retries: u16, error: BindOutcome },
}

/// What a finished port search must look like: the stopping attempt is
/// within bounds, its port is the consecutive one, every earlier attempt
/// found its address in use, retries happened only when enabled, and a
/// failure surfaces the stopping attempt's own error — an in-use failure
/// only when no further retry was permitted.
pub open spec fn port_search_correct(
    allow_retry: bool,
    starting_port: u16,
    max_attempts: u16,
    outcomes: Seq<BindOutcome>,
    r: PortSearchResult,
) -> bool {
    match r {
        PortSearchResult::Bound { port, retries } => {
            &&& retries < max_attempts
            &&& port == starting_port + retries
            &&& outcomes[retries as int] is Bound
            &&& forall|j: int| 0 <= j < retries ==> (#[trigger] outcomes[j]) is AddrInUse
            &&& retries > 0 ==> allow_retry
        },
        PortSearchResult::Failed { port, retries, error } => {
            &&& retries < max_attempts
            &&& port == starting_port + retries
            &&& error == outcomes[retries as int]
            &&& !(error is Bound)
            &&& forall|j: int| 0 <= j < retries ==> (#[trigger] outcomes[j]) is AddrInUse
            &&& retries > 0 ==> allow_retry
            &&& error is AddrInUse ==> !allow_retry || retries == max_attempts - 1
        },
    }
}

/// Walk the consecutive ports against the observed bind outcomes, one
/// outcome per attempt, and stop by the retry rule.
pub fn find_port_from(
    allow_retry: bool,
    starting_port: u16,
    max_attempts: u16,
    outcomes: Vec<BindOutcome>,
) -> (r: PortSearchResult)
    requires
        1 <= max_attempts,
        outcomes@.len() == max_attempts,
        starting_port + max_attempts - 1 <= u16::MAX,
    ensures
        port_search_correct(allow_retry, starting_port, max_attempts, outcomes@, r),
{
    let mut attempt: u16 = 0;
    let mut accepted: bool = false;
    loop
        invariant_except_break
            !accepted,
        invariant
            outcomes@.len() == max_attempts,
            1 <= max_attempts,
            attempt < max_attempts,
            forall|j: int| 0 <= j < attempt ==> (#[trigger] outcomes@[j]) is AddrInUse,
            attempt > 0 ==> allow_retry,
        ensures
            attempt < max_attempts,
            forall|j: int| 0 <= j < attempt ==> (#[trigger] outcomes@[j]) is AddrInUse,
            attempt > 0 ==> allow_retry,
            accepted == (outcomes@[attempt as int] is Bound),
            !accepted ==> (outcomes@[attempt as int] is AddrInUse ==> !allow_retry || attempt
                == max_attempts - 1),
        decreases max_attempts - attempt,
    {
        let decision = port_decision(
            allow_retry,
            attempt,
            max_attempts,
            &outcomes[attempt as usize],
        );
        match decision {
            PortDecision::Accept => {
                accepted = true;
                break;
            },
            PortDecision::Retry => {
                attempt = attempt + 1;
            },
            PortDecision::Fail => {
                break;
            },
        }
    }
    if accepted {
        PortSearchResult::Bound { port: starting_port + attempt, retries: attempt }
    } else {
        let mut rest = outcomes;
        let error = rest.remove(attempt as usize);
        PortSearchResult::Failed { port: starting_port + attempt, retries: attempt, error }
    }
}

} // verus!
