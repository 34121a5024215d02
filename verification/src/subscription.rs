//! The subscription engine's state machine.
//!
//! A subscription bridges a recomputation to a delivery sink. Its life is a
//! cycle: run the compute step, deliver the result, wait until a dependency
//! of the computation changes, compute again. The machine decides, from its
//! phase and the event the host reports, what happens next; the host
//! performs the actions (computing, delivering, suspending) and feeds the
//! outcome back in. A compute failure is terminal for the subscription: the
//! failure is delivered once and no retry is scheduled. A sink that reports
//! detach is permanent: no further cycle is scheduled. Tearing down the
//! owning container stops the subscription at its next suspension point.

use vstd::prelude::*;

verus! {

/// Why a subscription stopped.
#[derive(Clone, Copy, Debug, PartialEq, Eq, Structural)]
pub enum StopReason {
    /// The sink reported it is closed or detached.
    Detached,
    /// The compute step failed; the failure was delivered as terminal.
    ComputeFailed,
    /// The owning container was torn down.
    TornDown,
}

/// Where a subscription stands in its cycle.
#[derive(Clone, Copy, Debug, PartialEq, Eq, Structural)]
pub enum SubscriptionPhase {
    /// The compute step is running.
    Computing,
    /// A computed result is being handed to the sink.
    Delivering,
    /// Suspended until a dependency of the compute step changes.
    Waiting,
    /// No further cycle will be scheduled.
    Stopped { reason: StopReason },
}

/// What the host reports back to the machine.
pub enum SubscriptionEvent {
    /// The compute step finished and its result is ready to deliver.
    ComputeOk,
    /// The compute step failed; `message` is the pretty-printed error.
    ComputeErr { message: String },
    /// The sink accepted the delivery.
    DeliveryAccepted,
    /// The sink reported it is closed or detached.
    DeliveryDetached,
    /// A dependency of the compute step was invalidated.
    ChangeSignalled,
    /// The owning container is being torn down.
    Teardown,
}

/// What the host must do next.
pub enum SubscriptionAction {
    /// Hand the computed envelope to the sink.
    Deliver,
    /// Report the terminal failure to the sink and stop.
    DeliverTerminalError { message: String },
    /// Suspend until the engine signals a dependency change.
    WaitForChange,
    /// Run the compute step again.
    StartCompute,
    /// Nothing further: the subscription is finished.
    Idle,
}

/// One subscription's state: its phase, how many compute cycles have begun,
/// and how many deliveries the sink has accepted.
pub struct Subscription {
    pub phase: SubscriptionPhase,
    pub cycles: u64,
    pub deliveries: u64,
}

/// `n + 1`, frozen at the top of the counter's range.
pub open spec fn spec_bump(n: u64) -> u64 {
    if n == u64::MAX {
        n
    } else {
        (n + 1) as u64
    }
}

/// The transition relation: from a state and a host event to the next state
/// and the action the host performs. An event that does not belong to the
/// current phase changes nothing, and a stopped subscription stays stopped
/// whatever is reported.
pub open spec fn spec_step(s: Subscription, event: SubscriptionEvent) -> (Subscription,
    SubscriptionAction) {
    match s.phase {
        SubscriptionPhase::Stopped { reason: _ } => (s, SubscriptionAction::Idle),
        _ => match event {
            SubscriptionEvent::Teardown => (
                Subscription {
                    phase: SubscriptionPhase::Stopped { reason: StopReason::TornDown },
                    ..s
                },
                SubscriptionAction::Idle,
            ),
            SubscriptionEvent::ComputeOk => {
                if s.phase is Computing {
                    (
                        Subscription { phase: SubscriptionPhase::Delivering, ..s },
                        SubscriptionAction::Deliver,
                    )
                } else {
                    (s, SubscriptionAction::Idle)
                }
            },
            SubscriptionEvent::ComputeErr { message } => {
                if s.phase is Computing {
                    (
                        Subscription {
                            phase: SubscriptionPhase::Stopped {
                                reason: StopReason::ComputeFailed,
                            },
                            ..s
                        },
                        SubscriptionAction::DeliverTerminalError { message },
                    )
                } else {
                    (s, SubscriptionAction::Idle)
                }
            },
            SubscriptionEvent::DeliveryAccepted => {
                if s.phase is Delivering {
                    (
                        Subscription {
                            phase: SubscriptionPhase::Waiting,
                            deliveries: spec_bump(s.deliveries),
                            ..s
                        },
                        SubscriptionAction::WaitForChange,
                    )
                } else {
                    (s, SubscriptionAction::Idle)
                }
            },
            SubscriptionEvent::DeliveryDetached => {
                if s.phase is Delivering {
                    (
                        Subscription {
                            phase: SubscriptionPhase::Stopped { reason: StopReason::Detached },
                            ..s
                        },
                        SubscriptionAction::Idle,
                    )
                } else {
                    (s, SubscriptionAction::Idle)
                }
            },
            SubscriptionEvent::ChangeSignalled => {
                if s.phase is Waiting {
                    (
                        Subscription {
                            phase: SubscriptionPhase::Computing,
                            cycles: spec_bump(s.cycles),
                            ..s
                        },
                        SubscriptionAction::StartCompute,
                    )
                } else {
                    (s, SubscriptionAction::Idle)
                }
            },
        },
    }
}

/// The state after a whole sequence of host events.
pub open spec fn spec_run(s: Subscription, events: Seq<SubscriptionEvent>) -> Subscription
    decreases events.len(),
{
    if events.len() == 0 {
        s
    } else {
        spec_run(spec_step(s, events[0]).0, events.skip(1))
    }
}

impl Subscription {
    /// A new subscription: its first compute cycle begins at once.
    pub fn new() -> (s: Self)
        ensures
            s.phase == SubscriptionPhase::Computing,
            s.cycles == 1,
            s.deliveries == 0,
    {
        Subscription { phase: SubscriptionPhase::Computing, cycles: 1, deliveries: 0 }
    }

    /// Feed one host event in; the returned action is what the host performs
    /// next.
    pub fn step(&mut self, event: SubscriptionEvent) -> (action: SubscriptionAction)
        ensures
            (*final(self), action) == spec_step(*old(self), event),
    {
        match self.phase {
            SubscriptionPhase::Stopped { reason: _ } => SubscriptionAction::Idle,
            _ => match event {
                SubscriptionEvent::Teardown => {
                    self.phase = SubscriptionPhase::Stopped { reason: StopReason::TornDown };
                    SubscriptionAction::Idle
                },
                SubscriptionEvent::ComputeOk => {
                    if matches!(self.phase, SubscriptionPhase::Computing) {
                        self.phase = SubscriptionPhase::Delivering;
                        SubscriptionAction::Deliver
                    } else {
                        SubscriptionAction::Idle
                    }
                },
                SubscriptionEvent::ComputeErr { message } => {
                    if matches!(self.phase, SubscriptionPhase::Computing) {
                        self.phase = SubscriptionPhase::Stopped {
                            reason: StopReason::ComputeFailed,
                        };
                        SubscriptionAction::DeliverTerminalError { message }
                    } else {
                        SubscriptionAction::Idle
                    }
                },
                SubscriptionEvent::DeliveryAccepted => {
                    if matches!(self.phase, SubscriptionPhase::Delivering) {
                        self.phase = SubscriptionPhase::Waiting;
                        self.deliveries = bump(self.deliveries);
                        SubscriptionAction::WaitForChange
                    } else {
                        SubscriptionAction::Idle
                    }
                },
                SubscriptionEvent::DeliveryDetached => {
                    if matches!(self.phase, SubscriptionPhase::Delivering) {
                        self.phase = SubscriptionPhase::Stopped { reason: StopReason::Detached };
                    }
                    SubscriptionAction::Idle
                },
                SubscriptionEvent::ChangeSignalled => {
                    if matches!(self.phase, SubscriptionPhase::Waiting) {
                        self.phase = SubscriptionPhase::Computing;
                        self.cycles = bump(self.cycles);
                        SubscriptionAction::StartCompute
                    } else {
                        SubscriptionAction::Idle
                    }
                },
            },
        }
    }

    /// Whether no further cycle will be scheduled.
    pub fn is_stopped(&self) -> (r: bool)
        ensures
            r == (self.phase is Stopped),
    {
        matches!(self.phase, SubscriptionPhase::Stopped { .. })
    }
}

/// `n + 1`, frozen at the top of the counter's range.
fn bump(n: u64) -> (r: u64)
    ensures
        r == spec_bump(n),
{
    if n == u64::MAX {
        n
    } else {
        n + 1
    }
}

/// A stopped subscription is final: no sequence of further events changes
/// its state, so in particular no further compute cycle begins.
pub proof fn lemma_stopped_is_final(s: Subscription, events: Seq<SubscriptionEvent>)
    requires
        s.phase is Stopped,
    ensures
        spec_run(s, events) == s,
    decreases events.len(),
{
    if events.len() > 0 {
        assert(spec_step(s, events[0]).0 == s);
        lemma_stopped_is_final(s, events.skip(1));
    }
}

/// Once the sink reports detach, the subscription never computes again:
/// whatever events follow, the cycle counter stays where it was.
pub proof fn lemma_detach_stops_compute(s: Subscription, events: Seq<SubscriptionEvent>)
    requires
        s.phase is Delivering,
    ensures
        ({
            let stopped = spec_step(s, SubscriptionEvent::DeliveryDetached).0;
            &&& stopped.phase == (SubscriptionPhase::Stopped { reason: StopReason::Detached })
            &&& spec_run(stopped, events).cycles == s.cycles
        }),
{
    let stopped = spec_step(s, SubscriptionEvent::DeliveryDetached).0;
    lemma_stopped_is_final(stopped, events);
}

/// The counter invariant a subscription keeps: accepted deliveries never
/// pass the cycles begun, and while a cycle is computing or delivering its
/// own delivery is still outstanding.
pub open spec fn counters_wf(s: Subscription) -> bool {
    &&& s.deliveries <= s.cycles
    &&& (s.phase is Computing || s.phase is Delivering) ==> (s.deliveries < s.cycles || s.cycles
        == u64::MAX)
}

/// Deliveries stay behind compute cycles: within one subscription, cycle
/// N's delivery happens before cycle N+1's compute step begins, so the
/// number of accepted deliveries never passes the number of cycles begun,
/// whatever the host reports.
pub proof fn lemma_deliveries_follow_cycles(s: Subscription, event: SubscriptionEvent)
    requires
        counters_wf(s),
    ensures
        counters_wf(spec_step(s, event).0),
        spec_step(s, event).0.deliveries <= spec_step(s, event).0.cycles,
{
}

/// Tearing the owning container down stops the subscription whatever phase
/// it is in: it cannot outlive its container.
pub proof fn lemma_teardown_always_stops(s: Subscription)
    requires
        !(s.phase is Stopped),
    ensures
        spec_step(s, SubscriptionEvent::Teardown).0.phase == (SubscriptionPhase::Stopped {
            reason: StopReason::TornDown,
        }),
{
}

} // verus!
