use crate::endpoints::BASE_ADDRESS;
use crate::readiness::{observed, ReadinessEvidence, ReadinessState, ReadyCause};
use vstd::prelude::*;

verus! {

/// Timing and budget of the health-probe poller. Durations are in milliseconds.
#[derive(Clone, Copy, Debug, PartialEq, Eq, Structural)]
pub struct ProbePolicy {
    /// How long to leave the service alone before the first probe.
    pub settle_delay_ms: u64,
    /// How long to wait after a failed probe before the next one.
    pub interval_ms: u64,
    /// How long a single probe may take before it counts as failed.
    pub attempt_timeout_ms: u64,
    /// How many probes may be issued in all.
    pub max_attempts: u32,
}

impl ProbePolicy {
    /// Two seconds of settling, then up to sixty probes a second apart, each
    /// given one second to answer.
    pub fn standard() -> (policy: Self)
        ensures
            policy == (ProbePolicy {
                settle_delay_ms: 2000,
                interval_ms: 1000,
                attempt_timeout_ms: 1000,
                max_attempts: 60,
            }),
    {
        ProbePolicy {
            settle_delay_ms: 2000,
            interval_ms: 1000,
            attempt_timeout_ms: 1000,
            max_attempts: 60,
        }
    }
}

/// Where the poller stands.
#[derive(Clone, Copy, Debug, PartialEq, Eq, Structural)]
pub enum PollerPhase {
    /// Not started yet.
    Idle,
    /// Waiting out the initial settle delay.
    Settling,
    /// A probe is in flight.
    Probing,
    /// Waiting out the interval after a failed probe.
    Resting,
    /// Done: no further probe will be issued.
    Finished,
}

/// What the poller is told.
#[derive(Clone, Copy, Debug, PartialEq, Eq, Structural)]
pub enum PollerEvent {
    /// The poller is set going.
    Start,
    /// The delay asked for by the last `Wait` has passed.
    TimerElapsed,
    /// The probe asked for by the last `Probe` has ended: with a response of
    /// any status, or without one (refused, timed out).
    ProbeFinished { responded: bool, status: Option<u16> },
}

/// Why the poller stopped without announcing readiness itself.
#[derive(Clone, Copy, Debug, PartialEq, Eq, Structural)]
pub enum StopReason {
    /// The service was found ready by another path.
    Superseded,
    /// Every probe of the budget failed.
    Exhausted,
}

/// What the poller asks its driver to do next.
#[derive(Clone, Copy, Debug, PartialEq, Eq)]
pub enum PollerAction {
    /// Nothing: the event did not concern the poller in its present phase.
    Ignore,
    /// Sleep, then report `TimerElapsed`.
    Wait { ms: u64 },
    /// Issue one GET to `address` with the given timeout, then report
    /// `ProbeFinished`.
    Probe { address: &'static str, timeout_ms: u64 },
    /// This poller made the service ready: announce it, then stop.
    Announce { cause: ReadyCause },
    /// Stop quietly.
    Stop { reason: StopReason },
}

/// The poller's own state: its phase and the number of probes issued so far.
#[derive(Clone, Copy, Debug, PartialEq, Eq, Structural)]
pub struct PollerState {
    pub phase: PollerPhase,
    pub attempts: u32,
}

/// The poller's transition: from its state, the shared readiness flag and an
/// event to the next state, the next flag and the action to take.
pub open spec fn poll(
    policy: ProbePolicy,
    state: PollerState,
    ready: bool,
    event: PollerEvent,
) -> (PollerState, bool, PollerAction) {
    match (state.phase, event) {
        (PollerPhase::Idle, PollerEvent::Start) => (
            PollerState { phase: PollerPhase::Settling, attempts: state.attempts },
            ready,
            PollerAction::Wait { ms: policy.settle_delay_ms },
        ),
        (PollerPhase::Settling, PollerEvent::TimerElapsed)
        | (PollerPhase::Resting, PollerEvent::TimerElapsed) => {
            if ready {
                (
                    PollerState { phase: PollerPhase::Finished, attempts: state.attempts },
                    ready,
                    PollerAction::Stop { reason: StopReason::Superseded },
                )
            } else if state.attempts >= policy.max_attempts {
                (
                    PollerState { phase: PollerPhase::Finished, attempts: state.attempts },
                    ready,
                    PollerAction::Stop { reason: StopReason::Exhausted },
                )
            } else {
                (
                    PollerState {
                        phase: PollerPhase::Probing,
                        attempts: (state.attempts + 1) as u32,
                    },
                    ready,
                    PollerAction::Probe {
                        address: BASE_ADDRESS,
                        timeout_ms: policy.attempt_timeout_ms,
                    },
                )
            }
        },
        (PollerPhase::Probing, PollerEvent::ProbeFinished { responded, status }) => {
            if responded {
                let (next, fired) = observed(
                    ready,
                    ReadinessEvidence::ProbeResult { responded, status },
                );
                (
                    PollerState { phase: PollerPhase::Finished, attempts: state.attempts },
                    next,
                    match fired {
                        Some(cause) => PollerAction::Announce { cause },
                        None => PollerAction::Stop { reason: StopReason::Superseded },
                    },
                )
            } else {
                (
                    PollerState { phase: PollerPhase::Resting, attempts: state.attempts },
                    ready,
                    PollerAction::Wait { ms: policy.interval_ms },
                )
            }
        },
        _ => (state, ready, PollerAction::Ignore),
    }
}

/// The health-probe poller: one of the two producers of readiness evidence.
#[derive(Debug)]
pub struct ProbePoller {
    policy: ProbePolicy,
    state: PollerState,
}

impl ProbePoller {
    /// The policy the poller was made with.
    pub closed spec fn policy(&self) -> ProbePolicy {
        self.policy
    }

    /// The poller's present state.
    pub closed spec fn state(&self) -> PollerState {
        self.state
    }

    /// The poller never issues more probes than its budget allows.
    pub open spec fn within_budget(&self) -> bool {
        self.state().attempts <= self.policy().max_attempts
    }

    /// A poller that has not started and has issued no probe.
    pub fn new(policy: ProbePolicy) -> (poller: Self)
        ensures
            poller.policy() == policy,
            poller.state() == (PollerState { phase: PollerPhase::Idle, attempts: 0 }),
            poller.within_budget(),
    {
        ProbePoller { policy, state: PollerState { phase: PollerPhase::Idle, attempts: 0 } }
    }

    /// The poller's present phase.
    pub fn phase(&self) -> (phase: PollerPhase)
        ensures
            phase == self.state().phase,
    {
        self.state.phase
    }

    /// The number of probes issued so far.
    pub fn attempts(&self) -> (n: u32)
        ensures
            n == self.state().attempts,
    {
        self.state.attempts
    }

    /// Takes one event and says what to do next. A probe that was answered
    /// attempts the transition to ready on the shared state; the poller
    /// announces readiness only when that attempt was the one that succeeded.
    pub fn step(
        &mut self,
        event: PollerEvent,
        readiness: &mut ReadinessState,
    ) -> (action: PollerAction)
        ensures
            final(self).policy() == old(self).policy(),
            (final(self).state(), final(readiness).ready(), action) == poll(
                old(self).policy(),
                old(self).state(),
                old(readiness).ready(),
                event,
            ),
            old(self).within_budget() ==> final(self).within_budget(),
    {
        match (self.state.phase, event) {
            (PollerPhase::Idle, PollerEvent::Start) => {
                self.state.phase = PollerPhase::Settling;
                PollerAction::Wait { ms: self.policy.settle_delay_ms }
            },
            (PollerPhase::Settling, PollerEvent::TimerElapsed)
            | (PollerPhase::Resting, PollerEvent::TimerElapsed) => {
                if readiness.is_ready() {
                    self.state.phase = PollerPhase::Finished;
                    PollerAction::Stop { reason: StopReason::Superseded }
                } else if self.state.attempts >= self.policy.max_attempts {
                    self.state.phase = PollerPhase::Finished;
                    PollerAction::Stop { reason: StopReason::Exhausted }
                } else {
                    self.state.phase = PollerPhase::Probing;
                    self.state.attempts = self.state.attempts + 1;
                    PollerAction::Probe {
                        address: BASE_ADDRESS,
                        timeout_ms: self.policy.attempt_timeout_ms,
                    }
                }
            },
            (PollerPhase::Probing, PollerEvent::ProbeFinished { responded, status }) => {
                if responded {
                    self.state.phase = PollerPhase::Finished;
                    let evidence = ReadinessEvidence::ProbeResult { responded, status };
                    match readiness.observe(&evidence) {
                        Some(cause) => PollerAction::Announce { cause },
                        None => PollerAction::Stop { reason: StopReason::Superseded },
                    }
                } else {
                    self.state.phase = PollerPhase::Resting;
                    PollerAction::Wait { ms: self.policy.interval_ms }
                }
            },
            _ => PollerAction::Ignore,
        }
    }
}

/// The state of a poller that was started and has seen `failures` probes go
/// unanswered, each followed by its interval.
pub open spec fn after_failures(failures: nat) -> PollerState {
    PollerState {
        phase: if failures == 0 {
            PollerPhase::Settling
        } else {
            PollerPhase::Resting
        },
        attempts: failures as u32,
    }
}

/// Starting an idle poller asks for the settle delay and nothing else.
pub proof fn law_start_settles(policy: ProbePolicy, ready: bool)
    ensures
        ({
            let idle = PollerState { phase: PollerPhase::Idle, attempts: 0 };
            poll(policy, idle, ready, PollerEvent::Start) == (
                after_failures(0),
                ready,
                PollerAction::Wait { ms: policy.settle_delay_ms },
            )
        }),
{
}

/// While the service is not ready and budget is left, a timer tick issues the
/// next probe, and a probe that goes unanswered leads to one more interval:
/// a failed round moves the poller from `failures` to `failures + 1`.
pub proof fn law_failed_round(policy: ProbePolicy, failures: nat, status: Option<u16>)
    requires
        failures < policy.max_attempts,
    ensures
        ({
            let tick = PollerEvent::TimerElapsed;
            let failure = PollerEvent::ProbeFinished { responded: false, status };
            let (probing, ready, asked) = poll(policy, after_failures(failures), false, tick);
            &&& asked == PollerAction::Probe {
                address: BASE_ADDRESS,
                timeout_ms: policy.attempt_timeout_ms,
            }
            &&& !ready
            &&& probing.attempts == failures + 1
            &&& poll(policy, probing, false, failure) == (
                after_failures(failures + 1),
                false,
                PollerAction::Wait { ms: policy.interval_ms },
            )
        }),
{
}

/// After any number of failures within the budget, the first probe that is
/// answered makes the service ready at that attempt, whatever its status, and
/// the poller announces it and is finished.
pub proof fn law_first_answer_wins(policy: ProbePolicy, failures: nat, status: Option<u16>)
    requires
        failures < policy.max_attempts,
    ensures
        ({
            let tick = PollerEvent::TimerElapsed;
            let answer = PollerEvent::ProbeFinished { responded: true, status };
            let (probing, _, _) = poll(policy, after_failures(failures), false, tick);
            poll(policy, probing, false, answer) == (
                PollerState { phase: PollerPhase::Finished, attempts: (failures + 1) as u32 },
                true,
                PollerAction::Announce { cause: ReadyCause::Probe },
            )
        }),
{
}

/// When every probe of the budget has failed, the next tick ends the poller
/// quietly: no further probe, no announcement, readiness untouched.
pub proof fn law_budget_exhausted(policy: ProbePolicy)
    ensures
        ({
            let spent = after_failures(policy.max_attempts as nat);
            poll(policy, spent, false, PollerEvent::TimerElapsed) == (
                PollerState { phase: PollerPhase::Finished, attempts: policy.max_attempts },
                false,
                PollerAction::Stop { reason: StopReason::Exhausted },
            )
        }),
{
}

/// A finished poller ignores every event: it issues no probe, announces
/// nothing and leaves readiness as it is.
pub proof fn law_finished_is_inert(
    policy: ProbePolicy,
    attempts: u32,
    ready: bool,
    event: PollerEvent,
)
    ensures
        ({
            let finished = PollerState { phase: PollerPhase::Finished, attempts };
            poll(policy, finished, ready, event) == (finished, ready, PollerAction::Ignore)
        }),
{
}

/// Every probe that is asked for is counted, nothing else is, and the count
/// never passes the budget: a poller within its budget stays within it.
pub proof fn law_probes_are_counted(
    policy: ProbePolicy,
    state: PollerState,
    ready: bool,
    event: PollerEvent,
)
    requires
        state.attempts <= policy.max_attempts,
    ensures
        ({
            let (next, _, action) = poll(policy, state, ready, event);
            &&& next.attempts <= policy.max_attempts
            &&& action is Probe ==> next.attempts == state.attempts + 1
            &&& !(action is Probe) ==> next.attempts == state.attempts
        }),
{
}

/// A probe is never asked for while the service is known to be ready.
pub proof fn law_no_probe_once_ready(policy: ProbePolicy, state: PollerState, event: PollerEvent)
    ensures
        !(poll(policy, state, true, event).2 is Probe),
{
}

/// The poller never turns a ready service back to not ready, and it announces
/// readiness only in the step that made the service ready.
pub proof fn law_poller_respects_latch(
    policy: ProbePolicy,
    state: PollerState,
    ready: bool,
    event: PollerEvent,
)
    ensures
        ({
            let (_, after, action) = poll(policy, state, ready, event);
            &&& ready ==> after
            &&& action is Announce <==> !ready && after
        }),
{
}

} // verus!
