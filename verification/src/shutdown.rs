use crate::endpoints::SHUTDOWN_ADDRESS;
use crate::supervisor::{after_take, Lifecycle, Supervisor};
use vstd::prelude::*;

verus! {

/// Timing of the shutdown sequence. Durations are in milliseconds.
#[derive(Clone, Copy, Debug, PartialEq, Eq, Structural)]
pub struct ShutdownPolicy {
    /// How long the graceful-stop request may take before it counts as failed.
    pub stop_timeout_ms: u64,
    /// How long the service is given to exit on its own before it is killed.
    pub grace_period_ms: u64,
}

impl ShutdownPolicy {
    /// Thirty seconds for the graceful-stop request, one second of grace.
    pub fn standard() -> (policy: Self)
        ensures
            policy == (ShutdownPolicy { stop_timeout_ms: 30000, grace_period_ms: 1000 }),
    {
        ShutdownPolicy { stop_timeout_ms: 30000, grace_period_ms: 1000 }
    }
}

/// How the graceful-stop request ended. None of these is fatal: the sequence
/// goes on the same way after each.
#[derive(Clone, Copy, Debug, PartialEq, Eq, Structural)]
pub enum StopOutcome {
    /// The service answered with a success status.
    Acknowledged { status: u16 },
    /// The service answered with another status.
    Rejected { status: u16 },
    /// No answer: the connection failed or the request timed out.
    Unreachable,
}

/// Whether an HTTP status code is a success code: 200 to 299.
pub open spec fn is_success_status(status: u16) -> bool {
    200 <= status < 300
}

/// The outcome that a reply to the graceful-stop request stands for. `None`
/// is a request that got no response.
pub open spec fn stop_outcome_of(reply: Option<u16>) -> StopOutcome {
    match reply {
        Some(status) => if is_success_status(status) {
            StopOutcome::Acknowledged { status }
        } else {
            StopOutcome::Rejected { status }
        },
        None => StopOutcome::Unreachable,
    }
}

/// Classifies the reply to the graceful-stop request, given as the status
/// code of the response, or `None` where no response came.
pub fn classify_stop(reply: Option<u16>) -> (outcome: StopOutcome)
    ensures
        outcome == stop_outcome_of(reply),
{
    match reply {
        Some(status) => if 200 <= status && status < 300 {
            StopOutcome::Acknowledged { status }
        } else {
            StopOutcome::Rejected { status }
        },
        None => StopOutcome::Unreachable,
    }
}

/// Where the shutdown sequence stands.
#[derive(Clone, Copy, Debug, PartialEq, Eq, Structural)]
pub enum ShutdownPhase {
    /// No close has been requested.
    Idle,
    /// The graceful-stop request is in flight.
    Stopping,
    /// The grace period is running.
    Grace,
    /// The kill is being carried out.
    Killing,
    /// The host application has been told to exit.
    Exiting,
}

/// What the shutdown coordinator is told.
#[derive(Clone, Copy, Debug, PartialEq, Eq, Structural)]
pub enum ShutdownEvent {
    /// The user asked to close the window.
    CloseRequested,
    /// The graceful-stop request ended.
    StopFinished { outcome: StopOutcome },
    /// The grace period has passed.
    GraceElapsed,
    /// The kill was attempted; `killed` says whether it succeeded.
    KillFinished { killed: bool },
}

/// What the shutdown coordinator asks its driver to do next.
#[derive(Debug, PartialEq, Eq)]
pub enum ShutdownAction<H> {
    /// Nothing: the event did not concern the sequence in its present phase.
    Ignore,
    /// Ask the service to stop by a GET to `address`, waiting at most
    /// `timeout_ms` for the answer, then report `StopFinished`.
    RequestStop { address: &'static str, timeout_ms: u64 },
    /// Sleep, then report `GraceElapsed`.
    Wait { ms: u64 },
    /// Kill the process behind this handle, then report `KillFinished`.
    Kill { handle: H },
    /// Terminate the host application with this exit code.
    Exit { code: i32 },
}

/// The exit code of a close that the user asked for.
pub const EXIT_SUCCESS: i32 = 0;

/// The sequence's transition: from the phase, the handle that the supervisor
/// holds and an event to the next phase and the action to take.
pub open spec fn shut<H>(
    policy: ShutdownPolicy,
    phase: ShutdownPhase,
    held: Option<H>,
    event: ShutdownEvent,
) -> (ShutdownPhase, ShutdownAction<H>) {
    match (phase, event) {
        (ShutdownPhase::Idle, ShutdownEvent::CloseRequested) => (
            ShutdownPhase::Stopping,
            ShutdownAction::RequestStop {
                address: SHUTDOWN_ADDRESS,
                timeout_ms: policy.stop_timeout_ms,
            },
        ),
        (ShutdownPhase::Stopping, ShutdownEvent::StopFinished { outcome }) => (
            ShutdownPhase::Grace,
            ShutdownAction::Wait { ms: policy.grace_period_ms },
        ),
        (ShutdownPhase::Grace, ShutdownEvent::GraceElapsed) => match held {
            Some(handle) => (ShutdownPhase::Killing, ShutdownAction::Kill { handle }),
            None => (ShutdownPhase::Exiting, ShutdownAction::Exit { code: EXIT_SUCCESS }),
        },
        (ShutdownPhase::Killing, ShutdownEvent::KillFinished { killed }) => (
            ShutdownPhase::Exiting,
            ShutdownAction::Exit { code: EXIT_SUCCESS },
        ),
        _ => (phase, ShutdownAction::Ignore),
    }
}

/// What a step of the sequence does to the supervised process: the step
/// that follows the grace period takes the handle, if one is held, and the
/// process is then being killed; every other step leaves both as they are.
pub open spec fn process_after<H>(
    phase: ShutdownPhase,
    event: ShutdownEvent,
    held: Option<H>,
    lifecycle: Lifecycle,
) -> (Option<H>, Lifecycle) {
    if phase == ShutdownPhase::Grace && event == ShutdownEvent::GraceElapsed {
        (None, after_take(held, lifecycle))
    } else {
        (held, lifecycle)
    }
}

/// The two-phase shutdown sequence: ask the service to stop, give it a grace
/// period, kill it if it is still there, and exit.
#[derive(Debug)]
pub struct ShutdownCoordinator {
    policy: ShutdownPolicy,
    phase: ShutdownPhase,
}

impl ShutdownCoordinator {
    /// The policy the coordinator was made with.
    pub closed spec fn policy(&self) -> ShutdownPolicy {
        self.policy
    }

    /// The coordinator's present phase.
    pub closed spec fn phase(&self) -> ShutdownPhase {
        self.phase
    }

    /// A coordinator that has seen no close request.
    pub fn new(policy: ShutdownPolicy) -> (coordinator: Self)
        ensures
            coordinator.policy() == policy,
            coordinator.phase() == ShutdownPhase::Idle,
    {
        ShutdownCoordinator { policy, phase: ShutdownPhase::Idle }
    }

    /// Reads the phase.
    pub fn current_phase(&self) -> (phase: ShutdownPhase)
        ensures
            phase == self.phase(),
    {
        self.phase
    }

    /// Takes one event and says what to do next. Only the step that follows
    /// the grace period touches the supervisor: it takes the handle, if one
    /// is still held, so that nobody else can kill the process again.
    pub fn step<H>(
        &mut self,
        event: ShutdownEvent,
        supervisor: &mut Supervisor<H>,
    ) -> (action: ShutdownAction<H>)
        ensures
            final(self).policy() == old(self).policy(),
            (final(self).phase(), action) == shut(
                old(self).policy(),
                old(self).phase(),
                old(supervisor).handle(),
                event,
            ),
            (final(supervisor).handle(), final(supervisor).lifecycle()) == process_after(
                old(self).phase(),
                event,
                old(supervisor).handle(),
                old(supervisor).lifecycle(),
            ),
    {
        match (self.phase, event) {
            (ShutdownPhase::Idle, ShutdownEvent::CloseRequested) => {
                self.phase = ShutdownPhase::Stopping;
                ShutdownAction::RequestStop {
                    address: SHUTDOWN_ADDRESS,
                    timeout_ms: self.policy.stop_timeout_ms,
                }
            },
            (ShutdownPhase::Stopping, ShutdownEvent::StopFinished { outcome: _ }) => {
                self.phase = ShutdownPhase::Grace;
                ShutdownAction::Wait { ms: self.policy.grace_period_ms }
            },
            (ShutdownPhase::Grace, ShutdownEvent::GraceElapsed) => {
                match supervisor.take_for_kill() {
                    Some(handle) => {
                        self.phase = ShutdownPhase::Killing;
                        ShutdownAction::Kill { handle }
                    },
                    None => {
                        self.phase = ShutdownPhase::Exiting;
                        ShutdownAction::Exit { code: EXIT_SUCCESS }
                    },
                }
            },
            (ShutdownPhase::Killing, ShutdownEvent::KillFinished { killed: _ }) => {
                self.phase = ShutdownPhase::Exiting;
                ShutdownAction::Exit { code: EXIT_SUCCESS }
            },
            _ => ShutdownAction::Ignore,
        }
    }
}

/// The longest that carrying out an action may take, in milliseconds: a
/// request is bounded by its timeout, a wait by its length; killing and
/// exiting do not wait.
pub open spec fn time_bound<H>(action: ShutdownAction<H>) -> nat {
    match action {
        ShutdownAction::RequestStop { address, timeout_ms } => timeout_ms as nat,
        ShutdownAction::Wait { ms } => ms as nat,
        _ => 0,
    }
}

/// The actions of one whole shutdown sequence, from the close request on,
/// for given outcomes of the stop request and of the kill and a given
/// handle held by the supervisor when the grace period ends.
pub open spec fn shutdown_run<H>(
    policy: ShutdownPolicy,
    held: Option<H>,
    stop: StopOutcome,
    killed: bool,
) -> Seq<ShutdownAction<H>> {
    let (p1, a1) = shut(policy, ShutdownPhase::Idle, held, ShutdownEvent::CloseRequested);
    let (p2, a2) = shut(policy, p1, held, ShutdownEvent::StopFinished { outcome: stop });
    let (p3, a3) = shut(policy, p2, held, ShutdownEvent::GraceElapsed);
    if p3 == ShutdownPhase::Exiting {
        seq![a1, a2, a3]
    } else {
        let (p4, a4) = shut(policy, p3, None::<H>, ShutdownEvent::KillFinished { killed });
        seq![a1, a2, a3, a4]
    }
}

/// The sum of the time bounds of a sequence of actions.
pub open spec fn total_time_bound<H>(actions: Seq<ShutdownAction<H>>) -> nat
    decreases actions.len(),
{
    if actions.len() == 0 {
        0
    } else {
        time_bound(actions.last()) + total_time_bound(actions.drop_last())
    }
}

/// Whatever becomes of the stop request and of the kill, the sequence asks
/// for the stop, waits the grace period, kills the process if and only if a
/// handle is still held, and ends by exiting with the success code.
pub proof fn law_shutdown_always_exits<H>(
    policy: ShutdownPolicy,
    held: Option<H>,
    stop: StopOutcome,
    killed: bool,
)
    ensures
        ({
            let run = shutdown_run(policy, held, stop, killed);
            &&& run[0] == ShutdownAction::<H>::RequestStop {
                address: SHUTDOWN_ADDRESS,
                timeout_ms: policy.stop_timeout_ms,
            }
            &&& run[1] == ShutdownAction::<H>::Wait { ms: policy.grace_period_ms }
            &&& run.last() == ShutdownAction::<H>::Exit { code: EXIT_SUCCESS }
            &&& match held {
                Some(handle) => run =~= seq![
                    run[0],
                    run[1],
                    ShutdownAction::Kill { handle },
                    run.last(),
                ],
                None => run =~= seq![run[0], run[1], run.last()],
            }
        }),
{
}

/// A sequence that finds no handle, because the process has exited or the
/// handle was taken by an earlier sequence, kills nothing and still exits.
pub proof fn law_no_handle_no_kill<H>(policy: ShutdownPolicy, stop: StopOutcome, killed: bool)
    ensures
        ({
            let run = shutdown_run(policy, None::<H>, stop, killed);
            &&& forall|i: int| 0 <= i < run.len() ==> !(#[trigger] run[i] is Kill)
            &&& run.last() == ShutdownAction::<H>::Exit { code: EXIT_SUCCESS }
        }),
{
}

/// The whole sequence is bounded in time by the stop request's timeout plus
/// the grace period, also when the stop request hangs until it times out.
pub proof fn law_shutdown_time_bound<H>(
    policy: ShutdownPolicy,
    held: Option<H>,
    stop: StopOutcome,
    killed: bool,
)
    ensures
        total_time_bound(shutdown_run(policy, held, stop, killed)) == policy.stop_timeout_ms
            + policy.grace_period_ms,
{
    let run = shutdown_run(policy, held, stop, killed);
    reveal_with_fuel(total_time_bound, 5);
    if held is Some {
        assert(run.drop_last().drop_last().drop_last().drop_last() =~= Seq::empty());
        assert(run.drop_last().drop_last().drop_last() =~= seq![run[0]]);
        assert(run.drop_last().drop_last() =~= seq![run[0], run[1]]);
        assert(run.drop_last() =~= seq![run[0], run[1], run[2]]);
    } else {
        assert(run.drop_last().drop_last().drop_last() =~= Seq::empty());
        assert(run.drop_last().drop_last() =~= seq![run[0]]);
        assert(run.drop_last() =~= seq![run[0], run[1]]);
    }
}

/// Once the sequence has reached its exit, or while it is under way, a
/// further close request changes nothing and asks for nothing.
pub proof fn law_second_close_is_ignored<H>(
    policy: ShutdownPolicy,
    phase: ShutdownPhase,
    held: Option<H>,
)
    requires
        phase != ShutdownPhase::Idle,
    ensures
        shut(policy, phase, held, ShutdownEvent::CloseRequested) == (
            phase,
            ShutdownAction::<H>::Ignore,
        ),
{
}

} // verus!
