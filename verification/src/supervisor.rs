use crate::decode::{decode_line, line_text};
use crate::readiness::{announce, cause_of_line, ReadinessState, ReadyCause, StreamOrigin};
use vstd::prelude::*;

verus! {

/// Why the service could not be started. Either is fatal to startup.
#[derive(Clone, Copy, Debug, PartialEq, Eq, Structural)]
pub enum SpawnError {
    /// The executable could not be located.
    ExecutableNotFound,
    /// The operating system refused to create the process.
    Refused,
}

/// One record of the service's output, as the process boundary yields it.
#[derive(Debug)]
pub enum OutputRecord {
    /// Raw bytes of a line written to standard output.
    Stdout(Vec<u8>),
    /// Raw bytes of a line written to standard error.
    Stderr(Vec<u8>),
    /// Reading the service's output failed.
    ProcessError(String),
    /// The service has exited, with its exit code where one is known.
    Terminated(Option<i32>),
}

/// The life of the supervised process.
#[derive(Clone, Copy, Debug, PartialEq, Eq, Structural)]
pub enum Lifecycle {
    /// No spawn has been recorded.
    NotSpawned,
    /// The spawn failed; there is no process.
    SpawnFailed,
    /// The process was spawned and its handle is held.
    Running,
    /// The handle was taken in order to kill the process.
    Killed,
    /// The process was seen to exit.
    Exited { code: Option<i32> },
}

/// What the supervisor makes of one output record, for its driver to log and
/// act on.
#[derive(Debug, PartialEq, Eq)]
pub enum SupervisorAction {
    /// A line was decoded and shown to the readiness detector. `announce`
    /// holds the cause when this very line made the service ready.
    Line { text: String, origin: StreamOrigin, announce: Option<ReadyCause> },
    /// Reading failed; supervision goes on.
    Fault { message: String },
    /// The service exited; it is not restarted.
    Exit { code: Option<i32> },
}

/// The lifecycle after the handle was asked for in order to kill: a process
/// whose handle was held is now being killed; otherwise nothing changes.
pub open spec fn after_take<H>(held: Option<H>, lifecycle: Lifecycle) -> Lifecycle {
    if held is Some {
        Lifecycle::Killed
    } else {
        lifecycle
    }
}

/// The lifecycle after the process was seen to exit: a process that was
/// running or being killed has exited; where there was none, nothing changes.
pub open spec fn after_exit(lifecycle: Lifecycle, code: Option<i32>) -> Lifecycle {
    match lifecycle {
        Lifecycle::Running | Lifecycle::Killed => Lifecycle::Exited { code },
        _ => lifecycle,
    }
}

/// Owner of the service process for the whole run. `H` is the handle by which
/// the process can be killed; the supervisor holds it exactly while the
/// process is running.
pub struct Supervisor<H> {
    handle: Option<H>,
    lifecycle: Lifecycle,
}

impl<H> Supervisor<H> {
    #[verifier::type_invariant]
    spec fn handle_held_while_running(self) -> bool {
        self.handle is Some <==> self.lifecycle == Lifecycle::Running
    }

    /// The handle, while it is held.
    pub closed spec fn handle(&self) -> Option<H> {
        self.handle
    }

    /// The life of the process as the supervisor knows it.
    pub closed spec fn lifecycle(&self) -> Lifecycle {
        self.lifecycle
    }

    /// A supervisor with no process yet.
    pub fn new() -> (supervisor: Self)
        ensures
            supervisor.lifecycle() == Lifecycle::NotSpawned,
            supervisor.handle() is None,
    {
        Supervisor { handle: None, lifecycle: Lifecycle::NotSpawned }
    }

    /// Reads the lifecycle.
    pub fn status(&self) -> (lifecycle: Lifecycle)
        ensures
            lifecycle == self.lifecycle(),
    {
        self.lifecycle
    }

    /// Whether a handle is held, that is, whether there is a process to kill.
    pub fn holds_process(&self) -> (held: bool)
        ensures
            held == (self.handle() is Some),
            held == (self.lifecycle() == Lifecycle::Running),
    {
        proof {
            use_type_invariant(self);
        }
        self.handle.is_some()
    }

    /// Records how the spawn went. On success the supervisor takes the handle
    /// and the process is running; on failure the error is handed back as
    /// fatal and there is no process. A run spawns its service once.
    pub fn adopt(&mut self, outcome: Result<H, SpawnError>) -> (result: Result<(), SpawnError>)
        requires
            old(self).lifecycle() == Lifecycle::NotSpawned,
        ensures
            (match outcome {
                Ok(handle) => {
                    &&& result == Ok::<(), SpawnError>(())
                    &&& final(self).handle() == Some(handle)
                    &&& final(self).lifecycle() == Lifecycle::Running
                },
                Err(error) => {
                    &&& result == Err::<(), SpawnError>(error)
                    &&& final(self).handle() is None
                    &&& final(self).lifecycle() == Lifecycle::SpawnFailed
                },
            }),
    {
        match outcome {
            Ok(handle) => {
                *self = Supervisor { handle: Some(handle), lifecycle: Lifecycle::Running };
                Ok(())
            },
            Err(error) => {
                *self = Supervisor { handle: None, lifecycle: Lifecycle::SpawnFailed };
                Err(error)
            },
        }
    }

    /// Takes the handle out in order to kill the process. Whoever gets `Some`
    /// is the one actor that performs the kill; every later call, and every
    /// call after the process has exited, gets `None` and changes nothing.
    pub fn take_for_kill(&mut self) -> (taken: Option<H>)
        ensures
            taken == old(self).handle(),
            final(self).handle() is None,
            final(self).lifecycle() == after_take(old(self).handle(), old(self).lifecycle()),
    {
        proof {
            use_type_invariant(&*self);
        }
        if self.handle.is_some() {
            let mut previous = Supervisor { handle: None, lifecycle: Lifecycle::Killed };
            core::mem::swap(self, &mut previous);
            previous.handle
        } else {
            None
        }
    }

    /// Handles one output record. A line from either stream is decoded with
    /// substitution for invalid bytes and shown to the readiness detector; a
    /// read fault is passed on for logging and supervision goes on; an exit
    /// releases the handle and is final: the service is not restarted.
    pub fn on_record(
        &mut self,
        record: OutputRecord,
        readiness: &mut ReadinessState,
    ) -> (action: SupervisorAction)
        ensures
            record_handled(
                record,
                (old(self).handle(), old(self).lifecycle(), old(readiness).ready()),
                (final(self).handle(), final(self).lifecycle(), final(readiness).ready()),
                action,
            ),
    {
        match record {
            OutputRecord::Stdout(bytes) => forward_line(bytes, StreamOrigin::Stdout, readiness),
            OutputRecord::Stderr(bytes) => forward_line(bytes, StreamOrigin::Stderr, readiness),
            OutputRecord::ProcessError(message) => SupervisorAction::Fault { message },
            OutputRecord::Terminated(code) => {
                proof {
                    use_type_invariant(&*self);
                }
                match self.lifecycle {
                    Lifecycle::Running | Lifecycle::Killed => {
                        *self = Supervisor { handle: None, lifecycle: Lifecycle::Exited { code } };
                    },
                    _ => {},
                }
                SupervisorAction::Exit { code }
            },
        }
    }
}

/// What showing a decoded line to the detector comes to: the action carries
/// the line and its origin, and the readiness flag and the announcement are
/// those of the detector's step on that line.
pub open spec fn text_handled(
    text: Seq<char>,
    origin: StreamOrigin,
    ready_before: bool,
    ready_after: bool,
    action: SupervisorAction,
) -> bool {
    &&& action matches SupervisorAction::Line { text: shown, origin: from, announce: fired }
    &&& shown@ == text
    &&& from == origin
    &&& (ready_after, fired) == announce(ready_before, cause_of_line(text, origin))
}

/// What handling the raw bytes of a line comes to: what showing the text
/// they stand for to the detector comes to.
pub open spec fn line_handled(
    bytes: Seq<u8>,
    origin: StreamOrigin,
    ready_before: bool,
    ready_after: bool,
    action: SupervisorAction,
) -> bool {
    text_handled(line_text(bytes), origin, ready_before, ready_after, action)
}

/// What handling an output record comes to, from the handle, the lifecycle
/// and the readiness flag before it to those after it and the action.
///
/// A line from either stream goes to the detector and leaves the process as
/// it is. A read fault changes nothing. An exit releases the handle and is
/// recorded in the lifecycle; readiness is left alone.
pub open spec fn record_handled<H>(
    record: OutputRecord,
    before: (Option<H>, Lifecycle, bool),
    after: (Option<H>, Lifecycle, bool),
    action: SupervisorAction,
) -> bool {
    match record {
        OutputRecord::Stdout(bytes) => {
            &&& line_handled(bytes@, StreamOrigin::Stdout, before.2, after.2, action)
            &&& after.0 == before.0
            &&& after.1 == before.1
        },
        OutputRecord::Stderr(bytes) => {
            &&& line_handled(bytes@, StreamOrigin::Stderr, before.2, after.2, action)
            &&& after.0 == before.0
            &&& after.1 == before.1
        },
        OutputRecord::ProcessError(message) => {
            &&& action == (SupervisorAction::Fault { message })
            &&& after == before
        },
        OutputRecord::Terminated(code) => {
            &&& action == (SupervisorAction::Exit { code })
            &&& after.0 is None
            &&& after.1 == after_exit(before.1, code)
            &&& after.2 == before.2
        },
    }
}

/// Decodes the bytes of one line and shows the text to the readiness detector.
pub fn forward_line(
    bytes: Vec<u8>,
    origin: StreamOrigin,
    readiness: &mut ReadinessState,
) -> (action: SupervisorAction)
    ensures
        line_handled(bytes@, origin, old(readiness).ready(), final(readiness).ready(), action),
{
    let text = decode_line(bytes.as_slice());
    forward_text(text, origin, readiness)
}

/// Shows one decoded line to the readiness detector and reports what came of
/// it: the line itself, and the cause of readiness if this line made the
/// service ready.
pub fn forward_text(
    text: String,
    origin: StreamOrigin,
    readiness: &mut ReadinessState,
) -> (action: SupervisorAction)
    ensures
        text_handled(text@, origin, old(readiness).ready(), final(readiness).ready(), action),
{
    let fired = readiness.observe_line(text.as_str(), origin);
    SupervisorAction::Line { text, origin, announce: fired }
}

} // verus!
