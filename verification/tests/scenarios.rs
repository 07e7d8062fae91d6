use sidecar_supervisor::markers::Marker;
use sidecar_supervisor::probe::{PollerAction, PollerEvent, ProbePolicy, ProbePoller, StopReason};
use sidecar_supervisor::readiness::{ReadinessState, ReadyCause, StreamOrigin};
use sidecar_supervisor::supervisor::{
    Lifecycle, OutputRecord, SpawnError, Supervisor, SupervisorAction,
};
use sidecar_supervisor::visibility::{
    SurfaceOutcome, Visibility, VisibilityAction, VisibilityCoordinator, VisibilityEvent,
    VisibilityPolicy,
};

/// Carries the switch through after each action, every surface operation
/// succeeding, and returns the actions asked for.
fn drive_visibility(coordinator: &mut VisibilityCoordinator) -> Vec<VisibilityAction> {
    let mut actions = Vec::new();
    let mut event = VisibilityEvent::Ready;
    loop {
        let action = coordinator.step(event);
        actions.push(action);
        event = match action {
            VisibilityAction::Wait { .. } => VisibilityEvent::DelayElapsed,
            VisibilityAction::CloseLoading
            | VisibilityAction::NavigateMain { .. }
            | VisibilityAction::ShowMain => {
                VisibilityEvent::SurfaceFinished { outcome: SurfaceOutcome::Done }
            }
            VisibilityAction::Complete | VisibilityAction::Ignore => break,
        };
    }
    actions
}

#[test]
fn failed_spawn_aborts_startup_and_nothing_is_ever_shown() {
    let mut supervisor: Supervisor<u32> = Supervisor::new();
    let mut coordinator = VisibilityCoordinator::new(VisibilityPolicy::standard());
    let started = supervisor.adopt(Err(SpawnError::ExecutableNotFound));
    assert_eq!(started, Err(SpawnError::ExecutableNotFound));
    assert_eq!(supervisor.status(), Lifecycle::SpawnFailed);
    // No process, so no output and no ready event: timers and stray surface
    // reports alone never move the loading state.
    let stray = [
        VisibilityEvent::DelayElapsed,
        VisibilityEvent::SurfaceFinished { outcome: SurfaceOutcome::Missing },
        VisibilityEvent::DelayElapsed,
    ];
    for event in stray {
        assert_eq!(coordinator.step(event), VisibilityAction::Ignore);
    }
    assert_eq!(coordinator.current(), Visibility::Loading);
}

#[test]
fn listening_on_stderr_before_any_probe_leads_to_shown() {
    let mut supervisor: Supervisor<u32> = Supervisor::new();
    let mut readiness = ReadinessState::new();
    let mut poller = ProbePoller::new(ProbePolicy::standard());
    let mut coordinator = VisibilityCoordinator::new(VisibilityPolicy::standard());
    assert_eq!(supervisor.adopt(Ok(1)), Ok(()));
    assert_eq!(poller.step(PollerEvent::Start, &mut readiness), PollerAction::Wait { ms: 2000 });

    let action =
        supervisor.on_record(OutputRecord::Stderr(b"Listening on :8000".to_vec()), &mut readiness);
    let cause = ReadyCause::Log { marker: Marker::ListeningOn, origin: StreamOrigin::Stderr };
    assert_eq!(
        action,
        SupervisorAction::Line {
            text: "Listening on :8000".to_string(),
            origin: StreamOrigin::Stderr,
            announce: Some(cause),
        }
    );
    assert!(readiness.is_ready());

    assert_eq!(coordinator.current(), Visibility::Loading);
    let actions = drive_visibility(&mut coordinator);
    assert_eq!(
        actions,
        vec![
            VisibilityAction::Wait { ms: 500 },
            VisibilityAction::CloseLoading,
            VisibilityAction::NavigateMain { address: "http://localhost:8000" },
            VisibilityAction::Wait { ms: 400 },
            VisibilityAction::ShowMain,
            VisibilityAction::Complete,
        ]
    );
    assert_eq!(coordinator.current(), Visibility::Shown);

    // The poller wakes up afterwards and stands down without a probe.
    assert_eq!(
        poller.step(PollerEvent::TimerElapsed, &mut readiness),
        PollerAction::Stop { reason: StopReason::Superseded }
    );
    assert_eq!(poller.attempts(), 0);
}

#[test]
fn both_paths_racing_announce_once() {
    let mut supervisor: Supervisor<u32> = Supervisor::new();
    let mut readiness = ReadinessState::new();
    let mut poller = ProbePoller::new(ProbePolicy::standard());
    assert_eq!(supervisor.adopt(Ok(1)), Ok(()));
    poller.step(PollerEvent::Start, &mut readiness);
    poller.step(PollerEvent::TimerElapsed, &mut readiness);

    let mut announcements = 0;
    // The probe is answered first ...
    if let PollerAction::Announce { .. } = poller.step(
        PollerEvent::ProbeFinished { responded: true, status: Some(200) },
        &mut readiness,
    ) {
        announcements += 1;
    }
    // ... and the marker lines arrive right after.
    for bytes in [&b"Started server process"[..], &b"Uvicorn running"[..]] {
        let action = supervisor.on_record(OutputRecord::Stdout(bytes.to_vec()), &mut readiness);
        if let SupervisorAction::Line { announce: Some(_), .. } = action {
            announcements += 1;
        }
    }
    assert_eq!(announcements, 1);
    assert!(readiness.is_ready());
}
