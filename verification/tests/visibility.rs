use sidecar_supervisor::visibility::{
    SurfaceOutcome, TransitionStep, Visibility, VisibilityAction, VisibilityCoordinator,
    VisibilityEvent, VisibilityPolicy,
};

fn finished(outcome: SurfaceOutcome) -> VisibilityEvent {
    VisibilityEvent::SurfaceFinished { outcome }
}

fn full_course(
    closed: SurfaceOutcome,
    navigated: SurfaceOutcome,
    revealed: SurfaceOutcome,
) -> Vec<VisibilityEvent> {
    vec![
        VisibilityEvent::Ready,
        VisibilityEvent::DelayElapsed,
        finished(closed),
        finished(navigated),
        VisibilityEvent::DelayElapsed,
        finished(revealed),
    ]
}

#[test]
fn standard_visibility_policy_values() {
    let policy = VisibilityPolicy::standard();
    assert_eq!(policy.min_loading_ms, 500);
    assert_eq!(policy.settle_ms, 400);
}

#[test]
fn a_new_coordinator_shows_the_loading_surface() {
    let coordinator = VisibilityCoordinator::new(VisibilityPolicy::standard());
    assert_eq!(coordinator.current(), Visibility::Loading);
}

#[test]
fn ready_runs_the_switch_to_the_end() {
    let mut coordinator = VisibilityCoordinator::new(VisibilityPolicy::standard());
    let mut actions = Vec::new();
    let mut states = Vec::new();
    for event in full_course(SurfaceOutcome::Done, SurfaceOutcome::Done, SurfaceOutcome::Done) {
        actions.push(coordinator.step(event));
        states.push(coordinator.current());
    }
    assert_eq!(
        actions,
        vec![
            VisibilityAction::Wait { ms: 500 },
            VisibilityAction::CloseLoading,
            VisibilityAction::NavigateMain { address: "http://localhost:8000" },
            VisibilityAction::Wait { ms: 400 },
            VisibilityAction::ShowMain,
            VisibilityAction::Complete,
        ]
    );
    assert_eq!(
        states,
        vec![
            Visibility::Transitioning { step: TransitionStep::HoldingLoading },
            Visibility::Transitioning { step: TransitionStep::ClosingLoading },
            Visibility::Transitioning { step: TransitionStep::Navigating },
            Visibility::Transitioning { step: TransitionStep::Settling },
            Visibility::Transitioning { step: TransitionStep::Revealing },
            Visibility::Shown,
        ]
    );
}

#[test]
fn missing_or_failing_surfaces_do_not_stop_the_switch() {
    let outcomes = [SurfaceOutcome::Done, SurfaceOutcome::Missing, SurfaceOutcome::Failed];
    for closed in outcomes {
        for navigated in outcomes {
            for revealed in outcomes {
                let policy = VisibilityPolicy { min_loading_ms: 7, settle_ms: 3 };
                let mut coordinator = VisibilityCoordinator::new(policy);
                let mut actions = Vec::new();
                for event in full_course(closed, navigated, revealed) {
                    actions.push(coordinator.step(event));
                }
                assert_eq!(
                    actions,
                    vec![
                        VisibilityAction::Wait { ms: 7 },
                        VisibilityAction::CloseLoading,
                        VisibilityAction::NavigateMain { address: "http://localhost:8000" },
                        VisibilityAction::Wait { ms: 3 },
                        VisibilityAction::ShowMain,
                        VisibilityAction::Complete,
                    ]
                );
                assert_eq!(coordinator.current(), Visibility::Shown);
            }
        }
    }
}

#[test]
fn nothing_happens_before_ready() {
    let mut coordinator = VisibilityCoordinator::new(VisibilityPolicy::standard());
    let events = [
        VisibilityEvent::DelayElapsed,
        finished(SurfaceOutcome::Done),
        finished(SurfaceOutcome::Missing),
        VisibilityEvent::DelayElapsed,
        finished(SurfaceOutcome::Failed),
    ];
    for event in events {
        assert_eq!(coordinator.step(event), VisibilityAction::Ignore);
        assert_eq!(coordinator.current(), Visibility::Loading);
    }
}

#[test]
fn shown_is_final() {
    let mut coordinator = VisibilityCoordinator::new(VisibilityPolicy::standard());
    for event in full_course(SurfaceOutcome::Done, SurfaceOutcome::Done, SurfaceOutcome::Done) {
        coordinator.step(event);
    }
    let later = [
        VisibilityEvent::Ready,
        VisibilityEvent::DelayElapsed,
        finished(SurfaceOutcome::Done),
        VisibilityEvent::Ready,
    ];
    for event in later {
        assert_eq!(coordinator.step(event), VisibilityAction::Ignore);
        assert_eq!(coordinator.current(), Visibility::Shown);
    }
}

#[test]
fn main_surface_is_shown_at_most_once() {
    let mut coordinator = VisibilityCoordinator::new(VisibilityPolicy::standard());
    let mut events = Vec::new();
    for _ in 0..3 {
        events.push(VisibilityEvent::Ready);
        events.push(VisibilityEvent::DelayElapsed);
        events.push(VisibilityEvent::DelayElapsed);
        events.push(finished(SurfaceOutcome::Done));
        events.push(VisibilityEvent::Ready);
        events.push(finished(SurfaceOutcome::Missing));
        events.push(VisibilityEvent::DelayElapsed);
        events.push(finished(SurfaceOutcome::Done));
    }
    let mut shows = 0;
    for event in events {
        if coordinator.step(event) == VisibilityAction::ShowMain {
            shows += 1;
        }
    }
    assert_eq!(shows, 1);
    assert_eq!(coordinator.current(), Visibility::Shown);
}

#[test]
fn a_second_ready_during_the_switch_is_ignored() {
    let mut coordinator = VisibilityCoordinator::new(VisibilityPolicy::standard());
    coordinator.step(VisibilityEvent::Ready);
    assert_eq!(coordinator.step(VisibilityEvent::Ready), VisibilityAction::Ignore);
    assert_eq!(
        coordinator.current(),
        Visibility::Transitioning { step: TransitionStep::HoldingLoading }
    );
}

#[test]
fn events_of_the_wrong_kind_do_not_move_the_switch() {
    let mut coordinator = VisibilityCoordinator::new(VisibilityPolicy::standard());
    coordinator.step(VisibilityEvent::Ready);
    assert_eq!(coordinator.step(finished(SurfaceOutcome::Done)), VisibilityAction::Ignore);
    assert_eq!(
        coordinator.current(),
        Visibility::Transitioning { step: TransitionStep::HoldingLoading }
    );
    coordinator.step(VisibilityEvent::DelayElapsed);
    assert_eq!(coordinator.step(VisibilityEvent::DelayElapsed), VisibilityAction::Ignore);
    assert_eq!(
        coordinator.current(),
        Visibility::Transitioning { step: TransitionStep::ClosingLoading }
    );
}
