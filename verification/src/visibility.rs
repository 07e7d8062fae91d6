use crate::endpoints::BASE_ADDRESS;
use vstd::prelude::*;

verus! {

/// Timing of the switch from the loading surface to the main surface.
/// Durations are in milliseconds.
#[derive(Clone, Copy, Debug, PartialEq, Eq, Structural)]
pub struct VisibilityPolicy {
    /// The least time the loading surface stays up once the service is
    /// ready, so that it does not merely flash by on a fast start.
    pub min_loading_ms: u64,
    /// The time the main surface is given to begin rendering after it was
    /// sent to the service, before it is revealed.
    pub settle_ms: u64,
}

impl VisibilityPolicy {
    /// Half a second of loading surface, four tenths of a second to settle.
    pub fn standard() -> (policy: Self)
        ensures
            policy == (VisibilityPolicy { min_loading_ms: 500, settle_ms: 400 }),
    {
        VisibilityPolicy { min_loading_ms: 500, settle_ms: 400 }
    }
}

/// The steps of the switch, in the order in which they are gone through.
#[derive(Clone, Copy, Debug, PartialEq, Eq, Structural)]
pub enum TransitionStep {
    /// The loading surface is kept up for its minimum time.
    HoldingLoading,
    /// The loading surface is being closed.
    ClosingLoading,
    /// The main surface is being sent to the service's address.
    Navigating,
    /// The main surface is given time to begin rendering.
    Settling,
    /// The main surface is being shown.
    Revealing,
}

/// What the user sees.
#[derive(Clone, Copy, Debug, PartialEq, Eq, Structural)]
pub enum Visibility {
    /// The loading surface is up and the main surface hidden.
    Loading,
    /// The switch is under way.
    Transitioning { step: TransitionStep },
    /// The main surface has been shown. Nothing changes after this.
    Shown,
}

/// How an operation on a surface went. None of these stops the switch.
#[derive(Clone, Copy, Debug, PartialEq, Eq, Structural)]
pub enum SurfaceOutcome {
    /// The operation was carried out.
    Done,
    /// The surface was not there: already closed, or never created.
    Missing,
    /// The surface was there and the operation failed.
    Failed,
}

/// What the visibility coordinator is told.
#[derive(Clone, Copy, Debug, PartialEq, Eq, Structural)]
pub enum VisibilityEvent {
    /// The service became ready.
    Ready,
    /// The delay asked for by the last `Wait` has passed.
    DelayElapsed,
    /// The surface operation asked for last has ended.
    SurfaceFinished { outcome: SurfaceOutcome },
}

/// What the visibility coordinator asks its driver to do next.
#[derive(Clone, Copy, Debug, PartialEq, Eq)]
pub enum VisibilityAction {
    /// Nothing: the event did not concern the coordinator in its present state.
    Ignore,
    /// Sleep, then report `DelayElapsed`.
    Wait { ms: u64 },
    /// Close the loading surface, then report `SurfaceFinished`.
    CloseLoading,
    /// Send the main surface to `address`, then report `SurfaceFinished`.
    NavigateMain { address: &'static str },
    /// Show the main surface, then report `SurfaceFinished`.
    ShowMain,
    /// The switch is complete: there is nothing left to do.
    Complete,
}

/// The coordinator's transition: from what the user sees and an event to what
/// the user sees next and the action to take.
pub open spec fn advance(policy: VisibilityPolicy, state: Visibility, event: VisibilityEvent) -> (
    Visibility,
    VisibilityAction,
) {
    match (state, event) {
        (Visibility::Loading, VisibilityEvent::Ready) => (
            Visibility::Transitioning { step: TransitionStep::HoldingLoading },
            VisibilityAction::Wait { ms: policy.min_loading_ms },
        ),
        (
            Visibility::Transitioning { step: TransitionStep::HoldingLoading },
            VisibilityEvent::DelayElapsed,
        ) => (
            Visibility::Transitioning { step: TransitionStep::ClosingLoading },
            VisibilityAction::CloseLoading,
        ),
        (
            Visibility::Transitioning { step: TransitionStep::ClosingLoading },
            VisibilityEvent::SurfaceFinished { outcome },
        ) => (
            Visibility::Transitioning { step: TransitionStep::Navigating },
            VisibilityAction::NavigateMain { address: BASE_ADDRESS },
        ),
        (
            Visibility::Transitioning { step: TransitionStep::Navigating },
            VisibilityEvent::SurfaceFinished { outcome },
        ) => (
            Visibility::Transitioning { step: TransitionStep::Settling },
            VisibilityAction::Wait { ms: policy.settle_ms },
        ),
        (
            Visibility::Transitioning { step: TransitionStep::Settling },
            VisibilityEvent::DelayElapsed,
        ) => (
            Visibility::Transitioning { step: TransitionStep::Revealing },
            VisibilityAction::ShowMain,
        ),
        (
            Visibility::Transitioning { step: TransitionStep::Revealing },
            VisibilityEvent::SurfaceFinished { outcome },
        ) => (Visibility::Shown, VisibilityAction::Complete),
        _ => (state, VisibilityAction::Ignore),
    }
}

/// Drives the switch from the loading surface to the main surface once the
/// service is ready.
#[derive(Debug)]
pub struct VisibilityCoordinator {
    policy: VisibilityPolicy,
    state: Visibility,
}

impl VisibilityCoordinator {
    /// The policy the coordinator was made with.
    pub closed spec fn policy(&self) -> VisibilityPolicy {
        self.policy
    }

    /// What the user sees at present.
    pub closed spec fn state(&self) -> Visibility {
        self.state
    }

    /// A coordinator with the loading surface up.
    pub fn new(policy: VisibilityPolicy) -> (coordinator: Self)
        ensures
            coordinator.policy() == policy,
            coordinator.state() == Visibility::Loading,
    {
        VisibilityCoordinator { policy, state: Visibility::Loading }
    }

    /// Reads the state.
    pub fn current(&self) -> (state: Visibility)
        ensures
            state == self.state(),
    {
        self.state
    }

    /// Takes one event and says what to do next. A surface operation moves
    /// the switch on however it went: a missing surface or a failed call
    /// costs that one step and nothing after it.
    pub fn step(&mut self, event: VisibilityEvent) -> (action: VisibilityAction)
        ensures
            final(self).policy() == old(self).policy(),
            (final(self).state(), action) == advance(old(self).policy(), old(self).state(), event),
    {
        match (self.state, event) {
            (Visibility::Loading, VisibilityEvent::Ready) => {
                self.state = Visibility::Transitioning { step: TransitionStep::HoldingLoading };
                VisibilityAction::Wait { ms: self.policy.min_loading_ms }
            },
            (
                Visibility::Transitioning { step: TransitionStep::HoldingLoading },
                VisibilityEvent::DelayElapsed,
            ) => {
                self.state = Visibility::Transitioning { step: TransitionStep::ClosingLoading };
                VisibilityAction::CloseLoading
            },
            (
                Visibility::Transitioning { step: TransitionStep::ClosingLoading },
                VisibilityEvent::SurfaceFinished { outcome: _ },
            ) => {
                self.state = Visibility::Transitioning { step: TransitionStep::Navigating };
                VisibilityAction::NavigateMain { address: BASE_ADDRESS }
            },
            (
                Visibility::Transitioning { step: TransitionStep::Navigating },
                VisibilityEvent::SurfaceFinished { outcome: _ },
            ) => {
                self.state = Visibility::Transitioning { step: TransitionStep::Settling };
                VisibilityAction::Wait { ms: self.policy.settle_ms }
            },
            (
                Visibility::Transitioning { step: TransitionStep::Settling },
                VisibilityEvent::DelayElapsed,
            ) => {
                self.state = Visibility::Transitioning { step: TransitionStep::Revealing };
                VisibilityAction::ShowMain
            },
            (
                Visibility::Transitioning { step: TransitionStep::Revealing },
                VisibilityEvent::SurfaceFinished { outcome: _ },
            ) => {
                self.state = Visibility::Shown;
                VisibilityAction::Complete
            },
            _ => VisibilityAction::Ignore,
        }
    }
}

/// How far the switch has come: 0 while loading, 6 once shown.
pub open spec fn progress(state: Visibility) -> nat {
    match state {
        Visibility::Loading => 0,
        Visibility::Transitioning { step: TransitionStep::HoldingLoading } => 1,
        Visibility::Transitioning { step: TransitionStep::ClosingLoading } => 2,
        Visibility::Transitioning { step: TransitionStep::Navigating } => 3,
        Visibility::Transitioning { step: TransitionStep::Settling } => 4,
        Visibility::Transitioning { step: TransitionStep::Revealing } => 5,
        Visibility::Shown => 6,
    }
}

/// The state after a sequence of events, taken in order.
pub open spec fn state_after(
    policy: VisibilityPolicy,
    state: Visibility,
    events: Seq<VisibilityEvent>,
) -> Visibility
    decreases events.len(),
{
    if events.len() == 0 {
        state
    } else {
        state_after(policy, advance(policy, state, events[0]).0, events.drop_first())
    }
}

/// How many times the main surface is asked to be shown over a sequence of
/// events, taken in order.
pub open spec fn shows(
    policy: VisibilityPolicy,
    state: Visibility,
    events: Seq<VisibilityEvent>,
) -> nat
    decreases events.len(),
{
    if events.len() == 0 {
        0
    } else {
        let (next, action) = advance(policy, state, events[0]);
        (if action == VisibilityAction::ShowMain {
            1nat
        } else {
            0nat
        }) + shows(policy, next, events.drop_first())
    }
}

/// Every step either leaves the state as it is and asks for nothing, or
/// moves the switch on by exactly one stage. The switch never goes back.
pub proof fn law_one_stage_at_a_time(
    policy: VisibilityPolicy,
    state: Visibility,
    event: VisibilityEvent,
)
    ensures
        ({
            let (next, action) = advance(policy, state, event);
            ||| next == state && action == VisibilityAction::Ignore
            ||| progress(next) == progress(state) + 1
        }),
{
}

/// Nothing leaves the loading state but the ready event: without it the
/// loading surface stays up and nothing is asked for.
pub proof fn law_loading_waits_for_ready(policy: VisibilityPolicy, event: VisibilityEvent)
    requires
        event != VisibilityEvent::Ready,
    ensures
        advance(policy, Visibility::Loading, event) == (
            Visibility::Loading,
            VisibilityAction::Ignore,
        ),
{
}

/// As long as the ready event has not come, whatever else is reported, the
/// loading surface stays up and the main surface is never asked to be shown.
pub proof fn law_no_ready_no_show(policy: VisibilityPolicy, events: Seq<VisibilityEvent>)
    requires
        forall|i: int| 0 <= i < events.len() ==> events[i] != VisibilityEvent::Ready,
    ensures
        state_after(policy, Visibility::Loading, events) == Visibility::Loading,
        shows(policy, Visibility::Loading, events) == 0,
    decreases events.len(),
{
    if events.len() > 0 {
        law_loading_waits_for_ready(policy, events[0]);
        let rest = events.drop_first();
        assert forall|i: int| 0 <= i < rest.len() implies rest[i] != VisibilityEvent::Ready by {
            assert(rest[i] == events[i + 1]);
        }
        law_no_ready_no_show(policy, rest);
    }
}

/// The shown state is final: every event is ignored there.
pub proof fn law_shown_is_final(policy: VisibilityPolicy, event: VisibilityEvent)
    ensures
        advance(policy, Visibility::Shown, event) == (Visibility::Shown, VisibilityAction::Ignore),
{
}

/// The main surface is asked to be shown only by the step that leaves the
/// settling stage, which lies after the ready event.
pub proof fn law_show_follows_settling(
    policy: VisibilityPolicy,
    state: Visibility,
    event: VisibilityEvent,
)
    ensures
        advance(policy, state, event).1 == VisibilityAction::ShowMain <==> state
            == (Visibility::Transitioning { step: TransitionStep::Settling }) && event
            == VisibilityEvent::DelayElapsed,
{
}

/// Over any sequence of events from any state, the main surface is asked to
/// be shown at most once: exactly once if the sequence takes the switch from
/// at or before the settling stage to beyond it, and never otherwise.
pub proof fn law_shown_at_most_once(
    policy: VisibilityPolicy,
    state: Visibility,
    events: Seq<VisibilityEvent>,
)
    ensures
        progress(state) <= progress(state_after(policy, state, events)),
        shows(policy, state, events) == if progress(state) <= 4 && 4 < progress(
            state_after(policy, state, events),
        ) {
            1nat
        } else {
            0nat
        },
    decreases events.len(),
{
    if events.len() > 0 {
        law_one_stage_at_a_time(policy, state, events[0]);
        law_show_follows_settling(policy, state, events[0]);
        law_shown_at_most_once(policy, advance(policy, state, events[0]).0, events.drop_first());
    }
}

/// The events of a switch that runs its course: the ready event, then each
/// delay and each surface operation as it ends, with the given outcomes.
pub open spec fn full_course(
    closed: SurfaceOutcome,
    navigated: SurfaceOutcome,
    revealed: SurfaceOutcome,
) -> Seq<VisibilityEvent> {
    seq![
        VisibilityEvent::Ready,
        VisibilityEvent::DelayElapsed,
        VisibilityEvent::SurfaceFinished { outcome: closed },
        VisibilityEvent::SurfaceFinished { outcome: navigated },
        VisibilityEvent::DelayElapsed,
        VisibilityEvent::SurfaceFinished { outcome: revealed },
    ]
}

/// The actions that a sequence of events draws, in order.
pub open spec fn actions_of(
    policy: VisibilityPolicy,
    state: Visibility,
    events: Seq<VisibilityEvent>,
) -> Seq<VisibilityAction>
    decreases events.len(),
{
    if events.len() == 0 {
        Seq::empty()
    } else {
        let (next, action) = advance(policy, state, events[0]);
        seq![action] + actions_of(policy, next, events.drop_first())
    }
}

/// Once the service is ready the switch runs its course whatever becomes of
/// the surface operations: the loading surface is held for its minimum time
/// and closed, the main surface is sent to the service's address, given time
/// to settle and shown, and the state ends as shown.
pub proof fn law_ready_leads_to_shown(
    policy: VisibilityPolicy,
    closed: SurfaceOutcome,
    navigated: SurfaceOutcome,
    revealed: SurfaceOutcome,
)
    ensures
        state_after(policy, Visibility::Loading, full_course(closed, navigated, revealed))
            == Visibility::Shown,
        actions_of(policy, Visibility::Loading, full_course(closed, navigated, revealed)) == seq![
            VisibilityAction::Wait { ms: policy.min_loading_ms },
            VisibilityAction::CloseLoading,
            VisibilityAction::NavigateMain { address: BASE_ADDRESS },
            VisibilityAction::Wait { ms: policy.settle_ms },
            VisibilityAction::ShowMain,
            VisibilityAction::Complete,
        ],
{
    let e0 = full_course(closed, navigated, revealed);
    let e1 = e0.drop_first();
    let e2 = e1.drop_first();
    let e3 = e2.drop_first();
    let e4 = e3.drop_first();
    let e5 = e4.drop_first();
    let e6 = e5.drop_first();
    assert(e6.len() == 0);
    reveal_with_fuel(state_after, 8);
    reveal_with_fuel(actions_of, 8);
    let s1 = advance(policy, Visibility::Loading, e0[0]).0;
    let s2 = advance(policy, s1, e1[0]).0;
    let s3 = advance(policy, s2, e2[0]).0;
    let s4 = advance(policy, s3, e3[0]).0;
    let s5 = advance(policy, s4, e4[0]).0;
    let s6 = advance(policy, s5, e5[0]).0;
    assert(s6 == Visibility::Shown);
    assert(actions_of(policy, s6, e6) =~= Seq::empty());
    assert(actions_of(policy, s5, e5) =~= seq![VisibilityAction::Complete]);
    assert(actions_of(policy, s4, e4) =~= seq![
        VisibilityAction::ShowMain,
        VisibilityAction::Complete,
    ]);
    assert(actions_of(policy, Visibility::Loading, e0) =~= seq![
        VisibilityAction::Wait { ms: policy.min_loading_ms },
        VisibilityAction::CloseLoading,
        VisibilityAction::NavigateMain { address: BASE_ADDRESS },
        VisibilityAction::Wait { ms: policy.settle_ms },
        VisibilityAction::ShowMain,
        VisibilityAction::Complete,
    ]);
}

} // verus!
