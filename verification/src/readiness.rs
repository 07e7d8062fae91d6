use crate::markers::{detect_marker, first_marker, has_marker, lemma_first_marker, Marker};
use vstd::prelude::*;

verus! {

/// Which of the service's output streams a line came from.
#[derive(Clone, Copy, Debug, PartialEq, Eq, Structural)]
pub enum StreamOrigin {
    Stdout,
    Stderr,
}

/// One piece of evidence about the service's readiness. It is consumed as it
/// arrives and never stored.
#[derive(Debug)]
pub enum ReadinessEvidence {
    /// A decoded line of the service's output.
    LogLine { text: String, origin: StreamOrigin },
    /// The outcome of one health probe: whether any response came back, and
    /// its status code where there was one.
    ProbeResult { responded: bool, status: Option<u16> },
}

/// Why the service was found ready.
#[derive(Clone, Copy, Debug, PartialEq, Eq, Structural)]
pub enum ReadyCause {
    /// A line of output held a marker.
    Log { marker: Marker, origin: StreamOrigin },
    /// A health probe was answered.
    Probe,
}

/// What a line of output shows: readiness by its first marker, if it holds one.
pub open spec fn cause_of_line(text: Seq<char>, origin: StreamOrigin) -> Option<ReadyCause> {
    match first_marker(text) {
        Some(marker) => Some(ReadyCause::Log { marker, origin }),
        None => None,
    }
}

/// What a probe shows: readiness by any response, whatever its status.
pub open spec fn cause_of_probe(responded: bool) -> Option<ReadyCause> {
    if responded {
        Some(ReadyCause::Probe)
    } else {
        None
    }
}

/// What a piece of evidence shows, if it shows readiness at all.
pub open spec fn cause_of(evidence: ReadinessEvidence) -> Option<ReadyCause> {
    match evidence {
        ReadinessEvidence::LogLine { text, origin } => cause_of_line(text@, origin),
        ReadinessEvidence::ProbeResult { responded, status } => cause_of_probe(responded),
    }
}

/// Whether a piece of evidence is enough to call the service ready.
pub open spec fn qualifies(evidence: ReadinessEvidence) -> bool {
    cause_of(evidence) is Some
}

/// The shared readiness flag with its one-shot latch. It starts not ready,
/// becomes ready at most once, and never goes back.
#[derive(Debug)]
pub struct ReadinessState {
    ready: bool,
}

impl ReadinessState {
    /// Whether the service has been found ready.
    pub closed spec fn ready(&self) -> bool {
        self.ready
    }

    /// A fresh state: not ready.
    pub fn new() -> (state: Self)
        ensures
            !state.ready(),
    {
        ReadinessState { ready: false }
    }

    /// Reads the flag.
    pub fn is_ready(&self) -> (r: bool)
        ensures
            r == self.ready(),
    {
        self.ready
    }

    /// Attempts the transition to ready. Returns whether this call performed
    /// it: `false` when the state was ready already. Afterwards the state is
    /// ready either way.
    pub fn try_transition_to_ready(&mut self) -> (won: bool)
        ensures
            won == !old(self).ready(),
            final(self).ready(),
    {
        let won = !self.ready;
        self.ready = true;
        won
    }

    /// Shows one decoded line of output to the detector. A line that holds a
    /// marker attempts the transition; the result is the cause of readiness
    /// when this call performed the transition, and `None` otherwise.
    pub fn observe_line(&mut self, text: &str, origin: StreamOrigin) -> (fired: Option<ReadyCause>)
        ensures
            (final(self).ready(), fired) == announce(
                old(self).ready(),
                cause_of_line(text@, origin),
            ),
    {
        match detect_marker(text) {
            Some(marker) => self.settle(Some(ReadyCause::Log { marker, origin })),
            None => self.settle(None),
        }
    }

    /// Shows the outcome of one health probe to the detector. A probe that
    /// was answered, with any status, attempts the transition.
    pub fn observe_probe(&mut self, responded: bool) -> (fired: Option<ReadyCause>)
        ensures
            (final(self).ready(), fired) == announce(old(self).ready(), cause_of_probe(responded)),
    {
        if responded {
            self.settle(Some(ReadyCause::Probe))
        } else {
            self.settle(None)
        }
    }

    /// Feeds one piece of evidence to the detector, whichever producer it
    /// came from.
    pub fn observe(&mut self, evidence: &ReadinessEvidence) -> (fired: Option<ReadyCause>)
        ensures
            (final(self).ready(), fired) == observed(old(self).ready(), *evidence),
    {
        match evidence {
            ReadinessEvidence::LogLine { text, origin } => {
                self.observe_line(text.as_str(), *origin)
            },
            ReadinessEvidence::ProbeResult { responded, status: _ } => {
                self.observe_probe(*responded)
            },
        }
    }

    /// Attempts the transition where there is a cause, and keeps the cause
    /// only if this attempt was the one that succeeded.
    fn settle(&mut self, cause: Option<ReadyCause>) -> (fired: Option<ReadyCause>)
        ensures
            (final(self).ready(), fired) == announce(old(self).ready(), cause),
    {
        match cause {
            Some(c) => {
                if self.try_transition_to_ready() {
                    Some(c)
                } else {
                    None
                }
            },
            None => None,
        }
    }
}

/// What attempting the transition for a possible cause comes to: the new flag
/// and the cause to announce. Only an attempt made with a cause while the
/// state is not ready announces anything.
pub open spec fn announce(ready: bool, cause: Option<ReadyCause>) -> (bool, Option<ReadyCause>) {
    if ready {
        (true, None)
    } else {
        match cause {
            Some(c) => (true, Some(c)),
            None => (false, None),
        }
    }
}

/// The detector's step: from the flag and a piece of evidence to the new flag
/// and the cause to announce, if this step made the service ready.
pub open spec fn observed(ready: bool, evidence: ReadinessEvidence) -> (bool, Option<ReadyCause>) {
    announce(ready, cause_of(evidence))
}

/// The flag after a whole sequence of evidence has been observed in order.
pub open spec fn ready_after(ready: bool, evidence: Seq<ReadinessEvidence>) -> bool
    decreases evidence.len(),
{
    if evidence.len() == 0 {
        ready
    } else {
        ready_after(observed(ready, evidence[0]).0, evidence.drop_first())
    }
}

/// How many times readiness is announced while a sequence of evidence is
/// observed in order.
pub open spec fn announcements(ready: bool, evidence: Seq<ReadinessEvidence>) -> nat
    decreases evidence.len(),
{
    if evidence.len() == 0 {
        0
    } else {
        let (next, fired) = observed(ready, evidence[0]);
        (if fired is Some { 1nat } else { 0nat }) + announcements(next, evidence.drop_first())
    }
}

/// Whether some item of the sequence qualifies.
pub open spec fn any_qualifies(evidence: Seq<ReadinessEvidence>) -> bool {
    exists|i: int| 0 <= i < evidence.len() && qualifies(#[trigger] evidence[i])
}

/// Once ready, no further evidence announces anything, and the state stays ready.
pub proof fn law_ready_is_absorbing(evidence: Seq<ReadinessEvidence>)
    ensures
        announcements(true, evidence) == 0,
        ready_after(true, evidence),
    decreases evidence.len(),
{
    if evidence.len() > 0 {
        law_ready_is_absorbing(evidence.drop_first());
    }
}

/// Readiness is announced exactly once over any sequence of evidence that
/// holds a qualifying item, however many items come before or after it, and
/// never over one that holds none. The state ends ready in the first case and
/// not ready in the second.
pub proof fn law_announced_exactly_once(evidence: Seq<ReadinessEvidence>)
    ensures
        any_qualifies(evidence) ==> announcements(false, evidence) == 1,
        !any_qualifies(evidence) ==> announcements(false, evidence) == 0,
        ready_after(false, evidence) == any_qualifies(evidence),
    decreases evidence.len(),
{
    if evidence.len() > 0 {
        let rest = evidence.drop_first();
        if qualifies(evidence[0]) {
            law_ready_is_absorbing(rest);
        } else {
            law_announced_exactly_once(rest);
            if any_qualifies(rest) {
                let i = choose|i: int| 0 <= i < rest.len() && qualifies(#[trigger] rest[i]);
                assert(qualifies(evidence[i + 1]));
            }
            if any_qualifies(evidence) {
                let i = choose|i: int| 0 <= i < evidence.len() && qualifies(#[trigger] evidence[i]);
                assert(qualifies(rest[i - 1]));
            }
        }
    }
}

/// The announcement comes with the first item that qualifies: nothing is
/// announced before it and the state is not ready until then, and that item
/// makes the state ready and is announced with its own cause.
pub proof fn law_first_qualifying_item_announces(evidence: Seq<ReadinessEvidence>, at: int)
    requires
        0 <= at < evidence.len(),
        qualifies(evidence[at]),
        forall|j: int| 0 <= j < at ==> !qualifies(#[trigger] evidence[j]),
    ensures
        announcements(false, evidence.take(at)) == 0,
        !ready_after(false, evidence.take(at)),
        observed(false, evidence[at]) == (true, cause_of(evidence[at])),
{
    law_announced_exactly_once(evidence.take(at));
}

/// A line of output that holds no recognized marker never makes the service
/// ready, and announces nothing.
pub proof fn law_unmarked_line_is_inert(ready: bool, text: Seq<char>, origin: StreamOrigin)
    requires
        !has_marker(text),
    ensures
        announce(ready, cause_of_line(text, origin)) == (ready, None::<ReadyCause>),
{
    lemma_first_marker(text);
}

/// A line of output that holds a recognized marker makes a service that is
/// not ready yet ready, and is announced with the first marker it holds.
pub proof fn law_marked_line_makes_ready(text: Seq<char>, origin: StreamOrigin)
    requires
        has_marker(text),
    ensures
        first_marker(text) is Some,
        announce(false, cause_of_line(text, origin)) == (
            true,
            Some(ReadyCause::Log { marker: first_marker(text)->0, origin }),
        ),
{
    lemma_first_marker(text);
}

} // verus!
