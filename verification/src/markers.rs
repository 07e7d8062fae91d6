use crate::text::{chars_of, contains, find};
use vstd::prelude::*;

verus! {

/// A phrase in the service's output that announces it is ready to serve.
///
/// The variants are listed in the order in which a line is tested against them.
#[derive(Clone, Copy, Debug, PartialEq, Eq, Structural)]
pub enum Marker {
    StartupComplete,
    UvicornRunning,
    ListeningOn,
    StartedServerProcess,
}

impl Marker {
    /// The phrase as a sequence of characters.
    pub open spec fn pattern(self) -> Seq<char> {
        match self {
            Marker::StartupComplete => "Application startup complete"@,
            Marker::UvicornRunning => "Uvicorn running"@,
            Marker::ListeningOn => "Listening on"@,
            Marker::StartedServerProcess => "Started server process"@,
        }
    }

    /// The phrase itself.
    pub fn phrase(self) -> (s: &'static str)
        ensures
            s@ == self.pattern(),
    {
        match self {
            Marker::StartupComplete => "Application startup complete",
            Marker::UvicornRunning => "Uvicorn running",
            Marker::ListeningOn => "Listening on",
            Marker::StartedServerProcess => "Started server process",
        }
    }

    /// Whether `text` contains this marker's phrase.
    pub fn occurs_in(self, text: &Vec<char>) -> (hit: bool)
        ensures
            hit == contains(text@, self.pattern()),
    {
        let pattern = chars_of(self.phrase());
        find(text, &pattern).is_some()
    }
}

/// Whether a line of output contains any recognized marker.
pub open spec fn has_marker(text: Seq<char>) -> bool {
    exists|m: Marker| contains(text, m.pattern())
}

/// The first marker, in declaration order, that a line of output contains.
pub open spec fn first_marker(text: Seq<char>) -> Option<Marker> {
    if contains(text, Marker::StartupComplete.pattern()) {
        Some(Marker::StartupComplete)
    } else if contains(text, Marker::UvicornRunning.pattern()) {
        Some(Marker::UvicornRunning)
    } else if contains(text, Marker::ListeningOn.pattern()) {
        Some(Marker::ListeningOn)
    } else if contains(text, Marker::StartedServerProcess.pattern()) {
        Some(Marker::StartedServerProcess)
    } else {
        None
    }
}

/// A line has a first marker exactly when it has any marker, and the first
/// marker is one that the line contains.
pub proof fn lemma_first_marker(text: Seq<char>)
    ensures
        first_marker(text) is Some <==> has_marker(text),
        first_marker(text) matches Some(m) ==> contains(text, m.pattern()),
{
    if has_marker(text) {
        let m = choose|m: Marker| contains(text, m.pattern());
        match m {
            Marker::StartupComplete => {},
            Marker::UvicornRunning => {},
            Marker::ListeningOn => {},
            Marker::StartedServerProcess => {},
        }
    }
}

/// Scans a line of output for the recognized markers; the first one found wins.
pub fn detect_marker(line: &str) -> (found: Option<Marker>)
    ensures
        found == first_marker(line@),
        found is Some <==> has_marker(line@),
{
    proof {
        lemma_first_marker(line@);
    }
    let text = chars_of(line);
    if Marker::StartupComplete.occurs_in(&text) {
        Some(Marker::StartupComplete)
    } else if Marker::UvicornRunning.occurs_in(&text) {
        Some(Marker::UvicornRunning)
    } else if Marker::ListeningOn.occurs_in(&text) {
        Some(Marker::ListeningOn)
    } else if Marker::StartedServerProcess.occurs_in(&text) {
        Some(Marker::StartedServerProcess)
    } else {
        None
    }
}

} // verus!
