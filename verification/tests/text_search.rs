use sidecar_supervisor::markers::{detect_marker, Marker};
use sidecar_supervisor::text::{chars_of, find, matches_at};

fn chars(s: &str) -> Vec<char> {
    s.chars().collect()
}

#[test]
fn chars_of_keeps_every_character_in_order() {
    assert_eq!(chars_of("abc"), vec!['a', 'b', 'c']);
    assert_eq!(chars_of(""), Vec::<char>::new());
    assert_eq!(chars_of("h\u{e9}l \u{fffd}"), vec!['h', '\u{e9}', 'l', ' ', '\u{fffd}']);
}

#[test]
fn matches_at_looks_at_one_position() {
    let text = chars("xxabcxx");
    let pattern = chars("abc");
    assert!(matches_at(&text, &pattern, 2));
    assert!(!matches_at(&text, &pattern, 1));
    assert!(!matches_at(&text, &pattern, 3));
}

#[test]
fn matches_at_rejects_positions_past_the_end() {
    let text = chars("abc");
    let pattern = chars("bc");
    assert!(matches_at(&text, &pattern, 1));
    assert!(!matches_at(&text, &pattern, 2));
    assert!(!matches_at(&text, &pattern, 3));
    assert!(!matches_at(&text, &pattern, 4));
    assert!(!matches_at(&text, &pattern, usize::MAX));
}

#[test]
fn empty_pattern_matches_everywhere_inside() {
    let text = chars("ab");
    let empty = chars("");
    assert!(matches_at(&text, &empty, 0));
    assert!(matches_at(&text, &empty, 2));
    assert!(!matches_at(&text, &empty, 3));
    assert_eq!(find(&text, &empty), Some(0));
    assert_eq!(find(&empty, &empty), Some(0));
}

#[test]
fn find_returns_the_leftmost_occurrence() {
    assert_eq!(find(&chars("abcabc"), &chars("bc")), Some(1));
    assert_eq!(find(&chars("aaab"), &chars("aab")), Some(1));
    assert_eq!(find(&chars("abc"), &chars("abc")), Some(0));
    assert_eq!(find(&chars("xxabc"), &chars("abc")), Some(2));
}

#[test]
fn find_reports_absence() {
    assert_eq!(find(&chars("abc"), &chars("abd")), None);
    assert_eq!(find(&chars("ab"), &chars("abc")), None);
    assert_eq!(find(&chars(""), &chars("a")), None);
}

#[test]
fn find_agrees_with_std_on_a_grid_of_inputs() {
    let texts = ["", "a", "ab", "aba", "abab", "bbba", "Listening", "aab aab", "\u{e9}a\u{e9}"];
    let patterns = ["", "a", "b", "ab", "ba", "aab", "\u{e9}", "a\u{e9}", "abc"];
    for text in texts.iter() {
        for pattern in patterns.iter() {
            let expected = text.find(pattern).map(|byte| text[..byte].chars().count());
            assert_eq!(find(&chars(text), &chars(pattern)), expected);
        }
    }
}

#[test]
fn marker_phrases_are_the_four_recognized_ones() {
    assert_eq!(Marker::StartupComplete.phrase(), "Application startup complete");
    assert_eq!(Marker::UvicornRunning.phrase(), "Uvicorn running");
    assert_eq!(Marker::ListeningOn.phrase(), "Listening on");
    assert_eq!(Marker::StartedServerProcess.phrase(), "Started server process");
}

#[test]
fn marker_occurs_in_is_substring_containment() {
    assert!(Marker::ListeningOn.occurs_in(&chars("now Listening on :8000")));
    assert!(!Marker::ListeningOn.occurs_in(&chars("now Listening  on :8000")));
    assert!(!Marker::UvicornRunning.occurs_in(&chars("Uvicorn runnin")));
}

#[test]
fn detect_marker_finds_each_marker() {
    assert_eq!(
        detect_marker("INFO:     Application startup complete."),
        Some(Marker::StartupComplete)
    );
    assert_eq!(
        detect_marker("INFO:     Uvicorn running on http://127.0.0.1:8000"),
        Some(Marker::UvicornRunning)
    );
    assert_eq!(detect_marker("Listening on :8000"), Some(Marker::ListeningOn));
    assert_eq!(
        detect_marker("INFO:     Started server process [4242]"),
        Some(Marker::StartedServerProcess)
    );
}

#[test]
fn detect_marker_is_case_sensitive() {
    assert_eq!(detect_marker("uvicorn running on http://127.0.0.1:8000"), None);
    assert_eq!(detect_marker("LISTENING ON :8000"), None);
    assert_eq!(detect_marker("application startup complete"), None);
}

#[test]
fn detect_marker_ignores_unmarked_lines() {
    assert_eq!(detect_marker(""), None);
    assert_eq!(detect_marker("INFO:     Waiting for application startup."), None);
    assert_eq!(detect_marker("Listening"), None);
    assert_eq!(detect_marker("Started server"), None);
}

#[test]
fn detect_marker_prefers_the_marker_listed_first() {
    assert_eq!(
        detect_marker("Listening on :8000; Application startup complete"),
        Some(Marker::StartupComplete)
    );
    assert_eq!(
        detect_marker("Started server process, Uvicorn running"),
        Some(Marker::UvicornRunning)
    );
    assert_eq!(
        detect_marker("Started server process, Listening on"),
        Some(Marker::ListeningOn)
    );
}
