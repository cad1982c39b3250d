use dev_monitor::scan::{line_contains, scan_line, scan_stream, ScanEvent};

#[test]
fn substring_containment_cases() {
    assert!(line_contains("[Error]: boom", "[Error"));
    assert!(line_contains("xx[Error]yy", "[Error"));
    assert!(!line_contains("Server ready", "[Error"));
    assert!(!line_contains("Error", "[Error"));
    assert!(line_contains("error pattern here", "error"));
    // matching is case-sensitive
    assert!(!line_contains("ERROR", "error"));
    // a match at the very end of the line
    assert!(line_contains("ends with [Error", "[Error"));
}

#[test]
fn containment_counts_characters_not_bytes() {
    assert!(line_contains("héllo wörld [Error]: boom", "[Error"));
    assert!(line_contains("héllo", "él"));
    assert!(!line_contains("hello", "él"));
    // a pattern longer than the line never matches
    assert!(!line_contains("ab", "abc"));
}

#[test]
fn empty_pattern_and_empty_line() {
    assert!(line_contains("abc", ""));
    assert!(line_contains("", ""));
    assert!(!line_contains("", "a"));
}

#[test]
fn scan_line_reports_match_or_observation() {
    let ev = scan_line("[Error]: boom".to_string(), "[Error");
    assert!(matches!(ev, ScanEvent::ErrorMatched(l) if l == "[Error]: boom"));

    let ev = scan_line("Server ready".to_string(), "[Error");
    assert!(matches!(ev, ScanEvent::LineObserved(l) if l == "Server ready"));
}

#[test]
fn every_line_reported_once_in_order() {
    // a stream without the pattern: each line appears exactly once,
    // as an observation, in stream order
    let lines = vec![
        "alpha".to_string(),
        "beta".to_string(),
        "gamma".to_string(),
    ];
    let events = scan_stream(lines, "[Error");
    assert_eq!(events.len(), 3);
    assert!(matches!(&events[0], ScanEvent::LineObserved(l) if l == "alpha"));
    assert!(matches!(&events[1], ScanEvent::LineObserved(l) if l == "beta"));
    assert!(matches!(&events[2], ScanEvent::LineObserved(l) if l == "gamma"));
}

#[test]
fn scan_stops_at_first_match() {
    let lines = vec![
        "Server ready".to_string(),
        "[Error]: boom".to_string(),
        "This should not appear".to_string(),
    ];
    let events = scan_stream(lines, "[Error");
    assert_eq!(events.len(), 2);
    assert!(matches!(&events[0], ScanEvent::LineObserved(l) if l == "Server ready"));
    assert!(matches!(&events[1], ScanEvent::ErrorMatched(l) if l == "[Error]: boom"));
}

#[test]
fn scan_of_empty_stream_reports_nothing() {
    let events = scan_stream(Vec::new(), "[Error");
    assert!(events.is_empty());
}
