//! The session-info parser and its counter-keyed cache.

use std::sync::Arc;
use simetry::{parse_session_info, SessionInfoCache, TelemetryError};

const SESSION_TEXT: &[u8] = b"---\nWeekendInfo:\n TrackName: monza\n NumCarTypes: 3\n";

#[test]
fn session_info_parses_as_a_structured_document() {
    let doc = parse_session_info(SESSION_TEXT).unwrap();
    assert_eq!(doc["WeekendInfo"]["TrackName"].as_str(), Some("monza"));
    assert_eq!(doc["WeekendInfo"]["NumCarTypes"].as_i64(), Some(3));
}

#[test]
fn empty_or_malformed_session_info_is_an_error() {
    assert_eq!(
        parse_session_info(b"").unwrap_err(),
        TelemetryError::SessionInfoUnavailable
    );
    // A NUL first byte terminates the decoded text immediately.
    assert_eq!(
        parse_session_info(b"\0WeekendInfo: 1").unwrap_err(),
        TelemetryError::SessionInfoUnavailable
    );
    assert_eq!(
        parse_session_info(b"{ not: [ valid").unwrap_err(),
        TelemetryError::SessionInfoUnavailable
    );
}

#[test]
fn cache_returns_the_identical_document_while_the_counter_holds() {
    let mut cache = SessionInfoCache::new();
    assert!(!cache.is_current(1));
    assert!(cache.cached().is_none());
    cache.refresh(1, SESSION_TEXT).unwrap();
    assert!(cache.is_current(1));
    let first = cache.cached().unwrap();
    let second = cache.cached().unwrap();
    // Two polls under one counter share one parse, by reference.
    assert!(Arc::ptr_eq(&first, &second));
    assert_eq!(first["WeekendInfo"]["TrackName"].as_str(), Some("monza"));
}

#[test]
fn counter_change_parses_fresh_content() {
    let mut cache = SessionInfoCache::new();
    cache.refresh(1, SESSION_TEXT).unwrap();
    let old = cache.cached().unwrap();
    assert!(!cache.is_current(2));
    cache
        .refresh(2, b"---\nWeekendInfo:\n TrackName: spa\n")
        .unwrap();
    assert!(cache.is_current(2));
    let new = cache.cached().unwrap();
    assert!(!Arc::ptr_eq(&old, &new));
    assert_eq!(new["WeekendInfo"]["TrackName"].as_str(), Some("spa"));
}

#[test]
fn failed_refresh_keeps_the_previous_document() {
    let mut cache = SessionInfoCache::new();
    cache.refresh(1, SESSION_TEXT).unwrap();
    let before = cache.cached().unwrap();
    assert_eq!(
        cache.refresh(2, b"").unwrap_err(),
        TelemetryError::SessionInfoUnavailable
    );
    assert!(cache.is_current(1));
    assert!(!cache.is_current(2));
    let after = cache.cached().unwrap();
    assert!(Arc::ptr_eq(&before, &after));
}
