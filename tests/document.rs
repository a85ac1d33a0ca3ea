use async_mongodb_session::document::{
    expire_at_for, is_expired, load_outcome, replacement_document, SessionDocument, SessionRecord,
    DEFAULT_TTL_MILLIS,
};

fn record(id: &str, expiry: Option<i64>, payload: &str) -> SessionRecord<String> {
    SessionRecord { id: id.to_string(), expiry, payload: payload.to_string() }
}

fn document(session: Option<&str>, expire_at: Option<i64>) -> SessionDocument<String> {
    SessionDocument {
        session_id: "abc".to_string(),
        session: session.map(|s| s.to_string()),
        expire_at,
        created: 0,
    }
}

#[test]
fn default_ttl_is_twenty_minutes() {
    assert_eq!(DEFAULT_TTL_MILLIS, 20 * 60 * 1000);
}

#[test]
fn expire_at_defaults_to_now_plus_ttl() {
    assert_eq!(expire_at_for(None, 1_000), 1_201_000);
    assert_eq!(expire_at_for(None, 0), 1_200_000);
}

#[test]
fn expire_at_keeps_explicit_expiry() {
    assert_eq!(expire_at_for(Some(5_000), 1_000), 5_000);
    assert_eq!(expire_at_for(Some(-3), 1_000), -3);
}

#[test]
fn replacement_document_without_expiry() {
    let d = replacement_document(record("id-1", None, "payload"), 10_000);
    assert_eq!(d.session_id, "id-1");
    assert_eq!(d.session, Some("payload".to_string()));
    assert_eq!(d.expire_at, Some(1_210_000));
    assert_eq!(d.created, 10_000);
}

#[test]
fn replacement_document_with_expiry() {
    let d = replacement_document(record("id-2", Some(15_000), "p"), 10_000);
    assert_eq!(d.session_id, "id-2");
    assert_eq!(d.expire_at, Some(15_000));
    assert_eq!(d.created, 10_000);
}

#[test]
fn deadline_passes_strictly_after() {
    assert!(!is_expired(Some(100), 99));
    assert!(!is_expired(Some(100), 100));
    assert!(is_expired(Some(100), 101));
    assert!(!is_expired(None, i64::MAX));
}

#[test]
fn load_of_missing_document_is_none() {
    assert_eq!(load_outcome::<String>(None, 0), None);
}

#[test]
fn load_of_document_without_session_field_is_none() {
    assert_eq!(load_outcome(Some(document(None, Some(1_000))), 0), None);
    assert_eq!(load_outcome(Some(document(None, None)), 0), None);
}

#[test]
fn load_of_expired_document_is_none() {
    assert_eq!(load_outcome(Some(document(Some("p"), Some(1_000))), 1_001), None);
}

#[test]
fn load_of_live_document_gives_payload() {
    assert_eq!(
        load_outcome(Some(document(Some("p"), Some(1_000))), 1_000),
        Some("p".to_string())
    );
    assert_eq!(load_outcome(Some(document(Some("q"), None)), 5), Some("q".to_string()));
}
