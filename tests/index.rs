use async_mongodb_session::index::{expire_index, index_on_expiry_at};

#[test]
fn expire_index_is_named_after_its_field() {
    let i = expire_index("sessions", "lastSeen", 30);
    assert_eq!(i.collection, "sessions");
    assert_eq!(i.field, "lastSeen");
    assert_eq!(i.name, "session_expire_index_lastSeen");
    assert_eq!(i.expire_after_seconds, 30);
}

#[test]
fn expiry_index_is_absolute() {
    let i = index_on_expiry_at("collection");
    assert_eq!(i.collection, "collection");
    assert_eq!(i.field, "expireAt");
    assert_eq!(i.name, "session_expire_index_expireAt");
    assert_eq!(i.expire_after_seconds, 0);
}
