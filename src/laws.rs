//! The collection seen as a map from session id to the document stored
//! under it, and what store, load, destroy and clear do to it together.

use vstd::prelude::*;

use crate::cookie::cookie_session_id;
use crate::document::{
    document_spec, expire_at_spec, expiry_fits, load_spec, SessionDocument, SessionRecord,
};
use crate::error::StoreError;

verus! {

/// The document stored under `id`, if any.
pub open spec fn find_spec<P>(c: Map<Seq<char>, SessionDocument<P>>, id: Seq<char>) -> Option<
    SessionDocument<P>,
> {
    if c.contains_key(id) {
        Some(c[id])
    } else {
        None
    }
}

/// A replace with upsert keyed on the session id: the document takes the
/// place of whatever was stored under its id, fields are never merged.
pub open spec fn store_spec<P>(
    c: Map<Seq<char>, SessionDocument<P>>,
    record: SessionRecord<P>,
    now: i64,
) -> Map<Seq<char>, SessionDocument<P>> {
    c.insert(record.id@, document_spec(record, now))
}

/// A delete keyed on the session id; nothing happens where none is stored.
pub open spec fn destroy_spec<P>(c: Map<Seq<char>, SessionDocument<P>>, id: Seq<char>) -> Map<
    Seq<char>,
    SessionDocument<P>,
> {
    c.remove(id)
}

/// A dropped collection holds no document.
pub open spec fn cleared_spec<P>() -> Map<Seq<char>, SessionDocument<P>> {
    Map::empty()
}

/// A load at `now` of the session that `cookie` names: the cookie is decoded
/// first, and only a decoded id reaches the collection.
pub open spec fn load_cookie_spec<P>(
    c: Map<Seq<char>, SessionDocument<P>>,
    cookie: Seq<char>,
    now: i64,
) -> Result<Option<P>, StoreError> {
    match cookie_session_id(cookie) {
        None => Err(StoreError::Decode),
        Some(id) => Ok(load_spec(find_spec(c, id), now)),
    }
}

/// A stored session loads back with the payload it was stored with, for as
/// long as its deadline has not passed.
pub proof fn lemma_round_trip<P>(
    c: Map<Seq<char>, SessionDocument<P>>,
    record: SessionRecord<P>,
    cookie: Seq<char>,
    stored_at: i64,
    loaded_at: i64,
)
    requires
        cookie_session_id(cookie) == Some(record.id@),
        expiry_fits(record.expiry, stored_at),
        loaded_at <= expire_at_spec(record.expiry, stored_at),
    ensures
        load_cookie_spec(store_spec(c, record, stored_at), cookie, loaded_at) == Ok::<Option<P>, StoreError>(
            Some(record.payload),
        ),
{
}

/// Storing two sessions with one id leaves one document under that id, and
/// it holds the payload of the second write.
pub proof fn lemma_upsert_replaces<P>(
    c: Map<Seq<char>, SessionDocument<P>>,
    first: SessionRecord<P>,
    first_at: i64,
    second: SessionRecord<P>,
    second_at: i64,
)
    requires
        first.id@ == second.id@,
    ensures
        store_spec(store_spec(c, first, first_at), second, second_at).dom() == c.dom().insert(
            first.id@,
        ),
        store_spec(store_spec(c, first, first_at), second, second_at)[first.id@].session == Some(
            second.payload,
        ),
        store_spec(store_spec(c, first, first_at), second, second_at)[first.id@]
            == document_spec(second, second_at),
{
    assert(store_spec(store_spec(c, first, first_at), second, second_at).dom() =~= c.dom().insert(
        first.id@,
    ));
}

/// A session with an explicit expiry loads while the expiry has not passed
/// and yields nothing once it has, whatever the database has swept.
pub proof fn lemma_explicit_expiry<P>(
    c: Map<Seq<char>, SessionDocument<P>>,
    record: SessionRecord<P>,
    cookie: Seq<char>,
    stored_at: i64,
    loaded_at: i64,
)
    requires
        cookie_session_id(cookie) == Some(record.id@),
        record.expiry is Some,
    ensures
        loaded_at <= record.expiry->Some_0 ==> load_cookie_spec(
            store_spec(c, record, stored_at),
            cookie,
            loaded_at,
        ) == Ok::<Option<P>, StoreError>(Some(record.payload)),
        loaded_at > record.expiry->Some_0 ==> load_cookie_spec(
            store_spec(c, record, stored_at),
            cookie,
            loaded_at,
        ) == Ok::<Option<P>, StoreError>(None),
{
}

/// After a destroy the session does not load.
pub proof fn lemma_destroy_removes<P>(
    c: Map<Seq<char>, SessionDocument<P>>,
    cookie: Seq<char>,
    id: Seq<char>,
    now: i64,
)
    requires
        cookie_session_id(cookie) == Some(id),
    ensures
        load_cookie_spec(destroy_spec(c, id), cookie, now) == Ok::<Option<P>, StoreError>(None),
{
}

/// After a clear no session loads, and a session stored afterwards loads
/// again.
pub proof fn lemma_clear_resets<P>(
    cookie: Seq<char>,
    record: SessionRecord<P>,
    stored_at: i64,
    loaded_at: i64,
)
    requires
        cookie_session_id(cookie) == Some(record.id@),
        expiry_fits(record.expiry, stored_at),
        loaded_at <= expire_at_spec(record.expiry, stored_at),
    ensures
        load_cookie_spec(cleared_spec::<P>(), cookie, loaded_at) == Ok::<Option<P>, StoreError>(None),
        load_cookie_spec(store_spec(cleared_spec(), record, stored_at), cookie, loaded_at)
            == Ok::<Option<P>, StoreError>(Some(record.payload)),
{
    lemma_round_trip(cleared_spec(), record, cookie, stored_at, loaded_at);
}

/// A cookie value that does not decode fails with a decode error, whatever
/// the collection holds: the lookup is never made.
pub proof fn lemma_malformed_cookie<P>(
    c: Map<Seq<char>, SessionDocument<P>>,
    cookie: Seq<char>,
    now: i64,
)
    requires
        cookie_session_id(cookie) is None,
    ensures
        load_cookie_spec(c, cookie, now) == Err::<Option<P>, StoreError>(StoreError::Decode),
{
}

/// A document without a payload yields nothing, not an error.
pub proof fn lemma_missing_payload<P>(
    c: Map<Seq<char>, SessionDocument<P>>,
    cookie: Seq<char>,
    id: Seq<char>,
    now: i64,
)
    requires
        cookie_session_id(cookie) == Some(id),
        c.contains_key(id),
        c[id].session is None,
    ensures
        load_cookie_spec(c, cookie, now) == Ok::<Option<P>, StoreError>(None),
{
}

} // verus!
