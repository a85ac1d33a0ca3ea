use vstd::prelude::*;

verus! {

/// Lifetime given to a session that carries no expiry of its own:
/// twenty minutes, in milliseconds.
pub const DEFAULT_TTL_MILLIS: i64 = 1_200_000;

/// What the store reads from a session when it writes it: its identifier,
/// its expiry (milliseconds since the Unix epoch) if it has one, and its
/// serialized payload.
pub struct SessionRecord<P> {
    pub id: String,
    pub expiry: Option<i64>,
    pub payload: P,
}

/// A session as it lies in the collection. Documents written by the store
/// always carry `session` and `expire_at`; a document found in the collection
/// may lack either.
pub struct SessionDocument<P> {
    pub session_id: String,
    pub session: Option<P>,
    pub expire_at: Option<i64>,
    pub created: i64,
}

/// The deadline a session stored at `now` gets.
pub open spec fn expire_at_spec(expiry: Option<i64>, now: i64) -> int {
    match expiry {
        Some(e) => e as int,
        None => now + DEFAULT_TTL_MILLIS,
    }
}

/// A session stored at `now` can get its deadline without overflow.
pub open spec fn expiry_fits(expiry: Option<i64>, now: i64) -> bool {
    expiry is None ==> now + DEFAULT_TTL_MILLIS <= i64::MAX
}

/// The document that replaces whatever is stored under the record's id.
pub open spec fn document_spec<P>(record: SessionRecord<P>, now: i64) -> SessionDocument<P> {
    SessionDocument {
        session_id: record.id,
        session: Some(record.payload),
        expire_at: Some(expire_at_spec(record.expiry, now) as i64),
        created: now,
    }
}

/// A deadline has passed when it lies strictly before `now`; a missing one
/// never passes.
pub open spec fn expired_spec(expire_at: Option<i64>, now: i64) -> bool {
    match expire_at {
        Some(e) => e < now,
        None => false,
    }
}

/// What a lookup yields: nothing for a missing document, a document without
/// a payload, or one whose deadline has passed; the payload otherwise.
pub open spec fn load_spec<P>(found: Option<SessionDocument<P>>, now: i64) -> Option<P> {
    match found {
        None => None,
        Some(d) => if d.session is None || expired_spec(d.expire_at, now) {
            None
        } else {
            d.session
        },
    }
}

/// The deadline of a session stored at `now`: its own expiry, or `now` plus
/// the default lifetime.
pub fn expire_at_for(expiry: Option<i64>, now: i64) -> (r: i64)
    requires
        expiry_fits(expiry, now),
    ensures
        r == expire_at_spec(expiry, now),
{
    match expiry {
        Some(e) => e,
        None => now + DEFAULT_TTL_MILLIS,
    }
}

/// Builds the document that an upsert keyed on the record's id writes.
pub fn replacement_document<P>(record: SessionRecord<P>, now: i64) -> (r: SessionDocument<P>)
    requires
        expiry_fits(record.expiry, now),
    ensures
        r == document_spec(record, now),
        r.session_id@ == record.id@,
        r.expire_at == Some(expire_at_spec(record.expiry, now) as i64),
        record.expiry is None ==> r.expire_at == Some((now + DEFAULT_TTL_MILLIS) as i64),
        r.session == Some(record.payload),
        r.created == now,
{
    let expire_at = expire_at_for(record.expiry, now);
    SessionDocument {
        session_id: record.id,
        session: Some(record.payload),
        expire_at: Some(expire_at),
        created: now,
    }
}

/// Whether a deadline has passed at `now`.
pub fn is_expired(expire_at: Option<i64>, now: i64) -> (r: bool)
    ensures
        r == expired_spec(expire_at, now),
{
    match expire_at {
        Some(e) => e < now,
        None => false,
    }
}

/// Decides what a load returns from the document the lookup found, if any.
/// Absence, a missing payload and a passed deadline all give `None`, never an
/// error.
pub fn load_outcome<P>(found: Option<SessionDocument<P>>, now: i64) -> (r: Option<P>)
    ensures
        r == load_spec(found, now),
        found is None ==> r is None,
        found matches Some(d) ==> (d.session is None ==> r is None),
        found matches Some(d) ==> (expired_spec(d.expire_at, now) ==> r is None),
        found matches Some(d) ==> (d.session is Some && !expired_spec(d.expire_at, now)
            ==> r == d.session),
{
    match found {
        None => None,
        Some(d) => {
            if d.session.is_none() || is_expired(d.expire_at, now) {
                None
            } else {
                d.session
            }
        },
    }
}

} // verus!
