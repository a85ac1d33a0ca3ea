use vstd::prelude::*;

use crate::error::StoreError;

verus! {

/// The session id that a cookie value encodes, or `None` for a value that
/// does not decode.
pub uninterp spec fn cookie_session_id(cookie: Seq<char>) -> Option<Seq<char>>;

/// Relies on async_session::Session::id_from_cookie_value: it base64-decodes
/// the cookie value and derives the id from the bytes alone, and fails where
/// the value is not base64.
#[verifier::external_body]
fn id_from_cookie_value(cookie: &str) -> (r: Option<String>)
    ensures
        r matches Some(id) ==> cookie_session_id(cookie@) == Some(id@),
        r is None ==> cookie_session_id(cookie@) is None,
{
    async_session::Session::id_from_cookie_value(cookie).ok()
}

/// First step of a load: the session id to look up, taken from the cookie
/// value. A value that does not decode fails with `StoreError::Decode`
/// before the collection is touched.
pub fn session_id_from_cookie(cookie: &str) -> (r: Result<String, StoreError>)
    ensures
        r matches Ok(id) ==> cookie_session_id(cookie@) == Some(id@),
        r matches Err(e) ==> e == StoreError::Decode && cookie_session_id(cookie@) is None,
        r is Err <==> cookie_session_id(cookie@) is None,
{
    match id_from_cookie_value(cookie) {
        Some(id) => Ok(id),
        None => Err(StoreError::Decode),
    }
}

} // verus!
