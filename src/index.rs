use vstd::prelude::*;
use vstd::string::*;

verus! {

/// An index that has the database delete a document once the date in
/// `field` lies `expire_after_seconds` in the past.
pub struct ExpireIndex {
    pub collection: String,
    pub field: String,
    pub name: String,
    pub expire_after_seconds: u32,
}

/// Describes the expiry index on `field` of `collection`. Its name is fixed
/// by the field, so that creating it again changes nothing.
pub fn expire_index(collection: &str, field: &str, expire_after_seconds: u32) -> (r: ExpireIndex)
    ensures
        r.collection@ == collection@,
        r.field@ == field@,
        r.name@ == "session_expire_index_"@ + field@,
        r.expire_after_seconds == expire_after_seconds,
{
    let mut name = String::from_str("session_expire_index_");
    name.append(field);
    ExpireIndex {
        collection: String::from_str(collection),
        field: String::from_str(field),
        name,
        expire_after_seconds,
    }
}

/// The index that makes `expireAt` an absolute deadline: a document goes as
/// soon as the date it holds has passed.
pub fn index_on_expiry_at(collection: &str) -> (r: ExpireIndex)
    ensures
        r.collection@ == collection@,
        r.field@ == "expireAt"@,
        r.name@ == "session_expire_index_expireAt"@,
        r.expire_after_seconds == 0,
{
    let r = expire_index(collection, "expireAt", 0);
    proof {
        reveal_strlit("session_expire_index_");
        reveal_strlit("expireAt");
        reveal_strlit("session_expire_index_expireAt");
        assert(r.name@ =~= "session_expire_index_expireAt"@);
    }
    r
}

} // verus!
