use vstd::prelude::*;

verus! {

/// Why an operation of the store failed.
#[derive(Clone, Copy, Debug, PartialEq, Eq, Structural)]
pub enum StoreError {
    /// The database could not be reached.
    Connection,
    /// A session could not be turned into its document form.
    Serialization,
    /// A stored payload could not be turned back into a session.
    Deserialization,
    /// A cookie value does not encode a session id.
    Decode,
    /// Writing a session failed.
    Write,
    /// Looking a session up failed.
    Read,
    /// Deleting a session failed.
    Delete,
    /// Dropping the collection failed.
    Drop,
    /// Creating the expiry index failed.
    Index,
}

} // verus!
