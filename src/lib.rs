//! Session persistence for a document collection: the document a session is
//! stored as, the deadline it gets, the expiry index, and the decision taken
//! on what a lookup returned.

pub mod cookie;
pub mod document;
pub mod error;
pub mod index;
pub mod laws;
