//! Verified core of a small chat/login web service.
//!
//! The crate holds the pieces of the service whose behaviour is worth
//! stating precisely: a read-only credential store, a bcrypt-backed
//! password verifier, a session codec that mints and validates
//! authenticated (private) cookies under a per-process server key, an
//! in-memory session table, and the decision logic of the login and
//! chat-page request handlers.  HTTP routing, file serving and template
//! rendering live outside the library.

pub mod codec;
pub mod errors;
pub mod handlers;
pub mod passwd;
pub mod session;
pub mod store;
