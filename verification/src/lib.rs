//! In-memory session registry for a multiplayer game backend.
//!
//! The library holds the verified core: canonical session identifiers
//! (parsing and formatting), the session record with its partial-update
//! semantics, the session store, and the pure request router. Transport,
//! JSON encoding and process setup live outside the library.

pub mod ids;
pub mod session;
pub mod store;
pub mod router;
