//! A capability-scoped TCP socket abstraction.
//!
//! Each TCP endpoint is a resource that progresses through an explicit
//! lifecycle (unbound, bound, listening, connecting, connected).  All
//! blocking system interaction is decomposed into start/finish pairs so a
//! guest can poll; the decisions taken on every guest call -- lifecycle
//! checks, address validation, option clamping, and the normalization of
//! platform-specific error codes -- are the logic of this crate, stated in
//! contracts and verified.  The host glue that owns the operating-system
//! handle performs the system calls and feeds their outcomes back in as
//! plain values.

pub mod address;
pub mod error;
pub mod laws;
pub mod machine;
pub mod sockopt;
pub mod stream;
pub mod system;
