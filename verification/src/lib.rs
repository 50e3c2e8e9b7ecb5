//! Coordination core for a surplus-food donation service.
//!
//! Donors post surplus food, receivers take it, drivers deliver it, and a
//! governing authority may approve actions on behalf of any caller.  This
//! crate holds the in-memory core of that service: the entity registries,
//! the shared id generator, the field-level and referential validation that
//! every mutation passes through, and the assignment state machine that
//! takes a posting from `Open` through `Assigned` to `Delivered`.
//!
//! Transport, wire encoding, persistence and the remote governance oracle
//! are collaborators outside this crate; the operations here take the
//! oracle's verdict and the clock reading as plain arguments.

pub mod auth;
pub mod coordinator;
pub mod entities;
pub mod errors;
pub mod laws;
pub mod registry;
pub mod store;
pub mod validate;
