//! A capability token for reading local storage slots directly.
//!
//! [`local_scope`] opens a scope and hands its callback a [`LocalScope`] token.
//! While the token is in reach, [`LocalScope::try_access`] and
//! [`LocalScope::access`] turn a [`Slot`] into a plain reference to its value:
//! no closure per read, and never a read of a slot whose teardown has begun.

pub mod error;
pub mod scope;
pub mod slot;

pub use error::AccessError;
pub use scope::{local_scope, LocalScope};
pub use slot::{Phase, Slot};
