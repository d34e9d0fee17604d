//! The token badge record: a fixed-size marker that a token mint is
//! registered under a configuration scope.
//!
//! [`TokenBadge`] is the record and `initialize` its one state change;
//! [`layout`] gives its stored form and proves that storing and reading
//! are inverse to each other.

pub mod badge;
pub mod bytes;
pub mod errors;
pub mod layout;
pub mod pubkey;

pub use crate::badge::TokenBadge;
pub use crate::errors::ErrorCode;
pub use crate::pubkey::Pubkey;
