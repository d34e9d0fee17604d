//! Errors reported by this crate.

use vstd::prelude::*;

verus! {

/// What can go wrong when values are handed to this crate.
#[derive(Clone, Copy, Debug, PartialEq, Eq, Structural)]
pub enum ErrorCode {
    /// An identifier was not exactly 32 bytes long.
    MalformedIdentifier,
}

} // verus!
