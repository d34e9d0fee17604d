//! Fixed-width identifiers.

use crate::bytes::{bytes_equal, zero_bytes};
use crate::errors::ErrorCode;
use vstd::prelude::*;
use vstd::std_specs::cmp::PartialEqSpecImpl;

verus! {

/// Number of bytes in an identifier.
pub const PUBKEY_BYTES: usize = 32;

/// An opaque 32-byte identifier. Two identifiers are equal when their
/// bytes are.
#[derive(Clone, Copy, Debug, Eq)]
pub struct Pubkey(pub [u8; PUBKEY_BYTES]);

impl View for Pubkey {
    type V = Seq<u8>;

    open spec fn view(&self) -> Seq<u8> {
        self.0@
    }
}

impl Pubkey {
    /// Wraps a 32-byte array.
    pub fn new_from_array(bytes: [u8; PUBKEY_BYTES]) -> (key: Pubkey)
        ensures
            key == Pubkey(bytes),
    {
        Pubkey(bytes)
    }

    /// The identifier's bytes.
    pub fn to_bytes(&self) -> (bytes: [u8; PUBKEY_BYTES])
        ensures
            bytes == self.0,
    {
        self.0
    }

    /// Builds an identifier from a slice, which must hold exactly 32 bytes.
    /// A slice of any other length is rejected: it is neither cut nor
    /// filled up.
    pub fn try_from_slice(bytes: &[u8]) -> (result: Result<Pubkey, ErrorCode>)
        ensures
            bytes@.len() == PUBKEY_BYTES ==> result is Ok && result->Ok_0@ == bytes@,
            bytes@.len() != PUBKEY_BYTES ==> result == Err::<Pubkey, ErrorCode>(
                ErrorCode::MalformedIdentifier,
            ),
    {
        if bytes.len() != PUBKEY_BYTES {
            return Err(ErrorCode::MalformedIdentifier);
        }
        let mut array = [0u8; PUBKEY_BYTES];
        let mut i: usize = 0;
        while i < PUBKEY_BYTES
            invariant
                i <= PUBKEY_BYTES,
                bytes@.len() == PUBKEY_BYTES,
                forall|j: int| 0 <= j < i ==> array@[j] == bytes@[j],
            decreases PUBKEY_BYTES - i,
        {
            array[i] = bytes[i];
            i += 1;
        }
        assert(array@ =~= bytes@);
        Ok(Pubkey(array))
    }

    /// An identifier is 32 bytes and nothing else: two with the same
    /// bytes are the same.
    pub proof fn lemma_view_injective(a: Pubkey, b: Pubkey)
        ensures
            a@ == b@ <==> a == b,
            a@.len() == PUBKEY_BYTES,
    {
        if a@ == b@ {
            assert(a.0 =~= b.0);
        }
    }
}

impl Default for Pubkey {
    /// The identifier whose bytes are all zero.
    fn default() -> (key: Pubkey)
        ensures
            key@ == zero_bytes(PUBKEY_BYTES as nat),
    {
        let key = Pubkey([0u8; PUBKEY_BYTES]);
        assert(key@ =~= zero_bytes(PUBKEY_BYTES as nat));
        key
    }
}

impl PartialEq for Pubkey {
    fn eq(&self, other: &Pubkey) -> (equal: bool) {
        proof {
            Pubkey::lemma_view_injective(*self, *other);
        }
        bytes_equal(&self.0, &other.0)
    }
}

impl PartialEqSpecImpl for Pubkey {
    open spec fn obeys_eq_spec() -> bool {
        true
    }

    open spec fn eq_spec(&self, other: &Pubkey) -> bool {
        *self == *other
    }
}

} // verus!
