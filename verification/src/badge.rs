//! The badge record and its one state change.

use crate::bytes::{bytes_equal, zero_bytes};
use crate::errors::ErrorCode;
use crate::pubkey::{Pubkey, PUBKEY_BYTES};
use vstd::prelude::*;
use vstd::std_specs::cmp::PartialEqSpecImpl;

verus! {

/// Bytes at the front of a stored record that belong to the storage layer.
pub const DISCRIMINATOR_BYTES: usize = 8;

/// Bytes kept free behind the two identifiers for later versions.
pub const RESERVED_BYTES: usize = 128;

/// Marks a token mint as registered under a configuration scope.
///
/// The two identifiers together name the badge. The reserved bytes carry
/// no meaning: they are zero in a new record and nothing here reads them.
#[derive(Debug, Eq)]
pub struct TokenBadge {
    pub whirlpools_config: Pubkey,
    pub token_mint: Pubkey,
    pub reserved: [u8; RESERVED_BYTES],
}

/// A badge as three byte sequences.
pub struct TokenBadgeView {
    pub whirlpools_config: Seq<u8>,
    pub token_mint: Seq<u8>,
    pub reserved: Seq<u8>,
}

impl TokenBadgeView {
    /// Every field has its width.
    pub open spec fn wf(self) -> bool {
        &&& self.whirlpools_config.len() == PUBKEY_BYTES
        &&& self.token_mint.len() == PUBKEY_BYTES
        &&& self.reserved.len() == RESERVED_BYTES
    }

    /// The record in which every byte is zero.
    pub open spec fn zeroed() -> TokenBadgeView {
        TokenBadgeView {
            whirlpools_config: zero_bytes(PUBKEY_BYTES as nat),
            token_mint: zero_bytes(PUBKEY_BYTES as nat),
            reserved: zero_bytes(RESERVED_BYTES as nat),
        }
    }
}

impl View for TokenBadge {
    type V = TokenBadgeView;

    open spec fn view(&self) -> TokenBadgeView {
        TokenBadgeView {
            whirlpools_config: self.whirlpools_config@,
            token_mint: self.token_mint@,
            reserved: self.reserved@,
        }
    }
}

impl TokenBadge {
    /// Size of a stored record: the storage layer's prefix, the two
    /// identifiers and the reserved bytes.
    pub const LEN: usize = DISCRIMINATOR_BYTES + PUBKEY_BYTES + PUBKEY_BYTES + RESERVED_BYTES;

    /// The record after `initialize`: both identifiers replaced, the
    /// reserved bytes as they were.
    pub open spec fn initialized(self, whirlpools_config: Pubkey, token_mint: Pubkey) -> TokenBadge {
        TokenBadge { whirlpools_config, token_mint, reserved: self.reserved }
    }

    /// Sets the two identifiers. Whatever they held before is overwritten;
    /// the reserved bytes are not touched. Never fails.
    pub fn initialize(&mut self, whirlpools_config: Pubkey, token_mint: Pubkey) -> (result: Result<
        (),
        ErrorCode,
    >)
        ensures
            result is Ok,
            *final(self) == old(self).initialized(whirlpools_config, token_mint),
    {
        self.whirlpools_config = whirlpools_config;
        self.token_mint = token_mint;
        Ok(())
    }

    /// A badge is its three fields, each of its width, and nothing else:
    /// two badges with the same bytes are the same.
    pub proof fn lemma_view_injective(a: TokenBadge, b: TokenBadge)
        ensures
            a@ == b@ <==> a == b,
            a@.wf(),
    {
        Pubkey::lemma_view_injective(a.whirlpools_config, b.whirlpools_config);
        Pubkey::lemma_view_injective(a.token_mint, b.token_mint);
        if a@ == b@ {
            assert(a.reserved =~= b.reserved);
        }
    }

    /// `initialize` leaves the reserved bytes alone: a record that starts
    /// with all of them zero, as a new one does, still has them zero
    /// afterwards.
    pub proof fn lemma_initialize_keeps_reserved(
        before: TokenBadge,
        whirlpools_config: Pubkey,
        token_mint: Pubkey,
    )
        ensures
            before.initialized(whirlpools_config, token_mint).reserved == before.reserved,
            before@.reserved == zero_bytes(RESERVED_BYTES as nat) ==> before.initialized(
                whirlpools_config,
                token_mint,
            )@.reserved == zero_bytes(RESERVED_BYTES as nat),
    {
    }

    /// Initializing a second time leaves no trace of the first: the record
    /// is as if only the later call had been made.
    pub proof fn lemma_initialize_overwrites(
        before: TokenBadge,
        first_config: Pubkey,
        first_mint: Pubkey,
        second_config: Pubkey,
        second_mint: Pubkey,
    )
        ensures
            before.initialized(first_config, first_mint).initialized(second_config, second_mint)
                == before.initialized(second_config, second_mint),
    {
    }
}

impl Clone for TokenBadge {
    fn clone(&self) -> (copy: TokenBadge)
        ensures
            copy == *self,
    {
        TokenBadge {
            whirlpools_config: self.whirlpools_config,
            token_mint: self.token_mint,
            reserved: self.reserved,
        }
    }
}

impl Default for TokenBadge {
    /// A new record: every byte zero.
    fn default() -> (badge: TokenBadge)
        ensures
            badge@ == TokenBadgeView::zeroed(),
    {
        let badge = TokenBadge {
            whirlpools_config: Pubkey::default(),
            token_mint: Pubkey::default(),
            reserved: [0u8; RESERVED_BYTES],
        };
        assert(badge.reserved@ =~= zero_bytes(RESERVED_BYTES as nat));
        badge
    }
}

impl PartialEq for TokenBadge {
    fn eq(&self, other: &TokenBadge) -> (equal: bool) {
        proof {
            TokenBadge::lemma_view_injective(*self, *other);
        }
        self.whirlpools_config == other.whirlpools_config && self.token_mint == other.token_mint
            && bytes_equal(&self.reserved, &other.reserved)
    }
}

impl PartialEqSpecImpl for TokenBadge {
    open spec fn obeys_eq_spec() -> bool {
        true
    }

    open spec fn eq_spec(&self, other: &TokenBadge) -> bool {
        *self == *other
    }
}

} // verus!
