//! The stored form of a badge.
//!
//! A stored record is 200 bytes: 8 bytes that belong to the storage layer,
//! the configuration scope (32), the token mint (32), and 128 reserved
//! bytes.

use crate::badge::{TokenBadge, TokenBadgeView, DISCRIMINATOR_BYTES};
use crate::pubkey::{Pubkey, PUBKEY_BYTES};
use vstd::prelude::*;

verus! {

/// Where the configuration scope starts in a stored record.
pub const CONFIG_OFFSET: usize = DISCRIMINATOR_BYTES;

/// Where the token mint starts in a stored record.
pub const MINT_OFFSET: usize = CONFIG_OFFSET + PUBKEY_BYTES;

/// Where the reserved bytes start in a stored record.
pub const RESERVED_OFFSET: usize = MINT_OFFSET + PUBKEY_BYTES;

/// The bytes of a stored record: the storage layer's prefix, then the
/// fields in order.
pub open spec fn record_layout(header: Seq<u8>, badge: TokenBadgeView) -> Seq<u8> {
    header + badge.whirlpools_config + badge.token_mint + badge.reserved
}

/// The part of a stored record that belongs to the storage layer.
pub open spec fn record_header(data: Seq<u8>) -> Seq<u8> {
    data.subrange(0, CONFIG_OFFSET as int)
}

/// The fields of a stored record.
pub open spec fn parse_record(data: Seq<u8>) -> TokenBadgeView {
    TokenBadgeView {
        whirlpools_config: data.subrange(CONFIG_OFFSET as int, MINT_OFFSET as int),
        token_mint: data.subrange(MINT_OFFSET as int, RESERVED_OFFSET as int),
        reserved: data.subrange(RESERVED_OFFSET as int, TokenBadge::LEN as int),
    }
}

/// Copies `src` over the bytes of `out` that start at `offset`.
fn write_at(out: &mut [u8; TokenBadge::LEN], offset: usize, src: &[u8])
    requires
        offset + src@.len() <= TokenBadge::LEN,
    ensures
        final(out)@ == old(out)@.subrange(0, offset as int) + src@ + old(out)@.subrange(
            offset + src@.len(),
            TokenBadge::LEN as int,
        ),
{
    let ghost before = out@;
    let mut i: usize = 0;
    while i < src.len()
        invariant
            i <= src@.len(),
            offset + src@.len() <= TokenBadge::LEN,
            before.len() == TokenBadge::LEN,
            out@ =~= before.subrange(0, offset as int) + src@.subrange(0, i as int)
                + before.subrange(offset + i, TokenBadge::LEN as int),
        decreases src@.len() - i,
    {
        out[offset + i] = src[i];
        i += 1;
    }
    assert(src@.subrange(0, i as int) =~= src@);
}

/// The `N` bytes of `data` that start at `offset`.
fn read_at<const N: usize>(data: &[u8; TokenBadge::LEN], offset: usize) -> (out: [u8; N])
    requires
        offset + N <= TokenBadge::LEN,
    ensures
        out@ == data@.subrange(offset as int, offset + N),
{
    let mut out = [0u8; N];
    let mut i: usize = 0;
    while i < N
        invariant
            i <= N,
            offset + N <= TokenBadge::LEN,
            forall|j: int| 0 <= j < i ==> out@[j] == data@[offset + j],
        decreases N - i,
    {
        out[i] = data[offset + i];
        i += 1;
    }
    out
}

impl TokenBadge {
    /// The stored form of this badge behind the given prefix.
    pub fn serialize(&self, header: &[u8; DISCRIMINATOR_BYTES]) -> (out: [u8; TokenBadge::LEN])
        ensures
            out@ == record_layout(header@, self@),
            out@.len() == TokenBadge::LEN,
    {
        let mut out = [0u8; TokenBadge::LEN];
        write_at(&mut out, 0, header);
        write_at(&mut out, CONFIG_OFFSET, &self.whirlpools_config.0);
        write_at(&mut out, MINT_OFFSET, &self.token_mint.0);
        write_at(&mut out, RESERVED_OFFSET, &self.reserved);
        out
    }

    /// Reads the fields of a stored record. The prefix is skipped and the
    /// reserved bytes are carried over as they are.
    pub fn deserialize(data: &[u8; TokenBadge::LEN]) -> (badge: TokenBadge)
        ensures
            badge@ == parse_record(data@),
    {
        TokenBadge {
            whirlpools_config: Pubkey(read_at(data, CONFIG_OFFSET)),
            token_mint: Pubkey(read_at(data, MINT_OFFSET)),
            reserved: read_at(data, RESERVED_OFFSET),
        }
    }
}

/// A stored record has the same size whatever the badge holds: the prefix
/// and 192 bytes more.
pub proof fn lemma_layout_len(header: Seq<u8>, badge: TokenBadgeView)
    requires
        header.len() == DISCRIMINATOR_BYTES,
        badge.wf(),
    ensures
        record_layout(header, badge).len() == TokenBadge::LEN,
        TokenBadge::LEN == DISCRIMINATOR_BYTES + 192,
{
}

/// Reading a stored record gives back the fields that were stored, and the
/// prefix they were stored behind.
pub proof fn lemma_read_after_store(header: Seq<u8>, badge: TokenBadgeView)
    requires
        header.len() == DISCRIMINATOR_BYTES,
        badge.wf(),
    ensures
        parse_record(record_layout(header, badge)) == badge,
        record_header(record_layout(header, badge)) == header,
{
    let stored = record_layout(header, badge);
    assert(parse_record(stored).whirlpools_config =~= badge.whirlpools_config);
    assert(parse_record(stored).token_mint =~= badge.token_mint);
    assert(parse_record(stored).reserved =~= badge.reserved);
    assert(record_header(stored) =~= header);
}

/// Storing what was read from a record gives that record again, byte for
/// byte.
pub proof fn lemma_store_after_read(data: Seq<u8>)
    requires
        data.len() == TokenBadge::LEN,
    ensures
        parse_record(data).wf(),
        record_layout(record_header(data), parse_record(data)) == data,
{
    assert(record_layout(record_header(data), parse_record(data)) =~= data);
}

/// A badge that was initialized, stored and read again holds the two
/// identifiers it was initialized with, and the reserved bytes it had
/// before.
pub proof fn lemma_initialize_round_trip(
    before: TokenBadge,
    whirlpools_config: Pubkey,
    token_mint: Pubkey,
    header: Seq<u8>,
    read: TokenBadge,
)
    requires
        header.len() == DISCRIMINATOR_BYTES,
        read@ == parse_record(
            record_layout(header, before.initialized(whirlpools_config, token_mint)@),
        ),
    ensures
        read.whirlpools_config == whirlpools_config,
        read.token_mint == token_mint,
        read.reserved == before.reserved,
{
    let stored = before.initialized(whirlpools_config, token_mint);
    TokenBadge::lemma_view_injective(read, stored);
    lemma_read_after_store(header, stored@);
}

} // verus!
