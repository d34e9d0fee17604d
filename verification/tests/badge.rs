use token_badge::badge::{TokenBadge, DISCRIMINATOR_BYTES, RESERVED_BYTES};
use token_badge::errors::ErrorCode;
use token_badge::pubkey::{Pubkey, PUBKEY_BYTES};

fn key(byte: u8) -> Pubkey {
    Pubkey::new_from_array([byte; 32])
}

#[test]
fn record_size_is_prefix_plus_192() {
    assert_eq!(TokenBadge::LEN, 200);
    assert_eq!(TokenBadge::LEN, DISCRIMINATOR_BYTES + 192);
    assert_eq!(
        TokenBadge::LEN,
        DISCRIMINATOR_BYTES + PUBKEY_BYTES + PUBKEY_BYTES + RESERVED_BYTES
    );
    assert_eq!(DISCRIMINATOR_BYTES, 8);
    assert_eq!(RESERVED_BYTES, 128);
}

#[test]
fn new_record_is_all_zero() {
    let badge = TokenBadge::default();
    assert_eq!(badge.whirlpools_config.to_bytes(), [0u8; 32]);
    assert_eq!(badge.token_mint.to_bytes(), [0u8; 32]);
    assert_eq!(badge.reserved, [0u8; 128]);
}

#[test]
fn initialize_sets_both_identifiers() {
    let mut badge = TokenBadge::default();
    let result = badge.initialize(key(0x01), key(0x02));
    assert_eq!(result, Ok(()));
    assert_eq!(badge.whirlpools_config.to_bytes(), [0x01u8; 32]);
    assert_eq!(badge.token_mint.to_bytes(), [0x02u8; 32]);
    assert_eq!(badge.reserved, [0u8; 128]);
}

#[test]
fn initialize_keeps_the_two_identifiers_apart() {
    let mut config = [0u8; 32];
    let mut mint = [0u8; 32];
    for i in 0..32 {
        config[i] = i as u8;
        mint[i] = 255 - i as u8;
    }
    let mut badge = TokenBadge::default();
    assert!(badge
        .initialize(Pubkey::new_from_array(config), Pubkey::new_from_array(mint))
        .is_ok());
    assert_eq!(badge.whirlpools_config.to_bytes(), config);
    assert_eq!(badge.token_mint.to_bytes(), mint);
}

#[test]
fn initialize_twice_keeps_only_the_later_values() {
    let mut badge = TokenBadge::default();
    assert_eq!(badge.initialize(key(0x01), key(0x02)), Ok(()));
    assert_eq!(badge.initialize(key(0x0a), key(0x0b)), Ok(()));
    assert_eq!(badge.whirlpools_config, key(0x0a));
    assert_eq!(badge.token_mint, key(0x0b));
    assert_eq!(badge.reserved, [0u8; 128]);

    let mut once = TokenBadge::default();
    assert_eq!(once.initialize(key(0x0a), key(0x0b)), Ok(()));
    assert_eq!(badge, once);
}

#[test]
fn initialize_accepts_equal_and_zero_identifiers() {
    let mut badge = TokenBadge::default();
    assert_eq!(badge.initialize(key(0x07), key(0x07)), Ok(()));
    assert_eq!(badge.whirlpools_config, badge.token_mint);
    assert_eq!(badge.initialize(key(0x00), key(0xff)), Ok(()));
    assert_eq!(badge.whirlpools_config.to_bytes(), [0u8; 32]);
    assert_eq!(badge.token_mint.to_bytes(), [0xffu8; 32]);
}

#[test]
fn initialize_does_not_touch_reserved_bytes() {
    let mut reserved = [0u8; 128];
    reserved[0] = 9;
    reserved[127] = 200;
    let mut badge = TokenBadge {
        whirlpools_config: key(0x11),
        token_mint: key(0x22),
        reserved,
    };
    assert_eq!(badge.initialize(key(0x33), key(0x44)), Ok(()));
    assert_eq!(badge.whirlpools_config, key(0x33));
    assert_eq!(badge.token_mint, key(0x44));
    assert_eq!(badge.reserved, reserved);
}

#[test]
fn clone_is_equal_and_independent() {
    let mut badge = TokenBadge::default();
    assert_eq!(badge.initialize(key(0x01), key(0x02)), Ok(()));
    let copy = badge.clone();
    assert_eq!(copy, badge);
    assert_eq!(badge.initialize(key(0x03), key(0x04)), Ok(()));
    assert_eq!(copy.whirlpools_config, key(0x01));
    assert_eq!(copy.token_mint, key(0x02));
    assert_ne!(copy, badge);
}

#[test]
fn the_only_error_is_a_malformed_identifier() {
    let error = Pubkey::try_from_slice(&[1u8; 5]).unwrap_err();
    assert_eq!(error, ErrorCode::MalformedIdentifier);
    assert!(matches!(error, ErrorCode::MalformedIdentifier));
}
