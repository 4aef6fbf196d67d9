//! Decoding and encoding of program accounts.

use pump_rust_client::account_wrapper::{AccountState, AccountWrapper};
use pump_rust_client::accounts::pump_amm::decode_pool;
use pump_rust_client::accounts::{decode_bonding_curve, decode_bonding_curve_nullable};
use pump_rust_client::errors::{DecodeError, PumpClientError};
use pump_rust_client::pubkey::{Pubkey, DEFAULT_KEY};
use pump_rust_client::state::pump_amm::Pool;
use pump_rust_client::state::BondingCurve;
use pump_rust_client::{constants, decode};
use solana_program::hash::hash;

fn fake_pubkey(seed: u8) -> Pubkey {
    [seed; 32]
}

fn fixture_curve() -> BondingCurve {
    BondingCurve {
        virtual_token_reserves: 1_000_000_000,
        virtual_quote_reserves: 30_000_000_000,
        real_token_reserves: 800_000_000,
        real_quote_reserves: 0,
        token_total_supply: 1_000_000_000_000,
        complete: false,
        creator: fake_pubkey(7),
        is_mayhem_mode: true,
        is_cashback_coin: false,
        quote_mint: constants::NATIVE_MINT,
    }
}

fn fixture_pool(virtual_quote_reserves: i128) -> Pool {
    Pool {
        pool_bump: 254,
        index: 0,
        creator: fake_pubkey(11),
        base_mint: fake_pubkey(12),
        quote_mint: constants::NATIVE_MINT,
        lp_mint: fake_pubkey(13),
        pool_base_token_account: fake_pubkey(14),
        pool_quote_token_account: fake_pubkey(15),
        lp_supply: 1_000_000,
        coin_creator: fake_pubkey(16),
        is_mayhem_mode: false,
        is_cashback_coin: false,
        virtual_quote_reserves,
    }
}

#[test]
fn try_deserialize_pads_short_buffer() {
    let original = fixture_curve();
    let full = original.to_account_bytes();

    let truncated_len = full.len() - 33; // quote_mint (32) + is_cashback_coin (1)
    let short = &full[..truncated_len];

    let decoded = AccountWrapper::<BondingCurve>::try_deserialize(&mut &short[..])
        .expect("decode")
        .into_inner();
    assert_eq!(decoded.virtual_token_reserves, original.virtual_token_reserves);
    assert_eq!(decoded.creator, original.creator);
    assert_eq!(decoded.is_mayhem_mode, original.is_mayhem_mode);
    assert!(!decoded.is_cashback_coin);
    assert_eq!(decoded.quote_mint, DEFAULT_KEY);
}

#[test]
fn try_deserialize_full_buffer_is_passthrough() {
    let original = BondingCurve {
        virtual_token_reserves: 42,
        virtual_quote_reserves: 0,
        real_token_reserves: 0,
        real_quote_reserves: 0,
        token_total_supply: 0,
        complete: true,
        creator: fake_pubkey(3),
        is_mayhem_mode: false,
        is_cashback_coin: true,
        quote_mint: constants::NATIVE_MINT,
    };
    let full = original.to_account_bytes();

    let decoded = AccountWrapper::<BondingCurve>::try_deserialize(&mut &full[..])
        .expect("decode")
        .into_inner();
    assert_eq!(decoded.virtual_token_reserves, 42);
    assert_eq!(decoded.complete, original.complete);
    assert_eq!(decoded.creator, original.creator);
    assert_eq!(decoded.is_cashback_coin, original.is_cashback_coin);
    assert_eq!(decoded.quote_mint, original.quote_mint);
}

#[test]
fn bonding_curve_round_trip() {
    let original = fixture_curve();
    let buf = original.to_account_bytes();

    let decoded: BondingCurve = decode(&buf).expect("decode");
    assert_eq!(decoded.virtual_token_reserves, original.virtual_token_reserves);
    assert_eq!(decoded.creator, original.creator);
    assert_eq!(decoded.is_mayhem_mode, original.is_mayhem_mode);
    assert_eq!(decoded.quote_mint, original.quote_mint);
    assert_eq!(decoded, original);
}

/// Truncating a non-zero virtual figure to `u64`, or dropping it, would
/// misprice every quote taken against the pool.
#[test]
fn pool_round_trip_preserves_virtual_quote_reserves() {
    let original = fixture_pool(25_000_000_000);
    let buf = original.to_account_bytes();

    let decoded = decode_pool(&buf).expect("decode_pool");
    assert_eq!(decoded.virtual_quote_reserves, 25_000_000_000);
    assert_eq!(decoded.coin_creator, original.coin_creator);
    assert_eq!(decoded.pool_quote_token_account, original.pool_quote_token_account);
}

/// A pool account without the trailing `i128` is 16 bytes short and reads as
/// having no virtual reserves.
#[test]
fn pre_extension_pool_account_decodes_virtual_reserves_as_zero() {
    let original = fixture_pool(0);
    let full = original.to_account_bytes();

    let truncated = &full[..full.len() - 16];
    let decoded = decode_pool(truncated).expect("decode truncated pool");

    assert_eq!(decoded.virtual_quote_reserves, 0);
    assert_eq!(decoded.coin_creator, original.coin_creator);
}

#[test]
fn account_tags_are_hashes_of_the_account_names() {
    assert_eq!(
        BondingCurve::discriminator(),
        hash(b"account:BondingCurve").to_bytes()[..8]
    );
    assert_eq!(Pool::discriminator(), hash(b"account:Pool").to_bytes()[..8]);
}

#[test]
fn accounts_have_their_canonical_lengths() {
    assert_eq!(BondingCurve::canonical_len(), 115);
    assert_eq!(fixture_curve().to_account_bytes().len(), 115);
    assert_eq!(Pool::canonical_len(), 261);
    assert_eq!(fixture_pool(1).to_account_bytes().len(), 261);
}

#[test]
fn curve_fields_stand_in_order_and_little_endian() {
    let bytes = fixture_curve().to_account_bytes();
    assert_eq!(&bytes[..8], &BondingCurve::discriminator());
    assert_eq!(&bytes[8..16], &1_000_000_000u64.to_le_bytes());
    assert_eq!(&bytes[16..24], &30_000_000_000u64.to_le_bytes());
    assert_eq!(&bytes[24..32], &800_000_000u64.to_le_bytes());
    assert_eq!(&bytes[32..40], &0u64.to_le_bytes());
    assert_eq!(&bytes[40..48], &1_000_000_000_000u64.to_le_bytes());
    assert_eq!(bytes[48], 0);
    assert_eq!(&bytes[49..81], &fake_pubkey(7));
    assert_eq!(bytes[81], 1);
    assert_eq!(bytes[82], 0);
    assert_eq!(&bytes[83..115], &constants::NATIVE_MINT);
}

#[test]
fn negative_virtual_reserves_survive_the_round_trip() {
    let original = fixture_pool(-5_000_000_000);
    let bytes = original.to_account_bytes();
    assert_eq!(&bytes[245..261], &(-5_000_000_000i128).to_le_bytes());
    assert_eq!(decode_pool(&bytes), Ok(original));

    let extreme = fixture_pool(i128::MIN);
    assert_eq!(decode_pool(&extreme.to_account_bytes()), Ok(extreme));
}

#[test]
fn trailing_bytes_are_ignored() {
    let original = fixture_curve();
    let mut bytes = original.to_account_bytes();
    bytes.extend_from_slice(&[0xFF; 36]);
    assert_eq!(decode_bonding_curve(&bytes), Ok(original));
}

#[test]
fn another_accounts_tag_is_refused() {
    let bytes = fixture_pool(0).to_account_bytes();
    assert_eq!(
        decode_bonding_curve(&bytes),
        Err(PumpClientError::Decode(DecodeError::WrongDiscriminator))
    );
    assert_eq!(decode_bonding_curve_nullable(&bytes), None);
    assert_eq!(
        decode_bonding_curve(&[]),
        Err(PumpClientError::Decode(DecodeError::WrongDiscriminator))
    );
}

#[test]
fn a_byte_that_is_no_bool_is_malformed() {
    let mut bytes = fixture_curve().to_account_bytes();
    bytes[48] = 2;
    assert_eq!(
        decode_bonding_curve(&bytes),
        Err(PumpClientError::Decode(DecodeError::Malformed))
    );
    assert_eq!(decode_bonding_curve_nullable(&bytes), None);
}

#[test]
fn unchecked_reading_takes_any_tag() {
    let original = fixture_curve();
    let mut bytes = original.to_account_bytes();
    bytes[0] = bytes[0].wrapping_add(1);
    assert!(AccountWrapper::<BondingCurve>::try_deserialize(&mut &bytes[..]).is_err());
    let decoded = AccountWrapper::<BondingCurve>::try_deserialize_unchecked(&mut &bytes[..])
        .expect("fields");
    assert_eq!(decoded.into_inner(), original);
}

#[test]
fn nullable_decoding_gives_back_what_was_written() {
    let original = fixture_curve();
    assert_eq!(
        decode_bonding_curve_nullable(&original.to_account_bytes()),
        Some(original)
    );
    assert_eq!(AccountWrapper::new(original).into_inner(), original);
}

#[test]
fn reading_consumes_short_accounts_only() {
    let full = fixture_curve().to_account_bytes();
    let long = [&full[..], &[9, 9]].concat();

    let mut short = &full[..82];
    assert!(AccountWrapper::<BondingCurve>::try_deserialize(&mut short).is_ok());
    assert!(short.is_empty());
    let mut short = &full[..82];
    assert!(AccountWrapper::<BondingCurve>::try_deserialize_unchecked(&mut short).is_ok());
    assert!(short.is_empty());

    let mut buf = &long[..];
    assert!(AccountWrapper::<BondingCurve>::try_deserialize(&mut buf).is_ok());
    assert_eq!(buf, &long[..]);
    assert!(AccountWrapper::<BondingCurve>::try_deserialize_unchecked(&mut buf).is_ok());
    assert_eq!(buf, &long[..]);

    let mut broken = full[..82].to_vec();
    broken[48] = 2;
    let mut buf = &broken[..];
    assert!(AccountWrapper::<BondingCurve>::try_deserialize(&mut buf).is_err());
    assert_eq!(buf, &broken[..]);
    assert!(AccountWrapper::<BondingCurve>::try_deserialize_unchecked(&mut buf).is_err());
    assert_eq!(buf, &broken[..]);
}

#[test]
fn wrappers_are_made_from_what_they_hold() {
    let curve = fixture_curve();
    assert_eq!(AccountWrapper::from(curve), AccountWrapper::new(curve));
    assert_eq!(AccountWrapper::new(curve).creator, curve.creator);
    assert_eq!(
        AccountWrapper::<BondingCurve>::default().into_inner(),
        BondingCurve::default()
    );
}
