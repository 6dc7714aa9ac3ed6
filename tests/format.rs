use aum_keeper::decimal::DecimalValue;
use aum_keeper::prices::{format_chaos_labs_oracle_entry_to_params, AssetsPrices, Feed, FormatError};
use aum_keeper::signature::{decode_signature, SignatureError};

fn dec(mantissa: i128, scale: u32) -> DecimalValue {
    DecimalValue { mantissa, scale }
}

fn signature_hex() -> String {
    let mut s = String::new();
    for i in 0..64u32 {
        s.push_str(&format!("{:02x}", (i * 3 + 1) % 256));
    }
    s
}

fn snapshot() -> AssetsPrices {
    AssetsPrices {
        solusd_price: dec(1_500_000, 4),
        jitosolusd_price: dec(1_750_000, 4),
        btcusd_price: dec(6_500_000_000, 5),
        wbtcusd_price: dec(6_490_000_000, 5),
        bonkusd_price: dec(25, 0),
        usdcusd_price: dec(10_000, 4),
        solusd_price_ts: 1_700_000_000,
        jitosolusd_price_ts: 1_700_000_001,
        btcusd_price_ts: 1_700_000_002,
        wbtcusd_price_ts: 1_700_000_003,
        bonkusd_price_ts: 1_700_000_004,
        usdcusd_price_ts: 1_700_000_005,
        signature: signature_hex(),
        recovery_id: 1,
        latest_timestamp: 1_700_000_010,
    }
}

#[test]
fn format_emits_six_entries_in_fixed_order() {
    let b = format_chaos_labs_oracle_entry_to_params(&snapshot()).unwrap();
    let ids: Vec<u8> = b.prices.iter().map(|p| p.feed_id).collect();
    assert_eq!(ids, vec![1, 0, 3, 2, 4, 5]);
    let prices: Vec<u64> = b.prices.iter().map(|p| p.price).collect();
    assert_eq!(prices, vec![175, 150, 64_900, 65_000, 25, 1]);
    let ts: Vec<i64> = b.prices.iter().map(|p| p.timestamp).collect();
    assert_eq!(
        ts,
        vec![1_700_000_001, 1_700_000_000, 1_700_000_003, 1_700_000_002, 1_700_000_004, 1_700_000_005]
    );
    assert_eq!(b.recovery_id, 1);
}

#[test]
fn format_decodes_signature_bytes_exactly() {
    let b = format_chaos_labs_oracle_entry_to_params(&snapshot()).unwrap();
    let expected: Vec<u8> = (0..64u32).map(|i| ((i * 3 + 1) % 256) as u8).collect();
    assert_eq!(b.signature, expected);
}

#[test]
fn format_accepts_upper_case_hex() {
    let mut e = snapshot();
    e.signature = "AB".repeat(64);
    let b = format_chaos_labs_oracle_entry_to_params(&e).unwrap();
    assert_eq!(b.signature, vec![0xab; 64]);
}

#[test]
fn format_rejects_odd_length_signature() {
    let mut e = snapshot();
    e.signature = "a".repeat(127);
    let r = format_chaos_labs_oracle_entry_to_params(&e);
    assert_eq!(r.err(), Some(FormatError::SignatureDecode(SignatureError::InvalidHex)));
}

#[test]
fn format_rejects_non_hex_signature() {
    let mut e = snapshot();
    e.signature = "zz".repeat(64);
    let r = format_chaos_labs_oracle_entry_to_params(&e);
    assert_eq!(r.err(), Some(FormatError::SignatureDecode(SignatureError::InvalidHex)));
}

#[test]
fn format_rejects_short_signature() {
    let mut e = snapshot();
    e.signature = "00".repeat(63);
    let r = format_chaos_labs_oracle_entry_to_params(&e);
    assert_eq!(
        r.err(),
        Some(FormatError::SignatureDecode(SignatureError::WrongLength { len: 63 }))
    );
}

#[test]
fn decode_signature_rejects_long_signature() {
    let s = "00".repeat(65);
    assert_eq!(decode_signature(&s), Err(SignatureError::WrongLength { len: 65 }));
}

#[test]
fn format_rejects_negative_price() {
    let mut e = snapshot();
    e.btcusd_price = dec(-1, 2);
    let r = format_chaos_labs_oracle_entry_to_params(&e);
    assert_eq!(r.err(), Some(FormatError::PriceConversion(Feed::Btc)));
}

#[test]
fn format_reports_first_failing_feed_in_emission_order() {
    let mut e = snapshot();
    e.solusd_price = dec(-5, 0);
    e.usdcusd_price = dec(-5, 0);
    let r = format_chaos_labs_oracle_entry_to_params(&e);
    assert_eq!(r.err(), Some(FormatError::PriceConversion(Feed::Sol)));
}

#[test]
fn format_rejects_price_over_u64() {
    let mut e = snapshot();
    e.bonkusd_price = dec(u64::MAX as i128 + 1, 0);
    let r = format_chaos_labs_oracle_entry_to_params(&e);
    assert_eq!(r.err(), Some(FormatError::PriceConversion(Feed::Bonk)));
}

#[test]
fn format_checks_signature_before_prices() {
    let mut e = snapshot();
    e.solusd_price = dec(-5, 0);
    e.signature = "0".repeat(3);
    let r = format_chaos_labs_oracle_entry_to_params(&e);
    assert_eq!(r.err(), Some(FormatError::SignatureDecode(SignatureError::InvalidHex)));
}

#[test]
fn format_narrows_recovery_id_to_a_byte() {
    let mut e = snapshot();
    e.recovery_id = 256 + 27;
    let b = format_chaos_labs_oracle_entry_to_params(&e).unwrap();
    assert_eq!(b.recovery_id, 27);
}

#[test]
fn conversion_truncates_rather_than_rounds() {
    assert_eq!(dec(12_999, 3).to_u64(), Some(12));
    assert_eq!(dec(129, 1).to_u64(), Some(12));
    assert_eq!(dec(999, 3).to_u64(), Some(0));
}

#[test]
fn conversion_edge_cases() {
    assert_eq!(dec(0, 0).to_u64(), Some(0));
    assert_eq!(dec(-1, 3).to_u64(), None);
    assert_eq!(dec(u64::MAX as i128, 0).to_u64(), Some(u64::MAX));
    assert_eq!(dec(u64::MAX as i128 * 10 + 9, 1).to_u64(), Some(u64::MAX));
    assert_eq!(dec(1, 29).to_u64(), None);
    assert_eq!(dec(i128::MAX, 0).to_u64(), None);
}
