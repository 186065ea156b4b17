use gfxinfo::normalize::{
    celsius_to_millidegrees, clamp_pct, hex_digit_char, reversed_hex_string,
    round_counter_thousandths, sentinel_or_u32, sentinel_or_u64, sentinel_total_or_zero,
    sentinel_used_or_zero, truncate_u32,
};

#[test]
fn celsius_scaling() {
    // A mock telemetry source reporting 45 degrees Celsius must normalize
    // to 45000 millidegrees.
    assert_eq!(celsius_to_millidegrees(45), 45000);
    assert_eq!(celsius_to_millidegrees(0), 0);
    assert_eq!(celsius_to_millidegrees(1), 1000);
}

#[test]
fn counter_rounding_rounds_to_nearest() {
    // A formatted counter reading of 63.6 must round to 64.
    assert_eq!(round_counter_thousandths(63600), 64);
    assert_eq!(round_counter_thousandths(63400), 63);
    assert_eq!(round_counter_thousandths(63500), 64);
    assert_eq!(round_counter_thousandths(499), 0);
    assert_eq!(round_counter_thousandths(500), 1);
    assert_eq!(round_counter_thousandths(0), 0);
}

#[test]
fn counter_rounding_from_double() {
    // The same reading arriving as the native double value.
    let reading: f64 = 63.6;
    let thousandths = (reading * 1000.0) as u64;
    assert_eq!(round_counter_thousandths(thousandths), 64);
}

#[test]
fn vendor_id_bytes_reverse_to_hex() {
    // Little-endian vendor-id bytes for 0x1002 render as "1002", with the
    // leading zero bytes of the reversed order dropped entirely.
    let bytes: Vec<u8> = vec![0x02, 0x10, 0x00, 0x00];
    assert_eq!(reversed_hex_string(&bytes), "1002");
}

#[test]
fn reversed_hex_keeps_inner_and_trailing_zero_bytes() {
    // Only leading zero bytes of the reversed order are dropped; a zero
    // byte after the first significant one still renders as "00".
    let bytes: Vec<u8> = vec![0x00, 0x10];
    assert_eq!(reversed_hex_string(&bytes), "1000");
    let bytes: Vec<u8> = vec![0x01, 0x00, 0x02];
    assert_eq!(reversed_hex_string(&bytes), "020001");
}

#[test]
fn reversed_hex_of_zeroes_is_empty() {
    let bytes: Vec<u8> = vec![0x00, 0x00, 0x00, 0x00];
    assert_eq!(reversed_hex_string(&bytes), "");
    let bytes: Vec<u8> = vec![];
    assert_eq!(reversed_hex_string(&bytes), "");
}

#[test]
fn reversed_hex_single_byte() {
    let bytes: Vec<u8> = vec![0xab];
    assert_eq!(reversed_hex_string(&bytes), "ab");
    let bytes: Vec<u8> = vec![0x0f];
    assert_eq!(reversed_hex_string(&bytes), "0f");
}

#[test]
fn hex_digits() {
    assert_eq!(hex_digit_char(0), '0');
    assert_eq!(hex_digit_char(9), '9');
    assert_eq!(hex_digit_char(10), 'a');
    assert_eq!(hex_digit_char(15), 'f');
}

#[test]
fn sentinels_replace_missing_readings() {
    assert_eq!(sentinel_or_u64(None), 0);
    assert_eq!(sentinel_or_u64(Some(7)), 7);
    assert_eq!(sentinel_or_u32(None), 0);
    assert_eq!(sentinel_or_u32(Some(99)), 99);
}

#[test]
fn load_readings_clamp_to_canonical_percent_range() {
    assert_eq!(clamp_pct(0), 0);
    assert_eq!(clamp_pct(42), 42);
    assert_eq!(clamp_pct(100), 100);
    assert_eq!(clamp_pct(101), 100);
    assert_eq!(clamp_pct(u32::MAX), 100);
}

#[test]
fn memory_pair_sentinels() {
    assert_eq!(sentinel_total_or_zero(Some((8192, 1024))), 8192);
    assert_eq!(sentinel_used_or_zero(Some((8192, 1024))), 1024);
    assert_eq!(sentinel_total_or_zero(None), 0);
    assert_eq!(sentinel_used_or_zero(None), 0);
}

#[test]
fn wide_counter_truncation() {
    assert_eq!(truncate_u32(0), 0);
    assert_eq!(truncate_u32(100), 100);
    assert_eq!(truncate_u32(0x1_0000_0005), 5);
}
