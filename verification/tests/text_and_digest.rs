use seaport::digest::md5_hex;
use seaport::text::{decimal_string, hex_lower, push_padded};
use seaport::timefmt::{format_timestamp_to_datetime, try_format_timestamp_to_datetime};

#[test]
fn decimal_of_zero_and_large_numbers() {
    assert_eq!(decimal_string(0), "0");
    assert_eq!(decimal_string(7), "7");
    assert_eq!(decimal_string(8080), "8080");
    assert_eq!(decimal_string(u64::MAX), "18446744073709551615");
}

#[test]
fn hex_is_two_lowercase_digits_per_byte() {
    assert_eq!(hex_lower(&[]), "");
    assert_eq!(hex_lower(&[0x00, 0x0f, 0xa5, 0xff]), "000fa5ff");
}

#[test]
fn padding_fills_to_width_and_never_cuts() {
    let mut s = String::from(">");
    push_padded(&mut s, "abc", 6);
    assert_eq!(s, ">abc   ");
    let mut t = String::new();
    push_padded(&mut t, "abcdefgh", 3);
    assert_eq!(t, "abcdefgh");
    let mut u = String::new();
    push_padded(&mut u, "名字", 4);
    assert_eq!(u, "名字  ");
}

#[test]
fn md5_of_known_inputs() {
    assert_eq!(md5_hex(b""), "d41d8cd98f00b204e9800998ecf8427e");
    assert_eq!(md5_hex(b"abc"), "900150983cd24fb0d6963f7d28e17f72");
    assert_eq!(md5_hex(b"The quick brown fox jumps over the lazy dog").len(), 32);
}

#[test]
fn timestamps_are_shown_at_utc_plus_eight() {
    assert_eq!(format_timestamp_to_datetime(0), "1970-01-01 08:00:00");
    assert_eq!(format_timestamp_to_datetime(1_700_000_000), "2023-11-15 06:13:20");
    assert_eq!(format_timestamp_to_datetime(-28_800), "1970-01-01 00:00:00");
}

#[test]
fn timestamps_chrono_cannot_show_give_none() {
    assert_eq!(try_format_timestamp_to_datetime(0).as_deref(), Some("1970-01-01 08:00:00"));
    assert_eq!(try_format_timestamp_to_datetime(253_402_271_000).as_deref(), Some("9999-12-31 23:43:20"));
    assert!(try_format_timestamp_to_datetime(i64::MAX).is_none());
    assert!(try_format_timestamp_to_datetime(i64::MIN).is_none());
}
