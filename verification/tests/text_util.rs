use remoc::text;
use remoc::text::{join_decimals, push_decimal, push_hex};
use remoc::util::{dbg_bytes, dbg_option_bytes};
use remoc::wire::push_u128_le;

#[test]
fn decimals() {
    let mut out = String::from("n=");
    push_decimal(&mut out, 0);
    push_decimal(&mut out, 18_446_744_073_709_551_615);
    assert_eq!(out, "n=018446744073709551615");
    assert_eq!(join_decimals(&vec![]), "");
    assert_eq!(join_decimals(&vec![10, 2, 305]), "10, 2, 305");
    assert_eq!(text::concat("ab", "cd"), "abcd");
}

#[test]
fn hexadecimals() {
    let mut out = String::new();
    push_hex(&mut out, 0xbeef, 8);
    assert_eq!(out, "0000beef");
    let mut out = String::new();
    push_hex(&mut out, u128::MAX, 32);
    assert_eq!(out, "f".repeat(32));
}

#[test]
fn short_data_is_shown_whole() {
    let data = b"a\"\\\n\r\t\0\x7f\xc3".to_vec();
    assert_eq!(dbg_bytes(&data), r#"b"a\"\\\n\r\t\0\x7f\xc3""#);
    assert_eq!(dbg_bytes(&vec![]), r#"b"""#);
    assert_eq!(dbg_bytes(&b"0123456789abcdef".to_vec()), r#"b"0123456789abcdef""#);
}

#[test]
fn long_data_is_cut_off() {
    assert_eq!(
        dbg_bytes(&b"0123456789abcdefg".to_vec()),
        r#"b"0123456789abcdef"...[17 bytes]"#
    );
}

#[test]
fn optional_data() {
    assert_eq!(dbg_option_bytes(&None), "None");
    assert_eq!(dbg_option_bytes(&Some(b"xy".to_vec())), r#"Some(b"xy")"#);
}

#[test]
fn wide_numbers_are_little_endian() {
    let mut out: Vec<u8> = vec![9];
    push_u128_le(&mut out, 0x0100_0000_0000_0000_0000_0000_0000_00ff);
    assert_eq!(out.len(), 17);
    assert_eq!((out[0], out[1], out[2], out[16]), (9, 0xff, 0, 1));
}
