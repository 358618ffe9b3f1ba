//! Tests of the address reshaping done before the single-address check.

use wallet_bridge::address::{hex_encode, quote_hex, reshape_address};

#[test]
fn reshape_decodes_and_hex_encodes() {
    // A base58 vector with a known payload.
    let r = reshape_address("he11owor1d").unwrap();
    assert_eq!(r, b"\"04305e2b2473f058\"".to_vec());
}

#[test]
fn reshape_rejects_non_alphabet_characters() {
    // Zero, uppercase O and I, and lowercase l are not base58 characters.
    assert_eq!(reshape_address("0"), None);
    assert_eq!(reshape_address("hello!"), None);
    assert_eq!(reshape_address("O0Il"), None);
}

#[test]
fn reshape_of_empty_text_is_an_empty_quoted_string() {
    assert_eq!(reshape_address("").unwrap(), b"\"\"".to_vec());
}

#[test]
fn hex_encoding_covers_both_digit_ranges() {
    assert_eq!(hex_encode(&vec![0x00, 0x09, 0x0a, 0x0f, 0x10, 0xab, 0xff]),
        b"00090a0f10abff".to_vec());
    assert_eq!(hex_encode(&Vec::new()), Vec::<u8>::new());
}

#[test]
fn quoting_wraps_the_hex_form() {
    assert_eq!(quote_hex(&vec![0xde, 0xad]), b"\"dead\"".to_vec());
}
