use careful_resume::key::{key_from_bytes, parse_bdp_key, HexError, KeyError};

#[test]
fn a_key_is_64_hexadecimal_digits() {
    let text = "000102030405060708090a0b0c0d0e0f101112131415161718191a1b1c1d1eff";
    let mut expected = [0u8; 32];
    for i in 0..31 {
        expected[i] = i as u8;
    }
    expected[31] = 0xff;
    assert_eq!(parse_bdp_key(text).unwrap(), expected);
    assert_eq!(parse_bdp_key(&text.to_uppercase()).unwrap(), expected);
}

#[test]
fn an_odd_number_of_digits_is_refused() {
    assert!(matches!(parse_bdp_key("abc"), Err(KeyError::Hex(HexError::OddLength))));
    assert!(matches!(parse_bdp_key("xyz"), Err(KeyError::Hex(HexError::OddLength))));
}

#[test]
fn the_first_other_character_is_refused() {
    assert!(matches!(
        parse_bdp_key("00g1zz"),
        Err(KeyError::Hex(HexError::InvalidHexCharacter { c: 'g', index: 2 }))
    ));
    assert!(matches!(
        parse_bdp_key("0\u{e9}0"),
        Err(KeyError::Hex(HexError::InvalidHexCharacter { c: '\u{c3}', index: 1 }))
    ));
}

#[test]
fn a_key_of_another_length_is_refused() {
    assert!(matches!(parse_bdp_key(""), Err(KeyError::Length(0))));
    assert!(matches!(parse_bdp_key("00ff"), Err(KeyError::Length(2))));
    assert!(matches!(parse_bdp_key(&"ab".repeat(33)), Err(KeyError::Length(33))));
}

#[test]
fn bytes_are_a_key_by_their_length() {
    assert_eq!(key_from_bytes(&vec![7u8; 32]).unwrap(), [7u8; 32]);
    assert!(matches!(key_from_bytes(&vec![7u8; 31]), Err(KeyError::Length(31))));
}
