//! The key that seals the private part of BDP tokens.

use vstd::prelude::*;
use vstd::string::StringSliceAdditionalSpecFns;

verus! {

/// The length of the key, in bytes.
pub const BDP_KEY_LEN: usize = 32;

/// Why a text is not a string of hexadecimal digits for whole bytes.
#[derive(Debug, Clone, Copy)]
pub enum HexError {
    /// The number of digits is odd.
    OddLength,
    /// The byte at `index`, taken as the character `c`, is no digit.
    InvalidHexCharacter { c: char, index: usize },
    /// The text does not fill a container of fixed size.
    InvalidStringLength,
}

/// Why a text is no key.
#[derive(Debug, Clone, Copy)]
pub enum KeyError {
    /// The text is not hexadecimal.
    Hex(HexError),
    /// The text stands for this many bytes, which is not the key's length.
    Length(usize),
}

/// An ASCII hexadecimal digit, of either case.
pub open spec fn is_hex_digit(b: u8) -> bool {
    ||| 0x30 <= b <= 0x39
    ||| 0x41 <= b <= 0x46
    ||| 0x61 <= b <= 0x66
}

/// What a hexadecimal digit stands for.
pub open spec fn hex_digit_value(b: u8) -> int {
    if b <= 0x39 {
        b - 0x30
    } else if b <= 0x46 {
        b - 0x41 + 10
    } else {
        b - 0x61 + 10
    }
}

pub open spec fn all_hex_digits(s: Seq<u8>) -> bool {
    forall|i: int| 0 <= i < s.len() ==> is_hex_digit(#[trigger] s[i])
}

/// The bytes that a string of hexadecimal digits stands for, two digits each,
/// the high half first.
pub open spec fn hex_bytes(s: Seq<u8>) -> Seq<u8> {
    Seq::new(
        s.len() / 2,
        |i: int| (16 * hex_digit_value(s[2 * i]) + hex_digit_value(s[2 * i + 1])) as u8,
    )
}

/// `index` is the place of the first byte that is no hexadecimal digit.
pub open spec fn first_non_hex(s: Seq<u8>, index: int) -> bool {
    &&& 0 <= index < s.len()
    &&& all_hex_digits(s.take(index))
    &&& !is_hex_digit(s[index])
}

/// What decoding a hexadecimal text gives.
pub open spec fn is_hex_decoding(s: Seq<u8>, result: Result<Seq<u8>, HexError>) -> bool {
    match result {
        Ok(bytes) => s.len() % 2 == 0 && all_hex_digits(s) && bytes == hex_bytes(s),
        Err(HexError::OddLength) => s.len() % 2 != 0,
        Err(HexError::InvalidHexCharacter { c, index }) => {
            s.len() % 2 == 0 && first_non_hex(s, index as int) && c == s[index as int] as char
        },
        Err(HexError::InvalidStringLength) => false,
    }
}

/// The result with the bytes seen as a sequence.
pub open spec fn decoded_bytes(result: Result<Vec<u8>, HexError>) -> Result<Seq<u8>, HexError> {
    match result {
        Ok(bytes) => Ok(bytes@),
        Err(e) => Err(e),
    }
}

/// Calls `hex::decode`. Trusted: it refuses a text of odd length first; then
/// it decodes pairs of digits of either case, high half first, and refuses the
/// text at the first byte that is no digit, with that byte and its place.
#[verifier::external_body]
fn hex_decode(text: &[u8]) -> (result: Result<Vec<u8>, HexError>)
    ensures
        is_hex_decoding(text@, decoded_bytes(result)),
{
    match hex::decode(text) {
        Ok(bytes) => Ok(bytes),
        Err(hex::FromHexError::OddLength) => Err(HexError::OddLength),
        Err(hex::FromHexError::InvalidHexCharacter { c, index }) => {
            Err(HexError::InvalidHexCharacter { c, index })
        },
        Err(hex::FromHexError::InvalidStringLength) => Err(HexError::InvalidStringLength),
    }
}

/// What the text of a key gives: the key where it is hexadecimal for exactly
/// 32 bytes, and otherwise the reason why not.
pub open spec fn is_key_decoding(s: Seq<u8>, result: Result<[u8; 32], KeyError>) -> bool {
    match result {
        Ok(key) => s.len() == 2 * BDP_KEY_LEN && all_hex_digits(s) && key@ == hex_bytes(s),
        Err(KeyError::Hex(e)) => is_hex_decoding(s, Err(e)),
        Err(KeyError::Length(n)) => {
            s.len() % 2 == 0 && all_hex_digits(s) && n == s.len() / 2 && n != BDP_KEY_LEN
        },
    }
}

/// Reads the key from its hexadecimal text.
pub fn parse_bdp_key(text: &str) -> (key: Result<[u8; 32], KeyError>)
    ensures
        is_key_decoding(text.spec_bytes(), key),
{
    match hex_decode(text.as_bytes()) {
        Ok(bytes) => key_from_bytes(&bytes),
        Err(e) => Err(KeyError::Hex(e)),
    }
}

/// Takes a string of bytes as a key, if it is of the key's length.
pub fn key_from_bytes(bytes: &Vec<u8>) -> (key: Result<[u8; 32], KeyError>)
    ensures
        match key {
            Ok(k) => bytes@.len() == BDP_KEY_LEN && k@ == bytes@,
            Err(KeyError::Length(n)) => n == bytes@.len() && n != BDP_KEY_LEN,
            Err(KeyError::Hex(_)) => false,
        },
{
    if bytes.len() != BDP_KEY_LEN {
        return Err(KeyError::Length(bytes.len()));
    }
    let mut key: [u8; 32] = [0u8; 32];
    let mut i: usize = 0;
    while i < BDP_KEY_LEN
        invariant
            i <= BDP_KEY_LEN,
            bytes@.len() == BDP_KEY_LEN,
            forall|j: int| 0 <= j < i ==> key@[j] == bytes@[j],
        decreases BDP_KEY_LEN - i,
    {
        key[i] = bytes[i];
        i += 1;
    }
    proof {
        assert(key@ =~= bytes@);
    }
    Ok(key)
}

/// A hexadecimal digit, of either case, is the digit of one number below 16.
proof fn lemma_hex_digit(b: u8)
    requires
        is_hex_digit(b),
    ensures
        0 <= hex_digit_value(b) < 16,
        hex_digit_value(b) < 10 ==> b == 0x30 + hex_digit_value(b),
        hex_digit_value(b) >= 10 ==> b == 0x41 + hex_digit_value(b) - 10 || b == 0x61
            + hex_digit_value(b) - 10,
{
}

/// Of the key that `parse_bdp_key` reads. There is one exactly where the text is
/// 64 bytes long and each of them a hexadecimal digit. Each byte of the key is
/// written in the text by two digits, the high half first: its decimal digit
/// where the half is below ten, and a letter of either case otherwise.
pub proof fn a_key_is_written_two_digits_a_byte(text: &str, key: Result<[u8; 32], KeyError>)
    requires
        call_ensures(parse_bdp_key, (text,), key),
    ensures
        key is Ok <==> {
            let s = text.spec_bytes();
            &&& s.len() == 64
            &&& forall|i: int|
                0 <= i < s.len() ==> {
                    ||| 0x30 <= #[trigger] s[i] <= 0x39
                    ||| 0x41 <= s[i] <= 0x46
                    ||| 0x61 <= s[i] <= 0x66
                }
        },
        key matches Ok(k) ==> forall|i: int|
            0 <= i < 32 ==> {
                let s = text.spec_bytes();
                let high = (#[trigger] k@[i]) / 16;
                let low = k@[i] % 16;
                &&& high < 10 ==> s[2 * i] == 0x30 + high
                &&& high >= 10 ==> s[2 * i] == 0x41 + high - 10 || s[2 * i] == 0x61 + high - 10
                &&& low < 10 ==> s[2 * i + 1] == 0x30 + low
                &&& low >= 10 ==> s[2 * i + 1] == 0x41 + low - 10 || s[2 * i + 1] == 0x61 + low - 10
            },
{
    let s = text.spec_bytes();
    if s.len() == 64 && forall|i: int|
        0 <= i < s.len() ==> {
            ||| 0x30 <= #[trigger] s[i] <= 0x39
            ||| 0x41 <= s[i] <= 0x46
            ||| 0x61 <= s[i] <= 0x66
        } {
        assert(all_hex_digits(s));
    }
    if all_hex_digits(s) {
        assert forall|i: int| 0 <= i < s.len() implies {
            ||| 0x30 <= #[trigger] s[i] <= 0x39
            ||| 0x41 <= s[i] <= 0x46
            ||| 0x61 <= s[i] <= 0x66
        } by {
            assert(is_hex_digit(s[i]));
        }
    }
    if key is Ok {
        let k = key->Ok_0;
        assert forall|i: int| 0 <= i < 32 implies {
            let high = (#[trigger] k@[i]) / 16;
            let low = k@[i] % 16;
            &&& high < 10 ==> s[2 * i] == 0x30 + high
            &&& high >= 10 ==> s[2 * i] == 0x41 + high - 10 || s[2 * i] == 0x61 + high - 10
            &&& low < 10 ==> s[2 * i + 1] == 0x30 + low
            &&& low >= 10 ==> s[2 * i + 1] == 0x41 + low - 10 || s[2 * i + 1] == 0x61 + low - 10
        } by {
            assert(is_hex_digit(s[2 * i]));
            assert(is_hex_digit(s[2 * i + 1]));
            lemma_hex_digit(s[2 * i]);
            lemma_hex_digit(s[2 * i + 1]);
            assert(k@[i] == hex_bytes(s)[i]);
            assert(k@[i] == 16 * hex_digit_value(s[2 * i]) + hex_digit_value(s[2 * i + 1]));
        }
    }
}

/// Of what `parse_bdp_key` says where there is no key. The number of digits is
/// looked at first; then the first byte that is no digit is named, with its
/// place; and a text of digits alone is told how many bytes it is for.
pub proof fn a_text_that_is_no_key_is_told_why(text: &str, key: Result<[u8; 32], KeyError>)
    requires
        call_ensures(parse_bdp_key, (text,), key),
    ensures
        ({
            let s = text.spec_bytes();
            &&& key == Err::<[u8; 32], _>(KeyError::Hex(HexError::OddLength)) <==> s.len() % 2 == 1
            &&& key matches Err(KeyError::Hex(HexError::InvalidHexCharacter { c, index })) ==> {
                &&& s.len() % 2 == 0
                &&& index < s.len()
                &&& c == s[index as int] as char
                &&& !(0x30 <= s[index as int] <= 0x39)
                &&& !(0x41 <= s[index as int] <= 0x46)
                &&& !(0x61 <= s[index as int] <= 0x66)
                &&& forall|i: int|
                    0 <= i < index ==> {
                        ||| 0x30 <= #[trigger] s[i] <= 0x39
                        ||| 0x41 <= s[i] <= 0x46
                        ||| 0x61 <= s[i] <= 0x66
                    }
            }
            &&& key matches Err(KeyError::Length(n)) ==> {
                &&& s.len() == 2 * n
                &&& n != 32
                &&& forall|i: int|
                    0 <= i < s.len() ==> {
                        ||| 0x30 <= #[trigger] s[i] <= 0x39
                        ||| 0x41 <= s[i] <= 0x46
                        ||| 0x61 <= s[i] <= 0x66
                    }
            }
            &&& !(key == Err::<[u8; 32], _>(KeyError::Hex(HexError::InvalidStringLength)))
        }),
{
    let s = text.spec_bytes();
    match key {
        Err(KeyError::Hex(HexError::InvalidHexCharacter { c, index })) => {
            assert forall|i: int| 0 <= i < index implies {
                ||| 0x30 <= #[trigger] s[i] <= 0x39
                ||| 0x41 <= s[i] <= 0x46
                ||| 0x61 <= s[i] <= 0x66
            } by {
                assert(is_hex_digit(s.take(index as int)[i]));
            }
        },
        Err(KeyError::Length(_)) => {
            assert forall|i: int| 0 <= i < s.len() implies {
                ||| 0x30 <= #[trigger] s[i] <= 0x39
                ||| 0x41 <= s[i] <= 0x46
                ||| 0x61 <= s[i] <= 0x66
            } by {
                assert(is_hex_digit(s[i]));
            }
        },
        _ => {},
    }
}

/// Of what `key_from_bytes` takes: 32 bytes are a key, byte for byte, and any
/// other number of bytes is told.
pub proof fn a_key_is_its_bytes(bytes: &Vec<u8>, key: Result<[u8; 32], KeyError>)
    requires
        call_ensures(key_from_bytes, (bytes,), key),
    ensures
        bytes@.len() == 32 ==> key is Ok,
        key matches Ok(k) ==> forall|i: int| 0 <= i < 32 ==> #[trigger] k@[i] == bytes@[i],
        bytes@.len() != 32 ==> (key matches Err(KeyError::Length(n)) && n == bytes@.len()),
{
}

} // verus!
