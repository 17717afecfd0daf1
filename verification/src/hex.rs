//! Decoding of hexadecimal text into bytes.
//!
//! The model works on the UTF-8 bytes of the text: a hex digit is one of the
//! ASCII bytes `0`-`9`, `a`-`f`, `A`-`F`, and any other byte, a byte of a
//! multi-byte character included, is not.

use vstd::prelude::*;
use vstd::string::StringExecFns;
use vstd::string::StringSliceAdditionalSpecFns;
use crate::error::AddressingError;

verus! {

/// The value of a hex digit, or `None` for a byte that is not one.
pub open spec fn hex_digit_value(b: u8) -> Option<u8> {
    if 0x30 <= b <= 0x39 {
        Some((b - 0x30) as u8)
    } else if 0x61 <= b <= 0x66 {
        Some((b - 0x61 + 10) as u8)
    } else if 0x41 <= b <= 0x46 {
        Some((b - 0x41 + 10) as u8)
    } else {
        None
    }
}

/// Every byte of `text` is a hex digit.
pub open spec fn all_hex_digits(text: Seq<u8>) -> bool {
    forall|i: int| 0 <= i < text.len() ==> (#[trigger] hex_digit_value(text[i])) is Some
}

/// `text` can be decoded: it has an even number of bytes, all hex digits.
pub open spec fn is_hex(text: Seq<u8>) -> bool {
    text.len() % 2 == 0 && all_hex_digits(text)
}

/// The byte that the digit pair starting at `2 * i` stands for, high nibble first.
pub open spec fn hex_pair_value(text: Seq<u8>, i: int) -> u8 {
    (16 * hex_digit_value(text[2 * i]).unwrap() + hex_digit_value(text[2 * i + 1]).unwrap()) as u8
}

/// The bytes that `text` stands for, one for each pair of digits.
pub open spec fn decode_hex(text: Seq<u8>) -> Seq<u8> {
    Seq::new(text.len() / 2, |i: int| hex_pair_value(text, i))
}

/// The message for a text with an odd number of bytes.
pub open spec fn odd_length_message(text: Seq<char>) -> Seq<char> {
    "hex string has odd number of digits: "@ + text
}

/// The message for a text of even length that holds a byte that is no hex digit.
pub open spec fn invalid_digit_message(text: Seq<char>) -> Seq<char> {
    "string contains invalid hex: "@ + text
}

/// Reads one hex digit.
pub fn hex_digit(b: u8) -> (v: Option<u8>)
    ensures
        v == hex_digit_value(b),
        v is Some ==> v.unwrap() < 16,
{
    if 0x30 <= b && b <= 0x39 {
        Some(b - 0x30)
    } else if 0x61 <= b && b <= 0x66 {
        Some(b - 0x61 + 10)
    } else if 0x41 <= b && b <= 0x46 {
        Some(b - 0x41 + 10)
    } else {
        None
    }
}

/// Converts a hex string to bytes.
///
/// Succeeds exactly on texts of even length made of hex digits only. A text
/// of odd length is reported as such, whatever it holds; a text of even
/// length with a foreign byte is reported as invalid hex.
pub fn parse_hex(hex: &str) -> (r: Result<Vec<u8>, AddressingError>)
    ensures
        match r {
            Ok(bytes) => is_hex(hex.spec_bytes()) && bytes@ == decode_hex(hex.spec_bytes()),
            Err(e) => {
                &&& !is_hex(hex.spec_bytes())
                &&& e is InvalidInput
                &&& e.message() == if hex.spec_bytes().len() % 2 != 0 {
                    odd_length_message(hex@)
                } else {
                    invalid_digit_message(hex@)
                }
            },
        },
{
    let text = hex.as_bytes();
    let n: usize = text.len();
    if n % 2 != 0 {
        return Err(
            AddressingError::InvalidInput(
                String::from_str("hex string has odd number of digits: ").concat(hex),
            ),
        );
    }
    let mut res: Vec<u8> = Vec::new();
    let mut i: usize = 0;
    while i < n
        invariant
            n == text@.len(),
            text@ == hex.spec_bytes(),
            n % 2 == 0,
            i % 2 == 0,
            i <= n,
            res@.len() == i / 2,
            forall|k: int| 0 <= k < i ==> (#[trigger] hex_digit_value(text@[k])) is Some,
            forall|j: int| 0 <= j < i / 2 ==> res@[j] == hex_pair_value(text@, j),
        decreases n - i,
    {
        let high = hex_digit(text[i]);
        let low = hex_digit(text[i + 1]);
        match (high, low) {
            (Some(h), Some(l)) => {
                res.push(16 * h + l);
            },
            _ => {
                return Err(
                    AddressingError::InvalidInput(
                        String::from_str("string contains invalid hex: ").concat(hex),
                    ),
                );
            },
        }
        i += 2;
    }
    assert(res@ =~= decode_hex(text@));
    Ok(res)
}

} // verus!
