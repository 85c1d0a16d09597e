//! Hexadecimal text: what a hex string means as bytes, and the decoder that
//! turns caller-supplied hex into bytes.

use vstd::prelude::*;
use vstd::string::StringSliceAdditionalSpecFns;

verus! {

/// Why a piece of text is not hexadecimal.
#[derive(Debug, Clone, Copy, PartialEq, Eq, Structural)]
pub enum HexError {
    /// A byte that is not one of `0-9`, `a-f`, `A-F`, with its position
    /// after any `0x` prefix was taken away.
    InvalidHexCharacter { c: char, index: usize },
    /// An odd number of bytes.
    OddLength,
    /// The text does not have the length the target demands.
    InvalidStringLength,
}

/// The value of one hexadecimal digit, or `None` for any other byte.
pub open spec fn hex_digit_value(c: u8) -> Option<u8> {
    if 0x30 <= c <= 0x39 {
        Some((c - 0x30) as u8)
    } else if 0x61 <= c <= 0x66 {
        Some((c - 0x61 + 10) as u8)
    } else if 0x41 <= c <= 0x46 {
        Some((c - 0x41 + 10) as u8)
    } else {
        None
    }
}

pub open spec fn is_hex_digit(c: u8) -> bool {
    hex_digit_value(c) is Some
}

/// The text without a leading `0x` or `0X`, if it has one.
pub open spec fn strip_hex_prefix(s: Seq<u8>) -> Seq<u8> {
    if s.len() >= 2 && s[0] == 0x30 && (s[1] == 0x78 || s[1] == 0x58) {
        s.skip(2)
    } else {
        s
    }
}

/// Position of the first byte that is no hex digit; `s.len()` if all are.
pub open spec fn first_non_hex(s: Seq<u8>) -> int
    decreases s.len(),
{
    if s.len() == 0 {
        0
    } else if !is_hex_digit(s[0]) {
        0
    } else {
        1 + first_non_hex(s.skip(1))
    }
}

/// The bytes that an even-length run of hex digits spells, high digit first.
pub open spec fn hex_bytes(s: Seq<u8>) -> Seq<u8> {
    Seq::new(
        (s.len() / 2) as nat,
        |i: int| (hex_digit_value(s[2 * i]).unwrap() * 16 + hex_digit_value(s[2 * i + 1]).unwrap()) as u8,
    )
}

/// What decoding `input` gives: the length is tested before the prefix is
/// taken away, then every remaining byte has to be a hex digit.
pub open spec fn hex_decode(input: Seq<u8>) -> Result<Seq<u8>, HexError> {
    if input.len() % 2 != 0 {
        Err(HexError::OddLength)
    } else {
        let s = strip_hex_prefix(input);
        let k = first_non_hex(s);
        if k < s.len() {
            Err(HexError::InvalidHexCharacter { c: s[k] as char, index: k as usize })
        } else {
            Ok(hex_bytes(s))
        }
    }
}

/// What decoding `input` into exactly `n` bytes gives: as `hex_decode`,
/// but the number of digits is tested before the digits themselves.
pub open spec fn hex_decode_exact(input: Seq<u8>, n: int) -> Result<Seq<u8>, HexError> {
    if input.len() % 2 != 0 {
        Err(HexError::OddLength)
    } else {
        let s = strip_hex_prefix(input);
        let k = first_non_hex(s);
        if s.len() != 2 * n {
            Err(HexError::InvalidStringLength)
        } else if k < s.len() {
            Err(HexError::InvalidHexCharacter { c: s[k] as char, index: k as usize })
        } else {
            Ok(hex_bytes(s))
        }
    }
}

/// The words that describe a hex error to a caller.
pub open spec fn hex_error_text(e: HexError) -> Seq<char> {
    match e {
        HexError::InvalidHexCharacter { .. } => "invalid character"@,
        HexError::OddLength => "odd number of digits"@,
        HexError::InvalidStringLength => "invalid string length"@,
    }
}

impl HexError {
    /// The words that describe this error to a caller.
    pub fn message(&self) -> (text: &'static str)
        ensures
            text@ == hex_error_text(*self),
    {
        match self {
            HexError::InvalidHexCharacter { .. } => "invalid character",
            HexError::OddLength => "odd number of digits",
            HexError::InvalidStringLength => "invalid string length",
        }
    }
}

/// Decodes hex text with `alloy_primitives::hex::decode`. The contract
/// restates that function: an odd input length is refused first, a leading
/// `0x` or `0X` is dropped, the first byte that is no hex digit is reported
/// with its position in what remains, and otherwise each pair of digits
/// becomes one byte.
#[verifier::external_body]
pub(crate) fn decode_hex(input: &[u8]) -> (r: Result<Vec<u8>, HexError>)
    ensures
        match r {
            Ok(bytes) => hex_decode(input@) == Ok::<Seq<u8>, HexError>(bytes@),
            Err(e) => hex_decode(input@) == Err::<Seq<u8>, HexError>(e),
        },
{
    match alloy_primitives::hex::decode(input) {
        Ok(bytes) => Ok(bytes),
        Err(alloy_primitives::hex::FromHexError::InvalidHexCharacter { c, index }) => {
            Err(HexError::InvalidHexCharacter { c, index })
        },
        Err(alloy_primitives::hex::FromHexError::OddLength) => Err(HexError::OddLength),
        Err(alloy_primitives::hex::FromHexError::InvalidStringLength) => {
            Err(HexError::InvalidStringLength)
        },
    }
}

/// Reads a 20-byte address from hex text with `Address::from_str` of
/// `alloy_primitives`. The contract restates that function: an odd input
/// length is refused first, a leading `0x` or `0X` is dropped, what remains
/// must be exactly forty bytes, the first of them that is no hex digit is
/// reported with its position, and otherwise each pair of digits becomes
/// one byte.
#[verifier::external_body]
pub(crate) fn parse_address(text: &str) -> (r: Result<[u8; 20], HexError>)
    ensures
        match r {
            Ok(address) => hex_decode_exact(text.spec_bytes(), 20) == Ok::<Seq<u8>, HexError>(
                address@,
            ),
            Err(e) => hex_decode_exact(text.spec_bytes(), 20) == Err::<Seq<u8>, HexError>(e),
        },
{
    match text.parse::<alloy_primitives::Address>() {
        Ok(address) => Ok(address.into_array()),
        Err(alloy_primitives::hex::FromHexError::InvalidHexCharacter { c, index }) => {
            Err(HexError::InvalidHexCharacter { c, index })
        },
        Err(alloy_primitives::hex::FromHexError::OddLength) => Err(HexError::OddLength),
        Err(alloy_primitives::hex::FromHexError::InvalidStringLength) => {
            Err(HexError::InvalidStringLength)
        },
    }
}

/// Reads a 32-byte hash from hex text with `B256::from_str` of
/// `alloy_primitives`. The contract restates that function, which differs
/// from `Address::from_str` only in the length: what remains after the
/// prefix must be exactly sixty-four bytes.
#[verifier::external_body]
pub(crate) fn parse_b256(text: &str) -> (r: Result<[u8; 32], HexError>)
    ensures
        match r {
            Ok(hash) => hex_decode_exact(text.spec_bytes(), 32) == Ok::<Seq<u8>, HexError>(hash@),
            Err(e) => hex_decode_exact(text.spec_bytes(), 32) == Err::<Seq<u8>, HexError>(e),
        },
{
    match text.parse::<alloy_primitives::B256>() {
        Ok(hash) => Ok(hash.0),
        Err(alloy_primitives::hex::FromHexError::InvalidHexCharacter { c, index }) => {
            Err(HexError::InvalidHexCharacter { c, index })
        },
        Err(alloy_primitives::hex::FromHexError::OddLength) => Err(HexError::OddLength),
        Err(alloy_primitives::hex::FromHexError::InvalidStringLength) => {
            Err(HexError::InvalidStringLength)
        },
    }
}

} // verus!
