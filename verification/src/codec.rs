//! Base64 (standard alphabet, with padding) as the `base64` crate provides it,
//! and the error messages that a failed decoding is reported with.

use base64::Engine;
use vstd::prelude::*;
use vstd::string::*;

use crate::text::decimal_chars;
use crate::text::decimal_string;

verus! {

/// Why a text is not valid standard base64.
#[derive(Clone, Copy, Debug, PartialEq, Eq, Structural)]
pub enum Base64Error {
    /// A symbol outside the alphabet (or misplaced padding) at an offset.
    InvalidByte(usize, u8),
    /// The number of symbols cannot encode whole bytes.
    InvalidLength(usize),
    /// The last symbol carries bits that would be discarded.
    InvalidLastSymbol(usize, u8),
    /// The padding is absent or not canonical.
    InvalidPadding,
}

/// The text that `base64::engine::general_purpose::STANDARD` encodes `data` as.
pub uninterp spec fn base64_encoding(data: Seq<u8>) -> Seq<char>;

/// What `base64::engine::general_purpose::STANDARD` decodes `text` to, or the
/// error that it reports.
pub uninterp spec fn base64_decoding(text: Seq<char>) -> Result<Seq<u8>, Base64Error>;

/// Calls `Engine::encode` of the `STANDARD` engine of the `base64` crate.
/// Claimed: the result is the encoding of the bytes, a function of them alone,
/// and the same engine decodes it back to those bytes (the engine pads when it
/// encodes and requires canonical padding when it decodes; its documentation
/// shows this round trip). The crate panics when the length of the encoding
/// overflows `usize`, which the `requires` rules out.
#[verifier::external_body]
pub(crate) fn encode_base64(data: &[u8]) -> (r: String)
    requires
        (data@.len() + 2) / 3 * 4 <= usize::MAX,
    ensures
        r@ == base64_encoding(data@),
        base64_decoding(r@) is Ok && base64_decoding(r@)->Ok_0 == data@,
{
    base64::engine::general_purpose::STANDARD.encode(data)
}

/// Calls `Engine::decode` of the `STANDARD` engine of the `base64` crate and
/// converts its `DecodeError` variant by variant.
/// Claimed: the outcome (bytes or error) is a function of the text alone.
#[verifier::external_body]
pub(crate) fn decode_base64(text: &str) -> (r: Result<Vec<u8>, Base64Error>)
    ensures
        match r {
            Ok(bytes) => base64_decoding(text@) == Ok::<Seq<u8>, Base64Error>(bytes@),
            Err(e) => base64_decoding(text@) == Err::<Seq<u8>, Base64Error>(e),
        },
{
    base64::engine::general_purpose::STANDARD.decode(text).map_err(|e| match e {
        base64::DecodeError::InvalidByte(i, b) => Base64Error::InvalidByte(i, b),
        base64::DecodeError::InvalidLength(n) => Base64Error::InvalidLength(n),
        base64::DecodeError::InvalidLastSymbol(i, b) => Base64Error::InvalidLastSymbol(i, b),
        base64::DecodeError::InvalidPadding => Base64Error::InvalidPadding,
    })
}

impl Base64Error {
    /// The message of the error, worded as the `base64` crate words it.
    pub open spec fn message_spec(self) -> Seq<char> {
        match self {
            Base64Error::InvalidByte(i, b) => "Invalid symbol "@ + decimal_chars(b as nat)
                + ", offset "@ + decimal_chars(i as nat) + "."@,
            Base64Error::InvalidLength(n) => "Invalid input length: "@ + decimal_chars(n as nat),
            Base64Error::InvalidLastSymbol(i, b) => "Invalid last symbol "@ + decimal_chars(
                b as nat,
            ) + ", offset "@ + decimal_chars(i as nat) + "."@,
            Base64Error::InvalidPadding => "Invalid padding"@,
        }
    }

    /// The message of the error.
    pub fn message(&self) -> (r: String)
        ensures
            r@ == self.message_spec(),
    {
        match self {
            Base64Error::InvalidByte(i, b) => {
                let mut s = String::from_str("Invalid symbol ");
                s.append(decimal_string(*b as u64).as_str());
                s.append(", offset ");
                s.append(decimal_string(*i as u64).as_str());
                s.append(".");
                s
            },
            Base64Error::InvalidLength(n) => {
                let mut s = String::from_str("Invalid input length: ");
                s.append(decimal_string(*n as u64).as_str());
                s
            },
            Base64Error::InvalidLastSymbol(i, b) => {
                let mut s = String::from_str("Invalid last symbol ");
                s.append(decimal_string(*b as u64).as_str());
                s.append(", offset ");
                s.append(decimal_string(*i as u64).as_str());
                s.append(".");
                s
            },
            Base64Error::InvalidPadding => String::from_str("Invalid padding"),
        }
    }
}

} // verus!
