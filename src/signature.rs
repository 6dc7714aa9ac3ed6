//! Decoding of the hex-encoded attestation signature.

use hex::FromHex;
use vstd::prelude::*;

verus! {

/// Number of bytes of an attestation signature.
pub const SIGNATURE_LEN: usize = 64;

#[verifier::external_type_specification]
#[verifier::external_body]
pub struct ExFromHexError(hex::FromHexError);

pub open spec fn is_hex_digit(c: char) -> bool {
    ('0' <= c && c <= '9') || ('a' <= c && c <= 'f') || ('A' <= c && c <= 'F')
}

pub open spec fn hex_digit_value(c: char) -> int {
    if '0' <= c && c <= '9' {
        c as int - '0' as int
    } else if 'a' <= c && c <= 'f' {
        c as int - 'a' as int + 10
    } else {
        c as int - 'A' as int + 10
    }
}

/// An even number of hex digits.
pub open spec fn is_hex(s: Seq<char>) -> bool {
    s.len() % 2 == 0 && forall|i: int| 0 <= i < s.len() ==> #[trigger] is_hex_digit(s[i])
}

/// The bytes that a string of hex digits encodes, two digits per byte, high digit first.
pub open spec fn hex_decode(s: Seq<char>) -> Seq<u8> {
    Seq::new(
        s.len() / 2,
        |i: int| (16 * hex_digit_value(s[2 * i]) + hex_digit_value(s[2 * i + 1])) as u8,
    )
}

/// Why a signature string was refused.
#[derive(Clone, Copy, Debug, PartialEq, Eq)]
pub enum SignatureError {
    /// Not an even number of hex digits.
    InvalidHex,
    /// Valid hex that decodes to `len` bytes rather than 64.
    WrongLength { len: usize },
}

/// What decoding `s` as a signature gives.
pub open spec fn spec_decode_signature(s: Seq<char>) -> Result<Seq<u8>, SignatureError> {
    if !is_hex(s) {
        Err(SignatureError::InvalidHex)
    } else if hex_decode(s).len() != SIGNATURE_LEN {
        Err(SignatureError::WrongLength { len: hex_decode(s).len() as usize })
    } else {
        Ok(hex_decode(s))
    }
}

/// Relies on `hex::FromHex for Vec<u8>`: `OddLength` for an odd byte count, an
/// invalid-character error for any byte outside `0-9a-fA-F`, else two digits per byte.
#[verifier::external_body]
fn decode_hex(s: &str) -> (r: Result<Vec<u8>, hex::FromHexError>)
    ensures
        r is Ok <==> is_hex(s@),
        r is Ok ==> r->Ok_0@ == hex_decode(s@),
{
    Vec::from_hex(s)
}

/// Decodes a hex signature that must hold exactly 64 bytes.
pub fn decode_signature(s: &str) -> (r: Result<Vec<u8>, SignatureError>)
    ensures
        match r {
            Ok(v) => spec_decode_signature(s@) == Ok::<Seq<u8>, SignatureError>(v@),
            Err(e) => spec_decode_signature(s@) == Err::<Seq<u8>, SignatureError>(e),
        },
{
    match decode_hex(s) {
        Err(_) => Err(SignatureError::InvalidHex),
        Ok(bytes) => {
            if bytes.len() != SIGNATURE_LEN {
                Err(SignatureError::WrongLength { len: bytes.len() })
            } else {
                Ok(bytes)
            }
        },
    }
}

} // verus!
