//! Signatures as wallets return them: a hex string of 65 bytes, `r`, `s` and `v`.
use vstd::prelude::*;

use crate::error::{EthereumError, HexError, SignatureError};
use crate::numeral::{digit_value, has_prefix, is_digit, starts_with};

verus! {

/// A signature: `r` and `s` as 32 big-endian bytes each, and the recovery value `v`.
#[derive(Clone, Debug, PartialEq, Eq)]
pub struct Signature {
    pub r: Vec<u8>,
    pub s: Vec<u8>,
    pub v: u64,
}

/// Whether `s` is an even number of hex digits.
pub open spec fn is_hex_string(s: Seq<char>) -> bool {
    s.len() % 2 == 0 && forall|i: int| 0 <= i < s.len() ==> is_digit(#[trigger] s[i], 16)
}

/// The bytes that a string of hex digit pairs denotes, the first digit of each pair
/// being the high one.
pub open spec fn hex_bytes(s: Seq<char>) -> Seq<u8> {
    Seq::new(s.len() / 2, |i: int| (digit_value(s[2 * i]) * 16 + digit_value(s[2 * i + 1])) as u8)
}

/// The digits of a signature response: without its `0x` prefix, if it has one.
pub open spec fn signature_digits(s: Seq<char>) -> Seq<char> {
    if has_prefix(s, "0x"@) {
        s.skip(2)
    } else {
        s
    }
}

/// Relies on `hex::decode`: it accepts exactly the strings of an even number of
/// ASCII hex digits, in either case, and turns each pair into one byte.
#[verifier::external_body]
fn decode_hex(s: &str) -> (r: Result<Vec<u8>, HexError>)
    ensures
        r is Ok <==> is_hex_string(s@),
        r is Ok ==> r->Ok_0@ == hex_bytes(s@),
{
    match hex::decode(s) {
        Ok(bytes) => Ok(bytes),
        Err(hex::FromHexError::InvalidHexCharacter { c, index }) => Err(
            HexError::InvalidHexCharacter { c, index },
        ),
        Err(hex::FromHexError::OddLength) => Err(HexError::OddLength),
        Err(hex::FromHexError::InvalidStringLength) => Err(HexError::InvalidStringLength),
    }
}

/// The bytes of `v` from `from` up to `to`.
fn copy_range(v: &Vec<u8>, from: usize, to: usize) -> (r: Vec<u8>)
    requires
        from <= to <= v@.len(),
    ensures
        r@ == v@.subrange(from as int, to as int),
{
    let mut r: Vec<u8> = Vec::new();
    let mut i: usize = from;
    while i < to
        invariant
            from <= i <= to,
            to <= v@.len(),
            r@ == v@.subrange(from as int, i as int),
        decreases to - i,
    {
        r.push(v[i]);
        i = i + 1;
        assert(r@ =~= v@.subrange(from as int, i as int));
    }
    r
}

/// Reads a wallet's answer to a signing request: hex digits, with or without `0x`,
/// for 65 bytes.
pub fn decode_signature(response: &str) -> (r: Result<Signature, EthereumError>)
    ensures
        ({
            let d = signature_digits(response@);
            &&& !is_hex_string(d) ==> r is Err && r->Err_0 is HexError
            &&& is_hex_string(d) && d.len() != 130 ==> r == Err::<Signature, EthereumError>(
                EthereumError::SignatureError(SignatureError::InvalidLength((d.len() / 2) as usize)),
            )
            &&& is_hex_string(d) && d.len() == 130 ==> r is Ok && r->Ok_0.r@ == hex_bytes(d).subrange(0, 32)
                && r->Ok_0.s@ == hex_bytes(d).subrange(32, 64) && r->Ok_0.v == hex_bytes(d)[64] as u64
        }),
{
    proof {
        reveal_strlit("0x");
    }
    let n = response.unicode_len();
    let digits = if starts_with(response, "0x") {
        response.substring_char(2, n)
    } else {
        response
    };
    let bytes = match decode_hex(digits) {
        Ok(b) => b,
        Err(e) => {
            return Err(EthereumError::HexError(e));
        },
    };
    if bytes.len() != 65 {
        return Err(EthereumError::SignatureError(SignatureError::InvalidLength(bytes.len())));
    }
    let r = copy_range(&bytes, 0, 32);
    let s = copy_range(&bytes, 32, 64);
    Ok(Signature { r, s, v: bytes[64] as u64 })
}

} // verus!
