//! Lossless hex encoding and decoding over byte strings.
//!
//! Encoding always emits lowercase digits; decoding accepts both cases, and
//! rejects odd-length input and any byte that is not a hex digit.

use vstd::prelude::*;

use crate::errors::Error;

verus! {

/// The lowercase hex digit for a nibble value below 16.
pub open spec fn hex_digit(n: u8) -> u8 {
    if n < 10 {
        (n + 0x30) as u8
    } else {
        (n + 0x57) as u8
    }
}

/// The lowercase hex encoding of a byte string: two digits per byte,
/// high nibble first.
pub open spec fn hex_of(bytes: Seq<u8>) -> Seq<u8> {
    Seq::new(
        bytes.len() * 2,
        |i: int|
            if i % 2 == 0 {
                hex_digit((bytes[i / 2] / 16) as u8)
            } else {
                hex_digit((bytes[i / 2] % 16) as u8)
            },
    )
}

/// The nibble value of one hex digit byte, accepting both cases,
/// or `None` where the byte is no hex digit.
pub open spec fn nibble_of(c: u8) -> Option<u8> {
    if 0x30 <= c && c <= 0x39 {
        Some((c - 0x30) as u8)
    } else if 0x61 <= c && c <= 0x66 {
        Some((c - 0x57) as u8)
    } else if 0x41 <= c && c <= 0x46 {
        Some((c - 0x37) as u8)
    } else {
        None
    }
}

/// Whether a byte string is well-formed hex: even length, hex digits only.
pub open spec fn is_hex_str(s: Seq<u8>) -> bool {
    &&& s.len() % 2 == 0
    &&& forall|i: int| 0 <= i < s.len() ==> (#[trigger] nibble_of(s[i])) is Some
}

/// The byte string that a well-formed hex string encodes.
pub open spec fn bytes_of_hex(s: Seq<u8>) -> Seq<u8> {
    Seq::new(
        s.len() / 2,
        |i: int| (nibble_of(s[2 * i]).unwrap() * 16 + nibble_of(s[2 * i + 1]).unwrap()) as u8,
    )
}

/// Encodes a byte string as lowercase hex, two digits per byte.
pub fn hex_encode(bytes: &[u8]) -> (r: Vec<u8>)
    ensures
        r@ == hex_of(bytes@),
{
    let n = bytes.len();
    let mut out: Vec<u8> = Vec::new();
    let mut i: usize = 0;
    while i < n
        invariant
            n == bytes@.len(),
            i <= n,
            out@.len() == 2 * i,
            forall|j: int| 0 <= j < 2 * i ==> out@[j] == hex_of(bytes@)[j],
        decreases n - i,
    {
        let b = bytes[i];
        let hi = b >> 4;
        let lo = b & 0xf;
        assert(b >> 4 == b / 16 && (b & 0xf) == b % 16) by (bit_vector);
        out.push(if hi < 10 { hi + 0x30 } else { hi + 0x57 });
        out.push(if lo < 10 { lo + 0x30 } else { lo + 0x57 });
        i = i + 1;
    }
    assert(out@ =~= hex_of(bytes@));
    out
}

/// The nibble value of one hex digit byte, or `None` for any other byte.
fn nibble(c: u8) -> (r: Option<u8>)
    ensures
        r == nibble_of(c),
{
    if 0x30 <= c && c <= 0x39 {
        Some(c - 0x30)
    } else if 0x61 <= c && c <= 0x66 {
        Some(c - 0x57)
    } else if 0x41 <= c && c <= 0x46 {
        Some(c - 0x37)
    } else {
        None
    }
}

/// Decodes a hex string to the bytes it encodes.
///
/// Succeeds exactly on even-length strings of hex digits; everything else is
/// `MalformedEncoding`.
pub fn hex_decode(s: &[u8]) -> (r: Result<Vec<u8>, Error>)
    ensures
        r is Ok <==> is_hex_str(s@),
        r is Ok ==> r.unwrap()@ == bytes_of_hex(s@),
        r is Err ==> r->Err_0 == Error::MalformedEncoding,
{
    let n = s.len();
    if n % 2 != 0 {
        return Err(Error::MalformedEncoding);
    }
    let mut out: Vec<u8> = Vec::new();
    let mut i: usize = 0;
    while i < n / 2
        invariant
            n == s@.len(),
            n % 2 == 0,
            i <= n / 2,
            out@.len() == i,
            forall|j: int| 0 <= j < 2 * i ==> (#[trigger] nibble_of(s@[j])) is Some,
            forall|j: int| 0 <= j < i ==> out@[j] == bytes_of_hex(s@)[j],
        decreases n / 2 - i,
    {
        let hi = match nibble(s[2 * i]) {
            Some(v) => v,
            None => {
                return Err(Error::MalformedEncoding);
            },
        };
        let lo = match nibble(s[2 * i + 1]) {
            Some(v) => v,
            None => {
                return Err(Error::MalformedEncoding);
            },
        };
        out.push(hi * 16 + lo);
        i = i + 1;
    }
    assert(out@ =~= bytes_of_hex(s@));
    Ok(out)
}

/// Decoding inverts encoding: the hex form of any byte string is well-formed,
/// and decodes back to that byte string.
pub proof fn lemma_hex_round_trip(b: Seq<u8>)
    ensures
        is_hex_str(hex_of(b)),
        bytes_of_hex(hex_of(b)) =~= b,
{
    assert forall|i: int| 0 <= i < hex_of(b).len() implies (#[trigger] nibble_of(
        hex_of(b)[i],
    )) is Some by {
        if i % 2 == 0 {
            assert(0 <= b[i / 2] / 16 < 16);
        } else {
            assert(0 <= b[i / 2] % 16 < 16);
        }
    }
    assert forall|i: int| 0 <= i < b.len() implies bytes_of_hex(hex_of(b))[i] == b[i] by {
        let v = b[i];
        assert(nibble_of(hex_digit((v / 16) as u8)) == Some((v / 16) as u8));
        assert(nibble_of(hex_digit((v % 16) as u8)) == Some((v % 16) as u8));
        assert(v / 16 * 16 + v % 16 == v) by (nonlinear_arith);
    }
}

} // verus!
