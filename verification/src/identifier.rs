//! Canonical participant identifiers: nonzero 32-byte values, derived from
//! seed bytes or decoded from their 64-character hex encoding.

use vstd::prelude::*;
use vstd::string::StringSliceAdditionalSpecFns;
use vstd::utf8::{encode_utf8, is_ascii_chars, is_ascii_chars_encode_utf8};

use crate::errors::Error;
use crate::hexcodec::{bytes_of_hex, hex_decode, hex_encode, hex_of, is_hex_str};

verus! {

/// Whether every byte of a byte string is zero.
pub open spec fn all_zero(s: Seq<u8>) -> bool {
    forall|i: int| 0 <= i < s.len() ==> s[i] == 0
}

/// The identifier that the outside library derives from a seed: a hash of the
/// seed bytes reduced to a scalar, in canonical 32-byte encoding. It depends
/// on the seed alone.
pub uninterp spec fn derived_id_of(seed: Seq<u8>) -> Seq<u8>;

/// Whether deriving an identifier from a seed succeeds: derivation is
/// deterministic and fails exactly where the hash-to-scalar output is the
/// zero scalar.
pub uninterp spec fn derive_succeeds(seed: Seq<u8>) -> bool;

/// The hex encoding of a byte string, as characters.
pub open spec fn hex_chars_of(b: Seq<u8>) -> Seq<char> {
    hex_of(b).map_values(|x: u8| x as char)
}

/// Relies on `frost_secp256k1_tr::Identifier::derive` and
/// `Identifier::serialize`: the derived identifier is a function of the seed
/// bytes alone, its serialization is the canonical 32-byte big-endian scalar
/// encoding, and an `Identifier` is never the zero scalar, so some byte of the
/// encoding is nonzero and the encoding deserializes back. `derive` fails
/// only where the seed hashes to zero.
#[verifier::external_body]
fn derive_raw(seed: &[u8]) -> (r: Result<Vec<u8>, Error>)
    ensures
        r is Ok <==> derive_succeeds(seed@),
        r is Ok ==> r.unwrap()@ == derived_id_of(seed@),
        r is Ok ==> r.unwrap()@.len() == 32 && !all_zero(r.unwrap()@),
        r is Ok ==> crate::frost_ops::id_parses(r.unwrap()@),
        r is Err ==> r->Err_0 == Error::InvalidSeed,
{
    match frost_secp256k1_tr::Identifier::derive(seed) {
        Ok(id) => Ok(id.serialize()),
        Err(_) => Err(Error::InvalidSeed),
    }
}

/// Relies on `String::from_utf8`: a byte string of ASCII bytes is valid UTF-8
/// and decodes to exactly those bytes as characters.
#[verifier::external_body]
fn ascii_string(v: Vec<u8>) -> (r: String)
    requires
        forall|i: int| 0 <= i < v@.len() ==> v@[i] < 0x80,
    ensures
        r@ == v@.map_values(|b: u8| b as char),
{
    String::from_utf8(v).unwrap_or_default()
}

/// The lowercase hex string of a byte string.
pub fn to_hex_string(bytes: &[u8]) -> (r: String)
    ensures
        r@ == hex_chars_of(bytes@),
        r@.len() == 2 * bytes@.len(),
{
    let h = hex_encode(bytes);
    proof {
        assert forall|i: int| 0 <= i < h@.len() implies h@[i] < 0x80 by {
            assert(0 <= bytes@[i / 2] / 16 < 16 && 0 <= bytes@[i / 2] % 16 < 16);
        }
    }
    ascii_string(h)
}

/// The UTF-8 encoding of a hex character string is its hex byte string:
/// hex digits are ASCII, one byte per character.
pub proof fn lemma_hex_chars_utf8(b: Seq<u8>)
    ensures
        encode_utf8(hex_chars_of(b)) == hex_of(b),
{
    let chars = hex_chars_of(b);
    assert forall|i: int| 0 <= i < chars.len() implies '\0' <= #[trigger] chars[i]
        <= '\u{7f}' by {
        assert(0 <= b[i / 2] / 16 < 16 && 0 <= b[i / 2] % 16 < 16);
    }
    assert(is_ascii_chars(chars));
    is_ascii_chars_encode_utf8(chars);
    assert forall|i: int| 0 <= i < chars.len() implies encode_utf8(chars)[i] == hex_of(
        b,
    )[i] by {
        assert(chars[i] as u8 == encode_utf8(chars)[i]);
    }
    assert(encode_utf8(chars) =~= hex_of(b));
}

/// Hex encoding is injective: byte strings with the same hex character
/// encoding are equal.
pub proof fn lemma_hex_chars_injective(a: Seq<u8>, b: Seq<u8>)
    requires
        hex_chars_of(a) == hex_chars_of(b),
    ensures
        a == b,
{
    lemma_hex_chars_utf8(a);
    lemma_hex_chars_utf8(b);
    crate::hexcodec::lemma_hex_round_trip(a);
    crate::hexcodec::lemma_hex_round_trip(b);
    assert(a =~= b);
}

/// The identifier encoding is lossless: the hex encoding of any nonzero
/// 32-byte value is a 64-character well-formed identifier encoding, and
/// decoding it recovers exactly those bytes. Together with the contracts of
/// `encode` and `decode`, decoding an encoded identifier returns it
/// unchanged.
pub proof fn lemma_identifier_round_trip(b: Seq<u8>)
    requires
        b.len() == 32,
        !all_zero(b),
    ensures
        encode_utf8(hex_chars_of(b)).len() == 64,
        is_hex_str(encode_utf8(hex_chars_of(b))),
        bytes_of_hex(encode_utf8(hex_chars_of(b))) == b,
{
    lemma_hex_chars_utf8(b);
    crate::hexcodec::lemma_hex_round_trip(b);
}

/// The canonical name of a participant within a group: a nonzero 32-byte
/// value, unique per participant and used as a map key throughout.
#[derive(Debug)]
pub struct Identifier {
    bytes: Vec<u8>,
}

impl View for Identifier {
    type V = Seq<u8>;

    closed spec fn view(&self) -> Seq<u8> {
        self.bytes@
    }
}

impl Identifier {
    /// Well-formedness: exactly 32 bytes, not all zero.
    pub open spec fn wf(&self) -> bool {
        self@.len() == 32 && !all_zero(self@)
    }

    /// Derives the identifier of a seed deterministically; the result is
    /// never zero. Fails with `InvalidSeed` only where the derived scalar
    /// would be zero.
    pub fn derive(seed: &[u8]) -> (r: Result<Identifier, Error>)
        ensures
            r is Ok <==> derive_succeeds(seed@),
            r is Ok ==> r.unwrap()@ == derived_id_of(seed@) && r.unwrap().wf()
                && crate::frost_ops::id_parses(r.unwrap()@),
            r is Err ==> r == Err::<Identifier, Error>(Error::InvalidSeed),
    {
        match derive_raw(seed) {
            Ok(bytes) => Ok(Identifier { bytes }),
            Err(e) => Err(e),
        }
    }

    /// Wraps 32 nonzero bytes as an identifier; `MalformedEncoding` on wrong
    /// length or the zero value.
    pub fn from_bytes(bytes: Vec<u8>) -> (r: Result<Identifier, Error>)
        ensures
            r is Ok <==> bytes@.len() == 32 && !all_zero(bytes@),
            r is Ok ==> r.unwrap()@ == bytes@,
            r is Err ==> r->Err_0 == Error::MalformedEncoding,
    {
        if bytes.len() != 32 {
            return Err(Error::MalformedEncoding);
        }
        if Self::bytes_all_zero(bytes.as_slice()) {
            return Err(Error::MalformedEncoding);
        }
        Ok(Identifier { bytes })
    }

    /// Whether every byte of a slice is zero.
    fn bytes_all_zero(s: &[u8]) -> (r: bool)
        ensures
            r == all_zero(s@),
    {
        let n = s.len();
        let mut i: usize = 0;
        while i < n
            invariant
                n == s@.len(),
                i <= n,
                forall|j: int| 0 <= j < i ==> s@[j] == 0,
            decreases n - i,
        {
            if s[i] != 0 {
                return false;
            }
            i = i + 1;
        }
        true
    }

    /// The identifier's bytes.
    pub fn as_bytes(&self) -> (r: &[u8])
        ensures
            r@ == self@,
    {
        self.bytes.as_slice()
    }

    /// The identifier's bytes, as an owned value.
    pub fn into_bytes(self) -> (r: Vec<u8>)
        ensures
            r@ == self@,
    {
        self.bytes
    }

    /// The exchangeable encoding: 64 lowercase hex characters.
    pub fn encode(&self) -> (r: String)
        ensures
            r@ == hex_chars_of(self@),
            r@.len() == 2 * self@.len(),
    {
        to_hex_string(self.bytes.as_slice())
    }

    /// Decodes the 64-character hex encoding back to an identifier; fails
    /// with `MalformedEncoding` on wrong length, non-hex input, or the zero
    /// identifier.
    pub fn decode(s: &str) -> (r: Result<Identifier, Error>)
        ensures
            r is Ok <==> (s.spec_bytes().len() == 64 && is_hex_str(s.spec_bytes()) && !all_zero(
                bytes_of_hex(s.spec_bytes()),
            )),
            r is Ok ==> r.unwrap()@ == bytes_of_hex(s.spec_bytes()) && r.unwrap().wf(),
            r is Err ==> r->Err_0 == Error::MalformedEncoding,
    {
        let b = s.as_bytes();
        if b.len() != 64 {
            return Err(Error::MalformedEncoding);
        }
        let bytes = match hex_decode(b) {
            Ok(v) => v,
            Err(e) => {
                return Err(e);
            },
        };
        if Self::bytes_all_zero(bytes.as_slice()) {
            return Err(Error::MalformedEncoding);
        }
        Ok(Identifier { bytes })
    }
}

} // verus!
