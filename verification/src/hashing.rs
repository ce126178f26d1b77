//! Content hashing: an asset body is digested with SHA-1, the 160-bit digest
//! is folded to 64 bits by XORing its first two 8-byte halves (read
//! little-endian), and the fold is rendered as a fixed-width lowercase
//! hexadecimal string wrapped in double quotes. The quoted string is the
//! asset's etag, a deterministic function of the body bytes alone.

use vstd::prelude::*;
use vstd::string::StringExecFns;
use crate::text::push_char;

verus! {

/// The SHA-1 digest of a byte sequence: a fixed result that depends on the
/// bytes alone.
pub uninterp spec fn sha1_of(bytes: Seq<u8>) -> Seq<u8>;

/// Relies on sha1::Sha1::digest: the 20-byte SHA-1 digest of the input,
/// a function of the input bytes alone.
#[verifier::external_body]
fn sha1_digest(bytes: &[u8]) -> (r: Vec<u8>)
    ensures
        r@ == sha1_of(bytes@),
        r@.len() == 20,
{
    <sha1::Sha1 as sha1::Digest>::digest(bytes).to_vec()
}

/// The little-endian 64-bit value stored in `s` at offset `off`.
pub open spec fn spec_le_u64_at(s: Seq<u8>, off: int) -> u64
    recommends
        0 <= off,
        off + 8 <= s.len(),
{
    (s[off] as u64) | ((s[off + 1] as u64) << 8) | ((s[off + 2] as u64) << 16) | ((s[off + 3]
        as u64) << 24) | ((s[off + 4] as u64) << 32) | ((s[off + 5] as u64) << 40) | ((s[off + 6]
        as u64) << 48) | ((s[off + 7] as u64) << 56)
}

/// A 20-byte digest folded to 64 bits: the XOR of its first two 8-byte
/// halves, each read little-endian.
pub open spec fn spec_fold_digest(d: Seq<u8>) -> u64
    recommends
        d.len() >= 16,
{
    spec_le_u64_at(d, 0) ^ spec_le_u64_at(d, 8)
}

fn le_u64_at(d: &Vec<u8>, off: usize) -> (r: u64)
    requires
        off + 8 <= d@.len(),
    ensures
        r == spec_le_u64_at(d@, off as int),
{
    let n = d.len();
    (d[off] as u64) | ((d[off + 1] as u64) << 8u64) | ((d[off + 2] as u64) << 16u64) | ((d[off
        + 3] as u64) << 24u64) | ((d[off + 4] as u64) << 32u64) | ((d[off + 5] as u64) << 40u64)
        | ((d[off + 6] as u64) << 48u64) | ((d[off + 7] as u64) << 56u64)
}

/// The lowercase hexadecimal digit for a value below 16.
pub open spec fn spec_hex_digit(n: int) -> char {
    if n == 0 {
        '0'
    } else if n == 1 {
        '1'
    } else if n == 2 {
        '2'
    } else if n == 3 {
        '3'
    } else if n == 4 {
        '4'
    } else if n == 5 {
        '5'
    } else if n == 6 {
        '6'
    } else if n == 7 {
        '7'
    } else if n == 8 {
        '8'
    } else if n == 9 {
        '9'
    } else if n == 10 {
        'a'
    } else if n == 11 {
        'b'
    } else if n == 12 {
        'c'
    } else if n == 13 {
        'd'
    } else if n == 14 {
        'e'
    } else {
        'f'
    }
}

/// The 16-character lowercase hexadecimal rendering of a 64-bit value,
/// most significant nibble first.
pub open spec fn spec_hex16(v: u64) -> Seq<char> {
    Seq::new(16, |i: int| spec_hex_digit(((v >> ((60 - 4 * i) as u64)) & 0xf) as int))
}

fn hex_digit(n: u64) -> (c: char)
    requires
        n < 16,
    ensures
        c == spec_hex_digit(n as int),
{
    if n == 0 {
        '0'
    } else if n == 1 {
        '1'
    } else if n == 2 {
        '2'
    } else if n == 3 {
        '3'
    } else if n == 4 {
        '4'
    } else if n == 5 {
        '5'
    } else if n == 6 {
        '6'
    } else if n == 7 {
        '7'
    } else if n == 8 {
        '8'
    } else if n == 9 {
        '9'
    } else if n == 10 {
        'a'
    } else if n == 11 {
        'b'
    } else if n == 12 {
        'c'
    } else if n == 13 {
        'd'
    } else if n == 14 {
        'e'
    } else {
        'f'
    }
}

fn hex16(v: u64) -> (r: String)
    ensures
        r@ == spec_hex16(v),
{
    let mut s = String::new();
    let mut i: usize = 0;
    while i < 16
        invariant
            i <= 16,
            s@.len() == i,
            forall|j: int| 0 <= j < i ==> s@[j] == spec_hex16(v)[j],
        decreases 16 - i,
    {
        let sh: u64 = 60 - 4 * (i as u64);
        let nib: u64 = (v >> sh) & 0xf;
        proof {
            assert((v >> sh) & 0xf < 16) by (bit_vector);
        }
        let c = hex_digit(nib);
        push_char(&mut s, c);
        i = i + 1;
    }
    proof {
        assert(s@ =~= spec_hex16(v));
    }
    s
}

/// The etag of a byte sequence: the folded SHA-1 digest as 16 lowercase hex
/// characters wrapped in double quotes.
pub open spec fn spec_etag(bytes: Seq<u8>) -> Seq<char> {
    seq!['"'] + spec_hex16(spec_fold_digest(sha1_of(bytes))) + seq!['"']
}

/// Hash a body into its quoted etag string.
pub fn etag(contents: &[u8]) -> (r: String)
    ensures
        r@ == spec_etag(contents@),
{
    let digest = sha1_digest(contents);
    let folded = le_u64_at(&digest, 0) ^ le_u64_at(&digest, 8);
    let hex = hex16(folded);
    let mut s = String::new();
    push_char(&mut s, '"');
    s.append(hex.as_str());
    push_char(&mut s, '"');
    proof {
        assert(s@ =~= spec_etag(contents@));
    }
    s
}

/// The etag is a pure function of the body: equal bodies always hash to
/// equal etags.
pub proof fn lemma_etag_deterministic(b1: Seq<u8>, b2: Seq<u8>)
    requires
        b1 == b2,
    ensures
        spec_etag(b1) == spec_etag(b2),
{
}

} // verus!
