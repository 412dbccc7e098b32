//! Stable identifiers for diagram blocks, derived from their source text.

use vstd::prelude::*;

use sha2::{Digest, Sha256};

use crate::text::string_of;

verus! {

/// What the SHA-256 digest of the text's UTF-8 bytes is. The digest
/// depends on the text alone.
pub uninterp spec fn sha256_of(s: Seq<char>) -> Seq<u8>;

/// Relies on `sha2::Sha256`: digests the text's bytes, a pure function of
/// the text, 32 bytes long.
#[verifier::external_body]
fn sha256_bytes(source: &str) -> (r: Vec<u8>)
    ensures
        r@ == sha256_of(source@),
        r@.len() == 32,
{
    let mut hasher = Sha256::new();
    hasher.update(source.as_bytes());
    hasher.finalize().to_vec()
}

/// The lower-case hexadecimal digit of a value below sixteen.
pub open spec fn spec_hex_digit(v: int) -> char {
    if v == 0 {
        '0'
    } else if v == 1 {
        '1'
    } else if v == 2 {
        '2'
    } else if v == 3 {
        '3'
    } else if v == 4 {
        '4'
    } else if v == 5 {
        '5'
    } else if v == 6 {
        '6'
    } else if v == 7 {
        '7'
    } else if v == 8 {
        '8'
    } else if v == 9 {
        '9'
    } else if v == 10 {
        'a'
    } else if v == 11 {
        'b'
    } else if v == 12 {
        'c'
    } else if v == 13 {
        'd'
    } else if v == 14 {
        'e'
    } else {
        'f'
    }
}

/// The two lower-case hexadecimal digits of one byte.
pub open spec fn spec_hex_byte(b: u8) -> Seq<char> {
    seq![spec_hex_digit(b as int / 16), spec_hex_digit(b as int % 16)]
}

/// The lower-case hexadecimal form of a byte sequence.
pub open spec fn spec_hex(bytes: Seq<u8>) -> Seq<char>
    decreases bytes.len(),
{
    if bytes.len() == 0 {
        Seq::<char>::empty()
    } else {
        spec_hex_byte(bytes[0]) + spec_hex(bytes.skip(1))
    }
}

/// The lower-case hexadecimal digit of a value below sixteen.
fn hex_digit(v: u8) -> (r: char)
    requires
        v < 16,
    ensures
        r == spec_hex_digit(v as int),
{
    if v == 0 {
        '0'
    } else if v == 1 {
        '1'
    } else if v == 2 {
        '2'
    } else if v == 3 {
        '3'
    } else if v == 4 {
        '4'
    } else if v == 5 {
        '5'
    } else if v == 6 {
        '6'
    } else if v == 7 {
        '7'
    } else if v == 8 {
        '8'
    } else if v == 9 {
        '9'
    } else if v == 10 {
        'a'
    } else if v == 11 {
        'b'
    } else if v == 12 {
        'c'
    } else if v == 13 {
        'd'
    } else if v == 14 {
        'e'
    } else {
        'f'
    }
}

/// Writes the first `count` bytes in lower-case hexadecimal, exactly as
/// `spec_hex` of that prefix says.
fn hex_prefix(bytes: &Vec<u8>, count: usize) -> (r: Vec<char>)
    requires
        count <= bytes@.len(),
    ensures
        r@ == spec_hex(bytes@.take(count as int)),
{
    let mut out: Vec<char> = Vec::new();
    let mut i: usize = 0;
    proof {
        assert(bytes@.take(0) =~= Seq::<u8>::empty());
    }
    while i < count
        invariant
            i <= count,
            count <= bytes@.len(),
            out@ == spec_hex(bytes@.take(i as int)),
        decreases count - i,
    {
        let b = bytes[i];
        out.push(hex_digit(b / 16));
        out.push(hex_digit(b % 16));
        proof {
            lemma_hex_append(bytes@.take(i as int), seq![bytes@[i as int]]);
            assert(bytes@.take(i + 1 as int) =~= bytes@.take(i as int) + seq![bytes@[i as int]]);
            assert(spec_hex(seq![bytes@[i as int]]) =~= spec_hex_byte(bytes@[i as int])) by {
                assert(seq![bytes@[i as int]].skip(1) =~= Seq::<u8>::empty());
                assert(spec_hex(Seq::<u8>::empty()) =~= Seq::<char>::empty());
                assert(spec_hex_byte(bytes@[i as int]) + Seq::<char>::empty() =~= spec_hex_byte(
                    bytes@[i as int],
                ));
            }
        }
        i = i + 1;
    }
    out
}

/// Hexadecimal writing distributes over concatenation.
proof fn lemma_hex_append(a: Seq<u8>, b: Seq<u8>)
    ensures
        spec_hex(a + b) == spec_hex(a) + spec_hex(b),
    decreases a.len(),
{
    if a.len() == 0 {
        assert(a + b =~= b);
        assert(spec_hex(a) + spec_hex(b) =~= spec_hex(b));
    } else {
        assert((a + b).skip(1) =~= a.skip(1) + b);
        lemma_hex_append(a.skip(1), b);
        assert(spec_hex_byte((a + b)[0]) + (spec_hex(a.skip(1)) + spec_hex(b)) =~= (spec_hex_byte(
            a[0],
        ) + spec_hex(a.skip(1))) + spec_hex(b));
    }
}

/// A unique id for a diagram: the first sixteen hexadecimal digits (the
/// first eight bytes) of the SHA-256 digest of its source.
pub fn generate_diagram_id(source: &str) -> (r: String)
    ensures
        r@ == spec_hex(sha256_of(source@).take(8)),
{
    let digest = sha256_bytes(source);
    let hex = hex_prefix(&digest, 8);
    string_of(&hex)
}

} // verus!
