//! Content identity: a cryptographic digest of the raw file bytes, rendered
//! as lowercase hexadecimal and used as a deduplication key by the caller.

use vstd::prelude::*;

use sha2::Digest;

verus! {

/// The SHA-256 digest of a byte sequence. The digest itself is well beyond
/// stating here; the contracts only rely on it being a function of the bytes.
pub uninterp spec fn sha256_of(data: Seq<u8>) -> Seq<u8>;

/// Relies on sha2's `Sha256` (through `Digest::digest`): SHA-256 of the input
/// bytes, a 32-byte digest determined by the input alone.
#[verifier::external_body]
fn sha256_digest(data: &Vec<u8>) -> (r: Vec<u8>)
    ensures
        r@ == sha256_of(data@),
        r@.len() == 32,
{
    sha2::Sha256::digest(data.as_slice()).to_vec()
}

/// The lowercase hexadecimal digit character for `d`.
pub open spec fn spec_hex_digit(d: int) -> char {
    if d < 10 {
        crate::sport::spec_dec_digit(d)
    } else if d == 10 {
        'a'
    } else if d == 11 {
        'b'
    } else if d == 12 {
        'c'
    } else if d == 13 {
        'd'
    } else if d == 14 {
        'e'
    } else {
        'f'
    }
}

/// The lowercase hexadecimal rendering of a byte sequence: two digits per
/// byte, high nibble first.
pub open spec fn spec_hex_of(data: Seq<u8>) -> Seq<char>
    decreases data.len(),
{
    if data.len() == 0 {
        Seq::empty()
    } else {
        seq![
            spec_hex_digit(data[0] as int / 16),
            spec_hex_digit(data[0] as int % 16),
        ] + spec_hex_of(data.drop_first())
    }
}

/// Relies on hex::encode: two lowercase hexadecimal digits per byte, high
/// nibble first.
#[verifier::external_body]
fn hex_encode(data: &Vec<u8>) -> (r: String)
    ensures
        r@ == spec_hex_of(data@),
{
    hex::encode(data.as_slice())
}

/// The hexadecimal rendering is two characters per byte.
pub proof fn lemma_hex_len(data: Seq<u8>)
    ensures
        spec_hex_of(data).len() == 2 * data.len(),
    decreases data.len(),
{
    if data.len() > 0 {
        lemma_hex_len(data.drop_first());
    }
}

/// The content identity of a byte sequence: its SHA-256 digest in lowercase
/// hexadecimal.
pub open spec fn spec_content_hash(data: Seq<u8>) -> Seq<char> {
    spec_hex_of(sha256_of(data))
}

/// Compute the content identity of the raw file bytes: the SHA-256 digest,
/// rendered as lowercase hexadecimal — always 64 characters.
pub fn compute_file_hash(data: &Vec<u8>) -> (r: String)
    ensures
        r@ == spec_content_hash(data@),
        r@.len() == 64,
{
    let digest = sha256_digest(data);
    proof {
        lemma_hex_len(digest@);
    }
    hex_encode(&digest)
}

} // verus!
