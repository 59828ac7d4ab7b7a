//! Content hashes: SHA-256 digests written as lower-case hexadecimal.
use sha2::Digest;
use vstd::prelude::*;
use vstd::utf8::encode_utf8;

verus! {

/// The SHA-256 digest of `data`.
pub uninterp spec fn sha256_of(data: Seq<u8>) -> Seq<u8>;

/// Calls `sha2::Sha256::digest`. Claims that the result is the digest of the
/// input bytes (named `sha256_of`) and, as the output size of SHA-256 is
/// 32 bytes, that it has 32 bytes.
#[verifier::external_body]
pub fn sha256_digest(data: &[u8]) -> (r: Vec<u8>)
    ensures
        r@ == sha256_of(data@),
        r@.len() == 32,
{
    sha2::Sha256::digest(data).to_vec()
}

/// The lower-case hexadecimal digit for a value below 16.
pub open spec fn hex_digit(n: u8) -> char {
    if n < 10 {
        (('0' as u8) + n) as char
    } else {
        (('a' as u8) + n - 10) as char
    }
}

/// `bytes` written as lower-case hexadecimal, two digits per byte, high
/// nibble first (what `{:x}` prints for a digest).
pub open spec fn hex_lower(bytes: Seq<u8>) -> Seq<char>
    decreases bytes.len(),
{
    if bytes.len() == 0 {
        Seq::empty()
    } else {
        let b = bytes.last();
        hex_lower(bytes.drop_last()) + seq![hex_digit(b / 16), hex_digit(b % 16)]
    }
}

/// The hash by which clipboard contents are told apart: SHA-256 of the
/// UTF-8 bytes of the text, in lower-case hexadecimal.
pub open spec fn content_hash(text: Seq<char>) -> Seq<char> {
    hex_lower(sha256_of(encode_utf8(text)))
}

/// The hash of raw image bytes, in lower-case hexadecimal.
pub open spec fn data_hash(data: Seq<u8>) -> Seq<char> {
    hex_lower(sha256_of(data))
}

/// The hexadecimal digit for a value below 16.
pub fn hex_digit_exec(n: u8) -> (c: char)
    requires
        n < 16,
    ensures
        c == hex_digit(n),
{
    if n < 10 {
        (('0' as u8) + n) as char
    } else {
        (('a' as u8) + n - 10) as char
    }
}

pub proof fn lemma_hex_lower_len(bytes: Seq<u8>)
    ensures
        hex_lower(bytes).len() == 2 * bytes.len(),
    decreases bytes.len(),
{
    if bytes.len() > 0 {
        lemma_hex_lower_len(bytes.drop_last());
    }
}

/// Each character of `hex_lower(bytes)`: the high digit of byte `i / 2` at an
/// even index, its low digit at an odd one.
pub proof fn lemma_hex_lower_index(bytes: Seq<u8>, i: int)
    requires
        0 <= i < 2 * bytes.len(),
    ensures
        hex_lower(bytes)[i] == (if i % 2 == 0 {
            hex_digit(bytes[i / 2] / 16)
        } else {
            hex_digit(bytes[i / 2] % 16)
        }),
    decreases bytes.len(),
{
    lemma_hex_lower_len(bytes.drop_last());
    if i < 2 * (bytes.len() - 1) {
        lemma_hex_lower_index(bytes.drop_last(), i);
    }
}

/// `bytes` in lower-case hexadecimal.
pub fn to_hex_lower(bytes: &[u8]) -> (r: String)
    ensures
        r@ == hex_lower(bytes@),
{
    let mut out = String::new();
    let mut i: usize = 0;
    while i < bytes.len()
        invariant
            i <= bytes.len(),
            out@ == hex_lower(bytes@.take(i as int)),
        decreases bytes.len() - i,
    {
        let b = bytes[i];
        assert(bytes@.take(i + 1).drop_last() == bytes@.take(i as int));
        assert(bytes@.take(i + 1).last() == b);
        crate::text::push_char(&mut out, hex_digit_exec(b / 16));
        crate::text::push_char(&mut out, hex_digit_exec(b % 16));
        assert(out@ == hex_lower(bytes@.take(i as int)) + seq![hex_digit(b / 16), hex_digit(b % 16)]);
        i = i + 1;
    }
    assert(bytes@.take(bytes.len() as int) == bytes@);
    out
}

/// The hash of a piece of clipboard text.
pub fn compute_hash(s: &str) -> (r: String)
    ensures
        r@ == content_hash(s@),
        r@.len() == 64,
{
    let digest = sha256_digest(s.as_bytes());
    proof {
        lemma_hex_lower_len(digest@);
    }
    to_hex_lower(digest.as_slice())
}

/// The hash of raw image bytes.
pub fn image_data_hash(data: &[u8]) -> (r: String)
    ensures
        r@ == data_hash(data@),
        r@.len() == 64,
{
    let digest = sha256_digest(data);
    proof {
        lemma_hex_lower_len(digest@);
    }
    to_hex_lower(digest.as_slice())
}

} // verus!
