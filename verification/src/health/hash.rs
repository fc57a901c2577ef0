//! The content hash that tells whether an audio file changed: SHA-256 over
//! the file's size and its content, or for a large file its first and last
//! megabyte, written in lowercase hex.
//!
//! Reading the bytes is the caller's work; which bytes are hashed, and how
//! the digest is written, is decided here.

use vstd::prelude::*;
use sha2::Digest;
use crate::text::push_char;

verus! {

/// The SHA-256 digest of a byte string.
pub uninterp spec fn sha256_of(data: Seq<u8>) -> Seq<u8>;

/// `sha2::Sha256::digest`.
///
/// Trusted: the result is `sha256_of` the input, and it is 32 bytes long
/// (the output size the `Sha256` type declares).
#[verifier::external_body]
fn sha256(data: &[u8]) -> (r: Vec<u8>)
    ensures
        r@ == sha256_of(data@),
        r@.len() == 32,
{
    sha2::Sha256::digest(data).to_vec()
}

/// The size of the chunk hashed at each end of a large file (1 MiB).
pub const HASH_CHUNK_SIZE: u64 = 1048576;

/// What of a file goes into its hash.
#[derive(Debug, Clone, Copy, PartialEq, Eq, Structural)]
pub enum HashSpan {
    /// All of it: the file is at most two chunks long
    Whole,
    /// The first and the last chunk
    Ends,
}

/// What of a file of a given size goes into its hash.
pub fn hash_span(file_size: u64) -> (r: HashSpan)
    ensures
        r == (if file_size <= 2 * HASH_CHUNK_SIZE { HashSpan::Whole } else { HashSpan::Ends }),
{
    if file_size <= 2 * HASH_CHUNK_SIZE {
        HashSpan::Whole
    } else {
        HashSpan::Ends
    }
}

/// The eight bytes of a number, least significant first
/// (`u64::to_le_bytes`).
pub open spec fn le_bytes(n: u64) -> Seq<u8> {
    seq![
        (n & 0xff) as u8,
        ((n >> 8u64) & 0xff) as u8,
        ((n >> 16u64) & 0xff) as u8,
        ((n >> 24u64) & 0xff) as u8,
        ((n >> 32u64) & 0xff) as u8,
        ((n >> 40u64) & 0xff) as u8,
        ((n >> 48u64) & 0xff) as u8,
        ((n >> 56u64) & 0xff) as u8,
    ]
}

fn le_byte_vec(n: u64) -> (r: Vec<u8>)
    ensures
        r@ == le_bytes(n),
{
    let mut v: Vec<u8> = Vec::new();
    v.push((n & 0xff) as u8);
    v.push(((n >> 8u64) & 0xff) as u8);
    v.push(((n >> 16u64) & 0xff) as u8);
    v.push(((n >> 24u64) & 0xff) as u8);
    v.push(((n >> 32u64) & 0xff) as u8);
    v.push(((n >> 40u64) & 0xff) as u8);
    v.push(((n >> 48u64) & 0xff) as u8);
    v.push(((n >> 56u64) & 0xff) as u8);
    assert(v@ =~= le_bytes(n));
    v
}

/// The lowercase hex digit of a value below sixteen.
pub open spec fn hex_digit(d: u8) -> char {
    if d < 10 {
        (('0' as u8) + d) as char
    } else {
        (('a' as u8) + (d - 10)) as char
    }
}

/// A byte string in lowercase hex, two digits per byte.
pub open spec fn hex_text(bytes: Seq<u8>) -> Seq<char>
    decreases bytes.len(),
{
    if bytes.len() == 0 {
        Seq::empty()
    } else {
        hex_text(bytes.drop_last()) + seq![hex_digit(bytes.last() >> 4u8), hex_digit(bytes.last() & 15u8)]
    }
}

fn hex_char(d: u8) -> (c: char)
    requires
        d < 16,
    ensures
        c == hex_digit(d),
{
    if d < 10 {
        ((48u8) + d) as char
    } else {
        ((97u8) + (d - 10)) as char
    }
}

/// Writes bytes in lowercase hex.
pub fn to_hex(bytes: &[u8]) -> (r: String)
    ensures
        r@ == hex_text(bytes@),
{
    let mut out = String::new();
    let mut i: usize = 0;
    while i < bytes.len()
        invariant
            i <= bytes@.len(),
            out@ == hex_text(bytes@.subrange(0, i as int)),
        decreases bytes@.len() - i,
    {
        let b = bytes[i];
        assert(b >> 4u8 < 16) by (bit_vector);
        assert(b & 15u8 < 16) by (bit_vector);
        let ghost pre = bytes@.subrange(0, i as int);
        let ghost post = bytes@.subrange(0, i + 1);
        assert(post.drop_last() =~= pre);
        push_char(&mut out, hex_char(b >> 4));
        push_char(&mut out, hex_char(b & 15));
        assert(out@ =~= hex_text(post));
        i += 1;
    }
    assert(bytes@.subrange(0, bytes@.len() as int) =~= bytes@);
    out
}

/// The hash of a file of `file_size` bytes whose hashed content (all of it,
/// or its first and last chunk one after the other) is `content`.
pub open spec fn file_hash_text(file_size: u64, content: Seq<u8>) -> Seq<char> {
    hex_text(sha256_of(le_bytes(file_size) + content))
}

/// Computes the hash of a file from its size and hashed content.
pub fn file_hash(file_size: u64, content: &[u8]) -> (r: String)
    ensures
        r@ == file_hash_text(file_size, content@),
        r@.len() == 64,
{
    let mut data = le_byte_vec(file_size);
    let mut i: usize = 0;
    while i < content.len()
        invariant
            i <= content@.len(),
            data@ == le_bytes(file_size) + content@.subrange(0, i as int),
        decreases content@.len() - i,
    {
        data.push(content[i]);
        assert(data@ =~= le_bytes(file_size) + content@.subrange(0, i + 1));
        i += 1;
    }
    assert(content@.subrange(0, content@.len() as int) =~= content@);
    let digest = sha256(data.as_slice());
    proof {
        lemma_hex_len(digest@);
    }
    to_hex(digest.as_slice())
}

proof fn lemma_hex_len(bytes: Seq<u8>)
    ensures
        hex_text(bytes).len() == 2 * bytes.len(),
    decreases bytes.len(),
{
    if bytes.len() > 0 {
        lemma_hex_len(bytes.drop_last());
    }
}

/// Whether a file changed since it was last checked: there is no stored
/// hash, the current one could not be computed, or they differ.
pub fn has_changed(stored: Option<&str>, current: Option<&str>) -> (r: bool)
    ensures
        r == match (stored, current) {
            (Some(s), Some(c)) => s@ != c@,
            _ => true,
        },
{
    match (stored, current) {
        (Some(s), Some(c)) => !crate::text::str_eq(s, c),
        _ => true,
    }
}

}
