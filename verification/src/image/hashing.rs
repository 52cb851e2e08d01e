//! SHA-256 content hashes and their textual form.

use sha2::Digest as _;
use vstd::prelude::*;

use crate::text::join2;

verus! {

/// The number of bytes from which on SHA-256 is not defined: its length field counts bits in
/// 64 bits.
pub const HASH_LENGTH_LIMIT: u64 = 0x2000_0000_0000_0000;

/// The SHA-256 hash of some bytes.
pub uninterp spec fn sha256(data: Seq<u8>) -> Seq<u8>;

/// The streaming SHA-256 hasher of the `sha2` crate.
#[verifier::external_body]
pub struct Hasher {
    inner: sha2::Sha256,
}

/// The bytes that a hasher holds: all that it has taken in so far, in order.
pub uninterp spec fn absorbed(hasher: Hasher) -> Seq<u8>;

/// Calls `Sha256::new` of the `sha2` crate: a hasher that has taken in nothing.
#[verifier::external_body]
pub(crate) fn hasher_new() -> (hasher: Hasher)
    ensures
        absorbed(hasher) == Seq::<u8>::empty(),
{
    Hasher { inner: sha2::Sha256::new() }
}

/// Calls `Sha256::update` of the `sha2` crate: the hasher takes in the bytes after those that
/// it has taken in before.
#[verifier::external_body]
pub(crate) fn hasher_update(hasher: &mut Hasher, data: &[u8])
    requires
        absorbed(*old(hasher)).len() + data@.len() <= u64::MAX,
    ensures
        absorbed(*final(hasher)) == absorbed(*old(hasher)) + data@,
{
    hasher.inner.update(data);
}

/// Calls `Sha256::finalize` of the `sha2` crate: the hash of everything that the hasher has
/// taken in.
#[verifier::external_body]
pub(crate) fn hasher_finalize(hasher: Hasher) -> (hash: Vec<u8>)
    requires
        absorbed(hasher).len() < HASH_LENGTH_LIMIT,
    ensures
        hash@ == sha256(absorbed(hasher)),
        hash@.len() == 32,
{
    hasher.inner.finalize().to_vec()
}

/// Calls `Sha256::digest` of the `sha2` crate: the hash of the bytes.
#[verifier::external_body]
pub(crate) fn hash_bytes(data: &[u8]) -> (hash: Vec<u8>)
    requires
        data@.len() < HASH_LENGTH_LIMIT,
    ensures
        hash@ == sha256(data@),
        hash@.len() == 32,
{
    sha2::Sha256::digest(data).to_vec()
}

/// The hexadecimal digit with value `n`, in lower case.
pub open spec fn hex_char(n: u8) -> char {
    if n < 10 {
        (48 + n) as char
    } else {
        (87 + n) as char
    }
}

/// Two hexadecimal digits for each byte, the more significant one first.
pub open spec fn hex_text(data: Seq<u8>) -> Seq<char> {
    Seq::new(
        2 * data.len(),
        |i: int|
            hex_char(
                if i % 2 == 0 {
                    data[i / 2] / 16
                } else {
                    data[i / 2] % 16
                },
            ),
    )
}

/// Calls `encode` of the `hex` crate: two lower-case hexadecimal digits for each byte, the
/// more significant one first.
#[verifier::external_body]
pub(crate) fn hex_encode(data: &[u8]) -> (text: String)
    ensures
        text@ == hex_text(data@),
{
    hex::encode(data)
}

/// How a SHA-256 hash is written as a content digest.
pub open spec fn digest_text(hash: Seq<u8>) -> Seq<char> {
    "sha256:"@ + hex_text(hash)
}

/// Writes a SHA-256 hash as a content digest.
pub fn render_digest(hash: &[u8]) -> (text: String)
    ensures
        text@ == digest_text(hash@),
{
    join2("sha256:", hex_encode(hash).as_str())
}

/// The content digest of some bytes.
pub fn content_digest(data: &[u8]) -> (text: String)
    requires
        data@.len() < HASH_LENGTH_LIMIT,
    ensures
        text@ == digest_text(sha256(data@)),
{
    render_digest(hash_bytes(data).as_slice())
}

} // verus!
