//! The identifier of a URL: the first eight bytes of the SHA-256 digest of
//! the URL's UTF-8 bytes, read as a big-endian number.

use sha2::{Digest, Sha256};
use vstd::prelude::*;
use vstd::utf8::encode_utf8;

verus! {

/// The SHA-256 digest of a byte string.
pub uninterp spec fn spec_sha256(data: Seq<u8>) -> Seq<u8>;

/// Trusted: `Sha256::digest` of the sha2 crate. The thirty-two bytes it
/// returns are the SHA-256 digest of `data`, and of `data` alone.
#[verifier::external_body]
fn sha256(data: &[u8]) -> (digest: [u8; 32])
    ensures
        digest@ == spec_sha256(data@),
{
    Sha256::digest(data).into()
}

/// The number that `bytes` spell in base 256, most significant byte first.
pub open spec fn be_value(bytes: Seq<u8>) -> nat
    decreases bytes.len(),
{
    if bytes.len() == 0 {
        0
    } else {
        be_value(bytes.drop_last()) * 256 + bytes.last() as nat
    }
}

/// 256 to the power `n`.
pub open spec fn radix_pow(n: nat) -> nat
    decreases n,
{
    if n == 0 {
        1
    } else {
        256 * radix_pow((n - 1) as nat)
    }
}

/// The number that the first eight bytes of `digest` spell, most
/// significant byte first. Eight bytes always fit in 64 bits
/// ([`lemma_digest_prefix_fits`]).
pub open spec fn digest_prefix(digest: Seq<u8>) -> u64 {
    be_value(digest.take(8)) as u64
}

/// The identifier of the URL `url`: the prefix of the SHA-256 digest of its
/// UTF-8 bytes.
pub open spec fn url_identifier(url: Seq<char>) -> u64 {
    digest_prefix(spec_sha256(encode_utf8(url)))
}

/// A big-endian number of `n` bytes is below 256 to the `n`.
pub proof fn lemma_be_value_bound(bytes: Seq<u8>)
    ensures
        be_value(bytes) < radix_pow(bytes.len()),
    decreases bytes.len(),
{
    if bytes.len() > 0 {
        lemma_be_value_bound(bytes.drop_last());
    }
}

/// The first eight bytes of a digest spell a number below 2^64.
pub proof fn lemma_digest_prefix_fits(digest: Seq<u8>)
    requires
        digest.len() >= 8,
    ensures
        be_value(digest.take(8)) <= u64::MAX,
        digest_prefix(digest) as nat == be_value(digest.take(8)),
{
    reveal_with_fuel(radix_pow, 9);
    lemma_be_value_bound(digest.take(8));
}

/// The identifier that the first eight bytes of a digest spell.
pub fn identifier_from_digest(digest: &[u8; 32]) -> (id: u64)
    ensures
        id == digest_prefix(digest@),
        id as nat == be_value(digest@.take(8)),
{
    let mut id: u64 = 0;
    let mut i: usize = 0;
    while i < 8
        invariant
            i <= 8,
            digest@.len() == 32,
            id as nat == be_value(digest@.take(i as int)),
            (id as nat) < radix_pow(i as nat),
        decreases 8 - i,
    {
        proof {
            reveal_with_fuel(radix_pow, 9);
            assert(radix_pow(i as nat) <= radix_pow(7));
            assert(digest@.take(i + 1).drop_last() == digest@.take(i as int));
            lemma_be_value_bound(digest@.take(i + 1));
        }
        id = id * 256 + digest[i] as u64;
        i = i + 1;
    }
    id
}

/// The identifier of `url`. It is a function of the URL's bytes: the same
/// URL gets the same identifier in every call and in every run.
pub fn generate_url_hash(url: &str) -> (id: u64)
    ensures
        id == url_identifier(url@),
{
    let digest = sha256(url.as_bytes());
    identifier_from_digest(&digest)
}

/// Two URLs with the same UTF-8 bytes have the same identifier.
pub proof fn lemma_identifier_of_bytes(a: Seq<char>, b: Seq<char>)
    requires
        encode_utf8(a) == encode_utf8(b),
    ensures
        url_identifier(a) == url_identifier(b),
{
}

} // verus!
