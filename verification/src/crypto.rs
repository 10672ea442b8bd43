//! Password hashing utilities.

use crate::text::is_ascii_alphanumeric;
use vstd::prelude::*;
use vstd::utf8::*;

verus! {

/// Default length for salt.
pub const SALT_LENGTH: usize = 32;

/// The SHA-256 digest of a sequence of bytes.
pub uninterp spec fn sha256(data: Seq<u8>) -> Seq<u8>;

/// The lower-case hexadecimal digit for a value below sixteen.
pub open spec fn hex_digit(n: int) -> char {
    if n < 10 {
        (('0' as u8) + n) as char
    } else {
        (('a' as u8) + n - 10) as char
    }
}

/// The bytes written in base 16, two lower-case digits each, the high one
/// first.
pub open spec fn hex_lower(bytes: Seq<u8>) -> Seq<char>
    decreases bytes.len(),
{
    if bytes.len() == 0 {
        Seq::empty()
    } else {
        hex_lower(bytes.drop_last()).push(hex_digit(bytes.last() as int / 16)).push(
            hex_digit(bytes.last() as int % 16),
        )
    }
}

/// A base 16 text has two characters for each byte.
pub proof fn lemma_hex_lower_len(bytes: Seq<u8>)
    ensures
        hex_lower(bytes).len() == 2 * bytes.len(),
    decreases bytes.len(),
{
    if bytes.len() > 0 {
        lemma_hex_lower_len(bytes.drop_last());
    }
}

/// The number of bytes of a SHA-256 digest.
pub const DIGEST_BYTES: usize = 32;

/// `rand::rngs::StdRng`, the generator that salts and keys are drawn from.
#[verifier::external_type_specification]
#[verifier::external_body]
pub struct ExStdRng(rand::rngs::StdRng);

/// `sha2::Sha256::digest`: the SHA-256 digest of `data`, which depends on
/// the bytes alone and has 32 bytes.
#[verifier::external_body]
pub(crate) fn sha256_digest(data: &[u8]) -> (digest: Vec<u8>)
    ensures
        digest@ == sha256(data@),
        digest@.len() == DIGEST_BYTES,
{
    <sha2::Sha256 as sha2::Digest>::digest(data).to_vec()
}

/// `base16::encode_lower`: each byte as two lower-case hexadecimal digits,
/// the high one first.
#[verifier::external_body]
pub(crate) fn encode_lower(bytes: &[u8]) -> (text: String)
    ensures
        text@ == hex_lower(bytes@),
{
    base16::encode_lower(bytes)
}

/// `SeedableRng::from_entropy` of `rand::rngs::StdRng`: a generator seeded
/// by the operating system. Panics where the operating system gives no
/// entropy.
#[verifier::external_body]
pub(crate) fn seeded_rng() -> rand::rngs::StdRng {
    <rand::rngs::StdRng as rand::SeedableRng>::from_entropy()
}

/// `Rng::sample` with `rand::distributions::Alphanumeric`: one character
/// drawn from the ASCII letters and digits.
#[verifier::external_body]
fn sample_alphanumeric(rng: &mut rand::rngs::StdRng) -> (c: char)
    ensures
        is_ascii_alphanumeric(c),
{
    char::from(rand::Rng::sample(rng, rand::distributions::Alphanumeric))
}

/// `Rng::fill` on `length` bytes.
#[verifier::external_body]
pub(crate) fn random_bytes(rng: &mut rand::rngs::StdRng, length: usize) -> (bytes: Vec<u8>)
    ensures
        bytes@.len() == length,
{
    let mut bytes = vec![0u8; length];
    rand::Rng::fill(rng, &mut bytes[..]);
    bytes
}

/// Appends the bytes of `src` to `out`.
pub fn push_bytes(out: &mut Vec<u8>, src: &[u8])
    ensures
        final(out)@ == old(out)@ + src@,
{
    let mut i: usize = 0;
    while i < src.len()
        invariant
            0 <= i <= src.len(),
            out@ == old(out)@ + src@.take(i as int),
        decreases src.len() - i,
    {
        out.push(src[i]);
        assert(src@.take(i + 1) == src@.take(i as int).push(src@[i as int]));
        i += 1;
    }
    assert(src@.take(src.len() as int) == src@);
}

/// Generates a random sequence of characters with a given generator.
///
/// Each character is an ASCII letter or digit, so each character carries
/// almost 6 bits of entropy.
pub fn generate_salt_with(length: usize, rng: &mut rand::rngs::StdRng) -> (salt: String)
    ensures
        salt@.len() == length,
        forall|i: int| 0 <= i < salt@.len() ==> is_ascii_alphanumeric(#[trigger] salt@[i]),
{
    let mut salt = String::new();
    let mut i: usize = 0;
    while i < length
        invariant
            0 <= i <= length,
            salt@.len() == i,
            forall|k: int| 0 <= k < salt@.len() ==> is_ascii_alphanumeric(#[trigger] salt@[k]),
        decreases length - i,
    {
        let c = sample_alphanumeric(rng);
        salt.push(c);
        i += 1;
    }
    salt
}

/// Generates a random sequence of characters, with a generator seeded by
/// the operating system.
pub fn generate_salt(length: usize) -> (salt: String)
    ensures
        salt@.len() == length,
        forall|i: int| 0 <= i < salt@.len() ==> is_ascii_alphanumeric(#[trigger] salt@[i]),
{
    let mut rng = seeded_rng();
    generate_salt_with(length, &mut rng)
}

/// The length of a hash: two characters for each byte of its digest.
pub const HASH_LENGTH: usize = 64;

/// Hashes a password with a given salt and returns a 64-character hash.
pub fn hash_password(password: &str, salt: &str) -> (r: String)
    ensures
        r@ == hex_lower(sha256(encode_utf8(password@) + encode_utf8(salt@))),
        r@.len() == HASH_LENGTH,
{
    let mut data: Vec<u8> = Vec::new();
    push_bytes(&mut data, password.as_bytes());
    push_bytes(&mut data, salt.as_bytes());
    let digest = sha256_digest(data.as_slice());
    proof {
        lemma_hex_lower_len(digest@);
    }
    encode_lower(digest.as_slice())
}

/// Hashes a string and returns a 64-character hash.
pub fn hash(password: &str) -> (r: String)
    ensures
        r@ == hex_lower(sha256(encode_utf8(password@))),
        r@.len() == HASH_LENGTH,
{
    let digest = sha256_digest(password.as_bytes());
    proof {
        lemma_hex_lower_len(digest@);
    }
    encode_lower(digest.as_slice())
}

} // verus!
