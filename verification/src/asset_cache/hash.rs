//! The two names of an asset: the hash of its content, and a random id.

use vstd::prelude::*;
use crate::text::push_char;

verus! {

/// The SHA-256 digest of `data`.
pub uninterp spec fn sha256_digest(data: Seq<u8>) -> Seq<u8>;

/// `Sha256::digest` of the crate sha2: the SHA-256 digest of the data, which
/// has 32 bytes.
#[verifier::external_body]
fn sha256_bytes(data: &[u8]) -> (digest: Vec<u8>)
    ensures
        digest@ == sha256_digest(data@),
        digest@.len() == 32,
{
    <sha2::Sha256 as sha2::Digest>::digest(data).to_vec()
}

/// The lower-case hexadecimal digit of a number below 16.
pub open spec fn hex_digit(n: u8) -> char {
    if n < 10 {
        (n + 48) as char
    } else {
        (n + 87) as char
    }
}

/// The lower-case hexadecimal form of `bytes`: two digits for each byte, the
/// high one first.
pub open spec fn hex(bytes: Seq<u8>) -> Seq<char> {
    Seq::new(
        2 * bytes.len(),
        |i: int|
            if i % 2 == 0 {
                hex_digit(bytes[i / 2] / 16)
            } else {
                hex_digit(bytes[i / 2] % 16)
            },
    )
}

/// The content hash of `data`: its SHA-256 digest in lower-case hexadecimal.
pub open spec fn content_hash(data: Seq<u8>) -> Seq<char> {
    hex(sha256_digest(data))
}

/// A content hash is made of lower-case hexadecimal digits.
pub open spec fn is_hex_char(c: char) -> bool {
    ('0' <= c && c <= '9') || ('a' <= c && c <= 'f')
}

/// The lower-case hexadecimal digit of a number below 16.
fn hex_digit_of(n: u8) -> (c: char)
    requires
        n < 16,
    ensures
        c == hex_digit(n),
        is_hex_char(c),
{
    if n < 10 {
        (n + 48) as char
    } else {
        (n + 87) as char
    }
}

/// The lower-case hexadecimal form of `bytes`.
pub fn to_hex(bytes: &[u8]) -> (text: String)
    ensures
        text@ == hex(bytes@),
        forall|i: int| 0 <= i < text@.len() ==> is_hex_char(#[trigger] text@[i]),
{
    let mut text = String::new();
    let mut i: usize = 0;
    while i < bytes.len()
        invariant
            i <= bytes.len(),
            text@ == hex(bytes@.subrange(0, i as int)),
            forall|k: int| 0 <= k < text@.len() ==> is_hex_char(#[trigger] text@[k]),
        decreases bytes.len() - i,
    {
        let b: u8 = bytes[i];
        let ghost before = text@;
        push_char(&mut text, hex_digit_of(b / 16));
        push_char(&mut text, hex_digit_of(b % 16));
        assert(text@ =~= hex(bytes@.subrange(0, i + 1))) by {
            assert(before.len() == 2 * i);
            assert forall|k: int| 0 <= k < 2 * (i + 1) implies text@[k] == hex(
                bytes@.subrange(0, i + 1),
            )[k] by {
                if k < 2 * i {
                    assert(text@[k] == before[k]);
                    assert(bytes@.subrange(0, i as int)[k / 2] == bytes@.subrange(0, i + 1)[k / 2]);
                }
            }
        }
        i += 1;
    }
    assert(bytes@.subrange(0, i as int) =~= bytes@);
    text
}

/// The content hash of `data`: its SHA-256 digest in lower-case hexadecimal,
/// 64 characters.
pub fn sha256(data: &[u8]) -> (hash: String)
    ensures
        hash@ == content_hash(data@),
        hash@.len() == 64,
        forall|i: int| 0 <= i < hash@.len() ==> is_hex_char(#[trigger] hash@[i]),
{
    let digest = sha256_bytes(data);
    to_hex(digest.as_slice())
}

/// The thread-local generator of the crate rand (`thread_rng`), filling a
/// buffer of `count` bytes (`fill_bytes`). Nothing is claimed of the bytes
/// but how many they are: they are random.
#[verifier::external_body]
fn random_bytes(count: usize) -> (bytes: Vec<u8>)
    ensures
        bytes@.len() == count,
{
    let mut bytes = vec![0u8; count];
    rand::RngCore::fill_bytes(&mut rand::thread_rng(), bytes.as_mut_slice());
    bytes
}

/// The base64 form of `bytes` in the URL-safe alphabet, without padding.
pub uninterp spec fn base64url(bytes: Seq<u8>) -> Seq<char>;

/// A character of the URL-safe base64 alphabet.
pub open spec fn is_base64url_char(c: char) -> bool {
    ('A' <= c && c <= 'Z') || ('a' <= c && c <= 'z') || ('0' <= c && c <= '9') || c == '-' || c
        == '_'
}

/// The number of characters that stand for `n` bytes in base64 without
/// padding: four for every three bytes, two for one byte left over and three
/// for two.
pub open spec fn base64_len(n: nat) -> nat {
    (n / 3) * 4 + if n % 3 == 0 {
        0nat
    } else if n % 3 == 1 {
        2nat
    } else {
        3nat
    }
}

/// `Engine::encode` of the crate base64 with its engine `URL_SAFE_NO_PAD`:
/// the base64 form of the bytes, made of characters of the URL-safe alphabet
/// alone, without padding. The call fails where the length of the result
/// does not fit in `usize`, so long inputs are left out.
#[verifier::external_body]
fn base64url_encode(bytes: &[u8]) -> (text: String)
    requires
        bytes@.len() <= 0x1000_0000,
    ensures
        text@ == base64url(bytes@),
        text@.len() == base64_len(bytes@.len()),
        forall|i: int| 0 <= i < text@.len() ==> is_base64url_char(#[trigger] text@[i]),
{
    base64::Engine::encode(&base64::engine::general_purpose::URL_SAFE_NO_PAD, bytes)
}

/// The length of a random id.
pub const RANDOM_ID_LEN: usize = 43;

/// A random id: 43 characters of the URL-safe base64 alphabet, which stand
/// for 256 bits.
pub open spec fn is_random_id(id: Seq<char>) -> bool {
    &&& id.len() == RANDOM_ID_LEN
    &&& forall|i: int| 0 <= i < id.len() ==> is_base64url_char(#[trigger] id[i])
}

/// The number of random bytes that a random id stands for.
pub const RANDOM_ID_BYTES: usize = 32;

/// The id is the URL-safe base64 form of some 32 bytes.
pub open spec fn stands_for_bytes(id: Seq<char>) -> bool {
    exists|bytes: Seq<u8>| bytes.len() == RANDOM_ID_BYTES && id == #[trigger] base64url(bytes)
}

/// A new random id: 32 random bytes in URL-safe base64 without padding.
pub fn generate_random_id() -> (id: String)
    ensures
        is_random_id(id@),
        stands_for_bytes(id@),
{
    let bytes = random_bytes(RANDOM_ID_BYTES);
    base64url_encode(bytes.as_slice())
}

} // verus!
