//! The cryptography and the encodings that device pairing rests on. Each
//! function hands its arguments to the crate that does the work.
use vstd::prelude::*;

use base64::Engine;
use ed25519_dalek::Signer;
use sha2::Digest;

verus! {

/// The Ed25519 public key of a 32-byte signing seed.
pub uninterp spec fn ed25519_public(seed: Seq<u8>) -> Seq<u8>;

/// The Ed25519 signature of a message under a signing seed.
pub uninterp spec fn ed25519_signature(seed: Seq<u8>, message: Seq<u8>) -> Seq<u8>;

/// The SHA-256 digest of some bytes.
pub uninterp spec fn sha256_digest(data: Seq<u8>) -> Seq<u8>;

/// The base64 text of some bytes, in the URL-safe alphabet and without padding.
pub uninterp spec fn base64url(data: Seq<u8>) -> Seq<char>;

/// What decoding a URL-safe, unpadded base64 text gives: the bytes, or the
/// text of the error.
pub uninterp spec fn base64url_decoded(text: Seq<char>) -> Result<Seq<u8>, Seq<char>>;

/// The lowercase hex digit of `n`, for `n < 16`.
pub open spec fn hex_digit(n: int) -> char {
    if n < 10 {
        (48 + n) as char
    } else {
        (87 + n) as char
    }
}

/// Two lowercase hex digits per byte, the high one first.
pub open spec fn hex_text(data: Seq<u8>) -> Seq<char> {
    Seq::new(
        2 * data.len(),
        |i: int|
            if i % 2 == 0 {
                hex_digit(data[i / 2] as int / 16)
            } else {
                hex_digit(data[i / 2] as int % 16)
            },
    )
}

/// How many characters `n` bytes take in base64 without padding.
pub open spec fn base64_len(n: nat) -> nat {
    n / 3 * 4 + (if n % 3 == 0 {
        0nat
    } else if n % 3 == 1 {
        2nat
    } else {
        3nat
    })
}

/// Whether `c` is in the URL-safe base64 alphabet.
pub open spec fn is_base64url_char(c: char) -> bool {
    ||| 'A' <= c <= 'Z'
    ||| 'a' <= c <= 'z'
    ||| '0' <= c <= '9'
    ||| c == '-'
    ||| c == '_'
}

/// The textual form of a version 4 UUID: lowercase hex digits in groups of 8,
/// 4, 4, 4 and 12, with hyphens between, the version digit first in the third
/// group.
pub open spec fn is_uuid_v4_text(s: Seq<char>) -> bool {
    &&& s.len() == 36
    &&& s[14] == '4'
    &&& forall|i: int|
        0 <= i < 36 ==> if i == 8 || i == 13 || i == 18 || i == 23 {
            #[trigger] s[i] == '-'
        } else {
            '0' <= s[i] <= '9' || 'a' <= s[i] <= 'f'
        }
}

/// `ed25519_dalek::SigningKey::from_bytes(seed).verifying_key()`: the public
/// key is a function of the seed, and every seed has one.
#[verifier::external_body]
pub(crate) fn public_key(seed: &[u8; 32]) -> (r: [u8; 32])
    ensures
        r@ == ed25519_public(seed@),
{
    ed25519_dalek::SigningKey::from_bytes(seed).verifying_key().to_bytes()
}

/// `ed25519_dalek::SigningKey::sign`: the 64-byte signature is a function of
/// the seed and the message.
#[verifier::external_body]
pub(crate) fn sign(seed: &[u8; 32], message: &[u8]) -> (r: [u8; 64])
    ensures
        r@ == ed25519_signature(seed@, message@),
{
    ed25519_dalek::SigningKey::from_bytes(seed).sign(message).to_bytes()
}

/// `ed25519_dalek::SigningKey::generate` on the system's random source. The
/// seed is chosen at random: nothing is said of it. It panics when the system
/// has no random bytes to give.
#[verifier::external_body]
pub(crate) fn generate_seed() -> [u8; 32] {
    ed25519_dalek::SigningKey::generate(&mut rand::rngs::OsRng).to_bytes()
}

/// `sha2::Sha256::digest`: the digest is a function of the data and has 32
/// bytes.
#[verifier::external_body]
pub(crate) fn sha256(data: &[u8]) -> (r: [u8; 32])
    ensures
        r@ == sha256_digest(data@),
{
    sha2::Sha256::digest(data).into()
}

/// `hex::encode`: two lowercase hex digits per byte.
#[verifier::external_body]
pub(crate) fn hex_encode(data: &[u8]) -> (r: String)
    ensures
        r@ == hex_text(data@),
{
    hex::encode(data)
}

/// `base64`'s URL-safe engine without padding, encoding. Its text is a
/// function of the bytes, has four characters for three bytes (two for a last
/// one, three for the last two), holds characters of the URL-safe alphabet
/// alone, and decodes to the same bytes.
#[verifier::external_body]
pub(crate) fn base64url_encode(data: &[u8]) -> (r: String)
    ensures
        r@ == base64url(data@),
        r@.len() == base64_len(data@.len()),
        forall|i: int| 0 <= i < r@.len() ==> is_base64url_char(#[trigger] r@[i]),
        base64url_decoded(r@) is Ok && base64url_decoded(r@)->Ok_0 == data@,
{
    base64::engine::general_purpose::URL_SAFE_NO_PAD.encode(data)
}

/// `base64`'s URL-safe engine without padding, decoding. The result is a
/// function of the text: the bytes, or the text of the error.
#[verifier::external_body]
pub(crate) fn base64url_decode(text: &str) -> (r: Result<Vec<u8>, String>)
    ensures
        match r {
            Ok(bytes) => base64url_decoded(text@) == Ok::<Seq<u8>, Seq<char>>(bytes@),
            Err(e) => base64url_decoded(text@) == Err::<Seq<u8>, Seq<char>>(e@),
        },
{
    base64::engine::general_purpose::URL_SAFE_NO_PAD.decode(text).map_err(|e| e.to_string())
}

/// `uuid::Uuid::new_v4`, printed. Which one comes out is left to chance; it
/// always has the form of a version 4 UUID. It panics when the system has no
/// random bytes to give.
#[verifier::external_body]
pub(crate) fn new_uuid() -> (r: String)
    ensures
        is_uuid_v4_text(r@),
{
    uuid::Uuid::new_v4().to_string()
}

} // verus!
