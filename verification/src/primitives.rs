//! Calls into outside crates and into std formatting, each behind a trusted
//! wrapper whose contract says what the called function returns.

use vstd::prelude::*;
use base64::Engine;
use rand::Rng;
use rand::seq::SliceRandom;
use rand_chacha::rand_core::{RngCore, SeedableRng};
use ed25519_dalek::{Signer, Verifier};

verus! {

/// SHA-256 digest of `data`.
pub uninterp spec fn sha256(data: Seq<u8>) -> Seq<u8>;

/// `base64`'s URL-safe alphabet without padding, encoding `data`.
pub uninterp spec fn base64_url_nopad_encoded(data: Seq<u8>) -> Seq<char>;

/// `base64`'s standard alphabet with padding, decoding `text` (`None` when
/// the text is not valid in that encoding).
pub uninterp spec fn base64_standard_decoded(text: Seq<u8>) -> Option<Seq<u8>>;

/// `base64`'s URL-safe alphabet without padding, decoding `text`.
pub uninterp spec fn base64_url_nopad_decoded(text: Seq<u8>) -> Option<Seq<u8>>;

/// The first 32 bytes of the ChaCha20 stream seeded with `seed`.
pub uninterp spec fn chacha20_first_32(seed: Seq<u8>) -> Seq<u8>;

/// The Ed25519 public key of the 32-byte secret key `secret`.
pub uninterp spec fn ed25519_public_key(secret: Seq<u8>) -> Seq<u8>;

/// The Ed25519 signature of `message` under the 32-byte secret key `secret`.
pub uninterp spec fn ed25519_signature(secret: Seq<u8>, message: Seq<u8>) -> Seq<u8>;

/// Whether `signature` is a valid Ed25519 signature of `message` under the
/// public key belonging to the secret key `secret`.
pub uninterp spec fn ed25519_verifies_under_secret(
    secret: Seq<u8>,
    message: Seq<u8>,
    signature: Seq<u8>,
) -> bool;

/// Whether the 32 bytes `key` decode to an Ed25519 public key.
pub uninterp spec fn ed25519_key_decodes(key: Seq<u8>) -> bool;

/// Whether `key` decodes to an Ed25519 public key under which `signature`
/// is a valid signature of `message`.
pub uninterp spec fn ed25519_verifies_under_key(
    key: Seq<u8>,
    message: Seq<u8>,
    signature: Seq<u8>,
) -> bool;

/// Whether `ring` accepts `signature` as an Ed25519 signature of `message`
/// under the unparsed public key `key`.
pub uninterp spec fn ring_ed25519_accepts(key: Seq<u8>, message: Seq<u8>, signature: Seq<u8>) -> bool;

/// The hexadecimal digit of `d` (below 16), in lower case.
pub open spec fn hex_digit(d: int) -> char {
    if d < 10 {
        (d + 48) as char
    } else {
        (d + 87) as char
    }
}

/// How `serde_json` writes the character `c` inside a JSON string: `"` and
/// `\` behind a backslash, backspace, tab, line feed, form feed and
/// carriage return by their short escapes, the other control characters
/// below 0x20 as `\u00` and two lower-case hex digits, and every other
/// character as it is.
pub open spec fn json_char_escape(c: char) -> Seq<char> {
    if c == '"' {
        seq!['\\', '"']
    } else if c == '\\' {
        seq!['\\', '\\']
    } else if c == '\u{8}' {
        seq!['\\', 'b']
    } else if c == '\t' {
        seq!['\\', 't']
    } else if c == '\n' {
        seq!['\\', 'n']
    } else if c == '\u{c}' {
        seq!['\\', 'f']
    } else if c == '\r' {
        seq!['\\', 'r']
    } else if (c as u32) < 0x20 {
        seq!['\\', 'u', '0', '0', hex_digit(((c as u32) / 16) as int), hex_digit(((c as u32) % 16) as int)]
    } else {
        seq![c]
    }
}

/// The characters of `s`, each written as `json_char_escape` says.
pub open spec fn json_escaped(s: Seq<char>) -> Seq<char>
    decreases s.len(),
{
    if s.len() == 0 {
        Seq::empty()
    } else {
        json_escaped(s.drop_last()) + json_char_escape(s.last())
    }
}

/// `serde_json`'s text for the JSON string holding `s`: the escaped
/// characters between double quotes.
pub open spec fn json_string_text(s: Seq<char>) -> Seq<char> {
    seq!['"'] + json_escaped(s) + seq!['"']
}

/// std's `Debug` text of the string `s` (quoted and escaped).
pub uninterp spec fn str_debug_text(s: Seq<char>) -> Seq<char>;

/// The decimal digits of `n`, without leading zeros.
pub open spec fn decimal_text(n: nat) -> Seq<char>
    decreases n,
{
    if n < 10 {
        seq![(n + 48) as char]
    } else {
        decimal_text(n / 10) + seq![((n % 10) + 48) as char]
    }
}

/// The bytes of `b` in decimal, separated by `, `.
pub open spec fn decimal_list(b: Seq<u8>) -> Seq<char>
    decreases b.len(),
{
    if b.len() == 0 {
        Seq::empty()
    } else if b.len() == 1 {
        decimal_text(b[0] as nat)
    } else {
        decimal_list(b.drop_last()) + seq![',', ' '] + decimal_text(b.last() as nat)
    }
}

/// std's `Debug` text of the byte list `b`: its bytes in decimal,
/// separated by `, `, between square brackets.
pub open spec fn bytes_debug_text(b: Seq<u8>) -> Seq<char> {
    seq!['['] + decimal_list(b) + seq![']']
}

/// Whether `c` is an ASCII letter or digit.
pub open spec fn is_ascii_alphanumeric(c: char) -> bool {
    ('a' <= c && c <= 'z') || ('A' <= c && c <= 'Z') || ('0' <= c && c <= '9')
}

/// `ring::digest::digest` with `SHA256`; its output is 32 bytes long.
#[verifier::external_body]
pub(crate) fn sha256_digest(data: &[u8]) -> (r: Vec<u8>)
    ensures
        r@ == sha256(data@),
        r@.len() == 32,
{
    ring::digest::digest(&ring::digest::SHA256, data).as_ref().to_vec()
}

/// `base64::engine::general_purpose::URL_SAFE_NO_PAD.encode`.
#[verifier::external_body]
pub(crate) fn base64_url_nopad_encode(data: &[u8]) -> (r: String)
    ensures
        r@ == base64_url_nopad_encoded(data@),
{
    base64::engine::general_purpose::URL_SAFE_NO_PAD.encode(data)
}

/// `base64::engine::general_purpose::STANDARD.decode`; `None` stands for its error.
#[verifier::external_body]
pub(crate) fn base64_standard_decode(text: &[u8]) -> (r: Option<Vec<u8>>)
    ensures
        match r {
            Some(v) => base64_standard_decoded(text@) == Some(v@),
            None => base64_standard_decoded(text@) is None,
        },
{
    base64::engine::general_purpose::STANDARD.decode(text).ok()
}

/// `base64::engine::general_purpose::URL_SAFE_NO_PAD.decode`; `None` stands for its error.
#[verifier::external_body]
pub(crate) fn base64_url_nopad_decode(text: &[u8]) -> (r: Option<Vec<u8>>)
    ensures
        match r {
            Some(v) => base64_url_nopad_decoded(text@) == Some(v@),
            None => base64_url_nopad_decoded(text@) is None,
        },
{
    base64::engine::general_purpose::URL_SAFE_NO_PAD.decode(text).ok()
}

/// `rand_chacha::ChaCha20Rng::from_seed(seed)` followed by `fill_bytes` on 32 bytes.
#[verifier::external_body]
pub(crate) fn chacha20_fill_32(seed: [u8; 32]) -> (r: [u8; 32])
    ensures
        r@ == chacha20_first_32(seed@),
{
    let mut out: [u8; 32] = [0; 32];
    rand_chacha::ChaCha20Rng::from_seed(seed).fill_bytes(&mut out);
    out
}

/// `ed25519_dalek::SigningKey::from_bytes(secret).verifying_key().to_bytes()`.
/// As the crate's documentation on serialisation shows, these bytes decode
/// back to the same verifying key.
#[verifier::external_body]
pub(crate) fn ed25519_public_key_of(secret: &[u8; 32]) -> (r: [u8; 32])
    ensures
        r@ == ed25519_public_key(secret@),
        ed25519_key_decodes(r@),
{
    ed25519_dalek::SigningKey::from_bytes(secret).verifying_key().to_bytes()
}

/// `Signer::sign` of `ed25519_dalek::SigningKey::from_bytes(secret)`, as bytes.
/// As the crate's documentation shows, the signature verifies under the
/// signing key's own verifying key, and under that key's bytes decoded again.
#[verifier::external_body]
pub(crate) fn ed25519_sign(secret: &[u8; 32], message: &[u8]) -> (r: [u8; 64])
    ensures
        r@ == ed25519_signature(secret@, message@),
        ed25519_verifies_under_secret(secret@, message@, r@),
        ed25519_verifies_under_key(ed25519_public_key(secret@), message@, r@),
{
    ed25519_dalek::SigningKey::from_bytes(secret).sign(message).to_bytes()
}

/// `Verifier::verify` of the verifying key of `SigningKey::from_bytes(secret)`
/// on `Signature::from_bytes(signature)`; `true` when it returns `Ok`. The
/// crate's documentation shows that this key, written out as bytes and
/// decoded again, is the same key, so it answers as the decoded one does.
#[verifier::external_body]
pub(crate) fn ed25519_verify_under_secret(secret: &[u8; 32], message: &[u8], signature: &[u8; 64]) -> (r: bool)
    ensures
        r == ed25519_verifies_under_secret(secret@, message@, signature@),
        r == ed25519_verifies_under_key(ed25519_public_key(secret@), message@, signature@),
{
    ed25519_dalek::SigningKey::from_bytes(secret)
        .verifying_key()
        .verify(message, &ed25519_dalek::Signature::from_bytes(signature))
        .is_ok()
}

/// Whether `ed25519_dalek::VerifyingKey::from_bytes(key)` returns `Ok`.
#[verifier::external_body]
pub(crate) fn ed25519_key_is_valid(key: &[u8; 32]) -> (r: bool)
    ensures
        r == ed25519_key_decodes(key@),
{
    ed25519_dalek::VerifyingKey::from_bytes(key).is_ok()
}

/// `Verifier::verify` of `ed25519_dalek::VerifyingKey::from_bytes(key)` on
/// `Signature::from_bytes(signature)`; `false` when the key does not decode.
#[verifier::external_body]
pub(crate) fn ed25519_verify_under_key(key: &[u8; 32], message: &[u8], signature: &[u8; 64]) -> (r: bool)
    ensures
        r == ed25519_verifies_under_key(key@, message@, signature@),
        r ==> ed25519_key_decodes(key@),
{
    match ed25519_dalek::VerifyingKey::from_bytes(key) {
        Ok(k) => k.verify(message, &ed25519_dalek::Signature::from_bytes(signature)).is_ok(),
        Err(_) => false,
    }
}

/// `ring::signature::UnparsedPublicKey::new(&ED25519, key).verify(message, signature)`;
/// `true` when it returns `Ok`.
#[verifier::external_body]
pub(crate) fn ring_ed25519_verify(key: &[u8], message: &[u8], signature: &[u8]) -> (r: bool)
    ensures
        r == ring_ed25519_accepts(key@, message@, signature@),
{
    ring::signature::UnparsedPublicKey::new(&ring::signature::ED25519, key)
        .verify(message, signature)
        .is_ok()
}

/// `serde_json::to_string` of a string; for a `&str` it cannot fail.
#[verifier::external_body]
pub(crate) fn json_string(s: &str) -> (r: String)
    ensures
        r@ == json_string_text(s@),
{
    serde_json::to_string(s).unwrap()
}

/// `format!("{:?}", s)` for a string.
#[verifier::external_body]
pub(crate) fn debug_str(s: &str) -> (r: String)
    ensures
        r@ == str_debug_text(s@),
{
    format!("{:?}", s)
}

/// `format!("{:?}", b)` for a byte list.
#[verifier::external_body]
pub(crate) fn debug_bytes(b: &[u8]) -> (r: String)
    ensures
        r@ == bytes_debug_text(b@),
{
    format!("{:?}", b)
}

/// `getrandom::getrandom` filling 32 bytes; `None` stands for its error.
/// The bytes are random: nothing is promised of them.
#[verifier::external_body]
pub(crate) fn random_seed() -> (r: Option<[u8; 32]>)
{
    let mut seed: [u8; 32] = [0; 32];
    match getrandom::getrandom(&mut seed) {
        Ok(()) => Some(seed),
        Err(_) => None,
    }
}

/// Eight characters drawn from `rand::distributions::Alphanumeric` with
/// `thread_rng`; the crate documents them as ASCII letters and digits.
#[verifier::external_body]
pub(crate) fn random_alphanumeric_8() -> (r: String)
    ensures
        r@.len() == 8,
        forall|i: int| 0 <= i < 8 ==> is_ascii_alphanumeric(#[trigger] r@[i]),
{
    rand::thread_rng().sample_iter(&rand::distributions::Alphanumeric).take(8).map(char::from).collect()
}

/// `SliceRandom::choose_multiple` with `thread_rng` over the indices `0..n`:
/// `min(amount, n)` distinct indices, in random order.
#[verifier::external_body]
pub(crate) fn choose_indices(n: usize, amount: usize) -> (r: Vec<usize>)
    ensures
        r@.len() == if amount < n { amount } else { n },
        forall|i: int| 0 <= i < r@.len() ==> #[trigger] r@[i] < n,
        forall|i: int, j: int| 0 <= i < j < r@.len() ==> r@[i] != r@[j],
{
    let all: Vec<usize> = (0..n).collect();
    all.choose_multiple(&mut rand::thread_rng(), amount).cloned().collect()
}

} // verus!
