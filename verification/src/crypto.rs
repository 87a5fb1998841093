//! Hashing and encoding, done by the `argon2`, `sha2`, `hex`, `base64` and
//! `rand` crates.

use crate::number::digit_char;
use argon2::password_hash::{PasswordHash, PasswordHasher, PasswordVerifier, SaltString};
use argon2::Argon2;
use base64::engine::general_purpose::STANDARD;
use base64::Engine;
use sha2::{Digest, Sha256};
use vstd::prelude::*;
use vstd::utf8::{decode_utf8, valid_utf8};

verus! {

/// The most bytes that are handed to the Base64 encoder.
pub const MAX_ENCODED_BYTES: usize = 0x3fff_ffff;

/// The characters of both sides of a result.
pub open spec fn text_result(r: Result<String, String>) -> Result<Seq<char>, Seq<char>> {
    match r {
        Ok(s) => Ok(s@),
        Err(e) => Err(e@),
    }
}

/// The lower-case hexadecimal digit of a value below 16.
pub open spec fn hex_digit(n: nat) -> char {
    if n < 10 {
        digit_char(n)
    } else {
        ((n - 10) + 'a' as u32) as char
    }
}

/// Two lower-case hexadecimal digits for each byte.
pub open spec fn hex_lower(bytes: Seq<u8>) -> Seq<char>
    decreases bytes.len(),
{
    if bytes.len() == 0 {
        Seq::empty()
    } else {
        hex_lower(bytes.drop_last()) + seq![
            hex_digit(bytes.last() as nat / 16),
            hex_digit(bytes.last() as nat % 16),
        ]
    }
}

/// The SHA-256 digest of bytes.
pub uninterp spec fn sha256_spec(data: Seq<u8>) -> Seq<u8>;

/// The standard Base64 text of bytes, with padding.
pub uninterp spec fn base64_text(data: Seq<u8>) -> Seq<char>;

/// The bytes that a standard Base64 text stands for, if it is one.
pub uninterp spec fn base64_bytes(text: Seq<char>) -> Option<Seq<u8>>;

/// The B64 text of a salt, or why the salt cannot be encoded.
pub uninterp spec fn salt_text(salt: Seq<u8>) -> Result<Seq<char>, Seq<char>>;

/// The Argon2 password hash string of a password under a salt, with the
/// default parameters, or why it cannot be computed.
pub uninterp spec fn argon2_hash_spec(password: Seq<u8>, salt: Seq<char>) -> Result<
    Seq<char>,
    Seq<char>,
>;

/// Whether a password matches a password hash string, or why the string
/// cannot be read.
pub uninterp spec fn password_check_spec(password: Seq<u8>, hash: Seq<char>) -> Result<
    bool,
    Seq<char>,
>;

/// Draws 16 random bytes with `rand::random`. The value is random; the
/// contract states its length.
#[verifier::external_body]
pub(crate) fn random_salt() -> (salt: Vec<u8>)
    ensures
        salt@.len() == 16,
{
    rand::random::<[u8; 16]>().to_vec()
}

/// Encodes a salt with `SaltString::encode_b64`; an error comes back as its
/// text. The contract only names the result.
#[verifier::external_body]
pub(crate) fn encode_salt(salt: &[u8]) -> (r: Result<String, String>)
    ensures
        text_result(r) == salt_text(salt@),
{
    match SaltString::encode_b64(salt) {
        Ok(s) => Ok(s.as_str().to_string()),
        Err(e) => Err(e.to_string()),
    }
}

/// Hashes a password with `Argon2::default().hash_password` under a salt
/// given in B64; an error comes back as its text. The contract only names the
/// result.
#[verifier::external_body]
pub(crate) fn argon2_hash(password: &[u8], salt: &str) -> (r: Result<String, String>)
    ensures
        text_result(r) == argon2_hash_spec(password@, salt@),
{
    let salt = SaltString::from_b64(salt).map_err(|e| e.to_string())?;
    match Argon2::default().hash_password(password, &salt) {
        Ok(h) => Ok(h.to_string()),
        Err(e) => Err(e.to_string()),
    }
}

/// Reads a password hash string with `PasswordHash::new` and checks a
/// password against it with `Argon2::default().verify_password`; a string
/// that cannot be read comes back as the error's text. The contract only
/// names the result.
#[verifier::external_body]
pub(crate) fn password_check(password: &[u8], hash: &str) -> (r: Result<bool, String>)
    ensures
        match r {
            Ok(b) => password_check_spec(password@, hash@) == Ok::<bool, Seq<char>>(b),
            Err(e) => password_check_spec(password@, hash@) == Err::<bool, Seq<char>>(e@),
        },
{
    match PasswordHash::new(hash) {
        Ok(parsed) => Ok(Argon2::default().verify_password(password, &parsed).is_ok()),
        Err(e) => Err(e.to_string()),
    }
}

/// Computes the SHA-256 digest with `Sha256::digest`. The contract
/// only names the result.
#[verifier::external_body]
pub(crate) fn sha256(data: &[u8]) -> (digest: Vec<u8>)
    ensures
        digest@ == sha256_spec(data@),
{
    Sha256::digest(data).to_vec()
}

/// Encodes bytes with `hex::encode`: two lower-case hexadecimal digits for
/// each byte, in order.
#[verifier::external_body]
pub(crate) fn hex_encode(data: &[u8]) -> (text: String)
    ensures
        text@ == hex_lower(data@),
{
    hex::encode(data)
}

/// Encodes bytes with the `STANDARD` engine of `base64`. The contract only
/// names the result. The encoder gives up on inputs whose encoded length does
/// not fit the machine word, so the input is bounded.
#[verifier::external_body]
pub(crate) fn base64_encode(data: &[u8]) -> (text: String)
    requires
        data@.len() <= MAX_ENCODED_BYTES,
    ensures
        text@ == base64_text(data@),
{
    STANDARD.encode(data)
}

/// Decodes a text with the `STANDARD` engine of `base64`; `None` where it is
/// no Base64. The contract only names the result.
#[verifier::external_body]
pub(crate) fn base64_decode(text: &str) -> (data: Option<Vec<u8>>)
    ensures
        match data {
            Some(d) => base64_bytes(text@) == Some(d@),
            None => base64_bytes(text@).is_none(),
        },
{
    STANDARD.decode(text).ok()
}

/// Reads bytes as text with `String::from_utf8`: the text that they encode,
/// and `None` where they are not valid UTF-8.
#[verifier::external_body]
pub(crate) fn utf8_text(bytes: Vec<u8>) -> (text: Option<String>)
    ensures
        match text {
            Some(s) => valid_utf8(bytes@) && s@ == decode_utf8(bytes@),
            None => !valid_utf8(bytes@),
        },
{
    String::from_utf8(bytes).ok()
}

} // verus!
