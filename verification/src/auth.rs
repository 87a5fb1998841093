//! Passwords and session tokens.
//!
//! A token is the Base64 text of `user_id:time:signature`, where the
//! signature is a keyed hash of `user_id:time`.

use crate::crypto::{
    argon2_hash, argon2_hash_spec, base64_bytes, base64_decode, base64_encode, base64_text,
    encode_salt, hex_encode, hex_lower, password_check, password_check_spec, random_salt,
    salt_text, sha256, sha256_spec, text_result, utf8_text, MAX_ENCODED_BYTES,
};
use crate::download::signed_decimal;
use crate::error::{AppError, AppErrorView};
use crate::models::{LoginRequest, LoginResponse, User};
use crate::progress::opt_text;
use crate::text::{
    chars_of, has_prefix, push_all, rows_of, same_chars, splitn, splitn_spec, starts_with,
    text_of,
};
use vstd::prelude::*;
use vstd::utf8::{decode_utf8, encode_utf8, valid_utf8};

verus! {

/// What hashing a password under given salt bytes comes to: the hash
/// string, or the message of the step that failed.
pub open spec fn hash_with_salt_spec(password: Seq<char>, salt: Seq<u8>) -> Result<
    Seq<char>,
    Seq<char>,
> {
    match salt_text(salt) {
        Err(e) => Err("salt: "@ + e),
        Ok(encoded) => match argon2_hash_spec(encode_utf8(password), encoded) {
            Err(e) => Err("hash_password: "@ + e),
            Ok(hash) => Ok(hash),
        },
    }
}

fn prefixed(prefix: &str, message: &String) -> (s: String)
    ensures
        s@ == prefix@ + message@,
{
    let mut s = prefix.to_string();
    s.append(message.as_str());
    s
}

/// Hashes a password under the given salt bytes.
pub fn hash_with_salt(password: &str, salt: &[u8]) -> (r: Result<String, String>)
    ensures
        text_result(r) == hash_with_salt_spec(password@, salt@),
{
    match encode_salt(salt) {
        Err(e) => Err(prefixed("salt: ", &e)),
        Ok(encoded) => match argon2_hash(password.as_bytes(), encoded.as_str()) {
            Err(e) => Err(prefixed("hash_password: ", &e)),
            Ok(hash) => Ok(hash),
        },
    }
}

/// Hashes a password under a fresh random salt of 16 bytes.
pub fn hash_password(password: &str) -> (r: Result<String, String>)
    ensures
        exists|salt: Seq<u8>|
            salt.len() == 16 && text_result(r) == #[trigger] hash_with_salt_spec(password@, salt),
{
    let salt = random_salt();
    hash_with_salt(password, salt.as_slice())
}

/// Whether a password matches a stored hash, or why the hash cannot be read.
pub open spec fn verify_password_spec(password: Seq<char>, hash: Seq<char>) -> Result<
    bool,
    Seq<char>,
> {
    match password_check_spec(encode_utf8(password), hash) {
        Ok(b) => Ok(b),
        Err(e) => Err("parse hash: "@ + e),
    }
}

/// Checks a password against a stored hash.
pub fn verify_password(password: &str, hash: &str) -> (r: Result<bool, String>)
    ensures
        match r {
            Ok(b) => verify_password_spec(password@, hash@) == Ok::<bool, Seq<char>>(b),
            Err(e) => verify_password_spec(password@, hash@) == Err::<bool, Seq<char>>(e@),
        },
{
    match password_check(password.as_bytes(), hash) {
        Ok(b) => Ok(b),
        Err(e) => Err(prefixed("parse hash: ", &e)),
    }
}

/// The signature of `data` under `secret`: the SHA-256 digest of the secret,
/// a colon and the data, in hexadecimal.
pub open spec fn hmac_sha256_spec(secret: Seq<char>, data: Seq<char>) -> Seq<char> {
    hex_lower(sha256_spec(encode_utf8(secret) + seq![58u8] + encode_utf8(data)))
}

fn push_bytes(out: &mut Vec<u8>, more: &[u8])
    ensures
        final(out)@ == old(out)@ + more@,
{
    let mut i: usize = 0;
    while i < more.len()
        invariant
            i <= more.len(),
            out@ == old(out)@ + more@.take(i as int),
        decreases more.len() - i,
    {
        assert(more@.take(i + 1) =~= more@.take(i as int).push(more@[i as int]));
        out.push(more[i]);
        i += 1;
    }
    assert(more@.take(more.len() as int) =~= more@);
}

/// The signature of `data` under `secret`.
pub fn hmac_sha256(secret: &str, data: &str) -> (mac: String)
    ensures
        mac@ == hmac_sha256_spec(secret@, data@),
{
    let mut bytes: Vec<u8> = Vec::new();
    push_bytes(&mut bytes, secret.as_bytes());
    bytes.push(58u8);
    push_bytes(&mut bytes, data.as_bytes());
    assert(bytes@ =~= encode_utf8(secret@) + seq![58u8] + encode_utf8(data@));
    hex_encode(sha256(bytes.as_slice()).as_slice())
}

/// The text that a token encodes: the user id, the time of issue in seconds,
/// and the signature of the two.
pub open spec fn token_text(user_id: Seq<char>, secret: Seq<char>, now: i64) -> Seq<char> {
    let payload = user_id + seq![':'] + signed_decimal(now as int);
    payload + seq![':'] + hmac_sha256_spec(secret, payload)
}

/// The token of a user, or none where its text is too long to encode.
pub open spec fn make_token_spec(user_id: Seq<char>, secret: Seq<char>, now: i64) -> Option<
    Seq<char>,
> {
    let bytes = encode_utf8(token_text(user_id, secret, now));
    if bytes.len() <= MAX_ENCODED_BYTES {
        Some(base64_text(bytes))
    } else {
        None
    }
}

fn signed_chars(n: i64) -> (out: Vec<char>)
    ensures
        out@ == signed_decimal(n as int),
{
    if n < 0 {
        let mut out: Vec<char> = Vec::new();
        out.push('-');
        let magnitude: u64 = if n == i64::MIN {
            0x8000_0000_0000_0000
        } else {
            (-n) as u64
        };
        push_all(&mut out, &crate::number::decimal_chars(magnitude));
        out
    } else {
        crate::number::decimal_chars(n as u64)
    }
}

/// Issues the token of a user at time `now`, in seconds since the Unix
/// epoch.
pub fn make_token(user_id: &str, secret: &str, now: i64) -> (token: Option<String>)
    ensures
        opt_text(token) == make_token_spec(user_id@, secret@, now),
{
    let mut payload = chars_of(user_id);
    payload.push(':');
    push_all(&mut payload, &signed_chars(now));
    assert(payload@ =~= user_id@ + seq![':'] + signed_decimal(now as int));
    let payload_text = text_of(payload.as_slice());
    let mac = hmac_sha256(secret, payload_text.as_str());
    let mut text = payload;
    text.push(':');
    push_all(&mut text, &chars_of(mac.as_str()));
    assert(text@ =~= payload_text@ + seq![':'] + mac@);
    let text = text_of(text.as_slice());
    let bytes = text.as_str().as_bytes();
    if bytes.len() <= MAX_ENCODED_BYTES {
        Some(base64_encode(bytes))
    } else {
        None
    }
}

/// The user that a token speaks for: the token must be Base64 of valid
/// UTF-8, its text must have three parts between colons, and the third must
/// be the signature of the first two under the secret.
pub open spec fn verify_token_spec(token: Seq<char>, secret: Seq<char>) -> Option<Seq<char>> {
    match base64_bytes(token) {
        None => None,
        Some(bytes) => if !valid_utf8(bytes) {
            None
        } else {
            let parts = splitn_spec(decode_utf8(bytes), 3, ':');
            if parts.len() == 3 && parts[2] == hmac_sha256_spec(
                secret,
                parts[0] + seq![':'] + parts[1],
            ) {
                Some(parts[0])
            } else {
                None
            }
        },
    }
}

/// Reads a token and returns the id of the user that it speaks for.
pub fn verify_token(token: &str, secret: &str) -> (user_id: Option<String>)
    ensures
        opt_text(user_id) == verify_token_spec(token@, secret@),
{
    let bytes = match base64_decode(token) {
        Some(b) => b,
        None => {
            return None;
        },
    };
    let ghost raw = bytes@;
    let text = match utf8_text(bytes) {
        Some(t) => t,
        None => {
            return None;
        },
    };
    let chars = chars_of(text.as_str());
    let parts = splitn(chars.as_slice(), 3, ':');
    if parts.len() != 3 {
        return None;
    }
    let mut payload: Vec<char> = Vec::new();
    push_all(&mut payload, &parts[0]);
    payload.push(':');
    push_all(&mut payload, &parts[1]);
    assert(payload@ =~= rows_of(parts@)[0] + seq![':'] + rows_of(parts@)[1]);
    let expected = hmac_sha256(secret, text_of(payload.as_slice()).as_str());
    let expected = chars_of(expected.as_str());
    if !same_chars(parts[2].as_slice(), expected.as_slice()) {
        return None;
    }
    Some(text_of(parts[0].as_slice()))
}

/// The token that an `Authorization` header carries: what follows `Bearer `.
pub open spec fn extract_bearer_spec(header: Option<Seq<char>>) -> Option<Seq<char>> {
    match header {
        Some(v) => if has_prefix(v, "Bearer "@) {
            Some(v.skip("Bearer "@.len() as int))
        } else {
            None
        },
        None => None,
    }
}

/// The token that an `Authorization` header carries.
pub fn extract_bearer(header: Option<&str>) -> (token: Option<String>)
    ensures
        opt_text(token) == extract_bearer_spec(
            match header {
                Some(v) => Some(v@),
                None => None,
            },
        ),
{
    match header {
        Some(v) => {
            let chars = chars_of(v);
            let prefix = chars_of("Bearer ");
            if starts_with(chars.as_slice(), prefix.as_slice()) {
                let rest = vstd::slice::slice_subrange(chars.as_slice(), prefix.len(), chars.len());
                assert(rest@ =~= v@.skip("Bearer "@.len() as int));
                Some(text_of(rest))
            } else {
                None
            }
        },
        None => None,
    }
}

/// A request without a valid token.
#[derive(Clone, Copy, Debug, PartialEq, Eq, Structural)]
pub struct AuthRejection;

impl AuthRejection {
    /// The HTTP status that answers the request.
    pub fn status_code(&self) -> (code: u16)
        ensures
            code == 401,
    {
        401
    }

    /// The message that the client is shown.
    pub fn message(&self) -> (m: String)
        ensures
            m@ == "unauthorized"@,
    {
        "unauthorized".to_string()
    }
}

/// The user that a request was made by.
#[derive(Clone, Debug)]
pub struct AuthUser(pub User);

/// The token of a request: the bearer token of the `Authorization` header,
/// or else the value of `X-Auth-Token`.
pub open spec fn request_token_spec(
    authorization: Option<Seq<char>>,
    x_auth_token: Option<Seq<char>>,
) -> Option<Seq<char>> {
    match extract_bearer_spec(authorization) {
        Some(t) => Some(t),
        None => x_auth_token,
    }
}

/// The id of the user that a request claims to be made by, from its two
/// headers: rejected without a token, and with one that does not verify.
pub fn claimed_user_id(
    authorization: Option<&str>,
    x_auth_token: Option<&str>,
    secret: &str,
) -> (r: Result<String, AuthRejection>)
    ensures
        match request_token_spec(
            match authorization {
                Some(v) => Some(v@),
                None => None,
            },
            match x_auth_token {
                Some(v) => Some(v@),
                None => None,
            },
        ) {
            Some(token) => match verify_token_spec(token, secret@) {
                Some(id) => r matches Ok(got) && got@ == id,
                None => r is Err,
            },
            None => r is Err,
        },
{
    let token = match extract_bearer(authorization) {
        Some(t) => t,
        None => match x_auth_token {
            Some(t) => t.to_string(),
            None => {
                return Err(AuthRejection);
            },
        },
    };
    match verify_token(token.as_str(), secret) {
        Some(id) => Ok(id),
        None => Err(AuthRejection),
    }
}

impl AuthUser {
    /// The user of a request whose token named an id: rejected where the
    /// store holds no such user.
    pub fn from_lookup(user: Option<User>) -> (r: Result<AuthUser, AuthRejection>)
        ensures
            match (user, r) {
                (Some(u), Ok(a)) => a.0 == u,
                (None, Err(_)) => true,
                _ => false,
            },
    {
        match user {
            Some(u) => Ok(AuthUser(u)),
            None => Err(AuthRejection),
        }
    }
}

/// Whether the token of a socket query verifies.
pub fn socket_authorized(token: Option<&str>, secret: &str) -> (ok: bool)
    ensures
        ok == match token {
            Some(t) => verify_token_spec(t@, secret@).is_some(),
            None => false,
        },
{
    match token {
        Some(t) => verify_token(t, secret).is_some(),
        None => false,
    }
}

/// What a login comes to, given the stored user of that name: unauthorized
/// without one and on a wrong password, an internal error where the stored
/// hash cannot be read or the token cannot be made, else the token.
pub open spec fn login_spec(
    password: Seq<char>,
    user: Option<User>,
    secret: Seq<char>,
    now: i64,
) -> Result<(Seq<char>, Seq<char>, Seq<char>), AppErrorView> {
    match user {
        None => Err(AppErrorView::Unauthorized),
        Some(u) => match verify_password_spec(password, u.password@) {
            Err(e) => Err(AppErrorView::Internal(e)),
            Ok(false) => Err(AppErrorView::Unauthorized),
            Ok(true) => match make_token_spec(u.id@, secret, now) {
                Some(token) => Ok((token, u.id@, u.username@)),
                None => Err(AppErrorView::Internal("token too long"@)),
            },
        },
    }
}

/// Logs a user in.
pub fn login_handler(req: &LoginRequest, user: Option<User>, secret: &str, now: i64) -> (r: Result<
    LoginResponse,
    AppError,
>)
    ensures
        match r {
            Ok(resp) => login_spec(req.password@, user, secret@, now) == Ok::<
                (Seq<char>, Seq<char>, Seq<char>),
                AppErrorView,
            >((resp.token@, resp.user_id@, resp.username@)),
            Err(e) => login_spec(req.password@, user, secret@, now) == Err::<
                (Seq<char>, Seq<char>, Seq<char>),
                AppErrorView,
            >(e@),
        },
{
    let user = match user {
        Some(u) => u,
        None => {
            return Err(AppError::Unauthorized);
        },
    };
    match verify_password(req.password.as_str(), user.password.as_str()) {
        Err(e) => Err(AppError::Internal(e)),
        Ok(false) => Err(AppError::Unauthorized),
        Ok(true) => match make_token(user.id.as_str(), secret, now) {
            Some(token) => Ok(LoginResponse { token, user_id: user.id, username: user.username }),
            None => Err(AppError::Internal("token too long".to_string())),
        },
    }
}

/// The first user of an installation: made only while the store holds no
/// user at all, with the configured name and the hash of the configured
/// password under a fresh salt.
pub fn seed_admin(user_count: i64, username: &str, password: &str) -> (r: Result<
    Option<User>,
    String,
>)
    ensures
        match r {
            Ok(None) => user_count != 0,
            Ok(Some(u)) => user_count == 0 && u.username@ == username@
                && crate::ids::is_uuid_v4_text(u.id@) && exists|salt: Seq<u8>|
                salt.len() == 16 && #[trigger] hash_with_salt_spec(password@, salt) == Ok::<
                    Seq<char>,
                    Seq<char>,
                >(u.password@),
            Err(e) => user_count == 0 && exists|salt: Seq<u8>|
                salt.len() == 16 && #[trigger] hash_with_salt_spec(password@, salt) == Err::<
                    Seq<char>,
                    Seq<char>,
                >(e@),
        },
{
    if user_count != 0 {
        return Ok(None);
    }
    match hash_password(password) {
        Ok(hash) => Ok(
            Some(
                User {
                    id: User::new_id(),
                    username: username.to_string(),
                    password: hash,
                    created_at: String::new(),
                    updated_at: String::new(),
                },
            ),
        ),
        Err(e) => Err(e),
    }
}

} // verus!
