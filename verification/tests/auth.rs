use base64::Engine;
use tapedeck::auth::{
    claimed_user_id, extract_bearer, hash_password, hash_with_salt, hmac_sha256, login_handler,
    make_token, seed_admin, socket_authorized, verify_password, verify_token, AuthRejection, AuthUser,
};
use tapedeck::error::AppError;
use tapedeck::models::{LoginRequest, User};
use tapedeck::routes::ws::WsQuery;

const TOKEN: &str = "dXNlci0xOjE3MDAwMDAwMDA6YWMzZmZhZWVmN2RlY2Q2YjRiOGNlZTRmMTI5NWYzN2ZiOWM3Njc4ZGVlY2RmZTdiN2NjMzBkMGEzODUwMDg4NA==";

fn user(password_hash: &str) -> User {
    User {
        id: "user-1".to_string(),
        username: "ada".to_string(),
        password: password_hash.to_string(),
        created_at: "2024-01-01 00:00:00".to_string(),
        updated_at: "2024-01-01 00:00:00".to_string(),
    }
}

#[test]
fn signature_is_the_hex_digest_of_secret_colon_data() {
    assert_eq!(
        hmac_sha256("s3cret", "user-1:1700000000"),
        "ac3ffaeef7decd6b4b8cee4f1295f37fb9c7678deecdfe7b7cc30d0a38500884"
    );
    assert_eq!(
        hmac_sha256("key", ""),
        "71338152aa22fab38f04efd7033c9370e487ecd61483a795b7cd875881f7323d"
    );
    assert_eq!(
        hmac_sha256("", ""),
        "e7ac0786668e0ff0f02b62bd04f45ff636fd82db63b1104601c975dc005f3a67"
    );
}

#[test]
fn token_of_a_user() {
    assert_eq!(make_token("user-1", "s3cret", 1_700_000_000).as_deref(), Some(TOKEN));
}

#[test]
fn token_reads_back_to_its_user() {
    assert_eq!(verify_token(TOKEN, "s3cret").as_deref(), Some("user-1"));
    for (id, now) in [("", 0i64), ("a-b-c", -5), ("üser", i64::MAX), ("x", i64::MIN)] {
        let t = make_token(id, "k", now).unwrap();
        assert_eq!(verify_token(&t, "k").as_deref(), Some(id));
    }
}

#[test]
fn token_under_another_secret_is_refused() {
    assert_eq!(verify_token(TOKEN, "s3cret2"), None);
    assert_eq!(verify_token(TOKEN, ""), None);
}

#[test]
fn malformed_tokens_are_refused() {
    let b64 = |s: &[u8]| base64::engine::general_purpose::STANDARD.encode(s);
    assert_eq!(verify_token("", "s3cret"), None);
    assert_eq!(verify_token("not base64!", "s3cret"), None);
    assert_eq!(verify_token(&b64(b"\xff\xfe"), "s3cret"), None);
    assert_eq!(verify_token(&b64(b"user-1"), "s3cret"), None);
    assert_eq!(verify_token(&b64(b"user-1:1700000000"), "s3cret"), None);
    assert_eq!(verify_token(&b64(b"user-1:1700000000:"), "s3cret"), None);
    assert_eq!(verify_token(&b64(b"user-1:1700000000:abcdef"), "s3cret"), None);
    // a changed user id no longer matches the signature
    let forged = format!(
        "user-2:1700000000:{}",
        "ac3ffaeef7decd6b4b8cee4f1295f37fb9c7678deecdfe7b7cc30d0a38500884"
    );
    assert_eq!(verify_token(&b64(forged.as_bytes()), "s3cret"), None);
}

#[test]
fn a_colon_in_the_user_id_breaks_the_token() {
    let t = make_token("a:b", "k", 7).unwrap();
    assert_eq!(verify_token(&t, "k"), None);
}

#[test]
fn bearer_tokens() {
    assert_eq!(extract_bearer(Some("Bearer abc")).as_deref(), Some("abc"));
    assert_eq!(extract_bearer(Some("Bearer ")).as_deref(), Some(""));
    assert_eq!(extract_bearer(Some("Bearer  x y")).as_deref(), Some(" x y"));
    assert_eq!(extract_bearer(Some("bearer abc")), None);
    assert_eq!(extract_bearer(Some("Bearer")), None);
    assert_eq!(extract_bearer(Some("Basic abc")), None);
    assert_eq!(extract_bearer(None), None);
}

#[test]
fn request_token_comes_from_either_header() {
    let bearer = format!("Bearer {TOKEN}");
    assert_eq!(claimed_user_id(Some(&bearer), None, "s3cret"), Ok("user-1".to_string()));
    assert_eq!(claimed_user_id(None, Some(TOKEN), "s3cret"), Ok("user-1".to_string()));
    assert_eq!(claimed_user_id(Some("Basic x"), Some(TOKEN), "s3cret"), Ok("user-1".to_string()));
    // a bearer token wins over the other header, also when it is wrong
    assert_eq!(claimed_user_id(Some("Bearer junk"), Some(TOKEN), "s3cret"), Err(AuthRejection));
    assert_eq!(claimed_user_id(None, None, "s3cret"), Err(AuthRejection));
    assert_eq!(claimed_user_id(Some(&bearer), None, "other"), Err(AuthRejection));
}

#[test]
fn rejection_is_answered_with_401() {
    assert_eq!(AuthRejection.status_code(), 401);
    assert_eq!(AuthRejection.message(), "unauthorized");
}

#[test]
fn authenticated_user_must_exist() {
    assert!(AuthUser::from_lookup(None).is_err());
    let a = AuthUser::from_lookup(Some(user("h"))).unwrap();
    assert_eq!(a.0.id, "user-1");
    assert_eq!(a.0.username, "ada");
}

#[test]
fn socket_needs_a_valid_token() {
    assert!(socket_authorized(Some(TOKEN), "s3cret"));
    assert!(!socket_authorized(Some(TOKEN), "nope"));
    assert!(!socket_authorized(None, "s3cret"));
    assert!(WsQuery { token: Some(TOKEN.to_string()) }.authorized("s3cret"));
    assert!(!WsQuery { token: Some("x".to_string()) }.authorized("s3cret"));
    assert!(!WsQuery { token: None }.authorized("s3cret"));
}

#[test]
fn password_hash_verifies_its_password_only() {
    let hash = hash_password("correct horse").unwrap();
    assert!(hash.starts_with("$argon2id$"));
    assert_ne!(hash, "correct horse");
    assert_eq!(verify_password("correct horse", &hash), Ok(true));
    assert_eq!(verify_password("wrong horse", &hash), Ok(false));
    assert_eq!(verify_password("", &hash), Ok(false));
}

#[test]
fn each_hash_has_its_own_salt() {
    let a = hash_password("pw").unwrap();
    let b = hash_password("pw").unwrap();
    assert_ne!(a, b);
    assert_eq!(verify_password("pw", &a), Ok(true));
    assert_eq!(verify_password("pw", &b), Ok(true));
}

#[test]
fn same_salt_gives_the_same_hash() {
    let salt = [7u8; 16];
    let a = hash_with_salt("pw", &salt).unwrap();
    let b = hash_with_salt("pw", &salt).unwrap();
    assert_eq!(a, b);
    assert_ne!(a, hash_with_salt("pw2", &salt).unwrap());
    assert_ne!(a, hash_with_salt("pw", &[8u8; 16]).unwrap());
    assert_eq!(verify_password("pw", &a), Ok(true));
}

#[test]
fn salt_that_cannot_be_encoded() {
    let e = hash_with_salt("pw", &[0u8; 200]).unwrap_err();
    assert!(e.starts_with("salt: "), "{e}");
    let e = hash_with_salt("pw", &[]).unwrap_err();
    assert!(e.starts_with("hash_password: "), "{e}");
}

#[test]
fn unreadable_hash_is_an_error() {
    let e = verify_password("pw", "not a hash").unwrap_err();
    assert!(e.starts_with("parse hash: "), "{e}");
    assert!(e.len() > "parse hash: ".len());
}

#[test]
fn login_outcomes() {
    let hash = hash_password("correct horse").unwrap();
    let req = |p: &str| LoginRequest { username: "ada".to_string(), password: p.to_string() };
    let ok = login_handler(&req("correct horse"), Some(user(&hash)), "s3cret", 1_700_000_000)
        .unwrap();
    assert_eq!(ok.token, TOKEN);
    assert_eq!(ok.user_id, "user-1");
    assert_eq!(ok.username, "ada");
    assert_eq!(verify_token(&ok.token, "s3cret").as_deref(), Some("user-1"));
    match login_handler(&req("wrong"), Some(user(&hash)), "s3cret", 0) {
        Err(AppError::Unauthorized) => {}
        other => panic!("{other:?}"),
    }
    match login_handler(&req("correct horse"), None, "s3cret", 0) {
        Err(AppError::Unauthorized) => {}
        other => panic!("{other:?}"),
    }
    match login_handler(&req("correct horse"), Some(user("garbage")), "s3cret", 0) {
        Err(AppError::Internal(m)) => assert!(m.starts_with("parse hash: ")),
        other => panic!("{other:?}"),
    }
}

#[test]
fn fresh_ids_are_hyphenated_uuids() {
    for id in [User::new_id(), tapedeck::item::QueueItem::new_id()] {
        assert_eq!(id.len(), 36);
        let b = id.as_bytes();
        for (i, c) in b.iter().enumerate() {
            if [8, 13, 18, 23].contains(&i) {
                assert_eq!(*c, b'-');
            } else {
                assert!(c.is_ascii_digit() || (b'a'..=b'f').contains(c), "{id}");
            }
        }
        assert_eq!(b[14], b'4');
        assert!(uuid::Uuid::parse_str(&id).is_ok());
    }
    assert_ne!(User::new_id(), User::new_id());
}

#[test]
fn first_user_is_made_only_for_an_empty_store() {
    assert!(seed_admin(1, "admin", "changeme").unwrap().is_none());
    assert!(seed_admin(-1, "admin", "changeme").unwrap().is_none());
    let u = seed_admin(0, "admin", "changeme").unwrap().unwrap();
    assert_eq!(u.username, "admin");
    assert_eq!(u.id.len(), 36);
    assert_ne!(u.password, "changeme");
    assert_eq!(verify_password("changeme", &u.password), Ok(true));
}
