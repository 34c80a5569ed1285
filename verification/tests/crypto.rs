use backend_insights::errors::AppError;
use backend_insights::hash::{hash_password, verify_password};
use backend_insights::ids::is_object_id_hex;
use backend_insights::jwt::{generate_jwt, verify_jwt, object_id_from_sub};
use backend_insights::otp::{generate_totp_secret, totp_provisioning_url, verify_totp_code};

fn now_secs() -> u64 {
    chrono::Utc::now().timestamp() as u64
}

#[test]
fn password_hash_round_trip() {
    let hash = hash_password("correct horse").unwrap();
    assert_ne!(hash, "correct horse");
    assert!(verify_password("correct horse", &hash).unwrap());
    assert!(!verify_password("battery staple", &hash).unwrap());
}

#[test]
fn malformed_hash_is_a_hashing_error() {
    let r = verify_password("pw", "not a bcrypt hash");
    assert!(matches!(r, Err(AppError::HashingError)));
}

#[test]
fn jwt_round_trip() {
    let id = "aabbccddeeff001122334455";
    let token = generate_jwt(id, "top-secret", now_secs()).unwrap();
    assert_ne!(token, id);
    let sub = verify_jwt(&token, "top-secret").unwrap();
    assert_eq!(sub, id);
}

#[test]
fn jwt_rejects_wrong_secret_garbage_and_expiry() {
    let id = "aabbccddeeff001122334455";
    let token = generate_jwt(id, "top-secret", now_secs()).unwrap();
    assert!(matches!(verify_jwt(&token, "other"), Err(AppError::InvalidToken)));
    assert!(matches!(verify_jwt("not.a.token", "top-secret"), Err(AppError::InvalidToken)));

    // a token minted more than twelve hours ago has expired
    let stale = generate_jwt(id, "top-secret", now_secs() - 50_000).unwrap();
    assert!(matches!(verify_jwt(&stale, "top-secret"), Err(AppError::InvalidToken)));
}

#[test]
fn subject_claims_must_be_object_ids() {
    assert!(object_id_from_sub("aabbccddeeff001122334455".to_string()).is_ok());
    assert!(matches!(
        object_id_from_sub("not-an-id".to_string()),
        Err(AppError::InvalidToken)
    ));
    assert!(is_object_id_hex("ABCDEFabcdef012345678901"));
    assert!(!is_object_id_hex("aabbccddeeff00112233445"));
    assert!(!is_object_id_hex("aabbccddeeff0011223344556"));
    assert!(!is_object_id_hex("gabbccddeeff001122334455"));
}

#[test]
fn totp_secret_is_52_base32_characters() {
    let secret = generate_totp_secret();
    assert_eq!(secret.len(), 52);
    assert!(secret.chars().all(|c| ('A'..='Z').contains(&c) || ('2'..='7').contains(&c)));
    // two draws almost surely differ
    assert_ne!(secret, generate_totp_secret());
}

#[test]
fn totp_url_carries_the_account() {
    let secret = generate_totp_secret();
    let url = totp_provisioning_url("alice", &secret).unwrap();
    assert!(url.starts_with("otpauth://totp/"));
    assert!(url.contains("alice"));
    assert!(url.contains("secret="));
}

#[test]
fn totp_rejects_undecodable_or_short_secrets() {
    // '1' is outside the RFC 4648 alphabet
    match totp_provisioning_url("alice", "11111111") {
        Err(AppError::InvalidInput(m)) => assert_eq!(m, "Failed to decode secret"),
        other => panic!("expected InvalidInput, got {:?}", other),
    }
    // decodable but far shorter than 128 bits
    assert!(matches!(
        totp_provisioning_url("alice", "GEZDGNBV"),
        Err(AppError::InternalError)
    ));
    assert!(!verify_totp_code("11111111", "123456"));
    assert!(!verify_totp_code("GEZDGNBV", "123456"));
}

#[test]
fn totp_mismatched_code_fails() {
    let secret = generate_totp_secret();
    assert!(!verify_totp_code(&secret, "not a code"));
}
