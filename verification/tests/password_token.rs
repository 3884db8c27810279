use vigil::password::{hash_password, verify_password};
use vigil::token::{issue_token, verify_token, TokenError};

#[test]
fn password_hash_verifies_and_rejects() {
    let hash = hash_password("correct horse battery staple").unwrap();
    assert!(verify_password("correct horse battery staple", &hash));
    assert!(!verify_password("wrong password", &hash));
    assert!(!verify_password("", &hash));
}

#[test]
fn password_hash_is_salted() {
    let h1 = hash_password("same password").unwrap();
    let h2 = hash_password("same password").unwrap();
    assert_ne!(h1, h2);
    assert!(verify_password("same password", &h1));
    assert!(verify_password("same password", &h2));
}

#[test]
fn password_hash_is_not_the_password() {
    let hash = hash_password("pw1").unwrap();
    assert_ne!(hash, "pw1");
    assert!(!verify_password("pw1", "pw1"));
}

#[test]
fn password_verify_fails_closed_on_garbage() {
    assert!(!verify_password("pw1", "not a phc encoded string"));
    assert!(!verify_password("pw1", ""));
}

#[test]
fn token_roundtrip_carries_subject_and_expiry() {
    let token = issue_token("user-1", 60, 1000, "test-secret");
    assert_eq!(verify_token(&token, "test-secret", 1000).unwrap(), "user-1");
    assert_eq!(verify_token(&token, "test-secret", 1059).unwrap(), "user-1");
    assert!(matches!(
        verify_token(&token, "test-secret", 1060),
        Err(TokenError::Expired)
    ));
    assert!(matches!(
        verify_token(&token, "test-secret", 2000),
        Err(TokenError::Expired)
    ));
}

#[test]
fn token_zero_ttl_expired_at_issuance() {
    let token = issue_token("user-1", 0, 500, "test-secret");
    assert!(matches!(
        verify_token(&token, "test-secret", 500),
        Err(TokenError::Expired)
    ));
    assert_eq!(verify_token(&token, "test-secret", 499).unwrap(), "user-1");
}

#[test]
fn token_tampered_signature_rejected() {
    let token = issue_token("user-1", 600, 1000, "test-secret");
    let parts: Vec<&str> = token.split('.').collect();
    assert_eq!(parts.len(), 3);
    let sig = parts[2];
    let last = sig.chars().last().unwrap();
    let flipped = if last == 'A' { 'B' } else { 'A' };
    let mut tampered_sig: String = sig[..sig.len() - 1].to_string();
    tampered_sig.push(flipped);
    let tampered = format!("{}.{}.{}", parts[0], parts[1], tampered_sig);
    assert_ne!(token, tampered);
    let r = verify_token(&tampered, "test-secret", 1000);
    assert!(matches!(r, Err(TokenError::BadSignature)));
}

#[test]
fn token_wrong_secret_rejected() {
    let token = issue_token("user-1", 600, 1000, "test-secret");
    assert!(matches!(
        verify_token(&token, "another-secret", 1000),
        Err(TokenError::BadSignature)
    ));
}

#[test]
fn token_malformed_rejected() {
    assert!(matches!(
        verify_token("not a token", "test-secret", 0),
        Err(TokenError::Malformed)
    ));
    assert!(matches!(
        verify_token("a.b.c", "test-secret", 0),
        Err(TokenError::Malformed)
    ));
    assert!(matches!(
        verify_token("", "test-secret", 0),
        Err(TokenError::Malformed)
    ));
}
