use backend::{generate_verification_token, hash_password, verify_password, AppError, JwtService};

const COST: u32 = 4;

#[test]
fn password_verifies_against_its_hash() {
    let h = hash_password("password1", COST).unwrap();
    assert_ne!(h, "password1");
    assert_eq!(verify_password("password1", &h), Ok(true));
}

#[test]
fn wrong_password_does_not_verify() {
    let h = hash_password("password1", COST).unwrap();
    assert_eq!(verify_password("password2", &h), Ok(false));
    assert_eq!(verify_password("", &h), Ok(false));
}

#[test]
fn two_hashes_of_one_password_differ_and_both_verify() {
    let a = hash_password("correct horse", COST).unwrap();
    let b = hash_password("correct horse", COST).unwrap();
    assert_ne!(a, b);
    assert_eq!(verify_password("correct horse", &a), Ok(true));
    assert_eq!(verify_password("correct horse", &b), Ok(true));
}

#[test]
fn malformed_hash_is_an_error_not_a_panic() {
    assert!(matches!(verify_password("password1", "not a hash"), Err(AppError::Bcrypt(_))));
    assert!(matches!(verify_password("password1", ""), Err(AppError::Bcrypt(_))));
}

#[test]
fn cost_out_of_range_is_refused() {
    assert!(matches!(hash_password("password1", 3), Err(AppError::Bcrypt(_))));
    assert!(matches!(hash_password("password1", 32), Err(AppError::Bcrypt(_))));
}

#[test]
fn secrets_are_32_alphanumeric_characters() {
    let a = generate_verification_token();
    let b = generate_verification_token();
    assert_eq!(a.chars().count(), 32);
    assert!(a.chars().all(|c| c.is_ascii_alphanumeric()));
    assert_ne!(a, b);
}

const NOW: i64 = 1_700_000_000;

#[test]
fn issued_token_verifies_to_its_user() {
    let jwt = JwtService::new("SECRET-REDACTED");
    let id: u128 = 0x0123_4567_89ab_cdef_0123_4567_89ab_cdef;
    let t = jwt.generate_token(id, "a@x.com", NOW).unwrap();
    let c = jwt.verify_token(&t, NOW).unwrap();
    assert_eq!(c.user_id, id);
    assert_eq!(c.sub, "01234567-89ab-cdef-0123-456789abcdef");
    assert_eq!(c.email, "a@x.com");
    assert_eq!(c.iat, NOW);
    assert_eq!(c.exp, NOW + 86400);
}

#[test]
fn token_is_live_until_its_expiry_and_not_after() {
    let jwt = JwtService::new("k1");
    let t = jwt.generate_token(7, "b@x.com", NOW).unwrap();
    assert!(jwt.verify_token(&t, NOW + 86399).is_ok());
    assert_eq!(
        jwt.verify_token(&t, NOW + 86400),
        Err(AppError::Authentication("invalid-token".to_string()))
    );
    assert!(jwt.verify_token(&t, NOW + 200_000).is_err());
}

#[test]
fn token_under_another_secret_is_refused() {
    let t = JwtService::new("k1").generate_token(7, "b@x.com", NOW).unwrap();
    assert_eq!(
        JwtService::new("k2").verify_token(&t, NOW),
        Err(AppError::Authentication("invalid-token".to_string()))
    );
}

#[test]
fn tampered_or_garbage_token_is_refused() {
    let jwt = JwtService::new("k1");
    let t = jwt.generate_token(7, "b@x.com", NOW).unwrap();
    let mut bad = t.clone();
    bad.push('x');
    assert!(jwt.verify_token(&bad, NOW).is_err());
    assert!(jwt.verify_token("a.b.c", NOW).is_err());
    assert!(jwt.verify_token("", NOW).is_err());
}
