use backend::validation::{validate_login, validate_register};
use backend::{is_valid_locale, locale_from_accept_language, AppError, LoginRequest, MailKind, MailRequest, RegisterRequest};

fn req(email: &str, username: &str, password: &str) -> RegisterRequest {
    RegisterRequest {
        email: email.to_string(),
        username: username.to_string(),
        password: password.to_string(),
        display_name: None,
        locale: None,
    }
}

#[test]
fn well_formed_registration_passes() {
    assert_eq!(validate_register(&req("a@x.com", "alice", "password1")), Ok(()));
    assert_eq!(validate_register(&req("a@x.com", "bob", "12345678")), Ok(()));
    assert_eq!(validate_register(&req("a@x.com", &"z".repeat(50), "12345678")), Ok(()));
}

#[test]
fn registration_problems_are_listed_in_field_order() {
    assert_eq!(
        validate_register(&req("not-an-email", "al", "short")),
        Err(AppError::Validation(
            "email: Invalid email format, username: Username must be between 3 and 50 characters, password: Password must be at least 8 characters"
                .to_string()
        ))
    );
    assert_eq!(
        validate_register(&req("a@x.com", &"z".repeat(51), "password1")),
        Err(AppError::Validation("username: Username must be between 3 and 50 characters".to_string()))
    );
    assert_eq!(
        validate_register(&req("a@x.com", "alice", "1234567")),
        Err(AppError::Validation("password: Password must be at least 8 characters".to_string()))
    );
}

#[test]
fn lengths_count_characters_not_bytes() {
    assert_eq!(validate_register(&req("a@x.com", "çöş", "şifreşifre")), Ok(()));
    assert!(validate_register(&req("a@x.com", "ab", "ğğğğğğğ")).is_err());
}

#[test]
fn login_needs_email_and_password() {
    let ok = LoginRequest { email: "a@x.com".into(), password: "p".into() };
    assert_eq!(validate_login(&ok), Ok(()));
    let bad = LoginRequest { email: "nope".into(), password: "".into() };
    assert_eq!(
        validate_login(&bad),
        Err(AppError::Validation("email: Invalid email format, password: Password is required".to_string()))
    );
}

#[test]
fn known_locales() {
    for l in ["en", "tr", "es", "fr", "de", "ja", "ko", "zh"] {
        assert!(is_valid_locale(l));
    }
    assert!(!is_valid_locale("EN"));
    assert!(!is_valid_locale("it"));
    assert!(!is_valid_locale(""));
    assert!(!is_valid_locale("en-US"));
}

#[test]
fn accept_language_picks_turkish_or_english() {
    assert_eq!(locale_from_accept_language(Some("tr")), "tr");
    assert_eq!(locale_from_accept_language(Some("tr-TR,en;q=0.8")), "tr");
    assert_eq!(locale_from_accept_language(Some("tr,en")), "tr");
    assert_eq!(locale_from_accept_language(Some("en-US,tr")), "en");
    assert_eq!(locale_from_accept_language(Some("tr;q=0.9")), "en");
    assert_eq!(locale_from_accept_language(Some("fr")), "en");
    assert_eq!(locale_from_accept_language(Some("")), "en");
    assert_eq!(locale_from_accept_language(None), "en");
}

#[test]
fn mail_links_and_subjects() {
    let m = MailRequest {
        kind: MailKind::Verification,
        to: "a@x.com".into(),
        username: "alice".into(),
        token: "abc".into(),
    };
    assert_eq!(m.link("https://app.example"), "https://app.example/verify-email?token=abc");
    assert_eq!(m.subject(), "Verify your email address");
    let r = MailRequest { kind: MailKind::PasswordReset, ..m };
    assert_eq!(r.link("https://app.example"), "https://app.example/reset-password?token=abc");
    assert_eq!(r.subject(), "Reset your password");
}
