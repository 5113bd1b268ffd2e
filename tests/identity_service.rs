use backend::auth::bearer_token;
use backend::{
    AppError, AuthService, Config, LoginRequest, MailKind, RegisterRequest, SmtpConfig, UserService,
};

const COST: u32 = 4;
const NOW: i64 = 1_700_000_000;

fn config() -> Config {
    Config {
        port: 8000,
        database_url: String::new(),
        app_name: "app".into(),
        jwt_secret: "SECRET-REDACTED".into(),
        google_client_id: String::new(),
        google_client_secret: String::new(),
        discord_client_id: String::new(),
        discord_client_secret: String::new(),
        smtp: SmtpConfig {
            host: String::new(),
            port: 587,
            username: String::new(),
            password: String::new(),
            from_email: String::new(),
            from_name: String::new(),
        },
        frontend_url: "https://front.example".into(),
        backend_url: "https://api.example".into(),
    }
}

fn register_req(email: &str, username: &str, password: &str) -> RegisterRequest {
    RegisterRequest {
        email: email.into(),
        username: username.into(),
        password: password.into(),
        display_name: None,
        locale: None,
    }
}

fn login_req(email: &str, password: &str) -> LoginRequest {
    LoginRequest { email: email.into(), password: password.into() }
}

fn auth_error(msg: &str) -> AppError {
    AppError::Authentication(msg.to_string())
}

#[test]
fn register_login_verify_login_scenario() {
    let svc = AuthService::new(&config(), COST);
    let mut users = UserService::new();
    let (view, mail) = svc
        .register(&mut users, register_req("a@x.com", "alice", "password1"), NOW)
        .unwrap();
    assert!(!view.is_verified);
    assert_eq!(view.email, "a@x.com");
    assert_eq!(view.username, "alice");
    assert_eq!(view.provider, "local");
    assert_eq!(view.locale, "en");
    assert_eq!(mail.kind, MailKind::Verification);
    assert_eq!(mail.to, "a@x.com");

    let early = svc.login(&users, login_req("a@x.com", "password1"), NOW + 1);
    assert_eq!(early.unwrap_err(), auth_error("account-not-verified"));

    assert_eq!(svc.verify_email(&mut users, &mail.token, NOW + 2), Ok(()));

    let ok = svc.login(&users, login_req("a@x.com", "password1"), NOW + 3).unwrap();
    assert_eq!(ok.user.id, view.id);
    assert!(ok.user.is_verified);
    let me = svc.verify_token(&users, &ok.token, NOW + 4).unwrap();
    assert_eq!(me.id, view.id);
    assert_eq!(me.email, "a@x.com");
}

#[test]
fn registration_stores_an_unverified_account_with_a_day_long_secret() {
    let svc = AuthService::new(&config(), COST);
    let mut users = UserService::new();
    let (view, mail) = svc.register(&mut users, register_req("a@x.com", "alice", "password1"), NOW).unwrap();
    let u = users.find_by_email("a@x.com").unwrap();
    assert_eq!(u.id, view.id);
    assert!(!u.is_verified);
    assert_eq!(u.verification_token.as_deref(), Some(mail.token.as_str()));
    assert_eq!(u.verification_expires_at, Some(NOW + 86400));
    assert_eq!(u.created_at, NOW);
    assert!(u.password_hash.is_some());
    assert_ne!(u.password_hash.as_deref(), Some("password1"));
}

#[test]
fn registration_refuses_taken_email_and_username() {
    let svc = AuthService::new(&config(), COST);
    let mut users = UserService::new();
    svc.register(&mut users, register_req("a@x.com", "alice", "password1"), NOW).unwrap();
    let dup_email = svc.register(&mut users, register_req("a@x.com", "other", "password1"), NOW);
    assert_eq!(dup_email.unwrap_err(), AppError::Conflict("Email already exists".into()));
    let dup_name = svc.register(&mut users, register_req("b@x.com", "alice", "password1"), NOW);
    assert_eq!(dup_name.unwrap_err(), AppError::Conflict("Username already exists".into()));
    assert_eq!(users.len(), 1);
    assert!(svc.register(&mut users, register_req("b@x.com", "bob", "password1"), NOW).is_ok());
    assert_eq!(users.len(), 2);
}

#[test]
fn registration_refuses_malformed_input_before_touching_the_store() {
    let svc = AuthService::new(&config(), COST);
    let mut users = UserService::new();
    let r = svc.register(&mut users, register_req("a@x.com", "al", "password1"), NOW);
    assert!(matches!(r, Err(AppError::Validation(_))));
    assert_eq!(users.len(), 0);
}

#[test]
fn login_failures_share_one_message() {
    let svc = AuthService::new(&config(), COST);
    let mut users = UserService::new();
    let (_, mail) = svc.register(&mut users, register_req("a@x.com", "alice", "password1"), NOW).unwrap();
    svc.verify_email(&mut users, &mail.token, NOW).unwrap();
    users
        .find_or_create_oauth_user("g@x.com", "gina", None, None, "google", "g-1", NOW)
        .unwrap();

    let wrong_email = svc.login(&users, login_req("nobody@x.com", "password1"), NOW);
    let wrong_password = svc.login(&users, login_req("a@x.com", "password2"), NOW);
    let oauth_only = svc.login(&users, login_req("g@x.com", "password1"), NOW);
    assert_eq!(wrong_email.unwrap_err(), auth_error("invalid-credentials"));
    assert_eq!(wrong_password.unwrap_err(), auth_error("invalid-credentials"));
    assert_eq!(oauth_only.unwrap_err(), auth_error("invalid-credentials"));
}

#[test]
fn verification_secret_is_single_use() {
    let svc = AuthService::new(&config(), COST);
    let mut users = UserService::new();
    let (_, mail) = svc.register(&mut users, register_req("a@x.com", "alice", "password1"), NOW).unwrap();
    assert_eq!(svc.verify_email(&mut users, &mail.token, NOW + 10), Ok(()));
    assert_eq!(svc.verify_email(&mut users, &mail.token, NOW + 11), Err(auth_error("invalid-token")));
    let u = users.find_by_email("a@x.com").unwrap();
    assert!(u.is_verified);
    assert!(u.verification_token.is_none());
    assert!(u.verification_expires_at.is_none());
}

#[test]
fn verification_secret_expires_after_a_day() {
    let svc = AuthService::new(&config(), COST);
    let mut users = UserService::new();
    let (_, mail) = svc.register(&mut users, register_req("a@x.com", "alice", "password1"), NOW).unwrap();
    assert_eq!(svc.verify_email(&mut users, &mail.token, NOW + 86400), Err(auth_error("invalid-token")));
    assert_eq!(svc.verify_email(&mut users, "unknown", NOW), Err(auth_error("invalid-token")));
    assert_eq!(svc.verify_email(&mut users, &mail.token, NOW + 86399), Ok(()));
}

#[test]
fn resend_verification_rotates_the_secret() {
    let svc = AuthService::new(&config(), COST);
    let mut users = UserService::new();
    let (_, first) = svc.register(&mut users, register_req("a@x.com", "alice", "password1"), NOW).unwrap();
    assert_eq!(
        svc.resend_verification(&mut users, "nobody@x.com", NOW).unwrap_err(),
        AppError::NotFound("user-not-found".into())
    );
    let second = svc.resend_verification(&mut users, "a@x.com", NOW + 100).unwrap();
    assert_eq!(second.kind, MailKind::Verification);
    assert_eq!(second.username, "alice");
    assert_ne!(second.token, first.token);
    let u = users.find_by_email("a@x.com").unwrap();
    assert_eq!(u.verification_expires_at, Some(NOW + 100 + 86400));
    assert_eq!(svc.verify_email(&mut users, &first.token, NOW + 101), Err(auth_error("invalid-token")));
    assert_eq!(svc.verify_email(&mut users, &second.token, NOW + 101), Ok(()));
    assert_eq!(
        svc.resend_verification(&mut users, "a@x.com", NOW + 102).unwrap_err(),
        AppError::Validation("Email is already verified".into())
    );
}

#[test]
fn forgot_password_for_unknown_email_sends_nothing() {
    let svc = AuthService::new(&config(), COST);
    let mut users = UserService::new();
    svc.register(&mut users, register_req("a@x.com", "alice", "password1"), NOW).unwrap();
    assert!(svc.forgot_password(&mut users, "nobody@x.com", NOW).unwrap().is_none());
    assert!(users.find_by_email("a@x.com").unwrap().reset_token.is_none());
}

#[test]
fn forgot_password_refuses_oauth_accounts() {
    let svc = AuthService::new(&config(), COST);
    let mut users = UserService::new();
    users
        .find_or_create_oauth_user("g@x.com", "gina", None, None, "google", "g-1", NOW)
        .unwrap();
    assert_eq!(
        svc.forgot_password(&mut users, "g@x.com", NOW).unwrap_err(),
        AppError::Validation("oauth-password-reset-not-allowed".into())
    );
}

#[test]
fn reset_secret_works_once_within_the_hour() {
    let svc = AuthService::new(&config(), COST);
    let mut users = UserService::new();
    let (_, v) = svc.register(&mut users, register_req("a@x.com", "alice", "password1"), NOW).unwrap();
    svc.verify_email(&mut users, &v.token, NOW).unwrap();
    let mail = svc.forgot_password(&mut users, "a@x.com", NOW).unwrap().unwrap();
    assert_eq!(mail.kind, MailKind::PasswordReset);
    assert_eq!(mail.to, "a@x.com");
    assert_eq!(users.find_by_email("a@x.com").unwrap().reset_expires_at, Some(NOW + 3600));

    assert_eq!(
        svc.reset_password(&mut users, &mail.token, "short", NOW + 10).unwrap_err(),
        AppError::Validation("password-too-short".into())
    );
    assert_eq!(svc.reset_password(&mut users, &mail.token, "newpassword", NOW + 3599), Ok(()));
    assert_eq!(
        svc.reset_password(&mut users, &mail.token, "another-one", NOW + 3599),
        Err(auth_error("invalid-token"))
    );
    assert!(svc.login(&users, login_req("a@x.com", "newpassword"), NOW + 3600).is_ok());
    assert_eq!(
        svc.login(&users, login_req("a@x.com", "password1"), NOW + 3600).unwrap_err(),
        auth_error("invalid-credentials")
    );
    let u = users.find_by_email("a@x.com").unwrap();
    assert!(u.reset_token.is_none() && u.reset_expires_at.is_none());
}

#[test]
fn reset_secret_is_refused_after_the_hour() {
    let svc = AuthService::new(&config(), COST);
    let mut users = UserService::new();
    svc.register(&mut users, register_req("a@x.com", "alice", "password1"), NOW).unwrap();
    let mail = svc.forgot_password(&mut users, "a@x.com", NOW).unwrap().unwrap();
    assert_eq!(
        svc.reset_password(&mut users, &mail.token, "newpassword", NOW + 3600),
        Err(auth_error("invalid-token"))
    );
}

#[test]
fn session_of_a_removed_or_bad_token_is_refused() {
    let svc = AuthService::new(&config(), COST);
    let users = UserService::new();
    let other = backend::JwtService::new("SECRET-REDACTED");
    let t = other.generate_token(99, "ghost@x.com", NOW).unwrap();
    assert_eq!(svc.verify_token(&users, &t, NOW).unwrap_err(), auth_error("User not found"));
    assert_eq!(svc.verify_token(&users, "garbage", NOW).unwrap_err(), auth_error("invalid-token"));
    assert_eq!(svc.verify_token(&users, &t, NOW + 86400).unwrap_err(), auth_error("invalid-token"));
}

#[test]
fn registration_keeps_the_requested_locale_and_locale_can_change() {
    let svc = AuthService::new(&config(), COST);
    let mut users = UserService::new();
    let mut r = register_req("a@x.com", "alice", "password1");
    r.locale = Some("tr".into());
    r.display_name = Some("Alice".into());
    let (view, _) = svc.register(&mut users, r, NOW).unwrap();
    assert_eq!(view.locale, "tr");
    assert_eq!(view.display_name.as_deref(), Some("Alice"));
    let changed = svc.update_locale(&mut users, view.id, "de", NOW + 5).unwrap();
    assert_eq!(changed.locale, "de");
    assert_eq!(users.find_by_id(view.id).unwrap().updated_at, NOW + 5);
    assert!(matches!(svc.update_locale(&mut users, 12345, "de", NOW), Err(AppError::NotFound(_))));
}

#[test]
fn bearer_header_is_required_and_resolved() {
    assert_eq!(bearer_token("Bearer abc.def"), Some("abc.def"));
    assert_eq!(bearer_token("Bearer "), Some(""));
    assert_eq!(bearer_token("bearer abc"), None);
    assert_eq!(bearer_token("Basic abc"), None);
    assert_eq!(bearer_token("Bear"), None);

    let svc = AuthService::new(&config(), COST);
    let mut users = UserService::new();
    let (_, mail) = svc.register(&mut users, register_req("a@x.com", "alice", "password1"), NOW).unwrap();
    svc.verify_email(&mut users, &mail.token, NOW).unwrap();
    let signed_in = svc.login(&users, login_req("a@x.com", "password1"), NOW).unwrap();
    let header = format!("Bearer {}", signed_in.token);
    assert_eq!(svc.authenticate(&users, Some(&header), NOW).unwrap().email, "a@x.com");
    let missing = AppError::Authentication("Missing or invalid authorization header".into());
    assert_eq!(svc.authenticate(&users, None, NOW).unwrap_err(), missing);
    assert_eq!(svc.authenticate(&users, Some(&signed_in.token), NOW).unwrap_err(), missing);
}
