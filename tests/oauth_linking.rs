use backend::{
    AppError, Config, DiscordUserInfo, GoogleUserInfo, OAuthService, Provider, SmtpConfig, UserService,
};
use backend::oauth::{discord_identity, google_identity};

const NOW: i64 = 1_700_000_000;

fn config() -> Config {
    Config {
        port: 8000,
        database_url: String::new(),
        app_name: "app".into(),
        jwt_secret: "SECRET-REDACTED".into(),
        google_client_id: String::new(),
        google_client_secret: String::new(),
        discord_client_id: String::new(),
        discord_client_secret: String::new(),
        smtp: SmtpConfig {
            host: String::new(),
            port: 587,
            username: String::new(),
            password: String::new(),
            from_email: String::new(),
            from_name: String::new(),
        },
        frontend_url: "https://front.example".into(),
        backend_url: "https://api.example".into(),
    }
}

fn google(id: &str, email: &str, given: Option<&str>, name: Option<&str>, picture: Option<&str>) -> GoogleUserInfo {
    GoogleUserInfo {
        id: id.into(),
        email: email.into(),
        name: name.map(String::from),
        picture: picture.map(String::from),
        given_name: given.map(String::from),
        family_name: None,
    }
}

#[test]
fn google_username_falls_back_to_the_id() {
    let a = google_identity(google("1234567890", "g@x.com", Some("Gina"), Some("Gina G"), None));
    assert_eq!(a.username, "Gina");
    assert_eq!(a.display_name.as_deref(), Some("Gina G"));
    let b = google_identity(google("1234567890", "g@x.com", None, Some("Gina G"), None));
    assert_eq!(b.username, "Gina G");
    let c = google_identity(google("1234567890", "g@x.com", None, None, Some("https://pic")));
    assert_eq!(c.username, "user_12345678");
    assert_eq!(c.avatar_url.as_deref(), Some("https://pic"));
    assert_eq!(c.provider_id, "1234567890");
    let d = google_identity(google("123", "g@x.com", None, None, None));
    assert_eq!(d.username, "user_123");
}

fn discord(email: Option<&str>, avatar: Option<&str>, global: Option<&str>) -> DiscordUserInfo {
    DiscordUserInfo {
        id: "42".into(),
        username: "dave".into(),
        discriminator: "0001".into(),
        email: email.map(String::from),
        avatar: avatar.map(String::from),
        global_name: global.map(String::from),
    }
}

#[test]
fn discord_profile_normalisation() {
    let x = discord_identity(discord(Some("d@x.com"), Some("abc"), Some("Dave D"))).unwrap();
    assert_eq!(x.username, "Dave D");
    assert_eq!(x.display_name.as_deref(), Some("Dave D"));
    assert_eq!(x.avatar_url.as_deref(), Some("https://cdn.discordapp.com/avatars/42/abc.png"));
    let y = discord_identity(discord(Some("d@x.com"), None, None)).unwrap();
    assert_eq!(y.username, "dave");
    assert_eq!(y.display_name.as_deref(), Some("dave"));
    assert!(y.avatar_url.is_none());
    assert_eq!(
        discord_identity(discord(None, None, None)).unwrap_err(),
        AppError::OAuth("Discord account must have a verified email".into())
    );
}

#[test]
fn first_oauth_sign_in_creates_a_verified_account() {
    let svc = OAuthService::new(&config());
    let mut users = UserService::new();
    let r = svc
        .handle_google_callback(&mut users, google("g-1", "g@x.com", Some("Gina"), None, None), NOW)
        .unwrap();
    assert!(r.user.is_verified);
    assert_eq!(r.user.provider, "google");
    assert_eq!(r.user.username, "Gina");
    let u = users.find_by_email("g@x.com").unwrap();
    assert_eq!(u.provider_id.as_deref(), Some("g-1"));
    assert!(u.password_hash.is_none());
    let claims = backend::JwtService::new("SECRET-REDACTED").verify_token(&r.token, NOW).unwrap();
    assert_eq!(claims.user_id, u.id);
}

#[test]
fn local_account_is_linked_keeping_its_profile() {
    let svc = OAuthService::new(&config());
    let mut users = UserService::new();
    let mut req = backend::RegisterRequest {
        email: "a@x.com".into(),
        username: "alice".into(),
        password: "password1".into(),
        display_name: Some("Alice".into()),
        locale: None,
    };
    req.locale = None;
    let hash = backend::hash_password("password1", 4).unwrap();
    let secret = backend::generate_verification_token();
    let local = users.insert_local_user(&req, hash, secret, NOW).unwrap();
    assert!(!local.is_verified);

    let r = svc
        .handle_google_callback(
            &mut users,
            google("g-9", "a@x.com", Some("Ally"), Some("Ally G"), Some("https://pic")),
            NOW + 1,
        )
        .unwrap();
    assert_eq!(r.user.id, local.id);
    assert!(r.user.is_verified);
    assert_eq!(r.user.provider, "google");
    assert_eq!(r.user.display_name.as_deref(), Some("Alice"));
    assert_eq!(r.user.avatar_url.as_deref(), Some("https://pic"));
    assert_eq!(r.user.username, "alice");
    let u = users.find_by_email("a@x.com").unwrap();
    assert_eq!(u.provider_id.as_deref(), Some("g-9"));
    assert_eq!(users.len(), 1);
}

#[test]
fn repeated_sign_in_returns_the_same_user_unchanged() {
    let svc = OAuthService::new(&config());
    let mut users = UserService::new();
    let first = svc
        .handle_discord_callback(&mut users, discord(Some("d@x.com"), Some("abc"), None), NOW)
        .unwrap();
    let before = users.find_by_email("d@x.com").unwrap();
    let second = svc
        .handle_discord_callback(&mut users, discord(Some("d@x.com"), Some("zzz"), Some("New")), NOW + 50)
        .unwrap();
    let after = users.find_by_email("d@x.com").unwrap();
    assert_eq!(first.user.id, second.user.id);
    assert_eq!(before.updated_at, after.updated_at);
    assert_eq!(after.avatar_url.as_deref(), Some("https://cdn.discordapp.com/avatars/42/abc.png"));
    assert_eq!(users.len(), 1);
}

#[test]
fn email_of_another_provider_is_a_conflict() {
    let svc = OAuthService::new(&config());
    let mut users = UserService::new();
    svc.handle_discord_callback(&mut users, discord(Some("same@x.com"), None, None), NOW).unwrap();
    let r = svc.handle_google_callback(&mut users, google("g-2", "same@x.com", Some("Sam"), None, None), NOW);
    assert_eq!(r.unwrap_err(), AppError::Conflict("Email already exists".into()));
    assert_eq!(users.len(), 1);
}

#[test]
fn discord_without_email_changes_nothing() {
    let svc = OAuthService::new(&config());
    let mut users = UserService::new();
    let r = svc.handle_discord_callback(&mut users, discord(None, None, None), NOW);
    assert!(matches!(r, Err(AppError::OAuth(_))));
    assert_eq!(users.len(), 0);
}

#[test]
fn provider_endpoints_scopes_and_redirects() {
    let svc = OAuthService::new(&config());
    assert_eq!(svc.redirect_uri(Provider::Google), "https://api.example/api/v1/auth/google/callback");
    assert_eq!(svc.redirect_uri(Provider::Discord), "https://api.example/api/v1/auth/discord/callback");
    assert_eq!(Provider::Google.scopes(), vec!["email".to_string(), "profile".to_string()]);
    assert_eq!(Provider::Discord.scopes(), vec!["identify".to_string(), "email".to_string()]);
    assert_eq!(Provider::Google.auth_url(), "https://accounts.google.com/o/oauth2/v2/auth");
    assert_eq!(Provider::Discord.token_url(), "https://discord.com/api/oauth2/token");
    assert_eq!(Provider::Discord.profile_url(), "https://discord.com/api/users/@me");
}

#[test]
fn new_oauth_account_with_a_taken_username_is_a_conflict() {
    let svc = OAuthService::new(&config());
    let mut users = UserService::new();
    svc.handle_google_callback(&mut users, google("g-1", "one@x.com", Some("Sam"), None, None), NOW).unwrap();
    let r = svc.handle_google_callback(&mut users, google("g-2", "two@x.com", Some("Sam"), None, None), NOW);
    assert_eq!(r.unwrap_err(), AppError::Conflict("Username already exists".into()));
    assert_eq!(users.len(), 1);
}
