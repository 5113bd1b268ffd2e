//! Authentication and identity core: roles, the user repository, password
//! and bearer-token handling, account lifecycle and OAuth account linking.
//!
//! Every operation takes the current time as seconds since the epoch, and the
//! services work on a `UserService` repository handed to them, so that each
//! contract speaks of the repository before and after the call.

pub mod auth;
pub mod config;
pub mod credentials;
pub mod error;
pub mod mail;
pub mod oauth;
pub mod role;
pub mod store;
pub mod token;
pub mod user;
pub mod validation;

pub use auth::AuthService;
pub use config::{Config, SmtpConfig};
pub use credentials::{generate_verification_token, hash_password, verify_password, DEFAULT_COST};
pub use error::AppError;
pub use mail::{MailKind, MailRequest};
pub use oauth::{DiscordUserInfo, ExternalIdentity, GoogleUserInfo, OAuthService, Provider};
pub use role::UserRole;
pub use store::UserService;
pub use token::{Claims, JwtService};
pub use user::{
    AuthResponse, ForgotPasswordRequest, LoginRequest, OAuthCallbackQuery, RegisterRequest,
    ResetPasswordRequest, User, UserResponse, VerifyEmailRequest,
};
pub use validation::{is_valid_locale, locale_from_accept_language};
