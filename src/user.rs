use vstd::prelude::*;
use crate::role::UserRole;

verus! {

/// A user record as the repository stores it. Times are seconds since the
/// epoch; `id` is the value of the user's uuid.
#[derive(Debug, Clone)]
pub struct User {
    pub id: u128,
    pub email: String,
    pub username: String,
    pub password_hash: Option<String>,
    pub display_name: Option<String>,
    pub avatar_url: Option<String>,
    pub role: UserRole,
    pub is_verified: bool,
    pub verification_token: Option<String>,
    pub verification_expires_at: Option<i64>,
    pub reset_token: Option<String>,
    pub reset_expires_at: Option<i64>,
    pub provider: String,
    pub provider_id: Option<String>,
    pub locale: String,
    pub created_at: i64,
    pub updated_at: i64,
}

/// The public view of a user: the record without its password hash and
/// secrets.
#[derive(Debug, Clone)]
pub struct UserResponse {
    pub id: u128,
    pub email: String,
    pub username: String,
    pub display_name: Option<String>,
    pub avatar_url: Option<String>,
    pub role: UserRole,
    pub is_verified: bool,
    pub provider: String,
    pub locale: String,
    pub created_at: i64,
}

#[derive(Debug, Clone)]
pub struct RegisterRequest {
    pub email: String,
    pub username: String,
    pub password: String,
    pub display_name: Option<String>,
    pub locale: Option<String>,
}

#[derive(Debug, Clone)]
pub struct LoginRequest {
    pub email: String,
    pub password: String,
}

/// A signed-in user: the public view and a bearer token.
#[derive(Debug, Clone)]
pub struct AuthResponse {
    pub user: UserResponse,
    pub token: String,
}

#[derive(Debug, Clone)]
pub struct VerifyEmailRequest {
    pub token: String,
}

#[derive(Debug, Clone)]
pub struct ForgotPasswordRequest {
    pub email: String,
}

#[derive(Debug, Clone)]
pub struct ResetPasswordRequest {
    pub token: String,
    pub new_password: String,
}

#[derive(Debug, Clone)]
pub struct OAuthCallbackQuery {
    pub code: String,
    pub state: Option<String>,
}

/// A copy of an optional text.
pub fn copy_text(o: &Option<String>) -> (r: Option<String>)
    ensures
        r == *o,
{
    match o {
        Some(s) => Some(s.clone()),
        None => None,
    }
}

/// Whether `r` is the public view of `u`.
pub open spec fn is_view_of(r: UserResponse, u: User) -> bool {
    &&& r.id == u.id
    &&& r.email == u.email
    &&& r.username == u.username
    &&& r.display_name == u.display_name
    &&& r.avatar_url == u.avatar_url
    &&& r.role == u.role
    &&& r.is_verified == u.is_verified
    &&& r.provider == u.provider
    &&& r.locale == u.locale
    &&& r.created_at == u.created_at
}

impl User {
    /// A field-for-field copy.
    pub fn duplicate(&self) -> (r: User)
        ensures
            r == *self,
    {
        User {
            id: self.id,
            email: self.email.clone(),
            username: self.username.clone(),
            password_hash: copy_text(&self.password_hash),
            display_name: copy_text(&self.display_name),
            avatar_url: copy_text(&self.avatar_url),
            role: self.role,
            is_verified: self.is_verified,
            verification_token: copy_text(&self.verification_token),
            verification_expires_at: self.verification_expires_at,
            reset_token: copy_text(&self.reset_token),
            reset_expires_at: self.reset_expires_at,
            provider: self.provider.clone(),
            provider_id: copy_text(&self.provider_id),
            locale: self.locale.clone(),
            created_at: self.created_at,
            updated_at: self.updated_at,
        }
    }

    pub fn is_admin(&self) -> (r: bool)
        ensures
            r == (self.role == UserRole::Admin),
    {
        self.role.is_admin()
    }

    pub fn is_moderator(&self) -> (r: bool)
        ensures
            r == (self.role == UserRole::Moderator),
    {
        self.role.is_moderator()
    }

    pub fn is_user(&self) -> (r: bool)
        ensures
            r == (self.role == UserRole::User),
    {
        self.role.is_user()
    }

    pub fn can_moderate(&self) -> (r: bool)
        ensures
            r == (self.role.rank() >= UserRole::Moderator.rank()),
    {
        self.role.can_moderate()
    }

    pub fn can_admin(&self) -> (r: bool)
        ensures
            r == (self.role.rank() >= UserRole::Admin.rank()),
    {
        self.role.can_admin()
    }

    pub fn has_permission(&self, required_role: &UserRole) -> (r: bool)
        ensures
            r == (self.role.rank() >= required_role.rank()),
    {
        self.role.has_permission(required_role)
    }
}

impl From<User> for UserResponse {
    fn from(user: User) -> (r: UserResponse) {
        UserResponse {
            id: user.id,
            email: user.email,
            username: user.username,
            display_name: user.display_name,
            avatar_url: user.avatar_url,
            role: user.role,
            is_verified: user.is_verified,
            provider: user.provider,
            locale: user.locale,
            created_at: user.created_at,
        }
    }
}

impl vstd::std_specs::convert::FromSpecImpl<User> for UserResponse {
    open spec fn obeys_from_spec() -> bool {
        true
    }

    open spec fn from_spec(user: User) -> UserResponse {
        UserResponse {
            id: user.id,
            email: user.email,
            username: user.username,
            display_name: user.display_name,
            avatar_url: user.avatar_url,
            role: user.role,
            is_verified: user.is_verified,
            provider: user.provider,
            locale: user.locale,
            created_at: user.created_at,
        }
    }
}

} // verus!
