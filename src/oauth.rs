use vstd::prelude::*;
use crate::config::Config;
use crate::error::AppError;
use crate::store::{has_email, holds_identity, linked, reconcile_outcome, user_with_email, UserService};
use crate::token::{issued, JwtService, LATEST_TIME};
use crate::user::{copy_text, is_view_of, AuthResponse, User, UserResponse};

verus! {

/// The profile Google's userinfo endpoint returns.
#[derive(Debug, Clone)]
pub struct GoogleUserInfo {
    pub id: String,
    pub email: String,
    pub name: Option<String>,
    pub picture: Option<String>,
    pub given_name: Option<String>,
    pub family_name: Option<String>,
}

/// The profile Discord's current-user endpoint returns.
#[derive(Debug, Clone)]
pub struct DiscordUserInfo {
    pub id: String,
    pub username: String,
    pub discriminator: String,
    pub email: Option<String>,
    pub avatar: Option<String>,
    pub global_name: Option<String>,
}

/// A provider profile in the one shape the reconciliation works on.
#[derive(Debug, Clone)]
pub struct ExternalIdentity {
    pub email: String,
    pub username: String,
    pub display_name: Option<String>,
    pub avatar_url: Option<String>,
    pub provider_id: String,
}

/// The OAuth providers the service signs users in with.
#[derive(Debug, Clone, Copy, PartialEq, Eq, Structural)]
pub enum Provider {
    Google,
    Discord,
}

pub open spec fn provider_name(p: Provider) -> Seq<char> {
    match p {
        Provider::Google => "google"@,
        Provider::Discord => "discord"@,
    }
}

pub open spec fn first_scope(p: Provider) -> Seq<char> {
    match p {
        Provider::Google => "email"@,
        Provider::Discord => "identify"@,
    }
}

pub open spec fn second_scope(p: Provider) -> Seq<char> {
    match p {
        Provider::Google => "profile"@,
        Provider::Discord => "email"@,
    }
}

pub open spec fn authorize_endpoint(p: Provider) -> Seq<char> {
    match p {
        Provider::Google => "https://accounts.google.com/o/oauth2/v2/auth"@,
        Provider::Discord => "https://discord.com/api/oauth2/authorize"@,
    }
}

pub open spec fn token_endpoint(p: Provider) -> Seq<char> {
    match p {
        Provider::Google => "https://www.googleapis.com/oauth2/v4/token"@,
        Provider::Discord => "https://discord.com/api/oauth2/token"@,
    }
}

pub open spec fn profile_endpoint(p: Provider) -> Seq<char> {
    match p {
        Provider::Google => "https://www.googleapis.com/oauth2/v2/userinfo"@,
        Provider::Discord => "https://discord.com/api/users/@me"@,
    }
}

impl Provider {
    pub fn name(&self) -> (r: &'static str)
        ensures
            r@ == provider_name(*self),
    {
        match self {
            Provider::Google => "google",
            Provider::Discord => "discord",
        }
    }

    /// The scopes the authorization request asks for.
    pub fn scopes(&self) -> (r: Vec<String>)
        ensures
            r@.len() == 2,
            r@[0]@ == first_scope(*self),
            r@[1]@ == second_scope(*self),
    {
        match self {
            Provider::Google => vec![String::from_str("email"), String::from_str("profile")],
            Provider::Discord => vec![String::from_str("identify"), String::from_str("email")],
        }
    }

    pub fn auth_url(&self) -> (r: &'static str)
        ensures
            r@ == authorize_endpoint(*self),
    {
        match self {
            Provider::Google => "https://accounts.google.com/o/oauth2/v2/auth",
            Provider::Discord => "https://discord.com/api/oauth2/authorize",
        }
    }

    pub fn token_url(&self) -> (r: &'static str)
        ensures
            r@ == token_endpoint(*self),
    {
        match self {
            Provider::Google => "https://www.googleapis.com/oauth2/v4/token",
            Provider::Discord => "https://discord.com/api/oauth2/token",
        }
    }

    pub fn profile_url(&self) -> (r: &'static str)
        ensures
            r@ == profile_endpoint(*self),
    {
        match self {
            Provider::Google => "https://www.googleapis.com/oauth2/v2/userinfo",
            Provider::Discord => "https://discord.com/api/users/@me",
        }
    }

    /// Where the provider sends the user back: the backend's callback route
    /// for this provider.
    pub fn redirect_uri(&self, backend_url: &str) -> (r: String)
        ensures
            r@ == backend_url@ + "/api/v1/auth/"@ + provider_name(*self) + "/callback"@,
    {
        let mut s = backend_url.to_owned();
        s.append("/api/v1/auth/");
        s.append(self.name());
        s.append("/callback");
        s
    }
}

/// The username made up for a profile without a name: `user_` and the first
/// eight characters of the provider's id.
pub open spec fn fallback_username(provider_id: Seq<char>) -> Seq<char> {
    "user_"@ + provider_id.subrange(0, if provider_id.len() < 8 { provider_id.len() as int } else { 8 })
}

pub fn fallback_name(provider_id: &str) -> (r: String)
    ensures
        r@ == fallback_username(provider_id@),
{
    let n = provider_id.unicode_len();
    let end = if n < 8 {
        n
    } else {
        8
    };
    let mut s = String::from_str("user_");
    s.append(provider_id.substring_char(0, end));
    s
}

/// The avatar URL Discord's CDN serves for a user id and avatar hash.
pub open spec fn discord_avatar(id: Seq<char>, avatar: Seq<char>) -> Seq<char> {
    "https://cdn.discordapp.com/avatars/"@ + id + "/"@ + avatar + ".png"@
}

/// Google's profile as an identity: the username is the given name, else the
/// full name, else made up from the id.
pub open spec fn google_identity_of(r: ExternalIdentity, info: GoogleUserInfo) -> bool {
    &&& r.email == info.email
    &&& r.provider_id == info.id
    &&& r.username@ == (match (info.given_name, info.name) {
        (Some(g), _) => g@,
        (None, Some(n)) => n@,
        (None, None) => fallback_username(info.id@),
    })
    &&& r.display_name == info.name
    &&& r.avatar_url == info.picture
}

pub fn google_identity(info: GoogleUserInfo) -> (r: ExternalIdentity)
    ensures
        google_identity_of(r, info),
{
    let username = match (&info.given_name, &info.name) {
        (Some(g), _) => g.clone(),
        (None, Some(n)) => n.clone(),
        (None, None) => fallback_name(info.id.as_str()),
    };
    ExternalIdentity {
        email: info.email,
        username,
        display_name: info.name,
        avatar_url: info.picture,
        provider_id: info.id,
    }
}

/// Discord's profile as an identity; an account without a verified email is
/// refused. The username and display name are the global name, else the
/// account name; the avatar URL is built from the id and avatar hash.
pub open spec fn discord_identity_of(x: ExternalIdentity, info: DiscordUserInfo) -> bool {
    &&& Some(x.email) == info.email
    &&& x.provider_id == info.id
    &&& x.username@ == (match info.global_name {
        Some(g) => g@,
        None => info.username@,
    })
    &&& x.display_name matches Some(d) && d@ == x.username@
    &&& match info.avatar {
        Some(a) => x.avatar_url matches Some(u) && u@ == discord_avatar(info.id@, a@),
        None => x.avatar_url is None,
    }
}

/// Whether `e` is the refusal of a Discord account without a verified email.
pub open spec fn is_missing_email(e: AppError) -> bool {
    e matches AppError::OAuth(m) && m@ == "Discord account must have a verified email"@
}

pub fn discord_identity(info: DiscordUserInfo) -> (r: Result<ExternalIdentity, AppError>)
    ensures
        info.email is None <==> r is Err,
        r matches Err(e) ==> is_missing_email(e),
        r matches Ok(x) ==> discord_identity_of(x, info),
{
    let email = match info.email {
        Some(e) => e,
        None => return Err(AppError::OAuth(String::from_str("Discord account must have a verified email"))),
    };
    let username = match &info.global_name {
        Some(g) => g.clone(),
        None => info.username.clone(),
    };
    let avatar_url = match &info.avatar {
        Some(a) => {
            let mut s = String::from_str("https://cdn.discordapp.com/avatars/");
            s.append(info.id.as_str());
            s.append("/");
            s.append(a.as_str());
            s.append(".png");
            Some(s)
        },
        None => None,
    };
    let display_name = Some(username.clone());
    Ok(ExternalIdentity { email, username, display_name, avatar_url, provider_id: info.id })
}

/// What signing in with a provider identity gives: the reconciled user and a
/// token issued for it.
pub open spec fn oauth_outcome(
    key: Seq<char>,
    old: UserService,
    new: UserService,
    identity: ExternalIdentity,
    provider: Provider,
    now: int,
    r: Result<AuthResponse, AppError>,
) -> bool {
    exists|found: Result<User, AppError>|
        {
            &&& #[trigger] reconcile_outcome(
                old,
                new,
                identity.email@,
                identity.username@,
                identity.display_name,
                identity.avatar_url,
                provider_name(provider),
                identity.provider_id@,
                now,
                found,
            )
            &&& match found {
                Err(e) => r == Err::<AuthResponse, AppError>(e),
                Ok(u) => r matches Ok(a) && is_view_of(a.user, u) && issued(a.token@, key, u.id, u.email@, now),
            }
        }
}

/// The OAuth linking service: turns provider profiles into signed-in users.
pub struct OAuthService {
    jwt: JwtService,
    backend_url: String,
}

impl OAuthService {
    /// The secret tokens are signed with.
    pub closed spec fn key(&self) -> Seq<char> {
        self.jwt.key()
    }

    pub closed spec fn backend(&self) -> Seq<char> {
        self.backend_url@
    }

    pub fn new(config: &Config) -> (r: OAuthService)
        ensures
            r.key() == config.jwt_secret@,
            r.backend() == config.backend_url@,
    {
        OAuthService { jwt: JwtService::new(config.jwt_secret.as_str()), backend_url: config.backend_url.clone() }
    }

    /// The callback address registered with a provider.
    pub fn redirect_uri(&self, provider: Provider) -> (r: String)
        ensures
            r@ == self.backend() + "/api/v1/auth/"@ + provider_name(provider) + "/callback"@,
    {
        provider.redirect_uri(self.backend_url.as_str())
    }

    /// Reconciles an identity of `provider` with the repository and issues a
    /// token for the resulting user.
    pub fn sign_in(&self, users: &mut UserService, identity: ExternalIdentity, provider: Provider, now: i64) -> (r:
        Result<AuthResponse, AppError>)
        requires
            old(users).wf(),
            0 <= now <= LATEST_TIME,
        ensures
            final(users).wf(),
            oauth_outcome(self.key(), *old(users), *final(users), identity, provider, now as int, r),
    {
        let ghost id = identity;
        let found = users.find_or_create_oauth_user(
            identity.email.as_str(),
            identity.username.as_str(),
            identity.display_name,
            identity.avatar_url,
            provider.name(),
            identity.provider_id.as_str(),
            now,
        );
        let ghost g = found;
        let r = match found {
            Err(e) => Err(e),
            Ok(u) => match self.jwt.generate_token(u.id, u.email.as_str(), now) {
                Ok(token) => Ok(AuthResponse { user: UserResponse::from(u), token }),
                Err(e) => Err(e),
            },
        };
        assert(reconcile_outcome(
            *old(users),
            *users,
            id.email@,
            id.username@,
            id.display_name,
            id.avatar_url,
            provider_name(provider),
            id.provider_id@,
            now as int,
            g,
        ));
        r
    }

    /// Signs in with a Google profile fetched for the authorization code.
    pub fn handle_google_callback(&self, users: &mut UserService, info: GoogleUserInfo, now: i64) -> (r: Result<
        AuthResponse,
        AppError,
    >)
        requires
            old(users).wf(),
            0 <= now <= LATEST_TIME,
        ensures
            final(users).wf(),
            exists|x: ExternalIdentity|
                google_identity_of(x, info) && #[trigger] oauth_outcome(
                    self.key(),
                    *old(users),
                    *final(users),
                    x,
                    Provider::Google,
                    now as int,
                    r,
                ),
    {
        let identity = google_identity(info);
        let ghost x = identity;
        let r = self.sign_in(users, identity, Provider::Google, now);
        assert(google_identity_of(x, info));
        r
    }

    /// Signs in with a Discord profile fetched for the authorization code; a
    /// profile without a verified email is refused with an `OAuth` error.
    pub fn handle_discord_callback(&self, users: &mut UserService, info: DiscordUserInfo, now: i64) -> (r: Result<
        AuthResponse,
        AppError,
    >)
        requires
            old(users).wf(),
            0 <= now <= LATEST_TIME,
        ensures
            final(users).wf(),
            info.email is None ==> (r matches Err(e) && is_missing_email(e)) && final(users).users() == old(users).users()
                && final(users).next_id() == old(users).next_id(),
            info.email is Some ==> exists|x: ExternalIdentity|
                discord_identity_of(x, info) && #[trigger] oauth_outcome(
                    self.key(),
                    *old(users),
                    *final(users),
                    x,
                    Provider::Discord,
                    now as int,
                    r,
                ),
    {
        let identity = match discord_identity(info) {
            Ok(x) => x,
            Err(e) => return Err(e),
        };
        let ghost x = identity;
        let r = self.sign_in(users, identity, Provider::Discord, now);
        assert(discord_identity_of(x, info));
        r
    }
}

/// Signing in through a provider with the email of a local account links
/// that account: it takes the provider identity, becomes verified, and keeps
/// the display name and avatar it had. Signing in again with an identity a
/// user already holds returns that user and changes nothing.
pub proof fn lemma_oauth_linking(
    key: Seq<char>,
    old: UserService,
    new: UserService,
    identity: ExternalIdentity,
    provider: Provider,
    now: int,
    r: Result<AuthResponse, AppError>,
)
    requires
        old.wf(),
        new.wf(),
        oauth_outcome(key, old, new, identity, provider, now, r),
    ensures
        match user_with_email(old.users(), identity.email@) {
            Some(u) => if holds_identity(u, provider_name(provider), identity.provider_id@) {
                &&& new.users() == old.users()
                &&& new.next_id() == old.next_id()
                &&& r matches Ok(a) ==> is_view_of(a.user, u)
            } else if u.provider@ == "local"@ {
                exists|n: User|
                    {
                        &&& linked(
                            n,
                            u,
                            provider_name(provider),
                            identity.provider_id@,
                            identity.display_name,
                            identity.avatar_url,
                            now,
                        )
                        &&& #[trigger] user_with_email(new.users(), identity.email@) == Some(n)
                        &&& n.is_verified
                        &&& (u.display_name is Some ==> n.display_name == u.display_name)
                        &&& (u.avatar_url is Some ==> n.avatar_url == u.avatar_url)
                        &&& r matches Ok(a) ==> is_view_of(a.user, n)
                    }
            } else {
                true
            },
            None => true,
        },
{
    let found = choose|found: Result<User, AppError>|
        #[trigger] reconcile_outcome(
            old,
            new,
            identity.email@,
            identity.username@,
            identity.display_name,
            identity.avatar_url,
            provider_name(provider),
            identity.provider_id@,
            now,
            found,
        ) && match found {
            Err(e) => r == Err::<AuthResponse, AppError>(e),
            Ok(u) => r matches Ok(a) && is_view_of(a.user, u) && issued(a.token@, key, u.id, u.email@, now),
        };
    if has_email(old.users(), identity.email@) {
        let users = old.users();
        let u = user_with_email(users, identity.email@)->Some_0;
        if !holds_identity(u, provider_name(provider), identity.provider_id@) && u.provider@ == "local"@ {
            let k = choose|k: int| 0 <= k < users.len() && (#[trigger] users[k]).email@ == identity.email@;
            let n = found->Ok_0;
            assert(new.users()[k] == n);
            assert(has_email(new.users(), identity.email@));
            let m = choose|m: int|
                0 <= m < new.users().len() && (#[trigger] new.users()[m]).email@ == identity.email@;
            assert(m == k);
            assert(user_with_email(new.users(), identity.email@) == Some(n));
        }
    }
}

} // verus!
