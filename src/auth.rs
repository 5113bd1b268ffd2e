use vstd::prelude::*;
use crate::config::Config;
use crate::credentials::{bcrypt_verdict, is_secret, verify_password};
use crate::error::{is_authentication, is_conflict, is_not_found, is_validation, AppError};
use crate::mail::{MailKind, MailRequest};
use crate::store::{
    has_email, has_live_reset, has_live_verification, has_username, live_reset, live_verification,
    marked_verified, new_local_user, reset_consumed, user_with_email, user_with_id, with_reset,
    with_verification, UserService, RESET_LIFETIME, VERIFICATION_LIFETIME,
};
use crate::token::{issued, jwt_claims, token_accepted, uuid_value, JwtService, LATEST_TIME};
use crate::user::{is_view_of, AuthResponse, LoginRequest, RegisterRequest, User, UserResponse};
use crate::validation::{login_problems, login_valid, register_problems, register_valid, validate_login, validate_register};

verus! {

/// The repository is left as it was.
pub open spec fn unchanged(old: UserService, new: UserService) -> bool {
    new.users() == old.users() && new.next_id() == old.next_id()
}

/// `m` asks `u` to confirm its address with its current verification secret.
pub open spec fn verification_mail_for(m: MailRequest, u: User) -> bool {
    &&& m.kind == MailKind::Verification
    &&& m.to == u.email
    &&& m.username == u.username
    &&& u.verification_token == Some(m.token)
}

/// `m` sends `u` a password reset link.
pub open spec fn reset_mail_for(m: MailRequest, u: User) -> bool {
    &&& m.kind == MailKind::PasswordReset
    &&& m.to == u.email
    &&& m.username == u.username
    &&& is_secret(m.token@)
}

/// What registering `request` at `now` may give, and what it leaves behind.
pub open spec fn register_outcome(
    old: UserService,
    new: UserService,
    request: RegisterRequest,
    now: int,
    r: Result<(UserResponse, MailRequest), AppError>,
) -> bool {
    if !register_valid(request) {
        r matches Err(e) && is_validation(e, register_problems(request)) && unchanged(old, new)
    } else if has_email(old.users(), request.email@) {
        r matches Err(e) && is_conflict(e, "Email already exists"@) && unchanged(old, new)
    } else if has_username(old.users(), request.username@) {
        r matches Err(e) && is_conflict(e, "Username already exists"@) && unchanged(old, new)
    } else {
        match r {
            Ok((view, mail)) => {
                let u = new.users().last();
                &&& new.users() == old.users().push(u)
                &&& new.next_id() == old.next_id() + 1
                &&& new_local_user(u, old.next_id(), request, now)
                &&& is_view_of(view, u)
                &&& verification_mail_for(mail, u)
            },
            Err(e) => (e is Bcrypt || (e is Internal && !old.has_room())) && unchanged(old, new),
        }
    }
}

/// Whether `u` is a local account whose hash is well formed and matches
/// `password`.
pub open spec fn password_accepted(u: User, password: Seq<char>) -> bool {
    &&& u.provider@ == "local"@
    &&& u.password_hash matches Some(h) && bcrypt_verdict(password, h@) == Some(true)
}

/// Whether `u` is a local account whose stored hash bcrypt refuses.
pub open spec fn hash_malformed(u: User, password: Seq<char>) -> bool {
    &&& u.provider@ == "local"@
    &&& u.password_hash matches Some(h) && bcrypt_verdict(password, h@) is None
}

/// What signing in with `request` at `now` gives.
pub open spec fn login_outcome(
    key: Seq<char>,
    users: Seq<User>,
    request: LoginRequest,
    now: int,
    r: Result<AuthResponse, AppError>,
) -> bool {
    if !login_valid(request) {
        r matches Err(e) && is_validation(e, login_problems(request))
    } else {
        match user_with_email(users, request.email@) {
            None => r matches Err(e) && is_authentication(e, "invalid-credentials"@),
            Some(u) => if hash_malformed(u, request.password@) {
                r matches Err(e) && e is Bcrypt
            } else if !password_accepted(u, request.password@) {
                r matches Err(e) && is_authentication(e, "invalid-credentials"@)
            } else if !u.is_verified {
                r matches Err(e) && is_authentication(e, "account-not-verified"@)
            } else {
                r matches Ok(a) && is_view_of(a.user, u) && issued(a.token@, key, u.id, u.email@, now)
            },
        }
    }
}

/// What confirming an address with `token` at `now` gives: the holder of the
/// live secret is verified and its secret cleared.
pub open spec fn verify_email_outcome(
    old: UserService,
    new: UserService,
    token: Seq<char>,
    now: int,
    r: Result<(), AppError>,
) -> bool {
    if !has_live_verification(old.users(), token, now) {
        r matches Err(e) && is_authentication(e, "invalid-token"@) && unchanged(old, new)
    } else {
        &&& r is Ok
        &&& new.next_id() == old.next_id()
        &&& new.users().len() == old.users().len()
        &&& exists|k: int|
            0 <= k < old.users().len() && live_verification(#[trigger] old.users()[k], token, now) && forall|i: int|
                0 <= i < old.users().len() ==> if old.users()[i].id == old.users()[k].id {
                    marked_verified(#[trigger] new.users()[i], old.users()[i], now)
                } else {
                    new.users()[i] == old.users()[i]
                }
    }
}

/// What asking for another verification message for `email` gives.
pub open spec fn resend_outcome(
    old: UserService,
    new: UserService,
    email: Seq<char>,
    now: int,
    r: Result<MailRequest, AppError>,
) -> bool {
    match user_with_email(old.users(), email) {
        None => r matches Err(e) && is_not_found(e, "user-not-found"@) && unchanged(old, new),
        Some(u) => if u.is_verified {
            r matches Err(e) && is_validation(e, "Email is already verified"@) && unchanged(old, new)
        } else {
            &&& r matches Ok(m) && m.kind == MailKind::Verification && m.to == u.email && m.username == u.username
            &&& is_secret(r->Ok_0.token@)
            &&& new.next_id() == old.next_id()
            &&& new.users().len() == old.users().len()
            &&& forall|i: int|
                0 <= i < old.users().len() ==> if old.users()[i].id == u.id {
                    with_verification(
                        #[trigger] new.users()[i],
                        old.users()[i],
                        r->Ok_0.token,
                        (now + VERIFICATION_LIFETIME) as i64,
                        now,
                    )
                } else {
                    new.users()[i] == old.users()[i]
                }
        },
    }
}

/// What asking for a password reset for `email` gives: nothing for an unknown
/// email, a refusal for an account of a provider, a reset secret live for an
/// hour for a local account.
pub open spec fn forgot_outcome(
    old: UserService,
    new: UserService,
    email: Seq<char>,
    now: int,
    r: Result<Option<MailRequest>, AppError>,
) -> bool {
    match user_with_email(old.users(), email) {
        None => r == Ok::<Option<MailRequest>, AppError>(None) && unchanged(old, new),
        Some(u) => if u.provider@ != "local"@ {
            r matches Err(e) && is_validation(e, "oauth-password-reset-not-allowed"@) && unchanged(old, new)
        } else {
            &&& r matches Ok(Some(m)) && reset_mail_for(m, u)
            &&& new.next_id() == old.next_id()
            &&& new.users().len() == old.users().len()
            &&& forall|i: int|
                0 <= i < old.users().len() ==> if old.users()[i].email@ == email {
                    with_reset(
                        #[trigger] new.users()[i],
                        old.users()[i],
                        r->Ok_0->Some_0.token,
                        (now + RESET_LIFETIME) as i64,
                        now,
                    )
                } else {
                    new.users()[i] == old.users()[i]
                }
        },
    }
}

/// What setting a new password with a reset secret gives.
pub open spec fn reset_outcome(
    old: UserService,
    new: UserService,
    cost: u32,
    token: Seq<char>,
    new_password: Seq<char>,
    now: int,
    r: Result<(), AppError>,
) -> bool {
    if new_password.len() < 8 {
        r matches Err(e) && is_validation(e, "password-too-short"@) && unchanged(old, new)
    } else {
        match r {
            Err(e) => if e is Bcrypt {
                unchanged(old, new)
            } else {
                is_authentication(e, "invalid-token"@) && !has_live_reset(old.users(), token, now) && unchanged(old, new)
            },
            Ok(()) => {
                &&& has_live_reset(old.users(), token, now)
                &&& 4 <= cost <= 31
                &&& new.next_id() == old.next_id()
                &&& new.users().len() == old.users().len()
                &&& forall|i: int|
                    0 <= i < old.users().len() ==> if live_reset(old.users()[i], token, now) {
                        &&& new.users()[i].password_hash matches Some(h) && bcrypt_verdict(new_password, h@) == Some(true)
                        &&& reset_consumed(
                            #[trigger] new.users()[i],
                            old.users()[i],
                            new.users()[i].password_hash->Some_0,
                            now,
                        )
                    } else {
                        new.users()[i] == old.users()[i]
                    }
            },
        }
    }
}

/// The user id a token carries, if it carries a well-formed one.
pub open spec fn token_user_id(token: Seq<char>, key: Seq<char>) -> Option<u128> {
    match jwt_claims(token, key) {
        Some((s, u, e, i, x)) => uuid_value(u),
        None => None,
    }
}

/// What resolving the session of a bearer token gives.
pub open spec fn session_outcome(
    key: Seq<char>,
    users: Seq<User>,
    token: Seq<char>,
    now: int,
    r: Result<User, AppError>,
) -> bool {
    if !token_accepted(token, key, now) {
        r matches Err(e) && is_authentication(e, "invalid-token"@)
    } else {
        match user_with_id(users, token_user_id(token, key)->Some_0) {
            Some(u) => r == Ok::<User, AppError>(u),
            None => r matches Err(e) && is_authentication(e, "User not found"@),
        }
    }
}

/// The token of an `Authorization` header of the form `Bearer <token>`.
pub open spec fn bearer_of(header: Seq<char>) -> Option<Seq<char>> {
    if header.len() >= 7 && header.subrange(0, 7) == "Bearer "@ {
        Some(header.subrange(7, header.len() as int))
    } else {
        None
    }
}

/// Reads the token out of an `Authorization` header value.
pub fn bearer_token(header: &str) -> (r: Option<&str>)
    ensures
        match bearer_of(header@) {
            Some(t) => r matches Some(x) && x@ == t,
            None => r is None,
        },
{
    let n = header.unicode_len();
    if n < 7 {
        return None;
    }
    let prefix = header.substring_char(0, 7);
    if prefix.to_owned() == String::from_str("Bearer ") {
        Some(header.substring_char(7, n))
    } else {
        None
    }
}

fn authentication_error(msg: &str) -> (e: AppError)
    ensures
        is_authentication(e, msg@),
{
    AppError::Authentication(msg.to_owned())
}

/// The identity service: registration, sign-in, address verification,
/// password reset and session resolution over a user repository.
pub struct AuthService {
    jwt: JwtService,
    frontend_url: String,
    bcrypt_cost: u32,
}

impl AuthService {
    /// The secret tokens are signed with.
    pub closed spec fn key(&self) -> Seq<char> {
        self.jwt.key()
    }

    /// The work factor passwords are hashed with.
    pub closed spec fn cost(&self) -> u32 {
        self.bcrypt_cost
    }

    /// The base URL of the front end that messages link to.
    pub closed spec fn frontend(&self) -> Seq<char> {
        self.frontend_url@
    }

    pub fn new(config: &Config, bcrypt_cost: u32) -> (r: AuthService)
        ensures
            r.key() == config.jwt_secret@,
            r.cost() == bcrypt_cost,
            r.frontend() == config.frontend_url@,
    {
        AuthService {
            jwt: JwtService::new(config.jwt_secret.as_str()),
            frontend_url: config.frontend_url.clone(),
            bcrypt_cost,
        }
    }

    pub fn frontend_url(&self) -> (r: String)
        ensures
            r@ == self.frontend(),
    {
        self.frontend_url.clone()
    }

    /// Registers a local account, unverified, with a verification secret
    /// live for 24 hours, and returns its public view with the message that
    /// carries the secret.
    pub fn register(&self, users: &mut UserService, request: RegisterRequest, now: i64) -> (r: Result<
        (UserResponse, MailRequest),
        AppError,
    >)
        requires
            old(users).wf(),
            0 <= now <= LATEST_TIME,
        ensures
            final(users).wf(),
            register_outcome(*old(users), *final(users), request, now as int, r),
    {
        match validate_register(&request) {
            Ok(()) => {},
            Err(e) => return Err(e),
        }
        let ghost req = request;
        let u = match users.create_user(request, self.bcrypt_cost, now) {
            Ok(u) => u,
            Err(e) => return Err(e),
        };
        assert(users.users().last() == u);
        let token = match &u.verification_token {
            Some(t) => t.clone(),
            None => String::new(),
        };
        let mail = MailRequest {
            kind: MailKind::Verification,
            to: u.email.clone(),
            username: u.username.clone(),
            token,
        };
        Ok((UserResponse::from(u), mail))
    }

    /// Signs in with local credentials. Every failure to match credentials
    /// gives the same `invalid-credentials` message; a matching but
    /// unverified account gives `account-not-verified`.
    pub fn login(&self, users: &UserService, request: LoginRequest, now: i64) -> (r: Result<AuthResponse, AppError>)
        requires
            users.wf(),
            0 <= now <= LATEST_TIME,
        ensures
            login_outcome(self.key(), users.users(), request, now as int, r),
    {
        match validate_login(&request) {
            Ok(()) => {},
            Err(e) => return Err(e),
        }
        let user = match users.find_by_email(request.email.as_str()) {
            Some(u) => u,
            None => return Err(authentication_error("invalid-credentials")),
        };
        if user.provider != String::from_str("local") {
            return Err(authentication_error("invalid-credentials"));
        }
        let matched = match &user.password_hash {
            Some(h) => match verify_password(request.password.as_str(), h.as_str()) {
                Ok(b) => b,
                Err(e) => return Err(e),
            },
            None => false,
        };
        if !matched {
            return Err(authentication_error("invalid-credentials"));
        }
        if !user.is_verified {
            return Err(authentication_error("account-not-verified"));
        }
        let token = match self.jwt.generate_token(user.id, user.email.as_str(), now) {
            Ok(t) => t,
            Err(e) => return Err(e),
        };
        Ok(AuthResponse { user: UserResponse::from(user), token })
    }

    /// Confirms an address with a live verification secret, which is then
    /// cleared.
    #[verifier::rlimit(60)]
    pub fn verify_email(&self, users: &mut UserService, token: &str, now: i64) -> (r: Result<(), AppError>)
        requires
            old(users).wf(),
        ensures
            final(users).wf(),
            verify_email_outcome(*old(users), *final(users), token@, now as int, r),
    {
        let ghost before = users.users();
        match users.find_by_verification_token(token, now) {
            None => Err(authentication_error("invalid-token")),
            Some(u) => {
                let ghost k = choose|k: int|
                    0 <= k < before.len() && #[trigger] before[k] == u && live_verification(u, token@, now as int);
                users.verify_email(u.id, now);
                proof {
                    let after = users.users();
                    assert(live_verification(before[k], token@, now as int));
                    assert forall|i: int| 0 <= i < before.len() implies if before[i].id == before[k].id {
                        marked_verified(#[trigger] after[i], before[i], now as int)
                    } else {
                        after[i] == before[i]
                    } by {}
                }
                Ok(())
            },
        }
    }

    /// Sends another verification secret to an unverified account.
    pub fn resend_verification(&self, users: &mut UserService, email: &str, now: i64) -> (r: Result<
        MailRequest,
        AppError,
    >)
        requires
            old(users).wf(),
            0 <= now <= LATEST_TIME,
        ensures
            final(users).wf(),
            resend_outcome(*old(users), *final(users), email@, now as int, r),
    {
        let user = match users.find_by_email(email) {
            Some(u) => u,
            None => return Err(AppError::NotFound(String::from_str("user-not-found"))),
        };
        if user.is_verified {
            return Err(AppError::Validation(String::from_str("Email is already verified")));
        }
        let token = users.update_verification_token(user.id, now);
        Ok(MailRequest { kind: MailKind::Verification, to: user.email, username: user.username, token })
    }

    /// Starts a password reset: silently nothing for an unknown email, a
    /// refusal for an account of a provider, otherwise a reset secret live for
    /// one hour and the message that carries it.
    pub fn forgot_password(&self, users: &mut UserService, email: &str, now: i64) -> (r: Result<
        Option<MailRequest>,
        AppError,
    >)
        requires
            old(users).wf(),
            0 <= now <= LATEST_TIME,
        ensures
            final(users).wf(),
            forgot_outcome(*old(users), *final(users), email@, now as int, r),
    {
        let user = match users.find_by_email(email) {
            Some(u) => u,
            None => return Ok(None),
        };
        if user.provider != String::from_str("local") {
            return Err(AppError::Validation(String::from_str("oauth-password-reset-not-allowed")));
        }
        match users.create_reset_token(email, now) {
            Some(token) => Ok(
                Some(MailRequest { kind: MailKind::PasswordReset, to: user.email, username: user.username, token }),
            ),
            None => Ok(None),
        }
    }

    /// Sets a new password of at least 8 characters with a live reset secret,
    /// which is then cleared.
    pub fn reset_password(&self, users: &mut UserService, token: &str, new_password: &str, now: i64) -> (r: Result<
        (),
        AppError,
    >)
        requires
            old(users).wf(),
        ensures
            final(users).wf(),
            reset_outcome(*old(users), *final(users), self.cost(), token@, new_password@, now as int, r),
    {
        if new_password.unicode_len() < 8 {
            return Err(AppError::Validation(String::from_str("password-too-short")));
        }
        match users.reset_password(token, new_password, self.bcrypt_cost, now) {
            Ok(true) => Ok(()),
            Ok(false) => Err(authentication_error("invalid-token")),
            Err(e) => Err(e),
        }
    }

    /// Resolves the user a bearer token stands for.
    pub fn verify_token(&self, users: &UserService, token: &str, now: i64) -> (r: Result<User, AppError>)
        requires
            users.wf(),
        ensures
            session_outcome(self.key(), users.users(), token@, now as int, r),
    {
        let claims = match self.jwt.verify_token(token, now) {
            Ok(c) => c,
            Err(e) => return Err(e),
        };
        match users.find_by_id(claims.user_id) {
            Some(u) => Ok(u),
            None => Err(authentication_error("User not found")),
        }
    }

    /// Resolves the user of a request from its `Authorization` header: a
    /// missing header or one without a bearer token is refused, otherwise the
    /// token's session is resolved as `verify_token` does.
    pub fn authenticate(&self, users: &UserService, header: Option<&str>, now: i64) -> (r: Result<User, AppError>)
        requires
            users.wf(),
        ensures
            match header {
                Some(h) => match bearer_of(h@) {
                    Some(t) => session_outcome(self.key(), users.users(), t, now as int, r),
                    None => r matches Err(e) && is_authentication(e, "Missing or invalid authorization header"@),
                },
                None => r matches Err(e) && is_authentication(e, "Missing or invalid authorization header"@),
            },
    {
        let token = match header {
            Some(h) => bearer_token(h),
            None => None,
        };
        match token {
            Some(t) => self.verify_token(users, t, now),
            None => Err(authentication_error("Missing or invalid authorization header")),
        }
    }

    /// Sets a user's preferred locale.
    pub fn update_locale(&self, users: &mut UserService, user_id: u128, locale: &str, now: i64) -> (r: Result<
        UserResponse,
        AppError,
    >)
        requires
            old(users).wf(),
        ensures
            final(users).wf(),
            r matches Ok(v) ==> user_with_id(final(users).users(), user_id) matches Some(u) && is_view_of(v, u),
            r is Err <==> user_with_id(old(users).users(), user_id) is None,
    {
        match users.update_locale(user_id, locale, now) {
            Ok(u) => Ok(UserResponse::from(u)),
            Err(e) => Err(e),
        }
    }
}

/// Registration refuses a taken email and a taken username with a conflict.
/// Otherwise it fails only when hashing does (or no id is left); when it
/// succeeds, the new account is the one with that email, unverified, holding a
/// verification secret that expires 24 hours after registration.
pub proof fn lemma_registration_rules(
    old: UserService,
    new: UserService,
    request: RegisterRequest,
    now: int,
    r: Result<(UserResponse, MailRequest), AppError>,
)
    requires
        old.wf(),
        new.wf(),
        register_valid(request),
        register_outcome(old, new, request, now, r),
    ensures
        has_email(old.users(), request.email@) ==> (r matches Err(e) && e is Conflict),
        has_username(old.users(), request.username@) ==> (r matches Err(e) && e is Conflict),
        !has_email(old.users(), request.email@) && !has_username(old.users(), request.username@) ==> (r is Ok || (
        r matches Err(e) && (e is Bcrypt || (e is Internal && !old.has_room())))),
        r matches Ok((view, mail)) ==> {
            &&& user_with_email(new.users(), request.email@) == Some(new.users().last())
            &&& !new.users().last().is_verified
            &&& !view.is_verified
            &&& new.users().last().verification_token == Some(mail.token)
            &&& new.users().last().verification_expires_at == Some((now + VERIFICATION_LIFETIME) as i64)
        },
{
    if r is Ok {
        let users = new.users();
        let last = users.len() - 1;
        assert(users[last].email@ == request.email@);
        assert(has_email(users, request.email@));
        let j = choose|j: int| 0 <= j < users.len() && (#[trigger] users[j]).email@ == request.email@;
        assert(j == last);
    }
}

/// Sign-in answers an unknown email, an account of a provider, an account
/// without a password and a wrong password with the same single message. It
/// succeeds only for a verified local account whose password matches, with a
/// token that carries that account's id.
pub proof fn lemma_login_single_message(
    key: Seq<char>,
    users: Seq<User>,
    request: LoginRequest,
    now: int,
    r: Result<AuthResponse, AppError>,
)
    requires
        0 <= now <= LATEST_TIME,
        login_valid(request),
        login_outcome(key, users, request, now, r),
    ensures
        (match user_with_email(users, request.email@) {
            None => true,
            Some(u) => u.provider@ != "local"@ || u.password_hash is None || (u.password_hash matches Some(h)
                && bcrypt_verdict(request.password@, h@) == Some(false)),
        }) ==> (r matches Err(e) && is_authentication(e, "invalid-credentials"@)),
        r matches Ok(a) ==> {
            &&& user_with_email(users, request.email@) matches Some(u)
            &&& password_accepted(u, request.password@)
            &&& u.is_verified
            &&& is_view_of(a.user, u)
            &&& token_user_id(a.token@, key) == Some(u.id)
            &&& token_accepted(a.token@, key, now)
        },
{
    if r is Ok {
        let u = user_with_email(users, request.email@)->Some_0;
        crate::token::lemma_token_round_trip(key, u.id, u.email@, now as i64, r->Ok_0.token@, now);
    }
}

/// A verification secret is used once: confirming an address with it
/// succeeds, and confirming again with the same secret is refused, provided
/// no other user holds the same secret.
pub proof fn lemma_verification_single_use(
    s0: UserService,
    s1: UserService,
    s2: UserService,
    token: Seq<char>,
    t1: int,
    t2: int,
    r1: Result<(), AppError>,
    r2: Result<(), AppError>,
)
    requires
        has_live_verification(s0.users(), token, t1),
        forall|i: int, j: int|
            0 <= i < s0.users().len() && 0 <= j < s0.users().len() && holds_verification(#[trigger] s0.users()[i], token)
                && holds_verification(#[trigger] s0.users()[j], token) ==> i == j,
        verify_email_outcome(s0, s1, token, t1, r1),
        verify_email_outcome(s1, s2, token, t2, r2),
    ensures
        r1 is Ok,
        r2 matches Err(e) && is_authentication(e, "invalid-token"@),
{
    let k = choose|k: int|
        0 <= k < s0.users().len() && live_verification(#[trigger] s0.users()[k], token, t1) && forall|i: int|
            0 <= i < s0.users().len() ==> if s0.users()[i].id == s0.users()[k].id {
                marked_verified(#[trigger] s1.users()[i], s0.users()[i], t1)
            } else {
                s1.users()[i] == s0.users()[i]
            };
    assert forall|i: int| 0 <= i < s1.users().len() implies !live_verification(#[trigger] s1.users()[i], token, t2) by {
        if s0.users()[i].id == s0.users()[k].id {
            assert(marked_verified(s1.users()[i], s0.users()[i], t1));
        } else {
            assert(s1.users()[i] == s0.users()[i]);
            if holds_verification(s0.users()[i], token) {
                assert(holds_verification(s0.users()[k], token));
            }
        }
    }
}

/// Whether `u` holds `token` as its verification secret, live or not.
pub open spec fn holds_verification(u: User, token: Seq<char>) -> bool {
    u.verification_token matches Some(t) && t@ == token
}

/// Whether `u` holds `token` as its reset secret, live or not.
pub open spec fn holds_reset(u: User, token: Seq<char>) -> bool {
    u.reset_token matches Some(t) && t@ == token
}

/// Asking for a password reset for an unknown email reports success, sends
/// nothing and changes nothing.
pub proof fn lemma_forgot_unknown_email(
    s0: UserService,
    s1: UserService,
    email: Seq<char>,
    now: int,
    r: Result<Option<MailRequest>, AppError>,
)
    requires
        !has_email(s0.users(), email),
        forgot_outcome(s0, s1, email, now, r),
    ensures
        r == Ok::<Option<MailRequest>, AppError>(None),
        unchanged(s0, s1),
{
}

/// The secret a password reset sends to a local account sets a new password
/// at most once, and only within the hour: used within the hour it is
/// accepted (unless hashing fails), used after the hour or a second time it
/// is refused. This holds when no user held that secret before.
pub proof fn lemma_reset_secret_single_use(
    s0: UserService,
    s1: UserService,
    s2: UserService,
    s3: UserService,
    email: Seq<char>,
    cost: u32,
    password: Seq<char>,
    second_password: Seq<char>,
    t0: int,
    t1: int,
    t2: int,
    r0: Result<Option<MailRequest>, AppError>,
    r1: Result<(), AppError>,
    r2: Result<(), AppError>,
)
    requires
        s0.wf(),
        0 <= t0 <= LATEST_TIME,
        forgot_outcome(s0, s1, email, t0, r0),
        r0 matches Ok(Some(m)) && forall|i: int|
            0 <= i < s0.users().len() ==> !holds_reset(#[trigger] s0.users()[i], m.token@),
        password.len() >= 8,
        second_password.len() >= 8,
        reset_outcome(s1, s2, cost, r0->Ok_0->Some_0.token@, password, t1, r1),
        reset_outcome(s2, s3, cost, r0->Ok_0->Some_0.token@, second_password, t2, r2),
    ensures
        has_email(s0.users(), email),
        t1 < t0 + RESET_LIFETIME ==> (r1 is Ok || (r1 matches Err(e) && e is Bcrypt)),
        t1 >= t0 + RESET_LIFETIME ==> (r1 matches Err(e) && (e is Bcrypt || is_authentication(e, "invalid-token"@))),
        r1 is Ok ==> (r2 matches Err(e) && (e is Bcrypt || is_authentication(e, "invalid-token"@))),
{
    let token = r0->Ok_0->Some_0.token;
    assert(has_email(s0.users(), email));
    let u = user_with_email(s0.users(), email)->Some_0;
    assert(u.provider@ == "local"@);
    let k = choose|k: int| 0 <= k < s0.users().len() && (#[trigger] s0.users()[k]).email@ == email;
    assert(s0.users()[k].email@ == email);
    assert(with_reset(s1.users()[k], s0.users()[k], token, (t0 + RESET_LIFETIME) as i64, t0));
    // in s1, only the user at k holds the secret
    assert forall|i: int| 0 <= i < s1.users().len() && holds_reset(#[trigger] s1.users()[i], token@) implies i == k by {
        if s0.users()[i].email@ == email {
            assert(i == k);
        } else {
            assert(s1.users()[i] == s0.users()[i]);
        }
    }
    if t1 < t0 + RESET_LIFETIME {
        assert(live_reset(s1.users()[k], token@, t1));
    }
    if t1 >= t0 + RESET_LIFETIME {
        assert forall|i: int| 0 <= i < s1.users().len() implies !live_reset(#[trigger] s1.users()[i], token@, t1) by {
            if holds_reset(s1.users()[i], token@) {
                assert(i == k);
            }
        }
    }
    if r1 is Ok {
        assert forall|i: int| 0 <= i < s2.users().len() implies !live_reset(#[trigger] s2.users()[i], token@, t2) by {
            if live_reset(s1.users()[i], token@, t1) {
                assert(reset_consumed(s2.users()[i], s1.users()[i], s2.users()[i].password_hash->Some_0, t1));
            } else {
                assert(s2.users()[i] == s1.users()[i]);
                if holds_reset(s1.users()[i], token@) {
                    assert(i == k);
                }
            }
        }
    }
}

} // verus!
