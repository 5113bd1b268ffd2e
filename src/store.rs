use vstd::prelude::*;
use crate::credentials::{bcrypt_verdict, generate_verification_token, hash_password, is_secret};
use crate::error::{is_conflict, AppError};
use crate::role::UserRole;
use crate::user::{copy_text, RegisterRequest, User};

verus! {

/// How long a verification secret stays live: 24 hours, in seconds.
pub const VERIFICATION_LIFETIME: i64 = 86400;

/// How long a reset secret stays live: 1 hour, in seconds.
pub const RESET_LIFETIME: i64 = 3600;

/// No two users share an id, an email or a username.
pub open spec fn distinct_keys(users: Seq<User>) -> bool {
    forall|i: int, j: int|
        0 <= i < users.len() && 0 <= j < users.len() && i != j ==> {
            &&& (#[trigger] users[i]).id != (#[trigger] users[j]).id
            &&& users[i].email@ != users[j].email@
            &&& users[i].username@ != users[j].username@
        }
}

pub open spec fn has_email(users: Seq<User>, email: Seq<char>) -> bool {
    exists|i: int| 0 <= i < users.len() && (#[trigger] users[i]).email@ == email
}

pub open spec fn has_username(users: Seq<User>, username: Seq<char>) -> bool {
    exists|i: int| 0 <= i < users.len() && (#[trigger] users[i]).username@ == username
}

pub open spec fn has_id(users: Seq<User>, id: u128) -> bool {
    exists|i: int| 0 <= i < users.len() && (#[trigger] users[i]).id == id
}

/// The user with the given email, if any.
pub open spec fn user_with_email(users: Seq<User>, email: Seq<char>) -> Option<User> {
    if has_email(users, email) {
        Some(users[choose|i: int| 0 <= i < users.len() && (#[trigger] users[i]).email@ == email])
    } else {
        None
    }
}

/// The user with the given id, if any.
pub open spec fn user_with_id(users: Seq<User>, id: u128) -> Option<User> {
    if has_id(users, id) {
        Some(users[choose|i: int| 0 <= i < users.len() && (#[trigger] users[i]).id == id])
    } else {
        None
    }
}

/// Whether `u` holds `token` as a verification secret that is live at `now`.
pub open spec fn live_verification(u: User, token: Seq<char>, now: int) -> bool {
    &&& u.verification_token matches Some(t) && t@ == token
    &&& u.verification_expires_at matches Some(x) && now < x
}

/// Whether `u` holds `token` as a reset secret that is live at `now`.
pub open spec fn live_reset(u: User, token: Seq<char>, now: int) -> bool {
    &&& u.reset_token matches Some(t) && t@ == token
    &&& u.reset_expires_at matches Some(x) && now < x
}

pub open spec fn has_live_verification(users: Seq<User>, token: Seq<char>, now: int) -> bool {
    exists|i: int| 0 <= i < users.len() && live_verification(#[trigger] users[i], token, now)
}

pub open spec fn has_live_reset(users: Seq<User>, token: Seq<char>, now: int) -> bool {
    exists|i: int| 0 <= i < users.len() && live_reset(#[trigger] users[i], token, now)
}

/// `new` is `old` verified, with its verification pair cleared.
pub open spec fn marked_verified(new: User, old: User, now: int) -> bool {
    new == User {
        is_verified: true,
        verification_token: None,
        verification_expires_at: None,
        updated_at: now as i64,
        ..old
    }
}

/// `new` is `old` holding a new verification pair.
pub open spec fn with_verification(new: User, old: User, token: String, expires_at: i64, now: int) -> bool {
    new == User {
        verification_token: Some(token),
        verification_expires_at: Some(expires_at),
        updated_at: now as i64,
        ..old
    }
}

/// `new` is `old` holding a new reset pair.
pub open spec fn with_reset(new: User, old: User, token: String, expires_at: i64, now: int) -> bool {
    new == User { reset_token: Some(token), reset_expires_at: Some(expires_at), updated_at: now as i64, ..old }
}

/// `new` is `old` with a new password hash and its reset pair cleared.
pub open spec fn reset_consumed(new: User, old: User, password_hash: String, now: int) -> bool {
    new == User {
        password_hash: Some(password_hash),
        reset_token: None,
        reset_expires_at: None,
        updated_at: now as i64,
        ..old
    }
}

/// `new` is `old` linked to a provider identity: provider fields set, verified,
/// and the profile fields filled only where they were empty.
pub open spec fn linked(
    new: User,
    old: User,
    provider: Seq<char>,
    provider_id: Seq<char>,
    display_name: Option<String>,
    avatar_url: Option<String>,
    now: int,
) -> bool {
    &&& new == User {
        provider: new.provider,
        provider_id: new.provider_id,
        is_verified: true,
        display_name: if old.display_name is Some { old.display_name } else { display_name },
        avatar_url: if old.avatar_url is Some { old.avatar_url } else { avatar_url },
        updated_at: now as i64,
        ..old
    }
    &&& new.provider@ == provider
    &&& new.provider_id matches Some(p) && p@ == provider_id
}

/// `new` is `old` with another preferred locale.
pub open spec fn with_locale(new: User, old: User, locale: Seq<char>, now: int) -> bool {
    &&& new == User { locale: new.locale, updated_at: now as i64, ..old }
    &&& new.locale@ == locale
}

/// Whether `u` already holds the identity `provider_id` at `provider`.
pub open spec fn holds_identity(u: User, provider: Seq<char>, provider_id: Seq<char>) -> bool {
    &&& u.provider@ == provider
    &&& u.provider_id matches Some(p) && p@ == provider_id
}

/// `u` is the record that registering `request` creates, whatever its
/// password hash and verification secret.
pub open spec fn local_record(u: User, id: u128, request: RegisterRequest, now: int) -> bool {
    &&& u.id == id
    &&& u.email == request.email
    &&& u.username == request.username
    &&& u.password_hash is Some
    &&& u.display_name == request.display_name
    &&& u.avatar_url is None
    &&& u.role == UserRole::User
    &&& !u.is_verified
    &&& u.verification_token is Some
    &&& u.verification_expires_at == Some((now + VERIFICATION_LIFETIME) as i64)
    &&& u.reset_token is None
    &&& u.reset_expires_at is None
    &&& u.provider@ == "local"@
    &&& u.provider_id is None
    &&& u.locale@ == (match request.locale {
        Some(l) => l@,
        None => "en"@,
    })
    &&& u.created_at == now
    &&& u.updated_at == now
}

/// `u` is the record that registering `request` creates: its hash verifies
/// against the password and its verification secret is well formed.
pub open spec fn new_local_user(u: User, id: u128, request: RegisterRequest, now: int) -> bool {
    &&& local_record(u, id, request, now)
    &&& u.password_hash matches Some(h) && bcrypt_verdict(request.password@, h@) == Some(true)
    &&& u.verification_token matches Some(t) && is_secret(t@)
}

/// `u` is the record that a first sign-in through a provider creates.
pub open spec fn new_oauth_user(
    u: User,
    id: u128,
    email: Seq<char>,
    username: Seq<char>,
    display_name: Option<String>,
    avatar_url: Option<String>,
    provider: Seq<char>,
    provider_id: Seq<char>,
    now: int,
) -> bool {
    &&& u.id == id
    &&& u.email@ == email
    &&& u.username@ == username
    &&& u.password_hash is None
    &&& u.display_name == display_name
    &&& u.avatar_url == avatar_url
    &&& u.role == UserRole::User
    &&& u.is_verified
    &&& u.verification_token is None
    &&& u.verification_expires_at is None
    &&& u.reset_token is None
    &&& u.reset_expires_at is None
    &&& u.provider@ == provider
    &&& u.provider_id matches Some(p) && p@ == provider_id
    &&& u.locale@ == "en"@
    &&& u.created_at == now
    &&& u.updated_at == now
}

/// How the repository reconciles a provider identity with its users: what
/// `find_or_create_oauth_user` returns and leaves behind.
pub open spec fn reconcile_outcome(
    old: UserService,
    new: UserService,
    email: Seq<char>,
    username: Seq<char>,
    display_name: Option<String>,
    avatar_url: Option<String>,
    provider: Seq<char>,
    provider_id: Seq<char>,
    now: int,
    r: Result<User, AppError>,
) -> bool {
    match user_with_email(old.users(), email) {
        Some(u) => if holds_identity(u, provider, provider_id) {
            &&& r == Ok::<User, AppError>(u)
            &&& new.users() == old.users()
            &&& new.next_id() == old.next_id()
        } else if u.provider@ == "local"@ {
            &&& r matches Ok(n) && linked(n, u, provider, provider_id, display_name, avatar_url, now)
            &&& new.next_id() == old.next_id()
            &&& new.users().len() == old.users().len()
            &&& forall|i: int|
                0 <= i < old.users().len() ==> if old.users()[i].id == u.id {
                    #[trigger] new.users()[i] == r->Ok_0
                } else {
                    new.users()[i] == old.users()[i]
                }
        } else {
            &&& r matches Err(e) && is_conflict(e, "Email already exists"@)
            &&& new.users() == old.users()
            &&& new.next_id() == old.next_id()
        },
        None => if has_username(old.users(), username) {
            &&& r matches Err(e) && is_conflict(e, "Username already exists"@)
            &&& new.users() == old.users()
            &&& new.next_id() == old.next_id()
        } else if !old.has_room() {
            &&& r matches Err(e) && e is Internal
            &&& new.users() == old.users()
            &&& new.next_id() == old.next_id()
        } else {
            &&& r matches Ok(n) && new_oauth_user(
                n,
                old.next_id(),
                email,
                username,
                display_name,
                avatar_url,
                provider,
                provider_id,
                now,
            )
            &&& new.users() == old.users().push(r->Ok_0)
            &&& new.next_id() == old.next_id() + 1
        },
    }
}

/// Which users an update applies to.
enum Selector {
    Id(u128),
    Email(String),
    LiveReset(String),
}

/// What an update does to each user it applies to.
enum Change {
    MarkVerified,
    SetVerification(String, i64),
    SetReset(String, i64),
    ConsumeReset(String),
    Link(String, String, Option<String>, Option<String>),
    Locale(String),
}

spec fn selects(sel: Selector, u: User, now: int) -> bool {
    match sel {
        Selector::Id(id) => u.id == id,
        Selector::Email(e) => u.email@ == e@,
        Selector::LiveReset(t) => live_reset(u, t@, now),
    }
}

spec fn applied(ch: Change, new: User, old: User, now: int) -> bool {
    match ch {
        Change::MarkVerified => marked_verified(new, old, now),
        Change::SetVerification(t, x) => with_verification(new, old, t, x, now),
        Change::SetReset(t, x) => with_reset(new, old, t, x, now),
        Change::ConsumeReset(h) => reset_consumed(new, old, h, now),
        Change::Link(p, pid, d, a) => linked(new, old, p@, pid@, d, a, now),
        Change::Locale(l) => with_locale(new, old, l@, now),
    }
}

fn selects_user(sel: &Selector, u: &User, now: i64) -> (r: bool)
    ensures
        r == selects(*sel, *u, now as int),
{
    match sel {
        Selector::Id(id) => u.id == *id,
        Selector::Email(e) => u.email == *e,
        Selector::LiveReset(t) => match (&u.reset_token, u.reset_expires_at) {
            (Some(held), Some(x)) => *held == *t && now < x,
            _ => false,
        },
    }
}

fn apply_change(ch: &Change, u: &User, now: i64) -> (r: User)
    ensures
        applied(*ch, r, *u, now as int),
{
    let mut n = u.duplicate();
    n.updated_at = now;
    match ch {
        Change::MarkVerified => {
            n.is_verified = true;
            n.verification_token = None;
            n.verification_expires_at = None;
        },
        Change::SetVerification(t, x) => {
            n.verification_token = Some(t.clone());
            n.verification_expires_at = Some(*x);
        },
        Change::SetReset(t, x) => {
            n.reset_token = Some(t.clone());
            n.reset_expires_at = Some(*x);
        },
        Change::ConsumeReset(h) => {
            n.password_hash = Some(h.clone());
            n.reset_token = None;
            n.reset_expires_at = None;
        },
        Change::Link(p, pid, d, a) => {
            n.provider = p.clone();
            n.provider_id = Some(pid.clone());
            n.is_verified = true;
            if n.display_name.is_none() {
                n.display_name = copy_text(d);
            }
            if n.avatar_url.is_none() {
                n.avatar_url = copy_text(a);
            }
        },
        Change::Locale(l) => {
            n.locale = l.clone();
        },
    }
    n
}

/// The user repository: every user record, with unique ids, emails and
/// usernames, and the id the next record gets.
pub struct UserService {
    users: Vec<User>,
    next_id: u128,
}

impl UserService {
    /// The records, in order of creation.
    pub closed spec fn users(&self) -> Seq<User> {
        self.users@
    }

    /// The id that the next record gets.
    pub closed spec fn next_id(&self) -> u128 {
        self.next_id
    }

    /// Whether another record can still be given an id.
    pub open spec fn has_room(&self) -> bool {
        self.next_id() < u128::MAX
    }

    pub open spec fn wf(&self) -> bool {
        &&& distinct_keys(self.users())
        &&& forall|i: int| 0 <= i < self.users().len() ==> (#[trigger] self.users()[i]).id < self.next_id()
    }

    /// An empty repository.
    pub fn new() -> (r: UserService)
        ensures
            r.wf(),
            r.users() == Seq::<User>::empty(),
            r.next_id() == 1,
    {
        UserService { users: Vec::new(), next_id: 1 }
    }

    /// The number of records.
    pub fn len(&self) -> (r: usize)
        ensures
            r == self.users().len(),
    {
        self.users.len()
    }

    fn position_of_email(&self, email: &str) -> (r: Option<usize>)
        ensures
            r matches Some(i) ==> i < self.users().len() && self.users()[i as int].email@ == email@,
            r is None ==> !has_email(self.users(), email@),
    {
        let key = email.to_owned();
        let mut i: usize = 0;
        while i < self.users.len()
            invariant
                0 <= i <= self.users@.len(),
                key@ == email@,
                forall|j: int| 0 <= j < i ==> (#[trigger] self.users@[j]).email@ != email@,
            decreases self.users@.len() - i,
        {
            if self.users[i].email == key {
                return Some(i);
            }
            i += 1;
        }
        None
    }

    fn position_of_username(&self, username: &str) -> (r: Option<usize>)
        ensures
            r matches Some(i) ==> i < self.users().len() && self.users()[i as int].username@ == username@,
            r is None ==> !has_username(self.users(), username@),
    {
        let key = username.to_owned();
        let mut i: usize = 0;
        while i < self.users.len()
            invariant
                0 <= i <= self.users@.len(),
                key@ == username@,
                forall|j: int| 0 <= j < i ==> (#[trigger] self.users@[j]).username@ != username@,
            decreases self.users@.len() - i,
        {
            if self.users[i].username == key {
                return Some(i);
            }
            i += 1;
        }
        None
    }

    fn position_of_id(&self, id: u128) -> (r: Option<usize>)
        ensures
            r matches Some(i) ==> i < self.users().len() && self.users()[i as int].id == id,
            r is None ==> !has_id(self.users(), id),
    {
        let mut i: usize = 0;
        while i < self.users.len()
            invariant
                0 <= i <= self.users@.len(),
                forall|j: int| 0 <= j < i ==> (#[trigger] self.users@[j]).id != id,
            decreases self.users@.len() - i,
        {
            if self.users[i].id == id {
                return Some(i);
            }
            i += 1;
        }
        None
    }

    /// The user with the given email.
    pub fn find_by_email(&self, email: &str) -> (r: Option<User>)
        requires
            self.wf(),
        ensures
            r == user_with_email(self.users(), email@),
    {
        match self.position_of_email(email) {
            Some(i) => {
                let ghost users = self.users();
                let ghost j = choose|j: int| 0 <= j < users.len() && (#[trigger] users[j]).email@ == email@;
                assert(users[j].email@ == email@);
                assert(j == i);
                Some(self.users[i].duplicate())
            },
            None => None,
        }
    }

    /// The user with the given id.
    pub fn find_by_id(&self, id: u128) -> (r: Option<User>)
        requires
            self.wf(),
        ensures
            r == user_with_id(self.users(), id),
    {
        match self.position_of_id(id) {
            Some(i) => {
                let ghost users = self.users();
                let ghost j = choose|j: int| 0 <= j < users.len() && (#[trigger] users[j]).id == id;
                assert(users[j].id == id);
                assert(j == i);
                Some(self.users[i].duplicate())
            },
            None => None,
        }
    }

    /// Applies `ch` to every user that `sel` picks, as a conditional update
    /// does; answers whether any was picked.
    fn update_where(&mut self, sel: &Selector, ch: &Change, now: i64) -> (any: bool)
        requires
            old(self).wf(),
        ensures
            final(self).wf(),
            final(self).next_id() == old(self).next_id(),
            final(self).users().len() == old(self).users().len(),
            forall|i: int|
                0 <= i < old(self).users().len() ==> if selects(*sel, old(self).users()[i], now as int) {
                    applied(*ch, #[trigger] final(self).users()[i], old(self).users()[i], now as int)
                } else {
                    final(self).users()[i] == old(self).users()[i]
                },
            any == exists|i: int|
                0 <= i < old(self).users().len() && selects(*sel, #[trigger] old(self).users()[i], now as int),
    {
        let ghost start = self.users@;
        let mut any = false;
        let mut i: usize = 0;
        while i < self.users.len()
            invariant
                self.users@.len() == start.len(),
                self.next_id == old(self).next_id,
                start == old(self).users(),
                0 <= i <= start.len(),
                forall|j: int|
                    0 <= j < i ==> if selects(*sel, start[j], now as int) {
                        applied(*ch, #[trigger] self.users@[j], start[j], now as int)
                    } else {
                        self.users@[j] == start[j]
                    },
                forall|j: int| i <= j < start.len() ==> #[trigger] self.users@[j] == start[j],
                forall|j: int|
                    0 <= j < start.len() ==> {
                        &&& (#[trigger] self.users@[j]).id == start[j].id
                        &&& self.users@[j].email == start[j].email
                        &&& self.users@[j].username == start[j].username
                    },
                any == exists|j: int| 0 <= j < i && selects(*sel, #[trigger] start[j], now as int),
            decreases start.len() - i,
        {
            if selects_user(sel, &self.users[i], now) {
                let u = apply_change(ch, &self.users[i], now);
                self.users.set(i, u);
                any = true;
            }
            i += 1;
            assert(any == exists|j: int| 0 <= j < i && selects(*sel, #[trigger] start[j], now as int)) by {
                if selects(*sel, start[i - 1], now as int) {
                    assert(selects(*sel, start[i - 1], now as int));
                }
            }
        }
        any
    }

    /// Adds a record under the next id.
    fn push_user(&mut self, u: User)
        requires
            old(self).wf(),
            old(self).has_room(),
            u.id == old(self).next_id(),
            !has_email(old(self).users(), u.email@),
            !has_username(old(self).users(), u.username@),
        ensures
            final(self).wf(),
            final(self).users() == old(self).users().push(u),
            final(self).next_id() == old(self).next_id() + 1,
    {
        let ghost start = self.users@;
        self.users.push(u);
        self.next_id = self.next_id + 1;
        assert forall|i: int, j: int|
            0 <= i < self.users@.len() && 0 <= j < self.users@.len() && i != j implies {
                &&& (#[trigger] self.users@[i]).id != (#[trigger] self.users@[j]).id
                &&& self.users@[i].email@ != self.users@[j].email@
                &&& self.users@[i].username@ != self.users@[j].username@
            } by {
            if i == start.len() {
                assert(start[j] == self.users@[j]);
            } else if j == start.len() {
                assert(start[i] == self.users@[i]);
            }
        }
    }

    /// Records a local account from a registration whose password hash and
    /// verification secret are given: fails with `Conflict` when the email or
    /// else the username is taken, and with `Internal` when no id is left.
    pub fn insert_local_user(
        &mut self,
        request: &RegisterRequest,
        password_hash: String,
        verification_token: String,
        now: i64,
    ) -> (r: Result<User, AppError>)
        requires
            old(self).wf(),
            0 <= now <= crate::token::LATEST_TIME,
        ensures
            final(self).wf(),
            has_email(old(self).users(), request.email@) ==> (r matches Err(e) && is_conflict(e, "Email already exists"@)),
            !has_email(old(self).users(), request.email@) && has_username(old(self).users(), request.username@)
                ==> (r matches Err(e) && is_conflict(e, "Username already exists"@)),
            !has_email(old(self).users(), request.email@) && !has_username(old(self).users(), request.username@)
                && !old(self).has_room() ==> (r matches Err(e) && e is Internal),
            r matches Err(e) ==> (e is Conflict && (has_email(old(self).users(), request.email@) || has_username(
                old(self).users(),
                request.username@,
            ))) || (e is Internal && !old(self).has_room()),
            r is Err ==> final(self).users() == old(self).users() && final(self).next_id() == old(self).next_id(),
            r matches Ok(u) ==> {
                &&& local_record(u, old(self).next_id(), *request, now as int)
                &&& u.password_hash == Some(password_hash)
                &&& u.verification_token == Some(verification_token)
                &&& final(self).users() == old(self).users().push(u)
                &&& final(self).next_id() == old(self).next_id() + 1
            },
    {
        if self.position_of_email(request.email.as_str()).is_some() {
            return Err(AppError::Conflict(String::from_str("Email already exists")));
        }
        if self.position_of_username(request.username.as_str()).is_some() {
            return Err(AppError::Conflict(String::from_str("Username already exists")));
        }
        if self.next_id == u128::MAX {
            return Err(AppError::Internal(String::from_str("user id space exhausted")));
        }
        let locale = match &request.locale {
            Some(l) => l.clone(),
            None => String::from_str("en"),
        };
        let u = User {
            id: self.next_id,
            email: request.email.clone(),
            username: request.username.clone(),
            password_hash: Some(password_hash),
            display_name: copy_text(&request.display_name),
            avatar_url: None,
            role: UserRole::User,
            is_verified: false,
            verification_token: Some(verification_token),
            verification_expires_at: Some(now + VERIFICATION_LIFETIME),
            reset_token: None,
            reset_expires_at: None,
            provider: String::from_str("local"),
            provider_id: None,
            locale,
            created_at: now,
            updated_at: now,
        };
        self.push_user(u.duplicate());
        Ok(u)
    }

    /// Registers a local account: after the uniqueness checks, hashes the
    /// password with the work factor `cost` and draws a verification secret
    /// that stays live for 24 hours.
    pub fn create_user(&mut self, request: RegisterRequest, cost: u32, now: i64) -> (r: Result<User, AppError>)
        requires
            old(self).wf(),
            0 <= now <= crate::token::LATEST_TIME,
        ensures
            final(self).wf(),
            has_email(old(self).users(), request.email@) ==> (r matches Err(e) && is_conflict(e, "Email already exists"@)),
            !has_email(old(self).users(), request.email@) && has_username(old(self).users(), request.username@)
                ==> (r matches Err(e) && is_conflict(e, "Username already exists"@)),
            r matches Err(e) ==> (e is Conflict && (has_email(old(self).users(), request.email@) || has_username(
                old(self).users(),
                request.username@,
            ))) || e is Bcrypt || (e is Internal && !old(self).has_room()),
            r is Err ==> final(self).users() == old(self).users() && final(self).next_id() == old(self).next_id(),
            r matches Ok(u) ==> {
                &&& new_local_user(u, old(self).next_id(), request, now as int)
                &&& final(self).users() == old(self).users().push(u)
                &&& final(self).next_id() == old(self).next_id() + 1
            },
    {
        if self.position_of_email(request.email.as_str()).is_some() {
            return Err(AppError::Conflict(String::from_str("Email already exists")));
        }
        if self.position_of_username(request.username.as_str()).is_some() {
            return Err(AppError::Conflict(String::from_str("Username already exists")));
        }
        let password_hash = match hash_password(request.password.as_str(), cost) {
            Ok(h) => h,
            Err(e) => return Err(e),
        };
        let verification_token = generate_verification_token();
        self.insert_local_user(&request, password_hash, verification_token, now)
    }

    /// The user holding `token` as a verification secret live at `now`.
    pub fn find_by_verification_token(&self, token: &str, now: i64) -> (r: Option<User>)
        ensures
            r is None <==> !has_live_verification(self.users(), token@, now as int),
            r matches Some(u) ==> exists|i: int|
                0 <= i < self.users().len() && #[trigger] self.users()[i] == u && live_verification(u, token@, now as int),
    {
        let key = token.to_owned();
        let mut i: usize = 0;
        while i < self.users.len()
            invariant
                0 <= i <= self.users@.len(),
                key@ == token@,
                forall|j: int| 0 <= j < i ==> !live_verification(#[trigger] self.users@[j], token@, now as int),
            decreases self.users@.len() - i,
        {
            let u = &self.users[i];
            match (&u.verification_token, u.verification_expires_at) {
                (Some(held), Some(x)) => {
                    if *held == key && now < x {
                        let found = u.duplicate();
                        assert(self.users()[i as int] == found && live_verification(found, token@, now as int));
                        return Some(found);
                    }
                },
                _ => {},
            }
            i += 1;
        }
        None
    }

    /// Marks the user with id `user_id` verified and clears its verification
    /// pair.
    pub fn verify_email(&mut self, user_id: u128, now: i64)
        requires
            old(self).wf(),
        ensures
            final(self).wf(),
            final(self).next_id() == old(self).next_id(),
            final(self).users().len() == old(self).users().len(),
            forall|i: int|
                0 <= i < old(self).users().len() ==> if old(self).users()[i].id == user_id {
                    marked_verified(#[trigger] final(self).users()[i], old(self).users()[i], now as int)
                } else {
                    final(self).users()[i] == old(self).users()[i]
                },
    {
        self.update_where(&Selector::Id(user_id), &Change::MarkVerified, now);
    }

    /// Gives the user with id `user_id` a fresh verification secret, live for
    /// 24 hours, and returns it.
    pub fn update_verification_token(&mut self, user_id: u128, now: i64) -> (r: String)
        requires
            old(self).wf(),
            0 <= now <= crate::token::LATEST_TIME,
        ensures
            final(self).wf(),
            is_secret(r@),
            final(self).next_id() == old(self).next_id(),
            final(self).users().len() == old(self).users().len(),
            forall|i: int|
                0 <= i < old(self).users().len() ==> if old(self).users()[i].id == user_id {
                    with_verification(
                        #[trigger] final(self).users()[i],
                        old(self).users()[i],
                        r,
                        (now + VERIFICATION_LIFETIME) as i64,
                        now as int,
                    )
                } else {
                    final(self).users()[i] == old(self).users()[i]
                },
    {
        let token = generate_verification_token();
        self.update_where(
            &Selector::Id(user_id),
            &Change::SetVerification(token.clone(), now + VERIFICATION_LIFETIME),
            now,
        );
        token
    }

    /// Gives the user with the given email a fresh reset secret, live for one
    /// hour, and returns it; returns nothing, changing nothing, when no user
    /// has that email.
    pub fn create_reset_token(&mut self, email: &str, now: i64) -> (r: Option<String>)
        requires
            old(self).wf(),
            0 <= now <= crate::token::LATEST_TIME,
        ensures
            final(self).wf(),
            r is Some <==> has_email(old(self).users(), email@),
            r matches Some(t) ==> is_secret(t@),
            final(self).next_id() == old(self).next_id(),
            final(self).users().len() == old(self).users().len(),
            forall|i: int|
                0 <= i < old(self).users().len() ==> if r is Some && old(self).users()[i].email@ == email@ {
                    with_reset(
                        #[trigger] final(self).users()[i],
                        old(self).users()[i],
                        r->Some_0,
                        (now + RESET_LIFETIME) as i64,
                        now as int,
                    )
                } else {
                    final(self).users()[i] == old(self).users()[i]
                },
    {
        let token = generate_verification_token();
        let any = self.update_where(
            &Selector::Email(email.to_owned()),
            &Change::SetReset(token.clone(), now + RESET_LIFETIME),
            now,
        );
        if any {
            Some(token)
        } else {
            None
        }
    }

    /// Sets the password hash of every user holding `token` as a reset secret
    /// live at `now`, clearing the reset pair, in one conditional update;
    /// answers whether any user held it.
    pub fn consume_reset_token(&mut self, token: &str, password_hash: String, now: i64) -> (r: bool)
        requires
            old(self).wf(),
        ensures
            final(self).wf(),
            r == has_live_reset(old(self).users(), token@, now as int),
            !r ==> final(self).users() == old(self).users(),
            final(self).next_id() == old(self).next_id(),
            final(self).users().len() == old(self).users().len(),
            forall|i: int|
                0 <= i < old(self).users().len() ==> if live_reset(old(self).users()[i], token@, now as int) {
                    reset_consumed(#[trigger] final(self).users()[i], old(self).users()[i], password_hash, now as int)
                } else {
                    final(self).users()[i] == old(self).users()[i]
                },
    {
        let ghost before = self.users();
        let any = self.update_where(&Selector::LiveReset(token.to_owned()), &Change::ConsumeReset(password_hash), now);
        if !any {
            assert(self.users() =~= before);
        }
        any
    }

    /// Hashes `new_password` with the work factor `cost`, then consumes the
    /// reset secret as `consume_reset_token` does.
    pub fn reset_password(&mut self, token: &str, new_password: &str, cost: u32, now: i64) -> (r: Result<bool, AppError>)
        requires
            old(self).wf(),
        ensures
            final(self).wf(),
            final(self).next_id() == old(self).next_id(),
            final(self).users().len() == old(self).users().len(),
            r matches Err(e) ==> e is Bcrypt && final(self).users() == old(self).users(),
            !(4 <= cost <= 31) ==> r is Err,
            r matches Ok(b) ==> b == has_live_reset(old(self).users(), token@, now as int),
            r == Ok::<bool, AppError>(false) ==> final(self).users() == old(self).users(),
            r is Ok ==> forall|i: int|
                0 <= i < old(self).users().len() ==> if live_reset(old(self).users()[i], token@, now as int) {
                    &&& final(self).users()[i].password_hash matches Some(h)
                        && bcrypt_verdict(new_password@, h@) == Some(true)
                    &&& reset_consumed(
                        #[trigger] final(self).users()[i],
                        old(self).users()[i],
                        final(self).users()[i].password_hash->Some_0,
                        now as int,
                    )
                } else {
                    final(self).users()[i] == old(self).users()[i]
                },
    {
        match hash_password(new_password, cost) {
            Ok(password_hash) => Ok(self.consume_reset_token(token, password_hash, now)),
            Err(e) => Err(e),
        }
    }

    /// Sets the preferred locale of the user with id `user_id`; fails with
    /// `NotFound` when there is none.
    pub fn update_locale(&mut self, user_id: u128, locale: &str, now: i64) -> (r: Result<User, AppError>)
        requires
            old(self).wf(),
        ensures
            final(self).wf(),
            final(self).next_id() == old(self).next_id(),
            final(self).users().len() == old(self).users().len(),
            !has_id(old(self).users(), user_id) ==> (r matches Err(e) && e is NotFound && final(self).users() == old(self).users()),
            has_id(old(self).users(), user_id) ==> r is Ok,
            r matches Ok(u) ==> user_with_id(final(self).users(), user_id) == Some(u),
            forall|i: int|
                0 <= i < old(self).users().len() ==> if old(self).users()[i].id == user_id {
                    with_locale(#[trigger] final(self).users()[i], old(self).users()[i], locale@, now as int)
                } else {
                    final(self).users()[i] == old(self).users()[i]
                },
    {
        let ghost before = self.users();
        let any = self.update_where(&Selector::Id(user_id), &Change::Locale(locale.to_owned()), now);
        proof {
            if has_id(before, user_id) {
                let k = choose|k: int| 0 <= k < before.len() && (#[trigger] before[k]).id == user_id;
                assert(self.users()[k].id == user_id);
            }
        }
        if !any {
            return Err(AppError::NotFound(String::from_str("user-not-found")));
        }
        match self.find_by_id(user_id) {
            Some(u) => Ok(u),
            None => Err(AppError::NotFound(String::from_str("user-not-found"))),
        }
    }

    /// Reconciles a provider identity with the repository by email. No user
    /// with that email: a verified account of that provider is created (a
    /// `Conflict` if the username is taken). The user already holds this
    /// provider identity: returned unchanged. A local account: linked to the
    /// identity. An account of another provider: a `Conflict`, since emails
    /// are unique.
    pub fn find_or_create_oauth_user(
        &mut self,
        email: &str,
        username: &str,
        display_name: Option<String>,
        avatar_url: Option<String>,
        provider: &str,
        provider_id: &str,
        now: i64,
    ) -> (r: Result<User, AppError>)
        requires
            old(self).wf(),
        ensures
            final(self).wf(),
            reconcile_outcome(
                *old(self),
                *final(self),
                email@,
                username@,
                display_name,
                avatar_url,
                provider@,
                provider_id@,
                now as int,
                r,
            ),
    {
        match self.position_of_email(email) {
            Some(i) => {
                let ghost users = self.users();
                proof {
                    let j = choose|j: int| 0 <= j < users.len() && (#[trigger] users[j]).email@ == email@;
                    assert(users[j].email@ == email@);
                    assert(j == i);
                }
                let u = &self.users[i];
                let same_provider = u.provider == provider.to_owned();
                let same_id = match &u.provider_id {
                    Some(p) => *p == provider_id.to_owned(),
                    None => false,
                };
                if same_provider && same_id {
                    return Ok(u.duplicate());
                }
                if u.provider == String::from_str("local") {
                    let id = u.id;
                    let link = Change::Link(provider.to_owned(), provider_id.to_owned(), display_name, avatar_url);
                    self.update_where(&Selector::Id(id), &link, now);
                    let n = self.users[i].duplicate();
                    proof {
                        assert forall|k: int| 0 <= k < users.len() && users[k].id == id implies k == i by {}
                    }
                    return Ok(n);
                }
                Err(AppError::Conflict(String::from_str("Email already exists")))
            },
            None => {
                if self.position_of_username(username).is_some() {
                    return Err(AppError::Conflict(String::from_str("Username already exists")));
                }
                if self.next_id == u128::MAX {
                    return Err(AppError::Internal(String::from_str("user id space exhausted")));
                }
                let u = User {
                    id: self.next_id,
                    email: email.to_owned(),
                    username: username.to_owned(),
                    password_hash: None,
                    display_name,
                    avatar_url,
                    role: UserRole::User,
                    is_verified: true,
                    verification_token: None,
                    verification_expires_at: None,
                    reset_token: None,
                    reset_expires_at: None,
                    provider: provider.to_owned(),
                    provider_id: Some(provider_id.to_owned()),
                    locale: String::from_str("en"),
                    created_at: now,
                    updated_at: now,
                };
                self.push_user(u.duplicate());
                Ok(u)
            },
        }
    }
}

} // verus!
