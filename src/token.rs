use vstd::prelude::*;
use crate::error::{is_authentication, AppError};
use jsonwebtoken::{decode, DecodingKey, EncodingKey, Header, Validation};
use serde_json::{Map as JsonMap, Value};

verus! {

/// How long a bearer token stays valid: 24 hours, in seconds.
pub const TOKEN_LIFETIME: i64 = 86400;

/// The latest time the library accepts as "now": the last second of the year
/// 9999, in seconds since the epoch, so that every expiry it computes fits in
/// an `i64`.
pub const LATEST_TIME: i64 = 253402300799;

/// The hyphenated text that uuid writes for a 128-bit value.
pub uninterp spec fn uuid_text(id: u128) -> Seq<char>;

/// The 128-bit value that uuid reads from a text, if it is one.
pub uninterp spec fn uuid_value(text: Seq<char>) -> Option<u128>;

/// The claims that jsonwebtoken reads from an HS256 token under a secret,
/// checking the signature but not the clock: subject, user id, email,
/// issued-at and expiry.
pub uninterp spec fn jwt_claims(token: Seq<char>, secret: Seq<char>) -> Option<
    (Seq<char>, Seq<char>, Seq<char>, int, int),
>;

#[verifier::external_type_specification]
#[verifier::external_body]
pub struct ExJwtError(jsonwebtoken::errors::Error);

/// Relies on uuid's `Uuid::from_u128` and its hyphenated `Display`, which
/// `Uuid::parse_str` reads back to the same value.
#[verifier::external_body]
fn uuid_to_text(id: u128) -> (r: String)
    ensures
        r@ == uuid_text(id),
        uuid_value(r@) == Some(id),
{
    uuid::Uuid::from_u128(id).hyphenated().to_string()
}

/// Relies on uuid's `Uuid::parse_str` and `Uuid::as_u128`.
#[verifier::external_body]
fn uuid_from_text(text: &str) -> (r: Option<u128>)
    ensures
        r == uuid_value(text@),
{
    match uuid::Uuid::parse_str(text) {
        Ok(u) => Some(u.as_u128()),
        Err(_) => None,
    }
}

/// Relies on jsonwebtoken::encode with the default HS256 header: with an HMAC
/// key it cannot fail on a JSON map, it signs the five claims with the secret,
/// and jsonwebtoken::decode under the same secret reads them back (its
/// required `exp` claim parses when it is not negative).
#[verifier::external_body]
fn jwt_encode(sub: &str, user_id: &str, email: &str, iat: i64, exp: i64, secret: &str) -> (r:
    Result<String, jsonwebtoken::errors::Error>)
    ensures
        r is Ok,
        r is Ok && 0 <= exp ==> jwt_claims(r->Ok_0@, secret@) == Some(
            (sub@, user_id@, email@, iat as int, exp as int),
        ),
{
    let mut claims = JsonMap::new();
    claims.insert("sub".to_string(), Value::from(sub));
    claims.insert("user_id".to_string(), Value::from(user_id));
    claims.insert("email".to_string(), Value::from(email));
    claims.insert("iat".to_string(), Value::from(iat));
    claims.insert("exp".to_string(), Value::from(exp));
    jsonwebtoken::encode(&Header::default(), &claims, &EncodingKey::from_secret(secret.as_bytes()))
}

/// Relies on jsonwebtoken::decode with its default validation (HS256) but the
/// expiry left to the caller, and on serde_json's `Value::as_str` and
/// `Value::as_i64` to read the five claims.
#[verifier::external_body]
fn jwt_decode(token: &str, secret: &str) -> (r: Result<
    Option<(String, String, String, i64, i64)>,
    jsonwebtoken::errors::Error,
>)
    ensures
        r matches Ok(Some(c)) ==> jwt_claims(token@, secret@) == Some(
            (c.0@, c.1@, c.2@, c.3 as int, c.4 as int),
        ),
        !(r is Ok && r->Ok_0 is Some) ==> jwt_claims(token@, secret@) is None,
{
    let mut rules = Validation::default();
    rules.validate_exp = false;
    let m = decode::<JsonMap<String, Value>>(token, &DecodingKey::from_secret(secret.as_bytes()), &rules)?.claims;
    Ok(match (m.get("sub").and_then(Value::as_str), m.get("user_id").and_then(Value::as_str),
        m.get("email").and_then(Value::as_str), m.get("iat").and_then(Value::as_i64),
        m.get("exp").and_then(Value::as_i64)) {
        (Some(s), Some(u), Some(e), Some(i), Some(x)) => Some((s.to_string(), u.to_string(), e.to_string(), i, x)),
        _ => None,
    })
}

/// The decoded payload of a bearer token.
#[derive(Debug, Clone, PartialEq, Eq)]
pub struct Claims {
    pub sub: String,
    pub user_id: u128,
    pub email: String,
    pub exp: i64,
    pub iat: i64,
}

/// Whether a token verifies under `secret` at time `now`: its signature
/// holds, its user id reads as a uuid and its expiry lies after `now`.
pub open spec fn token_accepted(token: Seq<char>, secret: Seq<char>, now: int) -> bool {
    match jwt_claims(token, secret) {
        Some((s, u, e, i, x)) => uuid_value(u) is Some && now < x,
        None => false,
    }
}

/// Whether `c` is what a token carries under `secret`.
pub open spec fn claims_of(c: Claims, token: Seq<char>, secret: Seq<char>) -> bool {
    match jwt_claims(token, secret) {
        Some((s, u, e, i, x)) => {
            &&& c.sub@ == s
            &&& uuid_value(u) == Some(c.user_id)
            &&& c.email@ == e
            &&& c.iat as int == i
            &&& c.exp as int == x
        },
        None => false,
    }
}

/// Whether `token` is what issuing for `user_id` and `email` at time `now`
/// under `secret` gives: it carries the user's uuid as subject and user id,
/// and expires 24 hours after `now`.
pub open spec fn issued(token: Seq<char>, secret: Seq<char>, user_id: u128, email: Seq<char>, now: int) -> bool {
    &&& jwt_claims(token, secret) == Some(
        (uuid_text(user_id), uuid_text(user_id), email, now, now + TOKEN_LIFETIME),
    )
    &&& uuid_value(uuid_text(user_id)) == Some(user_id)
}

/// Signs and checks bearer tokens with a secret fixed at construction.
#[derive(Clone)]
pub struct JwtService {
    secret: String,
}

impl JwtService {
    /// The signing secret.
    pub closed spec fn key(&self) -> Seq<char> {
        self.secret@
    }

    pub fn new(secret: &str) -> (r: JwtService)
        ensures
            r.key() == secret@,
    {
        JwtService { secret: secret.to_owned() }
    }

    /// Issues a token for a user: subject and user id are the user's uuid,
    /// issued now and expiring 24 hours later.
    pub fn generate_token(&self, user_id: u128, email: &str, now: i64) -> (r: Result<String, AppError>)
        requires
            0 <= now <= LATEST_TIME,
        ensures
            r matches Ok(t) && issued(t@, self.key(), user_id, email@, now as int),
    {
        let id = uuid_to_text(user_id);
        match jwt_encode(id.as_str(), id.as_str(), email, now, now + TOKEN_LIFETIME, self.secret.as_str()) {
            Ok(t) => Ok(t),
            Err(_) => Err(AppError::Jwt(String::from_str("token signing failed"))),
        }
    }

    /// Checks a token's signature and expiry at time `now`, with no leeway: a
    /// token is live while `now` is before its expiry.
    pub fn verify_token(&self, token: &str, now: i64) -> (r: Result<Claims, AppError>)
        ensures
            token_accepted(token@, self.key(), now as int) ==> (r matches Ok(c) && claims_of(c, token@, self.key())),
            !token_accepted(token@, self.key(), now as int) ==> (r matches Err(e) && is_authentication(e, "invalid-token"@)),
    {
        let decoded = jwt_decode(token, self.secret.as_str());
        match decoded {
            Ok(Some((sub, uid, email, iat, exp))) => {
                match uuid_from_text(uid.as_str()) {
                    Some(user_id) => {
                        if now < exp {
                            return Ok(Claims { sub, user_id, email, exp, iat });
                        }
                    },
                    None => {},
                }
            },
            _ => {},
        }
        Err(AppError::Authentication(String::from_str("invalid-token")))
    }
}

/// A token verifies, immediately after it is issued and until it expires, to
/// the user id it was issued for; from its expiry on it is refused.
pub proof fn lemma_token_round_trip(
    secret: Seq<char>,
    user_id: u128,
    email: Seq<char>,
    issued_at: i64,
    token: Seq<char>,
    now: int,
)
    requires
        0 <= issued_at <= LATEST_TIME,
        issued(token, secret, user_id, email, issued_at as int),
    ensures
        issued_at <= now < issued_at + TOKEN_LIFETIME ==> token_accepted(token, secret, now),
        forall|c: Claims| #[trigger] claims_of(c, token, secret) ==> c.user_id == user_id && c.email@ == email,
        now >= issued_at + TOKEN_LIFETIME ==> !token_accepted(token, secret, now),
{
}

} // verus!
