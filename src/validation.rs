use vstd::prelude::*;
use crate::error::{is_validation, AppError};
use crate::user::{LoginRequest, RegisterRequest};

verus! {

/// Whether validator accepts a text as an email address (the HTML5 rule).
pub uninterp spec fn email_shaped(s: Seq<char>) -> bool;

/// Relies on validator's `ValidateEmail` for `&str`: a function of the text
/// alone, which refuses a text without an `@`.
#[verifier::external_body]
fn check_email(s: &str) -> (r: bool)
    ensures
        r == email_shaped(s@),
        !s@.contains('@') ==> !r,
{
    validator::ValidateEmail::validate_email(&s)
}

/// Appends one problem to a list of problems separated by ", ".
pub open spec fn join_problem(acc: Seq<char>, problem: Seq<char>) -> Seq<char> {
    if acc.len() == 0 {
        problem
    } else {
        acc + ", "@ + problem
    }
}

fn add_problem(acc: &mut String, problem: &str)
    ensures
        final(acc)@ == join_problem(old(acc)@, problem@),
{
    if acc.as_str().is_empty() {
        acc.append(problem);
    } else {
        acc.append(", ");
        acc.append(problem);
    }
}

/// Whether a registration has a well-formed email, a username of 3 to 50
/// characters and a password of at least 8 characters.
pub open spec fn register_valid(request: RegisterRequest) -> bool {
    &&& email_shaped(request.email@)
    &&& 3 <= request.username@.len() <= 50
    &&& request.password@.len() >= 8
}

/// The problems of a registration, field by field.
pub open spec fn register_problems(request: RegisterRequest) -> Seq<char> {
    let a = if !email_shaped(request.email@) {
        "email: Invalid email format"@
    } else {
        Seq::empty()
    };
    let b = if !(3 <= request.username@.len() <= 50) {
        join_problem(a, "username: Username must be between 3 and 50 characters"@)
    } else {
        a
    };
    if request.password@.len() < 8 {
        join_problem(b, "password: Password must be at least 8 characters"@)
    } else {
        b
    }
}

/// Whether a sign-in has a well-formed email and a non-empty password.
pub open spec fn login_valid(request: LoginRequest) -> bool {
    email_shaped(request.email@) && request.password@.len() > 0
}

/// The problems of a sign-in, field by field.
pub open spec fn login_problems(request: LoginRequest) -> Seq<char> {
    let a = if !email_shaped(request.email@) {
        "email: Invalid email format"@
    } else {
        Seq::empty()
    };
    if request.password@.len() == 0 {
        join_problem(a, "password: Password is required"@)
    } else {
        a
    }
}

/// Checks the shape of a registration; the error lists every problem.
pub fn validate_register(request: &RegisterRequest) -> (r: Result<(), AppError>)
    ensures
        r is Ok <==> register_valid(*request),
        r matches Err(e) ==> is_validation(e, register_problems(*request)),
{
    let mut problems = String::new();
    let email_ok = check_email(request.email.as_str());
    if !email_ok {
        add_problem(&mut problems, "email: Invalid email format");
    }
    let n = request.username.as_str().unicode_len();
    if n < 3 || n > 50 {
        add_problem(&mut problems, "username: Username must be between 3 and 50 characters");
    }
    if request.password.as_str().unicode_len() < 8 {
        add_problem(&mut problems, "password: Password must be at least 8 characters");
    }
    let ok = email_ok && 3 <= n && n <= 50 && request.password.as_str().unicode_len() >= 8;
    if ok {
        Ok(())
    } else {
        Err(AppError::Validation(problems))
    }
}

/// Checks the shape of a sign-in; the error lists every problem.
pub fn validate_login(request: &LoginRequest) -> (r: Result<(), AppError>)
    ensures
        r is Ok <==> login_valid(*request),
        r matches Err(e) ==> is_validation(e, login_problems(*request)),
{
    let mut problems = String::new();
    let email_ok = check_email(request.email.as_str());
    if !email_ok {
        add_problem(&mut problems, "email: Invalid email format");
    }
    let password_given = !request.password.as_str().is_empty();
    if !password_given {
        add_problem(&mut problems, "password: Password is required");
    }
    if email_ok && password_given {
        Ok(())
    } else {
        Err(AppError::Validation(problems))
    }
}

/// The locale codes the application recognises.
pub open spec fn known_locale(s: Seq<char>) -> bool {
    ||| s == "en"@
    ||| s == "tr"@
    ||| s == "es"@
    ||| s == "fr"@
    ||| s == "de"@
    ||| s == "ja"@
    ||| s == "ko"@
    ||| s == "zh"@
}

pub fn is_valid_locale(locale: &str) -> (r: bool)
    ensures
        r == known_locale(locale@),
{
    let s = locale.to_owned();
    s == String::from_str("en") || s == String::from_str("tr") || s == String::from_str("es")
        || s == String::from_str("fr") || s == String::from_str("de") || s == String::from_str("ja")
        || s == String::from_str("ko") || s == String::from_str("zh")
}

/// Whether the first language of an Accept-Language value, up to the first
/// `,` or `-`, is exactly `tr`.
pub open spec fn prefers_turkish(header: Seq<char>) -> bool {
    &&& header.len() >= 2
    &&& header[0] == 't'
    &&& header[1] == 'r'
    &&& (header.len() == 2 || header[2] == ',' || header[2] == '-')
}

/// The locale of a request: `tr` when its Accept-Language header puts Turkish
/// first, `en` otherwise, and when the header is absent.
pub fn locale_from_accept_language(header: Option<&str>) -> (r: String)
    ensures
        r@ == (if header matches Some(h) && prefers_turkish(h@) {
            "tr"@
        } else {
            "en"@
        }),
{
    match header {
        Some(h) => {
            let n = h.unicode_len();
            if n >= 2 && h.get_char(0) == 't' && h.get_char(1) == 'r' {
                if n == 2 {
                    return String::from_str("tr");
                }
                let c = h.get_char(2);
                if c == ',' || c == '-' {
                    return String::from_str("tr");
                }
            }
            String::from_str("en")
        },
        None => String::from_str("en"),
    }
}

} // verus!
