use vstd::prelude::*;

verus! {

/// The closed set of error kinds of the library. User-facing kinds carry a
/// message; the infrastructure kinds carry a description meant for logs only.
#[derive(Debug, Clone, PartialEq, Eq)]
pub enum AppError {
    Database(String),
    Validation(String),
    Authentication(String),
    Authorization(String),
    NotFound(String),
    Conflict(String),
    Jwt(String),
    Bcrypt(String),
    Email(String),
    HttpClient(String),
    OAuth(String),
    Internal(String),
}

/// The HTTP status that the boundary layer answers an error with.
pub open spec fn status_of(e: AppError) -> u16 {
    match e {
        AppError::Validation(_) | AppError::OAuth(_) => 400,
        AppError::Authentication(_) => 401,
        AppError::Authorization(_) => 403,
        AppError::NotFound(_) => 404,
        AppError::Conflict(_) => 409,
        _ => 500,
    }
}

/// Whether the error's message is shown to the caller as it stands.
pub open spec fn message_is_public(e: AppError) -> bool {
    match e {
        AppError::Validation(_) | AppError::OAuth(_) | AppError::Authentication(_)
        | AppError::Authorization(_) | AppError::NotFound(_) | AppError::Conflict(_) => true,
        _ => false,
    }
}

/// Whether `e` is an `Authentication` error with message `msg`.
pub open spec fn is_authentication(e: AppError, msg: Seq<char>) -> bool {
    e matches AppError::Authentication(m) && m@ == msg
}

/// Whether `e` is a `Validation` error with message `msg`.
pub open spec fn is_validation(e: AppError, msg: Seq<char>) -> bool {
    e matches AppError::Validation(m) && m@ == msg
}

/// Whether `e` is a `Conflict` error with message `msg`.
pub open spec fn is_conflict(e: AppError, msg: Seq<char>) -> bool {
    e matches AppError::Conflict(m) && m@ == msg
}

/// Whether `e` is a `NotFound` error with message `msg`.
pub open spec fn is_not_found(e: AppError, msg: Seq<char>) -> bool {
    e matches AppError::NotFound(m) && m@ == msg
}

impl AppError {
    /// The message or description the error carries.
    pub open spec fn text(self) -> Seq<char> {
        match self {
            AppError::Database(m) => m@,
            AppError::Validation(m) => m@,
            AppError::Authentication(m) => m@,
            AppError::Authorization(m) => m@,
            AppError::NotFound(m) => m@,
            AppError::Conflict(m) => m@,
            AppError::Jwt(m) => m@,
            AppError::Bcrypt(m) => m@,
            AppError::Email(m) => m@,
            AppError::HttpClient(m) => m@,
            AppError::OAuth(m) => m@,
            AppError::Internal(m) => m@,
        }
    }

    /// The generic text shown in place of an infrastructure error's cause.
    pub open spec fn generic_text(self) -> Seq<char> {
        match self {
            AppError::Database(_) => "Database error"@,
            AppError::Jwt(_) => "Token error"@,
            AppError::Bcrypt(_) => "Password hashing error"@,
            AppError::Email(_) => "Email sending error"@,
            AppError::HttpClient(_) => "HTTP client error"@,
            _ => "Internal server error"@,
        }
    }

    /// Validation and OAuth map to 400, Authentication to 401, Authorization to
    /// 403, NotFound to 404, Conflict to 409, everything else to 500.
    pub fn status_code(&self) -> (r: u16)
        ensures
            r == status_of(*self),
    {
        match self {
            AppError::Validation(_) | AppError::OAuth(_) => 400,
            AppError::Authentication(_) => 401,
            AppError::Authorization(_) => 403,
            AppError::NotFound(_) => 404,
            AppError::Conflict(_) => 409,
            _ => 500,
        }
    }

    /// The text of the response envelope: the message of a user-facing error,
    /// a generic text for an infrastructure error, never its cause.
    pub fn public_message(&self) -> (r: String)
        ensures
            message_is_public(*self) ==> r@ == self.text(),
            !message_is_public(*self) ==> r@ == self.generic_text(),
    {
        match self {
            AppError::Validation(m) | AppError::OAuth(m) | AppError::Authentication(m)
            | AppError::Authorization(m) | AppError::NotFound(m) | AppError::Conflict(m) => m.clone(),
            AppError::Database(_) => String::from_str("Database error"),
            AppError::Jwt(_) => String::from_str("Token error"),
            AppError::Bcrypt(_) => String::from_str("Password hashing error"),
            AppError::Email(_) => String::from_str("Email sending error"),
            AppError::HttpClient(_) => String::from_str("HTTP client error"),
            AppError::Internal(_) => String::from_str("Internal server error"),
        }
    }
}

} // verus!
