use vstd::prelude::*;

verus! {

/// The two messages the service asks the mail transport to send.
#[derive(Debug, Clone, Copy, PartialEq, Eq, Structural)]
pub enum MailKind {
    Verification,
    PasswordReset,
}

/// A message to send: its kind, recipient, the name to greet and the secret
/// the link carries.
#[derive(Debug, Clone)]
pub struct MailRequest {
    pub kind: MailKind,
    pub to: String,
    pub username: String,
    pub token: String,
}

/// The page of the front end that a message of the given kind links to.
pub open spec fn link_path(kind: MailKind) -> Seq<char> {
    match kind {
        MailKind::Verification => "/verify-email?token="@,
        MailKind::PasswordReset => "/reset-password?token="@,
    }
}

pub open spec fn subject_of(kind: MailKind) -> Seq<char> {
    match kind {
        MailKind::Verification => "Verify your email address"@,
        MailKind::PasswordReset => "Reset your password"@,
    }
}

impl MailRequest {
    /// The link the message carries, under the front end's base URL.
    pub fn link(&self, frontend_url: &str) -> (r: String)
        ensures
            r@ == frontend_url@ + link_path(self.kind) + self.token@,
    {
        let mut s = frontend_url.to_owned();
        match self.kind {
            MailKind::Verification => s.append("/verify-email?token="),
            MailKind::PasswordReset => s.append("/reset-password?token="),
        }
        s.append(self.token.as_str());
        s
    }

    pub fn subject(&self) -> (r: String)
        ensures
            r@ == subject_of(self.kind),
    {
        match self.kind {
            MailKind::Verification => String::from_str("Verify your email address"),
            MailKind::PasswordReset => String::from_str("Reset your password"),
        }
    }
}

} // verus!
