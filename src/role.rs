use vstd::prelude::*;

verus! {

/// The role of a user. Each role satisfies the requirements of the roles
/// below it: Admin over Moderator over User.
#[derive(Clone, Copy, Debug, PartialEq, Eq, Structural, Hash)]
pub enum UserRole {
    User,
    Moderator,
    Admin,
}

impl Default for UserRole {
    fn default() -> (r: UserRole)
        ensures
            r == UserRole::User,
    {
        UserRole::User
    }
}

impl UserRole {
    /// The rank of a role in the permission order.
    pub open spec fn rank(self) -> int {
        match self {
            UserRole::User => 0,
            UserRole::Moderator => 1,
            UserRole::Admin => 2,
        }
    }

    pub fn is_admin(&self) -> (r: bool)
        ensures
            r == (*self == UserRole::Admin),
    {
        matches!(self, UserRole::Admin)
    }

    pub fn is_moderator(&self) -> (r: bool)
        ensures
            r == (*self == UserRole::Moderator),
    {
        matches!(self, UserRole::Moderator)
    }

    pub fn is_user(&self) -> (r: bool)
        ensures
            r == (*self == UserRole::User),
    {
        matches!(self, UserRole::User)
    }

    pub fn can_moderate(&self) -> (r: bool)
        ensures
            r == (self.rank() >= UserRole::Moderator.rank()),
    {
        matches!(self, UserRole::Moderator | UserRole::Admin)
    }

    pub fn can_admin(&self) -> (r: bool)
        ensures
            r == (self.rank() >= UserRole::Admin.rank()),
    {
        matches!(self, UserRole::Admin)
    }

    /// Whether this role satisfies a requirement of `required_role`.
    pub fn has_permission(&self, required_role: &UserRole) -> (r: bool)
        ensures
            r == (self.rank() >= required_role.rank()),
    {
        match (self, required_role) {
            (UserRole::Admin, _) => true,
            (UserRole::Moderator, UserRole::User) => true,
            (UserRole::Moderator, UserRole::Moderator) => true,
            (UserRole::User, UserRole::User) => true,
            _ => false,
        }
    }
}

} // verus!
