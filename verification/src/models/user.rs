//! Users' roles and who may change a record.

use vstd::prelude::*;

verus! {

/// What a visitor of the site may do.
#[derive(Clone, Copy, Debug, PartialEq, Eq, Structural)]
pub enum UserRole {
    Admin,
    User,
    Visitor,
}

impl UserRole {
    /// The name under which a role is shown to templates.
    pub open spec fn spec_label(self) -> Seq<char> {
        match self {
            UserRole::Admin => "Admin"@,
            UserRole::User => "User"@,
            UserRole::Visitor => "Visitor"@,
        }
    }

    /// The name under which a role is shown to templates.
    pub fn label(&self) -> (r: &'static str)
        ensures
            r@ == self.spec_label(),
    {
        match self {
            UserRole::Admin => "Admin",
            UserRole::User => "User",
            UserRole::Visitor => "Visitor",
        }
    }
}

/// Whether the signed-in user may change or delete a record: the record's
/// creator may, and so may an administrator.
pub open spec fn spec_may_modify(session_user: Seq<char>, creator_slug: Seq<char>, role: UserRole) -> bool {
    session_user == creator_slug || role == UserRole::Admin
}

/// Whether the signed-in user `session_user` with `role` may change a
/// record created by `creator_slug`.
pub fn may_modify(session_user: &str, creator_slug: &str, role: UserRole) -> (r: bool)
    ensures
        r == spec_may_modify(session_user@, creator_slug@, role),
{
    crate::text::str_eq(session_user, creator_slug) || role == UserRole::Admin
}

} // verus!
