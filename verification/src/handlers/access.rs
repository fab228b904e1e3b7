//! Who may change a record, what the delete forms decide, and which
//! template shows a creature.

use vstd::prelude::*;
use crate::models::UserRole;
use crate::models::user::spec_may_modify;
use crate::models::may_modify;
use crate::text::{delete_confirmed, str_eq, trimmed};

verus! {

/// What a delete form leads to once the record has been found.
#[derive(Clone, Copy, Debug, PartialEq, Eq, Structural)]
pub enum DeleteDecision {
    /// The user may not delete the record.
    NotAuthorized,
    /// The confirmation matches the record's name: the record goes.
    Confirmed,
    /// The confirmation does not match: back to the delete page.
    NotConfirmed,
}

/// What a delete form decides for the record `name` made by `creator_slug`,
/// sent by `session_user` with `role` and the confirmation `verify`.
pub open spec fn spec_delete_decision(
    session_user: Seq<char>,
    role: UserRole,
    creator_slug: Seq<char>,
    name: Seq<char>,
    verify: Seq<char>,
) -> DeleteDecision {
    if !spec_may_modify(session_user, creator_slug, role) {
        DeleteDecision::NotAuthorized
    } else if trimmed(verify) == name {
        DeleteDecision::Confirmed
    } else {
        DeleteDecision::NotConfirmed
    }
}

/// What a delete form decides for the record `name` made by `creator_slug`:
/// only its creator or an administrator may delete it, and only with the
/// record's name typed (surrounding white space aside) as confirmation.
pub fn delete_decision(
    session_user: &str,
    role: UserRole,
    creator_slug: &str,
    name: &str,
    verify: &str,
) -> (r: DeleteDecision)
    ensures
        r == spec_delete_decision(session_user@, role, creator_slug@, name@, verify@),
{
    if !may_modify(session_user, creator_slug, role) {
        DeleteDecision::NotAuthorized
    } else if delete_confirmed(verify, name) {
        DeleteDecision::Confirmed
    } else {
        DeleteDecision::NotConfirmed
    }
}

/// The template that shows a creature: the in-game sheet for the view
/// "in_game", the plain page for any other view.
pub open spec fn spec_creature_template(view: Seq<char>) -> Seq<char> {
    if view == "in_game"@ {
        "creatures/in_game_creature.html"@
    } else {
        "creatures/creature.html"@
    }
}

/// The template that shows a creature in the view `view`.
pub fn creature_template(view: &str) -> (r: &'static str)
    ensures
        r@ == spec_creature_template(view@),
{
    if str_eq(view, "in_game") {
        "creatures/in_game_creature.html"
    } else {
        "creatures/creature.html"
    }
}

/// A record is deleted only on a request from its creator or an
/// administrator that names the record; any such request deletes it.
pub proof fn law_delete_needs_rights_and_name(
    session_user: Seq<char>,
    role: UserRole,
    creator_slug: Seq<char>,
    name: Seq<char>,
    verify: Seq<char>,
)
    ensures
        (spec_delete_decision(session_user, role, creator_slug, name, verify)
            == DeleteDecision::Confirmed) <==> ((session_user == creator_slug || role
            == UserRole::Admin) && trimmed(verify) == name),
        (spec_delete_decision(session_user, role, creator_slug, name, verify)
            == DeleteDecision::NotAuthorized) <==> (session_user != creator_slug && role
            != UserRole::Admin),
{
}

} // verus!
