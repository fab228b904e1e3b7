//! The records the application stores: creatures, the items attached to
//! them, masks and their items, to-do lists and users.

pub mod attack;
pub mod creature;
pub mod maneuver;
pub mod mask;
pub mod power;
pub mod spell;
pub mod talent;
pub mod to_do;
pub mod user;

pub use attack::{Attack, InsertableAttack};
pub use creature::{Creature, InsertableCreature, Locales, Rarity, Tags};
pub use maneuver::{InsertableManeuver, Maneuver};
pub use mask::{
    InsertableMask, InsertableMaskAttack, InsertableMaskManeuver, InsertableMaskPower,
    InsertableMaskTalent, Mask, MaskAttack, MaskManeuver, MaskPower, MaskRef, MaskTalent,
};
pub use power::{ActionTarget, ActionType, InsertablePower, Power, ResistedBy};
pub use spell::{InsertableSpell, Spell};
pub use talent::{InsertableTalent, Talent};
pub use to_do::{InsertableToDo, InsertableToDoList, PriorityType, ToDo, ToDoList};
pub use user::{may_modify, UserRole};

use vstd::prelude::*;

verus! {

/// Identifier of a stored record: the 128 bits of its UUID.
pub type Id = u128;

/// A point in time: microseconds since the Unix epoch, UTC.
pub type Timestamp = i64;

/// Reads the clock with `chrono::Utc::now`. The time depends on when the
/// call is made, so nothing is stated of it.
#[verifier::external_body]
pub(crate) fn now() -> (t: Timestamp) {
    chrono::Utc::now().timestamp_micros()
}

/// What `uuid::Uuid::parse_str` makes of a text: the 128 bits of the UUID
/// it spells, or nothing when it spells none.
pub uninterp spec fn parsed_id(text: Seq<char>) -> Option<u128>;

/// Calls `uuid::Uuid::parse_str` and keeps the 128 bits of the result.
/// The accepted spellings take pages to state; the contract names the
/// result, which depends on the text alone.
#[verifier::external_body]
pub(crate) fn parse_id(text: &str) -> (r: Option<Id>)
    ensures
        r == parsed_id(text@),
{
    match uuid::Uuid::parse_str(text) {
        Ok(u) => Some(u.as_u128()),
        Err(_) => None,
    }
}

} // verus!
