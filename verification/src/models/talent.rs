//! Talents of a creature.

use vstd::prelude::*;
use crate::models::{now, Id, Timestamp};

verus! {

/// A stored talent of a creature.
#[derive(Clone, Debug)]
pub struct Talent {
    pub id: Id,
    pub creator_id: Id,
    pub creature_id: Id,
    pub name: String,
    pub action_step: i32,
    pub created_at: Timestamp,
    pub updated_at: Timestamp,
}

/// A talent not stored yet.
#[derive(Clone, Debug)]
pub struct InsertableTalent {
    pub creator_id: Id,
    pub creature_id: Id,
    pub name: String,
    pub action_step: i32,
    pub created_at: Timestamp,
    pub updated_at: Timestamp,
}

impl InsertableTalent {
    /// A basic melee talent at step 9.
    pub fn default(creator_id: Id, creature_id: Id) -> (r: Self)
        ensures
            r.creator_id == creator_id,
            r.creature_id == creature_id,
            r.name@ == "Melee Talent"@,
            r.action_step == 9,
            r.created_at == r.updated_at,
    {
        let today = now();
        InsertableTalent {
            creator_id,
            creature_id,
            name: String::from_str("Melee Talent"),
            action_step: 9,
            created_at: today,
            updated_at: today,
        }
    }

    /// A talent of the creature `creature_id`, made by `creator_id`.
    pub fn new(
        creator_id: Id,
        creature_id: Id,
        name: String,
        action_step: i32,
    ) -> (r: Self)
        ensures
            r.creator_id == creator_id,
            r.creature_id == creature_id,
            r.name == name,
            r.action_step == action_step,
            r.created_at == r.updated_at,
    {
        let today = now();
        InsertableTalent {
            creator_id,
            creature_id,
            name,
            action_step,
            created_at: today,
            updated_at: today,
        }
    }
}

} // verus!
