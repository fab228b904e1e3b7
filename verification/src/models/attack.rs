//! Attacks of a creature.

use vstd::prelude::*;
use crate::models::{now, Id, Timestamp};

verus! {

/// A stored attack of a creature.
#[derive(Clone, Debug)]
pub struct Attack {
    pub id: Id,
    pub creator_id: Id,
    pub creature_id: Id,
    pub name: String,
    pub action_step: i32,
    pub effect_step: i32,
    pub details: Option<String>,
    pub created_at: Timestamp,
    pub updated_at: Timestamp,
}

/// An attack not stored yet.
#[derive(Clone, Debug)]
pub struct InsertableAttack {
    pub creator_id: Id,
    pub creature_id: Id,
    pub name: String,
    pub action_step: i32,
    pub effect_step: i32,
    pub details: Option<String>,
    pub created_at: Timestamp,
    pub updated_at: Timestamp,
}

impl InsertableAttack {
    /// The attack every new creature starts with: a melee attack at steps 9 and 9.
    pub fn default(creator_id: Id, creature_id: Id) -> (r: Self)
        ensures
            r.creator_id == creator_id,
            r.creature_id == creature_id,
            r.name@ == "Melee Attack"@,
            r.action_step == 9,
            r.effect_step == 9,
            r.details matches Some(d) && d@ == "A basic attack"@,
            r.created_at == r.updated_at,
    {
        let today = now();
        InsertableAttack {
            creator_id,
            creature_id,
            name: String::from_str("Melee Attack"),
            action_step: 9,
            effect_step: 9,
            details: Some(String::from_str("A basic attack")),
            created_at: today,
            updated_at: today,
        }
    }

    /// An attack of the creature `creature_id`, made by `creator_id`.
    pub fn new(
        creator_id: Id,
        creature_id: Id,
        name: String,
        action_step: i32,
        effect_step: i32,
        details: Option<String>,
    ) -> (r: Self)
        ensures
            r.creator_id == creator_id,
            r.creature_id == creature_id,
            r.name == name,
            r.action_step == action_step,
            r.effect_step == effect_step,
            r.details == details,
            r.created_at == r.updated_at,
    {
        let today = now();
        InsertableAttack {
            creator_id,
            creature_id,
            name,
            action_step,
            effect_step,
            details,
            created_at: today,
            updated_at: today,
        }
    }
}

} // verus!
