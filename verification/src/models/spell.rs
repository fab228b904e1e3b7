//! Spells of a creature.

use vstd::prelude::*;
use crate::models::{now, Id, Timestamp};
pub use crate::models::power::{ActionTarget, ActionType, ResistedBy};

verus! {

/// A stored spell of a creature.
#[derive(Clone, Debug)]
pub struct Spell {
    pub id: Id,
    pub creator_id: Id,
    pub creature_id: Id,
    pub threads: i32,
    pub weaving: i32,
    pub reattune: i32,
    pub fixed_target: i32,
    pub name: String,
    pub action_type: ActionType,
    pub target: ActionTarget,
    pub resisted_by: ResistedBy,
    pub action_step: i32,
    pub effect_step: Option<i32>,
    pub details: Option<String>,
    pub created_at: Timestamp,
    pub updated_at: Timestamp,
}

/// A spell not stored yet.
#[derive(Clone, Debug)]
pub struct InsertableSpell {
    pub creator_id: Id,
    pub creature_id: Id,
    pub name: String,
    pub action_type: ActionType,
    pub target: ActionTarget,
    pub resisted_by: ResistedBy,
    pub action_step: i32,
    pub effect_step: Option<i32>,
    pub details: Option<String>,
    pub created_at: Timestamp,
    pub updated_at: Timestamp,
}

impl InsertableSpell {
    /// A generic standard spell against physical defense, at steps 9 and 9.
    pub fn default(creator_id: Id, creature_id: Id) -> (r: Self)
        ensures
            r.creator_id == creator_id,
            r.creature_id == creature_id,
            r.name@ == "Generic Spell"@,
            r.action_type == ActionType::Standard,
            r.target == ActionTarget::PhysicalDefense,
            r.resisted_by == ResistedBy::Physical,
            r.action_step == 9,
            r.effect_step == Some(9i32),
            r.details matches Some(d) && d@ == "A basic spell"@,
            r.created_at == r.updated_at,
    {
        let today = now();
        InsertableSpell {
            creator_id,
            creature_id,
            name: String::from_str("Generic Spell"),
            action_type: ActionType::Standard,
            target: ActionTarget::PhysicalDefense,
            resisted_by: ResistedBy::Physical,
            action_step: 9,
            effect_step: Some(9),
            details: Some(String::from_str("A basic spell")),
            created_at: today,
            updated_at: today,
        }
    }

    /// A spell of the creature `creature_id`, made by `creator_id`.
    pub fn new(
        creator_id: Id,
        creature_id: Id,
        name: String,
        action_type: ActionType,
        target: ActionTarget,
        resisted_by: ResistedBy,
        action_step: i32,
        effect_step: Option<i32>,
        details: Option<String>,
    ) -> (r: Self)
        ensures
            r.creator_id == creator_id,
            r.creature_id == creature_id,
            r.name == name,
            r.action_type == action_type,
            r.target == target,
            r.resisted_by == resisted_by,
            r.action_step == action_step,
            r.effect_step == effect_step,
            r.details == details,
            r.created_at == r.updated_at,
    {
        let today = now();
        InsertableSpell {
            creator_id,
            creature_id,
            name,
            action_type,
            target,
            resisted_by,
            action_step,
            effect_step,
            details,
            created_at: today,
            updated_at: today,
        }
    }
}

} // verus!
