//! Powers of a creature, and the kinds of action they take.

use vstd::prelude::*;
use crate::models::{now, Id, Timestamp};

verus! {

/// How long using a power or a spell takes.
#[derive(Clone, Copy, Debug, PartialEq, Eq, Structural)]
pub enum ActionType {
    Free,
    Simple,
    Standard,
    Move,
    Ritual,
}

/// The defense a power or a spell is tested against.
#[derive(Clone, Copy, Debug, PartialEq, Eq, Structural)]
pub enum ActionTarget {
    MysticDefense,
    PhysicalDefense,
    SocialDefense,
    Other,
    NotApplicable,
}

/// What resists the effect of a power or a spell.
#[derive(Clone, Copy, Debug, PartialEq, Eq, Structural)]
pub enum ResistedBy {
    Mystic,
    Physical,
    Other,
    NotApplicable,
}

/// A stored power of a creature.
#[derive(Clone, Debug)]
pub struct Power {
    pub id: Id,
    pub creator_id: Id,
    pub creature_id: Id,
    pub name: String,
    pub action_type: ActionType,
    pub target: ActionTarget,
    pub resisted_by: ResistedBy,
    pub action_step: i32,
    pub effect_step: Option<i32>,
    pub details: Option<String>,
    pub created_at: Timestamp,
    pub updated_at: Timestamp,
}

/// A power not stored yet.
#[derive(Clone, Debug)]
pub struct InsertablePower {
    pub creator_id: Id,
    pub creature_id: Id,
    pub name: String,
    pub action_type: ActionType,
    pub target: ActionTarget,
    pub resisted_by: ResistedBy,
    pub action_step: i32,
    pub effect_step: Option<i32>,
    pub details: Option<String>,
    pub created_at: Timestamp,
    pub updated_at: Timestamp,
}

impl InsertablePower {
    /// A generic standard power against physical defense, at steps 9 and 9.
    pub fn default(creator_id: Id, creature_id: Id) -> (r: Self)
        ensures
            r.creator_id == creator_id,
            r.creature_id == creature_id,
            r.name@ == "Generic Power"@,
            r.action_type == ActionType::Standard,
            r.target == ActionTarget::PhysicalDefense,
            r.resisted_by == ResistedBy::Physical,
            r.action_step == 9,
            r.effect_step == Some(9i32),
            r.details matches Some(d) && d@ == "A basic power"@,
            r.created_at == r.updated_at,
    {
        let today = now();
        InsertablePower {
            creator_id,
            creature_id,
            name: String::from_str("Generic Power"),
            action_type: ActionType::Standard,
            target: ActionTarget::PhysicalDefense,
            resisted_by: ResistedBy::Physical,
            action_step: 9,
            effect_step: Some(9),
            details: Some(String::from_str("A basic power")),
            created_at: today,
            updated_at: today,
        }
    }

    /// A power of the creature `creature_id`, made by `creator_id`.
    pub fn new(
        creator_id: Id,
        creature_id: Id,
        name: String,
        action_type: ActionType,
        target: ActionTarget,
        resisted_by: ResistedBy,
        action_step: i32,
        effect_step: Option<i32>,
        details: Option<String>,
    ) -> (r: Self)
        ensures
            r.creator_id == creator_id,
            r.creature_id == creature_id,
            r.name == name,
            r.action_type == action_type,
            r.target == target,
            r.resisted_by == resisted_by,
            r.action_step == action_step,
            r.effect_step == effect_step,
            r.details == details,
            r.created_at == r.updated_at,
    {
        let today = now();
        InsertablePower {
            creator_id,
            creature_id,
            name,
            action_type,
            target,
            resisted_by,
            action_step,
            effect_step,
            details,
            created_at: today,
            updated_at: today,
        }
    }
}

} // verus!
