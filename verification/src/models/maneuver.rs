//! Maneuvers of a creature.

use vstd::prelude::*;
use crate::models::{now, Id, Timestamp};

verus! {

/// A stored maneuver of a creature.
#[derive(Clone, Debug)]
pub struct Maneuver {
    pub id: Id,
    pub creator_id: Id,
    pub creature_id: Id,
    pub name: String,
    pub source: String,
    pub details: String,
    pub created_at: Timestamp,
    pub updated_at: Timestamp,
}

/// A maneuver not stored yet.
#[derive(Clone, Debug)]
pub struct InsertableManeuver {
    pub creator_id: Id,
    pub creature_id: Id,
    pub name: String,
    pub source: String,
    pub details: String,
    pub created_at: Timestamp,
    pub updated_at: Timestamp,
}

impl InsertableManeuver {
    /// A basic melee maneuver that comes from the creature itself.
    pub fn default(creator_id: Id, creature_id: Id) -> (r: Self)
        ensures
            r.creator_id == creator_id,
            r.creature_id == creature_id,
            r.name@ == "Melee Maneuver"@,
            r.source@ == "Creature"@,
            r.details@ == "A basic maneuver"@,
            r.created_at == r.updated_at,
    {
        let today = now();
        InsertableManeuver {
            creator_id,
            creature_id,
            name: String::from_str("Melee Maneuver"),
            source: String::from_str("Creature"),
            details: String::from_str("A basic maneuver"),
            created_at: today,
            updated_at: today,
        }
    }

    /// A maneuver of the creature `creature_id`, made by `creator_id`.
    pub fn new(
        creator_id: Id,
        creature_id: Id,
        name: String,
        source: String,
        details: String,
    ) -> (r: Self)
        ensures
            r.creator_id == creator_id,
            r.creature_id == creature_id,
            r.name == name,
            r.source == source,
            r.details == details,
            r.created_at == r.updated_at,
    {
        let today = now();
        InsertableManeuver {
            creator_id,
            creature_id,
            name,
            source,
            details,
            created_at: today,
            updated_at: today,
        }
    }
}

} // verus!
