//! Masks: stat deltas and extra items that can be laid over a creature.

use vstd::prelude::*;
use crate::models::{now, Id, Timestamp};
use crate::models::power::{ActionTarget, ActionType, ResistedBy};
use crate::stats::StatLine;

verus! {

/// A stored mask. Its stat values are deltas, added to a creature's stats
/// when the mask is applied; its two attack modifiers are added to the
/// steps of the creature's attacks.
#[derive(Clone, Debug)]
pub struct Mask {
    pub id: Id,
    pub creator_id: Id,
    pub creator_slug: String,
    pub name: String,
    pub description: String,
    pub circle_rank: i32,
    pub dexterity: i32,
    pub strength: i32,
    pub constitution: i32,
    pub perception: i32,
    pub willpower: i32,
    pub charisma: i32,
    pub initiative: i32,
    pub pd: i32,
    pub md: i32,
    pub sd: i32,
    pub pa: i32,
    pub ma: i32,
    pub unconsciousness_rating: i32,
    pub death_rating: i32,
    pub wound: i32,
    pub knockdown: i32,
    pub actions: i32,
    pub recovery_rolls: i32,
    pub karma: i32,
    pub attack_action_mod: i32,
    pub attack_effect_mod: i32,
    pub created_at: Timestamp,
    pub updated_at: Timestamp,
}

/// The identifier and name of a mask, as listed on a creature's page.
#[derive(Clone, Debug)]
pub struct MaskRef {
    pub id: Id,
    pub name: String,
}

impl Mask {
    /// The stat deltas of the mask.
    pub open spec fn spec_deltas(&self) -> StatLine {
        StatLine {
            circle_rank: self.circle_rank,
            dexterity: self.dexterity,
            strength: self.strength,
            constitution: self.constitution,
            perception: self.perception,
            willpower: self.willpower,
            charisma: self.charisma,
            initiative: self.initiative,
            pd: self.pd,
            md: self.md,
            sd: self.sd,
            pa: self.pa,
            ma: self.ma,
            unconsciousness_rating: self.unconsciousness_rating,
            death_rating: self.death_rating,
            wound: self.wound,
            knockdown: self.knockdown,
            actions: self.actions,
            recovery_rolls: self.recovery_rolls,
            karma: self.karma,
        }
    }

    /// The stat deltas of the mask.
    pub fn deltas(&self) -> (r: StatLine)
        ensures
            r == self.spec_deltas(),
            r.circle_rank == self.circle_rank,
            r.dexterity == self.dexterity,
            r.strength == self.strength,
            r.constitution == self.constitution,
            r.perception == self.perception,
            r.willpower == self.willpower,
            r.charisma == self.charisma,
            r.initiative == self.initiative,
            r.pd == self.pd,
            r.md == self.md,
            r.sd == self.sd,
            r.pa == self.pa,
            r.ma == self.ma,
            r.unconsciousness_rating == self.unconsciousness_rating,
            r.death_rating == self.death_rating,
            r.wound == self.wound,
            r.knockdown == self.knockdown,
            r.actions == self.actions,
            r.recovery_rolls == self.recovery_rolls,
            r.karma == self.karma,
    {
        StatLine {
            circle_rank: self.circle_rank,
            dexterity: self.dexterity,
            strength: self.strength,
            constitution: self.constitution,
            perception: self.perception,
            willpower: self.willpower,
            charisma: self.charisma,
            initiative: self.initiative,
            pd: self.pd,
            md: self.md,
            sd: self.sd,
            pa: self.pa,
            ma: self.ma,
            unconsciousness_rating: self.unconsciousness_rating,
            death_rating: self.death_rating,
            wound: self.wound,
            knockdown: self.knockdown,
            actions: self.actions,
            recovery_rolls: self.recovery_rolls,
            karma: self.karma,
        }
    }

    /// Whether the mask changes the steps of a creature's attacks.
    pub open spec fn spec_empowers_attacks(&self) -> bool {
        self.attack_action_mod != 0 || self.attack_effect_mod != 0
    }

    /// Whether the mask changes the steps of a creature's attacks.
    pub fn empowers_attacks(&self) -> (r: bool)
        ensures
            r == self.spec_empowers_attacks(),
            r == (self.attack_action_mod != 0 || self.attack_effect_mod != 0),
    {
        self.attack_action_mod != 0 || self.attack_effect_mod != 0
    }

    /// The identifier and name of the mask.
    pub fn to_ref(&self) -> (r: MaskRef)
        ensures
            r.id == self.id,
            r.name == self.name,
    {
        MaskRef { id: self.id, name: self.name.clone() }
    }
}

/// A mask not stored yet.
#[derive(Clone, Debug)]
pub struct InsertableMask {
    pub creator_id: Id,
    pub creator_slug: String,
    pub name: String,
    pub description: String,
    pub circle_rank: i32,
    pub dexterity: i32,
    pub strength: i32,
    pub constitution: i32,
    pub perception: i32,
    pub willpower: i32,
    pub charisma: i32,
    pub initiative: i32,
    pub pd: i32,
    pub md: i32,
    pub sd: i32,
    pub pa: i32,
    pub ma: i32,
    pub unconsciousness_rating: i32,
    pub death_rating: i32,
    pub wound: i32,
    pub knockdown: i32,
    pub actions: i32,
    pub recovery_rolls: i32,
    pub karma: i32,
    pub attack_action_mod: i32,
    pub attack_effect_mod: i32,
    pub created_at: Timestamp,
    pub updated_at: Timestamp,
}

impl InsertableMask {
    /// A new mask made by `creator_id`.
    pub fn new(
        creator_id: Id,
        creator_slug: String,
        name: String,
        description: String,
        circle_rank: i32,
        dexterity: i32,
        strength: i32,
        constitution: i32,
        perception: i32,
        willpower: i32,
        charisma: i32,
        initiative: i32,
        pd: i32,
        md: i32,
        sd: i32,
        pa: i32,
        ma: i32,
        unconsciousness_rating: i32,
        death_rating: i32,
        wound: i32,
        knockdown: i32,
        actions: i32,
        recovery_rolls: i32,
        karma: i32,
        attack_action_mod: i32,
        attack_effect_mod: i32,
    ) -> (r: Self)
        ensures
            r.creator_id == creator_id,
            r.creator_slug == creator_slug,
            r.name == name,
            r.description == description,
            r.circle_rank == circle_rank,
            r.dexterity == dexterity,
            r.strength == strength,
            r.constitution == constitution,
            r.perception == perception,
            r.willpower == willpower,
            r.charisma == charisma,
            r.initiative == initiative,
            r.pd == pd,
            r.md == md,
            r.sd == sd,
            r.pa == pa,
            r.ma == ma,
            r.unconsciousness_rating == unconsciousness_rating,
            r.death_rating == death_rating,
            r.wound == wound,
            r.knockdown == knockdown,
            r.actions == actions,
            r.recovery_rolls == recovery_rolls,
            r.karma == karma,
            r.attack_action_mod == attack_action_mod,
            r.attack_effect_mod == attack_effect_mod,
            r.created_at == r.updated_at,
    {
        let today = now();
        InsertableMask {
            creator_id,
            creator_slug,
            name,
            description,
            circle_rank,
            dexterity,
            strength,
            constitution,
            perception,
            willpower,
            charisma,
            initiative,
            pd,
            md,
            sd,
            pa,
            ma,
            unconsciousness_rating,
            death_rating,
            wound,
            knockdown,
            actions,
            recovery_rolls,
            karma,
            attack_action_mod,
            attack_effect_mod,
            created_at: today,
            updated_at: today,
        }
    }
}

/// A stored attack that a mask gives.
#[derive(Clone, Debug)]
pub struct MaskAttack {
    pub id: Id,
    pub creator_id: Id,
    pub mask_id: Id,
    pub name: String,
    pub action_step: i32,
    pub effect_step: i32,
    pub details: Option<String>,
    pub created_at: Timestamp,
    pub updated_at: Timestamp,
}

/// A attack that a mask gives, not stored yet.
#[derive(Clone, Debug)]
pub struct InsertableMaskAttack {
    pub creator_id: Id,
    pub mask_id: Id,
    pub name: String,
    pub action_step: i32,
    pub effect_step: i32,
    pub details: Option<String>,
    pub created_at: Timestamp,
    pub updated_at: Timestamp,
}

impl InsertableMaskAttack {
    /// An attack given by the mask `mask_id`, made by `creator_id`.
    pub fn new(
        creator_id: Id,
        mask_id: Id,
        name: String,
        action_step: i32,
        effect_step: i32,
        details: Option<String>,
    ) -> (r: Self)
        ensures
            r.creator_id == creator_id,
            r.mask_id == mask_id,
            r.name == name,
            r.action_step == action_step,
            r.effect_step == effect_step,
            r.details == details,
            r.created_at == r.updated_at,
    {
        let today = now();
        InsertableMaskAttack {
            creator_id,
            mask_id,
            name,
            action_step,
            effect_step,
            details,
            created_at: today,
            updated_at: today,
        }
    }
}

/// A stored power that a mask gives.
#[derive(Clone, Debug)]
pub struct MaskPower {
    pub id: Id,
    pub creator_id: Id,
    pub mask_id: Id,
    pub name: String,
    pub action_type: ActionType,
    pub target: ActionTarget,
    pub resisted_by: ResistedBy,
    pub action_step: i32,
    pub effect_step: Option<i32>,
    pub details: Option<String>,
    pub created_at: Timestamp,
    pub updated_at: Timestamp,
}

/// A power that a mask gives, not stored yet.
#[derive(Clone, Debug)]
pub struct InsertableMaskPower {
    pub creator_id: Id,
    pub mask_id: Id,
    pub name: String,
    pub action_type: ActionType,
    pub target: ActionTarget,
    pub resisted_by: ResistedBy,
    pub action_step: i32,
    pub effect_step: Option<i32>,
    pub details: Option<String>,
    pub created_at: Timestamp,
    pub updated_at: Timestamp,
}

impl InsertableMaskPower {
    /// A power given by the mask `mask_id`, made by `creator_id`.
    pub fn new(
        creator_id: Id,
        mask_id: Id,
        name: String,
        action_type: ActionType,
        target: ActionTarget,
        resisted_by: ResistedBy,
        action_step: i32,
        effect_step: Option<i32>,
        details: Option<String>,
    ) -> (r: Self)
        ensures
            r.creator_id == creator_id,
            r.mask_id == mask_id,
            r.name == name,
            r.action_type == action_type,
            r.target == target,
            r.resisted_by == resisted_by,
            r.action_step == action_step,
            r.effect_step == effect_step,
            r.details == details,
            r.created_at == r.updated_at,
    {
        let today = now();
        InsertableMaskPower {
            creator_id,
            mask_id,
            name,
            action_type,
            target,
            resisted_by,
            action_step,
            effect_step,
            details,
            created_at: today,
            updated_at: today,
        }
    }
}

/// A stored talent that a mask gives.
#[derive(Clone, Debug)]
pub struct MaskTalent {
    pub id: Id,
    pub creator_id: Id,
    pub mask_id: Id,
    pub name: String,
    pub action_step: i32,
    pub created_at: Timestamp,
    pub updated_at: Timestamp,
}

/// A talent that a mask gives, not stored yet.
#[derive(Clone, Debug)]
pub struct InsertableMaskTalent {
    pub creator_id: Id,
    pub mask_id: Id,
    pub name: String,
    pub action_step: i32,
    pub created_at: Timestamp,
    pub updated_at: Timestamp,
}

impl InsertableMaskTalent {
    /// A talent given by the mask `mask_id`, made by `creator_id`.
    pub fn new(
        creator_id: Id,
        mask_id: Id,
        name: String,
        action_step: i32,
    ) -> (r: Self)
        ensures
            r.creator_id == creator_id,
            r.mask_id == mask_id,
            r.name == name,
            r.action_step == action_step,
            r.created_at == r.updated_at,
    {
        let today = now();
        InsertableMaskTalent {
            creator_id,
            mask_id,
            name,
            action_step,
            created_at: today,
            updated_at: today,
        }
    }
}

/// A stored maneuver that a mask gives.
#[derive(Clone, Debug)]
pub struct MaskManeuver {
    pub id: Id,
    pub creator_id: Id,
    pub mask_id: Id,
    pub name: String,
    pub source: String,
    pub details: String,
    pub created_at: Timestamp,
    pub updated_at: Timestamp,
}

/// A maneuver that a mask gives, not stored yet.
#[derive(Clone, Debug)]
pub struct InsertableMaskManeuver {
    pub creator_id: Id,
    pub mask_id: Id,
    pub name: String,
    pub source: String,
    pub details: String,
    pub created_at: Timestamp,
    pub updated_at: Timestamp,
}

impl InsertableMaskManeuver {
    /// A maneuver given by the mask `mask_id`, made by `creator_id`.
    pub fn new(
        creator_id: Id,
        mask_id: Id,
        name: String,
        source: String,
        details: String,
    ) -> (r: Self)
        ensures
            r.creator_id == creator_id,
            r.mask_id == mask_id,
            r.name == name,
            r.source == source,
            r.details == details,
            r.created_at == r.updated_at,
    {
        let today = now();
        InsertableMaskManeuver {
            creator_id,
            mask_id,
            name,
            source,
            details,
            created_at: today,
            updated_at: today,
        }
    }
}

/// Each delta of a mask is the mask's own field for that stat: the mask's
/// dexterity delta is its `dexterity`, its mystic defense delta its `md`,
/// and so on for all twenty stats.
pub proof fn law_mask_deltas_are_its_own_fields(m: Mask)
    ensures
        m.spec_deltas().circle_rank == m.circle_rank,
        m.spec_deltas().dexterity == m.dexterity,
        m.spec_deltas().strength == m.strength,
        m.spec_deltas().constitution == m.constitution,
        m.spec_deltas().perception == m.perception,
        m.spec_deltas().willpower == m.willpower,
        m.spec_deltas().charisma == m.charisma,
        m.spec_deltas().initiative == m.initiative,
        m.spec_deltas().pd == m.pd,
        m.spec_deltas().md == m.md,
        m.spec_deltas().sd == m.sd,
        m.spec_deltas().pa == m.pa,
        m.spec_deltas().ma == m.ma,
        m.spec_deltas().unconsciousness_rating == m.unconsciousness_rating,
        m.spec_deltas().death_rating == m.death_rating,
        m.spec_deltas().wound == m.wound,
        m.spec_deltas().knockdown == m.knockdown,
        m.spec_deltas().actions == m.actions,
        m.spec_deltas().recovery_rolls == m.recovery_rolls,
        m.spec_deltas().karma == m.karma,
{
}

/// A mask empowers attacks exactly when at least one of its two attack
/// modifiers is not zero.
pub proof fn law_empowers_exactly_when_modified(m: Mask)
    ensures
        m.spec_empowers_attacks() <==> (m.attack_action_mod != 0 || m.attack_effect_mod != 0),
{
}

} // verus!
