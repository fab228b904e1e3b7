//! The values that the site's forms send.

use vstd::prelude::*;
use crate::models::{ActionTarget, ActionType, ResistedBy, Rarity};
use crate::stats::StatLine;

verus! {

/// The confirmation typed before a record is deleted: its name.
#[derive(Clone, Debug)]
pub struct DeleteForm {
    pub verify: String,
}

/// A creature as entered in the creature form. Each place and each tag is a
/// check box: present when ticked. `mask_id` names the mask chosen, if any.
#[derive(Clone, Debug)]
pub struct CreatureForm {
    pub name: String,
    pub rarity: Rarity,
    pub jungle: Option<String>,
    pub desert: Option<String>,
    pub forest: Option<String>,
    pub plains: Option<String>,
    pub urban: Option<String>,
    pub mountain: Option<String>,
    pub cavern: Option<String>,
    pub swamp: Option<String>,
    pub kaer: Option<String>,
    pub any: Option<String>,
    pub creature: Option<String>,
    pub spirit: Option<String>,
    pub elemental: Option<String>,
    pub horror: Option<String>,
    pub dragon: Option<String>,
    pub horror_construct: Option<String>,
    pub adept: Option<String>,
    pub npc: Option<String>,
    pub other: Option<String>,
    pub circle_rank: i32,
    pub description: String,
    pub dexterity: i32,
    pub strength: i32,
    pub constitution: i32,
    pub perception: i32,
    pub willpower: i32,
    pub charisma: i32,
    pub initiative: i32,
    pub pd: i32,
    pub md: i32,
    pub sd: i32,
    pub pa: i32,
    pub ma: i32,
    pub unconsciousness_rating: i32,
    pub death_rating: i32,
    pub wound: i32,
    pub knockdown: i32,
    pub actions: i32,
    pub movement: String,
    pub recovery_rolls: i32,
    pub karma: i32,
    pub image_url: Option<String>,
    pub mask_id: Option<String>,
}

impl CreatureForm {
    /// The stat line entered in the form.
    pub open spec fn spec_stats(&self) -> StatLine {
        StatLine {
            circle_rank: self.circle_rank,
            dexterity: self.dexterity,
            strength: self.strength,
            constitution: self.constitution,
            perception: self.perception,
            willpower: self.willpower,
            charisma: self.charisma,
            initiative: self.initiative,
            pd: self.pd,
            md: self.md,
            sd: self.sd,
            pa: self.pa,
            ma: self.ma,
            unconsciousness_rating: self.unconsciousness_rating,
            death_rating: self.death_rating,
            wound: self.wound,
            knockdown: self.knockdown,
            actions: self.actions,
            recovery_rolls: self.recovery_rolls,
            karma: self.karma,
        }
    }

    /// The stat line entered in the form.
    pub fn stats(&self) -> (r: StatLine)
        ensures
            r == self.spec_stats(),
            r.circle_rank == self.circle_rank,
            r.dexterity == self.dexterity,
            r.strength == self.strength,
            r.constitution == self.constitution,
            r.perception == self.perception,
            r.willpower == self.willpower,
            r.charisma == self.charisma,
            r.initiative == self.initiative,
            r.pd == self.pd,
            r.md == self.md,
            r.sd == self.sd,
            r.pa == self.pa,
            r.ma == self.ma,
            r.unconsciousness_rating == self.unconsciousness_rating,
            r.death_rating == self.death_rating,
            r.wound == self.wound,
            r.knockdown == self.knockdown,
            r.actions == self.actions,
            r.recovery_rolls == self.recovery_rolls,
            r.karma == self.karma,
    {
        StatLine {
            circle_rank: self.circle_rank,
            dexterity: self.dexterity,
            strength: self.strength,
            constitution: self.constitution,
            perception: self.perception,
            willpower: self.willpower,
            charisma: self.charisma,
            initiative: self.initiative,
            pd: self.pd,
            md: self.md,
            sd: self.sd,
            pa: self.pa,
            ma: self.ma,
            unconsciousness_rating: self.unconsciousness_rating,
            death_rating: self.death_rating,
            wound: self.wound,
            knockdown: self.knockdown,
            actions: self.actions,
            recovery_rolls: self.recovery_rolls,
            karma: self.karma,
        }
    }
}

/// An attack as entered in the attack form.
#[derive(Clone, Debug)]
pub struct AttackForm {
    pub name: String,
    pub action_step: i32,
    pub effect_step: i32,
    pub details: Option<String>,
}

/// A power as entered in the power form.
#[derive(Clone, Debug)]
pub struct PowerForm {
    pub name: String,
    pub action_type: ActionType,
    pub target: ActionTarget,
    pub resisted_by: ResistedBy,
    pub action_step: i32,
    pub effect_step: Option<i32>,
    pub details: Option<String>,
}

/// The text searched for.
#[derive(Clone, Debug)]
pub struct SearchForm {
    pub search: String,
}

/// A maneuver as entered in the maneuver form.
#[derive(Clone, Debug)]
pub struct ManeuverForm {
    pub name: String,
    pub source: String,
    pub details: String,
}

/// A talent as entered in the talent form.
#[derive(Clone, Debug)]
pub struct TalentForm {
    pub name: String,
    pub action_step: i32,
}

/// A mask as entered in the mask form.
#[derive(Clone, Debug)]
pub struct MaskForm {
    pub name: String,
    pub description: String,
    pub circle_rank: i32,
    pub dexterity: i32,
    pub strength: i32,
    pub constitution: i32,
    pub perception: i32,
    pub willpower: i32,
    pub charisma: i32,
    pub initiative: i32,
    pub pd: i32,
    pub md: i32,
    pub sd: i32,
    pub pa: i32,
    pub ma: i32,
    pub unconsciousness_rating: i32,
    pub death_rating: i32,
    pub wound: i32,
    pub knockdown: i32,
    pub actions: i32,
    pub recovery_rolls: i32,
    pub karma: i32,
    pub attack_action_mod: i32,
    pub attack_effect_mod: i32,
}

/// An attack that a mask gives, as entered in its form.
#[derive(Clone, Debug)]
pub struct MaskAttackForm {
    pub name: String,
    pub action_step: i32,
    pub effect_step: i32,
    pub details: Option<String>,
}

/// A power that a mask gives, as entered in its form.
#[derive(Clone, Debug)]
pub struct MaskPowerForm {
    pub name: String,
    pub action_type: ActionType,
    pub target: ActionTarget,
    pub resisted_by: ResistedBy,
    pub action_step: i32,
    pub effect_step: Option<i32>,
    pub details: Option<String>,
}

/// A talent that a mask gives, as entered in its form.
#[derive(Clone, Debug)]
pub struct MaskTalentForm {
    pub name: String,
    pub action_step: i32,
}

/// A maneuver that a mask gives, as entered in its form.
#[derive(Clone, Debug)]
pub struct MaskManeuverForm {
    pub name: String,
    pub source: String,
    pub details: String,
}

/// The mask chosen when a creature is copied; none when `mask_id` is absent
/// or empty.
#[derive(Clone, Debug)]
pub struct CopyWithMaskForm {
    pub mask_id: Option<String>,
}

/// The stat line of a creature form holds each of its own stat fields.
pub proof fn law_form_stats_are_its_fields(x: CreatureForm)
    ensures
        x.spec_stats().circle_rank == x.circle_rank,
        x.spec_stats().dexterity == x.dexterity,
        x.spec_stats().strength == x.strength,
        x.spec_stats().constitution == x.constitution,
        x.spec_stats().perception == x.perception,
        x.spec_stats().willpower == x.willpower,
        x.spec_stats().charisma == x.charisma,
        x.spec_stats().initiative == x.initiative,
        x.spec_stats().pd == x.pd,
        x.spec_stats().md == x.md,
        x.spec_stats().sd == x.sd,
        x.spec_stats().pa == x.pa,
        x.spec_stats().ma == x.ma,
        x.spec_stats().unconsciousness_rating == x.unconsciousness_rating,
        x.spec_stats().death_rating == x.death_rating,
        x.spec_stats().wound == x.wound,
        x.spec_stats().knockdown == x.knockdown,
        x.spec_stats().actions == x.actions,
        x.spec_stats().recovery_rolls == x.recovery_rolls,
        x.spec_stats().karma == x.karma,
{
}

} // verus!
