//! Attacks, powers, maneuvers and talents as the item handlers save them,
//! and as they are carried over to a copied or masked creature.

use vstd::prelude::*;
use crate::handlers::forms::{AttackForm, ManeuverForm, PowerForm, TalentForm};
use crate::models::{
    Attack, Id, InsertableAttack, InsertableManeuver, InsertablePower, InsertableTalent,
    Maneuver, MaskAttack, MaskManeuver, MaskPower, MaskTalent, Power, Talent, Timestamp,
};

verus! {

/// A copy of an optional text.
pub fn copy_details(details: &Option<String>) -> (r: Option<String>)
    ensures
        r == *details,
{
    match details {
        Some(s) => Some(s.clone()),
        None => None,
    }
}

/// The attack as saved by the edit form: the form's values, `editor_id` as
/// creator, `today` as update time; the rest from the stored attack.
pub fn edited_attack(attack: Attack, form: &AttackForm, editor_id: Id, today: Timestamp) -> (r: Attack)
    ensures
        r.id == attack.id,
        r.creator_id == editor_id,
        r.creature_id == attack.creature_id,
        r.name == form.name,
        r.action_step == form.action_step,
        r.effect_step == form.effect_step,
        r.details == form.details,
        r.created_at == attack.created_at,
        r.updated_at == today,
{
    Attack {
        id: attack.id,
        creator_id: editor_id,
        creature_id: attack.creature_id,
        name: form.name.clone(),
        action_step: form.action_step,
        effect_step: form.effect_step,
        details: copy_details(&form.details),
        created_at: attack.created_at,
        updated_at: today,
    }
}

/// The power as saved by the edit form: the form's values, `editor_id` as
/// creator, `today` as update time; the rest from the stored power.
pub fn edited_power(power: Power, form: &PowerForm, editor_id: Id, today: Timestamp) -> (r: Power)
    ensures
        r.id == power.id,
        r.creator_id == editor_id,
        r.creature_id == power.creature_id,
        r.name == form.name,
        r.action_type == form.action_type,
        r.target == form.target,
        r.resisted_by == form.resisted_by,
        r.action_step == form.action_step,
        r.effect_step == form.effect_step,
        r.details == form.details,
        r.created_at == power.created_at,
        r.updated_at == today,
{
    Power {
        id: power.id,
        creator_id: editor_id,
        creature_id: power.creature_id,
        name: form.name.clone(),
        action_type: form.action_type,
        target: form.target,
        resisted_by: form.resisted_by,
        action_step: form.action_step,
        effect_step: form.effect_step,
        details: copy_details(&form.details),
        created_at: power.created_at,
        updated_at: today,
    }
}

/// The maneuver as saved by the edit form: the form's values, `editor_id`
/// as creator, `today` as update time; the rest from the stored maneuver.
pub fn edited_maneuver(
    maneuver: Maneuver,
    form: &ManeuverForm,
    editor_id: Id,
    today: Timestamp,
) -> (r: Maneuver)
    ensures
        r.id == maneuver.id,
        r.creator_id == editor_id,
        r.creature_id == maneuver.creature_id,
        r.name == form.name,
        r.source == form.source,
        r.details == form.details,
        r.created_at == maneuver.created_at,
        r.updated_at == today,
{
    Maneuver {
        id: maneuver.id,
        creator_id: editor_id,
        creature_id: maneuver.creature_id,
        name: form.name.clone(),
        source: form.source.clone(),
        details: form.details.clone(),
        created_at: maneuver.created_at,
        updated_at: today,
    }
}

/// The talent as saved by the edit form: the form's values, `editor_id` as
/// creator, `today` as update time; the rest from the stored talent.
pub fn edited_talent(talent: Talent, form: &TalentForm, editor_id: Id, today: Timestamp) -> (r: Talent)
    ensures
        r.id == talent.id,
        r.creator_id == editor_id,
        r.creature_id == talent.creature_id,
        r.name == form.name,
        r.action_step == form.action_step,
        r.created_at == talent.created_at,
        r.updated_at == today,
{
    Talent {
        id: talent.id,
        creator_id: editor_id,
        creature_id: talent.creature_id,
        name: form.name.clone(),
        action_step: form.action_step,
        created_at: talent.created_at,
        updated_at: today,
    }
}

/// `attack` carried over to the creature `creature_id` by `creator_id`.
pub fn copied_attack(attack: &Attack, creator_id: Id, creature_id: Id) -> (r: InsertableAttack)
    ensures
        r.creator_id == creator_id,
        r.creature_id == creature_id,
        r.name == attack.name,
        r.action_step == attack.action_step,
        r.effect_step == attack.effect_step,
        r.details == attack.details,
        r.created_at == r.updated_at,
{
    InsertableAttack::new(
        creator_id,
        creature_id,
        attack.name.clone(),
        attack.action_step,
        attack.effect_step,
        copy_details(&attack.details),
    )
}

/// `power` carried over to the creature `creature_id` by `creator_id`.
pub fn copied_power(power: &Power, creator_id: Id, creature_id: Id) -> (r: InsertablePower)
    ensures
        r.creator_id == creator_id,
        r.creature_id == creature_id,
        r.name == power.name,
        r.action_type == power.action_type,
        r.target == power.target,
        r.resisted_by == power.resisted_by,
        r.action_step == power.action_step,
        r.effect_step == power.effect_step,
        r.details == power.details,
        r.created_at == r.updated_at,
{
    InsertablePower::new(
        creator_id,
        creature_id,
        power.name.clone(),
        power.action_type,
        power.target,
        power.resisted_by,
        power.action_step,
        power.effect_step,
        copy_details(&power.details),
    )
}

/// `maneuver` carried over to the creature `creature_id` by `creator_id`.
pub fn copied_maneuver(maneuver: &Maneuver, creator_id: Id, creature_id: Id) -> (r: InsertableManeuver)
    ensures
        r.creator_id == creator_id,
        r.creature_id == creature_id,
        r.name == maneuver.name,
        r.source == maneuver.source,
        r.details == maneuver.details,
        r.created_at == r.updated_at,
{
    InsertableManeuver::new(
        creator_id,
        creature_id,
        maneuver.name.clone(),
        maneuver.source.clone(),
        maneuver.details.clone(),
    )
}

/// `talent` carried over to the creature `creature_id` by `creator_id`.
pub fn copied_talent(talent: &Talent, creator_id: Id, creature_id: Id) -> (r: InsertableTalent)
    ensures
        r.creator_id == creator_id,
        r.creature_id == creature_id,
        r.name == talent.name,
        r.action_step == talent.action_step,
        r.created_at == r.updated_at,
{
    InsertableTalent::new(creator_id, creature_id, talent.name.clone(), talent.action_step)
}

/// The attack that a mask gives, added to the creature `creature_id` by
/// `creator_id`.
pub fn attack_from_mask(item: &MaskAttack, creator_id: Id, creature_id: Id) -> (r: InsertableAttack)
    ensures
        r.creator_id == creator_id,
        r.creature_id == creature_id,
        r.name == item.name,
        r.action_step == item.action_step,
        r.effect_step == item.effect_step,
        r.details == item.details,
        r.created_at == r.updated_at,
{
    InsertableAttack::new(
        creator_id,
        creature_id,
        item.name.clone(),
        item.action_step,
        item.effect_step,
        copy_details(&item.details),
    )
}

/// The power that a mask gives, added to the creature `creature_id` by
/// `creator_id`.
pub fn power_from_mask(item: &MaskPower, creator_id: Id, creature_id: Id) -> (r: InsertablePower)
    ensures
        r.creator_id == creator_id,
        r.creature_id == creature_id,
        r.name == item.name,
        r.action_type == item.action_type,
        r.target == item.target,
        r.resisted_by == item.resisted_by,
        r.action_step == item.action_step,
        r.effect_step == item.effect_step,
        r.details == item.details,
        r.created_at == r.updated_at,
{
    InsertablePower::new(
        creator_id,
        creature_id,
        item.name.clone(),
        item.action_type,
        item.target,
        item.resisted_by,
        item.action_step,
        item.effect_step,
        copy_details(&item.details),
    )
}

/// The talent that a mask gives, added to the creature `creature_id` by
/// `creator_id`.
pub fn talent_from_mask(item: &MaskTalent, creator_id: Id, creature_id: Id) -> (r: InsertableTalent)
    ensures
        r.creator_id == creator_id,
        r.creature_id == creature_id,
        r.name == item.name,
        r.action_step == item.action_step,
        r.created_at == r.updated_at,
{
    InsertableTalent::new(creator_id, creature_id, item.name.clone(), item.action_step)
}

/// The maneuver that a mask gives, added to the creature `creature_id` by
/// `creator_id`.
pub fn maneuver_from_mask(item: &MaskManeuver, creator_id: Id, creature_id: Id) -> (r: InsertableManeuver)
    ensures
        r.creator_id == creator_id,
        r.creature_id == creature_id,
        r.name == item.name,
        r.source == item.source,
        r.details == item.details,
        r.created_at == r.updated_at,
{
    InsertableManeuver::new(
        creator_id,
        creature_id,
        item.name.clone(),
        item.source.clone(),
        item.details.clone(),
    )
}

} // verus!
