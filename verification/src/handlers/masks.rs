//! Masks as the mask handlers save them, and what a mask does to the
//! attacks of a creature it is laid over.

use vstd::prelude::*;
use crate::handlers::forms::{MaskAttackForm, MaskForm, MaskManeuverForm, MaskPowerForm, MaskTalentForm};
use crate::handlers::items::copy_details;
use crate::models::{Attack, Id, InsertableMask, Mask, MaskAttack, MaskManeuver, MaskPower, MaskTalent};

verus! {

/// The new mask that the mask form describes, made by `creator_id`.
pub fn mask_from_form(form: &MaskForm, creator_id: Id, creator_slug: String) -> (r: InsertableMask)
    ensures
        r.creator_id == creator_id,
        r.creator_slug == creator_slug,
        r.name == form.name,
        r.description == form.description,
        r.circle_rank == form.circle_rank,
        r.dexterity == form.dexterity,
        r.strength == form.strength,
        r.constitution == form.constitution,
        r.perception == form.perception,
        r.willpower == form.willpower,
        r.charisma == form.charisma,
        r.initiative == form.initiative,
        r.pd == form.pd,
        r.md == form.md,
        r.sd == form.sd,
        r.pa == form.pa,
        r.ma == form.ma,
        r.unconsciousness_rating == form.unconsciousness_rating,
        r.death_rating == form.death_rating,
        r.wound == form.wound,
        r.knockdown == form.knockdown,
        r.actions == form.actions,
        r.recovery_rolls == form.recovery_rolls,
        r.karma == form.karma,
        r.attack_action_mod == form.attack_action_mod,
        r.attack_effect_mod == form.attack_effect_mod,
        r.created_at == r.updated_at,
{
    InsertableMask::new(
        creator_id,
        creator_slug,
        form.name.clone(),
        form.description.clone(),
        form.circle_rank,
        form.dexterity,
        form.strength,
        form.constitution,
        form.perception,
        form.willpower,
        form.charisma,
        form.initiative,
        form.pd,
        form.md,
        form.sd,
        form.pa,
        form.ma,
        form.unconsciousness_rating,
        form.death_rating,
        form.wound,
        form.knockdown,
        form.actions,
        form.recovery_rolls,
        form.karma,
        form.attack_action_mod,
        form.attack_effect_mod,
    )
}

/// The stored mask with the values of the edit form put in; its identity,
/// creator and times stay.
pub fn edited_mask(mask: Mask, form: &MaskForm) -> (r: Mask)
    ensures
        r.id == mask.id,
        r.creator_id == mask.creator_id,
        r.creator_slug == mask.creator_slug,
        r.name == form.name,
        r.description == form.description,
        r.circle_rank == form.circle_rank,
        r.dexterity == form.dexterity,
        r.strength == form.strength,
        r.constitution == form.constitution,
        r.perception == form.perception,
        r.willpower == form.willpower,
        r.charisma == form.charisma,
        r.initiative == form.initiative,
        r.pd == form.pd,
        r.md == form.md,
        r.sd == form.sd,
        r.pa == form.pa,
        r.ma == form.ma,
        r.unconsciousness_rating == form.unconsciousness_rating,
        r.death_rating == form.death_rating,
        r.wound == form.wound,
        r.knockdown == form.knockdown,
        r.actions == form.actions,
        r.recovery_rolls == form.recovery_rolls,
        r.karma == form.karma,
        r.attack_action_mod == form.attack_action_mod,
        r.attack_effect_mod == form.attack_effect_mod,
        r.created_at == mask.created_at,
        r.updated_at == mask.updated_at,
{
    Mask {
        id: mask.id,
        creator_id: mask.creator_id,
        creator_slug: mask.creator_slug,
        name: form.name.clone(),
        description: form.description.clone(),
        circle_rank: form.circle_rank,
        dexterity: form.dexterity,
        strength: form.strength,
        constitution: form.constitution,
        perception: form.perception,
        willpower: form.willpower,
        charisma: form.charisma,
        initiative: form.initiative,
        pd: form.pd,
        md: form.md,
        sd: form.sd,
        pa: form.pa,
        ma: form.ma,
        unconsciousness_rating: form.unconsciousness_rating,
        death_rating: form.death_rating,
        wound: form.wound,
        knockdown: form.knockdown,
        actions: form.actions,
        recovery_rolls: form.recovery_rolls,
        karma: form.karma,
        attack_action_mod: form.attack_action_mod,
        attack_effect_mod: form.attack_effect_mod,
        created_at: mask.created_at,
        updated_at: mask.updated_at,
    }
}

/// The stored attack of a mask with the values of its edit form put in.
pub fn edited_mask_attack(item: MaskAttack, form: &MaskAttackForm) -> (r: MaskAttack)
    ensures
        r.id == item.id,
        r.creator_id == item.creator_id,
        r.mask_id == item.mask_id,
        r.name == form.name,
        r.action_step == form.action_step,
        r.effect_step == form.effect_step,
        r.details == form.details,
        r.created_at == item.created_at,
        r.updated_at == item.updated_at,
{
    MaskAttack {
        id: item.id,
        creator_id: item.creator_id,
        mask_id: item.mask_id,
        name: form.name.clone(),
        action_step: form.action_step,
        effect_step: form.effect_step,
        details: copy_details(&form.details),
        created_at: item.created_at,
        updated_at: item.updated_at,
    }
}

/// The stored power of a mask with the values of its edit form put in.
pub fn edited_mask_power(item: MaskPower, form: &MaskPowerForm) -> (r: MaskPower)
    ensures
        r.id == item.id,
        r.creator_id == item.creator_id,
        r.mask_id == item.mask_id,
        r.name == form.name,
        r.action_type == form.action_type,
        r.target == form.target,
        r.resisted_by == form.resisted_by,
        r.action_step == form.action_step,
        r.effect_step == form.effect_step,
        r.details == form.details,
        r.created_at == item.created_at,
        r.updated_at == item.updated_at,
{
    MaskPower {
        id: item.id,
        creator_id: item.creator_id,
        mask_id: item.mask_id,
        name: form.name.clone(),
        action_type: form.action_type,
        target: form.target,
        resisted_by: form.resisted_by,
        action_step: form.action_step,
        effect_step: form.effect_step,
        details: copy_details(&form.details),
        created_at: item.created_at,
        updated_at: item.updated_at,
    }
}

/// The stored talent of a mask with the values of its edit form put in.
pub fn edited_mask_talent(item: MaskTalent, form: &MaskTalentForm) -> (r: MaskTalent)
    ensures
        r.id == item.id,
        r.creator_id == item.creator_id,
        r.mask_id == item.mask_id,
        r.name == form.name,
        r.action_step == form.action_step,
        r.created_at == item.created_at,
        r.updated_at == item.updated_at,
{
    MaskTalent {
        id: item.id,
        creator_id: item.creator_id,
        mask_id: item.mask_id,
        name: form.name.clone(),
        action_step: form.action_step,
        created_at: item.created_at,
        updated_at: item.updated_at,
    }
}

/// The stored maneuver of a mask with the values of its edit form put in.
pub fn edited_mask_maneuver(item: MaskManeuver, form: &MaskManeuverForm) -> (r: MaskManeuver)
    ensures
        r.id == item.id,
        r.creator_id == item.creator_id,
        r.mask_id == item.mask_id,
        r.name == form.name,
        r.source == form.source,
        r.details == form.details,
        r.created_at == item.created_at,
        r.updated_at == item.updated_at,
{
    MaskManeuver {
        id: item.id,
        creator_id: item.creator_id,
        mask_id: item.mask_id,
        name: form.name.clone(),
        source: form.source.clone(),
        details: form.details.clone(),
        created_at: item.created_at,
        updated_at: item.updated_at,
    }
}

/// The note that an attack carries once a mask has empowered it.
pub open spec fn empowered_note(mask_name: Seq<char>) -> Seq<char> {
    "Empowered by "@ + mask_name
}

/// The details of an empowered attack: the old details, a full stop, a
/// space and the note; the note alone when there were no details.
pub open spec fn empowered_details(details: Option<String>, mask_name: Seq<char>) -> Seq<char> {
    match details {
        Some(d) => d@ + ". "@ + empowered_note(mask_name),
        None => empowered_note(mask_name),
    }
}

/// Whether the attack modifiers of `mask` can be added to the steps of
/// `attack` without leaving the range of `i32`.
pub open spec fn empowerment_fits(attack: Attack, mask: Mask) -> bool {
    &&& i32::MIN <= attack.action_step + mask.attack_action_mod <= i32::MAX
    &&& i32::MIN <= attack.effect_step + mask.attack_effect_mod <= i32::MAX
}

/// Whether the attack modifiers of `mask` can be added to the steps of
/// `attack` without leaving the range of `i32`.
pub fn empowerment_fits_steps(attack: &Attack, mask: &Mask) -> (r: bool)
    ensures
        r == empowerment_fits(*attack, *mask),
{
    crate::stats::add_fits(attack.action_step, mask.attack_action_mod) && crate::stats::add_fits(
        attack.effect_step,
        mask.attack_effect_mod,
    )
}

/// `attack` once `mask` has empowered it: the mask's modifiers added to
/// its steps and the note appended to its details; all else stays.
pub fn empower_attack(attack: Attack, mask: &Mask) -> (r: Attack)
    requires
        empowerment_fits(attack, *mask),
    ensures
        r.id == attack.id,
        r.creator_id == attack.creator_id,
        r.creature_id == attack.creature_id,
        r.name == attack.name,
        r.action_step == attack.action_step + mask.attack_action_mod,
        r.effect_step == attack.effect_step + mask.attack_effect_mod,
        r.details matches Some(d) && d@ == empowered_details(attack.details, mask.name@),
        r.created_at == attack.created_at,
        r.updated_at == attack.updated_at,
{
    let mut note = String::from_str("Empowered by ");
    note.append(mask.name.as_str());
    let details = match attack.details {
        Some(d) => {
            let mut text = d;
            text.append(". ");
            text.append(note.as_str());
            text
        },
        None => note,
    };
    Attack {
        id: attack.id,
        creator_id: attack.creator_id,
        creature_id: attack.creature_id,
        name: attack.name,
        action_step: attack.action_step + mask.attack_action_mod,
        effect_step: attack.effect_step + mask.attack_effect_mod,
        details: Some(details),
        created_at: attack.created_at,
        updated_at: attack.updated_at,
    }
}

} // verus!
