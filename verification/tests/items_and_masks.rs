use web_starter::generate_email_context;
use web_starter::handlers::forms::{
    AttackForm, ManeuverForm, MaskAttackForm, MaskForm, MaskManeuverForm, MaskPowerForm,
    MaskTalentForm, PowerForm, TalentForm,
};
use web_starter::handlers::items::{
    attack_from_mask, copied_attack, copied_maneuver, copied_power, copied_talent, copy_details,
    edited_attack, edited_maneuver, edited_power, edited_talent, maneuver_from_mask,
    power_from_mask, talent_from_mask,
};
use web_starter::handlers::masks::{
    edited_mask, edited_mask_attack, edited_mask_maneuver, edited_mask_power, edited_mask_talent,
    empower_attack, empowerment_fits_steps, mask_from_form,
};
use web_starter::models::{
    ActionTarget, ActionType, Attack, InsertableAttack, InsertableCreature, InsertableManeuver,
    InsertableMask, InsertableMaskAttack, InsertableMaskManeuver, InsertableMaskPower,
    InsertableMaskTalent, InsertablePower, InsertableSpell, InsertableTalent, InsertableToDo,
    Locales, Maneuver, Mask, MaskAttack, MaskManeuver, MaskPower, MaskTalent, Power,
    PriorityType, Rarity, ResistedBy, Tags, Talent, ToDo, UserRole,
};
use web_starter::APP_NAME;

fn attack(details: Option<&str>) -> Attack {
    Attack {
        id: 1,
        creator_id: 2,
        creature_id: 3,
        name: "Claw".to_string(),
        action_step: 10,
        effect_step: 12,
        details: details.map(|d| d.to_string()),
        created_at: 4,
        updated_at: 5,
    }
}

fn power() -> Power {
    Power {
        id: 1,
        creator_id: 2,
        creature_id: 3,
        name: "Fear".to_string(),
        action_type: ActionType::Simple,
        target: ActionTarget::MysticDefense,
        resisted_by: ResistedBy::Mystic,
        action_step: 8,
        effect_step: None,
        details: Some("Scary".to_string()),
        created_at: 4,
        updated_at: 5,
    }
}

fn mask(name: &str, action_mod: i32, effect_mod: i32) -> Mask {
    Mask {
        id: 77,
        creator_id: 5,
        creator_slug: "maker".to_string(),
        name: name.to_string(),
        description: "A mask".to_string(),
        circle_rank: 1,
        dexterity: 2,
        strength: 3,
        constitution: 4,
        perception: 5,
        willpower: 6,
        charisma: 7,
        initiative: 8,
        pd: 9,
        md: 10,
        sd: 11,
        pa: 12,
        ma: 13,
        unconsciousness_rating: 14,
        death_rating: 15,
        wound: 16,
        knockdown: 17,
        actions: 18,
        recovery_rolls: 19,
        karma: 20,
        attack_action_mod: action_mod,
        attack_effect_mod: effect_mod,
        created_at: 30,
        updated_at: 31,
    }
}

fn mask_form() -> MaskForm {
    MaskForm {
        name: "Lich".to_string(),
        description: "Undead".to_string(),
        circle_rank: -1,
        dexterity: -2,
        strength: -3,
        constitution: -4,
        perception: -5,
        willpower: -6,
        charisma: -7,
        initiative: -8,
        pd: -9,
        md: -10,
        sd: -11,
        pa: -12,
        ma: -13,
        unconsciousness_rating: -14,
        death_rating: -15,
        wound: -16,
        knockdown: -17,
        actions: -18,
        recovery_rolls: -19,
        karma: -20,
        attack_action_mod: 2,
        attack_effect_mod: 3,
    }
}

#[test]
fn empowered_attack_with_details() {
    let a = empower_attack(attack(Some("Sharp")), &mask("Vampire", 2, -1));
    assert_eq!(a.action_step, 12);
    assert_eq!(a.effect_step, 11);
    assert_eq!(a.details, Some("Sharp. Empowered by Vampire".to_string()));
    assert_eq!(a.name, "Claw");
    assert_eq!(a.id, 1);
    assert_eq!(a.updated_at, 5);
}

#[test]
fn empowered_attack_without_details() {
    let a = empower_attack(attack(None), &mask("Vampire", 1, 1));
    assert_eq!(a.details, Some("Empowered by Vampire".to_string()));
    assert_eq!((a.action_step, a.effect_step), (11, 13));
}

#[test]
fn empowerment_needs_room() {
    assert!(empowerment_fits_steps(&attack(None), &mask("M", 1, 1)));
    assert!(!empowerment_fits_steps(&attack(None), &mask("M", i32::MAX, 0)));
    assert!(!empowerment_fits_steps(&attack(None), &mask("M", 0, i32::MAX)));
}

#[test]
fn mask_modifiers_and_deltas() {
    assert!(mask("M", 1, 0).empowers_attacks());
    assert!(mask("M", 0, -1).empowers_attacks());
    assert!(!mask("M", 0, 0).empowers_attacks());
    let d = mask("M", 0, 0).deltas();
    assert_eq!((d.circle_rank, d.dexterity, d.karma), (1, 2, 20));
    let r = mask("Lich", 0, 0).to_ref();
    assert_eq!((r.id, r.name.as_str()), (77, "Lich"));
}

#[test]
fn new_mask_from_form() {
    let m: InsertableMask = mask_from_form(&mask_form(), 9, "amy".to_string());
    assert_eq!(m.creator_id, 9);
    assert_eq!(m.creator_slug, "amy");
    assert_eq!(m.name, "Lich");
    assert_eq!(m.dexterity, -2);
    assert_eq!(m.karma, -20);
    assert_eq!((m.attack_action_mod, m.attack_effect_mod), (2, 3));
    assert_eq!(m.created_at, m.updated_at);
}

#[test]
fn mask_edited_from_form() {
    let m = edited_mask(mask("Vampire", 0, 0), &mask_form());
    assert_eq!(m.id, 77);
    assert_eq!(m.creator_slug, "maker");
    assert_eq!(m.name, "Lich");
    assert_eq!(m.wound, -16);
    assert_eq!((m.attack_action_mod, m.attack_effect_mod), (2, 3));
    assert_eq!((m.created_at, m.updated_at), (30, 31));
}

#[test]
fn mask_items_edited_from_forms() {
    let a = edited_mask_attack(
        MaskAttack { id: 1, creator_id: 2, mask_id: 3, name: "Bite".to_string(), action_step: 1, effect_step: 2, details: None, created_at: 4, updated_at: 5 },
        &MaskAttackForm { name: "Big Bite".to_string(), action_step: 7, effect_step: 8, details: Some("Ouch".to_string()) },
    );
    assert_eq!((a.id, a.mask_id, a.name.as_str(), a.action_step, a.effect_step), (1, 3, "Big Bite", 7, 8));
    assert_eq!(a.details, Some("Ouch".to_string()));
    let p = edited_mask_power(
        MaskPower { id: 1, creator_id: 2, mask_id: 3, name: "Gaze".to_string(), action_type: ActionType::Free, target: ActionTarget::Other, resisted_by: ResistedBy::Other, action_step: 1, effect_step: Some(2), details: None, created_at: 4, updated_at: 5 },
        &MaskPowerForm { name: "Stare".to_string(), action_type: ActionType::Ritual, target: ActionTarget::SocialDefense, resisted_by: ResistedBy::NotApplicable, action_step: 6, effect_step: None, details: None },
    );
    assert_eq!(p.name, "Stare");
    assert_eq!(p.action_type, ActionType::Ritual);
    assert_eq!(p.target, ActionTarget::SocialDefense);
    assert_eq!(p.resisted_by, ResistedBy::NotApplicable);
    assert_eq!((p.action_step, p.effect_step), (6, None));
    let t = edited_mask_talent(
        MaskTalent { id: 1, creator_id: 2, mask_id: 3, name: "Run".to_string(), action_step: 1, created_at: 4, updated_at: 5 },
        &MaskTalentForm { name: "Sprint".to_string(), action_step: 9 },
    );
    assert_eq!((t.name.as_str(), t.action_step, t.mask_id), ("Sprint", 9, 3));
    let m = edited_mask_maneuver(
        MaskManeuver { id: 1, creator_id: 2, mask_id: 3, name: "Dodge".to_string(), source: "Mask".to_string(), details: "d".to_string(), created_at: 4, updated_at: 5 },
        &MaskManeuverForm { name: "Roll".to_string(), source: "Book".to_string(), details: "e".to_string() },
    );
    assert_eq!((m.name.as_str(), m.source.as_str(), m.details.as_str(), m.updated_at), ("Roll", "Book", "e", 5));
}

#[test]
fn items_edited_from_forms() {
    let a = edited_attack(attack(None), &AttackForm { name: "Bite".to_string(), action_step: 3, effect_step: 4, details: Some("x".to_string()) }, 42, 900);
    assert_eq!((a.id, a.creator_id, a.creature_id, a.created_at, a.updated_at), (1, 42, 3, 4, 900));
    assert_eq!((a.name.as_str(), a.action_step, a.effect_step), ("Bite", 3, 4));
    assert_eq!(a.details, Some("x".to_string()));
    let p = edited_power(power(), &PowerForm { name: "Awe".to_string(), action_type: ActionType::Move, target: ActionTarget::NotApplicable, resisted_by: ResistedBy::Physical, action_step: 5, effect_step: Some(6), details: None }, 42, 900);
    assert_eq!((p.creator_id, p.updated_at, p.created_at), (42, 900, 4));
    assert_eq!((p.action_type, p.effect_step, p.details), (ActionType::Move, Some(6), None));
    let m = edited_maneuver(Maneuver { id: 1, creator_id: 2, creature_id: 3, name: "a".to_string(), source: "b".to_string(), details: "c".to_string(), created_at: 4, updated_at: 5 }, &ManeuverForm { name: "A".to_string(), source: "B".to_string(), details: "C".to_string() }, 42, 900);
    assert_eq!((m.name.as_str(), m.source.as_str(), m.details.as_str(), m.creator_id, m.creature_id), ("A", "B", "C", 42, 3));
    let t = edited_talent(Talent { id: 1, creator_id: 2, creature_id: 3, name: "a".to_string(), action_step: 1, created_at: 4, updated_at: 5 }, &TalentForm { name: "T".to_string(), action_step: 11 }, 42, 900);
    assert_eq!((t.name.as_str(), t.action_step, t.updated_at), ("T", 11, 900));
}

#[test]
fn items_carried_over_to_a_copy() {
    let a: InsertableAttack = copied_attack(&attack(Some("Sharp")), 8, 9);
    assert_eq!((a.creator_id, a.creature_id, a.name.as_str(), a.action_step, a.effect_step), (8, 9, "Claw", 10, 12));
    assert_eq!(a.details, Some("Sharp".to_string()));
    let p: InsertablePower = copied_power(&power(), 8, 9);
    assert_eq!((p.creature_id, p.action_type, p.target, p.resisted_by, p.effect_step), (9, ActionType::Simple, ActionTarget::MysticDefense, ResistedBy::Mystic, None));
    let m: InsertableManeuver = copied_maneuver(&Maneuver { id: 1, creator_id: 2, creature_id: 3, name: "a".to_string(), source: "b".to_string(), details: "c".to_string(), created_at: 4, updated_at: 5 }, 8, 9);
    assert_eq!((m.creator_id, m.creature_id, m.name.as_str(), m.source.as_str(), m.details.as_str()), (8, 9, "a", "b", "c"));
    let t: InsertableTalent = copied_talent(&Talent { id: 1, creator_id: 2, creature_id: 3, name: "a".to_string(), action_step: 6, created_at: 4, updated_at: 5 }, 8, 9);
    assert_eq!((t.creature_id, t.action_step), (9, 6));
    assert_eq!(copy_details(&Some("z".to_string())), Some("z".to_string()));
    assert_eq!(copy_details(&None), None);
}

#[test]
fn items_given_by_a_mask() {
    let a = attack_from_mask(&MaskAttack { id: 1, creator_id: 2, mask_id: 3, name: "Bite".to_string(), action_step: 7, effect_step: 8, details: None, created_at: 4, updated_at: 5 }, 8, 9);
    assert_eq!((a.creator_id, a.creature_id, a.name.as_str(), a.action_step, a.effect_step, a.details), (8, 9, "Bite", 7, 8, None));
    let p = power_from_mask(&MaskPower { id: 1, creator_id: 2, mask_id: 3, name: "Gaze".to_string(), action_type: ActionType::Free, target: ActionTarget::Other, resisted_by: ResistedBy::Other, action_step: 1, effect_step: Some(2), details: Some("d".to_string()), created_at: 4, updated_at: 5 }, 8, 9);
    assert_eq!((p.name.as_str(), p.action_type, p.effect_step, p.details), ("Gaze", ActionType::Free, Some(2), Some("d".to_string())));
    let t = talent_from_mask(&MaskTalent { id: 1, creator_id: 2, mask_id: 3, name: "Run".to_string(), action_step: 4, created_at: 4, updated_at: 5 }, 8, 9);
    assert_eq!((t.creature_id, t.name.as_str(), t.action_step), (9, "Run", 4));
    let m = maneuver_from_mask(&MaskManeuver { id: 1, creator_id: 2, mask_id: 3, name: "Dodge".to_string(), source: "Mask".to_string(), details: "d".to_string(), created_at: 4, updated_at: 5 }, 8, 9);
    assert_eq!((m.creature_id, m.source.as_str()), (9, "Mask"));
}

#[test]
fn record_defaults() {
    let c = InsertableCreature::default(3, "bob".to_string());
    assert_eq!(c.name, "");
    assert_eq!(c.found_in, vec![Some(Locales::Jungle)]);
    assert_eq!(c.rarity, Rarity::Rare);
    assert_eq!((c.circle_rank, c.dexterity, c.pd, c.unconsciousness_rating, c.death_rating, c.wound, c.actions, c.recovery_rolls, c.karma), (5, 10, 9, 45, 55, 12, 2, 3, 0));
    assert_eq!(c.slug, "esparaga");
    assert_eq!(c.movement, "10");
    assert_eq!(c.image_url, Some("hdahdksfashf".to_string()));
    assert_eq!(c.tags, vec![Some(Tags::Creature)]);
    assert_eq!(c.created_at, c.updated_at);
    assert!(c.created_at > 1_500_000_000_000_000);
    let a = InsertableAttack::default(1, 2);
    assert_eq!((a.name.as_str(), a.action_step, a.effect_step), ("Melee Attack", 9, 9));
    assert_eq!(a.details, Some("A basic attack".to_string()));
    let p = InsertablePower::default(1, 2);
    assert_eq!((p.name.as_str(), p.action_type, p.target, p.resisted_by, p.effect_step), ("Generic Power", ActionType::Standard, ActionTarget::PhysicalDefense, ResistedBy::Physical, Some(9)));
    let s = InsertableSpell::default(1, 2);
    assert_eq!(s.name, "Generic Spell");
    assert_eq!(s.details, Some("A basic spell".to_string()));
    let m = InsertableManeuver::default(1, 2);
    assert_eq!((m.name.as_str(), m.source.as_str(), m.details.as_str()), ("Melee Maneuver", "Creature", "A basic maneuver"));
    let t = InsertableTalent::default(1, 2);
    assert_eq!((t.name.as_str(), t.action_step), ("Melee Talent", 9));
}

#[test]
fn record_builders() {
    let c = InsertableCreature::new(
        1, "bob".to_string(), " Shadow Cat ".to_string(), vec![Some(Locales::Forest)], Rarity::Unique,
        3, "Sleek".to_string(), 4, 5, 6, 7, 8, 9, 10, 11, 12, 13, 14, 15, 16, 17, 18, 19, 20,
        "14".to_string(), 21, 22, vec![Some(Tags::Spirit)], vec![Some(5)],
    );
    assert_eq!(c.slug, "shadow_cat");
    assert_eq!(c.image_url, Some("default_image_url".to_string()));
    assert_eq!((c.circle_rank, c.dexterity, c.actions, c.recovery_rolls, c.karma), (3, 4, 20, 21, 22));
    assert_eq!(c.masks, vec![Some(5)]);
    let m = InsertableMaskAttack::new(1, 2, "Bite".to_string(), 3, 4, None);
    assert_eq!((m.mask_id, m.action_step), (2, 3));
    let p = InsertableMaskPower::new(1, 2, "Gaze".to_string(), ActionType::Free, ActionTarget::Other, ResistedBy::Other, 3, None, None);
    assert_eq!(p.created_at, p.updated_at);
    let t = InsertableMaskTalent::new(1, 2, "Run".to_string(), 3);
    assert_eq!(t.action_step, 3);
    let n = InsertableMaskManeuver::new(1, 2, "Dodge".to_string(), "Mask".to_string(), "d".to_string());
    assert_eq!(n.source, "Mask");
    let todo = InsertableToDo::new(7, "Feed".to_string(), None, PriorityType::High, true);
    assert_eq!((todo.list_id, todo.title.as_str(), todo.priority, todo.active), (7, "Feed", PriorityType::High, true));
}

#[test]
fn toggling_a_todo() {
    let t = ToDo { id: 1, list_id: 2, title: "a".to_string(), description: None, priority: PriorityType::Low, active: true, created_at: 0, updated_at: 0 };
    assert!(!t.toggled_status());
    let u = ToDo { active: false, ..t };
    assert!(u.toggled_status());
}

#[test]
fn page_context_entries() {
    let (ctx, user, role, lang) = generate_email_context("bob".to_string(), UserRole::Admin, "fr", "/fr/masks");
    assert_eq!(user, "bob");
    assert_eq!(role, UserRole::Admin);
    assert_eq!(lang, "fr");
    assert_eq!(ctx.get("session_user"), Some(&tera::Value::String("bob".to_string())));
    assert_eq!(ctx.get("role"), Some(&tera::Value::String("Admin".to_string())));
    assert_eq!(ctx.get("lang"), Some(&tera::Value::String("fr".to_string())));
    assert_eq!(ctx.get("path"), Some(&tera::Value::String("/fr/masks".to_string())));
    let (ctx, _, _, lang) = generate_email_context(String::new(), UserRole::Visitor, "de", "/de");
    assert_eq!(lang, "de");
    assert_eq!(ctx.get("lang"), Some(&tera::Value::String("en".to_string())));
    assert_eq!(ctx.get("role"), Some(&tera::Value::String("Visitor".to_string())));
    assert_eq!(ctx.get("session_user"), Some(&tera::Value::String(String::new())));
}

#[test]
fn role_labels_and_app_name() {
    assert_eq!(UserRole::User.label(), "User");
    assert_eq!(APP_NAME, "Earthdawn Creatures");
}
