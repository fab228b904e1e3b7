use web_starter::handlers::access::{creature_template, delete_decision, DeleteDecision};
use web_starter::handlers::creatures::{
    checked_locales, checked_tags, copy_of_creature, creature_from_form, edited_creature,
    mask_fits_stats, masked_copy_of_creature, selected_mask_id, stats_with_mask,
};
use web_starter::handlers::forms::CreatureForm;
use web_starter::models::{
    may_modify, Creature, InsertableCreature, Locales, Mask, Rarity, Tags, UserRole,
};
use web_starter::stats::{apply_deltas, deltas_fit, StatLine};

fn line(v: i32) -> StatLine {
    StatLine {
        circle_rank: v,
        dexterity: v,
        strength: v,
        constitution: v,
        perception: v,
        willpower: v,
        charisma: v,
        initiative: v,
        pd: v,
        md: v,
        sd: v,
        pa: v,
        ma: v,
        unconsciousness_rating: v,
        death_rating: v,
        wound: v,
        knockdown: v,
        actions: v,
        recovery_rolls: v,
        karma: v,
    }
}

fn values(s: &StatLine) -> Vec<i32> {
    vec![
        s.circle_rank,
        s.dexterity,
        s.strength,
        s.constitution,
        s.perception,
        s.willpower,
        s.charisma,
        s.initiative,
        s.pd,
        s.md,
        s.sd,
        s.pa,
        s.ma,
        s.unconsciousness_rating,
        s.death_rating,
        s.wound,
        s.knockdown,
        s.actions,
        s.recovery_rolls,
        s.karma,
    ]
}

fn counting_line() -> StatLine {
    StatLine {
        circle_rank: 1,
        dexterity: 2,
        strength: 3,
        constitution: 4,
        perception: 5,
        willpower: 6,
        charisma: 7,
        initiative: 8,
        pd: 9,
        md: 10,
        sd: 11,
        pa: 12,
        ma: 13,
        unconsciousness_rating: 14,
        death_rating: 15,
        wound: 16,
        knockdown: 17,
        actions: 18,
        recovery_rolls: 19,
        karma: 20,
    }
}

fn mask(name: &str, d: i32, action_mod: i32, effect_mod: i32) -> Mask {
    Mask {
        id: 77,
        creator_id: 5,
        creator_slug: "maker".to_string(),
        name: name.to_string(),
        description: "A mask".to_string(),
        circle_rank: d,
        dexterity: d,
        strength: d,
        constitution: d,
        perception: d,
        willpower: d,
        charisma: d,
        initiative: d,
        pd: d,
        md: d,
        sd: d,
        pa: d,
        ma: d,
        unconsciousness_rating: d,
        death_rating: d,
        wound: d,
        knockdown: d,
        actions: d,
        recovery_rolls: d,
        karma: d,
        attack_action_mod: action_mod,
        attack_effect_mod: effect_mod,
        created_at: 1,
        updated_at: 2,
    }
}

fn form(name: &str) -> CreatureForm {
    let s = counting_line();
    CreatureForm {
        name: name.to_string(),
        rarity: Rarity::Uncommon,
        jungle: None,
        desert: Some("on".to_string()),
        forest: None,
        plains: None,
        urban: Some("on".to_string()),
        mountain: None,
        cavern: None,
        swamp: None,
        kaer: None,
        any: Some("on".to_string()),
        creature: Some("on".to_string()),
        spirit: None,
        elemental: None,
        horror: Some("on".to_string()),
        dragon: None,
        horror_construct: None,
        adept: None,
        npc: Some("on".to_string()),
        other: None,
        circle_rank: s.circle_rank,
        description: "Lurks".to_string(),
        dexterity: s.dexterity,
        strength: s.strength,
        constitution: s.constitution,
        perception: s.perception,
        willpower: s.willpower,
        charisma: s.charisma,
        initiative: s.initiative,
        pd: s.pd,
        md: s.md,
        sd: s.sd,
        pa: s.pa,
        ma: s.ma,
        unconsciousness_rating: s.unconsciousness_rating,
        death_rating: s.death_rating,
        wound: s.wound,
        knockdown: s.knockdown,
        actions: s.actions,
        movement: "12".to_string(),
        recovery_rolls: s.recovery_rolls,
        karma: s.karma,
        image_url: None,
        mask_id: None,
    }
}

fn creature() -> Creature {
    let s = counting_line();
    Creature {
        id: 1000,
        creator_id: 1,
        creator_slug: "bob".to_string(),
        name: "Ghoul".to_string(),
        found_in: vec![Some(Locales::Cavern)],
        rarity: Rarity::Common,
        circle_rank: s.circle_rank,
        description: "Hungry".to_string(),
        dexterity: s.dexterity,
        strength: s.strength,
        constitution: s.constitution,
        perception: s.perception,
        willpower: s.willpower,
        charisma: s.charisma,
        initiative: s.initiative,
        pd: s.pd,
        md: s.md,
        sd: s.sd,
        pa: s.pa,
        ma: s.ma,
        unconsciousness_rating: s.unconsciousness_rating,
        death_rating: s.death_rating,
        wound: s.wound,
        knockdown: s.knockdown,
        actions: s.actions,
        movement: "8".to_string(),
        recovery_rolls: s.recovery_rolls,
        karma: s.karma,
        slug: "ghoul".to_string(),
        image_url: Some("ghoul.png".to_string()),
        created_at: 100,
        updated_at: 200,
        tags: vec![Some(Tags::Horror)],
        masks: vec![Some(77)],
    }
}

fn insertable_values(c: &InsertableCreature) -> Vec<i32> {
    vec![
        c.circle_rank,
        c.dexterity,
        c.strength,
        c.constitution,
        c.perception,
        c.willpower,
        c.charisma,
        c.initiative,
        c.pd,
        c.md,
        c.sd,
        c.pa,
        c.ma,
        c.unconsciousness_rating,
        c.death_rating,
        c.wound,
        c.knockdown,
        c.actions,
        c.recovery_rolls,
        c.karma,
    ]
}

#[test]
fn deltas_are_added_value_by_value() {
    let r = apply_deltas(&counting_line(), &line(10));
    assert_eq!(values(&r), (11..=30).collect::<Vec<i32>>());
    let r = apply_deltas(&counting_line(), &line(-1));
    assert_eq!(values(&r), (0..=19).collect::<Vec<i32>>());
}

#[test]
fn zero_mask_changes_nothing() {
    let base = counting_line();
    assert_eq!(apply_deltas(&base, &line(0)), base);
}

#[test]
fn masks_commute() {
    let base = counting_line();
    let m1 = line(3);
    let m2 = line(-7);
    let a = apply_deltas(&apply_deltas(&base, &m1), &m2);
    let b = apply_deltas(&apply_deltas(&base, &m2), &m1);
    assert_eq!(a, b);
}

#[test]
fn deltas_fit_detects_overflow() {
    assert!(deltas_fit(&counting_line(), &line(5)));
    let mut big = line(0);
    big.karma = i32::MAX;
    assert!(!deltas_fit(&counting_line(), &big));
    let mut low = line(0);
    low.dexterity = i32::MIN;
    assert!(!deltas_fit(&line(-1), &low));
    assert!(deltas_fit(&line(1), &low));
}

#[test]
fn ticked_places_in_form_order() {
    let f = form("Ghoul");
    assert_eq!(
        checked_locales(&f),
        vec![Some(Locales::Desert), Some(Locales::Urban), Some(Locales::Any)]
    );
    assert_eq!(
        checked_tags(&f),
        vec![Some(Tags::Creature), Some(Tags::Horror), Some(Tags::NPC)]
    );
}

#[test]
fn no_box_ticked_gives_nothing() {
    let mut f = form("Ghoul");
    f.desert = None;
    f.urban = None;
    f.any = None;
    f.creature = None;
    f.horror = None;
    f.npc = None;
    assert!(checked_locales(&f).is_empty());
    assert!(checked_tags(&f).is_empty());
}

#[test]
fn mask_choice_from_form_field() {
    assert_eq!(selected_mask_id(&None), None);
    assert_eq!(selected_mask_id(&Some(String::new())), None);
    assert_eq!(selected_mask_id(&Some("not a uuid".to_string())), None);
    assert_eq!(
        selected_mask_id(&Some("67e55044-10b1-426f-9247-bb680e5fe0c8".to_string())),
        Some(0x67e5504410b1426f9247bb680e5fe0c8u128)
    );
}

#[test]
fn stats_with_and_without_mask() {
    let base = counting_line();
    assert_eq!(stats_with_mask(&base, &None), base);
    let m = mask("Vampire", 2, 0, 0);
    assert_eq!(values(&stats_with_mask(&base, &Some(m.clone()))), (3..=22).collect::<Vec<i32>>());
    assert!(mask_fits_stats(&base, &Some(m)));
    assert!(!mask_fits_stats(&line(i32::MAX), &Some(mask("Huge", 1, 0, 0))));
    assert!(mask_fits_stats(&line(i32::MAX), &None));
}

#[test]
fn new_creature_from_form_without_mask() {
    let f = form("  Ghoul King ");
    let c = creature_from_form(&f, &None, 9, "bob".to_string());
    assert_eq!(c.creator_id, 9);
    assert_eq!(c.creator_slug, "bob");
    assert_eq!(c.name, "  Ghoul King ");
    assert_eq!(c.slug, "ghoul_king");
    assert_eq!(c.rarity, Rarity::Uncommon);
    assert_eq!(insertable_values(&c), (1..=20).collect::<Vec<i32>>());
    assert_eq!(c.found_in, vec![Some(Locales::Desert), Some(Locales::Urban), Some(Locales::Any)]);
    assert_eq!(c.tags, vec![Some(Tags::Creature), Some(Tags::Horror), Some(Tags::NPC)]);
    assert_eq!(c.image_url, Some("default_image_url".to_string()));
    assert_eq!(c.description, "Lurks");
    assert_eq!(c.movement, "12");
    assert!(c.masks.is_empty());
    assert_eq!(c.created_at, c.updated_at);
}

#[test]
fn new_creature_from_form_with_mask() {
    let f = form("Ghoul");
    let c = creature_from_form(&f, &Some(mask("Vampire", 5, 0, 0)), 9, "bob".to_string());
    assert_eq!(insertable_values(&c), (6..=25).collect::<Vec<i32>>());
    assert_eq!(c.name, "Ghoul");
}

#[test]
fn edited_creature_keeps_identity() {
    let old = creature();
    let f = form("Ghoul Lord");
    let c = edited_creature(old, &f, &Some(mask("Vampire", -1, 0, 0)), 42, 999);
    assert_eq!(c.id, 1000);
    assert_eq!(c.creator_id, 42);
    assert_eq!(c.creator_slug, "bob");
    assert_eq!(c.name, "Ghoul Lord");
    assert_eq!(c.slug, "ghoul_lord");
    assert_eq!(c.image_url, None);
    assert_eq!(c.created_at, 100);
    assert_eq!(c.updated_at, 999);
    assert_eq!(c.masks, vec![Some(77)]);
    assert_eq!(values(&c.stats()), (0..=19).collect::<Vec<i32>>());
    assert_eq!(c.found_in, vec![Some(Locales::Desert), Some(Locales::Urban), Some(Locales::Any)]);
}

#[test]
fn plain_copy_of_a_creature() {
    let c = copy_of_creature(creature(), 7, "amy".to_string(), "Ab3dE6gH", 555);
    assert_eq!(c.name, "Copy of Ghoul-Ab3dE6gH");
    assert_eq!(c.slug, slug_expected("Copy of Ghoul-Ab3dE6gH"));
    assert_eq!(c.creator_id, 7);
    assert_eq!(c.creator_slug, "amy");
    assert_eq!(insertable_values(&c), (1..=20).collect::<Vec<i32>>());
    assert_eq!(c.found_in, vec![Some(Locales::Cavern)]);
    assert_eq!(c.tags, vec![Some(Tags::Horror)]);
    assert_eq!(c.masks, vec![Some(77)]);
    assert_eq!(c.image_url, None);
    assert_eq!(c.created_at, 555);
    assert_eq!(c.updated_at, 555);
    assert_eq!(c.description, "Hungry");
    assert_eq!(c.movement, "8");
}

fn slug_expected(name: &str) -> String {
    web_starter::text::slugify(name)
}

#[test]
fn masked_copy_of_a_creature() {
    let c = masked_copy_of_creature(
        creature(),
        &Some(mask("Vampire", 1, 0, 0)),
        7,
        "amy".to_string(),
        "xyz",
        555,
    );
    assert_eq!(c.name, "Vampire Ghoul-xyz");
    assert_eq!(c.slug, "vampire_ghoul_xyz");
    assert_eq!(insertable_values(&c), (2..=21).collect::<Vec<i32>>());
    let d = masked_copy_of_creature(creature(), &None, 7, "amy".to_string(), "xyz", 555);
    assert_eq!(d.name, "Ghoul-xyz");
    assert_eq!(insertable_values(&d), (1..=20).collect::<Vec<i32>>());
}

#[test]
fn who_may_modify() {
    assert!(may_modify("bob", "bob", UserRole::User));
    assert!(may_modify("amy", "bob", UserRole::Admin));
    assert!(!may_modify("amy", "bob", UserRole::User));
    assert!(!may_modify("amy", "bob", UserRole::Visitor));
}

#[test]
fn delete_decisions() {
    assert_eq!(delete_decision("bob", UserRole::User, "bob", "Ghoul", " Ghoul "), DeleteDecision::Confirmed);
    assert_eq!(delete_decision("amy", UserRole::Admin, "bob", "Ghoul", "Ghoul"), DeleteDecision::Confirmed);
    assert_eq!(delete_decision("bob", UserRole::User, "bob", "Ghoul", "Ghoull"), DeleteDecision::NotConfirmed);
    assert_eq!(delete_decision("amy", UserRole::User, "bob", "Ghoul", "Ghoul"), DeleteDecision::NotAuthorized);
}

#[test]
fn creature_templates() {
    assert_eq!(creature_template("in_game"), "creatures/in_game_creature.html");
    assert_eq!(creature_template("view"), "creatures/creature.html");
    assert_eq!(creature_template(""), "creatures/creature.html");
}
