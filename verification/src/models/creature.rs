//! Creatures: their records, where they are found and how they are tagged.

use vstd::prelude::*;
use crate::models::{now, Id, Timestamp};
use crate::stats::StatLine;
use crate::text::{slug_of, slugify};

verus! {

/// A stored creature.
#[derive(Clone, Debug)]
pub struct Creature {
    pub id: Id,
    pub creator_id: Id,
    pub creator_slug: String,
    pub name: String,
    pub found_in: Vec<Option<Locales>>,
    pub rarity: Rarity,
    pub circle_rank: i32,
    pub description: String,
    pub dexterity: i32,
    pub strength: i32,
    pub constitution: i32,
    pub perception: i32,
    pub willpower: i32,
    pub charisma: i32,
    pub initiative: i32,
    pub pd: i32,
    pub md: i32,
    pub sd: i32,
    pub pa: i32,
    pub ma: i32,
    pub unconsciousness_rating: i32,
    pub death_rating: i32,
    pub wound: i32,
    pub knockdown: i32,
    pub actions: i32,
    pub movement: String,
    pub recovery_rolls: i32,
    pub karma: i32,
    pub slug: String,
    pub image_url: Option<String>,
    pub created_at: Timestamp,
    pub updated_at: Timestamp,
    pub tags: Vec<Option<Tags>>,
    pub masks: Vec<Option<Id>>,
}

/// How often a creature is met.
#[derive(Clone, Copy, Debug, PartialEq, Eq, Structural)]
pub enum Rarity {
    Common,
    Uncommon,
    Rare,
    Unique,
}

/// The places a creature can be found in.
#[derive(Clone, Copy, Debug, PartialEq, Eq, Structural)]
pub enum Locales {
    Jungle,
    Desert,
    Forest,
    Plains,
    Urban,
    Mountain,
    Cavern,
    Swamp,
    Kaer,
    Any,
}

/// The kinds a creature can be tagged with.
#[derive(Clone, Copy, Debug, PartialEq, Eq, Structural)]
pub enum Tags {
    Creature,
    Spirit,
    Elemental,
    Horror,
    Dragon,
    HorrorConstruct,
    Adept,
    NPC,
    Other,
}

impl Creature {
    /// The stat line of the creature.
    pub open spec fn spec_stats(&self) -> StatLine {
        StatLine {
            circle_rank: self.circle_rank,
            dexterity: self.dexterity,
            strength: self.strength,
            constitution: self.constitution,
            perception: self.perception,
            willpower: self.willpower,
            charisma: self.charisma,
            initiative: self.initiative,
            pd: self.pd,
            md: self.md,
            sd: self.sd,
            pa: self.pa,
            ma: self.ma,
            unconsciousness_rating: self.unconsciousness_rating,
            death_rating: self.death_rating,
            wound: self.wound,
            knockdown: self.knockdown,
            actions: self.actions,
            recovery_rolls: self.recovery_rolls,
            karma: self.karma,
        }
    }

    /// The stat line of the creature.
    pub fn stats(&self) -> (r: StatLine)
        ensures
            r == self.spec_stats(),
            r.circle_rank == self.circle_rank,
            r.dexterity == self.dexterity,
            r.strength == self.strength,
            r.constitution == self.constitution,
            r.perception == self.perception,
            r.willpower == self.willpower,
            r.charisma == self.charisma,
            r.initiative == self.initiative,
            r.pd == self.pd,
            r.md == self.md,
            r.sd == self.sd,
            r.pa == self.pa,
            r.ma == self.ma,
            r.unconsciousness_rating == self.unconsciousness_rating,
            r.death_rating == self.death_rating,
            r.wound == self.wound,
            r.knockdown == self.knockdown,
            r.actions == self.actions,
            r.recovery_rolls == self.recovery_rolls,
            r.karma == self.karma,
    {
        StatLine {
            circle_rank: self.circle_rank,
            dexterity: self.dexterity,
            strength: self.strength,
            constitution: self.constitution,
            perception: self.perception,
            willpower: self.willpower,
            charisma: self.charisma,
            initiative: self.initiative,
            pd: self.pd,
            md: self.md,
            sd: self.sd,
            pa: self.pa,
            ma: self.ma,
            unconsciousness_rating: self.unconsciousness_rating,
            death_rating: self.death_rating,
            wound: self.wound,
            knockdown: self.knockdown,
            actions: self.actions,
            recovery_rolls: self.recovery_rolls,
            karma: self.karma,
        }
    }
}

/// A creature not stored yet.
#[derive(Clone, Debug)]
pub struct InsertableCreature {
    pub creator_id: Id,
    pub creator_slug: String,
    pub name: String,
    pub found_in: Vec<Option<Locales>>,
    pub rarity: Rarity,
    pub circle_rank: i32,
    pub description: String,
    pub dexterity: i32,
    pub strength: i32,
    pub constitution: i32,
    pub perception: i32,
    pub willpower: i32,
    pub charisma: i32,
    pub initiative: i32,
    pub pd: i32,
    pub md: i32,
    pub sd: i32,
    pub pa: i32,
    pub ma: i32,
    pub unconsciousness_rating: i32,
    pub death_rating: i32,
    pub wound: i32,
    pub knockdown: i32,
    pub actions: i32,
    pub movement: String,
    pub recovery_rolls: i32,
    pub karma: i32,
    pub slug: String,
    pub image_url: Option<String>,
    pub created_at: Timestamp,
    pub updated_at: Timestamp,
    pub tags: Vec<Option<Tags>>,
    pub masks: Vec<Option<Id>>,
}

impl InsertableCreature {
    /// The stat line of the creature.
    pub open spec fn spec_stats(&self) -> StatLine {
        StatLine {
            circle_rank: self.circle_rank,
            dexterity: self.dexterity,
            strength: self.strength,
            constitution: self.constitution,
            perception: self.perception,
            willpower: self.willpower,
            charisma: self.charisma,
            initiative: self.initiative,
            pd: self.pd,
            md: self.md,
            sd: self.sd,
            pa: self.pa,
            ma: self.ma,
            unconsciousness_rating: self.unconsciousness_rating,
            death_rating: self.death_rating,
            wound: self.wound,
            knockdown: self.knockdown,
            actions: self.actions,
            recovery_rolls: self.recovery_rolls,
            karma: self.karma,
        }
    }

    /// The starting point of the new-creature form, made by the user
    /// `creator_id` whose slug is `creator_slug`.
    pub fn default(creator_id: Id, creator_slug: String) -> (r: Self)
        ensures
            r.creator_id == creator_id,
            r.creator_slug == creator_slug,
            r.name@ == Seq::<char>::empty(),
            r.found_in@ == seq![Some(Locales::Jungle)],
            r.rarity == Rarity::Rare,
            r.circle_rank == 5,
            r.description@ == "Some description"@,
            r.dexterity == 10,
            r.strength == 10,
            r.constitution == 10,
            r.perception == 10,
            r.willpower == 10,
            r.charisma == 10,
            r.initiative == 10,
            r.pd == 9,
            r.md == 9,
            r.sd == 9,
            r.pa == 9,
            r.ma == 9,
            r.unconsciousness_rating == 45,
            r.death_rating == 55,
            r.wound == 12,
            r.knockdown == 10,
            r.actions == 2,
            r.movement@ == "10"@,
            r.recovery_rolls == 3,
            r.karma == 0,
            r.slug@ == "esparaga"@,
            r.image_url matches Some(u) && u@ == "hdahdksfashf"@,
            r.created_at == r.updated_at,
            r.tags@ == seq![Some(Tags::Creature)],
            r.masks@ == Seq::<Option<Id>>::empty(),
    {
        let today = now();
        InsertableCreature {
            creator_id,
            creator_slug,
            name: String::new(),
            found_in: vec![Some(Locales::Jungle)],
            rarity: Rarity::Rare,
            circle_rank: 5,
            description: String::from_str("Some description"),
            dexterity: 10,
            strength: 10,
            constitution: 10,
            perception: 10,
            willpower: 10,
            charisma: 10,
            initiative: 10,
            pd: 9,
            md: 9,
            sd: 9,
            pa: 9,
            ma: 9,
            unconsciousness_rating: 45,
            death_rating: 55,
            wound: 12,
            knockdown: 10,
            actions: 2,
            movement: String::from_str("10"),
            recovery_rolls: 3,
            karma: 0,
            slug: String::from_str("esparaga"),
            image_url: Some(String::from_str("hdahdksfashf")),
            created_at: today,
            updated_at: today,
            tags: vec![Some(Tags::Creature)],
            masks: Vec::new(),
        }
    }

    /// A new creature from the values of the form; its slug is the slug of
    /// its name and its image the default one.
    pub fn new(
        creator_id: Id,
        creator_slug: String,
        name: String,
        found_in: Vec<Option<Locales>>,
        rarity: Rarity,
        circle_rank: i32,
        description: String,
        dexterity: i32,
        strength: i32,
        constitution: i32,
        perception: i32,
        willpower: i32,
        charisma: i32,
        initiative: i32,
        pd: i32,
        md: i32,
        sd: i32,
        pa: i32,
        ma: i32,
        unconsciousness_rating: i32,
        death_rating: i32,
        wound: i32,
        knockdown: i32,
        actions: i32,
        movement: String,
        recovery_rolls: i32,
        karma: i32,
        tags: Vec<Option<Tags>>,
        masks: Vec<Option<Id>>,
    ) -> (r: Self)
        ensures
            r.creator_id == creator_id,
            r.creator_slug == creator_slug,
            r.name == name,
            r.found_in == found_in,
            r.rarity == rarity,
            r.circle_rank == circle_rank,
            r.description == description,
            r.dexterity == dexterity,
            r.strength == strength,
            r.constitution == constitution,
            r.perception == perception,
            r.willpower == willpower,
            r.charisma == charisma,
            r.initiative == initiative,
            r.pd == pd,
            r.md == md,
            r.sd == sd,
            r.pa == pa,
            r.ma == ma,
            r.unconsciousness_rating == unconsciousness_rating,
            r.death_rating == death_rating,
            r.wound == wound,
            r.knockdown == knockdown,
            r.actions == actions,
            r.movement == movement,
            r.recovery_rolls == recovery_rolls,
            r.karma == karma,
            r.slug@ == slug_of(name@),
            r.image_url matches Some(u) && u@ == "default_image_url"@,
            r.created_at == r.updated_at,
            r.tags == tags,
            r.masks == masks,
    {
        let slug = slugify(name.as_str());
        let today = now();
        InsertableCreature {
            creator_id,
            creator_slug,
            name,
            found_in,
            rarity,
            circle_rank,
            description,
            dexterity,
            strength,
            constitution,
            perception,
            willpower,
            charisma,
            initiative,
            pd,
            md,
            sd,
            pa,
            ma,
            unconsciousness_rating,
            death_rating,
            wound,
            knockdown,
            actions,
            movement,
            recovery_rolls,
            karma,
            slug,
            image_url: Some(String::from_str("default_image_url")),
            created_at: today,
            updated_at: today,
            tags,
            masks,
        }
    }
}

/// The stat line of a stored creature holds each of its own stat fields.
pub proof fn law_creature_stats_are_its_fields(x: Creature)
    ensures
        x.spec_stats().circle_rank == x.circle_rank,
        x.spec_stats().dexterity == x.dexterity,
        x.spec_stats().strength == x.strength,
        x.spec_stats().constitution == x.constitution,
        x.spec_stats().perception == x.perception,
        x.spec_stats().willpower == x.willpower,
        x.spec_stats().charisma == x.charisma,
        x.spec_stats().initiative == x.initiative,
        x.spec_stats().pd == x.pd,
        x.spec_stats().md == x.md,
        x.spec_stats().sd == x.sd,
        x.spec_stats().pa == x.pa,
        x.spec_stats().ma == x.ma,
        x.spec_stats().unconsciousness_rating == x.unconsciousness_rating,
        x.spec_stats().death_rating == x.death_rating,
        x.spec_stats().wound == x.wound,
        x.spec_stats().knockdown == x.knockdown,
        x.spec_stats().actions == x.actions,
        x.spec_stats().recovery_rolls == x.recovery_rolls,
        x.spec_stats().karma == x.karma,
{
}

/// The stat line of a new creature holds each of its own stat fields.
pub proof fn law_insertable_stats_are_its_fields(x: InsertableCreature)
    ensures
        x.spec_stats().circle_rank == x.circle_rank,
        x.spec_stats().dexterity == x.dexterity,
        x.spec_stats().strength == x.strength,
        x.spec_stats().constitution == x.constitution,
        x.spec_stats().perception == x.perception,
        x.spec_stats().willpower == x.willpower,
        x.spec_stats().charisma == x.charisma,
        x.spec_stats().initiative == x.initiative,
        x.spec_stats().pd == x.pd,
        x.spec_stats().md == x.md,
        x.spec_stats().sd == x.sd,
        x.spec_stats().pa == x.pa,
        x.spec_stats().ma == x.ma,
        x.spec_stats().unconsciousness_rating == x.unconsciousness_rating,
        x.spec_stats().death_rating == x.death_rating,
        x.spec_stats().wound == x.wound,
        x.spec_stats().knockdown == x.knockdown,
        x.spec_stats().actions == x.actions,
        x.spec_stats().recovery_rolls == x.recovery_rolls,
        x.spec_stats().karma == x.karma,
{
}

} // verus!
