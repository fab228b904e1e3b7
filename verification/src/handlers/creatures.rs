//! The creature records that the creature handlers store.

use vstd::prelude::*;
use crate::handlers::forms::CreatureForm;
use crate::models::{
    parse_id, parsed_id, Creature, Id, InsertableCreature, Locales, Mask, Tags, Timestamp,
};
use crate::stats::{apply_deltas, deltas_fit, plus, sums_fit, StatLine};
use crate::text::{slug_of, slugify};

verus! {

/// One entry for a ticked check box, none for an empty one.
pub open spec fn when_ticked<T>(ticked: bool, value: T) -> Seq<Option<T>> {
    if ticked {
        seq![Some(value)]
    } else {
        Seq::empty()
    }
}

/// The places ticked in a creature form, in the order of the form.
pub open spec fn spec_checked_locales(form: &CreatureForm) -> Seq<Option<Locales>> {
    when_ticked(form.jungle is Some, Locales::Jungle)
        + when_ticked(form.desert is Some, Locales::Desert)
        + when_ticked(form.forest is Some, Locales::Forest)
        + when_ticked(form.plains is Some, Locales::Plains)
        + when_ticked(form.urban is Some, Locales::Urban)
        + when_ticked(form.mountain is Some, Locales::Mountain)
        + when_ticked(form.cavern is Some, Locales::Cavern)
        + when_ticked(form.swamp is Some, Locales::Swamp)
        + when_ticked(form.kaer is Some, Locales::Kaer)
        + when_ticked(form.any is Some, Locales::Any)
}

/// The tags ticked in a creature form, in the order of the form.
pub open spec fn spec_checked_tags(form: &CreatureForm) -> Seq<Option<Tags>> {
    when_ticked(form.creature is Some, Tags::Creature)
        + when_ticked(form.spirit is Some, Tags::Spirit)
        + when_ticked(form.elemental is Some, Tags::Elemental)
        + when_ticked(form.horror is Some, Tags::Horror)
        + when_ticked(form.dragon is Some, Tags::Dragon)
        + when_ticked(form.horror_construct is Some, Tags::HorrorConstruct)
        + when_ticked(form.adept is Some, Tags::Adept)
        + when_ticked(form.npc is Some, Tags::NPC)
        + when_ticked(form.other is Some, Tags::Other)
}

fn push_if_ticked<T>(v: &mut Vec<Option<T>>, ticked: bool, value: T)
    ensures
        final(v)@ == old(v)@ + when_ticked(ticked, value),
{
    let ghost before = v@;
    if ticked {
        v.push(Some(value));
    }
    assert(v@ =~= before + when_ticked(ticked, value));
}

/// The places ticked in a creature form, in the order of the form.
pub fn checked_locales(form: &CreatureForm) -> (r: Vec<Option<Locales>>)
    ensures
        r@ == spec_checked_locales(form),
{
    let mut v: Vec<Option<Locales>> = Vec::new();
    push_if_ticked(&mut v, form.jungle.is_some(), Locales::Jungle);
    push_if_ticked(&mut v, form.desert.is_some(), Locales::Desert);
    push_if_ticked(&mut v, form.forest.is_some(), Locales::Forest);
    push_if_ticked(&mut v, form.plains.is_some(), Locales::Plains);
    push_if_ticked(&mut v, form.urban.is_some(), Locales::Urban);
    push_if_ticked(&mut v, form.mountain.is_some(), Locales::Mountain);
    push_if_ticked(&mut v, form.cavern.is_some(), Locales::Cavern);
    push_if_ticked(&mut v, form.swamp.is_some(), Locales::Swamp);
    push_if_ticked(&mut v, form.kaer.is_some(), Locales::Kaer);
    push_if_ticked(&mut v, form.any.is_some(), Locales::Any);
    assert(v@ =~= spec_checked_locales(form));
    v
}

/// The tags ticked in a creature form, in the order of the form.
pub fn checked_tags(form: &CreatureForm) -> (r: Vec<Option<Tags>>)
    ensures
        r@ == spec_checked_tags(form),
{
    let mut v: Vec<Option<Tags>> = Vec::new();
    push_if_ticked(&mut v, form.creature.is_some(), Tags::Creature);
    push_if_ticked(&mut v, form.spirit.is_some(), Tags::Spirit);
    push_if_ticked(&mut v, form.elemental.is_some(), Tags::Elemental);
    push_if_ticked(&mut v, form.horror.is_some(), Tags::Horror);
    push_if_ticked(&mut v, form.dragon.is_some(), Tags::Dragon);
    push_if_ticked(&mut v, form.horror_construct.is_some(), Tags::HorrorConstruct);
    push_if_ticked(&mut v, form.adept.is_some(), Tags::Adept);
    push_if_ticked(&mut v, form.npc.is_some(), Tags::NPC);
    push_if_ticked(&mut v, form.other.is_some(), Tags::Other);
    assert(v@ =~= spec_checked_tags(form));
    v
}

/// The identifier of the mask chosen in a form: none when no mask was
/// chosen or the field is empty, else what the field spells as a UUID.
pub open spec fn spec_selected_mask_id(mask_id: Option<String>) -> Option<Id> {
    match mask_id {
        None => None,
        Some(s) => if s@.len() == 0 {
            None
        } else {
            parsed_id(s@)
        },
    }
}

/// The identifier of the mask chosen in a form, if any.
pub fn selected_mask_id(mask_id: &Option<String>) -> (r: Option<Id>)
    ensures
        r == spec_selected_mask_id(*mask_id),
{
    match mask_id {
        None => None,
        Some(s) => {
            if s.unicode_len() == 0 {
                None
            } else {
                parse_id(s.as_str())
            }
        },
    }
}

/// Whether the deltas of the chosen mask, if any, can be added to `base`.
pub open spec fn mask_fits(base: StatLine, mask: Option<Mask>) -> bool {
    match mask {
        Some(m) => sums_fit(base@, m.spec_deltas()@),
        None => true,
    }
}

/// `base` with the deltas of the chosen mask added, if a mask was chosen.
pub open spec fn masked_stats(base: StatLine, mask: Option<Mask>) -> Seq<int> {
    match mask {
        Some(m) => plus(base@, m.spec_deltas()@),
        None => base@,
    }
}

/// Whether the deltas of the chosen mask, if any, can be added to `base`
/// without leaving the range of `i32`.
pub fn mask_fits_stats(base: &StatLine, mask: &Option<Mask>) -> (r: bool)
    ensures
        r == mask_fits(*base, *mask),
        mask is None ==> r,
        mask matches Some(m) ==> (r <==> (i32::MIN <= base.circle_rank + m.circle_rank <= i32::MAX && i32::MIN <= base.dexterity + m.dexterity <= i32::MAX && i32::MIN <= base.strength + m.strength <= i32::MAX && i32::MIN <= base.constitution + m.constitution <= i32::MAX && i32::MIN <= base.perception + m.perception <= i32::MAX && i32::MIN <= base.willpower + m.willpower <= i32::MAX && i32::MIN <= base.charisma + m.charisma <= i32::MAX && i32::MIN <= base.initiative + m.initiative <= i32::MAX && i32::MIN <= base.pd + m.pd <= i32::MAX && i32::MIN <= base.md + m.md <= i32::MAX && i32::MIN <= base.sd + m.sd <= i32::MAX && i32::MIN <= base.pa + m.pa <= i32::MAX && i32::MIN <= base.ma + m.ma <= i32::MAX && i32::MIN <= base.unconsciousness_rating + m.unconsciousness_rating <= i32::MAX && i32::MIN <= base.death_rating + m.death_rating <= i32::MAX && i32::MIN <= base.wound + m.wound <= i32::MAX && i32::MIN <= base.knockdown + m.knockdown <= i32::MAX && i32::MIN <= base.actions + m.actions <= i32::MAX && i32::MIN <= base.recovery_rolls + m.recovery_rolls <= i32::MAX && i32::MIN <= base.karma + m.karma <= i32::MAX)),
{
    match mask {
        Some(m) => deltas_fit(base, &m.deltas()),
        None => true,
    }
}

/// `base` with the deltas of the chosen mask added, if a mask was chosen.
pub fn stats_with_mask(base: &StatLine, mask: &Option<Mask>) -> (r: StatLine)
    requires
        mask_fits(*base, *mask),
    ensures
        r@ == masked_stats(*base, *mask),
        mask is None ==> r == *base,
        mask matches Some(m) ==> r.circle_rank == base.circle_rank + m.circle_rank,
        mask matches Some(m) ==> r.dexterity == base.dexterity + m.dexterity,
        mask matches Some(m) ==> r.strength == base.strength + m.strength,
        mask matches Some(m) ==> r.constitution == base.constitution + m.constitution,
        mask matches Some(m) ==> r.perception == base.perception + m.perception,
        mask matches Some(m) ==> r.willpower == base.willpower + m.willpower,
        mask matches Some(m) ==> r.charisma == base.charisma + m.charisma,
        mask matches Some(m) ==> r.initiative == base.initiative + m.initiative,
        mask matches Some(m) ==> r.pd == base.pd + m.pd,
        mask matches Some(m) ==> r.md == base.md + m.md,
        mask matches Some(m) ==> r.sd == base.sd + m.sd,
        mask matches Some(m) ==> r.pa == base.pa + m.pa,
        mask matches Some(m) ==> r.ma == base.ma + m.ma,
        mask matches Some(m) ==> r.unconsciousness_rating == base.unconsciousness_rating + m.unconsciousness_rating,
        mask matches Some(m) ==> r.death_rating == base.death_rating + m.death_rating,
        mask matches Some(m) ==> r.wound == base.wound + m.wound,
        mask matches Some(m) ==> r.knockdown == base.knockdown + m.knockdown,
        mask matches Some(m) ==> r.actions == base.actions + m.actions,
        mask matches Some(m) ==> r.recovery_rolls == base.recovery_rolls + m.recovery_rolls,
        mask matches Some(m) ==> r.karma == base.karma + m.karma,
{
    match mask {
        Some(m) => apply_deltas(base, &m.deltas()),
        None => *base,
    }
}

/// The creature that the new-creature form describes, made by the user
/// `creator_id` (slug `creator_slug`): the ticked places and tags, the
/// entered stats plus the deltas of the chosen mask, a slug made from the
/// name and the default image.
pub fn creature_from_form(
    form: &CreatureForm,
    mask: &Option<Mask>,
    creator_id: Id,
    creator_slug: String,
) -> (r: InsertableCreature)
    requires
        mask_fits(form.spec_stats(), *mask),
    ensures
        r.creator_id == creator_id,
        r.creator_slug == creator_slug,
        r.name == form.name,
        r.found_in@ == spec_checked_locales(form),
        r.rarity == form.rarity,
        r.spec_stats()@ == masked_stats(form.spec_stats(), *mask),
        r.description == form.description,
        r.movement == form.movement,
        r.slug@ == slug_of(form.name@),
        r.image_url matches Some(u) && u@ == "default_image_url"@,
        r.created_at == r.updated_at,
        r.tags@ == spec_checked_tags(form),
        r.masks@ == Seq::<Option<Id>>::empty(),
{
    let s = stats_with_mask(&form.stats(), mask);
    let r = InsertableCreature::new(
        creator_id,
        creator_slug,
        form.name.clone(),
        checked_locales(form),
        form.rarity,
        s.circle_rank,
        form.description.clone(),
        s.dexterity,
        s.strength,
        s.constitution,
        s.perception,
        s.willpower,
        s.charisma,
        s.initiative,
        s.pd,
        s.md,
        s.sd,
        s.pa,
        s.ma,
        s.unconsciousness_rating,
        s.death_rating,
        s.wound,
        s.knockdown,
        s.actions,
        form.movement.clone(),
        s.recovery_rolls,
        s.karma,
        checked_tags(form),
        Vec::new(),
    );
    assert(r.spec_stats()@ =~= s@);
    r
}

/// The creature as saved by the edit form: the form's values (stats plus the
/// deltas of the chosen mask), `editor_id` as creator, the slug of the new
/// name, no image, and the identity, creator slug, creation time and masks
/// of the stored creature.
pub fn edited_creature(
    creature: Creature,
    form: &CreatureForm,
    mask: &Option<Mask>,
    editor_id: Id,
    today: Timestamp,
) -> (r: Creature)
    requires
        mask_fits(form.spec_stats(), *mask),
    ensures
        r.id == creature.id,
        r.creator_id == editor_id,
        r.creator_slug == creature.creator_slug,
        r.name == form.name,
        r.found_in@ == spec_checked_locales(form),
        r.rarity == form.rarity,
        r.spec_stats()@ == masked_stats(form.spec_stats(), *mask),
        r.description == form.description,
        r.movement == form.movement,
        r.slug@ == slug_of(form.name@),
        r.image_url is None,
        r.created_at == creature.created_at,
        r.updated_at == today,
        r.tags@ == spec_checked_tags(form),
        r.masks == creature.masks,
{
    let s = stats_with_mask(&form.stats(), mask);
    let r = Creature {
        id: creature.id,
        creator_id: editor_id,
        creator_slug: creature.creator_slug,
        name: form.name.clone(),
        found_in: checked_locales(form),
        rarity: form.rarity,
        circle_rank: s.circle_rank,
        description: form.description.clone(),
        dexterity: s.dexterity,
        strength: s.strength,
        constitution: s.constitution,
        perception: s.perception,
        willpower: s.willpower,
        charisma: s.charisma,
        initiative: s.initiative,
        pd: s.pd,
        md: s.md,
        sd: s.sd,
        pa: s.pa,
        ma: s.ma,
        unconsciousness_rating: s.unconsciousness_rating,
        death_rating: s.death_rating,
        wound: s.wound,
        knockdown: s.knockdown,
        actions: s.actions,
        movement: form.movement.clone(),
        recovery_rolls: s.recovery_rolls,
        karma: s.karma,
        slug: slugify(form.name.as_str()),
        image_url: None,
        created_at: creature.created_at,
        updated_at: today,
        tags: checked_tags(form),
        masks: creature.masks,
    };
    assert(r.spec_stats()@ =~= s@);
    r
}

/// The name of a plain copy: "Copy of " and the name, a dash, the code.
pub open spec fn copy_name(name: Seq<char>, code: Seq<char>) -> Seq<char> {
    "Copy of "@ + name + "-"@ + code
}

/// The name of a copy made with a mask: the mask's name, a space, the
/// creature's name, a dash and the code; without a mask, the name, a dash
/// and the code.
pub open spec fn masked_copy_name(name: Seq<char>, mask: Option<Mask>, code: Seq<char>) -> Seq<char> {
    match mask {
        Some(m) => m.name@ + " "@ + name + "-"@ + code,
        None => name + "-"@ + code,
    }
}

/// A copy of `creature` made by the user `creator_id` (slug
/// `creator_slug`): named after the original and `code`, with the slug of
/// that name, no image, created at `today`, and everything else as the
/// original has it.
pub fn copy_of_creature(
    creature: Creature,
    creator_id: Id,
    creator_slug: String,
    code: &str,
    today: Timestamp,
) -> (r: InsertableCreature)
    ensures
        r.creator_id == creator_id,
        r.creator_slug == creator_slug,
        r.name@ == copy_name(creature.name@, code@),
        r.found_in == creature.found_in,
        r.rarity == creature.rarity,
        r.spec_stats() == creature.spec_stats(),
        r.description == creature.description,
        r.movement == creature.movement,
        r.slug@ == slug_of(copy_name(creature.name@, code@)),
        r.image_url is None,
        r.created_at == today,
        r.updated_at == today,
        r.tags == creature.tags,
        r.masks == creature.masks,
{
    let mut name = String::from_str("Copy of ");
    name.append(creature.name.as_str());
    name.append("-");
    name.append(code);
    let slug = slugify(name.as_str());
    InsertableCreature {
        creator_id,
        creator_slug,
        name,
        found_in: creature.found_in,
        rarity: creature.rarity,
        circle_rank: creature.circle_rank,
        description: creature.description,
        dexterity: creature.dexterity,
        strength: creature.strength,
        constitution: creature.constitution,
        perception: creature.perception,
        willpower: creature.willpower,
        charisma: creature.charisma,
        initiative: creature.initiative,
        pd: creature.pd,
        md: creature.md,
        sd: creature.sd,
        pa: creature.pa,
        ma: creature.ma,
        unconsciousness_rating: creature.unconsciousness_rating,
        death_rating: creature.death_rating,
        wound: creature.wound,
        knockdown: creature.knockdown,
        actions: creature.actions,
        movement: creature.movement,
        recovery_rolls: creature.recovery_rolls,
        karma: creature.karma,
        slug,
        image_url: None,
        created_at: today,
        updated_at: today,
        tags: creature.tags,
        masks: creature.masks,
    }
}

/// A copy of `creature` with the chosen mask laid over it, made by the user
/// `creator_id` (slug `creator_slug`): its stats carry the mask's deltas,
/// its name tells the mask and `code`, its slug follows the name; it has no
/// image, is created at `today`, and keeps the rest of the original.
pub fn masked_copy_of_creature(
    creature: Creature,
    mask: &Option<Mask>,
    creator_id: Id,
    creator_slug: String,
    code: &str,
    today: Timestamp,
) -> (r: InsertableCreature)
    requires
        mask_fits(creature.spec_stats(), *mask),
    ensures
        r.creator_id == creator_id,
        r.creator_slug == creator_slug,
        r.name@ == masked_copy_name(creature.name@, *mask, code@),
        r.found_in == creature.found_in,
        r.rarity == creature.rarity,
        r.spec_stats()@ == masked_stats(creature.spec_stats(), *mask),
        r.description == creature.description,
        r.movement == creature.movement,
        r.slug@ == slug_of(masked_copy_name(creature.name@, *mask, code@)),
        r.image_url is None,
        r.created_at == today,
        r.updated_at == today,
        r.tags == creature.tags,
        r.masks == creature.masks,
{
    let s = stats_with_mask(&creature.stats(), mask);
    let mut name = match mask {
        Some(m) => {
            let mut n = m.name.clone();
            n.append(" ");
            n.append(creature.name.as_str());
            n
        },
        None => creature.name.clone(),
    };
    name.append("-");
    name.append(code);
    let slug = slugify(name.as_str());
    let r = InsertableCreature {
        creator_id,
        creator_slug,
        name,
        found_in: creature.found_in,
        rarity: creature.rarity,
        circle_rank: s.circle_rank,
        description: creature.description,
        dexterity: s.dexterity,
        strength: s.strength,
        constitution: s.constitution,
        perception: s.perception,
        willpower: s.willpower,
        charisma: s.charisma,
        initiative: s.initiative,
        pd: s.pd,
        md: s.md,
        sd: s.sd,
        pa: s.pa,
        ma: s.ma,
        unconsciousness_rating: s.unconsciousness_rating,
        death_rating: s.death_rating,
        wound: s.wound,
        knockdown: s.knockdown,
        actions: s.actions,
        movement: creature.movement,
        recovery_rolls: s.recovery_rolls,
        karma: s.karma,
        slug,
        image_url: None,
        created_at: today,
        updated_at: today,
        tags: creature.tags,
        masks: creature.masks,
    };
    assert(r.spec_stats()@ =~= s@);
    r
}

/// Position of a place among the check boxes of the creature form.
pub open spec fn locale_rank(l: Locales) -> int {
    match l {
        Locales::Jungle => 0,
        Locales::Desert => 1,
        Locales::Forest => 2,
        Locales::Plains => 3,
        Locales::Urban => 4,
        Locales::Mountain => 5,
        Locales::Cavern => 6,
        Locales::Swamp => 7,
        Locales::Kaer => 8,
        Locales::Any => 9,
    }
}

/// Whether the check box of the place `l` is ticked in `form`.
pub open spec fn locale_ticked(form: &CreatureForm, l: Locales) -> bool {
    match l {
        Locales::Jungle => form.jungle is Some,
        Locales::Desert => form.desert is Some,
        Locales::Forest => form.forest is Some,
        Locales::Plains => form.plains is Some,
        Locales::Urban => form.urban is Some,
        Locales::Mountain => form.mountain is Some,
        Locales::Cavern => form.cavern is Some,
        Locales::Swamp => form.swamp is Some,
        Locales::Kaer => form.kaer is Some,
        Locales::Any => form.any is Some,
    }
}

/// Position of a tag among the check boxes of the creature form.
pub open spec fn tag_rank(t: Tags) -> int {
    match t {
        Tags::Creature => 0,
        Tags::Spirit => 1,
        Tags::Elemental => 2,
        Tags::Horror => 3,
        Tags::Dragon => 4,
        Tags::HorrorConstruct => 5,
        Tags::Adept => 6,
        Tags::NPC => 7,
        Tags::Other => 8,
    }
}

/// Whether the check box of the tag `t` is ticked in `form`.
pub open spec fn tag_ticked(form: &CreatureForm, t: Tags) -> bool {
    match t {
        Tags::Creature => form.creature is Some,
        Tags::Spirit => form.spirit is Some,
        Tags::Elemental => form.elemental is Some,
        Tags::Horror => form.horror is Some,
        Tags::Dragon => form.dragon is Some,
        Tags::HorrorConstruct => form.horror_construct is Some,
        Tags::Adept => form.adept is Some,
        Tags::NPC => form.npc is Some,
        Tags::Other => form.other is Some,
    }
}

/// Every entry of `s` is present and ranks below `bound`, and ranks grow
/// strictly along `s`.
spec fn ranked_below<T>(s: Seq<Option<T>>, rank: spec_fn(T) -> int, bound: int) -> bool {
    &&& forall|i: int| 0 <= i < s.len() ==> (#[trigger] s[i] is Some && rank(s[i]->0) < bound)
    &&& forall|i: int, j: int|
        0 <= i < j < s.len() ==> rank(#[trigger] s[i]->0) < rank(#[trigger] s[j]->0)
}

proof fn lemma_ranked_extend<T>(s: Seq<Option<T>>, ticked: bool, value: T, rank: spec_fn(T) -> int)
    requires
        ranked_below(s, rank, rank(value)),
    ensures
        ranked_below(s + when_ticked(ticked, value), rank, rank(value) + 1),
{
}

proof fn lemma_ranked_single<T>(ticked: bool, value: T, rank: spec_fn(T) -> int)
    ensures
        ranked_below(when_ticked(ticked, value), rank, rank(value) + 1),
{
    if ticked {
        assert(when_ticked(ticked, value)[0] == Some(value));
    }
}

proof fn lemma_contains_single<T>(ticked: bool, value: T, x: T)
    ensures
        when_ticked(ticked, value).contains(Some(x)) == (ticked && x == value),
{
    if ticked {
        assert(when_ticked(ticked, value)[0] == Some(value));
    }
}

proof fn lemma_contains_extend<T>(s: Seq<Option<T>>, ticked: bool, value: T, x: T)
    ensures
        (s + when_ticked(ticked, value)).contains(Some(x)) == (s.contains(Some(x)) || (ticked && x
            == value)),
{
    let t = s + when_ticked(ticked, value);
    if t.contains(Some(x)) {
        let i = choose|i: int| 0 <= i < t.len() && t[i] == Some(x);
        if i < s.len() {
            assert(s[i] == Some(x));
        }
    }
    if s.contains(Some(x)) {
        let i = choose|i: int| 0 <= i < s.len() && s[i] == Some(x);
        assert(t[i] == Some(x));
    }
    if ticked && x == value {
        assert(t[s.len() as int] == Some(x));
    }
}

proof fn lemma_ranked_no_duplicates<T>(s: Seq<Option<T>>, rank: spec_fn(T) -> int, bound: int)
    requires
        ranked_below(s, rank, bound),
    ensures
        s.no_duplicates(),
{
    assert forall|i: int, j: int| 0 <= i < s.len() && 0 <= j < s.len() && i != j implies s[i] != s[j] by {
        if i < j {
            assert(rank(s[i]->0) < rank(s[j]->0));
        } else {
            assert(rank(s[j]->0) < rank(s[i]->0));
        }
    }
}

/// The places taken from a creature form hold each place at most once, and
/// a place exactly when its check box is ticked.
#[verifier::rlimit(40)]
pub proof fn law_checked_locales_exact(form: &CreatureForm)
    ensures
        spec_checked_locales(form).no_duplicates(),
        forall|x: Locales| spec_checked_locales(form).contains(Some(x)) <==> locale_ticked(form, x),
{
    let rank = |x: Locales| locale_rank(x);
    let s1 = when_ticked(form.jungle is Some, Locales::Jungle);
    let s2 = s1 + when_ticked(form.desert is Some, Locales::Desert);
    let s3 = s2 + when_ticked(form.forest is Some, Locales::Forest);
    let s4 = s3 + when_ticked(form.plains is Some, Locales::Plains);
    let s5 = s4 + when_ticked(form.urban is Some, Locales::Urban);
    let s6 = s5 + when_ticked(form.mountain is Some, Locales::Mountain);
    let s7 = s6 + when_ticked(form.cavern is Some, Locales::Cavern);
    let s8 = s7 + when_ticked(form.swamp is Some, Locales::Swamp);
    let s9 = s8 + when_ticked(form.kaer is Some, Locales::Kaer);
    let s10 = s9 + when_ticked(form.any is Some, Locales::Any);
    assert(s10.no_duplicates()) by {
        lemma_ranked_single(form.jungle is Some, Locales::Jungle, rank);
        lemma_ranked_extend(s1, form.desert is Some, Locales::Desert, rank);
        lemma_ranked_extend(s2, form.forest is Some, Locales::Forest, rank);
        lemma_ranked_extend(s3, form.plains is Some, Locales::Plains, rank);
        lemma_ranked_extend(s4, form.urban is Some, Locales::Urban, rank);
        lemma_ranked_extend(s5, form.mountain is Some, Locales::Mountain, rank);
        lemma_ranked_extend(s6, form.cavern is Some, Locales::Cavern, rank);
        lemma_ranked_extend(s7, form.swamp is Some, Locales::Swamp, rank);
        lemma_ranked_extend(s8, form.kaer is Some, Locales::Kaer, rank);
        lemma_ranked_extend(s9, form.any is Some, Locales::Any, rank);
        lemma_ranked_no_duplicates(s10, rank, 10);
    }
    assert forall|x: Locales| s10.contains(Some(x)) <==> locale_ticked(form, x) by {
        lemma_contains_single(form.jungle is Some, Locales::Jungle, x);
        lemma_contains_extend(s1, form.desert is Some, Locales::Desert, x);
        lemma_contains_extend(s2, form.forest is Some, Locales::Forest, x);
        lemma_contains_extend(s3, form.plains is Some, Locales::Plains, x);
        lemma_contains_extend(s4, form.urban is Some, Locales::Urban, x);
        lemma_contains_extend(s5, form.mountain is Some, Locales::Mountain, x);
        lemma_contains_extend(s6, form.cavern is Some, Locales::Cavern, x);
        lemma_contains_extend(s7, form.swamp is Some, Locales::Swamp, x);
        lemma_contains_extend(s8, form.kaer is Some, Locales::Kaer, x);
        lemma_contains_extend(s9, form.any is Some, Locales::Any, x);
        match x {
            Locales::Jungle => {},
            Locales::Desert => {},
            Locales::Forest => {},
            Locales::Plains => {},
            Locales::Urban => {},
            Locales::Mountain => {},
            Locales::Cavern => {},
            Locales::Swamp => {},
            Locales::Kaer => {},
            Locales::Any => {},
        }
    }
}

/// The tags taken from a creature form hold each tag at most once, and a
/// tag exactly when its check box is ticked.
#[verifier::rlimit(40)]
pub proof fn law_checked_tags_exact(form: &CreatureForm)
    ensures
        spec_checked_tags(form).no_duplicates(),
        forall|x: Tags| spec_checked_tags(form).contains(Some(x)) <==> tag_ticked(form, x),
{
    let rank = |x: Tags| tag_rank(x);
    let s1 = when_ticked(form.creature is Some, Tags::Creature);
    let s2 = s1 + when_ticked(form.spirit is Some, Tags::Spirit);
    let s3 = s2 + when_ticked(form.elemental is Some, Tags::Elemental);
    let s4 = s3 + when_ticked(form.horror is Some, Tags::Horror);
    let s5 = s4 + when_ticked(form.dragon is Some, Tags::Dragon);
    let s6 = s5 + when_ticked(form.horror_construct is Some, Tags::HorrorConstruct);
    let s7 = s6 + when_ticked(form.adept is Some, Tags::Adept);
    let s8 = s7 + when_ticked(form.npc is Some, Tags::NPC);
    let s9 = s8 + when_ticked(form.other is Some, Tags::Other);
    assert(s9.no_duplicates()) by {
        lemma_ranked_single(form.creature is Some, Tags::Creature, rank);
        lemma_ranked_extend(s1, form.spirit is Some, Tags::Spirit, rank);
        lemma_ranked_extend(s2, form.elemental is Some, Tags::Elemental, rank);
        lemma_ranked_extend(s3, form.horror is Some, Tags::Horror, rank);
        lemma_ranked_extend(s4, form.dragon is Some, Tags::Dragon, rank);
        lemma_ranked_extend(s5, form.horror_construct is Some, Tags::HorrorConstruct, rank);
        lemma_ranked_extend(s6, form.adept is Some, Tags::Adept, rank);
        lemma_ranked_extend(s7, form.npc is Some, Tags::NPC, rank);
        lemma_ranked_extend(s8, form.other is Some, Tags::Other, rank);
        lemma_ranked_no_duplicates(s9, rank, 9);
    }
    assert forall|x: Tags| s9.contains(Some(x)) <==> tag_ticked(form, x) by {
        lemma_contains_single(form.creature is Some, Tags::Creature, x);
        lemma_contains_extend(s1, form.spirit is Some, Tags::Spirit, x);
        lemma_contains_extend(s2, form.elemental is Some, Tags::Elemental, x);
        lemma_contains_extend(s3, form.horror is Some, Tags::Horror, x);
        lemma_contains_extend(s4, form.dragon is Some, Tags::Dragon, x);
        lemma_contains_extend(s5, form.horror_construct is Some, Tags::HorrorConstruct, x);
        lemma_contains_extend(s6, form.adept is Some, Tags::Adept, x);
        lemma_contains_extend(s7, form.npc is Some, Tags::NPC, x);
        lemma_contains_extend(s8, form.other is Some, Tags::Other, x);
        match x {
            Tags::Creature => {},
            Tags::Spirit => {},
            Tags::Elemental => {},
            Tags::Horror => {},
            Tags::Dragon => {},
            Tags::HorrorConstruct => {},
            Tags::Adept => {},
            Tags::NPC => {},
            Tags::Other => {},
        }
    }
}

/// Laying a mask over a stat line adds each of the mask's own stat fields
/// to the same stat (karma to karma, mystic defense to mystic defense, ...);
/// without a mask the stats stay. The sums fit exactly when each of them
/// lies within `i32`.
pub proof fn law_mask_adds_each_own_delta(base: StatLine, m: Mask)
    ensures
        masked_stats(base, Some(m)) == seq![
            base.circle_rank + m.circle_rank,
            base.dexterity + m.dexterity,
            base.strength + m.strength,
            base.constitution + m.constitution,
            base.perception + m.perception,
            base.willpower + m.willpower,
            base.charisma + m.charisma,
            base.initiative + m.initiative,
            base.pd + m.pd,
            base.md + m.md,
            base.sd + m.sd,
            base.pa + m.pa,
            base.ma + m.ma,
            base.unconsciousness_rating + m.unconsciousness_rating,
            base.death_rating + m.death_rating,
            base.wound + m.wound,
            base.knockdown + m.knockdown,
            base.actions + m.actions,
            base.recovery_rolls + m.recovery_rolls,
            base.karma + m.karma,
        ],
        masked_stats(base, None) == base@,
        mask_fits(base, Some(m)) <==> (i32::MIN <= base.circle_rank + m.circle_rank <= i32::MAX && i32::MIN <= base.dexterity + m.dexterity <= i32::MAX && i32::MIN <= base.strength + m.strength <= i32::MAX && i32::MIN <= base.constitution + m.constitution <= i32::MAX && i32::MIN <= base.perception + m.perception <= i32::MAX && i32::MIN <= base.willpower + m.willpower <= i32::MAX && i32::MIN <= base.charisma + m.charisma <= i32::MAX && i32::MIN <= base.initiative + m.initiative <= i32::MAX && i32::MIN <= base.pd + m.pd <= i32::MAX && i32::MIN <= base.md + m.md <= i32::MAX && i32::MIN <= base.sd + m.sd <= i32::MAX && i32::MIN <= base.pa + m.pa <= i32::MAX && i32::MIN <= base.ma + m.ma <= i32::MAX && i32::MIN <= base.unconsciousness_rating + m.unconsciousness_rating <= i32::MAX && i32::MIN <= base.death_rating + m.death_rating <= i32::MAX && i32::MIN <= base.wound + m.wound <= i32::MAX && i32::MIN <= base.knockdown + m.knockdown <= i32::MAX && i32::MIN <= base.actions + m.actions <= i32::MAX && i32::MIN <= base.recovery_rolls + m.recovery_rolls <= i32::MAX && i32::MIN <= base.karma + m.karma <= i32::MAX),
        mask_fits(base, None),
{
    assert(masked_stats(base, Some(m)) =~= seq![
            base.circle_rank + m.circle_rank,
            base.dexterity + m.dexterity,
            base.strength + m.strength,
            base.constitution + m.constitution,
            base.perception + m.perception,
            base.willpower + m.willpower,
            base.charisma + m.charisma,
            base.initiative + m.initiative,
            base.pd + m.pd,
            base.md + m.md,
            base.sd + m.sd,
            base.pa + m.pa,
            base.ma + m.ma,
            base.unconsciousness_rating + m.unconsciousness_rating,
            base.death_rating + m.death_rating,
            base.wound + m.wound,
            base.knockdown + m.knockdown,
            base.actions + m.actions,
            base.recovery_rolls + m.recovery_rolls,
            base.karma + m.karma,
        ]);
    let a = base@;
    let b = m.spec_deltas()@;
    if mask_fits(base, Some(m)) {
        assert(i32::MIN <= a[0] + b[0] <= i32::MAX);
        assert(i32::MIN <= a[1] + b[1] <= i32::MAX);
        assert(i32::MIN <= a[2] + b[2] <= i32::MAX);
        assert(i32::MIN <= a[3] + b[3] <= i32::MAX);
        assert(i32::MIN <= a[4] + b[4] <= i32::MAX);
        assert(i32::MIN <= a[5] + b[5] <= i32::MAX);
        assert(i32::MIN <= a[6] + b[6] <= i32::MAX);
        assert(i32::MIN <= a[7] + b[7] <= i32::MAX);
        assert(i32::MIN <= a[8] + b[8] <= i32::MAX);
        assert(i32::MIN <= a[9] + b[9] <= i32::MAX);
        assert(i32::MIN <= a[10] + b[10] <= i32::MAX);
        assert(i32::MIN <= a[11] + b[11] <= i32::MAX);
        assert(i32::MIN <= a[12] + b[12] <= i32::MAX);
        assert(i32::MIN <= a[13] + b[13] <= i32::MAX);
        assert(i32::MIN <= a[14] + b[14] <= i32::MAX);
        assert(i32::MIN <= a[15] + b[15] <= i32::MAX);
        assert(i32::MIN <= a[16] + b[16] <= i32::MAX);
        assert(i32::MIN <= a[17] + b[17] <= i32::MAX);
        assert(i32::MIN <= a[18] + b[18] <= i32::MAX);
        assert(i32::MIN <= a[19] + b[19] <= i32::MAX);
    }
}

proof fn lemma_line_fields(r: StatLine, s: Seq<int>)
    requires
        r@ == s,
        s.len() == 20,
    ensures
        r.circle_rank == s[0],
        r.dexterity == s[1],
        r.strength == s[2],
        r.constitution == s[3],
        r.perception == s[4],
        r.willpower == s[5],
        r.charisma == s[6],
        r.initiative == s[7],
        r.pd == s[8],
        r.md == s[9],
        r.sd == s[10],
        r.pa == s[11],
        r.ma == s[12],
        r.unconsciousness_rating == s[13],
        r.death_rating == s[14],
        r.wound == s[15],
        r.knockdown == s[16],
        r.actions == s[17],
        r.recovery_rolls == s[18],
        r.karma == s[19],
{
    assert(r@[0] == s[0]);
    assert(r@[1] == s[1]);
    assert(r@[2] == s[2]);
    assert(r@[3] == s[3]);
    assert(r@[4] == s[4]);
    assert(r@[5] == s[5]);
    assert(r@[6] == s[6]);
    assert(r@[7] == s[7]);
    assert(r@[8] == s[8]);
    assert(r@[9] == s[9]);
    assert(r@[10] == s[10]);
    assert(r@[11] == s[11]);
    assert(r@[12] == s[12]);
    assert(r@[13] == s[13]);
    assert(r@[14] == s[14]);
    assert(r@[15] == s[15]);
    assert(r@[16] == s[16]);
    assert(r@[17] == s[17]);
    assert(r@[18] == s[18]);
    assert(r@[19] == s[19]);
}

/// A creature made from the form with a mask has, for each stat, the
/// form's value plus the mask's own field for that stat.
pub proof fn law_new_creature_adds_mask_fields(form: CreatureForm, m: Mask, r: InsertableCreature)
    requires
        r.spec_stats()@ == masked_stats(form.spec_stats(), Some(m)),
    ensures
        r.circle_rank == form.circle_rank + m.circle_rank,
        r.dexterity == form.dexterity + m.dexterity,
        r.strength == form.strength + m.strength,
        r.constitution == form.constitution + m.constitution,
        r.perception == form.perception + m.perception,
        r.willpower == form.willpower + m.willpower,
        r.charisma == form.charisma + m.charisma,
        r.initiative == form.initiative + m.initiative,
        r.pd == form.pd + m.pd,
        r.md == form.md + m.md,
        r.sd == form.sd + m.sd,
        r.pa == form.pa + m.pa,
        r.ma == form.ma + m.ma,
        r.unconsciousness_rating == form.unconsciousness_rating + m.unconsciousness_rating,
        r.death_rating == form.death_rating + m.death_rating,
        r.wound == form.wound + m.wound,
        r.knockdown == form.knockdown + m.knockdown,
        r.actions == form.actions + m.actions,
        r.recovery_rolls == form.recovery_rolls + m.recovery_rolls,
        r.karma == form.karma + m.karma,
{
    law_mask_adds_each_own_delta(form.spec_stats(), m);
    lemma_line_fields(r.spec_stats(), masked_stats(form.spec_stats(), Some(m)));
}

/// A copy made with a mask has, for each stat, the original's value plus
/// the mask's own field for that stat (its md is the creature's md plus the
/// mask's md).
pub proof fn law_masked_copy_adds_mask_fields(c: Creature, m: Mask, r: InsertableCreature)
    requires
        r.spec_stats()@ == masked_stats(c.spec_stats(), Some(m)),
    ensures
        r.circle_rank == c.circle_rank + m.circle_rank,
        r.dexterity == c.dexterity + m.dexterity,
        r.strength == c.strength + m.strength,
        r.constitution == c.constitution + m.constitution,
        r.perception == c.perception + m.perception,
        r.willpower == c.willpower + m.willpower,
        r.charisma == c.charisma + m.charisma,
        r.initiative == c.initiative + m.initiative,
        r.pd == c.pd + m.pd,
        r.md == c.md + m.md,
        r.sd == c.sd + m.sd,
        r.pa == c.pa + m.pa,
        r.ma == c.ma + m.ma,
        r.unconsciousness_rating == c.unconsciousness_rating + m.unconsciousness_rating,
        r.death_rating == c.death_rating + m.death_rating,
        r.wound == c.wound + m.wound,
        r.knockdown == c.knockdown + m.knockdown,
        r.actions == c.actions + m.actions,
        r.recovery_rolls == c.recovery_rolls + m.recovery_rolls,
        r.karma == c.karma + m.karma,
{
    law_mask_adds_each_own_delta(c.spec_stats(), m);
    lemma_line_fields(r.spec_stats(), masked_stats(c.spec_stats(), Some(m)));
}

/// A creature edited with a mask has, for each stat, the form's value plus
/// the mask's own field for that stat.
pub proof fn law_edited_creature_adds_mask_fields(form: CreatureForm, m: Mask, r: Creature)
    requires
        r.spec_stats()@ == masked_stats(form.spec_stats(), Some(m)),
    ensures
        r.circle_rank == form.circle_rank + m.circle_rank,
        r.dexterity == form.dexterity + m.dexterity,
        r.strength == form.strength + m.strength,
        r.constitution == form.constitution + m.constitution,
        r.perception == form.perception + m.perception,
        r.willpower == form.willpower + m.willpower,
        r.charisma == form.charisma + m.charisma,
        r.initiative == form.initiative + m.initiative,
        r.pd == form.pd + m.pd,
        r.md == form.md + m.md,
        r.sd == form.sd + m.sd,
        r.pa == form.pa + m.pa,
        r.ma == form.ma + m.ma,
        r.unconsciousness_rating == form.unconsciousness_rating + m.unconsciousness_rating,
        r.death_rating == form.death_rating + m.death_rating,
        r.wound == form.wound + m.wound,
        r.knockdown == form.knockdown + m.knockdown,
        r.actions == form.actions + m.actions,
        r.recovery_rolls == form.recovery_rolls + m.recovery_rolls,
        r.karma == form.karma + m.karma,
{
    law_mask_adds_each_own_delta(form.spec_stats(), m);
    lemma_line_fields(r.spec_stats(), masked_stats(form.spec_stats(), Some(m)));
}

} // verus!
