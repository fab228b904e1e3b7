//! The twenty numbers of a creature's stat block, and masks that shift them.

use vstd::prelude::*;

verus! {

/// The numeric part of a stat block. A mask holds one too: there each number
/// is a delta that is added to the creature's value when the mask is applied.
#[derive(Clone, Copy, Debug, PartialEq, Eq, Structural)]
pub struct StatLine {
    pub circle_rank: i32,
    pub dexterity: i32,
    pub strength: i32,
    pub constitution: i32,
    pub perception: i32,
    pub willpower: i32,
    pub charisma: i32,
    pub initiative: i32,
    pub pd: i32,
    pub md: i32,
    pub sd: i32,
    pub pa: i32,
    pub ma: i32,
    pub unconsciousness_rating: i32,
    pub death_rating: i32,
    pub wound: i32,
    pub knockdown: i32,
    pub actions: i32,
    pub recovery_rolls: i32,
    pub karma: i32,
}

/// Number of values in a stat line.
pub open spec fn stat_count() -> nat {
    20
}

impl View for StatLine {
    type V = Seq<int>;

    /// The values in field order: circle rank, the six attributes,
    /// initiative, the three defenses, the two armors, the two ratings,
    /// wound, knockdown, actions, recovery rolls, karma.
    open spec fn view(&self) -> Seq<int> {
        seq![
            self.circle_rank as int,
            self.dexterity as int,
            self.strength as int,
            self.constitution as int,
            self.perception as int,
            self.willpower as int,
            self.charisma as int,
            self.initiative as int,
            self.pd as int,
            self.md as int,
            self.sd as int,
            self.pa as int,
            self.ma as int,
            self.unconsciousness_rating as int,
            self.death_rating as int,
            self.wound as int,
            self.knockdown as int,
            self.actions as int,
            self.recovery_rolls as int,
            self.karma as int,
        ]
    }
}

/// The value-wise sum of two stat lines.
pub open spec fn plus(a: Seq<int>, b: Seq<int>) -> Seq<int> {
    Seq::new(a.len(), |i: int| a[i] + b[i])
}

/// Whether every value-wise sum of `a` and `b` fits in an `i32`.
pub open spec fn sums_fit(a: Seq<int>, b: Seq<int>) -> bool {
    forall|i: int| 0 <= i < a.len() ==> i32::MIN <= #[trigger] a[i] + b[i] <= i32::MAX
}

/// A stat line of zeros: a mask that changes nothing.
pub open spec fn zeros() -> Seq<int> {
    Seq::new(stat_count(), |i: int| 0int)
}

/// Whether `a + b` fits in an `i32`.
pub fn add_fits(a: i32, b: i32) -> (r: bool)
    ensures
        r == (i32::MIN <= a + b <= i32::MAX),
{
    a.checked_add(b).is_some()
}

/// Whether the stat line `deltas` can be added to `base` without any value
/// leaving the range of `i32`.
pub fn deltas_fit(base: &StatLine, deltas: &StatLine) -> (r: bool)
    ensures
        r == sums_fit(base@, deltas@),
{
    let r = add_fits(base.circle_rank, deltas.circle_rank) && add_fits(
        base.dexterity,
        deltas.dexterity,
    ) && add_fits(base.strength, deltas.strength) && add_fits(
        base.constitution,
        deltas.constitution,
    ) && add_fits(base.perception, deltas.perception) && add_fits(
        base.willpower,
        deltas.willpower,
    ) && add_fits(base.charisma, deltas.charisma) && add_fits(
        base.initiative,
        deltas.initiative,
    ) && add_fits(base.pd, deltas.pd) && add_fits(base.md, deltas.md) && add_fits(
        base.sd,
        deltas.sd,
    ) && add_fits(base.pa, deltas.pa) && add_fits(base.ma, deltas.ma) && add_fits(
        base.unconsciousness_rating,
        deltas.unconsciousness_rating,
    ) && add_fits(base.death_rating, deltas.death_rating) && add_fits(base.wound, deltas.wound)
        && add_fits(base.knockdown, deltas.knockdown) && add_fits(base.actions, deltas.actions)
        && add_fits(base.recovery_rolls, deltas.recovery_rolls) && add_fits(
        base.karma,
        deltas.karma,
    );
    proof {
        let a = base@;
        let b = deltas@;
        if r {
            assert(sums_fit(a, b));
        } else {
            assert(!(i32::MIN <= a[0] + b[0] <= i32::MAX) || !(i32::MIN <= a[1] + b[1] <= i32::MAX)
                || !(i32::MIN <= a[2] + b[2] <= i32::MAX) || !(i32::MIN <= a[3] + b[3] <= i32::MAX)
                || !(i32::MIN <= a[4] + b[4] <= i32::MAX) || !(i32::MIN <= a[5] + b[5] <= i32::MAX)
                || !(i32::MIN <= a[6] + b[6] <= i32::MAX) || !(i32::MIN <= a[7] + b[7] <= i32::MAX)
                || !(i32::MIN <= a[8] + b[8] <= i32::MAX) || !(i32::MIN <= a[9] + b[9] <= i32::MAX)
                || !(i32::MIN <= a[10] + b[10] <= i32::MAX) || !(i32::MIN <= a[11] + b[11]
                <= i32::MAX) || !(i32::MIN <= a[12] + b[12] <= i32::MAX) || !(i32::MIN <= a[13]
                + b[13] <= i32::MAX) || !(i32::MIN <= a[14] + b[14] <= i32::MAX) || !(i32::MIN
                <= a[15] + b[15] <= i32::MAX) || !(i32::MIN <= a[16] + b[16] <= i32::MAX) || !(
            i32::MIN <= a[17] + b[17] <= i32::MAX) || !(i32::MIN <= a[18] + b[18] <= i32::MAX)
                || !(i32::MIN <= a[19] + b[19] <= i32::MAX));
        }
    }
    r
}

/// Adds the deltas of a mask to a stat line, value by value.
pub fn apply_deltas(base: &StatLine, deltas: &StatLine) -> (r: StatLine)
    requires
        sums_fit(base@, deltas@),
    ensures
        r@ == plus(base@, deltas@),
{
    proof {
        let a = base@;
        let b = deltas@;
        assert(i32::MIN <= a[0] + b[0] <= i32::MAX);
        assert(i32::MIN <= a[1] + b[1] <= i32::MAX);
        assert(i32::MIN <= a[2] + b[2] <= i32::MAX);
        assert(i32::MIN <= a[3] + b[3] <= i32::MAX);
        assert(i32::MIN <= a[4] + b[4] <= i32::MAX);
        assert(i32::MIN <= a[5] + b[5] <= i32::MAX);
        assert(i32::MIN <= a[6] + b[6] <= i32::MAX);
        assert(i32::MIN <= a[7] + b[7] <= i32::MAX);
        assert(i32::MIN <= a[8] + b[8] <= i32::MAX);
        assert(i32::MIN <= a[9] + b[9] <= i32::MAX);
        assert(i32::MIN <= a[10] + b[10] <= i32::MAX);
        assert(i32::MIN <= a[11] + b[11] <= i32::MAX);
        assert(i32::MIN <= a[12] + b[12] <= i32::MAX);
        assert(i32::MIN <= a[13] + b[13] <= i32::MAX);
        assert(i32::MIN <= a[14] + b[14] <= i32::MAX);
        assert(i32::MIN <= a[15] + b[15] <= i32::MAX);
        assert(i32::MIN <= a[16] + b[16] <= i32::MAX);
        assert(i32::MIN <= a[17] + b[17] <= i32::MAX);
        assert(i32::MIN <= a[18] + b[18] <= i32::MAX);
        assert(i32::MIN <= a[19] + b[19] <= i32::MAX);
    }
    let r = StatLine {
        circle_rank: base.circle_rank + deltas.circle_rank,
        dexterity: base.dexterity + deltas.dexterity,
        strength: base.strength + deltas.strength,
        constitution: base.constitution + deltas.constitution,
        perception: base.perception + deltas.perception,
        willpower: base.willpower + deltas.willpower,
        charisma: base.charisma + deltas.charisma,
        initiative: base.initiative + deltas.initiative,
        pd: base.pd + deltas.pd,
        md: base.md + deltas.md,
        sd: base.sd + deltas.sd,
        pa: base.pa + deltas.pa,
        ma: base.ma + deltas.ma,
        unconsciousness_rating: base.unconsciousness_rating + deltas.unconsciousness_rating,
        death_rating: base.death_rating + deltas.death_rating,
        wound: base.wound + deltas.wound,
        knockdown: base.knockdown + deltas.knockdown,
        actions: base.actions + deltas.actions,
        recovery_rolls: base.recovery_rolls + deltas.recovery_rolls,
        karma: base.karma + deltas.karma,
    };
    assert(r@ =~= plus(base@, deltas@));
    r
}

/// A mask whose deltas are all zero leaves a stat line as it was.
pub proof fn law_zero_mask_changes_nothing(base: Seq<int>)
    requires
        base.len() == stat_count(),
    ensures
        plus(base, zeros()) == base,
{
    assert(plus(base, zeros()) =~= base);
}

/// Applying two masks one after the other gives the same stats in either
/// order, and the same as adding their deltas together first.
pub proof fn law_masks_commute(base: Seq<int>, m1: Seq<int>, m2: Seq<int>)
    requires
        base.len() == stat_count(),
        m1.len() == stat_count(),
        m2.len() == stat_count(),
    ensures
        plus(plus(base, m1), m2) == plus(plus(base, m2), m1),
        plus(plus(base, m1), m2) == plus(base, plus(m1, m2)),
{
    assert(plus(plus(base, m1), m2) =~= plus(plus(base, m2), m1));
    assert(plus(plus(base, m1), m2) =~= plus(base, plus(m1, m2)));
}

} // verus!
