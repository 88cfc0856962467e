//! What one update does to a stat, and the laws of the update.
//!
//! An update runs the sets of [`stat_sets_chain`] in order. In each set it
//! first adds the modifier values that the systems of that set add (for the
//! set of an operation), then runs this library's systems placed in that set,
//! in the order in which they were placed. A system that is placed twice runs
//! twice.

use vstd::prelude::*;

use crate::data_type::Add;
use crate::data_type::Mul;
use crate::schedule::configure_add_systems;
use crate::schedule::configure_mul_systems;
use crate::schedule::modifier_add_systems;
use crate::schedule::modifier_mul_systems;
use crate::schedule::stat_sets_chain;
use crate::schedule::stat_type_systems;
use crate::schedule::DataTypeOp;
use crate::schedule::StatSystem;
use crate::schedule::StatSystems;
use crate::stat::StatView;

verus! {

/// The modifier values that one update adds to a stat, for each operation,
/// in the order in which they are added.
pub struct Modifiers<D> {
    pub mul_before: Seq<D>,
    pub add: Seq<D>,
    pub mul_after: Seq<D>,
}

impl<D> Modifiers<D> {
    /// The modifier values with `v` inserted among the values of `op`, at
    /// index `k`: what one more modifier of that operation adds.
    pub open spec fn inserted(self, op: DataTypeOp, k: int, v: D) -> Modifiers<D> {
        match op {
            DataTypeOp::Add => Modifiers {
                mul_before: self.mul_before,
                add: self.add.insert(k, v),
                mul_after: self.mul_after,
            },
            DataTypeOp::MulBefore => Modifiers {
                mul_before: self.mul_before.insert(k, v),
                add: self.add,
                mul_after: self.mul_after,
            },
            DataTypeOp::MulAfter => Modifiers {
                mul_before: self.mul_before,
                add: self.add,
                mul_after: self.mul_after.insert(k, v),
            },
        }
    }

    /// The values of one operation.
    pub open spec fn of(self, op: DataTypeOp) -> Seq<D> {
        match op {
            DataTypeOp::Add => self.add,
            DataTypeOp::MulBefore => self.mul_before,
            DataTypeOp::MulAfter => self.mul_after,
        }
    }
}

/// `start` with each of `values` added in turn.
pub open spec fn fold_add<D: Add>(start: D, values: Seq<D>) -> D
    decreases values.len(),
{
    if values.len() == 0 {
        start
    } else {
        fold_add(start, values.drop_last()).add_spec(values.last())
    }
}

/// The sum of `values`, from zero.
pub open spec fn sum<D: Add>(values: Seq<D>) -> D {
    fold_add(D::zero_spec(), values)
}

/// The state after each of `values` is added to the operator total in turn.
pub open spec fn with_modifiers<D: Add>(s: StatView<D>, values: Seq<D>) -> StatView<D> {
    StatView { base: s.base, total: s.total, op_total: fold_add(s.op_total, values) }
}

/// Adding the values one at a time, as [`crate::Stat::add_modifier`] does,
/// is adding them all: one more value on top of some is the next step.
pub proof fn lemma_with_modifiers_push<D: Add>(s: StatView<D>, values: Seq<D>, v: D)
    ensures
        with_modifiers(s, values.push(v)) == with_modifiers(s, values).with_modifier(v),
        with_modifiers(s, Seq::<D>::empty()) == s,
{
    assert(values.push(v).drop_last() =~= values);
}

/// The total that an update computes from the base: multiplied by one plus
/// the multiply-before modifiers, plus the additive modifiers, multiplied by
/// one plus the multiply-after modifiers.
pub open spec fn updated_total<D: Add + Mul>(base: D, mods: Modifiers<D>) -> D {
    base.mul_spec(D::one_spec().add_spec(sum(mods.mul_before)))
        .add_spec(sum(mods.add))
        .mul_spec(D::one_spec().add_spec(sum(mods.mul_after)))
}

/// What one run of a system of this library does to a stat. A modifier
/// system's values are those that [`Modifiers`] gives for its operation.
pub open spec fn system_effect<D: Add + Mul>(s: StatView<D>, sys: StatSystem) -> StatView<D> {
    match sys {
        StatSystem::ClearStat => s.cleared(),
        StatSystem::ApplyAdd => s.applied_add(),
        StatSystem::ApplyMulBefore => s.applied_mul(),
        StatSystem::ApplyMulAfter => s.applied_mul(),
        _ => s,
    }
}

/// Runs, in order, the placed systems that belong to `set`.
pub open spec fn run_systems_in<T, D: Add + Mul>(
    s: StatView<D>,
    set: StatSystems<T>,
    placed: Seq<(StatSystem, StatSystems<T>)>,
) -> StatView<D>
    decreases placed.len(),
{
    if placed.len() == 0 {
        s
    } else {
        let next = if placed[0].1 == set {
            system_effect(s, placed[0].0)
        } else {
            s
        };
        run_systems_in(next, set, placed.drop_first())
    }
}

/// Runs one set: the modifier values of its operation, if it is the set of
/// one, then the placed systems that belong to it.
pub open spec fn run_set<T, D: Add + Mul>(
    s: StatView<D>,
    set: StatSystems<T>,
    placed: Seq<(StatSystem, StatSystems<T>)>,
    mods: Modifiers<D>,
) -> StatView<D> {
    let summed = match set {
        StatSystems::Op(op) => with_modifiers(s, mods.of(op)),
        _ => s,
    };
    run_systems_in(summed, set, placed)
}

/// Runs the sets in order.
pub open spec fn run_sets<T, D: Add + Mul>(
    s: StatView<D>,
    sets: Seq<StatSystems<T>>,
    placed: Seq<(StatSystem, StatSystems<T>)>,
    mods: Modifiers<D>,
) -> StatView<D>
    decreases sets.len(),
{
    if sets.len() == 0 {
        s
    } else {
        run_sets(run_set(s, sets[0], placed, mods), sets.drop_first(), placed, mods)
    }
}

/// One update of a stat: the sets of a stat type's chain, in order.
pub open spec fn update<T, D: Add + Mul>(
    s: StatView<D>,
    placed: Seq<(StatSystem, StatSystems<T>)>,
    mods: Modifiers<D>,
) -> StatView<D> {
    run_sets(s, stat_sets_chain::<T>(), placed, mods)
}

/// Whether a placement is one that a registration of this library makes.
pub open spec fn library_placement<T>(p: (StatSystem, StatSystems<T>)) -> bool {
    ||| stat_type_systems::<T>().contains(p)
    ||| configure_add_systems::<T>().contains(p)
    ||| modifier_add_systems::<T>().contains(p)
    ||| configure_mul_systems::<T>().contains(p)
    ||| modifier_mul_systems::<T>().contains(p)
}

/// The set in which this library places a system.
pub open spec fn home<T>(sys: StatSystem) -> StatSystems<T> {
    match sys {
        StatSystem::ClearStat => StatSystems::Clear,
        StatSystem::ApplyAdd => StatSystems::Apply(DataTypeOp::Add),
        StatSystem::ApplyMulBefore => StatSystems::Apply(DataTypeOp::MulBefore),
        StatSystem::ApplyMulAfter => StatSystems::Apply(DataTypeOp::MulAfter),
        StatSystem::ModifierAdd => StatSystems::Op(DataTypeOp::Add),
        StatSystem::ModifierMulBefore => StatSystems::Op(DataTypeOp::MulBefore),
        StatSystem::ModifierMulAfter => StatSystems::Op(DataTypeOp::MulAfter),
    }
}

/// Every placement of this library puts a system in its home set.
proof fn lemma_library_placement_home<T>(p: (StatSystem, StatSystems<T>))
    requires
        library_placement(p),
    ensures
        p.1 == home::<T>(p.0),
{
    if stat_type_systems::<T>().contains(p) {
        let i = choose|i: int| 0 <= i < stat_type_systems::<T>().len() && stat_type_systems::<T>()[i] == p;
        assert(i == 0);
    } else if configure_add_systems::<T>().contains(p) {
        let i = choose|i: int| 0 <= i < configure_add_systems::<T>().len() && configure_add_systems::<T>()[i] == p;
        assert(i == 0);
    } else if modifier_add_systems::<T>().contains(p) {
        let i = choose|i: int| 0 <= i < modifier_add_systems::<T>().len() && modifier_add_systems::<T>()[i] == p;
        assert(0 <= i < 2);
    } else if configure_mul_systems::<T>().contains(p) {
        let i = choose|i: int| 0 <= i < configure_mul_systems::<T>().len() && configure_mul_systems::<T>()[i] == p;
        assert(0 <= i < 2);
    } else {
        let i = choose|i: int| 0 <= i < modifier_mul_systems::<T>().len() && modifier_mul_systems::<T>()[i] == p;
        assert(0 <= i < 4);
    }
}

/// Runs of the systems of a set, where only `sys` is placed in that set and
/// running it a second time changes nothing: the set does what one run of
/// `sys` does if `sys` is placed there, and nothing otherwise.
proof fn lemma_run_single<T, D: Add + Mul>(
    s: StatView<D>,
    set: StatSystems<T>,
    sys: StatSystem,
    placed: Seq<(StatSystem, StatSystems<T>)>,
)
    requires
        forall|i: int| 0 <= i < placed.len() && placed[i].1 == set ==> placed[i].0 == sys,
        system_effect(system_effect(s, sys), sys) == system_effect(s, sys),
    ensures
        run_systems_in(s, set, placed) == (if placed.contains((sys, set)) {
            system_effect(s, sys)
        } else {
            s
        }),
    decreases placed.len(),
{
    if placed.len() > 0 {
        let rest = placed.drop_first();
        assert forall|i: int| 0 <= i < rest.len() && rest[i].1 == set implies rest[i].0 == sys by {
            assert(rest[i] == placed[i + 1]);
        }
        assert forall|x: (StatSystem, StatSystems<T>)| placed.contains(x) <==> (placed[0] == x || rest.contains(x)) by {
            if placed.contains(x) {
                let i = choose|i: int| 0 <= i < placed.len() && placed[i] == x;
                if i > 0 {
                    assert(rest[i - 1] == x);
                }
            }
            if rest.contains(x) {
                let i = choose|i: int| 0 <= i < rest.len() && rest[i] == x;
                assert(placed[i + 1] == x);
            }
        }
        if placed[0].1 == set {
            let next = system_effect(s, sys);
            lemma_run_single(next, set, sys, rest);
        } else {
            lemma_run_single(s, set, sys, rest);
        }
    }
}

/// Clearing twice is clearing once; applying an operation twice is applying
/// it once, as the second run finds the operator total at zero.
proof fn lemma_effects_idempotent<D: Add + Mul>(s: StatView<D>, sys: StatSystem)
    ensures
        system_effect(system_effect(s, sys), sys) == system_effect(s, sys),
{
    match sys {
        StatSystem::ApplyAdd => {
            D::lemma_zero_identity(s.total.add_spec(s.op_total));
        },
        StatSystem::ApplyMulBefore | StatSystem::ApplyMulAfter => {
            let t = s.applied_mul();
            D::lemma_zero_identity(D::one_spec());
            D::lemma_one_identity(t.total);
        },
        _ => {},
    }
}

/// The system of this library whose home is `set`; for the last set of the
/// chain, which holds none, a modifier system, which changes no stat.
pub open spec fn resident<T>(set: StatSystems<T>) -> StatSystem {
    match set {
        StatSystems::Clear => StatSystem::ClearStat,
        StatSystems::Op(DataTypeOp::Add) => StatSystem::ModifierAdd,
        StatSystems::Op(DataTypeOp::MulBefore) => StatSystem::ModifierMulBefore,
        StatSystems::Op(DataTypeOp::MulAfter) => StatSystem::ModifierMulAfter,
        StatSystems::Apply(DataTypeOp::Add) => StatSystem::ApplyAdd,
        StatSystems::Apply(DataTypeOp::MulBefore) => StatSystem::ApplyMulBefore,
        StatSystems::Apply(DataTypeOp::MulAfter) => StatSystem::ApplyMulAfter,
        _ => StatSystem::ModifierAdd,
    }
}

/// What a set does with placements of this library only: the modifier values
/// of its operation, if it is the set of one, then one run of its resident
/// system if that is placed there at all.
pub open spec fn run_set_once<T, D: Add + Mul>(
    s: StatView<D>,
    set: StatSystems<T>,
    placed: Seq<(StatSystem, StatSystems<T>)>,
    mods: Modifiers<D>,
) -> StatView<D> {
    let summed = match set {
        StatSystems::Op(op) => with_modifiers(s, mods.of(op)),
        _ => s,
    };
    if placed.contains((resident(set), set)) {
        system_effect(summed, resident(set))
    } else {
        summed
    }
}

/// [`run_set_once`] for each set in turn.
pub open spec fn run_sets_once<T, D: Add + Mul>(
    s: StatView<D>,
    sets: Seq<StatSystems<T>>,
    placed: Seq<(StatSystem, StatSystems<T>)>,
    mods: Modifiers<D>,
) -> StatView<D>
    decreases sets.len(),
{
    if sets.len() == 0 {
        s
    } else {
        run_sets_once(run_set_once(s, sets[0], placed, mods), sets.drop_first(), placed, mods)
    }
}

/// With placements of this library only, a set runs its resident system once
/// if it is placed there at all, however often it is placed.
proof fn lemma_run_set_library<T, D: Add + Mul>(
    s: StatView<D>,
    set: StatSystems<T>,
    placed: Seq<(StatSystem, StatSystems<T>)>,
    mods: Modifiers<D>,
)
    requires
        forall|i: int| 0 <= i < placed.len() ==> library_placement(#[trigger] placed[i]),
    ensures
        run_set(s, set, placed, mods) == run_set_once(s, set, placed, mods),
{
    let summed = match set {
        StatSystems::Op(op) => with_modifiers(s, mods.of(op)),
        _ => s,
    };
    let sys = resident(set);
    assert forall|i: int| 0 <= i < placed.len() && placed[i].1 == set implies placed[i].0 == sys by {
        lemma_library_placement_home(placed[i]);
    }
    lemma_effects_idempotent(summed, sys);
    lemma_run_single(summed, set, sys, placed);
}

/// With placements of this library only, running sets is running each set's
/// resident system once where it is placed, however often it is placed.
pub proof fn lemma_run_sets_library<T, D: Add + Mul>(
    s: StatView<D>,
    sets: Seq<StatSystems<T>>,
    placed: Seq<(StatSystem, StatSystems<T>)>,
    mods: Modifiers<D>,
)
    requires
        forall|i: int| 0 <= i < placed.len() ==> library_placement(#[trigger] placed[i]),
    ensures
        run_sets(s, sets, placed, mods) == run_sets_once(s, sets, placed, mods),
    decreases sets.len(),
{
    if sets.len() > 0 {
        lemma_run_set_library(s, sets[0], placed, mods);
        lemma_run_sets_library(run_set(s, sets[0], placed, mods), sets.drop_first(), placed, mods);
    }
}

/// The total after an update: the base, multiplied by one plus the sum of
/// the multiply-before modifiers, plus the sum of the additive modifiers,
/// multiplied by one plus the sum of the multiply-after modifiers. The
/// previous total plays no part, and the operator total is back at zero.
///
/// This holds of a stat type whose registrations include [`crate::schedule::add_stat_type`],
/// [`crate::schedule::configure_stat_type_add`] and
/// [`crate::schedule::configure_stat_type_mul`] (which the
/// modifier registrations call), and of a stat whose operator total starts at
/// zero, as it does for a new stat and after every such update.
pub proof fn lemma_update_total<T, D: Add + Mul>(
    s: StatView<D>,
    placed: Seq<(StatSystem, StatSystems<T>)>,
    mods: Modifiers<D>,
)
    requires
        s.op_total == D::zero_spec(),
        forall|i: int| 0 <= i < placed.len() ==> library_placement(#[trigger] placed[i]),
        forall|p| #[trigger] stat_type_systems::<T>().contains(p) ==> placed.contains(p),
        forall|p| #[trigger] configure_add_systems::<T>().contains(p) ==> placed.contains(p),
        forall|p| #[trigger] configure_mul_systems::<T>().contains(p) ==> placed.contains(p),
    ensures
        update(s, placed, mods) == (StatView {
            base: s.base,
            total: updated_total(s.base, mods),
            op_total: D::zero_spec(),
        }),
{
    let c = stat_sets_chain::<T>();
    assert(stat_type_systems::<T>().contains(stat_type_systems::<T>()[0]));
    assert(configure_add_systems::<T>().contains(configure_add_systems::<T>()[0]));
    assert(configure_mul_systems::<T>().contains(configure_mul_systems::<T>()[0]));
    assert(configure_mul_systems::<T>().contains(configure_mul_systems::<T>()[1]));
    lemma_run_sets_library(s, c, placed, mods);
    reveal_with_fuel(run_sets_once, 9);
}

/// Whether a placement is one that registering a stat type or configuring it
/// for addition makes.
pub open spec fn additive_placement<T>(p: (StatSystem, StatSystems<T>)) -> bool {
    ||| stat_type_systems::<T>().contains(p)
    ||| configure_add_systems::<T>().contains(p)
    ||| modifier_add_systems::<T>().contains(p)
}

proof fn lemma_additive_placement_systems<T>(p: (StatSystem, StatSystems<T>))
    requires
        additive_placement(p),
    ensures
        library_placement(p),
        p.0 == StatSystem::ClearStat || p.0 == StatSystem::ApplyAdd || p.0 == StatSystem::ModifierAdd,
{
    if stat_type_systems::<T>().contains(p) {
        let i = choose|i: int| 0 <= i < stat_type_systems::<T>().len() && stat_type_systems::<T>()[i] == p;
        assert(i == 0);
    } else if configure_add_systems::<T>().contains(p) {
        let i = choose|i: int| 0 <= i < configure_add_systems::<T>().len() && configure_add_systems::<T>()[i] == p;
        assert(i == 0);
    } else {
        let i = choose|i: int| 0 <= i < modifier_add_systems::<T>().len() && modifier_add_systems::<T>()[i] == p;
        assert(0 <= i < 2);
    }
}

/// With placements of a stat type that is configured for addition only and
/// no multiplying modifier values, an update sets the total to the base plus
/// the sum of the additive modifiers, and the operator total back to zero.
pub proof fn lemma_update_total_additive<T, D: Add + Mul>(
    s: StatView<D>,
    placed: Seq<(StatSystem, StatSystems<T>)>,
    mods: Modifiers<D>,
)
    requires
        s.op_total == D::zero_spec(),
        mods.mul_before.len() == 0,
        mods.mul_after.len() == 0,
        forall|i: int| 0 <= i < placed.len() ==> additive_placement(#[trigger] placed[i]),
        forall|p| #[trigger] stat_type_systems::<T>().contains(p) ==> placed.contains(p),
        forall|p| #[trigger] configure_add_systems::<T>().contains(p) ==> placed.contains(p),
    ensures
        update(s, placed, mods) == (StatView {
            base: s.base,
            total: s.base.add_spec(sum(mods.add)),
            op_total: D::zero_spec(),
        }),
{
    let c = stat_sets_chain::<T>();
    assert(stat_type_systems::<T>().contains(stat_type_systems::<T>()[0]));
    assert(configure_add_systems::<T>().contains(configure_add_systems::<T>()[0]));
    assert forall|i: int| 0 <= i < placed.len() implies library_placement(#[trigger] placed[i]) by {
        lemma_additive_placement_systems(placed[i]);
    }
    assert(!placed.contains((StatSystem::ApplyMulBefore, StatSystems::<T>::Apply(DataTypeOp::MulBefore)))) by {
        if placed.contains((StatSystem::ApplyMulBefore, StatSystems::<T>::Apply(DataTypeOp::MulBefore))) {
            let i = choose|i: int| 0 <= i < placed.len() && placed[i] == (StatSystem::ApplyMulBefore, StatSystems::<T>::Apply(DataTypeOp::MulBefore));
            lemma_additive_placement_systems(placed[i]);
        }
    }
    assert(!placed.contains((StatSystem::ApplyMulAfter, StatSystems::<T>::Apply(DataTypeOp::MulAfter)))) by {
        if placed.contains((StatSystem::ApplyMulAfter, StatSystems::<T>::Apply(DataTypeOp::MulAfter))) {
            let i = choose|i: int| 0 <= i < placed.len() && placed[i] == (StatSystem::ApplyMulAfter, StatSystems::<T>::Apply(DataTypeOp::MulAfter));
            lemma_additive_placement_systems(placed[i]);
        }
    }
    lemma_run_sets_library(s, c, placed, mods);
    reveal_with_fuel(run_sets_once, 9);
}

/// A stat type that is registered but configured for no operation keeps each
/// stat's total at its base, whatever modifier values are added.
pub proof fn lemma_update_total_unconfigured<T, D: Add + Mul>(
    s: StatView<D>,
    placed: Seq<(StatSystem, StatSystems<T>)>,
    mods: Modifiers<D>,
)
    requires
        forall|i: int| 0 <= i < placed.len() ==> stat_type_systems::<T>().contains(#[trigger] placed[i]),
        forall|p| #[trigger] stat_type_systems::<T>().contains(p) ==> placed.contains(p),
    ensures
        update(s, placed, mods).total == s.base,
        update(s, placed, mods).base == s.base,
{
    let c = stat_sets_chain::<T>();
    assert(stat_type_systems::<T>().contains(stat_type_systems::<T>()[0]));
    assert forall|i: int| 0 <= i < placed.len() implies library_placement(#[trigger] placed[i]) by {
        assert(stat_type_systems::<T>().contains(placed[i]));
    }
    assert forall|x: (StatSystem, StatSystems<T>)| placed.contains(x) implies x.0 == StatSystem::ClearStat by {
        let i = choose|i: int| 0 <= i < placed.len() && placed[i] == x;
        assert(stat_type_systems::<T>().contains(placed[i]));
        let j = choose|j: int| 0 <= j < stat_type_systems::<T>().len() && stat_type_systems::<T>()[j] == x;
        assert(j == 0);
    }
    lemma_run_sets_library(s, c, placed, mods);
    reveal_with_fuel(run_sets_once, 9);
}

/// An update recomputes the total from the base: two stats with the same base
/// and operator total come out of an update alike, whatever their totals were.
pub proof fn lemma_update_forgets_total<T, D: Add + Mul>(
    s1: StatView<D>,
    s2: StatView<D>,
    placed: Seq<(StatSystem, StatSystems<T>)>,
    mods: Modifiers<D>,
)
    requires
        s1.base == s2.base,
        s1.op_total == s2.op_total,
        forall|i: int| 0 <= i < placed.len() ==> library_placement(#[trigger] placed[i]),
        forall|p| #[trigger] stat_type_systems::<T>().contains(p) ==> placed.contains(p),
    ensures
        update(s1, placed, mods) == update(s2, placed, mods),
{
    let c = stat_sets_chain::<T>();
    assert(stat_type_systems::<T>().contains(stat_type_systems::<T>()[0]));
    lemma_run_set_library(s1, c[0], placed, mods);
    lemma_run_set_library(s2, c[0], placed, mods);
    assert(run_set(s1, c[0], placed, mods) == run_set(s2, c[0], placed, mods));
}

/// With every operation configured, a second update with the same modifier
/// values leaves the stat as the first left it.
pub proof fn lemma_update_stable<T, D: Add + Mul>(
    s: StatView<D>,
    placed: Seq<(StatSystem, StatSystems<T>)>,
    mods: Modifiers<D>,
)
    requires
        s.op_total == D::zero_spec(),
        forall|i: int| 0 <= i < placed.len() ==> library_placement(#[trigger] placed[i]),
        forall|p| #[trigger] stat_type_systems::<T>().contains(p) ==> placed.contains(p),
        forall|p| #[trigger] configure_add_systems::<T>().contains(p) ==> placed.contains(p),
        forall|p| #[trigger] configure_mul_systems::<T>().contains(p) ==> placed.contains(p),
    ensures
        update(update(s, placed, mods), placed, mods) == update(s, placed, mods),
{
    lemma_update_total(s, placed, mods);
    lemma_update_total(update(s, placed, mods), placed, mods);
}

/// The sum of values that are all zero is zero.
pub proof fn lemma_sum_of_zeros<D: Add>(values: Seq<D>)
    requires
        forall|i: int| 0 <= i < values.len() ==> values[i] == D::zero_spec(),
    ensures
        sum(values) == D::zero_spec(),
    decreases values.len(),
{
    if values.len() > 0 {
        lemma_sum_of_zeros(values.drop_last());
        D::lemma_zero_identity(D::zero_spec());
    }
}

/// Modifiers that keep their default values, zero, leave the total at the base.
pub proof fn lemma_default_modifiers_keep_base<D: Add + Mul>(base: D, mods: Modifiers<D>)
    requires
        forall|i: int| 0 <= i < mods.mul_before.len() ==> mods.mul_before[i] == D::zero_spec(),
        forall|i: int| 0 <= i < mods.add.len() ==> mods.add[i] == D::zero_spec(),
        forall|i: int| 0 <= i < mods.mul_after.len() ==> mods.mul_after[i] == D::zero_spec(),
    ensures
        updated_total(base, mods) == base,
{
    lemma_sum_of_zeros(mods.mul_before);
    lemma_sum_of_zeros(mods.add);
    lemma_sum_of_zeros(mods.mul_after);
    D::lemma_zero_identity(D::one_spec());
    D::lemma_one_identity(base);
    D::lemma_zero_identity(base);
}

/// Whether a placement is one that registering a stat type or configuring it
/// for multiplication makes.
pub open spec fn multiplicative_placement<T>(p: (StatSystem, StatSystems<T>)) -> bool {
    ||| stat_type_systems::<T>().contains(p)
    ||| configure_mul_systems::<T>().contains(p)
    ||| modifier_mul_systems::<T>().contains(p)
}

proof fn lemma_multiplicative_placement_systems<T>(p: (StatSystem, StatSystems<T>))
    requires
        multiplicative_placement(p),
    ensures
        library_placement(p),
        p.0 != StatSystem::ApplyAdd,
{
    if stat_type_systems::<T>().contains(p) {
        let i = choose|i: int| 0 <= i < stat_type_systems::<T>().len() && stat_type_systems::<T>()[i] == p;
        assert(i == 0);
    } else if configure_mul_systems::<T>().contains(p) {
        let i = choose|i: int| 0 <= i < configure_mul_systems::<T>().len() && configure_mul_systems::<T>()[i] == p;
        assert(0 <= i < 2);
    } else {
        let i = choose|i: int| 0 <= i < modifier_mul_systems::<T>().len() && modifier_mul_systems::<T>()[i] == p;
        assert(0 <= i < 4);
    }
}

/// With placements of a stat type that is configured for multiplication only
/// (as registering only multiplying modifiers leaves it) and no additive
/// modifier values, an update sets the total to the base multiplied by one
/// plus the sum of the multiply-before modifiers, then by one plus the sum of
/// the multiply-after modifiers, and the operator total back to zero.
pub proof fn lemma_update_total_multiplicative<T, D: Add + Mul>(
    s: StatView<D>,
    placed: Seq<(StatSystem, StatSystems<T>)>,
    mods: Modifiers<D>,
)
    requires
        s.op_total == D::zero_spec(),
        mods.add.len() == 0,
        forall|i: int| 0 <= i < placed.len() ==> multiplicative_placement(#[trigger] placed[i]),
        forall|p| #[trigger] stat_type_systems::<T>().contains(p) ==> placed.contains(p),
        forall|p| #[trigger] configure_mul_systems::<T>().contains(p) ==> placed.contains(p),
    ensures
        update(s, placed, mods) == (StatView {
            base: s.base,
            total: s.base.mul_spec(D::one_spec().add_spec(sum(mods.mul_before))).mul_spec(
                D::one_spec().add_spec(sum(mods.mul_after)),
            ),
            op_total: D::zero_spec(),
        }),
{
    let c = stat_sets_chain::<T>();
    assert(stat_type_systems::<T>().contains(stat_type_systems::<T>()[0]));
    assert(configure_mul_systems::<T>().contains(configure_mul_systems::<T>()[0]));
    assert(configure_mul_systems::<T>().contains(configure_mul_systems::<T>()[1]));
    assert forall|i: int| 0 <= i < placed.len() implies library_placement(#[trigger] placed[i]) by {
        lemma_multiplicative_placement_systems(placed[i]);
    }
    assert(!placed.contains((StatSystem::ApplyAdd, StatSystems::<T>::Apply(DataTypeOp::Add)))) by {
        if placed.contains((StatSystem::ApplyAdd, StatSystems::<T>::Apply(DataTypeOp::Add))) {
            let i = choose|i: int| 0 <= i < placed.len() && placed[i] == (StatSystem::ApplyAdd, StatSystems::<T>::Apply(DataTypeOp::Add));
            lemma_multiplicative_placement_systems(placed[i]);
        }
    }
    lemma_run_sets_library(s, c, placed, mods);
    reveal_with_fuel(run_sets_once, 9);
}

/// A zero among the values adds nothing: inserting it anywhere leaves the
/// sum as it was.
pub proof fn lemma_zero_value_is_neutral<D: Add>(start: D, values: Seq<D>, k: int)
    requires
        0 <= k <= values.len(),
    ensures
        fold_add(start, values.insert(k, D::zero_spec())) == fold_add(start, values),
    decreases values.len(),
{
    let with_zero = values.insert(k, D::zero_spec());
    if k == values.len() {
        assert(with_zero.drop_last() =~= values);
        D::lemma_zero_identity(fold_add(start, values));
    } else {
        assert(with_zero.drop_last() =~= values.drop_last().insert(k, D::zero_spec()));
        assert(with_zero.last() == values.last());
        lemma_zero_value_is_neutral(start, values.drop_last(), k);
    }
}

/// One more modifier of any operation whose value is zero, as the default
/// value of each modifier method is, leaves the total of an update as it was.
pub proof fn lemma_zero_modifier_keeps_total<D: Add + Mul>(
    base: D,
    mods: Modifiers<D>,
    op: DataTypeOp,
    k: int,
)
    requires
        0 <= k <= mods.of(op).len(),
    ensures
        updated_total(base, mods.inserted(op, k, D::zero_spec())) == updated_total(base, mods),
{
    lemma_zero_value_is_neutral(D::zero_spec(), mods.of(op), k);
}

/// A multiplying modifier that keeps the default multiply-before value, zero,
/// and multiplies after addition by `w`, with additive modifiers `adds`:
/// the base is left as it is before the additions, and the total is the base
/// plus the additions, multiplied by one plus `w`.
pub proof fn lemma_default_mul_before_keeps_base<D: Add + Mul>(base: D, adds: Seq<D>, w: D)
    ensures
        updated_total(
            base,
            Modifiers { mul_before: seq![D::zero_spec()], add: adds, mul_after: seq![w] },
        ) == base.add_spec(sum(adds)).mul_spec(D::one_spec().add_spec(w)),
{
    let mods = Modifiers { mul_before: seq![D::zero_spec()], add: adds, mul_after: seq![w] };
    assert(mods.mul_before.drop_last() =~= Seq::<D>::empty());
    assert(mods.mul_after.drop_last() =~= Seq::<D>::empty());
    D::lemma_zero_identity(D::zero_spec());
    D::lemma_zero_identity(w);
    D::lemma_zero_identity(D::one_spec());
    D::lemma_one_identity(base);
    assert(mods.mul_before.last() == D::zero_spec());
    assert(mods.mul_after.last() == w);
    assert(fold_add(D::zero_spec(), Seq::<D>::empty()) == D::zero_spec());
    assert(sum(mods.mul_before) == D::zero_spec().add_spec(D::zero_spec()));
    assert(sum(mods.mul_after) == D::zero_spec().add_spec(w));
}

/// Running sets once per placed system depends on the placements only
/// through which placements are present.
proof fn lemma_run_sets_once_by_contains<T, D: Add + Mul>(
    s: StatView<D>,
    sets: Seq<StatSystems<T>>,
    placed1: Seq<(StatSystem, StatSystems<T>)>,
    placed2: Seq<(StatSystem, StatSystems<T>)>,
    mods: Modifiers<D>,
)
    requires
        forall|p| placed1.contains(p) <==> placed2.contains(p),
    ensures
        run_sets_once(s, sets, placed1, mods) == run_sets_once(s, sets, placed2, mods),
    decreases sets.len(),
{
    if sets.len() > 0 {
        let next = run_set_once(s, sets[0], placed1, mods);
        assert(next == run_set_once(s, sets[0], placed2, mods));
        lemma_run_sets_once_by_contains(next, sets.drop_first(), placed1, placed2, mods);
    }
}

/// An update depends on the placements of this library only through which
/// placements are present: how often, and in what order, a registration was
/// made changes nothing.
pub proof fn lemma_update_by_present_placements<T, D: Add + Mul>(
    s: StatView<D>,
    placed1: Seq<(StatSystem, StatSystems<T>)>,
    placed2: Seq<(StatSystem, StatSystems<T>)>,
    mods: Modifiers<D>,
)
    requires
        forall|i: int| 0 <= i < placed1.len() ==> library_placement(#[trigger] placed1[i]),
        forall|i: int| 0 <= i < placed2.len() ==> library_placement(#[trigger] placed2[i]),
        forall|p| placed1.contains(p) <==> placed2.contains(p),
    ensures
        update(s, placed1, mods) == update(s, placed2, mods),
{
    let c = stat_sets_chain::<T>();
    lemma_run_sets_library(s, c, placed1, mods);
    lemma_run_sets_library(s, c, placed2, mods);
    lemma_run_sets_once_by_contains(s, c, placed1, placed2, mods);
}

/// Registering again what is already registered (such as configuring a stat
/// type for addition or multiplication a second time, directly or through
/// another modifier registration) leaves every update as it was.
pub proof fn lemma_registering_again_changes_nothing<T, D: Add + Mul>(
    s: StatView<D>,
    placed: Seq<(StatSystem, StatSystems<T>)>,
    again: Seq<(StatSystem, StatSystems<T>)>,
    mods: Modifiers<D>,
)
    requires
        forall|i: int| 0 <= i < placed.len() ==> library_placement(#[trigger] placed[i]),
        forall|i: int| 0 <= i < again.len() ==> placed.contains(#[trigger] again[i]),
    ensures
        update(s, placed + again, mods) == update(s, placed, mods),
{
    let both = placed + again;
    assert forall|i: int| 0 <= i < both.len() implies library_placement(#[trigger] both[i]) by {
        if i >= placed.len() {
            assert(both[i] == again[i - placed.len()]);
            let j = choose|j: int| 0 <= j < placed.len() && placed[j] == both[i];
            assert(library_placement(placed[j]));
        }
    }
    assert forall|p| both.contains(p) <==> placed.contains(p) by {
        if both.contains(p) {
            let i = choose|i: int| 0 <= i < both.len() && both[i] == p;
            if i >= placed.len() {
                assert(again[i - placed.len()] == p);
                assert(placed.contains(again[i - placed.len()]));
            } else {
                assert(placed[i] == p);
            }
        }
        if placed.contains(p) {
            let i = choose|i: int| 0 <= i < placed.len() && placed[i] == p;
            assert(both[i] == p);
        }
    }
    lemma_update_by_present_placements(s, both, placed, mods);
}

/// One step that this library's functions take on a stat: adding a modifier
/// value ([`crate::Stat::add_modifier`]), clearing ([`crate::clear_stat`]),
/// applying the additive total ([`crate::apply_add`]), or applying a
/// multiplying total ([`crate::apply_mul_before`], [`crate::apply_mul_after`]).
pub enum StatStep<D> {
    AddModifier(D),
    Clear,
    ApplyAdd,
    ApplyMul,
}

/// The state after one step.
pub open spec fn step<D: Add + Mul>(s: StatView<D>, st: StatStep<D>) -> StatView<D> {
    match st {
        StatStep::AddModifier(v) => s.with_modifier(v),
        StatStep::Clear => s.cleared(),
        StatStep::ApplyAdd => s.applied_add(),
        StatStep::ApplyMul => s.applied_mul(),
    }
}

/// The state after the steps, in order.
pub open spec fn run_steps<D: Add + Mul>(s: StatView<D>, steps: Seq<StatStep<D>>) -> StatView<D>
    decreases steps.len(),
{
    if steps.len() == 0 {
        s
    } else {
        step(run_steps(s, steps.drop_last()), steps.last())
    }
}

/// No step changes the base: after any sequence of them, the base is the one
/// that the stat was made with.
pub proof fn lemma_steps_keep_base<D: Add + Mul>(s: StatView<D>, steps: Seq<StatStep<D>>)
    ensures
        run_steps(s, steps).base == s.base,
    decreases steps.len(),
{
    if steps.len() > 0 {
        lemma_steps_keep_base(s, steps.drop_last());
    }
}

/// Runs of systems keep the base.
proof fn lemma_run_systems_in_keeps_base<T, D: Add + Mul>(
    s: StatView<D>,
    set: StatSystems<T>,
    placed: Seq<(StatSystem, StatSystems<T>)>,
)
    ensures
        run_systems_in(s, set, placed).base == s.base,
    decreases placed.len(),
{
    if placed.len() > 0 {
        let next = if placed[0].1 == set {
            system_effect(s, placed[0].0)
        } else {
            s
        };
        lemma_run_systems_in_keeps_base(next, set, placed.drop_first());
    }
}

/// Runs of sets keep the base.
proof fn lemma_run_sets_keeps_base<T, D: Add + Mul>(
    s: StatView<D>,
    sets: Seq<StatSystems<T>>,
    placed: Seq<(StatSystem, StatSystems<T>)>,
    mods: Modifiers<D>,
)
    ensures
        run_sets(s, sets, placed, mods).base == s.base,
    decreases sets.len(),
{
    if sets.len() > 0 {
        let summed = match sets[0] {
            StatSystems::Op(op) => with_modifiers(s, mods.of(op)),
            _ => s,
        };
        lemma_run_systems_in_keeps_base(summed, sets[0], placed);
        lemma_run_sets_keeps_base(run_set(s, sets[0], placed, mods), sets.drop_first(), placed, mods);
    }
}

/// An update, whatever is placed and whatever modifier values it adds, keeps
/// the base.
pub proof fn lemma_update_keeps_base<T, D: Add + Mul>(
    s: StatView<D>,
    placed: Seq<(StatSystem, StatSystems<T>)>,
    mods: Modifiers<D>,
)
    ensures
        update(s, placed, mods).base == s.base,
{
    lemma_run_sets_keeps_base(s, stat_sets_chain::<T>(), placed, mods);
}

} // verus!
