//! The system sets of a stat type, the order in which they run, and which of
//! this library's systems each registration places in which set.
//!
//! An update of a stat type runs its sets in the order of
//! [`add_stat_type`]'s chain. The functions named after the registration
//! methods say which systems the registration adds, and in which sets; the
//! spec functions at the end of this file say what one update does to a stat,
//! and the proof functions state the laws of the whole update.

use vstd::prelude::*;

use crate::data_type::Add;
use crate::data_type::Mul;
use crate::stat::StatView;

verus! {

/// Representations of possible stat modifier operations.
#[derive(Hash, PartialEq, Eq, Clone, Copy, Debug, Structural)]
pub enum DataTypeOp {
    Add,
    MulBefore,
    MulAfter,
}

/// System ordering for stat systems.
pub enum StatSystems<T> {
    /// Clears stat totals.
    Clear,
    /// Sums up modifiers for one [`DataTypeOp`].
    Op(DataTypeOp),
    /// Applies an operator's total to the stat total.
    Apply(DataTypeOp),
    /// Marks the end of all stat systems.
    Done,
    /// PhantomData holder.
    _PhantomData(core::marker::PhantomData<T>),
}

/// The systems that this library registers for a stat type.
#[derive(Hash, PartialEq, Eq, Clone, Copy, Debug, Structural)]
pub enum StatSystem {
    /// Clears each stat's total back to its base.
    ClearStat,
    /// Applies the sum of the additive modifiers.
    ApplyAdd,
    /// Applies the sum of the modifiers that multiply before addition.
    ApplyMulBefore,
    /// Applies the sum of the modifiers that multiply after addition.
    ApplyMulAfter,
    /// Adds each stat's additive modifier to its operator total.
    ModifierAdd,
    /// Adds each stat's multiply-before modifier to its operator total.
    ModifierMulBefore,
    /// Adds each stat's multiply-after modifier to its operator total.
    ModifierMulAfter,
}

/// What one registration configures: orderings between sets, each pair
/// `(a, b)` saying that set `a` runs before set `b`; and systems, each in the
/// set it belongs to.
pub struct Registration<T> {
    pub order: Vec<(StatSystems<T>, StatSystems<T>)>,
    pub systems: Vec<(StatSystem, StatSystems<T>)>,
}

/// The chain of sets of a stat type.
pub open spec fn stat_sets_chain<T>() -> Seq<StatSystems<T>> {
    seq![
        StatSystems::Clear,
        StatSystems::Op(DataTypeOp::MulBefore),
        StatSystems::Apply(DataTypeOp::MulBefore),
        StatSystems::Op(DataTypeOp::Add),
        StatSystems::Apply(DataTypeOp::Add),
        StatSystems::Op(DataTypeOp::MulAfter),
        StatSystems::Apply(DataTypeOp::MulAfter),
        StatSystems::Done,
    ]
}

/// The orderings that make the sets run as a chain: each set before the next.
pub open spec fn chain_order<T>(chain: Seq<StatSystems<T>>) -> Seq<(StatSystems<T>, StatSystems<T>)> {
    Seq::new((chain.len() - 1) as nat, |i: int| (chain[i], chain[i + 1]))
}

/// The systems that registering a stat type adds.
pub open spec fn stat_type_systems<T>() -> Seq<(StatSystem, StatSystems<T>)> {
    seq![(StatSystem::ClearStat, StatSystems::Clear)]
}

/// The systems that configuring a stat type for addition adds.
pub open spec fn configure_add_systems<T>() -> Seq<(StatSystem, StatSystems<T>)> {
    seq![(StatSystem::ApplyAdd, StatSystems::Apply(DataTypeOp::Add))]
}

/// The systems that registering an additive modifier adds.
pub open spec fn modifier_add_systems<T>() -> Seq<(StatSystem, StatSystems<T>)> {
    configure_add_systems::<T>().push((StatSystem::ModifierAdd, StatSystems::Op(DataTypeOp::Add)))
}

/// The systems that configuring a stat type for multiplication adds.
pub open spec fn configure_mul_systems<T>() -> Seq<(StatSystem, StatSystems<T>)> {
    seq![
        (StatSystem::ApplyMulBefore, StatSystems::Apply(DataTypeOp::MulBefore)),
        (StatSystem::ApplyMulAfter, StatSystems::Apply(DataTypeOp::MulAfter)),
    ]
}

/// The systems that registering a multiplying modifier adds.
pub open spec fn modifier_mul_systems<T>() -> Seq<(StatSystem, StatSystems<T>)> {
    configure_mul_systems::<T>()
        .push((StatSystem::ModifierMulBefore, StatSystems::Op(DataTypeOp::MulBefore)))
        .push((StatSystem::ModifierMulAfter, StatSystems::Op(DataTypeOp::MulAfter)))
}

/// Registers a stat type: the orderings that chain its sets, and the system
/// that clears its stats in the first of them.
pub fn add_stat_type<T>() -> (r: Registration<T>)
    ensures
        r.order@ == chain_order(stat_sets_chain::<T>()),
        r.systems@ == stat_type_systems::<T>(),
{
    let order = vec![
        (StatSystems::Clear, StatSystems::Op(DataTypeOp::MulBefore)),
        (StatSystems::Op(DataTypeOp::MulBefore), StatSystems::Apply(DataTypeOp::MulBefore)),
        (StatSystems::Apply(DataTypeOp::MulBefore), StatSystems::Op(DataTypeOp::Add)),
        (StatSystems::Op(DataTypeOp::Add), StatSystems::Apply(DataTypeOp::Add)),
        (StatSystems::Apply(DataTypeOp::Add), StatSystems::Op(DataTypeOp::MulAfter)),
        (StatSystems::Op(DataTypeOp::MulAfter), StatSystems::Apply(DataTypeOp::MulAfter)),
        (StatSystems::Apply(DataTypeOp::MulAfter), StatSystems::Done),
    ];
    let systems = vec![(StatSystem::ClearStat, StatSystems::Clear)];
    assert(order@ =~= chain_order(stat_sets_chain::<T>()));
    Registration { order, systems }
}

/// Configures a stat type to apply [`DataTypeOp::Add`].
pub fn configure_stat_type_add<T>() -> (r: Registration<T>)
    ensures
        r.order@ == Seq::<(StatSystems<T>, StatSystems<T>)>::empty(),
        r.systems@ == configure_add_systems::<T>(),
{
    let systems = vec![(StatSystem::ApplyAdd, StatSystems::Apply(DataTypeOp::Add))];
    Registration { order: Vec::new(), systems }
}

/// Registers an additive modifier of a stat type: configures the stat type
/// for addition, and sums up the modifier in [`DataTypeOp::Add`]'s set.
pub fn add_stat_modifier_add<T>() -> (r: Registration<T>)
    ensures
        r.order@ == Seq::<(StatSystems<T>, StatSystems<T>)>::empty(),
        r.systems@ == modifier_add_systems::<T>(),
{
    let mut r = configure_stat_type_add::<T>();
    r.systems.push((StatSystem::ModifierAdd, StatSystems::Op(DataTypeOp::Add)));
    r
}

/// Configures a stat type to apply [`DataTypeOp::MulBefore`] and [`DataTypeOp::MulAfter`].
pub fn configure_stat_type_mul<T>() -> (r: Registration<T>)
    ensures
        r.order@ == Seq::<(StatSystems<T>, StatSystems<T>)>::empty(),
        r.systems@ == configure_mul_systems::<T>(),
{
    let systems = vec![
        (StatSystem::ApplyMulBefore, StatSystems::Apply(DataTypeOp::MulBefore)),
        (StatSystem::ApplyMulAfter, StatSystems::Apply(DataTypeOp::MulAfter)),
    ];
    Registration { order: Vec::new(), systems }
}

/// Registers a multiplying modifier of a stat type: configures the stat type
/// for multiplication, and sums up the modifier's two values in the sets of
/// [`DataTypeOp::MulBefore`] and [`DataTypeOp::MulAfter`].
pub fn add_stat_modifier_mul<T>() -> (r: Registration<T>)
    ensures
        r.order@ == Seq::<(StatSystems<T>, StatSystems<T>)>::empty(),
        r.systems@ == modifier_mul_systems::<T>(),
{
    let mut r = configure_stat_type_mul::<T>();
    r.systems.push((StatSystem::ModifierMulBefore, StatSystems::Op(DataTypeOp::MulBefore)));
    r.systems.push((StatSystem::ModifierMulAfter, StatSystems::Op(DataTypeOp::MulAfter)));
    r
}

/// Orders the calculation of stats such that `TBefore` is calculated before
/// `TAfter`: the first set, the last of `TBefore`'s chain, runs before the
/// second, the first of `TAfter`'s chain.
pub fn order_stats<TBefore, TAfter>() -> (r: (StatSystems<TBefore>, StatSystems<TAfter>))
    ensures
        r.0 == StatSystems::<TBefore>::Done,
        r.1 == StatSystems::<TAfter>::Clear,
{
    (StatSystems::Done, StatSystems::Clear)
}

/// A set of either of two stat types.
pub enum SetOf<A, B> {
    First(StatSystems<A>),
    Second(StatSystems<B>),
}

/// The orderings that registering stat types `A` and `B` and ordering `A`
/// before `B` configure: the chain of each, and the ordering that
/// [`order_stats`] returns.
pub open spec fn ordered_stats_order<A, B>() -> Seq<(SetOf<A, B>, SetOf<A, B>)> {
    chain_order(stat_sets_chain::<A>()).map_values(
        |e: (StatSystems<A>, StatSystems<A>)| (SetOf::<A, B>::First(e.0), SetOf::<A, B>::First(e.1)),
    ) + chain_order(stat_sets_chain::<B>()).map_values(
        |e: (StatSystems<B>, StatSystems<B>)| (SetOf::<A, B>::Second(e.0), SetOf::<A, B>::Second(e.1)),
    ) + seq![(SetOf::<A, B>::First(StatSystems::Done), SetOf::<A, B>::Second(StatSystems::Clear))]
}

/// Whether `path` goes from set to set along `order`: each set of it is
/// ordered before the next.
pub open spec fn is_order_path<N>(order: Seq<(N, N)>, path: Seq<N>) -> bool {
    &&& path.len() >= 2
    &&& forall|k: int| 0 <= k < path.len() - 1 ==> order.contains((#[trigger] path[k], path[k + 1]))
}

/// Ordering `A` before `B` calculates `A` before `B`: every set of `A`'s
/// chain comes before every set of `B`'s chain, along the orderings that
/// registering both stat types and [`order_stats`] configure.
pub proof fn lemma_order_stats_orders_all_sets<A, B>(i: int, j: int)
    requires
        0 <= i < stat_sets_chain::<A>().len(),
        0 <= j < stat_sets_chain::<B>().len(),
    ensures
        exists|path: Seq<SetOf<A, B>>|
            is_order_path(ordered_stats_order::<A, B>(), path) && path[0] == SetOf::<A, B>::First(
                stat_sets_chain::<A>()[i],
            ) && path.last() == SetOf::<A, B>::Second(stat_sets_chain::<B>()[j]),
{
    let ca = stat_sets_chain::<A>();
    let cb = stat_sets_chain::<B>();
    let order = ordered_stats_order::<A, B>();
    let first = chain_order(ca).map_values(
        |e: (StatSystems<A>, StatSystems<A>)| (SetOf::<A, B>::First(e.0), SetOf::<A, B>::First(e.1)),
    );
    let second = chain_order(cb).map_values(
        |e: (StatSystems<B>, StatSystems<B>)| (SetOf::<A, B>::Second(e.0), SetOf::<A, B>::Second(e.1)),
    );
    let rest = ca.len() as int - i;
    let path = Seq::new(
        (rest + j + 1) as nat,
        |k: int|
            if k < rest {
                SetOf::<A, B>::First(ca[i + k])
            } else {
                SetOf::<A, B>::Second(cb[k - rest])
            },
    );
    assert forall|k: int| 0 <= k < path.len() - 1 implies order.contains((#[trigger] path[k], path[k + 1])) by {
        if k + 1 < rest {
            assert(first[i + k] == (path[k], path[k + 1]));
            assert(order[i + k] == first[i + k]);
        } else if k + 1 == rest {
            assert(order[(first.len() + second.len()) as int] == (path[k], path[k + 1]));
        } else {
            let m = k - rest;
            assert(second[m] == (path[k], path[k + 1]));
            assert(order[first.len() as int + m] == second[m]);
        }
    }
    assert(is_order_path(order, path));
    assert(path[0] == SetOf::<A, B>::First(ca[i]));
    assert(path.last() == path[rest + j]);
    assert(path.last() == SetOf::<A, B>::Second(cb[j]));
}

} // verus!
