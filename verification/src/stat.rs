//! Stats and the steps that recompute a stat's total.
//!
//! A [`Stat`] holds a base value, the running total and the running total of
//! the operation that is being summed up. Every update clears the total back
//! to the base, then for each operation sums up its modifiers with
//! [`Stat::add_modifier`] and applies that sum to the total.

use vstd::prelude::*;

use crate::data_type::Add;
use crate::data_type::Mul;

verus! {

/// Marker trait for defining a unique stat.
pub trait StatType {
    /// What type the stat uses.
    type DataType;
}

/// The abstract state of a [`Stat`].
pub struct StatView<D> {
    /// The base stat value.
    pub base: D,
    /// The stat value after the operations applied so far.
    pub total: D,
    /// The sum of the modifiers of the operation that is being summed up.
    pub op_total: D,
}

impl<D> StatView<D> {
    /// The state after the total is cleared back to the base.
    pub open spec fn cleared(self) -> StatView<D> {
        StatView { base: self.base, total: self.base, op_total: self.op_total }
    }
}

impl<D: Add> StatView<D> {
    /// The state of a fresh stat with this base.
    pub open spec fn fresh(base: D) -> StatView<D> {
        StatView { base: base, total: base, op_total: D::zero_spec() }
    }

    /// Whether adding `rhs` to the operator total is defined.
    pub open spec fn modifier_defined(self, rhs: D) -> bool {
        self.op_total.add_defined(rhs)
    }

    /// The state after `rhs` is added to the operator total.
    pub open spec fn with_modifier(self, rhs: D) -> StatView<D> {
        StatView { base: self.base, total: self.total, op_total: self.op_total.add_spec(rhs) }
    }

    /// Whether adding the operator total to the total is defined.
    pub open spec fn apply_add_defined(self) -> bool {
        self.total.add_defined(self.op_total)
    }

    /// The state after the operator total is added to the total and reset.
    pub open spec fn applied_add(self) -> StatView<D> {
        StatView { base: self.base, total: self.total.add_spec(self.op_total), op_total: D::zero_spec() }
    }
}

impl<D: Add + Mul> StatView<D> {
    /// The factor that the operator total stands for: one plus the operator total.
    pub open spec fn factor(self) -> D {
        D::one_spec().add_spec(self.op_total)
    }

    /// Whether multiplying the total by the factor is defined.
    pub open spec fn apply_mul_defined(self) -> bool {
        &&& D::one_spec().add_defined(self.op_total)
        &&& self.total.mul_defined(self.factor())
    }

    /// The state after the total is multiplied by one plus the operator total,
    /// and the operator total is reset.
    pub open spec fn applied_mul(self) -> StatView<D> {
        StatView { base: self.base, total: self.total.mul_spec(self.factor()), op_total: D::zero_spec() }
    }
}

/// A stat of type `T`: its base value and its values after modifiers.
pub struct Stat<T: StatType> {
    base: T::DataType,
    running_total: T::DataType,
    running_op_total: T::DataType,
}

impl<T: StatType> View for Stat<T> {
    type V = StatView<T::DataType>;

    closed spec fn view(&self) -> StatView<T::DataType> {
        StatView { base: self.base, total: self.running_total, op_total: self.running_op_total }
    }
}

impl<T: StatType> Stat<T> where T::DataType: Add + Copy {
    /// A stat with this base; its total is the base until modifiers apply.
    pub fn new(base: T::DataType) -> (s: Self)
        ensures
            s@ == StatView::<T::DataType>::fresh(base),
    {
        Stat { base: base, running_total: base, running_op_total: T::DataType::zero() }
    }

    /// Adds `rhs` to the current operator total.
    pub fn add_modifier(&mut self, rhs: T::DataType)
        requires
            old(self)@.modifier_defined(rhs),
        ensures
            final(self)@ == old(self)@.with_modifier(rhs),
    {
        self.running_op_total = self.running_op_total.add(rhs);
    }

    /// Tells whether [`Stat::add_modifier`] is defined on `rhs`.
    pub fn can_add_modifier(&self, rhs: &T::DataType) -> (b: bool)
        ensures
            b == self@.modifier_defined(*rhs),
    {
        self.running_op_total.is_add_defined(rhs)
    }

    /// Tells whether [`apply_add`] is defined on this stat.
    pub fn can_apply_add(&self) -> (b: bool)
        ensures
            b == self@.apply_add_defined(),
    {
        self.running_total.is_add_defined(&self.running_op_total)
    }
}

impl<T: StatType> Stat<T> where T::DataType: Add + Mul + Copy {
    /// Tells whether [`apply_mul_before`] and [`apply_mul_after`] are defined on this stat.
    pub fn can_apply_mul(&self) -> (b: bool)
        ensures
            b == self@.apply_mul_defined(),
    {
        let one = T::DataType::one();
        if one.is_add_defined(&self.running_op_total) {
            let factor = one.add(self.running_op_total);
            self.running_total.is_mul_defined(&factor)
        } else {
            false
        }
    }
}

impl<T: StatType> Stat<T> where T::DataType: Copy {
    fn clear(&mut self)
        ensures
            final(self)@ == old(self)@.cleared(),
    {
        self.running_total = self.base;
    }

    /// The base stat value.
    pub fn base(&self) -> (r: T::DataType)
        ensures
            r == self@.base,
    {
        self.base
    }

    /// The stat value after all modifiers.
    pub fn total(&self) -> (r: T::DataType)
        ensures
            r == self@.total,
    {
        self.running_total
    }
}

/// Clears a stat's total back to its base.
pub fn clear_stat<T: StatType>(stat: &mut Stat<T>) where T::DataType: Copy
    ensures
        final(stat)@ == old(stat)@.cleared(),
{
    stat.clear();
}

/// Adds the operator total to the stat's total and resets the operator total.
pub fn apply_add<T: StatType>(stat: &mut Stat<T>) where T::DataType: Add + Copy
    requires
        old(stat)@.apply_add_defined(),
    ensures
        final(stat)@ == old(stat)@.applied_add(),
{
    stat.running_total = stat.running_total.add(stat.running_op_total);
    stat.running_op_total = T::DataType::zero();
}

/// Multiplies the stat's total by one plus the operator total, and resets
/// the operator total.
fn apply_mul<T: StatType>(stat: &mut Stat<T>) where T::DataType: Add + Mul + Copy
    requires
        old(stat)@.apply_mul_defined(),
    ensures
        final(stat)@ == old(stat)@.applied_mul(),
{
    let factor = T::DataType::one().add(stat.running_op_total);
    stat.running_total = stat.running_total.mul(factor);
    stat.running_op_total = T::DataType::zero();
}

/// Applies the sum of the modifiers that multiply before addition.
pub fn apply_mul_before<T: StatType>(stat: &mut Stat<T>) where T::DataType: Add + Mul + Copy
    requires
        old(stat)@.apply_mul_defined(),
    ensures
        final(stat)@ == old(stat)@.applied_mul(),
{
    apply_mul(stat);
}

/// Applies the sum of the modifiers that multiply after addition.
pub fn apply_mul_after<T: StatType>(stat: &mut Stat<T>) where T::DataType: Add + Mul + Copy
    requires
        old(stat)@.apply_mul_defined(),
    ensures
        final(stat)@ == old(stat)@.applied_mul(),
{
    apply_mul(stat);
}

/// A modifier to a [`Stat`] that adds to it.
pub trait StatModifierAdd<T: StatType> where T::DataType: Add {
    /// Addition to the total, after the multiplication before addition but
    /// before the multiplication after it. Zero unless the modifier says otherwise.
    fn add(&self) -> (r: T::DataType)
        default_ensures
            r == T::DataType::zero_spec(),
    {
        T::DataType::zero()
    }
}

/// A modifier to a [`Stat`] that multiplies it.
pub trait StatModifierMul<T: StatType> where T::DataType: Add + Mul {
    /// Multiplication to the base, before addition. The total is multiplied
    /// by one plus the sum of these values. Zero unless the modifier says otherwise.
    fn mul_before(&self) -> (r: T::DataType)
        default_ensures
            r == T::DataType::zero_spec(),
    {
        T::DataType::zero()
    }

    /// Multiplication to the total after addition and the multiplication
    /// before it. Zero unless the modifier says otherwise.
    fn mul_after(&self) -> (r: T::DataType)
        default_ensures
            r == T::DataType::zero_spec(),
    {
        T::DataType::zero()
    }
}

} // verus!
