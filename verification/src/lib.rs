//! A Minecraft-inspired stat system.
//!
//! A [`Stat`] has a base value and a total. Every update clears the total back
//! to the base, then for each operation in turn (multiplication before
//! addition, addition, multiplication after addition) sums up the values of
//! the stat's modifiers and applies the sum to the total.
//!
//! - [`data_type`]: what a stat value must offer ([`Add`], [`Mul`]), and the
//!   integer types that offer it.
//! - [`stat`]: stats, and the steps of an update.
//! - [`schedule`]: the sets of an update in order, and what each registration
//!   places in them.
//! - [`update`]: what one update does to a stat, and its laws.
//! - [`derive`]: the `StatType` implementation that the derive makes of a
//!   type definition.

pub mod data_type;
pub mod derive;
pub mod schedule;
pub mod stat;
pub mod update;

pub use data_type::Add;
pub use data_type::Mul;
pub use schedule::DataTypeOp;
pub use schedule::StatSystems;
pub use stat::apply_add;
pub use stat::apply_mul_after;
pub use stat::apply_mul_before;
pub use stat::clear_stat;
pub use stat::Stat;
pub use stat::StatModifierAdd;
pub use stat::StatModifierMul;
pub use stat::StatType;
pub use stat::StatView;
