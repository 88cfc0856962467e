use sbepistats::schedule::{self, Registration, StatSystem};
use sbepistats::{
    apply_add, apply_mul_after, apply_mul_before, clear_stat, Add, DataTypeOp, Mul, Stat,
    StatModifierAdd, StatModifierMul, StatSystems, StatType,
};

fn same_set<T>(a: &StatSystems<T>, b: &StatSystems<T>) -> bool {
    match (a, b) {
        (StatSystems::Clear, StatSystems::Clear) => true,
        (StatSystems::Op(x), StatSystems::Op(y)) => x == y,
        (StatSystems::Apply(x), StatSystems::Apply(y)) => x == y,
        (StatSystems::Done, StatSystems::Done) => true,
        _ => false,
    }
}

/// The sets of a stat type, in the order that its registration chains them.
fn chain<T>() -> Vec<StatSystems<T>> {
    let mut chain = Vec::new();
    for (i, (before, after)) in schedule::add_stat_type::<T>().order.into_iter().enumerate() {
        if i == 0 {
            chain.push(before);
        }
        chain.push(after);
    }
    chain
}

/// One update of one stat, as in `stats.rs`.
fn update<T: StatType>(
    stat: &mut Stat<T>,
    registrations: &[Registration<T>],
    values: &[(DataTypeOp, T::DataType)],
) where
    T::DataType: Add + Mul + Copy,
{
    let chain = chain::<T>();
    for set in chain.iter() {
        if let StatSystems::Op(op) = set {
            for (value_op, value) in values {
                if value_op == op {
                    assert!(stat.can_add_modifier(value));
                    stat.add_modifier(*value);
                }
            }
        }
        for registration in registrations {
            for (system, home) in registration.systems.iter() {
                if !same_set(home, set) {
                    continue;
                }
                match system {
                    StatSystem::ClearStat => clear_stat(stat),
                    StatSystem::ApplyAdd => {
                        assert!(stat.can_apply_add());
                        apply_add(stat)
                    }
                    StatSystem::ApplyMulBefore => {
                        assert!(stat.can_apply_mul());
                        apply_mul_before(stat)
                    }
                    StatSystem::ApplyMulAfter => {
                        assert!(stat.can_apply_mul());
                        apply_mul_after(stat)
                    }
                    _ => {}
                }
            }
        }
    }
}

struct Power;

impl StatType for Power {
    type DataType = u32;
}

struct Charm;

impl StatModifierMul<Power> for Charm {
    fn mul_before(&self) -> u32 {
        1
    }
}

struct Plain;

impl StatModifierAdd<Power> for Plain {}

impl StatModifierMul<Power> for Plain {}

fn all_registrations() -> Vec<Registration<Power>> {
    vec![
        schedule::add_stat_type::<Power>(),
        schedule::add_stat_modifier_add::<Power>(),
        schedule::add_stat_modifier_mul::<Power>(),
    ]
}

#[test]
fn update_multiplies_before_adding_and_after() {
    // (10 * (1 + 1) + 3) * (1 + 2) = 69
    let mut stat = Stat::<Power>::new(10);
    update(
        &mut stat,
        &all_registrations(),
        &[(DataTypeOp::Add, 3), (DataTypeOp::MulBefore, 1), (DataTypeOp::MulAfter, 2)],
    );
    assert_eq!(69, stat.total());
    assert_eq!(10, stat.base());
}

#[test]
fn update_sums_modifiers_of_one_operation() {
    // (2 * (1 + 1 + 2) + 1 + 4) * (1 + 0) = 13
    let mut stat = Stat::<Power>::new(2);
    update(
        &mut stat,
        &all_registrations(),
        &[
            (DataTypeOp::MulBefore, Charm.mul_before()),
            (DataTypeOp::MulBefore, 2),
            (DataTypeOp::Add, 1),
            (DataTypeOp::Add, 4),
        ],
    );
    assert_eq!(13, stat.total());
}

#[test]
fn update_recomputes_from_base() {
    let values = [(DataTypeOp::Add, 3), (DataTypeOp::MulAfter, 1)];
    let mut stat = Stat::<Power>::new(5);
    update(&mut stat, &all_registrations(), &values);
    assert_eq!(16, stat.total());
    update(&mut stat, &all_registrations(), &values);
    assert_eq!(16, stat.total());
    update(&mut stat, &all_registrations(), &[]);
    assert_eq!(5, stat.total());
}

#[test]
fn default_modifiers_keep_base() {
    assert_eq!(0, StatModifierAdd::<Power>::add(&Plain));
    assert_eq!(0, Plain.mul_before());
    assert_eq!(0, Plain.mul_after());
    assert_eq!(0, Charm.mul_after());
    let mut stat = Stat::<Power>::new(7);
    update(
        &mut stat,
        &all_registrations(),
        &[
            (DataTypeOp::MulBefore, Plain.mul_before()),
            (DataTypeOp::Add, StatModifierAdd::<Power>::add(&Plain)),
            (DataTypeOp::MulAfter, Plain.mul_after()),
        ],
    );
    assert_eq!(7, stat.total());
}

#[test]
fn registering_twice_changes_nothing() {
    let mut twice = all_registrations();
    twice.extend(all_registrations());
    let values = [(DataTypeOp::Add, 3), (DataTypeOp::MulBefore, 1), (DataTypeOp::MulAfter, 2)];
    let mut stat = Stat::<Power>::new(10);
    update(&mut stat, &twice, &values);
    assert_eq!(69, stat.total());
}

#[test]
fn unconfigured_stat_keeps_base() {
    let mut stat = Stat::<Power>::new(4);
    update(&mut stat, &[schedule::add_stat_type::<Power>()], &[(DataTypeOp::Add, 3)]);
    assert_eq!(4, stat.total());
}

#[test]
fn additive_stat_adds_sum() {
    let registrations =
        vec![schedule::add_stat_type::<Power>(), schedule::add_stat_modifier_add::<Power>()];
    let mut stat = Stat::<Power>::new(4);
    update(&mut stat, &registrations, &[(DataTypeOp::Add, 3), (DataTypeOp::Add, 5)]);
    assert_eq!(12, stat.total());
}

#[test]
fn stat_steps() {
    let mut stat = Stat::<Power>::new(3);
    assert_eq!(3, stat.base());
    assert_eq!(3, stat.total());
    stat.add_modifier(2);
    stat.add_modifier(4);
    apply_add(&mut stat);
    assert_eq!(9, stat.total());
    stat.add_modifier(1);
    apply_mul_before(&mut stat);
    assert_eq!(18, stat.total());
    stat.add_modifier(2);
    apply_mul_after(&mut stat);
    assert_eq!(54, stat.total());
    apply_add(&mut stat);
    assert_eq!(54, stat.total());
    clear_stat(&mut stat);
    assert_eq!(3, stat.total());
    assert_eq!(3, stat.base());
}

#[test]
fn stat_checks_overflow() {
    let mut stat = Stat::<Power>::new(u32::MAX);
    assert!(stat.can_add_modifier(&u32::MAX));
    assert!(stat.can_apply_add());
    stat.add_modifier(1);
    assert!(!stat.can_add_modifier(&u32::MAX));
    assert!(!stat.can_apply_add());
    assert!(!stat.can_apply_mul());
    let mut small = Stat::<Power>::new(2);
    small.add_modifier(u32::MAX);
    assert!(!small.can_apply_mul());
}

#[test]
fn chain_runs_in_order() {
    let registration = schedule::add_stat_type::<Power>();
    assert_eq!(7, registration.order.len());
    for i in 1..registration.order.len() {
        assert!(same_set(&registration.order[i - 1].1, &registration.order[i].0));
    }
    let sets: Vec<String> = chain::<Power>()
        .iter()
        .map(|set| match set {
            StatSystems::Clear => "clear".to_string(),
            StatSystems::Op(op) => format!("op {:?}", op),
            StatSystems::Apply(op) => format!("apply {:?}", op),
            StatSystems::Done => "done".to_string(),
            StatSystems::_PhantomData(_) => "phantom".to_string(),
        })
        .collect();
    assert_eq!(
        vec![
            "clear",
            "op MulBefore",
            "apply MulBefore",
            "op Add",
            "apply Add",
            "op MulAfter",
            "apply MulAfter",
            "done"
        ],
        sets
    );
    assert_eq!(1, registration.systems.len());
    assert!(matches!(registration.systems[0], (StatSystem::ClearStat, StatSystems::Clear)));
}

#[test]
fn registrations_place_systems() {
    let add = schedule::add_stat_modifier_add::<Power>();
    assert!(add.order.is_empty());
    assert_eq!(2, add.systems.len());
    assert!(matches!(add.systems[0], (StatSystem::ApplyAdd, StatSystems::Apply(DataTypeOp::Add))));
    assert!(matches!(add.systems[1], (StatSystem::ModifierAdd, StatSystems::Op(DataTypeOp::Add))));
    let mul = schedule::add_stat_modifier_mul::<Power>();
    assert_eq!(4, mul.systems.len());
    assert!(matches!(
        mul.systems[0],
        (StatSystem::ApplyMulBefore, StatSystems::Apply(DataTypeOp::MulBefore))
    ));
    assert!(matches!(
        mul.systems[1],
        (StatSystem::ApplyMulAfter, StatSystems::Apply(DataTypeOp::MulAfter))
    ));
    assert!(matches!(
        mul.systems[2],
        (StatSystem::ModifierMulBefore, StatSystems::Op(DataTypeOp::MulBefore))
    ));
    assert!(matches!(
        mul.systems[3],
        (StatSystem::ModifierMulAfter, StatSystems::Op(DataTypeOp::MulAfter))
    ));
    assert_eq!(1, schedule::configure_stat_type_add::<Power>().systems.len());
    assert_eq!(2, schedule::configure_stat_type_mul::<Power>().systems.len());
    let (before, after) = schedule::order_stats::<Power, Power>();
    assert!(matches!(before, StatSystems::Done));
    assert!(matches!(after, StatSystems::Clear));
}

#[test]
fn integer_data_types() {
    assert_eq!(7u8, 3u8.add(4));
    assert_eq!(0i64, <i64 as Add>::zero());
    assert_eq!(1i16, <i16 as Mul>::one());
    assert_eq!(-12i32, (-3i32).mul(4));
    assert!(!u8::MAX.is_add_defined(&1));
    assert!(200u8.is_add_defined(&55));
    assert!(!i8::MIN.is_add_defined(&-1));
    assert!(!16u8.is_mul_defined(&16));
    assert!(15u8.is_mul_defined(&17));
    assert!(!i64::MIN.is_mul_defined(&-1));
    assert!(u128::MAX.is_mul_defined(&1));
    assert!(!usize::MAX.is_add_defined(&1));
    assert!(isize::MAX.is_add_defined(&isize::MIN));
}

fn multiplying_registrations() -> Vec<Registration<Power>> {
    vec![schedule::add_stat_type::<Power>(), schedule::add_stat_modifier_mul::<Power>()]
}

#[test]
fn multiplying_stat_multiplies() {
    // 3 * (1 + 1) * (1 + 2 + 1) = 24
    let mut stat = Stat::<Power>::new(3);
    update(
        &mut stat,
        &multiplying_registrations(),
        &[
            (DataTypeOp::MulBefore, Charm.mul_before()),
            (DataTypeOp::MulAfter, 2),
            (DataTypeOp::MulAfter, 1),
        ],
    );
    assert_eq!(24, stat.total());
    update(&mut stat, &multiplying_registrations(), &[]);
    assert_eq!(3, stat.total());
}

#[test]
fn zero_modifier_among_others_keeps_total() {
    let values = [(DataTypeOp::Add, 3), (DataTypeOp::MulBefore, 1), (DataTypeOp::MulAfter, 2)];
    let with_zeros = [
        (DataTypeOp::MulBefore, Plain.mul_before()),
        (DataTypeOp::Add, 3),
        (DataTypeOp::Add, StatModifierAdd::<Power>::add(&Plain)),
        (DataTypeOp::MulBefore, 1),
        (DataTypeOp::MulAfter, Charm.mul_after()),
        (DataTypeOp::MulAfter, 2),
    ];
    let mut stat = Stat::<Power>::new(10);
    let mut other = Stat::<Power>::new(10);
    update(&mut stat, &all_registrations(), &values);
    update(&mut other, &all_registrations(), &with_zeros);
    assert_eq!(69, stat.total());
    assert_eq!(stat.total(), other.total());
}

struct Late;

impl StatModifierMul<Power> for Late {
    fn mul_after(&self) -> u32 {
        2
    }
}

#[test]
fn default_mul_before_keeps_base() {
    // A modifier that keeps the default multiply-before value and multiplies
    // after addition by one plus 2: (5 + 4) * 3.
    let mut stat = Stat::<Power>::new(5);
    update(
        &mut stat,
        &all_registrations(),
        &[
            (DataTypeOp::MulBefore, Late.mul_before()),
            (DataTypeOp::Add, 4),
            (DataTypeOp::MulAfter, Late.mul_after()),
        ],
    );
    assert_eq!(27, stat.total());
}
