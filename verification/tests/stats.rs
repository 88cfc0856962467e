use sbepistats::schedule::{self, Registration, StatSystem};
use sbepistats::{
    apply_add, apply_mul_after, apply_mul_before, clear_stat, Add, DataTypeOp, Mul, Stat,
    StatModifierAdd, StatSystems, StatType,
};

/// An `f32` stat value.
#[derive(Clone, Copy, Debug, PartialEq)]
struct F32(f32);

// The ghost items of the traits are only read by the verifier; they are
// never called.
impl Add for F32 {
    fn add_spec(self, _rhs: Self) -> Self {
        unreachable!()
    }

    fn add_defined(self, _rhs: Self) -> bool {
        unreachable!()
    }

    fn zero_spec() -> Self {
        unreachable!()
    }

    fn lemma_zero_identity(_x: Self) {}

    fn add(self, rhs: Self) -> Self {
        F32(self.0 + rhs.0)
    }

    fn zero() -> Self {
        F32(0.0)
    }

    fn is_add_defined(&self, _rhs: &Self) -> bool {
        true
    }
}

impl Mul for F32 {
    fn mul_spec(self, _rhs: Self) -> Self {
        unreachable!()
    }

    fn mul_defined(self, _rhs: Self) -> bool {
        unreachable!()
    }

    fn one_spec() -> Self {
        unreachable!()
    }

    fn lemma_one_identity(_x: Self) {}

    fn mul(self, rhs: Self) -> Self {
        F32(self.0 * rhs.0)
    }

    fn one() -> Self {
        F32(1.0)
    }

    fn is_mul_defined(&self, _rhs: &Self) -> bool {
        true
    }
}

fn same_set<T>(a: &StatSystems<T>, b: &StatSystems<T>) -> bool {
    match (a, b) {
        (StatSystems::Clear, StatSystems::Clear) => true,
        (StatSystems::Op(x), StatSystems::Op(y)) => x == y,
        (StatSystems::Apply(x), StatSystems::Apply(y)) => x == y,
        (StatSystems::Done, StatSystems::Done) => true,
        _ => false,
    }
}

/// The sets of a stat type, in the order that its registration chains them.
fn chain<T>() -> Vec<StatSystems<T>> {
    let mut chain = Vec::new();
    for (i, (before, after)) in schedule::add_stat_type::<T>().order.into_iter().enumerate() {
        if i == 0 {
            chain.push(before);
        }
        chain.push(after);
    }
    chain
}

/// One update of one stat: the sets of the stat type's chain in order; in
/// the set of an operation the values of that operation are added, then the
/// registered systems of each set run.
fn update<T: StatType>(
    stat: &mut Stat<T>,
    registrations: &[Registration<T>],
    values: &[(DataTypeOp, T::DataType)],
) where
    T::DataType: Add + Mul + Copy,
{
    let chain = chain::<T>();
    for set in chain.iter() {
        if let StatSystems::Op(op) = set {
            for (value_op, value) in values {
                if value_op == op {
                    assert!(stat.can_add_modifier(value));
                    stat.add_modifier(*value);
                }
            }
        }
        for registration in registrations {
            for (system, home) in registration.systems.iter() {
                if !same_set(home, set) {
                    continue;
                }
                match system {
                    StatSystem::ClearStat => clear_stat(stat),
                    StatSystem::ApplyAdd => {
                        assert!(stat.can_apply_add());
                        apply_add(stat)
                    }
                    StatSystem::ApplyMulBefore => {
                        assert!(stat.can_apply_mul());
                        apply_mul_before(stat)
                    }
                    StatSystem::ApplyMulAfter => {
                        assert!(stat.can_apply_mul());
                        apply_mul_after(stat)
                    }
                    _ => {}
                }
            }
        }
    }
}

struct Speed;

impl StatType for Speed {
    type DataType = F32;
}

struct SpeedBoost;

impl StatModifierAdd<Speed> for SpeedBoost {
    fn add(&self) -> F32 {
        F32(0.2)
    }
}

struct SpeedBooster;

impl StatModifierAdd<Speed> for SpeedBooster {
    fn add(&self) -> F32 {
        F32(0.3)
    }
}

struct PowerLevel;

impl StatType for PowerLevel {
    type DataType = u32;
}

struct PowerUp;

impl StatModifierAdd<PowerLevel> for PowerUp {
    fn add(&self) -> u32 {
        1
    }
}

fn speed_registrations() -> Vec<Registration<Speed>> {
    vec![
        schedule::add_stat_type::<Speed>(),
        schedule::add_stat_modifier_add::<Speed>(),
        schedule::add_stat_modifier_add::<Speed>(),
    ]
}

fn power_registrations() -> Vec<Registration<PowerLevel>> {
    vec![
        schedule::add_stat_type::<PowerLevel>(),
        schedule::add_stat_modifier_add::<PowerLevel>(),
    ]
}

#[test]
fn f32_stat_without_modifier() {
    let mut stat = Stat::<Speed>::new(F32(1.0));
    update(&mut stat, &speed_registrations(), &[]);
    assert_eq!(1.0, stat.total().0)
}

#[test]
fn f32_stat_with_modifier() {
    let mut stat = Stat::<Speed>::new(F32(1.0));
    update(&mut stat, &speed_registrations(), &[(DataTypeOp::Add, SpeedBoost.add())]);
    assert_eq!(1.2, stat.total().0)
}

#[test]
fn f32_stat_with_two_modifier() {
    let mut stat = Stat::<Speed>::new(F32(1.0));
    update(
        &mut stat,
        &speed_registrations(),
        &[(DataTypeOp::Add, SpeedBoost.add()), (DataTypeOp::Add, SpeedBooster.add())],
    );
    assert_eq!(1.5, stat.total().0)
}

#[test]
fn u32_stat_without_modifier() {
    let mut stat = Stat::<PowerLevel>::new(1);
    update(&mut stat, &power_registrations(), &[]);
    assert_eq!(1, stat.total())
}

#[test]
fn u32_stat_with_modifier() {
    let mut stat = Stat::<PowerLevel>::new(1);
    update(&mut stat, &power_registrations(), &[(DataTypeOp::Add, PowerUp.add())]);
    assert_eq!(2, stat.total())
}

// Stats derived from other stats, ordered with `order_stats`.

struct SpeedChargeMultiplier;

impl StatType for SpeedChargeMultiplier {
    type DataType = F32;
}

struct SpeedChargeMultBoost;

impl StatModifierAdd<SpeedChargeMultiplier> for SpeedChargeMultBoost {
    fn add(&self) -> F32 {
        F32(1.0)
    }
}

struct ChargedSpeed;

impl StatType for ChargedSpeed {
    type DataType = F32;
}

struct SpeedCharge(std::time::Duration);

fn is_done<T>(set: &StatSystems<T>) -> bool {
    matches!(set, StatSystems::Done)
}

fn is_clear<T>(set: &StatSystems<T>) -> bool {
    matches!(set, StatSystems::Clear)
}

/// The charged speed of an entity, after one update of both stat types, the
/// multiplier first as `order_stats` asks.
fn charged_speed(boosted: bool) -> f32 {
    let (before, after) = schedule::order_stats::<SpeedChargeMultiplier, ChargedSpeed>();
    assert!(is_done(&before) && is_clear(&after));

    let multiplier_registrations = vec![
        schedule::add_stat_type::<SpeedChargeMultiplier>(),
        schedule::add_stat_modifier_add::<SpeedChargeMultiplier>(),
    ];
    let speed_registrations = vec![
        schedule::add_stat_type::<ChargedSpeed>(),
        schedule::configure_stat_type_add::<ChargedSpeed>(),
    ];

    let mut speed = Stat::<ChargedSpeed>::new(F32(1.0));
    let mut multiplier = Stat::<SpeedChargeMultiplier>::new(F32(1.0));
    let charge = SpeedCharge(std::time::Duration::from_secs_f32(2.0));

    let boosts: Vec<(DataTypeOp, F32)> =
        if boosted { vec![(DataTypeOp::Add, SpeedChargeMultBoost.add())] } else { vec![] };
    update(&mut multiplier, &multiplier_registrations, &boosts);
    let charged = F32(charge.0.as_secs_f32() * multiplier.total().0);
    update(&mut speed, &speed_registrations, &[(DataTypeOp::Add, charged)]);
    speed.total().0
}

#[test]
fn derived_stat() {
    assert_eq!(3.0, charged_speed(false))
}

#[test]
fn derived_stat_with_modifier() {
    assert_eq!(5.0, charged_speed(true))
}

// Stats that `bevy_auto_plugin` build hooks register and order.

struct Acceleration;

impl StatType for Acceleration {
    type DataType = F32;
}

struct AccelerationBoost;

impl StatModifierAdd<Acceleration> for AccelerationBoost {
    fn add(&self) -> F32 {
        F32(0.2)
    }
}

struct Velocity;

impl StatType for Velocity {
    type DataType = F32;
}

struct Position;

impl StatType for Position {
    type DataType = F32;
}

/// One entity's stats, each present or not, with or without the boost.
struct Entity {
    position: Option<Stat<Position>>,
    velocity: Option<Stat<Velocity>>,
    acceleration: Option<Stat<Acceleration>>,
    boosted: bool,
}

/// One update of the three stat types in the order that the hooks set:
/// acceleration before velocity before position. Velocity accelerates by the
/// acceleration's total, position moves by the velocity's total.
fn update_entity(entity: &mut Entity) {
    let (before, after) = schedule::order_stats::<Acceleration, Velocity>();
    assert!(is_done(&before) && is_clear(&after));
    let (before, after) = schedule::order_stats::<Velocity, Position>();
    assert!(is_done(&before) && is_clear(&after));

    if let Some(acceleration) = entity.acceleration.as_mut() {
        let registrations = vec![
            schedule::add_stat_type::<Acceleration>(),
            schedule::add_stat_modifier_add::<Acceleration>(),
        ];
        let boosts: Vec<(DataTypeOp, F32)> =
            if entity.boosted { vec![(DataTypeOp::Add, AccelerationBoost.add())] } else { vec![] };
        update(acceleration, &registrations, &boosts);
    }
    if let Some(velocity) = entity.velocity.as_mut() {
        let registrations = vec![
            schedule::add_stat_type::<Velocity>(),
            schedule::configure_stat_type_add::<Velocity>(),
        ];
        let accelerations: Vec<(DataTypeOp, F32)> = match &entity.acceleration {
            Some(acceleration) => vec![(DataTypeOp::Add, acceleration.total())],
            None => vec![],
        };
        update(velocity, &registrations, &accelerations);
    }
    if let Some(position) = entity.position.as_mut() {
        let registrations = vec![
            schedule::add_stat_type::<Position>(),
            schedule::configure_stat_type_add::<Position>(),
        ];
        let moves: Vec<(DataTypeOp, F32)> = match &entity.velocity {
            Some(velocity) => vec![(DataTypeOp::Add, velocity.total())],
            None => vec![],
        };
        update(position, &registrations, &moves);
    }
}

#[test]
fn auto_plugin_f32_stat_without_modifier() {
    let mut entity = Entity {
        position: None,
        velocity: None,
        acceleration: Some(Stat::new(F32(1.0))),
        boosted: false,
    };
    update_entity(&mut entity);
    assert_eq!(1.0, entity.acceleration.unwrap().total().0)
}

#[test]
fn auto_plugin_f32_stat_with_modifier() {
    let mut entity = Entity {
        position: None,
        velocity: None,
        acceleration: Some(Stat::new(F32(1.0))),
        boosted: true,
    };
    update_entity(&mut entity);
    assert_eq!(1.2, entity.acceleration.unwrap().total().0)
}

#[test]
fn auto_plugin_order_stat_before() {
    let mut entity = Entity {
        position: None,
        velocity: Some(Stat::new(F32(1.0))),
        acceleration: Some(Stat::new(F32(1.0))),
        boosted: true,
    };
    update_entity(&mut entity);
    assert_eq!(2.2, entity.velocity.unwrap().total().0)
}

#[test]
fn auto_plugin_order_stat_after() {
    let mut entity = Entity {
        position: Some(Stat::new(F32(1.0))),
        velocity: Some(Stat::new(F32(1.0))),
        acceleration: Some(Stat::new(F32(1.0))),
        boosted: true,
    };
    update_entity(&mut entity);
    assert_eq!(3.2, entity.position.unwrap().total().0)
}
