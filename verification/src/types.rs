use vstd::prelude::*;

verus! {

/// Number of reusable projectile labels in the magazine.
pub const MAGAZINE_SIZE: u32 = 3;
/// Enemies spawned over one round.
pub const CARS_PER_ROUND: u32 = 25;

/// Upward projectile speed, pixels per second.
pub const MARBLE_SPEED: u32 = 600;
/// Rightward power-up speed, pixels per second.
pub const POWERUP_SPEED: u32 = 300;
/// Largest speed any entity moves at, pixels per second.
pub const MAX_SPEED: u32 = 600;

/// Entities whose horizontal position exceeds this bound are culled (millipixels).
pub const CULL_X: i64 = 750_000;
/// Entities whose vertical position exceeds this bound are culled (millipixels).
pub const CULL_Y: i64 = 400_000;
/// Horizontal position where enemies and the power-up appear (millipixels).
pub const SPAWN_X: i64 = -740_000;
/// Enemies and the power-up appear at a vertical position drawn from
/// `[SPAWN_Y_MIN, SPAWN_Y_MIN + SPAWN_Y_SPAN)` (millipixels).
pub const SPAWN_Y_MIN: i64 = -100_000;
pub const SPAWN_Y_SPAN: u64 = 425_000;
/// Vertical position a projectile is launched from (millipixels).
pub const LAUNCH_Y: i64 = -275_000;
/// Vertical position of the player's turret (millipixels); the runtime renders it there.
pub const PLAYER_Y: i64 = -325_000;

/// The spawn controller redraws its countdown from `[SPAWN_DELAY_MIN_MS, SPAWN_DELAY_MAX_MS)`.
pub const SPAWN_DELAY_MIN_MS: u64 = 100;
pub const SPAWN_DELAY_MAX_MS: u64 = 1250;
/// The power-up controller's period is drawn from `[POWER_DELAY_MIN_MS, POWER_DELAY_MAX_MS)`.
pub const POWER_DELAY_MIN_MS: u64 = 5000;
pub const POWER_DELAY_MAX_MS: u64 = 7000;

/// Positions are kept within `[-POS_LIMIT, POS_LIMIT]` (2^50 millipixels),
/// so that one tick's motion can be added without overflow.
pub const POS_LIMIT: i64 = 1_125_899_906_842_624;
/// Bound on one tick's displacement: `MAX_SPEED * u32::MAX` millipixels.
pub const STEP_LIMIT: i64 = 2_576_980_377_000;

/// Both coordinates within the range the arithmetic is proved safe for.
pub open spec fn pos_ok(x: i64, y: i64) -> bool {
    &&& -POS_LIMIT <= x <= POS_LIMIT
    &&& -POS_LIMIT <= y <= POS_LIMIT
}

/// How an enemy moves: straight, or weaving vertically.
#[derive(PartialEq, Eq, Structural, Clone, Copy, Debug)]
pub enum Behavior {
    Linear,
    Sinusoidal,
}

/// The fixed archetype table for enemies; each kind fixes health, speed and
/// behavior, and names the visual preset the runtime draws.
#[derive(PartialEq, Eq, Structural, Clone, Copy, Debug)]
pub enum CarKind {
    Black,
    Red,
    Blue,
    Green,
    Yellow,
}

/// Health an enemy of this kind starts with: the green car takes two hits.
pub open spec fn car_health(k: CarKind) -> u32 {
    if k is Green {
        2
    } else {
        1
    }
}

/// Rightward speed of this kind, pixels per second.
pub open spec fn car_speed(k: CarKind) -> u32 {
    match k {
        CarKind::Black => 150,
        CarKind::Blue => 200,
        CarKind::Green => 250,
        CarKind::Yellow => 300,
        CarKind::Red => 350,
    }
}

/// The black car is the only weaving mover.
pub open spec fn car_behavior(k: CarKind) -> Behavior {
    if k is Black {
        Behavior::Sinusoidal
    } else {
        Behavior::Linear
    }
}

/// Durable record of one enemy in the directory: the source of truth for
/// health, speed and behavior that the entity mirror does not carry.
#[derive(PartialEq, Eq, Structural, Clone, Copy, Debug)]
pub struct Enemy {
    /// Unique within a round: the value of the remaining-to-spawn counter
    /// right after this enemy was spawned.
    pub label: u32,
    pub health: u32,
    /// Rightward speed, pixels per second.
    pub speed: u32,
    pub behavior: Behavior,
}

/// The directory record a freshly spawned enemy of kind `k` gets.
pub open spec fn enemy_record(k: CarKind, label: u32) -> Enemy {
    Enemy { label, health: car_health(k), speed: car_speed(k), behavior: car_behavior(k) }
}

/// Builds the directory record for a freshly spawned enemy.
pub fn make_enemy(k: CarKind, label: u32) -> (e: Enemy)
    ensures
        e == enemy_record(k, label),
{
    let health: u32 = match k {
        CarKind::Green => 2,
        _ => 1,
    };
    let speed: u32 = match k {
        CarKind::Black => 150,
        CarKind::Blue => 200,
        CarKind::Green => 250,
        CarKind::Yellow => 300,
        CarKind::Red => 350,
    };
    let behavior = match k {
        CarKind::Black => Behavior::Sinusoidal,
        _ => Behavior::Linear,
    };
    Enemy { label, health, speed, behavior }
}

/// A live projectile entity in the registry mirror.
#[derive(PartialEq, Eq, Structural, Clone, Copy, Debug)]
pub struct Marble {
    /// Which magazine label this entity holds, in `1..=MAGAZINE_SIZE`.
    pub num: u32,
    pub x: i64,
    pub y: i64,
}

/// A live enemy entity in the registry mirror; its stats live in the directory.
#[derive(PartialEq, Eq, Structural, Clone, Copy, Debug)]
pub struct CarSprite {
    /// Matches the `label` of exactly one directory record.
    pub num: u32,
    pub x: i64,
    pub y: i64,
}

/// The at-most-one live area-effect entity.
#[derive(PartialEq, Eq, Structural, Clone, Copy, Debug)]
pub struct PowerSprite {
    pub x: i64,
    pub y: i64,
}

/// An entity named by a collision event, already classified by category.
#[derive(PartialEq, Eq, Structural, Clone, Copy, Debug)]
pub enum EntityId {
    Player,
    Marble(u32),
    Car(u32),
    Power,
}

/// A one-shot sound the runtime should play.
#[derive(PartialEq, Eq, Structural, Clone, Copy, Debug)]
pub enum Cue {
    /// A projectile was fired.
    Launch,
    /// Played once per entity of a resolved collision pair.
    Impact,
    /// An enemy's health reached zero.
    EnemyDown,
    /// The area-effect power-up went off.
    AreaBlast,
    /// The round ended.
    RoundEnd,
}

/// One collision event from the runtime's collision collaborator.
/// Only begin-of-contact events count as hits.
#[derive(PartialEq, Eq, Structural, Clone, Copy, Debug)]
pub struct CollisionEvent {
    pub a: EntityId,
    pub b: EntityId,
    pub begin: bool,
}

} // verus!
