use vstd::prelude::*;

verus! {

/// Fixed-point sub-units per world unit: every distance in the engine is a
/// whole number of thousandths of a unit.
pub const SCALE: i64 = 1000;

/// Number of life slots a fresh player starts with.
pub const PLAYER_LIVES: u8 = 3;

/// Length of the invincibility window after a damaging hit, in milliseconds.
pub const RESPAWN_DURATION_MS: u64 = 5000;

/// Starting period of the asteroid spawn timer, in milliseconds.
pub const SPAWN_PERIOD_MS: u64 = 1000;

/// Period of the repeating timer that accelerates the spawn rate, in
/// milliseconds.
pub const RATE_INCREASE_PERIOD_MS: u64 = 15_000;

/// Distance a projectile travels each tick (10 world units).
pub const LASER_SPEED: i64 = 10_000;

/// Full side length of a projectile's hit-box, taken from its render scale
/// (0.3 world units).
pub const LASER_BOX: i64 = 300;

/// Full width of the player's hit-box (32 world units).
pub const PLAYER_BOX_W: i64 = 32_000;

/// Full height of the player's hit-box (48 world units).
pub const PLAYER_BOX_H: i64 = 48_000;

/// Hit-box side for the two large asteroid size classes (48 world units).
pub const ASTEROID_SIZE_LARGE: i64 = 48_000;

/// Hit-box side for the two small asteroid size classes (32 world units).
pub const ASTEROID_SIZE_SMALL: i64 = 32_000;

/// How far outside the play field asteroids spawn (25 world units).
pub const SPAWN_MARGIN: i64 = 25_000;

/// Low end of the oversized range the free spawn coordinate is drawn from.
pub const SPAWN_RANGE_LO: i64 = -25_000;

/// High end (exclusive) of the oversized range the free spawn coordinate is
/// drawn from.
pub const SPAWN_RANGE_HI: i64 = 825_000;

/// Smallest asteroid speed, in sub-units per tick (1 world unit).
pub const SPEED_MIN: i64 = 1000;

/// Largest asteroid speed (exclusive), in sub-units per tick (8 world units).
pub const SPEED_MAX: i64 = 8000;

/// Largest per-tick asteroid rotation delta, in milliradians (0.1 rad).
pub const ROT_DELTA_MAX: i64 = 100;

/// One full turn in milliradians; accumulated rotations are kept in
/// `[0, TAU_MRAD)`.
pub const TAU_MRAD: i64 = 6283;

/// How far outside the play field an entity may drift before it is
/// despawned (50 world units).
pub const OOB_MARGIN: i64 = 50_000;

/// Upper bound on either play-field dimension (100 000 world units),
/// so that every coordinate computation fits comfortably in `i64`.
pub const MAX_WINDOW: i64 = 100_000_000;

/// Bound on the coordinates of a live entity. A survivor of the
/// out-of-bounds sweep lies within the field plus margin, and a fresh
/// spawn within the field plus the oversized spawn range.
pub const POS_ALIVE_LIMIT: i64 = 150_100_000;

/// Bound on the coordinates of any entity record, live or destroyed:
/// a destroyed record keeps the position of its final movement step.
pub const POS_LIMIT: i64 = 150_200_000;

/// Largest movement step of any entity per tick: a projectile's speed.
pub const MAX_STEP: i64 = 10_000;

/// Upper bound on any timer period, in milliseconds (one day), so that
/// elapsed-time arithmetic fits in `u64`.
pub const MAX_PERIOD_MS: u64 = 86_400_000;

/// Upper bound on a hit-box side used by the overlap test.
pub const SIZE_LIMIT: i64 = 1_000_000;

} // verus!
