//! The simulation's entities and round-scoped resources: the player,
//! asteroids, projectiles, life icons, the scoreboard and the round
//! state, together with their well-formedness conditions.

use vstd::prelude::*;

use crate::constants::{
    ASTEROID_SIZE_LARGE, ASTEROID_SIZE_SMALL, LASER_SPEED, PLAYER_BOX_H, PLAYER_BOX_W,
    PLAYER_LIVES, RATE_INCREASE_PERIOD_MS, RESPAWN_DURATION_MS, ROT_DELTA_MAX, SCALE,
    SPAWN_PERIOD_MS, SPEED_MAX, SPEED_MIN, TAU_MRAD,
};
use crate::geom::{iabs, pos_alive, pos_any, Vec2};
use crate::timer::{Timer, TimerMode};

verus! {

/// Anything with an axis-aligned hit-box centred on its position.
pub trait HitBox {
    /// The full width and height of the hit-box.
    spec fn spec_box(&self) -> Vec2;

    /// Returns the full width and height of the hit-box.
    fn get_box(&self) -> (b: Vec2)
        ensures
            b == self.spec_box(),
    ;
}

/// The player's ship: position and facing for presentation and aiming,
/// and the survivability state (lives, invincibility, respawn timer).
#[derive(Clone, Copy, PartialEq, Eq, Structural, Debug)]
pub struct Player {
    pub pos: Vec2,
    pub facing: Vec2,
    pub lives: u8,
    pub invincible: bool,
    pub respawn_timer: Timer,
}

impl Player {
    /// A one-shot respawn timer with nothing elapsed.
    pub open spec fn spec_fresh_respawn_timer() -> Timer {
        Timer {
            period_ms: RESPAWN_DURATION_MS,
            elapsed_ms: 0,
            mode: TimerMode::Once,
            fired: false,
        }
    }

    /// The player a fresh round starts with: at the origin, full lives,
    /// not invincible, respawn timer unstarted.
    pub open spec fn spec_default() -> Player {
        Player {
            pos: Vec2 { x: 0, y: 0 },
            facing: Vec2 { x: SCALE, y: 0 },
            lives: PLAYER_LIVES,
            invincible: false,
            respawn_timer: Player::spec_fresh_respawn_timer(),
        }
    }

    /// Bounded position and facing; the respawn timer is a well-formed
    /// one-shot over the fixed duration. It sits unstarted whenever the
    /// player is not invincible, and while invincible it is still
    /// counting — it has not already run out, so the window always
    /// closes.
    pub open spec fn wf(self) -> bool {
        &&& pos_alive(self.pos)
        &&& iabs(self.facing.x as int) <= SCALE
        &&& iabs(self.facing.y as int) <= SCALE
        &&& self.lives <= PLAYER_LIVES
        &&& self.respawn_timer.wf()
        &&& self.respawn_timer.mode is Once
        &&& self.respawn_timer.period_ms == RESPAWN_DURATION_MS
        &&& (!self.invincible ==> self.respawn_timer == Player::spec_fresh_respawn_timer())
        &&& (self.invincible ==> self.respawn_timer.elapsed_ms < self.respawn_timer.period_ms)
    }
}

impl Default for Player {
    /// Builds the player a fresh round starts with.
    fn default() -> (p: Player)
        ensures
            p == Player::spec_default(),
            p.wf(),
    {
        Player {
            pos: Vec2 { x: 0, y: 0 },
            facing: Vec2 { x: SCALE, y: 0 },
            lives: PLAYER_LIVES,
            invincible: false,
            respawn_timer: Timer::new(RESPAWN_DURATION_MS, TimerMode::Once),
        }
    }
}

impl HitBox for Player {
    open spec fn spec_box(&self) -> Vec2 {
        Vec2 { x: PLAYER_BOX_W, y: PLAYER_BOX_H }
    }

    fn get_box(&self) -> (b: Vec2) {
        Vec2 { x: PLAYER_BOX_W, y: PLAYER_BOX_H }
    }
}

/// A drifting asteroid: unit trajectory, scalar speed, per-tick rotation
/// delta, and its size-class hit-box.
#[derive(Clone, Copy, PartialEq, Eq, Structural, Debug)]
pub struct Asteroid {
    pub trajectory: Vec2,
    pub speed: i64,
    pub rotation: i64,
    pub width: i64,
    pub height: i64,
}

impl Asteroid {
    /// Unit trajectory, speed within the drawn range, small rotation
    /// delta, and one of the two square size classes.
    pub open spec fn wf(self) -> bool {
        &&& iabs(self.trajectory.x as int) <= SCALE
        &&& iabs(self.trajectory.y as int) <= SCALE
        &&& SPEED_MIN <= self.speed < SPEED_MAX
        &&& -ROT_DELTA_MAX <= self.rotation <= ROT_DELTA_MAX
        &&& (self.width == ASTEROID_SIZE_SMALL || self.width == ASTEROID_SIZE_LARGE)
        &&& self.height == self.width
    }
}

impl HitBox for Asteroid {
    open spec fn spec_box(&self) -> Vec2 {
        Vec2 { x: self.width, y: self.height }
    }

    fn get_box(&self) -> (b: Vec2) {
        Vec2 { x: self.width, y: self.height }
    }
}

/// A projectile: its velocity is the firing direction times the fixed
/// laser speed.
#[derive(Clone, Copy, PartialEq, Eq, Structural, Debug)]
pub struct Laser {
    pub velocity: Vec2,
}

impl Laser {
    pub open spec fn wf(self) -> bool {
        &&& iabs(self.velocity.x as int) <= LASER_SPEED
        &&& iabs(self.velocity.y as int) <= LASER_SPEED
    }
}

/// A life icon standing for one life slot; destroyed once its slot number
/// exceeds the lives left.
#[derive(Clone, Copy, PartialEq, Eq, Structural, Debug)]
pub struct Life {
    pub counter: u8,
}

impl Life {
    pub open spec fn wf(self) -> bool {
        1 <= self.counter <= PLAYER_LIVES
    }
}

/// The single integer score of the running round.
#[derive(Clone, Copy, PartialEq, Eq, Structural, Debug)]
pub struct Scoreboard {
    pub score: usize,
}

/// Why an asteroid or projectile was removed from play: it either
/// drifted out of bounds or was consumed by a collision, never both.
#[derive(Clone, Copy, PartialEq, Eq, Structural, Debug)]
pub enum DestroyCause {
    OutOfBounds,
    Collision,
}

/// Whether an entity record is still in play. A destroyed record keeps
/// its single destruction cause; destroying it again is a no-op.
#[derive(Clone, Copy, PartialEq, Eq, Structural, Debug)]
pub enum EntityState {
    Alive,
    Destroyed(DestroyCause),
}

/// An asteroid record in the round registry: position, accumulated
/// rotation, the asteroid itself and its liveness.
#[derive(Clone, Copy, PartialEq, Eq, Structural, Debug)]
pub struct AsteroidSlot {
    pub pos: Vec2,
    pub rot: i64,
    pub body: Asteroid,
    pub state: EntityState,
}

impl AsteroidSlot {
    pub open spec fn alive(self) -> bool {
        self.state is Alive
    }

    /// The same record marked destroyed for the given cause.
    pub open spec fn destroyed(self, cause: DestroyCause) -> AsteroidSlot {
        AsteroidSlot { state: EntityState::Destroyed(cause), ..self }
    }

    pub open spec fn wf(self) -> bool {
        &&& self.body.wf()
        &&& pos_any(self.pos)
        &&& (self.alive() ==> pos_alive(self.pos))
        &&& 0 <= self.rot < TAU_MRAD
    }
}

/// A projectile record in the round registry.
#[derive(Clone, Copy, PartialEq, Eq, Structural, Debug)]
pub struct LaserSlot {
    pub pos: Vec2,
    pub laser: Laser,
    pub state: EntityState,
}

impl LaserSlot {
    pub open spec fn alive(self) -> bool {
        self.state is Alive
    }

    /// The same record marked destroyed for the given cause.
    pub open spec fn destroyed(self, cause: DestroyCause) -> LaserSlot {
        LaserSlot { state: EntityState::Destroyed(cause), ..self }
    }

    pub open spec fn wf(self) -> bool {
        &&& self.laser.wf()
        &&& pos_any(self.pos)
        &&& (self.alive() ==> pos_alive(self.pos))
    }
}

/// A life-icon record; `alive` is false once the icon has been destroyed
/// by a lost life.
#[derive(Clone, Copy, PartialEq, Eq, Structural, Debug)]
pub struct LifeSlot {
    pub life: Life,
    pub alive: bool,
}

impl LifeSlot {
    pub open spec fn wf(self) -> bool {
        self.life.wf()
    }
}

/// The per-round scheduler and pause state: the accelerating asteroid
/// spawn timer, the fixed rate-increase timer, and the pause flag.
#[derive(Clone, Copy, PartialEq, Eq, Structural, Debug)]
pub struct GameState {
    pub asteroid_rate_increase_timer: Timer,
    pub asteroid_spawn_timer: Timer,
    pub paused: bool,
}

impl GameState {
    /// The round state a fresh round starts with.
    pub open spec fn spec_initial() -> GameState {
        GameState {
            asteroid_rate_increase_timer: Timer {
                period_ms: RATE_INCREASE_PERIOD_MS,
                elapsed_ms: 0,
                mode: TimerMode::Repeating,
                fired: false,
            },
            asteroid_spawn_timer: Timer {
                period_ms: SPAWN_PERIOD_MS,
                elapsed_ms: 0,
                mode: TimerMode::Repeating,
                fired: false,
            },
            paused: false,
        }
    }

    pub open spec fn wf(self) -> bool {
        &&& self.asteroid_rate_increase_timer.wf()
        &&& self.asteroid_rate_increase_timer.mode is Repeating
        &&& self.asteroid_spawn_timer.wf()
        &&& self.asteroid_spawn_timer.mode is Repeating
    }
}

/// Builds the player entity a fresh round starts with.
pub fn spawn_player() -> (p: Player)
    ensures
        p == Player::spec_default(),
        p.wf(),
{
    Player::default()
}

/// Builds the scoreboard a fresh round starts with: score zero.
pub fn setup_scoreboard() -> (s: Scoreboard)
    ensures
        s == (Scoreboard { score: 0 }),
{
    Scoreboard { score: 0 }
}

/// The life icons a fresh round starts with: one live icon per life
/// slot, numbered from one.
pub open spec fn spec_initial_life_icons() -> Seq<LifeSlot> {
    seq![
        LifeSlot { life: Life { counter: 1 }, alive: true },
        LifeSlot { life: Life { counter: 2 }, alive: true },
        LifeSlot { life: Life { counter: 3 }, alive: true },
    ]
}

/// Builds the life icons a fresh round starts with.
pub fn setup_life_counter() -> (icons: Vec<LifeSlot>)
    ensures
        icons@ == spec_initial_life_icons(),
{
    let mut icons: Vec<LifeSlot> = Vec::new();
    icons.push(LifeSlot { life: Life { counter: 1 }, alive: true });
    icons.push(LifeSlot { life: Life { counter: 2 }, alive: true });
    icons.push(LifeSlot { life: Life { counter: 3 }, alive: true });
    proof {
        assert(icons@ =~= spec_initial_life_icons());
    }
    icons
}

/// Builds the scheduler state a fresh round starts with: a one-second
/// repeating spawn timer and the fifteen-second rate-increase timer.
pub fn setup_game_state() -> (gs: GameState)
    ensures
        gs == GameState::spec_initial(),
        gs.wf(),
{
    GameState {
        asteroid_rate_increase_timer: Timer::new(RATE_INCREASE_PERIOD_MS, TimerMode::Repeating),
        asteroid_spawn_timer: Timer::new(SPAWN_PERIOD_MS, TimerMode::Repeating),
        paused: false,
    }
}

} // verus!
