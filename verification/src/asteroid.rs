//! The asteroid spawn scheduler: the accelerating spawn cadence, and
//! edge placement and trajectory computation for new asteroids.

use vstd::prelude::*;

use crate::components::{Asteroid, AsteroidSlot, EntityState, GameState};
use crate::constants::{
    ASTEROID_SIZE_LARGE, ASTEROID_SIZE_SMALL, MAX_PERIOD_MS, ROT_DELTA_MAX, SPAWN_MARGIN,
    SPAWN_RANGE_HI, SPAWN_RANGE_LO, SPEED_MAX, SPEED_MIN,
};
use crate::geom::{norm_dir, normalize_coords_in_window, spec_norm_dir, spec_to_window, Vec2,
    Window};
use crate::rng::gen_in_range;
use crate::round::Round;
use crate::timer::{Timer, TimerMode};

verus! {

/// The spawn period after a rate-increase firing: four fifths of the
/// old period (the 0.8 ratio), rounded down, with a one-millisecond
/// floor so the timer stays well-formed.
pub open spec fn next_spawn_period(p: u64) -> u64 {
    if p * 4 / 5 >= 1 {
        (p * 4 / 5) as u64
    } else {
        1u64
    }
}

/// The period never grows, and shrinks strictly until it reaches the
/// one-millisecond floor.
pub proof fn lemma_spawn_period_monotone(p: u64)
    requires
        1 <= p,
    ensures
        next_spawn_period(p) <= p,
        p >= 2 ==> next_spawn_period(p) < p,
{
    assert(p * 4 / 5 <= p && (p >= 2 ==> (1 <= p * 4 / 5 < p))) by (nonlinear_arith)
        requires
            1 <= p,
    ;
}

/// Where the old period is a whole number of five milliseconds, the new
/// period is its four fifths exactly: five times the new period equals
/// four times the old.
pub proof fn lemma_rate_increase_exact(p: u64)
    requires
        5 <= p,
        p % 5 == 0,
    ensures
        5 * next_spawn_period(p) == 4 * p,
        next_spawn_period(p) < p,
{
    lemma_spawn_period_monotone(p);
    assert(p * 4 % 5 == 0 && 5 * (p * 4 / 5) == p * 4 && p * 4 / 5 >= 1) by (nonlinear_arith)
        requires
            5 <= p,
            p % 5 == 0,
    ;
}

/// The scheduler state after one frame delta: both timers advance, and
/// a rate-increase firing replaces the spawn timer by a fresh repeating
/// timer over the shortened period, its progress reset.
pub open spec fn spec_scheduler_after(gs: GameState, delta: u64) -> GameState {
    let ticked = gs.asteroid_spawn_timer.spec_tick(delta);
    GameState {
        asteroid_rate_increase_timer: gs.asteroid_rate_increase_timer.spec_tick(delta),
        asteroid_spawn_timer: if gs.asteroid_rate_increase_timer.spec_fires(delta) {
            Timer {
                period_ms: next_spawn_period(ticked.period_ms),
                elapsed_ms: 0,
                mode: TimerMode::Repeating,
                fired: false,
            }
        } else {
            ticked
        },
        paused: gs.paused,
    }
}

/// Whether the tick's scheduler update ends with the spawn timer just
/// fired: the condition for spawning one asteroid this tick. A tick on
/// which the rate increase fires resets the spawn timer's progress, so
/// it does not also spawn.
pub open spec fn spec_spawn_fires(gs: GameState, delta: u64) -> bool {
    spec_scheduler_after(gs, delta).asteroid_spawn_timer.fired
}

/// Advances both scheduler timers by the frame delta; when the
/// rate-increase timer fires, the spawn timer is replaced by a fresh
/// repeating timer over the shortened period, its progress reset.
pub fn update_asteroid_spawn_timer(game_state: &mut GameState, delta: u32)
    requires
        old(game_state).wf(),
    ensures
        final(game_state).wf(),
        *final(game_state) == spec_scheduler_after(*old(game_state), delta as u64),
{
    game_state.asteroid_spawn_timer.tick(delta);
    game_state.asteroid_rate_increase_timer.tick(delta);
    if game_state.asteroid_rate_increase_timer.just_finished() {
        let p = game_state.asteroid_spawn_timer.period_ms;
        let scaled_p = p * 4 / 5;
        let np = if scaled_p == 0 {
            1
        } else {
            scaled_p
        };
        proof {
            lemma_spawn_period_monotone(p);
            assert(np <= p <= MAX_PERIOD_MS);
        }
        game_state.asteroid_spawn_timer = Timer::new(np, TimerMode::Repeating);
    }
}

/// Whether the spawn timer fired on the tick just taken: the run
/// condition for spawning one asteroid.
pub fn asteroid_spawn_timer(game_state: &GameState) -> (r: bool)
    ensures
        r == game_state.asteroid_spawn_timer.fired,
{
    game_state.asteroid_spawn_timer.just_finished()
}

/// The hit-box side for a size class: classes 1 and 3 are large, 2 and
/// 4 small.
pub open spec fn spec_asteroid_size(kind: i64) -> i64 {
    if kind == 1 || kind == 3 {
        ASTEROID_SIZE_LARGE
    } else {
        ASTEROID_SIZE_SMALL
    }
}

/// The ranges one spawn draws from: an edge index; the edge-fixed
/// window coordinate 25 units outside that edge, the free coordinate
/// from the oversized range; a target point inside the window; a
/// speed, a size class and a rotation delta.
pub open spec fn spec_spawn_draws_ok(
    w: Window,
    side: i64,
    spawn_x: i64,
    spawn_y: i64,
    target_x: i64,
    target_y: i64,
    speed: i64,
    kind: i64,
    rot_delta: i64,
) -> bool {
    &&& 0 <= side < 4
    &&& (side == 1 ==> spawn_x == -SPAWN_MARGIN)
    &&& (side == 3 ==> spawn_x == w.width + SPAWN_MARGIN)
    &&& ((side == 0 || side == 2) ==> SPAWN_RANGE_LO <= spawn_x < SPAWN_RANGE_HI)
    &&& (side == 0 ==> spawn_y == -SPAWN_MARGIN)
    &&& (side == 2 ==> spawn_y == w.height + SPAWN_MARGIN)
    &&& ((side == 1 || side == 3) ==> SPAWN_RANGE_LO <= spawn_y < SPAWN_RANGE_HI)
    &&& 0 <= target_x < w.width
    &&& 0 <= target_y < w.height
    &&& SPEED_MIN <= speed < SPEED_MAX
    &&& 1 <= kind < 5
    &&& -ROT_DELTA_MAX <= rot_delta < ROT_DELTA_MAX
}

/// The record those draws determine: spawn point taken to world space,
/// trajectory the normalization of spawn minus target (in window
/// coordinates), the size class's square hit-box, no rotation yet.
pub open spec fn spec_make_asteroid(
    w: Window,
    spawn_x: i64,
    spawn_y: i64,
    target_x: i64,
    target_y: i64,
    speed: i64,
    kind: i64,
    rot_delta: i64,
) -> AsteroidSlot {
    AsteroidSlot {
        pos: spec_to_window(w, Vec2 { x: spawn_x, y: spawn_y }),
        rot: 0,
        body: Asteroid {
            trajectory: spec_norm_dir(
                Vec2 { x: (spawn_x - target_x) as i64, y: (spawn_y - target_y) as i64 },
            ),
            speed,
            rotation: rot_delta,
            width: spec_asteroid_size(kind),
            height: spec_asteroid_size(kind),
        },
        state: EntityState::Alive,
    }
}

/// Whether a record is one that some legal spawn draw produces: it
/// lies 25 units outside one of the four edges, aimed at some point
/// inside the window, with drawn speed, size class and rotation delta.
pub open spec fn spec_is_spawned_record(w: Window, s: AsteroidSlot) -> bool {
    exists|side: i64, sx: i64, sy: i64, tx: i64, ty: i64, speed: i64, kind: i64, rd: i64|
        #[trigger] spec_spawn_draws_ok(w, side, sx, sy, tx, ty, speed, kind, rd) && s
            == spec_make_asteroid(w, sx, sy, tx, ty, speed, kind, rd)
}

/// Builds the asteroid record determined by the drawn spawn choices:
/// spawn point on the chosen edge (in window space), trajectory the
/// normalized direction from the target point back to the spawn point,
/// and the size class's hit-box.
pub fn make_asteroid(
    window: &Window,
    side: i64,
    spawn_x: i64,
    spawn_y: i64,
    target_x: i64,
    target_y: i64,
    speed: i64,
    kind: i64,
    rot_delta: i64,
) -> (slot: AsteroidSlot)
    requires
        window.wf(),
        spec_spawn_draws_ok(
            *window,
            side,
            spawn_x,
            spawn_y,
            target_x,
            target_y,
            speed,
            kind,
            rot_delta,
        ),
    ensures
        slot == spec_make_asteroid(
            *window,
            spawn_x,
            spawn_y,
            target_x,
            target_y,
            speed,
            kind,
            rot_delta,
        ),
        slot.state is Alive,
        slot.wf(),
{
    let spawn = Vec2 { x: spawn_x, y: spawn_y };
    let pos = normalize_coords_in_window(window, spawn);
    let diff = Vec2 { x: spawn_x - target_x, y: spawn_y - target_y };
    proof {
        if side == 0 {
            assert(diff.y < 0);
        } else if side == 1 {
            assert(diff.x < 0);
        } else if side == 2 {
            assert(diff.y > 0);
        } else {
            assert(diff.x > 0);
        }
    }
    let trajectory = norm_dir(diff);
    let size = if kind == 1 || kind == 3 {
        ASTEROID_SIZE_LARGE
    } else {
        ASTEROID_SIZE_SMALL
    };
    AsteroidSlot {
        pos,
        rot: 0,
        body: Asteroid { trajectory, speed, rotation: rot_delta, width: size, height: size },
        state: EntityState::Alive,
    }
}

/// Spawns one asteroid into the round: draws the spawn edge, the free
/// spawn coordinate, a target point inside the window, a speed, a size
/// class and a rotation delta, and appends the asteroid they determine.
/// Whatever the generator returns, exactly one record is appended, it
/// is the record of some legal draw — on an edge, aimed at a point
/// inside the window — and nothing else changes.
pub fn spawn_asteroid(round: &mut Round, window: &Window)
    requires
        old(round).wf(),
        window.wf(),
        old(round).asteroids@.len() < usize::MAX,
    ensures
        final(round).wf(),
        final(round).asteroids@.len() == old(round).asteroids@.len() + 1,
        final(round).asteroids@.subrange(0, old(round).asteroids@.len() as int) == old(
            round,
        ).asteroids@,
        spec_is_spawned_record(*window, final(round).asteroids@.last()),
        final(round).asteroids@.last().state is Alive,
        final(round).asteroids@.last().wf(),
        final(round).asteroids@.last().rot == 0,
        final(round).player == old(round).player,
        final(round).lasers == old(round).lasers,
        final(round).life_icons == old(round).life_icons,
        final(round).scoreboard == old(round).scoreboard,
        final(round).game_state == old(round).game_state,
        final(round).fire_events == old(round).fire_events,
        final(round).hit_events == old(round).hit_events,
        final(round).game_over_events == old(round).game_over_events,
{
    let mut rng = rand::thread_rng();
    let side = gen_in_range(&mut rng, 0, 4);
    let spawn_x = if side == 1 {
        -SPAWN_MARGIN
    } else if side == 3 {
        window.width + SPAWN_MARGIN
    } else {
        gen_in_range(&mut rng, SPAWN_RANGE_LO, SPAWN_RANGE_HI)
    };
    let spawn_y = if side == 0 {
        -SPAWN_MARGIN
    } else if side == 2 {
        window.height + SPAWN_MARGIN
    } else {
        gen_in_range(&mut rng, SPAWN_RANGE_LO, SPAWN_RANGE_HI)
    };
    let target_x = gen_in_range(&mut rng, 0, window.width);
    let target_y = gen_in_range(&mut rng, 0, window.height);
    let speed = gen_in_range(&mut rng, SPEED_MIN, SPEED_MAX);
    let kind = gen_in_range(&mut rng, 1, 5);
    let rot_delta = gen_in_range(&mut rng, -ROT_DELTA_MAX, ROT_DELTA_MAX);
    let slot = make_asteroid(
        window,
        side,
        spawn_x,
        spawn_y,
        target_x,
        target_y,
        speed,
        kind,
        rot_delta,
    );
    round.asteroids.push(slot);
    proof {
        assert(spec_spawn_draws_ok(
            *window,
            side,
            spawn_x,
            spawn_y,
            target_x,
            target_y,
            speed,
            kind,
            rot_delta,
        ));
        assert(spec_is_spawned_record(*window, round.asteroids@.last()));
        assert(round.asteroids@.subrange(0, old(round).asteroids@.len() as int) =~= old(
            round,
        ).asteroids@);
        assert forall|i: int| 0 <= i < round.asteroids@.len() implies (
        #[trigger] round.asteroids@[i]).wf() by {
            if i < old(round).asteroids@.len() {
                assert(round.asteroids@[i] == old(round).asteroids@[i]);
            }
        }
    }
}

} // verus!
