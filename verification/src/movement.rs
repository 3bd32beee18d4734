//! The motion integrator: per-tick position (and, for asteroids,
//! rotation) updates, and the single out-of-bounds despawn rule shared
//! by projectiles and asteroids.

use vstd::prelude::*;

use crate::components::{AsteroidSlot, DestroyCause, EntityState, LaserSlot};
use crate::constants::OOB_MARGIN;
use crate::geom::{
    normalize_coords_in_window, pos_any, spec_scaled_vec, spec_to_window, spec_wrap_angle,
    scaled_vec, wrap_angle, Vec2, Window,
};
use crate::round::Round;

verus! {

/// The sole removal rule for drifting entities: the position, taken to
/// window space, lies more than the margin outside some edge of the
/// play field.
pub open spec fn spec_out_of_bounds(w: Window, p: Vec2) -> bool {
    let win = spec_to_window(w, p);
    ||| win.x > w.width + OOB_MARGIN
    ||| win.y > w.height + OOB_MARGIN
    ||| win.x < -OOB_MARGIN
    ||| win.y < -OOB_MARGIN
}

/// Tests the out-of-bounds rule for a world-space position.
pub fn out_of_bounds(window: &Window, p: Vec2) -> (r: bool)
    requires
        window.wf(),
        pos_any(p),
    ensures
        r == spec_out_of_bounds(*window, p),
{
    let win = normalize_coords_in_window(window, p);
    win.x > window.width + OOB_MARGIN || win.y > window.height + OOB_MARGIN || win.x
        < -OOB_MARGIN || win.y < -OOB_MARGIN
}

/// One movement step of a projectile record: a live projectile advances
/// by its velocity and is destroyed as out-of-bounds if the new position
/// breaks the despawn rule; a destroyed record is left untouched.
pub open spec fn spec_move_laser(s: LaserSlot, w: Window) -> LaserSlot {
    if s.state is Alive {
        let np = Vec2 {
            x: (s.pos.x + s.laser.velocity.x) as i64,
            y: (s.pos.y + s.laser.velocity.y) as i64,
        };
        let moved = LaserSlot { pos: np, ..s };
        if spec_out_of_bounds(w, np) {
            moved.destroyed(DestroyCause::OutOfBounds)
        } else {
            moved
        }
    } else {
        s
    }
}

/// One movement step of an asteroid record: a live asteroid advances by
/// its trajectory scaled by its speed, rotates by its per-tick delta,
/// and is destroyed as out-of-bounds if the new position breaks the
/// despawn rule; a destroyed record is left untouched.
pub open spec fn spec_move_asteroid(s: AsteroidSlot, w: Window) -> AsteroidSlot {
    if s.state is Alive {
        let step = spec_scaled_vec(s.body.trajectory, s.body.speed as int);
        let np = Vec2 { x: (s.pos.x + step.x) as i64, y: (s.pos.y + step.y) as i64 };
        let nr = spec_wrap_angle(s.rot + s.body.rotation) as i64;
        let moved = AsteroidSlot { pos: np, rot: nr, ..s };
        if spec_out_of_bounds(w, np) {
            moved.destroyed(DestroyCause::OutOfBounds)
        } else {
            moved
        }
    } else {
        s
    }
}

/// A record is destroyed at most once, and by the movement step only
/// for leaving the bounds: the step leaves any destroyed record — and
/// its cause — exactly as it was, and when it destroys a live record
/// the cause is out-of-bounds, never collision.
pub proof fn lemma_movement_destroys_once(s: AsteroidSlot, l: LaserSlot, w: Window)
    ensures
        s.state is Destroyed ==> spec_move_asteroid(s, w) == s,
        spec_move_asteroid(s, w).state is Destroyed ==> s.state is Destroyed
            || spec_move_asteroid(s, w).state == EntityState::Destroyed(
            DestroyCause::OutOfBounds,
        ),
        l.state is Destroyed ==> spec_move_laser(l, w) == l,
        spec_move_laser(l, w).state is Destroyed ==> l.state is Destroyed || spec_move_laser(
            l,
            w,
        ).state == EntityState::Destroyed(DestroyCause::OutOfBounds),
{
}

/// Advances every live projectile and despawns the ones that left the
/// play field. Destroyed records are never touched again: a record
/// destroyed before this tick keeps its state and cause.
pub fn laser_movement(round: &mut Round, window: &Window)
    requires
        old(round).wf(),
        window.wf(),
    ensures
        final(round).wf(),
        final(round).lasers@.len() == old(round).lasers@.len(),
        forall|i: int|
            0 <= i < old(round).lasers@.len() ==> final(round).lasers@[i] == spec_move_laser(
                old(round).lasers@[i],
                *window,
            ),
        forall|i: int|
            0 <= i < old(round).lasers@.len() && old(round).lasers@[i].state is Destroyed
                ==> final(round).lasers@[i] == old(round).lasers@[i],
        final(round).player == old(round).player,
        final(round).asteroids == old(round).asteroids,
        final(round).life_icons == old(round).life_icons,
        final(round).scoreboard == old(round).scoreboard,
        final(round).game_state == old(round).game_state,
        final(round).fire_events == old(round).fire_events,
        final(round).hit_events == old(round).hit_events,
        final(round).game_over_events == old(round).game_over_events,
{
    let n = round.lasers.len();
    let mut i: usize = 0;
    while i < n
        invariant
            0 <= i <= n,
            n == round.lasers@.len(),
            round.lasers@.len() == old(round).lasers@.len(),
            old(round).wf(),
            window.wf(),
            forall|j: int|
                0 <= j < i ==> round.lasers@[j] == spec_move_laser(
                    old(round).lasers@[j],
                    *window,
                ),
            forall|j: int|
                0 <= j < i ==> (#[trigger] round.lasers@[j]).wf(),
            forall|j: int| i <= j < n ==> round.lasers@[j] == old(round).lasers@[j],
            round.player == old(round).player,
            round.asteroids == old(round).asteroids,
            round.life_icons == old(round).life_icons,
            round.scoreboard == old(round).scoreboard,
            round.game_state == old(round).game_state,
            round.fire_events == old(round).fire_events,
            round.hit_events == old(round).hit_events,
            round.game_over_events == old(round).game_over_events,
        decreases n - i,
    {
        let s = round.lasers[i];
        match s.state {
            EntityState::Alive => {
                let np = Vec2 {
                    x: s.pos.x + s.laser.velocity.x,
                    y: s.pos.y + s.laser.velocity.y,
                };
                let dead = out_of_bounds(window, np);
                let ns = LaserSlot {
                    pos: np,
                    state: if dead {
                        EntityState::Destroyed(DestroyCause::OutOfBounds)
                    } else {
                        EntityState::Alive
                    },
                    ..s
                };
                round.lasers.set(i, ns);
            },
            EntityState::Destroyed(_) => {},
        }
        i = i + 1;
    }
    proof {
        assert forall|j: int| 0 <= j < round.lasers@.len() implies (
        #[trigger] round.lasers@[j]).wf() by {}
    }
}

/// Advances every live asteroid, applies its rotation delta, and
/// despawns the ones that left the play field. Destroyed records are
/// never touched again: a record destroyed before this tick keeps its
/// state and cause.
pub fn asteroid_movement(round: &mut Round, window: &Window)
    requires
        old(round).wf(),
        window.wf(),
    ensures
        final(round).wf(),
        final(round).asteroids@.len() == old(round).asteroids@.len(),
        forall|i: int|
            0 <= i < old(round).asteroids@.len() ==> final(round).asteroids@[i]
                == spec_move_asteroid(old(round).asteroids@[i], *window),
        forall|i: int|
            0 <= i < old(round).asteroids@.len() && old(round).asteroids@[i].state is Destroyed
                ==> final(round).asteroids@[i] == old(round).asteroids@[i],
        final(round).player == old(round).player,
        final(round).lasers == old(round).lasers,
        final(round).life_icons == old(round).life_icons,
        final(round).scoreboard == old(round).scoreboard,
        final(round).game_state == old(round).game_state,
        final(round).fire_events == old(round).fire_events,
        final(round).hit_events == old(round).hit_events,
        final(round).game_over_events == old(round).game_over_events,
{
    let n = round.asteroids.len();
    let mut i: usize = 0;
    while i < n
        invariant
            0 <= i <= n,
            n == round.asteroids@.len(),
            round.asteroids@.len() == old(round).asteroids@.len(),
            old(round).wf(),
            window.wf(),
            forall|j: int|
                0 <= j < i ==> round.asteroids@[j] == spec_move_asteroid(
                    old(round).asteroids@[j],
                    *window,
                ),
            forall|j: int|
                0 <= j < i ==> (#[trigger] round.asteroids@[j]).wf(),
            forall|j: int| i <= j < n ==> round.asteroids@[j] == old(round).asteroids@[j],
            round.player == old(round).player,
            round.lasers == old(round).lasers,
            round.life_icons == old(round).life_icons,
            round.scoreboard == old(round).scoreboard,
            round.game_state == old(round).game_state,
            round.fire_events == old(round).fire_events,
            round.hit_events == old(round).hit_events,
            round.game_over_events == old(round).game_over_events,
        decreases n - i,
    {
        let s = round.asteroids[i];
        match s.state {
            EntityState::Alive => {
                let step = scaled_vec(s.body.trajectory, s.body.speed);
                let np = Vec2 { x: s.pos.x + step.x, y: s.pos.y + step.y };
                let nr = wrap_angle(s.rot, s.body.rotation);
                let dead = out_of_bounds(window, np);
                let ns = AsteroidSlot {
                    pos: np,
                    rot: nr,
                    state: if dead {
                        EntityState::Destroyed(DestroyCause::OutOfBounds)
                    } else {
                        EntityState::Alive
                    },
                    ..s
                };
                round.asteroids.set(i, ns);
            },
            EntityState::Destroyed(_) => {},
        }
        i = i + 1;
    }
    proof {
        assert forall|j: int| 0 <= j < round.asteroids@.len() implies (
        #[trigger] round.asteroids@[j]).wf() by {}
    }
}

} // verus!
