//! Edge-triggered input handling inside a round: aiming the ship at the
//! cursor, queueing fire requests, and the pause toggle.

use vstd::prelude::*;

use crate::components::Player;
use crate::geom::{norm_dir, normalize_coords_in_window, spec_norm_dir, spec_to_window, Vec2,
    Window};
use crate::round::Round;

verus! {

/// The facing one aiming step leaves the ship with: the unit direction
/// from the cursor toward the player's window-space position. With the
/// cursor absent, or exactly on the player, the facing is left as it
/// was.
pub open spec fn spec_aimed_facing(p: Player, w: Window, cursor: Option<Vec2>) -> Vec2 {
    let pwin = spec_to_window(w, p.pos);
    match cursor {
        Some(c) => if c != pwin {
            spec_norm_dir(Vec2 { x: (pwin.x - c.x) as i64, y: (pwin.y - c.y) as i64 })
        } else {
            p.facing
        },
        None => p.facing,
    }
}

/// Points the ship at the cursor: the facing becomes the unit direction
/// from the cursor toward the player's window-space position. With the
/// cursor absent, or exactly on the player, the facing is left as it
/// was. The renderer adds the sprite's fixed quarter-turn offset when it
/// turns this direction into an angle.
pub fn aiming_handler(round: &mut Round, window: &Window, cursor: Option<Vec2>)
    requires
        old(round).wf(),
        window.wf(),
        cursor matches Some(c) ==> 0 <= c.x <= window.width && 0 <= c.y <= window.height,
    ensures
        final(round).wf(),
        final(round).player == (Player {
            facing: spec_aimed_facing(old(round).player, *window, cursor),
            ..old(round).player
        }),
        final(round).asteroids == old(round).asteroids,
        final(round).lasers == old(round).lasers,
        final(round).life_icons == old(round).life_icons,
        final(round).scoreboard == old(round).scoreboard,
        final(round).game_state == old(round).game_state,
        final(round).fire_events == old(round).fire_events,
        final(round).hit_events == old(round).hit_events,
        final(round).game_over_events == old(round).game_over_events,
{
    match cursor {
        Some(c) => {
            let pwin = normalize_coords_in_window(window, round.player.pos);
            if c.x != pwin.x || c.y != pwin.y {
                let dir = norm_dir(Vec2 { x: pwin.x - c.x, y: pwin.y - c.y });
                round.player.facing = dir;
            }
        },
        None => {},
    }
}

/// Queues one fire request when the fire button was pressed this tick.
pub fn shooting_handler(round: &mut Round, fire_pressed: bool)
    requires
        old(round).wf(),
        old(round).fire_events < u32::MAX,
    ensures
        final(round).wf(),
        final(round).fire_events == old(round).fire_events + (if fire_pressed {
            1int
        } else {
            0int
        }),
        final(round).player == old(round).player,
        final(round).asteroids == old(round).asteroids,
        final(round).lasers == old(round).lasers,
        final(round).life_icons == old(round).life_icons,
        final(round).scoreboard == old(round).scoreboard,
        final(round).game_state == old(round).game_state,
        final(round).hit_events == old(round).hit_events,
        final(round).game_over_events == old(round).game_over_events,
{
    if fire_pressed {
        round.fire_events = round.fire_events + 1;
    }
}

/// Flips the pause flag on an edge-triggered pause press. The toggle
/// itself stays active while paused; everything else in the round is
/// untouched.
pub fn pause_handler(round: &mut Round, pause_pressed: bool)
    requires
        old(round).wf(),
    ensures
        final(round).wf(),
        final(round).game_state.paused == (if pause_pressed {
            !old(round).game_state.paused
        } else {
            old(round).game_state.paused
        }),
        final(round).game_state.asteroid_spawn_timer == old(
            round,
        ).game_state.asteroid_spawn_timer,
        final(round).game_state.asteroid_rate_increase_timer == old(
            round,
        ).game_state.asteroid_rate_increase_timer,
        final(round).player == old(round).player,
        final(round).asteroids == old(round).asteroids,
        final(round).lasers == old(round).lasers,
        final(round).life_icons == old(round).life_icons,
        final(round).scoreboard == old(round).scoreboard,
        final(round).fire_events == old(round).fire_events,
        final(round).hit_events == old(round).hit_events,
        final(round).game_over_events == old(round).game_over_events,
{
    if pause_pressed {
        round.game_state.paused = !round.game_state.paused;
    }
}

} // verus!
