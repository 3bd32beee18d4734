//! The player survivability subsystem and shooting: life deduction and
//! the game-over notification, life-icon sync, the invincibility window
//! with its respawn timer, and projectile creation from queued fire
//! requests.

use vstd::prelude::*;

use crate::components::{EntityState, Laser, LaserSlot, LifeSlot, Player};
use crate::constants::{LASER_SPEED, RESPAWN_DURATION_MS};
use crate::geom::{
    norm_dir, normalize_coords_in_window, scaled_vec, spec_norm_dir, spec_scaled_vec,
    spec_to_window, Vec2, Window,
};
use crate::round::Round;
use crate::timer::{Timer, TimerMode};

verus! {

/// One life icon after a sync against the lives left: a live icon whose
/// slot number exceeds the lives left is destroyed, every other icon is
/// untouched.
pub open spec fn spec_sync_icon(s: LifeSlot, lives: u8) -> LifeSlot {
    if s.alive && s.life.counter > lives {
        LifeSlot { alive: false, ..s }
    } else {
        s
    }
}

/// The whole icon row after a sync against the lives left.
pub open spec fn spec_sync_icons(icons: Seq<LifeSlot>, lives: u8) -> Seq<LifeSlot> {
    Seq::new(icons.len(), |i: int| spec_sync_icon(icons[i], lives))
}

/// The life-icon sync is idempotent: with no intervening lives change, a
/// second sync destroys no additional icons.
pub proof fn lemma_sync_icons_idempotent(icons: Seq<LifeSlot>, lives: u8)
    ensures
        spec_sync_icons(spec_sync_icons(icons, lives), lives) == spec_sync_icons(icons, lives),
{
    assert(spec_sync_icons(spec_sync_icons(icons, lives), lives) =~= spec_sync_icons(
        icons,
        lives,
    ));
}

/// Destroys every live icon whose slot number exceeds the lives left.
/// Already-destroyed icons are never revisited.
pub fn sync_life_icons(icons: &mut Vec<LifeSlot>, lives: u8)
    ensures
        final(icons)@ == spec_sync_icons(old(icons)@, lives),
{
    let n = icons.len();
    let mut i: usize = 0;
    while i < n
        invariant
            0 <= i <= n,
            n == icons@.len(),
            icons@.len() == old(icons)@.len(),
            forall|j: int| 0 <= j < i ==> icons@[j] == spec_sync_icon(old(icons)@[j], lives),
            forall|j: int| i <= j < n ==> icons@[j] == old(icons)@[j],
        decreases n - i,
    {
        let s = icons[i];
        if s.alive && s.life.counter > lives {
            icons.set(i, LifeSlot { alive: false, ..s });
        }
        i = i + 1;
    }
    proof {
        assert(icons@ =~= spec_sync_icons(old(icons)@, lives));
    }
}

/// The player after one tick's survivability steps, given the batch of
/// hit notifications the collision pass raised: outside the
/// invincibility window a non-empty batch costs one life (never below
/// zero) and, if lives remain, opens the window with a fresh respawn
/// timer; then the respawn timer accumulates the frame delta, closing
/// the window when the fixed duration is reached.
pub open spec fn spec_player_after_hits(p: Player, hits: nat, delta: u64) -> Player {
    let damaged = hits > 0 && !p.invincible && p.lives > 0;
    let deducted = Player {
        lives: if damaged {
            (p.lives - 1) as u8
        } else {
            p.lives
        },
        ..p
    };
    let shielded = if hits > 0 && !deducted.invincible && deducted.lives > 0 {
        Player {
            invincible: true,
            respawn_timer: Player::spec_fresh_respawn_timer(),
            ..deducted
        }
    } else {
        deducted
    };
    if shielded.invincible {
        let t = shielded.respawn_timer.spec_tick(delta);
        if t.fired {
            Player {
                invincible: false,
                respawn_timer: Player::spec_fresh_respawn_timer(),
                ..shielded
            }
        } else {
            Player { respawn_timer: t, ..shielded }
        }
    } else {
        shielded
    }
}

/// Consumes the tick's player-hit notifications: outside the
/// invincibility window one batch of hits costs one life (never going
/// below zero), reaching zero lives raises the game-over notification
/// exactly once, and the icon row is synced against the lives left.
/// While invincible the hits are consumed with no life loss.
pub fn update_life_counter(round: &mut Round)
    requires
        old(round).wf(),
        old(round).game_over_events < usize::MAX,
    ensures
        final(round).wf(),
        ({
            let p = old(round).player;
            let damaged = old(round).hit_events > 0 && !p.invincible && p.lives > 0;
            &&& final(round).player == (Player {
                lives: if damaged {
                    (p.lives - 1) as u8
                } else {
                    p.lives
                },
                ..p
            })
            &&& final(round).game_over_events == old(round).game_over_events + (
            if damaged && p.lives == 1 {
                1int
            } else {
                0int
            })
            &&& final(round).life_icons@ == (if old(round).hit_events > 0 {
                spec_sync_icons(old(round).life_icons@, final(round).player.lives)
            } else {
                old(round).life_icons@
            })
        }),
        final(round).asteroids == old(round).asteroids,
        final(round).lasers == old(round).lasers,
        final(round).scoreboard == old(round).scoreboard,
        final(round).game_state == old(round).game_state,
        final(round).fire_events == old(round).fire_events,
        final(round).hit_events == old(round).hit_events,
{
    if round.hit_events > 0 {
        if !round.player.invincible && round.player.lives > 0 {
            round.player.lives = round.player.lives - 1;
            if round.player.lives == 0 {
                round.game_over_events = round.game_over_events + 1;
            }
        }
        let lives = round.player.lives;
        sync_life_icons(&mut round.life_icons, lives);
    }
    proof {
        assert forall|i: int| 0 <= i < round.life_icons@.len() implies (
        #[trigger] round.life_icons@[i]).wf() by {
            assert(old(round).life_icons@[i].wf());
        }
    }
}

/// On a damaging batch of hits, opens the invincibility window: the
/// player turns invincible and the respawn timer begins fresh. Hits
/// consumed while already invincible, or with no lives left, change
/// nothing.
pub fn player_invincibility_listener(round: &mut Round)
    requires
        old(round).wf(),
    ensures
        final(round).wf(),
        ({
            let p = old(round).player;
            if old(round).hit_events > 0 && !p.invincible && p.lives > 0 {
                final(round).player == (Player {
                    invincible: true,
                    respawn_timer: Player::spec_fresh_respawn_timer(),
                    ..p
                })
            } else {
                final(round).player == p
            }
        }),
        final(round).asteroids == old(round).asteroids,
        final(round).lasers == old(round).lasers,
        final(round).life_icons == old(round).life_icons,
        final(round).scoreboard == old(round).scoreboard,
        final(round).game_state == old(round).game_state,
        final(round).fire_events == old(round).fire_events,
        final(round).hit_events == old(round).hit_events,
        final(round).game_over_events == old(round).game_over_events,
{
    if round.hit_events > 0 && !round.player.invincible && round.player.lives > 0 {
        round.player.invincible = true;
        round.player.respawn_timer = Timer::new(RESPAWN_DURATION_MS, TimerMode::Once);
    }
}

/// While invincible, accumulates frame time on the respawn timer; on
/// reaching the fixed duration the invincibility ends and the timer is
/// reset to a fresh one-shot for future use.
pub fn player_respawn_timer(round: &mut Round, delta: u32)
    requires
        old(round).wf(),
    ensures
        final(round).wf(),
        ({
            let p = old(round).player;
            if p.invincible {
                let t = p.respawn_timer.spec_tick(delta as u64);
                if t.fired {
                    final(round).player == (Player {
                        invincible: false,
                        respawn_timer: Player::spec_fresh_respawn_timer(),
                        ..p
                    })
                } else {
                    final(round).player == (Player { respawn_timer: t, ..p })
                }
            } else {
                final(round).player == p
            }
        }),
        final(round).asteroids == old(round).asteroids,
        final(round).lasers == old(round).lasers,
        final(round).life_icons == old(round).life_icons,
        final(round).scoreboard == old(round).scoreboard,
        final(round).game_state == old(round).game_state,
        final(round).fire_events == old(round).fire_events,
        final(round).hit_events == old(round).hit_events,
        final(round).game_over_events == old(round).game_over_events,
{
    if round.player.invincible {
        round.player.respawn_timer.tick(delta);
        if round.player.respawn_timer.just_finished() {
            round.player.invincible = false;
            round.player.respawn_timer = Timer::new(RESPAWN_DURATION_MS, TimerMode::Once);
        }
    }
}

/// Whether the player is inside the invincibility window.
pub fn player_is_respawning(round: &Round) -> (r: bool)
    ensures
        r == round.player.invincible,
{
    round.player.invincible
}

/// The projectile a fire request creates: it starts at the player's
/// position with velocity the unit direction from the player (in window
/// space) toward the cursor, times the fixed laser speed.
pub open spec fn spec_new_laser(p: Player, w: Window, cursor: Vec2) -> LaserSlot {
    let pwin = spec_to_window(w, p.pos);
    let aim = Vec2 { x: (cursor.x - pwin.x) as i64, y: (cursor.y - pwin.y) as i64 };
    LaserSlot {
        pos: p.pos,
        laser: Laser { velocity: spec_scaled_vec(spec_norm_dir(aim), LASER_SPEED as int) },
        state: EntityState::Alive,
    }
}

/// The projectiles one shooting step appends: one per queued fire
/// request if the cursor is inside the window and away from the
/// player's own window position, none otherwise.
pub open spec fn spec_shot_lasers(
    p: Player,
    w: Window,
    cursor: Option<Vec2>,
    pending: u32,
) -> Seq<LaserSlot> {
    match cursor {
        Some(c) => if c != spec_to_window(w, p.pos) {
            Seq::new(pending as nat, |k: int| spec_new_laser(p, w, c))
        } else {
            Seq::empty()
        },
        None => Seq::empty(),
    }
}

/// Drains the queued fire requests: one projectile is created per
/// request, aimed from the player at the cursor, provided the cursor is
/// inside the window. With the cursor absent (outside the window) or
/// exactly on the player, the requests are consumed with no projectile.
pub fn shoot(round: &mut Round, window: &Window, cursor: Option<Vec2>)
    requires
        old(round).wf(),
        window.wf(),
        cursor matches Some(c) ==> 0 <= c.x <= window.width && 0 <= c.y <= window.height,
        old(round).lasers@.len() + old(round).fire_events <= usize::MAX,
    ensures
        final(round).wf(),
        final(round).fire_events == 0,
        final(round).lasers@ == old(round).lasers@ + spec_shot_lasers(
            old(round).player,
            *window,
            cursor,
            old(round).fire_events,
        ),
        final(round).player == old(round).player,
        final(round).asteroids == old(round).asteroids,
        final(round).life_icons == old(round).life_icons,
        final(round).scoreboard == old(round).scoreboard,
        final(round).game_state == old(round).game_state,
        final(round).hit_events == old(round).hit_events,
        final(round).game_over_events == old(round).game_over_events,
{
    let pending = round.fire_events;
    round.fire_events = 0;
    let mut shot = false;
    if pending > 0 {
        match cursor {
            Some(c) => {
                let pwin = normalize_coords_in_window(window, round.player.pos);
                if c.x != pwin.x || c.y != pwin.y {
                    let aim = Vec2 { x: c.x - pwin.x, y: c.y - pwin.y };
                    let dir = norm_dir(aim);
                    let vel = scaled_vec(dir, LASER_SPEED);
                    let slot = LaserSlot {
                        pos: round.player.pos,
                        laser: Laser { velocity: vel },
                        state: EntityState::Alive,
                    };
                    proof {
                        assert(slot == spec_new_laser(old(round).player, *window, c));
                        assert(slot.wf());
                    }
                    let mut k: u32 = 0;
                    while k < pending
                        invariant
                            0 <= k <= pending,
                            old(round).lasers@.len() + pending <= usize::MAX,
                            round.lasers@.len() == old(round).lasers@.len() + k,
                            forall|j: int|
                                0 <= j < old(round).lasers@.len() ==> round.lasers@[j] == old(
                                    round,
                                ).lasers@[j],
                            forall|j: int|
                                old(round).lasers@.len() <= j < round.lasers@.len()
                                    ==> round.lasers@[j] == slot,
                            round.player == old(round).player,
                            round.asteroids == old(round).asteroids,
                            round.life_icons == old(round).life_icons,
                            round.scoreboard == old(round).scoreboard,
                            round.game_state == old(round).game_state,
                            round.hit_events == old(round).hit_events,
                            round.game_over_events == old(round).game_over_events,
                            round.fire_events == 0,
                        decreases pending - k,
                    {
                        round.lasers.push(slot);
                        k = k + 1;
                    }
                    shot = true;
                    proof {
                        assert(round.lasers@ =~= old(round).lasers@ + spec_shot_lasers(
                            old(round).player,
                            *window,
                            cursor,
                            pending,
                        ));
                    }
                }
            },
            None => {},
        }
    }
    proof {
        if !shot {
            assert(round.lasers@ =~= old(round).lasers@ + spec_shot_lasers(
                old(round).player,
                *window,
                cursor,
                pending,
            ));
        }
        assert forall|i: int| 0 <= i < round.lasers@.len() implies (
        #[trigger] round.lasers@[i]).wf() by {
            if i < old(round).lasers@.len() {
                assert(round.lasers@[i] == old(round).lasers@[i]);
            }
        }
    }
}

} // verus!
