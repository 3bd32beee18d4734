use asteroids_core::asteroid::spawn_asteroid;
use asteroids_core::components::{
    Asteroid, AsteroidSlot, DestroyCause, EntityState, Laser, LaserSlot,
};
use asteroids_core::game::{clear_game_objects, tick, AppState, Game, TickInput};
use asteroids_core::geom::{Vec2, Window};
use asteroids_core::movement::{asteroid_movement, laser_movement};
use asteroids_core::input::shooting_handler;
use asteroids_core::player::{shoot, sync_life_icons};
use asteroids_core::round::Round;
use asteroids_core::timer::{Timer, TimerMode};

fn win800() -> Window {
    Window { width: 800_000, height: 800_000 }
}

fn quiet_input(delta_ms: u32) -> TickInput {
    TickInput { delta_ms, cursor: None, fire: false, pause: false, confirm: false }
}

fn in_game(round: Round) -> Game {
    Game { state: AppState::InGame, round: Some(round), final_score: None }
}

fn asteroid_at(pos: Vec2, speed: i64) -> AsteroidSlot {
    AsteroidSlot {
        pos,
        rot: 0,
        body: Asteroid {
            trajectory: Vec2 { x: 0, y: 1000 },
            speed,
            rotation: 0,
            width: 48_000,
            height: 48_000,
        },
        state: EntityState::Alive,
    }
}

#[test]
fn scenario_player_hit_costs_one_life_and_one_icon() {
    // Player at the origin, three lives, not invincible; one asteroid
    // overlapping the player's box.
    let mut round = Round::new();
    round.asteroids.push(asteroid_at(Vec2 { x: 0, y: 0 }, 1000));
    let mut g = in_game(round);
    tick(&mut g, &win800(), &quiet_input(16));

    assert_eq!(g.state, AppState::InGame);
    let r = g.round.as_ref().unwrap();
    assert_eq!(
        r.asteroids[0].state,
        EntityState::Destroyed(DestroyCause::Collision)
    );
    assert_eq!(r.player.lives, 2);
    assert!(r.player.invincible);
    // The icon for the third life slot is destroyed, the others stay.
    assert!(r.life_icons[0].alive);
    assert!(r.life_icons[1].alive);
    assert!(!r.life_icons[2].alive);
    // The hit notifications were consumed within the tick.
    assert_eq!(r.hit_events, 0);
    // The respawn window has begun counting this tick's delta.
    assert_eq!(r.player.respawn_timer.elapsed_ms, 16);
}

#[test]
fn scenario_projectile_scores_truncated_speed() {
    // A projectile and an asteroid of speed 4.7 units overlap; the score
    // starts at zero. The player is parked far away.
    let mut round = Round::new();
    round.player.pos = Vec2 { x: 300_000, y: 300_000 };
    round.asteroids.push(asteroid_at(Vec2 { x: 0, y: 0 }, 4700));
    round.lasers.push(LaserSlot {
        pos: Vec2 { x: 0, y: 0 },
        laser: Laser { velocity: Vec2 { x: 0, y: 0 } },
        state: EntityState::Alive,
    });
    let mut g = in_game(round);
    tick(&mut g, &win800(), &quiet_input(16));

    let r = g.round.as_ref().unwrap();
    assert_eq!(r.scoreboard.score, 4);
    assert_eq!(
        r.asteroids[0].state,
        EntityState::Destroyed(DestroyCause::Collision)
    );
    assert_eq!(
        r.lasers[0].state,
        EntityState::Destroyed(DestroyCause::Collision)
    );
    assert_eq!(r.player.lives, 3);
}

#[test]
fn scenario_respawn_window_closes_on_schedule() {
    // Invincible with 4.99 s elapsed; a 0.02 s tick ends the window and
    // resets the timer to a fresh 5 s one-shot.
    let mut round = Round::new();
    round.player.invincible = true;
    round.player.respawn_timer =
        Timer { period_ms: 5000, elapsed_ms: 4990, mode: TimerMode::Once, fired: false };
    let mut g = in_game(round);
    tick(&mut g, &win800(), &quiet_input(20));

    let r = g.round.as_ref().unwrap();
    assert!(!r.player.invincible);
    assert_eq!(r.player.respawn_timer.period_ms, 5000);
    assert_eq!(r.player.respawn_timer.elapsed_ms, 0);
    assert_eq!(r.player.respawn_timer.mode, TimerMode::Once);
    assert!(!r.player.respawn_timer.fired);
}

#[test]
fn scenario_last_life_ends_the_round() {
    // One life left and an asteroid overlapping the player: the round
    // raises the game-over notification and the state machine leaves
    // the in-game state the same tick, tearing the round down.
    let mut round = Round::new();
    round.player.lives = 1;
    round.life_icons[1].alive = false;
    round.life_icons[2].alive = false;
    round.scoreboard.score = 17;
    round.asteroids.push(asteroid_at(Vec2 { x: 0, y: 0 }, 1000));
    let mut g = in_game(round);
    tick(&mut g, &win800(), &quiet_input(16));

    assert_eq!(g.state, AppState::GameOver);
    assert!(g.round.is_none());
    assert_eq!(g.final_score, Some(17));
}

#[test]
fn invincibility_suppresses_life_loss_but_not_destruction() {
    let mut round = Round::new();
    round.player.invincible = true;
    round.player.respawn_timer =
        Timer { period_ms: 5000, elapsed_ms: 100, mode: TimerMode::Once, fired: false };
    round.asteroids.push(asteroid_at(Vec2 { x: 0, y: 0 }, 1000));
    let mut g = in_game(round);
    tick(&mut g, &win800(), &quiet_input(16));

    let r = g.round.as_ref().unwrap();
    // The asteroid still collides and is destroyed...
    assert_eq!(
        r.asteroids[0].state,
        EntityState::Destroyed(DestroyCause::Collision)
    );
    // ...but no life is lost and no icon is destroyed.
    assert_eq!(r.player.lives, 3);
    assert!(r.life_icons.iter().all(|i| i.alive));
}

#[test]
fn life_icon_sync_is_idempotent() {
    let mut round = Round::new();
    let mut icons = std::mem::take(&mut round.life_icons);
    sync_life_icons(&mut icons, 1);
    assert!(icons[0].alive);
    assert!(!icons[1].alive);
    assert!(!icons[2].alive);
    let first_pass: Vec<bool> = icons.iter().map(|i| i.alive).collect();
    // A second sync with no intervening lives change destroys nothing more.
    sync_life_icons(&mut icons, 1);
    let second_pass: Vec<bool> = icons.iter().map(|i| i.alive).collect();
    assert_eq!(first_pass, second_pass);
}

#[test]
fn round_trip_teardown_leaves_no_entities() {
    // Entering the in-game state then immediately leaving it removes
    // every round-scoped entity.
    let mut g = Game::new();
    asteroids_core::game::input(&mut g, true);
    assert_eq!(g.state, AppState::InGame);
    assert!(g.round.is_some());
    clear_game_objects(&mut g.round);
    assert!(g.round.is_none());
}

#[test]
fn movement_then_out_of_bounds_despawn() {
    let w = win800();
    let mut round = Round::new();
    // A projectile well inside the field just moves.
    round.lasers.push(LaserSlot {
        pos: Vec2 { x: 0, y: 0 },
        laser: Laser { velocity: Vec2 { x: 10_000, y: 0 } },
        state: EntityState::Alive,
    });
    // One sitting just inside the threshold leaves it on this step.
    round.lasers.push(LaserSlot {
        pos: Vec2 { x: -449_000, y: 0 },
        laser: Laser { velocity: Vec2 { x: -2000, y: 0 } },
        state: EntityState::Alive,
    });
    laser_movement(&mut round, &w);
    assert_eq!(round.lasers[0].pos, Vec2 { x: 10_000, y: 0 });
    assert_eq!(round.lasers[0].state, EntityState::Alive);
    // Window coordinate 400000 - (-451000) = 851000 > 850000: gone.
    assert_eq!(round.lasers[1].pos, Vec2 { x: -451_000, y: 0 });
    assert_eq!(
        round.lasers[1].state,
        EntityState::Destroyed(DestroyCause::OutOfBounds)
    );

    // An asteroid advances by trajectory times speed and rotates.
    let mut a = asteroid_at(Vec2 { x: 0, y: 0 }, 5000);
    a.body.trajectory = Vec2 { x: 600, y: -800 };
    a.body.rotation = 100;
    a.rot = 6200;
    round.asteroids.push(a);
    asteroid_movement(&mut round, &w);
    assert_eq!(round.asteroids[0].pos, Vec2 { x: 3000, y: -4000 });
    assert_eq!(round.asteroids[0].rot, 17);
    assert_eq!(round.asteroids[0].state, EntityState::Alive);
}

#[test]
fn destroyed_records_are_never_touched_again() {
    let w = win800();
    let mut round = Round::new();
    let mut dead = asteroid_at(Vec2 { x: 0, y: 0 }, 3000);
    dead.state = EntityState::Destroyed(DestroyCause::OutOfBounds);
    round.asteroids.push(dead);
    // Overlapping projectile and player, but the record is a tombstone:
    // neither movement nor the collision passes may change it.
    round.lasers.push(LaserSlot {
        pos: Vec2 { x: 0, y: 0 },
        laser: Laser { velocity: Vec2 { x: 0, y: 0 } },
        state: EntityState::Alive,
    });
    let mut g = in_game(round);
    tick(&mut g, &win800(), &quiet_input(16));
    let r = g.round.as_ref().unwrap();
    assert_eq!(
        r.asteroids[0].state,
        EntityState::Destroyed(DestroyCause::OutOfBounds)
    );
    assert_eq!(r.asteroids[0].pos, Vec2 { x: 0, y: 0 });
    // The projectile found no live asteroid and the player lost no life.
    assert_eq!(r.lasers[0].state, EntityState::Alive);
    assert_eq!(r.player.lives, 3);
    assert_eq!(r.scoreboard.score, 0);
    let _ = w;
}

#[test]
fn spawned_asteroids_come_from_the_drawn_ranges() {
    let w = win800();
    let mut round = Round::new();
    for _ in 0..32 {
        spawn_asteroid(&mut round, &w);
    }
    assert_eq!(round.asteroids.len(), 32);
    for slot in round.asteroids.iter() {
        assert_eq!(slot.state, EntityState::Alive);
        assert_eq!(slot.rot, 0);
        let b = &slot.body;
        assert!((1000..8000).contains(&b.speed));
        assert!((-100..100).contains(&b.rotation));
        assert!(b.width == 32_000 || b.width == 48_000);
        assert_eq!(b.height, b.width);
        assert!(b.trajectory.x.abs() <= 1000);
        assert!(b.trajectory.y.abs() <= 1000);
        // The trajectory of a spawned asteroid is never the zero vector.
        assert!(b.trajectory.x != 0 || b.trajectory.y != 0);
        // The spawn point lies on one of the four oversized edges.
        let winpos = Vec2 { x: 400_000 - slot.pos.x, y: 400_000 - slot.pos.y };
        let on_x_edge = winpos.x == -25_000 || winpos.x == 825_000;
        let on_y_edge = winpos.y == -25_000 || winpos.y == 825_000;
        let in_range = |c: i64| (-25_000..825_000).contains(&c);
        assert!(
            (on_x_edge && in_range(winpos.y)) || (on_y_edge && in_range(winpos.x)),
            "spawn point {winpos:?} not on an edge"
        );
    }
}

#[test]
fn simultaneous_hits_cost_one_life_but_destroy_each_asteroid() {
    // Two asteroids overlap the player in the same tick: each is
    // destroyed and raises its own hit notification, but the life
    // deduction consumes the whole batch at once.
    let mut round = Round::new();
    round.asteroids.push(asteroid_at(Vec2 { x: 0, y: 0 }, 1000));
    round.asteroids.push(asteroid_at(Vec2 { x: 5000, y: 0 }, 2000));
    let mut g = in_game(round);
    tick(&mut g, &win800(), &quiet_input(16));

    let r = g.round.as_ref().unwrap();
    assert_eq!(
        r.asteroids[0].state,
        EntityState::Destroyed(DestroyCause::Collision)
    );
    assert_eq!(
        r.asteroids[1].state,
        EntityState::Destroyed(DestroyCause::Collision)
    );
    assert_eq!(r.player.lives, 2);
}

#[test]
fn one_projectile_can_score_against_two_asteroids() {
    // The projectile overlaps two asteroids in the same pass: both are
    // destroyed and both score, even though the first pair already
    // destroys the projectile.
    let mut round = Round::new();
    round.player.pos = Vec2 { x: 300_000, y: 300_000 };
    round.asteroids.push(asteroid_at(Vec2 { x: 0, y: 0 }, 3200));
    round.asteroids.push(asteroid_at(Vec2 { x: 10_000, y: 0 }, 5900));
    round.lasers.push(LaserSlot {
        pos: Vec2 { x: 5000, y: 0 },
        laser: Laser { velocity: Vec2 { x: 0, y: 0 } },
        state: EntityState::Alive,
    });
    let mut g = in_game(round);
    tick(&mut g, &win800(), &quiet_input(16));

    let r = g.round.as_ref().unwrap();
    assert_eq!(r.scoreboard.score, 3 + 5);
    assert_eq!(
        r.asteroids[0].state,
        EntityState::Destroyed(DestroyCause::Collision)
    );
    assert_eq!(
        r.asteroids[1].state,
        EntityState::Destroyed(DestroyCause::Collision)
    );
    assert_eq!(
        r.lasers[0].state,
        EntityState::Destroyed(DestroyCause::Collision)
    );
}

#[test]
fn queued_fire_requests_drain_all_at_once() {
    // Requests queued over several ticks are all honoured on the next
    // shooting step: one projectile per request, in order.
    let w = win800();
    let mut round = Round::new();
    shooting_handler(&mut round, true);
    shooting_handler(&mut round, false);
    shooting_handler(&mut round, true);
    assert_eq!(round.fire_events, 2);
    shoot(&mut round, &w, Some(Vec2 { x: 400_000, y: 0 }));
    assert_eq!(round.fire_events, 0);
    assert_eq!(round.lasers.len(), 2);
    // Both aim from the player (window centre) straight up the axis
    // toward the cursor.
    for l in round.lasers.iter() {
        assert_eq!(l.laser.velocity, Vec2 { x: 0, y: -10_000 });
        assert_eq!(l.pos, Vec2 { x: 0, y: 0 });
    }
}

#[test]
fn lives_never_increase_over_a_session() {
    let mut g = Game::new();
    asteroids_core::game::input(&mut g, true);
    let mut last = 3u8;
    let mut t: u32 = 0;
    while g.state == AppState::InGame && t < 2000 {
        tick(&mut g, &win800(), &quiet_input(33));
        if let Some(r) = &g.round {
            assert!(r.player.lives <= last);
            last = r.player.lives;
            assert!(last >= 1);
        }
        t += 1;
    }
}
