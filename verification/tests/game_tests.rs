use asteroids_core::game::{tick, AppState, Game, TickInput};
use asteroids_core::geom::{Vec2, Window};

fn win800() -> Window {
    Window { width: 800_000, height: 800_000 }
}

fn input() -> TickInput {
    TickInput { delta_ms: 16, cursor: None, fire: false, pause: false, confirm: false }
}

#[test]
fn menu_waits_for_a_confirmed_play_selection() {
    let mut g = Game::new();
    assert_eq!(g.state, AppState::MainMenu);
    tick(&mut g, &win800(), &input());
    assert_eq!(g.state, AppState::MainMenu);
    assert!(g.round.is_none());

    tick(&mut g, &win800(), &TickInput { confirm: true, ..input() });
    assert_eq!(g.state, AppState::InGame);
    let r = g.round.as_ref().unwrap();
    assert_eq!(r.player.lives, 3);
    assert!(!r.player.invincible);
    assert_eq!(r.scoreboard.score, 0);
    assert_eq!(r.life_icons.len(), 3);
    assert!(r.life_icons.iter().all(|i| i.alive));
    assert_eq!(r.game_state.asteroid_spawn_timer.period_ms, 1000);
    assert_eq!(r.game_state.asteroid_rate_increase_timer.period_ms, 15_000);
    assert!(!r.game_state.paused);
    assert_eq!(g.final_score, None);
}

#[test]
fn pause_gates_the_simulation_but_not_the_toggle() {
    let mut g = Game::new();
    tick(&mut g, &win800(), &TickInput { confirm: true, ..input() });

    // Pause: the toggle flips, and the paused tick advances nothing.
    tick(&mut g, &win800(), &TickInput { pause: true, ..input() });
    let r = g.round.as_ref().unwrap();
    assert!(r.game_state.paused);
    assert_eq!(r.game_state.asteroid_spawn_timer.elapsed_ms, 0);

    // While paused, a fire press queues nothing and timers stand still.
    tick(&mut g, &win800(), &TickInput { fire: true, ..input() });
    let r = g.round.as_ref().unwrap();
    assert!(r.game_state.paused);
    assert_eq!(r.lasers.len(), 0);
    assert_eq!(r.fire_events, 0);
    assert_eq!(r.game_state.asteroid_spawn_timer.elapsed_ms, 0);

    // Unpause: the unpausing tick itself already advances the timers.
    tick(&mut g, &win800(), &TickInput { pause: true, ..input() });
    let r = g.round.as_ref().unwrap();
    assert!(!r.game_state.paused);
    assert_eq!(r.game_state.asteroid_spawn_timer.elapsed_ms, 16);
    tick(&mut g, &win800(), &input());
    let r = g.round.as_ref().unwrap();
    assert_eq!(r.game_state.asteroid_spawn_timer.elapsed_ms, 32);
}

#[test]
fn firing_spawns_one_projectile_toward_the_cursor() {
    let mut g = Game::new();
    tick(&mut g, &win800(), &TickInput { confirm: true, ..input() });

    // The player sits at the origin, window position (400, 400); the
    // cursor sits 100 units to the right of it.
    let cursor = Some(Vec2 { x: 500_000, y: 400_000 });
    tick(&mut g, &win800(), &TickInput { fire: true, cursor, ..input() });
    let r = g.round.as_ref().unwrap();
    assert_eq!(r.lasers.len(), 1);
    // Spawning precedes movement, so the projectile has already taken
    // its first 10-unit step away from the player's position.
    assert_eq!(r.lasers[0].pos, Vec2 { x: 10_000, y: 0 });
    assert_eq!(r.lasers[0].laser.velocity, Vec2 { x: 10_000, y: 0 });
    // The ship faces from the cursor toward itself.
    assert_eq!(r.player.facing, Vec2 { x: -1000, y: 0 });
    // The queued fire request was consumed.
    assert_eq!(r.fire_events, 0);

    // A press with the cursor outside the window drains the queue with
    // no projectile.
    tick(&mut g, &win800(), &TickInput { fire: true, cursor: None, ..input() });
    let r = g.round.as_ref().unwrap();
    assert_eq!(r.lasers.len(), 1);
    assert_eq!(r.fire_events, 0);
}

#[test]
fn game_over_screen_replays_on_any_click() {
    let mut g = Game { state: AppState::GameOver, round: None, final_score: Some(42) };
    tick(&mut g, &win800(), &input());
    assert_eq!(g.state, AppState::GameOver);
    assert_eq!(g.final_score, Some(42));

    tick(&mut g, &win800(), &TickInput { confirm: true, ..input() });
    assert_eq!(g.state, AppState::InGame);
    // The displayed score is read once and discarded; the new round is fresh.
    assert_eq!(g.final_score, None);
    let r = g.round.as_ref().unwrap();
    assert_eq!(r.scoreboard.score, 0);
    assert_eq!(r.player.lives, 3);
}

#[test]
fn spawn_cadence_follows_the_timer() {
    let mut g = Game::new();
    tick(&mut g, &win800(), &TickInput { confirm: true, ..input() });
    // 999 ms: nothing spawned yet.
    tick(&mut g, &win800(), &TickInput { delta_ms: 999, ..input() });
    assert_eq!(g.round.as_ref().unwrap().asteroids.len(), 0);
    // Crossing one second spawns exactly one asteroid.
    tick(&mut g, &win800(), &TickInput { delta_ms: 1, ..input() });
    assert_eq!(g.round.as_ref().unwrap().asteroids.len(), 1);
    // The next second spawns the next one.
    tick(&mut g, &win800(), &TickInput { delta_ms: 1000, ..input() });
    assert_eq!(g.round.as_ref().unwrap().asteroids.len(), 2);
}
