use asteroids_core::asteroid::update_asteroid_spawn_timer;
use asteroids_core::components::setup_game_state;
use asteroids_core::timer::{Timer, TimerMode};

#[test]
fn repeating_timer_wraps_on_firing() {
    let mut t = Timer::new(1000, TimerMode::Repeating);
    t.tick(400);
    assert!(!t.just_finished());
    assert_eq!(t.elapsed_ms, 400);
    t.tick(600);
    assert!(t.just_finished());
    assert_eq!(t.elapsed_ms, 0);
    t.tick(2500);
    assert!(t.just_finished());
    assert_eq!(t.elapsed_ms, 500);
}

#[test]
fn one_shot_timer_fires_once_and_stays_finished() {
    let mut t = Timer::new(1000, TimerMode::Once);
    t.tick(2500);
    assert!(t.just_finished());
    assert_eq!(t.elapsed_ms, 1000);
    t.tick(100);
    assert!(!t.just_finished());
    assert_eq!(t.elapsed_ms, 1000);
}

#[test]
fn respawn_boundary_firing() {
    // 4.99 s elapsed plus a 0.02 s frame crosses the 5 s duration.
    let mut t = Timer { period_ms: 5000, elapsed_ms: 4990, mode: TimerMode::Once, fired: false };
    t.tick(20);
    assert!(t.just_finished());
}

#[test]
fn rate_increase_scales_period_exactly() {
    // Scenario: spawn period 1.0 s, the rate-increase timer fires at 15 s:
    // the new period is 0.8 s exactly, with its progress reset.
    let mut gs = setup_game_state();
    assert_eq!(gs.asteroid_spawn_timer.period_ms, 1000);
    update_asteroid_spawn_timer(&mut gs, 15_000);
    assert_eq!(gs.asteroid_spawn_timer.period_ms, 800);
    assert_eq!(gs.asteroid_spawn_timer.elapsed_ms, 0);
    assert!(!gs.asteroid_spawn_timer.fired);
    assert_eq!(gs.asteroid_rate_increase_timer.elapsed_ms, 0);
    assert!(gs.asteroid_rate_increase_timer.fired);
    // A second firing shrinks it again: 800 -> 640.
    update_asteroid_spawn_timer(&mut gs, 15_000);
    assert_eq!(gs.asteroid_spawn_timer.period_ms, 640);
}

#[test]
fn rate_increase_rounds_down_when_not_divisible() {
    // 512 ms is not a whole number of five milliseconds, so its four
    // fifths (409.6 ms) is rounded down to 409 ms.
    let mut gs = setup_game_state();
    gs.asteroid_spawn_timer = Timer::new(512, TimerMode::Repeating);
    update_asteroid_spawn_timer(&mut gs, 15_000);
    assert_eq!(gs.asteroid_spawn_timer.period_ms, 409);
}

#[test]
fn spawn_timer_fires_each_second() {
    let mut gs = setup_game_state();
    update_asteroid_spawn_timer(&mut gs, 400);
    assert!(!gs.asteroid_spawn_timer.fired);
    update_asteroid_spawn_timer(&mut gs, 600);
    assert!(gs.asteroid_spawn_timer.fired);
    update_asteroid_spawn_timer(&mut gs, 16);
    assert!(!gs.asteroid_spawn_timer.fired);
    assert_eq!(gs.asteroid_spawn_timer.elapsed_ms, 16);
}
