//! The match state machine and the per-tick schedule: main menu to
//! in-game to game-over and back, the pause gate, and the fixed order
//! of the round systems within one active tick (input, then shooting
//! and spawning, then movement, then collision, then survivability,
//! with the state machine observing last).

use vstd::prelude::*;

use crate::asteroid::{
    asteroid_spawn_timer, spawn_asteroid, spec_is_spawned_record, spec_scheduler_after,
    spec_spawn_fires, update_asteroid_spawn_timer,
};
use crate::collision::{
    check_laser_collisions, check_player_collisions, count_player_hits, spec_asteroid_shot,
    spec_hits_player, spec_laser_spent, total_points,
};
use crate::components::{AsteroidSlot, DestroyCause, GameState, Player};
use crate::geom::{spec_sat_add, Vec2, Window};
use crate::input::{aiming_handler, pause_handler, shooting_handler, spec_aimed_facing};
use crate::movement::{asteroid_movement, laser_movement, spec_move_asteroid, spec_move_laser};
use crate::player::{
    player_invincibility_listener, player_respawn_timer, shoot, spec_player_after_hits,
    spec_shot_lasers, spec_sync_icons, update_life_counter,
};
use crate::round::Round;

verus! {

/// The match lifecycle states.
#[derive(Clone, Copy, PartialEq, Eq, Structural, Debug)]
pub enum AppState {
    MainMenu,
    InGame,
    GameOver,
}

/// One tick's input from the input collaborator: the frame delta, the
/// cursor position in window space (absent while the cursor is outside
/// the window), and the edge-triggered press flags.
#[derive(Clone, Copy, Debug)]
pub struct TickInput {
    pub delta_ms: u32,
    pub cursor: Option<Vec2>,
    pub fire: bool,
    pub pause: bool,
    pub confirm: bool,
}

impl TickInput {
    /// The input collaborator reports a cursor only inside the window.
    pub open spec fn wf(self, w: Window) -> bool {
        self.cursor matches Some(c) ==> 0 <= c.x <= w.width && 0 <= c.y <= w.height
    }
}

/// Whether the round's simulation systems run this tick.
pub fn is_running(game_state: &GameState) -> (r: bool)
    ensures
        r == !game_state.paused,
{
    !game_state.paused
}

/// The whole match: the lifecycle state, the running round while
/// in-game, and the final score held for display while game-over.
#[derive(Debug)]
pub struct Game {
    pub state: AppState,
    pub round: Option<Round>,
    pub final_score: Option<usize>,
}

impl Game {
    /// The lifecycle invariant: a round exists exactly while in-game,
    /// well-formed, at a tick boundary, with at least one life left;
    /// the final score exists exactly while game-over.
    pub open spec fn wf(self) -> bool {
        match self.state {
            AppState::MainMenu => self.round is None && self.final_score is None,
            AppState::InGame => {
                &&& self.final_score is None
                &&& (self.round matches Some(r) && r.wf() && r.quiescent() && r.player.lives
                    >= 1)
            },
            AppState::GameOver => self.round is None && self.final_score is Some,
        }
    }

    /// A new match starts at the main menu.
    pub fn new() -> (g: Game)
        ensures
            g.wf(),
            g.state is MainMenu,
            g.round is None,
            g.final_score is None,
    {
        Game { state: AppState::MainMenu, round: None, final_score: None }
    }
}

/// How many round-scoped entities a game holds: the asteroid,
/// projectile and life-icon records, the player and the scoreboard.
pub open spec fn round_scoped_entities(g: Game) -> nat {
    match g.round {
        Some(r) => r.asteroids@.len() + r.lasers@.len() + r.life_icons@.len() + 2,
        None => 0,
    }
}

/// The teardown sweep at a round's end: every round-scoped entity is
/// dropped at once with the registry that owns them.
pub fn clear_game_objects(round: &mut Option<Round>)
    ensures
        *final(round) is None,
{
    *round = None;
}

/// A confirmed play selection at the main menu enters the in-game
/// state and performs the round setup.
pub fn input(game: &mut Game, confirm: bool)
    requires
        old(game).wf(),
        old(game).state is MainMenu,
    ensures
        final(game).wf(),
        (if confirm {
            &&& final(game).state is InGame
            &&& final(game).final_score is None
            &&& (final(game).round matches Some(r) && r.is_fresh() && r.wf())
        } else {
            *final(game) == *old(game)
        }),
{
    if confirm {
        game.round = Some(Round::new());
        game.state = AppState::InGame;
    }
}

/// Any confirming click at the game-over screen discards the displayed
/// score and starts a fresh round.
pub fn play_again_listener(game: &mut Game, confirm: bool)
    requires
        old(game).wf(),
        old(game).state is GameOver,
    ensures
        final(game).wf(),
        (if confirm {
            &&& final(game).state is InGame
            &&& final(game).final_score is None
            &&& (final(game).round matches Some(r) && r.is_fresh() && r.wf())
        } else {
            *final(game) == *old(game)
        }),
{
    if confirm {
        game.final_score = None;
        game.round = Some(Round::new());
        game.state = AppState::InGame;
    }
}

/// Consumes a pending game-over notification: the round is torn down
/// (no round-scoped entity survives), its score is kept once for
/// display, and the state machine moves to game-over. Without a
/// pending notification nothing changes.
pub fn game_over_listener(game: &mut Game)
    requires
        old(game).state is InGame,
        (old(game).round matches Some(r) && r.wf()),
    ensures
        (match old(game).round {
            Some(r) => if r.game_over_events > 0 {
                &&& final(game).state is GameOver
                &&& final(game).round is None
                &&& final(game).final_score == Some(r.scoreboard.score)
                &&& round_scoped_entities(*final(game)) == 0
            } else {
                *final(game) == *old(game)
            },
            None => true,
        }),
{
    let over = match &game.round {
        Some(r) => r.game_over_events > 0,
        None => false,
    };
    if over {
        let score = match &game.round {
            Some(r) => r.scoreboard.score,
            None => 0,
        };
        clear_game_objects(&mut game.round);
        game.state = AppState::GameOver;
        game.final_score = Some(score);
    }
}

/// The exact outcome of one unpaused tick, up to the spawn draw. With
/// `spawned` standing for the asteroid records the spawn step appended
/// (one record of some legal draw when the spawn timer fired, none
/// otherwise), the tick is this fixed composition: aim the ship, queue
/// and drain the fire requests, advance the scheduler, spawn, move
/// every record, resolve the player pass and then the projectile pass
/// against the *moved* snapshot — movement strictly precedes collision,
/// so no pass ever sees a stale position — and feed the hit batch the
/// player pass raised to the survivability steps.
pub open spec fn spec_active_tick_rel(
    r0: Round,
    w: Window,
    inp: TickInput,
    spawned: Seq<AsteroidSlot>,
    r1: Round,
) -> bool {
    let delta = inp.delta_ms as u64;
    let pending: u32 = if inp.fire {
        1u32
    } else {
        0u32
    };
    let aimed = Player { facing: spec_aimed_facing(r0.player, w, inp.cursor), ..r0.player };
    let pre_asts = r0.asteroids@ + spawned;
    let pre_lasers = r0.lasers@ + spec_shot_lasers(r0.player, w, inp.cursor, pending);
    let moved_asts = Seq::new(pre_asts.len(), |i: int| spec_move_asteroid(pre_asts[i], w));
    let moved_lasers = Seq::new(pre_lasers.len(), |j: int| spec_move_laser(pre_lasers[j], w));
    let after_player = Seq::new(
        moved_asts.len(),
        |i: int|
            if spec_hits_player(aimed, moved_asts[i]) {
                moved_asts[i].destroyed(DestroyCause::Collision)
            } else {
                moved_asts[i]
            },
    );
    let hits = count_player_hits(aimed, moved_asts);
    &&& spawned.len() == (if spec_spawn_fires(r0.game_state, delta) {
        1int
    } else {
        0int
    })
    &&& (forall|i: int|
        0 <= i < spawned.len() ==> spec_is_spawned_record(w, #[trigger] spawned[i]))
    &&& r1.asteroids@ == Seq::new(
        after_player.len(),
        |i: int|
            if spec_asteroid_shot(after_player[i], moved_lasers) {
                after_player[i].destroyed(DestroyCause::Collision)
            } else {
                after_player[i]
            },
    )
    &&& r1.lasers@ == Seq::new(
        moved_lasers.len(),
        |j: int|
            if spec_laser_spent(moved_lasers[j], after_player) {
                moved_lasers[j].destroyed(DestroyCause::Collision)
            } else {
                moved_lasers[j]
            },
    )
    &&& r1.scoreboard.score == spec_sat_add(
        r0.scoreboard.score as nat,
        total_points(after_player, moved_lasers),
    )
    &&& r1.player == spec_player_after_hits(aimed, hits, delta)
    &&& r1.life_icons@ == (if hits > 0 {
        spec_sync_icons(r0.life_icons@, r1.player.lives)
    } else {
        r0.life_icons@
    })
    &&& r1.game_state == (GameState {
        paused: false,
        ..spec_scheduler_after(r0.game_state, delta)
    })
    &&& r1.fire_events == 0
    &&& r1.hit_events == 0
    &&& r1.game_over_events == (if hits > 0 && !r0.player.invincible && r0.player.lives == 1 {
        1int
    } else {
        0int
    })
}

/// One active tick of a running round, in the fixed system order: the
/// pause toggle first (a tick that lands paused changes nothing else);
/// then aiming and fire queueing, shooting and the spawn scheduler,
/// motion integration, the two collision passes, and the survivability
/// steps; finally the tick's hit notifications are dropped.
///
/// Whatever the spawn draws produce, the tick preserves
/// well-formedness, lives never increase and fall by at most one, the
/// game-over notification is raised exactly when the lives reach zero,
/// the registries only grow, a destroyed record stays exactly as it
/// was, and the score never decreases.
#[verifier::rlimit(100)]
pub fn tick_round_systems(round: &mut Round, window: &Window, tick_input: &TickInput)
    requires
        old(round).wf(),
        old(round).quiescent(),
        window.wf(),
        tick_input.wf(*window),
        old(round).asteroids@.len() + 1 <= usize::MAX,
        old(round).lasers@.len() + 1 <= usize::MAX,
    ensures
        final(round).wf(),
        final(round).fire_events == 0,
        final(round).hit_events == 0,
        final(round).game_over_events <= 1,
        final(round).game_state.paused == (if tick_input.pause {
            !old(round).game_state.paused
        } else {
            old(round).game_state.paused
        }),
        (final(round).game_state.paused ==> {
            &&& final(round).player == old(round).player
            &&& final(round).asteroids == old(round).asteroids
            &&& final(round).lasers == old(round).lasers
            &&& final(round).life_icons == old(round).life_icons
            &&& final(round).scoreboard == old(round).scoreboard
            &&& final(round).game_state.asteroid_spawn_timer
                == old(round).game_state.asteroid_spawn_timer
            &&& final(round).game_state.asteroid_rate_increase_timer
                == old(round).game_state.asteroid_rate_increase_timer
            &&& final(round).game_over_events == 0
        }),
        (!final(round).game_state.paused ==> {
            &&& final(round).game_state == (GameState {
                paused: false,
                ..spec_scheduler_after(old(round).game_state, tick_input.delta_ms as u64)
            })
            &&& final(round).asteroids@.len() == old(round).asteroids@.len() + (
            if spec_spawn_fires(old(round).game_state, tick_input.delta_ms as u64) {
                1int
            } else {
                0int
            })
            &&& final(round).lasers@.len() == old(round).lasers@.len() + spec_shot_lasers(
                old(round).player,
                *window,
                tick_input.cursor,
                if tick_input.fire {
                    1u32
                } else {
                    0u32
                },
            ).len()
            &&& final(round).player.pos == old(round).player.pos
            &&& final(round).player.facing == spec_aimed_facing(
                old(round).player,
                *window,
                tick_input.cursor,
            )
            &&& (exists|spawned: Seq<AsteroidSlot>|
                #[trigger] spec_active_tick_rel(
                    *old(round),
                    *window,
                    *tick_input,
                    spawned,
                    *final(round),
                ))
        }),
        final(round).player.lives <= old(round).player.lives,
        old(round).player.lives - final(round).player.lives <= 1,
        (old(round).player.lives >= 1 ==> ((final(round).game_over_events == 1)
            <==> final(round).player.lives == 0)),
        final(round).asteroids@.len() >= old(round).asteroids@.len(),
        final(round).lasers@.len() >= old(round).lasers@.len(),
        forall|i: int|
            0 <= i < old(round).asteroids@.len() && old(round).asteroids@[i].state is Destroyed
                ==> final(round).asteroids@[i] == old(round).asteroids@[i],
        forall|j: int|
            0 <= j < old(round).lasers@.len() && old(round).lasers@[j].state is Destroyed
                ==> final(round).lasers@[j] == old(round).lasers@[j],
        final(round).scoreboard.score >= old(round).scoreboard.score,
{
    pause_handler(round, tick_input.pause);
    if !is_running(&round.game_state) {
        return ;
    }
    aiming_handler(round, window, tick_input.cursor);
    shooting_handler(round, tick_input.fire);
    shoot(round, window, tick_input.cursor);
    update_asteroid_spawn_timer(&mut round.game_state, tick_input.delta_ms);
    if asteroid_spawn_timer(&round.game_state) {
        spawn_asteroid(round, window);
    }
    let ghost spawned: Seq<AsteroidSlot> = round.asteroids@.subrange(
        old(round).asteroids@.len() as int,
        round.asteroids@.len() as int,
    );
    let ghost pre_asts = round.asteroids@;
    let ghost pre_lasers = round.lasers@;
    let ghost aimed = round.player;
    laser_movement(round, window);
    asteroid_movement(round, window);
    let ghost moved_asts = round.asteroids@;
    let ghost moved_lasers = round.lasers@;
    check_player_collisions(round);
    let ghost after_player = round.asteroids@;
    let ghost hits = (round.hit_events as nat);
    check_laser_collisions(round);
    update_life_counter(round);
    player_invincibility_listener(round);
    player_respawn_timer(round, tick_input.delta_ms);
    round.hit_events = 0;
    proof {
        let r0 = *old(round);
        let w = *window;
        let inp = *tick_input;
        let delta = inp.delta_ms as u64;
        let pending: u32 = if inp.fire {
            1u32
        } else {
            0u32
        };
        assert(aimed == (Player {
            facing: spec_aimed_facing(r0.player, w, inp.cursor),
            ..r0.player
        }));
        assert(pre_asts =~= r0.asteroids@ + spawned);
        assert(spec_shot_lasers(aimed, w, inp.cursor, pending) =~= spec_shot_lasers(
            r0.player,
            w,
            inp.cursor,
            pending,
        ));
        assert(pre_lasers =~= r0.lasers@ + spec_shot_lasers(r0.player, w, inp.cursor, pending));
        assert(moved_asts =~= Seq::new(
            pre_asts.len(),
            |i: int| spec_move_asteroid(pre_asts[i], w),
        ));
        assert(moved_lasers =~= Seq::new(
            pre_lasers.len(),
            |j: int| spec_move_laser(pre_lasers[j], w),
        ));
        assert(after_player =~= Seq::new(
            moved_asts.len(),
            |i: int|
                if spec_hits_player(aimed, moved_asts[i]) {
                    moved_asts[i].destroyed(DestroyCause::Collision)
                } else {
                    moved_asts[i]
                },
        ));
        assert(hits == count_player_hits(aimed, moved_asts));
        assert(round.asteroids@ =~= Seq::new(
            after_player.len(),
            |i: int|
                if spec_asteroid_shot(after_player[i], moved_lasers) {
                    after_player[i].destroyed(DestroyCause::Collision)
                } else {
                    after_player[i]
                },
        ));
        assert(round.lasers@ =~= Seq::new(
            moved_lasers.len(),
            |j: int|
                if spec_laser_spent(moved_lasers[j], after_player) {
                    moved_lasers[j].destroyed(DestroyCause::Collision)
                } else {
                    moved_lasers[j]
                },
        ));
        assert(round.player == spec_player_after_hits(aimed, hits, delta));
        assert(spec_active_tick_rel(r0, w, inp, spawned, *round));
    }
}

/// One tick of the whole match. At the main menu and at game-over only
/// the confirm input matters; in-game the round systems run (gated by
/// the pause flag) and the state machine then observes a pending
/// game-over notification, so the match leaves the in-game state
/// exactly when the lives reached zero this tick.
pub fn tick(game: &mut Game, window: &Window, tick_input: &TickInput)
    requires
        old(game).wf(),
        window.wf(),
        tick_input.wf(*window),
        (old(game).round matches Some(r) ==> r.asteroids@.len() + 1 <= usize::MAX
            && r.lasers@.len() + 1 <= usize::MAX),
    ensures
        final(game).wf(),
        (old(game).state is MainMenu || old(game).state is GameOver ==> (if tick_input.confirm {
            final(game).state is InGame && (final(game).round matches Some(r) && r.is_fresh())
        } else {
            *final(game) == *old(game)
        })),
        (old(game).state is InGame ==> match (old(game).round, final(game).round) {
            (Some(r0), Some(r1)) => {
                &&& final(game).state is InGame
                &&& r1.player.lives <= r0.player.lives
                &&& r1.player.lives >= 1
                &&& r1.scoreboard.score >= r0.scoreboard.score
                &&& r1.game_state.paused == (if tick_input.pause {
                    !r0.game_state.paused
                } else {
                    r0.game_state.paused
                })
                &&& (r1.game_state.paused ==> r1.player == r0.player && r1.asteroids
                    == r0.asteroids && r1.lasers == r0.lasers && r1.scoreboard == r0.scoreboard
                    && r1.life_icons == r0.life_icons)
                &&& (!r1.game_state.paused ==> {
                    &&& r1.game_state == (GameState {
                        paused: false,
                        ..spec_scheduler_after(r0.game_state, tick_input.delta_ms as u64)
                    })
                    &&& r1.asteroids@.len() == r0.asteroids@.len() + (
                    if spec_spawn_fires(r0.game_state, tick_input.delta_ms as u64) {
                        1int
                    } else {
                        0int
                    })
                    &&& r1.lasers@.len() == r0.lasers@.len() + spec_shot_lasers(
                        r0.player,
                        *window,
                        tick_input.cursor,
                        if tick_input.fire {
                            1u32
                        } else {
                            0u32
                        },
                    ).len()
                    &&& r1.player.pos == r0.player.pos
                    &&& (exists|spawned: Seq<AsteroidSlot>|
                        #[trigger] spec_active_tick_rel(r0, *window, *tick_input, spawned, r1))
                })
                &&& r1.asteroids@.len() >= r0.asteroids@.len()
                &&& r1.lasers@.len() >= r0.lasers@.len()
                &&& (forall|i: int|
                    0 <= i < r0.asteroids@.len() && r0.asteroids@[i].state is Destroyed
                        ==> r1.asteroids@[i] == r0.asteroids@[i])
                &&& (forall|j: int|
                    0 <= j < r0.lasers@.len() && r0.lasers@[j].state is Destroyed
                        ==> r1.lasers@[j] == r0.lasers@[j])
            },
            (Some(r0), None) => {
                &&& final(game).state is GameOver
                &&& final(game).final_score is Some
                &&& round_scoped_entities(*final(game)) == 0
            },
            _ => false,
        }),
{
    match game.state {
        AppState::MainMenu => {
            input(game, tick_input.confirm);
        },
        AppState::InGame => {
            match &mut game.round {
                Some(r) => {
                    tick_round_systems(r, window, tick_input);
                },
                None => {
                    proof {
                        assert(false);
                    }
                },
            }
            game_over_listener(game);
        },
        AppState::GameOver => {
            play_again_listener(game, tick_input.confirm);
        },
    }
}

} // verus!
