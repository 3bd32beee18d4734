//! The round registry: one live player, the asteroid / projectile /
//! life-icon records, the scoreboard and the scheduler state, together
//! with the tick-scoped event counts that connect the systems.

use vstd::prelude::*;

use crate::components::{
    setup_game_state, setup_life_counter, setup_scoreboard, spawn_player, spec_initial_life_icons,
    AsteroidSlot, GameState, LaserSlot, LifeSlot, Player, Scoreboard,
};

verus! {

/// Everything a running round owns. The record vectors are append-only
/// within a round: destroyed entities are kept as tombstones carrying
/// their destruction cause, and the whole registry is dropped at round
/// end.
///
/// The event counts are tick-scoped message lists (all events of one
/// kind are identical, so a count is the whole list): `fire_events`
/// queues fire requests for the shooting system, `hit_events` carries
/// player-hit notifications from collision to survivability, and
/// `game_over_events` carries the game-over notification to the match
/// state machine.
#[derive(Debug)]
pub struct Round {
    pub player: Player,
    pub asteroids: Vec<AsteroidSlot>,
    pub lasers: Vec<LaserSlot>,
    pub life_icons: Vec<LifeSlot>,
    pub scoreboard: Scoreboard,
    pub game_state: GameState,
    pub fire_events: u32,
    pub hit_events: usize,
    pub game_over_events: usize,
}

impl Round {
    /// Every record of the round is well-formed.
    pub open spec fn wf(self) -> bool {
        &&& self.player.wf()
        &&& self.game_state.wf()
        &&& (forall|i: int|
            0 <= i < self.asteroids@.len() ==> (#[trigger] self.asteroids@[i]).wf())
        &&& (forall|i: int| 0 <= i < self.lasers@.len() ==> (#[trigger] self.lasers@[i]).wf())
        &&& (forall|i: int|
            0 <= i < self.life_icons@.len() ==> (#[trigger] self.life_icons@[i]).wf())
    }

    /// No events pending: how a round stands at a tick boundary.
    pub open spec fn quiescent(self) -> bool {
        self.fire_events == 0 && self.hit_events == 0 && self.game_over_events == 0
    }

    /// The state a fresh round starts in: default player, empty entity
    /// registry, three live life icons, score zero, initial scheduler,
    /// no pending events.
    pub open spec fn is_fresh(self) -> bool {
        &&& self.player == Player::spec_default()
        &&& self.asteroids@.len() == 0
        &&& self.lasers@.len() == 0
        &&& self.life_icons@ == spec_initial_life_icons()
        &&& self.scoreboard == (Scoreboard { score: 0 })
        &&& self.game_state == GameState::spec_initial()
        &&& self.quiescent()
    }

    /// Sets up a fresh round: the work of entering the in-game state.
    pub fn new() -> (r: Round)
        ensures
            r.wf(),
            r.is_fresh(),
    {
        let r = Round {
            player: spawn_player(),
            asteroids: Vec::new(),
            lasers: Vec::new(),
            life_icons: setup_life_counter(),
            scoreboard: setup_scoreboard(),
            game_state: setup_game_state(),
            fire_events: 0,
            hit_events: 0,
            game_over_events: 0,
        };
        proof {
            assert forall|i: int| 0 <= i < r.life_icons@.len() implies (
            #[trigger] r.life_icons@[i]).wf() by {
                assert(r.life_icons@ == spec_initial_life_icons());
            }
        }
        r
    }
}

} // verus!
