//! The collision and resolution engine. Both passes run over the
//! records live at the start of the pass, so resolution is a pure
//! function of that snapshot: every live asteroid overlapping the
//! player is destroyed and raises one hit notification; every
//! overlapping (asteroid, projectile) pair scores the asteroid's
//! truncated speed and destroys both entities, and destroying an
//! already-destroyed record is a no-op.

use vstd::prelude::*;

use crate::components::{
    Asteroid, AsteroidSlot, DestroyCause, EntityState, HitBox, LaserSlot, Player,
};
use crate::constants::LASER_BOX;
use crate::geom::{boxes_overlap, sat_add_usize, spec_overlaps, spec_sat_add, Vec2};
use crate::round::Round;

verus! {

/// Whether a live asteroid record overlaps the player's hit-box.
pub open spec fn spec_hits_player(p: Player, s: AsteroidSlot) -> bool {
    s.state is Alive && spec_overlaps(p.pos, p.spec_box(), s.pos, s.body.spec_box())
}

/// Number of live asteroids among the first `n` records that overlap
/// the player: the hit notifications one collision pass raises.
pub open spec fn count_player_hits_upto(p: Player, s: Seq<AsteroidSlot>, n: int) -> nat
    decreases n,
{
    if n <= 0 {
        0
    } else {
        count_player_hits_upto(p, s, n - 1) + if spec_hits_player(p, s[n - 1]) {
            1nat
        } else {
            0nat
        }
    }
}

/// Hit notifications raised over the whole asteroid registry.
pub open spec fn count_player_hits(p: Player, s: Seq<AsteroidSlot>) -> nat {
    count_player_hits_upto(p, s, s.len() as int)
}

/// At most one hit notification per asteroid record.
pub proof fn lemma_count_player_hits_bound(p: Player, s: Seq<AsteroidSlot>, n: int)
    requires
        0 <= n,
    ensures
        count_player_hits_upto(p, s, n) <= n,
    decreases n,
{
    if n > 0 {
        lemma_count_player_hits_bound(p, s, n - 1);
    }
}

/// Player-against-asteroid pass: every live asteroid whose hit-box
/// overlaps the player's is destroyed by collision, and one player-hit
/// notification is raised for each. Invincibility does not gate the
/// destruction: asteroids collide and are destroyed even while the
/// player is invincible; the life deduction downstream is what the
/// invincibility window suppresses.
pub fn check_player_collisions(round: &mut Round)
    requires
        old(round).wf(),
        old(round).hit_events + old(round).asteroids@.len() <= usize::MAX,
    ensures
        final(round).wf(),
        final(round).asteroids@.len() == old(round).asteroids@.len(),
        forall|i: int|
            0 <= i < old(round).asteroids@.len() ==> final(round).asteroids@[i] == (
            if spec_hits_player(old(round).player, old(round).asteroids@[i]) {
                old(round).asteroids@[i].destroyed(DestroyCause::Collision)
            } else {
                old(round).asteroids@[i]
            }),
        forall|i: int|
            0 <= i < old(round).asteroids@.len() && old(round).asteroids@[i].state is Destroyed
                ==> final(round).asteroids@[i] == old(round).asteroids@[i],
        final(round).hit_events == old(round).hit_events + count_player_hits(
            old(round).player,
            old(round).asteroids@,
        ),
        final(round).player == old(round).player,
        final(round).lasers == old(round).lasers,
        final(round).life_icons == old(round).life_icons,
        final(round).scoreboard == old(round).scoreboard,
        final(round).game_state == old(round).game_state,
        final(round).fire_events == old(round).fire_events,
        final(round).game_over_events == old(round).game_over_events,
{
    let n = round.asteroids.len();
    let player_pos = round.player.pos;
    let player_box = round.player.get_box();
    let mut i: usize = 0;
    while i < n
        invariant
            0 <= i <= n,
            n == round.asteroids@.len(),
            round.asteroids@.len() == old(round).asteroids@.len(),
            old(round).wf(),
            old(round).hit_events + old(round).asteroids@.len() <= usize::MAX,
            player_pos == old(round).player.pos,
            player_box == old(round).player.spec_box(),
            forall|j: int|
                0 <= j < i ==> round.asteroids@[j] == (
                if spec_hits_player(old(round).player, old(round).asteroids@[j]) {
                    old(round).asteroids@[j].destroyed(DestroyCause::Collision)
                } else {
                    old(round).asteroids@[j]
                }),
            forall|j: int| i <= j < n ==> round.asteroids@[j] == old(round).asteroids@[j],
            round.hit_events == old(round).hit_events + count_player_hits_upto(
                old(round).player,
                old(round).asteroids@,
                i as int,
            ),
            round.player == old(round).player,
            round.lasers == old(round).lasers,
            round.life_icons == old(round).life_icons,
            round.scoreboard == old(round).scoreboard,
            round.game_state == old(round).game_state,
            round.fire_events == old(round).fire_events,
            round.game_over_events == old(round).game_over_events,
        decreases n - i,
    {
        proof {
            lemma_count_player_hits_bound(old(round).player, old(round).asteroids@, i as int);
        }
        let s = round.asteroids[i];
        let hit = match s.state {
            EntityState::Alive => boxes_overlap(player_pos, player_box, s.pos, s.body.get_box()),
            EntityState::Destroyed(_) => false,
        };
        if hit {
            round.asteroids.set(i, AsteroidSlot {
                state: EntityState::Destroyed(DestroyCause::Collision),
                ..s
            });
            round.hit_events = round.hit_events + 1;
        }
        i = i + 1;
    }
    proof {
        assert forall|j: int| 0 <= j < round.asteroids@.len() implies (
        #[trigger] round.asteroids@[j]).wf() by {}
    }
}

/// The hit-box of a projectile, taken from its render scale.
pub open spec fn spec_laser_box() -> Vec2 {
    Vec2 { x: LASER_BOX, y: LASER_BOX }
}

/// Whether a live asteroid record and a live projectile record overlap.
pub open spec fn spec_pair_hit(a: AsteroidSlot, l: LaserSlot) -> bool {
    &&& a.state is Alive
    &&& l.state is Alive
    &&& spec_overlaps(a.pos, a.body.spec_box(), l.pos, spec_laser_box())
}

/// Number of live projectiles among the first `m` that overlap a given
/// asteroid record.
pub open spec fn count_laser_hits_upto(a: AsteroidSlot, ls: Seq<LaserSlot>, m: int) -> nat
    decreases m,
{
    if m <= 0 {
        0
    } else {
        count_laser_hits_upto(a, ls, m - 1) + if spec_pair_hit(a, ls[m - 1]) {
            1nat
        } else {
            0nat
        }
    }
}

/// Number of live projectiles overlapping a given asteroid record.
pub open spec fn count_laser_hits(a: AsteroidSlot, ls: Seq<LaserSlot>) -> nat {
    count_laser_hits_upto(a, ls, ls.len() as int)
}

/// Whether some live projectile overlaps this asteroid record.
pub open spec fn spec_asteroid_shot(a: AsteroidSlot, ls: Seq<LaserSlot>) -> bool {
    count_laser_hits(a, ls) > 0
}

/// Whether a projectile overlaps some live asteroid among the first `n`.
pub open spec fn spec_laser_spent_upto(l: LaserSlot, asts: Seq<AsteroidSlot>, n: int) -> bool
    decreases n,
{
    if n <= 0 {
        false
    } else {
        spec_laser_spent_upto(l, asts, n - 1) || spec_pair_hit(asts[n - 1], l)
    }
}

/// Whether a projectile overlaps some live asteroid.
pub open spec fn spec_laser_spent(l: LaserSlot, asts: Seq<AsteroidSlot>) -> bool {
    spec_laser_spent_upto(l, asts, asts.len() as int)
}

/// Points scored for one destroyed asteroid: its speed in world units,
/// truncated to an integer.
pub open spec fn spec_asteroid_points(a: Asteroid) -> nat {
    (a.speed / 1000) as nat
}

/// Total points one pass scores over the first `n` asteroid records:
/// each overlapping (asteroid, projectile) pair scores the asteroid's
/// truncated speed.
pub open spec fn total_points_upto(asts: Seq<AsteroidSlot>, ls: Seq<LaserSlot>, n: int) -> nat
    decreases n,
{
    if n <= 0 {
        0
    } else {
        total_points_upto(asts, ls, n - 1) + count_laser_hits(asts[n - 1], ls)
            * spec_asteroid_points(asts[n - 1].body)
    }
}

/// Total points one pass scores over the whole registry.
pub open spec fn total_points(asts: Seq<AsteroidSlot>, ls: Seq<LaserSlot>) -> nat {
    total_points_upto(asts, ls, asts.len() as int)
}

/// A dead asteroid pairs with nothing.
pub proof fn lemma_count_laser_hits_dead(a: AsteroidSlot, ls: Seq<LaserSlot>, m: int)
    requires
        !(a.state is Alive),
        0 <= m,
    ensures
        count_laser_hits_upto(a, ls, m) == 0,
    decreases m,
{
    if m > 0 {
        lemma_count_laser_hits_dead(a, ls, m - 1);
    }
}

/// Clamped addition folds: adding two amounts one after the other is
/// adding their sum.
pub proof fn lemma_sat_add_assoc(a: nat, b: nat, c: nat)
    ensures
        spec_sat_add(spec_sat_add(a, b), c) == spec_sat_add(a, b + c),
{
}

/// Projectile-against-asteroid pass over the records live at entry:
/// every overlapping pair adds the asteroid's truncated speed to the
/// score (clamped at the scoreboard's maximum) and destroys both
/// records. A projectile may score against several asteroids in the
/// same pass, and re-destroying a record is a no-op.
pub fn check_laser_collisions(round: &mut Round)
    requires
        old(round).wf(),
    ensures
        final(round).wf(),
        final(round).asteroids@.len() == old(round).asteroids@.len(),
        final(round).lasers@.len() == old(round).lasers@.len(),
        forall|i: int|
            0 <= i < old(round).asteroids@.len() ==> final(round).asteroids@[i] == (
            if spec_asteroid_shot(old(round).asteroids@[i], old(round).lasers@) {
                old(round).asteroids@[i].destroyed(DestroyCause::Collision)
            } else {
                old(round).asteroids@[i]
            }),
        forall|j: int|
            0 <= j < old(round).lasers@.len() ==> final(round).lasers@[j] == (
            if spec_laser_spent(old(round).lasers@[j], old(round).asteroids@) {
                old(round).lasers@[j].destroyed(DestroyCause::Collision)
            } else {
                old(round).lasers@[j]
            }),
        forall|i: int|
            0 <= i < old(round).asteroids@.len() && old(round).asteroids@[i].state is Destroyed
                ==> final(round).asteroids@[i] == old(round).asteroids@[i],
        forall|j: int|
            0 <= j < old(round).lasers@.len() && old(round).lasers@[j].state is Destroyed
                ==> final(round).lasers@[j] == old(round).lasers@[j],
        final(round).scoreboard.score == spec_sat_add(
            old(round).scoreboard.score as nat,
            total_points(old(round).asteroids@, old(round).lasers@),
        ),
        final(round).player == old(round).player,
        final(round).life_icons == old(round).life_icons,
        final(round).game_state == old(round).game_state,
        final(round).fire_events == old(round).fire_events,
        final(round).hit_events == old(round).hit_events,
        final(round).game_over_events == old(round).game_over_events,
{
    let an = round.asteroids.len();
    let ln = round.lasers.len();

    let mut laser_alive0: Vec<bool> = Vec::new();
    let mut j: usize = 0;
    while j < ln
        invariant
            0 <= j <= ln,
            ln == round.lasers@.len(),
            laser_alive0@.len() == j,
            forall|k: int|
                0 <= k < j ==> laser_alive0@[k] == (round.lasers@[k].state is Alive),
        decreases ln - j,
    {
        let alive = match round.lasers[j].state {
            EntityState::Alive => true,
            EntityState::Destroyed(_) => false,
        };
        laser_alive0.push(alive);
        j = j + 1;
    }

    let mut i: usize = 0;
    while i < an
        invariant
            0 <= i <= an,
            an == round.asteroids@.len(),
            ln == round.lasers@.len(),
            round.asteroids@.len() == old(round).asteroids@.len(),
            round.lasers@.len() == old(round).lasers@.len(),
            laser_alive0@.len() == ln,
            old(round).wf(),
            forall|k: int|
                0 <= k < ln ==> laser_alive0@[k] == (old(round).lasers@[k].state is Alive),
            forall|j2: int|
                0 <= j2 < i ==> round.asteroids@[j2] == (
                if spec_asteroid_shot(old(round).asteroids@[j2], old(round).lasers@) {
                    old(round).asteroids@[j2].destroyed(DestroyCause::Collision)
                } else {
                    old(round).asteroids@[j2]
                }),
            forall|j2: int| i <= j2 < an ==> round.asteroids@[j2] == old(round).asteroids@[j2],
            forall|k: int|
                0 <= k < ln ==> round.lasers@[k] == (
                if spec_laser_spent_upto(old(round).lasers@[k], old(round).asteroids@, i as int) {
                    old(round).lasers@[k].destroyed(DestroyCause::Collision)
                } else {
                    old(round).lasers@[k]
                }),
            round.scoreboard.score == spec_sat_add(
                old(round).scoreboard.score as nat,
                total_points_upto(old(round).asteroids@, old(round).lasers@, i as int),
            ),
            round.player == old(round).player,
            round.life_icons == old(round).life_icons,
            round.game_state == old(round).game_state,
            round.fire_events == old(round).fire_events,
            round.hit_events == old(round).hit_events,
            round.game_over_events == old(round).game_over_events,
        decreases an - i,
    {
        let s = round.asteroids[i];
        let alive = match s.state {
            EntityState::Alive => true,
            EntityState::Destroyed(_) => false,
        };
        if alive {
            let pts = (s.body.speed as u64 / 1000) as usize;
            proof {
                assert(pts == spec_asteroid_points(s.body));
            }
            let a_box = s.body.get_box();
            let l_box = Vec2 { x: LASER_BOX, y: LASER_BOX };
            let mut hits: usize = 0;
            let mut j2: usize = 0;
            while j2 < ln
                invariant
                    0 <= j2 <= ln,
                    an == round.asteroids@.len(),
                    ln == round.lasers@.len(),
                    round.asteroids@.len() == old(round).asteroids@.len(),
                    round.lasers@.len() == old(round).lasers@.len(),
                    laser_alive0@.len() == ln,
                    old(round).wf(),
                    0 <= i < an,
                    s == old(round).asteroids@[i as int],
                    s.state is Alive,
                    pts == spec_asteroid_points(s.body),
                    a_box == s.body.spec_box(),
                    l_box == spec_laser_box(),
                    forall|k: int|
                        0 <= k < ln ==> laser_alive0@[k] == (old(round).lasers@[k].state is Alive),
                    forall|j3: int|
                        0 <= j3 < an ==> round.asteroids@[j3] == (
                        if j3 < i && spec_asteroid_shot(
                            old(round).asteroids@[j3],
                            old(round).lasers@,
                        ) {
                            old(round).asteroids@[j3].destroyed(DestroyCause::Collision)
                        } else {
                            old(round).asteroids@[j3]
                        }),
                    forall|k: int|
                        0 <= k < ln ==> round.lasers@[k] == (
                        if spec_laser_spent_upto(
                            old(round).lasers@[k],
                            old(round).asteroids@,
                            i as int,
                        ) || (k < j2 && spec_pair_hit(
                            old(round).asteroids@[i as int],
                            old(round).lasers@[k],
                        )) {
                            old(round).lasers@[k].destroyed(DestroyCause::Collision)
                        } else {
                            old(round).lasers@[k]
                        }),
                    hits == count_laser_hits_upto(
                        old(round).asteroids@[i as int],
                        old(round).lasers@,
                        j2 as int,
                    ),
                    round.scoreboard.score == spec_sat_add(
                        old(round).scoreboard.score as nat,
                        total_points_upto(old(round).asteroids@, old(round).lasers@, i as int)
                            + (hits as nat) * (pts as nat),
                    ),
                    round.player == old(round).player,
                    round.life_icons == old(round).life_icons,
                    round.game_state == old(round).game_state,
                    round.fire_events == old(round).fire_events,
                    round.hit_events == old(round).hit_events,
                    round.game_over_events == old(round).game_over_events,
                decreases ln - j2,
            {
                proof {
                    lemma_count_laser_hits_upto_bound(
                        old(round).asteroids@[i as int],
                        old(round).lasers@,
                        j2 as int,
                    );
                }
                let l = round.lasers[j2];
                let was_alive = laser_alive0[j2];
                let pair = was_alive && boxes_overlap(s.pos, a_box, l.pos, l_box);
                proof {
                    assert(l.pos == old(round).lasers@[j2 as int].pos);
                    assert(pair == spec_pair_hit(
                        old(round).asteroids@[i as int],
                        old(round).lasers@[j2 as int],
                    ));
                }
                if pair {
                    let ghost old_hits = hits;
                    round.lasers.set(j2, LaserSlot {
                        state: EntityState::Destroyed(DestroyCause::Collision),
                        ..l
                    });
                    round.scoreboard.score = sat_add_usize(round.scoreboard.score, pts);
                    hits = hits + 1;
                    proof {
                        lemma_sat_add_assoc(
                            old(round).scoreboard.score as nat,
                            total_points_upto(
                                old(round).asteroids@,
                                old(round).lasers@,
                                i as int,
                            ) + (old_hits as nat) * (pts as nat),
                            pts as nat,
                        );
                        assert((old_hits + 1) * pts == old_hits * pts + pts) by (nonlinear_arith);
                        assert forall|k: int| 0 <= k < ln implies round.lasers@[k] == (
                        if spec_laser_spent_upto(
                            old(round).lasers@[k],
                            old(round).asteroids@,
                            i as int,
                        ) || (k < j2 + 1 && spec_pair_hit(
                            old(round).asteroids@[i as int],
                            old(round).lasers@[k],
                        )) {
                            old(round).lasers@[k].destroyed(DestroyCause::Collision)
                        } else {
                            old(round).lasers@[k]
                        }) by {
                            if k == j2 as int {
                                assert(round.lasers@[k] == old(round).lasers@[k].destroyed(
                                    DestroyCause::Collision,
                                ));
                            }
                        }
                    }
                }
                j2 = j2 + 1;
            }
            if hits > 0 {
                round.asteroids.set(i, AsteroidSlot {
                    state: EntityState::Destroyed(DestroyCause::Collision),
                    ..s
                });
            }
            proof {
                assert(count_laser_hits(old(round).asteroids@[i as int], old(round).lasers@)
                    == hits);
            }
        } else {
            proof {
                lemma_count_laser_hits_dead(
                    old(round).asteroids@[i as int],
                    old(round).lasers@,
                    old(round).lasers@.len() as int,
                );
            }
        }
        i = i + 1;
    }
    proof {
        assert forall|k: int| 0 <= k < round.asteroids@.len() implies (
        #[trigger] round.asteroids@[k]).wf() by {}
        assert forall|k: int| 0 <= k < round.lasers@.len() implies (
        #[trigger] round.lasers@[k]).wf() by {}
        assert forall|k: int|
            0 <= k < old(round).asteroids@.len() && old(
                round,
            ).asteroids@[k].state is Destroyed implies round.asteroids@[k] == old(
            round,
        ).asteroids@[k] by {
            lemma_count_laser_hits_dead(
                old(round).asteroids@[k],
                old(round).lasers@,
                old(round).lasers@.len() as int,
            );
        }
        assert forall|k: int|
            0 <= k < old(round).lasers@.len() && old(
                round,
            ).lasers@[k].state is Destroyed implies round.lasers@[k] == old(round).lasers@[k] by {
            lemma_laser_spent_dead(
                old(round).lasers@[k],
                old(round).asteroids@,
                old(round).asteroids@.len() as int,
            );
        }
    }
}

/// A dead projectile pairs with nothing.
pub proof fn lemma_laser_spent_dead(l: LaserSlot, asts: Seq<AsteroidSlot>, n: int)
    requires
        !(l.state is Alive),
        0 <= n,
    ensures
        !spec_laser_spent_upto(l, asts, n),
    decreases n,
{
    if n > 0 {
        lemma_laser_spent_dead(l, asts, n - 1);
    }
}

/// The collision passes destroy only live records: a record a pass
/// destroys was alive when the pass began, so a record destroyed as
/// out-of-bounds is never also destroyed by collision — exactly one
/// cause ever applies.
pub proof fn lemma_collision_destroys_only_live(
    a: AsteroidSlot,
    ls: Seq<LaserSlot>,
    l: LaserSlot,
    asts: Seq<AsteroidSlot>,
    p: Player,
)
    ensures
        spec_hits_player(p, a) ==> a.state is Alive,
        spec_asteroid_shot(a, ls) ==> a.state is Alive,
        spec_laser_spent(l, asts) ==> l.state is Alive,
{
    if !(a.state is Alive) {
        lemma_count_laser_hits_dead(a, ls, ls.len() as int);
    }
    if !(l.state is Alive) {
        lemma_laser_spent_dead(l, asts, asts.len() as int);
    }
}

/// Pair hits among a prefix never exceed the prefix length.
pub proof fn lemma_count_laser_hits_upto_bound(a: AsteroidSlot, ls: Seq<LaserSlot>, m: int)
    requires
        0 <= m,
    ensures
        count_laser_hits_upto(a, ls, m) <= m,
    decreases m,
{
    if m > 0 {
        lemma_count_laser_hits_upto_bound(a, ls, m - 1);
    }
}

} // verus!
