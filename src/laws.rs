use vstd::prelude::*;

use crate::constants::{
    COIN_SCORE, INVINCIBILITY_SCORE_DURATION, MISSILE_DESTROY_SCORE, OBSTACLE_SPAWN_RATE_MIN,
    OTTER_HEIGHT, OTTER_MIN_Y, SCORE_PER_FRAME, SCREEN_HEIGHT,
};
use crate::entities::{Coin, Fish, Missile, MissileState};
use crate::game::{
    advanced_coins, advanced_fish, advanced_missiles, coin_hit, coin_hits, fish_hit, missile_hit,
    missile_hits, spawn_rate_for, GameState, GameView, SpawnRolls,
};

verus! {

proof fn lemma_advanced_lengths(ms: Seq<Missile>, cs: Seq<Coin>, fs: Seq<Fish>)
    ensures
        advanced_missiles(ms).len() <= ms.len(),
        advanced_coins(cs).len() <= cs.len(),
        advanced_fish(fs).len() <= fs.len(),
    decreases ms.len() + cs.len() + fs.len(),
{
    if ms.len() > 0 {
        lemma_advanced_lengths(ms.drop_last(), cs, fs);
    }
    if cs.len() > 0 {
        lemma_advanced_lengths(ms, cs.drop_last(), fs);
    }
    if fs.len() > 0 {
        lemma_advanced_lengths(ms, cs, fs.drop_last());
    }
}

proof fn lemma_missile_hits_update(
    s: Seq<Missile>,
    rect: (i32, i32, u32, u32),
    i: nat,
    j: int,
    m: Missile,
)
    requires
        0 <= j < i,
        j < s.len(),
    ensures
        missile_hits(s.update(j, m), rect, i) == missile_hits(s, rect, i),
    decreases s.len() - i,
{
    if i < s.len() {
        lemma_missile_hits_update(s, rect, i + 1, j, m);
    }
}

proof fn lemma_missile_hits_bound(s: Seq<Missile>, rect: (i32, i32, u32, u32), i: nat)
    requires
        i <= s.len(),
    ensures
        missile_hits(s, rect, i) <= s.len() - i,
    decreases s.len() - i,
{
    if i < s.len() {
        lemma_missile_hits_bound(s, rect, i + 1);
    }
}

proof fn lemma_coin_hits_update(s: Seq<Coin>, rect: (i32, i32, u32, u32), i: nat, j: int, c: Coin)
    requires
        0 <= j < i,
        j < s.len(),
    ensures
        coin_hits(s.update(j, c), rect, i) == coin_hits(s, rect, i),
    decreases s.len() - i,
{
    if i < s.len() {
        lemma_coin_hits_update(s, rect, i + 1, j, c);
    }
}

proof fn lemma_coin_hits_bound(s: Seq<Coin>, rect: (i32, i32, u32, u32), i: nat)
    requires
        i <= s.len(),
    ensures
        coin_hits(s, rect, i) <= s.len() - i,
    decreases s.len() - i,
{
    if i < s.len() {
        lemma_coin_hits_bound(s, rect, i + 1);
    }
}

proof fn lemma_missile_hit_counted(s: Seq<Missile>, rect: (i32, i32, u32, u32), i: nat, k: int)
    requires
        i <= k < s.len(),
        missile_hit(rect, s[k]),
    ensures
        missile_hits(s, rect, i) > 0,
    decreases k - i,
{
    if i < k {
        lemma_missile_hit_counted(s, rect, i + 1, k);
    }
}

proof fn lemma_resolve_missiles(g: GameView, rect: (i32, i32, u32, u32), i: nat)
    requires
        i <= g.missiles.len(),
        g.score + MISSILE_DESTROY_SCORE * (g.missiles.len() - i) <= u32::MAX,
    ensures
        ({
            let r = g.resolve_missiles(rect, i);
            let hits = missile_hits(g.missiles, rect, i);
            &&& r.otter == g.otter
            &&& r.coins == g.coins
            &&& r.fish == g.fish
            &&& r.invincibility_check_score == g.invincibility_check_score
            &&& r.missiles.len() == g.missiles.len()
            &&& forall|k: int| 0 <= k < i ==> #[trigger] r.missiles[k] == g.missiles[k]
            &&& hits == 0 ==> r == g
            &&& g.otter.is_invincible ==> {
                &&& r.state == g.state
                &&& r.high_score == g.high_score
                &&& r.score == g.score + MISSILE_DESTROY_SCORE * hits
                &&& forall|k: int|
                    i <= k < g.missiles.len() ==> #[trigger] r.missiles[k] == if missile_hit(
                        rect,
                        g.missiles[k],
                    ) {
                        g.missiles[k].exploded()
                    } else {
                        g.missiles[k]
                    }
            }
            &&& !g.otter.is_invincible && hits > 0 ==> {
                &&& r.state == GameState::GameOver
                &&& r.score == g.score
                &&& r.high_score == if g.score > g.high_score {
                    g.score
                } else {
                    g.high_score
                }
            }
        }),
    decreases g.missiles.len() - i,
{
    if i < g.missiles.len() {
        lemma_missile_hits_update(g.missiles, rect, i + 1, i as int, g.missiles[i as int].exploded());
        if missile_hit(rect, g.missiles[i as int]) {
            if g.otter.is_invincible {
                let n = GameView {
                    missiles: g.missiles.update(i as int, g.missiles[i as int].exploded()),
                    pending_sounds: g.pending_sounds.push(crate::game::SoundEffect::Boom),
                    score: (g.score + MISSILE_DESTROY_SCORE) as u32,
                    ..g
                };
                lemma_resolve_missiles(n, rect, i + 1);
            }
        } else {
            lemma_resolve_missiles(g, rect, i + 1);
        }
    }
}

proof fn lemma_resolve_coins(g: GameView, rect: (i32, i32, u32, u32), i: nat)
    requires
        i <= g.coins.len(),
        g.score + COIN_SCORE * (g.coins.len() - i) <= u32::MAX,
    ensures
        ({
            let r = g.resolve_coins(rect, i);
            &&& r.score == g.score + COIN_SCORE * coin_hits(g.coins, rect, i)
            &&& r.otter == g.otter
            &&& r.missiles == g.missiles
            &&& r.fish == g.fish
            &&& r.state == g.state
            &&& r.high_score == g.high_score
            &&& r.invincibility_check_score == g.invincibility_check_score
        }),
    decreases g.coins.len() - i,
{
    if i < g.coins.len() {
        let c = Coin { collected: true, ..g.coins[i as int] };
        lemma_coin_hits_update(g.coins, rect, i + 1, i as int, c);
        if coin_hit(rect, g.coins[i as int]) {
            let n = GameView {
                coins: g.coins.update(i as int, c),
                score: (g.score + COIN_SCORE) as u32,
                pending_sounds: g.pending_sounds.push(crate::game::SoundEffect::Coin),
                ..g
            };
            lemma_resolve_coins(n, rect, i + 1);
        } else {
            lemma_resolve_coins(g, rect, i + 1);
        }
    }
}

proof fn lemma_resolve_fish(g: GameView, rect: (i32, i32, u32, u32), i: nat)
    requires
        i <= g.fish.len(),
    ensures
        ({
            let r = g.resolve_fish(rect, i);
            &&& r.score == g.score
            &&& r.state == g.state
            &&& r.high_score == g.high_score
            &&& r.missiles == g.missiles
            &&& r.otter.y == g.otter.y
            &&& g.otter.is_invincible ==> r.otter.is_invincible
            &&& (forall|k: int| i <= k < g.fish.len() ==> !fish_hit(rect, #[trigger] g.fish[k]))
                ==> r == g
            &&& (exists|k: int| i <= k < g.fish.len() && fish_hit(rect, #[trigger] g.fish[k]))
                ==> r.otter.is_invincible && r.invincibility_check_score == Some(
                (g.score + INVINCIBILITY_SCORE_DURATION) as u32,
            )
        }),
    decreases g.fish.len() - i,
{
    if i < g.fish.len() {
        if fish_hit(rect, g.fish[i as int]) {
            let n = GameView {
                fish: g.fish.update(i as int, Fish { active: false, ..g.fish[i as int] }),
                otter: g.otter.invincible(),
                invincibility_check_score: Some((g.score + INVINCIBILITY_SCORE_DURATION) as u32),
                pending_sounds: g.pending_sounds.push(crate::game::SoundEffect::Powerup),
                ..g
            };
            lemma_resolve_fish(n, rect, i + 1);
            if !(exists|k: int| i + 1 <= k < n.fish.len() && fish_hit(rect, #[trigger] n.fish[k])) {
                assert(g.resolve_fish(rect, i) == n);
            }
        } else {
            lemma_resolve_fish(g, rect, i + 1);
            if exists|k: int| i <= k < g.fish.len() && fish_hit(rect, #[trigger] g.fish[k]) {
                let k = choose|k: int| i <= k < g.fish.len() && fish_hit(rect, #[trigger] g.fish[k]);
                assert(i + 1 <= k);
            }
        }
    }
}

/// The state at the collision phase, with its hit counts, within the bounds a tick may reach.
proof fn lemma_collision_setup(g: GameView, r: SpawnRolls)
    requires
        g.state == GameState::Playing,
        g.can_tick(),
    ensures
        ({
            let m = g.before_collisions(r);
            let rect = m.otter.collision_rect();
            &&& m.state == GameState::Playing
            &&& m.score == g.score + SCORE_PER_FRAME
            &&& m.high_score == g.high_score
            &&& m.otter.is_invincible == g.scored().otter.is_invincible
            &&& m.invincibility_check_score == g.scored().invincibility_check_score
            &&& OTTER_MIN_Y <= m.otter.y <= SCREEN_HEIGHT - OTTER_HEIGHT
            &&& m.score + MISSILE_DESTROY_SCORE * m.missiles.len() + COIN_SCORE * m.coins.len()
                + INVINCIBILITY_SCORE_DURATION <= u32::MAX
            &&& missile_hits(m.missiles, rect, 0) <= m.missiles.len()
            &&& coin_hits(m.coins, rect, 0) <= m.coins.len()
        }),
{
    let m = g.before_collisions(r);
    let rect = m.otter.collision_rect();
    lemma_advanced_lengths(g.missiles, g.coins, g.fish);
    lemma_missile_hits_bound(m.missiles, rect, 0);
    lemma_coin_hits_bound(m.coins, rect, 0);
}

/// A tick ends the game exactly when the otter, vulnerable at the collision
/// phase, touches a flying missile.
pub open spec fn fatal_hit(g: GameView, r: SpawnRolls) -> bool {
    let m = g.before_collisions(r);
    !m.otter.is_invincible && missile_hits(m.missiles, m.otter.collision_rect(), 0) > 0
}

/// Summary of one playing tick, phase by phase.
proof fn lemma_tick(g: GameView, r: SpawnRolls)
    requires
        g.state == GameState::Playing,
        g.can_tick(),
    ensures
        ({
            let m = g.before_collisions(r);
            let rect = m.otter.collision_rect();
            let t = g.ticked(r);
            let hits = missile_hits(m.missiles, rect, 0);
            &&& m.score == g.score + SCORE_PER_FRAME
            &&& OTTER_MIN_Y <= m.otter.y <= SCREEN_HEIGHT - OTTER_HEIGHT
            &&& t.otter.y == m.otter.y
            &&& t.obstacle_spawn_rate == spawn_rate_for(t.score)
            &&& fatal_hit(g, r) ==> {
                &&& t.state == GameState::GameOver
                &&& t.score == m.score
                &&& t.high_score == if m.score > g.high_score {
                    m.score
                } else {
                    g.high_score
                }
                &&& t.otter == m.otter
                &&& t.invincibility_check_score == m.invincibility_check_score
            }
            &&& !fatal_hit(g, r) ==> {
                &&& t.state == GameState::Playing
                &&& t.score == m.score + MISSILE_DESTROY_SCORE * hits + COIN_SCORE * coin_hits(
                    m.coins,
                    rect,
                    0,
                )
                &&& t.high_score == g.high_score
                &&& m.otter.is_invincible ==> t.otter.is_invincible
                &&& (m.otter.is_invincible ==> forall|k: int|
                    0 <= k < m.missiles.len() && missile_hit(rect, m.missiles[k])
                        ==> #[trigger] t.missiles[k] == m.missiles[k].exploded())
                &&& (forall|k: int| 0 <= k < m.fish.len() ==> !fish_hit(rect, #[trigger] m.fish[k]))
                    ==> t.otter == m.otter && t.invincibility_check_score
                    == m.invincibility_check_score
                &&& (exists|k: int| 0 <= k < m.fish.len() && fish_hit(rect, #[trigger] m.fish[k]))
                    ==> t.otter.is_invincible && t.invincibility_check_score == Some(
                    (t.score + INVINCIBILITY_SCORE_DURATION) as u32,
                ) && t.score + INVINCIBILITY_SCORE_DURATION <= u32::MAX
            }
        }),
{
    lemma_collision_setup(g, r);
    let m = g.before_collisions(r);
    let rect = m.otter.collision_rect();
    lemma_resolve_missiles(m, rect, 0);
    let g1 = m.resolve_missiles(rect, 0);
    if g1.state != GameState::GameOver {
        lemma_resolve_coins(g1, rect, 0);
        let g2 = g1.resolve_coins(rect, 0);
        lemma_resolve_fish(g2, rect, 0);
    }
}

/// Through every playing tick the otter stays between the top limit and the
/// bottom of the screen.
pub proof fn lemma_tick_keeps_otter_in_field(g: GameView, r: SpawnRolls)
    requires
        g.state == GameState::Playing,
        g.can_tick(),
    ensures
        OTTER_MIN_Y <= g.ticked(r).otter.y <= SCREEN_HEIGHT - OTTER_HEIGHT,
{
    lemma_tick(g, r);
}

/// When no flying missile touches the otter, a tick adds the per-tick score and
/// one coin bonus for each coin the otter touches.
pub proof fn lemma_coins_add_to_score(g: GameView, r: SpawnRolls)
    requires
        g.state == GameState::Playing,
        g.can_tick(),
        ({
            let m = g.before_collisions(r);
            missile_hits(m.missiles, m.otter.collision_rect(), 0) == 0
        }),
    ensures
        ({
            let m = g.before_collisions(r);
            g.ticked(r).score == g.score + SCORE_PER_FRAME + COIN_SCORE * coin_hits(
                m.coins,
                m.otter.collision_rect(),
                0,
            )
        }),
{
    lemma_tick(g, r);
}

/// Eating a fish, on a tick the game survives, leaves the otter invincible until
/// the score has grown by the invincibility duration past its value after the tick.
pub proof fn lemma_fish_grants_invincibility(g: GameView, r: SpawnRolls, k: int)
    requires
        g.state == GameState::Playing,
        g.can_tick(),
        !fatal_hit(g, r),
        0 <= k < g.before_collisions(r).fish.len(),
        fish_hit(
            g.before_collisions(r).otter.collision_rect(),
            g.before_collisions(r).fish[k],
        ),
    ensures
        g.ticked(r).otter.is_invincible,
        g.ticked(r).invincibility_check_score == Some(
            (g.ticked(r).score + INVINCIBILITY_SCORE_DURATION) as u32,
        ),
        g.ticked(r).score + INVINCIBILITY_SCORE_DURATION <= u32::MAX,
{
    lemma_tick(g, r);
    let m = g.before_collisions(r);
    assert(fish_hit(m.otter.collision_rect(), m.fish[k]));
}

/// Invincibility with threshold `c` lasts through a tick whose score stays below
/// `c`, and ends on the first tick whose score reaches `c`, unless a fish is
/// eaten on that very tick.
pub proof fn lemma_invincibility_expiry(g: GameView, r: SpawnRolls, c: u32)
    requires
        g.state == GameState::Playing,
        g.can_tick(),
        g.otter.is_invincible,
        g.invincibility_check_score == Some(c),
    ensures
        g.score + SCORE_PER_FRAME < c ==> g.ticked(r).otter.is_invincible && g.ticked(r).state
            == GameState::Playing,
        ({
            let m = g.before_collisions(r);
            g.score + SCORE_PER_FRAME >= c && (forall|k: int|
                0 <= k < m.fish.len() ==> !fish_hit(m.otter.collision_rect(), #[trigger] m.fish[k]))
                ==> !g.ticked(r).otter.is_invincible && g.ticked(r).invincibility_check_score is None
        }),
{
    lemma_tick(g, r);
}

/// A flying missile touching the vulnerable otter ends the game, and the high
/// score becomes the larger of itself and the score.
pub proof fn lemma_missile_ends_game(g: GameView, r: SpawnRolls, k: int)
    requires
        g.state == GameState::Playing,
        g.can_tick(),
        !g.before_collisions(r).otter.is_invincible,
        0 <= k < g.before_collisions(r).missiles.len(),
        missile_hit(
            g.before_collisions(r).otter.collision_rect(),
            g.before_collisions(r).missiles[k],
        ),
    ensures
        g.ticked(r).state == GameState::GameOver,
        g.ticked(r).score == g.score + SCORE_PER_FRAME,
        g.ticked(r).high_score == if g.ticked(r).score > g.high_score {
            g.ticked(r).score
        } else {
            g.high_score
        },
{
    let m = g.before_collisions(r);
    lemma_missile_hit_counted(m.missiles, m.otter.collision_rect(), 0, k);
    lemma_tick(g, r);
}

/// A flying missile touching the invincible otter explodes and earns the
/// destruction bonus; the game goes on.
pub proof fn lemma_invincible_otter_destroys_missile(g: GameView, r: SpawnRolls, k: int)
    requires
        g.state == GameState::Playing,
        g.can_tick(),
        g.before_collisions(r).otter.is_invincible,
        0 <= k < g.before_collisions(r).missiles.len(),
        missile_hit(
            g.before_collisions(r).otter.collision_rect(),
            g.before_collisions(r).missiles[k],
        ),
    ensures
        ({
            let m = g.before_collisions(r);
            let rect = m.otter.collision_rect();
            let t = g.ticked(r);
            &&& t.state == GameState::Playing
            &&& t.missiles[k].state == MissileState::Exploding
            &&& missile_hits(m.missiles, rect, 0) >= 1
            &&& t.score == g.score + SCORE_PER_FRAME + MISSILE_DESTROY_SCORE * missile_hits(
                m.missiles,
                rect,
                0,
            ) + COIN_SCORE * coin_hits(m.coins, rect, 0)
        }),
{
    let m = g.before_collisions(r);
    lemma_missile_hit_counted(m.missiles, m.otter.collision_rect(), 0, k);
    lemma_tick(g, r);
    assert(g.ticked(r).missiles[k] == m.missiles[k].exploded());
}

/// The spawn rate never rises as the score rises, and never drops below the floor.
pub proof fn lemma_spawn_rate_monotone(lower: u32, higher: u32)
    requires
        lower <= higher,
    ensures
        spawn_rate_for(higher) <= spawn_rate_for(lower),
        spawn_rate_for(higher) >= OBSTACLE_SPAWN_RATE_MIN,
{
}

/// Of two playing ticks, the one that ends at the higher score leaves the lower
/// or equal spawn rate, and neither goes below the floor.
pub proof fn lemma_difficulty_monotone(g1: GameView, r1: SpawnRolls, g2: GameView, r2: SpawnRolls)
    requires
        g1.state == GameState::Playing,
        g1.can_tick(),
        g2.state == GameState::Playing,
        g2.can_tick(),
        g1.ticked(r1).score <= g2.ticked(r2).score,
    ensures
        g2.ticked(r2).obstacle_spawn_rate <= g1.ticked(r1).obstacle_spawn_rate,
        g2.ticked(r2).obstacle_spawn_rate >= OBSTACLE_SPAWN_RATE_MIN,
        g1.ticked(r1).obstacle_spawn_rate >= OBSTACLE_SPAWN_RATE_MIN,
{
    lemma_tick(g1, r1);
    lemma_tick(g2, r2);
    lemma_spawn_rate_monotone(g1.ticked(r1).score, g2.ticked(r2).score);
    lemma_spawn_rate_monotone(g1.ticked(r1).score, g1.ticked(r1).score);
}

/// The otter is invincible exactly while an expiry threshold is set, and every
/// tick keeps it so.
pub proof fn lemma_tick_keeps_invincibility_tracked(g: GameView, r: SpawnRolls)
    requires
        g.can_tick(),
        g.invincibility_tracked(),
    ensures
        g.ticked(r).invincibility_tracked(),
{
    if g.state == GameState::Playing {
        lemma_tick(g, r);
        let m = g.before_collisions(r);
        let rect = m.otter.collision_rect();
        if !fatal_hit(g, r) {
            if !(exists|k: int| 0 <= k < m.fish.len() && fish_hit(rect, #[trigger] m.fish[k])) {
                assert(forall|k: int| 0 <= k < m.fish.len() ==> !fish_hit(rect, #[trigger] m.fish[k]));
            }
        }
    }
}

/// The high score never falls, and it changes only on the tick that ends the game.
pub proof fn lemma_high_score_only_rises(g: GameView, r: SpawnRolls)
    requires
        g.can_tick(),
    ensures
        g.ticked(r).high_score >= g.high_score,
        g.ticked(r).high_score != g.high_score ==> g.ticked(r).state == GameState::GameOver,
{
    if g.state == GameState::Playing {
        lemma_tick(g, r);
    }
}

} // verus!
