use vstd::prelude::*;

use rand::Rng;

use crate::constants::{
    COIN_SCORE, COIN_SPAWN_CHANCE, COIN_VELOCITY_X_WATER, COIN_VELOCITY_Y, COIN_WATER_THRESHOLD,
    FISH_VELOCITY_X, MISSILE_VELOCITY_X, COIN_SPAWN_X_END, COIN_SPAWN_X_MIN, FISH_SPAWN_CHANCE,
    FISH_SPAWN_Y_END, FISH_SPAWN_Y_MIN, INVINCIBILITY_SCORE_DURATION, MISSILE_DESTROY_SCORE,
    MISSILE_SPAWN_Y_END, MISSILE_SPAWN_Y_MIN, OBSTACLE_SPAWN_RATE_MIN, OBSTACLE_SPAWN_RATE_START,
    OBSTACLE_TIMER_STEP, SCORE_PER_FRAME, SPAWN_ROLL_RANGE,
};
use crate::entities::{Coin, Fish, Missile, MissileState, Otter};
use crate::geometry::{rects_collide, rects_overlap};

verus! {

/// Top-level screen of the game.
#[derive(Clone, Copy, Debug, PartialEq, Eq, Structural)]
pub enum GameState {
    Menu,
    Playing,
    GameOver,
}

/// Sound effects the front end should play.
#[derive(Clone, Copy, Debug, PartialEq, Eq, Hash, Structural)]
pub enum SoundEffect {
    Coin,
    Powerup,
    Boom,
}

/// Relies on `rand::Rng::gen_range` on `rand::thread_rng()`: a value drawn from
/// `lo..hi`. It panics on an empty range, hence `lo < hi`.
#[verifier::external_body]
fn random_in(lo: i32, hi: i32) -> (r: i32)
    requires
        lo < hi,
    ensures
        lo <= r < hi,
{
    rand::thread_rng().gen_range(lo..hi)
}

/// The random draws one tick of the spawner consumes.
#[derive(Clone, Copy, Debug)]
pub struct SpawnRolls {
    /// Height of a missile, should one be due.
    pub missile_y: i32,
    /// A coin spawns when this is below `COIN_SPAWN_CHANCE`.
    pub coin_roll: i32,
    /// Column of a new coin.
    pub coin_x: i32,
    /// A fish spawns when this is below `FISH_SPAWN_CHANCE`.
    pub fish_roll: i32,
    /// Height of a new fish.
    pub fish_y: i32,
}

impl SpawnRolls {
    /// Every draw lies in its band.
    pub open spec fn in_range(self) -> bool {
        &&& MISSILE_SPAWN_Y_MIN <= self.missile_y < MISSILE_SPAWN_Y_END
        &&& 0 <= self.coin_roll < SPAWN_ROLL_RANGE
        &&& COIN_SPAWN_X_MIN <= self.coin_x < COIN_SPAWN_X_END
        &&& 0 <= self.fish_roll < SPAWN_ROLL_RANGE
        &&& FISH_SPAWN_Y_MIN <= self.fish_y < FISH_SPAWN_Y_END
    }

    /// Draws one tick's worth of spawn decisions from the thread's generator.
    pub fn draw() -> (r: SpawnRolls)
        ensures
            r.in_range(),
    {
        SpawnRolls {
            missile_y: random_in(MISSILE_SPAWN_Y_MIN, MISSILE_SPAWN_Y_END),
            coin_roll: random_in(0, SPAWN_ROLL_RANGE),
            coin_x: random_in(COIN_SPAWN_X_MIN, COIN_SPAWN_X_END),
            fish_roll: random_in(0, SPAWN_ROLL_RANGE),
            fish_y: random_in(FISH_SPAWN_Y_MIN, FISH_SPAWN_Y_END),
        }
    }
}

/// Missiles after one step, without those that went inactive.
pub open spec fn advanced_missiles(s: Seq<Missile>) -> Seq<Missile>
    decreases s.len(),
{
    if s.len() == 0 {
        s
    } else {
        let rest = advanced_missiles(s.drop_last());
        let m = s.last().next();
        if m.active {
            rest.push(m)
        } else {
            rest
        }
    }
}

/// Coins after one step, without those that went inactive or were collected.
pub open spec fn advanced_coins(s: Seq<Coin>) -> Seq<Coin>
    decreases s.len(),
{
    if s.len() == 0 {
        s
    } else {
        let rest = advanced_coins(s.drop_last());
        let c = s.last().next();
        if c.active && !c.collected {
            rest.push(c)
        } else {
            rest
        }
    }
}

/// Fish after one step, without those that went inactive.
pub open spec fn advanced_fish(s: Seq<Fish>) -> Seq<Fish>
    decreases s.len(),
{
    if s.len() == 0 {
        s
    } else {
        let rest = advanced_fish(s.drop_last());
        let f = s.last().next();
        if f.active {
            rest.push(f)
        } else {
            rest
        }
    }
}

/// A flying missile that touches the otter's hitbox `rect`.
pub open spec fn missile_hit(rect: (i32, i32, u32, u32), m: Missile) -> bool {
    m.state == MissileState::Shooting && rects_overlap(rect, m.collision_rect())
}

/// A coin not yet collected that touches the otter's hitbox `rect`.
pub open spec fn coin_hit(rect: (i32, i32, u32, u32), c: Coin) -> bool {
    !c.collected && rects_overlap(rect, c.collision_rect())
}

/// An active fish that touches the otter's hitbox `rect`.
pub open spec fn fish_hit(rect: (i32, i32, u32, u32), f: Fish) -> bool {
    f.active && rects_overlap(rect, f.collision_rect())
}

/// Number of missiles from index `i` on that hit `rect`.
pub open spec fn missile_hits(s: Seq<Missile>, rect: (i32, i32, u32, u32), i: nat) -> nat
    decreases s.len() - i,
{
    if i >= s.len() {
        0
    } else {
        (if missile_hit(rect, s[i as int]) {
            1nat
        } else {
            0nat
        }) + missile_hits(s, rect, i + 1)
    }
}

/// Number of coins from index `i` on that hit `rect`.
pub open spec fn coin_hits(s: Seq<Coin>, rect: (i32, i32, u32, u32), i: nat) -> nat
    decreases s.len() - i,
{
    if i >= s.len() {
        0
    } else {
        (if coin_hit(rect, s[i as int]) {
            1nat
        } else {
            0nat
        }) + coin_hits(s, rect, i + 1)
    }
}

/// Missile spawn rate, in hundredths of a tick, that a score calls for:
/// it drops by one tick per hundred points down to the floor.
pub open spec fn spawn_rate_for(score: u32) -> u32 {
    if score < OBSTACLE_SPAWN_RATE_START - OBSTACLE_SPAWN_RATE_MIN {
        (OBSTACLE_SPAWN_RATE_START - score) as u32
    } else {
        OBSTACLE_SPAWN_RATE_MIN
    }
}

/// Decimal digits of `n`, most significant first; zero has the one digit 0.
pub open spec fn decimal_digits(n: nat) -> Seq<u8>
    decreases n,
{
    if n < 10 {
        seq![n as u8]
    } else {
        decimal_digits(n / 10).push((n % 10) as u8)
    }
}

/// The state of a game, with its collections as sequences.
#[verifier::ext_equal]
pub struct GameView {
    pub state: GameState,
    pub otter: Otter,
    pub missiles: Seq<Missile>,
    pub coins: Seq<Coin>,
    pub fish: Seq<Fish>,
    pub score: u32,
    pub high_score: u32,
    pub obstacle_timer: u32,
    pub obstacle_spawn_rate: u32,
    pub invincibility_check_score: Option<u32>,
    pub pending_sounds: Seq<SoundEffect>,
}

impl GameView {
    /// A fresh game, on the menu.
    pub open spec fn initial() -> GameView {
        GameView {
            state: GameState::Menu,
            otter: Otter::initial(),
            missiles: Seq::empty(),
            coins: Seq::empty(),
            fish: Seq::empty(),
            score: 0,
            high_score: 0,
            obstacle_timer: 0,
            obstacle_spawn_rate: OBSTACLE_SPAWN_RATE_START,
            invincibility_check_score: None,
            pending_sounds: Seq::empty(),
        }
    }

    /// A new round: everything starts over but the high score.
    pub open spec fn restarted(self) -> GameView {
        GameView { state: GameState::Playing, high_score: self.high_score, ..GameView::initial() }
    }

    /// The otter is invincible exactly while an expiry threshold is set.
    pub open spec fn invincibility_tracked(self) -> bool {
        self.otter.is_invincible <==> self.invincibility_check_score is Some
    }

    /// This tick's score reaches the invincibility threshold.
    pub open spec fn invincibility_expires(self) -> bool {
        self.otter.is_invincible && match self.invincibility_check_score {
            Some(c) => self.score + SCORE_PER_FRAME >= c,
            None => false,
        }
    }

    /// First phase of a tick: the per-tick score, then the invincibility check.
    pub open spec fn scored(self) -> GameView {
        let expires = self.invincibility_expires();
        GameView {
            score: (self.score + SCORE_PER_FRAME) as u32,
            otter: if expires {
                self.otter.vulnerable()
            } else {
                self.otter
            },
            invincibility_check_score: if expires {
                None
            } else {
                self.invincibility_check_score
            },
            ..self
        }
    }

    /// Second phase: everything moves; what left the field is dropped.
    pub open spec fn moved(self) -> GameView {
        GameView {
            otter: self.otter.next(),
            missiles: advanced_missiles(self.missiles),
            coins: advanced_coins(self.coins),
            fish: advanced_fish(self.fish),
            ..self
        }
    }

    /// The missile timer has run past the spawn rate after this tick's step.
    pub open spec fn missile_due(self) -> bool {
        self.obstacle_timer + OBSTACLE_TIMER_STEP > self.obstacle_spawn_rate
    }

    /// Third phase: new entities appear as the rolls decide.
    pub open spec fn spawned(self, r: SpawnRolls) -> GameView {
        GameView {
            obstacle_timer: if self.missile_due() {
                0
            } else {
                (self.obstacle_timer + OBSTACLE_TIMER_STEP) as u32
            },
            missiles: if self.missile_due() {
                self.missiles.push(Missile::spawned(r.missile_y))
            } else {
                self.missiles
            },
            coins: if r.coin_roll < COIN_SPAWN_CHANCE {
                self.coins.push(Coin::spawned(r.coin_x))
            } else {
                self.coins
            },
            fish: if r.fish_roll < FISH_SPAWN_CHANCE {
                self.fish.push(Fish::spawned(r.fish_y))
            } else {
                self.fish
            },
            ..self
        }
    }

    /// Missile collisions from index `i` on. While invincible each hit explodes the
    /// missile for a bonus; otherwise the first hit explodes it and ends the game.
    pub open spec fn resolve_missiles(self, rect: (i32, i32, u32, u32), i: nat) -> GameView
        decreases self.missiles.len() - i,
    {
        if i >= self.missiles.len() {
            self
        } else if missile_hit(rect, self.missiles[i as int]) {
            let g = GameView {
                missiles: self.missiles.update(i as int, self.missiles[i as int].exploded()),
                pending_sounds: self.pending_sounds.push(SoundEffect::Boom),
                ..self
            };
            if self.otter.is_invincible {
                GameView { score: (self.score + MISSILE_DESTROY_SCORE) as u32, ..g }.resolve_missiles(
                    rect,
                    i + 1,
                )
            } else {
                GameView {
                    high_score: if self.score > self.high_score {
                        self.score
                    } else {
                        self.high_score
                    },
                    state: GameState::GameOver,
                    ..g
                }
            }
        } else {
            self.resolve_missiles(rect, i + 1)
        }
    }

    /// Coin collisions from index `i` on: each one touched is collected.
    pub open spec fn resolve_coins(self, rect: (i32, i32, u32, u32), i: nat) -> GameView
        decreases self.coins.len() - i,
    {
        if i >= self.coins.len() {
            self
        } else if coin_hit(rect, self.coins[i as int]) {
            GameView {
                coins: self.coins.update(i as int, Coin { collected: true, ..self.coins[i as int] }),
                score: (self.score + COIN_SCORE) as u32,
                pending_sounds: self.pending_sounds.push(SoundEffect::Coin),
                ..self
            }.resolve_coins(rect, i + 1)
        } else {
            self.resolve_coins(rect, i + 1)
        }
    }

    /// Fish collisions from index `i` on: each one touched is eaten and makes the
    /// otter invincible until the score has grown by the invincibility duration.
    pub open spec fn resolve_fish(self, rect: (i32, i32, u32, u32), i: nat) -> GameView
        decreases self.fish.len() - i,
    {
        if i >= self.fish.len() {
            self
        } else if fish_hit(rect, self.fish[i as int]) {
            GameView {
                fish: self.fish.update(i as int, Fish { active: false, ..self.fish[i as int] }),
                otter: self.otter.invincible(),
                invincibility_check_score: Some(
                    (self.score + INVINCIBILITY_SCORE_DURATION) as u32,
                ),
                pending_sounds: self.pending_sounds.push(SoundEffect::Powerup),
                ..self
            }.resolve_fish(rect, i + 1)
        } else {
            self.resolve_fish(rect, i + 1)
        }
    }

    /// Fourth phase: collisions against the otter's hitbox; a fatal missile
    /// stops the phase before coins and fish.
    pub open spec fn collided(self) -> GameView {
        let rect = self.otter.collision_rect();
        let g = self.resolve_missiles(rect, 0);
        if g.state == GameState::GameOver {
            g
        } else {
            g.resolve_coins(rect, 0).resolve_fish(rect, 0)
        }
    }

    /// Last phase: the spawn rate follows the score.
    pub open spec fn with_difficulty(self) -> GameView {
        GameView { obstacle_spawn_rate: spawn_rate_for(self.score), ..self }
    }

    /// The state up to the collision phase of a tick.
    pub open spec fn before_collisions(self, r: SpawnRolls) -> GameView {
        self.scored().moved().spawned(r)
    }

    /// One tick with the given spawn rolls; nothing happens unless playing.
    pub open spec fn ticked(self, r: SpawnRolls) -> GameView {
        if self.state != GameState::Playing {
            self
        } else {
            self.before_collisions(r).collided().with_difficulty()
        }
    }

    /// A tick stays within the integer types.
    pub open spec fn can_tick(self) -> bool {
        &&& self.otter.can_update()
        &&& forall|i: int| 0 <= i < self.missiles.len() ==> #[trigger] self.missiles[i].can_update()
        &&& forall|i: int| 0 <= i < self.coins.len() ==> #[trigger] self.coins[i].can_update()
        &&& forall|i: int| 0 <= i < self.fish.len() ==> #[trigger] self.fish[i].can_update()
        &&& self.obstacle_timer + OBSTACLE_TIMER_STEP <= u32::MAX
        &&& self.score + SCORE_PER_FRAME + MISSILE_DESTROY_SCORE * (self.missiles.len() + 1)
            + COIN_SCORE * (self.coins.len() + 1) + INVINCIBILITY_SCORE_DURATION <= u32::MAX
    }
}

fn advance_missiles(v: &Vec<Missile>) -> (r: Vec<Missile>)
    requires
        forall|i: int| 0 <= i < v@.len() ==> #[trigger] v@[i].can_update(),
    ensures
        r@ == advanced_missiles(v@),
        r@.len() <= v@.len(),
{
    let mut kept: Vec<Missile> = Vec::new();
    let mut i: usize = 0;
    while i < v.len()
        invariant
            i <= v@.len(),
            kept@ == advanced_missiles(v@.subrange(0, i as int)),
            kept@.len() <= i,
            forall|j: int| 0 <= j < v@.len() ==> #[trigger] v@[j].can_update(),
        decreases v@.len() - i,
    {
        let mut m = v[i];
        m.update();
        if m.active {
            kept.push(m);
        }
        assert(v@.subrange(0, i + 1).drop_last() =~= v@.subrange(0, i as int));
        i = i + 1;
    }
    assert(v@.subrange(0, v@.len() as int) =~= v@);
    kept
}

fn advance_coins(v: &Vec<Coin>) -> (r: Vec<Coin>)
    requires
        forall|i: int| 0 <= i < v@.len() ==> #[trigger] v@[i].can_update(),
    ensures
        r@ == advanced_coins(v@),
        r@.len() <= v@.len(),
{
    let mut kept: Vec<Coin> = Vec::new();
    let mut i: usize = 0;
    while i < v.len()
        invariant
            i <= v@.len(),
            kept@ == advanced_coins(v@.subrange(0, i as int)),
            kept@.len() <= i,
            forall|j: int| 0 <= j < v@.len() ==> #[trigger] v@[j].can_update(),
        decreases v@.len() - i,
    {
        let mut c = v[i];
        c.update();
        if c.active && !c.collected {
            kept.push(c);
        }
        assert(v@.subrange(0, i + 1).drop_last() =~= v@.subrange(0, i as int));
        i = i + 1;
    }
    assert(v@.subrange(0, v@.len() as int) =~= v@);
    kept
}

fn advance_fish(v: &Vec<Fish>) -> (r: Vec<Fish>)
    requires
        forall|i: int| 0 <= i < v@.len() ==> #[trigger] v@[i].can_update(),
    ensures
        r@ == advanced_fish(v@),
        r@.len() <= v@.len(),
{
    let mut kept: Vec<Fish> = Vec::new();
    let mut i: usize = 0;
    while i < v.len()
        invariant
            i <= v@.len(),
            kept@ == advanced_fish(v@.subrange(0, i as int)),
            kept@.len() <= i,
            forall|j: int| 0 <= j < v@.len() ==> #[trigger] v@[j].can_update(),
        decreases v@.len() - i,
    {
        let mut f = v[i];
        f.update();
        if f.active {
            kept.push(f);
        }
        assert(v@.subrange(0, i + 1).drop_last() =~= v@.subrange(0, i as int));
        i = i + 1;
    }
    assert(v@.subrange(0, v@.len() as int) =~= v@);
    kept
}

/// Decimal digits of `n`, most significant first.
fn digits_of(n: u32) -> (r: Vec<u8>)
    ensures
        r@ == decimal_digits(n as nat),
{
    let mut out: Vec<u8> = Vec::new();
    let mut m: u32 = n;
    while m >= 10
        invariant
            decimal_digits(n as nat) == decimal_digits(m as nat) + out@,
        decreases m,
    {
        let d: u8 = (m % 10) as u8;
        let ghost before = out@;
        out.insert(0, d);
        assert(decimal_digits((m / 10) as nat).push(d) + before =~= decimal_digits((m / 10) as nat)
            + out@);
        m = m / 10;
    }
    let ghost before = out@;
    out.insert(0, m as u8);
    assert(decimal_digits(m as nat) + before =~= out@);
    out
}

/// Missile spawn rate for a score: `max(START - score, MIN)` in hundredths of a tick.
fn spawn_rate(score: u32) -> (r: u32)
    ensures
        r == spawn_rate_for(score),
{
    if score < OBSTACLE_SPAWN_RATE_START - OBSTACLE_SPAWN_RATE_MIN {
        OBSTACLE_SPAWN_RATE_START - score
    } else {
        OBSTACLE_SPAWN_RATE_MIN
    }
}

/// The simulation: the otter, everything on screen, the score and the screen state.
#[derive(Clone)]
pub struct Game {
    pub state: GameState,
    pub otter: Otter,
    pub missiles: Vec<Missile>,
    pub coins: Vec<Coin>,
    pub fish: Vec<Fish>,
    pub score: u32,
    pub high_score: u32,
    /// Time since the last missile, in hundredths of a tick.
    pub obstacle_timer: u32,
    /// Time between missiles, in hundredths of a tick.
    pub obstacle_spawn_rate: u32,
    /// Score at which invincibility ends; `None` while not invincible.
    pub invincibility_check_score: Option<u32>,
    /// Sounds emitted since the front end last took them.
    pub pending_sounds: Vec<SoundEffect>,
}

impl View for Game {
    type V = GameView;

    open spec fn view(&self) -> GameView {
        GameView {
            state: self.state,
            otter: self.otter,
            missiles: self.missiles@,
            coins: self.coins@,
            fish: self.fish@,
            score: self.score,
            high_score: self.high_score,
            obstacle_timer: self.obstacle_timer,
            obstacle_spawn_rate: self.obstacle_spawn_rate,
            invincibility_check_score: self.invincibility_check_score,
            pending_sounds: self.pending_sounds@,
        }
    }
}

impl Game {
    pub fn new() -> (r: Game)
        ensures
            r@ == GameView::initial(),
    {
        Game {
            state: GameState::Menu,
            otter: Otter::new(),
            missiles: Vec::new(),
            coins: Vec::new(),
            fish: Vec::new(),
            score: 0,
            high_score: 0,
            obstacle_timer: 0,
            obstacle_spawn_rate: OBSTACLE_SPAWN_RATE_START,
            invincibility_check_score: None,
            pending_sounds: Vec::new(),
        }
    }

    /// Starts a new round, keeping the high score.
    pub fn reset(&mut self)
        ensures
            final(self)@ == old(self)@.restarted(),
            final(self).score == 0,
            final(self).missiles@.len() == 0,
            final(self).coins@.len() == 0,
            final(self).fish@.len() == 0,
            final(self).high_score == old(self).high_score,
            final(self).state == GameState::Playing,
    {
        self.otter.reset();
        self.missiles.clear();
        self.coins.clear();
        self.fish.clear();
        self.score = 0;
        self.obstacle_timer = 0;
        self.obstacle_spawn_rate = OBSTACLE_SPAWN_RATE_START;
        self.invincibility_check_score = None;
        self.pending_sounds.clear();
        self.state = GameState::Playing;
    }

    /// Starts a round from the menu or the game-over screen; does nothing while playing.
    pub fn start(&mut self)
        ensures
            old(self).state != GameState::Playing ==> final(self)@ == old(self)@.restarted(),
            old(self).state == GameState::Playing ==> final(self)@ == old(self)@,
    {
        if self.state == GameState::Menu || self.state == GameState::GameOver {
            self.reset();
        }
    }

    /// Hands over the sounds emitted so far, leaving none pending.
    pub fn take_pending_sounds(&mut self) -> (r: Vec<SoundEffect>)
        ensures
            r@ == old(self).pending_sounds@,
            final(self)@ == (GameView { pending_sounds: Seq::empty(), ..old(self)@ }),
    {
        let mut taken: Vec<SoundEffect> = Vec::new();
        std::mem::swap(&mut self.pending_sounds, &mut taken);
        taken
    }

    /// Digits of the score, most significant first.
    pub fn get_score_digits(&self) -> (r: Vec<u8>)
        ensures
            r@ == decimal_digits(self.score as nat),
    {
        digits_of(self.score)
    }

    /// Digits of the high score, most significant first.
    pub fn get_high_score_digits(&self) -> (r: Vec<u8>)
        ensures
            r@ == decimal_digits(self.high_score as nat),
    {
        digits_of(self.high_score)
    }

    /// The action key went down: start a round, or swim up while playing.
    pub fn handle_space_pressed(&mut self)
        ensures
            old(self).state != GameState::Playing ==> final(self)@ == old(self)@.restarted(),
            old(self).state == GameState::Playing ==> final(self)@ == (GameView {
                otter: old(self).otter.swum_up(),
                ..old(self)@
            }),
    {
        match self.state {
            GameState::Menu | GameState::GameOver => {
                self.start();
            },
            GameState::Playing => {
                self.otter.swim_up();
            },
        }
    }

    /// The action key went up: swim down while playing.
    pub fn handle_space_released(&mut self)
        ensures
            old(self).state == GameState::Playing ==> final(self)@ == (GameView {
                otter: old(self).otter.swum_down(),
                ..old(self)@
            }),
            old(self).state != GameState::Playing ==> final(self)@ == old(self)@,
    {
        if self.state == GameState::Playing {
            self.otter.swim_down();
        }
    }

    /// Whether a tick from this state stays within the integer types, which
    /// `update` requires.
    pub fn can_update(&self) -> (r: bool)
        ensures
            r == self@.can_tick(),
    {
        let o = self.otter;
        let y = o.y as i64 + o.velocity_y as i64;
        if y < i32::MIN as i64 || y > i32::MAX as i64 || o.frame == usize::MAX {
            return false;
        }
        let mut i: usize = 0;
        while i < self.missiles.len()
            invariant
                i <= self.missiles@.len(),
                forall|j: int| 0 <= j < i ==> #[trigger] self.missiles@[j].can_update(),
            decreases self.missiles@.len() - i,
        {
            let m = self.missiles[i];
            if m.frame == usize::MAX || (m.state == MissileState::Shooting && m.x < i32::MIN
                + MISSILE_VELOCITY_X) {
                assert(!self@.missiles[i as int].can_update());
                return false;
            }
            i = i + 1;
        }
        let mut i: usize = 0;
        while i < self.coins.len()
            invariant
                i <= self.coins@.len(),
                forall|j: int| 0 <= j < i ==> #[trigger] self.coins@[j].can_update(),
            decreases self.coins@.len() - i,
        {
            let c = self.coins[i];
            if c.y > i32::MAX - COIN_VELOCITY_Y || c.frame == usize::MAX {
                assert(!self@.coins[i as int].can_update());
                return false;
            }
            let drift: i32 = if c.y + COIN_VELOCITY_Y > COIN_WATER_THRESHOLD {
                COIN_VELOCITY_X_WATER
            } else {
                c.velocity_x
            };
            let x = c.x as i64 + drift as i64;
            if x < i32::MIN as i64 || x > i32::MAX as i64 {
                assert(!self@.coins[i as int].can_update());
                return false;
            }
            i = i + 1;
        }
        let mut i: usize = 0;
        while i < self.fish.len()
            invariant
                i <= self.fish@.len(),
                forall|j: int| 0 <= j < i ==> #[trigger] self.fish@[j].can_update(),
            decreases self.fish@.len() - i,
        {
            let f = self.fish[i];
            if f.x < i32::MIN + FISH_VELOCITY_X || f.frame == usize::MAX {
                assert(!self@.fish[i as int].can_update());
                return false;
            }
            i = i + 1;
        }
        if self.obstacle_timer > u32::MAX - OBSTACLE_TIMER_STEP {
            return false;
        }
        let limit = u32::MAX as usize;
        if self.missiles.len() >= limit || self.coins.len() >= limit {
            return false;
        }
        let needed: u64 = self.score as u64 + SCORE_PER_FRAME as u64 + MISSILE_DESTROY_SCORE as u64
            * (self.missiles.len() as u64 + 1) + COIN_SCORE as u64 * (self.coins.len() as u64 + 1)
            + INVINCIBILITY_SCORE_DURATION as u64;
        needed <= u32::MAX as u64
    }

    /// One tick, with spawn decisions drawn from the thread's random generator.
    pub fn update(&mut self)
        requires
            old(self)@.can_tick(),
        ensures
            exists|r: SpawnRolls| r.in_range() && final(self)@ == old(self)@.ticked(r),
    {
        let rolls = SpawnRolls::draw();
        self.update_with_rolls(rolls);
    }

    /// One tick with the given spawn decisions.
    pub fn update_with_rolls(&mut self, rolls: SpawnRolls)
        requires
            old(self)@.can_tick(),
        ensures
            final(self)@ == old(self)@.ticked(rolls),
    {
        if self.state != GameState::Playing {
            return;
        }
        let ghost g0 = self@;
        self.score = self.score + SCORE_PER_FRAME;
        if self.otter.is_invincible {
            if let Some(check_score) = self.invincibility_check_score {
                if self.score >= check_score {
                    self.otter.deactivate_invincibility();
                    self.invincibility_check_score = None;
                }
            }
        }
        assert(self@ == g0.scored());
        self.otter.update();
        self.missiles = advance_missiles(&self.missiles);
        self.coins = advance_coins(&self.coins);
        self.fish = advance_fish(&self.fish);
        assert(self@ == g0.scored().moved());
        self.spawn_entities(rolls);
        assert(self@ == g0.before_collisions(rolls));
        self.check_collisions();
        self.obstacle_spawn_rate = spawn_rate(self.score);
    }

    fn spawn_entities(&mut self, rolls: SpawnRolls)
        requires
            old(self).obstacle_timer + OBSTACLE_TIMER_STEP <= u32::MAX,
        ensures
            final(self)@ == old(self)@.spawned(rolls),
    {
        self.obstacle_timer = self.obstacle_timer + OBSTACLE_TIMER_STEP;
        if self.obstacle_timer > self.obstacle_spawn_rate {
            self.obstacle_timer = 0;
            self.missiles.push(Missile::new(rolls.missile_y));
        }
        if rolls.coin_roll < COIN_SPAWN_CHANCE {
            self.coins.push(Coin::new(rolls.coin_x));
        }
        if rolls.fish_roll < FISH_SPAWN_CHANCE {
            self.fish.push(Fish::new(rolls.fish_y));
        }
    }

    fn check_collisions(&mut self)
        requires
            old(self).state == GameState::Playing,
            old(self).otter.y <= i32::MAX - 13,
            old(self).score + MISSILE_DESTROY_SCORE * old(self).missiles@.len() + COIN_SCORE
                * old(self).coins@.len() + INVINCIBILITY_SCORE_DURATION <= u32::MAX,
        ensures
            final(self)@ == old(self)@.collided(),
    {
        let rect = self.otter.get_collision_rect();
        let ghost g0 = self@;
        let mut i: usize = 0;
        while i < self.missiles.len()
            invariant
                i <= self.missiles@.len(),
                g0 == old(self)@,
                self.missiles@.len() == g0.missiles.len(),
                self.coins@ == g0.coins,
                self.otter == g0.otter,
                self.state == GameState::Playing,
                rect == g0.otter.collision_rect(),
                self@.resolve_missiles(rect, i as nat) == g0.resolve_missiles(rect, 0),
                self.score + MISSILE_DESTROY_SCORE * (self.missiles@.len() - i) + COIN_SCORE
                    * self.coins@.len() + INVINCIBILITY_SCORE_DURATION <= u32::MAX,
            decreases self.missiles@.len() - i,
        {
            let ghost pre = self@;
            let m = self.missiles[i];
            if m.state == MissileState::Shooting && rects_collide(rect, m.get_collision_rect()) {
                let mut hit = m;
                hit.explode();
                self.missiles.set(i, hit);
                self.pending_sounds.push(SoundEffect::Boom);
                if self.otter.is_invincible {
                    self.score = self.score + MISSILE_DESTROY_SCORE;
                } else {
                    if self.score > self.high_score {
                        self.high_score = self.score;
                    }
                    self.state = GameState::GameOver;
                    assert(pre.resolve_missiles(rect, i as nat) == self@);
                    return;
                }
            }
            i = i + 1;
        }
        let ghost g1 = self@;
        let mut i: usize = 0;
        while i < self.coins.len()
            invariant
                i <= self.coins@.len(),
                self.coins@.len() == g1.coins.len(),
                self.fish@ == g1.fish,
                self.otter == g1.otter,
                self@.resolve_coins(rect, i as nat) == g1.resolve_coins(rect, 0),
                self.score + COIN_SCORE * (self.coins@.len() - i) + INVINCIBILITY_SCORE_DURATION
                    <= u32::MAX,
            decreases self.coins@.len() - i,
        {
            let c = self.coins[i];
            if !c.collected && rects_collide(rect, c.get_collision_rect()) {
                let mut got = c;
                got.collected = true;
                self.coins.set(i, got);
                self.score = self.score + COIN_SCORE;
                self.pending_sounds.push(SoundEffect::Coin);
            }
            i = i + 1;
        }
        let ghost g2 = self@;
        let mut i: usize = 0;
        while i < self.fish.len()
            invariant
                i <= self.fish@.len(),
                self.fish@.len() == g2.fish.len(),
                self.score == g2.score,
                self@.resolve_fish(rect, i as nat) == g2.resolve_fish(rect, 0),
                self.score + INVINCIBILITY_SCORE_DURATION <= u32::MAX,
            decreases self.fish@.len() - i,
        {
            let f = self.fish[i];
            if f.active && rects_collide(rect, f.get_collision_rect()) {
                let mut eaten = f;
                eaten.active = false;
                self.fish.set(i, eaten);
                self.otter.activate_invincibility();
                self.invincibility_check_score = Some(self.score + INVINCIBILITY_SCORE_DURATION);
                self.pending_sounds.push(SoundEffect::Powerup);
            }
            i = i + 1;
        }
    }
}

impl Default for Game {
    fn default() -> (r: Game)
        ensures
            r@ == GameView::initial(),
    {
        Game::new()
    }
}

} // verus!
