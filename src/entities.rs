use vstd::prelude::*;

use crate::constants::{
    COIN_BOTTOM_THRESHOLD, COIN_EXIT_X, COIN_START_Y, COIN_VELOCITY_X_WATER, COIN_VELOCITY_Y,
    COIN_WATER_THRESHOLD, FISH_EXIT_X, FISH_VELOCITY_X, MISSILE_EXIT_X, MISSILE_EXPLODE_FRAMES,
    MISSILE_VELOCITY_X, OTTER_HEIGHT, OTTER_MIN_Y, OTTER_START_X, OTTER_START_Y, OTTER_VELOCITY,
    OTTER_WALK_Y, SCREEN_HEIGHT, SCREEN_WIDTH,
};
use crate::geometry::ClipRect;
use crate::sprites::{
    coin_clips_spin, coin_spin_frames, fish_clips_swim, fish_swim_frames, missile_clips_explode,
    missile_clips_shoot, missile_explode_frames, missile_shoot_frames, otter_clips_down,
    otter_clips_roll, otter_clips_up, otter_clips_walk, otter_down_frames, otter_roll_frames,
    otter_up_frames, otter_walk_frames,
};

verus! {

/// Animation state of the otter.
#[derive(Clone, Copy, Debug, PartialEq, Eq, Structural)]
pub enum OtterState {
    SwimmingDown,
    SwimmingUp,
    Walking,
    /// Shown while invincible.
    Rolling,
}

impl OtterState {
    /// The animation frames of this state.
    pub open spec fn frames(self) -> Seq<ClipRect> {
        match self {
            OtterState::SwimmingDown => otter_down_frames(),
            OtterState::SwimmingUp => otter_up_frames(),
            OtterState::Walking => otter_walk_frames(),
            OtterState::Rolling => otter_roll_frames(),
        }
    }

    pub fn get_clips(&self) -> (r: Vec<ClipRect>)
        ensures
            r@ == self.frames(),
    {
        match self {
            OtterState::SwimmingDown => otter_clips_down(),
            OtterState::SwimmingUp => otter_clips_up(),
            OtterState::Walking => otter_clips_walk(),
            OtterState::Rolling => otter_clips_roll(),
        }
    }

    /// Number of animation frames of this state.
    fn frame_count(&self) -> (r: usize)
        ensures
            r == self.frames().len(),
            r > 0,
    {
        match self {
            OtterState::Rolling => 4,
            _ => 2,
        }
    }
}

/// The player's character.
#[derive(Clone, Copy, Debug)]
pub struct Otter {
    pub x: i32,
    pub y: i32,
    pub velocity_y: i32,
    pub state: OtterState,
    pub frame: usize,
    pub is_invincible: bool,
}

impl Otter {
    /// The otter at the start of a round.
    pub open spec fn initial() -> Otter {
        Otter {
            x: OTTER_START_X,
            y: OTTER_START_Y,
            velocity_y: OTTER_VELOCITY,
            state: OtterState::SwimmingDown,
            frame: 0,
            is_invincible: false,
        }
    }

    /// The animation frame is one of its state's frames.
    pub open spec fn frame_in_table(self) -> bool {
        self.frame < self.state.frames().len()
    }

    /// Switching to `s`; the frame restarts when the state changes.
    pub open spec fn with_state(self, s: OtterState) -> Otter {
        if self.state != s {
            Otter { state: s, frame: 0, ..self }
        } else {
            self
        }
    }

    /// The state a swim command shows: rolling wins while invincible.
    pub open spec fn swim_state(self, s: OtterState) -> OtterState {
        if self.is_invincible {
            OtterState::Rolling
        } else {
            s
        }
    }

    pub open spec fn swum_up(self) -> Otter {
        Otter { velocity_y: (-OTTER_VELOCITY) as i32, ..self }.with_state(
            self.swim_state(OtterState::SwimmingUp),
        )
    }

    pub open spec fn swum_down(self) -> Otter {
        Otter { velocity_y: OTTER_VELOCITY, ..self }.with_state(
            self.swim_state(OtterState::SwimmingDown),
        )
    }

    pub open spec fn invincible(self) -> Otter {
        Otter { is_invincible: true, ..self }.with_state(OtterState::Rolling)
    }

    pub open spec fn vulnerable(self) -> Otter {
        Otter { is_invincible: false, ..self }.with_state(OtterState::SwimmingDown)
    }

    /// Height after moving by the velocity and clamping to the play field.
    pub open spec fn next_y(self) -> int {
        let y1 = self.y + self.velocity_y;
        let y2 = if y1 > OTTER_WALK_Y {
            OTTER_WALK_Y as int
        } else {
            y1
        };
        let y3 = if y2 + OTTER_HEIGHT > SCREEN_HEIGHT {
            (SCREEN_HEIGHT - OTTER_HEIGHT) as int
        } else {
            y2
        };
        if y3 < OTTER_MIN_Y {
            OTTER_MIN_Y as int
        } else {
            y3
        }
    }

    /// One physics and animation step.
    pub open spec fn next(self) -> Otter {
        let landed = self.y + self.velocity_y > OTTER_WALK_Y && !self.is_invincible;
        let o = if landed {
            self.with_state(OtterState::Walking)
        } else {
            self
        };
        Otter {
            y: self.next_y() as i32,
            frame: ((o.frame + 1) % (o.state.frames().len() as int)) as usize,
            ..o
        }
    }

    /// One step stays within the integer types.
    pub open spec fn can_update(self) -> bool {
        i32::MIN <= self.y + self.velocity_y <= i32::MAX && self.frame < usize::MAX
    }

    /// Hitbox: depends on the state, and for some states on the frame.
    pub open spec fn collision_rect(self) -> (i32, i32, u32, u32) {
        match self.state {
            OtterState::SwimmingUp => if self.frame == 0 {
                (self.x, (self.y + 7) as i32, 32, 24)
            } else {
                (self.x, (self.y + 3) as i32, 32, 28)
            },
            OtterState::SwimmingDown => (self.x, (self.y + 1) as i32, 32, 30),
            OtterState::Walking => (self.x, (self.y + 13) as i32, 31, 18),
            OtterState::Rolling => if self.frame == 0 || self.frame == 2 {
                (self.x, (self.y + 6) as i32, 33, 26)
            } else {
                (self.x, self.y, 26, 32)
            },
        }
    }

    pub fn new() -> (r: Otter)
        ensures
            r == Otter::initial(),
    {
        Otter {
            x: OTTER_START_X,
            y: OTTER_START_Y,
            velocity_y: OTTER_VELOCITY,
            state: OtterState::SwimmingDown,
            frame: 0,
            is_invincible: false,
        }
    }

    pub fn reset(&mut self)
        ensures
            *final(self) == Otter::initial(),
    {
        *self = Otter::new();
    }

    pub fn set_state(&mut self, new_state: OtterState)
        ensures
            *final(self) == old(self).with_state(new_state),
    {
        if self.state != new_state {
            self.state = new_state;
            self.frame = 0;
        }
    }

    pub fn swim_up(&mut self)
        ensures
            *final(self) == old(self).swum_up(),
    {
        self.velocity_y = -OTTER_VELOCITY;
        if self.is_invincible {
            self.set_state(OtterState::Rolling);
        } else {
            self.set_state(OtterState::SwimmingUp);
        }
    }

    pub fn swim_down(&mut self)
        ensures
            *final(self) == old(self).swum_down(),
    {
        self.velocity_y = OTTER_VELOCITY;
        if self.is_invincible {
            self.set_state(OtterState::Rolling);
        } else {
            self.set_state(OtterState::SwimmingDown);
        }
    }

    pub fn update(&mut self)
        requires
            old(self).can_update(),
        ensures
            *final(self) == old(self).next(),
            OTTER_MIN_Y <= final(self).y <= SCREEN_HEIGHT - OTTER_HEIGHT,
            final(self).frame_in_table(),
    {
        self.y = self.y + self.velocity_y;
        if self.y > OTTER_WALK_Y {
            if !self.is_invincible {
                self.set_state(OtterState::Walking);
            }
            self.y = OTTER_WALK_Y;
        }
        if self.y + OTTER_HEIGHT > SCREEN_HEIGHT {
            self.y = SCREEN_HEIGHT - OTTER_HEIGHT;
        }
        if self.y < OTTER_MIN_Y {
            self.y = OTTER_MIN_Y;
        }
        let n = self.state.frame_count();
        self.frame = (self.frame + 1) % n;
    }

    pub fn activate_invincibility(&mut self)
        ensures
            *final(self) == old(self).invincible(),
    {
        self.is_invincible = true;
        self.set_state(OtterState::Rolling);
    }

    pub fn deactivate_invincibility(&mut self)
        ensures
            *final(self) == old(self).vulnerable(),
    {
        self.is_invincible = false;
        self.set_state(OtterState::SwimmingDown);
    }

    pub fn get_clip(&self) -> (r: ClipRect)
        ensures
            r == self.state.frames()[(self.frame as int) % (self.state.frames().len() as int)],
    {
        let clips = self.state.get_clips();
        clips[self.frame % clips.len()]
    }

    pub fn get_collision_rect(&self) -> (r: (i32, i32, u32, u32))
        requires
            self.y <= i32::MAX - 13,
        ensures
            r == self.collision_rect(),
    {
        match self.state {
            OtterState::SwimmingUp => {
                if self.frame == 0 {
                    (self.x, self.y + 7, 32, 24)
                } else {
                    (self.x, self.y + 3, 32, 28)
                }
            },
            OtterState::SwimmingDown => (self.x, self.y + 1, 32, 30),
            OtterState::Walking => (self.x, self.y + 13, 31, 18),
            OtterState::Rolling => {
                if self.frame == 0 || self.frame == 2 {
                    (self.x, self.y + 6, 33, 26)
                } else {
                    (self.x, self.y, 26, 32)
                }
            },
        }
    }
}

impl Default for Otter {
    fn default() -> (r: Otter)
        ensures
            r == Otter::initial(),
    {
        Otter::new()
    }
}

/// Whether a missile is flying or blowing up.
#[derive(Clone, Copy, Debug, PartialEq, Eq, Structural)]
pub enum MissileState {
    Shooting,
    Exploding,
}

/// A projectile flying leftward across the screen.
#[derive(Clone, Copy, Debug)]
pub struct Missile {
    pub x: i32,
    pub y: i32,
    pub state: MissileState,
    pub frame: usize,
    pub active: bool,
}

impl Missile {
    /// A missile entering at the right edge at height `y`.
    pub open spec fn spawned(y: i32) -> Missile {
        Missile { x: SCREEN_WIDTH, y, state: MissileState::Shooting, frame: 0, active: true }
    }

    pub open spec fn exploded(self) -> Missile {
        Missile { state: MissileState::Exploding, frame: 0, ..self }
    }

    /// One step: a flying missile moves left and cycles its frames; an exploding one
    /// advances through the explosion. Either is gone at the end of its course.
    pub open spec fn next(self) -> Missile {
        match self.state {
            MissileState::Shooting => {
                let x = self.x - MISSILE_VELOCITY_X;
                Missile {
                    x: x as i32,
                    frame: ((self.frame + 1) % (missile_shoot_frames().len() as int)) as usize,
                    active: if x < MISSILE_EXIT_X {
                        false
                    } else {
                        self.active
                    },
                    ..self
                }
            },
            MissileState::Exploding => {
                let f = self.frame + 1;
                Missile {
                    frame: f as usize,
                    active: if f >= MISSILE_EXPLODE_FRAMES {
                        false
                    } else {
                        self.active
                    },
                    ..self
                }
            },
        }
    }

    /// One step stays within the integer types.
    pub open spec fn can_update(self) -> bool {
        self.frame < usize::MAX && (self.state == MissileState::Shooting ==> self.x >= i32::MIN
            + MISSILE_VELOCITY_X)
    }

    /// The frame of the current state's table that is shown.
    pub open spec fn clip_index(self) -> int {
        match self.state {
            MissileState::Shooting => (self.frame as int) % (missile_shoot_frames().len() as int),
            MissileState::Exploding => if self.frame < missile_explode_frames().len() - 1 {
                self.frame as int
            } else {
                missile_explode_frames().len() - 1
            },
        }
    }

    /// The frame counter lies within the current animation: a flying missile's
    /// within its cycle, an active exploding one's within the explosion.
    pub open spec fn frame_in_table(self) -> bool {
        match self.state {
            MissileState::Shooting => self.frame < missile_shoot_frames().len(),
            MissileState::Exploding => self.active ==> self.frame < missile_explode_frames().len(),
        }
    }

    pub open spec fn collision_rect(self) -> (i32, i32, u32, u32) {
        (self.x, self.y, 24, 10)
    }

    pub fn new(y: i32) -> (r: Missile)
        ensures
            r == Missile::spawned(y),
    {
        Missile { x: SCREEN_WIDTH, y, state: MissileState::Shooting, frame: 0, active: true }
    }

    pub fn update(&mut self)
        requires
            old(self).can_update(),
        ensures
            *final(self) == old(self).next(),
    {
        match self.state {
            MissileState::Shooting => {
                self.x = self.x - MISSILE_VELOCITY_X;
                self.frame = (self.frame + 1) % 2;
                if self.x < MISSILE_EXIT_X {
                    self.active = false;
                }
            },
            MissileState::Exploding => {
                self.frame = self.frame + 1;
                if self.frame >= MISSILE_EXPLODE_FRAMES {
                    self.active = false;
                }
            },
        }
    }

    pub fn explode(&mut self)
        ensures
            *final(self) == old(self).exploded(),
    {
        self.state = MissileState::Exploding;
        self.frame = 0;
    }

    pub fn get_clip(&self) -> (r: ClipRect)
        ensures
            0 <= self.clip_index() < (match self.state {
                MissileState::Shooting => missile_shoot_frames(),
                MissileState::Exploding => missile_explode_frames(),
            }).len(),
            r == (match self.state {
                MissileState::Shooting => missile_shoot_frames(),
                MissileState::Exploding => missile_explode_frames(),
            })[self.clip_index()],
    {
        match self.state {
            MissileState::Shooting => {
                let clips = missile_clips_shoot();
                clips[self.frame % clips.len()]
            },
            MissileState::Exploding => {
                let clips = missile_clips_explode();
                let last = clips.len() - 1;
                let idx = if self.frame < last {
                    self.frame
                } else {
                    last
                };
                clips[idx]
            },
        }
    }

    pub fn get_collision_rect(&self) -> (r: (i32, i32, u32, u32))
        ensures
            r == self.collision_rect(),
    {
        (self.x, self.y, 24, 10)
    }
}

/// A coin sinking from the surface; under water it drifts left.
#[derive(Clone, Copy, Debug)]
pub struct Coin {
    pub x: i32,
    pub y: i32,
    pub velocity_x: i32,
    pub frame: usize,
    pub collected: bool,
    pub active: bool,
}

impl Coin {
    /// A coin dropped at column `x` above the water.
    pub open spec fn spawned(x: i32) -> Coin {
        Coin { x, y: COIN_START_Y, velocity_x: 0, frame: 0, collected: false, active: true }
    }

    /// Drift after the next step: leftward once below the water threshold, for good.
    pub open spec fn next_velocity_x(self) -> int {
        if self.y + COIN_VELOCITY_Y > COIN_WATER_THRESHOLD {
            COIN_VELOCITY_X_WATER as int
        } else {
            self.velocity_x as int
        }
    }

    pub open spec fn next(self) -> Coin {
        let y = self.y + COIN_VELOCITY_Y;
        let x = self.x + self.next_velocity_x();
        Coin {
            x: x as i32,
            y: y as i32,
            velocity_x: self.next_velocity_x() as i32,
            frame: ((self.frame + 1) % (coin_spin_frames().len() as int)) as usize,
            active: if y > COIN_BOTTOM_THRESHOLD || x < COIN_EXIT_X {
                false
            } else {
                self.active
            },
            ..self
        }
    }

    /// One step stays within the integer types.
    pub open spec fn can_update(self) -> bool {
        self.y <= i32::MAX - COIN_VELOCITY_Y && i32::MIN <= self.x + self.next_velocity_x()
            <= i32::MAX && self.frame < usize::MAX
    }

    pub open spec fn frame_in_table(self) -> bool {
        self.frame < coin_spin_frames().len()
    }

    pub open spec fn collision_rect(self) -> (i32, i32, u32, u32) {
        (self.x, self.y, 16, 16)
    }

    pub fn new(x: i32) -> (r: Coin)
        ensures
            r == Coin::spawned(x),
    {
        Coin { x, y: COIN_START_Y, velocity_x: 0, frame: 0, collected: false, active: true }
    }

    pub fn update(&mut self)
        requires
            old(self).can_update(),
        ensures
            *final(self) == old(self).next(),
    {
        self.y = self.y + COIN_VELOCITY_Y;
        if self.y > COIN_WATER_THRESHOLD {
            self.velocity_x = COIN_VELOCITY_X_WATER;
        }
        self.x = self.x + self.velocity_x;
        self.frame = (self.frame + 1) % 10;
        if self.y > COIN_BOTTOM_THRESHOLD || self.x < COIN_EXIT_X {
            self.active = false;
        }
    }

    pub fn get_clip(&self) -> (r: ClipRect)
        ensures
            r == coin_spin_frames()[(self.frame as int) % (coin_spin_frames().len() as int)],
    {
        let clips = coin_clips_spin();
        clips[self.frame % clips.len()]
    }

    pub fn get_collision_rect(&self) -> (r: (i32, i32, u32, u32))
        ensures
            r == self.collision_rect(),
    {
        (self.x, self.y, 16, 16)
    }
}

/// A fish swimming leftward; eating it makes the otter invincible.
#[derive(Clone, Copy, Debug)]
pub struct Fish {
    pub x: i32,
    pub y: i32,
    pub frame: usize,
    pub active: bool,
}

impl Fish {
    /// A fish entering at the right edge at height `y`.
    pub open spec fn spawned(y: i32) -> Fish {
        Fish { x: SCREEN_WIDTH, y, frame: 0, active: true }
    }

    pub open spec fn next(self) -> Fish {
        let x = self.x - FISH_VELOCITY_X;
        Fish {
            x: x as i32,
            frame: ((self.frame + 1) % (fish_swim_frames().len() as int)) as usize,
            active: if x < FISH_EXIT_X {
                false
            } else {
                self.active
            },
            ..self
        }
    }

    /// One step stays within the integer types.
    pub open spec fn can_update(self) -> bool {
        self.x >= i32::MIN + FISH_VELOCITY_X && self.frame < usize::MAX
    }

    pub open spec fn frame_in_table(self) -> bool {
        self.frame < fish_swim_frames().len()
    }

    pub open spec fn collision_rect(self) -> (i32, i32, u32, u32) {
        (self.x, self.y, 30, 20)
    }

    pub fn new(y: i32) -> (r: Fish)
        ensures
            r == Fish::spawned(y),
    {
        Fish { x: SCREEN_WIDTH, y, frame: 0, active: true }
    }

    pub fn update(&mut self)
        requires
            old(self).can_update(),
        ensures
            *final(self) == old(self).next(),
    {
        self.x = self.x - FISH_VELOCITY_X;
        self.frame = (self.frame + 1) % 5;
        if self.x < FISH_EXIT_X {
            self.active = false;
        }
    }

    pub fn get_clip(&self) -> (r: ClipRect)
        ensures
            r == fish_swim_frames()[(self.frame as int) % (fish_swim_frames().len() as int)],
    {
        let clips = fish_clips_swim();
        clips[self.frame % clips.len()]
    }

    pub fn get_collision_rect(&self) -> (r: (i32, i32, u32, u32))
        ensures
            r == self.collision_rect(),
    {
        (self.x, self.y, 30, 20)
    }
}

} // verus!

verus! {

impl Missile {
    /// The missile after `n` steps.
    pub open spec fn steps(self, n: nat) -> Missile
        decreases n,
    {
        if n == 0 {
            self
        } else {
            self.next().steps((n - 1) as nat)
        }
    }
}

impl Coin {
    /// The coin after `n` steps.
    pub open spec fn steps(self, n: nat) -> Coin
        decreases n,
    {
        if n == 0 {
            self
        } else {
            self.next().steps((n - 1) as nat)
        }
    }
}

impl Fish {
    /// The fish after `n` steps.
    pub open spec fn steps(self, n: nat) -> Fish
        decreases n,
    {
        if n == 0 {
            self
        } else {
            self.next().steps((n - 1) as nat)
        }
    }
}

/// However many steps a missile, coin or fish takes, its frame counter stays
/// within its animation, so the clip it shows is always a frame of its table.
pub proof fn lemma_frames_stay_in_table(m: Missile, c: Coin, f: Fish, n: nat)
    requires
        m.frame_in_table(),
        c.frame_in_table(),
        f.frame_in_table(),
    ensures
        m.steps(n).frame_in_table(),
        c.steps(n).frame_in_table(),
        f.steps(n).frame_in_table(),
    decreases n,
{
    if n > 0 {
        lemma_frames_stay_in_table(m.next(), c.next(), f.next(), (n - 1) as nat);
    }
}

/// Whatever its position and velocity, one step leaves the otter between the
/// top limit and the bottom of the screen.
pub proof fn lemma_otter_stays_in_field(o: Otter)
    ensures
        OTTER_MIN_Y <= o.next().y <= SCREEN_HEIGHT - OTTER_HEIGHT,
{
}

} // verus!
