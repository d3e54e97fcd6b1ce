use vstd::prelude::*;

verus! {

pub const SCREEN_WIDTH: i32 = 480;

pub const SCREEN_HEIGHT: i32 = 320;

pub const FRAMES_PER_SECOND: u32 = 10;

pub const OTTER_WIDTH: i32 = 32;

pub const OTTER_HEIGHT: i32 = 32;

pub const OTTER_START_X: i32 = 50;

pub const OTTER_START_Y: i32 = -35;

/// Vertical speed of the otter: half its width per tick.
pub const OTTER_VELOCITY: i32 = 16;

/// Highest point (smallest y) the otter may reach.
pub const OTTER_MIN_Y: i32 = 20;

/// Depth at which the otter touches the sea floor and starts walking.
pub const OTTER_WALK_Y: i32 = 280;

pub const MISSILE_VELOCITY_X: i32 = 20;

/// Number of ticks an explosion lasts.
pub const MISSILE_EXPLODE_FRAMES: usize = 13;

/// A shooting missile whose x drops below this is gone.
pub const MISSILE_EXIT_X: i32 = -50;

pub const COIN_START_Y: i32 = -50;

pub const COIN_VELOCITY_Y: i32 = 7;

/// Leftward drift a coin picks up once it is under water.
pub const COIN_VELOCITY_X_WATER: i32 = -10;

/// Depth below which a sinking coin starts to drift.
pub const COIN_WATER_THRESHOLD: i32 = 50;

/// Depth below which a coin is gone.
pub const COIN_BOTTOM_THRESHOLD: i32 = 298;

/// A coin whose x drops below this is gone.
pub const COIN_EXIT_X: i32 = -20;

pub const COIN_SCORE: u32 = 100;

/// Added to the score on every playing tick.
pub const SCORE_PER_FRAME: u32 = 7;

/// Bonus for destroying a missile while invincible.
pub const MISSILE_DESTROY_SCORE: u32 = 200;

/// Invincibility lasts until the score has grown by this much.
pub const INVINCIBILITY_SCORE_DURATION: u32 = 2000;

pub const FISH_VELOCITY_X: i32 = 10;

/// A fish whose x drops below this is gone.
pub const FISH_EXIT_X: i32 = -40;

/// Upper bound (exclusive) of the per-tick spawn rolls.
pub const SPAWN_ROLL_RANGE: i32 = 1000;

/// A coin spawns when the roll is below this (5%).
pub const COIN_SPAWN_CHANCE: i32 = 50;

/// A fish spawns when the roll is below this (0.3%).
pub const FISH_SPAWN_CHANCE: i32 = 3;

/// Band of heights at which missiles appear: `MISSILE_SPAWN_Y_MIN..MISSILE_SPAWN_Y_END`.
pub const MISSILE_SPAWN_Y_MIN: i32 = 30;

pub const MISSILE_SPAWN_Y_END: i32 = 280;

/// Band of x positions at which coins appear: `COIN_SPAWN_X_MIN..COIN_SPAWN_X_END`.
pub const COIN_SPAWN_X_MIN: i32 = 50;

pub const COIN_SPAWN_X_END: i32 = 400;

/// Band of heights at which fish appear: `FISH_SPAWN_Y_MIN..FISH_SPAWN_Y_END`.
pub const FISH_SPAWN_Y_MIN: i32 = 50;

pub const FISH_SPAWN_Y_END: i32 = 250;

/// The missile timer and spawn rate count in hundredths of a tick;
/// the timer grows by one whole tick per tick.
pub const OBSTACLE_TIMER_STEP: u32 = 100;

/// Spawn rate at the start of a round: one missile every 50 ticks.
pub const OBSTACLE_SPAWN_RATE_START: u32 = 5000;

/// The spawn rate never drops below 10 ticks.
pub const OBSTACLE_SPAWN_RATE_MIN: u32 = 1000;

/// Horizontal distance between score digits on screen.
pub const DIGIT_SPACING: i32 = 28;

} // verus!
