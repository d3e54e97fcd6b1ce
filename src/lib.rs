//! Simulation core of a side-scrolling arcade game: an otter swims between
//! incoming missiles, picks up coins and eats fish that make it invincible.
//! Rendering, input and audio stay outside; they drive `Game` one tick at a time.
use vstd::prelude::*;

pub mod constants;
pub mod entities;
pub mod game;
pub mod geometry;
pub mod laws;
pub mod models;
pub mod sprites;

pub use constants::{SCREEN_WIDTH, SCREEN_HEIGHT, FRAMES_PER_SECOND, OTTER_WIDTH, OTTER_HEIGHT, OTTER_START_X, OTTER_START_Y, OTTER_VELOCITY, OTTER_MIN_Y, OTTER_WALK_Y, MISSILE_VELOCITY_X, MISSILE_EXPLODE_FRAMES, MISSILE_EXIT_X, COIN_START_Y, COIN_VELOCITY_Y, COIN_VELOCITY_X_WATER, COIN_WATER_THRESHOLD, COIN_BOTTOM_THRESHOLD, COIN_EXIT_X, COIN_SCORE, SCORE_PER_FRAME, MISSILE_DESTROY_SCORE, INVINCIBILITY_SCORE_DURATION, FISH_VELOCITY_X, FISH_EXIT_X, SPAWN_ROLL_RANGE, COIN_SPAWN_CHANCE, FISH_SPAWN_CHANCE, MISSILE_SPAWN_Y_MIN, MISSILE_SPAWN_Y_END, COIN_SPAWN_X_MIN, COIN_SPAWN_X_END, FISH_SPAWN_Y_MIN, FISH_SPAWN_Y_END, OBSTACLE_TIMER_STEP, OBSTACLE_SPAWN_RATE_START, OBSTACLE_SPAWN_RATE_MIN, DIGIT_SPACING};
pub use entities::{Coin, Fish, Missile, MissileState, Otter, OtterState};
pub use game::{Game, GameState, GameView, SoundEffect, SpawnRolls};
pub use geometry::{rects_collide, ClipRect};
pub use sprites::{
    coin_clips_spin, fish_clips_swim, missile_clips_explode, missile_clips_shoot, number_clips,
    otter_clips_down, otter_clips_roll, otter_clips_up, otter_clips_walk,
};

verus! {

} // verus!
