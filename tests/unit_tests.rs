use otter_swag::{
    coin_clips_spin, fish_clips_swim, missile_clips_explode, missile_clips_shoot, number_clips,
    otter_clips_down, otter_clips_roll, otter_clips_up, otter_clips_walk, rects_collide, Coin,
    Fish, Game, GameState, Missile, MissileState, Otter, OtterState, COIN_VELOCITY_X_WATER,
    COIN_VELOCITY_Y, COIN_WATER_THRESHOLD, FISH_VELOCITY_X, INVINCIBILITY_SCORE_DURATION,
    MISSILE_VELOCITY_X, OTTER_HEIGHT, OTTER_MIN_Y, OTTER_START_X, OTTER_START_Y, OTTER_VELOCITY,
    SCORE_PER_FRAME, SCREEN_HEIGHT,
};

#[test]
fn test_otter_initialization() {
    let otter = Otter::new();
    assert_eq!(otter.x, OTTER_START_X);
    assert_eq!(otter.y, OTTER_START_Y);
    assert_eq!(otter.state, OtterState::SwimmingDown);
    assert!(!otter.is_invincible);
}

#[test]
fn test_otter_swim_up() {
    let mut otter = Otter::new();
    otter.swim_up();
    assert_eq!(otter.velocity_y, -OTTER_VELOCITY);
    assert_eq!(otter.state, OtterState::SwimmingUp);
}

#[test]
fn test_otter_swim_down() {
    let mut otter = Otter::new();
    otter.swim_up();
    otter.swim_down();
    assert_eq!(otter.velocity_y, OTTER_VELOCITY);
    assert_eq!(otter.state, OtterState::SwimmingDown);
}

#[test]
fn test_otter_state_change_resets_frame() {
    let mut otter = Otter::new();
    otter.frame = 5;
    otter.set_state(OtterState::Rolling);
    assert_eq!(otter.frame, 0);
}

#[test]
fn test_otter_frame_bounds() {
    let mut otter = Otter::new();
    for _ in 0..100 {
        otter.update();
        let clips = otter.state.get_clips();
        assert!(otter.frame < clips.len(), "Frame {} out of bounds for {:?}", otter.frame, otter.state);
    }
}

#[test]
fn test_otter_invincibility() {
    let mut otter = Otter::new();
    otter.activate_invincibility();
    assert!(otter.is_invincible);
    assert_eq!(otter.state, OtterState::Rolling);
}

#[test]
fn test_otter_invincibility_deactivate() {
    let mut otter = Otter::new();
    otter.activate_invincibility();
    assert!(otter.is_invincible);

    otter.deactivate_invincibility();
    assert!(!otter.is_invincible);
    assert_eq!(otter.state, OtterState::SwimmingDown);
}

#[test]
fn test_game_invincibility_score_based() {
    let mut game = Game::new();
    game.start();
    game.score = 1000;

    game.otter.activate_invincibility();
    game.invincibility_check_score = Some(game.score + INVINCIBILITY_SCORE_DURATION);

    assert!(game.otter.is_invincible);
    assert_eq!(game.invincibility_check_score, Some(1000 + INVINCIBILITY_SCORE_DURATION));

    game.score = 1000 + INVINCIBILITY_SCORE_DURATION - 10;
    game.update();
    assert!(game.otter.is_invincible, "Should still be invincible before threshold");

    game.score = 1000 + INVINCIBILITY_SCORE_DURATION - SCORE_PER_FRAME + 1;
    game.update();
    assert!(!game.otter.is_invincible, "Should no longer be invincible after exceeding threshold");
}

#[test]
fn test_otter_boundary_top() {
    let mut otter = Otter::new();
    otter.y = 0;
    otter.velocity_y = -OTTER_VELOCITY;
    otter.update();
    assert!(otter.y >= OTTER_MIN_Y);
}

#[test]
fn test_otter_boundary_bottom() {
    let mut otter = Otter::new();
    otter.y = SCREEN_HEIGHT;
    otter.velocity_y = OTTER_VELOCITY;
    otter.update();
    assert!(otter.y + OTTER_HEIGHT <= SCREEN_HEIGHT);
}

#[test]
fn test_missile_movement() {
    let mut missile = Missile::new(100);
    let initial_x = missile.x;
    missile.update();
    assert_eq!(missile.x, initial_x - MISSILE_VELOCITY_X);
}

#[test]
fn test_missile_explode() {
    let mut missile = Missile::new(100);
    missile.explode();
    assert_eq!(missile.state, MissileState::Exploding);
    assert_eq!(missile.frame, 0);
}

#[test]
fn test_missile_deactivates_offscreen() {
    let mut missile = Missile::new(100);
    missile.x = -60;
    missile.update();
    assert!(!missile.active);
}

#[test]
fn test_coin_movement() {
    let mut coin = Coin::new(200);
    let initial_y = coin.y;
    coin.update();
    assert_eq!(coin.y, initial_y + COIN_VELOCITY_Y);
}

#[test]
fn test_coin_water_drift() {
    let mut coin = Coin::new(200);
    coin.y = COIN_WATER_THRESHOLD + 1;
    coin.update();
    assert_eq!(coin.velocity_x, COIN_VELOCITY_X_WATER);
}

#[test]
fn test_fish_movement() {
    let mut fish = Fish::new(100);
    let initial_x = fish.x;
    fish.update();
    assert_eq!(fish.x, initial_x - FISH_VELOCITY_X);
}

#[test]
fn test_collision_detection() {
    assert!(rects_collide((0, 0, 10, 10), (5, 5, 10, 10)));
    assert!(!rects_collide((0, 0, 10, 10), (20, 20, 10, 10)));
    assert!(!rects_collide((0, 0, 10, 10), (10, 0, 10, 10)));
}

#[test]
fn test_game_initialization() {
    let game = Game::new();
    assert_eq!(game.state, GameState::Menu);
    assert_eq!(game.score, 0);
    assert!(game.missiles.is_empty());
    assert!(game.coins.is_empty());
    assert!(game.fish.is_empty());
}

#[test]
fn test_game_start() {
    let mut game = Game::new();
    game.start();
    assert_eq!(game.state, GameState::Playing);
}

#[test]
fn test_game_reset() {
    let mut game = Game::new();
    game.score = 1000;
    game.missiles.push(Missile::new(100));
    game.reset();
    assert_eq!(game.score, 0);
    assert!(game.missiles.is_empty());
    assert_eq!(game.state, GameState::Playing);
}

#[test]
fn test_high_score_preserved() {
    let mut game = Game::new();
    game.high_score = 500;
    game.reset();
    assert_eq!(game.high_score, 500);
}

#[test]
fn test_all_clip_arrays_not_empty() {
    assert!(!otter_clips_down().is_empty());
    assert!(!otter_clips_up().is_empty());
    assert!(!otter_clips_walk().is_empty());
    assert!(!otter_clips_roll().is_empty());
    assert!(!missile_clips_shoot().is_empty());
    assert!(!missile_clips_explode().is_empty());
    assert!(!coin_clips_spin().is_empty());
    assert!(!fish_clips_swim().is_empty());
    assert!(!number_clips().is_empty());
    assert_eq!(number_clips().len(), 10);
}

#[test]
fn test_score_digits() {
    let mut game = Game::new();

    game.score = 0;
    assert_eq!(game.get_score_digits(), vec![0]);

    game.score = 5;
    assert_eq!(game.get_score_digits(), vec![5]);

    game.score = 1234;
    assert_eq!(game.get_score_digits(), vec![1, 2, 3, 4]);

    game.score = 98765;
    assert_eq!(game.get_score_digits(), vec![9, 8, 7, 6, 5]);
}
