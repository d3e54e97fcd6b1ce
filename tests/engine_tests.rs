use otter_swag::models::menu::{Menu, MenuState};
use otter_swag::models::otter::Otter as SpriteOtter;
use otter_swag::{
    coin_clips_spin, fish_clips_swim, missile_clips_explode, missile_clips_shoot, number_clips,
    otter_clips_down, otter_clips_roll, otter_clips_up, otter_clips_walk, rects_collide, ClipRect,
    Coin, Fish, Game, GameState, Missile, MissileState, Otter, OtterState, SoundEffect,
    SpawnRolls, COIN_SCORE, INVINCIBILITY_SCORE_DURATION, MISSILE_DESTROY_SCORE,
    OBSTACLE_SPAWN_RATE_MIN, OBSTACLE_SPAWN_RATE_START, OTTER_MIN_Y, OTTER_VELOCITY,
    OTTER_WALK_Y, SCORE_PER_FRAME, SCREEN_WIDTH,
};

fn quiet_rolls() -> SpawnRolls {
    SpawnRolls { missile_y: 100, coin_roll: 999, coin_x: 100, fish_roll: 999, fish_y: 100 }
}

fn playing_at_top() -> Game {
    let mut game = Game::new();
    game.start();
    game.otter.y = OTTER_MIN_Y;
    game.otter.velocity_y = -OTTER_VELOCITY;
    game
}

#[test]
fn collision_is_symmetric() {
    let cases = [
        ((0, 0, 10, 10), (10, 0, 10, 10)),
        ((0, 0, 10, 10), (5, 5, 10, 10)),
        ((0, 0, 10, 10), (0, 10, 10, 10)),
        ((-5, -5, 3, 3), (-3, -3, 1, 1)),
        ((0, 0, 0, 0), (0, 0, 10, 10)),
    ];
    for (a, b) in cases {
        assert_eq!(rects_collide(a, b), rects_collide(b, a));
    }
    assert!(!rects_collide((0, 0, 10, 10), (10, 0, 10, 10)));
    assert!(rects_collide((0, 0, 10, 10), (5, 5, 10, 10)));
    assert!(!rects_collide((0, 0, 10, 10), (0, 10, 10, 10)));
    assert!(rects_collide((0, 0, 10, 10), (9, 9, 10, 10)));
}

#[test]
fn collision_handles_extreme_rectangles() {
    assert!(!rects_collide((i32::MAX, 0, u32::MAX, 10), (0, 0, 10, 10)));
    assert!(rects_collide((i32::MIN, 0, u32::MAX, 10), (0, 0, 10, 10)));
    assert!(!rects_collide((0, 0, 0, 10), (0, 0, 10, 10)));
}

#[test]
fn otter_hitbox_depends_on_state_and_frame() {
    let mut o = Otter::new();
    o.y = 100;
    assert_eq!(o.get_collision_rect(), (50, 101, 32, 30));
    o.state = OtterState::SwimmingUp;
    o.frame = 0;
    assert_eq!(o.get_collision_rect(), (50, 107, 32, 24));
    o.frame = 1;
    assert_eq!(o.get_collision_rect(), (50, 103, 32, 28));
    o.state = OtterState::Walking;
    o.frame = 0;
    assert_eq!(o.get_collision_rect(), (50, 113, 31, 18));
    o.state = OtterState::Rolling;
    o.frame = 2;
    assert_eq!(o.get_collision_rect(), (50, 106, 33, 26));
    o.frame = 3;
    assert_eq!(o.get_collision_rect(), (50, 100, 26, 32));
}

#[test]
fn otter_lands_and_walks() {
    let mut o = Otter::new();
    o.y = 270;
    o.frame = 1;
    o.update();
    assert_eq!(o.y, OTTER_WALK_Y);
    assert_eq!(o.state, OtterState::Walking);
    assert_eq!(o.frame, 1);
    assert_eq!(o.get_clip(), ClipRect::new(345, 0, 33, 32));
}

#[test]
fn invincible_otter_keeps_rolling_on_the_floor_and_when_swimming() {
    let mut o = Otter::new();
    o.activate_invincibility();
    o.y = 270;
    o.update();
    assert_eq!(o.y, OTTER_WALK_Y);
    assert_eq!(o.state, OtterState::Rolling);
    o.swim_up();
    assert_eq!(o.state, OtterState::Rolling);
    assert_eq!(o.velocity_y, -OTTER_VELOCITY);
}

#[test]
fn otter_stays_in_field_from_anywhere() {
    for start in [-1000, -35, 0, 19, 20, 150, 288, 300, 1000] {
        for v in [-OTTER_VELOCITY, OTTER_VELOCITY, 0, 500, -500] {
            let mut o = Otter::new();
            o.y = start;
            o.velocity_y = v;
            o.update();
            assert!(o.y >= 20 && o.y <= 288, "y {} from {} with {}", o.y, start, v);
        }
    }
}

#[test]
fn missile_explosion_runs_its_course() {
    let mut m = Missile::new(100);
    m.explode();
    for _ in 0..12 {
        m.update();
        assert!(m.active);
    }
    assert_eq!(m.frame, 12);
    assert_eq!(m.get_clip(), ClipRect::new(13, 16, 1, 1));
    m.update();
    assert!(!m.active);
    assert_eq!(m.frame, 13);
    assert_eq!(m.get_clip(), ClipRect::new(13, 16, 1, 1));
}

#[test]
fn frames_stay_in_their_tables() {
    let mut m = Missile::new(100);
    let mut c = Coin::new(200);
    let mut f = Fish::new(100);
    for _ in 0..40 {
        m.update();
        c.update();
        f.update();
        assert!(m.frame < missile_clips_shoot().len());
        assert!(c.frame < coin_clips_spin().len());
        assert!(f.frame < fish_clips_swim().len());
    }
    assert_eq!(c.get_clip(), coin_clips_spin()[0]);
    assert_eq!(f.get_clip(), fish_clips_swim()[0]);
    assert_eq!(m.get_clip(), missile_clips_shoot()[0]);
}

#[test]
fn missile_leaves_past_left_edge() {
    let mut m = Missile::new(100);
    m.x = -30;
    m.update();
    assert_eq!(m.x, -50);
    assert!(m.active);
    m.update();
    assert!(!m.active);
}

#[test]
fn coin_leaves_at_bottom_or_left() {
    let mut c = Coin::new(200);
    c.y = 291;
    c.update();
    assert!(c.active);
    c.update();
    assert!(!c.active);

    let mut c = Coin::new(-15);
    c.y = 60;
    c.update();
    assert_eq!(c.x, -25);
    assert!(!c.active);
}

#[test]
fn coin_drift_is_kept() {
    let mut c = Coin::new(200);
    c.y = 40;
    c.update();
    assert_eq!(c.velocity_x, 0);
    assert_eq!(c.x, 200);
    c.update();
    assert_eq!(c.velocity_x, -10);
    assert_eq!(c.x, 190);
    c.update();
    assert_eq!(c.velocity_x, -10);
    assert_eq!(c.x, 180);
}

#[test]
fn fish_leaves_past_left_edge() {
    let mut f = Fish::new(100);
    f.x = -30;
    f.update();
    assert!(f.active);
    f.update();
    assert!(!f.active);
}

#[test]
fn clip_tables_have_their_frames() {
    assert_eq!(otter_clips_down().len(), 2);
    assert_eq!(otter_clips_up().len(), 2);
    assert_eq!(otter_clips_walk().len(), 2);
    assert_eq!(otter_clips_roll().len(), 4);
    assert_eq!(missile_clips_shoot().len(), 2);
    assert_eq!(missile_clips_explode().len(), 13);
    assert_eq!(coin_clips_spin().len(), 10);
    assert_eq!(fish_clips_swim().len(), 5);
    assert_eq!(number_clips()[0], ClipRect::new(287, 0, 21, 28));
    assert_eq!(number_clips()[9], ClipRect::new(253, 0, 26, 28));
    assert_eq!(otter_clips_roll()[1], ClipRect::new(97, 0, 26, 32));
}

#[test]
fn score_digit_edges() {
    let mut game = Game::new();
    game.score = 10;
    assert_eq!(game.get_score_digits(), vec![1, 0]);
    game.score = 100;
    assert_eq!(game.get_score_digits(), vec![1, 0, 0]);
    game.score = u32::MAX;
    assert_eq!(game.get_score_digits(), vec![4, 2, 9, 4, 9, 6, 7, 2, 9, 5]);
    assert_eq!(game.get_high_score_digits(), vec![0]);
    game.high_score = 1234;
    assert_eq!(game.get_high_score_digits(), vec![1, 2, 3, 4]);
}

#[test]
fn spawn_rate_follows_score() {
    let mut game = Game::new();
    game.start();
    assert_eq!(game.obstacle_spawn_rate, OBSTACLE_SPAWN_RATE_START);
    game.update_with_rolls(quiet_rolls());
    assert_eq!(game.obstacle_spawn_rate, 4993);
    game.score = 1000;
    game.update_with_rolls(quiet_rolls());
    assert_eq!(game.obstacle_spawn_rate, 3993);
    game.score = 3993;
    game.update_with_rolls(quiet_rolls());
    assert_eq!(game.obstacle_spawn_rate, OBSTACLE_SPAWN_RATE_MIN);
    game.score = 100_000;
    game.update_with_rolls(quiet_rolls());
    assert_eq!(game.obstacle_spawn_rate, OBSTACLE_SPAWN_RATE_MIN);
}

#[test]
fn spawn_rate_never_rises_with_score() {
    let mut last = u32::MAX;
    for s in [0u32, 1, 50, 999, 2500, 3992, 3993, 4000, 9000, 1_000_000] {
        let mut game = Game::new();
        game.start();
        game.score = s;
        game.update_with_rolls(quiet_rolls());
        assert!(game.obstacle_spawn_rate <= last);
        assert!(game.obstacle_spawn_rate >= OBSTACLE_SPAWN_RATE_MIN);
        last = game.obstacle_spawn_rate;
    }
}

#[test]
fn rolls_decide_what_spawns() {
    let mut game = Game::new();
    game.start();
    game.obstacle_timer = 4950;
    let rolls = SpawnRolls { missile_y: 123, coin_roll: 49, coin_x: 77, fish_roll: 2, fish_y: 66 };
    game.update_with_rolls(rolls);
    assert_eq!(game.obstacle_timer, 0);
    assert_eq!(game.missiles.len(), 1);
    assert_eq!((game.missiles[0].x, game.missiles[0].y), (SCREEN_WIDTH, 123));
    assert_eq!(game.coins.len(), 1);
    assert_eq!((game.coins[0].x, game.coins[0].y), (77, -50));
    assert_eq!(game.fish.len(), 1);
    assert_eq!((game.fish[0].x, game.fish[0].y), (SCREEN_WIDTH, 66));
    assert_eq!(game.score, SCORE_PER_FRAME);

    let rolls = SpawnRolls { missile_y: 123, coin_roll: 50, coin_x: 77, fish_roll: 3, fish_y: 66 };
    game.update_with_rolls(rolls);
    assert_eq!(game.obstacle_timer, 100);
    assert_eq!(game.missiles.len(), 1);
    assert_eq!(game.coins.len(), 1);
    assert_eq!(game.fish.len(), 1);
}

#[test]
fn drawn_rolls_stay_in_their_bands() {
    let mut coin_rolls = Vec::new();
    for _ in 0..2000 {
        let r = SpawnRolls::draw();
        assert!(r.missile_y >= 30 && r.missile_y < 280);
        assert!(r.coin_roll >= 0 && r.coin_roll < 1000);
        assert!(r.coin_x >= 50 && r.coin_x < 400);
        assert!(r.fish_roll >= 0 && r.fish_roll < 1000);
        assert!(r.fish_y >= 50 && r.fish_y < 250);
        coin_rolls.push(r.coin_roll);
    }
    assert!(coin_rolls.iter().any(|&v| v != coin_rolls[0]));
    assert!(coin_rolls.iter().any(|&v| v > 0));
}

#[test]
fn invincible_otter_destroys_missile_for_bonus() {
    let mut game = playing_at_top();
    game.otter.activate_invincibility();
    let mut missile = Missile::new(25);
    missile.x = 70;
    game.missiles.push(missile);
    game.update_with_rolls(quiet_rolls());
    assert_eq!(game.state, GameState::Playing);
    assert_eq!(game.missiles[0].state, MissileState::Exploding);
    assert_eq!(game.score, SCORE_PER_FRAME + MISSILE_DESTROY_SCORE);
    assert_eq!(game.take_pending_sounds(), vec![SoundEffect::Boom]);
}

#[test]
fn game_over_keeps_a_higher_high_score() {
    let mut game = playing_at_top();
    game.high_score = 10_000;
    game.score = 500;
    let mut missile = Missile::new(25);
    missile.x = 70;
    game.missiles.push(missile);
    game.update_with_rolls(quiet_rolls());
    assert_eq!(game.state, GameState::GameOver);
    assert_eq!(game.high_score, 10_000);
    assert_eq!(game.score, 507);
    assert_eq!(game.missiles[0].state, MissileState::Exploding);
}

#[test]
fn fatal_missile_skips_coins_and_fish() {
    let mut game = playing_at_top();
    let mut missile = Missile::new(25);
    missile.x = 70;
    game.missiles.push(missile);
    let mut coin = Coin::new(50);
    coin.y = 21;
    game.coins.push(coin);
    game.update_with_rolls(quiet_rolls());
    assert_eq!(game.state, GameState::GameOver);
    assert_eq!(game.score, SCORE_PER_FRAME);
    assert!(!game.coins[0].collected);
    assert_eq!(game.high_score, SCORE_PER_FRAME);
}

#[test]
fn fish_threshold_counts_from_score_after_tick() {
    let mut game = playing_at_top();
    let mut coin = Coin::new(50);
    coin.y = 21;
    game.coins.push(coin);
    let mut fish = Fish::new(21);
    fish.x = 50;
    game.fish.push(fish);
    game.update_with_rolls(quiet_rolls());
    assert_eq!(game.score, SCORE_PER_FRAME + COIN_SCORE);
    assert!(game.otter.is_invincible);
    assert_eq!(game.otter.state, OtterState::Rolling);
    assert_eq!(
        game.invincibility_check_score,
        Some(SCORE_PER_FRAME + COIN_SCORE + INVINCIBILITY_SCORE_DURATION)
    );
    assert_eq!(game.take_pending_sounds(), vec![SoundEffect::Coin, SoundEffect::Powerup]);
    assert!(game.take_pending_sounds().is_empty());
    assert!(!game.fish[0].active);
}

#[test]
fn invincibility_ends_exactly_at_threshold() {
    let mut game = playing_at_top();
    game.otter.activate_invincibility();
    game.invincibility_check_score = Some(1007);
    game.score = 999;
    game.update_with_rolls(quiet_rolls());
    assert!(game.otter.is_invincible);
    assert_eq!(game.invincibility_check_score, Some(1007));
    game.score = 1000;
    game.update_with_rolls(quiet_rolls());
    assert!(!game.otter.is_invincible);
    assert_eq!(game.invincibility_check_score, None);
    assert_eq!(game.otter.state, OtterState::SwimmingDown);
}

#[test]
fn reset_clears_everything_but_high_score() {
    let mut game = playing_at_top();
    game.high_score = 42;
    game.score = 900;
    game.coins.push(Coin::new(10));
    game.fish.push(Fish::new(10));
    game.missiles.push(Missile::new(10));
    game.otter.activate_invincibility();
    game.invincibility_check_score = Some(5000);
    game.obstacle_timer = 700;
    game.obstacle_spawn_rate = 1000;
    game.state = GameState::GameOver;
    game.reset();
    assert_eq!(game.score, 0);
    assert_eq!(game.high_score, 42);
    assert!(game.missiles.is_empty() && game.coins.is_empty() && game.fish.is_empty());
    assert!(!game.otter.is_invincible);
    assert_eq!(game.invincibility_check_score, None);
    assert_eq!(game.obstacle_timer, 0);
    assert_eq!(game.obstacle_spawn_rate, OBSTACLE_SPAWN_RATE_START);
    assert_eq!(game.state, GameState::Playing);
    assert!(game.take_pending_sounds().is_empty());
}

#[test]
fn input_drives_state_machine() {
    let mut game = Game::default();
    assert_eq!(game.state, GameState::Menu);
    game.handle_space_released();
    assert_eq!(game.state, GameState::Menu);
    game.handle_space_pressed();
    assert_eq!(game.state, GameState::Playing);
    game.handle_space_pressed();
    assert_eq!(game.otter.velocity_y, -OTTER_VELOCITY);
    assert_eq!(game.otter.state, OtterState::SwimmingUp);
    game.handle_space_released();
    assert_eq!(game.otter.velocity_y, OTTER_VELOCITY);
    game.state = GameState::GameOver;
    game.high_score = 77;
    game.score = 12;
    game.handle_space_pressed();
    assert_eq!(game.state, GameState::Playing);
    assert_eq!(game.score, 0);
    assert_eq!(game.high_score, 77);
    game.start();
    assert_eq!(game.state, GameState::Playing);
}

#[test]
fn update_does_nothing_off_play() {
    let mut game = Game::new();
    game.update();
    assert_eq!(game.state, GameState::Menu);
    assert_eq!(game.score, 0);
    assert!(game.missiles.is_empty());
}

#[test]
fn can_update_guards_score_headroom() {
    let mut game = Game::new();
    game.start();
    assert!(game.can_update());
    game.score = u32::MAX - 100;
    assert!(!game.can_update());
    game.score = 0;
    game.obstacle_timer = u32::MAX;
    assert!(!game.can_update());
}

#[test]
fn menu_screens_and_names() {
    let mut menu = Menu::new();
    assert_eq!(menu.state().as_str(), "start");
    assert!(menu.is_visible());
    assert_eq!(menu.get_source_rect(), ClipRect::new(12, 32, 480, 320));
    menu.to_playing();
    assert_eq!(menu.state().as_str(), "playing");
    assert!(!menu.is_visible());
    menu.to_game_over();
    assert_eq!(menu.state().as_str(), "game_over");
    assert_eq!(menu.get_source_rect(), ClipRect::new(12, 505, 480, 320));
    assert_eq!(MenuState::new_game_over(), menu.state());
}

#[test]
fn sprite_otter_starts_walking() {
    let o = SpriteOtter::new();
    assert_eq!(o.get_source_rect(), ClipRect::new(312, 0, 32, 32));
    assert!(!o.is_dead());
    assert!(!o.is_super());
}
