use minigames::dodge::hud::Hud;
use minigames::dodge::main_scene::{mob_direction, Main};
use minigames::dodge::mob::{Mob, MOB_MAX_SPEED, MOB_MIN_SPEED};
use minigames::dodge::player::{DirectionInput, Player, SpriteAnimation, PLAYER_SPEED};
use minigames::geom::Vec2i;

fn no_input() -> DirectionInput {
    DirectionInput { right: false, left: false, down: false, up: false }
}

#[test]
fn player_moves_right_at_speed() {
    let mut p = Player::init();
    p.ready(Vec2i::new(640_000, 480_000));
    p.start(Vec2i::new(100_000, 100_000));
    let input = DirectionInput { right: true, ..no_input() };
    // 400 units/s for 16 ms: 6.4 units.
    let anim = p.process(input, 16_000);
    assert_eq!(anim, SpriteAnimation::Right { flip_h: false });
    assert_eq!((p.position.x, p.position.y), (106_400, 100_000));
}

#[test]
fn player_diagonal_is_normalized() {
    let mut p = Player::init();
    p.ready(Vec2i::new(640_000, 480_000));
    p.start(Vec2i::new(100_000, 100_000));
    let input = DirectionInput { right: true, down: true, ..no_input() };
    // The 6400 per-axis step is scaled by 707/1000.
    p.process(input, 16_000);
    assert_eq!((p.position.x, p.position.y), (104_524, 104_524));
}

#[test]
fn player_is_clamped_to_screen() {
    let mut p = Player::init();
    p.ready(Vec2i::new(640_000, 480_000));
    p.start(Vec2i::new(1_000, 479_500));
    let input = DirectionInput { left: true, down: true, ..no_input() };
    p.process(input, 16_000);
    assert_eq!((p.position.x, p.position.y), (0, 480_000));
}

#[test]
fn player_animation_flips() {
    let mut p = Player::init();
    p.ready(Vec2i::new(640_000, 480_000));
    let left = p.process(DirectionInput { left: true, ..no_input() }, 16_000);
    assert_eq!(left, SpriteAnimation::Right { flip_h: true });
    let up = p.process(DirectionInput { up: true, ..no_input() }, 16_000);
    assert_eq!(up, SpriteAnimation::Up { flip_v: false });
    let down = p.process(DirectionInput { down: true, ..no_input() }, 16_000);
    assert_eq!(down, SpriteAnimation::Up { flip_v: true });
    let still = p.process(no_input(), 16_000);
    assert_eq!(still, SpriteAnimation::Stopped);
}

#[test]
fn opposed_inputs_cancel() {
    let mut p = Player::init();
    p.ready(Vec2i::new(640_000, 480_000));
    p.start(Vec2i::new(100_000, 100_000));
    let input = DirectionInput { right: true, left: true, down: false, up: false };
    let anim = p.process(input, 16_000);
    assert_eq!(anim, SpriteAnimation::Stopped);
    assert_eq!((p.position.x, p.position.y), (100_000, 100_000));
}

#[test]
fn player_hit_hides_and_disables() {
    let mut p = Player::init();
    p.ready(Vec2i::new(640_000, 480_000));
    p.start(Vec2i::new(0, 0));
    p.on_player_body_entered();
    assert!(!p.visible);
    assert!(!p.collision_enabled);
}

#[test]
fn player_speed_default() {
    let p = Player::init();
    assert_eq!(p.speed, PLAYER_SPEED);
}

#[test]
fn hud_messages() {
    let mut h = Hud::init();
    h.show_game_over();
    assert_eq!(h.message_text, "Game Over");
    assert!(h.message_visible);
    assert!(h.message_timer_running);
    h.on_message_timer_timeout();
    assert!(!h.message_visible);
    h.show_start_button();
    assert_eq!(h.message_text, "Dodge the\nCreeps!");
    assert!(h.start_button_visible);
    h.on_start_button_pressed();
    assert!(!h.start_button_visible);
}

#[test]
fn hud_score_text() {
    let mut h = Hud::init();
    h.update_score(0);
    assert_eq!(h.score_text, "0");
    h.update_score(37);
    assert_eq!(h.score_text, "37");
}

#[test]
fn scoring_counts_seconds() {
    let mut m = Main::init();
    let mut h = Hud::init();
    let mut p = Player::init();
    p.ready(Vec2i::new(640_000, 480_000));
    m.new_game(&mut h, &mut p, Vec2i::new(320_000, 240_000));
    assert_eq!(m.score, 0);
    assert_eq!(h.score_text, "0");
    assert_eq!(h.message_text, "Get Ready");
    assert!(m.start_timer_running);
    assert!(m.music_playing);
    m.on_start_timer_timeout();
    assert!(m.score_timer_running && m.mob_timer_running);
    m.on_score_timer_timeout(&mut h);
    m.on_score_timer_timeout(&mut h);
    assert_eq!(m.score, 2);
    assert_eq!(h.score_text, "2");
}

#[test]
fn game_over_stops_everything() {
    let mut m = Main::init();
    let mut h = Hud::init();
    let mut p = Player::init();
    p.ready(Vec2i::new(640_000, 480_000));
    m.new_game(&mut h, &mut p, Vec2i::new(320_000, 240_000));
    m.on_start_timer_timeout();
    m.game_over(&mut h);
    assert!(!m.score_timer_running);
    assert!(!m.mob_timer_running);
    assert!(!m.music_playing);
    assert!(m.death_sound_playing);
    assert_eq!(h.message_text, "Game Over");
}

#[test]
fn mob_spawn_draws_within_ranges() {
    let m = Main::init();
    let mob = Mob::init();
    assert_eq!(mob.min_speed, MOB_MIN_SPEED);
    assert_eq!(mob.max_speed, MOB_MAX_SPEED);
    for _ in 0..100 {
        let spawn = m.on_mob_timer_timeout(&mob);
        assert!((-785..=785).contains(&spawn.angle_offset_mrad));
        assert!((MOB_MIN_SPEED..MOB_MAX_SPEED).contains(&spawn.speed));
    }
}

#[test]
fn mob_spawn_speed_is_pinned_by_a_unit_range() {
    let m = Main::init();
    let mob = Mob { min_speed: 5_000, max_speed: 5_001 };
    let spawn = m.on_mob_timer_timeout(&mob);
    assert_eq!(spawn.speed, 5_000);
}

#[test]
fn mob_animation_pick_is_in_range() {
    let mob = Mob::init();
    assert_eq!(mob.ready(1), 0);
    for _ in 0..50 {
        assert!(mob.ready(3) < 3);
    }
}

#[test]
fn mob_course_adds_quarter_turn() {
    assert_eq!(mob_direction(0, 0), 1_571);
    assert_eq!(mob_direction(3_141, -785), 3_927);
}
