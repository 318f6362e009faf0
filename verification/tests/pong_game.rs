use minigames::geom::Vec2i;
use minigames::net_pong::ball::{isqrt, normalize_milli, Ball, DEFAULT_SPEED};
use minigames::net_pong::lobby::{Lobby, TitleRole, DEFAULT_PORT, MAX_CLIENTS};
use minigames::net_pong::paddle::{Paddle, MOTION_SPEED};
use minigames::net_pong::pong::{Pong, SCORE_TO_WIN};

#[test]
fn score_increments_named_side() {
    let mut p = Pong::init();
    let out = p.update_score(true);
    assert_eq!((p.score_left, p.score_right), (1, 0));
    assert!(out.left_changed);
    assert_eq!(out.score_text, "1");
    assert!(!out.game_ended);
    let out = p.update_score(false);
    assert_eq!((p.score_left, p.score_right), (1, 1));
    assert!(!out.left_changed);
    assert_eq!(out.score_text, "1");
}

#[test]
fn tenth_point_ends_the_game() {
    let mut p = Pong::init();
    for i in 1..SCORE_TO_WIN {
        let out = p.update_score(true);
        assert!(!out.game_ended, "game ended early at {i}");
        assert!(!out.show_winner_left && !out.show_winner_right);
    }
    let out = p.update_score(true);
    assert_eq!(p.score_left, SCORE_TO_WIN);
    assert!(out.game_ended);
    assert!(out.show_winner_left);
    assert!(!out.show_winner_right);
}

#[test]
fn right_side_can_win_too() {
    let mut p = Pong::init();
    for _ in 0..SCORE_TO_WIN {
        p.update_score(false);
    }
    assert_eq!(p.score_right, SCORE_TO_WIN);
    let mut q = Pong::init();
    let mut last = q.update_score(false);
    for _ in 1..SCORE_TO_WIN {
        last = q.update_score(false);
    }
    assert!(last.game_ended);
    assert!(last.show_winner_right);
    assert!(!last.show_winner_left);
}

#[test]
fn authority_assignment() {
    assert_eq!(Pong::player2_authority(true, 7, 99), 7);
    assert_eq!(Pong::player2_authority(false, 7, 99), 99);
}

#[test]
fn lobby_constants() {
    assert_eq!(DEFAULT_PORT, 8910);
    assert_eq!(MAX_CLIENTS, 1);
}

#[test]
fn lobby_host_failure_reports_address_in_use() {
    let mut l = Lobby::init();
    let title = l.on_host_pressed(false);
    assert_eq!(title, None);
    assert_eq!(l.status_fail, "Can't host, address in use.");
    assert_eq!(l.status_ok, "");
    assert!(!l.buttons_disabled);
    assert!(!l.attached);
}

#[test]
fn lobby_host_success_waits_for_player() {
    let mut l = Lobby::init();
    let title = l.on_host_pressed(true);
    assert_eq!(title, Some(TitleRole::Server));
    assert_eq!(l.status_ok, "Waiting for player...");
    assert_eq!(l.status_fail, "");
    assert!(l.buttons_disabled);
    assert!(l.attached);
    assert!(l.port_forward_visible);
}

#[test]
fn lobby_join_rejects_bad_address() {
    let mut l = Lobby::init();
    let title = l.on_join_pressed(false);
    assert_eq!(title, None);
    assert_eq!(l.status_fail, "IP address is invalid.");
    assert!(!l.attached);
}

#[test]
fn lobby_join_connects() {
    let mut l = Lobby::init();
    let title = l.on_join_pressed(true);
    assert_eq!(title, Some(TitleRole::Client));
    assert_eq!(l.status_ok, "Connecting...");
    assert!(l.attached);
    assert!(!l.buttons_disabled);
}

#[test]
fn lobby_connection_failure_recovers() {
    let mut l = Lobby::init();
    l.on_join_pressed(true);
    l.on_connection_failed();
    assert_eq!(l.status_fail, "Couldn't connect.");
    assert!(!l.attached);
    assert!(!l.buttons_disabled);
}

#[test]
fn lobby_session_lifecycle() {
    let mut l = Lobby::init();
    l.on_host_pressed(true);
    l.on_peer_connected();
    assert!(l.in_game);
    assert!(!l.panel_visible);
    l.on_peer_disconnected(true);
    assert!(!l.in_game);
    assert!(l.panel_visible);
    assert_eq!(l.status_fail, "Client disconnected.");
    assert!(!l.buttons_disabled);
}

#[test]
fn lobby_client_loses_server() {
    let mut l = Lobby::init();
    l.on_join_pressed(true);
    l.on_peer_connected();
    l.on_server_disconnected();
    assert_eq!(l.status_fail, "Server disconnected.");
    assert!(l.panel_visible);
}

#[test]
fn paddle_owner_moves_and_broadcasts() {
    let mut p = Paddle::init(true);
    let out = p.process(Vec2i::new(20_000, 100_000), true, 1000, 16_000, 480_000);
    assert_eq!(p.motion, 1000 * MOTION_SPEED);
    assert!(p.you_hidden);
    let sync = out.sync.expect("the owner broadcasts");
    assert_eq!((sync.position.x, sync.position.y), (20_000, 100_000));
    assert_eq!(sync.motion, 150_000);
    // 150 units/s for 16 ms: 2.4 units.
    assert_eq!((out.position.x, out.position.y), (20_000, 102_400));
}

#[test]
fn paddle_mirror_keeps_last_motion() {
    let mut p = Paddle::init(false);
    let _ = p.set_pos_and_motion(Vec2i::new(600_000, 50_000), -150_000);
    let out = p.process(Vec2i::new(600_000, 50_000), false, 1000, 16_000, 480_000);
    assert!(out.sync.is_none());
    assert_eq!(p.motion, -150_000);
    assert!(p.you_hidden);
    assert_eq!(out.position.y, 47_600);
}

#[test]
fn paddle_respects_screen_margins() {
    let mut p = Paddle::init(true);
    let out = p.process(Vec2i::new(20_000, 16_500), true, -1000, 16_000, 480_000);
    assert_eq!(out.position.y, 16_000);
    let out = p.process(Vec2i::new(20_000, 463_900), true, 1000, 16_000, 480_000);
    assert_eq!(out.position.y, 464_000);
}

#[test]
fn paddle_only_owner_triggers_bounce() {
    let p = Paddle::init(true);
    assert_eq!(p.on_area_entered(true), Some(true));
    assert_eq!(p.on_area_entered(false), None);
    let q = Paddle::init(false);
    assert_eq!(q.on_area_entered(true), Some(false));
}

#[test]
fn isqrt_exact_values() {
    assert_eq!(isqrt(0), 0);
    assert_eq!(isqrt(1), 1);
    assert_eq!(isqrt(3), 1);
    assert_eq!(isqrt(4), 2);
    assert_eq!(isqrt(999_999), 999);
    assert_eq!(isqrt(1_000_000), 1000);
    assert_eq!(isqrt(2_000_000), 1414);
}

#[test]
fn normalize_scales_to_unit() {
    let r = normalize_milli(Vec2i::new(1000, 1000));
    assert_eq!((r.x, r.y), (707, 707));
    let r = normalize_milli(Vec2i::new(-1000, 0));
    assert_eq!((r.x, r.y), (-1000, 0));
    let r = normalize_milli(Vec2i::new(0, 0));
    assert_eq!((r.x, r.y), (0, 0));
}

#[test]
fn ball_moves_and_creeps_up() {
    let mut b = Ball::init();
    assert_eq!(b.speed, DEFAULT_SPEED);
    let screen = Vec2i::new(640_000, 480_000);
    let out = b.process(Vec2i::new(320_000, 240_000), 16_000, screen, true);
    // Speed crept up by 16 thousandths, then the ball moved left.
    assert_eq!(b.speed, 100_016);
    assert_eq!(out.position.x, 320_000 - 1_600);
    assert_eq!(out.position.y, 240_000);
    assert_eq!(out.scored, None);
}

#[test]
fn ball_reflects_on_walls() {
    let mut b = Ball::init();
    b.bounce(true, 0); // heading right and fully up: direction (707, -707)
    assert_eq!((b.direction.x, b.direction.y), (707, -707));
    let screen = Vec2i::new(640_000, 480_000);
    // Put the ball just beyond the top wall, still heading up.
    let out = b.process(Vec2i::new(320_000, 100), 16_000, screen, true);
    assert!(out.position.y < 0);
    assert_eq!((b.direction.x, b.direction.y), (707, 707));
}

#[test]
fn ball_scoring_sides() {
    let screen = Vec2i::new(640_000, 480_000);
    let mut b = Ball::init();
    // The host watches its own (left) edge.
    let out = b.process(Vec2i::new(500, 240_000), 16_000, screen, true);
    assert_eq!(out.scored, Some(false));
    // The guest watches the right edge.
    let mut c = Ball::init();
    c.bounce(true, 500); // heading right, level
    assert_eq!((c.direction.x, c.direction.y), (1000, 0));
    let out = c.process(Vec2i::new(639_900, 240_000), 16_000, screen, false);
    assert_eq!(out.scored, Some(true));
}

#[test]
fn ball_bounce_speeds_up_by_a_tenth() {
    let mut b = Ball::init();
    b.bounce(false, 500);
    assert_eq!(b.speed, DEFAULT_SPEED + DEFAULT_SPEED / 10);
    assert_eq!((b.direction.x, b.direction.y), (-1000, 0));
}

#[test]
fn ball_stop_freezes_position() {
    let mut b = Ball::init();
    b.stop();
    let screen = Vec2i::new(640_000, 480_000);
    let out = b.process(Vec2i::new(320_000, 240_000), 16_000, screen, true);
    assert_eq!((out.position.x, out.position.y), (320_000, 240_000));
}

#[test]
fn ball_reset_recenters() {
    let mut b = Ball::init();
    b.bounce(true, 250);
    let screen = Vec2i::new(640_000, 480_000);
    let pos = b.reset_ball(true, screen);
    assert_eq!((pos.x, pos.y), (320_000, 240_000));
    assert_eq!((b.direction.x, b.direction.y), (-1000, 0));
    assert_eq!(b.speed, DEFAULT_SPEED);
    let pos = b.reset_ball(false, screen);
    assert_eq!((b.direction.x, b.direction.y), (1000, 0));
    assert_eq!((pos.x, pos.y), (320_000, 240_000));
}
