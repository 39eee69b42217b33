use platformer::geometry::{Rect, Vec2};
use platformer::physics::{
    update_player, Color, EnvItem, Input, ItemKind, Player, GRAVITY, HORIZONTAL_STEP, JUMP_SPEED,
    SPAWN_X, SPAWN_Y,
};

const PX: i64 = 1_000_000;

fn solid(x: i64, y: i64, w: i64, h: i64) -> EnvItem {
    EnvItem {
        rect: Rect::new(x * PX, y * PX, w * PX, h * PX),
        kind: ItemKind::Solid,
        color: Color { r: 130, g: 130, b: 130, a: 255 },
    }
}

fn background(x: i64, y: i64, w: i64, h: i64) -> EnvItem {
    EnvItem { kind: ItemKind::Background, ..solid(x, y, w, h) }
}

fn actor(x: i64, y: i64, speed: i64, can_jump: bool) -> Player {
    Player { position: Vec2::new(x, y), speed, can_jump }
}

const IDLE: Input = Input { left: false, right: false, jump: false };

#[test]
fn falling_actor_lands_on_platform_top() {
    let items = vec![solid(300, 285, 400, 10)];
    let mut p = actor(400 * PX, 280 * PX, 50_000, false);
    update_player(&mut p, &items, IDLE, 100);
    assert_eq!(p.position, Vec2::new(400 * PX, 285 * PX));
    assert_eq!(p.speed, 0);
    assert!(p.can_jump);
}

#[test]
fn resting_actor_above_platform_falls_freely() {
    let items = vec![solid(300, 285, 400, 10)];
    let mut p = actor(400 * PX, 280 * PX, 0, false);
    update_player(&mut p, &items, IDLE, 100);
    assert_eq!(p.position.y, 280 * PX);
    assert_eq!(p.speed, 90_000);
    assert!(!p.can_jump);
}

#[test]
fn landing_speed_and_position_for_many_frame_lengths() {
    for dt in [1i64, 16, 17, 33, 100, 250] {
        let items = vec![solid(0, 400, 1000, 200)];
        let mut p = actor(500 * PX, 400 * PX - 1000 * dt, 1000, false);
        update_player(&mut p, &items, IDLE, dt);
        assert_eq!(p.position.y, 400 * PX);
        assert_eq!(p.speed, 0);
        assert!(p.can_jump);
    }
}

#[test]
fn free_fall_gains_gravity_each_frame() {
    let items: Vec<EnvItem> = vec![];
    let mut p = actor(400 * PX, 280 * PX, 0, true);
    update_player(&mut p, &items, IDLE, 16);
    assert_eq!(p.speed, GRAVITY * 16);
    assert_eq!(p.speed, 14_400);
    assert!(!p.can_jump);
    let before = p.speed;
    update_player(&mut p, &items, IDLE, 16);
    assert_eq!(p.speed, before + 14_400);
    assert_eq!(p.position.y, 280 * PX + 14_400 * 16);
}

#[test]
fn jump_after_grounded_frame() {
    let items = vec![solid(300, 285, 400, 10)];
    let mut p = actor(400 * PX, 280 * PX, 50_000, false);
    update_player(&mut p, &items, IDLE, 100);
    assert!(p.can_jump);
    let jump = Input { left: false, right: false, jump: true };
    update_player(&mut p, &items, jump, 16);
    assert!(!p.can_jump);
    assert_eq!(p.position.y, 285 * PX - JUMP_SPEED * 16);
    assert_eq!(p.speed, -450_000 + 14_400);
}

#[test]
fn jump_needs_ground() {
    let items: Vec<EnvItem> = vec![];
    let mut p = actor(0, 0, 1000, false);
    let jump = Input { left: false, right: false, jump: true };
    update_player(&mut p, &items, jump, 10);
    assert_eq!(p.speed, 1000 + 9000);
    assert_eq!(p.position.y, 10_000);
}

#[test]
fn background_items_do_not_stop_the_actor() {
    let items = vec![background(300, 285, 400, 10)];
    let mut p = actor(400 * PX, 280 * PX, 50_000, false);
    update_player(&mut p, &items, IDLE, 100);
    assert_eq!(p.position.y, 285 * PX);
    assert_eq!(p.speed, 50_000 + 90_000);
    assert!(!p.can_jump);
}

#[test]
fn first_listed_solid_wins_over_nearer_one() {
    let items = vec![solid(300, 290, 400, 10), solid(300, 284, 400, 10)];
    let mut p = actor(400 * PX, 280 * PX, 100_000, false);
    update_player(&mut p, &items, IDLE, 100);
    assert_eq!(p.position.y, 290 * PX);
}

#[test]
fn span_edges_are_inclusive() {
    let items = vec![solid(300, 285, 400, 10)];
    let mut right = actor(700 * PX, 285 * PX, 0, false);
    update_player(&mut right, &items, IDLE, 16);
    assert!(right.can_jump);
    assert_eq!(right.position.y, 285 * PX);
    let mut left = actor(300 * PX, 280 * PX, 50_000, false);
    update_player(&mut left, &items, IDLE, 100);
    assert!(left.can_jump);
    let mut outside = actor(700 * PX + 1, 285 * PX, 0, false);
    update_player(&mut outside, &items, IDLE, 16);
    assert!(!outside.can_jump);
}

#[test]
fn rising_actor_passes_through_platform() {
    let items = vec![solid(300, 270, 400, 10)];
    let mut p = actor(400 * PX, 280 * PX, -450_000, false);
    update_player(&mut p, &items, IDLE, 100);
    assert_eq!(p.position.y, 280 * PX - 45 * PX);
    assert!(!p.can_jump);
}

#[test]
fn horizontal_input_moves_by_fixed_speed() {
    let items: Vec<EnvItem> = vec![];
    let mut p = actor(400 * PX, 0, 0, false);
    let left = Input { left: true, right: false, jump: false };
    update_player(&mut p, &items, left, 100);
    assert_eq!(p.position.x, 357 * PX);
    assert_eq!(HORIZONTAL_STEP * 100, 43 * PX);
    let both = Input { left: true, right: true, jump: false };
    update_player(&mut p, &items, both, 100);
    assert_eq!(p.position.x, 357 * PX);
    let right = Input { left: false, right: true, jump: false };
    update_player(&mut p, &items, right, 1000);
    assert_eq!(p.position.x, 787 * PX);
}

#[test]
fn reset_returns_to_spawn() {
    let mut p = actor(-3 * PX, 77 * PX, -123_456, true);
    p.reset();
    assert_eq!(p, Player::spawn());
    assert_eq!(p.position, Vec2::new(SPAWN_X, SPAWN_Y));
    assert_eq!(p.position, Vec2::new(400 * PX, 280 * PX));
    assert_eq!(p.speed, 0);
    assert!(!p.can_jump);
}

#[test]
fn reset_rule_fires_outside_world_or_on_request() {
    let inside = actor(100 * PX, 1800 * PX, 5, true);
    let mut p = inside;
    assert!(!p.reset_if_needed(false));
    assert_eq!(p, inside);
    assert!(p.reset_if_needed(true));
    assert_eq!(p, Player::spawn());
    for out in [
        actor(-500 * PX - 1, 0, 0, false),
        actor(1500 * PX + 1, 0, 0, false),
        actor(0, 1800 * PX + 1, 0, false),
    ] {
        let mut q = out;
        assert!(q.is_out_of_world());
        assert!(q.reset_if_needed(false));
        assert_eq!(q, Player::spawn());
    }
}
