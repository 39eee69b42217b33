use platformer::camera::{
    update_camera_center, update_camera_center_inside_map, update_camera_center_smooth_follow,
    update_camera_even_out_on_landing, update_camera_player_bounds_push, Camera,
    CameraController, EvenOut, CAMERA_MODES, ZOOM_MAX, ZOOM_MIN,
};
use platformer::geometry::{floor_div, isqrt, Rect, Vec2};
use platformer::physics::{Color, EnvItem, ItemKind, Player};

const PX: i64 = 1_000_000;
const W: i64 = 800 * PX;
const H: i64 = 450 * PX;

fn at(x: i64, y: i64) -> Player {
    Player { position: Vec2::new(x * PX, y * PX), speed: 0, can_jump: false }
}

fn camera_at(x: i64, y: i64) -> Camera {
    Camera::new(Vec2::new(x * PX, y * PX), Vec2::new(0, 0))
}

fn item(x: i64, y: i64, w: i64, h: i64, kind: ItemKind) -> EnvItem {
    EnvItem {
        rect: Rect::new(x * PX, y * PX, w * PX, h * PX),
        kind,
        color: Color { r: 0, g: 0, b: 0, a: 255 },
    }
}

#[test]
fn zoom_clamps_to_range() {
    let mut up = camera_at(0, 0);
    assert_eq!(up.zoom, 100);
    up.apply_zoom(100);
    assert_eq!(up.zoom, 300);
    assert_eq!(up.zoom, ZOOM_MAX);
    let mut down = camera_at(0, 0);
    down.apply_zoom(-100);
    assert_eq!(down.zoom, 50);
    assert_eq!(down.zoom, ZOOM_MIN);
    let mut small = camera_at(0, 0);
    small.apply_zoom(1);
    assert_eq!(small.zoom, 105);
    small.apply_zoom(i64::MIN);
    assert_eq!(small.zoom, 50);
    small.apply_zoom(i64::MAX);
    assert_eq!(small.zoom, 300);
}

#[test]
fn five_switches_return_to_first_strategy() {
    for start in 0..CAMERA_MODES {
        let mut c = CameraController::new();
        for _ in 0..start {
            c.cycle();
        }
        assert_eq!(c.mode, start);
        for _ in 0..5 {
            c.cycle();
        }
        assert_eq!(c.mode, start);
    }
    let mut c = CameraController::new();
    c.cycle();
    assert_eq!(c.mode, 1);
}

#[test]
fn switching_forgets_even_out_memory() {
    let mut c = CameraController::new();
    c.even_out = EvenOut { evening_out: true, goal: 7 };
    c.cycle();
    assert_eq!(c.even_out, EvenOut::new());
}

#[test]
fn projection_scales_and_rounds_down() {
    let mut cam = Camera::new(Vec2::new(0, 0), Vec2::new(400 * PX, 225 * PX));
    cam.apply_zoom(20);
    assert_eq!(cam.zoom, 200);
    assert_eq!(cam.world_to_screen(Vec2::new(10 * PX, -5 * PX)), Vec2::new(420 * PX, 215 * PX));
    let half = Camera { zoom: 50, ..cam };
    assert_eq!(half.world_to_screen(Vec2::new(-1, 1)), Vec2::new(400 * PX - 1, 225 * PX));
}

#[test]
fn center_locks_onto_actor() {
    let mut cam = camera_at(3, 4);
    update_camera_center(&mut cam, &at(400, 280), W, H);
    assert_eq!(cam.target, Vec2::new(400 * PX, 280 * PX));
    assert_eq!(cam.offset, Vec2::new(400 * PX, 225 * PX));
    assert_eq!(cam.zoom, 100);
}

#[test]
fn inside_map_keeps_large_map_centred() {
    let items = vec![
        item(-1000, -1000, 3680, 3040, ItemKind::Background),
        item(0, 400, 1000, 200, ItemKind::Solid),
        item(300, 200, 400, 10, ItemKind::Solid),
    ];
    let mut cam = camera_at(0, 0);
    update_camera_center_inside_map(&mut cam, &at(400, 280), &items, W, H);
    assert_eq!(cam.target, Vec2::new(400 * PX, 280 * PX));
    assert_eq!(cam.offset, Vec2::new(400 * PX, 225 * PX));
}

#[test]
fn inside_map_shifts_view_at_map_edges() {
    let items = vec![item(0, 400, 1000, 200, ItemKind::Solid)];
    let mut cam = camera_at(0, 0);
    update_camera_center_inside_map(&mut cam, &at(400, 280), &items, W, H);
    assert_eq!(cam.offset, Vec2::new(400 * PX, -120 * PX));
    update_camera_center_inside_map(&mut cam, &at(700, 280), &items, W, H);
    assert_eq!(cam.offset, Vec2::new(500 * PX, -120 * PX));
}

#[test]
fn smooth_follow_moves_part_of_the_way() {
    let mut cam = camera_at(0, 0);
    update_camera_center_smooth_follow(&mut cam, &at(100, 0), 1000, W, H);
    assert_eq!(cam.target, Vec2::new(80 * PX, 0));
    assert_eq!(cam.offset, Vec2::new(400 * PX, 225 * PX));
    let mut diagonal = camera_at(0, 0);
    update_camera_center_smooth_follow(&mut diagonal, &at(30, 40), 500, W, H);
    assert_eq!(diagonal.target, Vec2::new(12 * PX, 16 * PX));
}

#[test]
fn smooth_follow_has_a_speed_floor() {
    let mut cam = camera_at(0, 0);
    update_camera_center_smooth_follow(&mut cam, &at(20, 0), 100, W, H);
    assert_eq!(cam.target, Vec2::new(3 * PX, 0));
}

#[test]
fn smooth_follow_rests_near_the_actor() {
    let mut cam = camera_at(0, 0);
    update_camera_center_smooth_follow(&mut cam, &at(6, 8), 1000, W, H);
    assert_eq!(cam.target, Vec2::new(0, 0));
    update_camera_center_smooth_follow(&mut cam, &at(0, -10), 1000, W, H);
    assert_eq!(cam.target, Vec2::new(0, 0));
}

#[test]
fn even_out_ramps_to_landing_height() {
    let mut cam = camera_at(0, 280);
    let mut state = EvenOut::new();
    let grounded = Player { position: Vec2::new(50 * PX, 400 * PX), speed: 0, can_jump: true };
    update_camera_even_out_on_landing(&mut cam, &grounded, &mut state, 100, W, H);
    assert_eq!(cam.target, Vec2::new(50 * PX, 280 * PX));
    assert_eq!(cam.offset, Vec2::new(400 * PX, 225 * PX));
    assert_eq!(state, EvenOut { evening_out: true, goal: 400 * PX });
    update_camera_even_out_on_landing(&mut cam, &grounded, &mut state, 100, W, H);
    assert_eq!(cam.target.y, 350 * PX);
    assert!(state.evening_out);
    update_camera_even_out_on_landing(&mut cam, &grounded, &mut state, 100, W, H);
    assert_eq!(cam.target.y, 400 * PX);
    assert!(!state.evening_out);
    update_camera_even_out_on_landing(&mut cam, &grounded, &mut state, 100, W, H);
    assert_eq!(cam.target.y, 400 * PX);
    assert!(!state.evening_out);
}

#[test]
fn even_out_ramps_upwards_too() {
    let mut cam = camera_at(0, 400);
    let mut state = EvenOut { evening_out: true, goal: 380 * PX };
    update_camera_even_out_on_landing(&mut cam, &at(0, 0), &mut state, 10, W, H);
    assert_eq!(cam.target.y, 393 * PX);
    update_camera_even_out_on_landing(&mut cam, &at(0, 0), &mut state, 100, W, H);
    assert_eq!(cam.target.y, 380 * PX);
    assert!(!state.evening_out);
}

#[test]
fn even_out_waits_while_airborne() {
    let mut cam = camera_at(0, 280);
    let mut state = EvenOut::new();
    let falling = Player { position: Vec2::new(0, 400 * PX), speed: 10, can_jump: false };
    update_camera_even_out_on_landing(&mut cam, &falling, &mut state, 100, W, H);
    assert_eq!(cam.target.y, 280 * PX);
    assert_eq!(state, EvenOut::new());
}

#[test]
fn bounds_push_trails_by_overflow() {
    let mut cam = camera_at(0, 0);
    update_camera_player_bounds_push(&mut cam, &at(400, 280), W, H);
    assert_eq!(cam.offset, Vec2::new(320 * PX, 180 * PX));
    assert_eq!(cam.target, Vec2::new(400 * PX, 190 * PX));
}

#[test]
fn controller_runs_strategy_in_use() {
    let mut c = CameraController::new();
    let mut cam = camera_at(0, 0);
    let items: Vec<EnvItem> = vec![];
    c.update(&mut cam, &at(10, 20), &items, 16, W, H);
    assert_eq!(cam.target, Vec2::new(10 * PX, 20 * PX));
    c.cycle();
    c.cycle();
    let mut follow = camera_at(0, 0);
    c.update(&mut follow, &at(100, 0), &items, 1000, W, H);
    assert_eq!(follow.target, Vec2::new(80 * PX, 0));
    c.cycle();
    c.cycle();
    let mut push = camera_at(0, 0);
    c.update(&mut push, &at(400, 280), &items, 16, W, H);
    assert_eq!(push.target, Vec2::new(400 * PX, 190 * PX));
}

#[test]
fn integer_square_root() {
    assert_eq!(isqrt(0), 0);
    assert_eq!(isqrt(15), 3);
    assert_eq!(isqrt(16), 4);
    assert_eq!(isqrt(2_500_000_000_000_000), 50_000_000);
    assert_eq!(isqrt((1u128 << 120) - 1), (1u128 << 60) - 1);
}

#[test]
fn floor_division_rounds_down() {
    assert_eq!(floor_div(7, 2), 3);
    assert_eq!(floor_div(-7, 2), -4);
    assert_eq!(floor_div(-1, 100), -1);
    assert_eq!(floor_div(-200, 100), -2);
    assert_eq!(floor_div(0, 3), 0);
}

#[test]
fn inside_map_uses_bounding_box_of_items_only() {
    let items = vec![item(2000, 2000, 100, 100, ItemKind::Solid)];
    let mut cam = camera_at(0, 0);
    update_camera_center_inside_map(&mut cam, &at(2050, 2050), &items, W, H);
    assert_eq!(cam.target, Vec2::new(2050 * PX, 2050 * PX));
    assert_eq!(cam.offset, Vec2::new(50 * PX, 50 * PX));
}

#[test]
fn inside_map_with_no_items_stays_centred() {
    let items: Vec<EnvItem> = vec![];
    let mut cam = camera_at(0, 0);
    update_camera_center_inside_map(&mut cam, &at(2050, -30), &items, W, H);
    assert_eq!(cam.target, Vec2::new(2050 * PX, -30 * PX));
    assert_eq!(cam.offset, Vec2::new(400 * PX, 225 * PX));
}

#[test]
fn smooth_follow_starts_just_past_threshold() {
    let mut cam = camera_at(0, 0);
    let just_past = Player { position: Vec2::new(6 * PX, 8 * PX + 1), speed: 0, can_jump: false };
    update_camera_center_smooth_follow(&mut cam, &just_past, 100, W, H);
    assert_eq!(cam.target, Vec2::new(1_800_000, 2_400_000));
    let mut straight = camera_at(0, 0);
    let edge = Player { position: Vec2::new(10 * PX + 1, 0), speed: 0, can_jump: false };
    update_camera_center_smooth_follow(&mut straight, &edge, 1000, W, H);
    assert_eq!(straight.target, Vec2::new(30 * PX, 0));
}
