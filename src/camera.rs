//! The camera and its five framing strategies.

use vstd::prelude::*;
use crate::geometry::{coord_ok, floor_div, isqrt, sqrt_floor, wide_ok, Vec2, COORD_MAX};
use crate::physics::{EnvItem, Player, items_bounded, frame_ok};

verus! {

/// Zoom is counted in hundredths: `ZOOM_ONE` draws the world at its size.
pub const ZOOM_ONE: i64 = 100;
pub const ZOOM_MIN: i64 = 50;
pub const ZOOM_MAX: i64 = 300;

/// Zoom change for one notch of the zoom control.
pub const ZOOM_STEP: i64 = 5;

/// The view: the world point `target` is drawn at the screen point `offset`,
/// scaled by `zoom` hundredths.
#[derive(Clone, Copy, Debug, PartialEq, Eq, Structural)]
pub struct Camera {
    pub target: Vec2,
    pub offset: Vec2,
    pub zoom: i64,
}

pub open spec fn zoom_ok(z: int) -> bool {
    ZOOM_MIN <= z <= ZOOM_MAX
}

pub open spec fn clamp_zoom(z: int) -> int {
    if z > ZOOM_MAX {
        ZOOM_MAX as int
    } else if z < ZOOM_MIN {
        ZOOM_MIN as int
    } else {
        z
    }
}

/// A view size in length units.
pub open spec fn view_ok(width: int, height: int) -> bool {
    0 <= width <= COORD_MAX && 0 <= height <= COORD_MAX
}

pub fn view_in_range(width: i64, height: i64) -> (r: bool)
    ensures
        r == view_ok(width as int, height as int),
{
    0 <= width && width <= COORD_MAX && 0 <= height && height <= COORD_MAX
}

/// The range of a projected coordinate.
pub open spec fn screen_ok(v: int) -> bool {
    -20 * COORD_MAX <= v <= 20 * COORD_MAX
}

/// Where a world coordinate lands on screen along one axis.
pub open spec fn project(world: int, target: int, offset: int, zoom: int) -> int {
    (world - target) * zoom / (ZOOM_ONE as int) + offset
}

impl Camera {
    /// The camera's persistent fields are in range: its target and its zoom.
    pub open spec fn is_valid(&self) -> bool {
        self.target.is_bounded() && zoom_ok(self.zoom as int)
    }

    pub fn in_range(&self) -> (r: bool)
        ensures
            r == self.is_valid(),
    {
        self.target.in_range() && ZOOM_MIN <= self.zoom && self.zoom <= ZOOM_MAX
    }

    pub open spec fn screen_x(&self, x: int) -> int {
        project(x, self.target.x as int, self.offset.x as int, self.zoom as int)
    }

    pub open spec fn screen_y(&self, y: int) -> int {
        project(y, self.target.y as int, self.offset.y as int, self.zoom as int)
    }

    /// A camera at rest at `target`, drawn at `offset`, at zoom one.
    pub fn new(target: Vec2, offset: Vec2) -> (r: Camera)
        ensures
            r.target == target,
            r.offset == offset,
            r.zoom == ZOOM_ONE,
    {
        Camera { target, offset, zoom: ZOOM_ONE }
    }

    /// Adds `notches` zoom steps and clamps the zoom to its range.
    pub fn apply_zoom(&mut self, notches: i64)
        ensures
            final(self).zoom == clamp_zoom(old(self).zoom + ZOOM_STEP * notches),
            final(self).target == old(self).target,
            final(self).offset == old(self).offset,
    {
        assert(-100_000_000_000_000_000_000 <= ZOOM_STEP * notches <= 100_000_000_000_000_000_000) by (nonlinear_arith)
            requires
                i64::MIN <= notches <= i64::MAX,
                ZOOM_STEP == 5,
        ;
        let z: i128 = self.zoom as i128 + ZOOM_STEP as i128 * notches as i128;
        if z > ZOOM_MAX as i128 {
            self.zoom = ZOOM_MAX;
        } else if z < ZOOM_MIN as i128 {
            self.zoom = ZOOM_MIN;
        } else {
            self.zoom = z as i64;
        }
    }

    /// The screen point at which this camera draws the world point `p`.
    pub fn world_to_screen(&self, p: Vec2) -> (r: Vec2)
        requires
            self.is_valid(),
            self.offset.is_bounded(),
            wide_ok(p.x as int),
            wide_ok(p.y as int),
        ensures
            r.x == self.screen_x(p.x as int),
            r.y == self.screen_y(p.y as int),
            screen_ok(r.x as int),
            screen_ok(r.y as int),
    {
        Vec2 {
            x: project_axis(p.x, self.target.x, self.offset.x, self.zoom),
            y: project_axis(p.y, self.target.y, self.offset.y, self.zoom),
        }
    }
}

fn project_axis(world: i64, target: i64, offset: i64, zoom: i64) -> (r: i64)
    requires
        wide_ok(world as int),
        coord_ok(target as int),
        coord_ok(offset as int),
        zoom_ok(zoom as int),
    ensures
        r == project(world as int, target as int, offset as int, zoom as int),
        screen_ok(r as int),
{
    let gap: i128 = world as i128 - target as i128;
    assert(-1_500_000_000_000_000 <= gap * zoom <= 1_500_000_000_000_000) by (nonlinear_arith)
        requires
            -5_000_000_000_000 <= gap <= 5_000_000_000_000,
            50 <= zoom <= 300,
    ;
    let scaled: i128 = gap * zoom as i128;
    let q = floor_div(scaled, ZOOM_ONE as i128);
    proof {
        vstd::arithmetic::div_mod::lemma_div_is_ordered(-1_500_000_000_000_000, scaled as int, 100);
        vstd::arithmetic::div_mod::lemma_div_is_ordered(scaled as int, 1_500_000_000_000_000, 100);
    }
    (q + offset as i128) as i64
}

/// The screen point at the middle of a view.
pub open spec fn half(v: int) -> int {
    v / 2
}

fn center_of(width: i64, height: i64) -> (r: Vec2)
    requires
        view_ok(width as int, height as int),
    ensures
        r.x == half(width as int),
        r.y == half(height as int),
{
    Vec2 { x: floor_div(width as i128, 2) as i64, y: floor_div(height as i128, 2) as i64 }
}

/// The camera sits on the actor, which is drawn at the middle of the view.
pub open spec fn framed_center(
    before: Camera,
    after: Camera,
    player: Player,
    width: int,
    height: int,
) -> bool {
    &&& after.target == player.position
    &&& after.offset.x == half(width)
    &&& after.offset.y == half(height)
    &&& after.zoom == before.zoom
}

/// Locks the camera onto the actor, drawn at the middle of the view.
pub fn update_camera_center(camera: &mut Camera, player: &Player, width: i64, height: i64)
    requires
        view_ok(width as int, height as int),
    ensures
        framed_center(*old(camera), *final(camera), *player, width as int, height as int),
{
    camera.offset = center_of(width, height);
    camera.target = player.position;
}

/// The leftmost edge among the first `n` items, for `n >= 1`.
pub open spec fn left_upto(items: Seq<EnvItem>, n: int) -> int
    decreases n,
{
    if n <= 1 {
        items[0].rect.x as int
    } else {
        let m = left_upto(items, n - 1);
        if items[n - 1].rect.x < m { items[n - 1].rect.x as int } else { m }
    }
}

/// The topmost edge among the first `n` items, for `n >= 1`.
pub open spec fn top_upto(items: Seq<EnvItem>, n: int) -> int
    decreases n,
{
    if n <= 1 {
        items[0].rect.y as int
    } else {
        let m = top_upto(items, n - 1);
        if items[n - 1].rect.y < m { items[n - 1].rect.y as int } else { m }
    }
}

/// The rightmost edge among the first `n` items, for `n >= 1`.
pub open spec fn right_upto(items: Seq<EnvItem>, n: int) -> int
    decreases n,
{
    if n <= 1 {
        items[0].rect.right()
    } else {
        let m = right_upto(items, n - 1);
        if items[n - 1].rect.right() > m { items[n - 1].rect.right() } else { m }
    }
}

/// The bottommost edge among the first `n` items, for `n >= 1`.
pub open spec fn bottom_upto(items: Seq<EnvItem>, n: int) -> int
    decreases n,
{
    if n <= 1 {
        items[0].rect.bottom()
    } else {
        let m = bottom_upto(items, n - 1);
        if items[n - 1].rect.bottom() > m { items[n - 1].rect.bottom() } else { m }
    }
}

/// The offset along one axis that keeps the map's span `[lo, hi]` covering
/// the view, for a camera centred on `pos`: the near edge wins over the far
/// one.
pub open spec fn fit_axis(lo: int, hi: int, pos: int, view: int, zoom: int) -> int {
    let lo_s = project(lo, pos, half(view), zoom);
    let hi_s = project(hi, pos, half(view), zoom);
    if lo_s > 0 {
        half(view) - lo_s
    } else if hi_s < view {
        view - (hi_s - half(view))
    } else {
        half(view)
    }
}

/// The camera sits on the actor, its offset shifted by `fit_axis` against
/// the bounding box of the items; with no items there is nothing to fit and
/// the view stays centred.
pub open spec fn framed_inside_map(
    before: Camera,
    after: Camera,
    player: Player,
    items: Seq<EnvItem>,
    width: int,
    height: int,
) -> bool {
    let n = items.len() as int;
    let zoom = before.zoom as int;
    &&& after.target == player.position
    &&& after.zoom == before.zoom
    &&& n == 0 ==> after.offset.x == half(width) && after.offset.y == half(height)
    &&& n > 0 ==> after.offset.x == fit_axis(
        left_upto(items, n),
        right_upto(items, n),
        player.position.x as int,
        width,
        zoom,
    )
    &&& n > 0 ==> after.offset.y == fit_axis(
        top_upto(items, n),
        bottom_upto(items, n),
        player.position.y as int,
        height,
        zoom,
    )
}

/// Centres the camera on the actor, then shifts the view so that it shows
/// nothing outside the bounding box of the environment.
pub fn update_camera_center_inside_map(
    camera: &mut Camera,
    player: &Player,
    env_items: &[EnvItem],
    width: i64,
    height: i64,
)
    requires
        zoom_ok(old(camera).zoom as int),
        player.position.is_bounded(),
        items_bounded(env_items@),
        view_ok(width as int, height as int),
    ensures
        framed_inside_map(
            *old(camera),
            *final(camera),
            *player,
            env_items@,
            width as int,
            height as int,
        ),
{
    let center = center_of(width, height);
    camera.target = player.position;
    camera.offset = center;
    if env_items.len() == 0 {
        return;
    }
    let ghost items = env_items@;
    let first = env_items[0].rect;
    assert(first.is_bounded());
    let mut min_x: i64 = first.x;
    let mut min_y: i64 = first.y;
    let mut max_x: i64 = first.x + first.width;
    let mut max_y: i64 = first.y + first.height;
    let mut i: usize = 1;
    while i < env_items.len()
        invariant
            1 <= i <= env_items.len(),
            items == env_items@,
            items_bounded(items),
            min_x == left_upto(items, i as int),
            min_y == top_upto(items, i as int),
            max_x == right_upto(items, i as int),
            max_y == bottom_upto(items, i as int),
            coord_ok(min_x as int),
            coord_ok(min_y as int),
            -2 * COORD_MAX <= max_x <= 2 * COORD_MAX,
            -2 * COORD_MAX <= max_y <= 2 * COORD_MAX,
        decreases env_items.len() - i,
    {
        let r = env_items[i].rect;
        assert(r.is_bounded());
        if r.x < min_x {
            min_x = r.x;
        }
        if r.x + r.width > max_x {
            max_x = r.x + r.width;
        }
        if r.y < min_y {
            min_y = r.y;
        }
        if r.y + r.height > max_y {
            max_y = r.y + r.height;
        }
        i = i + 1;
    }
    let far = camera.world_to_screen(Vec2 { x: max_x, y: max_y });
    let near = camera.world_to_screen(Vec2 { x: min_x, y: min_y });
    if far.x < width {
        camera.offset.x = width - (far.x - center.x);
    }
    if far.y < height {
        camera.offset.y = height - (far.y - center.y);
    }
    if near.x > 0 {
        camera.offset.x = center.x - near.x;
    }
    if near.y > 0 {
        camera.offset.y = center.y - near.y;
    }
}

/// Vertical distance the camera catches up per millisecond while evening
/// out (700 px/s).
pub const EVEN_OUT_STEP: i64 = 700_000;

/// The memory of the evening-out strategy: whether a catch-up is under way,
/// and the height it heads for. It lasts from one frame to the next.
#[derive(Clone, Copy, Debug, PartialEq, Eq, Structural)]
pub struct EvenOut {
    pub evening_out: bool,
    pub goal: i64,
}

impl EvenOut {
    pub open spec fn is_valid(&self) -> bool {
        coord_ok(self.goal as int)
    }

    pub open spec fn new_spec() -> EvenOut {
        EvenOut { evening_out: false, goal: 0 }
    }

    /// No catch-up under way.
    pub fn new() -> (r: EvenOut)
        ensures
            r == EvenOut::new_spec(),
    {
        EvenOut { evening_out: false, goal: 0 }
    }
}

/// The camera height after one frame of evening out from `ty`.
pub open spec fn even_out_y(state: EvenOut, ty: int, dt: int) -> int {
    let goal = state.goal as int;
    if !state.evening_out {
        ty
    } else if goal > ty {
        if ty + EVEN_OUT_STEP * dt > goal { goal } else { ty + EVEN_OUT_STEP * dt }
    } else {
        if ty - EVEN_OUT_STEP * dt < goal { goal } else { ty - EVEN_OUT_STEP * dt }
    }
}

/// The strategy's memory after one frame: a catch-up ends when it reaches
/// its goal, and one starts when the actor stands still on the ground at
/// another height than the camera.
pub open spec fn even_out_next(state: EvenOut, ty: int, player: Player, dt: int) -> EvenOut {
    let goal = state.goal as int;
    if state.evening_out {
        let reached = if goal > ty {
            ty + EVEN_OUT_STEP * dt > goal
        } else {
            ty - EVEN_OUT_STEP * dt < goal
        };
        EvenOut { evening_out: !reached, goal: state.goal }
    } else if player.can_jump && player.speed == 0 && player.position.y != ty {
        EvenOut { evening_out: true, goal: player.position.y }
    } else {
        state
    }
}

/// The camera follows the actor horizontally and evens out vertically, the
/// strategy's memory moving on by `even_out_next`.
pub open spec fn framed_even_out(
    before: Camera,
    after: Camera,
    state_before: EvenOut,
    state_after: EvenOut,
    player: Player,
    dt: int,
    width: int,
    height: int,
) -> bool {
    let ty = before.target.y as int;
    &&& after.offset.x == half(width)
    &&& after.offset.y == half(height)
    &&& after.target.x == player.position.x
    &&& after.target.y == even_out_y(state_before, ty, dt)
    &&& after.zoom == before.zoom
    &&& state_after == even_out_next(state_before, ty, player, dt)
}

/// Follows the actor horizontally; vertically, moves only to catch up with
/// the height at which the actor last came to rest.
pub fn update_camera_even_out_on_landing(
    camera: &mut Camera,
    player: &Player,
    state: &mut EvenOut,
    dt: i64,
    width: i64,
    height: i64,
)
    requires
        old(camera).target.is_bounded(),
        old(state).is_valid(),
        player.position.is_bounded(),
        frame_ok(dt as int),
        view_ok(width as int, height as int),
    ensures
        framed_even_out(
            *old(camera),
            *final(camera),
            *old(state),
            *final(state),
            *player,
            dt as int,
            width as int,
            height as int,
        ),
        final(camera).target.is_bounded(),
        final(state).is_valid(),
{
    camera.offset = center_of(width, height);
    camera.target.x = player.position.x;
    let ty = camera.target.y;
    let step = EVEN_OUT_STEP * dt;
    if state.evening_out {
        if state.goal > ty {
            camera.target.y = ty + step;
            if camera.target.y > state.goal {
                camera.target.y = state.goal;
                state.evening_out = false;
            }
        } else {
            camera.target.y = ty - step;
            if camera.target.y < state.goal {
                camera.target.y = state.goal;
                state.evening_out = false;
            }
        }
    } else if player.can_jump && player.speed == 0 && player.position.y != ty {
        state.evening_out = true;
        state.goal = player.position.y;
    }
}

/// The near and far edges of the soft box, along one axis of a view: the
/// middle fifth of it.
pub open spec fn box_near(view: int) -> int {
    view * 2 / 5
}

pub open spec fn box_far(view: int) -> int {
    view * 3 / 5
}

/// The camera target along one axis that keeps the actor inside the soft
/// box: past the box's far edge, the target trails by the overflow.
pub open spec fn push_target(pos: int, view: int, zoom: int) -> int {
    let near = project(box_near(view), pos, half(view), zoom);
    let far = project(box_far(view), pos, half(view), zoom);
    if pos > far {
        near + (pos - far)
    } else {
        pos
    }
}

/// The view is anchored at the soft box's near corner and the target trails
/// the actor by `push_target`.
pub open spec fn framed_bounds_push(
    before: Camera,
    after: Camera,
    player: Player,
    width: int,
    height: int,
) -> bool {
    let zoom = before.zoom as int;
    &&& after.offset.x == box_near(width)
    &&& after.offset.y == box_near(height)
    &&& after.target.x == push_target(player.position.x as int, width, zoom)
    &&& after.target.y == push_target(player.position.y as int, height, zoom)
    &&& after.zoom == before.zoom
}

/// Keeps the actor inside a soft box around the middle of the view, pushing
/// the camera by exactly the amount the actor leaves it by.
pub fn update_camera_player_bounds_push(
    camera: &mut Camera,
    player: &Player,
    width: i64,
    height: i64,
)
    requires
        zoom_ok(old(camera).zoom as int),
        player.position.is_bounded(),
        view_ok(width as int, height as int),
    ensures
        framed_bounds_push(*old(camera), *final(camera), *player, width as int, height as int),
{
    camera.offset = center_of(width, height);
    camera.target = player.position;
    let near_x = floor_div(width as i128 * 2, 5) as i64;
    let near_y = floor_div(height as i128 * 2, 5) as i64;
    let far_x = floor_div(width as i128 * 3, 5) as i64;
    let far_y = floor_div(height as i128 * 3, 5) as i64;
    let box_min = camera.world_to_screen(Vec2 { x: near_x, y: near_y });
    let box_max = camera.world_to_screen(Vec2 { x: far_x, y: far_y });
    camera.offset = Vec2 { x: near_x, y: near_y };
    let p = player.position;
    if p.x < box_min.x {
        camera.target.x = p.x;
    }
    if p.y < box_min.y {
        camera.target.y = p.y;
    }
    if p.x > box_max.x {
        camera.target.x = box_min.x + (p.x - box_max.x);
    }
    if p.y > box_max.y {
        camera.target.y = box_min.y + (p.y - box_max.y);
    }
}

/// Below this distance from the actor the following camera stays put (10 px).
pub const FOLLOW_MIN_DISTANCE: i64 = 10_000_000;

/// Slowest speed of the following camera, per second (30 px/s).
pub const FOLLOW_MIN_SPEED: i64 = 30_000_000;

/// The actor is farther than `FOLLOW_MIN_DISTANCE` from the camera target.
pub open spec fn follows(dx: int, dy: int) -> bool {
    dx * dx + dy * dy > FOLLOW_MIN_DISTANCE * FOLLOW_MIN_DISTANCE
}

/// The distance from the camera target to the actor, rounded down.
pub open spec fn follow_distance(dx: int, dy: int) -> int {
    sqrt_floor(dx * dx + dy * dy)
}

/// How far the following camera moves in `dt` ms at distance `len`: four
/// fifths of the distance per second, but at least `FOLLOW_MIN_SPEED`.
pub open spec fn follow_travel(len: int, dt: int) -> int {
    let fraction = len * 4 / 5;
    let speed = if fraction > FOLLOW_MIN_SPEED { fraction } else { FOLLOW_MIN_SPEED as int };
    speed * dt / 1000
}

/// The target's new coordinate on one axis, `d` being the actor's offset
/// from it on that axis and `len` the distance.
pub open spec fn follow_axis(t: int, d: int, dx: int, dy: int, dt: int) -> int {
    if follows(dx, dy) {
        let len = follow_distance(dx, dy);
        t + d * follow_travel(len, dt) / len
    } else {
        t
    }
}

/// Moves `t` towards the actor along one axis, by `travel` scaled by `d / len`.
fn follow_step(t: i64, d: i128, len: i128, travel: i128) -> (r: i64)
    requires
        coord_ok(t as int),
        0 < len <= 3_000_000_000_000,
        -len <= d <= len,
        0 <= travel <= 4_000_000_000_000_000,
    ensures
        r == t + d * travel / (len as int),
{
    assert(-(len * travel) <= d * travel <= len * travel) by (nonlinear_arith)
        requires
            -len <= d <= len,
            travel >= 0,
    ;
    assert(len * travel <= 8_000_000_000_000_000_000_000_000_000_000_000) by (nonlinear_arith)
        requires
            0 < len <= 2_000_000_000_000_000,
            0 <= travel <= 4_000_000_000_000_000,
    ;
    let q = floor_div(d * travel, len);
    proof {
        vstd::arithmetic::div_mod::lemma_div_is_ordered(d * travel, len * travel, len as int);
        vstd::arithmetic::div_mod::lemma_div_is_ordered(-(len * travel), d * travel, len as int);
        vstd::arithmetic::div_mod::lemma_div_multiples_vanish(travel as int, len as int);
        vstd::arithmetic::div_mod::lemma_div_multiples_vanish(-travel, len as int);
        assert(len * (-travel) == -(len * travel)) by (nonlinear_arith);
    }
    (t as i128 + q) as i64
}

/// The view is centred and the target eases towards the actor by
/// `follow_axis` on each axis.
pub open spec fn framed_smooth_follow(
    before: Camera,
    after: Camera,
    player: Player,
    dt: int,
    width: int,
    height: int,
) -> bool {
    let t = before.target;
    let p = player.position;
    let (dx, dy) = (p.x - t.x, p.y - t.y);
    &&& after.target.x == follow_axis(t.x as int, dx, dx, dy, dt)
    &&& after.target.y == follow_axis(t.y as int, dy, dx, dy, dt)
    &&& after.offset.x == half(width)
    &&& after.offset.y == half(height)
    &&& after.zoom == before.zoom
}

/// Keeps the actor in the middle of the view, the camera target easing
/// towards it; within `FOLLOW_MIN_DISTANCE` the target does not move.
pub fn update_camera_center_smooth_follow(
    camera: &mut Camera,
    player: &Player,
    dt: i64,
    width: i64,
    height: i64,
)
    requires
        old(camera).target.is_bounded(),
        player.position.is_bounded(),
        frame_ok(dt as int),
        view_ok(width as int, height as int),
    ensures
        framed_smooth_follow(*old(camera), *final(camera), *player, dt as int, width as int, height as int),
{
    camera.offset = center_of(width, height);
    let t = camera.target;
    let dx: i128 = player.position.x as i128 - t.x as i128;
    let dy: i128 = player.position.y as i128 - t.y as i128;
    assert(dx * dx + dy * dy <= 8_000_000_000_000_000_000_000_000) by (nonlinear_arith)
        requires
            -2_000_000_000_000 <= dx <= 2_000_000_000_000,
            -2_000_000_000_000 <= dy <= 2_000_000_000_000,
    ;
    assert(dx * dx >= 0 && dy * dy >= 0) by (nonlinear_arith);
    let root = isqrt((dx * dx + dy * dy) as u128);
    let ghost n = dx * dx + dy * dy;
    assert(root <= 3_000_000_000_000) by (nonlinear_arith)
        requires
            root * root <= n,
            n <= 8_000_000_000_000_000_000_000_000,
    {
        if root > 3_000_000_000_000 {
            assert(root * root > 9_000_000_000_000_000_000_000_000) by (nonlinear_arith)
                requires
                    root > 3_000_000_000_000,
            ;
        }
    }
    let len = root as i128;
    if dx * dx + dy * dy > FOLLOW_MIN_DISTANCE as i128 * FOLLOW_MIN_DISTANCE as i128 {
        assert(len >= FOLLOW_MIN_DISTANCE) by (nonlinear_arith)
            requires
                n < (len + 1) * (len + 1),
                n > 100_000_000_000_000,
                len >= 0,
        {
            if len < 10_000_000 {
                assert((len + 1) * (len + 1) <= 100_000_000_000_000) by (nonlinear_arith)
                    requires
                        0 <= len + 1 <= 10_000_000,
                ;
            }
        }
        assert(-len <= dx <= len && -len <= dy <= len) by (nonlinear_arith)
            requires
                dx * dx + dy * dy < (len + 1) * (len + 1),
                dx * dx >= 0,
                dy * dy >= 0,
                len >= 0,
        {
            if dx > len || dx < -len {
                assert(dx * dx >= (len + 1) * (len + 1)) by (nonlinear_arith)
                    requires
                        dx > len || dx < -len,
                        len >= 0,
                ;
            }
            if dy > len || dy < -len {
                assert(dy * dy >= (len + 1) * (len + 1)) by (nonlinear_arith)
                    requires
                        dy > len || dy < -len,
                        len >= 0,
                ;
            }
        }
        let fraction = floor_div(len * 4, 5);
        let speed = if fraction > FOLLOW_MIN_SPEED as i128 {
            fraction
        } else {
            FOLLOW_MIN_SPEED as i128
        };
        proof {
            vstd::arithmetic::div_mod::lemma_div_is_ordered(len * 4, 12_000_000_000_000, 5);
        }
        assert(0 <= speed * dt <= 3_000_000_000_000_000_000) by (nonlinear_arith)
            requires
                0 <= speed <= 3_000_000_000_000,
                0 < dt <= 1_000_000,
        ;
        let travel = floor_div(speed * dt as i128, 1000);
        proof {
            vstd::arithmetic::div_mod::lemma_div_is_ordered(speed * dt, 3_000_000_000_000_000_000, 1000);
            vstd::arithmetic::div_mod::lemma_div_pos_is_pos(speed * dt, 1000);
        }
        camera.target = Vec2 {
            x: follow_step(t.x, dx, len, travel),
            y: follow_step(t.y, dy, len, travel),
        };
    }
}

/// The number of framing strategies.
pub const CAMERA_MODES: usize = 5;

/// The strategy that follows `m` in the cycle.
pub open spec fn next_mode(m: int) -> int {
    (m + 1) % (CAMERA_MODES as int)
}

/// What the strategy numbered `mode` does in one frame; only the evening-out
/// strategy changes its memory.
pub open spec fn framed_by(
    mode: int,
    before: Camera,
    after: Camera,
    state_before: EvenOut,
    state_after: EvenOut,
    player: Player,
    items: Seq<EnvItem>,
    dt: int,
    width: int,
    height: int,
) -> bool {
    if mode == 3 {
        framed_even_out(before, after, state_before, state_after, player, dt, width, height)
    } else {
        &&& state_after == state_before
        &&& mode == 0 ==> framed_center(before, after, player, width, height)
        &&& mode == 1 ==> framed_inside_map(before, after, player, items, width, height)
        &&& mode == 2 ==> framed_smooth_follow(before, after, player, dt, width, height)
        &&& mode == 4 ==> framed_bounds_push(before, after, player, width, height)
    }
}

/// Picks the framing strategy in use and holds the memory of the one that
/// keeps some. The strategies are, in order: centre, centre inside the map,
/// smooth follow, even out on landing, and player bounds push.
#[derive(Clone, Copy, Debug, PartialEq, Eq, Structural)]
pub struct CameraController {
    pub mode: usize,
    pub even_out: EvenOut,
}

impl CameraController {
    pub open spec fn is_valid(&self) -> bool {
        self.mode < CAMERA_MODES && self.even_out.is_valid()
    }

    pub fn in_range(&self) -> (r: bool)
        ensures
            r == self.is_valid(),
    {
        self.mode < CAMERA_MODES && crate::geometry::coord_in_range(self.even_out.goal)
    }

    /// Starts with the centring strategy.
    pub fn new() -> (r: CameraController)
        ensures
            r.mode == 0,
            r.even_out == EvenOut::new_spec(),
            r.is_valid(),
    {
        CameraController { mode: 0, even_out: EvenOut::new() }
    }

    /// Switches to the next strategy; the strategy's memory starts afresh.
    pub fn cycle(&mut self)
        requires
            old(self).is_valid(),
        ensures
            final(self).mode == next_mode(old(self).mode as int),
            final(self).even_out == EvenOut::new_spec(),
            final(self).is_valid(),
    {
        self.mode = (self.mode + 1) % CAMERA_MODES;
        self.even_out = EvenOut::new();
    }

    /// Frames one frame with the strategy in use.
    pub fn update(
        &mut self,
        camera: &mut Camera,
        player: &Player,
        env_items: &[EnvItem],
        dt: i64,
        width: i64,
        height: i64,
    )
        requires
            old(self).is_valid(),
            old(camera).is_valid(),
            player.position.is_bounded(),
            items_bounded(env_items@),
            frame_ok(dt as int),
            view_ok(width as int, height as int),
        ensures
            final(self).mode == old(self).mode,
            final(self).is_valid(),
            framed_by(
                old(self).mode as int,
                *old(camera),
                *final(camera),
                old(self).even_out,
                final(self).even_out,
                *player,
                env_items@,
                dt as int,
                width as int,
                height as int,
            ),
    {
        if self.mode == 0 {
            update_camera_center(camera, player, width, height);
        } else if self.mode == 1 {
            update_camera_center_inside_map(camera, player, env_items, width, height);
        } else if self.mode == 2 {
            update_camera_center_smooth_follow(camera, player, dt, width, height);
        } else if self.mode == 3 {
            update_camera_even_out_on_landing(camera, player, &mut self.even_out, dt, width, height);
        } else {
            update_camera_player_bounds_push(camera, player, width, height);
        }
    }
}

/// Cycling through the strategies five times comes back to the one started
/// from.
pub proof fn lemma_five_cycles_return(m: int)
    requires
        0 <= m < CAMERA_MODES,
    ensures
        next_mode(next_mode(next_mode(next_mode(next_mode(m))))) == m,
{
}

} // verus!
