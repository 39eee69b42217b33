//! The actor: horizontal moves, jumping, gravity, and one-sided landing on
//! solid rectangles.

use vstd::prelude::*;
use crate::geometry::{coord_in_range, coord_ok, Rect, Vec2};

verus! {

/// Downward acceleration: speed units gained per millisecond (900 px/s²).
pub const GRAVITY: i64 = 900;

/// Upward speed given by a jump (450 px/s).
pub const JUMP_SPEED: i64 = 450_000;

/// Horizontal distance covered per millisecond of held input (430 px/s).
pub const HORIZONTAL_STEP: i64 = 430_000;

/// Longest frame accepted, in milliseconds.
pub const DT_MAX: i64 = 1_000_000;

/// Where the actor starts and where a reset puts it.
pub const SPAWN_X: i64 = 400_000_000;
pub const SPAWN_Y: i64 = 280_000_000;

/// The world: an actor left of `WORLD_LEFT`, right of `WORLD_RIGHT` or below
/// `WORLD_BOTTOM` is sent back to the spawn point.
pub const WORLD_LEFT: i64 = -500_000_000;
pub const WORLD_RIGHT: i64 = 1_500_000_000;
pub const WORLD_BOTTOM: i64 = 1_800_000_000;

/// Whether an environment item takes part in collisions.
#[derive(Clone, Copy, Debug, PartialEq, Eq, Structural)]
pub enum ItemKind {
    Background,
    Solid,
}

/// A colour, carried for drawing only.
#[derive(Clone, Copy, Debug, PartialEq, Eq, Structural)]
pub struct Color {
    pub r: u8,
    pub g: u8,
    pub b: u8,
    pub a: u8,
}

/// One rectangle of the static environment.
#[derive(Clone, Copy, Debug, PartialEq, Eq, Structural)]
pub struct EnvItem {
    pub rect: Rect,
    pub kind: ItemKind,
    pub color: Color,
}

/// The controllable actor. A negative `speed` moves it up.
#[derive(Clone, Copy, Debug, PartialEq, Eq, Structural)]
pub struct Player {
    pub position: Vec2,
    pub speed: i64,
    pub can_jump: bool,
}

/// The buttons held during one frame.
#[derive(Clone, Copy, Debug, PartialEq, Eq, Structural)]
pub struct Input {
    pub left: bool,
    pub right: bool,
    pub jump: bool,
}

/// The actor as mathematical values.
pub struct ActorState {
    pub x: int,
    pub y: int,
    pub speed: int,
    pub can_jump: bool,
}

impl View for Player {
    type V = ActorState;

    open spec fn view(&self) -> ActorState {
        ActorState {
            x: self.position.x as int,
            y: self.position.y as int,
            speed: self.speed as int,
            can_jump: self.can_jump,
        }
    }
}

impl Player {
    pub open spec fn is_bounded(&self) -> bool {
        self.position.is_bounded() && coord_ok(self.speed as int)
    }

    pub fn in_range(&self) -> (r: bool)
        ensures
            r == self.is_bounded(),
    {
        self.position.in_range() && coord_in_range(self.speed)
    }
}

/// Whether every item's rectangle is in range.
pub fn items_in_range(items: &[EnvItem]) -> (r: bool)
    ensures
        r == items_bounded(items@),
{
    let mut i: usize = 0;
    while i < items.len()
        invariant
            i <= items.len(),
            forall|j: int| 0 <= j < i ==> (#[trigger] items@[j]).rect.is_bounded(),
        decreases items.len() - i,
    {
        if !items[i].rect.in_range() {
            return false;
        }
        i = i + 1;
    }
    true
}

/// Whether a frame length is accepted.
pub fn frame_in_range(dt: i64) -> (r: bool)
    ensures
        r == frame_ok(dt as int),
{
    0 < dt && dt <= DT_MAX
}

impl Input {
    pub open spec fn idle() -> Input {
        Input { left: false, right: false, jump: false }
    }
}

pub open spec fn items_bounded(items: Seq<EnvItem>) -> bool {
    forall|i: int| 0 <= i < items.len() ==> (#[trigger] items[i]).rect.is_bounded()
}

pub open spec fn frame_ok(dt: int) -> bool {
    0 < dt <= DT_MAX
}

/// The x-coordinate after the horizontal inputs of a frame of `dt` ms.
pub open spec fn moved_x(s: ActorState, input: Input, dt: int) -> int {
    s.x - (if input.left { HORIZONTAL_STEP * dt } else { 0 }) + (if input.right {
        HORIZONTAL_STEP * dt
    } else {
        0
    })
}

/// A jump starts when it is asked for and the actor stands on something.
pub open spec fn jumps(s: ActorState, input: Input) -> bool {
    input.jump && s.can_jump
}

/// The vertical speed that carries the actor through this frame.
pub open spec fn launch_speed(s: ActorState, input: Input) -> int {
    if jumps(s, input) {
        -JUMP_SPEED
    } else {
        s.speed
    }
}

/// `item` stops an actor at `(x, y)` moving `speed * dt` down: it is solid,
/// `x` lies within its horizontal span, and its top lies between the current
/// and the projected height, all bounds inclusive.
pub open spec fn lands_on(item: EnvItem, x: int, y: int, speed: int, dt: int) -> bool {
    &&& item.kind == ItemKind::Solid
    &&& item.rect.x <= x <= item.rect.right()
    &&& y <= item.rect.y <= y + speed * dt
}

/// The first index at or after `k` of an item that stops the actor, or -1.
pub open spec fn first_landing_from(
    items: Seq<EnvItem>,
    k: int,
    x: int,
    y: int,
    speed: int,
    dt: int,
) -> int
    decreases items.len() - k,
{
    if k < 0 || k >= items.len() {
        -1
    } else if lands_on(items[k], x, y, speed, dt) {
        k
    } else {
        first_landing_from(items, k + 1, x, y, speed, dt)
    }
}

pub open spec fn first_landing(items: Seq<EnvItem>, x: int, y: int, speed: int, dt: int) -> int {
    first_landing_from(items, 0, x, y, speed, dt)
}

/// One frame of the actor: move sideways, maybe jump, then land on the first
/// solid item in list order that the fall reaches, or fall freely.
pub open spec fn step(s: ActorState, items: Seq<EnvItem>, input: Input, dt: int) -> ActorState {
    let x = moved_x(s, input, dt);
    let v = launch_speed(s, input);
    let h = first_landing(items, x, s.y, v, dt);
    if h >= 0 {
        ActorState { x, y: items[h].rect.y as int, speed: 0, can_jump: true }
    } else {
        ActorState { x, y: s.y + v * dt, speed: v + GRAVITY * dt, can_jump: false }
    }
}

pub open spec fn spawn_state() -> ActorState {
    ActorState { x: SPAWN_X as int, y: SPAWN_Y as int, speed: 0, can_jump: false }
}

/// The actor after the reset rule: back at the spawn point when a reset is
/// asked for or when it has left the world, else as it was.
pub open spec fn after_reset(p: Player, reset_pressed: bool) -> Player {
    if reset_pressed || out_of_world(p@) {
        Player { position: Vec2 { x: SPAWN_X, y: SPAWN_Y }, speed: 0, can_jump: false }
    } else {
        p
    }
}

pub open spec fn out_of_world(s: ActorState) -> bool {
    s.x < WORLD_LEFT || s.x > WORLD_RIGHT || s.y > WORLD_BOTTOM
}

/// The first landing index is either -1 with no landing at or after `k`, or
/// the index of a landing with none between `k` and it.
proof fn lemma_first_landing_from(
    items: Seq<EnvItem>,
    k: int,
    x: int,
    y: int,
    speed: int,
    dt: int,
)
    requires
        0 <= k <= items.len(),
    ensures
        ({
            let r = first_landing_from(items, k, x, y, speed, dt);
            ||| (r == -1 && forall|j: int|
                k <= j < items.len() ==> !lands_on(#[trigger] items[j], x, y, speed, dt))
            ||| (k <= r < items.len() && lands_on(items[r], x, y, speed, dt) && forall|j: int|
                k <= j < r ==> !lands_on(#[trigger] items[j], x, y, speed, dt))
        }),
    decreases items.len() - k,
{
    if k < items.len() {
        lemma_first_landing_from(items, k + 1, x, y, speed, dt);
    }
}

/// Advances the actor by one frame of `dt` milliseconds.
pub fn update_player(player: &mut Player, env_items: &[EnvItem], input: Input, dt: i64)
    requires
        old(player).is_bounded(),
        items_bounded(env_items@),
        frame_ok(dt as int),
    ensures
        final(player)@ == step(old(player)@, env_items@, input, dt as int),
{
    if input.left {
        player.position.x = player.position.x - HORIZONTAL_STEP * dt;
    }
    if input.right {
        player.position.x = player.position.x + HORIZONTAL_STEP * dt;
    }
    if input.jump && player.can_jump {
        player.speed = -JUMP_SPEED;
        player.can_jump = false;
    }
    let x = player.position.x;
    let y = player.position.y;
    let speed = player.speed;
    assert(-1_000_000_000_000_000_000 <= speed * dt <= 1_000_000_000_000_000_000) by (nonlinear_arith)
        requires
            -1_000_000_000_000 <= speed <= 1_000_000_000_000,
            0 < dt <= 1_000_000,
    ;
    let fall = speed * dt;
    let ghost items = env_items@;
    let mut i: usize = 0;
    let mut found: bool = false;
    while i < env_items.len() && !found
        invariant
            i <= env_items.len(),
            items == env_items@,
            items_bounded(items),
            fall == speed * dt,
            coord_ok(y as int),
            -1_000_000_000_000_000_000 <= fall <= 1_000_000_000_000_000_000,
            found ==> i < items.len() && first_landing(items, x as int, y as int, speed as int, dt as int) == i,
            !found ==> first_landing(items, x as int, y as int, speed as int, dt as int)
                == first_landing_from(items, i as int, x as int, y as int, speed as int, dt as int),
        decreases env_items.len() - i + (if found { 0int } else { 1int }),
    {
        let item = &env_items[i];
        assert(item.rect.is_bounded());
        if item.kind == ItemKind::Solid && item.rect.x <= x && x <= item.rect.x + item.rect.width
            && y <= item.rect.y && item.rect.y <= y + fall {
            found = true;
        } else {
            i = i + 1;
        }
    }
    if found {
        player.position.y = env_items[i].rect.y;
        player.speed = 0;
        player.can_jump = true;
    } else {
        player.position.y = y + fall;
        player.speed = speed + GRAVITY * dt;
        player.can_jump = false;
    }
}


impl Player {
    /// A fresh actor at the spawn point, at rest and unable to jump.
    pub fn spawn() -> (r: Player)
        ensures
            r@ == spawn_state(),
    {
        Player { position: Vec2 { x: SPAWN_X, y: SPAWN_Y }, speed: 0, can_jump: false }
    }

    /// Sends the actor back to the spawn point, whatever its state.
    pub fn reset(&mut self)
        ensures
            final(self)@ == spawn_state(),
    {
        *self = Player::spawn();
    }

    /// Whether the actor has left the world.
    pub fn is_out_of_world(&self) -> (r: bool)
        ensures
            r == out_of_world(self@),
    {
        self.position.x < WORLD_LEFT || self.position.x > WORLD_RIGHT || self.position.y
            > WORLD_BOTTOM
    }

    /// Resets the actor when asked to or when it has left the world; returns
    /// whether it did.
    pub fn reset_if_needed(&mut self, reset_pressed: bool) -> (r: bool)
        ensures
            r == (reset_pressed || out_of_world(old(self)@)),
            *final(self) == after_reset(*old(self), reset_pressed),
    {
        if reset_pressed || self.is_out_of_world() {
            self.reset();
            true
        } else {
            false
        }
    }
}

/// An actor falling onto the top of a solid rectangle within this frame's
/// travel, with no earlier-listed solid in the way, stops exactly on that top
/// with no vertical speed and may jump again.
pub proof fn lemma_lands_on_solid(s: ActorState, items: Seq<EnvItem>, dt: int, i: int)
    requires
        dt > 0,
        s.speed > 0,
        0 <= i < items.len(),
        lands_on(items[i], s.x, s.y, s.speed, dt),
        forall|j: int| 0 <= j < i ==> !lands_on(#[trigger] items[j], s.x, s.y, s.speed, dt),
    ensures
        step(s, items, Input::idle(), dt).y == items[i].rect.y,
        step(s, items, Input::idle(), dt).speed == 0,
        step(s, items, Input::idle(), dt).can_jump,
{
    lemma_first_landing_from(items, 0, s.x, s.y, s.speed, dt);
    let r = first_landing(items, s.x, s.y, s.speed, dt);
    if r != i {
        assert(r == -1 || r < i || r > i);
        if r > i {
            assert(!lands_on(items[i], s.x, s.y, s.speed, dt));
        }
    }
}

/// With no solid item within reach, a frame adds exactly `GRAVITY * dt` to the
/// vertical speed, moves the actor by its old speed, and leaves it unable to
/// jump.
pub proof fn lemma_free_fall(s: ActorState, items: Seq<EnvItem>, dt: int)
    requires
        dt > 0,
        forall|j: int| 0 <= j < items.len() ==> !lands_on(#[trigger] items[j], s.x, s.y, s.speed, dt),
    ensures
        step(s, items, Input::idle(), dt).speed == s.speed + GRAVITY * dt,
        step(s, items, Input::idle(), dt).speed > s.speed,
        step(s, items, Input::idle(), dt).y == s.y + s.speed * dt,
        !step(s, items, Input::idle(), dt).can_jump,
{
    lemma_first_landing_from(items, 0, s.x, s.y, s.speed, dt);
}

/// A frame that lands the actor, followed by a frame with the jump held:
/// the second frame launches at exactly `-JUMP_SPEED`, moves the actor up by
/// `JUMP_SPEED * dt2`, and leaves it unable to jump, gravity then acting on
/// the launch speed.
pub proof fn lemma_jump_after_landing(
    s: ActorState,
    items: Seq<EnvItem>,
    first: Input,
    dt1: int,
    second: Input,
    dt2: int,
)
    requires
        dt1 > 0,
        dt2 > 0,
        first_landing(items, moved_x(s, first, dt1), s.y, launch_speed(s, first), dt1) >= 0,
        second.jump,
    ensures
        ({
            let grounded = step(s, items, first, dt1);
            let after = step(grounded, items, second, dt2);
            &&& grounded.can_jump
            &&& launch_speed(grounded, second) == -JUMP_SPEED
            &&& !after.can_jump
            &&& after.y == grounded.y - JUMP_SPEED * dt2
            &&& after.speed == -JUMP_SPEED + GRAVITY * dt2
        }),
{
    let grounded = step(s, items, first, dt1);
    let x = moved_x(grounded, second, dt2);
    lemma_first_landing_from(items, 0, x, grounded.y, -JUMP_SPEED, dt2);
    assert(-JUMP_SPEED * dt2 < 0) by (nonlinear_arith)
        requires
            dt2 > 0,
    ;
    assert((-JUMP_SPEED) * dt2 == -(JUMP_SPEED * dt2)) by (nonlinear_arith);
    assert(first_landing(items, x, grounded.y, -JUMP_SPEED, dt2) == -1);
}

} // verus!
