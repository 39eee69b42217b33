//! One frame of the whole simulation, in the order the host runs it.

use vstd::prelude::*;
use crate::camera::{
    clamp_zoom, framed_by, next_mode, view_ok, Camera, CameraController, ZOOM_STEP,
};
use crate::geometry::Vec2;
use crate::physics::{after_reset, frame_ok, items_bounded, step, EnvItem, Input, Player};

verus! {

/// What the host read from its controls during one frame.
#[derive(Clone, Copy, Debug, PartialEq, Eq, Structural)]
pub struct FrameControls {
    pub reset: bool,
    pub next_camera: bool,
    pub zoom_notches: i64,
    pub input: Input,
}

/// The actor, the camera, and the strategy that frames it.
#[derive(Clone, Copy, Debug, PartialEq, Eq, Structural)]
pub struct Game {
    pub player: Player,
    pub camera: Camera,
    pub controller: CameraController,
}

/// Distance between the actor and the first camera target, on each axis (20 px).
pub const START_LEAD: i64 = 20_000_000;

impl Game {
    pub open spec fn is_valid(&self) -> bool {
        self.player.is_bounded() && self.camera.is_valid() && self.controller.is_valid()
    }

    pub fn in_range(&self) -> (r: bool)
        ensures
            r == self.is_valid(),
    {
        self.player.in_range() && self.camera.in_range() && self.controller.in_range()
    }

    /// The actor at the spawn point, the camera aimed a little below and to
    /// its right and drawn at the actor's own coordinates, centring first.
    pub fn new() -> (r: Game)
        ensures
            r.player@ == crate::physics::spawn_state(),
            r.camera.target.x == r.player.position.x + START_LEAD,
            r.camera.target.y == r.player.position.y + START_LEAD,
            r.camera.offset == r.player.position,
            r.camera.zoom == crate::camera::ZOOM_ONE,
            r.controller.mode == 0,
            r.is_valid(),
    {
        let player = Player::spawn();
        let target = Vec2::new(player.position.x + START_LEAD, player.position.y + START_LEAD);
        let camera = Camera::new(target, player.position);
        Game { player, camera, controller: CameraController::new() }
    }

    /// Runs one frame: the reset rule, the strategy switch, the zoom, the
    /// camera (which sees the actor as the previous frame left it), then the
    /// actor.
    pub fn frame(
        &mut self,
        controls: FrameControls,
        env_items: &[EnvItem],
        dt: i64,
        width: i64,
        height: i64,
    )
        requires
            old(self).is_valid(),
            items_bounded(env_items@),
            frame_ok(dt as int),
            view_ok(width as int, height as int),
        ensures
            ({
                let player = after_reset(old(self).player, controls.reset);
                let mode = if controls.next_camera {
                    next_mode(old(self).controller.mode as int)
                } else {
                    old(self).controller.mode as int
                };
                let memory = if controls.next_camera {
                    crate::camera::EvenOut::new_spec()
                } else {
                    old(self).controller.even_out
                };
                let zoomed = Camera {
                    zoom: clamp_zoom(old(self).camera.zoom + ZOOM_STEP * controls.zoom_notches) as i64,
                    ..old(self).camera
                };
                &&& final(self).controller.mode == mode
                &&& framed_by(
                    mode,
                    zoomed,
                    final(self).camera,
                    memory,
                    final(self).controller.even_out,
                    player,
                    env_items@,
                    dt as int,
                    width as int,
                    height as int,
                )
                &&& final(self).player@ == step(player@, env_items@, controls.input, dt as int)
            }),
    {
        self.player.reset_if_needed(controls.reset);
        if controls.next_camera {
            self.controller.cycle();
        }
        self.camera.apply_zoom(controls.zoom_notches);
        self.controller.update(&mut self.camera, &self.player, env_items, dt, width, height);
        crate::physics::update_player(&mut self.player, env_items, controls.input, dt);
    }
}

} // verus!
