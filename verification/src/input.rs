//! Per-frame camera control decisions.
//!
//! The windowing layer polls the keyboard and scroll wheel and hands the
//! result in as one plain [`InputState`]; everything decided from it — how
//! far to orbit, zoom or pan, the minimum zoom distance, and the
//! edge-triggered bird's-eye toggle — happens here, against the verified
//! camera operations.

use vstd::prelude::*;
use crate::camera::{Camera, CAM_CENTER_LIMIT};
use crate::norm::{dist_sq_spec, v3_bounded};
use crate::vecmat::V3;
use crate::fixed::{fx_mul, FX_ONE};

verus! {

/// Fixed-point cosine of the per-frame orbit step (a fiftieth of a half
/// turn per frame).
pub const ORBIT_STEP_COS: i64 = 65019;

/// Fixed-point sine of the per-frame orbit step.
pub const ORBIT_STEP_SIN: i64 = 8214;

/// Zoom distance per key press or scroll unit (20.5 units).
pub const ZOOM_SPEED: i64 = 1343488;

/// The closest the camera may zoom toward its center (100 units).
pub const MIN_ZOOM_DISTANCE: i64 = 6553600;

/// Pan distance per key press (one unit).
pub const MOVEMENT_SPEED: i64 = 65536;

/// Height of the bird's-eye preset above its target (150 units).
pub const BIRD_HEIGHT: i64 = 9830400;

/// The default eye height when leaving the bird's-eye view (80 units).
pub const HOME_EYE_Y: i64 = 5242880;

/// The default eye depth when leaving the bird's-eye view (-200 units).
pub const HOME_EYE_Z: i64 = -13107200;

/// One frame's worth of polled input, as plain values.
#[derive(Clone, Copy, PartialEq, Eq, Structural, Debug)]
pub struct InputState {
    pub scroll_y: Option<i64>,
    pub orbit_left: bool,
    pub orbit_right: bool,
    pub orbit_up: bool,
    pub orbit_down: bool,
    pub pan_left: bool,
    pub pan_right: bool,
    pub pan_up: bool,
    pub pan_down: bool,
    pub zoom_in: bool,
    pub zoom_out: bool,
    pub bird_toggle_down: bool,
}

impl InputState {
    /// No key held and no scroll this frame.
    pub open spec fn is_idle(self) -> bool {
        &&& self.scroll_y is None
        &&& !self.orbit_left && !self.orbit_right && !self.orbit_up && !self.orbit_down
        &&& !self.pan_left && !self.pan_right && !self.pan_up && !self.pan_down
        &&& !self.zoom_in && !self.zoom_out && !self.bird_toggle_down
    }
}

/// The bird's-eye toggle state: whether the preset is active, and whether
/// its key was down last frame (to fire on the press edge, not the hold).
#[derive(Clone, Copy, PartialEq, Eq, Structural, Debug)]
pub struct ViewToggle {
    pub bird_eye_active: bool,
    pub bird_was_down: bool,
}

/// Whether this frame's input fires the bird's-eye toggle: the key is down
/// now and was not down last frame.
pub open spec fn bird_edge(input: InputState, toggle: ViewToggle) -> bool {
    input.bird_toggle_down && !toggle.bird_was_down
}

/// Apply one frame of input to the camera: scroll zoom, orbit keys, pan
/// keys, zoom keys, then the edge-triggered bird's-eye toggle — each
/// through the verified camera operation it names. Idle input leaves the
/// camera untouched; any zoom this frame leaves the eye no closer to the
/// center than the minimum zoom distance (unless the bird's-eye toggle
/// repositions the camera afterward).
#[verifier::spinoff_prover]
#[verifier::rlimit(100)]
pub fn handle_input(
    input: &InputState,
    camera: &mut Camera,
    system_center: V3,
    toggle: &mut ViewToggle,
)
    requires
        old(camera).wf(),
        v3_bounded(system_center, CAM_CENTER_LIMIT as int),
    ensures
        final(camera).wf(),
        final(toggle).bird_was_down == input.bird_toggle_down,
        !bird_edge(*input, *old(toggle)) ==> final(toggle).bird_eye_active == old(
            toggle,
        ).bird_eye_active,
        bird_edge(*input, *old(toggle)) ==> final(toggle).bird_eye_active == !old(
            toggle,
        ).bird_eye_active,
        input.is_idle() ==> *final(camera) == *old(camera),
        (input.zoom_in || input.zoom_out) && !bird_edge(*input, *old(toggle))
            ==> dist_sq_spec(final(camera).eye, final(camera).center)
                >= MIN_ZOOM_DISTANCE * MIN_ZOOM_DISTANCE,
        (input.scroll_y is Some && !input.zoom_in && !input.zoom_out && !input.orbit_left
            && !input.orbit_right && !input.orbit_up && !input.orbit_down && !input.pan_left
            && !input.pan_right && !input.pan_up && !input.pan_down
            && !bird_edge(*input, *old(toggle)))
            ==> dist_sq_spec(final(camera).eye, final(camera).center)
                >= MIN_ZOOM_DISTANCE * MIN_ZOOM_DISTANCE,
        bird_edge(*input, *old(toggle)) && !old(toggle).bird_eye_active ==> {
            &&& final(camera).center == system_center
            &&& final(camera).eye == (V3 {
                x: system_center.x,
                y: (system_center.y + BIRD_HEIGHT) as i64,
                z: system_center.z,
            })
            &&& final(camera).up == (V3 { x: 0i64, y: 0i64, z: FX_ONE })
            &&& final(camera).has_changed
        },
        bird_edge(*input, *old(toggle)) && old(toggle).bird_eye_active ==> {
            &&& final(camera).eye == (V3 { x: 0i64, y: HOME_EYE_Y, z: HOME_EYE_Z })
            &&& final(camera).center == (V3 { x: 0i64, y: 0i64, z: 0i64 })
            &&& final(camera).up == (V3 { x: 0i64, y: FX_ONE, z: 0i64 })
            &&& final(camera).has_changed
        },
{
    if let Some(scroll) = input.scroll_y {
        let delta: i64 = fx_mul(scroll, ZOOM_SPEED);
        camera.zoom(delta, MIN_ZOOM_DISTANCE);
    }
    if input.orbit_left {
        camera.orbit(ORBIT_STEP_COS, ORBIT_STEP_SIN, FX_ONE, 0);
    }
    if input.orbit_right {
        camera.orbit(ORBIT_STEP_COS, -ORBIT_STEP_SIN, FX_ONE, 0);
    }
    if input.orbit_up {
        camera.orbit(FX_ONE, 0, ORBIT_STEP_COS, -ORBIT_STEP_SIN);
    }
    if input.orbit_down {
        camera.orbit(FX_ONE, 0, ORBIT_STEP_COS, ORBIT_STEP_SIN);
    }
    if input.pan_left || input.pan_right || input.pan_up || input.pan_down {
        let mut mx: i64 = 0;
        let mut my: i64 = 0;
        if input.pan_left {
            mx = mx - MOVEMENT_SPEED;
        }
        if input.pan_right {
            mx = mx + MOVEMENT_SPEED;
        }
        if input.pan_up {
            my = my + MOVEMENT_SPEED;
        }
        if input.pan_down {
            my = my - MOVEMENT_SPEED;
        }
        camera.move_center(V3 { x: mx, y: my, z: 0 });
    }
    if input.zoom_in {
        camera.zoom(ZOOM_SPEED, MIN_ZOOM_DISTANCE);
    }
    if input.zoom_out {
        camera.zoom(-ZOOM_SPEED, MIN_ZOOM_DISTANCE);
    }
    if input.bird_toggle_down && !toggle.bird_was_down {
        if toggle.bird_eye_active {
            camera.eye = V3 { x: 0, y: HOME_EYE_Y, z: HOME_EYE_Z };
            camera.center = V3 { x: 0, y: 0, z: 0 };
            camera.up = V3 { x: 0, y: FX_ONE, z: 0 };
            camera.has_changed = true;
            toggle.bird_eye_active = false;
        } else {
            camera.bird_eye_view(system_center, BIRD_HEIGHT);
            toggle.bird_eye_active = true;
        }
    }
    toggle.bird_was_down = input.bird_toggle_down;
}

} // verus!
