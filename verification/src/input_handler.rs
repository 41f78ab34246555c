//! What a frame's pointer, scroll and key readings ask of the camera and the
//! store.
//!
//! A handler decides; it does no arithmetic. Where the readings ask for the
//! camera to orbit or to pan, the handler hands back the operands and the
//! caller moves the camera. The field of view that the scroll wheel asks
//! for is worked out by the caller beforehand, as the camera's field of view
//! plus the negated vertical scroll times the zoom sensitivity, and the
//! handler offers it to the camera.

use vstd::prelude::*;
use crate::camera::Camera;
use crate::object_handler::ObjectHandeler;
use crate::scalar::{is_zero, scalar_is_zero, ONE, ZERO};

verus! {

/// The pointer as read in one frame.
#[derive(Clone, Copy, Debug, PartialEq, Eq)]
pub struct PointerState {
    /// Horizontal and vertical velocity.
    pub velocity: [u32; 2],
    pub primary_down: bool,
    pub middle_down: bool,
}

/// The keys that select a render mode, as read in one frame.
#[derive(Clone, Copy, Debug, PartialEq, Eq)]
pub struct KeysDown {
    pub num1: bool,
    pub num2: bool,
    pub num3: bool,
}

/// The readings of one frame.
#[derive(Clone, Copy, Debug, PartialEq, Eq)]
pub struct FrameInput {
    pub pointer: PointerState,
    /// The field of view that the scroll wheel asks for.
    pub zoomed_fov: u32,
    pub keys: KeysDown,
}

/// An orbit that the caller is to carry out: about `pivot`, by the negated
/// product of `sensitivity` and `velocity_x`.
#[derive(Clone, Copy, Debug, PartialEq, Eq)]
pub struct OrbitRequest {
    pub pivot: [u32; 3],
    pub sensitivity: u32,
    pub velocity_x: u32,
}

/// A pan that the caller is to carry out in the plane of the first and third
/// axes, with basis vectors turned by the camera's accumulated angle.
#[derive(Clone, Copy, Debug, PartialEq, Eq)]
pub struct PanRequest {
    pub sensitivity: u32,
    pub velocity: [u32; 2],
}

/// What is left for the caller to do after a frame's readings were handled.
#[derive(Clone, Copy, Debug, PartialEq, Eq)]
pub struct CameraMotion {
    pub orbit: Option<OrbitRequest>,
    pub pan: Option<PanRequest>,
}

/// The pointer moves: its velocity is not zero in both directions.
pub open spec fn pointer_moves(pointer: PointerState) -> bool {
    !(is_zero(pointer.velocity[0]) && is_zero(pointer.velocity[1]))
}

/// The orbit that the pointer asks for: one while it moves with the primary
/// button down.
pub open spec fn orbit_asked(pointer: PointerState, pivot: [u32; 3], sensitivity: u32) -> Option<
    OrbitRequest,
> {
    if pointer_moves(pointer) && pointer.primary_down {
        Some(OrbitRequest { pivot, sensitivity, velocity_x: pointer.velocity[0] })
    } else {
        None
    }
}

/// The pan that the pointer asks for: one while the middle button is down.
pub open spec fn pan_asked(pointer: PointerState, sensitivity: u32) -> Option<PanRequest> {
    if pointer.middle_down {
        Some(PanRequest { sensitivity, velocity: pointer.velocity })
    } else {
        None
    }
}

/// The render mode that the keys ask for. The keys are looked at in order,
/// so the highest one that is down decides.
pub open spec fn render_mode_asked(keys: KeysDown) -> Option<i32> {
    if keys.num3 {
        Some(2i32)
    } else if keys.num2 {
        Some(1i32)
    } else if keys.num1 {
        Some(0i32)
    } else {
        None
    }
}

/// The camera after the field of view `fov` was offered to it.
pub open spec fn zoomed(camera: Camera, fov: u32) -> Camera {
    if Camera::fov_allowed(fov) {
        Camera { fov, ..camera }
    } else {
        camera
    }
}

pub fn rotate_camera(pointer: &PointerState, pivot: [u32; 3], sensitivity: u32) -> (r: Option<
    OrbitRequest,
>)
    ensures
        r == orbit_asked(*pointer, pivot, sensitivity),
{
    let moves = !(scalar_is_zero(pointer.velocity[0]) && scalar_is_zero(pointer.velocity[1]));
    if moves && pointer.primary_down {
        Some(OrbitRequest { pivot, sensitivity, velocity_x: pointer.velocity[0] })
    } else {
        None
    }
}

pub fn move_camera(pointer: &PointerState, sensitivity: u32) -> (r: Option<PanRequest>)
    ensures
        r == pan_asked(*pointer, sensitivity),
{
    if pointer.middle_down {
        Some(PanRequest { sensitivity, velocity: pointer.velocity })
    } else {
        None
    }
}

pub fn zoom(camera: &mut Camera, zoomed_fov: u32)
    ensures
        *final(camera) == zoomed(*old(camera), zoomed_fov),
{
    let _ = camera.set_field_of_view(zoomed_fov);
}

/// Tells the store the render mode that the keys ask for, if any.
pub fn keyboard_inputs(keys: &KeysDown, object_handler: &mut ObjectHandeler)
    ensures
        final(object_handler).same_objects(old(object_handler)),
        final(object_handler).render_mode() == match render_mode_asked(*keys) {
            Some(mode) => mode,
            None => old(object_handler).render_mode(),
        },
        final(object_handler).modified() == (old(object_handler).modified() || render_mode_asked(
            *keys,
        ).is_some()),
{
    if keys.num1 {
        object_handler.set_render_mode(0);
    }
    if keys.num2 {
        object_handler.set_render_mode(1);
    }
    if keys.num3 {
        object_handler.set_render_mode(2);
    }
}

/// Handles pointer, scroll wheel and keys.
#[derive(Clone, Copy, Debug, PartialEq, Eq)]
pub struct InputHandler {
    pub rotation_pos: [u32; 3],
}

impl InputHandler {
    /// The pattern of `0.00009`.
    pub const ROTATE_SENSITIVITY: u32 = 0x38bc_be62;

    /// The pattern of `0.00015`.
    pub const MOVE_SENSITIVITY: u32 = 0x391d_4952;

    /// The pattern of `0.05`.
    pub const ZOOM_SENSITIVITY: u32 = 0x3d4c_cccd;

    /// A handler that orbits about the point one unit up the second axis.
    pub fn new() -> (handler: Self)
        ensures
            handler.rotation_pos == [ZERO, ONE, ZERO],
    {
        InputHandler { rotation_pos: [ZERO, ONE, ZERO] }
    }

    pub fn handle(
        &mut self,
        input: &FrameInput,
        camera: &mut Camera,
        object_handler: &mut ObjectHandeler,
    ) -> (motion: CameraMotion)
        ensures
            *final(self) == *old(self),
            motion.orbit == orbit_asked(
                input.pointer,
                old(self).rotation_pos,
                InputHandler::ROTATE_SENSITIVITY,
            ),
            motion.pan == pan_asked(input.pointer, InputHandler::MOVE_SENSITIVITY),
            *final(camera) == zoomed(*old(camera), input.zoomed_fov),
            final(object_handler).same_objects(old(object_handler)),
            final(object_handler).render_mode() == match render_mode_asked(input.keys) {
                Some(mode) => mode,
                None => old(object_handler).render_mode(),
            },
            final(object_handler).modified() == (old(object_handler).modified()
                || render_mode_asked(input.keys).is_some()),
    {
        let orbit = rotate_camera(&input.pointer, self.rotation_pos, Self::ROTATE_SENSITIVITY);
        let pan = move_camera(&input.pointer, Self::MOVE_SENSITIVITY);
        zoom(camera, input.zoomed_fov);
        keyboard_inputs(&input.keys, object_handler);
        CameraMotion { orbit, pan }
    }
}

/// Handles pointer and scroll wheel.
#[derive(Clone, Copy, Debug, PartialEq, Eq)]
pub struct MouseHandler {
    pub rotation_pos: [u32; 3],
    pub update_axis: bool,
}

impl MouseHandler {
    /// The pattern of `0.00005`.
    pub const ROTATE_SENSITIVITY: u32 = 0x3851_b717;

    /// The pattern of `0.0001`.
    pub const MOVE_SENSITIVITY: u32 = 0x38d1_b717;

    /// The pattern of `0.01`.
    pub const ZOOM_SENSITIVITY: u32 = 0x3c23_d70a;

    /// A handler that orbits about the point one unit up the second axis.
    pub fn new() -> (handler: Self)
        ensures
            handler.rotation_pos == [ZERO, ONE, ZERO],
            handler.update_axis,
    {
        MouseHandler { rotation_pos: [ZERO, ONE, ZERO], update_axis: true }
    }

    pub fn handle(&mut self, input: &FrameInput, camera: &mut Camera) -> (motion: CameraMotion)
        ensures
            *final(self) == *old(self),
            motion.orbit == orbit_asked(
                input.pointer,
                old(self).rotation_pos,
                MouseHandler::ROTATE_SENSITIVITY,
            ),
            motion.pan == pan_asked(input.pointer, MouseHandler::MOVE_SENSITIVITY),
            *final(camera) == zoomed(*old(camera), input.zoomed_fov),
    {
        let orbit = rotate_camera(&input.pointer, self.rotation_pos, Self::ROTATE_SENSITIVITY);
        let pan = move_camera(&input.pointer, Self::MOVE_SENSITIVITY);
        zoom(camera, input.zoomed_fov);
        CameraMotion { orbit, pan }
    }
}

} // verus!
