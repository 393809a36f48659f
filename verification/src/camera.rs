//! The editor camera: pan (drag) and zoom state.
//!
//! Zooming is anchored at the cursor: the camera recenters so that the world
//! point under the cursor before the zoom step stays under the cursor after
//! it. Dragging scales the cursor delta by the current zoom so that the
//! perceived drag speed is zoom-invariant, and inverts the vertical axis
//! (screen y grows downward, world y upward).
//!
//! Beginning a pan, panning and zooming are gated by the UI overlay's
//! pointer-capture claim: with the claim active, nothing is mutated.
//! Releasing a pan is not gated: a release always returns the drag state to
//! idle, so a drag can never survive its button.
use vstd::prelude::*;

use crate::fixed::{
    clamp_i64, clamp_int, div_trunc, div_trunc_i64, lemma_div_trunc_exact, Vec2i, FP_ONE,
    PIXEL_LIMIT, WORLD_INPUT_LIMIT, WORLD_LIMIT,
};

verus! {

/// Smallest allowed camera scale, in milli-units (0.1 world units per pixel).
pub const SCALE_MIN: i64 = 100;

/// Largest allowed camera scale, in milli-units (2.0 world units per pixel).
pub const SCALE_MAX: i64 = 2000;

/// Divisor that applies the wheel speed of one tenth: a wheel amount `a`
/// (in milli-notches) changes the scale by the factor `1 - a / 10` milli.
pub const ZOOM_SPEED_DIV: i64 = 10;

/// Largest accepted wheel amount for one zoom step, in milli-notches.
pub const AMOUNT_LIMIT: i64 = 0x10_0000;

/// The camera transform: world position of the view center and the zoom
/// scale (world milli-units per device pixel).
#[derive(Clone, Copy, PartialEq, Eq, Structural, Debug)]
pub struct CameraState {
    pub x: i64,
    pub y: i64,
    pub scale: i64,
}

/// The camera a fresh editor session starts from: origin, scale one.
pub open spec fn camera_init() -> CameraState {
    CameraState { x: 0, y: 0, scale: FP_ONE }
}

impl CameraState {
    /// Position within the world bounds and scale within the clamp range.
    pub open spec fn wf(self) -> bool {
        &&& -WORLD_LIMIT <= self.x <= WORLD_LIMIT
        &&& -WORLD_LIMIT <= self.y <= WORLD_LIMIT
        &&& SCALE_MIN <= self.scale <= SCALE_MAX
    }

    /// The world position as a vector.
    pub open spec fn position(self) -> Vec2i {
        Vec2i { x: self.x, y: self.y }
    }
}

impl Default for CameraState {
    /// A freshly initialized camera: centered on the origin at scale one.
    fn default() -> (r: CameraState)
        ensures
            r == camera_init(),
            r.wf(),
    {
        CameraState { x: 0, y: 0, scale: FP_ONE }
    }
}

/// Drag bookkeeping: whether a pan is active and the cursor position
/// (device pixels) at the previous drag step.
#[derive(Clone, Copy, PartialEq, Eq, Debug)]
pub struct CameraDragState {
    pub is_dragging: bool,
    pub last_mouse_position: Option<Vec2i>,
}

/// The drag state a fresh editor session starts from: idle.
pub open spec fn drag_init() -> CameraDragState {
    CameraDragState { is_dragging: false, last_mouse_position: None }
}

impl CameraDragState {
    /// A drag is active exactly when a previous cursor position is held,
    /// and that position is a sane device coordinate.
    pub open spec fn wf(self) -> bool {
        &&& self.is_dragging <==> self.last_mouse_position is Some
        &&& self.last_mouse_position is Some ==> self.last_mouse_position->0.within(PIXEL_LIMIT)
    }
}

impl Default for CameraDragState {
    /// A freshly initialized drag state: idle.
    fn default() -> (r: CameraDragState)
        ensures
            r == drag_init(),
            r.wf(),
    {
        CameraDragState { is_dragging: false, last_mouse_position: None }
    }
}

/// The scale a zoom step leaves behind: the old scale times
/// `1 - amount / 10` (both in milli-units), clamped to the scale range.
pub open spec fn spec_zoom_scale(scale: int, amount: int) -> int {
    clamp_int(
        div_trunc(scale * (FP_ONE - div_trunc(amount, ZOOM_SPEED_DIV as int)), FP_ONE as int),
        SCALE_MIN as int,
        SCALE_MAX as int,
    )
}

/// The camera a zoom step leaves behind. With a zero wheel amount nothing
/// changes. Otherwise the scale moves as `spec_zoom_scale` says and the
/// camera recenters about the world point `p` under the cursor: the offset
/// from `p` to the camera center shrinks or grows by the ratio of the new
/// scale to the old, so that `p` stays under the cursor.
pub open spec fn spec_zoom(cam: CameraState, amount: int, p: Vec2i) -> CameraState {
    if amount == 0 {
        cam
    } else {
        let ns = spec_zoom_scale(cam.scale as int, amount);
        let nox = div_trunc((p.x - cam.x) * ns, cam.scale as int);
        let noy = div_trunc((p.y - cam.y) * ns, cam.scale as int);
        CameraState {
            x: clamp_int(p.x - nox, -WORLD_LIMIT as int, WORLD_LIMIT as int) as i64,
            y: clamp_int(p.y - noy, -WORLD_LIMIT as int, WORLD_LIMIT as int) as i64,
            scale: ns as i64,
        }
    }
}

/// The drag state after a drag begins at `cursor`.
pub open spec fn spec_begin_drag(cursor: Vec2i) -> CameraDragState {
    CameraDragState { is_dragging: true, last_mouse_position: Some(cursor) }
}

/// The camera and drag state after a drag step at `cursor`. Inactive drags
/// change nothing. An active drag moves the camera against the cursor delta
/// scaled by the current zoom, with the vertical axis inverted, and records
/// `cursor` for the next step.
pub open spec fn spec_continue_drag(cam: CameraState, drag: CameraDragState, cursor: Vec2i) -> (
    CameraState,
    CameraDragState,
) {
    if drag.is_dragging && drag.last_mouse_position is Some {
        let last = drag.last_mouse_position->0;
        let dx = (cursor.x - last.x) * cam.scale;
        let dy = (cursor.y - last.y) * cam.scale;
        let moved = CameraState {
            x: clamp_int(cam.x - dx, -WORLD_LIMIT as int, WORLD_LIMIT as int) as i64,
            y: clamp_int(cam.y + dy, -WORLD_LIMIT as int, WORLD_LIMIT as int) as i64,
            scale: cam.scale,
        };
        (moved, CameraDragState { is_dragging: true, last_mouse_position: Some(cursor) })
    } else {
        (cam, drag)
    }
}

/// Begins a pan at `cursor` (device pixels). With the UI overlay holding
/// the pointer, nothing changes.
pub fn begin_drag(drag: &mut CameraDragState, cursor: Vec2i, ui_captured: bool)
    requires
        old(drag).wf(),
        cursor.within(PIXEL_LIMIT),
    ensures
        final(drag).wf(),
        ui_captured ==> *final(drag) == *old(drag),
        !ui_captured ==> *final(drag) == spec_begin_drag(cursor),
{
    if ui_captured {
        return;
    }
    drag.is_dragging = true;
    drag.last_mouse_position = Some(cursor);
}

/// Applies one pan step at `cursor` (device pixels). With the UI overlay
/// holding the pointer, nothing changes.
pub fn continue_drag(
    cam: &mut CameraState,
    drag: &mut CameraDragState,
    cursor: Vec2i,
    ui_captured: bool,
)
    requires
        old(cam).wf(),
        old(drag).wf(),
        cursor.within(PIXEL_LIMIT),
    ensures
        final(cam).wf(),
        final(drag).wf(),
        final(cam).scale == old(cam).scale,
        ui_captured ==> *final(cam) == *old(cam) && *final(drag) == *old(drag),
        !ui_captured ==> (*final(cam), *final(drag)) == spec_continue_drag(
            *old(cam),
            *old(drag),
            cursor,
        ),
{
    if ui_captured {
        return;
    }
    if !drag.is_dragging {
        return;
    }
    let last: Vec2i = match drag.last_mouse_position {
        Some(v) => v,
        None => { return; },
    };
    proof {
        crate::fixed::lemma_mul_abs_bound(
            cursor.x - last.x,
            cam.scale as int,
            2 * PIXEL_LIMIT as int,
            SCALE_MAX as int,
        );
        crate::fixed::lemma_mul_abs_bound(
            cursor.y - last.y,
            cam.scale as int,
            2 * PIXEL_LIMIT as int,
            SCALE_MAX as int,
        );
    }
    let dx: i64 = (cursor.x - last.x) * cam.scale;
    let dy: i64 = (cursor.y - last.y) * cam.scale;
    cam.x = clamp_i64(cam.x - dx, -WORLD_LIMIT, WORLD_LIMIT);
    cam.y = clamp_i64(cam.y + dy, -WORLD_LIMIT, WORLD_LIMIT);
    drag.last_mouse_position = Some(cursor);
}

/// Ends a pan: the drag state goes back to idle. The release is not gated
/// by the UI overlay's pointer claim — a drag never outlives its button.
pub fn end_drag(drag: &mut CameraDragState)
    requires
        old(drag).wf(),
    ensures
        final(drag).wf(),
        *final(drag) == drag_init(),
{
    drag.is_dragging = false;
    drag.last_mouse_position = None;
}

/// Applies one wheel-zoom step. `amount` is the accumulated wheel input of
/// the tick in milli-notches; `cursor_world` is the world point under the
/// cursor before the step. With the UI overlay holding the pointer, nothing
/// changes.
pub fn zoom(cam: &mut CameraState, amount: i64, cursor_world: Vec2i, ui_captured: bool)
    requires
        old(cam).wf(),
        -AMOUNT_LIMIT <= amount <= AMOUNT_LIMIT,
        cursor_world.within(WORLD_INPUT_LIMIT),
    ensures
        final(cam).wf(),
        ui_captured ==> *final(cam) == *old(cam),
        !ui_captured ==> *final(cam) == spec_zoom(*old(cam), amount as int, cursor_world),
        SCALE_MIN <= final(cam).scale <= SCALE_MAX,
{
    if ui_captured {
        return;
    }
    if amount == 0 {
        return;
    }
    let speed_part: i64 = div_trunc_i64(amount, ZOOM_SPEED_DIV);
    let factor: i64 = FP_ONE - speed_part;
    proof {
        crate::fixed::lemma_mul_abs_bound(
            cam.scale as int,
            factor as int,
            SCALE_MAX as int,
            FP_ONE + AMOUNT_LIMIT as int,
        );
    }
    let raw_scale: i64 = div_trunc_i64(cam.scale * factor, FP_ONE);
    let ns: i64 = clamp_i64(raw_scale, SCALE_MIN, SCALE_MAX);
    let offx: i64 = cursor_world.x - cam.x;
    let offy: i64 = cursor_world.y - cam.y;
    proof {
        crate::fixed::lemma_mul_abs_bound(
            offx as int,
            ns as int,
            WORLD_INPUT_LIMIT + WORLD_LIMIT as int,
            SCALE_MAX as int,
        );
        crate::fixed::lemma_mul_abs_bound(
            offy as int,
            ns as int,
            WORLD_INPUT_LIMIT + WORLD_LIMIT as int,
            SCALE_MAX as int,
        );
    }
    let nox: i64 = div_trunc_i64(offx * ns, cam.scale);
    let noy: i64 = div_trunc_i64(offy * ns, cam.scale);
    cam.x = clamp_i64(cursor_world.x - nox, -WORLD_LIMIT, WORLD_LIMIT);
    cam.y = clamp_i64(cursor_world.y - noy, -WORLD_LIMIT, WORLD_LIMIT);
    cam.scale = ns;
}

/// Law: the zoom scale is clamped. Whatever the starting camera and however
/// large the wheel amount, the scale a zoom step leaves behind lies in
/// `[SCALE_MIN, SCALE_MAX]`.
pub proof fn lemma_zoom_scale_clamped(cam: CameraState, amount: int, p: Vec2i)
    requires
        cam.wf(),
    ensures
        SCALE_MIN <= spec_zoom(cam, amount, p).scale <= SCALE_MAX,
{
}

} // verus!
