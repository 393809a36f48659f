//! The cursor mapper: device cursor position to world coordinates.
//!
//! The editor camera is an orthographic 2D view: a device pixel at offset
//! `d` from the viewport center sees the world point at offset `d * scale`
//! from the camera center, with the vertical axis inverted (screen y grows
//! downward, world y upward). A cursor outside the viewport maps to nothing.
use vstd::prelude::*;

use crate::camera::{spec_zoom, CameraState, SCALE_MAX, SCALE_MIN};
use crate::fixed::{lemma_div_trunc_exact, lemma_mul_abs_bound, Vec2i, PIXEL_LIMIT,
    WORLD_INPUT_LIMIT, WORLD_LIMIT};

verus! {

/// The window's drawable area, in device pixels.
#[derive(Clone, Copy, PartialEq, Eq, Structural, Debug)]
pub struct Viewport {
    pub width: i64,
    pub height: i64,
}

impl Viewport {
    /// A viewport has positive, sane pixel dimensions.
    pub open spec fn wf(self) -> bool {
        &&& 0 < self.width <= PIXEL_LIMIT
        &&& 0 < self.height <= PIXEL_LIMIT
    }
}

/// The most recent world position of the cursor, as the cursor mapper
/// last computed it.
#[derive(Clone, Copy, PartialEq, Eq, Structural, Debug)]
pub struct WorldCoordinates(pub Vec2i);

impl Default for WorldCoordinates {
    /// Before any cursor movement the held position is the origin.
    fn default() -> (r: WorldCoordinates)
        ensures
            r.0.x == 0 && r.0.y == 0,
    {
        WorldCoordinates(Vec2i { x: 0, y: 0 })
    }
}

/// Where a device cursor position lands in the world: `None` outside the
/// viewport, otherwise the camera center plus the pixel offset from the
/// viewport center scaled by the zoom, with the vertical axis inverted.
pub open spec fn spec_cursor_world(cursor: Vec2i, vp: Viewport, cam: CameraState) -> Option<
    Vec2i,
> {
    if 0 <= cursor.x <= vp.width && 0 <= cursor.y <= vp.height {
        Some(
            Vec2i {
                x: (cam.x + (cursor.x - vp.width as int / 2) * cam.scale) as i64,
                y: (cam.y - (cursor.y - vp.height as int / 2) * cam.scale) as i64,
            },
        )
    } else {
        None
    }
}

/// Maps a device cursor position to world coordinates under the given
/// camera, or `None` when the cursor lies outside the viewport. A produced
/// point always fits the world-input bounds that the camera and tile
/// operations expect.
pub fn cursor_to_world(cursor: Vec2i, vp: Viewport, cam: &CameraState) -> (r: Option<Vec2i>)
    requires
        vp.wf(),
        cam.wf(),
    ensures
        r == spec_cursor_world(cursor, vp, *cam),
        r is Some ==> r->0.within(WORLD_INPUT_LIMIT),
{
    if cursor.x < 0 || cursor.x > vp.width || cursor.y < 0 || cursor.y > vp.height {
        return None;
    }
    let half_w: i64 = ((vp.width as u64) / 2) as i64;
    let half_h: i64 = ((vp.height as u64) / 2) as i64;
    proof {
        lemma_mul_abs_bound(
            cursor.x - half_w,
            cam.scale as int,
            PIXEL_LIMIT as int,
            SCALE_MAX as int,
        );
        lemma_mul_abs_bound(
            cursor.y - half_h,
            cam.scale as int,
            PIXEL_LIMIT as int,
            SCALE_MAX as int,
        );
    }
    let x: i64 = cam.x + (cursor.x - half_w) * cam.scale;
    let y: i64 = cam.y - (cursor.y - half_h) * cam.scale;
    Some(Vec2i { x, y })
}

/// Law: anchored zoom. For any camera whose center is not within a hair of
/// the world bounds, any viewport, any cursor inside it and any wheel
/// amount, the world point under the cursor before a zoom step is still
/// under the cursor after the step.
pub proof fn lemma_zoom_keeps_cursor_point(
    cam: CameraState,
    vp: Viewport,
    cursor: Vec2i,
    amount: int,
)
    requires
        cam.wf(),
        vp.wf(),
        0 <= cursor.x <= vp.width,
        0 <= cursor.y <= vp.height,
        -(WORLD_LIMIT - 0x2_0000_0000) <= cam.x <= WORLD_LIMIT - 0x2_0000_0000,
        -(WORLD_LIMIT - 0x2_0000_0000) <= cam.y <= WORLD_LIMIT - 0x2_0000_0000,
    ensures
        ({
            let p = spec_cursor_world(cursor, vp, cam)->0;
            spec_cursor_world(cursor, vp, spec_zoom(cam, amount, p)) == Some(p)
        }),
{
    let w2 = vp.width as int / 2;
    let h2 = vp.height as int / 2;
    let dx = cursor.x - w2;
    let dy = cursor.y - h2;
    let os = cam.scale as int;
    assert(0 <= w2 <= vp.width);
    assert(0 <= h2 <= vp.height);
    lemma_mul_abs_bound(dx, os, PIXEL_LIMIT as int, SCALE_MAX as int);
    lemma_mul_abs_bound(dy, os, PIXEL_LIMIT as int, SCALE_MAX as int);
    let px = cam.x + dx * os;
    let py = cam.y - dy * os;
    let p = spec_cursor_world(cursor, vp, cam)->0;
    assert(p.x == px && p.y == py);
    if amount != 0 {
        let cam2 = spec_zoom(cam, amount, p);
        let ns = cam2.scale as int;
        assert(SCALE_MIN <= ns <= SCALE_MAX);
        lemma_mul_abs_bound(dx, ns, PIXEL_LIMIT as int, SCALE_MAX as int);
        lemma_mul_abs_bound(dy, ns, PIXEL_LIMIT as int, SCALE_MAX as int);
        assert((p.x - cam.x) * ns == (dx * ns) * os) by (nonlinear_arith)
            requires
                p.x == cam.x + dx * os,
        ;
        assert((p.y - cam.y) * ns == ((-dy) * ns) * os) by (nonlinear_arith)
            requires
                p.y == cam.y - dy * os,
        ;
        lemma_div_trunc_exact(dx * ns, os);
        lemma_div_trunc_exact((-dy) * ns, os);
        assert((-dy) * ns == -(dy * ns)) by (nonlinear_arith);
        assert(cam2.x == px - dx * ns);
        assert(cam2.y == py + dy * ns);
        assert(cam2.x + dx * ns == px);
        assert(cam2.y - dy * ns == py);
    }
}

} // verus!
