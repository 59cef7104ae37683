//! The pan/zoom camera over the logical canvas.
//!
//! Zoom is multiplicative by a fixed factor of 1.1 per scroll step, so the
//! camera keeps the net number of zoom-out steps: the view extent is the
//! canvas extent times `1.1 ^ zoom_steps`. Keeping the exponent instead of a
//! rounded factor makes zoom composition exact — one step in and one step out
//! cancel with no drift — and keeps the zoom factor positive by construction.
//!
//! Pan keeps a pixel offset, translated by the negated pointer delta while a
//! drag is active; the delta is applied unscaled, independent of the current
//! zoom level. Offsets saturate at the i64 bounds instead of wrapping.

use vstd::prelude::*;

verus! {

/// Which region of the logical canvas is visible: a translation of the view
/// rectangle in pixels plus a net zoom exponent. The implied zoom factor
/// `1.1 ^ zoom_steps` is positive for every value of `zoom_steps`.
#[derive(Clone, Copy, Debug, PartialEq, Eq, Structural)]
pub struct CameraView {
    pub offset_x: i64,
    pub offset_y: i64,
    pub zoom_steps: i64,
}

impl CameraView {
    /// The neutral camera: no pan, no zoom.
    pub fn neutral() -> (r: CameraView)
        ensures
            r == (CameraView { offset_x: 0, offset_y: 0, zoom_steps: 0 }),
    {
        CameraView { offset_x: 0, offset_y: 0, zoom_steps: 0 }
    }
}

/// `x` clamped to the i64 range.
pub open spec fn sat_i64(x: int) -> int {
    if x > i64::MAX {
        i64::MAX as int
    } else if x < (i64::MIN as int) {
        i64::MIN as int
    } else {
        x
    }
}

/// The camera after one scroll event. Only the sign of the scroll delta is
/// used: a negative delta zooms in (one step down), any other delta zooms out
/// (one step up). The step counter saturates at the i64 bounds.
pub open spec fn spec_apply_zoom(cam: CameraView, delta: i32) -> CameraView {
    let dir: int = if delta < 0 {
        -1
    } else {
        1
    };
    CameraView {
        offset_x: cam.offset_x,
        offset_y: cam.offset_y,
        zoom_steps: sat_i64(cam.zoom_steps + dir) as i64,
    }
}

/// The camera translated by the negated pointer delta, unscaled; each offset
/// saturates at the i64 bounds.
pub open spec fn spec_apply_pan(cam: CameraView, dx: i64, dy: i64) -> CameraView {
    CameraView {
        offset_x: sat_i64(cam.offset_x - dx) as i64,
        offset_y: sat_i64(cam.offset_y - dy) as i64,
        zoom_steps: cam.zoom_steps,
    }
}

/// Applies one scroll step to the camera: negative delta zooms in, any other
/// delta zooms out. Zoom is multiplicative, so repeated application scales
/// the view extent geometrically; the pan offset is untouched.
pub fn apply_zoom(cam: &CameraView, delta: i32) -> (r: CameraView)
    ensures
        r == spec_apply_zoom(*cam, delta),
        r.offset_x == cam.offset_x,
        r.offset_y == cam.offset_y,
        delta < 0 && cam.zoom_steps > i64::MIN ==> r.zoom_steps == cam.zoom_steps - 1,
        delta >= 0 && cam.zoom_steps < i64::MAX ==> r.zoom_steps == cam.zoom_steps + 1,
{
    let steps: i64 = if delta < 0 {
        if cam.zoom_steps > i64::MIN {
            cam.zoom_steps - 1
        } else {
            cam.zoom_steps
        }
    } else {
        if cam.zoom_steps < i64::MAX {
            cam.zoom_steps + 1
        } else {
            cam.zoom_steps
        }
    };
    CameraView { offset_x: cam.offset_x, offset_y: cam.offset_y, zoom_steps: steps }
}

/// Clamps a value that fits in an i128 to the i64 range.
fn clamp_to_i64(t: i128) -> (r: i64)
    ensures
        r as int == sat_i64(t as int),
{
    if t > i64::MAX as i128 {
        i64::MAX
    } else if t < i64::MIN as i128 {
        i64::MIN
    } else {
        t as i64
    }
}

/// Translates the camera by the negated pointer delta `(dx, dy)`: dragging
/// the image one way moves the view the other way. The delta is applied in
/// the view's own units without rescaling, so pan speed is independent of the
/// current zoom level. Zoom is untouched.
pub fn apply_pan(cam: &CameraView, dx: i64, dy: i64) -> (r: CameraView)
    ensures
        r == spec_apply_pan(*cam, dx, dy),
        r.zoom_steps == cam.zoom_steps,
        r.offset_x as int == sat_i64(cam.offset_x - dx),
        r.offset_y as int == sat_i64(cam.offset_y - dy),
{
    let tx: i128 = (cam.offset_x as i128) - (dx as i128);
    let ty: i128 = (cam.offset_y as i128) - (dy as i128);
    CameraView {
        offset_x: clamp_to_i64(tx),
        offset_y: clamp_to_i64(ty),
        zoom_steps: cam.zoom_steps,
    }
}

/// Zoom composition law: zooming in once (any negative delta) and then out
/// once (any non-negative delta) restores the camera exactly — the two steps
/// are exact inverses, with no residual drift, whenever the step counter did
/// not saturate downward.
pub proof fn lemma_zoom_round_trip(cam: CameraView, delta_in: i32, delta_out: i32)
    requires
        delta_in < 0,
        delta_out >= 0,
        cam.zoom_steps > i64::MIN,
    ensures
        spec_apply_zoom(spec_apply_zoom(cam, delta_in), delta_out) == cam,
{
}

/// The mirror image of `lemma_zoom_round_trip`: one step out then one step in
/// also cancels exactly, whenever the step counter did not saturate upward.
pub proof fn lemma_zoom_round_trip_out_in(cam: CameraView, delta_out: i32, delta_in: i32)
    requires
        delta_out >= 0,
        delta_in < 0,
        cam.zoom_steps < i64::MAX,
    ensures
        spec_apply_zoom(spec_apply_zoom(cam, delta_out), delta_in) == cam,
{
}

} // verus!
