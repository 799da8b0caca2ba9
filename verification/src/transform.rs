//! Transform synthesis: from orbit state to the camera's world pose.
//!
//! The rotation composes yaw (outer, about the world up axis) with pitch
//! (inner, about the camera's local right axis); the translation places
//! the camera `radius` units behind the target along the rotated back
//! axis (`+Z`; the camera looks toward `-Z`).  By construction the camera
//! always faces the target: [`lemma_look_at`] proves, exactly, that the
//! vector from camera to target is the rotation's forward axis scaled by
//! the radius.

use vstd::prelude::*;
use crate::fixed::abs_s;
use crate::fixed::fmul;
use crate::fixed::fmul_s;
use crate::fixed::lemma_fmul_bound;
use crate::fixed::lemma_fmul_s_unit;
use crate::fixed::lemma_fmul_s_zero;
use crate::geom::Mat3Fx;
use crate::geom::Vec3Fx;
use crate::input::FrameInput;
use crate::input::input_ok;
use crate::orbit::OrbitControls;
use crate::orbit::update;
use crate::orbit::update_s;
use crate::trig::cos_fx;
use crate::trig::cos_s;
use crate::trig::lemma_cos_s_bounds;
use crate::trig::lemma_sin_s_bounds;
use crate::trig::sin_fx;
use crate::trig::sin_s;

verus! {

/// A camera's world pose: a rotation and a translation.
#[derive(Clone, Copy, PartialEq, Eq, Structural, Debug)]
pub struct CameraTransform {
    pub rotation: Mat3Fx,
    pub translation: Vec3Fx,
}

/// The world rotation for the given attitude: yaw about the up axis
/// composed (outer) with pitch about the local right axis (inner).
pub open spec fn rot_s(yaw: int, pitch: int) -> Mat3Fx {
    let sy = sin_s(yaw);
    let cy = cos_s(yaw);
    let sp = sin_s(pitch);
    let cp = cos_s(pitch);
    Mat3Fx {
        m00: cy as i64,
        m01: fmul_s(sy, sp) as i64,
        m02: fmul_s(sy, cp) as i64,
        m10: 0,
        m11: cp as i64,
        m12: (-sp) as i64,
        m20: (-sy) as i64,
        m21: fmul_s(cy, sp) as i64,
        m22: fmul_s(cy, cp) as i64,
    }
}

/// A rotation applied to a fixed-point vector, row by row.
pub open spec fn apply_s(m: Mat3Fx, v: Vec3Fx) -> Vec3Fx {
    Vec3Fx {
        x: (fmul_s(m.m00 as int, v.x as int) + fmul_s(m.m01 as int, v.y as int) + fmul_s(
            m.m02 as int,
            v.z as int,
        )) as i64,
        y: (fmul_s(m.m10 as int, v.x as int) + fmul_s(m.m11 as int, v.y as int) + fmul_s(
            m.m12 as int,
            v.z as int,
        )) as i64,
        z: (fmul_s(m.m20 as int, v.x as int) + fmul_s(m.m21 as int, v.y as int) + fmul_s(
            m.m22 as int,
            v.z as int,
        )) as i64,
    }
}

/// The unit back axis, `+Z`: the direction the camera retreats along.
pub open spec fn back_unit_s() -> Vec3Fx {
    Vec3Fx { x: 0, y: 0, z: 1_000_000 }
}

/// The unit forward axis of a rotation: the image of `-Z`, the direction
/// the camera looks along.
pub open spec fn forward_s(m: Mat3Fx) -> Vec3Fx {
    Vec3Fx {
        x: (-(m.m02 as int)) as i64,
        y: (-(m.m12 as int)) as i64,
        z: (-(m.m22 as int)) as i64,
    }
}

/// The whole pose for an orbit state: the rotation for its attitude, and
/// the target offset by the rotated back axis scaled by the radius.
pub open spec fn synth_s(s: OrbitControls) -> CameraTransform {
    let m = rot_s(s.yaw as int, s.pitch as int);
    CameraTransform {
        rotation: m,
        translation: Vec3Fx {
            x: (s.target.x + fmul_s(m.m02 as int, s.radius as int)) as i64,
            y: (s.target.y + fmul_s(m.m12 as int, s.radius as int)) as i64,
            z: (s.target.z + fmul_s(m.m22 as int, s.radius as int)) as i64,
        },
    }
}

/// Every entry of a synthesized rotation is at most one unit.
pub proof fn lemma_rot_s_bounds(yaw: int, pitch: int)
    ensures
        abs_s(rot_s(yaw, pitch).m00 as int) <= 1_000_000,
        abs_s(rot_s(yaw, pitch).m01 as int) <= 1_000_000,
        abs_s(rot_s(yaw, pitch).m02 as int) <= 1_000_000,
        abs_s(rot_s(yaw, pitch).m10 as int) <= 1_000_000,
        abs_s(rot_s(yaw, pitch).m11 as int) <= 1_000_000,
        abs_s(rot_s(yaw, pitch).m12 as int) <= 1_000_000,
        abs_s(rot_s(yaw, pitch).m20 as int) <= 1_000_000,
        abs_s(rot_s(yaw, pitch).m21 as int) <= 1_000_000,
        abs_s(rot_s(yaw, pitch).m22 as int) <= 1_000_000,
        rot_s(yaw, pitch).m02 as int == fmul_s(sin_s(yaw), cos_s(pitch)),
        rot_s(yaw, pitch).m12 as int == -sin_s(pitch),
        rot_s(yaw, pitch).m22 as int == fmul_s(cos_s(yaw), cos_s(pitch)),
{
    lemma_sin_s_bounds(yaw);
    lemma_cos_s_bounds(yaw);
    lemma_sin_s_bounds(pitch);
    lemma_cos_s_bounds(pitch);
    lemma_fmul_bound(sin_s(yaw), sin_s(pitch), 1_000_000, 1_000_000);
    lemma_fmul_bound(sin_s(yaw), cos_s(pitch), 1_000_000, 1_000_000);
    lemma_fmul_bound(cos_s(yaw), sin_s(pitch), 1_000_000, 1_000_000);
    lemma_fmul_bound(cos_s(yaw), cos_s(pitch), 1_000_000, 1_000_000);
}

/// The look-at invariant: for every well-formed orbit state, the vector
/// from the synthesized camera position to the target is exactly the
/// rotation's forward axis — the image of `-Z` under the rotation —
/// scaled by the radius, so the camera faces the target whatever the
/// state's yaw, pitch and radius.
pub proof fn lemma_look_at(s: OrbitControls)
    requires
        s.wf(),
    ensures
        ({
            let c = synth_s(s);
            let fwd = forward_s(c.rotation);
            &&& fwd == apply_s(c.rotation, (Vec3Fx { x: 0, y: 0, z: (-1_000_000) as i64 }))
            &&& s.target.x - c.translation.x == fmul_s(fwd.x as int, s.radius as int)
            &&& s.target.y - c.translation.y == fmul_s(fwd.y as int, s.radius as int)
            &&& s.target.z - c.translation.z == fmul_s(fwd.z as int, s.radius as int)
        }),
{
    let m = rot_s(s.yaw as int, s.pitch as int);
    lemma_rot_s_bounds(s.yaw as int, s.pitch as int);
    lemma_fmul_s_zero(m.m00 as int);
    lemma_fmul_s_zero(m.m01 as int);
    lemma_fmul_s_zero(m.m10 as int);
    lemma_fmul_s_zero(m.m11 as int);
    lemma_fmul_s_zero(m.m20 as int);
    lemma_fmul_s_zero(m.m21 as int);
    lemma_fmul_s_unit(m.m02 as int);
    lemma_fmul_s_unit(m.m12 as int);
    lemma_fmul_s_unit(m.m22 as int);
    lemma_fmul_bound(m.m02 as int, s.radius as int, 1_000_000, 1_000_000_000_000);
    lemma_fmul_bound(m.m12 as int, s.radius as int, 1_000_000, 1_000_000_000_000);
    lemma_fmul_bound(m.m22 as int, s.radius as int, 1_000_000, 1_000_000_000_000);
    crate::fixed::lemma_fmul_s_neg_left(m.m02 as int, s.radius as int);
    crate::fixed::lemma_fmul_s_neg_left(m.m12 as int, s.radius as int);
    crate::fixed::lemma_fmul_s_neg_left(m.m22 as int, s.radius as int);
}

/// Synthesize the camera's world pose from its orbit state.
pub fn synthesize(o: &OrbitControls) -> (t: CameraTransform)
    requires
        o.wf(),
    ensures
        t == synth_s(*o),
{
    let sy = sin_fx(o.yaw);
    let cy = cos_fx(o.yaw);
    let sp = sin_fx(o.pitch);
    let cp = cos_fx(o.pitch);
    proof {
        lemma_fmul_bound(sy as int, sp as int, 1_000_000, 1_000_000);
        lemma_fmul_bound(sy as int, cp as int, 1_000_000, 1_000_000);
        lemma_fmul_bound(cy as int, sp as int, 1_000_000, 1_000_000);
        lemma_fmul_bound(cy as int, cp as int, 1_000_000, 1_000_000);
    }
    let m01 = fmul(sy, sp);
    let m02 = fmul(sy, cp);
    let m21 = fmul(cy, sp);
    let m22 = fmul(cy, cp);
    let rotation = Mat3Fx {
        m00: cy,
        m01,
        m02,
        m10: 0,
        m11: cp,
        m12: -sp,
        m20: -sy,
        m21,
        m22,
    };
    proof {
        lemma_fmul_bound(m02 as int, o.radius as int, 1_000_000, 1_000_000_000_000);
        lemma_fmul_bound((-sp) as int, o.radius as int, 1_000_000, 1_000_000_000_000);
        lemma_fmul_bound(m22 as int, o.radius as int, 1_000_000, 1_000_000_000_000);
    }
    let translation = Vec3Fx {
        x: o.target.x + fmul(m02, o.radius),
        y: o.target.y + fmul(-sp, o.radius),
        z: o.target.z + fmul(m22, o.radius),
    };
    CameraTransform { rotation, translation }
}

/// One whole camera tick: fold the frame's input into the orbit state,
/// then synthesize the world pose of the new state.
pub fn tick(o: &mut OrbitControls, input: &FrameInput) -> (t: CameraTransform)
    requires
        old(o).wf(),
        input_ok(*input),
    ensures
        final(o).wf(),
        *final(o) == update_s(*old(o), *input),
        t == synth_s(*final(o)),
{
    update(o, input);
    synthesize(o)
}

} // verus!
