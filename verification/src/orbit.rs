//! The persistent orbit state and its per-tick update.
//!
//! [`OrbitControls`] is the single source of truth for a camera's pose: the
//! orbited `target`, the `yaw` and `pitch` attitude angles, and the
//! `radius` distance.  Once per tick [`update`] folds the frame's
//! aggregated input into it, in a fixed order: yaw first, then pitch
//! (clamped to [`PITCH_LIMIT`]), then the multiplicative zoom (kept
//! strictly positive by [`RADIUS_FLOOR`]), and last the planar movement of
//! `target`, rotated into the *just updated* yaw frame and scaled by the
//! *just updated* radius, so movement always follows the new facing.
//!
//! The symmetric clamps on `yaw` and on `target`, and the cap
//! [`RADIUS_MAX`], sit far beyond interactive use; they only keep every
//! reachable state inside the fixed-point range.

use vstd::prelude::*;
use vstd::arithmetic::div_mod::lemma_div_pos_is_pos;
use vstd::arithmetic::mul::lemma_mul_upper_bound;
use crate::fixed::ONE;
use crate::fixed::abs_s;
use crate::fixed::clamp;
use crate::fixed::clamp_s;
use crate::fixed::fmul;
use crate::fixed::fmul_s;
use crate::fixed::lemma_fmul_bound;
use crate::fixed::lemma_mul_sign;
use crate::fixed::tdiv_one;
use crate::geom::Vec3Fx;
use crate::input::FrameInput;
use crate::input::INPUT_MAX;
use crate::input::input_ok;
use crate::trig::cos_fx;
use crate::trig::cos_s;
use crate::trig::sin_fx;
use crate::trig::sin_s;

verus! {

/// Yaw and pitch driven per pan pixel: a hundredth of a radian.
pub const K_PAN: i64 = 10_000;

/// Movement per tick per key, as a fraction of the radius.
pub const K_MOVE: i64 = 50_000;

/// The symmetric pitch clamp, `pi / 4` fixed-point: keeps the attitude
/// well clear of the poles' gimbal flip.
pub const PITCH_LIMIT: i64 = 785_398;

/// Smallest radius zooming can reach: the strictly positive floor.
pub const RADIUS_FLOOR: i64 = 1_000;

/// Largest radius zooming can reach (a million units).
pub const RADIUS_MAX: i64 = 1_000_000_000_000;

/// Largest magnitude of a target coordinate (a million units).
pub const COORD_MAX: i64 = 1_000_000_000_000;

/// Largest yaw magnitude kept (a million full turns).
pub const YAW_LIMIT: i64 = 6_283_186_000_000;

/// The per-camera orbit state: pivot point, attitude angles, distance.
#[derive(Clone, Copy, PartialEq, Eq, Structural, Debug)]
pub struct OrbitControls {
    pub target: Vec3Fx,
    pub yaw: i64,
    pub pitch: i64,
    pub radius: i64,
}

impl OrbitControls {
    /// The state invariant: every angle, distance and coordinate within
    /// its range; in particular the pitch clamp and the positive radius.
    pub open spec fn wf(self) -> bool {
        &&& -YAW_LIMIT <= self.yaw <= YAW_LIMIT
        &&& -PITCH_LIMIT <= self.pitch <= PITCH_LIMIT
        &&& RADIUS_FLOOR <= self.radius <= RADIUS_MAX
        &&& abs_s(self.target.x as int) <= COORD_MAX
        &&& abs_s(self.target.y as int) <= COORD_MAX
        &&& abs_s(self.target.z as int) <= COORD_MAX
    }

    /// Build the initial state from scene-setup values.
    pub fn new(target: Vec3Fx, yaw: i64, pitch: i64, radius: i64) -> (r: OrbitControls)
        requires
            -YAW_LIMIT <= yaw <= YAW_LIMIT,
            -PITCH_LIMIT <= pitch <= PITCH_LIMIT,
            RADIUS_FLOOR <= radius <= RADIUS_MAX,
            abs_s(target.x as int) <= COORD_MAX,
            abs_s(target.y as int) <= COORD_MAX,
            abs_s(target.z as int) <= COORD_MAX,
        ensures
            r.wf(),
            r.target == target,
            r.yaw == yaw,
            r.pitch == pitch,
            r.radius == radius,
    {
        OrbitControls { target, yaw, pitch, radius }
    }
}

/// The yaw after one tick: driven by the pan's horizontal component.
pub open spec fn yaw_after_s(s: OrbitControls, i: FrameInput) -> int {
    clamp_s(
        s.yaw - fmul_s(K_PAN as int, i.pan_delta.x as int),
        -(YAW_LIMIT as int),
        YAW_LIMIT as int,
    )
}

/// The pitch after one tick: driven by the pan's vertical component and
/// clamped into `[-PITCH_LIMIT, PITCH_LIMIT]`.
pub open spec fn pitch_after_s(s: OrbitControls, i: FrameInput) -> int {
    clamp_s(
        s.pitch - fmul_s(K_PAN as int, i.pan_delta.y as int),
        -(PITCH_LIMIT as int),
        PITCH_LIMIT as int,
    )
}

/// The radius after one tick: multiplied by `1 - zoom_delta` so zoom feels
/// proportional at every distance, then clamped to its positive range.
pub open spec fn radius_after_s(s: OrbitControls, i: FrameInput) -> int {
    clamp_s(
        tdiv_one(s.radius * ((ONE as int) - i.zoom_delta)),
        RADIUS_FLOOR as int,
        RADIUS_MAX as int,
    )
}

/// The target after one tick: the key direction, scaled by the movement
/// coefficient and the *new* radius, rotated into the *new* yaw frame, and
/// added to the pivot in the ground plane.
pub open spec fn target_after_s(s: OrbitControls, i: FrameInput) -> Vec3Fx {
    let yaw = yaw_after_s(s, i);
    let radius = radius_after_s(s, i);
    let sy = sin_s(yaw);
    let cy = cos_s(yaw);
    let kr = fmul_s(K_MOVE as int, radius);
    let vx = fmul_s(kr, i.move_axes.x as int);
    let vz = fmul_s(kr, i.move_axes.y as int);
    let dx = fmul_s(cy, vx) + fmul_s(sy, vz);
    let dz = fmul_s(cy, vz) - fmul_s(sy, vx);
    Vec3Fx {
        x: clamp_s(s.target.x + dx, -(COORD_MAX as int), COORD_MAX as int) as i64,
        y: s.target.y,
        z: clamp_s(s.target.z + dz, -(COORD_MAX as int), COORD_MAX as int) as i64,
    }
}

/// The whole next state, in the update's fixed order.
pub open spec fn update_s(s: OrbitControls, i: FrameInput) -> OrbitControls {
    OrbitControls {
        target: target_after_s(s, i),
        yaw: yaw_after_s(s, i) as i64,
        pitch: pitch_after_s(s, i) as i64,
        radius: radius_after_s(s, i) as i64,
    }
}

/// One tick preserves the state invariant.
pub proof fn lemma_update_s_wf(s: OrbitControls, i: FrameInput)
    requires
        s.wf(),
        input_ok(i),
    ensures
        update_s(s, i).wf(),
{
}

/// Apply the multiplicative zoom to the radius, clamped to its range.
fn zoom_radius(radius: i64, zoom: i64) -> (r: i64)
    requires
        RADIUS_FLOOR <= radius <= RADIUS_MAX,
        abs_s(zoom as int) <= INPUT_MAX,
    ensures
        r as int == clamp_s(
            tdiv_one(radius * ((ONE as int) - zoom)),
            RADIUS_FLOOR as int,
            RADIUS_MAX as int,
        ),
{
    if zoom >= ONE {
        proof {
            let f = (ONE as int) - zoom;
            lemma_mul_sign(radius as int, f);
            if radius * f < 0 {
                lemma_div_pos_is_pos(-(radius as int * f), 1_000_000);
            }
        }
        RADIUS_FLOOR
    } else {
        let f: i64 = ONE - zoom;
        proof {
            lemma_mul_upper_bound(radius as int, 1_000_000_000_000, f as int, 20_000_000_000_000_000);
            lemma_div_pos_is_pos(radius as int * f, 1_000_000);
        }
        let p: u128 = (radius as u128) * (f as u128);
        let q: u128 = p / 1_000_000u128;
        if q < (RADIUS_FLOOR as u128) {
            RADIUS_FLOOR
        } else if q > (RADIUS_MAX as u128) {
            RADIUS_MAX
        } else {
            q as i64
        }
    }
}

/// Fold one tick's aggregated input into the orbit state.
///
/// The steps run in the documented order — yaw, clamped pitch,
/// floor-clamped multiplicative zoom, then planar movement of the target
/// in the new yaw frame scaled by the new radius — and the whole effect is
/// exactly [`update_s`].
pub fn update(o: &mut OrbitControls, input: &FrameInput)
    requires
        old(o).wf(),
        input_ok(*input),
    ensures
        final(o).wf(),
        *final(o) == update_s(*old(o), *input),
{
    proof {
        lemma_fmul_bound(K_PAN as int, input.pan_delta.x as int, 10_000, 10_000_000_000_000_000);
        lemma_fmul_bound(K_PAN as int, input.pan_delta.y as int, 10_000, 10_000_000_000_000_000);
    }
    let dyaw = fmul(K_PAN, input.pan_delta.x);
    let dpitch = fmul(K_PAN, input.pan_delta.y);
    o.yaw = clamp(o.yaw - dyaw, -YAW_LIMIT, YAW_LIMIT);
    o.pitch = clamp(o.pitch - dpitch, -PITCH_LIMIT, PITCH_LIMIT);
    o.radius = zoom_radius(o.radius, input.zoom_delta);
    let sy = sin_fx(o.yaw);
    let cy = cos_fx(o.yaw);
    proof {
        lemma_fmul_bound(K_MOVE as int, o.radius as int, 50_000, 1_000_000_000_000);
    }
    let kr = fmul(K_MOVE, o.radius);
    proof {
        lemma_fmul_bound(kr as int, input.move_axes.x as int, 50_000_000_000, 1_000_000);
        lemma_fmul_bound(kr as int, input.move_axes.y as int, 50_000_000_000, 1_000_000);
    }
    let vx = fmul(kr, input.move_axes.x);
    let vz = fmul(kr, input.move_axes.y);
    proof {
        lemma_fmul_bound(cy as int, vx as int, 1_000_000, 50_000_000_000);
        lemma_fmul_bound(sy as int, vz as int, 1_000_000, 50_000_000_000);
        lemma_fmul_bound(cy as int, vz as int, 1_000_000, 50_000_000_000);
        lemma_fmul_bound(sy as int, vx as int, 1_000_000, 50_000_000_000);
    }
    let dx = fmul(cy, vx) + fmul(sy, vz);
    let dz = fmul(cy, vz) - fmul(sy, vx);
    o.target.x = clamp(o.target.x + dx, -COORD_MAX, COORD_MAX);
    o.target.z = clamp(o.target.z + dz, -COORD_MAX, COORD_MAX);
}

} // verus!
