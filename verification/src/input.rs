//! Per-tick input aggregation.
//!
//! Once per frame the host drains its device events — wheel scrolls tagged
//! with their unit, pinch-gesture magnitudes, the pressed-key set and the
//! pointer's accumulated motion — and [`aggregate`] reduces them to one
//! [`FrameInput`]: a signed multiplicative `zoom_delta`, a planar
//! `pan_delta` in pixels, and a unit-or-zero `move_axes` direction.
//!
//! Wheel events split by unit: coarse `Line` notches feed zoom through the
//! [`K_LINE`] coefficient, fine `Pixel` deltas feed pan directly, as do
//! pointer motions while the drag button is held.  Pinch magnitudes feed
//! zoom additively.  `move_axes` is `(right - left, back - forward)`
//! normalized to unit length, so diagonal key chords are no faster than
//! axis-aligned ones.

use vstd::prelude::*;
use vstd::arithmetic::div_mod::lemma_fundamental_div_mod_converse;
use crate::fixed::ONE;
use crate::fixed::abs_s;
use crate::fixed::fmul;
use crate::fixed::fmul_s;
use crate::fixed::lemma_fmul_bound;
use crate::geom::Vec2Fx;

verus! {

/// Zoom contribution of one wheel line (a tenth of a unit).
pub const K_LINE: i64 = 100_000;

/// The unit-diagonal component: `ONE / sqrt(2)`, rounded to nearest.
pub const DIAG: i64 = 707_107;

/// Largest magnitude accepted for a single event's scalar.
pub const EVENT_ABS_MAX: i64 = 1_000_000_000_000;

/// Largest number of events of one kind accepted in a tick.
pub const MAX_EVENTS: usize = 4_096;

/// Bound on an aggregated `zoom_delta` or `pan_delta` component.
pub const INPUT_MAX: i64 = 10_000_000_000_000_000;

/// The unit a wheel event reports: coarse mouse notches or trackpad pixels.
#[derive(Clone, Copy, PartialEq, Eq, Structural, Debug)]
pub enum ScrollUnit {
    Line,
    Pixel,
}

/// One wheel or scroll event, with its unit and planar delta.
#[derive(Clone, Copy, PartialEq, Eq, Structural, Debug)]
pub struct WheelEvent {
    pub unit: ScrollUnit,
    pub x: i64,
    pub y: i64,
}

/// The four movement keys' pressed state for the tick.
#[derive(Clone, Copy, PartialEq, Eq, Structural, Debug)]
pub struct KeyState {
    pub forward: bool,
    pub back: bool,
    pub left: bool,
    pub right: bool,
}

/// The drag button's state and the pointer motion accumulated this tick.
#[derive(Clone, Copy, PartialEq, Eq, Structural, Debug)]
pub struct PointerState {
    pub drag_held: bool,
    pub motion: Vec2Fx,
}

/// The tick's aggregated input, rebuilt every frame and never persisted.
#[derive(Clone, Copy, PartialEq, Eq, Structural, Debug)]
pub struct FrameInput {
    pub zoom_delta: i64,
    pub pan_delta: Vec2Fx,
    pub move_axes: Vec2Fx,
}

/// What one wheel event adds to `zoom_delta`.
pub open spec fn wheel_zoom_one_s(e: WheelEvent) -> int {
    match e.unit {
        ScrollUnit::Line => fmul_s(K_LINE as int, e.y as int),
        ScrollUnit::Pixel => 0,
    }
}

/// What one wheel event adds to `pan_delta.x`.
pub open spec fn wheel_pan_x_one_s(e: WheelEvent) -> int {
    match e.unit {
        ScrollUnit::Line => 0,
        ScrollUnit::Pixel => e.x as int,
    }
}

/// What one wheel event adds to `pan_delta.y`.
pub open spec fn wheel_pan_y_one_s(e: WheelEvent) -> int {
    match e.unit {
        ScrollUnit::Line => 0,
        ScrollUnit::Pixel => e.y as int,
    }
}

/// Sum of a tick's pinch magnitudes.
pub open spec fn pinch_sum_s(s: Seq<i64>) -> int
    decreases s.len(),
{
    if s.len() == 0 {
        0
    } else {
        pinch_sum_s(s.drop_last()) + s.last()
    }
}

/// Sum of a tick's wheel contributions to `zoom_delta`.
pub open spec fn wheel_zoom_sum_s(s: Seq<WheelEvent>) -> int
    decreases s.len(),
{
    if s.len() == 0 {
        0
    } else {
        wheel_zoom_sum_s(s.drop_last()) + wheel_zoom_one_s(s.last())
    }
}

/// Sum of a tick's wheel contributions to `pan_delta.x`.
pub open spec fn wheel_pan_x_sum_s(s: Seq<WheelEvent>) -> int
    decreases s.len(),
{
    if s.len() == 0 {
        0
    } else {
        wheel_pan_x_sum_s(s.drop_last()) + wheel_pan_x_one_s(s.last())
    }
}

/// Sum of a tick's wheel contributions to `pan_delta.y`.
pub open spec fn wheel_pan_y_sum_s(s: Seq<WheelEvent>) -> int
    decreases s.len(),
{
    if s.len() == 0 {
        0
    } else {
        wheel_pan_y_sum_s(s.drop_last()) + wheel_pan_y_one_s(s.last())
    }
}

/// A well-formed batch of wheel events: bounded count and magnitudes.
pub open spec fn wheel_ok(s: Seq<WheelEvent>) -> bool {
    &&& s.len() <= MAX_EVENTS
    &&& forall|i: int|
        0 <= i < s.len() ==> abs_s((#[trigger] s[i]).x as int) <= EVENT_ABS_MAX && abs_s(
            s[i].y as int,
        ) <= EVENT_ABS_MAX
}

/// A well-formed batch of pinch magnitudes.
pub open spec fn pinch_ok(s: Seq<i64>) -> bool {
    &&& s.len() <= MAX_EVENTS
    &&& forall|i: int| 0 <= i < s.len() ==> abs_s((#[trigger] s[i]) as int) <= EVENT_ABS_MAX
}

/// A well-formed pointer state: bounded accumulated motion.
pub open spec fn pointer_ok(p: PointerState) -> bool {
    abs_s(p.motion.x as int) <= EVENT_ABS_MAX && abs_s(p.motion.y as int) <= EVENT_ABS_MAX
}

/// A well-formed aggregated input: what the controller's update accepts.
pub open spec fn input_ok(i: FrameInput) -> bool {
    &&& abs_s(i.zoom_delta as int) <= INPUT_MAX
    &&& abs_s(i.pan_delta.x as int) <= INPUT_MAX
    &&& abs_s(i.pan_delta.y as int) <= INPUT_MAX
    &&& abs_s(i.move_axes.x as int) <= ONE
    &&& abs_s(i.move_axes.y as int) <= ONE
}

/// The signed unit direction one opposed key pair drives: `pos - neg`.
pub open spec fn axis_s(pos: bool, neg: bool) -> int {
    (if pos {
        1int
    } else {
        0int
    }) - (if neg {
        1int
    } else {
        0int
    })
}

/// The normalized key direction: zero, an axis unit (`ONE`), or a unit
/// diagonal (`DIAG` on both axes), signed by the winning key of each pair.
pub open spec fn move_axes_s(k: KeyState) -> Vec2Fx {
    let dx = axis_s(k.right, k.left);
    let dz = axis_s(k.back, k.forward);
    if dx == 0 && dz == 0 {
        Vec2Fx { x: 0, y: 0 }
    } else if dx == 0 {
        Vec2Fx {
            x: 0,
            y: if dz > 0 {
                1_000_000
            } else {
                (-1_000_000) as i64
            },
        }
    } else if dz == 0 {
        Vec2Fx {
            x: if dx > 0 {
                1_000_000
            } else {
                (-1_000_000) as i64
            },
            y: 0,
        }
    } else {
        Vec2Fx {
            x: if dx > 0 {
                707_107
            } else {
                (-707_107) as i64
            },
            y: if dz > 0 {
                707_107
            } else {
                (-707_107) as i64
            },
        }
    }
}

/// Squared fixed-point magnitude of a planar vector.
pub open spec fn mag_sq_s(v: Vec2Fx) -> int {
    fmul_s(v.x as int, v.x as int) + fmul_s(v.y as int, v.y as int)
}

/// The normalization law: for every combination of the four movement keys,
/// the squared magnitude of `move_axes` is zero — exactly when no net
/// direction is pressed — or exactly one unit, diagonals included.
pub proof fn lemma_move_axes_unit(k: KeyState)
    ensures
        mag_sq_s(move_axes_s(k)) == 0 || mag_sq_s(move_axes_s(k)) == ONE,
        mag_sq_s(move_axes_s(k)) == 0 <==> (axis_s(k.right, k.left) == 0 && axis_s(
            k.back,
            k.forward,
        ) == 0),
{
    assert(fmul_s(0, 0) == 0) by {
        lemma_fundamental_div_mod_converse(0, 1_000_000, 0, 0);
    };
    assert(fmul_s(1_000_000, 1_000_000) == 1_000_000) by {
        lemma_fundamental_div_mod_converse(1_000_000_000_000, 1_000_000, 1_000_000, 0);
    };
    assert(fmul_s(-1_000_000, -1_000_000) == 1_000_000) by {
        lemma_fundamental_div_mod_converse(1_000_000_000_000, 1_000_000, 1_000_000, 0);
    };
    assert(fmul_s(707_107, 707_107) == 500_000) by {
        lemma_fundamental_div_mod_converse(500_000_309_449, 1_000_000, 500_000, 309_449);
    };
    assert(fmul_s(-707_107, -707_107) == 500_000) by {
        lemma_fundamental_div_mod_converse(500_000_309_449, 1_000_000, 500_000, 309_449);
    };
}

/// Derive the normalized movement direction from the pressed-key state.
pub fn move_axes(k: &KeyState) -> (r: Vec2Fx)
    ensures
        r == move_axes_s(*k),
        abs_s(r.x as int) <= ONE,
        abs_s(r.y as int) <= ONE,
{
    let dx: i64 = (if k.right {
        1
    } else {
        0
    }) - (if k.left {
        1
    } else {
        0
    });
    let dz: i64 = (if k.back {
        1
    } else {
        0
    }) - (if k.forward {
        1
    } else {
        0
    });
    if dx == 0 && dz == 0 {
        Vec2Fx { x: 0, y: 0 }
    } else if dx == 0 {
        Vec2Fx {
            x: 0,
            y: if dz > 0 {
                ONE
            } else {
                -ONE
            },
        }
    } else if dz == 0 {
        Vec2Fx {
            x: if dx > 0 {
                ONE
            } else {
                -ONE
            },
            y: 0,
        }
    } else {
        Vec2Fx {
            x: if dx > 0 {
                DIAG
            } else {
                -DIAG
            },
            y: if dz > 0 {
                DIAG
            } else {
                -DIAG
            },
        }
    }
}

/// Aggregate one tick's device events into a `FrameInput`.
///
/// Pinch magnitudes and line-unit wheel rows feed `zoom_delta`; pixel-unit
/// wheel rows, and pointer motion while the drag button is held, feed
/// `pan_delta`; the key state yields `move_axes`.  Absent streams simply
/// contribute zero.
pub fn aggregate(
    wheel: &Vec<WheelEvent>,
    pinch: &Vec<i64>,
    keys: &KeyState,
    pointer: &PointerState,
) -> (r: FrameInput)
    requires
        wheel_ok(wheel@),
        pinch_ok(pinch@),
        pointer_ok(*pointer),
    ensures
        r.zoom_delta as int == pinch_sum_s(pinch@) + wheel_zoom_sum_s(wheel@),
        r.pan_delta.x as int == wheel_pan_x_sum_s(wheel@) + if pointer.drag_held {
            pointer.motion.x as int
        } else {
            0
        },
        r.pan_delta.y as int == wheel_pan_y_sum_s(wheel@) + if pointer.drag_held {
            pointer.motion.y as int
        } else {
            0
        },
        r.move_axes == move_axes_s(*keys),
        input_ok(r),
{
    let mut zoom: i64 = 0;
    let mut i: usize = 0;
    while i < pinch.len()
        invariant
            i <= pinch.len(),
            pinch_ok(pinch@),
            zoom as int == pinch_sum_s(pinch@.subrange(0, i as int)),
            abs_s(zoom as int) <= i * 1_000_000_000_000,
        decreases pinch.len() - i,
    {
        proof {
            assert(pinch@.subrange(0, i + 1).drop_last() =~= pinch@.subrange(0, i as int));
        }
        zoom = zoom + pinch[i];
        i = i + 1;
    }
    proof {
        assert(pinch@.subrange(0, pinch@.len() as int) =~= pinch@);
    }
    let mut panx: i64 = 0;
    let mut pany: i64 = 0;
    let mut j: usize = 0;
    while j < wheel.len()
        invariant
            j <= wheel.len(),
            wheel_ok(wheel@),
            abs_s(pinch_sum_s(pinch@)) <= 4_096_000_000_000_000,
            zoom as int == pinch_sum_s(pinch@) + wheel_zoom_sum_s(wheel@.subrange(0, j as int)),
            abs_s(zoom as int) <= 4_096_000_000_000_000 + j * 100_000_000_000,
            panx as int == wheel_pan_x_sum_s(wheel@.subrange(0, j as int)),
            pany as int == wheel_pan_y_sum_s(wheel@.subrange(0, j as int)),
            abs_s(panx as int) <= j * 1_000_000_000_000,
            abs_s(pany as int) <= j * 1_000_000_000_000,
        decreases wheel.len() - j,
    {
        proof {
            assert(wheel@.subrange(0, j + 1).drop_last() =~= wheel@.subrange(0, j as int));
        }
        let e = wheel[j];
        match e.unit {
            ScrollUnit::Line => {
                proof {
                    lemma_fmul_bound(K_LINE as int, e.y as int, 100_000, 1_000_000_000_000);
                }
                zoom = zoom + fmul(K_LINE, e.y);
            },
            ScrollUnit::Pixel => {
                panx = panx + e.x;
                pany = pany + e.y;
            },
        }
        j = j + 1;
    }
    proof {
        assert(wheel@.subrange(0, wheel@.len() as int) =~= wheel@);
    }
    if pointer.drag_held {
        panx = panx + pointer.motion.x;
        pany = pany + pointer.motion.y;
    }
    let axes = move_axes(keys);
    FrameInput { zoom_delta: zoom, pan_delta: Vec2Fx { x: panx, y: pany }, move_axes: axes }
}

} // verus!
