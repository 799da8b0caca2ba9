//! Laws the controller keeps over whole input histories.
//!
//! The per-tick contracts pin each step down; the proofs here chain them:
//! the state invariant — the pitch clamp, the strictly positive radius —
//! holds after *any* sequence of well-formed inputs, and a tick whose
//! input is all zero is the identity on the state and on the synthesized
//! transform.

use vstd::prelude::*;
use crate::fixed::ONE;
use crate::fixed::lemma_fmul_s_unit;
use crate::fixed::lemma_fmul_s_zero;
use crate::input::FrameInput;
use crate::input::input_ok;
use crate::orbit::K_PAN;
use crate::orbit::OrbitControls;
use crate::orbit::PITCH_LIMIT;
use crate::orbit::RADIUS_FLOOR;
use crate::orbit::lemma_update_s_wf;
use crate::orbit::update_s;
use crate::transform::synth_s;

verus! {

/// The state after folding a whole sequence of tick inputs, oldest first.
pub open spec fn run_s(s: OrbitControls, ins: Seq<FrameInput>) -> OrbitControls
    decreases ins.len(),
{
    if ins.len() == 0 {
        s
    } else {
        update_s(run_s(s, ins.drop_last()), ins.last())
    }
}

/// Every input of the sequence is well formed.
pub open spec fn inputs_ok_s(ins: Seq<FrameInput>) -> bool {
    forall|i: int| 0 <= i < ins.len() ==> input_ok(#[trigger] ins[i])
}

/// The state invariant holds after any sequence of well-formed inputs.
pub proof fn lemma_run_s_wf(s: OrbitControls, ins: Seq<FrameInput>)
    requires
        s.wf(),
        inputs_ok_s(ins),
    ensures
        run_s(s, ins).wf(),
    decreases ins.len(),
{
    if ins.len() > 0 {
        assert forall|i: int| 0 <= i < ins.drop_last().len() implies input_ok(
            #[trigger] ins.drop_last()[i],
        ) by {
            assert(ins.drop_last()[i] == ins[i]);
        }
        lemma_run_s_wf(s, ins.drop_last());
        lemma_update_s_wf(run_s(s, ins.drop_last()), ins.last());
    }
}

/// The pitch bound: after any sequence of well-formed inputs — pans of any
/// size and sign included — the pitch lies in `[-PITCH_LIMIT, PITCH_LIMIT]`.
pub proof fn lemma_pitch_bound(s: OrbitControls, ins: Seq<FrameInput>)
    requires
        s.wf(),
        inputs_ok_s(ins),
    ensures
        -PITCH_LIMIT <= run_s(s, ins).pitch <= PITCH_LIMIT,
{
    lemma_run_s_wf(s, ins);
}

/// Radius positivity: after any sequence of well-formed inputs — zooms of
/// any size and sign included — the radius stays at or above the strictly
/// positive floor.
pub proof fn lemma_radius_positive(s: OrbitControls, ins: Seq<FrameInput>)
    requires
        s.wf(),
        inputs_ok_s(ins),
    ensures
        run_s(s, ins).radius >= RADIUS_FLOOR,
        RADIUS_FLOOR > 0,
{
    lemma_run_s_wf(s, ins);
}

/// Yaw wraps implicitly: a state whose yaw is a full period further round
/// synthesizes exactly the same pose, so the unbounded, unnormalized yaw
/// is sound.
pub proof fn lemma_full_turn_invisible(s: OrbitControls)
    requires
        s.wf(),
        s.yaw + crate::trig::TAU_FX <= crate::orbit::YAW_LIMIT,
    ensures
        ({
            let turned = OrbitControls { yaw: (s.yaw + crate::trig::TAU_FX) as i64, ..s };
            synth_s(turned) == synth_s(s)
        }),
{
    crate::trig::lemma_trig_periodic(s.yaw as int);
}

/// Idempotence under zero input: a tick whose input is all zero leaves the
/// state unchanged, and with it the synthesized transform.
pub proof fn lemma_zero_input_identity(s: OrbitControls, i: FrameInput)
    requires
        s.wf(),
        i.zoom_delta == 0,
        i.pan_delta.x == 0,
        i.pan_delta.y == 0,
        i.move_axes.x == 0,
        i.move_axes.y == 0,
    ensures
        update_s(s, i) == s,
        synth_s(update_s(s, i)) == synth_s(s),
{
    lemma_fmul_s_zero(K_PAN as int);
    assert(s.radius as int * ((ONE as int) - i.zoom_delta) == s.radius as int * 1_000_000)
        by (nonlinear_arith)
        requires
            (ONE as int) - i.zoom_delta == 1_000_000,
    ;
    lemma_fmul_s_unit(s.radius as int);
    let yaw = crate::orbit::yaw_after_s(s, i);
    let radius = crate::orbit::radius_after_s(s, i);
    let kr = crate::fixed::fmul_s(crate::orbit::K_MOVE as int, radius);
    lemma_fmul_s_zero(kr);
    lemma_fmul_s_zero(crate::trig::sin_s(yaw));
    lemma_fmul_s_zero(crate::trig::cos_s(yaw));
}

} // verus!
