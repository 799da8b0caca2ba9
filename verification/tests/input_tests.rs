use orbit_camera::fixed::ONE;
use orbit_camera::geom::Vec2Fx;
use orbit_camera::input::DIAG;
use orbit_camera::input::FrameInput;
use orbit_camera::input::KeyState;
use orbit_camera::input::PointerState;
use orbit_camera::input::ScrollUnit;
use orbit_camera::input::WheelEvent;
use orbit_camera::input::aggregate;
use orbit_camera::input::move_axes;

fn keys(forward: bool, back: bool, left: bool, right: bool) -> KeyState {
    KeyState { forward, back, left, right }
}

fn no_pointer() -> PointerState {
    PointerState { drag_held: false, motion: Vec2Fx { x: 0, y: 0 } }
}

fn mag_sq(v: Vec2Fx) -> i64 {
    let xx = (v.x as i128) * (v.x as i128) / 1_000_000;
    let yy = (v.y as i128) * (v.y as i128) / 1_000_000;
    (xx + yy) as i64
}

#[test]
fn move_axes_no_keys_is_zero() {
    let r = move_axes(&keys(false, false, false, false));
    assert_eq!(r, Vec2Fx { x: 0, y: 0 });
    assert_eq!(mag_sq(r), 0);
}

#[test]
fn move_axes_single_keys_are_axis_units() {
    assert_eq!(move_axes(&keys(false, false, false, true)), Vec2Fx { x: ONE, y: 0 });
    assert_eq!(move_axes(&keys(false, false, true, false)), Vec2Fx { x: -ONE, y: 0 });
    assert_eq!(move_axes(&keys(false, true, false, false)), Vec2Fx { x: 0, y: ONE });
    assert_eq!(move_axes(&keys(true, false, false, false)), Vec2Fx { x: 0, y: -ONE });
}

#[test]
fn move_axes_diagonal_is_unit_not_sqrt2() {
    // D and S together: a diagonal of exactly unit squared magnitude.
    let r = move_axes(&keys(false, true, false, true));
    assert_eq!(r, Vec2Fx { x: DIAG, y: DIAG });
    assert_eq!(mag_sq(r), ONE);
}

#[test]
fn move_axes_magnitude_unit_or_zero_for_all_chords() {
    for bits in 0u8..16 {
        let k = keys(bits & 1 != 0, bits & 2 != 0, bits & 4 != 0, bits & 8 != 0);
        let m = mag_sq(move_axes(&k));
        assert!(m == 0 || m == ONE, "chord {bits}: mag_sq {m}");
    }
}

#[test]
fn move_axes_opposed_keys_cancel() {
    let r = move_axes(&keys(true, true, true, true));
    assert_eq!(r, Vec2Fx { x: 0, y: 0 });
}

#[test]
fn aggregate_empty_streams_contribute_zero() {
    let r = aggregate(&vec![], &vec![], &keys(false, false, false, false), &no_pointer());
    let zero = FrameInput {
        zoom_delta: 0,
        pan_delta: Vec2Fx { x: 0, y: 0 },
        move_axes: Vec2Fx { x: 0, y: 0 },
    };
    assert_eq!(r, zero);
}

#[test]
fn aggregate_pinch_is_additive() {
    let r = aggregate(
        &vec![],
        &vec![100_000, 200_000, -50_000],
        &keys(false, false, false, false),
        &no_pointer(),
    );
    assert_eq!(r.zoom_delta, 250_000);
    assert_eq!(r.pan_delta, Vec2Fx { x: 0, y: 0 });
}

#[test]
fn aggregate_line_wheel_feeds_zoom_with_coefficient() {
    // Two wheel lines: 0.1 * 2 = 0.2 of zoom.
    let e = WheelEvent { unit: ScrollUnit::Line, x: 0, y: 2_000_000 };
    let r = aggregate(&vec![e], &vec![], &keys(false, false, false, false), &no_pointer());
    assert_eq!(r.zoom_delta, 200_000);
    assert_eq!(r.pan_delta, Vec2Fx { x: 0, y: 0 });
}

#[test]
fn aggregate_pixel_wheel_feeds_pan() {
    let e = WheelEvent { unit: ScrollUnit::Pixel, x: 3_000_000, y: -1_000_000 };
    let r = aggregate(&vec![e], &vec![], &keys(false, false, false, false), &no_pointer());
    assert_eq!(r.zoom_delta, 0);
    assert_eq!(r.pan_delta, Vec2Fx { x: 3_000_000, y: -1_000_000 });
}

#[test]
fn aggregate_drag_motion_adds_to_pan_only_while_held() {
    let held = PointerState { drag_held: true, motion: Vec2Fx { x: 5_000_000, y: 7_000_000 } };
    let loose = PointerState { drag_held: false, motion: Vec2Fx { x: 5_000_000, y: 7_000_000 } };
    let k = keys(false, false, false, false);
    let r1 = aggregate(&vec![], &vec![], &k, &held);
    assert_eq!(r1.pan_delta, Vec2Fx { x: 5_000_000, y: 7_000_000 });
    let r2 = aggregate(&vec![], &vec![], &k, &loose);
    assert_eq!(r2.pan_delta, Vec2Fx { x: 0, y: 0 });
}

#[test]
fn aggregate_mixed_streams_sum_by_kind() {
    let line = WheelEvent { unit: ScrollUnit::Line, x: 0, y: 1_000_000 };
    let pixel = WheelEvent { unit: ScrollUnit::Pixel, x: 2_000_000, y: 4_000_000 };
    let held = PointerState { drag_held: true, motion: Vec2Fx { x: 1_000_000, y: -1_000_000 } };
    let r = aggregate(&vec![line, pixel], &vec![300_000], &keys(false, true, false, false), &held);
    // zoom: pinch 0.3 plus 0.1 of one line.
    assert_eq!(r.zoom_delta, 400_000);
    // pan: the pixel event plus the drag motion.
    assert_eq!(r.pan_delta, Vec2Fx { x: 3_000_000, y: 3_000_000 });
    assert_eq!(r.move_axes, Vec2Fx { x: 0, y: ONE });
}
