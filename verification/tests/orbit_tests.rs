use orbit_camera::fixed::ONE;
use orbit_camera::geom::Vec2Fx;
use orbit_camera::geom::Vec3Fx;
use orbit_camera::input::FrameInput;
use orbit_camera::orbit::OrbitControls;
use orbit_camera::orbit::PITCH_LIMIT;
use orbit_camera::orbit::RADIUS_FLOOR;
use orbit_camera::orbit::update;
use orbit_camera::transform::CameraTransform;
use orbit_camera::transform::synthesize;
use orbit_camera::transform::tick;
use orbit_camera::trig::HALF_PI_FX;
use orbit_camera::trig::PI_FX;
use orbit_camera::trig::TAU_FX;
use orbit_camera::trig::cos_fx;
use orbit_camera::trig::sin_fx;

// 135 degrees and -45 degrees in fixed-point radians.
const YAW_135_DEG: i64 = 2_356_194;
const PITCH_NEG_45_DEG: i64 = -785_398;

fn zero_input() -> FrameInput {
    FrameInput {
        zoom_delta: 0,
        pan_delta: Vec2Fx { x: 0, y: 0 },
        move_axes: Vec2Fx { x: 0, y: 0 },
    }
}

fn demo_state() -> OrbitControls {
    OrbitControls::new(Vec3Fx { x: 0, y: 0, z: 0 }, YAW_135_DEG, PITCH_NEG_45_DEG, 5_000_000)
}

fn fx(a: i64, b: i64) -> i64 {
    ((a as i128) * (b as i128) / 1_000_000) as i64
}

#[test]
fn zero_input_tick_keeps_state_and_transform() {
    let mut o = demo_state();
    let before = o;
    let t0 = synthesize(&o);
    let t1 = tick(&mut o, &zero_input());
    assert_eq!(o, before);
    assert_eq!(t1, t0);
}

#[test]
fn zoom_half_halves_radius_multiplicatively() {
    let mut o = demo_state();
    let before = o;
    let t0 = synthesize(&o);
    let mut input = zero_input();
    input.zoom_delta = 500_000;
    let t1 = tick(&mut o, &input);
    assert_eq!(o.radius, 2_500_000);
    assert_eq!(o.yaw, before.yaw);
    assert_eq!(o.pitch, before.pitch);
    assert_eq!(o.target, before.target);
    // Same attitude, new distance: the rotation is unchanged and the
    // translation is recomputed at the new radius.
    assert_eq!(t1.rotation, t0.rotation);
    assert_eq!(t1, synthesize(&o));
}

#[test]
fn zoom_out_multiplies_radius() {
    let mut o = demo_state();
    let mut input = zero_input();
    input.zoom_delta = -1_000_000;  // factor 1 - (-1) = 2
    update(&mut o, &input);
    assert_eq!(o.radius, 10_000_000);
}

#[test]
fn extreme_zoom_in_stops_at_the_positive_floor() {
    let mut o = demo_state();
    let mut input = zero_input();
    input.zoom_delta = 1_000_000;  // factor exactly zero
    update(&mut o, &input);
    assert_eq!(o.radius, RADIUS_FLOOR);
    let mut input2 = zero_input();
    input2.zoom_delta = 3_000_000;  // factor -2: would invert through the target
    update(&mut o, &input2);
    assert_eq!(o.radius, RADIUS_FLOOR);
}

#[test]
fn overshooting_pan_clamps_pitch_exactly_at_the_limit() {
    let mut o = OrbitControls::new(Vec3Fx { x: 0, y: 0, z: 0 }, 0, 0, 5_000_000);
    let mut input = zero_input();
    // -100 pixels of vertical pan would drive the pitch to a full radian.
    input.pan_delta = Vec2Fx { x: 0, y: -100_000_000 };
    update(&mut o, &input);
    assert_eq!(o.pitch, PITCH_LIMIT);
    let mut input2 = zero_input();
    input2.pan_delta = Vec2Fx { x: 0, y: 200_000_000 };
    update(&mut o, &input2);
    assert_eq!(o.pitch, -PITCH_LIMIT);
}

#[test]
fn pan_drives_yaw_by_the_coefficient() {
    let mut o = OrbitControls::new(Vec3Fx { x: 0, y: 0, z: 0 }, 0, 0, 5_000_000);
    let mut input = zero_input();
    input.pan_delta = Vec2Fx { x: 2_000_000, y: 0 };  // 2 pixels right
    update(&mut o, &input);
    // yaw -= 0.01 * 2
    assert_eq!(o.yaw, -20_000);
}

#[test]
fn forward_key_moves_target_toward_minus_z_at_zero_yaw() {
    let mut o = OrbitControls::new(Vec3Fx { x: 0, y: 0, z: 0 }, 0, 0, 5_000_000);
    let mut input = zero_input();
    input.move_axes = Vec2Fx { x: 0, y: -ONE };  // W held
    update(&mut o, &input);
    // 0.05 * radius, along the facing: cos 0 is one unit less a millionth.
    assert_eq!(o.target.y, 0);
    assert_eq!(o.target.x, 0);
    assert_eq!(o.target.z, fx(cos_fx(0), -250_000));
    assert_eq!(o.target.z, -249_999);
}

#[test]
fn movement_follows_the_freshly_updated_yaw() {
    // A pan that turns the camera a quarter turn left, together with a
    // forward key: the movement must follow the new facing, not the old.
    let mut o = OrbitControls::new(Vec3Fx { x: 0, y: 0, z: 0 }, 0, 0, 5_000_000);
    let mut input = zero_input();
    input.pan_delta = Vec2Fx { x: -157_079_600, y: 0 };  // yaw += pi/2
    input.move_axes = Vec2Fx { x: 0, y: -ONE };
    update(&mut o, &input);
    assert_eq!(o.yaw, HALF_PI_FX);
    let sy = sin_fx(HALF_PI_FX);
    let cy = cos_fx(HALF_PI_FX);
    assert_eq!(o.target.x, fx(sy, -250_000));
    assert_eq!(o.target.z, fx(cy, -250_000));
    // Almost entirely along -X: the new facing.
    assert_eq!(o.target.x, -249_999);
    assert_eq!(o.target.z, 0);
}

#[test]
fn look_at_holds_exactly_on_a_plain_state() {
    let o = OrbitControls::new(
        Vec3Fx { x: 1_000_000, y: 500_000, z: -2_000_000 },
        YAW_135_DEG,
        PITCH_NEG_45_DEG,
        5_000_000,
    );
    let t = synthesize(&o);
    let m = t.rotation;
    // Camera-to-target equals the forward axis scaled by the radius.
    assert_eq!(o.target.x - t.translation.x, fx(-m.m02, o.radius));
    assert_eq!(o.target.y - t.translation.y, fx(-m.m12, o.radius));
    assert_eq!(o.target.z - t.translation.z, fx(-m.m22, o.radius));
}

#[test]
fn pitch_stays_bounded_over_a_pan_history() {
    let mut o = demo_state();
    let pans: [i64; 6] = [300_000_000, -800_000_000, 123_456_789, -1, 999_999_999, -999_999_999];
    for p in pans {
        let mut input = zero_input();
        input.pan_delta = Vec2Fx { x: p / 3, y: p };
        update(&mut o, &input);
        assert!(-PITCH_LIMIT <= o.pitch && o.pitch <= PITCH_LIMIT);
    }
}

#[test]
fn radius_stays_positive_over_a_zoom_history() {
    let mut o = demo_state();
    let zooms: [i64; 6] = [999_999, 2_000_000, -5_000_000, 999_999, 999_999, 10_000_000];
    for z in zooms {
        let mut input = zero_input();
        input.zoom_delta = z;
        update(&mut o, &input);
        assert!(o.radius >= RADIUS_FLOOR);
        assert!(RADIUS_FLOOR > 0);
    }
}

#[test]
fn full_turn_of_yaw_synthesizes_the_same_pose() {
    let here = Vec3Fx { x: 250_000, y: -750_000, z: 1_250_000 };
    let a = OrbitControls::new(here, YAW_135_DEG, PITCH_NEG_45_DEG, 5_000_000);
    let b = OrbitControls::new(here, YAW_135_DEG + TAU_FX, PITCH_NEG_45_DEG, 5_000_000);
    let c = OrbitControls::new(here, YAW_135_DEG - 3 * TAU_FX, PITCH_NEG_45_DEG, 5_000_000);
    assert_eq!(synthesize(&b), synthesize(&a));
    assert_eq!(synthesize(&c), synthesize(&a));
}

#[test]
fn trig_fixed_points_match_the_half_period_formula() {
    assert_eq!(sin_fx(0), 0);
    assert_eq!(sin_fx(PI_FX), 0);
    assert_eq!(sin_fx(HALF_PI_FX), 999_999);
    assert_eq!(cos_fx(0), 999_999);
    assert_eq!(sin_fx(-HALF_PI_FX), -999_999);
    assert_eq!(sin_fx(785_398), 705_882);
    assert_eq!(cos_fx(2_356_194), -705_881);
}

#[test]
fn synthesized_translation_sits_behind_the_target() {
    // Zero attitude: the camera sits radius behind the target along +Z,
    // up to the cosine's fixed-point resolution.
    let o = OrbitControls::new(Vec3Fx { x: 0, y: 0, z: 0 }, 0, 0, 5_000_000);
    let t: CameraTransform = synthesize(&o);
    assert_eq!(t.translation.x, 0);
    assert_eq!(t.translation.y, 0);
    assert_eq!(t.translation.z, fx(fx(cos_fx(0), cos_fx(0)), 5_000_000));
    assert_eq!(t.translation.z, 4_999_990);
}
