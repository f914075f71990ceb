use vehicle_dynamics::contact::{ground_contact, wheel_mesh_height};
use vehicle_dynamics::drivetrain::{
    lookup_power, power_curve, power_curve_log_argument, power_curve_segment, speed, speed_ratio,
    CurveSegment,
};
use vehicle_dynamics::fixed::{mul_fx, Vec3};
use vehicle_dynamics::forces::{
    cornering, cornering_resistance, friction, spring_damper, suspension, velocity_at_point,
};
use vehicle_dynamics::model::{Body, Quat, Tire, TireFrame};
use vehicle_dynamics::presets::car_config;

fn log10_micro(x: i128) -> i128 {
    ((x as f64 / 1e6).log10() * 1e6).round() as i128
}

fn body_at_rest(mass: i128) -> Body {
    Body {
        center: Vec3::zero(),
        rotation: Quat::identity(),
        linvel: Vec3::zero(),
        angvel: Vec3::zero(),
        mass,
        force: Vec3::zero(),
        torque: Vec3::zero(),
    }
}

fn upright_frame(position: Vec3) -> TireFrame {
    TireFrame {
        position,
        up: Vec3::new(0, 1000, 0),
        forward: Vec3::new(1000, 0, 0),
        lateral: Vec3::new(0, 0, -1000),
    }
}

fn grounded(d: i128, driven: bool, grip: i128) -> Tire {
    Tire {
        connected_to_engine: driven,
        turns: driven,
        grip,
        distance_to_ground: Some(d),
        ..Tire::default()
    }
}

#[test]
fn contact_hit_within_spring_length() {
    assert_eq!(ground_contact(Some(500), 1253), Some(500));
    assert_eq!(ground_contact(Some(0), 1253), Some(0));
    assert_eq!(ground_contact(Some(1253), 1253), Some(1253));
}

#[test]
fn contact_miss_or_out_of_range() {
    assert_eq!(ground_contact(None, 1253), None);
    assert_eq!(ground_contact(Some(1254), 1253), None);
    assert_eq!(ground_contact(Some(-1), 1253), None);
}

#[test]
fn wheel_mesh_rests_on_ground_or_hangs() {
    assert_eq!(wheel_mesh_height(Some(800), 1253), -300);
    assert_eq!(wheel_mesh_height(None, 1253), -753);
}

#[test]
fn spring_damper_formula() {
    // (1.253 - 1.0) * 300 - 0 * 45 = 75.9
    assert_eq!(spring_damper(1253, 1000, 300_000, 0, 45_000), 75_900);
    // closing at 0.1 takes off 0.1 * 45 = 4.5
    assert_eq!(spring_damper(1253, 1000, 300_000, 100, 45_000), 71_400);
}

#[test]
fn spring_damper_sign_flips_past_rest_length() {
    assert!(spring_damper(1000, 900, 21_000, 0, 5000) > 0);
    assert_eq!(spring_damper(1000, 1000, 21_000, 0, 5000), 0);
    assert!(spring_damper(1000, 1100, 21_000, 0, 5000) < 0);
    assert_eq!(
        spring_damper(1000, 1100, 21_000, 0, 5000),
        -spring_damper(1000, 900, 21_000, 0, 5000)
    );
}

#[test]
fn suspension_pushes_along_up_axis() {
    let config = car_config();
    let body = body_at_rest(1_000_000);
    let tire = grounded(1000, false, 700);
    let frame = upright_frame(Vec3::new(1560, -121, 1116));
    assert_eq!(suspension(&config, &body, &tire, &frame), Some(Vec3::new(0, 75_900, 0)));
    let airborne = Tire::default();
    assert_eq!(suspension(&config, &body, &airborne, &frame), None);
}

#[test]
fn velocity_at_point_adds_spin() {
    let mut body = body_at_rest(1_000_000);
    body.linvel = Vec3::new(1000, 0, 0);
    body.angvel = Vec3::new(0, 1000, 0);
    // spin of 1 rad/s about y at an arm of 1 along x moves the point along -z
    assert_eq!(velocity_at_point(&body, &Vec3::new(1000, 0, 0)), Vec3::new(1000, 0, -1000));
}

#[test]
fn speed_is_rounded_down_length() {
    assert_eq!(speed(&Vec3::new(3000, 4000, 0)), 5000);
    assert_eq!(speed(&Vec3::new(1, 1, 0)), 1);
    assert_eq!(speed(&Vec3::zero()), 0);
}

#[test]
fn speed_ratio_guards_zero_top_speed() {
    assert_eq!(speed_ratio(&Vec3::new(3000, 4000, 0), 50_000), Some(100_000));
    assert_eq!(speed_ratio(&Vec3::new(3000, 4000, 0), 0), None);
    assert_eq!(speed_ratio(&Vec3::new(3000, 4000, 0), -50_000), Some(-100_000));
}

fn along_x(speed: i128) -> Vec3 {
    Vec3::new(speed, 0, 0)
}

#[test]
fn curve_segments_by_exact_speed() {
    let top = 50_000;
    assert_eq!(power_curve_segment(&Vec3::zero(), top), Some(CurveSegment::Rising));
    assert_eq!(power_curve_segment(&along_x(19_999), top), Some(CurveSegment::Rising));
    assert_eq!(power_curve_segment(&along_x(20_000), top), Some(CurveSegment::Plateau));
    assert_eq!(power_curve_segment(&along_x(34_900), top), Some(CurveSegment::Plateau));
    assert_eq!(power_curve_segment(&along_x(34_901), top), Some(CurveSegment::Falling));
    assert_eq!(power_curve_segment(&along_x(50_000), top), Some(CurveSegment::Falling));
    assert_eq!(power_curve_segment(&along_x(50_001), top), Some(CurveSegment::Cutoff));
    assert_eq!(power_curve_segment(&Vec3::new(30_000, 40_001, 0), top), Some(CurveSegment::Cutoff));
    assert_eq!(power_curve_segment(&along_x(1), -top), Some(CurveSegment::Reverse));
    assert_eq!(power_curve_segment(&Vec3::zero(), -top), Some(CurveSegment::Rising));
    assert_eq!(power_curve_segment(&along_x(1), 0), None);
}

#[test]
fn curve_values_of_constant_pieces() {
    assert_eq!(power_curve(CurveSegment::Reverse, 0), 500_000);
    assert_eq!(power_curve(CurveSegment::Plateau, 0), 1_000_000);
    assert_eq!(power_curve(CurveSegment::Cutoff, 0), 0);
    assert_eq!(power_curve(CurveSegment::Cutoff, 123), 0);
    assert_eq!(power_curve(CurveSegment::Rising, -522_879), 522_879);
    assert_eq!(power_curve(CurveSegment::Falling, 0), 600_000);
}

#[test]
fn curve_log_arguments() {
    let top = 50_000;
    assert_eq!(power_curve_log_argument(&Vec3::zero(), top), Some(300_000));
    assert_eq!(power_curve_log_argument(&along_x(10_000), top), Some(200_000));
    assert_eq!(power_curve_log_argument(&along_x(25_000), top), None);
    assert_eq!(power_curve_log_argument(&along_x(50_000), top), Some(1_000_000));
    assert_eq!(power_curve_log_argument(&along_x(50_040), top), None);
    assert_eq!(power_curve_log_argument(&along_x(10_000), 0), None);
}

fn curve_at(speed: i128, top: i128) -> i128 {
    let v = along_x(speed);
    let log = match power_curve_log_argument(&v, top) {
        Some(a) => log10_micro(a),
        None => 0,
    };
    power_curve(power_curve_segment(&v, top).unwrap(), log)
}

#[test]
fn curve_continuous_at_plateau_ends() {
    let top = 50_000;
    assert_eq!(curve_at(20_000, top), 1_000_000);
    assert!((curve_at(19_999, top) - 1_000_000).abs() <= 1000);
    assert_eq!(curve_at(34_900, top), 1_000_000);
    assert!((curve_at(34_901, top) - 1_000_000).abs() <= 1000);
    assert_eq!(curve_at(50_000, top), 600_000);
    assert_eq!(curve_at(50_001, top), 0);
}

#[test]
fn no_drive_force_past_top_speed() {
    // 50.04 against a top speed of 50
    assert_eq!(lookup_power(&along_x(50_040), 50_000, 100_000, 0), Some(0));
    assert_eq!(lookup_power(&along_x(50_001), 50_000, 100_000, 0), Some(0));
    assert_eq!(lookup_power(&along_x(90_000), 50_000, 100_000, 0), Some(0));
    // exactly at top speed the falling piece gives 0.6
    assert_eq!(lookup_power(&along_x(50_000), 50_000, 100_000, 0), Some(60_000));
}

#[test]
fn full_throttle_from_rest_uses_log_of_three_tenths() {
    let log = log10_micro(300_000);
    assert_eq!(log, -522_879);
    let p = lookup_power(&Vec3::zero(), 50_000, 100_000, log).unwrap();
    assert_eq!(p, 52_287);
    let exact = 100.0 * -(0.3f64.log10());
    assert!((p as f64 / 1000.0 - exact).abs() < 1e-3);
    assert_eq!(lookup_power(&Vec3::zero(), 0, 100_000, log), None);
}

#[test]
fn friction_opposes_rolling_velocity() {
    let mut body = body_at_rest(1_000_000);
    body.linvel = Vec3::new(2000, 0, 0);
    let tire = grounded(1000, true, 700);
    let frame = upright_frame(Vec3::new(1560, -121, 1116));
    // 1000 / 2 * 0.5 * 9.81 = 2452.5
    assert_eq!(friction(&body, &tire, &frame, 2), Some(Vec3::new(-2_452_500, 0, 0)));
    body.linvel = Vec3::new(-2000, 0, 0);
    assert_eq!(friction(&body, &tire, &frame, 2), Some(Vec3::new(2_452_500, 0, 0)));
}

#[test]
fn friction_needs_motion_drive_and_contact() {
    let body = body_at_rest(1_000_000);
    let frame = upright_frame(Vec3::zero());
    assert_eq!(friction(&body, &grounded(1000, true, 700), &frame, 2), None);
    let mut moving = body;
    moving.linvel = Vec3::new(2000, 0, 0);
    assert_eq!(friction(&moving, &grounded(1000, false, 700), &frame, 2), None);
    assert_eq!(friction(&moving, &Tire { connected_to_engine: true, ..Tire::default() }, &frame, 2), None);
}

#[test]
fn cornering_formula() {
    // -(1 * 1) * 60 * (1000 / 4) = -15000
    assert_eq!(cornering_resistance(1000, 1000, 1_000_000, 4), -15_000_000);
    assert_eq!(cornering_resistance(-1000, 1000, 1_000_000, 4), 15_000_000);
    assert_eq!(cornering_resistance(1000, 700, 1_000_000, 4), -10_500_000);
}

#[test]
fn cornering_without_grip_is_zero() {
    assert_eq!(cornering_resistance(1000, 0, 1_000_000, 4), 0);
    let mut body = body_at_rest(1_000_000);
    body.linvel = Vec3::new(0, 0, -1000);
    let frame = upright_frame(Vec3::zero());
    assert_eq!(cornering(&body, &grounded(1000, false, 0), &frame, 4), Some(Vec3::zero()));
    let full = cornering(&body, &grounded(1000, false, 1000), &frame, 4).unwrap();
    assert_eq!(full, Vec3::new(0, 0, 15_000_000));
    let double = {
        body.linvel = Vec3::new(0, 0, -2000);
        cornering(&body, &grounded(1000, false, 1000), &frame, 4).unwrap()
    };
    assert_eq!(double.z, 2 * full.z);
}

#[test]
fn fixed_point_product_truncates_toward_zero() {
    assert_eq!(mul_fx(1500, 1500), 2250);
    assert_eq!(mul_fx(1, 1), 0);
    assert_eq!(mul_fx(-1999, 1000), -1999);
    assert_eq!(mul_fx(-1, 999), 0);
}
