use vehicle_dynamics::aggregate::aggregate;
use vehicle_dynamics::contact::calculate_tire_distances_to_ground;
use vehicle_dynamics::fixed::Vec3;
use vehicle_dynamics::model::{Body, Contribution, NetForce, Quat, Role, Tire, TireFrame, Vehicle};
use vehicle_dynamics::presets::{car_config, drifter_config, drifter_trailer_config, trailer_config};
use vehicle_dynamics::tick::{apply_tick_forces, collect_contributions, sum_all_forces};
use vehicle_dynamics::vehicle::{reset_body, reset_car, spawn_vehicle, TirePlace};

fn log10_micro(x: i128) -> i128 {
    ((x as f64 / 1e6).log10() * 1e6).round() as i128
}

fn body_at(center: Vec3, mass: i128) -> Body {
    Body {
        center,
        rotation: Quat::identity(),
        linvel: Vec3::zero(),
        angvel: Vec3::zero(),
        mass,
        force: Vec3::zero(),
        torque: Vec3::zero(),
    }
}

fn car(center: Vec3) -> Vehicle {
    Vehicle { config: car_config(), role: Role::Leading, body: body_at(center, 1_000_000) }
}

fn frame_at(position: Vec3) -> TireFrame {
    TireFrame {
        position,
        up: Vec3::new(0, 1000, 0),
        forward: Vec3::new(1000, 0, 0),
        lateral: Vec3::new(0, 0, -1000),
    }
}

fn car_tires(vehicle: usize, distance: Option<i128>) -> (Vec<Tire>, Vec<TireFrame>) {
    let spawn = spawn_vehicle(&car_config(), Role::Leading, vehicle);
    let tires = spawn
        .tires
        .iter()
        .map(|m| Tire { distance_to_ground: distance, ..m.tire })
        .collect();
    let frames = spawn.tires.iter().map(|m| frame_at(m.offset)).collect();
    (tires, frames)
}

fn contribution(vehicle: usize, point: Vec3, force: Vec3) -> Contribution {
    Contribution { vehicle, point, force }
}

#[test]
fn aggregate_sums_force_and_torque() {
    let centers = vec![Vec3::zero()];
    let cs = vec![
        contribution(0, Vec3::new(1000, 0, 0), Vec3::new(0, 0, 1000)),
        contribution(0, Vec3::new(0, 0, 0), Vec3::new(0, 2000, 0)),
    ];
    let nets = aggregate(&centers, &cs);
    assert_eq!(nets.len(), 1);
    assert_eq!(nets[0].force, Vec3::new(0, 2000, 1000));
    assert_eq!(nets[0].torque, Vec3::new(0, -1000, 0));
}

#[test]
fn aggregate_is_independent_of_order() {
    let centers = vec![Vec3::new(100, 200, 300), Vec3::new(-5000, 0, 0)];
    let cs = vec![
        contribution(0, Vec3::new(1000, 0, 0), Vec3::new(0, 0, 1000)),
        contribution(1, Vec3::new(-4000, 10, 0), Vec3::new(7, -3, 1)),
        contribution(0, Vec3::new(-1234, 55, 9), Vec3::new(3000, 2000, -1000)),
        contribution(1, Vec3::new(0, 0, 0), Vec3::new(0, 2000, 0)),
    ];
    let mut reversed = cs.clone();
    reversed.reverse();
    assert_eq!(aggregate(&centers, &cs), aggregate(&centers, &reversed));
}

#[test]
fn aggregate_without_contributions_is_zero() {
    let centers = vec![Vec3::new(1, 2, 3), Vec3::new(4, 5, 6)];
    let nets = aggregate(&centers, &Vec::new());
    let zero = NetForce { force: Vec3::zero(), torque: Vec3::zero() };
    assert_eq!(nets, vec![zero, zero]);
}

#[test]
fn aggregate_skips_unknown_vehicle() {
    let centers = vec![Vec3::zero()];
    let cs = vec![contribution(3, Vec3::new(1000, 0, 0), Vec3::new(0, 0, 1000))];
    let nets = aggregate(&centers, &cs);
    assert_eq!(nets[0].force, Vec3::zero());
    assert_eq!(nets[0].torque, Vec3::zero());
}

#[test]
fn sum_all_forces_clears_previous_force() {
    let mut vehicles = vec![car(Vec3::zero()), car(Vec3::new(10_000, 0, 0))];
    vehicles[1].body.force = Vec3::new(1, 2, 3);
    vehicles[1].body.torque = Vec3::new(4, 5, 6);
    let cs = vec![contribution(0, Vec3::zero(), Vec3::new(0, 5000, 0))];
    sum_all_forces(&mut vehicles, &cs);
    assert_eq!(vehicles[0].body.force, Vec3::new(0, 5000, 0));
    assert_eq!(vehicles[1].body.force, Vec3::zero());
    assert_eq!(vehicles[1].body.torque, Vec3::zero());
}

#[test]
fn probe_sets_contact_state() {
    let (mut tires, _) = car_tires(0, None);
    tires[3].vehicle = 9;
    let configs = vec![car_config()];
    let hits = vec![Some(1000), None, Some(2000), Some(500)];
    calculate_tire_distances_to_ground(&mut tires, &configs, &hits);
    assert_eq!(tires[0].distance_to_ground, Some(1000));
    assert_eq!(tires[1].distance_to_ground, None);
    assert_eq!(tires[2].distance_to_ground, None);
    assert_eq!(tires[3].distance_to_ground, None);
}

#[test]
fn at_rest_on_ground_gives_zero_force() {
    let config = car_config();
    let mut vehicles = vec![car(Vec3::new(0, 726, 0))];
    let (tires, frames) = car_tires(0, Some(config.spring_offset));
    let logs = vec![log10_micro(300_000)];
    apply_tick_forces(&mut vehicles, &tires, &frames, 0, &logs);
    assert_eq!(vehicles[0].body.force, Vec3::zero());
    assert_eq!(vehicles[0].body.torque, Vec3::zero());
}

#[test]
fn airborne_gives_zero_force_whatever_throttle() {
    let mut vehicles = vec![car(Vec3::new(0, 726, 0))];
    vehicles[0].body.linvel = Vec3::new(3000, -500, 200);
    vehicles[0].body.force = Vec3::new(9, 9, 9);
    let (tires, frames) = car_tires(0, None);
    let logs = vec![log10_micro(300_000)];
    assert!(collect_contributions(&vehicles, &tires, &frames, 1000, &logs).is_empty());
    apply_tick_forces(&mut vehicles, &tires, &frames, 1000, &logs);
    assert_eq!(vehicles[0].body.force, Vec3::zero());
    assert_eq!(vehicles[0].body.torque, Vec3::zero());
}

#[test]
fn single_driven_tire_full_throttle_from_rest() {
    let config = car_config();
    let vehicles = vec![car(Vec3::zero())];
    let tire = Tire {
        connected_to_engine: true,
        distance_to_ground: Some(config.spring_offset),
        ..Tire::default()
    };
    let frames = vec![frame_at(Vec3::new(1560, -121, 1116))];
    let logs = vec![log10_micro(300_000)];
    let cs = collect_contributions(&vehicles, &vec![tire], &frames, 1000, &logs);
    // suspension (zero), drive, cornering (zero); no friction at rest
    assert_eq!(cs.len(), 3);
    // 100 * -log10(0.3) along the rolling axis
    assert_eq!(cs[1].force, Vec3::new(52_287, 0, 0));
    assert_eq!(cs[1].point, Vec3::new(1560, -121, 1116));
}

#[test]
fn one_vehicle_at_rest_beside_a_moving_one() {
    let config = car_config();
    let mut vehicles = vec![car(Vec3::new(0, 726, 0)), car(Vec3::new(20_000, 726, 0))];
    vehicles[1].body.linvel = Vec3::new(3000, 0, 1000);
    let (mut tires, mut frames) = car_tires(0, Some(config.spring_offset));
    let (other_tires, other_frames) = car_tires(1, Some(900));
    tires.extend(other_tires);
    frames.extend(other_frames);
    apply_tick_forces(&mut vehicles, &tires, &frames, 0, &vec![0, 0]);
    assert_eq!(vehicles[0].body.force, Vec3::zero());
    assert_eq!(vehicles[0].body.torque, Vec3::zero());
    assert_ne!(vehicles[1].body.force, Vec3::zero());
}

#[test]
fn aggregate_ignores_other_vehicles() {
    let centers = vec![Vec3::zero(), Vec3::new(5000, 0, 0)];
    let own = contribution(0, Vec3::new(1000, 0, 0), Vec3::new(0, 0, 1000));
    let a = vec![own, contribution(1, Vec3::new(7, 8, 9), Vec3::new(100, 200, 300))];
    let b = vec![contribution(1, Vec3::new(-7, 0, 1), Vec3::new(-5, 0, 0)), own];
    assert_eq!(aggregate(&centers, &a)[0], aggregate(&centers, &b)[0]);
}

#[test]
fn trailer_without_top_speed_has_no_drive() {
    let config = trailer_config();
    let vehicles = vec![Vehicle {
        config,
        role: Role::Following,
        body: body_at(Vec3::zero(), 500_000),
    }];
    let tire = Tire {
        connected_to_engine: true,
        distance_to_ground: Some(config.spring_offset),
        ..Tire::default()
    };
    let frames = vec![frame_at(Vec3::zero())];
    let cs = collect_contributions(&vehicles, &vec![tire], &frames, 1000, &vec![0]);
    // suspension and cornering only
    assert_eq!(cs.len(), 2);
}

#[test]
fn compressed_spring_pushes_car_up() {
    let mut vehicles = vec![car(Vec3::new(0, 726, 0))];
    let (tires, frames) = car_tires(0, Some(1000));
    apply_tick_forces(&mut vehicles, &tires, &frames, 0, &vec![0]);
    // four springs compressed by 0.253 at 300 each
    assert_eq!(vehicles[0].body.force, Vec3::new(0, 4 * 75_900, 0));
}

#[test]
fn spawn_places_car_and_tires() {
    let spawn = spawn_vehicle(&car_config(), Role::Leading, 0);
    assert_eq!(spawn.position, Vec3::new(2656 - 3443, 726, 0));
    assert_eq!(spawn.tires.len(), 4);
    assert_eq!(spawn.tires[0].place, TirePlace::FrontRight);
    assert_eq!(spawn.tires[0].offset, Vec3::new(1560, -121, 1116));
    assert_eq!(spawn.tires[1].offset, Vec3::new(1560, -121, -1116));
    assert_eq!(spawn.tires[2].offset, Vec3::new(-1560, -121, 1116));
    assert!(spawn.tires[0].tire.connected_to_engine && spawn.tires[0].tire.turns);
    assert!(!spawn.tires[3].tire.connected_to_engine && !spawn.tires[3].tire.turns);
    assert_eq!(spawn.tires[3].tire.grip, 700);
}

#[test]
fn spawn_mirrors_following_vehicle() {
    let spawn = spawn_vehicle(&drifter_trailer_config(), Role::Following, 1);
    assert_eq!(spawn.position, Vec3::new(-(1438 + 2518), 91, 0));
    assert!(spawn.tires.iter().all(|m| !m.tire.connected_to_engine && m.tire.vehicle == 1));
    assert_eq!(spawn.tires[0].tire.grip, 30);
    let drifter = spawn_vehicle(&drifter_config(), Role::Leading, 0);
    assert_eq!(drifter.tires[1].tire.grip, 30);
}

#[test]
fn reset_restores_start_at_rest() {
    let config = car_config();
    let mut body = body_at(Vec3::new(5, 6, 7), 1_000_000);
    body.linvel = Vec3::new(1, 2, 3);
    body.angvel = Vec3::new(4, 5, 6);
    body.force = Vec3::new(7, 8, 9);
    body.rotation = Quat { w: 0, x: 1000, y: 0, z: 0 };
    reset_body(&mut body, &config, Role::Leading);
    assert_eq!(body.center, Vec3::new(-787, 726, 0));
    assert_eq!(body.linvel, Vec3::zero());
    assert_eq!(body.angvel, Vec3::zero());
    assert_eq!(body.force, Vec3::zero());
    assert_eq!(body.torque, Vec3::zero());
    assert_eq!(body.rotation, Quat::identity());
    assert_eq!(body.mass, 1_000_000);
}

#[test]
fn reset_twice_equals_reset_once() {
    let mut vehicles = vec![car(Vec3::new(3, 4, 5))];
    vehicles[0].body.linvel = Vec3::new(100, 0, 0);
    reset_car(&mut vehicles, true);
    let once = vehicles.clone();
    reset_car(&mut vehicles, true);
    assert_eq!(vehicles, once);
}

#[test]
fn reset_not_requested_changes_nothing() {
    let mut vehicles = vec![car(Vec3::new(3, 4, 5))];
    let before = vehicles.clone();
    reset_car(&mut vehicles, false);
    assert_eq!(vehicles, before);
}
