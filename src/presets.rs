//! Tuned configurations of the four vehicle classes: a car and its trailer,
//! and a drifting car, whose tires barely grip, with its own trailer.

use vstd::prelude::*;
use crate::fixed::Vec3;
use crate::model::VehicleConfig;

verus! {

pub fn car_config() -> (r: VehicleConfig)
    ensures
        r.wf(),
        r == (VehicleConfig {
            height: 726,
            width: 1015,
            length: 2656,
            wheelbase: 1560,
            wheel_offset: 0,
            spring_offset: 1253,
            spring_power: 300_000,
            shock: 45_000,
            max_speed: 50_000,
            max_force: 100_000,
            turn_radius: 458,
            anchor_point: Vec3 { x: -3443i128, y: -700i128, z: 0 },
            scale: 1000,
            starting_tire_grip: 700,
        }),
{
    VehicleConfig {
        height: 726,
        width: 1015,
        length: 2656,
        wheelbase: 1560,
        wheel_offset: 0,
        spring_offset: 1253,
        spring_power: 300_000,
        shock: 45_000,
        max_speed: 50_000,
        max_force: 100_000,
        turn_radius: 458,
        anchor_point: Vec3 { x: -3443, y: -700, z: 0 },
        scale: 1000,
        starting_tire_grip: 700,
    }
}

/// A trailer has no engine and does not steer.
pub fn trailer_config() -> (r: VehicleConfig)
    ensures
        r.wf(),
        r == (VehicleConfig {
            height: 91,
            width: 1080,
            length: 3938,
            wheelbase: 500,
            wheel_offset: -1000i128,
            spring_offset: 1000,
            spring_power: 21_000,
            shock: 5000,
            max_speed: 0,
            max_force: 0,
            turn_radius: 0,
            anchor_point: Vec3 { x: 5018, y: -91i128, z: 0 },
            scale: 1000,
            starting_tire_grip: 700,
        }),
{
    VehicleConfig {
        height: 91,
        width: 1080,
        length: 3938,
        wheelbase: 500,
        wheel_offset: -1000,
        spring_offset: 1000,
        spring_power: 21_000,
        shock: 5000,
        max_speed: 0,
        max_force: 0,
        turn_radius: 0,
        anchor_point: Vec3 { x: 5018, y: -91, z: 0 },
        scale: 1000,
        starting_tire_grip: 700,
    }
}

/// Lighter and stronger than the car, with almost no tire grip.
pub fn drifter_config() -> (r: VehicleConfig)
    ensures
        r.wf(),
        r == (VehicleConfig {
            height: 626,
            width: 1015,
            length: 1656,
            wheelbase: 1560,
            wheel_offset: 0,
            spring_offset: 1253,
            spring_power: 300_000,
            shock: 45_000,
            max_speed: 50_000,
            max_force: 160_000,
            turn_radius: 458,
            anchor_point: Vec3 { x: -1821i128, y: -700i128, z: 0 },
            scale: 1000,
            starting_tire_grip: 30,
        }),
{
    VehicleConfig {
        height: 626,
        width: 1015,
        length: 1656,
        wheelbase: 1560,
        wheel_offset: 0,
        spring_offset: 1253,
        spring_power: 300_000,
        shock: 45_000,
        max_speed: 50_000,
        max_force: 160_000,
        turn_radius: 458,
        anchor_point: Vec3 { x: -1821, y: -700, z: 0 },
        scale: 1000,
        starting_tire_grip: 30,
    }
}

pub fn drifter_trailer_config() -> (r: VehicleConfig)
    ensures
        r.wf(),
        r == (VehicleConfig {
            height: 91,
            width: 1080,
            length: 1438,
            wheelbase: 500,
            wheel_offset: 0,
            spring_offset: 1000,
            spring_power: 15_000,
            shock: 3000,
            max_speed: 0,
            max_force: 0,
            turn_radius: 0,
            anchor_point: Vec3 { x: 2518, y: -91i128, z: 0 },
            scale: 1000,
            starting_tire_grip: 30,
        }),
{
    VehicleConfig {
        height: 91,
        width: 1080,
        length: 1438,
        wheelbase: 500,
        wheel_offset: 0,
        spring_offset: 1000,
        spring_power: 15_000,
        shock: 3000,
        max_speed: 0,
        max_force: 0,
        turn_radius: 0,
        anchor_point: Vec3 { x: 2518, y: -91, z: 0 },
        scale: 1000,
        starting_tire_grip: 30,
    }
}

} // verus!
