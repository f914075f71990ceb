//! The records the force pipeline reads and writes: a vehicle's tunables, its
//! rigid-body state, its tires, a tire's world frame for one tick, and the
//! force contributions that the models emit.

use vstd::prelude::*;
use crate::fixed::{fits, vfits, Vec3, LIMIT, SCALE};

verus! {

/// Which vehicle of a coupled pair this is; it decides the side of the origin
/// a vehicle spawns on and whether its front tires are driven and steered.
#[derive(Clone, Copy, Debug, PartialEq, Eq, Structural)]
pub enum Role {
    Leading,
    Following,
}

/// Tunable parameters of one vehicle, all in fixed-point units.
#[derive(Clone, Copy, Debug, PartialEq, Eq, Structural)]
pub struct VehicleConfig {
    pub height: i128,
    pub width: i128,
    pub length: i128,
    pub wheelbase: i128,
    pub wheel_offset: i128,
    /// Rest length of the spring; also the length of the ground probe.
    pub spring_offset: i128,
    pub spring_power: i128,
    pub shock: i128,
    pub max_speed: i128,
    pub max_force: i128,
    /// Largest steering angle, in radians.
    pub turn_radius: i128,
    /// Where a trailer joint attaches, in the vehicle's local frame.
    pub anchor_point: Vec3,
    pub scale: i128,
    pub starting_tire_grip: i128,
}

impl VehicleConfig {
    /// Every field within `LIMIT`, and a spring of positive length.
    pub open spec fn wf(&self) -> bool {
        &&& fits(self.height as int, LIMIT as int)
        &&& fits(self.width as int, LIMIT as int)
        &&& fits(self.length as int, LIMIT as int)
        &&& fits(self.wheelbase as int, LIMIT as int)
        &&& fits(self.wheel_offset as int, LIMIT as int)
        &&& 0 < self.spring_offset <= LIMIT
        &&& fits(self.spring_power as int, LIMIT as int)
        &&& fits(self.shock as int, LIMIT as int)
        &&& fits(self.max_speed as int, LIMIT as int)
        &&& fits(self.max_force as int, LIMIT as int)
        &&& fits(self.turn_radius as int, LIMIT as int)
        &&& vfits(self.anchor_point@, LIMIT as int)
        &&& fits(self.scale as int, LIMIT as int)
        &&& 0 <= self.starting_tire_grip <= SCALE
    }

    pub fn is_valid(&self) -> (r: bool)
        ensures
            r == self.wf(),
    {
        within(self.height) && within(self.width) && within(self.length) && within(self.wheelbase)
            && within(self.wheel_offset) && 0 < self.spring_offset && self.spring_offset <= LIMIT
            && within(self.spring_power) && within(self.shock) && within(self.max_speed)
            && within(self.max_force) && within(self.turn_radius) && self.anchor_point.is_within(
            LIMIT,
        ) && within(self.scale) && 0 <= self.starting_tire_grip && self.starting_tire_grip <= SCALE
    }
}

fn within(x: i128) -> (r: bool)
    ensures
        r == fits(x as int, LIMIT as int),
{
    -LIMIT <= x && x <= LIMIT
}

/// A unit quaternion `w + xi + yj + zk` in fixed-point units.
#[derive(Clone, Copy, Debug, PartialEq, Eq, Structural)]
pub struct Quat {
    pub w: i128,
    pub x: i128,
    pub y: i128,
    pub z: i128,
}

impl Quat {
    pub open spec fn is_identity(&self) -> bool {
        self.w == SCALE && self.x == 0 && self.y == 0 && self.z == 0
    }

    pub fn identity() -> (r: Quat)
        ensures
            r.is_identity(),
    {
        Quat { w: SCALE, x: 0, y: 0, z: 0 }
    }
}

/// The rigid-body state of one vehicle that the pipeline reads, and the
/// external force and torque that it writes.
#[derive(Clone, Copy, Debug, PartialEq, Eq, Structural)]
pub struct Body {
    /// Position of the centre of mass.
    pub center: Vec3,
    pub rotation: Quat,
    pub linvel: Vec3,
    pub angvel: Vec3,
    pub mass: i128,
    pub force: Vec3,
    pub torque: Vec3,
}

impl Body {
    pub open spec fn wf(&self) -> bool {
        &&& vfits(self.center@, LIMIT as int)
        &&& vfits(self.linvel@, LIMIT as int)
        &&& vfits(self.angvel@, LIMIT as int)
        &&& 0 <= self.mass <= LIMIT
    }

    pub fn is_valid(&self) -> (r: bool)
        ensures
            r == self.wf(),
    {
        self.center.is_within(LIMIT) && self.linvel.is_within(LIMIT) && self.angvel.is_within(LIMIT)
            && 0 <= self.mass && self.mass <= LIMIT
    }
}

/// One wheel of a vehicle.
#[derive(Clone, Copy, Debug, PartialEq, Eq, Structural)]
pub struct Tire {
    /// Index of the owning vehicle.
    pub vehicle: usize,
    pub connected_to_engine: bool,
    pub turns: bool,
    /// Cornering stiffness multiplier, from `0` to `SCALE`.
    pub grip: i128,
    /// `None` while airborne, else the probe's distance to static ground.
    pub distance_to_ground: Option<i128>,
    /// Steering angle about the vehicle's up axis, in radians.
    pub yaw: i128,
}

impl Tire {
    pub open spec fn wf(&self) -> bool {
        &&& 0 <= self.grip <= SCALE
        &&& match self.distance_to_ground {
            Some(d) => fits(d as int, LIMIT as int),
            None => true,
        }
    }

    pub fn is_valid(&self) -> (r: bool)
        ensures
            r == self.wf(),
    {
        0 <= self.grip && self.grip <= SCALE && match self.distance_to_ground {
            Some(d) => within(d),
            None => true,
        }
    }

    pub open spec fn grounded(&self) -> bool {
        self.distance_to_ground is Some
    }
}

/// Grip of a tire that nobody tuned: 0.7.
pub const DEFAULT_GRIP: i128 = 700;

impl Default for Tire {
    fn default() -> (r: Tire)
        ensures
            r.vehicle == 0,
            !r.connected_to_engine,
            !r.turns,
            r.grip == DEFAULT_GRIP,
            r.distance_to_ground is None,
            r.yaw == 0,
    {
        Tire {
            vehicle: 0,
            connected_to_engine: false,
            turns: false,
            grip: DEFAULT_GRIP,
            distance_to_ground: None,
            yaw: 0,
        }
    }
}

/// Where a tire is this tick, in world space: its position and its three unit
/// axes (`forward` is the rolling direction, `lateral` the steering direction).
#[derive(Clone, Copy, Debug, PartialEq, Eq, Structural)]
pub struct TireFrame {
    pub position: Vec3,
    pub up: Vec3,
    pub forward: Vec3,
    pub lateral: Vec3,
}

impl TireFrame {
    pub open spec fn wf(&self) -> bool {
        &&& vfits(self.position@, LIMIT as int)
        &&& vfits(self.up@, SCALE as int)
        &&& vfits(self.forward@, SCALE as int)
        &&& vfits(self.lateral@, SCALE as int)
    }

    pub fn is_valid(&self) -> (r: bool)
        ensures
            r == self.wf(),
    {
        self.position.is_within(LIMIT) && self.up.is_within(SCALE) && self.forward.is_within(SCALE)
            && self.lateral.is_within(SCALE)
    }
}

/// A force applied to a vehicle at a world point during one tick.
#[derive(Clone, Copy, Debug, PartialEq, Eq, Structural)]
pub struct Contribution {
    pub vehicle: usize,
    pub point: Vec3,
    pub force: Vec3,
}

/// Net force and torque on one vehicle.
#[derive(Clone, Copy, Debug, PartialEq, Eq, Structural)]
pub struct NetForce {
    pub force: Vec3,
    pub torque: Vec3,
}

/// One vehicle: its tunables, its role and its rigid body.
#[derive(Clone, Copy, Debug, PartialEq, Eq, Structural)]
pub struct Vehicle {
    pub config: VehicleConfig,
    pub role: Role,
    pub body: Body,
}

impl Vehicle {
    pub open spec fn wf(&self) -> bool {
        self.config.wf() && self.body.wf()
    }
}

} // verus!
