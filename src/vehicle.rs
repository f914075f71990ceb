//! Spawning and resetting vehicles: where a vehicle starts, where its tires
//! are mounted, and the reset that puts it back at rest at its start.

use vstd::prelude::*;
use crate::fixed::{fits, vec_of, vzero, IVec, Vec3, LIMIT, SCALE};
use crate::model::{Body, Quat, Role, Tire, Vehicle, VehicleConfig};

verus! {

/// Where a tire sits on its vehicle.
#[derive(Clone, Copy, Debug, PartialEq, Eq, Structural)]
pub enum TirePlace {
    FrontRight,
    FrontLeft,
    BackRight,
    BackLeft,
}

/// A tire and its mount point in the vehicle's local frame.
#[derive(Clone, Copy, Debug, PartialEq, Eq, Structural)]
pub struct TireMount {
    pub place: TirePlace,
    pub offset: Vec3,
    pub tire: Tire,
}

/// Division rounded toward zero by a positive divisor.
pub open spec fn trunc_div(a: int, n: int) -> int {
    if a >= 0 {
        a / n
    } else {
        -((-a) / n)
    }
}

fn trunc_div_exec(a: i128, n: i128) -> (r: i128)
    requires
        fits(a as int, LIMIT as int * 11),
        0 < n,
    ensures
        r == trunc_div(a as int, n as int),
{
    if a >= 0 {
        a / n
    } else {
        -((-a) / n)
    }
}

/// Start position: the leading vehicle ahead of the origin by its length and
/// joint offset, the following one mirrored behind it, at its own height.
pub open spec fn spawn_point(c: VehicleConfig, role: Role) -> IVec {
    let x = c.length + c.anchor_point.x;
    (
        if role == Role::Leading {
            x
        } else {
            -x
        },
        c.height as int,
        0,
    )
}

pub fn spawn_position(config: &VehicleConfig, role: Role) -> (r: Vec3)
    requires
        config.wf(),
    ensures
        r@ == spawn_point(*config, role),
{
    let x = config.length + config.anchor_point.x;
    let x = match role {
        Role::Leading => x,
        Role::Following => -x,
    };
    Vec3::new(x, config.height, 0)
}

/// The body put back at its start: at rest, upright, with no force on it.
pub open spec fn reset_state(b: Body, c: VehicleConfig, role: Role) -> Body {
    Body {
        center: vec_of(spawn_point(c, role)),
        rotation: Quat { w: SCALE, x: 0, y: 0, z: 0 },
        linvel: vec_of(vzero()),
        angvel: vec_of(vzero()),
        force: vec_of(vzero()),
        torque: vec_of(vzero()),
        mass: b.mass,
    }
}

/// Resetting twice gives what resetting once gives.
pub proof fn lemma_reset_idempotent(b: Body, c: VehicleConfig, role: Role)
    ensures
        reset_state(reset_state(b, c, role), c, role) == reset_state(b, c, role),
{
}

pub fn reset_body(body: &mut Body, config: &VehicleConfig, role: Role)
    requires
        config.wf(),
    ensures
        *final(body) == reset_state(*old(body), *config, role),
{
    body.center = spawn_position(config, role);
    body.rotation = Quat::identity();
    body.linvel = Vec3::zero();
    body.angvel = Vec3::zero();
    body.force = Vec3::zero();
    body.torque = Vec3::zero();
}

pub open spec fn after_reset(v: Vehicle, requested: bool) -> Vehicle {
    if requested {
        Vehicle { body: reset_state(v.body, v.config, v.role), ..v }
    } else {
        v
    }
}

/// On request, puts every vehicle back at its start; else changes nothing.
pub fn reset_car(vehicles: &mut Vec<Vehicle>, requested: bool)
    requires
        forall|i: int| 0 <= i < old(vehicles).len() ==> (#[trigger] old(vehicles)[i]).config.wf(),
    ensures
        final(vehicles).len() == old(vehicles).len(),
        forall|i: int| 0 <= i < final(vehicles).len() ==> #[trigger] final(vehicles)[i] == after_reset(old(vehicles)[i], requested),
{
    if !requested {
        return;
    }
    let mut i: usize = 0;
    while i < vehicles.len()
        invariant
            vehicles.len() == old(vehicles).len(),
            requested,
            i <= vehicles.len(),
            forall|k: int| 0 <= k < vehicles.len() ==> (#[trigger] old(vehicles)[k]).config.wf(),
            forall|k: int| 0 <= k < i ==> #[trigger] vehicles[k] == after_reset(old(vehicles)[k], requested),
            forall|k: int| i <= k < vehicles.len() ==> #[trigger] vehicles[k] == old(vehicles)[k],
        decreases vehicles.len() - i,
    {
        let mut v = vehicles[i];
        reset_body(&mut v.body, &v.config, v.role);
        vehicles.set(i, v);
        i = i + 1;
    }
}

pub open spec fn is_front(place: TirePlace) -> bool {
    place == TirePlace::FrontRight || place == TirePlace::FrontLeft
}

pub open spec fn is_right(place: TirePlace) -> bool {
    place == TirePlace::FrontRight || place == TirePlace::BackRight
}

/// Mount point: a wheelbase ahead of or behind the centre, shifted by the
/// wheel offset; a sixth of the height down; a tenth beyond the half-width out.
pub open spec fn mount_offset(c: VehicleConfig, place: TirePlace) -> IVec {
    let x = if is_front(place) {
        c.wheelbase + c.wheel_offset
    } else {
        -c.wheelbase + c.wheel_offset
    };
    let side = trunc_div(c.width * 11, 10);
    (x, -trunc_div(c.height as int, 6), if is_right(place) {
        side
    } else {
        -side
    })
}

/// The tire at `place`: the front pair of a leading vehicle is driven and
/// steered; every tire starts airborne with the configured grip.
pub open spec fn mounted_tire(c: VehicleConfig, role: Role, vehicle: usize, place: TirePlace) -> Tire {
    let front_driven = role == Role::Leading && is_front(place);
    Tire {
        vehicle,
        connected_to_engine: front_driven,
        turns: front_driven,
        grip: c.starting_tire_grip,
        distance_to_ground: None,
        yaw: 0,
    }
}

pub open spec fn placed(c: VehicleConfig, role: Role, vehicle: usize, place: TirePlace) -> TireMount {
    TireMount {
        place,
        offset: vec_of(mount_offset(c, place)),
        tire: mounted_tire(c, role, vehicle, place),
    }
}

fn mount(config: &VehicleConfig, role: Role, vehicle: usize, place: TirePlace) -> (r: TireMount)
    requires
        config.wf(),
    ensures
        r == placed(*config, role, vehicle, place),
{
    let front = match place {
        TirePlace::FrontRight | TirePlace::FrontLeft => true,
        _ => false,
    };
    let right = match place {
        TirePlace::FrontRight | TirePlace::BackRight => true,
        _ => false,
    };
    let x = if front {
        config.wheelbase + config.wheel_offset
    } else {
        -config.wheelbase + config.wheel_offset
    };
    let side = trunc_div_exec(config.width * 11, 10);
    let z = if right {
        side
    } else {
        -side
    };
    let y = -trunc_div_exec(config.height, 6);
    let driven = front && match role {
        Role::Leading => true,
        Role::Following => false,
    };
    TireMount {
        place,
        offset: Vec3::new(x, y, z),
        tire: Tire {
            vehicle,
            connected_to_engine: driven,
            turns: driven,
            grip: config.starting_tire_grip,
            distance_to_ground: None,
            yaw: 0,
        },
    }
}

/// The four tires of vehicle number `vehicle`: front right, front left, back
/// right, back left.
fn tire_layout(config: &VehicleConfig, role: Role, vehicle: usize) -> (r: Vec<TireMount>)
    requires
        config.wf(),
    ensures
        r@ == seq![
            placed(*config, role, vehicle, TirePlace::FrontRight),
            placed(*config, role, vehicle, TirePlace::FrontLeft),
            placed(*config, role, vehicle, TirePlace::BackRight),
            placed(*config, role, vehicle, TirePlace::BackLeft),
        ],
{
    let mut r: Vec<TireMount> = Vec::new();
    r.push(mount(config, role, vehicle, TirePlace::FrontRight));
    r.push(mount(config, role, vehicle, TirePlace::FrontLeft));
    r.push(mount(config, role, vehicle, TirePlace::BackRight));
    r.push(mount(config, role, vehicle, TirePlace::BackLeft));
    proof {
        assert(r@ =~= seq![
            placed(*config, role, vehicle, TirePlace::FrontRight),
            placed(*config, role, vehicle, TirePlace::FrontLeft),
            placed(*config, role, vehicle, TirePlace::BackRight),
            placed(*config, role, vehicle, TirePlace::BackLeft),
        ]);
    }
    r
}

/// Where a new vehicle starts and the tires it is built with.
pub struct VehicleSpawn {
    pub position: Vec3,
    pub tires: Vec<TireMount>,
}

/// The start position and the four tire mounts of a new vehicle, which will
/// be vehicle number `vehicle`.
pub fn spawn_vehicle(config: &VehicleConfig, role: Role, vehicle: usize) -> (r: VehicleSpawn)
    requires
        config.wf(),
    ensures
        r.position@ == spawn_point(*config, role),
        r.tires@ == seq![
            placed(*config, role, vehicle, TirePlace::FrontRight),
            placed(*config, role, vehicle, TirePlace::FrontLeft),
            placed(*config, role, vehicle, TirePlace::BackRight),
            placed(*config, role, vehicle, TirePlace::BackLeft),
        ],
{
    VehicleSpawn { position: spawn_position(config, role), tires: tire_layout(config, role, vehicle) }
}

} // verus!
