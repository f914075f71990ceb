//! The four per-tire force models: suspension, drivetrain, longitudinal
//! friction and cornering. Each one reads a tire's contact state, its world
//! frame and its vehicle's body, and yields at most one force vector applied
//! at the tire's position.

use vstd::prelude::*;
use crate::fixed::{
    fits, fx_mul, lemma_cross_fits, lemma_dot_fits, lemma_fx_mul_fits, lemma_fx_mul_neg,
    lemma_mul_fits, lemma_rescale_monotone, lemma_rescale_neg, mul_fx, vadd, vcross, vdot, vfits, vscale, vsub,
    vzero, IVec, Vec3, LIMIT, SCALE,
};
use crate::drivetrain::speed_sq;
use crate::model::{Body, Tire, TireFrame, VehicleConfig};

verus! {

/// Bound on a component of a point's velocity on a well-formed body.
pub const VELOCITY_BOUND: i128 = 5_000_000_000_000_000;

/// Bound on the component of such a velocity along a unit axis.
pub const AXIAL_BOUND: i128 = 15_000_000_000_000_000;

/// Bound on a component of any force that a model emits.
pub const FORCE_LIMIT: i128 = 1_000_000_000_000_000_000_000_000;

/// Kinetic friction coefficient between tire and ground: 0.5.
pub const FRICTION_COEFFICIENT: i128 = 500;

/// Gravitational acceleration: 9.81.
pub const GRAVITY: i128 = 9810;

/// Ticks per second that the cornering model assumes when it turns a velocity
/// change into an acceleration. A tunable: it does not follow the real step.
pub const TICK_RATE: i128 = 60;

/// Velocity of the material point at `point` on a rigid body: its linear
/// velocity plus the spin about its centre of mass.
pub open spec fn point_velocity(body: Body, point: IVec) -> IVec {
    vadd(body.linvel@, vcross(body.angvel@, vsub(point, body.center@)))
}

pub fn velocity_at_point(body: &Body, point: &Vec3) -> (r: Vec3)
    requires
        body.wf(),
        vfits(point@, LIMIT as int),
    ensures
        r@ == point_velocity(*body, point@),
        vfits(r@, VELOCITY_BOUND as int),
{
    let arm = point.sub(&body.center);
    proof {
        lemma_cross_fits(body.angvel@, arm@, LIMIT as int, 2 * LIMIT as int);
    }
    let spin = body.angvel.cross(&arm);
    body.linvel.add(&spin)
}

/// Component of a point velocity along a unit axis.
fn along_axis(axis: &Vec3, velocity: &Vec3) -> (r: i128)
    requires
        vfits(axis@, SCALE as int),
        vfits(velocity@, VELOCITY_BOUND as int),
    ensures
        r == vdot(axis@, velocity@),
        fits(r as int, AXIAL_BOUND as int),
{
    proof {
        lemma_dot_fits(axis@, velocity@, SCALE as int, VELOCITY_BOUND as int);
    }
    axis.dot(velocity)
}

/// A unit axis scaled by a magnitude below `FORCE_LIMIT`.
fn along(axis: &Vec3, magnitude: i128) -> (r: Vec3)
    requires
        vfits(axis@, SCALE as int),
        fits(magnitude as int, FORCE_LIMIT as int),
    ensures
        r@ == vscale(axis@, magnitude as int),
        vfits(r@, FORCE_LIMIT as int),
{
    proof {
        lemma_fx_mul_fits(axis.x as int, magnitude as int, SCALE as int, FORCE_LIMIT as int);
        lemma_fx_mul_fits(axis.y as int, magnitude as int, SCALE as int, FORCE_LIMIT as int);
        lemma_fx_mul_fits(axis.z as int, magnitude as int, SCALE as int, FORCE_LIMIT as int);
    }
    axis.scale(magnitude)
}

// ---------------------------------------------------------------- suspension

/// Spring-damper magnitude: compression times spring rate, less closing
/// velocity times damping.
pub open spec fn suspension_magnitude(
    spring_offset: int,
    distance: int,
    spring_power: int,
    closing: int,
    shock: int,
) -> int {
    fx_mul(spring_offset - distance, spring_power) - fx_mul(closing, shock)
}

pub fn spring_damper(
    spring_offset: i128,
    distance: i128,
    spring_power: i128,
    closing: i128,
    shock: i128,
) -> (r: i128)
    requires
        fits(spring_offset as int, LIMIT as int),
        fits(distance as int, LIMIT as int),
        fits(spring_power as int, LIMIT as int),
        fits(closing as int, AXIAL_BOUND as int),
        fits(shock as int, LIMIT as int),
    ensures
        r == suspension_magnitude(
            spring_offset as int,
            distance as int,
            spring_power as int,
            closing as int,
            shock as int,
        ),
        fits(r as int, FORCE_LIMIT as int),
{
    let offset = spring_offset - distance;
    proof {
        lemma_fx_mul_fits(offset as int, spring_power as int, 2 * LIMIT as int, LIMIT as int);
        lemma_fx_mul_fits(closing as int, shock as int, AXIAL_BOUND as int, LIMIT as int);
    }
    mul_fx(offset, spring_power) - mul_fx(closing, shock)
}

/// The spring-damper magnitude is odd about the rest length: mirroring the
/// compression and the closing velocity negates it. With no closing velocity
/// and a non-negative spring rate it pushes while compressed and pulls while
/// extended.
pub proof fn lemma_suspension_sign(spring_offset: int, distance: int, spring_power: int, closing: int, shock: int)
    ensures
        suspension_magnitude(spring_offset, 2 * spring_offset - distance, spring_power, -closing, shock)
            == -suspension_magnitude(spring_offset, distance, spring_power, closing, shock),
        spring_power >= 0 && distance <= spring_offset ==> suspension_magnitude(
            spring_offset,
            distance,
            spring_power,
            0,
            shock,
        ) >= 0,
        spring_power >= 0 && distance >= spring_offset ==> suspension_magnitude(
            spring_offset,
            distance,
            spring_power,
            0,
            shock,
        ) <= 0,
{
    lemma_fx_mul_neg(spring_offset - distance, spring_power);
    lemma_fx_mul_neg(closing, shock);
    assert(spring_offset - (2 * spring_offset - distance) == -(spring_offset - distance));
    if spring_power >= 0 && distance <= spring_offset {
        assert((spring_offset - distance) * spring_power >= 0) by (nonlinear_arith)
            requires
                spring_power >= 0,
                distance <= spring_offset,
        ;
        lemma_rescale_neg((spring_offset - distance) * spring_power);
    }
    if spring_power >= 0 && distance >= spring_offset {
        assert((spring_offset - distance) * spring_power <= 0) by (nonlinear_arith)
            requires
                spring_power >= 0,
                distance >= spring_offset,
        ;
        lemma_rescale_neg((spring_offset - distance) * spring_power);
    }
}

/// The spring-damper magnitude never grows as the tire moves away from the
/// ground or closes faster. It is exactly zero at rest length with no closing
/// velocity; it pushes when a compression with no closing velocity gives at
/// least one unit of spring force, and pulls at rest length when the closing
/// velocity gives at least one unit of damping.
pub proof fn lemma_suspension_monotone(
    spring_offset: int,
    d1: int,
    d2: int,
    spring_power: int,
    v1: int,
    v2: int,
    shock: int,
)
    requires
        spring_power >= 0,
        shock >= 0,
    ensures
        d1 <= d2 && v1 <= v2 ==> suspension_magnitude(spring_offset, d1, spring_power, v1, shock)
            >= suspension_magnitude(spring_offset, d2, spring_power, v2, shock),
        suspension_magnitude(spring_offset, spring_offset, spring_power, 0, shock) == 0,
        (spring_offset - d1) * spring_power >= SCALE ==> suspension_magnitude(
            spring_offset,
            d1,
            spring_power,
            0,
            shock,
        ) > 0,
        v1 * shock >= SCALE ==> suspension_magnitude(spring_offset, spring_offset, spring_power, v1, shock) < 0,
{
    lemma_fx_mul_neg(0, spring_power);
    lemma_fx_mul_neg(0, shock);
    if d1 <= d2 && v1 <= v2 {
        assert((spring_offset - d1) * spring_power >= (spring_offset - d2) * spring_power) by (nonlinear_arith)
            requires
                d1 <= d2,
                spring_power >= 0,
        ;
        assert(v1 * shock <= v2 * shock) by (nonlinear_arith)
            requires
                v1 <= v2,
                shock >= 0,
        ;
        lemma_rescale_monotone((spring_offset - d2) * spring_power, (spring_offset - d1) * spring_power);
        lemma_rescale_monotone(v1 * shock, v2 * shock);
    }
    lemma_rescale_monotone((spring_offset - d1) * spring_power, (spring_offset - d1) * spring_power);
    lemma_rescale_monotone(v1 * shock, v1 * shock);
}

/// Spring-damper force of a grounded tire, along the tire's up axis.
pub open spec fn suspension_force(
    config: VehicleConfig,
    body: Body,
    tire: Tire,
    frame: TireFrame,
) -> Option<IVec> {
    match tire.distance_to_ground {
        Some(d) => {
            let closing = vdot(frame.up@, point_velocity(body, frame.position@));
            Some(
                vscale(
                    frame.up@,
                    suspension_magnitude(
                        config.spring_offset as int,
                        d as int,
                        config.spring_power as int,
                        closing,
                        config.shock as int,
                    ),
                ),
            )
        },
        None => None,
    }
}

pub fn suspension(config: &VehicleConfig, body: &Body, tire: &Tire, frame: &TireFrame) -> (r:
    Option<Vec3>)
    requires
        config.wf(),
        body.wf(),
        tire.wf(),
        frame.wf(),
    ensures
        r matches Some(f) ==> vfits(f@, FORCE_LIMIT as int),
        match r {
            Some(f) => suspension_force(*config, *body, *tire, *frame) == Some(f@),
            None => suspension_force(*config, *body, *tire, *frame) is None,
        },
{
    match tire.distance_to_ground {
        Some(d) => {
            let velocity = velocity_at_point(body, &frame.position);
            let closing = along_axis(&frame.up, &velocity);
            let magnitude = spring_damper(
                config.spring_offset,
                d,
                config.spring_power,
                closing,
                config.shock,
            );
            Some(along(&frame.up, magnitude))
        },
        None => None,
    }
}

// ------------------------------------------------------------------ friction

/// Constant kinetic friction of a driven tire: its share of the vehicle's
/// weight times the friction coefficient.
pub open spec fn friction_magnitude(mass: int, driven_tires: int) -> int {
    fx_mul(fx_mul(mass / driven_tires, FRICTION_COEFFICIENT as int), GRAVITY as int)
}

/// Friction at a driven, grounded tire of a moving vehicle, along the rolling
/// axis and against the tire's velocity along it.
pub open spec fn friction_force(body: Body, tire: Tire, frame: TireFrame, driven_tires: int) -> Option<IVec> {
    if tire.grounded() && tire.connected_to_engine && speed_sq(body.linvel@) > 0 {
        let m = friction_magnitude(body.mass as int, driven_tires);
        let rolling = vdot(frame.forward@, point_velocity(body, frame.position@));
        Some(vscale(frame.forward@, if rolling < 0 { m } else { -m }))
    } else {
        None
    }
}

/// Whether a velocity is nonzero.
pub fn is_moving(v: &Vec3) -> (r: bool)
    requires
        vfits(v@, LIMIT as int),
    ensures
        r == (speed_sq(v@) > 0),
{
    proof {
        lemma_mul_fits(v.x as int, v.x as int, LIMIT as int, LIMIT as int);
        lemma_mul_fits(v.y as int, v.y as int, LIMIT as int, LIMIT as int);
        lemma_mul_fits(v.z as int, v.z as int, LIMIT as int, LIMIT as int);
    }
    v.x * v.x + v.y * v.y + v.z * v.z > 0
}

pub fn friction(body: &Body, tire: &Tire, frame: &TireFrame, driven_tires: i128) -> (r: Option<Vec3>)
    requires
        body.wf(),
        frame.wf(),
        1 <= driven_tires,
    ensures
        r matches Some(f) ==> vfits(f@, FORCE_LIMIT as int),
        match r {
            Some(f) => friction_force(*body, *tire, *frame, driven_tires as int) == Some(f@),
            None => friction_force(*body, *tire, *frame, driven_tires as int) is None,
        },
{
    if tire.distance_to_ground.is_some() && tire.connected_to_engine && is_moving(&body.linvel) {
        let share = body.mass / driven_tires;
        proof {
            assert(0 <= share <= LIMIT) by (nonlinear_arith)
                requires
                    share == body.mass / driven_tires,
                    0 <= body.mass <= LIMIT,
                    1 <= driven_tires,
            ;
            lemma_fx_mul_fits(share as int, FRICTION_COEFFICIENT as int, LIMIT as int, SCALE as int);
        }
        let weighted = mul_fx(share, FRICTION_COEFFICIENT);
        proof {
            lemma_fx_mul_fits(weighted as int, GRAVITY as int, LIMIT as int, 10 * SCALE as int);
        }
        let m = mul_fx(weighted, GRAVITY);
        let velocity = velocity_at_point(body, &frame.position);
        let rolling = along_axis(&frame.forward, &velocity);
        if rolling < 0 {
            Some(along(&frame.forward, m))
        } else {
            Some(along(&frame.forward, -m))
        }
    } else {
        None
    }
}

// ----------------------------------------------------------------- cornering

/// Lateral resistance: the velocity change that cancels `grip` of the lateral
/// velocity within one tick, times the tire's share of the vehicle's mass.
pub open spec fn cornering_magnitude(lateral_velocity: int, grip: int, mass: int, tires: int) -> int {
    fx_mul(-fx_mul(lateral_velocity, grip) * TICK_RATE, mass / tires)
}

/// Cornering force at a grounded tire, along its steering axis.
pub open spec fn cornering_force(body: Body, tire: Tire, frame: TireFrame, tires: int) -> Option<IVec> {
    if tire.grounded() {
        let lateral_velocity = vdot(frame.lateral@, point_velocity(body, frame.position@));
        Some(vscale(frame.lateral@, cornering_magnitude(lateral_velocity, tire.grip as int, body.mass as int, tires)))
    } else {
        None
    }
}

pub fn cornering_resistance(lateral_velocity: i128, grip: i128, mass: i128, tires: i128) -> (r: i128)
    requires
        fits(lateral_velocity as int, AXIAL_BOUND as int),
        0 <= grip <= SCALE,
        0 <= mass <= LIMIT,
        1 <= tires,
    ensures
        r == cornering_magnitude(lateral_velocity as int, grip as int, mass as int, tires as int),
        fits(r as int, FORCE_LIMIT as int),
{
    proof {
        lemma_fx_mul_fits(lateral_velocity as int, grip as int, AXIAL_BOUND as int, SCALE as int);
    }
    let change = -mul_fx(lateral_velocity, grip);
    let acceleration = change * TICK_RATE;
    let share = mass / tires;
    proof {
        assert(0 <= share <= LIMIT) by (nonlinear_arith)
            requires
                share == mass / tires,
                0 <= mass <= LIMIT,
                1 <= tires,
        ;
        lemma_fx_mul_fits(acceleration as int, share as int, 60 * AXIAL_BOUND as int, LIMIT as int);
    }
    mul_fx(acceleration, share)
}

pub fn cornering(body: &Body, tire: &Tire, frame: &TireFrame, tires: i128) -> (r: Option<Vec3>)
    requires
        body.wf(),
        tire.wf(),
        frame.wf(),
        1 <= tires,
    ensures
        r matches Some(f) ==> vfits(f@, FORCE_LIMIT as int),
        match r {
            Some(f) => cornering_force(*body, *tire, *frame, tires as int) == Some(f@),
            None => cornering_force(*body, *tire, *frame, tires as int) is None,
        },
{
    if tire.distance_to_ground.is_some() {
        let velocity = velocity_at_point(body, &frame.position);
        let lateral_velocity = along_axis(&frame.lateral, &velocity);
        let m = cornering_resistance(lateral_velocity, tire.grip, body.mass, tires);
        Some(along(&frame.lateral, m))
    } else {
        None
    }
}

/// A tire without grip resists no lateral sliding at all; a tire with full
/// grip resists it in proportion to the lateral velocity, against its sign,
/// and not by zero once its share of the mass is at least one unit.
pub proof fn lemma_cornering_grip(lateral_velocity: int, mass: int, tires: int)
    requires
        0 <= mass,
        1 <= tires,
    ensures
        cornering_magnitude(lateral_velocity, 0, mass, tires) == 0,
        cornering_magnitude(lateral_velocity, SCALE as int, mass, tires) == -fx_mul(
            lateral_velocity * TICK_RATE,
            mass / tires,
        ),
        lateral_velocity >= 0 ==> cornering_magnitude(lateral_velocity, SCALE as int, mass, tires) <= 0,
        lateral_velocity <= 0 ==> cornering_magnitude(lateral_velocity, SCALE as int, mass, tires) >= 0,
        lateral_velocity != 0 && mass / tires >= SCALE ==> cornering_magnitude(
            lateral_velocity,
            SCALE as int,
            mass,
            tires,
        ) != 0,
        lateral_velocity * TICK_RATE * (mass / tires) >= SCALE ==> cornering_magnitude(
            lateral_velocity,
            SCALE as int,
            mass,
            tires,
        ) < 0,
        lateral_velocity * TICK_RATE * (mass / tires) <= -SCALE ==> cornering_magnitude(
            lateral_velocity,
            SCALE as int,
            mass,
            tires,
        ) > 0,
{
    let share = mass / tires;
    assert(share >= 0) by (nonlinear_arith)
        requires
            share == mass / tires,
            0 <= mass,
            1 <= tires,
    ;
    lemma_fx_mul_neg(lateral_velocity, 0);
    lemma_fx_mul_neg(0, share);
    assert(fx_mul(lateral_velocity, SCALE as int) == lateral_velocity);
    lemma_fx_mul_neg(lateral_velocity * TICK_RATE, share);
    assert(-lateral_velocity * TICK_RATE == -(lateral_velocity * TICK_RATE));
    let p = lateral_velocity * TICK_RATE * share;
    assert(p == (lateral_velocity * TICK_RATE) * share);
    if lateral_velocity >= 0 {
        assert(p >= 0) by (nonlinear_arith)
            requires
                p == lateral_velocity * TICK_RATE * share,
                lateral_velocity >= 0,
                share >= 0,
        ;
        lemma_rescale_neg(p);
    }
    if lateral_velocity <= 0 {
        assert(p <= 0) by (nonlinear_arith)
            requires
                p == lateral_velocity * TICK_RATE * share,
                lateral_velocity <= 0,
                share >= 0,
        ;
        lemma_rescale_neg(p);
    }
    lemma_rescale_monotone(p, p);
    if lateral_velocity != 0 && share >= SCALE {
        assert(p >= SCALE || p <= -SCALE) by (nonlinear_arith)
            requires
                p == lateral_velocity * 60 * share,
                lateral_velocity != 0,
                share >= 1000,
        ;
    }
}

/// A grounded tire without grip makes a zero cornering force.
pub proof fn lemma_no_grip_no_cornering(body: Body, tire: Tire, frame: TireFrame, tires: int)
    requires
        tire.grounded(),
        tire.grip == 0,
        0 <= body.mass,
        1 <= tires,
    ensures
        cornering_force(body, tire, frame, tires) == Some(vzero()),
{
    let lateral_velocity = vdot(frame.lateral@, point_velocity(body, frame.position@));
    lemma_cornering_grip(lateral_velocity, body.mass as int, tires);
    lemma_fx_mul_neg(frame.lateral.x as int, 0);
    lemma_fx_mul_neg(frame.lateral.y as int, 0);
    lemma_fx_mul_neg(frame.lateral.z as int, 0);
}

} // verus!
