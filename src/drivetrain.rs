//! Drivetrain: the engine's power curve over the speed ratio, and the
//! longitudinal force at a driven, grounded tire.
//!
//! The piece of the curve is chosen by exact comparisons of the squared speed
//! with the squared thresholds, so a speed even slightly past top speed gets
//! no force. Two pieces are logarithms: the library gives the argument of the
//! logarithm (`power_curve_log_argument`) and the caller supplies its base-ten
//! logarithm in millionths. Ratios, curve values and logarithms are all
//! counted in millionths.

use vstd::prelude::*;
use crate::fixed::{fits, fx_mul, lemma_fx_mul_fits, lemma_mul_fits, mul_fx, vfits, vscale, IVec, Vec3, LIMIT, SCALE};
use crate::forces::FORCE_LIMIT;
use crate::model::{Body, Tire, TireFrame, VehicleConfig};

verus! {

/// Units of a speed ratio, a curve value or a logarithm in one whole unit.
pub const RATIO_SCALE: i128 = 1_000_000;

/// Speed ratio at which the torque plateau begins: 0.4.
pub const PLATEAU_START: i128 = 400_000;

/// Speed ratio at which the torque plateau ends: 0.698.
pub const PLATEAU_END: i128 = 698_000;

/// Bound on the force that `lookup_power` makes available.
pub const POWER_BOUND: i128 = 2_000_000_000_000_000;

/// The pieces of the power curve, by speed ratio.
#[derive(Clone, Copy, Debug, PartialEq, Eq, Structural)]
pub enum CurveSegment {
    /// Below zero: a constant half.
    Reverse,
    /// From zero up to the plateau: `-log10(0.3 - r/2)`.
    Rising,
    /// The plateau, both ends included: one.
    Plateau,
    /// Past the plateau up to one, included: `log10(6 - 5r) + 0.6`.
    Falling,
    /// Past the top speed: nothing.
    Cutoff,
}

pub open spec fn speed_sq(v: IVec) -> int {
    v.0 * v.0 + v.1 * v.1 + v.2 * v.2
}

pub open spec fn is_root(r: int, n: int) -> bool {
    0 <= r && r * r <= n && n < (r + 1) * (r + 1)
}

/// Integer square root, rounded down.
pub open spec fn root(n: int) -> int {
    choose|r: int| is_root(r, n)
}

pub proof fn lemma_root_unique(r: int, s: int, n: int) by (nonlinear_arith)
    requires
        is_root(r, n),
        is_root(s, n),
    ensures
        r == s,
{
}

pub proof fn lemma_root(r: int, n: int)
    requires
        is_root(r, n),
    ensures
        root(n) == r,
{
    lemma_root_unique(root(n), r, n);
}

/// Speed over top speed, in millionths, rounded toward zero.
pub open spec fn ratio_of_speed(speed: int, max_speed: int) -> int {
    if max_speed > 0 {
        (speed * RATIO_SCALE) / max_speed
    } else {
        -((speed * RATIO_SCALE) / (-max_speed))
    }
}

/// Whether the ratio of the speed whose square is `n` to a positive top speed
/// is below `k` millionths: compared squared, so exactly.
pub open spec fn ratio_below(n: int, max_speed: int, k: int) -> bool {
    n * 1_000_000_000_000 < (k * max_speed) * (k * max_speed)
}

/// Whether that ratio is at most `k` millionths.
pub open spec fn ratio_at_most(n: int, max_speed: int, k: int) -> bool {
    n * 1_000_000_000_000 <= (k * max_speed) * (k * max_speed)
}

/// The piece of the curve at the speed whose square is `n`, decided exactly.
/// A negative top speed makes every nonzero speed a negative ratio.
pub open spec fn segment_at(n: int, max_speed: int) -> CurveSegment {
    if max_speed < 0 {
        if n > 0 {
            CurveSegment::Reverse
        } else {
            CurveSegment::Rising
        }
    } else if ratio_below(n, max_speed, 400_000) {
        CurveSegment::Rising
    } else if ratio_at_most(n, max_speed, 698_000) {
        CurveSegment::Plateau
    } else if n <= max_speed * max_speed {
        CurveSegment::Falling
    } else {
        CurveSegment::Cutoff
    }
}

/// Argument of the rising piece's logarithm: `0.3 - r/2`.
pub open spec fn rising_argument(ratio: int) -> int {
    300_000 - ratio / 2
}

/// Argument of the falling piece's logarithm: `6 - 5r`.
pub open spec fn falling_argument(ratio: int) -> int {
    6_000_000 - 5 * ratio
}

/// The argument whose base-ten logarithm the curve needs at the speed whose
/// square is `n`, if any; none for a vehicle without a top speed.
pub open spec fn log_argument(n: int, max_speed: int) -> Option<int> {
    if max_speed == 0 {
        None
    } else {
        match segment_at(n, max_speed) {
            CurveSegment::Rising => Some(rising_argument(ratio_of_speed(root(n), max_speed))),
            CurveSegment::Falling => Some(falling_argument(ratio_of_speed(root(n), max_speed))),
            _ => None,
        }
    }
}

/// The curve's value on `segment`, given `log10` of its log argument.
pub open spec fn curve_value(segment: CurveSegment, log10_value: int) -> int {
    match segment {
        CurveSegment::Reverse => 500_000,
        CurveSegment::Rising => -log10_value,
        CurveSegment::Plateau => RATIO_SCALE as int,
        CurveSegment::Falling => log10_value + 600_000,
        CurveSegment::Cutoff => 0,
    }
}

/// Millionths of `p`, rounded toward zero.
pub open spec fn per_million(p: int) -> int {
    if p >= 0 {
        p / (RATIO_SCALE as int)
    } else {
        -((-p) / (RATIO_SCALE as int))
    }
}

/// Force that the engine makes available at the vehicle's speed; `None` for a
/// vehicle without a top speed, which has no drivetrain.
pub open spec fn available_power(linvel: IVec, max_speed: int, max_force: int, log10_value: int) -> Option<int> {
    if max_speed == 0 {
        None
    } else {
        Some(per_million(max_force * curve_value(segment_at(speed_sq(linvel), max_speed), log10_value)))
    }
}

/// Throttle times available force, along the rolling axis of a driven,
/// grounded tire.
pub open spec fn drive_force(
    config: VehicleConfig,
    body: Body,
    tire: Tire,
    frame: TireFrame,
    throttle: int,
    log10_value: int,
) -> Option<IVec> {
    if tire.grounded() && tire.connected_to_engine {
        match available_power(body.linvel@, config.max_speed as int, config.max_force as int, log10_value) {
            Some(p) => Some(vscale(frame.forward@, fx_mul(throttle, p))),
            None => None,
        }
    } else {
        None
    }
}

pub proof fn lemma_speed_sq_nonneg(v: IVec)
    ensures
        speed_sq(v) >= 0,
{
    assert(v.0 * v.0 + v.1 * v.1 + v.2 * v.2 >= 0) by (nonlinear_arith);
}

/// Squared length of a velocity.
pub fn speed_squared(v: &Vec3) -> (r: i128)
    requires
        vfits(v@, LIMIT as int),
    ensures
        r == speed_sq(v@),
        0 <= r <= 3 * LIMIT * LIMIT,
{
    proof {
        lemma_mul_fits(v.x as int, v.x as int, LIMIT as int, LIMIT as int);
        lemma_mul_fits(v.y as int, v.y as int, LIMIT as int, LIMIT as int);
        lemma_mul_fits(v.z as int, v.z as int, LIMIT as int, LIMIT as int);
        assert(v.x * v.x >= 0 && v.y * v.y >= 0 && v.z * v.z >= 0) by (nonlinear_arith);
    }
    v.x * v.x + v.y * v.y + v.z * v.z
}

pub fn speed(v: &Vec3) -> (r: i128)
    requires
        vfits(v@, LIMIT as int),
    ensures
        is_root(r as int, speed_sq(v@)),
        r == root(speed_sq(v@)),
        0 <= r <= 2 * LIMIT,
{
    proof {
        lemma_mul_fits(v.x as int, v.x as int, LIMIT as int, LIMIT as int);
        lemma_mul_fits(v.y as int, v.y as int, LIMIT as int, LIMIT as int);
        lemma_mul_fits(v.z as int, v.z as int, LIMIT as int, LIMIT as int);
        assert(v.x * v.x >= 0 && v.y * v.y >= 0 && v.z * v.z >= 0) by (nonlinear_arith);
    }
    let n = v.x * v.x + v.y * v.y + v.z * v.z;
    let mut lo: i128 = 0;
    let mut hi: i128 = 2 * LIMIT;
    while hi - lo > 1
        invariant
            0 <= lo < hi <= 2 * LIMIT,
            lo * lo <= n,
            n < hi * hi,
            n == speed_sq(v@),
        decreases hi - lo,
    {
        let mid = lo + (hi - lo) / 2;
        proof {
            lemma_mul_fits(mid as int, mid as int, 2_000_000_000, 2_000_000_000);
        }
        if mid * mid <= n {
            lo = mid;
        } else {
            hi = mid;
        }
    }
    proof {
        assert(hi == lo + 1);
        lemma_root(lo as int, n as int);
    }
    lo
}

proof fn lemma_div_le(x: int, m: int) by (nonlinear_arith)
    requires
        x >= 0,
        m >= 1,
    ensures
        0 <= x / m <= x,
{
}

/// Vehicle speed over top speed, in millionths; `None` when the top speed is
/// zero.
pub fn speed_ratio(linvel: &Vec3, max_speed: i128) -> (r: Option<i128>)
    requires
        vfits(linvel@, LIMIT as int),
        fits(max_speed as int, LIMIT as int),
    ensures
        max_speed == 0 <==> r is None,
        r matches Some(q) ==> q == ratio_of_speed(root(speed_sq(linvel@)), max_speed as int),
        r matches Some(q) ==> fits(q as int, 2 * RATIO_SCALE * LIMIT),
        r matches Some(q) ==> (max_speed > 0 ==> q >= 0),
        r matches Some(q) ==> (speed_sq(linvel@) == 0 ==> q == 0),
{
    let s = speed(linvel);
    proof {
        if speed_sq(linvel@) == 0 {
            assert(s == 0) by (nonlinear_arith)
                requires
                    s >= 0,
                    s * s <= 0,
            ;
        }
    }
    let scaled = s * RATIO_SCALE;
    if max_speed > 0 {
        proof {
            lemma_div_le(scaled as int, max_speed as int);
        }
        Some(scaled / max_speed)
    } else if max_speed < 0 {
        proof {
            lemma_div_le(scaled as int, -max_speed as int);
        }
        Some(-(scaled / (-max_speed)))
    } else {
        None
    }
}

/// The squared threshold `(k * max_speed)²` against which a squared speed,
/// scaled by a million squared, is compared.
fn threshold_sq(max_speed: i128, k: i128) -> (r: i128)
    requires
        0 < max_speed <= LIMIT,
        0 <= k <= RATIO_SCALE,
    ensures
        r == (k * max_speed) * (k * max_speed),
        0 <= r <= 1_000_000_000_000_000_000_000_000_000_000,
{
    proof {
        lemma_mul_fits(k as int, max_speed as int, 1_000_000, 1_000_000_000);
    }
    let t = k * max_speed;
    proof {
        lemma_mul_fits(t as int, t as int, 1_000_000_000_000_000, 1_000_000_000_000_000);
        assert(t * t >= 0) by (nonlinear_arith);
    }
    t * t
}

/// The piece of the power curve at the vehicle's speed; `None` for a vehicle
/// without a top speed.
pub fn power_curve_segment(linvel: &Vec3, max_speed: i128) -> (r: Option<CurveSegment>)
    requires
        vfits(linvel@, LIMIT as int),
        fits(max_speed as int, LIMIT as int),
    ensures
        max_speed == 0 <==> r is None,
        r matches Some(g) ==> g == segment_at(speed_sq(linvel@), max_speed as int),
{
    let n = speed_squared(linvel);
    if max_speed == 0 {
        None
    } else if max_speed < 0 {
        if n > 0 {
            Some(CurveSegment::Reverse)
        } else {
            Some(CurveSegment::Rising)
        }
    } else if n * 1_000_000_000_000 < threshold_sq(max_speed, PLATEAU_START) {
        Some(CurveSegment::Rising)
    } else if n * 1_000_000_000_000 <= threshold_sq(max_speed, PLATEAU_END) {
        Some(CurveSegment::Plateau)
    } else {
        proof {
            lemma_mul_fits(max_speed as int, max_speed as int, LIMIT as int, LIMIT as int);
        }
        if n <= max_speed * max_speed {
            Some(CurveSegment::Falling)
        } else {
            Some(CurveSegment::Cutoff)
        }
    }
}

/// The value whose base-ten logarithm, in millionths, `power_curve` needs at
/// the vehicle's speed.
pub fn power_curve_log_argument(linvel: &Vec3, max_speed: i128) -> (r: Option<i128>)
    requires
        vfits(linvel@, LIMIT as int),
        fits(max_speed as int, LIMIT as int),
    ensures
        match r {
            Some(a) => log_argument(speed_sq(linvel@), max_speed as int) == Some(a as int),
            None => log_argument(speed_sq(linvel@), max_speed as int) is None,
        },
{
    match power_curve_segment(linvel, max_speed) {
        Some(CurveSegment::Rising) => match speed_ratio(linvel, max_speed) {
            Some(ratio) => {
                proof {
                    lemma_speed_sq_nonneg(linvel@);
                }
                Some(300_000 - ratio / 2)
            },
            None => None,
        },
        Some(CurveSegment::Falling) => match speed_ratio(linvel, max_speed) {
            Some(ratio) => Some(6_000_000 - 5 * ratio),
            None => None,
        },
        _ => None,
    }
}

/// The power curve on `segment`, from the logarithm of its log argument.
pub fn power_curve(segment: CurveSegment, log10_value: i128) -> (r: i128)
    requires
        fits(log10_value as int, LIMIT as int),
    ensures
        r == curve_value(segment, log10_value as int),
        fits(r as int, 2 * LIMIT as int),
{
    match segment {
        CurveSegment::Reverse => 500_000,
        CurveSegment::Rising => -log10_value,
        CurveSegment::Plateau => RATIO_SCALE,
        CurveSegment::Falling => log10_value + 600_000,
        CurveSegment::Cutoff => 0,
    }
}

/// Force the engine makes available at the vehicle's speed: none past top
/// speed, and none at all without a top speed.
pub fn lookup_power(linvel: &Vec3, max_speed: i128, max_force: i128, log10_value: i128) -> (r: Option<i128>)
    requires
        vfits(linvel@, LIMIT as int),
        fits(max_speed as int, LIMIT as int),
        fits(max_force as int, LIMIT as int),
        fits(log10_value as int, LIMIT as int),
    ensures
        match r {
            Some(p) => available_power(linvel@, max_speed as int, max_force as int, log10_value as int) == Some(p as int),
            None => available_power(linvel@, max_speed as int, max_force as int, log10_value as int) is None,
        },
        max_speed == 0 <==> r is None,
        max_speed > 0 && speed_sq(linvel@) > max_speed * max_speed ==> r == Some(0i128),
        r matches Some(p) ==> fits(p as int, POWER_BOUND as int),
{
    match power_curve_segment(linvel, max_speed) {
        Some(segment) => {
            let curve = power_curve(segment, log10_value);
            proof {
                lemma_mul_fits(max_force as int, curve as int, LIMIT as int, 2 * LIMIT as int);
            }
            let p = max_force * curve;
            let r = if p >= 0 {
                p / RATIO_SCALE
            } else {
                -((-p) / RATIO_SCALE)
            };
            proof {
                if max_speed > 0 && speed_sq(linvel@) > max_speed * max_speed {
                    lemma_cutoff(linvel@, max_speed as int, max_force as int, log10_value as int);
                }
            }
            Some(r)
        },
        None => None,
    }
}

/// Drive force at one tire for a throttle in `[-SCALE, SCALE]`.
pub fn drive(
    config: &VehicleConfig,
    body: &Body,
    tire: &Tire,
    frame: &TireFrame,
    throttle: i128,
    log10_value: i128,
) -> (r: Option<Vec3>)
    requires
        config.wf(),
        body.wf(),
        frame.wf(),
        fits(throttle as int, SCALE as int),
        fits(log10_value as int, LIMIT as int),
    ensures
        r matches Some(f) ==> vfits(f@, FORCE_LIMIT as int),
        match r {
            Some(f) => drive_force(*config, *body, *tire, *frame, throttle as int, log10_value as int) == Some(f@),
            None => drive_force(*config, *body, *tire, *frame, throttle as int, log10_value as int) is None,
        },
{
    if tire.distance_to_ground.is_some() && tire.connected_to_engine {
        match lookup_power(&body.linvel, config.max_speed, config.max_force, log10_value) {
            Some(p) => {
                proof {
                    lemma_fx_mul_fits(throttle as int, p as int, SCALE as int, POWER_BOUND as int);
                }
                let magnitude = mul_fx(throttle, p);
                let f = frame.forward;
                proof {
                    lemma_fx_mul_fits(f.x as int, magnitude as int, SCALE as int, FORCE_LIMIT as int);
                    lemma_fx_mul_fits(f.y as int, magnitude as int, SCALE as int, FORCE_LIMIT as int);
                    lemma_fx_mul_fits(f.z as int, magnitude as int, SCALE as int, FORCE_LIMIT as int);
                }
                Some(f.scale(magnitude))
            },
            None => None,
        }
    } else {
        None
    }
}

/// Past top speed the curve is exactly zero, whatever logarithm is supplied.
pub proof fn lemma_cutoff(linvel: IVec, max_speed: int, max_force: int, log10_value: int)
    requires
        max_speed > 0,
        speed_sq(linvel) > max_speed * max_speed,
    ensures
        segment_at(speed_sq(linvel), max_speed) == CurveSegment::Cutoff,
        available_power(linvel, max_speed, max_force, log10_value) == Some(0int),
{
    lemma_above_top_speed(speed_sq(linvel), max_speed);
    assert(max_force * 0 == 0);
}

proof fn lemma_above_top_speed(n: int, max_speed: int) by (nonlinear_arith)
    requires
        max_speed > 0,
        n > max_speed * max_speed,
    ensures
        !ratio_at_most(n, max_speed, 698_000),
        !ratio_below(n, max_speed, 400_000),
{
}

proof fn lemma_at_top_speed(n: int, max_speed: int) by (nonlinear_arith)
    requires
        max_speed > 0,
        n == max_speed * max_speed,
    ensures
        !ratio_at_most(n, max_speed, 698_000),
        !ratio_below(n, max_speed, 400_000),
{
}

proof fn lemma_at_plateau_start(n: int, max_speed: int) by (nonlinear_arith)
    requires
        max_speed > 0,
        n * 1_000_000_000_000 == (400_000 * max_speed) * (400_000 * max_speed),
    ensures
        ratio_at_most(n, max_speed, 698_000),
        !ratio_below(n, max_speed, 400_000),
{
}

proof fn lemma_at_plateau_end(n: int, max_speed: int) by (nonlinear_arith)
    requires
        max_speed > 0,
        n * 1_000_000_000_000 == (698_000 * max_speed) * (698_000 * max_speed),
    ensures
        ratio_at_most(n, max_speed, 698_000),
        !ratio_below(n, max_speed, 400_000),
{
}

/// Where the pieces of the power curve meet, for a positive top speed and a
/// speed with square `n`. The plateau includes both of its ends and top speed
/// belongs to the falling piece. At the plateau's start the rising piece's
/// argument is exactly one tenth, and with its logarithm, minus one, the
/// rising piece equals the plateau. At the plateau's end the falling piece's
/// argument is 2.51, whose logarithm plus 0.6 is one to within a thousandth.
/// At top speed the falling argument is one: the curve is 0.6 there, and
/// exactly zero at any speed past it.
pub proof fn lemma_curve_joints(n: int, max_speed: int, log10_value: int)
    requires
        max_speed > 0,
    ensures
        ratio_below(n, max_speed, 400_000) ==> segment_at(n, max_speed) == CurveSegment::Rising,
        n * 1_000_000_000_000 == (400_000 * max_speed) * (400_000 * max_speed) ==> segment_at(n, max_speed)
            == CurveSegment::Plateau,
        n * 1_000_000_000_000 == (698_000 * max_speed) * (698_000 * max_speed) ==> segment_at(n, max_speed)
            == CurveSegment::Plateau,
        n == max_speed * max_speed ==> segment_at(n, max_speed) == CurveSegment::Falling,
        n > max_speed * max_speed ==> curve_value(segment_at(n, max_speed), log10_value) == 0,
        rising_argument(PLATEAU_START as int) == RATIO_SCALE / 10,
        curve_value(CurveSegment::Rising, -RATIO_SCALE) == curve_value(CurveSegment::Plateau, log10_value),
        falling_argument(PLATEAU_END as int) == 2_510_000,
        falling_argument(RATIO_SCALE as int) == RATIO_SCALE,
        curve_value(CurveSegment::Falling, 0) == 600_000,
{
    if n * 1_000_000_000_000 == (400_000 * max_speed) * (400_000 * max_speed) {
        lemma_at_plateau_start(n, max_speed);
    }
    if n * 1_000_000_000_000 == (698_000 * max_speed) * (698_000 * max_speed) {
        lemma_at_plateau_end(n, max_speed);
    }
    if n == max_speed * max_speed {
        lemma_at_top_speed(n, max_speed);
    }
    if n > max_speed * max_speed {
        lemma_above_top_speed(n, max_speed);
    }
}

/// From rest, a vehicle with a top speed sits at ratio zero, where the curve
/// needs the logarithm of 0.3; full throttle then drives a grounded, driven
/// tire along its rolling axis with `max_force` times that logarithm, negated.
pub proof fn lemma_full_throttle_from_rest(
    config: VehicleConfig,
    body: Body,
    tire: Tire,
    frame: TireFrame,
    log10_value: int,
)
    requires
        body.linvel@ == (0int, 0int, 0int),
        config.max_speed > 0,
        tire.grounded(),
        tire.connected_to_engine,
    ensures
        log_argument(speed_sq(body.linvel@), config.max_speed as int) == Some(300_000int),
        available_power(body.linvel@, config.max_speed as int, config.max_force as int, log10_value)
            == Some(per_million(config.max_force * -log10_value)),
        drive_force(config, body, tire, frame, SCALE as int, log10_value) == Some(
            vscale(frame.forward@, per_million(config.max_force * -log10_value)),
        ),
{
    let ms = config.max_speed as int;
    assert(is_root(0, 0)) by (nonlinear_arith);
    lemma_root(0, 0);
    let v = body.linvel@;
    assert(v.0 * v.0 + v.1 * v.1 + v.2 * v.2 == 0) by (nonlinear_arith)
        requires
            v.0 == 0 && v.1 == 0 && v.2 == 0,
    ;
    assert(speed_sq(body.linvel@) == 0);
    assert((400_000 * ms) * (400_000 * ms) > 0) by (nonlinear_arith)
        requires
            ms > 0,
    ;
    assert(segment_at(0, ms) == CurveSegment::Rising);
    assert(ratio_of_speed(0, ms) == 0);
    let p = per_million(config.max_force * -log10_value);
    assert(fx_mul(SCALE as int, p) == p);
}

} // verus!
