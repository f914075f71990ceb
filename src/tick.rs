//! One tick of the force pipeline: every force model runs over every tire of
//! every vehicle, and the aggregator turns the contributions into the net
//! force and torque that each vehicle's body carries until the next tick.

use vstd::prelude::*;
use crate::aggregate::{
    aggregate, contribution_wf, lemma_aggregate_zero_forces, net_force_of, net_torque_of,
    MAX_CONTRIBUTIONS,
};
use crate::drivetrain::{drive, drive_force};
use crate::fixed::{
    fits, lemma_cross_zero, lemma_fx_mul_neg, vec_of, vsub, vzero, IVec, Vec3, LIMIT, SCALE,
};
use crate::drivetrain::speed_sq;
use crate::forces::point_velocity;
use crate::forces::{
    cornering, cornering_force, friction, friction_force, suspension, suspension_force,
};
use crate::model::{Body, Contribution, Tire, TireFrame, Vehicle};

verus! {

/// Most tires one tick may handle.
pub const MAX_TIRES: usize = 250_000;

/// The force models that run, each over every tire, in one tick.
#[derive(Clone, Copy, Debug, PartialEq, Eq, Structural)]
pub enum ForceModel {
    Suspension,
    Drive,
    Friction,
    Cornering,
}

pub open spec fn counted(t: Tire, v: int, driven_only: bool) -> bool {
    t.vehicle == v && (!driven_only || t.connected_to_engine)
}

/// How many tires vehicle `v` has, or how many driven ones.
pub open spec fn tire_count(tires: Seq<Tire>, v: int, driven_only: bool) -> int
    decreases tires.len(),
{
    if tires.len() == 0 {
        0
    } else {
        tire_count(tires.drop_last(), v, driven_only) + if counted(tires.last(), v, driven_only) {
            1int
        } else {
            0int
        }
    }
}

proof fn lemma_count_includes(tires: Seq<Tire>, i: int, driven_only: bool)
    requires
        0 <= i < tires.len(),
        counted(tires[i], tires[i].vehicle as int, driven_only),
    ensures
        tire_count(tires, tires[i].vehicle as int, driven_only) >= 1,
    decreases tires.len(),
{
    if i < tires.len() - 1 {
        lemma_count_includes(tires.drop_last(), i, driven_only);
    }
    lemma_count_nonneg(tires.drop_last(), tires[i].vehicle as int, driven_only);
}

proof fn lemma_count_nonneg(tires: Seq<Tire>, v: int, driven_only: bool)
    ensures
        tire_count(tires, v, driven_only) >= 0,
    decreases tires.len(),
{
    if tires.len() > 0 {
        lemma_count_nonneg(tires.drop_last(), v, driven_only);
    }
}

pub open spec fn opt_view(f: Option<Vec3>) -> Option<IVec> {
    match f {
        Some(x) => Some(x@),
        None => None,
    }
}

/// The contribution a model's optional force makes.
pub open spec fn emitted(vehicle: usize, point: Vec3, f: Option<IVec>) -> Seq<Contribution> {
    match f {
        Some(x) => seq![Contribution { vehicle, point, force: vec_of(x) }],
        None => seq![],
    }
}

/// What model `m` makes of tire `i`, whose vehicle exists.
pub open spec fn model_force(
    m: ForceModel,
    vs: Seq<Vehicle>,
    ts: Seq<Tire>,
    fs: Seq<TireFrame>,
    throttle: int,
    logs: Seq<i128>,
    i: int,
) -> Option<IVec> {
    let t = ts[i];
    let veh = vs[t.vehicle as int];
    match m {
        ForceModel::Suspension => suspension_force(veh.config, veh.body, t, fs[i]),
        ForceModel::Drive => drive_force(veh.config, veh.body, t, fs[i], throttle, logs[t.vehicle as int] as int),
        ForceModel::Friction => friction_force(veh.body, t, fs[i], tire_count(ts, t.vehicle as int, true)),
        ForceModel::Cornering => cornering_force(veh.body, t, fs[i], tire_count(ts, t.vehicle as int, false)),
    }
}

/// Contributions of model `m` over the first `n` tires, in tire order. A tire
/// whose vehicle does not exist is left out.
pub open spec fn model_contributions(
    m: ForceModel,
    vs: Seq<Vehicle>,
    ts: Seq<Tire>,
    fs: Seq<TireFrame>,
    throttle: int,
    logs: Seq<i128>,
    n: int,
) -> Seq<Contribution>
    decreases n,
{
    if n <= 0 {
        seq![]
    } else {
        let prev = model_contributions(m, vs, ts, fs, throttle, logs, n - 1);
        let t = ts[n - 1];
        if t.vehicle < vs.len() {
            prev + emitted(t.vehicle, fs[n - 1].position, model_force(m, vs, ts, fs, throttle, logs, n - 1))
        } else {
            prev
        }
    }
}

/// All contributions of one tick: suspension, drive, friction, cornering.
pub open spec fn tick_contributions(
    vs: Seq<Vehicle>,
    ts: Seq<Tire>,
    fs: Seq<TireFrame>,
    throttle: int,
    logs: Seq<i128>,
) -> Seq<Contribution> {
    model_contributions(ForceModel::Suspension, vs, ts, fs, throttle, logs, ts.len() as int)
        + model_contributions(ForceModel::Drive, vs, ts, fs, throttle, logs, ts.len() as int)
        + model_contributions(ForceModel::Friction, vs, ts, fs, throttle, logs, ts.len() as int)
        + model_contributions(ForceModel::Cornering, vs, ts, fs, throttle, logs, ts.len() as int)
}

/// What a tick's inputs must satisfy.
pub open spec fn tick_inputs_wf(
    vs: Seq<Vehicle>,
    ts: Seq<Tire>,
    fs: Seq<TireFrame>,
    throttle: int,
    logs: Seq<i128>,
) -> bool {
    &&& ts.len() == fs.len()
    &&& ts.len() <= MAX_TIRES
    &&& logs.len() == vs.len()
    &&& fits(throttle, SCALE as int)
    &&& forall|v: int| 0 <= v < vs.len() ==> (#[trigger] vs[v]).wf()
    &&& forall|v: int| 0 <= v < logs.len() ==> fits(#[trigger] logs[v] as int, LIMIT as int)
    &&& forall|i: int| 0 <= i < ts.len() ==> (#[trigger] ts[i]).wf()
    &&& forall|i: int| 0 <= i < fs.len() ==> (#[trigger] fs[i]).wf()
}

/// Per vehicle, how many tires (or driven tires) it has.
fn count_per_vehicle(tires: &Vec<Tire>, vehicles: usize, driven_only: bool) -> (r: Vec<i128>)
    ensures
        r.len() == vehicles,
        forall|v: int| 0 <= v < vehicles ==> #[trigger] r[v] == tire_count(tires@, v, driven_only),
{
    let mut r: Vec<i128> = Vec::new();
    let mut v: usize = 0;
    while v < vehicles
        invariant
            v <= vehicles,
            r.len() == v,
            forall|u: int| 0 <= u < v ==> #[trigger] r[u] == 0,
        decreases vehicles - v,
    {
        r.push(0);
        v = v + 1;
    }
    let mut i: usize = 0;
    while i < tires.len()
        invariant
            i <= tires.len(),
            r.len() == vehicles,
            forall|u: int| 0 <= u < vehicles ==> #[trigger] r[u] == tire_count(tires@.take(i as int), u, driven_only),
            forall|u: int| 0 <= u < vehicles ==> 0 <= #[trigger] r[u] <= i,
        decreases tires.len() - i,
    {
        proof {
            assert(tires@.take(i as int + 1).drop_last() =~= tires@.take(i as int));
            assert forall|u: int| 0 <= u < vehicles implies 0 <= #[trigger] r[u] <= i by {
                lemma_count_nonneg(tires@.take(i as int), u, driven_only);
            }
        }
        let t = tires[i];
        if t.vehicle < vehicles && (!driven_only || t.connected_to_engine) {
            let k = t.vehicle;
            r.set(k, r[k] + 1);
        }
        i = i + 1;
    }
    proof {
        assert(tires@.take(tires.len() as int) =~= tires@);
    }
    r
}

fn run_model(
    m: ForceModel,
    vehicles: &Vec<Vehicle>,
    tires: &Vec<Tire>,
    frames: &Vec<TireFrame>,
    throttle: i128,
    curve_logs: &Vec<i128>,
    tire_counts: &Vec<i128>,
    driven_counts: &Vec<i128>,
) -> (r: Vec<Contribution>)
    requires
        tick_inputs_wf(vehicles@, tires@, frames@, throttle as int, curve_logs@),
        tire_counts.len() == vehicles.len(),
        driven_counts.len() == vehicles.len(),
        forall|v: int| 0 <= v < vehicles.len() ==> #[trigger] tire_counts[v] == tire_count(tires@, v, false),
        forall|v: int| 0 <= v < vehicles.len() ==> #[trigger] driven_counts[v] == tire_count(tires@, v, true),
    ensures
        r@ == model_contributions(m, vehicles@, tires@, frames@, throttle as int, curve_logs@, tires.len() as int),
        r.len() <= tires.len(),
        forall|j: int| 0 <= j < r.len() ==> contribution_wf(#[trigger] r[j]),
{
    let mut r: Vec<Contribution> = Vec::new();
    let mut i: usize = 0;
    while i < tires.len()
        invariant
            i <= tires.len(),
            tick_inputs_wf(vehicles@, tires@, frames@, throttle as int, curve_logs@),
            tire_counts.len() == vehicles.len(),
            driven_counts.len() == vehicles.len(),
            forall|v: int| 0 <= v < vehicles.len() ==> #[trigger] tire_counts[v] == tire_count(tires@, v, false),
            forall|v: int| 0 <= v < vehicles.len() ==> #[trigger] driven_counts[v] == tire_count(tires@, v, true),
            r@ == model_contributions(m, vehicles@, tires@, frames@, throttle as int, curve_logs@, i as int),
            r.len() <= i,
            forall|j: int| 0 <= j < r.len() ==> contribution_wf(#[trigger] r[j]),
        decreases tires.len() - i,
    {
        let t = tires[i];
        if t.vehicle < vehicles.len() {
            let veh = vehicles[t.vehicle];
            let frame = frames[i];
            proof {
                assert(vehicles[t.vehicle as int].wf());
                assert(tires[i as int].wf());
                assert(frames[i as int].wf());
                assert(fits(curve_logs[t.vehicle as int] as int, LIMIT as int));
            }
            let f = match m {
                ForceModel::Suspension => suspension(&veh.config, &veh.body, &t, &frame),
                ForceModel::Drive => drive(&veh.config, &veh.body, &t, &frame, throttle, curve_logs[t.vehicle]),
                ForceModel::Friction => {
                    if t.connected_to_engine {
                        proof {
                            lemma_count_includes(tires@, i as int, true);
                        }
                        friction(&veh.body, &t, &frame, driven_counts[t.vehicle])
                    } else {
                        None
                    }
                },
                ForceModel::Cornering => {
                    proof {
                        lemma_count_includes(tires@, i as int, false);
                    }
                    cornering(&veh.body, &t, &frame, tire_counts[t.vehicle])
                },
            };
            proof {
                assert(opt_view(f) == model_force(m, vehicles@, tires@, frames@, throttle as int, curve_logs@, i as int));
            }
            match f {
                Some(force) => {
                    r.push(Contribution { vehicle: t.vehicle, point: frame.position, force });
                    proof {
                        assert(vec_of(force@) == force);
                    }
                },
                None => {},
            }
            proof {
                assert(r@ =~= model_contributions(m, vehicles@, tires@, frames@, throttle as int, curve_logs@, i as int + 1));
            }
        }
        i = i + 1;
    }
    r
}

/// Every contribution of one tick. `curve_logs[v]` is the base-ten logarithm,
/// in fixed-point units, of vehicle `v`'s power-curve argument this tick.
pub fn collect_contributions(
    vehicles: &Vec<Vehicle>,
    tires: &Vec<Tire>,
    frames: &Vec<TireFrame>,
    throttle: i128,
    curve_logs: &Vec<i128>,
) -> (r: Vec<Contribution>)
    requires
        tick_inputs_wf(vehicles@, tires@, frames@, throttle as int, curve_logs@),
    ensures
        r@ == tick_contributions(vehicles@, tires@, frames@, throttle as int, curve_logs@),
        r.len() <= MAX_CONTRIBUTIONS,
        forall|j: int| 0 <= j < r.len() ==> contribution_wf(#[trigger] r[j]),
{
    let tire_counts = count_per_vehicle(tires, vehicles.len(), false);
    let driven_counts = count_per_vehicle(tires, vehicles.len(), true);
    let mut all = run_model(ForceModel::Suspension, vehicles, tires, frames, throttle, curve_logs, &tire_counts, &driven_counts);
    let mut d = run_model(ForceModel::Drive, vehicles, tires, frames, throttle, curve_logs, &tire_counts, &driven_counts);
    let mut f = run_model(ForceModel::Friction, vehicles, tires, frames, throttle, curve_logs, &tire_counts, &driven_counts);
    let mut c = run_model(ForceModel::Cornering, vehicles, tires, frames, throttle, curve_logs, &tire_counts, &driven_counts);
    all.append(&mut d);
    all.append(&mut f);
    all.append(&mut c);
    all
}

/// The vehicle with this tick's net force and torque written to its body.
pub open spec fn with_net(v: Vehicle, cs: Seq<Contribution>, index: int) -> Vehicle {
    Vehicle {
        body: Body {
            force: vec_of(net_force_of(cs, index)),
            torque: vec_of(net_torque_of(cs, index, v.body.center@)),
            ..v.body
        },
        ..v
    }
}

/// Writes to every vehicle the sum of its contributions, about its centre of
/// mass; a vehicle with none gets zero force and torque.
pub fn sum_all_forces(vehicles: &mut Vec<Vehicle>, contributions: &Vec<Contribution>)
    requires
        contributions.len() <= MAX_CONTRIBUTIONS,
        forall|v: int| 0 <= v < old(vehicles).len() ==> (#[trigger] old(vehicles)[v]).body.wf(),
        forall|j: int| 0 <= j < contributions.len() ==> contribution_wf(#[trigger] contributions[j]),
    ensures
        final(vehicles).len() == old(vehicles).len(),
        forall|v: int| 0 <= v < final(vehicles).len() ==> #[trigger] final(vehicles)[v] == with_net(old(vehicles)[v], contributions@, v),
{
    let mut centers: Vec<Vec3> = Vec::new();
    let mut v: usize = 0;
    while v < vehicles.len()
        invariant
            v <= vehicles.len(),
            vehicles@ == old(vehicles)@,
            centers.len() == v,
            forall|u: int| 0 <= u < vehicles.len() ==> (#[trigger] vehicles[u]).body.wf(),
            forall|u: int| 0 <= u < v ==> #[trigger] centers[u] == vehicles[u].body.center,
        decreases vehicles.len() - v,
    {
        centers.push(vehicles[v].body.center);
        v = v + 1;
    }
    let nets = aggregate(&centers, contributions);
    let mut v: usize = 0;
    while v < vehicles.len()
        invariant
            v <= vehicles.len(),
            vehicles.len() == old(vehicles).len(),
            centers.len() == vehicles.len(),
            nets.len() == vehicles.len(),
            forall|u: int| 0 <= u < vehicles.len() ==> #[trigger] centers[u] == old(vehicles)[u].body.center,
            forall|u: int|
                0 <= u < nets.len() ==> (#[trigger] nets[u]).force@ == net_force_of(contributions@, u)
                    && nets[u].torque@ == net_torque_of(contributions@, u, centers[u]@),
            forall|u: int| 0 <= u < v ==> #[trigger] vehicles[u] == with_net(old(vehicles)[u], contributions@, u),
            forall|u: int| v <= u < vehicles.len() ==> #[trigger] vehicles[u] == old(vehicles)[u],
        decreases vehicles.len() - v,
    {
        let mut veh = vehicles[v];
        let net = nets[v];
        veh.body.force = net.force;
        veh.body.torque = net.torque;
        proof {
            assert(vec_of(net.force@) == net.force);
            assert(vec_of(net.torque@) == net.torque);
        }
        vehicles.set(v, veh);
        v = v + 1;
    }
}

/// Runs the force models and the aggregator for one tick.
pub fn apply_tick_forces(
    vehicles: &mut Vec<Vehicle>,
    tires: &Vec<Tire>,
    frames: &Vec<TireFrame>,
    throttle: i128,
    curve_logs: &Vec<i128>,
)
    requires
        tick_inputs_wf(old(vehicles)@, tires@, frames@, throttle as int, curve_logs@),
    ensures
        final(vehicles).len() == old(vehicles).len(),
        forall|v: int|
            0 <= v < final(vehicles).len() ==> #[trigger] final(vehicles)[v] == with_net(
                old(vehicles)[v],
                tick_contributions(old(vehicles)@, tires@, frames@, throttle as int, curve_logs@),
                v,
            ),
{
    let cs = collect_contributions(vehicles, tires, frames, throttle, curve_logs);
    sum_all_forces(vehicles, &cs);
}

/// No model makes a force at an airborne tire.
proof fn lemma_airborne_model(
    m: ForceModel,
    vs: Seq<Vehicle>,
    ts: Seq<Tire>,
    fs: Seq<TireFrame>,
    throttle: int,
    logs: Seq<i128>,
    n: int,
)
    requires
        n <= ts.len(),
        forall|i: int| 0 <= i < ts.len() ==> (#[trigger] ts[i]).distance_to_ground is None,
    ensures
        model_contributions(m, vs, ts, fs, throttle, logs, n) == Seq::<Contribution>::empty(),
    decreases n,
{
    if n > 0 {
        lemma_airborne_model(m, vs, ts, fs, throttle, logs, n - 1);
        assert(ts[n - 1].distance_to_ground is None);
        if ts[n - 1].vehicle < vs.len() {
            assert(model_force(m, vs, ts, fs, throttle, logs, n - 1) is None);
            assert(Seq::<Contribution>::empty() + Seq::<Contribution>::empty() =~= Seq::<Contribution>::empty());
        }
    }
}

/// With every tire airborne a tick produces no contribution, and every vehicle
/// gets exactly zero force and torque, whatever the throttle and curve inputs.
pub proof fn lemma_airborne_no_force(
    vs: Seq<Vehicle>,
    ts: Seq<Tire>,
    fs: Seq<TireFrame>,
    throttle: int,
    logs: Seq<i128>,
    v: int,
    center: IVec,
)
    requires
        forall|i: int| 0 <= i < ts.len() ==> (#[trigger] ts[i]).distance_to_ground is None,
    ensures
        tick_contributions(vs, ts, fs, throttle, logs) == Seq::<Contribution>::empty(),
        net_force_of(tick_contributions(vs, ts, fs, throttle, logs), v) == vzero(),
        net_torque_of(tick_contributions(vs, ts, fs, throttle, logs), v, center) == vzero(),
{
    let n = ts.len() as int;
    lemma_airborne_model(ForceModel::Suspension, vs, ts, fs, throttle, logs, n);
    lemma_airborne_model(ForceModel::Drive, vs, ts, fs, throttle, logs, n);
    lemma_airborne_model(ForceModel::Friction, vs, ts, fs, throttle, logs, n);
    lemma_airborne_model(ForceModel::Cornering, vs, ts, fs, throttle, logs, n);
    assert(tick_contributions(vs, ts, fs, throttle, logs) =~= Seq::<Contribution>::empty());
}

/// Vehicle `v` has no velocity, and every tire of it sits at the spring's
/// rest length.
pub open spec fn vehicle_at_rest(vs: Seq<Vehicle>, ts: Seq<Tire>, v: int) -> bool {
    &&& 0 <= v < vs.len()
    &&& vs[v].body.linvel@ == vzero()
    &&& vs[v].body.angvel@ == vzero()
    &&& forall|i: int|
        0 <= i < ts.len() && (#[trigger] ts[i]).vehicle == v ==> ts[i].distance_to_ground == Some(
            vs[v].config.spring_offset,
        )
}

proof fn lemma_rest_tire(
    m: ForceModel,
    vs: Seq<Vehicle>,
    ts: Seq<Tire>,
    fs: Seq<TireFrame>,
    logs: Seq<i128>,
    i: int,
)
    requires
        0 <= i < ts.len(),
        vehicle_at_rest(vs, ts, ts[i].vehicle as int),
    ensures
        model_force(m, vs, ts, fs, 0, logs, i) matches Some(f) ==> f == vzero(),
{
    let t = ts[i];
    let veh = vs[t.vehicle as int];
    let fr = fs[i];
    let arm = vsub(fr.position@, veh.body.center@);
    lemma_cross_zero(arm);
    assert(point_velocity(veh.body, fr.position@) == vzero());
    assert(speed_sq(veh.body.linvel@) == 0) by {
        let z = veh.body.linvel@;
        assert(z.0 * z.0 + z.1 * z.1 + z.2 * z.2 == 0) by (nonlinear_arith)
            requires
                z.0 == 0 && z.1 == 0 && z.2 == 0,
        ;
    }
    lemma_fx_mul_neg(0, veh.config.spring_power as int);
    lemma_fx_mul_neg(0, veh.config.shock as int);
    lemma_fx_mul_neg(0, t.grip as int);
    lemma_fx_mul_neg(0, (veh.body.mass as int) / tire_count(ts, t.vehicle as int, false));
    lemma_fx_mul_neg(fr.up.x as int, 0);
    lemma_fx_mul_neg(fr.up.y as int, 0);
    lemma_fx_mul_neg(fr.up.z as int, 0);
    lemma_fx_mul_neg(fr.forward.x as int, 0);
    lemma_fx_mul_neg(fr.forward.y as int, 0);
    lemma_fx_mul_neg(fr.forward.z as int, 0);
    lemma_fx_mul_neg(fr.lateral.x as int, 0);
    lemma_fx_mul_neg(fr.lateral.y as int, 0);
    lemma_fx_mul_neg(fr.lateral.z as int, 0);
    match crate::drivetrain::available_power(
        veh.body.linvel@,
        veh.config.max_speed as int,
        veh.config.max_force as int,
        logs[t.vehicle as int] as int,
    ) {
        Some(p) => lemma_fx_mul_neg(0, p),
        None => {},
    }
}

proof fn lemma_rest_model(
    m: ForceModel,
    vs: Seq<Vehicle>,
    ts: Seq<Tire>,
    fs: Seq<TireFrame>,
    logs: Seq<i128>,
    v: int,
    n: int,
)
    requires
        n <= ts.len(),
        vehicle_at_rest(vs, ts, v),
    ensures
        forall|j: int|
            0 <= j < model_contributions(m, vs, ts, fs, 0, logs, n).len() && model_contributions(
                m,
                vs,
                ts,
                fs,
                0,
                logs,
                n,
            )[j].vehicle == v ==> (#[trigger] model_contributions(m, vs, ts, fs, 0, logs, n)[j]).force@
                == vzero(),
    decreases n,
{
    if n > 0 {
        lemma_rest_model(m, vs, ts, fs, logs, v, n - 1);
        if ts[n - 1].vehicle < vs.len() {
            let prev = model_contributions(m, vs, ts, fs, 0, logs, n - 1);
            let e = emitted(ts[n - 1].vehicle, fs[n - 1].position, model_force(m, vs, ts, fs, 0, logs, n - 1));
            let cur = model_contributions(m, vs, ts, fs, 0, logs, n);
            assert(cur == prev + e);
            if ts[n - 1].vehicle == v {
                lemma_rest_tire(m, vs, ts, fs, logs, n - 1);
            }
            assert forall|j: int| 0 <= j < cur.len() && cur[j].vehicle == v implies (#[trigger] cur[j]).force@
                == vzero() by {
                if j < prev.len() {
                    assert(cur[j] == prev[j]);
                } else {
                    assert(cur[j] == e[j - prev.len()]);
                    assert(e.len() == 1);
                    assert(e[0].vehicle == ts[n - 1].vehicle);
                    assert(model_force(m, vs, ts, fs, 0, logs, n - 1) == Some(vzero()));
                    assert(vec_of(vzero())@ == vzero());
                }
            }
        } else {
            assert(model_contributions(m, vs, ts, fs, 0, logs, n) == model_contributions(
                m,
                vs,
                ts,
                fs,
                0,
                logs,
                n - 1,
            ));
        }
    }
}

/// Without throttle, a vehicle at rest whose tires all sit at the spring's
/// rest length gets exactly zero force and torque from a tick, whatever the
/// other vehicles do.
pub proof fn lemma_at_rest_no_force(
    vs: Seq<Vehicle>,
    ts: Seq<Tire>,
    fs: Seq<TireFrame>,
    logs: Seq<i128>,
    v: int,
    center: IVec,
)
    requires
        vehicle_at_rest(vs, ts, v),
    ensures
        net_force_of(tick_contributions(vs, ts, fs, 0, logs), v) == vzero(),
        net_torque_of(tick_contributions(vs, ts, fs, 0, logs), v, center) == vzero(),
{
    let n = ts.len() as int;
    lemma_rest_model(ForceModel::Suspension, vs, ts, fs, logs, v, n);
    lemma_rest_model(ForceModel::Drive, vs, ts, fs, logs, v, n);
    lemma_rest_model(ForceModel::Friction, vs, ts, fs, logs, v, n);
    lemma_rest_model(ForceModel::Cornering, vs, ts, fs, logs, v, n);
    let cs = tick_contributions(vs, ts, fs, 0, logs);
    assert forall|j: int| 0 <= j < cs.len() && cs[j].vehicle == v implies (#[trigger] cs[j]).force@ == vzero() by {
        let a = model_contributions(ForceModel::Suspension, vs, ts, fs, 0, logs, n);
        let b = model_contributions(ForceModel::Drive, vs, ts, fs, 0, logs, n);
        let c = model_contributions(ForceModel::Friction, vs, ts, fs, 0, logs, n);
        let d = model_contributions(ForceModel::Cornering, vs, ts, fs, 0, logs, n);
        if j < a.len() {
            assert(cs[j] == a[j]);
        } else if j < a.len() + b.len() {
            assert(cs[j] == b[j - a.len()]);
        } else if j < a.len() + b.len() + c.len() {
            assert(cs[j] == c[j - a.len() - b.len()]);
        } else {
            assert(cs[j] == d[j - a.len() - b.len() - c.len()]);
        }
    }
    lemma_aggregate_zero_forces(cs, v, center);
}

/// What a tick writes to a vehicle replaces what it held: the result does not
/// depend on the force and torque left from an earlier tick.
pub proof fn lemma_no_carry_over(a: Vehicle, b: Vehicle, cs: Seq<Contribution>, index: int)
    requires
        a.body.center == b.body.center,
    ensures
        with_net(a, cs, index).body.force == with_net(b, cs, index).body.force,
        with_net(a, cs, index).body.torque == with_net(b, cs, index).body.torque,
{
}

} // verus!
