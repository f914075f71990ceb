//! The force aggregator: sums one tick's contributions per vehicle into a net
//! force and a net torque about the vehicle's centre of mass.

use vstd::prelude::*;
use crate::fixed::{lemma_cross_fits, vadd, vcross, vfits, vsub, vzero, IVec, Vec3, LIMIT};
use crate::forces::FORCE_LIMIT;
use crate::model::{Contribution, NetForce};

verus! {

broadcast use vstd::seq_lib::group_to_multiset_ensures;

/// Most contributions one tick may hold.
pub const MAX_CONTRIBUTIONS: usize = 1_000_000;

/// Bound on one contribution's torque component.
pub const TORQUE_TERM_BOUND: i128 = 4_000_000_000_000_000_000_000_000_000_000;

pub open spec fn contribution_wf(c: Contribution) -> bool {
    vfits(c.point@, LIMIT as int) && vfits(c.force@, FORCE_LIMIT as int)
}

/// Sum of `f` over the contributions, in order.
pub open spec fn sum_of(cs: Seq<Contribution>, f: spec_fn(Contribution) -> IVec) -> IVec
    decreases cs.len(),
{
    if cs.len() == 0 {
        vzero()
    } else {
        vadd(sum_of(cs.drop_last(), f), f(cs.last()))
    }
}

/// What a contribution adds to the net force of vehicle `v`.
pub open spec fn force_term(c: Contribution, v: int) -> IVec {
    if c.vehicle == v {
        c.force@
    } else {
        vzero()
    }
}

/// What a contribution adds to the torque of vehicle `v` about `center`:
/// lever arm cross force.
pub open spec fn torque_term(c: Contribution, v: int, center: IVec) -> IVec {
    if c.vehicle == v {
        vcross(vsub(c.point@, center), c.force@)
    } else {
        vzero()
    }
}

pub open spec fn net_force_of(cs: Seq<Contribution>, v: int) -> IVec {
    sum_of(cs, |c: Contribution| force_term(c, v))
}

pub open spec fn net_torque_of(cs: Seq<Contribution>, v: int, center: IVec) -> IVec {
    sum_of(cs, |c: Contribution| torque_term(c, v, center))
}

proof fn lemma_sum_remove(cs: Seq<Contribution>, f: spec_fn(Contribution) -> IVec, i: int)
    requires
        0 <= i < cs.len(),
    ensures
        sum_of(cs, f) == vadd(sum_of(cs.remove(i), f), f(cs[i])),
    decreases cs.len(),
{
    if i == cs.len() - 1 {
        assert(cs.remove(i) =~= cs.drop_last());
    } else {
        lemma_sum_remove(cs.drop_last(), f, i);
        assert(cs.remove(i).drop_last() =~= cs.drop_last().remove(i));
        assert(cs.remove(i).last() == cs.last());
    }
}

/// A sum over contributions does not depend on their order.
pub proof fn lemma_sum_permutation(a: Seq<Contribution>, b: Seq<Contribution>, f: spec_fn(Contribution) -> IVec)
    requires
        a.to_multiset() == b.to_multiset(),
    ensures
        sum_of(a, f) == sum_of(b, f),
    decreases a.len(),
{
    a.to_multiset_ensures();
    b.to_multiset_ensures();
    if a.len() == 0 {
        assert(b.len() == 0);
    } else {
        let x = a.last();
        assert(a.to_multiset().count(x) > 0) by {
            assert(a.contains(x)) by {
                assert(a[a.len() - 1] == x);
            }
        }
        assert(b.contains(x));
        let i = choose|i: int| 0 <= i < b.len() && b[i] == x;
        lemma_sum_remove(b, f, i);
        assert(a.drop_last() =~= a.remove(a.len() - 1));
        assert(a.remove(a.len() - 1).to_multiset() =~= a.to_multiset().remove(x));
        assert(b.remove(i).to_multiset() =~= b.to_multiset().remove(x));
        lemma_sum_permutation(a.drop_last(), b.remove(i), f);
    }
}

/// The net force and torque of a vehicle do not depend on the order in which
/// its tick's contributions were produced.
pub proof fn lemma_aggregate_order_independent(a: Seq<Contribution>, b: Seq<Contribution>, v: int, center: IVec)
    requires
        a.to_multiset() == b.to_multiset(),
    ensures
        net_force_of(a, v) == net_force_of(b, v),
        net_torque_of(a, v, center) == net_torque_of(b, v, center),
{
    lemma_sum_permutation(a, b, |c: Contribution| force_term(c, v));
    lemma_sum_permutation(a, b, |c: Contribution| torque_term(c, v, center));
}

/// A vehicle that no contribution names gets exactly zero force and torque;
/// so does every vehicle of a tick with no contributions.
pub proof fn lemma_aggregate_absent_vehicle(cs: Seq<Contribution>, v: int, center: IVec)
    requires
        forall|j: int| 0 <= j < cs.len() ==> cs[j].vehicle != v,
    ensures
        net_force_of(cs, v) == vzero(),
        net_torque_of(cs, v, center) == vzero(),
    decreases cs.len(),
{
    if cs.len() > 0 {
        lemma_aggregate_absent_vehicle(cs.drop_last(), v, center);
    }
}

/// When every contribution naming a vehicle has no force, the vehicle gets
/// zero force and torque, whatever the others carry.
pub proof fn lemma_aggregate_zero_forces(cs: Seq<Contribution>, v: int, center: IVec)
    requires
        forall|j: int| 0 <= j < cs.len() && cs[j].vehicle == v ==> (#[trigger] cs[j]).force@ == vzero(),
    ensures
        net_force_of(cs, v) == vzero(),
        net_torque_of(cs, v, center) == vzero(),
    decreases cs.len(),
{
    if cs.len() > 0 {
        lemma_aggregate_zero_forces(cs.drop_last(), v, center);
        crate::fixed::lemma_cross_zero(vsub(cs.last().point@, center));
    }
}

/// The contributions that name vehicle `v`, in order.
pub open spec fn contributions_of(cs: Seq<Contribution>, v: int) -> Seq<Contribution>
    decreases cs.len(),
{
    if cs.len() == 0 {
        cs
    } else if cs.last().vehicle == v {
        contributions_of(cs.drop_last(), v).push(cs.last())
    } else {
        contributions_of(cs.drop_last(), v)
    }
}

proof fn lemma_net_of_own(cs: Seq<Contribution>, v: int, center: IVec)
    ensures
        net_force_of(cs, v) == net_force_of(contributions_of(cs, v), v),
        net_torque_of(cs, v, center) == net_torque_of(contributions_of(cs, v), v, center),
    decreases cs.len(),
{
    if cs.len() > 0 {
        lemma_net_of_own(cs.drop_last(), v, center);
        let rest = contributions_of(cs.drop_last(), v);
        if cs.last().vehicle == v {
            assert(rest.push(cs.last()).drop_last() =~= rest);
            assert(rest.push(cs.last()).last() == cs.last());
        }
    }
}

/// A vehicle's net force and torque depend only on the contributions that
/// name it: other vehicles' contributions do not leak into it.
pub proof fn lemma_aggregate_isolated(a: Seq<Contribution>, b: Seq<Contribution>, v: int, center: IVec)
    requires
        contributions_of(a, v) == contributions_of(b, v),
    ensures
        net_force_of(a, v) == net_force_of(b, v),
        net_torque_of(a, v, center) == net_torque_of(b, v, center),
{
    lemma_net_of_own(a, v, center);
    lemma_net_of_own(b, v, center);
}

/// Net force and torque of every vehicle, from its centre of mass and the
/// tick's contributions. A contribution that names no vehicle of `centers`
/// is left out.
pub fn aggregate(centers: &Vec<Vec3>, contributions: &Vec<Contribution>) -> (r: Vec<NetForce>)
    requires
        contributions.len() <= MAX_CONTRIBUTIONS,
        forall|v: int| 0 <= v < centers.len() ==> vfits(#[trigger] centers[v]@, LIMIT as int),
        forall|j: int| 0 <= j < contributions.len() ==> contribution_wf(#[trigger] contributions[j]),
    ensures
        r.len() == centers.len(),
        forall|v: int|
            0 <= v < r.len() ==> (#[trigger] r[v]).force@ == net_force_of(contributions@, v)
                && r[v].torque@ == net_torque_of(contributions@, v, centers[v]@),
{
    let mut r: Vec<NetForce> = Vec::new();
    let mut v: usize = 0;
    while v < centers.len()
        invariant
            v <= centers.len(),
            r.len() == v,
            forall|u: int| 0 <= u < v ==> (#[trigger] r[u]).force@ == vzero() && r[u].torque@ == vzero(),
        decreases centers.len() - v,
    {
        r.push(NetForce { force: Vec3::zero(), torque: Vec3::zero() });
        v = v + 1;
    }
    let mut j: usize = 0;
    while j < contributions.len()
        invariant
            j <= contributions.len(),
            contributions.len() <= MAX_CONTRIBUTIONS,
            r.len() == centers.len(),
            forall|u: int| 0 <= u < centers.len() ==> vfits(#[trigger] centers[u]@, LIMIT as int),
            forall|k: int| 0 <= k < contributions.len() ==> contribution_wf(#[trigger] contributions[k]),
            forall|u: int|
                0 <= u < r.len() ==> (#[trigger] r[u]).force@ == net_force_of(contributions@.take(j as int), u)
                    && r[u].torque@ == net_torque_of(contributions@.take(j as int), u, centers[u]@),
            forall|u: int|
                0 <= u < r.len() ==> vfits((#[trigger] r[u]).force@, j * 1_000_000_000_000_000_000_000_000)
                    && vfits(r[u].torque@, j * 4_000_000_000_000_000_000_000_000_000_000),
        decreases contributions.len() - j,
    {
        let c = contributions[j];
        let ghost prefix = contributions@.take(j as int);
        let ghost next = contributions@.take(j as int + 1);
        proof {
            assert(next.drop_last() =~= prefix);
            assert(next.last() == c);
        }
        if c.vehicle < centers.len() {
            let k = c.vehicle;
            let center = centers[k];
            let arm = c.point.sub(&center);
            proof {
                lemma_cross_fits(arm@, c.force@, 2 * LIMIT as int, FORCE_LIMIT as int);
            }
            let turn = arm.cross(&c.force);
            let old_net = r[k];
            let updated = NetForce { force: old_net.force.add(&c.force), torque: old_net.torque.add(&turn) };
            r.set(k, updated);
        }
        proof {
            assert forall|u: int| 0 <= u < r.len() implies (#[trigger] r[u]).force@ == net_force_of(next, u)
                && r[u].torque@ == net_torque_of(next, u, centers[u]@) by {
                if u != c.vehicle {
                    assert(force_term(c, u) == vzero());
                }
            }
        }
        j = j + 1;
    }
    proof {
        assert(contributions@.take(contributions.len() as int) =~= contributions@);
    }
    r
}

} // verus!
