//! Ground contact: turns each tire's downward probe into its contact state.

use vstd::prelude::*;
use crate::fixed::{fits, LIMIT};
use crate::model::{Tire, VehicleConfig};

verus! {

/// Radius of the wheel mesh: 0.5.
pub const WHEEL_RADIUS: i128 = 500;

/// Contact distance from a probe result: a hit counts only at a distance from
/// zero to the spring's rest length.
pub open spec fn contact_distance(hit: Option<i128>, spring_offset: i128) -> Option<i128> {
    match hit {
        Some(d) => if 0 <= d <= spring_offset {
            Some(d)
        } else {
            None
        },
        None => None,
    }
}

pub fn ground_contact(hit: Option<i128>, spring_offset: i128) -> (r: Option<i128>)
    ensures
        r == contact_distance(hit, spring_offset),
        r is None <==> !(hit matches Some(d) && 0 <= d <= spring_offset),
        r matches Some(d) ==> 0 <= d <= spring_offset && hit == Some(d),
{
    match hit {
        Some(d) => if 0 <= d && d <= spring_offset {
            Some(d)
        } else {
            None
        },
        None => None,
    }
}

/// The tire after this tick's probe: its contact state, and nothing else, is
/// replaced. A tire whose vehicle does not exist gets no contact.
pub open spec fn probed(tire: Tire, configs: Seq<VehicleConfig>, hit: Option<i128>) -> Tire {
    Tire {
        distance_to_ground: if tire.vehicle < configs.len() {
            contact_distance(hit, configs[tire.vehicle as int].spring_offset)
        } else {
            None
        },
        ..tire
    }
}

/// Records, for every tire, what its probe found; `hits[i]` is the probe of
/// `tires[i]`, cast along its down axis for its vehicle's spring length.
pub fn calculate_tire_distances_to_ground(
    tires: &mut Vec<Tire>,
    configs: &Vec<VehicleConfig>,
    hits: &Vec<Option<i128>>,
)
    requires
        old(tires).len() == hits.len(),
    ensures
        final(tires).len() == old(tires).len(),
        forall|i: int|
            0 <= i < final(tires).len() ==> #[trigger] final(tires)[i] == probed(
                old(tires)[i],
                configs@,
                hits[i],
            ),
{
    let mut i: usize = 0;
    while i < tires.len()
        invariant
            tires.len() == old(tires).len(),
            tires.len() == hits.len(),
            i <= tires.len(),
            forall|k: int| 0 <= k < i ==> #[trigger] tires[k] == probed(old(tires)[k], configs@, hits[k]),
            forall|k: int| i <= k < tires.len() ==> #[trigger] tires[k] == old(tires)[k],
        decreases tires.len() - i,
    {
        let t = tires[i];
        let distance = if t.vehicle < configs.len() {
            ground_contact(hits[i], configs[t.vehicle].spring_offset)
        } else {
            None
        };
        tires.set(i, Tire { distance_to_ground: distance, ..t });
        i = i + 1;
    }
}

/// Height of the wheel mesh below the tire's mount: resting on the ground
/// where there is contact, else hanging at full spring travel.
pub open spec fn wheel_height(distance: Option<i128>, spring_offset: i128) -> int {
    match distance {
        Some(d) => WHEEL_RADIUS - d,
        None => WHEEL_RADIUS - spring_offset,
    }
}

pub fn wheel_mesh_height(distance: Option<i128>, spring_offset: i128) -> (r: i128)
    requires
        distance matches Some(d) ==> fits(d as int, LIMIT as int),
        fits(spring_offset as int, LIMIT as int),
    ensures
        r == wheel_height(distance, spring_offset),
{
    match distance {
        Some(d) => WHEEL_RADIUS - d,
        None => WHEEL_RADIUS - spring_offset,
    }
}

} // verus!
