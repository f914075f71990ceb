//! Driver input: throttle from keys and analog triggers, steering from keys
//! and analog sticks, the reset request, and steering actuation.
//! Wherever both are given, a nonzero analog value overrides the digital one.

use vstd::prelude::*;
use crate::fixed::{fits, fx_mul, lemma_fx_mul_fits, mul_fx, LIMIT, SCALE};
use crate::model::{Tire, VehicleConfig};

verus! {

/// Gamepad buttons that the controls read.
#[derive(Clone, Copy, Debug, PartialEq, Eq, Structural)]
pub enum PadButton {
    RightTrigger,
    LeftTrigger,
    Start,
    Other,
}

/// A gamepad button changed; `value` is how far it is pressed, `0` to `SCALE`.
#[derive(Clone, Copy, Debug, PartialEq, Eq, Structural)]
pub struct ButtonEvent {
    pub button: PadButton,
    pub value: i128,
}

/// Last known positions of the analog triggers; the left one is stored
/// negated, as it brakes and reverses.
#[derive(Clone, Copy, Debug, PartialEq, Eq, Structural)]
pub struct TriggerState {
    pub left: i128,
    pub right: i128,
}

/// Digital throttle: forward wins over backward.
pub open spec fn digital_throttle(forward: bool, backward: bool) -> int {
    if forward {
        SCALE as int
    } else if backward {
        -SCALE
    } else {
        0
    }
}

pub open spec fn after_event(s: TriggerState, e: ButtonEvent) -> TriggerState {
    match e.button {
        PadButton::RightTrigger => TriggerState { right: e.value, ..s },
        PadButton::LeftTrigger => TriggerState { left: (-e.value) as i128, ..s },
        _ => s,
    }
}

pub open spec fn throttle_of(s: TriggerState, forward: bool, backward: bool) -> int {
    if s.left != 0 {
        s.left as int
    } else if s.right != 0 {
        s.right as int
    } else {
        digital_throttle(forward, backward)
    }
}

impl TriggerState {
    pub open spec fn wf(&self) -> bool {
        -SCALE <= self.left <= 0 && 0 <= self.right <= SCALE
    }

    pub fn new() -> (r: TriggerState)
        ensures
            r.left == 0 && r.right == 0,
            r.wf(),
    {
        TriggerState { left: 0, right: 0 }
    }

    /// Takes in one gamepad event; only the two triggers change the state.
    pub fn observe(&mut self, e: ButtonEvent)
        requires
            0 <= e.value <= SCALE,
        ensures
            *final(self) == after_event(*old(self), e),
            old(self).wf() ==> final(self).wf(),
    {
        match e.button {
            PadButton::RightTrigger => {
                self.right = e.value;
            },
            PadButton::LeftTrigger => {
                self.left = -e.value;
            },
            _ => {},
        }
    }

    /// Signed throttle in `[-SCALE, SCALE]`: the left trigger if pressed, else
    /// the right trigger if pressed, else the keys.
    pub fn throttle(&self, forward: bool, backward: bool) -> (r: i128)
        requires
            self.wf(),
        ensures
            r == throttle_of(*self, forward, backward),
            fits(r as int, SCALE as int),
    {
        if self.left != 0 {
            self.left
        } else if self.right != 0 {
            self.right
        } else if forward {
            SCALE
        } else if backward {
            -SCALE
        } else {
            0
        }
    }
}

/// Digital steering: right wins over left; right is negative.
pub open spec fn digital_steering(right: bool, left: bool) -> int {
    if right {
        -SCALE
    } else if left {
        SCALE as int
    } else {
        0
    }
}

/// The last connected stick that is off centre, negated; `None` if none is.
pub open spec fn stick_steering(sticks: Seq<Option<i128>>) -> Option<int>
    decreases sticks.len(),
{
    if sticks.len() == 0 {
        None
    } else {
        match sticks.last() {
            Some(x) if x != 0 => Some(-x),
            _ => stick_steering(sticks.drop_last()),
        }
    }
}

pub open spec fn steering_of(right: bool, left: bool, sticks: Seq<Option<i128>>) -> int {
    match stick_steering(sticks) {
        Some(s) => s,
        None => digital_steering(right, left),
    }
}

/// Steering command in `[-SCALE, SCALE]` from the keys and the horizontal
/// position of each gamepad's left stick (`None` where a pad reports none).
pub fn steering_input(right: bool, left: bool, sticks: &Vec<Option<i128>>) -> (r: i128)
    requires
        forall|i: int| 0 <= i < sticks.len() ==> (#[trigger] sticks[i] matches Some(x) ==> fits(x as int, SCALE as int)),
    ensures
        r == steering_of(right, left, sticks@),
        fits(r as int, SCALE as int),
{
    let mut r: i128 = if right {
        -SCALE
    } else if left {
        SCALE
    } else {
        0
    };
    let mut i: usize = 0;
    while i < sticks.len()
        invariant
            i <= sticks.len(),
            forall|k: int| 0 <= k < sticks.len() ==> (#[trigger] sticks[k] matches Some(x) ==> fits(x as int, SCALE as int)),
            r == steering_of(right, left, sticks@.take(i as int)),
            fits(r as int, SCALE as int),
        decreases sticks.len() - i,
    {
        proof {
            assert(sticks@.take(i as int + 1).drop_last() =~= sticks@.take(i as int));
        }
        match sticks[i] {
            Some(x) => if x != 0 {
                r = -x;
            },
            None => {},
        }
        i = i + 1;
    }
    proof {
        assert(sticks@.take(sticks.len() as int) =~= sticks@);
    }
    r
}

/// Steering angle for a command in `[-SCALE, SCALE]`.
pub open spec fn steer_angle(input: int, turn_radius: int) -> int {
    fx_mul(input, turn_radius)
}

pub open spec fn steered(tire: Tire, configs: Seq<VehicleConfig>, input: int) -> Tire {
    if tire.turns && tire.vehicle < configs.len() {
        Tire { yaw: steer_angle(input, configs[tire.vehicle as int].turn_radius as int) as i128, ..tire }
    } else {
        tire
    }
}

/// Points every steerable tire at the commanded fraction of its vehicle's
/// largest steering angle; other tires are left as they are.
pub fn turn_tires(tires: &mut Vec<Tire>, configs: &Vec<VehicleConfig>, input: i128)
    requires
        fits(input as int, SCALE as int),
        forall|v: int| 0 <= v < configs.len() ==> (#[trigger] configs[v]).wf(),
    ensures
        final(tires).len() == old(tires).len(),
        forall|i: int| 0 <= i < final(tires).len() ==> #[trigger] final(tires)[i] == steered(old(tires)[i], configs@, input as int),
{
    let mut i: usize = 0;
    while i < tires.len()
        invariant
            tires.len() == old(tires).len(),
            i <= tires.len(),
            fits(input as int, SCALE as int),
            forall|v: int| 0 <= v < configs.len() ==> (#[trigger] configs[v]).wf(),
            forall|k: int| 0 <= k < i ==> #[trigger] tires[k] == steered(old(tires)[k], configs@, input as int),
            forall|k: int| i <= k < tires.len() ==> #[trigger] tires[k] == old(tires)[k],
        decreases tires.len() - i,
    {
        let t = tires[i];
        if t.turns && t.vehicle < configs.len() {
            let radius = configs[t.vehicle].turn_radius;
            proof {
                lemma_fx_mul_fits(input as int, radius as int, SCALE as int, LIMIT as int);
            }
            tires.set(i, Tire { yaw: mul_fx(input, radius), ..t });
        }
        i = i + 1;
    }
}

/// Reset when its key was just pressed or any gamepad's start button went down.
pub open spec fn reset_wanted(key: bool, events: Seq<ButtonEvent>) -> bool {
    key || exists|i: int| 0 <= i < events.len() && events[i].button == PadButton::Start && events[i].value != 0
}

pub fn reset_requested(key: bool, events: &Vec<ButtonEvent>) -> (r: bool)
    ensures
        r == reset_wanted(key, events@),
{
    let mut found = key;
    let mut i: usize = 0;
    while i < events.len()
        invariant
            i <= events.len(),
            found == (key || exists|k: int| 0 <= k < i && events[k].button == PadButton::Start && events[k].value != 0),
        decreases events.len() - i,
    {
        if events[i].button == PadButton::Start && events[i].value != 0 {
            found = true;
        }
        i = i + 1;
    }
    found
}

} // verus!
