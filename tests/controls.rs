use vehicle_dynamics::controls::{
    reset_requested, steering_input, turn_tires, ButtonEvent, PadButton, TriggerState,
};
use vehicle_dynamics::model::Tire;
use vehicle_dynamics::presets::{car_config, trailer_config};

#[test]
fn keys_give_digital_throttle() {
    let s = TriggerState::new();
    assert_eq!(s.throttle(true, false), 1000);
    assert_eq!(s.throttle(false, true), -1000);
    assert_eq!(s.throttle(true, true), 1000);
    assert_eq!(s.throttle(false, false), 0);
}

#[test]
fn triggers_override_keys() {
    let mut s = TriggerState::new();
    s.observe(ButtonEvent { button: PadButton::RightTrigger, value: 600 });
    assert_eq!(s.throttle(false, true), 600);
    s.observe(ButtonEvent { button: PadButton::LeftTrigger, value: 250 });
    assert_eq!(s.throttle(true, false), -250);
    s.observe(ButtonEvent { button: PadButton::LeftTrigger, value: 0 });
    assert_eq!(s.throttle(false, false), 600);
    s.observe(ButtonEvent { button: PadButton::RightTrigger, value: 0 });
    assert_eq!(s.throttle(true, false), 1000);
    s.observe(ButtonEvent { button: PadButton::Start, value: 1000 });
    assert_eq!(s, TriggerState::new());
}

#[test]
fn keys_give_digital_steering() {
    assert_eq!(steering_input(true, false, &vec![]), -1000);
    assert_eq!(steering_input(false, true, &vec![]), 1000);
    assert_eq!(steering_input(true, true, &vec![]), -1000);
    assert_eq!(steering_input(false, false, &vec![]), 0);
}

#[test]
fn stick_overrides_keys() {
    assert_eq!(steering_input(true, false, &vec![Some(300)]), -300);
    assert_eq!(steering_input(true, false, &vec![Some(0), None]), -1000);
    assert_eq!(steering_input(false, false, &vec![Some(-200), Some(0)]), 200);
    assert_eq!(steering_input(false, false, &vec![Some(-200), Some(500)]), -500);
}

#[test]
fn steering_turns_only_steerable_tires() {
    let configs = vec![car_config(), trailer_config()];
    let mut tires = vec![
        Tire { turns: true, ..Tire::default() },
        Tire { turns: false, yaw: 7, ..Tire::default() },
        Tire { turns: true, vehicle: 1, ..Tire::default() },
        Tire { turns: true, vehicle: 5, yaw: 3, ..Tire::default() },
    ];
    turn_tires(&mut tires, &configs, 1000);
    assert_eq!(tires[0].yaw, 458);
    assert_eq!(tires[1].yaw, 7);
    assert_eq!(tires[2].yaw, 0);
    assert_eq!(tires[3].yaw, 3);
    turn_tires(&mut tires, &configs, -500);
    assert_eq!(tires[0].yaw, -229);
}

#[test]
fn reset_from_key_or_start_button() {
    assert!(reset_requested(true, &vec![]));
    assert!(!reset_requested(false, &vec![]));
    let start = ButtonEvent { button: PadButton::Start, value: 1000 };
    let released = ButtonEvent { button: PadButton::Start, value: 0 };
    let other = ButtonEvent { button: PadButton::Other, value: 1000 };
    assert!(reset_requested(false, &vec![other, start]));
    assert!(!reset_requested(false, &vec![released, other]));
}

#[test]
fn default_tire_is_airborne_with_default_grip() {
    let t = Tire::default();
    assert_eq!(t.grip, 700);
    assert_eq!(t.distance_to_ground, None);
    assert!(!t.connected_to_engine && !t.turns);
}
