use forge_lib::entities::ability_pickup::AbilityType;
use forge_lib::entities::door::{on_animation_finished, DoorAnimation};
use forge_lib::entities::dummy::ShakeCounter;
use forge_lib::entities::edge_detector::EdgeDetector;
use forge_lib::entities::input_hints::{get_controller_type, get_hint_frame, on_hint_change, ControllerType};
use forge_lib::entities::switch::{on_ready, on_switch, unique_uid};

#[test]
fn door_comes_to_rest() {
    assert_eq!(on_animation_finished("open"), Some(DoorAnimation::Opened));
    assert_eq!(on_animation_finished("close"), Some(DoorAnimation::Closed));
    assert_eq!(on_animation_finished("opened"), None);
    assert_eq!(DoorAnimation::Closed.name(), "closed");
}

#[test]
fn switch_toggles_door_and_stores_it() {
    let a = on_switch(false, true);
    assert!(a.flip_h);
    assert_eq!(a.door, Some((DoorAnimation::Open, true)));
    let b = on_switch(a.flip_h, true);
    assert!(!b.flip_h);
    assert_eq!(b.door, Some((DoorAnimation::Close, false)));
    let c = on_switch(false, false);
    assert!(c.flip_h);
    assert_eq!(c.door, None);
    assert_eq!(unique_uid("uid://abc", "Switch2"), "uid://abc/Switch2");
    assert!(on_ready(false));
    assert!(!on_ready(true));
}

#[test]
fn edge_detector_reports_leaving_ground_once() {
    let mut d = EdgeDetector::new(true);
    assert!(!d.physics_process(true));
    assert!(d.physics_process(false));
    assert!(!d.physics_process(false));
    assert!(!d.physics_process(true));
}

#[test]
fn controllers_and_hints() {
    assert_eq!(get_controller_type("xbox 360 controller"), ControllerType::Xbox);
    assert_eq!(get_controller_type("ps5 controller"), ControllerType::PlayStation);
    assert_eq!(get_controller_type("nintendo switch pro"), ControllerType::Xbox);
    assert_eq!(get_controller_type("generic pad"), ControllerType::Unknown);
    assert_eq!(get_controller_type("Xbox"), ControllerType::Unknown);
    assert_eq!(get_hint_frame(ControllerType::Keyboard, "interact"), 15);
    assert_eq!(get_hint_frame(ControllerType::PlayStation, "jump"), 1);
    assert_eq!(get_hint_frame(ControllerType::Xbox, "up"), 4);
    assert_eq!(get_hint_frame(ControllerType::Unknown, "interact"), 0);
    assert_eq!(get_hint_frame(ControllerType::Keyboard, "fly"), 0);
    assert_eq!(on_hint_change(ControllerType::Xbox, "interact"), Some(8));
    assert_eq!(on_hint_change(ControllerType::Xbox, ""), None);
}

#[test]
fn ability_animation_names() {
    assert_eq!(AbilityType::DoubleJump.animation_name(), "double_jump");
    assert_eq!(AbilityType::MorphRoll.animation_name(), "morph_roll");
}

#[test]
fn dummy_wobbles_count_plus_one_times() {
    let mut c = ShakeCounter::new();
    c.start(4);
    let mut swings = 1;
    while c.next_shake() {
        swings += 1;
    }
    assert_eq!(swings, 5);
    assert_eq!(c.current_count, 0);
    c.start(-2);
    assert!(!c.next_shake());
    assert_eq!(c.current_count, 0);
}
