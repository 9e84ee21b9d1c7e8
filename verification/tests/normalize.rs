use task_recorder::event::{
    normalize, process_event, Action, Category, Position, RawNotification, Timestamp,
};

fn ts() -> Timestamp {
    Timestamp::new(2024, 1, 1, 10, 0, 0)
}

#[test]
fn key_down_maps_to_keyboard_pressed() {
    let r = normalize(RawNotification::KeyDown { key: "KeyA".to_string() }, ts());
    let e = r.expect("a key-down notification must produce a record");
    assert_eq!(e.category, Category::Keyboard);
    assert_eq!(e.identifier, "KeyA");
    assert_eq!(e.action, Action::Pressed);
    assert_eq!(e.position, Position::NotApplicable);
    assert_eq!(e.timestamp, ts());
}

#[test]
fn key_up_maps_to_keyboard_released() {
    let r = normalize(RawNotification::KeyUp { key: "KeyA".to_string() }, ts());
    let e = r.expect("a key-up notification must produce a record");
    assert_eq!(e.category, Category::Keyboard);
    assert_eq!(e.identifier, "KeyA");
    assert_eq!(e.action, Action::Released);
    assert_eq!(e.position, Position::NotApplicable);
}

#[test]
fn button_down_maps_to_mouse_pressed_without_position() {
    let r = normalize(RawNotification::ButtonDown { button: "Left".to_string() }, ts());
    let e = r.expect("a button-down notification must produce a record");
    assert_eq!(e.category, Category::Mouse);
    assert_eq!(e.identifier, "Left");
    assert_eq!(e.action, Action::Pressed);
    assert_eq!(e.position, Position::NotApplicable);
}

#[test]
fn button_up_maps_to_mouse_released_without_position() {
    let r = normalize(RawNotification::ButtonUp { button: "Right".to_string() }, ts());
    let e = r.expect("a button-up notification must produce a record");
    assert_eq!(e.category, Category::Mouse);
    assert_eq!(e.identifier, "Right");
    assert_eq!(e.action, Action::Released);
    assert_eq!(e.position, Position::NotApplicable);
}

#[test]
fn pointer_move_maps_to_mouse_moved_with_position() {
    let r = normalize(RawNotification::PointerMove { x: 120, y: 45 }, ts());
    let e = r.expect("a pointer-move notification must produce a record");
    assert_eq!(e.category, Category::Mouse);
    assert_eq!(e.identifier, "Move");
    assert_eq!(e.action, Action::Moved);
    assert_eq!(e.position, Position::At { x: 120, y: 45 });
}

#[test]
fn wheel_is_dropped() {
    let r = normalize(RawNotification::Wheel { delta_x: 0, delta_y: -1 }, ts());
    assert!(r.is_none());
}

#[test]
fn process_event_samples_a_plausible_clock_moment() {
    let r = process_event(RawNotification::KeyDown { key: "KeyZ".to_string() });
    let e = r.expect("a key-down notification must produce a record");
    assert_eq!(e.category, Category::Keyboard);
    assert_eq!(e.identifier, "KeyZ");
    assert_eq!(e.action, Action::Pressed);
    let t = e.timestamp;
    assert!(t.year >= 2024);
    assert!((1..=12).contains(&t.month));
    assert!((1..=31).contains(&t.day));
    assert!(t.hour <= 23);
    assert!(t.minute <= 59);
    assert!(t.second <= 59);
}

#[test]
fn clamped_forces_each_field_into_range() {
    let t = Timestamp::clamped(-5, 0, 99, 99, 99, 99);
    assert_eq!(t.year, 0);
    assert_eq!(t.month, 1);
    assert_eq!(t.day, 31);
    assert_eq!(t.hour, 23);
    assert_eq!(t.minute, 59);
    assert_eq!(t.second, 59);
    let u = Timestamp::clamped(12345, 7, 19, 8, 30, 59);
    assert_eq!(u.year, 9999);
    assert_eq!(u.month, 7);
    assert_eq!(u.day, 19);
    assert_eq!(u.hour, 8);
    assert_eq!(u.minute, 30);
    assert_eq!(u.second, 59);
}
