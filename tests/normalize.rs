use device_listener::label::{button_name, key_name, unknown_name, BTN_LEFT, BTN_MIDDLE, BTN_RIGHT};
use device_listener::{build_device_event, DeviceEvent, DeviceEventKind, DeviceValue, PressState, RawEvent};

fn name(s: &str) -> DeviceValue<f64> {
    DeviceValue::Name(s.to_string())
}

#[test]
fn key_press_with_resolved_name() {
    let raw = RawEvent::<f64>::Keyboard { code: 30, state: PressState::Pressed };
    let out = build_device_event(raw, Some("A".to_string()));
    assert_eq!(out, Some(DeviceEvent { kind: DeviceEventKind::KeyboardPress, value: name("A") }));
}

#[test]
fn key_release_with_resolved_name() {
    let raw = RawEvent::<f64>::Keyboard { code: 30, state: PressState::Released };
    let out = build_device_event(raw, Some("A".to_string()));
    assert_eq!(out, Some(DeviceEvent { kind: DeviceEventKind::KeyboardRelease, value: name("A") }));
}

#[test]
fn unresolved_key_gets_fallback_name() {
    let raw = RawEvent::<f64>::Keyboard { code: 250, state: PressState::Pressed };
    let out = build_device_event(raw, None);
    assert_eq!(out, Some(DeviceEvent { kind: DeviceEventKind::KeyboardPress, value: name("Unknown(250)") }));
}

#[test]
fn left_button_press() {
    let raw = RawEvent::<f64>::PointerButton { code: 0x110, state: PressState::Pressed };
    let out = build_device_event(raw, None);
    assert_eq!(out, Some(DeviceEvent { kind: DeviceEventKind::MousePress, value: name("Left") }));
}

#[test]
fn right_and_middle_button_release() {
    let right = build_device_event(RawEvent::<f64>::PointerButton { code: 0x111, state: PressState::Released }, None);
    assert_eq!(right, Some(DeviceEvent { kind: DeviceEventKind::MouseRelease, value: name("Right") }));
    let middle = build_device_event(RawEvent::<f64>::PointerButton { code: 0x112, state: PressState::Released }, None);
    assert_eq!(middle, Some(DeviceEvent { kind: DeviceEventKind::MouseRelease, value: name("Middle") }));
}

#[test]
fn other_button_gets_fallback_name() {
    let press = build_device_event(RawEvent::<f64>::PointerButton { code: 0x113, state: PressState::Pressed }, None);
    assert_eq!(press, Some(DeviceEvent { kind: DeviceEventKind::MousePress, value: name("Unknown(275)") }));
    let release = build_device_event(RawEvent::<f64>::PointerButton { code: 0x113, state: PressState::Released }, None);
    assert_eq!(release, Some(DeviceEvent { kind: DeviceEventKind::MouseRelease, value: name("Unknown(275)") }));
}

#[test]
fn button_ignores_resolved_name() {
    let out = build_device_event(RawEvent::<f64>::PointerButton { code: 0x110, state: PressState::Pressed }, Some("X".to_string()));
    assert_eq!(out, Some(DeviceEvent { kind: DeviceEventKind::MousePress, value: name("Left") }));
}

#[test]
fn relative_motion() {
    let out = build_device_event(RawEvent::PointerMotion { dx: 5.0, dy: -3.0 }, None);
    assert_eq!(out, Some(DeviceEvent { kind: DeviceEventKind::MouseMove, value: DeviceValue::Delta { dx: 5.0, dy: -3.0 } }));
}

#[test]
fn absolute_motion() {
    let out = build_device_event(RawEvent::PointerMotionAbsolute { x: 120.5, y: 40.25 }, None);
    assert_eq!(out, Some(DeviceEvent { kind: DeviceEventKind::MouseMove, value: DeviceValue::Position { x: 120.5, y: 40.25 } }));
}

#[test]
fn other_events_are_dropped() {
    assert_eq!(build_device_event(RawEvent::<f64>::Other, None), None);
    assert_eq!(build_device_event(RawEvent::<f64>::Other, Some("A".to_string())), None);
}

#[test]
fn synthetic_events_end_to_end() {
    let key = build_device_event(RawEvent::<f64>::Keyboard { code: 30, state: PressState::Pressed }, Some("A".to_string()));
    assert_eq!(key, Some(DeviceEvent { kind: DeviceEventKind::KeyboardPress, value: name("A") }));
    let button = build_device_event(RawEvent::<f64>::PointerButton { code: 0x110, state: PressState::Pressed }, None);
    assert_eq!(button, Some(DeviceEvent { kind: DeviceEventKind::MousePress, value: name("Left") }));
    let motion = build_device_event(RawEvent::PointerMotion { dx: 5.0, dy: -3.0 }, None);
    assert_eq!(motion, Some(DeviceEvent { kind: DeviceEventKind::MouseMove, value: DeviceValue::Delta { dx: 5.0, dy: -3.0 } }));
}

#[test]
fn unknown_names_carry_exact_code() {
    assert_eq!(unknown_name(0), "Unknown(0)");
    assert_eq!(unknown_name(7), "Unknown(7)");
    assert_eq!(unknown_name(10), "Unknown(10)");
    assert_eq!(unknown_name(1000), "Unknown(1000)");
    assert_eq!(unknown_name(u32::MAX), "Unknown(4294967295)");
}

#[test]
fn key_and_button_names() {
    assert_eq!(key_name(30, Some("A".to_string())), "A");
    assert_eq!(key_name(30, None), "Unknown(30)");
    assert_eq!(button_name(BTN_LEFT), "Left");
    assert_eq!(button_name(BTN_RIGHT), "Right");
    assert_eq!(button_name(BTN_MIDDLE), "Middle");
    assert_eq!(button_name(0x10f), "Unknown(271)");
}
