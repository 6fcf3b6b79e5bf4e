use decker::config::Config;
use decker::controller::{
    axis_to_string, button_to_string, is_stick_axis, is_trigger_axis, parse_stick_axis,
    should_report_axis, ControllerEvent, ControllerManager, EventKind, GamepadAxis, GamepadButton,
    GamepadEvent,
};

fn ev(id: usize, kind: EventKind) -> GamepadEvent {
    GamepadEvent { id, kind }
}

#[test]
fn button_names() {
    let cases = [
        (GamepadButton::South, "A"),
        (GamepadButton::East, "B"),
        (GamepadButton::West, "X"),
        (GamepadButton::North, "Y"),
        (GamepadButton::LeftTrigger, "LB"),
        (GamepadButton::RightTrigger, "RB"),
        (GamepadButton::LeftTrigger2, "LT"),
        (GamepadButton::RightTrigger2, "RT"),
        (GamepadButton::Select, "Select"),
        (GamepadButton::Start, "Start"),
        (GamepadButton::LeftThumb, "LeftThumb"),
        (GamepadButton::RightThumb, "RightThumb"),
        (GamepadButton::Mode, "Mode"),
        (GamepadButton::DPadUp, "DPadUp"),
        (GamepadButton::DPadDown, "DPadDown"),
        (GamepadButton::DPadLeft, "DPadLeft"),
        (GamepadButton::DPadRight, "DPadRight"),
        (GamepadButton::C, "Unknown"),
        (GamepadButton::Z, "Unknown"),
        (GamepadButton::Unknown, "Unknown"),
    ];
    for (b, name) in cases {
        assert_eq!(button_to_string(b), name);
    }
}

#[test]
fn axis_names_and_kinds() {
    assert_eq!(axis_to_string(GamepadAxis::LeftStickX), "LeftStickX");
    assert_eq!(axis_to_string(GamepadAxis::LeftStickY), "LeftStickY");
    assert_eq!(axis_to_string(GamepadAxis::LeftZ), "LeftTrigger");
    assert_eq!(axis_to_string(GamepadAxis::RightStickX), "RightStickX");
    assert_eq!(axis_to_string(GamepadAxis::RightStickY), "RightStickY");
    assert_eq!(axis_to_string(GamepadAxis::RightZ), "RightTrigger");
    assert_eq!(axis_to_string(GamepadAxis::DPadX), "Unknown");
    assert!(is_stick_axis(GamepadAxis::RightStickY));
    assert!(!is_stick_axis(GamepadAxis::LeftZ));
    assert!(is_trigger_axis(GamepadAxis::RightZ));
    assert!(!is_trigger_axis(GamepadAxis::DPadY));
}

#[test]
fn stick_axis_parsing() {
    assert_eq!(
        parse_stick_axis(GamepadAxis::LeftStickY, 400_000),
        ("LeftStick".to_string(), (400_000, 400_000))
    );
    assert_eq!(
        parse_stick_axis(GamepadAxis::RightStickX, -300_000),
        ("RightStick".to_string(), (-300_000, -300_000))
    );
    assert_eq!(parse_stick_axis(GamepadAxis::LeftZ, 900_000), ("Unknown".to_string(), (0, 0)));
}

#[test]
fn axis_reporting_respects_deadzone() {
    assert!(should_report_axis(GamepadAxis::LeftStickX, 150_001, 150_000));
    assert!(!should_report_axis(GamepadAxis::LeftStickX, 150_000, 150_000));
    assert!(should_report_axis(GamepadAxis::RightZ, -200_000, 150_000));
    assert!(!should_report_axis(GamepadAxis::DPadX, 1_000_000, 150_000));
    assert!(should_report_axis(GamepadAxis::LeftStickY, i32::MIN, 150_000));
}

#[test]
fn first_connected_gamepad_is_active() {
    let m = ControllerManager::new(Config::default(), &vec![3, 5]);
    assert_eq!(m.active_gamepad_id, Some(3));
    let none = ControllerManager::new(Config::default(), &vec![]);
    assert_eq!(none.active_gamepad_id, None);
}

#[test]
fn button_events_of_active_gamepad_are_reported() {
    let mut m = ControllerManager::new(Config::default(), &vec![1]);
    assert_eq!(
        m.handle_event(&ev(1, EventKind::ButtonPressed(GamepadButton::RightTrigger))),
        Some(ControllerEvent::ButtonPressed("RB".to_string()))
    );
    assert_eq!(
        m.handle_event(&ev(1, EventKind::ButtonReleased(GamepadButton::North))),
        Some(ControllerEvent::ButtonReleased("Y".to_string()))
    );
    assert_eq!(m.handle_event(&ev(1, EventKind::ButtonRepeated(GamepadButton::North))), None);
    assert_eq!(
        m.handle_event(&ev(1, EventKind::ButtonChanged(GamepadButton::LeftTrigger2, 500_000))),
        None
    );
    assert_eq!(m.handle_event(&ev(1, EventKind::Dropped)), None);
}

#[test]
fn other_gamepads_are_ignored() {
    let mut m = ControllerManager::new(Config::default(), &vec![1]);
    assert_eq!(m.handle_event(&ev(2, EventKind::ButtonPressed(GamepadButton::South))), None);
    assert_eq!(m.handle_event(&ev(2, EventKind::Connected)), None);
    assert_eq!(m.active_gamepad_id, Some(1));
}

#[test]
fn first_event_picks_gamepad_when_none_active() {
    let mut m = ControllerManager::new(Config::default(), &vec![]);
    assert_eq!(
        m.handle_event(&ev(7, EventKind::ButtonPressed(GamepadButton::South))),
        Some(ControllerEvent::ButtonPressed("A".to_string()))
    );
    assert_eq!(m.active_gamepad_id, Some(7));
}

#[test]
fn disconnect_then_reconnect_other_gamepad() {
    let mut m = ControllerManager::new(Config::default(), &vec![1]);
    assert_eq!(m.handle_event(&ev(1, EventKind::Disconnected)), None);
    assert_eq!(m.active_gamepad_id, None);
    assert_eq!(m.handle_event(&ev(4, EventKind::Connected)), None);
    assert_eq!(m.active_gamepad_id, Some(4));
    assert_eq!(
        m.handle_event(&ev(4, EventKind::ButtonPressed(GamepadButton::Start))),
        Some(ControllerEvent::ButtonPressed("Start".to_string()))
    );
}

#[test]
fn axis_events() {
    let mut m = ControllerManager::new(Config::default(), &vec![0]);
    assert_eq!(m.handle_event(&ev(0, EventKind::AxisChanged(GamepadAxis::LeftStickX, 100_000))), None);
    assert_eq!(
        m.handle_event(&ev(0, EventKind::AxisChanged(GamepadAxis::LeftStickX, -600_000))),
        Some(ControllerEvent::StickMoved { stick: "LeftStick".to_string(), x: -600_000, y: -600_000 })
    );
    assert_eq!(
        m.handle_event(&ev(0, EventKind::AxisChanged(GamepadAxis::RightZ, 500_000))),
        Some(ControllerEvent::TriggerMoved { trigger: "RightTrigger".to_string(), value: 750_000 })
    );
    assert_eq!(
        m.handle_event(&ev(0, EventKind::AxisChanged(GamepadAxis::LeftZ, -1_000_000))),
        Some(ControllerEvent::TriggerMoved { trigger: "LeftTrigger".to_string(), value: 0 })
    );
    assert_eq!(
        m.handle_event(&ev(0, EventKind::AxisChanged(GamepadAxis::LeftZ, 1_000_000))),
        Some(ControllerEvent::TriggerMoved { trigger: "LeftTrigger".to_string(), value: 1_000_000 })
    );
    assert_eq!(m.handle_event(&ev(0, EventKind::AxisChanged(GamepadAxis::DPadY, 1_000_000))), None);
}

#[test]
fn poll_stops_at_first_reported_event() {
    let mut m = ControllerManager::new(Config::default(), &vec![1]);
    let events = vec![
        ev(2, EventKind::ButtonPressed(GamepadButton::South)),
        ev(1, EventKind::AxisChanged(GamepadAxis::LeftStickX, 10)),
        ev(1, EventKind::ButtonPressed(GamepadButton::East)),
        ev(1, EventKind::ButtonPressed(GamepadButton::West)),
    ];
    let (taken, out) = m.poll_event(&events);
    assert_eq!(taken, 3);
    assert_eq!(out, Some(ControllerEvent::ButtonPressed("B".to_string())));
    let (taken, out) = m.poll_event(&events[3..].to_vec());
    assert_eq!(taken, 1);
    assert_eq!(out, Some(ControllerEvent::ButtonPressed("X".to_string())));
}

#[test]
fn poll_without_report_takes_everything() {
    let mut m = ControllerManager::new(Config::default(), &vec![1]);
    let events = vec![ev(1, EventKind::Disconnected), ev(5, EventKind::Connected)];
    let (taken, out) = m.poll_event(&events);
    assert_eq!(taken, 2);
    assert_eq!(out, None);
    assert_eq!(m.active_gamepad_id, Some(5));
    let (taken, out) = m.poll_event(&vec![]);
    assert_eq!((taken, out), (0, None));
}

#[test]
fn poll_keeps_active_gamepad_against_other_connections() {
    let mut m = ControllerManager::new(Config::default(), &vec![1]);
    let events = vec![
        ev(2, EventKind::Connected),
        ev(2, EventKind::Disconnected),
        ev(3, EventKind::ButtonPressed(GamepadButton::South)),
        ev(1, EventKind::Connected),
    ];
    let (taken, out) = m.poll_event(&events);
    assert_eq!((taken, out), (4, None));
    assert_eq!(m.active_gamepad_id, Some(1));
}

#[test]
fn active_gamepad_transitions_over_several_polls() {
    let mut m = ControllerManager::new(Config::default(), &vec![]);
    let (_, out) = m.poll_event(&vec![ev(9, EventKind::Disconnected), ev(6, EventKind::Dropped)]);
    assert_eq!(out, None);
    assert_eq!(m.active_gamepad_id, Some(6));
    let (_, out) = m.poll_event(&vec![ev(2, EventKind::Disconnected), ev(6, EventKind::Disconnected)]);
    assert_eq!(out, None);
    assert_eq!(m.active_gamepad_id, None);
    let (taken, _) = m.poll_event(&vec![ev(8, EventKind::Connected), ev(5, EventKind::Connected)]);
    assert_eq!(taken, 2);
    assert_eq!(m.active_gamepad_id, Some(8));
}
