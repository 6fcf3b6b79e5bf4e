use decker::action::{
    process_event, process_stick_state, Action, HighlightColor, PageDirection, ScrollDirection,
    ZoomDirection,
};
use decker::config::{ButtonMapping, Config};
use decker::controller::{ControllerEvent, StickState};

fn press(b: &str) -> ControllerEvent {
    ControllerEvent::ButtonPressed(b.to_string())
}

fn with_mapping(key: &str, action: &str, keys: &[&str]) -> Config {
    let mut config = Config::default();
    config.button_mappings.insert(
        key.to_string(),
        ButtonMapping {
            button: key.to_string(),
            action: action.to_string(),
            keys: keys.iter().map(|k| k.to_string()).collect(),
        },
    );
    config
}

#[test]
fn default_buttons_give_documented_actions() {
    let c = Config::default();
    assert_eq!(process_event(&press("DPadUp"), &c), Some(Action::Scroll(ScrollDirection::Up)));
    assert_eq!(process_event(&press("DPadDown"), &c), Some(Action::Scroll(ScrollDirection::Down)));
    assert_eq!(process_event(&press("RB"), &c), Some(Action::NavigatePage(PageDirection::Next)));
    assert_eq!(
        process_event(&press("LB"), &c),
        Some(Action::NavigatePage(PageDirection::Previous))
    );
    assert_eq!(process_event(&press("A"), &c), Some(Action::Zoom(ZoomDirection::In)));
    assert_eq!(process_event(&press("B"), &c), Some(Action::Zoom(ZoomDirection::Out)));
    assert_eq!(process_event(&press("Start"), &c), Some(Action::ToggleFullscreen));
}

#[test]
fn unmapped_y_highlights_yellow() {
    let c = Config::default();
    assert_eq!(
        process_event(&press("Y"), &c),
        Some(Action::Highlight(HighlightColor::Yellow))
    );
}

#[test]
fn mapped_y_uses_its_mapping() {
    let c = with_mapping("Y", "zoom_reset", &["ctrl", "0"]);
    assert_eq!(process_event(&press("Y"), &c), Some(Action::Zoom(ZoomDirection::Reset)));
}

#[test]
fn unmapped_button_gives_nothing() {
    let c = Config::default();
    assert_eq!(process_event(&press("X"), &c), None);
    assert_eq!(process_event(&press("y"), &c), None);
}

#[test]
fn unknown_action_presses_keys() {
    let c = with_mapping("LT", "custom", &["Page_Down"]);
    assert_eq!(
        process_event(&press("LT"), &c),
        Some(Action::PressKeys(vec!["Page_Down".to_string()]))
    );
}

#[test]
fn every_action_name_is_recognised() {
    let cases: Vec<(&str, Action)> = vec![
        ("next_page", Action::NavigatePage(PageDirection::Next)),
        ("previous_page", Action::NavigatePage(PageDirection::Previous)),
        ("scroll_up", Action::Scroll(ScrollDirection::Up)),
        ("scroll_down", Action::Scroll(ScrollDirection::Down)),
        ("zoom_in", Action::Zoom(ZoomDirection::In)),
        ("zoom_out", Action::Zoom(ZoomDirection::Out)),
        ("zoom_reset", Action::Zoom(ZoomDirection::Reset)),
        ("toggle_fullscreen", Action::ToggleFullscreen),
        ("highlight_yellow", Action::Highlight(HighlightColor::Yellow)),
    ];
    for (name, expected) in cases {
        let c = with_mapping("X", name, &["q"]);
        assert_eq!(process_event(&press("X"), &c), Some(expected));
    }
}

#[test]
fn other_events_give_nothing() {
    let c = Config::default();
    assert_eq!(process_event(&ControllerEvent::ButtonReleased("RB".to_string()), &c), None);
    assert_eq!(
        process_event(
            &ControllerEvent::StickMoved { stick: "LeftStick".to_string(), x: 900_000, y: 900_000 },
            &c
        ),
        None
    );
    assert_eq!(
        process_event(
            &ControllerEvent::TriggerMoved { trigger: "LeftTrigger".to_string(), value: 1_000_000 },
            &c
        ),
        None
    );
}

fn sticks(lx: i32, ly: i32, rx: i32, ry: i32) -> StickState {
    StickState { left_x: lx, left_y: ly, right_x: rx, right_y: ry }
}

#[test]
fn left_stick_moves_cursor() {
    let c = Config::default();
    let mut drag = false;
    let actions = process_stick_state(&sticks(500_000, 250_000, 0, 0), &c, &mut drag);
    assert_eq!(actions, vec![Action::MoveCursor { dx: 6_000_000, dy: -3_000_000 }]);
    assert!(!drag);
}

#[test]
fn sticks_in_deadzone_do_nothing() {
    let c = Config::default();
    let mut drag = false;
    let actions = process_stick_state(&sticks(150_000, -150_000, 100_000, 0), &c, &mut drag);
    assert!(actions.is_empty());
    assert!(!drag);
}

#[test]
fn right_stick_drags_then_releases_once() {
    let c = Config::default();
    let mut drag = false;
    let first = process_stick_state(&sticks(0, 0, 1_000_000, -500_000), &c, &mut drag);
    assert_eq!(first, vec![Action::SelectText { dx: 12_000_000, dy: 6_000_000, active: true }]);
    assert!(drag);
    let second = process_stick_state(&sticks(0, 0, 0, 200_000), &c, &mut drag);
    assert_eq!(second, vec![Action::SelectText { dx: 0, dy: -2_400_000, active: true }]);
    assert!(drag);
    let third = process_stick_state(&sticks(0, 0, 0, 0), &c, &mut drag);
    assert_eq!(third, vec![Action::SelectText { dx: 0, dy: 0, active: false }]);
    assert!(!drag);
    let fourth = process_stick_state(&sticks(0, 0, 0, 0), &c, &mut drag);
    assert!(fourth.is_empty());
    assert!(!drag);
}

#[test]
fn both_sticks_give_cursor_then_selection() {
    let c = Config::default();
    let mut drag = true;
    let actions = process_stick_state(&sticks(-400_000, 0, 0, 300_000), &c, &mut drag);
    assert_eq!(
        actions,
        vec![
            Action::MoveCursor { dx: -4_800_000, dy: 0 },
            Action::SelectText { dx: 0, dy: -3_600_000, active: true },
        ]
    );
    assert!(drag);
}

#[test]
fn extreme_deflection_does_not_overflow() {
    let c = Config::default();
    let mut drag = false;
    let actions = process_stick_state(&sticks(i32::MIN, 0, 0, 0), &c, &mut drag);
    assert_eq!(actions, vec![Action::MoveCursor { dx: i32::MIN as i64 * 12, dy: 0 }]);
}
