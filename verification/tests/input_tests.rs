use decker::action::{Action, HighlightColor, PageDirection, ScrollDirection, ZoomDirection};
use decker::action::process_stick_state;
use decker::config::Config;
use decker::controller::StickState;
use decker::input::{InputInjector, XdoCommand};
use std::cell::RefCell;

fn cmd(args: &[&str]) -> XdoCommand {
    XdoCommand { args: args.iter().map(|a| a.to_string()).collect() }
}

fn plan(injector: &InputInjector, action: Action) -> Vec<XdoCommand> {
    injector.commands_for(&action)
}

#[test]
fn key_actions() {
    let inj = InputInjector::new();
    assert_eq!(plan(&inj, Action::NavigatePage(PageDirection::Next)), vec![cmd(&["key", "Right"])]);
    assert_eq!(plan(&inj, Action::NavigatePage(PageDirection::Previous)), vec![cmd(&["key", "Left"])]);
    assert_eq!(
        plan(&inj, Action::Scroll(ScrollDirection::Down)),
        vec![cmd(&["key", "Down"]), cmd(&["key", "Down"]), cmd(&["key", "Down"])]
    );
    assert_eq!(plan(&inj, Action::Scroll(ScrollDirection::Left)).len(), 3);
    assert_eq!(plan(&inj, Action::Zoom(ZoomDirection::In)), vec![cmd(&["key", "ctrl+plus"])]);
    assert_eq!(plan(&inj, Action::Zoom(ZoomDirection::Out)), vec![cmd(&["key", "ctrl+minus"])]);
    assert_eq!(plan(&inj, Action::Zoom(ZoomDirection::Reset)), vec![cmd(&["key", "ctrl+0"])]);
    assert_eq!(plan(&inj, Action::ToggleFullscreen), vec![cmd(&["key", "F11"])]);
    assert_eq!(
        plan(&inj, Action::Highlight(HighlightColor::Yellow)),
        vec![cmd(&["key", "ctrl+6"])]
    );
}

#[test]
fn pressed_keys_are_joined_and_lowercased() {
    let inj = InputInjector::new();
    let keys = vec!["Ctrl".to_string(), "Shift".to_string(), "Page_Down".to_string()];
    assert_eq!(plan(&inj, Action::PressKeys(keys)), vec![cmd(&["key", "ctrl+shift+page_down"])]);
    assert_eq!(plan(&inj, Action::PressKeys(vec![])), vec![cmd(&["key", ""])]);
}

#[test]
fn cursor_moves_round_to_pixels() {
    let inj = InputInjector::new();
    assert_eq!(
        plan(&inj, Action::MoveCursor { dx: 6_000_000, dy: -3_000_000 }),
        vec![cmd(&["mousemove_relative", "--", "6", "-3"])]
    );
    assert_eq!(
        plan(&inj, Action::MoveCursor { dx: 1_500_000, dy: -1_500_000 }),
        vec![cmd(&["mousemove_relative", "--", "2", "-2"])]
    );
    assert_eq!(
        plan(&inj, Action::MoveCursor { dx: 499_999, dy: -2_499_999 }),
        vec![cmd(&["mousemove_relative", "--", "0", "-2"])]
    );
    assert_eq!(
        plan(&inj, Action::MoveCursor { dx: i64::MAX, dy: i64::MIN }),
        vec![cmd(&["mousemove_relative", "--", "2147483647", "-2147483648"])]
    );
}

#[test]
fn drag_select_presses_and_releases_once() {
    let mut inj = InputInjector::new();
    let ran = RefCell::new(Vec::new());
    let run = |c: &XdoCommand| -> Result<(), String> {
        ran.borrow_mut().push(c.clone());
        Ok(())
    };
    let step = Action::SelectText { dx: 2_000_000, dy: 0, active: true };
    assert!(inj.execute_action(&step, &run).is_ok());
    assert!(inj.is_dragging());
    assert!(inj.execute_action(&step, &run).is_ok());
    assert!(inj.is_dragging());
    let stop = Action::SelectText { dx: 0, dy: 0, active: false };
    assert!(inj.execute_action(&stop, &run).is_ok());
    assert!(!inj.is_dragging());
    assert!(inj.execute_action(&stop, &run).is_ok());
    assert_eq!(
        ran.into_inner(),
        vec![
            cmd(&["mousedown", "1"]),
            cmd(&["mousemove_relative", "--", "2", "0"]),
            cmd(&["mousemove_relative", "--", "2", "0"]),
            cmd(&["mouseup", "1"]),
        ]
    );
}

#[test]
fn failed_mouse_press_leaves_button_free() {
    let mut inj = InputInjector::new();
    let ran = RefCell::new(0usize);
    let fail = |_c: &XdoCommand| -> Result<(), String> {
        *ran.borrow_mut() += 1;
        Err("spawn failed".to_string())
    };
    let step = Action::SelectText { dx: 1_000_000, dy: 1_000_000, active: true };
    assert_eq!(inj.execute_action(&step, &fail), Err("spawn failed".to_string()));
    assert!(!inj.is_dragging());
    assert_eq!(ran.into_inner(), 1);
}

#[test]
fn failure_stops_remaining_commands() {
    let mut inj = InputInjector::new();
    let ran = RefCell::new(0usize);
    let fail_second = |_c: &XdoCommand| -> Result<(), u8> {
        let mut n = ran.borrow_mut();
        *n += 1;
        if *n == 2 { Err(7) } else { Ok(()) }
    };
    assert_eq!(inj.execute_action(&Action::Scroll(ScrollDirection::Up), &fail_second), Err(7));
    assert_eq!(ran.into_inner(), 2);
    let step = Action::SelectText { dx: 0, dy: 0, active: true };
    let ran2 = RefCell::new(0usize);
    let fail_move = |_c: &XdoCommand| -> Result<(), u8> {
        let mut n = ran2.borrow_mut();
        *n += 1;
        if *n == 2 { Err(1) } else { Ok(()) }
    };
    assert_eq!(inj.execute_action(&step, &fail_move), Err(1));
    assert!(inj.is_dragging());
}

#[test]
fn command_succeeded_tracks_button() {
    let mut inj = InputInjector::new();
    inj.command_succeeded(&cmd(&["key", "1"]));
    assert!(!inj.is_dragging());
    inj.command_succeeded(&cmd(&["mousedown", "1"]));
    assert!(inj.is_dragging());
    inj.command_succeeded(&cmd(&["mousedown", "2"]));
    assert!(inj.is_dragging());
    inj.command_succeeded(&cmd(&["mouseup", "1"]));
    assert!(!inj.is_dragging());
}

#[test]
fn stick_drag_and_mouse_button_stay_in_step() {
    let config = Config::default();
    let mut inj = InputInjector::new();
    let mut drag = false;
    let ok = |_c: &XdoCommand| -> Result<(), ()> { Ok(()) };
    let ticks = [(0, 0), (600_000, 0), (700_000, 100_000), (0, 0), (0, 0), (0, -900_000), (10, 10)];
    for (rx, ry) in ticks {
        let state = StickState { left_x: 300_000, left_y: 0, right_x: rx, right_y: ry };
        for action in process_stick_state(&state, &config, &mut drag) {
            assert!(inj.execute_action(&action, &ok).is_ok());
        }
        assert_eq!(inj.is_dragging(), drag);
    }
    assert!(!drag);
}

#[test]
fn step_by_step_run_stops_at_failed_press() {
    let mut inj = InputInjector::new();
    let step = Action::SelectText { dx: 1_000_000, dy: 0, active: true };
    let mut progress = inj.start_action(&step);
    let first = progress.next_command().cloned();
    assert_eq!(first, Some(cmd(&["mousedown", "1"])));
    inj.command_done(&mut progress, false);
    assert!(progress.has_failed());
    assert_eq!(progress.next_command(), None);
    inj.command_done(&mut progress, true);
    assert_eq!(progress.next_command(), None);
    assert!(!inj.is_dragging());
}

#[test]
fn step_by_step_run_goes_in_order() {
    let mut inj = InputInjector::new();
    let step = Action::SelectText { dx: -1_500_000, dy: 2_500_000, active: true };
    let mut progress = inj.start_action(&step);
    let mut seen = Vec::new();
    while let Some(c) = progress.next_command() {
        seen.push(c.clone());
        inj.command_done(&mut progress, true);
    }
    assert_eq!(
        seen,
        vec![cmd(&["mousedown", "1"]), cmd(&["mousemove_relative", "--", "-2", "3"])]
    );
    assert!(!progress.has_failed());
    assert!(inj.is_dragging());
    let mut progress = inj.start_action(&Action::Scroll(ScrollDirection::Right));
    assert_eq!(progress.next_command(), Some(&cmd(&["key", "Right"])));
    inj.command_done(&mut progress, true);
    inj.command_done(&mut progress, false);
    assert_eq!(progress.next_command(), None);
    assert!(inj.is_dragging());
}

#[test]
fn opposite_moves_round_to_opposite_pixels() {
    let inj = InputInjector::new();
    for v in [500_000i64, 1_500_000, 2_499_999, 7_000_001] {
        let a = plan(&inj, Action::MoveCursor { dx: v, dy: -v });
        let b = plan(&inj, Action::MoveCursor { dx: -v, dy: v });
        assert_eq!(a[0].args[2], b[0].args[3]);
        assert_eq!(a[0].args[3], b[0].args[2]);
        assert_eq!(format!("-{}", a[0].args[2]), b[0].args[2]);
    }
}

#[test]
fn each_action_uses_its_own_helper() {
    let inj = InputInjector::new();
    let keys = vec!["Alt".to_string(), "F4".to_string()];
    assert_eq!(plan(&inj, Action::PressKeys(keys.clone())), inj.press_key_sequence(&keys));
    assert_eq!(inj.press_key_sequence(&keys), vec![cmd(&["key", "alt+f4"])]);
    assert_eq!(plan(&inj, Action::NavigatePage(PageDirection::Next)), inj.navigate_page(PageDirection::Next));
    assert_eq!(plan(&inj, Action::Scroll(ScrollDirection::Up)), inj.scroll(ScrollDirection::Up));
    assert_eq!(plan(&inj, Action::Zoom(ZoomDirection::Reset)), inj.zoom(ZoomDirection::Reset));
    assert_eq!(plan(&inj, Action::ToggleFullscreen), inj.toggle_fullscreen());
    assert_eq!(plan(&inj, Action::MoveCursor { dx: 3, dy: -3 }), inj.move_cursor(3, -3));
    assert_eq!(
        plan(&inj, Action::SelectText { dx: 0, dy: 0, active: true }),
        inj.select_text(0, 0, true)
    );
    assert_eq!(inj.select_text(0, 0, false), vec![]);
    assert_eq!(
        plan(&inj, Action::Highlight(HighlightColor::Yellow)),
        inj.highlight(HighlightColor::Yellow)
    );
}
