//! The action layer: what a controller event or the stick position asks the
//! controlled program to do.
use vstd::prelude::*;
use crate::analog::{is_outside_deadzone, outside_deadzone};
use crate::config::{default_button_mappings, ButtonMapping, ButtonMappingView, Config};
use crate::controller::{ControllerEvent, ControllerEventView, StickState};
use crate::text::{str_equals, views};

verus! {

/// Which highlight annotation to apply.
#[derive(Debug, Clone, Copy, PartialEq, Eq, Structural)]
pub enum HighlightColor {
    Yellow,
}

/// Which way to turn a page.
#[derive(Debug, Clone, Copy, PartialEq, Eq, Structural)]
pub enum PageDirection {
    Next,
    Previous,
}

/// Which way to scroll.
#[derive(Debug, Clone, Copy, PartialEq, Eq, Structural)]
pub enum ScrollDirection {
    Up,
    Down,
    Left,
    Right,
}

/// Which way to zoom.
#[derive(Debug, Clone, Copy, PartialEq, Eq, Structural)]
pub enum ZoomDirection {
    In,
    Out,
    Reset,
}

/// Something to do in the controlled program.  Cursor displacements are in
/// millionths of a pixel.
#[derive(Debug, Clone, PartialEq)]
pub enum Action {
    PressKeys(Vec<String>),
    NavigatePage(PageDirection),
    Scroll(ScrollDirection),
    Zoom(ZoomDirection),
    ToggleFullscreen,
    /// Left stick: move the mouse cursor (relative), so the user can position
    /// the text cursor / caret without changing any active selection.
    MoveCursor { dx: i64, dy: i64 },
    /// Right stick: click-and-drag the mouse to start/continue selecting
    /// text.  `active` is false once the stick returns to the dead zone,
    /// which ends the drag (mouse button release).
    SelectText { dx: i64, dy: i64, active: bool },
    /// Highlight the current text selection.
    Highlight(HighlightColor),
}

/// The view of an `Action`.
pub enum ActionView {
    PressKeys(Seq<Seq<char>>),
    NavigatePage(PageDirection),
    Scroll(ScrollDirection),
    Zoom(ZoomDirection),
    ToggleFullscreen,
    MoveCursor { dx: int, dy: int },
    SelectText { dx: int, dy: int, active: bool },
    Highlight(HighlightColor),
}

impl View for Action {
    type V = ActionView;

    open spec fn view(&self) -> ActionView {
        match self {
            Action::PressKeys(keys) => ActionView::PressKeys(views(keys@)),
            Action::NavigatePage(d) => ActionView::NavigatePage(*d),
            Action::Scroll(d) => ActionView::Scroll(*d),
            Action::Zoom(d) => ActionView::Zoom(*d),
            Action::ToggleFullscreen => ActionView::ToggleFullscreen,
            Action::MoveCursor { dx, dy } => ActionView::MoveCursor {
                dx: *dx as int,
                dy: *dy as int,
            },
            Action::SelectText { dx, dy, active } => ActionView::SelectText {
                dx: *dx as int,
                dy: *dy as int,
                active: *active,
            },
            Action::Highlight(c) => ActionView::Highlight(*c),
        }
    }
}

/// The views of an optional action.
pub open spec fn option_view(a: Option<Action>) -> Option<ActionView> {
    match a {
        Some(x) => Some(x@),
        None => None,
    }
}

/// The views of a list of actions.
pub open spec fn action_views(s: Seq<Action>) -> Seq<ActionView> {
    s.map_values(|a: Action| a@)
}

/// The action that a button mapping names.  A name that is none of the
/// known action names stands for pressing the mapping's keys together.
pub open spec fn mapped_action(m: ButtonMappingView) -> ActionView {
    if m.action == "next_page"@ {
        ActionView::NavigatePage(PageDirection::Next)
    } else if m.action == "previous_page"@ {
        ActionView::NavigatePage(PageDirection::Previous)
    } else if m.action == "scroll_up"@ {
        ActionView::Scroll(ScrollDirection::Up)
    } else if m.action == "scroll_down"@ {
        ActionView::Scroll(ScrollDirection::Down)
    } else if m.action == "zoom_in"@ {
        ActionView::Zoom(ZoomDirection::In)
    } else if m.action == "zoom_out"@ {
        ActionView::Zoom(ZoomDirection::Out)
    } else if m.action == "zoom_reset"@ {
        ActionView::Zoom(ZoomDirection::Reset)
    } else if m.action == "toggle_fullscreen"@ {
        ActionView::ToggleFullscreen
    } else if m.action == "highlight_yellow"@ {
        ActionView::Highlight(HighlightColor::Yellow)
    } else {
        ActionView::PressKeys(m.keys)
    }
}

/// The action that a controller event calls for under the given button
/// mappings.  Only a button press calls for one: the mapped action of the
/// button, or, for an unmapped `Y`, highlighting in yellow.
pub open spec fn event_action(
    e: ControllerEventView,
    buttons: Map<Seq<char>, ButtonMappingView>,
) -> Option<ActionView> {
    match e {
        ControllerEventView::ButtonPressed(b) => {
            if buttons.contains_key(b) {
                Some(mapped_action(buttons[b]))
            } else if b == "Y"@ {
                Some(ActionView::Highlight(HighlightColor::Yellow))
            } else {
                None
            }
        },
        _ => None,
    }
}

/// A copy of a list of strings.
fn copy_strings(v: &Vec<String>) -> (r: Vec<String>)
    ensures
        views(r@) == views(v@),
{
    let mut r: Vec<String> = Vec::new();
    let n = v.len();
    let mut i: usize = 0;
    while i < n
        invariant
            n == v@.len(),
            0 <= i <= n,
            r@.len() == i,
            forall|j: int| 0 <= j < i ==> #[trigger] r@[j]@ == v@[j]@,
        decreases n - i,
    {
        r.push(v[i].clone());
        i = i + 1;
    }
    assert(views(r@) =~= views(v@));
    r
}

/// The action that a button mapping names.
fn action_of_mapping(mapping: &ButtonMapping) -> (a: Action)
    ensures
        a@ == mapped_action(mapping@),
{
    let name = mapping.action.as_str();
    if str_equals(name, "next_page") {
        Action::NavigatePage(PageDirection::Next)
    } else if str_equals(name, "previous_page") {
        Action::NavigatePage(PageDirection::Previous)
    } else if str_equals(name, "scroll_up") {
        Action::Scroll(ScrollDirection::Up)
    } else if str_equals(name, "scroll_down") {
        Action::Scroll(ScrollDirection::Down)
    } else if str_equals(name, "zoom_in") {
        Action::Zoom(ZoomDirection::In)
    } else if str_equals(name, "zoom_out") {
        Action::Zoom(ZoomDirection::Out)
    } else if str_equals(name, "zoom_reset") {
        Action::Zoom(ZoomDirection::Reset)
    } else if str_equals(name, "toggle_fullscreen") {
        Action::ToggleFullscreen
    } else if str_equals(name, "highlight_yellow") {
        Action::Highlight(HighlightColor::Yellow)
    } else {
        Action::PressKeys(copy_strings(&mapping.keys))
    }
}

/// The action, if any, that a controller event calls for.
///
/// A pressed button with a mapping gives the mapping's action; an unmapped
/// `Y` highlights the selection in yellow; every other event gives none.
pub fn process_event(event: &ControllerEvent, config: &Config) -> (r: Option<Action>)
    ensures
        option_view(r) == event_action(event@, config.button_mappings@),
{
    match event {
        ControllerEvent::ButtonPressed(btn) => {
            match config.button_mappings.get(btn.as_str()) {
                Some(mapping) => Some(action_of_mapping(mapping)),
                None => {
                    if str_equals(btn.as_str(), "Y") {
                        Some(Action::Highlight(HighlightColor::Yellow))
                    } else {
                        None
                    }
                },
            }
        },
        _ => None,
    }
}

/// Sensitivity: screen pixels moved per polling tick at full stick
/// deflection.
pub const CURSOR_SPEED: i64 = 12;

/// The actions the stick position calls for in one polling tick, given
/// whether a right-stick drag was under way, and whether one is under way
/// afterwards.
///
/// The left stick outside the dead zone moves the cursor; the right stick
/// outside it drags a selection; the right stick back inside it, while a
/// drag was under way, ends the drag.  Screen `y` grows downward, so the
/// stick's `y` is negated.
pub open spec fn stick_actions(state: StickState, deadzone: int, dragging: bool) -> (
    Seq<ActionView>,
    bool,
) {
    let left = outside_deadzone(state.left_x as int, state.left_y as int, deadzone);
    let right = outside_deadzone(state.right_x as int, state.right_y as int, deadzone);
    let cursor = if left {
        seq![
            ActionView::MoveCursor {
                dx: state.left_x * CURSOR_SPEED,
                dy: -state.left_y * CURSOR_SPEED,
            },
        ]
    } else {
        Seq::empty()
    };
    let select = if right {
        seq![
            ActionView::SelectText {
                dx: state.right_x * CURSOR_SPEED,
                dy: -state.right_y * CURSOR_SPEED,
                active: true,
            },
        ]
    } else if dragging {
        seq![ActionView::SelectText { dx: 0, dy: 0, active: false }]
    } else {
        Seq::empty()
    };
    (cursor + select, right)
}

/// Turns the continuous analog stick state into cursor and selection
/// actions; runs every polling tick so movement stays smooth while a stick
/// is held.  `right_drag_active` tracks across calls whether the right-stick
/// drag-select is under way (mouse button held).
pub fn process_stick_state(state: &StickState, config: &Config, right_drag_active: &mut bool) -> (r:
    Vec<Action>)
    ensures
        (action_views(r@), *final(right_drag_active)) == stick_actions(
            *state,
            config.deadzone as int,
            *old(right_drag_active),
        ),
{
    let mut actions: Vec<Action> = Vec::new();
    let deadzone = config.deadzone;
    if is_outside_deadzone(state.left_x, state.left_y, deadzone) {
        actions.push(
            Action::MoveCursor {
                dx: state.left_x as i64 * CURSOR_SPEED,
                dy: -(state.left_y as i64) * CURSOR_SPEED,
            },
        );
    }
    if is_outside_deadzone(state.right_x, state.right_y, deadzone) {
        *right_drag_active = true;
        actions.push(
            Action::SelectText {
                dx: state.right_x as i64 * CURSOR_SPEED,
                dy: -(state.right_y as i64) * CURSOR_SPEED,
                active: true,
            },
        );
    } else if *right_drag_active {
        *right_drag_active = false;
        actions.push(Action::SelectText { dx: 0, dy: 0, active: false });
    }
    proof {
        let s = stick_actions(*state, config.deadzone as int, *old(right_drag_active));
        assert(action_views(actions@) =~= s.0);
    }
    actions
}

/// Release once: while the right stick rests in the dead zone, the drag
/// is ended at most once.  Two ticks in a row with the right stick inside
/// it leave no drag under way after either, and the second emits no
/// selection step at all, only (possibly) a cursor move.
pub proof fn law_release_once(first: StickState, second: StickState, deadzone: int, dragging: bool)
    requires
        !outside_deadzone(first.right_x as int, first.right_y as int, deadzone),
        !outside_deadzone(second.right_x as int, second.right_y as int, deadzone),
    ensures
        ({
            let (_, d1) = stick_actions(first, deadzone, dragging);
            let (a2, d2) = stick_actions(second, deadzone, d1);
            &&& !d1
            &&& !d2
            &&& forall|i: int| 0 <= i < a2.len() ==> a2[i] is MoveCursor
        }),
{
    let (_, d1) = stick_actions(first, deadzone, dragging);
    let (a2, _) = stick_actions(second, deadzone, d1);
    assert forall|i: int| 0 <= i < a2.len() implies a2[i] is MoveCursor by {
        assert(a2.len() <= 1);
    }
}

/// Dead zone: with both sticks inside the dead zone and no drag under way,
/// a polling tick does nothing.
pub proof fn law_deadzone_quiet(state: StickState, deadzone: int)
    requires
        !outside_deadzone(state.left_x as int, state.left_y as int, deadzone),
        !outside_deadzone(state.right_x as int, state.right_y as int, deadzone),
    ensures
        stick_actions(state, deadzone, false) == (Seq::<ActionView>::empty(), false),
{
    assert(stick_actions(state, deadzone, false).0 =~= Seq::<ActionView>::empty());
}

/// What one polling tick does, stated axis by axis.
///
/// The left stick moves the cursor exactly when one of its two axes is
/// deflected beyond the dead zone, in either direction; the move is the
/// deflection times 12 pixels, with the screen's `y` pointing down, and it
/// comes first.  The right stick, deflected beyond the dead zone on either
/// axis, drags the selection by its deflection times 12 pixels (signs
/// kept, `y` flipped) and leaves a drag under way; back inside the dead zone
/// it ends a drag that was under way with one release step; otherwise it
/// does nothing.  Nothing else is emitted.
pub proof fn law_stick_tick(state: StickState, deadzone: int, dragging: bool)
    ensures
        ({
            let (actions, drag_after) = stick_actions(state, deadzone, dragging);
            let lx = state.left_x as int;
            let ly = state.left_y as int;
            let rx = state.right_x as int;
            let ry = state.right_y as int;
            let left = lx > deadzone || lx < -deadzone || ly > deadzone || ly < -deadzone;
            let right = rx > deadzone || rx < -deadzone || ry > deadzone || ry < -deadzone;
            let cursor = ActionView::MoveCursor { dx: lx * 12, dy: -(ly * 12) };
            let drag_step = ActionView::SelectText { dx: rx * 12, dy: -(ry * 12), active: true };
            let release = ActionView::SelectText { dx: 0, dy: 0, active: false };
            &&& drag_after == right
            &&& actions.len() == (if left { 1int } else { 0int }) + (if right || dragging {
                1int
            } else {
                0int
            })
            &&& left ==> actions[0] == cursor
            &&& right ==> actions.last() == drag_step
            &&& !right && dragging ==> actions.last() == release
            &&& forall|i: int|
                0 <= i < actions.len() ==> (#[trigger] actions[i] is MoveCursor <==> (left && i
                    == 0))
        }),
{
    let (actions, _) = stick_actions(state, deadzone, dragging);
    assert forall|i: int| 0 <= i < actions.len() implies (#[trigger] actions[i] is MoveCursor <==> (
        outside_deadzone(state.left_x as int, state.left_y as int, deadzone) && i == 0)) by {}
}

/// Opposite deflections give opposite steps: negating every axis of both
/// sticks negates the cursor move and the drag step and changes nothing
/// else.
pub proof fn law_stick_tick_mirror(state: StickState, deadzone: int, dragging: bool)
    requires
        state.left_x > i32::MIN,
        state.left_y > i32::MIN,
        state.right_x > i32::MIN,
        state.right_y > i32::MIN,
    ensures
        ({
            let mirrored = StickState {
                left_x: (-state.left_x) as i32,
                left_y: (-state.left_y) as i32,
                right_x: (-state.right_x) as i32,
                right_y: (-state.right_y) as i32,
            };
            let (a, d) = stick_actions(state, deadzone, dragging);
            let (b, e) = stick_actions(mirrored, deadzone, dragging);
            &&& d == e
            &&& a.len() == b.len()
            &&& forall|i: int|
                #![trigger a[i], b[i]]
                0 <= i < a.len() ==> match (a[i], b[i]) {
                    (ActionView::MoveCursor { dx, dy }, ActionView::MoveCursor { dx: ex, dy: ey }) =>
                        ex == -dx && ey == -dy,
                    (
                        ActionView::SelectText { dx, dy, active },
                        ActionView::SelectText { dx: ex, dy: ey, active: f },
                    ) => ex == -dx && ey == -dy && f == active,
                    _ => false,
                }
        }),
{
    let mirrored = StickState {
        left_x: (-state.left_x) as i32,
        left_y: (-state.left_y) as i32,
        right_x: (-state.right_x) as i32,
        right_y: (-state.right_y) as i32,
    };
    law_stick_tick(state, deadzone, dragging);
    law_stick_tick(mirrored, deadzone, dragging);
}

/// What each action name of a button mapping does: the nine known names
/// give their own actions, and any other name presses exactly the
/// mapping's keys, all of them, in order.
pub proof fn law_mapped_action_names(m: ButtonMappingView)
    ensures
        m.action == "next_page"@ ==> mapped_action(m) == ActionView::NavigatePage(PageDirection::Next),
        m.action == "previous_page"@ ==> mapped_action(m) == ActionView::NavigatePage(
            PageDirection::Previous,
        ),
        m.action == "scroll_up"@ ==> mapped_action(m) == ActionView::Scroll(ScrollDirection::Up),
        m.action == "scroll_down"@ ==> mapped_action(m) == ActionView::Scroll(ScrollDirection::Down),
        m.action == "zoom_in"@ ==> mapped_action(m) == ActionView::Zoom(ZoomDirection::In),
        m.action == "zoom_out"@ ==> mapped_action(m) == ActionView::Zoom(ZoomDirection::Out),
        m.action == "zoom_reset"@ ==> mapped_action(m) == ActionView::Zoom(ZoomDirection::Reset),
        m.action == "toggle_fullscreen"@ ==> mapped_action(m) == ActionView::ToggleFullscreen,
        m.action == "highlight_yellow"@ ==> mapped_action(m) == ActionView::Highlight(
            HighlightColor::Yellow,
        ),
        (m.action != "next_page"@ && m.action != "previous_page"@ && m.action != "scroll_up"@
            && m.action != "scroll_down"@ && m.action != "zoom_in"@ && m.action != "zoom_out"@
            && m.action != "zoom_reset"@ && m.action != "toggle_fullscreen"@ && m.action
            != "highlight_yellow"@) ==> mapped_action(m) == ActionView::PressKeys(m.keys),
{
    reveal_strlit("next_page");
    reveal_strlit("previous_page");
    reveal_strlit("scroll_up");
    reveal_strlit("scroll_down");
    reveal_strlit("zoom_in");
    reveal_strlit("zoom_out");
    reveal_strlit("zoom_reset");
    reveal_strlit("toggle_fullscreen");
    reveal_strlit("highlight_yellow");
    assert("next_page"@.len() == 9);
    assert("previous_page"@.len() == 13);
    assert("scroll_up"@.len() == 9);
    assert("scroll_down"@.len() == 11);
    assert("zoom_in"@.len() == 7);
    assert("zoom_out"@.len() == 8);
    assert("zoom_reset"@.len() == 10);
    assert("toggle_fullscreen"@.len() == 17);
    assert("highlight_yellow"@.len() == 16);
    assert("next_page"@[0] != "scroll_up"@[0]);
    assert("zoom_in"@[5] != "zoom_out"@[5]);
}

/// What a controller event asks for under a table of button mappings: a
/// press of a mapped button gives its mapping's action, and for a mapping
/// whose action name is none of the known ones, the press of exactly the
/// mapping's keys; a press of an unmapped `Y` highlights in yellow; a press
/// of any other unmapped button, a release, a stick move or a trigger move
/// gives nothing.
pub proof fn law_event_action(
    e: ControllerEventView,
    buttons: Map<Seq<char>, ButtonMappingView>,
)
    ensures
        match e {
            ControllerEventView::ButtonPressed(b) => {
                &&& buttons.contains_key(b) ==> event_action(e, buttons) == Some(
                    mapped_action(buttons[b]),
                )
                &&& buttons.contains_key(b) && !known_action_name(buttons[b].action)
                    ==> event_action(e, buttons) == Some(ActionView::PressKeys(buttons[b].keys))
                &&& !buttons.contains_key(b) && b == "Y"@ ==> event_action(e, buttons) == Some(
                    ActionView::Highlight(HighlightColor::Yellow),
                )
                &&& !buttons.contains_key(b) && b != "Y"@ ==> event_action(e, buttons) is None
            },
            _ => event_action(e, buttons) is None,
        },
{
    if let ControllerEventView::ButtonPressed(b) = e {
        if buttons.contains_key(b) {
            law_mapped_action_names(buttons[b]);
        }
    }
}

/// Whether `name` is one of the nine action names a mapping can give.
pub open spec fn known_action_name(name: Seq<char>) -> bool {
    name == "next_page"@ || name == "previous_page"@ || name == "scroll_up"@ || name
        == "scroll_down"@ || name == "zoom_in"@ || name == "zoom_out"@ || name == "zoom_reset"@
        || name == "toggle_fullscreen"@ || name == "highlight_yellow"@
}

/// The default button table in use: D-pad up and down scroll up and down,
/// the right and left bumpers turn to the next and previous page, `A` and
/// `B` zoom in and out, `Start` toggles full screen, `Y` highlights in
/// yellow, and `X` does nothing.
pub proof fn law_default_button_actions()
    ensures
        event_action(ControllerEventView::ButtonPressed("DPadUp"@), default_button_mappings())
            == Some(ActionView::Scroll(ScrollDirection::Up)),
        event_action(ControllerEventView::ButtonPressed("DPadDown"@), default_button_mappings())
            == Some(ActionView::Scroll(ScrollDirection::Down)),
        event_action(ControllerEventView::ButtonPressed("RB"@), default_button_mappings()) == Some(
            ActionView::NavigatePage(PageDirection::Next),
        ),
        event_action(ControllerEventView::ButtonPressed("LB"@), default_button_mappings()) == Some(
            ActionView::NavigatePage(PageDirection::Previous),
        ),
        event_action(ControllerEventView::ButtonPressed("A"@), default_button_mappings()) == Some(
            ActionView::Zoom(ZoomDirection::In),
        ),
        event_action(ControllerEventView::ButtonPressed("B"@), default_button_mappings()) == Some(
            ActionView::Zoom(ZoomDirection::Out),
        ),
        event_action(ControllerEventView::ButtonPressed("Start"@), default_button_mappings())
            == Some(ActionView::ToggleFullscreen),
        event_action(ControllerEventView::ButtonPressed("Y"@), default_button_mappings()) == Some(
            ActionView::Highlight(HighlightColor::Yellow),
        ),
        event_action(ControllerEventView::ButtonPressed("X"@), default_button_mappings()) is None,
{
    reveal_strlit("DPadUp");
    reveal_strlit("DPadDown");
    reveal_strlit("RB");
    reveal_strlit("LB");
    reveal_strlit("A");
    reveal_strlit("B");
    reveal_strlit("Start");
    reveal_strlit("Y");
    reveal_strlit("X");
    assert("DPadUp"@.len() == 6 && "DPadDown"@.len() == 8 && "Start"@.len() == 5);
    assert("Y"@.len() == 1 && "X"@.len() == 1 && "A"@.len() == 1 && "B"@.len() == 1);
    assert("RB"@.len() == 2 && "LB"@.len() == 2);
    assert("X"@[0] != "Y"@[0]);
    assert("DPadUp"@[4] != "DPadDown"@[4]);
    assert("RB"@[0] != "LB"@[0]);
    assert("A"@[0] != "B"@[0]);
    assert("Y"@ != "A"@ && "Y"@ != "B"@ && "Y"@ != "RB"@ && "Y"@ != "LB"@);
    assert("Y"@ != "Start"@ && "Y"@ != "DPadUp"@ && "Y"@ != "DPadDown"@);
    assert("X"@ != "A"@ && "X"@ != "B"@ && "X"@ != "RB"@ && "X"@ != "LB"@);
    assert("X"@ != "Start"@ && "X"@ != "DPadUp"@ && "X"@ != "DPadDown"@ && "X"@ != "Y"@);
    let m = default_button_mappings();
    law_mapped_action_names(m["DPadUp"@]);
    law_mapped_action_names(m["DPadDown"@]);
    law_mapped_action_names(m["RB"@]);
    law_mapped_action_names(m["LB"@]);
    law_mapped_action_names(m["A"@]);
    law_mapped_action_names(m["B"@]);
    law_mapped_action_names(m["Start"@]);
}

} // verus!
