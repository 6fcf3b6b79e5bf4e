//! Gamepad events: the events the daemon reacts to, and the tracking of the
//! active gamepad that turns raw gamepad events into them.
use vstd::prelude::*;
use vstd::string::StringExecFns;
use crate::analog::{abs, half_toward_zero, halve_toward_zero, magnitude};
use crate::config::Config;

verus! {

/// An event of the active gamepad that the action layer reacts to.  Stick
/// and trigger values are in millionths.
#[derive(Debug, Clone, PartialEq)]
pub enum ControllerEvent {
    ButtonPressed(String),
    ButtonReleased(String),
    StickMoved { stick: String, x: i32, y: i32 },
    TriggerMoved { trigger: String, value: i32 },
}

/// The view of a `ControllerEvent`.
pub enum ControllerEventView {
    ButtonPressed(Seq<char>),
    ButtonReleased(Seq<char>),
    StickMoved { stick: Seq<char>, x: int, y: int },
    TriggerMoved { trigger: Seq<char>, value: int },
}

impl View for ControllerEvent {
    type V = ControllerEventView;

    open spec fn view(&self) -> ControllerEventView {
        match self {
            ControllerEvent::ButtonPressed(b) => ControllerEventView::ButtonPressed(b@),
            ControllerEvent::ButtonReleased(b) => ControllerEventView::ButtonReleased(b@),
            ControllerEvent::StickMoved { stick, x, y } => ControllerEventView::StickMoved {
                stick: stick@,
                x: *x as int,
                y: *y as int,
            },
            ControllerEvent::TriggerMoved { trigger, value } => ControllerEventView::TriggerMoved {
                trigger: trigger@,
                value: *value as int,
            },
        }
    }
}

/// The position of both analog sticks, each axis in millionths of a full
/// deflection (`y` grows upward).
#[derive(Debug, Clone, Copy, PartialEq, Eq, Structural)]
pub struct StickState {
    pub left_x: i32,
    pub left_y: i32,
    pub right_x: i32,
    pub right_y: i32,
}

/// A button of a gamepad, as the gamepad library names it.  `LeftTrigger`
/// and `RightTrigger` are the bumpers (LB, RB); `LeftTrigger2` and
/// `RightTrigger2` are the triggers (LT, RT).
#[derive(Debug, Clone, Copy, PartialEq, Eq, Structural)]
pub enum GamepadButton {
    South,
    East,
    North,
    West,
    C,
    Z,
    LeftTrigger,
    LeftTrigger2,
    RightTrigger,
    RightTrigger2,
    Select,
    Start,
    Mode,
    LeftThumb,
    RightThumb,
    DPadUp,
    DPadDown,
    DPadLeft,
    DPadRight,
    Unknown,
}

/// An analog axis of a gamepad, as the gamepad library names it.
#[derive(Debug, Clone, Copy, PartialEq, Eq, Structural)]
pub enum GamepadAxis {
    LeftStickX,
    LeftStickY,
    LeftZ,
    RightStickX,
    RightStickY,
    RightZ,
    DPadX,
    DPadY,
    Unknown,
}

/// What happened on a gamepad.  Values are in millionths: an axis value
/// lies in `-1_000_000..=1_000_000`, a button value in `0..=1_000_000`.
#[derive(Debug, Clone, Copy, PartialEq, Eq, Structural)]
pub enum EventKind {
    ButtonPressed(GamepadButton),
    ButtonRepeated(GamepadButton),
    ButtonReleased(GamepadButton),
    ButtonChanged(GamepadButton, i32),
    AxisChanged(GamepadAxis, i32),
    Connected,
    Disconnected,
    Dropped,
}

/// An event of the gamepad with identifier `id`.
#[derive(Debug, Clone, Copy, PartialEq, Eq, Structural)]
pub struct GamepadEvent {
    pub id: usize,
    pub kind: EventKind,
}

/// The name under which a button is mapped.
pub open spec fn button_name(b: GamepadButton) -> Seq<char> {
    match b {
        GamepadButton::South => "A"@,
        GamepadButton::East => "B"@,
        GamepadButton::West => "X"@,
        GamepadButton::North => "Y"@,
        GamepadButton::LeftTrigger => "LB"@,
        GamepadButton::RightTrigger => "RB"@,
        GamepadButton::LeftTrigger2 => "LT"@,
        GamepadButton::RightTrigger2 => "RT"@,
        GamepadButton::Select => "Select"@,
        GamepadButton::Start => "Start"@,
        GamepadButton::LeftThumb => "LeftThumb"@,
        GamepadButton::RightThumb => "RightThumb"@,
        GamepadButton::Mode => "Mode"@,
        GamepadButton::DPadUp => "DPadUp"@,
        GamepadButton::DPadDown => "DPadDown"@,
        GamepadButton::DPadLeft => "DPadLeft"@,
        GamepadButton::DPadRight => "DPadRight"@,
        _ => "Unknown"@,
    }
}

/// The name of a button, as the mapping table knows it.
pub fn button_to_string(btn: GamepadButton) -> (s: String)
    ensures
        s@ == button_name(btn),
{
    let name: &str = match btn {
        GamepadButton::South => "A",
        GamepadButton::East => "B",
        GamepadButton::West => "X",
        GamepadButton::North => "Y",
        GamepadButton::LeftTrigger => "LB",
        GamepadButton::RightTrigger => "RB",
        GamepadButton::LeftTrigger2 => "LT",
        GamepadButton::RightTrigger2 => "RT",
        GamepadButton::Select => "Select",
        GamepadButton::Start => "Start",
        GamepadButton::LeftThumb => "LeftThumb",
        GamepadButton::RightThumb => "RightThumb",
        GamepadButton::Mode => "Mode",
        GamepadButton::DPadUp => "DPadUp",
        GamepadButton::DPadDown => "DPadDown",
        GamepadButton::DPadLeft => "DPadLeft",
        GamepadButton::DPadRight => "DPadRight",
        _ => "Unknown",
    };
    String::from_str(name)
}

/// The name of an axis.
pub open spec fn axis_name(a: GamepadAxis) -> Seq<char> {
    match a {
        GamepadAxis::LeftStickX => "LeftStickX"@,
        GamepadAxis::LeftStickY => "LeftStickY"@,
        GamepadAxis::LeftZ => "LeftTrigger"@,
        GamepadAxis::RightStickX => "RightStickX"@,
        GamepadAxis::RightStickY => "RightStickY"@,
        GamepadAxis::RightZ => "RightTrigger"@,
        _ => "Unknown"@,
    }
}

/// The name of an axis.
pub fn axis_to_string(axis: GamepadAxis) -> (s: String)
    ensures
        s@ == axis_name(axis),
{
    let name: &str = match axis {
        GamepadAxis::LeftStickX => "LeftStickX",
        GamepadAxis::LeftStickY => "LeftStickY",
        GamepadAxis::LeftZ => "LeftTrigger",
        GamepadAxis::RightStickX => "RightStickX",
        GamepadAxis::RightStickY => "RightStickY",
        GamepadAxis::RightZ => "RightTrigger",
        _ => "Unknown",
    };
    String::from_str(name)
}

/// Whether an axis belongs to one of the two analog sticks.
pub open spec fn stick_axis(a: GamepadAxis) -> bool {
    a is LeftStickX || a is LeftStickY || a is RightStickX || a is RightStickY
}

/// Whether an axis is one of the two analog triggers.
pub open spec fn trigger_axis(a: GamepadAxis) -> bool {
    a is LeftZ || a is RightZ
}

/// Whether an axis belongs to one of the two analog sticks.
pub fn is_stick_axis(axis: GamepadAxis) -> (b: bool)
    ensures
        b == stick_axis(axis),
{
    match axis {
        GamepadAxis::LeftStickX | GamepadAxis::LeftStickY | GamepadAxis::RightStickX
        | GamepadAxis::RightStickY => true,
        _ => false,
    }
}

/// Whether an axis is one of the two analog triggers.
pub fn is_trigger_axis(axis: GamepadAxis) -> (b: bool)
    ensures
        b == trigger_axis(axis),
{
    match axis {
        GamepadAxis::LeftZ | GamepadAxis::RightZ => true,
        _ => false,
    }
}

/// The stick an axis belongs to, and the coordinates reported for a change
/// of it.  Only the changed axis is known, so its value is reported on both
/// coordinates; an axis of no stick gives `"Unknown"` at the origin.
pub open spec fn stick_of_axis(a: GamepadAxis, value: int) -> (Seq<char>, (int, int)) {
    match a {
        GamepadAxis::LeftStickX | GamepadAxis::LeftStickY => ("LeftStick"@, (value, value)),
        GamepadAxis::RightStickX | GamepadAxis::RightStickY => ("RightStick"@, (value, value)),
        _ => ("Unknown"@, (0, 0)),
    }
}

/// The stick an axis belongs to, and the coordinates reported for a change
/// of it.
pub fn parse_stick_axis(axis: GamepadAxis, value: i32) -> (r: (String, (i32, i32)))
    ensures
        (r.0@, (r.1.0 as int, r.1.1 as int)) == stick_of_axis(axis, value as int),
{
    match axis {
        GamepadAxis::LeftStickX | GamepadAxis::LeftStickY => (
            String::from_str("LeftStick"),
            (value, value),
        ),
        GamepadAxis::RightStickX | GamepadAxis::RightStickY => (
            String::from_str("RightStick"),
            (value, value),
        ),
        _ => (String::from_str("Unknown"), (0, 0)),
    }
}

/// Whether a change of an axis is reported: only stick and trigger axes
/// are, and only beyond the dead zone.
pub open spec fn axis_reported(a: GamepadAxis, value: int, deadzone: int) -> bool {
    (stick_axis(a) || trigger_axis(a)) && abs(value) > deadzone
}

/// Whether a change of an axis is reported.
pub fn should_report_axis(axis: GamepadAxis, value: i32, deadzone: i32) -> (b: bool)
    ensures
        b == axis_reported(axis, value as int, deadzone as int),
{
    if is_stick_axis(axis) || is_trigger_axis(axis) {
        magnitude(value) > deadzone as i64
    } else {
        false
    }
}

/// A trigger's axis value (`-1..=1`) normalised to `0..=1`, in millionths,
/// rounded toward zero.
pub open spec fn trigger_level(value: int) -> int {
    half_toward_zero(value + 1_000_000)
}

/// The views of an optional controller event.
pub open spec fn event_option_view(e: Option<ControllerEvent>) -> Option<ControllerEventView> {
    match e {
        Some(x) => Some(x@),
        None => None,
    }
}

/// One step of active-gamepad tracking: the active gamepad after a raw
/// event, and the controller event it reports, if any.
///
/// With no active gamepad, the event's gamepad becomes the active one.
/// Events of any other gamepad are ignored.  A disconnection leaves no
/// gamepad active; a connection makes the event's gamepad the active one.
pub open spec fn event_step(active: Option<usize>, deadzone: int, e: GamepadEvent) -> (
    Option<usize>,
    Option<ControllerEventView>,
) {
    let current = if active is None {
        Some(e.id)
    } else {
        active
    };
    if current != Some(e.id) {
        (current, None)
    } else {
        match e.kind {
            EventKind::ButtonPressed(b) => (
                current,
                Some(ControllerEventView::ButtonPressed(button_name(b))),
            ),
            EventKind::ButtonReleased(b) => (
                current,
                Some(ControllerEventView::ButtonReleased(button_name(b))),
            ),
            EventKind::AxisChanged(a, v) => {
                if axis_reported(a, v as int, deadzone) && stick_axis(a) {
                    let (stick, coords) = stick_of_axis(a, v as int);
                    (
                        current,
                        Some(ControllerEventView::StickMoved { stick, x: coords.0, y: coords.1 }),
                    )
                } else if axis_reported(a, v as int, deadzone) && trigger_axis(a) {
                    (
                        current,
                        Some(
                            ControllerEventView::TriggerMoved {
                                trigger: axis_name(a),
                                value: trigger_level(v as int),
                            },
                        ),
                    )
                } else {
                    (current, None)
                }
            },
            EventKind::Disconnected => (None, None),
            EventKind::Connected => (Some(e.id), None),
            _ => (current, None),
        }
    }
}

/// Runs active-gamepad tracking over pending events until one is reported:
/// the active gamepad afterwards, how many events were taken, and the
/// reported event (none when every pending event was taken without one).
pub open spec fn poll_run(active: Option<usize>, deadzone: int, events: Seq<GamepadEvent>) -> (
    Option<usize>,
    nat,
    Option<ControllerEventView>,
)
    decreases events.len(),
{
    if events.len() == 0 {
        (active, 0, None)
    } else {
        let (next, out) = event_step(active, deadzone, events[0]);
        if out is Some {
            (next, 1, out)
        } else {
            let (last, n, found) = poll_run(next, deadzone, events.drop_first());
            (last, n + 1, found)
        }
    }
}

/// Tracks which gamepad is active and turns its raw events into controller
/// events.
#[derive(Debug)]
pub struct ControllerManager {
    pub active_gamepad_id: Option<usize>,
    pub config: Config,
}

impl ControllerManager {
    /// A manager for the given configuration; the first of the connected
    /// gamepads, if any, becomes the active one.
    pub fn new(config: Config, gamepads: &Vec<usize>) -> (m: Self)
        ensures
            m.config == config,
            m.active_gamepad_id == (if gamepads@.len() > 0 {
                Some(gamepads@[0])
            } else {
                None::<usize>
            }),
    {
        let active_gamepad_id = if gamepads.len() > 0 {
            Some(gamepads[0])
        } else {
            None
        };
        ControllerManager { active_gamepad_id, config }
    }

    /// Takes one raw event: updates the active gamepad and returns the
    /// controller event it reports, if any.
    pub fn handle_event(&mut self, event: &GamepadEvent) -> (r: Option<ControllerEvent>)
        ensures
            final(self).config == old(self).config,
            (final(self).active_gamepad_id, event_option_view(r)) == event_step(
                old(self).active_gamepad_id,
                old(self).config.deadzone as int,
                *event,
            ),
    {
        let id = event.id;
        if self.active_gamepad_id.is_none() {
            self.active_gamepad_id = Some(id);
        }
        match self.active_gamepad_id {
            Some(active) => {
                if active != id {
                    return None;
                }
            },
            None => {},
        }
        match event.kind {
            EventKind::ButtonPressed(btn) => Some(ControllerEvent::ButtonPressed(button_to_string(btn))),
            EventKind::ButtonReleased(btn) => Some(
                ControllerEvent::ButtonReleased(button_to_string(btn)),
            ),
            EventKind::AxisChanged(axis, value) => {
                if should_report_axis(axis, value, self.config.deadzone) {
                    if is_stick_axis(axis) {
                        let (stick, coords) = parse_stick_axis(axis, value);
                        Some(ControllerEvent::StickMoved { stick, x: coords.0, y: coords.1 })
                    } else if is_trigger_axis(axis) {
                        let level = halve_toward_zero(value as i64 + 1_000_000);
                        Some(
                            ControllerEvent::TriggerMoved {
                                trigger: axis_to_string(axis),
                                value: level as i32,
                            },
                        )
                    } else {
                        None
                    }
                } else {
                    None
                }
            },
            EventKind::Disconnected => {
                self.active_gamepad_id = None;
                None
            },
            EventKind::Connected => {
                self.active_gamepad_id = Some(id);
                None
            },
            _ => None,
        }
    }

    /// Takes pending raw events in order until one reports a controller
    /// event.  Returns how many events were taken (the rest stay pending)
    /// and the reported event, or `None` when all were taken without one.
    pub fn poll_event(&mut self, events: &Vec<GamepadEvent>) -> (r: (usize, Option<ControllerEvent>))
        ensures
            final(self).config == old(self).config,
            r.0 <= events@.len(),
            events@.len() > 0 ==> r.0 >= 1,
            r.1 is None ==> r.0 == events@.len(),
            (final(self).active_gamepad_id, r.0 as nat, event_option_view(r.1)) == poll_run(
                old(self).active_gamepad_id,
                old(self).config.deadzone as int,
                events@,
            ),
    {
        let n = events.len();
        let ghost start = old(self).active_gamepad_id;
        let ghost dz = old(self).config.deadzone as int;
        let ghost whole = poll_run(start, dz, events@);
        proof {
            lemma_poll_run_bounds(start, dz, events@);
        }
        let mut i: usize = 0;
        proof {
            assert(events@.skip(0) =~= events@);
        }
        while i < n
            invariant
                n == events@.len(),
                0 <= i <= n,
                self.config == old(self).config,
                start == old(self).active_gamepad_id,
                dz == self.config.deadzone as int,
                whole == poll_run(start, dz, events@),
                ({
                    let rest = poll_run(self.active_gamepad_id, dz, events@.skip(i as int));
                    whole == (rest.0, (rest.1 + i) as nat, rest.2)
                }),
            decreases n - i,
        {
            let ghost before = self.active_gamepad_id;
            proof {
                assert(events@.skip(i as int)[0] == events@[i as int]);
                assert(events@.skip(i as int).drop_first() =~= events@.skip(i + 1));
            }
            let out = self.handle_event(&events[i]);
            proof {
                let rest = events@.skip(i as int);
                let step = event_step(before, dz, rest[0]);
                assert(step == (self.active_gamepad_id, event_option_view(out)));
                if out is None {
                    assert(poll_run(before, dz, rest) == ({
                        let r = poll_run(self.active_gamepad_id, dz, rest.drop_first());
                        (r.0, r.1 + 1, r.2)
                    }));
                } else {
                    assert(poll_run(before, dz, rest) == (
                        self.active_gamepad_id,
                        1nat,
                        event_option_view(out),
                    ));
                }
            }
            i = i + 1;
            if out.is_some() {
                return (i, out);
            }
        }
        proof {
            assert(events@.skip(n as int) =~= Seq::<GamepadEvent>::empty());
        }
        (n, None)
    }
}

/// Taking pending events stops at the first one reported: at least one
/// event is taken when any is pending, no more than are pending, and all of
/// them when none is reported.
pub proof fn lemma_poll_run_bounds(active: Option<usize>, deadzone: int, events: Seq<GamepadEvent>)
    ensures
        poll_run(active, deadzone, events).1 <= events.len(),
        events.len() > 0 ==> poll_run(active, deadzone, events).1 >= 1,
        poll_run(active, deadzone, events).2 is None ==> poll_run(active, deadzone, events).1
            == events.len(),
    decreases events.len(),
{
    if events.len() > 0 {
        let (next, _) = event_step(active, deadzone, events[0]);
        lemma_poll_run_bounds(next, deadzone, events.drop_first());
    }
}

/// Other gamepads are ignored: while a gamepad is active, an event of any
/// other gamepad changes nothing and reports nothing.
pub proof fn law_other_gamepads_ignored(active: usize, deadzone: int, e: GamepadEvent)
    requires
        e.id != active,
    ensures
        event_step(Some(active), deadzone, e) == (Some(active), None::<ControllerEventView>),
{
}

/// Reconnection: once the active gamepad is disconnected, no gamepad is
/// active, and the next event of any gamepad makes that gamepad the active
/// one (unless it is itself a disconnection) and is handled as an event of
/// the active gamepad.
pub proof fn law_reconnect(
    active: usize,
    deadzone: int,
    disconnect: GamepadEvent,
    next: GamepadEvent,
)
    requires
        disconnect.id == active,
        disconnect.kind is Disconnected,
    ensures
        event_step(Some(active), deadzone, disconnect).0 is None,
        event_step(None, deadzone, next) == event_step(Some(next.id), deadzone, next),
        event_step(None, deadzone, next).0 == (if next.kind is Disconnected {
            None
        } else {
            Some(next.id)
        }),
{
}

/// Trigger normalisation: an axis value in `-1..=1` is reported as a
/// trigger level in `0..=1` (in millionths).
pub proof fn law_trigger_level_range(value: int)
    requires
        -1_000_000 <= value <= 1_000_000,
    ensures
        0 <= trigger_level(value) <= 1_000_000,
{
}

/// Dead zone: a change of an axis no further from the centre than the dead
/// zone is never reported, whichever gamepad is active.
pub proof fn law_axis_deadzone_quiet(
    active: Option<usize>,
    deadzone: int,
    id: usize,
    axis: GamepadAxis,
    value: i32,
)
    requires
        abs(value as int) <= deadzone,
    ensures
        event_step(active, deadzone, GamepadEvent { id, kind: EventKind::AxisChanged(axis, value) }).1
            is None,
{
}

/// The active gamepad across a whole poll: while gamepad `i` is active,
/// only a disconnection of `i` itself among the events taken can end that;
/// events of other gamepads, connections included, never change it.
pub proof fn law_poll_keeps_active(i: usize, deadzone: int, events: Seq<GamepadEvent>)
    ensures
        ({
            let (after, taken, _) = poll_run(Some(i), deadzone, events);
            (forall|k: int|
                0 <= k < taken ==> !(#[trigger] events[k].id == i && events[k].kind is Disconnected))
                ==> after == Some(i)
        }),
    decreases events.len(),
{
    if events.len() > 0 {
        let tail = events.drop_first();
        let (next, out) = event_step(Some(i), deadzone, events[0]);
        let (after, taken, _) = poll_run(Some(i), deadzone, events);
        if forall|k: int|
            0 <= k < taken ==> !(#[trigger] events[k].id == i && events[k].kind is Disconnected) {
            assert(!(events[0].id == i && events[0].kind is Disconnected));
            assert(next == Some(i));
            if out is None {
                law_poll_keeps_active(i, deadzone, tail);
                lemma_poll_run_bounds(next, deadzone, tail);
                let (_, t2, _) = poll_run(next, deadzone, tail);
                assert forall|k: int|
                    0 <= k < t2 implies !(#[trigger] tail[k].id == i && tail[k].kind is Disconnected) by {
                    assert(tail[k] == events[k + 1]);
                }
            }
        }
    }
}

/// The active gamepad across a whole poll is the one active before, none,
/// or the gamepad of one of the events taken.
pub proof fn law_poll_active_source(active: Option<usize>, deadzone: int, events: Seq<GamepadEvent>)
    ensures
        ({
            let (after, taken, _) = poll_run(active, deadzone, events);
            ||| after == active
            ||| after is None
            ||| exists|k: int| 0 <= k < taken && Some(#[trigger] events[k].id) == after
        }),
    decreases events.len(),
{
    if events.len() > 0 {
        let tail = events.drop_first();
        let (next, out) = event_step(active, deadzone, events[0]);
        assert(next == active || next is None || next == Some(events[0].id));
        if out is None {
            law_poll_active_source(next, deadzone, tail);
            lemma_poll_run_bounds(next, deadzone, tail);
            let (after, t2, _) = poll_run(next, deadzone, tail);
            if after != next && after is Some {
                let k = choose|k: int| 0 <= k < t2 && Some(#[trigger] tail[k].id) == after;
                assert(tail[k] == events[k + 1]);
            }
            if after == next && next == Some(events[0].id) {
                assert(Some(events[0].id) == after);
            }
        }
    }
}

/// How an event moves the active gamepad.  With gamepad `i` active, only a
/// disconnection of `i` changes it (to none); with none active, any event
/// but a disconnection makes its gamepad the active one.
pub open spec fn active_transition(active: Option<usize>, e: GamepadEvent) -> Option<usize> {
    match active {
        Some(i) => {
            if e.id == i && e.kind is Disconnected {
                None
            } else {
                Some(i)
            }
        },
        None => {
            if e.kind is Disconnected {
                None
            } else {
                Some(e.id)
            }
        },
    }
}

/// The active gamepad after a list of events, each moving it by
/// `active_transition`.
pub open spec fn active_after(active: Option<usize>, events: Seq<GamepadEvent>) -> Option<usize>
    decreases events.len(),
{
    if events.len() == 0 {
        active
    } else {
        active_after(active_transition(active, events[0]), events.drop_first())
    }
}

/// Taking events one list after another moves the active gamepad as taking
/// them all in one list.
pub proof fn lemma_active_after_append(
    active: Option<usize>,
    first: Seq<GamepadEvent>,
    second: Seq<GamepadEvent>,
)
    ensures
        active_after(active, first + second) == active_after(active_after(active, first), second),
    decreases first.len(),
{
    if first.len() == 0 {
        assert(first + second =~= second);
    } else {
        assert((first + second)[0] == first[0]);
        assert((first + second).drop_first() =~= first.drop_first() + second);
        lemma_active_after_append(active_transition(active, first[0]), first.drop_first(), second);
    }
}

/// Active-gamepad transitions: every event taken moves the active gamepad
/// by `active_transition` and by nothing else, so a poll leaves the
/// active gamepad that the events it took lead to.  Over several polls the
/// events taken follow one another, so by `lemma_active_after_append` the
/// active gamepad after them all is `active_after` of all the events taken.
pub proof fn law_active_transitions(active: Option<usize>, deadzone: int, events: Seq<GamepadEvent>)
    ensures
        forall|e: GamepadEvent| #[trigger] event_step(active, deadzone, e).0 == active_transition(active, e),
        ({
            let (after, taken, _) = poll_run(active, deadzone, events);
            after == active_after(active, events.take(taken as int))
        }),
    decreases events.len(),
{
    lemma_poll_run_bounds(active, deadzone, events);
    if events.len() > 0 {
        let e = events[0];
        let tail = events.drop_first();
        let (next, out) = event_step(active, deadzone, e);
        assert(next == active_transition(active, e));
        let (after, taken, _) = poll_run(active, deadzone, events);
        if out is Some {
            let one = events.take(1);
            assert(one.drop_first() =~= Seq::<GamepadEvent>::empty());
            assert(one[0] == e);
            assert(active_after(next, one.drop_first()) == next);
            assert(active_after(active, one) == next);
        } else {
            law_active_transitions(next, deadzone, tail);
            let (_, t2, _) = poll_run(next, deadzone, tail);
            let part = events.take(taken as int);
            assert(part[0] == e);
            assert(part.drop_first() =~= tail.take(t2 as int));
            assert(active_after(active, part) == active_after(next, part.drop_first()));
        }
    } else {
        assert(events.take(0) =~= Seq::<GamepadEvent>::empty());
    }
}

/// The names under which buttons are reported: the face buttons by their
/// Xbox letters (South `A`, East `B`, West `X`, North `Y`), the bumpers
/// `LB`/`RB`, the triggers `LT`/`RT`, the others by their own names, and
/// `C`, `Z` and unknown buttons as `Unknown`.
pub proof fn law_button_names()
    ensures
        button_name(GamepadButton::South) == "A"@,
        button_name(GamepadButton::East) == "B"@,
        button_name(GamepadButton::West) == "X"@,
        button_name(GamepadButton::North) == "Y"@,
        button_name(GamepadButton::LeftTrigger) == "LB"@,
        button_name(GamepadButton::RightTrigger) == "RB"@,
        button_name(GamepadButton::LeftTrigger2) == "LT"@,
        button_name(GamepadButton::RightTrigger2) == "RT"@,
        button_name(GamepadButton::Select) == "Select"@,
        button_name(GamepadButton::Start) == "Start"@,
        button_name(GamepadButton::Mode) == "Mode"@,
        button_name(GamepadButton::LeftThumb) == "LeftThumb"@,
        button_name(GamepadButton::RightThumb) == "RightThumb"@,
        button_name(GamepadButton::DPadUp) == "DPadUp"@,
        button_name(GamepadButton::DPadDown) == "DPadDown"@,
        button_name(GamepadButton::DPadLeft) == "DPadLeft"@,
        button_name(GamepadButton::DPadRight) == "DPadRight"@,
        button_name(GamepadButton::C) == "Unknown"@,
        button_name(GamepadButton::Z) == "Unknown"@,
        button_name(GamepadButton::Unknown) == "Unknown"@,
{
}

/// Buttons of the active gamepad are reported under their own names: a
/// press of `b` is reported as a press of `button_name(b)`, a release as a
/// release of it, and the active gamepad stays.  Repeats and value changes
/// of buttons are not reported.
pub proof fn law_buttons_reported(i: usize, deadzone: int, b: GamepadButton, v: i32)
    ensures
        event_step(Some(i), deadzone, GamepadEvent { id: i, kind: EventKind::ButtonPressed(b) })
            == (Some(i), Some(ControllerEventView::ButtonPressed(button_name(b)))),
        event_step(Some(i), deadzone, GamepadEvent { id: i, kind: EventKind::ButtonReleased(b) })
            == (Some(i), Some(ControllerEventView::ButtonReleased(button_name(b)))),
        event_step(Some(i), deadzone, GamepadEvent { id: i, kind: EventKind::ButtonRepeated(b) })
            == (Some(i), None::<ControllerEventView>),
        event_step(
            Some(i),
            deadzone,
            GamepadEvent { id: i, kind: EventKind::ButtonChanged(b, v) },
        ) == (Some(i), None::<ControllerEventView>),
{
}

/// Axis changes of the active gamepad beyond the dead zone: a stick axis is
/// reported as a move of its stick (`LeftStick` or `RightStick`) with the
/// new value on both coordinates; a trigger axis as a move of its trigger
/// (`LeftTrigger` or `RightTrigger`) to the level `(value + 1) / 2`, which
/// lies in `0..=1` and is exact up to half a millionth, rounded down; the
/// D-pad axes and unknown axes are not reported.
pub proof fn law_axis_events(i: usize, deadzone: int, axis: GamepadAxis, value: i32)
    requires
        value > deadzone || value < -deadzone,
    ensures
        ({
            let r = event_step(Some(i), deadzone, GamepadEvent { id: i, kind: EventKind::AxisChanged(axis, value) });
            let v = value as int;
            &&& r.0 == Some(i)
            &&& (axis is LeftStickX || axis is LeftStickY) ==> r.1 == Some(
                ControllerEventView::StickMoved { stick: "LeftStick"@, x: v, y: v },
            )
            &&& (axis is RightStickX || axis is RightStickY) ==> r.1 == Some(
                ControllerEventView::StickMoved { stick: "RightStick"@, x: v, y: v },
            )
            &&& (axis is LeftZ || axis is RightZ) ==> (r.1 matches Some(
                ControllerEventView::TriggerMoved { trigger, value: level },
            ) && trigger == (if axis is LeftZ {
                "LeftTrigger"@
            } else {
                "RightTrigger"@
            }) && (-1_000_000 <= v ==> 2 * level <= v + 1_000_000 < 2 * level + 2) && (
            -1_000_000 <= v <= 1_000_000 ==> 0 <= level <= 1_000_000))
            &&& (axis is DPadX || axis is DPadY || axis is Unknown) ==> r.1 is None
        }),
{
}

/// A poll reports the first event that reports anything, and only it: the
/// events taken before it report nothing, each taken in turn from the
/// active gamepad the earlier ones lead to.
pub proof fn law_poll_first_report(active: Option<usize>, deadzone: int, events: Seq<GamepadEvent>)
    ensures
        ({
            let (_, taken, found) = poll_run(active, deadzone, events);
            &&& forall|k: int|
                0 <= k < taken - 1 ==> (#[trigger] event_step(
                    active_after(active, events.take(k)),
                    deadzone,
                    events[k],
                )).1 is None
            &&& found is Some ==> taken >= 1 && event_step(
                active_after(active, events.take(taken - 1)),
                deadzone,
                events[taken - 1],
            ).1 == found
            &&& found is None ==> taken == events.len() && forall|k: int|
                0 <= k < events.len() ==> (#[trigger] event_step(
                    active_after(active, events.take(k)),
                    deadzone,
                    events[k],
                )).1 is None
        }),
    decreases events.len(),
{
    lemma_poll_run_bounds(active, deadzone, events);
    if events.len() > 0 {
        let e = events[0];
        let tail = events.drop_first();
        let (next, out) = event_step(active, deadzone, e);
        law_active_transitions(active, deadzone, events);
        assert(events.take(0) =~= Seq::<GamepadEvent>::empty());
        if out is None {
            law_poll_first_report(next, deadzone, tail);
            lemma_poll_run_bounds(next, deadzone, tail);
            let (_, taken, found) = poll_run(active, deadzone, events);
            assert forall|k: int| 1 <= k < events.len() implies active_after(active, events.take(k))
                == active_after(next, tail.take(k - 1)) && events[k] == tail[k - 1] by {
                assert(events.take(k)[0] == e);
                assert(events.take(k).drop_first() =~= tail.take(k - 1));
            }
            assert forall|k: int|
                0 <= k < taken - 1 implies (#[trigger] event_step(
                    active_after(active, events.take(k)),
                    deadzone,
                    events[k],
                )).1 is None by {
                if k >= 1 {
                    assert(active_after(active, events.take(k)) == active_after(next, tail.take(k - 1)));
                }
            }
            if found is None {
                assert forall|k: int|
                    0 <= k < events.len() implies (#[trigger] event_step(
                        active_after(active, events.take(k)),
                        deadzone,
                        events[k],
                    )).1 is None by {
                    if k >= 1 {
                        assert(active_after(active, events.take(k)) == active_after(next, tail.take(k - 1)));
                    }
                }
            }
        }
    }
}

} // verus!
