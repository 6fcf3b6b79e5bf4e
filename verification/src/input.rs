//! Input injection: the `xdotool` command lines that carry out an action,
//! and the tracking of the mouse button held down by a drag-select.
use vstd::prelude::*;
use vstd::string::StringExecFns;
use crate::action::{stick_actions, Action, ActionView, HighlightColor, PageDirection, ScrollDirection, ZoomDirection};
use crate::controller::StickState;
use crate::analog::{round_half_away, round_to_whole, saturate_i32};
use crate::text::{decimal, decimal_string, join, joined, lowercase, str_equals, to_lowercase, views};

verus! {

/// The arguments of one `xdotool` invocation.
#[derive(Debug, Clone, PartialEq)]
pub struct XdoCommand {
    pub args: Vec<String>,
}

impl View for XdoCommand {
    type V = Seq<Seq<char>>;

    open spec fn view(&self) -> Seq<Seq<char>> {
        views(self.args@)
    }
}

/// The views of a list of commands.
pub open spec fn command_views(s: Seq<XdoCommand>) -> Seq<Seq<Seq<char>>> {
    s.map_values(|c: XdoCommand| c@)
}

/// `xdotool key <keys>`: press a key combination.
pub open spec fn key_command(keys: Seq<char>) -> Seq<Seq<char>> {
    seq!["key"@, keys]
}

/// `xdotool mousedown 1`: press the left mouse button.
pub open spec fn mouse_down_command() -> Seq<Seq<char>> {
    seq!["mousedown"@, "1"@]
}

/// `xdotool mouseup 1`: release the left mouse button.
pub open spec fn mouse_up_command() -> Seq<Seq<char>> {
    seq!["mouseup"@, "1"@]
}

/// A displacement in millionths of a pixel, rounded to whole pixels.
pub open spec fn pixels(v: int) -> int {
    saturate_i32(round_half_away(v))
}

/// `xdotool mousemove_relative -- <dx> <dy>`: move the mouse pointer by a
/// displacement given in millionths of a pixel, rounded to whole pixels.
pub open spec fn move_command(dx: int, dy: int) -> Seq<Seq<char>> {
    seq!["mousemove_relative"@, "--"@, decimal(pixels(dx)), decimal(pixels(dy))]
}

/// The key that scrolls in a direction.
pub open spec fn scroll_key(d: ScrollDirection) -> Seq<char> {
    match d {
        ScrollDirection::Up => "Up"@,
        ScrollDirection::Down => "Down"@,
        ScrollDirection::Left => "Left"@,
        ScrollDirection::Right => "Right"@,
    }
}

/// How many key presses one scroll action sends.
pub const SCROLL_CLICKS: usize = 3;

/// The key combination that zooms in a direction.
pub open spec fn zoom_keys(d: ZoomDirection) -> Seq<char> {
    match d {
        ZoomDirection::In => "ctrl+plus"@,
        ZoomDirection::Out => "ctrl+minus"@,
        ZoomDirection::Reset => "ctrl+0"@,
    }
}

/// The `xdotool` invocations that carry out an action, in order, given
/// whether the left mouse button is held down by a drag-select.
///
/// Keys to press are joined with `+` and lowercased; a page turn presses
/// Right or Left; a scroll presses its arrow key three times; a zoom presses
/// Ctrl with plus, minus or 0; full screen is F11; a yellow highlight is
/// Ctrl+6.  A cursor move moves the pointer.  An active selection step
/// presses the mouse button first unless it is already held, then moves the
/// pointer; an inactive one releases the button if it is held.
pub open spec fn action_commands(dragging: bool, a: ActionView) -> Seq<Seq<Seq<char>>> {
    match a {
        ActionView::PressKeys(keys) => seq![key_command(lowercase(joined(keys, "+"@)))],
        ActionView::NavigatePage(PageDirection::Next) => seq![key_command("Right"@)],
        ActionView::NavigatePage(PageDirection::Previous) => seq![key_command("Left"@)],
        ActionView::Scroll(d) => seq![
            key_command(scroll_key(d)),
            key_command(scroll_key(d)),
            key_command(scroll_key(d)),
        ],
        ActionView::Zoom(d) => seq![key_command(zoom_keys(d))],
        ActionView::ToggleFullscreen => seq![key_command("F11"@)],
        ActionView::MoveCursor { dx, dy } => seq![move_command(dx, dy)],
        ActionView::SelectText { dx, dy, active } => {
            if active {
                if dragging {
                    seq![move_command(dx, dy)]
                } else {
                    seq![mouse_down_command(), move_command(dx, dy)]
                }
            } else if dragging {
                seq![mouse_up_command()]
            } else {
                Seq::empty()
            }
        },
        ActionView::Highlight(HighlightColor::Yellow) => seq![key_command("ctrl+6"@)],
    }
}

/// Whether the mouse button is held after a command has run: a press holds
/// it, a release lets it go, any other command leaves it as it was.
pub open spec fn drag_after_command(dragging: bool, c: Seq<Seq<char>>) -> bool {
    if c == mouse_down_command() {
        true
    } else if c == mouse_up_command() {
        false
    } else {
        dragging
    }
}

/// Whether the mouse button is held after a list of commands has run.
pub open spec fn drag_through(dragging: bool, cmds: Seq<Seq<Seq<char>>>) -> bool
    decreases cmds.len(),
{
    if cmds.len() == 0 {
        dragging
    } else {
        drag_after_command(drag_through(dragging, cmds.drop_last()), cmds.last())
    }
}

/// Whether the specification of `run` allows it to return `out` for some
/// command whose arguments are `c` (what `run` may give back for such a
/// command; it does not by itself say that `run` was called).
pub open spec fn ran_with<E, F: Fn(&XdoCommand) -> Result<(), E>>(
    run: F,
    c: Seq<Seq<char>>,
    out: Result<(), E>,
) -> bool {
    exists|x: &XdoCommand| x@ == c && #[trigger] call_ensures(run, (x,), out)
}

/// Whether the specification of `run` allows it to succeed for some command
/// whose arguments are `c`.
pub open spec fn ran_ok<E, F: Fn(&XdoCommand) -> Result<(), E>>(run: F, c: Seq<Seq<char>>) -> bool {
    exists|out: Result<(), E>| out is Ok && #[trigger] ran_with(run, c, out)
}

/// The progress of carrying out one action: its commands, how many of them
/// have run and succeeded, and whether one has failed.
pub struct ActionRunView {
    pub commands: Seq<Seq<Seq<char>>>,
    pub next: nat,
    pub failed: bool,
}

/// The command to run next: the first one not yet run, unless one has
/// failed or all have run.
pub open spec fn pending_command(v: ActionRunView) -> Option<Seq<Seq<char>>> {
    if !v.failed && v.next < v.commands.len() {
        Some(v.commands[v.next as int])
    } else {
        None
    }
}

/// The progress and the mouse button state after the pending command has
/// run with outcome `ok`: on success the next command becomes pending and
/// the button state follows the command; on failure nothing more is pending
/// and the button state is kept.  With no command pending nothing changes.
pub open spec fn finish_pending(v: ActionRunView, held: bool, ok: bool) -> (ActionRunView, bool) {
    match pending_command(v) {
        Some(c) => {
            if ok {
                (ActionRunView { next: v.next + 1, ..v }, drag_after_command(held, c))
            } else {
                (ActionRunView { failed: true, ..v }, held)
            }
        },
        None => (v, held),
    }
}

/// Drives a run with a list of outcomes, one per command run: the commands
/// run, in order, the progress at the end and the button state at the end.
pub open spec fn drive(v: ActionRunView, held: bool, outcomes: Seq<bool>) -> (
    Seq<Seq<Seq<char>>>,
    ActionRunView,
    bool,
)
    decreases outcomes.len(),
{
    match pending_command(v) {
        Some(c) => {
            if outcomes.len() == 0 {
                (Seq::empty(), v, held)
            } else {
                let (v1, h1) = finish_pending(v, held, outcomes[0]);
                let (rest, vf, hf) = drive(v1, h1, outcomes.drop_first());
                (seq![c] + rest, vf, hf)
            }
        },
        None => (Seq::empty(), v, held),
    }
}

/// The index of the first failure in a list of outcomes, or its length when
/// there is none.
pub open spec fn first_failure(outcomes: Seq<bool>) -> nat
    decreases outcomes.len(),
{
    if outcomes.len() == 0 {
        0
    } else if !outcomes[0] {
        0
    } else {
        first_failure(outcomes.drop_first()) + 1
    }
}

/// The smaller of two numbers.
pub open spec fn min_nat(a: nat, b: nat) -> nat {
    if a <= b {
        a
    } else {
        b
    }
}

/// Running one command and then a list leaves the button as running the
/// command and then the list.
proof fn lemma_drag_through_prepend(held: bool, c: Seq<Seq<char>>, rest: Seq<Seq<Seq<char>>>)
    ensures
        drag_through(held, seq![c] + rest) == drag_through(drag_after_command(held, c), rest),
{
    lemma_drag_through_append(held, seq![c], rest);
    assert(seq![c].drop_last() =~= Seq::<Seq<Seq<char>>>::empty());
    assert(drag_through(held, Seq::<Seq<Seq<char>>>::empty()) == held);
    assert(drag_through(held, seq![c]) == drag_after_command(held, c));
}

/// Driving from the `k`-th command: the commands run are the next ones in
/// order, as many as there are commands left, outcomes given, or up to and
/// including the first failure, whichever is fewest; the run has failed
/// exactly when a failure came among them; and the button state is the one
/// left by the commands that succeeded.
proof fn lemma_drive(v: ActionRunView, held: bool, outcomes: Seq<bool>)
    requires
        !v.failed,
        v.next <= v.commands.len(),
    ensures
        ({
            let (ran, vf, hf) = drive(v, held, outcomes);
            let left = (v.commands.len() - v.next) as nat;
            let f = first_failure(outcomes);
            let failed = f < outcomes.len() && f < left;
            let succeeded = if failed { f } else { ran.len() };
            &&& ran.len() == min_nat(min_nat(left, outcomes.len()), f + 1)
            &&& ran == v.commands.subrange(v.next as int, (v.next + ran.len()) as int)
            &&& vf.commands == v.commands
            &&& vf.failed == failed
            &&& vf.next == v.next + succeeded
            &&& hf == drag_through(held, v.commands.subrange(v.next as int, (v.next + succeeded) as int))
        }),
    decreases outcomes.len(),
{
    let empty = Seq::<Seq<Seq<char>>>::empty();
    assert(v.commands.subrange(v.next as int, v.next as int) =~= empty);
    if v.next < v.commands.len() && outcomes.len() > 0 {
        let c = v.commands[v.next as int];
        let (v1, h1) = finish_pending(v, held, outcomes[0]);
        let tail = outcomes.drop_first();
        if outcomes[0] {
            lemma_drive(v1, h1, tail);
            let (rest, _, _) = drive(v1, h1, tail);
            let (ran, vf, hf) = drive(v, held, outcomes);
            assert(first_failure(outcomes) == first_failure(tail) + 1);
            assert(ran =~= v.commands.subrange(v.next as int, (v.next + ran.len()) as int));
            let f = first_failure(outcomes);
            let left = (v.commands.len() - v.next) as nat;
            let failed = f < outcomes.len() && f < left;
            let succeeded = if failed { f } else { ran.len() };
            let done = v.commands.subrange(v.next as int, (v.next + succeeded) as int);
            assert(done =~= seq![c] + v.commands.subrange(v1.next as int, v1.next + succeeded - 1));
            lemma_drag_through_prepend(held, c, v.commands.subrange(v1.next as int, v1.next + succeeded - 1));
        } else {
            let (ran, vf, hf) = drive(v, held, outcomes);
            assert(drive(v1, h1, tail) == (empty, v1, h1));
            assert(ran =~= v.commands.subrange(v.next as int, (v.next + 1) as int));
        }
    }
}

/// Stopping at the first failure: carrying out an action step by step runs
/// its commands in order, each once, and none after the first that fails;
/// the button state at the end is the one left by the commands that
/// succeeded.
pub proof fn law_stops_at_first_failure(
    commands: Seq<Seq<Seq<char>>>,
    held: bool,
    outcomes: Seq<bool>,
)
    ensures
        ({
            let start = ActionRunView { commands, next: 0, failed: false };
            let (ran, end, held_after) = drive(start, held, outcomes);
            let f = first_failure(outcomes);
            &&& ran.len() == min_nat(min_nat(commands.len(), outcomes.len()), f + 1)
            &&& ran == commands.take(ran.len() as int)
            &&& end.failed == (f < outcomes.len() && f < commands.len())
            &&& end.failed ==> ran.len() == f + 1 && pending_command(end) is None
            &&& held_after == drag_through(held, commands.take(end.next as int))
        }),
{
    let start = ActionRunView { commands, next: 0, failed: false };
    lemma_drive(start, held, outcomes);
    let (ran, end, _) = drive(start, held, outcomes);
    assert(commands.subrange(0, ran.len() as int) =~= commands.take(ran.len() as int));
    assert(commands.subrange(0, end.next as int) =~= commands.take(end.next as int));
}

/// The progress of carrying out one action.
#[derive(Debug)]
pub struct ActionRun {
    commands: Vec<XdoCommand>,
    next: usize,
    failed: bool,
}

impl View for ActionRun {
    type V = ActionRunView;

    closed spec fn view(&self) -> ActionRunView {
        ActionRunView { commands: command_views(self.commands@), next: self.next as nat, failed: self.failed }
    }
}

impl ActionRun {
    /// No more commands have run than there are.
    #[verifier::type_invariant]
    spec fn inv(self) -> bool {
        self.next <= self.commands@.len()
    }

    /// The command to run next, if any: the first one not yet run, unless
    /// one has failed.
    pub fn next_command(&self) -> (r: Option<&XdoCommand>)
        ensures
            match r {
                Some(c) => pending_command(self@) == Some(c@),
                None => pending_command(self@) is None,
            },
    {
        proof {
            use_type_invariant(self);
        }
        if !self.failed && self.next < self.commands.len() {
            Some(&self.commands[self.next])
        } else {
            None
        }
    }

    /// Whether a command of the run has failed.
    pub fn has_failed(&self) -> (b: bool)
        ensures
            b == self@.failed,
    {
        self.failed
    }
}

/// An `xdotool` invocation from its arguments.
fn command(args: Vec<String>) -> (c: XdoCommand)
    ensures
        c@ == views(args@),
{
    XdoCommand { args }
}

/// `xdotool key <keys>`.
fn key_cmd(keys: String) -> (c: XdoCommand)
    ensures
        c@ == key_command(keys@),
{
    let c = command(vec![String::from_str("key"), keys]);
    assert(c@ =~= key_command(keys@));
    c
}

/// `xdotool` with two fixed arguments.
fn fixed_cmd(a: &str, b: &str) -> (c: XdoCommand)
    ensures
        c@ == seq![a@, b@],
{
    let c = command(vec![String::from_str(a), String::from_str(b)]);
    assert(c@ =~= seq![a@, b@]);
    c
}

/// `xdotool mousemove_relative -- <dx> <dy>`.
fn move_cmd(dx: i64, dy: i64) -> (c: XdoCommand)
    ensures
        c@ == move_command(dx as int, dy as int),
{
    let c = command(
        vec![
            String::from_str("mousemove_relative"),
            String::from_str("--"),
            decimal_string(round_to_whole(dx)),
            decimal_string(round_to_whole(dy)),
        ],
    );
    assert(c@ =~= move_command(dx as int, dy as int));
    c
}

/// Tracks whether the left mouse button is held down for a right-stick
/// drag-select, so that the button is pressed once when a drag starts and
/// released once when it ends, rather than on every polling tick.
#[derive(Debug)]
pub struct InputInjector {
    dragging: bool,
}

impl View for InputInjector {
    type V = bool;

    /// Whether the left mouse button is held down by a drag-select.
    closed spec fn view(&self) -> bool {
        self.dragging
    }
}

impl InputInjector {
    /// An injector with the mouse button not held.
    pub fn new() -> (r: Self)
        ensures
            r@ == false,
    {
        InputInjector { dragging: false }
    }

    /// Whether the left mouse button is held down by a drag-select.
    pub fn is_dragging(&self) -> (b: bool)
        ensures
            b == self@,
    {
        self.dragging
    }

    /// The `xdotool` invocations that carry out `action`, in order.
    pub fn commands_for(&self, action: &Action) -> (r: Vec<XdoCommand>)
        ensures
            command_views(r@) == action_commands(self@, action@),
    {
        match action {
            Action::PressKeys(keys) => self.press_key_sequence(keys),
            Action::NavigatePage(direction) => self.navigate_page(*direction),
            Action::Scroll(direction) => self.scroll(*direction),
            Action::Zoom(direction) => self.zoom(*direction),
            Action::ToggleFullscreen => self.toggle_fullscreen(),
            Action::MoveCursor { dx, dy } => self.move_cursor(*dx, *dy),
            Action::SelectText { dx, dy, active } => self.select_text(*dx, *dy, *active),
            Action::Highlight(color) => self.highlight(*color),
        }
    }

    /// Presses the keys together: joined with `+` and lowercased.
    pub fn press_key_sequence(&self, keys: &Vec<String>) -> (r: Vec<XdoCommand>)
        ensures
            command_views(r@) == action_commands(self@, ActionView::PressKeys(views(keys@))),
    {
        let key_str = to_lowercase(join(keys, "+").as_str());
        let r = vec![key_cmd(key_str)];
        assert(command_views(r@) =~= action_commands(self@, ActionView::PressKeys(views(keys@))));
        r
    }

    /// Turns the page: Right for the next page, Left for the previous one.
    pub fn navigate_page(&self, direction: PageDirection) -> (r: Vec<XdoCommand>)
        ensures
            command_views(r@) == action_commands(self@, ActionView::NavigatePage(direction)),
    {
        let key = match direction {
            PageDirection::Next => "Right",
            PageDirection::Previous => "Left",
        };
        let r = vec![key_cmd(String::from_str(key))];
        assert(command_views(r@) =~= action_commands(self@, ActionView::NavigatePage(direction)));
        r
    }

    /// Scrolls: presses the arrow key of the direction three times.
    pub fn scroll(&self, direction: ScrollDirection) -> (r: Vec<XdoCommand>)
        ensures
            command_views(r@) == action_commands(self@, ActionView::Scroll(direction)),
    {
        let key = match direction {
            ScrollDirection::Up => "Up",
            ScrollDirection::Down => "Down",
            ScrollDirection::Left => "Left",
            ScrollDirection::Right => "Right",
        };
        let mut r: Vec<XdoCommand> = Vec::new();
        let mut i: usize = 0;
        while i < SCROLL_CLICKS
            invariant
                0 <= i <= SCROLL_CLICKS,
                key@ == scroll_key(direction),
                r@.len() == i,
                forall|j: int| 0 <= j < i ==> #[trigger] r@[j]@ == key_command(scroll_key(direction)),
            decreases SCROLL_CLICKS - i,
        {
            r.push(key_cmd(String::from_str(key)));
            i = i + 1;
        }
        assert(command_views(r@) =~= action_commands(self@, ActionView::Scroll(direction)));
        r
    }

    /// Zooms: Ctrl with plus, minus or 0.
    pub fn zoom(&self, direction: ZoomDirection) -> (r: Vec<XdoCommand>)
        ensures
            command_views(r@) == action_commands(self@, ActionView::Zoom(direction)),
    {
        let keys = match direction {
            ZoomDirection::In => "ctrl+plus",
            ZoomDirection::Out => "ctrl+minus",
            ZoomDirection::Reset => "ctrl+0",
        };
        let r = vec![key_cmd(String::from_str(keys))];
        assert(command_views(r@) =~= action_commands(self@, ActionView::Zoom(direction)));
        r
    }

    /// Toggles full screen: F11.
    pub fn toggle_fullscreen(&self) -> (r: Vec<XdoCommand>)
        ensures
            command_views(r@) == action_commands(self@, ActionView::ToggleFullscreen),
    {
        let r = vec![key_cmd(String::from_str("F11"))];
        assert(command_views(r@) =~= action_commands(self@, ActionView::ToggleFullscreen));
        r
    }

    /// Left stick: moves the mouse pointer without pressing any button, so
    /// the user can freely reposition it.
    pub fn move_cursor(&self, dx: i64, dy: i64) -> (r: Vec<XdoCommand>)
        ensures
            command_views(r@) == action_commands(
                self@,
                ActionView::MoveCursor { dx: dx as int, dy: dy as int },
            ),
    {
        let r = vec![move_cmd(dx, dy)];
        assert(command_views(r@) =~= action_commands(
            self@,
            ActionView::MoveCursor { dx: dx as int, dy: dy as int },
        ));
        r
    }

    /// Right stick: click-and-drag to select text.  While the stick is
    /// deflected the button is pressed (once) and the pointer moved; once it
    /// is back in the dead zone the button is released (once).
    pub fn select_text(&self, dx: i64, dy: i64, active: bool) -> (r: Vec<XdoCommand>)
        ensures
            command_views(r@) == action_commands(
                self@,
                ActionView::SelectText { dx: dx as int, dy: dy as int, active },
            ),
    {
        let mut r: Vec<XdoCommand> = Vec::new();
        if active {
            if !self.dragging {
                r.push(fixed_cmd("mousedown", "1"));
            }
            r.push(move_cmd(dx, dy));
        } else if self.dragging {
            r.push(fixed_cmd("mouseup", "1"));
        }
        assert(command_views(r@) =~= action_commands(
            self@,
            ActionView::SelectText { dx: dx as int, dy: dy as int, active },
        ));
        r
    }

    /// Highlights the current selection: in Okular, Ctrl+6 applies the
    /// yellow highlighter annotation to it.
    pub fn highlight(&self, color: HighlightColor) -> (r: Vec<XdoCommand>)
        ensures
            command_views(r@) == action_commands(self@, ActionView::Highlight(color)),
    {
        match color {
            HighlightColor::Yellow => {
                let r = vec![key_cmd(String::from_str("ctrl+6"))];
                assert(command_views(r@) =~= action_commands(self@, ActionView::Highlight(color)));
                r
            },
        }
    }

    /// Records that `cmd` has run: a mouse button press means the button is
    /// held, a release that it is not.
    pub fn command_succeeded(&mut self, cmd: &XdoCommand)
        ensures
            final(self)@ == drag_after_command(old(self)@, cmd@),
    {
        let args = &cmd.args;
        if args.len() == 2 && str_equals(args[1].as_str(), "1") {
            if str_equals(args[0].as_str(), "mousedown") {
                assert(cmd@ =~= mouse_down_command());
                self.dragging = true;
                return;
            } else if str_equals(args[0].as_str(), "mouseup") {
                proof {
                    if cmd@ == mouse_down_command() {
                        assert(cmd@[0] == args@[0]@);
                    }
                }
                assert(cmd@ =~= mouse_up_command());
                self.dragging = false;
                return;
            }
        }
        proof {
            if cmd@ == mouse_down_command() || cmd@ == mouse_up_command() {
                assert(cmd@.len() == 2);
                assert(cmd@[0] == args@[0]@);
                assert(cmd@[1] == args@[1]@);
            }
        }
    }

    /// Starts carrying out `action`: its commands, none run yet.
    pub fn start_action(&self, action: &Action) -> (r: ActionRun)
        ensures
            r@ == (ActionRunView { commands: action_commands(self@, action@), next: 0, failed: false }),
    {
        ActionRun { commands: self.commands_for(action), next: 0, failed: false }
    }

    /// Records the outcome of the pending command of `progress`: on success
    /// the button state follows the command and the next command becomes
    /// pending; on failure nothing more is pending.
    pub fn command_done(&mut self, progress: &mut ActionRun, ok: bool)
        ensures
            (final(progress)@, final(self)@) == finish_pending(old(progress)@, old(self)@, ok),
    {
        proof {
            use_type_invariant(&*progress);
        }
        if !progress.failed && progress.next < progress.commands.len() {
            if ok {
                self.command_succeeded(&progress.commands[progress.next]);
                progress.next = progress.next + 1;
            } else {
                progress.failed = true;
            }
        }
    }

    /// Carries out `action`: hands its `xdotool` invocations in order to
    /// `run`, stopping at the first that fails, and records the mouse button
    /// state after each one that ran.  The body drives the step functions
    /// `start_action`, `next_command` and `command_done`.
    ///
    /// The contract promises less than the step functions do: it states the
    /// result and the button state at the end, and what `run` may have
    /// returned for the commands, but a contract cannot count or order the
    /// calls made to an opaque closure, so it does not state that each
    /// command is handed to `run` once, in order, and none after the first
    /// failure.  `law_stops_at_first_failure` states that for the step
    /// functions, which the daemon drives directly.
    pub fn execute_action<E, F: Fn(&XdoCommand) -> Result<(), E>>(
        &mut self,
        action: &Action,
        run: F,
    ) -> (r: Result<(), E>)
        requires
            forall|c: &XdoCommand| #[trigger] run.requires((c,)),
        ensures
            ({
                let cmds = action_commands(old(self)@, action@);
                match r {
                    Ok(()) => {
                        &&& final(self)@ == drag_through(old(self)@, cmds)
                        &&& forall|j: int| 0 <= j < cmds.len() ==> #[trigger] ran_ok(run, cmds[j])
                    },
                    Err(e) => exists|k: int|
                        {
                            &&& 0 <= k < cmds.len()
                            &&& final(self)@ == drag_through(old(self)@, cmds.take(k))
                            &&& forall|j: int| 0 <= j < k ==> #[trigger] ran_ok(run, cmds[j])
                            &&& ran_with(run, cmds[k], Err(e))
                        },
                }
            }),
    {
        let mut progress = self.start_action(action);
        let ghost all = progress@.commands;
        let ghost start = self@;
        proof {
            assert(all.take(0) =~= Seq::<Seq<Seq<char>>>::empty());
        }
        loop
            invariant
                progress@.commands == all,
                all == action_commands(start, action@),
                start == old(self)@,
                !progress@.failed,
                progress@.next <= all.len(),
                self@ == drag_through(start, all.take(progress@.next as int)),
                forall|j: int| 0 <= j < progress@.next ==> #[trigger] ran_ok(run, all[j]),
                forall|c: &XdoCommand| #[trigger] run.requires((c,)),
            ensures
                progress@.next == all.len(),
                self@ == drag_through(start, all.take(progress@.next as int)),
                forall|j: int| 0 <= j < progress@.next ==> #[trigger] ran_ok(run, all[j]),
            decreases all.len() - progress@.next,
        {
            let ghost i = progress@.next as int;
            let out = match progress.next_command() {
                None => {
                    break ;
                },
                Some(cmd) => {
                    let out = run(cmd);
                    proof {
                        assert(cmd@ == all[i]);
                        assert(call_ensures(run, (cmd,), out));
                        assert(ran_with(run, all[i], out));
                    }
                    out
                },
            };
            let ok = out.is_ok();
            self.command_done(&mut progress, ok);
            match out {
                Ok(()) => {
                    assert(ran_ok(run, all[i]));
                    proof {
                        assert(all.take(i + 1).drop_last() =~= all.take(i));
                    }
                },
                Err(e) => {
                    assert(0 <= i < all.len() && self@ == drag_through(start, all.take(i)));
                    return Err(e);
                },
            }
        }
        proof {
            assert(all.take(all.len() as int) =~= all);
        }
        Ok(())
    }
}


/// Whether a mouse-button command fits the button state: a press only when
/// the button is not held, a release only when it is.
pub open spec fn button_step_ok(held: bool, c: Seq<Seq<char>>) -> bool {
    (c == mouse_down_command() ==> !held) && (c == mouse_up_command() ==> held)
}

/// Whether every mouse-button command of a list fits the button state at
/// its turn, starting from `held`.
pub open spec fn button_protocol(held: bool, cmds: Seq<Seq<Seq<char>>>) -> bool
    decreases cmds.len(),
{
    if cmds.len() == 0 {
        true
    } else {
        button_protocol(held, cmds.drop_last()) && button_step_ok(
            drag_through(held, cmds.drop_last()),
            cmds.last(),
        )
    }
}

/// The commands of a list of actions carried out one after the other, each
/// planned with the button state left by the ones before, and the button
/// state at the end.
pub open spec fn run_actions(held: bool, actions: Seq<ActionView>) -> (Seq<Seq<Seq<char>>>, bool)
    decreases actions.len(),
{
    if actions.len() == 0 {
        (Seq::empty(), held)
    } else {
        let (before, h) = run_actions(held, actions.drop_last());
        let p = action_commands(h, actions.last());
        (before + p, drag_through(h, p))
    }
}

/// A key press, a pointer move, a button press and a button release are
/// four different commands.
proof fn lemma_command_kinds()
    ensures
        mouse_down_command() != mouse_up_command(),
        forall|k: Seq<char>|
            #![trigger key_command(k)]
            key_command(k) != mouse_down_command() && key_command(k) != mouse_up_command(),
        forall|dx: int, dy: int|
            #![trigger move_command(dx, dy)]
            move_command(dx, dy) != mouse_down_command() && move_command(dx, dy)
                != mouse_up_command(),
{
    reveal_strlit("key");
    reveal_strlit("mousedown");
    reveal_strlit("mouseup");
    assert("key"@.len() == 3);
    assert("mousedown"@.len() == 9);
    assert("mouseup"@.len() == 7);
    assert(mouse_down_command()[0] != mouse_up_command()[0]);
    assert forall|k: Seq<char>| #![trigger key_command(k)]
        key_command(k) != mouse_down_command() && key_command(k) != mouse_up_command() by {
        assert(key_command(k)[0] != mouse_down_command()[0]);
        assert(key_command(k)[0] != mouse_up_command()[0]);
    }
    assert forall|dx: int, dy: int| #![trigger move_command(dx, dy)]
        move_command(dx, dy) != mouse_down_command() && move_command(dx, dy)
            != mouse_up_command() by {
        assert(move_command(dx, dy).len() != mouse_down_command().len());
    }
}

/// Running two lists of commands one after the other leaves the button as
/// running the second from where the first left it.
proof fn lemma_drag_through_append(held: bool, a: Seq<Seq<Seq<char>>>, b: Seq<Seq<Seq<char>>>)
    ensures
        drag_through(held, a + b) == drag_through(drag_through(held, a), b),
        button_protocol(held, a + b) == (button_protocol(held, a) && button_protocol(
            drag_through(held, a),
            b,
        )),
    decreases b.len(),
{
    if b.len() == 0 {
        assert(a + b =~= a);
    } else {
        lemma_drag_through_append(held, a, b.drop_last());
        assert((a + b).drop_last() =~= a + b.drop_last());
        assert((a + b).last() == b.last());
    }
}

/// The commands of one action fit the button state, and leave the button
/// held exactly when the action is an active selection step, or when it was
/// held before and the action is not a selection step.
proof fn lemma_action_commands(held: bool, a: ActionView)
    ensures
        button_protocol(held, action_commands(held, a)),
        drag_through(held, action_commands(held, a)) == match a {
            ActionView::SelectText { active, .. } => active,
            _ => held,
        },
{
    lemma_command_kinds();
    let p = action_commands(held, a);
    reveal_with_fuel(drag_through, 4);
    reveal_with_fuel(button_protocol, 4);
    if p.len() >= 1 {
        assert(p.drop_last().len() + 1 == p.len());
    }
    if p.len() == 3 {
        assert(p.drop_last().drop_last() =~= seq![p[0]]);
        assert(seq![p[0]].drop_last() =~= Seq::<Seq<Seq<char>>>::empty());
    } else if p.len() == 2 {
        assert(p.drop_last() =~= seq![p[0]]);
        assert(seq![p[0]].drop_last() =~= Seq::<Seq<Seq<char>>>::empty());
    } else if p.len() == 1 {
        assert(p.drop_last() =~= Seq::<Seq<Seq<char>>>::empty());
    }
}

/// Mouse-button protocol: however many actions are carried out one after
/// the other, the injector never presses the mouse button while it holds it
/// and never releases it while it does not, and the button it holds at the
/// end is the one its commands leave held.
pub proof fn law_mouse_button_protocol(held: bool, actions: Seq<ActionView>)
    ensures
        button_protocol(held, run_actions(held, actions).0),
        drag_through(held, run_actions(held, actions).0) == run_actions(held, actions).1,
    decreases actions.len(),
{
    if actions.len() > 0 {
        law_mouse_button_protocol(held, actions.drop_last());
        let (before, h) = run_actions(held, actions.drop_last());
        let p = action_commands(h, actions.last());
        lemma_action_commands(h, actions.last());
        lemma_drag_through_append(held, before, p);
    }
}

/// Drag agreement: when the injector carries out the actions of one
/// polling tick of the sticks, and it held the mouse button exactly when a
/// right-stick drag was under way, then afterwards it holds the button
/// exactly when a drag is under way, having never pressed a held button or
/// released a free one.  By induction the two stay in agreement over any
/// number of ticks.
pub proof fn law_drag_state_agrees(state: StickState, deadzone: int, dragging: bool)
    ensures
        ({
            let (actions, drag_after) = stick_actions(state, deadzone, dragging);
            &&& run_actions(dragging, actions).1 == drag_after
            &&& button_protocol(dragging, run_actions(dragging, actions).0)
        }),
{
    let (actions, drag_after) = stick_actions(state, deadzone, dragging);
    law_mouse_button_protocol(dragging, actions);
    reveal_with_fuel(run_actions, 3);
    if actions.len() >= 1 {
        let h = run_actions(dragging, actions.drop_last()).1;
        lemma_action_commands(h, actions.last());
        if actions.len() == 2 {
            let first = actions.drop_last();
            assert(first =~= seq![actions[0]]);
            assert(first.drop_last() =~= Seq::<ActionView>::empty());
            lemma_action_commands(dragging, actions[0]);
        } else {
            assert(actions.drop_last() =~= Seq::<ActionView>::empty());
        }
    }
}

/// Symmetric pointer moves: rounding to whole pixels treats a displacement
/// and its opposite alike (halfway cases go away from zero either way), so
/// opposite displacements give opposite pixel offsets whenever the rounded
/// offset fits in `i32` on both sides.
pub proof fn law_move_symmetric(v: int)
    ensures
        round_half_away(-v) == -round_half_away(v),
        -i32::MAX <= round_half_away(v) <= i32::MAX ==> pixels(-v) == -pixels(v),
{
}

/// The key presses of each action, written out: a page turn presses Right
/// (next) or Left (previous); a scroll presses the arrow key of its own
/// direction, three times; a zoom presses Ctrl with plus (in), minus (out)
/// or 0 (reset); full screen is F11; the yellow highlight is Ctrl+6; keys of
/// a mapping are pressed together, joined with `+` and lowercased.  None of
/// these depends on the mouse button.
pub proof fn law_key_actions(held: bool, keys: Seq<Seq<char>>)
    ensures
        action_commands(held, ActionView::NavigatePage(PageDirection::Next)) == seq![
            seq!["key"@, "Right"@],
        ],
        action_commands(held, ActionView::NavigatePage(PageDirection::Previous)) == seq![
            seq!["key"@, "Left"@],
        ],
        action_commands(held, ActionView::Scroll(ScrollDirection::Up)) == seq![
            seq!["key"@, "Up"@],
            seq!["key"@, "Up"@],
            seq!["key"@, "Up"@],
        ],
        action_commands(held, ActionView::Scroll(ScrollDirection::Down)) == seq![
            seq!["key"@, "Down"@],
            seq!["key"@, "Down"@],
            seq!["key"@, "Down"@],
        ],
        action_commands(held, ActionView::Scroll(ScrollDirection::Left)) == seq![
            seq!["key"@, "Left"@],
            seq!["key"@, "Left"@],
            seq!["key"@, "Left"@],
        ],
        action_commands(held, ActionView::Scroll(ScrollDirection::Right)) == seq![
            seq!["key"@, "Right"@],
            seq!["key"@, "Right"@],
            seq!["key"@, "Right"@],
        ],
        action_commands(held, ActionView::Zoom(ZoomDirection::In)) == seq![
            seq!["key"@, "ctrl+plus"@],
        ],
        action_commands(held, ActionView::Zoom(ZoomDirection::Out)) == seq![
            seq!["key"@, "ctrl+minus"@],
        ],
        action_commands(held, ActionView::Zoom(ZoomDirection::Reset)) == seq![
            seq!["key"@, "ctrl+0"@],
        ],
        action_commands(held, ActionView::ToggleFullscreen) == seq![seq!["key"@, "F11"@]],
        action_commands(held, ActionView::Highlight(HighlightColor::Yellow)) == seq![
            seq!["key"@, "ctrl+6"@],
        ],
        action_commands(held, ActionView::PressKeys(keys)) == seq![
            seq!["key"@, lowercase(joined(keys, "+"@))],
        ],
{
}

/// The mouse commands of the pointer actions, written out: a cursor move
/// is one relative pointer move by the rounded displacement; a selection
/// step while the stick is deflected presses the left button first unless
/// it is held, then moves the pointer; back in the dead zone it releases a
/// held button and otherwise does nothing.
pub proof fn law_pointer_actions(held: bool, dx: int, dy: int)
    ensures
        action_commands(held, ActionView::MoveCursor { dx, dy }) == seq![
            seq!["mousemove_relative"@, "--"@, decimal(pixels(dx)), decimal(pixels(dy))],
        ],
        action_commands(held, ActionView::SelectText { dx, dy, active: true }) == (if held {
            seq![seq!["mousemove_relative"@, "--"@, decimal(pixels(dx)), decimal(pixels(dy))]]
        } else {
            seq![
                seq!["mousedown"@, "1"@],
                seq!["mousemove_relative"@, "--"@, decimal(pixels(dx)), decimal(pixels(dy))],
            ]
        }),
        action_commands(held, ActionView::SelectText { dx, dy, active: false }) == (if held {
            seq![seq!["mouseup"@, "1"@]]
        } else {
            Seq::<Seq<Seq<char>>>::empty()
        }),
{
}

/// Rounding to whole pixels picks the nearest whole pixel, and in a tie the
/// one further from zero: the error is at most half a pixel, and exactly
/// half a pixel only when the rounded value is larger in magnitude.
pub proof fn law_pixel_rounding(v: int)
    ensures
        ({
            let r = round_half_away(v);
            &&& -500_000 <= v - 1_000_000 * r <= 500_000
            &&& v - 1_000_000 * r == 500_000 ==> v < 0
            &&& v - 1_000_000 * r == -500_000 ==> v > 0
            &&& -i32::MAX <= r <= i32::MAX ==> pixels(v) == r
        }),
{
    let r = round_half_away(v);
    if v >= 0 {
        let q = (v + 500_000) / 1_000_000;
        assert(1_000_000 * q <= v + 500_000 < 1_000_000 * q + 1_000_000) by (nonlinear_arith)
            requires
                v >= 0,
                q == (v + 500_000) / 1_000_000,
        ;
    } else {
        let q = (-v + 500_000) / 1_000_000;
        assert(1_000_000 * q <= -v + 500_000 < 1_000_000 * q + 1_000_000) by (nonlinear_arith)
            requires
                v < 0,
                q == (-v + 500_000) / 1_000_000,
        ;
    }
}

} // verus!
