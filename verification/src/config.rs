//! The daemon's configuration: the controlled program, the button and stick
//! mapping tables and the analog dead zone.
use vstd::prelude::*;
use vstd::string::StringExecFns;
use crate::table::KeyedTable;
use crate::text::views;

verus! {

/// What a button does: the name of an action and, for the generic key-press
/// action, the keys to press together.
#[derive(Debug, Clone)]
pub struct ButtonMapping {
    pub button: String,
    pub action: String,
    pub keys: Vec<String>,
}

/// The view of a `ButtonMapping`.
pub struct ButtonMappingView {
    pub button: Seq<char>,
    pub action: Seq<char>,
    pub keys: Seq<Seq<char>>,
}

impl View for ButtonMapping {
    type V = ButtonMappingView;

    open spec fn view(&self) -> ButtonMappingView {
        ButtonMappingView { button: self.button@, action: self.action@, keys: views(self.keys@) }
    }
}

/// What a stick or trigger does.  The threshold is in millionths.
#[derive(Debug, Clone)]
pub struct StickMapping {
    pub stick: String,
    pub action: String,
    pub key_positive: String,
    pub key_negative: String,
    pub threshold: i32,
}

/// The view of a `StickMapping`.
pub struct StickMappingView {
    pub stick: Seq<char>,
    pub action: Seq<char>,
    pub key_positive: Seq<char>,
    pub key_negative: Seq<char>,
    pub threshold: int,
}

impl View for StickMapping {
    type V = StickMappingView;

    open spec fn view(&self) -> StickMappingView {
        StickMappingView {
            stick: self.stick@,
            action: self.action@,
            key_positive: self.key_positive@,
            key_negative: self.key_negative@,
            threshold: self.threshold as int,
        }
    }
}

/// The configuration.  Button mappings are keyed by button name, stick
/// mappings by stick or trigger name; the dead zone is in millionths of a
/// full stick deflection.
#[derive(Debug, Clone)]
pub struct Config {
    pub controlled_program: String,
    pub button_mappings: KeyedTable<ButtonMapping>,
    pub stick_mappings: KeyedTable<StickMapping>,
    pub deadzone: i32,
}

/// The dead zone of the default configuration: `0.15`.
pub const DEFAULT_DEADZONE: i32 = 150_000;

/// A button mapping view from its parts.
pub open spec fn button_mapping_view(
    button: Seq<char>,
    action: Seq<char>,
    keys: Seq<Seq<char>>,
) -> ButtonMappingView {
    ButtonMappingView { button, action, keys }
}

/// The button mappings of the default configuration: each of the seven
/// buttons is keyed by its own name.
pub open spec fn default_button_mappings() -> Map<Seq<char>, ButtonMappingView> {
    map![
        "DPadUp"@ => button_mapping_view("DPadUp"@, "scroll_up"@, seq!["Up"@]),
        "DPadDown"@ => button_mapping_view("DPadDown"@, "scroll_down"@, seq!["Down"@]),
        "RB"@ => button_mapping_view("RB"@, "next_page"@, seq!["Right"@]),
        "LB"@ => button_mapping_view("LB"@, "previous_page"@, seq!["Left"@]),
        "A"@ => button_mapping_view("A"@, "zoom_in"@, seq!["ctrl"@, "plus"@]),
        "B"@ => button_mapping_view("B"@, "zoom_out"@, seq!["ctrl"@, "minus"@]),
        "Start"@ => button_mapping_view("Start"@, "toggle_fullscreen"@, seq!["F11"@]),
    ]
}

/// Builds a button mapping from its parts.
fn make_button_mapping(button: &str, action: &str, keys: Vec<String>) -> (m: ButtonMapping)
    ensures
        m@ == button_mapping_view(button@, action@, views(keys@)),
{
    ButtonMapping { button: String::from_str(button), action: String::from_str(action), keys }
}

/// A list of one key.
fn one_key(a: &str) -> (v: Vec<String>)
    ensures
        views(v@) == seq![a@],
{
    let v = vec![String::from_str(a)];
    assert(views(v@) =~= seq![a@]);
    v
}

/// A list of two keys.
fn two_keys(a: &str, b: &str) -> (v: Vec<String>)
    ensures
        views(v@) == seq![a@, b@],
{
    let v = vec![String::from_str(a), String::from_str(b)];
    assert(views(v@) =~= seq![a@, b@]);
    v
}

impl Default for Config {
    /// The default configuration: control `okular`, map the D-pad, bumpers,
    /// `A`, `B` and `Start` as in the table of the documentation, no stick
    /// mappings, dead zone `0.15`.
    fn default() -> (c: Config)
        ensures
            c.controlled_program@ == "okular"@,
            c.button_mappings@ == default_button_mappings(),
            c.stick_mappings@ == Map::<Seq<char>, StickMappingView>::empty(),
            c.deadzone == DEFAULT_DEADZONE,
    {
        let mut button_mappings: KeyedTable<ButtonMapping> = KeyedTable::new();
        button_mappings.insert(
            String::from_str("DPadUp"),
            make_button_mapping("DPadUp", "scroll_up", one_key("Up")),
        );
        button_mappings.insert(
            String::from_str("DPadDown"),
            make_button_mapping("DPadDown", "scroll_down", one_key("Down")),
        );
        button_mappings.insert(
            String::from_str("RB"),
            make_button_mapping("RB", "next_page", one_key("Right")),
        );
        button_mappings.insert(
            String::from_str("LB"),
            make_button_mapping("LB", "previous_page", one_key("Left")),
        );
        button_mappings.insert(
            String::from_str("A"),
            make_button_mapping("A", "zoom_in", two_keys("ctrl", "plus")),
        );
        button_mappings.insert(
            String::from_str("B"),
            make_button_mapping("B", "zoom_out", two_keys("ctrl", "minus")),
        );
        button_mappings.insert(
            String::from_str("Start"),
            make_button_mapping("Start", "toggle_fullscreen", one_key("F11")),
        );
        Config {
            controlled_program: String::from_str("okular"),
            button_mappings,
            stick_mappings: KeyedTable::new(),
            deadzone: DEFAULT_DEADZONE,
        }
    }
}

} // verus!
