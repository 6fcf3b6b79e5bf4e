use decker::config::{ButtonMapping, Config, StickMapping, DEFAULT_DEADZONE};
use decker::table::KeyedTable;

fn mapping(button: &str, action: &str, keys: &[&str]) -> ButtonMapping {
    ButtonMapping {
        button: button.to_string(),
        action: action.to_string(),
        keys: keys.iter().map(|k| k.to_string()).collect(),
    }
}

fn assert_mapping(config: &Config, key: &str, action: &str, keys: &[&str]) {
    let m = config.button_mappings.get(key).expect("mapping present");
    assert_eq!(m.button, key);
    assert_eq!(m.action, action);
    let expected: Vec<String> = keys.iter().map(|k| k.to_string()).collect();
    assert_eq!(m.keys, expected);
}

#[test]
fn default_config_matches_documented_table() {
    let config = Config::default();
    assert_eq!(config.controlled_program, "okular");
    assert_eq!(config.deadzone, 150_000);
    assert_eq!(config.deadzone, DEFAULT_DEADZONE);
    assert_eq!(config.button_mappings.len(), 7);
    assert_mapping(&config, "DPadUp", "scroll_up", &["Up"]);
    assert_mapping(&config, "DPadDown", "scroll_down", &["Down"]);
    assert_mapping(&config, "RB", "next_page", &["Right"]);
    assert_mapping(&config, "LB", "previous_page", &["Left"]);
    assert_mapping(&config, "A", "zoom_in", &["ctrl", "plus"]);
    assert_mapping(&config, "B", "zoom_out", &["ctrl", "minus"]);
    assert_mapping(&config, "Start", "toggle_fullscreen", &["F11"]);
    assert!(config.button_mappings.get("Y").is_none());
    assert!(config.button_mappings.get("X").is_none());
    assert_eq!(config.stick_mappings.len(), 0);
}

#[test]
fn table_insert_then_get() {
    let mut table: KeyedTable<ButtonMapping> = KeyedTable::new();
    assert_eq!(table.len(), 0);
    assert!(table.get("LT").is_none());
    table.insert("LT".to_string(), mapping("LT", "custom", &["Page_Down"]));
    assert_eq!(table.len(), 1);
    assert_eq!(table.get("LT").unwrap().keys, vec!["Page_Down".to_string()]);
    assert!(table.get("RT").is_none());
}

#[test]
fn table_insert_replaces_existing_key() {
    let mut table: KeyedTable<ButtonMapping> = KeyedTable::new();
    table.insert("A".to_string(), mapping("A", "zoom_in", &["ctrl", "plus"]));
    table.insert("B".to_string(), mapping("B", "zoom_out", &["ctrl", "minus"]));
    table.insert("A".to_string(), mapping("A", "next_page", &["Right"]));
    assert_eq!(table.len(), 2);
    assert_eq!(table.get("A").unwrap().action, "next_page");
    assert_eq!(table.get("B").unwrap().action, "zoom_out");
    let keys: Vec<&str> = table.entries().iter().map(|(k, _)| k.as_str()).collect();
    assert_eq!(keys, vec!["A", "B"]);
}

#[test]
fn table_lookup_is_case_sensitive() {
    let mut table: KeyedTable<ButtonMapping> = KeyedTable::new();
    table.insert("Start".to_string(), mapping("Start", "toggle_fullscreen", &["F11"]));
    assert!(table.get("start").is_none());
    assert!(table.get("Start").is_some());
}

#[test]
fn stick_table_holds_stick_mappings() {
    let mut table: KeyedTable<StickMapping> = KeyedTable::new();
    table.insert(
        "LeftStick".to_string(),
        StickMapping {
            stick: "LeftStick".to_string(),
            action: "scroll".to_string(),
            key_positive: "Down".to_string(),
            key_negative: "Up".to_string(),
            threshold: 500_000,
        },
    );
    let m = table.get("LeftStick").unwrap();
    assert_eq!(m.threshold, 500_000);
    assert_eq!(m.key_negative, "Up");
}

#[test]
fn config_clone_keeps_mappings() {
    let config = Config::default();
    let copy = config.clone();
    assert_eq!(copy.button_mappings.len(), 7);
    assert_eq!(copy.button_mappings.get("RB").unwrap().action, "next_page");
    assert_eq!(copy.deadzone, config.deadzone);
}
