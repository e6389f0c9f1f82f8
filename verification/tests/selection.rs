use nestix_native_appkit::navigation::{matching_item_index, NavigationHandler, NavigationItemDefinition};
use nestix_native_appkit::select::{matching_option_index, option_insert_index};

fn item(value: &str) -> NavigationItemDefinition {
    NavigationItemDefinition {
        registration_id: value.to_owned(),
        label: value.to_owned(),
        value: value.to_owned(),
        enabled: true,
    }
}

#[test]
fn select_controlled_selection_resolves_first_matching_value() {
    let values: Vec<String> = ["first", "duplicate", "duplicate"]
        .iter()
        .map(|v| v.to_string())
        .collect();
    assert_eq!(
        matching_option_index(&values, Some(&"duplicate".to_string())),
        Some(1)
    );
    assert_eq!(
        matching_option_index(&values, Some(&"missing".to_string())),
        None
    );
    assert_eq!(matching_option_index(&values, None), None);
}

#[test]
fn navigation_controlled_selection_resolves_first_matching_value() {
    let items = [item("home"), item("settings"), item("settings")];
    assert_eq!(
        matching_item_index(&items, Some(&"settings".to_string())),
        Some(1)
    );
    assert_eq!(
        matching_item_index(&items, Some(&"missing".to_string())),
        None
    );
    assert_eq!(matching_item_index(&items, None), None);
}

#[test]
fn option_insert_index_clamps_to_the_end() {
    assert_eq!(option_insert_index(Some(1), 3), 1);
    assert_eq!(option_insert_index(Some(7), 3), 3);
    assert_eq!(option_insert_index(None, 3), 3);
    assert_eq!(option_insert_index(Some(0), 0), 0);
}

#[test]
fn navigation_rows_follow_placement_and_enabled_state() {
    let mut handler = NavigationHandler::new();
    let mut disabled = item("settings");
    disabled.registration_id = "a".to_string();
    disabled.enabled = false;
    let mut enabled = item("settings");
    enabled.registration_id = "b".to_string();
    handler.place_item(disabled, None);
    handler.place_item(enabled, None);
    assert_eq!(handler.number_of_rows(), 2);
    assert_eq!(handler.apply_selection(Some(&"settings".to_string())), Some(0));
    assert!(!handler.should_select_row(0));
    assert!(handler.should_select_row(1));
    assert_eq!(handler.selection_value(1), Some("settings".to_string()));
    assert_eq!(handler.selection_value(0), Some("settings".to_string()));
    assert_eq!(handler.selection_value(2), None);
    assert_eq!(handler.selection_value(-1), None);
    handler.remove_item(&"a".to_string());
    assert_eq!(handler.number_of_rows(), 1);
    assert_eq!(handler.apply_selection(Some(&"settings".to_string())), Some(0));
    assert!(handler.should_select_row(0));
    handler.remove_item(&"b".to_string());
    assert_eq!(handler.apply_selection(Some(&"settings".to_string())), None);
}

#[test]
fn new_navigation_items_get_distinct_registration_keys() {
    let a = NavigationItemDefinition::new("Home".to_string(), "home".to_string(), true);
    let b = NavigationItemDefinition::new("Home".to_string(), "home".to_string(), true);
    assert_eq!(a.registration_id.chars().count(), 21);
    assert_eq!(b.registration_id.chars().count(), 21);
    assert!(a
        .registration_id
        .chars()
        .all(|c| c == '_' || c == '-' || c.is_ascii_alphanumeric()));
    assert_ne!(a.registration_id, b.registration_id);
    assert_eq!(a.value, "home");
    assert_eq!(a.label, "Home");
}
