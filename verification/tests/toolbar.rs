use nestix_native_appkit::toolbar::{
    place_registration, toolbar_identifiers, AppKitToolbarDisplayMode, ToolbarContext,
    ToolbarItemError, ToolbarRegistration,
};

fn registration(key: &str, identifier: &str) -> ToolbarRegistration {
    ToolbarRegistration {
        key: key.to_string(),
        identifier: identifier.to_string(),
    }
}

fn identifiers(registrations: &[ToolbarRegistration]) -> Vec<&str> {
    registrations
        .iter()
        .map(|registration| registration.identifier.as_str())
        .collect()
}

#[test]
fn placement_inserts_and_moves_registrations() {
    let mut registrations = Vec::new();
    place_registration(&mut registrations, registration("one", "first"), None);
    place_registration(&mut registrations, registration("two", "second"), None);
    place_registration(&mut registrations, registration("three", "third"), Some(1));
    assert_eq!(identifiers(&registrations), ["first", "third", "second"]);

    place_registration(&mut registrations, registration("one", "first"), Some(2));
    assert_eq!(identifiers(&registrations), ["third", "second", "first"]);
}

#[test]
fn placement_allows_repeated_space_identifiers() {
    let mut registrations = Vec::new();
    place_registration(&mut registrations, registration("one", "space"), None);
    place_registration(&mut registrations, registration("two", "space"), None);
    assert_eq!(registrations.len(), 2);
    assert_eq!(registrations[0].identifier, registrations[1].identifier);
}

#[test]
fn placement_past_the_end_appends() {
    let mut registrations = Vec::new();
    place_registration(&mut registrations, registration("one", "first"), Some(9));
    place_registration(&mut registrations, registration("two", "second"), Some(9));
    place_registration(&mut registrations, registration("three", "third"), Some(0));
    assert_eq!(identifiers(&registrations), ["third", "first", "second"]);
}

#[test]
fn display_modes_map_to_native_values() {
    assert_eq!(AppKitToolbarDisplayMode::Default.to_native(), 0);
    assert_eq!(AppKitToolbarDisplayMode::IconAndLabel.to_native(), 1);
    assert_eq!(AppKitToolbarDisplayMode::IconOnly.to_native(), 2);
    assert_eq!(AppKitToolbarDisplayMode::LabelOnly.to_native(), 3);
    assert_eq!(
        AppKitToolbarDisplayMode::default(),
        AppKitToolbarDisplayMode::Default
    );
}

fn toolbar() -> ToolbarContext {
    ToolbarContext::new(vec![
        "NSToolbarSpaceItem".to_string(),
        "NSToolbarFlexibleSpaceItem".to_string(),
    ])
}

#[test]
fn item_identifiers_must_be_new_non_empty_and_unreserved() {
    let mut context = toolbar();
    assert_eq!(
        context.identifier_error(&String::new()),
        Some(ToolbarItemError::EmptyIdentifier)
    );
    assert_eq!(
        context.identifier_error(&"NSToolbarSpaceItem".to_string()),
        Some(ToolbarItemError::ReservedIdentifier)
    );
    assert_eq!(context.identifier_error(&"share".to_string()), None);
    context.register_item("share".to_string(), false);
    assert_eq!(
        context.identifier_error(&"share".to_string()),
        Some(ToolbarItemError::DuplicateIdentifier)
    );
    assert!(context.has_item(&"share".to_string()));
    context.unregister_item(&"share".to_string());
    assert!(!context.has_item(&"share".to_string()));
    assert_eq!(context.identifier_error(&"share".to_string()), None);
}

#[test]
fn sync_shows_every_registration_whose_item_is_not_hidden() {
    let mut context = toolbar();
    context.register_item("share".to_string(), false);
    context.register_item("edit".to_string(), true);
    context.place("a".to_string(), "share".to_string(), None);
    context.place("b".to_string(), "edit".to_string(), None);
    let space_key = context.mount_space("NSToolbarSpaceItem".to_string(), Some(1));
    assert_eq!(space_key.chars().count(), 21);
    assert_eq!(
        context.sync(),
        vec!["share".to_string(), "NSToolbarSpaceItem".to_string()]
    );
    assert_eq!(
        toolbar_identifiers(&context.registrations),
        vec![
            "share".to_string(),
            "NSToolbarSpaceItem".to_string(),
            "edit".to_string()
        ]
    );
    assert!(context.is_hidden(&"edit".to_string()));
    context.set_hidden(&"edit".to_string(), false);
    assert!(!context.is_hidden(&"edit".to_string()));
    assert_eq!(
        context.sync(),
        vec![
            "share".to_string(),
            "NSToolbarSpaceItem".to_string(),
            "edit".to_string()
        ]
    );
    context.remove(&space_key);
    context.remove(&"a".to_string());
    assert_eq!(context.sync(), vec!["edit".to_string()]);
}
