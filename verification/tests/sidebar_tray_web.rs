use nestix_native_appkit::sidebar::{
    ConstrainedPosition, MinimumSource, OpenAction, OpenReport, PositionSource, SidebarSlot,
    SidebarSplitViewController, SizingPlan,
};
use nestix_native_appkit::tray::{
    is_secondary_activation, path_to_string, process_name_from_stem, TrayIconError,
    TrayIconState, TrayUpdate,
};
use nestix_native_appkit::web_view::{
    dev_tools_decision, document_source, is_resource_path, DevToolsRefusal, DocumentSource,
};

#[test]
fn a_window_holds_one_sidebar_owner() {
    let mut slot = SidebarSlot::new();
    let a = "a".to_string();
    let b = "b".to_string();
    assert!(!slot.owns(&a));
    slot.mount(a.clone());
    assert!(slot.owns(&a));
    assert!(!slot.unmount(&b));
    assert!(slot.owns(&a));
    assert!(slot.unmount(&a));
    assert_eq!(slot.owner, None);
}

#[test]
fn a_controlled_open_prop_collapses_or_expands_the_item() {
    let mut c = SidebarSplitViewController::new();
    assert_eq!(c.apply_open_prop(Some(true), true), OpenAction::Keep);
    assert_eq!(c.set_sidebar_item(Some(false), false), Some(true));
    assert_eq!(c.last_open, Some(false));
    assert_eq!(
        c.apply_open_prop(Some(true), true),
        OpenAction::SetCollapsed {
            collapsed: false,
            apply_sizing: true
        }
    );
    assert_eq!(c.last_open, Some(true));
    assert_eq!(c.apply_open_prop(Some(true), false), OpenAction::Keep);
    assert_eq!(c.apply_open_prop(None, true), OpenAction::Keep);
    assert_eq!(
        c.apply_open_prop(Some(false), false),
        OpenAction::SetCollapsed {
            collapsed: true,
            apply_sizing: false
        }
    );
}

#[test]
fn native_changes_are_reported_once_and_controlled_props_win() {
    let mut c = SidebarSplitViewController::new();
    assert_eq!(
        c.report_native_open_change(true, None),
        OpenReport {
            changed: false,
            notify: None,
            reapply: OpenAction::Keep
        }
    );
    c.set_sidebar_item(None, false);
    assert_eq!(
        c.report_native_open_change(false, None),
        OpenReport {
            changed: false,
            notify: None,
            reapply: OpenAction::Keep
        }
    );
    assert_eq!(
        c.report_native_open_change(true, None),
        OpenReport {
            changed: true,
            notify: Some(false),
            reapply: OpenAction::Keep
        }
    );
    assert_eq!(c.last_open, Some(false));
    // The user opens a sidebar whose prop says closed: the change is
    // reported and the prop closes it again.
    assert_eq!(
        c.report_native_open_change(false, Some(false)),
        OpenReport {
            changed: true,
            notify: Some(true),
            reapply: OpenAction::SetCollapsed {
                collapsed: true,
                apply_sizing: false
            }
        }
    );
    assert_eq!(c.last_open, Some(false));
    assert_eq!(
        c.report_native_open_change(false, Some(true)),
        OpenReport {
            changed: true,
            notify: None,
            reapply: OpenAction::Keep
        }
    );
}

#[test]
fn sizing_follows_the_width_props() {
    let mut c = SidebarSplitViewController::new();
    assert_eq!(
        c.apply_sizing_props(true, true, false, true),
        SizingPlan {
            minimum: MinimumSource::Unchanged,
            position: PositionSource::Unchanged
        }
    );
    c.set_sidebar_item(None, false);
    assert_eq!(
        c.apply_sizing_props(true, true, false, true),
        SizingPlan {
            minimum: MinimumSource::MinWidthProp,
            position: PositionSource::EffectiveWidth
        }
    );
    assert_eq!(
        c.apply_sizing_props(false, true, false, true),
        SizingPlan {
            minimum: MinimumSource::MinWidthProp,
            position: PositionSource::MinWidth
        }
    );
    assert_eq!(
        c.apply_sizing_props(false, false, false, false),
        SizingPlan {
            minimum: MinimumSource::NativeMinimum,
            position: PositionSource::Unchanged
        }
    );
    assert_eq!(
        c.apply_sizing_props(true, false, true, false),
        SizingPlan {
            minimum: MinimumSource::NativeMinimum,
            position: PositionSource::Unchanged
        }
    );
}

#[test]
fn fixed_sidebars_constrain_their_divider() {
    let mut c = SidebarSplitViewController::new();
    assert_eq!(
        c.constrain_split_position(0, false, false, true, true),
        ConstrainedPosition::Proposed
    );
    c.set_sidebar_item(None, false);
    assert_eq!(
        c.constrain_split_position(0, false, false, true, true),
        ConstrainedPosition::EffectiveWidth
    );
    assert_eq!(
        c.constrain_split_position(0, false, false, false, true),
        ConstrainedPosition::CurrentWidth
    );
    assert_eq!(
        c.constrain_split_position(0, false, false, false, false),
        ConstrainedPosition::Proposed
    );
    assert_eq!(
        c.constrain_split_position(1, false, false, true, true),
        ConstrainedPosition::Proposed
    );
    assert_eq!(
        c.constrain_split_position(0, true, false, true, true),
        ConstrainedPosition::Proposed
    );
    assert_eq!(
        c.constrain_split_position(0, false, true, true, true),
        ConstrainedPosition::Proposed
    );
}

#[test]
fn tray_menus_are_presented_one_at_a_time() {
    let mut tray = TrayIconState::new();
    assert_eq!(tray.show_menu(), Err(TrayIconError::NotMounted));
    tray.install_item(5);
    assert_eq!(tray.show_menu(), Err(TrayIconError::MenuUnavailable));
    tray.set_menu_available(true);
    assert_eq!(tray.show_menu(), Ok(5));
    assert!(tray.should_present(5));
    assert!(!tray.should_present(6));
    assert_eq!(tray.show_menu(), Err(TrayIconError::PresentationFailed));
    tray.finish_presentation();
    assert!(!tray.should_present(5));
    assert_eq!(tray.show_menu(), Ok(5));
    assert_eq!(tray.remove_item(), Some(5));
    assert!(!tray.should_present(5));
    assert_eq!(tray.show_menu(), Err(TrayIconError::NotMounted));
    assert_eq!(tray.remove_item(), None);
}

#[test]
fn tray_updates_create_keep_or_remove_the_item() {
    let mut tray = TrayIconState::new();
    assert_eq!(tray.plan_update(false, true), TrayUpdate::RemoveItem);
    assert_eq!(tray.plan_update(true, false), TrayUpdate::Skip);
    assert_eq!(tray.plan_update(true, true), TrayUpdate::CreateItem);
    tray.install_item(1);
    assert_eq!(tray.plan_update(true, false), TrayUpdate::UpdateItem);
    assert_eq!(tray.plan_update(true, true), TrayUpdate::UpdateItem);
}

#[test]
fn secondary_clicks_come_from_other_buttons_or_control() {
    assert!(!is_secondary_activation(None));
    assert!(!is_secondary_activation(Some((2, 0))));
    assert!(is_secondary_activation(Some((3, 0))));
    assert!(is_secondary_activation(Some((4, 0))));
    assert!(is_secondary_activation(Some((25, 0))));
    assert!(is_secondary_activation(Some((26, 0))));
    assert!(is_secondary_activation(Some((2, 1 << 18))));
    assert!(!is_secondary_activation(Some((2, 1 << 20))));
}

#[test]
fn process_names_fall_back_to_application() {
    assert_eq!(process_name_from_stem(Some("Notes".to_string())), "Notes");
    assert_eq!(process_name_from_stem(Some(String::new())), "Application");
    assert_eq!(process_name_from_stem(None), "Application");
}

#[test]
fn icon_paths_keep_valid_text_and_replace_invalid_bytes() {
    assert_eq!(path_to_string(b"/tmp/icon.png"), "/tmp/icon.png");
    assert_eq!(path_to_string("/tmp/ï.png".as_bytes()), "/tmp/ï.png");
    assert_eq!(path_to_string(b"/tmp/\xffx.png"), "/tmp/\u{FFFD}x.png");
    assert_eq!(path_to_string(b""), "");
}

#[test]
fn resource_paths_must_be_plain_relative_paths() {
    assert!(is_resource_path("web/index.html"));
    assert!(is_resource_path("index.html"));
    assert!(is_resource_path("web/./index.html"));
    assert!(is_resource_path("web//index.html"));
    assert!(is_resource_path("..index.html"));
    assert!(is_resource_path("web/...html"));
    assert!(!is_resource_path(""));
    assert!(!is_resource_path("/web/index.html"));
    assert!(!is_resource_path("./index.html"));
    assert!(!is_resource_path("."));
    assert!(!is_resource_path(".."));
    assert!(!is_resource_path("../index.html"));
    assert!(!is_resource_path("web/../index.html"));
    assert!(!is_resource_path("web/.."));
}

#[test]
fn documents_come_from_the_bundle_before_the_development_path() {
    assert_eq!(document_source(true, true), Some(DocumentSource::Bundle));
    assert_eq!(document_source(false, true), Some(DocumentSource::Development));
    assert_eq!(document_source(false, false), None);
}

#[test]
fn dev_tools_open_only_for_inspectable_views() {
    assert_eq!(dev_tools_decision(false, true), Err(DevToolsRefusal::NotInspectable));
    assert_eq!(dev_tools_decision(true, false), Err(DevToolsRefusal::Unsupported));
    assert_eq!(dev_tools_decision(true, true), Ok(()));
}
