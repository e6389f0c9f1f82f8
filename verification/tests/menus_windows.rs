use nestix_native_appkit::menu::{
    apply_shortcut, key_equivalent, modifier_flags, render_menu_model, unregister_menu,
    KeyEquivalent, MenuBarState, MenuEntry, MenuEntryKind, MenuModel, MenuSlots, NativeMenuItem,
    Shortcut, ShortcutKey, ShortcutModifiers,
};
use nestix_native_appkit::window::{
    active_menu_after_resign_key, apply_titlebar_mode, initial_style_mask, same_menu,
    with_resizable, ContentHost, SetChildPlan, TitlebarAppearance, TitlebarMode,
};

const NO_MODIFIERS: ShortcutModifiers = ShortcutModifiers {
    primary: false,
    shift: false,
    alt: false,
};

#[test]
fn key_equivalents_lower_case_letters_and_name_function_keys() {
    assert_eq!(key_equivalent(ShortcutKey::Character('S')), 's');
    assert_eq!(key_equivalent(ShortcutKey::Character('s')), 's');
    assert_eq!(key_equivalent(ShortcutKey::Character('é')), 'é');
    assert_eq!(key_equivalent(ShortcutKey::Enter), '\r');
    assert_eq!(key_equivalent(ShortcutKey::Up) as u32, 0xf700);
    assert_eq!(key_equivalent(ShortcutKey::Function(1)) as u32, 0xf704);
    assert_eq!(key_equivalent(ShortcutKey::Function(12)) as u32, 0xf70f);
}

#[test]
fn shortcuts_set_the_key_and_modifier_mask() {
    let all = ShortcutModifiers {
        primary: true,
        shift: true,
        alt: true,
    };
    assert_eq!(modifier_flags(all), (1 << 20) | (1 << 17) | (1 << 19));
    assert_eq!(modifier_flags(NO_MODIFIERS), 0);
    assert_eq!(
        apply_shortcut(Some(Shortcut {
            key: ShortcutKey::Character('Q'),
            modifiers: ShortcutModifiers {
                primary: true,
                shift: false,
                alt: false
            },
        })),
        KeyEquivalent {
            key: Some('q'),
            modifiers: 1 << 20
        }
    );
    assert_eq!(
        apply_shortcut(None),
        KeyEquivalent {
            key: None,
            modifiers: 0
        }
    );
}

fn entry(id: usize, kind: MenuEntryKind, label: &str, visible: bool) -> MenuEntry {
    MenuEntry {
        id,
        kind,
        label: label.to_string(),
        enabled: true,
        visible,
        checked: true,
        shortcut: None,
    }
}

#[test]
fn menu_models_render_visible_entries_in_order() {
    let model = MenuModel {
        entries: vec![
            entry(1, MenuEntryKind::Item, "Open", true),
            entry(2, MenuEntryKind::Item, "Hidden", false),
            entry(3, MenuEntryKind::Separator, "", true),
            entry(4, MenuEntryKind::Check, "Wrap", true),
            entry(
                5,
                MenuEntryKind::Submenu(MenuModel {
                    entries: vec![entry(6, MenuEntryKind::Radio, "One", true)],
                }),
                "More",
                true,
            ),
        ],
    };
    let none = KeyEquivalent {
        key: None,
        modifiers: 0,
    };
    assert_eq!(
        render_menu_model(&model),
        vec![
            NativeMenuItem::Action {
                label: "Open".to_string(),
                enabled: true,
                handler: 1,
                state: None,
                key: none,
            },
            NativeMenuItem::Separator,
            NativeMenuItem::Action {
                label: "Wrap".to_string(),
                enabled: true,
                handler: 4,
                state: Some(true),
                key: none,
            },
            NativeMenuItem::Submenu {
                label: "More".to_string(),
                enabled: true,
                items: vec![NativeMenuItem::Action {
                    label: "One".to_string(),
                    enabled: true,
                    handler: 6,
                    state: Some(true),
                    key: none,
                }],
            },
        ]
    );
    assert_eq!(render_menu_model(&MenuModel { entries: Vec::new() }), Vec::new());
}

#[test]
fn menu_bars_fill_and_withdraw_their_slots() {
    let empty = MenuSlots {
        app_menu: None,
        window_menu: None,
        active_window_menu: None,
    };
    let mut bar = MenuBarState::new();
    let slots = bar.update(empty, true, true, Some(10));
    assert_eq!(
        slots,
        MenuSlots {
            app_menu: None,
            window_menu: Some(10),
            active_window_menu: Some(10)
        }
    );
    let slots = bar.update(slots, true, true, None);
    assert_eq!(slots, empty);

    let mut app_bar = MenuBarState::new();
    let slots = app_bar.update(empty, false, false, Some(3));
    assert_eq!(slots.app_menu, Some(3));
    let other = MenuSlots {
        app_menu: Some(4),
        ..slots
    };
    assert_eq!(app_bar.unmount(other, false), other);
    assert_eq!(unregister_menu(slots, false, 3), empty);
    assert_eq!(unregister_menu(slots, true, 3), slots);
}

#[test]
fn title_bar_modes_set_their_style_bits() {
    let mask = initial_style_mask();
    assert_eq!(mask, 15);
    assert_eq!(
        apply_titlebar_mode(mask, TitlebarMode::Overlay),
        TitlebarAppearance {
            style_mask: 15 | 32768,
            title_hidden: true,
            titlebar_transparent: true
        }
    );
    assert_eq!(
        apply_titlebar_mode(15 | 32768, TitlebarMode::Hidden),
        TitlebarAppearance {
            style_mask: 14,
            title_hidden: true,
            titlebar_transparent: false
        }
    );
    assert_eq!(
        apply_titlebar_mode(14 | 32768, TitlebarMode::System),
        TitlebarAppearance {
            style_mask: 15,
            title_hidden: false,
            titlebar_transparent: false
        }
    );
    assert_eq!(with_resizable(15, false), 7);
    assert_eq!(with_resizable(7, true), 15);
}

#[test]
fn key_window_menus_are_cleared_only_when_they_belong_to_the_window() {
    assert!(same_menu(None, None));
    assert!(same_menu(Some(1), Some(1)));
    assert!(!same_menu(Some(1), None));
    assert_eq!(active_menu_after_resign_key(Some(1), Some(1)), None);
    assert_eq!(active_menu_after_resign_key(Some(1), Some(2)), Some(1));
    assert_eq!(active_menu_after_resign_key(None, None), None);
}

#[test]
fn content_hosts_swap_their_single_child() {
    let mut host = ContentHost::new();
    assert_eq!(
        host.set_child(1),
        SetChildPlan {
            detach: None,
            attach: true
        }
    );
    assert_eq!(
        host.set_child(1),
        SetChildPlan {
            detach: None,
            attach: false
        }
    );
    assert_eq!(
        host.set_child(2),
        SetChildPlan {
            detach: Some(1),
            attach: true
        }
    );
    assert!(!host.remove_child(1));
    assert_eq!(host.child, Some(2));
    assert!(host.remove_child(2));
    assert_eq!(host.child, None);
}
