use nestix_native_appkit::backend::{AppkitBackend, ListViewDirection};
use nestix_native_appkit::button::{uses_native_appearance, Appearance, Padding, PaddingSide};
use nestix_native_appkit::font::{font_traits, keeps_base_font, FontStyle, BOLD_FONT_MASK, ITALIC_FONT_MASK};
use nestix_native_appkit::material::{native_material, native_source, BlendingMode, MacOSMaterial, MaterialSource};

fn padding(side: PaddingSide) -> Padding {
    Padding {
        top: side,
        bottom: side,
        left: side,
        right: side,
    }
}

#[test]
fn native_and_none_force_their_requested_appearance() {
    assert!(uses_native_appearance(
        Appearance::Native,
        padding(PaddingSide::Length)
    ));
    assert!(!uses_native_appearance(
        Appearance::Plain,
        padding(PaddingSide::Auto)
    ));
}

#[test]
fn auto_uses_native_appearance_only_for_unspecified_padding() {
    assert!(uses_native_appearance(
        Appearance::Auto,
        padding(PaddingSide::Auto)
    ));

    // Lengths of 8, 0 and -8 logical points and of 8 physical pixels are all
    // given lengths.
    for value in [
        PaddingSide::Length,
        PaddingSide::Length,
        PaddingSide::Length,
        PaddingSide::Length,
    ] {
        assert!(!uses_native_appearance(
            Appearance::Auto,
            Padding {
                top: PaddingSide::Auto,
                bottom: PaddingSide::Auto,
                left: value,
                right: PaddingSide::Auto,
            }
        ));
    }
}

#[test]
fn auto_appearance_checks_every_side() {
    for side in 0..4 {
        let mut p = padding(PaddingSide::Auto);
        match side {
            0 => p.top = PaddingSide::Length,
            1 => p.bottom = PaddingSide::Length,
            2 => p.left = PaddingSide::Length,
            _ => p.right = PaddingSide::Length,
        }
        assert!(!uses_native_appearance(Appearance::Auto, p));
        assert!(uses_native_appearance(Appearance::Native, p));
    }
}

#[test]
fn maps_every_current_appkit_material() {
    let materials = [
        MacOSMaterial::Titlebar,
        MacOSMaterial::Selection,
        MacOSMaterial::Menu,
        MacOSMaterial::Popover,
        MacOSMaterial::Sidebar,
        MacOSMaterial::Header,
        MacOSMaterial::Sheet,
        MacOSMaterial::WindowBackground,
        MacOSMaterial::HudWindow,
        MacOSMaterial::FullScreenUi,
        MacOSMaterial::Tooltip,
        MacOSMaterial::ContentBackground,
        MacOSMaterial::UnderWindowBackground,
        MacOSMaterial::UnderPageBackground,
    ];

    assert!(materials
        .into_iter()
        .all(|material| native_material(material).is_some()));
}

#[test]
fn materials_use_their_appkit_raw_values() {
    assert_eq!(native_material(MacOSMaterial::Titlebar), Some(3));
    assert_eq!(native_material(MacOSMaterial::Header), Some(10));
    assert_eq!(native_material(MacOSMaterial::HudWindow), Some(13));
    assert_eq!(native_material(MacOSMaterial::UnderPageBackground), Some(22));
    let all = [
        MacOSMaterial::Titlebar,
        MacOSMaterial::Selection,
        MacOSMaterial::Menu,
        MacOSMaterial::Popover,
        MacOSMaterial::Sidebar,
        MacOSMaterial::Header,
        MacOSMaterial::Sheet,
        MacOSMaterial::WindowBackground,
        MacOSMaterial::HudWindow,
        MacOSMaterial::FullScreenUi,
        MacOSMaterial::Tooltip,
        MacOSMaterial::ContentBackground,
        MacOSMaterial::UnderWindowBackground,
        MacOSMaterial::UnderPageBackground,
    ];
    for a in all {
        for b in all {
            assert_eq!(a == b, native_material(a) == native_material(b));
        }
    }
}

#[test]
fn automatic_source_uses_the_scope_default() {
    assert_eq!(
        native_source(MaterialSource::Automatic, BlendingMode::WithinWindow),
        BlendingMode::WithinWindow
    );
    assert_eq!(
        native_source(MaterialSource::Automatic, BlendingMode::BehindWindow),
        BlendingMode::BehindWindow
    );
}

#[test]
fn explicit_source_overrides_the_scope_default() {
    assert_eq!(
        native_source(MaterialSource::BehindWindow, BlendingMode::WithinWindow),
        BlendingMode::BehindWindow
    );
    assert_eq!(
        native_source(MaterialSource::WithinWindow, BlendingMode::BehindWindow),
        BlendingMode::WithinWindow
    );
    assert_eq!(BlendingMode::BehindWindow.raw(), 0);
    assert_eq!(BlendingMode::WithinWindow.raw(), 1);
}

#[test]
fn list_directions_map_to_stack_orientations() {
    assert_eq!(ListViewDirection::Horizontal.orientation(), 0);
    assert_eq!(ListViewDirection::Vertical.orientation(), 1);
    assert_eq!(AppkitBackend, AppkitBackend);
}

#[test]
fn font_traits_follow_style_and_weight() {
    let other = 0x100;
    let base = other | ITALIC_FONT_MASK;
    assert_eq!(font_traits(base, None, None, 700), base);
    assert_eq!(font_traits(base, Some(FontStyle::Normal), None, 700), other);
    assert_eq!(
        font_traits(other, Some(FontStyle::Italic), None, 700),
        other | ITALIC_FONT_MASK
    );
    assert_eq!(
        font_traits(other, None, Some(700), 700),
        other | BOLD_FONT_MASK
    );
    assert_eq!(
        font_traits(other | BOLD_FONT_MASK, None, Some(699), 700),
        other
    );
    assert_eq!(
        font_traits(0, Some(FontStyle::Italic), Some(900), 700),
        ITALIC_FONT_MASK | BOLD_FONT_MASK
    );
}

#[test]
fn only_fonts_without_props_keep_the_base_font() {
    assert!(keeps_base_font(false, false, None, None));
    assert!(!keeps_base_font(true, false, None, None));
    assert!(!keeps_base_font(false, true, None, None));
    assert!(!keeps_base_font(false, false, Some(400), None));
    assert!(!keeps_base_font(false, false, None, Some(FontStyle::Normal)));
}
