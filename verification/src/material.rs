//! Composited materials: which `NSVisualEffectMaterial` a material uses and
//! which blending mode (sampling source) it samples.
use vstd::prelude::*;

verus! {

/// A macOS material.
#[derive(Debug, Clone, Copy, PartialEq, Eq, Structural)]
pub enum MacOSMaterial {
    Titlebar,
    Selection,
    Menu,
    Popover,
    Sidebar,
    Header,
    Sheet,
    WindowBackground,
    HudWindow,
    FullScreenUi,
    Tooltip,
    ContentBackground,
    UnderWindowBackground,
    UnderPageBackground,
}

/// Where a material samples its backdrop.
#[derive(Debug, Clone, Copy, PartialEq, Eq, Structural)]
pub enum MaterialSource {
    /// The default of the enclosing scope.
    Automatic,
    BehindWindow,
    WithinWindow,
}

/// An `NSVisualEffectBlendingMode`.
#[derive(Debug, Clone, Copy, PartialEq, Eq, Structural)]
pub enum BlendingMode {
    BehindWindow,
    WithinWindow,
}

impl BlendingMode {
    /// The raw `NSVisualEffectBlendingMode` value.
    pub fn raw(self) -> (r: isize)
        ensures
            r == match self {
                BlendingMode::BehindWindow => 0isize,
                BlendingMode::WithinWindow => 1isize,
            },
    {
        match self {
            BlendingMode::BehindWindow => 0,
            BlendingMode::WithinWindow => 1,
        }
    }
}

/// The raw `NSVisualEffectMaterial` value of a material.
pub open spec fn material_raw(material: MacOSMaterial) -> isize {
    match material {
        MacOSMaterial::Titlebar => 3,
        MacOSMaterial::Selection => 4,
        MacOSMaterial::Menu => 5,
        MacOSMaterial::Popover => 6,
        MacOSMaterial::Sidebar => 7,
        MacOSMaterial::Header => 10,
        MacOSMaterial::Sheet => 11,
        MacOSMaterial::WindowBackground => 12,
        MacOSMaterial::HudWindow => 13,
        MacOSMaterial::FullScreenUi => 15,
        MacOSMaterial::Tooltip => 17,
        MacOSMaterial::ContentBackground => 18,
        MacOSMaterial::UnderWindowBackground => 21,
        MacOSMaterial::UnderPageBackground => 22,
    }
}

/// The `NSVisualEffectMaterial` (raw value) that shows a material. Every
/// current AppKit material has one.
pub fn native_material(material: MacOSMaterial) -> (r: Option<isize>)
    ensures
        r == Some(material_raw(material)),
{
    Some(
        match material {
            MacOSMaterial::Titlebar => 3,
            MacOSMaterial::Selection => 4,
            MacOSMaterial::Menu => 5,
            MacOSMaterial::Popover => 6,
            MacOSMaterial::Sidebar => 7,
            MacOSMaterial::Header => 10,
            MacOSMaterial::Sheet => 11,
            MacOSMaterial::WindowBackground => 12,
            MacOSMaterial::HudWindow => 13,
            MacOSMaterial::FullScreenUi => 15,
            MacOSMaterial::Tooltip => 17,
            MacOSMaterial::ContentBackground => 18,
            MacOSMaterial::UnderWindowBackground => 21,
            MacOSMaterial::UnderPageBackground => 22,
        },
    )
}

/// Each material uses AppKit's `NSVisualEffectMaterial` of that name:
/// Titlebar 3, Selection 4, Menu 5, Popover 6, Sidebar 7, HeaderView 10,
/// Sheet 11, WindowBackground 12, HUDWindow 13, FullScreenUI 15, ToolTip 17,
/// ContentBackground 18, UnderWindowBackground 21, UnderPageBackground 22.
pub proof fn law_appkit_material_values()
    ensures
        material_raw(MacOSMaterial::Titlebar) == 3,
        material_raw(MacOSMaterial::Selection) == 4,
        material_raw(MacOSMaterial::Menu) == 5,
        material_raw(MacOSMaterial::Popover) == 6,
        material_raw(MacOSMaterial::Sidebar) == 7,
        material_raw(MacOSMaterial::Header) == 10,
        material_raw(MacOSMaterial::Sheet) == 11,
        material_raw(MacOSMaterial::WindowBackground) == 12,
        material_raw(MacOSMaterial::HudWindow) == 13,
        material_raw(MacOSMaterial::FullScreenUi) == 15,
        material_raw(MacOSMaterial::Tooltip) == 17,
        material_raw(MacOSMaterial::ContentBackground) == 18,
        material_raw(MacOSMaterial::UnderWindowBackground) == 21,
        material_raw(MacOSMaterial::UnderPageBackground) == 22,
{
}

/// Distinct materials use distinct native materials.
pub proof fn law_native_material_injective(a: MacOSMaterial, b: MacOSMaterial)
    ensures
        material_raw(a) == material_raw(b) ==> a == b,
{
}

/// The blending mode a material uses: the scope's default for an automatic
/// source, otherwise the requested one.
pub fn native_source(source: MaterialSource, automatic_source: BlendingMode) -> (r: BlendingMode)
    ensures
        r == match source {
            MaterialSource::Automatic => automatic_source,
            MaterialSource::BehindWindow => BlendingMode::BehindWindow,
            MaterialSource::WithinWindow => BlendingMode::WithinWindow,
        },
{
    match source {
        MaterialSource::Automatic => automatic_source,
        MaterialSource::BehindWindow => BlendingMode::BehindWindow,
        MaterialSource::WithinWindow => BlendingMode::WithinWindow,
    }
}

} // verus!
