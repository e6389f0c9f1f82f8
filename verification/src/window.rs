//! The model behind `Window`: its style mask and title bar, the content host
//! that holds one child view, and the window's menu while it is key.
use vstd::prelude::*;

verus! {

/// `NSWindowStyleMaskTitled`.
pub const STYLE_TITLED: usize = 1;

/// `NSWindowStyleMaskClosable`.
pub const STYLE_CLOSABLE: usize = 2;

/// `NSWindowStyleMaskMiniaturizable`.
pub const STYLE_MINIATURIZABLE: usize = 4;

/// `NSWindowStyleMaskResizable`.
pub const STYLE_RESIZABLE: usize = 8;

/// `NSWindowStyleMaskFullSizeContentView`.
pub const STYLE_FULL_SIZE_CONTENT_VIEW: usize = 32768;

/// The style mask a window starts with: titled, closable, miniaturizable
/// and resizable.
pub fn initial_style_mask() -> (mask: usize)
    ensures
        mask == STYLE_CLOSABLE | STYLE_MINIATURIZABLE | STYLE_RESIZABLE | STYLE_TITLED,
        mask == 15,
{
    assert(2usize | 4usize | 8usize | 1usize == 15usize) by (bit_vector);
    STYLE_CLOSABLE | STYLE_MINIATURIZABLE | STYLE_RESIZABLE | STYLE_TITLED
}

/// How the title bar of a desktop window is presented.
#[derive(Debug, Clone, Copy, PartialEq, Eq, Structural)]
pub enum TitlebarMode {
    /// The system title bar.
    System,
    /// No title bar.
    Hidden,
    /// Content extends beneath a transparent title bar.
    Overlay,
}

/// The window configuration a title bar mode sets.
#[derive(Debug, Clone, Copy, PartialEq, Eq, Structural)]
pub struct TitlebarAppearance {
    pub style_mask: usize,
    /// Whether the title is hidden (`NSWindowTitleHidden`).
    pub title_hidden: bool,
    /// Whether the title bar appears transparent.
    pub titlebar_transparent: bool,
}

/// The configuration `mode` sets on a window whose style mask is `mask`.
pub open spec fn titlebar_appearance(mask: usize, mode: TitlebarMode) -> TitlebarAppearance {
    match mode {
        TitlebarMode::System => TitlebarAppearance {
            style_mask: (mask | STYLE_TITLED) & !STYLE_FULL_SIZE_CONTENT_VIEW,
            title_hidden: false,
            titlebar_transparent: false,
        },
        TitlebarMode::Hidden => TitlebarAppearance {
            style_mask: mask & !(STYLE_TITLED | STYLE_FULL_SIZE_CONTENT_VIEW),
            title_hidden: true,
            titlebar_transparent: false,
        },
        TitlebarMode::Overlay => TitlebarAppearance {
            style_mask: mask | (STYLE_TITLED | STYLE_FULL_SIZE_CONTENT_VIEW),
            title_hidden: true,
            titlebar_transparent: true,
        },
    }
}

/// The configuration a title bar mode sets on a window with style mask
/// `mask`.
pub fn apply_titlebar_mode(mask: usize, mode: TitlebarMode) -> (r: TitlebarAppearance)
    ensures
        r == titlebar_appearance(mask, mode),
{
    match mode {
        TitlebarMode::System => TitlebarAppearance {
            style_mask: (mask | STYLE_TITLED) & !STYLE_FULL_SIZE_CONTENT_VIEW,
            title_hidden: false,
            titlebar_transparent: false,
        },
        TitlebarMode::Hidden => TitlebarAppearance {
            style_mask: mask & !(STYLE_TITLED | STYLE_FULL_SIZE_CONTENT_VIEW),
            title_hidden: true,
            titlebar_transparent: false,
        },
        TitlebarMode::Overlay => TitlebarAppearance {
            style_mask: mask | (STYLE_TITLED | STYLE_FULL_SIZE_CONTENT_VIEW),
            title_hidden: true,
            titlebar_transparent: true,
        },
    }
}

/// A title bar mode decides the titled and full-size-content bits and keeps
/// every other bit of the style mask: the window is titled unless the mode is
/// `Hidden`, and its content is full size exactly in `Overlay`.
pub proof fn law_titlebar_mode_bits(mask: usize, mode: TitlebarMode, bit: usize)
    requires
        bit < 64,
        bit != 0,
        bit != 15,
    ensures
        ({
            let m = titlebar_appearance(mask, mode).style_mask;
            &&& (m & 1usize == 1usize) == (mode != TitlebarMode::Hidden)
            &&& (m & 32768usize == 32768usize) == (mode == TitlebarMode::Overlay)
            &&& ((m >> bit) & 1usize) == ((mask >> bit) & 1usize)
        }),
{
    match mode {
        TitlebarMode::System => {
            assert((((mask | 1usize) & !32768usize) & 1usize == 1usize) && (((mask | 1usize)
                & !32768usize) & 32768usize != 32768usize)) by (bit_vector);
            assert(((((mask | 1usize) & !32768usize) >> bit) & 1usize) == ((mask >> bit) & 1usize))
                by (bit_vector)
                requires
                    bit < 64,
                    bit != 0,
                    bit != 15,
            ;
        },
        TitlebarMode::Hidden => {
            assert(((mask & !(1usize | 32768usize)) & 1usize != 1usize) && ((mask & !(1usize
                | 32768usize)) & 32768usize != 32768usize)) by (bit_vector);
            assert((((mask & !(1usize | 32768usize)) >> bit) & 1usize) == ((mask >> bit) & 1usize))
                by (bit_vector)
                requires
                    bit < 64,
                    bit != 0,
                    bit != 15,
            ;
        },
        TitlebarMode::Overlay => {
            assert(((mask | (1usize | 32768usize)) & 1usize == 1usize) && ((mask | (1usize
                | 32768usize)) & 32768usize == 32768usize)) by (bit_vector);
            assert((((mask | (1usize | 32768usize)) >> bit) & 1usize) == ((mask >> bit) & 1usize))
                by (bit_vector)
                requires
                    bit < 64,
                    bit != 0,
                    bit != 15,
            ;
        },
    }
}

/// The style mask with the resizable bit set or cleared.
pub fn with_resizable(mask: usize, resizable: bool) -> (r: usize)
    ensures
        r == if resizable {
            mask | STYLE_RESIZABLE
        } else {
            mask & !STYLE_RESIZABLE
        },
{
    if resizable {
        mask | STYLE_RESIZABLE
    } else {
        mask & !STYLE_RESIZABLE
    }
}

/// Whether two menu slots hold the same menu (both empty counts as the same).
pub fn same_menu(left: Option<usize>, right: Option<usize>) -> (r: bool)
    ensures
        r == (left == right),
{
    match (left, right) {
        (Some(l), Some(r)) => l == r,
        (None, None) => true,
        _ => false,
    }
}

/// The menu bar shown while a window is key: when the window resigns key
/// status, the active window menu is cleared only if it is this window's menu.
pub fn active_menu_after_resign_key(active: Option<usize>, window_menu: Option<usize>) -> (r:
    Option<usize>)
    ensures
        r == if active == window_menu {
            None
        } else {
            active
        },
{
    if same_menu(active, window_menu) {
        None
    } else {
        active
    }
}

/// What the content host does when a child view is set.
#[derive(Debug, Clone, Copy, PartialEq, Eq, Structural)]
pub struct SetChildPlan {
    /// The previous child to detach, if any.
    pub detach: Option<usize>,
    /// Whether the new child is attached (false when it is already the child).
    pub attach: bool,
}

/// The single child view of a content host, identified by its address.
#[derive(Debug, Clone, Copy, PartialEq, Eq, Structural)]
pub struct ContentHost {
    pub child: Option<usize>,
}

impl ContentHost {
    pub fn new() -> (h: Self)
        ensures
            h.child is None,
    {
        ContentHost { child: None }
    }

    /// Sets `child` as the content: a different previous child is detached
    /// and the new one attached; setting the current child again changes
    /// nothing.
    pub fn set_child(&mut self, child: usize) -> (plan: SetChildPlan)
        ensures
            final(self).child == Some(child),
            plan == if old(self).child == Some(child) {
                SetChildPlan { detach: None, attach: false }
            } else {
                SetChildPlan { detach: old(self).child, attach: true }
            },
    {
        let already = match self.child {
            Some(current) => current == child,
            None => false,
        };
        if already {
            SetChildPlan { detach: None, attach: false }
        } else {
            let previous = self.child;
            self.child = Some(child);
            SetChildPlan { detach: previous, attach: true }
        }
    }

    /// Removes `child` if it is the content, returning whether it was.
    pub fn remove_child(&mut self, child: usize) -> (owned: bool)
        ensures
            owned == (old(self).child == Some(child)),
            final(self).child == if owned {
                None
            } else {
                old(self).child
            },
    {
        let owns = match self.child {
            Some(current) => current == child,
            None => false,
        };
        if owns {
            self.child = None;
        }
        owns
    }
}

} // verus!
