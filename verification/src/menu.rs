//! The model behind menus: how a menu model renders into native items, how
//! shortcuts become key equivalents, and which slot (application menu,
//! window menu, active window menu) a menu bar occupies.
use vstd::prelude::*;

verus! {

/// `NSEventModifierFlagShift`.
pub const MODIFIER_SHIFT: usize = 131072;

/// `NSEventModifierFlagOption`.
pub const MODIFIER_OPTION: usize = 524288;

/// `NSEventModifierFlagCommand`.
pub const MODIFIER_COMMAND: usize = 1048576;

/// Whether `v` is the code point of a Unicode scalar value.
pub open spec fn is_scalar_value(v: u32) -> bool {
    v < 0xD800 || (0xE000 <= v && v <= 0x10FFFF)
}

/// Calls `char::from_u32`, which the standard library documents to return the
/// character with code point `v` exactly when `v` is a Unicode scalar value,
/// and `None` otherwise.
#[verifier::external_body]
fn char_from_u32(v: u32) -> (r: Option<char>)
    ensures
        is_scalar_value(v) ==> r is Some && r.unwrap() as u32 == v,
        !is_scalar_value(v) ==> r is None,
{
    char::from_u32(v)
}

/// A key of a menu shortcut.
#[derive(Debug, Clone, Copy, PartialEq, Eq, Structural)]
pub enum ShortcutKey {
    Character(char),
    Backspace,
    Delete,
    Down,
    End,
    Enter,
    Escape,
    Home,
    Insert,
    Left,
    PageDown,
    PageUp,
    Right,
    Tab,
    Up,
    /// A function key: `Function(1)` is F1.
    Function(u8),
}

/// The modifiers of a menu shortcut.
#[derive(Debug, Clone, Copy, PartialEq, Eq, Structural)]
pub struct ShortcutModifiers {
    /// Command on macOS.
    pub primary: bool,
    pub shift: bool,
    pub alt: bool,
}

/// A menu shortcut.
#[derive(Debug, Clone, Copy, PartialEq, Eq, Structural)]
pub struct Shortcut {
    pub key: ShortcutKey,
    pub modifiers: ShortcutModifiers,
}

/// The code point of the key equivalent of a key: characters lower-cased in
/// ASCII, the named keys their AppKit function-key characters.
pub open spec fn key_code_point(key: ShortcutKey) -> int {
    match key {
        ShortcutKey::Character(c) => if 65 <= (c as u32) && (c as u32) <= 90 {
            (c as u32) + 32
        } else {
            c as int
        },
        ShortcutKey::Backspace => 0x8int,
        ShortcutKey::Delete => 0x7fint,
        ShortcutKey::Down => 0xf701int,
        ShortcutKey::End => 0xf72bint,
        ShortcutKey::Enter => 0xdint,
        ShortcutKey::Escape => 0x1bint,
        ShortcutKey::Home => 0xf729int,
        ShortcutKey::Insert => 0xf727int,
        ShortcutKey::Left => 0xf702int,
        ShortcutKey::PageDown => 0xf72dint,
        ShortcutKey::PageUp => 0xf72cint,
        ShortcutKey::Right => 0xf703int,
        ShortcutKey::Tab => 0x9int,
        ShortcutKey::Up => 0xf700int,
        ShortcutKey::Function(n) => 0xf703int + (n as int),
    }
}

/// The key equivalent character of a key.
pub fn key_equivalent(key: ShortcutKey) -> (c: char)
    ensures
        c as u32 == key_code_point(key),
        key == ShortcutKey::Left ==> c as u32 == 0xF702,
        key == ShortcutKey::Right ==> c as u32 == 0xF703,
        key == ShortcutKey::Up ==> c as u32 == 0xF700,
        key == ShortcutKey::Down ==> c as u32 == 0xF701,
{
    let code: u32 = match key {
        ShortcutKey::Character(c) => {
            let v = c as u32;
            if 65 <= v && v <= 90 {
                v + 32
            } else {
                v
            }
        },
        ShortcutKey::Backspace => 0x8,
        ShortcutKey::Delete => 0x7f,
        ShortcutKey::Down => 0xf701,
        ShortcutKey::End => 0xf72b,
        ShortcutKey::Enter => 0xd,
        ShortcutKey::Escape => 0x1b,
        ShortcutKey::Home => 0xf729,
        ShortcutKey::Insert => 0xf727,
        ShortcutKey::Left => 0xf702,
        ShortcutKey::PageDown => 0xf72d,
        ShortcutKey::PageUp => 0xf72c,
        ShortcutKey::Right => 0xf703,
        ShortcutKey::Tab => 0x9,
        ShortcutKey::Up => 0xf700,
        ShortcutKey::Function(n) => 0xf703 + (n as u32),
    };
    proof {
        match key {
            ShortcutKey::Character(c) => {
                assert(is_scalar_value(c as u32));
            },
            _ => {},
        }
    }
    char_from_u32(code).unwrap()
}

/// The `NSEventModifierFlags` of shortcut modifiers.
pub open spec fn modifier_mask(modifiers: ShortcutModifiers) -> usize {
    (if modifiers.primary {
        MODIFIER_COMMAND
    } else {
        0usize
    }) | (if modifiers.shift {
        MODIFIER_SHIFT
    } else {
        0usize
    }) | (if modifiers.alt {
        MODIFIER_OPTION
    } else {
        0usize
    })
}

/// The `NSEventModifierFlags` of shortcut modifiers: primary is Command, alt
/// is Option.
pub fn modifier_flags(modifiers: ShortcutModifiers) -> (flags: usize)
    ensures
        flags == modifier_mask(modifiers),
{
    let c: usize = if modifiers.primary {
        MODIFIER_COMMAND
    } else {
        0
    };
    let s: usize = if modifiers.shift {
        MODIFIER_SHIFT
    } else {
        0
    };
    let a: usize = if modifiers.alt {
        MODIFIER_OPTION
    } else {
        0
    };
    c | s | a
}

/// A native key equivalent: the character (none for a cleared shortcut) and
/// the modifier mask.
#[derive(Debug, Clone, Copy, PartialEq, Eq, Structural)]
pub struct KeyEquivalent {
    pub key: Option<char>,
    pub modifiers: usize,
}

/// The key equivalent a menu item shows for its shortcut; no shortcut clears
/// both the key and the modifiers.
pub fn apply_shortcut(shortcut: Option<Shortcut>) -> (r: KeyEquivalent)
    ensures
        match shortcut {
            None => r == KeyEquivalent { key: None, modifiers: 0 },
            Some(s) => r.key is Some && r.key.unwrap() as int == key_code_point(s.key)
                && r.modifiers == modifier_mask(s.modifiers),
        },
{
    match shortcut {
        None => KeyEquivalent { key: None, modifiers: 0 },
        Some(s) => KeyEquivalent {
            key: Some(key_equivalent(s.key)),
            modifiers: modifier_flags(s.modifiers),
        },
    }
}

/// The kind of a menu entry.
#[derive(Debug, PartialEq, Eq)]
pub enum MenuEntryKind {
    Item,
    Check,
    Radio,
    Separator,
    Submenu(MenuModel),
}

/// One entry of a menu model.
#[derive(Debug, PartialEq, Eq)]
pub struct MenuEntry {
    /// The stable id that keys the entry's action handler.
    pub id: usize,
    pub kind: MenuEntryKind,
    pub label: String,
    pub enabled: bool,
    pub visible: bool,
    pub checked: bool,
    pub shortcut: Option<Shortcut>,
}

/// A menu: its entries in order.
#[derive(Debug, PartialEq, Eq)]
pub struct MenuModel {
    pub entries: Vec<MenuEntry>,
}

/// A native menu item as rendered from an entry.
#[derive(Debug, PartialEq, Eq)]
pub enum NativeMenuItem {
    Separator,
    Submenu { label: String, enabled: bool, items: Vec<NativeMenuItem> },
    Action {
        label: String,
        enabled: bool,
        /// The entry id whose handler the item targets.
        handler: usize,
        /// The on/off state of a check or radio item.
        state: Option<bool>,
        key: KeyEquivalent,
    },
}

/// Whether `key` is the key equivalent of `shortcut`.
pub open spec fn key_matches(key: KeyEquivalent, shortcut: Option<Shortcut>) -> bool {
    match shortcut {
        None => key == KeyEquivalent { key: None, modifiers: 0 },
        Some(s) => key.key is Some && key.key.unwrap() as int == key_code_point(s.key)
            && key.modifiers == modifier_mask(s.modifiers),
    }
}

/// Whether `item` is the native item of the action entry `entry`: its label,
/// enabled state, handler id, check state (for check and radio entries) and
/// key equivalent.
pub open spec fn is_action_item(entry: MenuEntry, item: NativeMenuItem) -> bool {
    match item {
        NativeMenuItem::Action { label, enabled, handler, state, key } => {
            &&& label == entry.label
            &&& enabled == entry.enabled
            &&& handler == entry.id
            &&& state == match entry.kind {
                MenuEntryKind::Check | MenuEntryKind::Radio => Some(entry.checked),
                _ => None,
            }
            &&& key_matches(key, entry.shortcut)
        },
        _ => false,
    }
}

/// Whether `items` is what the entries `entries` render to: one native item
/// per visible entry, in order, with submenus rendered the same way.
pub open spec fn renders(entries: Seq<MenuEntry>, items: Seq<NativeMenuItem>) -> bool
    decreases entries,
{
    if entries.len() == 0 {
        items.len() == 0
    } else {
        let last = entries.last();
        proof {
            assert(decreases_to!(entries => entries[entries.len() - 1]));
        }
        if !last.visible {
            renders(entries.drop_last(), items)
        } else {
            &&& items.len() > 0
            &&& renders(entries.drop_last(), items.drop_last())
            &&& match last.kind {
                MenuEntryKind::Submenu(model) => {
                    proof {
                        assert(decreases_to!(entries[entries.len() - 1] => entries[entries.len() - 1].kind));
                        assert(decreases_to!(entries[entries.len() - 1].kind => model));
                        assert(decreases_to!(model => model.entries));
                        assert(decreases_to!(model.entries => model.entries@));
                    }
                    match items.last() {
                        NativeMenuItem::Submenu { label, enabled, items: sub } => label
                            == last.label && enabled == last.enabled && renders(
                            model.entries@,
                            sub@,
                        ),
                        _ => false,
                    }
                },
                MenuEntryKind::Separator => items.last() == NativeMenuItem::Separator,
                _ => is_action_item(last, items.last()),
            }
        }
    }
}

/// Renders a menu model into native items: hidden entries are skipped,
/// separators stay separators, submenus are rendered recursively, and action
/// entries (plain, check, radio) carry their label, enabled state, handler id,
/// check state and key equivalent.
pub fn render_menu_model(model: &MenuModel) -> (items: Vec<NativeMenuItem>)
    ensures
        renders(model.entries@, items@),
    decreases model,
{
    let mut items: Vec<NativeMenuItem> = Vec::new();
    let mut i: usize = 0;
    proof {
        assert(model.entries@.take(0) =~= Seq::<MenuEntry>::empty());
    }
    while i < model.entries.len()
        invariant
            i <= model.entries@.len(),
            renders(model.entries@.take(i as int), items@),
        decreases model.entries@.len() - i,
    {
        let entry = &model.entries[i];
        let ghost prefix = model.entries@.take(i + 1);
        proof {
            assert(prefix.drop_last() =~= model.entries@.take(i as int));
            assert(prefix.last() == *entry);
        }
        if entry.visible {
            let ghost before = items@;
            match &entry.kind {
                MenuEntryKind::Separator => {
                    items.push(NativeMenuItem::Separator);
                },
                MenuEntryKind::Submenu(sub) => {
                    proof {
                        assert(decreases_to!(model => model.entries));
                        assert(decreases_to!(model.entries => model.entries@));
                        assert(decreases_to!(model.entries@ => model.entries@[i as int]));
                        assert(decreases_to!(model.entries@[i as int] => model.entries@[i as int].kind));
                    }
                    let rendered = render_menu_model(sub);
                    items.push(
                        NativeMenuItem::Submenu {
                            label: entry.label.clone(),
                            enabled: entry.enabled,
                            items: rendered,
                        },
                    );
                },
                _ => {
                    let state = match entry.kind {
                        MenuEntryKind::Check | MenuEntryKind::Radio => Some(entry.checked),
                        _ => None,
                    };
                    let key = apply_shortcut(entry.shortcut);
                    items.push(
                        NativeMenuItem::Action {
                            label: entry.label.clone(),
                            enabled: entry.enabled,
                            handler: entry.id,
                            state,
                            key,
                        },
                    );
                },
            }
            proof {
                assert(items@.drop_last() =~= before);
            }
        }
        i += 1;
    }
    proof {
        assert(model.entries@.take(i as int) =~= model.entries@);
    }
    items
}

/// The menu slots of the application and of the window a menu bar belongs
/// to, each holding a menu's address.
#[derive(Debug, Clone, Copy, PartialEq, Eq, Structural)]
pub struct MenuSlots {
    pub app_menu: Option<usize>,
    pub window_menu: Option<usize>,
    pub active_window_menu: Option<usize>,
}

/// The slots after a menu bar withdraws `menu`: a window's menu bar clears
/// the window's menu and the active window menu where they hold it; an
/// application menu bar clears the application menu where it holds it.
pub open spec fn slots_after_unregister(slots: MenuSlots, in_window: bool, menu: usize) -> MenuSlots {
    if in_window {
        MenuSlots {
            app_menu: slots.app_menu,
            window_menu: if slots.window_menu == Some(menu) {
                None
            } else {
                slots.window_menu
            },
            active_window_menu: if slots.active_window_menu == Some(menu) {
                None
            } else {
                slots.active_window_menu
            },
        }
    } else {
        MenuSlots {
            app_menu: if slots.app_menu == Some(menu) {
                None
            } else {
                slots.app_menu
            },
            window_menu: slots.window_menu,
            active_window_menu: slots.active_window_menu,
        }
    }
}

/// Withdraws `menu` from the slots it occupies.
pub fn unregister_menu(slots: MenuSlots, in_window: bool, menu: usize) -> (r: MenuSlots)
    ensures
        r == slots_after_unregister(slots, in_window, menu),
{
    if in_window {
        MenuSlots {
            app_menu: slots.app_menu,
            window_menu: if slots.window_menu == Some(menu) {
                None
            } else {
                slots.window_menu
            },
            active_window_menu: if slots.active_window_menu == Some(menu) {
                None
            } else {
                slots.active_window_menu
            },
        }
    } else {
        MenuSlots {
            app_menu: if slots.app_menu == Some(menu) {
                None
            } else {
                slots.app_menu
            },
            window_menu: slots.window_menu,
            active_window_menu: slots.active_window_menu,
        }
    }
}

/// The state of one menu bar: the menu it last registered.
#[derive(Debug, Clone, Copy, PartialEq, Eq, Structural)]
pub struct MenuBarState {
    pub registered: Option<usize>,
}

impl MenuBarState {
    pub fn new() -> (s: Self)
        ensures
            s.registered is None,
    {
        MenuBarState { registered: None }
    }

    /// Publishes the menu bar's current menu. A menu is registered: in a
    /// window it becomes the window's menu, and the active window menu when the
    /// window is key; otherwise it becomes the application menu. No menu
    /// withdraws the previously registered one.
    pub fn update(&mut self, slots: MenuSlots, in_window: bool, window_is_key: bool, current: Option<
        usize,
    >) -> (r: MenuSlots)
        ensures
            match current {
                Some(m) => final(self).registered == Some(m) && r == if in_window {
                    MenuSlots {
                        app_menu: slots.app_menu,
                        window_menu: Some(m),
                        active_window_menu: if window_is_key {
                            Some(m)
                        } else {
                            slots.active_window_menu
                        },
                    }
                } else {
                    MenuSlots {
                        app_menu: Some(m),
                        window_menu: slots.window_menu,
                        active_window_menu: slots.active_window_menu,
                    }
                },
                None => final(self).registered is None && r == match old(self).registered {
                    Some(p) => slots_after_unregister(slots, in_window, p),
                    None => slots,
                },
            },
    {
        match current {
            Some(m) => {
                self.registered = Some(m);
                if in_window {
                    MenuSlots {
                        app_menu: slots.app_menu,
                        window_menu: Some(m),
                        active_window_menu: if window_is_key {
                            Some(m)
                        } else {
                            slots.active_window_menu
                        },
                    }
                } else {
                    MenuSlots {
                        app_menu: Some(m),
                        window_menu: slots.window_menu,
                        active_window_menu: slots.active_window_menu,
                    }
                }
            },
            None => {
                let previous = self.registered;
                self.registered = None;
                match previous {
                    Some(p) => unregister_menu(slots, in_window, p),
                    None => slots,
                }
            },
        }
    }

    /// Withdraws the registered menu when the menu bar unmounts.
    pub fn unmount(&mut self, slots: MenuSlots, in_window: bool) -> (r: MenuSlots)
        ensures
            final(self).registered is None,
            r == match old(self).registered {
                Some(p) => slots_after_unregister(slots, in_window, p),
                None => slots,
            },
    {
        let previous = self.registered;
        self.registered = None;
        match previous {
            Some(p) => unregister_menu(slots, in_window, p),
            None => slots,
        }
    }
}

/// Each named key uses AppKit's character for it: the arrow keys
/// `NSUpArrowFunctionKey` to `NSRightArrowFunctionKey` (U+F700 to U+F703),
/// `NSHomeFunctionKey` (U+F729), `NSEndFunctionKey` (U+F72B), `NSPageUpFunctionKey`
/// (U+F72C), `NSPageDownFunctionKey` (U+F72D), `NSInsertFunctionKey` (U+F727),
/// and the control characters for backspace, tab, return, escape and delete.
/// Function key `n` is `NSF1FunctionKey` (U+F704) counted on `n - 1` keys, so
/// distinct function keys get distinct characters. Letters are lower-cased in
/// ASCII; every other character is its own key equivalent.
pub proof fn law_keys_use_appkit_characters(c: char, n: u8, m: u8)
    ensures
        key_code_point(ShortcutKey::Up) == 0xF700,
        key_code_point(ShortcutKey::Down) == 0xF701,
        key_code_point(ShortcutKey::Left) == 0xF702,
        key_code_point(ShortcutKey::Right) == 0xF703,
        key_code_point(ShortcutKey::Insert) == 0xF727,
        key_code_point(ShortcutKey::Home) == 0xF729,
        key_code_point(ShortcutKey::End) == 0xF72B,
        key_code_point(ShortcutKey::PageUp) == 0xF72C,
        key_code_point(ShortcutKey::PageDown) == 0xF72D,
        key_code_point(ShortcutKey::Backspace) == 8,
        key_code_point(ShortcutKey::Tab) == 9,
        key_code_point(ShortcutKey::Enter) == 13,
        key_code_point(ShortcutKey::Escape) == 27,
        key_code_point(ShortcutKey::Delete) == 127,
        key_code_point(ShortcutKey::Function(1)) == 0xF704,
        key_code_point(ShortcutKey::Function(n)) - key_code_point(ShortcutKey::Function(m)) == n - m,
        ('A' <= c && c <= 'Z') ==> key_code_point(ShortcutKey::Character(c)) == (c as u32) + 32,
        !('A' <= c && c <= 'Z') ==> key_code_point(ShortcutKey::Character(c)) == c as u32,
{
}

/// The modifier mask of a shortcut holds Command (bit 20) exactly for the
/// primary modifier, Shift (bit 17) exactly for shift and Option (bit 19)
/// exactly for alt, and no other bit.
pub proof fn law_modifier_mask_bits(modifiers: ShortcutModifiers)
    ensures
        (modifier_mask(modifiers) & 0x100000 != 0) == modifiers.primary,
        (modifier_mask(modifiers) & 0x20000 != 0) == modifiers.shift,
        (modifier_mask(modifiers) & 0x80000 != 0) == modifiers.alt,
        modifier_mask(modifiers) & !0x1A0000usize == 0,
{
    let c: usize = if modifiers.primary {
        MODIFIER_COMMAND
    } else {
        0usize
    };
    let s: usize = if modifiers.shift {
        MODIFIER_SHIFT
    } else {
        0usize
    };
    let a: usize = if modifiers.alt {
        MODIFIER_OPTION
    } else {
        0usize
    };
    lemma_three_flags(c, s, a);
}

proof fn lemma_three_flags(c: usize, s: usize, a: usize)
    by (bit_vector)
    requires
        c == 0 || c == 0x100000,
        s == 0 || s == 0x20000,
        a == 0 || a == 0x80000,
    ensures
        ((c | s | a) & 0x100000 != 0) == (c != 0),
        ((c | s | a) & 0x20000 != 0) == (s != 0),
        ((c | s | a) & 0x80000 != 0) == (a != 0),
        (c | s | a) & !0x1A0000usize == 0,
{
}

/// The number of visible entries among `entries`.
pub open spec fn visible_count(entries: Seq<MenuEntry>) -> nat
    decreases entries.len(),
{
    if entries.len() == 0 {
        0
    } else {
        visible_count(entries.drop_last()) + if entries.last().visible {
            1nat
        } else {
            0nat
        }
    }
}

/// A rendered menu has one native item per visible entry, and the visible
/// action entry `i` (plain, check or radio) is rendered, at the position given
/// by the visible entries before it, as an action item with the entry's label,
/// enabled state and handler id, and with the entry's checked state as its
/// on/off state exactly when it is a check or radio entry. In particular a
/// disabled entry is a disabled item.
pub proof fn law_action_entries_render_faithfully(
    entries: Seq<MenuEntry>,
    items: Seq<NativeMenuItem>,
    i: int,
)
    requires
        renders(entries, items),
    ensures
        items.len() == visible_count(entries),
        0 <= i < entries.len() && entries[i].visible && (entries[i].kind is Item
            || entries[i].kind is Check || entries[i].kind is Radio) ==> {
            let k = visible_count(entries.take(i)) as int;
            &&& k < items.len()
            &&& items[k] matches NativeMenuItem::Action { label, enabled, handler, state, .. }
            &&& label == entries[i].label
            &&& enabled == entries[i].enabled
            &&& handler == entries[i].id
            &&& state == (if entries[i].kind is Item {
                None
            } else {
                Some(entries[i].checked)
            })
            &&& items[k] matches NativeMenuItem::Action { key, .. }
            &&& (key.key is Some) == (entries[i].shortcut is Some)
            &&& entries[i].shortcut is None ==> key.modifiers == 0
            &&& entries[i].shortcut is Some ==> key.key.unwrap() as int == key_code_point(
                entries[i].shortcut.unwrap().key,
            ) && key.modifiers == modifier_mask(entries[i].shortcut.unwrap().modifiers)
        },
        0 <= i < entries.len() && entries[i].visible && entries[i].kind is Separator ==> {
            let k = visible_count(entries.take(i)) as int;
            k < items.len() && items[k] == NativeMenuItem::Separator
        },
        0 <= i < entries.len() && entries[i].visible && entries[i].kind is Submenu ==> {
            let k = visible_count(entries.take(i)) as int;
            &&& k < items.len()
            &&& items[k] matches NativeMenuItem::Submenu { label, enabled, .. }
            &&& label == entries[i].label
            &&& enabled == entries[i].enabled
        },
    decreases entries.len(),
{
    if entries.len() > 0 {
        let d = entries.drop_last();
        let last = entries.last();
        if !last.visible {
            law_action_entries_render_faithfully(d, items, i);
            if 0 <= i < d.len() {
                assert(entries.take(i) =~= d.take(i));
            }
        } else {
            let di = items.drop_last();
            law_action_entries_render_faithfully(d, di, i);
            if 0 <= i < d.len() {
                assert(entries.take(i) =~= d.take(i));
                if entries[i].visible {
                    let k = visible_count(d.take(i)) as int;
                    assert(items[k] == di[k]);
                }
            } else if i == d.len() {
                assert(entries.take(i) =~= d);
                assert(entries[i] == last);
                assert(items[items.len() - 1] == items.last());
            }
        }
    }
}

/// A menu bar that registers a menu and then withdraws it leaves a slot that
/// held another menu untouched, and empties the slots it filled.
pub proof fn law_register_then_withdraw(slots: MenuSlots, in_window: bool, menu: usize)
    ensures
        ({
            let filled = if in_window {
                MenuSlots {
                    app_menu: slots.app_menu,
                    window_menu: Some(menu),
                    active_window_menu: slots.active_window_menu,
                }
            } else {
                MenuSlots {
                    app_menu: Some(menu),
                    window_menu: slots.window_menu,
                    active_window_menu: slots.active_window_menu,
                }
            };
            let after = slots_after_unregister(filled, in_window, menu);
            &&& in_window ==> after.window_menu is None && after.app_menu == slots.app_menu
            &&& !in_window ==> after.app_menu is None && after.window_menu == slots.window_menu
                && after.active_window_menu == slots.active_window_menu
        }),
{
}

} // verus!
