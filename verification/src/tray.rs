//! The status-bar item of a tray icon: when its menu may be shown, whether a
//! click asks for the secondary action, what each update of its props does,
//! and the strings it is labelled with.
use vstd::prelude::*;
use vstd::utf8::{decode_utf8, valid_utf8};

verus! {

/// `NSEventTypeRightMouseDown`.
pub const EVENT_RIGHT_MOUSE_DOWN: usize = 3;

/// `NSEventTypeRightMouseUp`.
pub const EVENT_RIGHT_MOUSE_UP: usize = 4;

/// `NSEventTypeOtherMouseDown`.
pub const EVENT_OTHER_MOUSE_DOWN: usize = 25;

/// `NSEventTypeOtherMouseUp`.
pub const EVENT_OTHER_MOUSE_UP: usize = 26;

/// `NSEventModifierFlagControl`.
pub const MODIFIER_CONTROL: usize = 0x40000;

/// Why a tray icon's menu could not be shown.
#[derive(Debug, Clone, Copy, PartialEq, Eq, Structural)]
pub enum TrayIconError {
    /// The tray icon is gone, or has no status item.
    NotMounted,
    /// The tray icon has no menu.
    MenuUnavailable,
    /// A presentation of the menu is already pending.
    PresentationFailed,
}

/// The state of one tray icon. A status item is known by an identifier
/// that is unique while it is installed.
#[derive(Debug, Clone, Copy, PartialEq, Eq, Structural)]
pub struct TrayIconState {
    pub status_item: Option<u64>,
    pub has_menu: bool,
    pub menu_presentation_pending: bool,
}

/// What an update of the tray icon's props does.
#[derive(Debug, Clone, Copy, PartialEq, Eq, Structural)]
pub enum TrayUpdate {
    /// The icon is hidden: its status item is removed.
    RemoveItem,
    /// The icon could not be decoded and there is no item to keep: nothing
    /// is shown.
    Skip,
    /// A status item is created, then given the image, tooltip and label.
    CreateItem,
    /// The existing status item is given the image (when it decoded), tooltip
    /// and label.
    UpdateItem,
}

impl TrayIconState {
    /// What asking to show the menu gives: the status item to present it on,
    /// or why it cannot be shown.
    pub open spec fn show_menu_result(self) -> Result<u64, TrayIconError> {
        if self.menu_presentation_pending {
            Err(TrayIconError::PresentationFailed)
        } else {
            match self.status_item {
                None => Err(TrayIconError::NotMounted),
                Some(item) => if self.has_menu {
                    Ok(item)
                } else {
                    Err(TrayIconError::MenuUnavailable)
                },
            }
        }
    }

    /// The state once a request to show the menu has been accepted.
    pub open spec fn shown(self) -> TrayIconState {
        TrayIconState { menu_presentation_pending: true, ..self }
    }

    /// Whether a queued presentation on `item` is still to be carried out.
    pub open spec fn presents(self, item: u64) -> bool {
        self.menu_presentation_pending && self.status_item == Some(item)
    }

    /// The state once the status item is removed.
    pub open spec fn removed(self) -> TrayIconState {
        TrayIconState { status_item: None, menu_presentation_pending: false, ..self }
    }

    pub fn new() -> (s: Self)
        ensures
            s.status_item is None,
            !s.has_menu,
            !s.menu_presentation_pending,
    {
        TrayIconState { status_item: None, has_menu: false, menu_presentation_pending: false }
    }

    /// Records whether the tray icon has a menu.
    pub fn set_menu_available(&mut self, has_menu: bool)
        ensures
            *final(self) == (TrayIconState { has_menu, ..*old(self) }),
    {
        self.has_menu = has_menu;
    }

    /// What an update of the props does: a hidden icon removes its item; a
    /// visible one creates an item when it has none, unless its image could
    /// not be decoded, and otherwise updates the item it has.
    pub fn plan_update(&self, visible: bool, image_decoded: bool) -> (r: TrayUpdate)
        ensures
            r == (if !visible {
                TrayUpdate::RemoveItem
            } else if self.status_item is None && !image_decoded {
                TrayUpdate::Skip
            } else if self.status_item is None {
                TrayUpdate::CreateItem
            } else {
                TrayUpdate::UpdateItem
            }),
    {
        if !visible {
            TrayUpdate::RemoveItem
        } else if self.status_item.is_none() && !image_decoded {
            TrayUpdate::Skip
        } else if self.status_item.is_none() {
            TrayUpdate::CreateItem
        } else {
            TrayUpdate::UpdateItem
        }
    }

    /// Records the status item created for the icon.
    pub fn install_item(&mut self, item: u64)
        requires
            old(self).status_item is None,
        ensures
            *final(self) == (TrayIconState { status_item: Some(item), ..*old(self) }),
    {
        self.status_item = Some(item);
    }

    /// Asks to show the menu. When it can be shown, a presentation becomes
    /// pending and the status item to present it on is returned; otherwise
    /// nothing changes and the reason is returned.
    pub fn show_menu(&mut self) -> (r: Result<u64, TrayIconError>)
        ensures
            r == old(self).show_menu_result(),
            *final(self) == (if r is Ok {
                old(self).shown()
            } else {
                *old(self)
            }),
    {
        if self.menu_presentation_pending {
            return Err(TrayIconError::PresentationFailed);
        }
        let item = match self.status_item {
            Some(item) => item,
            None => return Err(TrayIconError::NotMounted),
        };
        if !self.has_menu {
            return Err(TrayIconError::MenuUnavailable);
        }
        self.menu_presentation_pending = true;
        Ok(item)
    }

    /// Whether the queued presentation on `item` is still to be carried out:
    /// it is pending and `item` is still the icon's status item.
    pub fn should_present(&self, item: u64) -> (r: bool)
        ensures
            r == self.presents(item),
    {
        self.menu_presentation_pending && match self.status_item {
            Some(current) => current == item,
            None => false,
        }
    }

    /// Ends a pending presentation, carried out or not.
    pub fn finish_presentation(&mut self)
        ensures
            *final(self) == (TrayIconState { menu_presentation_pending: false, ..*old(self) }),
    {
        self.menu_presentation_pending = false;
    }

    /// Removes the status item, returning it so that it can be taken off the
    /// status bar. A pending presentation is dropped.
    pub fn remove_item(&mut self) -> (r: Option<u64>)
        ensures
            r == old(self).status_item,
            *final(self) == old(self).removed(),
    {
        self.menu_presentation_pending = false;
        let item = self.status_item;
        self.status_item = None;
        item
    }
}

/// Whether a click on the status item asks for the secondary action: it came
/// from the right or another mouse button, or with the Control key held.
/// `event` is the current event's type and modifier flags, if there is one.
pub fn is_secondary_activation(event: Option<(usize, usize)>) -> (r: bool)
    ensures
        r == (match event {
            Some((event_type, modifiers)) => event_type == EVENT_RIGHT_MOUSE_DOWN || event_type
                == EVENT_RIGHT_MOUSE_UP || event_type == EVENT_OTHER_MOUSE_DOWN || event_type
                == EVENT_OTHER_MOUSE_UP || modifiers & MODIFIER_CONTROL != 0,
            None => false,
        }),
{
    match event {
        Some((event_type, modifiers)) => event_type == EVENT_RIGHT_MOUSE_DOWN || event_type
            == EVENT_RIGHT_MOUSE_UP || event_type == EVENT_OTHER_MOUSE_DOWN || event_type
            == EVENT_OTHER_MOUSE_UP || modifiers & MODIFIER_CONTROL != 0,
        None => false,
    }
}

/// The name the icon is labelled with when it has no tooltip: the stem of the
/// executable's file name, or `Application` when there is none or it is empty.
pub fn process_name_from_stem(stem: Option<String>) -> (r: String)
    ensures
        r@ == (match stem {
            Some(name) if name@.len() > 0 => name@,
            _ => "Application"@,
        }),
{
    match stem {
        Some(name) => if name.as_str().is_empty() {
            "Application".to_owned()
        } else {
            name
        },
        None => "Application".to_owned(),
    }
}

/// What `String::from_utf8_lossy` makes of `bytes`: their text, with each
/// invalid sequence replaced by U+FFFD.
pub uninterp spec fn lossy_utf8(bytes: Seq<u8>) -> Seq<char>;

/// `String::from_utf8_lossy`, taken as an owned string. Its result is named
/// `lossy_utf8` of the bytes; of it the contract states what the
/// documentation says of valid input, that it is the text the bytes encode.
/// How invalid sequences are replaced is left to the name.
#[verifier::external_body]
fn decode_utf8_lossy(bytes: &[u8]) -> (s: String)
    ensures
        s@ == lossy_utf8(bytes@),
        valid_utf8(bytes@) ==> s@ == decode_utf8(bytes@),
{
    String::from_utf8_lossy(bytes).into_owned()
}

/// The text of a file path given by its bytes, as the path of an icon file is
/// handed to AppKit: valid UTF-8 is kept as it is, and invalid sequences are
/// replaced by U+FFFD.
pub fn path_to_string(path: &[u8]) -> (r: String)
    ensures
        r@ == lossy_utf8(path@),
        valid_utf8(path@) ==> r@ == decode_utf8(path@),
{
    decode_utf8_lossy(path)
}

/// A request to show the menu that was accepted is carried out on the status
/// item it names, unless something else happens first.
pub proof fn law_accepted_request_is_presented(s: TrayIconState, item: u64)
    requires
        s.show_menu_result() == Ok::<u64, TrayIconError>(item),
    ensures
        s.shown().presents(item),
{
}

/// While a presentation is pending, another request to show the menu is
/// refused as `PresentationFailed`.
pub proof fn law_one_pending_presentation(s: TrayIconState)
    requires
        s.show_menu_result() is Ok,
    ensures
        s.shown().show_menu_result() == Err::<u64, TrayIconError>(TrayIconError::PresentationFailed),
{
}

/// Once a presentation has finished, the menu can be asked for again on the
/// same item.
pub proof fn law_finished_presentation_allows_another(s: TrayIconState, item: u64)
    requires
        s.show_menu_result() == Ok::<u64, TrayIconError>(item),
    ensures
        (TrayIconState { menu_presentation_pending: false, ..s.shown() }).show_menu_result() == Ok::<
            u64,
            TrayIconError,
        >(item),
{
}

/// Once the status item is removed, no queued presentation is carried out and
/// a request to show the menu is answered `NotMounted`.
pub proof fn law_removed_item_is_not_presented(s: TrayIconState, item: u64)
    ensures
        !s.removed().presents(item),
        s.removed().show_menu_result() == Err::<u64, TrayIconError>(TrayIconError::NotMounted),
{
}

} // verus!
