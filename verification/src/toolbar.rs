//! The model behind `AppKitToolbar`: which items are registered, in which
//! order they stand, and which identifiers the native toolbar shows.
use vstd::prelude::*;

use crate::keys::{is_registration_key, new_registration_key};
use crate::registry::{Registration, place_keyed, placed, remove_registrations, without_key};

verus! {

/// Controls whether toolbar items show their symbols, labels, or both.
#[derive(Debug, Clone, Copy, Default, PartialEq, Eq, Structural)]
pub enum AppKitToolbarDisplayMode {
    #[default]
    Default,
    IconAndLabel,
    IconOnly,
    LabelOnly,
}

/// The raw value of the matching `NSToolbarDisplayMode`.
pub open spec fn native_display_mode(mode: AppKitToolbarDisplayMode) -> usize {
    match mode {
        AppKitToolbarDisplayMode::Default => 0,
        AppKitToolbarDisplayMode::IconAndLabel => 1,
        AppKitToolbarDisplayMode::IconOnly => 2,
        AppKitToolbarDisplayMode::LabelOnly => 3,
    }
}

/// The display modes use AppKit's `NSToolbarDisplayMode` values: Default 0,
/// IconAndLabel 1, IconOnly 2, LabelOnly 3.
pub proof fn law_display_mode_values()
    ensures
        native_display_mode(AppKitToolbarDisplayMode::Default) == 0,
        native_display_mode(AppKitToolbarDisplayMode::IconAndLabel) == 1,
        native_display_mode(AppKitToolbarDisplayMode::IconOnly) == 2,
        native_display_mode(AppKitToolbarDisplayMode::LabelOnly) == 3,
{
}

impl AppKitToolbarDisplayMode {
    /// The raw `NSToolbarDisplayMode` value for this mode.
    pub fn to_native(self) -> (raw: usize)
        ensures
            raw == native_display_mode(self),
    {
        match self {
            AppKitToolbarDisplayMode::Default => 0,
            AppKitToolbarDisplayMode::IconAndLabel => 1,
            AppKitToolbarDisplayMode::IconOnly => 2,
            AppKitToolbarDisplayMode::LabelOnly => 3,
        }
    }
}

/// Props of a fixed-width toolbar space.
#[derive(Debug, Clone, Copy, Default)]
pub struct AppKitToolbarSpaceProps {}

/// Props of a flexible toolbar space.
#[derive(Debug, Clone, Copy, Default)]
pub struct AppKitToolbarFlexibleSpaceProps {}

/// One placed toolbar entry: the key of the component that placed it and the
/// item identifier it shows.
#[derive(Debug, Clone)]
pub struct ToolbarRegistration {
    pub key: String,
    pub identifier: String,
}

impl Registration for ToolbarRegistration {
    open spec fn key_view(&self) -> Seq<char> {
        self.key@
    }

    fn key(&self) -> (k: &String) {
        &self.key
    }
}

impl ToolbarRegistration {
    pub fn new(key: String, identifier: String) -> (r: Self)
        ensures
            r.key == key,
            r.identifier == identifier,
    {
        ToolbarRegistration { key, identifier }
    }
}

/// Places a toolbar registration: any earlier registration with the same key
/// is dropped and the registration is inserted at `index`, clamped to the end
/// of the list, or appended when `index` is `None`.
pub fn place_registration(
    registrations: &mut Vec<ToolbarRegistration>,
    registration: ToolbarRegistration,
    index: Option<usize>,
)
    ensures
        final(registrations)@ == placed(old(registrations)@, registration, index),
{
    place_keyed(registrations, registration, index);
}

/// A custom item registered by an `AppKitToolbarItem`.
#[derive(Debug, Clone)]
pub struct ToolbarItemDefinition {
    pub identifier: String,
    pub hidden: bool,
}

/// Why an item identifier cannot be registered.
#[derive(Debug, Clone, Copy, PartialEq, Eq, Structural)]
pub enum ToolbarItemError {
    /// The identifier is empty.
    EmptyIdentifier,
    /// The identifier is one that AppKit reserves for its spaces.
    ReservedIdentifier,
    /// Another item already uses the identifier.
    DuplicateIdentifier,
}

/// Whether `items` holds a definition for `identifier`.
pub open spec fn defines(items: Seq<ToolbarItemDefinition>, identifier: Seq<char>) -> bool {
    exists|i: int| 0 <= i < items.len() && #[trigger] items[i].identifier@ == identifier
}

/// Whether the definition of `identifier` in `items` is hidden.
pub open spec fn item_hidden(items: Seq<ToolbarItemDefinition>, identifier: Seq<char>) -> bool {
    exists|i: int|
        0 <= i < items.len() && #[trigger] items[i].identifier@ == identifier && items[i].hidden
}

/// The identifiers that the native toolbar shows, in registration order:
/// every registration whose item is not hidden. Spaces have no definition and
/// are always shown.
pub open spec fn shown_identifiers(
    registrations: Seq<ToolbarRegistration>,
    items: Seq<ToolbarItemDefinition>,
) -> Seq<Seq<char>>
    decreases registrations.len(),
{
    if registrations.len() == 0 {
        Seq::empty()
    } else {
        let rest = shown_identifiers(registrations.drop_last(), items);
        if item_hidden(items, registrations.last().identifier@) {
            rest
        } else {
            rest.push(registrations.last().identifier@)
        }
    }
}

/// The toolbar shows an identifier exactly when some registration places it
/// and no hidden item is registered under it; it shows at most as many
/// identifiers as there are registrations.
pub proof fn law_shown_identifiers(
    registrations: Seq<ToolbarRegistration>,
    items: Seq<ToolbarItemDefinition>,
    id: Seq<char>,
)
    ensures
        shown_identifiers(registrations, items).contains(id) <==> (!item_hidden(items, id)
            && exists|j: int|
            0 <= j < registrations.len() && #[trigger] registrations[j].identifier@ == id),
        shown_identifiers(registrations, items).len() <= registrations.len(),
    decreases registrations.len(),
{
    if registrations.len() > 0 {
        let d = registrations.drop_last();
        law_shown_identifiers(d, items, id);
        let rest = shown_identifiers(d, items);
        let last = registrations.last();
        if exists|j: int| 0 <= j < registrations.len() && #[trigger] registrations[j].identifier@
            == id {
            let j = choose|j: int|
                0 <= j < registrations.len() && #[trigger] registrations[j].identifier@ == id;
            if j < d.len() {
                assert(d[j].identifier@ == id);
            }
        }
        if exists|j: int| 0 <= j < d.len() && #[trigger] d[j].identifier@ == id {
            let j = choose|j: int| 0 <= j < d.len() && #[trigger] d[j].identifier@ == id;
            assert(registrations[j].identifier@ == id);
        }
        if !item_hidden(items, last.identifier@) {
            let shown = rest.push(last.identifier@);
            assert(shown[shown.len() - 1] == last.identifier@);
            assert(registrations[registrations.len() - 1] == last);
            if shown.contains(id) && !rest.contains(id) {
                let k = choose|k: int| 0 <= k < shown.len() && shown[k] == id;
                if k < rest.len() {
                    assert(rest[k] == id);
                }
            }
            if rest.contains(id) {
                let k = choose|k: int| 0 <= k < rest.len() && rest[k] == id;
                assert(shown[k] == id);
            }
        } else {
            assert(registrations[registrations.len() - 1] == last);
        }
    }
}

/// The identifiers of all registrations, in order.
pub open spec fn registered_identifiers(registrations: Seq<ToolbarRegistration>) -> Seq<
    Seq<char>,
> {
    registrations.map_values(|r: ToolbarRegistration| r.identifier@)
}

/// The error, if any, that registering `identifier` meets.
pub open spec fn identifier_error(
    reserved: Seq<String>,
    items: Seq<ToolbarItemDefinition>,
    identifier: Seq<char>,
) -> Option<ToolbarItemError> {
    if identifier.len() == 0 {
        Some(ToolbarItemError::EmptyIdentifier)
    } else if exists|i: int| 0 <= i < reserved.len() && #[trigger] reserved[i]@ == identifier {
        Some(ToolbarItemError::ReservedIdentifier)
    } else if defines(items, identifier) {
        Some(ToolbarItemError::DuplicateIdentifier)
    } else {
        None
    }
}

/// The state of one mounted toolbar: its placed registrations, the custom
/// items registered beneath it, and the identifiers that AppKit reserves.
#[derive(Debug)]
pub struct ToolbarContext {
    pub registrations: Vec<ToolbarRegistration>,
    pub items: Vec<ToolbarItemDefinition>,
    pub reserved: Vec<String>,
}

impl ToolbarContext {
    /// Item identifiers are unique.
    pub open spec fn wf(&self) -> bool {
        forall|i: int, j: int|
            0 <= i < j < self.items@.len() ==> #[trigger] self.items@[i].identifier@
                != #[trigger] self.items@[j].identifier@
    }

    /// An empty toolbar whose reserved identifiers are `reserved`.
    pub fn new(reserved: Vec<String>) -> (c: Self)
        ensures
            c.wf(),
            c.registrations@.len() == 0,
            c.items@.len() == 0,
            c.reserved@ == reserved@,
    {
        ToolbarContext { registrations: Vec::new(), items: Vec::new(), reserved }
    }

    fn find_item(&self, identifier: &String) -> (r: Option<usize>)
        ensures
            match r {
                Some(i) => i < self.items@.len() && self.items@[i as int].identifier@
                    == identifier@,
                None => !defines(self.items@, identifier@),
            },
    {
        let mut i: usize = 0;
        while i < self.items.len()
            invariant
                i <= self.items@.len(),
                forall|j: int| 0 <= j < i ==> self.items@[j].identifier@ != identifier@,
            decreases self.items@.len() - i,
        {
            if self.items[i].identifier == *identifier {
                return Some(i);
            }
            i += 1;
        }
        None
    }

    /// Whether the item registered as `identifier` is hidden.
    pub fn is_hidden(&self, identifier: &String) -> (r: bool)
        requires
            self.wf(),
        ensures
            r == item_hidden(self.items@, identifier@),
    {
        match self.find_item(identifier) {
            Some(i) => {
                proof {
                    if item_hidden(self.items@, identifier@) {
                        let j = choose|j: int|
                            0 <= j < self.items@.len() && #[trigger] self.items@[j].identifier@
                                == identifier@ && self.items@[j].hidden;
                        if j < i {
                            assert(self.items@[j].identifier@ != self.items@[i as int].identifier@);
                        } else if i < j {
                            assert(self.items@[i as int].identifier@ != self.items@[j].identifier@);
                        }
                    }
                }
                self.items[i].hidden
            },
            None => false,
        }
    }

    /// The reason `identifier` cannot be registered, if there is one.
    pub fn identifier_error(&self, identifier: &String) -> (r: Option<ToolbarItemError>)
        ensures
            r == identifier_error(self.reserved@, self.items@, identifier@),
    {
        if identifier.as_str().is_empty() {
            return Some(ToolbarItemError::EmptyIdentifier);
        }
        let mut i: usize = 0;
        while i < self.reserved.len()
            invariant
                identifier@.len() != 0,
                i <= self.reserved@.len(),
                forall|j: int| 0 <= j < i ==> self.reserved@[j]@ != identifier@,
            decreases self.reserved@.len() - i,
        {
            if self.reserved[i] == *identifier {
                assert(self.reserved@[i as int]@ == identifier@);
                return Some(ToolbarItemError::ReservedIdentifier);
            }
            i += 1;
        }
        match self.find_item(identifier) {
            Some(_) => Some(ToolbarItemError::DuplicateIdentifier),
            None => None,
        }
    }

    /// Registers the custom item `identifier`. The identifier must be
    /// non-empty, not reserved, and not used by another item.
    #[verifier::spinoff_prover]
    pub fn register_item(&mut self, identifier: String, hidden: bool)
        requires
            old(self).wf(),
            identifier_error(old(self).reserved@, old(self).items@, identifier@) is None,
        ensures
            final(self).wf(),
            final(self).items@ == old(self).items@.push(
                ToolbarItemDefinition { identifier, hidden },
            ),
            final(self).registrations@ == old(self).registrations@,
            final(self).reserved@ == old(self).reserved@,
    {
        let ghost id = identifier@;
        self.items.push(ToolbarItemDefinition { identifier, hidden });
        proof {
            assert forall|i: int, j: int|
                0 <= i < j < self.items@.len() implies #[trigger] self.items@[i].identifier@
                != #[trigger] self.items@[j].identifier@ by {
                if j == self.items@.len() - 1 {
                    assert(self.items@[i] == old(self).items@[i]);
                    if self.items@[i].identifier@ == id {
                        assert(defines(old(self).items@, id));
                    }
                }
            }
        }
    }

    /// Removes the custom item `identifier`, if it is registered.
    #[verifier::spinoff_prover]
    pub fn unregister_item(&mut self, identifier: &String)
        requires
            old(self).wf(),
        ensures
            final(self).wf(),
            !defines(final(self).items@, identifier@),
            forall|id: Seq<char>|
                id != identifier@ ==> (defines(final(self).items@, id) == defines(
                    old(self).items@,
                    id,
                ) && item_hidden(final(self).items@, id) == item_hidden(old(self).items@, id)),
            final(self).registrations@ == old(self).registrations@,
            final(self).reserved@ == old(self).reserved@,
    {
        match self.find_item(identifier) {
            Some(i) => {
                let ghost before = self.items@;
                self.items.remove(i);
                proof {
                    let after = self.items@;
                    assert(forall|j: int| 0 <= j < i ==> after[j] == before[j]);
                    assert(forall|j: int| i <= j < after.len() ==> after[j] == before[j + 1]);
                    assert forall|a: int, b: int|
                        0 <= a < b < after.len() implies #[trigger] after[a].identifier@
                        != #[trigger] after[b].identifier@ by {
                        let a0 = if a < i { a } else { a + 1 };
                        let b0 = if b < i { b } else { b + 1 };
                        assert(before[a0].identifier@ != before[b0].identifier@);
                    }
                    assert(!defines(after, identifier@)) by {
                        if defines(after, identifier@) {
                            let j = choose|j: int|
                                0 <= j < after.len() && #[trigger] after[j].identifier@
                                    == identifier@;
                            let j0 = if j < i { j } else { j + 1 };
                            assert(before[j0].identifier@ == before[i as int].identifier@);
                        }
                    }
                    assert forall|id: Seq<char>| id != identifier@ implies (defines(after, id)
                        == defines(before, id) && item_hidden(after, id) == item_hidden(
                        before,
                        id,
                    )) by {
                        if defines(before, id) {
                            let j = choose|j: int|
                                0 <= j < before.len() && #[trigger] before[j].identifier@ == id;
                            assert(j != i);
                            let j1 = if j < i { j } else { j - 1 };
                            assert(after[j1] == before[j]);
                        }
                        if item_hidden(before, id) {
                            let j = choose|j: int|
                                0 <= j < before.len() && #[trigger] before[j].identifier@ == id
                                    && before[j].hidden;
                            assert(j != i);
                            let j1 = if j < i { j } else { j - 1 };
                            assert(after[j1] == before[j]);
                        }
                    }
                }
            },
            None => {},
        }
    }

    /// Records whether the custom item `identifier` is hidden.
    #[verifier::spinoff_prover]
    pub fn set_hidden(&mut self, identifier: &String, hidden: bool)
        requires
            old(self).wf(),
        ensures
            final(self).wf(),
            forall|id: Seq<char>|
                #![trigger defines(final(self).items@, id)]
                defines(final(self).items@, id) == defines(old(self).items@, id),
            defines(old(self).items@, identifier@) ==> item_hidden(final(self).items@, identifier@)
                == hidden,
            forall|id: Seq<char>|
                id != identifier@ ==> item_hidden(final(self).items@, id) == item_hidden(
                    old(self).items@,
                    id,
                ),
            final(self).registrations@ == old(self).registrations@,
            final(self).reserved@ == old(self).reserved@,
    {
        match self.find_item(identifier) {
            Some(i) => {
                let ghost before = self.items@;
                let definition = ToolbarItemDefinition {
                    identifier: self.items[i].identifier.clone(),
                    hidden,
                };
                self.items.set(i, definition);
                proof {
                    let after = self.items@;
                    assert forall|a: int, b: int|
                        0 <= a < b < after.len() implies #[trigger] after[a].identifier@
                        != #[trigger] after[b].identifier@ by {
                        assert(before[a].identifier@ != before[b].identifier@);
                    }
                    assert forall|id: Seq<char>| defines(after, id) == defines(before, id) by {
                        if defines(before, id) {
                            let j = choose|j: int|
                                0 <= j < before.len() && #[trigger] before[j].identifier@ == id;
                            assert(after[j].identifier@ == id);
                        }
                        if defines(after, id) {
                            let j = choose|j: int|
                                0 <= j < after.len() && #[trigger] after[j].identifier@ == id;
                            assert(before[j].identifier@ == id);
                        }
                    }
                    assert(item_hidden(after, identifier@) == hidden) by {
                        assert(after[i as int].identifier@ == identifier@);
                        if item_hidden(after, identifier@) {
                            let j = choose|j: int|
                                0 <= j < after.len() && #[trigger] after[j].identifier@
                                    == identifier@ && after[j].hidden;
                            if j != i {
                                if j < i {
                                    assert(before[j].identifier@ != before[i as int].identifier@);
                                } else {
                                    assert(before[i as int].identifier@ != before[j].identifier@);
                                }
                            }
                        }
                    }
                    assert forall|id: Seq<char>| id != identifier@ implies item_hidden(after, id)
                        == item_hidden(before, id) by {
                        if item_hidden(before, id) {
                            let j = choose|j: int|
                                0 <= j < before.len() && #[trigger] before[j].identifier@ == id
                                    && before[j].hidden;
                            assert(after[j] == before[j]);
                        }
                        if item_hidden(after, id) {
                            let j = choose|j: int|
                                0 <= j < after.len() && #[trigger] after[j].identifier@ == id
                                    && after[j].hidden;
                            assert(after[j] == before[j]);
                        }
                    }
                }
            },
            None => {},
        }
    }

    /// Places the registration `key` showing `identifier` at `index`.
    pub fn place(&mut self, key: String, identifier: String, index: Option<usize>)
        ensures
            final(self).registrations@ == placed(
                old(self).registrations@,
                ToolbarRegistration { key, identifier },
                index,
            ),
            final(self).items@ == old(self).items@,
            final(self).reserved@ == old(self).reserved@,
    {
        place_registration(&mut self.registrations, ToolbarRegistration { key, identifier }, index);
    }

    /// Removes the registrations placed under `key`.
    pub fn remove(&mut self, key: &String)
        ensures
            final(self).registrations@ == without_key(old(self).registrations@, key@),
            final(self).items@ == old(self).items@,
            final(self).reserved@ == old(self).reserved@,
    {
        remove_registrations(&mut self.registrations, key);
    }

    /// The identifiers to insert into the native toolbar, in order: every
    /// registration whose item is not hidden.
    pub fn sync(&self) -> (shown: Vec<String>)
        requires
            self.wf(),
        ensures
            shown.deep_view() == shown_identifiers(self.registrations@, self.items@),
    {
        let mut shown: Vec<String> = Vec::new();
        let mut i: usize = 0;
        while i < self.registrations.len()
            invariant
                self.wf(),
                i <= self.registrations@.len(),
                shown.deep_view() == shown_identifiers(
                    self.registrations@.take(i as int),
                    self.items@,
                ),
            decreases self.registrations@.len() - i,
        {
            proof {
                assert(self.registrations@.take(i + 1).drop_last() =~= self.registrations@.take(
                    i as int,
                ));
            }
            let hidden = self.is_hidden(&self.registrations[i].identifier);
            if !hidden {
                let ghost before = shown.deep_view();
                shown.push(self.registrations[i].identifier.clone());
                proof {
                    assert(shown.deep_view() =~= before.push(self.registrations@[i as int].identifier@));
                }
            }
            i += 1;
        }
        proof {
            assert(self.registrations@.take(i as int) =~= self.registrations@);
        }
        shown
    }

    /// Whether a custom item is registered as `identifier`, which is what the
    /// toolbar delegate needs to create a native item for it.
    pub fn has_item(&self, identifier: &String) -> (r: bool)
        ensures
            r == defines(self.items@, identifier@),
    {
        self.find_item(identifier).is_some()
    }

    /// Places a space (or any item not defined by this toolbar) under a fresh
    /// registration key and returns the key.
    pub fn mount_space(&mut self, identifier: String, index: Option<usize>) -> (key: String)
        ensures
            is_registration_key(key@),
            final(self).registrations@ == placed(
                old(self).registrations@,
                ToolbarRegistration { key, identifier },
                index,
            ),
            final(self).items@ == old(self).items@,
            final(self).reserved@ == old(self).reserved@,
    {
        let key = new_registration_key();
        self.place(key.clone(), identifier, index);
        key
    }
}

/// The identifiers of all registrations, in order; the toolbar offers these
/// as its default and allowed identifiers.
pub fn toolbar_identifiers(registrations: &Vec<ToolbarRegistration>) -> (ids: Vec<String>)
    ensures
        ids.deep_view() == registered_identifiers(registrations@),
{
    let mut ids: Vec<String> = Vec::new();
    let mut i: usize = 0;
    while i < registrations.len()
        invariant
            i <= registrations@.len(),
            ids.deep_view() == registered_identifiers(registrations@.take(i as int)),
        decreases registrations@.len() - i,
    {
        let ghost before = ids.deep_view();
        ids.push(registrations[i].identifier.clone());
        proof {
            assert(ids.deep_view() =~= before.push(registrations@[i as int].identifier@));
            assert(registered_identifiers(registrations@.take(i + 1)) =~= registered_identifiers(
                registrations@.take(i as int),
            ).push(registrations@[i as int].identifier@));
        }
        i += 1;
    }
    proof {
        assert(registrations@.take(i as int) =~= registrations@);
    }
    ids
}

} // verus!
