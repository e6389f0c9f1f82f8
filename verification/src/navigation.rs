//! The model behind `SidebarNavigation`: its registered items, the row a
//! controlled value selects, and the value a selected row reports.
use vstd::prelude::*;

use crate::keys::{is_registration_key, new_registration_key};
use crate::registry::{
    Registration, find_key, has_key, is_first_with_key, place_keyed, placed, remove_registrations,
    without_key,
};

verus! {

/// One item registered by a `NavigationItem`.
#[derive(Debug, Clone)]
pub struct NavigationItemDefinition {
    pub registration_id: String,
    pub label: String,
    pub value: String,
    pub enabled: bool,
}

impl Registration for NavigationItemDefinition {
    open spec fn key_view(&self) -> Seq<char> {
        self.registration_id@
    }

    fn key(&self) -> (k: &String) {
        &self.registration_id
    }
}

impl NavigationItemDefinition {
    /// A definition under a fresh registration id.
    pub fn new(label: String, value: String, enabled: bool) -> (d: Self)
        ensures
            is_registration_key(d.registration_id@),
            d.label == label,
            d.value == value,
            d.enabled == enabled,
    {
        NavigationItemDefinition { registration_id: new_registration_key(), label, value, enabled }
    }
}

/// The index of the first item whose value is `value`; `None` when there is no
/// value or no item holds it.
pub fn matching_item_index(items: &[NavigationItemDefinition], value: Option<&String>) -> (r:
    Option<usize>)
    ensures
        match value {
            None => r is None,
            Some(v) => match r {
                Some(i) => i < items@.len() && items@[i as int].value@ == v@ && forall|j: int|
                    0 <= j < i ==> #[trigger] items@[j].value@ != v@,
                None => forall|j: int| 0 <= j < items@.len() ==> #[trigger] items@[j].value@ != v@,
            },
        },
{
    let wanted = match value {
        Some(v) => v,
        None => return None,
    };
    let mut i: usize = 0;
    while i < items.len()
        invariant
            value == Some(wanted),
            i <= items@.len(),
            forall|j: int| 0 <= j < i ==> #[trigger] items@[j].value@ != wanted@,
        decreases items@.len() - i,
    {
        if items[i].value == *wanted {
            return Some(i);
        }
        i += 1;
    }
    None
}

/// The items of one mounted `SidebarNavigation`, in row order.
#[derive(Debug)]
pub struct NavigationHandler {
    pub items: Vec<NavigationItemDefinition>,
}

impl NavigationHandler {
    pub fn new() -> (h: Self)
        ensures
            h.items@.len() == 0,
    {
        NavigationHandler { items: Vec::new() }
    }

    /// The number of rows the table shows.
    pub fn number_of_rows(&self) -> (n: usize)
        ensures
            n == self.items@.len(),
    {
        self.items.len()
    }

    /// Places an item at `index` (see `registry::placed`).
    pub fn place_item(&mut self, item: NavigationItemDefinition, index: Option<usize>)
        ensures
            final(self).items@ == placed(old(self).items@, item, index),
    {
        place_keyed(&mut self.items, item, index);
    }

    /// Removes the item registered under `registration_id`.
    pub fn remove_item(&mut self, registration_id: &String)
        ensures
            final(self).items@ == without_key(old(self).items@, registration_id@),
    {
        remove_registrations(&mut self.items, registration_id);
    }

    /// Replaces the label, value and enabled state of the first item
    /// registered under `registration_id`.
    pub fn update_item(
        &mut self,
        registration_id: &String,
        label: String,
        value: String,
        enabled: bool,
    )
        ensures
            !has_key(old(self).items@, registration_id@) ==> final(self).items@ == old(self).items@,
            forall|i: int|
                is_first_with_key(old(self).items@, registration_id@, i) ==> final(self).items@
                    == old(self).items@.update(
                    i,
                    NavigationItemDefinition {
                        registration_id: old(self).items@[i].registration_id,
                        label,
                        value,
                        enabled,
                    },
                ),
    {
        match find_key(&self.items, registration_id) {
            Some(i) => {
                let current = self.items.remove(i);
                let item = NavigationItemDefinition {
                    registration_id: current.registration_id,
                    label,
                    value,
                    enabled,
                };
                self.items.insert(i, item);
                proof {
                    assert forall|k: int| is_first_with_key(old(self).items@, registration_id@, k)
                        implies k == i by {
                        if k < i {
                            assert(old(self).items@[k].key_view() != registration_id@);
                        } else if k > i {
                            assert(old(self).items@[i as int].key_view() != registration_id@);
                        }
                    }
                    assert(self.items@ =~= old(self).items@.update(i as int, item));
                }
            },
            None => {},
        }
    }

    /// Whether the row `row` may be selected: it exists and is enabled.
    pub fn should_select_row(&self, row: isize) -> (r: bool)
        ensures
            r == (0 <= row < self.items@.len() && self.items@[row as int].enabled),
    {
        if row < 0 {
            return false;
        }
        let row = row as usize;
        row < self.items.len() && self.items[row].enabled
    }

    /// The value that selecting row `row` reports, if the row exists.
    pub fn selection_value(&self, row: isize) -> (r: Option<String>)
        ensures
            match r {
                Some(v) => 0 <= row < self.items@.len() && v@ == self.items@[row as int].value@,
                None => !(0 <= row < self.items@.len()),
            },
    {
        if row < 0 {
            return None;
        }
        let row = row as usize;
        if row < self.items.len() {
            Some(self.items[row].value.clone())
        } else {
            None
        }
    }

    /// The row a controlled value selects (the first item holding it); `None`
    /// clears the selection.
    pub fn apply_selection(&self, value: Option<&String>) -> (r: Option<usize>)
        ensures
            match value {
                None => r is None,
                Some(v) => match r {
                    Some(i) => i < self.items@.len() && self.items@[i as int].value@ == v@
                        && forall|j: int| 0 <= j < i ==> #[trigger] self.items@[j].value@ != v@,
                    None => forall|j: int|
                        0 <= j < self.items@.len() ==> #[trigger] self.items@[j].value@ != v@,
                },
            },
    {
        matching_item_index(self.items.as_slice(), value)
    }
}

} // verus!
