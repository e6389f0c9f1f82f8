//! The model behind the flat collection views (`ListView`, `TableView`): the
//! registered rows and their cells, the table's columns, and how selection,
//! activation and row text follow from them.
use vstd::prelude::*;

use crate::keys::{is_registration_key, new_registration_key};
use crate::registry::{
    Registration, find_key, has_key, is_first_with_key, place_keyed, placed, remove_registrations,
    without_key,
};

verus! {

/// A column of a `TableView`: a stable identifier and a title.
#[derive(Debug, Clone, PartialEq, Eq)]
pub struct TableViewColumn {
    pub id: String,
    pub title: String,
}

impl TableViewColumn {
    pub fn new(id: &str, title: &str) -> (c: Self)
        ensures
            c.id@ == id@,
            c.title@ == title@,
    {
        TableViewColumn { id: id.to_owned(), title: title.to_owned() }
    }
}

/// Whether some column of `s` has the id `id`.
pub open spec fn has_column_id(s: Seq<TableViewColumn>, id: Seq<char>) -> bool {
    exists|i: int| 0 <= i < s.len() && #[trigger] s[i].id@ == id
}

/// Whether a column before position `i` of `s` has the id of `s[i]`.
pub open spec fn id_seen_before(s: Seq<TableViewColumn>, i: int) -> bool {
    exists|j: int| 0 <= j < i && #[trigger] s[j].id@ == s[i].id@
}

/// The columns of `s` whose id did not occur earlier, in order: the first
/// definition of each id wins.
pub open spec fn first_definitions(s: Seq<TableViewColumn>) -> Seq<TableViewColumn>
    decreases s.len(),
{
    if s.len() == 0 {
        Seq::empty()
    } else {
        let rest = first_definitions(s.drop_last());
        if id_seen_before(s, s.len() - 1) {
            rest
        } else {
            rest.push(s.last())
        }
    }
}

proof fn lemma_first_definitions_ids(s: Seq<TableViewColumn>)
    ensures
        forall|id: Seq<char>|
            #![trigger has_column_id(first_definitions(s), id)]
            #![trigger has_column_id(s, id)]
            has_column_id(first_definitions(s), id) <==> has_column_id(s, id),
        forall|a: int, b: int|
            0 <= a < b < first_definitions(s).len() ==> #[trigger] first_definitions(s)[a].id@
                != #[trigger] first_definitions(s)[b].id@,
    decreases s.len(),
{
    if s.len() > 0 {
        let d = s.drop_last();
        lemma_first_definitions_ids(d);
        let f = first_definitions(s);
        let fd = first_definitions(d);
        assert forall|id: Seq<char>|
            has_column_id(f, id) <==> has_column_id(s, id) by {
            if has_column_id(s, id) {
                let i = choose|i: int| 0 <= i < s.len() && #[trigger] s[i].id@ == id;
                if i < s.len() - 1 {
                    assert(d[i].id@ == id);
                    assert(has_column_id(d, id));
                    assert(has_column_id(fd, id));
                    let k = choose|k: int| 0 <= k < fd.len() && #[trigger] fd[k].id@ == id;
                    assert(f[k] == fd[k]);
                } else if id_seen_before(s, s.len() - 1) {
                    let j = choose|j: int| 0 <= j < s.len() - 1 && #[trigger] s[j].id@ == s[s.len()
                        - 1].id@;
                    assert(d[j].id@ == id);
                    assert(has_column_id(d, id));
                    assert(has_column_id(fd, id));
                    let k = choose|k: int| 0 <= k < fd.len() && #[trigger] fd[k].id@ == id;
                    assert(f[k] == fd[k]);
                } else {
                    assert(f[f.len() - 1].id@ == id);
                }
            }
            if has_column_id(f, id) {
                let i = choose|i: int| 0 <= i < f.len() && #[trigger] f[i].id@ == id;
                if i < fd.len() {
                    assert(f[i] == fd[i]);
                    assert(has_column_id(fd, id));
                    assert(has_column_id(d, id));
                    let k = choose|k: int| 0 <= k < d.len() && #[trigger] d[k].id@ == id;
                    assert(s[k].id@ == id);
                } else {
                    assert(s[s.len() - 1].id@ == id);
                }
            }
        }
        if !id_seen_before(s, s.len() - 1) {
            assert forall|a: int, b: int| 0 <= a < b < f.len() implies #[trigger] f[a].id@
                != #[trigger] f[b].id@ by {
                if b == f.len() - 1 {
                    assert(f[a] == fd[a]);
                    if f[a].id@ == s.last().id@ {
                        assert(has_column_id(fd, f[a].id@));
                        assert(has_column_id(d, f[a].id@));
                        let k = choose|k: int| 0 <= k < d.len() && #[trigger] d[k].id@ == f[a].id@;
                        assert(s[k].id@ == s[s.len() - 1].id@);
                        assert(id_seen_before(s, s.len() - 1));
                    }
                } else {
                    assert(f[a] == fd[a]);
                    assert(f[b] == fd[b]);
                }
            }
        }
    }
}

/// The columns with duplicate ids removed, keeping the first definition of
/// every id. The result holds every id of the input exactly once.
pub fn unique_columns(columns: Vec<TableViewColumn>) -> (r: Vec<TableViewColumn>)
    ensures
        r@ == first_definitions(columns@),
        forall|a: int, b: int|
            0 <= a < b < r@.len() ==> #[trigger] r@[a].id@ != #[trigger] r@[b].id@,
        forall|id: Seq<char>|
            #![trigger has_column_id(r@, id)]
            #![trigger has_column_id(columns@, id)]
            has_column_id(r@, id) <==> has_column_id(columns@, id),
{
    let ghost input = columns@;
    let mut columns = columns;
    let mut kept: Vec<TableViewColumn> = Vec::new();
    let mut i: usize = 0;
    let n = columns.len();
    // Reverse so that the columns can be taken off the end in their order.
    let mut reversed: Vec<TableViewColumn> = Vec::new();
    while columns.len() > 0
        invariant
            columns@.len() <= n,
            n == input.len(),
            columns@ == input.take(columns@.len() as int),
            reversed@.len() == n - columns@.len(),
            forall|k: int|
                0 <= k < reversed@.len() ==> #[trigger] reversed@[k] == input[n - 1 - k],
        decreases columns@.len(),
    {
        let c = columns.pop().unwrap();
        reversed.push(c);
        proof {
            assert(columns@ =~= input.take(columns@.len() as int));
        }
    }
    while i < n
        invariant
            n == input.len(),
            i <= n,
            reversed@.len() == n - i,
            forall|k: int|
                0 <= k < reversed@.len() ==> #[trigger] reversed@[k] == input[n - 1 - k],
            kept@ == first_definitions(input.take(i as int)),
        decreases n - i,
    {
        let c = reversed.pop().unwrap();
        proof {
            assert(c == input[i as int]);
            lemma_first_definitions_ids(input.take(i as int));
            assert(input.take(i + 1).drop_last() =~= input.take(i as int));
        }
        let mut seen = false;
        let mut j: usize = 0;
        while j < kept.len()
            invariant
                j <= kept@.len(),
                seen <==> exists|k: int| 0 <= k < j && #[trigger] kept@[k].id@ == c.id@,
            decreases kept@.len() - j,
        {
            if kept[j].id == c.id {
                seen = true;
            }
            j += 1;
        }
        proof {
            let t = input.take(i + 1);
            assert(t[i as int] == c);
            assert(seen <==> id_seen_before(t, i as int)) by {
                if seen {
                    let k = choose|k: int| 0 <= k < kept@.len() && #[trigger] kept@[k].id@ == c.id@;
                    assert(has_column_id(kept@, c.id@));
                    assert(has_column_id(input.take(i as int), c.id@));
                    let m = choose|m: int| 0 <= m < i && #[trigger] input.take(i as int)[m].id@
                        == c.id@;
                    assert(t[m].id@ == t[i as int].id@);
                }
                if id_seen_before(t, i as int) {
                    let m = choose|m: int| 0 <= m < i && #[trigger] t[m].id@ == t[i as int].id@;
                    assert(input.take(i as int)[m].id@ == c.id@);
                    assert(has_column_id(input.take(i as int), c.id@));
                    assert(has_column_id(kept@, c.id@));
                }
            }
        }
        if !seen {
            kept.push(c);
        }
        i += 1;
    }
    proof {
        assert(input.take(n as int) =~= input);
        lemma_first_definitions_ids(input);
    }
    kept
}

/// The text of one table cell, registered under its column id.
#[derive(Debug, Clone)]
pub struct CellText {
    pub column: String,
    pub text: String,
}

impl Registration for CellText {
    open spec fn key_view(&self) -> Seq<char> {
        self.column@
    }

    fn key(&self) -> (k: &String) {
        &self.column
    }
}

/// One row registered by a list item or a table row.
#[derive(Debug)]
pub struct RowDefinition {
    pub registration_id: String,
    pub value: String,
    pub label: String,
    pub enabled: bool,
    pub cells: Vec<CellText>,
}

impl Registration for RowDefinition {
    open spec fn key_view(&self) -> Seq<char> {
        self.registration_id@
    }

    fn key(&self) -> (k: &String) {
        &self.registration_id
    }
}

impl RowDefinition {
    /// A row for `value` under a fresh registration id: enabled, with an empty
    /// label and no cells.
    pub fn new(value: String) -> (r: Self)
        ensures
            is_registration_key(r.registration_id@),
            r.value == value,
            r.label@.len() == 0,
            r.enabled,
            r.cells@.len() == 0,
    {
        RowDefinition {
            registration_id: new_registration_key(),
            value,
            label: String::new(),
            enabled: true,
            cells: Vec::new(),
        }
    }
}

/// The text a table shows in `column` of a row: the cell registered for that
/// column, or the empty text.
pub open spec fn cell_text(cells: Seq<CellText>, column: Seq<char>) -> Seq<char> {
    if has_key(cells, column) {
        cells[choose|i: int| is_first_with_key(cells, column, i)].text@
    } else {
        Seq::empty()
    }
}

proof fn lemma_first_with_key_unique<T: Registration>(s: Seq<T>, key: Seq<char>, i: int, k: int)
    requires
        is_first_with_key(s, key, i),
        is_first_with_key(s, key, k),
    ensures
        i == k,
{
    if i < k {
        assert(s[i].key_view() != key);
    } else if k < i {
        assert(s[k].key_view() != key);
    }
}

/// Whether a collection is a list or a table.
#[derive(Debug, Clone, Copy, PartialEq, Eq, Structural)]
pub enum FlatKind {
    List,
    Table,
}

/// The value that row `row` reports, if the view and the row are enabled.
pub open spec fn enabled_row_value(enabled: bool, rows: Seq<RowDefinition>, row: int) -> Option<
    Seq<char>,
> {
    if !enabled || row < 0 || row >= rows.len() || !rows[row].enabled {
        None
    } else {
        Some(rows[row].value@)
    }
}

/// The text and enabled state that row `row` shows in `column`.
pub open spec fn row_presentation(
    kind: FlatKind,
    enabled: bool,
    rows: Seq<RowDefinition>,
    row: int,
    column: Option<Seq<char>>,
) -> Option<(Seq<char>, bool)> {
    if row < 0 || row >= rows.len() {
        None
    } else {
        let shown = enabled && rows[row].enabled;
        match kind {
            FlatKind::List => Some((rows[row].label@, shown)),
            FlatKind::Table => match column {
                Some(c) => Some((cell_text(rows[row].cells@, c), shown)),
                None => None,
            },
        }
    }
}

/// A row reports its value exactly when the view and the row are enabled and
/// the row exists; it is shown enabled under the same condition, a list row
/// with its label.
pub proof fn law_row_values(
    kind: FlatKind,
    enabled: bool,
    rows: Seq<RowDefinition>,
    row: int,
    column: Option<Seq<char>>,
)
    ensures
        enabled_row_value(enabled, rows, row) is Some <==> (enabled && 0 <= row < rows.len()
            && rows[row].enabled),
        enabled_row_value(enabled, rows, row) is Some ==> enabled_row_value(enabled, rows, row)
            == Some(rows[row].value@),
        row_presentation(kind, enabled, rows, row, column) is Some ==> 0 <= row < rows.len()
            && row_presentation(kind, enabled, rows, row, column).unwrap().1 == (enabled
            && rows[row].enabled),
        kind == FlatKind::List && 0 <= row < rows.len() ==> row_presentation(
            kind,
            enabled,
            rows,
            row,
            column,
        ) == Some((rows[row].label@, enabled && rows[row].enabled)),
{
}

/// The state of one mounted list or table view.
#[derive(Debug)]
pub struct FlatHandler {
    pub kind: FlatKind,
    pub rows: Vec<RowDefinition>,
    pub enabled: bool,
}

impl FlatHandler {
    pub fn new(kind: FlatKind, enabled: bool) -> (h: Self)
        ensures
            h.kind == kind,
            h.enabled == enabled,
            h.rows@.len() == 0,
    {
        FlatHandler { kind, rows: Vec::new(), enabled }
    }

    /// The number of rows the table shows.
    pub fn number_of_rows(&self) -> (n: usize)
        ensures
            n == self.rows@.len(),
    {
        self.rows.len()
    }

    /// The value of row `row`, if the view and that row are enabled.
    pub fn value_at_row(&self, row: isize) -> (r: Option<String>)
        ensures
            match r {
                Some(v) => enabled_row_value(self.enabled, self.rows@, row as int) == Some(v@),
                None => enabled_row_value(self.enabled, self.rows@, row as int) is None,
            },
    {
        if !self.enabled || row < 0 {
            return None;
        }
        let row = row as usize;
        if row < self.rows.len() && self.rows[row].enabled {
            Some(self.rows[row].value.clone())
        } else {
            None
        }
    }

    /// Whether row `row` may be selected.
    pub fn should_select_row(&self, row: isize) -> (r: bool)
        ensures
            r == (self.enabled && 0 <= row < self.rows@.len() && self.rows@[row as int].enabled),
    {
        if !self.enabled || row < 0 {
            return false;
        }
        let row = row as usize;
        row < self.rows.len() && self.rows[row].enabled
    }

    /// The row whose activation is reported: the clicked row when there is
    /// one, otherwise the selected row.
    pub fn activation_row(clicked: isize, selected: isize) -> (r: isize)
        ensures
            r == if clicked >= 0 {
                clicked
            } else {
                selected
            },
    {
        if clicked >= 0 {
            clicked
        } else {
            selected
        }
    }

    /// The value that activating the view reports, given the clicked and the
    /// selected row.
    pub fn activation_value(&self, clicked: isize, selected: isize) -> (r: Option<String>)
        ensures
            match r {
                Some(v) => enabled_row_value(
                    self.enabled,
                    self.rows@,
                    if clicked >= 0 {
                        clicked as int
                    } else {
                        selected as int
                    },
                ) == Some(v@),
                None => enabled_row_value(
                    self.enabled,
                    self.rows@,
                    if clicked >= 0 {
                        clicked as int
                    } else {
                        selected as int
                    },
                ) is None,
            },
    {
        self.value_at_row(Self::activation_row(clicked, selected))
    }

    /// The row a controlled value selects: the first enabled row holding the
    /// value. `None` clears the selection, which is also what a disabled view
    /// does.
    pub fn apply_selection(&self, value: Option<&String>) -> (r: Option<usize>)
        ensures
            match r {
                Some(i) => self.enabled && value is Some && i < self.rows@.len()
                    && self.rows@[i as int].enabled && self.rows@[i as int].value@
                    == value.unwrap()@ && forall|j: int|
                    0 <= j < i ==> !(#[trigger] self.rows@[j].enabled && self.rows@[j].value@
                        == value.unwrap()@),
                None => !self.enabled || value is None || forall|j: int|
                    0 <= j < self.rows@.len() ==> !(#[trigger] self.rows@[j].enabled
                        && self.rows@[j].value@ == value.unwrap()@),
            },
    {
        if !self.enabled {
            return None;
        }
        let wanted = match value {
            Some(v) => v,
            None => return None,
        };
        let mut i: usize = 0;
        while i < self.rows.len()
            invariant
                value == Some(wanted),
                self.enabled,
                i <= self.rows@.len(),
                forall|j: int|
                    0 <= j < i ==> !(#[trigger] self.rows@[j].enabled && self.rows@[j].value@
                        == wanted@),
            decreases self.rows@.len() - i,
        {
            if self.rows[i].enabled && self.rows[i].value == *wanted {
                return Some(i);
            }
            i += 1;
        }
        None
    }

    /// The text and enabled state of the label shown for row `row` in
    /// `column` (lists ignore the column; tables need one).
    pub fn row_presentation(&self, row: isize, column: Option<&String>) -> (r: Option<(String, bool)>)
        ensures
            match r {
                Some((t, e)) => row_presentation(
                    self.kind,
                    self.enabled,
                    self.rows@,
                    row as int,
                    match column {
                        Some(c) => Some(c@),
                        None => None,
                    },
                ) == Some((t@, e)),
                None => row_presentation(
                    self.kind,
                    self.enabled,
                    self.rows@,
                    row as int,
                    match column {
                        Some(c) => Some(c@),
                        None => None,
                    },
                ) is None,
            },
    {
        if row < 0 {
            return None;
        }
        let r = row as usize;
        if r >= self.rows.len() {
            return None;
        }
        let shown = self.enabled && self.rows[r].enabled;
        match self.kind {
            FlatKind::List => Some((self.rows[r].label.clone(), shown)),
            FlatKind::Table => match column {
                Some(c) => {
                    let cells = &self.rows[r].cells;
                    match find_key(cells, c) {
                        Some(k) => {
                            proof {
                                let i = choose|i: int| is_first_with_key(cells@, c@, i);
                                lemma_first_with_key_unique(cells@, c@, i, k as int);
                            }
                            Some((cells[k].text.clone(), shown))
                        },
                        None => Some((String::new(), shown)),
                    }
                },
                None => None,
            },
        }
    }

    /// Places a row at `index` (see `registry::placed`).
    pub fn place_row(&mut self, row: RowDefinition, index: Option<usize>)
        ensures
            final(self).rows@ == placed(old(self).rows@, row, index),
            final(self).kind == old(self).kind,
            final(self).enabled == old(self).enabled,
    {
        place_keyed(&mut self.rows, row, index);
    }

    /// Removes the row registered under `registration_id`.
    pub fn remove_row(&mut self, registration_id: &String)
        ensures
            final(self).rows@ == without_key(old(self).rows@, registration_id@),
            final(self).kind == old(self).kind,
            final(self).enabled == old(self).enabled,
    {
        remove_registrations(&mut self.rows, registration_id);
    }

    /// Takes the first row registered under `registration_id` out of the list.
    fn take_row(&mut self, registration_id: &String) -> (r: Option<(usize, RowDefinition)>)
        ensures
            final(self).kind == old(self).kind,
            final(self).enabled == old(self).enabled,
            match r {
                Some((i, row)) => is_first_with_key(old(self).rows@, registration_id@, i as int)
                    && row == old(self).rows@[i as int] && final(self).rows@ == old(self).rows@.remove(i as int),
                None => !has_key(old(self).rows@, registration_id@) && final(self).rows@ == old(self).rows@,
            },
    {
        match find_key(&self.rows, registration_id) {
            Some(i) => {
                let row = self.rows.remove(i);
                Some((i, row))
            },
            None => None,
        }
    }

    /// Sets the value of the row registered under `registration_id`.
    pub fn set_row_value(&mut self, registration_id: &String, value: String)
        ensures
            final(self).kind == old(self).kind,
            final(self).enabled == old(self).enabled,
            !has_key(old(self).rows@, registration_id@) ==> final(self).rows@ == old(self).rows@,
            forall|i: int|
                #[trigger] is_first_with_key(old(self).rows@, registration_id@, i) ==> final(self).rows@.len() == old(self).rows@.len() && (forall|j: int|
                    0 <= j < old(self).rows@.len() && j != i ==> #[trigger] final(self).rows@[j]
                        == old(self).rows@[j]) && final(self).rows@[i].value == value
                    && final(self).rows@[i].registration_id == old(self).rows@[i].registration_id
                    && final(self).rows@[i].label == old(self).rows@[i].label && final(self).rows@[i].enabled == old(self).rows@[i].enabled && final(self).rows@[i].cells
                    == old(self).rows@[i].cells,
    {
        match self.take_row(registration_id) {
            Some((i, row)) => {
                let updated = RowDefinition { value, ..row };
                self.rows.insert(i, updated);
                proof {
                    assert forall|k: int| #[trigger]
                        is_first_with_key(old(self).rows@, registration_id@, k) implies k
                        == i by {
                        lemma_first_with_key_unique(old(self).rows@, registration_id@, i as int, k);
                    }
                }
            },
            None => {},
        }
    }

    /// Sets the label and enabled state of the row registered under
    /// `registration_id`, as a list item does.
    pub fn set_row_label(&mut self, registration_id: &String, label: String, enabled: bool)
        ensures
            final(self).kind == old(self).kind,
            final(self).enabled == old(self).enabled,
            !has_key(old(self).rows@, registration_id@) ==> final(self).rows@ == old(self).rows@,
            forall|i: int|
                #[trigger] is_first_with_key(old(self).rows@, registration_id@, i) ==> final(self).rows@.len() == old(self).rows@.len() && (forall|j: int|
                    0 <= j < old(self).rows@.len() && j != i ==> #[trigger] final(self).rows@[j]
                        == old(self).rows@[j]) && final(self).rows@[i].label == label && final(self).rows@[i].enabled == enabled && final(self).rows@[i].registration_id == old(self).rows@[i].registration_id && final(self).rows@[i].value == old(self).rows@[i].value
                    && final(self).rows@[i].cells == old(self).rows@[i].cells,
    {
        match self.take_row(registration_id) {
            Some((i, row)) => {
                let updated = RowDefinition { label, enabled, ..row };
                self.rows.insert(i, updated);
                proof {
                    assert forall|k: int| #[trigger]
                        is_first_with_key(old(self).rows@, registration_id@, k) implies k
                        == i by {
                        lemma_first_with_key_unique(old(self).rows@, registration_id@, i as int, k);
                    }
                }
            },
            None => {},
        }
    }

    /// Sets whether the row registered under `registration_id` is enabled, as a
    /// table row does.
    pub fn set_row_enabled(&mut self, registration_id: &String, enabled: bool)
        ensures
            final(self).kind == old(self).kind,
            final(self).enabled == old(self).enabled,
            !has_key(old(self).rows@, registration_id@) ==> final(self).rows@ == old(self).rows@,
            forall|i: int|
                #[trigger] is_first_with_key(old(self).rows@, registration_id@, i) ==> final(self).rows@.len() == old(self).rows@.len() && (forall|j: int|
                    0 <= j < old(self).rows@.len() && j != i ==> #[trigger] final(self).rows@[j]
                        == old(self).rows@[j]) && final(self).rows@[i].enabled == enabled
                    && final(self).rows@[i].registration_id == old(self).rows@[i].registration_id
                    && final(self).rows@[i].value == old(self).rows@[i].value && final(self).rows@[i].label == old(self).rows@[i].label && final(self).rows@[i].cells == old(self).rows@[i].cells,
    {
        match self.take_row(registration_id) {
            Some((i, row)) => {
                let updated = RowDefinition { enabled, ..row };
                self.rows.insert(i, updated);
                proof {
                    assert forall|k: int| #[trigger]
                        is_first_with_key(old(self).rows@, registration_id@, k) implies k
                        == i by {
                        lemma_first_with_key_unique(old(self).rows@, registration_id@, i as int, k);
                    }
                }
            },
            None => {},
        }
    }

    /// Records the text of a table cell. A cell that moved away from
    /// `previous` loses its old column; the column `column` then holds `text`.
    pub fn set_cell(
        &mut self,
        registration_id: &String,
        previous: Option<&String>,
        column: String,
        text: String,
    )
        ensures
            final(self).kind == old(self).kind,
            final(self).enabled == old(self).enabled,
            !has_key(old(self).rows@, registration_id@) ==> final(self).rows@ == old(self).rows@,
            forall|i: int|
                #[trigger] is_first_with_key(old(self).rows@, registration_id@, i) ==> final(self).rows@.len() == old(self).rows@.len() && (forall|j: int|
                    0 <= j < old(self).rows@.len() && j != i ==> #[trigger] final(self).rows@[j]
                        == old(self).rows@[j]) && final(self).rows@[i].cells@ == placed(
                    match previous {
                        Some(p) => if p@ != column@ {
                            without_key(old(self).rows@[i].cells@, p@)
                        } else {
                            old(self).rows@[i].cells@
                        },
                        None => old(self).rows@[i].cells@,
                    },
                    CellText { column, text },
                    None,
                ) && final(self).rows@[i].registration_id == old(self).rows@[i].registration_id
                    && final(self).rows@[i].value == old(self).rows@[i].value && final(self).rows@[i].label == old(self).rows@[i].label && final(self).rows@[i].enabled
                    == old(self).rows@[i].enabled,
    {
        match self.take_row(registration_id) {
            Some((i, row)) => {
                let mut cells = row.cells;
                match previous {
                    Some(p) => {
                        if *p != column {
                            remove_registrations(&mut cells, p);
                        }
                    },
                    None => {},
                }
                place_keyed(&mut cells, CellText { column, text }, None);
                let updated = RowDefinition {
                    registration_id: row.registration_id,
                    value: row.value,
                    label: row.label,
                    enabled: row.enabled,
                    cells,
                };
                self.rows.insert(i, updated);
                proof {
                    assert forall|k: int| #[trigger]
                        is_first_with_key(old(self).rows@, registration_id@, k) implies k
                        == i by {
                        lemma_first_with_key_unique(old(self).rows@, registration_id@, i as int, k);
                    }
                }
            },
            None => {},
        }
    }

    /// Removes the cell of `column` from the row registered under
    /// `registration_id`, as an unmounted cell does.
    pub fn remove_cell(&mut self, registration_id: &String, column: &String)
        ensures
            final(self).kind == old(self).kind,
            final(self).enabled == old(self).enabled,
            !has_key(old(self).rows@, registration_id@) ==> final(self).rows@ == old(self).rows@,
            forall|i: int|
                #[trigger] is_first_with_key(old(self).rows@, registration_id@, i) ==> final(self).rows@.len() == old(self).rows@.len() && (forall|j: int|
                    0 <= j < old(self).rows@.len() && j != i ==> #[trigger] final(self).rows@[j]
                        == old(self).rows@[j]) && final(self).rows@[i].cells@ == without_key(
                    old(self).rows@[i].cells@,
                    column@,
                ) && final(self).rows@[i].registration_id == old(self).rows@[i].registration_id
                    && final(self).rows@[i].value == old(self).rows@[i].value && final(self).rows@[i].label == old(self).rows@[i].label && final(self).rows@[i].enabled
                    == old(self).rows@[i].enabled,
    {
        match self.take_row(registration_id) {
            Some((i, row)) => {
                let mut cells = row.cells;
                remove_registrations(&mut cells, column);
                let updated = RowDefinition {
                    registration_id: row.registration_id,
                    value: row.value,
                    label: row.label,
                    enabled: row.enabled,
                    cells,
                };
                self.rows.insert(i, updated);
                proof {
                    assert forall|k: int| #[trigger]
                        is_first_with_key(old(self).rows@, registration_id@, k) implies k
                        == i by {
                        lemma_first_with_key_unique(old(self).rows@, registration_id@, i as int, k);
                    }
                }
            },
            None => {},
        }
    }
}

} // verus!
