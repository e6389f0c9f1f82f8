use nestix_native_appkit::collection::{
    unique_columns, FlatHandler, FlatKind, RowDefinition, TableViewColumn,
};
use nestix_native_appkit::tree::{TreeHandler, TreeNodeDefinition};

#[test]
fn duplicate_columns_keep_the_first_definition() {
    assert_eq!(
        unique_columns(vec![
            TableViewColumn::new("name", "Name"),
            TableViewColumn::new("name", "Replacement"),
            TableViewColumn::new("role", "Role"),
        ]),
        vec![
            TableViewColumn::new("name", "Name"),
            TableViewColumn::new("role", "Role"),
        ]
    );
}

#[test]
fn unique_columns_keeps_distinct_columns_in_order() {
    assert_eq!(unique_columns(Vec::new()), Vec::new());
    assert_eq!(
        unique_columns(vec![
            TableViewColumn::new("b", "B"),
            TableViewColumn::new("a", "A"),
            TableViewColumn::new("b", "Again"),
            TableViewColumn::new("a", "Again"),
        ]),
        vec![TableViewColumn::new("b", "B"), TableViewColumn::new("a", "A")]
    );
}

fn row(id: &str, value: &str, enabled: bool) -> RowDefinition {
    RowDefinition {
        registration_id: id.to_string(),
        value: value.to_string(),
        label: value.to_uppercase(),
        enabled,
        cells: Vec::new(),
    }
}

#[test]
fn list_rows_report_values_only_when_enabled() {
    let mut list = FlatHandler::new(FlatKind::List, true);
    list.place_row(row("1", "alpha", true), None);
    list.place_row(row("2", "beta", false), None);
    list.place_row(row("3", "beta", true), None);
    assert_eq!(list.number_of_rows(), 3);
    assert_eq!(list.value_at_row(0), Some("alpha".to_string()));
    assert_eq!(list.value_at_row(1), None);
    assert_eq!(list.value_at_row(3), None);
    assert_eq!(list.value_at_row(-1), None);
    assert!(list.should_select_row(2));
    assert!(!list.should_select_row(1));
    assert_eq!(list.apply_selection(Some(&"beta".to_string())), Some(2));
    assert_eq!(list.apply_selection(Some(&"gamma".to_string())), None);
    assert_eq!(list.apply_selection(None), None);
    assert_eq!(
        list.row_presentation(1, None),
        Some(("BETA".to_string(), false))
    );

    let disabled = FlatHandler {
        kind: FlatKind::List,
        rows: vec![row("1", "alpha", true)],
        enabled: false,
    };
    assert_eq!(disabled.value_at_row(0), None);
    assert_eq!(disabled.apply_selection(Some(&"alpha".to_string())), None);
}

#[test]
fn activation_prefers_the_clicked_row() {
    assert_eq!(FlatHandler::activation_row(2, 0), 2);
    assert_eq!(FlatHandler::activation_row(-1, 0), 0);
    let mut list = FlatHandler::new(FlatKind::List, true);
    list.place_row(row("1", "alpha", true), None);
    list.place_row(row("2", "beta", true), None);
    assert_eq!(list.activation_value(1, 0), Some("beta".to_string()));
    assert_eq!(list.activation_value(-1, 0), Some("alpha".to_string()));
    assert_eq!(list.activation_value(-1, -1), None);
}

#[test]
fn row_updates_reach_the_registered_row() {
    let mut list = FlatHandler::new(FlatKind::List, true);
    list.place_row(row("1", "alpha", true), None);
    list.place_row(row("2", "beta", true), Some(0));
    assert_eq!(list.value_at_row(0), Some("beta".to_string()));
    list.set_row_value(&"1".to_string(), "gamma".to_string());
    assert_eq!(list.value_at_row(1), Some("gamma".to_string()));
    list.set_row_enabled(&"2".to_string(), false);
    assert_eq!(list.value_at_row(0), None);
    list.set_row_label(&"2".to_string(), "Beta".to_string(), true);
    assert_eq!(
        list.row_presentation(0, None),
        Some(("Beta".to_string(), true))
    );
    list.set_row_value(&"missing".to_string(), "x".to_string());
    assert_eq!(list.number_of_rows(), 2);
    list.remove_row(&"2".to_string());
    assert_eq!(list.number_of_rows(), 1);
    assert_eq!(list.value_at_row(0), Some("gamma".to_string()));
}

#[test]
fn table_cells_are_shown_by_column() {
    let mut table = FlatHandler::new(FlatKind::Table, true);
    table.place_row(row("1", "ada", true), None);
    let name = "name".to_string();
    let role = "role".to_string();
    table.set_cell(&"1".to_string(), None, name.clone(), "Ada".to_string());
    table.set_cell(&"1".to_string(), None, role.clone(), "Engineer".to_string());
    assert_eq!(
        table.row_presentation(0, Some(&name)),
        Some(("Ada".to_string(), true))
    );
    assert_eq!(
        table.row_presentation(0, Some(&role)),
        Some(("Engineer".to_string(), true))
    );
    assert_eq!(table.row_presentation(0, None), None);
    table.set_cell(&"1".to_string(), Some(&role), "title".to_string(), "Lead".to_string());
    assert_eq!(
        table.row_presentation(0, Some(&role)),
        Some((String::new(), true))
    );
    assert_eq!(
        table.row_presentation(0, Some(&"title".to_string())),
        Some(("Lead".to_string(), true))
    );
    table.remove_cell(&"1".to_string(), &name);
    assert_eq!(
        table.row_presentation(0, Some(&name)),
        Some((String::new(), true))
    );
}

#[test]
fn new_rows_start_enabled_with_a_fresh_key() {
    let a = RowDefinition::new("alpha".to_string());
    let b = RowDefinition::new("alpha".to_string());
    assert_eq!(a.registration_id.chars().count(), 21);
    assert_ne!(a.registration_id, b.registration_id);
    assert!(a.enabled);
    assert!(a.label.is_empty());
    assert!(a.cells.is_empty());
}

fn node(id: &str, value: &str, enabled: bool, children: Vec<TreeNodeDefinition>) -> TreeNodeDefinition {
    TreeNodeDefinition {
        registration_id: id.to_string(),
        value: value.to_string(),
        label: value.to_string(),
        enabled,
        children,
    }
}

fn forest() -> TreeHandler {
    TreeHandler {
        roots: vec![
            node(
                "1",
                "fruit",
                false,
                vec![node("2", "apple", true, vec![]), node("3", "pear", false, vec![])],
            ),
            node("4", "pear", true, vec![]),
        ],
        enabled: true,
    }
}

#[test]
fn tree_finds_nodes_in_pre_order() {
    let tree = forest();
    let pear = "pear".to_string();
    assert_eq!(tree.node_for(&pear).map(|n| n.registration_id.clone()), Some("3".to_string()));
    assert_eq!(
        tree.apply_selection(Some(&pear)).map(|n| n.registration_id.clone()),
        Some("4".to_string())
    );
    assert!(tree.apply_selection(None).is_none());
    assert!(tree.apply_selection(Some(&"fruit".to_string())).is_none());
    assert!(tree.is_expandable(&"fruit".to_string()));
    assert!(!tree.is_expandable(&"apple".to_string()));
    assert_eq!(tree.children_for(None).len(), 2);
    assert_eq!(tree.children_for(Some(&"fruit".to_string())).len(), 2);
    assert_eq!(tree.value_at_row(1, Some(&"apple".to_string())), Some("apple".to_string()));
    assert_eq!(tree.value_at_row(0, Some(&"fruit".to_string())), None);
    assert_eq!(tree.value_at_row(2, Some(&pear)), None);
    assert_eq!(tree.value_at_row(0, None), None);
    assert_eq!(tree.value_at_row(-1, Some(&"apple".to_string())), None);
    assert_eq!(tree.value_at_row(0, Some(&"missing".to_string())), None);
    let disabled = TreeHandler { enabled: false, ..forest() };
    assert!(disabled.apply_selection(Some(&pear)).is_none());
}

#[test]
fn tree_nodes_are_placed_and_removed_by_key() {
    let mut tree = TreeHandler::new(true);
    tree.place_root(node("a", "one", true, vec![]), None);
    tree.place_root(node("b", "two", true, vec![]), Some(0));
    assert_eq!(tree.roots[0].value, "two");
    tree.place_root(node("b", "two", true, vec![]), None);
    assert_eq!(tree.roots[0].value, "one");
    assert_eq!(tree.roots.len(), 2);
    tree.remove_root(&"a".to_string());
    assert_eq!(tree.roots.len(), 1);

    let mut parent = node("p", "parent", true, vec![]);
    parent.place_child(node("c1", "child", true, vec![]), None);
    parent.place_child(node("c2", "other", true, vec![]), Some(0));
    assert_eq!(parent.children[0].value, "other");
    parent.remove_child(&"c2".to_string());
    assert_eq!(parent.children.len(), 1);
    assert!(!parent.set_value("parent".to_string()));
    assert!(parent.set_value("renamed".to_string()));
    assert_eq!(parent.value, "renamed");
}

#[test]
fn new_tree_nodes_start_disabled() {
    let n = TreeNodeDefinition::new("v".to_string());
    assert!(!n.enabled);
    assert_eq!(n.registration_id.chars().count(), 21);
    assert!(n.children.is_empty());
}
