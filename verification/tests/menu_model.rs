use crownpositor::menu::model::{
    parse_layout, strip_mnemonics, ItemKind, LayoutNode, MenuBar, MenuItem, NodeProperties, Toggle,
    MAX_DEPTH,
};

fn no_properties() -> NodeProperties {
    NodeProperties {
        kind: None,
        label: None,
        enabled: None,
        visible: None,
        toggle_type: None,
        toggle_state: None,
        children_display: None,
    }
}

fn labelled(label: &str) -> NodeProperties {
    NodeProperties { label: Some(label.to_owned()), ..no_properties() }
}

fn node(id: i32, label: &str, children: Vec<Option<LayoutNode>>) -> LayoutNode {
    LayoutNode { id, properties: labelled(label), children }
}

fn boxed(node: LayoutNode) -> Option<LayoutNode> {
    Some(node)
}

#[test]
fn the_roots_children_become_the_top_level_row() {
    let bar = parse_layout(&node(
        0,
        "",
        vec![boxed(node(1, "File", Vec::new())), boxed(node(2, "Edit", Vec::new()))],
    ));
    let visible = bar.visible();
    let labels: Vec<_> = visible.iter().map(|item| item.label.as_str()).collect();
    assert_eq!(labels, ["File", "Edit"]);
}

#[test]
fn a_menu_with_no_items_reads_as_empty() {
    assert!(parse_layout(&node(0, "", Vec::new())).is_empty());
}

#[test]
fn missing_properties_take_their_defaults() {
    let bar = parse_layout(&node(
        0,
        "",
        vec![boxed(LayoutNode { id: 1, properties: no_properties(), children: Vec::new() })],
    ));
    let item = &bar.items[0];
    assert!(item.enabled, "an item with no `enabled` is enabled");
    assert!(item.visible);
    assert_eq!(item.kind, ItemKind::Standard);
    assert_eq!(item.toggle, Toggle::Unknown);
}

#[test]
fn a_separator_is_not_actionable() {
    let separator = LayoutNode {
        id: 1,
        properties: NodeProperties { kind: Some("separator".to_owned()), ..no_properties() },
        children: Vec::new(),
    };
    let bar = parse_layout(&node(0, "", vec![boxed(separator)]));
    assert_eq!(bar.items[0].kind, ItemKind::Separator);
    assert!(!bar.items[0].is_actionable());
    assert_eq!(bar.visible().len(), 0, "and it is not a top-level entry");
}

#[test]
fn a_disabled_item_is_not_actionable() {
    let disabled = LayoutNode {
        id: 1,
        properties: NodeProperties { enabled: Some(false), ..labelled("Save") },
        children: Vec::new(),
    };
    let bar = parse_layout(&node(0, "", vec![boxed(disabled)]));
    assert!(!bar.items[0].is_actionable());
}

#[test]
fn toggle_types_and_states_are_read() {
    let checked = LayoutNode {
        id: 1,
        properties: NodeProperties {
            toggle_type: Some("checkmark".to_owned()),
            toggle_state: Some(1),
            ..labelled("Wrap")
        },
        children: Vec::new(),
    };
    let bar = parse_layout(&node(0, "", vec![boxed(checked)]));
    assert_eq!(bar.items[0].kind, ItemKind::Checkbox);
    assert_eq!(bar.items[0].toggle, Toggle::On);
}

#[test]
fn mnemonic_markers_are_stripped_but_doubled_ones_survive() {
    assert_eq!(strip_mnemonics("&File".into()), "File");
    assert_eq!(strip_mnemonics("_Edit".into()), "Edit");
    assert_eq!(strip_mnemonics("Save && Quit".into()), "Save & Quit");
    assert_eq!(strip_mnemonics("Plain".into()), "Plain");
}

#[test]
fn nested_children_are_parsed() {
    let submenu = node(1, "File", vec![boxed(node(2, "New", Vec::new()))]);
    let bar = parse_layout(&node(0, "", vec![boxed(submenu)]));
    assert!(bar.items[0].has_submenu);
    assert_eq!(bar.items[0].children[0].label, "New");
}

/// A client that says it has a submenu but sends no children expects to be
/// asked when the user opens it.
#[test]
fn a_promised_submenu_counts_even_when_empty() {
    let promise = LayoutNode {
        id: 1,
        properties: NodeProperties { children_display: Some("submenu".to_owned()), ..labelled("File") },
        children: Vec::new(),
    };
    let bar = parse_layout(&node(0, "", vec![boxed(promise)]));
    assert!(bar.items[0].has_submenu);
    assert!(bar.items[0].children.is_empty());
}

#[test]
fn a_late_reply_fills_in_the_submenu_it_was_asked_for() {
    let mut bar = parse_layout(&node(0, "", vec![boxed(node(1, "File", Vec::new()))]));
    let new = MenuItem { id: 2, label: "New".into(), ..MenuItem::default() };
    assert!(bar.graft(1, vec![new]));
    assert_eq!(bar.items[0].children[0].label, "New");
    assert!(bar.items[0].has_submenu);
}

#[test]
fn a_reply_for_a_menu_that_is_gone_is_dropped() {
    let mut bar = parse_layout(&node(0, "", vec![boxed(node(1, "File", Vec::new()))]));
    assert!(!bar.graft(99, vec![MenuItem::default()]));
}

/// A tree deep enough to blow the stack has to stop somewhere, and a menu
/// nested eight levels down is not a menu anyone can use.
#[test]
fn nesting_stops_at_a_sane_depth() {
    let mut deepest = node(100, "leaf", Vec::new());
    for level in 0..20 {
        deepest = node(level, "branch", vec![boxed(deepest)]);
    }
    let bar = parse_layout(&deepest);
    let mut depth = 0;
    let mut items = &bar.items;
    while let Some(first) = items.first() {
        depth += 1;
        items = &first.children;
    }
    assert!(depth <= MAX_DEPTH, "descended {depth} levels");
    assert_eq!(depth, MAX_DEPTH);
}

#[test]
fn a_child_that_is_not_a_node_is_dropped() {
    let bar = parse_layout(&node(0, "", vec![None, boxed(node(3, "View", Vec::new())), None]));
    assert_eq!(bar.items.len(), 1);
    assert_eq!(bar.items[0].id, 3);
}

#[test]
fn a_graft_reaches_a_nested_submenu_and_marks_an_emptied_one() {
    let submenu = node(1, "File", vec![boxed(node(2, "Recent", Vec::new()))]);
    let mut bar = parse_layout(&node(0, "", vec![boxed(submenu)]));
    let doc = MenuItem { id: 5, label: "notes.txt".into(), ..MenuItem::default() };
    assert!(bar.graft(2, vec![doc]));
    assert_eq!(bar.items[0].children[0].children[0].label, "notes.txt");
    assert!(bar.graft(1, Vec::new()));
    assert!(!bar.items[0].has_submenu, "an emptied submenu is no submenu");
}

#[test]
fn a_copy_is_equal_to_its_original() {
    let item = MenuItem {
        id: 4,
        label: "Open".into(),
        children: vec![MenuItem { id: 9, ..MenuItem::default() }],
        has_submenu: true,
        ..MenuItem::default()
    };
    assert_eq!(item.duplicate(), item);
    assert_eq!(MenuBar::default().items.len(), 0);
}
