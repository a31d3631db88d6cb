use dicecloud_models::flat_model::{sort_props, FlatCharacter, FlatProp};
use dicecloud_models::generic_model::{CreatureInfo, Identifier, PropType};
use dicecloud_models::tree_model::{TreeCharacter, TreeProp};

fn ident(id: &str) -> Identifier {
    Identifier {
        id: id.to_string(),
        collection: "creatureProperties".to_string(),
    }
}

fn folder(name: &str) -> PropType {
    PropType::Folder {
        name: name.to_string(),
        group_stats: false,
        hide_stats_group: None,
        tab: None,
        location: None,
    }
}

fn record(id: &str, order: usize, ancestors: Vec<&str>) -> FlatProp {
    let parent = ancestors.last().map(|a| ident(a)).unwrap_or_else(|| ident("char"));
    FlatProp {
        id: id.to_string(),
        prop_type: folder(id),
        tags: vec![],
        order,
        parent,
        ancestors: ancestors.into_iter().map(ident).collect(),
        library_node_id: None,
        color: None,
        icon: None,
        library_tags: vec![],
        deactivated_by_toggle: None,
        deactivated_by_ancestor: None,
        inactive: false,
        removed: false,
        removed_at: None,
        removed_with: None,
        dirty: None,
        migration_error: vec![],
    }
}

fn character_of(props: Vec<FlatProp>) -> FlatCharacter {
    FlatCharacter {
        creatures: vec![CreatureInfo::default()],
        creature_properties: props,
        creature_variables: vec![],
    }
}

fn ids(props: &[FlatProp]) -> Vec<String> {
    props.iter().map(|p| p.id.clone()).collect()
}

#[test]
fn round_trip_preserves_records() {
    let build = || {
        vec![
            record("root1", 1, vec!["char"]),
            record("kid1", 2, vec!["char", "root1"]),
            record("grandkid", 3, vec!["char", "root1", "kid1"]),
            record("kid2", 4, vec!["char", "root1"]),
            record("root2", 5, vec!["char"]),
        ]
    };
    let tree = TreeCharacter::build_tree(character_of(build())).unwrap();
    let flat = FlatCharacter::from_tree_char(tree);
    let expected = sort_props(build());
    assert_eq!(flat.creature_properties, expected);
}

#[test]
fn round_trip_reorders_stably() {
    // out-of-order input comes back sorted by order
    let build = || {
        vec![
            record("b", 7, vec!["char"]),
            record("a", 2, vec!["char"]),
            record("kid", 9, vec!["char", "a"]),
        ]
    };
    let tree = TreeCharacter::build_tree(character_of(build())).unwrap();
    let flat = FlatCharacter::from_tree_char(tree);
    assert_eq!(ids(&flat.creature_properties), vec!["a", "kid", "b"]);
}

#[test]
fn forest_covers_exactly_the_input_ids() {
    let props = vec![
        record("r", 1, vec!["char"]),
        record("c1", 2, vec!["char", "r"]),
        record("c2", 3, vec!["char", "r"]),
    ];
    let tree = TreeCharacter::build_tree(character_of(props)).unwrap();
    let mut seen: Vec<String> = vec![];
    fn walk(node: &TreeProp, out: &mut Vec<String>) {
        out.push(node.id.clone());
        for c in node.children() {
            walk(c, out);
        }
    }
    for root in tree.roots() {
        walk(root, &mut seen);
    }
    seen.sort();
    assert_eq!(seen, vec!["c1", "c2", "r"]);
}

#[test]
fn empty_ancestors_is_a_structural_error() {
    let props = vec![record("orphan", 1, vec![])];
    let err = TreeCharacter::build_tree(character_of(props)).unwrap_err();
    assert_eq!(err, "missing ancestors for orphan");
}

#[test]
fn missing_intermediate_gets_a_placeholder() {
    // the parent "ghost" never arrives; a placeholder is created for it
    let props = vec![
        record("r", 1, vec!["char"]),
        record("leaf", 2, vec!["char", "r", "ghost"]),
    ];
    let tree = TreeCharacter::build_tree(character_of(props)).unwrap();
    assert_eq!(tree.roots().len(), 1);
    let root = &tree.roots()[0];
    assert_eq!(root.children().len(), 1);
    let ph = &root.children()[0];
    assert_eq!(ph.id, "ghost");
    assert_eq!(ph.children().len(), 1);
    assert_eq!(ph.children()[0].id, "leaf");
}

#[test]
fn sort_is_stable_for_equal_orders() {
    let sorted = sort_props(vec![
        record("first", 5, vec!["char"]),
        record("second", 5, vec!["char"]),
        record("early", 1, vec!["char"]),
    ]);
    assert_eq!(ids(&sorted), vec!["early", "first", "second"]);
}

#[test]
fn tree_prop_child_management() {
    let mut node = TreeProp::from_flat_prop(record("r", 1, vec!["char"]));
    node.add_child(TreeProp::from_flat_prop(record("a", 2, vec!["char", "r"])));
    node.add_child(TreeProp::from_flat_prop(record("b", 3, vec!["char", "r"])));
    assert_eq!(node.children().len(), 2);
    // same id replaces in place
    node.add_child(TreeProp::from_flat_prop(record("a", 9, vec!["char", "r"])));
    assert_eq!(node.children().len(), 2);
    assert_eq!(node.children()[0].order, 9);
    let taken = node.take_children();
    assert_eq!(taken.len(), 2);
    assert_eq!(node.children().len(), 0);
}
