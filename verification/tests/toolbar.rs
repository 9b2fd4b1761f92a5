use petunia_ui::icons::PetuniaIcon;
use petunia_ui::tool_fields::ModalKind;
use petunia_ui::toolbar::{
    canonical_toolbar_entries, clone_entry, config_order, display_entries, entry_hint, entry_is_active,
    group_hint, is_palette_tool, palette_groups, known_tool_ids, resets_to_select, set_tool_visibility, toolbar_columns,
    transform_child, transform_gizmo, ToolbarConfig, ToolbarSection,
};

fn strings(ids: &[&str]) -> Vec<String> {
    ids.iter().map(|id| id.to_string()).collect()
}

fn ids(entries: &[petunia_ui::toolbar::ToolbarEntry]) -> Vec<&'static str> {
    entries.iter().map(|entry| entry.id).collect()
}

#[test]
fn modifier_operations_are_not_toolbar_tools() {
    let ids: Vec<&str> = canonical_toolbar_entries()
        .iter()
        .map(|entry| entry.id)
        .collect();
    assert!(!ids.contains(&"mirror"));
    assert!(!ids.contains(&"symmetrize"));
    assert!(ids.contains(&"transform"));
    assert!(!ids.contains(&"move"));
    assert!(!ids.contains(&"rotate"));
    assert!(!ids.contains(&"scale"));
}

#[test]
fn toolbar_config_filters_legacy_entries() {
    let hidden = strings(&["knife", "mirror"]);
    let order = strings(&["symmetrize", "select", "merge"]);
    let entries = display_entries(&order, &hidden, true);
    let shown = ids(&entries);
    assert_eq!(&shown[..2], &["select", "merge"]);
    assert!(!shown.contains(&"knife"));
}

#[test]
fn the_drag_order_and_the_visibility_marks_land_in_the_state() {
    let mut config = ToolbarConfig { order: Vec::new(), hidden: Vec::new(), columns: 1 };
    let order = vec!["rotate".to_string(), "select".to_string(), "move".to_string()];
    let hidden = vec!["move".to_string()];
    assert!(config.apply(&order, &hidden), "a real change must report dirty");
    assert_eq!(config.order, order);
    assert_eq!(config.hidden, hidden);

    // The same order again: nothing to write, nothing to mark.
    assert!(!config.apply(&order, &hidden));
}

#[test]
fn mesh_tools_are_hidden_in_object_mode() {
    let mut active_tool = "extrude".to_string();
    if resets_to_select(false, &active_tool) {
        active_tool = "select".into();
    }
    assert_eq!(active_tool, "select");
}

#[test]
fn canonical_palette_order_and_sections() {
    let entries = canonical_toolbar_entries();
    assert_eq!(
        ids(&entries),
        vec![
            "select", "cursor_3d", "transform", "measure", "annotate", "extrude", "inset", "bevel",
            "loop_cut", "knife", "pushpull", "slice", "subdivide", "draw_profile", "merge"
        ]
    );
    assert_eq!(entries[0].key, "Q/B");
    assert_eq!(entries[2].key, "T · G/R/S");
    assert_eq!(entries[11].key, "");
    assert_eq!(entries[14].icon, PetuniaIcon::Custom("merge"));
    assert_eq!(entries[3].section, ToolbarSection::Inspect);
    assert!(entries.iter().take(5).all(|e| !e.edit_only));
    assert!(entries.iter().skip(5).all(|e| e.edit_only && e.section == ToolbarSection::Mesh));
    let copy = clone_entry(&entries[7]);
    assert_eq!(copy.id, "bevel");
    assert_eq!(copy.label_key, "tools.bevel");
    assert_eq!(copy.key, "Ctrl+B");
}

#[test]
fn section_keys_are_stable() {
    assert_eq!(ToolbarSection::Primary.key(), "primary");
    assert_eq!(ToolbarSection::Inspect.key(), "inspect");
    assert_eq!(ToolbarSection::Mesh.key(), "mesh");
}

#[test]
fn empty_order_is_the_canonical_order_and_object_mode_hides_mesh_tools() {
    let entries = display_entries(&Vec::new(), &Vec::new(), false);
    assert_eq!(ids(&entries), vec!["select", "cursor_3d", "transform", "measure", "annotate"]);
    let all = display_entries(&Vec::new(), &Vec::new(), true);
    assert_eq!(all.len(), 15);
}

#[test]
fn user_order_comes_first_then_the_rest_in_canonical_order() {
    let order = strings(&["merge", "knife", "select"]);
    let hidden = strings(&["measure"]);
    let entries = display_entries(&order, &hidden, true);
    assert_eq!(
        ids(&entries),
        vec![
            "merge", "knife", "select", "cursor_3d", "transform", "annotate", "extrude", "inset", "bevel",
            "loop_cut", "pushpull", "slice", "subdivide", "draw_profile"
        ]
    );
}

#[test]
fn a_repeated_id_in_the_order_is_drawn_twice() {
    let order = strings(&["select", "select"]);
    let entries = display_entries(&order, &Vec::new(), false);
    assert_eq!(ids(&entries), vec!["select", "select", "cursor_3d", "transform", "measure", "annotate"]);
}

#[test]
fn family_buttons_are_active_for_their_members() {
    assert!(entry_is_active("select_box", "select"));
    assert!(entry_is_active("select", "select"));
    assert!(!entry_is_active("move", "select"));
    for member in ["transform", "move", "rotate", "scale"] {
        assert!(entry_is_active(member, "transform"));
    }
    assert!(!entry_is_active("extrude", "transform"));
    assert!(entry_is_active("extrude", "extrude"));
    assert!(!entry_is_active("inset", "extrude"));
}

#[test]
fn only_mesh_tools_fall_back_outside_edit_mode() {
    assert!(resets_to_select(false, "bevel"));
    assert!(!resets_to_select(true, "bevel"));
    assert!(!resets_to_select(false, "measure"));
    assert!(!resets_to_select(false, "mirror"));
}

#[test]
fn transform_family_button_follows_the_active_member() {
    assert_eq!(transform_child("rotate"), ("rotate", PetuniaIcon::Rotate, "tools.rotate", "R"));
    assert_eq!(transform_child("move"), ("move", PetuniaIcon::Move, "tools.move", "G"));
    assert_eq!(transform_child("scale"), ("scale", PetuniaIcon::Scale, "tools.scale", "S"));
    assert_eq!(transform_child("select"), ("transform", PetuniaIcon::Transform, "tools.transform", "T"));
    assert_eq!(transform_gizmo("scale"), Some(ModalKind::Scale));
    assert_eq!(transform_gizmo("move"), Some(ModalKind::Move));
    assert_eq!(transform_gizmo("rotate"), Some(ModalKind::Rotate));
    assert_eq!(transform_gizmo("transform"), None);
}

#[test]
fn hints_name_the_shortcut() {
    assert_eq!(entry_hint("Extrude", "E"), "Extrude · [E]");
    assert_eq!(entry_hint("Slice", ""), "Slice");
    assert_eq!(group_hint("Select", "Q/B", true, "right-click"), "Select · [Q/B]");
    assert_eq!(group_hint("Select", "Q/B", false, "right-click"), "Select · [Q/B] · right-click");
}

#[test]
fn column_preference_is_one_or_two() {
    assert_eq!(toolbar_columns(0), 1);
    assert_eq!(toolbar_columns(1), 1);
    assert_eq!(toolbar_columns(2), 2);
    assert_eq!(toolbar_columns(7), 2);
}

#[test]
fn reset_restores_the_canonical_palette() {
    let mut config = ToolbarConfig { order: strings(&["merge"]), hidden: strings(&["knife"]), columns: 2 };
    config.reset();
    assert!(config.order.is_empty());
    assert!(config.hidden.is_empty());
    assert_eq!(config.columns, 1);
}

#[test]
fn applying_only_a_new_visibility_keeps_the_order() {
    let order = strings(&["select"]);
    let mut config = ToolbarConfig { order: order.clone(), hidden: Vec::new(), columns: 2 };
    assert!(config.apply(&order, &strings(&["knife"])));
    assert_eq!(config.order, order);
    assert_eq!(config.hidden, strings(&["knife"]));
    assert_eq!(config.columns, 2);
}

#[test]
fn configuration_order_purges_legacy_ids_and_appends_missing_tools() {
    let order = config_order(&strings(&["mirror", "merge", "select", "symmetrize"]));
    assert_eq!(
        order,
        strings(&[
            "merge", "select", "cursor_3d", "transform", "measure", "annotate", "extrude", "inset", "bevel",
            "loop_cut", "knife", "pushpull", "slice", "subdivide", "draw_profile"
        ])
    );
    let canonical = config_order(&Vec::new());
    assert_eq!(canonical.len(), 15);
    assert_eq!(canonical[0], "select");
    assert_eq!(known_tool_ids(&strings(&["knife", "mirror", "move"])), strings(&["knife"]));
    assert!(is_palette_tool("draw_profile"));
    assert!(!is_palette_tool("symmetrize"));
}

#[test]
fn visibility_marks_add_once_and_clear_all() {
    let mut hidden = strings(&["knife"]);
    set_tool_visibility(&mut hidden, "merge", false);
    assert_eq!(hidden, strings(&["knife", "merge"]));
    set_tool_visibility(&mut hidden, "merge", false);
    assert_eq!(hidden, strings(&["knife", "merge"]));
    let mut twice = strings(&["knife", "merge", "knife"]);
    set_tool_visibility(&mut twice, "knife", true);
    assert_eq!(twice, strings(&["merge"]));
}

#[test]
fn the_palette_groups_its_sections_in_order() {
    let all = display_entries(&vec![], &vec![], true);
    let groups = palette_groups(&all);
    let sections: Vec<ToolbarSection> = groups.iter().map(|(s, _)| *s).collect();
    assert_eq!(sections, vec![ToolbarSection::Primary, ToolbarSection::Inspect, ToolbarSection::Mesh]);
    assert_eq!(groups[0].1, vec![0, 1, 2]);
    assert_eq!(groups[1].1, vec![3, 4]);
    let hidden = strings(&["measure", "annotate"]);
    let object = display_entries(&vec![], &hidden, false);
    let groups = palette_groups(&object);
    assert_eq!(groups.len(), 1);
    assert_eq!(groups[0].0, ToolbarSection::Primary);
}
