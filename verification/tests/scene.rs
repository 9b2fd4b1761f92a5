use petunia_ui::outliner::{
    asset_passes_filters, component_bar_index, delete_target, duplicate_target, duplicated_annotation_name,
    isolate_tip, new_collection_name, new_subgroup_name, rename_collection, section_filter_items, set_section_filter,
    toggle_scene_search, SceneSearch, SectionFilter, scene_is_empty, search_query, section_matches, select_node,
    shows_annotation_collection, shows_measurement_collection, OutlinerNodeId, OutlinerSelection, OutlinerTarget,
    SceneObjectState,
};
use petunia_ui::paint::{needs_checkpoint, LayerActionKind};
use petunia_ui::primitive::{primitive_kind_of, PrimitiveKind};
use petunia_ui::uv::{click_uv_face, selected_face_indices, selected_uv_faces, unwrap_status, uv_face_highlighted};
use petunia_ui::viewport_bar::{
    add_menu_reference_item, context_menu, domain_button_tooltip, selection_domain_buttons, toggle_snap, SnapToggle, item_shortcut, mesh_tool_id, primitive_menu_groups, select_menu, shortcut_actions,
    view_menu, MenuCommand, MeshTool, PrimitiveGroup, ShortcutAction, ShortcutKeys, ViewPreset,
};
use petunia_ui::workspace::SelectionDomain;

#[test]
fn primitive_menu_covers_all_ten_species_once() {
    let groups = primitive_menu_groups();
    assert_eq!(groups.len(), 3);
    let mut seen: Vec<PrimitiveKind> = Vec::new();
    for (_, kinds) in &groups {
        seen.extend(kinds.iter().copied());
    }
    assert_eq!(seen.len(), 10);
    seen.sort_by_key(|k| *k as u8);
    seen.dedup();
    assert_eq!(seen.len(), 10);
}

#[test]
fn menu_families_in_order() {
    let groups = primitive_menu_groups();
    assert_eq!(groups[0].0, PrimitiveGroup::Basic);
    assert_eq!(groups[0].1, vec![PrimitiveKind::Cube, PrimitiveKind::Plane, PrimitiveKind::Wedge]);
    assert_eq!(groups[1].0, PrimitiveGroup::Round);
    assert_eq!(groups[2].1, vec![PrimitiveKind::Sphere, PrimitiveKind::Icosphere, PrimitiveKind::Capsule]);
}

#[test]
fn creation_indices_name_the_species() {
    assert_eq!(primitive_kind_of(0), PrimitiveKind::Cube);
    assert_eq!(primitive_kind_of(4), PrimitiveKind::Cone);
    assert_eq!(primitive_kind_of(8), PrimitiveKind::Torus);
    assert_eq!(primitive_kind_of(9), PrimitiveKind::Icosphere);
    assert_eq!(primitive_kind_of(42), PrimitiveKind::Icosphere);
}

#[test]
fn outliner_search_filters_by_lowercased_name() {
    let query = search_query("  Target ");
    assert_eq!(query, "target");
    assert!(asset_passes_filters("TargetCube", true, false, &query, SceneObjectState::All));
    assert!(!asset_passes_filters("OtherObject", true, false, &query, SceneObjectState::All));
    assert!(asset_passes_filters("OtherObject", true, false, "", SceneObjectState::All));
    assert!(!asset_passes_filters("TargetCube", false, false, &query, SceneObjectState::VisibleOnly));
    assert!(!asset_passes_filters("TargetCube", true, true, "", SceneObjectState::UnlockedOnly));
    assert!(asset_passes_filters("TargetCube", true, false, "", SceneObjectState::UnlockedOnly));
}

#[test]
fn inspector_search_lists_matching_sections() {
    assert!(section_matches("", "Transform"));
    assert!(section_matches("trans", "Transform"));
    assert!(!section_matches("mat", "Transform"));
}

#[test]
fn empty_scene_and_inspector_bar() {
    assert!(scene_is_empty(0, 0, 0, 0));
    assert!(!scene_is_empty(0, 1, 0, 0));
    assert!(!scene_is_empty(0, 0, 0, 1));
    assert_eq!(component_bar_index(5, 0), None);
    assert_eq!(component_bar_index(5, 3), Some(2));
    assert_eq!(component_bar_index(1, 3), Some(1));
}

#[test]
fn uv_faces_come_from_the_editor_picks_then_the_mesh_selection() {
    assert_eq!(selected_uv_faces(&vec![7, 2, 5], &vec![true, false]), vec![2, 5, 7]);
    assert_eq!(selected_uv_faces(&Vec::new(), &vec![true, false, true]), vec![0, 2]);
    assert!(selected_uv_faces(&Vec::new(), &vec![false, false]).is_empty());
}

fn keys() -> ShortcutKeys {
    ShortcutKeys { shift_tab: false, tab: false, text_input: false, num0: false, num1: false, num2: false, num3: false }
}

#[test]
fn viewport_shortcuts() {
    assert_eq!(shortcut_actions(&ShortcutKeys { shift_tab: true, tab: true, ..keys() }), vec![ShortcutAction::ToggleSnap]);
    assert_eq!(shortcut_actions(&ShortcutKeys { tab: true, num1: true, ..keys() }), vec![ShortcutAction::CycleDomain]);
    assert!(shortcut_actions(&ShortcutKeys { text_input: true, num1: true, ..keys() }).is_empty());
    assert_eq!(
        shortcut_actions(&ShortcutKeys { num0: true, num3: true, ..keys() }),
        vec![
            ShortcutAction::SetDomain(SelectionDomain::Object),
            ShortcutAction::SetDomain(SelectionDomain::Face)
        ]
    );
    assert_eq!(
        shortcut_actions(&ShortcutKeys { num2: true, ..keys() }),
        vec![ShortcutAction::SetDomain(SelectionDomain::Edge)]
    );
}

#[test]
fn opacity_drags_do_not_open_an_undo_step() {
    assert!(!needs_checkpoint(&vec![LayerActionKind::Opacity, LayerActionKind::Opacity]));
    assert!(needs_checkpoint(&vec![LayerActionKind::Opacity, LayerActionKind::Rename]));
    assert!(!needs_checkpoint(&Vec::new()));
}

#[test]
fn picking_nodes_keeps_one_kind_of_selection() {
    let none = OutlinerSelection { annotation: None, measurement: None };
    let ann = select_node(none, &OutlinerNodeId::Annotation(7));
    assert_eq!(ann, OutlinerSelection { annotation: Some(7), measurement: None });
    let meas = select_node(ann, &OutlinerNodeId::Measurement(9));
    assert_eq!(meas, OutlinerSelection { annotation: None, measurement: Some(9) });
    assert_eq!(select_node(meas, &OutlinerNodeId::Asset(1)), none);
    assert_eq!(select_node(meas, &OutlinerNodeId::Camera), meas);
}

#[test]
fn delete_and_duplicate_shortcuts_pick_their_target() {
    let ann = OutlinerSelection { annotation: Some(3), measurement: None };
    let meas = OutlinerSelection { annotation: None, measurement: Some(4) };
    let none = OutlinerSelection { annotation: None, measurement: None };
    assert_eq!(delete_target(ann, 0, 2), Some(OutlinerTarget::Annotation(3)));
    assert_eq!(delete_target(meas, 0, 2), Some(OutlinerTarget::Measurement(4)));
    assert_eq!(delete_target(none, 1, 2), Some(OutlinerTarget::Object(1)));
    assert_eq!(delete_target(none, 2, 2), None);
    assert_eq!(duplicate_target(ann, 0, 2), Some(OutlinerTarget::Annotation(3)));
    assert_eq!(duplicate_target(meas, 0, 2), Some(OutlinerTarget::Object(0)));
    assert_eq!(duplicate_target(meas, 0, 0), None);
}

#[test]
fn annotation_and_measurement_collections_show_when_in_use() {
    assert!(!shows_annotation_collection(0, 0, "select", true));
    assert!(shows_annotation_collection(0, 0, "annotate", true));
    assert!(shows_annotation_collection(0, 1, "select", true));
    assert!(!shows_annotation_collection(2, 0, "select", false));
    assert!(shows_measurement_collection(0, "measure", true));
    assert!(!shows_measurement_collection(0, "annotate", true));
    assert!(shows_measurement_collection(1, "select", true));
    assert!(!shows_measurement_collection(1, "measure", false));
}

#[test]
fn new_subgroups_take_the_first_free_number() {
    assert_eq!(new_subgroup_name(&vec![]), "Subgroup 1");
    let groups = vec!["Subgroup 3".to_string(), "Subgroup 4".to_string()];
    assert_eq!(new_subgroup_name(&groups), "Subgroup 5");
    let groups = vec!["Subgroup 2".to_string(), "Walls".to_string()];
    assert_eq!(new_subgroup_name(&groups), "Subgroup 3");
    let groups = vec!["Subgroup 2".to_string(), "Subgroup 3".to_string()];
    assert_eq!(new_subgroup_name(&groups), "Subgroup 4");
    let many: Vec<String> = (1..=10).map(|n| format!("Subgroup {n}")).collect();
    assert_eq!(new_subgroup_name(&many), "Subgroup 11");
    let shifted: Vec<String> = (11..=20).map(|n| format!("Subgroup {n}")).collect();
    assert_eq!(new_subgroup_name(&shifted), "Subgroup 21");
}

#[test]
fn renaming_a_collection_refiles_its_objects() {
    let mut cols = vec!["Props".to_string(), "Walls".to_string()];
    let mut objs = vec![Some("Props".to_string()), None, Some("Walls".to_string())];
    assert!(rename_collection(&mut cols, &mut objs, "Props", "Furniture"));
    assert_eq!(cols, vec!["Furniture".to_string(), "Walls".to_string()]);
    assert_eq!(objs, vec![Some("Furniture".to_string()), None, Some("Walls".to_string())]);
    assert!(!rename_collection(&mut cols, &mut objs, "Walls", "Furniture"));
    assert!(!rename_collection(&mut cols, &mut objs, "Walls", "   "));
    assert_eq!(cols, vec!["Furniture".to_string(), "Walls".to_string()]);
}

#[test]
fn duplicated_annotations_are_marked_as_copies() {
    assert_eq!(duplicated_annotation_name("Door"), "Door (cópia)");
}

#[test]
fn view_menu_lists_framing_camera_and_presets() {
    let items = view_menu();
    assert_eq!(items.len(), 15);
    assert_eq!(items[0].label_key, "view.frame");
    assert_eq!(items[0].command, MenuCommand::FrameSelection);
    assert_eq!(items[2].shortcut, Some("Shift+Home"));
    assert!(items[3].starts_group);
    assert_eq!(items[5].command, MenuCommand::Preset(ViewPreset::Back));
    assert_eq!(items[5].shortcut, Some("Ctrl+Numpad 1"));
    let iso: Vec<_> = items.iter().filter(|i| i.submenu == Some("camera.isometric")).collect();
    assert_eq!(iso.len(), 4);
    assert_eq!(items[14].command, MenuCommand::ManageReferences);
}

#[test]
fn context_menu_follows_the_domain() {
    let (label, items) = context_menu(true);
    assert_eq!(label, "modes.object");
    let commands: Vec<MenuCommand> = items.iter().map(|i| i.command).collect();
    assert_eq!(commands, vec![MenuCommand::Duplicate, MenuCommand::Delete, MenuCommand::CursorToOrigin]);
    let (label, items) = context_menu(false);
    assert_eq!(label, "ui.mesh");
    assert_eq!(items.len(), 10);
    assert_eq!(items[0].command, MenuCommand::ActivateTool(MeshTool::Extrude));
    assert_eq!(mesh_tool_id(MeshTool::LoopCut), "loop_cut");
    assert_eq!(mesh_tool_id(MeshTool::Revolve), "revolve");
    let select: Vec<&str> = select_menu().iter().map(|i| i.label_key).collect();
    assert_eq!(select, vec!["actions.select_all", "actions.deselect", "actions.invert"]);
    assert_eq!(add_menu_reference_item().shortcut, Some("Shift+R"));
}

#[test]
fn menu_shortcuts_prefer_the_keymap_binding() {
    let view = view_menu();
    assert_eq!(item_shortcut(&view[0], Some("Ctrl+F".to_string())), Some("Ctrl+F".to_string()));
    assert_eq!(item_shortcut(&view[0], None), Some("F".to_string()));
    assert_eq!(item_shortcut(&view[4], Some("X".to_string())), Some("Numpad 1".to_string()));
    assert_eq!(item_shortcut(&view[10], None), None);
}

#[test]
fn domain_buttons_and_snap_toggle() {
    let buttons = selection_domain_buttons();
    assert_eq!(buttons.len(), 4);
    assert_eq!(buttons[2].0, SelectionDomain::Edge);
    assert_eq!(buttons[2].2, "2");
    assert_eq!(domain_button_tooltip("Edge", "2"), "Edge · [2] (Tab: alternar)");
    let on = toggle_snap(SnapToggle { enabled: false, settings_enabled: false });
    assert_eq!(on, SnapToggle { enabled: true, settings_enabled: true });
    assert_eq!(toggle_snap(on), SnapToggle { enabled: false, settings_enabled: false });
}

#[test]
fn clicking_a_uv_face_flips_it_and_picks_the_selection() {
    let mut faces = vec![false, true, false];
    assert_eq!(click_uv_face(&mut faces, 2), vec![1, 2]);
    assert_eq!(faces, vec![false, true, true]);
    assert_eq!(click_uv_face(&mut faces, 1), vec![2]);
    assert_eq!(click_uv_face(&mut faces, 7), vec![2]);
    assert_eq!(click_uv_face(&mut faces, 1), vec![1, 2]);
    assert_eq!(selected_face_indices(&vec![true, false, true]), vec![0, 2]);
}

#[test]
fn uv_faces_highlight_and_unwrap_reports() {
    assert!(uv_face_highlighted(&vec![4, 2], 2, false));
    assert!(uv_face_highlighted(&vec![], 2, true));
    assert!(!uv_face_highlighted(&vec![4], 2, false));
    assert_eq!(unwrap_status(&Ok(12)), "Auto Unwrap: 12 ilhas geradas");
    assert_eq!(unwrap_status(&Err("no mesh".to_string())), "Erro no Unwrap: no mesh");
}

#[test]
fn new_collections_take_the_first_free_number() {
    assert_eq!(new_collection_name(&vec![]), "Coleção 1");
    let cols = vec!["Coleção 2".to_string(), "Props".to_string()];
    assert_eq!(new_collection_name(&cols), "Coleção 3");
    let cols = vec!["Coleção 3".to_string(), "Coleção 4".to_string()];
    assert_eq!(new_collection_name(&cols), "Coleção 5");
}

#[test]
fn the_scene_search_opens_focused_and_closes_empty() {
    let mut s = SceneSearch { open: false, focus_request: false, query: "old".to_string() };
    toggle_scene_search(&mut s);
    assert!(s.open && s.focus_request);
    assert_eq!(s.query, "old");
    toggle_scene_search(&mut s);
    assert!(!s.open);
    assert_eq!(s.query, "");
    assert_eq!(isolate_tip(true), "context.isolate_tip_on");
    assert_eq!(isolate_tip(false), "context.isolate_tip");
}

#[test]
fn section_filters_toggle_one_section() {
    let all = SectionFilter { collections: true, annotations: true, measurements: true, refs: true };
    let items = section_filter_items(all);
    assert_eq!(items[2], ("scene.f_measurements", true));
    let no_refs = set_section_filter(all, 3, false);
    assert_eq!(no_refs, SectionFilter { collections: true, annotations: true, measurements: true, refs: false });
    assert_eq!(set_section_filter(no_refs, 1, false).annotations, false);
    assert_eq!(set_section_filter(no_refs, 9, true), all);
}
