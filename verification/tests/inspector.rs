use petunia_ui::icons::PetuniaIcon;
use petunia_ui::inspector::{
    alpha_mode_label, matching_sections, quick_add_primitives, annotation_is_locked, apply_stack_edit, boolean_operations, can_move_down, can_move_up,
    chosen_edit, collapse_tip, committed_name, edited_axis, inspector_view, lock_button, material_label,
    new_material_name, object_bar_index, pin_tip, rename_step, shows_alpha_cutoff, subgroup_choices, subgroup_label,
    toggle_search, visibility_button, AlphaMode, BooleanOp, InspectorFocus, InspectorView, RenameStep, StackEdit,
};
use petunia_ui::outliner::{move_to_collection_labels, object_row_menu, shows_row_delete, RowCommand};
use petunia_ui::primitive::PrimitiveKind;
use petunia_ui::workspace::Workspace;

#[test]
fn the_inspector_shows_the_focus() {
    assert_eq!(inspector_view(InspectorFocus::Annotation(5), Workspace::Uv, true), InspectorView::AnnotationTab(5));
    assert_eq!(inspector_view(InspectorFocus::Measurement(6), Workspace::Model, false), InspectorView::MeasurementTab(6));
    assert_eq!(inspector_view(InspectorFocus::Object, Workspace::Uv, false), InspectorView::WorkspacePanel);
    assert_eq!(inspector_view(InspectorFocus::Components, Workspace::Paint, true), InspectorView::ObjectBar);
    assert_eq!(inspector_view(InspectorFocus::Object, Workspace::Model, false), InspectorView::Full);
}

#[test]
fn the_object_bar_falls_back_to_the_first_object() {
    assert_eq!(object_bar_index(Some(1), 0), None);
    assert_eq!(object_bar_index(Some(1), 3), Some(1));
    assert_eq!(object_bar_index(Some(7), 3), Some(0));
    assert_eq!(object_bar_index(None, 3), Some(0));
}

#[test]
fn names_commit_trimmed_and_changed() {
    assert_eq!(committed_name("  Tower  ", "Cube"), Some("Tower".to_string()));
    assert_eq!(committed_name("   ", "Cube"), None);
    assert_eq!(committed_name(" Cube ", "Cube"), None);
    assert_eq!(rename_step(true, true, "Tower", "Cube"), RenameStep::Cancel);
    assert_eq!(rename_step(false, true, " Tower", "Cube"), RenameStep::Apply("Tower".to_string()));
    assert_eq!(rename_step(false, true, "", "Cube"), RenameStep::Editing);
    assert_eq!(rename_step(false, false, "Tower", "Cube"), RenameStep::Editing);
}

#[test]
fn object_buttons_follow_their_state() {
    assert_eq!(lock_button(true), ("context.unlock", PetuniaIcon::Lock));
    assert_eq!(lock_button(false), ("context.lock_tip", PetuniaIcon::Unlock));
    assert_eq!(visibility_button(true), ("context.hide", PetuniaIcon::Eye));
    assert_eq!(visibility_button(false), ("context.show", PetuniaIcon::EyeHidden));
    assert_eq!(pin_tip(true), "inspector.unpin_tip");
    assert_eq!(pin_tip(false), "inspector.pin_tip");
    assert_eq!(collapse_tip(true), "ui.expand");
    assert_eq!(collapse_tip(false), "ui.collapse");
}

#[test]
fn closing_the_search_clears_it() {
    let mut open = true;
    let mut query = "bev".to_string();
    toggle_search(&mut open, &mut query);
    assert!(!open);
    assert_eq!(query, "");
    query = "x".to_string();
    toggle_search(&mut open, &mut query);
    assert!(open);
    assert_eq!(query, "x");
}

#[test]
fn the_first_changed_axis_leads_a_linked_scale() {
    assert_eq!(edited_axis([false, true, true]), 1);
    assert_eq!(edited_axis([false, false, true]), 2);
    assert_eq!(edited_axis([false, false, false]), 0);
    assert_eq!(edited_axis([true, false, false]), 0);
}

#[test]
fn modifier_rows_move_and_remove() {
    assert!(!can_move_up(0));
    assert!(can_move_up(2));
    assert!(can_move_down(1, 3));
    assert!(!can_move_down(2, 3));
    assert_eq!(chosen_edit(Some(1), Some(2), None), Some(StackEdit::Remove(1)));
    assert_eq!(chosen_edit(None, Some(2), Some(0)), Some(StackEdit::MoveUp(2)));
    assert_eq!(chosen_edit(None, None, Some(0)), Some(StackEdit::MoveDown(0)));
    assert_eq!(chosen_edit(None, None, None), None);
    let mut stack = vec!["mirror", "symmetry", "mirror2"];
    apply_stack_edit(&mut stack, StackEdit::MoveUp(2));
    assert_eq!(stack, vec!["mirror", "mirror2", "symmetry"]);
    apply_stack_edit(&mut stack, StackEdit::MoveDown(1));
    assert_eq!(stack, vec!["mirror", "symmetry", "mirror2"]);
    apply_stack_edit(&mut stack, StackEdit::MoveDown(0));
    assert_eq!(stack, vec!["symmetry", "mirror", "mirror2"]);
    apply_stack_edit(&mut stack, StackEdit::Remove(1));
    assert_eq!(stack, vec!["symmetry", "mirror2"]);
}

#[test]
fn annotation_subgroups_and_lock() {
    assert!(annotation_is_locked(false, true));
    assert!(annotation_is_locked(true, false));
    assert!(!annotation_is_locked(false, false));
    let groups = vec!["Walls".to_string(), "Doors".to_string()];
    let choices = subgroup_choices(&Some("Doors".to_string()), &groups);
    assert_eq!(
        choices,
        vec![("(Root / No subgroup)".to_string(), false), ("Walls".to_string(), false), ("Doors".to_string(), true)]
    );
    let root = subgroup_choices(&None, &groups);
    assert!(root[0].1 && !root[1].1 && !root[2].1);
    assert_eq!(subgroup_label(&None), "(Root / No subgroup)");
    assert_eq!(subgroup_label(&Some("Walls".to_string())), "Walls");
}

#[test]
fn materials_are_named_and_labelled() {
    let mats = vec![(10u128, "Brick".to_string()), (11u128, "Glass".to_string())];
    assert_eq!(material_label(&mats, Some(11)), "Glass");
    assert_eq!(material_label(&mats, Some(12)), "Nenhum");
    assert_eq!(material_label(&mats, None), "Nenhum");
    assert_eq!(new_material_name(0), "Material 1");
    assert_eq!(new_material_name(41), "Material 42");
    assert_eq!(alpha_mode_label(AlphaMode::Mask), "Máscara (Cutoff)");
    assert_eq!(alpha_mode_label(AlphaMode::Opaque), "Opaco");
    assert!(shows_alpha_cutoff(AlphaMode::Mask));
    assert!(!shows_alpha_cutoff(AlphaMode::Blend));
    let ops: Vec<BooleanOp> = boolean_operations().iter().map(|(op, _)| *op).collect();
    assert_eq!(ops, vec![BooleanOp::Fuse, BooleanOp::Cut, BooleanOp::Intersect, BooleanOp::Join]);
    assert_eq!(boolean_operations()[1].1, "model.cut");
}

#[test]
fn object_rows_offer_their_actions() {
    let commands: Vec<RowCommand> = object_row_menu(false, false, true).iter().map(|i| i.command).collect();
    assert_eq!(
        commands,
        vec![
            RowCommand::Rename,
            RowCommand::Duplicate,
            RowCommand::ToggleLock,
            RowCommand::ToggleIsolate,
            RowCommand::MoveToCollection,
            RowCommand::Export,
            RowCommand::Delete,
        ]
    );
    let locked = object_row_menu(true, true, false);
    assert_eq!(locked.len(), 6);
    assert_eq!(locked[2].label_key, "context.unlock");
    assert_eq!(locked[3].label_key, "context.isolate_exit");
    assert_eq!(locked[5].shortcut, Some("Delete"));
    let labels = move_to_collection_labels(&vec!["Props".to_string(), "Walls".to_string()], &Some("Walls".to_string()));
    assert_eq!(labels, vec!["Props".to_string(), "• Walls".to_string()]);
    assert!(shows_row_delete(false, false, true));
    assert!(!shows_row_delete(false, false, false));
}

#[test]
fn the_inspector_search_lists_matching_sections() {
    let titles: Vec<String> = ["Transform", "Geometry", "Modifiers", "Display", "Material"]
        .iter()
        .map(|t| t.to_string())
        .collect();
    assert_eq!(matching_sections(&titles, "t"), vec![0, 1, 4]);
    assert_eq!(matching_sections(&titles, "mod"), vec![2]);
    assert!(matching_sections(&titles, "xyz").is_empty());
    assert_eq!(matching_sections(&titles, "").len(), 5);
    let quick: Vec<PrimitiveKind> = quick_add_primitives().iter().map(|(_, k)| *k).collect();
    assert_eq!(quick, vec![PrimitiveKind::Cube, PrimitiveKind::Sphere, PrimitiveKind::Plane]);
}
