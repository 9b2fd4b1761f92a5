use petunia_ui::icons::PetuniaIcon;
use petunia_ui::paint::{is_shape_brush, BrushType};
use petunia_ui::tokens::Rgba;
use petunia_ui::tool_fields::ModalKind;
use petunia_ui::viewport::{
    annotation_gizmo, annotation_gizmo_available, brush_step, gizmo_drag_step, gizmo_modal, handle_constraint,
    outline_style, transform_tool_gizmo, viewport_context_menu, viewport_route, BrushInput, BrushStep, GizmoDragStep,
    GizmoHandle, GizmoKind, ModalConstraint, OutlineStyle, ToolGizmo, ViewportRoute,
};
use petunia_ui::workspace::Workspace;

#[test]
fn the_viewport_routes_by_workspace_and_tool() {
    assert_eq!(viewport_route(Workspace::Paint, "select"), ViewportRoute::Paint);
    assert_eq!(viewport_route(Workspace::Model, "paint"), ViewportRoute::Paint);
    assert_eq!(viewport_route(Workspace::Model, "select"), ViewportRoute::Model);
    assert_eq!(viewport_route(Workspace::Model, "draw_profile"), ViewportRoute::Passive);
    assert_eq!(viewport_route(Workspace::Uv, "select"), ViewportRoute::Passive);
}

#[test]
fn outlines_mark_active_selected_and_hovered_objects() {
    assert_eq!(outline_style(false, false, false), None);
    assert_eq!(
        outline_style(true, false, false),
        Some(OutlineStyle { color: Rgba { r: 255, g: 140, b: 20, a: 255 }, bold: true })
    );
    assert_eq!(
        outline_style(false, true, false),
        Some(OutlineStyle { color: Rgba { r: 255, g: 180, b: 50, a: 255 }, bold: false })
    );
    assert_eq!(
        outline_style(false, true, true),
        Some(OutlineStyle { color: Rgba { r: 255, g: 180, b: 50, a: 255 }, bold: true })
    );
    assert_eq!(
        outline_style(false, false, true),
        Some(OutlineStyle { color: Rgba { r: 125, g: 220, b: 255, a: 255 }, bold: true })
    );
}

#[test]
fn gizmo_handles_start_constrained_modals() {
    assert_eq!(handle_constraint(GizmoHandle::Center), ModalConstraint::Free);
    assert_eq!(handle_constraint(GizmoHandle::Axis(2)), ModalConstraint::Axis(2));
    assert_eq!(handle_constraint(GizmoHandle::Plane(1)), ModalConstraint::Plane(1));
    assert_eq!(gizmo_modal(GizmoKind::Translate), ModalKind::Move);
    assert_eq!(gizmo_modal(GizmoKind::Scale), ModalKind::Scale);
    assert_eq!(annotation_gizmo(ModalKind::Rotate), GizmoKind::Rotate);
    assert_eq!(annotation_gizmo(ModalKind::Extrude), GizmoKind::Translate);
}

#[test]
fn transform_tools_draw_their_gizmo() {
    assert_eq!(transform_tool_gizmo("transform", false, true, false), Some(ToolGizmo::Universal));
    assert_eq!(transform_tool_gizmo("rotate", false, false, true), Some(ToolGizmo::Single(GizmoKind::Rotate)));
    assert_eq!(transform_tool_gizmo("move", true, true, true), None);
    assert_eq!(transform_tool_gizmo("scale", false, false, false), None);
    assert_eq!(transform_tool_gizmo("knife", false, true, true), None);
}

#[test]
fn the_right_click_menu_grows_with_the_selection() {
    assert!(viewport_context_menu(true, true, true).is_none());
    let plain: Vec<ModalKind> = viewport_context_menu(false, false, false).unwrap().iter().map(|i| i.modal).collect();
    assert_eq!(plain, vec![ModalKind::Move, ModalKind::Rotate, ModalKind::Scale]);
    let all = viewport_context_menu(false, true, true).unwrap();
    let kinds: Vec<ModalKind> = all.iter().map(|i| i.modal).collect();
    assert_eq!(
        kinds,
        vec![ModalKind::Move, ModalKind::Rotate, ModalKind::Scale, ModalKind::Extrude, ModalKind::Inset, ModalKind::PushPull, ModalKind::Bevel]
    );
    assert_eq!(all[6].shortcut, "Ctrl+B");
    assert_eq!(all[5].icon, PetuniaIcon::PushPull);
    let edges_only = viewport_context_menu(false, false, true).unwrap();
    assert_eq!(edges_only.len(), 4);
    assert_eq!(edges_only[3].label_key, "tools.bevel");
}

fn input(escape: bool, down: bool, pressed: bool, released: bool) -> BrushInput {
    BrushInput { escape, primary_down: down, primary_pressed: pressed, primary_released: released }
}

#[test]
fn escape_holds_the_brush_until_release() {
    assert_eq!(brush_step(false, input(true, true, false, false)), (true, BrushStep::CancelStroke));
    assert_eq!(brush_step(false, input(true, false, false, false)), (false, BrushStep::CancelStroke));
    assert_eq!(brush_step(true, input(false, true, false, false)), (true, BrushStep::Held));
    assert_eq!(brush_step(true, input(false, false, false, true)), (false, BrushStep::Paint { finished: true }));
    assert_eq!(brush_step(true, input(false, true, true, false)), (false, BrushStep::Paint { finished: false }));
    assert_eq!(brush_step(false, input(false, true, false, false)), (false, BrushStep::Paint { finished: false }));
}

#[test]
fn annotation_gizmo_drags_revert_commit_or_follow() {
    assert_eq!(gizmo_drag_step(true, true, true), GizmoDragStep::Revert);
    assert_eq!(gizmo_drag_step(false, true, true), GizmoDragStep::Commit);
    assert_eq!(gizmo_drag_step(false, false, true), GizmoDragStep::Follow);
    assert_eq!(gizmo_drag_step(false, false, false), GizmoDragStep::Idle);
    assert!(annotation_gizmo_available(false, Some(false)));
    assert!(!annotation_gizmo_available(true, Some(false)));
    assert!(!annotation_gizmo_available(false, Some(true)));
    assert!(!annotation_gizmo_available(false, None));
}

#[test]
fn line_and_rectangle_brushes_draw_shapes() {
    assert!(is_shape_brush(BrushType::Line));
    assert!(is_shape_brush(BrushType::Rectangle));
    assert!(!is_shape_brush(BrushType::Soft));
    assert!(!is_shape_brush(BrushType::Fill));
}
