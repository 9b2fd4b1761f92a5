use petunia_ui::tool_fields::{
    can_cancel, committed_parameter, extra_hint_key, field_count, field_label, fields_blocked, is_transform,
    kind_label_key, selected_kind, session_is_stale, tool_modal_kind, transform_tool_id, ModalKind, ToolParameter,
};
use petunia_ui::tool_properties::{
    card_title, edit_guard, selection_guard, supports, tool_card, tool_name_key, tool_surface, CardTitle, ToolCard,
    ToolSurface,
};
use petunia_ui::workspace::Workspace;

#[test]
fn transform_children_map_explicitly_and_universal_does_not_alias_stale_mode() {
    assert_eq!(selected_kind(None, None, "transform"), None);
    assert_eq!(selected_kind(None, None, "move"), Some(ModalKind::Move));
    assert_eq!(selected_kind(None, None, "rotate"), Some(ModalKind::Rotate));
    assert_eq!(selected_kind(None, None, "scale"), Some(ModalKind::Scale));
}

#[test]
fn canonical_surface_supports_all_contextual_modeling_tools() {
    for id in [
        "transform",
        "move",
        "rotate",
        "scale",
        "primitives",
        "extrude",
        "inset",
        "bevel",
        "pushpull",
        "slice",
        "subdivide",
        "draw_profile",
        "merge",
        "connect",
        "dissolve",
        "revolve",
    ] {
        assert!(supports(false, false, id), "missing Tool Properties for {id}");
    }
    assert!(!supports(false, false, "select"));
}

#[test]
fn a_session_always_owns_the_card() {
    assert!(supports(true, false, "select"));
    assert!(supports(false, true, "select"));
    assert_eq!(tool_surface(true, "select"), Some(ToolSurface::Fields));
}

#[test]
fn running_session_wins_over_pending_and_tool() {
    assert_eq!(selected_kind(Some(ModalKind::Bevel), Some(ModalKind::Move), "scale"), Some(ModalKind::Bevel));
    assert_eq!(selected_kind(None, Some(ModalKind::Inset), "scale"), Some(ModalKind::Inset));
    assert_eq!(tool_modal_kind("pushpull"), Some(ModalKind::PushPull));
    assert_eq!(tool_modal_kind("merge"), None);
}

#[test]
fn transforms_edit_three_axes_and_others_one_value() {
    assert!(is_transform(ModalKind::Rotate));
    assert!(!is_transform(ModalKind::Extrude));
    assert_eq!(field_count(ModalKind::Scale), 3);
    assert_eq!(field_count(ModalKind::Bevel), 1);
    assert_eq!(kind_label_key(ModalKind::ExtrudeIndividual), "tools.extrude");
    assert_eq!(kind_label_key(ModalKind::PushPull), "tools.pushpull");
    assert_eq!(field_label(ModalKind::Rotate), ("tool_properties.rotation_xyz", "°"));
    assert_eq!(field_label(ModalKind::Inset), ("tool_properties.inset_factor", "0–0.95"));
    assert_eq!(transform_tool_id(ModalKind::Scale), Some("scale"));
    assert_eq!(transform_tool_id(ModalKind::Bevel), None);
    assert_eq!(committed_parameter(ModalKind::Extrude), Some(ToolParameter::ExtrudeDistance));
    assert_eq!(committed_parameter(ModalKind::PushPull), Some(ToolParameter::PushDistance));
    assert_eq!(committed_parameter(ModalKind::Move), None);
    assert_eq!(extra_hint_key(ModalKind::Rotate), Some("tool_properties.rotation_hint"));
    assert_eq!(extra_hint_key(ModalKind::Bevel), Some("tool_properties.bevel_hint"));
    assert_eq!(extra_hint_key(ModalKind::Move), None);
}

#[test]
fn fields_yield_to_other_interactions() {
    assert!(fields_blocked(true, false, false, false));
    assert!(fields_blocked(false, true, false, false));
    assert!(fields_blocked(false, false, true, false));
    assert!(!fields_blocked(false, false, true, true));
    assert!(session_is_stale(true, false));
    assert!(!session_is_stale(true, true));
    assert!(can_cancel(false, true));
    assert!(!can_cancel(false, false));
}

#[test]
fn surfaces_follow_the_active_tool() {
    assert_eq!(tool_surface(false, "bevel"), Some(ToolSurface::Fields));
    assert_eq!(tool_surface(false, "transform"), Some(ToolSurface::UniversalTransform));
    assert_eq!(tool_surface(false, "revolve"), Some(ToolSurface::Revolve));
    assert_eq!(tool_surface(false, "draw_profile"), Some(ToolSurface::DrawProfile));
    assert_eq!(tool_surface(false, "select"), None);
}

#[test]
fn guards_explain_disabled_operations() {
    assert_eq!(edit_guard(false, true), Some("actions.no_mesh"));
    assert_eq!(edit_guard(true, false), Some("actions.need_edit"));
    assert_eq!(edit_guard(true, true), None);
    assert_eq!(selection_guard(true, true, true), Some("actions.need_selection"));
    assert_eq!(selection_guard(true, true, false), None);
    assert_eq!(selection_guard(false, false, true), Some("actions.no_mesh"));
}

#[test]
fn cards_and_titles() {
    assert_eq!(tool_card(true, false, "paint", Workspace::Paint, true), None);
    assert_eq!(tool_card(false, true, "bevel", Workspace::Model, true), None);
    assert_eq!(tool_card(false, false, "paint", Workspace::Uv, false), Some(ToolCard::Brush));
    assert_eq!(tool_card(false, false, "bevel", Workspace::Uv, true), None);
    assert_eq!(tool_card(false, false, "bevel", Workspace::Model, false), None);
    assert_eq!(tool_card(false, false, "bevel", Workspace::Paint, true), Some(ToolCard::Properties));
    assert_eq!(card_title(Some(ModalKind::Move), Some(ModalKind::Bevel), "transform"), CardTitle::Operation(ModalKind::Move));
    assert_eq!(card_title(None, Some(ModalKind::Bevel), "transform"), CardTitle::Operation(ModalKind::Bevel));
    assert_eq!(card_title(None, None, "transform"), CardTitle::UniversalTransform);
    assert_eq!(card_title(None, None, "slice"), CardTitle::Tool);
    assert_eq!(tool_name_key("slice"), "tools.slice");
}
