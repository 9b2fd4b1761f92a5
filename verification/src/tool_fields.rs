use vstd::prelude::*;

use crate::text::str_eq;

verus! {

/// The interactive operations that a viewport session or the Tool Properties
/// fields drive.
#[derive(Debug, Clone, Copy, PartialEq, Eq, Structural)]
pub enum ModalKind {
    Move,
    Rotate,
    Scale,
    Extrude,
    ExtrudeIndividual,
    Inset,
    Bevel,
    PushPull,
}

/// Whether the operation is a transform with one field per axis.
pub open spec fn spec_is_transform(kind: ModalKind) -> bool {
    kind == ModalKind::Move || kind == ModalKind::Rotate || kind == ModalKind::Scale
}

/// Whether the operation is a transform (Move, Rotate or Scale).
pub fn is_transform(kind: ModalKind) -> (r: bool)
    ensures
        r == spec_is_transform(kind),
{
    matches!(kind, ModalKind::Move | ModalKind::Rotate | ModalKind::Scale)
}

/// How many numeric fields the operation edits: X, Y and Z for a transform,
/// one value otherwise.
pub fn field_count(kind: ModalKind) -> (r: usize)
    ensures
        r == (if spec_is_transform(kind) { 3usize } else { 1usize }),
{
    if is_transform(kind) {
        3
    } else {
        1
    }
}

pub open spec fn spec_kind_label_key(kind: ModalKind) -> Seq<char> {
    match kind {
        ModalKind::Move => "tools.move"@,
        ModalKind::Rotate => "tools.rotate"@,
        ModalKind::Scale => "tools.scale"@,
        ModalKind::Extrude => "tools.extrude"@,
        ModalKind::ExtrudeIndividual => "tools.extrude"@,
        ModalKind::Inset => "tools.inset"@,
        ModalKind::Bevel => "tools.bevel"@,
        ModalKind::PushPull => "tools.pushpull"@,
    }
}

/// Translation key of the operation's name.
pub fn kind_label_key(kind: ModalKind) -> (r: &'static str)
    ensures
        r@ == spec_kind_label_key(kind),
{
    match kind {
        ModalKind::Move => "tools.move",
        ModalKind::Rotate => "tools.rotate",
        ModalKind::Scale => "tools.scale",
        ModalKind::Extrude => "tools.extrude",
        ModalKind::ExtrudeIndividual => "tools.extrude",
        ModalKind::Inset => "tools.inset",
        ModalKind::Bevel => "tools.bevel",
        ModalKind::PushPull => "tools.pushpull",
    }
}

pub open spec fn spec_field_label(kind: ModalKind) -> (Seq<char>, Seq<char>) {
    match kind {
        ModalKind::Move => ("tool_properties.displacement"@, "m"@),
        ModalKind::Rotate => ("tool_properties.rotation_xyz"@, "°"@),
        ModalKind::Scale => ("tool_properties.scale_xyz"@, "×"@),
        ModalKind::Extrude => ("tool_properties.extrude_distance"@, "m"@),
        ModalKind::ExtrudeIndividual => ("tool_properties.extrude_distance"@, "m"@),
        ModalKind::Inset => ("tool_properties.inset_factor"@, "0–0.95"@),
        ModalKind::Bevel => ("tool_properties.bevel_width"@, "m"@),
        ModalKind::PushPull => ("tool_properties.pushpull_distance"@, "m"@),
    }
}

/// Translation key of the fields' caption and the unit printed after each field.
pub fn field_label(kind: ModalKind) -> (r: (&'static str, &'static str))
    ensures
        (r.0@, r.1@) == spec_field_label(kind),
{
    match kind {
        ModalKind::Move => ("tool_properties.displacement", "m"),
        ModalKind::Rotate => ("tool_properties.rotation_xyz", "°"),
        ModalKind::Scale => ("tool_properties.scale_xyz", "×"),
        ModalKind::Extrude => ("tool_properties.extrude_distance", "m"),
        ModalKind::ExtrudeIndividual => ("tool_properties.extrude_distance", "m"),
        ModalKind::Inset => ("tool_properties.inset_factor", "0–0.95"),
        ModalKind::Bevel => ("tool_properties.bevel_width", "m"),
        ModalKind::PushPull => ("tool_properties.pushpull_distance", "m"),
    }
}

pub open spec fn spec_tool_modal_kind(active_tool: Seq<char>) -> Option<ModalKind> {
    if active_tool == "move"@ {
        Some(ModalKind::Move)
    } else if active_tool == "rotate"@ {
        Some(ModalKind::Rotate)
    } else if active_tool == "scale"@ {
        Some(ModalKind::Scale)
    } else if active_tool == "extrude"@ {
        Some(ModalKind::Extrude)
    } else if active_tool == "inset"@ {
        Some(ModalKind::Inset)
    } else if active_tool == "bevel"@ {
        Some(ModalKind::Bevel)
    } else if active_tool == "pushpull"@ {
        Some(ModalKind::PushPull)
    } else {
        None
    }
}

/// The operation a palette tool edits through numeric fields. The universal
/// transform is deliberately none of them: it never aliases whichever gizmo
/// mode happened to be selected before.
pub fn tool_modal_kind(active_tool: &str) -> (r: Option<ModalKind>)
    ensures
        r == spec_tool_modal_kind(active_tool@),
{
    if str_eq(active_tool, "move") {
        Some(ModalKind::Move)
    } else if str_eq(active_tool, "rotate") {
        Some(ModalKind::Rotate)
    } else if str_eq(active_tool, "scale") {
        Some(ModalKind::Scale)
    } else if str_eq(active_tool, "extrude") {
        Some(ModalKind::Extrude)
    } else if str_eq(active_tool, "inset") {
        Some(ModalKind::Inset)
    } else if str_eq(active_tool, "bevel") {
        Some(ModalKind::Bevel)
    } else if str_eq(active_tool, "pushpull") {
        Some(ModalKind::PushPull)
    } else {
        None
    }
}

pub open spec fn spec_selected_kind(
    running: Option<ModalKind>,
    pending: Option<ModalKind>,
    active_tool: Seq<char>,
) -> Option<ModalKind> {
    if running is Some {
        running
    } else if pending is Some {
        pending
    } else {
        spec_tool_modal_kind(active_tool)
    }
}

/// The operation whose fields the Tool Properties card shows: the running
/// session, else the pending one, else the one of the active tool.
pub fn selected_kind(running: Option<ModalKind>, pending: Option<ModalKind>, active_tool: &str) -> (r: Option<ModalKind>)
    ensures
        r == spec_selected_kind(running, pending, active_tool@),
{
    match running {
        Some(kind) => Some(kind),
        None => match pending {
            Some(kind) => Some(kind),
            None => tool_modal_kind(active_tool),
        },
    }
}

pub open spec fn spec_transform_tool_id(kind: ModalKind) -> Option<Seq<char>> {
    match kind {
        ModalKind::Move => Some("move"@),
        ModalKind::Rotate => Some("rotate"@),
        ModalKind::Scale => Some("scale"@),
        _ => None,
    }
}

/// The palette tool that picking a transform in the fields' selector
/// activates (`None` for the other operations, which the selector never offers).
pub fn transform_tool_id(kind: ModalKind) -> (r: Option<&'static str>)
    ensures
        r matches Some(id) ==> spec_transform_tool_id(kind) == Some(id@),
        r is None ==> spec_transform_tool_id(kind) is None,
{
    match kind {
        ModalKind::Move => Some("move"),
        ModalKind::Rotate => Some("rotate"),
        ModalKind::Scale => Some("scale"),
        _ => None,
    }
}

/// The stored tool parameter that confirming the fields writes.
#[derive(Debug, Clone, Copy, PartialEq, Eq, Structural)]
pub enum ToolParameter {
    ExtrudeDistance,
    InsetFactor,
    BevelAmount,
    PushDistance,
}

pub open spec fn spec_committed_parameter(kind: ModalKind) -> Option<ToolParameter> {
    match kind {
        ModalKind::Extrude => Some(ToolParameter::ExtrudeDistance),
        ModalKind::Inset => Some(ToolParameter::InsetFactor),
        ModalKind::Bevel => Some(ToolParameter::BevelAmount),
        ModalKind::PushPull => Some(ToolParameter::PushDistance),
        _ => None,
    }
}

/// The tool parameter that the first field's value is stored in when the
/// fields are applied (transforms store none).
pub fn committed_parameter(kind: ModalKind) -> (r: Option<ToolParameter>)
    ensures
        r == spec_committed_parameter(kind),
{
    match kind {
        ModalKind::Extrude => Some(ToolParameter::ExtrudeDistance),
        ModalKind::Inset => Some(ToolParameter::InsetFactor),
        ModalKind::Bevel => Some(ToolParameter::BevelAmount),
        ModalKind::PushPull => Some(ToolParameter::PushDistance),
        _ => None,
    }
}

/// Extra hint shown under the fields of some operations.
pub fn extra_hint_key(kind: ModalKind) -> (r: Option<&'static str>)
    ensures
        kind == ModalKind::Rotate ==> (r matches Some(k) && k@ == "tool_properties.rotation_hint"@),
        kind == ModalKind::Bevel ==> (r matches Some(k) && k@ == "tool_properties.bevel_hint"@),
        kind != ModalKind::Rotate && kind != ModalKind::Bevel ==> r is None,
{
    match kind {
        ModalKind::Rotate => Some("tool_properties.rotation_hint"),
        ModalKind::Bevel => Some("tool_properties.bevel_hint"),
        _ => None,
    }
}

/// Whether the fields are read-only: another interaction (a mesh preview, a
/// paint stroke, or a viewport session the fields did not start) owns the
/// transaction.
pub fn fields_blocked(mesh_preview: bool, paint_stroke: bool, session_running: bool, fields_own_session: bool) -> (r: bool)
    ensures
        r == (mesh_preview || paint_stroke || (session_running && !fields_own_session)),
{
    mesh_preview || paint_stroke || (session_running && !fields_own_session)
}

/// Whether the fields' session must restart: the fields believe they own a
/// session but none is running any more.
pub fn session_is_stale(fields_own_session: bool, session_running: bool) -> (r: bool)
    ensures
        r == (fields_own_session && !session_running),
{
    fields_own_session && !session_running
}

/// Whether the Cancel button is enabled.
pub fn can_cancel(fields_own_session: bool, has_pending: bool) -> (r: bool)
    ensures
        r == (fields_own_session || has_pending),
{
    fields_own_session || has_pending
}

} // verus!
