use vstd::prelude::*;

use crate::icons::PetuniaIcon;
use crate::text::str_eq;
use crate::tokens::Rgba;
use crate::tool_fields::ModalKind;
use crate::workspace::Workspace;

verus! {

/// Who handles the pointer over the 3D viewport once the modal operators,
/// the measuring and annotating tools and the navigation have passed on it.
#[derive(Debug, Clone, Copy, PartialEq, Eq, Structural)]
pub enum ViewportRoute {
    /// Brush strokes on the mesh.
    Paint,
    /// Hover, picking and the transform gizmo of the Model workspace.
    Model,
    /// Nothing more happens.
    Passive,
}

pub open spec fn spec_viewport_route(workspace: Workspace, tool: Seq<char>) -> ViewportRoute {
    if workspace == Workspace::Paint || tool == "paint"@ {
        ViewportRoute::Paint
    } else if workspace != Workspace::Model || tool == "draw_profile"@ {
        ViewportRoute::Passive
    } else {
        ViewportRoute::Model
    }
}

/// Painting is decided by the workspace or the tool, never by a mode of its
/// own; outside the Model workspace, and while a profile is being drawn,
/// the viewport does no picking.
pub fn viewport_route(workspace: Workspace, tool: &str) -> (r: ViewportRoute)
    ensures
        r == spec_viewport_route(workspace, tool@),
{
    if workspace == Workspace::Paint || str_eq(tool, "paint") {
        ViewportRoute::Paint
    } else if workspace != Workspace::Model || str_eq(tool, "draw_profile") {
        ViewportRoute::Passive
    } else {
        ViewportRoute::Model
    }
}

/// How the outline of an object is drawn in the Object domain.
#[derive(Debug, Clone, Copy, PartialEq, Eq, Structural)]
pub struct OutlineStyle {
    pub color: Rgba,
    /// The wider stroke, for the active and the hovered object.
    pub bold: bool,
}

pub open spec fn spec_outline_style(active: bool, selected: bool, hovered: bool) -> Option<OutlineStyle> {
    let selected = selected || active;
    if !selected && !hovered {
        None
    } else {
        let color = if active {
            Rgba { r: 255, g: 140, b: 20, a: 255 }
        } else if selected {
            Rgba { r: 255, g: 180, b: 50, a: 255 }
        } else {
            Rgba { r: 125, g: 220, b: 255, a: 255 }
        };
        Some(OutlineStyle { color, bold: active || hovered })
    }
}

/// The outline of a visible object: none unless it is selected (the active
/// object always is) or under the pointer; orange for the active object,
/// amber for the other selected ones, cyan for a hovered one.
pub fn outline_style(active: bool, selected: bool, hovered: bool) -> (r: Option<OutlineStyle>)
    ensures
        r == spec_outline_style(active, selected, hovered),
{
    let selected = selected || active;
    if !selected && !hovered {
        return None;
    }
    let color = if active {
        Rgba { r: 255, g: 140, b: 20, a: 255 }
    } else if selected {
        Rgba { r: 255, g: 180, b: 50, a: 255 }
    } else {
        Rgba { r: 125, g: 220, b: 255, a: 255 }
    };
    Some(OutlineStyle { color, bold: active || hovered })
}

/// The kinds of transform gizmo.
#[derive(Debug, Clone, Copy, PartialEq, Eq, Structural)]
pub enum GizmoKind {
    Translate,
    Rotate,
    Scale,
}

/// The part of a gizmo under the pointer: its center, an axis arrow or a
/// plane square (axes 0, 1, 2 for X, Y, Z).
#[derive(Debug, Clone, Copy, PartialEq, Eq, Structural)]
pub enum GizmoHandle {
    Center,
    Axis(u8),
    Plane(u8),
}

/// The constraint a modal transform starts with.
#[derive(Debug, Clone, Copy, PartialEq, Eq, Structural)]
pub enum ModalConstraint {
    Free,
    Axis(usize),
    Plane(usize),
}

/// The constraint of the handle that was grabbed: free from the center,
/// along an axis from its arrow, within a plane from its square.
pub fn handle_constraint(h: GizmoHandle) -> (r: ModalConstraint)
    ensures
        r == (match h {
            GizmoHandle::Center => ModalConstraint::Free,
            GizmoHandle::Axis(a) => ModalConstraint::Axis(a as usize),
            GizmoHandle::Plane(a) => ModalConstraint::Plane(a as usize),
        }),
{
    match h {
        GizmoHandle::Center => ModalConstraint::Free,
        GizmoHandle::Axis(a) => ModalConstraint::Axis(a as usize),
        GizmoHandle::Plane(a) => ModalConstraint::Plane(a as usize),
    }
}

pub open spec fn spec_gizmo_modal(kind: GizmoKind) -> ModalKind {
    match kind {
        GizmoKind::Translate => ModalKind::Move,
        GizmoKind::Rotate => ModalKind::Rotate,
        GizmoKind::Scale => ModalKind::Scale,
    }
}

/// The modal operator a gizmo of this kind starts.
pub fn gizmo_modal(kind: GizmoKind) -> (r: ModalKind)
    ensures
        r == spec_gizmo_modal(kind),
{
    match kind {
        GizmoKind::Translate => ModalKind::Move,
        GizmoKind::Rotate => ModalKind::Rotate,
        GizmoKind::Scale => ModalKind::Scale,
    }
}

pub open spec fn spec_annotation_gizmo(mode: ModalKind) -> GizmoKind {
    match mode {
        ModalKind::Rotate => GizmoKind::Rotate,
        ModalKind::Scale => GizmoKind::Scale,
        _ => GizmoKind::Translate,
    }
}

/// The gizmo drawn on a selected annotation for the current gizmo mode:
/// rotate and scale have their own, every other mode translates.
pub fn annotation_gizmo(mode: ModalKind) -> (r: GizmoKind)
    ensures
        r == spec_annotation_gizmo(mode),
{
    match mode {
        ModalKind::Rotate => GizmoKind::Rotate,
        ModalKind::Scale => GizmoKind::Scale,
        _ => GizmoKind::Translate,
    }
}

/// Every gizmo kind starts the modal operator whose annotation gizmo it is.
pub proof fn lemma_gizmo_modal_round_trips(kind: GizmoKind)
    ensures
        spec_annotation_gizmo(spec_gizmo_modal(kind)) == kind,
{
}

} // verus!

verus! {

/// The gizmo a transform tool draws on the selection.
#[derive(Debug, Clone, Copy, PartialEq, Eq, Structural)]
pub enum ToolGizmo {
    /// The Transform tool: arrows, rings and cubes together.
    Universal,
    Single(GizmoKind),
}

pub open spec fn spec_tool_gizmo(tool: Seq<char>) -> Option<ToolGizmo> {
    if tool == "transform"@ {
        Some(ToolGizmo::Universal)
    } else if tool == "move"@ {
        Some(ToolGizmo::Single(GizmoKind::Translate))
    } else if tool == "rotate"@ {
        Some(ToolGizmo::Single(GizmoKind::Rotate))
    } else if tool == "scale"@ {
        Some(ToolGizmo::Single(GizmoKind::Scale))
    } else {
        None
    }
}

/// The gizmo of the active tool: the universal one for Transform, a single
/// one for Move, Rotate and Scale, none for other tools; and none at all
/// while the active object is locked or, outside the Object domain, while
/// the mesh has nothing selected.
pub fn transform_tool_gizmo(tool: &str, locked: bool, object_domain: bool, has_selection: bool) -> (r: Option<ToolGizmo>)
    ensures
        r == (if !locked && (has_selection || object_domain) { spec_tool_gizmo(tool@) } else { None }),
{
    if locked || !(has_selection || object_domain) {
        return None;
    }
    if str_eq(tool, "transform") {
        Some(ToolGizmo::Universal)
    } else if str_eq(tool, "move") {
        Some(ToolGizmo::Single(GizmoKind::Translate))
    } else if str_eq(tool, "rotate") {
        Some(ToolGizmo::Single(GizmoKind::Rotate))
    } else if str_eq(tool, "scale") {
        Some(ToolGizmo::Single(GizmoKind::Scale))
    } else {
        None
    }
}

/// One item of the viewport's right-click menu: it arms a modal operator.
#[derive(Debug, Clone, Copy)]
pub struct ModalMenuItem {
    pub label_key: &'static str,
    pub icon: PetuniaIcon,
    pub shortcut: &'static str,
    pub modal: ModalKind,
}

pub open spec fn modal_item(label_key: &'static str, icon: PetuniaIcon, shortcut: &'static str, modal: ModalKind) -> ModalMenuItem {
    ModalMenuItem { label_key, icon, shortcut, modal }
}

pub open spec fn spec_viewport_context_menu(faces: bool, edges: bool) -> Seq<ModalMenuItem> {
    let transforms = seq![
        modal_item("tools.move", PetuniaIcon::Move, "G", ModalKind::Move),
        modal_item("tools.rotate", PetuniaIcon::Rotate, "R", ModalKind::Rotate),
        modal_item("tools.scale", PetuniaIcon::Scale, "S", ModalKind::Scale),
    ];
    let face_ops = seq![
        modal_item("tools.extrude", PetuniaIcon::Extrude, "E", ModalKind::Extrude),
        modal_item("tools.inset", PetuniaIcon::Inset, "I", ModalKind::Inset),
        modal_item("tools.pushpull", PetuniaIcon::PushPull, "P", ModalKind::PushPull),
    ];
    let bevel = seq![modal_item("tools.bevel", PetuniaIcon::Bevel, "Ctrl+B", ModalKind::Bevel)];
    transforms + (if faces { face_ops } else { Seq::empty() }) + (if edges { bevel } else { Seq::empty() })
}

/// The viewport's right-click menu under the "context.modeling" title: none
/// while the active object is locked (the menu only says so); otherwise
/// Move, Rotate and Scale, then Extrude, Inset and Push/Pull when faces are
/// selected, then Bevel when edges are.
pub fn viewport_context_menu(locked: bool, faces: bool, edges: bool) -> (r: Option<Vec<ModalMenuItem>>)
    ensures
        locked ==> r is None,
        !locked ==> r is Some && r->0@ == spec_viewport_context_menu(faces, edges),
{
    if locked {
        return None;
    }
    let mut items = vec![
        ModalMenuItem { label_key: "tools.move", icon: PetuniaIcon::Move, shortcut: "G", modal: ModalKind::Move },
        ModalMenuItem { label_key: "tools.rotate", icon: PetuniaIcon::Rotate, shortcut: "R", modal: ModalKind::Rotate },
        ModalMenuItem { label_key: "tools.scale", icon: PetuniaIcon::Scale, shortcut: "S", modal: ModalKind::Scale },
    ];
    if faces {
        items.push(ModalMenuItem { label_key: "tools.extrude", icon: PetuniaIcon::Extrude, shortcut: "E", modal: ModalKind::Extrude });
        items.push(ModalMenuItem { label_key: "tools.inset", icon: PetuniaIcon::Inset, shortcut: "I", modal: ModalKind::Inset });
        items.push(ModalMenuItem { label_key: "tools.pushpull", icon: PetuniaIcon::PushPull, shortcut: "P", modal: ModalKind::PushPull });
    }
    if edges {
        items.push(ModalMenuItem { label_key: "tools.bevel", icon: PetuniaIcon::Bevel, shortcut: "Ctrl+B", modal: ModalKind::Bevel });
    }
    assert(items@ =~= spec_viewport_context_menu(faces, edges));
    Some(items)
}

} // verus!

verus! {

/// The pointer and keyboard of one frame, as the paint brush reads them.
#[derive(Debug, Clone, Copy, PartialEq, Eq, Structural)]
pub struct BrushInput {
    pub escape: bool,
    pub primary_down: bool,
    pub primary_pressed: bool,
    pub primary_released: bool,
}

/// What the brush does this frame.
#[derive(Debug, Clone, Copy, PartialEq, Eq, Structural)]
pub enum BrushStep {
    /// Escape: the stroke in progress is cancelled.
    CancelStroke,
    /// A cancelled stroke holds the brush until the button is released.
    Held,
    /// The brush works; `finished` says whether a stroke ended on release.
    Paint { finished: bool },
}

pub open spec fn spec_brush_step(held: bool, input: BrushInput) -> (bool, BrushStep) {
    if input.escape {
        (input.primary_down, BrushStep::CancelStroke)
    } else {
        let held = held && !input.primary_released && !input.primary_pressed;
        if held {
            (true, BrushStep::Held)
        } else {
            (false, BrushStep::Paint { finished: input.primary_released })
        }
    }
}

/// One frame of the brush: the new value of "cancelled until release" and
/// the step. Escape cancels the stroke, and holds the brush while the button
/// stays down; a release ends the stroke and the hold, a new press ends the
/// hold.
pub fn brush_step(held: bool, input: BrushInput) -> (r: (bool, BrushStep))
    ensures
        r == spec_brush_step(held, input),
{
    if input.escape {
        return (input.primary_down, BrushStep::CancelStroke);
    }
    let held = held && !input.primary_released && !input.primary_pressed;
    if held {
        (true, BrushStep::Held)
    } else {
        (false, BrushStep::Paint { finished: input.primary_released })
    }
}

/// A cancelled stroke lasts until release: a frame that releases (or
/// presses) the button without Escape always lets the brush work again.
pub proof fn lemma_release_ends_the_hold(held: bool, input: BrushInput)
    requires
        !input.escape,
        input.primary_released || input.primary_pressed,
    ensures
        spec_brush_step(held, input).1 is Paint,
        !spec_brush_step(held, input).0,
{
}

/// What a frame does to a drag of an annotation's gizmo.
#[derive(Debug, Clone, Copy, PartialEq, Eq, Structural)]
pub enum GizmoDragStep {
    /// Escape: the annotation gets back its transform from the drag's start.
    Revert,
    /// Release: the drag ends in one undo step.
    Commit,
    /// The button is held: the transform follows the pointer.
    Follow,
    /// Nothing for the drag this frame.
    Idle,
}

/// The step of a gizmo drag: Escape wins over a release, a release over a
/// held button.
pub fn gizmo_drag_step(escape: bool, released: bool, down: bool) -> (r: GizmoDragStep)
    ensures
        r == (if escape {
            GizmoDragStep::Revert
        } else if released {
            GizmoDragStep::Commit
        } else if down {
            GizmoDragStep::Follow
        } else {
            GizmoDragStep::Idle
        }),
{
    if escape {
        GizmoDragStep::Revert
    } else if released {
        GizmoDragStep::Commit
    } else if down {
        GizmoDragStep::Follow
    } else {
        GizmoDragStep::Idle
    }
}

/// Whether the gizmo of the selected annotation is offered: the annotations
/// are not locked as a collection and the annotation itself is not locked.
pub fn annotation_gizmo_available(collection_locked: bool, selected: Option<bool>) -> (r: bool)
    ensures
        r == (!collection_locked && selected == Some(false)),
{
    !collection_locked && match selected {
        Some(locked) => !locked,
        None => false,
    }
}

} // verus!
