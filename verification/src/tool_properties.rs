use vstd::prelude::*;
use vstd::string::*;

use crate::text::{concat, joined, str_eq};
use crate::tool_fields::ModalKind;
use crate::workspace::Workspace;

verus! {

/// Tools whose controls live in the viewport's Tool Properties card.
pub open spec fn has_tool_card(active_tool: Seq<char>) -> bool {
    active_tool == "transform"@ || active_tool == "move"@ || active_tool == "rotate"@
        || active_tool == "scale"@ || active_tool == "primitives"@ || active_tool == "extrude"@
        || active_tool == "inset"@ || active_tool == "bevel"@ || active_tool == "pushpull"@
        || active_tool == "slice"@ || active_tool == "subdivide"@ || active_tool == "draw_profile"@
        || active_tool == "merge"@ || active_tool == "connect"@ || active_tool == "dissolve"@
        || active_tool == "revolve"@
}

/// Whether the current modeling state owns a contextual Tool Properties card:
/// a running or pending session always does; otherwise the active tool decides.
pub fn supports(session_running: bool, has_pending: bool, active_tool: &str) -> (r: bool)
    ensures
        r == (session_running || has_pending || has_tool_card(active_tool@)),
{
    if session_running || has_pending {
        return true;
    }
    str_eq(active_tool, "transform") || str_eq(active_tool, "move") || str_eq(active_tool, "rotate")
        || str_eq(active_tool, "scale") || str_eq(active_tool, "primitives") || str_eq(active_tool, "extrude")
        || str_eq(active_tool, "inset") || str_eq(active_tool, "bevel") || str_eq(active_tool, "pushpull")
        || str_eq(active_tool, "slice") || str_eq(active_tool, "subdivide") || str_eq(active_tool, "draw_profile")
        || str_eq(active_tool, "merge") || str_eq(active_tool, "connect") || str_eq(active_tool, "dissolve")
        || str_eq(active_tool, "revolve")
}

/// The body of the Tool Properties card.
#[derive(Debug, Clone, Copy, PartialEq, Eq, Structural)]
pub enum ToolSurface {
    /// Numeric fields of the session (shared with the viewport transaction).
    Fields,
    UniversalTransform,
    Primitives,
    Subdivide,
    Slice,
    Connect,
    Merge,
    Dissolve,
    Revolve,
    DrawProfile,
}

pub open spec fn spec_tool_surface(session_or_pending: bool, active_tool: Seq<char>) -> Option<ToolSurface> {
    if session_or_pending {
        Some(ToolSurface::Fields)
    } else if active_tool == "move"@ || active_tool == "rotate"@ || active_tool == "scale"@
        || active_tool == "extrude"@ || active_tool == "inset"@ || active_tool == "bevel"@
        || active_tool == "pushpull"@ {
        Some(ToolSurface::Fields)
    } else if active_tool == "transform"@ {
        Some(ToolSurface::UniversalTransform)
    } else if active_tool == "primitives"@ {
        Some(ToolSurface::Primitives)
    } else if active_tool == "subdivide"@ {
        Some(ToolSurface::Subdivide)
    } else if active_tool == "slice"@ {
        Some(ToolSurface::Slice)
    } else if active_tool == "connect"@ {
        Some(ToolSurface::Connect)
    } else if active_tool == "merge"@ {
        Some(ToolSurface::Merge)
    } else if active_tool == "dissolve"@ {
        Some(ToolSurface::Dissolve)
    } else if active_tool == "revolve"@ {
        Some(ToolSurface::Revolve)
    } else if active_tool == "draw_profile"@ {
        Some(ToolSurface::DrawProfile)
    } else {
        None
    }
}

/// Which controls the card draws: a running or pending session always wins
/// (one transaction, one preview, one commit path), then the active tool.
pub fn tool_surface(session_or_pending: bool, active_tool: &str) -> (r: Option<ToolSurface>)
    ensures
        r == spec_tool_surface(session_or_pending, active_tool@),
{
    if session_or_pending {
        Some(ToolSurface::Fields)
    } else if str_eq(active_tool, "move") || str_eq(active_tool, "rotate") || str_eq(active_tool, "scale")
        || str_eq(active_tool, "extrude") || str_eq(active_tool, "inset") || str_eq(active_tool, "bevel")
        || str_eq(active_tool, "pushpull") {
        Some(ToolSurface::Fields)
    } else if str_eq(active_tool, "transform") {
        Some(ToolSurface::UniversalTransform)
    } else if str_eq(active_tool, "primitives") {
        Some(ToolSurface::Primitives)
    } else if str_eq(active_tool, "subdivide") {
        Some(ToolSurface::Subdivide)
    } else if str_eq(active_tool, "slice") {
        Some(ToolSurface::Slice)
    } else if str_eq(active_tool, "connect") {
        Some(ToolSurface::Connect)
    } else if str_eq(active_tool, "merge") {
        Some(ToolSurface::Merge)
    } else if str_eq(active_tool, "dissolve") {
        Some(ToolSurface::Dissolve)
    } else if str_eq(active_tool, "revolve") {
        Some(ToolSurface::Revolve)
    } else if str_eq(active_tool, "draw_profile") {
        Some(ToolSurface::DrawProfile)
    } else {
        None
    }
}

/// Every tool that owns a card has controls to draw in it.
pub proof fn lemma_supported_tools_have_a_surface(session_or_pending: bool, active_tool: Seq<char>)
    ensures
        session_or_pending || has_tool_card(active_tool) <==> spec_tool_surface(session_or_pending, active_tool) is Some,
{
}

/// Why a mesh operation is disabled: there is no mesh, or the object is not
/// in edit mode (translation keys).
pub fn edit_guard(has_mesh: bool, in_edit: bool) -> (r: Option<&'static str>)
    ensures
        !has_mesh ==> (r matches Some(k) && k@ == "actions.no_mesh"@),
        has_mesh && !in_edit ==> (r matches Some(k) && k@ == "actions.need_edit"@),
        has_mesh && in_edit ==> r is None,
{
    if !has_mesh {
        Some("actions.no_mesh")
    } else if !in_edit {
        Some("actions.need_edit")
    } else {
        None
    }
}

/// Why an operation on the selection is disabled: the edit guard, then an
/// empty selection (translation keys).
pub fn selection_guard(has_mesh: bool, in_edit: bool, selection_empty: bool) -> (r: Option<&'static str>)
    ensures
        !has_mesh ==> (r matches Some(k) && k@ == "actions.no_mesh"@),
        has_mesh && !in_edit ==> (r matches Some(k) && k@ == "actions.need_edit"@),
        has_mesh && in_edit && selection_empty ==> (r matches Some(k) && k@ == "actions.need_selection"@),
        has_mesh && in_edit && !selection_empty ==> r is None,
{
    match edit_guard(has_mesh, in_edit) {
        Some(reason) => Some(reason),
        None => if selection_empty {
            Some("actions.need_selection")
        } else {
            None
        },
    }
}

/// The floating card the viewport shows for the active tool.
#[derive(Debug, Clone, Copy, PartialEq, Eq, Structural)]
pub enum ToolCard {
    /// The collapsible brush card of the paint tool.
    Brush,
    /// The Tool Properties card of a modeling tool.
    Properties,
}

/// Which card the viewport shows: none while the active object is locked or
/// a primitive is being placed; the brush card for the paint tool; the Tool
/// Properties card in MODEL and PAINT when the modeling state owns one.
pub fn tool_card(
    active_locked: bool,
    placing_primitive: bool,
    active_tool: &str,
    workspace: Workspace,
    supported: bool,
) -> (r: Option<ToolCard>)
    ensures
        r == (if active_locked || placing_primitive {
            None
        } else if active_tool@ == "paint"@ {
            Some(ToolCard::Brush)
        } else if workspace != Workspace::Model && workspace != Workspace::Paint {
            None
        } else if !supported {
            None
        } else {
            Some(ToolCard::Properties)
        }),
{
    if active_locked || placing_primitive {
        None
    } else if str_eq(active_tool, "paint") {
        Some(ToolCard::Brush)
    } else if workspace != Workspace::Model && workspace != Workspace::Paint {
        None
    } else if !supported {
        None
    } else {
        Some(ToolCard::Properties)
    }
}

/// Where the card's title comes from.
#[derive(Debug, Clone, Copy, PartialEq, Eq, Structural)]
pub enum CardTitle {
    /// The name of this session's operation.
    Operation(ModalKind),
    /// The fixed title of the universal transform.
    UniversalTransform,
    /// The translated name of the active tool (`tools.<id>`), or its id.
    Tool,
}

/// The title of the Tool Properties card: the running session, else the
/// pending one, else the active tool.
pub fn card_title(running: Option<ModalKind>, pending: Option<ModalKind>, active_tool: &str) -> (r: CardTitle)
    ensures
        running matches Some(k) ==> r == CardTitle::Operation(k),
        running is None && pending is Some ==> r == CardTitle::Operation(pending->0),
        running is None && pending is None && active_tool@ == "transform"@ ==> r == CardTitle::UniversalTransform,
        running is None && pending is None && active_tool@ != "transform"@ ==> r == CardTitle::Tool,
{
    match running {
        Some(kind) => CardTitle::Operation(kind),
        None => match pending {
            Some(kind) => CardTitle::Operation(kind),
            None => if str_eq(active_tool, "transform") {
                CardTitle::UniversalTransform
            } else {
                CardTitle::Tool
            },
        },
    }
}

/// Translation key of a tool's name: `tools.<id>`.
pub fn tool_name_key(active_tool: &str) -> (r: String)
    ensures
        r@ == "tools."@ + active_tool@,
{
    let parts = vec!["tools.", active_tool];
    let r = concat(&parts);
    proof {
        reveal_with_fuel(joined, 3);
        assert(parts@.drop_last().drop_last() =~= Seq::<&str>::empty());
        assert(r@ =~= "tools."@ + active_tool@);
    }
    r
}

} // verus!

verus! {

/// Outside a session, every surface other than the numeric fields belongs to
/// exactly one tool: the card of a tool never draws another tool's controls,
/// and each such tool gets its own surface.
pub proof fn lemma_each_tool_has_its_own_surface(tool: Seq<char>)
    ensures
        spec_tool_surface(false, tool) == Some(ToolSurface::UniversalTransform) ==> tool == "transform"@,
        spec_tool_surface(false, tool) == Some(ToolSurface::Primitives) ==> tool == "primitives"@,
        spec_tool_surface(false, tool) == Some(ToolSurface::Subdivide) ==> tool == "subdivide"@,
        spec_tool_surface(false, tool) == Some(ToolSurface::Slice) ==> tool == "slice"@,
        spec_tool_surface(false, tool) == Some(ToolSurface::Connect) ==> tool == "connect"@,
        spec_tool_surface(false, tool) == Some(ToolSurface::Merge) ==> tool == "merge"@,
        spec_tool_surface(false, tool) == Some(ToolSurface::Dissolve) ==> tool == "dissolve"@,
        spec_tool_surface(false, tool) == Some(ToolSurface::Revolve) ==> tool == "revolve"@,
        spec_tool_surface(false, tool) == Some(ToolSurface::DrawProfile) ==> tool == "draw_profile"@,
        tool == "transform"@ ==> spec_tool_surface(false, tool) == Some(ToolSurface::UniversalTransform),
        tool == "primitives"@ ==> spec_tool_surface(false, tool) == Some(ToolSurface::Primitives),
        tool == "subdivide"@ ==> spec_tool_surface(false, tool) == Some(ToolSurface::Subdivide),
        tool == "slice"@ ==> spec_tool_surface(false, tool) == Some(ToolSurface::Slice),
        tool == "connect"@ ==> spec_tool_surface(false, tool) == Some(ToolSurface::Connect),
        tool == "merge"@ ==> spec_tool_surface(false, tool) == Some(ToolSurface::Merge),
        tool == "dissolve"@ ==> spec_tool_surface(false, tool) == Some(ToolSurface::Dissolve),
        tool == "revolve"@ ==> spec_tool_surface(false, tool) == Some(ToolSurface::Revolve),
        tool == "draw_profile"@ ==> spec_tool_surface(false, tool) == Some(ToolSurface::DrawProfile),
{
    reveal_strlit("move");
    reveal_strlit("rotate");
    reveal_strlit("scale");
    reveal_strlit("extrude");
    reveal_strlit("inset");
    reveal_strlit("bevel");
    reveal_strlit("pushpull");
    reveal_strlit("transform");
    reveal_strlit("primitives");
    reveal_strlit("subdivide");
    reveal_strlit("slice");
    reveal_strlit("connect");
    reveal_strlit("merge");
    reveal_strlit("dissolve");
    reveal_strlit("revolve");
    reveal_strlit("draw_profile");
    assert("move"@.len() == 4 && "move"@[0] == 'm' && "move"@[1] == 'o');
    assert("rotate"@.len() == 6 && "rotate"@[0] == 'r' && "rotate"@[1] == 'o');
    assert("scale"@.len() == 5 && "scale"@[0] == 's' && "scale"@[1] == 'c');
    assert("extrude"@.len() == 7 && "extrude"@[0] == 'e' && "extrude"@[1] == 'x');
    assert("inset"@.len() == 5 && "inset"@[0] == 'i' && "inset"@[1] == 'n');
    assert("bevel"@.len() == 5 && "bevel"@[0] == 'b' && "bevel"@[1] == 'e');
    assert("pushpull"@.len() == 8 && "pushpull"@[0] == 'p' && "pushpull"@[1] == 'u');
    assert("transform"@.len() == 9 && "transform"@[0] == 't' && "transform"@[1] == 'r');
    assert("primitives"@.len() == 10 && "primitives"@[0] == 'p' && "primitives"@[1] == 'r');
    assert("subdivide"@.len() == 9 && "subdivide"@[0] == 's' && "subdivide"@[1] == 'u');
    assert("slice"@.len() == 5 && "slice"@[0] == 's' && "slice"@[1] == 'l');
    assert("connect"@.len() == 7 && "connect"@[0] == 'c' && "connect"@[1] == 'o');
    assert("merge"@.len() == 5 && "merge"@[0] == 'm' && "merge"@[1] == 'e');
    assert("dissolve"@.len() == 8 && "dissolve"@[0] == 'd' && "dissolve"@[1] == 'i');
    assert("revolve"@.len() == 7 && "revolve"@[0] == 'r' && "revolve"@[1] == 'e');
    assert("draw_profile"@.len() == 12 && "draw_profile"@[0] == 'd' && "draw_profile"@[1] == 'r');
}

} // verus!

verus! {

/// A running or pending session always shows its numeric fields, whatever
/// the tool; outside a session the seven tools driven by a modal operator
/// show the fields too, and a tool without a card shows nothing.
pub proof fn lemma_sessions_and_operators_show_fields(tool: Seq<char>)
    ensures
        spec_tool_surface(true, tool) == Some(ToolSurface::Fields),
        tool == "move"@ || tool == "rotate"@ || tool == "scale"@ || tool == "extrude"@
            || tool == "inset"@ || tool == "bevel"@ || tool == "pushpull"@
            ==> spec_tool_surface(false, tool) == Some(ToolSurface::Fields),
        spec_tool_surface(false, tool) == Some(ToolSurface::Fields) ==>
            tool == "move"@ || tool == "rotate"@ || tool == "scale"@ || tool == "extrude"@
                || tool == "inset"@ || tool == "bevel"@ || tool == "pushpull"@,
        !has_tool_card(tool) ==> spec_tool_surface(false, tool) is None,
{
}

} // verus!
