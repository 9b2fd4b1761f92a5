use vstd::prelude::*;

use crate::toolbar::ToolbarConfig;

verus! {

/// Side of the window the context dock sits on.
#[derive(Debug, Clone, Copy, PartialEq, Eq, Structural)]
pub enum DockSide {
    Left,
    Right,
}

/// Arrangement of the two dock sections.
#[derive(Debug, Clone, Copy, PartialEq, Eq, Structural)]
pub enum DockOrientation {
    Stacked,
    SideBySide,
}

pub open spec fn spec_toggled_side(side: DockSide) -> DockSide {
    match side {
        DockSide::Left => DockSide::Right,
        DockSide::Right => DockSide::Left,
    }
}

pub open spec fn spec_toggled_orientation(orientation: DockOrientation) -> DockOrientation {
    match orientation {
        DockOrientation::Stacked => DockOrientation::SideBySide,
        DockOrientation::SideBySide => DockOrientation::Stacked,
    }
}

/// The side that the dock header's side button switches to.
pub fn toggled_side(side: DockSide) -> (r: DockSide)
    ensures
        r == spec_toggled_side(side),
{
    match side {
        DockSide::Left => DockSide::Right,
        DockSide::Right => DockSide::Left,
    }
}

/// The arrangement that the dock header's orientation button switches to.
pub fn toggled_orientation(orientation: DockOrientation) -> (r: DockOrientation)
    ensures
        r == spec_toggled_orientation(orientation),
{
    match orientation {
        DockOrientation::Stacked => DockOrientation::SideBySide,
        DockOrientation::SideBySide => DockOrientation::Stacked,
    }
}

/// Translation key of the side button's label.
pub fn dock_side_key(side: DockSide) -> (r: &'static str)
    ensures
        side == DockSide::Left ==> r@ == "dock.left"@,
        side == DockSide::Right ==> r@ == "dock.right"@,
{
    match side {
        DockSide::Left => "dock.left",
        DockSide::Right => "dock.right",
    }
}

/// Translation key of the orientation button's label.
pub fn dock_orientation_key(orientation: DockOrientation) -> (r: &'static str)
    ensures
        orientation == DockOrientation::Stacked ==> r@ == "dock.stacked"@,
        orientation == DockOrientation::SideBySide ==> r@ == "dock.side_by_side"@,
{
    match orientation {
        DockOrientation::Stacked => "dock.stacked",
        DockOrientation::SideBySide => "dock.side_by_side",
    }
}

/// How many rows of each kind the Scene tree lists.
pub struct SceneCounts {
    pub assets: usize,
    pub collections: usize,
    pub annotation_groups: usize,
    pub annotations: usize,
    pub measurements: usize,
    pub references: usize,
}

pub open spec fn scene_rows(c: SceneCounts) -> int {
    c.assets + c.collections + c.annotation_groups + c.annotations + c.measurements + c.references + 4
}

/// Rows of the dock's top section that its automatic height is estimated
/// from: the layer stack plus its header row in PAINT (one layer when the
/// active object has no stack), the Scene tree plus four fixed rows elsewhere.
pub fn dock_top_rows(layers_section: bool, layer_count: Option<usize>, counts: &SceneCounts) -> (r: usize)
    requires
        layers_section ==> (match layer_count { Some(n) => n < usize::MAX, None => true }),
        !layers_section ==> scene_rows(*counts) <= usize::MAX,
    ensures
        layers_section ==> r == (match layer_count { Some(n) => n + 1, None => 2 }),
        !layers_section ==> r == scene_rows(*counts),
{
    if layers_section {
        match layer_count {
            Some(n) => n + 1,
            None => 2,
        }
    } else {
        counts.assets + counts.collections + counts.annotation_groups + counts.annotations
            + counts.measurements + counts.references + 4
    }
}

/// Each press of a dock header button changes the dock, and a second press
/// restores it.
pub proof fn lemma_dock_toggles_are_involutions(side: DockSide, orientation: DockOrientation)
    ensures
        spec_toggled_side(side) != side,
        spec_toggled_side(spec_toggled_side(side)) == side,
        spec_toggled_orientation(orientation) != orientation,
        spec_toggled_orientation(spec_toggled_orientation(orientation)) == orientation,
{
}

} // verus!

verus! {

/// The layout preferences that the settings can restore (the divider
/// positions, which are fractions, are restored by the shell itself).
pub struct LayoutPrefs {
    pub properties_tab: String,
    pub uv_show_preview: bool,
    pub show_shelf: bool,
    pub toolbar: ToolbarConfig,
    pub dock_side: DockSide,
    pub dock_orientation: DockOrientation,
    pub scene_split_auto: bool,
    pub scene_search_open: bool,
    pub inspector_pinned: Option<u128>,
    pub inspector_search_open: bool,
    pub inspector_search: String,
    pub outliner_collapsed: bool,
    pub inspector_collapsed: bool,
}

/// "Reset workspace layout": both dock panels unfold; everything else stays.
pub fn reset_workspace_layout(p: &mut LayoutPrefs)
    ensures
        !final(p).outliner_collapsed,
        !final(p).inspector_collapsed,
        final(p).properties_tab == old(p).properties_tab,
        final(p).uv_show_preview == old(p).uv_show_preview,
        final(p).show_shelf == old(p).show_shelf,
        final(p).toolbar == old(p).toolbar,
        final(p).dock_side == old(p).dock_side,
        final(p).dock_orientation == old(p).dock_orientation,
        final(p).scene_split_auto == old(p).scene_split_auto,
        final(p).scene_search_open == old(p).scene_search_open,
        final(p).inspector_pinned == old(p).inspector_pinned,
        final(p).inspector_search_open == old(p).inspector_search_open,
        final(p).inspector_search == old(p).inspector_search,
{
    p.outliner_collapsed = false;
    p.inspector_collapsed = false;
}

/// The layout a fresh install starts with.
pub open spec fn is_default_layout(p: LayoutPrefs) -> bool {
    &&& p.properties_tab@ == "object"@
    &&& p.uv_show_preview
    &&& p.show_shelf
    &&& p.toolbar.order@.len() == 0
    &&& p.toolbar.hidden@.len() == 0
    &&& p.toolbar.columns == 1
    &&& p.dock_side == DockSide::Right
    &&& p.dock_orientation == DockOrientation::Stacked
    &&& p.scene_split_auto
    &&& !p.scene_search_open
    &&& p.inspector_pinned is None
    &&& !p.inspector_search_open
    &&& p.inspector_search@.len() == 0
    &&& !p.outliner_collapsed
    &&& !p.inspector_collapsed
}

/// "Reset all layouts": every layout preference back to its default: the
/// Object tab, the UV preview and the shelf shown, the canonical palette in
/// one column, the dock on the right and stacked, the scene split automatic,
/// nothing pinned, searches closed and empty, both panels unfolded.
pub fn reset_all_layouts(p: &mut LayoutPrefs)
    ensures
        is_default_layout(*final(p)),
{
    reset_workspace_layout(p);
    p.properties_tab = String::from_str("object");
    p.uv_show_preview = true;
    p.show_shelf = true;
    p.toolbar.reset();
    p.dock_side = DockSide::Right;
    p.dock_orientation = DockOrientation::Stacked;
    p.scene_split_auto = true;
    p.scene_search_open = false;
    p.inspector_pinned = None;
    p.inspector_search_open = false;
    p.inspector_search = String::new();
}

} // verus!

verus! {

/// The dock flags that the divider gestures change.
#[derive(Debug, Clone, Copy, PartialEq, Eq, Structural)]
pub struct DockFlags {
    /// The divider between the two dock sections follows the content.
    pub split_auto: bool,
    pub outliner_collapsed: bool,
    pub inspector_collapsed: bool,
}

/// A gesture on the divider between the dock sections.
#[derive(Debug, Clone, Copy, PartialEq, Eq, Structural)]
pub enum DividerGesture {
    /// A double click: back to automatic sizing.
    Equalize,
    /// A drag that moved the divider.
    Drag,
}

/// The dock after a divider gesture: a double click returns to automatic
/// sizing, a drag leaves it (the user chose where the sections meet); both
/// reopen the two sections.
pub fn after_divider_gesture(flags: DockFlags, gesture: DividerGesture) -> (r: DockFlags)
    ensures
        r.split_auto == (gesture == DividerGesture::Equalize),
        !r.outliner_collapsed,
        !r.inspector_collapsed,
{
    match gesture {
        DividerGesture::Equalize => DockFlags { split_auto: true, outliner_collapsed: false, inspector_collapsed: false },
        DividerGesture::Drag => DockFlags { split_auto: false, outliner_collapsed: false, inspector_collapsed: false },
    }
}

} // verus!
