use vstd::prelude::*;
use vstd::string::*;

use crate::icons::PetuniaIcon;
use crate::text::{concat, joined, str_eq};

verus! {

/// Group of the paint palette. The order of the groups is the order of the column.
#[derive(Debug, Clone, Copy, PartialEq, Eq, Structural)]
pub enum PaintToolSection {
    /// Brushes that stamp paint (the eraser included).
    Brushes,
    /// Shape and fill tools.
    Shapes,
    /// Color sampling.
    Sample,
}

impl PaintToolSection {
    /// The groups in palette order.
    pub const ALL: [PaintToolSection; 3] = [PaintToolSection::Brushes, PaintToolSection::Shapes, PaintToolSection::Sample];

    pub open spec fn spec_key(self) -> Seq<char> {
        match self {
            PaintToolSection::Brushes => "brushes"@,
            PaintToolSection::Shapes => "shapes"@,
            PaintToolSection::Sample => "sample"@,
        }
    }

    /// Stable key of the group (scope of the grid ids).
    pub fn key(self) -> (r: &'static str)
        ensures
            r@ == self.spec_key(),
    {
        match self {
            PaintToolSection::Brushes => "brushes",
            PaintToolSection::Shapes => "shapes",
            PaintToolSection::Sample => "sample",
        }
    }

    pub open spec fn spec_label_key(self) -> Seq<char> {
        match self {
            PaintToolSection::Brushes => "paint.tool_section_brushes"@,
            PaintToolSection::Shapes => "paint.tool_section_shapes"@,
            PaintToolSection::Sample => "paint.tool_section_sample"@,
        }
    }

    /// Translation key of the group's name (tooltip and accessibility).
    pub fn label_key(self) -> (r: &'static str)
        ensures
            r@ == self.spec_label_key(),
    {
        match self {
            PaintToolSection::Brushes => "paint.tool_section_brushes",
            PaintToolSection::Shapes => "paint.tool_section_shapes",
            PaintToolSection::Sample => "paint.tool_section_sample",
        }
    }
}

/// A tool of the paint palette.
pub struct PaintTool {
    /// The persisted brush index (`paint_brush_kind`); [`brush_type_of`] maps
    /// it to the engine's brush and must not change without a project migration.
    pub kind: usize,
    pub section: PaintToolSection,
    pub icon: PetuniaIcon,
    pub label_key: &'static str,
}

pub open spec fn paint_tool(kind: usize, section: PaintToolSection, icon: PetuniaIcon, label_key: &'static str) -> PaintTool {
    PaintTool { kind, section, icon, label_key }
}

/// The paint palette in column order.
pub open spec fn canonical_paint_tool_seq() -> Seq<PaintTool> {
    seq![
        paint_tool(0, PaintToolSection::Brushes, PetuniaIcon::PaintBrush, "paint.brush_pixel"),
        paint_tool(1, PaintToolSection::Brushes, PetuniaIcon::PaintBrush, "paint.brush_soft"),
        paint_tool(7, PaintToolSection::Brushes, PetuniaIcon::PaintBrush, "paint.brush_airbrush"),
        paint_tool(2, PaintToolSection::Brushes, PetuniaIcon::PaintEraser, "paint.brush_eraser"),
        paint_tool(5, PaintToolSection::Shapes, PetuniaIcon::PaintLine, "paint.brush_line"),
        paint_tool(6, PaintToolSection::Shapes, PetuniaIcon::PaintRect, "paint.brush_rect"),
        paint_tool(3, PaintToolSection::Shapes, PetuniaIcon::PaintFill, "paint.brush_fill"),
        paint_tool(4, PaintToolSection::Sample, PetuniaIcon::PaintPicker, "paint.brush_picker"),
    ]
}

/// Canonical content of the paint palette (order of the left column).
pub fn canonical_paint_tools() -> (r: Vec<PaintTool>)
    ensures
        r@ == canonical_paint_tool_seq(),
{
    let r = vec![
        PaintTool { kind: 0, section: PaintToolSection::Brushes, icon: PetuniaIcon::PaintBrush, label_key: "paint.brush_pixel" },
        PaintTool { kind: 1, section: PaintToolSection::Brushes, icon: PetuniaIcon::PaintBrush, label_key: "paint.brush_soft" },
        PaintTool { kind: 7, section: PaintToolSection::Brushes, icon: PetuniaIcon::PaintBrush, label_key: "paint.brush_airbrush" },
        PaintTool { kind: 2, section: PaintToolSection::Brushes, icon: PetuniaIcon::PaintEraser, label_key: "paint.brush_eraser" },
        PaintTool { kind: 5, section: PaintToolSection::Shapes, icon: PetuniaIcon::PaintLine, label_key: "paint.brush_line" },
        PaintTool { kind: 6, section: PaintToolSection::Shapes, icon: PetuniaIcon::PaintRect, label_key: "paint.brush_rect" },
        PaintTool { kind: 3, section: PaintToolSection::Shapes, icon: PetuniaIcon::PaintFill, label_key: "paint.brush_fill" },
        PaintTool { kind: 4, section: PaintToolSection::Sample, icon: PetuniaIcon::PaintPicker, label_key: "paint.brush_picker" },
    ];
    assert(r@ =~= canonical_paint_tool_seq());
    r
}

/// The persisted brush index of each palette tool, in palette order.
pub open spec fn paint_kinds() -> Seq<usize> {
    canonical_paint_tool_seq().map_values(|t: PaintTool| t.kind)
}

/// The group of each palette tool, in palette order.
pub open spec fn paint_sections() -> Seq<PaintToolSection> {
    canonical_paint_tool_seq().map_values(|t: PaintTool| t.section)
}

/// The palette holds each persisted brush index 0..=7 exactly once, and every
/// group has at least one tool (an empty group would draw a stray separator).
pub proof fn lemma_paint_palette_covers_each_brush_once()
    ensures
        paint_kinds().len() == 8,
        forall|kind: usize| kind < 8 ==> #[trigger] paint_kinds().contains(kind),
        forall|i: int| 0 <= i < 8 ==> #[trigger] paint_kinds()[i] < 8,
        paint_kinds().no_duplicates(),
        forall|s: PaintToolSection| #[trigger] paint_sections().contains(s),
{
    let k = paint_kinds();
    assert(k =~= seq![0usize, 1, 7, 2, 5, 6, 3, 4]);
    assert forall|kind: usize| kind < 8 implies #[trigger] k.contains(kind) by {
        if kind == 0 { assert(k[0] == kind); }
        else if kind == 1 { assert(k[1] == kind); }
        else if kind == 7 { assert(k[2] == kind); }
        else if kind == 2 { assert(k[3] == kind); }
        else if kind == 5 { assert(k[4] == kind); }
        else if kind == 6 { assert(k[5] == kind); }
        else if kind == 3 { assert(k[6] == kind); }
        else { assert(k[7] == kind); }
    }
    let secs = paint_sections();
    assert forall|s: PaintToolSection| #[trigger] secs.contains(s) by {
        match s {
            PaintToolSection::Brushes => assert(secs[0] == s),
            PaintToolSection::Shapes => assert(secs[4] == s),
            PaintToolSection::Sample => assert(secs[7] == s),
        }
    }
}

/// The positions in the palette of the tools of one group, in order.
pub open spec fn section_positions(tools: Seq<PaintTool>, section: PaintToolSection) -> Seq<usize>
    decreases tools.len(),
{
    if tools.len() == 0 {
        Seq::empty()
    } else {
        let prev = section_positions(tools.drop_last(), section);
        if tools.last().section == section { prev.push((tools.len() - 1) as usize) } else { prev }
    }
}

/// The palette positions of the tools of `section` (each group is its own grid).
pub fn section_tool_indices(tools: &Vec<PaintTool>, section: PaintToolSection) -> (r: Vec<usize>)
    ensures
        r@ == section_positions(tools@, section),
{
    let mut r: Vec<usize> = Vec::new();
    let mut i: usize = 0;
    while i < tools.len()
        invariant
            i <= tools.len(),
            r@ == section_positions(tools@.subrange(0, i as int), section),
        decreases tools.len() - i,
    {
        assert(tools@.subrange(0, i + 1).drop_last() =~= tools@.subrange(0, i as int));
        if tools[i].section == section {
            r.push(i);
        }
        i = i + 1;
    }
    assert(tools@.subrange(0, tools@.len() as int) =~= tools@);
    r
}

/// Whether a palette button shows as selected: the paint tool is active
/// with that brush.
pub fn paint_tool_is_active(active_tool: &str, brush_kind: usize, tool_kind: usize) -> (r: bool)
    ensures
        r == (active_tool@ == "paint"@ && brush_kind == tool_kind),
{
    str_eq(active_tool, "paint") && brush_kind == tool_kind
}

/// The engine's brush types.
#[derive(Debug, Clone, Copy, PartialEq, Eq, Structural)]
pub enum BrushType {
    Pixel,
    Soft,
    Eraser,
    Fill,
    Eyedropper,
    Line,
    Rectangle,
    Airbrush,
}

pub open spec fn spec_brush_type_of(kind: usize) -> BrushType {
    if kind == 1 {
        BrushType::Soft
    } else if kind == 2 {
        BrushType::Eraser
    } else if kind == 3 {
        BrushType::Fill
    } else if kind == 4 {
        BrushType::Eyedropper
    } else if kind == 5 {
        BrushType::Line
    } else if kind == 6 {
        BrushType::Rectangle
    } else if kind == 7 {
        BrushType::Airbrush
    } else {
        BrushType::Pixel
    }
}

/// Brush type of the persisted index `paint_brush_kind`; an index out of
/// range (a legacy or damaged project) is the pixel brush, never a panic.
pub fn brush_type_of(kind: usize) -> (r: BrushType)
    ensures
        r == spec_brush_type_of(kind),
{
    match kind {
        1 => BrushType::Soft,
        2 => BrushType::Eraser,
        3 => BrushType::Fill,
        4 => BrushType::Eyedropper,
        5 => BrushType::Line,
        6 => BrushType::Rectangle,
        7 => BrushType::Airbrush,
        _ => BrushType::Pixel,
    }
}

/// Distinct persisted indices of the palette select distinct brushes.
pub proof fn lemma_brush_types_are_distinct(a: usize, b: usize)
    requires
        a < 8,
        b < 8,
        a != b,
    ensures
        spec_brush_type_of(a) != spec_brush_type_of(b),
{
}

// ---------------------------------------------------------------- effects

/// How many non-destructive effects the paint contract has.
pub const EFFECT_COUNT: usize = 7;

pub open spec fn spec_effect_name_key(index: usize) -> Seq<char> {
    if index == 0 {
        "paint.effect_grain"@
    } else if index == 1 {
        "paint.effect_levels"@
    } else if index == 2 {
        "paint.effect_brightness_contrast"@
    } else if index == 3 {
        "paint.effect_hue_saturation"@
    } else if index == 4 {
        "paint.effect_pixelate"@
    } else if index == 5 {
        "paint.effect_posterize"@
    } else {
        "paint.effect_invert"@
    }
}

/// Translation key of the effect at `index` of the selector; an index past
/// the end is the last effect of the contract.
pub fn effect_name_key(index: usize) -> (r: &'static str)
    ensures
        r@ == spec_effect_name_key(index),
{
    match index {
        0 => "paint.effect_grain",
        1 => "paint.effect_levels",
        2 => "paint.effect_brightness_contrast",
        3 => "paint.effect_hue_saturation",
        4 => "paint.effect_pixelate",
        5 => "paint.effect_posterize",
        _ => "paint.effect_invert",
    }
}

/// Every effect key lies in the `paint.effect_` namespace.
pub proof fn lemma_effect_keys_share_the_namespace(index: usize)
    ensures
        spec_effect_name_key(index).len() > 13,
        spec_effect_name_key(index).subrange(0, 13) == "paint.effect_"@,
{
    reveal_strlit("paint.effect_");
    reveal_strlit("paint.effect_grain");
    reveal_strlit("paint.effect_levels");
    reveal_strlit("paint.effect_brightness_contrast");
    reveal_strlit("paint.effect_hue_saturation");
    reveal_strlit("paint.effect_pixelate");
    reveal_strlit("paint.effect_posterize");
    reveal_strlit("paint.effect_invert");
    assert(spec_effect_name_key(index).subrange(0, 13) =~= "paint.effect_"@);
}

/// The effect the selector adds (its index clamped to the last effect).
pub fn effect_choice(index: usize) -> (r: usize)
    ensures
        r == (if index < EFFECT_COUNT { index } else { (EFFECT_COUNT - 1) as usize }),
{
    if index < EFFECT_COUNT {
        index
    } else {
        EFFECT_COUNT - 1
    }
}

// ---------------------------------------------------------------- layers

/// How a layer is blended onto the ones below it.
#[derive(Debug, Clone, Copy, PartialEq, Eq, Structural)]
pub enum LayerBlendMode {
    Normal,
    Multiply,
    Add,
    Screen,
}

/// Blend modes offered by the selector, in display order. The translation
/// keys ([`blend_key`]) and the row labels follow this order.
pub const BLEND_MODES: [LayerBlendMode; 4] = [LayerBlendMode::Normal, LayerBlendMode::Multiply, LayerBlendMode::Add, LayerBlendMode::Screen];

pub open spec fn spec_blend_key(mode: LayerBlendMode) -> Seq<char> {
    match mode {
        LayerBlendMode::Normal => "paint.blend_normal"@,
        LayerBlendMode::Multiply => "paint.blend_multiply"@,
        LayerBlendMode::Add => "paint.blend_add"@,
        LayerBlendMode::Screen => "paint.blend_screen"@,
    }
}

/// Translation key of a blend mode.
pub fn blend_key(mode: LayerBlendMode) -> (r: &'static str)
    ensures
        r@ == spec_blend_key(mode),
{
    match mode {
        LayerBlendMode::Normal => "paint.blend_normal",
        LayerBlendMode::Multiply => "paint.blend_multiply",
        LayerBlendMode::Add => "paint.blend_add",
        LayerBlendMode::Screen => "paint.blend_screen",
    }
}

pub open spec fn spec_blend_index(mode: LayerBlendMode) -> usize {
    match mode {
        LayerBlendMode::Normal => 0,
        LayerBlendMode::Multiply => 1,
        LayerBlendMode::Add => 2,
        LayerBlendMode::Screen => 3,
    }
}

/// Position of the blend mode in [`BLEND_MODES`].
pub fn blend_index(mode: LayerBlendMode) -> (r: usize)
    ensures
        r == spec_blend_index(mode),
        r < 4,
        BLEND_MODES@[r as int] == mode,
{
    let modes = BLEND_MODES;
    let mut i: usize = 0;
    while i < 4
        invariant
            i <= 4,
            modes@ == BLEND_MODES@,
            forall|j: int| 0 <= j < i ==> modes@[j] != mode,
        decreases 4 - i,
    {
        if modes[i] == mode {
            return i;
        }
        i = i + 1;
    }
    0
}

/// The selector order and the index agree: the mode at position `i` of
/// [`BLEND_MODES`] has index `i`.
pub proof fn lemma_blend_order_round_trips(i: int)
    requires
        0 <= i < 4,
    ensures
        spec_blend_index(BLEND_MODES@[i]) == i,
{
}

/// Title of a layer row: the name, marked `fx · ` for an effect layer.
pub fn layer_title(name: &str, is_effect: bool) -> (r: String)
    ensures
        is_effect ==> r@ == "fx · "@ + name@,
        !is_effect ==> r@ == name@,
{
    if is_effect {
        let parts = vec!["fx · ", name];
        let r = concat(&parts);
        proof {
            reveal_with_fuel(joined, 3);
            assert(parts@.drop_last().drop_last() =~= Seq::<&str>::empty());
            assert(r@ =~= "fx · "@ + name@);
        }
        r
    } else {
        String::from_str(name)
    }
}

/// Whether the active layer can be deleted: the stack keeps at least one layer.
pub fn can_delete_layer(layer_count: usize) -> (r: bool)
    ensures
        r == (layer_count > 1),
{
    layer_count > 1
}

/// Size of a new raster layer: the canvas size, or 256×256 without a canvas.
pub fn new_layer_size(canvas_w: u32, canvas_h: u32) -> (r: (u32, u32))
    ensures
        r == (if canvas_w == 0 { (256u32, 256u32) } else { (canvas_w, canvas_h) }),
{
    if canvas_w == 0 {
        (256, 256)
    } else {
        (canvas_w, canvas_h)
    }
}

/// The kinds of edit that the layer list collects during a frame.
#[derive(Debug, Clone, Copy, PartialEq, Eq, Structural)]
pub enum LayerActionKind {
    Activate,
    ToggleVisible,
    Opacity,
    Blend,
    Rename,
    Effect,
    Reorder,
    Delete,
    Duplicate,
    AddEffect,
}

/// Whether the frame's layer edits open an undo step: any edit but an
/// opacity change does (the opacity slider stamps its own step when the drag
/// starts, so a drag is one step).
pub fn needs_checkpoint(actions: &Vec<LayerActionKind>) -> (r: bool)
    ensures
        r == exists|i: int| 0 <= i < actions@.len() && #[trigger] actions@[i] != LayerActionKind::Opacity,
{
    let mut i: usize = 0;
    while i < actions.len()
        invariant
            i <= actions.len(),
            forall|j: int| 0 <= j < i ==> actions@[j] == LayerActionKind::Opacity,
        decreases actions.len() - i,
    {
        if actions[i] != LayerActionKind::Opacity {
            return true;
        }
        i = i + 1;
    }
    false
}

/// First position of `id` in `ids`.
pub open spec fn first_position(ids: Seq<u128>, id: u128) -> Option<int>
    decreases ids.len(),
{
    if ids.len() == 0 {
        None
    } else {
        match first_position(ids.drop_last(), id) {
            Some(p) => Some(p),
            None => if ids.last() == id { Some(ids.len() - 1) } else { None },
        }
    }
}

/// The positions in `layers` of the ids of `order`, in that order (ids not in
/// the stack are skipped).
pub open spec fn order_positions(layers: Seq<u128>, order: Seq<u128>) -> Seq<usize>
    decreases order.len(),
{
    if order.len() == 0 {
        Seq::empty()
    } else {
        let prev = order_positions(layers, order.drop_last());
        match first_position(layers, order.last()) {
            Some(p) => prev.push(p as usize),
            None => prev,
        }
    }
}

fn position_of(ids: &Vec<u128>, id: u128) -> (r: Option<usize>)
    ensures
        r matches Some(p) ==> first_position(ids@, id) == Some(p as int),
        r is None ==> first_position(ids@, id) is None,
{
    let mut i: usize = 0;
    while i < ids.len()
        invariant
            i <= ids.len(),
            first_position(ids@.subrange(0, i as int), id) is None,
        decreases ids.len() - i,
    {
        assert(ids@.subrange(0, i + 1).drop_last() =~= ids@.subrange(0, i as int));
        if ids[i] == id {
            proof { lemma_first_position_prefix(ids@, i as int + 1, id); }
            return Some(i);
        }
        i = i + 1;
    }
    assert(ids@.subrange(0, ids@.len() as int) =~= ids@);
    None
}

proof fn lemma_first_position_prefix(ids: Seq<u128>, n: int, id: u128)
    requires
        0 <= n <= ids.len(),
        first_position(ids.subrange(0, n), id) is Some,
    ensures
        first_position(ids, id) == first_position(ids.subrange(0, n), id),
    decreases ids.len() - n,
{
    if n < ids.len() {
        assert(ids.subrange(0, n + 1).drop_last() =~= ids.subrange(0, n));
        lemma_first_position_prefix(ids, n + 1, id);
    } else {
        assert(ids.subrange(0, n) =~= ids);
    }
}

/// The new stack order that a drag of the layer list produces: the stack
/// positions of the dragged ids, in their new order. `None` when they do not
/// account for every layer, in which case the stack stays as it was.
pub fn reorder_layers(layers: &Vec<u128>, order: &Vec<u128>) -> (r: Option<Vec<usize>>)
    ensures
        r matches Some(p) ==> p@ == order_positions(layers@, order@) && p@.len() == layers@.len(),
        r is None ==> order_positions(layers@, order@).len() != layers@.len(),
{
    let mut positions: Vec<usize> = Vec::new();
    let mut i: usize = 0;
    while i < order.len()
        invariant
            i <= order.len(),
            positions@ == order_positions(layers@, order@.subrange(0, i as int)),
        decreases order.len() - i,
    {
        assert(order@.subrange(0, i + 1).drop_last() =~= order@.subrange(0, i as int));
        match position_of(layers, order[i]) {
            Some(p) => positions.push(p),
            None => {},
        }
        i = i + 1;
    }
    assert(order@.subrange(0, order@.len() as int) =~= order@);
    if positions.len() == layers.len() {
        Some(positions)
    } else {
        None
    }
}

proof fn lemma_first_position(ids: Seq<u128>, id: u128)
    ensures
        first_position(ids, id) matches Some(p) ==> 0 <= p < ids.len() && ids[p] == id,
    decreases ids.len(),
{
    if ids.len() > 0 {
        lemma_first_position(ids.drop_last(), id);
    }
}

proof fn lemma_order_positions(layers: Seq<u128>, order: Seq<u128>)
    requires
        layers.len() <= usize::MAX,
    ensures
        forall|k: int| 0 <= k < order_positions(layers, order).len() ==>
            (#[trigger] order_positions(layers, order)[k]) < layers.len()
            && order.contains(layers[order_positions(layers, order)[k] as int]),
        order.no_duplicates() ==> order_positions(layers, order).no_duplicates(),
    decreases order.len(),
{
    if order.len() > 0 {
        let init = order.drop_last();
        lemma_order_positions(layers, init);
        lemma_first_position(layers, order.last());
        let prev = order_positions(layers, init);
        let r = order_positions(layers, order);
        match first_position(layers, order.last()) {
            Some(p) => {
                assert(r == prev.push(p as usize));
                assert((p as usize) as int == p);
            },
            None => assert(r == prev),
        }
        assert forall|k: int| 0 <= k < r.len() implies
            (#[trigger] r[k]) < layers.len() && order.contains(layers[r[k] as int]) by {
            if k < prev.len() {
                assert(r[k] == prev[k]);
                let m = choose|m: int| 0 <= m < init.len() && init[m] == layers[prev[k] as int];
                assert(order[m] == init[m]);
            } else {
                let p = first_position(layers, order.last())->0;
                assert(r[k] as int == p);
                assert(order[order.len() - 1] == order.last());
            }
        }
        if order.no_duplicates() {
            assert(init.no_duplicates());
            if let Some(p) = first_position(layers, order.last()) {
                assert forall|k: int| 0 <= k < prev.len() implies prev[k] != p as usize by {
                    let m = choose|m: int| 0 <= m < init.len() && init[m] == layers[prev[k] as int];
                    assert(init[m] == order[m]);
                    assert(order[m] != order[order.len() - 1]);
                }
            }
        }
    }
}

/// A drag that names every layer once yields a reordering of the stack: the
/// positions it produces are distinct and each one is a position of the stack.
pub proof fn lemma_reorder_is_a_permutation(layers: Seq<u128>, order: Seq<u128>)
    requires
        layers.len() <= usize::MAX,
        order.no_duplicates(),
        order_positions(layers, order).len() == layers.len(),
    ensures
        order_positions(layers, order).no_duplicates(),
        forall|k: int| 0 <= k < layers.len() ==> #[trigger] order_positions(layers, order)[k] < layers.len(),
{
    lemma_order_positions(layers, order);
}

} // verus!

verus! {

/// Whether a brush draws a shape (a line or a rectangle) from where the
/// press anchored it to where the release ends it, instead of dabs.
pub fn is_shape_brush(b: BrushType) -> (r: bool)
    ensures
        r == (b == BrushType::Line || b == BrushType::Rectangle),
{
    match b {
        BrushType::Line | BrushType::Rectangle => true,
        _ => false,
    }
}

} // verus!

verus! {

/// A row of the layer list: what the list shows and edits of a layer.
#[derive(Debug, Clone, PartialEq, Eq)]
pub struct LayerRow {
    pub id: u128,
    pub name: String,
    pub visible: bool,
    pub blend: LayerBlendMode,
}

/// An edit of one layer from its row.
#[derive(Debug, Clone, PartialEq, Eq)]
pub enum LayerRowEdit {
    ToggleVisible(u128),
    Blend(u128, LayerBlendMode),
    Rename(u128, String),
}

impl LayerRowEdit {
    pub open spec fn target(self) -> u128 {
        match self {
            LayerRowEdit::ToggleVisible(id) => id,
            LayerRowEdit::Blend(id, _) => id,
            LayerRowEdit::Rename(id, _) => id,
        }
    }
}

/// The ids of the rows, top to bottom.
pub open spec fn row_ids(rows: Seq<LayerRow>) -> Seq<u128> {
    rows.map_values(|r: LayerRow| r.id)
}

/// A row after an edit.
pub open spec fn edited_row(row: LayerRow, e: LayerRowEdit) -> LayerRow {
    match e {
        LayerRowEdit::ToggleVisible(_) => LayerRow { visible: !row.visible, ..row },
        LayerRowEdit::Blend(_, mode) => LayerRow { blend: mode, ..row },
        LayerRowEdit::Rename(_, name) => LayerRow { name, ..row },
    }
}

/// Applies a row edit to the first layer with its id; an id that is not in
/// the stack (a layer deleted in the same frame) changes nothing.
pub fn apply_row_edit(rows: &mut Vec<LayerRow>, e: LayerRowEdit)
    ensures
        match first_position(row_ids(old(rows)@), e.target()) {
            Some(p) => final(rows)@ == old(rows)@.update(p, edited_row(old(rows)@[p], e)),
            None => final(rows)@ == old(rows)@,
        },
{
    let mut ids: Vec<u128> = Vec::new();
    let mut i: usize = 0;
    while i < rows.len()
        invariant
            i <= rows.len(),
            ids@ == row_ids(rows@).subrange(0, i as int),
        decreases rows.len() - i,
    {
        ids.push(rows[i].id);
        assert(ids@ =~= row_ids(rows@).subrange(0, i + 1));
        i = i + 1;
    }
    assert(ids@ =~= row_ids(rows@));
    let target = match &e {
        LayerRowEdit::ToggleVisible(id) => *id,
        LayerRowEdit::Blend(id, _) => *id,
        LayerRowEdit::Rename(id, _) => *id,
    };
    match position_of(&ids, target) {
        Some(p) => {
            proof { lemma_first_position_in_bounds(ids@, target); }
            let row = LayerRow {
                id: rows[p].id,
                name: rows[p].name.clone(),
                visible: rows[p].visible,
                blend: rows[p].blend,
            };
            assert(row == rows@[p as int]);
            let updated = match e {
                LayerRowEdit::ToggleVisible(_) => LayerRow { visible: !row.visible, ..row },
                LayerRowEdit::Blend(_, mode) => LayerRow { blend: mode, ..row },
                LayerRowEdit::Rename(_, name) => LayerRow { name, ..row },
            };
            rows.set(p, updated);
        },
        None => {},
    }
}

proof fn lemma_first_position_in_bounds(ids: Seq<u128>, id: u128)
    ensures
        first_position(ids, id) matches Some(p) ==> 0 <= p < ids.len() && ids[p] == id,
    decreases ids.len(),
{
    if ids.len() > 0 {
        lemma_first_position_in_bounds(ids.drop_last(), id);
    }
}

} // verus!

verus! {

/// Which of the layer action buttons are enabled: duplicate needs an active
/// layer, delete needs more than one layer (and acts on the active one).
pub fn layer_buttons_enabled(has_active: bool, layer_count: usize) -> (r: (bool, bool))
    ensures
        r == (has_active, layer_count > 1),
{
    (has_active, layer_count > 1)
}

/// The eye button of a layer row: its icon and the key of its tooltip.
pub fn layer_visibility_button(visible: bool) -> (r: (PetuniaIcon, &'static str))
    ensures
        visible ==> r == (PetuniaIcon::Eye, "paint.layer_hide"),
        !visible ==> r == (PetuniaIcon::EyeHidden, "paint.layer_show"),
{
    if visible {
        (PetuniaIcon::Eye, "paint.layer_hide")
    } else {
        (PetuniaIcon::EyeHidden, "paint.layer_show")
    }
}

/// Whether a drag of the layer list changed the order (only then is a
/// reorder sent).
pub fn order_changed(before: &Vec<u128>, after: &Vec<u128>) -> (r: bool)
    ensures
        r == (before@ != after@),
{
    if before.len() != after.len() {
        return true;
    }
    let mut i: usize = 0;
    while i < before.len()
        invariant
            i <= before.len(),
            before.len() == after.len(),
            forall|k: int| 0 <= k < i ==> before@[k] == after@[k],
        decreases before.len() - i,
    {
        if before[i] != after[i] {
            return true;
        }
        i = i + 1;
    }
    assert(before@ =~= after@);
    false
}

/// How far a fill spreads.
#[derive(Debug, Clone, Copy, PartialEq, Eq, Structural)]
pub enum FillScope {
    ConnectedPixels,
    Face,
    SelectedFaces,
    UvIsland,
    Object,
}

/// The fill scopes the Fill brush offers, in order.
pub fn fill_scopes() -> (r: Vec<FillScope>)
    ensures
        r@ == seq![FillScope::ConnectedPixels, FillScope::Face, FillScope::SelectedFaces, FillScope::UvIsland, FillScope::Object],
{
    let r = vec![FillScope::ConnectedPixels, FillScope::Face, FillScope::SelectedFaces, FillScope::UvIsland, FillScope::Object];
    assert(r@ =~= seq![FillScope::ConnectedPixels, FillScope::Face, FillScope::SelectedFaces, FillScope::UvIsland, FillScope::Object]);
    r
}

} // verus!

verus! {

/// The square canvas sizes the canvas block offers, each with whether it is
/// the current size.
pub fn canvas_size_choices(width: u32, height: u32) -> (r: Vec<(u32, bool)>)
    ensures
        r@ == seq![64u32, 128u32, 256u32, 512u32, 1024u32].map_values(|side: u32| (side, width == side && height == side)),
{
    let sides: [u32; 5] = [64, 128, 256, 512, 1024];
    let ghost expected = seq![64u32, 128u32, 256u32, 512u32, 1024u32].map_values(|side: u32| (side, width == side && height == side));
    let mut r: Vec<(u32, bool)> = Vec::new();
    let mut i: usize = 0;
    while i < 5
        invariant
            i <= 5,
            sides@ == seq![64u32, 128u32, 256u32, 512u32, 1024u32],
            expected == seq![64u32, 128u32, 256u32, 512u32, 1024u32].map_values(|side: u32| (side, width == side && height == side)),
            r@ == expected.subrange(0, i as int),
        decreases 5 - i,
    {
        let side = sides[i];
        r.push((side, width == side && height == side));
        assert(r@ =~= expected.subrange(0, i + 1));
        i = i + 1;
    }
    assert(expected.subrange(0, 5) =~= expected);
    r
}

/// The size a click on a canvas size asks for: the square of that side,
/// unless the canvas already has it.
pub fn canvas_resize(width: u32, height: u32, side: u32) -> (r: Option<(u32, u32)>)
    ensures
        r == (if width == side && height == side { None } else { Some((side, side)) }),
{
    if width == side && height == side {
        None
    } else {
        Some((side, side))
    }
}

/// The texture channels of the canvas block, with the key of each label and
/// whether it can be painted (only the albedo for now).
pub fn texture_channels() -> (r: Vec<(&'static str, bool)>)
    ensures
        r@ == seq![
            ("paint.channel_albedo", true),
            ("paint.channel_normal", false),
            ("paint.channel_roughness", false),
            ("paint.channel_metallic", false),
            ("paint.channel_emission", false),
            ("paint.channel_height", false),
        ],
{
    let r = vec![
        ("paint.channel_albedo", true),
        ("paint.channel_normal", false),
        ("paint.channel_roughness", false),
        ("paint.channel_metallic", false),
        ("paint.channel_emission", false),
        ("paint.channel_height", false),
    ];
    assert(r@ =~= seq![
        ("paint.channel_albedo", true),
        ("paint.channel_normal", false),
        ("paint.channel_roughness", false),
        ("paint.channel_metallic", false),
        ("paint.channel_emission", false),
        ("paint.channel_height", false),
    ]);
    r
}

} // verus!
