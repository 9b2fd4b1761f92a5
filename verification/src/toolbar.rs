use vstd::prelude::*;

use crate::icons::PetuniaIcon;
use crate::text::{concat, contains_text, copy_strings, joined, same_texts, str_eq, texts};
use crate::tool_fields::ModalKind;
use vstd::string::*;

verus! {

/// Section of the model tool palette. Each section is drawn as its own grid.
#[derive(Debug, Clone, Copy, PartialEq, Eq, Structural)]
pub enum ToolbarSection {
    Primary,
    Inspect,
    Mesh,
}

impl ToolbarSection {
    pub open spec fn spec_key(self) -> Seq<char> {
        match self {
            ToolbarSection::Primary => "primary"@,
            ToolbarSection::Inspect => "inspect"@,
            ToolbarSection::Mesh => "mesh"@,
        }
    }

    /// Stable id key of the section (scope of the grid ids).
    pub fn key(self) -> (k: &'static str)
        ensures
            k@ == self.spec_key(),
    {
        match self {
            ToolbarSection::Primary => "primary",
            ToolbarSection::Inspect => "inspect",
            ToolbarSection::Mesh => "mesh",
        }
    }
}

/// One button of the model tool palette.
pub struct ToolbarEntry {
    pub id: &'static str,
    pub icon: PetuniaIcon,
    pub key: &'static str,
    pub label_key: &'static str,
    pub section: ToolbarSection,
    pub edit_only: bool,
}

pub open spec fn entry(
    id: &'static str,
    icon: PetuniaIcon,
    key: &'static str,
    label_key: &'static str,
    section: ToolbarSection,
    edit_only: bool,
) -> ToolbarEntry {
    ToolbarEntry { id, icon, key, label_key, section, edit_only }
}

/// The canonical order of the model palette. `select` and `transform` stand
/// for tool families whose children live in the family menu.
pub open spec fn canonical_entries() -> Seq<ToolbarEntry> {
    seq![
        entry("select", PetuniaIcon::SelectBox, "Q/B", "tools.select", ToolbarSection::Primary, false),
        entry("cursor_3d", PetuniaIcon::Cursor3D, "Shift+RMB", "tools.cursor_3d", ToolbarSection::Primary, false),
        entry("transform", PetuniaIcon::Transform, "T · G/R/S", "tools.transform", ToolbarSection::Primary, false),
        entry("measure", PetuniaIcon::Measure, "M", "tools.measure", ToolbarSection::Inspect, false),
        entry("annotate", PetuniaIcon::Annotate, "D", "tools.annotate", ToolbarSection::Inspect, false),
        entry("extrude", PetuniaIcon::Extrude, "E", "tools.extrude", ToolbarSection::Mesh, true),
        entry("inset", PetuniaIcon::Inset, "I", "tools.inset", ToolbarSection::Mesh, true),
        entry("bevel", PetuniaIcon::Bevel, "Ctrl+B", "tools.bevel", ToolbarSection::Mesh, true),
        entry("loop_cut", PetuniaIcon::LoopCut, "Ctrl+R", "tools.loop_cut", ToolbarSection::Mesh, true),
        entry("knife", PetuniaIcon::Knife, "K", "tools.knife", ToolbarSection::Mesh, true),
        entry("pushpull", PetuniaIcon::PushPull, "P", "tools.pushpull", ToolbarSection::Mesh, true),
        entry("slice", PetuniaIcon::Slice, "", "tools.slice", ToolbarSection::Mesh, true),
        entry("subdivide", PetuniaIcon::Subdivide, "W", "tools.subdivide", ToolbarSection::Mesh, true),
        entry("draw_profile", PetuniaIcon::DrawProfile, "Shift+P", "tools.draw_profile", ToolbarSection::Mesh, true),
        entry("merge", PetuniaIcon::Custom("merge"), "M", "tools.merge", ToolbarSection::Mesh, true),
    ]
}

/// Canonical order of the model palette.
pub fn canonical_toolbar_entries() -> (r: Vec<ToolbarEntry>)
    ensures
        r@ == canonical_entries(),
{
    let r = vec![
        ToolbarEntry { id: "select", icon: PetuniaIcon::SelectBox, key: "Q/B", label_key: "tools.select", section: ToolbarSection::Primary, edit_only: false },
        ToolbarEntry { id: "cursor_3d", icon: PetuniaIcon::Cursor3D, key: "Shift+RMB", label_key: "tools.cursor_3d", section: ToolbarSection::Primary, edit_only: false },
        ToolbarEntry { id: "transform", icon: PetuniaIcon::Transform, key: "T · G/R/S", label_key: "tools.transform", section: ToolbarSection::Primary, edit_only: false },
        ToolbarEntry { id: "measure", icon: PetuniaIcon::Measure, key: "M", label_key: "tools.measure", section: ToolbarSection::Inspect, edit_only: false },
        ToolbarEntry { id: "annotate", icon: PetuniaIcon::Annotate, key: "D", label_key: "tools.annotate", section: ToolbarSection::Inspect, edit_only: false },
        ToolbarEntry { id: "extrude", icon: PetuniaIcon::Extrude, key: "E", label_key: "tools.extrude", section: ToolbarSection::Mesh, edit_only: true },
        ToolbarEntry { id: "inset", icon: PetuniaIcon::Inset, key: "I", label_key: "tools.inset", section: ToolbarSection::Mesh, edit_only: true },
        ToolbarEntry { id: "bevel", icon: PetuniaIcon::Bevel, key: "Ctrl+B", label_key: "tools.bevel", section: ToolbarSection::Mesh, edit_only: true },
        ToolbarEntry { id: "loop_cut", icon: PetuniaIcon::LoopCut, key: "Ctrl+R", label_key: "tools.loop_cut", section: ToolbarSection::Mesh, edit_only: true },
        ToolbarEntry { id: "knife", icon: PetuniaIcon::Knife, key: "K", label_key: "tools.knife", section: ToolbarSection::Mesh, edit_only: true },
        ToolbarEntry { id: "pushpull", icon: PetuniaIcon::PushPull, key: "P", label_key: "tools.pushpull", section: ToolbarSection::Mesh, edit_only: true },
        ToolbarEntry { id: "slice", icon: PetuniaIcon::Slice, key: "", label_key: "tools.slice", section: ToolbarSection::Mesh, edit_only: true },
        ToolbarEntry { id: "subdivide", icon: PetuniaIcon::Subdivide, key: "W", label_key: "tools.subdivide", section: ToolbarSection::Mesh, edit_only: true },
        ToolbarEntry { id: "draw_profile", icon: PetuniaIcon::DrawProfile, key: "Shift+P", label_key: "tools.draw_profile", section: ToolbarSection::Mesh, edit_only: true },
        ToolbarEntry { id: "merge", icon: PetuniaIcon::Custom("merge"), key: "M", label_key: "tools.merge", section: ToolbarSection::Mesh, edit_only: true },
    ];
    assert(r@ =~= canonical_entries());
    r
}

/// A field-by-field copy of an entry.
pub fn clone_entry(e: &ToolbarEntry) -> (r: ToolbarEntry)
    ensures
        r == *e,
{
    ToolbarEntry {
        id: e.id,
        icon: e.icon,
        key: e.key,
        label_key: e.label_key,
        section: e.section,
        edit_only: e.edit_only,
    }
}


/// Ids of a list of entries.
pub open spec fn entry_ids(s: Seq<ToolbarEntry>) -> Seq<Seq<char>> {
    s.map_values(|e: ToolbarEntry| e.id@)
}

/// The first entry of `s` whose id is `id`.
pub open spec fn first_with_id(s: Seq<ToolbarEntry>, id: Seq<char>) -> Option<ToolbarEntry>
    decreases s.len(),
{
    if s.len() == 0 {
        None
    } else if s[0].id@ == id {
        Some(s[0])
    } else {
        first_with_id(s.drop_first(), id)
    }
}

/// `acc` followed by the canonical entry of each id of `rest` that names one,
/// in the order of `rest` (unknown ids are dropped).
pub open spec fn entries_by_order(acc: Seq<ToolbarEntry>, rest: Seq<Seq<char>>) -> Seq<ToolbarEntry>
    decreases rest.len(),
{
    if rest.len() == 0 {
        acc
    } else {
        let next = match first_with_id(canonical_entries(), rest[0]) {
            Some(e) => acc.push(e),
            None => acc,
        };
        entries_by_order(next, rest.drop_first())
    }
}

/// `acc` followed by each entry of `rest` whose id is not yet in it.
pub open spec fn append_missing(acc: Seq<ToolbarEntry>, rest: Seq<ToolbarEntry>) -> Seq<ToolbarEntry>
    decreases rest.len(),
{
    if rest.len() == 0 {
        acc
    } else {
        let next = if entry_ids(acc).contains(rest[0].id@) {
            acc
        } else {
            acc.push(rest[0])
        };
        append_missing(next, rest.drop_first())
    }
}

/// The palette in the user's order: the entries the order names first, then
/// the canonical entries it leaves out. An empty order is the canonical order.
pub open spec fn ordered_entries(order: Seq<Seq<char>>) -> Seq<ToolbarEntry> {
    if order.len() == 0 {
        canonical_entries()
    } else {
        append_missing(entries_by_order(seq![], order), canonical_entries())
    }
}

/// Whether an entry is drawn: not hidden by the user, and mesh-only tools
/// only in edit mode.
pub open spec fn entry_visible(e: ToolbarEntry, hidden: Seq<Seq<char>>, in_edit: bool) -> bool {
    !hidden.contains(e.id@) && (!e.edit_only || in_edit)
}

/// `acc` followed by the visible entries of `rest`, in order.
pub open spec fn keep_visible(
    acc: Seq<ToolbarEntry>,
    rest: Seq<ToolbarEntry>,
    hidden: Seq<Seq<char>>,
    in_edit: bool,
) -> Seq<ToolbarEntry>
    decreases rest.len(),
{
    if rest.len() == 0 {
        acc
    } else {
        let next = if entry_visible(rest[0], hidden, in_edit) {
            acc.push(rest[0])
        } else {
            acc
        };
        keep_visible(next, rest.drop_first(), hidden, in_edit)
    }
}

/// The entries the model palette draws.
pub open spec fn displayed_entries(order: Seq<Seq<char>>, hidden: Seq<Seq<char>>, in_edit: bool) -> Seq<ToolbarEntry> {
    keep_visible(seq![], ordered_entries(order), hidden, in_edit)
}

/// The canonical entry with the given id, if any.
pub fn find_canonical(canonical: &Vec<ToolbarEntry>, id: &str) -> (r: Option<ToolbarEntry>)
    requires
        canonical@ == canonical_entries(),
    ensures
        r == first_with_id(canonical_entries(), id@),
{
    let mut i: usize = 0;
    assert(canonical@.subrange(0, canonical@.len() as int) =~= canonical@);
    while i < canonical.len()
        invariant
            canonical@ == canonical_entries(),
            i <= canonical.len(),
            first_with_id(canonical_entries(), id@) == first_with_id(canonical@.subrange(i as int, canonical@.len() as int), id@),
        decreases canonical.len() - i,
    {
        let ghost rest = canonical@.subrange(i as int, canonical@.len() as int);
        assert(rest.drop_first() =~= canonical@.subrange(i + 1, canonical@.len() as int));
        if str_eq(canonical[i].id, id) {
            return Some(clone_entry(&canonical[i]));
        }
        i = i + 1;
    }
    None
}

/// Whether one of the entries has the given id.
fn has_entry_id(entries: &Vec<ToolbarEntry>, id: &str) -> (r: bool)
    ensures
        r == entry_ids(entries@).contains(id@),
{
    let mut i: usize = 0;
    while i < entries.len()
        invariant
            i <= entries.len(),
            forall|j: int| 0 <= j < i ==> entries@[j].id@ != id@,
        decreases entries.len() - i,
    {
        if str_eq(entries[i].id, id) {
            assert(entry_ids(entries@)[i as int] == id@);
            return true;
        }
        i = i + 1;
    }
    proof {
        if entry_ids(entries@).contains(id@) {
            let k = choose|k: int| 0 <= k < entry_ids(entries@).len() && entry_ids(entries@)[k] == id@;
            assert(entries@[k].id@ == id@);
        }
    }
    false
}

/// The entries of the model palette, in the user's order, without the hidden
/// ones, and without the mesh tools outside edit mode.
pub fn display_entries(order: &Vec<String>, hidden: &Vec<String>, in_edit: bool) -> (r: Vec<ToolbarEntry>)
    ensures
        r@ == displayed_entries(texts(order@), texts(hidden@), in_edit),
{
    let canonical = canonical_toolbar_entries();
    let mut ordered: Vec<ToolbarEntry>;
    if order.len() == 0 {
        ordered = canonical;
        assert(texts(order@) =~= Seq::<Seq<char>>::empty());
    } else {
        ordered = Vec::new();
        let mut i: usize = 0;
        assert(texts(order@).subrange(0, order@.len() as int) =~= texts(order@));
        assert(ordered@ =~= Seq::<ToolbarEntry>::empty());
        while i < order.len()
            invariant
                canonical@ == canonical_entries(),
                i <= order.len(),
                entries_by_order(seq![], texts(order@))
                    == entries_by_order(ordered@, texts(order@).subrange(i as int, order@.len() as int)),
            decreases order.len() - i,
        {
            let ghost rest = texts(order@).subrange(i as int, order@.len() as int);
            assert(rest.drop_first() =~= texts(order@).subrange(i + 1, order@.len() as int));
            assert(rest[0] == order@[i as int]@);
            match find_canonical(&canonical, order[i].as_str()) {
                Some(e) => ordered.push(e),
                None => {},
            }
            i = i + 1;
        }
        assert(texts(order@).subrange(order@.len() as int, order@.len() as int) =~= Seq::<Seq<char>>::empty());
        assert(ordered@ == entries_by_order(seq![], texts(order@)));
        assert(canonical@.subrange(0, canonical@.len() as int) =~= canonical@);
        let mut k: usize = 0;
        while k < canonical.len()
            invariant
                canonical@ == canonical_entries(),
                k <= canonical.len(),
                append_missing(entries_by_order(seq![], texts(order@)), canonical_entries())
                    == append_missing(ordered@, canonical@.subrange(k as int, canonical@.len() as int)),
            decreases canonical.len() - k,
        {
            let ghost rest = canonical@.subrange(k as int, canonical@.len() as int);
            assert(rest.drop_first() =~= canonical@.subrange(k + 1, canonical@.len() as int));
            if !has_entry_id(&ordered, canonical[k].id) {
                ordered.push(clone_entry(&canonical[k]));
            }
            k = k + 1;
        }
        assert(canonical@.subrange(canonical@.len() as int, canonical@.len() as int) =~= Seq::<ToolbarEntry>::empty());
    }
    let mut shown: Vec<ToolbarEntry> = Vec::new();
    let mut j: usize = 0;
    assert(ordered@.subrange(0, ordered@.len() as int) =~= ordered@);
    assert(shown@ =~= Seq::<ToolbarEntry>::empty());
    while j < ordered.len()
        invariant
            j <= ordered.len(),
            ordered@ == ordered_entries(texts(order@)),
            displayed_entries(texts(order@), texts(hidden@), in_edit)
                == keep_visible(shown@, ordered@.subrange(j as int, ordered@.len() as int), texts(hidden@), in_edit),
        decreases ordered.len() - j,
    {
        let ghost rest = ordered@.subrange(j as int, ordered@.len() as int);
        assert(rest.drop_first() =~= ordered@.subrange(j + 1, ordered@.len() as int));
        let e = &ordered[j];
        if !contains_text(hidden, e.id) && (!e.edit_only || in_edit) {
            shown.push(clone_entry(e));
        }
        j = j + 1;
    }
    assert(ordered@.subrange(ordered@.len() as int, ordered@.len() as int) =~= Seq::<ToolbarEntry>::empty());
    shown
}


// ---------------------------------------------------------------- activity

pub open spec fn spec_entry_is_active(active_tool: Seq<char>, entry_id: Seq<char>) -> bool {
    if entry_id == "select"@ {
        active_tool == "select"@ || active_tool == "select_box"@
    } else if entry_id == "transform"@ {
        active_tool == "transform"@ || active_tool == "move"@ || active_tool == "rotate"@
            || active_tool == "scale"@
    } else {
        active_tool == entry_id
    }
}

/// Whether the palette button of `entry_id` shows as selected: a family
/// button is selected while any tool of its family is active.
pub fn entry_is_active(active_tool: &str, entry_id: &str) -> (r: bool)
    ensures
        r == spec_entry_is_active(active_tool@, entry_id@),
{
    if str_eq(entry_id, "select") {
        str_eq(active_tool, "select") || str_eq(active_tool, "select_box")
    } else if str_eq(entry_id, "transform") {
        str_eq(active_tool, "transform") || str_eq(active_tool, "move") || str_eq(active_tool, "rotate")
            || str_eq(active_tool, "scale")
    } else {
        str_eq(active_tool, entry_id)
    }
}

/// Whether `id` names a mesh-only tool of the canonical palette.
pub open spec fn is_edit_only_tool(id: Seq<char>) -> bool {
    exists|k: int| 0 <= k < canonical_entries().len() && canonical_entries()[k].edit_only
        && #[trigger] canonical_entries()[k].id@ == id
}

/// Whether the active tool must fall back to `select`: a mesh-only tool
/// cannot stay active outside edit mode.
pub fn resets_to_select(in_edit: bool, active_tool: &str) -> (r: bool)
    ensures
        r == (!in_edit && is_edit_only_tool(active_tool@)),
{
    if in_edit {
        return false;
    }
    let canonical = canonical_toolbar_entries();
    let mut i: usize = 0;
    while i < canonical.len()
        invariant
            !in_edit,
            canonical@ == canonical_entries(),
            i <= canonical.len(),
            forall|k: int| 0 <= k < i ==> !(canonical_entries()[k].edit_only && canonical_entries()[k].id@ == active_tool@),
        decreases canonical.len() - i,
    {
        if canonical[i].edit_only && str_eq(canonical[i].id, active_tool) {
            assert(canonical_entries()[i as int].id@ == active_tool@);
            assert(is_edit_only_tool(active_tool@));
            return true;
        }
        i = i + 1;
    }
    false
}

pub open spec fn spec_transform_child(active_tool: Seq<char>) -> (&'static str, PetuniaIcon, &'static str, &'static str) {
    if active_tool == "move"@ {
        ("move", PetuniaIcon::Move, "tools.move", "G")
    } else if active_tool == "rotate"@ {
        ("rotate", PetuniaIcon::Rotate, "tools.rotate", "R")
    } else if active_tool == "scale"@ {
        ("scale", PetuniaIcon::Scale, "tools.scale", "S")
    } else {
        ("transform", PetuniaIcon::Transform, "tools.transform", "T")
    }
}

/// The member of the transform family that its palette button stands for:
/// id, icon, label key and shortcut.
pub fn transform_child(active_tool: &str) -> (r: (&'static str, PetuniaIcon, &'static str, &'static str))
    ensures
        r == spec_transform_child(active_tool@),
{
    if str_eq(active_tool, "move") {
        ("move", PetuniaIcon::Move, "tools.move", "G")
    } else if str_eq(active_tool, "rotate") {
        ("rotate", PetuniaIcon::Rotate, "tools.rotate", "R")
    } else if str_eq(active_tool, "scale") {
        ("scale", PetuniaIcon::Scale, "tools.scale", "S")
    } else {
        ("transform", PetuniaIcon::Transform, "tools.transform", "T")
    }
}

pub open spec fn spec_transform_gizmo(id: Seq<char>) -> Option<ModalKind> {
    if id == "move"@ {
        Some(ModalKind::Move)
    } else if id == "rotate"@ {
        Some(ModalKind::Rotate)
    } else if id == "scale"@ {
        Some(ModalKind::Scale)
    } else {
        None
    }
}

/// The gizmo mode that activating a transform family member selects
/// (`None`: the universal transform keeps the current gizmo).
pub fn transform_gizmo(id: &str) -> (r: Option<ModalKind>)
    ensures
        r == spec_transform_gizmo(id@),
{
    if str_eq(id, "move") {
        Some(ModalKind::Move)
    } else if str_eq(id, "rotate") {
        Some(ModalKind::Rotate)
    } else if str_eq(id, "scale") {
        Some(ModalKind::Scale)
    } else {
        None
    }
}

// ---------------------------------------------------------------- hints

/// Tooltip of a palette button: the label, then the shortcut when it has one.
pub fn entry_hint(label: &str, key: &str) -> (r: String)
    ensures
        key@.len() == 0 ==> r@ == label@,
        key@.len() != 0 ==> r@ == label@ + " · ["@ + key@ + "]"@,
{
    if key.is_empty() {
        String::from_str(label)
    } else {
        let parts = vec![label, " · [", key, "]"];
        let r = concat(&parts);
        proof {
            reveal_with_fuel(joined, 5);
            assert(parts@.drop_last().drop_last().drop_last().drop_last() =~= Seq::<&str>::empty());
            assert(r@ =~= label@ + " · ["@ + key@ + "]"@);
        }
        r
    }
}

/// Tooltip of a family button: label and shortcut, and, when the menu arrow
/// does not fit, how to open the family menu (`family_hint`).
pub fn group_hint(label: &str, key: &str, chevron: bool, family_hint: &str) -> (r: String)
    ensures
        chevron ==> r@ == label@ + " · ["@ + key@ + "]"@,
        !chevron ==> r@ == label@ + " · ["@ + key@ + "] · "@ + family_hint@,
{
    if chevron {
        let parts = vec![label, " · [", key, "]"];
        let r = concat(&parts);
        proof {
            reveal_with_fuel(joined, 5);
            assert(parts@.drop_last().drop_last().drop_last().drop_last() =~= Seq::<&str>::empty());
            assert(r@ =~= label@ + " · ["@ + key@ + "]"@);
        }
        r
    } else {
        let parts = vec![label, " · [", key, "] · ", family_hint];
        let r = concat(&parts);
        proof {
            reveal_with_fuel(joined, 6);
            assert(parts@.drop_last().drop_last().drop_last().drop_last().drop_last() =~= Seq::<&str>::empty());
            assert(r@ =~= label@ + " · ["@ + key@ + "] · "@ + family_hint@);
        }
        r
    }
}

// ---------------------------------------------------------------- configuration

/// The user's palette preferences: drag order, hidden tools and the column
/// count (one column or two).
pub struct ToolbarConfig {
    pub order: Vec<String>,
    pub hidden: Vec<String>,
    pub columns: u8,
}

/// Column count the palette uses for a stored preference (clamped to 1..=2).
pub fn toolbar_columns(preference: u8) -> (r: u8)
    ensures
        r == (if preference < 1 { 1 } else if preference > 2 { 2 } else { preference }),
{
    if preference < 1 {
        1
    } else if preference > 2 {
        2
    } else {
        preference
    }
}

impl ToolbarConfig {
    /// Stores the dragged order and the visibility marks. Writes only what
    /// changed and reports whether anything did.
    pub fn apply(&mut self, order: &Vec<String>, hidden: &Vec<String>) -> (changed: bool)
        ensures
            final(self).order@ == applied(old(self).order@, order@),
            final(self).hidden@ == applied(old(self).hidden@, hidden@),
            final(self).columns == old(self).columns,
            changed == config_changes(old(self).order@, old(self).hidden@, order@, hidden@),
    {
        let mut changed = false;
        if !same_texts(&self.order, order) {
            self.order = copy_strings(order);
            changed = true;
        }
        if !same_texts(&self.hidden, hidden) {
            self.hidden = copy_strings(hidden);
            changed = true;
        }
        changed
    }

    /// Back to the canonical palette: canonical order, nothing hidden, one column.
    pub fn reset(&mut self)
        ensures
            final(self).order@.len() == 0,
            final(self).hidden@.len() == 0,
            final(self).columns == 1,
    {
        self.order = Vec::new();
        self.hidden = Vec::new();
        self.columns = 1;
    }
}

/// The stored list after writing `new`: replaced when its text differs,
/// kept as it is otherwise.
pub open spec fn applied(stored: Seq<String>, new: Seq<String>) -> Seq<String> {
    if texts(stored) != texts(new) { new } else { stored }
}

/// Whether writing `order` and `hidden` changes the stored configuration.
pub open spec fn config_changes(
    stored_order: Seq<String>,
    stored_hidden: Seq<String>,
    order: Seq<String>,
    hidden: Seq<String>,
) -> bool {
    texts(stored_order) != texts(order) || texts(stored_hidden) != texts(hidden)
}

/// After a configuration is applied, the stored lists read as the applied
/// ones, and applying the same configuration again reports no change.
pub proof fn lemma_apply_is_idempotent(
    stored_order: Seq<String>,
    stored_hidden: Seq<String>,
    order: Seq<String>,
    hidden: Seq<String>,
)
    ensures
        texts(applied(stored_order, order)) == texts(order),
        texts(applied(stored_hidden, hidden)) == texts(hidden),
        !config_changes(applied(stored_order, order), applied(stored_hidden, hidden), order, hidden),
        applied(applied(stored_order, order), order) == applied(stored_order, order),
{
}

pub open spec fn is_canonical_id(id: Seq<char>) -> bool {
    entry_ids(canonical_entries()).contains(id)
}

/// `acc` followed by the ids of `rest` that name a canonical tool.
pub open spec fn known_ids(acc: Seq<Seq<char>>, rest: Seq<Seq<char>>) -> Seq<Seq<char>>
    decreases rest.len(),
{
    if rest.len() == 0 {
        acc
    } else {
        let next = if is_canonical_id(rest[0]) { acc.push(rest[0]) } else { acc };
        known_ids(next, rest.drop_first())
    }
}

/// `acc` followed by the id of each entry of `rest` that `acc` lacks.
pub open spec fn append_missing_ids(acc: Seq<Seq<char>>, rest: Seq<ToolbarEntry>) -> Seq<Seq<char>>
    decreases rest.len(),
{
    if rest.len() == 0 {
        acc
    } else {
        let next = if acc.contains(rest[0].id@) { acc } else { acc.push(rest[0].id@) };
        append_missing_ids(next, rest.drop_first())
    }
}

/// The order the configuration menu edits: the stored order (the canonical
/// one when none is stored) without ids that no longer name a palette tool,
/// followed by the canonical tools it lacks.
pub open spec fn spec_config_order(order: Seq<Seq<char>>) -> Seq<Seq<char>> {
    let start = if order.len() == 0 { entry_ids(canonical_entries()) } else { order };
    append_missing_ids(known_ids(seq![], start), canonical_entries())
}

/// Whether `id` names a tool of the canonical palette.
pub fn is_palette_tool(id: &str) -> (r: bool)
    ensures
        r == is_canonical_id(id@),
{
    let canonical = canonical_toolbar_entries();
    has_entry_id(&canonical, id)
}

/// The ids of `ids` that name a palette tool, in order (legacy ids of tools
/// that moved to families or modifiers are dropped).
pub fn known_tool_ids(ids: &Vec<String>) -> (r: Vec<String>)
    ensures
        texts(r@) == known_ids(seq![], texts(ids@)),
{
    let mut r: Vec<String> = Vec::new();
    let mut i: usize = 0;
    assert(texts(ids@).subrange(0, ids@.len() as int) =~= texts(ids@));
    assert(texts(r@) =~= Seq::<Seq<char>>::empty());
    while i < ids.len()
        invariant
            i <= ids.len(),
            known_ids(seq![], texts(ids@)) == known_ids(texts(r@), texts(ids@).subrange(i as int, ids@.len() as int)),
        decreases ids.len() - i,
    {
        let ghost rest = texts(ids@).subrange(i as int, ids@.len() as int);
        assert(rest.drop_first() =~= texts(ids@).subrange(i + 1, ids@.len() as int));
        assert(rest[0] == ids@[i as int]@);
        if is_palette_tool(ids[i].as_str()) {
            let ghost before = texts(r@);
            r.push(ids[i].clone());
            assert(texts(r@) =~= before.push(ids@[i as int]@));
        }
        i = i + 1;
    }
    assert(texts(ids@).subrange(ids@.len() as int, ids@.len() as int) =~= Seq::<Seq<char>>::empty());
    r
}

/// The order shown by the palette configuration menu.
pub fn config_order(order: &Vec<String>) -> (r: Vec<String>)
    ensures
        texts(r@) == spec_config_order(texts(order@)),
{
    let canonical = canonical_toolbar_entries();
    let start: Vec<String>;
    if order.len() == 0 {
        let mut ids: Vec<String> = Vec::new();
        let mut i: usize = 0;
        while i < canonical.len()
            invariant
                canonical@ == canonical_entries(),
                i <= canonical.len(),
                texts(ids@) == entry_ids(canonical@.subrange(0, i as int)),
            decreases canonical.len() - i,
        {
            let ghost before = texts(ids@);
            ids.push(String::from_str(canonical[i].id));
            assert(texts(ids@) =~= before.push(canonical@[i as int].id@));
            assert(canonical@.subrange(0, i + 1) =~= canonical@.subrange(0, i as int).push(canonical@[i as int]));
            assert(entry_ids(canonical@.subrange(0, i + 1)) =~= entry_ids(canonical@.subrange(0, i as int)).push(canonical@[i as int].id@));
            i = i + 1;
        }
        assert(canonical@.subrange(0, canonical@.len() as int) =~= canonical@);
        assert(texts(order@) =~= Seq::<Seq<char>>::empty());
        start = ids;
    } else {
        start = copy_strings(order);
    }
    let mut r = known_tool_ids(&start);
    let mut k: usize = 0;
    assert(canonical@.subrange(0, canonical@.len() as int) =~= canonical@);
    while k < canonical.len()
        invariant
            canonical@ == canonical_entries(),
            k <= canonical.len(),
            spec_config_order(texts(order@)) == append_missing_ids(texts(r@), canonical@.subrange(k as int, canonical@.len() as int)),
        decreases canonical.len() - k,
    {
        let ghost rest = canonical@.subrange(k as int, canonical@.len() as int);
        assert(rest.drop_first() =~= canonical@.subrange(k + 1, canonical@.len() as int));
        if !contains_text(&r, canonical[k].id) {
            let ghost before = texts(r@);
            r.push(String::from_str(canonical[k].id));
            assert(texts(r@) =~= before.push(canonical@[k as int].id@));
        }
        k = k + 1;
    }
    assert(canonical@.subrange(canonical@.len() as int, canonical@.len() as int) =~= Seq::<ToolbarEntry>::empty());
    r
}

/// Marks `id` as visible (drops every hidden mark of it) or hidden (adds one
/// mark unless it is already there).
pub fn set_tool_visibility(hidden: &mut Vec<String>, id: &str, visible: bool)
    ensures
        visible ==> texts(final(hidden)@) == texts(old(hidden)@).filter(|h: Seq<char>| h != id@),
        !visible && texts(old(hidden)@).contains(id@) ==> final(hidden)@ == old(hidden)@,
        !visible && !texts(old(hidden)@).contains(id@) ==> texts(final(hidden)@) == texts(old(hidden)@).push(id@),
{
    if visible {
        let mut kept: Vec<String> = Vec::new();
        let mut i: usize = 0;
        let ghost f = |h: Seq<char>| h != id@;
        while i < hidden.len()
            invariant
                i <= hidden.len(),
                f == (|h: Seq<char>| h != id@),
                texts(kept@) == texts(hidden@).subrange(0, i as int).filter(f),
            decreases hidden.len() - i,
        {
            proof {
                let prefix = texts(hidden@).subrange(0, i as int);
                assert(texts(hidden@).subrange(0, i + 1) =~= prefix.push(hidden@[i as int]@));
                prefix.lemma_filter_push(hidden@[i as int]@, f);
            }
            let ghost prefix = texts(hidden@).subrange(0, i as int);
            let ghost x = hidden@[i as int]@;
            if !str_eq(hidden[i].as_str(), id) {
                let ghost before = texts(kept@);
                kept.push(hidden[i].clone());
                assert(texts(kept@) =~= before.push(hidden@[i as int]@));
                assert(f(x));
                assert(prefix.push(x).filter(f) == prefix.filter(f).push(x));
            } else {
                assert(!f(x));
                assert(prefix.push(x).filter(f) == prefix.filter(f));
            }
            assert(texts(hidden@).subrange(0, i + 1) == prefix.push(x));
            i = i + 1;
        }
        assert(texts(hidden@).subrange(0, hidden@.len() as int) =~= texts(hidden@));
        *hidden = kept;
    } else if !contains_text(hidden, id) {
        let ghost before = texts(hidden@);
        hidden.push(String::from_str(id));
        assert(texts(hidden@) =~= before.push(id@));
    }
}

// ---------------------------------------------------------------- laws

proof fn lemma_canonical_ids_distinct()
    ensures
        forall|i: int, j: int|
            0 <= i < canonical_entries().len() && 0 <= j < canonical_entries().len() && i != j
                ==> #[trigger] canonical_entries()[i].id@ != #[trigger] canonical_entries()[j].id@,
{
    reveal_strlit("select");
    reveal_strlit("cursor_3d");
    reveal_strlit("transform");
    reveal_strlit("measure");
    reveal_strlit("annotate");
    reveal_strlit("extrude");
    reveal_strlit("inset");
    reveal_strlit("bevel");
    reveal_strlit("loop_cut");
    reveal_strlit("knife");
    reveal_strlit("pushpull");
    reveal_strlit("slice");
    reveal_strlit("subdivide");
    reveal_strlit("draw_profile");
    reveal_strlit("merge");
    let c = canonical_entries();
    assert forall|i: int, j: int|
        0 <= i < c.len() && 0 <= j < c.len() && i != j implies #[trigger] c[i].id@ != #[trigger] c[j].id@
    by {
        if c[i].id@.len() == c[j].id@.len() {
            assert(c[i].id@[0] != c[j].id@[0]);
        }
    }
}

proof fn lemma_first_with_id(s: Seq<ToolbarEntry>, id: Seq<char>)
    ensures
        first_with_id(s, id) matches Some(e) ==> s.contains(e) && e.id@ == id,
        first_with_id(s, id) is None ==> !entry_ids(s).contains(id),
    decreases s.len(),
{
    if s.len() > 0 {
        lemma_first_with_id(s.drop_first(), id);
        if s[0].id@ != id {
            if let Some(e) = first_with_id(s, id) {
                let k = choose|k: int| 0 <= k < s.drop_first().len() && s.drop_first()[k] == e;
                assert(s[k + 1] == e);
            } else {
                assert forall|k: int| 0 <= k < s.len() implies entry_ids(s)[k] != id by {
                    if k > 0 {
                        assert(entry_ids(s.drop_first())[k - 1] == entry_ids(s)[k]);
                    }
                }
            }
        } else {
            assert(s[0] == s[0]);
        }
    }
}

proof fn lemma_entries_by_order(acc: Seq<ToolbarEntry>, rest: Seq<Seq<char>>)
    requires
        forall|k: int| 0 <= k < acc.len() ==> canonical_entries().contains(#[trigger] acc[k]),
    ensures
        forall|k: int| 0 <= k < entries_by_order(acc, rest).len()
            ==> canonical_entries().contains(#[trigger] entries_by_order(acc, rest)[k]),
        rest.no_duplicates() && entry_ids(acc).no_duplicates()
            && (forall|k: int| 0 <= k < rest.len() ==> !entry_ids(acc).contains(#[trigger] rest[k]))
            ==> entry_ids(entries_by_order(acc, rest)).no_duplicates(),
    decreases rest.len(),
{
    if rest.len() > 0 {
        lemma_first_with_id(canonical_entries(), rest[0]);
        let next = match first_with_id(canonical_entries(), rest[0]) {
            Some(e) => acc.push(e),
            None => acc,
        };
        assert forall|k: int| 0 <= k < next.len() implies canonical_entries().contains(#[trigger] next[k]) by {
            if k < acc.len() {
                assert(next[k] == acc[k]);
            }
        }
        if rest.no_duplicates() && entry_ids(acc).no_duplicates()
            && (forall|k: int| 0 <= k < rest.len() ==> !entry_ids(acc).contains(#[trigger] rest[k])) {
            assert(entry_ids(next).no_duplicates()) by {
                if let Some(e) = first_with_id(canonical_entries(), rest[0]) {
                    assert(entry_ids(next) =~= entry_ids(acc).push(e.id@));
                    assert(!entry_ids(acc).contains(rest[0]));
                }
            }
            assert forall|k: int| 0 <= k < rest.drop_first().len()
                implies !entry_ids(next).contains(#[trigger] rest.drop_first()[k]) by {
                assert(rest.drop_first()[k] == rest[k + 1]);
                assert(!entry_ids(acc).contains(rest[k + 1]));
                if let Some(e) = first_with_id(canonical_entries(), rest[0]) {
                    assert(entry_ids(next) =~= entry_ids(acc).push(e.id@));
                    assert(rest[k + 1] != rest[0]);
                }
            }
        }
        lemma_entries_by_order(next, rest.drop_first());
    }
}

proof fn lemma_append_missing(acc: Seq<ToolbarEntry>, rest: Seq<ToolbarEntry>)
    ensures
        forall|e: ToolbarEntry| #[trigger] append_missing(acc, rest).contains(e) ==> acc.contains(e) || rest.contains(e),
        forall|k: int| 0 <= k < acc.len() ==> entry_ids(append_missing(acc, rest)).contains(#[trigger] entry_ids(acc)[k]),
        forall|k: int| 0 <= k < rest.len() ==> entry_ids(append_missing(acc, rest)).contains(#[trigger] rest[k].id@),
        entry_ids(acc).no_duplicates() ==> entry_ids(append_missing(acc, rest)).no_duplicates(),
    decreases rest.len(),
{
    if rest.len() > 0 {
        let next = if entry_ids(acc).contains(rest[0].id@) { acc } else { acc.push(rest[0]) };
        lemma_append_missing(next, rest.drop_first());
        let r = append_missing(acc, rest);
        assert(r == append_missing(next, rest.drop_first()));
        assert forall|e: ToolbarEntry| #[trigger] r.contains(e) implies acc.contains(e) || rest.contains(e) by {
            if next.contains(e) {
                let k = choose|k: int| 0 <= k < next.len() && next[k] == e;
                if k < acc.len() {
                    assert(acc[k] == e);
                } else {
                    assert(rest[0] == e);
                }
            } else {
                let k = choose|k: int| 0 <= k < rest.drop_first().len() && rest.drop_first()[k] == e;
                assert(rest[k + 1] == e);
            }
        }
        assert forall|k: int| 0 <= k < acc.len() implies entry_ids(r).contains(#[trigger] entry_ids(acc)[k]) by {
            assert(entry_ids(next)[k] == entry_ids(acc)[k]);
        }
        assert forall|k: int| 0 <= k < rest.len() implies entry_ids(r).contains(#[trigger] rest[k].id@) by {
            if k == 0 {
                if entry_ids(acc).contains(rest[0].id@) {
                    let m = choose|m: int| 0 <= m < entry_ids(acc).len() && entry_ids(acc)[m] == rest[0].id@;
                    assert(entry_ids(next)[m] == rest[0].id@);
                } else {
                    assert(entry_ids(next)[acc.len() as int] == rest[0].id@);
                }
            } else {
                assert(rest.drop_first()[k - 1] == rest[k]);
            }
        }
        if entry_ids(acc).no_duplicates() {
            if !entry_ids(acc).contains(rest[0].id@) {
                assert(entry_ids(next) =~= entry_ids(acc).push(rest[0].id@));
            }
        }
    }
}

proof fn lemma_keep_visible(
    acc: Seq<ToolbarEntry>,
    rest: Seq<ToolbarEntry>,
    hidden: Seq<Seq<char>>,
    in_edit: bool,
)
    ensures
        forall|e: ToolbarEntry| #[trigger] keep_visible(acc, rest, hidden, in_edit).contains(e)
            ==> acc.contains(e) || (rest.contains(e) && entry_visible(e, hidden, in_edit)),
        forall|e: ToolbarEntry| rest.contains(e) && entry_visible(e, hidden, in_edit)
            ==> #[trigger] keep_visible(acc, rest, hidden, in_edit).contains(e),
        entry_ids(acc + rest).no_duplicates()
            ==> entry_ids(keep_visible(acc, rest, hidden, in_edit)).no_duplicates(),
    decreases rest.len(),
{
    if rest.len() > 0 {
        let next = if entry_visible(rest[0], hidden, in_edit) { acc.push(rest[0]) } else { acc };
        lemma_keep_visible(next, rest.drop_first(), hidden, in_edit);
        let r = keep_visible(acc, rest, hidden, in_edit);
        assert(r == keep_visible(next, rest.drop_first(), hidden, in_edit));
        assert forall|e: ToolbarEntry| #[trigger] r.contains(e)
            implies acc.contains(e) || (rest.contains(e) && entry_visible(e, hidden, in_edit)) by {
            if next.contains(e) {
                let k = choose|k: int| 0 <= k < next.len() && next[k] == e;
                if k < acc.len() {
                    assert(acc[k] == e);
                } else {
                    assert(rest[0] == e);
                }
            } else {
                let k = choose|k: int| 0 <= k < rest.drop_first().len() && rest.drop_first()[k] == e;
                assert(rest[k + 1] == e);
            }
        }
        assert forall|e: ToolbarEntry| rest.contains(e) && entry_visible(e, hidden, in_edit)
            implies #[trigger] r.contains(e) by {
            let k = choose|k: int| 0 <= k < rest.len() && rest[k] == e;
            if k == 0 {
                assert(next[acc.len() as int] == e);
                lemma_keep_visible_keeps_acc(next, rest.drop_first(), hidden, in_edit);
            } else {
                assert(rest.drop_first()[k - 1] == e);
            }
        }
        if entry_ids(acc + rest).no_duplicates() {
            assert(acc + rest =~= acc.push(rest[0]) + rest.drop_first());
            if entry_visible(rest[0], hidden, in_edit) {
                assert(next + rest.drop_first() =~= acc + rest);
            } else {
                assert(entry_ids(acc + rest.drop_first()).no_duplicates()) by {
                    let a = entry_ids(acc + rest);
                    let b = entry_ids(acc + rest.drop_first());
                    assert forall|i: int, j: int| 0 <= i < b.len() && 0 <= j < b.len() && i != j
                        implies b[i] != b[j] by {
                        let ii = if i < acc.len() { i } else { i + 1 };
                        let jj = if j < acc.len() { j } else { j + 1 };
                        assert(b[i] == a[ii]);
                        assert(b[j] == a[jj]);
                    }
                }
            }
        }
    }
}

proof fn lemma_keep_visible_keeps_acc(
    acc: Seq<ToolbarEntry>,
    rest: Seq<ToolbarEntry>,
    hidden: Seq<Seq<char>>,
    in_edit: bool,
)
    ensures
        forall|e: ToolbarEntry| acc.contains(e) ==> #[trigger] keep_visible(acc, rest, hidden, in_edit).contains(e),
    decreases rest.len(),
{
    if rest.len() > 0 {
        let next = if entry_visible(rest[0], hidden, in_edit) { acc.push(rest[0]) } else { acc };
        lemma_keep_visible_keeps_acc(next, rest.drop_first(), hidden, in_edit);
        assert(keep_visible(acc, rest, hidden, in_edit) == keep_visible(next, rest.drop_first(), hidden, in_edit));
        assert forall|e: ToolbarEntry| acc.contains(e) implies #[trigger] next.contains(e) by {
            let k = choose|k: int| 0 <= k < acc.len() && acc[k] == e;
            assert(next[k] == e);
        }
    }
}

/// Every entry the palette draws is a canonical entry, not hidden by the
/// user, and a mesh-only tool only in edit mode.
pub proof fn lemma_displayed_entries_are_canonical_and_visible(
    order: Seq<Seq<char>>,
    hidden: Seq<Seq<char>>,
    in_edit: bool,
)
    ensures
        forall|e: ToolbarEntry| #[trigger] displayed_entries(order, hidden, in_edit).contains(e)
            ==> canonical_entries().contains(e) && entry_visible(e, hidden, in_edit),
{
    lemma_ordered_entries_canonical(order);
    lemma_keep_visible(seq![], ordered_entries(order), hidden, in_edit);
}

proof fn lemma_ordered_entries_canonical(order: Seq<Seq<char>>)
    ensures
        forall|e: ToolbarEntry| #[trigger] ordered_entries(order).contains(e) ==> canonical_entries().contains(e),
        forall|k: int| 0 <= k < canonical_entries().len()
            ==> entry_ids(ordered_entries(order)).contains(#[trigger] canonical_entries()[k].id@),
        order.no_duplicates() ==> entry_ids(ordered_entries(order)).no_duplicates(),
{
    if order.len() == 0 {
        assert forall|k: int| 0 <= k < canonical_entries().len()
            implies entry_ids(ordered_entries(order)).contains(#[trigger] canonical_entries()[k].id@) by {
            assert(entry_ids(canonical_entries())[k] == canonical_entries()[k].id@);
        }
        lemma_canonical_ids_distinct();
        assert(entry_ids(canonical_entries()).no_duplicates());
    } else {
        let by_order = entries_by_order(seq![], order);
        lemma_entries_by_order(seq![], order);
        assert(entry_ids(Seq::<ToolbarEntry>::empty()) =~= Seq::<Seq<char>>::empty());
        lemma_append_missing(by_order, canonical_entries());
        assert forall|e: ToolbarEntry| #[trigger] ordered_entries(order).contains(e)
            implies canonical_entries().contains(e) by {
            if by_order.contains(e) {
                let k = choose|k: int| 0 <= k < by_order.len() && by_order[k] == e;
                assert(canonical_entries().contains(by_order[k]));
            }
        }
    }
}

/// Every canonical entry that is not hidden, and that is allowed in the
/// current mode, is drawn; when the user's order names no tool twice, no tool
/// is drawn twice.
pub proof fn lemma_displayed_entries_complete(
    order: Seq<Seq<char>>,
    hidden: Seq<Seq<char>>,
    in_edit: bool,
)
    ensures
        forall|k: int| 0 <= k < canonical_entries().len() && entry_visible(canonical_entries()[k], hidden, in_edit)
            ==> #[trigger] displayed_entries(order, hidden, in_edit).contains(canonical_entries()[k]),
        order.no_duplicates() ==> entry_ids(displayed_entries(order, hidden, in_edit)).no_duplicates(),
{
    lemma_ordered_entries_canonical(order);
    lemma_keep_visible(seq![], ordered_entries(order), hidden, in_edit);
    lemma_canonical_ids_distinct();
    let ordered = ordered_entries(order);
    assert forall|k: int| 0 <= k < canonical_entries().len() && entry_visible(canonical_entries()[k], hidden, in_edit)
        implies #[trigger] displayed_entries(order, hidden, in_edit).contains(canonical_entries()[k]) by {
        let c = canonical_entries()[k];
        assert(entry_ids(ordered).contains(c.id@));
        let m = choose|m: int| 0 <= m < entry_ids(ordered).len() && entry_ids(ordered)[m] == c.id@;
        let e = ordered[m];
        assert(ordered.contains(e));
        let n = choose|n: int| 0 <= n < canonical_entries().len() && canonical_entries()[n] == e;
        assert(n == k);
        assert(ordered.contains(c));
    }
    assert(Seq::<ToolbarEntry>::empty() + ordered =~= ordered);
}

proof fn lemma_known_ids(acc: Seq<Seq<char>>, rest: Seq<Seq<char>>)
    ensures
        forall|x: Seq<char>| #[trigger] known_ids(acc, rest).contains(x)
            ==> acc.contains(x) || (rest.contains(x) && is_canonical_id(x)),
        (acc + rest).no_duplicates() ==> known_ids(acc, rest).no_duplicates(),
    decreases rest.len(),
{
    if rest.len() > 0 {
        let next = if is_canonical_id(rest[0]) { acc.push(rest[0]) } else { acc };
        lemma_known_ids(next, rest.drop_first());
        assert(known_ids(acc, rest) == known_ids(next, rest.drop_first()));
        assert forall|x: Seq<char>| #[trigger] known_ids(acc, rest).contains(x)
            implies acc.contains(x) || (rest.contains(x) && is_canonical_id(x)) by {
            if next.contains(x) {
                let k = choose|k: int| 0 <= k < next.len() && next[k] == x;
                if k < acc.len() {
                    assert(acc[k] == x);
                } else {
                    assert(rest[0] == x);
                }
            } else {
                let k = choose|k: int| 0 <= k < rest.drop_first().len() && rest.drop_first()[k] == x;
                assert(rest[k + 1] == x);
            }
        }
        if (acc + rest).no_duplicates() {
            if is_canonical_id(rest[0]) {
                assert(next + rest.drop_first() =~= acc + rest);
            } else {
                let a = acc + rest;
                let b = acc + rest.drop_first();
                assert forall|i: int, j: int| 0 <= i < b.len() && 0 <= j < b.len() && i != j
                    implies b[i] != b[j] by {
                    let ii = if i < acc.len() { i } else { i + 1 };
                    let jj = if j < acc.len() { j } else { j + 1 };
                    assert(b[i] == a[ii]);
                    assert(b[j] == a[jj]);
                }
            }
        }
    }
}

proof fn lemma_append_missing_ids(acc: Seq<Seq<char>>, rest: Seq<ToolbarEntry>)
    ensures
        forall|x: Seq<char>| #[trigger] append_missing_ids(acc, rest).contains(x)
            ==> acc.contains(x) || entry_ids(rest).contains(x),
        forall|k: int| 0 <= k < rest.len() ==> append_missing_ids(acc, rest).contains(#[trigger] rest[k].id@),
        acc.no_duplicates() ==> append_missing_ids(acc, rest).no_duplicates(),
    decreases rest.len(),
{
    if rest.len() > 0 {
        let next = if acc.contains(rest[0].id@) { acc } else { acc.push(rest[0].id@) };
        lemma_append_missing_ids(next, rest.drop_first());
        let r = append_missing_ids(acc, rest);
        assert(r == append_missing_ids(next, rest.drop_first()));
        assert forall|x: Seq<char>| #[trigger] r.contains(x) implies acc.contains(x) || entry_ids(rest).contains(x) by {
            if next.contains(x) {
                let k = choose|k: int| 0 <= k < next.len() && next[k] == x;
                if k < acc.len() {
                    assert(acc[k] == x);
                } else {
                    assert(entry_ids(rest)[0] == x);
                }
            } else {
                let k = choose|k: int| 0 <= k < entry_ids(rest.drop_first()).len() && entry_ids(rest.drop_first())[k] == x;
                assert(entry_ids(rest)[k + 1] == x);
            }
        }
        assert forall|k: int| 0 <= k < rest.len() implies r.contains(#[trigger] rest[k].id@) by {
            if k == 0 {
                if acc.contains(rest[0].id@) {
                    let m = choose|m: int| 0 <= m < acc.len() && acc[m] == rest[0].id@;
                    assert(next[m] == rest[0].id@);
                } else {
                    assert(next[acc.len() as int] == rest[0].id@);
                }
                lemma_append_missing_ids_keeps(next, rest.drop_first());
            } else {
                assert(rest.drop_first()[k - 1] == rest[k]);
            }
        }
    }
}

proof fn lemma_append_missing_ids_keeps(acc: Seq<Seq<char>>, rest: Seq<ToolbarEntry>)
    ensures
        forall|x: Seq<char>| acc.contains(x) ==> #[trigger] append_missing_ids(acc, rest).contains(x),
    decreases rest.len(),
{
    if rest.len() > 0 {
        let next = if acc.contains(rest[0].id@) { acc } else { acc.push(rest[0].id@) };
        lemma_append_missing_ids_keeps(next, rest.drop_first());
        assert(append_missing_ids(acc, rest) == append_missing_ids(next, rest.drop_first()));
        assert forall|x: Seq<char>| acc.contains(x) implies #[trigger] next.contains(x) by {
            let k = choose|k: int| 0 <= k < acc.len() && acc[k] == x;
            assert(next[k] == x);
        }
    }
}

/// The order the configuration menu edits names every palette tool and
/// nothing else; when the stored order names no tool twice, it names each
/// palette tool exactly once.
pub proof fn lemma_config_order_covers_palette(order: Seq<Seq<char>>)
    ensures
        forall|k: int| 0 <= k < canonical_entries().len()
            ==> #[trigger] spec_config_order(order).contains(canonical_entries()[k].id@),
        forall|x: Seq<char>| #[trigger] spec_config_order(order).contains(x) ==> is_canonical_id(x),
        order.no_duplicates() ==> spec_config_order(order).no_duplicates(),
{
    let start = if order.len() == 0 { entry_ids(canonical_entries()) } else { order };
    let known = known_ids(seq![], start);
    lemma_known_ids(seq![], start);
    lemma_append_missing_ids(known, canonical_entries());
    assert(Seq::<Seq<char>>::empty() + start =~= start);
    lemma_canonical_ids_distinct();
    if order.len() == 0 {
        assert(entry_ids(canonical_entries()).no_duplicates());
    }
    assert forall|x: Seq<char>| #[trigger] spec_config_order(order).contains(x) implies is_canonical_id(x) by {
        if known.contains(x) {
        } else {
            assert(entry_ids(canonical_entries()).contains(x));
        }
    }
}

/// Modifier-stack operations (Mirror, Symmetrize) are not palette tools, and
/// the transform family is one palette entry whose members (Move, Rotate,
/// Scale) live in its menu.
pub proof fn lemma_palette_holds_families_not_members()
    ensures
        !is_canonical_id("mirror"@),
        !is_canonical_id("symmetrize"@),
        !is_canonical_id("move"@),
        !is_canonical_id("rotate"@),
        !is_canonical_id("scale"@),
        is_canonical_id("transform"@),
        is_canonical_id("select"@),
{
    reveal_strlit("select");
    reveal_strlit("cursor_3d");
    reveal_strlit("transform");
    reveal_strlit("measure");
    reveal_strlit("annotate");
    reveal_strlit("extrude");
    reveal_strlit("inset");
    reveal_strlit("bevel");
    reveal_strlit("loop_cut");
    reveal_strlit("knife");
    reveal_strlit("pushpull");
    reveal_strlit("slice");
    reveal_strlit("subdivide");
    reveal_strlit("draw_profile");
    reveal_strlit("merge");
    reveal_strlit("mirror");
    reveal_strlit("symmetrize");
    reveal_strlit("move");
    reveal_strlit("rotate");
    reveal_strlit("scale");
    let ids = entry_ids(canonical_entries());
    assert(ids[0] == "select"@);
    assert(ids[2] == "transform"@);
    assert forall|k: int| 0 <= k < ids.len() implies
        ids[k] != "mirror"@ && ids[k] != "symmetrize"@ && ids[k] != "move"@ && ids[k] != "rotate"@
            && ids[k] != "scale"@ by {
        assert(ids[k] == canonical_entries()[k].id@);
        if ids[k].len() == 6 {
            assert(ids[k][0] != "mirror"@[0] || ids[k][1] != "mirror"@[1]);
            assert(ids[k][0] != "rotate"@[0]);
        }
        if ids[k].len() == 5 {
            assert(ids[k][0] != "scale"@[0] || ids[k][1] != "scale"@[1]);
        }
        if ids[k].len() == 4 {
            assert(false);
        }
    }
}

} // verus!

verus! {

/// The positions of the displayed entries that belong to `section`.
pub open spec fn entry_positions(entries: Seq<ToolbarEntry>, section: ToolbarSection) -> Seq<usize>
    decreases entries.len(),
{
    if entries.len() == 0 {
        Seq::empty()
    } else {
        let prev = entry_positions(entries.drop_last(), section);
        if entries.last().section == section { prev.push((entries.len() - 1) as usize) } else { prev }
    }
}

fn section_entry_indices(entries: &Vec<ToolbarEntry>, section: ToolbarSection) -> (r: Vec<usize>)
    ensures
        r@ == entry_positions(entries@, section),
{
    let mut r: Vec<usize> = Vec::new();
    let mut i: usize = 0;
    while i < entries.len()
        invariant
            i <= entries.len(),
            r@ == entry_positions(entries@.subrange(0, i as int), section),
        decreases entries.len() - i,
    {
        assert(entries@.subrange(0, i + 1).drop_last() =~= entries@.subrange(0, i as int));
        if entries[i].section == section {
            r.push(i);
        }
        i = i + 1;
    }
    assert(entries@.subrange(0, entries@.len() as int) =~= entries@);
    r
}

/// The groups of the model palette, each its own grid with a separator
/// between them: Primary, Inspect and Mesh, in that order, with the
/// positions of their displayed entries; a section with nothing to show is
/// left out.
pub open spec fn spec_palette_groups(entries: Seq<ToolbarEntry>) -> Seq<(ToolbarSection, Seq<usize>)> {
    let p = entry_positions(entries, ToolbarSection::Primary);
    let i = entry_positions(entries, ToolbarSection::Inspect);
    let m = entry_positions(entries, ToolbarSection::Mesh);
    (if p.len() > 0 { seq![(ToolbarSection::Primary, p)] } else { Seq::empty() })
        + (if i.len() > 0 { seq![(ToolbarSection::Inspect, i)] } else { Seq::empty() })
        + (if m.len() > 0 { seq![(ToolbarSection::Mesh, m)] } else { Seq::empty() })
}

/// The groups of the model palette for the displayed entries.
pub fn palette_groups(entries: &Vec<ToolbarEntry>) -> (r: Vec<(ToolbarSection, Vec<usize>)>)
    ensures
        r@.len() == spec_palette_groups(entries@).len(),
        forall|k: int| 0 <= k < r@.len() ==> (#[trigger] r@[k]).0 == spec_palette_groups(entries@)[k].0
            && r@[k].1@ == spec_palette_groups(entries@)[k].1,
{
    let mut r: Vec<(ToolbarSection, Vec<usize>)> = Vec::new();
    let p = section_entry_indices(entries, ToolbarSection::Primary);
    let i = section_entry_indices(entries, ToolbarSection::Inspect);
    let m = section_entry_indices(entries, ToolbarSection::Mesh);
    let ghost (ps, is, ms) = (p@, i@, m@);
    if p.len() > 0 {
        r.push((ToolbarSection::Primary, p));
    }
    let ghost after_p = r@;
    if i.len() > 0 {
        r.push((ToolbarSection::Inspect, i));
    }
    let ghost after_i = r@;
    if m.len() > 0 {
        r.push((ToolbarSection::Mesh, m));
    }
    proof {
        let spec = spec_palette_groups(entries@);
        let a: Seq<(ToolbarSection, Seq<usize>)> = if ps.len() > 0 { seq![(ToolbarSection::Primary, ps)] } else { Seq::empty() };
        let b: Seq<(ToolbarSection, Seq<usize>)> = if is.len() > 0 { seq![(ToolbarSection::Inspect, is)] } else { Seq::empty() };
        let c: Seq<(ToolbarSection, Seq<usize>)> = if ms.len() > 0 { seq![(ToolbarSection::Mesh, ms)] } else { Seq::empty() };
        assert(spec == a + b + c);
        assert(after_p.len() == a.len());
        assert(after_i.len() == a.len() + b.len());
        assert(r@.len() == spec.len());
        assert forall|k: int| 0 <= k < r@.len() implies (#[trigger] r@[k]).0 == spec[k].0 && r@[k].1@ == spec[k].1 by {
            if k < a.len() {
                assert(r@[k] == after_p[k]);
            } else if k < a.len() + b.len() {
                assert(r@[k] == after_i[k]);
            }
        }
    }
    r
}

} // verus!
