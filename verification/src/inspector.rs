use vstd::prelude::*;

use crate::icons::PetuniaIcon;
use crate::outliner::section_matches;
use crate::primitive::PrimitiveKind;
use crate::text::{decimal, decimal_text, has_substring, lowercase, opt_text, spec_trim, str_eq, trim_text};
use crate::workspace::Workspace;

verus! {

/// What the inspector is about.
#[derive(Debug, Clone, Copy, PartialEq, Eq, Structural)]
pub enum InspectorFocus {
    /// The selected annotation.
    Annotation(u128),
    /// The selected measurement.
    Measurement(u128),
    /// Components of the active mesh.
    Components,
    /// An object (pinned or active).
    Object,
}

/// What the inspector column shows.
#[derive(Debug, Clone, Copy, PartialEq, Eq, Structural)]
pub enum InspectorView {
    AnnotationTab(u128),
    MeasurementTab(u128),
    /// The inspector of a workspace with a panel of its own (the UV editor).
    WorkspacePanel,
    /// The object bar alone: the inspector is collapsed.
    ObjectBar,
    /// The object bar, the search and the tabs.
    Full,
}

pub open spec fn spec_inspector_view(focus: InspectorFocus, workspace: Workspace, collapsed: bool) -> InspectorView {
    match focus {
        InspectorFocus::Annotation(id) => InspectorView::AnnotationTab(id),
        InspectorFocus::Measurement(id) => InspectorView::MeasurementTab(id),
        _ => if workspace == Workspace::Uv {
            InspectorView::WorkspacePanel
        } else if collapsed {
            InspectorView::ObjectBar
        } else {
            InspectorView::Full
        },
    }
}

/// The annotation and measurement tabs take the whole column; Model and
/// Paint share the object inspector (bar, then search and tabs unless
/// collapsed); the UV workspace keeps its own panel.
pub fn inspector_view(focus: InspectorFocus, workspace: Workspace, collapsed: bool) -> (r: InspectorView)
    ensures
        r == spec_inspector_view(focus, workspace, collapsed),
{
    match focus {
        InspectorFocus::Annotation(id) => InspectorView::AnnotationTab(id),
        InspectorFocus::Measurement(id) => InspectorView::MeasurementTab(id),
        _ => if workspace == Workspace::Uv {
            InspectorView::WorkspacePanel
        } else if collapsed {
            InspectorView::ObjectBar
        } else {
            InspectorView::Full
        },
    }
}

/// The object the object bar shows: none in an empty scene; otherwise the
/// requested one when it exists, else the first.
pub fn object_bar_index(requested: Option<usize>, objects: usize) -> (r: Option<usize>)
    ensures
        objects == 0 ==> r is None,
        objects > 0 ==> r == Some(match requested {
            Some(i) => if i < objects { i } else { 0 },
            None => 0,
        }),
{
    if objects == 0 {
        return None;
    }
    match requested {
        Some(i) => if i < objects { Some(i) } else { Some(0) },
        None => Some(0),
    }
}

pub open spec fn spec_committed_name(buffer: Seq<char>, current: Seq<char>) -> Option<Seq<char>> {
    let name = spec_trim(buffer);
    if name.len() > 0 && name != current { Some(name) } else { None }
}

/// The new name an edited name field commits: the buffer without its
/// surrounding white space, unless that is empty or the current name.
pub fn committed_name(buffer: &str, current: &str) -> (r: Option<String>)
    ensures
        match r {
            Some(s) => spec_committed_name(buffer@, current@) == Some(s@),
            None => spec_committed_name(buffer@, current@) is None,
        },
{
    let name = trim_text(buffer);
    if !name.is_empty() && !str_eq(name, current) {
        Some(String::from_str(name))
    } else {
        None
    }
}

/// The outcome of a frame of inline renaming.
#[derive(Debug, Clone, PartialEq, Eq)]
pub enum RenameStep {
    /// Escape: the edit is dropped.
    Cancel,
    /// The object takes this name and the edit ends.
    Apply(String),
    /// The edit goes on.
    Editing,
}

/// A frame of the Outliner's inline rename: Escape cancels; a commit (Enter
/// or leaving the field) with a usable new name applies it; anything else
/// keeps editing.
pub fn rename_step(cancel: bool, commit: bool, buffer: &str, current: &str) -> (r: RenameStep)
    ensures
        cancel ==> r == RenameStep::Cancel,
        !cancel && commit && spec_committed_name(buffer@, current@) is Some ==>
            (r matches RenameStep::Apply(s) && Some(s@) == spec_committed_name(buffer@, current@)),
        !cancel && !(commit && spec_committed_name(buffer@, current@) is Some) ==> r == RenameStep::Editing,
{
    if cancel {
        return RenameStep::Cancel;
    }
    if commit {
        match committed_name(buffer, current) {
            Some(name) => RenameStep::Apply(name),
            None => RenameStep::Editing,
        }
    } else {
        RenameStep::Editing
    }
}

/// The lock button of an object: its tooltip key and icon.
pub fn lock_button(locked: bool) -> (r: (&'static str, PetuniaIcon))
    ensures
        locked ==> r == ("context.unlock", PetuniaIcon::Lock),
        !locked ==> r == ("context.lock_tip", PetuniaIcon::Unlock),
{
    if locked { ("context.unlock", PetuniaIcon::Lock) } else { ("context.lock_tip", PetuniaIcon::Unlock) }
}

/// The visibility button of an object: its tooltip key and icon.
pub fn visibility_button(visible: bool) -> (r: (&'static str, PetuniaIcon))
    ensures
        visible ==> r == ("context.hide", PetuniaIcon::Eye),
        !visible ==> r == ("context.show", PetuniaIcon::EyeHidden),
{
    if visible { ("context.hide", PetuniaIcon::Eye) } else { ("context.show", PetuniaIcon::EyeHidden) }
}

/// The tooltip key of the pin button.
pub fn pin_tip(pinned: bool) -> (r: &'static str)
    ensures
        r == (if pinned { "inspector.unpin_tip" } else { "inspector.pin_tip" }),
{
    if pinned { "inspector.unpin_tip" } else { "inspector.pin_tip" }
}

/// The tooltip key of the chevron that folds the inspector.
pub fn collapse_tip(collapsed: bool) -> (r: &'static str)
    ensures
        r == (if collapsed { "ui.expand" } else { "ui.collapse" }),
{
    if collapsed { "ui.expand" } else { "ui.collapse" }
}

/// The inspector's search toggle: closing the search clears its query.
pub fn toggle_search(open: &mut bool, query: &mut String)
    ensures
        *final(open) == !*old(open),
        !*final(open) ==> final(query)@.len() == 0,
        *final(open) ==> final(query)@ == old(query)@,
{
    *open = !*open;
    if !*open {
        *query = String::new();
    }
}

/// The axis whose field was edited in a linked scale: the first one that
/// changed (X when none did).
pub fn edited_axis(changed: [bool; 3]) -> (r: usize)
    ensures
        r == (if changed[0] { 0usize } else if changed[1] { 1usize } else if changed[2] { 2usize } else { 0usize }),
{
    if changed[0] {
        0
    } else if changed[1] {
        1
    } else if changed[2] {
        2
    } else {
        0
    }
}

} // verus!

verus! {

/// An edit of the modifier stack from the row buttons.
#[derive(Debug, Clone, Copy, PartialEq, Eq, Structural)]
pub enum StackEdit {
    Remove(usize),
    MoveUp(usize),
    MoveDown(usize),
}

/// Whether a row's "move up" button is enabled: it is not the first.
pub fn can_move_up(index: usize) -> (r: bool)
    ensures
        r == (index > 0),
{
    index > 0
}

/// Whether a row's "move down" button is enabled: it is not the last.
pub fn can_move_down(index: usize, count: usize) -> (r: bool)
    ensures
        r == (index + 1 < count),
{
    index < count && count - index > 1
}

/// The rows' edits of one frame, as the panel applies them: a removal wins
/// over a move up, a move up over a move down.
pub fn chosen_edit(remove: Option<usize>, up: Option<usize>, down: Option<usize>) -> (r: Option<StackEdit>)
    ensures
        r == (match remove {
            Some(i) => Some(StackEdit::Remove(i)),
            None => match up {
                Some(i) => Some(StackEdit::MoveUp(i)),
                None => match down {
                    Some(i) => Some(StackEdit::MoveDown(i)),
                    None => None,
                },
            },
        }),
{
    match remove {
        Some(i) => Some(StackEdit::Remove(i)),
        None => match up {
            Some(i) => Some(StackEdit::MoveUp(i)),
            None => match down {
                Some(i) => Some(StackEdit::MoveDown(i)),
                None => None,
            },
        },
    }
}

/// Whether an edit applies to a stack of `len` rows: the row exists, and a
/// move has a neighbour to trade places with.
pub open spec fn edit_applies(e: StackEdit, len: nat) -> bool {
    match e {
        StackEdit::Remove(i) => i < len,
        StackEdit::MoveUp(i) => 0 < i < len,
        StackEdit::MoveDown(i) => i + 1 < len,
    }
}

/// The stack after an edit: the row removed, or traded with its neighbour.
pub open spec fn edited_stack<T>(s: Seq<T>, e: StackEdit) -> Seq<T> {
    match e {
        StackEdit::Remove(i) => s.remove(i as int),
        StackEdit::MoveUp(i) => s.update(i as int, s[i - 1]).update(i - 1, s[i as int]),
        StackEdit::MoveDown(i) => s.update(i as int, s[i + 1]).update(i + 1, s[i as int]),
    }
}

/// Applies a row edit to the modifier stack. The buttons only offer edits
/// that apply (see `can_move_up`, `can_move_down`).
pub fn apply_stack_edit<T>(stack: &mut Vec<T>, e: StackEdit)
    requires
        edit_applies(e, old(stack)@.len()),
    ensures
        final(stack)@ == edited_stack(old(stack)@, e),
{
    match e {
        StackEdit::Remove(i) => {
            stack.remove(i);
        },
        StackEdit::MoveUp(i) => {
            let moved = stack.remove(i);
            stack.insert(i - 1, moved);
            assert(stack@ =~= edited_stack(old(stack)@, e));
        },
        StackEdit::MoveDown(i) => {
            assert(i + 1 < old(stack).len());
            let moved = stack.remove(i);
            stack.insert(i + 1, moved);
            assert(stack@ =~= edited_stack(old(stack)@, e));
        },
    }
}

/// Moving a row up and then back down restores the stack, and the other way
/// round.
pub proof fn lemma_moves_undo_each_other<T>(s: Seq<T>, i: usize)
    requires
        0 < i < s.len(),
    ensures
        edited_stack(edited_stack(s, StackEdit::MoveUp(i)), StackEdit::MoveDown((i - 1) as usize)) == s,
        edited_stack(edited_stack(s, StackEdit::MoveDown((i - 1) as usize)), StackEdit::MoveUp(i)) == s,
{
    assert(edited_stack(edited_stack(s, StackEdit::MoveUp(i)), StackEdit::MoveDown((i - 1) as usize)) =~= s);
    assert(edited_stack(edited_stack(s, StackEdit::MoveDown((i - 1) as usize)), StackEdit::MoveUp(i)) =~= s);
}

/// Moves keep every modifier of the stack (they only reorder it), and a
/// removal takes exactly one row out.
pub proof fn lemma_moves_keep_the_modifiers<T>(s: Seq<T>, e: StackEdit)
    requires
        edit_applies(e, s.len()),
    ensures
        e !is Remove ==> edited_stack(s, e).to_multiset() == s.to_multiset(),
        e is Remove ==> edited_stack(s, e).len() + 1 == s.len(),
{
    match e {
        StackEdit::Remove(i) => {},
        StackEdit::MoveUp(i) => {
            lemma_swap_keeps_multiset(s, (i - 1) as int, i as int);
        },
        StackEdit::MoveDown(i) => {
            lemma_swap_keeps_multiset(s, i as int, (i + 1) as int);
            assert(s.update(i as int, s[i + 1]).update(i + 1, s[i as int])
                =~= s.update(i + 1, s[i as int]).update(i as int, s[i + 1]));
        },
    }
}

proof fn lemma_swap_keeps_multiset<T>(s: Seq<T>, a: int, b: int)
    requires
        0 <= a < b < s.len(),
    ensures
        s.update(b, s[a]).update(a, s[b]).to_multiset() == s.to_multiset(),
{
    broadcast use {
        vstd::seq_lib::group_to_multiset_ensures,
        vstd::multiset::group_multiset_axioms,
    };
    let m = s.to_multiset();
    let t = s.update(b, s[a]);
    vstd::seq_lib::to_multiset_update(s, b, s[a]);
    vstd::seq_lib::to_multiset_update(t, a, s[b]);
    assert(s.contains(s[b]));
    assert(m.count(s[b]) > 0);
    assert(t[a] == s[a]);
    assert(t.update(a, s[b]).to_multiset() =~= m);
}

} // verus!

verus! {

/// An annotation is held against transforms when it is locked itself or
/// the annotations are locked as a collection.
pub fn annotation_is_locked(locked: bool, collection_locked: bool) -> (r: bool)
    ensures
        r == (locked || collection_locked),
{
    locked || collection_locked
}

/// The choices of the annotation's subgroup picker: the root first, then
/// each subgroup; the label and whether it is the current one.
pub fn subgroup_choices(current: &Option<String>, groups: &Vec<String>) -> (r: Vec<(String, bool)>)
    ensures
        r.len() == groups.len() + 1,
        r@[0].0@ == "(Root / No subgroup)"@,
        r@[0].1 == current.is_none(),
        forall|i: int| 0 <= i < groups.len() ==> (#[trigger] r@[i + 1]).0@ == groups@[i]@
            && r@[i + 1].1 == (opt_text(*current) == Some(groups@[i]@)),
{
    let mut r: Vec<(String, bool)> = Vec::new();
    r.push((String::from_str("(Root / No subgroup)"), current.is_none()));
    let mut i: usize = 0;
    while i < groups.len()
        invariant
            i <= groups.len(),
            r.len() == i + 1,
            r@[0].0@ == "(Root / No subgroup)"@,
            r@[0].1 == current.is_none(),
            forall|k: int| 0 <= k < i ==> (#[trigger] r@[k + 1]).0@ == groups@[k]@
                && r@[k + 1].1 == (opt_text(*current) == Some(groups@[k]@)),
        decreases groups.len() - i,
    {
        let selected = match current {
            Some(c) => str_eq(c.as_str(), groups[i].as_str()),
            None => false,
        };
        r.push((groups[i].clone(), selected));
        i = i + 1;
    }
    r
}

/// The label of the picked subgroup: its name, or the root's label.
pub fn subgroup_label(current: &Option<String>) -> (r: String)
    ensures
        r@ == (match opt_text(*current) {
            Some(c) => c,
            None => "(Root / No subgroup)"@,
        }),
{
    match current {
        Some(c) => c.clone(),
        None => String::from_str("(Root / No subgroup)"),
    }
}

/// The name shown for the active object's material: the name of the
/// material with its id, or "Nenhum" when it has none (or an unknown one).
pub fn material_label(materials: &Vec<(u128, String)>, active: Option<u128>) -> (r: String)
    ensures
        (exists|i: int| 0 <= i < materials.len() && Some(#[trigger] materials@[i].0) == active) ==>
            exists|i: int| 0 <= i < materials.len() && Some(#[trigger] materials@[i].0) == active
                && r@ == materials@[i].1@
                && forall|j: int| 0 <= j < i ==> Some(#[trigger] materials@[j].0) != active,
        !(exists|i: int| 0 <= i < materials.len() && Some(#[trigger] materials@[i].0) == active) ==> r@ == "Nenhum"@,
{
    let mut i: usize = 0;
    while i < materials.len()
        invariant
            i <= materials.len(),
            forall|j: int| 0 <= j < i ==> Some(#[trigger] materials@[j].0) != active,
        decreases materials.len() - i,
    {
        if Some(materials[i].0) == active {
            return materials[i].1.clone();
        }
        i = i + 1;
    }
    String::from_str("Nenhum")
}

/// The name of a material made with "+ Novo": "Material N", N one past the
/// number of materials of the project.
pub fn new_material_name(count: usize) -> (r: String)
    requires
        count < usize::MAX,
    ensures
        r@ == "Material "@ + decimal((count + 1) as nat),
{
    let mut r = String::from_str("Material ");
    let digits = decimal_text(count + 1);
    r.append(digits.as_str());
    r
}

/// How a material blends with what is behind it.
#[derive(Debug, Clone, Copy, PartialEq, Eq, Structural)]
pub enum AlphaMode {
    Opaque,
    Mask,
    Blend,
}

/// The label of an alpha mode in the material tab.
pub fn alpha_mode_label(m: AlphaMode) -> (r: &'static str)
    ensures
        r == (match m {
            AlphaMode::Opaque => "Opaco",
            AlphaMode::Mask => "Máscara (Cutoff)",
            AlphaMode::Blend => "Translucidez (Blend)",
        }),
{
    match m {
        AlphaMode::Opaque => "Opaco",
        AlphaMode::Mask => "Máscara (Cutoff)",
        AlphaMode::Blend => "Translucidez (Blend)",
    }
}

/// Whether the alpha cutoff slider is shown: only for the Mask mode.
pub fn shows_alpha_cutoff(m: AlphaMode) -> (r: bool)
    ensures
        r == (m == AlphaMode::Mask),
{
    m == AlphaMode::Mask
}

/// The Boolean operations of the object inspector.
#[derive(Debug, Clone, Copy, PartialEq, Eq, Structural)]
pub enum BooleanOp {
    Fuse,
    Cut,
    Intersect,
    Join,
}

/// The Boolean buttons, in order, each with the command it runs.
pub fn boolean_operations() -> (r: Vec<(BooleanOp, &'static str)>)
    ensures
        r@ == seq![
            (BooleanOp::Fuse, "model.fuse"),
            (BooleanOp::Cut, "model.cut"),
            (BooleanOp::Intersect, "model.intersect"),
            (BooleanOp::Join, "model.join"),
        ],
{
    let r = vec![
        (BooleanOp::Fuse, "model.fuse"),
        (BooleanOp::Cut, "model.cut"),
        (BooleanOp::Intersect, "model.intersect"),
        (BooleanOp::Join, "model.join"),
    ];
    assert(r@ =~= seq![
        (BooleanOp::Fuse, "model.fuse"),
        (BooleanOp::Cut, "model.cut"),
        (BooleanOp::Intersect, "model.intersect"),
        (BooleanOp::Join, "model.join"),
    ]);
    r
}

} // verus!

verus! {

/// The sections the inspector search lists, by position in the flat list
/// (Transform, Geometry, Modifiers, Display, Material): those whose
/// translated title, lowercased, holds the query.
pub open spec fn matched_sections(titles: Seq<String>, query: Seq<char>) -> Seq<usize>
    decreases titles.len(),
{
    if titles.len() == 0 {
        Seq::empty()
    } else {
        let prev = matched_sections(titles.drop_last(), query);
        if query.len() == 0 || has_substring(lowercase(titles.last()@), query) {
            prev.push((titles.len() - 1) as usize)
        } else {
            prev
        }
    }
}

/// The sections the inspector search shows for a (trimmed, lowercased)
/// query; when none matches, the inspector says there are no results.
pub fn matching_sections(titles: &Vec<String>, query: &str) -> (r: Vec<usize>)
    ensures
        r@ == matched_sections(titles@, query@),
{
    let mut r: Vec<usize> = Vec::new();
    let mut i: usize = 0;
    while i < titles.len()
        invariant
            i <= titles.len(),
            r@ == matched_sections(titles@.subrange(0, i as int), query@),
        decreases titles.len() - i,
    {
        assert(titles@.subrange(0, i + 1).drop_last() =~= titles@.subrange(0, i as int));
        if section_matches(query, titles[i].as_str()) {
            r.push(i);
        }
        i = i + 1;
    }
    assert(titles@.subrange(0, titles@.len() as int) =~= titles@);
    r
}

/// The creation shortcuts of an empty scene, with the key of each label;
/// an OBJ import follows them.
pub fn quick_add_primitives() -> (r: Vec<(&'static str, PrimitiveKind)>)
    ensures
        r@ == seq![("prims.cube", PrimitiveKind::Cube), ("prims.sphere", PrimitiveKind::Sphere), ("prims.plane", PrimitiveKind::Plane)],
{
    let r = vec![("prims.cube", PrimitiveKind::Cube), ("prims.sphere", PrimitiveKind::Sphere), ("prims.plane", PrimitiveKind::Plane)];
    assert(r@ =~= seq![("prims.cube", PrimitiveKind::Cube), ("prims.sphere", PrimitiveKind::Sphere), ("prims.plane", PrimitiveKind::Plane)]);
    r
}

} // verus!

verus! {

/// For an object or its components, Paint shares the Model inspector: the
/// view depends on the workspace only through whether it is the UV
/// workspace. Outside UV, an expanded inspector is the full one and a
/// collapsed one is the object bar; an annotation or measurement focus
/// shows its own tab in every workspace.
pub proof fn lemma_paint_shares_the_model_inspector(focus: InspectorFocus, workspace: Workspace, collapsed: bool)
    ensures
        spec_inspector_view(focus, Workspace::Paint, collapsed) == spec_inspector_view(focus, Workspace::Model, collapsed),
        (focus is Object || focus is Components) && workspace != Workspace::Uv ==>
            spec_inspector_view(focus, workspace, collapsed) == (if collapsed { InspectorView::ObjectBar } else { InspectorView::Full }),
        (focus is Object || focus is Components) ==> spec_inspector_view(focus, Workspace::Uv, collapsed) == InspectorView::WorkspacePanel,
        focus matches InspectorFocus::Annotation(id) ==> spec_inspector_view(focus, workspace, collapsed) == InspectorView::AnnotationTab(id),
        focus matches InspectorFocus::Measurement(id) ==> spec_inspector_view(focus, workspace, collapsed) == InspectorView::MeasurementTab(id),
{
}

} // verus!
