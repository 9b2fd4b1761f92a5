use vstd::prelude::*;

use crate::icons::PetuniaIcon;
use crate::text::{opt_text, contains_substring, contains_text, decimal, decimal_text, texts, has_substring, lemma_decimal_injective, lowercase, lowercase_text, spec_trim, str_eq, trim_text};

verus! {

/// Identity of a node of the Outliner tree (uuids as their 128-bit value).
#[derive(Debug, Clone, PartialEq, Eq, Hash)]
pub enum OutlinerNodeId {
    AnnotationCollection,
    AnnotationSubgroup(String),
    Annotation(u128),
    MeasurementCollection,
    Measurement(u128),
    SceneCollection,
    Collection(String),
    Camera,
    Light,
    Asset(u128),
    ReferenceImages,
    ReferenceImage(usize),
}

/// Whether nothing has been created in the scene yet (the tree has nothing
/// to show, so the Outliner offers creation shortcuts instead).
pub fn scene_is_empty(assets: usize, collections: usize, annotations: usize, measurements: usize) -> (r: bool)
    ensures
        r == (assets == 0 && collections == 0 && annotations == 0 && measurements == 0),
{
    assets == 0 && collections == 0 && annotations == 0 && measurements == 0
}

/// The object-state filter of the Scene tree.
#[derive(Debug, Clone, Copy, PartialEq, Eq, Structural)]
pub enum SceneObjectState {
    All,
    VisibleOnly,
    UnlockedOnly,
}

/// The query the Scene search filters by: the typed text, trimmed and lowercased.
pub fn search_query(typed: &str) -> (r: String)
    ensures
        r@ == lowercase(spec_trim(typed@)),
{
    lowercase_text(trim_text(typed))
}

pub open spec fn spec_asset_passes_filters(
    name: Seq<char>,
    visible: bool,
    locked: bool,
    query: Seq<char>,
    state: SceneObjectState,
) -> bool {
    (query.len() == 0 || has_substring(lowercase(name), query)) && match state {
        SceneObjectState::All => true,
        SceneObjectState::VisibleOnly => visible,
        SceneObjectState::UnlockedOnly => !locked,
    }
}

/// Whether an object row survives the Scene filters: its lowercased name
/// holds the query (any name does for an empty query), and it matches the
/// object-state filter.
pub fn asset_passes_filters(name: &str, visible: bool, locked: bool, query: &str, state: SceneObjectState) -> (r: bool)
    ensures
        r == spec_asset_passes_filters(name@, visible, locked, query@, state),
{
    if !query.is_empty() {
        let lowered = lowercase_text(name);
        if !contains_substring(lowered.as_str(), query) {
            return false;
        }
    }
    match state {
        SceneObjectState::All => true,
        SceneObjectState::VisibleOnly => visible,
        SceneObjectState::UnlockedOnly => !locked,
    }
}

/// Whether an inspector section is listed for a search query: every section
/// is for an empty query, otherwise the lowercased title must hold it.
pub fn section_matches(query: &str, title: &str) -> (r: bool)
    ensures
        r == (query@.len() == 0 || has_substring(lowercase(title@), query@)),
{
    if query.is_empty() {
        return true;
    }
    let lowered = lowercase_text(title);
    contains_substring(lowered.as_str(), query)
}

/// The object that the inspector bar shows while components are selected:
/// the active object, clamped to the last one; none in an empty scene.
pub fn component_bar_index(active: usize, count: usize) -> (r: Option<usize>)
    ensures
        count == 0 ==> r is None,
        count > 0 ==> r == Some(if active < count { active } else { (count - 1) as usize }),
{
    if count == 0 {
        None
    } else if active < count {
        Some(active)
    } else {
        Some(count - 1)
    }
}

} // verus!

verus! {

/// What the Outliner has selected besides the active object: at most one
/// annotation or one measurement.
#[derive(Debug, Clone, Copy, PartialEq, Eq, Structural)]
pub struct OutlinerSelection {
    pub annotation: Option<u128>,
    pub measurement: Option<u128>,
}

impl OutlinerSelection {
    /// Annotation and measurement are never selected together.
    pub open spec fn is_exclusive(self) -> bool {
        !(self.annotation is Some && self.measurement is Some)
    }
}

pub open spec fn spec_select_node(sel: OutlinerSelection, node: OutlinerNodeId) -> OutlinerSelection {
    match node {
        OutlinerNodeId::Asset(_) => OutlinerSelection { annotation: None, measurement: None },
        OutlinerNodeId::Annotation(id) => OutlinerSelection { annotation: Some(id), measurement: None },
        OutlinerNodeId::Measurement(id) => OutlinerSelection { annotation: None, measurement: Some(id) },
        _ => sel,
    }
}

/// The selection after a tree node is picked: an object clears both, an
/// annotation or a measurement takes the place of the other; any other
/// node leaves the selection as it was.
pub fn select_node(sel: OutlinerSelection, node: &OutlinerNodeId) -> (r: OutlinerSelection)
    ensures
        r == spec_select_node(sel, *node),
{
    match node {
        OutlinerNodeId::Asset(_) => OutlinerSelection { annotation: None, measurement: None },
        OutlinerNodeId::Annotation(id) => OutlinerSelection { annotation: Some(*id), measurement: None },
        OutlinerNodeId::Measurement(id) => OutlinerSelection { annotation: None, measurement: Some(*id) },
        _ => sel,
    }
}

/// Picking nodes keeps the annotation and measurement selections exclusive.
pub proof fn lemma_selection_stays_exclusive(sel: OutlinerSelection, node: OutlinerNodeId)
    requires
        sel.is_exclusive(),
    ensures
        spec_select_node(sel, node).is_exclusive(),
{
}

/// What a keyboard shortcut of the Outliner acts on.
#[derive(Debug, Clone, Copy, PartialEq, Eq, Structural)]
pub enum OutlinerTarget {
    Annotation(u128),
    Measurement(u128),
    Object(usize),
}

/// What Delete (or Backspace) removes: the selected annotation, else the
/// selected measurement, else the active object if there is one.
pub fn delete_target(sel: OutlinerSelection, active: usize, objects: usize) -> (r: Option<OutlinerTarget>)
    ensures
        r == (match sel.annotation {
            Some(a) => Some(OutlinerTarget::Annotation(a)),
            None => match sel.measurement {
                Some(m) => Some(OutlinerTarget::Measurement(m)),
                None => if active < objects { Some(OutlinerTarget::Object(active)) } else { None },
            },
        }),
{
    match sel.annotation {
        Some(a) => Some(OutlinerTarget::Annotation(a)),
        None => match sel.measurement {
            Some(m) => Some(OutlinerTarget::Measurement(m)),
            None => if active < objects { Some(OutlinerTarget::Object(active)) } else { None },
        },
    }
}

/// What Shift+D (or Cmd+D) duplicates: the selected annotation, else the
/// active object if there is one; measurements are not duplicated.
pub fn duplicate_target(sel: OutlinerSelection, active: usize, objects: usize) -> (r: Option<OutlinerTarget>)
    ensures
        r == (match sel.annotation {
            Some(a) => Some(OutlinerTarget::Annotation(a)),
            None => if active < objects { Some(OutlinerTarget::Object(active)) } else { None },
        }),
{
    match sel.annotation {
        Some(a) => Some(OutlinerTarget::Annotation(a)),
        None => if active < objects { Some(OutlinerTarget::Object(active)) } else { None },
    }
}

/// Whether the Annotations collection is listed: there is something in it
/// (annotations or subgroups) or the annotate tool is active, and the scene
/// filter shows annotations.
pub fn shows_annotation_collection(annotations: usize, subgroups: usize, active_tool: &str, filter_shows: bool) -> (r: bool)
    ensures
        r == ((annotations > 0 || subgroups > 0 || active_tool@ == "annotate"@) && filter_shows),
{
    (annotations > 0 || subgroups > 0 || str_eq(active_tool, "annotate")) && filter_shows
}

/// Whether the Measurements collection is listed: there are measurements or
/// the measure tool is active, and the scene filter shows measurements.
pub fn shows_measurement_collection(measurements: usize, active_tool: &str, filter_shows: bool) -> (r: bool)
    ensures
        r == ((measurements > 0 || active_tool@ == "measure"@) && filter_shows),
{
    (measurements > 0 || str_eq(active_tool, "measure")) && filter_shows
}

} // verus!

verus! {

/// The `n`-th name of a numbered series: the prefix, then `n` in decimal.
pub open spec fn numbered_name(prefix: Seq<char>, n: nat) -> Seq<char> {
    prefix + decimal(n)
}

/// The first number from `from` on whose name is not taken, counting at
/// most `budget` numbers past `from`.
pub open spec fn first_free_number(prefix: Seq<char>, taken: Seq<Seq<char>>, from: nat, budget: nat) -> nat
    decreases budget,
{
    if budget == 0 || !taken.contains(numbered_name(prefix, from)) {
        from
    } else {
        first_free_number(prefix, taken, from + 1, (budget - 1) as nat)
    }
}

/// Distinct numbers give distinct names of a series.
pub proof fn lemma_numbered_names_distinct(prefix: Seq<char>, a: nat, b: nat)
    requires
        numbered_name(prefix, a) == numbered_name(prefix, b),
    ensures
        a == b,
{
    let p = prefix;
    assert(numbered_name(prefix, a).subrange(p.len() as int, numbered_name(prefix, a).len() as int) =~= decimal(a));
    assert(numbered_name(prefix, b).subrange(p.len() as int, numbered_name(prefix, b).len() as int) =~= decimal(b));
    lemma_decimal_injective(a, b);
}

/// The names of the numbers `from..to`.
spec fn names_between(prefix: Seq<char>, from: nat, to: nat) -> Set<Seq<char>>
    decreases to - from,
{
    if to <= from {
        Set::empty()
    } else {
        names_between(prefix, from, (to - 1) as nat).insert(numbered_name(prefix, (to - 1) as nat))
    }
}

proof fn lemma_names_between(prefix: Seq<char>, from: nat, to: nat)
    requires
        from <= to,
    ensures
        names_between(prefix, from, to).finite(),
        names_between(prefix, from, to).len() == to - from,
        forall|x: Seq<char>| #[trigger] names_between(prefix, from, to).contains(x)
            <==> exists|j: nat| from <= j < to && x == numbered_name(prefix, j),
    decreases to - from,
{
    if to > from {
        let last = (to - 1) as nat;
        lemma_names_between(prefix, from, last);
        if names_between(prefix, from, last).contains(numbered_name(prefix, last)) {
            let j = choose|j: nat| from <= j < last && numbered_name(prefix, last) == numbered_name(prefix, j);
            lemma_numbered_names_distinct(prefix, last, j);
        }
        assert forall|x: Seq<char>| #[trigger] names_between(prefix, from, to).contains(x)
            implies exists|j: nat| from <= j < to && x == numbered_name(prefix, j) by {
            if x != numbered_name(prefix, last) {
                let j = choose|j: nat| from <= j < last && x == numbered_name(prefix, j);
                assert(from <= j < to && x == numbered_name(prefix, j));
            }
        }
        assert forall|x: Seq<char>| (exists|j: nat| from <= j < to && x == numbered_name(prefix, j))
            implies #[trigger] names_between(prefix, from, to).contains(x) by {
            let j = choose|j: nat| from <= j < to && x == numbered_name(prefix, j);
            if j < last {
                assert(names_between(prefix, from, last).contains(x));
            }
        }
    } else {
        assert forall|x: Seq<char>| #[trigger] names_between(prefix, from, to).contains(x)
            <==> exists|j: nat| from <= j < to && x == numbered_name(prefix, j) by {
        }
    }
}

/// When the names of `count` consecutive numbers are all taken, there are
/// at least `count` names in the list.
proof fn lemma_taken_names_bound(prefix: Seq<char>, taken: Seq<Seq<char>>, from: nat, count: nat)
    requires
        forall|j: nat| from <= j < from + count ==> taken.contains(#[trigger] numbered_name(prefix, j)),
    ensures
        count <= taken.len(),
{
    lemma_names_between(prefix, from, from + count);
    assert(names_between(prefix, from, from + count).subset_of(taken.to_set())) by {
        assert forall|x: Seq<char>| #[trigger] names_between(prefix, from, from + count).contains(x)
            implies taken.to_set().contains(x) by {
            let j = choose|j: nat| from <= j < from + count && x == numbered_name(prefix, j);
            assert(taken.contains(numbered_name(prefix, j)));
        }
    }
    vstd::seq_lib::seq_to_set_is_finite(taken);
    vstd::set_lib::lemma_len_subset(names_between(prefix, from, from + count), taken.to_set());
    taken.lemma_cardinality_of_set();
}

} // verus!

verus! {

fn numbered_name_text(prefix: &str, n: usize) -> (r: String)
    ensures
        r@ == numbered_name(prefix@, n as nat),
{
    let mut s = String::from_str(prefix);
    let digits = decimal_text(n);
    s.append(digits.as_str());
    s
}

/// The first free name of a numbered series: the prefix followed by the
/// first number, from one past the number of names in the list, whose name
/// the list does not hold yet. Such a number comes within as many tries as
/// the list has names.
pub fn first_free_name(prefix: &str, names: &Vec<String>) -> (r: String)
    requires
        2 * names.len() + 1 <= usize::MAX,
    ensures
        r@ == numbered_name(prefix@, first_free_number(prefix@, texts(names@), (names.len() + 1) as nat, names.len() as nat)),
        !texts(names@).contains(r@),
{
    let ghost taken = texts(names@);
    let ghost len = names.len() as nat;
    let start = names.len() + 1;
    let mut num = start;
    let mut name = numbered_name_text(prefix, num);
    while contains_text(names, name.as_str())
        invariant
            taken == texts(names@),
            len == names.len(),
            start == len + 1,
            2 * len + 1 <= usize::MAX,
            start <= num <= start + len,
            name@ == numbered_name(prefix@, num as nat),
            forall|j: nat| start <= j < num ==> taken.contains(#[trigger] numbered_name(prefix@, j)),
            first_free_number(prefix@, taken, start as nat, len)
                == first_free_number(prefix@, taken, num as nat, (len - (num - start)) as nat),
        decreases start + len - num,
    {
        proof {
            assert(taken.contains(numbered_name(prefix@, num as nat)));
            assert forall|j: nat| start <= j < start + (num + 1 - start) implies taken.contains(
                #[trigger] numbered_name(prefix@, j),
            ) by {
                if j == num {
                } else {
                    assert(start <= j < num);
                }
            }
            lemma_taken_names_bound(prefix@, taken, start as nat, (num + 1 - start) as nat);
            assert(texts(names@).len() == names@.len());
        }
        num = num + 1;
        name = numbered_name_text(prefix, num);
    }
    name
}

/// The name that "New Subgroup..." gives: "Subgroup N", for the first N
/// from one past the number of subgroups whose name is not taken yet.
pub fn new_subgroup_name(groups: &Vec<String>) -> (r: String)
    requires
        2 * groups.len() + 1 <= usize::MAX,
    ensures
        r@ == numbered_name("Subgroup "@, first_free_number("Subgroup "@, texts(groups@), (groups.len() + 1) as nat, groups.len() as nat)),
        !texts(groups@).contains(r@),
{
    first_free_name("Subgroup ", groups)
}

/// The name of a collection made with the Outliner's folder button:
/// "Coleção N", for the first N from one past the number of collections
/// whose name is not taken yet.
pub fn new_collection_name(collections: &Vec<String>) -> (r: String)
    requires
        2 * collections.len() + 1 <= usize::MAX,
    ensures
        r@ == numbered_name("Coleção "@, first_free_number("Coleção "@, texts(collections@), (collections.len() + 1) as nat, collections.len() as nat)),
        !texts(collections@).contains(r@),
{
    first_free_name("Coleção ", collections)
}

} // verus!

verus! {

/// The names of a list, with `from` replaced by `to` wherever it occurs.
pub open spec fn renamed(names: Seq<Seq<char>>, from: Seq<char>, to: Seq<char>) -> Seq<Seq<char>> {
    names.map_values(|c: Seq<char>| if c == from { to } else { c })
}

/// The collection an object is filed under (none for the scene root).
pub open spec fn filing(o: Option<String>) -> Option<Seq<char>> {
    match o {
        Some(s) => Some(s@),
        None => None,
    }
}

/// The collection each object is filed under.
pub open spec fn filings(v: Seq<Option<String>>) -> Seq<Option<Seq<char>>> {
    v.map_values(|o: Option<String>| filing(o))
}

/// The filings with the collection `from` renamed to `to`.
pub open spec fn refiled(v: Seq<Option<Seq<char>>>, from: Seq<char>, to: Seq<char>) -> Seq<Option<Seq<char>>> {
    v.map_values(|o: Option<Seq<char>>| if o == Some(from) { Some(to) } else { o })
}

/// Whether a collection may be renamed to `to`: the name is not blank and no
/// collection has it yet.
pub open spec fn rename_allowed(collections: Seq<Seq<char>>, to: Seq<char>) -> bool {
    spec_trim(to).len() > 0 && !collections.contains(to)
}

/// Renames the collection `from` to `to`, in the list of collections and in
/// the filing of every object. A blank name, or one that a collection already
/// has, is refused: nothing changes and the result is `false`.
pub fn rename_collection(
    collections: &mut Vec<String>,
    objects: &mut Vec<Option<String>>,
    from: &str,
    to: &str,
) -> (r: bool)
    ensures
        r == rename_allowed(texts(old(collections)@), to@),
        r ==> texts(final(collections)@) == renamed(texts(old(collections)@), from@, to@),
        r ==> filings(final(objects)@) == refiled(filings(old(objects)@), from@, to@),
        !r ==> final(collections)@ == old(collections)@ && final(objects)@ == old(objects)@,
{
    if trim_text(to).is_empty() || contains_text(collections, to) {
        return false;
    }
    let ghost names0 = texts(collections@);
    let mut i: usize = 0;
    while i < collections.len()
        invariant
            i <= collections.len(),
            names0.len() == collections.len(),
            forall|k: int| 0 <= k < i ==> #[trigger] collections@[k]@ == renamed(names0, from@, to@)[k],
            forall|k: int| i <= k < collections.len() ==> #[trigger] collections@[k]@ == names0[k],
        decreases collections.len() - i,
    {
        if str_eq(collections[i].as_str(), from) {
            collections.set(i, String::from_str(to));
        }
        i = i + 1;
    }
    assert(texts(collections@) =~= renamed(names0, from@, to@));
    let ghost filed0 = filings(objects@);
    assert forall|k: int| 0 <= k < objects.len() implies #[trigger] filing(objects@[k]) == filed0[k] by {}
    let mut j: usize = 0;
    while j < objects.len()
        invariant
            j <= objects.len(),
            filed0.len() == objects.len(),
            forall|k: int| 0 <= k < j ==> #[trigger] filing(objects@[k]) == refiled(filed0, from@, to@)[k],
            forall|k: int| j <= k < objects.len() ==> #[trigger] filing(objects@[k]) == filed0[k],
        decreases objects.len() - j,
    {
        let ghost before = objects@[j as int];
        assert(filing(before) == filed0[j as int]);
        let hit = match &objects[j] {
            Some(c) => {
                assert(before == Some(*c));
                str_eq(c.as_str(), from)
            },
            None => false,
        };
        assert(hit == (filed0[j as int] == Some(from@)));
        if hit {
            objects.set(j, Some(String::from_str(to)));
        }
        j = j + 1;
    }
    assert(filings(objects@) =~= refiled(filed0, from@, to@));
    true
}

} // verus!

verus! {

/// The name of an annotation's duplicate: the annotation's name, marked as a copy.
pub fn duplicated_annotation_name(name: &str) -> (r: String)
    ensures
        r@ == name@ + " (cópia)"@,
{
    let mut r = String::from_str(name);
    r.append(" (cópia)");
    r
}

} // verus!

verus! {

/// What an item of an object row's context menu does.
#[derive(Debug, Clone, Copy, PartialEq, Eq, Structural)]
pub enum RowCommand {
    Rename,
    Duplicate,
    ToggleLock,
    ToggleIsolate,
    /// Opens the "Move to Collection" submenu.
    MoveToCollection,
    Export,
    Delete,
}

/// One item of an object row's context menu.
#[derive(Debug, Clone, Copy)]
pub struct RowMenuItem {
    pub label_key: &'static str,
    pub icon: Option<PetuniaIcon>,
    pub shortcut: Option<&'static str>,
    pub command: RowCommand,
}

pub open spec fn row_item(label_key: &'static str, icon: Option<PetuniaIcon>, shortcut: Option<&'static str>, command: RowCommand) -> RowMenuItem {
    RowMenuItem { label_key, icon, shortcut, command }
}

pub open spec fn spec_object_row_menu(locked: bool, isolating_it: bool, has_collections: bool) -> Seq<RowMenuItem> {
    let head = seq![
        row_item("context.rename", None, Some("F2"), RowCommand::Rename),
        row_item("actions.duplicate", Some(PetuniaIcon::Duplicate), Some("Shift+D"), RowCommand::Duplicate),
        if locked {
            row_item("context.unlock", Some(PetuniaIcon::Unlock), None, RowCommand::ToggleLock)
        } else {
            row_item("context.lock", Some(PetuniaIcon::Lock), None, RowCommand::ToggleLock)
        },
        row_item(
            if isolating_it { "context.isolate_exit" } else { "context.isolate" },
            Some(PetuniaIcon::Eye),
            Some("Numpad /"),
            RowCommand::ToggleIsolate,
        ),
    ];
    let moves = if has_collections {
        seq![row_item("context.move_to_collection", None, None, RowCommand::MoveToCollection)]
    } else {
        Seq::empty()
    };
    head + moves + seq![
        row_item("context.export", None, None, RowCommand::Export),
        row_item("actions.delete", Some(PetuniaIcon::Trash), Some("Delete"), RowCommand::Delete),
    ]
}

/// The context menu of an object row: rename, duplicate, lock or unlock,
/// isolate (or leave isolation when this object is the isolated active
/// one), the collection submenu when there are collections, export and
/// delete.
pub fn object_row_menu(locked: bool, isolating_it: bool, has_collections: bool) -> (r: Vec<RowMenuItem>)
    ensures
        r@ == spec_object_row_menu(locked, isolating_it, has_collections),
{
    let lock = if locked {
        RowMenuItem { label_key: "context.unlock", icon: Some(PetuniaIcon::Unlock), shortcut: None, command: RowCommand::ToggleLock }
    } else {
        RowMenuItem { label_key: "context.lock", icon: Some(PetuniaIcon::Lock), shortcut: None, command: RowCommand::ToggleLock }
    };
    let isolate_key = if isolating_it { "context.isolate_exit" } else { "context.isolate" };
    let mut r = vec![
        RowMenuItem { label_key: "context.rename", icon: None, shortcut: Some("F2"), command: RowCommand::Rename },
        RowMenuItem { label_key: "actions.duplicate", icon: Some(PetuniaIcon::Duplicate), shortcut: Some("Shift+D"), command: RowCommand::Duplicate },
        lock,
        RowMenuItem { label_key: isolate_key, icon: Some(PetuniaIcon::Eye), shortcut: Some("Numpad /"), command: RowCommand::ToggleIsolate },
    ];
    if has_collections {
        r.push(RowMenuItem { label_key: "context.move_to_collection", icon: None, shortcut: None, command: RowCommand::MoveToCollection });
    }
    r.push(RowMenuItem { label_key: "context.export", icon: None, shortcut: None, command: RowCommand::Export });
    r.push(RowMenuItem { label_key: "actions.delete", icon: Some(PetuniaIcon::Trash), shortcut: Some("Delete"), command: RowCommand::Delete });
    assert(r@ =~= spec_object_row_menu(locked, isolating_it, has_collections));
    r
}

/// The entries of the "Move to Collection" submenu after "None (root)":
/// each collection, the object's current one marked with a bullet.
pub fn move_to_collection_labels(collections: &Vec<String>, current: &Option<String>) -> (r: Vec<String>)
    ensures
        r.len() == collections.len(),
        forall|i: int| 0 <= i < collections.len() ==> (#[trigger] r@[i])@ == (
            if opt_text(*current) == Some(collections@[i]@) { "• "@ + collections@[i]@ } else { collections@[i]@ }
        ),
{
    let mut r: Vec<String> = Vec::new();
    let mut i: usize = 0;
    while i < collections.len()
        invariant
            i <= collections.len(),
            r.len() == i,
            forall|k: int| 0 <= k < i ==> (#[trigger] r@[k])@ == (
                if opt_text(*current) == Some(collections@[k]@) { "• "@ + collections@[k]@ } else { collections@[k]@ }
            ),
        decreases collections.len() - i,
    {
        let is_current = match current {
            Some(c) => str_eq(c.as_str(), collections[i].as_str()),
            None => false,
        };
        if is_current {
            let mut label = String::from_str("• ");
            label.append(collections[i].as_str());
            r.push(label);
        } else {
            r.push(collections[i].clone());
        }
        i = i + 1;
    }
    r
}

/// Whether an object row shows its delete button: only on demand, when the
/// row is hovered, focused or selected.
pub fn shows_row_delete(hovered: bool, focused: bool, selected: bool) -> (r: bool)
    ensures
        r == (hovered || focused || selected),
{
    hovered || focused || selected
}

} // verus!

verus! {

/// The Scene search of the Outliner header.
pub struct SceneSearch {
    pub open: bool,
    /// The field asks for the keyboard on the next frame.
    pub focus_request: bool,
    pub query: String,
}

/// The search button of the Outliner header: opening the search asks for
/// the keyboard; closing it clears the query.
pub fn toggle_scene_search(s: &mut SceneSearch)
    ensures
        final(s).open == !old(s).open,
        final(s).open ==> final(s).focus_request && final(s).query@ == old(s).query@,
        !final(s).open ==> final(s).query@.len() == 0 && final(s).focus_request == old(s).focus_request,
{
    s.open = !s.open;
    if s.open {
        s.focus_request = true;
    } else {
        s.query = String::new();
    }
}

/// The tooltip key of the isolate button: it says whether isolation is on.
pub fn isolate_tip(isolating: bool) -> (r: &'static str)
    ensures
        r == (if isolating { "context.isolate_tip_on" } else { "context.isolate_tip" }),
{
    if isolating { "context.isolate_tip_on" } else { "context.isolate_tip" }
}

/// Which sections of the Scene tree the filter shows.
#[derive(Debug, Clone, Copy, PartialEq, Eq, Structural)]
pub struct SectionFilter {
    pub collections: bool,
    pub annotations: bool,
    pub measurements: bool,
    pub refs: bool,
}

/// The section checkboxes of the filter menu, in order: the key of each
/// label and whether it is checked.
pub fn section_filter_items(f: SectionFilter) -> (r: Vec<(&'static str, bool)>)
    ensures
        r@ == seq![
            ("scene.f_collections", f.collections),
            ("scene.f_annotations", f.annotations),
            ("scene.f_measurements", f.measurements),
            ("scene.f_refs", f.refs),
        ],
{
    let r = vec![
        ("scene.f_collections", f.collections),
        ("scene.f_annotations", f.annotations),
        ("scene.f_measurements", f.measurements),
        ("scene.f_refs", f.refs),
    ];
    assert(r@ =~= seq![
        ("scene.f_collections", f.collections),
        ("scene.f_annotations", f.annotations),
        ("scene.f_measurements", f.measurements),
        ("scene.f_refs", f.refs),
    ]);
    r
}

/// The filter after a section checkbox (0 to 3, in menu order) is set;
/// any other index stands for the last one, as in the menu.
pub fn set_section_filter(f: SectionFilter, item: usize, on: bool) -> (r: SectionFilter)
    ensures
        r == (if item == 0 {
            SectionFilter { collections: on, ..f }
        } else if item == 1 {
            SectionFilter { annotations: on, ..f }
        } else if item == 2 {
            SectionFilter { measurements: on, ..f }
        } else {
            SectionFilter { refs: on, ..f }
        }),
{
    if item == 0 {
        SectionFilter { collections: on, ..f }
    } else if item == 1 {
        SectionFilter { annotations: on, ..f }
    } else if item == 2 {
        SectionFilter { measurements: on, ..f }
    } else {
        SectionFilter { refs: on, ..f }
    }
}

} // verus!

verus! {

/// Renaming a collection and then renaming it back restores both the list
/// of collections and the filing of every object, provided the new name was
/// free: no collection had it and no object was filed under it.
pub proof fn lemma_rename_round_trip(
    collections: Seq<Seq<char>>,
    filed: Seq<Option<Seq<char>>>,
    from: Seq<char>,
    to: Seq<char>,
)
    requires
        !collections.contains(to),
        forall|i: int| 0 <= i < filed.len() ==> filed[i] != Some(to),
    ensures
        renamed(renamed(collections, from, to), to, from) == collections,
        refiled(refiled(filed, from, to), to, from) == filed,
{
    assert forall|i: int| 0 <= i < collections.len() implies collections[i] != to by {
        if collections[i] == to {
            assert(collections.contains(to));
        }
    }
    assert(renamed(renamed(collections, from, to), to, from) =~= collections);
    assert(refiled(refiled(filed, from, to), to, from) =~= filed);
}

} // verus!

verus! {

/// The object-state filter reads only its own flag: with no query, every
/// row passes All; a row passes Visible-only exactly when it is visible,
/// whatever its lock; and Unlocked-only exactly when it is unlocked, whatever
/// its visibility. With a query, each state keeps exactly the rows that the
/// query keeps and that meet its flag.
pub proof fn lemma_state_filters_read_their_own_flag(name: Seq<char>, visible: bool, locked: bool, query: Seq<char>)
    ensures
        spec_asset_passes_filters(name, visible, locked, Seq::empty(), SceneObjectState::All),
        spec_asset_passes_filters(name, visible, locked, Seq::empty(), SceneObjectState::VisibleOnly) == visible,
        spec_asset_passes_filters(name, visible, locked, Seq::empty(), SceneObjectState::UnlockedOnly) == !locked,
        spec_asset_passes_filters(name, visible, locked, query, SceneObjectState::VisibleOnly)
            == (spec_asset_passes_filters(name, visible, locked, query, SceneObjectState::All) && visible),
        spec_asset_passes_filters(name, visible, locked, query, SceneObjectState::UnlockedOnly)
            == (spec_asset_passes_filters(name, visible, locked, query, SceneObjectState::All) && !locked),
        spec_asset_passes_filters(name, visible, true, query, SceneObjectState::VisibleOnly)
            == spec_asset_passes_filters(name, visible, false, query, SceneObjectState::VisibleOnly),
        spec_asset_passes_filters(name, true, locked, query, SceneObjectState::UnlockedOnly)
            == spec_asset_passes_filters(name, false, locked, query, SceneObjectState::UnlockedOnly),
{
}

} // verus!

verus! {

/// The search keeps a row whose lowercased name holds the query and drops
/// one whose lowercased name is shorter than the query; with no query it
/// keeps every row. A row that passes a state filter passes All.
pub proof fn lemma_search_keeps_matching_names(
    name: Seq<char>,
    visible: bool,
    locked: bool,
    query: Seq<char>,
    state: SceneObjectState,
)
    ensures
        spec_asset_passes_filters(name, visible, locked, Seq::empty(), SceneObjectState::All),
        lowercase(name) == query ==> spec_asset_passes_filters(name, visible, locked, query, SceneObjectState::All),
        lowercase(name) + seq!['x'] == query ==> !spec_asset_passes_filters(name, visible, locked, query, SceneObjectState::All),
        spec_asset_passes_filters(name, visible, locked, query, state)
            ==> spec_asset_passes_filters(name, visible, locked, query, SceneObjectState::All),
{
    if lowercase(name) == query {
        assert(lowercase(name).subrange(0int, 0int + query.len()) =~= query);
        assert(has_substring(lowercase(name), query));
    }
}

} // verus!
