use vstd::prelude::*;

use crate::text::{decimal, decimal_text};

verus! {

broadcast use vstd::seq_lib::group_to_multiset_ensures;

/// Whether a list of indices is in ascending order.
pub open spec fn ascending(s: Seq<usize>) -> bool {
    forall|i: int, j: int| 0 <= i < j < s.len() ==> s[i] <= s[j]
}

/// The indices of the selected faces, in order.
pub open spec fn selected_positions(selected: Seq<bool>) -> Seq<usize>
    decreases selected.len(),
{
    if selected.len() == 0 {
        Seq::empty()
    } else {
        let prev = selected_positions(selected.drop_last());
        if selected.last() { prev.push((selected.len() - 1) as usize) } else { prev }
    }
}

/// The same indices in ascending order.
fn sorted_indices(v: &Vec<usize>) -> (r: Vec<usize>)
    ensures
        ascending(r@),
        r@.to_multiset() == v@.to_multiset(),
{
    let mut r: Vec<usize> = Vec::new();
    let mut i: usize = 0;
    while i < v.len()
        invariant
            i <= v.len(),
            ascending(r@),
            r@.to_multiset() == v@.subrange(0, i as int).to_multiset(),
        decreases v.len() - i,
    {
        let x = v[i];
        let mut p: usize = 0;
        while p < r.len() && r[p] <= x
            invariant
                p <= r.len(),
                ascending(r@),
                forall|k: int| 0 <= k < p ==> r@[k] <= x,
            decreases r.len() - p,
        {
            p = p + 1;
        }
        let ghost before = r@;
        r.insert(p, x);
        proof {
            vstd::seq_lib::to_multiset_insert(before, p as int, x);
            assert(v@.subrange(0, i + 1) =~= v@.subrange(0, i as int).push(x));
            assert forall|a: int, b: int| 0 <= a < b < r@.len() implies r@[a] <= r@[b] by {
                if a < p && b < p {
                    assert(r@[a] == before[a] && r@[b] == before[b]);
                } else if a < p && b == p {
                    assert(r@[a] == before[a]);
                } else if a < p {
                    assert(r@[a] == before[a] && r@[b] == before[b - 1]);
                } else if a == p {
                    assert(r@[b] == before[b - 1]);
                    assert(p < before.len());
                    assert(before[p as int] > x);
                } else {
                    assert(r@[a] == before[a - 1] && r@[b] == before[b - 1]);
                }
            }
        }
        i = i + 1;
    }
    assert(v@.subrange(0, v@.len() as int) =~= v@);
    r
}

/// The faces a UV operation acts on: the faces picked in the UV editor, in
/// ascending order; when none is picked there, the faces selected on the
/// active mesh.
pub fn selected_uv_faces(uv_selected: &Vec<usize>, face_selected: &Vec<bool>) -> (r: Vec<usize>)
    ensures
        uv_selected@.len() > 0 ==> ascending(r@) && r@.to_multiset() == uv_selected@.to_multiset(),
        uv_selected@.len() == 0 ==> r@ == selected_positions(face_selected@),
{
    if uv_selected.len() > 0 {
        return sorted_indices(uv_selected);
    }
    selected_face_indices(face_selected)
}

/// The indices of the selected faces, in order.
pub fn selected_face_indices(face_selected: &Vec<bool>) -> (r: Vec<usize>)
    ensures
        r@ == selected_positions(face_selected@),
{
    let mut r: Vec<usize> = Vec::new();
    let mut i: usize = 0;
    while i < face_selected.len()
        invariant
            i <= face_selected.len(),
            r@ == selected_positions(face_selected@.subrange(0, i as int)),
        decreases face_selected.len() - i,
    {
        assert(face_selected@.subrange(0, i + 1).drop_last() =~= face_selected@.subrange(0, i as int));
        if face_selected[i] {
            r.push(i);
        }
        i = i + 1;
    }
    assert(face_selected@.subrange(0, face_selected@.len() as int) =~= face_selected@);
    r
}

proof fn lemma_selected_positions(selected: Seq<bool>)
    requires
        selected.len() <= usize::MAX,
    ensures
        forall|k: int| 0 <= k < selected_positions(selected).len() ==>
            (#[trigger] selected_positions(selected)[k]) < selected.len() && selected[selected_positions(selected)[k] as int],
        forall|a: int, b: int| 0 <= a < b < selected_positions(selected).len()
            ==> selected_positions(selected)[a] < selected_positions(selected)[b],
        forall|i: int| 0 <= i < selected.len() && #[trigger] selected[i]
            ==> selected_positions(selected).contains(i as usize),
    decreases selected.len(),
{
    if selected.len() > 0 {
        let init = selected.drop_last();
        lemma_selected_positions(init);
        let prev = selected_positions(init);
        let r = selected_positions(selected);
        let n = (selected.len() - 1) as usize;
        if selected.last() {
            assert(r == prev.push(n));
        } else {
            assert(r == prev);
        }
        assert forall|k: int| 0 <= k < r.len() implies
            (#[trigger] r[k]) < selected.len() && selected[r[k] as int] by {
            if k < prev.len() {
                assert(r[k] == prev[k]);
                assert(init[prev[k] as int] == selected[prev[k] as int]);
            }
        }
        assert forall|i: int| 0 <= i < selected.len() && #[trigger] selected[i] implies r.contains(i as usize) by {
            if i < init.len() {
                assert(init[i] == selected[i]);
                let m = choose|m: int| 0 <= m < prev.len() && prev[m] == i as usize;
                assert(r[m] == prev[m]);
            } else {
                assert(r[r.len() - 1] == n);
            }
        }
    }
}

/// Without UV-editor picks, the operation acts on exactly the selected faces
/// of the mesh, each once and in ascending order.
pub proof fn lemma_mesh_selection_fallback(face_selected: Seq<bool>)
    requires
        face_selected.len() <= usize::MAX,
    ensures
        forall|i: int| 0 <= i < face_selected.len()
            ==> (face_selected[i] <==> #[trigger] selected_positions(face_selected).contains(i as usize)),
        forall|a: int, b: int| 0 <= a < b < selected_positions(face_selected).len()
            ==> selected_positions(face_selected)[a] < selected_positions(face_selected)[b],
{
    lemma_selected_positions(face_selected);
    assert forall|i: int| 0 <= i < face_selected.len()
        implies (face_selected[i] <==> #[trigger] selected_positions(face_selected).contains(i as usize)) by {
        if selected_positions(face_selected).contains(i as usize) {
            let m = choose|m: int| 0 <= m < selected_positions(face_selected).len()
                && selected_positions(face_selected)[m] == i as usize;
            assert(face_selected[selected_positions(face_selected)[m] as int]);
        }
    }
}

/// A click on a face of the UV editor: the face's selection flips (a
/// click that hits no face of the mesh changes nothing), and the editor's
/// picks become the selected faces of the mesh.
pub fn click_uv_face(face_selected: &mut Vec<bool>, hit: usize) -> (r: Vec<usize>)
    ensures
        hit < old(face_selected)@.len() ==> final(face_selected)@ == flipped(old(face_selected)@, hit as int),
        hit >= old(face_selected)@.len() ==> final(face_selected)@ == old(face_selected)@,
        r@ == selected_positions(final(face_selected)@),
{
    if hit < face_selected.len() {
        let flipped = !face_selected[hit];
        face_selected.set(hit, flipped);
    }
    selected_face_indices(face_selected)
}

/// The face selection with the selection of face `hit` flipped.
pub open spec fn flipped(selected: Seq<bool>, hit: int) -> Seq<bool> {
    selected.update(hit, !selected[hit])
}

/// Two clicks on the same face leave the selection as it was.
pub proof fn lemma_double_click_restores(selected: Seq<bool>, hit: int)
    requires
        0 <= hit < selected.len(),
    ensures
        flipped(flipped(selected, hit), hit) == selected,
{
    assert(flipped(flipped(selected, hit), hit) =~= selected);
}

/// Whether the editor draws a face as selected: picked in the editor or
/// selected on the mesh.
pub fn uv_face_highlighted(uv_selected: &Vec<usize>, face: usize, face_selected: bool) -> (r: bool)
    ensures
        r == (uv_selected@.contains(face) || face_selected),
{
    if face_selected {
        return true;
    }
    let mut i: usize = 0;
    while i < uv_selected.len()
        invariant
            i <= uv_selected.len(),
            forall|k: int| 0 <= k < i ==> uv_selected@[k] != face,
        decreases uv_selected.len() - i,
    {
        if uv_selected[i] == face {
            return true;
        }
        i = i + 1;
    }
    false
}

/// The status line after Auto Unwrap: the number of islands it made, or
/// the error it met.
pub fn unwrap_status(result: &Result<usize, String>) -> (r: String)
    ensures
        result matches Ok(n) ==> r@ == "Auto Unwrap: "@ + decimal(n as nat) + " ilhas geradas"@,
        result matches Err(e) ==> r@ == "Erro no Unwrap: "@ + e@,
{
    match result {
        Ok(n) => {
            let mut r = String::from_str("Auto Unwrap: ");
            let digits = decimal_text(*n);
            r.append(digits.as_str());
            r.append(" ilhas geradas");
            r
        },
        Err(e) => {
            let mut r = String::from_str("Erro no Unwrap: ");
            r.append(e.as_str());
            r
        },
    }
}

} // verus!
