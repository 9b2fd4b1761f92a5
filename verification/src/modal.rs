use vstd::prelude::*;

use crate::tokens::Rgba;
use crate::tool_fields::ModalKind;
use crate::viewport::ModalConstraint;

verus! {

pub open spec fn spec_constraint_after_key(current: ModalConstraint, axis: usize, shift: bool) -> ModalConstraint {
    let pressed = if shift { ModalConstraint::Plane(axis) } else { ModalConstraint::Axis(axis) };
    if current == pressed { ModalConstraint::Free } else { pressed }
}

/// The constraint after X, Y or Z (axis 0, 1, 2) is pressed during a modal
/// operation: the key locks to its axis, or with Shift to the plane
/// normal to it; pressing the same again frees the operation.
pub fn constraint_after_key(current: ModalConstraint, axis: usize, shift: bool) -> (r: ModalConstraint)
    ensures
        r == spec_constraint_after_key(current, axis, shift),
{
    let pressed = if shift { ModalConstraint::Plane(axis) } else { ModalConstraint::Axis(axis) };
    if current == pressed { ModalConstraint::Free } else { pressed }
}

/// Pressing the same constraint key twice from a free operation frees it again.
pub proof fn lemma_constraint_key_toggles(axis: usize, shift: bool)
    ensures
        spec_constraint_after_key(spec_constraint_after_key(ModalConstraint::Free, axis, shift), axis, shift)
            == ModalConstraint::Free,
{
}

pub open spec fn spec_locked_axes(c: ModalConstraint) -> [bool; 3] {
    match c {
        ModalConstraint::Axis(0) => [true, false, false],
        ModalConstraint::Axis(1) => [false, true, false],
        ModalConstraint::Axis(2) => [false, false, true],
        ModalConstraint::Plane(0) => [false, true, true],
        ModalConstraint::Plane(1) => [true, false, true],
        ModalConstraint::Plane(2) => [true, true, false],
        _ => [false, false, false],
    }
}

/// The axes the viewport bar shows as locked for a constraint: the axis
/// itself, or the two axes of a plane.
pub fn locked_axes(c: ModalConstraint) -> (r: [bool; 3])
    ensures
        r == spec_locked_axes(c),
{
    match c {
        ModalConstraint::Axis(0) => [true, false, false],
        ModalConstraint::Axis(1) => [false, true, false],
        ModalConstraint::Axis(2) => [false, false, true],
        ModalConstraint::Plane(0) => [false, true, true],
        ModalConstraint::Plane(1) => [true, false, true],
        ModalConstraint::Plane(2) => [true, true, false],
        _ => [false, false, false],
    }
}

/// A plane locks exactly the axes that its normal axis does not.
pub proof fn lemma_plane_locks_the_other_axes(axis: usize, k: int)
    requires
        axis < 3,
        0 <= k < 3,
    ensures
        spec_locked_axes(ModalConstraint::Plane(axis))[k] == !spec_locked_axes(ModalConstraint::Axis(axis))[k],
{
}

/// Whether a character may be typed into the numeric entry of a modal
/// operation: a digit, a decimal point or comma, or a sign.
pub open spec fn is_numeric_char(c: char) -> bool {
    ('0' <= c && c <= '9') || c == '.' || c == ',' || c == '-' || c == '+'
}

/// The most characters the numeric entry holds.
pub const NUMERIC_CAPACITY: usize = 64;

/// What a numeric entry can hold: numeric characters, within capacity.
pub open spec fn numeric_text(s: Seq<char>) -> bool {
    &&& s.len() <= NUMERIC_CAPACITY
    &&& forall|i: int| 0 <= i < s.len() ==> is_numeric_char(#[trigger] s[i])
}

/// The number typed during a modal operation, as text.
pub struct NumericEntry {
    text: String,
}

impl NumericEntry {
    /// The typed characters (commas already turned into points).
    pub closed spec fn view(&self) -> Seq<char> {
        self.text@
    }

    #[verifier::type_invariant]
    closed spec fn holds_numeric_text(&self) -> bool {
        numeric_text(self.text@)
    }

    /// An empty entry.
    pub fn new() -> (r: NumericEntry)
        ensures
            r.view().len() == 0,
            numeric_text(r.view()),
    {
        NumericEntry { text: String::new() }
    }

    /// Whether typed text is taken: no Ctrl or Cmd is held, every character
    /// is numeric, and the entry stays within its capacity.
    pub open spec fn accepts(&self, text: Seq<char>, command: bool) -> bool {
        &&& !command
        &&& forall|i: int| 0 <= i < text.len() ==> is_numeric_char(#[trigger] text[i])
        &&& self.view().len() + text.len() <= NUMERIC_CAPACITY
    }

    /// Types text into the entry: taken whole (a comma becoming a decimal
    /// point) or not at all.
    pub fn type_text(&mut self, text: &str, command: bool)
        ensures
            old(self).accepts(text@, command) ==> final(self).view()
                == old(self).view() + text@.map_values(|c: char| if c == ',' { '.' } else { c }),
            !old(self).accepts(text@, command) ==> final(self).view() == old(self).view(),
            numeric_text(final(self).view()),
    {
        proof { use_type_invariant(&*self); }
        let ghost before = self.text@;
        if command {
            return;
        }
        let n = text.unicode_len();
        let mut i: usize = 0;
        while i < n
            invariant
                self.text@ == before,
                numeric_text(before),
                n == text@.len(),
                i <= n,
                forall|k: int| 0 <= k < i ==> is_numeric_char(#[trigger] text@[k]),
            decreases n - i,
        {
            let c = text.get_char(i);
            if !(('0' <= c && c <= '9') || c == '.' || c == ',' || c == '-' || c == '+') {
                return;
            }
            i = i + 1;
        }
        let len = self.text.as_str().unicode_len();
        if n > NUMERIC_CAPACITY || len > NUMERIC_CAPACITY - n {
            return;
        }
        let ghost mapped = text@.map_values(|c: char| if c == ',' { '.' } else { c });
        let mut typed = self.text.clone();
        let mut j: usize = 0;
        while j < n
            invariant
                n == text@.len(),
                j <= n,
                before.len() + n <= NUMERIC_CAPACITY,
                forall|k: int| 0 <= k < n ==> is_numeric_char(#[trigger] text@[k]),
                mapped == text@.map_values(|c: char| if c == ',' { '.' } else { c }),
                typed@ == before + mapped.subrange(0, j as int),
            decreases n - j,
        {
            if text.get_char(j) == ',' {
                proof { reveal_strlit("."); }
                typed.append(".");
            } else {
                typed.append(text.substring_char(j, j + 1));
            }
            assert(typed@ =~= before + mapped.subrange(0, j + 1));
            j = j + 1;
        }
        assert(mapped.subrange(0, n as int) =~= mapped);
        assert forall|k: int| 0 <= k < typed@.len() implies is_numeric_char(#[trigger] typed@[k]) by {
            if k >= before.len() {
                assert(typed@[k] == mapped[k - before.len()]);
            }
        }
        self.text = typed;
    }

    /// Backspace: the last typed character goes.
    pub fn backspace(&mut self)
        ensures
            old(self).view().len() == 0 ==> final(self).view() == old(self).view(),
            old(self).view().len() > 0 ==> final(self).view() == old(self).view().drop_last(),
            numeric_text(final(self).view()),
    {
        proof { use_type_invariant(&*self); }
        let len = self.text.as_str().unicode_len();
        if len > 0 {
            let kept = String::from_str(self.text.as_str().substring_char(0, len - 1));
            assert(kept@ =~= self.text@.drop_last());
            self.text = kept;
        }
    }

    /// Whether nothing has been typed.
    pub fn is_empty(&self) -> (r: bool)
        ensures
            r == (self.view().len() == 0),
    {
        self.text.as_str().unicode_len() == 0
    }

    /// The typed text.
    pub fn text(&self) -> (r: String)
        ensures
            r@ == self.view(),
    {
        self.text.clone()
    }
}

} // verus!

verus! {

/// The name of a modal operation in its on-screen HUD.
pub fn modal_label(kind: ModalKind) -> (r: &'static str)
    ensures
        r == (match kind {
            ModalKind::Move => "Mover",
            ModalKind::Rotate => "Rotacionar",
            ModalKind::Scale => "Escalar",
            ModalKind::Extrude => "Extrusão",
            ModalKind::ExtrudeIndividual => "Extrusão individual",
            ModalKind::Inset => "Inserção",
            ModalKind::Bevel => "Chanfro",
            ModalKind::PushPull => "Push/Pull",
        }),
{
    match kind {
        ModalKind::Move => "Mover",
        ModalKind::Rotate => "Rotacionar",
        ModalKind::Scale => "Escalar",
        ModalKind::Extrude => "Extrusão",
        ModalKind::ExtrudeIndividual => "Extrusão individual",
        ModalKind::Inset => "Inserção",
        ModalKind::Bevel => "Chanfro",
        ModalKind::PushPull => "Push/Pull",
    }
}

/// The unit written after the value in the HUD: degrees for a rotation, a
/// factor for a scale or an inset, metres otherwise.
pub fn modal_unit(kind: ModalKind) -> (r: &'static str)
    ensures
        r == (match kind {
            ModalKind::Rotate => "°",
            ModalKind::Scale => "×",
            ModalKind::Inset => " fator",
            _ => " m",
        }),
{
    match kind {
        ModalKind::Rotate => "°",
        ModalKind::Scale => "×",
        ModalKind::Inset => " fator",
        _ => " m",
    }
}

pub open spec fn spec_constraint_badge(c: ModalConstraint) -> (&'static str, Rgba) {
    match c {
        ModalConstraint::Axis(0) => ("AXIS X", Rgba { r: 0xe0, g: 0x3c, b: 0x42, a: 255 }),
        ModalConstraint::Axis(1) => ("AXIS Y", Rgba { r: 0x62, g: 0xc9, b: 0x34, a: 255 }),
        ModalConstraint::Axis(2) => ("AXIS Z", Rgba { r: 0x31, g: 0x82, b: 0xf6, a: 255 }),
        ModalConstraint::Plane(0) => ("PLANE YZ (Shift+X)", Rgba { r: 30, g: 144, b: 180, a: 255 }),
        ModalConstraint::Plane(1) => ("PLANE XZ (Shift+Y)", Rgba { r: 142, g: 68, b: 173, a: 255 }),
        ModalConstraint::Plane(2) => ("PLANE XY (Shift+Z)", Rgba { r: 211, g: 84, b: 0, a: 255 }),
        _ => ("FREE", Rgba { r: 80, g: 85, b: 95, a: 255 }),
    }
}

/// The HUD's constraint badge and the color of its frame: an axis in the
/// axis color, a plane with the shortcut that makes it, or FREE.
pub fn constraint_badge(c: ModalConstraint) -> (r: (&'static str, Rgba))
    ensures
        r == spec_constraint_badge(c),
{
    match c {
        ModalConstraint::Axis(0) => ("AXIS X", Rgba { r: 0xe0, g: 0x3c, b: 0x42, a: 255 }),
        ModalConstraint::Axis(1) => ("AXIS Y", Rgba { r: 0x62, g: 0xc9, b: 0x34, a: 255 }),
        ModalConstraint::Axis(2) => ("AXIS Z", Rgba { r: 0x31, g: 0x82, b: 0xf6, a: 255 }),
        ModalConstraint::Plane(0) => ("PLANE YZ (Shift+X)", Rgba { r: 30, g: 144, b: 180, a: 255 }),
        ModalConstraint::Plane(1) => ("PLANE XZ (Shift+Y)", Rgba { r: 142, g: 68, b: 173, a: 255 }),
        ModalConstraint::Plane(2) => ("PLANE XY (Shift+Z)", Rgba { r: 211, g: 84, b: 0, a: 255 }),
        _ => ("FREE", Rgba { r: 80, g: 85, b: 95, a: 255 }),
    }
}

/// The last line of the HUD: how to confirm or cancel, or that the typed
/// value cannot be used.
pub fn hud_hint(valid_preview: bool) -> (r: &'static str)
    ensures
        r == (if valid_preview {
            "Enter/LMB: confirmar · Esc/RMB: cancelar"
        } else {
            "Valor inválido — ajuste ou cancele"
        }),
{
    if valid_preview {
        "Enter/LMB: confirmar · Esc/RMB: cancelar"
    } else {
        "Valor inválido — ajuste ou cancele"
    }
}

/// What a frame does with an operator armed from a menu but not started.
#[derive(Debug, Clone, Copy, PartialEq, Eq, Structural)]
pub enum PendingStep {
    /// Escape: the operator is dropped.
    Drop,
    /// The pointer is over the viewport: the operator starts there.
    Start,
    /// The viewport asks for the pointer to come over it.
    Wait,
}

/// An armed operator waits for the pointer to enter the viewport; Escape
/// drops it first.
pub fn pending_step(escape: bool, pointer_inside: bool) -> (r: PendingStep)
    ensures
        r == (if escape { PendingStep::Drop } else if pointer_inside { PendingStep::Start } else { PendingStep::Wait }),
{
    if escape {
        PendingStep::Drop
    } else if pointer_inside {
        PendingStep::Start
    } else {
        PendingStep::Wait
    }
}

/// Whether a running operation is cancelled: Escape or a right click.
pub fn modal_cancels(escape: bool, secondary_pressed: bool) -> (r: bool)
    ensures
        r == (escape || secondary_pressed),
{
    escape || secondary_pressed
}

/// Whether a running operation is confirmed this frame: never in the frame
/// it started; then Enter, or a click in the viewport: the release of the
/// button for an operation started by dragging a gizmo handle, a press
/// otherwise. An invalid preview is never committed.
pub fn modal_commits(
    started: bool,
    enter: bool,
    inside: bool,
    from_handle: bool,
    primary_pressed: bool,
    primary_released: bool,
    valid_preview: bool,
) -> (r: bool)
    ensures
        r == (!started && (enter || (inside && (if from_handle { primary_released } else { primary_pressed })))
            && valid_preview),
{
    let click = if from_handle { primary_released } else { primary_pressed };
    !started && (enter || (inside && click)) && valid_preview
}

/// Whether the value snaps to the grid (or to 15° steps for a rotation):
/// Ctrl is held or snapping is on, and no number was typed.
pub fn value_snaps(ctrl: bool, snap_enabled: bool, typed_number: bool) -> (r: bool)
    ensures
        r == ((ctrl || snap_enabled) && !typed_number),
{
    (ctrl || snap_enabled) && !typed_number
}

} // verus!

verus! {

/// An X, Y or Z press frees the operation exactly when the constraint it
/// asks for (the axis, or with Shift the plane normal to it) is already in
/// force; in every other case, whatever the current constraint, the
/// operation takes the asked-for constraint.
pub proof fn lemma_constraint_key_locks_or_frees(current: ModalConstraint, axis: usize, shift: bool)
    ensures
        !shift && current != ModalConstraint::Axis(axis) ==> spec_constraint_after_key(current, axis, shift) == ModalConstraint::Axis(axis),
        shift && current != ModalConstraint::Plane(axis) ==> spec_constraint_after_key(current, axis, shift) == ModalConstraint::Plane(axis),
        !shift && current == ModalConstraint::Axis(axis) ==> spec_constraint_after_key(current, axis, shift) == ModalConstraint::Free,
        shift && current == ModalConstraint::Plane(axis) ==> spec_constraint_after_key(current, axis, shift) == ModalConstraint::Free,
        spec_constraint_after_key(current, axis, shift) != ModalConstraint::Free ==>
            spec_constraint_after_key(current, axis, shift) == (if shift { ModalConstraint::Plane(axis) } else { ModalConstraint::Axis(axis) }),
{
}

} // verus!
