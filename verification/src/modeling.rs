use vstd::prelude::*;

use crate::tool_fields::ModalKind;

verus! {

/// The number of cuts the Subdivide card stores from its slider (1 to 6).
pub fn subdivide_cuts(slider: i64) -> (r: u32)
    ensures
        r == (if slider < 1 { 1 } else if slider > 6 { 6 } else { slider }),
{
    if slider < 1 {
        1
    } else if slider > 6 {
        6
    } else {
        slider as u32
    }
}

/// The number of segments the Revolve card stores from its slider (3 to 64).
pub fn revolve_segments(slider: i64) -> (r: u32)
    ensures
        r == (if slider < 3 { 3 } else if slider > 64 { 64 } else { slider }),
{
    if slider < 3 {
        3
    } else if slider > 64 {
        64
    } else {
        slider as u32
    }
}

/// The tooltip of a tool card's action button: why it is disabled, or its
/// shortcut when it is enabled.
pub fn action_tooltip(reason: &Option<String>, shortcut: &str) -> (r: String)
    ensures
        r@ == (match reason {
            Some(why) => why@,
            None => shortcut@,
        }),
{
    match reason {
        Some(why) => why.clone(),
        None => String::from_str(shortcut),
    }
}

/// What choosing Move, Rotate or Scale on the Transform card sets: the
/// active tool, the gizmo mode and the operator armed for the viewport.
pub fn transform_activation(kind: ModalKind) -> (r: Option<(&'static str, ModalKind, ModalKind)>)
    ensures
        r == (match kind {
            ModalKind::Move => Some(("move", ModalKind::Move, ModalKind::Move)),
            ModalKind::Rotate => Some(("rotate", ModalKind::Rotate, ModalKind::Rotate)),
            ModalKind::Scale => Some(("scale", ModalKind::Scale, ModalKind::Scale)),
            _ => None,
        }),
{
    match kind {
        ModalKind::Move => Some(("move", ModalKind::Move, ModalKind::Move)),
        ModalKind::Rotate => Some(("rotate", ModalKind::Rotate, ModalKind::Rotate)),
        ModalKind::Scale => Some(("scale", ModalKind::Scale, ModalKind::Scale)),
        _ => None,
    }
}

/// A profile being drawn for Draw Profile: its points and whether it is closed.
pub struct ProfileDraft<P> {
    pub points: Vec<P>,
    pub closed: bool,
}

impl<P> ProfileDraft<P> {
    /// Only a profile of three points or more is closed.
    pub open spec fn closes_properly(&self) -> bool {
        self.closed ==> self.points@.len() >= 3
    }

    /// "Close": a profile of three points or more closes; a shorter one stays
    /// as it is.
    pub fn close(&mut self)
        ensures
            final(self).points@ == old(self).points@,
            final(self).closed == (old(self).closed || old(self).points@.len() >= 3),
            old(self).closes_properly() ==> final(self).closes_properly(),
    {
        if self.points.len() >= 3 {
            self.closed = true;
        }
    }

    /// "Undo point": the last point goes and the profile opens again.
    pub fn undo_point(&mut self)
        ensures
            old(self).points@.len() == 0 ==> final(self).points@ == old(self).points@,
            old(self).points@.len() > 0 ==> final(self).points@ == old(self).points@.drop_last(),
            !final(self).closed,
            final(self).closes_properly(),
    {
        if self.points.len() > 0 {
            self.points.pop();
        }
        self.closed = false;
    }

    /// "Clear": no points, open.
    pub fn clear(&mut self)
        ensures
            final(self).points@.len() == 0,
            !final(self).closed,
            final(self).closes_properly(),
    {
        self.points = Vec::new();
        self.closed = false;
    }
}

} // verus!
