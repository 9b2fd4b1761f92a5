use vstd::prelude::*;

verus! {

/// The species of primitive that a creation session can place.
#[derive(Debug, Clone, Copy, PartialEq, Eq, Structural)]
pub enum PrimitiveKind {
    Cube,
    Sphere,
    Cylinder,
    Plane,
    Cone,
    Capsule,
    Wedge,
    Circle,
    Torus,
    Icosphere,
}

pub open spec fn spec_primitive_kind_of(index: usize) -> PrimitiveKind {
    if index == 0 {
        PrimitiveKind::Cube
    } else if index == 1 {
        PrimitiveKind::Sphere
    } else if index == 2 {
        PrimitiveKind::Cylinder
    } else if index == 3 {
        PrimitiveKind::Plane
    } else if index == 4 {
        PrimitiveKind::Cone
    } else if index == 5 {
        PrimitiveKind::Capsule
    } else if index == 6 {
        PrimitiveKind::Wedge
    } else if index == 7 {
        PrimitiveKind::Circle
    } else if index == 8 {
        PrimitiveKind::Torus
    } else {
        PrimitiveKind::Icosphere
    }
}

/// The species that the creation index of the Add menus stands for; an index
/// past the end is the icosphere.
pub fn primitive_kind_of(index: usize) -> (r: PrimitiveKind)
    ensures
        r == spec_primitive_kind_of(index),
{
    match index {
        0 => PrimitiveKind::Cube,
        1 => PrimitiveKind::Sphere,
        2 => PrimitiveKind::Cylinder,
        3 => PrimitiveKind::Plane,
        4 => PrimitiveKind::Cone,
        5 => PrimitiveKind::Capsule,
        6 => PrimitiveKind::Wedge,
        7 => PrimitiveKind::Circle,
        8 => PrimitiveKind::Torus,
        _ => PrimitiveKind::Icosphere,
    }
}

/// Every species has a creation index, and distinct indices below ten
/// create distinct species.
pub proof fn lemma_creation_indices_cover_every_species(kind: PrimitiveKind)
    ensures
        exists|i: usize| i < 10 && #[trigger] spec_primitive_kind_of(i) == kind,
        forall|a: usize, b: usize| a < 10 && b < 10 && a != b
            ==> #[trigger] spec_primitive_kind_of(a) != #[trigger] spec_primitive_kind_of(b),
{
    match kind {
        PrimitiveKind::Cube => assert(spec_primitive_kind_of(0) == kind),
        PrimitiveKind::Sphere => assert(spec_primitive_kind_of(1) == kind),
        PrimitiveKind::Cylinder => assert(spec_primitive_kind_of(2) == kind),
        PrimitiveKind::Plane => assert(spec_primitive_kind_of(3) == kind),
        PrimitiveKind::Cone => assert(spec_primitive_kind_of(4) == kind),
        PrimitiveKind::Capsule => assert(spec_primitive_kind_of(5) == kind),
        PrimitiveKind::Wedge => assert(spec_primitive_kind_of(6) == kind),
        PrimitiveKind::Circle => assert(spec_primitive_kind_of(7) == kind),
        PrimitiveKind::Torus => assert(spec_primitive_kind_of(8) == kind),
        PrimitiveKind::Icosphere => assert(spec_primitive_kind_of(9) == kind),
    }
}

} // verus!
