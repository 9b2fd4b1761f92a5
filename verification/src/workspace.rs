use vstd::prelude::*;

verus! {

/// The workspaces of the shell.
#[derive(Debug, Clone, Copy, PartialEq, Eq, Structural)]
pub enum Workspace {
    Model,
    Paint,
    Uv,
}

/// What a click selects in the viewport: whole objects, or a component of
/// the active mesh.
#[derive(Debug, Clone, Copy, PartialEq, Eq, Structural)]
pub enum SelectionDomain {
    Object,
    Vertex,
    Edge,
    Face,
}

} // verus!
