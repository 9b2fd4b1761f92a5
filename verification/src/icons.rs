use vstd::prelude::*;

verus! {

/// Icons that the tool palettes and menus draw next to their entries.
#[derive(Debug, Clone, Copy, PartialEq, Eq)]
pub enum PetuniaIcon {
    SelectBox,
    Cursor3D,
    Transform,
    Move,
    Rotate,
    Scale,
    Measure,
    Annotate,
    Extrude,
    Inset,
    Bevel,
    LoopCut,
    Knife,
    PushPull,
    Slice,
    Subdivide,
    DrawProfile,
    PaintBrush,
    PaintEraser,
    PaintFill,
    PaintLine,
    PaintRect,
    PaintPicker,
    Duplicate,
    Delete,
    ReferenceImage,
    Lock,
    Unlock,
    Eye,
    EyeHidden,
    Pin,
    Folder,
    Trash,
    ModeObject,
    SelectVertex,
    SelectEdge,
    SelectFace,
    /// An icon looked up by name in the active icon pack.
    Custom(&'static str),
}

} // verus!
