use vstd::prelude::*;

verus! {

/// Region slot of the shell. One writer per slot.
#[derive(Debug, Clone, Copy, PartialEq, Eq, Hash, Structural)]
pub enum RegionSlot {
    Header,
    ViewportToolbar,
    StatusBar,
    LeftTools,
    AssetBrowser,
    BottomDock,
    RightDock,
    RightOutliner,
    RightInspector,
    UvEditor,
    /// The 2D canvas of the PAINT workspace (center, beside the 3D view).
    PaintCanvas,
    Viewport,
    Shelf,
    ToolProperties,
    PrimitiveCard,
}

} // verus!
