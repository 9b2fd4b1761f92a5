use vstd::prelude::*;

use crate::icons::PetuniaIcon;
use crate::text::opt_text;
use crate::primitive::PrimitiveKind;
use crate::workspace::SelectionDomain;

verus! {

/// Families of the Add menu.
#[derive(Debug, Clone, Copy, PartialEq, Eq, Structural)]
pub enum PrimitiveGroup {
    Basic,
    Round,
    Organic,
}

pub open spec fn spec_primitive_menu_groups() -> Seq<(PrimitiveGroup, Seq<PrimitiveKind>)> {
    seq![
        (PrimitiveGroup::Basic, seq![PrimitiveKind::Cube, PrimitiveKind::Plane, PrimitiveKind::Wedge]),
        (PrimitiveGroup::Round, seq![PrimitiveKind::Cylinder, PrimitiveKind::Cone, PrimitiveKind::Circle, PrimitiveKind::Torus]),
        (PrimitiveGroup::Organic, seq![PrimitiveKind::Sphere, PrimitiveKind::Icosphere, PrimitiveKind::Capsule]),
    ]
}

/// The canonical groups of the Add menu: three families, ten species.
pub fn primitive_menu_groups() -> (r: Vec<(PrimitiveGroup, Vec<PrimitiveKind>)>)
    ensures
        r@.len() == 3,
        forall|g: int| 0 <= g < 3 ==> (#[trigger] r@[g]).0 == spec_primitive_menu_groups()[g].0
            && r@[g].1@ == spec_primitive_menu_groups()[g].1,
{
    let basic = vec![PrimitiveKind::Cube, PrimitiveKind::Plane, PrimitiveKind::Wedge];
    let round = vec![PrimitiveKind::Cylinder, PrimitiveKind::Cone, PrimitiveKind::Circle, PrimitiveKind::Torus];
    let organic = vec![PrimitiveKind::Sphere, PrimitiveKind::Icosphere, PrimitiveKind::Capsule];
    assert(basic@ =~= seq![PrimitiveKind::Cube, PrimitiveKind::Plane, PrimitiveKind::Wedge]);
    assert(round@ =~= seq![PrimitiveKind::Cylinder, PrimitiveKind::Cone, PrimitiveKind::Circle, PrimitiveKind::Torus]);
    assert(organic@ =~= seq![PrimitiveKind::Sphere, PrimitiveKind::Icosphere, PrimitiveKind::Capsule]);
    vec![(PrimitiveGroup::Basic, basic), (PrimitiveGroup::Round, round), (PrimitiveGroup::Organic, organic)]
}

/// The species of the Add menu, group after group.
pub open spec fn menu_species() -> Seq<PrimitiveKind> {
    spec_primitive_menu_groups()[0].1 + spec_primitive_menu_groups()[1].1 + spec_primitive_menu_groups()[2].1
}

/// The Add menu offers each of the ten species exactly once.
pub proof fn lemma_add_menu_covers_each_species_once()
    ensures
        menu_species().len() == 10,
        menu_species().no_duplicates(),
        forall|k: PrimitiveKind| #[trigger] menu_species().contains(k),
{
    let s = menu_species();
    assert(s =~= seq![
        PrimitiveKind::Cube, PrimitiveKind::Plane, PrimitiveKind::Wedge,
        PrimitiveKind::Cylinder, PrimitiveKind::Cone, PrimitiveKind::Circle, PrimitiveKind::Torus,
        PrimitiveKind::Sphere, PrimitiveKind::Icosphere, PrimitiveKind::Capsule
    ]);
    assert forall|k: PrimitiveKind| #[trigger] s.contains(k) by {
        match k {
            PrimitiveKind::Cube => assert(s[0] == k),
            PrimitiveKind::Plane => assert(s[1] == k),
            PrimitiveKind::Wedge => assert(s[2] == k),
            PrimitiveKind::Cylinder => assert(s[3] == k),
            PrimitiveKind::Cone => assert(s[4] == k),
            PrimitiveKind::Circle => assert(s[5] == k),
            PrimitiveKind::Torus => assert(s[6] == k),
            PrimitiveKind::Sphere => assert(s[7] == k),
            PrimitiveKind::Icosphere => assert(s[8] == k),
            PrimitiveKind::Capsule => assert(s[9] == k),
        }
    }
}

/// The keys pressed this frame that the viewport bar handles.
pub struct ShortcutKeys {
    pub shift_tab: bool,
    pub tab: bool,
    /// A text field owns the keyboard.
    pub text_input: bool,
    pub num0: bool,
    pub num1: bool,
    pub num2: bool,
    pub num3: bool,
}

/// What a viewport shortcut does.
#[derive(Debug, Clone, Copy, PartialEq, Eq, Structural)]
pub enum ShortcutAction {
    /// Shift+Tab: toggle magnetic snapping.
    ToggleSnap,
    /// Tab: switch between Object and the last component domain.
    CycleDomain,
    /// 0/1/2/3: pick the selection domain.
    SetDomain(SelectionDomain),
}

pub open spec fn spec_shortcut_actions(k: ShortcutKeys) -> Seq<ShortcutAction> {
    if k.shift_tab {
        seq![ShortcutAction::ToggleSnap]
    } else if k.tab {
        seq![ShortcutAction::CycleDomain]
    } else if k.text_input {
        Seq::empty()
    } else {
        let a = if k.num0 { seq![ShortcutAction::SetDomain(SelectionDomain::Object)] } else { Seq::empty() };
        let b = if k.num1 { a.push(ShortcutAction::SetDomain(SelectionDomain::Vertex)) } else { a };
        let c = if k.num2 { b.push(ShortcutAction::SetDomain(SelectionDomain::Edge)) } else { b };
        if k.num3 { c.push(ShortcutAction::SetDomain(SelectionDomain::Face)) } else { c }
    }
}

/// The actions of this frame's keys, in the order they apply: Shift+Tab and
/// Tab are exclusive and win; the number keys are ignored while a text field
/// owns the keyboard and otherwise apply in 0, 1, 2, 3 order.
pub fn shortcut_actions(k: &ShortcutKeys) -> (r: Vec<ShortcutAction>)
    ensures
        r@ == spec_shortcut_actions(*k),
{
    let mut r: Vec<ShortcutAction> = Vec::new();
    if k.shift_tab {
        r.push(ShortcutAction::ToggleSnap);
        assert(r@ =~= seq![ShortcutAction::ToggleSnap]);
        return r;
    }
    if k.tab {
        r.push(ShortcutAction::CycleDomain);
        assert(r@ =~= seq![ShortcutAction::CycleDomain]);
        return r;
    }
    if k.text_input {
        return r;
    }
    if k.num0 {
        r.push(ShortcutAction::SetDomain(SelectionDomain::Object));
    }
    assert(r@ =~= (if k.num0 { seq![ShortcutAction::SetDomain(SelectionDomain::Object)] } else { Seq::empty() }));
    if k.num1 {
        r.push(ShortcutAction::SetDomain(SelectionDomain::Vertex));
    }
    if k.num2 {
        r.push(ShortcutAction::SetDomain(SelectionDomain::Edge));
    }
    if k.num3 {
        r.push(ShortcutAction::SetDomain(SelectionDomain::Face));
    }
    r
}

} // verus!

verus! {

/// Camera view presets of the View menu.
#[derive(Debug, Clone, Copy, PartialEq, Eq, Structural)]
pub enum ViewPreset {
    Front,
    Back,
    Right,
    Left,
    Top,
    Bottom,
    IsometricNE,
    IsometricNW,
    IsometricSE,
    IsometricSW,
}

/// Mesh tools that a menu item activates.
#[derive(Debug, Clone, Copy, PartialEq, Eq, Structural)]
pub enum MeshTool {
    Extrude,
    Inset,
    Bevel,
    LoopCut,
    Knife,
    Revolve,
}

/// The id under which a mesh tool is the active tool.
pub fn mesh_tool_id(t: MeshTool) -> (r: &'static str)
    ensures
        r == spec_mesh_tool_id(t),
{
    match t {
        MeshTool::Extrude => "extrude",
        MeshTool::Inset => "inset",
        MeshTool::Bevel => "bevel",
        MeshTool::LoopCut => "loop_cut",
        MeshTool::Knife => "knife",
        MeshTool::Revolve => "revolve",
    }
}

pub open spec fn spec_mesh_tool_id(t: MeshTool) -> &'static str {
    match t {
        MeshTool::Extrude => "extrude",
        MeshTool::Inset => "inset",
        MeshTool::Bevel => "bevel",
        MeshTool::LoopCut => "loop_cut",
        MeshTool::Knife => "knife",
        MeshTool::Revolve => "revolve",
    }
}

/// What choosing a menu item does.
#[derive(Debug, Clone, Copy, PartialEq, Eq, Structural)]
pub enum MenuCommand {
    FrameSelection,
    FrameAll,
    ResetCamera,
    ToggleProjection,
    Preset(ViewPreset),
    ManageReferences,
    SelectAll,
    Deselect,
    InvertSelection,
    Duplicate,
    Delete,
    CursorToOrigin,
    ActivateTool(MeshTool),
    ExtrudeIndividual,
    Subdivide,
    MergeCenter,
    FlipDiagonal,
}

/// One item of a viewport menu.
#[derive(Debug, Clone, Copy)]
pub struct MenuItem {
    pub label_key: &'static str,
    /// The keymap action whose binding the item shows, if the user can rebind it.
    pub binding: Option<&'static str>,
    /// The shortcut shown when the keymap has no binding for the action (or
    /// the fixed one, for items that cannot be rebound).
    pub shortcut: Option<&'static str>,
    pub icon: Option<PetuniaIcon>,
    /// The submenu the item sits in, by its label key.
    pub submenu: Option<&'static str>,
    /// A separator stands above the item.
    pub starts_group: bool,
    pub command: MenuCommand,
}

pub open spec fn item(
    label_key: &'static str,
    binding: Option<&'static str>,
    shortcut: Option<&'static str>,
    icon: Option<PetuniaIcon>,
    starts_group: bool,
    command: MenuCommand,
) -> MenuItem {
    MenuItem { label_key, binding, shortcut, icon, submenu: None, starts_group, command }
}

pub open spec fn iso_item(label_key: &'static str, preset: ViewPreset, starts_group: bool) -> MenuItem {
    MenuItem {
        label_key,
        binding: None,
        shortcut: None,
        icon: None,
        submenu: Some("camera.isometric"),
        starts_group,
        command: MenuCommand::Preset(preset),
    }
}

pub open spec fn spec_view_menu() -> Seq<MenuItem> {
    seq![
        item("view.frame", Some("view.frame_selection"), Some("F"), None, false, MenuCommand::FrameSelection),
        item("view.frame_all", Some("view.frame_all"), Some("Home"), None, false, MenuCommand::FrameAll),
        item("camera.reset", Some("view.reset_camera"), Some("Shift+Home"), None, false, MenuCommand::ResetCamera),
        item("camera.projection", Some("view.toggle_projection"), Some("O"), None, true, MenuCommand::ToggleProjection),
        item("camera.front", None, Some("Numpad 1"), None, true, MenuCommand::Preset(ViewPreset::Front)),
        item("camera.back", None, Some("Ctrl+Numpad 1"), None, false, MenuCommand::Preset(ViewPreset::Back)),
        item("camera.right", None, Some("Numpad 3"), None, false, MenuCommand::Preset(ViewPreset::Right)),
        item("camera.left", None, Some("Ctrl+Numpad 3"), None, false, MenuCommand::Preset(ViewPreset::Left)),
        item("camera.top", None, Some("Numpad 7"), None, false, MenuCommand::Preset(ViewPreset::Top)),
        item("camera.bottom", None, Some("Ctrl+Numpad 7"), None, false, MenuCommand::Preset(ViewPreset::Bottom)),
        iso_item("camera.iso_ne", ViewPreset::IsometricNE, true),
        iso_item("camera.iso_nw", ViewPreset::IsometricNW, false),
        iso_item("camera.iso_se", ViewPreset::IsometricSE, false),
        iso_item("camera.iso_sw", ViewPreset::IsometricSW, false),
        item("refs.manage", Some("window.reference_manager"), Some("Shift+R"), Some(PetuniaIcon::ReferenceImage), true, MenuCommand::ManageReferences),
    ]
}

/// The View menu of the viewport bar: framing, camera, presets (the
/// isometric ones in a submenu) and the reference manager.
pub fn view_menu() -> (r: Vec<MenuItem>)
    ensures
        r@ == spec_view_menu(),
{
    let r = vec![
        MenuItem { label_key: "view.frame", binding: Some("view.frame_selection"), shortcut: Some("F"), icon: None, submenu: None, starts_group: false, command: MenuCommand::FrameSelection },
        MenuItem { label_key: "view.frame_all", binding: Some("view.frame_all"), shortcut: Some("Home"), icon: None, submenu: None, starts_group: false, command: MenuCommand::FrameAll },
        MenuItem { label_key: "camera.reset", binding: Some("view.reset_camera"), shortcut: Some("Shift+Home"), icon: None, submenu: None, starts_group: false, command: MenuCommand::ResetCamera },
        MenuItem { label_key: "camera.projection", binding: Some("view.toggle_projection"), shortcut: Some("O"), icon: None, submenu: None, starts_group: true, command: MenuCommand::ToggleProjection },
        MenuItem { label_key: "camera.front", binding: None, shortcut: Some("Numpad 1"), icon: None, submenu: None, starts_group: true, command: MenuCommand::Preset(ViewPreset::Front) },
        MenuItem { label_key: "camera.back", binding: None, shortcut: Some("Ctrl+Numpad 1"), icon: None, submenu: None, starts_group: false, command: MenuCommand::Preset(ViewPreset::Back) },
        MenuItem { label_key: "camera.right", binding: None, shortcut: Some("Numpad 3"), icon: None, submenu: None, starts_group: false, command: MenuCommand::Preset(ViewPreset::Right) },
        MenuItem { label_key: "camera.left", binding: None, shortcut: Some("Ctrl+Numpad 3"), icon: None, submenu: None, starts_group: false, command: MenuCommand::Preset(ViewPreset::Left) },
        MenuItem { label_key: "camera.top", binding: None, shortcut: Some("Numpad 7"), icon: None, submenu: None, starts_group: false, command: MenuCommand::Preset(ViewPreset::Top) },
        MenuItem { label_key: "camera.bottom", binding: None, shortcut: Some("Ctrl+Numpad 7"), icon: None, submenu: None, starts_group: false, command: MenuCommand::Preset(ViewPreset::Bottom) },
        MenuItem { label_key: "camera.iso_ne", binding: None, shortcut: None, icon: None, submenu: Some("camera.isometric"), starts_group: true, command: MenuCommand::Preset(ViewPreset::IsometricNE) },
        MenuItem { label_key: "camera.iso_nw", binding: None, shortcut: None, icon: None, submenu: Some("camera.isometric"), starts_group: false, command: MenuCommand::Preset(ViewPreset::IsometricNW) },
        MenuItem { label_key: "camera.iso_se", binding: None, shortcut: None, icon: None, submenu: Some("camera.isometric"), starts_group: false, command: MenuCommand::Preset(ViewPreset::IsometricSE) },
        MenuItem { label_key: "camera.iso_sw", binding: None, shortcut: None, icon: None, submenu: Some("camera.isometric"), starts_group: false, command: MenuCommand::Preset(ViewPreset::IsometricSW) },
        MenuItem { label_key: "refs.manage", binding: Some("window.reference_manager"), shortcut: Some("Shift+R"), icon: Some(PetuniaIcon::ReferenceImage), submenu: None, starts_group: true, command: MenuCommand::ManageReferences },
    ];
    assert(r@ =~= spec_view_menu());
    r
}

} // verus!

verus! {

pub open spec fn spec_select_menu() -> Seq<MenuItem> {
    seq![
        item("actions.select_all", None, Some("A"), None, false, MenuCommand::SelectAll),
        item("actions.deselect", None, Some("Alt+A"), None, false, MenuCommand::Deselect),
        item("actions.invert", None, Some("Ctrl+I"), None, false, MenuCommand::InvertSelection),
    ]
}

/// The Select menu: select all, deselect, invert.
pub fn select_menu() -> (r: Vec<MenuItem>)
    ensures
        r@ == spec_select_menu(),
{
    let r = vec![
        MenuItem { label_key: "actions.select_all", binding: None, shortcut: Some("A"), icon: None, submenu: None, starts_group: false, command: MenuCommand::SelectAll },
        MenuItem { label_key: "actions.deselect", binding: None, shortcut: Some("Alt+A"), icon: None, submenu: None, starts_group: false, command: MenuCommand::Deselect },
        MenuItem { label_key: "actions.invert", binding: None, shortcut: Some("Ctrl+I"), icon: None, submenu: None, starts_group: false, command: MenuCommand::InvertSelection },
    ];
    assert(r@ =~= spec_select_menu());
    r
}

pub open spec fn spec_object_menu() -> Seq<MenuItem> {
    seq![
        item("actions.duplicate", Some("model.duplicate"), Some("Shift+D"), Some(PetuniaIcon::Duplicate), false, MenuCommand::Duplicate),
        item("actions.delete", Some("model.delete"), Some("Delete"), Some(PetuniaIcon::Delete), false, MenuCommand::Delete),
        item("actions.cursor_to_origin", None, None, Some(PetuniaIcon::Cursor3D), true, MenuCommand::CursorToOrigin),
    ]
}

pub open spec fn spec_mesh_menu() -> Seq<MenuItem> {
    seq![
        item("tools.extrude", Some("model.extrude"), Some("E"), Some(PetuniaIcon::Extrude), false, MenuCommand::ActivateTool(MeshTool::Extrude)),
        item("tools.extrude_individual", Some("model.extrude_individual"), Some("Alt+E"), Some(PetuniaIcon::Extrude), false, MenuCommand::ExtrudeIndividual),
        item("tools.inset", Some("model.inset"), Some("I"), Some(PetuniaIcon::Inset), false, MenuCommand::ActivateTool(MeshTool::Inset)),
        item("tools.bevel", Some("model.bevel"), Some("Ctrl+B"), Some(PetuniaIcon::Bevel), false, MenuCommand::ActivateTool(MeshTool::Bevel)),
        item("tools.loop_cut", None, Some("Ctrl+R"), Some(PetuniaIcon::LoopCut), false, MenuCommand::ActivateTool(MeshTool::LoopCut)),
        item("tools.knife", None, Some("K"), Some(PetuniaIcon::Knife), false, MenuCommand::ActivateTool(MeshTool::Knife)),
        item("actions.subdivide", None, None, Some(PetuniaIcon::Subdivide), true, MenuCommand::Subdivide),
        item("actions.merge_center", None, None, Some(PetuniaIcon::Custom("merge")), false, MenuCommand::MergeCenter),
        item("tools.flip_diagonal", None, None, Some(PetuniaIcon::Custom("flip_diagonal")), false, MenuCommand::FlipDiagonal),
        item("tools.revolve", None, None, Some(PetuniaIcon::Custom("revolve")), false, MenuCommand::ActivateTool(MeshTool::Revolve)),
    ]
}

/// The contextual menu of the viewport bar: its label key and its items.
/// In the Object domain it acts on whole objects (duplicate, delete, 3D
/// cursor to the origin); in a component domain it offers the mesh tools.
pub fn context_menu(object_domain: bool) -> (r: (&'static str, Vec<MenuItem>))
    ensures
        object_domain ==> r.0 == "modes.object" && r.1@ == spec_object_menu(),
        !object_domain ==> r.0 == "ui.mesh" && r.1@ == spec_mesh_menu(),
{
    if object_domain {
        let r = vec![
            MenuItem { label_key: "actions.duplicate", binding: Some("model.duplicate"), shortcut: Some("Shift+D"), icon: Some(PetuniaIcon::Duplicate), submenu: None, starts_group: false, command: MenuCommand::Duplicate },
            MenuItem { label_key: "actions.delete", binding: Some("model.delete"), shortcut: Some("Delete"), icon: Some(PetuniaIcon::Delete), submenu: None, starts_group: false, command: MenuCommand::Delete },
            MenuItem { label_key: "actions.cursor_to_origin", binding: None, shortcut: None, icon: Some(PetuniaIcon::Cursor3D), submenu: None, starts_group: true, command: MenuCommand::CursorToOrigin },
        ];
        assert(r@ =~= spec_object_menu());
        ("modes.object", r)
    } else {
        let r = vec![
            MenuItem { label_key: "tools.extrude", binding: Some("model.extrude"), shortcut: Some("E"), icon: Some(PetuniaIcon::Extrude), submenu: None, starts_group: false, command: MenuCommand::ActivateTool(MeshTool::Extrude) },
            MenuItem { label_key: "tools.extrude_individual", binding: Some("model.extrude_individual"), shortcut: Some("Alt+E"), icon: Some(PetuniaIcon::Extrude), submenu: None, starts_group: false, command: MenuCommand::ExtrudeIndividual },
            MenuItem { label_key: "tools.inset", binding: Some("model.inset"), shortcut: Some("I"), icon: Some(PetuniaIcon::Inset), submenu: None, starts_group: false, command: MenuCommand::ActivateTool(MeshTool::Inset) },
            MenuItem { label_key: "tools.bevel", binding: Some("model.bevel"), shortcut: Some("Ctrl+B"), icon: Some(PetuniaIcon::Bevel), submenu: None, starts_group: false, command: MenuCommand::ActivateTool(MeshTool::Bevel) },
            MenuItem { label_key: "tools.loop_cut", binding: None, shortcut: Some("Ctrl+R"), icon: Some(PetuniaIcon::LoopCut), submenu: None, starts_group: false, command: MenuCommand::ActivateTool(MeshTool::LoopCut) },
            MenuItem { label_key: "tools.knife", binding: None, shortcut: Some("K"), icon: Some(PetuniaIcon::Knife), submenu: None, starts_group: false, command: MenuCommand::ActivateTool(MeshTool::Knife) },
            MenuItem { label_key: "actions.subdivide", binding: None, shortcut: None, icon: Some(PetuniaIcon::Subdivide), submenu: None, starts_group: true, command: MenuCommand::Subdivide },
            MenuItem { label_key: "actions.merge_center", binding: None, shortcut: None, icon: Some(PetuniaIcon::Custom("merge")), submenu: None, starts_group: false, command: MenuCommand::MergeCenter },
            MenuItem { label_key: "tools.flip_diagonal", binding: None, shortcut: None, icon: Some(PetuniaIcon::Custom("flip_diagonal")), submenu: None, starts_group: false, command: MenuCommand::FlipDiagonal },
            MenuItem { label_key: "tools.revolve", binding: None, shortcut: None, icon: Some(PetuniaIcon::Custom("revolve")), submenu: None, starts_group: false, command: MenuCommand::ActivateTool(MeshTool::Revolve) },
        ];
        assert(r@ =~= spec_mesh_menu());
        ("ui.mesh", r)
    }
}

/// The item that closes the Add menu, after the primitive families.
pub fn add_menu_reference_item() -> (r: MenuItem)
    ensures
        r == item("ui.refs", None, Some("Shift+R"), Some(PetuniaIcon::ReferenceImage), true, MenuCommand::ManageReferences),
{
    MenuItem { label_key: "ui.refs", binding: None, shortcut: Some("Shift+R"), icon: Some(PetuniaIcon::ReferenceImage), submenu: None, starts_group: true, command: MenuCommand::ManageReferences }
}

pub open spec fn spec_item_shortcut(it: MenuItem, bound: Option<Seq<char>>) -> Option<Seq<char>> {
    match it.binding {
        Some(_) => match bound {
            Some(b) => Some(b),
            None => match it.shortcut {
                Some(s) => Some(s@),
                None => None,
            },
        },
        None => match it.shortcut {
            Some(s) => Some(s@),
            None => None,
        },
    }
}

/// The shortcut a menu item shows: for a rebindable item, the key the
/// keymap binds to its action (`bound`) or else its default; for any other
/// item, its fixed shortcut.
pub fn item_shortcut(it: &MenuItem, bound: Option<String>) -> (r: Option<String>)
    ensures
        opt_text(r) == spec_item_shortcut(*it, opt_text(bound)),
{
    match (it.binding, bound) {
        (Some(_), Some(b)) => Some(b),
        _ => match it.shortcut {
            Some(s) => Some(String::from_str(s)),
            None => None,
        },
    }
}

/// The keymap actions that the viewport menus show bindings for.
pub open spec fn menu_bindings() -> Seq<&'static str> {
    seq![
        "view.frame_selection", "view.frame_all", "view.reset_camera", "view.toggle_projection",
        "window.reference_manager", "model.duplicate", "model.delete", "model.extrude",
        "model.extrude_individual", "model.inset", "model.bevel",
    ]
}

/// Every rebindable item of the viewport menus shows the binding of an
/// action of `menu_bindings()`, and has a default shortcut for when the
/// keymap binds nothing to it.
pub proof fn lemma_rebindable_items_have_defaults()
    ensures
        forall|i: int| 0 <= i < spec_view_menu().len() && (#[trigger] spec_view_menu()[i]).binding is Some
            ==> spec_view_menu()[i].shortcut is Some
                && menu_bindings().contains(spec_view_menu()[i].binding->0),
        forall|i: int| 0 <= i < spec_object_menu().len() && (#[trigger] spec_object_menu()[i]).binding is Some
            ==> spec_object_menu()[i].shortcut is Some
                && menu_bindings().contains(spec_object_menu()[i].binding->0),
        forall|i: int| 0 <= i < spec_mesh_menu().len() && (#[trigger] spec_mesh_menu()[i]).binding is Some
            ==> spec_mesh_menu()[i].shortcut is Some
                && menu_bindings().contains(spec_mesh_menu()[i].binding->0),
{
    let b = menu_bindings();
    assert(b[0] == "view.frame_selection" && b[1] == "view.frame_all" && b[2] == "view.reset_camera");
    assert(b[3] == "view.toggle_projection" && b[4] == "window.reference_manager");
    assert(b[5] == "model.duplicate" && b[6] == "model.delete" && b[7] == "model.extrude");
    assert(b[8] == "model.extrude_individual" && b[9] == "model.inset" && b[10] == "model.bevel");
}

} // verus!

verus! {

/// The selection domain buttons of the viewport bar, in order: the domain,
/// its icon, its number key and the key of its name.
pub fn selection_domain_buttons() -> (r: Vec<(SelectionDomain, PetuniaIcon, &'static str, &'static str)>)
    ensures
        r@ == seq![
            (SelectionDomain::Object, PetuniaIcon::ModeObject, "0", "modes.object"),
            (SelectionDomain::Vertex, PetuniaIcon::SelectVertex, "1", "modes.vertex"),
            (SelectionDomain::Edge, PetuniaIcon::SelectEdge, "2", "modes.edge"),
            (SelectionDomain::Face, PetuniaIcon::SelectFace, "3", "modes.face"),
        ],
{
    let r = vec![
        (SelectionDomain::Object, PetuniaIcon::ModeObject, "0", "modes.object"),
        (SelectionDomain::Vertex, PetuniaIcon::SelectVertex, "1", "modes.vertex"),
        (SelectionDomain::Edge, PetuniaIcon::SelectEdge, "2", "modes.edge"),
        (SelectionDomain::Face, PetuniaIcon::SelectFace, "3", "modes.face"),
    ];
    assert(r@ =~= seq![
        (SelectionDomain::Object, PetuniaIcon::ModeObject, "0", "modes.object"),
        (SelectionDomain::Vertex, PetuniaIcon::SelectVertex, "1", "modes.vertex"),
        (SelectionDomain::Edge, PetuniaIcon::SelectEdge, "2", "modes.edge"),
        (SelectionDomain::Face, PetuniaIcon::SelectFace, "3", "modes.face"),
    ]);
    r
}

/// The tooltip of a selection domain button: its name, its key, and that
/// Tab switches domains.
pub fn domain_button_tooltip(name: &str, key: &str) -> (r: String)
    ensures
        r@ == name@ + " · ["@ + key@ + "] (Tab: alternar)"@,
{
    let mut r = String::from_str(name);
    r.append(" · [");
    r.append(key);
    r.append("] (Tab: alternar)");
    r
}

/// Snapping as the viewport keeps it: the bar's toggle and the enabled flag
/// of the snap settings.
#[derive(Debug, Clone, Copy, PartialEq, Eq, Structural)]
pub struct SnapToggle {
    pub enabled: bool,
    pub settings_enabled: bool,
}

/// The snap button, its overflow item and Shift+Tab: snapping flips and the
/// settings follow the toggle.
pub fn toggle_snap(s: SnapToggle) -> (r: SnapToggle)
    ensures
        r.enabled == !s.enabled,
        r.settings_enabled == r.enabled,
{
    let enabled = !s.enabled;
    SnapToggle { enabled, settings_enabled: enabled }
}

} // verus!

verus! {

/// The domain that number key `n` picks: 0 Object, 1 Vertex, 2 Edge, 3 Face.
pub open spec fn nth_domain(n: int) -> SelectionDomain {
    seq![SelectionDomain::Object, SelectionDomain::Vertex, SelectionDomain::Edge, SelectionDomain::Face][n]
}

/// Without Tab, Shift+Tab or a text field owning the keyboard, each number
/// key n pressed alone picks the n-th domain of Object, Vertex, Edge, Face;
/// with several keys, one action per key, in key order, and the action of
/// key n is present exactly when key n is pressed.
pub proof fn lemma_number_keys_pick_their_domain(k: ShortcutKeys)
    requires
        !k.shift_tab,
        !k.tab,
        !k.text_input,
    ensures
        k.num0 && !k.num1 && !k.num2 && !k.num3 ==> spec_shortcut_actions(k) == seq![ShortcutAction::SetDomain(nth_domain(0))],
        !k.num0 && k.num1 && !k.num2 && !k.num3 ==> spec_shortcut_actions(k) == seq![ShortcutAction::SetDomain(nth_domain(1))],
        !k.num0 && !k.num1 && k.num2 && !k.num3 ==> spec_shortcut_actions(k) == seq![ShortcutAction::SetDomain(nth_domain(2))],
        !k.num0 && !k.num1 && !k.num2 && k.num3 ==> spec_shortcut_actions(k) == seq![ShortcutAction::SetDomain(nth_domain(3))],
        spec_shortcut_actions(k).len() == (if k.num0 { 1int } else { 0 }) + (if k.num1 { 1int } else { 0 })
            + (if k.num2 { 1int } else { 0 }) + (if k.num3 { 1int } else { 0 }),
        spec_shortcut_actions(k).contains(ShortcutAction::SetDomain(nth_domain(0))) == k.num0,
        spec_shortcut_actions(k).contains(ShortcutAction::SetDomain(nth_domain(1))) == k.num1,
        spec_shortcut_actions(k).contains(ShortcutAction::SetDomain(nth_domain(2))) == k.num2,
        spec_shortcut_actions(k).contains(ShortcutAction::SetDomain(nth_domain(3))) == k.num3,
{
    let d = seq![SelectionDomain::Object, SelectionDomain::Vertex, SelectionDomain::Edge, SelectionDomain::Face];
    assert(nth_domain(0) == SelectionDomain::Object && nth_domain(1) == SelectionDomain::Vertex);
    assert(nth_domain(2) == SelectionDomain::Edge && nth_domain(3) == SelectionDomain::Face);
    let s = spec_shortcut_actions(k);
    let a: Seq<ShortcutAction> = if k.num0 { seq![ShortcutAction::SetDomain(SelectionDomain::Object)] } else { Seq::empty() };
    let b = if k.num1 { a.push(ShortcutAction::SetDomain(SelectionDomain::Vertex)) } else { a };
    let c = if k.num2 { b.push(ShortcutAction::SetDomain(SelectionDomain::Edge)) } else { b };
    assert(s == (if k.num3 { c.push(ShortcutAction::SetDomain(SelectionDomain::Face)) } else { c }));
    assert(s.contains(ShortcutAction::SetDomain(SelectionDomain::Object)) == k.num0) by {
        if k.num0 { assert(s[0] == ShortcutAction::SetDomain(SelectionDomain::Object)); }
    }
    assert(s.contains(ShortcutAction::SetDomain(SelectionDomain::Vertex)) == k.num1) by {
        if k.num1 { assert(b[b.len() - 1] == ShortcutAction::SetDomain(SelectionDomain::Vertex)); assert(s[b.len() - 1] == b[b.len() - 1]); }
    }
    assert(s.contains(ShortcutAction::SetDomain(SelectionDomain::Edge)) == k.num2) by {
        if k.num2 { assert(s[c.len() - 1] == c[c.len() - 1]); }
    }
    assert(s.contains(ShortcutAction::SetDomain(SelectionDomain::Face)) == k.num3) by {
        if k.num3 { assert(s[s.len() - 1] == ShortcutAction::SetDomain(SelectionDomain::Face)); }
    }
    assert(k.num0 && !k.num1 && !k.num2 && !k.num3 ==> s =~= seq![ShortcutAction::SetDomain(SelectionDomain::Object)]);
    assert(!k.num0 && k.num1 && !k.num2 && !k.num3 ==> s =~= seq![ShortcutAction::SetDomain(SelectionDomain::Vertex)]);
    assert(!k.num0 && !k.num1 && k.num2 && !k.num3 ==> s =~= seq![ShortcutAction::SetDomain(SelectionDomain::Edge)]);
    assert(!k.num0 && !k.num1 && !k.num2 && k.num3 ==> s =~= seq![ShortcutAction::SetDomain(SelectionDomain::Face)]);
}

} // verus!

verus! {

/// The position of a picked domain among Object, Vertex, Edge, Face (an
/// action that picks no domain has none).
pub open spec fn action_rank(a: ShortcutAction) -> int {
    match a {
        ShortcutAction::SetDomain(SelectionDomain::Object) => 0,
        ShortcutAction::SetDomain(SelectionDomain::Vertex) => 1,
        ShortcutAction::SetDomain(SelectionDomain::Edge) => 2,
        ShortcutAction::SetDomain(SelectionDomain::Face) => 3,
        _ => -1,
    }
}

/// Shift+Tab alone toggles snapping and wins over everything; Tab alone
/// cycles the domain; while a text field owns the keyboard the number keys
/// do nothing; otherwise every action picks a domain, in key order.
pub proof fn lemma_tab_keys_win_and_number_keys_keep_order(k: ShortcutKeys)
    ensures
        k.shift_tab ==> spec_shortcut_actions(k) == seq![ShortcutAction::ToggleSnap],
        !k.shift_tab && k.tab ==> spec_shortcut_actions(k) == seq![ShortcutAction::CycleDomain],
        !k.shift_tab && !k.tab && k.text_input ==> spec_shortcut_actions(k).len() == 0,
        !k.shift_tab && !k.tab ==> forall|i: int, j: int| 0 <= i < j < spec_shortcut_actions(k).len() ==>
            0 <= action_rank(#[trigger] spec_shortcut_actions(k)[i]) < action_rank(#[trigger] spec_shortcut_actions(k)[j]),
{
    if !k.shift_tab && !k.tab && !k.text_input {
        let s = spec_shortcut_actions(k);
        let o = ShortcutAction::SetDomain(SelectionDomain::Object);
        let v = ShortcutAction::SetDomain(SelectionDomain::Vertex);
        let e = ShortcutAction::SetDomain(SelectionDomain::Edge);
        let f = ShortcutAction::SetDomain(SelectionDomain::Face);
        let a: Seq<ShortcutAction> = if k.num0 { seq![o] } else { Seq::empty() };
        let b = if k.num1 { a.push(v) } else { a };
        let c = if k.num2 { b.push(e) } else { b };
        assert(s == (if k.num3 { c.push(f) } else { c }));
        assert forall|i: int, j: int| 0 <= i < j < s.len() implies
            0 <= action_rank(#[trigger] s[i]) < action_rank(#[trigger] s[j]) by {
            assert(forall|t: int| 0 <= t < a.len() ==> action_rank(#[trigger] a[t]) == 0);
            assert(forall|t: int| 0 <= t < b.len() ==> 0 <= action_rank(#[trigger] b[t]) <= 1
                && (action_rank(b[t]) == 1 ==> t == b.len() - 1));
            assert(forall|t: int| 0 <= t < c.len() ==> 0 <= action_rank(#[trigger] c[t]) <= 2
                && (action_rank(c[t]) == 2 ==> t == c.len() - 1)
                && (t < c.len() - 1 ==> action_rank(c[t]) < action_rank(c[c.len() - 1])));
            assert(forall|t: int| 0 <= t < s.len() ==> 0 <= action_rank(#[trigger] s[t]) <= 3
                && (t < s.len() - 1 ==> action_rank(s[t]) < action_rank(s[s.len() - 1])));
        }
    }
}

} // verus!
