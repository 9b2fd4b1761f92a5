use vstd::prelude::*;

use crate::tokens::ThemeToken;
use crate::workspace::Workspace;

verus! {

/// The label of a recent project in the File menu (`Untitled` for an unnamed one).
pub fn recent_project_label(name: &str) -> (r: &str)
    ensures
        name@.len() == 0 ==> r@ == "Untitled"@,
        name@.len() != 0 ==> r@ == name@,
{
    if name.is_empty() {
        "Untitled"
    } else {
        name
    }
}

/// The composition of the center in the PAINT workspace.
#[derive(Debug, Clone, Copy, PartialEq, Eq, Structural)]
pub enum PaintViewMode {
    Viewport3D,
    Texture2D,
    Split,
}

/// The compositions the PAINT header offers, in order.
pub fn paint_view_modes() -> (r: Vec<PaintViewMode>)
    ensures
        r@ == seq![PaintViewMode::Viewport3D, PaintViewMode::Texture2D, PaintViewMode::Split],
{
    vec![PaintViewMode::Viewport3D, PaintViewMode::Texture2D, PaintViewMode::Split]
}

} // verus!

verus! {

/// Topics of the Help menu, each opening its page of the documentation.
#[derive(Debug, Clone, Copy, PartialEq, Eq, Structural)]
pub enum DocsTopic {
    GettingStarted,
    Extrude,
    Keymaps,
    Themes,
    Navigation,
}

/// What choosing an item of the header menus does.
#[derive(Debug, Clone, Copy, PartialEq, Eq, Structural)]
pub enum HeaderCommand {
    NewProject,
    OpenProject,
    SaveProject,
    SaveProjectAs,
    SaveActiveAsAsset,
    ImportObj,
    ExportObj,
    ExportGlb,
    Quit,
    Undo,
    Redo,
    ToggleCommandPalette,
    TogglePreferences,
    TogglePerformanceHud,
    ToggleAssetBrowser,
    ToggleAssetLibrary,
    ToggleReferenceManager,
    OpenDocs(DocsTopic),
    About,
}

/// One item of a header menu.
#[derive(Debug, Clone, Copy)]
pub struct HeaderItem {
    /// A catalog key when `translated`, the text itself otherwise.
    pub label: &'static str,
    pub translated: bool,
    /// The keymap action whose binding the item shows, with `shortcut` as
    /// the default for when the keymap binds nothing.
    pub binding: Option<&'static str>,
    pub shortcut: Option<&'static str>,
    pub enabled: bool,
    /// For the Window toggles: whether the panel is shown.
    pub checked: Option<bool>,
    /// A separator stands above the item.
    pub starts_group: bool,
    pub command: HeaderCommand,
}

pub open spec fn keyed(label: &'static str, binding: &'static str, shortcut: &'static str, starts_group: bool, command: HeaderCommand) -> HeaderItem {
    HeaderItem { label, translated: true, binding: Some(binding), shortcut: Some(shortcut), enabled: true, checked: None, starts_group, command }
}

pub open spec fn plain(label: &'static str, starts_group: bool, command: HeaderCommand) -> HeaderItem {
    HeaderItem { label, translated: false, binding: None, shortcut: None, enabled: true, checked: None, starts_group, command }
}

pub open spec fn spec_file_menu() -> Seq<HeaderItem> {
    seq![
        keyed("file.new", "global.new_project", "Ctrl+N", false, HeaderCommand::NewProject),
        keyed("file.open_project", "global.open_project", "Ctrl+O", false, HeaderCommand::OpenProject),
        keyed("file.save", "global.save_project", "Ctrl+S", true, HeaderCommand::SaveProject),
        keyed("file.save_as", "global.save_project_as", "Ctrl+Shift+S", false, HeaderCommand::SaveProjectAs),
        plain("Save Active Model as Asset", false, HeaderCommand::SaveActiveAsAsset),
        plain("Import OBJ (.obj)...", true, HeaderCommand::ImportObj),
        plain("Export OBJ (.obj)...", false, HeaderCommand::ExportObj),
        plain("Export GLB (.glb)...", false, HeaderCommand::ExportGlb),
        keyed("file.quit", "global.quit", "Ctrl+Q", true, HeaderCommand::Quit),
    ]
}

/// The File menu, without its Recent Projects submenu (see
/// `recent_projects_menu`), which follows the Open item.
pub fn file_menu() -> (r: Vec<HeaderItem>)
    ensures
        r@ == spec_file_menu(),
{
    let r = vec![
        HeaderItem { label: "file.new", translated: true, binding: Some("global.new_project"), shortcut: Some("Ctrl+N"), enabled: true, checked: None, starts_group: false, command: HeaderCommand::NewProject },
        HeaderItem { label: "file.open_project", translated: true, binding: Some("global.open_project"), shortcut: Some("Ctrl+O"), enabled: true, checked: None, starts_group: false, command: HeaderCommand::OpenProject },
        HeaderItem { label: "file.save", translated: true, binding: Some("global.save_project"), shortcut: Some("Ctrl+S"), enabled: true, checked: None, starts_group: true, command: HeaderCommand::SaveProject },
        HeaderItem { label: "file.save_as", translated: true, binding: Some("global.save_project_as"), shortcut: Some("Ctrl+Shift+S"), enabled: true, checked: None, starts_group: false, command: HeaderCommand::SaveProjectAs },
        HeaderItem { label: "Save Active Model as Asset", translated: false, binding: None, shortcut: None, enabled: true, checked: None, starts_group: false, command: HeaderCommand::SaveActiveAsAsset },
        HeaderItem { label: "Import OBJ (.obj)...", translated: false, binding: None, shortcut: None, enabled: true, checked: None, starts_group: true, command: HeaderCommand::ImportObj },
        HeaderItem { label: "Export OBJ (.obj)...", translated: false, binding: None, shortcut: None, enabled: true, checked: None, starts_group: false, command: HeaderCommand::ExportObj },
        HeaderItem { label: "Export GLB (.glb)...", translated: false, binding: None, shortcut: None, enabled: true, checked: None, starts_group: false, command: HeaderCommand::ExportGlb },
        HeaderItem { label: "file.quit", translated: true, binding: Some("global.quit"), shortcut: Some("Ctrl+Q"), enabled: true, checked: None, starts_group: true, command: HeaderCommand::Quit },
    ];
    assert(r@ =~= spec_file_menu());
    r
}

/// The entries of the Recent Projects submenu: each project's label
/// (`Untitled` when unnamed), or `None` when there is none, where the menu
/// shows a disabled "No Recent Projects" item.
pub fn recent_projects_menu(names: &Vec<String>) -> (r: Option<Vec<String>>)
    ensures
        names.len() == 0 ==> r is None,
        names.len() > 0 ==> r is Some && r->0.len() == names.len() && forall|i: int| 0 <= i < names.len() ==>
            (#[trigger] r->0@[i])@ == (if names@[i]@.len() == 0 { "Untitled"@ } else { names@[i]@ }),
{
    if names.len() == 0 {
        return None;
    }
    let mut labels: Vec<String> = Vec::new();
    let mut i: usize = 0;
    while i < names.len()
        invariant
            i <= names.len(),
            labels.len() == i,
            forall|k: int| 0 <= k < i ==>
                (#[trigger] labels@[k])@ == (if names@[k]@.len() == 0 { "Untitled"@ } else { names@[k]@ }),
        decreases names.len() - i,
    {
        labels.push(String::from_str(recent_project_label(names[i].as_str())));
        i = i + 1;
    }
    Some(labels)
}

pub open spec fn spec_edit_menu(can_undo: bool, can_redo: bool) -> Seq<HeaderItem> {
    seq![
        HeaderItem { enabled: can_undo, ..keyed("edit.undo", "global.undo", "Ctrl+Z", false, HeaderCommand::Undo) },
        HeaderItem { enabled: can_redo, ..keyed("edit.redo", "global.redo", "Ctrl+Y", false, HeaderCommand::Redo) },
        keyed("menu.command_palette", "global.command_palette", "Ctrl+P", true, HeaderCommand::ToggleCommandPalette),
        keyed("menu.preferences", "global.settings", "Ctrl+,", false, HeaderCommand::TogglePreferences),
    ]
}

/// The Edit menu: Undo and Redo, enabled as far as the history allows, then
/// the command palette and the preferences.
pub fn edit_menu(can_undo: bool, can_redo: bool) -> (r: Vec<HeaderItem>)
    ensures
        r@ == spec_edit_menu(can_undo, can_redo),
{
    let r = vec![
        HeaderItem { label: "edit.undo", translated: true, binding: Some("global.undo"), shortcut: Some("Ctrl+Z"), enabled: can_undo, checked: None, starts_group: false, command: HeaderCommand::Undo },
        HeaderItem { label: "edit.redo", translated: true, binding: Some("global.redo"), shortcut: Some("Ctrl+Y"), enabled: can_redo, checked: None, starts_group: false, command: HeaderCommand::Redo },
        HeaderItem { label: "menu.command_palette", translated: true, binding: Some("global.command_palette"), shortcut: Some("Ctrl+P"), enabled: true, checked: None, starts_group: true, command: HeaderCommand::ToggleCommandPalette },
        HeaderItem { label: "menu.preferences", translated: true, binding: Some("global.settings"), shortcut: Some("Ctrl+,"), enabled: true, checked: None, starts_group: false, command: HeaderCommand::TogglePreferences },
    ];
    assert(r@ =~= spec_edit_menu(can_undo, can_redo));
    r
}

/// The panels the Window menu toggles, as they are shown now.
#[derive(Debug, Clone, Copy, PartialEq, Eq, Structural)]
pub struct WindowPanels {
    pub performance_hud: bool,
    pub asset_browser: bool,
    pub asset_library: bool,
    pub reference_manager: bool,
}

pub open spec fn toggle_item(label: &'static str, checked: bool, command: HeaderCommand) -> HeaderItem {
    HeaderItem { checked: Some(checked), ..plain(label, false, command) }
}

pub open spec fn spec_window_menu(p: WindowPanels) -> Seq<HeaderItem> {
    seq![
        toggle_item("Performance HUD", p.performance_hud, HeaderCommand::TogglePerformanceHud),
        toggle_item("Asset Browser", p.asset_browser, HeaderCommand::ToggleAssetBrowser),
        toggle_item("Asset Library Drawer", p.asset_library, HeaderCommand::ToggleAssetLibrary),
        toggle_item("Reference Set Manager", p.reference_manager, HeaderCommand::ToggleReferenceManager),
    ]
}

/// The panel toggles of the Window menu, each checked while its panel is
/// shown (the Language and Theme submenus follow them).
pub fn window_menu(p: WindowPanels) -> (r: Vec<HeaderItem>)
    ensures
        r@ == spec_window_menu(p),
{
    let r = vec![
        HeaderItem { label: "Performance HUD", translated: false, binding: None, shortcut: None, enabled: true, checked: Some(p.performance_hud), starts_group: false, command: HeaderCommand::TogglePerformanceHud },
        HeaderItem { label: "Asset Browser", translated: false, binding: None, shortcut: None, enabled: true, checked: Some(p.asset_browser), starts_group: false, command: HeaderCommand::ToggleAssetBrowser },
        HeaderItem { label: "Asset Library Drawer", translated: false, binding: None, shortcut: None, enabled: true, checked: Some(p.asset_library), starts_group: false, command: HeaderCommand::ToggleAssetLibrary },
        HeaderItem { label: "Reference Set Manager", translated: false, binding: None, shortcut: None, enabled: true, checked: Some(p.reference_manager), starts_group: false, command: HeaderCommand::ToggleReferenceManager },
    ];
    assert(r@ =~= spec_window_menu(p));
    r
}

pub open spec fn spec_toggled_panels(p: WindowPanels, c: HeaderCommand) -> WindowPanels {
    match c {
        HeaderCommand::TogglePerformanceHud => WindowPanels { performance_hud: !p.performance_hud, ..p },
        HeaderCommand::ToggleAssetBrowser => WindowPanels { asset_browser: !p.asset_browser, ..p },
        HeaderCommand::ToggleAssetLibrary => WindowPanels { asset_library: !p.asset_library, ..p },
        HeaderCommand::ToggleReferenceManager => WindowPanels { reference_manager: !p.reference_manager, ..p },
        _ => p,
    }
}

/// The panels after a command of the Window menu: its panel flips, the
/// others stay.
pub fn toggled_panels(p: WindowPanels, c: HeaderCommand) -> (r: WindowPanels)
    ensures
        r == spec_toggled_panels(p, c),
{
    match c {
        HeaderCommand::TogglePerformanceHud => WindowPanels { performance_hud: !p.performance_hud, ..p },
        HeaderCommand::ToggleAssetBrowser => WindowPanels { asset_browser: !p.asset_browser, ..p },
        HeaderCommand::ToggleAssetLibrary => WindowPanels { asset_library: !p.asset_library, ..p },
        HeaderCommand::ToggleReferenceManager => WindowPanels { reference_manager: !p.reference_manager, ..p },
        _ => p,
    }
}

/// Choosing a Window toggle twice leaves the panels as they were.
pub proof fn lemma_window_toggles_are_involutions(p: WindowPanels, c: HeaderCommand)
    ensures
        spec_toggled_panels(spec_toggled_panels(p, c), c) == p,
{
}

pub open spec fn spec_help_menu() -> Seq<HeaderItem> {
    seq![
        plain("Quick Start Guide", false, HeaderCommand::OpenDocs(DocsTopic::GettingStarted)),
        plain("Extrude & Modeling", false, HeaderCommand::OpenDocs(DocsTopic::Extrude)),
        plain("Keyboard Shortcuts", false, HeaderCommand::OpenDocs(DocsTopic::Keymaps)),
        plain("Themes & Styling", false, HeaderCommand::OpenDocs(DocsTopic::Themes)),
        plain("Navigation Controls", false, HeaderCommand::OpenDocs(DocsTopic::Navigation)),
        plain("About Petunia3D...", true, HeaderCommand::About),
    ]
}

/// The Help menu: the documentation topics, then About.
pub fn help_menu() -> (r: Vec<HeaderItem>)
    ensures
        r@ == spec_help_menu(),
{
    let r = vec![
        HeaderItem { label: "Quick Start Guide", translated: false, binding: None, shortcut: None, enabled: true, checked: None, starts_group: false, command: HeaderCommand::OpenDocs(DocsTopic::GettingStarted) },
        HeaderItem { label: "Extrude & Modeling", translated: false, binding: None, shortcut: None, enabled: true, checked: None, starts_group: false, command: HeaderCommand::OpenDocs(DocsTopic::Extrude) },
        HeaderItem { label: "Keyboard Shortcuts", translated: false, binding: None, shortcut: None, enabled: true, checked: None, starts_group: false, command: HeaderCommand::OpenDocs(DocsTopic::Keymaps) },
        HeaderItem { label: "Themes & Styling", translated: false, binding: None, shortcut: None, enabled: true, checked: None, starts_group: false, command: HeaderCommand::OpenDocs(DocsTopic::Themes) },
        HeaderItem { label: "Navigation Controls", translated: false, binding: None, shortcut: None, enabled: true, checked: None, starts_group: false, command: HeaderCommand::OpenDocs(DocsTopic::Navigation) },
        HeaderItem { label: "About Petunia3D...", translated: false, binding: None, shortcut: None, enabled: true, checked: None, starts_group: true, command: HeaderCommand::About },
    ];
    assert(r@ =~= spec_help_menu());
    r
}

/// The command palette: whether it is shown, its query and its highlighted row.
pub struct CommandPalette {
    pub shown: bool,
    pub query: String,
    pub selected: usize,
}

/// Edit > Command Palette: the palette is shown or hidden; when it opens it
/// starts over, with an empty query and the first row highlighted.
pub fn toggle_command_palette(p: &mut CommandPalette)
    ensures
        final(p).shown == !old(p).shown,
        final(p).shown ==> final(p).query@.len() == 0 && final(p).selected == 0,
        !final(p).shown ==> final(p).query@ == old(p).query@ && final(p).selected == old(p).selected,
{
    p.shown = !p.shown;
    if p.shown {
        p.query = String::new();
        p.selected = 0;
    }
}

/// The fill and the text color of a workspace pill: the active workspace
/// sits on the active surface in the active text color, the others are
/// transparent (no fill) in the secondary color.
pub fn pill_colors(active: bool) -> (r: (Option<ThemeToken>, ThemeToken))
    ensures
        active ==> r == (Some(ThemeToken::BgSurfaceActive), ThemeToken::TextActive),
        !active ==> r == (None::<ThemeToken>, ThemeToken::TextSecondary),
{
    if active {
        (Some(ThemeToken::BgSurfaceActive), ThemeToken::TextActive)
    } else {
        (None, ThemeToken::TextSecondary)
    }
}

} // verus!

verus! {

/// The center compositions the header offers in a workspace: the three of
/// the PAINT workspace there, none elsewhere.
pub fn center_compositions(workspace: Workspace) -> (r: Vec<PaintViewMode>)
    ensures
        workspace == Workspace::Paint ==> r@ == seq![PaintViewMode::Viewport3D, PaintViewMode::Texture2D, PaintViewMode::Split],
        workspace != Workspace::Paint ==> r@.len() == 0,
{
    if workspace == Workspace::Paint {
        paint_view_modes()
    } else {
        Vec::new()
    }
}

} // verus!
