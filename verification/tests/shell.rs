use petunia_ui::main_header::{
    center_compositions, edit_menu, file_menu, help_menu, paint_view_modes, pill_colors, recent_project_label, recent_projects_menu,
    toggle_command_palette, toggled_panels, window_menu, CommandPalette, DocsTopic, HeaderCommand, PaintViewMode,
    WindowPanels,
};
use petunia_ui::recovery::{offered_actions, saved_file_label, snapshot_label, RecoveryAction};
use petunia_ui::regions::RegionSlot;
use petunia_ui::shell::{
    dock_orientation_key, dock_side_key, dock_top_rows, toggled_orientation, toggled_side, DockOrientation, DockSide,
    after_divider_gesture, reset_all_layouts, reset_workspace_layout, DividerGesture, DockFlags, LayoutPrefs, SceneCounts,
};
use petunia_ui::toolbar::ToolbarConfig;
use petunia_ui::status::{domain_hint_key, hint_source, save_hint_key, status_text, HintSource};
use petunia_ui::tokens::{fallback_color, toggle_colors, Rgba, ThemeToken};
use petunia_ui::workspace::{SelectionDomain, Workspace};

#[test]
fn dock_buttons_toggle() {
    assert_eq!(toggled_side(DockSide::Left), DockSide::Right);
    assert_eq!(toggled_side(toggled_side(DockSide::Right)), DockSide::Right);
    assert_eq!(toggled_orientation(DockOrientation::Stacked), DockOrientation::SideBySide);
    assert_eq!(dock_side_key(DockSide::Left), "dock.left");
    assert_eq!(dock_orientation_key(DockOrientation::SideBySide), "dock.side_by_side");
}

#[test]
fn dock_top_rows_follow_the_workspace_section() {
    let counts = SceneCounts { assets: 3, collections: 1, annotation_groups: 0, annotations: 2, measurements: 1, references: 0 };
    assert_eq!(dock_top_rows(false, None, &counts), 11);
    assert_eq!(dock_top_rows(true, Some(5), &counts), 6);
    assert_eq!(dock_top_rows(true, None, &counts), 2);
}

#[test]
fn status_message_and_hint() {
    let tool = "bevel".to_string();
    assert_eq!(status_text(&"Saved".to_string(), true, None, &tool, "Ready".into()), "Saved");
    assert_eq!(status_text(&String::new(), true, Some("Δ 1.50 m".into()), &tool, "Ready".into()), "Δ 1.50 m");
    assert_eq!(status_text(&String::new(), true, None, &tool, "Ready".into()), "bevel");
    assert_eq!(status_text(&String::new(), false, Some("x".into()), &tool, "Ready".into()), "Ready");
    assert_eq!(hint_source(true, true, true, SelectionDomain::Face), HintSource::Feedback);
    assert_eq!(hint_source(false, true, true, SelectionDomain::Face), HintSource::Interacting);
    assert_eq!(hint_source(false, false, true, SelectionDomain::Face), HintSource::Tool);
    assert_eq!(hint_source(false, false, false, SelectionDomain::Face), HintSource::Domain(SelectionDomain::Face));
    assert_eq!(domain_hint_key(SelectionDomain::Vertex), "status.hint_point");
    assert_eq!(save_hint_key(true), "status.unsaved_hint");
    assert_eq!(save_hint_key(false), "status.saved_hint");
}

#[test]
fn recovery_dialog_offers_open_saved_only_with_a_saved_file() {
    assert_eq!(
        offered_actions(true),
        vec![RecoveryAction::Recover, RecoveryAction::OpenSaved, RecoveryAction::Discard]
    );
    assert_eq!(offered_actions(false), vec![RecoveryAction::Recover, RecoveryAction::Discard]);
    assert_eq!(snapshot_label(Some("autosave-001.petunia")), "autosave-001.petunia");
    assert_eq!(snapshot_label(None), "autosave");
    assert_eq!(saved_file_label(None), "project.petunia");
    assert_eq!(saved_file_label(Some("test.petunia")), "test.petunia");
}

#[test]
fn header_labels() {
    assert_eq!(recent_project_label(""), "Untitled");
    assert_eq!(recent_project_label("Adventure"), "Adventure");
    assert_eq!(paint_view_modes(), vec![PaintViewMode::Viewport3D, PaintViewMode::Texture2D, PaintViewMode::Split]);
}

#[test]
fn fallback_palette_accent_and_surfaces() {
    assert_eq!(fallback_color(ThemeToken::AccentBlue), Rgba { r: 0xb5, g: 0x8c, b: 0xff, a: 255 });
    assert_eq!(fallback_color(ThemeToken::BgSurfaceActive), Rgba { r: 0x39, g: 0x2e, b: 0x49, a: 255 });
    assert_eq!(fallback_color(ThemeToken::BorderFocus), fallback_color(ThemeToken::AccentBlue));
    assert_eq!(fallback_color(ThemeToken::StatusWarning), Rgba { r: 0xf3, g: 0x9c, b: 0x12, a: 255 });
}

#[test]
fn region_slots_are_distinct() {
    assert_ne!(RegionSlot::Viewport, RegionSlot::Shelf);
    assert_eq!(RegionSlot::PaintCanvas, RegionSlot::PaintCanvas);
}

#[test]
fn toggle_buttons_fill_with_the_accent_when_active() {
    assert_eq!(toggle_colors(true, false), (ThemeToken::AccentBlue, ThemeToken::TextActive));
    assert_eq!(toggle_colors(true, true), (ThemeToken::AccentBlue, ThemeToken::TextActive));
    assert_eq!(toggle_colors(false, true), (ThemeToken::BgSurfaceHover, ThemeToken::TextSecondary));
    assert_eq!(toggle_colors(false, false), (ThemeToken::BgSurface, ThemeToken::TextSecondary));
}

#[test]
fn file_menu_items_and_default_shortcuts() {
    let items = file_menu();
    let commands: Vec<HeaderCommand> = items.iter().map(|i| i.command).collect();
    assert_eq!(
        commands,
        vec![
            HeaderCommand::NewProject,
            HeaderCommand::OpenProject,
            HeaderCommand::SaveProject,
            HeaderCommand::SaveProjectAs,
            HeaderCommand::SaveActiveAsAsset,
            HeaderCommand::ImportObj,
            HeaderCommand::ExportObj,
            HeaderCommand::ExportGlb,
            HeaderCommand::Quit,
        ]
    );
    assert_eq!(items[3].shortcut, Some("Ctrl+Shift+S"));
    assert_eq!(items[3].binding, Some("global.save_project_as"));
    assert!(!items[6].translated);
    assert!(items[8].starts_group);
}

#[test]
fn recent_projects_fall_back_to_untitled() {
    assert_eq!(recent_projects_menu(&vec![]), None);
    let names = vec!["Castle".to_string(), String::new()];
    assert_eq!(recent_projects_menu(&names), Some(vec!["Castle".to_string(), "Untitled".to_string()]));
}

#[test]
fn undo_and_redo_follow_the_history() {
    let items = edit_menu(true, false);
    assert!(items[0].enabled);
    assert!(!items[1].enabled);
    assert_eq!(items[2].command, HeaderCommand::ToggleCommandPalette);
    assert_eq!(items[3].shortcut, Some("Ctrl+,"));
}

#[test]
fn window_toggles_show_and_flip_their_panel() {
    let p = WindowPanels { performance_hud: false, asset_browser: true, asset_library: false, reference_manager: false };
    let items = window_menu(p);
    assert_eq!(items[1].checked, Some(true));
    assert_eq!(items[0].checked, Some(false));
    let q = toggled_panels(p, HeaderCommand::TogglePerformanceHud);
    assert!(q.performance_hud && q.asset_browser);
    assert_eq!(toggled_panels(q, HeaderCommand::TogglePerformanceHud), p);
    assert_eq!(toggled_panels(p, HeaderCommand::Quit), p);
}

#[test]
fn help_menu_lists_the_documentation() {
    let items = help_menu();
    assert_eq!(items.len(), 6);
    assert_eq!(items[2].command, HeaderCommand::OpenDocs(DocsTopic::Keymaps));
    assert_eq!(items[5].label, "About Petunia3D...");
}

#[test]
fn the_command_palette_opens_fresh() {
    let mut p = CommandPalette { shown: false, query: "old".to_string(), selected: 4 };
    toggle_command_palette(&mut p);
    assert!(p.shown);
    assert_eq!(p.query, "");
    assert_eq!(p.selected, 0);
    p.query = "ext".to_string();
    p.selected = 2;
    toggle_command_palette(&mut p);
    assert!(!p.shown);
    assert_eq!(p.query, "ext");
    assert_eq!(p.selected, 2);
}

#[test]
fn workspace_pills_highlight_the_active_one() {
    assert_eq!(pill_colors(true), (Some(ThemeToken::BgSurfaceActive), ThemeToken::TextActive));
    assert_eq!(pill_colors(false), (None, ThemeToken::TextSecondary));
}

fn customised_layout() -> LayoutPrefs {
    LayoutPrefs {
        properties_tab: "material".to_string(),
        uv_show_preview: false,
        show_shelf: false,
        toolbar: ToolbarConfig { order: vec!["knife".to_string()], hidden: vec!["slice".to_string()], columns: 2 },
        dock_side: DockSide::Left,
        dock_orientation: DockOrientation::SideBySide,
        scene_split_auto: false,
        scene_search_open: true,
        inspector_pinned: Some(4),
        inspector_search_open: true,
        inspector_search: "bev".to_string(),
        outliner_collapsed: true,
        inspector_collapsed: true,
    }
}

#[test]
fn test_reset_layout_actions_restore_defaults() {
    let mut p = customised_layout();
    p.outliner_collapsed = true;
    p.properties_tab = "material".to_string();
    p.show_shelf = false;

    reset_workspace_layout(&mut p);
    assert!(!p.outliner_collapsed);
    assert_eq!(p.properties_tab, "material");

    reset_all_layouts(&mut p);
    assert_eq!(p.properties_tab, "object");
    assert!(p.show_shelf);
    assert!(p.uv_show_preview);
}

#[test]
fn resetting_all_layouts_restores_every_default() {
    let mut p = customised_layout();
    reset_all_layouts(&mut p);
    assert!(p.scene_split_auto);
    assert!(p.toolbar.order.is_empty() && p.toolbar.hidden.is_empty());
    assert_eq!(p.toolbar.columns, 1);
    assert_eq!(p.dock_side, DockSide::Right);
    assert_eq!(p.dock_orientation, DockOrientation::Stacked);
    assert!(!p.scene_search_open && !p.inspector_search_open);
    assert_eq!(p.inspector_pinned, None);
    assert_eq!(p.inspector_search, "");
    assert!(!p.outliner_collapsed && !p.inspector_collapsed);
}

#[test]
fn drag_persists_the_split_and_leaves_auto() {
    let flags = DockFlags { split_auto: true, outliner_collapsed: false, inspector_collapsed: false };
    let after = after_divider_gesture(flags, DividerGesture::Drag);
    assert!(!after.split_auto);
    assert!(!after.outliner_collapsed);
    assert!(!after.inspector_collapsed);
}

#[test]
fn double_click_returns_to_auto_without_touching_the_split() {
    let flags = DockFlags { split_auto: false, outliner_collapsed: true, inspector_collapsed: true };
    let after = after_divider_gesture(flags, DividerGesture::Equalize);
    assert!(after.split_auto);
    assert!(!after.outliner_collapsed);
    assert!(!after.inspector_collapsed);
}

#[test]
fn paint_header_offers_three_center_compositions() {
    assert_eq!(
        center_compositions(Workspace::Paint),
        vec![PaintViewMode::Viewport3D, PaintViewMode::Texture2D, PaintViewMode::Split]
    );
    assert!(center_compositions(Workspace::Model).is_empty());
}
