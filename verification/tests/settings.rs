use petunia_ui::settings::{
    binding_matches, keymap_conflict_report, language_is_active, pack_text_key, settings_tab, settings_tabs,
    KeyConflict, SettingsTab,
};
use petunia_ui::settings::{visible_bindings, card_colors, interface_languages, pack_action, pack_is_built_in, theme_swatches, PackAction};
use petunia_ui::text::translated_or;
use petunia_ui::tokens::ThemeToken;

fn conflict(a: &str, b: &str, shortcut: &str) -> KeyConflict {
    KeyConflict { action_a: a.to_string(), action_b: b.to_string(), shortcut: shortcut.to_string() }
}

#[test]
fn tabs_round_trip_through_their_ids() {
    let tabs = settings_tabs();
    let ids: Vec<&str> = tabs.iter().map(|tab| tab.id()).collect();
    assert_eq!(ids, vec!["appearance", "icons", "language", "keymap", "interface", "import_export"]);
    for tab in tabs {
        assert_eq!(settings_tab(tab.id()), tab);
    }
    assert_eq!(settings_tab("unknown"), SettingsTab::Appearance);
    assert_eq!(SettingsTab::Keymap.hint(), "Perfis de keymap e detecção de conflitos");
    assert_eq!(SettingsTab::Interface.hint(), "");
}

#[test]
fn pack_texts_fall_back_to_the_manifest() {
    let key = pack_text_key("pack_name", "phosphor");
    assert_eq!(key, "settings.pack_name_phosphor");
    // A missing translation comes back as the key itself.
    assert_eq!(translated_or(&key, key.clone(), "Phosphor"), "Phosphor");
    assert_eq!(translated_or(&key, "Fósforo".to_string(), "Phosphor"), "Fósforo");
}

#[test]
fn each_conflicting_action_reports_its_first_conflict() {
    let conflicts = vec![
        conflict("global.undo", "model.extrude", "Ctrl+Z"),
        conflict("global.save", "model.slice", "Ctrl+S"),
        conflict("global.undo", "paint.fill", "Ctrl+Z"),
    ];
    let report = keymap_conflict_report(&conflicts, "Shares shortcut with");
    assert_eq!(report.len(), 2);
    assert_eq!(report[0].action, "global.undo");
    assert_eq!(report[0].message, "Shares shortcut with — model.extrude [Ctrl+Z]");
    assert_eq!(report[1].action, "global.save");
    assert_eq!(report[1].message, "Shares shortcut with — model.slice [Ctrl+S]");
    assert!(keymap_conflict_report(&Vec::new(), "x").is_empty());
}

#[test]
fn keymap_search_is_case_insensitive_on_action_and_shortcut() {
    assert!(binding_matches("", "global.undo", "Ctrl+Z"));
    assert!(binding_matches("UNDO", "global.undo", "Ctrl+Z"));
    assert!(binding_matches("ctrl+z", "global.undo", "Ctrl+Z"));
    assert!(!binding_matches("redo", "global.undo", "Ctrl+Z"));
}

#[test]
fn english_card_is_active_for_en_us() {
    assert!(language_is_active("pt-BR", "pt-BR"));
    assert!(language_is_active("en-US", "en"));
    assert!(language_is_active("en", "en"));
    assert!(!language_is_active("en-US", "pt-BR"));
}

#[test]
fn settings_cards_mark_the_active_entry() {
    assert_eq!(card_colors(true), (ThemeToken::BgSurfaceActive, ThemeToken::AccentBlue));
    assert_eq!(card_colors(false), (ThemeToken::BgSurface, ThemeToken::BorderSubtle));
}

#[test]
fn only_built_in_packs_can_be_chosen() {
    assert!(pack_is_built_in("petunia", false));
    assert!(pack_is_built_in("lucide", true));
    assert!(!pack_is_built_in("lucide", false));
    assert_eq!(pack_action(true, true), PackAction::Selected);
    assert_eq!(pack_action(false, true), PackAction::Use);
    assert_eq!(pack_action(false, false), PackAction::Unavailable);
}

#[test]
fn theme_cards_preview_seven_tokens_and_two_languages_are_offered() {
    let swatches = theme_swatches();
    assert_eq!(swatches.len(), 7);
    assert_eq!(swatches[4], ("Accent", ThemeToken::AccentBlue));
    let langs = interface_languages();
    assert_eq!(langs[0].0, "pt-BR");
    assert_eq!(langs[1].2, "assets/locales/en.toml");
}

#[test]
fn the_keymap_table_shows_matching_rows() {
    let rows = vec![
        ("model.extrude".to_string(), "E".to_string()),
        ("view.frame_all".to_string(), "Home".to_string()),
        ("model.bevel".to_string(), "Ctrl+B".to_string()),
    ];
    assert_eq!(visible_bindings(&rows, ""), vec![0, 1, 2]);
    assert_eq!(visible_bindings(&rows, "MODEL"), vec![0, 2]);
    assert_eq!(visible_bindings(&rows, "home"), vec![1]);
    assert_eq!(visible_bindings(&rows, "zzz"), Vec::<usize>::new());
}
