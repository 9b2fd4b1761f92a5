use vstd::prelude::*;
use vstd::string::*;

use crate::text::{concat, contains_substring, has_substring, joined, lowercase, lowercase_text, str_eq};
use crate::tokens::ThemeToken;

verus! {

/// Tabs of the preferences window, in strip order.
#[derive(Debug, Clone, Copy, PartialEq, Eq, Structural)]
pub enum SettingsTab {
    Appearance,
    Icons,
    Language,
    Keymap,
    Interface,
    ImportExport,
}

impl SettingsTab {
    pub open spec fn spec_id(self) -> Seq<char> {
        match self {
            SettingsTab::Appearance => "appearance"@,
            SettingsTab::Icons => "icons"@,
            SettingsTab::Language => "language"@,
            SettingsTab::Keymap => "keymap"@,
            SettingsTab::Interface => "interface"@,
            SettingsTab::ImportExport => "import_export"@,
        }
    }

    /// The id stored in the UI state for this tab.
    pub fn id(self) -> (r: &'static str)
        ensures
            r@ == self.spec_id(),
    {
        match self {
            SettingsTab::Appearance => "appearance",
            SettingsTab::Icons => "icons",
            SettingsTab::Language => "language",
            SettingsTab::Keymap => "keymap",
            SettingsTab::Interface => "interface",
            SettingsTab::ImportExport => "import_export",
        }
    }

    pub open spec fn spec_hint(self) -> Seq<char> {
        match self {
            SettingsTab::Appearance => "Temas visuais, paletas e tokens semânticos"@,
            SettingsTab::Icons => "Pacotes de ícones e símbolos da interface"@,
            SettingsTab::Language => "Localização, traduções e arquivos TOML"@,
            SettingsTab::Keymap => "Perfis de keymap e detecção de conflitos"@,
            SettingsTab::Interface => ""@,
            SettingsTab::ImportExport => ""@,
        }
    }

    /// Tooltip of the tab button (empty: no tooltip).
    pub fn hint(self) -> (r: &'static str)
        ensures
            r@ == self.spec_hint(),
    {
        match self {
            SettingsTab::Appearance => "Temas visuais, paletas e tokens semânticos",
            SettingsTab::Icons => "Pacotes de ícones e símbolos da interface",
            SettingsTab::Language => "Localização, traduções e arquivos TOML",
            SettingsTab::Keymap => "Perfis de keymap e detecção de conflitos",
            SettingsTab::Interface => "",
            SettingsTab::ImportExport => "",
        }
    }
}

/// The tab strip, in order.
pub fn settings_tabs() -> (r: Vec<SettingsTab>)
    ensures
        r@ == seq![
            SettingsTab::Appearance,
            SettingsTab::Icons,
            SettingsTab::Language,
            SettingsTab::Keymap,
            SettingsTab::Interface,
            SettingsTab::ImportExport,
        ],
{
    vec![
        SettingsTab::Appearance,
        SettingsTab::Icons,
        SettingsTab::Language,
        SettingsTab::Keymap,
        SettingsTab::Interface,
        SettingsTab::ImportExport,
    ]
}

pub open spec fn spec_settings_tab(id: Seq<char>) -> SettingsTab {
    if id == "icons"@ {
        SettingsTab::Icons
    } else if id == "language"@ {
        SettingsTab::Language
    } else if id == "keymap"@ {
        SettingsTab::Keymap
    } else if id == "interface"@ {
        SettingsTab::Interface
    } else if id == "import_export"@ {
        SettingsTab::ImportExport
    } else {
        SettingsTab::Appearance
    }
}

/// The tab whose content is drawn for a stored id; an unknown id shows the
/// Appearance tab.
pub fn settings_tab(id: &str) -> (r: SettingsTab)
    ensures
        r == spec_settings_tab(id@),
{
    if str_eq(id, "icons") {
        SettingsTab::Icons
    } else if str_eq(id, "language") {
        SettingsTab::Language
    } else if str_eq(id, "keymap") {
        SettingsTab::Keymap
    } else if str_eq(id, "interface") {
        SettingsTab::Interface
    } else if str_eq(id, "import_export") {
        SettingsTab::ImportExport
    } else {
        SettingsTab::Appearance
    }
}

/// Reading back the id a tab stores selects that tab.
pub proof fn lemma_tab_id_round_trips(tab: SettingsTab)
    ensures
        spec_settings_tab(tab.spec_id()) == tab,
{
    reveal_strlit("appearance");
    reveal_strlit("icons");
    reveal_strlit("language");
    reveal_strlit("keymap");
    reveal_strlit("interface");
    reveal_strlit("import_export");
    match tab {
        SettingsTab::Appearance => {
            assert("appearance"@ != "icons"@ && "appearance"@ != "language"@ && "appearance"@ != "keymap"@
                && "appearance"@ != "interface"@ && "appearance"@ != "import_export"@) by {
                assert("appearance"@[0] != "icons"@[0]);
                assert("appearance"@[0] != "language"@[0]);
                assert("appearance"@[0] != "keymap"@[0]);
                assert("appearance"@[0] != "interface"@[0]);
                assert("appearance"@[0] != "import_export"@[0]);
            }
        },
        SettingsTab::Icons => {},
        SettingsTab::Language => {
            assert("language"@[0] != "icons"@[0]);
        },
        SettingsTab::Keymap => {
            assert("keymap"@[0] != "icons"@[0]);
            assert("keymap"@[0] != "language"@[0]);
        },
        SettingsTab::Interface => {
            assert("interface"@[1] != "icons"@[1]);
            assert("interface"@[0] != "language"@[0]);
            assert("interface"@[0] != "keymap"@[0]);
        },
        SettingsTab::ImportExport => {
            assert("import_export"@[1] != "icons"@[1]);
            assert("import_export"@[0] != "language"@[0]);
            assert("import_export"@[0] != "keymap"@[0]);
            assert("import_export"@[1] != "interface"@[1]);
        },
    }
}

/// Translation key of a pack's text: `settings.<kind>_<id>`.
pub fn pack_text_key(kind: &str, id: &str) -> (r: String)
    ensures
        r@ == "settings."@ + kind@ + "_"@ + id@,
{
    let parts = vec!["settings.", kind, "_", id];
    let r = concat(&parts);
    proof {
        reveal_with_fuel(joined, 5);
        assert(parts@.drop_last().drop_last().drop_last().drop_last() =~= Seq::<&str>::empty());
        assert(r@ =~= "settings."@ + kind@ + "_"@ + id@);
    }
    r
}

/// Two actions of the keymap that share a shortcut.
pub struct KeyConflict {
    pub action_a: String,
    pub action_b: String,
    pub shortcut: String,
}

/// An inline error of the keymap form: the action it is attached to, and the message.
pub struct ConflictError {
    pub action: String,
    pub message: String,
}

/// The message reported for a conflict: `<shared> — <other action> [<shortcut>]`.
pub open spec fn conflict_message(shared: Seq<char>, c: KeyConflict) -> Seq<char> {
    shared + " — "@ + c.action_b@ + " ["@ + c.shortcut@ + "]"@
}

/// The conflicts of `rest` whose first action is not in `seen` and appears
/// for the first time, in order.
pub open spec fn first_conflicts(seen: Seq<Seq<char>>, rest: Seq<KeyConflict>) -> Seq<KeyConflict>
    decreases rest.len(),
{
    if rest.len() == 0 {
        Seq::empty()
    } else if seen.contains(rest[0].action_a@) {
        first_conflicts(seen, rest.drop_first())
    } else {
        seq![rest[0]] + first_conflicts(seen.push(rest[0].action_a@), rest.drop_first())
    }
}

/// The keymap form's report: one error per action that shares a shortcut,
/// for its first conflict.
pub fn keymap_conflict_report(conflicts: &Vec<KeyConflict>, shared: &str) -> (r: Vec<ConflictError>)
    ensures
        r@.len() == first_conflicts(seq![], conflicts@).len(),
        forall|k: int| 0 <= k < r@.len() ==> {
            &&& (#[trigger] r@[k]).action@ == first_conflicts(seq![], conflicts@)[k].action_a@
            &&& r@[k].message@ == conflict_message(shared@, first_conflicts(seq![], conflicts@)[k])
        },
{
    let mut r: Vec<ConflictError> = Vec::new();
    let mut seen: Vec<String> = Vec::new();
    let mut i: usize = 0;
    let ghost mut firsts: Seq<KeyConflict> = Seq::empty();
    assert(conflicts@.subrange(0, conflicts@.len() as int) =~= conflicts@);
    assert(crate::text::texts(seen@) =~= Seq::<Seq<char>>::empty());
    assert(firsts + first_conflicts(seq![], conflicts@) =~= first_conflicts(seq![], conflicts@));
    while i < conflicts.len()
        invariant
            i <= conflicts.len(),
            first_conflicts(seq![], conflicts@)
                == firsts + first_conflicts(crate::text::texts(seen@), conflicts@.subrange(i as int, conflicts@.len() as int)),
            r@.len() == firsts.len(),
            forall|k: int| 0 <= k < r@.len() ==> {
                &&& (#[trigger] r@[k]).action@ == firsts[k].action_a@
                &&& r@[k].message@ == conflict_message(shared@, firsts[k])
            },
        decreases conflicts.len() - i,
    {
        let ghost rest = conflicts@.subrange(i as int, conflicts@.len() as int);
        assert(rest.drop_first() =~= conflicts@.subrange(i + 1, conflicts@.len() as int));
        let c = &conflicts[i];
        if !crate::text::contains_text(&seen, c.action_a.as_str()) {
            let parts = vec![shared, " — ", c.action_b.as_str(), " [", c.shortcut.as_str(), "]"];
            let message = concat(&parts);
            proof {
                reveal_with_fuel(joined, 7);
                assert(parts@.drop_last().drop_last().drop_last().drop_last().drop_last().drop_last() =~= Seq::<&str>::empty());
                assert(message@ =~= conflict_message(shared@, *c));
            }
            let ghost old_seen = crate::text::texts(seen@);
            seen.push(c.action_a.clone());
            assert(crate::text::texts(seen@) =~= old_seen.push(c.action_a@));
            r.push(ConflictError { action: c.action_a.clone(), message });
            proof {
                let old_firsts = firsts;
                firsts = firsts.push(*c);
                assert(seq![*c] + first_conflicts(crate::text::texts(seen@), rest.drop_first()) == first_conflicts(old_seen, rest));
                assert(old_firsts + (seq![*c] + first_conflicts(crate::text::texts(seen@), rest.drop_first()))
                    =~= firsts + first_conflicts(crate::text::texts(seen@), rest.drop_first()));
            }
        }
        i = i + 1;
    }
    assert(conflicts@.subrange(conflicts@.len() as int, conflicts@.len() as int) =~= Seq::<KeyConflict>::empty());
    assert(firsts + Seq::<KeyConflict>::empty() =~= firsts);
    r
}

proof fn lemma_first_conflicts(seen: Seq<Seq<char>>, rest: Seq<KeyConflict>)
    ensures
        forall|k: int| 0 <= k < first_conflicts(seen, rest).len()
            ==> !seen.contains((#[trigger] first_conflicts(seen, rest)[k]).action_a@),
        forall|k: int| 0 <= k < first_conflicts(seen, rest).len()
            ==> rest.contains(#[trigger] first_conflicts(seen, rest)[k]),
        first_conflicts(seen, rest).map_values(|c: KeyConflict| c.action_a@).no_duplicates(),
        forall|k: int| 0 <= k < rest.len() && !seen.contains(#[trigger] rest[k].action_a@)
            ==> first_conflicts(seen, rest).map_values(|c: KeyConflict| c.action_a@).contains(rest[k].action_a@),
    decreases rest.len(),
{
    if rest.len() > 0 {
        let c = rest[0];
        if seen.contains(c.action_a@) {
            lemma_first_conflicts(seen, rest.drop_first());
            let f = first_conflicts(seen, rest);
            assert forall|k: int| 0 <= k < f.len() implies rest.contains(#[trigger] f[k]) by {
                let m = choose|m: int| 0 <= m < rest.drop_first().len() && rest.drop_first()[m] == f[k];
                assert(rest[m + 1] == f[k]);
            }
            assert forall|k: int| 0 <= k < rest.len() && !seen.contains(#[trigger] rest[k].action_a@)
                implies f.map_values(|c: KeyConflict| c.action_a@).contains(rest[k].action_a@) by {
                assert(k != 0);
                assert(rest.drop_first()[k - 1] == rest[k]);
            }
        } else {
            let seen2 = seen.push(c.action_a@);
            lemma_first_conflicts(seen2, rest.drop_first());
            let tail = first_conflicts(seen2, rest.drop_first());
            let f = first_conflicts(seen, rest);
            assert(f == seq![c] + tail);
            assert forall|k: int| 0 <= k < f.len() implies !seen.contains((#[trigger] f[k]).action_a@) by {
                if k > 0 {
                    assert(f[k] == tail[k - 1]);
                    assert(!seen2.contains(tail[k - 1].action_a@));
                    if seen.contains(tail[k - 1].action_a@) {
                        let m = choose|m: int| 0 <= m < seen.len() && seen[m] == tail[k - 1].action_a@;
                        assert(seen2[m] == seen[m]);
                    }
                }
            }
            assert forall|k: int| 0 <= k < f.len() implies rest.contains(#[trigger] f[k]) by {
                if k > 0 {
                    assert(f[k] == tail[k - 1]);
                    let m = choose|m: int| 0 <= m < rest.drop_first().len() && rest.drop_first()[m] == tail[k - 1];
                    assert(rest[m + 1] == f[k]);
                } else {
                    assert(rest[0] == f[0]);
                }
            }
            let ids = f.map_values(|c: KeyConflict| c.action_a@);
            let tail_ids = tail.map_values(|c: KeyConflict| c.action_a@);
            assert(ids =~= seq![c.action_a@] + tail_ids);
            assert forall|k: int| 0 <= k < tail_ids.len() implies tail_ids[k] != c.action_a@ by {
                assert(!seen2.contains(tail[k].action_a@));
                assert(seen2[seen.len() as int] == c.action_a@);
            }
            assert(ids.no_duplicates()) by {
                assert forall|i: int, j: int| 0 <= i < ids.len() && 0 <= j < ids.len() && i != j implies ids[i] != ids[j] by {
                    if i > 0 && j > 0 {
                        assert(ids[i] == tail_ids[i - 1]);
                        assert(ids[j] == tail_ids[j - 1]);
                    } else if i == 0 {
                        assert(ids[j] == tail_ids[j - 1]);
                    } else {
                        assert(ids[i] == tail_ids[i - 1]);
                    }
                }
            }
            assert forall|k: int| 0 <= k < rest.len() && !seen.contains(#[trigger] rest[k].action_a@)
                implies ids.contains(rest[k].action_a@) by {
                if rest[k].action_a@ == c.action_a@ {
                    assert(ids[0] == c.action_a@);
                } else {
                    assert(k != 0);
                    assert(rest.drop_first()[k - 1] == rest[k]);
                    if seen2.contains(rest[k].action_a@) {
                        let m = choose|m: int| 0 <= m < seen2.len() && seen2[m] == rest[k].action_a@;
                        if m < seen.len() {
                            assert(seen[m] == seen2[m]);
                        }
                    }
                    assert(tail_ids.contains(rest[k].action_a@));
                    let m = choose|m: int| 0 <= m < tail_ids.len() && tail_ids[m] == rest[k].action_a@;
                    assert(ids[m + 1] == tail_ids[m]);
                }
            }
        }
    }
}

/// The report names each conflicting action exactly once, and every action
/// that shares a shortcut is named.
pub proof fn lemma_conflict_report_names_each_action_once(conflicts: Seq<KeyConflict>)
    ensures
        first_conflicts(seq![], conflicts).map_values(|c: KeyConflict| c.action_a@).no_duplicates(),
        forall|k: int| 0 <= k < conflicts.len()
            ==> first_conflicts(seq![], conflicts).map_values(|c: KeyConflict| c.action_a@).contains(#[trigger] conflicts[k].action_a@),
        forall|k: int| 0 <= k < first_conflicts(seq![], conflicts).len()
            ==> conflicts.contains(#[trigger] first_conflicts(seq![], conflicts)[k]),
{
    lemma_first_conflicts(seq![], conflicts);
}

pub open spec fn spec_binding_matches(query: Seq<char>, action: Seq<char>, shortcut: Seq<char>) -> bool {
    query.len() == 0 || has_substring(lowercase(action), lowercase(query))
        || has_substring(lowercase(shortcut), lowercase(query))
}

/// Whether a row of the keymap table matches the search: any row for an
/// empty query, otherwise the lowercased action or shortcut holds the
/// lowercased query.
pub fn binding_matches(query: &str, action: &str, shortcut: &str) -> (r: bool)
    ensures
        r == spec_binding_matches(query@, action@, shortcut@),
{
    if query.is_empty() {
        return true;
    }
    let q = lowercase_text(query);
    let a = lowercase_text(action);
    if contains_substring(a.as_str(), q.as_str()) {
        return true;
    }
    let s = lowercase_text(shortcut);
    contains_substring(s.as_str(), q.as_str())
}

/// Whether the language card of `code` is the active one (`en-US` counts as `en`).
pub fn language_is_active(current: &str, code: &str) -> (r: bool)
    ensures
        r == (current@ == code@ || (code@ == "en"@ && current@ == "en-US"@)),
{
    str_eq(current, code) || (str_eq(code, "en") && str_eq(current, "en-US"))
}

} // verus!

verus! {

/// The fill and the border of a card of the settings lists (themes, icon
/// packs, languages): the active one sits on the active surface with an
/// accent border, the others on the plain surface with a subtle border.
pub fn card_colors(active: bool) -> (r: (ThemeToken, ThemeToken))
    ensures
        active ==> r == (ThemeToken::BgSurfaceActive, ThemeToken::AccentBlue),
        !active ==> r == (ThemeToken::BgSurface, ThemeToken::BorderSubtle),
{
    if active {
        (ThemeToken::BgSurfaceActive, ThemeToken::AccentBlue)
    } else {
        (ThemeToken::BgSurface, ThemeToken::BorderSubtle)
    }
}

/// What the right side of an icon pack card offers.
#[derive(Debug, Clone, Copy, PartialEq, Eq, Structural)]
pub enum PackAction {
    /// A "use" button: the pack is built in and not active.
    Use,
    /// The "selected" mark of the active pack.
    Selected,
    /// Nothing: the pack is announced but not built into this binary.
    Unavailable,
}

/// Only built-in packs can be chosen (the Petunia pack always is); the
/// active pack is marked instead.
pub fn pack_action(active: bool, built_in: bool) -> (r: PackAction)
    ensures
        r == (if active { PackAction::Selected } else if built_in { PackAction::Use } else { PackAction::Unavailable }),
{
    if active {
        PackAction::Selected
    } else if built_in {
        PackAction::Use
    } else {
        PackAction::Unavailable
    }
}

/// Whether an icon pack is built in: the Petunia pack, or a generic pack
/// whose feature is enabled in this build.
pub fn pack_is_built_in(id: &str, generic_enabled: bool) -> (r: bool)
    ensures
        r == (id@ == "petunia"@ || generic_enabled),
{
    str_eq(id, "petunia") || generic_enabled
}

/// The tokens a theme card previews, with their names.
pub fn theme_swatches() -> (r: Vec<(&'static str, ThemeToken)>)
    ensures
        r@ == seq![
            ("Canvas", ThemeToken::BgCanvas),
            ("Header", ThemeToken::BgHeader),
            ("Panel", ThemeToken::BgPanel),
            ("Surface", ThemeToken::BgSurface),
            ("Accent", ThemeToken::AccentBlue),
            ("Orange", ThemeToken::AccentOrange),
            ("Border", ThemeToken::BorderSubtle),
        ],
{
    let r = vec![
        ("Canvas", ThemeToken::BgCanvas),
        ("Header", ThemeToken::BgHeader),
        ("Panel", ThemeToken::BgPanel),
        ("Surface", ThemeToken::BgSurface),
        ("Accent", ThemeToken::AccentBlue),
        ("Orange", ThemeToken::AccentOrange),
        ("Border", ThemeToken::BorderSubtle),
    ];
    assert(r@ =~= seq![
        ("Canvas", ThemeToken::BgCanvas),
        ("Header", ThemeToken::BgHeader),
        ("Panel", ThemeToken::BgPanel),
        ("Surface", ThemeToken::BgSurface),
        ("Accent", ThemeToken::AccentBlue),
        ("Orange", ThemeToken::AccentOrange),
        ("Border", ThemeToken::BorderSubtle),
    ]);
    r
}

/// The languages of the Language tab: code, name and locale file.
pub fn interface_languages() -> (r: Vec<(&'static str, &'static str, &'static str)>)
    ensures
        r@ == seq![
            ("pt-BR", "Português do Brasil", "assets/locales/pt-BR.toml"),
            ("en", "English (United States)", "assets/locales/en.toml"),
        ],
{
    let r = vec![
        ("pt-BR", "Português do Brasil", "assets/locales/pt-BR.toml"),
        ("en", "English (United States)", "assets/locales/en.toml"),
    ];
    assert(r@ =~= seq![
        ("pt-BR", "Português do Brasil", "assets/locales/pt-BR.toml"),
        ("en", "English (United States)", "assets/locales/en.toml"),
    ]);
    r
}

} // verus!

verus! {

/// The positions of the keymap rows (action, shortcut) that the search shows.
pub open spec fn shown_bindings(bindings: Seq<(String, String)>, query: Seq<char>) -> Seq<usize>
    decreases bindings.len(),
{
    if bindings.len() == 0 {
        Seq::empty()
    } else {
        let prev = shown_bindings(bindings.drop_last(), query);
        if spec_binding_matches(query, bindings.last().0@, bindings.last().1@) {
            prev.push((bindings.len() - 1) as usize)
        } else {
            prev
        }
    }
}

/// The rows of the keymap table for a search, in table order.
pub fn visible_bindings(bindings: &Vec<(String, String)>, query: &str) -> (r: Vec<usize>)
    ensures
        r@ == shown_bindings(bindings@, query@),
{
    let mut r: Vec<usize> = Vec::new();
    let mut i: usize = 0;
    while i < bindings.len()
        invariant
            i <= bindings.len(),
            r@ == shown_bindings(bindings@.subrange(0, i as int), query@),
        decreases bindings.len() - i,
    {
        assert(bindings@.subrange(0, i + 1).drop_last() =~= bindings@.subrange(0, i as int));
        if binding_matches(query, bindings[i].0.as_str(), bindings[i].1.as_str()) {
            r.push(i);
        }
        i = i + 1;
    }
    assert(bindings@.subrange(0, bindings@.len() as int) =~= bindings@);
    r
}

} // verus!
