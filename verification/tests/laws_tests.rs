use babelmap::hints::{
    anim_hints, help_row, help_text, hint_bar, map_hints, playback_row, HelpScreen, Playback, PromptLabel, ResizeTarget,
};
use babelmap::keymap::{Context, HotkeyGroupConfig, HotkeyLayout, HotkeysConfig, KeyMap, KeymapConfig};
use babelmap::keys::{Key, KeySpec};
use babelmap::launch_options::interpreter_name;
use babelmap::map_dump::{render_dump, DumpEdge, DumpRoom, Direction};
use babelmap::persist::slugify;
use babelmap::turns::{tidy_signals, LayerEdge, TidySignals};

fn registry() -> Vec<String> {
    ["quit", "save-state", "restore-state", "tidy-map", "toggle-focus", "pan-map", "zoom-map", "select-room",
        "center-map", "cycle-layout", "animate-tidy", "nudge-room"]
        .iter()
        .map(|s| s.to_string())
        .collect()
}

fn ctrl(c: char) -> KeySpec {
    KeySpec { code: Key::Char(c), ctrl: true, shift: false, alt: false }
}

#[test]
fn kept_override_is_what_lookup_returns() {
    let cfg = KeymapConfig {
        use_defaults: false,
        global: vec![
            ("ctrl+t".to_string(), "quit".to_string()),
            ("ctrl+t".to_string(), "tidy-map".to_string()),
            ("ctrl+t".to_string(), "no-such-command".to_string()),
            ("nope".to_string(), "quit".to_string()),
        ],
        map: vec![("ctrl+u".to_string(), "center-map".to_string())],
        anim: vec![],
    };
    let (km, warnings) = KeyMap::resolve(&cfg, &registry());
    // The later kept override supersedes the earlier; the rejected one does not.
    assert_eq!(km.lookup(&ctrl('t'), Context::Global), Some("tidy-map"));
    // A miss in the map layer falls back to the global layer.
    assert_eq!(km.lookup(&ctrl('t'), Context::MapPane), Some("tidy-map"));
    assert_eq!(km.lookup(&ctrl('u'), Context::MapPane), Some("center-map"));
    assert_eq!(km.lookup(&ctrl('u'), Context::Global), None);
    // One warning per rejected override.
    assert_eq!(warnings.len(), 2);
}

#[test]
fn resolved_hotkeys_name_registry_commands() {
    let cfg = HotkeysConfig {
        prefix: None,
        direct: Some(vec!["quit".to_string(), "bogus".to_string(), "quit".to_string()]),
        group: vec![HotkeyGroupConfig {
            title: "Layout".to_string(),
            commands: vec!["tidy-map".to_string(), "fake-cmd".to_string()],
        }],
    };
    let reg = registry();
    let (layout, warnings) = HotkeyLayout::resolve(&cfg, &reg);
    assert_eq!(layout.direct, vec!["quit".to_string()]);
    for (_, cmds) in &layout.groups {
        for (_, c) in cmds {
            let first = c.split_whitespace().next().unwrap();
            assert!(reg.iter().any(|r| r == first));
        }
    }
    assert_eq!(layout.groups.len(), 1);
    assert_eq!(layout.groups[0].1.len(), 1);
    assert_eq!(warnings.len(), 2);
}

#[test]
fn slug_without_hyphens_keeps_letters_and_digits() {
    for name in ["Before Troll", "  hello  world  ", "CAPS and Symbols!!", "a--b", "Zork 2: the Wizard", "--x--"] {
        let slug = slugify(name);
        let expected: String =
            name.chars().filter(|c| c.is_ascii_alphanumeric()).map(|c| c.to_ascii_lowercase()).collect();
        assert_eq!(slug.replace('-', ""), expected);
        assert_eq!(slugify(&slug), slug);
    }
    assert_eq!(slugify("Zork 2: the Wizard"), "zork-2-the-wizard");
}

#[test]
fn interpreter_names_are_distinct_and_unknown_is_question_mark() {
    assert_eq!(interpreter_name(0), "?");
    assert_eq!(interpreter_name(12), "?");
    assert_eq!(interpreter_name(255), "?");
    let names: Vec<&str> = (1..=11).map(interpreter_name).collect();
    for (i, a) in names.iter().enumerate() {
        assert_ne!(*a, "?");
        for b in &names[i + 1..] {
            assert_ne!(a, b);
        }
    }
    assert_eq!(interpreter_name(1), "DECSystem-20");
    assert_eq!(interpreter_name(6), "IBM PC");
}

#[test]
fn dump_header_empty_note_and_room_order() {
    let empty = render_dump(vec![], &vec![], None, &vec![]);
    assert!(empty.starts_with("# babelmap map dump\n"));
    assert_eq!(empty, "# babelmap map dump\n# rooms: 0, edges: 0, current: none\n#\n# (empty map)\n");
    assert!(!empty.contains("\nROOM "));
}

#[test]
fn dump_legend_ascends_by_id() {
    let rooms = vec![
        DumpRoom { id: 9, label: "Attic".to_string(), pos: Some((0, 0)), notes: String::new() },
        DumpRoom { id: 2, label: "Cellar".to_string(), pos: None, notes: String::new() },
        DumpRoom { id: 5, label: "Kitchen".to_string(), pos: Some((1, 0)), notes: String::new() },
    ];
    let edges = vec![DumpEdge { origin: 2, dir: Direction::Up, dest: 5, distorted: false }];
    let grid = vec![vec![babelmap::map_dump::MapCell {
        symbol: " ".to_string(),
        bg: babelmap::map_dump::CellBg::Other,
    }]];
    let dump = render_dump(rooms, &edges, Some(2), &grid);
    let ids: Vec<&str> = dump.lines().filter(|l| l.starts_with("ROOM ")).map(|l| l.split(' ').nth(1).unwrap()).collect();
    assert_eq!(ids, vec!["2", "5", "9"]);
    assert!(dump.contains("\nEDGE 2 U 5\n"));
    assert!(dump.starts_with("# babelmap map dump\n# rooms: 3, edges: 1, current: #2\n"));
}

#[test]
fn tidy_signals_only_in_auto_layout() {
    let edges = vec![
        LayerEdge { origin_layer: 0, dest_layer: 0, distorted: false },
        LayerEdge { origin_layer: 1, dest_layer: 1, distorted: true },
    ];
    assert_eq!(tidy_signals(false, 3, 4, 2, 3, 4, 4, &edges, 0), None);
    // A new room, no overlap on layer 0.
    assert_eq!(
        tidy_signals(true, 3, 4, 2, 2, 4, 4, &edges, 0),
        Some(TidySignals { new_room: true, overlap: false, changed: true })
    );
    // Two rooms on one cell: overlap, and a new connection changes the map.
    assert_eq!(
        tidy_signals(true, 4, 4, 2, 3, 3, 4, &edges, 0),
        Some(TidySignals { new_room: false, overlap: true, changed: true })
    );
    // A distorted connection inside layer 1 tangles it; a bare look changes nothing.
    assert_eq!(
        tidy_signals(true, 4, 4, 3, 3, 4, 4, &edges, 1),
        Some(TidySignals { new_room: false, overlap: true, changed: false })
    );
    // A distorted connection between layers does not count.
    let cross = vec![LayerEdge { origin_layer: 0, dest_layer: 1, distorted: true }];
    assert_eq!(
        tidy_signals(true, 4, 4, 3, 3, 4, 4, &cross, 0),
        Some(TidySignals { new_room: false, overlap: false, changed: false })
    );
}

#[test]
fn help_row_leads_with_the_menu_key() {
    let km = KeyMap::default();
    let layout = HotkeyLayout::default();
    let row = help_row(&km, &layout, true, 200);
    let bar = hint_bar(&km, &layout, Context::MapPane, &map_hints(), 200 - "Ctrl+K: menu".len() - 3);
    assert!(!bar.is_empty());
    assert_eq!(row, format!("Ctrl+K: menu | {}", bar));
    // Too narrow for any hint: the menu key alone.
    assert_eq!(help_row(&km, &layout, false, 10), "Ctrl+K: menu");
    assert_eq!(help_row(&km, &layout, false, 0), "Ctrl+K: menu");
}

#[test]
fn playback_row_shows_stage_and_play_mark() {
    let km = KeyMap::default();
    let layout = HotkeyLayout::default();
    let status = "Tidy [2/5] spread ▶";
    let bar = hint_bar(&km, &layout, Context::Anim, &anim_hints(), 200 - status.chars().count() - 3);
    assert_eq!(playback_row(&km, &layout, 1, 5, "spread", true, 200), format!("{} | {}", status, bar));
    // Paused, and too narrow for hints: the separator stays.
    assert_eq!(playback_row(&km, &layout, 0, 3, "start", false, 5), "Tidy [1/3] start | ");
}

fn nothing_open() -> HelpScreen {
    HelpScreen {
        config_screen: false,
        verb_menu: false,
        picking_file: false,
        saves: false,
        gallery: false,
        playback: None,
        prompt: None,
        resize: None,
        map_focus: false,
    }
}

#[test]
fn help_text_follows_what_is_open() {
    let km = KeyMap::default();
    let layout = HotkeyLayout::default();
    let everyday = help_text(&km, &layout, &nothing_open(), 120);
    assert_eq!(everyday, help_row(&km, &layout, false, 120));

    let mut s = nothing_open();
    s.resize = Some(ResizeTarget::InvDock);
    assert_eq!(help_text(&km, &layout, &s, 120), "Resize [inventory] | Tab: pane | arrows: adjust | 0: reset | Esc: done");
    s.prompt = Some(PromptLabel::ConfirmDeleteSave);
    assert_eq!(help_text(&km, &layout, &s, 120), "Delete? (y/n): type text | Enter: apply | Esc: cancel");
    s.playback = Some(Playback { idx: 0, frames: 2, label: "start".to_string(), playing: false });
    assert!(help_text(&km, &layout, &s, 120).starts_with("Tidy [1/2] start | "));
    s.gallery = true;
    assert_eq!(help_text(&km, &layout, &s, 120), "Symbol Gallery | \u{2191}\u{2193}: preset | \u{2190}\u{2192}: category | Esc/Enter: close");
    s.saves = true;
    assert!(help_text(&km, &layout, &s, 120).starts_with("Saves | "));
    s.picking_file = true;
    assert!(help_text(&km, &layout, &s, 120).starts_with("Import Save | "));
    s.verb_menu = true;
    assert!(help_text(&km, &layout, &s, 120).starts_with("Verb Menu | "));
    s.config_screen = true;
    assert_eq!(help_text(&km, &layout, &s, 120), "\u{2191}\u{2193} move  \u{2190}\u{2192}/Space change  s save  Esc cancel");
}
