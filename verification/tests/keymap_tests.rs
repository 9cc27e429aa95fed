use babelmap::keymap::{Context, HotkeyGroupConfig, HotkeyLayout, HotkeysConfig, KeyMap, KeymapConfig};
use babelmap::keys::{Key, KeySpec};

/// The command names the application's registry knows.
fn registry() -> Vec<String> {
    [
        "quit", "save-state", "restore-state", "export-svg", "export-dot", "export-dump", "cycle-layout",
        "tidy-map", "animate-tidy", "toggle-alignment", "toggle-portal-labels", "open-saves",
        "toggle-inventory", "open-verb-menu", "open-config", "open-style-editor", "reset-game",
        "open-history", "nudge-room", "pan-map", "zoom-map", "center-map", "select-room", "rename-layer",
        "peel-layer", "merge-layer", "cycle-layer", "rename-room", "edit-notes", "delete-connection",
        "relabel-edge", "toggle-inspector", "open-gallery", "toggle-focus", "anim-step", "anim-play",
        "anim-exit",
    ]
    .iter()
    .map(|s| s.to_string())
    .collect()
}

fn g(code: Key, ctrl: bool, shift: bool) -> KeySpec {
    KeySpec { code, ctrl, shift, alt: false }
}

#[test]
fn keyspec_parse_and_label_roundtrip() {
    let s: KeySpec = "ctrl+s".parse().unwrap();
    assert_eq!((s.ctrl, s.code), (true, Key::Char('s')));
    assert_eq!("shift+left".parse::<KeySpec>().unwrap().code, Key::Left);
    assert_eq!("+".parse::<KeySpec>().unwrap().code, Key::Char('+'));
    assert_eq!("f1".parse::<KeySpec>().unwrap().code, Key::F(1));
    assert_eq!("space".parse::<KeySpec>().unwrap().code, Key::Char(' '));
    assert!("nope".parse::<KeySpec>().is_err());
    assert_eq!("ctrl+s".parse::<KeySpec>().unwrap().label(), "Ctrl+S");
}

#[test]
fn default_keymap_matches_todays_bindings() {
    let km = KeyMap::default();
    assert_eq!(km.lookup(&g(Key::Char('s'), true, false), Context::Global), Some("save-state"));
    assert_eq!(km.lookup(&g(Key::Char('n'), false, false), Context::MapPane), Some("select-room next"));
    assert_eq!(km.lookup(&g(Key::Char('h'), false, false), Context::MapPane), Some("pan-map -1 0"));
    assert_eq!(km.lookup(&g(Key::Char('s'), true, false), Context::MapPane), Some("save-state"));
    assert_eq!(km.lookup(&g(Key::Left, false, false), Context::MapPane), Some("pan-map -1 0"));
    assert_eq!(km.lookup(&g(Key::Left, false, true), Context::MapPane), None);
}

#[test]
fn hotkey_layout_default_direct_and_indirect() {
    let layout = HotkeyLayout::default();
    assert!(layout.is_direct_name("center-map"), "center-map should be direct");
    assert!(layout.is_direct_name("quit"), "quit should be direct");
    assert!(layout.is_direct_name("toggle-focus"), "toggle-focus should be direct");
    assert!(!layout.is_direct_name("tidy-map"), "tidy-map should NOT be direct");
    assert!(!layout.is_direct_name("open-gallery"), "open-gallery should NOT be direct");
    assert_eq!(layout.groups.len(), 5, "default layout should have 5 groups");
    assert_eq!(layout.groups[0].0, "Layout", "first group title should be Layout");
}

#[test]
fn hotkey_layout_resolve_custom_direct_and_unknown_name() {
    let cfg = HotkeysConfig {
        prefix: None,
        direct: Some(vec!["save-state".into(), "quit".into(), "not-a-command".into()]),
        group: vec![HotkeyGroupConfig { title: "T".into(), commands: vec!["tidy-map".into()] }],
    };
    let (layout, warnings) = HotkeyLayout::resolve(&cfg, &registry());
    assert!(layout.is_direct_name("save-state"), "save-state should be direct");
    assert!(layout.is_direct_name("quit"), "quit should be direct");
    assert!(!layout.is_direct_name("center-map"), "center-map should NOT be direct with custom list");
    assert!(!warnings.is_empty(), "unknown command in direct should produce warning");
    assert!(warnings.iter().any(|w| w.contains("not-a-command")), "warning should mention not-a-command");
}

#[test]
fn hotkey_layout_resolve_unknown_group_command_dropped() {
    let cfg = HotkeysConfig {
        prefix: None,
        direct: None,
        group: vec![HotkeyGroupConfig {
            title: "MyGroup".into(),
            commands: vec!["tidy-map".into(), "totally-fake-cmd".into()],
        }],
    };
    let (layout, warnings) = HotkeyLayout::resolve(&cfg, &registry());
    assert_eq!(layout.groups.len(), 1);
    assert_eq!(layout.groups[0].1.len(), 1, "unknown command should be dropped from group");
    assert_eq!(layout.groups[0].1[0].1, "tidy-map");
    assert!(!warnings.is_empty(), "unknown group command should produce warning");
    assert!(warnings.iter().any(|w| w.contains("totally-fake-cmd")));
}

#[test]
fn backtab_keyspec_label_is_shift_tab() {
    let spec = KeySpec { code: Key::BackTab, ctrl: false, shift: false, alt: false };
    assert_eq!(spec.label(), "Shift+Tab");
}

#[test]
fn shift_tab_parses_to_backtab() {
    let spec: KeySpec = "shift+tab".parse().unwrap();
    assert_eq!(spec.code, Key::BackTab);
    assert!(!spec.shift);
}

#[test]
fn backtab_token_parses_to_backtab() {
    let spec: KeySpec = "backtab".parse().unwrap();
    assert_eq!(spec.code, Key::BackTab);
}

#[test]
fn reset_game_default_key_is_f5() {
    let km = KeyMap::default();
    let f5 = KeySpec { code: Key::F(5), ctrl: false, shift: false, alt: false };
    assert_eq!(km.lookup(&f5, Context::Global), Some("reset-game"));
}

#[test]
fn open_history_default_key_and_group() {
    let km = KeyMap::default();
    let f4 = KeySpec { code: Key::F(4), ctrl: false, shift: false, alt: false };
    assert_eq!(km.lookup(&f4, Context::Global), Some("open-history"));
    let layout = HotkeyLayout::default();
    let files = layout.groups.iter().find(|(t, _)| t == "Files").expect("Files group");
    assert!(files.1.iter().any(|c| c.1 == "open-history"), "open-history in Files group");
}

#[test]
fn reset_game_in_files_dialog_group() {
    let layout = HotkeyLayout::default();
    let files_group = layout.groups.iter().find(|(title, _)| title == "Files");
    assert!(files_group.is_some(), "Files group should exist");
    let (_, cmds) = files_group.unwrap();
    assert!(cmds.iter().any(|c| c.1 == "reset-game"), "reset-game should be in Files group");
}

#[test]
fn toggle_inventory_key_is_v() {
    let km = KeyMap::default();
    let spec = KeySpec { code: Key::Char('v'), ctrl: false, shift: false, alt: false };
    let cmd = km.lookup(&spec, Context::Global);
    assert_eq!(cmd, Some("toggle-inventory"), "v should be bound to toggle-inventory");
}

#[test]
fn toggle_inventory_in_view_group() {
    let layout = HotkeyLayout::default();
    let view_group = layout.groups.iter().find(|(title, _)| title == "View");
    assert!(view_group.is_some(), "View group should exist");
    let (_, cmds) = view_group.unwrap();
    assert!(cmds.iter().any(|c| c.1 == "toggle-inventory"), "toggle-inventory should be in View group");
}

#[test]
fn zoom_reset_bound_to_zero_key() {
    let km = KeyMap::default();
    let zero = KeySpec { code: Key::Char('0'), ctrl: false, shift: false, alt: false };
    assert_eq!(
        km.lookup(&zero, Context::MapPane),
        Some("zoom-map reset"),
        "'0' key must be bound to zoom-map reset in Map context"
    );
}

#[test]
fn zoom_reset_is_in_direct_set() {
    let layout = HotkeyLayout::default();
    assert!(
        layout.is_direct_name("zoom-map reset"),
        "zoom-map reset must be in the direct set (accessible without the hotkey dialog)"
    );
}

#[test]
fn direct_default_bindings_have_no_modifiers() {
    let km = KeyMap::default();
    let layout = HotkeyLayout::default();
    let excluded = ["save-state", "restore-state"];
    let mut violations: Vec<String> = Vec::new();
    for (spec, cmd_str, _ctx) in &km.bindings {
        let first = cmd_str.split_whitespace().next().unwrap_or("");
        if excluded.contains(&first) {
            continue;
        }
        if !layout.is_direct_name(cmd_str) {
            continue;
        }
        if spec.ctrl || spec.shift {
            violations.push(format!("{} ({}): ctrl={} shift={}", cmd_str, spec.label(), spec.ctrl, spec.shift));
        }
    }
    assert!(violations.is_empty(), "direct bindings with modifier keys found:\n  {}", violations.join("\n  "));
}

#[test]
fn hotkey_defaults_use_registry_names() {
    let reg = registry();
    let layout = HotkeyLayout::default();
    for cmd in &layout.direct {
        let name = cmd.split_whitespace().next().unwrap_or("");
        assert!(reg.iter().any(|r| r == name), "direct command not in registry: {cmd}");
    }
    for (_title, entries) in &layout.groups {
        for (_letter, cmd) in entries {
            let name = cmd.split_whitespace().next().unwrap_or("");
            assert!(reg.iter().any(|r| r == name), "group command not in registry: {cmd}");
        }
    }
}

#[test]
fn keymap_default_and_resolve_command_strings() {
    let km = KeyMap::default();
    let plus: KeySpec = "+".parse().unwrap();
    assert_eq!(km.lookup(&plus, Context::MapPane), Some("zoom-map in"));
    let left: KeySpec = "left".parse().unwrap();
    assert_eq!(km.lookup(&left, Context::MapPane), Some("pan-map -1 0"));

    let mut cfg = KeymapConfig { use_defaults: false, ..Default::default() };
    cfg.global.push(("ctrl+s".into(), "save-state".into()));
    let (km2, warns) = KeyMap::resolve(&cfg, &registry());
    let cs: KeySpec = "ctrl+s".parse().unwrap();
    assert_eq!(km2.lookup(&cs, Context::Global), Some("save-state"));
    assert!(km2.lookup(&plus, Context::MapPane).is_none(), "no defaults loaded");
    assert!(warns.is_empty());

    let mut cfg3 = KeymapConfig::default();
    cfg3.global.push(("ctrl+z".into(), "frobnicate".into()));
    let (_km3, warns3) = KeyMap::resolve(&cfg3, &registry());
    assert!(warns3.iter().any(|w| w.contains("frobnicate")));
}

#[test]
fn default_leader_letters_are_unique() {
    let layout = HotkeyLayout::default();
    let letters: Vec<char> = layout.groups.iter().flat_map(|(_, cmds)| cmds.iter().map(|(letter, _)| *letter)).collect();
    let unique: std::collections::HashSet<char> = letters.iter().copied().collect();
    assert_eq!(letters.len(), unique.len(), "leader letters must be unique");
    assert_eq!(letters.len(), 24, "expected 24 authored leader letters");
}

#[test]
fn leader_command_resolves_authored_letter() {
    let layout = HotkeyLayout::default();
    assert_eq!(layout.leader_command('t'), Some("tidy-map"));
    assert_eq!(layout.leader_command('c'), Some("cycle-layer next"));
    assert_eq!(layout.leader_command('z'), None);
}

#[test]
fn resolve_parses_letter_prefixed_config_entry() {
    let cfg = HotkeysConfig {
        prefix: None,
        direct: None,
        group: vec![HotkeyGroupConfig { title: "MyGroup".into(), commands: vec!["t tidy-map".into()] }],
    };
    let (layout, _warnings) = HotkeyLayout::resolve(&cfg, &registry());
    assert_eq!(layout.groups.len(), 1);
    assert!(layout.groups[0].1.iter().any(|(letter, cmd)| *letter == 't' && cmd == "tidy-map"));
}

#[test]
fn resolve_autoassigns_when_letter_omitted() {
    let cfg = HotkeysConfig {
        prefix: None,
        direct: None,
        group: vec![HotkeyGroupConfig { title: "MyGroup".into(), commands: vec!["tidy-map".into()] }],
    };
    let (layout, warnings) = HotkeyLayout::resolve(&cfg, &registry());
    assert!(warnings.is_empty(), "auto-assigning a free letter should not warn: {warnings:?}");
    assert_eq!(layout.groups.len(), 1);
    assert_eq!(layout.groups[0].1.len(), 1);
    assert_eq!(layout.groups[0].1[0].1, "tidy-map");
}

#[test]
fn resolve_warns_on_duplicate_letter() {
    let cfg = HotkeysConfig {
        prefix: None,
        direct: None,
        group: vec![HotkeyGroupConfig {
            title: "MyGroup".into(),
            commands: vec!["t tidy-map".into(), "t animate-tidy".into()],
        }],
    };
    let (layout, warnings) = HotkeyLayout::resolve(&cfg, &registry());
    assert!(!warnings.is_empty(), "duplicate letter should produce a warning");
    assert_eq!(layout.leader_command('t'), Some("tidy-map"), "first occurrence wins");
}

// ── Further cases ─────────────────────────────────────────────────────────────

#[test]
fn resolve_warning_texts_are_exact() {
    let mut cfg = KeymapConfig::default();
    cfg.global.push(("nope".into(), "save-state".into()));
    cfg.map.push(("ctrl+z".into(), "frobnicate now".into()));
    let (_km, warns) = KeyMap::resolve(&cfg, &registry());
    assert_eq!(
        warns,
        vec![
            "keymap: cannot parse key 'nope': unknown key token: 'nope'; skipped".to_string(),
            "keymap: unknown command 'frobnicate now'; skipped".to_string(),
        ]
    );
}

#[test]
fn an_override_replaces_only_its_own_keystroke_and_layer() {
    let mut cfg = KeymapConfig::default();
    cfg.map.push(("c".into(), "open-gallery".into()));
    let (km, warns) = KeyMap::resolve(&cfg, &registry());
    assert!(warns.is_empty());
    let c = KeySpec { code: Key::Char('c'), ctrl: false, shift: false, alt: false };
    assert_eq!(km.lookup(&c, Context::MapPane), Some("open-gallery"));
    assert_eq!(km.lookup(&c, Context::Global), None);
    let n = KeySpec { code: Key::Char('n'), ctrl: false, shift: false, alt: false };
    assert_eq!(km.lookup(&n, Context::MapPane), Some("select-room next"));
    assert_eq!(km.bindings.len(), KeyMap::default().bindings.len());
}

#[test]
fn anim_layer_does_not_fall_through_and_lookup_any_searches_all() {
    let km = KeyMap::default();
    let ctrl_s = KeySpec { code: Key::Char('s'), ctrl: true, shift: false, alt: false };
    assert_eq!(km.lookup(&ctrl_s, Context::Anim), None);
    assert_eq!(km.lookup_any(&ctrl_s), Some("save-state"));
    let space = KeySpec { code: Key::Char(' '), ctrl: false, shift: false, alt: false };
    assert_eq!(km.lookup_any(&space), Some("anim-play"));
    let h = KeySpec { code: Key::Char('h'), ctrl: false, shift: false, alt: false };
    assert_eq!(km.lookup_any(&h), Some("pan-map -1 0"));
}

#[test]
fn primary_key_matches_the_first_word() {
    let km = KeyMap::default();
    assert_eq!(km.primary_key("zoom-map"), Some(KeySpec { code: Key::Char('+'), ctrl: false, shift: false, alt: false }));
    assert_eq!(km.primary_key("save-state"), Some(KeySpec { code: Key::Char('s'), ctrl: true, shift: false, alt: false }));
    assert_eq!(km.primary_key("zoom"), None);
    assert_eq!(km.primary_key(""), None);
}

#[test]
fn for_context_lists_the_layer_in_order() {
    let km = KeyMap::default();
    let anim = km.for_context(Context::Anim);
    assert_eq!(anim.len(), 12);
    assert_eq!(anim[0].1, "pan-map -1 0");
    assert_eq!(anim[11].1, "anim-exit");
    assert_eq!(km.for_context(Context::Global).len(), 23);
    assert_eq!(km.for_context(Context::MapPane).len(), 28);
}

#[test]
fn a_bad_prefix_keeps_ctrl_k_with_a_warning() {
    let cfg = HotkeysConfig { prefix: Some("ctrl+nope".into()), direct: None, group: vec![] };
    let (layout, warnings) = HotkeyLayout::resolve(&cfg, &registry());
    assert_eq!(layout.prefix, KeySpec { code: Key::Char('k'), ctrl: true, shift: false, alt: false });
    assert_eq!(warnings, vec!["hotkeys: prefix 'ctrl+nope': unknown key token: 'nope'; using default".to_string()]);
    let cfg2 = HotkeysConfig { prefix: Some("alt+p".into()), direct: None, group: vec![] };
    let (layout2, w2) = HotkeyLayout::resolve(&cfg2, &registry());
    assert_eq!(layout2.prefix, KeySpec { code: Key::Char('p'), ctrl: false, shift: false, alt: true });
    assert!(w2.is_empty());
    assert_eq!(layout2.groups.len(), 5, "no configured groups keeps the built-in ones");
}

#[test]
fn group_warnings_name_the_group_and_letters_are_shared_across_groups() {
    let cfg = HotkeysConfig {
        prefix: None,
        direct: None,
        group: vec![
            HotkeyGroupConfig { title: "A".into(), commands: vec!["a tidy-map".into(), "bogus".into(), "   ".into()] },
            HotkeyGroupConfig { title: "B".into(), commands: vec!["a center-map".into(), "open-gallery".into()] },
        ],
    };
    let (layout, warnings) = HotkeyLayout::resolve(&cfg, &registry());
    assert_eq!(
        warnings,
        vec![
            "hotkeys: group 'A': unknown command 'bogus'; dropped".to_string(),
            "hotkeys: group 'B': letter 'a' already used; dropped 'center-map'".to_string(),
        ]
    );
    assert_eq!(layout.groups[1].1, vec![('b', "open-gallery".to_string())]);
}

#[test]
fn labels_keep_a_plain_letter_and_capitalise_after_a_modifier() {
    let k = |code| KeySpec { code, ctrl: false, shift: false, alt: false };
    assert_eq!(k(Key::Char('h')).label(), "h");
    assert_eq!(k(Key::Char('H')).label(), "H");
    assert_eq!(KeySpec { code: Key::Left, ctrl: false, shift: true, alt: false }.label(), "Shift+←");
    assert_eq!(k(Key::F(1)).label(), "F1");
    assert_eq!(k(Key::Char(' ')).label(), "Space");
    assert_eq!(KeySpec { code: Key::Char('s'), ctrl: true, shift: false, alt: false }.label(), "Ctrl+S");
    assert_eq!(KeySpec { code: Key::Char('x'), ctrl: false, shift: false, alt: true }.label(), "Alt+X");
}

#[test]
fn modifiers_parse_in_any_order() {
    let a: KeySpec = "ctrl+shift+s".parse().unwrap();
    let b: KeySpec = "shift+ctrl+s".parse().unwrap();
    let c: KeySpec = "Alt + Ctrl + Shift + X".parse().unwrap();
    let d: KeySpec = "shift+alt+ctrl+x".parse().unwrap();
    assert_eq!(a, b);
    assert_eq!(c, d);
    assert!(c.ctrl && c.shift && c.alt);
}

#[test]
fn resolved_direct_commands_are_distinct() {
    let registry: Vec<String> = ["quit", "center-map", "zoom-map"].iter().map(|s| s.to_string()).collect();
    let cfg = HotkeysConfig {
        prefix: None,
        direct: Some(vec!["quit".into(), "center-map".into(), "quit".into(), "zoom-map in".into(), "bogus".into()]),
        group: vec![],
    };
    let (layout, warnings) = HotkeyLayout::resolve(&cfg, &registry);
    assert_eq!(layout.direct, vec!["quit", "center-map", "zoom-map in"]);
    assert_eq!(warnings.len(), 1);
    let d = HotkeyLayout::default().direct;
    for i in 0..d.len() {
        for j in i + 1..d.len() {
            assert_ne!(d[i], d[j]);
        }
    }
}
