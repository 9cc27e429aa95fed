use babelmap::dialogs::{
    aux_dialog_key_focused, cycle_focus, hint_key_routes, launch_dialog_key, launch_dialog_key_focused,
    quit_dialog_key, quit_dialog_key_focused, reset_dialog_key, reset_dialog_key_focused, save_name_dialog_key,
    AuxDialogAction, HintKeyKind, LaunchDialogAction, QuitDialogAction, ResetDialogAction, SaveNameAction,
    SaveNameDialog,
};
use babelmap::hints::{anim_hints, game_hints, hint_bar, hint_label, map_hints};
use babelmap::keymap::{Context, HotkeyLayout, KeyMap};
use babelmap::keys::Key;
use babelmap::persist::{combined_saves, SaveInfo};
use babelmap::turns::{
    game_echoes_command, is_slash, loading_line, map_pane_dims, next_input_deadline, scroll_for_match,
    should_exit_on_turn, should_prompt_save_on_quit,
};

fn sn_dialog() -> SaveNameDialog {
    SaveNameDialog::new("2026-07-13 1432".to_string(), false)
}

#[test]
fn sn_placeholder_adopts_default_on_tab_and_right_without_advancing_focus() {
    for code in [Key::Tab, Key::Right] {
        let mut d = sn_dialog();
        let (act, focus) = save_name_dialog_key(code, &mut d, 0);
        assert!(matches!(act, SaveNameAction::Nothing));
        assert_eq!(focus, 0, "adopting the default must not advance focus");
        assert!(d.active, "field becomes active");
        assert_eq!(d.field.value, "2026-07-13 1432", "value keeps the default");
        assert_eq!(d.field.cursor, d.field.char_len(), "caret at end");
    }
}

#[test]
fn sn_typing_on_placeholder_starts_fresh() {
    let mut d = sn_dialog();
    let (act, focus) = save_name_dialog_key(Key::Char('h'), &mut d, 0);
    assert!(matches!(act, SaveNameAction::Nothing));
    assert_eq!(focus, 0);
    assert!(d.active);
    assert_eq!(d.field.value, "h");
    assert_eq!(d.field.cursor, 1);
    save_name_dialog_key(Key::Char('i'), &mut d, 0);
    assert_eq!(d.field.value, "hi");
}

#[test]
fn sn_enter_on_placeholder_saves_the_default() {
    let mut d = sn_dialog();
    let (act, _) = save_name_dialog_key(Key::Enter, &mut d, 0);
    assert!(matches!(act, SaveNameAction::Save));
    assert_eq!(d.field.value, "2026-07-13 1432", "the default is what gets saved");
}

#[test]
fn sn_enter_active_empty_reverts_to_placeholder_and_nonempty_saves() {
    let mut d = sn_dialog();
    save_name_dialog_key(Key::Char('x'), &mut d, 0);
    save_name_dialog_key(Key::Backspace, &mut d, 0);
    assert!(d.field.value.is_empty() && d.active);
    let (act, _) = save_name_dialog_key(Key::Enter, &mut d, 0);
    assert!(matches!(act, SaveNameAction::Nothing), "empty Enter does not save");
    assert!(!d.active, "reverts to placeholder");
    save_name_dialog_key(Key::Char('a'), &mut d, 0);
    let (act2, _) = save_name_dialog_key(Key::Enter, &mut d, 0);
    assert!(matches!(act2, SaveNameAction::Save));
    assert_eq!(d.field.value, "a");
}

#[test]
fn sn_backspace_and_home_adopt_default_for_editing() {
    let mut d = sn_dialog();
    let (_, _) = save_name_dialog_key(Key::Backspace, &mut d, 0);
    assert!(d.active, "backspace on placeholder adopts");
    assert_eq!(d.field.value, "2026-07-13 143", "then deletes the last char");

    let mut d2 = sn_dialog();
    save_name_dialog_key(Key::Home, &mut d2, 0);
    assert!(d2.active);
    assert_eq!(d2.field.cursor, 0, "Home adopts then moves to start");
}

#[test]
fn sn_field_focus_tab_and_shifttab_move_to_buttons() {
    let mut d = sn_dialog();
    d.active = true;
    let (act, focus) = save_name_dialog_key(Key::Tab, &mut d, 0);
    assert!(matches!(act, SaveNameAction::Nothing));
    assert_eq!(focus, 1);
    let (_, focus2) = save_name_dialog_key(Key::BackTab, &mut d, 0);
    assert_eq!(focus2, 2, "Shift-Tab from the field reverse-wraps to Cancel");
}

#[test]
fn sn_active_right_moves_cursor_not_focus() {
    let mut d = sn_dialog();
    d.active = true;
    d.field.home();
    let (act, focus) = save_name_dialog_key(Key::Right, &mut d, 0);
    assert!(matches!(act, SaveNameAction::Nothing));
    assert_eq!(focus, 0, "Right in edit mode stays on the field");
    assert_eq!(d.field.cursor, 1);
}

#[test]
fn sn_esc_cancels_from_field_or_button() {
    let mut d = sn_dialog();
    assert!(matches!(save_name_dialog_key(Key::Esc, &mut d, 0).0, SaveNameAction::Cancel));
    assert!(matches!(save_name_dialog_key(Key::Esc, &mut d, 1).0, SaveNameAction::Cancel));
}

#[test]
fn sn_buttons_activate_and_cycle() {
    let mut d = sn_dialog();
    assert!(matches!(save_name_dialog_key(Key::Enter, &mut d, 1).0, SaveNameAction::Save));
    assert!(matches!(save_name_dialog_key(Key::Char(' '), &mut d, 1).0, SaveNameAction::Save));
    assert!(matches!(save_name_dialog_key(Key::Enter, &mut d, 2).0, SaveNameAction::Cancel));
    assert_eq!(save_name_dialog_key(Key::Tab, &mut d, 1).1, 2);
    assert_eq!(save_name_dialog_key(Key::Tab, &mut d, 2).1, 0);
    assert_eq!(save_name_dialog_key(Key::BackTab, &mut d, 1).1, 0);
}

#[test]
fn combined_saves_sorts_newest_first_untimestamped_last() {
    let mk = |name: &str, ts: &str| SaveInfo {
        path: std::path::PathBuf::from(format!("/tmp/{name}.qzl")),
        name: name.to_string(),
        turns: 0,
        saved_at: ts.to_string(),
        is_default: false,
    };
    let v = vec![
        mk("old", "2026-06-01T10:00:00Z"),
        mk("legacy", ""),
        mk("new", "2026-07-09T12:00:00Z"),
        mk("mid", "2026-06-30T08:00:00Z"),
    ];
    let v = combined_saves(v, Vec::new());
    let order: Vec<&str> = v.iter().map(|s| s.name.as_str()).collect();
    assert_eq!(order, vec!["new", "mid", "old", "legacy"], "newest first; untimestamped/legacy saves sort to the bottom");
}

#[test]
fn timed_input_deadline_arms_once_and_does_not_recede() {
    let t0: u64 = 1_000_000;
    let iv: u64 = 3000;

    let d1 = next_input_deadline(None, true, iv, t0);
    assert_eq!(d1, Some(t0 + iv));

    let d2 = next_input_deadline(d1, true, iv, t0 + 50);
    assert_eq!(d2, d1, "armed deadline must not recede on later iterations");
    let d3 = next_input_deadline(d2, true, iv, t0 + 2999);
    assert_eq!(d3, d1, "still the original deadline right up until it elapses");

    assert_eq!(next_input_deadline(d3, false, iv, t0 + 2999), None);
    let t_fire = t0 + 3000;
    assert_eq!(next_input_deadline(None, true, iv, t_fire), Some(t_fire + iv));
}

#[test]
fn glulx_glk_timer_arms_once_and_refires_each_interval() {
    let t0: u64 = 1_000_000;
    let iv: u64 = 100;

    let d1 = next_input_deadline(None, true, iv, t0);
    assert_eq!(d1, Some(t0 + iv), "armed once at t0 + interval");
    let d2 = next_input_deadline(d1, true, iv, t0 + 30);
    assert_eq!(d2, d1, "holds steady across iterations until it fires");

    let t_fire = t0 + iv;
    assert_eq!(next_input_deadline(None, true, iv, t_fire), Some(t_fire + iv));

    assert_eq!(next_input_deadline(d2, false, iv, t0 + 30), None);
}

#[test]
fn game_echoes_command_detects_self_echo() {
    assert!(game_echoes_command("yes\n\nGood, you're conscious.", "yes"));
    assert!(game_echoes_command("YES\n\n...", "yes"), "case-insensitive");
    assert!(game_echoes_command("examine me\n\nYou see nothing special.", "examine me"));
    assert!(game_echoes_command("  look\nA room.", "look"), "leading whitespace ok");
    assert!(!game_echoes_command("You can't go that way.\n>", "north"));
    assert!(!game_echoes_command("", "look"), "empty output");
    assert!(!game_echoes_command("anything", ""), "empty command never matches");
    assert!(!game_echoes_command("gospel music plays.", "go"));
}

#[test]
fn scroll_for_match_brings_row_into_view() {
    assert_eq!(scroll_for_match(0, 100, 10), 90);
    assert_eq!(scroll_for_match(99, 100, 10), 0);
    assert_eq!(scroll_for_match(50, 100, 10), 40);
    assert_eq!(scroll_for_match(0, 5, 10), 0);
}

#[test]
fn is_slash_uses_prefix() {
    assert!(is_slash("/save", '/'));
    assert!(!is_slash("look", '/'));
    assert!(is_slash(";help", ';'));
    assert!(!is_slash("/help", ';'));
}

#[test]
fn reset_dialog_key_mapping() {
    assert!(matches!(reset_dialog_key(Key::Esc), ResetDialogAction::Cancel));
    assert!(matches!(reset_dialog_key(Key::Char('c')), ResetDialogAction::Cancel));
    assert!(matches!(reset_dialog_key(Key::Enter), ResetDialogAction::Confirm));
    assert!(matches!(reset_dialog_key(Key::Char('r')), ResetDialogAction::Confirm));
    assert!(matches!(reset_dialog_key(Key::Char(' ')), ResetDialogAction::ToggleClearMap));
}

#[test]
fn prompt_save_on_quit_all_conditions_required() {
    assert!(!should_prompt_save_on_quit(false, true, false), "no unsaved progress => no prompt");
    assert!(should_prompt_save_on_quit(false, true, true), "unsaved progress => prompt");
    assert!(!should_prompt_save_on_quit(false, true, false), "after a save/load => no prompt");
    assert!(!should_prompt_save_on_quit(true, true, true), "auto_save=true => no prompt");
    assert!(!should_prompt_save_on_quit(false, false, true), "prompt_save_on_quit=false => no prompt");
}

#[test]
fn quit_dialog_key_mapping() {
    assert!(matches!(quit_dialog_key(Key::Char('s')), QuitDialogAction::Save));
    assert!(matches!(quit_dialog_key(Key::Enter), QuitDialogAction::Save));
    assert!(matches!(quit_dialog_key(Key::Char('q')), QuitDialogAction::Quit));
    assert!(matches!(quit_dialog_key(Key::Esc), QuitDialogAction::Cancel));
    assert!(matches!(quit_dialog_key(Key::Char('c')), QuitDialogAction::Cancel));
    assert!(matches!(quit_dialog_key(Key::Char('x')), QuitDialogAction::Nothing));
    assert!(matches!(quit_dialog_key(Key::Left), QuitDialogAction::Nothing));
}

#[test]
fn launch_dialog_key_mapping() {
    assert!(matches!(launch_dialog_key(Key::Char('r')), LaunchDialogAction::Resume));
    assert!(matches!(launch_dialog_key(Key::Enter), LaunchDialogAction::Resume));
    assert!(matches!(launch_dialog_key(Key::Char('n')), LaunchDialogAction::NewGame));
    assert!(matches!(launch_dialog_key(Key::Esc), LaunchDialogAction::NewGame));
    assert!(matches!(launch_dialog_key(Key::Char('x')), LaunchDialogAction::Nothing));
    assert!(matches!(launch_dialog_key(Key::Left), LaunchDialogAction::Nothing));
}

#[test]
fn hint_panel_keys_close_on_esc_else_route() {
    assert!(matches!(hint_key_routes(Key::Esc), HintKeyKind::Close));
    assert!(matches!(hint_key_routes(Key::Char('a')), HintKeyKind::ToSession));
}

#[test]
fn hints_enter_submits_input_not_close() {
    let routed = hint_key_routes(Key::Enter);
    assert!(
        matches!(routed, HintKeyKind::ToSession),
        "Enter must be routed to the hint session input (ToSession), not Close"
    );
}

#[test]
fn reset_dialog_tab_then_enter_fires_focused() {
    let mut focus = 0usize;
    assert!(matches!(reset_dialog_key_focused(Key::Char(' '), focus), ResetDialogAction::ToggleClearMap));
    focus = cycle_focus(focus, 4, 1);
    assert_eq!(focus, 1);
    assert!(matches!(reset_dialog_key_focused(Key::Char(' '), focus), ResetDialogAction::ToggleDeleteData));
    assert!(matches!(reset_dialog_key_focused(Key::Enter, focus), ResetDialogAction::Confirm));
    focus = cycle_focus(focus, 4, 1);
    focus = cycle_focus(focus, 4, 1);
    assert_eq!(focus, 3);
    assert!(matches!(reset_dialog_key_focused(Key::Enter, focus), ResetDialogAction::Cancel));
    assert!(matches!(reset_dialog_key_focused(Key::Enter, 2), ResetDialogAction::Confirm));
}

#[test]
fn aux_dialog_key_mapping() {
    assert!(matches!(aux_dialog_key_focused(Key::Esc, 0), AuxDialogAction::Archive));
    assert!(matches!(aux_dialog_key_focused(Key::Esc, 1), AuxDialogAction::Archive));
    assert!(matches!(aux_dialog_key_focused(Key::Enter, 0), AuxDialogAction::Archive));
    assert!(matches!(aux_dialog_key_focused(Key::Enter, 1), AuxDialogAction::Global));
    assert!(matches!(aux_dialog_key_focused(Key::Char('x'), 0), AuxDialogAction::Nothing));
}

#[test]
fn aux_dialog_tab_then_enter_fires_global() {
    let mut focus = 0usize;
    focus = cycle_focus(focus, 2, 1);
    assert_eq!(focus, 1);
    let act = aux_dialog_key_focused(Key::Enter, focus);
    assert!(matches!(act, AuxDialogAction::Global));
}

#[test]
fn quit_dialog_tab_then_enter_fires_focused() {
    let mut focus = 0usize;
    focus = cycle_focus(focus, 3, 1);
    assert_eq!(focus, 1);
    let act = quit_dialog_key_focused(Key::Enter, focus);
    assert!(matches!(act, QuitDialogAction::Quit));
}

#[test]
fn launch_dialog_tab_then_enter_fires_focused() {
    let mut focus = 0usize;
    focus = cycle_focus(focus, 2, 1);
    assert_eq!(focus, 1);
    let act = launch_dialog_key_focused(Key::Enter, focus);
    assert!(matches!(act, LaunchDialogAction::NewGame));
}

#[test]
fn loading_line_reports_name_size_and_frame() {
    let line = loading_line("CounterfeitMonkey-11.gblorb", 11_855_360, '/');
    assert!(line.contains("CounterfeitMonkey-11.gblorb"), "names the story");
    assert!(line.contains("11.3 MB"), "shows size in MB, got: {line}");
    assert!(line.ends_with('/'), "ends with the spinner frame glyph");
}

#[test]
fn should_exit_on_turn_gates_on_clean_quit_only() {
    assert!(should_exit_on_turn(true, false, false));
    assert!(!should_exit_on_turn(true, true, false));
    assert!(!should_exit_on_turn(true, false, true));
    assert!(!should_exit_on_turn(false, false, false));
}

#[test]
fn hint_line_map_contains_zoom_with_plus_key() {
    let km = KeyMap::default();
    let layout = HotkeyLayout::default();
    let line = hint_bar(&km, &layout, Context::MapPane, &map_hints(), 200);
    assert!(line.contains("+: zoom"), "expected '+: zoom' in '{line}'");
}

#[test]
fn map_hint_bar_excludes_dialog_only_commands() {
    let km = KeyMap::default();
    let layout = HotkeyLayout::default();
    let line = hint_bar(&km, &layout, Context::MapPane, &map_hints(), 200);
    assert!(!line.contains("gallery"), "must not advertise gallery (dialog-only): {line}");
    assert!(!line.contains("inspector"), "must not advertise inspector (dialog-only): {line}");
    assert!(!line.contains("layout"), "must not advertise cycle-layout (dialog-only): {line}");
    assert!(line.contains("Tab: toggle focus"), "focus toggle present: {line}");
    assert!(line.contains("+: zoom"), "zoom present: {line}");
}

#[test]
fn hint_line_game_contains_save_state() {
    let km = KeyMap::default();
    let layout = HotkeyLayout::default();
    let line = hint_bar(&km, &layout, Context::Global, &game_hints(), 200);
    assert!(line.contains("Ctrl+S: save state"), "expected 'Ctrl+S: save state' in '{line}'");
    assert!(!line.contains("cycle"), "Game hint bar must not contain 'cycle': '{line}'");
}

#[test]
fn leader_hint_advertises_ctrl_k_menu() {
    let layout = HotkeyLayout::default();
    let leader_hint = format!("{}: menu", layout.prefix.label());
    assert_eq!(leader_hint, "Ctrl+K: menu");
}

#[test]
fn hint_bar_never_contains_tidy() {
    let km = KeyMap::default();
    let layout = HotkeyLayout::default();
    let map_line = hint_bar(&km, &layout, Context::MapPane, &map_hints(), 200);
    let game_line = hint_bar(&km, &layout, Context::Global, &game_hints(), 200);
    assert!(!map_line.to_lowercase().contains("tidy") && !map_line.to_lowercase().contains("retidy"));
    assert!(!game_line.to_lowercase().contains("tidy") && !game_line.to_lowercase().contains("retidy"));
}

#[test]
fn hint_bar_no_dead_keys_all_entries_resolve_back() {
    let km = KeyMap::default();
    let layout = HotkeyLayout::default();
    for (ctx, hints) in [(Context::MapPane, map_hints()), (Context::Global, game_hints()), (Context::Anim, anim_hints())] {
        for &cmd in &hints {
            if !layout.is_direct_name(cmd) {
                continue;
            }
            let name = cmd.split_whitespace().next().unwrap_or("");
            if let Some(k) = km.primary_key(name) {
                let resolved = km.lookup(&k, ctx);
                if resolved == Some(cmd) {
                    let entry = format!("{}: {}", k.label(), hint_label(cmd));
                    let bar = hint_bar(&km, &layout, ctx, &hints, 200);
                    assert!(bar.contains(&entry), "bar for {ctx:?} should contain '{entry}'; got: '{bar}'");
                }
            }
        }
    }
}

#[test]
fn hint_bar_drops_non_direct_command() {
    let layout = HotkeyLayout {
        prefix: "ctrl+k".parse().unwrap(),
        direct: vec!["toggle-focus".into(), "center-map".into(), "select-room next".into()],
        groups: vec![],
    };
    let km = KeyMap::default();
    let bar = hint_bar(&km, &layout, Context::MapPane, &map_hints(), 200);
    assert!(!bar.contains("zoom"), "zoom-map in should be absent when not direct; got: '{bar}'");
    assert!(bar.contains("focus"), "toggle-focus should still appear when direct; got: '{bar}'");
}

#[test]
fn hint_bar_truncates_at_width() {
    let km = KeyMap::default();
    let layout = HotkeyLayout::default();
    let bar = hint_bar(&km, &layout, Context::MapPane, &map_hints(), 10);
    let char_count = bar.chars().count();
    assert!(char_count <= 10, "bar must not exceed width=10; got {char_count} chars: '{bar}'");
    assert!(bar.ends_with('…'), "truncated bar must end with ellipsis; got: '{bar}'");
}

#[test]
fn hint_bar_no_truncation_when_wide_enough() {
    let km = KeyMap::default();
    let layout = HotkeyLayout::default();
    let bar = hint_bar(&km, &layout, Context::MapPane, &map_hints(), 1000);
    assert!(!bar.ends_with('…'), "bar should not be truncated at width=1000; got: '{bar}'");
}

#[test]
fn hint_bar_shows_short_registry_labels() {
    let km = KeyMap::default();
    let layout = HotkeyLayout::default();
    let line = hint_bar(&km, &layout, Context::MapPane, &map_hints(), 200);
    assert!(line.contains("center map"), "hint bar should show the short label 'center map', got: {line}");
    assert!(!line.contains("re-center the map"), "hint bar must not show the long description");
}

// ── Further cases ─────────────────────────────────────────────────────────────

#[test]
fn the_map_hint_bar_reads_exactly() {
    let km = KeyMap::default();
    let layout = HotkeyLayout::default();
    assert_eq!(
        hint_bar(&km, &layout, Context::MapPane, &map_hints(), 200),
        "Tab: toggle focus | ←: pan map  1 0 | +: zoom map in | n: select room next | c: center map"
    );
    assert_eq!(hint_bar(&km, &layout, Context::MapPane, &map_hints(), 0), "");
    assert_eq!(hint_bar(&km, &layout, Context::MapPane, &map_hints(), 5), "Tab:…");
}

#[test]
fn cycle_focus_wraps_both_ways() {
    assert_eq!(cycle_focus(0, 3, -1), 2);
    assert_eq!(cycle_focus(2, 3, 1), 0);
    assert_eq!(cycle_focus(1, 2, 1), 0);
    assert_eq!(cycle_focus(7, 3, 0), 1);
    assert_eq!(cycle_focus(0, 4, -5), 3);
}

#[test]
fn loading_line_rounds_to_the_nearest_tenth() {
    assert_eq!(loading_line("a.z5", 0, '|'), "babelmap: loading a.z5 (0.0 MB) |");
    assert_eq!(loading_line("b.z5", 1_048_576, '-'), "babelmap: loading b.z5 (1.0 MB) -");
    assert_eq!(loading_line("c.z5", 104_858, '\\'), "babelmap: loading c.z5 (0.1 MB) \\");
    assert_eq!(loading_line("d.z5", 104_857, '\\'), "babelmap: loading d.z5 (0.1 MB) \\");
    assert_eq!(loading_line("e.z5", 52_428, '\\'), "babelmap: loading e.z5 (0.0 MB) \\");
}

#[test]
fn map_pane_dims_default_a_zero_dimension() {
    assert_eq!(map_pane_dims(0, 0), (80, 24));
    assert_eq!(map_pane_dims(120, 0), (120, 24));
    assert_eq!(map_pane_dims(0, 40), (80, 40));
    assert_eq!(map_pane_dims(33, 12), (33, 12));
}

#[test]
fn scroll_for_match_truncates_to_sixteen_bits() {
    assert_eq!(scroll_for_match(0, 70_000, 0), (70_000u32 % 65_536) as u16);
}
