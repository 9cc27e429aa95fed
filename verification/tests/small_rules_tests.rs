use babelmap::dialogs::TextField;
use babelmap::keymap::HotkeyLayout;
use babelmap::keys::{char_mode_forwards, Key, KeyPress, KeySpec, MOD_ALT, MOD_CONTROL, MOD_SHIFT, MOD_SUPER};
use babelmap::layout::Rect;
use babelmap::map_dump::{dir_str, mask_glyph, Direction};
use babelmap::overlays::{text_entry_overlay_mouse, OverlayAct, OverlayOutcome, TextEntryDialogHits};
use babelmap::turns::{
    abbreviate_home, aux_step, command_echo, echo_line, exit_auto_save_wanted, history_capture_wanted,
    is_inventory_command, map_changed, quit_dialog_save_wanted, AuxStep, AuxStorage, CommandEcho,
};

#[test]
fn dir_str_labels_every_direction() {
    let cases = [
        (Direction::N, "N"),
        (Direction::S, "S"),
        (Direction::E, "E"),
        (Direction::W, "W"),
        (Direction::NE, "NE"),
        (Direction::NW, "NW"),
        (Direction::SE, "SE"),
        (Direction::SW, "SW"),
        (Direction::Up, "U"),
        (Direction::Down, "D"),
        (Direction::In, "IN"),
        (Direction::Out, "OUT"),
        (Direction::Unknown, "?"),
    ];
    for (d, want) in cases {
        assert_eq!(dir_str(d), want);
    }
}

#[test]
fn mask_glyph_joins_neighbours() {
    assert_eq!(mask_glyph(0), '·');
    assert_eq!(mask_glyph(1), '│');
    assert_eq!(mask_glyph(4), '│');
    assert_eq!(mask_glyph(5), '│');
    assert_eq!(mask_glyph(2), '─');
    assert_eq!(mask_glyph(8), '─');
    assert_eq!(mask_glyph(10), '─');
    assert_eq!(mask_glyph(3), '└');
    assert_eq!(mask_glyph(6), '┌');
    assert_eq!(mask_glyph(12), '┐');
    assert_eq!(mask_glyph(9), '┘');
    assert_eq!(mask_glyph(7), '├');
    assert_eq!(mask_glyph(14), '┬');
    assert_eq!(mask_glyph(13), '┤');
    assert_eq!(mask_glyph(11), '┴');
    assert_eq!(mask_glyph(15), '┼');
    assert_eq!(mask_glyph(16), '·');
    assert_eq!(mask_glyph(255), '·');
}

#[test]
fn exit_auto_save_only_without_pending_saveload() {
    assert!(exit_auto_save_wanted(true, false));
    assert!(!exit_auto_save_wanted(true, true));
    assert!(!exit_auto_save_wanted(false, false));
    assert!(!exit_auto_save_wanted(false, true));
}

#[test]
fn quit_dialog_save_skipped_while_saveload_pending() {
    assert!(quit_dialog_save_wanted(false));
    assert!(!quit_dialog_save_wanted(true));
}

#[test]
fn key_spec_from_key_event_reads_modifier_bits() {
    let s = KeySpec::from_key_event(KeyPress::new(Key::Char('x'), MOD_CONTROL | MOD_ALT | MOD_SUPER));
    assert_eq!(s, KeySpec { code: Key::Char('x'), ctrl: true, shift: false, alt: true });
    let s = KeySpec::from_key_event(KeyPress::new(Key::Enter, MOD_SHIFT));
    assert_eq!(s, KeySpec { code: Key::Enter, ctrl: false, shift: true, alt: false });
    let s = KeySpec::from_key_event(KeyPress::new(Key::Esc, 0));
    assert_eq!(s, KeySpec { code: Key::Esc, ctrl: false, shift: false, alt: false });
}

fn text_entry_hits() -> TextEntryDialogHits {
    TextEntryDialogHits {
        close: Some(Rect::new(50, 2, 3, 1)),
        ok: Some(Rect::new(10, 8, 6, 1)),
        cancel: Some(Rect::new(20, 8, 8, 1)),
        field: Some(Rect::new(5, 5, 30, 1)),
    }
}

#[test]
fn text_entry_mouse_routes_clicks() {
    let hits = text_entry_hits();
    let mut field = TextField::new("north".to_string());
    field.home();

    let (out, focus) = text_entry_overlay_mouse(Some((51, 2)), Some(hits), &mut field, 2);
    assert_eq!(out, OverlayOutcome::Act(OverlayAct::TextEntryCancel));
    assert_eq!(focus, 2);
    let (out, _) = text_entry_overlay_mouse(Some((22, 8)), Some(hits), &mut field, 2);
    assert_eq!(out, OverlayOutcome::Act(OverlayAct::TextEntryCancel));
    let (out, focus) = text_entry_overlay_mouse(Some((12, 8)), Some(hits), &mut field, 1);
    assert_eq!(out, OverlayOutcome::Act(OverlayAct::TextEntrySubmit));
    assert_eq!(focus, 1);
    assert_eq!(field.cursor, 0);

    // A click in the field focuses it and puts the caret at its end.
    let (out, focus) = text_entry_overlay_mouse(Some((7, 5)), Some(hits), &mut field, 2);
    assert_eq!(out, OverlayOutcome::Consumed);
    assert_eq!(focus, 0);
    assert_eq!(field.cursor, 5);
    assert_eq!(field.value, "north");

    // Elsewhere, or with no layout, the click is swallowed and nothing changes.
    field.home();
    let (out, focus) = text_entry_overlay_mouse(Some((70, 20)), Some(hits), &mut field, 1);
    assert_eq!((out, focus), (OverlayOutcome::Consumed, 1));
    assert_eq!(field.cursor, 0);
    let (out, focus) = text_entry_overlay_mouse(Some((7, 5)), None, &mut field, 1);
    assert_eq!((out, focus), (OverlayOutcome::Consumed, 1));
    assert_eq!(field.cursor, 0);
    let (out, focus) = text_entry_overlay_mouse(None, Some(hits), &mut field, 1);
    assert_eq!((out, focus), (OverlayOutcome::Consumed, 1));
}

#[test]
fn abbreviate_home_replaces_home_prefix() {
    assert_eq!(abbreviate_home("/home/ann/games/zork.z5", Some("/home/ann")), "~/games/zork.z5");
    assert_eq!(abbreviate_home("/home/ann", Some("/home/ann")), "~");
    assert_eq!(abbreviate_home("/opt/games/zork.z5", Some("/home/ann")), "/opt/games/zork.z5");
    assert_eq!(abbreviate_home("/home/ann/x", Some("")), "/home/ann/x");
    assert_eq!(abbreviate_home("/home/ann/x", None), "/home/ann/x");
    assert_eq!(abbreviate_home("/ho", Some("/home/ann")), "/ho");
}

#[test]
fn command_echo_placement() {
    // The game's own echo wins; it is folded onto an inline prompt that is the last line.
    assert_eq!(command_echo(true, false, true), CommandEcho::ByGame { merge: true });
    assert_eq!(command_echo(true, true, true), CommandEcho::ByGame { merge: false });
    assert_eq!(command_echo(true, false, false), CommandEcho::ByGame { merge: false });
    // Command bar, or a last line that is not the prompt: a line of its own.
    assert_eq!(command_echo(false, true, true), CommandEcho::OwnLine);
    assert_eq!(command_echo(false, false, false), CommandEcho::OwnLine);
    // Inline prompt last: the command goes after it.
    assert_eq!(command_echo(false, false, true), CommandEcho::AfterPrompt);
    assert_eq!(echo_line("look"), "> look");
    assert_eq!(echo_line(""), "> ");
}

#[test]
fn post_turn_bookkeeping_decisions() {
    assert!(history_capture_wanted(true, false));
    assert!(!history_capture_wanted(true, true));
    assert!(!history_capture_wanted(false, false));
    assert!(!map_changed(3, 3, 5, 5));
    assert!(map_changed(3, 4, 5, 5));
    assert!(map_changed(3, 3, 5, 6));
    assert!(is_inventory_command("i"));
    assert!(is_inventory_command("  INV "));
    assert!(is_inventory_command("Inventory"));
    assert!(!is_inventory_command("inventory list"));
    assert!(!is_inventory_command("look"));
    assert!(!is_inventory_command(""));
}

#[test]
fn aux_table_step_after_turn() {
    assert_eq!(aux_step(false, AuxStorage::Global), AuxStep::Nothing);
    assert_eq!(aux_step(false, AuxStorage::Ask), AuxStep::Nothing);
    assert_eq!(aux_step(true, AuxStorage::Global), AuxStep::WriteFile);
    assert_eq!(aux_step(true, AuxStorage::Archive), AuxStep::MarkClean);
    assert_eq!(aux_step(true, AuxStorage::Ask), AuxStep::AskPlayer);
}

#[test]
fn char_mode_gate_predicate() {
    let prefix = HotkeyLayout::default().prefix;
    let mut char_mode = false;
    let mut overlay_open = false;

    // A plain 'y' key: not the prefix, no combo.
    let y_key = KeyPress::new(Key::Char('y'), 0);
    let spec = KeySpec::from_key_event(y_key);
    assert!(spec != prefix, "'y' must not be the default prefix (Ctrl+K)");
    // char_mode false → the key is not forwarded.
    assert!(!char_mode_forwards(char_mode, overlay_open, y_key, prefix));
    // Simulate char_mode = true (as the run loop sets it from pending_input).
    char_mode = true;
    assert!(char_mode_forwards(char_mode, overlay_open, y_key, prefix), "'y' goes to the game with no overlays");

    // Ctrl+Q (a quit binding) must NOT be forwarded to the VM.
    let ctrlq = KeyPress::new(Key::Char('q'), MOD_CONTROL);
    assert!(!char_mode_forwards(char_mode, overlay_open, ctrlq, prefix), "Ctrl+Q (a Ctrl combo) must NOT go to the game");

    // Ctrl+K (the default prefix) stays with the app.
    let ctrlk = KeyPress::new(Key::Char('k'), MOD_CONTROL);
    assert!(KeySpec::from_key_event(ctrlk) == prefix, "Ctrl+K must match the default prefix");
    assert!(!char_mode_forwards(char_mode, overlay_open, ctrlk, prefix), "the prefix key Ctrl+K must NOT go to the game");

    // Alt combos stay with the app too.
    assert!(!char_mode_forwards(char_mode, overlay_open, KeyPress::new(Key::Char('x'), MOD_ALT), prefix));

    // If an overlay is open, nothing is forwarded.
    overlay_open = true;
    assert!(!char_mode_forwards(char_mode, overlay_open, y_key, prefix));
}
