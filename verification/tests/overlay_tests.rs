use babelmap::dialogs::SaveNameDialog;
use babelmap::keys::{Key, KeyPress, MOD_CONTROL};
use babelmap::layout::{PaneLayout, Rect};
use babelmap::overlays::{
    aux_overlay_key, aux_overlay_mouse, confirm_delete_overlay_mouse, is_ctrl_char, launch_overlay_key,
    launch_overlay_mouse, quit_overlay_key, quit_overlay_mouse, reset_overlay_key, reset_overlay_mouse,
    save_name_overlay_key, save_name_overlay_mouse, topmost_common_dialog, AuxDialogHits, ConfirmDeleteDialogHits,
    LaunchDialogHits, OpenDialogs, OverlayAct, OverlayKind, OverlayOutcome, QuitDialogHits, ResetDialogHits,
    SaveNameDialogHits,
};

#[test]
fn topmost_common_dialog_preserves_ladder_order() {
    // No overlay open → None.
    let ov = OpenDialogs::default();
    assert!(topmost_common_dialog(&ov).is_none());

    // Each overlay alone resolves to itself, in ladder order.
    let cases: &[(fn(&mut OpenDialogs), OverlayKind)] = &[
        (|o| o.aux_prompt = true, OverlayKind::Aux),
        (|o| o.reset_dialog = true, OverlayKind::Reset),
        (|o| o.save_name_dialog = true, OverlayKind::SaveName),
        (|o| o.text_entry = true, OverlayKind::TextEntry),
        (|o| o.confirm_delete = true, OverlayKind::ConfirmDelete),
        (|o| o.quit_dialog = true, OverlayKind::Quit),
        (|o| o.launch_dialog = true, OverlayKind::Launch),
    ];
    for (open, want) in cases {
        let mut o = OpenDialogs::default();
        open(&mut o);
        assert_eq!(topmost_common_dialog(&o).unwrap(), *want);
    }

    // With several open at once, the highest-priority (earliest) wins.
    let mut o = OpenDialogs::default();
    o.launch_dialog = true;
    o.quit_dialog = true;
    o.reset_dialog = true;
    assert_eq!(topmost_common_dialog(&o).unwrap(), OverlayKind::Reset);

    // Drop reset → quit is now top-most (still above launch).
    o.reset_dialog = false;
    assert_eq!(topmost_common_dialog(&o).unwrap(), OverlayKind::Quit);

    // Aux sits above everything.
    o.aux_prompt = true;
    assert_eq!(topmost_common_dialog(&o).unwrap(), OverlayKind::Aux);
}

#[test]
fn button_dialogs_move_focus_and_decode_enter() {
    assert_eq!(aux_overlay_key(Key::Tab, 0), (OverlayOutcome::Consumed, 1));
    assert_eq!(aux_overlay_key(Key::Left, 0), (OverlayOutcome::Consumed, 1));
    assert_eq!(aux_overlay_key(Key::Enter, 1), (OverlayOutcome::Act(OverlayAct::AuxGlobal), 1));
    assert_eq!(aux_overlay_key(Key::Char('x'), 1), (OverlayOutcome::Consumed, 1));
    assert_eq!(quit_overlay_key(Key::BackTab, 0), (OverlayOutcome::Consumed, 2));
    assert_eq!(quit_overlay_key(Key::Enter, 2), (OverlayOutcome::Act(OverlayAct::QuitCancel), 2));
    assert_eq!(quit_overlay_key(Key::Char('q'), 0), (OverlayOutcome::Act(OverlayAct::QuitQuit), 0));
    assert_eq!(launch_overlay_key(Key::Right, 1), (OverlayOutcome::Consumed, 0));
    assert_eq!(launch_overlay_key(Key::Esc, 0), (OverlayOutcome::Act(OverlayAct::LaunchNewGame), 0));
}

#[test]
fn reset_dialog_keys_toggle_its_boxes() {
    assert_eq!(reset_overlay_key(Key::Char(' '), 0, false, false), (OverlayOutcome::Consumed, 0, true, false));
    assert_eq!(reset_overlay_key(Key::Char(' '), 1, false, false), (OverlayOutcome::Consumed, 1, false, true));
    assert_eq!(reset_overlay_key(Key::Tab, 3, true, true), (OverlayOutcome::Consumed, 0, true, true));
    assert_eq!(reset_overlay_key(Key::Enter, 2, true, false), (OverlayOutcome::Act(OverlayAct::ResetConfirm), 2, true, false));
    assert_eq!(reset_overlay_key(Key::Char('c'), 0, false, false), (OverlayOutcome::Act(OverlayAct::ResetCancel), 0, false, false));
}

#[test]
fn save_name_dialog_ignores_accelerators() {
    let ctrl_s = KeyPress::new(Key::Char('s'), MOD_CONTROL);
    assert!(is_ctrl_char(ctrl_s));
    assert!(!is_ctrl_char(KeyPress::new(Key::Enter, MOD_CONTROL)));
    let mut d = SaveNameDialog::new("slot".to_string(), false);
    assert_eq!(save_name_overlay_key(ctrl_s, &mut d, 0), (OverlayOutcome::Consumed, 0));
    assert_eq!(d.field.value, "slot");
    assert!(!d.active);
    assert_eq!(
        save_name_overlay_key(KeyPress::new(Key::Enter, 0), &mut d, 0),
        (OverlayOutcome::Act(OverlayAct::SaveNameSubmit), 0)
    );
}

fn r(x: u16, y: u16, w: u16, h: u16) -> Option<Rect> {
    Some(Rect::new(x, y, w, h))
}

#[test]
fn clicks_pick_buttons() {
    let aux = AuxDialogHits { close: r(50, 5, 3, 1), archive: r(20, 10, 10, 1), global: r(32, 10, 10, 1), area: Rect::new(10, 5, 45, 8) };
    assert_eq!(aux_overlay_mouse(Some((33, 10)), Some(aux)), OverlayOutcome::Act(OverlayAct::AuxGlobal));
    assert_eq!(aux_overlay_mouse(Some((21, 10)), Some(aux)), OverlayOutcome::Act(OverlayAct::AuxArchive));
    assert_eq!(aux_overlay_mouse(Some((0, 0)), Some(aux)), OverlayOutcome::Act(OverlayAct::AuxArchive), "outside resolves to Archive");
    assert_eq!(aux_overlay_mouse(Some((12, 6)), Some(aux)), OverlayOutcome::Consumed);
    assert_eq!(aux_overlay_mouse(None, Some(aux)), OverlayOutcome::Consumed);

    let reset = ResetDialogHits {
        close: r(50, 5, 3, 1),
        reset: r(20, 12, 8, 1),
        cancel: r(30, 12, 8, 1),
        checkbox: Rect::new(12, 8, 20, 1),
        checkbox_data: Rect::new(12, 9, 20, 1),
    };
    assert_eq!(reset_overlay_mouse(Some((13, 8)), Some(reset), false, false), (OverlayOutcome::Consumed, true, false));
    assert_eq!(reset_overlay_mouse(Some((13, 9)), Some(reset), false, false), (OverlayOutcome::Consumed, false, true));
    assert_eq!(reset_overlay_mouse(Some((21, 12)), Some(reset), false, true), (OverlayOutcome::Act(OverlayAct::ResetConfirm), false, true));
    assert_eq!(reset_overlay_mouse(Some((51, 5)), Some(reset), true, true), (OverlayOutcome::Act(OverlayAct::ResetCancel), true, true));
    assert_eq!(reset_overlay_mouse(Some((0, 0)), None, true, true), (OverlayOutcome::Consumed, true, true));

    let del = ConfirmDeleteDialogHits { close: None, delete: r(10, 10, 8, 1), cancel: r(20, 10, 8, 1) };
    assert_eq!(confirm_delete_overlay_mouse(Some((11, 10)), Some(del)), OverlayOutcome::Act(OverlayAct::ConfirmDelete(true)));
    assert_eq!(confirm_delete_overlay_mouse(Some((21, 10)), Some(del)), OverlayOutcome::Act(OverlayAct::ConfirmDelete(false)));

    let quit = QuitDialogHits { close: None, save: r(10, 10, 8, 1), quit: r(20, 10, 8, 1), cancel: r(30, 10, 8, 1) };
    assert_eq!(quit_overlay_mouse(Some((31, 10)), Some(quit)), OverlayOutcome::Act(OverlayAct::QuitCancel));
    assert_eq!(quit_overlay_mouse(Some((11, 10)), Some(quit)), OverlayOutcome::Act(OverlayAct::QuitSave));

    let launch = LaunchDialogHits { resume: r(10, 10, 8, 1), new_game: r(20, 10, 8, 1), close: r(40, 2, 3, 1) };
    assert_eq!(launch_overlay_mouse(Some((41, 2)), Some(launch)), OverlayOutcome::Act(OverlayAct::LaunchNewGame));
    assert_eq!(launch_overlay_mouse(Some((10, 10)), Some(launch)), OverlayOutcome::Act(OverlayAct::LaunchResume));
    assert_eq!(launch_overlay_mouse(Some((18, 10)), Some(launch)), OverlayOutcome::Consumed, "right edge is outside");
}

#[test]
fn clicking_the_name_field_adopts_the_placeholder() {
    let hits = SaveNameDialogHits { close: None, save: r(20, 12, 6, 1), cancel: r(30, 12, 8, 1), field: r(12, 9, 30, 1) };
    let mut d = SaveNameDialog::new("slot".to_string(), false);
    d.field.home();
    assert_eq!(save_name_overlay_mouse(Some((15, 9)), Some(hits), &mut d, 2), (OverlayOutcome::Consumed, 0));
    assert!(d.active);
    assert_eq!(d.field.cursor, 4);
    assert_eq!(
        save_name_overlay_mouse(Some((21, 12)), Some(hits), &mut d, 0),
        (OverlayOutcome::Act(OverlayAct::SaveNameSubmit), 0)
    );
}

#[test]
fn panes_area_joins_the_visible_panes() {
    let empty = Rect::default();
    let mk = |story: Rect, map: Rect| PaneLayout { story, map, command_band: empty, inv_dock: empty, help_row: Rect::new(0, 23, 80, 1) };
    assert_eq!(mk(empty, empty).panes_area(), Rect::new(0, 0, 0, 0));
    assert_eq!(mk(Rect::new(0, 0, 80, 23), empty).panes_area(), Rect::new(0, 0, 80, 23));
    assert_eq!(mk(empty, Rect::new(40, 0, 40, 23)).panes_area(), Rect::new(40, 0, 40, 23));
    assert_eq!(mk(Rect::new(0, 0, 40, 23), Rect::new(40, 0, 40, 23)).panes_area(), Rect::new(0, 0, 80, 23));
    assert!(Rect::new(2, 2, 3, 3).contains(4, 4));
    assert!(!Rect::new(2, 2, 3, 3).contains(5, 4));
    assert_eq!(Rect::new(65_530, 0, 10, 1).right(), 65_535);
}
