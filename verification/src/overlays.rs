//! The common-dialog overlays (aux storage, reset, save name, text entry,
//! confirm delete, quit, launch): which one is on top, and what a key or a
//! click does to it. Pure focus, checkbox and text-field changes are applied
//! here; game-affecting commands come back as an [`OverlayAct`] for the run
//! loop to carry out.

use vstd::prelude::*;
use crate::dialogs::{
    aux_dialog_key_focused, cycle_focus, cycle_focus_spec, launch_dialog_key_focused, quit_dialog_key_focused,
    reset_dialog_key_focused, save_name_dialog_key, save_name_next, AuxDialogAction, LaunchDialogAction,
    QuitDialogAction, ResetDialogAction, SaveNameAction, SaveNameDialog, TextField,
};
use crate::keys::{Key, KeyPress, MOD_ALT, MOD_CONTROL, MOD_SUPER};
use crate::layout::{Rect, rect_contains};

verus! {

/// Identity of a common-dialog overlay.
#[derive(Debug, Clone, Copy, PartialEq, Eq, Structural, Hash)]
pub enum OverlayKind {
    Aux,
    Reset,
    SaveName,
    TextEntry,
    ConfirmDelete,
    Quit,
    Launch,
}

/// Which common dialogs are open.
#[derive(Debug, Clone, Copy, PartialEq, Eq, Structural, Hash, Default)]
pub struct OpenDialogs {
    pub aux_prompt: bool,
    pub reset_dialog: bool,
    pub save_name_dialog: bool,
    pub text_entry: bool,
    pub confirm_delete: bool,
    pub quit_dialog: bool,
    pub launch_dialog: bool,
}

/// Whether the overlay `k` is open.
pub open spec fn is_open(o: OpenDialogs, k: OverlayKind) -> bool {
    match k {
        OverlayKind::Aux => o.aux_prompt,
        OverlayKind::Reset => o.reset_dialog,
        OverlayKind::SaveName => o.save_name_dialog,
        OverlayKind::TextEntry => o.text_entry,
        OverlayKind::ConfirmDelete => o.confirm_delete,
        OverlayKind::Quit => o.quit_dialog,
        OverlayKind::Launch => o.launch_dialog,
    }
}

/// The place of an overlay in input priority and draw order, highest first:
/// aux, reset, save name, text entry, confirm delete, quit, launch.
pub open spec fn priority(k: OverlayKind) -> int {
    match k {
        OverlayKind::Aux => 0,
        OverlayKind::Reset => 1,
        OverlayKind::SaveName => 2,
        OverlayKind::TextEntry => 3,
        OverlayKind::ConfirmDelete => 4,
        OverlayKind::Quit => 5,
        OverlayKind::Launch => 6,
    }
}

/// The highest-priority open common dialog, if any.
pub fn topmost_common_dialog(o: &OpenDialogs) -> (r: Option<OverlayKind>)
    ensures
        match r {
            Some(k) => is_open(*o, k) && forall|j: OverlayKind| priority(j) < priority(k) ==> !is_open(*o, j),
            None => forall|j: OverlayKind| !is_open(*o, j),
        },
{
    if o.aux_prompt {
        Some(OverlayKind::Aux)
    } else if o.reset_dialog {
        Some(OverlayKind::Reset)
    } else if o.save_name_dialog {
        Some(OverlayKind::SaveName)
    } else if o.text_entry {
        Some(OverlayKind::TextEntry)
    } else if o.confirm_delete {
        Some(OverlayKind::ConfirmDelete)
    } else if o.quit_dialog {
        Some(OverlayKind::Quit)
    } else if o.launch_dialog {
        Some(OverlayKind::Launch)
    } else {
        None
    }
}

/// A game-affecting command a dialog decoded, for the run loop to apply.
#[derive(Debug, Clone, Copy, PartialEq, Eq, Structural, Hash)]
pub enum OverlayAct {
    AuxArchive,
    AuxGlobal,
    ResetConfirm,
    ResetCancel,
    SaveNameSubmit,
    SaveNameCancel,
    TextEntrySubmit,
    TextEntryCancel,
    ConfirmDelete(bool),
    QuitSave,
    QuitQuit,
    QuitCancel,
    LaunchResume,
    LaunchNewGame,
}

/// What routing one event to the top dialog came to.
#[derive(Debug, Clone, Copy, PartialEq, Eq, Structural, Hash)]
pub enum OverlayOutcome {
    /// Handled inside the dialog (focus moved, box toggled, field edited,
    /// click swallowed).
    Consumed,
    /// A command for the run loop.
    Act(OverlayAct),
}

/// A Ctrl-, Alt- or Super-modified character: an accelerator, not text.
pub open spec fn is_ctrl_char_spec(key: KeyPress) -> bool {
    key.code is Char && (key.modifiers & (MOD_CONTROL | MOD_ALT | MOD_SUPER)) != 0
}

/// Whether `key` is an accelerator character rather than text.
pub fn is_ctrl_char(key: KeyPress) -> (b: bool)
    ensures
        b == is_ctrl_char_spec(key),
{
    match key.code {
        Key::Char(_) => (key.modifiers & (MOD_CONTROL | MOD_ALT | MOD_SUPER)) != 0,
        _ => false,
    }
}

/// The button-focus step of a key in a button-only dialog: Tab and Right
/// move forward, BackTab and Left back.
pub open spec fn focus_step(code: Key) -> Option<int> {
    if code == Key::Tab || code == Key::Right {
        Some(1)
    } else if code == Key::BackTab || code == Key::Left {
        Some(-1)
    } else {
        None
    }
}

/// A key in the aux-storage prompt (buttons 0 = Archive, 1 = Global): the
/// outcome and the new focus.
pub fn aux_overlay_key(code: Key, focus: usize) -> (r: (OverlayOutcome, usize))
    ensures
        r == (match focus_step(code) {
            Some(d) => (OverlayOutcome::Consumed, cycle_focus_spec(focus as int, 2, d) as usize),
            None => (
                match crate::dialogs::aux_key_spec(code, focus) {
                    AuxDialogAction::Archive => OverlayOutcome::Act(OverlayAct::AuxArchive),
                    AuxDialogAction::Global => OverlayOutcome::Act(OverlayAct::AuxGlobal),
                    AuxDialogAction::Nothing => OverlayOutcome::Consumed,
                },
                focus,
            ),
        }),
{
    match code {
        Key::Tab | Key::Right => (OverlayOutcome::Consumed, cycle_focus(focus, 2, 1)),
        Key::BackTab | Key::Left => (OverlayOutcome::Consumed, cycle_focus(focus, 2, -1)),
        _ => match aux_dialog_key_focused(code, focus) {
            AuxDialogAction::Archive => (OverlayOutcome::Act(OverlayAct::AuxArchive), focus),
            AuxDialogAction::Global => (OverlayOutcome::Act(OverlayAct::AuxGlobal), focus),
            AuxDialogAction::Nothing => (OverlayOutcome::Consumed, focus),
        },
    }
}

/// The outcome of a reset-dialog action.
pub open spec fn reset_outcome(a: ResetDialogAction) -> OverlayOutcome {
    match a {
        ResetDialogAction::Confirm => OverlayOutcome::Act(OverlayAct::ResetConfirm),
        ResetDialogAction::Cancel => OverlayOutcome::Act(OverlayAct::ResetCancel),
        _ => OverlayOutcome::Consumed,
    }
}

/// A key in the reset dialog (focus ring 0 = clear-map box, 1 = delete-data
/// box, 2 = Reset, 3 = Cancel): the outcome, the new focus, and the two boxes.
pub fn reset_overlay_key(code: Key, focus: usize, clear_map: bool, delete_data: bool) -> (r: (
    OverlayOutcome,
    usize,
    bool,
    bool,
))
    ensures
        r == (match focus_step(code) {
            Some(d) => (OverlayOutcome::Consumed, cycle_focus_spec(focus as int, 4, d) as usize, clear_map, delete_data),
            None => {
                let a = crate::dialogs::reset_focused_spec(code, focus);
                (
                    reset_outcome(a),
                    focus,
                    if a == ResetDialogAction::ToggleClearMap { !clear_map } else { clear_map },
                    if a == ResetDialogAction::ToggleDeleteData { !delete_data } else { delete_data },
                )
            },
        }),
{
    match code {
        Key::Tab | Key::Right => (OverlayOutcome::Consumed, cycle_focus(focus, 4, 1), clear_map, delete_data),
        Key::BackTab | Key::Left => (OverlayOutcome::Consumed, cycle_focus(focus, 4, -1), clear_map, delete_data),
        _ => match reset_dialog_key_focused(code, focus) {
            ResetDialogAction::Confirm => (OverlayOutcome::Act(OverlayAct::ResetConfirm), focus, clear_map, delete_data),
            ResetDialogAction::Cancel => (OverlayOutcome::Act(OverlayAct::ResetCancel), focus, clear_map, delete_data),
            ResetDialogAction::ToggleClearMap => (OverlayOutcome::Consumed, focus, !clear_map, delete_data),
            ResetDialogAction::ToggleDeleteData => (OverlayOutcome::Consumed, focus, clear_map, !delete_data),
            ResetDialogAction::Nothing => (OverlayOutcome::Consumed, focus, clear_map, delete_data),
        },
    }
}

/// A key in the quit dialog (buttons 0 = Save & quit, 1 = Quit, 2 = Cancel):
/// the outcome and the new focus.
pub fn quit_overlay_key(code: Key, focus: usize) -> (r: (OverlayOutcome, usize))
    ensures
        r == (match focus_step(code) {
            Some(d) => (OverlayOutcome::Consumed, cycle_focus_spec(focus as int, 3, d) as usize),
            None => (
                match crate::dialogs::quit_focused_spec(code, focus) {
                    QuitDialogAction::Save => OverlayOutcome::Act(OverlayAct::QuitSave),
                    QuitDialogAction::Quit => OverlayOutcome::Act(OverlayAct::QuitQuit),
                    QuitDialogAction::Cancel => OverlayOutcome::Act(OverlayAct::QuitCancel),
                    QuitDialogAction::Nothing => OverlayOutcome::Consumed,
                },
                focus,
            ),
        }),
{
    match code {
        Key::Tab | Key::Right => (OverlayOutcome::Consumed, cycle_focus(focus, 3, 1)),
        Key::BackTab | Key::Left => (OverlayOutcome::Consumed, cycle_focus(focus, 3, -1)),
        _ => match quit_dialog_key_focused(code, focus) {
            QuitDialogAction::Save => (OverlayOutcome::Act(OverlayAct::QuitSave), focus),
            QuitDialogAction::Quit => (OverlayOutcome::Act(OverlayAct::QuitQuit), focus),
            QuitDialogAction::Cancel => (OverlayOutcome::Act(OverlayAct::QuitCancel), focus),
            QuitDialogAction::Nothing => (OverlayOutcome::Consumed, focus),
        },
    }
}

/// A key in the launch dialog (buttons 0 = Resume, 1 = New game): the outcome
/// and the new focus.
pub fn launch_overlay_key(code: Key, focus: usize) -> (r: (OverlayOutcome, usize))
    ensures
        r == (match focus_step(code) {
            Some(d) => (OverlayOutcome::Consumed, cycle_focus_spec(focus as int, 2, d) as usize),
            None => (
                match crate::dialogs::launch_focused_spec(code, focus) {
                    LaunchDialogAction::Resume => OverlayOutcome::Act(OverlayAct::LaunchResume),
                    LaunchDialogAction::NewGame => OverlayOutcome::Act(OverlayAct::LaunchNewGame),
                    LaunchDialogAction::Nothing => OverlayOutcome::Consumed,
                },
                focus,
            ),
        }),
{
    match code {
        Key::Tab | Key::Right => (OverlayOutcome::Consumed, cycle_focus(focus, 2, 1)),
        Key::BackTab | Key::Left => (OverlayOutcome::Consumed, cycle_focus(focus, 2, -1)),
        _ => match launch_dialog_key_focused(code, focus) {
            LaunchDialogAction::Resume => (OverlayOutcome::Act(OverlayAct::LaunchResume), focus),
            LaunchDialogAction::NewGame => (OverlayOutcome::Act(OverlayAct::LaunchNewGame), focus),
            LaunchDialogAction::Nothing => (OverlayOutcome::Consumed, focus),
        },
    }
}

/// A key in the save-name dialog: an accelerator character is swallowed and
/// changes nothing; any other key goes to the dialog's field and focus ring.
pub fn save_name_overlay_key(key: KeyPress, dlg: &mut SaveNameDialog, focus: usize) -> (r: (OverlayOutcome, usize))
    requires
        old(dlg).field.wf(),
        old(dlg).field.value@.len() < usize::MAX,
    ensures
        final(dlg).field.wf(),
        is_ctrl_char_spec(key) ==> r == (OverlayOutcome::Consumed, focus) && *final(dlg) == *old(dlg),
        !is_ctrl_char_spec(key) ==> {
            let n = save_name_next(key.code, old(dlg).field.view_field(), old(dlg).active, focus as int);
            &&& r.0 == match n.0 {
                SaveNameAction::Save => OverlayOutcome::Act(OverlayAct::SaveNameSubmit),
                SaveNameAction::Cancel => OverlayOutcome::Act(OverlayAct::SaveNameCancel),
                SaveNameAction::Nothing => OverlayOutcome::Consumed,
            }
            &&& r.1 as int == n.3
            &&& final(dlg).field.view_field() == n.1
            &&& final(dlg).active == n.2
        },
{
    if is_ctrl_char(key) {
        return (OverlayOutcome::Consumed, focus);
    }
    let (act, new_focus) = save_name_dialog_key(key.code, dlg, focus);
    let outcome = match act {
        SaveNameAction::Save => OverlayOutcome::Act(OverlayAct::SaveNameSubmit),
        SaveNameAction::Cancel => OverlayOutcome::Act(OverlayAct::SaveNameCancel),
        SaveNameAction::Nothing => OverlayOutcome::Consumed,
    };
    (outcome, new_focus)
}

// ── Clicks ───────────────────────────────────────────────────────────────────

/// Whether the click `p` lands in the optional rectangle `r`.
pub open spec fn hit(r: Option<Rect>, p: (u16, u16)) -> bool {
    r matches Some(rr) && rect_contains(rr, p.0, p.1)
}

fn hits(r: Option<Rect>, p: (u16, u16)) -> (b: bool)
    ensures
        b == hit(r, p),
{
    match r {
        Some(rr) => rr.contains(p.0, p.1),
        None => false,
    }
}

/// The aux prompt's drawn hit areas.
#[derive(Debug, Clone, Copy, PartialEq, Eq)]
pub struct AuxDialogHits {
    pub close: Option<Rect>,
    pub archive: Option<Rect>,
    pub global: Option<Rect>,
    pub area: Rect,
}

/// A click on the aux prompt (`click` is where the left button went down, if
/// it did): the close box, Archive, or anywhere outside the dialog choose
/// Archive; Global chooses Global; anything else is swallowed.
pub fn aux_overlay_mouse(click: Option<(u16, u16)>, hits_at: Option<AuxDialogHits>) -> (r: OverlayOutcome)
    ensures
        r == (match (click, hits_at) {
            (Some(p), Some(h)) => if hit(h.close, p) || hit(h.archive, p) || (!hit(h.global, p) && !rect_contains(h.area, p.0, p.1)) {
                OverlayOutcome::Act(OverlayAct::AuxArchive)
            } else if hit(h.global, p) {
                OverlayOutcome::Act(OverlayAct::AuxGlobal)
            } else {
                OverlayOutcome::Consumed
            },
            _ => OverlayOutcome::Consumed,
        }),
{
    let p = match click {
        Some(p) => p,
        None => return OverlayOutcome::Consumed,
    };
    let h = match hits_at {
        Some(h) => h,
        None => return OverlayOutcome::Consumed,
    };
    let in_close = hits(h.close, p);
    let in_archive = hits(h.archive, p);
    let in_global = hits(h.global, p);
    let in_dialog = h.area.contains(p.0, p.1);
    if in_close || in_archive || (!in_global && !in_dialog) {
        OverlayOutcome::Act(OverlayAct::AuxArchive)
    } else if in_global {
        OverlayOutcome::Act(OverlayAct::AuxGlobal)
    } else {
        OverlayOutcome::Consumed
    }
}

/// The reset dialog's drawn hit areas.
#[derive(Debug, Clone, Copy, PartialEq, Eq)]
pub struct ResetDialogHits {
    pub close: Option<Rect>,
    pub reset: Option<Rect>,
    pub cancel: Option<Rect>,
    pub checkbox: Rect,
    pub checkbox_data: Rect,
}

/// A click on the reset dialog, checked close > reset > cancel > boxes: the
/// close box and Cancel cancel, Reset confirms, a box toggles; a click
/// elsewhere is swallowed and the dialog stays open. Returns the outcome and
/// the two boxes.
pub fn reset_overlay_mouse(click: Option<(u16, u16)>, hits_at: Option<ResetDialogHits>, clear_map: bool, delete_data: bool) -> (r: (
    OverlayOutcome,
    bool,
    bool,
))
    ensures
        r == (match (click, hits_at) {
            (Some(p), Some(h)) => if hit(h.close, p) || hit(h.cancel, p) {
                (OverlayOutcome::Act(OverlayAct::ResetCancel), clear_map, delete_data)
            } else if hit(h.reset, p) {
                (OverlayOutcome::Act(OverlayAct::ResetConfirm), clear_map, delete_data)
            } else if rect_contains(h.checkbox, p.0, p.1) {
                (OverlayOutcome::Consumed, !clear_map, delete_data)
            } else if rect_contains(h.checkbox_data, p.0, p.1) {
                (OverlayOutcome::Consumed, clear_map, !delete_data)
            } else {
                (OverlayOutcome::Consumed, clear_map, delete_data)
            },
            _ => (OverlayOutcome::Consumed, clear_map, delete_data),
        }),
{
    let p = match click {
        Some(p) => p,
        None => return (OverlayOutcome::Consumed, clear_map, delete_data),
    };
    let h = match hits_at {
        Some(h) => h,
        None => return (OverlayOutcome::Consumed, clear_map, delete_data),
    };
    if hits(h.close, p) || hits(h.cancel, p) {
        (OverlayOutcome::Act(OverlayAct::ResetCancel), clear_map, delete_data)
    } else if hits(h.reset, p) {
        (OverlayOutcome::Act(OverlayAct::ResetConfirm), clear_map, delete_data)
    } else if h.checkbox.contains(p.0, p.1) {
        (OverlayOutcome::Consumed, !clear_map, delete_data)
    } else if h.checkbox_data.contains(p.0, p.1) {
        (OverlayOutcome::Consumed, clear_map, !delete_data)
    } else {
        (OverlayOutcome::Consumed, clear_map, delete_data)
    }
}

/// The save-name dialog's drawn hit areas.
#[derive(Debug, Clone, Copy, PartialEq, Eq)]
pub struct SaveNameDialogHits {
    pub close: Option<Rect>,
    pub save: Option<Rect>,
    pub cancel: Option<Rect>,
    pub field: Option<Rect>,
}

/// A click on the save-name dialog: the close box and Cancel cancel, Save
/// submits, a click in the field focuses it and adopts the name for editing
/// with the caret at its end; anything else is swallowed. Returns the outcome
/// and the new focus.
pub fn save_name_overlay_mouse(
    click: Option<(u16, u16)>,
    hits_at: Option<SaveNameDialogHits>,
    dlg: &mut SaveNameDialog,
    focus: usize,
) -> (r: (OverlayOutcome, usize))
    requires
        old(dlg).field.wf(),
    ensures
        final(dlg).field.wf(),
        match (click, hits_at) {
            (Some(p), Some(h)) => if hit(h.close, p) || hit(h.cancel, p) {
                r == (OverlayOutcome::Act(OverlayAct::SaveNameCancel), focus) && *final(dlg) == *old(dlg)
            } else if hit(h.save, p) {
                r == (OverlayOutcome::Act(OverlayAct::SaveNameSubmit), focus) && *final(dlg) == *old(dlg)
            } else if hit(h.field, p) {
                &&& r == (OverlayOutcome::Consumed, 0usize)
                &&& final(dlg).active
                &&& final(dlg).field.view_field() == crate::dialogs::field_end(old(dlg).field.view_field())
            } else {
                r == (OverlayOutcome::Consumed, focus) && *final(dlg) == *old(dlg)
            },
            _ => r == (OverlayOutcome::Consumed, focus) && *final(dlg) == *old(dlg),
        },
{
    let p = match click {
        Some(p) => p,
        None => return (OverlayOutcome::Consumed, focus),
    };
    let h = match hits_at {
        Some(h) => h,
        None => return (OverlayOutcome::Consumed, focus),
    };
    if hits(h.close, p) || hits(h.cancel, p) {
        (OverlayOutcome::Act(OverlayAct::SaveNameCancel), focus)
    } else if hits(h.save, p) {
        (OverlayOutcome::Act(OverlayAct::SaveNameSubmit), focus)
    } else if hits(h.field, p) {
        dlg.active = true;
        dlg.field.end();
        (OverlayOutcome::Consumed, 0)
    } else {
        (OverlayOutcome::Consumed, focus)
    }
}

/// The text-entry dialog's drawn hit areas.
#[derive(Debug, Clone, Copy, PartialEq, Eq)]
pub struct TextEntryDialogHits {
    pub close: Option<Rect>,
    pub ok: Option<Rect>,
    pub cancel: Option<Rect>,
    pub field: Option<Rect>,
}

/// A click on the text-entry dialog: the close box and Cancel cancel, OK
/// submits, a click in the field focuses it with the caret at its end;
/// anything else is swallowed. Returns the outcome and the new focus.
pub fn text_entry_overlay_mouse(
    click: Option<(u16, u16)>,
    hits_at: Option<TextEntryDialogHits>,
    field: &mut TextField,
    focus: usize,
) -> (r: (OverlayOutcome, usize))
    requires
        old(field).wf(),
    ensures
        final(field).wf(),
        match (click, hits_at) {
            (Some(p), Some(h)) => if hit(h.close, p) || hit(h.cancel, p) {
                r == (OverlayOutcome::Act(OverlayAct::TextEntryCancel), focus) && *final(field) == *old(field)
            } else if hit(h.ok, p) {
                r == (OverlayOutcome::Act(OverlayAct::TextEntrySubmit), focus) && *final(field) == *old(field)
            } else if hit(h.field, p) {
                r == (OverlayOutcome::Consumed, 0usize) && final(field).view_field() == crate::dialogs::field_end(
                    old(field).view_field(),
                )
            } else {
                r == (OverlayOutcome::Consumed, focus) && *final(field) == *old(field)
            },
            _ => r == (OverlayOutcome::Consumed, focus) && *final(field) == *old(field),
        },
{
    let p = match click {
        Some(p) => p,
        None => return (OverlayOutcome::Consumed, focus),
    };
    let h = match hits_at {
        Some(h) => h,
        None => return (OverlayOutcome::Consumed, focus),
    };
    if hits(h.close, p) || hits(h.cancel, p) {
        (OverlayOutcome::Act(OverlayAct::TextEntryCancel), focus)
    } else if hits(h.ok, p) {
        (OverlayOutcome::Act(OverlayAct::TextEntrySubmit), focus)
    } else if hits(h.field, p) {
        field.end();
        (OverlayOutcome::Consumed, 0)
    } else {
        (OverlayOutcome::Consumed, focus)
    }
}

/// The confirm-delete dialog's drawn hit areas.
#[derive(Debug, Clone, Copy, PartialEq, Eq)]
pub struct ConfirmDeleteDialogHits {
    pub close: Option<Rect>,
    pub delete: Option<Rect>,
    pub cancel: Option<Rect>,
}

/// A click on the confirm-delete dialog: the close box and Cancel decline,
/// Delete confirms, anything else is swallowed.
pub fn confirm_delete_overlay_mouse(click: Option<(u16, u16)>, hits_at: Option<ConfirmDeleteDialogHits>) -> (r:
    OverlayOutcome)
    ensures
        r == (match (click, hits_at) {
            (Some(p), Some(h)) => if hit(h.close, p) || hit(h.cancel, p) {
                OverlayOutcome::Act(OverlayAct::ConfirmDelete(false))
            } else if hit(h.delete, p) {
                OverlayOutcome::Act(OverlayAct::ConfirmDelete(true))
            } else {
                OverlayOutcome::Consumed
            },
            _ => OverlayOutcome::Consumed,
        }),
{
    let p = match click {
        Some(p) => p,
        None => return OverlayOutcome::Consumed,
    };
    let h = match hits_at {
        Some(h) => h,
        None => return OverlayOutcome::Consumed,
    };
    if hits(h.close, p) || hits(h.cancel, p) {
        OverlayOutcome::Act(OverlayAct::ConfirmDelete(false))
    } else if hits(h.delete, p) {
        OverlayOutcome::Act(OverlayAct::ConfirmDelete(true))
    } else {
        OverlayOutcome::Consumed
    }
}

/// The quit dialog's drawn hit areas.
#[derive(Debug, Clone, Copy, PartialEq, Eq)]
pub struct QuitDialogHits {
    pub close: Option<Rect>,
    pub save: Option<Rect>,
    pub quit: Option<Rect>,
    pub cancel: Option<Rect>,
}

/// A click on the quit dialog, checked save > quit > close/cancel; anything
/// else is swallowed.
pub fn quit_overlay_mouse(click: Option<(u16, u16)>, hits_at: Option<QuitDialogHits>) -> (r: OverlayOutcome)
    ensures
        r == (match (click, hits_at) {
            (Some(p), Some(h)) => if hit(h.save, p) {
                OverlayOutcome::Act(OverlayAct::QuitSave)
            } else if hit(h.quit, p) {
                OverlayOutcome::Act(OverlayAct::QuitQuit)
            } else if hit(h.close, p) || hit(h.cancel, p) {
                OverlayOutcome::Act(OverlayAct::QuitCancel)
            } else {
                OverlayOutcome::Consumed
            },
            _ => OverlayOutcome::Consumed,
        }),
{
    let p = match click {
        Some(p) => p,
        None => return OverlayOutcome::Consumed,
    };
    let h = match hits_at {
        Some(h) => h,
        None => return OverlayOutcome::Consumed,
    };
    if hits(h.save, p) {
        OverlayOutcome::Act(OverlayAct::QuitSave)
    } else if hits(h.quit, p) {
        OverlayOutcome::Act(OverlayAct::QuitQuit)
    } else if hits(h.close, p) || hits(h.cancel, p) {
        OverlayOutcome::Act(OverlayAct::QuitCancel)
    } else {
        OverlayOutcome::Consumed
    }
}

/// The launch dialog's drawn hit areas.
#[derive(Debug, Clone, Copy, PartialEq, Eq)]
pub struct LaunchDialogHits {
    pub resume: Option<Rect>,
    pub new_game: Option<Rect>,
    pub close: Option<Rect>,
}

/// A click on the launch dialog: Resume resumes; New game and the close box
/// start a new game; anything else is swallowed.
pub fn launch_overlay_mouse(click: Option<(u16, u16)>, hits_at: Option<LaunchDialogHits>) -> (r: OverlayOutcome)
    ensures
        r == (match (click, hits_at) {
            (Some(p), Some(h)) => if hit(h.resume, p) {
                OverlayOutcome::Act(OverlayAct::LaunchResume)
            } else if hit(h.new_game, p) || hit(h.close, p) {
                OverlayOutcome::Act(OverlayAct::LaunchNewGame)
            } else {
                OverlayOutcome::Consumed
            },
            _ => OverlayOutcome::Consumed,
        }),
{
    let p = match click {
        Some(p) => p,
        None => return OverlayOutcome::Consumed,
    };
    let h = match hits_at {
        Some(h) => h,
        None => return OverlayOutcome::Consumed,
    };
    if hits(h.resume, p) {
        OverlayOutcome::Act(OverlayAct::LaunchResume)
    } else if hits(h.new_game, p) || hits(h.close, p) {
        OverlayOutcome::Act(OverlayAct::LaunchNewGame)
    } else {
        OverlayOutcome::Consumed
    }
}

} // verus!
