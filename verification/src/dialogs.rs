//! Keyboard routing of the modal dialogs (reset, quit, launch, aux storage,
//! save name, hints panel): which key, with which button focused, does what.

use vstd::prelude::*;
use crate::keys::Key;
use crate::text::{push_char, push_str};
use vstd::string::*;
use vstd::arithmetic::div_mod::{lemma_add_mod_noop, lemma_mod_add_multiples_vanish, lemma_sub_mod_noop};

verus! {

/// Routing decision for a key pressed while the hints panel is open.
#[derive(Debug, Clone, Copy, PartialEq, Eq)]
pub enum HintKeyKind {
    /// Close the hints panel (Esc).
    Close,
    /// Route the key to the hint sub-session.
    ToSession,
}

/// Esc closes the hints panel; every other key goes to the hint sub-session.
pub fn hint_key_routes(code: Key) -> (r: HintKeyKind)
    ensures
        r == (if code == Key::Esc { HintKeyKind::Close } else { HintKeyKind::ToSession }),
{
    match code {
        Key::Esc => HintKeyKind::Close,
        _ => HintKeyKind::ToSession,
    }
}

/// Action to take when a key is pressed while the reset dialog is open.
#[derive(Debug, Clone, Copy, PartialEq, Eq)]
pub enum ResetDialogAction {
    /// The key does nothing here.
    Nothing,
    ToggleClearMap,
    ToggleDeleteData,
    Confirm,
    Cancel,
}

/// The action [`reset_dialog_key`] maps a key to.
pub open spec fn reset_key_spec(code: Key) -> ResetDialogAction {
    if code == Key::Esc || code == Key::Char('c') {
        ResetDialogAction::Cancel
    } else if code == Key::Enter || code == Key::Char('r') {
        ResetDialogAction::Confirm
    } else if code == Key::Char(' ') {
        ResetDialogAction::ToggleClearMap
    } else {
        ResetDialogAction::Nothing
    }
}

/// Reset-dialog accelerators, whatever has focus: Esc and `c` cancel, Enter
/// and `r` confirm, Space toggles the clear-map box.
pub fn reset_dialog_key(code: Key) -> (r: ResetDialogAction)
    ensures
        r == reset_key_spec(code),
{
    match code {
        Key::Esc | Key::Char('c') => ResetDialogAction::Cancel,
        Key::Enter | Key::Char('r') => ResetDialogAction::Confirm,
        Key::Char(' ') => ResetDialogAction::ToggleClearMap,
        _ => ResetDialogAction::Nothing,
    }
}

/// The action [`reset_dialog_key_focused`] maps a key to.
pub open spec fn reset_focused_spec(code: Key, focus: usize) -> ResetDialogAction {
    if code == Key::Esc || code == Key::Char('c') {
        ResetDialogAction::Cancel
    } else if code == Key::Char('r') {
        ResetDialogAction::Confirm
    } else if code == Key::Char(' ') {
        if focus == 0 {
            ResetDialogAction::ToggleClearMap
        } else if focus == 1 {
            ResetDialogAction::ToggleDeleteData
        } else {
            ResetDialogAction::Nothing
        }
    } else if code == Key::Enter {
        if focus == 3 { ResetDialogAction::Cancel } else { ResetDialogAction::Confirm }
    } else {
        ResetDialogAction::Nothing
    }
}

/// Reset-dialog keys with focus, over the ring 0 = clear-map box, 1 =
/// delete-data box, 2 = Reset, 3 = Cancel (Tab and BackTab move the focus in
/// the caller). Space toggles the focused box; Enter activates the focused
/// button, and confirms when a box has focus; `r` and `c` stay accelerators.
pub fn reset_dialog_key_focused(code: Key, focus: usize) -> (r: ResetDialogAction)
    ensures
        r == reset_focused_spec(code, focus),
{
    match code {
        Key::Esc | Key::Char('c') => ResetDialogAction::Cancel,
        Key::Char('r') => ResetDialogAction::Confirm,
        Key::Char(' ') => match focus {
            0 => ResetDialogAction::ToggleClearMap,
            1 => ResetDialogAction::ToggleDeleteData,
            _ => ResetDialogAction::Nothing,
        },
        Key::Enter => match focus {
            3 => ResetDialogAction::Cancel,
            _ => ResetDialogAction::Confirm,
        },
        _ => ResetDialogAction::Nothing,
    }
}

/// Action to take when a key is pressed while the aux-storage prompt is open.
#[derive(Debug, Clone, Copy, PartialEq, Eq)]
pub enum AuxDialogAction {
    /// The key does nothing here.
    Nothing,
    Archive,
    Global,
}

/// The action [`aux_dialog_key_focused`] maps a key to.
pub open spec fn aux_key_spec(code: Key, focus: usize) -> AuxDialogAction {
    if code == Key::Esc {
        AuxDialogAction::Archive
    } else if code == Key::Enter {
        if focus == 1 { AuxDialogAction::Global } else { AuxDialogAction::Archive }
    } else {
        AuxDialogAction::Nothing
    }
}

/// Aux-prompt keys with button focus (0 = Archive, 1 = Global): Enter picks
/// the focused button, and Esc always resolves the prompt to Archive.
pub fn aux_dialog_key_focused(code: Key, focus: usize) -> (r: AuxDialogAction)
    ensures
        r == aux_key_spec(code, focus),
{
    match code {
        Key::Esc => AuxDialogAction::Archive,
        Key::Enter => match focus {
            1 => AuxDialogAction::Global,
            _ => AuxDialogAction::Archive,
        },
        _ => AuxDialogAction::Nothing,
    }
}

/// Action to take when a key is pressed while the quit dialog is open.
#[derive(Debug, Clone, Copy, PartialEq, Eq)]
pub enum QuitDialogAction {
    /// The key does nothing here.
    Nothing,
    Save,
    Quit,
    Cancel,
}

/// The action [`quit_dialog_key`] maps a key to.
pub open spec fn quit_key_spec(code: Key) -> QuitDialogAction {
    if code == Key::Char('s') || code == Key::Enter {
        QuitDialogAction::Save
    } else if code == Key::Char('q') {
        QuitDialogAction::Quit
    } else if code == Key::Esc || code == Key::Char('c') {
        QuitDialogAction::Cancel
    } else {
        QuitDialogAction::Nothing
    }
}

/// Quit-dialog accelerators: `s` or Enter saves state and quits, `q` quits
/// without saving, Esc or `c` cancels.
pub fn quit_dialog_key(code: Key) -> (r: QuitDialogAction)
    ensures
        r == quit_key_spec(code),
{
    match code {
        Key::Char('s') | Key::Enter => QuitDialogAction::Save,
        Key::Char('q') => QuitDialogAction::Quit,
        Key::Esc | Key::Char('c') => QuitDialogAction::Cancel,
        _ => QuitDialogAction::Nothing,
    }
}

/// The action [`quit_dialog_key_focused`] maps a key to.
pub open spec fn quit_focused_spec(code: Key, focus: usize) -> QuitDialogAction {
    if code == Key::Esc || code == Key::Char('c') {
        QuitDialogAction::Cancel
    } else if code == Key::Char('s') {
        QuitDialogAction::Save
    } else if code == Key::Char('q') {
        QuitDialogAction::Quit
    } else if code == Key::Enter {
        if focus == 1 {
            QuitDialogAction::Quit
        } else if focus == 2 {
            QuitDialogAction::Cancel
        } else {
            QuitDialogAction::Save
        }
    } else {
        QuitDialogAction::Nothing
    }
}

/// Quit-dialog keys with button focus (0 = Save & quit, 1 = Quit, 2 = Cancel):
/// Enter activates the focused button; the accelerators stay.
pub fn quit_dialog_key_focused(code: Key, focus: usize) -> (r: QuitDialogAction)
    ensures
        r == quit_focused_spec(code, focus),
{
    match code {
        Key::Esc | Key::Char('c') => QuitDialogAction::Cancel,
        Key::Char('s') => QuitDialogAction::Save,
        Key::Char('q') => QuitDialogAction::Quit,
        Key::Enter => match focus {
            1 => QuitDialogAction::Quit,
            2 => QuitDialogAction::Cancel,
            _ => QuitDialogAction::Save,
        },
        _ => QuitDialogAction::Nothing,
    }
}

/// Action to take when a key is pressed while the launch dialog is open.
#[derive(Debug, Clone, Copy, PartialEq, Eq)]
pub enum LaunchDialogAction {
    /// The key does nothing here.
    Nothing,
    Resume,
    NewGame,
}

/// The action [`launch_dialog_key`] maps a key to.
pub open spec fn launch_key_spec(code: Key) -> LaunchDialogAction {
    if code == Key::Char('r') || code == Key::Enter {
        LaunchDialogAction::Resume
    } else if code == Key::Char('n') || code == Key::Esc {
        LaunchDialogAction::NewGame
    } else {
        LaunchDialogAction::Nothing
    }
}

/// Launch-dialog accelerators: `r` or Enter resumes, `n` or Esc starts a new
/// game.
pub fn launch_dialog_key(code: Key) -> (r: LaunchDialogAction)
    ensures
        r == launch_key_spec(code),
{
    match code {
        Key::Char('r') | Key::Enter => LaunchDialogAction::Resume,
        Key::Char('n') | Key::Esc => LaunchDialogAction::NewGame,
        _ => LaunchDialogAction::Nothing,
    }
}

/// The action [`launch_dialog_key_focused`] maps a key to.
pub open spec fn launch_focused_spec(code: Key, focus: usize) -> LaunchDialogAction {
    if code == Key::Esc || code == Key::Char('n') {
        LaunchDialogAction::NewGame
    } else if code == Key::Char('r') {
        LaunchDialogAction::Resume
    } else if code == Key::Enter {
        if focus == 1 { LaunchDialogAction::NewGame } else { LaunchDialogAction::Resume }
    } else {
        LaunchDialogAction::Nothing
    }
}

/// Launch-dialog keys with button focus (0 = Resume, 1 = New game): Enter
/// activates the focused button; the accelerators stay.
pub fn launch_dialog_key_focused(code: Key, focus: usize) -> (r: LaunchDialogAction)
    ensures
        r == launch_focused_spec(code, focus),
{
    match code {
        Key::Esc => LaunchDialogAction::NewGame,
        Key::Char('r') => LaunchDialogAction::Resume,
        Key::Char('n') => LaunchDialogAction::NewGame,
        Key::Enter => match focus {
            1 => LaunchDialogAction::NewGame,
            _ => LaunchDialogAction::Resume,
        },
        _ => LaunchDialogAction::Nothing,
    }
}

/// Move a focus index `delta` steps round a ring of `n` slots.
pub open spec fn cycle_focus_spec(focus: int, n: int, delta: int) -> int {
    (focus + delta) % n
}

/// Move the focus `delta` steps round a ring of `n` slots, wrapping at both
/// ends.
pub fn cycle_focus(focus: usize, n: usize, delta: i64) -> (r: usize)
    requires
        n > 0,
    ensures
        r == cycle_focus_spec(focus as int, n as int, delta as int),
        r < n,
{
    let nn = n as u128;
    let f = (focus as u128) % nn;
    let magnitude: u128 = if delta >= 0 { delta as u128 } else { (0i128 - delta as i128) as u128 };
    let m = magnitude % nn;
    let r = if delta >= 0 {
        proof {
            lemma_add_mod_noop(focus as int, delta as int, n as int);
        }
        (f + m) % nn
    } else {
        proof {
            lemma_sub_mod_noop(focus as int, magnitude as int, n as int);
            lemma_mod_add_multiples_vanish(f - m, n as int);
        }
        (f + (nn - m)) % nn
    };
    r as usize
}

// ── Save-name dialog ─────────────────────────────────────────────────────────

/// A one-line text field as the contracts see it: its text and its caret,
/// counted in characters.
pub type FieldView = (Seq<char>, nat);

/// The caret at the start.
pub open spec fn field_home(f: FieldView) -> FieldView {
    (f.0, 0)
}

/// The caret at the end.
pub open spec fn field_end(f: FieldView) -> FieldView {
    (f.0, f.0.len())
}

/// The caret one character left, if it can go.
pub open spec fn field_left(f: FieldView) -> FieldView {
    (f.0, if f.1 > 0 { (f.1 - 1) as nat } else { 0 })
}

/// The caret one character right, if it can go.
pub open spec fn field_right(f: FieldView) -> FieldView {
    (f.0, if f.1 < f.0.len() { f.1 + 1 } else { f.1 })
}

/// The character before the caret removed, if there is one.
pub open spec fn field_backspace(f: FieldView) -> FieldView {
    if f.1 > 0 {
        (f.0.take(f.1 - 1) + f.0.skip(f.1 as int), (f.1 - 1) as nat)
    } else {
        f
    }
}

/// The character under the caret removed, if there is one.
pub open spec fn field_delete(f: FieldView) -> FieldView {
    if f.1 < f.0.len() {
        (f.0.take(f.1 as int) + f.0.skip(f.1 + 1int), f.1)
    } else {
        f
    }
}

/// `c` typed at the caret.
pub open spec fn field_insert(f: FieldView, c: char) -> FieldView {
    (f.0.take(f.1 as int).push(c) + f.0.skip(f.1 as int), f.1 + 1)
}

/// A one-line text field: its text and its caret, a character index no
/// greater than the text's length.
#[derive(Debug, Clone)]
pub struct TextField {
    pub value: String,
    pub cursor: usize,
}

impl TextField {
    /// The field's text and caret.
    pub open spec fn view_field(&self) -> FieldView {
        (self.value@, self.cursor as nat)
    }

    /// The caret lies within the text.
    pub open spec fn wf(&self) -> bool {
        self.cursor <= self.value@.len()
    }

    /// A field holding `value`, with the caret at its end.
    pub fn new(value: String) -> (f: TextField)
        ensures
            f.wf(),
            f.view_field() == field_end((value@, 0)),
    {
        let cursor = value.as_str().unicode_len();
        TextField { value, cursor }
    }

    /// The text's length in characters.
    pub fn char_len(&self) -> (n: usize)
        ensures
            n == self.value@.len(),
    {
        self.value.as_str().unicode_len()
    }

    pub fn home(&mut self)
        requires
            old(self).wf(),
        ensures
            final(self).wf(),
            final(self).view_field() == field_home(old(self).view_field()),
    {
        self.cursor = 0;
    }

    pub fn end(&mut self)
        requires
            old(self).wf(),
        ensures
            final(self).wf(),
            final(self).view_field() == field_end(old(self).view_field()),
    {
        self.cursor = self.char_len();
    }

    pub fn left(&mut self)
        requires
            old(self).wf(),
        ensures
            final(self).wf(),
            final(self).view_field() == field_left(old(self).view_field()),
    {
        if self.cursor > 0 {
            self.cursor = self.cursor - 1;
        }
    }

    pub fn right(&mut self)
        requires
            old(self).wf(),
        ensures
            final(self).wf(),
            final(self).view_field() == field_right(old(self).view_field()),
    {
        if self.cursor < self.char_len() {
            self.cursor = self.cursor + 1;
        }
    }

    pub fn backspace(&mut self)
        requires
            old(self).wf(),
        ensures
            final(self).wf(),
            final(self).view_field() == field_backspace(old(self).view_field()),
    {
        if self.cursor > 0 {
            let n = self.char_len();
            let s = self.value.as_str();
            let mut v = String::from_str(s.substring_char(0, self.cursor - 1));
            push_str(&mut v, s.substring_char(self.cursor, n));
            assert(v@ =~= self.value@.take(self.cursor - 1) + self.value@.skip(self.cursor as int));
            self.value = v;
            self.cursor = self.cursor - 1;
        }
    }

    pub fn delete(&mut self)
        requires
            old(self).wf(),
        ensures
            final(self).wf(),
            final(self).view_field() == field_delete(old(self).view_field()),
    {
        let n = self.char_len();
        if self.cursor < n {
            let s = self.value.as_str();
            let mut v = String::from_str(s.substring_char(0, self.cursor));
            push_str(&mut v, s.substring_char(self.cursor + 1, n));
            assert(v@ =~= self.value@.take(self.cursor as int) + self.value@.skip(self.cursor + 1));
            self.value = v;
        }
    }

    pub fn insert(&mut self, c: char)
        requires
            old(self).wf(),
            old(self).value@.len() < usize::MAX,
        ensures
            final(self).wf(),
            final(self).view_field() == field_insert(old(self).view_field(), c),
    {
        let n = self.char_len();
        let s = self.value.as_str();
        let mut v = String::from_str(s.substring_char(0, self.cursor));
        push_char(&mut v, c);
        push_str(&mut v, s.substring_char(self.cursor, n));
        assert(v@ =~= self.value@.take(self.cursor as int).push(c) + self.value@.skip(self.cursor as int));
        self.value = v;
        self.cursor = self.cursor + 1;
    }

    /// Empty the field.
    pub fn clear(&mut self)
        ensures
            final(self).wf(),
            final(self).view_field() == (Seq::<char>::empty(), 0nat),
    {
        self.value = String::new();
        self.cursor = 0;
    }
}

/// The save-name dialog: the name field, and whether it is being edited
/// (`active`) or still shows the proposed default as a greyed placeholder.
#[derive(Debug, Clone)]
pub struct SaveNameDialog {
    pub field: TextField,
    pub active: bool,
}

impl SaveNameDialog {
    /// A dialog proposing `default_name`, caret at its end.
    pub fn new(default_name: String, active: bool) -> (d: SaveNameDialog)
        ensures
            d.field.wf(),
            d.field.view_field() == field_end((default_name@, 0)),
            d.active == active,
    {
        SaveNameDialog { field: TextField::new(default_name), active }
    }
}

/// What a key press resolves to in the save-name dialog.
#[derive(Debug, Clone, Copy, PartialEq, Eq)]
pub enum SaveNameAction {
    /// The key does nothing beyond editing or moving the focus.
    Nothing,
    Save,
    Cancel,
}

/// One key in the save-name dialog, over the focus ring 0 = name field,
/// 1 = Save, 2 = Cancel: the action, the field, whether it is being edited,
/// and the new focus.
///
/// On the field, Esc cancels; Enter saves, except that an emptied field in
/// edit mode reverts to the placeholder; BackTab wraps to Cancel; Tab moves to
/// Save in edit mode and otherwise adopts the placeholder for editing without
/// moving; the caret keys and Backspace/Delete adopt the placeholder first;
/// typing on the placeholder starts a fresh name. On a button, Esc cancels,
/// Enter and Space activate it, Tab/Right and BackTab/Left cycle the focus.
pub open spec fn save_name_next(code: Key, f: FieldView, active: bool, focus: int) -> (
    SaveNameAction,
    FieldView,
    bool,
    int,
) {
    let adopted = if active { f } else { field_end(f) };
    if focus == 0 {
        match code {
            Key::Esc => (SaveNameAction::Cancel, f, active, focus),
            Key::Enter => if active && f.0.len() == 0 {
                (SaveNameAction::Nothing, f, false, focus)
            } else {
                (SaveNameAction::Save, f, active, focus)
            },
            Key::BackTab => (SaveNameAction::Nothing, f, active, 2),
            Key::Tab => if active {
                (SaveNameAction::Nothing, f, active, 1)
            } else {
                (SaveNameAction::Nothing, field_end(f), true, focus)
            },
            Key::Right => (SaveNameAction::Nothing, if active { field_right(f) } else { field_end(f) }, true, focus),
            Key::Left => (SaveNameAction::Nothing, field_left(adopted), true, focus),
            Key::Home => (SaveNameAction::Nothing, field_home(f), true, focus),
            Key::End => (SaveNameAction::Nothing, field_end(f), true, focus),
            Key::Backspace => (SaveNameAction::Nothing, field_backspace(adopted), true, focus),
            Key::Delete => (SaveNameAction::Nothing, field_delete(adopted), true, focus),
            Key::Char(c) => (
                SaveNameAction::Nothing,
                field_insert(if active { f } else { (Seq::empty(), 0nat) }, c),
                true,
                focus,
            ),
            _ => (SaveNameAction::Nothing, f, active, focus),
        }
    } else {
        match code {
            Key::Esc => (SaveNameAction::Cancel, f, active, focus),
            Key::Enter | Key::Char(' ') => (
                if focus == 1 { SaveNameAction::Save } else { SaveNameAction::Cancel },
                f,
                active,
                focus,
            ),
            Key::Tab | Key::Right => (SaveNameAction::Nothing, f, active, cycle_focus_spec(focus, 3, 1)),
            Key::BackTab | Key::Left => (SaveNameAction::Nothing, f, active, cycle_focus_spec(focus, 3, -1)),
            _ => (SaveNameAction::Nothing, f, active, focus),
        }
    }
}

/// Apply one key to the save-name dialog (see [`save_name_next`]); returns
/// the resolved action and the new focus slot. Callers keep Ctrl/Alt-modified
/// characters away from it.
pub fn save_name_dialog_key(code: Key, dlg: &mut SaveNameDialog, focus: usize) -> (r: (SaveNameAction, usize))
    requires
        old(dlg).field.wf(),
        old(dlg).field.value@.len() < usize::MAX,
    ensures
        final(dlg).field.wf(),
        (r.0, final(dlg).field.view_field(), final(dlg).active, r.1 as int)
            == save_name_next(code, old(dlg).field.view_field(), old(dlg).active, focus as int),
{
    if focus == 0 {
        match code {
            Key::Esc => return (SaveNameAction::Cancel, focus),
            Key::Enter => {
                if dlg.active && dlg.field.char_len() == 0 {
                    dlg.active = false;
                    return (SaveNameAction::Nothing, focus);
                }
                return (SaveNameAction::Save, focus);
            },
            Key::BackTab => return (SaveNameAction::Nothing, 2),
            Key::Tab => {
                if dlg.active {
                    return (SaveNameAction::Nothing, 1);
                }
                dlg.active = true;
                dlg.field.end();
            },
            Key::Right => {
                if dlg.active {
                    dlg.field.right();
                } else {
                    dlg.active = true;
                    dlg.field.end();
                }
            },
            Key::Left => {
                if !dlg.active {
                    dlg.active = true;
                    dlg.field.end();
                }
                dlg.field.left();
            },
            Key::Home => {
                dlg.active = true;
                dlg.field.home();
            },
            Key::End => {
                dlg.active = true;
                dlg.field.end();
            },
            Key::Backspace => {
                if !dlg.active {
                    dlg.active = true;
                    dlg.field.end();
                }
                dlg.field.backspace();
            },
            Key::Delete => {
                if !dlg.active {
                    dlg.active = true;
                    dlg.field.end();
                }
                dlg.field.delete();
            },
            Key::Char(c) => {
                if dlg.active {
                    dlg.field.insert(c);
                } else {
                    dlg.field.clear();
                    dlg.field.insert(c);
                    dlg.active = true;
                }
            },
            _ => {},
        }
        (SaveNameAction::Nothing, focus)
    } else {
        match code {
            Key::Esc => (SaveNameAction::Cancel, focus),
            Key::Enter | Key::Char(' ') => {
                if focus == 1 {
                    (SaveNameAction::Save, focus)
                } else {
                    (SaveNameAction::Cancel, focus)
                }
            },
            Key::Tab | Key::Right => (SaveNameAction::Nothing, cycle_focus(focus, 3, 1)),
            Key::BackTab | Key::Left => (SaveNameAction::Nothing, cycle_focus(focus, 3, -1)),
            _ => (SaveNameAction::Nothing, focus),
        }
    }
}

} // verus!
