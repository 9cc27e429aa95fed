//! What happens around writing or deleting a save: whether a submitted name is
//! written, and as what; what the player is told; and what the loop does next
//! (refresh the saves list, resume an in-game SAVE, reopen the dialog).

use vstd::prelude::*;
use crate::text::{push_str, str_eq, to_lowercase, trim, trim_spec, unicode_lowercase};

verus! {

/// What a submitted save name is written as.
#[derive(Debug, Clone, Copy, PartialEq, Eq, Structural)]
pub enum SaveTarget {
    /// The game's own SAVE: a bare game-save file.
    GameSave,
    /// A host Save State slot: a full archive.
    SaveState,
}

/// What to do with a name submitted in the save-name dialog.
#[derive(Debug, Clone, Copy, PartialEq, Eq, Structural)]
pub enum SaveAsPlan {
    /// The name is empty: say so, and reopen the dialog when the game is
    /// waiting on its SAVE.
    RejectEmpty { reopen: bool },
    /// Write the save.
    Write(SaveTarget),
}

/// The plan for a submitted name: an empty one is refused; otherwise an
/// in-game SAVE writes a game save and a host save writes a Save State.
pub open spec fn save_as_plan_spec(name: Seq<char>, ingame: bool) -> SaveAsPlan {
    if name.len() == 0 {
        SaveAsPlan::RejectEmpty { reopen: ingame }
    } else if ingame {
        SaveAsPlan::Write(SaveTarget::GameSave)
    } else {
        SaveAsPlan::Write(SaveTarget::SaveState)
    }
}

/// Decide what a submitted save name leads to.
pub fn save_as_plan(name: &str, ingame: bool) -> (p: SaveAsPlan)
    ensures
        p == save_as_plan_spec(name@, ingame),
{
    if name.unicode_len() == 0 {
        SaveAsPlan::RejectEmpty { reopen: ingame }
    } else if ingame {
        SaveAsPlan::Write(SaveTarget::GameSave)
    } else {
        SaveAsPlan::Write(SaveTarget::SaveState)
    }
}

/// The notice for an empty save name.
pub fn empty_name_notice() -> (s: &'static str)
    ensures
        s@ == "[Save name cannot be empty]"@,
{
    "[Save name cannot be empty]"
}

/// What follows an attempt to write a save.
#[derive(Debug, Clone, PartialEq, Eq)]
pub struct SaveAsOutcome {
    /// The notice shown to the player.
    pub notice: String,
    /// The game's progress now has a save (a host Save State was written).
    pub progress_saved: bool,
    /// Reread the saves list, if it is open.
    pub refresh_list: bool,
    /// Resume the game's suspended SAVE as successful.
    pub resume_save: bool,
    /// Reopen the save-name dialog so the player can retry the game's SAVE.
    pub reopen_dialog: bool,
}

/// The outcome of writing the save named `name` (an in-game SAVE when
/// `ingame`), which failed with `error` if it is `Some`: on success, "Saved
/// as", the list refreshed, and either the progress marked saved (host) or the
/// game's SAVE resumed (in-game); on failure, "Save failed" and, in-game, the
/// dialog reopened.
pub open spec fn save_as_outcome_spec(name: Seq<char>, ingame: bool, error: Option<Seq<char>>) -> (
    Seq<char>,
    bool,
    bool,
    bool,
    bool,
) {
    match error {
        None => ("[Saved as: "@ + name + "]"@, !ingame, true, ingame, false),
        Some(e) => ("[Save failed: "@ + e + "]"@, false, false, false, ingame),
    }
}

/// Settle a save-name submission after the write.
pub fn save_as_outcome(name: &str, ingame: bool, error: Option<&str>) -> (o: SaveAsOutcome)
    ensures
        (o.notice@, o.progress_saved, o.refresh_list, o.resume_save, o.reopen_dialog) == save_as_outcome_spec(
            name@,
            ingame,
            match error {
                Some(e) => Some(e@),
                None => None,
            },
        ),
{
    let mut notice = String::new();
    match error {
        None => {
            push_str(&mut notice, "[Saved as: ");
            push_str(&mut notice, name);
            push_str(&mut notice, "]");
            SaveAsOutcome {
                notice,
                progress_saved: !ingame,
                refresh_list: true,
                resume_save: ingame,
                reopen_dialog: false,
            }
        },
        Some(e) => {
            push_str(&mut notice, "[Save failed: ");
            push_str(&mut notice, e);
            push_str(&mut notice, "]");
            SaveAsOutcome {
                notice,
                progress_saved: false,
                refresh_list: false,
                resume_save: false,
                reopen_dialog: ingame,
            }
        },
    }
}

/// Whether the answer to "delete this save?" is yes: `y` or `yes`, trimmed
/// and lower-cased as `str::to_lowercase` does it.
pub open spec fn confirms_spec(answer: Seq<char>) -> bool {
    let a = unicode_lowercase(trim_spec(answer));
    a == "y"@ || a == "yes"@
}

/// Whether the typed answer confirms deleting a save.
pub fn delete_confirmed(answer: &str) -> (b: bool)
    ensures
        b == confirms_spec(answer@),
{
    let t = trim(answer);
    let a = to_lowercase(t.as_str());
    str_eq(a.as_str(), "y") || str_eq(a.as_str(), "yes")
}

/// The notice after the delete prompt: cancelled unless confirmed; else
/// deleted, or why the delete failed.
pub open spec fn delete_notice_spec(confirmed: bool, error: Option<Seq<char>>) -> Seq<char> {
    if !confirmed {
        "[Delete cancelled]"@
    } else {
        match error {
            None => "[Save deleted]"@,
            Some(e) => "[Delete failed: "@ + e + "]"@,
        }
    }
}

/// The notice that reports the delete prompt's outcome.
pub fn delete_notice(confirmed: bool, error: Option<&str>) -> (s: String)
    ensures
        s@ == delete_notice_spec(
            confirmed,
            match error {
                Some(e) => Some(e@),
                None => None,
            },
        ),
{
    let mut s = String::new();
    if !confirmed {
        push_str(&mut s, "[Delete cancelled]");
    } else {
        match error {
            None => push_str(&mut s, "[Save deleted]"),
            Some(e) => {
                push_str(&mut s, "[Delete failed: ");
                push_str(&mut s, e);
                push_str(&mut s, "]");
            },
        }
    }
    s
}

} // verus!
