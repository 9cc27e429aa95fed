//! The decisions around a turn that the game suspends to ask for a file: an
//! in-game SAVE or RESTORE, or a `create_by_prompt` file name. The run loop
//! opens the dialogs and resumes the machine; these functions decide which.

use vstd::prelude::*;

verus! {

/// The file operation a game suspended its turn on.
#[derive(Debug, Clone, Copy, PartialEq, Eq, Structural)]
pub enum PendingIo {
    Save,
    Restore,
}

/// What follows a turn once its output is shown.
#[derive(Debug, Clone, Copy, PartialEq, Eq, Structural)]
pub enum TurnFollowUp {
    /// The game suspended on a SAVE or RESTORE: open the saves dialog for it
    /// and hold the bookkeeping until the turn resumes.
    AwaitSaves(PendingIo),
    /// The game asked for a file name: open the file-name modal and hold the
    /// bookkeeping until the turn resumes.
    AwaitFileName,
    /// The turn is complete: run the post-turn bookkeeping.
    Bookkeeping,
}

/// What follows a turn: a suspended SAVE/RESTORE first, then a file-name
/// request, else the bookkeeping.
pub open spec fn turn_follow_up_spec(pending_io: Option<PendingIo>, file_name_requested: bool) -> TurnFollowUp {
    match pending_io {
        Some(io) => TurnFollowUp::AwaitSaves(io),
        None => if file_name_requested {
            TurnFollowUp::AwaitFileName
        } else {
            TurnFollowUp::Bookkeeping
        },
    }
}

/// Decide what follows a turn (a typed command's, or one resumed after a file
/// operation).
pub fn turn_follow_up(pending_io: Option<PendingIo>, file_name_requested: bool) -> (f: TurnFollowUp)
    ensures
        f == turn_follow_up_spec(pending_io, file_name_requested),
{
    match pending_io {
        Some(io) => TurnFollowUp::AwaitSaves(io),
        None => if file_name_requested {
            TurnFollowUp::AwaitFileName
        } else {
            TurnFollowUp::Bookkeeping
        },
    }
}

/// How a suspended in-game SAVE or RESTORE is settled on this pass of the loop.
#[derive(Debug, Clone, Copy, PartialEq, Eq, Structural)]
pub enum InGameResolution {
    /// Still waiting: its dialog is open.
    Wait,
    /// The save dialog wrote (or failed to write) the file: resume the SAVE
    /// with that outcome.
    ResumeSave { wrote_ok: bool },
    /// Its dialog closed without a confirm: resume the SAVE as failed and say
    /// it was cancelled.
    CancelSave,
    /// Its dialog closed without a choice: resume the RESTORE with nothing and
    /// say it was cancelled.
    CancelRestore,
}

/// The settlement of a suspended in-game file operation: a confirmed save
/// resumes with its outcome; a pending request whose dialog (the save-name
/// dialog for a SAVE, the saves list for a RESTORE) has closed is cancelled;
/// otherwise the loop waits.
pub open spec fn ingame_resolution_spec(
    confirmed_save: Option<bool>,
    pending: Option<PendingIo>,
    save_name_open: bool,
    saves_open: bool,
) -> InGameResolution {
    match confirmed_save {
        Some(ok) => InGameResolution::ResumeSave { wrote_ok: ok },
        None => match pending {
            Some(PendingIo::Save) => if save_name_open {
                InGameResolution::Wait
            } else {
                InGameResolution::CancelSave
            },
            Some(PendingIo::Restore) => if saves_open {
                InGameResolution::Wait
            } else {
                InGameResolution::CancelRestore
            },
            None => InGameResolution::Wait,
        },
    }
}

/// Decide how a suspended in-game SAVE or RESTORE is settled. A request is
/// never left waiting behind a closed dialog.
pub fn ingame_resolution(
    confirmed_save: Option<bool>,
    pending: Option<PendingIo>,
    save_name_open: bool,
    saves_open: bool,
) -> (r: InGameResolution)
    ensures
        r == ingame_resolution_spec(confirmed_save, pending, save_name_open, saves_open),
        r == InGameResolution::Wait && pending == Some(PendingIo::Save) ==> save_name_open,
        r == InGameResolution::Wait && pending == Some(PendingIo::Restore) ==> saves_open,
{
    match confirmed_save {
        Some(ok) => InGameResolution::ResumeSave { wrote_ok: ok },
        None => match pending {
            Some(PendingIo::Save) => if save_name_open {
                InGameResolution::Wait
            } else {
                InGameResolution::CancelSave
            },
            Some(PendingIo::Restore) => if saves_open {
                InGameResolution::Wait
            } else {
                InGameResolution::CancelRestore
            },
            None => InGameResolution::Wait,
        },
    }
}

/// How a suspended `create_by_prompt` file-name request is settled.
#[derive(Debug, Clone, PartialEq, Eq)]
pub enum FileNameResolution {
    /// Still waiting: the name prompt or the file picker is open.
    Wait,
    /// The player chose (`Some` name) or declined (`None`): resume with it.
    Resume(Option<String>),
    /// The modal closed without a choice: resume with no file and say it was
    /// cancelled.
    Cancel,
}

/// Decide how a file-name request is settled: a submitted choice resumes the
/// game with it; a request still pending with neither the name prompt nor the
/// picker open is cancelled; otherwise the loop waits.
pub fn file_name_resolution(
    submitted: Option<Option<String>>,
    request_pending: bool,
    name_prompt_open: bool,
    picker_open: bool,
) -> (r: FileNameResolution)
    ensures
        match submitted {
            Some(choice) => r == FileNameResolution::Resume(choice),
            None => if request_pending && !name_prompt_open && !picker_open {
                r == FileNameResolution::Cancel
            } else {
                r == FileNameResolution::Wait
            },
        },
{
    match submitted {
        Some(choice) => FileNameResolution::Resume(choice),
        None => if request_pending && !name_prompt_open && !picker_open {
            FileNameResolution::Cancel
        } else {
            FileNameResolution::Wait
        },
    }
}

/// The notice shown when a file operation is cancelled by closing its dialog.
pub fn cancel_notice(file_name_request: bool) -> (s: &'static str)
    ensures
        s@ == if file_name_request {
            "[create_by_prompt cancelled]"@
        } else {
            "[In-game save/restore cancelled]"@
        },
{
    if file_name_request {
        "[create_by_prompt cancelled]"
    } else {
        "[In-game save/restore cancelled]"
    }
}

} // verus!
