use babelmap::ingame_io::{
    cancel_notice, file_name_resolution, ingame_resolution, turn_follow_up, FileNameResolution, InGameResolution,
    PendingIo, TurnFollowUp,
};

#[test]
fn turn_follow_up_order() {
    assert_eq!(turn_follow_up(Some(PendingIo::Save), true), TurnFollowUp::AwaitSaves(PendingIo::Save));
    assert_eq!(turn_follow_up(Some(PendingIo::Restore), false), TurnFollowUp::AwaitSaves(PendingIo::Restore));
    assert_eq!(turn_follow_up(None, true), TurnFollowUp::AwaitFileName);
    assert_eq!(turn_follow_up(None, false), TurnFollowUp::Bookkeeping);
}

#[test]
fn ingame_save_or_restore_settles() {
    // A confirmed save resumes with its outcome, whatever else is open.
    assert_eq!(
        ingame_resolution(Some(true), Some(PendingIo::Save), true, false),
        InGameResolution::ResumeSave { wrote_ok: true }
    );
    assert_eq!(ingame_resolution(Some(false), None, false, false), InGameResolution::ResumeSave { wrote_ok: false });
    // A closed dialog cancels its request.
    assert_eq!(ingame_resolution(None, Some(PendingIo::Save), false, true), InGameResolution::CancelSave);
    assert_eq!(ingame_resolution(None, Some(PendingIo::Restore), true, false), InGameResolution::CancelRestore);
    // An open dialog waits; nothing pending waits.
    assert_eq!(ingame_resolution(None, Some(PendingIo::Save), true, false), InGameResolution::Wait);
    assert_eq!(ingame_resolution(None, Some(PendingIo::Restore), false, true), InGameResolution::Wait);
    assert_eq!(ingame_resolution(None, None, false, false), InGameResolution::Wait);
}

#[test]
fn file_name_request_settles() {
    assert_eq!(
        file_name_resolution(Some(Some("notes".to_string())), true, true, false),
        FileNameResolution::Resume(Some("notes".to_string()))
    );
    assert_eq!(file_name_resolution(Some(None), true, false, false), FileNameResolution::Resume(None));
    assert_eq!(file_name_resolution(None, true, false, false), FileNameResolution::Cancel);
    assert_eq!(file_name_resolution(None, true, true, false), FileNameResolution::Wait);
    assert_eq!(file_name_resolution(None, true, false, true), FileNameResolution::Wait);
    assert_eq!(file_name_resolution(None, false, false, false), FileNameResolution::Wait);
    assert_eq!(cancel_notice(true), "[create_by_prompt cancelled]");
    assert_eq!(cancel_notice(false), "[In-game save/restore cancelled]");
}
