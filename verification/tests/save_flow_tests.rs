use babelmap::save_flow::{
    delete_confirmed, delete_notice, empty_name_notice, save_as_outcome, save_as_plan, SaveAsPlan, SaveTarget,
};

#[test]
fn save_as_plan_by_name_and_origin() {
    assert_eq!(save_as_plan("", false), SaveAsPlan::RejectEmpty { reopen: false });
    assert_eq!(save_as_plan("", true), SaveAsPlan::RejectEmpty { reopen: true });
    assert_eq!(save_as_plan("before troll", true), SaveAsPlan::Write(SaveTarget::GameSave));
    assert_eq!(save_as_plan("before troll", false), SaveAsPlan::Write(SaveTarget::SaveState));
    // Only an empty name is refused; blanks are a name like any other.
    assert_eq!(save_as_plan(" ", false), SaveAsPlan::Write(SaveTarget::SaveState));
    assert_eq!(empty_name_notice(), "[Save name cannot be empty]");
}

#[test]
fn save_as_outcome_host_and_ingame() {
    let o = save_as_outcome("slot a", false, None);
    assert_eq!(o.notice, "[Saved as: slot a]");
    assert!(o.progress_saved && o.refresh_list && !o.resume_save && !o.reopen_dialog);

    let o = save_as_outcome("slot a", true, None);
    assert_eq!(o.notice, "[Saved as: slot a]");
    assert!(!o.progress_saved && o.refresh_list && o.resume_save && !o.reopen_dialog);

    let o = save_as_outcome("slot a", false, Some("disk full"));
    assert_eq!(o.notice, "[Save failed: disk full]");
    assert!(!o.progress_saved && !o.refresh_list && !o.resume_save && !o.reopen_dialog);

    let o = save_as_outcome("slot a", true, Some("disk full"));
    assert_eq!(o.notice, "[Save failed: disk full]");
    assert!(!o.progress_saved && !o.refresh_list && !o.resume_save && o.reopen_dialog);
}

#[test]
fn delete_prompt_answers() {
    assert!(delete_confirmed("y"));
    assert!(delete_confirmed(" YES "));
    assert!(delete_confirmed("Yes"));
    assert!(!delete_confirmed("n"));
    assert!(!delete_confirmed("yeah"));
    assert!(!delete_confirmed(""));
    assert_eq!(delete_notice(false, None), "[Delete cancelled]");
    assert_eq!(delete_notice(false, Some("x")), "[Delete cancelled]");
    assert_eq!(delete_notice(true, None), "[Save deleted]");
    assert_eq!(delete_notice(true, Some("denied")), "[Delete failed: denied]");
}
