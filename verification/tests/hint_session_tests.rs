use babelmap::hint_session::{hints_status, opening_lines, zip_entry_label, HintsUnavailable};
use babelmap::turns::{fault_lines, fault_log_record, fault_status, turn_beep, BeepKind};

#[test]
fn opening_lines_split_at_newlines() {
    assert_eq!(opening_lines("Welcome\nto the hints\n"), vec!["Welcome", "to the hints", ""]);
    assert_eq!(opening_lines(""), vec![""]);
    assert_eq!(opening_lines("one"), vec!["one"]);
    assert_eq!(opening_lines("\n\n"), vec!["", "", ""]);
}

#[test]
fn zip_entry_label_is_the_file_name() {
    assert_eq!(zip_entry_label("hints/zork1.hints.z5"), "zork1.hints.z5");
    assert_eq!(zip_entry_label("a/b/c"), "c");
    assert_eq!(zip_entry_label("plain.z5"), "plain.z5");
    assert_eq!(zip_entry_label("dir/"), "");
    assert_eq!(zip_entry_label(""), "");
}

#[test]
fn hints_status_lines() {
    assert_eq!(
        hints_status(&HintsUnavailable::VmFailed("BadHeader".to_string())),
        "hints: failed to load hint VM: BadHeader"
    );
    assert_eq!(
        hints_status(&HintsUnavailable::FileUnreadable("not found".to_string())),
        "hints: cannot read hint file: not found"
    );
    assert_eq!(hints_status(&HintsUnavailable::EntryMissing), "hints: hint entry not found in zip");
    assert_eq!(
        hints_status(&HintsUnavailable::EntryUnreadable("crc".to_string())),
        "hints: cannot read zip entry: crc"
    );
    assert_eq!(
        hints_status(&HintsUnavailable::AskUser),
        "no hint file found — place <story>.hints.z5 next to the story, or use /hints <path>"
    );
    assert_eq!(hints_status(&HintsUnavailable::NoHints), "no hints found");
}

#[test]
fn turn_beep_takes_the_latest_beep() {
    assert_eq!(turn_beep(&vec![]), None);
    assert_eq!(turn_beep(&vec![5, 7]), None);
    assert_eq!(turn_beep(&vec![1]), Some(BeepKind::High));
    assert_eq!(turn_beep(&vec![2, 9]), Some(BeepKind::Low));
    assert_eq!(turn_beep(&vec![2, 1, 9]), Some(BeepKind::High));
    assert_eq!(turn_beep(&vec![1, 2]), Some(BeepKind::Low));
}

#[test]
fn fault_lines_end_with_halt_note() {
    let lines = vec!["stack overflow".to_string(), "at pc 0x1234".to_string()];
    assert_eq!(fault_lines(&lines), vec!["stack overflow", "at pc 0x1234", "(game halted)"]);
    assert_eq!(fault_lines(&Vec::new()), vec!["(game halted)"]);
    assert_eq!(fault_status(), "VM fault — the game has halted; you can review the map/transcript or quit.");
}

#[test]
fn fault_log_record_text() {
    let fault = vec!["stack overflow".to_string(), "at pc 0x1234".to_string()];
    let diags = vec!["glk: bad stream".to_string()];
    assert_eq!(
        fault_log_record(&fault, &diags),
        "\n=== gvm runtime fault (game halted) ===\ndiag: glk: bad stream\nstack overflow\nat pc 0x1234\n"
    );
    assert_eq!(fault_log_record(&Vec::new(), &Vec::new()), "\n=== gvm runtime fault (game halted) ===\n");
}
