use std::path::PathBuf;

use babelmap::command_status::{
    filter_status, find_named_save, load_map_status, load_status, reset_status, save_status, search_pane_rows,
    search_status, transcript_export_status, LoadOutcome, TranscriptFilter,
};
use babelmap::persist::SaveInfo;

fn save(name: &str, is_default: bool) -> SaveInfo {
    SaveInfo {
        path: PathBuf::from(format!("/g/{name}.babelmap")),
        name: name.to_string(),
        turns: 3,
        saved_at: String::new(),
        is_default,
    }
}

#[test]
fn save_status_lines() {
    assert_eq!(save_status(Some("slot a"), None), "saved as \"slot a\"");
    assert_eq!(save_status(None, None), "saved");
    assert_eq!(save_status(Some("x"), Some("disk full")), "save failed: disk full");
    assert_eq!(save_status(None, Some("denied")), "save failed: denied");
}

#[test]
fn find_named_save_ignores_case_and_default_slot() {
    let saves = vec![save("(default)", true), save("Troll", false), save("troll", false), save("attic", false)];
    assert_eq!(find_named_save(&saves, "TROLL"), Some(1));
    assert_eq!(find_named_save(&saves, "attic"), Some(3));
    assert_eq!(find_named_save(&saves, "(default)"), None);
    assert_eq!(find_named_save(&saves, "cellar"), None);
    assert_eq!(find_named_save(&Vec::new(), "x"), None);
}

#[test]
fn load_and_map_status_lines() {
    assert_eq!(load_status(&LoadOutcome::NotFound), "load failed: no save found with that name");
    assert_eq!(load_status(&LoadOutcome::Restored), "restored");
    assert_eq!(load_status(&LoadOutcome::Loaded), "loaded");
    assert_eq!(load_status(&LoadOutcome::Failed("bad archive".to_string())), "load failed: bad archive");
    assert_eq!(load_map_status("/m/map.json", true), "loaded map: /m/map.json");
    assert_eq!(load_map_status("/m/map.json", false), "load-map failed: /m/map.json");
}

#[test]
fn reset_status_notes_what_went() {
    assert_eq!(reset_status(false, false), "reset");
    assert_eq!(reset_status(true, false), "reset (map cleared)");
    assert_eq!(reset_status(false, true), "reset (data deleted)");
    assert_eq!(reset_status(true, true), "reset (map cleared) (data deleted)");
}

#[test]
fn search_reports() {
    assert_eq!(search_status(false, 0), "search: no previous search");
    assert_eq!(search_status(true, 0), "search: no matches");
    assert_eq!(search_status(true, 1), "search: 1 match");
    assert_eq!(search_status(true, 12), "search: 12 matches");
    assert_eq!(search_pane_rows(0), 24);
    assert_eq!(search_pane_rows(40), 40);
}

#[test]
fn filter_and_export_status_lines() {
    assert_eq!(filter_status(TranscriptFilter::Both), "filter: both");
    assert_eq!(filter_status(TranscriptFilter::Story), "filter: story");
    assert_eq!(filter_status(TranscriptFilter::Meta), "filter: meta");
    assert_eq!(transcript_export_status(Ok("/g/transcript.txt")), "exported: /g/transcript.txt");
    assert_eq!(transcript_export_status(Err("read-only")), "export failed: read-only");
}
