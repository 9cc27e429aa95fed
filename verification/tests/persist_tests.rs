use babelmap::calendar::{days_to_ymd, rfc3339_from_secs};
use babelmap::persist::{
    combined_saves, game_save_info, is_game_save, is_reserved_slug, named_save_file, order_saves, rfc3339_now,
    save_state_info, slugify, SaveInfo, SaveNameError,
};
use std::path::PathBuf;

fn info(name: &str, ts: &str, is_default: bool) -> SaveInfo {
    SaveInfo {
        path: PathBuf::from(format!("/saves/{name}")),
        name: name.to_string(),
        turns: 0,
        saved_at: ts.to_string(),
        is_default,
    }
}

#[test]
fn slugify_produces_fs_safe_names() {
    assert_eq!(slugify("Before Troll"), "before-troll");
    assert_eq!(slugify("  hello  world  "), "hello-world");
    assert_eq!(slugify("CAPS and Symbols!!"), "caps-and-symbols");
    assert_eq!(slugify("a--b"), "a-b");
    assert_eq!(slugify("   "), "");
}

#[test]
fn rfc3339_now_looks_like_timestamp() {
    let ts = rfc3339_now();
    assert_eq!(ts.len(), 20, "expected 20-char RFC3339 timestamp, got '{ts}'");
    assert!(ts.ends_with('Z'), "should end with Z");
    assert!(ts.contains('T'), "should contain T separator");
    let year: u32 = ts[0..4].parse().unwrap();
    assert!(year >= 2024, "year {year} looks wrong");
}

#[test]
fn load_missing_is_none_for_a_non_archive_name() {
    assert!(save_state_info(PathBuf::from("/s/notes.txt"), "notes.txt", None, 3, String::new()).is_none());
}

// ── Further cases ─────────────────────────────────────────────────────────────

#[test]
fn rfc3339_of_known_instants() {
    assert_eq!(rfc3339_from_secs(0), "1970-01-01T00:00:00Z");
    assert_eq!(rfc3339_from_secs(951_782_400), "2000-02-29T00:00:00Z");
    assert_eq!(rfc3339_from_secs(1_783_512_000), "2026-07-08T12:00:00Z");
    assert_eq!(days_to_ymd(0), (1970, 1, 1));
    assert_eq!(days_to_ymd(11_016), (2000, 2, 29));
    assert_eq!(days_to_ymd(11_017), (2000, 3, 1));
}

#[test]
fn named_saves_reject_empty_and_reserved_names() {
    assert_eq!(named_save_file("Before Troll", ".qzl"), Ok("before-troll.qzl".to_string()));
    assert_eq!(named_save_file("!!!", ".qzl"), Err(SaveNameError::Empty));
    assert_eq!(named_save_file("Default", ".babelmap"), Err(SaveNameError::Reserved));
    assert_eq!(SaveNameError::Reserved.message(), "\"default\" is a reserved save name");
    assert_eq!(SaveNameError::Empty.message(), "save name is empty after sanitization");
    assert!(is_reserved_slug("default"));
    assert!(!is_reserved_slug("defaults"));
}

#[test]
fn only_qzl_is_a_game_save() {
    assert!(is_game_save("/g/slot1.qzl"));
    assert!(!is_game_save("/g/slot1.babelmap"));
    assert!(!is_game_save("/g/qzl"));
    assert!(!is_game_save("/g/slot1.QZL.bak"));
}

#[test]
fn listing_rows_are_named_from_the_file() {
    let d = save_state_info(PathBuf::from("/s/default.babelmap"), "default.babelmap", Some("x".into()), 7, "t".into()).unwrap();
    assert_eq!((d.name.as_str(), d.is_default, d.turns), ("(default)", true, 7));
    let n = save_state_info(PathBuf::from("/s/troll.babelmap"), "troll.babelmap", None, 2, "t".into()).unwrap();
    assert_eq!((n.name.as_str(), n.is_default), ("troll", false));
    let m = save_state_info(PathBuf::from("/s/troll.babelmap"), "troll.babelmap", Some("Before Troll".into()), 2, "t".into()).unwrap();
    assert_eq!(m.name, "Before Troll");
    let g = game_save_info(PathBuf::from("/s/slot1.qzl"), "slot1.qzl", "2026-01-01T00:00:00Z".into()).unwrap();
    assert_eq!((g.name.as_str(), g.turns, g.is_default), ("slot1", 0, false));
    assert!(game_save_info(PathBuf::from("/s/slot1.babelmap"), "slot1.babelmap", String::new()).is_none());
}

#[test]
fn the_default_slot_leads_when_asked_and_the_rest_go_newest_first() {
    let v = vec![
        info("b", "2026-01-02T00:00:00Z", false),
        info("(default)", "2025-01-01T00:00:00Z", true),
        info("a", "2026-03-01T00:00:00Z", false),
    ];
    let out = order_saves(v.clone(), true);
    let names: Vec<&str> = out.iter().map(|s| s.name.as_str()).collect();
    assert_eq!(names, vec!["(default)", "a", "b"]);
    let out2 = order_saves(v, false);
    let names2: Vec<&str> = out2.iter().map(|s| s.name.as_str()).collect();
    assert_eq!(names2, vec!["a", "b", "(default)"]);
}

#[test]
fn combined_saves_merges_both_kinds() {
    let states = vec![info("s1", "2026-01-01T00:00:00Z", false)];
    let games = vec![info("g1", "2026-02-01T00:00:00Z", false), info("g0", "", false)];
    let out = combined_saves(states, games);
    let names: Vec<&str> = out.iter().map(|s| s.name.as_str()).collect();
    assert_eq!(names, vec!["g1", "s1", "g0"]);
}

#[test]
fn combined_saves_put_save_states_first_on_a_tie() {
    let ts = "2026-03-01T10:00:00Z";
    let states = vec![info("s1", ts, false), info("s2", ts, false)];
    let games = vec![info("g1", ts, false), info("g2", "2026-04-01T00:00:00Z", false)];
    let out = combined_saves(states, games);
    let names: Vec<&str> = out.iter().map(|s| s.name.as_str()).collect();
    assert_eq!(names, vec!["g2", "s1", "s2", "g1"]);
}

#[test]
fn game_save_extension_rule() {
    assert!(is_game_save("slot.qzl"));
    assert!(is_game_save("a/b.c/slot.qzl"));
    assert!(!is_game_save(".qzl"), "a leading dot is no extension");
    assert!(is_game_save("slot.qzl/"), "std reads the file name past a trailing slash");
    assert!(!is_game_save("slot"));
    assert!(is_game_save("x.tar.qzl"));
}

#[test]
fn slugify_twice_changes_nothing() {
    for name in ["Before Troll", "  --a--b  ", "Ünïcode & 42!", ""] {
        let once = slugify(name);
        assert_eq!(slugify(&once), once);
    }
}
