use babelmap::keys::{Key, KeyPress, MOD_SHIFT};
use babelmap::launch_options::{
    belongs_to_story, derived_interpreter, interpreter_choices, interpreter_name, is_generic_archive_name,
    looks_like_art_name, normalize_ident, offered_art_files, parts_note, rendition_label, ArtCandidate, Flavour, InterpreterSource,
    LaunchOptionsAction, LaunchOptionsState, LaunchOverrides, Row, SidecarWrites,
};
use std::path::PathBuf;

fn k(code: Key) -> KeyPress {
    KeyPress::new(code, 0)
}

fn candidate(filename: &str, flavour: Flavour, rendition: &'static str) -> ArtCandidate {
    ArtCandidate {
        path: PathBuf::from(format!("/x/{filename}")),
        filename: filename.into(),
        flavour,
        rendition,
        pictures: 172,
        part: 1,
        parts: 1,
        space_width: 320,
    }
}

#[test]
fn art_names_are_recognised_but_bare_dot_data_is_not() {
    assert!(looks_like_art_name("zork0.mg1"));
    assert!(looks_like_art_name("ZORK0.EG1"));
    assert!(looks_like_art_name("arthur.cg2"));
    assert!(looks_like_art_name("zork0.pic"));
    assert!(looks_like_art_name("Pic.data"));
    assert!(looks_like_art_name("CPIC.DATA"));
    assert!(!looks_like_art_name("saved.data"));
    assert!(!looks_like_art_name("zork0.z6"));
    assert!(!looks_like_art_name("Zork0.blb"));
    assert!(!looks_like_art_name("notes"));
}

#[test]
fn an_archive_belongs_to_a_story_when_either_name_contains_the_other() {
    assert!(belongs_to_story("zork0-r393-s890714", "zork0", "zork0.mg1"));
    assert!(belongs_to_story("beyondzork-r57-s871221", "beyondzo", "beyondzo.mg1"));
    assert!(belongs_to_story("James Clavell's Shogun", "shogun", "shogun.mg1"));
    assert!(belongs_to_story("fmvpoker", "FMVPOKER", "FMVPOKER.EG1"));
    assert!(belongs_to_story("Beyond Zork - The Coconut of Quendor", "beyondzo", "beyondzo.mg1"));

    assert!(!belongs_to_story("zork0-r393-s890714", "arthur", "arthur.mg1"));
    assert!(!belongs_to_story("zork0-r393-s890714", "journey", "journey.mg1"));
    assert!(!belongs_to_story("zork0-r393-s890714", "FMVPOKER", "FMVPOKER.EG1"));

    assert!(!belongs_to_story("epic-adventure", "pic", "pic.mg1"));
    assert!(belongs_to_story("epic-adventure", "Pic", "Pic.data"));
    assert!(belongs_to_story("anything", "CPIC", "CPIC.DATA"));
}

#[test]
fn an_untouched_dialog_overrides_nothing() {
    let st = LaunchOptionsState::new("Story", PathBuf::from("/tmp/story.z6"), Vec::new(), None, None, Some(6), false);
    assert_eq!(st.overrides(), LaunchOverrides::default());
    assert!(st.overrides().is_empty());
}

#[test]
fn the_derived_interpreter_reports_its_provenance() {
    assert_eq!(derived_interpreter(Some(3), None, true, Some(6)), Some((3, InterpreterSource::Explicit)));
    assert_eq!(derived_interpreter(None, None, false, None), None);
    assert_eq!(derived_interpreter(None, None, true, Some(6)), Some((4, InterpreterSource::DiskImage)));
    assert_eq!(derived_interpreter(None, None, false, Some(6)), Some((6, InterpreterSource::Default)));
    assert_eq!(derived_interpreter(None, None, false, Some(5)), Some((1, InterpreterSource::Default)));
}

#[test]
fn picking_amiga_art_moves_the_machine_and_the_dialog_can_say_so() {
    let amiga = ArtCandidate {
        path: PathBuf::from("/x/Pic.data"),
        filename: "Pic.data".into(),
        flavour: Flavour::AmigaMac,
        rendition: "Amiga",
        pictures: 172,
        part: 1,
        parts: 1,
        space_width: 320,
    };
    let pc = ArtCandidate { flavour: Flavour::Pc, rendition: "MCGA", ..amiga.clone() };
    assert_eq!(derived_interpreter(None, Some(&amiga), false, Some(6)), Some((4, InterpreterSource::Artwork)));
    assert_eq!(derived_interpreter(None, Some(&pc), false, Some(6)), Some((6, InterpreterSource::Artwork)));
    assert_eq!(derived_interpreter(Some(6), Some(&amiga), false, Some(6)), Some((6, InterpreterSource::Explicit)));
}

#[test]
fn keys_follow_the_settings_screen_idiom() {
    let mut st = LaunchOptionsState::new("Story", PathBuf::from("/tmp/story.z6"), Vec::new(), None, None, Some(6), false);

    assert_eq!(st.row_count(), 3);
    assert_eq!(st.cursor, Row::Art(0));
    st.on_key(k(Key::Down));
    assert_eq!(st.cursor, Row::Interpreter);
    st.on_key(k(Key::Right));
    assert_eq!(st.interpreter, Some(1));
    st.on_key(k(Key::Left));
    assert_eq!(st.interpreter, None);
    st.on_key(k(Key::Char(' ')));
    assert_eq!(st.interpreter, Some(1), "Space advances the interpreter row");

    st.on_key(k(Key::Down));
    assert_eq!(st.cursor, Row::Persist);
    assert!(!st.persist);
    st.on_key(k(Key::Char(' ')));
    assert!(st.persist, "Space toggles the checkbox");
    st.on_key(k(Key::Char(' ')));
    assert!(!st.persist);

    st.on_key(k(Key::Down));
    assert_eq!(st.cursor, Row::Persist);
    st.on_key(k(Key::Home));
    assert_eq!(st.cursor, Row::Art(0));
    st.on_key(k(Key::End));
    assert_eq!(st.cursor, Row::Persist);

    assert_eq!(st.focus, 0);
    st.on_key(k(Key::Tab));
    assert_eq!(st.focus, 1);
    assert_eq!(st.on_key(k(Key::Enter)), LaunchOptionsAction::Cancel);
    st.on_key(KeyPress::new(Key::BackTab, MOD_SHIFT));
    assert_eq!(st.focus, 0);
    assert_eq!(st.on_key(k(Key::Enter)), LaunchOptionsAction::Play);
    assert_eq!(st.on_key(k(Key::Esc)), LaunchOptionsAction::Cancel);
}

// ── Further cases ─────────────────────────────────────────────────────────────

#[test]
fn selecting_a_candidate_produces_exactly_one_override() {
    let cands = vec![
        candidate("zork0.cg1", Flavour::Pc, "CGA"),
        candidate("zork0.mg1", Flavour::Pc, "MCGA"),
        candidate("zork0.pic", Flavour::AmigaMac, "Amiga"),
    ];
    let mut st = LaunchOptionsState::new("Zork Zero", PathBuf::from("/s/zork0.z6"), cands.clone(), None, None, Some(6), false);
    st.art = 2;
    let ov = st.overrides();
    assert_eq!(ov.pictures.as_deref(), Some("zork0.mg1"));
    assert_eq!(ov.interpreter_number, None);
    let st2 = LaunchOptionsState::new("Zork Zero", PathBuf::from("/s/zork0.z6"), cands, Some("ZORK0.MG1"), None, Some(6), false);
    assert_eq!(st2.art, 2, "the inherited archive is matched ignoring ASCII case");
    assert!(st2.overrides().is_empty());
}

#[test]
fn space_on_an_art_row_selects_it_and_left_right_leave_it() {
    let cands = vec![candidate("zork0.pic", Flavour::AmigaMac, "Amiga")];
    let mut st = LaunchOptionsState::new("Z", PathBuf::from("/s/zork0.z6"), cands, None, None, Some(6), false);
    assert_eq!(st.row_count(), 4);
    st.on_key(k(Key::Down));
    assert_eq!(st.cursor, Row::Art(1));
    st.on_key(k(Key::Right));
    assert_eq!(st.art, 0, "an art row is a radio button, not a cycler");
    st.on_key(KeyPress::new(Key::Char(' '), MOD_SHIFT));
    assert_eq!(st.art, 0, "a modified Space does nothing");
    st.on_key(k(Key::Char(' ')));
    assert_eq!(st.art, 1);
    assert_eq!(st.chosen_art().map(|c| c.filename.as_str()), Some("zork0.pic"));
    assert_eq!(st.derived(), Some((4, InterpreterSource::Artwork)));
    assert!(!st.clears_inherited_art());
    st.on_key(k(Key::Up));
    st.on_key(k(Key::Up));
    assert_eq!(st.cursor, Row::Art(0), "Up stops at the first row");
}

#[test]
fn the_interpreter_row_wraps_both_ways() {
    let mut st = LaunchOptionsState::new("S", PathBuf::from("/s/a.z5"), Vec::new(), None, Some(3), Some(5), false);
    st.set_cursor_index(1);
    assert_eq!(st.cursor, Row::Interpreter);
    st.on_key(k(Key::Left));
    st.on_key(k(Key::Left));
    st.on_key(k(Key::Left));
    assert_eq!(st.interpreter, None);
    st.on_key(k(Key::Left));
    assert_eq!(st.interpreter, Some(11), "Left from auto wraps to the last machine");
    st.on_key(k(Key::Right));
    assert_eq!(st.interpreter, None);
    assert!(st.clears_inherited_interpreter());
    assert_eq!(st.overrides().interpreter_number, None, "clearing cannot be an override");
    assert_eq!(interpreter_choices().len(), 12);
}

#[test]
fn names_labels_and_notes() {
    assert_eq!(interpreter_name(4), "Amiga");
    assert_eq!(interpreter_name(11), "Tandy Color");
    assert_eq!(interpreter_name(0), "?");
    assert_eq!(InterpreterSource::Default.label(), "default for this story");
    assert_eq!(rendition_label(Flavour::AmigaMac, 640, "x.pic"), "Amiga");
    assert_eq!(rendition_label(Flavour::Pc, 320, "x.eg1"), "MCGA");
    assert_eq!(rendition_label(Flavour::Pc, 640, "ZORK0.CG1"), "CGA");
    assert_eq!(rendition_label(Flavour::Pc, 640, "arthur.eg2"), "EGA");
    assert_eq!(rendition_label(Flavour::Pc, 640, "FMVPOKER.XYZ"), "EGA/CGA");
    let mut c = candidate("arthur.eg1", Flavour::Pc, "EGA");
    c.parts = 2;
    assert_eq!(parts_note(&c), "  2 disks");
    c.parts = 1;
    c.part = 2;
    assert_eq!(parts_note(&c), "  part 2");
    c.part = 1;
    assert_eq!(parts_note(&c), "");
    assert_eq!(normalize_ident("Beyond Zork - The Coconut of Quendor"), "beyondzorkthecoconutofquendor");
    assert!(is_generic_archive_name("cPiC.dAtA"));
    assert!(!is_generic_archive_name("pic.dat"));
    assert!(c.caveat().is_none());
}

#[test]
fn selecting_an_archive_produces_exactly_one_override() {
    // Zork Zero's renditions, as discovery lists them beside the story.
    let candidates = || {
        vec![
            candidate("zork0.eg1", Flavour::Pc, "EGA"),
            candidate("zork0.mg1", Flavour::Pc, "MCGA"),
            candidate("ZORK0.CG1", Flavour::Pc, "CGA"),
        ]
    };
    let z0 = PathBuf::from("/stories/zork0-r393-s890714.z6");
    let mut st = LaunchOptionsState::new("Zork Zero", z0.clone(), candidates(), None, None, Some(6), false);
    let idx = st.candidates.iter().position(|c| c.filename.eq_ignore_ascii_case("zork0.mg1")).unwrap();
    st.art = idx + 1;
    let ov = st.overrides();
    assert_eq!(ov.pictures.as_deref(), Some("zork0.mg1"));
    assert_eq!(ov.interpreter_number, None, "an untouched interpreter row overrides nothing");
    // Seeding from that same sidecar value makes it the baseline, so the
    // dialog reopened on it overrides nothing at all.
    let st2 = LaunchOptionsState::new("Zork Zero", z0, candidates(), Some("zork0.mg1"), None, Some(6), false);
    assert_eq!(st2.art, idx + 1);
    assert!(st2.overrides().is_empty());
}

#[test]
fn offered_art_files_filter_by_name_and_sort_case_blind() {
    let f = |stem: &str, name: &str| (stem.to_string(), name.to_string());
    let files = vec![
        f("zork0", "zork0.mg1"),
        f("zork0-r393-s890714", "zork0-r393-s890714.z6"),
        f("ZORK0", "ZORK0.CG1"),
        f("arthur", "arthur.mg1"),
        f("zork0", "zork0.eg1"),
        f("notes", "notes.txt"),
        f("Pic", "Pic.data"),
    ];
    assert_eq!(
        offered_art_files("zork0-r393-s890714", &files),
        vec!["Pic.data", "ZORK0.CG1", "zork0.eg1", "zork0.mg1"]
    );
    assert!(offered_art_files("zork0", &Vec::new()).is_empty());
    // Names equal once lower-cased keep their directory order.
    let files = vec![f("ZORK0", "ZORK0.MG1"), f("zork0", "zork0.mg1")];
    assert_eq!(offered_art_files("zork0", &files), vec!["ZORK0.MG1", "zork0.mg1"]);
}

#[test]
fn the_checkbox_writes_only_changed_keys() {
    let cands = || vec![candidate("zork0.eg1", Flavour::Pc, "EGA"), candidate("zork0.mg1", Flavour::Pc, "MCGA")];
    let z0 = PathBuf::from("/stories/zork0.z6");
    // Untouched: nothing is written.
    let st = LaunchOptionsState::new("Zork Zero", z0.clone(), cands(), Some("zork0.mg1"), Some(3), Some(6), false);
    assert_eq!(st.sidecar_writes(), SidecarWrites { pictures: None, interpreter_number: None });
    // A new archive and interpreter are written.
    let mut st2 = LaunchOptionsState::new("Zork Zero", z0.clone(), cands(), Some("zork0.mg1"), Some(3), Some(6), false);
    st2.art = 1;
    st2.interpreter = Some(6);
    assert_eq!(
        st2.sidecar_writes(),
        SidecarWrites { pictures: Some(Some("zork0.eg1".to_string())), interpreter_number: Some(Some(6)) }
    );
    // Going back to "inherit" clears the key.
    let mut st3 = LaunchOptionsState::new("Zork Zero", z0, cands(), Some("zork0.mg1"), Some(3), Some(6), false);
    st3.art = 0;
    st3.interpreter = None;
    assert_eq!(st3.sidecar_writes(), SidecarWrites { pictures: Some(None), interpreter_number: Some(None) });
}
