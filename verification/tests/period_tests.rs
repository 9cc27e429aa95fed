use babelmap::period::{
    body_style, caret_cell, caret_over_text, painted, resolve, reversed, rgb, status_run_style, status_style,
    CellStyle, Color, CursorShape, PeriodLook, StatusBand,
};

fn amiga() -> PeriodLook {
    PeriodLook {
        ink: (255, 255, 255),
        page: (0, 85, 170),
        status: StatusBand::PerRun,
        cursor_shape: CursorShape::Block,
        cursor_colour: (255, 136, 0),
    }
}

fn mac() -> PeriodLook {
    PeriodLook {
        ink: (0, 0, 0),
        page: (255, 255, 255),
        status: StatusBand::Ruled,
        cursor_shape: CursorShape::Bar,
        cursor_colour: (0, 0, 0),
    }
}

fn c64() -> PeriodLook {
    PeriodLook {
        ink: (108, 94, 181),
        page: (53, 40, 121),
        status: StatusBand::FullReverse,
        cursor_shape: CursorShape::Underscore,
        cursor_colour: (108, 94, 181),
    }
}

fn c128() -> PeriodLook {
    PeriodLook {
        ink: (0, 255, 0),
        page: (0, 0, 0),
        status: StatusBand::Own { ground: (40, 40, 40), ink: (200, 200, 200) },
        cursor_shape: CursorShape::Underscore,
        cursor_colour: (0, 255, 0),
    }
}

#[test]
fn colour_arrives_with_version_five_and_the_look_stops_there() {
    let look = Some(amiga());
    for v in 1..=4 {
        assert!(resolve(look, true, true, Some(v)).is_some(), "v{v} is pre-colour");
    }
    for v in 5..=8 {
        assert!(resolve(look, true, true, Some(v)).is_none(), "v{v} states its own pair");
    }
    assert!(resolve(look, true, true, None).is_none());
    assert!(resolve(look, true, true, Some(0)).is_none());
}

#[test]
fn honor_game_colours_is_the_master_and_the_key_is_narrower() {
    let look = Some(amiga());
    assert!(resolve(look, true, false, Some(3)).is_none(), "colours off takes the look");
    assert!(resolve(look, false, true, Some(3)).is_none(), "and the key declines alone");
    assert!(resolve(look, true, true, Some(3)).is_some());
}

#[test]
fn an_unmeasured_machine_declines() {
    assert!(resolve(None, true, true, Some(3)).is_none());
}

#[test]
fn only_the_amiga_reverses_per_run() {
    let a = amiga();
    assert_eq!(status_style(&a), body_style(&a), "the page shows between the runs");
    let run = status_run_style(&a).expect("the Amiga reverses behind its text");
    assert_eq!(run.fg, Some(rgb(a.page)));
    assert_eq!(run.bg, Some(rgb(a.ink)));
    for look in [mac(), c64(), c128()] {
        assert!(status_run_style(&look).is_none(), "a uniform band");
    }
}

#[test]
fn the_macintosh_band_is_the_body_pair_with_a_rule_under_it() {
    let m = mac();
    let band = status_style(&m);
    assert_eq!((band.fg, band.bg), (body_style(&m).fg, body_style(&m).bg));
    assert!(band.underlined, "rules, not a ground");
}

#[test]
fn the_caret_draws_its_machines_shape_and_its_own_colour() {
    assert_eq!(caret_cell(&mac()).0, "▏");
    assert_eq!(caret_cell(&amiga()).0, " ");
    assert_eq!(caret_cell(&c128()).0, "▁");
    let a = amiga();
    let cell = caret_cell(&a).1;
    assert_eq!(cell.bg, Some(rgb(a.cursor_colour)));
    assert_ne!(cell.bg, Some(rgb(a.page)));
    assert_ne!(cell.bg, Some(rgb(a.ink)));
}

#[test]
fn a_caret_over_text_keeps_the_text_readable() {
    let c = c64();
    let over = caret_over_text(&c);
    assert!(over.underlined);
    assert_eq!(over.fg, Some(rgb(c.cursor_colour)));
    let m = mac();
    let over = caret_over_text(&m);
    assert!(!over.underlined, "a bar cannot go under a glyph");
    assert_eq!(over.bg, Some(rgb(m.cursor_colour)));
}

#[test]
fn a_full_reverse_band_swaps_the_body_pair() {
    let c = c64();
    let band = status_style(&c);
    assert_eq!(band.fg, Some(rgb(c.page)));
    assert_eq!(band.bg, Some(rgb(c.ink)));
    assert!(!band.underlined);
    let own = status_style(&c128());
    assert_eq!(own, CellStyle { fg: Some(Color::Rgb(200, 200, 200)), bg: Some(Color::Rgb(40, 40, 40)), underlined: false });
}

#[test]
fn reversing_an_unset_colour_gives_the_terminals_own() {
    let s = CellStyle { fg: None, bg: Some(Color::Rgb(1, 2, 3)), underlined: true };
    assert_eq!(reversed(s), CellStyle { fg: Some(Color::Rgb(1, 2, 3)), bg: Some(Color::Reset), underlined: false });
}

#[test]
fn painted_covers_the_story_pane_only() {
    let a = amiga();
    let p = painted(&a);
    assert_eq!(p.len(), 7);
    assert_eq!(p[0], ("transcript", "text", body_style(&a)));
    assert_eq!(p[6].0, "transcript_warning");
    assert_eq!(p[6].2, CellStyle { fg: None, bg: Some(rgb(a.page)), underlined: false });
}
