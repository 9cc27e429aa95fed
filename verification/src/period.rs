//! The period look: a story whose Z-machine format predates colour, painted
//! in its own machine's colours, and when a launch gets it.
//!
//! Colour arrives with the fifth format: an older story never sets, reads or
//! branches on a colour, so what is shown for it is presentation, while for a
//! newer story the pair on screen is a fact the story can read and must not be
//! touched. Game colours switched off take the look with them.
//!
//! A cell grid can show the machines' pixel measurements only as the glyph
//! that occupies the same part of a cell: `▏` for a one-pixel bar caret, `▁`
//! for a bottom-scanline underscore.

use vstd::prelude::*;

verus! {

/// An RGB triple.
pub type Rgb = (u8, u8, u8);

/// A terminal colour, as far as the period look uses one.
#[derive(Debug, Clone, Copy, PartialEq, Eq, Structural, Hash)]
pub enum Color {
    /// The terminal's own colour.
    Reset,
    Rgb(u8, u8, u8),
}

/// A cell style: foreground and background where set, and whether the cell is
/// underlined.
#[derive(Debug, Clone, Copy, PartialEq, Eq, Structural, Hash)]
pub struct CellStyle {
    pub fg: Option<Color>,
    pub bg: Option<Color>,
    pub underlined: bool,
}

/// How a machine set its status line apart.
#[derive(Debug, Clone, Copy, PartialEq, Eq, Hash)]
pub enum StatusBand {
    /// The whole band in the body pair reversed.
    FullReverse,
    /// The page as ground, each run of text reversed behind it (the Amiga).
    PerRun,
    /// A pair of its own.
    Own { ground: Rgb, ink: Rgb },
    /// The body pair with a rule under it (the Macintosh).
    Ruled,
}

/// The shape of a machine's input caret.
#[derive(Debug, Clone, Copy, PartialEq, Eq, Structural, Hash)]
pub enum CursorShape {
    /// A one-pixel bar between glyphs.
    Bar,
    /// A filled cell.
    Block,
    /// A bottom-scanline underscore.
    Underscore,
}

/// One machine's measured look: its body pair, status band, and caret.
#[derive(Debug, Clone, Copy, PartialEq, Eq, Hash)]
pub struct PeriodLook {
    pub ink: Rgb,
    pub page: Rgb,
    pub status: StatusBand,
    pub cursor_shape: CursorShape,
    pub cursor_colour: Rgb,
}

/// The colour of an RGB triple.
pub open spec fn rgb_spec(c: Rgb) -> Color {
    Color::Rgb(c.0, c.1, c.2)
}

/// A style with colours only.
pub open spec fn pair(fg: Color, bg: Color) -> CellStyle {
    CellStyle { fg: Some(fg), bg: Some(bg), underlined: false }
}

/// Whether a launch gets a period look: only when the look is enabled, game
/// colours are honoured, and the story's Z-machine format is one of the first
/// four; `look`
/// is the machine's own look, if it was ever measured. A story with no
/// version byte (Glulx, Scott Adams) declines.
pub fn resolve(look: Option<PeriodLook>, enabled: bool, honor_game_colours: bool, zversion: Option<u8>) -> (r:
    Option<PeriodLook>)
    ensures
        r == (if enabled && honor_game_colours && (zversion matches Some(v) && 1 <= v <= 4) {
            look
        } else {
            None
        }),
{
    if !enabled || !honor_game_colours {
        return None;
    }
    match zversion {
        Some(v) => {
            if 1 <= v && v <= 4 {
                look
            } else {
                None
            }
        },
        None => None,
    }
}

/// The colour of an RGB triple.
pub fn rgb(c: Rgb) -> (r: Color)
    ensures
        r == rgb_spec(c),
{
    Color::Rgb(c.0, c.1, c.2)
}

/// The machine's body pair: its ink over its page.
pub fn body_style(look: &PeriodLook) -> (s: CellStyle)
    ensures
        s == pair(rgb_spec(look.ink), rgb_spec(look.page)),
{
    CellStyle { fg: Some(rgb(look.ink)), bg: Some(rgb(look.page)), underlined: false }
}

/// A style's colours swapped, an unset colour becoming the terminal's own;
/// nothing else is kept.
pub open spec fn reversed_spec(s: CellStyle) -> CellStyle {
    CellStyle {
        fg: Some(
            match s.bg {
                Some(c) => c,
                None => Color::Reset,
            },
        ),
        bg: Some(
            match s.fg {
                Some(c) => c,
                None => Color::Reset,
            },
        ),
        underlined: false,
    }
}

/// Swap a style's colours.
pub fn reversed(s: CellStyle) -> (r: CellStyle)
    ensures
        r == reversed_spec(s),
{
    CellStyle {
        fg: Some(
            match s.bg {
                Some(c) => c,
                None => Color::Reset,
            },
        ),
        bg: Some(
            match s.fg {
                Some(c) => c,
                None => Color::Reset,
            },
        ),
        underlined: false,
    }
}

/// The status band's base style, what the whole row is filled with: the body
/// pair reversed, the body pair itself (per-run bands reverse each run
/// instead), the band's own pair, or the body pair underlined as the rule.
pub open spec fn status_style_spec(look: PeriodLook) -> CellStyle {
    let body = pair(rgb_spec(look.ink), rgb_spec(look.page));
    match look.status {
        StatusBand::FullReverse => reversed_spec(body),
        StatusBand::PerRun => body,
        StatusBand::Own { ground, ink } => pair(rgb_spec(ink), rgb_spec(ground)),
        StatusBand::Ruled => CellStyle { underlined: true, ..body },
    }
}

/// The status band's base style.
pub fn status_style(look: &PeriodLook) -> (s: CellStyle)
    ensures
        s == status_style_spec(*look),
{
    let body = body_style(look);
    match look.status {
        StatusBand::FullReverse => reversed(body),
        StatusBand::PerRun => body,
        StatusBand::Own { ground, ink } => CellStyle { fg: Some(rgb(ink)), bg: Some(rgb(ground)), underlined: false },
        StatusBand::Ruled => CellStyle { underlined: true, ..body },
    }
}

/// The style of one run of status text on a per-run band (the body pair
/// reversed), or `None` when the band's base style already says it all.
pub fn status_run_style(look: &PeriodLook) -> (r: Option<CellStyle>)
    ensures
        r == (if look.status == StatusBand::PerRun {
            Some(reversed_spec(pair(rgb_spec(look.ink), rgb_spec(look.page))))
        } else {
            None
        }),
{
    match look.status {
        StatusBand::PerRun => Some(reversed(body_style(look))),
        _ => None,
    }
}

/// The caret at the end of the input line, where the cell is empty: the bar
/// as `▏` and the underscore as `▁` in the cursor's colour over the page, the
/// block as a space with the cursor's colour as its ground.
pub open spec fn caret_cell_spec(look: PeriodLook) -> (Seq<char>, CellStyle) {
    let colour = rgb_spec(look.cursor_colour);
    let page = rgb_spec(look.page);
    match look.cursor_shape {
        CursorShape::Bar => ("▏"@, pair(colour, page)),
        CursorShape::Block => (" "@, pair(page, colour)),
        CursorShape::Underscore => ("▁"@, pair(colour, page)),
    }
}

/// The caret cell: glyph and style.
pub fn caret_cell(look: &PeriodLook) -> (r: (&'static str, CellStyle))
    ensures
        (r.0@, r.1) == caret_cell_spec(*look),
{
    let colour = rgb(look.cursor_colour);
    let page = rgb(look.page);
    match look.cursor_shape {
        CursorShape::Bar => ("▏", CellStyle { fg: Some(colour), bg: Some(page), underlined: false }),
        CursorShape::Block => (" ", CellStyle { fg: Some(page), bg: Some(colour), underlined: false }),
        CursorShape::Underscore => ("▁", CellStyle { fg: Some(colour), bg: Some(page), underlined: false }),
    }
}

/// The caret sitting on a character: the glyph stays readable, so only the
/// style speaks — an underscore machine underlines the cell in the cursor's
/// colour over the page, the others put the page over the cursor's colour.
pub open spec fn caret_over_text_spec(look: PeriodLook) -> CellStyle {
    let colour = rgb_spec(look.cursor_colour);
    let page = rgb_spec(look.page);
    match look.cursor_shape {
        CursorShape::Underscore => CellStyle { underlined: true, ..pair(colour, page) },
        _ => pair(page, colour),
    }
}

/// The style of the caret over a character.
pub fn caret_over_text(look: &PeriodLook) -> (s: CellStyle)
    ensures
        s == caret_over_text_spec(*look),
{
    let colour = rgb(look.cursor_colour);
    let page = rgb(look.page);
    match look.cursor_shape {
        CursorShape::Underscore => CellStyle { fg: Some(colour), bg: Some(page), underlined: true },
        CursorShape::Bar | CursorShape::Block => CellStyle { fg: Some(page), bg: Some(colour), underlined: false },
    }
}

/// The story-pane selectors the look paints, each with the role it inherits
/// from, and the paint: the prose and the line being typed take the body
/// pair; the front-end's own annotations (echoed command, meta gutter,
/// warning) take only the page.
pub open spec fn painted_spec(look: PeriodLook) -> Seq<(Seq<char>, Seq<char>, CellStyle)> {
    let body = pair(rgb_spec(look.ink), rgb_spec(look.page));
    let page = CellStyle { fg: None, bg: Some(rgb_spec(look.page)), underlined: false };
    seq![
        ("transcript"@, "text"@, body),
        ("input_line"@, "line"@, body),
        ("input_text"@, "text"@, body),
        ("input_prompt"@, "text"@, body),
        ("transcript_input"@, "accent"@, page),
        ("transcript_meta"@, "muted"@, page),
        ("transcript_warning"@, "alert"@, page),
    ]
}

/// The selectors the look paints, with their roles and styles.
pub fn painted(look: &PeriodLook) -> (v: Vec<(&'static str, &'static str, CellStyle)>)
    ensures
        v@.map_values(|e: (&'static str, &'static str, CellStyle)| (e.0@, e.1@, e.2)) == painted_spec(*look),
{
    let body = body_style(look);
    let page = CellStyle { fg: None, bg: Some(rgb(look.page)), underlined: false };
    let v = vec![
        ("transcript", "text", body),
        ("input_line", "line", body),
        ("input_text", "text", body),
        ("input_prompt", "text", body),
        ("transcript_input", "accent", page),
        ("transcript_meta", "muted", page),
        ("transcript_warning", "alert", page),
    ];
    assert(v@.map_values(|e: (&'static str, &'static str, CellStyle)| (e.0@, e.1@, e.2)) =~= painted_spec(*look));
    v
}

// ── Laws ─────────────────────────────────────────────────────────────────────

/// Reversing a style with both colours set twice gives its colours back.
pub proof fn lemma_reversed_twice(s: CellStyle)
    requires
        s.fg is Some,
        s.bg is Some,
    ensures
        reversed_spec(reversed_spec(s)).fg == s.fg,
        reversed_spec(reversed_spec(s)).bg == s.bg,
{
}

/// Only a per-run band reverses behind its runs, and its base is then the
/// body pair itself, so the page shows between the runs.
pub proof fn lemma_per_run_band(look: PeriodLook)
    requires
        look.status == StatusBand::PerRun,
    ensures
        status_style_spec(look) == pair(rgb_spec(look.ink), rgb_spec(look.page)),
{
}

} // verus!
