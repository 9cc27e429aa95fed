//! Screen rectangles, hit-testing, and the pane geometry of a frame: the rows
//! for the story-and-map panes, the command band, the inventory dock and the
//! help row, and the split of the panes between story and map.

use vstd::prelude::*;
use ratatui::layout as tui;
use ratatui::layout::{Constraint, Direction};

verus! {

/// A rectangle of terminal cells: its top-left corner and its size.
#[derive(Debug, Clone, Copy, PartialEq, Eq, Structural, Hash, Default)]
pub struct Rect {
    pub x: u16,
    pub y: u16,
    pub width: u16,
    pub height: u16,
}

/// `a + b`, clamped to the 16-bit range.
pub open spec fn sat_add16(a: u16, b: u16) -> u16 {
    if a + b > u16::MAX { u16::MAX } else { (a + b) as u16 }
}

/// `a - b`, or 0 when `b` is larger.
pub open spec fn sat_sub16(a: u16, b: u16) -> u16 {
    if a >= b { (a - b) as u16 } else { 0 }
}

/// The first column right of the rectangle, clamped to the 16-bit range.
pub open spec fn right_of(r: Rect) -> u16 {
    sat_add16(r.x, r.width)
}

/// The first row below the rectangle, clamped to the 16-bit range.
pub open spec fn bottom_of(r: Rect) -> u16 {
    sat_add16(r.y, r.height)
}

/// Whether the cell at column `x`, row `y` lies in the rectangle.
pub open spec fn rect_contains(r: Rect, x: u16, y: u16) -> bool {
    x >= r.x && x < right_of(r) && y >= r.y && y < bottom_of(r)
}

/// The smallest rectangle covering both, its far edges clamped as the
/// rectangles' own are.
pub open spec fn union_spec(a: Rect, b: Rect) -> Rect {
    let x1 = if a.x <= b.x { a.x } else { b.x };
    let y1 = if a.y <= b.y { a.y } else { b.y };
    let x2 = if right_of(a) >= right_of(b) { right_of(a) } else { right_of(b) };
    let y2 = if bottom_of(a) >= bottom_of(b) { bottom_of(a) } else { bottom_of(b) };
    Rect { x: x1, y: y1, width: sat_sub16(x2, x1), height: sat_sub16(y2, y1) }
}

impl Rect {
    /// A rectangle at `(x, y)` of the given size.
    pub fn new(x: u16, y: u16, width: u16, height: u16) -> (r: Rect)
        ensures
            r == (Rect { x, y, width, height }),
    {
        Rect { x, y, width, height }
    }

    /// The first column right of the rectangle.
    pub fn right(&self) -> (r: u16)
        ensures
            r == right_of(*self),
    {
        self.x.saturating_add(self.width)
    }

    /// The first row below the rectangle.
    pub fn bottom(&self) -> (r: u16)
        ensures
            r == bottom_of(*self),
    {
        self.y.saturating_add(self.height)
    }

    /// Whether the cell at column `x`, row `y` lies in the rectangle.
    pub fn contains(&self, x: u16, y: u16) -> (b: bool)
        ensures
            b == rect_contains(*self, x, y),
    {
        x >= self.x && x < self.right() && y >= self.y && y < self.bottom()
    }

    /// The smallest rectangle covering both.
    pub fn union(&self, other: &Rect) -> (r: Rect)
        ensures
            r == union_spec(*self, *other),
    {
        let x1 = if self.x <= other.x { self.x } else { other.x };
        let y1 = if self.y <= other.y { self.y } else { other.y };
        let x2 = if self.right() >= other.right() { self.right() } else { other.right() };
        let y2 = if self.bottom() >= other.bottom() { self.bottom() } else { other.bottom() };
        Rect { x: x1, y: y1, width: x2.saturating_sub(x1), height: y2.saturating_sub(y1) }
    }
}

/// The resolved pane rectangles of one frame; a hidden pane or a closed band
/// has zero area.
#[derive(Debug, Clone, Copy, PartialEq, Eq)]
pub struct PaneLayout {
    pub story: Rect,
    pub map: Rect,
    pub command_band: Rect,
    pub inv_dock: Rect,
    pub help_row: Rect,
}

/// A rectangle with neither width nor height.
pub open spec fn is_empty_rect(r: Rect) -> bool {
    r.width == 0 && r.height == 0
}

impl PaneLayout {
    /// The combined story-and-map region before the per-layout split: the
    /// union of the two panes, or the one that is not empty, or an empty
    /// rectangle at the origin when both are.
    pub fn panes_area(&self) -> (r: Rect)
        ensures
            r == (if is_empty_rect(self.story) && is_empty_rect(self.map) {
                Rect { x: 0, y: 0, width: 0, height: 0 }
            } else if is_empty_rect(self.story) {
                self.map
            } else if is_empty_rect(self.map) {
                self.story
            } else {
                union_spec(self.story, self.map)
            }),
    {
        let story_empty = self.story.width == 0 && self.story.height == 0;
        let map_empty = self.map.width == 0 && self.map.height == 0;
        if story_empty && map_empty {
            Rect { x: 0, y: 0, width: 0, height: 0 }
        } else if story_empty {
            self.map
        } else if map_empty {
            self.story
        } else {
            self.story.union(&self.map)
        }
    }
}

/// A rectangle lies within its union with any other.
pub proof fn lemma_union_covers(a: Rect, b: Rect, x: u16, y: u16)
    requires
        rect_contains(a, x, y),
    ensures
        rect_contains(union_spec(a, b), x, y),
{
}

/// Which panes a frame shows.
#[derive(Debug, Clone, Copy, PartialEq, Eq, Structural)]
pub enum PaneMode {
    /// The story pane alone, full width.
    TranscriptFull,
    /// Story and map side by side.
    Split,
}

/// The direction a layout cuts an area in.
#[derive(Debug, Clone, Copy, PartialEq, Eq, Structural)]
pub enum SplitDirection {
    /// Into rows, top to bottom.
    Vertical,
    /// Into columns, left to right.
    Horizontal,
}

/// What one piece of a layout asks for along the cut.
#[derive(Debug, Clone, Copy, PartialEq, Eq, Structural)]
pub enum SplitConstraint {
    /// At least this many cells, taking what is left.
    Min(u16),
    /// Exactly this many cells.
    Length(u16),
    /// This percentage of the area.
    Percentage(u16),
}

/// Where the cut starts, and how long the area is along it.
pub open spec fn along(area: Rect, dir: SplitDirection) -> (u16, u16) {
    match dir {
        SplitDirection::Vertical => (area.y, area.height),
        SplitDirection::Horizontal => (area.x, area.width),
    }
}

/// Whether `r` is a piece of `area` cut in `dir`: it spans the area across the
/// cut and lies within it along the cut.
pub open spec fn piece_of(area: Rect, dir: SplitDirection, r: Rect) -> bool {
    match dir {
        SplitDirection::Vertical => r.x == area.x && r.width == area.width && area.y <= r.y && r.y + r.height
            <= bottom_of(area),
        SplitDirection::Horizontal => r.y == area.y && r.height == area.height && area.x <= r.x && r.x + r.width
            <= right_of(area),
    }
}

/// Whether `r` lies within `outer`.
pub open spec fn inside(outer: Rect, r: Rect) -> bool {
    outer.x <= r.x && r.x + r.width <= right_of(outer) && outer.y <= r.y && r.y + r.height <= bottom_of(outer)
}

/// The cells the constraints ask for in total, along an area of `size`.
pub open spec fn asked(size: int, cons: Seq<SplitConstraint>) -> int
    decreases cons.len(),
{
    if cons.len() == 0 {
        0
    } else {
        asked(size, cons.drop_last()) + match cons.last() {
            SplitConstraint::Min(n) => n as int,
            SplitConstraint::Length(n) => n as int,
            SplitConstraint::Percentage(p) => size * p / 100,
        }
    }
}

/// How many `Min` constraints there are.
pub open spec fn mins(cons: Seq<SplitConstraint>) -> int
    decreases cons.len(),
{
    if cons.len() == 0 {
        0
    } else {
        mins(cons.drop_last()) + if cons.last() is Min { 1int } else { 0int }
    }
}

/// Whether every constraint can be met at once: at most one piece takes what
/// is left, every percentage is a whole number of cells, the asks fit in the
/// area, and the area does not run past the last cell.
pub open spec fn all_met(area: Rect, dir: SplitDirection, cons: Seq<SplitConstraint>) -> bool {
    let (start, size) = along(area, dir);
    &&& start + size <= u16::MAX
    &&& mins(cons) <= 1
    &&& forall|i: int| 0 <= i < cons.len() ==> (#[trigger] cons[i] matches SplitConstraint::Percentage(p) ==> (
        size * p) % 100 == 0)
    &&& asked(size as int, cons) <= size
}

/// What ratatui's layout solver makes of `area` cut in `dir` by `cons`, where
/// every constraint can be met (see [`all_met`]).
pub uninterp spec fn layout_split(area: Rect, dir: SplitDirection, cons: Seq<SplitConstraint>) -> Seq<Rect>;

/// `ratatui::layout::Layout::split` (default margin, spacing and flex). What
/// holds of every outcome is stated: one piece per constraint, each spanning
/// the area across the cut and lying within it along the cut (the solver's
/// required constraints). Which pieces it picks is left to the name, and only
/// where every constraint can be met: the solver weighs its preferences over a
/// hash map, so where they conflict the source does not show that the same
/// arguments always give the same pieces.
#[verifier::external_body]
fn split_area(area: Rect, dir: SplitDirection, cons: &Vec<SplitConstraint>) -> (r: Vec<Rect>)
    ensures
        r@.len() == cons@.len(),
        forall|i: int| 0 <= i < r@.len() ==> piece_of(area, dir, #[trigger] r@[i]),
        all_met(area, dir, cons@) ==> r@ == layout_split(area, dir, cons@),
{
    let d = match dir {
        SplitDirection::Vertical => Direction::Vertical,
        SplitDirection::Horizontal => Direction::Horizontal,
    };
    let cs: Vec<Constraint> = cons.iter().map(|c| match *c {
        SplitConstraint::Min(n) => Constraint::Min(n),
        SplitConstraint::Length(n) => Constraint::Length(n),
        SplitConstraint::Percentage(p) => Constraint::Percentage(p),
    }).collect();
    let a = tui::Rect { x: area.x, y: area.y, width: area.width, height: area.height };
    let v = tui::Layout::default().direction(d).constraints(cs).split(a);
    v.iter().map(|r| Rect { x: r.x, y: r.y, width: r.width, height: r.height }).collect()
}

/// The row constraints of a frame: the panes take what is left, then the
/// command band, the inventory dock and the one-line help row.
pub open spec fn row_constraints(band: u16, dock: u16) -> Seq<SplitConstraint> {
    seq![
        SplitConstraint::Min(0),
        SplitConstraint::Length(band),
        SplitConstraint::Length(dock),
        SplitConstraint::Length(1),
    ]
}

/// The column constraints of the split mode: `ratio` percent to the story,
/// the rest to the map.
pub open spec fn column_constraints(ratio: u16) -> Seq<SplitConstraint> {
    seq![SplitConstraint::Percentage(ratio), SplitConstraint::Percentage(sat_sub16(100, ratio))]
}

/// The dock rows reserved: none while the command band is open (it subsumes
/// the inventory dock, whose "carried" column it shows), else the dock's own.
pub open spec fn dock_rows_spec(band_visible: bool, inv_dock_height: u16) -> u16 {
    if band_visible {
        0
    } else {
        inv_dock_height
    }
}

/// The panes shown: the split whenever the debug inspector is open (it tiles
/// into the map's slot), else the chosen mode.
pub open spec fn effective_mode(mode: PaneMode, inspector_open: bool) -> PaneMode {
    if inspector_open {
        PaneMode::Split
    } else {
        mode
    }
}

/// The frame's layout from the row split and, for the split mode, the column
/// split of the panes row: the story pane takes the whole panes row when there
/// is no column split, and the map is then empty.
pub fn layout_from_splits(rows: (Rect, Rect, Rect, Rect), columns: Option<(Rect, Rect)>) -> (pl: PaneLayout)
    ensures
        pl.command_band == rows.1,
        pl.inv_dock == rows.2,
        pl.help_row == rows.3,
        match columns {
            Some((story, map)) => pl.story == story && pl.map == map,
            None => pl.story == rows.0 && pl.map == (Rect { x: 0, y: 0, width: 0, height: 0 }),
        },
{
    let (story, map) = match columns {
        Some((s, m)) => (s, m),
        None => (rows.0, Rect { x: 0, y: 0, width: 0, height: 0 }),
    };
    PaneLayout { story, map, command_band: rows.1, inv_dock: rows.2, help_row: rows.3 }
}

/// This frame's pane geometry in `area`: the help row at the bottom, above it
/// the inventory dock (none while the command band is open) and the command
/// band, the rest for the panes; in the split mode (forced while the debug
/// inspector is open) the panes row is cut `split_ratio` percent to the story
/// and the remainder to the map. `band_height` and `inv_dock_height` are the
/// rows the band and the dock take this frame (0 when closed).
pub fn compute_pane_layout(
    area: Rect,
    mode: PaneMode,
    inspector_open: bool,
    split_ratio: u16,
    band_visible: bool,
    band_height: u16,
    inv_dock_height: u16,
) -> (pl: PaneLayout)
    ensures
        ({
            let rc = row_constraints(band_height, dock_rows_spec(band_visible, inv_dock_height));
            let split = effective_mode(mode, inspector_open) == PaneMode::Split;
            &&& piece_of(area, SplitDirection::Vertical, pl.command_band)
            &&& piece_of(area, SplitDirection::Vertical, pl.inv_dock)
            &&& piece_of(area, SplitDirection::Vertical, pl.help_row)
            &&& all_met(area, SplitDirection::Vertical, rc) ==> {
                let rows = layout_split(area, SplitDirection::Vertical, rc);
                &&& pl.command_band == rows[1]
                &&& pl.inv_dock == rows[2]
                &&& pl.help_row == rows[3]
                &&& !split ==> pl.story == rows[0]
                &&& split && all_met(rows[0], SplitDirection::Horizontal, column_constraints(split_ratio)) ==> {
                    let cols = layout_split(rows[0], SplitDirection::Horizontal, column_constraints(split_ratio));
                    pl.story == cols[0] && pl.map == cols[1]
                }
            }
            &&& split ==> inside(area, pl.story) && inside(area, pl.map)
            &&& !split ==> piece_of(area, SplitDirection::Vertical, pl.story) && pl.map == (Rect {
                x: 0,
                y: 0,
                width: 0,
                height: 0,
            })
        }),
{
    let dock = if band_visible {
        0
    } else {
        inv_dock_height
    };
    let rc = vec![
        SplitConstraint::Min(0),
        SplitConstraint::Length(band_height),
        SplitConstraint::Length(dock),
        SplitConstraint::Length(1),
    ];
    assert(rc@ =~= row_constraints(band_height, dock));
    let rows = split_area(area, SplitDirection::Vertical, &rc);
    let rows4 = (rows[0], rows[1], rows[2], rows[3]);
    let split = inspector_open || mode == PaneMode::Split;
    let columns = if split {
        let cc = vec![SplitConstraint::Percentage(split_ratio), SplitConstraint::Percentage(100u16.saturating_sub(split_ratio))];
        assert(cc@ =~= column_constraints(split_ratio));
        let cols = split_area(rows[0], SplitDirection::Horizontal, &cc);
        Some((cols[0], cols[1]))
    } else {
        None
    };
    layout_from_splits(rows4, columns)
}

} // verus!
