//! The text map dump: its labels and glyphs, the line-art serialisation of an
//! off-screen map rendering, and the dump itself.

use vstd::prelude::*;
use crate::text::{
    decimal, join_range, join_with, push_char, push_decimal, push_str, str_eq, trim_end, trim_end_spec,
};

verus! {

/// A compass or vertical direction of a map connection.
#[derive(Debug, Clone, Copy, PartialEq, Eq, Structural, Hash)]
pub enum Direction {
    N,
    S,
    E,
    W,
    NE,
    NW,
    SE,
    SW,
    Up,
    Down,
    In,
    Out,
    Unknown,
}

/// The short label of a direction in the dump.
pub open spec fn dir_label(d: Direction) -> Seq<char> {
    match d {
        Direction::N => "N"@,
        Direction::S => "S"@,
        Direction::E => "E"@,
        Direction::W => "W"@,
        Direction::NE => "NE"@,
        Direction::NW => "NW"@,
        Direction::SE => "SE"@,
        Direction::SW => "SW"@,
        Direction::Up => "U"@,
        Direction::Down => "D"@,
        Direction::In => "IN"@,
        Direction::Out => "OUT"@,
        Direction::Unknown => "?"@,
    }
}

/// The short label of a direction.
pub fn dir_str(d: Direction) -> (s: &'static str)
    ensures
        s@ == dir_label(d),
{
    match d {
        Direction::N => "N",
        Direction::S => "S",
        Direction::E => "E",
        Direction::W => "W",
        Direction::NE => "NE",
        Direction::NW => "NW",
        Direction::SE => "SE",
        Direction::SW => "SW",
        Direction::Up => "U",
        Direction::Down => "D",
        Direction::In => "IN",
        Direction::Out => "OUT",
        Direction::Unknown => "?",
    }
}

/// The box-drawing glyph for a path cell whose orthogonal path neighbours are
/// given by a NESW bitmask (N = 1, E = 2, S = 4, W = 8): a single neighbour
/// continues its straight line, two or more join as a corner, tee or cross,
/// and a cell with none (or a mask out of range) is a dot.
pub open spec fn mask_glyph_spec(mask: u8) -> char {
    if mask == 1 || mask == 4 || mask == 5 {
        '│'
    } else if mask == 2 || mask == 8 || mask == 10 {
        '─'
    } else if mask == 3 {
        '└'
    } else if mask == 6 {
        '┌'
    } else if mask == 12 {
        '┐'
    } else if mask == 9 {
        '┘'
    } else if mask == 7 {
        '├'
    } else if mask == 14 {
        '┬'
    } else if mask == 13 {
        '┤'
    } else if mask == 11 {
        '┴'
    } else if mask == 15 {
        '┼'
    } else {
        '·'
    }
}

/// Map a NESW connectivity bitmask to its box-drawing glyph.
pub fn mask_glyph(mask: u8) -> (c: char)
    ensures
        c == mask_glyph_spec(mask),
{
    match mask {
        1 | 4 | 5 => '│',
        2 | 8 | 10 => '─',
        3 => '└',
        6 => '┌',
        12 => '┐',
        9 => '┘',
        7 => '├',
        14 => '┬',
        13 => '┤',
        11 => '┴',
        15 => '┼',
        _ => '·',
    }
}

/// The background of a cell of the off-screen map rendering, as far as the
/// dump reads it: connector ribbons (and the arrowheads on them) are drawn on
/// cyan or magenta.
#[derive(Debug, Clone, Copy, PartialEq, Eq, Structural)]
pub enum CellBg {
    Cyan,
    Magenta,
    Other,
}

/// One cell of the off-screen map rendering: the symbol drawn there and its
/// background.
#[derive(Debug, Clone)]
pub struct MapCell {
    pub symbol: String,
    pub bg: CellBg,
}

/// Whether `(x, y)` lies in the grid `g` (rows top to bottom) on a connector
/// ribbon.
pub open spec fn on_ribbon(g: Seq<Vec<MapCell>>, x: int, y: int) -> bool {
    &&& 0 <= y < g.len()
    &&& 0 <= x < g[y]@.len()
    &&& (g[y]@[x].bg == CellBg::Cyan || g[y]@[x].bg == CellBg::Magenta)
}

/// The NESW bitmask of the ribbon neighbours of `(x, y)` (N = 1, E = 2, S = 4,
/// W = 8).
pub open spec fn ribbon_mask(g: Seq<Vec<MapCell>>, x: int, y: int) -> int {
    (if on_ribbon(g, x, y - 1) { 1int } else { 0int }) + (if on_ribbon(g, x + 1, y) { 2int } else { 0int })
        + (if on_ribbon(g, x, y + 1) { 4int } else { 0int }) + (if on_ribbon(g, x - 1, y) { 8int } else { 0int })
}

/// What the dump writes for cell `(x, y)`: a drawn symbol as it is; a blank
/// ribbon cell as the line-art glyph joining its ribbon neighbours; any other
/// blank cell as a space.
pub open spec fn cell_text(g: Seq<Vec<MapCell>>, x: int, y: int) -> Seq<char> {
    if g[y]@[x].symbol@ != " "@ {
        g[y]@[x].symbol@
    } else if on_ribbon(g, x, y) {
        seq![mask_glyph_spec(ribbon_mask(g, x, y) as u8)]
    } else {
        seq![' ']
    }
}

/// The texts of the first `n` cells of row `y`, one after another.
pub open spec fn row_text(g: Seq<Vec<MapCell>>, y: int, n: int) -> Seq<char>
    decreases n,
{
    if n <= 0 {
        Seq::empty()
    } else {
        row_text(g, y, n - 1) + cell_text(g, n - 1, y)
    }
}

/// Row `y` of the dump, without trailing whitespace.
pub open spec fn dump_line(g: Seq<Vec<MapCell>>, y: int) -> Seq<char> {
    trim_end_spec(row_text(g, y, g[y]@.len() as int))
}

/// All rows of the dump.
pub open spec fn dump_lines(g: Seq<Vec<MapCell>>) -> Seq<Seq<char>> {
    Seq::new(g.len(), |y: int| dump_line(g, y))
}

/// The index of the first non-empty line at or after `i`, or 0 if there is none.
pub open spec fn first_filled_from(ls: Seq<Seq<char>>, i: int) -> int
    decreases ls.len() - i,
{
    if i < 0 || i >= ls.len() {
        0
    } else if ls[i].len() > 0 {
        i
    } else {
        first_filled_from(ls, i + 1)
    }
}

/// The index of the last non-empty line among the first `n`, or 0 if there is
/// none.
pub open spec fn last_filled(ls: Seq<Seq<char>>, n: int) -> int
    decreases n,
{
    if n <= 0 {
        0
    } else if ls[n - 1].len() > 0 {
        n - 1
    } else {
        last_filled(ls, n - 1)
    }
}

/// The line-art picture of the grid: its rows with trailing blanks cut, the
/// blank rows above the first and below the last drawn row dropped, joined by
/// newlines.
pub open spec fn line_art(g: Seq<Vec<MapCell>>) -> Seq<char> {
    let ls = dump_lines(g);
    join_with(ls.subrange(first_filled_from(ls, 0), last_filled(ls, ls.len() as int) + 1), "\n"@)
}

proof fn lemma_first_filled(ls: Seq<Seq<char>>, i: int, k: int)
    requires
        0 <= i <= k <= ls.len(),
        forall|j: int| i <= j < k ==> #[trigger] ls[j].len() == 0,
        k < ls.len() ==> ls[k].len() > 0,
    ensures
        first_filled_from(ls, i) == if k < ls.len() { k } else { 0 },
    decreases k - i,
{
    if i < k {
        lemma_first_filled(ls, i + 1, k);
    }
}

proof fn lemma_last_filled(ls: Seq<Seq<char>>, j: int, n: int)
    requires
        0 <= j <= n <= ls.len(),
        forall|i: int| j <= i < n ==> #[trigger] ls[i].len() == 0,
        j > 0 ==> ls[j - 1].len() > 0,
    ensures
        last_filled(ls, n) == if j > 0 { j - 1 } else { 0 },
    decreases n - j,
{
    if j < n {
        lemma_last_filled(ls, j, n - 1);
    }
}

fn ribbon_at(grid: &Vec<Vec<MapCell>>, x: usize, y: usize) -> (b: bool)
    ensures
        b == on_ribbon(grid@, x as int, y as int),
{
    if y < grid.len() && x < grid[y].len() {
        let bg = grid[y][x].bg;
        bg == CellBg::Cyan || bg == CellBg::Magenta
    } else {
        false
    }
}

fn mask_at(grid: &Vec<Vec<MapCell>>, x: usize, y: usize) -> (m: u8)
    requires
        y < grid@.len(),
        x < grid@[y as int]@.len(),
    ensures
        m == ribbon_mask(grid@, x as int, y as int),
{
    let mut m: u8 = 0;
    if y > 0 && ribbon_at(grid, x, y - 1) {
        m = m + 1;
    }
    if x < grid[y].len() - 1 && ribbon_at(grid, x + 1, y) {
        m = m + 2;
    }
    if y < grid.len() - 1 && ribbon_at(grid, x, y + 1) {
        m = m + 4;
    }
    if x > 0 && ribbon_at(grid, x - 1, y) {
        m = m + 8;
    }
    m
}

fn dump_row(grid: &Vec<Vec<MapCell>>, y: usize) -> (line: String)
    requires
        y < grid@.len(),
    ensures
        line@ == dump_line(grid@, y as int),
{
    let row = &grid[y];
    let w = row.len();
    let mut text = String::new();
    let mut x: usize = 0;
    while x < w
        invariant
            y < grid@.len(),
            *row == grid@[y as int],
            w == row@.len(),
            x <= w,
            text@ == row_text(grid@, y as int, x as int),
        decreases w - x,
    {
        let sym = row[x].symbol.as_str();
        if !str_eq(sym, " ") {
            push_str(&mut text, sym);
        } else if ribbon_at(grid, x, y) {
            let m = mask_at(grid, x, y);
            push_char(&mut text, mask_glyph(m));
        } else {
            push_char(&mut text, ' ');
        }
        proof {
            assert(cell_text(grid@, x as int, y as int) == if sym@ != " "@ { sym@ } else if on_ribbon(
                grid@,
                x as int,
                y as int,
            ) {
                seq![mask_glyph_spec(ribbon_mask(grid@, x as int, y as int) as u8)]
            } else {
                seq![' ']
            });
        }
        x = x + 1;
        assert(text@ =~= row_text(grid@, y as int, x as int));
    }
    trim_end(text.as_str())
}

/// Serialise an off-screen map rendering into line art: drawn symbols pass
/// through, blank ribbon cells become the box-drawing glyph that joins their
/// ribbon neighbours, trailing blanks and the blank rows around the picture
/// are dropped.
pub fn ascii_art(grid: &Vec<Vec<MapCell>>) -> (art: String)
    requires
        grid@.len() > 0,
    ensures
        art@ == line_art(grid@),
{
    let h = grid.len();
    let mut lines: Vec<String> = Vec::new();
    let mut y: usize = 0;
    while y < h
        invariant
            h == grid@.len(),
            y <= h,
            lines@.len() == y,
            forall|i: int| 0 <= i < y ==> #[trigger] lines@[i]@ == dump_line(grid@, i),
        decreases h - y,
    {
        let line = dump_row(grid, y);
        lines.push(line);
        y = y + 1;
    }
    let ghost ls = dump_lines(grid@);
    assert(lines@.map_values(|p: String| p@) =~= ls);
    let mut i: usize = 0;
    while i < h && lines[i].as_str().unicode_len() == 0
        invariant
            h == lines@.len(),
            ls == lines@.map_values(|p: String| p@),
            i <= h,
            forall|j: int| 0 <= j < i ==> #[trigger] ls[j].len() == 0,
        decreases h - i,
    {
        i = i + 1;
    }
    let mut j: usize = h;
    while j > 0 && lines[j - 1].as_str().unicode_len() == 0
        invariant
            h == lines@.len(),
            ls == lines@.map_values(|p: String| p@),
            j <= h,
            i < h ==> ls[i as int].len() > 0,
            i < h ==> i < j,
            forall|k: int| j <= k < h ==> #[trigger] ls[k].len() == 0,
        decreases j,
    {
        j = j - 1;
    }
    proof {
        lemma_first_filled(ls, 0, i as int);
        lemma_last_filled(ls, j as int, h as int);
    }
    let first = if i < h { i } else { 0 };
    let last = if j > 0 { j - 1 } else { 0 };
    join_range(&lines, first, last + 1, "\n")
}

/// The room-to-room stride of the map at Boxes zoom, in cells.
pub const BOXES_STEP: i32 = 29;

/// The largest side of the off-screen canvas the dump renders the map into.
pub const DUMP_MAX_SIDE: i32 = 4000;

/// `v` clamped to `[lo, hi]`.
pub open spec fn clamp_int(v: int, lo: int, hi: int) -> int {
    if v < lo {
        lo
    } else if v > hi {
        hi
    } else {
        v
    }
}

/// The canvas for the dump's rendering of a map whose rooms span grid columns
/// `min.0..=max.0` and rows `min.1..=max.1`: two room-steps of margin on each
/// side (so connectors detouring round the rooms are not clipped), at least one
/// step and at most [`DUMP_MAX_SIDE`] cells a side; and the scroll that puts
/// the margin's corner at the canvas origin.
pub fn dump_canvas(min: (i32, i32), max: (i32, i32)) -> (r: (u16, u16, (i32, i32)))
    requires
        i32::MIN <= (max.0 - min.0 + 5) * BOXES_STEP <= i32::MAX,
        i32::MIN <= (max.1 - min.1 + 5) * BOXES_STEP <= i32::MAX,
        min.0 >= i32::MIN + 2,
        min.1 >= i32::MIN + 2,
    ensures
        r.0 == clamp_int((max.0 - min.0 + 5) * BOXES_STEP, BOXES_STEP as int, DUMP_MAX_SIDE as int),
        r.1 == clamp_int((max.1 - min.1 + 5) * BOXES_STEP, BOXES_STEP as int, DUMP_MAX_SIDE as int),
        r.2.0 == min.0 - 2,
        r.2.1 == min.1 - 2,
{
    let w: i64 = (max.0 as i64 - min.0 as i64 + 5) * (BOXES_STEP as i64);
    let h: i64 = (max.1 as i64 - min.1 as i64 + 5) * (BOXES_STEP as i64);
    let w = if w < BOXES_STEP as i64 {
        BOXES_STEP as i64
    } else if w > DUMP_MAX_SIDE as i64 {
        DUMP_MAX_SIDE as i64
    } else {
        w
    };
    let h = if h < BOXES_STEP as i64 {
        BOXES_STEP as i64
    } else if h > DUMP_MAX_SIDE as i64 {
        DUMP_MAX_SIDE as i64
    } else {
        h
    };
    (w as u16, h as u16, (min.0 - 2, min.1 - 2))
}

/// A room as the dump lists it: its id, its name, its grid position if it has
/// been placed, and the player's notes on it.
#[derive(Debug, Clone)]
pub struct DumpRoom {
    pub id: u64,
    pub label: String,
    pub pos: Option<(i32, i32)>,
    pub notes: String,
}

/// A directed connection as the dump lists it, marked `distorted` where the
/// layout could not honour its compass direction.
#[derive(Debug, Clone, Copy)]
pub struct DumpEdge {
    pub origin: u64,
    pub dir: Direction,
    pub dest: u64,
    pub distorted: bool,
}

/// What `{:?}` writes for a string: the string quoted, with escapes.
pub uninterp spec fn str_debug(s: Seq<char>) -> Seq<char>;

/// `<str as Debug>::fmt`, the quoted and escaped form of `s`.
#[verifier::external_body]
fn debug_quoted(s: &str) -> (r: String)
    ensures
        r@ == str_debug(s@),
{
    format!("{:?}", s)
}

/// `v` in decimal, with a leading `-` when negative, as `Display` writes it.
pub open spec fn signed_decimal(v: int) -> Seq<char> {
    if v < 0 {
        seq!['-'] + decimal((-v) as nat)
    } else {
        decimal(v as nat)
    }
}

fn push_signed(s: &mut String, v: i32)
    ensures
        final(s)@ == old(s)@ + signed_decimal(v as int),
{
    if v < 0 {
        push_char(s, '-');
        let m: i64 = -(v as i64);
        push_decimal(s, m as u64);
        assert(final(s)@ =~= old(s)@ + signed_decimal(v as int));
    } else {
        push_decimal(s, v as u64);
    }
}

/// `rs` with `r` placed after the last room whose id is not above its own.
pub open spec fn insert_by_id(rs: Seq<DumpRoom>, r: DumpRoom) -> Seq<DumpRoom>
    decreases rs.len(),
{
    if rs.len() == 0 || rs.last().id <= r.id {
        rs.push(r)
    } else {
        insert_by_id(rs.drop_last(), r).push(rs.last())
    }
}

/// `rs` ordered by id, rooms with equal ids keeping their order (the stable
/// sort that `sort_by_key` performs).
pub open spec fn sorted_by_id(rs: Seq<DumpRoom>) -> Seq<DumpRoom>
    decreases rs.len(),
{
    if rs.len() == 0 {
        rs
    } else {
        insert_by_id(sorted_by_id(rs.drop_last()), rs.last())
    }
}

/// The ids of `rs` never decrease.
pub open spec fn ids_ascending(rs: Seq<DumpRoom>) -> bool {
    forall|i: int, j: int| 0 <= i < j < rs.len() ==> #[trigger] rs[i].id <= #[trigger] rs[j].id
}

proof fn lemma_insert_bounded(rs: Seq<DumpRoom>, r: DumpRoom, b: u64)
    requires
        forall|i: int| 0 <= i < rs.len() ==> #[trigger] rs[i].id <= b,
        r.id <= b,
    ensures
        forall|i: int| 0 <= i < insert_by_id(rs, r).len() ==> #[trigger] insert_by_id(rs, r)[i].id <= b,
        insert_by_id(rs, r).len() == rs.len() + 1,
    decreases rs.len(),
{
    if rs.len() > 0 && rs.last().id > r.id {
        lemma_insert_bounded(rs.drop_last(), r, b);
    }
}

proof fn lemma_insert_by_id(rs: Seq<DumpRoom>, r: DumpRoom)
    requires
        ids_ascending(rs),
    ensures
        ids_ascending(insert_by_id(rs, r)),
        insert_by_id(rs, r).to_multiset() == rs.to_multiset().insert(r),
    decreases rs.len(),
{
    broadcast use vstd::seq_lib::group_to_multiset_ensures;

    if rs.len() > 0 && rs.last().id > r.id {
        let t = insert_by_id(rs.drop_last(), r);
        lemma_insert_by_id(rs.drop_last(), r);
        lemma_insert_bounded(rs.drop_last(), r, rs.last().id);
        assert(rs.drop_last().push(rs.last()) =~= rs);
        assert(t.push(rs.last()).to_multiset() == t.to_multiset().insert(rs.last()));
        assert(rs.to_multiset() == rs.drop_last().to_multiset().insert(rs.last()));
        assert(insert_by_id(rs, r).to_multiset() =~= rs.to_multiset().insert(r));
    }
}

/// Sorting by id gives the same rooms, in ascending order of id.
pub proof fn lemma_sorted_by_id(rs: Seq<DumpRoom>)
    ensures
        ids_ascending(sorted_by_id(rs)),
        sorted_by_id(rs).to_multiset() == rs.to_multiset(),
    decreases rs.len(),
{
    broadcast use vstd::seq_lib::group_to_multiset_ensures;

    if rs.len() > 0 {
        lemma_sorted_by_id(rs.drop_last());
        lemma_insert_by_id(sorted_by_id(rs.drop_last()), rs.last());
        assert(rs.drop_last().push(rs.last()) =~= rs);
    }
}

proof fn lemma_insert_at(rs: Seq<DumpRoom>, r: DumpRoom, p: int)
    requires
        0 <= p <= rs.len(),
        p > 0 ==> rs[p - 1].id <= r.id,
        forall|k: int| p <= k < rs.len() ==> #[trigger] rs[k].id > r.id,
    ensures
        insert_by_id(rs, r) == rs.insert(p, r),
    decreases rs.len(),
{
    if rs.len() == p {
        assert(rs.insert(p, r) =~= rs.push(r));
    } else {
        lemma_insert_at(rs.drop_last(), r, p);
        assert(rs.drop_last().insert(p, r).push(rs.last()) =~= rs.insert(p, r));
    }
}

fn sort_rooms(rooms: Vec<DumpRoom>) -> (out: Vec<DumpRoom>)
    ensures
        out@ == sorted_by_id(rooms@),
{
    let ghost orig = rooms@;
    let mut rest = rooms;
    let mut out: Vec<DumpRoom> = Vec::new();
    let n = rest.len();
    let mut i: usize = 0;
    assert(orig.take(0) =~= Seq::<DumpRoom>::empty());
    while i < n
        invariant
            n == orig.len(),
            i <= n,
            rest@ == orig.skip(i as int),
            out@ == sorted_by_id(orig.take(i as int)),
        decreases n - i,
    {
        assert(rest@[0] == orig[i as int]);
        let r = rest.remove(0);
        assert(rest@ =~= orig.skip(i + 1));
        let mut p: usize = out.len();
        while p > 0 && out[p - 1].id > r.id
            invariant
                p <= out@.len(),
                forall|k: int| p <= k < out@.len() ==> #[trigger] out@[k].id > r.id,
            decreases p,
        {
            p = p - 1;
        }
        proof {
            lemma_insert_at(out@, r, p as int);
            assert(orig.take(i + 1).drop_last() =~= orig.take(i as int));
        }
        out.insert(p, r);
        i = i + 1;
    }
    assert(orig.take(n as int) =~= orig);
    out
}

/// The legend line of a room: `ROOM <id> <name> pos=<x>,<y>` (or `pos=?`), then
/// `  notes=<notes>` when it has notes; name and notes quoted as `{:?}` quotes
/// them.
pub open spec fn room_line(r: DumpRoom) -> Seq<char> {
    "ROOM "@ + decimal(r.id as nat) + " "@ + str_debug(r.label@) + " pos="@ + match r.pos {
        Some((x, y)) => signed_decimal(x as int) + ","@ + signed_decimal(y as int),
        None => "?"@,
    } + if r.notes@.len() == 0 {
        Seq::empty()
    } else {
        "  notes="@ + str_debug(r.notes@)
    } + "\n"@
}

/// The line of a connection: `EDGE <origin> <dir> <dest>`, then `  distorted`
/// when it is.
pub open spec fn edge_line(e: DumpEdge) -> Seq<char> {
    "EDGE "@ + decimal(e.origin as nat) + " "@ + dir_label(e.dir) + " "@ + decimal(e.dest as nat) + if e.distorted {
        "  distorted"@
    } else {
        Seq::empty()
    } + "\n"@
}

/// The legend lines of `rs`, in order.
pub open spec fn room_lines(rs: Seq<DumpRoom>) -> Seq<char>
    decreases rs.len(),
{
    if rs.len() == 0 {
        Seq::empty()
    } else {
        room_lines(rs.drop_last()) + room_line(rs.last())
    }
}

/// The connection lines of `es`, in order.
pub open spec fn edge_lines(es: Seq<DumpEdge>) -> Seq<char>
    decreases es.len(),
{
    if es.len() == 0 {
        Seq::empty()
    } else {
        edge_lines(es.drop_last()) + edge_line(es.last())
    }
}

/// The dump's header: its title, then the room and edge counts and the
/// current room (`#<id>`, or `none`).
pub open spec fn dump_header(rooms: nat, edges: nat, current: Option<u64>) -> Seq<char> {
    "# babelmap map dump\n"@ + "# rooms: "@ + decimal(rooms) + ", edges: "@ + decimal(edges) + ", current: "@
        + match current {
        Some(id) => "#"@ + decimal(id as nat),
        None => "none"@,
    } + "\n#\n"@
}

/// The whole dump: the header; then, for an empty map, a note saying so; else
/// the room legend in order of id, the connection list, the line-art picture
/// of the map, and a footer inviting annotations.
pub open spec fn dump_text(
    rooms: Seq<DumpRoom>,
    edges: Seq<DumpEdge>,
    current: Option<u64>,
    grid: Seq<Vec<MapCell>>,
) -> Seq<char> {
    let head = dump_header(rooms.len(), edges.len(), current);
    if rooms.len() == 0 {
        head + "# (empty map)\n"@
    } else {
        head + "# === ROOMS (id  name  pos  notes) ===\n"@ + room_lines(sorted_by_id(rooms))
            + "#\n# === EDGES (origin DIR dest) ===\n"@ + edge_lines(edges)
            + "#\n# === MAP (#id = room, lines = connectors, ▶◀▲▼ = exits) ===\n"@
            + line_art(grid) + "\n#\n# Annotate problems below — lines starting with # are comments:\n#\n"@
    }
}

/// The dump opens with its title line; a map without rooms is the header and
/// the empty-map note alone; otherwise the legend lists the same rooms, one
/// line each, in ascending id order.
pub proof fn lemma_dump_structure(
    rooms: Seq<DumpRoom>,
    edges: Seq<DumpEdge>,
    current: Option<u64>,
    grid: Seq<Vec<MapCell>>,
)
    ensures
        dump_text(rooms, edges, current, grid).subrange(0, 20) == "# babelmap map dump\n"@,
        rooms.len() == 0 ==> dump_text(rooms, edges, current, grid) == dump_header(0, edges.len(), current)
            + "# (empty map)\n"@,
        ids_ascending(sorted_by_id(rooms)),
        sorted_by_id(rooms).to_multiset() == rooms.to_multiset(),
{
    reveal_strlit("# babelmap map dump\n");
    let t = dump_text(rooms, edges, current, grid);
    let title = "# babelmap map dump\n"@;
    assert(title.len() == 20);
    assert(t.subrange(0, 20) =~= title);
    lemma_sorted_by_id(rooms);
}

fn push_room_line(s: &mut String, r: &DumpRoom)
    ensures
        final(s)@ == old(s)@ + room_line(*r),
{
    push_str(s, "ROOM ");
    push_decimal(s, r.id);
    push_str(s, " ");
    let q = debug_quoted(r.label.as_str());
    push_str(s, q.as_str());
    push_str(s, " pos=");
    let ghost mid = s@;
    match r.pos {
        Some((x, y)) => {
            push_signed(s, x);
            push_str(s, ",");
            push_signed(s, y);
        },
        None => {
            push_str(s, "?");
        },
    }
    let ghost mid2 = s@;
    if r.notes.as_str().unicode_len() > 0 {
        push_str(s, "  notes=");
        let n = debug_quoted(r.notes.as_str());
        push_str(s, n.as_str());
    }
    let ghost mid3 = s@;
    push_str(s, "\n");
    proof {
        let pos_text = match r.pos {
            Some((x, y)) => signed_decimal(x as int) + ","@ + signed_decimal(y as int),
            None => "?"@,
        };
        let notes_text = if r.notes@.len() == 0 {
            Seq::<char>::empty()
        } else {
            "  notes="@ + str_debug(r.notes@)
        };
        assert(mid2 =~= mid + pos_text);
        assert(mid3 =~= mid2 + notes_text);
        assert(final(s)@ =~= old(s)@ + room_line(*r));
    }
}

fn push_edge_line(s: &mut String, e: &DumpEdge)
    ensures
        final(s)@ == old(s)@ + edge_line(*e),
{
    push_str(s, "EDGE ");
    push_decimal(s, e.origin);
    push_str(s, " ");
    push_str(s, dir_str(e.dir));
    push_str(s, " ");
    push_decimal(s, e.dest);
    let ghost mid = s@;
    if e.distorted {
        push_str(s, "  distorted");
    }
    let ghost mid2 = s@;
    push_str(s, "\n");
    proof {
        let tail = if e.distorted {
            "  distorted"@
        } else {
            Seq::<char>::empty()
        };
        assert(mid2 =~= mid + tail);
        assert(final(s)@ =~= old(s)@ + edge_line(*e));
    }
}

/// The text dump of a map: a header with the room and edge counts and the
/// current room; then, unless the map has no rooms, the room legend ordered by
/// id, the connection list in the order given, and the line-art picture
/// serialised from `grid`, the off-screen rendering of the map.
pub fn render_dump(
    rooms: Vec<DumpRoom>,
    edges: &Vec<DumpEdge>,
    current: Option<u64>,
    grid: &Vec<Vec<MapCell>>,
) -> (out: String)
    requires
        rooms@.len() > 0 ==> grid@.len() > 0,
    ensures
        out@ == dump_text(rooms@, edges@, current, grid@),
        out@.subrange(0, 20) == "# babelmap map dump\n"@,
        rooms@.len() == 0 ==> out@ == dump_header(0, edges@.len(), current) + "# (empty map)\n"@,
        // The legend lists the same rooms, in ascending id order.
        ids_ascending(sorted_by_id(rooms@)),
        sorted_by_id(rooms@).to_multiset() == rooms@.to_multiset(),
{
    proof {
        lemma_dump_structure(rooms@, edges@, current, grid@);
    }
    let ghost rs = rooms@;
    let nrooms = rooms.len();
    let nedges = edges.len();
    let mut out = String::new();
    push_str(&mut out, "# babelmap map dump\n");
    push_str(&mut out, "# rooms: ");
    push_decimal(&mut out, nrooms as u64);
    push_str(&mut out, ", edges: ");
    push_decimal(&mut out, nedges as u64);
    push_str(&mut out, ", current: ");
    let ghost before_cur = out@;
    match current {
        Some(id) => {
            push_str(&mut out, "#");
            push_decimal(&mut out, id);
        },
        None => {
            push_str(&mut out, "none");
        },
    }
    let ghost after_cur = out@;
    push_str(&mut out, "\n#\n");
    proof {
        let cur = match current {
            Some(id) => "#"@ + decimal(id as nat),
            None => "none"@,
        };
        assert(after_cur =~= before_cur + cur);
        assert(out@ =~= dump_header(rs.len(), edges@.len(), current));
    }
    if nrooms == 0 {
        push_str(&mut out, "# (empty map)\n");
        return out;
    }
    push_str(&mut out, "# === ROOMS (id  name  pos  notes) ===\n");
    let ghost legend_start = out@;
    let sorted = sort_rooms(rooms);
    let mut i: usize = 0;
    assert(sorted@.take(0) =~= Seq::<DumpRoom>::empty());
    while i < sorted.len()
        invariant
            i <= sorted@.len(),
            out@ == legend_start + room_lines(sorted@.take(i as int)),
        decreases sorted@.len() - i,
    {
        push_room_line(&mut out, &sorted[i]);
        assert(sorted@.take(i + 1).drop_last() =~= sorted@.take(i as int));
        i = i + 1;
    }
    assert(sorted@.take(sorted@.len() as int) =~= sorted@);
    push_str(&mut out, "#\n# === EDGES (origin DIR dest) ===\n");
    let ghost edge_list_start = out@;
    let mut j: usize = 0;
    assert(edges@.take(0) =~= Seq::<DumpEdge>::empty());
    while j < nedges
        invariant
            nedges == edges@.len(),
            j <= nedges,
            out@ == edge_list_start + edge_lines(edges@.take(j as int)),
        decreases nedges - j,
    {
        push_edge_line(&mut out, &edges[j]);
        assert(edges@.take(j + 1).drop_last() =~= edges@.take(j as int));
        j = j + 1;
    }
    assert(edges@.take(nedges as int) =~= edges@);
    push_str(&mut out, "#\n# === MAP (#id = room, lines = connectors, ▶◀▲▼ = exits) ===\n");
    let art = ascii_art(grid);
    push_str(&mut out, art.as_str());
    push_str(&mut out, "\n#\n# Annotate problems below — lines starting with # are comments:\n#\n");
    proof {
        assert(out@ =~= dump_text(rs, edges@, current, grid@));
    }
    out
}

/// The three ways of exporting the map.
#[derive(Debug, Clone, Copy, PartialEq, Eq, Structural)]
pub enum ExportKind {
    Svg,
    Dot,
    Dump,
}

/// The file an export writes when no destination is named.
pub open spec fn export_file_name(kind: ExportKind) -> Seq<char> {
    match kind {
        ExportKind::Svg => "map.svg"@,
        ExportKind::Dot => "map.dot"@,
        ExportKind::Dump => "map.txt"@,
    }
}

/// The default file name of an export.
pub fn export_default_name(kind: ExportKind) -> (name: &'static str)
    ensures
        name@ == export_file_name(kind),
{
    match kind {
        ExportKind::Svg => "map.svg",
        ExportKind::Dot => "map.dot",
        ExportKind::Dump => "map.txt",
    }
}

/// The notice after an export to the file shown as `shown`: where it went
/// (for DOT, with the command that renders it), or, when writing failed with
/// `error`, that it failed and why.
pub open spec fn export_notice_text(kind: ExportKind, shown: Seq<char>, error: Option<Seq<char>>) -> Seq<char> {
    match error {
        None => match kind {
            ExportKind::Svg => "[SVG exported to "@ + shown + "]"@,
            ExportKind::Dot => "[DOT exported to "@ + shown + " — render with: dot -Tsvg "@ + shown + " -o map.svg]"@,
            ExportKind::Dump => "[map dump written to "@ + shown + "]"@,
        },
        Some(e) => match kind {
            ExportKind::Svg => "[SVG export failed: "@ + e + "]"@,
            ExportKind::Dot => "[DOT export failed: "@ + e + "]"@,
            ExportKind::Dump => "[map dump failed: "@ + e + "]"@,
        },
    }
}

/// The status notice that reports an export.
pub fn export_notice(kind: ExportKind, shown: &str, error: Option<&str>) -> (r: String)
    ensures
        r@ == export_notice_text(kind, shown@, match error {
            Some(e) => Some(e@),
            None => None,
        }),
{
    let mut r = String::new();
    match error {
        None => match kind {
            ExportKind::Svg => {
                push_str(&mut r, "[SVG exported to ");
                push_str(&mut r, shown);
                push_str(&mut r, "]");
            },
            ExportKind::Dot => {
                push_str(&mut r, "[DOT exported to ");
                push_str(&mut r, shown);
                push_str(&mut r, " — render with: dot -Tsvg ");
                push_str(&mut r, shown);
                push_str(&mut r, " -o map.svg]");
            },
            ExportKind::Dump => {
                push_str(&mut r, "[map dump written to ");
                push_str(&mut r, shown);
                push_str(&mut r, "]");
            },
        },
        Some(e) => {
            match kind {
                ExportKind::Svg => push_str(&mut r, "[SVG export failed: "),
                ExportKind::Dot => push_str(&mut r, "[DOT export failed: "),
                ExportKind::Dump => push_str(&mut r, "[map dump failed: "),
            }
            push_str(&mut r, e);
            push_str(&mut r, "]");
        },
    }
    r
}

} // verus!
