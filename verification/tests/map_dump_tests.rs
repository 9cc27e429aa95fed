use babelmap::map_dump::{
    ascii_art, dump_canvas, export_default_name, export_notice, render_dump, CellBg, Direction, DumpEdge, DumpRoom, ExportKind,
    MapCell,
};

fn cell(symbol: &str, bg: CellBg) -> MapCell {
    MapCell { symbol: symbol.to_string(), bg }
}

/// A grid from rows of text: `=` is a blank cyan ribbon cell, `~` a blank
/// magenta one, `>` an arrowhead drawn on a ribbon, anything else a symbol on
/// the plain background (a space stays blank).
fn grid(rows: &[&str]) -> Vec<Vec<MapCell>> {
    rows.iter()
        .map(|r| {
            r.chars()
                .map(|c| match c {
                    '=' => cell(" ", CellBg::Cyan),
                    '~' => cell(" ", CellBg::Magenta),
                    '>' => cell("▶", CellBg::Cyan),
                    other => cell(&other.to_string(), CellBg::Other),
                })
                .collect()
        })
        .collect()
}

fn room(id: u64, label: &str, pos: Option<(i32, i32)>) -> DumpRoom {
    DumpRoom { id, label: label.to_string(), pos, notes: String::new() }
}

#[test]
fn dump_lists_rooms_edges_and_ids() {
    // West of House (#1), with the Forest (#2) reached going north.
    let rooms = vec![room(2, "Forest", Some((0, -1))), room(1, "West of House", Some((0, 0)))];
    let edges = vec![
        DumpEdge { origin: 1, dir: Direction::N, dest: 2, distorted: false },
        DumpEdge { origin: 2, dir: Direction::S, dest: 1, distorted: false },
    ];
    let g = grid(&["", "  #2  ", "   =  ", "   =  ", "  #1  ", ""]);
    let dump = render_dump(rooms, &edges, Some(1), &g);

    assert!(dump.contains("# babelmap map dump"));
    assert!(dump.contains("ROOM 1 \"West of House\""), "room legend: {dump}");
    assert!(dump.contains("ROOM 2 \"Forest\""));
    assert!(dump.contains("EDGE 1 N 2"), "edge list: {dump}");
    // The ASCII map shows room ids.
    assert!(dump.contains("#1"));
    assert!(dump.contains("#2"));
}

#[test]
fn dump_ascii_has_line_art_connector() {
    let rooms = vec![room(1, "A", Some((0, 0))), room(2, "B", Some((1, 0)))];
    let edges = vec![DumpEdge { origin: 1, dir: Direction::E, dest: 2, distorted: false }];
    let g = grid(&["#1===>#2"]);
    let dump = render_dump(rooms, &edges, None, &g);
    // A horizontal connector run should serialize to box-drawing line-art.
    let has_line = dump.contains('─') || dump.contains('│') || dump.contains('┼');
    assert!(has_line, "expected line-art connectors in:\n{dump}");
    // And an exit arrow somewhere.
    let has_arrow = dump.contains('▶') || dump.contains('◀') || dump.contains('▲') || dump.contains('▼');
    assert!(has_arrow, "expected an exit arrow in:\n{dump}");
}

#[test]
fn empty_map_dump_is_safe() {
    let dump = render_dump(Vec::new(), &Vec::new(), None, &Vec::new());
    assert!(dump.contains("# babelmap map dump"));
    assert!(dump.contains("(empty map)"));
}

#[test]
fn empty_map_dump_is_exactly_header_and_note() {
    let dump = render_dump(Vec::new(), &Vec::new(), Some(7), &Vec::new());
    assert_eq!(dump, "# babelmap map dump\n# rooms: 0, edges: 0, current: #7\n#\n# (empty map)\n");
}

#[test]
fn full_dump_is_exact() {
    let mut hall = room(3, "Hall", Some((-2, 10)));
    hall.notes = "dark \"here\"".to_string();
    let rooms = vec![hall, room(1, "Cellar", None)];
    let edges = vec![
        DumpEdge { origin: 3, dir: Direction::Down, dest: 1, distorted: true },
        DumpEdge { origin: 1, dir: Direction::Up, dest: 3, distorted: false },
    ];
    let g = grid(&["    ", "#3  ", "=   ", "#1  ", "   "]);
    let dump = render_dump(rooms, &edges, None, &g);
    let want = "# babelmap map dump\n\
                # rooms: 2, edges: 2, current: none\n\
                #\n\
                # === ROOMS (id  name  pos  notes) ===\n\
                ROOM 1 \"Cellar\" pos=?\n\
                ROOM 3 \"Hall\" pos=-2,10  notes=\"dark \\\"here\\\"\"\n\
                #\n\
                # === EDGES (origin DIR dest) ===\n\
                EDGE 3 D 1  distorted\n\
                EDGE 1 U 3\n\
                #\n\
                # === MAP (#id = room, lines = connectors, ▶◀▲▼ = exits) ===\n\
                #3\n\
                ·\n\
                #1\n\
                #\n\
                # Annotate problems below — lines starting with # are comments:\n\
                #\n";
    assert_eq!(dump, want);
}

#[test]
fn rooms_with_equal_ids_keep_their_order() {
    let rooms = vec![room(5, "b", None), room(2, "a", None), room(5, "c", None)];
    let dump = render_dump(rooms, &Vec::new(), None, &grid(&["x"]));
    let a = dump.find("ROOM 2 \"a\"").unwrap();
    let b = dump.find("ROOM 5 \"b\"").unwrap();
    let c = dump.find("ROOM 5 \"c\"").unwrap();
    assert!(a < b && b < c, "{dump}");
}

#[test]
fn ascii_art_joins_ribbon_neighbours() {
    let g = grid(&[" = ", "===", " ~ "]);
    assert_eq!(ascii_art(&g), " │\n─┼─\n │");
    let g = grid(&["==", "= "]);
    assert_eq!(ascii_art(&g), "┌─\n│");
    let g = grid(&["=", "="]);
    assert_eq!(ascii_art(&g), "│\n│");
}

#[test]
fn ascii_art_trims_blank_rows_and_trailing_blanks() {
    let g = grid(&["     ", "  ab  ", "      ", " c    ", "    "]);
    assert_eq!(ascii_art(&g), "  ab\n\n c");
    let g = grid(&["   ", ""]);
    assert_eq!(ascii_art(&g), "");
    let g = grid(&["x"]);
    assert_eq!(ascii_art(&g), "x");
}

#[test]
fn export_names_and_notices() {
    assert_eq!(export_default_name(ExportKind::Svg), "map.svg");
    assert_eq!(export_default_name(ExportKind::Dot), "map.dot");
    assert_eq!(export_default_name(ExportKind::Dump), "map.txt");
    assert_eq!(export_notice(ExportKind::Svg, "~/g/map.svg", None), "[SVG exported to ~/g/map.svg]");
    assert_eq!(
        export_notice(ExportKind::Dot, "~/g/m.dot", None),
        "[DOT exported to ~/g/m.dot — render with: dot -Tsvg ~/g/m.dot -o map.svg]"
    );
    assert_eq!(export_notice(ExportKind::Dump, "/tmp/map.txt", None), "[map dump written to /tmp/map.txt]");
    assert_eq!(export_notice(ExportKind::Svg, "x", Some("denied")), "[SVG export failed: denied]");
    assert_eq!(export_notice(ExportKind::Dot, "x", Some("full")), "[DOT export failed: full]");
    assert_eq!(export_notice(ExportKind::Dump, "x", Some("gone")), "[map dump failed: gone]");
}

#[test]
fn dump_canvas_pads_and_clamps() {
    // One room: 1 + 4 steps of 29 cells each way, scrolled two steps up-left.
    assert_eq!(dump_canvas((0, 0), (0, 0)), (145, 145, (-2, -2)));
    assert_eq!(dump_canvas((-3, 2), (4, 5)), ((8 + 4) * 29, (4 + 4) * 29, (-5, 0)));
    // Huge maps are capped at 4000 cells a side.
    assert_eq!(dump_canvas((0, 0), (500, 1)), (4000, 6 * 29, (-2, -2)));
    // Degenerate bounds still get one step.
    assert_eq!(dump_canvas((10, 10), (0, 0)), (29, 29, (8, 8)));
}
