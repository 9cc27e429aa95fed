use babelmap::layout::{compute_pane_layout, layout_from_splits, PaneLayout, PaneMode, Rect};
use ratatui::layout::{Constraint, Direction, Layout as RatatuiLayout};

fn area80x24() -> Rect {
    Rect::new(0, 0, 80, 24)
}

/// The default frame: split 50/50, no inspector, band and dock closed.
fn default_layout(mode: PaneMode) -> PaneLayout {
    compute_pane_layout(area80x24(), mode, false, 50, false, 0, 0)
}

fn manual_split(panes: Rect, left: u16, right: u16) -> (Rect, Rect) {
    let a = ratatui::layout::Rect::new(panes.x, panes.y, panes.width, panes.height);
    let chunks = RatatuiLayout::default()
        .direction(Direction::Horizontal)
        .constraints([Constraint::Percentage(left), Constraint::Percentage(right)])
        .split(a);
    let c = |r: ratatui::layout::Rect| Rect::new(r.x, r.y, r.width, r.height);
    (c(chunks[0]), c(chunks[1]))
}

#[test]
fn split_layout_halves_panes() {
    let pl = default_layout(PaneMode::Split);

    // Docks closed → zero area.
    assert_eq!(pl.inv_dock.width * pl.inv_dock.height, 0);
    assert_eq!(pl.command_band.width * pl.command_band.height, 0);

    // Help row is the bottom single row.
    assert_eq!(pl.help_row, Rect::new(0, 23, 80, 1));

    // Story + map fill the remaining 23 rows and split the 80 columns ~evenly.
    assert_eq!(pl.story.height, 23);
    assert_eq!(pl.map.height, 23);
    assert_eq!(pl.story.y, 0);
    assert_eq!(pl.map.y, 0);
    assert_eq!(pl.story.width + pl.map.width, 80);
    assert!((pl.story.width as i32 - pl.map.width as i32).abs() <= 1);
}

#[test]
fn split_matches_manual_split_of_panes_area() {
    let pl = default_layout(PaneMode::Split);
    let (story, map) = manual_split(Rect::new(0, 0, 80, 23), 50, 50);
    assert_eq!(pl.story, story);
    assert_eq!(pl.map, map);
}

#[test]
fn transcript_full_hides_map() {
    let pl = default_layout(PaneMode::TranscriptFull);
    assert_eq!(pl.map.width * pl.map.height, 0);
    assert_eq!(pl.story, Rect::new(0, 0, 80, 23));
}

#[test]
fn help_row_always_bottom_single_row() {
    for mode in [PaneMode::Split, PaneMode::TranscriptFull] {
        let pl = default_layout(mode);
        assert_eq!(pl.help_row, Rect::new(0, 23, 80, 1), "{mode:?}");
    }
}

#[test]
fn inv_dock_open_reserves_bottom_band() {
    // A dock of 5 rows (3 items and its borders).
    let pl = compute_pane_layout(area80x24(), PaneMode::Split, false, 50, false, 0, 5);
    assert_eq!(pl.inv_dock.height, 5);
    assert_eq!(pl.help_row, Rect::new(0, 23, 80, 1));
    // Story/map shrink to make room for the dock band above the help row.
    assert_eq!(pl.story.height + pl.inv_dock.height + pl.help_row.height, 24);
}

#[test]
fn command_band_open_reserves_a_bottom_band() {
    let pl = compute_pane_layout(area80x24(), PaneMode::Split, false, 50, true, 7, 0);
    assert_eq!(pl.command_band.width, 80, "full width");
    assert_eq!(pl.command_band.x, 0);
    assert_eq!(pl.command_band.height, 7);
    assert_eq!(pl.help_row, Rect::new(0, 23, 80, 1), "help row stays the bottom row");
    assert_eq!(pl.command_band.y + pl.command_band.height, pl.help_row.y);
    assert_eq!(pl.story.height + pl.command_band.height + pl.help_row.height, 24);
    // Story and map keep the FULL width — no left carve.
    assert_eq!(pl.story.x, 0);
    assert_eq!(pl.story.width + pl.map.width, 80);
}

#[test]
fn open_band_subsumes_the_inventory_dock() {
    let before = compute_pane_layout(area80x24(), PaneMode::Split, false, 50, false, 0, 5);
    assert!(before.inv_dock.height > 0, "the dock is up to begin with");

    let during = compute_pane_layout(area80x24(), PaneMode::Split, false, 50, true, 7, 5);
    assert_eq!(during.inv_dock.height, 0, "the band subsumes the inventory dock");
    assert!(during.command_band.height > 0);

    // Closing the band brings it back.
    let after = compute_pane_layout(area80x24(), PaneMode::Split, false, 50, false, 0, 5);
    assert_eq!(after.inv_dock.height, before.inv_dock.height, "the dock returns on close");
}

#[test]
fn split_ratio_configurable_matches_manual_percentage_split() {
    let pl = compute_pane_layout(area80x24(), PaneMode::Split, false, 70, false, 0, 0);
    let (story, map) = manual_split(Rect::new(0, 0, 80, 23), 70, 30);
    assert_eq!(pl.story, story);
    assert_eq!(pl.map, map);
}

#[test]
fn panes_area_reconstructs_union_across_layouts() {
    for mode in [PaneMode::Split, PaneMode::TranscriptFull] {
        let pl = default_layout(mode);
        assert_eq!(pl.panes_area(), Rect::new(0, 0, 80, 23), "{mode:?}");
    }
}

#[test]
fn inspector_forces_the_split() {
    let pl = compute_pane_layout(area80x24(), PaneMode::TranscriptFull, true, 50, false, 0, 0);
    assert!(pl.map.width > 0, "the inspector needs the map slot");
    assert_eq!(pl.story.width + pl.map.width, 80);
}

#[test]
fn layout_from_splits_places_panes() {
    let rows = (Rect::new(0, 0, 10, 5), Rect::new(0, 5, 10, 1), Rect::new(0, 6, 10, 2), Rect::new(0, 8, 10, 1));
    let pl = layout_from_splits(rows, None);
    assert_eq!(pl.story, Rect::new(0, 0, 10, 5));
    assert_eq!(pl.map, Rect::new(0, 0, 0, 0));
    assert_eq!((pl.command_band, pl.inv_dock, pl.help_row), (rows.1, rows.2, rows.3));
    let pl = layout_from_splits(rows, Some((Rect::new(0, 0, 6, 5), Rect::new(6, 0, 4, 5))));
    assert_eq!(pl.story, Rect::new(0, 0, 6, 5));
    assert_eq!(pl.map, Rect::new(6, 0, 4, 5));
}
