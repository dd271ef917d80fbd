use frozen_term::engine::TerminalEngine;
use frozen_term::geometry::Size;
use frozen_term::geometry::VisiblePosition;
use frozen_term::input::InputSequence;
use frozen_term::row::Cell;
use frozen_term::row::CellAttributes;
use frozen_term::row::RowSnapshot;
use frozen_term::style::ColorSpec;
use frozen_term::style::CursorShape;
use frozen_term::style::Palette256;
use frozen_term::style::Rgba;
use frozen_term::style::Style;
use frozen_term::viewport::GridExtent;

const BLACK: Rgba = Rgba { r: 0, g: 0, b: 0, a: 255 };
const WHITE: Rgba = Rgba { r: 255, g: 255, b: 255, a: 255 };
const RED: Rgba = Rgba { r: 200, g: 0, b: 0, a: 255 };

fn test_style() -> Style {
    let mut colors = vec![BLACK; 256];
    colors[1] = RED;
    Style {
        background_color: BLACK,
        foreground_color: WHITE,
        cursor_shape: CursorShape::Block,
        palette: Palette256 { colors },
    }
}

fn plain_cell(text: &str) -> Cell {
    Cell { text: text.to_string(), attrs: CellAttributes::default() }
}

fn text_row(seqno: u64, text: &str) -> RowSnapshot {
    let cells = text.chars().map(|c| plain_cell(&c.to_string())).collect();
    RowSnapshot { seqno, cells }
}

fn ext(total: usize) -> GridExtent {
    GridExtent { total, retained: total }
}

fn vis(x: usize, y: usize) -> VisiblePosition {
    VisiblePosition { x, y }
}

fn engine(rows: usize) -> TerminalEngine {
    TerminalEngine::new(Size { cols: 80, rows }, 100, test_style())
}

/// The visible window of an all-`x` grid of `total` rows and `cols`
/// columns, as seen from `offset`.
fn x_window(offset: usize, rows: usize, cols: usize, total: usize) -> Vec<RowSnapshot> {
    let line: String = "x".repeat(cols);
    (0..rows)
        .map(|i| {
            if offset + i < total {
                text_row(1, &line)
            } else {
                RowSnapshot { seqno: 1, cells: Vec::new() }
            }
        })
        .collect()
}

#[test]
fn update_skips_rows_with_unchanged_seqno() {
    let mut eng = engine(4);
    let rows = vec![text_row(1, "one"), text_row(1, "two"), text_row(1, ""), text_row(1, "four")];
    let first = eng.update(&rows);
    assert_eq!(first, 4);
    let second = eng.update(&rows);
    assert_eq!(second, 0);
    // Same content under an older or equal sequence number: still hits.
    let third = eng.update(&rows);
    assert_eq!(third, 0);
}

#[test]
fn update_rerenders_only_the_changed_row() {
    let mut eng = engine(3);
    let rows = vec![text_row(1, "aaa"), text_row(1, "bbb"), text_row(1, "ccc")];
    assert_eq!(eng.update(&rows), 3);
    let rows2 = vec![text_row(1, "aaa"), text_row(2, "BBB"), text_row(1, "ccc")];
    assert_eq!(eng.update(&rows2), 1);
    let middle = eng.visible_row(1).unwrap();
    assert_eq!(middle.spans.len(), 1);
    assert_eq!(middle.spans[0].text, "BBB");
}

#[test]
fn blank_rows_render_as_nothing() {
    let mut eng = engine(2);
    let rows = vec![text_row(1, ""), text_row(1, "hi")];
    eng.update(&rows);
    assert_eq!(eng.visible_len(), 2);
    assert!(eng.visible_row(0).is_none());
    assert!(eng.visible_row(1).is_some());
}

#[test]
fn spans_split_on_attribute_change() {
    let mut eng = engine(1);
    let mut cells = vec![plain_cell("a"), plain_cell("b")];
    let mut red_attrs = CellAttributes::default();
    red_attrs.foreground = ColorSpec::PaletteIndex(1);
    cells.push(Cell { text: "c".to_string(), attrs: red_attrs });
    let rows = vec![RowSnapshot { seqno: 1, cells }];
    eng.update(&rows);
    let row = eng.visible_row(0).unwrap();
    assert_eq!(row.spans.len(), 2);
    assert_eq!(row.spans[0].text, "ab");
    assert_eq!(row.spans[0].foreground, None);
    assert_eq!(row.spans[1].text, "c");
    assert_eq!(row.spans[1].foreground, Some(RED));
    assert!(!row.advanced_shaping);
}

#[test]
fn selection_highlight_splits_and_swaps_colors() {
    let mut eng = engine(1);
    let _ = eng.start_selection(vis(1, 0));
    let _ = eng.move_selection(vis(2, 0));
    eng.end_selection();
    let rows = vec![text_row(1, "hello")];
    eng.update(&rows);
    let row = eng.visible_row(0).unwrap();
    let texts: Vec<&str> = row.spans.iter().map(|s| s.text.as_str()).collect();
    assert_eq!(texts, ["h", "el", "lo"]);
    // The selected run swaps foreground and background; with both at
    // the theme default it gets the opposite theme colors.
    assert_eq!(row.spans[0].foreground, None);
    assert_eq!(row.spans[0].background, None);
    assert_eq!(row.spans[1].foreground, Some(BLACK));
    assert_eq!(row.spans[1].background, Some(WHITE));
    assert_eq!(row.spans[2].foreground, None);
}

#[test]
fn reverse_video_cancels_selection_swap() {
    let mut eng = engine(1);
    let _ = eng.start_selection(vis(0, 0));
    let _ = eng.move_selection(vis(1, 0));
    eng.end_selection();
    let mut attrs = CellAttributes::default();
    attrs.reverse = true;
    let cells = vec![
        Cell { text: "r".to_string(), attrs },
        Cell { text: "v".to_string(), attrs },
    ];
    let rows = vec![RowSnapshot { seqno: 1, cells }];
    eng.update(&rows);
    let row = eng.visible_row(0).unwrap();
    // Both cells are selected and reverse-video: the two cancel out,
    // so the colors stay unswapped and the run stays whole.
    assert_eq!(row.spans.len(), 1);
    assert_eq!(row.spans[0].text, "rv");
    assert_eq!(row.spans[0].foreground, None);
    assert_eq!(row.spans[0].background, None);
}

#[test]
fn releasing_a_zero_length_selection_discards_it() {
    let mut eng = engine(4);
    // Pointer down and up on one cell without moving: discarded.
    let _ = eng.start_selection(vis(3, 2));
    eng.end_selection();
    assert!(eng.get_selection().is_none());
    // Pointer down, a move that returns to the anchor, then up: the
    // end resolves back onto the anchor, so this too is discarded.
    let _ = eng.start_selection(vis(3, 2));
    let _ = eng.move_selection(vis(5, 2));
    let _ = eng.move_selection(vis(3, 2));
    eng.end_selection();
    assert!(eng.get_selection().is_none());
    assert!(!eng.currently_selecting());
    // A one-cell difference is enough to commit.
    let _ = eng.start_selection(vis(3, 2));
    let _ = eng.move_selection(vis(4, 2));
    eng.end_selection();
    assert!(eng.get_selection().is_some());
}

#[test]
fn eviction_takes_the_end_farther_from_the_window() {
    let total = 50usize;
    let e = ext(total);
    let mut eng = TerminalEngine::new(Size { cols: 80, rows: 3 }, 5, test_style());
    // Scrolling forward grows the window at the back and, once the
    // bound is hit, evicts the oldest rows at the front.
    for offset in 0..4usize {
        let _ = eng.scroll_to(offset, &e);
        eng.update(&x_window(offset, 3, 2, total));
    }
    assert_eq!(eng.cache.entries.len(), 5);
    assert_eq!(eng.cache.base, 1);
    // Jumping back to the top grows at the front and evicts the
    // newest rows at the back instead.
    let _ = eng.scroll_to(0, &e);
    eng.update(&x_window(0, 3, 2, total));
    assert_eq!(eng.cache.entries.len(), 5);
    assert_eq!(eng.cache.base, 0);
}

#[test]
fn non_ascii_cells_request_advanced_shaping() {
    let mut eng = engine(1);
    let rows = vec![text_row(1, "héllo")];
    eng.update(&rows);
    assert!(eng.visible_row(0).unwrap().advanced_shaping);
}

#[test]
fn underline_carries_into_spans() {
    let mut eng = engine(1);
    let mut attrs = CellAttributes::default();
    attrs.underline = true;
    let rows = vec![RowSnapshot { seqno: 1, cells: vec![Cell { text: "u".to_string(), attrs }] }];
    eng.update(&rows);
    assert!(eng.visible_row(0).unwrap().spans[0].underline);
}

#[test]
fn true_color_resolves_directly() {
    let mut eng = engine(1);
    let mut attrs = CellAttributes::default();
    attrs.background = ColorSpec::TrueColor(RED);
    let rows = vec![RowSnapshot { seqno: 1, cells: vec![Cell { text: "t".to_string(), attrs }] }];
    eng.update(&rows);
    assert_eq!(eng.visible_row(0).unwrap().spans[0].background, Some(RED));
}

#[test]
fn cache_never_outgrows_its_bound() {
    // Scrolling forward one row at a time past a long history must
    // keep the window at its configured 100 entries.
    let total = 100_000usize;
    let window = 10usize;
    let e = ext(total);
    let mut eng = engine(window);
    let mut offset = 0usize;
    let _ = eng.scroll_to(0, &e);
    while offset < total - window {
        let rows = x_window(offset, window, 4, total);
        eng.update(&rows);
        assert!(eng.cache.entries.len() <= 100);
        offset += 1;
        let _ = eng.scroll_to(offset, &e);
    }
}

#[test]
fn visible_rows_follow_the_offset() {
    let e = ext(10);
    let mut eng = engine(3);
    let texts = ["r0", "r1", "r2", "r3", "r4", "r5", "r6", "r7", "r8", "r9"];
    let window = |from: usize| -> Vec<RowSnapshot> {
        (0..3).map(|i| text_row(1, texts[from + i])).collect()
    };
    let _ = eng.scroll_to(2, &e);
    eng.update(&window(2));
    for i in 0..3 {
        let row = eng.visible_row(i).unwrap();
        assert_eq!(row.spans[0].text, texts[2 + i]);
    }
    let _ = eng.scroll_to(6, &e);
    eng.update(&window(6));
    for i in 0..3 {
        let row = eng.visible_row(i).unwrap();
        assert_eq!(row.spans[0].text, texts[6 + i]);
    }
}

#[test]
fn invalidation_forces_rerender_without_seqno_change() {
    let mut eng = engine(3);
    let rows = vec![text_row(5, "aaa"), text_row(5, "bbb"), text_row(5, "ccc")];
    assert_eq!(eng.update(&rows), 3);
    assert_eq!(eng.update(&rows), 0);
    // Selecting rows 0..=1 invalidates them; the update re-renders
    // exactly those although no sequence number moved.
    let _ = eng.start_selection(vis(0, 0));
    let r = eng.move_selection(vis(2, 1));
    assert_eq!(r, Some(0..2));
    assert_eq!(eng.update(&rows), 2);
    assert_eq!(eng.update(&rows), 0);
}

#[test]
fn second_identical_resize_invalidates_nothing() {
    let e = ext(100);
    let mut eng = engine(10);
    // Pinned to the bottom with an active selection: the first resize
    // moves the offset and repaints the selection's rows.
    let _ = eng.scroll_to(90, &e);
    let _ = eng.start_selection(vis(0, 0));
    let _ = eng.move_selection(vis(3, 2));
    let first = eng.resize(Size { cols: 60, rows: 20 }, &e);
    assert_eq!(eng.get_scroll(), 80);
    assert_eq!(first, Some(82..93));
    let offset_after = eng.get_scroll();
    let size_after = eng.get_size();
    // Repeating the resize with identical arguments changes nothing
    // and invalidates nothing.
    let second = eng.resize(Size { cols: 60, rows: 20 }, &e);
    assert_eq!(eng.get_scroll(), offset_after);
    assert_eq!(eng.get_size(), size_after);
    assert!(second.is_none(), "second identical resize invalidated {:?}", second);
}

#[test]
fn selection_round_trip_extracts_the_selected_block() {
    // A 10-column grid of 'x', selection over rows 2..=5, cols 3..=7.
    let total = 10usize;
    let e = ext(total);
    let mut eng = engine(10);
    let _ = eng.scroll_to(0, &e);
    let _ = eng.start_selection(vis(3, 2));
    let _ = eng.move_selection(vis(7, 5));
    eng.end_selection();

    let range = eng.selection_row_range(&e).unwrap();
    assert_eq!(range, 2..6);
    let rows: Vec<RowSnapshot> = (range.start..range.end).map(|_| text_row(1, "xxxxxxxxxx")).collect();
    let text = eng.selected_text(range.start, &rows).unwrap();
    // First row from col 3 on (7 cells), interior rows whole (10),
    // last row through col 7 (8 cells); no trailing line break.
    assert_eq!(text, "xxxxxxx\nxxxxxxxxxx\nxxxxxxxxxx\nxxxxxxxx");
}

#[test]
fn extraction_without_selection_is_none() {
    let eng = engine(4);
    let rows = vec![text_row(1, "abc")];
    assert!(eng.selected_text(0, &rows).is_none());
}

#[test]
fn extraction_trims_trailing_blank_lines() {
    let e = ext(4);
    let mut eng = engine(4);
    let _ = eng.scroll_to(0, &e);
    let _ = eng.start_selection(vis(0, 0));
    let _ = eng.move_selection(vis(9, 3));
    eng.end_selection();
    let rows = vec![text_row(1, "ab"), text_row(1, "   "), text_row(1, ""), text_row(1, "")];
    let text = eng.selected_text(0, &rows).unwrap();
    assert_eq!(text, "ab");
}

#[test]
fn extraction_of_only_blanks_is_none() {
    let e = ext(2);
    let mut eng = engine(2);
    let _ = eng.scroll_to(0, &e);
    let _ = eng.start_selection(vis(0, 0));
    let _ = eng.move_selection(vis(5, 1));
    eng.end_selection();
    let rows = vec![text_row(1, "    "), text_row(1, "  ")];
    assert!(eng.selected_text(0, &rows).is_none());
}

#[test]
fn extraction_follows_scrolled_selection() {
    // Select while scrolled: stored coordinates are absolute, so the
    // extracted rows are the ones that were on screen.
    let total = 50usize;
    let e = ext(total);
    let mut eng = engine(10);
    let _ = eng.scroll_to(20, &e);
    let _ = eng.start_selection(vis(0, 1));
    let _ = eng.move_selection(vis(3, 1));
    eng.end_selection();
    let range = eng.selection_row_range(&e).unwrap();
    assert_eq!(range, 21..22);
    let rows = vec![text_row(1, "abcdef")];
    assert_eq!(eng.selected_text(range.start, &rows).unwrap(), "abcd");
}

#[test]
fn cursor_position_follows_scrollback() {
    let e = ext(100);
    let mut eng = engine(10);
    let _ = eng.scroll_to(90, &e);
    // Pinned to the newest content: the cursor sits where the grid
    // says.
    assert_eq!(eng.cursor_visible_position(4, 2, true, &e), Some(vis(4, 2)));
    // Scrolled up 5 rows: the live screen moves down by 5.
    let _ = eng.scroll_to(85, &e);
    assert_eq!(eng.cursor_visible_position(4, 2, true, &e), Some(vis(4, 7)));
    // Scrolled far enough the cursor leaves the window.
    let _ = eng.scroll_to(80, &e);
    assert_eq!(eng.cursor_visible_position(4, 2, true, &e), None);
    // A hidden cursor is never reported.
    let _ = eng.scroll_to(90, &e);
    assert_eq!(eng.cursor_visible_position(4, 2, false, &e), None);
}

#[test]
fn engine_scroll_keeps_selection_anchored() {
    let e = ext(100);
    let mut eng = engine(10);
    let _ = eng.scroll_to(50, &e);
    let _ = eng.start_selection(vis(2, 3));
    let _ = eng.move_selection(vis(5, 4));
    // The anchor resolved to absolute row 53 at capture time; the
    // moving end follows the viewport until the gesture ends.
    let r = eng.scroll(10, &e);
    assert_eq!(r, Some(44..55));
    let sel = eng.get_selection().unwrap();
    assert_eq!(sel.start.y, 44);
    assert_eq!(sel.end.y, 53);
}

#[test]
fn input_sequence_raw_passes_bytes_through() {
    let plan = InputSequence::Raw(vec![1, 2, 3]).into_writes();
    assert_eq!(plan.immediate, vec![1, 2, 3]);
    assert!(plan.delayed.is_none());
}

#[test]
fn input_sequence_abort_prefixes_interrupt() {
    let plan = InputSequence::AbortAndRaw(vec![9, 8]).into_writes();
    assert_eq!(plan.immediate, vec![3]);
    assert_eq!(plan.delayed, Some(vec![9, 8]));
}

#[test]
fn input_sequence_command_appends_newline() {
    let plan = InputSequence::AbortAndCommand("ls".to_string()).into_writes();
    assert_eq!(plan.immediate, vec![3]);
    assert_eq!(plan.delayed, Some(vec![b'l', b's', b'\n']));
}
