use frozen_term::geometry::Size;
use frozen_term::geometry::VisiblePosition;
use frozen_term::selection::Selection;
use frozen_term::selection::SelectionPosition;
use frozen_term::selection::SelectionState;
use frozen_term::selection::SelectionStep;
use frozen_term::selection::is_selected;
use frozen_term::viewport::GridExtent;
use frozen_term::viewport::Viewport;

fn ext(total: usize, retained: usize) -> GridExtent {
    GridExtent { total, retained }
}

fn vis(x: usize, y: usize) -> VisiblePosition {
    VisiblePosition { x, y }
}

fn pos(x: usize, y: usize) -> SelectionPosition {
    SelectionPosition { x, y }
}

#[test]
fn scroll_moves_by_negative_delta() {
    let mut vp = Viewport::new(Size { cols: 80, rows: 10 });
    let e = ext(100, 100);
    vp.scroll_to(50, &e);
    assert_eq!(vp.offset, 50);
    vp.scroll(5, &e);
    assert_eq!(vp.offset, 45);
    vp.scroll(-5, &e);
    assert_eq!(vp.offset, 50);
}

#[test]
fn scroll_clamps_to_bounds() {
    let mut vp = Viewport::new(Size { cols: 80, rows: 10 });
    let e = ext(100, 100);
    assert_eq!(vp.min_scroll(&e), 0);
    assert_eq!(vp.max_scroll(&e), 90);
    vp.scroll(-1000, &e);
    assert_eq!(vp.offset, 90);
    vp.scroll(1000, &e);
    assert_eq!(vp.offset, 0);
    vp.scroll(isize::MIN, &e);
    assert_eq!(vp.offset, 90);
    vp.scroll(isize::MAX, &e);
    assert_eq!(vp.offset, 0);
}

#[test]
fn scroll_respects_dropped_history() {
    // 150 rows were ever produced, only the last 100 are retained:
    // the oldest addressable offset is 50.
    let mut vp = Viewport::new(Size { cols: 80, rows: 10 });
    let e = ext(150, 100);
    assert_eq!(vp.min_scroll(&e), 50);
    assert_eq!(vp.max_scroll(&e), 140);
    vp.scroll_to(0, &e);
    assert_eq!(vp.offset, 50);
    vp.scroll_to(500, &e);
    assert_eq!(vp.offset, 140);
    vp.scroll_to(70, &e);
    assert_eq!(vp.offset, 70);
}

#[test]
fn append_follows_newest_when_pinned() {
    let mut vp = Viewport::new(Size { cols: 80, rows: 10 });
    let before = ext(100, 100);
    vp.scroll_to(90, &before);
    assert_eq!(vp.offset, vp.max_scroll(&before));
    let after = ext(110, 110);
    vp.on_content_appended(&before, &after);
    assert_eq!(vp.offset, 100);
    assert_eq!(vp.offset, vp.max_scroll(&after));
}

#[test]
fn append_keeps_position_when_reading_history() {
    let mut vp = Viewport::new(Size { cols: 80, rows: 10 });
    let before = ext(100, 100);
    vp.scroll_to(40, &before);
    let after = ext(110, 110);
    vp.on_content_appended(&before, &after);
    assert_eq!(vp.offset, 40);
}

#[test]
fn resize_preserves_pin_across_sequence() {
    let mut vp = Viewport::new(Size { cols: 80, rows: 10 });
    let e = ext(100, 100);
    vp.scroll_to(90, &e);
    for rows in [5usize, 20, 7, 32, 10] {
        vp.resize(Size { cols: 80, rows }, &e);
        assert_eq!(vp.offset, vp.max_scroll(&e));
        assert_eq!(vp.offset, 100 - rows.min(100));
    }
}

#[test]
fn resize_unpinned_clamps_without_shifting() {
    let mut vp = Viewport::new(Size { cols: 80, rows: 10 });
    let e = ext(100, 100);
    vp.scroll_to(40, &e);
    // Growing the window reveals more history: the offset stays put.
    vp.resize(Size { cols: 80, rows: 20 }, &e);
    assert_eq!(vp.offset, 40);
    // A window taller than what is left below the offset pulls it up.
    vp.resize(Size { cols: 80, rows: 95 }, &e);
    assert_eq!(vp.offset, 5);
}

#[test]
fn resize_is_idempotent_on_viewport_state() {
    let mut vp = Viewport::new(Size { cols: 80, rows: 10 });
    let e = ext(100, 100);
    vp.scroll_to(40, &e);
    vp.resize(Size { cols: 120, rows: 30 }, &e);
    let first = vp;
    vp.resize(Size { cols: 120, rows: 30 }, &e);
    assert_eq!(vp, first);
}

#[test]
fn selection_machine_walks_its_phases() {
    let mut sel = SelectionState::new();
    assert!(matches!(sel.step, SelectionStep::Idle));
    assert!(!sel.is_active());
    assert!(sel.get_selection().is_none());

    let r = sel.start(vis(3, 2));
    assert!(r.is_none());
    assert!(matches!(sel.step, SelectionStep::Starting(_)));
    assert!(sel.is_active());
    // A gesture that has not moved yet shows no selection.
    assert!(sel.get_selection().is_none());

    let r = sel.move_end(vis(7, 5));
    assert_eq!(r, Some(2..6));
    assert!(sel.is_active());
    let s = sel.get_selection().unwrap();
    assert_eq!(s.start, pos(3, 2));
    assert_eq!(s.end, pos(7, 5));

    sel.finish();
    assert!(!sel.is_active());
    assert!(matches!(sel.step, SelectionStep::Committed { .. }));
    let s = sel.get_selection().unwrap();
    assert_eq!(s.start, pos(3, 2));
    assert_eq!(s.end, pos(7, 5));
}

#[test]
fn pointer_up_discards_unmoved_gesture() {
    let mut sel = SelectionState::new();
    let r = sel.start(vis(3, 2));
    assert!(r.is_none());
    sel.finish();
    assert!(matches!(sel.step, SelectionStep::Idle));
    assert!(sel.get_selection().is_none());
}

#[test]
fn pointer_up_discards_zero_length_selection() {
    // A gesture that moved and came back to its anchor is zero-length
    // at release and is discarded.
    let mut sel = SelectionState::new();
    let _ = sel.start(vis(3, 2));
    let _ = sel.move_end(vis(5, 4));
    let _ = sel.move_end(vis(3, 2));
    sel.finish();
    assert!(matches!(sel.step, SelectionStep::Idle));
    assert!(sel.get_selection().is_none());
}

#[test]
fn pointer_up_discards_end_resolving_onto_anchor() {
    // The moving end is viewport-relative: a scroll can carry it back
    // onto the anchor, and releasing there discards the selection.
    let mut sel = SelectionState::new();
    let _ = sel.start(vis(2, 3));
    let _ = sel.move_end(vis(2, 1));
    let _ = sel.set_scroll(2);
    sel.finish();
    assert!(matches!(sel.step, SelectionStep::Idle));
    // The same gesture released one column off commits.
    let _ = sel.set_scroll(0);
    let _ = sel.start(vis(2, 3));
    let _ = sel.move_end(vis(3, 1));
    let _ = sel.set_scroll(2);
    sel.finish();
    let s = sel.get_selection().unwrap();
    assert_eq!(s.start, pos(2, 3));
    assert_eq!(s.end, pos(3, 3));
}

#[test]
fn pointer_down_reports_cleared_rows() {
    let mut sel = SelectionState::new();
    let _ = sel.start(vis(3, 2));
    let _ = sel.move_end(vis(7, 5));
    sel.finish();
    // Starting again clears the committed rows 2..=5.
    let r = sel.start(vis(0, 0));
    assert_eq!(r, Some(2..6));
}

#[test]
fn move_reports_span_between_old_and_new_line() {
    let mut sel = SelectionState::new();
    let _ = sel.start(vis(0, 3));
    let r = sel.move_end(vis(4, 1));
    assert_eq!(r, Some(1..4));
    let r = sel.move_end(vis(4, 6));
    assert_eq!(r, Some(1..7));
}

#[test]
fn set_scroll_reresolves_active_end() {
    let mut sel = SelectionState::new();
    let _ = sel.start(vis(0, 0));
    let _ = sel.move_end(vis(4, 2));
    // The end sits at viewport row 2 under offset 0; offset 5 makes
    // that absolute row 7, so rows 2..=7 must repaint.
    let r = sel.set_scroll(5);
    assert_eq!(r, Some(2..8));
    let s = sel.get_selection().unwrap();
    assert_eq!(s.end, pos(4, 7));
    // The committed end no longer follows the offset.
    sel.finish();
    let r = sel.set_scroll(0);
    assert!(r.is_none());
    assert_eq!(sel.get_selection().unwrap().end, pos(4, 7));
}

#[test]
fn from_visible_adds_the_offset() {
    let p = SelectionPosition::from_visible(vis(3, 4), 10);
    assert_eq!(p, pos(3, 14));
}

#[test]
fn selection_membership_ignores_endpoint_order() {
    let forward = Some(Selection::new(pos(3, 1), pos(2, 5)));
    let backward = Some(Selection::new(pos(2, 5), pos(3, 1)));
    for y in 0..7usize {
        for x in 0..6usize {
            assert_eq!(
                is_selected(&forward, pos(x, y)),
                is_selected(&backward, pos(x, y)),
                "membership differed at ({}, {})",
                x,
                y
            );
        }
    }
}

#[test]
fn selection_membership_rules() {
    // Single row: both column bounds apply.
    let single = Some(Selection::new(pos(2, 4), pos(6, 4)));
    assert!(!is_selected(&single, pos(1, 4)));
    assert!(is_selected(&single, pos(2, 4)));
    assert!(is_selected(&single, pos(6, 4)));
    assert!(!is_selected(&single, pos(7, 4)));
    assert!(!is_selected(&single, pos(4, 3)));

    // Multi-row: first row from start.x, last row up to end.x,
    // interior rows entirely.
    let multi = Some(Selection::new(pos(5, 2), pos(1, 6)));
    assert!(!is_selected(&multi, pos(4, 2)));
    assert!(is_selected(&multi, pos(5, 2)));
    assert!(is_selected(&multi, pos(0, 3)));
    assert!(is_selected(&multi, pos(9, 5)));
    assert!(is_selected(&multi, pos(1, 6)));
    assert!(!is_selected(&multi, pos(2, 6)));
    assert!(!is_selected(&multi, pos(0, 7)));

    assert!(!is_selected(&None, pos(0, 0)));
}
