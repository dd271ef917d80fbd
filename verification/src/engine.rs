//! The display-side engine: one owner for the viewport, the selection
//! machine, the row cache and the theme, wired together the way a
//! frame loop drives them.
//!
//! Input events (scroll, resize, pointer) go through the viewport and
//! selection; whenever a transition reports a touched row range it is
//! forwarded to the cache as an invalidation, because selection
//! highlighting is cache content, not a draw-time overlay.  Each
//! redraw turn then calls [`TerminalEngine::update`] with snapshots of
//! the visible rows, and draws from the cached spans.
//!
//! The grid itself stays outside: operations take the live
//! [`GridExtent`] and row snapshots as arguments and store neither.

use core::ops::Range;
use vstd::prelude::*;

use crate::cache::RowCache;
use crate::cache::rows_views;
use crate::cache::spec_count_stale;
use crate::cache::spec_entry_renders;
use crate::cache::spec_realigned;
use crate::cache::CacheEntry;
use crate::extract;
use crate::extract::spec_extract;
use crate::geometry::Size;
use crate::geometry::VisiblePosition;
use crate::render::RenderedRow;
use crate::row::RowSnapshot;
use crate::selection::Selection;
use crate::selection::SelectionState;
use crate::selection::SelectionStep;
use crate::selection::spec_resolve;
use crate::selection::spec_row_span;
use crate::style::Style;
use crate::viewport::GridExtent;
use crate::viewport::Viewport;
use crate::viewport::spec_clamp;
use crate::viewport::spec_max_scroll;
use crate::viewport::spec_min_scroll;
use crate::viewport::spec_resize;

verus! {

/// `post` is `pre` with exactly the entries for absolute rows in
/// `[from, to)` marked never-computed, everything else untouched.
pub open spec fn spec_invalidated(pre: RowCache, post: RowCache, from: int, to: int) -> bool {
    &&& post.base == pre.base
    &&& post.entries@.len() == pre.entries@.len()
    &&& post.max_size == pre.max_size
    &&& post.vis_start == pre.vis_start
    &&& post.vis_len == pre.vis_len
    &&& forall|abs: int|
        post.covers(abs) ==> post.entry_at(abs) == (if from <= abs < to {
            CacheEntry { seqno: 0, rendered: pre.entry_at(abs).rendered }
        } else {
            pre.entry_at(abs)
        })
}

/// The effect every scroll-path operation has beyond the viewport:
/// the selection keeps its phase but now resolves against
/// `new_offset`, and where that moved an active selection end to a
/// different absolute row, exactly the rows between the old and new
/// resolution (`r`) were invalidated in the cache; in every other case
/// nothing is returned and the cache is untouched.
pub open spec fn spec_scroll_synced(
    pre: TerminalEngine,
    post: TerminalEngine,
    new_offset: usize,
    r: Option<Range<usize>>,
) -> bool {
    &&& post.selection.step == pre.selection.step
    &&& post.selection.scroll_offset == new_offset
    &&& match pre.selection.step {
        SelectionStep::Active { end, .. } => {
            let old_line = spec_resolve(end, pre.selection.scroll_offset).y;
            let new_line = spec_resolve(end, new_offset).y;
            if old_line == new_line {
                r is None && post.cache == pre.cache
            } else {
                r matches Some(rg) && (rg.start, rg.end) == spec_row_span(old_line, new_line)
                    && spec_invalidated(pre.cache, post.cache, rg.start as int, rg.end as int)
            }
        },
        _ => r is None && post.cache == pre.cache,
    }
}

/// The engine's pieces.  The stored scroll offset is mirrored into the
/// selection machine so that a viewport-relative selection end always
/// resolves against the offset actually shown.
pub struct TerminalEngine {
    pub viewport: Viewport,
    pub selection: SelectionState,
    pub cache: RowCache,
    pub style: Style,
}

impl TerminalEngine {
    pub open spec fn wf(self) -> bool {
        &&& self.selection.wf()
        &&& self.selection.scroll_offset == self.viewport.offset
        &&& self.cache.wf()
        &&& self.style.wf()
    }

    /// The machine bound the scroll operations need: re-resolving an
    /// active selection end against any offset the extent allows must
    /// stay below `usize::MAX`.
    pub open spec fn sel_end_fits(self, ext: GridExtent) -> bool {
        match self.selection.step {
            SelectionStep::Active { end, .. } => end.y + ext.total < usize::MAX,
            _ => true,
        }
    }

    /// A fresh engine: newest content followed, nothing selected,
    /// empty cache bounded by `max_cache_rows`.
    pub fn new(size: Size, max_cache_rows: usize, style: Style) -> (r: Self)
        requires
            max_cache_rows >= 1,
            style.wf(),
        ensures
            r.wf(),
            r.viewport.offset == 0,
            r.viewport.size == size,
            r.selection.step == SelectionStep::Idle,
            r.cache.max_size == max_cache_rows,
            r.cache.entries@.len() == 0,
    {
        Self {
            viewport: Viewport::new(size),
            selection: SelectionState::new(),
            cache: RowCache::new(max_cache_rows),
            style,
        }
    }

    /// Replaces the theme.  Already-cached rows keep their old colors
    /// until something re-renders them; callers that want an immediate
    /// repaint follow up with an invalidation of the visible range.
    pub fn set_style(&mut self, style: Style)
        requires
            old(self).wf(),
            style.wf(),
        ensures
            final(self).wf(),
            final(self).style == style,
            final(self).viewport == old(self).viewport,
            final(self).selection == old(self).selection,
            final(self).cache == old(self).cache,
    {
        self.style = style;
    }

    /// The current scroll offset.
    pub fn get_scroll(&self) -> (r: usize)
        ensures
            r == self.viewport.offset,
    {
        self.viewport.offset
    }

    /// The current viewport dimensions.
    pub fn get_size(&self) -> (r: Size)
        ensures
            r == self.viewport.size,
    {
        self.viewport.size
    }

    /// The oldest valid scroll offset, derived from the live extent.
    pub fn min_scroll(&self, ext: &GridExtent) -> (r: usize)
        ensures
            r == spec_min_scroll(*ext),
    {
        self.viewport.min_scroll(ext)
    }

    /// The newest valid scroll offset, derived from the live extent.
    pub fn max_scroll(&self, ext: &GridExtent) -> (r: usize)
        ensures
            r == spec_max_scroll(*ext, self.viewport.size.rows),
    {
        self.viewport.max_scroll(ext)
    }

    /// Re-clamps the already-updated viewport offset into the
    /// selection machine and forwards any touched rows to the cache.
    fn sync_selection_scroll(&mut self, ext: &GridExtent) -> (r: Option<Range<usize>>)
        requires
            old(self).selection.wf(),
            old(self).cache.wf(),
            old(self).style.wf(),
            old(self).sel_end_fits(*ext),
            old(self).viewport.offset <= ext.total,
        ensures
            final(self).wf(),
            final(self).viewport == old(self).viewport,
            final(self).style == old(self).style,
            spec_scroll_synced(*old(self), *final(self), old(self).viewport.offset, r),
    {
        let offset = self.viewport.offset;
        let invalidate = self.selection.set_scroll(offset);
        match &invalidate {
            Some(rg) => {
                self.cache.invalidate(rg.start, rg.end);
            },
            None => (),
        }
        invalidate
    }

    /// Scrolls by `-delta` rows, clamped against the live extent; the
    /// rows whose selection highlight moved are invalidated in the
    /// cache and returned for redraw scheduling.
    pub fn scroll(&mut self, delta: isize, ext: &GridExtent) -> (r: Option<Range<usize>>)
        requires
            old(self).wf(),
            old(self).sel_end_fits(*ext),
        ensures
            final(self).wf(),
            final(self).viewport.size == old(self).viewport.size,
            final(self).viewport.offset == spec_clamp(
                old(self).viewport.offset - delta,
                spec_min_scroll(*ext),
                spec_max_scroll(*ext, old(self).viewport.size.rows),
            ),
            spec_min_scroll(*ext) <= spec_max_scroll(*ext, old(self).viewport.size.rows)
                ==> spec_min_scroll(*ext) <= final(self).viewport.offset <= spec_max_scroll(
                *ext,
                old(self).viewport.size.rows,
            ),
            spec_scroll_synced(*old(self), *final(self), final(self).viewport.offset, r),
    {
        self.viewport.scroll(delta, ext);
        self.sync_selection_scroll(ext)
    }

    /// Scrolls directly to `target`, clamped against the live extent.
    pub fn scroll_to(&mut self, target: usize, ext: &GridExtent) -> (r: Option<Range<usize>>)
        requires
            old(self).wf(),
            old(self).sel_end_fits(*ext),
        ensures
            final(self).wf(),
            final(self).viewport.size == old(self).viewport.size,
            final(self).viewport.offset == spec_clamp(
                target as int,
                spec_min_scroll(*ext),
                spec_max_scroll(*ext, old(self).viewport.size.rows),
            ),
            spec_scroll_synced(*old(self), *final(self), final(self).viewport.offset, r),
    {
        self.viewport.scroll_to(target, ext);
        self.sync_selection_scroll(ext)
    }

    /// Applies a new viewport geometry: pinned-to-newest stays pinned,
    /// any other offset is clamped without shifting.
    pub fn resize(&mut self, new_size: Size, ext: &GridExtent) -> (r: Option<Range<usize>>)
        requires
            old(self).wf(),
            old(self).sel_end_fits(*ext),
        ensures
            final(self).wf(),
            final(self).viewport == spec_resize(old(self).viewport, new_size, *ext),
            old(self).viewport.offset == spec_max_scroll(*ext, old(self).viewport.size.rows)
                ==> final(self).viewport.offset == spec_max_scroll(*ext, new_size.rows),
            spec_scroll_synced(*old(self), *final(self), final(self).viewport.offset, r),
            // A resize that does not move the offset — in particular a
            // second resize with the same arguments — invalidates
            // nothing.
            spec_resize(old(self).viewport, new_size, *ext).offset == old(self).viewport.offset
                ==> r is None && final(self).cache == old(self).cache,
    {
        self.viewport.resize(new_size, ext);
        self.sync_selection_scroll(ext)
    }

    /// The grid advanced from `old_ext` to `new_ext`: re-pin if the
    /// viewport was following the newest content, leave it otherwise.
    pub fn on_content_appended(&mut self, old_ext: &GridExtent, new_ext: &GridExtent) -> (r: Option<
        Range<usize>,
    >)
        requires
            old(self).wf(),
            old(self).sel_end_fits(*new_ext),
        ensures
            final(self).wf(),
            final(self).viewport.size == old(self).viewport.size,
            old(self).viewport.offset == spec_max_scroll(*old_ext, old(self).viewport.size.rows)
                ==> final(self).viewport.offset == spec_max_scroll(
                *new_ext,
                old(self).viewport.size.rows,
            ),
            old(self).viewport.offset != spec_max_scroll(*old_ext, old(self).viewport.size.rows)
                ==> final(self).viewport.offset == spec_clamp(
                old(self).viewport.offset as int,
                spec_min_scroll(*new_ext),
                spec_max_scroll(*new_ext, old(self).viewport.size.rows),
            ),
            spec_scroll_synced(*old(self), *final(self), final(self).viewport.offset, r),
    {
        self.viewport.on_content_appended(old_ext, new_ext);
        self.sync_selection_scroll(new_ext)
    }

    /// Pointer-down: clears any prior selection (its rows are
    /// invalidated and returned) and starts a new gesture.
    pub fn start_selection(&mut self, pos: VisiblePosition) -> (r: Option<Range<usize>>)
        requires
            old(self).wf(),
            pos.y + old(self).viewport.offset < usize::MAX,
        ensures
            final(self).wf(),
            final(self).viewport == old(self).viewport,
            final(self).selection.step == SelectionStep::Starting(
                spec_resolve(pos, old(self).viewport.offset),
            ),
            match old(self).selection.spec_touched_rows() {
                Some(span) => r matches Some(rg) && (rg.start, rg.end) == span && spec_invalidated(
                    old(self).cache,
                    final(self).cache,
                    rg.start as int,
                    rg.end as int,
                ),
                None => r is None && final(self).cache == old(self).cache,
            },
    {
        let invalidate = self.selection.start(pos);
        match &invalidate {
            Some(rg) => {
                self.cache.invalidate(rg.start, rg.end);
            },
            None => (),
        }
        invalidate
    }

    /// Pointer-move: extends the gesture; the rows between the old and
    /// new end are invalidated and returned.
    pub fn move_selection(&mut self, pos: VisiblePosition) -> (r: Option<Range<usize>>)
        requires
            old(self).wf(),
            pos.y + old(self).viewport.offset < usize::MAX,
        ensures
            final(self).wf(),
            final(self).viewport == old(self).viewport,
            match old(self).selection.step {
                SelectionStep::Starting(anchor) => r matches Some(rg) && (rg.start, rg.end)
                    == spec_row_span(
                    anchor.y,
                    spec_resolve(pos, old(self).viewport.offset).y,
                ) && final(self).selection.step == (SelectionStep::Active {
                    start: anchor,
                    end: pos,
                }) && spec_invalidated(
                    old(self).cache,
                    final(self).cache,
                    rg.start as int,
                    rg.end as int,
                ),
                SelectionStep::Active { start, end } => r matches Some(rg) && (rg.start, rg.end)
                    == spec_row_span(
                    spec_resolve(end, old(self).viewport.offset).y,
                    spec_resolve(pos, old(self).viewport.offset).y,
                ) && final(self).selection.step == (SelectionStep::Active {
                    start,
                    end: pos,
                }) && spec_invalidated(
                    old(self).cache,
                    final(self).cache,
                    rg.start as int,
                    rg.end as int,
                ),
                _ => r is None && final(self).selection == old(self).selection && final(self).cache
                    == old(self).cache,
            },
    {
        let invalidate = self.selection.move_end(pos);
        match &invalidate {
            Some(rg) => {
                self.cache.invalidate(rg.start, rg.end);
            },
            None => (),
        }
        invalidate
    }

    /// Pointer-up: commits a moved selection; a gesture that never
    /// moved, or whose end resolves back onto its anchor, is a
    /// zero-length selection and is discarded.
    pub fn end_selection(&mut self)
        requires
            old(self).wf(),
        ensures
            final(self).wf(),
            final(self).viewport == old(self).viewport,
            final(self).cache == old(self).cache,
            match old(self).selection.step {
                SelectionStep::Active { start, end } => {
                    let resolved = spec_resolve(end, old(self).selection.scroll_offset);
                    if resolved == start {
                        final(self).selection.step == SelectionStep::Idle
                    } else {
                        final(self).selection.step == (SelectionStep::Committed {
                            start,
                            end: resolved,
                        })
                    }
                },
                SelectionStep::Starting(_) => final(self).selection.step == SelectionStep::Idle,
                _ => final(self).selection == old(self).selection,
            },
    {
        self.selection.finish();
    }

    /// Whether a selection gesture is in progress.
    pub fn currently_selecting(&self) -> (r: bool)
        ensures
            r == (self.selection.step matches SelectionStep::Starting(_)
                || self.selection.step matches SelectionStep::Active { .. }),
    {
        self.selection.is_active()
    }

    /// The current selection, normalized, if one is visible.
    pub fn get_selection(&self) -> (r: Option<Selection>)
        requires
            self.wf(),
        ensures
            r == self.selection.spec_selection(),
    {
        self.selection.get_selection()
    }

    /// Brings the cache in line with the visible window, whose
    /// snapshots start at the current scroll offset; re-renders only
    /// rows whose sequence number moved, and returns how many.
    pub fn update(&mut self, rows: &Vec<RowSnapshot>) -> (rerendered: usize)
        requires
            old(self).wf(),
            old(self).viewport.offset + rows@.len() <= usize::MAX,
        ensures
            final(self).wf(),
            final(self).viewport == old(self).viewport,
            final(self).selection == old(self).selection,
            final(self).cache.vis_len == rows@.len(),
            final(self).cache.entries@.len() <= if rows@.len() >= old(self).cache.max_size {
                rows@.len() as int
            } else {
                old(self).cache.max_size as int
            },
            // A visible window within the configured bound keeps the
            // cache within that bound.
            rows@.len() <= old(self).cache.max_size ==> final(self).cache.entries@.len() <= old(
                self,
            ).cache.max_size,
            // Window placement: eviction took the end farther from the
            // visible range.
            (final(self).cache.base as int, final(self).cache.entries@.len() as int)
                == spec_realigned(
                old(self).cache,
                old(self).viewport.offset as int,
                rows@.len() as int,
            ),
            forall|i: int|
                0 <= i < rows@.len() ==> {
                    let row = #[trigger] rows@[i]@;
                    let pre = old(self).cache.pre_entry(old(self).viewport.offset + i);
                    if row.seqno > pre.seqno {
                        spec_entry_renders(
                            final(self).cache.visible_entry(i),
                            old(self).style,
                            row,
                            old(self).selection.spec_selection(),
                            (old(self).viewport.offset + i) as usize,
                        )
                    } else {
                        final(self).cache.visible_entry(i) == pre
                    }
                },
            rerendered == spec_count_stale(
                old(self).cache,
                old(self).viewport.offset as int,
                rows_views(rows@),
                rows@.len() as int,
            ),
    {
        let sel = self.selection.get_selection();
        let offset = self.viewport.offset;
        self.cache.update(offset, rows, &sel, &self.style)
    }

    /// How many rows the last update made visible.
    pub fn visible_len(&self) -> (r: usize)
        ensures
            r == self.cache.vis_len,
    {
        self.cache.visible_len()
    }

    /// The cached rendering of the `i`-th visible row; `None` for a
    /// row with nothing to draw.
    pub fn visible_row(&self, i: usize) -> (r: Option<&RenderedRow>)
        requires
            self.wf(),
            i < self.cache.vis_len,
        ensures
            match self.cache.visible_entry(i as int).rendered {
                None => r is None,
                Some(rr) => r matches Some(p) && *p == rr,
            },
    {
        self.cache.visible_row(i)
    }

    /// The absolute rows a caller must fetch to extract the current
    /// selection, or `None` without one.
    pub fn selection_row_range(&self, ext: &GridExtent) -> (r: Option<Range<usize>>)
        requires
            self.wf(),
        ensures
            match self.selection.spec_selection() {
                None => r is None,
                Some(sel) => r matches Some(rg) && rg.start == sel.start.y && rg.end == (
                if sel.end.y >= ext.total {
                    ext.total
                } else {
                    (sel.end.y + 1) as usize
                }),
            },
    {
        let sel = self.selection.get_selection();
        extract::selection_row_range(&sel, ext.total)
    }

    /// Extracts the selected text from the given snapshots (their
    /// first row has absolute number `first_row`), reading the grid
    /// directly rather than the cache.
    pub fn selected_text(&self, first_row: usize, rows: &Vec<RowSnapshot>) -> (r: Option<String>)
        requires
            self.wf(),
            first_row + rows@.len() <= usize::MAX,
        ensures
            match spec_extract(self.selection.spec_selection(), first_row, rows_views(rows@)) {
                None => r is None,
                Some(t) => r matches Some(s) && s@ == t,
            },
    {
        let sel = self.selection.get_selection();
        extract::extract_text(&sel, first_row, rows)
    }

    /// Where the grid's cursor lands in the viewport, if it is inside
    /// it and visible.  `cursor_x` and `cursor_y` are the cursor's
    /// position on the live screen (the newest rows); scrolling back
    /// moves the cursor down and eventually out of the window.
    pub fn cursor_visible_position(
        &self,
        cursor_x: usize,
        cursor_y: usize,
        cursor_shown: bool,
        ext: &GridExtent,
    ) -> (r: Option<VisiblePosition>)
        ensures
            ({
                let inverse = if self.viewport.offset <= spec_max_scroll(
                    *ext,
                    self.viewport.size.rows,
                ) {
                    spec_max_scroll(*ext, self.viewport.size.rows) - self.viewport.offset
                } else {
                    0
                };
                let y = cursor_y + inverse;
                if cursor_shown && y < self.viewport.size.rows {
                    r matches Some(p) && p.x == cursor_x && p.y == y
                } else {
                    r is None
                }
            }),
    {
        let max = self.viewport.max_scroll(ext);
        let inverse = max.saturating_sub(self.viewport.offset);
        let y = cursor_y.saturating_add(inverse);
        if cursor_shown && y < self.viewport.size.rows {
            Some(VisiblePosition { x: cursor_x, y })
        } else {
            None
        }
    }
}

} // verus!
