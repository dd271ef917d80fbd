//! Mouse-driven text selection, tracked independently of rendering.
//!
//! A selection is a pair of grid coordinates.  The anchor is stored in
//! absolute coordinates as soon as the pointer goes down; the moving
//! end of an in-progress selection is stored viewport-relative together
//! with the scroll offset at capture time and re-resolved to an
//! absolute position on every query, so the gesture follows the screen
//! while the mouse button is held.  `start` and `end` are never
//! pre-ordered: ordering is applied at query time by `(y, x)`
//! lexicographic comparison.
//!
//! Every transition that changes which absolute rows are or were
//! selected returns the inclusive row range touched, which the caller
//! forwards to the row cache as an invalidation request.

use core::ops::Range;
use vstd::prelude::*;

use crate::geometry::VisiblePosition;

verus! {

/// An absolute grid coordinate: `x` is a column, `y` a row index into
/// the scrollback.  Independent of the current scroll offset.
#[derive(Debug, Clone, Copy, PartialEq, Eq, Structural)]
pub struct SelectionPosition {
    pub x: usize,
    pub y: usize,
}

/// Where `pos` lands in absolute coordinates when captured under
/// scroll offset `offset`.
pub open spec fn spec_resolve(pos: VisiblePosition, offset: usize) -> SelectionPosition {
    SelectionPosition { x: pos.x, y: (pos.y + offset) as usize }
}

impl SelectionPosition {
    /// Converts a viewport-relative position to an absolute one by
    /// adding the scroll offset in effect when it was captured.
    pub fn from_visible(visible: VisiblePosition, offset: usize) -> (r: Self)
        requires
            visible.y + offset <= usize::MAX,
        ensures
            r == spec_resolve(visible, offset),
    {
        Self { x: visible.x, y: visible.y + offset }
    }
}

/// The phases of a selection gesture.
#[derive(Debug, Clone, Copy, PartialEq, Eq, Structural)]
pub enum SelectionStep {
    /// No selection and no gesture in progress.
    Idle,
    /// The pointer went down at this absolute position; nothing is
    /// visibly selected yet.
    Starting(SelectionPosition),
    /// The pointer is down and has moved: a visible selection from the
    /// absolute anchor to a moving end.  The end is kept
    /// viewport-relative and resolved against the current scroll
    /// offset on every query.
    Active { start: SelectionPosition, end: VisiblePosition },
    /// The gesture finished; both endpoints are absolute.
    Committed { start: SelectionPosition, end: SelectionPosition },
}

/// The selection state machine: the current phase plus the scroll
/// offset used to resolve a viewport-relative end position.
#[derive(Debug, Clone, Copy, PartialEq, Eq, Structural)]
pub struct SelectionState {
    pub step: SelectionStep,
    pub scroll_offset: usize,
}

/// The inclusive row interval `[a, b]` as a half-open range, whichever
/// way round the rows are given.
pub open spec fn spec_row_span(a: usize, b: usize) -> (usize, usize) {
    if a > b {
        (b, (a + 1) as usize)
    } else {
        (a, (b + 1) as usize)
    }
}

impl SelectionState {
    /// Machine bound keeping every row arithmetic in this module free
    /// of overflow: each stored absolute row, and the resolution of a
    /// stored viewport-relative end, stays below `usize::MAX`.
    pub open spec fn wf(self) -> bool {
        match self.step {
            SelectionStep::Idle => true,
            SelectionStep::Starting(p) => p.y < usize::MAX,
            SelectionStep::Active { start, end } => start.y < usize::MAX && end.y
                + self.scroll_offset < usize::MAX,
            SelectionStep::Committed { start, end } => start.y < usize::MAX && end.y < usize::MAX,
        }
    }

    /// The rows the current phase touches on screen, if any: the
    /// inclusive span between anchor and (resolved) end.  Redrawing
    /// them erases or repaints the highlight when the phase changes.
    pub open spec fn spec_touched_rows(self) -> Option<(usize, usize)> {
        match self.step {
            SelectionStep::Active { start, end } => Some(
                spec_row_span(start.y, spec_resolve(end, self.scroll_offset).y),
            ),
            SelectionStep::Committed { start, end } => Some(spec_row_span(start.y, end.y)),
            _ => None,
        }
    }

    pub fn new() -> (r: Self)
        ensures
            r.step == SelectionStep::Idle,
            r.scroll_offset == 0,
            r.wf(),
    {
        Self { step: SelectionStep::Idle, scroll_offset: 0 }
    }

    /// Pointer-down: any prior selection is cleared and its rows are
    /// reported for invalidation; a new gesture starts at `pos`.
    pub fn start(&mut self, pos: VisiblePosition) -> (r: Option<Range<usize>>)
        requires
            old(self).wf(),
            pos.y + old(self).scroll_offset < usize::MAX,
        ensures
            final(self).scroll_offset == old(self).scroll_offset,
            final(self).step == SelectionStep::Starting(
                spec_resolve(pos, old(self).scroll_offset),
            ),
            final(self).wf(),
            match old(self).spec_touched_rows() {
                Some(span) => r matches Some(rg) && (rg.start, rg.end) == span,
                None => r is None,
            },
    {
        let invalidate: Option<Range<usize>> = match &self.step {
            SelectionStep::Active { start, end } => {
                let end = SelectionPosition::from_visible(end.clone(), self.scroll_offset);
                if start.y > end.y {
                    Some(end.y..start.y + 1)
                } else {
                    Some(start.y..end.y + 1)
                }
            },
            SelectionStep::Committed { start, end } => {
                if start.y > end.y {
                    Some(end.y..start.y + 1)
                } else {
                    Some(start.y..end.y + 1)
                }
            },
            _ => None,
        };
        self.step = SelectionStep::Starting(
            SelectionPosition::from_visible(pos, self.scroll_offset),
        );
        invalidate
    }

    /// Pointer-move: begins or extends the visible selection.  The
    /// reported rows span the old end line and the new one, so both the
    /// freshly selected and the just-deselected lines are repainted.
    /// In any other phase this is a no-op.
    pub fn move_end(&mut self, pos: VisiblePosition) -> (r: Option<Range<usize>>)
        requires
            old(self).wf(),
            pos.y + old(self).scroll_offset < usize::MAX,
        ensures
            final(self).scroll_offset == old(self).scroll_offset,
            final(self).wf(),
            match old(self).step {
                SelectionStep::Starting(anchor) => r matches Some(rg) && (rg.start, rg.end)
                    == spec_row_span(
                    anchor.y,
                    spec_resolve(pos, old(self).scroll_offset).y,
                ) && final(self).step == (SelectionStep::Active { start: anchor, end: pos }),
                SelectionStep::Active { start, end } => r matches Some(rg) && (rg.start, rg.end)
                    == spec_row_span(
                    spec_resolve(end, old(self).scroll_offset).y,
                    spec_resolve(pos, old(self).scroll_offset).y,
                ) && final(self).step == (SelectionStep::Active { start, end: pos }),
                _ => *final(self) == *old(self) && r is None,
            },
    {
        match &self.step {
            SelectionStep::Active { start, end } => {
                let old_line = SelectionPosition::from_visible(
                    end.clone(),
                    self.scroll_offset,
                ).y;
                let new_line = SelectionPosition::from_visible(pos.clone(), self.scroll_offset).y;
                let range = if new_line > old_line {
                    old_line..new_line + 1
                } else {
                    new_line..old_line + 1
                };
                self.step = SelectionStep::Active { start: start.clone(), end: pos };
                Some(range)
            },
            SelectionStep::Starting(anchor) => {
                let old_line = anchor.y;
                let new_line = SelectionPosition::from_visible(pos.clone(), self.scroll_offset).y;
                let range = if new_line > old_line {
                    old_line..new_line + 1
                } else {
                    new_line..old_line + 1
                };
                self.step = SelectionStep::Active { start: anchor.clone(), end: pos };
                Some(range)
            },
            _ => None,
        }
    }

    /// Pointer-up: a moved selection is committed with its end frozen
    /// to an absolute position, unless the end resolves back onto the
    /// anchor — a zero-length selection is discarded, like a gesture
    /// that never moved.
    pub fn finish(&mut self)
        requires
            old(self).wf(),
        ensures
            final(self).scroll_offset == old(self).scroll_offset,
            final(self).wf(),
            match old(self).step {
                SelectionStep::Active { start, end } => {
                    let resolved = spec_resolve(end, old(self).scroll_offset);
                    if resolved == start {
                        final(self).step == SelectionStep::Idle
                    } else {
                        final(self).step == (SelectionStep::Committed { start, end: resolved })
                    }
                },
                SelectionStep::Starting(_) => final(self).step == SelectionStep::Idle,
                _ => *final(self) == *old(self),
            },
    {
        match &self.step {
            SelectionStep::Active { start, end } => {
                let end = SelectionPosition::from_visible(end.clone(), self.scroll_offset);
                if end == *start {
                    self.step = SelectionStep::Idle;
                } else {
                    self.step = SelectionStep::Committed { start: start.clone(), end };
                }
            },
            SelectionStep::Starting(_) => {
                self.step = SelectionStep::Idle;
            },
            _ => (),
        }
    }

    /// The viewport scrolled.  A viewport-relative end now resolves to
    /// a different absolute row, so the rows between the old and new
    /// resolution are reported for repaint.
    pub fn set_scroll(&mut self, offset: usize) -> (r: Option<Range<usize>>)
        requires
            old(self).wf(),
            old(self).step matches SelectionStep::Active { end, .. } ==> end.y + offset
                < usize::MAX,
        ensures
            final(self).scroll_offset == offset,
            final(self).step == old(self).step,
            final(self).wf(),
            match old(self).step {
                SelectionStep::Active { start, end } => {
                    let old_line = spec_resolve(end, old(self).scroll_offset).y;
                    let new_line = spec_resolve(end, offset).y;
                    if old_line == new_line {
                        r is None
                    } else {
                        r matches Some(rg) && (rg.start, rg.end) == spec_row_span(
                            old_line,
                            new_line,
                        )
                    }
                },
                _ => r is None,
            },
    {
        let range: Option<Range<usize>> = match &self.step {
            SelectionStep::Active { end, .. } => {
                let old_line = SelectionPosition::from_visible(
                    end.clone(),
                    self.scroll_offset,
                ).y;
                let new_line = SelectionPosition::from_visible(end.clone(), offset).y;
                if old_line == new_line {
                    None
                } else if old_line > new_line {
                    Some(new_line..old_line + 1)
                } else {
                    Some(old_line..new_line + 1)
                }
            },
            _ => None,
        };
        self.scroll_offset = offset;
        range
    }

    /// Whether a gesture is in progress (the pointer is down), as
    /// opposed to idle or already committed.
    pub fn is_active(&self) -> (r: bool)
        ensures
            r == (self.step matches SelectionStep::Starting(_) || self.step
                matches SelectionStep::Active { .. }),
    {
        match &self.step {
            SelectionStep::Active { .. } => true,
            SelectionStep::Starting(_) => true,
            _ => false,
        }
    }

    /// The selection to query against, if one is visible: an active
    /// gesture with its end resolved against the current offset, or a
    /// committed selection.  Both are normalized.
    pub fn get_selection(&self) -> (r: Option<Selection>)
        requires
            self.wf(),
        ensures
            r == self.spec_selection(),
    {
        match &self.step {
            SelectionStep::Active { start, end } => Some(
                Selection::new(
                    start.clone(),
                    SelectionPosition::from_visible(end.clone(), self.scroll_offset),
                ),
            ),
            SelectionStep::Committed { start, end } => Some(
                Selection::new(start.clone(), end.clone()),
            ),
            _ => None,
        }
    }

    /// Specification counterpart of [`Self::get_selection`].
    pub open spec fn spec_selection(self) -> Option<Selection> {
        match self.step {
            SelectionStep::Active { start, end } => Some(
                spec_normalize(start, spec_resolve(end, self.scroll_offset)),
            ),
            SelectionStep::Committed { start, end } => Some(spec_normalize(start, end)),
            _ => None,
        }
    }
}

/// A finished or queryable selection, normalized so that `start` comes
/// no later than `end` in `(y, x)` lexicographic order.
#[derive(Debug, Clone, Copy, PartialEq, Eq, Structural)]
pub struct Selection {
    pub start: SelectionPosition,
    pub end: SelectionPosition,
}

/// `(y, x)` lexicographic order on absolute positions.
pub open spec fn spec_pos_le(a: SelectionPosition, b: SelectionPosition) -> bool {
    a.y < b.y || (a.y == b.y && a.x <= b.x)
}

/// The selection over endpoints `a` and `b`, put in query order.
pub open spec fn spec_normalize(a: SelectionPosition, b: SelectionPosition) -> Selection {
    if spec_pos_le(a, b) {
        Selection { start: a, end: b }
    } else {
        Selection { start: b, end: a }
    }
}

impl Selection {
    /// Builds a selection from two endpoints in either order.
    pub fn new(start: SelectionPosition, end: SelectionPosition) -> (r: Self)
        ensures
            r == spec_normalize(start, end),
            spec_pos_le(r.start, r.end),
    {
        let (start, end) = if start.y < end.y || (start.y == end.y && start.x <= end.x) {
            (start, end)
        } else {
            (end, start)
        };
        Self { start, end }
    }
}

/// The membership rule shared by cache re-rendering and text
/// extraction: on the selection's single row, columns between the two
/// column bounds; on the first row of a multi-row selection, columns
/// from `start.x` on; on the last row, columns up to `end.x`; interior
/// rows entirely.
pub open spec fn spec_position_selected(selection: Option<Selection>, pos: SelectionPosition) -> bool {
    match selection {
        None => false,
        Some(sel) => {
            if pos.y < sel.start.y || pos.y > sel.end.y {
                false
            } else if pos.y == sel.start.y && pos.y == sel.end.y {
                sel.start.x <= pos.x <= sel.end.x
            } else if pos.y == sel.start.y {
                pos.x >= sel.start.x
            } else if pos.y == sel.end.y {
                pos.x <= sel.end.x
            } else {
                true
            }
        },
    }
}

/// Whether `pos` falls inside `selection`.  Both the row cache and
/// text extraction decide highlight and copy membership through this
/// one function, so the two can never disagree.
pub fn is_selected(selection: &Option<Selection>, pos: SelectionPosition) -> (r: bool)
    ensures
        r == spec_position_selected(*selection, pos),
{
    let sel = match selection {
        Some(sel) => sel,
        None => {
            return false;
        },
    };
    if pos.y < sel.start.y || pos.y > sel.end.y {
        return false;
    }
    if pos.y == sel.start.y && pos.y == sel.end.y {
        // Selection is on a single line
        pos.x >= sel.start.x && pos.x <= sel.end.x
    } else if pos.y == sel.start.y {
        // First line of a multi-line selection
        pos.x >= sel.start.x
    } else if pos.y == sel.end.y {
        // Last line of a multi-line selection
        pos.x <= sel.end.x
    } else {
        // Interior line of a multi-line selection
        true
    }
}

/// Selection membership does not depend on the order in which the two
/// endpoints were given: querying the selection built from `(a, b)`
/// agrees everywhere with querying the one built from `(b, a)`.
pub proof fn lemma_selection_symmetric(
    a: SelectionPosition,
    b: SelectionPosition,
    pos: SelectionPosition,
)
    ensures
        spec_position_selected(Some(spec_normalize(a, b)), pos) == spec_position_selected(
            Some(spec_normalize(b, a)),
            pos,
        ),
{
}

} // verus!
