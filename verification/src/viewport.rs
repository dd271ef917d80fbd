//! Scroll-offset bookkeeping for a viewport into a growing scrollback.
//!
//! The grid's extent is never stored: every operation receives the
//! live [`GridExtent`] and recomputes the valid offset bounds from it,
//! so the stored offset cannot drift as history grows or is dropped.
//! The one policy beyond clamping is auto-follow: an offset sitting
//! exactly at the newest content stays pinned there across appends and
//! resizes, while any other offset is left where the user put it.

use vstd::prelude::*;

use crate::geometry::Size;

verus! {

/// What the viewport reads of the grid's scrollback: `total` is the
/// absolute row index just past the newest row (rows are numbered from
/// the start of history and never reused), `retained` is how many of
/// those rows are still addressable, oldest rows being dropped first.
#[derive(Debug, Clone, Copy, PartialEq, Eq, Structural)]
pub struct GridExtent {
    pub total: usize,
    pub retained: usize,
}

/// The smallest valid scroll offset: the oldest row still addressable.
pub open spec fn spec_min_scroll(ext: GridExtent) -> usize {
    if ext.retained <= ext.total {
        (ext.total - ext.retained) as usize
    } else {
        0
    }
}

/// The largest valid scroll offset: the one that puts the newest row
/// on the last viewport line, floored at zero while history is still
/// shorter than the window.
pub open spec fn spec_max_scroll(ext: GridExtent, rows: usize) -> usize {
    if rows <= ext.total {
        (ext.total - rows) as usize
    } else {
        0
    }
}

/// `target` forced into `[lo, hi]`; when the interval is empty
/// (`lo > hi`) the lower bound wins, matching clamping first from
/// above and then from below.
pub open spec fn spec_clamp(target: int, lo: usize, hi: usize) -> usize {
    let capped = if target <= hi { target } else { hi as int };
    if capped <= lo {
        lo
    } else {
        capped as usize
    }
}

/// The scroll offset and the viewport dimensions it is interpreted
/// against.  The offset is the absolute row shown on the top line.
#[derive(Debug, Clone, Copy, PartialEq, Eq, Structural)]
pub struct Viewport {
    pub offset: usize,
    pub size: Size,
}

/// Specification counterpart of [`Viewport::resize`]: keep the pin to
/// the newest content if the offset sat exactly there, otherwise clamp
/// against the bounds of the new row count without shifting.
pub open spec fn spec_resize(vp: Viewport, new_size: Size, ext: GridExtent) -> Viewport {
    let offset = if vp.offset == spec_max_scroll(ext, vp.size.rows) {
        spec_max_scroll(ext, new_size.rows)
    } else {
        spec_clamp(vp.offset as int, spec_min_scroll(ext), spec_max_scroll(ext, new_size.rows))
    };
    Viewport { offset, size: new_size }
}

/// The viewport after resizing through `sizes` in order, all against
/// the same grid extent.
pub open spec fn spec_resize_all(vp: Viewport, sizes: Seq<Size>, ext: GridExtent) -> Viewport
    decreases sizes.len(),
{
    if sizes.len() == 0 {
        vp
    } else {
        spec_resize_all(spec_resize(vp, sizes[0], ext), sizes.drop_first(), ext)
    }
}

impl Viewport {
    /// A viewport showing the newest content of an empty history.
    pub fn new(size: Size) -> (r: Self)
        ensures
            r.offset == 0,
            r.size == size,
    {
        Self { offset: 0, size }
    }

    /// The oldest offset still addressable, derived from the live
    /// extent on every call.
    pub fn min_scroll(&self, ext: &GridExtent) -> (r: usize)
        ensures
            r == spec_min_scroll(*ext),
    {
        ext.total.saturating_sub(ext.retained)
    }

    /// The offset pinned to the newest content, derived from the live
    /// extent on every call.
    pub fn max_scroll(&self, ext: &GridExtent) -> (r: usize)
        ensures
            r == spec_max_scroll(*ext, self.size.rows),
    {
        ext.total.saturating_sub(self.size.rows)
    }

    /// Whether the viewport currently follows the newest content.
    pub fn is_pinned(&self, ext: &GridExtent) -> (r: bool)
        ensures
            r == (self.offset == spec_max_scroll(*ext, self.size.rows)),
    {
        self.offset == self.max_scroll(ext)
    }

    /// Moves the offset by `-delta` rows (a positive wheel delta
    /// scrolls toward older content), clamped to the valid bounds.
    /// Whatever the delta, the offset lands inside `[min, max]`
    /// whenever that interval is non-empty.
    pub fn scroll(&mut self, delta: isize, ext: &GridExtent)
        ensures
            final(self).size == old(self).size,
            final(self).offset == spec_clamp(
                old(self).offset - delta,
                spec_min_scroll(*ext),
                spec_max_scroll(*ext, old(self).size.rows),
            ),
            spec_min_scroll(*ext) <= spec_max_scroll(*ext, old(self).size.rows) ==> spec_min_scroll(
                *ext,
            ) <= final(self).offset <= spec_max_scroll(*ext, old(self).size.rows),
    {
        let target: usize = if delta >= 0 {
            let down = delta as usize;
            if down <= self.offset {
                self.offset - down
            } else {
                0
            }
        } else {
            // -delta without overflow, even for the smallest delta:
            // -(delta + 1) fits in isize, and the missing 1 is added
            // back with saturation.
            let up = (-(delta + 1)) as usize;
            self.offset.saturating_add(up).saturating_add(1)
        };
        self.set_offset(target, ext);
    }

    /// Sets the offset directly, clamped to the valid bounds.
    pub fn scroll_to(&mut self, target: usize, ext: &GridExtent)
        ensures
            final(self).size == old(self).size,
            final(self).offset == spec_clamp(
                target as int,
                spec_min_scroll(*ext),
                spec_max_scroll(*ext, old(self).size.rows),
            ),
            spec_min_scroll(*ext) <= spec_max_scroll(*ext, old(self).size.rows) ==> spec_min_scroll(
                *ext,
            ) <= final(self).offset <= spec_max_scroll(*ext, old(self).size.rows),
    {
        self.set_offset(target, ext);
    }

    /// Applies a new viewport geometry.  If the offset was pinned to
    /// the newest content under the old row count it stays pinned
    /// under the new one; otherwise it is clamped but not shifted, so
    /// growing the window reveals more history instead of jumping.
    pub fn resize(&mut self, new_size: Size, ext: &GridExtent)
        ensures
            *final(self) == spec_resize(*old(self), new_size, *ext),
            old(self).offset == spec_max_scroll(*ext, old(self).size.rows) ==> final(self).offset
                == spec_max_scroll(*ext, new_size.rows),
    {
        let pinned = self.is_pinned(ext);
        self.size = new_size;
        if pinned {
            self.offset = self.max_scroll(ext);
        } else {
            let target = self.offset;
            self.set_offset(target, ext);
        }
    }

    /// The grid advanced from `old_ext` to `new_ext`.  A viewport that
    /// was pinned to the newest content re-pins to the new newest row;
    /// any other offset is only re-clamped, so arriving output does
    /// not steal the scroll position while the user reads history.
    pub fn on_content_appended(&mut self, old_ext: &GridExtent, new_ext: &GridExtent)
        ensures
            final(self).size == old(self).size,
            old(self).offset == spec_max_scroll(*old_ext, old(self).size.rows)
                ==> final(self).offset == spec_max_scroll(*new_ext, old(self).size.rows),
            old(self).offset != spec_max_scroll(*old_ext, old(self).size.rows)
                ==> final(self).offset == spec_clamp(
                old(self).offset as int,
                spec_min_scroll(*new_ext),
                spec_max_scroll(*new_ext, old(self).size.rows),
            ),
    {
        let was_pinned = self.is_pinned(old_ext);
        if was_pinned {
            self.offset = self.max_scroll(new_ext);
        } else {
            let target = self.offset;
            self.set_offset(target, new_ext);
        }
    }

    /// Clamps `target` against the bounds derived from `ext` and
    /// stores it.
    fn set_offset(&mut self, target: usize, ext: &GridExtent)
        ensures
            final(self).size == old(self).size,
            final(self).offset == spec_clamp(
                target as int,
                spec_min_scroll(*ext),
                spec_max_scroll(*ext, old(self).size.rows),
            ),
    {
        let lo = self.min_scroll(ext);
        let hi = self.max_scroll(ext);
        let capped = if target <= hi {
            target
        } else {
            hi
        };
        self.offset = if capped <= lo {
            lo
        } else {
            capped
        };
    }
}

/// Starting pinned to the newest content, any sequence of resizes
/// against one grid extent leaves the viewport pinned: the offset
/// still equals the largest valid offset for the final row count.
pub proof fn lemma_resizes_preserve_pin(vp: Viewport, sizes: Seq<Size>, ext: GridExtent)
    requires
        vp.offset == spec_max_scroll(ext, vp.size.rows),
    ensures
        ({
            let after = spec_resize_all(vp, sizes, ext);
            after.offset == spec_max_scroll(ext, after.size.rows)
        }),
    decreases sizes.len(),
{
    if sizes.len() > 0 {
        lemma_resizes_preserve_pin(spec_resize(vp, sizes[0], ext), sizes.drop_first(), ext);
    }
}

/// Resizing is idempotent: a second `resize` with the same arguments
/// changes nothing.
pub proof fn lemma_resize_idempotent(vp: Viewport, new_size: Size, ext: GridExtent)
    ensures
        spec_resize(spec_resize(vp, new_size, ext), new_size, ext) == spec_resize(
            vp,
            new_size,
            ext,
        ),
{
}

} // verus!
