//! The bounded, incrementally updated cache of rendered rows.
//!
//! Entries sit in a contiguous window of absolute row numbers: the
//! entry for row `abs` lives at index `abs - base`.  On every update
//! the window is first realigned to cover the requested visible range
//! — growing at either end with placeholders and, once past the
//! configured bound, evicting from the end farther from the visible
//! range — and then only the rows whose grid sequence number moved past
//! the cached one are re-rendered.  A placeholder (`seqno == 0`) is
//! "never computed"; a cached `rendered == None` is a row verified to
//! be blank.

use vstd::prelude::*;

use crate::render::RenderedRow;
use crate::render::render_row;
use crate::render::spec_render_row;
use crate::row::RowSnapshot;
use crate::row::RowView;
use crate::selection::Selection;
use crate::style::Style;

verus! {

/// One cached row: the grid sequence number it was rendered at, and
/// the result (`None` for a verified-blank row).
#[derive(Debug, Clone)]
pub struct CacheEntry {
    pub seqno: u64,
    pub rendered: Option<RenderedRow>,
}

/// A never-computed entry.
pub open spec fn spec_placeholder() -> CacheEntry {
    CacheEntry { seqno: 0, rendered: None }
}

/// `n` never-computed entries.
pub open spec fn spec_placeholders(n: int) -> Seq<CacheEntry> {
    Seq::new(n as nat, |i: int| spec_placeholder())
}

/// The views of a sequence of row snapshots.
pub open spec fn rows_views(rows: Seq<RowSnapshot>) -> Seq<RowView> {
    Seq::new(rows.len(), |i: int| rows[i]@)
}

/// Where the window sits after realigning `pre` to cover
/// `[start, start + len)`: the pair `(base, length)`.
///
/// A window disjoint from the request is rebuilt exactly over the
/// request.  An overlapping window grows to the union of the two
/// ranges; if the union exceeds the bound (or the request length,
/// when that is larger), the excess is evicted from the slack
/// *outside* the requested range — first from the front slack, the
/// rows before the request, then from the back slack — so eviction
/// always takes the end farther from the visible range and never a
/// requested row.
pub open spec fn spec_realigned(pre: RowCache, start: int, len: int) -> (int, int) {
    let cap = if len >= pre.max_size {
        len
    } else {
        pre.max_size as int
    };
    let base0 = pre.base as int;
    let len0 = pre.entries@.len() as int;
    let end = start + len;
    if len0 == 0 || end <= base0 || base0 + len0 <= start {
        (start, len)
    } else {
        let lo = if start < base0 {
            start
        } else {
            base0
        };
        let hi = if end > base0 + len0 {
            end
        } else {
            base0 + len0
        };
        let union_len = hi - lo;
        if union_len <= cap {
            (lo, union_len)
        } else {
            let excess = union_len - cap;
            let front_slack = start - lo;
            let trim_front = if excess < front_slack {
                excess
            } else {
                front_slack
            };
            let after_front = union_len - trim_front;
            let kept = if after_front > cap {
                cap
            } else {
                after_front
            };
            (lo + trim_front, kept)
        }
    }
}

/// The sliding window of cached rows plus the slice of it that the
/// last update made visible.
#[derive(Debug, Clone)]
pub struct RowCache {
    /// Absolute row number of `entries[0]`.
    pub base: usize,
    /// The cached window, contiguous in absolute row numbers.
    pub entries: Vec<CacheEntry>,
    /// Bound on the window length; eviction keeps the window at or
    /// under it whenever the visible range itself fits.
    pub max_size: usize,
    /// Index into `entries` of the first visible row.
    pub vis_start: usize,
    /// Number of visible rows.
    pub vis_len: usize,
}

impl RowCache {
    pub open spec fn wf(self) -> bool {
        &&& self.max_size >= 1
        &&& self.vis_start + self.vis_len <= self.entries@.len()
        &&& self.base + self.entries@.len() <= usize::MAX
    }

    /// Whether absolute row `abs` is inside the cached window.
    pub open spec fn covers(self, abs: int) -> bool {
        self.base <= abs < self.base + self.entries@.len()
    }

    /// The cached entry for absolute row `abs`.
    pub open spec fn entry_at(self, abs: int) -> CacheEntry {
        self.entries@[abs - self.base]
    }

    /// The entry the update pass starts from for absolute row `abs`:
    /// whatever the window held, or a placeholder where it held
    /// nothing.
    pub open spec fn pre_entry(self, abs: int) -> CacheEntry {
        if self.covers(abs) {
            self.entry_at(abs)
        } else {
            spec_placeholder()
        }
    }

    /// The visible entry at visible index `i`.
    pub open spec fn visible_entry(self, i: int) -> CacheEntry {
        self.entries@[self.vis_start + i]
    }

    /// An empty cache bounded by `max_size` entries.
    pub fn new(max_size: usize) -> (r: Self)
        requires
            max_size >= 1,
        ensures
            r.wf(),
            r.max_size == max_size,
            r.entries@.len() == 0,
            r.vis_len == 0,
    {
        Self { base: 0, entries: Vec::new(), max_size, vis_start: 0, vis_len: 0 }
    }

    /// Appends `count` placeholders at the new end of the window.
    fn pad_back(&mut self, count: usize)
        requires
            old(self).base + old(self).entries@.len() + count <= usize::MAX,
        ensures
            final(self).entries@ == old(self).entries@ + spec_placeholders(count as int),
            final(self).base == old(self).base,
            final(self).max_size == old(self).max_size,
            final(self).vis_start == old(self).vis_start,
            final(self).vis_len == old(self).vis_len,
    {
        let mut added: usize = 0;
        while added < count
            invariant
                added <= count,
                old(self).base + old(self).entries@.len() + count <= usize::MAX,
                self.entries@ == old(self).entries@ + spec_placeholders(added as int),
                self.base == old(self).base,
                self.max_size == old(self).max_size,
                self.vis_start == old(self).vis_start,
                self.vis_len == old(self).vis_len,
            decreases count - added,
        {
            self.entries.push(CacheEntry { seqno: 0, rendered: None });
            added += 1;
            proof {
                assert(self.entries@ =~= old(self).entries@ + spec_placeholders(added as int));
            }
        }
    }

    /// Prepends `count` placeholders at the old end of the window and
    /// slides the base back to match.
    fn pad_front(&mut self, count: usize)
        requires
            count <= old(self).base,
            old(self).base + old(self).entries@.len() <= usize::MAX,
        ensures
            final(self).entries@ == spec_placeholders(count as int) + old(self).entries@,
            final(self).base == old(self).base - count,
            final(self).max_size == old(self).max_size,
            final(self).vis_start == old(self).vis_start,
            final(self).vis_len == old(self).vis_len,
    {
        let mut added: usize = 0;
        while added < count
            invariant
                added <= count <= old(self).base,
                old(self).base + old(self).entries@.len() <= usize::MAX,
                self.entries@ == spec_placeholders(added as int) + old(self).entries@,
                self.base == old(self).base,
                self.max_size == old(self).max_size,
                self.vis_start == old(self).vis_start,
                self.vis_len == old(self).vis_len,
            decreases count - added,
        {
            self.entries.insert(0, CacheEntry { seqno: 0, rendered: None });
            added += 1;
            proof {
                assert(self.entries@ =~= spec_placeholders(added as int) + old(self).entries@);
            }
        }
        self.base = self.base - count;
    }

    /// Evicts `count` entries from the old end of the window.
    fn drop_front(&mut self, count: usize)
        requires
            count <= old(self).entries@.len(),
            old(self).base + old(self).entries@.len() <= usize::MAX,
        ensures
            final(self).entries@ == old(self).entries@.skip(count as int),
            final(self).base == old(self).base + count,
            final(self).max_size == old(self).max_size,
            final(self).vis_start == old(self).vis_start,
            final(self).vis_len == old(self).vis_len,
    {
        let mut removed: usize = 0;
        while removed < count
            invariant
                removed <= count <= old(self).entries@.len(),
                old(self).base + old(self).entries@.len() <= usize::MAX,
                self.entries@ == old(self).entries@.skip(removed as int),
                self.base == old(self).base,
                self.max_size == old(self).max_size,
                self.vis_start == old(self).vis_start,
                self.vis_len == old(self).vis_len,
            decreases count - removed,
        {
            self.entries.remove(0);
            removed += 1;
            proof {
                assert(self.entries@ =~= old(self).entries@.skip(removed as int));
            }
        }
        self.base = self.base + count;
    }

    /// Evicts `count` entries from the new end of the window.
    fn drop_back(&mut self, count: usize)
        requires
            count <= old(self).entries@.len(),
        ensures
            final(self).entries@ == old(self).entries@.take(
                old(self).entries@.len() - count,
            ),
            final(self).base == old(self).base,
            final(self).max_size == old(self).max_size,
            final(self).vis_start == old(self).vis_start,
            final(self).vis_len == old(self).vis_len,
    {
        let keep = self.entries.len() - count;
        self.entries.truncate(keep);
    }

    /// Realigns the window so that it covers `[start, start + len)`,
    /// evicting from the side away from that range once the window
    /// would outgrow its bound.  Entries the old window already held
    /// keep their contents; every newly covered row gets a
    /// placeholder.  The visible slice is left cleared for the caller
    /// to set.
    #[verifier::rlimit(60)]
    fn realign(&mut self, start: usize, len: usize)
        requires
            old(self).wf(),
            start + len <= usize::MAX,
        ensures
            final(self).wf(),
            final(self).max_size == old(self).max_size,
            final(self).vis_start == 0,
            final(self).vis_len == 0,
            final(self).base <= start,
            start + len <= final(self).base + final(self).entries@.len(),
            final(self).entries@.len() <= if len >= old(self).max_size {
                len as int
            } else {
                old(self).max_size as int
            },
            (final(self).base as int, final(self).entries@.len() as int) == spec_realigned(
                *old(self),
                start as int,
                len as int,
            ),
            forall|abs: int|
                final(self).covers(abs) ==> final(self).entry_at(abs) == old(self).pre_entry(abs),
    {
        self.vis_start = 0;
        self.vis_len = 0;
        let end = start + len;
        let cap: usize = if len >= self.max_size {
            len
        } else {
            self.max_size
        };
        let cur_len = self.entries.len();
        let cur_start = self.base;
        let cur_end = self.base + cur_len;

        if cur_len == 0 || end <= cur_start || cur_end <= start {
            // No overlap to preserve: rebuild the window exactly over
            // the requested range.
            self.entries.clear();
            self.base = start;
            self.pad_back(len);
            return ;
        }
        // Grow to the union of the old window and the requested range.
        if start < cur_start {
            self.pad_front(cur_start - start);
        }
        let grown_end = self.base + self.entries.len();
        if end > grown_end {
            self.pad_back(end - grown_end);
        }
        // Trim back down to the bound, taking eviction first from the
        // slack before the requested range and then from the slack
        // after it; the range itself is never evicted.
        if self.entries.len() > cap {
            let excess = self.entries.len() - cap;
            let front_slack = start - self.base;
            let trim_front = if excess < front_slack {
                excess
            } else {
                front_slack
            };
            self.drop_front(trim_front);
        }
        if self.entries.len() > cap {
            let excess = self.entries.len() - cap;
            self.drop_back(excess);
        }
    }

    /// Brings the cache in line with the visible range
    /// `[vis_from, vis_from + rows.len())`, re-rendering exactly the
    /// rows whose grid sequence number moved past the cached one, and
    /// returns how many rows were re-rendered.  Rows the grid reports
    /// unchanged are not touched — their cached entry is reused as is.
    pub fn update(
        &mut self,
        vis_from: usize,
        rows: &Vec<RowSnapshot>,
        sel: &Option<Selection>,
        style: &Style,
    ) -> (rerendered: usize)
        requires
            old(self).wf(),
            style.wf(),
            vis_from + rows@.len() <= usize::MAX,
        ensures
            final(self).wf(),
            final(self).max_size == old(self).max_size,
            final(self).vis_len == rows@.len(),
            final(self).base + final(self).vis_start == vis_from,
            final(self).entries@.len() <= if rows@.len() >= old(self).max_size {
                rows@.len() as int
            } else {
                old(self).max_size as int
            },
            // The bound of the stated eviction policy: a visible
            // window that fits the configured bound leaves the cache
            // within that bound, however long scrolling goes on.
            rows@.len() <= old(self).max_size ==> final(self).entries@.len() <= old(
                self,
            ).max_size,
            // Exactly where the window lands: eviction takes the end
            // farther from the visible range, never a visible row.
            (final(self).base as int, final(self).entries@.len() as int) == spec_realigned(
                *old(self),
                vis_from as int,
                rows@.len() as int,
            ),
            forall|i: int|
                0 <= i < rows@.len() ==> {
                    let row = #[trigger] rows@[i]@;
                    let pre = old(self).pre_entry(vis_from + i);
                    if row.seqno > pre.seqno {
                        spec_entry_renders(
                            final(self).visible_entry(i),
                            *style,
                            row,
                            *sel,
                            (vis_from + i) as usize,
                        )
                    } else {
                        final(self).visible_entry(i) == pre
                    }
                },
            forall|abs: int|
                final(self).covers(abs) && !(vis_from <= abs < vis_from + rows@.len())
                    ==> final(self).entry_at(abs) == old(self).pre_entry(abs),
            rerendered == spec_count_stale(
                *old(self),
                vis_from as int,
                rows_views(rows@),
                rows@.len() as int,
            ),
    {
        let n = rows.len();
        self.realign(vis_from, n);
        self.vis_start = vis_from - self.base;
        self.vis_len = n;

        let ghost pre = *old(self);
        let ghost rviews = rows_views(rows@);
        let ghost aligned_base = self.base;
        let ghost aligned_len = self.entries@.len();

        let mut count: usize = 0;
        let mut i: usize = 0;
        while i < n
            invariant
                style.wf(),
                n == rows@.len(),
                rviews == rows_views(rows@),
                i <= n,
                count <= i,
                self.max_size == pre.max_size,
                self.vis_len == n,
                self.vis_start == vis_from - self.base,
                self.base == aligned_base,
                self.entries@.len() == aligned_len,
                (aligned_base as int, aligned_len as int) == spec_realigned(
                    pre,
                    vis_from as int,
                    n as int,
                ),
                self.base <= vis_from,
                vis_from + n <= self.base + self.entries@.len(),
                self.base + self.entries@.len() <= usize::MAX,
                self.max_size >= 1,
                self.entries@.len() <= if n >= pre.max_size {
                    n as int
                } else {
                    pre.max_size as int
                },
                count == spec_count_stale(pre, vis_from as int, rviews, i as int),
                forall|j: int|
                    0 <= j < i ==> {
                        let row = #[trigger] rviews[j];
                        let before = pre.pre_entry(vis_from + j);
                        if row.seqno > before.seqno {
                            spec_entry_renders(
                                self.visible_entry(j),
                                *style,
                                row,
                                *sel,
                                (vis_from + j) as usize,
                            )
                        } else {
                            self.visible_entry(j) == before
                        }
                    },
                forall|j: int|
                    i <= j < n ==> self.entries@[self.vis_start + j] == #[trigger] pre.pre_entry(
                        vis_from + j,
                    ),
                forall|abs: int|
                    self.base <= abs < self.base + self.entries@.len() && !(vis_from <= abs
                        < vis_from + n) ==> self.entries@[abs - self.base]
                        == #[trigger] pre.pre_entry(abs),
            decreases n - i,
        {
            let idx = self.vis_start + i;
            let snap = rows[i].seqno;
            proof {
                assert(rviews[i as int] == rows@[i as int]@);
                assert(rviews[i as int].seqno == rows@[i as int].seqno);
                assert(self.entries@[idx as int] == pre.pre_entry(vis_from + i));
            }
            let ghost entries_before = self.entries@;
            if snap > self.entries[idx].seqno {
                let rendered = render_row(style, &rows[i].cells, sel, vis_from + i);
                proof {
                    assert(rviews[i as int].cells =~= crate::render::cells_views(
                        rows@[i as int].cells@,
                    ));
                }
                self.entries[idx] = CacheEntry { seqno: snap, rendered };
                count += 1;
                proof {
                    assert(self.entries@ == entries_before.update(
                        idx as int,
                        self.entries@[idx as int],
                    ));
                    assert(spec_entry_renders(
                        self.visible_entry(i as int),
                        *style,
                        rviews[i as int],
                        *sel,
                        (vis_from + i) as usize,
                    ));
                }
            } else {
                proof {
                    assert(self.visible_entry(i as int) == pre.pre_entry(vis_from + i));
                }
            }
            proof {
                assert forall|j: int| 0 <= j < n && j != i implies self.entries@[self.vis_start + j]
                    == #[trigger] entries_before[self.vis_start + j] by {
                    assert(self.vis_start + j != idx as int);
                }
                assert forall|j: int| 0 <= j < i implies {
                    let row = #[trigger] rviews[j];
                    let before = pre.pre_entry(vis_from + j);
                    if row.seqno > before.seqno {
                        spec_entry_renders(
                            self.visible_entry(j),
                            *style,
                            row,
                            *sel,
                            (vis_from + j) as usize,
                        )
                    } else {
                        self.visible_entry(j) == before
                    }
                } by {
                    assert(self.entries@[self.vis_start + j] == entries_before[self.vis_start + j]);
                    assert(self.visible_entry(j) == self.entries@[self.vis_start + j]);
                }
            }
            i += 1;
        }
        proof {
            assert forall|k: int| 0 <= k < rows@.len() implies {
                let row = #[trigger] rows@[k]@;
                let before = old(self).pre_entry(vis_from + k);
                if row.seqno > before.seqno {
                    spec_entry_renders(
                        self.visible_entry(k),
                        *style,
                        row,
                        *sel,
                        (vis_from + k) as usize,
                    )
                } else {
                    self.visible_entry(k) == before
                }
            } by {
                assert(rviews[k] == rows@[k]@);
                assert(self.visible_entry(k) == self.entries@[self.vis_start + k]);
            }
            assert forall|abs: int|
                self.covers(abs) && !(vis_from <= abs < vis_from + rows@.len()) implies self.entry_at(
                abs,
            ) == old(self).pre_entry(abs) by {
                assert(self.entries@[abs - self.base] == pre.pre_entry(abs));
            }
        }
        count
    }

    /// Marks every cached entry for the absolute rows in `[from, to)`
    /// as never computed, forcing the next update that shows them to
    /// re-render them whatever their grid sequence number says.  The
    /// stale contents stay in place until then.
    pub fn invalidate(&mut self, from: usize, to: usize)
        requires
            old(self).wf(),
        ensures
            final(self).wf(),
            final(self).base == old(self).base,
            final(self).max_size == old(self).max_size,
            final(self).vis_start == old(self).vis_start,
            final(self).vis_len == old(self).vis_len,
            final(self).entries@.len() == old(self).entries@.len(),
            forall|abs: int|
                final(self).covers(abs) ==> final(self).entry_at(abs) == (if from <= abs < to {
                    CacheEntry { seqno: 0, rendered: old(self).entry_at(abs).rendered }
                } else {
                    old(self).entry_at(abs)
                }),
    {
        let len = self.entries.len();
        let mut j: usize = 0;
        while j < len
            invariant
                len == self.entries@.len(),
                j <= len,
                self.base == old(self).base,
                self.max_size == old(self).max_size,
                self.vis_start == old(self).vis_start,
                self.vis_len == old(self).vis_len,
                self.entries@.len() == old(self).entries@.len(),
                old(self).wf(),
                forall|k: int|
                    0 <= k < j ==> self.entries@[k] == (
                    if from <= old(self).base + k < to {
                        CacheEntry {
                            seqno: 0,
                            rendered: old(self).entries@[k].rendered,
                        }
                    } else {
                        old(self).entries@[k]
                    }),
                forall|k: int| j <= k < len ==> self.entries@[k] == old(self).entries@[k],
            decreases len - j,
        {
            // `base + j` cannot overflow: the window end fits in usize.
            let abs = self.base + j;
            if from <= abs && abs < to {
                self.entries[j].seqno = 0;
            }
            j += 1;
        }
    }

    /// How many rows the last update made visible.
    pub fn visible_len(&self) -> (r: usize)
        ensures
            r == self.vis_len,
    {
        self.vis_len
    }

    /// The rendered output for the `i`-th visible row, or `None` for a
    /// row with nothing to draw.
    pub fn visible_row(&self, i: usize) -> (r: Option<&RenderedRow>)
        requires
            self.wf(),
            i < self.vis_len,
        ensures
            match self.visible_entry(i as int).rendered {
                None => r is None,
                Some(rr) => r matches Some(p) && *p == rr,
            },
    {
        self.entries[self.vis_start + i].rendered.as_ref()
    }
}

/// Holds of a cache entry that carries exactly the rendering of `row`
/// as row `y` under selection `sel` and theme `style`.
pub open spec fn spec_entry_renders(
    e: CacheEntry,
    style: Style,
    row: RowView,
    sel: Option<Selection>,
    y: usize,
) -> bool {
    e.seqno == row.seqno && match spec_render_row(style, row.cells, sel, y) {
        None => e.rendered is None,
        Some(v) => e.rendered matches Some(rr) && rr@ == v,
    }
}

/// How many of the first `n` visible rows an update starting from
/// cache state `pre` re-renders: those whose snapshot sequence number
/// is ahead of the entry the cache holds (or would hold) for them.
pub open spec fn spec_count_stale(pre: RowCache, vis_from: int, rows: Seq<RowView>, n: int) -> int
    decreases n,
{
    if n <= 0 {
        0
    } else {
        spec_count_stale(pre, vis_from, rows, n - 1) + if rows[n - 1].seqno > pre.pre_entry(
            vis_from + n - 1,
        ).seqno {
            1int
        } else {
            0int
        }
    }
}

/// An update whose visible rows all carry sequence numbers no newer
/// than what the cache already holds re-renders nothing.
pub proof fn lemma_unchanged_rows_rerender_nothing(
    pre: RowCache,
    vis_from: int,
    rows: Seq<RowView>,
    n: int,
)
    requires
        forall|i: int| 0 <= i < n ==> #[trigger] rows[i].seqno <= pre.pre_entry(vis_from + i).seqno,
    ensures
        spec_count_stale(pre, vis_from, rows, n) == 0,
    decreases n,
{
    if n > 0 {
        lemma_unchanged_rows_rerender_nothing(pre, vis_from, rows, n - 1);
    }
}

} // verus!
