//! Rebuilding the copyable plain text of a selection.
//!
//! Extraction walks the selected rows top to bottom, appends the text
//! of every cell whose column the shared membership rule selects, and
//! ends each row with a line break.  The result is trimmed of its
//! trailing blank tail (spaces and line breaks), and an empty result
//! becomes `None`, so "nothing to copy" stays distinguishable from
//! "copy an empty string".

use core::ops::Range;
use vstd::prelude::*;
use vstd::string::StrSliceExecFns;
use vstd::string::StringExecFns;

use crate::cache::rows_views;
use crate::row::CellView;
use crate::row::RowSnapshot;
use crate::row::RowView;
use crate::selection::Selection;
use crate::selection::SelectionPosition;
use crate::selection::is_selected;
use crate::selection::spec_position_selected;

verus! {

/// The characters row `y` contributes: the concatenated text of its
/// cells at selected columns, in column order.
pub open spec fn spec_row_text(cells: Seq<CellView>, sel: Option<Selection>, y: usize) -> Seq<char>
    decreases cells.len(),
{
    if cells.len() == 0 {
        Seq::empty()
    } else {
        spec_row_text(cells.drop_last(), sel, y) + if spec_position_selected(
            sel,
            SelectionPosition { x: (cells.len() - 1) as usize, y },
        ) {
            cells.last().text
        } else {
            Seq::empty()
        }
    }
}

/// The text of rows `first, first + 1, ...` in order, each row
/// followed by a line break.
pub open spec fn spec_rows_text(rows: Seq<RowView>, first: usize, sel: Option<Selection>) -> Seq<
    char,
>
    decreases rows.len(),
{
    if rows.len() == 0 {
        Seq::empty()
    } else {
        spec_rows_text(rows.drop_last(), first, sel) + spec_row_text(
            rows.last().cells,
            sel,
            (first + rows.len() - 1) as usize,
        ) + seq!['\n']
    }
}

/// `s` without its trailing run of blanks: spaces and line breaks.
pub open spec fn spec_trim_trailing(s: Seq<char>) -> Seq<char>
    decreases s.len(),
{
    if s.len() == 0 {
        s
    } else if s.last() == ' ' || s.last() == '\n' {
        spec_trim_trailing(s.drop_last())
    } else {
        s
    }
}

/// What extraction returns: nothing without a selection, nothing when
/// the trimmed text is empty, otherwise the trimmed text.
pub open spec fn spec_extract(
    sel: Option<Selection>,
    first: usize,
    rows: Seq<RowView>,
) -> Option<Seq<char>> {
    match sel {
        None => None,
        Some(_) => {
            let trimmed = spec_trim_trailing(spec_rows_text(rows, first, sel));
            if trimmed.len() == 0 {
                None
            } else {
                Some(trimmed)
            }
        },
    }
}

/// Trimming removes the whole blank tail and nothing else: the result
/// is a prefix of the input and does not end in a blank.
pub proof fn lemma_trim_trailing_exact(s: Seq<char>)
    ensures
        spec_trim_trailing(s).len() <= s.len(),
        spec_trim_trailing(s) == s.take(spec_trim_trailing(s).len() as int),
        spec_trim_trailing(s).len() > 0 ==> spec_trim_trailing(s).last() != ' '
            && spec_trim_trailing(s).last() != '\n',
        forall|j: int|
            spec_trim_trailing(s).len() <= j < s.len() ==> s[j] == ' ' || #[trigger] s[j] == '\n',
    decreases s.len(),
{
    if s.len() == 0 {
        assert(spec_trim_trailing(s) =~= s.take(spec_trim_trailing(s).len() as int));
    } else if s.last() == ' ' || s.last() == '\n' {
        lemma_trim_trailing_exact(s.drop_last());
        let t = spec_trim_trailing(s);
        assert(t == spec_trim_trailing(s.drop_last()));
        assert(t.len() <= s.drop_last().len());
        assert(s.drop_last().take(t.len() as int) =~= s.take(t.len() as int));
        assert forall|j: int| t.len() <= j < s.len() implies s[j] == ' ' || #[trigger] s[j] == '\n' by {
            if j < s.len() - 1 {
                assert(s.drop_last()[j] == ' ' || s.drop_last()[j] == '\n');
                assert(s.drop_last()[j] == s[j]);
            } else {
                assert(s[j] == s.last());
            }
        }
    } else {
        assert(spec_trim_trailing(s) =~= s.take(s.len() as int));
    }
}

/// How many leading characters of `s` survive trimming the trailing
/// blank run.
fn trimmed_len(s: &str) -> (r: usize)
    ensures
        r <= s@.len(),
        spec_trim_trailing(s@) == s@.subrange(0, r as int),
    decreases s@.len(),
{
    let n = s.unicode_len();
    if n == 0 {
        proof {
            assert(s@.subrange(0, 0) =~= s@);
        }
        return 0;
    }
    let c = s.get_char(n - 1);
    if c == ' ' || c == '\n' {
        let prefix = s.substring_char(0, n - 1);
        proof {
            assert(prefix@ =~= s@.drop_last());
        }
        let r = trimmed_len(prefix);
        proof {
            assert(prefix@.subrange(0, r as int) =~= s@.subrange(0, r as int));
        }
        r
    } else {
        proof {
            assert(s@.subrange(0, n as int) =~= s@);
        }
        n
    }
}

/// The absolute rows a caller must fetch to extract `selection`:
/// from the selection's first row through its last, stopping at the
/// end of history (`total` rows exist).  `None` without a selection.
pub fn selection_row_range(selection: &Option<Selection>, total: usize) -> (r: Option<
    Range<usize>,
>)
    ensures
        match *selection {
            None => r is None,
            Some(sel) => r matches Some(rg) && rg.start == sel.start.y && rg.end == (
            if sel.end.y >= total {
                total
            } else {
                (sel.end.y + 1) as usize
            }),
        },
{
    match selection {
        None => None,
        Some(sel) => {
            let end = if sel.end.y >= total {
                total
            } else {
                sel.end.y + 1
            };
            Some(sel.start.y..end)
        },
    }
}

/// Extracts the selected text from the given row snapshots, whose
/// first row has absolute number `first_row`.  Returns `None` when
/// there is no selection or nothing but blanks was selected.
pub fn extract_text(selection: &Option<Selection>, first_row: usize, rows: &Vec<RowSnapshot>) -> (r:
    Option<String>)
    requires
        first_row + rows@.len() <= usize::MAX,
    ensures
        match spec_extract(*selection, first_row, rows_views(rows@)) {
            None => r is None,
            Some(t) => r matches Some(s) && s@ == t,
        },
{
    if selection.is_none() {
        return None;
    }
    let ghost rviews = rows_views(rows@);
    let mut out = String::new();
    let n = rows.len();
    let mut i: usize = 0;
    while i < n
        invariant
            n == rows@.len(),
            rviews == rows_views(rows@),
            first_row + n <= usize::MAX,
            i <= n,
            out@ == spec_rows_text(rviews.take(i as int), first_row, *selection),
        decreases n - i,
    {
        let cells = &rows[i].cells;
        let ghost cviews = rviews[i as int].cells;
        proof {
            assert(rviews[i as int] == rows@[i as int]@);
        }
        let y = first_row + i;
        let m = cells.len();
        let ghost row_prefix = out@;
        let mut k: usize = 0;
        while k < m
            invariant
                m == cells@.len(),
                cviews == rviews[i as int].cells,
                i < n == rows@.len(),
                rviews == rows_views(rows@),
                rviews[i as int] == rows@[i as int]@,
                cells == rows@[i as int].cells,
                y == first_row + i,
                k <= m,
                out@ == row_prefix + spec_row_text(cviews.take(k as int), *selection, y),
            decreases m - k,
        {
            proof {
                assert(cviews[k as int] == cells@[k as int]@);
                assert(cviews.take(k + 1).drop_last() =~= cviews.take(k as int));
                assert(cviews.take(k + 1).last() == cviews[k as int]);
            }
            if is_selected(selection, SelectionPosition { x: k, y }) {
                out.append(cells[k].text.as_str());
            }
            k += 1;
        }
        proof {
            assert(cviews.take(m as int) =~= cviews);
        }
        out.append("\n");
        proof {
            reveal_strlit("\n");
            assert("\n"@ =~= seq!['\n']);
            assert(rviews.take(i + 1).drop_last() =~= rviews.take(i as int));
            assert(rviews.take(i + 1).last() == rviews[i as int]);
            assert(out@ =~= spec_rows_text(rviews.take(i + 1), first_row, *selection));
        }
        i += 1;
    }
    proof {
        assert(rviews.take(n as int) =~= rviews);
    }
    let keep = trimmed_len(out.as_str());
    if keep == 0 {
        proof {
            assert(spec_trim_trailing(out@).len() == 0);
        }
        None
    } else {
        let kept = out.as_str().substring_char(0, keep);
        Some(kept.to_owned())
    }
}

} // verus!
