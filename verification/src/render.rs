//! Turning one grid row into styled spans.
//!
//! A span is a maximal run of adjacent cells sharing the same
//! attributes *and* the same selection membership; both are checked
//! together because a selection boundary has the same visual effect as
//! an attribute change and must split a run the same way.  A selected
//! (or reverse-video) run swaps its foreground and background, falling
//! back to the theme colors where a cell had no explicit color.

use vstd::prelude::*;
use vstd::string::StrSliceExecFns;
use vstd::string::StringExecFns;
use vstd::utf8::is_ascii_chars;

use crate::row::Cell;
use crate::row::CellAttributes;
use crate::row::CellView;
use crate::selection::Selection;
use crate::selection::SelectionPosition;
use crate::selection::is_selected;
use crate::selection::spec_position_selected;
use crate::style::Rgba;
use crate::style::Style;
use crate::style::spec_get_color;

verus! {

/// A maximal run of cells drawn with one set of resolved colors.
/// `None` for a color means the drawing layer's theme default.
#[derive(Debug, Clone)]
pub struct StyledSpan {
    pub text: String,
    pub foreground: Option<Rgba>,
    pub background: Option<Rgba>,
    pub underline: bool,
}

/// Specification view of a styled span.
pub struct SpanView {
    pub text: Seq<char>,
    pub foreground: Option<Rgba>,
    pub background: Option<Rgba>,
    pub underline: bool,
}

impl View for StyledSpan {
    type V = SpanView;

    open spec fn view(&self) -> SpanView {
        SpanView {
            text: self.text@,
            foreground: self.foreground,
            background: self.background,
            underline: self.underline,
        }
    }
}

/// The views of a sequence of spans.
pub open spec fn spans_views(spans: Seq<StyledSpan>) -> Seq<SpanView> {
    Seq::new(spans.len(), |i: int| spans[i]@)
}

/// The views of a sequence of cells.
pub open spec fn cells_views(cells: Seq<Cell>) -> Seq<CellView> {
    Seq::new(cells.len(), |i: int| cells[i]@)
}

/// The resolved `(foreground, background)` of a run: resolve both
/// symbolic colors, and if exactly one of reverse video and selection
/// holds, swap them, substituting the opposite theme color for a side
/// the cell left at its default.
pub open spec fn spec_span_colors(style: Style, attrs: CellAttributes, selected: bool) -> (
    Option<Rgba>,
    Option<Rgba>,
) {
    let foreground = spec_get_color(style, attrs.foreground);
    let background = spec_get_color(style, attrs.background);
    if attrs.reverse != selected {
        let swapped_fg = if background is None {
            Some(style.background_color)
        } else {
            background
        };
        let swapped_bg = if foreground is None {
            Some(style.foreground_color)
        } else {
            foreground
        };
        (swapped_fg, swapped_bg)
    } else {
        (foreground, background)
    }
}

/// The span a finished run becomes.
pub open spec fn spec_span(style: Style, text: Seq<char>, attrs: CellAttributes, selected: bool) -> SpanView {
    SpanView {
        text,
        foreground: spec_span_colors(style, attrs, selected).0,
        background: spec_span_colors(style, attrs, selected).1,
        underline: attrs.underline,
    }
}

/// Closing a run: an empty run produces no span at all.
pub open spec fn spec_flush(style: Style, text: Seq<char>, attrs: CellAttributes, selected: bool) -> Seq<SpanView> {
    if text.len() == 0 {
        Seq::empty()
    } else {
        seq![spec_span(style, text, attrs, selected)]
    }
}

/// The spans produced by the cells from column `i` on, given the run
/// accumulated so far: each cell either extends the run or closes it
/// and opens a new one, depending on whether its attributes or its
/// selection membership differ.
pub open spec fn spec_row_spans_from(
    style: Style,
    cells: Seq<CellView>,
    i: int,
    sel: Option<Selection>,
    y: usize,
    run_text: Seq<char>,
    run_attrs: CellAttributes,
    run_selected: bool,
) -> Seq<SpanView>
    decreases cells.len() - i,
{
    if i < 0 || i >= cells.len() {
        spec_flush(style, run_text, run_attrs, run_selected)
    } else {
        let cell = cells[i];
        let cell_selected = spec_position_selected(
            sel,
            SelectionPosition { x: i as usize, y },
        );
        if cell.attrs != run_attrs || cell_selected != run_selected {
            spec_flush(style, run_text, run_attrs, run_selected) + spec_row_spans_from(
                style,
                cells,
                i + 1,
                sel,
                y,
                cell.text,
                cell.attrs,
                cell_selected,
            )
        } else {
            spec_row_spans_from(
                style,
                cells,
                i + 1,
                sel,
                y,
                run_text + cell.text,
                run_attrs,
                run_selected,
            )
        }
    }
}

/// The styled spans of row `y` with cells `cells` under selection
/// `sel`: cells grouped into maximal runs of equal attributes and
/// equal selection membership, empty runs dropped.
pub open spec fn spec_row_spans(
    style: Style,
    cells: Seq<CellView>,
    sel: Option<Selection>,
    y: usize,
) -> Seq<SpanView> {
    spec_row_spans_from(
        style,
        cells,
        0,
        sel,
        y,
        Seq::empty(),
        CellAttributes::spec_default(),
        false,
    )
}

/// Whether any cell of the row needs advanced (non-ASCII) text
/// shaping.
pub open spec fn spec_row_advanced(cells: Seq<CellView>) -> bool {
    exists|i: int| 0 <= i < cells.len() && !is_ascii_chars(#[trigger] cells[i].text)
}

/// The concatenated text of a sequence of spans.
pub open spec fn spec_concat_span_texts(spans: Seq<SpanView>) -> Seq<char>
    decreases spans.len(),
{
    if spans.len() == 0 {
        Seq::empty()
    } else {
        spans[0].text + spec_concat_span_texts(spans.drop_first())
    }
}

/// The concatenated text of a sequence of cells.
pub open spec fn spec_concat_cell_texts(cells: Seq<CellView>, i: int) -> Seq<char>
    decreases cells.len() - i,
{
    if i < 0 || i >= cells.len() {
        Seq::empty()
    } else {
        cells[i].text + spec_concat_cell_texts(cells, i + 1)
    }
}

proof fn lemma_concat_span_texts_single(s: SpanView)
    ensures
        spec_concat_span_texts(seq![s]) == s.text,
{
    let single = seq![s];
    let tail = single.drop_first();
    assert(spec_concat_span_texts(tail) =~= Seq::<char>::empty());
    assert(spec_concat_span_texts(single) =~= s.text);
}

proof fn lemma_concat_flush(style: Style, text: Seq<char>, attrs: CellAttributes, selected: bool)
    ensures
        spec_concat_span_texts(spec_flush(style, text, attrs, selected)) == text,
{
    if text.len() == 0 {
        assert(spec_concat_span_texts(spec_flush(style, text, attrs, selected)) =~= text);
    } else {
        lemma_concat_span_texts_single(spec_span(style, text, attrs, selected));
    }
}

proof fn lemma_row_spans_from_text(
    style: Style,
    cells: Seq<CellView>,
    i: int,
    sel: Option<Selection>,
    y: usize,
    run_text: Seq<char>,
    run_attrs: CellAttributes,
    run_selected: bool,
)
    ensures
        spec_concat_span_texts(
            spec_row_spans_from(style, cells, i, sel, y, run_text, run_attrs, run_selected),
        ) == run_text + spec_concat_cell_texts(cells, i),
    decreases cells.len() - i,
{
    if i < 0 || i >= cells.len() {
        lemma_concat_flush(style, run_text, run_attrs, run_selected);
        assert(run_text =~= run_text + spec_concat_cell_texts(cells, i));
    } else {
        let cell = cells[i];
        let cell_selected = spec_position_selected(sel, SelectionPosition { x: i as usize, y });
        if cell.attrs != run_attrs || cell_selected != run_selected {
            lemma_row_spans_from_text(
                style,
                cells,
                i + 1,
                sel,
                y,
                cell.text,
                cell.attrs,
                cell_selected,
            );
            let closed = spec_flush(style, run_text, run_attrs, run_selected);
            let rest = spec_row_spans_from(
                style,
                cells,
                i + 1,
                sel,
                y,
                cell.text,
                cell.attrs,
                cell_selected,
            );
            lemma_concat_span_texts_add(closed, rest);
            lemma_concat_flush(style, run_text, run_attrs, run_selected);
            assert(run_text + (cell.text + spec_concat_cell_texts(cells, i + 1)) =~= run_text
                + spec_concat_cell_texts(cells, i));
        } else {
            lemma_row_spans_from_text(
                style,
                cells,
                i + 1,
                sel,
                y,
                run_text + cell.text,
                run_attrs,
                run_selected,
            );
            assert((run_text + cell.text) + spec_concat_cell_texts(cells, i + 1) =~= run_text
                + spec_concat_cell_texts(cells, i));
        }
    }
}

proof fn lemma_concat_span_texts_add(a: Seq<SpanView>, b: Seq<SpanView>)
    ensures
        spec_concat_span_texts(a + b) == spec_concat_span_texts(a) + spec_concat_span_texts(b),
    decreases a.len(),
{
    if a.len() == 0 {
        assert(a + b =~= b);
        assert(spec_concat_span_texts(a) =~= Seq::<char>::empty());
        assert(spec_concat_span_texts(a + b) =~= spec_concat_span_texts(a)
            + spec_concat_span_texts(b));
    } else {
        lemma_concat_span_texts_add(a.drop_first(), b);
        assert((a + b).drop_first() =~= a.drop_first() + b);
        assert(spec_concat_span_texts(a + b) =~= spec_concat_span_texts(a)
            + spec_concat_span_texts(b));
    }
}

/// Splitting a row into spans loses no characters and invents none:
/// the spans' texts concatenate back to the row's cell texts, whatever
/// the selection and theme.
pub proof fn lemma_row_spans_preserve_text(
    style: Style,
    cells: Seq<CellView>,
    sel: Option<Selection>,
    y: usize,
)
    ensures
        spec_concat_span_texts(spec_row_spans(style, cells, sel, y)) == spec_concat_cell_texts(
            cells,
            0,
        ),
{
    lemma_row_spans_from_text(
        style,
        cells,
        0,
        sel,
        y,
        Seq::empty(),
        CellAttributes::spec_default(),
        false,
    );
    assert(Seq::<char>::empty() + spec_concat_cell_texts(cells, 0) =~= spec_concat_cell_texts(
        cells,
        0,
    ));
}

/// No span is ever empty: a rendered row's spans all carry text.
pub proof fn lemma_row_spans_nonempty(
    style: Style,
    cells: Seq<CellView>,
    sel: Option<Selection>,
    y: usize,
)
    ensures
        forall|k: int|
            0 <= k < spec_row_spans(style, cells, sel, y).len() ==> #[trigger] spec_row_spans(
                style,
                cells,
                sel,
                y,
            )[k].text.len() > 0,
{
    lemma_row_spans_from_nonempty(
        style,
        cells,
        0,
        sel,
        y,
        Seq::empty(),
        CellAttributes::spec_default(),
        false,
    );
}

proof fn lemma_row_spans_from_nonempty(
    style: Style,
    cells: Seq<CellView>,
    i: int,
    sel: Option<Selection>,
    y: usize,
    run_text: Seq<char>,
    run_attrs: CellAttributes,
    run_selected: bool,
)
    ensures
        forall|k: int|
            0 <= k < spec_row_spans_from(
                style,
                cells,
                i,
                sel,
                y,
                run_text,
                run_attrs,
                run_selected,
            ).len() ==> #[trigger] spec_row_spans_from(
                style,
                cells,
                i,
                sel,
                y,
                run_text,
                run_attrs,
                run_selected,
            )[k].text.len() > 0,
    decreases cells.len() - i,
{
    if i < 0 || i >= cells.len() {
    } else {
        let cell = cells[i];
        let cell_selected = spec_position_selected(sel, SelectionPosition { x: i as usize, y });
        if cell.attrs != run_attrs || cell_selected != run_selected {
            lemma_row_spans_from_nonempty(
                style,
                cells,
                i + 1,
                sel,
                y,
                cell.text,
                cell.attrs,
                cell_selected,
            );
        } else {
            lemma_row_spans_from_nonempty(
                style,
                cells,
                i + 1,
                sel,
                y,
                run_text + cell.text,
                run_attrs,
                run_selected,
            );
        }
    }
}

/// Closes the accumulated run into `spans`; an empty run is dropped
/// rather than becoming an empty span.
fn push_span(
    style: &Style,
    spans: &mut Vec<StyledSpan>,
    text: String,
    attrs: CellAttributes,
    selected: bool,
)
    requires
        style.wf(),
    ensures
        spans_views(final(spans)@) == spans_views(old(spans)@) + spec_flush(
            *style,
            text@,
            attrs,
            selected,
        ),
{
    if text.as_str().is_empty() {
        proof {
            assert(spans_views(spans@) =~= spans_views(spans@) + spec_flush(
                *style,
                text@,
                attrs,
                selected,
            ));
        }
        return ;
    }
    let mut background = style.get_color(&attrs.background);
    let mut foreground = style.get_color(&attrs.foreground);

    // Reverse video and selection highlight cancel each other out.
    if attrs.reverse != selected {
        let swapped_fg = background;
        let swapped_bg = foreground;
        foreground = swapped_fg;
        background = swapped_bg;
        if foreground.is_none() {
            foreground = Some(style.background_color);
        }
        if background.is_none() {
            background = Some(style.foreground_color);
        }
    }
    let span = StyledSpan { text, foreground, background, underline: attrs.underline };
    spans.push(span);
    proof {
        assert(spans_views(spans@) =~= spans_views(old(spans)@) + spec_flush(
            *style,
            spans@[spans@.len() - 1].text@,
            attrs,
            selected,
        ));
    }
}

/// Builds the styled spans of row `y` and reports whether any of its
/// cells needs advanced shaping.
pub fn build_row_spans(style: &Style, cells: &Vec<Cell>, sel: &Option<Selection>, y: usize) -> (r:
    (Vec<StyledSpan>, bool))
    requires
        style.wf(),
    ensures
        spans_views(r.0@) == spec_row_spans(*style, cells_views(cells@), *sel, y),
        r.1 == spec_row_advanced(cells_views(cells@)),
{
    let ghost cviews = cells_views(cells@);
    let mut spans: Vec<StyledSpan> = Vec::new();
    let mut run_text = String::new();
    let mut run_attrs = CellAttributes::default();
    let mut run_selected = false;
    let mut advanced = false;
    let n = cells.len();

    proof {
        assert(spans_views(spans@) =~= Seq::<SpanView>::empty());
        assert(Seq::<SpanView>::empty() + spec_row_spans_from(
            *style,
            cviews,
            0,
            *sel,
            y,
            run_text@,
            run_attrs,
            run_selected,
        ) =~= spec_row_spans(*style, cviews, *sel, y));
    }

    let mut i: usize = 0;
    while i < n
        invariant
            style.wf(),
            n == cells@.len(),
            cviews == cells_views(cells@),
            i <= n,
            spans_views(spans@) + spec_row_spans_from(
                *style,
                cviews,
                i as int,
                *sel,
                y,
                run_text@,
                run_attrs,
                run_selected,
            ) == spec_row_spans(*style, cviews, *sel, y),
            advanced == exists|j: int| 0 <= j < i && !is_ascii_chars(#[trigger] cviews[j].text),
        decreases n - i,
    {
        let cell = &cells[i];
        let cell_selected = is_selected(sel, SelectionPosition { x: i, y });
        proof {
            assert(cviews[i as int].attrs == cell.attrs);
            assert(cviews[i as int].text == cell.text@);
        }
        if !(cell.attrs == run_attrs) || cell_selected != run_selected {
            let ghost spans_before = spans@;
            let ghost closed = spec_flush(*style, run_text@, run_attrs, run_selected);
            push_span(style, &mut spans, run_text, run_attrs, run_selected);
            run_attrs = cell.attrs;
            run_selected = cell_selected;
            run_text = String::new();
            proof {
                assert(spans_views(spans@) + spec_row_spans_from(
                    *style,
                    cviews,
                    i + 1,
                    *sel,
                    y,
                    run_text@,
                    run_attrs,
                    run_selected,
                ) =~= (spans_views(spans_before) + closed) + spec_row_spans_from(
                    *style,
                    cviews,
                    i + 1,
                    *sel,
                    y,
                    run_text@,
                    run_attrs,
                    run_selected,
                ));
                assert((spans_views(spans_before) + closed) + spec_row_spans_from(
                    *style,
                    cviews,
                    i + 1,
                    *sel,
                    y,
                    run_text@,
                    run_attrs,
                    run_selected,
                ) =~= spans_views(spans_before) + (closed + spec_row_spans_from(
                    *style,
                    cviews,
                    i + 1,
                    *sel,
                    y,
                    run_text@,
                    run_attrs,
                    run_selected,
                )));
            }
        }
        if !cell.text.as_str().is_ascii() {
            advanced = true;
        }
        run_text.append(cell.text.as_str());
        i += 1;
    }
    let ghost spans_before = spans@;
    let ghost closed = spec_flush(*style, run_text@, run_attrs, run_selected);
    push_span(style, &mut spans, run_text, run_attrs, run_selected);
    proof {
        assert(spans_views(spans@) =~= spans_views(spans_before) + closed);
    }
    (spans, advanced)
}

/// A row ready to draw: its spans plus the shaping choice.  An
/// all-blank row is represented as no rendered row at all (upstream of
/// this type), so "nothing to draw" stays distinguishable from "draw
/// an empty text".
#[derive(Debug, Clone)]
pub struct RenderedRow {
    pub spans: Vec<StyledSpan>,
    pub advanced_shaping: bool,
}

/// Specification view of a rendered row.
pub struct RenderedRowView {
    pub spans: Seq<SpanView>,
    pub advanced_shaping: bool,
}

impl View for RenderedRow {
    type V = RenderedRowView;

    open spec fn view(&self) -> RenderedRowView {
        RenderedRowView { spans: spans_views(self.spans@), advanced_shaping: self.advanced_shaping }
    }
}

/// What rendering a row produces: `None` when the row has no visible
/// content at all, so the caller can skip the draw call entirely.
pub open spec fn spec_render_row(
    style: Style,
    cells: Seq<CellView>,
    sel: Option<Selection>,
    y: usize,
) -> Option<RenderedRowView> {
    let spans = spec_row_spans(style, cells, sel, y);
    if spans.len() == 0 {
        None
    } else {
        Some(RenderedRowView { spans, advanced_shaping: spec_row_advanced(cells) })
    }
}

/// Renders row `y` from its cells, or nothing for an all-blank row.
pub fn render_row(style: &Style, cells: &Vec<Cell>, sel: &Option<Selection>, y: usize) -> (r:
    Option<RenderedRow>)
    requires
        style.wf(),
    ensures
        match spec_render_row(*style, cells_views(cells@), *sel, y) {
            None => r is None,
            Some(v) => r matches Some(rr) && rr@ == v,
        },
{
    let (spans, advanced) = build_row_spans(style, cells, sel, y);
    if spans.len() == 0 {
        None
    } else {
        Some(RenderedRow { spans, advanced_shaping: advanced })
    }
}

} // verus!
