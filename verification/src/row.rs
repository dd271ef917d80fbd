//! Plain snapshots of what the engine reads from one grid row: the
//! row's change sequence number and its visible cells.  The caller
//! takes these from its virtual-terminal grid each turn; the engine
//! never keeps them.

use vstd::prelude::*;

use crate::style::ColorSpec;

verus! {

/// The rendering attributes of one cell.
#[derive(Debug, Clone, Copy, PartialEq, Eq, Structural)]
pub struct CellAttributes {
    pub foreground: ColorSpec,
    pub background: ColorSpec,
    /// Reverse video: swap foreground and background.
    pub reverse: bool,
    pub underline: bool,
}

impl CellAttributes {
    /// The attributes of an untouched cell: theme colors, no reverse,
    /// no underline.
    pub open spec fn spec_default() -> CellAttributes {
        CellAttributes {
            foreground: ColorSpec::Default,
            background: ColorSpec::Default,
            reverse: false,
            underline: false,
        }
    }
}

impl Default for CellAttributes {
    fn default() -> (r: Self)
        ensures
            r == CellAttributes::spec_default(),
    {
        CellAttributes {
            foreground: ColorSpec::Default,
            background: ColorSpec::Default,
            reverse: false,
            underline: false,
        }
    }
}

/// One visible cell: its text (usually a single grapheme) and its
/// attributes.
#[derive(Debug, Clone)]
pub struct Cell {
    pub text: String,
    pub attrs: CellAttributes,
}

/// Specification view of a cell.
pub struct CellView {
    pub text: Seq<char>,
    pub attrs: CellAttributes,
}

impl View for Cell {
    type V = CellView;

    open spec fn view(&self) -> CellView {
        CellView { text: self.text@, attrs: self.attrs }
    }
}

/// What the engine reads of one grid row: a sequence number that the
/// grid increases whenever the row's content changes (never zero for a
/// row that exists), and the row's visible cells in column order.
#[derive(Debug, Clone)]
pub struct RowSnapshot {
    pub seqno: u64,
    pub cells: Vec<Cell>,
}

/// Specification view of a row snapshot.
pub struct RowView {
    pub seqno: u64,
    pub cells: Seq<CellView>,
}

impl View for RowSnapshot {
    type V = RowView;

    open spec fn view(&self) -> RowView {
        RowView { seqno: self.seqno, cells: Seq::new(self.cells@.len(), |i: int| self.cells@[i]@) }
    }
}

} // verus!
