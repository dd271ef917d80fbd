//! Display-side engine for a scrollback terminal: viewport/scroll
//! bookkeeping, a mouse-selection state machine, a bounded row-render
//! cache with sequence-number invalidation, and selection text
//! extraction.
//!
//! The virtual-terminal state machine that parses bytes into a grid of
//! styled cells is an external collaborator.  It is consumed here only
//! through plain snapshots of what the engine reads from it: the
//! scrollback extent ([`viewport::GridExtent`]) and per-row cell data
//! with a change sequence number ([`row::RowSnapshot`]).  The caller
//! reads those from its grid each turn and passes them in by reference;
//! the engine never stores them.

pub mod cache;
pub mod engine;
pub mod extract;
pub mod geometry;
pub mod input;
pub mod render;
pub mod row;
pub mod selection;
pub mod style;
pub mod viewport;

pub use cache::RowCache;
pub use engine::TerminalEngine;
pub use geometry::Size;
pub use geometry::VisiblePosition;
pub use input::InputSequence;
pub use render::RenderedRow;
pub use render::StyledSpan;
pub use row::RowSnapshot;
pub use selection::Selection;
pub use selection::SelectionPosition;
pub use selection::SelectionState;
pub use selection::is_selected;
pub use style::CursorShape;
pub use style::Palette256;
pub use style::Style;
pub use viewport::GridExtent;
pub use viewport::Viewport;
