//! Colors and theme data the renderer reads while building spans.
//!
//! A cell names its colors symbolically — the theme default, a palette
//! slot, or a direct value — and the theme resolves them.  An
//! unresolved `Default` is kept as `None` so the drawing layer can
//! substitute whatever its current theme colors are.

use vstd::prelude::*;

verus! {

/// A color as plain 8-bit channels.
#[derive(Debug, Clone, Copy, PartialEq, Eq, Structural)]
pub struct Rgba {
    pub r: u8,
    pub g: u8,
    pub b: u8,
    pub a: u8,
}

/// How a cell names one of its colors.
#[derive(Debug, Clone, Copy, PartialEq, Eq, Structural)]
pub enum ColorSpec {
    /// Use the theme's default foreground or background.
    Default,
    /// One of the 256 indexed terminal colors.
    PaletteIndex(u8),
    /// A direct color value.
    TrueColor(Rgba),
}

/// The 256 indexed terminal colors.
#[derive(Debug, Clone)]
pub struct Palette256 {
    pub colors: Vec<Rgba>,
}

impl Palette256 {
    /// A palette resolves every possible 8-bit index.
    pub open spec fn wf(self) -> bool {
        self.colors@.len() == 256
    }
}

/// How the cursor is drawn.  The engine only carries the choice; the
/// drawing layer gives it geometry.
#[derive(Debug, Clone, Copy, PartialEq, Eq, Structural)]
pub enum CursorShape {
    Block,
    Underline,
    Bar,
}

/// Theme data the span builder needs: the default colors used when a
/// reversed or highlighted cell has no explicit color of its own, the
/// indexed palette, and the cursor shape.
#[derive(Debug, Clone)]
pub struct Style {
    pub background_color: Rgba,
    pub foreground_color: Rgba,
    pub cursor_shape: CursorShape,
    pub palette: Palette256,
}

/// What a symbolic color resolves to under `style`: `None` exactly for
/// the theme default.
pub open spec fn spec_get_color(style: Style, color: ColorSpec) -> Option<Rgba> {
    match color {
        ColorSpec::Default => None,
        ColorSpec::PaletteIndex(index) => Some(style.palette.colors@[index as int]),
        ColorSpec::TrueColor(rgba) => Some(rgba),
    }
}

impl Style {
    pub open spec fn wf(self) -> bool {
        self.palette.wf()
    }

    /// Resolves a cell's symbolic color against this theme.
    pub fn get_color(&self, color: &ColorSpec) -> (r: Option<Rgba>)
        requires
            self.wf(),
        ensures
            r == spec_get_color(*self, *color),
    {
        match color {
            ColorSpec::Default => None,
            ColorSpec::PaletteIndex(index) => Some(self.palette.colors[*index as usize]),
            ColorSpec::TrueColor(rgba) => Some(*rgba),
        }
    }
}

} // verus!
