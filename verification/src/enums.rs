//! The keyword enums of the style surface.
//!
//! Each is a closed set of CSS-like keywords; the defaults named in the doc
//! comments are those of the engine's default style record.

use vstd::prelude::*;

verus! {

/// How the node should be displayed.  The default is `Flex`.
///
/// `Nil` stands for the CSS keyword `none`: the node generates no box.
#[derive(Clone, Copy, Debug, PartialEq, Eq, Hash, Structural)]
pub enum Display {
    Block,
    Flex,
    Grid,
    Nil,
}

/// How the node should be positioned.  The default is `Relative`.
#[derive(Clone, Copy, Debug, PartialEq, Eq, Hash, Structural)]
pub enum Position {
    Relative,
    Absolute,
}

/// The direction of a flex container's main axis.  The default is `Row`.
#[derive(Clone, Copy, Debug, PartialEq, Eq, Hash, Structural)]
pub enum FlexDirection {
    Row,
    Column,
    RowReverse,
    ColumnReverse,
}

/// Whether flex items wrap.  The default is `NoWrap`.
#[derive(Clone, Copy, Debug, PartialEq, Eq, Hash, Structural)]
pub enum FlexWrap {
    NoWrap,
    Wrap,
    WrapReverse,
}

/// Alignment of items along the cross axis.  The default is the absent state
/// (no keyword chosen).
#[derive(Clone, Copy, Debug, PartialEq, Eq, Hash, Structural)]
pub enum AlignItems {
    Start,
    End,
    FlexStart,
    FlexEnd,
    Center,
    Baseline,
    Stretch,
}

/// Alignment of content within the container.  The default is the absent
/// state (no keyword chosen).
#[derive(Clone, Copy, Debug, PartialEq, Eq, Hash, Structural)]
pub enum AlignContent {
    Start,
    End,
    FlexStart,
    FlexEnd,
    Center,
    Stretch,
    SpaceBetween,
    SpaceEvenly,
    SpaceAround,
}

/// How content overflows its container.  The default is `Visible`.
#[derive(Clone, Copy, Debug, PartialEq, Eq, Hash, Structural)]
pub enum Overflow {
    Visible,
    Clip,
    Hidden,
    Scroll,
}

/// How grid items are auto-placed.  The default is `Row`.
#[derive(Clone, Copy, Debug, PartialEq, Eq, Hash, Structural)]
pub enum GridAutoFlow {
    Row,
    Column,
    RowDense,
    ColumnDense,
}

/// Box sizing model.  The default is `BorderBox`.
#[derive(Clone, Copy, Debug, PartialEq, Eq, Hash, Structural)]
pub enum BoxSizing {
    BorderBox,
    ContentBox,
}

/// Text alignment for block layout.  The default is `Auto`.
#[derive(Clone, Copy, Debug, PartialEq, Eq, Hash, Structural)]
pub enum TextAlign {
    Auto,
    LegacyLeft,
    LegacyRight,
    LegacyCenter,
}

/// Available space handed to a layout pass for one axis: a definite pixel
/// measurement (held as the bit pattern of the number), or one of the two
/// intrinsic sizing keywords.
#[derive(Clone, Copy, Debug, PartialEq, Eq, Hash, Structural)]
pub enum AvailableSpace {
    Definite { bits: u32 },
    MinContent,
    MaxContent,
}

impl AvailableSpace {
    /// A definite available space from the bit pattern of a pixel value.
    pub fn definite(bits: u32) -> (r: AvailableSpace)
        ensures
            r == (AvailableSpace::Definite { bits }),
    {
        AvailableSpace::Definite { bits }
    }

    /// The min-content available space.
    pub fn min_content() -> (r: AvailableSpace)
        ensures
            r == AvailableSpace::MinContent,
    {
        AvailableSpace::MinContent
    }

    /// The max-content available space.
    pub fn max_content() -> (r: AvailableSpace)
        ensures
            r == AvailableSpace::MaxContent,
    {
        AvailableSpace::MaxContent
    }

    /// Whether this is a definite measurement.
    pub fn is_definite(&self) -> (r: bool)
        ensures
            r == (self is Definite),
    {
        match self {
            AvailableSpace::Definite { .. } => true,
            _ => false,
        }
    }
}

} // verus!
