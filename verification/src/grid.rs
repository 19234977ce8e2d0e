//! Typed views of the engine-level grid track sizing functions and grid
//! placements.
//!
//! A grid track is a pair of a minimum and a maximum sizing function, exactly
//! as the engine stores it.  The constructors mirror the CSS shorthands: a
//! bare length is `minmax(length, length)`, a fraction is
//! `minmax(auto, fr)`, and so on.

use vstd::prelude::*;

verus! {

/// The minimum side of a track sizing function.
#[derive(Clone, Copy, Debug, PartialEq, Eq, Hash, Structural)]
pub enum GridTrackMin {
    Length { bits: u32 },
    Percent { bits: u32 },
    Auto,
    MinContent,
    MaxContent,
}

impl GridTrackMin {
    /// A fixed minimum from the bit pattern of a pixel value.
    pub fn length(bits: u32) -> (r: GridTrackMin)
        ensures
            r == (GridTrackMin::Length { bits }),
    {
        GridTrackMin::Length { bits }
    }

    /// A fixed minimum from the bit pattern of a unit fraction.
    pub fn percent(bits: u32) -> (r: GridTrackMin)
        ensures
            r == (GridTrackMin::Percent { bits }),
    {
        GridTrackMin::Percent { bits }
    }

    /// An automatic minimum.
    pub fn auto() -> (r: GridTrackMin)
        ensures
            r == GridTrackMin::Auto,
    {
        GridTrackMin::Auto
    }

    /// A min-content minimum.
    pub fn min_content() -> (r: GridTrackMin)
        ensures
            r == GridTrackMin::MinContent,
    {
        GridTrackMin::MinContent
    }

    /// A max-content minimum.
    pub fn max_content() -> (r: GridTrackMin)
        ensures
            r == GridTrackMin::MaxContent,
    {
        GridTrackMin::MaxContent
    }
}

/// The maximum side of a track sizing function.
#[derive(Clone, Copy, Debug, PartialEq, Eq, Hash, Structural)]
pub enum GridTrackMax {
    Length { bits: u32 },
    Percent { bits: u32 },
    Auto,
    MinContent,
    MaxContent,
    Fraction { bits: u32 },
    FitContentPx { bits: u32 },
    FitContentPercent { bits: u32 },
}

impl GridTrackMax {
    /// A fixed maximum from the bit pattern of a pixel value.
    pub fn length(bits: u32) -> (r: GridTrackMax)
        ensures
            r == (GridTrackMax::Length { bits }),
    {
        GridTrackMax::Length { bits }
    }

    /// A fixed maximum from the bit pattern of a unit fraction.
    pub fn percent(bits: u32) -> (r: GridTrackMax)
        ensures
            r == (GridTrackMax::Percent { bits }),
    {
        GridTrackMax::Percent { bits }
    }

    /// An automatic maximum.
    pub fn auto() -> (r: GridTrackMax)
        ensures
            r == GridTrackMax::Auto,
    {
        GridTrackMax::Auto
    }

    /// A min-content maximum.
    pub fn min_content() -> (r: GridTrackMax)
        ensures
            r == GridTrackMax::MinContent,
    {
        GridTrackMax::MinContent
    }

    /// A max-content maximum.
    pub fn max_content() -> (r: GridTrackMax)
        ensures
            r == GridTrackMax::MaxContent,
    {
        GridTrackMax::MaxContent
    }

    /// A fractional maximum (`fr` unit) from the bit pattern of its factor.
    pub fn fr(bits: u32) -> (r: GridTrackMax)
        ensures
            r == (GridTrackMax::Fraction { bits }),
    {
        GridTrackMax::Fraction { bits }
    }

    /// A fit-content maximum with a pixel limit.
    pub fn fit_content_px(bits: u32) -> (r: GridTrackMax)
        ensures
            r == (GridTrackMax::FitContentPx { bits }),
    {
        GridTrackMax::FitContentPx { bits }
    }

    /// A fit-content maximum with a percentage limit.
    pub fn fit_content_percent(bits: u32) -> (r: GridTrackMax)
        ensures
            r == (GridTrackMax::FitContentPercent { bits }),
    {
        GridTrackMax::FitContentPercent { bits }
    }
}

/// A track sizing function: a `minmax(min, max)` pair.
#[derive(Clone, Copy, Debug, PartialEq, Eq, Hash, Structural)]
pub struct GridTrack {
    pub min: GridTrackMin,
    pub max: GridTrackMax,
}

impl GridTrack {
    /// A fixed-size track: `minmax(length(v), length(v))`.
    pub fn length(bits: u32) -> (r: GridTrack)
        ensures
            r == (GridTrack {
                min: GridTrackMin::Length { bits },
                max: GridTrackMax::Length { bits },
            }),
    {
        GridTrack { min: GridTrackMin::Length { bits }, max: GridTrackMax::Length { bits } }
    }

    /// A fixed-size track: `minmax(percent(v), percent(v))`.
    pub fn percent(bits: u32) -> (r: GridTrack)
        ensures
            r == (GridTrack {
                min: GridTrackMin::Percent { bits },
                max: GridTrackMax::Percent { bits },
            }),
    {
        GridTrack { min: GridTrackMin::Percent { bits }, max: GridTrackMax::Percent { bits } }
    }

    /// A flexible track: `minmax(auto, fr(v))`.
    pub fn flex(bits: u32) -> (r: GridTrack)
        ensures
            r == (GridTrack { min: GridTrackMin::Auto, max: GridTrackMax::Fraction { bits } }),
    {
        GridTrack { min: GridTrackMin::Auto, max: GridTrackMax::Fraction { bits } }
    }

    /// An auto-sized track: `minmax(auto, auto)`.
    pub fn auto() -> (r: GridTrack)
        ensures
            r == (GridTrack { min: GridTrackMin::Auto, max: GridTrackMax::Auto }),
    {
        GridTrack { min: GridTrackMin::Auto, max: GridTrackMax::Auto }
    }

    /// A min-content track: `minmax(min-content, min-content)`.
    pub fn min_content() -> (r: GridTrack)
        ensures
            r == (GridTrack { min: GridTrackMin::MinContent, max: GridTrackMax::MinContent }),
    {
        GridTrack { min: GridTrackMin::MinContent, max: GridTrackMax::MinContent }
    }

    /// A max-content track: `minmax(max-content, max-content)`.
    pub fn max_content() -> (r: GridTrack)
        ensures
            r == (GridTrack { min: GridTrackMin::MaxContent, max: GridTrackMax::MaxContent }),
    {
        GridTrack { min: GridTrackMin::MaxContent, max: GridTrackMax::MaxContent }
    }

    /// A track with separate min and max sizing functions.
    pub fn minmax(min_value: GridTrackMin, max_value: GridTrackMax) -> (r: GridTrack)
        ensures
            r == (GridTrack { min: min_value, max: max_value }),
    {
        GridTrack { min: min_value, max: max_value }
    }

    /// A fit-content track with a pixel limit: `minmax(auto, fit-content(px))`.
    pub fn fit_content_px(bits: u32) -> (r: GridTrack)
        ensures
            r == (GridTrack { min: GridTrackMin::Auto, max: GridTrackMax::FitContentPx { bits } }),
    {
        GridTrack { min: GridTrackMin::Auto, max: GridTrackMax::FitContentPx { bits } }
    }

    /// A fit-content track with a percentage limit:
    /// `minmax(auto, fit-content(percent))`.
    pub fn fit_content_percent(bits: u32) -> (r: GridTrack)
        ensures
            r == (GridTrack {
                min: GridTrackMin::Auto,
                max: GridTrackMax::FitContentPercent { bits },
            }),
    {
        GridTrack { min: GridTrackMin::Auto, max: GridTrackMax::FitContentPercent { bits } }
    }
}

/// One grid placement: automatic, a 1-based line index, or a span of tracks.
#[derive(Clone, Copy, Debug, PartialEq, Eq, Hash, Structural)]
pub enum GridPlacement {
    Auto,
    Line { index: i16 },
    Span { count: u16 },
}

impl GridPlacement {
    /// Automatic placement.
    pub fn auto() -> (r: GridPlacement)
        ensures
            r == GridPlacement::Auto,
    {
        GridPlacement::Auto
    }

    /// Placement at a specific line index (1-based, negative counts from the
    /// end).
    pub fn line(index: i16) -> (r: GridPlacement)
        ensures
            r == (GridPlacement::Line { index }),
    {
        GridPlacement::Line { index }
    }

    /// Placement spanning a number of tracks.
    pub fn span(count: u16) -> (r: GridPlacement)
        ensures
            r == (GridPlacement::Span { count }),
    {
        GridPlacement::Span { count }
    }
}

/// A start and end pair of grid placements for a child item.  Both default
/// to automatic placement.
#[derive(Clone, Copy, Debug, PartialEq, Eq, Hash, Structural)]
pub struct GridLine {
    pub start: GridPlacement,
    pub end: GridPlacement,
}

impl GridLine {
    /// A placement pair; an absent side is automatic.
    pub fn new(start: Option<GridPlacement>, end: Option<GridPlacement>) -> (r: GridLine)
        ensures
            r.start == (match start {
                Some(s) => s,
                None => GridPlacement::Auto,
            }),
            r.end == (match end {
                Some(e) => e,
                None => GridPlacement::Auto,
            }),
    {
        GridLine {
            start: match start {
                Some(s) => s,
                None => GridPlacement::Auto,
            },
            end: match end {
                Some(e) => e,
                None => GridPlacement::Auto,
            },
        }
    }
}

} // verus!
