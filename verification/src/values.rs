//! The value vocabulary: the closed union of leaf values that callers pass
//! and receive for dimensional, track-sizing and placement fields.
//!
//! Number-bearing variants carry the IEEE-754 single-precision bit pattern of
//! their number in a `u32` field named `bits`.  Equality on the vocabulary is
//! equality of bit patterns, which is exactly the equality the library
//! promises for round-trips through storage (distinct NaN payloads stay
//! distinct, and positive and negative zero stay distinct).

use vstd::prelude::*;
use crate::errors::WaxyError;

verus! {

/// The bit pattern of `1.0f32`.
pub const F32_ONE_BITS: u32 = 0x3F80_0000;

/// The bit pattern of `-0.0f32`.
pub const F32_NEG_ZERO_BITS: u32 = 0x8000_0000;

/// The bit pattern of `+infinity` (`f32`), which is also the exponent mask.
pub const F32_EXP_BITS: u32 = 0x7F80_0000;

/// The mask clearing the sign bit of an `f32` pattern.
pub const F32_ABS_MASK: u32 = 0x7FFF_FFFF;

/// Whether a bit pattern denotes a NaN: the exponent field is all ones and
/// the significand is not zero, i.e. the pattern with its sign bit cleared
/// lies strictly above the pattern of infinity.
pub open spec fn nan_bits(bits: u32) -> bool {
    bits & 0x7FFF_FFFFu32 > 0x7F80_0000u32
}

/// Whether a bit pattern denotes a number in the closed unit range.
///
/// For single-precision patterns with the sign bit clear, numeric order
/// agrees with unsigned order of the patterns, and every NaN pattern lies
/// above the pattern of `1.0`.  So a pattern denotes a value in `[0.0, 1.0]`
/// exactly when it is the pattern of negative zero, or carries no sign bit
/// and is at most the pattern of `1.0`.
pub open spec fn percent_bits_valid(bits: u32) -> bool {
    bits == 0x8000_0000u32 || bits <= 0x3F80_0000u32
}

/// A length value in pixels, held as the bit pattern of the number.
///
/// Used for sizes, padding, borders, gaps, margins, insets, the flex basis,
/// and grid track sizing.
#[derive(Clone, Copy, Debug, PartialEq, Eq, Hash, Structural)]
pub struct Length {
    pub bits: u32,
}

impl Length {
    /// Build a length; a NaN pattern is rejected with
    /// [`WaxyError::InvalidLength`].
    pub fn new(bits: u32) -> (r: Result<Length, WaxyError>)
        ensures
            !nan_bits(bits) ==> r == Ok::<Length, WaxyError>(Length { bits }),
            nan_bits(bits) ==> r == Err::<Length, WaxyError>(WaxyError::InvalidLength { bits }),
    {
        if bits & 0x7FFF_FFFFu32 > 0x7F80_0000u32 {
            Err(WaxyError::InvalidLength { bits })
        } else {
            Ok(Length { bits })
        }
    }
}

/// A percentage value, a fraction of the parent in the closed unit range,
/// held as the bit pattern of the number.
#[derive(Clone, Copy, Debug, PartialEq, Eq, Hash, Structural)]
pub struct Percent {
    pub bits: u32,
}

impl Percent {
    /// Build a percentage; a pattern outside the closed unit range (which
    /// includes every NaN pattern) is rejected with
    /// [`WaxyError::InvalidPercent`].
    pub fn new(bits: u32) -> (r: Result<Percent, WaxyError>)
        ensures
            percent_bits_valid(bits) ==> r == Ok::<Percent, WaxyError>(Percent { bits }),
            !percent_bits_valid(bits) ==> r == Err::<Percent, WaxyError>(
                WaxyError::InvalidPercent { bits },
            ),
    {
        if bits == 0x8000_0000u32 || bits <= 0x3F80_0000u32 {
            Ok(Percent { bits })
        } else {
            Err(WaxyError::InvalidPercent { bits })
        }
    }
}

/// Automatic sizing or placement.
#[derive(Clone, Copy, Debug, PartialEq, Eq, Hash, Structural)]
pub struct Auto {}

impl Auto {
    /// The automatic value.
    pub fn new() -> (r: Auto)
        ensures
            r == (Auto {  }),
    {
        Auto {  }
    }
}

/// The `min-content` intrinsic size: the smallest size that fits the contents
/// with every soft line-wrapping opportunity taken.
#[derive(Clone, Copy, Debug, PartialEq, Eq, Hash, Structural)]
pub struct MinContent {}

impl MinContent {
    /// The min-content keyword.
    pub fn new() -> (r: MinContent)
        ensures
            r == (MinContent {  }),
    {
        MinContent {  }
    }
}

/// The `max-content` intrinsic size: the smallest size that fits the contents
/// with no soft line-wrapping opportunity taken.
#[derive(Clone, Copy, Debug, PartialEq, Eq, Hash, Structural)]
pub struct MaxContent {}

impl MaxContent {
    /// The max-content keyword.
    pub fn new() -> (r: MaxContent)
        ensures
            r == (MaxContent {  }),
    {
        MaxContent {  }
    }
}

/// A definite available space in pixels, held as the bit pattern of the
/// number.  Only used in available-space contexts (measure input).
#[derive(Clone, Copy, Debug, PartialEq, Eq, Hash, Structural)]
pub struct Definite {
    pub bits: u32,
}

impl Definite {
    /// A definite available space.
    pub fn new(bits: u32) -> (r: Definite)
        ensures
            r == (Definite { bits }),
    {
        Definite { bits }
    }
}

/// A fractional unit of remaining grid space (the CSS `fr` unit), held as the
/// bit pattern of the number.  Only used in grid max-track contexts.
#[derive(Clone, Copy, Debug, PartialEq, Eq, Hash, Structural)]
pub struct Fraction {
    pub bits: u32,
}

impl Fraction {
    /// A fractional track unit.
    pub fn new(bits: u32) -> (r: Fraction)
        ensures
            r == (Fraction { bits }),
    {
        Fraction { bits }
    }
}

/// A 1-based grid line index; negative indices count from the end.  Zero is
/// not a line.
#[derive(Clone, Copy, Debug, PartialEq, Eq, Hash, Structural)]
pub struct GridLine {
    pub index: i16,
}

impl GridLine {
    /// Build a grid line; index zero is rejected with
    /// [`WaxyError::InvalidGridLine`].
    pub fn new(index: i16) -> (r: Result<GridLine, WaxyError>)
        ensures
            index != 0 ==> r == Ok::<GridLine, WaxyError>(GridLine { index }),
            index == 0 ==> r == Err::<GridLine, WaxyError>(WaxyError::InvalidGridLine),
    {
        if index == 0 {
            Err(WaxyError::InvalidGridLine)
        } else {
            Ok(GridLine { index })
        }
    }
}

/// A span over a number of grid tracks; the count is at least one.
#[derive(Clone, Copy, Debug, PartialEq, Eq, Hash, Structural)]
pub struct GridSpan {
    pub count: u16,
}

impl GridSpan {
    /// Build a grid span; count zero is rejected with
    /// [`WaxyError::InvalidGridSpan`].
    pub fn new(count: u16) -> (r: Result<GridSpan, WaxyError>)
        ensures
            count != 0 ==> r == Ok::<GridSpan, WaxyError>(GridSpan { count }),
            count == 0 ==> r == Err::<GridSpan, WaxyError>(WaxyError::InvalidGridSpan),
    {
        if count == 0 {
            Err(WaxyError::InvalidGridSpan)
        } else {
            Ok(GridSpan { count })
        }
    }
}

/// Accepts `Length | Percent | Auto`: the accept-set of sizes, minimum and
/// maximum sizes, and the flex basis.
#[derive(Clone, Copy, Debug, PartialEq, Eq, Hash, Structural)]
pub enum DimensionInput {
    Length(Length),
    Percent(Percent),
    Auto(Auto),
}

/// Accepts `Length | Percent`: the accept-set of padding, borders and gaps.
#[derive(Clone, Copy, Debug, PartialEq, Eq, Hash, Structural)]
pub enum LengthPercentageInput {
    Length(Length),
    Percent(Percent),
}

/// Accepts `Length | Percent | Auto`: the accept-set of margins and insets.
#[derive(Clone, Copy, Debug, PartialEq, Eq, Hash, Structural)]
pub enum LengthPercentageAutoInput {
    Length(Length),
    Percent(Percent),
    Auto(Auto),
}

/// Accepts `Definite | MinContent | MaxContent`: the accept-set of available
/// space.
#[derive(Clone, Copy, Debug, PartialEq, Eq, Hash, Structural)]
pub enum AvailableSpaceInput {
    Definite(Definite),
    MinContent(MinContent),
    MaxContent(MaxContent),
}

/// Accepts `Length | Percent | Auto | MinContent | MaxContent`: the min side
/// of a `minmax()` track sizing function.
#[derive(Clone, Copy, Debug, PartialEq, Eq, Hash, Structural)]
pub enum GridTrackMinInput {
    Length(Length),
    Percent(Percent),
    Auto(Auto),
    MinContent(MinContent),
    MaxContent(MaxContent),
}

/// The `fit-content()` track sizing function: grows up to the limit, then
/// clamps.  The limit is a length or a percentage.
#[derive(Clone, Copy, Debug, PartialEq, Eq, Hash, Structural)]
pub struct FitContent {
    pub limit: LengthPercentageInput,
}

impl FitContent {
    /// A fit-content track bound by `limit`.
    pub fn new(limit: LengthPercentageInput) -> (r: FitContent)
        ensures
            r == (FitContent { limit }),
    {
        FitContent { limit }
    }
}

/// Accepts the max side of a `minmax()` track sizing function, which admits
/// `Fraction` and `FitContent` beyond the min side's accept-set.
#[derive(Clone, Copy, Debug, PartialEq, Eq, Hash, Structural)]
pub enum GridTrackMaxInput {
    Length(Length),
    Percent(Percent),
    Auto(Auto),
    MinContent(MinContent),
    MaxContent(MaxContent),
    Fraction(Fraction),
    FitContent(FitContent),
}

/// The `minmax()` track sizing function: `min` sets the minimum track size,
/// `max` the maximum.
#[derive(Clone, Copy, Debug, PartialEq, Eq, Hash, Structural)]
pub struct Minmax {
    pub min: GridTrackMinInput,
    pub max: GridTrackMaxInput,
}

impl Minmax {
    /// A track sized between `min` and `max`.
    pub fn new(min: GridTrackMinInput, max: GridTrackMaxInput) -> (r: Minmax)
        ensures
            r == (Minmax { min, max }),
    {
        Minmax { min, max }
    }
}

/// Accepts the full set of grid track values.
#[derive(Clone, Copy, Debug, PartialEq, Eq, Hash, Structural)]
pub enum GridTrackInput {
    Length(Length),
    Percent(Percent),
    Auto(Auto),
    MinContent(MinContent),
    MaxContent(MaxContent),
    Fraction(Fraction),
    Minmax(Minmax),
    FitContent(FitContent),
}

/// Accepts `GridLine | GridSpan | Auto` for grid placement.
#[derive(Clone, Copy, Debug, PartialEq, Eq, Hash, Structural)]
pub enum GridPlacementInput {
    GridLine(GridLine),
    GridSpan(GridSpan),
    Auto(Auto),
}

} // verus!
