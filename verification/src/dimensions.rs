//! Typed views of the engine-level dimension values.
//!
//! These enums mirror, variant for variant, what the engine can store for a
//! dimension, a length-percentage, and a length-percentage-auto slot.
//! Numbers are held as their IEEE-754 single-precision bit patterns.

use vstd::prelude::*;

verus! {

/// A dimension: a length, a percentage, or automatic.
#[derive(Clone, Copy, Debug, PartialEq, Eq, Hash, Structural)]
pub enum Dimension {
    Length { bits: u32 },
    Percent { bits: u32 },
    Auto,
}

impl Dimension {
    /// A length dimension from the bit pattern of a pixel value.
    pub fn length(bits: u32) -> (r: Dimension)
        ensures
            r == (Dimension::Length { bits }),
    {
        Dimension::Length { bits }
    }

    /// A percentage dimension from the bit pattern of a unit fraction.
    pub fn percent(bits: u32) -> (r: Dimension)
        ensures
            r == (Dimension::Percent { bits }),
    {
        Dimension::Percent { bits }
    }

    /// The automatic dimension.
    pub fn auto() -> (r: Dimension)
        ensures
            r == Dimension::Auto,
    {
        Dimension::Auto
    }

    /// Whether this is the automatic dimension.
    pub fn is_auto(&self) -> (r: bool)
        ensures
            r == (self is Auto),
    {
        match self {
            Dimension::Auto => true,
            _ => false,
        }
    }
}

/// A length or a percentage (no automatic state).
#[derive(Clone, Copy, Debug, PartialEq, Eq, Hash, Structural)]
pub enum LengthPercentage {
    Length { bits: u32 },
    Percent { bits: u32 },
}

impl LengthPercentage {
    /// A length from the bit pattern of a pixel value.
    pub fn length(bits: u32) -> (r: LengthPercentage)
        ensures
            r == (LengthPercentage::Length { bits }),
    {
        LengthPercentage::Length { bits }
    }

    /// A percentage from the bit pattern of a unit fraction.
    pub fn percent(bits: u32) -> (r: LengthPercentage)
        ensures
            r == (LengthPercentage::Percent { bits }),
    {
        LengthPercentage::Percent { bits }
    }
}

/// A length, a percentage, or automatic.
#[derive(Clone, Copy, Debug, PartialEq, Eq, Hash, Structural)]
pub enum LengthPercentageAuto {
    Length { bits: u32 },
    Percent { bits: u32 },
    Auto,
}

impl LengthPercentageAuto {
    /// A length from the bit pattern of a pixel value.
    pub fn length(bits: u32) -> (r: LengthPercentageAuto)
        ensures
            r == (LengthPercentageAuto::Length { bits }),
    {
        LengthPercentageAuto::Length { bits }
    }

    /// A percentage from the bit pattern of a unit fraction.
    pub fn percent(bits: u32) -> (r: LengthPercentageAuto)
        ensures
            r == (LengthPercentageAuto::Percent { bits }),
    {
        LengthPercentageAuto::Percent { bits }
    }

    /// The automatic value.
    pub fn auto() -> (r: LengthPercentageAuto)
        ensures
            r == LengthPercentageAuto::Auto,
    {
        LengthPercentageAuto::Auto
    }

    /// Whether this is the automatic value.
    pub fn is_auto(&self) -> (r: bool)
        ensures
            r == (self is Auto),
    {
        match self {
            LengthPercentageAuto::Auto => true,
            _ => false,
        }
    }
}

} // verus!
