//! The coercion layer between the value vocabulary and the engine's compact
//! tagged representation.
//!
//! The engine stores every dimensional value in a single 64-bit word: the
//! low byte is a tag naming the variant and the high 32 bits are the bit
//! pattern of the number, if the variant carries one.  This module states
//! that encoding, converts the vocabulary to and from the typed views of the
//! engine values, and proves the round-trip laws, including the grid-track
//! shorthand normalization: a pair `minmax(length(v), length(v))` read back
//! from the engine renders as the plain `Length(v)` the caller wrote.

use vstd::prelude::*;
use crate::dimensions::{Dimension, LengthPercentage, LengthPercentageAuto};
use crate::enums::AvailableSpace;
use crate::grid::{GridPlacement, GridTrack, GridTrackMax, GridTrackMin};
use crate::values::{
    Auto,
    AvailableSpaceInput,
    Definite,
    DimensionInput,
    FitContent,
    Fraction,
    GridLine,
    GridPlacementInput,
    GridSpan,
    GridTrackInput,
    GridTrackMaxInput,
    GridTrackMinInput,
    Length,
    LengthPercentageAutoInput,
    LengthPercentageInput,
    MaxContent,
    MinContent,
    Minmax,
    Percent,
};

verus! {

/// The tag of a pixel length in the compact word.
pub const LENGTH_TAG: u64 = 0x01;

/// The tag of a percentage in the compact word.
pub const PERCENT_TAG: u64 = 0x02;

/// The tag of the automatic value in the compact word.
pub const AUTO_TAG: u64 = 0x03;

/// The tag of a fractional track unit in the compact word.
pub const FR_TAG: u64 = 0x04;

/// The tag of the min-content keyword in the compact word.
pub const MIN_CONTENT_TAG: u64 = 0x07;

/// The tag of the max-content keyword in the compact word.
pub const MAX_CONTENT_TAG: u64 = 0x0F;

/// The tag of a fit-content bound by pixels in the compact word.
pub const FIT_CONTENT_PX_TAG: u64 = 0x17;

/// The tag of a fit-content bound by a percentage in the compact word.
pub const FIT_CONTENT_PERCENT_TAG: u64 = 0x1F;

/// A compact word from a tag and a number's bit pattern: the pattern fills
/// the high 32 bits and the tag the low byte.
pub open spec fn spec_pack(tag: u64, bits: u32) -> u64 {
    ((bits as u64) << 32u64) | tag
}

/// The tag of a compact word: its low byte.
pub open spec fn spec_word_tag(w: u64) -> u64 {
    w & 0xFFu64
}

/// The number carried by a compact word: its high 32 bits.
pub open spec fn spec_word_bits(w: u64) -> u32 {
    (w >> 32u64) as u32
}

/// Packing is inverted by the tag and bit accessors, and a bare tag (used by
/// the variants that carry no number) reads back as itself with a zero
/// number.
pub proof fn lemma_pack_unpack(tag: u64, bits: u32)
    by (bit_vector)
    requires
        tag <= 0xFF,
    ensures
        spec_word_tag(spec_pack(tag, bits)) == tag,
        spec_word_bits(spec_pack(tag, bits)) == bits,
        spec_word_tag(tag) == tag,
        spec_word_bits(tag) == 0,
{
}

/// Runtime form of [`spec_pack`].
pub fn pack(tag: u64, bits: u32) -> (r: u64)
    requires
        tag <= 0xFF,
    ensures
        r == spec_pack(tag, bits),
{
    ((bits as u64) << 32u64) | tag
}

/// Runtime form of [`spec_word_tag`].
pub fn word_tag(w: u64) -> (r: u64)
    ensures
        r == spec_word_tag(w),
{
    w & 0xFFu64
}

/// Runtime form of [`spec_word_bits`].
pub fn word_bits(w: u64) -> (r: u32)
    ensures
        r == spec_word_bits(w),
{
    (w >> 32u64) as u32
}

// ─── Dimension words ───────────────────────────────────────────────────────

/// The compact word of a dimension.
pub open spec fn spec_dimension_to_word(d: Dimension) -> u64 {
    match d {
        Dimension::Length { bits } => spec_pack(LENGTH_TAG, bits),
        Dimension::Percent { bits } => spec_pack(PERCENT_TAG, bits),
        Dimension::Auto => AUTO_TAG,
    }
}

/// The dimension a compact word denotes; a word with an unknown tag denotes
/// the automatic dimension.
pub open spec fn spec_word_to_dimension(w: u64) -> Dimension {
    if spec_word_tag(w) == LENGTH_TAG {
        Dimension::Length { bits: spec_word_bits(w) }
    } else if spec_word_tag(w) == PERCENT_TAG {
        Dimension::Percent { bits: spec_word_bits(w) }
    } else {
        Dimension::Auto
    }
}

/// Encode a dimension as a compact word.
pub fn dimension_to_word(d: &Dimension) -> (r: u64)
    ensures
        r == spec_dimension_to_word(*d),
{
    match d {
        Dimension::Length { bits } => pack(LENGTH_TAG, *bits),
        Dimension::Percent { bits } => pack(PERCENT_TAG, *bits),
        Dimension::Auto => AUTO_TAG,
    }
}

/// Decode a compact word to a dimension.
pub fn word_to_dimension(w: u64) -> (r: Dimension)
    ensures
        r == spec_word_to_dimension(w),
{
    let tag = word_tag(w);
    if tag == LENGTH_TAG {
        Dimension::Length { bits: word_bits(w) }
    } else if tag == PERCENT_TAG {
        Dimension::Percent { bits: word_bits(w) }
    } else {
        Dimension::Auto
    }
}

/// Decoding inverts encoding for every dimension.
pub proof fn lemma_dimension_word_round_trip(d: Dimension)
    ensures
        spec_word_to_dimension(spec_dimension_to_word(d)) == d,
{
    match d {
        Dimension::Length { bits } => lemma_pack_unpack(LENGTH_TAG, bits),
        Dimension::Percent { bits } => lemma_pack_unpack(PERCENT_TAG, bits),
        Dimension::Auto => lemma_pack_unpack(AUTO_TAG, 0),
    }
}

// ─── Length-percentage words ───────────────────────────────────────────────

/// The compact word of a length-percentage.
pub open spec fn spec_length_percentage_to_word(lp: LengthPercentage) -> u64 {
    match lp {
        LengthPercentage::Length { bits } => spec_pack(LENGTH_TAG, bits),
        LengthPercentage::Percent { bits } => spec_pack(PERCENT_TAG, bits),
    }
}

/// The length-percentage a compact word denotes; a word with an unknown tag
/// denotes the zero length.
pub open spec fn spec_word_to_length_percentage(w: u64) -> LengthPercentage {
    if spec_word_tag(w) == LENGTH_TAG {
        LengthPercentage::Length { bits: spec_word_bits(w) }
    } else if spec_word_tag(w) == PERCENT_TAG {
        LengthPercentage::Percent { bits: spec_word_bits(w) }
    } else {
        LengthPercentage::Length { bits: 0 }
    }
}

/// Encode a length-percentage as a compact word.
pub fn length_percentage_to_word(lp: &LengthPercentage) -> (r: u64)
    ensures
        r == spec_length_percentage_to_word(*lp),
{
    match lp {
        LengthPercentage::Length { bits } => pack(LENGTH_TAG, *bits),
        LengthPercentage::Percent { bits } => pack(PERCENT_TAG, *bits),
    }
}

/// Decode a compact word to a length-percentage.
pub fn word_to_length_percentage(w: u64) -> (r: LengthPercentage)
    ensures
        r == spec_word_to_length_percentage(w),
{
    let tag = word_tag(w);
    if tag == LENGTH_TAG {
        LengthPercentage::Length { bits: word_bits(w) }
    } else if tag == PERCENT_TAG {
        LengthPercentage::Percent { bits: word_bits(w) }
    } else {
        LengthPercentage::Length { bits: 0 }
    }
}

/// Decoding inverts encoding for every length-percentage.
pub proof fn lemma_length_percentage_word_round_trip(lp: LengthPercentage)
    ensures
        spec_word_to_length_percentage(spec_length_percentage_to_word(lp)) == lp,
{
    match lp {
        LengthPercentage::Length { bits } => lemma_pack_unpack(LENGTH_TAG, bits),
        LengthPercentage::Percent { bits } => lemma_pack_unpack(PERCENT_TAG, bits),
    }
}

// ─── Length-percentage-auto words ──────────────────────────────────────────

/// The compact word of a length-percentage-auto.
pub open spec fn spec_lpa_to_word(v: LengthPercentageAuto) -> u64 {
    match v {
        LengthPercentageAuto::Length { bits } => spec_pack(LENGTH_TAG, bits),
        LengthPercentageAuto::Percent { bits } => spec_pack(PERCENT_TAG, bits),
        LengthPercentageAuto::Auto => AUTO_TAG,
    }
}

/// The length-percentage-auto a compact word denotes; a word with an unknown
/// tag denotes the automatic value.
pub open spec fn spec_word_to_lpa(w: u64) -> LengthPercentageAuto {
    if spec_word_tag(w) == LENGTH_TAG {
        LengthPercentageAuto::Length { bits: spec_word_bits(w) }
    } else if spec_word_tag(w) == PERCENT_TAG {
        LengthPercentageAuto::Percent { bits: spec_word_bits(w) }
    } else {
        LengthPercentageAuto::Auto
    }
}

/// Encode a length-percentage-auto as a compact word.
pub fn lpa_to_word(v: &LengthPercentageAuto) -> (r: u64)
    ensures
        r == spec_lpa_to_word(*v),
{
    match v {
        LengthPercentageAuto::Length { bits } => pack(LENGTH_TAG, *bits),
        LengthPercentageAuto::Percent { bits } => pack(PERCENT_TAG, *bits),
        LengthPercentageAuto::Auto => AUTO_TAG,
    }
}

/// Decode a compact word to a length-percentage-auto.
pub fn word_to_lpa(w: u64) -> (r: LengthPercentageAuto)
    ensures
        r == spec_word_to_lpa(w),
{
    let tag = word_tag(w);
    if tag == LENGTH_TAG {
        LengthPercentageAuto::Length { bits: word_bits(w) }
    } else if tag == PERCENT_TAG {
        LengthPercentageAuto::Percent { bits: word_bits(w) }
    } else {
        LengthPercentageAuto::Auto
    }
}

/// Decoding inverts encoding for every length-percentage-auto.
pub proof fn lemma_lpa_word_round_trip(v: LengthPercentageAuto)
    ensures
        spec_word_to_lpa(spec_lpa_to_word(v)) == v,
{
    match v {
        LengthPercentageAuto::Length { bits } => lemma_pack_unpack(LENGTH_TAG, bits),
        LengthPercentageAuto::Percent { bits } => lemma_pack_unpack(PERCENT_TAG, bits),
        LengthPercentageAuto::Auto => lemma_pack_unpack(AUTO_TAG, 0),
    }
}

// ─── Track sizing-function words ───────────────────────────────────────────

/// The compact word of a minimum track sizing function.
pub open spec fn spec_track_min_to_word(m: GridTrackMin) -> u64 {
    match m {
        GridTrackMin::Length { bits } => spec_pack(LENGTH_TAG, bits),
        GridTrackMin::Percent { bits } => spec_pack(PERCENT_TAG, bits),
        GridTrackMin::Auto => AUTO_TAG,
        GridTrackMin::MinContent => MIN_CONTENT_TAG,
        GridTrackMin::MaxContent => MAX_CONTENT_TAG,
    }
}

/// The minimum track sizing function a compact word denotes; a word with an
/// unknown tag denotes the automatic minimum.
pub open spec fn spec_word_to_track_min(w: u64) -> GridTrackMin {
    if spec_word_tag(w) == LENGTH_TAG {
        GridTrackMin::Length { bits: spec_word_bits(w) }
    } else if spec_word_tag(w) == PERCENT_TAG {
        GridTrackMin::Percent { bits: spec_word_bits(w) }
    } else if spec_word_tag(w) == MIN_CONTENT_TAG {
        GridTrackMin::MinContent
    } else if spec_word_tag(w) == MAX_CONTENT_TAG {
        GridTrackMin::MaxContent
    } else {
        GridTrackMin::Auto
    }
}

/// Encode a minimum track sizing function as a compact word.
pub fn track_min_to_word(m: &GridTrackMin) -> (r: u64)
    ensures
        r == spec_track_min_to_word(*m),
{
    match m {
        GridTrackMin::Length { bits } => pack(LENGTH_TAG, *bits),
        GridTrackMin::Percent { bits } => pack(PERCENT_TAG, *bits),
        GridTrackMin::Auto => AUTO_TAG,
        GridTrackMin::MinContent => MIN_CONTENT_TAG,
        GridTrackMin::MaxContent => MAX_CONTENT_TAG,
    }
}

/// Decode a compact word to a minimum track sizing function.
pub fn word_to_track_min(w: u64) -> (r: GridTrackMin)
    ensures
        r == spec_word_to_track_min(w),
{
    let tag = word_tag(w);
    if tag == LENGTH_TAG {
        GridTrackMin::Length { bits: word_bits(w) }
    } else if tag == PERCENT_TAG {
        GridTrackMin::Percent { bits: word_bits(w) }
    } else if tag == MIN_CONTENT_TAG {
        GridTrackMin::MinContent
    } else if tag == MAX_CONTENT_TAG {
        GridTrackMin::MaxContent
    } else {
        GridTrackMin::Auto
    }
}

/// Decoding inverts encoding for every minimum track sizing function.
pub proof fn lemma_track_min_word_round_trip(m: GridTrackMin)
    ensures
        spec_word_to_track_min(spec_track_min_to_word(m)) == m,
{
    match m {
        GridTrackMin::Length { bits } => lemma_pack_unpack(LENGTH_TAG, bits),
        GridTrackMin::Percent { bits } => lemma_pack_unpack(PERCENT_TAG, bits),
        GridTrackMin::Auto => lemma_pack_unpack(AUTO_TAG, 0),
        GridTrackMin::MinContent => lemma_pack_unpack(MIN_CONTENT_TAG, 0),
        GridTrackMin::MaxContent => lemma_pack_unpack(MAX_CONTENT_TAG, 0),
    }
}

/// The compact word of a maximum track sizing function.
pub open spec fn spec_track_max_to_word(m: GridTrackMax) -> u64 {
    match m {
        GridTrackMax::Length { bits } => spec_pack(LENGTH_TAG, bits),
        GridTrackMax::Percent { bits } => spec_pack(PERCENT_TAG, bits),
        GridTrackMax::Auto => AUTO_TAG,
        GridTrackMax::MinContent => MIN_CONTENT_TAG,
        GridTrackMax::MaxContent => MAX_CONTENT_TAG,
        GridTrackMax::Fraction { bits } => spec_pack(FR_TAG, bits),
        GridTrackMax::FitContentPx { bits } => spec_pack(FIT_CONTENT_PX_TAG, bits),
        GridTrackMax::FitContentPercent { bits } => spec_pack(FIT_CONTENT_PERCENT_TAG, bits),
    }
}

/// The maximum track sizing function a compact word denotes; a word with an
/// unknown tag denotes the automatic maximum.
pub open spec fn spec_word_to_track_max(w: u64) -> GridTrackMax {
    if spec_word_tag(w) == LENGTH_TAG {
        GridTrackMax::Length { bits: spec_word_bits(w) }
    } else if spec_word_tag(w) == PERCENT_TAG {
        GridTrackMax::Percent { bits: spec_word_bits(w) }
    } else if spec_word_tag(w) == MIN_CONTENT_TAG {
        GridTrackMax::MinContent
    } else if spec_word_tag(w) == MAX_CONTENT_TAG {
        GridTrackMax::MaxContent
    } else if spec_word_tag(w) == FR_TAG {
        GridTrackMax::Fraction { bits: spec_word_bits(w) }
    } else if spec_word_tag(w) == FIT_CONTENT_PX_TAG {
        GridTrackMax::FitContentPx { bits: spec_word_bits(w) }
    } else if spec_word_tag(w) == FIT_CONTENT_PERCENT_TAG {
        GridTrackMax::FitContentPercent { bits: spec_word_bits(w) }
    } else {
        GridTrackMax::Auto
    }
}

/// Encode a maximum track sizing function as a compact word.
pub fn track_max_to_word(m: &GridTrackMax) -> (r: u64)
    ensures
        r == spec_track_max_to_word(*m),
{
    match m {
        GridTrackMax::Length { bits } => pack(LENGTH_TAG, *bits),
        GridTrackMax::Percent { bits } => pack(PERCENT_TAG, *bits),
        GridTrackMax::Auto => AUTO_TAG,
        GridTrackMax::MinContent => MIN_CONTENT_TAG,
        GridTrackMax::MaxContent => MAX_CONTENT_TAG,
        GridTrackMax::Fraction { bits } => pack(FR_TAG, *bits),
        GridTrackMax::FitContentPx { bits } => pack(FIT_CONTENT_PX_TAG, *bits),
        GridTrackMax::FitContentPercent { bits } => pack(FIT_CONTENT_PERCENT_TAG, *bits),
    }
}

/// Decode a compact word to a maximum track sizing function.
pub fn word_to_track_max(w: u64) -> (r: GridTrackMax)
    ensures
        r == spec_word_to_track_max(w),
{
    let tag = word_tag(w);
    if tag == LENGTH_TAG {
        GridTrackMax::Length { bits: word_bits(w) }
    } else if tag == PERCENT_TAG {
        GridTrackMax::Percent { bits: word_bits(w) }
    } else if tag == MIN_CONTENT_TAG {
        GridTrackMax::MinContent
    } else if tag == MAX_CONTENT_TAG {
        GridTrackMax::MaxContent
    } else if tag == FR_TAG {
        GridTrackMax::Fraction { bits: word_bits(w) }
    } else if tag == FIT_CONTENT_PX_TAG {
        GridTrackMax::FitContentPx { bits: word_bits(w) }
    } else if tag == FIT_CONTENT_PERCENT_TAG {
        GridTrackMax::FitContentPercent { bits: word_bits(w) }
    } else {
        GridTrackMax::Auto
    }
}

/// Decoding inverts encoding for every maximum track sizing function.
pub proof fn lemma_track_max_word_round_trip(m: GridTrackMax)
    ensures
        spec_word_to_track_max(spec_track_max_to_word(m)) == m,
{
    match m {
        GridTrackMax::Length { bits } => lemma_pack_unpack(LENGTH_TAG, bits),
        GridTrackMax::Percent { bits } => lemma_pack_unpack(PERCENT_TAG, bits),
        GridTrackMax::Auto => lemma_pack_unpack(AUTO_TAG, 0),
        GridTrackMax::MinContent => lemma_pack_unpack(MIN_CONTENT_TAG, 0),
        GridTrackMax::MaxContent => lemma_pack_unpack(MAX_CONTENT_TAG, 0),
        GridTrackMax::Fraction { bits } => lemma_pack_unpack(FR_TAG, bits),
        GridTrackMax::FitContentPx { bits } => lemma_pack_unpack(FIT_CONTENT_PX_TAG, bits),
        GridTrackMax::FitContentPercent { bits } => lemma_pack_unpack(
            FIT_CONTENT_PERCENT_TAG,
            bits,
        ),
    }
}

// ─── Vocabulary to engine values ───────────────────────────────────────────

impl DimensionInput {
    /// The dimension this vocabulary value denotes.
    pub open spec fn spec_to_dimension(self) -> Dimension {
        match self {
            DimensionInput::Length(l) => Dimension::Length { bits: l.bits },
            DimensionInput::Percent(p) => Dimension::Percent { bits: p.bits },
            DimensionInput::Auto(_) => Dimension::Auto,
        }
    }

    /// Coerce to the engine dimension.
    pub fn to_dimension(&self) -> (r: Dimension)
        ensures
            r == self.spec_to_dimension(),
    {
        match self {
            DimensionInput::Length(l) => Dimension::Length { bits: l.bits },
            DimensionInput::Percent(p) => Dimension::Percent { bits: p.bits },
            DimensionInput::Auto(_) => Dimension::Auto,
        }
    }
}

impl LengthPercentageInput {
    /// The length-percentage this vocabulary value denotes.
    pub open spec fn spec_to_length_percentage(self) -> LengthPercentage {
        match self {
            LengthPercentageInput::Length(l) => LengthPercentage::Length { bits: l.bits },
            LengthPercentageInput::Percent(p) => LengthPercentage::Percent { bits: p.bits },
        }
    }

    /// Coerce to the engine length-percentage.
    pub fn to_length_percentage(&self) -> (r: LengthPercentage)
        ensures
            r == self.spec_to_length_percentage(),
    {
        match self {
            LengthPercentageInput::Length(l) => LengthPercentage::Length { bits: l.bits },
            LengthPercentageInput::Percent(p) => LengthPercentage::Percent { bits: p.bits },
        }
    }
}

impl LengthPercentageAutoInput {
    /// The length-percentage-auto this vocabulary value denotes.
    pub open spec fn spec_to_lpa(self) -> LengthPercentageAuto {
        match self {
            LengthPercentageAutoInput::Length(l) => LengthPercentageAuto::Length { bits: l.bits },
            LengthPercentageAutoInput::Percent(p) => LengthPercentageAuto::Percent {
                bits: p.bits,
            },
            LengthPercentageAutoInput::Auto(_) => LengthPercentageAuto::Auto,
        }
    }

    /// Coerce to the engine length-percentage-auto.
    pub fn to_lpa(&self) -> (r: LengthPercentageAuto)
        ensures
            r == self.spec_to_lpa(),
    {
        match self {
            LengthPercentageAutoInput::Length(l) => LengthPercentageAuto::Length { bits: l.bits },
            LengthPercentageAutoInput::Percent(p) => LengthPercentageAuto::Percent {
                bits: p.bits,
            },
            LengthPercentageAutoInput::Auto(_) => LengthPercentageAuto::Auto,
        }
    }
}

impl AvailableSpaceInput {
    /// The available space this vocabulary value denotes.
    pub open spec fn spec_to_available_space(self) -> AvailableSpace {
        match self {
            AvailableSpaceInput::Definite(d) => AvailableSpace::Definite { bits: d.bits },
            AvailableSpaceInput::MinContent(_) => AvailableSpace::MinContent,
            AvailableSpaceInput::MaxContent(_) => AvailableSpace::MaxContent,
        }
    }

    /// Coerce to the engine available space.
    pub fn to_available_space(&self) -> (r: AvailableSpace)
        ensures
            r == self.spec_to_available_space(),
    {
        match self {
            AvailableSpaceInput::Definite(d) => AvailableSpace::Definite { bits: d.bits },
            AvailableSpaceInput::MinContent(_) => AvailableSpace::MinContent,
            AvailableSpaceInput::MaxContent(_) => AvailableSpace::MaxContent,
        }
    }
}

impl GridTrackMinInput {
    /// The minimum track sizing function this vocabulary value denotes.
    pub open spec fn spec_to_track_min(self) -> GridTrackMin {
        match self {
            GridTrackMinInput::Length(l) => GridTrackMin::Length { bits: l.bits },
            GridTrackMinInput::Percent(p) => GridTrackMin::Percent { bits: p.bits },
            GridTrackMinInput::Auto(_) => GridTrackMin::Auto,
            GridTrackMinInput::MinContent(_) => GridTrackMin::MinContent,
            GridTrackMinInput::MaxContent(_) => GridTrackMin::MaxContent,
        }
    }

    /// Coerce to the engine minimum track sizing function.
    pub fn to_track_min(&self) -> (r: GridTrackMin)
        ensures
            r == self.spec_to_track_min(),
    {
        match self {
            GridTrackMinInput::Length(l) => GridTrackMin::Length { bits: l.bits },
            GridTrackMinInput::Percent(p) => GridTrackMin::Percent { bits: p.bits },
            GridTrackMinInput::Auto(_) => GridTrackMin::Auto,
            GridTrackMinInput::MinContent(_) => GridTrackMin::MinContent,
            GridTrackMinInput::MaxContent(_) => GridTrackMin::MaxContent,
        }
    }
}

impl FitContent {
    /// The maximum track sizing function a fit-content value denotes: its
    /// limit decides between the pixel-bound and percentage-bound forms.
    pub open spec fn spec_to_track_max(self) -> GridTrackMax {
        match self.limit {
            LengthPercentageInput::Length(l) => GridTrackMax::FitContentPx { bits: l.bits },
            LengthPercentageInput::Percent(p) => GridTrackMax::FitContentPercent { bits: p.bits },
        }
    }

    /// Coerce to the engine maximum track sizing function.
    pub fn to_track_max(&self) -> (r: GridTrackMax)
        ensures
            r == self.spec_to_track_max(),
    {
        match self.limit {
            LengthPercentageInput::Length(l) => GridTrackMax::FitContentPx { bits: l.bits },
            LengthPercentageInput::Percent(p) => GridTrackMax::FitContentPercent { bits: p.bits },
        }
    }
}

impl GridTrackMaxInput {
    /// The maximum track sizing function this vocabulary value denotes.
    pub open spec fn spec_to_track_max(self) -> GridTrackMax {
        match self {
            GridTrackMaxInput::Length(l) => GridTrackMax::Length { bits: l.bits },
            GridTrackMaxInput::Percent(p) => GridTrackMax::Percent { bits: p.bits },
            GridTrackMaxInput::Auto(_) => GridTrackMax::Auto,
            GridTrackMaxInput::MinContent(_) => GridTrackMax::MinContent,
            GridTrackMaxInput::MaxContent(_) => GridTrackMax::MaxContent,
            GridTrackMaxInput::Fraction(f) => GridTrackMax::Fraction { bits: f.bits },
            GridTrackMaxInput::FitContent(fc) => fc.spec_to_track_max(),
        }
    }

    /// Coerce to the engine maximum track sizing function.
    pub fn to_track_max(&self) -> (r: GridTrackMax)
        ensures
            r == self.spec_to_track_max(),
    {
        match self {
            GridTrackMaxInput::Length(l) => GridTrackMax::Length { bits: l.bits },
            GridTrackMaxInput::Percent(p) => GridTrackMax::Percent { bits: p.bits },
            GridTrackMaxInput::Auto(_) => GridTrackMax::Auto,
            GridTrackMaxInput::MinContent(_) => GridTrackMax::MinContent,
            GridTrackMaxInput::MaxContent(_) => GridTrackMax::MaxContent,
            GridTrackMaxInput::Fraction(f) => GridTrackMax::Fraction { bits: f.bits },
            GridTrackMaxInput::FitContent(fc) => fc.to_track_max(),
        }
    }
}

impl Minmax {
    /// The track sizing pair this `minmax()` denotes.
    pub open spec fn spec_to_track(self) -> GridTrack {
        GridTrack { min: self.min.spec_to_track_min(), max: self.max.spec_to_track_max() }
    }

    /// Coerce to the engine track sizing pair.
    pub fn to_track(&self) -> (r: GridTrack)
        ensures
            r == self.spec_to_track(),
    {
        GridTrack { min: self.min.to_track_min(), max: self.max.to_track_max() }
    }
}

impl GridTrackInput {
    /// The track sizing pair this vocabulary value denotes: the shorthands
    /// expand as in CSS (a bare length to `minmax(length, length)`, a
    /// fraction to `minmax(auto, fr)`, a fit-content to
    /// `minmax(auto, fit-content)`).
    pub open spec fn spec_to_track(self) -> GridTrack {
        match self {
            GridTrackInput::Length(l) => GridTrack {
                min: GridTrackMin::Length { bits: l.bits },
                max: GridTrackMax::Length { bits: l.bits },
            },
            GridTrackInput::Percent(p) => GridTrack {
                min: GridTrackMin::Percent { bits: p.bits },
                max: GridTrackMax::Percent { bits: p.bits },
            },
            GridTrackInput::Auto(_) => GridTrack {
                min: GridTrackMin::Auto,
                max: GridTrackMax::Auto,
            },
            GridTrackInput::MinContent(_) => GridTrack {
                min: GridTrackMin::MinContent,
                max: GridTrackMax::MinContent,
            },
            GridTrackInput::MaxContent(_) => GridTrack {
                min: GridTrackMin::MaxContent,
                max: GridTrackMax::MaxContent,
            },
            GridTrackInput::Fraction(f) => GridTrack {
                min: GridTrackMin::Auto,
                max: GridTrackMax::Fraction { bits: f.bits },
            },
            GridTrackInput::Minmax(m) => m.spec_to_track(),
            GridTrackInput::FitContent(fc) => GridTrack {
                min: GridTrackMin::Auto,
                max: fc.spec_to_track_max(),
            },
        }
    }

    /// Coerce to the engine track sizing pair.
    pub fn to_track(&self) -> (r: GridTrack)
        ensures
            r == self.spec_to_track(),
    {
        match self {
            GridTrackInput::Length(l) => GridTrack {
                min: GridTrackMin::Length { bits: l.bits },
                max: GridTrackMax::Length { bits: l.bits },
            },
            GridTrackInput::Percent(p) => GridTrack {
                min: GridTrackMin::Percent { bits: p.bits },
                max: GridTrackMax::Percent { bits: p.bits },
            },
            GridTrackInput::Auto(_) => GridTrack {
                min: GridTrackMin::Auto,
                max: GridTrackMax::Auto,
            },
            GridTrackInput::MinContent(_) => GridTrack {
                min: GridTrackMin::MinContent,
                max: GridTrackMax::MinContent,
            },
            GridTrackInput::MaxContent(_) => GridTrack {
                min: GridTrackMin::MaxContent,
                max: GridTrackMax::MaxContent,
            },
            GridTrackInput::Fraction(f) => GridTrack {
                min: GridTrackMin::Auto,
                max: GridTrackMax::Fraction { bits: f.bits },
            },
            GridTrackInput::Minmax(m) => m.to_track(),
            GridTrackInput::FitContent(fc) => GridTrack {
                min: GridTrackMin::Auto,
                max: fc.to_track_max(),
            },
        }
    }
}

impl GridPlacementInput {
    /// The grid placement this vocabulary value denotes.
    pub open spec fn spec_to_placement(self) -> GridPlacement {
        match self {
            GridPlacementInput::GridLine(gl) => GridPlacement::Line { index: gl.index },
            GridPlacementInput::GridSpan(gs) => GridPlacement::Span { count: gs.count },
            GridPlacementInput::Auto(_) => GridPlacement::Auto,
        }
    }

    /// Coerce to the engine grid placement.
    pub fn to_placement(&self) -> (r: GridPlacement)
        ensures
            r == self.spec_to_placement(),
    {
        match self {
            GridPlacementInput::GridLine(gl) => GridPlacement::Line { index: gl.index },
            GridPlacementInput::GridSpan(gs) => GridPlacement::Span { count: gs.count },
            GridPlacementInput::Auto(_) => GridPlacement::Auto,
        }
    }
}

// ─── Engine values back to the vocabulary ──────────────────────────────────
//
// These conversions bypass the vocabulary constructors' range validation:
// the engine only stores what this layer previously put in, and every
// user-facing construction went through the validating constructors.

/// The vocabulary value of a dimension.
pub open spec fn spec_dimension_to_value(d: Dimension) -> DimensionInput {
    match d {
        Dimension::Length { bits } => DimensionInput::Length(Length { bits }),
        Dimension::Percent { bits } => DimensionInput::Percent(Percent { bits }),
        Dimension::Auto => DimensionInput::Auto(Auto {  }),
    }
}

/// Convert a dimension back to the vocabulary.
pub fn dimension_to_value(d: &Dimension) -> (r: DimensionInput)
    ensures
        r == spec_dimension_to_value(*d),
{
    match d {
        Dimension::Length { bits } => DimensionInput::Length(Length { bits: *bits }),
        Dimension::Percent { bits } => DimensionInput::Percent(Percent { bits: *bits }),
        Dimension::Auto => DimensionInput::Auto(Auto {  }),
    }
}

/// The vocabulary value of a length-percentage.
pub open spec fn spec_length_percentage_to_value(lp: LengthPercentage) -> LengthPercentageInput {
    match lp {
        LengthPercentage::Length { bits } => LengthPercentageInput::Length(Length { bits }),
        LengthPercentage::Percent { bits } => LengthPercentageInput::Percent(Percent { bits }),
    }
}

/// Convert a length-percentage back to the vocabulary.
pub fn length_percentage_to_value(lp: &LengthPercentage) -> (r: LengthPercentageInput)
    ensures
        r == spec_length_percentage_to_value(*lp),
{
    match lp {
        LengthPercentage::Length { bits } => LengthPercentageInput::Length(Length { bits: *bits }),
        LengthPercentage::Percent { bits } => LengthPercentageInput::Percent(
            Percent { bits: *bits },
        ),
    }
}

/// The vocabulary value of a length-percentage-auto.
pub open spec fn spec_lpa_to_value(v: LengthPercentageAuto) -> LengthPercentageAutoInput {
    match v {
        LengthPercentageAuto::Length { bits } => LengthPercentageAutoInput::Length(
            Length { bits },
        ),
        LengthPercentageAuto::Percent { bits } => LengthPercentageAutoInput::Percent(
            Percent { bits },
        ),
        LengthPercentageAuto::Auto => LengthPercentageAutoInput::Auto(Auto {  }),
    }
}

/// Convert a length-percentage-auto back to the vocabulary.
pub fn lpa_to_value(v: &LengthPercentageAuto) -> (r: LengthPercentageAutoInput)
    ensures
        r == spec_lpa_to_value(*v),
{
    match v {
        LengthPercentageAuto::Length { bits } => LengthPercentageAutoInput::Length(
            Length { bits: *bits },
        ),
        LengthPercentageAuto::Percent { bits } => LengthPercentageAutoInput::Percent(
            Percent { bits: *bits },
        ),
        LengthPercentageAuto::Auto => LengthPercentageAutoInput::Auto(Auto {  }),
    }
}

/// The vocabulary value of an available space.
pub open spec fn spec_available_space_to_value(a: AvailableSpace) -> AvailableSpaceInput {
    match a {
        AvailableSpace::Definite { bits } => AvailableSpaceInput::Definite(Definite { bits }),
        AvailableSpace::MinContent => AvailableSpaceInput::MinContent(MinContent {  }),
        AvailableSpace::MaxContent => AvailableSpaceInput::MaxContent(MaxContent {  }),
    }
}

/// Convert an available space back to the vocabulary.
pub fn available_space_to_value(a: &AvailableSpace) -> (r: AvailableSpaceInput)
    ensures
        r == spec_available_space_to_value(*a),
{
    match a {
        AvailableSpace::Definite { bits } => AvailableSpaceInput::Definite(
            Definite { bits: *bits },
        ),
        AvailableSpace::MinContent => AvailableSpaceInput::MinContent(MinContent {  }),
        AvailableSpace::MaxContent => AvailableSpaceInput::MaxContent(MaxContent {  }),
    }
}

/// The vocabulary value of a minimum track sizing function.
pub open spec fn spec_track_min_to_value(m: GridTrackMin) -> GridTrackMinInput {
    match m {
        GridTrackMin::Length { bits } => GridTrackMinInput::Length(Length { bits }),
        GridTrackMin::Percent { bits } => GridTrackMinInput::Percent(Percent { bits }),
        GridTrackMin::Auto => GridTrackMinInput::Auto(Auto {  }),
        GridTrackMin::MinContent => GridTrackMinInput::MinContent(MinContent {  }),
        GridTrackMin::MaxContent => GridTrackMinInput::MaxContent(MaxContent {  }),
    }
}

/// Convert a minimum track sizing function back to the vocabulary.
pub fn track_min_to_value(m: &GridTrackMin) -> (r: GridTrackMinInput)
    ensures
        r == spec_track_min_to_value(*m),
{
    match m {
        GridTrackMin::Length { bits } => GridTrackMinInput::Length(Length { bits: *bits }),
        GridTrackMin::Percent { bits } => GridTrackMinInput::Percent(Percent { bits: *bits }),
        GridTrackMin::Auto => GridTrackMinInput::Auto(Auto {  }),
        GridTrackMin::MinContent => GridTrackMinInput::MinContent(MinContent {  }),
        GridTrackMin::MaxContent => GridTrackMinInput::MaxContent(MaxContent {  }),
    }
}

/// The vocabulary value of a maximum track sizing function.
pub open spec fn spec_track_max_to_value(m: GridTrackMax) -> GridTrackMaxInput {
    match m {
        GridTrackMax::Length { bits } => GridTrackMaxInput::Length(Length { bits }),
        GridTrackMax::Percent { bits } => GridTrackMaxInput::Percent(Percent { bits }),
        GridTrackMax::Auto => GridTrackMaxInput::Auto(Auto {  }),
        GridTrackMax::MinContent => GridTrackMaxInput::MinContent(MinContent {  }),
        GridTrackMax::MaxContent => GridTrackMaxInput::MaxContent(MaxContent {  }),
        GridTrackMax::Fraction { bits } => GridTrackMaxInput::Fraction(Fraction { bits }),
        GridTrackMax::FitContentPx { bits } => GridTrackMaxInput::FitContent(
            FitContent { limit: LengthPercentageInput::Length(Length { bits }) },
        ),
        GridTrackMax::FitContentPercent { bits } => GridTrackMaxInput::FitContent(
            FitContent { limit: LengthPercentageInput::Percent(Percent { bits }) },
        ),
    }
}

/// Convert a maximum track sizing function back to the vocabulary.
pub fn track_max_to_value(m: &GridTrackMax) -> (r: GridTrackMaxInput)
    ensures
        r == spec_track_max_to_value(*m),
{
    match m {
        GridTrackMax::Length { bits } => GridTrackMaxInput::Length(Length { bits: *bits }),
        GridTrackMax::Percent { bits } => GridTrackMaxInput::Percent(Percent { bits: *bits }),
        GridTrackMax::Auto => GridTrackMaxInput::Auto(Auto {  }),
        GridTrackMax::MinContent => GridTrackMaxInput::MinContent(MinContent {  }),
        GridTrackMax::MaxContent => GridTrackMaxInput::MaxContent(MaxContent {  }),
        GridTrackMax::Fraction { bits } => GridTrackMaxInput::Fraction(Fraction { bits: *bits }),
        GridTrackMax::FitContentPx { bits } => GridTrackMaxInput::FitContent(
            FitContent { limit: LengthPercentageInput::Length(Length { bits: *bits }) },
        ),
        GridTrackMax::FitContentPercent { bits } => GridTrackMaxInput::FitContent(
            FitContent { limit: LengthPercentageInput::Percent(Percent { bits: *bits }) },
        ),
    }
}

/// The vocabulary value of a grid placement.
pub open spec fn spec_placement_to_value(p: GridPlacement) -> GridPlacementInput {
    match p {
        GridPlacement::Auto => GridPlacementInput::Auto(Auto {  }),
        GridPlacement::Line { index } => GridPlacementInput::GridLine(GridLine { index }),
        GridPlacement::Span { count } => GridPlacementInput::GridSpan(GridSpan { count }),
    }
}

/// Convert a grid placement back to the vocabulary.
pub fn placement_to_value(p: &GridPlacement) -> (r: GridPlacementInput)
    ensures
        r == spec_placement_to_value(*p),
{
    match p {
        GridPlacement::Auto => GridPlacementInput::Auto(Auto {  }),
        GridPlacement::Line { index } => GridPlacementInput::GridLine(
            GridLine { index: *index },
        ),
        GridPlacement::Span { count } => GridPlacementInput::GridSpan(
            GridSpan { count: *count },
        ),
    }
}

// ─── Grid track shorthand normalization ────────────────────────────────────

/// The track pairs that have a shorter vocabulary form: reading one back
/// renders as that form rather than as a `minmax()`.
pub open spec fn spec_shorthand_pair(t: GridTrack) -> bool {
    ||| (t.min matches GridTrackMin::Length { bits: a } && t.max matches GridTrackMax::Length {
        bits: b,
    } && a == b)
    ||| (t.min matches GridTrackMin::Percent { bits: a } && t.max matches GridTrackMax::Percent {
        bits: b,
    } && a == b)
    ||| (t.min is Auto && t.max is Auto)
    ||| (t.min is MinContent && t.max is MinContent)
    ||| (t.min is MaxContent && t.max is MaxContent)
    ||| (t.min is Auto && t.max is Fraction)
    ||| (t.min is Auto && t.max is FitContentPx)
    ||| (t.min is Auto && t.max is FitContentPercent)
}

/// The vocabulary value of a track pair: the canonical shorthands render as
/// their single-variant form, everything else as a `minmax()`.
pub open spec fn spec_track_to_value(t: GridTrack) -> GridTrackInput {
    match (t.min, t.max) {
        (GridTrackMin::Length { bits: a }, GridTrackMax::Length { bits: b }) => if a == b {
            GridTrackInput::Length(Length { bits: a })
        } else {
            spec_track_to_minmax(t)
        },
        (GridTrackMin::Percent { bits: a }, GridTrackMax::Percent { bits: b }) => if a == b {
            GridTrackInput::Percent(Percent { bits: a })
        } else {
            spec_track_to_minmax(t)
        },
        (GridTrackMin::Auto, GridTrackMax::Auto) => GridTrackInput::Auto(Auto {  }),
        (GridTrackMin::MinContent, GridTrackMax::MinContent) => GridTrackInput::MinContent(
            MinContent {  },
        ),
        (GridTrackMin::MaxContent, GridTrackMax::MaxContent) => GridTrackInput::MaxContent(
            MaxContent {  },
        ),
        (GridTrackMin::Auto, GridTrackMax::Fraction { bits }) => GridTrackInput::Fraction(
            Fraction { bits },
        ),
        (GridTrackMin::Auto, GridTrackMax::FitContentPx { bits }) => GridTrackInput::FitContent(
            FitContent { limit: LengthPercentageInput::Length(Length { bits }) },
        ),
        (GridTrackMin::Auto, GridTrackMax::FitContentPercent { bits }) => {
            GridTrackInput::FitContent(
                FitContent { limit: LengthPercentageInput::Percent(Percent { bits }) },
            )
        },
        _ => spec_track_to_minmax(t),
    }
}

/// The generic `minmax()` rendering of a track pair.
pub open spec fn spec_track_to_minmax(t: GridTrack) -> GridTrackInput {
    GridTrackInput::Minmax(
        Minmax {
            min: spec_track_min_to_value_as_min(t.min),
            max: spec_track_max_to_value_as_max(t.max),
        },
    )
}

/// The min side of a `minmax()` rendering.
pub open spec fn spec_track_min_to_value_as_min(m: GridTrackMin) -> GridTrackMinInput {
    spec_track_min_to_value(m)
}

/// The max side of a `minmax()` rendering.
pub open spec fn spec_track_max_to_value_as_max(m: GridTrackMax) -> GridTrackMaxInput {
    spec_track_max_to_value(m)
}

/// Convert a track pair back to the vocabulary, recognising the canonical
/// shorthands.
pub fn track_to_value(t: &GridTrack) -> (r: GridTrackInput)
    ensures
        r == spec_track_to_value(*t),
{
    match (t.min, t.max) {
        (GridTrackMin::Length { bits: a }, GridTrackMax::Length { bits: b }) if a == b => {
            GridTrackInput::Length(Length { bits: a })
        },
        (GridTrackMin::Percent { bits: a }, GridTrackMax::Percent { bits: b }) if a == b => {
            GridTrackInput::Percent(Percent { bits: a })
        },
        (GridTrackMin::Auto, GridTrackMax::Auto) => GridTrackInput::Auto(Auto {  }),
        (GridTrackMin::MinContent, GridTrackMax::MinContent) => GridTrackInput::MinContent(
            MinContent {  },
        ),
        (GridTrackMin::MaxContent, GridTrackMax::MaxContent) => GridTrackInput::MaxContent(
            MaxContent {  },
        ),
        (GridTrackMin::Auto, GridTrackMax::Fraction { bits }) => GridTrackInput::Fraction(
            Fraction { bits },
        ),
        (GridTrackMin::Auto, GridTrackMax::FitContentPx { bits }) => GridTrackInput::FitContent(
            FitContent { limit: LengthPercentageInput::Length(Length { bits }) },
        ),
        (GridTrackMin::Auto, GridTrackMax::FitContentPercent { bits }) => {
            GridTrackInput::FitContent(
                FitContent { limit: LengthPercentageInput::Percent(Percent { bits }) },
            )
        },
        _ => GridTrackInput::Minmax(
            Minmax { min: track_min_to_value(&t.min), max: track_max_to_value(&t.max) },
        ),
    }
}

// ─── Round-trip laws ───────────────────────────────────────────────────────

/// Converting a dimension to the vocabulary and back is the identity.
pub proof fn lemma_dimension_value_round_trip(d: Dimension)
    ensures
        spec_dimension_to_value(d).spec_to_dimension() == d,
{
}

/// Converting a length-percentage to the vocabulary and back is the
/// identity.
pub proof fn lemma_length_percentage_value_round_trip(lp: LengthPercentage)
    ensures
        spec_length_percentage_to_value(lp).spec_to_length_percentage() == lp,
{
}

/// Converting a length-percentage-auto to the vocabulary and back is the
/// identity.
pub proof fn lemma_lpa_value_round_trip(v: LengthPercentageAuto)
    ensures
        spec_lpa_to_value(v).spec_to_lpa() == v,
{
}

/// Converting an available space to the vocabulary and back is the identity.
pub proof fn lemma_available_space_value_round_trip(a: AvailableSpace)
    ensures
        spec_available_space_to_value(a).spec_to_available_space() == a,
{
}

/// Converting a minimum track sizing function to the vocabulary and back is
/// the identity.
pub proof fn lemma_track_min_value_round_trip(m: GridTrackMin)
    ensures
        spec_track_min_to_value(m).spec_to_track_min() == m,
{
}

/// Converting a maximum track sizing function to the vocabulary and back is
/// the identity.
pub proof fn lemma_track_max_value_round_trip(m: GridTrackMax)
    ensures
        spec_track_max_to_value(m).spec_to_track_max() == m,
{
}

/// Converting a grid placement to the vocabulary and back is the identity.
pub proof fn lemma_placement_value_round_trip(p: GridPlacement)
    ensures
        spec_placement_to_value(p).spec_to_placement() == p,
{
}

/// A vocabulary track value is canonical when it is not a `minmax()` whose
/// pair also has a shorter form.
pub open spec fn spec_canonical_track_value(v: GridTrackInput) -> bool {
    match v {
        GridTrackInput::Minmax(m) => !spec_shorthand_pair(m.spec_to_track()),
        _ => true,
    }
}

/// Reading back what a canonical vocabulary track value put into the engine
/// yields that value again, shorthand forms included.
pub proof fn lemma_track_value_round_trip(v: GridTrackInput)
    requires
        spec_canonical_track_value(v),
    ensures
        spec_track_to_value(v.spec_to_track()) == v,
{
}

/// Reading a track pair back always yields a canonical vocabulary value, and
/// one that denotes the same pair: normalization loses nothing that the
/// engine keeps.
pub proof fn lemma_track_normalization_exact(t: GridTrack)
    ensures
        spec_canonical_track_value(spec_track_to_value(t)),
        spec_track_to_value(t).spec_to_track() == t,
{
}

} // verus!
