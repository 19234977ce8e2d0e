//! The partial style value: fifty layout properties, a field mask that
//! remembers which of them were explicitly set, and the cascade merge.
//!
//! A [`Style`] pairs an underlying property record ([`StyleRec`]) with a
//! bitmask of set fields.  A property whose flag is clear reads as the
//! engine's default; one whose flag is set may legally hold the default
//! value, and the mask is what tells those two states apart.  The merge
//! operator [`Style::merge`] lays the explicitly-set properties of an
//! overlay over a base; it is associative but not commutative, and the mask
//! of the result is the union of the operands' masks.

use vstd::prelude::*;
use crate::dimensions::{Dimension, LengthPercentage, LengthPercentageAuto};
use crate::enums::{
    AlignContent,
    AlignItems,
    BoxSizing,
    Display,
    FlexDirection,
    FlexWrap,
    GridAutoFlow,
    Overflow,
    Position,
    TextAlign,
};
use crate::grid::{GridLine, GridPlacement, GridTrack};
use crate::values::{DimensionInput, LengthPercentageAutoInput, LengthPercentageInput};

verus! {

/// One of the fifty settable style properties.
#[derive(Clone, Copy, Debug, PartialEq, Eq, Hash, Structural)]
pub enum Prop {
    Display,
    BoxSizing,
    OverflowX,
    OverflowY,
    ScrollbarWidth,
    Position,
    InsetLeft,
    InsetRight,
    InsetTop,
    InsetBottom,
    SizeWidth,
    SizeHeight,
    MinSizeWidth,
    MinSizeHeight,
    MaxSizeWidth,
    MaxSizeHeight,
    AspectRatio,
    MarginLeft,
    MarginRight,
    MarginTop,
    MarginBottom,
    PaddingLeft,
    PaddingRight,
    PaddingTop,
    PaddingBottom,
    BorderLeft,
    BorderRight,
    BorderTop,
    BorderBottom,
    AlignItems,
    AlignSelf,
    JustifyItems,
    JustifySelf,
    AlignContent,
    JustifyContent,
    GapWidth,
    GapHeight,
    TextAlign,
    FlexDirection,
    FlexWrap,
    FlexBasis,
    FlexGrow,
    FlexShrink,
    GridTemplateRows,
    GridTemplateColumns,
    GridAutoRows,
    GridAutoColumns,
    GridAutoFlow,
    GridRow,
    GridColumn,
}

/// The bit position assigned to a property in the field mask.  The
/// assignment is internal: no ordering between flags is observable, but it
/// is stable so that merge behaviour can be tested by building masks
/// directly.
pub open spec fn prop_index(p: Prop) -> u64 {
    match p {
        Prop::Display => 0,
        Prop::BoxSizing => 1,
        Prop::OverflowX => 2,
        Prop::OverflowY => 3,
        Prop::ScrollbarWidth => 4,
        Prop::Position => 5,
        Prop::InsetLeft => 6,
        Prop::InsetRight => 7,
        Prop::InsetTop => 8,
        Prop::InsetBottom => 9,
        Prop::SizeWidth => 10,
        Prop::SizeHeight => 11,
        Prop::MinSizeWidth => 12,
        Prop::MinSizeHeight => 13,
        Prop::MaxSizeWidth => 14,
        Prop::MaxSizeHeight => 15,
        Prop::AspectRatio => 16,
        Prop::MarginLeft => 17,
        Prop::MarginRight => 18,
        Prop::MarginTop => 19,
        Prop::MarginBottom => 20,
        Prop::PaddingLeft => 21,
        Prop::PaddingRight => 22,
        Prop::PaddingTop => 23,
        Prop::PaddingBottom => 24,
        Prop::BorderLeft => 25,
        Prop::BorderRight => 26,
        Prop::BorderTop => 27,
        Prop::BorderBottom => 28,
        Prop::AlignItems => 29,
        Prop::AlignSelf => 30,
        Prop::JustifyItems => 31,
        Prop::JustifySelf => 32,
        Prop::AlignContent => 33,
        Prop::JustifyContent => 34,
        Prop::GapWidth => 35,
        Prop::GapHeight => 36,
        Prop::TextAlign => 37,
        Prop::FlexDirection => 38,
        Prop::FlexWrap => 39,
        Prop::FlexBasis => 40,
        Prop::FlexGrow => 41,
        Prop::FlexShrink => 42,
        Prop::GridTemplateRows => 43,
        Prop::GridTemplateColumns => 44,
        Prop::GridAutoRows => 45,
        Prop::GridAutoColumns => 46,
        Prop::GridAutoFlow => 47,
        Prop::GridRow => 48,
        Prop::GridColumn => 49,
    }
}

/// The single-bit mask of a property.
pub open spec fn prop_mask(p: Prop) -> u64 {
    1u64 << prop_index(p)
}

/// Whether a property's flag is set in a field mask.
pub open spec fn mask_has(mask: u64, p: Prop) -> bool {
    mask & prop_mask(p) != 0
}

/// Runtime form of [`prop_mask`].
pub fn mask_of(p: Prop) -> (r: u64)
    ensures
        r == prop_mask(p),
{
    match p {
        Prop::Display => 1u64 << 0u64,
        Prop::BoxSizing => 1u64 << 1u64,
        Prop::OverflowX => 1u64 << 2u64,
        Prop::OverflowY => 1u64 << 3u64,
        Prop::ScrollbarWidth => 1u64 << 4u64,
        Prop::Position => 1u64 << 5u64,
        Prop::InsetLeft => 1u64 << 6u64,
        Prop::InsetRight => 1u64 << 7u64,
        Prop::InsetTop => 1u64 << 8u64,
        Prop::InsetBottom => 1u64 << 9u64,
        Prop::SizeWidth => 1u64 << 10u64,
        Prop::SizeHeight => 1u64 << 11u64,
        Prop::MinSizeWidth => 1u64 << 12u64,
        Prop::MinSizeHeight => 1u64 << 13u64,
        Prop::MaxSizeWidth => 1u64 << 14u64,
        Prop::MaxSizeHeight => 1u64 << 15u64,
        Prop::AspectRatio => 1u64 << 16u64,
        Prop::MarginLeft => 1u64 << 17u64,
        Prop::MarginRight => 1u64 << 18u64,
        Prop::MarginTop => 1u64 << 19u64,
        Prop::MarginBottom => 1u64 << 20u64,
        Prop::PaddingLeft => 1u64 << 21u64,
        Prop::PaddingRight => 1u64 << 22u64,
        Prop::PaddingTop => 1u64 << 23u64,
        Prop::PaddingBottom => 1u64 << 24u64,
        Prop::BorderLeft => 1u64 << 25u64,
        Prop::BorderRight => 1u64 << 26u64,
        Prop::BorderTop => 1u64 << 27u64,
        Prop::BorderBottom => 1u64 << 28u64,
        Prop::AlignItems => 1u64 << 29u64,
        Prop::AlignSelf => 1u64 << 30u64,
        Prop::JustifyItems => 1u64 << 31u64,
        Prop::JustifySelf => 1u64 << 32u64,
        Prop::AlignContent => 1u64 << 33u64,
        Prop::JustifyContent => 1u64 << 34u64,
        Prop::GapWidth => 1u64 << 35u64,
        Prop::GapHeight => 1u64 << 36u64,
        Prop::TextAlign => 1u64 << 37u64,
        Prop::FlexDirection => 1u64 << 38u64,
        Prop::FlexWrap => 1u64 << 39u64,
        Prop::FlexBasis => 1u64 << 40u64,
        Prop::FlexGrow => 1u64 << 41u64,
        Prop::FlexShrink => 1u64 << 42u64,
        Prop::GridTemplateRows => 1u64 << 43u64,
        Prop::GridTemplateColumns => 1u64 << 44u64,
        Prop::GridAutoRows => 1u64 << 45u64,
        Prop::GridAutoColumns => 1u64 << 46u64,
        Prop::GridAutoFlow => 1u64 << 47u64,
        Prop::GridRow => 1u64 << 48u64,
        Prop::GridColumn => 1u64 << 49u64,
    }
}

/// Every property's bit position is below 64.
pub broadcast proof fn lemma_prop_index_bound(p: Prop)
    ensures
        #[trigger] prop_index(p) < 64,
{
}

/// The property assigned to a bit position: the inverse of [`prop_index`].
pub open spec fn index_prop(i: u64) -> Prop {
    match i {
        0u64 => Prop::Display,
        1u64 => Prop::BoxSizing,
        2u64 => Prop::OverflowX,
        3u64 => Prop::OverflowY,
        4u64 => Prop::ScrollbarWidth,
        5u64 => Prop::Position,
        6u64 => Prop::InsetLeft,
        7u64 => Prop::InsetRight,
        8u64 => Prop::InsetTop,
        9u64 => Prop::InsetBottom,
        10u64 => Prop::SizeWidth,
        11u64 => Prop::SizeHeight,
        12u64 => Prop::MinSizeWidth,
        13u64 => Prop::MinSizeHeight,
        14u64 => Prop::MaxSizeWidth,
        15u64 => Prop::MaxSizeHeight,
        16u64 => Prop::AspectRatio,
        17u64 => Prop::MarginLeft,
        18u64 => Prop::MarginRight,
        19u64 => Prop::MarginTop,
        20u64 => Prop::MarginBottom,
        21u64 => Prop::PaddingLeft,
        22u64 => Prop::PaddingRight,
        23u64 => Prop::PaddingTop,
        24u64 => Prop::PaddingBottom,
        25u64 => Prop::BorderLeft,
        26u64 => Prop::BorderRight,
        27u64 => Prop::BorderTop,
        28u64 => Prop::BorderBottom,
        29u64 => Prop::AlignItems,
        30u64 => Prop::AlignSelf,
        31u64 => Prop::JustifyItems,
        32u64 => Prop::JustifySelf,
        33u64 => Prop::AlignContent,
        34u64 => Prop::JustifyContent,
        35u64 => Prop::GapWidth,
        36u64 => Prop::GapHeight,
        37u64 => Prop::TextAlign,
        38u64 => Prop::FlexDirection,
        39u64 => Prop::FlexWrap,
        40u64 => Prop::FlexBasis,
        41u64 => Prop::FlexGrow,
        42u64 => Prop::FlexShrink,
        43u64 => Prop::GridTemplateRows,
        44u64 => Prop::GridTemplateColumns,
        45u64 => Prop::GridAutoRows,
        46u64 => Prop::GridAutoColumns,
        47u64 => Prop::GridAutoFlow,
        48u64 => Prop::GridRow,
        49u64 => Prop::GridColumn,
        _ => Prop::Display,
    }
}

/// A property is recovered from its bit position.
pub proof fn lemma_index_prop_inverse(p: Prop)
    ensures
        index_prop(prop_index(p)) == p,
{
}

/// Distinct properties sit at distinct bit positions.
pub proof fn lemma_prop_index_ne(p: Prop, q: Prop)
    requires
        p != q,
    ensures
        prop_index(p) != prop_index(q),
{
    if prop_index(p) == prop_index(q) {
        lemma_index_prop_inverse(p);
        lemma_index_prop_inverse(q);
    }
}

/// Setting one bit leaves every other bit as it was.
pub broadcast proof fn lemma_bit_or_other(m: u64, i: u64, j: u64)
    by (bit_vector)
    requires
        i < 64,
        j < 64,
        i != j,
    ensures
        #[trigger] ((m | (1u64 << i)) & (1u64 << j)) == m & (1u64 << j),
{
}

/// Setting a bit sets it.
pub broadcast proof fn lemma_bit_or_own(m: u64, i: u64)
    by (bit_vector)
    requires
        i < 64,
    ensures
        #[trigger] ((m | (1u64 << i)) & (1u64 << i)) != 0,
{
}

/// No flag is set in the empty mask.
pub broadcast proof fn lemma_bit_zero(i: u64)
    by (bit_vector)
    ensures
        #[trigger] (0u64 & (1u64 << i)) == 0,
{
}

/// Conjunction distributes over the union of two masks.
pub broadcast proof fn lemma_bit_and_or_distrib(a: u64, b: u64, m: u64)
    by (bit_vector)
    ensures
        #[trigger] ((a | b) & m) == (a & m) | (b & m),
        ((a | b) & m != 0) == (a & m != 0 || b & m != 0),
{
}

/// The all-ones mask has every bit set.
pub broadcast proof fn lemma_bit_all_set(i: u64)
    by (bit_vector)
    requires
        i < 64,
    ensures
        #[trigger] (0xFFFF_FFFF_FFFF_FFFFu64 & (1u64 << i)) != 0,
{
}

/// The union of field masks is associative.
pub proof fn lemma_mask_or_assoc(a: u64, b: u64, c: u64)
    by (bit_vector)
    ensures
        (a | b) | c == a | (b | c),
{
}

/// Adding one property's bit to a mask sets that property's flag and no
/// other.
pub proof fn lemma_mask_set(m: u64, p: Prop)
    ensures
        mask_has(m | prop_mask(p), p),
        forall|q: Prop| q != p ==> #[trigger] mask_has(m | prop_mask(p), q) == mask_has(m, q),
{
    broadcast use lemma_prop_index_bound;

    lemma_bit_or_own(m, prop_index(p));
    assert forall|q: Prop| q != p implies #[trigger] mask_has(m | prop_mask(p), q) == mask_has(
        m,
        q,
    ) by {
        lemma_prop_index_ne(p, q);
        lemma_bit_or_other(m, prop_index(p), prop_index(q));
    }
}

/// An element-wise copy of a track list.
pub(crate) fn clone_tracks(v: &Vec<GridTrack>) -> (r: Vec<GridTrack>)
    ensures
        r@ == v@,
{
    let mut out: Vec<GridTrack> = Vec::new();
    let mut i: usize = 0;
    while i < v.len()
        invariant
            i <= v.len(),
            out@ =~= v@.subrange(0, i as int),
        decreases v.len() - i,
    {
        out.push(v[i]);
        i = i + 1;
        proof {
            assert(out@ =~= v@.subrange(0, i as int));
        }
    }
    proof {
        assert(out@ =~= v@);
    }
    out
}

/// The underlying property record: every property with its engine-level
/// value, defaults included.  The mask lives beside it in [`Style`].
#[derive(Clone, Debug, PartialEq)]
pub struct StyleRec {
    pub display: Display,
    pub box_sizing: BoxSizing,
    pub overflow_x: Overflow,
    pub overflow_y: Overflow,
    pub scrollbar_width: u32,
    pub position: Position,
    pub inset_left: LengthPercentageAuto,
    pub inset_right: LengthPercentageAuto,
    pub inset_top: LengthPercentageAuto,
    pub inset_bottom: LengthPercentageAuto,
    pub size_width: Dimension,
    pub size_height: Dimension,
    pub min_size_width: Dimension,
    pub min_size_height: Dimension,
    pub max_size_width: Dimension,
    pub max_size_height: Dimension,
    pub aspect_ratio: Option<u32>,
    pub margin_left: LengthPercentageAuto,
    pub margin_right: LengthPercentageAuto,
    pub margin_top: LengthPercentageAuto,
    pub margin_bottom: LengthPercentageAuto,
    pub padding_left: LengthPercentage,
    pub padding_right: LengthPercentage,
    pub padding_top: LengthPercentage,
    pub padding_bottom: LengthPercentage,
    pub border_left: LengthPercentage,
    pub border_right: LengthPercentage,
    pub border_top: LengthPercentage,
    pub border_bottom: LengthPercentage,
    pub align_items: Option<AlignItems>,
    pub align_self: Option<AlignItems>,
    pub justify_items: Option<AlignItems>,
    pub justify_self: Option<AlignItems>,
    pub align_content: Option<AlignContent>,
    pub justify_content: Option<AlignContent>,
    pub gap_width: LengthPercentage,
    pub gap_height: LengthPercentage,
    pub text_align: TextAlign,
    pub flex_direction: FlexDirection,
    pub flex_wrap: FlexWrap,
    pub flex_basis: Dimension,
    pub flex_grow: u32,
    pub flex_shrink: u32,
    pub grid_template_rows: Vec<GridTrack>,
    pub grid_template_columns: Vec<GridTrack>,
    pub grid_auto_rows: Vec<GridTrack>,
    pub grid_auto_columns: Vec<GridTrack>,
    pub grid_auto_flow: GridAutoFlow,
    pub grid_row: GridLine,
    pub grid_column: GridLine,
}

/// The value of one property, in a single type so that contracts can
/// quantify over properties.  Track lists appear as their mathematical
/// sequences.
#[verifier::ext_equal]
pub enum PropVal {
    Display(Display),
    BoxSizing(BoxSizing),
    Overflow(Overflow),
    Position(Position),
    Bits(u32),
    OptBits(Option<u32>),
    LengthPercentageAuto(LengthPercentageAuto),
    Dimension(Dimension),
    LengthPercentage(LengthPercentage),
    AlignItems(Option<AlignItems>),
    AlignContent(Option<AlignContent>),
    TextAlign(TextAlign),
    FlexDirection(FlexDirection),
    FlexWrap(FlexWrap),
    GridAutoFlow(GridAutoFlow),
    Tracks(Seq<GridTrack>),
    Placement(GridLine),
}

/// The value a record holds for a property.
pub open spec fn prop_value(rec: StyleRec, p: Prop) -> PropVal {
    match p {
        Prop::Display => PropVal::Display(rec.display),
        Prop::BoxSizing => PropVal::BoxSizing(rec.box_sizing),
        Prop::OverflowX => PropVal::Overflow(rec.overflow_x),
        Prop::OverflowY => PropVal::Overflow(rec.overflow_y),
        Prop::ScrollbarWidth => PropVal::Bits(rec.scrollbar_width),
        Prop::Position => PropVal::Position(rec.position),
        Prop::InsetLeft => PropVal::LengthPercentageAuto(rec.inset_left),
        Prop::InsetRight => PropVal::LengthPercentageAuto(rec.inset_right),
        Prop::InsetTop => PropVal::LengthPercentageAuto(rec.inset_top),
        Prop::InsetBottom => PropVal::LengthPercentageAuto(rec.inset_bottom),
        Prop::SizeWidth => PropVal::Dimension(rec.size_width),
        Prop::SizeHeight => PropVal::Dimension(rec.size_height),
        Prop::MinSizeWidth => PropVal::Dimension(rec.min_size_width),
        Prop::MinSizeHeight => PropVal::Dimension(rec.min_size_height),
        Prop::MaxSizeWidth => PropVal::Dimension(rec.max_size_width),
        Prop::MaxSizeHeight => PropVal::Dimension(rec.max_size_height),
        Prop::AspectRatio => PropVal::OptBits(rec.aspect_ratio),
        Prop::MarginLeft => PropVal::LengthPercentageAuto(rec.margin_left),
        Prop::MarginRight => PropVal::LengthPercentageAuto(rec.margin_right),
        Prop::MarginTop => PropVal::LengthPercentageAuto(rec.margin_top),
        Prop::MarginBottom => PropVal::LengthPercentageAuto(rec.margin_bottom),
        Prop::PaddingLeft => PropVal::LengthPercentage(rec.padding_left),
        Prop::PaddingRight => PropVal::LengthPercentage(rec.padding_right),
        Prop::PaddingTop => PropVal::LengthPercentage(rec.padding_top),
        Prop::PaddingBottom => PropVal::LengthPercentage(rec.padding_bottom),
        Prop::BorderLeft => PropVal::LengthPercentage(rec.border_left),
        Prop::BorderRight => PropVal::LengthPercentage(rec.border_right),
        Prop::BorderTop => PropVal::LengthPercentage(rec.border_top),
        Prop::BorderBottom => PropVal::LengthPercentage(rec.border_bottom),
        Prop::AlignItems => PropVal::AlignItems(rec.align_items),
        Prop::AlignSelf => PropVal::AlignItems(rec.align_self),
        Prop::JustifyItems => PropVal::AlignItems(rec.justify_items),
        Prop::JustifySelf => PropVal::AlignItems(rec.justify_self),
        Prop::AlignContent => PropVal::AlignContent(rec.align_content),
        Prop::JustifyContent => PropVal::AlignContent(rec.justify_content),
        Prop::GapWidth => PropVal::LengthPercentage(rec.gap_width),
        Prop::GapHeight => PropVal::LengthPercentage(rec.gap_height),
        Prop::TextAlign => PropVal::TextAlign(rec.text_align),
        Prop::FlexDirection => PropVal::FlexDirection(rec.flex_direction),
        Prop::FlexWrap => PropVal::FlexWrap(rec.flex_wrap),
        Prop::FlexBasis => PropVal::Dimension(rec.flex_basis),
        Prop::FlexGrow => PropVal::Bits(rec.flex_grow),
        Prop::FlexShrink => PropVal::Bits(rec.flex_shrink),
        Prop::GridTemplateRows => PropVal::Tracks(rec.grid_template_rows@),
        Prop::GridTemplateColumns => PropVal::Tracks(rec.grid_template_columns@),
        Prop::GridAutoRows => PropVal::Tracks(rec.grid_auto_rows@),
        Prop::GridAutoColumns => PropVal::Tracks(rec.grid_auto_columns@),
        Prop::GridAutoFlow => PropVal::GridAutoFlow(rec.grid_auto_flow),
        Prop::GridRow => PropVal::Placement(rec.grid_row),
        Prop::GridColumn => PropVal::Placement(rec.grid_column),
    }
}

/// The default value of a property: what the engine's default record holds.
pub open spec fn prop_default(p: Prop) -> PropVal {
    match p {
        Prop::Display => PropVal::Display(Display::Flex),
        Prop::BoxSizing => PropVal::BoxSizing(BoxSizing::BorderBox),
        Prop::OverflowX => PropVal::Overflow(Overflow::Visible),
        Prop::OverflowY => PropVal::Overflow(Overflow::Visible),
        Prop::ScrollbarWidth => PropVal::Bits(0),
        Prop::Position => PropVal::Position(Position::Relative),
        Prop::InsetLeft => PropVal::LengthPercentageAuto(LengthPercentageAuto::Auto),
        Prop::InsetRight => PropVal::LengthPercentageAuto(LengthPercentageAuto::Auto),
        Prop::InsetTop => PropVal::LengthPercentageAuto(LengthPercentageAuto::Auto),
        Prop::InsetBottom => PropVal::LengthPercentageAuto(LengthPercentageAuto::Auto),
        Prop::SizeWidth => PropVal::Dimension(Dimension::Auto),
        Prop::SizeHeight => PropVal::Dimension(Dimension::Auto),
        Prop::MinSizeWidth => PropVal::Dimension(Dimension::Auto),
        Prop::MinSizeHeight => PropVal::Dimension(Dimension::Auto),
        Prop::MaxSizeWidth => PropVal::Dimension(Dimension::Auto),
        Prop::MaxSizeHeight => PropVal::Dimension(Dimension::Auto),
        Prop::AspectRatio => PropVal::OptBits(None),
        Prop::MarginLeft => PropVal::LengthPercentageAuto(LengthPercentageAuto::Length { bits: 0 }),
        Prop::MarginRight => PropVal::LengthPercentageAuto(LengthPercentageAuto::Length { bits: 0 }),
        Prop::MarginTop => PropVal::LengthPercentageAuto(LengthPercentageAuto::Length { bits: 0 }),
        Prop::MarginBottom => PropVal::LengthPercentageAuto(LengthPercentageAuto::Length { bits: 0 }),
        Prop::PaddingLeft => PropVal::LengthPercentage(LengthPercentage::Length { bits: 0 }),
        Prop::PaddingRight => PropVal::LengthPercentage(LengthPercentage::Length { bits: 0 }),
        Prop::PaddingTop => PropVal::LengthPercentage(LengthPercentage::Length { bits: 0 }),
        Prop::PaddingBottom => PropVal::LengthPercentage(LengthPercentage::Length { bits: 0 }),
        Prop::BorderLeft => PropVal::LengthPercentage(LengthPercentage::Length { bits: 0 }),
        Prop::BorderRight => PropVal::LengthPercentage(LengthPercentage::Length { bits: 0 }),
        Prop::BorderTop => PropVal::LengthPercentage(LengthPercentage::Length { bits: 0 }),
        Prop::BorderBottom => PropVal::LengthPercentage(LengthPercentage::Length { bits: 0 }),
        Prop::AlignItems => PropVal::AlignItems(None),
        Prop::AlignSelf => PropVal::AlignItems(None),
        Prop::JustifyItems => PropVal::AlignItems(None),
        Prop::JustifySelf => PropVal::AlignItems(None),
        Prop::AlignContent => PropVal::AlignContent(None),
        Prop::JustifyContent => PropVal::AlignContent(None),
        Prop::GapWidth => PropVal::LengthPercentage(LengthPercentage::Length { bits: 0 }),
        Prop::GapHeight => PropVal::LengthPercentage(LengthPercentage::Length { bits: 0 }),
        Prop::TextAlign => PropVal::TextAlign(TextAlign::Auto),
        Prop::FlexDirection => PropVal::FlexDirection(FlexDirection::Row),
        Prop::FlexWrap => PropVal::FlexWrap(FlexWrap::NoWrap),
        Prop::FlexBasis => PropVal::Dimension(Dimension::Auto),
        Prop::FlexGrow => PropVal::Bits(0),
        Prop::FlexShrink => PropVal::Bits(0x3F80_0000),
        Prop::GridTemplateRows => PropVal::Tracks(Seq::empty()),
        Prop::GridTemplateColumns => PropVal::Tracks(Seq::empty()),
        Prop::GridAutoRows => PropVal::Tracks(Seq::empty()),
        Prop::GridAutoColumns => PropVal::Tracks(Seq::empty()),
        Prop::GridAutoFlow => PropVal::GridAutoFlow(GridAutoFlow::Row),
        Prop::GridRow => PropVal::Placement(GridLine { start: GridPlacement::Auto, end: GridPlacement::Auto }),
        Prop::GridColumn => PropVal::Placement(GridLine { start: GridPlacement::Auto, end: GridPlacement::Auto }),
    }
}

/// The property record as a total map from properties to values.
pub open spec fn rec_props(rec: StyleRec) -> Map<Prop, PropVal> {
    Map::new(|p: Prop| true, |p: Prop| prop_value(rec, p))
}

/// A record holding the default value of every property.
pub fn default_rec() -> (r: StyleRec)
    ensures
        forall|p: Prop| #[trigger] prop_value(r, p) == prop_default(p),
{
    StyleRec {
        display: Display::Flex,
        box_sizing: BoxSizing::BorderBox,
        overflow_x: Overflow::Visible,
        overflow_y: Overflow::Visible,
        scrollbar_width: 0,
        position: Position::Relative,
        inset_left: LengthPercentageAuto::Auto,
        inset_right: LengthPercentageAuto::Auto,
        inset_top: LengthPercentageAuto::Auto,
        inset_bottom: LengthPercentageAuto::Auto,
        size_width: Dimension::Auto,
        size_height: Dimension::Auto,
        min_size_width: Dimension::Auto,
        min_size_height: Dimension::Auto,
        max_size_width: Dimension::Auto,
        max_size_height: Dimension::Auto,
        aspect_ratio: None,
        margin_left: LengthPercentageAuto::Length { bits: 0 },
        margin_right: LengthPercentageAuto::Length { bits: 0 },
        margin_top: LengthPercentageAuto::Length { bits: 0 },
        margin_bottom: LengthPercentageAuto::Length { bits: 0 },
        padding_left: LengthPercentage::Length { bits: 0 },
        padding_right: LengthPercentage::Length { bits: 0 },
        padding_top: LengthPercentage::Length { bits: 0 },
        padding_bottom: LengthPercentage::Length { bits: 0 },
        border_left: LengthPercentage::Length { bits: 0 },
        border_right: LengthPercentage::Length { bits: 0 },
        border_top: LengthPercentage::Length { bits: 0 },
        border_bottom: LengthPercentage::Length { bits: 0 },
        align_items: None,
        align_self: None,
        justify_items: None,
        justify_self: None,
        align_content: None,
        justify_content: None,
        gap_width: LengthPercentage::Length { bits: 0 },
        gap_height: LengthPercentage::Length { bits: 0 },
        text_align: TextAlign::Auto,
        flex_direction: FlexDirection::Row,
        flex_wrap: FlexWrap::NoWrap,
        flex_basis: Dimension::Auto,
        flex_grow: 0,
        flex_shrink: 0x3F80_0000,
        grid_template_rows: Vec::new(),
        grid_template_columns: Vec::new(),
        grid_auto_rows: Vec::new(),
        grid_auto_columns: Vec::new(),
        grid_auto_flow: GridAutoFlow::Row,
        grid_row: GridLine { start: GridPlacement::Auto, end: GridPlacement::Auto },
        grid_column: GridLine { start: GridPlacement::Auto, end: GridPlacement::Auto },
    }
}

/// An element-wise copy of a property record, equal to the original at
/// every property.
pub fn clone_rec(rec: &StyleRec) -> (r: StyleRec)
    ensures
        rec_props(r) == rec_props(*rec),
{
    let grid_template_rows: Vec<GridTrack> = clone_tracks(&rec.grid_template_rows);
    let grid_template_columns: Vec<GridTrack> = clone_tracks(&rec.grid_template_columns);
    let grid_auto_rows: Vec<GridTrack> = clone_tracks(&rec.grid_auto_rows);
    let grid_auto_columns: Vec<GridTrack> = clone_tracks(&rec.grid_auto_columns);
    let r = StyleRec {
        display: rec.display,
        box_sizing: rec.box_sizing,
        overflow_x: rec.overflow_x,
        overflow_y: rec.overflow_y,
        scrollbar_width: rec.scrollbar_width,
        position: rec.position,
        inset_left: rec.inset_left,
        inset_right: rec.inset_right,
        inset_top: rec.inset_top,
        inset_bottom: rec.inset_bottom,
        size_width: rec.size_width,
        size_height: rec.size_height,
        min_size_width: rec.min_size_width,
        min_size_height: rec.min_size_height,
        max_size_width: rec.max_size_width,
        max_size_height: rec.max_size_height,
        aspect_ratio: rec.aspect_ratio,
        margin_left: rec.margin_left,
        margin_right: rec.margin_right,
        margin_top: rec.margin_top,
        margin_bottom: rec.margin_bottom,
        padding_left: rec.padding_left,
        padding_right: rec.padding_right,
        padding_top: rec.padding_top,
        padding_bottom: rec.padding_bottom,
        border_left: rec.border_left,
        border_right: rec.border_right,
        border_top: rec.border_top,
        border_bottom: rec.border_bottom,
        align_items: rec.align_items,
        align_self: rec.align_self,
        justify_items: rec.justify_items,
        justify_self: rec.justify_self,
        align_content: rec.align_content,
        justify_content: rec.justify_content,
        gap_width: rec.gap_width,
        gap_height: rec.gap_height,
        text_align: rec.text_align,
        flex_direction: rec.flex_direction,
        flex_wrap: rec.flex_wrap,
        flex_basis: rec.flex_basis,
        flex_grow: rec.flex_grow,
        flex_shrink: rec.flex_shrink,
        grid_template_rows,
        grid_template_columns,
        grid_auto_rows,
        grid_auto_columns,
        grid_auto_flow: rec.grid_auto_flow,
        grid_row: rec.grid_row,
        grid_column: rec.grid_column,
    };
    proof {
        assert forall|p: Prop| #[trigger] prop_value(r, p) == prop_value(*rec, p) by {
            match p {
                Prop::Display => {},
                Prop::BoxSizing => {},
                Prop::OverflowX => {},
                Prop::OverflowY => {},
                Prop::ScrollbarWidth => {},
                Prop::Position => {},
                Prop::InsetLeft => {},
                Prop::InsetRight => {},
                Prop::InsetTop => {},
                Prop::InsetBottom => {},
                Prop::SizeWidth => {},
                Prop::SizeHeight => {},
                Prop::MinSizeWidth => {},
                Prop::MinSizeHeight => {},
                Prop::MaxSizeWidth => {},
                Prop::MaxSizeHeight => {},
                Prop::AspectRatio => {},
                Prop::MarginLeft => {},
                Prop::MarginRight => {},
                Prop::MarginTop => {},
                Prop::MarginBottom => {},
                Prop::PaddingLeft => {},
                Prop::PaddingRight => {},
                Prop::PaddingTop => {},
                Prop::PaddingBottom => {},
                Prop::BorderLeft => {},
                Prop::BorderRight => {},
                Prop::BorderTop => {},
                Prop::BorderBottom => {},
                Prop::AlignItems => {},
                Prop::AlignSelf => {},
                Prop::JustifyItems => {},
                Prop::JustifySelf => {},
                Prop::AlignContent => {},
                Prop::JustifyContent => {},
                Prop::GapWidth => {},
                Prop::GapHeight => {},
                Prop::TextAlign => {},
                Prop::FlexDirection => {},
                Prop::FlexWrap => {},
                Prop::FlexBasis => {},
                Prop::FlexGrow => {},
                Prop::FlexShrink => {},
                Prop::GridTemplateRows => {},
                Prop::GridTemplateColumns => {},
                Prop::GridAutoRows => {},
                Prop::GridAutoColumns => {},
                Prop::GridAutoFlow => {},
                Prop::GridRow => {},
                Prop::GridColumn => {},
            }
        }
        assert(rec_props(r) =~= rec_props(*rec));
    }
    r
}

/// The mathematical model of a style: its field mask and the value of every
/// property.
#[verifier::ext_equal]
pub struct StyleModel {
    pub mask: u64,
    pub props: Map<Prop, PropVal>,
}

impl StyleModel {
    /// A style model is well formed when every property whose flag is clear
    /// holds the default value.  The constructors establish this and the
    /// setters and merge preserve it.
    pub open spec fn wf(self) -> bool {
        forall|p: Prop| !mask_has(self.mask, p) ==> self.props[p] == prop_default(p)
    }
}

/// The merge of two style models: a property explicitly set in the overlay
/// is taken from the overlay, anything else from the base, and the masks
/// union.
pub open spec fn spec_merge(base: StyleModel, overlay: StyleModel) -> StyleModel {
    StyleModel {
        mask: base.mask | overlay.mask,
        props: Map::new(
            |p: Prop| true,
            |p: Prop|
                if mask_has(overlay.mask, p) {
                    overlay.props[p]
                } else {
                    base.props[p]
                },
        ),
    }
}

/// The keyed bag of constructor options: one optional entry per property.
///
/// An entry left `None` leaves the property at its default with a clear
/// flag.  The alignment family and the aspect ratio distinguish a further
/// state: a present entry whose payload is `None` sets the flag while
/// storing the absent value, which is how an intentional "unset" takes part
/// in a merge.
pub struct StyleOptions {
    pub display: Option<Display>,
    pub box_sizing: Option<BoxSizing>,
    pub overflow_x: Option<Overflow>,
    pub overflow_y: Option<Overflow>,
    pub scrollbar_width: Option<u32>,
    pub position: Option<Position>,
    pub inset_left: Option<LengthPercentageAutoInput>,
    pub inset_right: Option<LengthPercentageAutoInput>,
    pub inset_top: Option<LengthPercentageAutoInput>,
    pub inset_bottom: Option<LengthPercentageAutoInput>,
    pub size_width: Option<DimensionInput>,
    pub size_height: Option<DimensionInput>,
    pub min_size_width: Option<DimensionInput>,
    pub min_size_height: Option<DimensionInput>,
    pub max_size_width: Option<DimensionInput>,
    pub max_size_height: Option<DimensionInput>,
    pub aspect_ratio: Option<Option<u32>>,
    pub margin_left: Option<LengthPercentageAutoInput>,
    pub margin_right: Option<LengthPercentageAutoInput>,
    pub margin_top: Option<LengthPercentageAutoInput>,
    pub margin_bottom: Option<LengthPercentageAutoInput>,
    pub padding_left: Option<LengthPercentageInput>,
    pub padding_right: Option<LengthPercentageInput>,
    pub padding_top: Option<LengthPercentageInput>,
    pub padding_bottom: Option<LengthPercentageInput>,
    pub border_left: Option<LengthPercentageInput>,
    pub border_right: Option<LengthPercentageInput>,
    pub border_top: Option<LengthPercentageInput>,
    pub border_bottom: Option<LengthPercentageInput>,
    pub align_items: Option<Option<AlignItems>>,
    pub align_self: Option<Option<AlignItems>>,
    pub justify_items: Option<Option<AlignItems>>,
    pub justify_self: Option<Option<AlignItems>>,
    pub align_content: Option<Option<AlignContent>>,
    pub justify_content: Option<Option<AlignContent>>,
    pub gap_width: Option<LengthPercentageInput>,
    pub gap_height: Option<LengthPercentageInput>,
    pub text_align: Option<TextAlign>,
    pub flex_direction: Option<FlexDirection>,
    pub flex_wrap: Option<FlexWrap>,
    pub flex_basis: Option<DimensionInput>,
    pub flex_grow: Option<u32>,
    pub flex_shrink: Option<u32>,
    pub grid_template_rows: Option<Vec<GridTrack>>,
    pub grid_template_columns: Option<Vec<GridTrack>>,
    pub grid_auto_rows: Option<Vec<GridTrack>>,
    pub grid_auto_columns: Option<Vec<GridTrack>>,
    pub grid_auto_flow: Option<GridAutoFlow>,
    pub grid_row: Option<GridLine>,
    pub grid_column: Option<GridLine>,
}

/// The property value an options bag carries, if the property is mentioned.
pub open spec fn spec_opts_prop(opts: StyleOptions, p: Prop) -> Option<PropVal> {
    match p {
        Prop::Display => match opts.display {
            Some(v) => Some(PropVal::Display(v)),
            None => None,
        },
        Prop::BoxSizing => match opts.box_sizing {
            Some(v) => Some(PropVal::BoxSizing(v)),
            None => None,
        },
        Prop::OverflowX => match opts.overflow_x {
            Some(v) => Some(PropVal::Overflow(v)),
            None => None,
        },
        Prop::OverflowY => match opts.overflow_y {
            Some(v) => Some(PropVal::Overflow(v)),
            None => None,
        },
        Prop::ScrollbarWidth => match opts.scrollbar_width {
            Some(v) => Some(PropVal::Bits(v)),
            None => None,
        },
        Prop::Position => match opts.position {
            Some(v) => Some(PropVal::Position(v)),
            None => None,
        },
        Prop::InsetLeft => match opts.inset_left {
            Some(v) => Some(PropVal::LengthPercentageAuto(v.spec_to_lpa())),
            None => None,
        },
        Prop::InsetRight => match opts.inset_right {
            Some(v) => Some(PropVal::LengthPercentageAuto(v.spec_to_lpa())),
            None => None,
        },
        Prop::InsetTop => match opts.inset_top {
            Some(v) => Some(PropVal::LengthPercentageAuto(v.spec_to_lpa())),
            None => None,
        },
        Prop::InsetBottom => match opts.inset_bottom {
            Some(v) => Some(PropVal::LengthPercentageAuto(v.spec_to_lpa())),
            None => None,
        },
        Prop::SizeWidth => match opts.size_width {
            Some(v) => Some(PropVal::Dimension(v.spec_to_dimension())),
            None => None,
        },
        Prop::SizeHeight => match opts.size_height {
            Some(v) => Some(PropVal::Dimension(v.spec_to_dimension())),
            None => None,
        },
        Prop::MinSizeWidth => match opts.min_size_width {
            Some(v) => Some(PropVal::Dimension(v.spec_to_dimension())),
            None => None,
        },
        Prop::MinSizeHeight => match opts.min_size_height {
            Some(v) => Some(PropVal::Dimension(v.spec_to_dimension())),
            None => None,
        },
        Prop::MaxSizeWidth => match opts.max_size_width {
            Some(v) => Some(PropVal::Dimension(v.spec_to_dimension())),
            None => None,
        },
        Prop::MaxSizeHeight => match opts.max_size_height {
            Some(v) => Some(PropVal::Dimension(v.spec_to_dimension())),
            None => None,
        },
        Prop::AspectRatio => match opts.aspect_ratio {
            Some(v) => Some(PropVal::OptBits(v)),
            None => None,
        },
        Prop::MarginLeft => match opts.margin_left {
            Some(v) => Some(PropVal::LengthPercentageAuto(v.spec_to_lpa())),
            None => None,
        },
        Prop::MarginRight => match opts.margin_right {
            Some(v) => Some(PropVal::LengthPercentageAuto(v.spec_to_lpa())),
            None => None,
        },
        Prop::MarginTop => match opts.margin_top {
            Some(v) => Some(PropVal::LengthPercentageAuto(v.spec_to_lpa())),
            None => None,
        },
        Prop::MarginBottom => match opts.margin_bottom {
            Some(v) => Some(PropVal::LengthPercentageAuto(v.spec_to_lpa())),
            None => None,
        },
        Prop::PaddingLeft => match opts.padding_left {
            Some(v) => Some(PropVal::LengthPercentage(v.spec_to_length_percentage())),
            None => None,
        },
        Prop::PaddingRight => match opts.padding_right {
            Some(v) => Some(PropVal::LengthPercentage(v.spec_to_length_percentage())),
            None => None,
        },
        Prop::PaddingTop => match opts.padding_top {
            Some(v) => Some(PropVal::LengthPercentage(v.spec_to_length_percentage())),
            None => None,
        },
        Prop::PaddingBottom => match opts.padding_bottom {
            Some(v) => Some(PropVal::LengthPercentage(v.spec_to_length_percentage())),
            None => None,
        },
        Prop::BorderLeft => match opts.border_left {
            Some(v) => Some(PropVal::LengthPercentage(v.spec_to_length_percentage())),
            None => None,
        },
        Prop::BorderRight => match opts.border_right {
            Some(v) => Some(PropVal::LengthPercentage(v.spec_to_length_percentage())),
            None => None,
        },
        Prop::BorderTop => match opts.border_top {
            Some(v) => Some(PropVal::LengthPercentage(v.spec_to_length_percentage())),
            None => None,
        },
        Prop::BorderBottom => match opts.border_bottom {
            Some(v) => Some(PropVal::LengthPercentage(v.spec_to_length_percentage())),
            None => None,
        },
        Prop::AlignItems => match opts.align_items {
            Some(v) => Some(PropVal::AlignItems(v)),
            None => None,
        },
        Prop::AlignSelf => match opts.align_self {
            Some(v) => Some(PropVal::AlignItems(v)),
            None => None,
        },
        Prop::JustifyItems => match opts.justify_items {
            Some(v) => Some(PropVal::AlignItems(v)),
            None => None,
        },
        Prop::JustifySelf => match opts.justify_self {
            Some(v) => Some(PropVal::AlignItems(v)),
            None => None,
        },
        Prop::AlignContent => match opts.align_content {
            Some(v) => Some(PropVal::AlignContent(v)),
            None => None,
        },
        Prop::JustifyContent => match opts.justify_content {
            Some(v) => Some(PropVal::AlignContent(v)),
            None => None,
        },
        Prop::GapWidth => match opts.gap_width {
            Some(v) => Some(PropVal::LengthPercentage(v.spec_to_length_percentage())),
            None => None,
        },
        Prop::GapHeight => match opts.gap_height {
            Some(v) => Some(PropVal::LengthPercentage(v.spec_to_length_percentage())),
            None => None,
        },
        Prop::TextAlign => match opts.text_align {
            Some(v) => Some(PropVal::TextAlign(v)),
            None => None,
        },
        Prop::FlexDirection => match opts.flex_direction {
            Some(v) => Some(PropVal::FlexDirection(v)),
            None => None,
        },
        Prop::FlexWrap => match opts.flex_wrap {
            Some(v) => Some(PropVal::FlexWrap(v)),
            None => None,
        },
        Prop::FlexBasis => match opts.flex_basis {
            Some(v) => Some(PropVal::Dimension(v.spec_to_dimension())),
            None => None,
        },
        Prop::FlexGrow => match opts.flex_grow {
            Some(v) => Some(PropVal::Bits(v)),
            None => None,
        },
        Prop::FlexShrink => match opts.flex_shrink {
            Some(v) => Some(PropVal::Bits(v)),
            None => None,
        },
        Prop::GridTemplateRows => match opts.grid_template_rows {
            Some(v) => Some(PropVal::Tracks(v@)),
            None => None,
        },
        Prop::GridTemplateColumns => match opts.grid_template_columns {
            Some(v) => Some(PropVal::Tracks(v@)),
            None => None,
        },
        Prop::GridAutoRows => match opts.grid_auto_rows {
            Some(v) => Some(PropVal::Tracks(v@)),
            None => None,
        },
        Prop::GridAutoColumns => match opts.grid_auto_columns {
            Some(v) => Some(PropVal::Tracks(v@)),
            None => None,
        },
        Prop::GridAutoFlow => match opts.grid_auto_flow {
            Some(v) => Some(PropVal::GridAutoFlow(v)),
            None => None,
        },
        Prop::GridRow => match opts.grid_row {
            Some(v) => Some(PropVal::Placement(v)),
            None => None,
        },
        Prop::GridColumn => match opts.grid_column {
            Some(v) => Some(PropVal::Placement(v)),
            None => None,
        },
    }
}

impl StyleOptions {
    /// The empty bag: no property mentioned.
    pub fn new() -> (r: StyleOptions)
        ensures
            forall|p: Prop| #[trigger] spec_opts_prop(r, p) is None,
    {
        StyleOptions {
            display: None,
            box_sizing: None,
            overflow_x: None,
            overflow_y: None,
            scrollbar_width: None,
            position: None,
            inset_left: None,
            inset_right: None,
            inset_top: None,
            inset_bottom: None,
            size_width: None,
            size_height: None,
            min_size_width: None,
            min_size_height: None,
            max_size_width: None,
            max_size_height: None,
            aspect_ratio: None,
            margin_left: None,
            margin_right: None,
            margin_top: None,
            margin_bottom: None,
            padding_left: None,
            padding_right: None,
            padding_top: None,
            padding_bottom: None,
            border_left: None,
            border_right: None,
            border_top: None,
            border_bottom: None,
            align_items: None,
            align_self: None,
            justify_items: None,
            justify_self: None,
            align_content: None,
            justify_content: None,
            gap_width: None,
            gap_height: None,
            text_align: None,
            flex_direction: None,
            flex_wrap: None,
            flex_basis: None,
            flex_grow: None,
            flex_shrink: None,
            grid_template_rows: None,
            grid_template_columns: None,
            grid_auto_rows: None,
            grid_auto_columns: None,
            grid_auto_flow: None,
            grid_row: None,
            grid_column: None,
        }
    }
}

/// The field-level statement of a merge: the result's mask is the union
/// of the operands' masks, and each property comes from the overlay when
/// the overlay's flag for it is set, else from the base.
pub open spec fn merge_fields(a: Style, b: Style, r: Style) -> bool {
    &&& r.set_fields == a.set_fields | b.set_fields
    &&& r.rec.display == (if b.set_fields & (1u64 << 0u64) != 0 { b.rec.display } else { a.rec.display })
    &&& r.rec.box_sizing == (if b.set_fields & (1u64 << 1u64) != 0 { b.rec.box_sizing } else { a.rec.box_sizing })
    &&& r.rec.overflow_x == (if b.set_fields & (1u64 << 2u64) != 0 { b.rec.overflow_x } else { a.rec.overflow_x })
    &&& r.rec.overflow_y == (if b.set_fields & (1u64 << 3u64) != 0 { b.rec.overflow_y } else { a.rec.overflow_y })
    &&& r.rec.scrollbar_width == (if b.set_fields & (1u64 << 4u64) != 0 { b.rec.scrollbar_width } else { a.rec.scrollbar_width })
    &&& r.rec.position == (if b.set_fields & (1u64 << 5u64) != 0 { b.rec.position } else { a.rec.position })
    &&& r.rec.inset_left == (if b.set_fields & (1u64 << 6u64) != 0 { b.rec.inset_left } else { a.rec.inset_left })
    &&& r.rec.inset_right == (if b.set_fields & (1u64 << 7u64) != 0 { b.rec.inset_right } else { a.rec.inset_right })
    &&& r.rec.inset_top == (if b.set_fields & (1u64 << 8u64) != 0 { b.rec.inset_top } else { a.rec.inset_top })
    &&& r.rec.inset_bottom == (if b.set_fields & (1u64 << 9u64) != 0 { b.rec.inset_bottom } else { a.rec.inset_bottom })
    &&& r.rec.size_width == (if b.set_fields & (1u64 << 10u64) != 0 { b.rec.size_width } else { a.rec.size_width })
    &&& r.rec.size_height == (if b.set_fields & (1u64 << 11u64) != 0 { b.rec.size_height } else { a.rec.size_height })
    &&& r.rec.min_size_width == (if b.set_fields & (1u64 << 12u64) != 0 { b.rec.min_size_width } else { a.rec.min_size_width })
    &&& r.rec.min_size_height == (if b.set_fields & (1u64 << 13u64) != 0 { b.rec.min_size_height } else { a.rec.min_size_height })
    &&& r.rec.max_size_width == (if b.set_fields & (1u64 << 14u64) != 0 { b.rec.max_size_width } else { a.rec.max_size_width })
    &&& r.rec.max_size_height == (if b.set_fields & (1u64 << 15u64) != 0 { b.rec.max_size_height } else { a.rec.max_size_height })
    &&& r.rec.aspect_ratio == (if b.set_fields & (1u64 << 16u64) != 0 { b.rec.aspect_ratio } else { a.rec.aspect_ratio })
    &&& r.rec.margin_left == (if b.set_fields & (1u64 << 17u64) != 0 { b.rec.margin_left } else { a.rec.margin_left })
    &&& r.rec.margin_right == (if b.set_fields & (1u64 << 18u64) != 0 { b.rec.margin_right } else { a.rec.margin_right })
    &&& r.rec.margin_top == (if b.set_fields & (1u64 << 19u64) != 0 { b.rec.margin_top } else { a.rec.margin_top })
    &&& r.rec.margin_bottom == (if b.set_fields & (1u64 << 20u64) != 0 { b.rec.margin_bottom } else { a.rec.margin_bottom })
    &&& r.rec.padding_left == (if b.set_fields & (1u64 << 21u64) != 0 { b.rec.padding_left } else { a.rec.padding_left })
    &&& r.rec.padding_right == (if b.set_fields & (1u64 << 22u64) != 0 { b.rec.padding_right } else { a.rec.padding_right })
    &&& r.rec.padding_top == (if b.set_fields & (1u64 << 23u64) != 0 { b.rec.padding_top } else { a.rec.padding_top })
    &&& r.rec.padding_bottom == (if b.set_fields & (1u64 << 24u64) != 0 { b.rec.padding_bottom } else { a.rec.padding_bottom })
    &&& r.rec.border_left == (if b.set_fields & (1u64 << 25u64) != 0 { b.rec.border_left } else { a.rec.border_left })
    &&& r.rec.border_right == (if b.set_fields & (1u64 << 26u64) != 0 { b.rec.border_right } else { a.rec.border_right })
    &&& r.rec.border_top == (if b.set_fields & (1u64 << 27u64) != 0 { b.rec.border_top } else { a.rec.border_top })
    &&& r.rec.border_bottom == (if b.set_fields & (1u64 << 28u64) != 0 { b.rec.border_bottom } else { a.rec.border_bottom })
    &&& r.rec.align_items == (if b.set_fields & (1u64 << 29u64) != 0 { b.rec.align_items } else { a.rec.align_items })
    &&& r.rec.align_self == (if b.set_fields & (1u64 << 30u64) != 0 { b.rec.align_self } else { a.rec.align_self })
    &&& r.rec.justify_items == (if b.set_fields & (1u64 << 31u64) != 0 { b.rec.justify_items } else { a.rec.justify_items })
    &&& r.rec.justify_self == (if b.set_fields & (1u64 << 32u64) != 0 { b.rec.justify_self } else { a.rec.justify_self })
    &&& r.rec.align_content == (if b.set_fields & (1u64 << 33u64) != 0 { b.rec.align_content } else { a.rec.align_content })
    &&& r.rec.justify_content == (if b.set_fields & (1u64 << 34u64) != 0 { b.rec.justify_content } else { a.rec.justify_content })
    &&& r.rec.gap_width == (if b.set_fields & (1u64 << 35u64) != 0 { b.rec.gap_width } else { a.rec.gap_width })
    &&& r.rec.gap_height == (if b.set_fields & (1u64 << 36u64) != 0 { b.rec.gap_height } else { a.rec.gap_height })
    &&& r.rec.text_align == (if b.set_fields & (1u64 << 37u64) != 0 { b.rec.text_align } else { a.rec.text_align })
    &&& r.rec.flex_direction == (if b.set_fields & (1u64 << 38u64) != 0 { b.rec.flex_direction } else { a.rec.flex_direction })
    &&& r.rec.flex_wrap == (if b.set_fields & (1u64 << 39u64) != 0 { b.rec.flex_wrap } else { a.rec.flex_wrap })
    &&& r.rec.flex_basis == (if b.set_fields & (1u64 << 40u64) != 0 { b.rec.flex_basis } else { a.rec.flex_basis })
    &&& r.rec.flex_grow == (if b.set_fields & (1u64 << 41u64) != 0 { b.rec.flex_grow } else { a.rec.flex_grow })
    &&& r.rec.flex_shrink == (if b.set_fields & (1u64 << 42u64) != 0 { b.rec.flex_shrink } else { a.rec.flex_shrink })
    &&& r.rec.grid_template_rows@ == (if b.set_fields & (1u64 << 43u64) != 0 { b.rec.grid_template_rows@ } else { a.rec.grid_template_rows@ })
    &&& r.rec.grid_template_columns@ == (if b.set_fields & (1u64 << 44u64) != 0 { b.rec.grid_template_columns@ } else { a.rec.grid_template_columns@ })
    &&& r.rec.grid_auto_rows@ == (if b.set_fields & (1u64 << 45u64) != 0 { b.rec.grid_auto_rows@ } else { a.rec.grid_auto_rows@ })
    &&& r.rec.grid_auto_columns@ == (if b.set_fields & (1u64 << 46u64) != 0 { b.rec.grid_auto_columns@ } else { a.rec.grid_auto_columns@ })
    &&& r.rec.grid_auto_flow == (if b.set_fields & (1u64 << 47u64) != 0 { b.rec.grid_auto_flow } else { a.rec.grid_auto_flow })
    &&& r.rec.grid_row == (if b.set_fields & (1u64 << 48u64) != 0 { b.rec.grid_row } else { a.rec.grid_row })
    &&& r.rec.grid_column == (if b.set_fields & (1u64 << 49u64) != 0 { b.rec.grid_column } else { a.rec.grid_column })
}

/// The field-level statement of construction from an options bag: each
/// mentioned property is stored with its flag set, each unmentioned one is
/// at its default with its flag clear.
pub open spec fn opts_match(opts: StyleOptions, s: Style) -> bool {
    &&& s.set_fields & (1u64 << 0u64) != 0 <==> opts.display is Some
    &&& s.rec.display == (match opts.display { Some(v) => v, None => Display::Flex })
    &&& s.set_fields & (1u64 << 1u64) != 0 <==> opts.box_sizing is Some
    &&& s.rec.box_sizing == (match opts.box_sizing { Some(v) => v, None => BoxSizing::BorderBox })
    &&& s.set_fields & (1u64 << 2u64) != 0 <==> opts.overflow_x is Some
    &&& s.rec.overflow_x == (match opts.overflow_x { Some(v) => v, None => Overflow::Visible })
    &&& s.set_fields & (1u64 << 3u64) != 0 <==> opts.overflow_y is Some
    &&& s.rec.overflow_y == (match opts.overflow_y { Some(v) => v, None => Overflow::Visible })
    &&& s.set_fields & (1u64 << 4u64) != 0 <==> opts.scrollbar_width is Some
    &&& s.rec.scrollbar_width == (match opts.scrollbar_width { Some(v) => v, None => 0 })
    &&& s.set_fields & (1u64 << 5u64) != 0 <==> opts.position is Some
    &&& s.rec.position == (match opts.position { Some(v) => v, None => Position::Relative })
    &&& s.set_fields & (1u64 << 6u64) != 0 <==> opts.inset_left is Some
    &&& s.rec.inset_left == (match opts.inset_left { Some(v) => v.spec_to_lpa(), None => LengthPercentageAuto::Auto })
    &&& s.set_fields & (1u64 << 7u64) != 0 <==> opts.inset_right is Some
    &&& s.rec.inset_right == (match opts.inset_right { Some(v) => v.spec_to_lpa(), None => LengthPercentageAuto::Auto })
    &&& s.set_fields & (1u64 << 8u64) != 0 <==> opts.inset_top is Some
    &&& s.rec.inset_top == (match opts.inset_top { Some(v) => v.spec_to_lpa(), None => LengthPercentageAuto::Auto })
    &&& s.set_fields & (1u64 << 9u64) != 0 <==> opts.inset_bottom is Some
    &&& s.rec.inset_bottom == (match opts.inset_bottom { Some(v) => v.spec_to_lpa(), None => LengthPercentageAuto::Auto })
    &&& s.set_fields & (1u64 << 10u64) != 0 <==> opts.size_width is Some
    &&& s.rec.size_width == (match opts.size_width { Some(v) => v.spec_to_dimension(), None => Dimension::Auto })
    &&& s.set_fields & (1u64 << 11u64) != 0 <==> opts.size_height is Some
    &&& s.rec.size_height == (match opts.size_height { Some(v) => v.spec_to_dimension(), None => Dimension::Auto })
    &&& s.set_fields & (1u64 << 12u64) != 0 <==> opts.min_size_width is Some
    &&& s.rec.min_size_width == (match opts.min_size_width { Some(v) => v.spec_to_dimension(), None => Dimension::Auto })
    &&& s.set_fields & (1u64 << 13u64) != 0 <==> opts.min_size_height is Some
    &&& s.rec.min_size_height == (match opts.min_size_height { Some(v) => v.spec_to_dimension(), None => Dimension::Auto })
    &&& s.set_fields & (1u64 << 14u64) != 0 <==> opts.max_size_width is Some
    &&& s.rec.max_size_width == (match opts.max_size_width { Some(v) => v.spec_to_dimension(), None => Dimension::Auto })
    &&& s.set_fields & (1u64 << 15u64) != 0 <==> opts.max_size_height is Some
    &&& s.rec.max_size_height == (match opts.max_size_height { Some(v) => v.spec_to_dimension(), None => Dimension::Auto })
    &&& s.set_fields & (1u64 << 16u64) != 0 <==> opts.aspect_ratio is Some
    &&& s.rec.aspect_ratio == (match opts.aspect_ratio { Some(v) => v, None => None })
    &&& s.set_fields & (1u64 << 17u64) != 0 <==> opts.margin_left is Some
    &&& s.rec.margin_left == (match opts.margin_left { Some(v) => v.spec_to_lpa(), None => LengthPercentageAuto::Length { bits: 0 } })
    &&& s.set_fields & (1u64 << 18u64) != 0 <==> opts.margin_right is Some
    &&& s.rec.margin_right == (match opts.margin_right { Some(v) => v.spec_to_lpa(), None => LengthPercentageAuto::Length { bits: 0 } })
    &&& s.set_fields & (1u64 << 19u64) != 0 <==> opts.margin_top is Some
    &&& s.rec.margin_top == (match opts.margin_top { Some(v) => v.spec_to_lpa(), None => LengthPercentageAuto::Length { bits: 0 } })
    &&& s.set_fields & (1u64 << 20u64) != 0 <==> opts.margin_bottom is Some
    &&& s.rec.margin_bottom == (match opts.margin_bottom { Some(v) => v.spec_to_lpa(), None => LengthPercentageAuto::Length { bits: 0 } })
    &&& s.set_fields & (1u64 << 21u64) != 0 <==> opts.padding_left is Some
    &&& s.rec.padding_left == (match opts.padding_left { Some(v) => v.spec_to_length_percentage(), None => LengthPercentage::Length { bits: 0 } })
    &&& s.set_fields & (1u64 << 22u64) != 0 <==> opts.padding_right is Some
    &&& s.rec.padding_right == (match opts.padding_right { Some(v) => v.spec_to_length_percentage(), None => LengthPercentage::Length { bits: 0 } })
    &&& s.set_fields & (1u64 << 23u64) != 0 <==> opts.padding_top is Some
    &&& s.rec.padding_top == (match opts.padding_top { Some(v) => v.spec_to_length_percentage(), None => LengthPercentage::Length { bits: 0 } })
    &&& s.set_fields & (1u64 << 24u64) != 0 <==> opts.padding_bottom is Some
    &&& s.rec.padding_bottom == (match opts.padding_bottom { Some(v) => v.spec_to_length_percentage(), None => LengthPercentage::Length { bits: 0 } })
    &&& s.set_fields & (1u64 << 25u64) != 0 <==> opts.border_left is Some
    &&& s.rec.border_left == (match opts.border_left { Some(v) => v.spec_to_length_percentage(), None => LengthPercentage::Length { bits: 0 } })
    &&& s.set_fields & (1u64 << 26u64) != 0 <==> opts.border_right is Some
    &&& s.rec.border_right == (match opts.border_right { Some(v) => v.spec_to_length_percentage(), None => LengthPercentage::Length { bits: 0 } })
    &&& s.set_fields & (1u64 << 27u64) != 0 <==> opts.border_top is Some
    &&& s.rec.border_top == (match opts.border_top { Some(v) => v.spec_to_length_percentage(), None => LengthPercentage::Length { bits: 0 } })
    &&& s.set_fields & (1u64 << 28u64) != 0 <==> opts.border_bottom is Some
    &&& s.rec.border_bottom == (match opts.border_bottom { Some(v) => v.spec_to_length_percentage(), None => LengthPercentage::Length { bits: 0 } })
    &&& s.set_fields & (1u64 << 29u64) != 0 <==> opts.align_items is Some
    &&& s.rec.align_items == (match opts.align_items { Some(v) => v, None => None })
    &&& s.set_fields & (1u64 << 30u64) != 0 <==> opts.align_self is Some
    &&& s.rec.align_self == (match opts.align_self { Some(v) => v, None => None })
    &&& s.set_fields & (1u64 << 31u64) != 0 <==> opts.justify_items is Some
    &&& s.rec.justify_items == (match opts.justify_items { Some(v) => v, None => None })
    &&& s.set_fields & (1u64 << 32u64) != 0 <==> opts.justify_self is Some
    &&& s.rec.justify_self == (match opts.justify_self { Some(v) => v, None => None })
    &&& s.set_fields & (1u64 << 33u64) != 0 <==> opts.align_content is Some
    &&& s.rec.align_content == (match opts.align_content { Some(v) => v, None => None })
    &&& s.set_fields & (1u64 << 34u64) != 0 <==> opts.justify_content is Some
    &&& s.rec.justify_content == (match opts.justify_content { Some(v) => v, None => None })
    &&& s.set_fields & (1u64 << 35u64) != 0 <==> opts.gap_width is Some
    &&& s.rec.gap_width == (match opts.gap_width { Some(v) => v.spec_to_length_percentage(), None => LengthPercentage::Length { bits: 0 } })
    &&& s.set_fields & (1u64 << 36u64) != 0 <==> opts.gap_height is Some
    &&& s.rec.gap_height == (match opts.gap_height { Some(v) => v.spec_to_length_percentage(), None => LengthPercentage::Length { bits: 0 } })
    &&& s.set_fields & (1u64 << 37u64) != 0 <==> opts.text_align is Some
    &&& s.rec.text_align == (match opts.text_align { Some(v) => v, None => TextAlign::Auto })
    &&& s.set_fields & (1u64 << 38u64) != 0 <==> opts.flex_direction is Some
    &&& s.rec.flex_direction == (match opts.flex_direction { Some(v) => v, None => FlexDirection::Row })
    &&& s.set_fields & (1u64 << 39u64) != 0 <==> opts.flex_wrap is Some
    &&& s.rec.flex_wrap == (match opts.flex_wrap { Some(v) => v, None => FlexWrap::NoWrap })
    &&& s.set_fields & (1u64 << 40u64) != 0 <==> opts.flex_basis is Some
    &&& s.rec.flex_basis == (match opts.flex_basis { Some(v) => v.spec_to_dimension(), None => Dimension::Auto })
    &&& s.set_fields & (1u64 << 41u64) != 0 <==> opts.flex_grow is Some
    &&& s.rec.flex_grow == (match opts.flex_grow { Some(v) => v, None => 0 })
    &&& s.set_fields & (1u64 << 42u64) != 0 <==> opts.flex_shrink is Some
    &&& s.rec.flex_shrink == (match opts.flex_shrink { Some(v) => v, None => 0x3F80_0000 })
    &&& s.set_fields & (1u64 << 43u64) != 0 <==> opts.grid_template_rows is Some
    &&& s.rec.grid_template_rows@ == (match opts.grid_template_rows { Some(v) => v@, None => Seq::<GridTrack>::empty() })
    &&& s.set_fields & (1u64 << 44u64) != 0 <==> opts.grid_template_columns is Some
    &&& s.rec.grid_template_columns@ == (match opts.grid_template_columns { Some(v) => v@, None => Seq::<GridTrack>::empty() })
    &&& s.set_fields & (1u64 << 45u64) != 0 <==> opts.grid_auto_rows is Some
    &&& s.rec.grid_auto_rows@ == (match opts.grid_auto_rows { Some(v) => v@, None => Seq::<GridTrack>::empty() })
    &&& s.set_fields & (1u64 << 46u64) != 0 <==> opts.grid_auto_columns is Some
    &&& s.rec.grid_auto_columns@ == (match opts.grid_auto_columns { Some(v) => v@, None => Seq::<GridTrack>::empty() })
    &&& s.set_fields & (1u64 << 47u64) != 0 <==> opts.grid_auto_flow is Some
    &&& s.rec.grid_auto_flow == (match opts.grid_auto_flow { Some(v) => v, None => GridAutoFlow::Row })
    &&& s.set_fields & (1u64 << 48u64) != 0 <==> opts.grid_row is Some
    &&& s.rec.grid_row == (match opts.grid_row { Some(v) => v, None => GridLine { start: GridPlacement::Auto, end: GridPlacement::Auto } })
    &&& s.set_fields & (1u64 << 49u64) != 0 <==> opts.grid_column is Some
    &&& s.rec.grid_column == (match opts.grid_column { Some(v) => v, None => GridLine { start: GridPlacement::Auto, end: GridPlacement::Auto } })
}

/// The mask with bit `i` set when `c` holds, stated so that callers can
/// follow each bit through a chain of these steps without bit-level
/// reasoning of their own.
fn flag_if(m: u64, i: u64, c: bool) -> (r: u64)
    requires
        i < 64,
    ensures
        (r & (1u64 << i) != 0) == (c || m & (1u64 << i) != 0),
        forall|j: u64| j < 64 && j != i ==> (#[trigger] (r & (1u64 << j))) == m & (1u64 << j),
        c ==> r == m | (1u64 << i),
        !c ==> r == m,
{
    proof {
        lemma_bit_or_own(m, i);
        assert forall|j: u64| j < 64 && j != i implies (#[trigger] ((m | (1u64 << i)) & (1u64
            << j))) == m & (1u64 << j) by {
            lemma_bit_or_other(m, i, j);
        }
    }
    if c {
        m | (1u64 << i)
    } else {
        m
    }
}

/// One stage of building the options mask: flags 0 through 9,
/// every other bit left as it was.
fn opts_flags_a(m: u64, opts: &StyleOptions) -> (r: u64)
    requires
        forall|j: u64| 0 <= j < 10 ==> (#[trigger] (m & (1u64 << j))) == 0,
    ensures
        (r & (1u64 << 0u64) != 0) == (opts.display is Some),
        (r & (1u64 << 1u64) != 0) == (opts.box_sizing is Some),
        (r & (1u64 << 2u64) != 0) == (opts.overflow_x is Some),
        (r & (1u64 << 3u64) != 0) == (opts.overflow_y is Some),
        (r & (1u64 << 4u64) != 0) == (opts.scrollbar_width is Some),
        (r & (1u64 << 5u64) != 0) == (opts.position is Some),
        (r & (1u64 << 6u64) != 0) == (opts.inset_left is Some),
        (r & (1u64 << 7u64) != 0) == (opts.inset_right is Some),
        (r & (1u64 << 8u64) != 0) == (opts.inset_top is Some),
        (r & (1u64 << 9u64) != 0) == (opts.inset_bottom is Some),
        forall|j: u64| j < 64 && !(0 <= j < 10) ==> (#[trigger] (r & (1u64 << j)))
            == m & (1u64 << j),
{
    let mut m: u64 = m;
    m = flag_if(m, 0, opts.display.is_some());
    m = flag_if(m, 1, opts.box_sizing.is_some());
    m = flag_if(m, 2, opts.overflow_x.is_some());
    m = flag_if(m, 3, opts.overflow_y.is_some());
    m = flag_if(m, 4, opts.scrollbar_width.is_some());
    m = flag_if(m, 5, opts.position.is_some());
    m = flag_if(m, 6, opts.inset_left.is_some());
    m = flag_if(m, 7, opts.inset_right.is_some());
    m = flag_if(m, 8, opts.inset_top.is_some());
    m = flag_if(m, 9, opts.inset_bottom.is_some());
    m
}

/// One stage of building the options mask: flags 10 through 19,
/// every other bit left as it was.
fn opts_flags_b(m: u64, opts: &StyleOptions) -> (r: u64)
    requires
        forall|j: u64| 10 <= j < 20 ==> (#[trigger] (m & (1u64 << j))) == 0,
    ensures
        (r & (1u64 << 10u64) != 0) == (opts.size_width is Some),
        (r & (1u64 << 11u64) != 0) == (opts.size_height is Some),
        (r & (1u64 << 12u64) != 0) == (opts.min_size_width is Some),
        (r & (1u64 << 13u64) != 0) == (opts.min_size_height is Some),
        (r & (1u64 << 14u64) != 0) == (opts.max_size_width is Some),
        (r & (1u64 << 15u64) != 0) == (opts.max_size_height is Some),
        (r & (1u64 << 16u64) != 0) == (opts.aspect_ratio is Some),
        (r & (1u64 << 17u64) != 0) == (opts.margin_left is Some),
        (r & (1u64 << 18u64) != 0) == (opts.margin_right is Some),
        (r & (1u64 << 19u64) != 0) == (opts.margin_top is Some),
        forall|j: u64| j < 64 && !(10 <= j < 20) ==> (#[trigger] (r & (1u64 << j)))
            == m & (1u64 << j),
{
    let mut m: u64 = m;
    m = flag_if(m, 10, opts.size_width.is_some());
    m = flag_if(m, 11, opts.size_height.is_some());
    m = flag_if(m, 12, opts.min_size_width.is_some());
    m = flag_if(m, 13, opts.min_size_height.is_some());
    m = flag_if(m, 14, opts.max_size_width.is_some());
    m = flag_if(m, 15, opts.max_size_height.is_some());
    m = flag_if(m, 16, opts.aspect_ratio.is_some());
    m = flag_if(m, 17, opts.margin_left.is_some());
    m = flag_if(m, 18, opts.margin_right.is_some());
    m = flag_if(m, 19, opts.margin_top.is_some());
    m
}

/// One stage of building the options mask: flags 20 through 29,
/// every other bit left as it was.
fn opts_flags_c(m: u64, opts: &StyleOptions) -> (r: u64)
    requires
        forall|j: u64| 20 <= j < 30 ==> (#[trigger] (m & (1u64 << j))) == 0,
    ensures
        (r & (1u64 << 20u64) != 0) == (opts.margin_bottom is Some),
        (r & (1u64 << 21u64) != 0) == (opts.padding_left is Some),
        (r & (1u64 << 22u64) != 0) == (opts.padding_right is Some),
        (r & (1u64 << 23u64) != 0) == (opts.padding_top is Some),
        (r & (1u64 << 24u64) != 0) == (opts.padding_bottom is Some),
        (r & (1u64 << 25u64) != 0) == (opts.border_left is Some),
        (r & (1u64 << 26u64) != 0) == (opts.border_right is Some),
        (r & (1u64 << 27u64) != 0) == (opts.border_top is Some),
        (r & (1u64 << 28u64) != 0) == (opts.border_bottom is Some),
        (r & (1u64 << 29u64) != 0) == (opts.align_items is Some),
        forall|j: u64| j < 64 && !(20 <= j < 30) ==> (#[trigger] (r & (1u64 << j)))
            == m & (1u64 << j),
{
    let mut m: u64 = m;
    m = flag_if(m, 20, opts.margin_bottom.is_some());
    m = flag_if(m, 21, opts.padding_left.is_some());
    m = flag_if(m, 22, opts.padding_right.is_some());
    m = flag_if(m, 23, opts.padding_top.is_some());
    m = flag_if(m, 24, opts.padding_bottom.is_some());
    m = flag_if(m, 25, opts.border_left.is_some());
    m = flag_if(m, 26, opts.border_right.is_some());
    m = flag_if(m, 27, opts.border_top.is_some());
    m = flag_if(m, 28, opts.border_bottom.is_some());
    m = flag_if(m, 29, opts.align_items.is_some());
    m
}

/// One stage of building the options mask: flags 30 through 39,
/// every other bit left as it was.
fn opts_flags_d(m: u64, opts: &StyleOptions) -> (r: u64)
    requires
        forall|j: u64| 30 <= j < 40 ==> (#[trigger] (m & (1u64 << j))) == 0,
    ensures
        (r & (1u64 << 30u64) != 0) == (opts.align_self is Some),
        (r & (1u64 << 31u64) != 0) == (opts.justify_items is Some),
        (r & (1u64 << 32u64) != 0) == (opts.justify_self is Some),
        (r & (1u64 << 33u64) != 0) == (opts.align_content is Some),
        (r & (1u64 << 34u64) != 0) == (opts.justify_content is Some),
        (r & (1u64 << 35u64) != 0) == (opts.gap_width is Some),
        (r & (1u64 << 36u64) != 0) == (opts.gap_height is Some),
        (r & (1u64 << 37u64) != 0) == (opts.text_align is Some),
        (r & (1u64 << 38u64) != 0) == (opts.flex_direction is Some),
        (r & (1u64 << 39u64) != 0) == (opts.flex_wrap is Some),
        forall|j: u64| j < 64 && !(30 <= j < 40) ==> (#[trigger] (r & (1u64 << j)))
            == m & (1u64 << j),
{
    let mut m: u64 = m;
    m = flag_if(m, 30, opts.align_self.is_some());
    m = flag_if(m, 31, opts.justify_items.is_some());
    m = flag_if(m, 32, opts.justify_self.is_some());
    m = flag_if(m, 33, opts.align_content.is_some());
    m = flag_if(m, 34, opts.justify_content.is_some());
    m = flag_if(m, 35, opts.gap_width.is_some());
    m = flag_if(m, 36, opts.gap_height.is_some());
    m = flag_if(m, 37, opts.text_align.is_some());
    m = flag_if(m, 38, opts.flex_direction.is_some());
    m = flag_if(m, 39, opts.flex_wrap.is_some());
    m
}

/// One stage of building the options mask: flags 40 through 49,
/// every other bit left as it was.
fn opts_flags_e(m: u64, opts: &StyleOptions) -> (r: u64)
    requires
        forall|j: u64| 40 <= j < 50 ==> (#[trigger] (m & (1u64 << j))) == 0,
    ensures
        (r & (1u64 << 40u64) != 0) == (opts.flex_basis is Some),
        (r & (1u64 << 41u64) != 0) == (opts.flex_grow is Some),
        (r & (1u64 << 42u64) != 0) == (opts.flex_shrink is Some),
        (r & (1u64 << 43u64) != 0) == (opts.grid_template_rows is Some),
        (r & (1u64 << 44u64) != 0) == (opts.grid_template_columns is Some),
        (r & (1u64 << 45u64) != 0) == (opts.grid_auto_rows is Some),
        (r & (1u64 << 46u64) != 0) == (opts.grid_auto_columns is Some),
        (r & (1u64 << 47u64) != 0) == (opts.grid_auto_flow is Some),
        (r & (1u64 << 48u64) != 0) == (opts.grid_row is Some),
        (r & (1u64 << 49u64) != 0) == (opts.grid_column is Some),
        forall|j: u64| j < 64 && !(40 <= j < 50) ==> (#[trigger] (r & (1u64 << j)))
            == m & (1u64 << j),
{
    let mut m: u64 = m;
    m = flag_if(m, 40, opts.flex_basis.is_some());
    m = flag_if(m, 41, opts.flex_grow.is_some());
    m = flag_if(m, 42, opts.flex_shrink.is_some());
    m = flag_if(m, 43, opts.grid_template_rows.is_some());
    m = flag_if(m, 44, opts.grid_template_columns.is_some());
    m = flag_if(m, 45, opts.grid_auto_rows.is_some());
    m = flag_if(m, 46, opts.grid_auto_columns.is_some());
    m = flag_if(m, 47, opts.grid_auto_flow.is_some());
    m = flag_if(m, 48, opts.grid_row.is_some());
    m = flag_if(m, 49, opts.grid_column.is_some());
    m
}

/// The field mask an options bag induces: one flag per mentioned entry.
fn opts_flags(opts: &StyleOptions) -> (r: u64)
    ensures
        (r & (1u64 << 0u64) != 0) == (opts.display is Some),
        (r & (1u64 << 1u64) != 0) == (opts.box_sizing is Some),
        (r & (1u64 << 2u64) != 0) == (opts.overflow_x is Some),
        (r & (1u64 << 3u64) != 0) == (opts.overflow_y is Some),
        (r & (1u64 << 4u64) != 0) == (opts.scrollbar_width is Some),
        (r & (1u64 << 5u64) != 0) == (opts.position is Some),
        (r & (1u64 << 6u64) != 0) == (opts.inset_left is Some),
        (r & (1u64 << 7u64) != 0) == (opts.inset_right is Some),
        (r & (1u64 << 8u64) != 0) == (opts.inset_top is Some),
        (r & (1u64 << 9u64) != 0) == (opts.inset_bottom is Some),
        (r & (1u64 << 10u64) != 0) == (opts.size_width is Some),
        (r & (1u64 << 11u64) != 0) == (opts.size_height is Some),
        (r & (1u64 << 12u64) != 0) == (opts.min_size_width is Some),
        (r & (1u64 << 13u64) != 0) == (opts.min_size_height is Some),
        (r & (1u64 << 14u64) != 0) == (opts.max_size_width is Some),
        (r & (1u64 << 15u64) != 0) == (opts.max_size_height is Some),
        (r & (1u64 << 16u64) != 0) == (opts.aspect_ratio is Some),
        (r & (1u64 << 17u64) != 0) == (opts.margin_left is Some),
        (r & (1u64 << 18u64) != 0) == (opts.margin_right is Some),
        (r & (1u64 << 19u64) != 0) == (opts.margin_top is Some),
        (r & (1u64 << 20u64) != 0) == (opts.margin_bottom is Some),
        (r & (1u64 << 21u64) != 0) == (opts.padding_left is Some),
        (r & (1u64 << 22u64) != 0) == (opts.padding_right is Some),
        (r & (1u64 << 23u64) != 0) == (opts.padding_top is Some),
        (r & (1u64 << 24u64) != 0) == (opts.padding_bottom is Some),
        (r & (1u64 << 25u64) != 0) == (opts.border_left is Some),
        (r & (1u64 << 26u64) != 0) == (opts.border_right is Some),
        (r & (1u64 << 27u64) != 0) == (opts.border_top is Some),
        (r & (1u64 << 28u64) != 0) == (opts.border_bottom is Some),
        (r & (1u64 << 29u64) != 0) == (opts.align_items is Some),
        (r & (1u64 << 30u64) != 0) == (opts.align_self is Some),
        (r & (1u64 << 31u64) != 0) == (opts.justify_items is Some),
        (r & (1u64 << 32u64) != 0) == (opts.justify_self is Some),
        (r & (1u64 << 33u64) != 0) == (opts.align_content is Some),
        (r & (1u64 << 34u64) != 0) == (opts.justify_content is Some),
        (r & (1u64 << 35u64) != 0) == (opts.gap_width is Some),
        (r & (1u64 << 36u64) != 0) == (opts.gap_height is Some),
        (r & (1u64 << 37u64) != 0) == (opts.text_align is Some),
        (r & (1u64 << 38u64) != 0) == (opts.flex_direction is Some),
        (r & (1u64 << 39u64) != 0) == (opts.flex_wrap is Some),
        (r & (1u64 << 40u64) != 0) == (opts.flex_basis is Some),
        (r & (1u64 << 41u64) != 0) == (opts.flex_grow is Some),
        (r & (1u64 << 42u64) != 0) == (opts.flex_shrink is Some),
        (r & (1u64 << 43u64) != 0) == (opts.grid_template_rows is Some),
        (r & (1u64 << 44u64) != 0) == (opts.grid_template_columns is Some),
        (r & (1u64 << 45u64) != 0) == (opts.grid_auto_rows is Some),
        (r & (1u64 << 46u64) != 0) == (opts.grid_auto_columns is Some),
        (r & (1u64 << 47u64) != 0) == (opts.grid_auto_flow is Some),
        (r & (1u64 << 48u64) != 0) == (opts.grid_row is Some),
        (r & (1u64 << 49u64) != 0) == (opts.grid_column is Some),
{
    let mut m: u64 = 0;
    proof {
        assert forall|j: u64| j < 64 implies (#[trigger] (m & (1u64 << j))) == 0 by {
            lemma_bit_zero(j);
        }
    }
    m = opts_flags_a(m, opts);
    m = opts_flags_b(m, opts);
    m = opts_flags_c(m, opts);
    m = opts_flags_d(m, opts);
    m = opts_flags_e(m, opts);
    m
}

/// A style: the underlying property record plus the mask of explicitly-set
/// fields.
#[derive(Clone, Debug, PartialEq)]
pub struct Style {
    pub rec: StyleRec,
    pub set_fields: u64,
}

impl View for Style {
    type V = StyleModel;

    open spec fn view(&self) -> StyleModel {
        StyleModel { mask: self.set_fields, props: rec_props(self.rec) }
    }
}

impl Style {
    /// Build a style from a bag of options.  Every mentioned property is
    /// stored and its flag set; every other property stays at its default
    /// with a clear flag.
    #[verifier::rlimit(30)]
    pub fn new(opts: StyleOptions) -> (r: Style)
        ensures
            opts_match(opts, r),
            forall|p: Prop| #[trigger] r@.props[p] == (match spec_opts_prop(opts, p) {
                Some(v) => v,
                None => prop_default(p),
            }),
            forall|p: Prop| #[trigger] mask_has(r@.mask, p) == (spec_opts_prop(opts, p) is Some),
            r@.wf(),
    {
        let m: u64 = opts_flags(&opts);
        let StyleOptions {
            display,
            box_sizing,
            overflow_x,
            overflow_y,
            scrollbar_width,
            position,
            inset_left,
            inset_right,
            inset_top,
            inset_bottom,
            size_width,
            size_height,
            min_size_width,
            min_size_height,
            max_size_width,
            max_size_height,
            aspect_ratio,
            margin_left,
            margin_right,
            margin_top,
            margin_bottom,
            padding_left,
            padding_right,
            padding_top,
            padding_bottom,
            border_left,
            border_right,
            border_top,
            border_bottom,
            align_items,
            align_self,
            justify_items,
            justify_self,
            align_content,
            justify_content,
            gap_width,
            gap_height,
            text_align,
            flex_direction,
            flex_wrap,
            flex_basis,
            flex_grow,
            flex_shrink,
            grid_template_rows,
            grid_template_columns,
            grid_auto_rows,
            grid_auto_columns,
            grid_auto_flow,
            grid_row,
            grid_column,
        } = opts;
        let rec = StyleRec {
            display: or_default(display, Display::Flex),
            box_sizing: or_default(box_sizing, BoxSizing::BorderBox),
            overflow_x: or_default(overflow_x, Overflow::Visible),
            overflow_y: or_default(overflow_y, Overflow::Visible),
            scrollbar_width: or_default(scrollbar_width, 0),
            position: or_default(position, Position::Relative),
            inset_left: lpa_or(inset_left, LengthPercentageAuto::Auto),
            inset_right: lpa_or(inset_right, LengthPercentageAuto::Auto),
            inset_top: lpa_or(inset_top, LengthPercentageAuto::Auto),
            inset_bottom: lpa_or(inset_bottom, LengthPercentageAuto::Auto),
            size_width: dim_or(size_width, Dimension::Auto),
            size_height: dim_or(size_height, Dimension::Auto),
            min_size_width: dim_or(min_size_width, Dimension::Auto),
            min_size_height: dim_or(min_size_height, Dimension::Auto),
            max_size_width: dim_or(max_size_width, Dimension::Auto),
            max_size_height: dim_or(max_size_height, Dimension::Auto),
            aspect_ratio: or_default(aspect_ratio, None),
            margin_left: lpa_or(margin_left, LengthPercentageAuto::Length { bits: 0 }),
            margin_right: lpa_or(margin_right, LengthPercentageAuto::Length { bits: 0 }),
            margin_top: lpa_or(margin_top, LengthPercentageAuto::Length { bits: 0 }),
            margin_bottom: lpa_or(margin_bottom, LengthPercentageAuto::Length { bits: 0 }),
            padding_left: lp_or(padding_left, LengthPercentage::Length { bits: 0 }),
            padding_right: lp_or(padding_right, LengthPercentage::Length { bits: 0 }),
            padding_top: lp_or(padding_top, LengthPercentage::Length { bits: 0 }),
            padding_bottom: lp_or(padding_bottom, LengthPercentage::Length { bits: 0 }),
            border_left: lp_or(border_left, LengthPercentage::Length { bits: 0 }),
            border_right: lp_or(border_right, LengthPercentage::Length { bits: 0 }),
            border_top: lp_or(border_top, LengthPercentage::Length { bits: 0 }),
            border_bottom: lp_or(border_bottom, LengthPercentage::Length { bits: 0 }),
            align_items: or_default(align_items, None),
            align_self: or_default(align_self, None),
            justify_items: or_default(justify_items, None),
            justify_self: or_default(justify_self, None),
            align_content: or_default(align_content, None),
            justify_content: or_default(justify_content, None),
            gap_width: lp_or(gap_width, LengthPercentage::Length { bits: 0 }),
            gap_height: lp_or(gap_height, LengthPercentage::Length { bits: 0 }),
            text_align: or_default(text_align, TextAlign::Auto),
            flex_direction: or_default(flex_direction, FlexDirection::Row),
            flex_wrap: or_default(flex_wrap, FlexWrap::NoWrap),
            flex_basis: dim_or(flex_basis, Dimension::Auto),
            flex_grow: or_default(flex_grow, 0),
            flex_shrink: or_default(flex_shrink, 0x3F80_0000),
            grid_template_rows: tracks_or_empty(grid_template_rows),
            grid_template_columns: tracks_or_empty(grid_template_columns),
            grid_auto_rows: tracks_or_empty(grid_auto_rows),
            grid_auto_columns: tracks_or_empty(grid_auto_columns),
            grid_auto_flow: or_default(grid_auto_flow, GridAutoFlow::Row),
            grid_row: or_default(grid_row, GridLine { start: GridPlacement::Auto, end: GridPlacement::Auto }),
            grid_column: or_default(grid_column, GridLine { start: GridPlacement::Auto, end: GridPlacement::Auto }),
        };
        let r = Style { rec, set_fields: m };
        proof {
            lemma_opts_match_model(opts, r);
        }
        r
    }

    /// The field mask.
    pub fn set_fields(&self) -> (r: u64)
        ensures
            r == self@.mask,
    {
        self.set_fields
    }

    /// Whether a property was explicitly set.
    pub fn is_set(&self, p: Prop) -> (r: bool)
        ensures
            r == mask_has(self@.mask, p),
    {
        self.set_fields & mask_of(p) != 0
    }

    /// Merge: lay the explicitly-set properties of `overlay` over `self`.
    /// Neither operand is touched; the result's mask is the union of the
    /// operands' masks, so a flag is set in the result exactly when it was
    /// set in either operand.
    pub fn merge(&self, overlay: &Style) -> (r: Style)
        ensures
            merge_fields(*self, *overlay, r),
            r@ == spec_merge(self@, overlay@),
            self@.wf() && overlay@.wf() ==> r@.wf(),
    {
        let flags: u64 = overlay.set_fields;
        let grid_template_rows: Vec<GridTrack> = clone_tracks(
            if flags & (1u64 << 43u64) != 0 { &overlay.rec.grid_template_rows } else { &self.rec.grid_template_rows },
        );
        let grid_template_columns: Vec<GridTrack> = clone_tracks(
            if flags & (1u64 << 44u64) != 0 { &overlay.rec.grid_template_columns } else { &self.rec.grid_template_columns },
        );
        let grid_auto_rows: Vec<GridTrack> = clone_tracks(
            if flags & (1u64 << 45u64) != 0 { &overlay.rec.grid_auto_rows } else { &self.rec.grid_auto_rows },
        );
        let grid_auto_columns: Vec<GridTrack> = clone_tracks(
            if flags & (1u64 << 46u64) != 0 { &overlay.rec.grid_auto_columns } else { &self.rec.grid_auto_columns },
        );
        let rec = StyleRec {
            display: if flags & (1u64 << 0u64) != 0 { overlay.rec.display } else { self.rec.display },
            box_sizing: if flags & (1u64 << 1u64) != 0 { overlay.rec.box_sizing } else { self.rec.box_sizing },
            overflow_x: if flags & (1u64 << 2u64) != 0 { overlay.rec.overflow_x } else { self.rec.overflow_x },
            overflow_y: if flags & (1u64 << 3u64) != 0 { overlay.rec.overflow_y } else { self.rec.overflow_y },
            scrollbar_width: if flags & (1u64 << 4u64) != 0 { overlay.rec.scrollbar_width } else { self.rec.scrollbar_width },
            position: if flags & (1u64 << 5u64) != 0 { overlay.rec.position } else { self.rec.position },
            inset_left: if flags & (1u64 << 6u64) != 0 { overlay.rec.inset_left } else { self.rec.inset_left },
            inset_right: if flags & (1u64 << 7u64) != 0 { overlay.rec.inset_right } else { self.rec.inset_right },
            inset_top: if flags & (1u64 << 8u64) != 0 { overlay.rec.inset_top } else { self.rec.inset_top },
            inset_bottom: if flags & (1u64 << 9u64) != 0 { overlay.rec.inset_bottom } else { self.rec.inset_bottom },
            size_width: if flags & (1u64 << 10u64) != 0 { overlay.rec.size_width } else { self.rec.size_width },
            size_height: if flags & (1u64 << 11u64) != 0 { overlay.rec.size_height } else { self.rec.size_height },
            min_size_width: if flags & (1u64 << 12u64) != 0 { overlay.rec.min_size_width } else { self.rec.min_size_width },
            min_size_height: if flags & (1u64 << 13u64) != 0 { overlay.rec.min_size_height } else { self.rec.min_size_height },
            max_size_width: if flags & (1u64 << 14u64) != 0 { overlay.rec.max_size_width } else { self.rec.max_size_width },
            max_size_height: if flags & (1u64 << 15u64) != 0 { overlay.rec.max_size_height } else { self.rec.max_size_height },
            aspect_ratio: if flags & (1u64 << 16u64) != 0 { overlay.rec.aspect_ratio } else { self.rec.aspect_ratio },
            margin_left: if flags & (1u64 << 17u64) != 0 { overlay.rec.margin_left } else { self.rec.margin_left },
            margin_right: if flags & (1u64 << 18u64) != 0 { overlay.rec.margin_right } else { self.rec.margin_right },
            margin_top: if flags & (1u64 << 19u64) != 0 { overlay.rec.margin_top } else { self.rec.margin_top },
            margin_bottom: if flags & (1u64 << 20u64) != 0 { overlay.rec.margin_bottom } else { self.rec.margin_bottom },
            padding_left: if flags & (1u64 << 21u64) != 0 { overlay.rec.padding_left } else { self.rec.padding_left },
            padding_right: if flags & (1u64 << 22u64) != 0 { overlay.rec.padding_right } else { self.rec.padding_right },
            padding_top: if flags & (1u64 << 23u64) != 0 { overlay.rec.padding_top } else { self.rec.padding_top },
            padding_bottom: if flags & (1u64 << 24u64) != 0 { overlay.rec.padding_bottom } else { self.rec.padding_bottom },
            border_left: if flags & (1u64 << 25u64) != 0 { overlay.rec.border_left } else { self.rec.border_left },
            border_right: if flags & (1u64 << 26u64) != 0 { overlay.rec.border_right } else { self.rec.border_right },
            border_top: if flags & (1u64 << 27u64) != 0 { overlay.rec.border_top } else { self.rec.border_top },
            border_bottom: if flags & (1u64 << 28u64) != 0 { overlay.rec.border_bottom } else { self.rec.border_bottom },
            align_items: if flags & (1u64 << 29u64) != 0 { overlay.rec.align_items } else { self.rec.align_items },
            align_self: if flags & (1u64 << 30u64) != 0 { overlay.rec.align_self } else { self.rec.align_self },
            justify_items: if flags & (1u64 << 31u64) != 0 { overlay.rec.justify_items } else { self.rec.justify_items },
            justify_self: if flags & (1u64 << 32u64) != 0 { overlay.rec.justify_self } else { self.rec.justify_self },
            align_content: if flags & (1u64 << 33u64) != 0 { overlay.rec.align_content } else { self.rec.align_content },
            justify_content: if flags & (1u64 << 34u64) != 0 { overlay.rec.justify_content } else { self.rec.justify_content },
            gap_width: if flags & (1u64 << 35u64) != 0 { overlay.rec.gap_width } else { self.rec.gap_width },
            gap_height: if flags & (1u64 << 36u64) != 0 { overlay.rec.gap_height } else { self.rec.gap_height },
            text_align: if flags & (1u64 << 37u64) != 0 { overlay.rec.text_align } else { self.rec.text_align },
            flex_direction: if flags & (1u64 << 38u64) != 0 { overlay.rec.flex_direction } else { self.rec.flex_direction },
            flex_wrap: if flags & (1u64 << 39u64) != 0 { overlay.rec.flex_wrap } else { self.rec.flex_wrap },
            flex_basis: if flags & (1u64 << 40u64) != 0 { overlay.rec.flex_basis } else { self.rec.flex_basis },
            flex_grow: if flags & (1u64 << 41u64) != 0 { overlay.rec.flex_grow } else { self.rec.flex_grow },
            flex_shrink: if flags & (1u64 << 42u64) != 0 { overlay.rec.flex_shrink } else { self.rec.flex_shrink },
            grid_template_rows,
            grid_template_columns,
            grid_auto_rows,
            grid_auto_columns,
            grid_auto_flow: if flags & (1u64 << 47u64) != 0 { overlay.rec.grid_auto_flow } else { self.rec.grid_auto_flow },
            grid_row: if flags & (1u64 << 48u64) != 0 { overlay.rec.grid_row } else { self.rec.grid_row },
            grid_column: if flags & (1u64 << 49u64) != 0 { overlay.rec.grid_column } else { self.rec.grid_column },
        };
        let r = Style { rec, set_fields: self.set_fields | flags };
        proof {
            lemma_merge_fields_model(*self, *overlay, r);
        }
        r
    }

    /// Rebuild a style from a bare property record, as when one is read
    /// back out of the engine.  The engine does not remember which fields
    /// were authored, so every flag is set; round-tripping a style through
    /// the engine loses the distinction between "unset" and "set to the
    /// default".
    pub fn from_record(rec: StyleRec) -> (r: Style)
        ensures
            r@.mask == u64::MAX,
            forall|p: Prop| #[trigger] r@.props[p] == prop_value(rec, p),
            forall|p: Prop| #[trigger] mask_has(r@.mask, p),
            r@.wf(),
    {
        broadcast use lemma_bit_all_set, lemma_prop_index_bound;

        Style { rec, set_fields: u64::MAX }
    }
}

impl Default for Style {
    /// The default style: every property at its default, no flag set.
    fn default() -> (r: Style)
        ensures
            r@.mask == 0,
            forall|p: Prop| #[trigger] r@.props[p] == prop_default(p),
            r@.wf(),
    {
        Style { rec: default_rec(), set_fields: 0 }
    }
}

/// The option's value, or the given default.
fn or_default<T>(v: Option<T>, dflt: T) -> (r: T)
    ensures
        r == (match v {
            Some(x) => x,
            None => dflt,
        }),
{
    match v {
        Some(x) => x,
        None => dflt,
    }
}

/// The coerced dimension of an optional vocabulary value, or the default.
fn dim_or(v: Option<DimensionInput>, dflt: Dimension) -> (r: Dimension)
    ensures
        r == (match v {
            Some(x) => x.spec_to_dimension(),
            None => dflt,
        }),
{
    match v {
        Some(x) => x.to_dimension(),
        None => dflt,
    }
}

/// The coerced length-percentage of an optional vocabulary value, or the
/// default.
fn lp_or(v: Option<LengthPercentageInput>, dflt: LengthPercentage) -> (r: LengthPercentage)
    ensures
        r == (match v {
            Some(x) => x.spec_to_length_percentage(),
            None => dflt,
        }),
{
    match v {
        Some(x) => x.to_length_percentage(),
        None => dflt,
    }
}

/// The coerced length-percentage-auto of an optional vocabulary value, or
/// the default.
fn lpa_or(v: Option<LengthPercentageAutoInput>, dflt: LengthPercentageAuto) -> (r:
    LengthPercentageAuto)
    ensures
        r == (match v {
            Some(x) => x.spec_to_lpa(),
            None => dflt,
        }),
{
    match v {
        Some(x) => x.to_lpa(),
        None => dflt,
    }
}

/// The option's track list, or the empty list.
fn tracks_or_empty(v: Option<Vec<GridTrack>>) -> (r: Vec<GridTrack>)
    ensures
        r@ == (match v {
            Some(x) => x@,
            None => Seq::<GridTrack>::empty(),
        }),
{
    match v {
        Some(x) => x,
        None => Vec::new(),
    }
}

/// Field-level merge facts yield the model-level statement: the merged
/// style's model is the merge of the operands' models, and merging two
/// well-formed styles gives a well-formed style.
pub proof fn lemma_merge_fields_model(a: Style, b: Style, r: Style)
    requires
        merge_fields(a, b, r),
    ensures
        r@ == spec_merge(a@, b@),
        a@.wf() && b@.wf() ==> r@.wf(),
{
    broadcast use lemma_bit_and_or_distrib, lemma_prop_index_bound;

    assert forall|p: Prop| #[trigger] r@.props[p] == spec_merge(a@, b@).props[p] by {
        match p {
            Prop::Display => {},
            Prop::BoxSizing => {},
            Prop::OverflowX => {},
            Prop::OverflowY => {},
            Prop::ScrollbarWidth => {},
            Prop::Position => {},
            Prop::InsetLeft => {},
            Prop::InsetRight => {},
            Prop::InsetTop => {},
            Prop::InsetBottom => {},
            Prop::SizeWidth => {},
            Prop::SizeHeight => {},
            Prop::MinSizeWidth => {},
            Prop::MinSizeHeight => {},
            Prop::MaxSizeWidth => {},
            Prop::MaxSizeHeight => {},
            Prop::AspectRatio => {},
            Prop::MarginLeft => {},
            Prop::MarginRight => {},
            Prop::MarginTop => {},
            Prop::MarginBottom => {},
            Prop::PaddingLeft => {},
            Prop::PaddingRight => {},
            Prop::PaddingTop => {},
            Prop::PaddingBottom => {},
            Prop::BorderLeft => {},
            Prop::BorderRight => {},
            Prop::BorderTop => {},
            Prop::BorderBottom => {},
            Prop::AlignItems => {},
            Prop::AlignSelf => {},
            Prop::JustifyItems => {},
            Prop::JustifySelf => {},
            Prop::AlignContent => {},
            Prop::JustifyContent => {},
            Prop::GapWidth => {},
            Prop::GapHeight => {},
            Prop::TextAlign => {},
            Prop::FlexDirection => {},
            Prop::FlexWrap => {},
            Prop::FlexBasis => {},
            Prop::FlexGrow => {},
            Prop::FlexShrink => {},
            Prop::GridTemplateRows => {},
            Prop::GridTemplateColumns => {},
            Prop::GridAutoRows => {},
            Prop::GridAutoColumns => {},
            Prop::GridAutoFlow => {},
            Prop::GridRow => {},
            Prop::GridColumn => {},
        }
    }
    assert(r@.props =~= spec_merge(a@, b@).props);
    if a@.wf() && b@.wf() {
        assert forall|p: Prop| !mask_has(r@.mask, p) implies r@.props[p] == prop_default(
            p,
        ) by {
            assert(!mask_has(a@.mask, p) && !mask_has(b@.mask, p));
        }
    }
}

/// One property of a style built from an options bag.
proof fn lemma_opts_prop_display(opts: StyleOptions, s: Style)
    requires
        opts_match(opts, s),
    ensures
        s@.props[Prop::Display] == (match spec_opts_prop(opts, Prop::Display) {
            Some(v) => v,
            None => prop_default(Prop::Display),
        }),
        mask_has(s@.mask, Prop::Display) == (spec_opts_prop(opts, Prop::Display) is Some),
{
}

/// One property of a style built from an options bag.
proof fn lemma_opts_prop_boxsizing(opts: StyleOptions, s: Style)
    requires
        opts_match(opts, s),
    ensures
        s@.props[Prop::BoxSizing] == (match spec_opts_prop(opts, Prop::BoxSizing) {
            Some(v) => v,
            None => prop_default(Prop::BoxSizing),
        }),
        mask_has(s@.mask, Prop::BoxSizing) == (spec_opts_prop(opts, Prop::BoxSizing) is Some),
{
}

/// One property of a style built from an options bag.
proof fn lemma_opts_prop_overflowx(opts: StyleOptions, s: Style)
    requires
        opts_match(opts, s),
    ensures
        s@.props[Prop::OverflowX] == (match spec_opts_prop(opts, Prop::OverflowX) {
            Some(v) => v,
            None => prop_default(Prop::OverflowX),
        }),
        mask_has(s@.mask, Prop::OverflowX) == (spec_opts_prop(opts, Prop::OverflowX) is Some),
{
}

/// One property of a style built from an options bag.
proof fn lemma_opts_prop_overflowy(opts: StyleOptions, s: Style)
    requires
        opts_match(opts, s),
    ensures
        s@.props[Prop::OverflowY] == (match spec_opts_prop(opts, Prop::OverflowY) {
            Some(v) => v,
            None => prop_default(Prop::OverflowY),
        }),
        mask_has(s@.mask, Prop::OverflowY) == (spec_opts_prop(opts, Prop::OverflowY) is Some),
{
}

/// One property of a style built from an options bag.
proof fn lemma_opts_prop_scrollbarwidth(opts: StyleOptions, s: Style)
    requires
        opts_match(opts, s),
    ensures
        s@.props[Prop::ScrollbarWidth] == (match spec_opts_prop(opts, Prop::ScrollbarWidth) {
            Some(v) => v,
            None => prop_default(Prop::ScrollbarWidth),
        }),
        mask_has(s@.mask, Prop::ScrollbarWidth) == (spec_opts_prop(opts, Prop::ScrollbarWidth) is Some),
{
}

/// One property of a style built from an options bag.
proof fn lemma_opts_prop_position(opts: StyleOptions, s: Style)
    requires
        opts_match(opts, s),
    ensures
        s@.props[Prop::Position] == (match spec_opts_prop(opts, Prop::Position) {
            Some(v) => v,
            None => prop_default(Prop::Position),
        }),
        mask_has(s@.mask, Prop::Position) == (spec_opts_prop(opts, Prop::Position) is Some),
{
}

/// One property of a style built from an options bag.
proof fn lemma_opts_prop_insetleft(opts: StyleOptions, s: Style)
    requires
        opts_match(opts, s),
    ensures
        s@.props[Prop::InsetLeft] == (match spec_opts_prop(opts, Prop::InsetLeft) {
            Some(v) => v,
            None => prop_default(Prop::InsetLeft),
        }),
        mask_has(s@.mask, Prop::InsetLeft) == (spec_opts_prop(opts, Prop::InsetLeft) is Some),
{
}

/// One property of a style built from an options bag.
proof fn lemma_opts_prop_insetright(opts: StyleOptions, s: Style)
    requires
        opts_match(opts, s),
    ensures
        s@.props[Prop::InsetRight] == (match spec_opts_prop(opts, Prop::InsetRight) {
            Some(v) => v,
            None => prop_default(Prop::InsetRight),
        }),
        mask_has(s@.mask, Prop::InsetRight) == (spec_opts_prop(opts, Prop::InsetRight) is Some),
{
}

/// One property of a style built from an options bag.
proof fn lemma_opts_prop_insettop(opts: StyleOptions, s: Style)
    requires
        opts_match(opts, s),
    ensures
        s@.props[Prop::InsetTop] == (match spec_opts_prop(opts, Prop::InsetTop) {
            Some(v) => v,
            None => prop_default(Prop::InsetTop),
        }),
        mask_has(s@.mask, Prop::InsetTop) == (spec_opts_prop(opts, Prop::InsetTop) is Some),
{
}

/// One property of a style built from an options bag.
proof fn lemma_opts_prop_insetbottom(opts: StyleOptions, s: Style)
    requires
        opts_match(opts, s),
    ensures
        s@.props[Prop::InsetBottom] == (match spec_opts_prop(opts, Prop::InsetBottom) {
            Some(v) => v,
            None => prop_default(Prop::InsetBottom),
        }),
        mask_has(s@.mask, Prop::InsetBottom) == (spec_opts_prop(opts, Prop::InsetBottom) is Some),
{
}

/// One property of a style built from an options bag.
proof fn lemma_opts_prop_sizewidth(opts: StyleOptions, s: Style)
    requires
        opts_match(opts, s),
    ensures
        s@.props[Prop::SizeWidth] == (match spec_opts_prop(opts, Prop::SizeWidth) {
            Some(v) => v,
            None => prop_default(Prop::SizeWidth),
        }),
        mask_has(s@.mask, Prop::SizeWidth) == (spec_opts_prop(opts, Prop::SizeWidth) is Some),
{
}

/// One property of a style built from an options bag.
proof fn lemma_opts_prop_sizeheight(opts: StyleOptions, s: Style)
    requires
        opts_match(opts, s),
    ensures
        s@.props[Prop::SizeHeight] == (match spec_opts_prop(opts, Prop::SizeHeight) {
            Some(v) => v,
            None => prop_default(Prop::SizeHeight),
        }),
        mask_has(s@.mask, Prop::SizeHeight) == (spec_opts_prop(opts, Prop::SizeHeight) is Some),
{
}

/// One property of a style built from an options bag.
proof fn lemma_opts_prop_minsizewidth(opts: StyleOptions, s: Style)
    requires
        opts_match(opts, s),
    ensures
        s@.props[Prop::MinSizeWidth] == (match spec_opts_prop(opts, Prop::MinSizeWidth) {
            Some(v) => v,
            None => prop_default(Prop::MinSizeWidth),
        }),
        mask_has(s@.mask, Prop::MinSizeWidth) == (spec_opts_prop(opts, Prop::MinSizeWidth) is Some),
{
}

/// One property of a style built from an options bag.
proof fn lemma_opts_prop_minsizeheight(opts: StyleOptions, s: Style)
    requires
        opts_match(opts, s),
    ensures
        s@.props[Prop::MinSizeHeight] == (match spec_opts_prop(opts, Prop::MinSizeHeight) {
            Some(v) => v,
            None => prop_default(Prop::MinSizeHeight),
        }),
        mask_has(s@.mask, Prop::MinSizeHeight) == (spec_opts_prop(opts, Prop::MinSizeHeight) is Some),
{
}

/// One property of a style built from an options bag.
proof fn lemma_opts_prop_maxsizewidth(opts: StyleOptions, s: Style)
    requires
        opts_match(opts, s),
    ensures
        s@.props[Prop::MaxSizeWidth] == (match spec_opts_prop(opts, Prop::MaxSizeWidth) {
            Some(v) => v,
            None => prop_default(Prop::MaxSizeWidth),
        }),
        mask_has(s@.mask, Prop::MaxSizeWidth) == (spec_opts_prop(opts, Prop::MaxSizeWidth) is Some),
{
}

/// One property of a style built from an options bag.
proof fn lemma_opts_prop_maxsizeheight(opts: StyleOptions, s: Style)
    requires
        opts_match(opts, s),
    ensures
        s@.props[Prop::MaxSizeHeight] == (match spec_opts_prop(opts, Prop::MaxSizeHeight) {
            Some(v) => v,
            None => prop_default(Prop::MaxSizeHeight),
        }),
        mask_has(s@.mask, Prop::MaxSizeHeight) == (spec_opts_prop(opts, Prop::MaxSizeHeight) is Some),
{
}

/// One property of a style built from an options bag.
proof fn lemma_opts_prop_aspectratio(opts: StyleOptions, s: Style)
    requires
        opts_match(opts, s),
    ensures
        s@.props[Prop::AspectRatio] == (match spec_opts_prop(opts, Prop::AspectRatio) {
            Some(v) => v,
            None => prop_default(Prop::AspectRatio),
        }),
        mask_has(s@.mask, Prop::AspectRatio) == (spec_opts_prop(opts, Prop::AspectRatio) is Some),
{
}

/// One property of a style built from an options bag.
proof fn lemma_opts_prop_marginleft(opts: StyleOptions, s: Style)
    requires
        opts_match(opts, s),
    ensures
        s@.props[Prop::MarginLeft] == (match spec_opts_prop(opts, Prop::MarginLeft) {
            Some(v) => v,
            None => prop_default(Prop::MarginLeft),
        }),
        mask_has(s@.mask, Prop::MarginLeft) == (spec_opts_prop(opts, Prop::MarginLeft) is Some),
{
}

/// One property of a style built from an options bag.
proof fn lemma_opts_prop_marginright(opts: StyleOptions, s: Style)
    requires
        opts_match(opts, s),
    ensures
        s@.props[Prop::MarginRight] == (match spec_opts_prop(opts, Prop::MarginRight) {
            Some(v) => v,
            None => prop_default(Prop::MarginRight),
        }),
        mask_has(s@.mask, Prop::MarginRight) == (spec_opts_prop(opts, Prop::MarginRight) is Some),
{
}

/// One property of a style built from an options bag.
proof fn lemma_opts_prop_margintop(opts: StyleOptions, s: Style)
    requires
        opts_match(opts, s),
    ensures
        s@.props[Prop::MarginTop] == (match spec_opts_prop(opts, Prop::MarginTop) {
            Some(v) => v,
            None => prop_default(Prop::MarginTop),
        }),
        mask_has(s@.mask, Prop::MarginTop) == (spec_opts_prop(opts, Prop::MarginTop) is Some),
{
}

/// One property of a style built from an options bag.
proof fn lemma_opts_prop_marginbottom(opts: StyleOptions, s: Style)
    requires
        opts_match(opts, s),
    ensures
        s@.props[Prop::MarginBottom] == (match spec_opts_prop(opts, Prop::MarginBottom) {
            Some(v) => v,
            None => prop_default(Prop::MarginBottom),
        }),
        mask_has(s@.mask, Prop::MarginBottom) == (spec_opts_prop(opts, Prop::MarginBottom) is Some),
{
}

/// One property of a style built from an options bag.
proof fn lemma_opts_prop_paddingleft(opts: StyleOptions, s: Style)
    requires
        opts_match(opts, s),
    ensures
        s@.props[Prop::PaddingLeft] == (match spec_opts_prop(opts, Prop::PaddingLeft) {
            Some(v) => v,
            None => prop_default(Prop::PaddingLeft),
        }),
        mask_has(s@.mask, Prop::PaddingLeft) == (spec_opts_prop(opts, Prop::PaddingLeft) is Some),
{
}

/// One property of a style built from an options bag.
proof fn lemma_opts_prop_paddingright(opts: StyleOptions, s: Style)
    requires
        opts_match(opts, s),
    ensures
        s@.props[Prop::PaddingRight] == (match spec_opts_prop(opts, Prop::PaddingRight) {
            Some(v) => v,
            None => prop_default(Prop::PaddingRight),
        }),
        mask_has(s@.mask, Prop::PaddingRight) == (spec_opts_prop(opts, Prop::PaddingRight) is Some),
{
}

/// One property of a style built from an options bag.
proof fn lemma_opts_prop_paddingtop(opts: StyleOptions, s: Style)
    requires
        opts_match(opts, s),
    ensures
        s@.props[Prop::PaddingTop] == (match spec_opts_prop(opts, Prop::PaddingTop) {
            Some(v) => v,
            None => prop_default(Prop::PaddingTop),
        }),
        mask_has(s@.mask, Prop::PaddingTop) == (spec_opts_prop(opts, Prop::PaddingTop) is Some),
{
}

/// One property of a style built from an options bag.
proof fn lemma_opts_prop_paddingbottom(opts: StyleOptions, s: Style)
    requires
        opts_match(opts, s),
    ensures
        s@.props[Prop::PaddingBottom] == (match spec_opts_prop(opts, Prop::PaddingBottom) {
            Some(v) => v,
            None => prop_default(Prop::PaddingBottom),
        }),
        mask_has(s@.mask, Prop::PaddingBottom) == (spec_opts_prop(opts, Prop::PaddingBottom) is Some),
{
}

/// One property of a style built from an options bag.
proof fn lemma_opts_prop_borderleft(opts: StyleOptions, s: Style)
    requires
        opts_match(opts, s),
    ensures
        s@.props[Prop::BorderLeft] == (match spec_opts_prop(opts, Prop::BorderLeft) {
            Some(v) => v,
            None => prop_default(Prop::BorderLeft),
        }),
        mask_has(s@.mask, Prop::BorderLeft) == (spec_opts_prop(opts, Prop::BorderLeft) is Some),
{
}

/// One property of a style built from an options bag.
proof fn lemma_opts_prop_borderright(opts: StyleOptions, s: Style)
    requires
        opts_match(opts, s),
    ensures
        s@.props[Prop::BorderRight] == (match spec_opts_prop(opts, Prop::BorderRight) {
            Some(v) => v,
            None => prop_default(Prop::BorderRight),
        }),
        mask_has(s@.mask, Prop::BorderRight) == (spec_opts_prop(opts, Prop::BorderRight) is Some),
{
}

/// One property of a style built from an options bag.
proof fn lemma_opts_prop_bordertop(opts: StyleOptions, s: Style)
    requires
        opts_match(opts, s),
    ensures
        s@.props[Prop::BorderTop] == (match spec_opts_prop(opts, Prop::BorderTop) {
            Some(v) => v,
            None => prop_default(Prop::BorderTop),
        }),
        mask_has(s@.mask, Prop::BorderTop) == (spec_opts_prop(opts, Prop::BorderTop) is Some),
{
}

/// One property of a style built from an options bag.
proof fn lemma_opts_prop_borderbottom(opts: StyleOptions, s: Style)
    requires
        opts_match(opts, s),
    ensures
        s@.props[Prop::BorderBottom] == (match spec_opts_prop(opts, Prop::BorderBottom) {
            Some(v) => v,
            None => prop_default(Prop::BorderBottom),
        }),
        mask_has(s@.mask, Prop::BorderBottom) == (spec_opts_prop(opts, Prop::BorderBottom) is Some),
{
}

/// One property of a style built from an options bag.
proof fn lemma_opts_prop_alignitems(opts: StyleOptions, s: Style)
    requires
        opts_match(opts, s),
    ensures
        s@.props[Prop::AlignItems] == (match spec_opts_prop(opts, Prop::AlignItems) {
            Some(v) => v,
            None => prop_default(Prop::AlignItems),
        }),
        mask_has(s@.mask, Prop::AlignItems) == (spec_opts_prop(opts, Prop::AlignItems) is Some),
{
}

/// One property of a style built from an options bag.
proof fn lemma_opts_prop_alignself(opts: StyleOptions, s: Style)
    requires
        opts_match(opts, s),
    ensures
        s@.props[Prop::AlignSelf] == (match spec_opts_prop(opts, Prop::AlignSelf) {
            Some(v) => v,
            None => prop_default(Prop::AlignSelf),
        }),
        mask_has(s@.mask, Prop::AlignSelf) == (spec_opts_prop(opts, Prop::AlignSelf) is Some),
{
}

/// One property of a style built from an options bag.
proof fn lemma_opts_prop_justifyitems(opts: StyleOptions, s: Style)
    requires
        opts_match(opts, s),
    ensures
        s@.props[Prop::JustifyItems] == (match spec_opts_prop(opts, Prop::JustifyItems) {
            Some(v) => v,
            None => prop_default(Prop::JustifyItems),
        }),
        mask_has(s@.mask, Prop::JustifyItems) == (spec_opts_prop(opts, Prop::JustifyItems) is Some),
{
}

/// One property of a style built from an options bag.
proof fn lemma_opts_prop_justifyself(opts: StyleOptions, s: Style)
    requires
        opts_match(opts, s),
    ensures
        s@.props[Prop::JustifySelf] == (match spec_opts_prop(opts, Prop::JustifySelf) {
            Some(v) => v,
            None => prop_default(Prop::JustifySelf),
        }),
        mask_has(s@.mask, Prop::JustifySelf) == (spec_opts_prop(opts, Prop::JustifySelf) is Some),
{
}

/// One property of a style built from an options bag.
proof fn lemma_opts_prop_aligncontent(opts: StyleOptions, s: Style)
    requires
        opts_match(opts, s),
    ensures
        s@.props[Prop::AlignContent] == (match spec_opts_prop(opts, Prop::AlignContent) {
            Some(v) => v,
            None => prop_default(Prop::AlignContent),
        }),
        mask_has(s@.mask, Prop::AlignContent) == (spec_opts_prop(opts, Prop::AlignContent) is Some),
{
}

/// One property of a style built from an options bag.
proof fn lemma_opts_prop_justifycontent(opts: StyleOptions, s: Style)
    requires
        opts_match(opts, s),
    ensures
        s@.props[Prop::JustifyContent] == (match spec_opts_prop(opts, Prop::JustifyContent) {
            Some(v) => v,
            None => prop_default(Prop::JustifyContent),
        }),
        mask_has(s@.mask, Prop::JustifyContent) == (spec_opts_prop(opts, Prop::JustifyContent) is Some),
{
}

/// One property of a style built from an options bag.
proof fn lemma_opts_prop_gapwidth(opts: StyleOptions, s: Style)
    requires
        opts_match(opts, s),
    ensures
        s@.props[Prop::GapWidth] == (match spec_opts_prop(opts, Prop::GapWidth) {
            Some(v) => v,
            None => prop_default(Prop::GapWidth),
        }),
        mask_has(s@.mask, Prop::GapWidth) == (spec_opts_prop(opts, Prop::GapWidth) is Some),
{
}

/// One property of a style built from an options bag.
proof fn lemma_opts_prop_gapheight(opts: StyleOptions, s: Style)
    requires
        opts_match(opts, s),
    ensures
        s@.props[Prop::GapHeight] == (match spec_opts_prop(opts, Prop::GapHeight) {
            Some(v) => v,
            None => prop_default(Prop::GapHeight),
        }),
        mask_has(s@.mask, Prop::GapHeight) == (spec_opts_prop(opts, Prop::GapHeight) is Some),
{
}

/// One property of a style built from an options bag.
proof fn lemma_opts_prop_textalign(opts: StyleOptions, s: Style)
    requires
        opts_match(opts, s),
    ensures
        s@.props[Prop::TextAlign] == (match spec_opts_prop(opts, Prop::TextAlign) {
            Some(v) => v,
            None => prop_default(Prop::TextAlign),
        }),
        mask_has(s@.mask, Prop::TextAlign) == (spec_opts_prop(opts, Prop::TextAlign) is Some),
{
}

/// One property of a style built from an options bag.
proof fn lemma_opts_prop_flexdirection(opts: StyleOptions, s: Style)
    requires
        opts_match(opts, s),
    ensures
        s@.props[Prop::FlexDirection] == (match spec_opts_prop(opts, Prop::FlexDirection) {
            Some(v) => v,
            None => prop_default(Prop::FlexDirection),
        }),
        mask_has(s@.mask, Prop::FlexDirection) == (spec_opts_prop(opts, Prop::FlexDirection) is Some),
{
}

/// One property of a style built from an options bag.
proof fn lemma_opts_prop_flexwrap(opts: StyleOptions, s: Style)
    requires
        opts_match(opts, s),
    ensures
        s@.props[Prop::FlexWrap] == (match spec_opts_prop(opts, Prop::FlexWrap) {
            Some(v) => v,
            None => prop_default(Prop::FlexWrap),
        }),
        mask_has(s@.mask, Prop::FlexWrap) == (spec_opts_prop(opts, Prop::FlexWrap) is Some),
{
}

/// One property of a style built from an options bag.
proof fn lemma_opts_prop_flexbasis(opts: StyleOptions, s: Style)
    requires
        opts_match(opts, s),
    ensures
        s@.props[Prop::FlexBasis] == (match spec_opts_prop(opts, Prop::FlexBasis) {
            Some(v) => v,
            None => prop_default(Prop::FlexBasis),
        }),
        mask_has(s@.mask, Prop::FlexBasis) == (spec_opts_prop(opts, Prop::FlexBasis) is Some),
{
}

/// One property of a style built from an options bag.
proof fn lemma_opts_prop_flexgrow(opts: StyleOptions, s: Style)
    requires
        opts_match(opts, s),
    ensures
        s@.props[Prop::FlexGrow] == (match spec_opts_prop(opts, Prop::FlexGrow) {
            Some(v) => v,
            None => prop_default(Prop::FlexGrow),
        }),
        mask_has(s@.mask, Prop::FlexGrow) == (spec_opts_prop(opts, Prop::FlexGrow) is Some),
{
}

/// One property of a style built from an options bag.
proof fn lemma_opts_prop_flexshrink(opts: StyleOptions, s: Style)
    requires
        opts_match(opts, s),
    ensures
        s@.props[Prop::FlexShrink] == (match spec_opts_prop(opts, Prop::FlexShrink) {
            Some(v) => v,
            None => prop_default(Prop::FlexShrink),
        }),
        mask_has(s@.mask, Prop::FlexShrink) == (spec_opts_prop(opts, Prop::FlexShrink) is Some),
{
}

/// One property of a style built from an options bag.
proof fn lemma_opts_prop_gridtemplaterows(opts: StyleOptions, s: Style)
    requires
        opts_match(opts, s),
    ensures
        s@.props[Prop::GridTemplateRows] == (match spec_opts_prop(opts, Prop::GridTemplateRows) {
            Some(v) => v,
            None => prop_default(Prop::GridTemplateRows),
        }),
        mask_has(s@.mask, Prop::GridTemplateRows) == (spec_opts_prop(opts, Prop::GridTemplateRows) is Some),
{
}

/// One property of a style built from an options bag.
proof fn lemma_opts_prop_gridtemplatecolumns(opts: StyleOptions, s: Style)
    requires
        opts_match(opts, s),
    ensures
        s@.props[Prop::GridTemplateColumns] == (match spec_opts_prop(opts, Prop::GridTemplateColumns) {
            Some(v) => v,
            None => prop_default(Prop::GridTemplateColumns),
        }),
        mask_has(s@.mask, Prop::GridTemplateColumns) == (spec_opts_prop(opts, Prop::GridTemplateColumns) is Some),
{
}

/// One property of a style built from an options bag.
proof fn lemma_opts_prop_gridautorows(opts: StyleOptions, s: Style)
    requires
        opts_match(opts, s),
    ensures
        s@.props[Prop::GridAutoRows] == (match spec_opts_prop(opts, Prop::GridAutoRows) {
            Some(v) => v,
            None => prop_default(Prop::GridAutoRows),
        }),
        mask_has(s@.mask, Prop::GridAutoRows) == (spec_opts_prop(opts, Prop::GridAutoRows) is Some),
{
}

/// One property of a style built from an options bag.
proof fn lemma_opts_prop_gridautocolumns(opts: StyleOptions, s: Style)
    requires
        opts_match(opts, s),
    ensures
        s@.props[Prop::GridAutoColumns] == (match spec_opts_prop(opts, Prop::GridAutoColumns) {
            Some(v) => v,
            None => prop_default(Prop::GridAutoColumns),
        }),
        mask_has(s@.mask, Prop::GridAutoColumns) == (spec_opts_prop(opts, Prop::GridAutoColumns) is Some),
{
}

/// One property of a style built from an options bag.
proof fn lemma_opts_prop_gridautoflow(opts: StyleOptions, s: Style)
    requires
        opts_match(opts, s),
    ensures
        s@.props[Prop::GridAutoFlow] == (match spec_opts_prop(opts, Prop::GridAutoFlow) {
            Some(v) => v,
            None => prop_default(Prop::GridAutoFlow),
        }),
        mask_has(s@.mask, Prop::GridAutoFlow) == (spec_opts_prop(opts, Prop::GridAutoFlow) is Some),
{
}

/// One property of a style built from an options bag.
proof fn lemma_opts_prop_gridrow(opts: StyleOptions, s: Style)
    requires
        opts_match(opts, s),
    ensures
        s@.props[Prop::GridRow] == (match spec_opts_prop(opts, Prop::GridRow) {
            Some(v) => v,
            None => prop_default(Prop::GridRow),
        }),
        mask_has(s@.mask, Prop::GridRow) == (spec_opts_prop(opts, Prop::GridRow) is Some),
{
}

/// One property of a style built from an options bag.
proof fn lemma_opts_prop_gridcolumn(opts: StyleOptions, s: Style)
    requires
        opts_match(opts, s),
    ensures
        s@.props[Prop::GridColumn] == (match spec_opts_prop(opts, Prop::GridColumn) {
            Some(v) => v,
            None => prop_default(Prop::GridColumn),
        }),
        mask_has(s@.mask, Prop::GridColumn) == (spec_opts_prop(opts, Prop::GridColumn) is Some),
{
}

/// Field-level construction facts yield the model-level statement: every
/// mentioned property is the bag's value with its flag set, every other
/// property is the default with its flag clear, and the style is well
/// formed.
#[verifier::rlimit(100)]
pub proof fn lemma_opts_match_model(opts: StyleOptions, s: Style)
    requires
        opts_match(opts, s),
    ensures
        forall|p: Prop| #[trigger] s@.props[p] == (match spec_opts_prop(opts, p) {
            Some(v) => v,
            None => prop_default(p),
        }),
        forall|p: Prop| #[trigger] mask_has(s@.mask, p) == (spec_opts_prop(opts, p) is Some),
        s@.wf(),
{
    assert forall|p: Prop| #[trigger] s@.props[p] == (match spec_opts_prop(opts, p) {
        Some(v) => v,
        None => prop_default(p),
    }) by {
        match p {
            Prop::Display => lemma_opts_prop_display(opts, s),
            Prop::BoxSizing => lemma_opts_prop_boxsizing(opts, s),
            Prop::OverflowX => lemma_opts_prop_overflowx(opts, s),
            Prop::OverflowY => lemma_opts_prop_overflowy(opts, s),
            Prop::ScrollbarWidth => lemma_opts_prop_scrollbarwidth(opts, s),
            Prop::Position => lemma_opts_prop_position(opts, s),
            Prop::InsetLeft => lemma_opts_prop_insetleft(opts, s),
            Prop::InsetRight => lemma_opts_prop_insetright(opts, s),
            Prop::InsetTop => lemma_opts_prop_insettop(opts, s),
            Prop::InsetBottom => lemma_opts_prop_insetbottom(opts, s),
            Prop::SizeWidth => lemma_opts_prop_sizewidth(opts, s),
            Prop::SizeHeight => lemma_opts_prop_sizeheight(opts, s),
            Prop::MinSizeWidth => lemma_opts_prop_minsizewidth(opts, s),
            Prop::MinSizeHeight => lemma_opts_prop_minsizeheight(opts, s),
            Prop::MaxSizeWidth => lemma_opts_prop_maxsizewidth(opts, s),
            Prop::MaxSizeHeight => lemma_opts_prop_maxsizeheight(opts, s),
            Prop::AspectRatio => lemma_opts_prop_aspectratio(opts, s),
            Prop::MarginLeft => lemma_opts_prop_marginleft(opts, s),
            Prop::MarginRight => lemma_opts_prop_marginright(opts, s),
            Prop::MarginTop => lemma_opts_prop_margintop(opts, s),
            Prop::MarginBottom => lemma_opts_prop_marginbottom(opts, s),
            Prop::PaddingLeft => lemma_opts_prop_paddingleft(opts, s),
            Prop::PaddingRight => lemma_opts_prop_paddingright(opts, s),
            Prop::PaddingTop => lemma_opts_prop_paddingtop(opts, s),
            Prop::PaddingBottom => lemma_opts_prop_paddingbottom(opts, s),
            Prop::BorderLeft => lemma_opts_prop_borderleft(opts, s),
            Prop::BorderRight => lemma_opts_prop_borderright(opts, s),
            Prop::BorderTop => lemma_opts_prop_bordertop(opts, s),
            Prop::BorderBottom => lemma_opts_prop_borderbottom(opts, s),
            Prop::AlignItems => lemma_opts_prop_alignitems(opts, s),
            Prop::AlignSelf => lemma_opts_prop_alignself(opts, s),
            Prop::JustifyItems => lemma_opts_prop_justifyitems(opts, s),
            Prop::JustifySelf => lemma_opts_prop_justifyself(opts, s),
            Prop::AlignContent => lemma_opts_prop_aligncontent(opts, s),
            Prop::JustifyContent => lemma_opts_prop_justifycontent(opts, s),
            Prop::GapWidth => lemma_opts_prop_gapwidth(opts, s),
            Prop::GapHeight => lemma_opts_prop_gapheight(opts, s),
            Prop::TextAlign => lemma_opts_prop_textalign(opts, s),
            Prop::FlexDirection => lemma_opts_prop_flexdirection(opts, s),
            Prop::FlexWrap => lemma_opts_prop_flexwrap(opts, s),
            Prop::FlexBasis => lemma_opts_prop_flexbasis(opts, s),
            Prop::FlexGrow => lemma_opts_prop_flexgrow(opts, s),
            Prop::FlexShrink => lemma_opts_prop_flexshrink(opts, s),
            Prop::GridTemplateRows => lemma_opts_prop_gridtemplaterows(opts, s),
            Prop::GridTemplateColumns => lemma_opts_prop_gridtemplatecolumns(opts, s),
            Prop::GridAutoRows => lemma_opts_prop_gridautorows(opts, s),
            Prop::GridAutoColumns => lemma_opts_prop_gridautocolumns(opts, s),
            Prop::GridAutoFlow => lemma_opts_prop_gridautoflow(opts, s),
            Prop::GridRow => lemma_opts_prop_gridrow(opts, s),
            Prop::GridColumn => lemma_opts_prop_gridcolumn(opts, s),
        }
    }
    assert forall|p: Prop| #[trigger] mask_has(s@.mask, p) == (spec_opts_prop(opts, p)
        is Some) by {
        match p {
            Prop::Display => lemma_opts_prop_display(opts, s),
            Prop::BoxSizing => lemma_opts_prop_boxsizing(opts, s),
            Prop::OverflowX => lemma_opts_prop_overflowx(opts, s),
            Prop::OverflowY => lemma_opts_prop_overflowy(opts, s),
            Prop::ScrollbarWidth => lemma_opts_prop_scrollbarwidth(opts, s),
            Prop::Position => lemma_opts_prop_position(opts, s),
            Prop::InsetLeft => lemma_opts_prop_insetleft(opts, s),
            Prop::InsetRight => lemma_opts_prop_insetright(opts, s),
            Prop::InsetTop => lemma_opts_prop_insettop(opts, s),
            Prop::InsetBottom => lemma_opts_prop_insetbottom(opts, s),
            Prop::SizeWidth => lemma_opts_prop_sizewidth(opts, s),
            Prop::SizeHeight => lemma_opts_prop_sizeheight(opts, s),
            Prop::MinSizeWidth => lemma_opts_prop_minsizewidth(opts, s),
            Prop::MinSizeHeight => lemma_opts_prop_minsizeheight(opts, s),
            Prop::MaxSizeWidth => lemma_opts_prop_maxsizewidth(opts, s),
            Prop::MaxSizeHeight => lemma_opts_prop_maxsizeheight(opts, s),
            Prop::AspectRatio => lemma_opts_prop_aspectratio(opts, s),
            Prop::MarginLeft => lemma_opts_prop_marginleft(opts, s),
            Prop::MarginRight => lemma_opts_prop_marginright(opts, s),
            Prop::MarginTop => lemma_opts_prop_margintop(opts, s),
            Prop::MarginBottom => lemma_opts_prop_marginbottom(opts, s),
            Prop::PaddingLeft => lemma_opts_prop_paddingleft(opts, s),
            Prop::PaddingRight => lemma_opts_prop_paddingright(opts, s),
            Prop::PaddingTop => lemma_opts_prop_paddingtop(opts, s),
            Prop::PaddingBottom => lemma_opts_prop_paddingbottom(opts, s),
            Prop::BorderLeft => lemma_opts_prop_borderleft(opts, s),
            Prop::BorderRight => lemma_opts_prop_borderright(opts, s),
            Prop::BorderTop => lemma_opts_prop_bordertop(opts, s),
            Prop::BorderBottom => lemma_opts_prop_borderbottom(opts, s),
            Prop::AlignItems => lemma_opts_prop_alignitems(opts, s),
            Prop::AlignSelf => lemma_opts_prop_alignself(opts, s),
            Prop::JustifyItems => lemma_opts_prop_justifyitems(opts, s),
            Prop::JustifySelf => lemma_opts_prop_justifyself(opts, s),
            Prop::AlignContent => lemma_opts_prop_aligncontent(opts, s),
            Prop::JustifyContent => lemma_opts_prop_justifycontent(opts, s),
            Prop::GapWidth => lemma_opts_prop_gapwidth(opts, s),
            Prop::GapHeight => lemma_opts_prop_gapheight(opts, s),
            Prop::TextAlign => lemma_opts_prop_textalign(opts, s),
            Prop::FlexDirection => lemma_opts_prop_flexdirection(opts, s),
            Prop::FlexWrap => lemma_opts_prop_flexwrap(opts, s),
            Prop::FlexBasis => lemma_opts_prop_flexbasis(opts, s),
            Prop::FlexGrow => lemma_opts_prop_flexgrow(opts, s),
            Prop::FlexShrink => lemma_opts_prop_flexshrink(opts, s),
            Prop::GridTemplateRows => lemma_opts_prop_gridtemplaterows(opts, s),
            Prop::GridTemplateColumns => lemma_opts_prop_gridtemplatecolumns(opts, s),
            Prop::GridAutoRows => lemma_opts_prop_gridautorows(opts, s),
            Prop::GridAutoColumns => lemma_opts_prop_gridautocolumns(opts, s),
            Prop::GridAutoFlow => lemma_opts_prop_gridautoflow(opts, s),
            Prop::GridRow => lemma_opts_prop_gridrow(opts, s),
            Prop::GridColumn => lemma_opts_prop_gridcolumn(opts, s),
        }
    }
}

/// A property that was never set reads as its default: direct from
/// well-formedness, which construction establishes and every setter and
/// merge preserves.
pub proof fn lemma_unset_reads_default(m: StyleModel, p: Prop)
    requires
        m.wf(),
        !mask_has(m.mask, p),
    ensures
        m.props[p] == prop_default(p),
{
}

/// The mask of a merge is the union of the operands' masks, and a flag is
/// set in the merge exactly when either operand set it.
pub proof fn lemma_merge_mask(base: StyleModel, overlay: StyleModel)
    ensures
        spec_merge(base, overlay).mask == base.mask | overlay.mask,
        forall|p: Prop| #[trigger] mask_has(spec_merge(base, overlay).mask, p) == (mask_has(
            base.mask,
            p,
        ) || mask_has(overlay.mask, p)),
{
    broadcast use lemma_bit_and_or_distrib;

}

/// Merge preserves well-formedness.
pub proof fn lemma_merge_wf(base: StyleModel, overlay: StyleModel)
    requires
        base.wf(),
        overlay.wf(),
    ensures
        spec_merge(base, overlay).wf(),
{
    broadcast use lemma_bit_and_or_distrib;

}

/// Merge is associative: layering `b` then `c` over `a` is the same as
/// layering the merge of `b` and `c` over `a`.  (It is not commutative: the
/// overlay wins where both operands set a property.)
pub proof fn lemma_merge_associative(a: StyleModel, b: StyleModel, c: StyleModel)
    ensures
        spec_merge(spec_merge(a, b), c) == spec_merge(a, spec_merge(b, c)),
{
    broadcast use lemma_bit_and_or_distrib;

    lemma_mask_or_assoc(a.mask, b.mask, c.mask);
    assert(spec_merge(spec_merge(a, b), c).props =~~= spec_merge(a, spec_merge(b, c)).props);
    assert(spec_merge(spec_merge(a, b), c) =~~= spec_merge(a, spec_merge(b, c)));
}

} // verus!
