//! Per-property access to a [`Style`]: a getter and a setter for each of
//! the fifty properties.
//!
//! Every setter stores the value and sets the property's flag — also when
//! the value written equals the default, which is the point of the mask —
//! and never clears any flag.  Getters read the underlying record; no flag
//! state is observable through them.

use vstd::prelude::*;
use crate::dimensions::{Dimension, LengthPercentage, LengthPercentageAuto};
use crate::enums::{
    AlignContent,
    AlignItems,
    BoxSizing,
    Display,
    FlexDirection,
    FlexWrap,
    GridAutoFlow,
    Overflow,
    Position,
    TextAlign,
};
use crate::grid::{GridLine, GridTrack};
use crate::style::{
    clone_tracks,
    lemma_mask_set,
    mask_has,
    mask_of,
    prop_mask,
    Prop,
    PropVal,
    Style,
};
use crate::values::{DimensionInput, LengthPercentageAutoInput, LengthPercentageInput};

verus! {

impl Style {

    /// Read the `display` property.
    pub fn get_display(&self) -> (r: Display)
        ensures
            self@.props[Prop::Display] == PropVal::Display(r),
    {
        self.rec.display
    }

    /// Write the `display` property and set its flag.
    pub fn set_display(&mut self, value: Display)
        ensures
            final(self)@.mask == old(self)@.mask | prop_mask(Prop::Display),
            mask_has(final(self)@.mask, Prop::Display),
            forall|q: Prop| q != Prop::Display ==> #[trigger] mask_has(final(self)@.mask, q)
                == mask_has(old(self)@.mask, q),
            final(self)@.props == old(self)@.props.insert(Prop::Display, PropVal::Display(value)),
            old(self)@.wf() ==> final(self)@.wf(),
    {
        self.rec.display = value;
        self.set_fields = self.set_fields | mask_of(Prop::Display);
        proof {
            lemma_mask_set(old(self).set_fields, Prop::Display);
            assert(final(self)@.props =~= old(self)@.props.insert(Prop::Display, PropVal::Display(value)));
        }
    }

    /// Read the `box_sizing` property.
    pub fn get_box_sizing(&self) -> (r: BoxSizing)
        ensures
            self@.props[Prop::BoxSizing] == PropVal::BoxSizing(r),
    {
        self.rec.box_sizing
    }

    /// Write the `box_sizing` property and set its flag.
    pub fn set_box_sizing(&mut self, value: BoxSizing)
        ensures
            final(self)@.mask == old(self)@.mask | prop_mask(Prop::BoxSizing),
            mask_has(final(self)@.mask, Prop::BoxSizing),
            forall|q: Prop| q != Prop::BoxSizing ==> #[trigger] mask_has(final(self)@.mask, q)
                == mask_has(old(self)@.mask, q),
            final(self)@.props == old(self)@.props.insert(Prop::BoxSizing, PropVal::BoxSizing(value)),
            old(self)@.wf() ==> final(self)@.wf(),
    {
        self.rec.box_sizing = value;
        self.set_fields = self.set_fields | mask_of(Prop::BoxSizing);
        proof {
            lemma_mask_set(old(self).set_fields, Prop::BoxSizing);
            assert(final(self)@.props =~= old(self)@.props.insert(Prop::BoxSizing, PropVal::BoxSizing(value)));
        }
    }

    /// Read the `overflow_x` property.
    pub fn get_overflow_x(&self) -> (r: Overflow)
        ensures
            self@.props[Prop::OverflowX] == PropVal::Overflow(r),
    {
        self.rec.overflow_x
    }

    /// Write the `overflow_x` property and set its flag.
    pub fn set_overflow_x(&mut self, value: Overflow)
        ensures
            final(self)@.mask == old(self)@.mask | prop_mask(Prop::OverflowX),
            mask_has(final(self)@.mask, Prop::OverflowX),
            forall|q: Prop| q != Prop::OverflowX ==> #[trigger] mask_has(final(self)@.mask, q)
                == mask_has(old(self)@.mask, q),
            final(self)@.props == old(self)@.props.insert(Prop::OverflowX, PropVal::Overflow(value)),
            old(self)@.wf() ==> final(self)@.wf(),
    {
        self.rec.overflow_x = value;
        self.set_fields = self.set_fields | mask_of(Prop::OverflowX);
        proof {
            lemma_mask_set(old(self).set_fields, Prop::OverflowX);
            assert(final(self)@.props =~= old(self)@.props.insert(Prop::OverflowX, PropVal::Overflow(value)));
        }
    }

    /// Read the `overflow_y` property.
    pub fn get_overflow_y(&self) -> (r: Overflow)
        ensures
            self@.props[Prop::OverflowY] == PropVal::Overflow(r),
    {
        self.rec.overflow_y
    }

    /// Write the `overflow_y` property and set its flag.
    pub fn set_overflow_y(&mut self, value: Overflow)
        ensures
            final(self)@.mask == old(self)@.mask | prop_mask(Prop::OverflowY),
            mask_has(final(self)@.mask, Prop::OverflowY),
            forall|q: Prop| q != Prop::OverflowY ==> #[trigger] mask_has(final(self)@.mask, q)
                == mask_has(old(self)@.mask, q),
            final(self)@.props == old(self)@.props.insert(Prop::OverflowY, PropVal::Overflow(value)),
            old(self)@.wf() ==> final(self)@.wf(),
    {
        self.rec.overflow_y = value;
        self.set_fields = self.set_fields | mask_of(Prop::OverflowY);
        proof {
            lemma_mask_set(old(self).set_fields, Prop::OverflowY);
            assert(final(self)@.props =~= old(self)@.props.insert(Prop::OverflowY, PropVal::Overflow(value)));
        }
    }

    /// Read the `scrollbar_width` property.
    pub fn get_scrollbar_width(&self) -> (r: u32)
        ensures
            self@.props[Prop::ScrollbarWidth] == PropVal::Bits(r),
    {
        self.rec.scrollbar_width
    }

    /// Write the `scrollbar_width` property and set its flag.
    pub fn set_scrollbar_width(&mut self, value: u32)
        ensures
            final(self)@.mask == old(self)@.mask | prop_mask(Prop::ScrollbarWidth),
            mask_has(final(self)@.mask, Prop::ScrollbarWidth),
            forall|q: Prop| q != Prop::ScrollbarWidth ==> #[trigger] mask_has(final(self)@.mask, q)
                == mask_has(old(self)@.mask, q),
            final(self)@.props == old(self)@.props.insert(Prop::ScrollbarWidth, PropVal::Bits(value)),
            old(self)@.wf() ==> final(self)@.wf(),
    {
        self.rec.scrollbar_width = value;
        self.set_fields = self.set_fields | mask_of(Prop::ScrollbarWidth);
        proof {
            lemma_mask_set(old(self).set_fields, Prop::ScrollbarWidth);
            assert(final(self)@.props =~= old(self)@.props.insert(Prop::ScrollbarWidth, PropVal::Bits(value)));
        }
    }

    /// Read the `position` property.
    pub fn get_position(&self) -> (r: Position)
        ensures
            self@.props[Prop::Position] == PropVal::Position(r),
    {
        self.rec.position
    }

    /// Write the `position` property and set its flag.
    pub fn set_position(&mut self, value: Position)
        ensures
            final(self)@.mask == old(self)@.mask | prop_mask(Prop::Position),
            mask_has(final(self)@.mask, Prop::Position),
            forall|q: Prop| q != Prop::Position ==> #[trigger] mask_has(final(self)@.mask, q)
                == mask_has(old(self)@.mask, q),
            final(self)@.props == old(self)@.props.insert(Prop::Position, PropVal::Position(value)),
            old(self)@.wf() ==> final(self)@.wf(),
    {
        self.rec.position = value;
        self.set_fields = self.set_fields | mask_of(Prop::Position);
        proof {
            lemma_mask_set(old(self).set_fields, Prop::Position);
            assert(final(self)@.props =~= old(self)@.props.insert(Prop::Position, PropVal::Position(value)));
        }
    }

    /// Read the `inset_left` property.
    pub fn get_inset_left(&self) -> (r: LengthPercentageAuto)
        ensures
            self@.props[Prop::InsetLeft] == PropVal::LengthPercentageAuto(r),
    {
        self.rec.inset_left
    }

    /// Write the `inset_left` property and set its flag.
    pub fn set_inset_left(&mut self, value: LengthPercentageAutoInput)
        ensures
            final(self)@.mask == old(self)@.mask | prop_mask(Prop::InsetLeft),
            mask_has(final(self)@.mask, Prop::InsetLeft),
            forall|q: Prop| q != Prop::InsetLeft ==> #[trigger] mask_has(final(self)@.mask, q)
                == mask_has(old(self)@.mask, q),
            final(self)@.props == old(self)@.props.insert(Prop::InsetLeft, PropVal::LengthPercentageAuto(value.spec_to_lpa())),
            old(self)@.wf() ==> final(self)@.wf(),
    {
        self.rec.inset_left = value.to_lpa();
        self.set_fields = self.set_fields | mask_of(Prop::InsetLeft);
        proof {
            lemma_mask_set(old(self).set_fields, Prop::InsetLeft);
            assert(final(self)@.props =~= old(self)@.props.insert(Prop::InsetLeft, PropVal::LengthPercentageAuto(value.spec_to_lpa())));
        }
    }

    /// Read the `inset_right` property.
    pub fn get_inset_right(&self) -> (r: LengthPercentageAuto)
        ensures
            self@.props[Prop::InsetRight] == PropVal::LengthPercentageAuto(r),
    {
        self.rec.inset_right
    }

    /// Write the `inset_right` property and set its flag.
    pub fn set_inset_right(&mut self, value: LengthPercentageAutoInput)
        ensures
            final(self)@.mask == old(self)@.mask | prop_mask(Prop::InsetRight),
            mask_has(final(self)@.mask, Prop::InsetRight),
            forall|q: Prop| q != Prop::InsetRight ==> #[trigger] mask_has(final(self)@.mask, q)
                == mask_has(old(self)@.mask, q),
            final(self)@.props == old(self)@.props.insert(Prop::InsetRight, PropVal::LengthPercentageAuto(value.spec_to_lpa())),
            old(self)@.wf() ==> final(self)@.wf(),
    {
        self.rec.inset_right = value.to_lpa();
        self.set_fields = self.set_fields | mask_of(Prop::InsetRight);
        proof {
            lemma_mask_set(old(self).set_fields, Prop::InsetRight);
            assert(final(self)@.props =~= old(self)@.props.insert(Prop::InsetRight, PropVal::LengthPercentageAuto(value.spec_to_lpa())));
        }
    }

    /// Read the `inset_top` property.
    pub fn get_inset_top(&self) -> (r: LengthPercentageAuto)
        ensures
            self@.props[Prop::InsetTop] == PropVal::LengthPercentageAuto(r),
    {
        self.rec.inset_top
    }

    /// Write the `inset_top` property and set its flag.
    pub fn set_inset_top(&mut self, value: LengthPercentageAutoInput)
        ensures
            final(self)@.mask == old(self)@.mask | prop_mask(Prop::InsetTop),
            mask_has(final(self)@.mask, Prop::InsetTop),
            forall|q: Prop| q != Prop::InsetTop ==> #[trigger] mask_has(final(self)@.mask, q)
                == mask_has(old(self)@.mask, q),
            final(self)@.props == old(self)@.props.insert(Prop::InsetTop, PropVal::LengthPercentageAuto(value.spec_to_lpa())),
            old(self)@.wf() ==> final(self)@.wf(),
    {
        self.rec.inset_top = value.to_lpa();
        self.set_fields = self.set_fields | mask_of(Prop::InsetTop);
        proof {
            lemma_mask_set(old(self).set_fields, Prop::InsetTop);
            assert(final(self)@.props =~= old(self)@.props.insert(Prop::InsetTop, PropVal::LengthPercentageAuto(value.spec_to_lpa())));
        }
    }

    /// Read the `inset_bottom` property.
    pub fn get_inset_bottom(&self) -> (r: LengthPercentageAuto)
        ensures
            self@.props[Prop::InsetBottom] == PropVal::LengthPercentageAuto(r),
    {
        self.rec.inset_bottom
    }

    /// Write the `inset_bottom` property and set its flag.
    pub fn set_inset_bottom(&mut self, value: LengthPercentageAutoInput)
        ensures
            final(self)@.mask == old(self)@.mask | prop_mask(Prop::InsetBottom),
            mask_has(final(self)@.mask, Prop::InsetBottom),
            forall|q: Prop| q != Prop::InsetBottom ==> #[trigger] mask_has(final(self)@.mask, q)
                == mask_has(old(self)@.mask, q),
            final(self)@.props == old(self)@.props.insert(Prop::InsetBottom, PropVal::LengthPercentageAuto(value.spec_to_lpa())),
            old(self)@.wf() ==> final(self)@.wf(),
    {
        self.rec.inset_bottom = value.to_lpa();
        self.set_fields = self.set_fields | mask_of(Prop::InsetBottom);
        proof {
            lemma_mask_set(old(self).set_fields, Prop::InsetBottom);
            assert(final(self)@.props =~= old(self)@.props.insert(Prop::InsetBottom, PropVal::LengthPercentageAuto(value.spec_to_lpa())));
        }
    }

    /// Read the `size_width` property.
    pub fn get_size_width(&self) -> (r: Dimension)
        ensures
            self@.props[Prop::SizeWidth] == PropVal::Dimension(r),
    {
        self.rec.size_width
    }

    /// Write the `size_width` property and set its flag.
    pub fn set_size_width(&mut self, value: DimensionInput)
        ensures
            final(self)@.mask == old(self)@.mask | prop_mask(Prop::SizeWidth),
            mask_has(final(self)@.mask, Prop::SizeWidth),
            forall|q: Prop| q != Prop::SizeWidth ==> #[trigger] mask_has(final(self)@.mask, q)
                == mask_has(old(self)@.mask, q),
            final(self)@.props == old(self)@.props.insert(Prop::SizeWidth, PropVal::Dimension(value.spec_to_dimension())),
            old(self)@.wf() ==> final(self)@.wf(),
    {
        self.rec.size_width = value.to_dimension();
        self.set_fields = self.set_fields | mask_of(Prop::SizeWidth);
        proof {
            lemma_mask_set(old(self).set_fields, Prop::SizeWidth);
            assert(final(self)@.props =~= old(self)@.props.insert(Prop::SizeWidth, PropVal::Dimension(value.spec_to_dimension())));
        }
    }

    /// Read the `size_height` property.
    pub fn get_size_height(&self) -> (r: Dimension)
        ensures
            self@.props[Prop::SizeHeight] == PropVal::Dimension(r),
    {
        self.rec.size_height
    }

    /// Write the `size_height` property and set its flag.
    pub fn set_size_height(&mut self, value: DimensionInput)
        ensures
            final(self)@.mask == old(self)@.mask | prop_mask(Prop::SizeHeight),
            mask_has(final(self)@.mask, Prop::SizeHeight),
            forall|q: Prop| q != Prop::SizeHeight ==> #[trigger] mask_has(final(self)@.mask, q)
                == mask_has(old(self)@.mask, q),
            final(self)@.props == old(self)@.props.insert(Prop::SizeHeight, PropVal::Dimension(value.spec_to_dimension())),
            old(self)@.wf() ==> final(self)@.wf(),
    {
        self.rec.size_height = value.to_dimension();
        self.set_fields = self.set_fields | mask_of(Prop::SizeHeight);
        proof {
            lemma_mask_set(old(self).set_fields, Prop::SizeHeight);
            assert(final(self)@.props =~= old(self)@.props.insert(Prop::SizeHeight, PropVal::Dimension(value.spec_to_dimension())));
        }
    }

    /// Read the `min_size_width` property.
    pub fn get_min_size_width(&self) -> (r: Dimension)
        ensures
            self@.props[Prop::MinSizeWidth] == PropVal::Dimension(r),
    {
        self.rec.min_size_width
    }

    /// Write the `min_size_width` property and set its flag.
    pub fn set_min_size_width(&mut self, value: DimensionInput)
        ensures
            final(self)@.mask == old(self)@.mask | prop_mask(Prop::MinSizeWidth),
            mask_has(final(self)@.mask, Prop::MinSizeWidth),
            forall|q: Prop| q != Prop::MinSizeWidth ==> #[trigger] mask_has(final(self)@.mask, q)
                == mask_has(old(self)@.mask, q),
            final(self)@.props == old(self)@.props.insert(Prop::MinSizeWidth, PropVal::Dimension(value.spec_to_dimension())),
            old(self)@.wf() ==> final(self)@.wf(),
    {
        self.rec.min_size_width = value.to_dimension();
        self.set_fields = self.set_fields | mask_of(Prop::MinSizeWidth);
        proof {
            lemma_mask_set(old(self).set_fields, Prop::MinSizeWidth);
            assert(final(self)@.props =~= old(self)@.props.insert(Prop::MinSizeWidth, PropVal::Dimension(value.spec_to_dimension())));
        }
    }

    /// Read the `min_size_height` property.
    pub fn get_min_size_height(&self) -> (r: Dimension)
        ensures
            self@.props[Prop::MinSizeHeight] == PropVal::Dimension(r),
    {
        self.rec.min_size_height
    }

    /// Write the `min_size_height` property and set its flag.
    pub fn set_min_size_height(&mut self, value: DimensionInput)
        ensures
            final(self)@.mask == old(self)@.mask | prop_mask(Prop::MinSizeHeight),
            mask_has(final(self)@.mask, Prop::MinSizeHeight),
            forall|q: Prop| q != Prop::MinSizeHeight ==> #[trigger] mask_has(final(self)@.mask, q)
                == mask_has(old(self)@.mask, q),
            final(self)@.props == old(self)@.props.insert(Prop::MinSizeHeight, PropVal::Dimension(value.spec_to_dimension())),
            old(self)@.wf() ==> final(self)@.wf(),
    {
        self.rec.min_size_height = value.to_dimension();
        self.set_fields = self.set_fields | mask_of(Prop::MinSizeHeight);
        proof {
            lemma_mask_set(old(self).set_fields, Prop::MinSizeHeight);
            assert(final(self)@.props =~= old(self)@.props.insert(Prop::MinSizeHeight, PropVal::Dimension(value.spec_to_dimension())));
        }
    }

    /// Read the `max_size_width` property.
    pub fn get_max_size_width(&self) -> (r: Dimension)
        ensures
            self@.props[Prop::MaxSizeWidth] == PropVal::Dimension(r),
    {
        self.rec.max_size_width
    }

    /// Write the `max_size_width` property and set its flag.
    pub fn set_max_size_width(&mut self, value: DimensionInput)
        ensures
            final(self)@.mask == old(self)@.mask | prop_mask(Prop::MaxSizeWidth),
            mask_has(final(self)@.mask, Prop::MaxSizeWidth),
            forall|q: Prop| q != Prop::MaxSizeWidth ==> #[trigger] mask_has(final(self)@.mask, q)
                == mask_has(old(self)@.mask, q),
            final(self)@.props == old(self)@.props.insert(Prop::MaxSizeWidth, PropVal::Dimension(value.spec_to_dimension())),
            old(self)@.wf() ==> final(self)@.wf(),
    {
        self.rec.max_size_width = value.to_dimension();
        self.set_fields = self.set_fields | mask_of(Prop::MaxSizeWidth);
        proof {
            lemma_mask_set(old(self).set_fields, Prop::MaxSizeWidth);
            assert(final(self)@.props =~= old(self)@.props.insert(Prop::MaxSizeWidth, PropVal::Dimension(value.spec_to_dimension())));
        }
    }

    /// Read the `max_size_height` property.
    pub fn get_max_size_height(&self) -> (r: Dimension)
        ensures
            self@.props[Prop::MaxSizeHeight] == PropVal::Dimension(r),
    {
        self.rec.max_size_height
    }

    /// Write the `max_size_height` property and set its flag.
    pub fn set_max_size_height(&mut self, value: DimensionInput)
        ensures
            final(self)@.mask == old(self)@.mask | prop_mask(Prop::MaxSizeHeight),
            mask_has(final(self)@.mask, Prop::MaxSizeHeight),
            forall|q: Prop| q != Prop::MaxSizeHeight ==> #[trigger] mask_has(final(self)@.mask, q)
                == mask_has(old(self)@.mask, q),
            final(self)@.props == old(self)@.props.insert(Prop::MaxSizeHeight, PropVal::Dimension(value.spec_to_dimension())),
            old(self)@.wf() ==> final(self)@.wf(),
    {
        self.rec.max_size_height = value.to_dimension();
        self.set_fields = self.set_fields | mask_of(Prop::MaxSizeHeight);
        proof {
            lemma_mask_set(old(self).set_fields, Prop::MaxSizeHeight);
            assert(final(self)@.props =~= old(self)@.props.insert(Prop::MaxSizeHeight, PropVal::Dimension(value.spec_to_dimension())));
        }
    }

    /// Read the `aspect_ratio` property.
    pub fn get_aspect_ratio(&self) -> (r: Option<u32>)
        ensures
            self@.props[Prop::AspectRatio] == PropVal::OptBits(r),
    {
        self.rec.aspect_ratio
    }

    /// Write the `aspect_ratio` property and set its flag.
    pub fn set_aspect_ratio(&mut self, value: Option<u32>)
        ensures
            final(self)@.mask == old(self)@.mask | prop_mask(Prop::AspectRatio),
            mask_has(final(self)@.mask, Prop::AspectRatio),
            forall|q: Prop| q != Prop::AspectRatio ==> #[trigger] mask_has(final(self)@.mask, q)
                == mask_has(old(self)@.mask, q),
            final(self)@.props == old(self)@.props.insert(Prop::AspectRatio, PropVal::OptBits(value)),
            old(self)@.wf() ==> final(self)@.wf(),
    {
        self.rec.aspect_ratio = value;
        self.set_fields = self.set_fields | mask_of(Prop::AspectRatio);
        proof {
            lemma_mask_set(old(self).set_fields, Prop::AspectRatio);
            assert(final(self)@.props =~= old(self)@.props.insert(Prop::AspectRatio, PropVal::OptBits(value)));
        }
    }

    /// Read the `margin_left` property.
    pub fn get_margin_left(&self) -> (r: LengthPercentageAuto)
        ensures
            self@.props[Prop::MarginLeft] == PropVal::LengthPercentageAuto(r),
    {
        self.rec.margin_left
    }

    /// Write the `margin_left` property and set its flag.
    pub fn set_margin_left(&mut self, value: LengthPercentageAutoInput)
        ensures
            final(self)@.mask == old(self)@.mask | prop_mask(Prop::MarginLeft),
            mask_has(final(self)@.mask, Prop::MarginLeft),
            forall|q: Prop| q != Prop::MarginLeft ==> #[trigger] mask_has(final(self)@.mask, q)
                == mask_has(old(self)@.mask, q),
            final(self)@.props == old(self)@.props.insert(Prop::MarginLeft, PropVal::LengthPercentageAuto(value.spec_to_lpa())),
            old(self)@.wf() ==> final(self)@.wf(),
    {
        self.rec.margin_left = value.to_lpa();
        self.set_fields = self.set_fields | mask_of(Prop::MarginLeft);
        proof {
            lemma_mask_set(old(self).set_fields, Prop::MarginLeft);
            assert(final(self)@.props =~= old(self)@.props.insert(Prop::MarginLeft, PropVal::LengthPercentageAuto(value.spec_to_lpa())));
        }
    }

    /// Read the `margin_right` property.
    pub fn get_margin_right(&self) -> (r: LengthPercentageAuto)
        ensures
            self@.props[Prop::MarginRight] == PropVal::LengthPercentageAuto(r),
    {
        self.rec.margin_right
    }

    /// Write the `margin_right` property and set its flag.
    pub fn set_margin_right(&mut self, value: LengthPercentageAutoInput)
        ensures
            final(self)@.mask == old(self)@.mask | prop_mask(Prop::MarginRight),
            mask_has(final(self)@.mask, Prop::MarginRight),
            forall|q: Prop| q != Prop::MarginRight ==> #[trigger] mask_has(final(self)@.mask, q)
                == mask_has(old(self)@.mask, q),
            final(self)@.props == old(self)@.props.insert(Prop::MarginRight, PropVal::LengthPercentageAuto(value.spec_to_lpa())),
            old(self)@.wf() ==> final(self)@.wf(),
    {
        self.rec.margin_right = value.to_lpa();
        self.set_fields = self.set_fields | mask_of(Prop::MarginRight);
        proof {
            lemma_mask_set(old(self).set_fields, Prop::MarginRight);
            assert(final(self)@.props =~= old(self)@.props.insert(Prop::MarginRight, PropVal::LengthPercentageAuto(value.spec_to_lpa())));
        }
    }

    /// Read the `margin_top` property.
    pub fn get_margin_top(&self) -> (r: LengthPercentageAuto)
        ensures
            self@.props[Prop::MarginTop] == PropVal::LengthPercentageAuto(r),
    {
        self.rec.margin_top
    }

    /// Write the `margin_top` property and set its flag.
    pub fn set_margin_top(&mut self, value: LengthPercentageAutoInput)
        ensures
            final(self)@.mask == old(self)@.mask | prop_mask(Prop::MarginTop),
            mask_has(final(self)@.mask, Prop::MarginTop),
            forall|q: Prop| q != Prop::MarginTop ==> #[trigger] mask_has(final(self)@.mask, q)
                == mask_has(old(self)@.mask, q),
            final(self)@.props == old(self)@.props.insert(Prop::MarginTop, PropVal::LengthPercentageAuto(value.spec_to_lpa())),
            old(self)@.wf() ==> final(self)@.wf(),
    {
        self.rec.margin_top = value.to_lpa();
        self.set_fields = self.set_fields | mask_of(Prop::MarginTop);
        proof {
            lemma_mask_set(old(self).set_fields, Prop::MarginTop);
            assert(final(self)@.props =~= old(self)@.props.insert(Prop::MarginTop, PropVal::LengthPercentageAuto(value.spec_to_lpa())));
        }
    }

    /// Read the `margin_bottom` property.
    pub fn get_margin_bottom(&self) -> (r: LengthPercentageAuto)
        ensures
            self@.props[Prop::MarginBottom] == PropVal::LengthPercentageAuto(r),
    {
        self.rec.margin_bottom
    }

    /// Write the `margin_bottom` property and set its flag.
    pub fn set_margin_bottom(&mut self, value: LengthPercentageAutoInput)
        ensures
            final(self)@.mask == old(self)@.mask | prop_mask(Prop::MarginBottom),
            mask_has(final(self)@.mask, Prop::MarginBottom),
            forall|q: Prop| q != Prop::MarginBottom ==> #[trigger] mask_has(final(self)@.mask, q)
                == mask_has(old(self)@.mask, q),
            final(self)@.props == old(self)@.props.insert(Prop::MarginBottom, PropVal::LengthPercentageAuto(value.spec_to_lpa())),
            old(self)@.wf() ==> final(self)@.wf(),
    {
        self.rec.margin_bottom = value.to_lpa();
        self.set_fields = self.set_fields | mask_of(Prop::MarginBottom);
        proof {
            lemma_mask_set(old(self).set_fields, Prop::MarginBottom);
            assert(final(self)@.props =~= old(self)@.props.insert(Prop::MarginBottom, PropVal::LengthPercentageAuto(value.spec_to_lpa())));
        }
    }

    /// Read the `padding_left` property.
    pub fn get_padding_left(&self) -> (r: LengthPercentage)
        ensures
            self@.props[Prop::PaddingLeft] == PropVal::LengthPercentage(r),
    {
        self.rec.padding_left
    }

    /// Write the `padding_left` property and set its flag.
    pub fn set_padding_left(&mut self, value: LengthPercentageInput)
        ensures
            final(self)@.mask == old(self)@.mask | prop_mask(Prop::PaddingLeft),
            mask_has(final(self)@.mask, Prop::PaddingLeft),
            forall|q: Prop| q != Prop::PaddingLeft ==> #[trigger] mask_has(final(self)@.mask, q)
                == mask_has(old(self)@.mask, q),
            final(self)@.props == old(self)@.props.insert(Prop::PaddingLeft, PropVal::LengthPercentage(value.spec_to_length_percentage())),
            old(self)@.wf() ==> final(self)@.wf(),
    {
        self.rec.padding_left = value.to_length_percentage();
        self.set_fields = self.set_fields | mask_of(Prop::PaddingLeft);
        proof {
            lemma_mask_set(old(self).set_fields, Prop::PaddingLeft);
            assert(final(self)@.props =~= old(self)@.props.insert(Prop::PaddingLeft, PropVal::LengthPercentage(value.spec_to_length_percentage())));
        }
    }

    /// Read the `padding_right` property.
    pub fn get_padding_right(&self) -> (r: LengthPercentage)
        ensures
            self@.props[Prop::PaddingRight] == PropVal::LengthPercentage(r),
    {
        self.rec.padding_right
    }

    /// Write the `padding_right` property and set its flag.
    pub fn set_padding_right(&mut self, value: LengthPercentageInput)
        ensures
            final(self)@.mask == old(self)@.mask | prop_mask(Prop::PaddingRight),
            mask_has(final(self)@.mask, Prop::PaddingRight),
            forall|q: Prop| q != Prop::PaddingRight ==> #[trigger] mask_has(final(self)@.mask, q)
                == mask_has(old(self)@.mask, q),
            final(self)@.props == old(self)@.props.insert(Prop::PaddingRight, PropVal::LengthPercentage(value.spec_to_length_percentage())),
            old(self)@.wf() ==> final(self)@.wf(),
    {
        self.rec.padding_right = value.to_length_percentage();
        self.set_fields = self.set_fields | mask_of(Prop::PaddingRight);
        proof {
            lemma_mask_set(old(self).set_fields, Prop::PaddingRight);
            assert(final(self)@.props =~= old(self)@.props.insert(Prop::PaddingRight, PropVal::LengthPercentage(value.spec_to_length_percentage())));
        }
    }

    /// Read the `padding_top` property.
    pub fn get_padding_top(&self) -> (r: LengthPercentage)
        ensures
            self@.props[Prop::PaddingTop] == PropVal::LengthPercentage(r),
    {
        self.rec.padding_top
    }

    /// Write the `padding_top` property and set its flag.
    pub fn set_padding_top(&mut self, value: LengthPercentageInput)
        ensures
            final(self)@.mask == old(self)@.mask | prop_mask(Prop::PaddingTop),
            mask_has(final(self)@.mask, Prop::PaddingTop),
            forall|q: Prop| q != Prop::PaddingTop ==> #[trigger] mask_has(final(self)@.mask, q)
                == mask_has(old(self)@.mask, q),
            final(self)@.props == old(self)@.props.insert(Prop::PaddingTop, PropVal::LengthPercentage(value.spec_to_length_percentage())),
            old(self)@.wf() ==> final(self)@.wf(),
    {
        self.rec.padding_top = value.to_length_percentage();
        self.set_fields = self.set_fields | mask_of(Prop::PaddingTop);
        proof {
            lemma_mask_set(old(self).set_fields, Prop::PaddingTop);
            assert(final(self)@.props =~= old(self)@.props.insert(Prop::PaddingTop, PropVal::LengthPercentage(value.spec_to_length_percentage())));
        }
    }

    /// Read the `padding_bottom` property.
    pub fn get_padding_bottom(&self) -> (r: LengthPercentage)
        ensures
            self@.props[Prop::PaddingBottom] == PropVal::LengthPercentage(r),
    {
        self.rec.padding_bottom
    }

    /// Write the `padding_bottom` property and set its flag.
    pub fn set_padding_bottom(&mut self, value: LengthPercentageInput)
        ensures
            final(self)@.mask == old(self)@.mask | prop_mask(Prop::PaddingBottom),
            mask_has(final(self)@.mask, Prop::PaddingBottom),
            forall|q: Prop| q != Prop::PaddingBottom ==> #[trigger] mask_has(final(self)@.mask, q)
                == mask_has(old(self)@.mask, q),
            final(self)@.props == old(self)@.props.insert(Prop::PaddingBottom, PropVal::LengthPercentage(value.spec_to_length_percentage())),
            old(self)@.wf() ==> final(self)@.wf(),
    {
        self.rec.padding_bottom = value.to_length_percentage();
        self.set_fields = self.set_fields | mask_of(Prop::PaddingBottom);
        proof {
            lemma_mask_set(old(self).set_fields, Prop::PaddingBottom);
            assert(final(self)@.props =~= old(self)@.props.insert(Prop::PaddingBottom, PropVal::LengthPercentage(value.spec_to_length_percentage())));
        }
    }

    /// Read the `border_left` property.
    pub fn get_border_left(&self) -> (r: LengthPercentage)
        ensures
            self@.props[Prop::BorderLeft] == PropVal::LengthPercentage(r),
    {
        self.rec.border_left
    }

    /// Write the `border_left` property and set its flag.
    pub fn set_border_left(&mut self, value: LengthPercentageInput)
        ensures
            final(self)@.mask == old(self)@.mask | prop_mask(Prop::BorderLeft),
            mask_has(final(self)@.mask, Prop::BorderLeft),
            forall|q: Prop| q != Prop::BorderLeft ==> #[trigger] mask_has(final(self)@.mask, q)
                == mask_has(old(self)@.mask, q),
            final(self)@.props == old(self)@.props.insert(Prop::BorderLeft, PropVal::LengthPercentage(value.spec_to_length_percentage())),
            old(self)@.wf() ==> final(self)@.wf(),
    {
        self.rec.border_left = value.to_length_percentage();
        self.set_fields = self.set_fields | mask_of(Prop::BorderLeft);
        proof {
            lemma_mask_set(old(self).set_fields, Prop::BorderLeft);
            assert(final(self)@.props =~= old(self)@.props.insert(Prop::BorderLeft, PropVal::LengthPercentage(value.spec_to_length_percentage())));
        }
    }

    /// Read the `border_right` property.
    pub fn get_border_right(&self) -> (r: LengthPercentage)
        ensures
            self@.props[Prop::BorderRight] == PropVal::LengthPercentage(r),
    {
        self.rec.border_right
    }

    /// Write the `border_right` property and set its flag.
    pub fn set_border_right(&mut self, value: LengthPercentageInput)
        ensures
            final(self)@.mask == old(self)@.mask | prop_mask(Prop::BorderRight),
            mask_has(final(self)@.mask, Prop::BorderRight),
            forall|q: Prop| q != Prop::BorderRight ==> #[trigger] mask_has(final(self)@.mask, q)
                == mask_has(old(self)@.mask, q),
            final(self)@.props == old(self)@.props.insert(Prop::BorderRight, PropVal::LengthPercentage(value.spec_to_length_percentage())),
            old(self)@.wf() ==> final(self)@.wf(),
    {
        self.rec.border_right = value.to_length_percentage();
        self.set_fields = self.set_fields | mask_of(Prop::BorderRight);
        proof {
            lemma_mask_set(old(self).set_fields, Prop::BorderRight);
            assert(final(self)@.props =~= old(self)@.props.insert(Prop::BorderRight, PropVal::LengthPercentage(value.spec_to_length_percentage())));
        }
    }

    /// Read the `border_top` property.
    pub fn get_border_top(&self) -> (r: LengthPercentage)
        ensures
            self@.props[Prop::BorderTop] == PropVal::LengthPercentage(r),
    {
        self.rec.border_top
    }

    /// Write the `border_top` property and set its flag.
    pub fn set_border_top(&mut self, value: LengthPercentageInput)
        ensures
            final(self)@.mask == old(self)@.mask | prop_mask(Prop::BorderTop),
            mask_has(final(self)@.mask, Prop::BorderTop),
            forall|q: Prop| q != Prop::BorderTop ==> #[trigger] mask_has(final(self)@.mask, q)
                == mask_has(old(self)@.mask, q),
            final(self)@.props == old(self)@.props.insert(Prop::BorderTop, PropVal::LengthPercentage(value.spec_to_length_percentage())),
            old(self)@.wf() ==> final(self)@.wf(),
    {
        self.rec.border_top = value.to_length_percentage();
        self.set_fields = self.set_fields | mask_of(Prop::BorderTop);
        proof {
            lemma_mask_set(old(self).set_fields, Prop::BorderTop);
            assert(final(self)@.props =~= old(self)@.props.insert(Prop::BorderTop, PropVal::LengthPercentage(value.spec_to_length_percentage())));
        }
    }

    /// Read the `border_bottom` property.
    pub fn get_border_bottom(&self) -> (r: LengthPercentage)
        ensures
            self@.props[Prop::BorderBottom] == PropVal::LengthPercentage(r),
    {
        self.rec.border_bottom
    }

    /// Write the `border_bottom` property and set its flag.
    pub fn set_border_bottom(&mut self, value: LengthPercentageInput)
        ensures
            final(self)@.mask == old(self)@.mask | prop_mask(Prop::BorderBottom),
            mask_has(final(self)@.mask, Prop::BorderBottom),
            forall|q: Prop| q != Prop::BorderBottom ==> #[trigger] mask_has(final(self)@.mask, q)
                == mask_has(old(self)@.mask, q),
            final(self)@.props == old(self)@.props.insert(Prop::BorderBottom, PropVal::LengthPercentage(value.spec_to_length_percentage())),
            old(self)@.wf() ==> final(self)@.wf(),
    {
        self.rec.border_bottom = value.to_length_percentage();
        self.set_fields = self.set_fields | mask_of(Prop::BorderBottom);
        proof {
            lemma_mask_set(old(self).set_fields, Prop::BorderBottom);
            assert(final(self)@.props =~= old(self)@.props.insert(Prop::BorderBottom, PropVal::LengthPercentage(value.spec_to_length_percentage())));
        }
    }

    /// Read the `align_items` property.
    pub fn get_align_items(&self) -> (r: Option<AlignItems>)
        ensures
            self@.props[Prop::AlignItems] == PropVal::AlignItems(r),
    {
        self.rec.align_items
    }

    /// Write the `align_items` property and set its flag.
    pub fn set_align_items(&mut self, value: Option<AlignItems>)
        ensures
            final(self)@.mask == old(self)@.mask | prop_mask(Prop::AlignItems),
            mask_has(final(self)@.mask, Prop::AlignItems),
            forall|q: Prop| q != Prop::AlignItems ==> #[trigger] mask_has(final(self)@.mask, q)
                == mask_has(old(self)@.mask, q),
            final(self)@.props == old(self)@.props.insert(Prop::AlignItems, PropVal::AlignItems(value)),
            old(self)@.wf() ==> final(self)@.wf(),
    {
        self.rec.align_items = value;
        self.set_fields = self.set_fields | mask_of(Prop::AlignItems);
        proof {
            lemma_mask_set(old(self).set_fields, Prop::AlignItems);
            assert(final(self)@.props =~= old(self)@.props.insert(Prop::AlignItems, PropVal::AlignItems(value)));
        }
    }

    /// Read the `align_self` property.
    pub fn get_align_self(&self) -> (r: Option<AlignItems>)
        ensures
            self@.props[Prop::AlignSelf] == PropVal::AlignItems(r),
    {
        self.rec.align_self
    }

    /// Write the `align_self` property and set its flag.
    pub fn set_align_self(&mut self, value: Option<AlignItems>)
        ensures
            final(self)@.mask == old(self)@.mask | prop_mask(Prop::AlignSelf),
            mask_has(final(self)@.mask, Prop::AlignSelf),
            forall|q: Prop| q != Prop::AlignSelf ==> #[trigger] mask_has(final(self)@.mask, q)
                == mask_has(old(self)@.mask, q),
            final(self)@.props == old(self)@.props.insert(Prop::AlignSelf, PropVal::AlignItems(value)),
            old(self)@.wf() ==> final(self)@.wf(),
    {
        self.rec.align_self = value;
        self.set_fields = self.set_fields | mask_of(Prop::AlignSelf);
        proof {
            lemma_mask_set(old(self).set_fields, Prop::AlignSelf);
            assert(final(self)@.props =~= old(self)@.props.insert(Prop::AlignSelf, PropVal::AlignItems(value)));
        }
    }

    /// Read the `justify_items` property.
    pub fn get_justify_items(&self) -> (r: Option<AlignItems>)
        ensures
            self@.props[Prop::JustifyItems] == PropVal::AlignItems(r),
    {
        self.rec.justify_items
    }

    /// Write the `justify_items` property and set its flag.
    pub fn set_justify_items(&mut self, value: Option<AlignItems>)
        ensures
            final(self)@.mask == old(self)@.mask | prop_mask(Prop::JustifyItems),
            mask_has(final(self)@.mask, Prop::JustifyItems),
            forall|q: Prop| q != Prop::JustifyItems ==> #[trigger] mask_has(final(self)@.mask, q)
                == mask_has(old(self)@.mask, q),
            final(self)@.props == old(self)@.props.insert(Prop::JustifyItems, PropVal::AlignItems(value)),
            old(self)@.wf() ==> final(self)@.wf(),
    {
        self.rec.justify_items = value;
        self.set_fields = self.set_fields | mask_of(Prop::JustifyItems);
        proof {
            lemma_mask_set(old(self).set_fields, Prop::JustifyItems);
            assert(final(self)@.props =~= old(self)@.props.insert(Prop::JustifyItems, PropVal::AlignItems(value)));
        }
    }

    /// Read the `justify_self` property.
    pub fn get_justify_self(&self) -> (r: Option<AlignItems>)
        ensures
            self@.props[Prop::JustifySelf] == PropVal::AlignItems(r),
    {
        self.rec.justify_self
    }

    /// Write the `justify_self` property and set its flag.
    pub fn set_justify_self(&mut self, value: Option<AlignItems>)
        ensures
            final(self)@.mask == old(self)@.mask | prop_mask(Prop::JustifySelf),
            mask_has(final(self)@.mask, Prop::JustifySelf),
            forall|q: Prop| q != Prop::JustifySelf ==> #[trigger] mask_has(final(self)@.mask, q)
                == mask_has(old(self)@.mask, q),
            final(self)@.props == old(self)@.props.insert(Prop::JustifySelf, PropVal::AlignItems(value)),
            old(self)@.wf() ==> final(self)@.wf(),
    {
        self.rec.justify_self = value;
        self.set_fields = self.set_fields | mask_of(Prop::JustifySelf);
        proof {
            lemma_mask_set(old(self).set_fields, Prop::JustifySelf);
            assert(final(self)@.props =~= old(self)@.props.insert(Prop::JustifySelf, PropVal::AlignItems(value)));
        }
    }

    /// Read the `align_content` property.
    pub fn get_align_content(&self) -> (r: Option<AlignContent>)
        ensures
            self@.props[Prop::AlignContent] == PropVal::AlignContent(r),
    {
        self.rec.align_content
    }

    /// Write the `align_content` property and set its flag.
    pub fn set_align_content(&mut self, value: Option<AlignContent>)
        ensures
            final(self)@.mask == old(self)@.mask | prop_mask(Prop::AlignContent),
            mask_has(final(self)@.mask, Prop::AlignContent),
            forall|q: Prop| q != Prop::AlignContent ==> #[trigger] mask_has(final(self)@.mask, q)
                == mask_has(old(self)@.mask, q),
            final(self)@.props == old(self)@.props.insert(Prop::AlignContent, PropVal::AlignContent(value)),
            old(self)@.wf() ==> final(self)@.wf(),
    {
        self.rec.align_content = value;
        self.set_fields = self.set_fields | mask_of(Prop::AlignContent);
        proof {
            lemma_mask_set(old(self).set_fields, Prop::AlignContent);
            assert(final(self)@.props =~= old(self)@.props.insert(Prop::AlignContent, PropVal::AlignContent(value)));
        }
    }

    /// Read the `justify_content` property.
    pub fn get_justify_content(&self) -> (r: Option<AlignContent>)
        ensures
            self@.props[Prop::JustifyContent] == PropVal::AlignContent(r),
    {
        self.rec.justify_content
    }

    /// Write the `justify_content` property and set its flag.
    pub fn set_justify_content(&mut self, value: Option<AlignContent>)
        ensures
            final(self)@.mask == old(self)@.mask | prop_mask(Prop::JustifyContent),
            mask_has(final(self)@.mask, Prop::JustifyContent),
            forall|q: Prop| q != Prop::JustifyContent ==> #[trigger] mask_has(final(self)@.mask, q)
                == mask_has(old(self)@.mask, q),
            final(self)@.props == old(self)@.props.insert(Prop::JustifyContent, PropVal::AlignContent(value)),
            old(self)@.wf() ==> final(self)@.wf(),
    {
        self.rec.justify_content = value;
        self.set_fields = self.set_fields | mask_of(Prop::JustifyContent);
        proof {
            lemma_mask_set(old(self).set_fields, Prop::JustifyContent);
            assert(final(self)@.props =~= old(self)@.props.insert(Prop::JustifyContent, PropVal::AlignContent(value)));
        }
    }

    /// Read the `gap_width` property.
    pub fn get_gap_width(&self) -> (r: LengthPercentage)
        ensures
            self@.props[Prop::GapWidth] == PropVal::LengthPercentage(r),
    {
        self.rec.gap_width
    }

    /// Write the `gap_width` property and set its flag.
    pub fn set_gap_width(&mut self, value: LengthPercentageInput)
        ensures
            final(self)@.mask == old(self)@.mask | prop_mask(Prop::GapWidth),
            mask_has(final(self)@.mask, Prop::GapWidth),
            forall|q: Prop| q != Prop::GapWidth ==> #[trigger] mask_has(final(self)@.mask, q)
                == mask_has(old(self)@.mask, q),
            final(self)@.props == old(self)@.props.insert(Prop::GapWidth, PropVal::LengthPercentage(value.spec_to_length_percentage())),
            old(self)@.wf() ==> final(self)@.wf(),
    {
        self.rec.gap_width = value.to_length_percentage();
        self.set_fields = self.set_fields | mask_of(Prop::GapWidth);
        proof {
            lemma_mask_set(old(self).set_fields, Prop::GapWidth);
            assert(final(self)@.props =~= old(self)@.props.insert(Prop::GapWidth, PropVal::LengthPercentage(value.spec_to_length_percentage())));
        }
    }

    /// Read the `gap_height` property.
    pub fn get_gap_height(&self) -> (r: LengthPercentage)
        ensures
            self@.props[Prop::GapHeight] == PropVal::LengthPercentage(r),
    {
        self.rec.gap_height
    }

    /// Write the `gap_height` property and set its flag.
    pub fn set_gap_height(&mut self, value: LengthPercentageInput)
        ensures
            final(self)@.mask == old(self)@.mask | prop_mask(Prop::GapHeight),
            mask_has(final(self)@.mask, Prop::GapHeight),
            forall|q: Prop| q != Prop::GapHeight ==> #[trigger] mask_has(final(self)@.mask, q)
                == mask_has(old(self)@.mask, q),
            final(self)@.props == old(self)@.props.insert(Prop::GapHeight, PropVal::LengthPercentage(value.spec_to_length_percentage())),
            old(self)@.wf() ==> final(self)@.wf(),
    {
        self.rec.gap_height = value.to_length_percentage();
        self.set_fields = self.set_fields | mask_of(Prop::GapHeight);
        proof {
            lemma_mask_set(old(self).set_fields, Prop::GapHeight);
            assert(final(self)@.props =~= old(self)@.props.insert(Prop::GapHeight, PropVal::LengthPercentage(value.spec_to_length_percentage())));
        }
    }

    /// Read the `text_align` property.
    pub fn get_text_align(&self) -> (r: TextAlign)
        ensures
            self@.props[Prop::TextAlign] == PropVal::TextAlign(r),
    {
        self.rec.text_align
    }

    /// Write the `text_align` property and set its flag.
    pub fn set_text_align(&mut self, value: TextAlign)
        ensures
            final(self)@.mask == old(self)@.mask | prop_mask(Prop::TextAlign),
            mask_has(final(self)@.mask, Prop::TextAlign),
            forall|q: Prop| q != Prop::TextAlign ==> #[trigger] mask_has(final(self)@.mask, q)
                == mask_has(old(self)@.mask, q),
            final(self)@.props == old(self)@.props.insert(Prop::TextAlign, PropVal::TextAlign(value)),
            old(self)@.wf() ==> final(self)@.wf(),
    {
        self.rec.text_align = value;
        self.set_fields = self.set_fields | mask_of(Prop::TextAlign);
        proof {
            lemma_mask_set(old(self).set_fields, Prop::TextAlign);
            assert(final(self)@.props =~= old(self)@.props.insert(Prop::TextAlign, PropVal::TextAlign(value)));
        }
    }

    /// Read the `flex_direction` property.
    pub fn get_flex_direction(&self) -> (r: FlexDirection)
        ensures
            self@.props[Prop::FlexDirection] == PropVal::FlexDirection(r),
    {
        self.rec.flex_direction
    }

    /// Write the `flex_direction` property and set its flag.
    pub fn set_flex_direction(&mut self, value: FlexDirection)
        ensures
            final(self)@.mask == old(self)@.mask | prop_mask(Prop::FlexDirection),
            mask_has(final(self)@.mask, Prop::FlexDirection),
            forall|q: Prop| q != Prop::FlexDirection ==> #[trigger] mask_has(final(self)@.mask, q)
                == mask_has(old(self)@.mask, q),
            final(self)@.props == old(self)@.props.insert(Prop::FlexDirection, PropVal::FlexDirection(value)),
            old(self)@.wf() ==> final(self)@.wf(),
    {
        self.rec.flex_direction = value;
        self.set_fields = self.set_fields | mask_of(Prop::FlexDirection);
        proof {
            lemma_mask_set(old(self).set_fields, Prop::FlexDirection);
            assert(final(self)@.props =~= old(self)@.props.insert(Prop::FlexDirection, PropVal::FlexDirection(value)));
        }
    }

    /// Read the `flex_wrap` property.
    pub fn get_flex_wrap(&self) -> (r: FlexWrap)
        ensures
            self@.props[Prop::FlexWrap] == PropVal::FlexWrap(r),
    {
        self.rec.flex_wrap
    }

    /// Write the `flex_wrap` property and set its flag.
    pub fn set_flex_wrap(&mut self, value: FlexWrap)
        ensures
            final(self)@.mask == old(self)@.mask | prop_mask(Prop::FlexWrap),
            mask_has(final(self)@.mask, Prop::FlexWrap),
            forall|q: Prop| q != Prop::FlexWrap ==> #[trigger] mask_has(final(self)@.mask, q)
                == mask_has(old(self)@.mask, q),
            final(self)@.props == old(self)@.props.insert(Prop::FlexWrap, PropVal::FlexWrap(value)),
            old(self)@.wf() ==> final(self)@.wf(),
    {
        self.rec.flex_wrap = value;
        self.set_fields = self.set_fields | mask_of(Prop::FlexWrap);
        proof {
            lemma_mask_set(old(self).set_fields, Prop::FlexWrap);
            assert(final(self)@.props =~= old(self)@.props.insert(Prop::FlexWrap, PropVal::FlexWrap(value)));
        }
    }

    /// Read the `flex_basis` property.
    pub fn get_flex_basis(&self) -> (r: Dimension)
        ensures
            self@.props[Prop::FlexBasis] == PropVal::Dimension(r),
    {
        self.rec.flex_basis
    }

    /// Write the `flex_basis` property and set its flag.
    pub fn set_flex_basis(&mut self, value: DimensionInput)
        ensures
            final(self)@.mask == old(self)@.mask | prop_mask(Prop::FlexBasis),
            mask_has(final(self)@.mask, Prop::FlexBasis),
            forall|q: Prop| q != Prop::FlexBasis ==> #[trigger] mask_has(final(self)@.mask, q)
                == mask_has(old(self)@.mask, q),
            final(self)@.props == old(self)@.props.insert(Prop::FlexBasis, PropVal::Dimension(value.spec_to_dimension())),
            old(self)@.wf() ==> final(self)@.wf(),
    {
        self.rec.flex_basis = value.to_dimension();
        self.set_fields = self.set_fields | mask_of(Prop::FlexBasis);
        proof {
            lemma_mask_set(old(self).set_fields, Prop::FlexBasis);
            assert(final(self)@.props =~= old(self)@.props.insert(Prop::FlexBasis, PropVal::Dimension(value.spec_to_dimension())));
        }
    }

    /// Read the `flex_grow` property.
    pub fn get_flex_grow(&self) -> (r: u32)
        ensures
            self@.props[Prop::FlexGrow] == PropVal::Bits(r),
    {
        self.rec.flex_grow
    }

    /// Write the `flex_grow` property and set its flag.
    pub fn set_flex_grow(&mut self, value: u32)
        ensures
            final(self)@.mask == old(self)@.mask | prop_mask(Prop::FlexGrow),
            mask_has(final(self)@.mask, Prop::FlexGrow),
            forall|q: Prop| q != Prop::FlexGrow ==> #[trigger] mask_has(final(self)@.mask, q)
                == mask_has(old(self)@.mask, q),
            final(self)@.props == old(self)@.props.insert(Prop::FlexGrow, PropVal::Bits(value)),
            old(self)@.wf() ==> final(self)@.wf(),
    {
        self.rec.flex_grow = value;
        self.set_fields = self.set_fields | mask_of(Prop::FlexGrow);
        proof {
            lemma_mask_set(old(self).set_fields, Prop::FlexGrow);
            assert(final(self)@.props =~= old(self)@.props.insert(Prop::FlexGrow, PropVal::Bits(value)));
        }
    }

    /// Read the `flex_shrink` property.
    pub fn get_flex_shrink(&self) -> (r: u32)
        ensures
            self@.props[Prop::FlexShrink] == PropVal::Bits(r),
    {
        self.rec.flex_shrink
    }

    /// Write the `flex_shrink` property and set its flag.
    pub fn set_flex_shrink(&mut self, value: u32)
        ensures
            final(self)@.mask == old(self)@.mask | prop_mask(Prop::FlexShrink),
            mask_has(final(self)@.mask, Prop::FlexShrink),
            forall|q: Prop| q != Prop::FlexShrink ==> #[trigger] mask_has(final(self)@.mask, q)
                == mask_has(old(self)@.mask, q),
            final(self)@.props == old(self)@.props.insert(Prop::FlexShrink, PropVal::Bits(value)),
            old(self)@.wf() ==> final(self)@.wf(),
    {
        self.rec.flex_shrink = value;
        self.set_fields = self.set_fields | mask_of(Prop::FlexShrink);
        proof {
            lemma_mask_set(old(self).set_fields, Prop::FlexShrink);
            assert(final(self)@.props =~= old(self)@.props.insert(Prop::FlexShrink, PropVal::Bits(value)));
        }
    }

    /// Read the `grid_template_rows` property.
    pub fn get_grid_template_rows(&self) -> (r: Vec<GridTrack>)
        ensures
            self@.props[Prop::GridTemplateRows] == PropVal::Tracks(r@),
    {
        clone_tracks(&self.rec.grid_template_rows)
    }

    /// Write the `grid_template_rows` property and set its flag.
    pub fn set_grid_template_rows(&mut self, value: Vec<GridTrack>)
        ensures
            final(self)@.mask == old(self)@.mask | prop_mask(Prop::GridTemplateRows),
            mask_has(final(self)@.mask, Prop::GridTemplateRows),
            forall|q: Prop| q != Prop::GridTemplateRows ==> #[trigger] mask_has(final(self)@.mask, q)
                == mask_has(old(self)@.mask, q),
            final(self)@.props == old(self)@.props.insert(Prop::GridTemplateRows, PropVal::Tracks(value@)),
            old(self)@.wf() ==> final(self)@.wf(),
    {
        self.rec.grid_template_rows = value;
        self.set_fields = self.set_fields | mask_of(Prop::GridTemplateRows);
        proof {
            lemma_mask_set(old(self).set_fields, Prop::GridTemplateRows);
            assert(final(self)@.props =~= old(self)@.props.insert(Prop::GridTemplateRows, PropVal::Tracks(value@)));
        }
    }

    /// Read the `grid_template_columns` property.
    pub fn get_grid_template_columns(&self) -> (r: Vec<GridTrack>)
        ensures
            self@.props[Prop::GridTemplateColumns] == PropVal::Tracks(r@),
    {
        clone_tracks(&self.rec.grid_template_columns)
    }

    /// Write the `grid_template_columns` property and set its flag.
    pub fn set_grid_template_columns(&mut self, value: Vec<GridTrack>)
        ensures
            final(self)@.mask == old(self)@.mask | prop_mask(Prop::GridTemplateColumns),
            mask_has(final(self)@.mask, Prop::GridTemplateColumns),
            forall|q: Prop| q != Prop::GridTemplateColumns ==> #[trigger] mask_has(final(self)@.mask, q)
                == mask_has(old(self)@.mask, q),
            final(self)@.props == old(self)@.props.insert(Prop::GridTemplateColumns, PropVal::Tracks(value@)),
            old(self)@.wf() ==> final(self)@.wf(),
    {
        self.rec.grid_template_columns = value;
        self.set_fields = self.set_fields | mask_of(Prop::GridTemplateColumns);
        proof {
            lemma_mask_set(old(self).set_fields, Prop::GridTemplateColumns);
            assert(final(self)@.props =~= old(self)@.props.insert(Prop::GridTemplateColumns, PropVal::Tracks(value@)));
        }
    }

    /// Read the `grid_auto_rows` property.
    pub fn get_grid_auto_rows(&self) -> (r: Vec<GridTrack>)
        ensures
            self@.props[Prop::GridAutoRows] == PropVal::Tracks(r@),
    {
        clone_tracks(&self.rec.grid_auto_rows)
    }

    /// Write the `grid_auto_rows` property and set its flag.
    pub fn set_grid_auto_rows(&mut self, value: Vec<GridTrack>)
        ensures
            final(self)@.mask == old(self)@.mask | prop_mask(Prop::GridAutoRows),
            mask_has(final(self)@.mask, Prop::GridAutoRows),
            forall|q: Prop| q != Prop::GridAutoRows ==> #[trigger] mask_has(final(self)@.mask, q)
                == mask_has(old(self)@.mask, q),
            final(self)@.props == old(self)@.props.insert(Prop::GridAutoRows, PropVal::Tracks(value@)),
            old(self)@.wf() ==> final(self)@.wf(),
    {
        self.rec.grid_auto_rows = value;
        self.set_fields = self.set_fields | mask_of(Prop::GridAutoRows);
        proof {
            lemma_mask_set(old(self).set_fields, Prop::GridAutoRows);
            assert(final(self)@.props =~= old(self)@.props.insert(Prop::GridAutoRows, PropVal::Tracks(value@)));
        }
    }

    /// Read the `grid_auto_columns` property.
    pub fn get_grid_auto_columns(&self) -> (r: Vec<GridTrack>)
        ensures
            self@.props[Prop::GridAutoColumns] == PropVal::Tracks(r@),
    {
        clone_tracks(&self.rec.grid_auto_columns)
    }

    /// Write the `grid_auto_columns` property and set its flag.
    pub fn set_grid_auto_columns(&mut self, value: Vec<GridTrack>)
        ensures
            final(self)@.mask == old(self)@.mask | prop_mask(Prop::GridAutoColumns),
            mask_has(final(self)@.mask, Prop::GridAutoColumns),
            forall|q: Prop| q != Prop::GridAutoColumns ==> #[trigger] mask_has(final(self)@.mask, q)
                == mask_has(old(self)@.mask, q),
            final(self)@.props == old(self)@.props.insert(Prop::GridAutoColumns, PropVal::Tracks(value@)),
            old(self)@.wf() ==> final(self)@.wf(),
    {
        self.rec.grid_auto_columns = value;
        self.set_fields = self.set_fields | mask_of(Prop::GridAutoColumns);
        proof {
            lemma_mask_set(old(self).set_fields, Prop::GridAutoColumns);
            assert(final(self)@.props =~= old(self)@.props.insert(Prop::GridAutoColumns, PropVal::Tracks(value@)));
        }
    }

    /// Read the `grid_auto_flow` property.
    pub fn get_grid_auto_flow(&self) -> (r: GridAutoFlow)
        ensures
            self@.props[Prop::GridAutoFlow] == PropVal::GridAutoFlow(r),
    {
        self.rec.grid_auto_flow
    }

    /// Write the `grid_auto_flow` property and set its flag.
    pub fn set_grid_auto_flow(&mut self, value: GridAutoFlow)
        ensures
            final(self)@.mask == old(self)@.mask | prop_mask(Prop::GridAutoFlow),
            mask_has(final(self)@.mask, Prop::GridAutoFlow),
            forall|q: Prop| q != Prop::GridAutoFlow ==> #[trigger] mask_has(final(self)@.mask, q)
                == mask_has(old(self)@.mask, q),
            final(self)@.props == old(self)@.props.insert(Prop::GridAutoFlow, PropVal::GridAutoFlow(value)),
            old(self)@.wf() ==> final(self)@.wf(),
    {
        self.rec.grid_auto_flow = value;
        self.set_fields = self.set_fields | mask_of(Prop::GridAutoFlow);
        proof {
            lemma_mask_set(old(self).set_fields, Prop::GridAutoFlow);
            assert(final(self)@.props =~= old(self)@.props.insert(Prop::GridAutoFlow, PropVal::GridAutoFlow(value)));
        }
    }

    /// Read the `grid_row` property.
    pub fn get_grid_row(&self) -> (r: GridLine)
        ensures
            self@.props[Prop::GridRow] == PropVal::Placement(r),
    {
        self.rec.grid_row
    }

    /// Write the `grid_row` property and set its flag.
    pub fn set_grid_row(&mut self, value: GridLine)
        ensures
            final(self)@.mask == old(self)@.mask | prop_mask(Prop::GridRow),
            mask_has(final(self)@.mask, Prop::GridRow),
            forall|q: Prop| q != Prop::GridRow ==> #[trigger] mask_has(final(self)@.mask, q)
                == mask_has(old(self)@.mask, q),
            final(self)@.props == old(self)@.props.insert(Prop::GridRow, PropVal::Placement(value)),
            old(self)@.wf() ==> final(self)@.wf(),
    {
        self.rec.grid_row = value;
        self.set_fields = self.set_fields | mask_of(Prop::GridRow);
        proof {
            lemma_mask_set(old(self).set_fields, Prop::GridRow);
            assert(final(self)@.props =~= old(self)@.props.insert(Prop::GridRow, PropVal::Placement(value)));
        }
    }

    /// Read the `grid_column` property.
    pub fn get_grid_column(&self) -> (r: GridLine)
        ensures
            self@.props[Prop::GridColumn] == PropVal::Placement(r),
    {
        self.rec.grid_column
    }

    /// Write the `grid_column` property and set its flag.
    pub fn set_grid_column(&mut self, value: GridLine)
        ensures
            final(self)@.mask == old(self)@.mask | prop_mask(Prop::GridColumn),
            mask_has(final(self)@.mask, Prop::GridColumn),
            forall|q: Prop| q != Prop::GridColumn ==> #[trigger] mask_has(final(self)@.mask, q)
                == mask_has(old(self)@.mask, q),
            final(self)@.props == old(self)@.props.insert(Prop::GridColumn, PropVal::Placement(value)),
            old(self)@.wf() ==> final(self)@.wf(),
    {
        self.rec.grid_column = value;
        self.set_fields = self.set_fields | mask_of(Prop::GridColumn);
        proof {
            lemma_mask_set(old(self).set_fields, Prop::GridColumn);
            assert(final(self)@.props =~= old(self)@.props.insert(Prop::GridColumn, PropVal::Placement(value)));
        }
    }
}

} // verus!
