use waxy::compact::{
    dimension_to_word, pack, track_max_to_word, track_min_to_word, track_to_value, word_bits,
    word_tag, word_to_dimension, word_to_track_max, AUTO_TAG, FIT_CONTENT_PERCENT_TAG,
    FIT_CONTENT_PX_TAG, FR_TAG, LENGTH_TAG, MAX_CONTENT_TAG, MIN_CONTENT_TAG, PERCENT_TAG,
};
use waxy::dimensions::Dimension;
use waxy::enums::{Display, Position};
use waxy::errors::{classify_panic, contains_str, PanicKind, WaxyError};
use waxy::grid::{GridTrack, GridTrackMax, GridTrackMin};
use waxy::measure::{measure_decision, resolve_layout_outcome, LayoutFailure, MeasureDecision};
use waxy::style::{mask_of, Prop, Style, StyleOptions};
use taffy::style::CompactLength;
use waxy::values::{
    Auto, DimensionInput, FitContent, Fraction, GridLine, GridSpan, GridTrackInput,
    GridTrackMaxInput, GridTrackMinInput, Length, LengthPercentageInput, MaxContent, MinContent,
    Minmax, Percent,
};

#[test]
fn percent_accepts_unit_range() {
    assert_eq!(
        Percent::new(0.0f32.to_bits()),
        Ok(Percent { bits: 0.0f32.to_bits() })
    );
    assert_eq!(
        Percent::new(0.5f32.to_bits()),
        Ok(Percent { bits: 0.5f32.to_bits() })
    );
    assert_eq!(
        Percent::new(1.0f32.to_bits()),
        Ok(Percent { bits: 1.0f32.to_bits() })
    );
    assert_eq!(
        Percent::new((-0.0f32).to_bits()),
        Ok(Percent { bits: (-0.0f32).to_bits() })
    );
}

#[test]
fn percent_rejects_out_of_range() {
    let bad = 1.5f32.to_bits();
    assert_eq!(Percent::new(bad), Err(WaxyError::InvalidPercent { bits: bad }));
    let neg = (-0.25f32).to_bits();
    assert_eq!(Percent::new(neg), Err(WaxyError::InvalidPercent { bits: neg }));
    let nan = f32::NAN.to_bits();
    assert_eq!(Percent::new(nan), Err(WaxyError::InvalidPercent { bits: nan }));
    let inf = f32::INFINITY.to_bits();
    assert_eq!(Percent::new(inf), Err(WaxyError::InvalidPercent { bits: inf }));
}

#[test]
fn length_rejects_nan_only() {
    let nan = f32::NAN.to_bits();
    assert_eq!(Length::new(nan), Err(WaxyError::InvalidLength { bits: nan }));
    let neg = (-3.5f32).to_bits();
    assert_eq!(Length::new(neg), Ok(Length { bits: neg }));
    let inf = f32::INFINITY.to_bits();
    assert_eq!(Length::new(inf), Ok(Length { bits: inf }));
}

#[test]
fn grid_line_and_span_reject_zero() {
    assert_eq!(GridLine::new(0), Err(WaxyError::InvalidGridLine));
    assert_eq!(GridLine::new(3), Ok(GridLine { index: 3 }));
    assert_eq!(GridLine::new(-2), Ok(GridLine { index: -2 }));
    assert_eq!(GridSpan::new(0), Err(WaxyError::InvalidGridSpan));
    assert_eq!(GridSpan::new(2), Ok(GridSpan { count: 2 }));
}

#[test]
fn error_predicates() {
    assert!(WaxyError::InvalidPercent { bits: 0 }.invalid_value());
    assert!(WaxyError::InvalidGridSpan.invalid_value());
    assert!(!WaxyError::InvalidNodeId { id: 1 }.invalid_value());
    assert!(WaxyError::InvalidNodeId { id: 1 }.missing_key());
    assert!(WaxyError::ChildIndexOutOfBounds { child_index: 4, child_count: 2 }.structural());
}

#[test]
fn merge_overlay_wins_and_masks_union() {
    let mut base_opts = StyleOptions::new();
    base_opts.display = Some(Display::Grid);
    base_opts.position = Some(Position::Absolute);
    base_opts.flex_grow = Some(2.0f32.to_bits());
    let base = Style::new(base_opts);

    let mut overlay_opts = StyleOptions::new();
    overlay_opts.display = Some(Display::Flex);
    let overlay = Style::new(overlay_opts);

    let merged = base.merge(&overlay);
    assert_eq!(merged.get_display(), Display::Flex);
    assert_eq!(merged.get_position(), Position::Absolute);
    assert_eq!(merged.get_flex_grow(), 2.0f32.to_bits());
    assert_eq!(merged.set_fields(), base.set_fields() | overlay.set_fields());
    assert_eq!(
        merged.set_fields(),
        mask_of(Prop::Display) | mask_of(Prop::Position) | mask_of(Prop::FlexGrow)
    );
}

#[test]
fn unset_property_reads_default() {
    let s = Style::new(StyleOptions::new());
    assert_eq!(s.get_display(), Display::Flex);
    assert_eq!(s.get_flex_shrink(), 1.0f32.to_bits());
    assert_eq!(s.get_flex_grow(), 0.0f32.to_bits());
    assert_eq!(s.get_size_width(), Dimension::Auto);
    assert_eq!(s.set_fields(), 0);
    assert!(!s.is_set(Prop::Display));
}

#[test]
fn writing_the_default_still_sets_the_flag() {
    let mut s = Style::new(StyleOptions::new());
    assert!(!s.is_set(Prop::FlexShrink));
    s.set_flex_shrink(1.0f32.to_bits());
    assert!(s.is_set(Prop::FlexShrink));
    assert_eq!(s.get_flex_shrink(), 1.0f32.to_bits());
}

#[test]
fn alignment_explicit_unset_sets_the_flag() {
    let mut opts = StyleOptions::new();
    opts.align_items = Some(None);
    opts.aspect_ratio = Some(None);
    let s = Style::new(opts);
    assert!(s.is_set(Prop::AlignItems));
    assert!(s.is_set(Prop::AspectRatio));
    assert_eq!(s.get_align_items(), None);
    assert_eq!(s.get_aspect_ratio(), None);
    assert!(!s.is_set(Prop::AlignSelf));
}

#[test]
fn merge_is_associative_on_samples() {
    let mut a_opts = StyleOptions::new();
    a_opts.display = Some(Display::Grid);
    a_opts.flex_grow = Some(1.0f32.to_bits());
    let a = Style::new(a_opts);
    let mut b_opts = StyleOptions::new();
    b_opts.display = Some(Display::Block);
    b_opts.position = Some(Position::Absolute);
    let b = Style::new(b_opts);
    let mut c_opts = StyleOptions::new();
    c_opts.position = Some(Position::Relative);
    c_opts.flex_shrink = Some(0.5f32.to_bits());
    let c = Style::new(c_opts);

    let left = a.merge(&b).merge(&c);
    let right = a.merge(&b.merge(&c));
    assert_eq!(left, right);
}

#[test]
fn from_record_sets_all_flags() {
    let mut opts = StyleOptions::new();
    opts.display = Some(Display::Grid);
    let s = Style::new(opts);
    let rebuilt = Style::from_record(s.rec.clone());
    assert_eq!(rebuilt.set_fields(), u64::MAX);
    assert!(rebuilt.is_set(Prop::GapWidth));
    assert_eq!(rebuilt.get_display(), Display::Grid);
}

#[test]
fn compact_tags_match_engine() {
    assert_eq!(LENGTH_TAG, CompactLength::LENGTH_TAG as u64);
    assert_eq!(PERCENT_TAG, CompactLength::PERCENT_TAG as u64);
    assert_eq!(AUTO_TAG, CompactLength::AUTO_TAG as u64);
    assert_eq!(FR_TAG, CompactLength::FR_TAG as u64);
    assert_eq!(MIN_CONTENT_TAG, CompactLength::MIN_CONTENT_TAG as u64);
    assert_eq!(MAX_CONTENT_TAG, CompactLength::MAX_CONTENT_TAG as u64);
    assert_eq!(FIT_CONTENT_PX_TAG, CompactLength::FIT_CONTENT_PX_TAG as u64);
    assert_eq!(
        FIT_CONTENT_PERCENT_TAG,
        CompactLength::FIT_CONTENT_PERCENT_TAG as u64
    );
}

#[test]
fn compact_words_match_engine_encoding() {
    let d = taffy::Dimension::length(42.5);
    let raw = d.into_raw();
    let word = dimension_to_word(&Dimension::Length { bits: 42.5f32.to_bits() });
    assert_eq!(word_tag(word), raw.tag() as u64);
    assert_eq!(word_bits(word), raw.value().to_bits());

    let p = taffy::Dimension::percent(0.25);
    let praw = p.into_raw();
    let pword = dimension_to_word(&Dimension::Percent { bits: 0.25f32.to_bits() });
    assert_eq!(word_tag(pword), praw.tag() as u64);
    assert_eq!(word_bits(pword), praw.value().to_bits());

    let fr = taffy::style::MaxTrackSizingFunction::fr(2.0);
    let fraw = fr.into_raw();
    let fword = track_max_to_word(&GridTrackMax::Fraction { bits: 2.0f32.to_bits() });
    assert_eq!(word_tag(fword), fraw.tag() as u64);
    assert_eq!(word_bits(fword), fraw.value().to_bits());

    let mc = taffy::style::MinTrackSizingFunction::min_content();
    let mword = track_min_to_word(&GridTrackMin::MinContent);
    assert_eq!(word_tag(mword), mc.into_raw().tag() as u64);
}

#[test]
fn word_decode_inverts_encode() {
    let d = Dimension::Length { bits: 7.5f32.to_bits() };
    assert_eq!(word_to_dimension(dimension_to_word(&d)), d);
    let m = GridTrackMax::FitContentPercent { bits: 0.5f32.to_bits() };
    assert_eq!(word_to_track_max(track_max_to_word(&m)), m);
    // An unknown tag decodes to the automatic value.
    assert_eq!(word_to_dimension(pack(0xAB, 3)), Dimension::Auto);
}

#[test]
fn style_defaults_match_engine_defaults() {
    let engine: taffy::Style = taffy::Style::default();
    let s = Style::new(StyleOptions::new());
    assert_eq!(s.get_scrollbar_width(), engine.scrollbar_width.to_bits());
    assert_eq!(s.get_flex_grow(), engine.flex_grow.to_bits());
    assert_eq!(s.get_flex_shrink(), engine.flex_shrink.to_bits());
    assert!(matches!(engine.display, taffy::Display::Flex));
    assert_eq!(s.get_display(), Display::Flex);
    assert!(engine.size.width.is_auto());
    assert!(s.get_size_width().is_auto());
    assert_eq!(
        engine.padding.left.into_raw().tag() as u64,
        LENGTH_TAG
    );
    assert_eq!(engine.padding.left.into_raw().value().to_bits(), 0);
}

#[test]
fn grid_track_shorthands_round_trip() {
    let hundred = 100.0f32.to_bits();
    let one = 1.0f32.to_bits();
    let cases = vec![
        GridTrackInput::Length(Length { bits: hundred }),
        GridTrackInput::Percent(Percent { bits: one }),
        GridTrackInput::Auto(Auto {}),
        GridTrackInput::MinContent(MinContent {}),
        GridTrackInput::MaxContent(MaxContent {}),
        GridTrackInput::Fraction(Fraction { bits: one }),
        GridTrackInput::FitContent(FitContent {
            limit: LengthPercentageInput::Length(Length { bits: hundred }),
        }),
        GridTrackInput::FitContent(FitContent {
            limit: LengthPercentageInput::Percent(Percent { bits: one }),
        }),
        GridTrackInput::Minmax(Minmax {
            min: GridTrackMinInput::Auto(Auto {}),
            max: GridTrackMaxInput::MaxContent(MaxContent {}),
        }),
        GridTrackInput::Minmax(Minmax {
            min: GridTrackMinInput::Length(Length { bits: hundred }),
            max: GridTrackMaxInput::Fraction(Fraction { bits: one }),
        }),
    ];
    for case in cases {
        let pair: GridTrack = case.to_track();
        assert_eq!(track_to_value(&pair), case);
    }
}

#[test]
fn noncanonical_minmax_normalizes() {
    let five = 5.0f32.to_bits();
    let mm = GridTrackInput::Minmax(Minmax {
        min: GridTrackMinInput::Length(Length { bits: five }),
        max: GridTrackMaxInput::Length(Length { bits: five }),
    });
    let pair = mm.to_track();
    assert_eq!(
        track_to_value(&pair),
        GridTrackInput::Length(Length { bits: five })
    );
    let fr = GridTrackInput::Minmax(Minmax {
        min: GridTrackMinInput::Auto(Auto {}),
        max: GridTrackMaxInput::Fraction(Fraction { bits: five }),
    });
    assert_eq!(
        track_to_value(&fr.to_track()),
        GridTrackInput::Fraction(Fraction { bits: five })
    );
}

#[test]
fn grid_template_columns_round_trip_through_style() {
    let hundred = 100.0f32.to_bits();
    let one = 1.0f32.to_bits();
    let tracks = vec![
        GridTrackInput::Length(Length { bits: hundred }).to_track(),
        GridTrackInput::Fraction(Fraction { bits: one }).to_track(),
        GridTrackInput::Minmax(Minmax {
            min: GridTrackMinInput::Auto(Auto {}),
            max: GridTrackMaxInput::MaxContent(MaxContent {}),
        })
        .to_track(),
    ];
    let mut opts = StyleOptions::new();
    opts.grid_template_columns = Some(tracks.clone());
    let s = Style::new(opts);
    let read_back = s.get_grid_template_columns();
    assert_eq!(read_back.len(), 3);
    assert_eq!(
        track_to_value(&read_back[0]),
        GridTrackInput::Length(Length { bits: hundred })
    );
    assert_eq!(
        track_to_value(&read_back[1]),
        GridTrackInput::Fraction(Fraction { bits: one })
    );
    assert_eq!(
        track_to_value(&read_back[2]),
        GridTrackInput::Minmax(Minmax {
            min: GridTrackMinInput::Auto(Auto {}),
            max: GridTrackMaxInput::MaxContent(MaxContent {}),
        })
    );
}

#[test]
fn panic_classification() {
    assert_eq!(
        classify_panic("invalid SlotMap key used"),
        PanicKind::StaleKey
    );
    assert_eq!(
        classify_panic("oops: invalid SparseSecondaryMap key used here"),
        PanicKind::StaleKey
    );
    assert_eq!(
        classify_panic("index out of bounds"),
        PanicKind::Other
    );
}

#[test]
fn substring_search() {
    assert!(contains_str("hello world", "lo wo"));
    assert!(contains_str("abc", ""));
    assert!(!contains_str("abc", "abcd"));
    assert!(!contains_str("abab", "abba"));
    assert!(contains_str("aaab", "aab"));
}

#[test]
fn measure_decisions() {
    let w = 10.0f32.to_bits();
    let h = 20.0f32.to_bits();
    assert_eq!(
        measure_decision(true, Some(w), Some(h), true),
        MeasureDecision::Zero
    );
    assert_eq!(
        measure_decision(false, Some(w), Some(h), false),
        MeasureDecision::UseKnown { width_bits: w, height_bits: h }
    );
    assert_eq!(
        measure_decision(false, Some(w), None, false),
        MeasureDecision::Zero
    );
    assert_eq!(
        measure_decision(false, None, None, true),
        MeasureDecision::AskHost
    );
}

#[test]
fn host_error_wins_over_engine_error() {
    let engine_err = Err(WaxyError::InvalidInputNode { id: 7 });
    let r: Result<(), LayoutFailure<&str>> = resolve_layout_outcome(Some("host boom"), engine_err);
    assert_eq!(r, Err(LayoutFailure::Host("host boom")));
    let r2: Result<(), LayoutFailure<&str>> =
        resolve_layout_outcome(None, Err(WaxyError::InvalidInputNode { id: 7 }));
    assert_eq!(
        r2,
        Err(LayoutFailure::Engine(WaxyError::InvalidInputNode { id: 7 }))
    );
    let r3: Result<(), LayoutFailure<&str>> = resolve_layout_outcome(None, Ok(()));
    assert_eq!(r3, Ok(()));
}

#[test]
fn error_messages() {
    assert_eq!(
        WaxyError::InvalidPercent { bits: 0 }.message(),
        "Percent value must be in [0.0, 1.0]"
    );
    assert_eq!(
        WaxyError::InvalidNodeId { id: 3 }.message(),
        "Node ID is not present in the tree (was it removed?)"
    );
}

#[test]
fn tree_lifecycle_and_links() {
    let mut tree: waxy::tree::TaffyTree<String> = waxy::tree::TaffyTree::new();
    let mut opts = StyleOptions::new();
    opts.display = Some(Display::Flex);
    let style = Style::new(opts);
    let root = tree.new_leaf(&style);
    let child = tree.new_leaf_with_context(&style, String::from("A"));
    assert_eq!(tree.total_node_count(), 2);
    assert_eq!(tree.add_child(&root, &child), Ok(()));
    assert_eq!(tree.child_count(&root), Ok(1));
    assert_eq!(tree.child_at_index(&root, 0), Ok(child));
    assert_eq!(
        tree.child_at_index(&root, 1),
        Err(WaxyError::ChildIndexOutOfBounds { child_index: 1, child_count: 1 })
    );
    assert_eq!(tree.parent(&child), Ok(Some(root)));
    assert_eq!(tree.parent(&root), Ok(None));
    assert_eq!(tree.get_node_context(&child), Some(&String::from("A")));
    assert_eq!(tree.get_node_context(&root), None);
}

#[test]
fn removed_node_fails_with_invalid_node_id() {
    let mut tree: waxy::tree::TaffyTree<u32> = waxy::tree::TaffyTree::new();
    let style = Style::new(StyleOptions::new());
    let root = tree.new_leaf(&style);
    let child = tree.new_leaf(&style);
    tree.add_child(&root, &child).unwrap();
    assert_eq!(tree.remove(&child), Ok(child));
    assert_eq!(tree.total_node_count(), 1);
    let stale = WaxyError::InvalidNodeId { id: child.raw };
    assert_eq!(tree.style(&child).unwrap_err(), stale);
    assert_eq!(tree.child_count(&child), Err(stale.clone()));
    assert_eq!(tree.parent(&child), Err(stale.clone()));
    assert_eq!(tree.set_style(&child, &style), Err(stale.clone()));
    assert_eq!(tree.set_node_context(&child, Some(7)), Err(stale.clone()));
    assert_eq!(tree.add_child(&root, &child), Err(stale.clone()));
    assert_eq!(tree.remove(&child), Err(stale));
    // The rest of the tree is untouched and still works.
    assert_eq!(tree.child_count(&root), Ok(0));
    let other = tree.new_leaf(&style);
    assert_ne!(other, child);
    assert_eq!(tree.add_child(&root, &other), Ok(()));
    assert_eq!(tree.child_count(&root), Ok(1));
}

#[test]
fn style_read_back_sets_all_flags() {
    let mut tree: waxy::tree::TaffyTree<u32> = waxy::tree::TaffyTree::new();
    let mut opts = StyleOptions::new();
    opts.position = Some(Position::Absolute);
    let style = Style::new(opts);
    let n = tree.new_leaf(&style);
    let back = tree.style(&n).unwrap();
    assert_eq!(back.set_fields(), u64::MAX);
    assert_eq!(back.get_position(), Position::Absolute);
    assert_eq!(back.get_display(), Display::Flex);
}

#[test]
fn clear_kills_every_id() {
    let mut tree: waxy::tree::TaffyTree<u32> = waxy::tree::TaffyTree::new();
    let style = Style::new(StyleOptions::new());
    let a = tree.new_leaf(&style);
    let b = tree.new_leaf(&style);
    tree.clear();
    assert_eq!(tree.total_node_count(), 0);
    assert!(tree.style(&a).is_err());
    assert!(tree.style(&b).is_err());
}
