use azul_layout::css::{
    exact, translate_dimension, value_or, CssPropertyValue, DisplayRectangle, LayoutAlignContent,
    LayoutAlignItems, LayoutBoxSizing, LayoutDirection, LayoutDisplay, LayoutJustifyContent,
    LayoutOverflow, LayoutPosition, LayoutWrap, RectLayout, RectStyle,
};
use azul_layout::style::{
    AlignContent, AlignItems, AlignSelf, BoxSizing, Dimension, Direction, Display, FlexDirection,
    FlexWrap, JustifyContent, Overflow, PixelValue, PositionType, SizeMetric, Style,
};
use azul_layout::{GetStyle, Number};

fn unset() -> DisplayRectangle {
    DisplayRectangle {
        style: RectStyle {
            font_size: None,
            line_height: None,
            letter_spacing: None,
            word_spacing: None,
            tab_width: None,
        },
        layout: RectLayout {
            display: None,
            box_sizing: None,
            width: None,
            height: None,
            min_width: None,
            min_height: None,
            max_width: None,
            max_height: None,
            position: None,
            top: None,
            bottom: None,
            right: None,
            left: None,
            padding_top: None,
            padding_bottom: None,
            padding_left: None,
            padding_right: None,
            margin_top: None,
            margin_bottom: None,
            margin_left: None,
            margin_right: None,
            border_top_width: None,
            border_left_width: None,
            border_right_width: None,
            border_bottom_width: None,
            overflow_x: None,
            direction: None,
            wrap: None,
            flex_grow: None,
            flex_shrink: None,
            justify_content: None,
            align_items: None,
            align_content: None,
        },
    }
}

fn px(n: i64) -> Option<CssPropertyValue<PixelValue>> {
    Some(CssPropertyValue::Exact(PixelValue { metric: SizeMetric::Px, number: n }))
}

fn with(metric: SizeMetric, n: i64) -> Option<CssPropertyValue<PixelValue>> {
    Some(CssPropertyValue::Exact(PixelValue { metric, number: n }))
}

#[test]
fn unset_box_takes_every_default() {
    let s = unset().get_style();
    assert_eq!(s.display, Display::Flex);
    assert_eq!(s.box_sizing, BoxSizing::ContentBox);
    assert_eq!(s.position_type, PositionType::Relative);
    assert_eq!(s.direction, Direction::LTR);
    assert_eq!(s.flex_direction, FlexDirection::Row);
    assert_eq!(s.flex_wrap, FlexWrap::Wrap);
    assert_eq!(s.overflow, Overflow::Scroll);
    assert_eq!(s.align_items, AlignItems::FlexStart);
    assert_eq!(s.align_self, AlignSelf::Auto);
    assert_eq!(s.align_content, AlignContent::Stretch);
    assert_eq!(s.justify_content, JustifyContent::FlexStart);
    assert_eq!(s.flex_grow, 0);
    assert_eq!(s.flex_shrink, 0);
    assert_eq!(s.flex_basis, Dimension::Auto);
    assert_eq!(s.size.width, Dimension::Undefined);
    assert_eq!(s.size.height, Dimension::Undefined);
    assert_eq!(s.min_size.width, Dimension::Undefined);
    assert_eq!(s.max_size.height, Dimension::Undefined);
    assert_eq!(s.margin.left, Dimension::Undefined);
    assert_eq!(s.padding.top, Dimension::Undefined);
    assert_eq!(s.border.bottom, Dimension::Undefined);
    assert_eq!(s.position.right, Dimension::Undefined);
    assert_eq!(s.aspect_ratio, Number::Undefined);
    assert_eq!(s.font_size_px, PixelValue { metric: SizeMetric::Px, number: 16_000 });
    assert_eq!(s.line_height, None);
    assert_eq!(s.letter_spacing, None);
    assert_eq!(s.word_spacing, None);
    assert_eq!(s.tab_width, None);
}

#[test]
fn dimensions_convert_their_units() {
    assert_eq!(translate_dimension(None), Dimension::Undefined);
    assert_eq!(translate_dimension(Some(CssPropertyValue::Auto)), Dimension::Auto);
    assert_eq!(translate_dimension(Some(CssPropertyValue::CssNone)), Dimension::Pixels(0));
    assert_eq!(translate_dimension(Some(CssPropertyValue::Initial)), Dimension::Undefined);
    assert_eq!(translate_dimension(Some(CssPropertyValue::Inherit)), Dimension::Undefined);
    assert_eq!(translate_dimension(px(12_500)), Dimension::Pixels(12_500));
    assert_eq!(translate_dimension(with(SizeMetric::Percent, 50_000)), Dimension::Percent(50_000));
    // 12 points are 16 pixels.
    assert_eq!(translate_dimension(with(SizeMetric::Pt, 12_000)), Dimension::Pixels(16_000));
    assert_eq!(translate_dimension(with(SizeMetric::Pt, 10_000)), Dimension::Pixels(13_333));
    // One and a half em are 24 pixels.
    assert_eq!(translate_dimension(with(SizeMetric::Em, 1_500)), Dimension::Pixels(24_000));
}

#[test]
fn display_maps_keywords_and_values() {
    let mut r = unset();
    for (value, expected) in [
        (Some(CssPropertyValue::Auto), Display::Flex),
        (Some(CssPropertyValue::CssNone), Display::Gone),
        (Some(CssPropertyValue::Initial), Display::Flex),
        (Some(CssPropertyValue::Inherit), Display::Flex),
        (Some(CssPropertyValue::Exact(LayoutDisplay::Flex)), Display::Flex),
        (Some(CssPropertyValue::Exact(LayoutDisplay::Inline)), Display::Inline),
    ] {
        r.layout.display = value;
        assert_eq!(r.get_style().display, expected);
    }
}

#[test]
fn position_static_counts_as_relative() {
    let mut r = unset();
    r.layout.position = Some(CssPropertyValue::Exact(LayoutPosition::Static));
    assert_eq!(r.get_style().position_type, PositionType::Relative);
    r.layout.position = Some(CssPropertyValue::Exact(LayoutPosition::Relative));
    assert_eq!(r.get_style().position_type, PositionType::Relative);
    r.layout.position = Some(CssPropertyValue::Exact(LayoutPosition::Absolute));
    assert_eq!(r.get_style().position_type, PositionType::Absolute);
    r.layout.position = Some(CssPropertyValue::CssNone);
    assert_eq!(r.get_style().position_type, PositionType::Relative);
}

#[test]
fn enumerated_properties_map_one_to_one() {
    let mut r = unset();
    r.layout.box_sizing = Some(CssPropertyValue::Exact(LayoutBoxSizing::BorderBox));
    r.layout.direction = Some(CssPropertyValue::Exact(LayoutDirection::ColumnReverse));
    r.layout.wrap = Some(CssPropertyValue::Exact(LayoutWrap::NoWrap));
    r.layout.overflow_x = Some(CssPropertyValue::Exact(LayoutOverflow::Hidden));
    r.layout.align_items = Some(CssPropertyValue::Exact(LayoutAlignItems::Stretch));
    r.layout.align_content = Some(CssPropertyValue::Exact(LayoutAlignContent::SpaceAround));
    r.layout.justify_content = Some(CssPropertyValue::Exact(LayoutJustifyContent::SpaceEvenly));
    let s = r.get_style();
    assert_eq!(s.box_sizing, BoxSizing::BorderBox);
    assert_eq!(s.flex_direction, FlexDirection::ColumnReverse);
    assert_eq!(s.flex_wrap, FlexWrap::NoWrap);
    assert_eq!(s.overflow, Overflow::Hidden);
    assert_eq!(s.align_items, AlignItems::Stretch);
    assert_eq!(s.align_content, AlignContent::SpaceAround);
    assert_eq!(s.justify_content, JustifyContent::SpaceEvenly);

    r.layout.direction = Some(CssPropertyValue::Exact(LayoutDirection::Column));
    r.layout.overflow_x = Some(CssPropertyValue::Exact(LayoutOverflow::Visible));
    r.layout.align_items = Some(CssPropertyValue::Exact(LayoutAlignItems::End));
    r.layout.align_content = Some(CssPropertyValue::Exact(LayoutAlignContent::End));
    r.layout.justify_content = Some(CssPropertyValue::Exact(LayoutJustifyContent::End));
    let s = r.get_style();
    assert_eq!(s.flex_direction, FlexDirection::Column);
    assert_eq!(s.overflow, Overflow::Visible);
    assert_eq!(s.align_items, AlignItems::FlexEnd);
    assert_eq!(s.align_content, AlignContent::FlexEnd);
    assert_eq!(s.justify_content, JustifyContent::FlexEnd);

    r.layout.direction = Some(CssPropertyValue::Exact(LayoutDirection::RowReverse));
    r.layout.overflow_x = Some(CssPropertyValue::Exact(LayoutOverflow::Scroll));
    r.layout.align_items = Some(CssPropertyValue::Exact(LayoutAlignItems::Center));
    r.layout.align_content = Some(CssPropertyValue::Exact(LayoutAlignContent::Center));
    r.layout.justify_content = Some(CssPropertyValue::Exact(LayoutJustifyContent::Center));
    let s = r.get_style();
    assert_eq!(s.flex_direction, FlexDirection::RowReverse);
    assert_eq!(s.overflow, Overflow::Scroll);
    assert_eq!(s.align_items, AlignItems::Center);
    assert_eq!(s.align_content, AlignContent::Center);
    assert_eq!(s.justify_content, JustifyContent::Center);

    r.layout.align_content = Some(CssPropertyValue::Exact(LayoutAlignContent::SpaceBetween));
    r.layout.justify_content = Some(CssPropertyValue::Exact(LayoutJustifyContent::SpaceBetween));
    let s = r.get_style();
    assert_eq!(s.align_content, AlignContent::SpaceBetween);
    assert_eq!(s.justify_content, JustifyContent::SpaceBetween);
    r.layout.align_content = Some(CssPropertyValue::Exact(LayoutAlignContent::Start));
    r.layout.justify_content = Some(CssPropertyValue::Exact(LayoutJustifyContent::SpaceAround));
    let s = r.get_style();
    assert_eq!(s.align_content, AlignContent::FlexStart);
    assert_eq!(s.justify_content, JustifyContent::SpaceAround);
}

#[test]
fn keywords_fall_back_to_the_default_of_the_property() {
    let mut r = unset();
    r.layout.wrap = Some(CssPropertyValue::CssNone);
    r.layout.overflow_x = Some(CssPropertyValue::Inherit);
    r.layout.align_items = Some(CssPropertyValue::Auto);
    r.layout.align_content = Some(CssPropertyValue::Initial);
    r.layout.justify_content = Some(CssPropertyValue::CssNone);
    r.layout.flex_grow = Some(CssPropertyValue::Inherit);
    r.layout.flex_shrink = Some(CssPropertyValue::Auto);
    let s = r.get_style();
    assert_eq!(s.flex_wrap, FlexWrap::Wrap);
    assert_eq!(s.overflow, Overflow::Scroll);
    assert_eq!(s.align_items, AlignItems::FlexStart);
    assert_eq!(s.align_content, AlignContent::Stretch);
    assert_eq!(s.justify_content, JustifyContent::FlexStart);
    assert_eq!(s.flex_grow, 0);
    assert_eq!(s.flex_shrink, 0);
}

#[test]
fn sizes_offsets_and_factors_are_carried_over() {
    let mut r = unset();
    r.layout.width = px(100_000);
    r.layout.height = with(SizeMetric::Percent, 25_000);
    r.layout.min_width = px(1_000);
    r.layout.min_height = px(2_000);
    r.layout.max_width = px(3_000);
    r.layout.max_height = px(4_000);
    r.layout.top = px(5_000);
    r.layout.bottom = px(6_000);
    r.layout.left = px(7_000);
    r.layout.right = px(8_000);
    r.layout.padding_top = px(9_000);
    r.layout.padding_bottom = px(10_000);
    r.layout.padding_left = px(11_000);
    r.layout.padding_right = px(12_000);
    r.layout.margin_top = px(13_000);
    r.layout.margin_bottom = px(14_000);
    r.layout.margin_left = px(15_000);
    r.layout.margin_right = px(16_000);
    r.layout.border_top_width = px(17_000);
    r.layout.border_bottom_width = px(18_000);
    r.layout.border_left_width = px(19_000);
    r.layout.border_right_width = px(20_000);
    r.layout.flex_grow = Some(CssPropertyValue::Exact(2_000));
    r.layout.flex_shrink = Some(CssPropertyValue::Exact(500));
    let s = r.get_style();
    let p = |n: i64| Dimension::Pixels(n * 1000);
    assert_eq!((s.size.width, s.size.height), (p(100), Dimension::Percent(25_000)));
    assert_eq!((s.min_size.width, s.min_size.height), (p(1), p(2)));
    assert_eq!((s.max_size.width, s.max_size.height), (p(3), p(4)));
    assert_eq!((s.position.top, s.position.bottom, s.position.left, s.position.right), (p(5), p(6), p(7), p(8)));
    assert_eq!((s.padding.top, s.padding.bottom, s.padding.left, s.padding.right), (p(9), p(10), p(11), p(12)));
    assert_eq!((s.margin.top, s.margin.bottom, s.margin.left, s.margin.right), (p(13), p(14), p(15), p(16)));
    assert_eq!((s.border.top, s.border.bottom, s.border.left, s.border.right), (p(17), p(18), p(19), p(20)));
    assert_eq!((s.flex_grow, s.flex_shrink), (2_000, 500));
}

#[test]
fn text_metrics_are_carried_over_where_exact() {
    let mut r = unset();
    let size = PixelValue { metric: SizeMetric::Pt, number: 12_000 };
    let spacing = PixelValue { metric: SizeMetric::Px, number: 2_000 };
    r.style.font_size = Some(CssPropertyValue::Exact(size));
    r.style.line_height = Some(CssPropertyValue::Exact(150_000));
    r.style.letter_spacing = Some(CssPropertyValue::Exact(spacing));
    r.style.word_spacing = Some(CssPropertyValue::Auto);
    r.style.tab_width = Some(CssPropertyValue::Exact(400_000));
    let s = r.get_style();
    assert_eq!(s.font_size_px, size);
    assert_eq!(s.line_height, Some(150_000));
    assert_eq!(s.letter_spacing, Some(spacing));
    assert_eq!(s.word_spacing, None);
    assert_eq!(s.tab_width, Some(400_000));
    r.style.font_size = Some(CssPropertyValue::Inherit);
    assert_eq!(r.get_style().font_size_px, PixelValue { metric: SizeMetric::Px, number: 16_000 });
}

#[test]
fn property_helpers() {
    assert_eq!(exact(Some(CssPropertyValue::Exact(3))), Some(3));
    assert_eq!(exact(Some(CssPropertyValue::<i64>::Auto)), None);
    assert_eq!(exact::<i64>(None), None);
    assert_eq!(value_or(None, 7), Some(7));
    assert_eq!(value_or(Some(CssPropertyValue::Auto), 7), Some(7));
    assert_eq!(value_or(Some(CssPropertyValue::Initial), 7), Some(7));
    assert_eq!(value_or(Some(CssPropertyValue::Exact(3)), 7), Some(3));
    assert_eq!(value_or(Some(CssPropertyValue::CssNone), 7), None);
    assert_eq!(value_or(Some(CssPropertyValue::Inherit), 7), None);
}

#[test]
fn a_style_is_its_own_source() {
    let mut s = Style::default();
    s.flex_grow = 5;
    assert_eq!(s.get_style(), s);
    assert_eq!(Style::default().align_items, AlignItems::Stretch);
    assert_eq!(Style::default().flex_shrink, 1000);
    assert_eq!(Style::default().size.width, Dimension::Auto);
}
