//! Resolved style properties of a box, and the `Style` they amount to.
//!
//! A property is absent, one of the keywords `auto`, `none`, `initial` and
//! `inherit`, or an exact value. Every box has a style: whatever is not an
//! exact value falls back to one fixed default per property.

use vstd::prelude::*;
use crate::geometry::{Offsets, Size};
use crate::number::{scale, scaled, Number};
use crate::style::{
    default_font_size, spec_default_font_size, AlignContent, AlignItems, AlignSelf, BoxSizing,
    Dimension, Direction, Display, FlexDirection, FlexWrap, JustifyContent, Overflow, PixelValue,
    PositionType, SizeMetric, Style,
};
use crate::GetStyle;

verus! {

/// Pixels per point are 96 over 72; this is the numerator.
pub const PT_TO_PX_NUMERATOR: i64 = 96;

/// The denominator of pixels per point.
pub const PT_TO_PX_DENOMINATOR: i64 = 72;

/// Pixels per em.
pub const EM_HEIGHT: i64 = 16;

/// What a style sheet says of one property.
#[derive(Clone, Copy, Debug, PartialEq, Eq)]
pub enum CssPropertyValue<T> {
    Auto,
    /// The keyword `none`.
    CssNone,
    Initial,
    Inherit,
    Exact(T),
}

/// The `display` property.
#[derive(Clone, Copy, Debug, PartialEq, Eq, Structural)]
pub enum LayoutDisplay {
    Flex,
    Inline,
}

/// The `box-sizing` property.
#[derive(Clone, Copy, Debug, PartialEq, Eq, Structural)]
pub enum LayoutBoxSizing {
    ContentBox,
    BorderBox,
}

/// The `position` property.
#[derive(Clone, Copy, Debug, PartialEq, Eq, Structural)]
pub enum LayoutPosition {
    Static,
    Relative,
    Absolute,
}

/// The `flex-direction` property.
#[derive(Clone, Copy, Debug, PartialEq, Eq, Structural)]
pub enum LayoutDirection {
    Row,
    RowReverse,
    Column,
    ColumnReverse,
}

/// The `flex-wrap` property.
#[derive(Clone, Copy, Debug, PartialEq, Eq, Structural)]
pub enum LayoutWrap {
    Wrap,
    NoWrap,
}

/// The `overflow` property.
#[derive(Clone, Copy, Debug, PartialEq, Eq, Structural)]
pub enum LayoutOverflow {
    Auto,
    Scroll,
    Hidden,
    Visible,
}

/// The `align-items` property.
#[derive(Clone, Copy, Debug, PartialEq, Eq, Structural)]
pub enum LayoutAlignItems {
    Start,
    End,
    Center,
    Stretch,
}

/// The `align-content` property.
#[derive(Clone, Copy, Debug, PartialEq, Eq, Structural)]
pub enum LayoutAlignContent {
    Stretch,
    Center,
    Start,
    End,
    SpaceBetween,
    SpaceAround,
}

/// The `justify-content` property.
#[derive(Clone, Copy, Debug, PartialEq, Eq, Structural)]
pub enum LayoutJustifyContent {
    Start,
    End,
    Center,
    SpaceBetween,
    SpaceAround,
    SpaceEvenly,
}

/// The layout properties of a box.
#[derive(Clone, Copy, Debug, PartialEq, Eq)]
pub struct RectLayout {
    pub display: Option<CssPropertyValue<LayoutDisplay>>,
    pub box_sizing: Option<CssPropertyValue<LayoutBoxSizing>>,
    pub width: Option<CssPropertyValue<PixelValue>>,
    pub height: Option<CssPropertyValue<PixelValue>>,
    pub min_width: Option<CssPropertyValue<PixelValue>>,
    pub min_height: Option<CssPropertyValue<PixelValue>>,
    pub max_width: Option<CssPropertyValue<PixelValue>>,
    pub max_height: Option<CssPropertyValue<PixelValue>>,
    pub position: Option<CssPropertyValue<LayoutPosition>>,
    pub top: Option<CssPropertyValue<PixelValue>>,
    pub bottom: Option<CssPropertyValue<PixelValue>>,
    pub right: Option<CssPropertyValue<PixelValue>>,
    pub left: Option<CssPropertyValue<PixelValue>>,
    pub padding_top: Option<CssPropertyValue<PixelValue>>,
    pub padding_bottom: Option<CssPropertyValue<PixelValue>>,
    pub padding_left: Option<CssPropertyValue<PixelValue>>,
    pub padding_right: Option<CssPropertyValue<PixelValue>>,
    pub margin_top: Option<CssPropertyValue<PixelValue>>,
    pub margin_bottom: Option<CssPropertyValue<PixelValue>>,
    pub margin_left: Option<CssPropertyValue<PixelValue>>,
    pub margin_right: Option<CssPropertyValue<PixelValue>>,
    pub border_top_width: Option<CssPropertyValue<PixelValue>>,
    pub border_left_width: Option<CssPropertyValue<PixelValue>>,
    pub border_right_width: Option<CssPropertyValue<PixelValue>>,
    pub border_bottom_width: Option<CssPropertyValue<PixelValue>>,
    pub overflow_x: Option<CssPropertyValue<LayoutOverflow>>,
    pub direction: Option<CssPropertyValue<LayoutDirection>>,
    pub wrap: Option<CssPropertyValue<LayoutWrap>>,
    /// In thousandths.
    pub flex_grow: Option<CssPropertyValue<i64>>,
    /// In thousandths.
    pub flex_shrink: Option<CssPropertyValue<i64>>,
    pub justify_content: Option<CssPropertyValue<LayoutJustifyContent>>,
    pub align_items: Option<CssPropertyValue<LayoutAlignItems>>,
    pub align_content: Option<CssPropertyValue<LayoutAlignContent>>,
}

/// The text properties of a box that bear on its measurement.
#[derive(Clone, Copy, Debug, PartialEq, Eq)]
pub struct RectStyle {
    pub font_size: Option<CssPropertyValue<PixelValue>>,
    /// In thousandths of a percent.
    pub line_height: Option<CssPropertyValue<i64>>,
    pub letter_spacing: Option<CssPropertyValue<PixelValue>>,
    pub word_spacing: Option<CssPropertyValue<PixelValue>>,
    /// In thousandths of a percent.
    pub tab_width: Option<CssPropertyValue<i64>>,
}

/// A box as the style cascade leaves it.
#[derive(Clone, Copy, Debug, PartialEq, Eq)]
pub struct DisplayRectangle {
    pub style: RectStyle,
    pub layout: RectLayout,
}

/// The exact value of a property, if it has one.
pub open spec fn spec_exact<T>(p: Option<CssPropertyValue<T>>) -> Option<T> {
    match p {
        Some(CssPropertyValue::Exact(v)) => Some(v),
        _ => None,
    }
}

/// The value of a property whose absence, `auto` and `initial` mean
/// `default`; `none` and `inherit` give nothing.
pub open spec fn spec_value_or<T>(p: Option<CssPropertyValue<T>>, default: T) -> Option<T> {
    match p {
        None => Some(default),
        Some(CssPropertyValue::Auto) => Some(default),
        Some(CssPropertyValue::Initial) => Some(default),
        Some(CssPropertyValue::Exact(v)) => Some(v),
        Some(CssPropertyValue::CssNone) => None,
        Some(CssPropertyValue::Inherit) => None,
    }
}

/// A styled length as a dimension: pixels as they are, points times 96/72,
/// ems times sixteen, percentages unresolved. The keyword `none` is a length
/// of zero, `auto` stays automatic, and everything else is undefined.
pub open spec fn spec_translate_dimension(input: Option<CssPropertyValue<PixelValue>>) -> Dimension {
    match input {
        None => Dimension::Undefined,
        Some(CssPropertyValue::Auto) => Dimension::Auto,
        Some(CssPropertyValue::CssNone) => Dimension::Pixels(0),
        Some(CssPropertyValue::Initial) => Dimension::Undefined,
        Some(CssPropertyValue::Inherit) => Dimension::Undefined,
        Some(CssPropertyValue::Exact(v)) => match v.metric {
            SizeMetric::Px => Dimension::Pixels(v.number),
            SizeMetric::Percent => Dimension::Percent(v.number),
            SizeMetric::Pt => Dimension::Pixels(
                scaled(v.number as int, PT_TO_PX_NUMERATOR as int, PT_TO_PX_DENOMINATOR as int),
            ),
            SizeMetric::Em => Dimension::Pixels(scaled(v.number as int, EM_HEIGHT as int, 1)),
        },
    }
}

/// The display mode: `none` hides the box, an inline value makes it inline,
/// and everything else makes it a flex container.
pub open spec fn spec_display(p: Option<CssPropertyValue<LayoutDisplay>>) -> Display {
    match p {
        Some(CssPropertyValue::CssNone) => Display::Gone,
        Some(CssPropertyValue::Exact(LayoutDisplay::Inline)) => Display::Inline,
        _ => Display::Flex,
    }
}

/// The box sizing; content-box unless border-box is asked for.
pub open spec fn spec_box_sizing(p: Option<CssPropertyValue<LayoutBoxSizing>>) -> BoxSizing {
    match spec_value_or(p, LayoutBoxSizing::ContentBox) {
        Some(LayoutBoxSizing::BorderBox) => BoxSizing::BorderBox,
        _ => BoxSizing::ContentBox,
    }
}

/// Static positioning is not told apart from relative positioning.
pub open spec fn spec_position_type(p: Option<CssPropertyValue<LayoutPosition>>) -> PositionType {
    match spec_value_or(p, LayoutPosition::Static) {
        Some(LayoutPosition::Absolute) => PositionType::Absolute,
        _ => PositionType::Relative,
    }
}

/// The flex direction; a row unless another is asked for.
pub open spec fn spec_flex_direction(p: Option<CssPropertyValue<LayoutDirection>>) -> FlexDirection {
    match spec_value_or(p, LayoutDirection::Row) {
        Some(LayoutDirection::RowReverse) => FlexDirection::RowReverse,
        Some(LayoutDirection::Column) => FlexDirection::Column,
        Some(LayoutDirection::ColumnReverse) => FlexDirection::ColumnReverse,
        _ => FlexDirection::Row,
    }
}

/// The wrapping; on unless it is switched off.
pub open spec fn spec_flex_wrap(p: Option<CssPropertyValue<LayoutWrap>>) -> FlexWrap {
    match spec_value_or(p, LayoutWrap::Wrap) {
        Some(LayoutWrap::NoWrap) => FlexWrap::NoWrap,
        _ => FlexWrap::Wrap,
    }
}

/// The overflow; scrolling unless hidden or visible is asked for.
pub open spec fn spec_overflow(p: Option<CssPropertyValue<LayoutOverflow>>) -> Overflow {
    match spec_value_or(p, LayoutOverflow::Auto) {
        Some(LayoutOverflow::Hidden) => Overflow::Hidden,
        Some(LayoutOverflow::Visible) => Overflow::Visible,
        _ => Overflow::Scroll,
    }
}

/// The alignment of items; at the start unless another is asked for.
pub open spec fn spec_align_items(p: Option<CssPropertyValue<LayoutAlignItems>>) -> AlignItems {
    match spec_value_or(p, LayoutAlignItems::Start) {
        Some(LayoutAlignItems::Stretch) => AlignItems::Stretch,
        Some(LayoutAlignItems::Center) => AlignItems::Center,
        Some(LayoutAlignItems::End) => AlignItems::FlexEnd,
        _ => AlignItems::FlexStart,
    }
}

/// The alignment of lines; stretched unless another is asked for.
pub open spec fn spec_align_content(p: Option<CssPropertyValue<LayoutAlignContent>>) -> AlignContent {
    match spec_value_or(p, LayoutAlignContent::Stretch) {
        Some(LayoutAlignContent::Center) => AlignContent::Center,
        Some(LayoutAlignContent::Start) => AlignContent::FlexStart,
        Some(LayoutAlignContent::End) => AlignContent::FlexEnd,
        Some(LayoutAlignContent::SpaceBetween) => AlignContent::SpaceBetween,
        Some(LayoutAlignContent::SpaceAround) => AlignContent::SpaceAround,
        _ => AlignContent::Stretch,
    }
}

/// The spacing of items; packed to the start unless another is asked for.
pub open spec fn spec_justify_content(
    p: Option<CssPropertyValue<LayoutJustifyContent>>,
) -> JustifyContent {
    match spec_value_or(p, LayoutJustifyContent::Start) {
        Some(LayoutJustifyContent::Center) => JustifyContent::Center,
        Some(LayoutJustifyContent::End) => JustifyContent::FlexEnd,
        Some(LayoutJustifyContent::SpaceBetween) => JustifyContent::SpaceBetween,
        Some(LayoutJustifyContent::SpaceAround) => JustifyContent::SpaceAround,
        Some(LayoutJustifyContent::SpaceEvenly) => JustifyContent::SpaceEvenly,
        _ => JustifyContent::FlexStart,
    }
}

/// A flex factor: the exact value, and zero for everything else.
pub open spec fn spec_flex_factor(p: Option<CssPropertyValue<i64>>) -> i64 {
    match spec_value_or(p, 0i64) {
        Some(v) => v,
        None => 0,
    }
}

/// The style of a resolved box.
///
/// The direction is always left to right. `align_self` and `flex_basis` have
/// no property to come from and keep their defaults; the aspect ratio is
/// left undefined for the caller to fill in.
pub open spec fn spec_style_of(rect: DisplayRectangle) -> Style {
    let l = rect.layout;
    let s = rect.style;
    Style {
        display: spec_display(l.display),
        box_sizing: spec_box_sizing(l.box_sizing),
        position_type: spec_position_type(l.position),
        direction: Direction::LTR,
        flex_direction: spec_flex_direction(l.direction),
        flex_wrap: spec_flex_wrap(l.wrap),
        overflow: spec_overflow(l.overflow_x),
        align_items: spec_align_items(l.align_items),
        align_self: AlignSelf::Auto,
        align_content: spec_align_content(l.align_content),
        justify_content: spec_justify_content(l.justify_content),
        position: Offsets {
            top: spec_translate_dimension(l.top),
            left: spec_translate_dimension(l.left),
            bottom: spec_translate_dimension(l.bottom),
            right: spec_translate_dimension(l.right),
        },
        margin: Offsets {
            top: spec_translate_dimension(l.margin_top),
            left: spec_translate_dimension(l.margin_left),
            bottom: spec_translate_dimension(l.margin_bottom),
            right: spec_translate_dimension(l.margin_right),
        },
        padding: Offsets {
            top: spec_translate_dimension(l.padding_top),
            left: spec_translate_dimension(l.padding_left),
            bottom: spec_translate_dimension(l.padding_bottom),
            right: spec_translate_dimension(l.padding_right),
        },
        border: Offsets {
            top: spec_translate_dimension(l.border_top_width),
            left: spec_translate_dimension(l.border_left_width),
            bottom: spec_translate_dimension(l.border_bottom_width),
            right: spec_translate_dimension(l.border_right_width),
        },
        flex_grow: spec_flex_factor(l.flex_grow),
        flex_shrink: spec_flex_factor(l.flex_shrink),
        flex_basis: Dimension::Auto,
        size: Size {
            width: spec_translate_dimension(l.width),
            height: spec_translate_dimension(l.height),
        },
        min_size: Size {
            width: spec_translate_dimension(l.min_width),
            height: spec_translate_dimension(l.min_height),
        },
        max_size: Size {
            width: spec_translate_dimension(l.max_width),
            height: spec_translate_dimension(l.max_height),
        },
        aspect_ratio: Number::Undefined,
        font_size_px: match spec_exact(s.font_size) {
            Some(v) => v,
            None => spec_default_font_size(),
        },
        line_height: spec_exact(s.line_height),
        letter_spacing: spec_exact(s.letter_spacing),
        word_spacing: spec_exact(s.word_spacing),
        tab_width: spec_exact(s.tab_width),
    }
}

/// The exact value of a property, if it has one.
pub fn exact<T: Copy>(p: Option<CssPropertyValue<T>>) -> (r: Option<T>)
    ensures
        r == spec_exact(p),
{
    match p {
        Some(CssPropertyValue::Exact(v)) => Some(v),
        _ => None,
    }
}

/// The value of a property whose absence, `auto` and `initial` mean
/// `default`; `none` and `inherit` give nothing.
pub fn value_or<T: Copy>(p: Option<CssPropertyValue<T>>, default: T) -> (r: Option<T>)
    ensures
        r == spec_value_or(p, default),
{
    match p {
        None => Some(default),
        Some(CssPropertyValue::Auto) => Some(default),
        Some(CssPropertyValue::Initial) => Some(default),
        Some(CssPropertyValue::Exact(v)) => Some(v),
        Some(CssPropertyValue::CssNone) => None,
        Some(CssPropertyValue::Inherit) => None,
    }
}

/// A styled length as a dimension: pixels as they are, points times 96/72,
/// ems times sixteen, percentages unresolved. The keyword `none` is a length
/// of zero, `auto` stays automatic, and everything else is undefined.
pub fn translate_dimension(input: Option<CssPropertyValue<PixelValue>>) -> (r: Dimension)
    ensures
        r == spec_translate_dimension(input),
{
    match input {
        None => Dimension::Undefined,
        Some(CssPropertyValue::Auto) => Dimension::Auto,
        Some(CssPropertyValue::CssNone) => Dimension::Pixels(0),
        Some(CssPropertyValue::Initial) => Dimension::Undefined,
        Some(CssPropertyValue::Inherit) => Dimension::Undefined,
        Some(CssPropertyValue::Exact(v)) => match v.metric {
            SizeMetric::Px => Dimension::Pixels(v.number),
            SizeMetric::Percent => Dimension::Percent(v.number),
            SizeMetric::Pt => Dimension::Pixels(
                scale(v.number, PT_TO_PX_NUMERATOR, PT_TO_PX_DENOMINATOR),
            ),
            SizeMetric::Em => Dimension::Pixels(scale(v.number, EM_HEIGHT, 1)),
        },
    }
}

fn display_of(p: Option<CssPropertyValue<LayoutDisplay>>) -> (r: Display)
    ensures
        r == spec_display(p),
{
    match p {
        Some(CssPropertyValue::CssNone) => Display::Gone,
        Some(CssPropertyValue::Exact(LayoutDisplay::Inline)) => Display::Inline,
        _ => Display::Flex,
    }
}

fn box_sizing_of(p: Option<CssPropertyValue<LayoutBoxSizing>>) -> (r: BoxSizing)
    ensures
        r == spec_box_sizing(p),
{
    match value_or(p, LayoutBoxSizing::ContentBox) {
        Some(LayoutBoxSizing::BorderBox) => BoxSizing::BorderBox,
        _ => BoxSizing::ContentBox,
    }
}

fn position_type_of(p: Option<CssPropertyValue<LayoutPosition>>) -> (r: PositionType)
    ensures
        r == spec_position_type(p),
{
    match value_or(p, LayoutPosition::Static) {
        Some(LayoutPosition::Absolute) => PositionType::Absolute,
        _ => PositionType::Relative,
    }
}

fn flex_direction_of(p: Option<CssPropertyValue<LayoutDirection>>) -> (r: FlexDirection)
    ensures
        r == spec_flex_direction(p),
{
    match value_or(p, LayoutDirection::Row) {
        Some(LayoutDirection::RowReverse) => FlexDirection::RowReverse,
        Some(LayoutDirection::Column) => FlexDirection::Column,
        Some(LayoutDirection::ColumnReverse) => FlexDirection::ColumnReverse,
        _ => FlexDirection::Row,
    }
}

fn flex_wrap_of(p: Option<CssPropertyValue<LayoutWrap>>) -> (r: FlexWrap)
    ensures
        r == spec_flex_wrap(p),
{
    match value_or(p, LayoutWrap::Wrap) {
        Some(LayoutWrap::NoWrap) => FlexWrap::NoWrap,
        _ => FlexWrap::Wrap,
    }
}

fn overflow_of(p: Option<CssPropertyValue<LayoutOverflow>>) -> (r: Overflow)
    ensures
        r == spec_overflow(p),
{
    match value_or(p, LayoutOverflow::Auto) {
        Some(LayoutOverflow::Hidden) => Overflow::Hidden,
        Some(LayoutOverflow::Visible) => Overflow::Visible,
        _ => Overflow::Scroll,
    }
}

fn align_items_of(p: Option<CssPropertyValue<LayoutAlignItems>>) -> (r: AlignItems)
    ensures
        r == spec_align_items(p),
{
    match value_or(p, LayoutAlignItems::Start) {
        Some(LayoutAlignItems::Stretch) => AlignItems::Stretch,
        Some(LayoutAlignItems::Center) => AlignItems::Center,
        Some(LayoutAlignItems::End) => AlignItems::FlexEnd,
        _ => AlignItems::FlexStart,
    }
}

fn align_content_of(p: Option<CssPropertyValue<LayoutAlignContent>>) -> (r: AlignContent)
    ensures
        r == spec_align_content(p),
{
    match value_or(p, LayoutAlignContent::Stretch) {
        Some(LayoutAlignContent::Center) => AlignContent::Center,
        Some(LayoutAlignContent::Start) => AlignContent::FlexStart,
        Some(LayoutAlignContent::End) => AlignContent::FlexEnd,
        Some(LayoutAlignContent::SpaceBetween) => AlignContent::SpaceBetween,
        Some(LayoutAlignContent::SpaceAround) => AlignContent::SpaceAround,
        _ => AlignContent::Stretch,
    }
}

fn justify_content_of(p: Option<CssPropertyValue<LayoutJustifyContent>>) -> (r: JustifyContent)
    ensures
        r == spec_justify_content(p),
{
    match value_or(p, LayoutJustifyContent::Start) {
        Some(LayoutJustifyContent::Center) => JustifyContent::Center,
        Some(LayoutJustifyContent::End) => JustifyContent::FlexEnd,
        Some(LayoutJustifyContent::SpaceBetween) => JustifyContent::SpaceBetween,
        Some(LayoutJustifyContent::SpaceAround) => JustifyContent::SpaceAround,
        Some(LayoutJustifyContent::SpaceEvenly) => JustifyContent::SpaceEvenly,
        _ => JustifyContent::FlexStart,
    }
}

fn flex_factor_of(p: Option<CssPropertyValue<i64>>) -> (r: i64)
    ensures
        r == spec_flex_factor(p),
{
    match value_or(p, 0i64) {
        Some(v) => v,
        None => 0,
    }
}

impl GetStyle for DisplayRectangle {
    open spec fn style(&self) -> Style {
        spec_style_of(*self)
    }

    fn get_style(&self) -> (s: Style) {
        let l = &self.layout;
        let t = &self.style;
        Style {
            display: display_of(l.display),
            box_sizing: box_sizing_of(l.box_sizing),
            position_type: position_type_of(l.position),
            direction: Direction::LTR,
            flex_direction: flex_direction_of(l.direction),
            flex_wrap: flex_wrap_of(l.wrap),
            overflow: overflow_of(l.overflow_x),
            align_items: align_items_of(l.align_items),
            align_self: AlignSelf::Auto,
            align_content: align_content_of(l.align_content),
            justify_content: justify_content_of(l.justify_content),
            position: Offsets {
                top: translate_dimension(l.top),
                left: translate_dimension(l.left),
                bottom: translate_dimension(l.bottom),
                right: translate_dimension(l.right),
            },
            margin: Offsets {
                top: translate_dimension(l.margin_top),
                left: translate_dimension(l.margin_left),
                bottom: translate_dimension(l.margin_bottom),
                right: translate_dimension(l.margin_right),
            },
            padding: Offsets {
                top: translate_dimension(l.padding_top),
                left: translate_dimension(l.padding_left),
                bottom: translate_dimension(l.padding_bottom),
                right: translate_dimension(l.padding_right),
            },
            border: Offsets {
                top: translate_dimension(l.border_top_width),
                left: translate_dimension(l.border_left_width),
                bottom: translate_dimension(l.border_bottom_width),
                right: translate_dimension(l.border_right_width),
            },
            flex_grow: flex_factor_of(l.flex_grow),
            flex_shrink: flex_factor_of(l.flex_shrink),
            flex_basis: Dimension::Auto,
            size: Size {
                width: translate_dimension(l.width),
                height: translate_dimension(l.height),
            },
            min_size: Size {
                width: translate_dimension(l.min_width),
                height: translate_dimension(l.min_height),
            },
            max_size: Size {
                width: translate_dimension(l.max_width),
                height: translate_dimension(l.max_height),
            },
            aspect_ratio: Number::Undefined,
            font_size_px: match exact(t.font_size) {
                Some(v) => v,
                None => default_font_size(),
            },
            line_height: exact(t.line_height),
            letter_spacing: exact(t.letter_spacing),
            word_spacing: exact(t.word_spacing),
            tab_width: exact(t.tab_width),
        }
    }
}

} // verus!
