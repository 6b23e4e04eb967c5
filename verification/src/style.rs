//! The box-model style of one box.

use vstd::prelude::*;
use crate::geometry::{Offsets, Size};
use crate::number::{clamp_length, scaled, saturate, scale, Number};

verus! {

/// How much one percent is in the units of `Dimension::Percent`.
pub const UNITS_PER_PERCENT: i64 = 1000;

/// The divisor that turns `Percent` units times a length into a length.
pub const PERCENT_DIVISOR: i64 = 100_000;

/// Whether and how a box is displayed.
#[derive(Clone, Copy, Debug, PartialEq, Eq, Structural)]
pub enum Display {
    Flex,
    Inline,
    /// The box and everything below it take no room.
    Gone,
}

/// Whether a styled size counts the frame of the box.
#[derive(Clone, Copy, Debug, PartialEq, Eq, Structural)]
pub enum BoxSizing {
    ContentBox,
    BorderBox,
}

/// Whether a box takes part in the flow of its container.
#[derive(Clone, Copy, Debug, PartialEq, Eq, Structural)]
pub enum PositionType {
    Relative,
    Absolute,
}

/// The direction of text. The layout assumes left to right.
#[derive(Clone, Copy, Debug, PartialEq, Eq, Structural)]
pub enum Direction {
    Inherit,
    LTR,
    RTL,
}

/// The main axis of a container, and the end at which it starts.
#[derive(Clone, Copy, Debug, PartialEq, Eq, Structural)]
pub enum FlexDirection {
    Row,
    Column,
    RowReverse,
    ColumnReverse,
}

/// Whether the children of a container may take several lines.
#[derive(Clone, Copy, Debug, PartialEq, Eq, Structural)]
pub enum FlexWrap {
    NoWrap,
    Wrap,
}

/// What happens to content that does not fit. The layout does not read it.
#[derive(Clone, Copy, Debug, PartialEq, Eq, Structural)]
pub enum Overflow {
    Visible,
    Hidden,
    Scroll,
}

/// How the children of a container sit on the cross axis of their line.
#[derive(Clone, Copy, Debug, PartialEq, Eq, Structural)]
pub enum AlignItems {
    Stretch,
    FlexStart,
    FlexEnd,
    Center,
    Baseline,
}

/// How one child sits on the cross axis, where it does not follow its
/// container.
#[derive(Clone, Copy, Debug, PartialEq, Eq, Structural)]
pub enum AlignSelf {
    Auto,
    FlexStart,
    FlexEnd,
    Center,
    Baseline,
    Stretch,
}

/// How the lines of a container share its cross axis.
#[derive(Clone, Copy, Debug, PartialEq, Eq, Structural)]
pub enum AlignContent {
    Stretch,
    FlexStart,
    FlexEnd,
    Center,
    SpaceBetween,
    SpaceAround,
}

/// How the items of a line share the main axis.
#[derive(Clone, Copy, Debug, PartialEq, Eq, Structural)]
pub enum JustifyContent {
    FlexStart,
    FlexEnd,
    Center,
    SpaceBetween,
    SpaceAround,
    SpaceEvenly,
}

/// The unit of a styled length.
#[derive(Clone, Copy, Debug, PartialEq, Eq, Structural)]
pub enum SizeMetric {
    Px,
    Pt,
    Em,
    Percent,
}

/// A styled length: a fixed-point number, in thousandths, and its unit.
#[derive(Clone, Copy, Debug, PartialEq, Eq, Structural)]
pub struct PixelValue {
    pub metric: SizeMetric,
    pub number: i64,
}

/// A length that may be absent, automatic, absolute or relative.
///
/// `Pixels` counts length units; `Percent` counts thousandths of a percent.
#[derive(Clone, Copy, Debug, PartialEq, Eq, Structural)]
pub enum Dimension {
    Undefined,
    Auto,
    Pixels(i64),
    Percent(i64),
}

impl PixelValue {
    /// The length in pixel units: pixels as they are, points times 96/72,
    /// ems times sixteen, and a percentage taken of `percent_reference`.
    pub open spec fn spec_to_pixels(self, percent_reference: i64) -> i64 {
        match self.metric {
            SizeMetric::Px => clamp_length(self.number as int),
            SizeMetric::Pt => scaled(self.number as int, 96, 72),
            SizeMetric::Em => scaled(self.number as int, 16, 1),
            SizeMetric::Percent => scaled(
                percent_reference as int,
                self.number as int,
                PERCENT_DIVISOR as int,
            ),
        }
    }

    /// The length in pixel units: pixels as they are, points times 96/72,
    /// ems times sixteen, and a percentage taken of `percent_reference`.
    pub fn to_pixels(self, percent_reference: i64) -> (r: i64)
        ensures
            r == self.spec_to_pixels(percent_reference),
    {
        match self.metric {
            SizeMetric::Px => saturate(self.number as i128),
            SizeMetric::Pt => scale(self.number, 96, 72),
            SizeMetric::Em => scale(self.number, 16, 1),
            SizeMetric::Percent => scale(percent_reference, self.number, PERCENT_DIVISOR),
        }
    }
}

impl FlexDirection {
    pub open spec fn spec_is_row(self) -> bool {
        self == FlexDirection::Row || self == FlexDirection::RowReverse
    }

    pub open spec fn spec_is_reverse(self) -> bool {
        self == FlexDirection::RowReverse || self == FlexDirection::ColumnReverse
    }

    /// Whether the main axis is horizontal.
    #[verifier::when_used_as_spec(spec_is_row)]
    pub fn is_row(self) -> (r: bool)
        ensures
            r == self.spec_is_row(),
    {
        match self {
            FlexDirection::Row => true,
            FlexDirection::RowReverse => true,
            _ => false,
        }
    }

    /// Whether items run from the end of the main axis to its start.
    #[verifier::when_used_as_spec(spec_is_reverse)]
    pub fn is_reverse(self) -> (r: bool)
        ensures
            r == self.spec_is_reverse(),
    {
        match self {
            FlexDirection::RowReverse => true,
            FlexDirection::ColumnReverse => true,
            _ => false,
        }
    }
}

impl Dimension {
    /// What the dimension amounts to against `reference`.
    ///
    /// Pixels stand for themselves. A percentage is taken of a defined
    /// reference and is undefined without one. `Auto` takes `auto`, the
    /// value that the calling context fills in for it (undefined where there
    /// is no such rule). `Undefined` stays undefined.
    pub open spec fn spec_resolve(self, reference: Number, auto: Number) -> Number {
        match self {
            Dimension::Pixels(v) => Number::Defined(clamp_length(v as int)),
            Dimension::Percent(p) => match reference {
                Number::Defined(r) => Number::Defined(
                    scaled(r as int, p as int, PERCENT_DIVISOR as int),
                ),
                Number::Undefined => Number::Undefined,
            },
            Dimension::Auto => auto,
            Dimension::Undefined => Number::Undefined,
        }
    }

    pub open spec fn spec_is_defined(self) -> bool {
        self is Pixels || self is Percent
    }

    /// What the dimension amounts to against `reference`.
    ///
    /// Pixels stand for themselves. A percentage is taken of a defined
    /// reference and is undefined without one. `Auto` takes `auto`, the
    /// value that the calling context fills in for it (undefined where there
    /// is no such rule). `Undefined` stays undefined.
    pub fn resolve(self, reference: Number, auto: Number) -> (r: Number)
        ensures
            r == self.spec_resolve(reference, auto),
    {
        match self {
            Dimension::Pixels(v) => Number::Defined(saturate(v as i128)),
            Dimension::Percent(p) => match reference {
                Number::Defined(r) => Number::Defined(scale(r, p, PERCENT_DIVISOR)),
                Number::Undefined => Number::Undefined,
            },
            Dimension::Auto => auto,
            Dimension::Undefined => Number::Undefined,
        }
    }

    /// Whether the dimension names a length or a percentage.
    #[verifier::when_used_as_spec(spec_is_defined)]
    pub fn is_defined(self) -> (r: bool)
        ensures
            r == self.spec_is_defined(),
    {
        match self {
            Dimension::Pixels(_) => true,
            Dimension::Percent(_) => true,
            _ => false,
        }
    }
}

impl Default for Dimension {
    fn default() -> (r: Dimension)
        ensures
            r == Dimension::Undefined,
    {
        Dimension::Undefined
    }
}

/// Everything the layout reads of one box.
#[derive(Clone, Copy, Debug, PartialEq, Eq)]
pub struct Style {
    pub display: Display,
    pub box_sizing: BoxSizing,
    pub position_type: PositionType,
    pub direction: Direction,
    pub flex_direction: FlexDirection,
    pub flex_wrap: FlexWrap,
    pub overflow: Overflow,
    pub align_items: AlignItems,
    pub align_self: AlignSelf,
    pub align_content: AlignContent,
    pub justify_content: JustifyContent,
    pub position: Offsets<Dimension>,
    pub margin: Offsets<Dimension>,
    pub padding: Offsets<Dimension>,
    pub border: Offsets<Dimension>,
    /// Share of spare room the box takes, in thousandths.
    pub flex_grow: i64,
    /// Weight by which the box gives way, in thousandths.
    pub flex_shrink: i64,
    pub flex_basis: Dimension,
    pub size: Size<Dimension>,
    pub min_size: Size<Dimension>,
    pub max_size: Size<Dimension>,
    /// Width over height, in thousandths.
    pub aspect_ratio: Number,
    pub font_size_px: PixelValue,
    /// Line height in thousandths of a percent.
    pub line_height: Option<i64>,
    pub letter_spacing: Option<PixelValue>,
    pub word_spacing: Option<PixelValue>,
    /// Tab width in thousandths of a percent.
    pub tab_width: Option<i64>,
}

/// Font size of a box that names none: sixteen pixels.
pub open spec fn spec_default_font_size() -> PixelValue {
    PixelValue { metric: SizeMetric::Px, number: 16_000 }
}

/// Font size of a box that names none: sixteen pixels.
/// Font size of a box that names none: sixteen pixels.
pub fn default_font_size() -> (r: PixelValue)
    ensures
        r == spec_default_font_size(),
{
    PixelValue { metric: SizeMetric::Px, number: 16_000 }
}

impl Style {
    /// The style of a box on which nothing is set.
    pub open spec fn spec_default() -> Style {
        let none = Offsets {
            top: Dimension::Undefined,
            left: Dimension::Undefined,
            bottom: Dimension::Undefined,
            right: Dimension::Undefined,
        };
        let auto = Size { width: Dimension::Auto, height: Dimension::Auto };
        Style {
            display: Display::Flex,
            box_sizing: BoxSizing::ContentBox,
            position_type: PositionType::Relative,
            direction: Direction::Inherit,
            flex_direction: FlexDirection::Row,
            flex_wrap: FlexWrap::NoWrap,
            overflow: Overflow::Visible,
            align_items: AlignItems::Stretch,
            align_self: AlignSelf::Auto,
            align_content: AlignContent::Stretch,
            justify_content: JustifyContent::FlexStart,
            position: none,
            margin: none,
            padding: none,
            border: none,
            flex_grow: 0,
            flex_shrink: 1000,
            flex_basis: Dimension::Auto,
            size: auto,
            min_size: auto,
            max_size: auto,
            aspect_ratio: Number::Undefined,
            font_size_px: spec_default_font_size(),
            line_height: None,
            letter_spacing: None,
            word_spacing: None,
            tab_width: None,
        }
    }
}

impl Default for Style {
    fn default() -> (r: Style)
        ensures
            r == Style::spec_default(),
    {
        let none = Offsets {
            top: Dimension::Undefined,
            left: Dimension::Undefined,
            bottom: Dimension::Undefined,
            right: Dimension::Undefined,
        };
        let auto = Size { width: Dimension::Auto, height: Dimension::Auto };
        Style {
            display: Display::Flex,
            box_sizing: BoxSizing::ContentBox,
            position_type: PositionType::Relative,
            direction: Direction::Inherit,
            flex_direction: FlexDirection::Row,
            flex_wrap: FlexWrap::NoWrap,
            overflow: Overflow::Visible,
            align_items: AlignItems::Stretch,
            align_self: AlignSelf::Auto,
            align_content: AlignContent::Stretch,
            justify_content: JustifyContent::FlexStart,
            position: none,
            margin: none,
            padding: none,
            border: none,
            flex_grow: 0,
            flex_shrink: 1000,
            flex_basis: Dimension::Auto,
            size: auto,
            min_size: auto,
            max_size: auto,
            aspect_ratio: Number::Undefined,
            font_size_px: default_font_size(),
            line_height: None,
            letter_spacing: None,
            word_spacing: None,
            tab_width: None,
        }
    }
}

} // verus!
