//! The box model of one box, resolved against the room it is laid out in.
//!
//! Sizes are border-box sizes: they include padding and border, which
//! together are the frame of the box.

use vstd::prelude::*;
use crate::geometry::{Offsets, Size};
use crate::number::{at_least_zero, clamp_length, non_negative, sat_add, sat_sub, Number};
use crate::number::MAX_LENGTH;
use crate::style::{BoxSizing, Dimension, Style};

verus! {

/// The resolved box model of one box.
#[derive(Clone, Copy, Debug, PartialEq, Eq)]
pub struct BoxMetrics {
    pub margin: Offsets<i64>,
    pub padding: Offsets<i64>,
    pub border: Offsets<i64>,
    /// The size the style asks for, where it asks for one.
    pub size: Size<Number>,
    /// The least size: the style's minimum, and never less than the frame.
    pub min_size: Size<i64>,
    pub max_size: Size<Number>,
}

/// A margin or an offset: the resolved length, and zero where there is none.
pub open spec fn spec_edge(d: Dimension, reference: Number) -> i64 {
    d.spec_resolve(reference, Number::Undefined).spec_get_or(0)
}

/// A padding or a border width: like an edge, and never negative.
pub open spec fn spec_inset(d: Dimension, reference: Number) -> i64 {
    non_negative(spec_edge(d, reference) as int) as i64
}

pub open spec fn spec_edges(o: Offsets<Dimension>, reference: Number) -> Offsets<i64> {
    Offsets {
        top: spec_edge(o.top, reference),
        left: spec_edge(o.left, reference),
        bottom: spec_edge(o.bottom, reference),
        right: spec_edge(o.right, reference),
    }
}

pub open spec fn spec_insets(o: Offsets<Dimension>, reference: Number) -> Offsets<i64> {
    Offsets {
        top: spec_inset(o.top, reference),
        left: spec_inset(o.left, reference),
        bottom: spec_inset(o.bottom, reference),
        right: spec_inset(o.right, reference),
    }
}

/// A styled size as a border-box size: a content-box size gains the frame,
/// and no box is smaller than its frame.
pub open spec fn spec_border_box(v: Number, frame: i64, sizing: BoxSizing) -> Number {
    match v {
        Number::Undefined => Number::Undefined,
        Number::Defined(x) => {
            let outer = if sizing == BoxSizing::ContentBox {
                clamp_length(non_negative(x as int) + frame)
            } else {
                x
            };
            Number::Defined(
                if outer < frame {
                    frame
                } else {
                    outer
                },
            )
        },
    }
}

/// `v` held between `min` and `max`; where they cross, `min` wins. A
/// maximum that is not defined holds nothing back.
pub open spec fn spec_clamp_box(v: i64, min: i64, max: Number) -> i64 {
    Number::Defined(v).spec_min(max).spec_max(Number::Defined(min)).spec_get_or(min)
}

/// What is left of `outer` inside a frame; never negative.
pub open spec fn spec_inside(outer: i64, frame: i64) -> i64 {
    non_negative(clamp_length(outer - frame) as int) as i64
}

impl BoxMetrics {
    /// Horizontal padding and border together.
    pub open spec fn spec_frame_width(self) -> i64 {
        clamp_length(
            clamp_length(self.padding.left + self.padding.right) + clamp_length(
                self.border.left + self.border.right,
            ),
        )
    }

    /// Vertical padding and border together.
    pub open spec fn spec_frame_height(self) -> i64 {
        clamp_length(
            clamp_length(self.padding.top + self.padding.bottom) + clamp_length(
                self.border.top + self.border.bottom,
            ),
        )
    }

    /// The border-box size of the box when its content takes `content`: the
    /// size the style asks for, else content plus frame, held between the
    /// minimum and the maximum.
    pub open spec fn spec_box_size(self, content: Size<i64>) -> Size<i64> {
        Size {
            width: spec_clamp_box(
                self.size.width.spec_get_or(clamp_length(content.width + self.spec_frame_width())),
                self.min_size.width,
                self.max_size.width,
            ),
            height: spec_clamp_box(
                self.size.height.spec_get_or(
                    clamp_length(content.height + self.spec_frame_height()),
                ),
                self.min_size.height,
                self.max_size.height,
            ),
        }
    }

    /// What is known of the content box when `outer` is known of the border
    /// box.
    pub open spec fn spec_known_inside(self, outer: Size<Number>) -> Size<Number> {
        Size {
            width: match outer.width {
                Number::Defined(w) => Number::Defined(spec_inside(w, self.spec_frame_width())),
                Number::Undefined => Number::Undefined,
            },
            height: match outer.height {
                Number::Defined(h) => Number::Defined(spec_inside(h, self.spec_frame_height())),
                Number::Undefined => Number::Undefined,
            },
        }
    }

    /// Every length in range, the insets not negative, and the minimum at
    /// least the frame.
    pub open spec fn wf(self) -> bool {
        &&& 0 <= self.padding.top <= MAX_LENGTH
        &&& 0 <= self.padding.left <= MAX_LENGTH
        &&& 0 <= self.padding.bottom <= MAX_LENGTH
        &&& 0 <= self.padding.right <= MAX_LENGTH
        &&& 0 <= self.border.top <= MAX_LENGTH
        &&& 0 <= self.border.left <= MAX_LENGTH
        &&& 0 <= self.border.bottom <= MAX_LENGTH
        &&& 0 <= self.border.right <= MAX_LENGTH
        &&& 0 <= self.min_size.width <= MAX_LENGTH
        &&& 0 <= self.min_size.height <= MAX_LENGTH
    }

    /// Horizontal padding and border together.
    pub fn frame_width(&self) -> (r: i64)
        ensures
            r == self.spec_frame_width(),
    {
        sat_add(
            sat_add(self.padding.left, self.padding.right),
            sat_add(self.border.left, self.border.right),
        )
    }

    /// Vertical padding and border together.
    pub fn frame_height(&self) -> (r: i64)
        ensures
            r == self.spec_frame_height(),
    {
        sat_add(
            sat_add(self.padding.top, self.padding.bottom),
            sat_add(self.border.top, self.border.bottom),
        )
    }

    /// The border-box size of the box when its content takes `content`: the
    /// size the style asks for, else content plus frame, held between the
    /// minimum and the maximum.
    pub fn box_size(&self, content: Size<i64>) -> (r: Size<i64>)
        ensures
            r == self.spec_box_size(content),
    {
        Size {
            width: clamp_box(
                self.size.width.get_or(sat_add(content.width, self.frame_width())),
                self.min_size.width,
                self.max_size.width,
            ),
            height: clamp_box(
                self.size.height.get_or(sat_add(content.height, self.frame_height())),
                self.min_size.height,
                self.max_size.height,
            ),
        }
    }

    /// What is known of the content box when `outer` is known of the border
    /// box.
    pub fn known_inside(&self, outer: Size<Number>) -> (r: Size<Number>)
        ensures
            r == self.spec_known_inside(outer),
    {
        Size {
            width: match outer.width {
                Number::Defined(w) => Number::Defined(inside(w, self.frame_width())),
                Number::Undefined => Number::Undefined,
            },
            height: match outer.height {
                Number::Defined(h) => Number::Defined(inside(h, self.frame_height())),
                Number::Undefined => Number::Undefined,
            },
        }
    }
}

/// The box model of a box with `style` whose percentages refer to
/// `reference`: widths, margins, paddings and borders to its width, heights
/// to its height.
#[verifier::opaque]
pub open spec fn spec_box_metrics(style: Style, reference: Size<Number>) -> BoxMetrics {
    let padding = spec_insets(style.padding, reference.width);
    let border = spec_insets(style.border, reference.width);
    let frame_w = clamp_length(
        clamp_length(padding.left + padding.right) + clamp_length(border.left + border.right),
    );
    let frame_h = clamp_length(
        clamp_length(padding.top + padding.bottom) + clamp_length(border.top + border.bottom),
    );
    let sizing = style.box_sizing;
    BoxMetrics {
        margin: spec_edges(style.margin, reference.width),
        padding,
        border,
        size: Size {
            width: spec_border_box(
                style.size.width.spec_resolve(reference.width, Number::Undefined),
                frame_w,
                sizing,
            ),
            height: spec_border_box(
                style.size.height.spec_resolve(reference.height, Number::Undefined),
                frame_h,
                sizing,
            ),
        },
        min_size: Size {
            width: spec_border_box(
                style.min_size.width.spec_resolve(reference.width, Number::Undefined),
                frame_w,
                sizing,
            ).spec_get_or(frame_w),
            height: spec_border_box(
                style.min_size.height.spec_resolve(reference.height, Number::Undefined),
                frame_h,
                sizing,
            ).spec_get_or(frame_h),
        },
        max_size: Size {
            width: spec_border_box(
                style.max_size.width.spec_resolve(reference.width, Number::Undefined),
                frame_w,
                sizing,
            ),
            height: spec_border_box(
                style.max_size.height.spec_resolve(reference.height, Number::Undefined),
                frame_h,
                sizing,
            ),
        },
    }
}

/// A margin or an offset: the resolved length, and zero where there is none.
pub fn edge(d: Dimension, reference: Number) -> (r: i64)
    ensures
        r == spec_edge(d, reference),
        -MAX_LENGTH <= r <= MAX_LENGTH,
{
    d.resolve(reference, Number::Undefined).get_or(0)
}

/// A padding or a border width: like an edge, and never negative.
pub fn inset(d: Dimension, reference: Number) -> (r: i64)
    ensures
        r == spec_inset(d, reference),
        0 <= r <= MAX_LENGTH,
{
    at_least_zero(edge(d, reference))
}

pub fn edges(o: &Offsets<Dimension>, reference: Number) -> (r: Offsets<i64>)
    ensures
        r == spec_edges(*o, reference),
{
    Offsets {
        top: edge(o.top, reference),
        left: edge(o.left, reference),
        bottom: edge(o.bottom, reference),
        right: edge(o.right, reference),
    }
}

pub fn insets(o: &Offsets<Dimension>, reference: Number) -> (r: Offsets<i64>)
    ensures
        r == spec_insets(*o, reference),
        0 <= r.top <= MAX_LENGTH,
        0 <= r.left <= MAX_LENGTH,
        0 <= r.bottom <= MAX_LENGTH,
        0 <= r.right <= MAX_LENGTH,
{
    Offsets {
        top: inset(o.top, reference),
        left: inset(o.left, reference),
        bottom: inset(o.bottom, reference),
        right: inset(o.right, reference),
    }
}

/// A styled size as a border-box size: a content-box size gains the frame,
/// and no box is smaller than its frame.
pub fn border_box(v: Number, frame: i64, sizing: BoxSizing) -> (r: Number)
    ensures
        r == spec_border_box(v, frame, sizing),
{
    match v {
        Number::Undefined => Number::Undefined,
        Number::Defined(x) => {
            let outer = match sizing {
                BoxSizing::ContentBox => sat_add(at_least_zero(x), frame),
                BoxSizing::BorderBox => x,
            };
            Number::Defined(
                if outer < frame {
                    frame
                } else {
                    outer
                },
            )
        },
    }
}

/// `v` held between `min` and `max`; where they cross, `min` wins. A
/// maximum that is not defined holds nothing back.
pub fn clamp_box(v: i64, min: i64, max: Number) -> (r: i64)
    ensures
        r == spec_clamp_box(v, min, max),
        r >= min,
{
    Number::Defined(v).min(max).max(Number::Defined(min)).get_or(min)
}

/// What is left of `outer` inside a frame; never negative.
pub fn inside(outer: i64, frame: i64) -> (r: i64)
    ensures
        r == spec_inside(outer, frame),
        0 <= r <= MAX_LENGTH,
{
    at_least_zero(sat_sub(outer, frame))
}

/// The box model of a box with `style` whose percentages refer to
/// `reference`: widths, margins, paddings and borders to its width, heights
/// to its height.
pub fn box_metrics(style: &Style, reference: Size<Number>) -> (r: BoxMetrics)
    ensures
        r == spec_box_metrics(*style, reference),
        r.wf(),
{
    proof {
        reveal(spec_box_metrics);
    }
    let padding = insets(&style.padding, reference.width);
    let border = insets(&style.border, reference.width);
    let frame_w = sat_add(
        sat_add(padding.left, padding.right),
        sat_add(border.left, border.right),
    );
    let frame_h = sat_add(
        sat_add(padding.top, padding.bottom),
        sat_add(border.top, border.bottom),
    );
    let sizing = style.box_sizing;
    let none = Number::Undefined;
    BoxMetrics {
        margin: edges(&style.margin, reference.width),
        padding,
        border,
        size: Size {
            width: border_box(style.size.width.resolve(reference.width, none), frame_w, sizing),
            height: border_box(style.size.height.resolve(reference.height, none), frame_h, sizing),
        },
        min_size: Size {
            width: border_box(
                style.min_size.width.resolve(reference.width, none),
                frame_w,
                sizing,
            ).get_or(frame_w),
            height: border_box(
                style.min_size.height.resolve(reference.height, none),
                frame_h,
                sizing,
            ).get_or(frame_h),
        },
        max_size: Size {
            width: border_box(style.max_size.width.resolve(reference.width, none), frame_w, sizing),
            height: border_box(
                style.max_size.height.resolve(reference.height, none),
                frame_h,
                sizing,
            ),
        },
    }
}

} // verus!
