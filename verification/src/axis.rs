//! The box model of a child seen along the axes of its container.

use vstd::prelude::*;
use crate::geometry::Size;
use crate::metrics::BoxMetrics;
use crate::number::Number;

verus! {

/// What a container needs of a child's box model, sorted by main and cross
/// axis. Start is left or top, end is right or bottom.
#[derive(Clone, Copy, Debug, PartialEq, Eq)]
pub struct Along {
    pub size_main: Number,
    pub size_cross: Number,
    pub min_main: i64,
    pub max_main: Number,
    pub min_cross: i64,
    pub max_cross: Number,
    pub margin_main_start: i64,
    pub margin_main_end: i64,
    pub margin_cross_start: i64,
    pub margin_cross_end: i64,
    pub frame_main: i64,
    pub frame_cross: i64,
}

/// A size from its parts along the axes; the main axis is horizontal in a
/// row.
pub open spec fn spec_axes<T>(row: bool, main: T, cross: T) -> Size<T> {
    if row {
        Size { width: main, height: cross }
    } else {
        Size { width: cross, height: main }
    }
}

pub open spec fn spec_main_of<T>(s: Size<T>, row: bool) -> T {
    if row {
        s.width
    } else {
        s.height
    }
}

pub open spec fn spec_cross_of<T>(s: Size<T>, row: bool) -> T {
    if row {
        s.height
    } else {
        s.width
    }
}

pub open spec fn spec_along(m: BoxMetrics, row: bool) -> Along {
    if row {
        Along {
            size_main: m.size.width,
            size_cross: m.size.height,
            min_main: m.min_size.width,
            max_main: m.max_size.width,
            min_cross: m.min_size.height,
            max_cross: m.max_size.height,
            margin_main_start: m.margin.left,
            margin_main_end: m.margin.right,
            margin_cross_start: m.margin.top,
            margin_cross_end: m.margin.bottom,
            frame_main: m.spec_frame_width(),
            frame_cross: m.spec_frame_height(),
        }
    } else {
        Along {
            size_main: m.size.height,
            size_cross: m.size.width,
            min_main: m.min_size.height,
            max_main: m.max_size.height,
            min_cross: m.min_size.width,
            max_cross: m.max_size.width,
            margin_main_start: m.margin.top,
            margin_main_end: m.margin.bottom,
            margin_cross_start: m.margin.left,
            margin_cross_end: m.margin.right,
            frame_main: m.spec_frame_height(),
            frame_cross: m.spec_frame_width(),
        }
    }
}

/// A size from its parts along the axes; the main axis is horizontal in a
/// row.
pub fn axes<T>(row: bool, main: T, cross: T) -> (r: Size<T>)
    ensures
        r == spec_axes(row, main, cross),
{
    if row {
        Size { width: main, height: cross }
    } else {
        Size { width: cross, height: main }
    }
}

pub fn main_of<T: Copy>(s: &Size<T>, row: bool) -> (r: T)
    ensures
        r == spec_main_of(*s, row),
{
    if row {
        s.width
    } else {
        s.height
    }
}

pub fn cross_of<T: Copy>(s: &Size<T>, row: bool) -> (r: T)
    ensures
        r == spec_cross_of(*s, row),
{
    if row {
        s.height
    } else {
        s.width
    }
}

pub fn along(m: &BoxMetrics, row: bool) -> (r: Along)
    ensures
        r == spec_along(*m, row),
{
    if row {
        Along {
            size_main: m.size.width,
            size_cross: m.size.height,
            min_main: m.min_size.width,
            max_main: m.max_size.width,
            min_cross: m.min_size.height,
            max_cross: m.max_size.height,
            margin_main_start: m.margin.left,
            margin_main_end: m.margin.right,
            margin_cross_start: m.margin.top,
            margin_cross_end: m.margin.bottom,
            frame_main: m.frame_width(),
            frame_cross: m.frame_height(),
        }
    } else {
        Along {
            size_main: m.size.height,
            size_cross: m.size.width,
            min_main: m.min_size.height,
            max_main: m.max_size.height,
            min_cross: m.min_size.width,
            max_cross: m.max_size.width,
            margin_main_start: m.margin.top,
            margin_main_end: m.margin.bottom,
            margin_cross_start: m.margin.left,
            margin_cross_end: m.margin.right,
            frame_main: m.frame_height(),
            frame_cross: m.frame_width(),
        }
    }
}

} // verus!
