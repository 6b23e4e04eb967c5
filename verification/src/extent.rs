//! The room that the children of a box take together.

use vstd::prelude::*;
use crate::axis::{axes, cross_of, main_of, spec_axes, spec_cross_of, spec_main_of};
use crate::geometry::Size;
use crate::number::{at_least_zero, clamp_length, non_negative, sat_add, Number};
use crate::style::{FlexWrap, Style};

verus! {

/// The larger of two lengths.
pub open spec fn spec_larger(a: i64, b: i64) -> i64 {
    if b > a {
        b
    } else {
        a
    }
}

/// The room of boxes in a row or a column, one more added: along the main
/// axis the sizes add up, across it the largest counts.
pub open spec fn spec_join(row: bool, acc: Size<i64>, next: Size<i64>) -> Size<i64> {
    if row {
        Size {
            width: clamp_length(acc.width + next.width),
            height: spec_larger(acc.height, next.height),
        }
    } else {
        Size {
            width: spec_larger(acc.width, next.width),
            height: clamp_length(acc.height + next.height),
        }
    }
}

/// The room that the first `n` boxes take together on a single line.
pub open spec fn spec_extent(row: bool, outers: Seq<Size<i64>>, n: int) -> Size<i64>
    decreases n,
{
    if n <= 0 {
        Size { width: 0, height: 0 }
    } else {
        spec_join(row, spec_extent(row, outers, n - 1), outers[n - 1])
    }
}

/// The first `n` boxes gathered into lines of at most `room`: the main size
/// of the longest line that is closed, the cross sizes of the closed lines
/// together, the main and the cross size of the open line, and whether the
/// open line holds a box.
pub open spec fn spec_wrap_upto(row: bool, outers: Seq<Size<i64>>, room: i64, n: int) -> (
    i64,
    i64,
    i64,
    i64,
    bool,
)
    decreases n,
{
    if n <= 0 {
        (0, 0, 0, 0, false)
    } else {
        let (widest, total, line_main, line_cross, open) = spec_wrap_upto(row, outers, room, n - 1);
        let main = spec_main_of(outers[n - 1], row);
        let cross = spec_cross_of(outers[n - 1], row);
        let grown = clamp_length(line_main + main);
        if open && grown > room {
            (
                spec_larger(widest, line_main),
                clamp_length(total + line_cross),
                main,
                non_negative(cross as int) as i64,
                true,
            )
        } else {
            (widest, total, grown, spec_larger(line_cross, cross), true)
        }
    }
}

/// The room that boxes take when they wrap into lines of at most `room`:
/// the longest line along the main axis, all lines together across it.
pub open spec fn spec_wrapped(row: bool, outers: Seq<Size<i64>>, room: i64) -> Size<i64> {
    let (widest, total, line_main, line_cross, open) = spec_wrap_upto(
        row,
        outers,
        room,
        outers.len() as int,
    );
    spec_axes(row, spec_larger(widest, line_main), clamp_length(total + line_cross))
}

/// The room that the children of a box with `style` take when `known` is
/// what is settled of its content box. The children wrap where the box
/// wraps and its main size is known; otherwise they share one line.
pub open spec fn spec_children_extent(
    style: Style,
    outers: Seq<Size<i64>>,
    known: Size<Number>,
) -> Size<i64> {
    let row = style.flex_direction.spec_is_row();
    match spec_main_of(known, row) {
        Number::Defined(room) => if style.flex_wrap == FlexWrap::Wrap {
            spec_wrapped(row, outers, room)
        } else {
            spec_extent(row, outers, outers.len() as int)
        },
        Number::Undefined => spec_extent(row, outers, outers.len() as int),
    }
}

/// The larger of two lengths.
pub fn larger(a: i64, b: i64) -> (r: i64)
    ensures
        r == spec_larger(a, b),
{
    if b > a {
        b
    } else {
        a
    }
}

/// The room of boxes in a row or a column, one more added: along the main
/// axis the sizes add up, across it the largest counts.
pub fn join(row: bool, acc: Size<i64>, next: Size<i64>) -> (r: Size<i64>)
    ensures
        r == spec_join(row, acc, next),
{
    if row {
        Size { width: sat_add(acc.width, next.width), height: larger(acc.height, next.height) }
    } else {
        Size { width: larger(acc.width, next.width), height: sat_add(acc.height, next.height) }
    }
}

/// The room that the first `n` boxes take together on a single line.
pub fn extent(row: bool, outers: &Vec<Size<i64>>) -> (r: Size<i64>)
    ensures
        r == spec_extent(row, outers@, outers@.len() as int),
{
    let mut acc = Size { width: 0i64, height: 0i64 };
    let mut i: usize = 0;
    while i < outers.len()
        invariant
            i <= outers.len(),
            acc == spec_extent(row, outers@, i as int),
        decreases outers.len() - i,
    {
        acc = join(row, acc, outers[i]);
        i += 1;
    }
    acc
}

/// The room that boxes take when they wrap into lines of at most `room`:
/// the longest line along the main axis, all lines together across it.
pub fn wrapped(row: bool, outers: &Vec<Size<i64>>, room: i64) -> (r: Size<i64>)
    ensures
        r == spec_wrapped(row, outers@, room),
{
    let mut widest: i64 = 0;
    let mut total: i64 = 0;
    let mut line_main: i64 = 0;
    let mut line_cross: i64 = 0;
    let mut open = false;
    let mut i: usize = 0;
    while i < outers.len()
        invariant
            i <= outers.len(),
            (widest, total, line_main, line_cross, open) == spec_wrap_upto(
                row,
                outers@,
                room,
                i as int,
            ),
        decreases outers.len() - i,
    {
        let main = main_of(&outers[i], row);
        let cross = cross_of(&outers[i], row);
        let grown = sat_add(line_main, main);
        if open && grown > room {
            widest = larger(widest, line_main);
            total = sat_add(total, line_cross);
            line_main = main;
            line_cross = at_least_zero(cross);
        } else {
            line_main = grown;
            line_cross = larger(line_cross, cross);
        }
        open = true;
        i += 1;
    }
    axes(row, larger(widest, line_main), sat_add(total, line_cross))
}

/// The room that the children of a box with `style` take when `known` is
/// what is settled of its content box. The children wrap where the box
/// wraps and its main size is known; otherwise they share one line.
pub fn children_extent(style: &Style, outers: &Vec<Size<i64>>, known: Size<Number>) -> (r: Size<
    i64,
>)
    ensures
        r == spec_children_extent(*style, outers@, known),
{
    let row = style.flex_direction.is_row();
    match main_of(&known, row) {
        Number::Defined(room) => if style.flex_wrap == FlexWrap::Wrap {
            wrapped(row, outers, room)
        } else {
            extent(row, outers)
        },
        Number::Undefined => extent(row, outers),
    }
}

} // verus!
