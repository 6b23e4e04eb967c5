//! One child in its container: the flex item it makes, the room its content
//! takes once its main size is settled, and the rectangle it ends up with.

use vstd::prelude::*;
use crate::axis::{along, axes, cross_of, main_of, spec_along, spec_axes, spec_cross_of, spec_main_of, Along};
use crate::content::{content_size, sanitize, spec_content_size, spec_sanitize, views, ContentView, MeasureText};
use crate::flex::FlexItem;
use crate::geometry::{LayoutPoint, PositionedRectangle, Size};
use crate::metrics::{
    border_box, box_metrics, clamp_box, inside, spec_border_box, spec_box_metrics, spec_clamp_box,
    spec_inside, BoxMetrics,
};
use crate::number::{at_least_zero, clamp_length, is_length, non_negative, sat_add, sat_sub, scale, scaled, Number};
use crate::number::MAX_LENGTH;
use crate::place::ItemBox;
use crate::style::{
    AlignItems, AlignSelf, Dimension, Display, FlexWrap, JustifyContent, PositionType, Style,
};
use crate::RectContent;

verus! {

/// A child as its container sees it: its style, its content, and the
/// outer sizes of its own children.
pub struct Kid {
    pub style: Style,
    pub view: ContentView,
    pub outers: Seq<Size<i64>>,
}

/// The solved geometry of a box: its border box, its content box, and
/// whether it is shown at all.
#[derive(Clone, Copy, Debug, PartialEq, Eq)]
pub struct Placed {
    pub rect: PositionedRectangle,
    pub inside: PositionedRectangle,
    pub shown: bool,
}

/// Where a lone box sits in the room it is given.
#[derive(Clone, Copy, Debug, PartialEq, Eq, Structural)]
pub enum Anchor {
    Start,
    Center,
    End,
}

/// The placement of a box that is not shown: no room, at the origin.
pub open spec fn spec_gone() -> Placed {
    Placed {
        rect: PositionedRectangle::spec_zero(),
        inside: PositionedRectangle::spec_zero(),
        shown: false,
    }
}

/// The room of a container as the reference of its children's percentages.
pub open spec fn spec_reference(room: Size<i64>) -> Size<Number> {
    Size { width: Number::Defined(room.width), height: Number::Defined(room.height) }
}

/// Whether a box takes part in the flow of its container.
pub open spec fn spec_in_flow(style: Style) -> bool {
    style.display != Display::Gone && style.position_type != PositionType::Absolute
}

/// How a child sits on the cross axis: by its own alignment, or by that of
/// its container where it names none.
pub open spec fn spec_align(container: AlignItems, own: AlignSelf) -> AlignItems {
    match own {
        AlignSelf::Auto => container,
        AlignSelf::FlexStart => AlignItems::FlexStart,
        AlignSelf::FlexEnd => AlignItems::FlexEnd,
        AlignSelf::Center => AlignItems::Center,
        AlignSelf::Baseline => AlignItems::Baseline,
        AlignSelf::Stretch => AlignItems::Stretch,
    }
}

/// The cross size of a child that is known before its main size is: the one
/// its style asks for, or, where it is stretched across the only line of its
/// container, the room of the container less its margins.
pub open spec fn spec_known_cross(a: Along, align: AlignItems, single: bool, room_cross: i64) -> Number {
    match a.size_cross {
        Number::Defined(v) => Number::Defined(spec_clamp_box(v, a.min_cross, a.max_cross)),
        Number::Undefined => if single && align == AlignItems::Stretch {
            Number::Defined(
                spec_clamp_box(
                    clamp_length(
                        room_cross - clamp_length(a.margin_cross_start + a.margin_cross_end),
                    ),
                    a.min_cross,
                    a.max_cross,
                ),
            )
        } else {
            Number::Undefined
        },
    }
}

/// The flex item that child `slot` makes in a container with `room` inside.
///
/// Its base size is its flex basis, else the main size its style asks for,
/// else the main size of its content under the cross size that is known.
#[verifier::opaque]
pub open spec fn spec_flex_item(container: Style, room: Size<i64>, kid: Kid, slot: usize) -> FlexItem {
    let row = container.flex_direction.spec_is_row();
    let m = spec_box_metrics(kid.style, spec_reference(room));
    let a = spec_along(m, row);
    let align = spec_align(container.align_items, kid.style.align_self);
    let known = spec_known_cross(
        a,
        align,
        container.flex_wrap == FlexWrap::NoWrap,
        spec_cross_of(room, row),
    );
    let natural = spec_content_size(
        kid.view,
        kid.style,
        kid.outers,
        m.spec_known_inside(spec_axes(row, Number::Undefined, known)),
    );
    let basis = spec_border_box(
        kid.style.flex_basis.spec_resolve(
            Number::Defined(spec_main_of(room, row)),
            Number::Undefined,
        ),
        a.frame_main,
        kid.style.box_sizing,
    );
    let base = basis.spec_get_or(
        a.size_main.spec_get_or(clamp_length(spec_main_of(natural, row) + a.frame_main)),
    );
    FlexItem {
        slot,
        base: non_negative(base as int) as i64,
        min_main: a.min_main,
        max_main: a.max_main,
        cross: a.size_cross,
        min_cross: a.min_cross,
        max_cross: a.max_cross,
        grow: kid.style.flex_grow,
        shrink: kid.style.flex_shrink,
        margin_main_start: a.margin_main_start,
        margin_main_end: a.margin_main_end,
        margin_cross_start: a.margin_cross_start,
        margin_cross_end: a.margin_cross_end,
        frame_main: a.frame_main,
        frame_cross: a.frame_cross,
        align,
    }
}

/// The cross size that the content of a child takes once its main size is
/// `main`, frame included.
#[verifier::opaque]
pub open spec fn spec_natural_cross(container: Style, room: Size<i64>, kid: Kid, main: i64) -> i64 {
    let row = container.flex_direction.spec_is_row();
    let m = spec_box_metrics(kid.style, spec_reference(room));
    let natural = spec_content_size(
        kid.view,
        kid.style,
        kid.outers,
        m.spec_known_inside(spec_axes(row, Number::Defined(main), Number::Undefined)),
    );
    clamp_length(spec_cross_of(natural, row) + spec_along(m, row).frame_cross)
}

/// A box of `size` whose border box starts at `(x, y)`.
pub open spec fn spec_placed_at(x: i64, y: i64, size: Size<i64>, m: BoxMetrics) -> Placed {
    Placed {
        rect: PositionedRectangle { origin: LayoutPoint { x, y }, size },
        inside: PositionedRectangle {
            origin: LayoutPoint {
                x: clamp_length(x + clamp_length(m.border.left + m.padding.left)),
                y: clamp_length(y + clamp_length(m.border.top + m.padding.top)),
            },
            size: Size {
                width: spec_inside(size.width, m.spec_frame_width()),
                height: spec_inside(size.height, m.spec_frame_height()),
            },
        },
        shown: true,
    }
}

/// By how much a box is moved from where the flow puts it: by its start
/// offset, else against its end offset, else not at all.
pub open spec fn spec_shift(start: Dimension, end: Dimension, reference: i64) -> i64 {
    match start.spec_resolve(Number::Defined(reference), Number::Undefined) {
        Number::Defined(s) => s,
        Number::Undefined => match end.spec_resolve(
            Number::Defined(reference),
            Number::Undefined,
        ) {
            Number::Defined(e) => clamp_length(-e),
            Number::Undefined => 0,
        },
    }
}

/// The geometry of a child in the flow, from its place along the axes of
/// its container.
#[verifier::opaque]
pub open spec fn spec_flow_placed(
    parent: Placed,
    container: Style,
    style: Style,
    b: ItemBox,
) -> Placed {
    let row = container.flex_direction.spec_is_row();
    let room = parent.inside.size;
    let m = spec_box_metrics(style, spec_reference(room));
    let at = spec_axes(row, b.main_position, b.cross_position);
    let size = spec_sanitize(spec_axes(row, b.main_size, b.cross_size));
    spec_placed_at(
        clamp_length(
            clamp_length(parent.inside.origin.x + at.width) + spec_shift(
                style.position.left,
                style.position.right,
                room.width,
            ),
        ),
        clamp_length(
            clamp_length(parent.inside.origin.y + at.height) + spec_shift(
                style.position.top,
                style.position.bottom,
                room.height,
            ),
        ),
        size,
        m,
    )
}

/// Where a lone box of `size` starts in `room`, its margins kept clear.
pub open spec fn spec_anchored(
    anchor: Anchor,
    room: i64,
    size: i64,
    margin_start: i64,
    margin_end: i64,
) -> i64 {
    match anchor {
        Anchor::Start => margin_start,
        Anchor::End => clamp_length(clamp_length(room - size) - margin_end),
        Anchor::Center => clamp_length(
            margin_start + scaled(
                clamp_length(
                    clamp_length(room - size) - clamp_length(margin_start + margin_end),
                ) as int,
                1,
                2,
            ),
        ),
    }
}

/// Where the main axis anchors a lone box; a reversed direction starts at
/// the far end.
pub open spec fn spec_main_anchor(justify: JustifyContent, reverse: bool) -> Anchor {
    match justify {
        JustifyContent::FlexStart | JustifyContent::SpaceBetween => if reverse {
            Anchor::End
        } else {
            Anchor::Start
        },
        JustifyContent::FlexEnd => if reverse {
            Anchor::Start
        } else {
            Anchor::End
        },
        _ => Anchor::Center,
    }
}

pub open spec fn spec_cross_anchor(align: AlignItems) -> Anchor {
    match align {
        AlignItems::FlexEnd => Anchor::End,
        AlignItems::Center => Anchor::Center,
        _ => Anchor::Start,
    }
}

/// One side of a box taken out of the flow, when the offsets `start` and
/// `end` are resolved: the size its style asks for, else what is left
/// between two offsets that are both given.
pub open spec fn spec_absolute_known(
    size: Number,
    start: Number,
    end: Number,
    room: i64,
    margins: i64,
) -> Number {
    match size {
        Number::Defined(v) => Number::Defined(v),
        Number::Undefined => match (start, end) {
            (Number::Defined(s), Number::Defined(e)) => Number::Defined(
                non_negative(
                    clamp_length(clamp_length(clamp_length(room - s) - e) - margins) as int,
                ) as i64,
            ),
            _ => Number::Undefined,
        },
    }
}

/// Where a box taken out of the flow starts on one axis: at its start
/// offset, else before its end offset, else where it would sit alone.
pub open spec fn spec_absolute_start(
    start: Number,
    end: Number,
    room: i64,
    size: i64,
    margin_start: i64,
    margin_end: i64,
    anchor: Anchor,
) -> i64 {
    match (start, end) {
        (Number::Defined(s), _) => clamp_length(s + margin_start),
        (Number::Undefined, Number::Defined(e)) => clamp_length(
            clamp_length(clamp_length(room - e) - margin_end) - size,
        ),
        (Number::Undefined, Number::Undefined) => spec_anchored(
            anchor,
            room,
            size,
            margin_start,
            margin_end,
        ),
    }
}

/// The geometry of a child that is taken out of the flow. Its offsets refer
/// to the content box of its container.
#[verifier::opaque]
pub open spec fn spec_absolute_placed(parent: Placed, container: Style, kid: Kid) -> Placed {
    let row = container.flex_direction.spec_is_row();
    let reverse = container.flex_direction.spec_is_reverse();
    let room = parent.inside.size;
    let m = spec_box_metrics(kid.style, spec_reference(room));
    let none = Number::Undefined;
    let left = kid.style.position.left.spec_resolve(Number::Defined(room.width), none);
    let right = kid.style.position.right.spec_resolve(Number::Defined(room.width), none);
    let top = kid.style.position.top.spec_resolve(Number::Defined(room.height), none);
    let bottom = kid.style.position.bottom.spec_resolve(Number::Defined(room.height), none);
    let known = Size {
        width: spec_absolute_known(
            m.size.width,
            left,
            right,
            room.width,
            m.margin.spec_horizontal(),
        ),
        height: spec_absolute_known(
            m.size.height,
            top,
            bottom,
            room.height,
            m.margin.spec_vertical(),
        ),
    };
    let natural = spec_content_size(kid.view, kid.style, kid.outers, m.spec_known_inside(known));
    let size = spec_sanitize(
        Size {
            width: spec_clamp_box(
                known.width.spec_get_or(clamp_length(natural.width + m.spec_frame_width())),
                m.min_size.width,
                m.max_size.width,
            ),
            height: spec_clamp_box(
                known.height.spec_get_or(clamp_length(natural.height + m.spec_frame_height())),
                m.min_size.height,
                m.max_size.height,
            ),
        },
    );
    let main_anchor = spec_main_anchor(container.justify_content, reverse);
    let cross_anchor = spec_cross_anchor(spec_align(container.align_items, kid.style.align_self));
    let anchors = spec_axes(row, main_anchor, cross_anchor);
    spec_placed_at(
        clamp_length(
            parent.inside.origin.x + spec_absolute_start(
                left,
                right,
                room.width,
                size.width,
                m.margin.left,
                m.margin.right,
                anchors.width,
            ),
        ),
        clamp_length(
            parent.inside.origin.y + spec_absolute_start(
                top,
                bottom,
                room.height,
                size.height,
                m.margin.top,
                m.margin.bottom,
                anchors.height,
            ),
        ),
        size,
        m,
    )
}

/// The geometry of the root in bounds of which `bounds` is known. The root
/// takes the size its style asks for, else that of its content, and starts
/// at the origin; a root that is not displayed takes no room.
#[verifier::opaque]
pub open spec fn spec_root_placed(bounds: Size<Number>, kid: Kid) -> Placed {
    if kid.style.display == Display::Gone {
        spec_gone()
    } else {
        let m = spec_box_metrics(kid.style, bounds);
        let natural = spec_content_size(
            kid.view,
            kid.style,
            kid.outers,
            m.spec_known_inside(m.size),
        );
        spec_placed_at(0, 0, spec_sanitize(m.spec_box_size(natural)), m)
    }
}

/// The placement of a box that is not shown: no room, at the origin.
pub fn gone() -> (r: Placed)
    ensures
        r == spec_gone(),
        r.rect.wf(),
{
    Placed { rect: PositionedRectangle::zero(), inside: PositionedRectangle::zero(), shown: false }
}

/// The room of a container as the reference of its children's percentages.
pub fn reference(room: Size<i64>) -> (r: Size<Number>)
    ensures
        r == spec_reference(room),
{
    Size { width: Number::Defined(room.width), height: Number::Defined(room.height) }
}

/// Whether a box takes part in the flow of its container.
pub fn in_flow(style: &Style) -> (r: bool)
    ensures
        r == spec_in_flow(*style),
{
    let shown = match style.display {
        Display::Gone => false,
        _ => true,
    };
    let flowing = match style.position_type {
        PositionType::Absolute => false,
        _ => true,
    };
    shown && flowing
}

/// How a child sits on the cross axis: by its own alignment, or by that of
/// its container where it names none.
pub fn align(container: AlignItems, own: AlignSelf) -> (r: AlignItems)
    ensures
        r == spec_align(container, own),
{
    match own {
        AlignSelf::Auto => container,
        AlignSelf::FlexStart => AlignItems::FlexStart,
        AlignSelf::FlexEnd => AlignItems::FlexEnd,
        AlignSelf::Center => AlignItems::Center,
        AlignSelf::Baseline => AlignItems::Baseline,
        AlignSelf::Stretch => AlignItems::Stretch,
    }
}

fn known_cross(a: &Along, align: AlignItems, single: bool, room_cross: i64) -> (r: Number)
    ensures
        r == spec_known_cross(*a, align, single, room_cross),
{
    match a.size_cross {
        Number::Defined(v) => Number::Defined(clamp_box(v, a.min_cross, a.max_cross)),
        Number::Undefined => if single && align == AlignItems::Stretch {
            Number::Defined(
                clamp_box(
                    sat_sub(room_cross, sat_add(a.margin_cross_start, a.margin_cross_end)),
                    a.min_cross,
                    a.max_cross,
                ),
            )
        } else {
            Number::Undefined
        },
    }
}

/// Builds the flex item of the child that is box `node`.
pub fn flex_item<T: MeasureText>(
    contents: &mut Vec<Option<RectContent<T>>>,
    node: usize,
    container: &Style,
    room: Size<i64>,
    style: &Style,
    outers: &Vec<Size<i64>>,
    slot: usize,
) -> (r: FlexItem)
    requires
        node < old(contents).len(),
    ensures
        final(contents).len() == old(contents).len(),
        views(final(contents)@) == views(old(contents)@),
        r == spec_flex_item(
            *container,
            room,
            Kid { style: *style, view: views(old(contents)@)[node as int], outers: outers@ },
            slot,
        ),
{
    proof {
        reveal(spec_flex_item);
    }
    let row = container.flex_direction.is_row();
    let m = box_metrics(style, reference(room));
    let a = along(&m, row);
    let how = align(container.align_items, style.align_self);
    let single = container.flex_wrap == FlexWrap::NoWrap;
    let known = known_cross(&a, how, single, cross_of(&room, row));
    let natural = content_size(
        contents,
        node,
        style,
        outers,
        m.known_inside(axes(row, Number::Undefined, known)),
    );
    let basis = border_box(
        style.flex_basis.resolve(Number::Defined(main_of(&room, row)), Number::Undefined),
        a.frame_main,
        style.box_sizing,
    );
    let base = basis.get_or(a.size_main.get_or(sat_add(main_of(&natural, row), a.frame_main)));
    FlexItem {
        slot,
        base: at_least_zero(base),
        min_main: a.min_main,
        max_main: a.max_main,
        cross: a.size_cross,
        min_cross: a.min_cross,
        max_cross: a.max_cross,
        grow: style.flex_grow,
        shrink: style.flex_shrink,
        margin_main_start: a.margin_main_start,
        margin_main_end: a.margin_main_end,
        margin_cross_start: a.margin_cross_start,
        margin_cross_end: a.margin_cross_end,
        frame_main: a.frame_main,
        frame_cross: a.frame_cross,
        align: how,
    }
}

/// Measures the cross size of the content of box `node` at main size `main`.
pub fn natural_cross<T: MeasureText>(
    contents: &mut Vec<Option<RectContent<T>>>,
    node: usize,
    container: &Style,
    room: Size<i64>,
    style: &Style,
    outers: &Vec<Size<i64>>,
    main: i64,
) -> (r: i64)
    requires
        node < old(contents).len(),
    ensures
        final(contents).len() == old(contents).len(),
        views(final(contents)@) == views(old(contents)@),
        r == spec_natural_cross(
            *container,
            room,
            Kid { style: *style, view: views(old(contents)@)[node as int], outers: outers@ },
            main,
        ),
{
    proof {
        reveal(spec_natural_cross);
    }
    let row = container.flex_direction.is_row();
    let m = box_metrics(style, reference(room));
    let natural = content_size(
        contents,
        node,
        style,
        outers,
        m.known_inside(axes(row, Number::Defined(main), Number::Undefined)),
    );
    sat_add(cross_of(&natural, row), along(&m, row).frame_cross)
}

/// A box of `size` whose border box starts at `(x, y)`.
pub fn placed_at(x: i64, y: i64, size: Size<i64>, m: &BoxMetrics) -> (r: Placed)
    ensures
        r == spec_placed_at(x, y, size, *m),
        is_length(x as int) && is_length(y as int) && 0 <= size.width <= MAX_LENGTH && 0
            <= size.height <= MAX_LENGTH ==> r.rect.wf(),
{
    Placed {
        rect: PositionedRectangle { origin: LayoutPoint { x, y }, size },
        inside: PositionedRectangle {
            origin: LayoutPoint {
                x: sat_add(x, sat_add(m.border.left, m.padding.left)),
                y: sat_add(y, sat_add(m.border.top, m.padding.top)),
            },
            size: Size {
                width: inside(size.width, m.frame_width()),
                height: inside(size.height, m.frame_height()),
            },
        },
        shown: true,
    }
}

/// By how much a box is moved from where the flow puts it: by its start
/// offset, else against its end offset, else not at all.
pub fn shift(start: Dimension, end: Dimension, reference: i64) -> (r: i64)
    ensures
        r == spec_shift(start, end, reference),
{
    match start.resolve(Number::Defined(reference), Number::Undefined) {
        Number::Defined(s) => s,
        Number::Undefined => match end.resolve(Number::Defined(reference), Number::Undefined) {
            Number::Defined(e) => sat_sub(0, e),
            Number::Undefined => 0,
        },
    }
}

/// The geometry of a child in the flow, from its place along the axes of
/// its container.
pub fn flow_placed(parent: &Placed, container: &Style, style: &Style, b: &ItemBox) -> (r: Placed)
    ensures
        r == spec_flow_placed(*parent, *container, *style, *b),
        r.rect.wf(),
{
    proof {
        reveal(spec_flow_placed);
    }
    let row = container.flex_direction.is_row();
    let room = parent.inside.size;
    let m = box_metrics(style, reference(room));
    let at = axes(row, b.main_position, b.cross_position);
    let size = sanitize(axes(row, b.main_size, b.cross_size));
    placed_at(
        sat_add(
            sat_add(parent.inside.origin.x, at.width),
            shift(style.position.left, style.position.right, room.width),
        ),
        sat_add(
            sat_add(parent.inside.origin.y, at.height),
            shift(style.position.top, style.position.bottom, room.height),
        ),
        size,
        &m,
    )
}

/// Where a lone box of `size` starts in `room`, its margins kept clear.
pub fn anchored(anchor: Anchor, room: i64, size: i64, margin_start: i64, margin_end: i64) -> (r:
    i64)
    ensures
        r == spec_anchored(anchor, room, size, margin_start, margin_end),
{
    match anchor {
        Anchor::Start => margin_start,
        Anchor::End => sat_sub(sat_sub(room, size), margin_end),
        Anchor::Center => sat_add(
            margin_start,
            scale(sat_sub(sat_sub(room, size), sat_add(margin_start, margin_end)), 1, 2),
        ),
    }
}

/// Where the main axis anchors a lone box; a reversed direction starts at
/// the far end.
pub fn main_anchor(justify: JustifyContent, reverse: bool) -> (r: Anchor)
    ensures
        r == spec_main_anchor(justify, reverse),
{
    match justify {
        JustifyContent::FlexStart | JustifyContent::SpaceBetween => if reverse {
            Anchor::End
        } else {
            Anchor::Start
        },
        JustifyContent::FlexEnd => if reverse {
            Anchor::Start
        } else {
            Anchor::End
        },
        _ => Anchor::Center,
    }
}

pub fn cross_anchor(align: AlignItems) -> (r: Anchor)
    ensures
        r == spec_cross_anchor(align),
{
    match align {
        AlignItems::FlexEnd => Anchor::End,
        AlignItems::Center => Anchor::Center,
        _ => Anchor::Start,
    }
}

fn absolute_known(size: Number, start: Number, end: Number, room: i64, margins: i64) -> (r: Number)
    ensures
        r == spec_absolute_known(size, start, end, room, margins),
{
    match size {
        Number::Defined(v) => Number::Defined(v),
        Number::Undefined => match (start, end) {
            (Number::Defined(s), Number::Defined(e)) => Number::Defined(
                at_least_zero(sat_sub(sat_sub(sat_sub(room, s), e), margins)),
            ),
            _ => Number::Undefined,
        },
    }
}

fn absolute_start(
    start: Number,
    end: Number,
    room: i64,
    size: i64,
    margin_start: i64,
    margin_end: i64,
    anchor: Anchor,
) -> (r: i64)
    ensures
        r == spec_absolute_start(start, end, room, size, margin_start, margin_end, anchor),
{
    match (start, end) {
        (Number::Defined(s), _) => sat_add(s, margin_start),
        (Number::Undefined, Number::Defined(e)) => sat_sub(
            sat_sub(sat_sub(room, e), margin_end),
            size,
        ),
        (Number::Undefined, Number::Undefined) => anchored(
            anchor,
            room,
            size,
            margin_start,
            margin_end,
        ),
    }
}

/// Places the child that is box `node` out of the flow.
pub fn absolute_placed<T: MeasureText>(
    contents: &mut Vec<Option<RectContent<T>>>,
    node: usize,
    parent: &Placed,
    container: &Style,
    style: &Style,
    outers: &Vec<Size<i64>>,
) -> (r: Placed)
    requires
        node < old(contents).len(),
    ensures
        final(contents).len() == old(contents).len(),
        views(final(contents)@) == views(old(contents)@),
        r == spec_absolute_placed(
            *parent,
            *container,
            Kid { style: *style, view: views(old(contents)@)[node as int], outers: outers@ },
        ),
        r.rect.wf(),
{
    proof {
        reveal(spec_absolute_placed);
    }
    let row = container.flex_direction.is_row();
    let reverse = container.flex_direction.is_reverse();
    let room = parent.inside.size;
    let m = box_metrics(style, reference(room));
    let none = Number::Undefined;
    let left = style.position.left.resolve(Number::Defined(room.width), none);
    let right = style.position.right.resolve(Number::Defined(room.width), none);
    let top = style.position.top.resolve(Number::Defined(room.height), none);
    let bottom = style.position.bottom.resolve(Number::Defined(room.height), none);
    let known = Size {
        width: absolute_known(
            m.size.width,
            left,
            right,
            room.width,
            m.margin.horizontal(),
        ),
        height: absolute_known(
            m.size.height,
            top,
            bottom,
            room.height,
            m.margin.vertical(),
        ),
    };
    let natural = content_size(contents, node, style, outers, m.known_inside(known));
    let size = sanitize(
        Size {
            width: clamp_box(
                known.width.get_or(sat_add(natural.width, m.frame_width())),
                m.min_size.width,
                m.max_size.width,
            ),
            height: clamp_box(
                known.height.get_or(sat_add(natural.height, m.frame_height())),
                m.min_size.height,
                m.max_size.height,
            ),
        },
    );
    let across = cross_anchor(align(container.align_items, style.align_self));
    let anchors = axes(row, main_anchor(container.justify_content, reverse), across);
    placed_at(
        sat_add(
            parent.inside.origin.x,
            absolute_start(
                left,
                right,
                room.width,
                size.width,
                m.margin.left,
                m.margin.right,
                anchors.width,
            ),
        ),
        sat_add(
            parent.inside.origin.y,
            absolute_start(
                top,
                bottom,
                room.height,
                size.height,
                m.margin.top,
                m.margin.bottom,
                anchors.height,
            ),
        ),
        size,
        &m,
    )
}

/// Places the root, which is box `node`.
pub fn root_placed<T: MeasureText>(
    contents: &mut Vec<Option<RectContent<T>>>,
    node: usize,
    bounds: Size<Number>,
    style: &Style,
    outers: &Vec<Size<i64>>,
) -> (r: Placed)
    requires
        node < old(contents).len(),
    ensures
        final(contents).len() == old(contents).len(),
        views(final(contents)@) == views(old(contents)@),
        r == spec_root_placed(
            bounds,
            Kid { style: *style, view: views(old(contents)@)[node as int], outers: outers@ },
        ),
        r.rect.wf(),
{
    proof {
        reveal(spec_root_placed);
    }
    match style.display {
        Display::Gone => gone(),
        _ => {
            let m = box_metrics(style, bounds);
            let natural = content_size(contents, node, style, outers, m.known_inside(m.size));
            placed_at(0, 0, sanitize(m.box_size(natural)), &m)
        },
    }
}

} // verus!
