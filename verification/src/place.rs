//! Where the items of a container go once their main sizes are settled:
//! cross sizes, positions along each line, and the positions of the lines.

use vstd::prelude::*;
use crate::flex::{deep, sat_sum, sum, FlexItem};
use crate::metrics::{clamp_box, spec_clamp_box};
use crate::number::{at_least_zero, clamp_length, non_negative, sat_add, sat_sub, saturate, scale, scaled};
use crate::style::{AlignContent, AlignItems, JustifyContent};

verus! {

/// An item whose main size is settled, with the cross size its content
/// would take at that main size.
#[derive(Clone, Copy, Debug, PartialEq, Eq)]
pub struct SizedItem {
    pub item: FlexItem,
    pub main: i64,
    pub natural_cross: i64,
}

/// The place of one item inside the content box of its container, along the
/// container's axes.
#[derive(Clone, Copy, Debug, PartialEq, Eq)]
pub struct ItemBox {
    pub slot: usize,
    pub main_position: i64,
    pub cross_position: i64,
    pub main_size: i64,
    pub cross_size: i64,
}

/// The cross size of an item that is not stretched: the size its style asks
/// for, else that of its content, held between its bounds.
pub open spec fn spec_hypothetical_cross(s: SizedItem) -> i64 {
    non_negative(
        spec_clamp_box(
            s.item.cross.spec_get_or(s.natural_cross),
            s.item.min_cross,
            s.item.max_cross,
        ) as int,
    ) as i64
}

pub open spec fn spec_outer_cross(s: SizedItem) -> i64 {
    clamp_length(spec_hypothetical_cross(s) + s.item.spec_margin_cross())
}

/// The largest outer cross size among the first `n` items; zero at least.
pub open spec fn spec_tallest(line: Seq<SizedItem>, n: int) -> i64
    decreases n,
{
    if n <= 0 {
        0
    } else {
        let rest = spec_tallest(line, n - 1);
        let outer = spec_outer_cross(line[n - 1]);
        if outer > rest {
            outer
        } else {
            rest
        }
    }
}

/// The cross size of each line before spare room is handed out: the whole
/// room where the container has a single line, else the tallest item.
pub open spec fn spec_natural_crosses(lines: Seq<Seq<SizedItem>>, room: i64, single: bool) -> Seq<
    i64,
> {
    Seq::new(
        lines.len(),
        |l: int|
            if single {
                room
            } else {
                spec_tallest(lines[l], lines[l].len() as int)
            },
    )
}

/// The cross size of each line. Where lines are stretched and room is to
/// spare, each line takes an equal part of it.
pub open spec fn spec_line_crosses(
    lines: Seq<Seq<SizedItem>>,
    room: i64,
    single: bool,
    stretch: bool,
) -> Seq<i64> {
    let natural = spec_natural_crosses(lines, room, single);
    let spare = clamp_length(room - sat_sum(natural));
    if stretch && spare > 0 && lines.len() > 0 {
        let part = scaled(spare as int, 1, clamp_length(lines.len() as int) as int);
        Seq::new(lines.len(), |l: int| clamp_length(natural[l] + part))
    } else {
        natural
    }
}

/// The room before the first of `count` boxes and the room between two of
/// them, when `spare` is what the boxes leave of their line.
///
/// Packed to the start there is neither; packed to the end all of it leads;
/// centred, half of it leads. Spread between, the boxes are `spare / (count
/// - 1)` apart and none leads; spread around, they are `spare / count` apart
/// and half a gap leads; spread evenly, `spare / (count + 1)` both leads and
/// parts them.
pub open spec fn spec_spacing(mode: JustifyContent, spare: i64, count: nat) -> (i64, i64) {
    match mode {
        JustifyContent::FlexStart => (0, 0),
        JustifyContent::FlexEnd => (spare, 0),
        JustifyContent::Center => (scaled(spare as int, 1, 2), 0),
        JustifyContent::SpaceBetween => if count > 1 {
            (0, scaled(spare as int, 1, clamp_length(count - 1) as int))
        } else {
            (0, 0)
        },
        JustifyContent::SpaceAround => if count > 0 {
            let gap = scaled(spare as int, 1, clamp_length(count as int) as int);
            (scaled(gap as int, 1, 2), gap)
        } else {
            (0, 0)
        },
        JustifyContent::SpaceEvenly => {
            let gap = scaled(spare as int, 1, clamp_length(count as int + 1) as int);
            (gap, gap)
        },
    }
}

/// Lines are spaced by the rules for items; stretched lines pack to the
/// start.
pub open spec fn spec_line_mode(a: AlignContent) -> JustifyContent {
    match a {
        AlignContent::Stretch => JustifyContent::FlexStart,
        AlignContent::FlexStart => JustifyContent::FlexStart,
        AlignContent::FlexEnd => JustifyContent::FlexEnd,
        AlignContent::Center => JustifyContent::Center,
        AlignContent::SpaceBetween => JustifyContent::SpaceBetween,
        AlignContent::SpaceAround => JustifyContent::SpaceAround,
    }
}

/// Where box `i` starts when boxes of the sizes `outer` follow one another,
/// `lead` before the first and `gap` between two.
pub open spec fn spec_start(outer: Seq<i64>, lead: i64, gap: i64, i: int) -> i64
    decreases i,
{
    if i <= 0 {
        lead
    } else {
        clamp_length(clamp_length(spec_start(outer, lead, gap, i - 1) + outer[i - 1]) + gap)
    }
}

pub open spec fn spec_starts(outer: Seq<i64>, lead: i64, gap: i64) -> Seq<i64> {
    Seq::new(outer.len(), |i: int| spec_start(outer, lead, gap, i))
}

/// The cross size of an item on a line: a stretched item without a size of
/// its own fills the line but for its margins, within its bounds.
pub open spec fn spec_cross_size(s: SizedItem, line_cross: i64) -> i64 {
    if s.item.align == AlignItems::Stretch && s.item.cross is Undefined {
        non_negative(
            spec_clamp_box(
                clamp_length(line_cross - s.item.spec_margin_cross()),
                s.item.min_cross,
                s.item.max_cross,
            ) as int,
        ) as i64
    } else {
        spec_hypothetical_cross(s)
    }
}

/// How far from the start of its line an item of cross size `size` sits.
pub open spec fn spec_cross_offset(s: SizedItem, size: i64, line_cross: i64) -> i64 {
    let spare = clamp_length(line_cross - size);
    match s.item.align {
        AlignItems::FlexEnd => clamp_length(spare - s.item.margin_cross_end),
        AlignItems::Center => clamp_length(
            s.item.margin_cross_start + scaled(
                clamp_length(spare - s.item.spec_margin_cross()) as int,
                1,
                2,
            ),
        ),
        _ => s.item.margin_cross_start,
    }
}

/// Where the border box of an item starts on the main axis, when its outer
/// box starts `start` from the main start. In a reversed direction the main
/// start is the far end of the room.
pub open spec fn spec_main_position(
    room: i64,
    start: i64,
    outer: i64,
    margin_start: i64,
    reverse: bool,
) -> i64 {
    if reverse {
        clamp_length(clamp_length(clamp_length(room - start) - outer) + margin_start)
    } else {
        clamp_length(start + margin_start)
    }
}

pub open spec fn spec_outer_mains(line: Seq<SizedItem>) -> Seq<i64> {
    Seq::new(line.len(), |i: int| line[i].item.spec_outer_main(line[i].main))
}

/// The places of the items of one line, which is `line_cross` across and
/// starts `line_start` from the cross start of the container.
pub open spec fn spec_place_line(
    line: Seq<SizedItem>,
    room: i64,
    justify: JustifyContent,
    reverse: bool,
    line_cross: i64,
    line_start: i64,
) -> Seq<ItemBox> {
    let outer = spec_outer_mains(line);
    let spare = clamp_length(room - sat_sum(outer));
    let (lead, gap) = spec_spacing(justify, spare, line.len());
    Seq::new(
        line.len(),
        |i: int|
            {
                let cross = spec_cross_size(line[i], line_cross);
                ItemBox {
                    slot: line[i].item.slot,
                    main_position: spec_main_position(
                        room,
                        spec_start(outer, lead, gap, i),
                        outer[i],
                        line[i].item.margin_main_start,
                        reverse,
                    ),
                    cross_position: clamp_length(
                        line_start + spec_cross_offset(line[i], cross, line_cross),
                    ),
                    main_size: line[i].main,
                    cross_size: cross,
                }
            },
    )
}

/// The places of all items of a container with `room_main` by `room_cross`
/// inside.
#[verifier::opaque]
pub open spec fn spec_place(
    lines: Seq<Seq<SizedItem>>,
    room_main: i64,
    room_cross: i64,
    justify: JustifyContent,
    align_content: AlignContent,
    reverse: bool,
    single: bool,
) -> Seq<Seq<ItemBox>> {
    let crosses = spec_line_crosses(
        lines,
        room_cross,
        single,
        align_content == AlignContent::Stretch,
    );
    let spare = clamp_length(room_cross - sat_sum(crosses));
    let (lead, gap) = spec_spacing(spec_line_mode(align_content), spare, lines.len());
    Seq::new(
        lines.len(),
        |l: int|
            spec_place_line(
                lines[l],
                room_main,
                justify,
                reverse,
                crosses[l],
                spec_start(crosses, lead, gap, l),
            ),
    )
}

/// The cross size of an item that is not stretched: the size its style asks
/// for, else that of its content, held between its bounds.
pub fn hypothetical_cross(s: &SizedItem) -> (r: i64)
    ensures
        r == spec_hypothetical_cross(*s),
        r >= 0,
{
    at_least_zero(clamp_box(s.item.cross.get_or(s.natural_cross), s.item.min_cross, s.item.max_cross))
}

pub fn outer_cross(s: &SizedItem) -> (r: i64)
    ensures
        r == spec_outer_cross(*s),
{
    sat_add(hypothetical_cross(s), s.item.margin_cross())
}

fn tallest(line: &Vec<SizedItem>) -> (r: i64)
    ensures
        r == spec_tallest(line@, line@.len() as int),
{
    let mut best: i64 = 0;
    let mut i: usize = 0;
    while i < line.len()
        invariant
            i <= line.len(),
            best == spec_tallest(line@, i as int),
        decreases line.len() - i,
    {
        let outer = outer_cross(&line[i]);
        if outer > best {
            best = outer;
        }
        i += 1;
    }
    best
}

fn count_of(n: usize) -> (r: i64)
    ensures
        r == clamp_length(n as int),
{
    saturate(n as i128)
}

fn line_crosses(lines: &Vec<Vec<SizedItem>>, room: i64, single: bool, stretch: bool) -> (r: Vec<i64>)
    ensures
        r@ == spec_line_crosses(deep(lines@), room, single, stretch),
        r.len() == lines.len(),
{
    let mut natural: Vec<i64> = Vec::new();
    let mut l: usize = 0;
    while l < lines.len()
        invariant
            l <= lines.len(),
            natural@.len() == l,
            forall|j: int|
                0 <= j < l ==> natural@[j] == spec_natural_crosses(deep(lines@), room, single)[j],
        decreases lines.len() - l,
    {
        natural.push(
            if single {
                room
            } else {
                tallest(&lines[l])
            },
        );
        l += 1;
    }
    assert(natural@ =~= spec_natural_crosses(deep(lines@), room, single));
    let spare = sat_sub(room, sum(&natural));
    if stretch && spare > 0 && lines.len() > 0 {
        let part = scale(spare, 1, count_of(lines.len()));
        let mut out: Vec<i64> = Vec::new();
        let mut k: usize = 0;
        while k < lines.len()
            invariant
                k <= lines.len(),
                natural.len() == lines.len(),
                out@.len() == k,
                forall|j: int| 0 <= j < k ==> out@[j] == clamp_length(natural@[j] + part),
            decreases lines.len() - k,
        {
            out.push(sat_add(natural[k], part));
            k += 1;
        }
        assert(out@ =~= spec_line_crosses(deep(lines@), room, single, stretch));
        out
    } else {
        natural
    }
}

/// The room before the first of `count` boxes and the room between two of
/// them, when `spare` is what the boxes leave of their line.
///
/// Packed to the start there is neither; packed to the end all of it leads;
/// centred, half of it leads. Spread between, the boxes are `spare / (count
/// - 1)` apart and none leads; spread around, they are `spare / count` apart
/// and half a gap leads; spread evenly, `spare / (count + 1)` both leads and
/// parts them.
pub fn spacing(mode: JustifyContent, spare: i64, count: usize) -> (r: (i64, i64))
    ensures
        r == spec_spacing(mode, spare, count as nat),
{
    match mode {
        JustifyContent::FlexStart => (0, 0),
        JustifyContent::FlexEnd => (spare, 0),
        JustifyContent::Center => (scale(spare, 1, 2), 0),
        JustifyContent::SpaceBetween => if count > 1 {
            (0, scale(spare, 1, count_of(count - 1)))
        } else {
            (0, 0)
        },
        JustifyContent::SpaceAround => if count > 0 {
            let gap = scale(spare, 1, count_of(count));
            (scale(gap, 1, 2), gap)
        } else {
            (0, 0)
        },
        JustifyContent::SpaceEvenly => {
            let gap = scale(spare, 1, saturate(count as i128 + 1));
            (gap, gap)
        },
    }
}

/// Lines are spaced by the rules for items; stretched lines pack to the
/// start.
pub fn line_mode(a: AlignContent) -> (r: JustifyContent)
    ensures
        r == spec_line_mode(a),
{
    match a {
        AlignContent::Stretch => JustifyContent::FlexStart,
        AlignContent::FlexStart => JustifyContent::FlexStart,
        AlignContent::FlexEnd => JustifyContent::FlexEnd,
        AlignContent::Center => JustifyContent::Center,
        AlignContent::SpaceBetween => JustifyContent::SpaceBetween,
        AlignContent::SpaceAround => JustifyContent::SpaceAround,
    }
}

pub fn starts(outer: &Vec<i64>, lead: i64, gap: i64) -> (r: Vec<i64>)
    ensures
        r@ == spec_starts(outer@, lead, gap),
        r.len() == outer.len(),
{
    let mut out: Vec<i64> = Vec::new();
    let mut at: i64 = lead;
    let mut i: usize = 0;
    while i < outer.len()
        invariant
            i <= outer.len(),
            out@.len() == i,
            at == spec_start(outer@, lead, gap, i as int),
            forall|j: int| 0 <= j < i ==> out@[j] == spec_start(outer@, lead, gap, j),
        decreases outer.len() - i,
    {
        out.push(at);
        at = sat_add(sat_add(at, outer[i]), gap);
        i += 1;
    }
    assert(out@ =~= spec_starts(outer@, lead, gap));
    out
}

/// The cross size of an item on a line: a stretched item without a size of
/// its own fills the line but for its margins, within its bounds.
pub fn cross_size(s: &SizedItem, line_cross: i64) -> (r: i64)
    ensures
        r == spec_cross_size(*s, line_cross),
        r >= 0,
{
    let stretched = match s.item.align {
        AlignItems::Stretch => !s.item.cross.is_defined(),
        _ => false,
    };
    if stretched {
        at_least_zero(
            clamp_box(
                sat_sub(line_cross, s.item.margin_cross()),
                s.item.min_cross,
                s.item.max_cross,
            ),
        )
    } else {
        hypothetical_cross(s)
    }
}

/// How far from the start of its line an item of cross size `size` sits.
pub fn cross_offset(s: &SizedItem, size: i64, line_cross: i64) -> (r: i64)
    ensures
        r == spec_cross_offset(*s, size, line_cross),
{
    let spare = sat_sub(line_cross, size);
    match s.item.align {
        AlignItems::FlexEnd => sat_sub(spare, s.item.margin_cross_end),
        AlignItems::Center => sat_add(
            s.item.margin_cross_start,
            scale(sat_sub(spare, s.item.margin_cross()), 1, 2),
        ),
        _ => s.item.margin_cross_start,
    }
}

/// Where the border box of an item starts on the main axis, when its outer
/// box starts `start` from the main start. In a reversed direction the main
/// start is the far end of the room.
pub fn main_position(room: i64, start: i64, outer: i64, margin_start: i64, reverse: bool) -> (r:
    i64)
    ensures
        r == spec_main_position(room, start, outer, margin_start, reverse),
{
    if reverse {
        sat_add(sat_sub(sat_sub(room, start), outer), margin_start)
    } else {
        sat_add(start, margin_start)
    }
}

fn outer_mains(line: &Vec<SizedItem>) -> (r: Vec<i64>)
    ensures
        r@ == spec_outer_mains(line@),
        r.len() == line.len(),
{
    let mut out: Vec<i64> = Vec::new();
    let mut i: usize = 0;
    while i < line.len()
        invariant
            i <= line.len(),
            out@.len() == i,
            forall|j: int| 0 <= j < i ==> out@[j] == line@[j].item.spec_outer_main(line@[j].main),
        decreases line.len() - i,
    {
        out.push(line[i].item.outer_main(line[i].main));
        i += 1;
    }
    assert(out@ =~= spec_outer_mains(line@));
    out
}

/// The places of the items of one line, which is `line_cross` across and
/// starts `line_start` from the cross start of the container.
pub fn place_line(
    line: &Vec<SizedItem>,
    room: i64,
    justify: JustifyContent,
    reverse: bool,
    line_cross: i64,
    line_start: i64,
) -> (r: Vec<ItemBox>)
    ensures
        r@ == spec_place_line(line@, room, justify, reverse, line_cross, line_start),
        r.len() == line.len(),
{
    let outer = outer_mains(line);
    let spare = sat_sub(room, sum(&outer));
    let (lead, gap) = spacing(justify, spare, line.len());
    let at = starts(&outer, lead, gap);
    let ghost want = spec_place_line(line@, room, justify, reverse, line_cross, line_start);
    let mut out: Vec<ItemBox> = Vec::new();
    let mut i: usize = 0;
    while i < line.len()
        invariant
            i <= line.len(),
            outer.len() == line.len(),
            at.len() == line.len(),
            outer@ == spec_outer_mains(line@),
            spare == clamp_length(room - sat_sum(outer@)),
            (lead, gap) == spec_spacing(justify, spare, line@.len()),
            at@ == spec_starts(outer@, lead, gap),
            want == spec_place_line(line@, room, justify, reverse, line_cross, line_start),
            out@.len() == i,
            forall|j: int| 0 <= j < i ==> out@[j] == want[j],
        decreases line.len() - i,
    {
        let s = line[i];
        let cross = cross_size(&s, line_cross);
        out.push(
            ItemBox {
                slot: s.item.slot,
                main_position: main_position(room, at[i], outer[i], s.item.margin_main_start, reverse),
                cross_position: sat_add(line_start, cross_offset(&s, cross, line_cross)),
                main_size: s.main,
                cross_size: cross,
            },
        );
        i += 1;
    }
    assert(out@ =~= want);
    out
}

/// The places of all items of a container with `room_main` by `room_cross`
/// inside.
pub fn place(
    lines: &Vec<Vec<SizedItem>>,
    room_main: i64,
    room_cross: i64,
    justify: JustifyContent,
    align_content: AlignContent,
    reverse: bool,
    single: bool,
) -> (r: Vec<Vec<ItemBox>>)
    ensures
        deep(r@) == spec_place(
            deep(lines@),
            room_main,
            room_cross,
            justify,
            align_content,
            reverse,
            single,
        ),
        r.len() == lines.len(),
        forall|l: int| 0 <= l < r.len() ==> (#[trigger] r@[l]).len() == lines@[l].len(),
{
    proof {
        reveal(spec_place);
    }
    let stretch = match align_content {
        AlignContent::Stretch => true,
        _ => false,
    };
    let crosses = line_crosses(lines, room_cross, single, stretch);
    let spare = sat_sub(room_cross, sum(&crosses));
    let (lead, gap) = spacing(line_mode(align_content), spare, lines.len());
    let at = starts(&crosses, lead, gap);
    let ghost want = spec_place(
        deep(lines@),
        room_main,
        room_cross,
        justify,
        align_content,
        reverse,
        single,
    );
    let mut out: Vec<Vec<ItemBox>> = Vec::new();
    let mut l: usize = 0;
    while l < lines.len()
        invariant
            l <= lines.len(),
            crosses.len() == lines.len(),
            at.len() == lines.len(),
            crosses@ == spec_line_crosses(deep(lines@), room_cross, single, stretch),
            stretch == (align_content == AlignContent::Stretch),
            spare == clamp_length(room_cross - sat_sum(crosses@)),
            (lead, gap) == spec_spacing(spec_line_mode(align_content), spare, lines@.len()),
            at@ == spec_starts(crosses@, lead, gap),
            want == spec_place(
                deep(lines@),
                room_main,
                room_cross,
                justify,
                align_content,
                reverse,
                single,
            ),
            out@.len() == l,
            forall|j: int| 0 <= j < l ==> (#[trigger] out@[j])@ == want[j],
            forall|j: int| 0 <= j < l ==> (#[trigger] out@[j]).len() == lines@[j].len(),
        decreases lines.len() - l,
    {
        proof {
            reveal(spec_place);
        }
        let boxes = place_line(&lines[l], room_main, justify, reverse, crosses[l], at[l]);
        out.push(boxes);
        l += 1;
    }
    assert(deep(out@) =~= want) by {
        reveal(spec_place);
    }
    out
}

} // verus!
