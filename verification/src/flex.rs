//! Flex lines: how the children of one container share its main axis.
//!
//! Everything here is along the container's axes. The main axis is the one
//! the flex direction names, the cross axis the other one; sizes are
//! border-box sizes, and an outer size adds the margins.

use vstd::prelude::*;
use crate::metrics::{clamp_box, spec_clamp_box};
use crate::number::{at_least_zero, clamp_length, non_negative, sat_add, sat_sub, scale, scaled, Number};
use crate::style::AlignItems;

verus! {

/// Thousandths in one: the unit of a flex factor.
pub const FACTOR_UNIT: i64 = 1000;

/// One child in the flow of its container.
#[derive(Clone, Copy, Debug, PartialEq, Eq)]
pub struct FlexItem {
    /// Which child of the container this is.
    pub slot: usize,
    /// The main size before any growing or shrinking.
    pub base: i64,
    pub min_main: i64,
    pub max_main: Number,
    /// The cross size the style asks for, where it asks for one.
    pub cross: Number,
    pub min_cross: i64,
    pub max_cross: Number,
    pub grow: i64,
    pub shrink: i64,
    pub margin_main_start: i64,
    pub margin_main_end: i64,
    pub margin_cross_start: i64,
    pub margin_cross_end: i64,
    /// Padding and border along the main axis.
    pub frame_main: i64,
    /// Padding and border along the cross axis.
    pub frame_cross: i64,
    /// How the item sits on the cross axis of its line.
    pub align: AlignItems,
}

/// The saturating sum of `s`, taken from the left.
pub open spec fn sat_sum(s: Seq<i64>) -> i64
    decreases s.len(),
{
    if s.len() == 0 {
        0
    } else {
        clamp_length(sat_sum(s.drop_last()) + s.last())
    }
}

/// A size held between the item's main-axis bounds, and never negative.
pub open spec fn spec_fit_main(v: i64, item: FlexItem) -> i64 {
    non_negative(spec_clamp_box(v, item.min_main, item.max_main) as int) as i64
}

impl FlexItem {
    pub open spec fn spec_margin_main(self) -> i64 {
        clamp_length(self.margin_main_start + self.margin_main_end)
    }

    pub open spec fn spec_margin_cross(self) -> i64 {
        clamp_length(self.margin_cross_start + self.margin_cross_end)
    }

    /// The base size held between the main-axis bounds.
    pub open spec fn spec_hypothetical(self) -> i64 {
        spec_fit_main(self.base, self)
    }

    /// A main size of the item with its margins added.
    pub open spec fn spec_outer_main(self, size: i64) -> i64 {
        clamp_length(size + self.spec_margin_main())
    }

    /// The flex factor in use: the grow factor where the line grows, the
    /// shrink factor where it shrinks; a negative factor counts as zero.
    pub open spec fn spec_factor(self, growing: bool) -> i64 {
        non_negative(
            if growing {
                self.grow
            } else {
                self.shrink
            } as int,
        ) as i64
    }

    /// Whether the item keeps its hypothetical size from the start: it has
    /// no factor, or its bounds already push it the other way.
    pub open spec fn spec_inflexible(self, growing: bool) -> bool {
        ||| self.spec_factor(growing) == 0
        ||| growing && self.base > self.spec_hypothetical()
        ||| !growing && self.base < self.spec_hypothetical()
    }

    /// The weight by which the item takes part in a distribution: its grow
    /// factor, or its shrink factor scaled by its base size.
    pub open spec fn spec_weight(self, frozen: bool, growing: bool) -> i64 {
        if frozen {
            0
        } else if growing {
            self.spec_factor(true)
        } else {
            non_negative(
                scaled(self.base as int, self.spec_factor(false) as int, FACTOR_UNIT as int) as int,
            ) as i64
        }
    }

    pub fn margin_main(&self) -> (r: i64)
        ensures
            r == self.spec_margin_main(),
    {
        sat_add(self.margin_main_start, self.margin_main_end)
    }

    pub fn margin_cross(&self) -> (r: i64)
        ensures
            r == self.spec_margin_cross(),
    {
        sat_add(self.margin_cross_start, self.margin_cross_end)
    }

    /// The base size held between the main-axis bounds.
    pub fn hypothetical(&self) -> (r: i64)
        ensures
            r == self.spec_hypothetical(),
            r >= 0,
    {
        fit_main(self.base, self)
    }

    /// A main size of the item with its margins added.
    pub fn outer_main(&self, size: i64) -> (r: i64)
        ensures
            r == self.spec_outer_main(size),
    {
        sat_add(size, self.margin_main())
    }

    /// The flex factor in use: the grow factor where the line grows, the
    /// shrink factor where it shrinks; a negative factor counts as zero.
    pub fn factor(&self, growing: bool) -> (r: i64)
        ensures
            r == self.spec_factor(growing),
    {
        at_least_zero(
            if growing {
                self.grow
            } else {
                self.shrink
            },
        )
    }

    /// Whether the item keeps its hypothetical size from the start: it has
    /// no factor, or its bounds already push it the other way.
    pub fn inflexible(&self, growing: bool) -> (r: bool)
        ensures
            r == self.spec_inflexible(growing),
    {
        let h = self.hypothetical();
        self.factor(growing) == 0 || (growing && self.base > h) || (!growing && self.base < h)
    }

    /// The weight by which the item takes part in a distribution: its grow
    /// factor, or its shrink factor scaled by its base size.
    pub fn weight(&self, frozen: bool, growing: bool) -> (r: i64)
        ensures
            r == self.spec_weight(frozen, growing),
    {
        if frozen {
            0
        } else if growing {
            self.factor(true)
        } else {
            at_least_zero(scale(self.base, self.factor(false), FACTOR_UNIT))
        }
    }
}

/// A size held between the item's main-axis bounds, and never negative.
pub fn fit_main(v: i64, item: &FlexItem) -> (r: i64)
    ensures
        r == spec_fit_main(v, *item),
        r >= 0,
{
    at_least_zero(clamp_box(v, item.min_main, item.max_main))
}

/// The saturating sum of `v`, taken from the left.
pub fn sum(v: &Vec<i64>) -> (r: i64)
    ensures
        r == sat_sum(v@),
{
    let mut total: i64 = 0;
    let mut i: usize = 0;
    while i < v.len()
        invariant
            i <= v.len(),
            total == sat_sum(v@.take(i as int)),
        decreases v.len() - i,
    {
        assert(v@.take(i + 1).drop_last() =~= v@.take(i as int));
        total = sat_add(total, v[i]);
        i += 1;
    }
    assert(v@.take(v.len() as int) =~= v@);
    total
}

/// The items gathered into lines so far: the lines that are closed, the
/// line that is open, and the outer extent of the open line.
pub open spec fn spec_fill_lines(items: Seq<FlexItem>, room: i64, wrap: bool, n: int) -> (
    Seq<Seq<FlexItem>>,
    Seq<FlexItem>,
    i64,
)
    decreases n,
{
    if n <= 0 {
        (Seq::empty(), Seq::empty(), 0)
    } else {
        let (closed, open, extent) = spec_fill_lines(items, room, wrap, n - 1);
        let item = items[n - 1];
        let outer = item.spec_outer_main(item.spec_hypothetical());
        let grown = clamp_length(extent + outer);
        if wrap && open.len() > 0 && grown > room {
            (closed.push(open), seq![item], outer)
        } else {
            (closed, open.push(item), grown)
        }
    }
}

/// The flex lines of a container with `room` on its main axis.
///
/// Without wrapping all items share one line. With wrapping, an item joins
/// the open line while the hypothetical outer sizes on it, the item's
/// included, stay within `room`; the first item of a line always fits.
#[verifier::opaque]
pub open spec fn spec_lines(items: Seq<FlexItem>, room: i64, wrap: bool) -> Seq<Seq<FlexItem>> {
    let (closed, open, extent) = spec_fill_lines(items, room, wrap, items.len() as int);
    if open.len() > 0 {
        closed.push(open)
    } else {
        closed
    }
}

/// The lines of a nested vector as sequences.
pub open spec fn deep<T>(v: Seq<Vec<T>>) -> Seq<Seq<T>> {
    Seq::new(v.len(), |i: int| v[i]@)
}

/// The flex lines of a container with `room` on its main axis.
///
/// Without wrapping all items share one line. With wrapping, an item joins
/// the open line while the hypothetical outer sizes on it, the item's
/// included, stay within `room`; the first item of a line always fits.
pub fn lines(items: &Vec<FlexItem>, room: i64, wrap: bool) -> (r: Vec<Vec<FlexItem>>)
    ensures
        deep(r@) == spec_lines(items@, room, wrap),
{
    proof {
        reveal(spec_lines);
    }
    let mut closed: Vec<Vec<FlexItem>> = Vec::new();
    let mut open: Vec<FlexItem> = Vec::new();
    let mut extent: i64 = 0;
    let mut i: usize = 0;
    assert(deep(closed@) =~= Seq::<Seq<FlexItem>>::empty());
    while i < items.len()
        invariant
            i <= items.len(),
            (deep(closed@), open@, extent) == spec_fill_lines(items@, room, wrap, i as int),
        decreases items.len() - i,
    {
        let item = items[i];
        let outer = item.outer_main(item.hypothetical());
        let grown = sat_add(extent, outer);
        if wrap && open.len() > 0 && grown > room {
            let ghost before = deep(closed@);
            let ghost line = open@;
            closed.push(open);
            assert(deep(closed@) =~= before.push(line));
            open = Vec::new();
            open.push(item);
            assert(open@ =~= seq![item]);
            extent = outer;
        } else {
            open.push(item);
            extent = grown;
        }
        i += 1;
    }
    if open.len() > 0 {
        let ghost before = deep(closed@);
        let ghost line = open@;
        closed.push(open);
        assert(deep(closed@) =~= before.push(line));
    }
    closed
}

/// The hypothetical outer main sizes of the items of a line.
pub open spec fn spec_outer_hypotheticals(line: Seq<FlexItem>) -> Seq<i64> {
    Seq::new(line.len(), |i: int| line[i].spec_outer_main(line[i].spec_hypothetical()))
}

/// Whether the items of a line have room to grow: their hypothetical outer
/// sizes together stay below `room`. Otherwise they shrink.
pub open spec fn spec_growing(line: Seq<FlexItem>, room: i64) -> bool {
    sat_sum(spec_outer_hypotheticals(line)) < room
}

/// The outer room each item takes for now: a frozen item its target, any
/// other its base size.
pub open spec fn spec_used(line: Seq<FlexItem>, frozen: Seq<bool>, target: Seq<i64>) -> Seq<i64> {
    Seq::new(
        line.len(),
        |i: int|
            line[i].spec_outer_main(
                if frozen[i] {
                    target[i]
                } else {
                    line[i].base
                },
            ),
    )
}

/// The room left on the line; negative where the items overflow it.
pub open spec fn spec_free(
    line: Seq<FlexItem>,
    room: i64,
    frozen: Seq<bool>,
    target: Seq<i64>,
) -> i64 {
    clamp_length(room - sat_sum(spec_used(line, frozen, target)))
}

pub open spec fn spec_weights(line: Seq<FlexItem>, frozen: Seq<bool>, growing: bool) -> Seq<i64> {
    Seq::new(line.len(), |i: int| line[i].spec_weight(frozen[i], growing))
}

/// The part of `free` that falls to a weight out of a total of weights.
pub open spec fn spec_share(free: i64, weight: i64, total: i64) -> i64 {
    if total > 0 {
        scaled(free as int, weight as int, total as int)
    } else {
        0
    }
}

/// The size each item would take if the free room were shared out by
/// weight, before its bounds are looked at.
pub open spec fn spec_raw(
    line: Seq<FlexItem>,
    room: i64,
    growing: bool,
    frozen: Seq<bool>,
    target: Seq<i64>,
) -> Seq<i64> {
    let free = spec_free(line, room, frozen, target);
    let weights = spec_weights(line, frozen, growing);
    let total = sat_sum(weights);
    Seq::new(
        line.len(),
        |i: int| clamp_length(line[i].base + spec_share(free, weights[i], total)),
    )
}

/// By how much its bounds move each item that is not frozen: positive where
/// the minimum lifts it, negative where the maximum caps it.
pub open spec fn spec_violations(line: Seq<FlexItem>, frozen: Seq<bool>, raw: Seq<i64>) -> Seq<
    i64,
> {
    Seq::new(
        line.len(),
        |i: int|
            if frozen[i] {
                0
            } else {
                clamp_length(spec_fit_main(raw[i], line[i]) - raw[i])
            },
    )
}

/// One round of sharing out and clamping.
///
/// The free room is shared among the items that are not frozen, and each
/// share is held between the item's bounds. Where the bounds changed
/// nothing in total, every item is frozen at its size. Where they added
/// room in total, the items that were lifted to their minimum are frozen;
/// where they took room away, those that were capped at their maximum.
pub open spec fn spec_round(
    line: Seq<FlexItem>,
    room: i64,
    growing: bool,
    frozen: Seq<bool>,
    target: Seq<i64>,
) -> (Seq<bool>, Seq<i64>) {
    let raw = spec_raw(line, room, growing, frozen, target);
    let violations = spec_violations(line, frozen, raw);
    let excess = sat_sum(violations);
    (
        Seq::new(
            line.len(),
            |i: int|
                {
                    ||| frozen[i]
                    ||| excess == 0
                    ||| excess > 0 && violations[i] > 0
                    ||| excess < 0 && violations[i] < 0
                },
        ),
        Seq::new(
            line.len(),
            |i: int|
                if frozen[i] {
                    target[i]
                } else {
                    spec_fit_main(raw[i], line[i])
                },
        ),
    )
}

pub open spec fn all_frozen(frozen: Seq<bool>) -> bool {
    forall|i: int| 0 <= i < frozen.len() ==> frozen[i]
}

/// The targets after rounds are repeated until every item is frozen, or
/// `rounds` of them are done.
pub open spec fn spec_settle(
    line: Seq<FlexItem>,
    room: i64,
    growing: bool,
    frozen: Seq<bool>,
    target: Seq<i64>,
    rounds: nat,
) -> Seq<i64>
    decreases rounds,
{
    if rounds == 0 || all_frozen(frozen) {
        target
    } else {
        let (f, t) = spec_round(line, room, growing, frozen, target);
        spec_settle(line, room, growing, f, t, (rounds - 1) as nat)
    }
}

/// The main sizes of the items of one line in a container with `room` on
/// its main axis.
///
/// Every item starts from its hypothetical size. Items without a flex
/// factor, and items whose bounds already push them against the direction
/// of the line, are frozen there. The others share the free room in rounds,
/// one round for each item at most.
#[verifier::opaque]
pub open spec fn spec_main_sizes(line: Seq<FlexItem>, room: i64) -> Seq<i64> {
    let growing = spec_growing(line, room);
    spec_settle(
        line,
        room,
        growing,
        Seq::new(line.len(), |i: int| line[i].spec_inflexible(growing)),
        Seq::new(line.len(), |i: int| line[i].spec_hypothetical()),
        line.len(),
    )
}

pub open spec fn none_negative(s: Seq<i64>) -> bool {
    forall|i: int| 0 <= i < s.len() ==> s[i] >= 0
}

/// The part of `free` that falls to a weight out of a total of weights.
pub fn share(free: i64, weight: i64, total: i64) -> (r: i64)
    ensures
        r == spec_share(free, weight, total),
{
    if total > 0 {
        scale(free, weight, total)
    } else {
        0
    }
}

fn outer_hypotheticals(line: &Vec<FlexItem>) -> (r: Vec<i64>)
    ensures
        r@ == spec_outer_hypotheticals(line@),
{
    let mut out: Vec<i64> = Vec::new();
    let mut i: usize = 0;
    while i < line.len()
        invariant
            i <= line.len(),
            out@.len() == i,
            forall|j: int|
                0 <= j < i ==> out@[j] == line@[j].spec_outer_main(line@[j].spec_hypothetical()),
        decreases line.len() - i,
    {
        let item = line[i];
        out.push(item.outer_main(item.hypothetical()));
        i += 1;
    }
    assert(out@ =~= spec_outer_hypotheticals(line@));
    out
}

fn used(line: &Vec<FlexItem>, frozen: &Vec<bool>, target: &Vec<i64>) -> (r: Vec<i64>)
    requires
        frozen.len() == line.len(),
        target.len() == line.len(),
    ensures
        r@ == spec_used(line@, frozen@, target@),
{
    let mut out: Vec<i64> = Vec::new();
    let mut i: usize = 0;
    while i < line.len()
        invariant
            i <= line.len(),
            frozen.len() == line.len(),
            target.len() == line.len(),
            out@.len() == i,
            forall|j: int| 0 <= j < i ==> out@[j] == spec_used(line@, frozen@, target@)[j],
        decreases line.len() - i,
    {
        let item = line[i];
        let size = if frozen[i] {
            target[i]
        } else {
            item.base
        };
        out.push(item.outer_main(size));
        i += 1;
    }
    assert(out@ =~= spec_used(line@, frozen@, target@));
    out
}

fn weights(line: &Vec<FlexItem>, frozen: &Vec<bool>, growing: bool) -> (r: Vec<i64>)
    requires
        frozen.len() == line.len(),
    ensures
        r@ == spec_weights(line@, frozen@, growing),
{
    let mut out: Vec<i64> = Vec::new();
    let mut i: usize = 0;
    while i < line.len()
        invariant
            i <= line.len(),
            frozen.len() == line.len(),
            out@.len() == i,
            forall|j: int| 0 <= j < i ==> out@[j] == line@[j].spec_weight(frozen@[j], growing),
        decreases line.len() - i,
    {
        let item = line[i];
        out.push(item.weight(frozen[i], growing));
        i += 1;
    }
    assert(out@ =~= spec_weights(line@, frozen@, growing));
    out
}

fn raw_sizes(
    line: &Vec<FlexItem>,
    room: i64,
    growing: bool,
    frozen: &Vec<bool>,
    target: &Vec<i64>,
) -> (r: Vec<i64>)
    requires
        frozen.len() == line.len(),
        target.len() == line.len(),
    ensures
        r@ == spec_raw(line@, room, growing, frozen@, target@),
{
    let taken = used(line, frozen, target);
    let free = sat_sub(room, sum(&taken));
    let shares = weights(line, frozen, growing);
    let total = sum(&shares);
    let mut out: Vec<i64> = Vec::new();
    let mut i: usize = 0;
    while i < line.len()
        invariant
            i <= line.len(),
            shares@.len() == line.len(),
            out@.len() == i,
            forall|j: int|
                0 <= j < i ==> out@[j] == clamp_length(
                    line@[j].base + spec_share(free, shares@[j], total),
                ),
        decreases line.len() - i,
    {
        out.push(sat_add(line[i].base, share(free, shares[i], total)));
        i += 1;
    }
    assert(out@ =~= spec_raw(line@, room, growing, frozen@, target@));
    out
}

fn violations(line: &Vec<FlexItem>, frozen: &Vec<bool>, raw: &Vec<i64>) -> (r: Vec<i64>)
    requires
        frozen.len() == line.len(),
        raw.len() == line.len(),
    ensures
        r@ == spec_violations(line@, frozen@, raw@),
{
    let mut out: Vec<i64> = Vec::new();
    let mut i: usize = 0;
    while i < line.len()
        invariant
            i <= line.len(),
            frozen.len() == line.len(),
            raw.len() == line.len(),
            out@.len() == i,
            forall|j: int| 0 <= j < i ==> out@[j] == spec_violations(line@, frozen@, raw@)[j],
        decreases line.len() - i,
    {
        let v = if frozen[i] {
            0
        } else {
            sat_sub(fit_main(raw[i], &line[i]), raw[i])
        };
        out.push(v);
        i += 1;
    }
    assert(out@ =~= spec_violations(line@, frozen@, raw@));
    out
}

fn round(
    line: &Vec<FlexItem>,
    room: i64,
    growing: bool,
    frozen: &Vec<bool>,
    target: &Vec<i64>,
) -> (r: (Vec<bool>, Vec<i64>))
    requires
        frozen.len() == line.len(),
        target.len() == line.len(),
        none_negative(target@),
    ensures
        (r.0@, r.1@) == spec_round(line@, room, growing, frozen@, target@),
        r.0.len() == line.len(),
        r.1.len() == line.len(),
        none_negative(r.1@),
{
    let raw = raw_sizes(line, room, growing, frozen, target);
    let moved = violations(line, frozen, &raw);
    let excess = sum(&moved);
    let mut next_frozen: Vec<bool> = Vec::new();
    let mut next_target: Vec<i64> = Vec::new();
    let ghost want = spec_round(line@, room, growing, frozen@, target@);
    let mut i: usize = 0;
    while i < line.len()
        invariant
            i <= line.len(),
            frozen.len() == line.len(),
            target.len() == line.len(),
            raw.len() == line.len(),
            moved.len() == line.len(),
            raw@ == spec_raw(line@, room, growing, frozen@, target@),
            moved@ == spec_violations(line@, frozen@, raw@),
            excess == sat_sum(moved@),
            want == spec_round(line@, room, growing, frozen@, target@),
            none_negative(target@),
            none_negative(next_target@),
            next_frozen@.len() == i,
            next_target@.len() == i,
            forall|j: int| 0 <= j < i ==> next_frozen@[j] == want.0[j],
            forall|j: int| 0 <= j < i ==> next_target@[j] == want.1[j],
        decreases line.len() - i,
    {
        let v = moved[i];
        next_frozen.push(frozen[i] || excess == 0 || (excess > 0 && v > 0) || (excess < 0 && v < 0));
        next_target.push(
            if frozen[i] {
                target[i]
            } else {
                fit_main(raw[i], &line[i])
            },
        );
        i += 1;
    }
    assert(next_frozen@ =~= want.0);
    assert(next_target@ =~= want.1);
    (next_frozen, next_target)
}

fn is_all_frozen(frozen: &Vec<bool>) -> (r: bool)
    ensures
        r == all_frozen(frozen@),
{
    let mut i: usize = 0;
    while i < frozen.len()
        invariant
            i <= frozen.len(),
            forall|j: int| 0 <= j < i ==> frozen@[j],
        decreases frozen.len() - i,
    {
        if !frozen[i] {
            return false;
        }
        i += 1;
    }
    true
}

/// The main sizes of the items of one line; none is negative.
pub fn main_sizes(line: &Vec<FlexItem>, room: i64) -> (r: Vec<i64>)
    ensures
        r@ == spec_main_sizes(line@, room),
        r.len() == line.len(),
        none_negative(r@),
{
    proof {
        reveal(spec_main_sizes);
    }
    let growing = sum(&outer_hypotheticals(line)) < room;
    let mut frozen: Vec<bool> = Vec::new();
    let mut target: Vec<i64> = Vec::new();
    let mut i: usize = 0;
    while i < line.len()
        invariant
            i <= line.len(),
            frozen@.len() == i,
            target@.len() == i,
            none_negative(target@),
            forall|j: int| 0 <= j < i ==> frozen@[j] == line@[j].spec_inflexible(growing),
            forall|j: int| 0 <= j < i ==> target@[j] == line@[j].spec_hypothetical(),
        decreases line.len() - i,
    {
        let item = line[i];
        frozen.push(item.inflexible(growing));
        target.push(item.hypothetical());
        i += 1;
    }
    assert(frozen@ =~= Seq::new(line@.len(), |i: int| line@[i].spec_inflexible(growing)));
    assert(target@ =~= Seq::new(line@.len(), |i: int| line@[i].spec_hypothetical()));
    let mut rounds: usize = line.len();
    while rounds > 0 && !is_all_frozen(&frozen)
        invariant
            frozen.len() == line.len(),
            target.len() == line.len(),
            none_negative(target@),
            spec_main_sizes(line@, room) == spec_settle(
                line@,
                room,
                growing,
                frozen@,
                target@,
                rounds as nat,
            ),
        decreases rounds,
    {
        let next = round(line, room, growing, &frozen, &target);
        frozen = next.0;
        target = next.1;
        rounds -= 1;
    }
    target
}

} // verus!
