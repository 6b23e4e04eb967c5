//! The layout of a whole tree: one pass from the leaves up that measures
//! what every box holds, and one pass from the root down that gives every
//! box its rectangle.

use vstd::prelude::*;
use crate::axis::{cross_of, main_of, spec_cross_of, spec_main_of};
use crate::child::{
    absolute_placed, flex_item, flow_placed, gone, in_flow, natural_cross, root_placed,
    spec_absolute_placed, spec_flex_item, spec_flow_placed, spec_gone, spec_in_flow,
    spec_natural_cross, spec_root_placed, Kid, Placed,
};
use crate::content::{content_size, spec_content_size, views, ContentView, MeasureText};
use crate::flex::{deep, lines, main_sizes, spec_lines, spec_main_sizes, FlexItem};
use crate::geometry::{PositionedRectangle, Size};
use crate::metrics::{box_metrics, spec_box_metrics};
use crate::number::{clamp_length, sat_add, Number};
use crate::place::{place, spec_place, ItemBox, SizedItem};
use crate::style::{Display, FlexWrap, PositionType, Style};
use crate::tree::{spec_traverse, traverse, LayoutError, Node, Traversal};
use crate::RectContent;

verus! {

/// The children of the node at position `k` of the walk, as their container
/// sees them.
pub open spec fn spec_kids(
    order: Seq<usize>,
    starts: Seq<usize>,
    styles: Seq<Style>,
    views: Seq<ContentView>,
    sizes: Seq<Size<i64>>,
    k: int,
) -> Seq<Kid> {
    Seq::new(
        (starts[k + 1] - starts[k]) as nat,
        |j: int|
            {
                let node = order[starts[k] + j] as int;
                Kid {
                    style: styles[node],
                    view: views[node],
                    outers: spec_child_outers(order, starts, styles, sizes, starts[k] + j),
                }
            },
    )
}

/// The flex items of the first `n` children: one for each child in the
/// flow, in order.
pub open spec fn spec_items(container: Style, room: Size<i64>, kids: Seq<Kid>, n: int) -> Seq<
    FlexItem,
>
    decreases n,
{
    if n <= 0 {
        Seq::empty()
    } else {
        let rest = spec_items(container, room, kids, n - 1);
        if spec_in_flow(kids[n - 1].style) {
            rest.push(spec_flex_item(container, room, kids[n - 1], (n - 1) as usize))
        } else {
            rest
        }
    }
}

/// An item with its settled main size and the cross size of its content.
pub open spec fn spec_sized_item(
    container: Style,
    room: Size<i64>,
    kids: Seq<Kid>,
    item: FlexItem,
    main: i64,
) -> SizedItem {
    SizedItem {
        item,
        main,
        natural_cross: if item.slot < kids.len() {
            spec_natural_cross(container, room, kids[item.slot as int], main)
        } else {
            0
        },
    }
}

/// The items of one line with their settled main sizes and the cross sizes
/// of their content.
pub open spec fn spec_sized_line(
    container: Style,
    room: Size<i64>,
    kids: Seq<Kid>,
    line: Seq<FlexItem>,
) -> Seq<SizedItem> {
    let mains = spec_main_sizes(
        line,
        spec_main_of(room, container.flex_direction.spec_is_row()),
    );
    Seq::new(line.len(), |i: int| spec_sized_item(container, room, kids, line[i], mains[i]))
}

/// The items of every line, sized.
pub open spec fn spec_sized(
    container: Style,
    room: Size<i64>,
    kids: Seq<Kid>,
    lines: Seq<Seq<FlexItem>>,
) -> Seq<Seq<SizedItem>> {
    Seq::new(lines.len(), |l: int| spec_sized_line(container, room, kids, lines[l]))
}

/// The geometry of the children that are not in the flow: those taken out
/// of it get their own place, those not displayed none.
pub open spec fn spec_out_of_flow(parent: Placed, container: Style, kids: Seq<Kid>) -> Seq<Placed> {
    Seq::new(
        kids.len(),
        |j: int|
            if kids[j].style.display != Display::Gone && kids[j].style.position_type
                == PositionType::Absolute {
                spec_absolute_placed(parent, container, kids[j])
            } else {
                spec_gone()
            },
    )
}

/// `acc` with the first `m` boxes of a line written to their slots.
pub open spec fn spec_fill_line(
    parent: Placed,
    container: Style,
    kids: Seq<Kid>,
    acc: Seq<Placed>,
    boxes: Seq<ItemBox>,
    m: int,
) -> Seq<Placed>
    decreases m,
{
    if m <= 0 {
        acc
    } else {
        let prev = spec_fill_line(parent, container, kids, acc, boxes, m - 1);
        let b = boxes[m - 1];
        if b.slot < kids.len() && b.slot < prev.len() {
            prev.update(
                b.slot as int,
                spec_flow_placed(parent, container, kids[b.slot as int].style, b),
            )
        } else {
            prev
        }
    }
}

/// `acc` with the boxes of the first `l` lines written to their slots.
pub open spec fn spec_fill(
    parent: Placed,
    container: Style,
    kids: Seq<Kid>,
    acc: Seq<Placed>,
    boxes: Seq<Seq<ItemBox>>,
    l: int,
) -> Seq<Placed>
    decreases l,
{
    if l <= 0 {
        acc
    } else {
        spec_fill_line(
            parent,
            container,
            kids,
            spec_fill(parent, container, kids, acc, boxes, l - 1),
            boxes[l - 1],
            boxes[l - 1].len() as int,
        )
    }
}

/// The geometry of the children of a container, one entry for each child.
///
/// Below a box that is not shown nothing is shown. Otherwise the children in
/// the flow become flex items, the items are gathered into lines, every line
/// settles the main sizes of its items, the content of every item is
/// measured at its main size, and the lines and their items are placed; the
/// other children are placed on their own.
#[verifier::opaque]
pub open spec fn spec_place_children(parent: Placed, container: Style, kids: Seq<Kid>) -> Seq<
    Placed,
> {
    if !parent.shown {
        Seq::new(kids.len(), |j: int| spec_gone())
    } else {
        let room = parent.inside.size;
        let row = container.flex_direction.spec_is_row();
        let items = spec_items(container, room, kids, kids.len() as int);
        let lines = spec_lines(
            items,
            spec_main_of(room, row),
            container.flex_wrap == FlexWrap::Wrap,
        );
        let boxes = spec_place(
            spec_sized(container, room, kids, lines),
            spec_main_of(room, row),
            spec_cross_of(room, row),
            container.justify_content,
            container.align_content,
            container.flex_direction.spec_is_reverse(),
            container.flex_wrap == FlexWrap::NoWrap,
        );
        spec_fill(
            parent,
            container,
            kids,
            spec_out_of_flow(parent, container, kids),
            boxes,
            boxes.len() as int,
        )
    }
}

/// Whether every rectangle of `table` is in range and has no negative side.
pub open spec fn all_wf(table: Seq<Placed>) -> bool {
    forall|i: int| 0 <= i < table.len() ==> (#[trigger] table[i]).rect.wf()
}

/// Whether `below` holds, for each child of the node at position `k`, the
/// outer sizes of that child's own children.
pub open spec fn spec_below(
    t: Traversal,
    k: int,
    styles: Seq<Style>,
    sizes: Seq<Size<i64>>,
    below: Seq<Vec<Size<i64>>>,
) -> bool {
    &&& t.wf(styles.len())
    &&& 0 <= k < t.order@.len()
    &&& sizes.len() == styles.len()
    &&& below.len() == t.starts@[k + 1] - t.starts@[k]
    &&& forall|i: int|
        0 <= i < below.len() ==> (#[trigger] below[i])@ == spec_child_outers(
            t.order@,
            t.starts@,
            styles,
            sizes,
            t.starts@[k] + i,
        )
}

#[verifier::loop_isolation(false)]
fn outers_below(t: &Traversal, k: usize, styles: &Vec<Style>, sizes: &Vec<Size<i64>>) -> (r: Vec<
    Vec<Size<i64>>,
>)
    requires
        t.wf(styles@.len()),
        k < t.order.len(),
        sizes.len() == styles.len(),
    ensures
        spec_below(*t, k as int, styles@, sizes@, r@),
{
    let first = t.starts[k];
    assert(t.starts@[k as int] <= t.starts@[k + 1]);
    assert(t.starts@[k + 1] <= t.order@.len());
    let count = t.starts[k + 1] - first;
    let mut below: Vec<Vec<Size<i64>>> = Vec::new();
    let mut j: usize = 0;
    while j < count
        invariant
            j <= count,
            below@.len() == j,
            forall|i: int|
                0 <= i < j ==> (#[trigger] below@[i])@ == spec_child_outers(
                    t.order@,
                    t.starts@,
                    styles@,
                    sizes@,
                    first + i,
                ),
        decreases count - j,
    {
        below.push(child_outers(t, first + j, styles, sizes));
        j += 1;
    }
    below
}

/// The children in the flow, as flex items.
#[verifier::loop_isolation(false)]
fn gather_items<T: MeasureText>(
    contents: &mut Vec<Option<RectContent<T>>>,
    t: &Traversal,
    k: usize,
    styles: &Vec<Style>,
    sizes: &Vec<Size<i64>>,
    below: &Vec<Vec<Size<i64>>>,
    container: &Style,
    room: Size<i64>,
) -> (r: Vec<FlexItem>)
    requires
        spec_below(*t, k as int, styles@, sizes@, below@),
        old(contents).len() == styles.len(),
    ensures
        final(contents).len() == old(contents).len(),
        views(final(contents)@) == views(old(contents)@),
        r@ == spec_items(
            *container,
            room,
            spec_kids(t.order@, t.starts@, styles@, views(old(contents)@), sizes@, k as int),
            t.starts@[k + 1] - t.starts@[k as int],
        ),
{
    let first = t.starts[k];
    assert(t.starts@[k as int] <= t.starts@[k + 1]);
    assert(t.starts@[k + 1] <= t.order@.len());
    let count = t.starts[k + 1] - first;
    let ghost kids = spec_kids(
        t.order@,
        t.starts@,
        styles@,
        views(old(contents)@),
        sizes@,
        k as int,
    );
    let mut items: Vec<FlexItem> = Vec::new();
    let mut j: usize = 0;
    while j < count
        invariant
            j <= count,
            contents.len() == styles.len(),
            views(contents@) == views(old(contents)@),
            items@ == spec_items(*container, room, kids, j as int),
        decreases count - j,
    {
        let node = t.order[first + j];
        assert(t.order@[first + j] < styles@.len());
        let style = &styles[node];
        if in_flow(style) {
            let item = flex_item(contents, node, container, room, style, &below[j], j);
            items.push(item);
        }
        j += 1;
    }
    items
}

/// The items of every line with their main sizes and the cross sizes of
/// their content.
#[verifier::loop_isolation(false)]
fn size_lines<T: MeasureText>(
    contents: &mut Vec<Option<RectContent<T>>>,
    t: &Traversal,
    k: usize,
    styles: &Vec<Style>,
    sizes: &Vec<Size<i64>>,
    below: &Vec<Vec<Size<i64>>>,
    container: &Style,
    room: Size<i64>,
    rows: &Vec<Vec<FlexItem>>,
) -> (r: Vec<Vec<SizedItem>>)
    requires
        spec_below(*t, k as int, styles@, sizes@, below@),
        old(contents).len() == styles.len(),
    ensures
        final(contents).len() == old(contents).len(),
        views(final(contents)@) == views(old(contents)@),
        deep(r@) == spec_sized(
            *container,
            room,
            spec_kids(t.order@, t.starts@, styles@, views(old(contents)@), sizes@, k as int),
            deep(rows@),
        ),
{
    let first = t.starts[k];
    assert(t.starts@[k as int] <= t.starts@[k + 1]);
    assert(t.starts@[k + 1] <= t.order@.len());
    let count = t.starts[k + 1] - first;
    let room_main = main_of(&room, container.flex_direction.is_row());
    let ghost kids = spec_kids(
        t.order@,
        t.starts@,
        styles@,
        views(old(contents)@),
        sizes@,
        k as int,
    );
    let mut sized: Vec<Vec<SizedItem>> = Vec::new();
    let mut l: usize = 0;
    while l < rows.len()
        invariant
            l <= rows.len(),
            contents.len() == styles.len(),
            views(contents@) == views(old(contents)@),
            sized@.len() == l,
            forall|i: int|
                0 <= i < l ==> (#[trigger] sized@[i])@ == spec_sized_line(
                    *container,
                    room,
                    kids,
                    rows@[i]@,
                ),
        decreases rows.len() - l,
    {
        let line = &rows[l];
        let mains = main_sizes(line, room_main);
        let mut out: Vec<SizedItem> = Vec::new();
        let mut i: usize = 0;
        while i < line.len()
            invariant
                i <= line.len(),
                contents.len() == styles.len(),
                views(contents@) == views(old(contents)@),
                out@.len() == i,
                forall|q: int|
                    0 <= q < i ==> out@[q] == spec_sized_item(
                        *container,
                        room,
                        kids,
                        line@[q],
                        mains@[q],
                    ),
            decreases line.len() - i,
        {
            let item = line[i];
            let natural = if item.slot < count {
                let node = t.order[first + item.slot];
                assert(t.order@[first + item.slot] < styles@.len());
                natural_cross(
                    contents,
                    node,
                    container,
                    room,
                    &styles[node],
                    &below[item.slot],
                    mains[i],
                )
            } else {
                0
            };
            out.push(SizedItem { item, main: mains[i], natural_cross: natural });
            i += 1;
        }
        assert(out@ =~= spec_sized_line(*container, room, kids, line@));
        sized.push(out);
        l += 1;
    }
    assert(deep(sized@) =~= spec_sized(*container, room, kids, deep(rows@)));
    sized
}

/// The geometry of the children that are not in the flow.
#[verifier::loop_isolation(false)]
fn place_out_of_flow<T: MeasureText>(
    contents: &mut Vec<Option<RectContent<T>>>,
    t: &Traversal,
    k: usize,
    styles: &Vec<Style>,
    sizes: &Vec<Size<i64>>,
    below: &Vec<Vec<Size<i64>>>,
    parent: &Placed,
    container: &Style,
) -> (r: Vec<Placed>)
    requires
        spec_below(*t, k as int, styles@, sizes@, below@),
        old(contents).len() == styles.len(),
    ensures
        final(contents).len() == old(contents).len(),
        views(final(contents)@) == views(old(contents)@),
        r@ == spec_out_of_flow(
            *parent,
            *container,
            spec_kids(t.order@, t.starts@, styles@, views(old(contents)@), sizes@, k as int),
        ),
        all_wf(r@),
{
    let first = t.starts[k];
    assert(t.starts@[k as int] <= t.starts@[k + 1]);
    assert(t.starts@[k + 1] <= t.order@.len());
    let count = t.starts[k + 1] - first;
    let ghost kids = spec_kids(
        t.order@,
        t.starts@,
        styles@,
        views(old(contents)@),
        sizes@,
        k as int,
    );
    let mut out: Vec<Placed> = Vec::new();
    let mut j: usize = 0;
    while j < count
        invariant
            j <= count,
            contents.len() == styles.len(),
            views(contents@) == views(old(contents)@),
            out@.len() == j,
            all_wf(out@),
            forall|i: int|
                0 <= i < j ==> out@[i] == spec_out_of_flow(*parent, *container, kids)[i],
        decreases count - j,
    {
        let node = t.order[first + j];
        assert(t.order@[first + j] < styles@.len());
        let style = &styles[node];
        let shown = match style.display {
            Display::Gone => false,
            _ => true,
        };
        let absolute = match style.position_type {
            PositionType::Absolute => true,
            _ => false,
        };
        let placed = if shown && absolute {
            absolute_placed(contents, node, parent, container, style, &below[j])
        } else {
            gone()
        };
        out.push(placed);
        j += 1;
    }
    assert(out@ =~= spec_out_of_flow(*parent, *container, kids));
    out
}

/// Writes the geometry of the children in the flow into `out`.
#[verifier::loop_isolation(false)]
fn fill(
    out: &mut Vec<Placed>,
    t: &Traversal,
    k: usize,
    styles: &Vec<Style>,
    parent: &Placed,
    container: &Style,
    boxes: &Vec<Vec<ItemBox>>,
    Ghost(kids): Ghost<Seq<Kid>>,
)
    requires
        t.wf(styles@.len()),
        k < t.order.len(),
        old(out).len() == t.starts@[k + 1] - t.starts@[k as int],
        kids.len() == old(out).len(),
        forall|j: int|
            0 <= j < kids.len() ==> (#[trigger] kids[j]).style == styles@[t.order@[t.starts@[k as int]
                + j] as int],
        all_wf(old(out)@),
    ensures
        final(out)@ == spec_fill(
            *parent,
            *container,
            kids,
            old(out)@,
            deep(boxes@),
            boxes@.len() as int,
        ),
        all_wf(final(out)@),
        final(out)@.len() == old(out)@.len(),
{
    let first = t.starts[k];
    assert(t.starts@[k as int] <= t.starts@[k + 1]);
    assert(t.starts@[k + 1] <= t.order@.len());
    let count = out.len();
    let mut l: usize = 0;
    while l < boxes.len()
        invariant
            l <= boxes.len(),
            out@.len() == count,
            all_wf(out@),
            out@ == spec_fill(*parent, *container, kids, old(out)@, deep(boxes@), l as int),
        decreases boxes.len() - l,
    {
        let line = &boxes[l];
        let ghost before = out@;
        let mut i: usize = 0;
        while i < line.len()
            invariant
                i <= line.len(),
                out@.len() == count,
                all_wf(out@),
                out@ == spec_fill_line(*parent, *container, kids, before, line@, i as int),
            decreases line.len() - i,
        {
            let b = line[i];
            if b.slot < count {
                let node = t.order[first + b.slot];
                assert(t.order@[first + b.slot] < styles@.len());
                assert(kids[b.slot as int].style == styles@[node as int]);
                let placed = flow_placed(parent, container, &styles[node], &b);
                out.set(b.slot, placed);
            }
            i += 1;
        }
        l += 1;
    }
}

/// Places the children of the node at position `k`, whose own geometry is
/// `parent`.
fn place_children<T: MeasureText>(
    contents: &mut Vec<Option<RectContent<T>>>,
    t: &Traversal,
    k: usize,
    styles: &Vec<Style>,
    sizes: &Vec<Size<i64>>,
    parent: &Placed,
    container: &Style,
) -> (r: Vec<Placed>)
    requires
        t.wf(styles@.len()),
        k < t.order.len(),
        sizes.len() == styles.len(),
        old(contents).len() == styles.len(),
    ensures
        final(contents).len() == old(contents).len(),
        views(final(contents)@) == views(old(contents)@),
        r@ == spec_place_children(
            *parent,
            *container,
            spec_kids(t.order@, t.starts@, styles@, views(old(contents)@), sizes@, k as int),
        ),
        r.len() == t.starts@[k + 1] - t.starts@[k as int],
        all_wf(r@),
{
    proof {
        reveal(spec_place_children);
    }
    assert(t.starts@[k as int] <= t.starts@[k + 1]);
    assert(t.starts@[k + 1] <= t.order@.len());
    let count = t.starts[k + 1] - t.starts[k];
    let ghost kids = spec_kids(
        t.order@,
        t.starts@,
        styles@,
        views(old(contents)@),
        sizes@,
        k as int,
    );
    if !parent.shown {
        let out = all_gone(count);
        assert(out@ =~= Seq::new(kids.len(), |j: int| spec_gone()));
        return out;
    }
    let room = parent.inside.size;
    let row = container.flex_direction.is_row();
    let below = outers_below(t, k, styles, sizes);
    let items = gather_items(contents, t, k, styles, sizes, &below, container, room);
    let rows = lines(&items, main_of(&room, row), container.flex_wrap == FlexWrap::Wrap);
    let sized = size_lines(contents, t, k, styles, sizes, &below, container, room, &rows);
    let boxes = place(
        &sized,
        main_of(&room, row),
        cross_of(&room, row),
        container.justify_content,
        container.align_content,
        container.flex_direction.is_reverse(),
        container.flex_wrap == FlexWrap::NoWrap,
    );
    let mut out = place_out_of_flow(contents, t, k, styles, sizes, &below, parent, container);
    assert(out@.len() == kids.len());
    fill(&mut out, t, k, styles, parent, container, &boxes, Ghost(kids));
    out
}

/// The room a child takes in a container that is being measured: its
/// border box when its content takes `content`, with its margins. Percentages
/// have nothing to refer to yet and count as unset. A child that is not in
/// the flow takes none.
#[verifier::opaque]
pub open spec fn spec_outer_intrinsic(style: Style, content: Size<i64>) -> Size<i64> {
    if !spec_in_flow(style) {
        Size { width: 0, height: 0 }
    } else {
        let m = spec_box_metrics(style, Size::spec_undefined());
        let b = m.spec_box_size(content);
        Size {
            width: clamp_length(b.width + m.margin.spec_horizontal()),
            height: clamp_length(b.height + m.margin.spec_vertical()),
        }
    }
}

/// The room the content of a box takes when nothing outside the box holds
/// it in: what its own content measures under the size its style asks for,
/// or else the room of its children, whose outer sizes are `outers`.
#[verifier::opaque]
pub open spec fn spec_intrinsic(style: Style, view: ContentView, outers: Seq<Size<i64>>) -> Size<
    i64,
> {
    let m = spec_box_metrics(style, Size::spec_undefined());
    spec_content_size(view, style, outers, m.spec_known_inside(m.size))
}

/// The room each child of the node at position `k` takes, given the content
/// sizes `sizes` of all nodes.
pub open spec fn spec_child_outers(
    order: Seq<usize>,
    starts: Seq<usize>,
    styles: Seq<Style>,
    sizes: Seq<Size<i64>>,
    k: int,
) -> Seq<Size<i64>> {
    Seq::new(
        (starts[k + 1] - starts[k]) as nat,
        |j: int|
            {
                let node = order[starts[k] + j] as int;
                spec_outer_intrinsic(styles[node], sizes[node])
            },
    )
}

/// The content sizes of all nodes once the positions from `k` on have been
/// measured, last position first. Children stand behind their parent in the
/// walk, so they are measured before it.
pub open spec fn spec_measure_from(
    order: Seq<usize>,
    starts: Seq<usize>,
    styles: Seq<Style>,
    views: Seq<ContentView>,
    k: int,
) -> Seq<Size<i64>>
    decreases order.len() - k,
{
    if k >= order.len() {
        Seq::new(styles.len(), |i: int| Size { width: 0i64, height: 0i64 })
    } else {
        let rest = spec_measure_from(order, starts, styles, views, k + 1);
        let node = order[k] as int;
        rest.update(
            node,
            spec_intrinsic(
                styles[node],
                views[node],
                spec_child_outers(order, starts, styles, rest, k),
            ),
        )
    }
}

/// `table` with the first `m` entries of `out` written to the nodes that
/// stand from position `first` on.
pub open spec fn spec_assign(
    table: Seq<Placed>,
    order: Seq<usize>,
    first: int,
    out: Seq<Placed>,
    m: int,
) -> Seq<Placed>
    decreases m,
{
    if m <= 0 {
        table
    } else {
        spec_assign(table, order, first, out, m - 1).update(
            order[first + m - 1] as int,
            out[m - 1],
        )
    }
}

/// The geometry of all nodes once the first `k` positions of the walk have
/// placed their children. At the start only the root is placed. Parents
/// stand before their children in the walk, so a box is placed before its
/// own children are.
pub open spec fn spec_place_upto(
    order: Seq<usize>,
    starts: Seq<usize>,
    styles: Seq<Style>,
    views: Seq<ContentView>,
    sizes: Seq<Size<i64>>,
    bounds: Size<Number>,
    k: int,
) -> Seq<Placed>
    decreases k,
{
    if k <= 0 {
        let root = order[0] as int;
        Seq::new(styles.len(), |i: int| spec_gone()).update(
            root,
            spec_root_placed(
                bounds,
                Kid {
                    style: styles[root],
                    view: views[root],
                    outers: spec_child_outers(order, starts, styles, sizes, 0),
                },
            ),
        )
    } else {
        let prev = spec_place_upto(order, starts, styles, views, sizes, bounds, k - 1);
        let p = order[k - 1] as int;
        let out = spec_place_children(
            prev[p],
            styles[p],
            spec_kids(order, starts, styles, views, sizes, k - 1),
        );
        spec_assign(prev, order, starts[k - 1] as int, out, out.len() as int)
    }
}

/// The rectangle of every box of a hierarchy, or what is wrong with the
/// hierarchy.
///
/// There must be one style and one content entry for each node, and the
/// walk from the root must succeed. Boxes that the walk does not reach, and
/// boxes below one that is not displayed, get the empty rectangle.
pub open spec fn spec_compute(
    root: usize,
    nodes: Seq<Node>,
    styles: Seq<Style>,
    views: Seq<ContentView>,
    bounds: Size<Number>,
) -> Result<Seq<PositionedRectangle>, LayoutError> {
    if styles.len() != nodes.len() || views.len() != nodes.len() {
        Err(LayoutError::LengthMismatch)
    } else {
        match spec_traverse(nodes, root) {
            Err(e) => Err(e),
            Ok((order, starts)) => {
                let sizes = spec_measure_from(order, starts, styles, views, 0);
                let table = spec_place_upto(
                    order,
                    starts,
                    styles,
                    views,
                    sizes,
                    bounds,
                    order.len() as int,
                );
                Ok(Seq::new(nodes.len(), |i: int| table[i].rect))
            },
        }
    }
}

/// A result with its rectangles as a sequence.
pub open spec fn spec_outcome(r: Result<Vec<PositionedRectangle>, LayoutError>) -> Result<
    Seq<PositionedRectangle>,
    LayoutError,
> {
    match r {
        Ok(rects) => Ok(rects@),
        Err(e) => Err(e),
    }
}

/// The room a child takes in a container that is being measured: its
/// border box when its content takes `content`, with its margins. Percentages
/// have nothing to refer to yet and count as unset. A child that is not in
/// the flow takes none.
pub fn outer_intrinsic(style: &Style, content: Size<i64>) -> (r: Size<i64>)
    ensures
        r == spec_outer_intrinsic(*style, content),
{
    proof {
        reveal(spec_outer_intrinsic);
    }
    if !in_flow(style) {
        Size { width: 0, height: 0 }
    } else {
        let m = box_metrics(style, Size::undefined());
        let b = m.box_size(content);
        Size {
            width: sat_add(b.width, m.margin.horizontal()),
            height: sat_add(b.height, m.margin.vertical()),
        }
    }
}

fn intrinsic<T: MeasureText>(
    contents: &mut Vec<Option<RectContent<T>>>,
    node: usize,
    style: &Style,
    outers: &Vec<Size<i64>>,
) -> (r: Size<i64>)
    requires
        node < old(contents).len(),
    ensures
        final(contents).len() == old(contents).len(),
        views(final(contents)@) == views(old(contents)@),
        r == spec_intrinsic(*style, views(old(contents)@)[node as int], outers@),
{
    proof {
        reveal(spec_intrinsic);
    }
    let m = box_metrics(style, Size::undefined());
    content_size(contents, node, style, outers, m.known_inside(m.size))
}

/// The outer sizes of the children of the node at position `q`.
fn child_outers(t: &Traversal, q: usize, styles: &Vec<Style>, sizes: &Vec<Size<i64>>) -> (r: Vec<
    Size<i64>,
>)
    requires
        t.wf(styles@.len()),
        q < t.order.len(),
        sizes.len() == styles.len(),
    ensures
        r@ == spec_child_outers(t.order@, t.starts@, styles@, sizes@, q as int),
{
    let first = t.starts[q];
    assert(t.starts@[q as int] <= t.starts@[q + 1]);
    assert(t.starts@[q + 1] <= t.order@.len());
    let end = t.starts[q + 1];
    let mut out: Vec<Size<i64>> = Vec::new();
    let mut j: usize = first;
    while j < end
        invariant
            first <= j <= end,
            end <= t.order@.len(),
            first == t.starts@[q as int],
            end == t.starts@[q + 1],
            t.wf(styles@.len()),
            sizes.len() == styles.len(),
            out@.len() == j - first,
            forall|i: int|
                0 <= i < j - first ==> out@[i] == spec_child_outers(
                    t.order@,
                    t.starts@,
                    styles@,
                    sizes@,
                    q as int,
                )[i],
        decreases end - j,
    {
        let c = t.order[j];
        assert(t.order@[j as int] < styles@.len());
        out.push(outer_intrinsic(&styles[c], sizes[c]));
        j += 1;
    }
    assert(out@ =~= spec_child_outers(t.order@, t.starts@, styles@, sizes@, q as int));
    out
}

fn zero_sizes(n: usize) -> (r: Vec<Size<i64>>)
    ensures
        r@ == Seq::new(n as nat, |i: int| Size { width: 0i64, height: 0i64 }),
{
    let mut out: Vec<Size<i64>> = Vec::new();
    let mut i: usize = 0;
    while i < n
        invariant
            i <= n,
            out@.len() == i,
            forall|j: int| 0 <= j < i ==> out@[j] == (Size { width: 0i64, height: 0i64 }),
        decreases n - i,
    {
        out.push(Size { width: 0, height: 0 });
        i += 1;
    }
    assert(out@ =~= Seq::new(n as nat, |i: int| Size { width: 0i64, height: 0i64 }));
    out
}

fn all_gone(n: usize) -> (r: Vec<Placed>)
    ensures
        r@ == Seq::new(n as nat, |i: int| spec_gone()),
        all_wf(r@),
{
    let mut out: Vec<Placed> = Vec::new();
    let mut i: usize = 0;
    while i < n
        invariant
            i <= n,
            out@.len() == i,
            forall|j: int| 0 <= j < i ==> out@[j] == spec_gone(),
            all_wf(out@),
        decreases n - i,
    {
        out.push(gone());
        i += 1;
    }
    assert(out@ =~= Seq::new(n as nat, |i: int| spec_gone()));
    out
}

/// The first pass: the content size of every node, leaves first.
fn measure<T: MeasureText>(
    contents: &mut Vec<Option<RectContent<T>>>,
    t: &Traversal,
    styles: &Vec<Style>,
) -> (r: Vec<Size<i64>>)
    requires
        t.wf(styles@.len()),
        old(contents).len() == styles.len(),
    ensures
        final(contents).len() == old(contents).len(),
        views(final(contents)@) == views(old(contents)@),
        r.len() == styles.len(),
        r@ == spec_measure_from(t.order@, t.starts@, styles@, views(old(contents)@), 0),
{
    let mut sizes = zero_sizes(styles.len());
    let mut k: usize = t.order.len();
    while k > 0
        invariant
            k <= t.order.len(),
            t.wf(styles@.len()),
            contents.len() == styles.len(),
            sizes.len() == styles.len(),
            views(contents@) == views(old(contents)@),
            sizes@ == spec_measure_from(
                t.order@,
                t.starts@,
                styles@,
                views(old(contents)@),
                k as int,
            ),
        decreases k,
    {
        k -= 1;
        let node = t.order[k];
        assert(t.order@[k as int] < styles@.len());
        let style = &styles[node];
        let outers = child_outers(t, k, styles, &sizes);
        let size = intrinsic(contents, node, style, &outers);
        sizes.set(node, size);
    }
    sizes
}

/// The second pass: the geometry of every node, root first.
fn place_all<T: MeasureText>(
    contents: &mut Vec<Option<RectContent<T>>>,
    t: &Traversal,
    styles: &Vec<Style>,
    sizes: &Vec<Size<i64>>,
    bounds: Size<Number>,
) -> (r: Vec<Placed>)
    requires
        t.wf(styles@.len()),
        old(contents).len() == styles.len(),
        sizes.len() == styles.len(),
    ensures
        final(contents).len() == old(contents).len(),
        views(final(contents)@) == views(old(contents)@),
        r.len() == styles.len(),
        r@ == spec_place_upto(
            t.order@,
            t.starts@,
            styles@,
            views(old(contents)@),
            sizes@,
            bounds,
            t.order@.len() as int,
        ),
        all_wf(r@),
{
    let mut table = all_gone(styles.len());
    let root = t.order[0];
    assert(t.order@[0] < styles@.len());
    let outers = child_outers(t, 0, styles, sizes);
    let placed = root_placed(contents, root, bounds, &styles[root], &outers);
    table.set(root, placed);
    let mut k: usize = 0;
    while k < t.order.len()
        invariant
            k <= t.order.len(),
            t.wf(styles@.len()),
            contents.len() == styles.len(),
            sizes.len() == styles.len(),
            table.len() == styles.len(),
            views(contents@) == views(old(contents)@),
            all_wf(table@),
            table@ == spec_place_upto(
                t.order@,
                t.starts@,
                styles@,
                views(old(contents)@),
                sizes@,
                bounds,
                k as int,
            ),
        decreases t.order.len() - k,
    {
        let p = t.order[k];
        assert(t.order@[k as int] < styles@.len());
        let parent = table[p];
        let out = place_children(contents, t, k, styles, sizes, &parent, &styles[p]);
        let first = t.starts[k];
        let ghost before = table@;
        let mut j: usize = 0;
        while j < out.len()
            invariant
                j <= out.len(),
                t.wf(styles@.len()),
                k < t.order.len(),
                first == t.starts@[k as int],
                out.len() == t.starts@[k + 1] - t.starts@[k as int],
                t.starts@[k + 1] <= t.order@.len(),
                table.len() == styles.len(),
                all_wf(table@),
                all_wf(out@),
                table@ == spec_assign(before, t.order@, first as int, out@, j as int),
            decreases out.len() - j,
        {
            let node = t.order[first + j];
            assert(t.order@[first + j] < styles@.len());
            table.set(node, out[j]);
            j += 1;
        }
        k += 1;
    }
    table
}

/// Lays out the hierarchy below `root`.
///
/// `styles` and `contents` hold one entry for each node of `hierarchy`, in
/// its order; `bounds` says how much room there is, as far as that is known.
/// On success there is one rectangle for each node, relative to the origin
/// of the bounds, and none has a negative side. Text may be measured any
/// number of times on the way; nothing else of `contents` changes.
pub fn compute<T: MeasureText>(
    root: usize,
    hierarchy: &Vec<Node>,
    styles: &Vec<Style>,
    contents: &mut Vec<Option<RectContent<T>>>,
    bounds: Size<Number>,
) -> (r: Result<Vec<PositionedRectangle>, LayoutError>)
    ensures
        final(contents).len() == old(contents).len(),
        views(final(contents)@) == views(old(contents)@),
        spec_outcome(r) == spec_compute(root, hierarchy@, styles@, views(old(contents)@), bounds),
        match r {
            Ok(rects) => rects.len() == hierarchy.len() && forall|i: int|
                0 <= i < rects.len() ==> (#[trigger] rects@[i]).wf(),
            Err(_) => true,
        },
{
    if styles.len() != hierarchy.len() || contents.len() != hierarchy.len() {
        return Err(LayoutError::LengthMismatch);
    }
    let t = match traverse(hierarchy, root) {
        Ok(t) => t,
        Err(e) => {
            return Err(e);
        },
    };
    let sizes = measure(contents, &t, styles);
    let table = place_all(contents, &t, styles, &sizes, bounds);
    let mut rects: Vec<PositionedRectangle> = Vec::new();
    let mut i: usize = 0;
    while i < table.len()
        invariant
            i <= table.len(),
            all_wf(table@),
            rects@.len() == i,
            forall|j: int| 0 <= j < i ==> rects@[j] == table@[j].rect,
        decreases table.len() - i,
    {
        rects.push(table[i].rect);
        i += 1;
    }
    assert(rects@ =~= Seq::new(hierarchy@.len(), |i: int| table@[i].rect));
    Ok(rects)
}

} // verus!
