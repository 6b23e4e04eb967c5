//! What holds of every layout, proved of the definitions themselves.

use vstd::prelude::*;
use crate::algo::{
    all_wf, spec_assign, spec_compute, spec_fill, spec_fill_line, spec_kids, spec_out_of_flow,
    spec_place_children, spec_place_upto,
};
use crate::child::{spec_absolute_placed, spec_flow_placed, spec_root_placed, Kid, Placed};
use crate::content::{views, ContentView, MeasureText};
use crate::flex::{
    all_frozen, spec_fill_lines, spec_fit_main, spec_lines, spec_main_sizes, spec_round,
    spec_settle, FlexItem,
};
use crate::geometry::{LayoutPoint, LayoutRect, PositionedRectangle, Size};
use crate::number::Number;
use crate::place::ItemBox;
use crate::style::Style;
use crate::tree::{spec_traverse, spec_walk, well_formed, LayoutError, Node};
use crate::{spec_solve, spec_translate_all, GetStyle, RectContent};

verus! {

/// Whether `order` and `starts` have the shape of a walk that is under way
/// over a table of `n` nodes.
pub open spec fn walking(order: Seq<usize>, starts: Seq<usize>, n: nat) -> bool {
    &&& order.len() >= 1
    &&& 1 <= starts.len() <= order.len() + 1
    &&& order.no_duplicates()
    &&& forall|k: int| 0 <= k < order.len() ==> #[trigger] order[k] < n
    &&& forall|k: int| 0 <= k < starts.len() && k < order.len() ==> k < #[trigger] starts[k]
    &&& forall|k: int| 0 <= k && k + 1 < starts.len() ==> #[trigger] starts[k] <= starts[k + 1]
    &&& forall|k: int| 0 <= k < starts.len() ==> #[trigger] starts[k] <= order.len()
    &&& starts[0] == 1
    &&& starts.len() == order.len() + 1 ==> starts[order.len() as int] == order.len()
}

/// A walk that is continued from a sound state ends in a sound state, and
/// keeps the node it started from.
pub proof fn lemma_walk_is_well_formed(
    nodes: Seq<Node>,
    order: Seq<usize>,
    starts: Seq<usize>,
    link: Option<usize>,
)
    requires
        walking(order, starts, nodes.len()),
        nodes.len() <= usize::MAX,
    ensures
        match spec_walk(nodes, order, starts, link) {
            Ok((o, s)) => well_formed(o, s, nodes.len()) && o[0] == order[0] && s[0] == 1
                && s[o.len() as int] == o.len(),
            Err(_) => true,
        },
    decreases 2 * nodes.len() + 1 - order.len() - starts.len(),
{
    if starts.len() > order.len() {
    } else if order.len() > nodes.len() {
    } else {
        match link {
            Some(c) => {
                if c >= nodes.len() {
                } else if order.contains(c) {
                } else {
                    let next = order.push(c);
                    assert(next.no_duplicates()) by {
                        assert forall|i: int, j: int|
                            0 <= i < next.len() && 0 <= j < next.len() && i != j implies next[i]
                            != next[j] by {
                            if i < order.len() && j < order.len() {
                                assert(order[i] != order[j]);
                            } else if i < order.len() {
                                assert(order.contains(order[i]));
                            } else {
                                assert(order.contains(order[j]));
                            }
                        }
                    }
                    assert forall|k: int| 0 <= k < next.len() implies #[trigger] next[k]
                        < nodes.len() by {
                        if k < order.len() {
                            assert(order[k] < nodes.len());
                        }
                    }
                    lemma_walk_is_well_formed(nodes, next, starts, nodes[c as int].next_sibling);
                }
            },
            None => {
                let at = starts.len() as int;
                let next = starts.push(order.len() as usize);
                let follow = if at < order.len() {
                    nodes[order[at] as int].first_child
                } else {
                    None
                };
                assert forall|k: int| 0 <= k && k + 1 < next.len() implies #[trigger] next[k]
                    <= next[k + 1] by {
                    if k + 1 < starts.len() {
                        assert(starts[k] <= starts[k + 1]);
                    } else {
                        assert(starts[k] <= order.len());
                    }
                }
                assert forall|k: int| 0 <= k < next.len() && k < order.len() implies k
                    < #[trigger] next[k] by {
                    if k < starts.len() {
                        assert(k < starts[k]);
                    }
                }
                assert forall|k: int| 0 <= k < next.len() implies #[trigger] next[k]
                    <= order.len() by {
                    if k < starts.len() {
                        assert(starts[k] <= order.len());
                    }
                }
                lemma_walk_is_well_formed(nodes, order, next, follow);
            },
        }
    }
}

/// A walk that succeeds names every node it reached once, starts at the
/// root, and lists the children of each node behind the node itself.
pub proof fn lemma_traversal_is_well_formed(nodes: Seq<Node>, root: usize)
    requires
        nodes.len() <= usize::MAX,
    ensures
        match spec_traverse(nodes, root) {
            Ok((order, starts)) => well_formed(order, starts, nodes.len()) && order[0] == root
                && starts[0] == 1 && starts[order.len() as int] == order.len(),
            Err(_) => true,
        },
{
    if root < nodes.len() {
        let order = seq![root];
        let starts = seq![1usize];
        assert(order.no_duplicates());
        assert(walking(order, starts, nodes.len()));
        lemma_walk_is_well_formed(nodes, order, starts, nodes[root as int].first_child);
    }
}

proof fn lemma_flow_placed_wf(parent: Placed, container: Style, style: Style, b: ItemBox)
    ensures
        spec_flow_placed(parent, container, style, b).rect.wf(),
{
    reveal(spec_flow_placed);
}

proof fn lemma_absolute_placed_wf(parent: Placed, container: Style, kid: Kid)
    ensures
        spec_absolute_placed(parent, container, kid).rect.wf(),
{
    reveal(spec_absolute_placed);
}

proof fn lemma_root_placed_wf(bounds: Size<Number>, kid: Kid)
    ensures
        spec_root_placed(bounds, kid).rect.wf(),
{
    reveal(spec_root_placed);
}

proof fn lemma_fill_line_wf(
    parent: Placed,
    container: Style,
    kids: Seq<Kid>,
    acc: Seq<Placed>,
    boxes: Seq<ItemBox>,
    m: int,
)
    requires
        all_wf(acc),
    ensures
        all_wf(spec_fill_line(parent, container, kids, acc, boxes, m)),
        spec_fill_line(parent, container, kids, acc, boxes, m).len() == acc.len(),
    decreases m,
{
    if m > 0 {
        lemma_fill_line_wf(parent, container, kids, acc, boxes, m - 1);
        let b = boxes[m - 1];
        if b.slot < kids.len() {
            lemma_flow_placed_wf(parent, container, kids[b.slot as int].style, b);
        }
    }
}

proof fn lemma_fill_wf(
    parent: Placed,
    container: Style,
    kids: Seq<Kid>,
    acc: Seq<Placed>,
    boxes: Seq<Seq<ItemBox>>,
    l: int,
)
    requires
        all_wf(acc),
    ensures
        all_wf(spec_fill(parent, container, kids, acc, boxes, l)),
        spec_fill(parent, container, kids, acc, boxes, l).len() == acc.len(),
    decreases l,
{
    if l > 0 {
        lemma_fill_wf(parent, container, kids, acc, boxes, l - 1);
        lemma_fill_line_wf(
            parent,
            container,
            kids,
            spec_fill(parent, container, kids, acc, boxes, l - 1),
            boxes[l - 1],
            boxes[l - 1].len() as int,
        );
    }
}

/// Every child of a container gets a rectangle without a negative side.
pub proof fn lemma_children_are_well_formed(parent: Placed, container: Style, kids: Seq<Kid>)
    ensures
        all_wf(spec_place_children(parent, container, kids)),
        spec_place_children(parent, container, kids).len() == kids.len(),
{
    reveal(spec_place_children);
    if parent.shown {
        let base = spec_out_of_flow(parent, container, kids);
        assert forall|j: int| 0 <= j < base.len() implies (#[trigger] base[j]).rect.wf() by {
            lemma_absolute_placed_wf(parent, container, kids[j]);
        }
        assert(all_wf(base));
        let row = container.flex_direction.spec_is_row();
        let boxes = crate::place::spec_place(
            crate::algo::spec_sized(
                container,
                parent.inside.size,
                kids,
                crate::flex::spec_lines(
                    crate::algo::spec_items(
                        container,
                        parent.inside.size,
                        kids,
                        kids.len() as int,
                    ),
                    crate::axis::spec_main_of(parent.inside.size, row),
                    container.flex_wrap == crate::style::FlexWrap::Wrap,
                ),
            ),
            crate::axis::spec_main_of(parent.inside.size, row),
            crate::axis::spec_cross_of(parent.inside.size, row),
            container.justify_content,
            container.align_content,
            container.flex_direction.spec_is_reverse(),
            container.flex_wrap == crate::style::FlexWrap::NoWrap,
        );
        lemma_fill_wf(parent, container, kids, base, boxes, boxes.len() as int);
    }
}

proof fn lemma_assign_wf(
    table: Seq<Placed>,
    order: Seq<usize>,
    first: int,
    out: Seq<Placed>,
    m: int,
)
    requires
        all_wf(table),
        all_wf(out),
        0 <= m <= out.len(),
        0 <= first,
        first + m <= order.len(),
        forall|k: int| 0 <= k < order.len() ==> #[trigger] order[k] < table.len(),
    ensures
        all_wf(spec_assign(table, order, first, out, m)),
        spec_assign(table, order, first, out, m).len() == table.len(),
    decreases m,
{
    if m > 0 {
        lemma_assign_wf(table, order, first, out, m - 1);
        assert(order[first + m - 1] < table.len());
        assert(out[m - 1].rect.wf());
    }
}

proof fn lemma_place_upto_wf(
    order: Seq<usize>,
    starts: Seq<usize>,
    styles: Seq<Style>,
    views: Seq<ContentView>,
    sizes: Seq<Size<i64>>,
    bounds: Size<Number>,
    k: int,
)
    requires
        well_formed(order, starts, styles.len()),
        0 <= k <= order.len(),
    ensures
        all_wf(spec_place_upto(order, starts, styles, views, sizes, bounds, k)),
        spec_place_upto(order, starts, styles, views, sizes, bounds, k).len() == styles.len(),
    decreases k,
{
    if k <= 0 {
        let root = order[0] as int;
        assert(order[0] < styles.len());
        lemma_root_placed_wf(
            bounds,
            Kid {
                style: styles[root],
                view: views[root],
                outers: crate::algo::spec_child_outers(order, starts, styles, sizes, 0),
            },
        );
    } else {
        lemma_place_upto_wf(order, starts, styles, views, sizes, bounds, k - 1);
        let prev = spec_place_upto(order, starts, styles, views, sizes, bounds, k - 1);
        let p = order[k - 1] as int;
        let kids = spec_kids(order, starts, styles, views, sizes, k - 1);
        lemma_children_are_well_formed(prev[p], styles[p], kids);
        let out = spec_place_children(prev[p], styles[p], kids);
        assert(starts[k - 1] <= starts[k - 1 + 1]);
        assert(starts[k] <= order.len());
        assert(out.len() == starts[k] - starts[k - 1]);
        lemma_assign_wf(prev, order, starts[k - 1] as int, out, out.len() as int);
    }
}

/// In every layout there is one rectangle for each node, and no rectangle
/// has a negative width or height.
pub proof fn lemma_sizes_are_never_negative(
    root: usize,
    nodes: Seq<Node>,
    styles: Seq<Style>,
    views: Seq<ContentView>,
    bounds: Size<Number>,
)
    requires
        nodes.len() <= usize::MAX,
    ensures
        match spec_compute(root, nodes, styles, views, bounds) {
            Ok(rects) => rects.len() == nodes.len() && forall|i: int|
                0 <= i < rects.len() ==> (#[trigger] rects[i]).wf(),
            Err(_) => true,
        },
{
    if styles.len() == nodes.len() && views.len() == nodes.len() {
        lemma_traversal_is_well_formed(nodes, root);
        match spec_traverse(nodes, root) {
            Ok((order, starts)) => {
                let sizes = crate::algo::spec_measure_from(order, starts, styles, views, 0);
                lemma_place_upto_wf(
                    order,
                    starts,
                    styles,
                    views,
                    sizes,
                    bounds,
                    order.len() as int,
                );
            },
            Err(_) => {},
        }
    }
}

/// The layout moves with its bounds: laying a tree out at `(dx, dy)` gives
/// what laying it out at the origin and then moving every rectangle by
/// `(dx, dy)` gives.
pub proof fn lemma_translation_invariance<T: GetStyle>(
    size: Size<Number>,
    dx: i64,
    dy: i64,
    nodes: Seq<Node>,
    rects: Seq<T>,
    views: Seq<ContentView>,
)
    requires
        nodes.len() <= usize::MAX,
    ensures
        spec_solve(LayoutRect { origin: LayoutPoint { x: dx, y: dy }, size }, nodes, rects, views)
            == match spec_solve(
            LayoutRect { origin: LayoutPoint { x: 0, y: 0 }, size },
            nodes,
            rects,
            views,
        ) {
            Ok(home) => Ok::<_, LayoutError>(spec_translate_all(home, dx, dy)),
            Err(e) => Err::<Seq<PositionedRectangle>, _>(e),
        },
{
    let styles = crate::spec_styles(rects, views);
    lemma_sizes_are_never_negative(0, nodes, styles, views, size);
    match spec_compute(0, nodes, styles, views, size) {
        Ok(r) => {
            let home = spec_translate_all(r, 0, 0);
            assert(home =~= r);
            assert(spec_translate_all(home, dx, dy) =~= spec_translate_all(r, dx, dy));
        },
        Err(_) => {},
    }
}

/// Determinism: the layout depends on the contents of the boxes only
/// through what they are and what they measure. Two tables of contents that
/// agree in that give the same layout, whatever else they hold.
pub proof fn lemma_layout_is_deterministic<T: GetStyle, A: MeasureText, B: MeasureText>(
    bounds: LayoutRect,
    nodes: Seq<Node>,
    rects: Seq<T>,
    first: Seq<Option<RectContent<A>>>,
    second: Seq<Option<RectContent<B>>>,
)
    requires
        views(first) == views(second),
    ensures
        spec_solve(bounds, nodes, rects, views(first)) == spec_solve(
            bounds,
            nodes,
            rects,
            views(second),
        ),
{
}

/// The items of all lines, one line after the other.
pub open spec fn spec_joined(lines: Seq<Seq<FlexItem>>) -> Seq<FlexItem>
    decreases lines.len(),
{
    if lines.len() == 0 {
        Seq::empty()
    } else {
        spec_joined(lines.drop_last()) + lines.last()
    }
}

proof fn lemma_fill_keeps_every_item(items: Seq<FlexItem>, room: i64, wrap: bool, n: int)
    requires
        0 <= n <= items.len(),
    ensures
        ({
            let (closed, open, extent) = spec_fill_lines(items, room, wrap, n);
            &&& spec_joined(closed) + open == items.take(n)
            &&& forall|l: int| 0 <= l < closed.len() ==> (#[trigger] closed[l]).len() > 0
            &&& !wrap ==> closed.len() == 0
            &&& n > 0 ==> open.len() > 0
        }),
    decreases n,
{
    if n <= 0 {
        assert(spec_joined(Seq::<Seq<FlexItem>>::empty()) + Seq::<FlexItem>::empty()
            =~= items.take(0));
    } else {
        lemma_fill_keeps_every_item(items, room, wrap, n - 1);
        let (closed, open, extent) = spec_fill_lines(items, room, wrap, n - 1);
        let (closed2, open2, extent2) = spec_fill_lines(items, room, wrap, n);
        assert(items.take(n) =~= items.take(n - 1).push(items[n - 1]));
        if closed2.len() == closed.len() {
            assert(closed2 == closed);
            assert(open2 == open.push(items[n - 1]));
            assert(spec_joined(closed) + open2 =~= (spec_joined(closed) + open).push(
                items[n - 1],
            ));
        } else {
            assert(closed2 == closed.push(open));
            assert(closed2.drop_last() =~= closed);
            assert(open2 =~= seq![items[n - 1]]);
            assert(spec_joined(closed2) + open2 =~= (spec_joined(closed) + open).push(
                items[n - 1],
            ));
        }
    }
}

/// The lines hold every item exactly once and in order, and no line is
/// empty.
pub proof fn lemma_lines_hold_every_item_once(items: Seq<FlexItem>, room: i64, wrap: bool)
    ensures
        spec_joined(spec_lines(items, room, wrap)) == items,
        forall|l: int|
            0 <= l < spec_lines(items, room, wrap).len() ==> (#[trigger] spec_lines(
                items,
                room,
                wrap,
            )[l]).len() > 0,
{
    reveal(spec_lines);
    lemma_fill_keeps_every_item(items, room, wrap, items.len() as int);
    let (closed, open, extent) = spec_fill_lines(items, room, wrap, items.len() as int);
    assert(items.take(items.len() as int) =~= items);
    if open.len() > 0 {
        assert(closed.push(open).drop_last() =~= closed);
    } else {
        assert(spec_joined(closed) + open =~= spec_joined(closed));
    }
}

/// Without wrapping, all items share a single line.
pub proof fn lemma_no_wrap_is_one_line(items: Seq<FlexItem>, room: i64)
    ensures
        spec_lines(items, room, false) == if items.len() > 0 {
            seq![items]
        } else {
            Seq::<Seq<FlexItem>>::empty()
        },
{
    reveal(spec_lines);
    lemma_fill_keeps_every_item(items, room, false, items.len() as int);
    let (closed, open, extent) = spec_fill_lines(items, room, false, items.len() as int);
    assert(items.take(items.len() as int) =~= items);
    assert(closed =~= Seq::<Seq<FlexItem>>::empty());
    assert(spec_joined(closed) + open =~= open);
    if items.len() > 0 {
        assert(closed.push(open) =~= seq![items]);
    }
}

/// Whether every target is a size its item's bounds allow, and every item
/// without a flex factor in use still has its hypothetical size.
pub open spec fn settled_within_bounds(
    line: Seq<FlexItem>,
    growing: bool,
    frozen: Seq<bool>,
    target: Seq<i64>,
) -> bool {
    &&& frozen.len() == line.len()
    &&& target.len() == line.len()
    &&& forall|i: int|
        0 <= i < line.len() ==> #[trigger] target[i] == spec_fit_main(target[i], line[i])
    &&& forall|i: int|
        0 <= i < line.len() && line[i].spec_factor(growing) == 0 ==> #[trigger] frozen[i]
    &&& forall|i: int|
        0 <= i < line.len() && line[i].spec_factor(growing) == 0 ==> #[trigger] target[i]
            == line[i].spec_hypothetical()
}

proof fn lemma_fit_is_idempotent(v: i64, item: FlexItem)
    ensures
        spec_fit_main(spec_fit_main(v, item), item) == spec_fit_main(v, item),
{
}

proof fn lemma_settle_within_bounds(
    line: Seq<FlexItem>,
    room: i64,
    growing: bool,
    frozen: Seq<bool>,
    target: Seq<i64>,
    rounds: nat,
)
    requires
        settled_within_bounds(line, growing, frozen, target),
    ensures
        settled_within_bounds(
            line,
            growing,
            frozen,
            spec_settle(line, room, growing, frozen, target, rounds),
        ),
    decreases rounds,
{
    if rounds == 0 || all_frozen(frozen) {
    } else {
        let (f, t) = spec_round(line, room, growing, frozen, target);
        let raw = crate::flex::spec_raw(line, room, growing, frozen, target);
        assert forall|i: int| 0 <= i < line.len() implies #[trigger] t[i] == spec_fit_main(
            t[i],
            line[i],
        ) by {
            if frozen[i] {
                assert(t[i] == target[i]);
            } else {
                lemma_fit_is_idempotent(raw[i], line[i]);
            }
        }
        assert forall|i: int|
            0 <= i < line.len() && line[i].spec_factor(growing) == 0 implies #[trigger] f[i] by {
            assert(frozen[i]);
        }
        assert forall|i: int|
            0 <= i < line.len() && line[i].spec_factor(growing) == 0 implies #[trigger] t[i]
            == line[i].spec_hypothetical() by {
            assert(frozen[i]);
            assert(target[i] == line[i].spec_hypothetical());
        }
        assert(settled_within_bounds(line, growing, f, t));
        lemma_settle_within_bounds(line, room, growing, f, t, (rounds - 1) as nat);
        let last = spec_settle(line, room, growing, f, t, (rounds - 1) as nat);
        assert(last == spec_settle(line, room, growing, frozen, target, rounds));
        assert forall|i: int|
            0 <= i < line.len() && line[i].spec_factor(growing) == 0 implies #[trigger] frozen[i] by {
        }
    }
}

/// Every item of a line gets one main size, which its bounds allow, and an
/// item whose flex factor in use is zero keeps its hypothetical size.
pub proof fn lemma_main_sizes_respect_bounds(line: Seq<FlexItem>, room: i64)
    ensures
        spec_main_sizes(line, room).len() == line.len(),
        forall|i: int|
            0 <= i < line.len() ==> #[trigger] spec_main_sizes(line, room)[i] == spec_fit_main(
                spec_main_sizes(line, room)[i],
                line[i],
            ),
        forall|i: int|
            0 <= i < line.len() && line[i].spec_factor(crate::flex::spec_growing(line, room)) == 0
                ==> #[trigger] spec_main_sizes(line, room)[i] == line[i].spec_hypothetical(),
{
    reveal(spec_main_sizes);
    let growing = crate::flex::spec_growing(line, room);
    let frozen = Seq::new(line.len(), |i: int| line[i].spec_inflexible(growing));
    let target = Seq::new(line.len(), |i: int| line[i].spec_hypothetical());
    assert forall|i: int| 0 <= i < line.len() implies #[trigger] target[i] == spec_fit_main(
        target[i],
        line[i],
    ) by {
        lemma_fit_is_idempotent(line[i].base, line[i]);
    }
    assert(settled_within_bounds(line, growing, frozen, target));
    lemma_settle_within_bounds(line, room, growing, frozen, target, line.len());
}

/// Whether `run` is the run of siblings that `link` starts and that is
/// followed by `end`: every node of the run is in the table and links to
/// the next one, and the last links to `end`.
pub open spec fn siblings(nodes: Seq<Node>, link: Option<usize>, run: Seq<usize>, end: Option<usize>) -> bool
    decreases run.len(),
{
    if run.len() == 0 {
        link == end
    } else {
        &&& link == Some(run[0])
        &&& run[0] < nodes.len()
        &&& siblings(nodes, nodes[run[0] as int].next_sibling, run.drop_first(), end)
    }
}

proof fn lemma_siblings_grow(
    nodes: Seq<Node>,
    link: Option<usize>,
    run: Seq<usize>,
    c: usize,
)
    requires
        siblings(nodes, link, run, Some(c)),
        c < nodes.len(),
    ensures
        siblings(nodes, link, run.push(c), nodes[c as int].next_sibling),
    decreases run.len(),
{
    let more = run.push(c);
    if run.len() == 0 {
        assert(more.drop_first() =~= Seq::<usize>::empty());
        assert(siblings(nodes, nodes[c as int].next_sibling, more.drop_first(), nodes[c as int].next_sibling));
    } else {
        lemma_siblings_grow(nodes, nodes[run[0] as int].next_sibling, run.drop_first(), c);
        assert(more.drop_first() =~= run.drop_first().push(c));
    }
}

/// Whether the children of the first `done` positions are listed in full,
/// each run of siblings complete.
pub open spec fn children_listed(
    nodes: Seq<Node>,
    order: Seq<usize>,
    starts: Seq<usize>,
    done: int,
) -> bool {
    forall|k: int|
        0 <= k < done ==> siblings(
            nodes,
            nodes[order[k] as int].first_child,
            #[trigger] order.subrange(starts[k] as int, starts[k + 1] as int),
            None,
        )
}

proof fn lemma_walk_lists_the_children(
    nodes: Seq<Node>,
    order: Seq<usize>,
    starts: Seq<usize>,
    link: Option<usize>,
)
    requires
        walking(order, starts, nodes.len()),
        nodes.len() <= usize::MAX,
        children_listed(nodes, order, starts, starts.len() - 1),
        starts.len() <= order.len() ==> siblings(
            nodes,
            nodes[order[starts.len() - 1] as int].first_child,
            order.subrange(starts[starts.len() - 1] as int, order.len() as int),
            link,
        ),
    ensures
        match spec_walk(nodes, order, starts, link) {
            Ok((o, s)) => children_listed(nodes, o, s, o.len() as int),
            Err(_) => true,
        },
    decreases 2 * nodes.len() + 1 - order.len() - starts.len(),
{
    if starts.len() > order.len() {
    } else if order.len() > nodes.len() {
    } else {
        let k = starts.len() - 1;
        match link {
            Some(c) => {
                if c >= nodes.len() {
                } else if order.contains(c) {
                } else {
                    let next = order.push(c);
                    assert(walking(next, starts, nodes.len())) by {
                        assert forall|i: int, j: int|
                            0 <= i < next.len() && 0 <= j < next.len() && i != j implies next[i]
                            != next[j] by {
                            if i < order.len() && j < order.len() {
                                assert(order[i] != order[j]);
                            } else if i < order.len() {
                                assert(order.contains(order[i]));
                            } else {
                                assert(order.contains(order[j]));
                            }
                        }
                        assert forall|i: int| 0 <= i < next.len() implies #[trigger] next[i]
                            < nodes.len() by {
                            if i < order.len() {
                                assert(order[i] < nodes.len());
                            }
                        }
                    }
                    assert(starts[k] <= order.len());
                    assert forall|i: int| 0 <= i < k implies siblings(
                        nodes,
                        nodes[next[i] as int].first_child,
                        #[trigger] next.subrange(starts[i] as int, starts[i + 1] as int),
                        None,
                    ) by {
                        assert(starts[i] <= starts[i + 1]);
                        assert(starts[i + 1] <= order.len());
                        assert(next.subrange(starts[i] as int, starts[i + 1] as int)
                            =~= order.subrange(starts[i] as int, starts[i + 1] as int));
                        assert(i < starts[i]);
                    }
                    lemma_siblings_grow(
                        nodes,
                        nodes[order[k] as int].first_child,
                        order.subrange(starts[k] as int, order.len() as int),
                        c,
                    );
                    assert(next.subrange(starts[k] as int, next.len() as int)
                        =~= order.subrange(starts[k] as int, order.len() as int).push(c));
                    assert(k < starts[k]);
                    lemma_walk_lists_the_children(
                        nodes,
                        next,
                        starts,
                        nodes[c as int].next_sibling,
                    );
                }
            },
            None => {
                let more = starts.push(order.len() as usize);
                let follow = if k + 1 < order.len() {
                    nodes[order[k + 1] as int].first_child
                } else {
                    None
                };
                assert(walking(order, more, nodes.len())) by {
                    assert forall|i: int| 0 <= i && i + 1 < more.len() implies #[trigger] more[i]
                        <= more[i + 1] by {
                        if i + 1 < starts.len() {
                            assert(starts[i] <= starts[i + 1]);
                        } else {
                            assert(starts[i] <= order.len());
                        }
                    }
                    assert forall|i: int| 0 <= i < more.len() && i < order.len() implies i
                        < #[trigger] more[i] by {
                        if i < starts.len() {
                            assert(i < starts[i]);
                        }
                    }
                    assert forall|i: int| 0 <= i < more.len() implies #[trigger] more[i]
                        <= order.len() by {
                        if i < starts.len() {
                            assert(starts[i] <= order.len());
                        }
                    }
                }
                assert forall|i: int| 0 <= i < k + 1 implies siblings(
                    nodes,
                    nodes[order[i] as int].first_child,
                    #[trigger] order.subrange(more[i] as int, more[i + 1] as int),
                    None,
                ) by {
                    if i < k {
                        assert(more[i] == starts[i] && more[i + 1] == starts[i + 1]);
                        assert(siblings(
                            nodes,
                            nodes[order[i] as int].first_child,
                            order.subrange(starts[i] as int, starts[i + 1] as int),
                            None,
                        ));
                    } else {
                        assert(more[i] == starts[k] && more[i + 1] == order.len());
                    }
                }
                if more.len() <= order.len() {
                    assert(order.subrange(order.len() as int, order.len() as int)
                        =~= Seq::<usize>::empty());
                }
                lemma_walk_lists_the_children(nodes, order, more, follow);
            },
        }
    }
}

/// A walk that succeeds lists, for every node it reached, exactly the run
/// of siblings that the node's first child starts, in their order.
pub proof fn lemma_traversal_lists_the_children(nodes: Seq<Node>, root: usize)
    requires
        nodes.len() <= usize::MAX,
    ensures
        match spec_traverse(nodes, root) {
            Ok((order, starts)) => children_listed(nodes, order, starts, order.len() as int),
            Err(_) => true,
        },
{
    if root < nodes.len() {
        let order = seq![root];
        let starts = seq![1usize];
        assert(order.no_duplicates());
        assert(walking(order, starts, nodes.len()));
        assert(order.subrange(1, 1) =~= Seq::<usize>::empty());
        lemma_walk_lists_the_children(nodes, order, starts, nodes[root as int].first_child);
    }
}

/// Whether `order` and `starts` list a tree below `root` breadth first: the
/// root comes first, every other entry is the child of an earlier one, the
/// children of each entry are the run of siblings that its first child
/// starts, and no node occurs twice.
pub open spec fn is_walk(nodes: Seq<Node>, root: usize, order: Seq<usize>, starts: Seq<usize>) -> bool {
    &&& well_formed(order, starts, nodes.len())
    &&& order[0] == root
    &&& starts[0] == 1
    &&& starts[order.len() as int] == order.len()
    &&& children_listed(nodes, order, starts, order.len() as int)
}

proof fn lemma_distinct_nodes_fit(order: Seq<usize>, n: nat)
    requires
        order.no_duplicates(),
        forall|k: int| 0 <= k < order.len() ==> #[trigger] order[k] < n,
    ensures
        order.len() <= n,
{
    let ints = order.map_values(|x: usize| x as int);
    assert(ints.no_duplicates()) by {
        assert forall|i: int, j: int|
            0 <= i < ints.len() && 0 <= j < ints.len() && i != j implies ints[i] != ints[j] by {
            assert(order[i] != order[j]);
        }
    }
    ints.unique_seq_to_set();
    vstd::set_lib::lemma_int_range(0, n as int);
    assert(ints.to_set().subset_of(vstd::set_lib::set_int_range(0, n as int))) by {
        assert forall|a: int| ints.to_set().contains(a) implies vstd::set_lib::set_int_range(
            0,
            n as int,
        ).contains(a) by {
            let i = choose|i: int| 0 <= i < ints.len() && ints[i] == a;
            assert(order[i] < n);
        }
    }
    vstd::set_lib::lemma_len_subset(ints.to_set(), vstd::set_lib::set_int_range(0, n as int));
}

proof fn lemma_walk_follows(
    nodes: Seq<Node>,
    order: Seq<usize>,
    starts: Seq<usize>,
    link: Option<usize>,
    o: Seq<usize>,
    s: Seq<usize>,
)
    requires
        nodes.len() <= usize::MAX,
        is_walk(nodes, o[0], o, s),
        1 <= order.len() <= o.len(),
        1 <= starts.len() <= order.len() + 1,
        order == o.take(order.len() as int),
        starts == s.take(starts.len() as int),
        starts.len() <= order.len() ==> order.len() <= s[starts.len() as int] && siblings(
            nodes,
            link,
            o.subrange(order.len() as int, s[starts.len() as int] as int),
            None,
        ),
        starts.len() == order.len() + 1 ==> order.len() == o.len(),
    ensures
        spec_walk(nodes, order, starts, link) == Ok::<_, LayoutError>((o, s)),
    decreases 2 * nodes.len() + 1 - order.len() - starts.len(),
{
    lemma_distinct_nodes_fit(o, nodes.len());
    if starts.len() > order.len() {
        assert(order =~= o);
        assert(starts =~= s);
    } else {
        let k1 = starts.len() as int;
        let len = order.len() as int;
        assert(s[k1 - 1] <= s[k1 - 1 + 1]);
        assert(s[k1] <= o.len());
        let rest = o.subrange(len, s[k1] as int);
        match link {
            Some(c) => {
                assert(rest.len() > 0);
                assert(rest[0] == c);
                assert(o[len] == c);
                assert(!order.contains(c)) by {
                    if order.contains(c) {
                        let i = choose|i: int| 0 <= i < order.len() && order[i] == c;
                        assert(o[i] == c);
                    }
                }
                let next = order.push(c);
                assert(next =~= o.take(len + 1));
                assert(rest.drop_first() =~= o.subrange(len + 1, s[k1] as int));
                lemma_walk_follows(nodes, next, starts, nodes[c as int].next_sibling, o, s);
            },
            None => {
                assert(rest.len() == 0);
                assert(s[k1] == len);
                let more = starts.push(order.len() as usize);
                assert(more =~= s.take(k1 + 1));
                let follow = if k1 < order.len() {
                    nodes[order[k1] as int].first_child
                } else {
                    None
                };
                if k1 < order.len() {
                    assert(order[k1] == o[k1]);
                    assert(s[k1] <= s[k1 + 1]);
                    assert(siblings(
                        nodes,
                        nodes[o[k1] as int].first_child,
                        o.subrange(s[k1] as int, s[k1 + 1] as int),
                        None,
                    ));
                } else {
                    if len < o.len() {
                        assert(len < s[len]);
                    }
                }
                lemma_walk_follows(nodes, order, more, follow, o, s);
            },
        }
    }
}

/// The walk finds the breadth-first listing of a tree wherever there is
/// one.
pub proof fn lemma_traverse_finds_the_walk(
    nodes: Seq<Node>,
    root: usize,
    order: Seq<usize>,
    starts: Seq<usize>,
)
    requires
        nodes.len() <= usize::MAX,
        is_walk(nodes, root, order, starts),
    ensures
        spec_traverse(nodes, root) == Ok::<_, LayoutError>((order, starts)),
{
    assert(order[0] < nodes.len());
    assert(starts[0] <= starts[0int + 1]);
    assert(seq![root] =~= order.take(1));
    assert(seq![1usize] =~= starts.take(1));
    assert(siblings(
        nodes,
        nodes[order[0] as int].first_child,
        order.subrange(starts[0] as int, starts[0int + 1] as int),
        None,
    ));
    if order.len() == 1 {
        assert(starts[1] == 1);
    }
    lemma_walk_follows(
        nodes,
        seq![root],
        seq![1usize],
        nodes[root as int].first_child,
        order,
        starts,
    );
}

/// The walk succeeds exactly where the links below the root form a tree,
/// and what it returns is the breadth-first listing of that tree.
pub proof fn lemma_traverse_succeeds_on_trees_only(nodes: Seq<Node>, root: usize)
    requires
        nodes.len() <= usize::MAX,
    ensures
        spec_traverse(nodes, root) is Ok <==> exists|order: Seq<usize>, starts: Seq<usize>|
            is_walk(nodes, root, order, starts),
        forall|order: Seq<usize>, starts: Seq<usize>|
            spec_traverse(nodes, root) == Ok::<_, LayoutError>((order, starts)) <==> is_walk(
                nodes,
                root,
                order,
                starts,
            ),
{
    lemma_traversal_is_well_formed(nodes, root);
    lemma_traversal_lists_the_children(nodes, root);
    assert forall|order: Seq<usize>, starts: Seq<usize>|
        is_walk(nodes, root, order, starts) implies spec_traverse(nodes, root) == Ok::<
        _,
        LayoutError,
    >((order, starts)) by {
        lemma_traverse_finds_the_walk(nodes, root, order, starts);
    }
    match spec_traverse(nodes, root) {
        Ok((order, starts)) => {
            assert(is_walk(nodes, root, order, starts));
        },
        Err(_) => {},
    }
}

} // verus!
