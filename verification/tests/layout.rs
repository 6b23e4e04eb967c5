use azul_layout::algo::compute;
use azul_layout::content::{MeasureText, TextLayoutOptions};
use azul_layout::geometry::{LayoutPoint, LayoutRect, PositionedRectangle};
use azul_layout::style::{
    AlignContent, AlignItems, AlignSelf, BoxSizing, Dimension, Display, FlexDirection, FlexWrap,
    JustifyContent, PositionType, Style,
};
use azul_layout::tree::{LayoutError, Node};
use azul_layout::{Number, RectContent, Size, SolvedUi};

struct NoText;

impl MeasureText for NoText {
    fn measure_text(&mut self, _options: &TextLayoutOptions) -> Size<i64> {
        Size { width: 0, height: 0 }
    }
}

/// Text of ten glyphs, each 10 by 20 pixels, that breaks between glyphs.
struct Glyphs {
    calls: usize,
}

impl MeasureText for Glyphs {
    fn measure_text(&mut self, options: &TextLayoutOptions) -> Size<i64> {
        self.calls += 1;
        let per_line = match options.max_width {
            Number::Defined(w) => std::cmp::max(1, std::cmp::min(10, w / 10_000)),
            Number::Undefined => 10,
        };
        let lines = (10 + per_line - 1) / per_line;
        Size { width: per_line * 10_000, height: lines * 20_000 }
    }
}

fn px(v: i64) -> Dimension {
    Dimension::Pixels(v * 1000)
}

fn hierarchy(parents: &[Option<usize>]) -> Vec<Node> {
    let mut nodes: Vec<Node> = parents
        .iter()
        .map(|p| Node {
            parent: *p,
            previous_sibling: None,
            next_sibling: None,
            first_child: None,
            last_child: None,
        })
        .collect();
    for i in 0..parents.len() {
        if let Some(p) = parents[i] {
            match nodes[p].last_child {
                Some(last) => {
                    nodes[last].next_sibling = Some(i);
                    nodes[i].previous_sibling = Some(last);
                }
                None => nodes[p].first_child = Some(i),
            }
            nodes[p].last_child = Some(i);
        }
    }
    nodes
}

fn sized(w: i64, h: i64) -> Style {
    let mut s = Style::default();
    s.size = Size { width: px(w), height: px(h) };
    s
}

fn no_contents(n: usize) -> Vec<Option<RectContent<NoText>>> {
    (0..n).map(|_| None).collect()
}

fn bounds(w: i64, h: i64) -> Size<Number> {
    Size { width: Number::Defined(w * 1000), height: Number::Defined(h * 1000) }
}

fn layout(parents: &[Option<usize>], styles: &[Style], b: Size<Number>) -> Vec<PositionedRectangle> {
    let nodes = hierarchy(parents);
    let mut contents = no_contents(nodes.len());
    compute(0, &nodes, &styles.to_vec(), &mut contents, b).unwrap()
}

fn rect(x: i64, y: i64, w: i64, h: i64) -> PositionedRectangle {
    PositionedRectangle {
        origin: LayoutPoint { x: x * 1000, y: y * 1000 },
        size: Size { width: w * 1000, height: h * 1000 },
    }
}

#[test]
fn childless_box_takes_its_explicit_size() {
    let r = layout(&[None], &[sized(100, 50)], bounds(500, 500));
    assert_eq!(r, vec![rect(0, 0, 100, 50)]);
}

#[test]
fn two_growing_children_share_a_row() {
    let mut child = Style::default();
    child.flex_grow = 1000;
    let r = layout(&[None, Some(0), Some(0)], &[sized(200, 100), child, child], bounds(500, 500));
    assert_eq!(r, vec![rect(0, 0, 200, 100), rect(0, 0, 100, 100), rect(100, 0, 100, 100)]);
}

#[test]
fn centered_child_sits_in_the_middle_of_the_cross_axis() {
    let mut root = Style::default();
    root.size.height = px(100);
    root.size.width = px(300);
    root.align_items = AlignItems::Center;
    let mut child = Style::default();
    child.size.height = px(20);
    let r = layout(&[None, Some(0)], &[root, child], bounds(500, 500));
    assert_eq!(r[1].origin.y, 40_000);
    assert_eq!(r[1].size.height, 20_000);
}

#[test]
fn percent_width_refers_to_a_definite_parent() {
    let mut child = Style::default();
    child.size.width = Dimension::Percent(50_000);
    let r = layout(&[None, Some(0)], &[sized(400, 100), child], bounds(500, 500));
    assert_eq!(r[1].size.width, 200_000);
}

#[test]
fn percent_width_in_an_indefinite_parent_contributes_nothing() {
    let mut child = Style::default();
    child.size.width = Dimension::Percent(50_000);
    let r = layout(&[None, Some(0)], &[Style::default(), child], bounds(500, 500));
    assert_eq!(r[0].size.width, 0);
    assert_eq!(r[1].size.width, 0);
}

#[test]
fn image_height_follows_from_width_and_aspect_ratio() {
    let nodes = hierarchy(&[None]);
    let mut style = Style::default();
    style.size.width = px(60);
    let mut contents: Vec<Option<RectContent<NoText>>> = vec![Some(RectContent::Image(100, 50))];
    let b = LayoutRect { origin: LayoutPoint { x: 0, y: 0 }, size: bounds(500, 500) };
    let ui = SolvedUi::solve(b, &nodes, &vec![style], &mut contents).unwrap();
    assert_eq!(ui.solved_rects, vec![rect(0, 0, 60, 30)]);
}

#[test]
fn image_without_constraints_takes_its_own_size() {
    let nodes = hierarchy(&[None]);
    let mut contents: Vec<Option<RectContent<NoText>>> = vec![Some(RectContent::Image(100, 50))];
    let b = LayoutRect { origin: LayoutPoint { x: 0, y: 0 }, size: bounds(500, 500) };
    let ui = SolvedUi::solve(b, &nodes, &vec![Style::default()], &mut contents).unwrap();
    assert_eq!(ui.solved_rects, vec![rect(0, 0, 100, 50)]);
}

#[test]
fn space_between_puts_equal_gaps_between_three_items() {
    let mut root = sized(400, 100);
    root.justify_content = JustifyContent::SpaceBetween;
    let item = sized(100, 10);
    let r = layout(
        &[None, Some(0), Some(0), Some(0)],
        &[root, item, item, item],
        bounds(500, 500),
    );
    // 100 pixels are left over: two gaps of 50, none before or after.
    assert_eq!(r[1].origin.x, 0);
    assert_eq!(r[2].origin.x, 150_000);
    assert_eq!(r[3].origin.x, 300_000);
    assert_eq!(r[3].origin.x + r[3].size.width, 400_000);
}

#[test]
fn space_around_and_space_evenly() {
    let mut root = sized(400, 100);
    let item = sized(100, 10);
    root.justify_content = JustifyContent::SpaceAround;
    let r = layout(&[None, Some(0), Some(0)], &[root, item, item], bounds(500, 500));
    assert_eq!((r[1].origin.x, r[2].origin.x), (50_000, 250_000));
    root.justify_content = JustifyContent::SpaceEvenly;
    let r = layout(&[None, Some(0), Some(0)], &[root, item, item], bounds(500, 500));
    assert_eq!((r[1].origin.x, r[2].origin.x), (66_666, 233_332));
    root.justify_content = JustifyContent::Center;
    let r = layout(&[None, Some(0), Some(0)], &[root, item, item], bounds(500, 500));
    assert_eq!((r[1].origin.x, r[2].origin.x), (100_000, 200_000));
    root.justify_content = JustifyContent::FlexEnd;
    let r = layout(&[None, Some(0), Some(0)], &[root, item, item], bounds(500, 500));
    assert_eq!((r[1].origin.x, r[2].origin.x), (200_000, 300_000));
}

#[test]
fn grow_is_proportional_to_the_factor() {
    let mut a = Style::default();
    a.flex_grow = 1000;
    let mut b = Style::default();
    b.flex_grow = 3000;
    let c = sized(40, 10);
    let r = layout(&[None, Some(0), Some(0), Some(0)], &[sized(240, 100), a, b, c], bounds(500, 500));
    assert_eq!((r[1].size.width, r[2].size.width, r[3].size.width), (50_000, 150_000, 40_000));
    assert_eq!((r[1].origin.x, r[2].origin.x, r[3].origin.x), (0, 50_000, 200_000));
}

#[test]
fn shrink_is_proportional_to_factor_times_base() {
    let mut a = sized(100, 10);
    a.flex_shrink = 1000;
    let mut b = sized(300, 10);
    b.flex_shrink = 1000;
    let r = layout(&[None, Some(0), Some(0)], &[sized(200, 100), a, b], bounds(500, 500));
    // 200 too many: a gives 200 * 100 / 400, b gives 200 * 300 / 400.
    assert_eq!((r[1].size.width, r[2].size.width), (50_000, 150_000));
}

#[test]
fn shrinking_never_goes_below_zero() {
    let mut a = sized(100, 10);
    a.flex_shrink = 1000;
    let mut b = sized(100, 10);
    b.flex_shrink = 0;
    let r = layout(&[None, Some(0), Some(0)], &[sized(150, 100), a, b], bounds(500, 500));
    assert_eq!((r[1].size.width, r[2].size.width), (50_000, 100_000));
    let r = layout(&[None, Some(0), Some(0)], &[sized(50, 100), a, b], bounds(500, 500));
    assert_eq!((r[1].size.width, r[2].size.width), (0, 100_000));
}

#[test]
fn clamped_share_is_handed_to_the_other_items() {
    let mut a = Style::default();
    a.flex_grow = 1000;
    a.max_size.width = px(50);
    let mut b = Style::default();
    b.flex_grow = 1000;
    let r = layout(&[None, Some(0), Some(0)], &[sized(300, 100), a, b], bounds(500, 500));
    assert_eq!((r[1].size.width, r[2].size.width), (50_000, 250_000));
    assert_eq!(r[2].origin.x, 50_000);
}

#[test]
fn minimum_lifts_an_item_and_the_rest_gives_way() {
    let mut a = sized(100, 10);
    a.min_size.width = px(90);
    let b = sized(100, 10);
    let r = layout(&[None, Some(0), Some(0)], &[sized(100, 100), a, b], bounds(500, 500));
    assert_eq!((r[1].size.width, r[2].size.width), (90_000, 10_000));
}

#[test]
fn column_direction_stacks_children() {
    let mut root = sized(100, 300);
    root.flex_direction = FlexDirection::Column;
    let a = sized(40, 50);
    let mut b = Style::default();
    b.size.height = px(70);
    let r = layout(&[None, Some(0), Some(0)], &[root, a, b], bounds(500, 500));
    assert_eq!(r[1], rect(0, 0, 40, 50));
    // The second child has no width of its own and is stretched.
    assert_eq!(r[2], rect(0, 50, 100, 70));
}

#[test]
fn reversed_row_starts_at_the_far_end() {
    let mut root = sized(300, 100);
    root.flex_direction = FlexDirection::RowReverse;
    let a = sized(100, 10);
    let b = sized(50, 10);
    let r = layout(&[None, Some(0), Some(0)], &[root, a, b], bounds(500, 500));
    assert_eq!((r[1].origin.x, r[2].origin.x), (200_000, 150_000));
}

#[test]
fn wrapping_starts_a_new_line_on_overflow() {
    let mut root = sized(250, 100);
    root.flex_wrap = FlexWrap::Wrap;
    root.align_content = AlignContent::FlexStart;
    let item = sized(100, 20);
    let r = layout(
        &[None, Some(0), Some(0), Some(0)],
        &[root, item, item, item],
        bounds(500, 500),
    );
    assert_eq!(r[1], rect(0, 0, 100, 20));
    assert_eq!(r[2], rect(100, 0, 100, 20));
    assert_eq!(r[3], rect(0, 20, 100, 20));
}

#[test]
fn no_wrap_keeps_everything_on_one_line() {
    let mut root = sized(250, 100);
    root.flex_wrap = FlexWrap::NoWrap;
    let mut item = sized(100, 20);
    item.flex_shrink = 0;
    let r = layout(
        &[None, Some(0), Some(0), Some(0)],
        &[root, item, item, item],
        bounds(500, 500),
    );
    assert_eq!((r[1].origin.x, r[2].origin.x, r[3].origin.x), (0, 100_000, 200_000));
    assert_eq!((r[1].origin.y, r[2].origin.y, r[3].origin.y), (0, 0, 0));
}

#[test]
fn stretched_lines_share_the_spare_cross_room() {
    let mut root = sized(100, 100);
    root.flex_wrap = FlexWrap::Wrap;
    root.align_items = AlignItems::FlexStart;
    let item = sized(100, 20);
    let r = layout(&[None, Some(0), Some(0)], &[root, item, item], bounds(500, 500));
    // Two lines of 20 in 100: each line gets 30 more.
    assert_eq!((r[1].origin.y, r[2].origin.y), (0, 50_000));
}

#[test]
fn lines_are_spaced_by_align_content() {
    let mut root = sized(100, 100);
    root.flex_wrap = FlexWrap::Wrap;
    let item = sized(100, 20);
    root.align_content = AlignContent::FlexEnd;
    let r = layout(&[None, Some(0), Some(0)], &[root, item, item], bounds(500, 500));
    assert_eq!((r[1].origin.y, r[2].origin.y), (60_000, 80_000));
    root.align_content = AlignContent::Center;
    let r = layout(&[None, Some(0), Some(0)], &[root, item, item], bounds(500, 500));
    assert_eq!((r[1].origin.y, r[2].origin.y), (30_000, 50_000));
    root.align_content = AlignContent::SpaceBetween;
    let r = layout(&[None, Some(0), Some(0)], &[root, item, item], bounds(500, 500));
    assert_eq!((r[1].origin.y, r[2].origin.y), (0, 80_000));
    root.align_content = AlignContent::SpaceAround;
    let r = layout(&[None, Some(0), Some(0)], &[root, item, item], bounds(500, 500));
    assert_eq!((r[1].origin.y, r[2].origin.y), (15_000, 65_000));
}

#[test]
fn align_self_overrides_align_items() {
    let root = sized(100, 100);
    let mut a = sized(10, 20);
    a.align_self = AlignSelf::FlexEnd;
    let mut b = sized(10, 20);
    b.align_self = AlignSelf::Center;
    let c = sized(10, 20);
    let r = layout(&[None, Some(0), Some(0), Some(0)], &[root, a, b, c], bounds(500, 500));
    assert_eq!((r[1].origin.y, r[2].origin.y, r[3].origin.y), (80_000, 40_000, 0));
}

#[test]
fn padding_border_and_margin_move_the_children() {
    let mut root = sized(200, 100);
    root.padding.left = px(10);
    root.padding.top = px(5);
    root.border.left = px(1);
    root.border.top = px(2);
    let mut child = sized(50, 20);
    child.margin.left = px(3);
    child.margin.top = px(4);
    let r = layout(&[None, Some(0)], &[root, child], bounds(500, 500));
    // Content-box sizing: the root grows by its frame.
    assert_eq!(r[0], rect(0, 0, 211, 107));
    assert_eq!(r[1], rect(14, 11, 50, 20));
}

#[test]
fn border_box_sizing_keeps_the_outer_size() {
    let mut root = sized(200, 100);
    root.box_sizing = BoxSizing::BorderBox;
    root.padding.left = px(10);
    root.padding.right = px(10);
    let mut child = Style::default();
    child.flex_grow = 1000;
    let r = layout(&[None, Some(0)], &[root, child], bounds(500, 500));
    assert_eq!(r[0], rect(0, 0, 200, 100));
    assert_eq!(r[1], rect(10, 0, 180, 100));
}

#[test]
fn container_without_size_takes_the_room_of_its_children() {
    let a = sized(30, 10);
    let b = sized(50, 40);
    let r = layout(&[None, Some(0), Some(0)], &[Style::default(), a, b], bounds(500, 500));
    assert_eq!(r[0], rect(0, 0, 80, 40));
    let mut column = Style::default();
    column.flex_direction = FlexDirection::Column;
    let r = layout(&[None, Some(0), Some(0)], &[column, a, b], bounds(500, 500));
    assert_eq!(r[0], rect(0, 0, 50, 50));
}

#[test]
fn childless_box_without_size_is_empty() {
    let r = layout(&[None], &[Style::default()], bounds(500, 500));
    assert_eq!(r, vec![rect(0, 0, 0, 0)]);
    let r = layout(
        &[None],
        &[Style::default()],
        Size { width: Number::Undefined, height: Number::Undefined },
    );
    assert_eq!(r, vec![rect(0, 0, 0, 0)]);
}

#[test]
fn absolute_child_is_placed_by_its_offsets() {
    let root = sized(200, 100);
    let mut a = sized(50, 20);
    a.position_type = PositionType::Absolute;
    a.position.left = px(10);
    a.position.top = px(5);
    let mut b = sized(50, 20);
    b.position_type = PositionType::Absolute;
    b.position.right = px(10);
    b.position.bottom = px(5);
    let c = sized(30, 30);
    let r = layout(&[None, Some(0), Some(0), Some(0)], &[root, a, b, c], bounds(500, 500));
    assert_eq!(r[1], rect(10, 5, 50, 20));
    assert_eq!(r[2], rect(140, 75, 50, 20));
    // The child in the flow is placed as if the others were not there.
    assert_eq!(r[3], rect(0, 0, 30, 30));
}

#[test]
fn absolute_child_between_two_offsets_fills_the_room() {
    let root = sized(200, 100);
    let mut a = Style::default();
    a.position_type = PositionType::Absolute;
    a.position.left = px(10);
    a.position.right = px(30);
    a.position.top = px(5);
    a.position.bottom = px(15);
    let r = layout(&[None, Some(0)], &[root, a], bounds(500, 500));
    assert_eq!(r[1], rect(10, 5, 160, 80));
}

#[test]
fn absolute_child_without_offsets_sits_where_it_would_alone() {
    let mut root = sized(200, 100);
    root.justify_content = JustifyContent::Center;
    root.align_items = AlignItems::FlexEnd;
    let mut a = sized(50, 20);
    a.position_type = PositionType::Absolute;
    let r = layout(&[None, Some(0)], &[root, a], bounds(500, 500));
    assert_eq!(r[1], rect(75, 80, 50, 20));
}

#[test]
fn relative_offsets_move_a_box_from_its_place() {
    let root = sized(200, 100);
    let mut a = sized(50, 20);
    a.position.left = px(7);
    a.position.bottom = px(3);
    let b = sized(50, 20);
    let r = layout(&[None, Some(0), Some(0)], &[root, a, b], bounds(500, 500));
    assert_eq!(r[1], rect(7, -3, 50, 20));
    assert_eq!(r[2], rect(50, 0, 50, 20));
}

#[test]
fn hidden_subtree_takes_no_room() {
    let root = sized(200, 100);
    let mut hidden = sized(50, 20);
    hidden.display = Display::Gone;
    let inner = sized(10, 10);
    let shown = sized(30, 30);
    let r = layout(
        &[None, Some(0), Some(1), Some(0)],
        &[root, hidden, inner, shown],
        bounds(500, 500),
    );
    assert_eq!(r[1], rect(0, 0, 0, 0));
    assert_eq!(r[2], rect(0, 0, 0, 0));
    assert_eq!(r[3], rect(0, 0, 30, 30));
}

#[test]
fn grandchildren_are_placed_inside_their_parent() {
    let root = sized(300, 100);
    let mut left = Style::default();
    left.flex_grow = 1000;
    let mut right = Style::default();
    right.flex_grow = 2000;
    right.padding.left = px(10);
    let mut inner = Style::default();
    inner.flex_grow = 1000;
    let r = layout(
        &[None, Some(0), Some(0), Some(2)],
        &[root, left, right, inner],
        bounds(500, 500),
    );
    // The padded child starts from a base of 10, so 290 are shared 1 : 2.
    assert_eq!(r[1].size.width, 96_666);
    assert_eq!(r[2].origin.x, 96_666);
    assert_eq!(r[2].size.width, 203_333);
    assert_eq!(r[3].origin.x, 106_666);
    assert_eq!(r[3].size.width, 193_333);
    assert_eq!(r[3].size.height, 100_000);
}

#[test]
fn sizes_are_never_negative() {
    let mut root = sized(-50, -20);
    root.padding.left = px(-5);
    let mut a = sized(-10, -10);
    a.margin.left = px(-500);
    a.min_size.width = px(-3);
    a.max_size.width = px(-7);
    let mut b = Style::default();
    b.flex_grow = -1000;
    b.flex_shrink = -1000;
    b.size.width = Dimension::Percent(-50_000);
    let r = layout(&[None, Some(0), Some(0)], &[root, a, b], bounds(-500, -500));
    for rect in &r {
        assert!(rect.size.width >= 0);
        assert!(rect.size.height >= 0);
    }
}

#[test]
fn huge_lengths_saturate() {
    let mut root = Style::default();
    root.size.width = Dimension::Pixels(i64::MAX);
    root.size.height = Dimension::Pixels(i64::MIN);
    let mut a = Style::default();
    a.flex_grow = i64::MAX;
    a.margin.left = Dimension::Pixels(i64::MAX);
    let r = layout(&[None, Some(0), Some(0)], &[root, a, a], bounds(500, 500));
    assert_eq!(r[0].size.width, azul_layout::number::MAX_LENGTH);
    assert_eq!(r[0].size.height, 0);
    for rect in &r {
        assert!(rect.size.width >= 0 && rect.size.width <= azul_layout::number::MAX_LENGTH);
    }
}

#[test]
fn text_is_measured_at_the_width_it_gets() {
    let nodes = hierarchy(&[None, Some(0)]);
    let mut root = sized(50, 300);
    root.flex_direction = FlexDirection::Column;
    let styles = vec![root, Style::default()];
    let mut contents = vec![None, Some(RectContent::Text(Glyphs { calls: 0 }))];
    let r = compute(0, &nodes, &styles, &mut contents, bounds(500, 500)).unwrap();
    // Stretched to 50 pixels, five glyphs fit on a line: two lines.
    assert_eq!(r[1], rect(0, 0, 50, 40));
    match &contents[1] {
        Some(RectContent::Text(t)) => assert!(t.calls >= 2),
        _ => panic!("the text is gone"),
    }
}

#[test]
fn text_in_a_row_takes_its_natural_size() {
    let nodes = hierarchy(&[None, Some(0)]);
    let mut root = sized(300, 100);
    root.align_items = AlignItems::FlexStart;
    let styles = vec![root, Style::default()];
    let mut contents = vec![None, Some(RectContent::Text(Glyphs { calls: 0 }))];
    let r = compute(0, &nodes, &styles, &mut contents, bounds(500, 500)).unwrap();
    assert_eq!(r[1], rect(0, 0, 100, 20));
}

#[test]
fn layout_is_deterministic() {
    let nodes = hierarchy(&[None, Some(0), Some(0)]);
    let mut root = sized(70, 300);
    root.flex_direction = FlexDirection::Column;
    let styles = vec![root, Style::default(), sized(10, 10)];
    let mut contents = vec![None, Some(RectContent::Text(Glyphs { calls: 0 })), None];
    let first = compute(0, &nodes, &styles, &mut contents, bounds(500, 500)).unwrap();
    let second = compute(0, &nodes, &styles, &mut contents, bounds(500, 500)).unwrap();
    assert_eq!(first, second);
}

#[test]
fn translation_commutes_with_layout() {
    let nodes = hierarchy(&[None, Some(0), Some(0)]);
    let mut child = Style::default();
    child.flex_grow = 1000;
    let styles = vec![sized(200, 100), child, child];
    let at = |x: i64, y: i64| LayoutRect { origin: LayoutPoint { x, y }, size: bounds(500, 500) };
    let mut contents = no_contents(3);
    let home = SolvedUi::solve(at(0, 0), &nodes, &styles, &mut contents).unwrap();
    let away = SolvedUi::solve(at(12_000, -7_000), &nodes, &styles, &mut contents).unwrap();
    let shifted: Vec<PositionedRectangle> =
        home.solved_rects.iter().map(|r| r.translate(12_000, -7_000)).collect();
    assert_eq!(away.solved_rects, shifted);
    assert_eq!(away.solved_rects[2], rect(112, -7, 100, 100));
}

#[test]
fn root_out_of_range_is_reported() {
    let nodes = hierarchy(&[None]);
    let mut contents = no_contents(1);
    let r = compute(1, &nodes, &vec![Style::default()], &mut contents, bounds(1, 1));
    assert_eq!(r, Err(LayoutError::MissingRoot));
    let mut none = no_contents(0);
    let r = compute(0, &Vec::new(), &Vec::new(), &mut none, bounds(1, 1));
    assert_eq!(r, Err(LayoutError::MissingRoot));
}

#[test]
fn dangling_link_is_reported() {
    let mut nodes = hierarchy(&[None, Some(0)]);
    nodes[1].next_sibling = Some(7);
    let mut contents = no_contents(2);
    let styles = vec![Style::default(), Style::default()];
    let r = compute(0, &nodes, &styles, &mut contents, bounds(1, 1));
    assert_eq!(r, Err(LayoutError::DanglingNode));
}

#[test]
fn cycle_is_reported() {
    let mut nodes = hierarchy(&[None, Some(0), Some(1)]);
    nodes[2].first_child = Some(0);
    let mut contents = no_contents(3);
    let styles = vec![Style::default(); 3];
    let r = compute(0, &nodes, &styles, &mut contents, bounds(1, 1));
    assert_eq!(r, Err(LayoutError::Cycle));
    let mut nodes = hierarchy(&[None, Some(0), Some(0)]);
    nodes[2].next_sibling = Some(1);
    let r = compute(0, &nodes, &styles, &mut contents, bounds(1, 1));
    assert_eq!(r, Err(LayoutError::Cycle));
}

#[test]
fn missing_styles_or_contents_are_reported() {
    let nodes = hierarchy(&[None, Some(0)]);
    let mut contents = no_contents(2);
    let r = compute(0, &nodes, &vec![Style::default()], &mut contents, bounds(1, 1));
    assert_eq!(r, Err(LayoutError::LengthMismatch));
    let mut short = no_contents(1);
    let r = compute(0, &nodes, &vec![Style::default(); 2], &mut short, bounds(1, 1));
    assert_eq!(r, Err(LayoutError::LengthMismatch));
}

#[test]
fn tree_need_not_be_stored_in_document_order() {
    // Node 2 is the root, node 0 its second child, node 1 its first.
    let mut nodes = hierarchy(&[None, None, None]);
    nodes[2].first_child = Some(1);
    nodes[1].next_sibling = Some(0);
    let mut contents = no_contents(3);
    let styles = vec![sized(10, 10), sized(20, 20), sized(100, 100)];
    let r = compute(2, &nodes, &styles, &mut contents, bounds(500, 500)).unwrap();
    assert_eq!(r, vec![rect(20, 0, 10, 10), rect(0, 0, 20, 20), rect(0, 0, 100, 100)]);
}

#[test]
fn unreached_nodes_get_the_empty_rectangle() {
    let nodes = hierarchy(&[None, None]);
    let mut contents = no_contents(2);
    let styles = vec![sized(10, 10), sized(20, 20)];
    let r = compute(0, &nodes, &styles, &mut contents, bounds(500, 500)).unwrap();
    assert_eq!(r, vec![rect(0, 0, 10, 10), rect(0, 0, 0, 0)]);
}

#[test]
fn wrapping_container_grows_with_its_lines() {
    let mut root = Style::default();
    root.size.width = px(250);
    root.flex_wrap = FlexWrap::Wrap;
    let item = sized(100, 20);
    let r = layout(
        &[None, Some(0), Some(0), Some(0)],
        &[root, item, item, item],
        bounds(500, 500),
    );
    assert_eq!(r[0], rect(0, 0, 250, 40));
    assert_eq!(r[3], rect(0, 20, 100, 20));
}

#[test]
fn nested_wrapping_container_is_measured_at_the_width_it_gets() {
    let mut root = sized(300, 200);
    root.align_items = AlignItems::FlexStart;
    let mut fixed = sized(90, 10);
    fixed.flex_shrink = 0;
    let mut list = Style::default();
    list.flex_grow = 1000;
    list.flex_shrink = 1000;
    list.flex_wrap = FlexWrap::Wrap;
    let item = sized(100, 20);
    let r = layout(
        &[None, Some(0), Some(0), Some(2), Some(2), Some(2)],
        &[root, fixed, list, item, item, item],
        bounds(500, 500),
    );
    // The list shrinks from 300 to 210: two items fit on a line.
    assert_eq!(r[2], rect(90, 0, 210, 40));
    assert_eq!(r[3], rect(90, 0, 100, 20));
    assert_eq!(r[4], rect(190, 0, 100, 20));
    assert_eq!(r[5], rect(90, 20, 100, 20));
}
