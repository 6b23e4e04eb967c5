//! Flexbox geometry for a tree of styled boxes.
//!
//! Given the bounds of a container, a style for every box and what the
//! boxes hold (images, text), this crate computes the rectangle of every
//! box. All lengths are integers that count thousandths of a pixel, and a
//! flex factor or a ratio counts thousandths of one.
//!
//! `SolvedUi::new` takes a node hierarchy of `azul_core`; `SolvedUi::solve`
//! and `algo::compute` take the same tree as a table of plain nodes. What
//! they return is defined in `algo`, and `laws` holds what is proved of
//! it.

use vstd::prelude::*;

pub mod algo;
pub mod axis;
pub mod azul;
pub mod cache;
pub mod child;
pub mod content;
pub mod css;
pub mod extent;
pub mod flex;
pub mod geometry;
pub mod laws;
pub mod metrics;
pub mod number;
pub mod place;
pub mod style;
pub mod tree;

pub use geometry::{Offsets, Size};
pub use number::Number;
use algo::{compute, spec_compute};
use azul::{hierarchy_nodes, read_hierarchy};
use content::{image_aspect_ratio, spec_image_aspect_ratio, views, ContentView, MeasureText};
use geometry::{LayoutRect, PositionedRectangle};
use std::collections::BTreeMap;
use style::Style;
use tree::{LayoutError, Node};

verus! {

/// A source of styles: anything that can say how its box is to be laid out.
///
/// `get_style` has no effect and always succeeds, so what it returns is a
/// function of the value alone; `style` names that result. An
/// implementation inside `verus!` is held to that, as those for `Style` and
/// `css::DisplayRectangle` are; of one written outside, it is taken on
/// trust.
pub trait GetStyle {
    open spec fn style(&self) -> Style {
        arbitrary()
    }

    fn get_style(&self) -> (s: Style)
        ensures
            s == self.style(),
    ;
}

impl GetStyle for Style {
    open spec fn style(&self) -> Style {
        *self
    }

    fn get_style(&self) -> (s: Style) {
        *self
    }
}

/// What a box holds besides other boxes.
#[derive(Debug, Clone, PartialEq)]
pub enum RectContent<T: MeasureText> {
    /// The width and height of an image, in whole pixels.
    Image(usize, usize),
    /// A text run that can be measured under given bounds.
    Text(T),
}

impl<T: MeasureText> RectContent<T> {
    /// Whether the content is a text run.
    pub open spec fn spec_is_text(&self) -> bool {
        self is Text
    }

    /// Whether the content is an image.
    pub open spec fn spec_is_image(&self) -> bool {
        self is Image
    }

    /// Whether the content is a text run.
    #[verifier::when_used_as_spec(spec_is_text)]
    pub fn is_text(&self) -> (r: bool)
        ensures
            r == self.spec_is_text(),
    {
        match self {
            RectContent::Image(_, _) => false,
            RectContent::Text(_) => true,
        }
    }

    /// Whether the content is an image.
    #[verifier::when_used_as_spec(spec_is_image)]
    pub fn is_image(&self) -> (r: bool)
        ensures
            r == self.spec_is_image(),
    {
        match self {
            RectContent::Image(_, _) => true,
            RectContent::Text(_) => false,
        }
    }
}

/// The solved geometry of a tree: one rectangle for each node of the
/// hierarchy, in its order, in the coordinate space of the bounds.
#[derive(Debug, Clone, PartialEq)]
pub struct SolvedUi {
    pub solved_rects: Vec<PositionedRectangle>,
}

/// A style with the aspect ratio that the content of its box gives it: that
/// of an image, and none for anything else.
pub open spec fn spec_with_aspect_ratio(style: Style, view: ContentView) -> Style {
    Style {
        aspect_ratio: match view {
            ContentView::Image(w, h) => spec_image_aspect_ratio(w, h),
            _ => Number::Undefined,
        },
        ..style
    }
}

/// The style of every box, each with the aspect ratio of its content.
pub open spec fn spec_styles<T: GetStyle>(rects: Seq<T>, views: Seq<ContentView>) -> Seq<Style> {
    Seq::new(
        rects.len(),
        |i: int|
            spec_with_aspect_ratio(
                rects[i].style(),
                if i < views.len() {
                    views[i]
                } else {
                    ContentView::Empty
                },
            ),
    )
}

/// The contents of `n` boxes from a table keyed by node index; a box
/// without an entry has none.
pub open spec fn spec_contents<U: MeasureText>(m: Map<usize, RectContent<U>>, n: nat) -> Seq<
    Option<RectContent<U>>,
> {
    Seq::new(
        n,
        |i: int|
            if m.contains_key(i as usize) {
                Some(m[i as usize])
            } else {
                None
            },
    )
}

/// Every rectangle moved by `(dx, dy)`.
pub open spec fn spec_translate_all(rects: Seq<PositionedRectangle>, dx: i64, dy: i64) -> Seq<
    PositionedRectangle,
> {
    Seq::new(rects.len(), |i: int| rects[i].spec_translate(dx, dy))
}

/// The geometry of a tree in `bounds`: the layout from node zero at the
/// origin, moved as a whole to the origin of the bounds.
pub open spec fn spec_solve<T: GetStyle>(
    bounds: LayoutRect,
    nodes: Seq<Node>,
    rects: Seq<T>,
    views: Seq<ContentView>,
) -> Result<Seq<PositionedRectangle>, LayoutError> {
    match spec_compute(0, nodes, spec_styles(rects, views), views, bounds.size) {
        Ok(r) => Ok(spec_translate_all(r, bounds.origin.x, bounds.origin.y)),
        Err(e) => Err(e),
    }
}

/// A result with its rectangles as a sequence.
pub open spec fn spec_outcome(r: Result<SolvedUi, LayoutError>) -> Result<
    Seq<PositionedRectangle>,
    LayoutError,
> {
    match r {
        Ok(ui) => Ok(ui.solved_rects@),
        Err(e) => Err(e),
    }
}

fn styles_of<T: GetStyle, U: MeasureText>(
    display_rects: &Vec<T>,
    contents: &Vec<Option<RectContent<U>>>,
) -> (r: Vec<Style>)
    ensures
        r@ == spec_styles(display_rects@, views(contents@)),
{
    let mut out: Vec<Style> = Vec::new();
    let mut i: usize = 0;
    while i < display_rects.len()
        invariant
            i <= display_rects.len(),
            out@.len() == i,
            forall|j: int|
                0 <= j < i ==> out@[j] == spec_styles(display_rects@, views(contents@))[j],
        decreases display_rects.len() - i,
    {
        let mut style = display_rects[i].get_style();
        let ratio = if i < contents.len() {
            match &contents[i] {
                Some(RectContent::Image(w, h)) => image_aspect_ratio(*w, *h),
                _ => Number::Undefined,
            }
        } else {
            Number::Undefined
        };
        style.aspect_ratio = ratio;
        out.push(style);
        i += 1;
    }
    assert(out@ =~= spec_styles(display_rects@, views(contents@)));
    out
}

fn take_contents<U: MeasureText>(map: BTreeMap<usize, RectContent<U>>, n: usize) -> (r: Vec<
    Option<RectContent<U>>,
>)
    ensures
        r@ == spec_contents(map@, n as nat),
{
    broadcast use vstd::std_specs::btree::group_btree_axioms;

    let mut rest = map;
    let mut out: Vec<Option<RectContent<U>>> = Vec::new();
    let mut i: usize = 0;
    while i < n
        invariant
            i <= n,
            out@.len() == i,
            forall|j: int| 0 <= j < i ==> out@[j] == spec_contents(map@, n as nat)[j],
            forall|k: usize| k >= i ==> rest@.contains_key(k) == map@.contains_key(k),
            forall|k: usize| k >= i && map@.contains_key(k) ==> rest@[k] == map@[k],
        decreases n - i,
    {
        let content = rest.remove(&i);
        out.push(content);
        i += 1;
    }
    assert(out@ =~= spec_contents(map@, n as nat));
    out
}

impl SolvedUi {
    /// Solves the geometry of the tree below node zero.
    ///
    /// Every box takes the style that its entry of `display_rects` gives,
    /// with the aspect ratio of its image where it holds one. The tree is
    /// laid out at the origin and then moved to the origin of `bounds`. It
    /// fails where `algo::compute` fails. On success no rectangle has a
    /// negative side.
    pub fn solve<T: GetStyle, U: MeasureText>(
        bounds: LayoutRect,
        nodes: &Vec<Node>,
        display_rects: &Vec<T>,
        contents: &mut Vec<Option<RectContent<U>>>,
    ) -> (r: Result<SolvedUi, LayoutError>)
        ensures
            final(contents).len() == old(contents).len(),
            views(final(contents)@) == views(old(contents)@),
            spec_outcome(r) == spec_solve(bounds, nodes@, display_rects@, views(old(contents)@)),
            match r {
                Ok(ui) => ui.solved_rects.len() == nodes.len() && forall|i: int|
                    0 <= i < ui.solved_rects.len() ==> (#[trigger] ui.solved_rects@[i]).wf(),
                Err(_) => true,
            },
    {
        let styles = styles_of(display_rects, contents);
        let rects = match compute(0, nodes, &styles, contents, bounds.size) {
            Ok(rects) => rects,
            Err(e) => {
                return Err(e);
            },
        };
        let mut moved: Vec<PositionedRectangle> = Vec::new();
        let mut i: usize = 0;
        while i < rects.len()
            invariant
                i <= rects.len(),
                moved@.len() == i,
                forall|j: int| 0 <= j < rects.len() ==> (#[trigger] rects@[j]).wf(),
                forall|j: int|
                    0 <= j < i ==> moved@[j] == rects@[j].spec_translate(
                        bounds.origin.x,
                        bounds.origin.y,
                    ),
                forall|j: int| 0 <= j < i ==> (#[trigger] moved@[j]).wf(),
            decreases rects.len() - i,
        {
            moved.push(rects[i].translate(bounds.origin.x, bounds.origin.y));
            i += 1;
        }
        assert(moved@ =~= spec_translate_all(rects@, bounds.origin.x, bounds.origin.y));
        Ok(SolvedUi { solved_rects: moved })
    }

    /// Solves the geometry of a hierarchy of `azul_core`.
    ///
    /// `display_rects` holds one source of style for each node and
    /// `rect_contents` the content of the nodes that have any, by node
    /// index; entries for indices that the hierarchy does not have are
    /// left aside. The result is that of `solve` on the nodes of the
    /// hierarchy.
    pub fn new<T: GetStyle, U: MeasureText>(
        bounds: LayoutRect,
        node_hierarchy: &azul_core::id_tree::NodeHierarchy,
        display_rects: &azul_core::id_tree::NodeDataContainer<T>,
        rect_contents: BTreeMap<usize, RectContent<U>>,
    ) -> (r: Result<SolvedUi, LayoutError>)
        ensures
            spec_outcome(r) == spec_solve(
                bounds,
                hierarchy_nodes(*node_hierarchy),
                display_rects.internal@,
                views(spec_contents(rect_contents@, hierarchy_nodes(*node_hierarchy).len())),
            ),
            match r {
                Ok(ui) => forall|i: int|
                    0 <= i < ui.solved_rects.len() ==> (#[trigger] ui.solved_rects@[i]).wf(),
                Err(_) => true,
            },
    {
        let nodes = read_hierarchy(node_hierarchy);
        let mut contents = take_contents(rect_contents, nodes.len());
        SolvedUi::solve(bounds, &nodes, &display_rects.internal, &mut contents)
    }
}

} // verus!
