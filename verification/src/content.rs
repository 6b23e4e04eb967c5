//! What a box holds besides other boxes, and how much room that takes.

use vstd::prelude::*;
use crate::extent::{children_extent, spec_children_extent};
use crate::geometry::Size;
use crate::number::{at_least_zero, clamp_length, non_negative, saturate, scale, scaled, Number};
use crate::number::UNITS_PER_PIXEL;
use crate::style::{Style, spec_default_font_size};
use crate::RectContent;

verus! {

/// Thousandths in one: the unit of an aspect ratio.
pub const RATIO_UNIT: i64 = 1000;

/// What a text run is measured under: its metrics in pixel units, and the
/// room it may take on each axis, where that is known.
#[derive(Clone, Copy, Debug, PartialEq, Eq)]
pub struct TextLayoutOptions {
    pub font_size_px: i64,
    /// In thousandths of a percent.
    pub line_height: Option<i64>,
    pub letter_spacing: Option<i64>,
    pub word_spacing: Option<i64>,
    /// In thousandths of a percent.
    pub tab_width: Option<i64>,
    pub max_width: Number,
    pub max_height: Number,
}

/// A text run that can say how much room it takes.
///
/// `measure_text` may be called any number of times, with the same or with
/// different options, and may keep what it computed. What it returns must
/// depend on the options alone: `text_sizes` names that dependence, and a
/// call leaves it as it was.
///
/// The layout is proved for text that keeps this promise. An implementation
/// inside `verus!` is held to it, as `CachedText` is; of one written
/// outside, it is taken on trust.
pub trait MeasureText {
    open spec fn text_sizes(&self) -> spec_fn(TextLayoutOptions) -> Size<i64> {
        arbitrary()
    }

    fn measure_text(&mut self, options: &TextLayoutOptions) -> (r: Size<i64>)
        ensures
            r == (old(self).text_sizes())(*options),
            final(self).text_sizes() == old(self).text_sizes(),
    ;
}

/// The content of a box as the layout sees it.
pub enum ContentView {
    Empty,
    /// Width and height of an image, in whole pixels.
    Image(usize, usize),
    /// The size of a text run under each set of options.
    Text(spec_fn(TextLayoutOptions) -> Size<i64>),
}

/// The content of one box as the layout sees it.
pub open spec fn view_of<T: MeasureText>(c: Option<RectContent<T>>) -> ContentView {
    match c {
        None => ContentView::Empty,
        Some(RectContent::Image(w, h)) => ContentView::Image(w, h),
        Some(RectContent::Text(t)) => ContentView::Text(t.text_sizes()),
    }
}

/// The contents of all boxes as the layout sees them.
pub open spec fn views<T: MeasureText>(s: Seq<Option<RectContent<T>>>) -> Seq<ContentView> {
    Seq::new(s.len(), |i: int| view_of(s[i]))
}

/// The options under which the text of a box with `style` is measured when
/// `known` is what is settled of its content box.
pub open spec fn spec_text_options(style: Style, known: Size<Number>) -> TextLayoutOptions {
    let font_size = style.font_size_px.spec_to_pixels(spec_default_font_size().number);
    TextLayoutOptions {
        font_size_px: font_size,
        line_height: style.line_height,
        letter_spacing: match style.letter_spacing {
            Some(v) => Some(v.spec_to_pixels(font_size)),
            None => None,
        },
        word_spacing: match style.word_spacing {
            Some(v) => Some(v.spec_to_pixels(font_size)),
            None => None,
        },
        tab_width: style.tab_width,
        max_width: known.width,
        max_height: known.height,
    }
}

/// Whether an aspect ratio can be divided by: it is defined and positive.
pub open spec fn usable_ratio(ratio: Number) -> bool {
    match ratio {
        Number::Defined(r) => r > 0,
        Number::Undefined => false,
    }
}

/// The room an image takes. With both sides known it takes them; with one
/// side known the other follows from the aspect ratio, or from the image's
/// own side where the ratio is unusable; with none known it takes its own
/// width and height.
pub open spec fn spec_image_size(ratio: Number, w: usize, h: usize, known: Size<Number>) -> Size<
    i64,
> {
    let own_w = clamp_length(w * UNITS_PER_PIXEL);
    let own_h = clamp_length(h * UNITS_PER_PIXEL);
    match (known.width, known.height) {
        (Number::Defined(kw), Number::Defined(kh)) => Size { width: kw, height: kh },
        (Number::Defined(kw), Number::Undefined) => Size {
            width: kw,
            height: if usable_ratio(ratio) {
                scaled(kw as int, RATIO_UNIT as int, ratio->Defined_0 as int)
            } else {
                own_h
            },
        },
        (Number::Undefined, Number::Defined(kh)) => Size {
            width: if usable_ratio(ratio) {
                scaled(kh as int, ratio->Defined_0 as int, RATIO_UNIT as int)
            } else {
                own_w
            },
            height: kh,
        },
        (Number::Undefined, Number::Undefined) => Size { width: own_w, height: own_h },
    }
}

/// A size with both sides brought into `0 ..= MAX_LENGTH`.
pub open spec fn spec_sanitize(s: Size<i64>) -> Size<i64> {
    Size {
        width: clamp_length(non_negative(s.width as int)),
        height: clamp_length(non_negative(s.height as int)),
    }
}

/// The room the content of a box takes when `known` is what is settled of
/// its content box: a text run what it measures, an image what its ratio
/// gives, and a box without content of its own the room of its children,
/// whose outer sizes are `outers`. Never negative, whatever was measured.
#[verifier::opaque]
pub open spec fn spec_content_size(
    view: ContentView,
    style: Style,
    outers: Seq<Size<i64>>,
    known: Size<Number>,
) -> Size<i64> {
    spec_sanitize(
        match view {
            ContentView::Text(f) => f(spec_text_options(style, known)),
            ContentView::Image(w, h) => spec_image_size(style.aspect_ratio, w, h, known),
            ContentView::Empty => spec_children_extent(style, outers, known),
        },
    )
}

/// The aspect ratio of an image of `w` by `h` pixels, in thousandths;
/// undefined where it would be zero or cannot be taken.
pub open spec fn spec_image_aspect_ratio(w: usize, h: usize) -> Number {
    if w == 0 || h == 0 {
        Number::Undefined
    } else {
        let r = scaled(clamp_length(w as int) as int, RATIO_UNIT as int, clamp_length(h as int) as int);
        if r > 0 {
            Number::Defined(r)
        } else {
            Number::Undefined
        }
    }
}

fn image_side(n: usize) -> (r: i64)
    ensures
        r == clamp_length(n * UNITS_PER_PIXEL),
{
    let wide: i128 = n as i128;
    assert(UNITS_PER_PIXEL == 1000);
    saturate(wide * 1000)
}

fn pixels_of(n: usize) -> (r: i64)
    ensures
        r == clamp_length(n as int),
{
    saturate(n as i128)
}

/// The aspect ratio of an image of `w` by `h` pixels, in thousandths;
/// undefined where it would be zero or cannot be taken.
pub fn image_aspect_ratio(w: usize, h: usize) -> (r: Number)
    ensures
        r == spec_image_aspect_ratio(w, h),
{
    if w == 0 || h == 0 {
        Number::Undefined
    } else {
        let r = scale(pixels_of(w), RATIO_UNIT, pixels_of(h));
        if r > 0 {
            Number::Defined(r)
        } else {
            Number::Undefined
        }
    }
}

/// The options under which the text of a box with `style` is measured when
/// `known` is what is settled of its content box.
pub fn text_options(style: &Style, known: Size<Number>) -> (r: TextLayoutOptions)
    ensures
        r == spec_text_options(*style, known),
{
    let font_size = style.font_size_px.to_pixels(16_000);
    TextLayoutOptions {
        font_size_px: font_size,
        line_height: style.line_height,
        letter_spacing: match style.letter_spacing {
            Some(v) => Some(v.to_pixels(font_size)),
            None => None,
        },
        word_spacing: match style.word_spacing {
            Some(v) => Some(v.to_pixels(font_size)),
            None => None,
        },
        tab_width: style.tab_width,
        max_width: known.width,
        max_height: known.height,
    }
}

/// The room an image takes. With both sides known it takes them; with one
/// side known the other follows from the aspect ratio, or from the image's
/// own side where the ratio is unusable; with none known it takes its own
/// width and height.
pub fn image_size(ratio: Number, w: usize, h: usize, known: Size<Number>) -> (r: Size<i64>)
    ensures
        r == spec_image_size(ratio, w, h, known),
{
    let usable = match ratio {
        Number::Defined(r) => r > 0,
        Number::Undefined => false,
    };
    let r: i64 = ratio.get_or(1);
    match (known.width, known.height) {
        (Number::Defined(kw), Number::Defined(kh)) => Size { width: kw, height: kh },
        (Number::Defined(kw), Number::Undefined) => Size {
            width: kw,
            height: if usable {
                scale(kw, RATIO_UNIT, r)
            } else {
                image_side(h)
            },
        },
        (Number::Undefined, Number::Defined(kh)) => Size {
            width: if usable {
                scale(kh, r, RATIO_UNIT)
            } else {
                image_side(w)
            },
            height: kh,
        },
        (Number::Undefined, Number::Undefined) => Size {
            width: image_side(w),
            height: image_side(h),
        },
    }
}

/// A size with both sides brought into `0 ..= MAX_LENGTH`.
pub fn sanitize(s: Size<i64>) -> (r: Size<i64>)
    ensures
        r == spec_sanitize(s),
        0 <= r.width <= crate::number::MAX_LENGTH,
        0 <= r.height <= crate::number::MAX_LENGTH,
{
    Size {
        width: saturate(at_least_zero(s.width) as i128),
        height: saturate(at_least_zero(s.height) as i128),
    }
}

/// Measures the content of box `node`, whose children have the outer sizes
/// `outers`. Text is measured anew on every call; nothing but what the text
/// keeps for itself changes.
pub fn content_size<T: MeasureText>(
    contents: &mut Vec<Option<RectContent<T>>>,
    node: usize,
    style: &Style,
    outers: &Vec<Size<i64>>,
    known: Size<Number>,
) -> (r: Size<i64>)
    requires
        node < old(contents).len(),
    ensures
        final(contents).len() == old(contents).len(),
        views(final(contents)@) == views(old(contents)@),
        r == spec_content_size(views(old(contents)@)[node as int], *style, outers@, known),
        0 <= r.width <= crate::number::MAX_LENGTH,
        0 <= r.height <= crate::number::MAX_LENGTH,
{
    proof {
        reveal(spec_content_size);
    }
    let raw = match &mut contents[node] {
        Some(RectContent::Text(t)) => {
            let options = text_options(style, known);
            t.measure_text(&options)
        },
        Some(RectContent::Image(w, h)) => image_size(style.aspect_ratio, *w, *h, known),
        None => children_extent(style, outers, known),
    };
    assert(views(contents@) =~= views(old(contents)@));
    sanitize(raw)
}

} // verus!
