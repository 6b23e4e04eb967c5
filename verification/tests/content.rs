use azul_layout::cache::{same_options, CachedText};
use azul_layout::content::{
    content_size, image_aspect_ratio, image_size, sanitize, text_options, MeasureText,
    TextLayoutOptions,
};
use azul_layout::extent::{children_extent, extent, join, wrapped};
use azul_layout::number::MAX_LENGTH;
use azul_layout::style::{FlexDirection, FlexWrap, PixelValue, SizeMetric, Style};
use azul_layout::{Number, RectContent, Size};

/// Text whose width is its font size times the number of calls so far.
struct Counting {
    calls: i64,
}

impl MeasureText for Counting {
    fn measure_text(&mut self, options: &TextLayoutOptions) -> Size<i64> {
        self.calls += 1;
        Size { width: options.font_size_px * self.calls, height: -5 }
    }
}

fn unknown() -> Size<Number> {
    Size { width: Number::Undefined, height: Number::Undefined }
}

#[test]
fn aspect_ratio_of_an_image() {
    assert_eq!(image_aspect_ratio(100, 50), Number::Defined(2000));
    assert_eq!(image_aspect_ratio(50, 100), Number::Defined(500));
    assert_eq!(image_aspect_ratio(16, 9), Number::Defined(1777));
    assert_eq!(image_aspect_ratio(0, 9), Number::Undefined);
    assert_eq!(image_aspect_ratio(9, 0), Number::Undefined);
    assert_eq!(image_aspect_ratio(1, 5000), Number::Undefined);
}

#[test]
fn image_size_follows_what_is_known() {
    let ratio = Number::Defined(2000);
    let w = |v: i64| Size { width: Number::Defined(v), height: Number::Undefined };
    let h = |v: i64| Size { width: Number::Undefined, height: Number::Defined(v) };
    assert_eq!(image_size(ratio, 100, 50, unknown()), Size { width: 100_000, height: 50_000 });
    assert_eq!(image_size(ratio, 100, 50, w(60_000)), Size { width: 60_000, height: 30_000 });
    assert_eq!(image_size(ratio, 100, 50, h(60_000)), Size { width: 120_000, height: 60_000 });
    let both = Size { width: Number::Defined(7), height: Number::Defined(9) };
    assert_eq!(image_size(ratio, 100, 50, both), Size { width: 7, height: 9 });
    // Without a usable ratio the image keeps its own side.
    assert_eq!(image_size(Number::Undefined, 100, 50, w(60_000)), Size { width: 60_000, height: 50_000 });
    assert_eq!(image_size(Number::Defined(0), 100, 50, h(60_000)), Size { width: 100_000, height: 60_000 });
    assert_eq!(image_size(Number::Defined(-5), 100, 50, h(60_000)), Size { width: 100_000, height: 60_000 });
    assert_eq!(
        image_size(ratio, usize::MAX, 1, unknown()),
        Size { width: MAX_LENGTH, height: 1000 }
    );
}

#[test]
fn sizes_are_sanitized() {
    assert_eq!(sanitize(Size { width: -1, height: i64::MAX }), Size { width: 0, height: MAX_LENGTH });
    assert_eq!(sanitize(Size { width: 3, height: 4 }), Size { width: 3, height: 4 });
}

#[test]
fn text_options_resolve_the_metrics() {
    let mut style = Style::default();
    let known = Size { width: Number::Defined(80_000), height: Number::Undefined };
    let o = text_options(&style, known);
    assert_eq!(o.font_size_px, 16_000);
    assert_eq!(o.max_width, Number::Defined(80_000));
    assert_eq!(o.max_height, Number::Undefined);
    assert_eq!((o.line_height, o.letter_spacing, o.word_spacing, o.tab_width), (None, None, None, None));
    style.font_size_px = PixelValue { metric: SizeMetric::Pt, number: 12_000 };
    style.letter_spacing = Some(PixelValue { metric: SizeMetric::Em, number: 500 });
    style.word_spacing = Some(PixelValue { metric: SizeMetric::Percent, number: 50_000 });
    style.line_height = Some(150_000);
    style.tab_width = Some(400_000);
    let o = text_options(&style, unknown());
    assert_eq!(o.font_size_px, 16_000);
    assert_eq!(o.letter_spacing, Some(8_000));
    assert_eq!(o.word_spacing, Some(8_000));
    assert_eq!(o.line_height, Some(150_000));
    assert_eq!(o.tab_width, Some(400_000));
    style.font_size_px = PixelValue { metric: SizeMetric::Percent, number: 200_000 };
    assert_eq!(text_options(&style, unknown()).font_size_px, 32_000);
    style.font_size_px = PixelValue { metric: SizeMetric::Em, number: 2_000 };
    assert_eq!(text_options(&style, unknown()).font_size_px, 32_000);
}

#[test]
fn content_size_by_kind_of_content() {
    let style = Style::default();
    let outers = vec![Size { width: 5, height: 22 }, Size { width: 6, height: 7 }];
    let mut contents = vec![
        None,
        Some(RectContent::Image(3, 4)),
        Some(RectContent::Text(Counting { calls: 0 })),
    ];
    // A box without content of its own takes the room of its children.
    assert_eq!(
        content_size(&mut contents, 0, &style, &outers, unknown()),
        Size { width: 11, height: 22 }
    );
    assert_eq!(
        content_size(&mut contents, 1, &style, &outers, unknown()),
        Size { width: 3000, height: 4000 }
    );
    // A negative measurement counts as zero.
    assert_eq!(
        content_size(&mut contents, 2, &style, &outers, unknown()),
        Size { width: 16_000, height: 0 }
    );
    assert_eq!(
        content_size(&mut contents, 2, &style, &outers, unknown()),
        Size { width: 32_000, height: 0 }
    );
}

#[test]
fn cached_text_asks_once_for_each_set_of_options() {
    let mut text = CachedText::new(Counting { calls: 0 });
    let a = text_options(&Style::default(), unknown());
    let mut b = a;
    b.max_width = Number::Defined(5);
    assert!(same_options(&a, &a));
    assert!(!same_options(&a, &b));
    assert_eq!(text.measure_text(&a).width, 16_000);
    assert_eq!(text.measure_text(&a).width, 16_000);
    assert_eq!(text.measure_text(&b).width, 32_000);
    assert_eq!(text.measure_text(&a).width, 16_000);
    assert_eq!(text.measure_text(&b).width, 32_000);
    assert_eq!(text.text.calls, 2);
    assert_eq!(text.seen.len(), 2);
}

#[test]
fn options_differ_in_every_field() {
    let a = text_options(&Style::default(), unknown());
    let change: Vec<fn(&mut TextLayoutOptions)> = vec![
        |o| o.font_size_px = 1,
        |o| o.line_height = Some(1),
        |o| o.letter_spacing = Some(1),
        |o| o.word_spacing = Some(1),
        |o| o.tab_width = Some(1),
        |o| o.max_width = Number::Defined(1),
        |o| o.max_height = Number::Defined(1),
    ];
    for f in change {
        let mut b = a;
        f(&mut b);
        assert!(!same_options(&a, &b));
        assert!(same_options(&b, &b));
    }
}

#[test]
fn children_share_a_line_or_wrap() {
    let outers = vec![
        Size { width: 40, height: 10 },
        Size { width: 40, height: 30 },
        Size { width: 40, height: 20 },
    ];
    assert_eq!(join(true, outers[0], outers[1]), Size { width: 80, height: 30 });
    assert_eq!(join(false, outers[0], outers[1]), Size { width: 40, height: 40 });
    assert_eq!(extent(true, &outers), Size { width: 120, height: 30 });
    assert_eq!(extent(false, &outers), Size { width: 40, height: 60 });
    assert_eq!(extent(true, &Vec::new()), Size { width: 0, height: 0 });
    // Two fit on a line of 100, the third starts a new one.
    assert_eq!(wrapped(true, &outers, 100), Size { width: 80, height: 50 });
    assert_eq!(wrapped(true, &outers, 120), Size { width: 120, height: 30 });
    assert_eq!(wrapped(true, &outers, 0), Size { width: 40, height: 60 });
    assert_eq!(wrapped(false, &outers, 35), Size { width: 120, height: 30 });
    assert_eq!(wrapped(true, &Vec::new(), 100), Size { width: 0, height: 0 });
    let mut style = Style::default();
    let room = Size { width: Number::Defined(100), height: Number::Undefined };
    assert_eq!(children_extent(&style, &outers, room), Size { width: 120, height: 30 });
    style.flex_wrap = FlexWrap::Wrap;
    assert_eq!(children_extent(&style, &outers, room), Size { width: 80, height: 50 });
    assert_eq!(children_extent(&style, &outers, unknown()), Size { width: 120, height: 30 });
    style.flex_direction = FlexDirection::Column;
    assert_eq!(children_extent(&style, &outers, room), Size { width: 40, height: 60 });
}
