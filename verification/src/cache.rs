//! A text run that remembers what it measured.
//!
//! The layout may measure the same text several times under the same
//! options. `CachedText` puts a table of answers in front of a text run, so
//! that the run itself is asked once for each set of options.

use vstd::prelude::*;
use crate::content::{MeasureText, TextLayoutOptions};
use crate::geometry::Size;
use crate::number::Number;

verus! {

/// A text run with the sizes it has measured so far.
pub struct CachedText<T: MeasureText> {
    pub text: T,
    pub seen: Vec<(TextLayoutOptions, Size<i64>)>,
}

/// The size noted for `options` in the entries from `from` on, the first
/// one where there are several.
pub open spec fn spec_find(
    seen: Seq<(TextLayoutOptions, Size<i64>)>,
    options: TextLayoutOptions,
    from: int,
) -> Option<Size<i64>>
    decreases seen.len() - from,
{
    if from < 0 || from >= seen.len() {
        None
    } else if seen[from].0 == options {
        Some(seen[from].1)
    } else {
        spec_find(seen, options, from + 1)
    }
}

/// An entry added at the end answers for its own options where nothing did
/// before, and changes no other answer.
pub proof fn lemma_find_after_push(
    seen: Seq<(TextLayoutOptions, Size<i64>)>,
    entry: (TextLayoutOptions, Size<i64>),
    options: TextLayoutOptions,
    from: int,
)
    requires
        0 <= from <= seen.len(),
    ensures
        spec_find(seen.push(entry), options, from) == match spec_find(seen, options, from) {
            Some(s) => Some(s),
            None => if entry.0 == options {
                Some(entry.1)
            } else {
                None
            },
        },
    decreases seen.len() - from,
{
    let more = seen.push(entry);
    if from < seen.len() {
        assert(more[from] == seen[from]);
        if seen[from].0 != options {
            lemma_find_after_push(seen, entry, options, from + 1);
        }
    } else {
        assert(more[from] == entry);
        assert(spec_find(more, options, from + 1) == None::<Size<i64>>);
    }
}

fn same_number(a: Number, b: Number) -> (r: bool)
    ensures
        r == (a == b),
{
    match (a, b) {
        (Number::Defined(x), Number::Defined(y)) => x == y,
        (Number::Undefined, Number::Undefined) => true,
        _ => false,
    }
}

fn same_length(a: Option<i64>, b: Option<i64>) -> (r: bool)
    ensures
        r == (a == b),
{
    match (a, b) {
        (Some(x), Some(y)) => x == y,
        (None, None) => true,
        _ => false,
    }
}

/// Whether two sets of options are the same in every field.
pub fn same_options(a: &TextLayoutOptions, b: &TextLayoutOptions) -> (r: bool)
    ensures
        r == (*a == *b),
{
    a.font_size_px == b.font_size_px && same_length(a.line_height, b.line_height) && same_length(
        a.letter_spacing,
        b.letter_spacing,
    ) && same_length(a.word_spacing, b.word_spacing) && same_length(a.tab_width, b.tab_width)
        && same_number(a.max_width, b.max_width) && same_number(a.max_height, b.max_height)
}

fn find(seen: &Vec<(TextLayoutOptions, Size<i64>)>, options: &TextLayoutOptions) -> (r: Option<
    Size<i64>,
>)
    ensures
        r == spec_find(seen@, *options, 0),
{
    let mut i: usize = 0;
    while i < seen.len()
        invariant
            i <= seen.len(),
            spec_find(seen@, *options, 0) == spec_find(seen@, *options, i as int),
        decreases seen.len() - i,
    {
        if same_options(&seen[i].0, options) {
            return Some(seen[i].1);
        }
        i += 1;
    }
    None
}

impl<T: MeasureText> CachedText<T> {
    /// What the text measures under `options`: the size noted for them, or
    /// what the text run itself says.
    pub open spec fn spec_size(self, options: TextLayoutOptions) -> Size<i64> {
        match spec_find(self.seen@, options, 0) {
            Some(s) => s,
            None => (self.text.text_sizes())(options),
        }
    }

    /// A text run that has not been measured yet.
    pub fn new(text: T) -> (r: CachedText<T>)
        ensures
            r.text == text,
            r.seen@.len() == 0,
            r.text_sizes() == text.text_sizes(),
    {
        let r = CachedText { text, seen: Vec::new() };
        assert(r.text_sizes() =~= text.text_sizes());
        r
    }
}

impl<T: MeasureText> MeasureText for CachedText<T> {
    open spec fn text_sizes(&self) -> spec_fn(TextLayoutOptions) -> Size<i64> {
        |options: TextLayoutOptions| self.spec_size(options)
    }

    /// Answers from the table where it can; otherwise asks the text run and
    /// notes what it said.
    fn measure_text(&mut self, options: &TextLayoutOptions) -> (r: Size<i64>) {
        match find(&self.seen, options) {
            Some(size) => size,
            None => {
                let size = self.text.measure_text(options);
                let ghost before = self.seen@;
                self.seen.push((*options, size));
                proof {
                    assert forall|o: TextLayoutOptions|
                        self.spec_size(o) == old(self).spec_size(o) by {
                        lemma_find_after_push(before, (*options, size), o, 0);
                    }
                    assert(self.text_sizes() =~= old(self).text_sizes());
                }
                size
            },
        }
    }
}

} // verus!
