//! Lines of text, and columns in them.

use crate::text::concat;
use crate::text::slice_text;
use crate::text::to_chars;
use crate::text::views;
use vstd::prelude::*;

verus! {

/// Lines that are to be printed.
#[derive(Debug, PartialEq, Eq)]
pub struct Page {
    pub lines: Vec<String>,
}

impl View for Page {
    type V = Seq<Seq<char>>;

    open spec fn view(&self) -> Seq<Seq<char>> {
        views(self.lines@)
    }
}

impl Page {
    /// No lines.
    pub fn new() -> (page: Page)
        ensures
            page@ == Seq::<Seq<char>>::empty(),
    {
        let page = Page { lines: Vec::new() };
        assert(page@ =~= Seq::<Seq<char>>::empty());
        page
    }

    /// One line more.
    pub fn add_line(&mut self, line: String)
        ensures
            final(self)@ == old(self)@.push(line@),
    {
        self.lines.push(line);
        assert(self@ =~= old(self)@.push(line@));
    }

    /// One line more, of two parts.
    pub fn add_pair(&mut self, first: &str, second: &str)
        ensures
            final(self)@ == old(self)@.push(first@ + second@),
    {
        self.add_line(concat(first, second));
    }
}

/// A text with spaces after it, up to a width.
pub open spec fn aligned_left(text: Seq<char>, width: nat) -> Seq<char> {
    if text.len() < width {
        text + Seq::new((width - text.len()) as nat, |i: int| ' ')
    } else {
        text
    }
}

/// A text with spaces before it, up to a width.
pub open spec fn aligned_right(text: Seq<char>, width: nat) -> Seq<char> {
    if text.len() < width {
        Seq::new((width - text.len()) as nat, |i: int| ' ') + text
    } else {
        text
    }
}

fn spaces(count: usize) -> (text: String)
    ensures
        text@ == Seq::new(count as nat, |i: int| ' '),
{
    let mut text = String::new();
    let mut i: usize = 0;
    assert(text@ =~= Seq::new(0, |k: int| ' '));
    while i < count
        invariant
            i <= count,
            text@ == Seq::new(i as nat, |k: int| ' '),
        decreases count - i,
    {
        text.push(' ');
        assert(text@ =~= Seq::new((i + 1) as nat, |k: int| ' '));
        i += 1;
    }
    text
}

/// Puts spaces after a text, up to a width.
pub fn pad_right(text: &str, width: usize) -> (padded: String)
    ensures
        padded@ == aligned_left(text@, width as nat),
{
    let count: usize = to_chars(text).len();
    if count < width {
        let gap = spaces(width - count);
        concat(text, &gap)
    } else {
        text.to_owned()
    }
}

/// Puts spaces before a text, up to a width.
pub fn pad_left(text: &str, width: usize) -> (padded: String)
    ensures
        padded@ == aligned_right(text@, width as nat),
{
    let count: usize = to_chars(text).len();
    if count < width {
        let gap = spaces(width - count);
        concat(&gap, text)
    } else {
        text.to_owned()
    }
}

/// A text of at most some width: of a longer one the end is replaced by an
/// ellipsis.
pub open spec fn shortened(text: Seq<char>, width: nat) -> Seq<char> {
    if text.len() <= width {
        text
    } else if width == 0 {
        seq!['\u{2026}']
    } else {
        text.take(width - 1).push('\u{2026}')
    }
}

/// Cuts a text to some width.
pub fn truncate(value: &str, width: usize) -> (text: String)
    ensures
        text@ == shortened(value@, width as nat),
{
    let chars = to_chars(value);
    if chars.len() <= width {
        return value.to_owned();
    }
    let kept: usize = if width == 0 {
        0
    } else {
        width - 1
    };
    let mut text = slice_text(&chars, 0, kept);
    assert(text@ =~= value@.take(kept as int));
    text.push('\u{2026}');
    assert(text@ =~= shortened(value@, width as nat));
    text
}

/// What is cut never exceeds the width, unless that is nothing at all.
pub proof fn shortened_text_fits(text: Seq<char>, width: nat)
    requires
        width > 0,
    ensures
        shortened(text, width).len() <= width,
        text.len() <= width ==> shortened(text, width) == text,
{
}

} // verus!
