//! Text as sequences of characters: building, comparing, trimming, numerals.

use vstd::prelude::*;
use vstd::utf8::encode_scalar;
use vstd::utf8::encode_utf8;

verus! {

/// `String::push` of std: the text grows by one character at its end.
pub assume_specification[ std::string::String::push ](this: &mut std::string::String, ch: char)
    ensures
        final(this)@ == old(this)@.push(ch),
;

/// `char::from_u32` of std: the scalar value with that number, if the number is
/// a Unicode scalar value.
pub assume_specification[ char::from_u32 ](i: u32) -> (found: Option<char>)
    ensures
        match found {
            Some(ch) => ch as u32 == i,
            None => 0xd800 <= i <= 0xdfff || i > 0x10ffff,
        },
;

/// What `{:?}` prints for a text.
pub uninterp spec fn debug_text(text: Seq<char>) -> Seq<char>;

/// `format!("{:?}", ..)` of a `str`. The escaping that std applies between the
/// quotation marks is named, not spelled out.
#[verifier::external_body]
pub(crate) fn debug_string(text: &str) -> (printed: String)
    ensures
        printed@ == debug_text(text@),
{
    format!("{:?}", text)
}

/// What `String::from_utf8_lossy` makes of a byte sequence.
pub uninterp spec fn lossy_text(bytes: Seq<u8>) -> Seq<char>;

/// `String::from_utf8_lossy` of std. Bytes that are UTF-8 are decoded; how std
/// places its replacement characters elsewhere is named, not spelled out.
#[verifier::external_body]
pub(crate) fn lossy_string(bytes: &[u8]) -> (text: String)
    ensures
        text@ == lossy_text(bytes@),
        vstd::utf8::valid_utf8(bytes@) ==> text@ == vstd::utf8::decode_utf8(bytes@),
{
    String::from_utf8_lossy(bytes).into_owned()
}

/// `String::from_utf8` of std: the decoded text, if the bytes are UTF-8.
#[verifier::external_body]
pub(crate) fn strict_string(bytes: Vec<u8>) -> (text: Option<String>)
    ensures
        match text {
            Some(t) => vstd::utf8::valid_utf8(bytes@) && t@ == vstd::utf8::decode_utf8(bytes@),
            None => !vstd::utf8::valid_utf8(bytes@),
        },
{
    String::from_utf8(bytes).ok()
}

// ---------------------------------------------------------------------------
// Views of optional and repeated text
// ---------------------------------------------------------------------------

/// The view of what an `Option` holds.
pub open spec fn option_view<T: View>(value: Option<T>) -> Option<T::V> {
    match value {
        Some(inner) => Some(inner@),
        None => None,
    }
}

/// The views of the elements of a sequence.
pub open spec fn views<T: View>(values: Seq<T>) -> Seq<T::V> {
    Seq::new(values.len(), |i: int| values[i]@)
}

/// Copies an optional text.
pub fn copy_option(value: &Option<String>) -> (copy: Option<String>)
    ensures
        copy == *value,
{
    match value {
        Some(text) => Some(text.clone()),
        None => None,
    }
}

/// Borrows an optional text.
pub fn as_slice(value: &Option<String>) -> (slice: Option<&str>)
    ensures
        match slice {
            Some(text) => option_view(*value) == Some(text@),
            None => option_view(*value) is None,
        },
{
    match value {
        Some(text) => Some(text.as_str()),
        None => None,
    }
}

/// Copies a list of texts.
pub fn copy_texts(values: &Vec<String>) -> (copy: Vec<String>)
    ensures
        copy@ == values@,
{
    let mut copy: Vec<String> = Vec::new();
    let mut i: usize = 0;
    while i < values.len()
        invariant
            i <= values.len(),
            copy@ == values@.take(i as int),
        decreases values.len() - i,
    {
        copy.push(values[i].clone());
        i += 1;
    }
    assert(values@.take(i as int) =~= values@);
    copy
}

// ---------------------------------------------------------------------------
// Characters and text
// ---------------------------------------------------------------------------

/// The characters of a text, in order.
pub fn to_chars(text: &str) -> (chars: Vec<char>)
    ensures
        chars@ == text@,
{
    let mut chars: Vec<char> = Vec::new();
    for c in it: text.chars()
        invariant
            it.seq() == text@,
            chars@ == text@.take(it.index() as int),
    {
        chars.push(c);
    }
    chars
}

/// The text made of the characters in `chars[start..end]`.
pub(crate) fn slice_text(chars: &[char], start: usize, end: usize) -> (text: String)
    requires
        start <= end <= chars@.len(),
    ensures
        text@ == chars@.subrange(start as int, end as int),
{
    let mut text = String::new();
    let mut i: usize = start;
    while i < end
        invariant
            start <= i <= end <= chars@.len(),
            text@ == chars@.subrange(start as int, i as int),
        decreases end - i,
    {
        text.push(chars[i]);
        assert(chars@.subrange(start as int, i + 1) =~= chars@.subrange(start as int, i as int).push(
            chars@[i as int],
        ));
        i += 1;
    }
    text
}

/// Whether two texts hold the same characters.
pub fn same_text(left: &str, right: &str) -> (same: bool)
    ensures
        same == (left@ == right@),
{
    let a = left.as_bytes();
    let b = right.as_bytes();
    proof {
        vstd::utf8::encode_utf8_decode_utf8(left@);
        vstd::utf8::encode_utf8_decode_utf8(right@);
    }
    if a.len() != b.len() {
        return false;
    }
    let mut i: usize = 0;
    while i < a.len()
        invariant
            i <= a.len(),
            a.len() == b.len(),
            a@ == encode_utf8(left@),
            b@ == encode_utf8(right@),
            forall|j: int| 0 <= j < i ==> a@[j] == b@[j],
        decreases a.len() - i,
    {
        if a[i] != b[i] {
            return false;
        }
        i += 1;
    }
    assert(a@ =~= b@);
    true
}

/// Whether an optional text is there and equals another.
pub fn is_text(value: &Option<String>, wanted: &str) -> (same: bool)
    ensures
        same == (option_view(*value) == Some(wanted@)),
{
    match value {
        Some(text) => same_text(text, wanted),
        None => false,
    }
}

/// Whether two optional texts are equal.
pub fn same_option(left: &Option<String>, right: &Option<String>) -> (same: bool)
    ensures
        same == (option_view(*left) == option_view(*right)),
{
    match (left, right) {
        (Some(a), Some(b)) => same_text(a, b),
        (None, None) => true,
        _ => false,
    }
}

/// Whether no character stands in a text.
pub fn is_blank(text: &str) -> (blank: bool)
    ensures
        blank == (text@.len() == 0),
{
    let ghost bytes = encode_utf8(text@);
    proof {
        lemma_byte_length_positive(text@);
    }
    text.as_bytes().len() == 0
}

/// Whether `text` begins with `prefix`.
pub open spec fn begins_with(text: Seq<char>, prefix: Seq<char>) -> bool {
    prefix.len() <= text.len() && text.take(prefix.len() as int) == prefix
}

/// Whether a sequence of characters has `prefix` at its start.
pub fn chars_begin_with(chars: &[char], prefix: &[char]) -> (begins: bool)
    ensures
        begins == begins_with(chars@, prefix@),
{
    if prefix.len() > chars.len() {
        return false;
    }
    let mut i: usize = 0;
    while i < prefix.len()
        invariant
            i <= prefix.len() <= chars.len(),
            forall|j: int| 0 <= j < i ==> chars@[j] == prefix@[j],
        decreases prefix.len() - i,
    {
        if chars[i] != prefix[i] {
            assert(chars@.take(prefix@.len() as int)[i as int] != prefix@[i as int]);
            return false;
        }
        i += 1;
    }
    assert(chars@.take(prefix@.len() as int) =~= prefix@);
    true
}

/// What stands after `prefix`, if `text` begins with it.
pub fn strip_prefix(text: &str, prefix: &str) -> (rest: Option<String>)
    ensures
        match rest {
            Some(r) => begins_with(text@, prefix@) && r@ == text@.skip(prefix@.len() as int),
            None => !begins_with(text@, prefix@),
        },
{
    let chars = to_chars(text);
    let wanted = to_chars(prefix);
    if chars_begin_with(&chars, &wanted) {
        let rest = slice_text(&chars, wanted.len(), chars.len());
        assert(rest@ =~= text@.skip(prefix@.len() as int));
        Some(rest)
    } else {
        None
    }
}

/// Whether a text begins with `prefix`.
pub fn starts_with(text: &str, prefix: &str) -> (begins: bool)
    ensures
        begins == begins_with(text@, prefix@),
{
    let chars = to_chars(text);
    let wanted = to_chars(prefix);
    chars_begin_with(&chars, &wanted)
}

/// Whether `wanted` occurs among the characters of `text`.
pub fn contains_char(text: &str, wanted: char) -> (found: bool)
    ensures
        found == text@.contains(wanted),
{
    let chars = to_chars(text);
    let mut i: usize = 0;
    while i < chars.len()
        invariant
            i <= chars.len(),
            chars@ == text@,
            forall|j: int| 0 <= j < i ==> chars@[j] != wanted,
        decreases chars.len() - i,
    {
        if chars[i] == wanted {
            return true;
        }
        i += 1;
    }
    false
}

/// The parts of a text, with `separator` between neighbours.
pub open spec fn join_text(parts: Seq<Seq<char>>, separator: Seq<char>) -> Seq<char>
    decreases parts.len(),
{
    if parts.len() == 0 {
        seq![]
    } else if parts.len() == 1 {
        parts[0]
    } else {
        join_text(parts.drop_last(), separator) + separator + parts.last()
    }
}

/// Joins texts with a separator between neighbours.
pub fn join(parts: &Vec<String>, separator: &str) -> (text: String)
    ensures
        text@ == join_text(views(parts@), separator@),
{
    let mut text = String::new();
    let mut i: usize = 0;
    while i < parts.len()
        invariant
            i <= parts.len(),
            text@ == join_text(views(parts@).take(i as int), separator@),
        decreases parts.len() - i,
    {
        if i > 0 {
            text.append(separator);
        }
        text.append(&parts[i]);
        assert(views(parts@).take(i + 1).drop_last() =~= views(parts@).take(i as int));
        assert(i == 0 ==> text@ =~= parts@[0]@);
        i += 1;
    }
    assert(views(parts@).take(i as int) =~= views(parts@));
    text
}

/// Two texts in a row.
pub fn concat(left: &str, right: &str) -> (text: String)
    ensures
        text@ == left@ + right@,
{
    let mut text = left.to_owned();
    text.append(right);
    text
}

/// Three texts in a row.
pub fn concat3(first: &str, second: &str, third: &str) -> (text: String)
    ensures
        text@ == first@ + second@ + third@,
{
    let mut text = first.to_owned();
    text.append(second);
    text.append(third);
    text
}

// ---------------------------------------------------------------------------
// Lengths in bytes
// ---------------------------------------------------------------------------

/// The number of bytes that a text takes as UTF-8.
pub open spec fn byte_length(text: Seq<char>) -> nat {
    encode_utf8(text).len()
}

pub proof fn lemma_encode_concat(left: Seq<char>, right: Seq<char>)
    ensures
        encode_utf8(left + right) == encode_utf8(left) + encode_utf8(right),
    decreases left.len(),
{
    if left.len() == 0 {
        assert(left + right =~= right);
        assert(encode_utf8(left) + encode_utf8(right) =~= encode_utf8(right));
    } else {
        lemma_encode_concat(left.drop_first(), right);
        assert((left + right).drop_first() =~= left.drop_first() + right);
        assert(encode_utf8(left + right) =~= encode_utf8(left) + encode_utf8(right));
    }
}

pub proof fn lemma_byte_length_positive(text: Seq<char>)
    ensures
        byte_length(text) >= text.len(),
    decreases text.len(),
{
    if text.len() > 0 {
        lemma_byte_length_positive(text.drop_first());
    }
}

pub proof fn lemma_byte_length_prefix(text: Seq<char>, i: int)
    requires
        0 <= i <= text.len(),
    ensures
        byte_length(text.take(i)) <= byte_length(text),
        i < text.len() ==> byte_length(text.take(i + 1)) == byte_length(text.take(i)) + encode_scalar(
            text[i] as u32,
        ).len(),
{
    lemma_encode_concat(text.take(i), text.skip(i));
    assert(text.take(i) + text.skip(i) =~= text);
    if i < text.len() {
        lemma_encode_concat(text.take(i), seq![text[i]]);
        assert(text.take(i) + seq![text[i]] =~= text.take(i + 1));
        assert(seq![text[i]].drop_first() =~= seq![]);
        reveal_with_fuel(encode_utf8, 2);
    }
}

/// The number of bytes of the first `end` characters.
pub(crate) fn prefix_bytes(chars: &[char], end: usize) -> (bytes: usize)
    requires
        end <= chars@.len(),
        byte_length(chars@) <= usize::MAX,
    ensures
        bytes == byte_length(chars@.take(end as int)),
{
    let mut bytes: usize = 0;
    let mut i: usize = 0;
    assert(chars@.take(0) =~= seq![]);
    while i < end
        invariant
            i <= end <= chars@.len(),
            byte_length(chars@) <= usize::MAX,
            bytes == byte_length(chars@.take(i as int)),
        decreases end - i,
    {
        let code: u32 = chars[i] as u32;
        proof {
            lemma_byte_length_prefix(chars@, i as int);
            lemma_byte_length_prefix(chars@, i + 1);
            vstd::utf8::char_is_scalar(chars@[i as int]);
        }
        let width: usize = if code <= 0x7f {
            1
        } else if code <= 0x7ff {
            2
        } else if code <= 0xffff {
            3
        } else {
            4
        };
        bytes += width;
        i += 1;
    }
    bytes
}

// ---------------------------------------------------------------------------
// White space
// ---------------------------------------------------------------------------

/// The characters with the Unicode property White_Space.
pub open spec fn is_space(c: char) -> bool {
    ||| 0x09 <= c as u32 <= 0x0d
    ||| c as u32 == 0x20
    ||| c as u32 == 0x85
    ||| c as u32 == 0xa0
    ||| c as u32 == 0x1680
    ||| 0x2000 <= c as u32 <= 0x200a
    ||| c as u32 == 0x2028
    ||| c as u32 == 0x2029
    ||| c as u32 == 0x202f
    ||| c as u32 == 0x205f
    ||| c as u32 == 0x3000
}

/// Whether a character is white space.
pub fn space(c: char) -> (result: bool)
    ensures
        result == is_space(c),
{
    let code: u32 = c as u32;
    (0x09 <= code && code <= 0x0d) || code == 0x20 || code == 0x85 || code == 0xa0 || code == 0x1680
        || (0x2000 <= code && code <= 0x200a) || code == 0x2028 || code == 0x2029 || code == 0x202f
        || code == 0x205f || code == 0x3000
}

/// The characters of the general category Cc.
pub open spec fn is_control(c: char) -> bool {
    c as u32 <= 0x1f || 0x7f <= c as u32 <= 0x9f
}

/// Whether a character is a control character.
pub fn control(c: char) -> (result: bool)
    ensures
        result == is_control(c),
{
    let code: u32 = c as u32;
    code <= 0x1f || (0x7f <= code && code <= 0x9f)
}

/// A text without the white space at its start.
pub open spec fn trim_start_text(text: Seq<char>) -> Seq<char>
    decreases text.len(),
{
    if text.len() > 0 && is_space(text[0]) {
        trim_start_text(text.drop_first())
    } else {
        text
    }
}

/// A text without the white space at its end.
pub open spec fn trim_end_text(text: Seq<char>) -> Seq<char>
    decreases text.len(),
{
    if text.len() > 0 && is_space(text.last()) {
        trim_end_text(text.drop_last())
    } else {
        text
    }
}

/// A text without the white space at either end.
pub open spec fn trim_text(text: Seq<char>) -> Seq<char> {
    trim_end_text(trim_start_text(text))
}

/// Cuts the white space off the end of a text.
pub fn trim_end(text: &str) -> (trimmed: String)
    ensures
        trimmed@ == trim_end_text(text@),
{
    let chars = to_chars(text);
    let mut end: usize = chars.len();
    assert(chars@.take(end as int) =~= chars@);
    while end > 0 && space(chars[end - 1])
        invariant
            end <= chars@.len(),
            trim_end_text(chars@.take(end as int)) == trim_end_text(chars@),
        decreases end,
    {
        assert(chars@.take(end as int).drop_last() =~= chars@.take(end - 1));
        end -= 1;
    }
    assert(chars@.take(end as int) =~= chars@.subrange(0, end as int));
    slice_text(&chars, 0, end)
}

/// Cuts the white space off both ends of a text.
pub fn trim(text: &str) -> (trimmed: String)
    ensures
        trimmed@ == trim_text(text@),
{
    let chars = to_chars(text);
    let mut start: usize = 0;
    assert(chars@.skip(0) =~= chars@);
    while start < chars.len() && space(chars[start])
        invariant
            start <= chars@.len(),
            trim_start_text(chars@.skip(start as int)) == trim_start_text(chars@),
        decreases chars.len() - start,
    {
        assert(chars@.skip(start as int).drop_first() =~= chars@.skip(start + 1));
        start += 1;
    }
    let rest = slice_text(&chars, start, chars.len());
    assert(rest@ =~= chars@.skip(start as int));
    trim_end(&rest)
}

/// Whether a text holds nothing but white space.
pub fn trims_to_nothing(text: &str) -> (blank: bool)
    ensures
        blank == (trim_text(text@).len() == 0),
{
    let trimmed = trim(text);
    is_blank(&trimmed)
}

// ---------------------------------------------------------------------------
// Lines and words
// ---------------------------------------------------------------------------

/// A sequence cut at every occurrence of `separator`; what stands between two
/// separators, before the first and after the last is a piece, also if empty.
pub open spec fn pieces<T>(items: Seq<T>, separator: T) -> Seq<Seq<T>>
    decreases items.len(),
{
    if items.len() == 0 {
        seq![seq![]]
    } else if items.last() == separator {
        pieces(items.drop_last(), separator).push(seq![])
    } else {
        let before = pieces(items.drop_last(), separator);
        before.drop_last().push(before.last().push(items.last()))
    }
}

pub proof fn lemma_pieces_nonempty<T>(items: Seq<T>, separator: T)
    ensures
        pieces(items, separator).len() > 0,
    decreases items.len(),
{
    if items.len() > 0 {
        lemma_pieces_nonempty(items.drop_last(), separator);
    }
}

/// Cuts a text at every occurrence of `separator`.
pub fn split(text: &str, separator: char) -> (parts: Vec<String>)
    ensures
        views(parts@) == pieces(text@, separator),
{
    let chars = to_chars(text);
    let mut parts: Vec<String> = Vec::new();
    let mut current = String::new();
    let mut i: usize = 0;
    assert(chars@.take(0) =~= seq![]);
    assert(views(parts@).push(current@) =~= seq![seq![]]);
    while i < chars.len()
        invariant
            i <= chars.len(),
            views(parts@).push(current@) == pieces(chars@.take(i as int), separator),
        decreases chars.len() - i,
    {
        let ghost so_far = views(parts@).push(current@);
        assert(chars@.take(i + 1).drop_last() =~= chars@.take(i as int));
        if chars[i] == separator {
            let ghost before = parts@;
            let ghost part = current@;
            parts.push(current);
            current = String::new();
            assert(views(parts@) =~= views(before).push(part));
            assert(views(parts@).push(current@) =~= so_far.push(seq![]));
        } else {
            let ghost part = current@;
            current.push(chars[i]);
            assert(so_far.drop_last() =~= views(parts@));
            assert(views(parts@).push(current@) =~= so_far.drop_last().push(
                so_far.last().push(chars@[i as int]),
            ));
        }
        i += 1;
    }
    assert(chars@.take(i as int) =~= chars@);
    let ghost before = parts@;
    let ghost part = current@;
    parts.push(current);
    assert(views(parts@) =~= views(before).push(part));
    parts
}

/// A line without the carriage return at its end.
pub open spec fn without_return(line: Seq<char>) -> Seq<char> {
    if line.len() > 0 && line.last() == '\r' {
        line.drop_last()
    } else {
        line
    }
}

/// The lines of a text: what stands between line feeds, without a carriage
/// return before a line feed, and without an empty last line.
pub open spec fn lines_text(text: Seq<char>) -> Seq<Seq<char>> {
    let parts = pieces(text, '\n');
    let closed = Seq::new((parts.len() - 1) as nat, |i: int| without_return(parts[i]));
    if parts.last().len() == 0 {
        closed
    } else {
        closed.push(parts.last())
    }
}

/// The lines of a text.
pub fn lines(text: &str) -> (result: Vec<String>)
    ensures
        views(result@) == lines_text(text@),
{
    let parts = split(text, '\n');
    proof {
        lemma_pieces_nonempty(text@, '\n');
    }
    let ghost pieces = pieces(text@, '\n');
    let last: usize = parts.len() - 1;
    let mut result: Vec<String> = Vec::new();
    let mut i: usize = 0;
    while i < last
        invariant
            i <= last,
            last == parts.len() - 1,
            pieces == views(parts@),
            views(result@) == Seq::new(i as nat, |j: int| without_return(pieces[j])),
        decreases last - i,
    {
        let chars = to_chars(&parts[i]);
        assert(chars@ == pieces[i as int]);
        let line = if chars.len() > 0 && chars[chars.len() - 1] == '\r' {
            let line = slice_text(&chars, 0, chars.len() - 1);
            assert(line@ =~= chars@.drop_last());
            line
        } else {
            parts[i].clone()
        };
        let ghost before = result@;
        let ghost added = line@;
        result.push(line);
        assert(views(result@) =~= views(before).push(added));
        assert(views(result@) =~= Seq::new((i + 1) as nat, |j: int| without_return(pieces[j])));
        i += 1;
    }
    assert(parts@[last as int]@ == pieces.last());
    if !is_blank(&parts[last]) {
        let ghost before = result@;
        result.push(parts[last].clone());
        assert(views(result@) =~= views(before).push(pieces.last()));
    }
    result
}

/// The runs of characters between white space.
pub open spec fn words_text(text: Seq<char>) -> Seq<Seq<char>>
    decreases text.len(),
{
    if text.len() == 0 {
        seq![]
    } else if is_space(text.last()) {
        words_text(text.drop_last())
    } else if text.len() == 1 || is_space(text[text.len() - 2]) {
        words_text(text.drop_last()).push(seq![text.last()])
    } else {
        let before = words_text(text.drop_last());
        before.drop_last().push(before.last().push(text.last()))
    }
}

/// Cuts a text into the runs of characters between white space.
pub fn words(text: &str) -> (result: Vec<String>)
    ensures
        views(result@) == words_text(text@),
{
    let chars = to_chars(text);
    let mut result: Vec<String> = Vec::new();
    let mut current = String::new();
    let mut inside: bool = false;
    let mut i: usize = 0;
    assert(chars@.take(0) =~= seq![]);
    assert(views(result@) =~= seq![]);
    while i < chars.len()
        invariant
            i <= chars.len(),
            inside == (i > 0 && !is_space(chars@[i - 1])),
            inside ==> views(result@).push(current@) == words_text(chars@.take(i as int)),
            !inside ==> views(result@) == words_text(
                chars@.take(i as int)
            ) && current@ == Seq::<char>::empty(),
        decreases chars.len() - i,
    {
        let ghost shorter = chars@.take(i as int);
        let ghost longer = chars@.take(i + 1);
        assert(longer.drop_last() =~= shorter);
        let ghost before = result@;
        let ghost part = current@;
        if space(chars[i]) {
            if inside {
                result.push(current);
                current = String::new();
                inside = false;
                assert(views(result@) =~= views(before).push(part));
            }
        } else {
            current.push(chars[i]);
            if inside {
                assert(views(before).push(part).drop_last() =~= views(before));
                assert(views(result@).push(current@) =~= words_text(longer));
            } else {
                assert(current@ =~= seq![chars@[i as int]]);
                assert(views(result@).push(current@) =~= words_text(longer));
            }
            inside = true;
        }
        i += 1;
    }
    assert(chars@.take(i as int) =~= chars@);
    let ghost before = result@;
    let ghost part = current@;
    if inside {
        result.push(current);
        assert(views(result@) =~= views(before).push(part));
    }
    result
}

} // verus!
