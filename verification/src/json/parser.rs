//! Reading JSON.

use crate::json::value::field_views;
use crate::json::value::item_views;
use crate::json::value::Json;
use crate::json::value::Value;
use crate::numeral::digit;
use crate::numeral::is_digit;
use crate::numeral::parse_i64;
use crate::numeral::print_u64;
use crate::numeral::decimal;
use crate::numeral::signed_value;
use crate::text::byte_length;
use crate::text::lemma_byte_length_positive;
use crate::text::lemma_byte_length_prefix;
use crate::text::prefix_bytes;
use crate::text::slice_text;
use crate::text::to_chars;
use vstd::prelude::*;

verus! {

/// How deep values may stand inside arrays and objects.
pub const MAX_JSON_DEPTH: usize = 128;

/// What is wrong with a text, and at which byte.
#[derive(Debug, PartialEq, Eq)]
pub struct ParseError {
    pub message: String,
    pub position: usize,
}

/// The view of a [`ParseError`].
pub struct ParseErrorView {
    pub message: Seq<char>,
    pub position: int,
}

impl View for ParseError {
    type V = ParseErrorView;

    open spec fn view(&self) -> ParseErrorView {
        ParseErrorView { message: self.message@, position: self.position as int }
    }
}

impl Clone for ParseError {
    fn clone(&self) -> (copy: Self)
        ensures
            copy@ == self@,
    {
        ParseError { message: self.message.clone(), position: self.position }
    }
}

impl ParseErrorView {
    /// The sentence that tells a reader of the error.
    pub open spec fn text(self) -> Seq<char> {
        "invalid JSON at byte "@ + decimal(self.position as nat) + ": "@ + self.message
    }
}

impl ParseError {
    /// The sentence that tells a reader of the error.
    pub fn to_text(&self) -> (text: String)
        ensures
            text@ == self@.text(),
    {
        let mut text = "invalid JSON at byte ".to_owned();
        let position = print_u64(self.position as u64);
        text.append(&position);
        text.append(": ");
        text.append(&self.message);
        text
    }
}

/// The outcome of reading from a position: what was read and the index of the
/// character after it, or an error message and the byte at which it stands.
pub enum Parsed<T> {
    Done(T, int),
    Fail(Seq<char>, int),
}

/// A failure in front of the character at `i`.
pub open spec fn fail_at<T>(text: Seq<char>, i: int, message: Seq<char>) -> Parsed<T> {
    Parsed::Fail(message, byte_length(text.take(i)) as int)
}

/// Whether `c` stands at index `i`.
pub open spec fn char_at(text: Seq<char>, i: int, c: char) -> bool {
    0 <= i < text.len() && text[i] == c
}

/// The white space of JSON.
pub open spec fn is_json_space(c: char) -> bool {
    c == ' ' || c == '\n' || c == '\r' || c == '\t'
}

/// The index of the first character from `i` on that is no white space.
pub open spec fn skip_space(text: Seq<char>, i: int) -> int
    decreases text.len() - i,
{
    if 0 <= i < text.len() && is_json_space(text[i]) {
        skip_space(text, i + 1)
    } else {
        i
    }
}

/// The complaint that a character is missing.
pub open spec fn expected_message(c: char) -> Seq<char> {
    "expected '"@ + seq![c] + "'"@
}

/// The number that a hexadecimal digit stands for.
pub open spec fn hex_value(c: char) -> Option<int> {
    if 48 <= c as u32 <= 57 {
        Some(c as u32 - 48)
    } else if 97 <= c as u32 <= 102 {
        Some(c as u32 - 87)
    } else if 65 <= c as u32 <= 70 {
        Some(c as u32 - 55)
    } else {
        None
    }
}

/// `count` hexadecimal digits after those that gave `value`.
pub open spec fn hex_at(text: Seq<char>, i: int, count: nat, value: int) -> Parsed<int>
    decreases count,
{
    if count == 0 {
        Parsed::Done(value, i)
    } else if 0 <= i < text.len() && hex_value(text[i]) is Some {
        hex_at(text, i + 1, (count - 1) as nat, value * 16 + hex_value(text[i])->0)
    } else {
        fail_at(text, i, "invalid unicode escape"@)
    }
}

/// What stands after `\u`: one code unit, or a pair of surrogates.
pub open spec fn unicode_at(text: Seq<char>, i: int) -> Parsed<char> {
    match hex_at(text, i, 4, 0) {
        Parsed::Fail(message, position) => Parsed::Fail(message, position),
        Parsed::Done(first, j) => {
            if 0xd800 <= first <= 0xdbff {
                if !char_at(text, j, '\\') {
                    fail_at(text, j, "high surrogate is not followed by a low surrogate"@)
                } else if !char_at(text, j + 1, 'u') {
                    fail_at(text, j + 1, "high surrogate is not followed by a low surrogate"@)
                } else {
                    match hex_at(text, j + 2, 4, 0) {
                        Parsed::Fail(message, position) => Parsed::Fail(message, position),
                        Parsed::Done(second, k) => {
                            if 0xdc00 <= second <= 0xdfff {
                                Parsed::Done(
                                    (
                                        0x1_0000 + (first - 0xd800) * 1024 + (second - 0xdc00)
                                    ) as char,
                                    k,
                                )
                            } else {
                                fail_at(text, k, "invalid low surrogate"@)
                            }
                        },
                    }
                }
            } else if 0xdc00 <= first <= 0xdfff {
                fail_at(text, j, "unexpected low surrogate"@)
            } else {
                Parsed::Done(first as char, j)
            }
        },
    }
}

/// What stands after a backslash in a string.
pub open spec fn escape_at(text: Seq<char>, i: int) -> Parsed<char> {
    if i >= text.len() {
        fail_at(text, i, "unterminated escape"@)
    } else if text[i] == '"' {
        Parsed::Done('"', i + 1)
    } else if text[i] == '\\' {
        Parsed::Done('\\', i + 1)
    } else if text[i] == '/' {
        Parsed::Done('/', i + 1)
    } else if text[i] == 'b' {
        Parsed::Done(8u32 as char, i + 1)
    } else if text[i] == 'f' {
        Parsed::Done(12u32 as char, i + 1)
    } else if text[i] == 'n' {
        Parsed::Done('\n', i + 1)
    } else if text[i] == 'r' {
        Parsed::Done('\r', i + 1)
    } else if text[i] == 't' {
        Parsed::Done('\t', i + 1)
    } else if text[i] == 'u' {
        unicode_at(text, i + 1)
    } else {
        Parsed::Fail("unknown string escape"@, byte_length(text.take(i)) as int + 1)
    }
}

pub proof fn lemma_hex_index(text: Seq<char>, i: int, count: nat, value: int)
    requires
        0 <= i <= text.len(),
    ensures
        hex_at(
            text,
            i,
            count,
            value,
        ) matches Parsed::Done(_, j) ==> j == i + count && j <= text.len(),
    decreases count,
{
    if count > 0 && i < text.len() && hex_value(text[i]) is Some {
        lemma_hex_index(text, i + 1, (count - 1) as nat, value * 16 + hex_value(text[i])->0);
    }
}

pub proof fn lemma_escape_index(text: Seq<char>, i: int)
    requires
        0 <= i <= text.len(),
    ensures
        escape_at(text, i) matches Parsed::Done(_, j) ==> i < j <= text.len(),
{
    if i < text.len() {
        lemma_hex_index(text, i + 1, 4, 0);
        if i + 7 <= text.len() {
            lemma_hex_index(text, i + 7, 4, 0);
        }
    }
}

/// The rest of a string whose characters so far are `read`.
pub open spec fn string_rest(text: Seq<char>, i: int, read: Seq<char>) -> Parsed<Seq<char>>
    decreases text.len() - i,
    via string_decreases
{
    if i < 0 || i >= text.len() {
        fail_at(text, i, "unterminated string"@)
    } else if text[i] == '"' {
        Parsed::Done(read, i + 1)
    } else if text[i] == '\\' {
        match escape_at(text, i + 1) {
            Parsed::Fail(message, position) => Parsed::Fail(message, position),
            Parsed::Done(c, j) => string_rest(text, j, read.push(c)),
        }
    } else if (text[i] as u32) < 0x20 {
        fail_at(text, i + 1, "control character in string"@)
    } else {
        string_rest(text, i + 1, read.push(text[i]))
    }
}

/// A string, from its quotation mark on.
pub open spec fn string_at(text: Seq<char>, i: int) -> Parsed<Seq<char>> {
    if char_at(text, i, '"') {
        string_rest(text, i + 1, seq![])
    } else {
        fail_at(text, i, expected_message('"'))
    }
}

/// The index of the first character from `i` on that is no digit.
pub open spec fn digits_end(text: Seq<char>, i: int) -> int
    decreases text.len() - i,
{
    if 0 <= i < text.len() && is_digit(text[i]) {
        digits_end(text, i + 1)
    } else {
        i
    }
}

/// An integer, from its first character on.
pub open spec fn number_at(text: Seq<char>, i: int) -> Parsed<int> {
    let first = if char_at(text, i, '-') {
        i + 1
    } else {
        i
    };
    let end = if char_at(text, first, '0') {
        first + 1
    } else {
        digits_end(text, first)
    };
    if char_at(text, first, '0') && end < text.len() && is_digit(text[end]) {
        fail_at(text, end, "leading zeroes are not allowed"@)
    } else if end == first {
        fail_at(text, end, "expected digits in number"@)
    } else if char_at(text, end, '.') || char_at(text, end, 'e') || char_at(text, end, 'E') {
        fail_at(text, end, "only integer JSON numbers are supported"@)
    } else {
        match signed_value(text.subrange(i, end)) {
            Ok(number) => Parsed::Done(number, end),
            Err(_) => fail_at(text, end, "integer is out of range"@),
        }
    }
}

/// One of the three literal names.
pub open spec fn literal_at(text: Seq<char>, i: int, name: Seq<char>, value: Json) -> Parsed<Json> {
    if i + name.len() <= text.len() && text.subrange(i, i + name.len()) == name {
        Parsed::Done(value, i + name.len())
    } else {
        fail_at(text, i, "invalid literal"@)
    }
}

pub proof fn lemma_skip_space(text: Seq<char>, i: int)
    requires
        0 <= i <= text.len(),
    ensures
        i <= skip_space(text, i) <= text.len(),
    decreases text.len() - i,
{
    if i < text.len() && is_json_space(text[i]) {
        lemma_skip_space(text, i + 1);
    }
}

pub proof fn lemma_string_index(text: Seq<char>, i: int, read: Seq<char>)
    requires
        0 <= i <= text.len(),
    ensures
        string_rest(text, i, read) matches Parsed::Done(_, j) ==> i < j <= text.len(),
    decreases text.len() - i,
{
    if i >= text.len() || text[i] == '"' {
    } else if text[i] == '\\' {
        lemma_escape_index(text, i + 1);
        if let Parsed::Done(c, j) = escape_at(text, i + 1) {
            lemma_string_index(text, j, read.push(c));
        }
    } else {
        lemma_string_index(text, i + 1, read.push(text[i]));
    }
}

/// A value inside `depth` arrays and objects, with the white space before it.
pub open spec fn value_at(text: Seq<char>, i: int, depth: nat) -> Parsed<Json>
    decreases text.len() - i, 0int,
    when 0 <= i <= text.len()
    via value_decreases
{
    let k = skip_space(text, i);
    if depth >= MAX_JSON_DEPTH {
        fail_at(text, i, "JSON nesting depth exceeds the supported limit"@)
    } else if k >= text.len() {
        fail_at(text, k, "expected a value"@)
    } else if text[k] == 'n' {
        literal_at(text, k, "null"@, Json::Null)
    } else if text[k] == 't' {
        literal_at(text, k, "true"@, Json::Bool(true))
    } else if text[k] == 'f' {
        literal_at(text, k, "false"@, Json::Bool(false))
    } else if text[k] == '"' {
        match string_at(text, k) {
            Parsed::Done(read, j) => Parsed::Done(Json::Str(read), j),
            Parsed::Fail(message, position) => Parsed::Fail(message, position),
        }
    } else if text[k] == '[' {
        let first = skip_space(text, k + 1);
        if char_at(text, first, ']') {
            Parsed::Done(Json::Array(seq![]), first + 1)
        } else {
            items_at(text, first, depth, seq![])
        }
    } else if text[k] == '{' {
        let first = skip_space(text, k + 1);
        if char_at(text, first, '}') {
            Parsed::Done(Json::Object(seq![]), first + 1)
        } else {
            fields_at(text, first, depth, seq![])
        }
    } else if text[k] == '-' || is_digit(text[k]) {
        match number_at(text, k) {
            Parsed::Done(number, j) => Parsed::Done(Json::Number(number), j),
            Parsed::Fail(message, position) => Parsed::Fail(message, position),
        }
    } else {
        fail_at(text, k, "unexpected value"@)
    }
}

/// The rest of an array whose items so far are `read`. A value takes at least
/// one character, so the reading always moves on.
pub open spec fn items_at(text: Seq<char>, i: int, depth: nat, read: Seq<Json>) -> Parsed<Json>
    decreases text.len() - i, 1int,
    when 0 <= i <= text.len()
    via items_decreases
{
    match value_at(text, i, depth + 1) {
        Parsed::Fail(message, position) => Parsed::Fail(message, position),
        Parsed::Done(value, j) => {
            let k = skip_space(text, j);
            if char_at(text, k, ']') {
                Parsed::Done(Json::Array(read.push(value)), k + 1)
            } else if char_at(text, k, ',') && i < j <= text.len() {
                items_at(text, k + 1, depth, read.push(value))
            } else {
                fail_at(text, k, expected_message(','))
            }
        },
    }
}

/// The rest of an object whose fields so far are `read`.
pub open spec fn fields_at(
    text: Seq<char>,
    i: int,
    depth: nat,
    read: Seq<(Seq<char>, Json)>,
) -> Parsed<Json>
    decreases text.len() - i, 1int,
    when 0 <= i <= text.len()
    via fields_decreases
{
    match string_at(text, skip_space(text, i)) {
        Parsed::Fail(message, position) => Parsed::Fail(message, position),
        Parsed::Done(key, a) => {
            let b = skip_space(text, a);
            if !char_at(text, b, ':') {
                fail_at(text, b, expected_message(':'))
            } else {
                match value_at(text, b + 1, depth + 1) {
                    Parsed::Fail(message, position) => Parsed::Fail(message, position),
                    Parsed::Done(value, j) => {
                        let k = skip_space(text, j);
                        if char_at(text, k, '}') {
                            Parsed::Done(Json::Object(read.push((key, value))), k + 1)
                        } else if char_at(text, k, ',') && i < j <= text.len() {
                            fields_at(text, k + 1, depth, read.push((key, value)))
                        } else {
                            fail_at(text, k, expected_message(','))
                        }
                    },
                }
            }
        },
    }
}

#[via_fn]
proof fn string_decreases(text: Seq<char>, i: int, read: Seq<char>) {
    if 0 <= i < text.len() {
        lemma_escape_index(text, i + 1);
    }
}

#[via_fn]
proof fn value_decreases(text: Seq<char>, i: int, depth: nat) {
    lemma_skip_space(text, i);
    let k = skip_space(text, i);
    if k < text.len() {
        lemma_skip_space(text, k + 1);
    }
}

#[via_fn]
proof fn items_decreases(text: Seq<char>, i: int, depth: nat, read: Seq<Json>) {
    assert forall|j: int| i < j <= text.len() implies i < #[trigger] skip_space(text, j)
        <= text.len() by {
        lemma_skip_space(text, j);
    }
}

#[via_fn]
proof fn fields_decreases(text: Seq<char>, i: int, depth: nat, read: Seq<(Seq<char>, Json)>) {
    lemma_skip_space(text, i);
    assert forall|j: int| i < j <= text.len() implies i < #[trigger] skip_space(text, j)
        <= text.len() by {
        lemma_skip_space(text, j);
    }
    let k = skip_space(text, i);
    if k < text.len() {
        lemma_string_index(text, k + 1, seq![]);
    }
}

/// The value that a whole text holds.
pub open spec fn parse_text(text: Seq<char>) -> Result<Json, ParseErrorView> {
    match value_at(text, 0, 0) {
        Parsed::Fail(message, position) => Err(ParseErrorView { message, position }),
        Parsed::Done(value, j) => {
            let end = skip_space(text, j);
            if end == text.len() {
                Ok(value)
            } else {
                Err(
                    ParseErrorView {
                        message: "trailing characters"@,
                        position: byte_length(text.take(end)) as int,
                    },
                )
            }
        },
    }
}

pub proof fn lemma_digits_end(text: Seq<char>, i: int)
    requires
        0 <= i <= text.len(),
    ensures
        i <= digits_end(text, i) <= text.len(),
    decreases text.len() - i,
{
    if i < text.len() && is_digit(text[i]) {
        lemma_digits_end(text, i + 1);
    }
}

pub proof fn lemma_value_index(text: Seq<char>, i: int, depth: nat)
    requires
        0 <= i <= text.len(),
    ensures
        value_at(text, i, depth) matches Parsed::Done(_, j) ==> i < j <= text.len(),
    decreases text.len() - i, 0int,
{
    lemma_skip_space(text, i);
    let k = skip_space(text, i);
    reveal_strlit("null");
    reveal_strlit("true");
    reveal_strlit("false");
    if k < text.len() {
        lemma_string_index(text, k + 1, seq![]);
        lemma_skip_space(text, k + 1);
        lemma_digits_end(text, k);
        lemma_digits_end(text, k + 1);
        let first = skip_space(text, k + 1);
        lemma_items_index(text, first, depth, seq![]);
        lemma_fields_index(text, first, depth, seq![]);
    }
}

proof fn lemma_items_index(text: Seq<char>, i: int, depth: nat, read: Seq<Json>)
    requires
        0 <= i <= text.len(),
    ensures
        items_at(text, i, depth, read) matches Parsed::Done(_, j) ==> i < j <= text.len(),
    decreases text.len() - i, 1int,
{
    lemma_value_index(text, i, depth + 1);
    if let Parsed::Done(value, j) = value_at(text, i, depth + 1) {
        lemma_skip_space(text, j);
        let k = skip_space(text, j);
        if k < text.len() {
            lemma_items_index(text, k + 1, depth, read.push(value));
        }
    }
}

proof fn lemma_fields_index(text: Seq<char>, i: int, depth: nat, read: Seq<(Seq<char>, Json)>)
    requires
        0 <= i <= text.len(),
    ensures
        fields_at(text, i, depth, read) matches Parsed::Done(_, j) ==> i < j <= text.len(),
    decreases text.len() - i, 1int,
{
    lemma_skip_space(text, i);
    let start = skip_space(text, i);
    if start < text.len() {
        lemma_string_index(text, start + 1, seq![]);
    }
    if let Parsed::Done(key, a) = string_at(text, start) {
        lemma_skip_space(text, a);
        let b = skip_space(text, a);
        if char_at(text, b, ':') {
            lemma_value_index(text, b + 1, depth + 1);
            if let Parsed::Done(value, j) = value_at(text, b + 1, depth + 1) {
                lemma_skip_space(text, j);
                let k = skip_space(text, j);
                if k < text.len() {
                    lemma_fields_index(text, k + 1, depth, read.push((key, value)));
                }
            }
        }
    }
}

/// Whether a reading came out as the description says.
spec fn agrees<T, V>(
    result: Result<T, ParseError>,
    after: int,
    parsed: Parsed<V>,
    same: spec_fn(T, V) -> bool,
) -> bool {
    match (result, parsed) {
        (Ok(value), Parsed::Done(expected, j)) => same(value, expected) && after == j,
        (Err(error), Parsed::Fail(message, position)) => error.message@ == message
            && error.position == position,
        _ => false,
    }
}

struct Parser {
    chars: Vec<char>,
    index: usize,
}

impl Parser {
    spec fn valid(&self) -> bool {
        &&& self.index <= self.chars@.len() <= usize::MAX
        &&& byte_length(self.chars@) <= usize::MAX
    }

    fn error(&self, message: &str) -> (error: ParseError)
        requires
            self.valid(),
        ensures
            error.message@ == message@,
            error.position == byte_length(self.chars@.take(self.index as int)),
    {
        ParseError { message: message.to_owned(), position: prefix_bytes(&self.chars, self.index) }
    }

    fn peeks(&self, c: char) -> (found: bool)
        requires
            self.valid(),
        ensures
            found == char_at(self.chars@, self.index as int, c),
    {
        self.index < self.chars.len() && self.chars[self.index] == c
    }

    fn consume(&mut self, c: char) -> (found: bool)
        requires
            old(self).valid(),
        ensures
            final(self).valid(),
            final(self).chars == old(self).chars,
            found == char_at(old(self).chars@, old(self).index as int, c),
            final(self).index == old(self).index + (if found {
                1int
            } else {
                0int
            }),
    {
        if self.peeks(c) {
            self.index = self.index + 1;
            true
        } else {
            false
        }
    }

    fn missing(&self, c: char) -> (error: ParseError)
        requires
            self.valid(),
        ensures
            error.message@ == expected_message(c),
            error.position == byte_length(self.chars@.take(self.index as int)),
    {
        let mut message = "expected '".to_owned();
        message.push(c);
        message.append("'");
        assert(message@ =~= expected_message(c));
        self.error(&message)
    }

    fn whitespace(&mut self)
        requires
            old(self).valid(),
        ensures
            final(self).valid(),
            final(self).chars == old(self).chars,
            final(self).index == skip_space(old(self).chars@, old(self).index as int),
    {
        let ghost start = self.index as int;
        while self.index < self.chars.len() && (self.chars[self.index] == ' '
            || self.chars[self.index] == '\n' || self.chars[self.index] == '\r'
            || self.chars[self.index] == '\t')
            invariant
                self.valid(),
                self.chars == old(self).chars,
                skip_space(self.chars@, self.index as int) == skip_space(self.chars@, start),
            decreases self.chars@.len() - self.index,
        {
            self.index = self.index + 1;
        }
    }

    fn hex4(&mut self) -> (result: Result<u32, ParseError>)
        requires
            old(self).valid(),
        ensures
            final(self).valid(),
            final(self).chars == old(self).chars,
            agrees(
                result,
                final(self).index as int,
                hex_at(old(self).chars@, old(self).index as int, 4, 0),
                |value: u32, expected: int| value == expected && value <= 0xffff,
            ),
    {
        let ghost start = self.index as int;
        let mut value: u32 = 0;
        let mut left: usize = 4;
        while left > 0
            invariant
                self.valid(),
                self.chars == old(self).chars,
                start == old(self).index,
                left <= 4,
                left == 4 ==> value == 0,
                left == 3 ==> value <= 0xf,
                left == 2 ==> value <= 0xff,
                left == 1 ==> value <= 0xfff,
                left == 0 ==> value <= 0xffff,
                hex_at(self.chars@, self.index as int, left as nat, value as int) == hex_at(
                    self.chars@,
                    start,
                    4,
                    0,
                ),
            decreases left,
        {
            if self.index >= self.chars.len() {
                return Err(self.error("invalid unicode escape"));
            }
            let code: u32 = self.chars[self.index] as u32;
            let digit: u32 = if 48 <= code && code <= 57 {
                code - 48
            } else if 97 <= code && code <= 102 {
                code - 87
            } else if 65 <= code && code <= 70 {
                code - 55
            } else {
                return Err(self.error("invalid unicode escape"));
            };
            value = value * 16 + digit;
            self.index = self.index + 1;
            left = left - 1;
        }
        Ok(value)
    }

    fn unicode_escape(&mut self) -> (result: Result<char, ParseError>)
        requires
            old(self).valid(),
        ensures
            final(self).valid(),
            final(self).chars == old(self).chars,
            agrees(
                result,
                final(self).index as int,
                unicode_at(old(self).chars@, old(self).index as int),
                |value: char, expected: char| value == expected,
            ),
    {
        let first = match self.hex4() {
            Ok(first) => first,
            Err(error) => return Err(error),
        };
        if 0xd800 <= first && first <= 0xdbff {
            if !self.consume('\\') {
                return Err(self.error("high surrogate is not followed by a low surrogate"));
            }
            if !self.consume('u') {
                return Err(self.error("high surrogate is not followed by a low surrogate"));
            }
            let second = match self.hex4() {
                Ok(second) => second,
                Err(error) => return Err(error),
            };
            if !(0xdc00 <= second && second <= 0xdfff) {
                return Err(self.error("invalid low surrogate"));
            }
            let codepoint: u32 = 0x1_0000 + (first - 0xd800) * 1024 + (second - 0xdc00);
            return match char::from_u32(codepoint) {
                Some(c) => {
                    proof {
                        vstd::utf8::char_u32_cast(c, codepoint);
                    }
                    Ok(c)
                },
                None => Err(self.error("invalid unicode codepoint")),
            };
        }
        if 0xdc00 <= first && first <= 0xdfff {
            return Err(self.error("unexpected low surrogate"));
        }
        match char::from_u32(first) {
            Some(c) => {
                proof {
                    vstd::utf8::char_u32_cast(c, first);
                }
                Ok(c)
            },
            None => Err(self.error("invalid unicode codepoint")),
        }
    }

    fn escape(&mut self) -> (result: Result<char, ParseError>)
        requires
            old(self).valid(),
        ensures
            final(self).valid(),
            final(self).chars == old(self).chars,
            agrees(
                result,
                final(self).index as int,
                escape_at(old(self).chars@, old(self).index as int),
                |value: char, expected: char| value == expected,
            ),
    {
        if self.index >= self.chars.len() {
            return Err(self.error("unterminated escape"));
        }
        let c = self.chars[self.index];
        if c == 'u' {
            self.index = self.index + 1;
            return self.unicode_escape();
        }
        let meant = if c == '"' || c == '\\' || c == '/' {
            c
        } else if c == 'b' {
            8u8 as char
        } else if c == 'f' {
            12u8 as char
        } else if c == 'n' {
            '\n'
        } else if c == 'r' {
            '\r'
        } else if c == 't' {
            '\t'
        } else {
            let mut error = self.error("unknown string escape");
            proof {
                lemma_byte_length_prefix(self.chars@, self.index as int);
                lemma_byte_length_prefix(self.chars@, self.index + 1);
            }
            error.position = error.position + 1;
            return Err(error);
        };
        self.index = self.index + 1;
        Ok(meant)
    }

    fn string(&mut self) -> (result: Result<String, ParseError>)
        requires
            old(self).valid(),
        ensures
            final(self).valid(),
            final(self).chars == old(self).chars,
            agrees(
                result,
                final(self).index as int,
                string_at(old(self).chars@, old(self).index as int),
                |value: String, expected: Seq<char>| value@ == expected,
            ),
    {
        if !self.consume('"') {
            return Err(self.missing('"'));
        }
        let ghost start = self.index as int;
        let mut value = String::new();
        loop
            invariant
                self.valid(),
                self.chars == old(self).chars,
                string_at(old(self).chars@, old(self).index as int) == string_rest(
                    self.chars@,
                    start,
                    seq![],
                ),
                string_rest(self.chars@, self.index as int, value@) == string_rest(
                    self.chars@,
                    start,
                    seq![],
                ),
            decreases self.chars@.len() - self.index,
        {
            if self.index >= self.chars.len() {
                return Err(self.error("unterminated string"));
            }
            let c = self.chars[self.index];
            let ghost at = self.index as int;
            self.index = self.index + 1;
            if c == '"' {
                return Ok(value);
            } else if c == '\\' {
                proof {
                    lemma_escape_index(self.chars@, at + 1);
                }
                match self.escape() {
                    Ok(meant) => value.push(meant),
                    Err(error) => return Err(error),
                }
            } else if (c as u32) < 0x20 {
                return Err(self.error("control character in string"));
            } else {
                value.push(c);
            }
        }
    }

    fn number(&mut self) -> (result: Result<i64, ParseError>)
        requires
            old(self).valid(),
        ensures
            final(self).valid(),
            final(self).chars == old(self).chars,
            agrees(
                result,
                final(self).index as int,
                number_at(old(self).chars@, old(self).index as int),
                |value: i64, expected: int| value == expected,
            ),
    {
        let start: usize = self.index;
        let signed = self.consume('-');
        let first: usize = self.index;
        if self.consume('0') {
            if self.index < self.chars.len() && digit(self.chars[self.index]) {
                return Err(self.error("leading zeroes are not allowed"));
            }
        } else {
            while self.index < self.chars.len() && digit(self.chars[self.index])
                invariant
                    self.valid(),
                    self.chars == old(self).chars,
                    first <= self.index,
                    digits_end(self.chars@, self.index as int) == digits_end(
                        self.chars@,
                        first as int,
                    ),
                decreases self.chars@.len() - self.index,
            {
                self.index = self.index + 1;
            }
            if self.index == first {
                return Err(self.error("expected digits in number"));
            }
        }
        if self.peeks('.') || self.peeks('e') || self.peeks('E') {
            return Err(self.error("only integer JSON numbers are supported"));
        }
        let numeral = slice_text(&self.chars, start, self.index);
        match parse_i64(&numeral) {
            Ok(value) => Ok(value),
            Err(_) => Err(self.error("integer is out of range")),
        }
    }

    fn literal(&mut self, name: &str, value: Value) -> (result: Result<Value, ParseError>)
        requires
            old(self).valid(),
        ensures
            final(self).valid(),
            final(self).chars == old(self).chars,
            agrees(
                result,
                final(self).index as int,
                literal_at(old(self).chars@, old(self).index as int, name@, value@),
                |value: Value, expected: Json| value@ == expected,
            ),
    {
        let wanted = to_chars(name);
        if wanted.len() > self.chars.len() - self.index {
            return Err(self.error("invalid literal"));
        }
        let mut i: usize = 0;
        while i < wanted.len()
            invariant
                i <= wanted@.len() <= self.chars@.len() - self.index,
                self.valid(),
                *self == *old(self),
                wanted@ == name@,
                forall|j: int| 0 <= j < i ==> wanted@[j] == self.chars@[self.index + j],
            decreases wanted@.len() - i,
        {
            if wanted[i] != self.chars[self.index + i] {
                assert(self.chars@.subrange(
                    self.index as int,
                    self.index + name@.len(),
                )[i as int] != name@[i as int]);
                return Err(self.error("invalid literal"));
            }
            i += 1;
        }
        assert(self.chars@.subrange(self.index as int, self.index + name@.len()) =~= name@);
        self.index = self.index + wanted.len();
        Ok(value)
    }

    fn value_at_depth(&mut self, depth: usize) -> (result: Result<Value, ParseError>)
        requires
            old(self).valid(),
            depth <= MAX_JSON_DEPTH,
        ensures
            final(self).valid(),
            final(self).chars == old(self).chars,
            agrees(
                result,
                final(self).index as int,
                value_at(old(self).chars@, old(self).index as int, depth as nat),
                |value: Value, expected: Json| value@ == expected,
            ),
        decreases MAX_JSON_DEPTH - depth, 1int,
    {
        if depth >= MAX_JSON_DEPTH {
            return Err(self.error("JSON nesting depth exceeds the supported limit"));
        }
        self.whitespace();
        if self.index >= self.chars.len() {
            return Err(self.error("expected a value"));
        }
        let c = self.chars[self.index];
        if c == 'n' {
            self.literal("null", Value::Null)
        } else if c == 't' {
            self.literal("true", Value::Bool(true))
        } else if c == 'f' {
            self.literal("false", Value::Bool(false))
        } else if c == '"' {
            match self.string() {
                Ok(text) => Ok(Value::String(text)),
                Err(error) => Err(error),
            }
        } else if c == '[' {
            self.index = self.index + 1;
            self.whitespace();
            if self.consume(']') {
                let items: Vec<Value> = Vec::new();
                assert(item_views(items@) =~= seq![]);
                return Ok(Value::Array(items));
            }
            self.array(depth)
        } else if c == '{' {
            self.index = self.index + 1;
            self.whitespace();
            if self.consume('}') {
                let fields: Vec<(String, Value)> = Vec::new();
                assert(field_views(fields@) =~= seq![]);
                return Ok(Value::Object(fields));
            }
            self.object(depth)
        } else if c == '-' || digit(c) {
            match self.number() {
                Ok(number) => Ok(Value::Number(number)),
                Err(error) => Err(error),
            }
        } else {
            Err(self.error("unexpected value"))
        }
    }

    fn array(&mut self, depth: usize) -> (result: Result<Value, ParseError>)
        requires
            old(self).valid(),
            depth < MAX_JSON_DEPTH,
        ensures
            final(self).valid(),
            final(self).chars == old(self).chars,
            agrees(
                result,
                final(self).index as int,
                items_at(old(self).chars@, old(self).index as int, depth as nat, seq![]),
                |value: Value, expected: Json| value@ == expected,
            ),
        decreases MAX_JSON_DEPTH - depth, 0int,
    {
        let ghost text = self.chars@;
        let ghost whole = items_at(text, self.index as int, depth as nat, seq![]);
        let mut items: Vec<Value> = Vec::new();
        assert(item_views(items@) =~= seq![]);
        loop
            invariant
                self.valid(),
                self.chars == old(self).chars,
                self.chars@ == text,
                depth < MAX_JSON_DEPTH,
                whole == items_at(old(self).chars@, old(self).index as int, depth as nat, seq![]),
                items_at(text, self.index as int, depth as nat, item_views(items@)) == whole,
            decreases text.len() - self.index,
        {
            let ghost at = self.index as int;
            proof {
                lemma_value_index(text, at, depth as nat + 1);
            }
            let value = match self.value_at_depth(depth + 1) {
                Ok(value) => value,
                Err(error) => return Err(error),
            };
            let ghost before = items@;
            items.push(value);
            assert(items@.drop_last() =~= before);
            proof {
                lemma_skip_space(text, self.index as int);
            }
            self.whitespace();
            if self.consume(']') {
                return Ok(Value::Array(items));
            }
            if !self.consume(',') {
                return Err(self.missing(','));
            }
        }
    }

    fn object(&mut self, depth: usize) -> (result: Result<Value, ParseError>)
        requires
            old(self).valid(),
            depth < MAX_JSON_DEPTH,
        ensures
            final(self).valid(),
            final(self).chars == old(self).chars,
            agrees(
                result,
                final(self).index as int,
                fields_at(old(self).chars@, old(self).index as int, depth as nat, seq![]),
                |value: Value, expected: Json| value@ == expected,
            ),
        decreases MAX_JSON_DEPTH - depth, 0int,
    {
        let ghost text = self.chars@;
        let ghost whole = fields_at(text, self.index as int, depth as nat, seq![]);
        let mut fields: Vec<(String, Value)> = Vec::new();
        assert(field_views(fields@) =~= seq![]);
        loop
            invariant
                self.valid(),
                self.chars == old(self).chars,
                self.chars@ == text,
                depth < MAX_JSON_DEPTH,
                whole == fields_at(old(self).chars@, old(self).index as int, depth as nat, seq![]),
                fields_at(text, self.index as int, depth as nat, field_views(fields@)) == whole,
            decreases text.len() - self.index,
        {
            let ghost at = self.index as int;
            proof {
                lemma_skip_space(text, at);
            }
            self.whitespace();
            proof {
                if self.index < text.len() {
                    lemma_string_index(text, self.index + 1, seq![]);
                }
            }
            let key = match self.string() {
                Ok(key) => key,
                Err(error) => return Err(error),
            };
            proof {
                lemma_skip_space(text, self.index as int);
            }
            self.whitespace();
            if !self.consume(':') {
                return Err(self.missing(':'));
            }
            proof {
                lemma_value_index(text, self.index as int, depth as nat + 1);
            }
            let value = match self.value_at_depth(depth + 1) {
                Ok(value) => value,
                Err(error) => return Err(error),
            };
            let ghost before = fields@;
            fields.push((key, value));
            assert(fields@.drop_last() =~= before);
            proof {
                lemma_skip_space(text, self.index as int);
            }
            self.whitespace();
            if self.consume('}') {
                return Ok(Value::Object(fields));
            }
            if !self.consume(',') {
                return Err(self.missing(','));
            }
        }
    }
}

/// Reads the JSON value that a text holds.
pub fn parse(input: &str) -> (result: Result<Value, ParseError>)
    ensures
        match (result, parse_text(input@)) {
            (Ok(value), Ok(expected)) => value@ == expected,
            (Err(error), Err(expected)) => error@ == expected,
            _ => false,
        },
{
    let bytes: usize = input.as_bytes().len();
    let chars = to_chars(input);
    proof {
        lemma_byte_length_positive(input@);
        assert(byte_length(chars@) == bytes);
    }
    let mut parser = Parser { chars, index: 0 };
    match parser.value_at_depth(0) {
        Err(error) => Err(error),
        Ok(value) => {
            parser.whitespace();
            if parser.index != parser.chars.len() {
                return Err(parser.error("trailing characters"));
            }
            Ok(value)
        },
    }
}

} // verus!
