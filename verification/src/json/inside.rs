//! A text that is read as a value is read as the same value where it stands inside
//! an array or an object.

use crate::json::laws::closes_at;
use crate::json::laws::lemma_no_space;
use crate::json::laws::lemma_part_stands;
use crate::json::laws::lemma_quoted_reads_back;
use crate::json::laws::lemma_stands_char;
use crate::json::laws::lemma_stands_split;
use crate::json::laws::part_start;
use crate::json::laws::printed_value_reads_back;
use crate::json::laws::readable;
use crate::json::laws::stands_at;
use crate::json::parser::char_at;
use crate::json::parser::digits_end;
use crate::json::parser::escape_at;
use crate::json::parser::fields_at;
use crate::json::parser::hex_at;
use crate::json::parser::hex_value;
use crate::json::parser::is_json_space;
use crate::json::parser::items_at;
use crate::json::parser::lemma_digits_end;
use crate::json::parser::lemma_escape_index;
use crate::json::parser::lemma_hex_index;
use crate::json::parser::lemma_skip_space;
use crate::json::parser::lemma_string_index;
use crate::json::parser::lemma_value_index;
use crate::json::parser::number_at;
use crate::json::parser::parse_text;
use crate::json::parser::skip_space;
use crate::json::parser::string_at;
use crate::json::parser::string_rest;
use crate::json::parser::value_at;
use crate::json::parser::ParseErrorView;
use crate::json::parser::Parsed;
use crate::json::parser::MAX_JSON_DEPTH;
use crate::json::value::Json;
use crate::json::writer::array_text;
use crate::json::writer::json_text;
use crate::json::writer::object_text;
use crate::json::writer::quoted;
use crate::numeral::is_digit;
use crate::text::join_text;
use vstd::prelude::*;

verus! {

/// Whether a value inside `depth` arrays and objects, and all that it holds, stands
/// no deeper than values may.
pub open spec fn within_depth(value: Json, depth: nat) -> bool
    decreases value,
{
    depth < MAX_JSON_DEPTH && match value {
        Json::Array(items) => forall|i: int|
            0 <= i < items.len() ==> within_depth(#[trigger] items[i], depth + 1),
        Json::Object(fields) => forall|i: int|
            0 <= i < fields.len() ==> within_depth((#[trigger] fields[i]).1, depth + 1),
        _ => true,
    }
}

/// Whether a part stands at index `at` of a text, in front of the end of a value.
spec fn inside(text: Seq<char>, at: int, part: Seq<char>) -> bool {
    &&& 0 <= at
    &&& at + part.len() <= text.len()
    &&& forall|i: int| 0 <= i < part.len() ==> text[at + i] == #[trigger] part[i]
    &&& closes_at(text, at + part.len())
}

proof fn lemma_inside(text: Seq<char>, at: int, part: Seq<char>)
    requires
        stands_at(text, at, part),
        closes_at(text, at + part.len()),
    ensures
        inside(text, at, part),
{
    assert forall|i: int| 0 <= i < part.len() implies text[at + i] == #[trigger] part[i] by {
        lemma_stands_char(text, at, part, i);
    }
}

proof fn lemma_space_inside(text: Seq<char>, at: int, part: Seq<char>, i: int)
    requires
        inside(text, at, part),
        0 <= i <= part.len(),
    ensures
        skip_space(text, at + i) == at + skip_space(part, i),
        i <= skip_space(part, i) <= part.len(),
        skip_space(part, skip_space(part, i)) == skip_space(part, i),
    decreases part.len() - i,
{
    if i < part.len() && is_json_space(part[i]) {
        assert(text[at + i] == part[i]);
        lemma_space_inside(text, at, part, i + 1);
    } else if i < part.len() {
        assert(text[at + i] == part[i]);
    }
}

proof fn lemma_hex_inside(
    text: Seq<char>,
    at: int,
    part: Seq<char>,
    i: int,
    count: nat,
    value: int,
)
    requires
        inside(text, at, part),
        0 <= i <= part.len(),
    ensures
        hex_at(part, i, count, value) matches Parsed::Done(number, j) ==> hex_at(
            text,
            at + i,
            count,
            value,
        ) == Parsed::Done(number, at + j),
    decreases count,
{
    if count > 0 && i < part.len() {
        assert(text[at + i] == part[i]);
        if hex_value(part[i]) is Some {
            lemma_hex_inside(
                text,
                at,
                part,
                i + 1,
                (count - 1) as nat,
                value * 16 + hex_value(part[i])->0,
            );
        }
    }
}

proof fn lemma_escape_inside(text: Seq<char>, at: int, part: Seq<char>, i: int)
    requires
        inside(text, at, part),
        0 <= i <= part.len(),
    ensures
        escape_at(part, i) matches Parsed::Done(c, j) ==> escape_at(text, at + i)
            == Parsed::Done(c, at + j),
{
    if i < part.len() {
        assert(text[at + i] == part[i]);
        lemma_hex_inside(text, at, part, i + 1, 4, 0);
        lemma_hex_index(part, i + 1, 4, 0);
        if let Parsed::Done(first, j) = hex_at(part, i + 1, 4, 0) {
            if char_at(part, j, '\\') && char_at(part, j + 1, 'u') {
                assert(text[at + j] == part[j]);
                assert(text[at + (j + 1)] == part[j + 1]);
                lemma_hex_inside(text, at, part, j + 2, 4, 0);
            }
        }
    }
}

proof fn lemma_string_inside(
    text: Seq<char>,
    at: int,
    part: Seq<char>,
    i: int,
    read: Seq<char>,
)
    requires
        inside(text, at, part),
        0 <= i <= part.len(),
    ensures
        string_rest(part, i, read) matches Parsed::Done(found, j) ==> string_rest(
            text,
            at + i,
            read,
        ) == Parsed::Done(found, at + j),
    decreases part.len() - i,
{
    if i < part.len() {
        assert(text[at + i] == part[i]);
        if part[i] == '"' {
        } else if part[i] == '\\' {
            lemma_escape_inside(text, at, part, i + 1);
            lemma_escape_index(part, i + 1);
            if let Parsed::Done(c, j) = escape_at(part, i + 1) {
                lemma_string_inside(text, at, part, j, read.push(c));
            }
        } else {
            lemma_string_inside(text, at, part, i + 1, read.push(part[i]));
        }
    }
}

proof fn lemma_digits_inside(text: Seq<char>, at: int, part: Seq<char>, i: int)
    requires
        inside(text, at, part),
        0 <= i <= part.len(),
    ensures
        digits_end(text, at + i) == at + digits_end(part, i),
    decreases part.len() - i,
{
    if i < part.len() {
        assert(text[at + i] == part[i]);
        if is_digit(part[i]) {
            lemma_digits_inside(text, at, part, i + 1);
        }
    }
}

proof fn lemma_number_inside(text: Seq<char>, at: int, part: Seq<char>, i: int)
    requires
        inside(text, at, part),
        0 <= i < part.len(),
    ensures
        number_at(part, i) matches Parsed::Done(number, j) ==> number_at(text, at + i)
            == Parsed::Done(number, at + j),
{
    assert(text[at + i] == part[i]);
    let first = if char_at(part, i, '-') {
        i + 1
    } else {
        i
    };
    lemma_digits_inside(text, at, part, first);
    lemma_digits_end(part, first);
    if first < part.len() {
        assert(text[at + first] == part[first]);
    }
    let end = if char_at(part, first, '0') {
        first + 1
    } else {
        digits_end(part, first)
    };
    if end < part.len() {
        assert(text[at + end] == part[end]);
    }
    if end > first {
        assert(text.subrange(at + i, at + end) =~= part.subrange(i, end));
    }
}

proof fn lemma_literal_inside(
    text: Seq<char>,
    at: int,
    part: Seq<char>,
    i: int,
    name: Seq<char>,
)
    requires
        inside(text, at, part),
        0 <= i,
        i + name.len() <= part.len(),
        part.subrange(i, i + name.len()) == name,
    ensures
        text.subrange(at + i, at + i + name.len()) == name,
{
    assert forall|k: int| 0 <= k < name.len() implies text[at + i + k] == name[k] by {
        assert(part.subrange(i, i + name.len())[k] == name[k]);
        assert(text[at + (i + k)] == part[i + k]);
    }
    assert(text.subrange(at + i, at + i + name.len()) =~= name);
}

proof fn lemma_items_grow(part: Seq<char>, i: int, depth: nat, read: Seq<Json>)
    requires
        0 <= i <= part.len(),
    ensures
        items_at(part, i, depth, read) matches Parsed::Done(value, _) ==> value is Array
            && value->Array_0.len() > read.len() && value->Array_0.take(read.len() as int) == read,
    decreases part.len() - i,
{
    lemma_value_index(part, i, depth + 1);
    if let Parsed::Done(value, j) = value_at(part, i, depth + 1) {
        let k = skip_space(part, j);
        lemma_skip_space(part, j);
        assert(read.push(value).take(read.len() as int) =~= read);
        if !char_at(part, k, ']') && char_at(part, k, ',') {
            lemma_items_grow(part, k + 1, depth, read.push(value));
            if let Parsed::Done(all, _) = items_at(part, k + 1, depth, read.push(value)) {
                assert(all->Array_0.take(read.len() as int) =~= all->Array_0.take(
                    read.len() as int + 1,
                ).take(read.len() as int));
            }
        }
    }
}

proof fn lemma_fields_grow(part: Seq<char>, i: int, depth: nat, read: Seq<(Seq<char>, Json)>)
    requires
        0 <= i <= part.len(),
    ensures
        fields_at(part, i, depth, read) matches Parsed::Done(value, _) ==> value is Object
            && value->Object_0.len() > read.len() && value->Object_0.take(read.len() as int)
            == read,
    decreases part.len() - i,
{
    lemma_skip_space(part, i);
    let start = skip_space(part, i);
    if start < part.len() {
        lemma_string_index(part, start + 1, seq![]);
    }
    if let Parsed::Done(key, a) = string_at(part, start) {
        lemma_skip_space(part, a);
        let b = skip_space(part, a);
        if char_at(part, b, ':') {
            lemma_value_index(part, b + 1, depth + 1);
            if let Parsed::Done(value, j) = value_at(part, b + 1, depth + 1) {
                let k = skip_space(part, j);
                lemma_skip_space(part, j);
                let more = read.push((key, value));
                assert(more.take(read.len() as int) =~= read);
                if !char_at(part, k, '}') && char_at(part, k, ',') {
                    lemma_fields_grow(part, k + 1, depth, more);
                    if let Parsed::Done(all, _) = fields_at(part, k + 1, depth, more) {
                        assert(all->Object_0.take(read.len() as int) =~= all->Object_0.take(
                            read.len() as int + 1,
                        ).take(read.len() as int));
                    }
                }
            }
        }
    }
}

proof fn lemma_value_inside(
    text: Seq<char>,
    at: int,
    part: Seq<char>,
    i: int,
    depth: nat,
    inner: nat,
)
    requires
        inside(text, at, part),
        0 <= i <= part.len(),
        value_at(part, i, depth) matches Parsed::Done(value, _) && within_depth(value, inner),
    ensures
        value_at(part, i, depth) matches Parsed::Done(value, j) && value_at(text, at + i, inner)
            == Parsed::Done(value, at + j),
    decreases part.len() - i, 0int,
{
    lemma_space_inside(text, at, part, i);
    let k = skip_space(part, i);
    assert(text[at + k] == part[k]);
    reveal_strlit("null");
    reveal_strlit("true");
    reveal_strlit("false");
    let c = part[k];
    if c == 'n' {
        lemma_literal_inside(text, at, part, k, "null"@);
    } else if c == 't' {
        lemma_literal_inside(text, at, part, k, "true"@);
    } else if c == 'f' {
        lemma_literal_inside(text, at, part, k, "false"@);
    } else if c == '"' {
        lemma_string_inside(text, at, part, k + 1, seq![]);
    } else if c == '[' {
        lemma_space_inside(text, at, part, k + 1);
        let first = skip_space(part, k + 1);
        if first < part.len() {
            assert(text[at + first] == part[first]);
        }
        if !char_at(part, first, ']') {
            lemma_value_index(part, first, depth + 1);
            lemma_items_inside(text, at, part, first, depth, inner, seq![]);
        }
    } else if c == '{' {
        lemma_space_inside(text, at, part, k + 1);
        let first = skip_space(part, k + 1);
        if first < part.len() {
            assert(text[at + first] == part[first]);
        }
        if !char_at(part, first, '}') {
            lemma_fields_inside(text, at, part, first, depth, inner, seq![]);
        }
    } else {
        lemma_number_inside(text, at, part, k);
    }
}

proof fn lemma_items_inside(
    text: Seq<char>,
    at: int,
    part: Seq<char>,
    i: int,
    depth: nat,
    inner: nat,
    read: Seq<Json>,
)
    requires
        inside(text, at, part),
        0 <= i <= part.len(),
        items_at(part, i, depth, read) matches Parsed::Done(value, _) && within_depth(
            value,
            inner,
        ),
    ensures
        items_at(part, i, depth, read) matches Parsed::Done(value, j) && items_at(
            text,
            at + i,
            inner,
            read,
        ) == Parsed::Done(value, at + j),
    decreases part.len() - i, 1int,
{
    lemma_items_grow(part, i, depth, read);
    lemma_value_index(part, i, depth + 1);
    let all = items_at(part, i, depth, read)->Done_0;
    let value = value_at(part, i, depth + 1)->Done_0;
    let j = value_at(part, i, depth + 1)->Done_1;
    lemma_space_inside(text, at, part, j);
    let k = skip_space(part, j);
    assert(text[at + k] == part[k]);
    assert(read.push(value)[read.len() as int] == value);
    if !char_at(part, k, ']') {
        lemma_items_grow(part, k + 1, depth, read.push(value));
        assert(all->Array_0.take(read.len() as int + 1)[read.len() as int] == value);
    }
    assert(all->Array_0[read.len() as int] == value);
    assert(within_depth(all->Array_0[read.len() as int], inner + 1));
    lemma_value_inside(text, at, part, i, depth + 1, inner + 1);
    if !char_at(part, k, ']') {
        lemma_items_inside(text, at, part, k + 1, depth, inner, read.push(value));
    }
}

proof fn lemma_fields_inside(
    text: Seq<char>,
    at: int,
    part: Seq<char>,
    i: int,
    depth: nat,
    inner: nat,
    read: Seq<(Seq<char>, Json)>,
)
    requires
        inside(text, at, part),
        0 <= i <= part.len(),
        fields_at(part, i, depth, read) matches Parsed::Done(value, _) && within_depth(
            value,
            inner,
        ),
    ensures
        fields_at(part, i, depth, read) matches Parsed::Done(value, j) && fields_at(
            text,
            at + i,
            inner,
            read,
        ) == Parsed::Done(value, at + j),
    decreases part.len() - i, 1int,
{
    lemma_space_inside(text, at, part, i);
    let start = skip_space(part, i);
    assert(text[at + start] == part[start]);
    lemma_string_inside(text, at, part, start + 1, seq![]);
    lemma_string_index(part, start + 1, seq![]);
    let key = string_at(part, start)->Done_0;
    let a = string_at(part, start)->Done_1;
    lemma_space_inside(text, at, part, a);
    let b = skip_space(part, a);
    assert(text[at + b] == part[b]);
    lemma_fields_grow(part, i, depth, read);
    lemma_value_index(part, b + 1, depth + 1);
    let all = fields_at(part, i, depth, read)->Done_0;
    let value = value_at(part, b + 1, depth + 1)->Done_0;
    let j = value_at(part, b + 1, depth + 1)->Done_1;
    lemma_space_inside(text, at, part, j);
    let k = skip_space(part, j);
    assert(text[at + k] == part[k]);
    let more = read.push((key, value));
    assert(more[read.len() as int] == (key, value));
    if !char_at(part, k, '}') {
        lemma_fields_grow(part, k + 1, depth, more);
        assert(all->Object_0.take(read.len() as int + 1)[read.len() as int] == (key, value));
    }
    assert(all->Object_0[read.len() as int] == (key, value));
    assert(within_depth(all->Object_0[read.len() as int].1, inner + 1));
    lemma_value_inside(text, at, part, b + 1, depth + 1, inner + 1);
    if !char_at(part, k, '}') {
        lemma_fields_inside(text, at, part, k + 1, depth, inner, more);
    }
}

/// Whether each of some texts is read as a value that may stand inside an array or
/// an object.
pub open spec fn read_as(texts: Seq<Seq<char>>, values: Seq<Json>) -> bool {
    &&& texts.len() == values.len()
    &&& forall|i: int|
        #![trigger texts[i]]
        #![trigger values[i]]
        0 <= i < texts.len() ==> parse_text(texts[i]) == Ok::<Json, ParseErrorView>(values[i])
            && within_depth(values[i], 1)
}

/// A text that is read as a value is read as that value inside an array or an
/// object, and what is after it closes it.
proof fn lemma_text_inside(text: Seq<char>, at: int, part: Seq<char>, value: Json)
    requires
        stands_at(text, at, part),
        closes_at(text, at + part.len()),
        parse_text(part) == Ok::<Json, ParseErrorView>(value),
        within_depth(value, 1),
    ensures
        value_at(text, at, 1) matches Parsed::Done(found, j) && found == value && at < j
            && skip_space(text, j) == at + part.len() && j <= text.len(),
        skip_space(text, at) < at + part.len(),
        value_at(text, skip_space(text, at), 1) == value_at(text, at, 1),
        !char_at(text, skip_space(text, at), ']'),
        !char_at(text, skip_space(text, at), '}'),
{
    lemma_inside(text, at, part);
    lemma_value_inside(text, at, part, 0, 0, 1);
    lemma_value_index(part, 0, 0);
    let j = value_at(part, 0, 0)->Done_1;
    lemma_space_inside(text, at, part, j);
    lemma_space_inside(text, at, part, 0);
    let k = skip_space(part, 0);
    lemma_space_inside(text, at, part, k);
    assert(text[at + k] == part[k]);
}

proof fn lemma_items_of_texts(
    text: Seq<char>,
    start: int,
    texts: Seq<Seq<char>>,
    values: Seq<Json>,
    k: int,
)
    requires
        0 <= k < texts.len(),
        read_as(texts, values),
        stands_at(text, start, join_text(texts, ","@)),
        char_at(text, start + join_text(texts, ","@).len(), ']'),
    ensures
        items_at(text, start + part_start(texts, k), 0, values.take(k)) == Parsed::Done(
            Json::Array(values),
            start + join_text(texts, ","@).len() + 1,
        ),
    decreases texts.len() - k,
{
    lemma_part_stands(text, start, texts, k);
    let at = start + part_start(texts, k);
    lemma_text_inside(text, at, texts[k], values[k]);
    assert(values.take(k).push(values[k]) =~= values.take(k + 1));
    if k + 1 < texts.len() {
        lemma_items_of_texts(text, start, texts, values, k + 1);
    } else {
        assert(values.take(k + 1) =~= values);
    }
}

/// An array made of texts that are read as values is read as the array of these
/// values, in their order. Made of no texts, it is a pair of brackets.
pub proof fn array_of_texts_reads_back(texts: Seq<Seq<char>>, values: Seq<Json>)
    requires
        read_as(texts, values),
    ensures
        parse_text(array_text(texts)) == Ok::<Json, ParseErrorView>(Json::Array(values)),
        texts.len() == 0 ==> array_text(texts) == "[]"@,
{
    reveal_strlit("[");
    reveal_strlit("]");
    reveal_strlit("[]");
    let text = array_text(texts);
    let inner = join_text(texts, ","@);
    assert(text.subrange(0, text.len() as int) =~= text);
    assert(text =~= "["@ + (inner + "]"@));
    lemma_stands_split(text, 0, "["@, inner + "]"@);
    lemma_stands_split(text, 1, inner, "]"@);
    lemma_stands_char(text, 0, "["@, 0);
    lemma_stands_char(text, 1 + inner.len() as int, "]"@, 0);
    lemma_no_space(text, 0);
    if texts.len() == 0 {
        assert(values =~= seq![]);
        lemma_no_space(text, 1);
        assert(text =~= "[]"@);
    } else {
        assert(values.take(0) =~= seq![]);
        lemma_items_of_texts(text, 1, texts, values, 0);
        lemma_part_stands(text, 1, texts, 0);
        lemma_text_inside(text, 1, texts[0], values[0]);
        lemma_skip_space(text, 1);
        let first = skip_space(text, 1);
        lemma_value_index(text, first, 1);
        assert(items_at(text, first, 0, seq![]) == items_at(text, 1, 0, seq![]));
    }
}

/// Fields made of keys and of the texts of their values.
pub open spec fn keyed_texts(keys: Seq<Seq<char>>, texts: Seq<Seq<char>>) -> Seq<Seq<char>> {
    Seq::new(keys.len(), |i: int| quoted(keys[i]) + ":"@ + texts[i])
}

/// Fields made of keys and values.
pub open spec fn keyed_values(keys: Seq<Seq<char>>, values: Seq<Json>) -> Seq<(Seq<char>, Json)> {
    Seq::new(keys.len(), |i: int| (keys[i], values[i]))
}

proof fn lemma_field_of_text(
    text: Seq<char>,
    at: int,
    key: Seq<char>,
    part: Seq<char>,
    value: Json,
    read: Seq<(Seq<char>, Json)>,
)
    requires
        stands_at(text, at, quoted(key) + ":"@ + part),
        closes_at(text, at + (quoted(key) + ":"@ + part).len()),
        parse_text(part) == Ok::<Json, ParseErrorView>(value),
        within_depth(value, 1),
    ensures
        ({
            let end = at + (quoted(key) + ":"@ + part).len();
            let more = read.push((key, value));
            &&& char_at(text, end, '}') ==> fields_at(text, at, 0, read) == Parsed::Done(
                Json::Object(more),
                end + 1,
            )
            &&& char_at(text, end, ',') ==> fields_at(text, at, 0, read) == fields_at(
                text,
                end + 1,
                0,
                more,
            )
        }),
{
    reveal_strlit(":");
    assert(quoted(key) + ":"@ + part =~= quoted(key) + (":"@ + part));
    lemma_stands_split(text, at, quoted(key), ":"@ + part);
    let colon = at + quoted(key).len();
    lemma_stands_split(text, colon, ":"@, part);
    lemma_stands_char(text, colon, ":"@, 0);
    lemma_quoted_reads_back(text, at, key);
    lemma_no_space(text, at);
    lemma_no_space(text, colon);
    lemma_text_inside(text, colon + 1, part, value);
}

proof fn lemma_fields_of_texts(
    text: Seq<char>,
    start: int,
    keys: Seq<Seq<char>>,
    texts: Seq<Seq<char>>,
    values: Seq<Json>,
    k: int,
)
    requires
        0 <= k < texts.len(),
        keys.len() == texts.len(),
        read_as(texts, values),
        stands_at(text, start, join_text(keyed_texts(keys, texts), ","@)),
        char_at(text, start + join_text(keyed_texts(keys, texts), ","@).len(), '}'),
    ensures
        fields_at(
            text,
            start + part_start(keyed_texts(keys, texts), k),
            0,
            keyed_values(keys, values).take(k),
        ) == Parsed::Done(
            Json::Object(keyed_values(keys, values)),
            start + join_text(keyed_texts(keys, texts), ","@).len() + 1,
        ),
    decreases texts.len() - k,
{
    let parts = keyed_texts(keys, texts);
    let fields = keyed_values(keys, values);
    lemma_part_stands(text, start, parts, k);
    let at = start + part_start(parts, k);
    lemma_field_of_text(text, at, keys[k], texts[k], values[k], fields.take(k));
    assert(fields.take(k).push(fields[k]) =~= fields.take(k + 1));
    if k + 1 < texts.len() {
        lemma_fields_of_texts(text, start, keys, texts, values, k + 1);
    } else {
        assert(fields.take(k + 1) =~= fields);
    }
}

proof fn lemma_object_around(text: Seq<char>, value: Json)
    requires
        text.len() > 1,
        text[0] == '{',
        !is_json_space(text[1]),
        text[1] != '}',
        fields_at(text, 1, 0, seq![]) == Parsed::Done(value, text.len() as int),
    ensures
        parse_text(text) == Ok::<Json, ParseErrorView>(value),
{
    lemma_no_space(text, 0);
    lemma_no_space(text, 1);
}

/// An object made of keys and of texts that are read as values is read as the
/// object with these values under these keys, in their order.
pub proof fn object_of_texts_reads_back(
    keys: Seq<Seq<char>>,
    texts: Seq<Seq<char>>,
    values: Seq<Json>,
)
    requires
        keys.len() == texts.len(),
        read_as(texts, values),
    ensures
        parse_text(object_text(keyed_texts(keys, texts))) == Ok::<Json, ParseErrorView>(
            Json::Object(keyed_values(keys, values)),
        ),
{
    reveal_strlit("{");
    reveal_strlit("}");
    let parts = keyed_texts(keys, texts);
    let fields = keyed_values(keys, values);
    let text = object_text(parts);
    let inner = join_text(parts, ","@);
    assert(text.subrange(0, text.len() as int) =~= text);
    assert(text =~= "{"@ + (inner + "}"@));
    lemma_stands_split(text, 0, "{"@, inner + "}"@);
    lemma_stands_split(text, 1, inner, "}"@);
    lemma_stands_char(text, 0, "{"@, 0);
    lemma_stands_char(text, 1 + inner.len() as int, "}"@, 0);
    if texts.len() == 0 {
        assert(fields =~= seq![]);
        lemma_no_space(text, 0);
        lemma_no_space(text, 1);
    } else {
        assert(fields.take(0) =~= seq![]);
        lemma_fields_of_texts(text, 1, keys, texts, values, 0);
        lemma_part_stands(text, 1, parts, 0);
        assert(parts[0][0] == '"');
        lemma_stands_char(text, 1, parts[0], 0);
        lemma_object_around(text, Json::Object(fields));
    }
}

/// Whether a text is read as a value.
#[verifier::opaque]
pub open spec fn reads_as(text: Seq<char>, value: Json) -> bool {
    parse_text(text) == Ok::<Json, ParseErrorView>(value)
}

pub proof fn lemma_printed_reads_as(value: Json)
    requires
        readable(value, 0),
    ensures
        reads_as(json_text(value), value),
{
    reveal(reads_as);
    printed_value_reads_back(value);
}

pub proof fn lemma_object_reads_as(
    keys: Seq<Seq<char>>,
    texts: Seq<Seq<char>>,
    values: Seq<Json>,
)
    requires
        keys.len() == texts.len(),
        texts.len() == values.len(),
        forall|i: int| 0 <= i < texts.len() ==> reads_as(#[trigger] texts[i], values[i]),
        forall|i: int| 0 <= i < values.len() ==> within_depth(#[trigger] values[i], 1),
    ensures
        reads_as(
            object_text(keyed_texts(keys, texts)),
            Json::Object(keyed_values(keys, values)),
        ),
{
    reveal(reads_as);
    assert(read_as(texts, values)) by {
        assert forall|i: int|
            #![trigger texts[i]]
            #![trigger values[i]]
            0 <= i < texts.len() implies parse_text(texts[i]) == Ok::<Json, ParseErrorView>(
            values[i],
        ) && within_depth(values[i], 1) by {
            assert(reads_as(texts[i], values[i]));
        }
    }
    object_of_texts_reads_back(keys, texts, values);
}

} // verus!
