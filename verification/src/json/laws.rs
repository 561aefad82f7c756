//! What is printed is read back.

use crate::json::parser::char_at;
use crate::json::parser::digits_end;
use crate::json::parser::escape_at;
use crate::json::parser::fields_at;
use crate::json::parser::hex_at;
use crate::json::parser::hex_value;
use crate::json::parser::is_json_space;
use crate::json::parser::items_at;
use crate::json::parser::number_at;
use crate::json::parser::parse_text;
use crate::json::parser::skip_space;
use crate::json::parser::string_at;
use crate::json::parser::string_rest;
use crate::json::parser::value_at;
use crate::json::parser::Parsed;
use crate::json::parser::ParseErrorView;
use crate::json::parser::MAX_JSON_DEPTH;
use crate::json::value::Json;
use crate::json::writer::escape_char;
use crate::json::writer::escaped;
use crate::json::writer::field_text;
use crate::json::writer::field_texts;
use crate::json::writer::item_texts;
use crate::json::writer::json_text;
use crate::json::writer::lemma_field_texts;
use crate::json::writer::lemma_item_texts;
use crate::json::writer::quoted;
use crate::numeral::decimal;
use crate::numeral::decimal_reads_back;
use crate::numeral::digit_char;
use crate::numeral::hex_digits;
use crate::numeral::is_digit;
use crate::numeral::signed_decimal;
use crate::numeral::signed_decimal_reads_back;
use crate::text::join_text;
use vstd::prelude::*;

verus! {

/// Whether a value inside `depth` arrays and objects can be read: its numbers
/// fit in 64 bits and nothing in it stands deeper than the supported limit.
pub open spec fn readable(value: Json, depth: nat) -> bool
    decreases value,
{
    depth < MAX_JSON_DEPTH && match value {
        Json::Number(number) => i64::MIN <= number <= i64::MAX,
        Json::Array(items) => forall|i: int|
            0 <= i < items.len() ==> readable(#[trigger] items[i], depth + 1),
        Json::Object(fields) => forall|i: int|
            0 <= i < fields.len() ==> readable((#[trigger] fields[i]).1, depth + 1),
        _ => true,
    }
}

/// Whether `part` stands at index `i` of a text.
pub open spec fn stands_at(text: Seq<char>, i: int, part: Seq<char>) -> bool {
    0 <= i && i + part.len() <= text.len() && text.subrange(i, i + part.len()) == part
}

/// Whether a value may end in front of index `i`.
pub open spec fn closes_at(text: Seq<char>, i: int) -> bool {
    i == text.len() || char_at(text, i, ',') || char_at(text, i, ']') || char_at(text, i, '}')
}

pub proof fn lemma_stands_split(text: Seq<char>, i: int, first: Seq<char>, second: Seq<char>)
    requires
        stands_at(text, i, first + second),
    ensures
        stands_at(text, i, first),
        stands_at(text, i + first.len(), second),
{
    let both = first + second;
    let found = text.subrange(i, i + both.len());
    assert forall|j: int| 0 <= j < first.len() implies text[i + j] == first[j] by {
        assert(found[j] == both[j]);
    }
    assert forall|j: int| 0 <= j < second.len() implies text[i + first.len() + j] == second[j] by {
        assert(found[first.len() + j] == both[first.len() + j]);
    }
    assert(text.subrange(i, i + first.len()) =~= first);
    assert(text.subrange(i + first.len(), i + first.len() + second.len()) =~= second);
}

pub proof fn lemma_stands_char(text: Seq<char>, i: int, part: Seq<char>, j: int)
    requires
        stands_at(text, i, part),
        0 <= j < part.len(),
    ensures
        char_at(text, i + j, part[j]),
{
    assert(text.subrange(i, i + part.len())[j] == part[j]);
}

proof fn lemma_hex_reads_back(text: Seq<char>, i: int, number: nat)
    requires
        stands_at(text, i, hex_digits(number, 4)),
        number < 0x1_0000,
    ensures
        hex_digits(number, 4).len() == 4,
        hex_at(text, i, 4, 0) == Parsed::Done(number as int, i + 4),
{
    reveal_with_fuel(hex_digits, 5);
    reveal_with_fuel(hex_at, 5);
    let digits = hex_digits(number, 4);
    assert(digits.len() == 4);
    let a = number / 16 / 16 / 16 % 16;
    let b = number / 16 / 16 % 16;
    let c = number / 16 % 16;
    let d = number % 16;
    assert(digits[0] == digit_char(a) && digits[1] == digit_char(b) && digits[2] == digit_char(c)
        && digits[3] == digit_char(d));
    lemma_stands_char(text, i, digits, 0);
    lemma_stands_char(text, i, digits, 1);
    lemma_stands_char(text, i, digits, 2);
    lemma_stands_char(text, i, digits, 3);
    assert(hex_value(digit_char(a)) == Some(a as int));
    assert(hex_value(digit_char(b)) == Some(b as int));
    assert(hex_value(digit_char(c)) == Some(c as int));
    assert(hex_value(digit_char(d)) == Some(d as int));
    assert(((a * 16 + b) * 16 + c) * 16 + d == number);
}

proof fn lemma_string_reads_back(text: Seq<char>, i: int, value: Seq<char>, read: Seq<char>)
    requires
        stands_at(text, i, escaped(value)),
        char_at(text, i + escaped(value).len(), '"'),
    ensures
        string_rest(text, i, read) == Parsed::Done(read + value, i + escaped(value).len() + 1),
    decreases value.len(),
{
    if value.len() == 0 {
        assert(read + value =~= read);
    } else {
        let c = value[0];
        let first = escape_char(c);
        let rest = value.drop_first();
        lemma_stands_split(text, i, first, escaped(rest));
        lemma_string_reads_back(text, i + first.len(), rest, read.push(c));
        assert(read.push(c) + rest =~= read + value);
        lemma_stands_char(text, i, first, 0);
        if first.len() > 1 {
            lemma_stands_char(text, i, first, 1);
            if first[1] == 'u' {
                lemma_stands_split(text, i, seq!['\\', 'u'], hex_digits(c as u32 as nat, 4));
                lemma_hex_reads_back(text, i + 2, c as u32 as nat);
                vstd::utf8::char_u32_cast(c, c as u32);
            }
            vstd::utf8::char_u32_cast(c, c as u32);
            assert(escape_at(text, i + 1) == Parsed::Done(c, i + first.len()));
        }
    }
}

pub proof fn lemma_quoted_reads_back(text: Seq<char>, i: int, value: Seq<char>)
    requires
        stands_at(text, i, quoted(value)),
    ensures
        string_at(text, i) == Parsed::Done(value, i + quoted(value).len()),
        char_at(text, i, '"'),
{
    let open = seq!['"'];
    let inner = escaped(value);
    assert(quoted(value) =~= open + (inner + open));
    lemma_stands_split(text, i, open, inner + open);
    lemma_stands_split(text, i + 1, inner, open);
    lemma_stands_char(text, i, open, 0);
    lemma_stands_char(text, i + 1 + inner.len(), open, 0);
    lemma_string_reads_back(text, i + 1, value, seq![]);
    assert(Seq::<char>::empty() + value =~= value);
}

proof fn lemma_digits_end_at(text: Seq<char>, i: int, end: int)
    requires
        0 <= i <= end <= text.len(),
        forall|j: int| i <= j < end ==> is_digit(#[trigger] text[j]),
        end == text.len() || !is_digit(text[end]),
    ensures
        digits_end(text, i) == end,
    decreases end - i,
{
    if i < end {
        assert(is_digit(text[i]));
        lemma_digits_end_at(text, i + 1, end);
    }
}

proof fn lemma_number_reads_back(text: Seq<char>, i: int, number: int)
    requires
        stands_at(text, i, signed_decimal(number)),
        i64::MIN <= number <= i64::MAX,
        closes_at(text, i + signed_decimal(number).len()),
    ensures
        number_at(text, i) == Parsed::Done(number, i + signed_decimal(number).len()),
        signed_decimal(number).len() > 0,
        text[i] == '-' || is_digit(text[i]),
{
    let numeral = signed_decimal(number);
    let magnitude = (if number < 0 {
        -number
    } else {
        number
    }) as nat;
    let digits = decimal(magnitude);
    let sign = if number < 0 {
        seq!['-']
    } else {
        seq![]
    };
    assert(numeral =~= sign + digits);
    decimal_reads_back(magnitude, magnitude);
    lemma_stands_split(text, i, sign, digits);
    let first = i + sign.len();
    let end = i + numeral.len();
    assert forall|j: int| first <= j < end implies is_digit(#[trigger] text[j]) by {
        lemma_stands_char(text, first, digits, j - first);
    }
    assert(is_digit(text[first]));
    if number < 0 {
        lemma_stands_char(text, i, sign, 0);
    }
    assert(end == text.len() || !is_digit(text[end]));
    lemma_digits_end_at(text, first, end);
    lemma_stands_char(text, first, digits, 0);
    signed_decimal_reads_back(number);
    assert(text.subrange(i, end) == numeral);
    if char_at(text, first, '0') {
        assert(magnitude == 0);
        assert(end == first + 1);
    }
}

/// Where the part with index `k` begins in a text joined with commas.
pub open spec fn part_start(parts: Seq<Seq<char>>, k: int) -> int {
    if k == 0 {
        0
    } else {
        join_text(parts.take(k), ","@).len() as int + 1
    }
}

proof fn lemma_join_prefix(text: Seq<char>, i: int, parts: Seq<Seq<char>>, k: int)
    requires
        0 < k <= parts.len(),
        stands_at(text, i, join_text(parts, ","@)),
    ensures
        stands_at(text, i, join_text(parts.take(k), ","@)),
        k < parts.len() ==> char_at(text, i + join_text(parts.take(k), ","@).len(), ','),
    decreases parts.len(),
{
    reveal_strlit(",");
    if k == parts.len() {
        assert(parts.take(k) =~= parts);
    } else {
        let shorter = parts.drop_last();
        let before = join_text(shorter, ","@);
        assert(join_text(parts, ","@) =~= before + (","@ + parts.last()));
        lemma_stands_split(text, i, before, ","@ + parts.last());
        lemma_join_prefix(text, i, shorter, k);
        assert(shorter.take(k) =~= parts.take(k));
        if k == shorter.len() {
            assert(parts.take(k) =~= shorter);
            lemma_stands_split(text, i + before.len(), ","@, parts.last());
            lemma_stands_char(text, i + before.len(), ","@, 0);
        }
    }
}

/// The part with index `k` stands where it begins; a comma follows it, unless it
/// is the last.
pub proof fn lemma_part_stands(text: Seq<char>, i: int, parts: Seq<Seq<char>>, k: int)
    requires
        0 <= k < parts.len(),
        stands_at(text, i, join_text(parts, ","@)),
    ensures
        stands_at(text, i + part_start(parts, k), parts[k]),
        k + 1 < parts.len() ==> part_start(
            parts,
            k + 1,
        ) == part_start(parts, k) + parts[k].len() + 1,
        k + 1 < parts.len() ==> char_at(text, i + part_start(parts, k) + parts[k].len(), ','),
        k + 1 == parts.len() ==> part_start(parts, k) + parts[k].len() == join_text(
            parts,
            ","@,
        ).len(),
{
    reveal_strlit(",");
    let upto = parts.take(k + 1);
    lemma_join_prefix(text, i, parts, k + 1);
    assert(upto.drop_last() =~= parts.take(k));
    assert(upto.last() == parts[k]);
    if k > 0 {
        let before = join_text(parts.take(k), ","@) + ","@;
        assert(join_text(upto, ","@) =~= before + parts[k]);
        lemma_stands_split(text, i, before, parts[k]);
    } else {
        assert(join_text(upto, ","@) == parts[0]);
    }
    if k + 1 == parts.len() {
        assert(upto =~= parts);
    }
}

pub proof fn lemma_no_space(text: Seq<char>, i: int)
    requires
        0 <= i < text.len(),
        !is_json_space(text[i]),
    ensures
        skip_space(text, i) == i,
{
}

proof fn lemma_value_reads_back(text: Seq<char>, i: int, value: Json, depth: nat)
    requires
        stands_at(text, i, json_text(value)),
        closes_at(text, i + json_text(value).len()),
        readable(value, depth),
    ensures
        value_at(text, i, depth) == Parsed::Done(value, i + json_text(value).len()),
        0 < json_text(value).len(),
    decreases value, 0int,
{
    let printed = json_text(value);
    reveal_strlit("null");
    reveal_strlit("true");
    reveal_strlit("false");
    match value {
        Json::Null => {
            lemma_stands_char(text, i, printed, 0);
        },
        Json::Bool(truth) => {
            lemma_stands_char(text, i, printed, 0);
        },
        Json::Number(number) => {
            lemma_number_reads_back(text, i, number);
            lemma_no_space(text, i);
        },
        Json::Str(inner) => {
            lemma_quoted_reads_back(text, i, inner);
            lemma_no_space(text, i);
        },
        Json::Array(items) => {
            lemma_array_reads_back(text, i, items, depth);
        },
        Json::Object(fields) => {
            lemma_object_reads_back(text, i, fields, depth);
        },
    }
}

proof fn lemma_array_reads_back(text: Seq<char>, i: int, items: Seq<Json>, depth: nat)
    requires
        stands_at(text, i, json_text(Json::Array(items))),
        depth < MAX_JSON_DEPTH,
        forall|j: int| 0 <= j < items.len() ==> readable(#[trigger] items[j], depth + 1),
    ensures
        value_at(text, i, depth) == Parsed::Done(
            Json::Array(items),
            i + json_text(Json::Array(items)).len(),
        ),
        0 < json_text(Json::Array(items)).len(),
    decreases items, items.len() + 1,
{
    reveal_strlit("[");
    reveal_strlit("]");
    let printed = json_text(Json::Array(items));
    let parts = item_texts(items);
    let inner = join_text(parts, ","@);
    lemma_item_texts(items);
    assert(printed =~= "["@ + (inner + "]"@));
    lemma_stands_split(text, i, "["@, inner + "]"@);
    lemma_stands_split(text, i + 1, inner, "]"@);
    lemma_stands_char(text, i, "["@, 0);
    lemma_stands_char(text, i + 1 + inner.len(), "]"@, 0);
    lemma_no_space(text, i);
    if items.len() == 0 {
        assert(items =~= seq![]);
        lemma_no_space(text, i + 1);
    } else {
        lemma_items_read_back(text, i + 1, items, 0, depth);
        assert(items.take(0) =~= seq![]);
        lemma_part_stands(text, i + 1, parts, 0);
        assert(readable(items[0], depth + 1));
        lemma_printed_start(items[0]);
        lemma_stands_char(text, i + 1, parts[0], 0);
        lemma_no_space(text, i + 1);
    }
}

proof fn lemma_object_reads_back(
    text: Seq<char>,
    i: int,
    fields: Seq<(Seq<char>, Json)>,
    depth: nat,
)
    requires
        stands_at(text, i, json_text(Json::Object(fields))),
        depth < MAX_JSON_DEPTH,
        forall|j: int| 0 <= j < fields.len() ==> readable((#[trigger] fields[j]).1, depth + 1),
    ensures
        value_at(text, i, depth) == Parsed::Done(
            Json::Object(fields),
            i + json_text(Json::Object(fields)).len(),
        ),
        0 < json_text(Json::Object(fields)).len(),
    decreases fields, fields.len() + 1,
{
    reveal_strlit("{");
    reveal_strlit("}");
    let printed = json_text(Json::Object(fields));
    let parts = field_texts(fields);
    let inner = join_text(parts, ","@);
    lemma_field_texts(fields);
    assert(printed =~= "{"@ + (inner + "}"@));
    lemma_stands_split(text, i, "{"@, inner + "}"@);
    lemma_stands_split(text, i + 1, inner, "}"@);
    lemma_stands_char(text, i, "{"@, 0);
    lemma_stands_char(text, i + 1 + inner.len(), "}"@, 0);
    lemma_no_space(text, i);
    if fields.len() == 0 {
        assert(fields =~= seq![]);
        lemma_no_space(text, i + 1);
    } else {
        lemma_fields_read_back(text, i + 1, fields, 0, depth);
        assert(fields.take(0) =~= seq![]);
        lemma_part_stands(text, i + 1, parts, 0);
        assert(field_text(fields[0])[0] == '"');
        lemma_stands_char(text, i + 1, parts[0], 0);
        lemma_no_space(text, i + 1);
    }
}

proof fn lemma_printed_start(value: Json)
    ensures
        json_text(value).len() > 0,
        !is_json_space(json_text(value)[0]),
        json_text(value)[0] != ']',
{
    reveal_strlit("null");
    reveal_strlit("true");
    reveal_strlit("false");
    reveal_strlit("[");
    reveal_strlit("{");
    if let Json::Number(number) = value {
        let magnitude = (if number < 0 {
            -number
        } else {
            number
        }) as nat;
        decimal_reads_back(magnitude, magnitude);
        assert(is_digit(decimal(magnitude)[0]));
    }
}

proof fn lemma_items_read_back(text: Seq<char>, start: int, items: Seq<Json>, k: int, depth: nat)
    requires
        0 <= k < items.len(),
        stands_at(text, start, join_text(item_texts(items), ","@)),
        char_at(text, start + join_text(item_texts(items), ","@).len(), ']'),
        forall|j: int| 0 <= j < items.len() ==> readable(#[trigger] items[j], depth + 1),
    ensures
        items_at(text, start + part_start(item_texts(items), k), depth, items.take(k))
            == Parsed::Done(
            Json::Array(items),
            start + join_text(item_texts(items), ","@).len() + 1,
        ),
    decreases items, items.len() - k,
{
    let parts = item_texts(items);
    lemma_item_texts(items);
    lemma_part_stands(text, start, parts, k);
    let at = start + part_start(parts, k);
    assert(readable(items[k], depth + 1));
    lemma_value_reads_back(text, at, items[k], depth + 1);
    let after = at + parts[k].len();
    lemma_no_space(text, after);
    assert(items.take(k).push(items[k]) =~= items.take(k + 1));
    if k + 1 < items.len() {
        lemma_items_read_back(text, start, items, k + 1, depth);
    } else {
        assert(items.take(k + 1) =~= items);
    }
}

proof fn lemma_fields_read_back(
    text: Seq<char>,
    start: int,
    fields: Seq<(Seq<char>, Json)>,
    k: int,
    depth: nat,
)
    requires
        0 <= k < fields.len(),
        stands_at(text, start, join_text(field_texts(fields), ","@)),
        char_at(text, start + join_text(field_texts(fields), ","@).len(), '}'),
        forall|j: int| 0 <= j < fields.len() ==> readable((#[trigger] fields[j]).1, depth + 1),
    ensures
        fields_at(text, start + part_start(field_texts(fields), k), depth, fields.take(k))
            == Parsed::Done(
            Json::Object(fields),
            start + join_text(field_texts(fields), ","@).len() + 1,
        ),
    decreases fields, fields.len() - k,
{
    reveal_strlit(":");
    let parts = field_texts(fields);
    lemma_field_texts(fields);
    lemma_part_stands(text, start, parts, k);
    let at = start + part_start(parts, k);
    let key = fields[k].0;
    let value = fields[k].1;
    assert(readable(value, depth + 1));
    assert(parts[k] =~= quoted(key) + (":"@ + json_text(value)));
    lemma_stands_split(text, at, quoted(key), ":"@ + json_text(value));
    let colon = at + quoted(key).len();
    lemma_stands_split(text, colon, ":"@, json_text(value));
    lemma_stands_char(text, colon, ":"@, 0);
    lemma_quoted_reads_back(text, at, key);
    lemma_no_space(text, at);
    lemma_no_space(text, colon);
    assert(decreases_to!(fields[k] => value));
    lemma_value_reads_back(text, colon + 1, value, depth + 1);
    let after = at + parts[k].len();
    lemma_no_space(text, after);
    assert(fields.take(k).push(fields[k]) =~= fields.take(k + 1));
    assert(fields[k] == (key, value));
    if k + 1 < fields.len() {
        lemma_fields_read_back(text, start, fields, k + 1, depth);
    } else {
        assert(fields.take(k + 1) =~= fields);
    }
}

/// A value that is printed and read again is the same value.
pub proof fn printed_value_reads_back(value: Json)
    requires
        readable(value, 0),
    ensures
        parse_text(json_text(value)) == Ok::<Json, ParseErrorView>(value),
{
    let text = json_text(value);
    assert(text.subrange(0, text.len() as int) =~= text);
    lemma_value_reads_back(text, 0, value, 0);
}

/// Two readable values that print alike are the same value.
pub proof fn printing_is_injective(left: Json, right: Json)
    requires
        readable(left, 0),
        readable(right, 0),
        json_text(left) == json_text(right),
    ensures
        left == right,
{
    printed_value_reads_back(left);
    printed_value_reads_back(right);
}

} // verus!
