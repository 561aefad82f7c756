//! What is printed holds no control characters, and so stands on one line.

use crate::json::value::Json;
use crate::json::writer::escape_char;
use crate::json::writer::escaped;
use crate::json::writer::field_texts;
use crate::json::writer::item_texts;
use crate::json::writer::json_text;
use crate::json::writer::object_text;
use crate::json::writer::quoted;
use crate::numeral::decimal;
use crate::numeral::digit_char;
use crate::numeral::hex_digits;
use crate::text::is_control;
use crate::text::join_text;
use vstd::prelude::*;

verus! {

/// Whether a text holds no control characters.
pub open spec fn is_plain(text: Seq<char>) -> bool {
    forall|i: int| 0 <= i < text.len() ==> !is_control(#[trigger] text[i])
}

proof fn lemma_digit_is_plain(digit: nat)
    requires
        digit < 16,
    ensures
        !is_control(digit_char(digit)),
{
    let code = digit_char(digit) as u32;
    vstd::utf8::char_u32_cast(digit_char(digit), code);
}

proof fn lemma_decimal_is_plain(number: nat)
    ensures
        is_plain(decimal(number)),
    decreases number,
{
    if number < 10 {
        lemma_digit_is_plain(number);
    } else {
        lemma_decimal_is_plain(number / 10);
        lemma_digit_is_plain(number % 10);
    }
}

proof fn lemma_hex_is_plain(number: nat, width: nat)
    ensures
        is_plain(hex_digits(number, width)),
    decreases width,
{
    if width > 0 {
        lemma_hex_is_plain(number / 16, (width - 1) as nat);
        lemma_digit_is_plain(number % 16);
    }
}

proof fn lemma_escaped_is_plain(text: Seq<char>)
    ensures
        is_plain(escaped(text)),
    decreases text.len(),
{
    if text.len() > 0 {
        lemma_hex_is_plain(text[0] as u32 as nat, 4);
        assert(is_plain(escape_char(text[0])));
        lemma_escaped_is_plain(text.drop_first());
    }
}

proof fn lemma_quoted_is_plain(text: Seq<char>)
    ensures
        is_plain(quoted(text)),
{
    lemma_escaped_is_plain(text);
}

proof fn lemma_join_is_plain(parts: Seq<Seq<char>>, separator: Seq<char>)
    requires
        is_plain(separator),
        forall|i: int| 0 <= i < parts.len() ==> is_plain(#[trigger] parts[i]),
    ensures
        is_plain(join_text(parts, separator)),
    decreases parts.len(),
{
    if parts.len() > 1 {
        let shorter = parts.drop_last();
        assert forall|i: int| 0 <= i < shorter.len() implies is_plain(#[trigger] shorter[i]) by {
            assert(shorter[i] == parts[i]);
        }
        lemma_join_is_plain(shorter, separator);
        assert(is_plain(parts[parts.len() - 1]));
    } else if parts.len() == 1 {
        assert(is_plain(parts[0]));
    }
}

proof fn lemma_marks_are_plain()
    ensures
        is_plain("null"@),
        is_plain("true"@),
        is_plain("false"@),
        is_plain("["@),
        is_plain("]"@),
        is_plain("{"@),
        is_plain("}"@),
        is_plain(","@),
        is_plain(":"@),
{
    reveal_strlit("null");
    reveal_strlit("true");
    reveal_strlit("false");
    reveal_strlit("[");
    reveal_strlit("]");
    reveal_strlit("{");
    reveal_strlit("}");
    reveal_strlit(",");
    reveal_strlit(":");
}

/// An object whose fields are printed without control characters is so printed
/// itself.
pub proof fn object_is_plain(fields: Seq<Seq<char>>)
    requires
        forall|i: int| 0 <= i < fields.len() ==> is_plain(#[trigger] fields[i]),
    ensures
        is_plain(object_text(fields)),
{
    lemma_marks_are_plain();
    lemma_join_is_plain(fields, ","@);
}

/// A field whose value is printed without control characters is so printed itself.
pub proof fn field_is_plain(key: Seq<char>, value: Seq<char>)
    requires
        is_plain(value),
    ensures
        is_plain(quoted(key) + ":"@ + value),
{
    lemma_marks_are_plain();
    lemma_quoted_is_plain(key);
}

/// A printed value holds no control characters.
pub proof fn printed_value_is_plain(value: Json)
    ensures
        is_plain(json_text(value)),
    decreases value,
{
    lemma_marks_are_plain();
    match value {
        Json::Null => {},
        Json::Bool(_) => {},
        Json::Number(number) => {
            lemma_decimal_is_plain(if number < 0 {
                (-number) as nat
            } else {
                number as nat
            });
        },
        Json::Str(text) => {
            lemma_quoted_is_plain(text);
        },
        Json::Array(items) => {
            lemma_items_are_plain(items);
            lemma_join_is_plain(item_texts(items), ","@);
        },
        Json::Object(fields) => {
            lemma_fields_are_plain(fields);
            object_is_plain(field_texts(fields));
        },
    }
}

proof fn lemma_items_are_plain(items: Seq<Json>)
    ensures
        forall|i: int| 0 <= i < item_texts(items).len() ==> is_plain(
            #[trigger] item_texts(items)[i]
        ),
    decreases items,
{
    if items.len() > 0 {
        lemma_items_are_plain(items.drop_last());
        printed_value_is_plain(items.last());
        let before = item_texts(items.drop_last());
        assert forall|i: int| 0 <= i < item_texts(items).len() implies is_plain(
            #[trigger] item_texts(items)[i],
        ) by {
            if i < before.len() {
                assert(item_texts(items)[i] == before[i]);
            }
        }
    }
}

proof fn lemma_fields_are_plain(fields: Seq<(Seq<char>, Json)>)
    ensures
        forall|i: int|
            0 <= i < field_texts(fields).len() ==> is_plain(#[trigger] field_texts(fields)[i]),
    decreases fields,
{
    if fields.len() > 0 {
        lemma_fields_are_plain(fields.drop_last());
        printed_value_is_plain(fields.last().1);
        field_is_plain(fields.last().0, json_text(fields.last().1));
        let before = field_texts(fields.drop_last());
        assert forall|i: int| 0 <= i < field_texts(fields).len() implies is_plain(
            #[trigger] field_texts(fields)[i],
        ) by {
            if i < before.len() {
                assert(field_texts(fields)[i] == before[i]);
            }
        }
    }
}

} // verus!
