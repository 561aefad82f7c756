//! Printing JSON.

use crate::json::value::Json;
use crate::numeral::hex_digits;
use crate::numeral::print_hex_digits;
use crate::numeral::print_i64;
use crate::numeral::print_u64;
use crate::numeral::signed_decimal;
use crate::text::concat3;
use crate::text::control;
use crate::text::is_control;
use crate::text::join;
use crate::text::join_text;
use crate::text::to_chars;
use crate::text::views;
use vstd::prelude::*;

verus! {

/// A character inside a quoted text.
pub open spec fn escape_char(c: char) -> Seq<char> {
    if c == '"' {
        seq!['\\', '"']
    } else if c == '\\' {
        seq!['\\', '\\']
    } else if c as u32 == 0x08 {
        seq!['\\', 'b']
    } else if c as u32 == 0x0c {
        seq!['\\', 'f']
    } else if c == '\n' {
        seq!['\\', 'n']
    } else if c == '\r' {
        seq!['\\', 'r']
    } else if c == '\t' {
        seq!['\\', 't']
    } else if is_control(c) {
        seq!['\\', 'u'] + hex_digits(c as u32 as nat, 4)
    } else {
        seq![c]
    }
}

/// The characters between the quotation marks of a text.
pub open spec fn escaped(text: Seq<char>) -> Seq<char>
    decreases text.len(),
{
    if text.len() == 0 {
        seq![]
    } else {
        escape_char(text[0]) + escaped(text.drop_first())
    }
}

/// A text as a JSON string.
pub open spec fn quoted(text: Seq<char>) -> Seq<char> {
    seq!['"'] + escaped(text) + seq!['"']
}

pub proof fn lemma_escaped_push(text: Seq<char>, c: char)
    ensures
        escaped(text.push(c)) == escaped(text) + escape_char(c),
    decreases text.len(),
{
    if text.len() == 0 {
        assert(text.push(c).drop_first() =~= text);
        assert(escaped(text.push(c)) =~= escaped(text) + escape_char(c));
    } else {
        lemma_escaped_push(text.drop_first(), c);
        assert(text.push(c).drop_first() =~= text.drop_first().push(c));
        assert(escaped(text.push(c)) =~= escaped(text) + escape_char(c));
    }
}

/// A JSON value, printed without white space.
pub open spec fn json_text(value: Json) -> Seq<char>
    decreases value,
{
    match value {
        Json::Null => "null"@,
        Json::Bool(truth) => if truth {
            "true"@
        } else {
            "false"@
        },
        Json::Number(number) => signed_decimal(number),
        Json::Str(text) => quoted(text),
        Json::Array(items) => array_text(item_texts(items)),
        Json::Object(fields) => object_text(field_texts(fields)),
    }
}

/// The printed items of an array.
pub open spec fn item_texts(items: Seq<Json>) -> Seq<Seq<char>>
    decreases items,
{
    if items.len() == 0 {
        seq![]
    } else {
        item_texts(items.drop_last()).push(json_text(items.last()))
    }
}

/// The printed fields of an object.
pub open spec fn field_texts(fields: Seq<(Seq<char>, Json)>) -> Seq<Seq<char>>
    decreases fields,
{
    if fields.len() == 0 {
        seq![]
    } else {
        field_texts(fields.drop_last()).push(
            quoted(fields.last().0) + ":"@ + json_text(fields.last().1),
        )
    }
}

/// A field of an object.
pub open spec fn field_text(field: (Seq<char>, Json)) -> Seq<char> {
    quoted(field.0) + ":"@ + json_text(field.1)
}

/// Printed items between square brackets.
pub open spec fn array_text(items: Seq<Seq<char>>) -> Seq<char> {
    "["@ + join_text(items, ","@) + "]"@
}

/// Printed fields between braces.
pub open spec fn object_text(fields: Seq<Seq<char>>) -> Seq<char> {
    "{"@ + join_text(fields, ","@) + "}"@
}

pub broadcast proof fn lemma_item_texts(items: Seq<Json>)
    ensures
        (#[trigger] item_texts(items)).len() == items.len(),
        forall|i: int| 0 <= i < items.len() ==> #[trigger] item_texts(items)[i] == json_text(
            items[i]
        ),
    decreases items.len(),
{
    if items.len() > 0 {
        lemma_item_texts(items.drop_last());
    }
}

pub broadcast proof fn lemma_field_texts(fields: Seq<(Seq<char>, Json)>)
    ensures
        (#[trigger] field_texts(fields)).len() == fields.len(),
        forall|i: int|
            0 <= i < fields.len() ==> #[trigger] field_texts(fields)[i] == field_text(fields[i]),
    decreases fields.len(),
{
    if fields.len() > 0 {
        lemma_field_texts(fields.drop_last());
    }
}

/// Prints a text as a JSON string.
pub fn string(value: &str) -> (text: String)
    ensures
        text@ == quoted(value@),
        text@ == json_text(Json::Str(value@)),
{
    let chars = to_chars(value);
    let mut output = String::new();
    output.push('"');
    let mut i: usize = 0;
    assert(chars@.take(0) =~= seq![]);
    assert(output@ =~= seq!['"'] + escaped(chars@.take(0)));
    while i < chars.len()
        invariant
            i <= chars.len(),
            output@ == seq!['"'] + escaped(chars@.take(i as int)),
        decreases chars.len() - i,
    {
        let c = chars[i];
        let ghost before = output@;
        let code: u32 = c as u32;
        if c == '"' {
            output.push('\\');
            output.push('"');
        } else if c == '\\' {
            output.push('\\');
            output.push('\\');
        } else if code == 0x08 {
            output.push('\\');
            output.push('b');
        } else if code == 0x0c {
            output.push('\\');
            output.push('f');
        } else if c == '\n' {
            output.push('\\');
            output.push('n');
        } else if c == '\r' {
            output.push('\\');
            output.push('r');
        } else if c == '\t' {
            output.push('\\');
            output.push('t');
        } else if control(c) {
            output.push('\\');
            output.push('u');
            let digits = print_hex_digits(code as u64, 4);
            output.append(&digits);
        } else {
            output.push(c);
        }
        assert(output@ =~= before + escape_char(c));
        proof {
            lemma_escaped_push(chars@.take(i as int), c);
            assert(chars@.take(i + 1) =~= chars@.take(i as int).push(c));
        }
        assert(output@ =~= seq!['"'] + escaped(chars@.take(i + 1)));
        i += 1;
    }
    assert(chars@.take(i as int) =~= chars@);
    output.push('"');
    assert(output@ =~= quoted(value@));
    output
}

/// The JSON value of an optional text.
pub open spec fn text_or_null(value: Option<Seq<char>>) -> Json {
    match value {
        Some(text) => Json::Str(text),
        None => Json::Null,
    }
}

/// The JSON value of an optional truth value.
pub open spec fn truth_or_null(value: Option<bool>) -> Json {
    match value {
        Some(truth) => Json::Bool(truth),
        None => Json::Null,
    }
}

/// The JSON value of an optional unsigned number.
pub open spec fn number_or_null(value: Option<u64>) -> Json {
    match value {
        Some(number) => Json::Number(number as int),
        None => Json::Null,
    }
}

/// The JSON value of an optional signed number.
pub open spec fn signed_or_null(value: Option<i64>) -> Json {
    match value {
        Some(number) => Json::Number(number as int),
        None => Json::Null,
    }
}

/// What an optional text slice holds.
pub open spec fn slice_view(value: Option<&str>) -> Option<Seq<char>> {
    match value {
        Some(text) => Some(text@),
        None => None,
    }
}

/// Prints a text, or `null`.
pub fn optional_string(value: Option<&str>) -> (text: String)
    ensures
        text@ == json_text(text_or_null(slice_view(value))),
{
    match value {
        Some(inner) => string(inner),
        None => "null".to_owned(),
    }
}

fn print_bool(value: bool) -> (text: String)
    ensures
        text@ == json_text(Json::Bool(value)),
{
    if value {
        "true".to_owned()
    } else {
        "false".to_owned()
    }
}

/// Prints a truth value, or `null`.
pub fn optional_bool(value: Option<bool>) -> (text: String)
    ensures
        text@ == json_text(truth_or_null(value)),
{
    match value {
        Some(inner) => print_bool(inner),
        None => "null".to_owned(),
    }
}

/// Prints a number, or `null`.
pub fn optional_number(value: Option<u64>) -> (text: String)
    ensures
        text@ == json_text(number_or_null(value)),
{
    match value {
        Some(inner) => print_u64(inner),
        None => "null".to_owned(),
    }
}

/// An object under construction: its printed fields.
pub struct Object {
    fields: Vec<String>,
}

impl View for Object {
    type V = Seq<Seq<char>>;

    closed spec fn view(&self) -> Seq<Seq<char>> {
        views(self.fields@)
    }
}

impl Object {
    fn with(self, key: &str, printed: &str) -> (object: Object)
        ensures
            object@ == self@.push(quoted(key@) + ":"@ + printed@),
    {
        let mut object = self;
        let ghost before = object.fields@;
        let name = string(key);
        let field = concat3(&name, ":", printed);
        let ghost added = field@;
        object.fields.push(field);
        assert(views(object.fields@) =~= views(before).push(added));
        object
    }

    /// An object without fields.
    pub fn new() -> (object: Object)
        ensures
            object@ == Seq::<Seq<char>>::empty(),
    {
        let object = Object { fields: Vec::new() };
        assert(object@ =~= Seq::<Seq<char>>::empty());
        object
    }

    /// Adds a text.
    pub fn string(self, key: &str, value: &str) -> (object: Object)
        ensures
            object@ == self@.push(field_text((key@, Json::Str(value@)))),
    {
        let printed = string(value);
        self.with(key, &printed)
    }

    /// Adds a text, or `null`.
    pub fn optional_string(self, key: &str, value: Option<&str>) -> (object: Object)
        ensures
            object@ == self@.push(field_text((key@, text_or_null(slice_view(value))))),
    {
        let printed = optional_string(value);
        self.with(key, &printed)
    }

    /// Adds a truth value.
    pub fn bool(self, key: &str, value: bool) -> (object: Object)
        ensures
            object@ == self@.push(field_text((key@, Json::Bool(value)))),
    {
        let printed = print_bool(value);
        self.with(key, &printed)
    }

    /// Adds a truth value, or `null`.
    pub fn optional_bool(self, key: &str, value: Option<bool>) -> (object: Object)
        ensures
            object@ == self@.push(field_text((key@, truth_or_null(value)))),
    {
        let printed = optional_bool(value);
        self.with(key, &printed)
    }

    /// Adds an unsigned number.
    pub fn number(self, key: &str, value: u64) -> (object: Object)
        ensures
            object@ == self@.push(field_text((key@, Json::Number(value as int)))),
    {
        let printed = print_u64(value);
        self.with(key, &printed)
    }

    /// Adds a signed number.
    pub fn signed_number(self, key: &str, value: i64) -> (object: Object)
        ensures
            object@ == self@.push(field_text((key@, Json::Number(value as int)))),
    {
        let printed = print_i64(value);
        self.with(key, &printed)
    }

    /// Adds an unsigned number, or `null`.
    pub fn optional_number(self, key: &str, value: Option<u64>) -> (object: Object)
        ensures
            object@ == self@.push(field_text((key@, number_or_null(value)))),
    {
        let printed = optional_number(value);
        self.with(key, &printed)
    }

    /// Adds a signed number, or `null`.
    pub fn optional_signed_number(self, key: &str, value: Option<i64>) -> (object: Object)
        ensures
            object@ == self@.push(field_text((key@, signed_or_null(value)))),
    {
        let printed = match value {
            Some(inner) => print_i64(inner),
            None => "null".to_owned(),
        };
        self.with(key, &printed)
    }

    /// Adds `null`.
    pub fn null(self, key: &str) -> (object: Object)
        ensures
            object@ == self@.push(field_text((key@, Json::Null))),
    {
        self.with(key, "null")
    }

    /// Adds a value that is printed already.
    pub fn raw(self, key: &str, value: String) -> (object: Object)
        ensures
            object@ == self@.push(quoted(key@) + ":"@ + value@),
            forall|inner: Json|
                value@ == #[trigger] json_text(inner) ==> object@ == self@.push(
                    field_text((key@, inner))
                ),
    {
        self.with(key, &value)
    }

    /// Prints the object.
    pub fn finish(self) -> (text: String)
        ensures
            text@ == object_text(self@),
    {
        object(self.fields)
    }
}

impl Default for Object {
    fn default() -> (object: Object)
        ensures
            object@ == Seq::<Seq<char>>::empty(),
    {
        Object::new()
    }
}

/// Prints an object of fields that are printed already.
pub(crate) fn object(fields: Vec<String>) -> (text: String)
    ensures
        text@ == object_text(views(fields@)),
{
    let inner = join(&fields, ",");
    concat3("{", &inner, "}")
}

/// Prints an array of values that are printed already.
pub fn array(values: Vec<String>) -> (text: String)
    ensures
        text@ == array_text(views(values@)),
{
    let inner = join(&values, ",");
    concat3("[", &inner, "]")
}

} // verus!
