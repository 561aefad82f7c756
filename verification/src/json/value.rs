//! JSON values and the fields of objects.

use crate::json::writer::json_text;
use crate::json::writer::quoted;
use crate::json::writer::string;
use crate::json::writer::array;
use crate::json::writer::field_texts;
use crate::json::writer::item_texts;
use crate::json::writer::object;
use crate::numeral::print_i64;
use crate::text::concat3;
use crate::text::debug_string;
use crate::text::debug_text;
use crate::text::same_text;
use crate::text::views;
use vstd::prelude::*;

verus! {

/// A JSON value, as contracts speak of it.
pub enum Json {
    Null,
    Bool(bool),
    Number(int),
    Str(Seq<char>),
    Array(Seq<Json>),
    Object(Seq<(Seq<char>, Json)>),
}

/// A JSON value. An object keeps its fields in the order in which they were
/// written, also those that share a name.
#[derive(Debug, PartialEq)]
pub enum Value {
    Null,
    Bool(bool),
    Number(i64),
    String(String),
    Array(Vec<Value>),
    Object(Vec<(String, Value)>),
}

impl View for Value {
    type V = Json;

    open spec fn view(&self) -> Json {
        value_json(*self)
    }
}

/// The JSON value that a `Value` stands for.
pub open spec fn value_json(value: Value) -> Json
    decreases value,
{
    match value {
        Value::Null => Json::Null,
        Value::Bool(truth) => Json::Bool(truth),
        Value::Number(number) => Json::Number(number as int),
        Value::String(text) => Json::Str(text@),
        Value::Array(items) => Json::Array(item_views(items@)),
        Value::Object(fields) => Json::Object(field_views(fields@)),
    }
}

/// The views of the items of an array.
pub open spec fn item_views(items: Seq<Value>) -> Seq<Json>
    decreases items,
{
    if items.len() == 0 {
        seq![]
    } else {
        item_views(items.drop_last()).push(value_json(items.last()))
    }
}

/// The views of the fields of an object.
pub open spec fn field_views(fields: Seq<(String, Value)>) -> Seq<(Seq<char>, Json)>
    decreases fields,
{
    if fields.len() == 0 {
        seq![]
    } else {
        field_views(fields.drop_last()).push((fields.last().0@, value_json(fields.last().1)))
    }
}

pub broadcast proof fn lemma_item_views(items: Seq<Value>)
    ensures
        (#[trigger] item_views(items)).len() == items.len(),
        forall|i: int| 0 <= i < items.len() ==> #[trigger] item_views(items)[i] == items[i]@,
    decreases items.len(),
{
    if items.len() > 0 {
        lemma_item_views(items.drop_last());
    }
}

pub broadcast proof fn lemma_field_views(fields: Seq<(String, Value)>)
    ensures
        (#[trigger] field_views(fields)).len() == fields.len(),
        forall|i: int|
            0 <= i < fields.len() ==> (#[trigger] field_views(fields)[i]).0 == fields[i].0@
                && field_views(fields)[i].1 == fields[i].1@,
    decreases fields.len(),
{
    if fields.len() > 0 {
        lemma_field_views(fields.drop_last());
    }
}

/// The value of the first field named `key`.
pub open spec fn first_field(fields: Seq<(Seq<char>, Json)>, key: Seq<char>) -> Option<Json>
    decreases fields.len(),
{
    if fields.len() == 0 {
        None
    } else if fields[0].0 == key {
        Some(fields[0].1)
    } else {
        first_field(fields.drop_first(), key)
    }
}

impl Json {
    /// The field named `key`, where the value is an object.
    pub open spec fn field(self, key: Seq<char>) -> Option<Json> {
        match self {
            Json::Object(fields) => first_field(fields, key),
            _ => None,
        }
    }
}

/// The complaint that a field has the wrong type.
pub open spec fn type_complaint(key: Seq<char>, wanted: Seq<char>) -> Seq<char> {
    "JSON field "@ + debug_text(key) + wanted
}

/// What a field that must be a text holds.
pub open spec fn required_text(value: Json, key: Seq<char>) -> Result<Seq<char>, Seq<char>> {
    match value.field(key) {
        Some(Json::Str(text)) => Ok(text),
        Some(_) => Err(type_complaint(key, " must be a string"@)),
        None => Err(type_complaint(key, " is required"@)),
    }
}

/// What a field that may be a text holds.
pub open spec fn optional_text(value: Json, key: Seq<char>) -> Result<Option<Seq<char>>, Seq<char>> {
    match value.field(key) {
        None | Some(Json::Null) => Ok(None),
        Some(Json::Str(text)) => Ok(Some(text)),
        Some(_) => Err(type_complaint(key, " must be a string or null"@)),
    }
}

/// What a field that may be an integer holds.
pub open spec fn optional_integer(value: Json, key: Seq<char>) -> Result<Option<int>, Seq<char>> {
    match value.field(key) {
        None | Some(Json::Null) => Ok(None),
        Some(Json::Number(number)) => Ok(Some(number)),
        Some(_) => Err(type_complaint(key, " must be an integer or null"@)),
    }
}

/// What a field that may be a truth value holds.
pub open spec fn optional_truth(value: Json, key: Seq<char>) -> Result<Option<bool>, Seq<char>> {
    match value.field(key) {
        None | Some(Json::Null) => Ok(None),
        Some(Json::Bool(truth)) => Ok(Some(truth)),
        Some(_) => Err(type_complaint(key, " must be a boolean or null"@)),
    }
}

#[verifier::loop_isolation(false)]
fn copy_value(value: &Value) -> (copy: Value)
    ensures
        copy@ == value@,
    decreases value,
{
    broadcast use {lemma_item_views, lemma_field_views};

    match value {
        Value::Null => Value::Null,
        Value::Bool(truth) => Value::Bool(*truth),
        Value::Number(number) => Value::Number(*number),
        Value::String(text) => Value::String(text.clone()),
        Value::Array(items) => {
            let mut copies: Vec<Value> = Vec::new();
            let mut i: usize = 0;
            while i < items.len()
                invariant
                    i <= items.len(),
                    copies.len() == i,
                    value matches Value::Array(inner) && inner == items,
                    forall|j: int| 0 <= j < i ==> copies@[j]@ == items@[j]@,
                decreases items.len() - i,
            {
                proof {
                    assert(decreases_to!(value => items@[i as int]));
                }
                copies.push(copy_value(&items[i]));
                i += 1;
            }
            assert(item_views(copies@) =~= item_views(items@));
            Value::Array(copies)
        },
        Value::Object(fields) => {
            let mut copies: Vec<(String, Value)> = Vec::new();
            let mut i: usize = 0;
            while i < fields.len()
                invariant
                    i <= fields.len(),
                    copies.len() == i,
                    value matches Value::Object(inner) && inner == fields,
                    forall|j: int| 0 <= j < i ==> copies@[j].0@ == fields@[j].0@,
                    forall|j: int| 0 <= j < i ==> copies@[j].1@ == fields@[j].1@,
                decreases fields.len() - i,
            {
                proof {
                    assert(decreases_to!(value => fields@[i as int].1));
                }
                copies.push((fields[i].0.clone(), copy_value(&fields[i].1)));
                i += 1;
            }
            assert(field_views(copies@) =~= field_views(fields@));
            Value::Object(copies)
        },
    }
}

impl Clone for Value {
    fn clone(&self) -> (copy: Self)
        ensures
            copy@ == self@,
    {
        copy_value(self)
    }
}

#[verifier::loop_isolation(false)]
fn print_value(value: &Value) -> (text: String)
    ensures
        text@ == json_text(value@),
    decreases value,
{
    broadcast use {
        lemma_item_views,
        lemma_field_views,
        crate::json::writer::lemma_item_texts,
        crate::json::writer::lemma_field_texts,
    };

    match value {
        Value::Null => "null".to_owned(),
        Value::Bool(truth) => if *truth {
            "true".to_owned()
        } else {
            "false".to_owned()
        },
        Value::Number(number) => print_i64(*number),
        Value::String(text) => string(text),
        Value::Array(items) => {
            let mut texts: Vec<String> = Vec::new();
            let mut i: usize = 0;
            while i < items.len()
                invariant
                    i <= items.len(),
                    texts.len() == i,
                    value matches Value::Array(inner) && inner == items,
                    forall|j: int| 0 <= j < i ==> texts@[j]@ == json_text(items@[j]@),
                decreases items.len() - i,
            {
                proof {
                    assert(decreases_to!(value => items@[i as int]));
                }
                texts.push(print_value(&items[i]));
                i += 1;
            }
            assert(views(texts@) =~= item_texts(item_views(items@)));
            array(texts)
        },
        Value::Object(fields) => {
            let mut texts: Vec<String> = Vec::new();
            let mut i: usize = 0;
            while i < fields.len()
                invariant
                    i <= fields.len(),
                    texts.len() == i,
                    value matches Value::Object(inner) && inner == fields,
                    forall|j: int|
                        0 <= j < i ==> texts@[j]@ == quoted(fields@[j].0@) + ":"@ + json_text(
                            fields@[j].1@,
                        ),
                decreases fields.len() - i,
            {
                proof {
                    assert(decreases_to!(value => fields@[i as int].1));
                }
                let key = string(&fields[i].0);
                let printed = print_value(&fields[i].1);
                texts.push(concat3(&key, ":", &printed));
                i += 1;
            }
            assert(views(texts@) =~= field_texts(field_views(fields@)));
            object(texts)
        },
    }
}

impl Value {
    /// Prints the value without white space.
    pub fn to_json(&self) -> (text: String)
        ensures
            text@ == json_text(self@),
    {
        print_value(self)
    }

    /// The first field with that name, if the value is an object that has one.
    #[verifier::loop_isolation(false)]
    pub fn object_field(&self, key: &str) -> (field: Option<&Value>)
        ensures
            match field {
                Some(value) => self@.field(key@) == Some(value@),
                None => self@.field(key@) is None,
            },
    {
        broadcast use {lemma_item_views, lemma_field_views};

        match self {
            Value::Object(fields) => {
                let mut i: usize = 0;
                let ghost all = field_views(fields@);
                assert(all.skip(0) =~= all);
                while i < fields.len()
                    invariant
                        i <= fields.len(),
                        all == field_views(fields@),
                        first_field(all.skip(i as int), key@) == first_field(all, key@),
                    decreases fields.len() - i,
                {
                    assert(all.skip(i as int).drop_first() =~= all.skip(i + 1));
                    if same_text(&fields[i].0, key) {
                        return Some(&fields[i].1);
                    }
                    i += 1;
                }
                None
            },
            _ => None,
        }
    }

    /// The text in a field that must hold one.
    pub fn required_string(&self, key: &str) -> (result: Result<&str, String>)
        ensures
            match (result, required_text(self@, key@)) {
                (Ok(text), Ok(expected)) => text@ == expected,
                (Err(message), Err(expected)) => message@ == expected,
                _ => false,
            },
    {
        match self.object_field(key) {
            Some(Value::String(value)) => Ok(value.as_str()),
            Some(_) => Err(complaint(key, " must be a string")),
            None => Err(complaint(key, " is required")),
        }
    }

    /// The text in a field that may be absent or null.
    pub fn optional_string(&self, key: &str) -> (result: Result<Option<&str>, String>)
        ensures
            match (result, optional_text(self@, key@)) {
                (Ok(Some(text)), Ok(Some(expected))) => text@ == expected,
                (Ok(None), Ok(None)) => true,
                (Err(message), Err(expected)) => message@ == expected,
                _ => false,
            },
    {
        match self.object_field(key) {
            None => Ok(None),
            Some(Value::Null) => Ok(None),
            Some(Value::String(value)) => Ok(Some(value.as_str())),
            Some(_) => Err(complaint(key, " must be a string or null")),
        }
    }

    /// The integer in a field that may be absent or null.
    pub fn optional_i64(&self, key: &str) -> (result: Result<Option<i64>, String>)
        ensures
            match (result, optional_integer(self@, key@)) {
                (Ok(Some(number)), Ok(Some(expected))) => number == expected,
                (Ok(None), Ok(None)) => true,
                (Err(message), Err(expected)) => message@ == expected,
                _ => false,
            },
    {
        match self.object_field(key) {
            None => Ok(None),
            Some(Value::Null) => Ok(None),
            Some(Value::Number(value)) => Ok(Some(*value)),
            Some(_) => Err(complaint(key, " must be an integer or null")),
        }
    }

    /// The truth value in a field that may be absent or null.
    pub fn optional_bool(&self, key: &str) -> (result: Result<Option<bool>, String>)
        ensures
            match (result, optional_truth(self@, key@)) {
                (Ok(truth), Ok(expected)) => truth == expected,
                (Err(message), Err(expected)) => message@ == expected,
                _ => false,
            },
    {
        match self.object_field(key) {
            None => Ok(None),
            Some(Value::Null) => Ok(None),
            Some(Value::Bool(value)) => Ok(Some(*value)),
            Some(_) => Err(complaint(key, " must be a boolean or null")),
        }
    }

    /// The fields, if the value is an object.
    pub fn as_object(&self) -> (result: Result<&[(String, Value)], String>)
        ensures
            match result {
                Ok(fields) => self@ == Json::Object(field_views(fields@)),
                Err(message) => self@ !is Object && message@ == "JSON request must be an object"@,
            },
    {
        broadcast use {lemma_item_views, lemma_field_views};

        match self {
            Value::Object(fields) => Ok(fields.as_slice()),
            _ => Err("JSON request must be an object".to_owned()),
        }
    }
}

fn complaint(key: &str, wanted: &str) -> (message: String)
    ensures
        message@ == type_complaint(key@, wanted@),
{
    let printed = debug_string(key);
    concat3("JSON field ", &printed, wanted)
}

} // verus!
