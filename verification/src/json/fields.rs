//! What a JSON object tells.

use crate::json::value::Json;
use vstd::prelude::*;

verus! {

/// Whether an object tells something under a key.
pub open spec fn tells(value: Json, key: Seq<char>, content: Json) -> bool {
    value matches Json::Object(fields) && fields.contains((key, content))
}

/// Whether a value is an object with so many fields.
pub open spec fn has_fields(value: Json, number: nat) -> bool {
    value matches Json::Object(fields) && fields.len() == number
}

} // verus!
