//! How requests that differ are told apart.

use crate::daemon::fingerprint::ARRAY_LETTER;
use crate::daemon::fingerprint::BOOL_LETTER;
use crate::daemon::fingerprint::FALSE_LETTER;
use crate::daemon::fingerprint::field_keys;
use crate::daemon::fingerprint::field_order;
use crate::daemon::fingerprint::hash_of_bytes;
use crate::daemon::fingerprint::hash_of_fields;
use crate::daemon::fingerprint::hash_of_items;
use crate::daemon::fingerprint::hash_of_json;
use crate::daemon::fingerprint::hash_of_number;
use crate::daemon::fingerprint::hash_of_text;
use crate::daemon::fingerprint::lemma_sorted;
use crate::daemon::fingerprint::low_bytes;
use crate::daemon::fingerprint::mixed;
use crate::daemon::fingerprint::NULL_LETTER;
use crate::daemon::fingerprint::NUMBER_LETTER;
use crate::daemon::fingerprint::OBJECT_LETTER;
use crate::daemon::fingerprint::PRIME;
use crate::daemon::fingerprint::request_operation;
use crate::daemon::fingerprint::stable_hash_bytes;
use crate::daemon::fingerprint::STRING_LETTER;
use crate::daemon::fingerprint::text_hash;
use crate::daemon::fingerprint::TRUE_LETTER;
use crate::git::meaning::is_ascii;
use crate::git::meaning::lemma_ascii;
use crate::json::value::Json;
use crate::json::value::Value;
use crate::numeral::digit_char;
use crate::numeral::hex_digits;
use crate::numeral::signed_decimal;
use crate::text::byte_length;
use vstd::arithmetic::div_mod::lemma_mod_multiples_vanish;
use vstd::arithmetic::div_mod::lemma_mul_mod_noop_left;
use vstd::prelude::*;
use vstd::utf8::encode_utf8;

verus! {

// ---------------------------------------------------------------------------
// Bytes
// ---------------------------------------------------------------------------

proof fn lemma_product(number: u64)
    ensures
        (number.wrapping_mul(PRIME) * 0xce96_5057_aff6_957bint) % 0x1_0000_0000_0000_0000
            == number,
{
    let whole: int = 0x1_0000_0000_0000_0000;
    let prime: int = 0x100_0000_01b3;
    let back: int = 0xce96_5057_aff6_957b;
    let product = number * prime;
    assert(number.wrapping_mul(PRIME) == product % whole);
    lemma_mul_mod_noop_left(product, back, whole);
    let times: int = 887285111055;
    assert(0x100_0000_01b3int * 0xce96_5057_aff6_957bint == 1 + 887285111055int
        * 0x1_0000_0000_0000_0000int);
    assert(product * back == times * number * whole + number) by (nonlinear_arith)
        requires
            product == number * prime,
            prime * back == 1 + times * whole,
    ;
    lemma_mod_multiples_vanish(times * number, number as int, whole);
    assert(whole * (times * number) == times * number * whole) by (nonlinear_arith);
    assert(number as int % whole == number);
}

proof fn lemma_mixed(first: u64, second: u64, byte: u8, other: u8)
    ensures
        mixed(first, byte) == mixed(second, byte) ==> first == second,
        mixed(first, byte) == mixed(first, other) ==> byte == other,
{
    lemma_product(first ^ (byte as u64));
    lemma_product(second ^ (byte as u64));
    lemma_product(first ^ (other as u64));
    assert(first ^ (byte as u64) == second ^ (byte as u64) ==> first == second) by (bit_vector);
    assert(first ^ (byte as u64) == first ^ (other as u64) ==> byte == other) by (bit_vector);
}

proof fn lemma_bytes_start(first: u64, second: u64, bytes: Seq<u8>)
    ensures
        hash_of_bytes(first, bytes) == hash_of_bytes(second, bytes) ==> first == second,
    decreases bytes.len(),
{
    if bytes.len() > 0 {
        lemma_bytes_start(first, second, bytes.drop_last());
        lemma_mixed(
            hash_of_bytes(first, bytes.drop_last()),
            hash_of_bytes(second, bytes.drop_last()),
            bytes.last(),
            bytes.last(),
        );
    }
}

proof fn lemma_changed_byte(hash: u64, bytes: Seq<u8>, k: int, other: u8)
    requires
        0 <= k < bytes.len(),
        other != bytes[k],
    ensures
        hash_of_bytes(hash, bytes.update(k, other)) != hash_of_bytes(hash, bytes),
    decreases bytes.len(),
{
    let changed = bytes.update(k, other);
    if k == bytes.len() - 1 {
        assert(changed.drop_last() =~= bytes.drop_last());
        let start = hash_of_bytes(hash, bytes.drop_last());
        lemma_mixed(start, start, bytes.last(), other);
    } else {
        assert(changed.drop_last() =~= bytes.drop_last().update(k, other));
        assert(changed.last() == bytes.last());
        lemma_changed_byte(hash, bytes.drop_last(), k, other);
        lemma_mixed(
            hash_of_bytes(hash, changed.drop_last()),
            hash_of_bytes(hash, bytes.drop_last()),
            bytes.last(),
            bytes.last(),
        );
    }
}

/// Bytes of which one is changed have another hash.
pub proof fn one_changed_byte_is_noticed(
    hash: u64,
    left: &[u8],
    right: &[u8],
    k: int,
    left_hash: u64,
    right_hash: u64,
)
    requires
        left@.len() == right@.len(),
        0 <= k < left@.len(),
        left@[k] != right@[k],
        forall|i: int| 0 <= i < left@.len() && i != k ==> left@[i] == #[trigger] right@[i],
        call_ensures(stable_hash_bytes, (hash, left), left_hash),
        call_ensures(stable_hash_bytes, (hash, right), right_hash),
    ensures
        left_hash != right_hash,
{
    assert(right@ =~= left@.update(k, right@[k]));
    lemma_changed_byte(hash, left@, k, right@[k]);
}

// ---------------------------------------------------------------------------
// Values
// ---------------------------------------------------------------------------

proof fn lemma_text_start(first: u64, second: u64, text: Seq<char>)
    ensures
        hash_of_text(first, text) == hash_of_text(second, text) ==> first == second,
{
    let bytes = encode_utf8(text);
    lemma_bytes_start(first, second, bytes);
    lemma_number_start(
        hash_of_bytes(first, bytes),
        hash_of_bytes(second, bytes),
        byte_length(text),
    );
}

proof fn lemma_number_start(first: u64, second: u64, number: nat)
    ensures
        hash_of_number(first, number) == hash_of_number(second, number) ==> first == second,
{
    lemma_bytes_start(first, second, low_bytes(number, (usize::BITS / 8) as nat));
}

proof fn lemma_json_start(first: u64, second: u64, value: Json)
    ensures
        hash_of_json(first, value) == hash_of_json(second, value) ==> first == second,
    decreases value, 0nat,
{
    match value {
        Json::Null => lemma_bytes_start(first, second, seq![NULL_LETTER]),
        Json::Bool(truth) => {
            let letter = seq![BOOL_LETTER];
            lemma_bytes_start(first, second, letter);
            lemma_bytes_start(
                hash_of_bytes(first, letter),
                hash_of_bytes(second, letter),
                seq![
                    if truth {
                        TRUE_LETTER
                    } else {
                        FALSE_LETTER
                    },
                ],
            );
        },
        Json::Number(number) => {
            let letter = seq![NUMBER_LETTER];
            lemma_bytes_start(first, second, letter);
            lemma_text_start(
                hash_of_bytes(first, letter),
                hash_of_bytes(second, letter),
                signed_decimal(number),
            );
        },
        Json::Str(text) => {
            let letter = seq![STRING_LETTER];
            lemma_bytes_start(first, second, letter);
            lemma_text_start(hash_of_bytes(first, letter), hash_of_bytes(second, letter), text);
        },
        Json::Array(items) => {
            let letter = seq![ARRAY_LETTER];
            lemma_bytes_start(first, second, letter);
            let one = hash_of_bytes(first, letter);
            let two = hash_of_bytes(second, letter);
            lemma_number_start(one, two, items.len());
            lemma_items_start(
                hash_of_number(one, items.len()),
                hash_of_number(two, items.len()),
                items,
                items.len(),
            );
        },
        Json::Object(fields) => {
            let letter = seq![OBJECT_LETTER];
            lemma_bytes_start(first, second, letter);
            let one = hash_of_bytes(first, letter);
            let two = hash_of_bytes(second, letter);
            lemma_number_start(one, two, fields.len());
            lemma_fields_start(
                hash_of_number(one, fields.len()),
                hash_of_number(two, fields.len()),
                fields,
                field_order(fields),
                fields.len(),
            );
        },
    }
}

proof fn lemma_items_start(first: u64, second: u64, items: Seq<Json>, count: nat)
    ensures
        hash_of_items(first, items, count) == hash_of_items(second, items, count) ==> first
            == second,
    decreases items, count,
{
    if count > 0 && count <= items.len() {
        lemma_items_start(first, second, items, (count - 1) as nat);
        lemma_json_start(
            hash_of_items(first, items, (count - 1) as nat),
            hash_of_items(second, items, (count - 1) as nat),
            items[count - 1],
        );
    }
}

proof fn lemma_fields_start(
    first: u64,
    second: u64,
    fields: Seq<(Seq<char>, Json)>,
    order: Seq<int>,
    count: nat,
)
    ensures
        hash_of_fields(first, fields, order, count) == hash_of_fields(second, fields, order, count)
            ==> first == second,
    decreases fields, count,
{
    if count > 0 && count <= order.len() && 0 <= order[count - 1] < fields.len() {
        lemma_fields_start(first, second, fields, order, (count - 1) as nat);
        let one = hash_of_fields(first, fields, order, (count - 1) as nat);
        let two = hash_of_fields(second, fields, order, (count - 1) as nat);
        let letter = seq![OBJECT_LETTER];
        let field = fields[order[count - 1]];
        lemma_bytes_start(one, two, letter);
        let third = hash_of_bytes(one, letter);
        let fourth = hash_of_bytes(two, letter);
        lemma_text_start(third, fourth, field.0);
        lemma_json_start(hash_of_text(third, field.0), hash_of_text(fourth, field.0), field.1);
    }
}

/// Whether two values have different hashes, whatever was hashed before them.
pub open spec fn hash_apart(left: Json, right: Json) -> bool {
    forall|hash: u64| #[trigger] hash_of_json(hash, left) != hash_of_json(hash, right)
}

/// True and false have different hashes, and so have two texts of which one character of
/// seven bits is changed.
pub proof fn values_are_told_apart(text: Seq<char>, k: int, other: char)
    requires
        0 <= k < text.len(),
        text[k] as u32 != other as u32,
        is_ascii(text),
        other as u32 <= 0x7f,
    ensures
        hash_apart(Json::Bool(true), Json::Bool(false)),
        hash_apart(Json::Str(text), Json::Str(text.update(k, other))),
{
    assert forall|hash: u64| #[trigger]
        hash_of_json(hash, Json::Bool(true)) != hash_of_json(hash, Json::Bool(false)) by {
        let start = hash_of_bytes(hash, seq![BOOL_LETTER]);
        let yes = seq![TRUE_LETTER];
        let no = seq![FALSE_LETTER];
        lemma_changed_byte(start, yes, 0, FALSE_LETTER);
        assert(yes.update(0, FALSE_LETTER) =~= no);
    }
    let changed = text.update(k, other);
    lemma_ascii(text);
    assert forall|i: int| 0 <= i < changed.len() implies (#[trigger] changed[i]) as u32
        <= 0x7f by {
        if i != k {
            assert(changed[i] == text[i]);
        }
    }
    lemma_ascii(changed);
    let left = encode_utf8(text);
    let right = encode_utf8(changed);
    let byte = (other as u32) as u8;
    assert(right =~= left.update(k, byte));
    assert(left[k] == (text[k] as u32) as u8);
    assert(byte == other as u32);
    assert(left[k] == text[k] as u32);
    assert forall|hash: u64| #[trigger]
        hash_of_json(hash, Json::Str(text)) != hash_of_json(hash, Json::Str(changed)) by {
        let start = hash_of_bytes(hash, seq![STRING_LETTER]);
        lemma_changed_byte(start, left, k, byte);
        lemma_number_start(
            hash_of_bytes(start, left),
            hash_of_bytes(start, right),
            byte_length(text),
        );
    }
}

proof fn lemma_changed_item(hash: u64, items: Seq<Json>, k: int, other: Json, count: nat)
    requires
        0 <= k < items.len(),
        count <= items.len(),
        hash_apart(items[k], other),
    ensures
        count <= k ==> hash_of_items(hash, items.update(k, other), count) == hash_of_items(
            hash,
            items,
            count,
        ),
        count > k ==> hash_of_items(hash, items.update(k, other), count) != hash_of_items(
            hash,
            items,
            count,
        ),
    decreases count,
{
    let changed = items.update(k, other);
    if count > 0 {
        lemma_changed_item(hash, items, k, other, (count - 1) as nat);
        let one = hash_of_items(hash, items, (count - 1) as nat);
        let two = hash_of_items(hash, changed, (count - 1) as nat);
        if count - 1 == k {
            assert(hash_of_json(one, items[k]) != hash_of_json(one, other));
        } else {
            assert(changed[count - 1] == items[count - 1]);
            lemma_json_start(one, two, items[count - 1]);
        }
    }
}

proof fn lemma_changed_field(
    hash: u64,
    fields: Seq<(Seq<char>, Json)>,
    order: Seq<int>,
    j: int,
    other: Json,
    count: nat,
)
    requires
        0 <= j < fields.len(),
        order.len() == fields.len(),
        count <= order.len(),
        forall|i: int| 0 <= i < order.len() ==> 0 <= #[trigger] order[i] < fields.len(),
        forall|i: int, l: int|
            0 <= i < l < order.len() ==> #[trigger] order[i] != #[trigger] order[l],
        hash_apart(fields[j].1, other),
    ensures
        ({
            let changed = fields.update(j, (fields[j].0, other));
            let same = hash_of_fields(hash, changed, order, count) == hash_of_fields(
                hash,
                fields,
                order,
                count,
            );
            same <==> forall|i: int| 0 <= i < count ==> #[trigger] order[i] != j
        }),
    decreases count,
{
    let changed = fields.update(j, (fields[j].0, other));
    if count > 0 {
        let before = (count - 1) as nat;
        lemma_changed_field(hash, fields, order, j, other, before);
        let one = hash_of_fields(hash, fields, order, before);
        let two = hash_of_fields(hash, changed, order, before);
        let letter = seq![OBJECT_LETTER];
        let index = order[count - 1];
        let key = fields[index].0;
        let third = hash_of_bytes(one, letter);
        let fourth = hash_of_bytes(two, letter);
        assert(changed[index].0 == key);
        if index == j {
            assert forall|i: int| 0 <= i < before implies #[trigger] order[i] != j by {
                assert(order[i] != order[count - 1]);
            }
            assert(one == two);
            let start = hash_of_text(third, key);
            assert(hash_of_json(start, fields[j].1) != hash_of_json(start, other));
        } else {
            assert(changed[index] == fields[index]);
            lemma_bytes_start(one, two, letter);
            lemma_text_start(third, fourth, key);
            lemma_json_start(
                hash_of_text(third, key),
                hash_of_text(fourth, key),
                fields[index].1,
            );
        }
    }
}

/// Arrays that differ in one item, and objects that differ in the value of one field, have
/// different hashes if that item or value has.
pub proof fn changed_parts_are_noticed(
    items: Seq<Json>,
    fields: Seq<(Seq<char>, Json)>,
    k: int,
    j: int,
    item: Json,
    content: Json,
)
    ensures
        0 <= k < items.len() && hash_apart(items[k], item) ==> hash_apart(
            Json::Array(items),
            Json::Array(items.update(k, item)),
        ),
        0 <= j < fields.len() && hash_apart(fields[j].1, content) ==> hash_apart(
            Json::Object(fields),
            Json::Object(fields.update(j, (fields[j].0, content))),
        ),
{
    if 0 <= k < items.len() && hash_apart(items[k], item) {
        assert forall|hash: u64| #[trigger]
            hash_of_json(hash, Json::Array(items)) != hash_of_json(
            hash,
            Json::Array(items.update(k, item)),
        ) by {
            let start = hash_of_number(
                hash_of_bytes(hash, seq![ARRAY_LETTER]),
                items.len(),
            );
            lemma_changed_item(start, items, k, item, items.len());
        }
    }
    if 0 <= j < fields.len() && hash_apart(fields[j].1, content) {
        let changed = fields.update(j, (fields[j].0, content));
        assert(field_keys(changed) =~= field_keys(fields));
        let order = field_order(fields);
        lemma_sorted(field_keys(fields), fields.len());
        assert(order.contains(j));
        let place = choose|i: int| 0 <= i < order.len() && order[i] == j;
        assert(order[place] == j);
        assert forall|hash: u64| #[trigger]
            hash_of_json(hash, Json::Object(fields)) != hash_of_json(
            hash,
            Json::Object(changed),
        ) by {
            let start = hash_of_number(
                hash_of_bytes(hash, seq![OBJECT_LETTER]),
                fields.len(),
            );
            lemma_changed_field(start, fields, order, j, content, fields.len());
        }
    }
}

// ---------------------------------------------------------------------------
// Names
// ---------------------------------------------------------------------------

spec fn first_beyond(width: nat) -> nat
    decreases width,
{
    if width == 0 {
        1
    } else {
        16 * first_beyond((width - 1) as nat)
    }
}

proof fn lemma_hex(left: nat, right: nat, width: nat)
    requires
        left < first_beyond(width),
        right < first_beyond(width),
        hex_digits(left, width) == hex_digits(right, width),
    ensures
        left == right,
    decreases width,
{
    if width > 0 {
        let one = hex_digits(left, width);
        let two = hex_digits(right, width);
        assert(one.drop_last() =~= hex_digits(left / 16, (width - 1) as nat));
        assert(two.drop_last() =~= hex_digits(right / 16, (width - 1) as nat));
        assert(one.last() == digit_char(left % 16));
        assert(two.last() == digit_char(right % 16));
        lemma_hex(left / 16, right / 16, (width - 1) as nat);
    }
}

/// Requests for the same method whose parameters have different hashes are journalled
/// under different names, and each name begins with the method.
pub proof fn different_requests_have_different_names(
    method: &str,
    left: &Value,
    right: &Value,
    left_name: String,
    right_name: String,
)
    requires
        hash_apart(left@, right@),
        call_ensures(request_operation, (method, left), left_name),
        call_ensures(request_operation, (method, right), right_name),
    ensures
        left_name@ != right_name@,
        left_name@.take(method@.len() as int) == method@,
{
    let head = method@ + ":"@;
    let hash = text_hash(method@);
    let one = hash_of_json(hash, left@);
    let two = hash_of_json(hash, right@);
    assert(one != two);
    let a = hex_digits(one as nat, 16);
    let b = hex_digits(two as nat, 16);
    assert(left_name@ == head + a);
    assert(left_name@.take(method@.len() as int) =~= method@);
    if left_name@ == right_name@ {
        assert((head + a).skip(head.len() as int) =~= a);
        assert((head + b).skip(head.len() as int) =~= b);
        reveal_with_fuel(first_beyond, 17);
        lemma_hex(one as nat, two as nat, 16);
    }
}

} // verus!
