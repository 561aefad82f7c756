//! Numbers by which requests and files are told apart: the 64-bit FNV-1a hash,
//! over JSON values in a form that does not depend on the order of fields.

use crate::json::value::field_views;
use crate::json::value::item_views;
use crate::json::value::lemma_field_views;
use crate::json::value::lemma_item_views;
use crate::json::value::Json;
use crate::json::value::Value;
use crate::numeral::hex_digits;
use crate::numeral::print_hex_digits;
use crate::numeral::print_i64;
use crate::numeral::signed_decimal;
use crate::order::index_views;
use crate::order::insert_index;
use crate::order::sort_indices;
use crate::order::sorted_indices;
use crate::order::text_le;
use crate::order::text_order_is_antisymmetric;
use crate::order::text_order_is_total;
use crate::order::text_order_is_transitive;
use crate::text::byte_length;
use crate::text::concat3;
use crate::text::views;
use vstd::prelude::*;
use vstd::utf8::encode_utf8;

verus! {

/// The hash of nothing.
pub const OFFSET_BASIS: u64 = 0xcbf2_9ce4_8422_2325;

/// The factor of every step.
pub const PRIME: u64 = 0x100_0000_01b3;

/// Marks `null`: the letter `n`.
pub const NULL_LETTER: u8 = 0x6e;

/// Marks a truth value: the letter `b`.
pub const BOOL_LETTER: u8 = 0x62;

/// Follows for what is true: the letter `t`.
pub const TRUE_LETTER: u8 = 0x74;

/// Follows for what is false: the letter `f`.
pub const FALSE_LETTER: u8 = 0x66;

/// Marks a number: the letter `i`.
pub const NUMBER_LETTER: u8 = 0x69;

/// Marks a text: the letter `s`.
pub const STRING_LETTER: u8 = 0x73;

/// Marks an array: the letter `a`.
pub const ARRAY_LETTER: u8 = 0x61;

/// Marks an object and each of its fields: the letter `o`.
pub const OBJECT_LETTER: u8 = 0x6f;

/// One byte more.
pub open spec fn mixed(hash: u64, byte: u8) -> u64 {
    (hash ^ (byte as u64)).wrapping_mul(PRIME)
}

/// Some bytes more.
pub open spec fn hash_of_bytes(hash: u64, bytes: Seq<u8>) -> u64
    decreases bytes.len(),
{
    if bytes.len() == 0 {
        hash
    } else {
        mixed(hash_of_bytes(hash, bytes.drop_last()), bytes.last())
    }
}

/// Mixes bytes into a hash.
pub fn stable_hash_bytes(hash: u64, bytes: &[u8]) -> (result: u64)
    ensures
        result == hash_of_bytes(hash, bytes@),
{
    let mut current: u64 = hash;
    let mut i: usize = 0;
    assert(bytes@.take(0) =~= seq![]);
    while i < bytes.len()
        invariant
            i <= bytes.len(),
            current == hash_of_bytes(hash, bytes@.take(i as int)),
        decreases bytes.len() - i,
    {
        assert(bytes@.take(i + 1).drop_last() =~= bytes@.take(i as int));
        current = (current ^ (bytes[i] as u64)).wrapping_mul(PRIME);
        i += 1;
    }
    assert(bytes@.take(i as int) =~= bytes@);
    current
}

fn stable_hash_byte(hash: u64, byte: u8) -> (result: u64)
    ensures
        result == hash_of_bytes(hash, seq![byte]),
{
    assert(seq![byte].drop_last() =~= seq![]);
    assert(hash_of_bytes(hash, seq![byte].drop_last()) == hash);
    (hash ^ (byte as u64)).wrapping_mul(PRIME)
}

/// The hash of a text.
pub open spec fn text_hash(text: Seq<char>) -> u64 {
    hash_of_bytes(OFFSET_BASIS, encode_utf8(text))
}

/// The hash of a text.
pub fn stable_string_hash(value: &str) -> (hash: u64)
    ensures
        hash == text_hash(value@),
{
    stable_hash_bytes(OFFSET_BASIS, value.as_bytes())
}

/// A number as bytes, the least first.
pub open spec fn low_bytes(number: nat, count: nat) -> Seq<u8>
    decreases count,
{
    if count == 0 {
        seq![]
    } else {
        seq![(number % 256) as u8] + low_bytes(number / 256, (count - 1) as nat)
    }
}

/// One number more, as the bytes of a machine word.
pub open spec fn hash_of_number(hash: u64, number: nat) -> u64 {
    hash_of_bytes(hash, low_bytes(number, (usize::BITS / 8) as nat))
}

proof fn lemma_hash_concat(hash: u64, left: Seq<u8>, right: Seq<u8>)
    ensures
        hash_of_bytes(hash, left + right) == hash_of_bytes(hash_of_bytes(hash, left), right),
    decreases right.len(),
{
    if right.len() == 0 {
        assert(left + right =~= left);
    } else {
        lemma_hash_concat(hash, left, right.drop_last());
        assert((left + right).drop_last() =~= left + right.drop_last());
        assert((left + right).last() == right.last());
    }
}

/// Mixes a length into a hash.
pub fn stable_hash_usize(hash: u64, value: usize) -> (result: u64)
    ensures
        result == hash_of_number(hash, value as nat),
{
    let mut current: u64 = hash;
    let mut rest: usize = value;
    let mut left: u32 = usize::BITS / 8;
    while left > 0
        invariant
            hash_of_bytes(current, low_bytes(rest as nat, left as nat)) == hash_of_number(
                hash,
                value as nat,
            ),
        decreases left,
    {
        let byte = (rest % 256) as u8;
        proof {
            lemma_hash_concat(
                current,
                seq![byte],
                low_bytes((rest / 256) as nat, (left - 1) as nat),
            );
        }
        current = stable_hash_byte(current, byte);
        rest = rest / 256;
        left -= 1;
    }
    current
}

/// One text more: its bytes, then their number.
pub open spec fn hash_of_text(hash: u64, text: Seq<char>) -> u64 {
    hash_of_number(hash_of_bytes(hash, encode_utf8(text)), byte_length(text))
}

/// Mixes a text into a hash.
pub fn stable_hash_string(hash: u64, value: &str) -> (result: u64)
    ensures
        result == hash_of_text(hash, value@),
{
    let bytes = value.as_bytes();
    stable_hash_usize(stable_hash_bytes(hash, bytes), bytes.len())
}

/// The keys of the fields of an object.
pub open spec fn field_keys(fields: Seq<(Seq<char>, Json)>) -> Seq<Seq<char>> {
    fields.map_values(|field: (Seq<char>, Json)| field.0)
}

/// The order in which the fields of an object are hashed.
pub open spec fn field_order(fields: Seq<(Seq<char>, Json)>) -> Seq<int> {
    sorted_indices(field_keys(fields), fields.len())
}

/// One JSON value more: a letter for its type, then what it holds, the fields of
/// an object in the order of their keys.
pub open spec fn hash_of_json(hash: u64, value: Json) -> u64
    decreases value, 0nat,
{
    match value {
        Json::Null => hash_of_bytes(hash, seq![NULL_LETTER]),
        Json::Bool(truth) => hash_of_bytes(
            hash_of_bytes(hash, seq![BOOL_LETTER]),
            seq![
                if truth {
                    TRUE_LETTER
                } else {
                    FALSE_LETTER
                },
            ],
        ),
        Json::Number(number) => hash_of_text(
            hash_of_bytes(hash, seq![NUMBER_LETTER]),
            signed_decimal(number),
        ),
        Json::Str(text) => hash_of_text(hash_of_bytes(hash, seq![STRING_LETTER]), text),
        Json::Array(items) => hash_of_items(
            hash_of_number(hash_of_bytes(hash, seq![ARRAY_LETTER]), items.len()),
            items,
            items.len(),
        ),
        Json::Object(fields) => hash_of_fields(
            hash_of_number(hash_of_bytes(hash, seq![OBJECT_LETTER]), fields.len()),
            fields,
            field_order(fields),
            fields.len(),
        ),
    }
}

/// The first `count` items of an array more.
pub open spec fn hash_of_items(hash: u64, items: Seq<Json>, count: nat) -> u64
    decreases items, count,
{
    if count == 0 || count > items.len() {
        hash
    } else {
        hash_of_json(hash_of_items(hash, items, (count - 1) as nat), items[count - 1])
    }
}

/// The first `count` fields of an object more, in some order.
pub open spec fn hash_of_fields(
    hash: u64,
    fields: Seq<(Seq<char>, Json)>,
    order: Seq<int>,
    count: nat,
) -> u64
    decreases fields, count,
{
    if count == 0 || count > order.len() || !(0 <= order[count - 1] < fields.len()) {
        hash
    } else {
        let before = hash_of_fields(hash, fields, order, (count - 1) as nat);
        let field = fields[order[count - 1]];
        hash_of_json(hash_of_text(hash_of_bytes(before, seq![OBJECT_LETTER]), field.0), field.1)
    }
}

/// Mixes a JSON value into a hash.
#[verifier::loop_isolation(false)]
pub fn stable_hash_value(hash: u64, value: &Value) -> (result: u64)
    ensures
        result == hash_of_json(hash, value@),
    decreases value,
{
    broadcast use {lemma_item_views, lemma_field_views};

    match value {
        Value::Null => stable_hash_byte(hash, NULL_LETTER),
        Value::Bool(truth) => {
            let tagged = stable_hash_byte(hash, BOOL_LETTER);
            if *truth {
                stable_hash_byte(tagged, TRUE_LETTER)
            } else {
                stable_hash_byte(tagged, FALSE_LETTER)
            }
        },
        Value::Number(number) => {
            let digits = print_i64(*number);
            stable_hash_string(stable_hash_byte(hash, NUMBER_LETTER), &digits)
        },
        Value::String(text) => stable_hash_string(stable_hash_byte(hash, STRING_LETTER), text),
        Value::Array(items) => {
            let ghost all = item_views(items@);
            let start = stable_hash_usize(stable_hash_byte(hash, ARRAY_LETTER), items.len());
            let mut current: u64 = start;
            let mut i: usize = 0;
            while i < items.len()
                invariant
                    i <= items.len(),
                    all == item_views(items@),
                    current == hash_of_items(start, all, i as nat),
                decreases items.len() - i,
            {
                current = stable_hash_value(current, &items[i]);
                i += 1;
            }
            current
        },
        Value::Object(fields) => {
            let ghost all = field_views(fields@);
            let mut keys: Vec<String> = Vec::new();
            let mut k: usize = 0;
            while k < fields.len()
                invariant
                    k <= fields.len(),
                    keys@.len() == k,
                    forall|j: int| 0 <= j < k ==> (#[trigger] keys@[j])@ == fields@[j].0@,
                decreases fields.len() - k,
            {
                keys.push(fields[k].0.clone());
                k += 1;
            }
            assert(views(keys@) =~= field_keys(all));
            let order = sort_indices(&keys);
            let ghost indices = index_views(order@);
            let start = stable_hash_usize(stable_hash_byte(hash, OBJECT_LETTER), fields.len());
            let mut current: u64 = start;
            let mut i: usize = 0;
            while i < order.len()
                invariant
                    i <= order.len(),
                    order.len() == fields.len(),
                    all == field_views(fields@),
                    indices == index_views(order@),
                    forall|j: int| 0 <= j < order@.len() ==> #[trigger] order@[j] < fields@.len(),
                    current == hash_of_fields(start, all, indices, i as nat),
                decreases order.len() - i,
            {
                let index = order[i];
                assert(indices[i as int] == index);
                current = stable_hash_byte(current, OBJECT_LETTER);
                current = stable_hash_string(current, &fields[index].0);
                current = stable_hash_value(current, &fields[index].1);
                i += 1;
            }
            current
        },
    }
}

/// The name under which a request is entered into the journal: its method, and a
/// hash of the method and its parameters.
pub open spec fn operation_name(method: Seq<char>, params: Json) -> Seq<char> {
    method + ":"@ + hex_digits(hash_of_json(text_hash(method), params) as nat, 16)
}

/// The name under which a request is entered into the journal.
pub fn request_operation(method: &str, params: &Value) -> (name: String)
    ensures
        name@ == operation_name(method@, params@),
{
    let hash = stable_hash_value(stable_string_hash(method), params);
    let digits = print_hex_digits(hash, 16);
    concat3(method, ":", &digits)
}

// ---------------------------------------------------------------------------
// The order of fields does not matter
// ---------------------------------------------------------------------------

/// Whether indices stand in the order of their keys.
pub open spec fn in_order(keys: Seq<Seq<char>>, indices: Seq<int>) -> bool {
    forall|i: int, j: int|
        #![trigger keys[indices[i]], keys[indices[j]]]
        0 <= i < j < indices.len() ==> text_le(keys[indices[i]], keys[indices[j]])
}

/// Whether indices are those below `count`, each once.
pub open spec fn is_permutation(indices: Seq<int>, count: nat) -> bool {
    &&& indices.len() == count
    &&& indices.no_duplicates()
    &&& forall|i: int| 0 <= i < count ==> #[trigger] indices.contains(i)
    &&& forall|i: int| 0 <= i < indices.len() ==> 0 <= #[trigger] indices[i] < count
}

proof fn lemma_insert(keys: Seq<Seq<char>>, sorted: Seq<int>, index: int)
    requires
        in_order(keys, sorted),
    ensures
        in_order(keys, insert_index(keys, sorted, index)),
        insert_index(keys, sorted, index).to_multiset() == sorted.to_multiset().insert(index),
        forall|k: int|
            0 <= k < insert_index(keys, sorted, index).len() ==> #[trigger] insert_index(
                keys,
                sorted,
                index,
            )[k] == index || sorted.contains(insert_index(keys, sorted, index)[k]),
        insert_index(keys, sorted, index).len() == sorted.len() + 1,
    decreases sorted.len(),
{
    broadcast use vstd::seq_lib::group_to_multiset_ensures;

    let result = insert_index(keys, sorted, index);
    if sorted.len() == 0 {
        assert(result =~= sorted.push(index));
    } else if text_le(keys[sorted.last()], keys[index]) {
        assert forall|i: int, j: int|
            #![trigger keys[result[i]], keys[result[j]]]
            0 <= i < j < result.len() implies text_le(keys[result[i]], keys[result[j]]) by {
            if j == sorted.len() {
                if i < sorted.len() - 1 {
                    assert(text_le(keys[sorted[i]], keys[sorted[sorted.len() - 1]]));
                    text_order_is_transitive(
                        keys[sorted[i]],
                        keys[sorted.last()],
                        keys[index],
                    );
                }
            } else {
                assert(text_le(keys[sorted[i]], keys[sorted[j]]));
            }
        }
    } else {
        let shorter = sorted.drop_last();
        assert(in_order(keys, shorter)) by {
            assert forall|i: int, j: int|
                #![trigger keys[shorter[i]], keys[shorter[j]]]
                0 <= i < j < shorter.len() implies text_le(keys[shorter[i]], keys[shorter[j]]) by {
                assert(text_le(keys[sorted[i]], keys[sorted[j]]));
            }
        }
        lemma_insert(keys, shorter, index);
        let inner = insert_index(keys, shorter, index);
        let last = sorted.last();
        text_order_is_total(keys[index], keys[last]);
        assert forall|i: int, j: int|
            #![trigger keys[result[i]], keys[result[j]]]
            0 <= i < j < result.len() implies text_le(keys[result[i]], keys[result[j]]) by {
            if j == inner.len() {
                assert(result[i] == inner[i]);
                if inner[i] != index {
                    let k = choose|k: int| 0 <= k < shorter.len() && shorter[k] == inner[i];
                    assert(text_le(keys[sorted[k]], keys[sorted[sorted.len() - 1]]));
                }
            } else {
                assert(text_le(keys[inner[i]], keys[inner[j]]));
            }
        }
        assert forall|k: int| 0 <= k < result.len() implies #[trigger] result[k] == index
            || sorted.contains(result[k]) by {
            if k < inner.len() {
                assert(result[k] == inner[k]);
                if inner[k] != index {
                    let m = choose|m: int| 0 <= m < shorter.len() && shorter[m] == inner[k];
                    assert(sorted[m] == inner[k]);
                }
            } else {
                assert(sorted[sorted.len() - 1] == result[k]);
            }
        }
        assert(sorted =~= shorter.push(last));
        assert(result =~= inner.push(last));
        assert(result.to_multiset() =~= sorted.to_multiset().insert(index));
    }
}

pub proof fn lemma_sorted(keys: Seq<Seq<char>>, count: nat)
    ensures
        in_order(keys, sorted_indices(keys, count)),
        is_permutation(sorted_indices(keys, count), count),
    decreases count,
{
    broadcast use vstd::seq_lib::group_to_multiset_ensures;

    if count > 0 {
        let before = sorted_indices(keys, (count - 1) as nat);
        lemma_sorted(keys, (count - 1) as nat);
        lemma_insert(keys, before, count - 1);
        let after = sorted_indices(keys, count);
        assert(!before.contains(count - 1));
        before.lemma_multiset_has_no_duplicates();
        assert(before.to_multiset().count(count - 1) == 0);
        assert forall|x: int| after.to_multiset().contains(x) implies after.to_multiset().count(x)
            == 1 by {
            if x != count - 1 {
                assert(before.to_multiset().contains(x));
            }
        }
        after.lemma_multiset_has_no_duplicates_conv();
        assert forall|i: int| 0 <= i < count implies #[trigger] after.contains(i) by {
            if i < count - 1 {
                assert(before.contains(i));
                assert(before.to_multiset().contains(i));
            }
            assert(after.to_multiset().contains(i));
        }
        assert forall|i: int| 0 <= i < after.len() implies 0 <= #[trigger] after[i] < count by {
            if after[i] != count - 1 {
                let k = choose|k: int| 0 <= k < before.len() && before[k] == after[i];
                assert(0 <= before[k] < count - 1);
            }
        }
    }
}

/// Whether two objects have the same fields, in whatever order, and none twice.
pub open spec fn same_fields(
    left: Seq<(Seq<char>, Json)>,
    right: Seq<(Seq<char>, Json)>,
) -> bool {
    &&& left.len() == right.len()
    &&& forall|i: int, j: int|
        #![trigger left[i], left[j]]
        0 <= i < j < left.len() ==> left[i].0 != left[j].0
    &&& forall|i: int, j: int|
        #![trigger right[i], right[j]]
        0 <= i < j < right.len() ==> right[i].0 != right[j].0
    &&& forall|i: int| 0 <= i < left.len() ==> right.contains(#[trigger] left[i])
    &&& forall|i: int| 0 <= i < right.len() ==> left.contains(#[trigger] right[i])
}

proof fn lemma_rank(
    left: Seq<(Seq<char>, Json)>,
    right: Seq<(Seq<char>, Json)>,
    rank: int,
)
    requires
        same_fields(left, right),
        0 <= rank < left.len(),
        forall|i: int|
            0 <= i < rank ==> left[#[trigger] field_order(left)[i]]
                == right[field_order(right)[i]],
    ensures
        text_le(right[field_order(right)[rank]].0, left[field_order(left)[rank]].0),
{
    let a = field_order(left);
    let b = field_order(right);
    lemma_sorted(field_keys(left), left.len());
    lemma_sorted(field_keys(right), right.len());
    let wanted = left[a[rank]];
    assert(right.contains(wanted));
    let p = choose|p: int| 0 <= p < right.len() && right[p] == wanted;
    assert(b.contains(p));
    let q = choose|q: int| 0 <= q < b.len() && b[q] == p;
    if q < rank {
        assert(left[a[q]] == right[b[q]]);
        assert(a[q] != a[rank]);
        assert(left[a[q]].0 != left[a[rank]].0);
    } else if q > rank {
        let keys = field_keys(right);
        assert(text_le(keys[b[rank]], keys[b[q]]));
    } else {
        text_order_is_total(wanted.0, wanted.0);
    }
}

proof fn lemma_same_rank(
    left: Seq<(Seq<char>, Json)>,
    right: Seq<(Seq<char>, Json)>,
    rank: int,
)
    requires
        same_fields(left, right),
        0 <= rank < left.len(),
    ensures
        0 <= field_order(left)[rank] < left.len(),
        0 <= field_order(right)[rank] < right.len(),
        left[field_order(left)[rank]] == right[field_order(right)[rank]],
    decreases rank,
{
    let a = field_order(left);
    let b = field_order(right);
    lemma_sorted(field_keys(left), left.len());
    lemma_sorted(field_keys(right), right.len());
    assert forall|i: int| 0 <= i < rank implies left[#[trigger] a[i]] == right[b[i]] by {
        lemma_same_rank(left, right, i);
    }
    lemma_rank(left, right, rank);
    assert forall|i: int| 0 <= i < rank implies right[#[trigger] b[i]] == left[a[i]] by {
        assert(left[a[i]] == right[b[i]]);
    }
    lemma_rank(right, left, rank);
    text_order_is_antisymmetric(left[a[rank]].0, right[b[rank]].0);
    let p = choose|p: int| 0 <= p < right.len() && right[p] == left[a[rank]];
    assert(right.contains(left[a[rank]]));
    if p < b[rank] {
        assert(right[p].0 != right[b[rank]].0);
    } else if p > b[rank] {
        assert(right[b[rank]].0 != right[p].0);
    }
}

proof fn lemma_same_hash(
    hash: u64,
    left: Seq<(Seq<char>, Json)>,
    right: Seq<(Seq<char>, Json)>,
    count: nat,
)
    requires
        same_fields(left, right),
        count <= left.len(),
    ensures
        hash_of_fields(hash, left, field_order(left), count) == hash_of_fields(
            hash,
            right,
            field_order(right),
            count,
        ),
    decreases count,
{
    if count > 0 {
        lemma_same_hash(hash, left, right, (count - 1) as nat);
        lemma_same_rank(left, right, count - 1);
        lemma_sorted(field_keys(left), left.len());
        lemma_sorted(field_keys(right), right.len());
    }
}

/// Whether no two fields of an object have the same key.
pub open spec fn keys_differ(fields: Seq<(Seq<char>, Json)>) -> bool {
    forall|i: int, j: int|
        #![trigger fields[i], fields[j]]
        0 <= i < j < fields.len() ==> fields[i].0 != fields[j].0
}

proof fn lemma_rearranged(left: Seq<(Seq<char>, Json)>, right: Seq<(Seq<char>, Json)>)
    requires
        keys_differ(left),
        left.to_multiset() == right.to_multiset(),
    ensures
        same_fields(left, right),
{
    broadcast use vstd::seq_lib::group_to_multiset_ensures;

    assert(left.to_multiset().len() == left.len());
    assert(right.to_multiset().len() == right.len());
    assert forall|i: int| 0 <= i < left.len() implies right.contains(#[trigger] left[i]) by {
        assert(left.contains(left[i]));
        assert(right.to_multiset().contains(left[i]));
    }
    assert forall|i: int| 0 <= i < right.len() implies left.contains(#[trigger] right[i]) by {
        assert(right.contains(right[i]));
        assert(left.to_multiset().contains(right[i]));
    }
    assert(left.no_duplicates());
    left.lemma_multiset_has_no_duplicates();
    assert forall|x: (Seq<char>, Json)| right.to_multiset().contains(x) implies
        right.to_multiset().count(x) == 1 by {
        assert(left.to_multiset().contains(x));
    }
    right.lemma_multiset_has_no_duplicates_conv();
    assert forall|i: int, j: int|
        #![trigger right[i], right[j]]
        0 <= i < j < right.len() implies right[i].0 != right[j].0 by {
        if right[i].0 == right[j].0 {
            let p = choose|p: int| 0 <= p < left.len() && left[p] == right[i];
            let q = choose|q: int| 0 <= q < left.len() && left[q] == right[j];
            assert(left.contains(right[i]) && left.contains(right[j]));
            if p < q {
                assert(left[p].0 != left[q].0);
            } else if q < p {
                assert(left[q].0 != left[p].0);
            }
            assert(right[i] == right[j]);
        }
    }
}

/// Objects that differ only in the order of their fields, of which no two have the
/// same key, have the same hash, whatever was hashed before them.
pub proof fn hash_ignores_field_order(
    hash: u64,
    left: Seq<(Seq<char>, Json)>,
    right: Seq<(Seq<char>, Json)>,
)
    requires
        keys_differ(left),
        left.to_multiset() == right.to_multiset(),
    ensures
        hash_of_json(hash, Json::Object(left)) == hash_of_json(hash, Json::Object(right)),
{
    lemma_rearranged(left, right);
    let start = hash_of_number(hash_of_bytes(hash, seq![OBJECT_LETTER]), left.len());
    lemma_same_hash(start, left, right, left.len());
}

/// Parameters that differ only in the order of their fields make the same request.
pub proof fn operation_ignores_field_order(
    method: Seq<char>,
    left: Seq<(Seq<char>, Json)>,
    right: Seq<(Seq<char>, Json)>,
)
    requires
        keys_differ(left),
        left.to_multiset() == right.to_multiset(),
    ensures
        operation_name(method, Json::Object(left)) == operation_name(method, Json::Object(right)),
{
    hash_ignores_field_order(text_hash(method), left, right);
}

} // verus!
