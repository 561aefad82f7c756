//! The order of texts: by their characters, the first difference deciding.

use crate::text::to_chars;
use crate::text::views;
use vstd::prelude::*;

verus! {

/// Whether `left` stands before `right` or equals it.
pub open spec fn text_le(left: Seq<char>, right: Seq<char>) -> bool
    decreases left.len(),
{
    if left.len() == 0 {
        true
    } else if right.len() == 0 {
        false
    } else if left[0] == right[0] {
        text_le(left.drop_first(), right.drop_first())
    } else {
        (left[0] as u32) < (right[0] as u32)
    }
}

/// Whether `left` stands before `right` or equals it.
pub fn text_at_most(left: &str, right: &str) -> (result: bool)
    ensures
        result == text_le(left@, right@),
{
    let a = to_chars(left);
    let b = to_chars(right);
    let mut i: usize = 0;
    assert(a@.skip(0) =~= a@);
    assert(b@.skip(0) =~= b@);
    loop
        invariant
            i <= a@.len(),
            i <= b@.len(),
            a@ == left@,
            b@ == right@,
            text_le(a@.skip(i as int), b@.skip(i as int)) == text_le(left@, right@),
        decreases a@.len() - i,
    {
        if i >= a.len() {
            return true;
        }
        if i >= b.len() {
            return false;
        }
        assert(a@.skip(i as int).drop_first() =~= a@.skip(i + 1));
        assert(b@.skip(i as int).drop_first() =~= b@.skip(i + 1));
        if a[i] != b[i] {
            let x: u32 = a[i] as u32;
            let y: u32 = b[i] as u32;
            return x < y;
        }
        i += 1;
    }
}

/// The order is total.
pub proof fn text_order_is_total(left: Seq<char>, right: Seq<char>)
    ensures
        text_le(left, right) || text_le(right, left),
    decreases left.len(),
{
    if left.len() > 0 && right.len() > 0 {
        if left[0] == right[0] {
            text_order_is_total(left.drop_first(), right.drop_first());
        } else {
            vstd::utf8::char_u32_cast(left[0], left[0] as u32);
            vstd::utf8::char_u32_cast(right[0], right[0] as u32);
        }
    }
}

/// Two texts that stand before each other are the same.
pub proof fn text_order_is_antisymmetric(left: Seq<char>, right: Seq<char>)
    requires
        text_le(left, right),
        text_le(right, left),
    ensures
        left == right,
    decreases left.len(),
{
    if left.len() == 0 || right.len() == 0 {
        assert(left =~= right);
    } else {
        assert(left[0] == right[0]);
        text_order_is_antisymmetric(left.drop_first(), right.drop_first());
        assert(left =~= seq![left[0]] + left.drop_first());
        assert(right =~= seq![right[0]] + right.drop_first());
    }
}

/// The order is transitive.
pub proof fn text_order_is_transitive(first: Seq<char>, second: Seq<char>, third: Seq<char>)
    requires
        text_le(first, second),
        text_le(second, third),
    ensures
        text_le(first, third),
    decreases first.len(),
{
    if first.len() > 0 && second.len() > 0 && third.len() > 0 && first[0] == second[0]
        && second[0] == third[0] {
        text_order_is_transitive(
            first.drop_first(),
            second.drop_first(),
            third.drop_first(),
        );
    }
}

/// A key put in its place among sorted keys, after those that equal it. Keys are
/// known by their index in `keys`.
pub open spec fn insert_index(keys: Seq<Seq<char>>, sorted: Seq<int>, index: int) -> Seq<int>
    decreases sorted.len(),
{
    if sorted.len() == 0 {
        seq![index]
    } else if text_le(keys[sorted.last()], keys[index]) {
        sorted.push(index)
    } else {
        insert_index(keys, sorted.drop_last(), index).push(sorted.last())
    }
}

/// The indices of the first `count` keys in the order of the keys; equal keys
/// keep the order in which they stand.
pub open spec fn sorted_indices(keys: Seq<Seq<char>>, count: nat) -> Seq<int>
    decreases count,
{
    if count == 0 {
        seq![]
    } else {
        insert_index(keys, sorted_indices(keys, (count - 1) as nat), count - 1)
    }
}

proof fn lemma_insert_at(keys: Seq<Seq<char>>, sorted: Seq<int>, index: int, place: int)
    requires
        0 <= place <= sorted.len(),
        place > 0 ==> text_le(keys[sorted[place - 1]], keys[index]),
        forall|j: int|
            place <= j < sorted.len() ==> !text_le(#[trigger] keys[sorted[j]], keys[index]),
    ensures
        insert_index(keys, sorted, index) == sorted.insert(place, index),
    decreases sorted.len(),
{
    if sorted.len() == 0 {
        assert(sorted.insert(place, index) =~= seq![index]);
    } else if place == sorted.len() {
        assert(sorted.insert(place, index) =~= sorted.push(index));
    } else {
        let shorter = sorted.drop_last();
        assert(!text_le(keys[sorted[sorted.len() - 1]], keys[index]));
        assert forall|j: int| place <= j < shorter.len() implies !text_le(
            #[trigger] keys[shorter[j]],
            keys[index],
        ) by {
            assert(shorter[j] == sorted[j]);
            assert(!text_le(keys[sorted[j]], keys[index]));
        }
        if place > 0 {
            assert(shorter[place - 1] == sorted[place - 1]);
        }
        lemma_insert_at(keys, shorter, index, place);
        assert(sorted.insert(place, index) =~= shorter.insert(place, index).push(sorted.last()));
    }
}

proof fn lemma_inserted(keys: Seq<Seq<char>>, sorted: Seq<int>, index: int)
    ensures
        insert_index(keys, sorted, index).len() == sorted.len() + 1,
        insert_index(keys, sorted, index).contains(index),
        forall|k: int|
            0 <= k < sorted.len() ==> insert_index(keys, sorted, index).contains(
                #[trigger] sorted[k],
            ),
        forall|k: int|
            0 <= k < sorted.len() + 1 ==> (#[trigger] insert_index(keys, sorted, index)[k]) == index
                || sorted.contains(insert_index(keys, sorted, index)[k]),
    decreases sorted.len(),
{
    let after = insert_index(keys, sorted, index);
    if sorted.len() == 0 {
        assert(after[0] == index);
    } else if text_le(keys[sorted.last()], keys[index]) {
        assert(after[sorted.len() as int] == index);
        assert forall|k: int| 0 <= k < sorted.len() implies after.contains(
            #[trigger] sorted[k],
        ) by {
            assert(after[k] == sorted[k]);
        }
        assert forall|k: int| 0 <= k < after.len() implies (#[trigger] after[k]) == index
            || sorted.contains(after[k]) by {
            if k < sorted.len() {
                assert(sorted[k] == after[k]);
            }
        }
    } else {
        let shorter = sorted.drop_last();
        let inner = insert_index(keys, shorter, index);
        lemma_inserted(keys, shorter, index);
        let place = choose|k: int| 0 <= k < inner.len() && inner[k] == index;
        assert(after[place] == index);
        assert forall|k: int| 0 <= k < sorted.len() implies after.contains(
            #[trigger] sorted[k],
        ) by {
            if k < shorter.len() {
                assert(inner.contains(shorter[k]));
                let at = choose|m: int| 0 <= m < inner.len() && inner[m] == shorter[k];
                assert(after[at] == sorted[k]);
            } else {
                assert(after[inner.len() as int] == sorted[k]);
            }
        }
        assert forall|k: int| 0 <= k < after.len() implies (#[trigger] after[k]) == index
            || sorted.contains(after[k]) by {
            if k < inner.len() {
                assert(after[k] == inner[k]);
                if inner[k] != index {
                    let at = choose|m: int| 0 <= m < shorter.len() && shorter[m] == inner[k];
                    assert(sorted[at] == after[k]);
                }
            } else {
                assert(after[k] == sorted[sorted.len() - 1]);
            }
        }
    }
}

/// Sorting keeps every key, and adds none.
pub proof fn sorting_keeps_every_key(keys: Seq<Seq<char>>, count: nat)
    ensures
        sorted_indices(keys, count).len() == count,
        forall|k: int|
            0 <= k < count ==> 0 <= (#[trigger] sorted_indices(keys, count)[k]) < count,
        forall|index: int| 0 <= index < count ==> sorted_indices(keys, count).contains(index),
    decreases count,
{
    if count > 0 {
        let sorted = sorted_indices(keys, (count - 1) as nat);
        let after = sorted_indices(keys, count);
        sorting_keeps_every_key(keys, (count - 1) as nat);
        lemma_inserted(keys, sorted, count - 1);
        assert forall|k: int| 0 <= k < count implies 0 <= (#[trigger] after[k]) < count by {
            if after[k] != count - 1 {
                let at = choose|m: int| 0 <= m < sorted.len() && sorted[m] == after[k];
                assert(0 <= sorted[at] < count - 1);
            }
        }
        assert forall|index: int| 0 <= index < count implies after.contains(index) by {
            if index < count - 1 {
                assert(sorted.contains(index));
                let at = choose|m: int| 0 <= m < sorted.len() && sorted[m] == index;
                assert(after.contains(sorted[at]));
            }
        }
    }
}

/// Whether the keys stand in order.
pub open spec fn in_order(keys: Seq<Seq<char>>, indices: Seq<int>) -> bool {
    forall|i: int, j: int|
        #![trigger indices[i], indices[j]]
        0 <= i < j < indices.len() ==> text_le(keys[indices[i]], keys[indices[j]])
}

proof fn lemma_inserted_in_order(keys: Seq<Seq<char>>, sorted: Seq<int>, index: int)
    requires
        in_order(keys, sorted),
    ensures
        in_order(keys, insert_index(keys, sorted, index)),
    decreases sorted.len(),
{
    let after = insert_index(keys, sorted, index);
    if sorted.len() == 0 {
    } else if text_le(keys[sorted.last()], keys[index]) {
        assert forall|i: int, j: int|
            #![trigger after[i], after[j]]
            0 <= i < j < after.len() implies text_le(keys[after[i]], keys[after[j]]) by {
            assert(after[i] == sorted[i]);
            if j < sorted.len() {
                assert(after[j] == sorted[j]);
            } else {
                let last = sorted.len() - 1;
                if i < last {
                    assert(text_le(keys[sorted[i]], keys[sorted[last]]));
                    text_order_is_transitive(keys[sorted[i]], keys[sorted[last]], keys[index]);
                }
            }
        }
    } else {
        let shorter = sorted.drop_last();
        let inner = insert_index(keys, shorter, index);
        assert forall|i: int, j: int|
            #![trigger shorter[i], shorter[j]]
            0 <= i < j < shorter.len() implies text_le(keys[shorter[i]], keys[shorter[j]]) by {
            assert(text_le(keys[sorted[i]], keys[sorted[j]]));
        }
        lemma_inserted_in_order(keys, shorter, index);
        lemma_inserted(keys, shorter, index);
        assert forall|i: int, j: int|
            #![trigger after[i], after[j]]
            0 <= i < j < after.len() implies text_le(keys[after[i]], keys[after[j]]) by {
            assert(after[i] == inner[i]);
            if j < inner.len() {
                assert(after[j] == inner[j]);
            } else if inner[i] == index {
                text_order_is_total(keys[index], keys[sorted.last()]);
            } else {
                let at = choose|m: int| 0 <= m < shorter.len() && shorter[m] == inner[i];
                assert(text_le(keys[sorted[at]], keys[sorted[sorted.len() - 1]]));
            }
        }
    }
}

/// Sorting puts the keys in order.
pub proof fn sorting_puts_keys_in_order(keys: Seq<Seq<char>>, count: nat)
    ensures
        in_order(keys, sorted_indices(keys, count)),
    decreases count,
{
    if count > 0 {
        sorting_puts_keys_in_order(keys, (count - 1) as nat);
        lemma_inserted_in_order(keys, sorted_indices(keys, (count - 1) as nat), count - 1);
    }
}

/// The views of indices.
pub open spec fn index_views(indices: Seq<usize>) -> Seq<int> {
    Seq::new(indices.len(), |i: int| indices[i] as int)
}

/// The indices of keys in the order of the keys; equal keys keep the order in
/// which they stand.
pub fn sort_indices(keys: &Vec<String>) -> (order: Vec<usize>)
    ensures
        index_views(order@) == sorted_indices(views(keys@), keys@.len()),
        order@.len() == keys@.len(),
        forall|i: int| 0 <= i < order@.len() ==> #[trigger] order@[i] < keys@.len(),
{
    let ghost all = views(keys@);
    let mut order: Vec<usize> = Vec::new();
    let mut i: usize = 0;
    assert(index_views(order@) =~= sorted_indices(all, 0));
    while i < keys.len()
        invariant
            i <= keys.len(),
            all == views(keys@),
            index_views(order@) == sorted_indices(all, i as nat),
            order@.len() == i,
            forall|j: int| 0 <= j < order@.len() ==> #[trigger] order@[j] < i,
        decreases keys.len() - i,
    {
        let ghost before = order@;
        let mut place: usize = order.len();
        while place > 0 && !text_at_most(&keys[order[place - 1]], &keys[i])
            invariant
                i < keys.len(),
                place <= order@.len(),
                order@ == before,
                all == views(keys@),
                forall|j: int| 0 <= j < order@.len() ==> #[trigger] order@[j] < i,
                forall|j: int|
                    place <= j < order@.len() ==> !text_le(
                        #[trigger] all[index_views(before)[j]],
                        all[i as int],
                    ),
            decreases place,
        {
            assert(all[index_views(before)[place - 1]] == keys@[order@[place - 1] as int]@);
            place -= 1;
        }
        proof {
            if place > 0 {
                assert(all[index_views(before)[place - 1]] == keys@[order@[place - 1] as int]@);
            }
            lemma_insert_at(all, index_views(before), i as int, place as int);
        }
        order.insert(place, i);
        assert(index_views(order@) =~= index_views(before).insert(place as int, i as int));
        assert forall|j: int| 0 <= j < order@.len() implies #[trigger] order@[j] < i + 1 by {
            if j < place {
                assert(order@[j] == before[j]);
            } else if j > place {
                assert(order@[j] == before[j - 1]);
            }
        }
        i += 1;
    }
    order
}

} // verus!
