//! Byte sequences, as programs print them.

use crate::text::pieces;
use vstd::prelude::*;

verus! {

/// The views of byte sequences.
pub open spec fn byte_views(parts: Seq<Vec<u8>>) -> Seq<Seq<u8>> {
    Seq::new(parts.len(), |i: int| parts[i]@)
}

/// Whether two byte sequences are equal.
pub fn same_bytes(left: &[u8], right: &[u8]) -> (same: bool)
    ensures
        same == (left@ == right@),
{
    if left.len() != right.len() {
        return false;
    }
    let mut i: usize = 0;
    while i < left.len()
        invariant
            i <= left.len(),
            left.len() == right.len(),
            forall|j: int| 0 <= j < i ==> left@[j] == right@[j],
        decreases left.len() - i,
    {
        if left[i] != right[i] {
            return false;
        }
        i += 1;
    }
    assert(left@ =~= right@);
    true
}

/// The bytes in `bytes[start..end]`.
pub(crate) fn slice_bytes(bytes: &[u8], start: usize, end: usize) -> (part: Vec<u8>)
    requires
        start <= end <= bytes@.len(),
    ensures
        part@ == bytes@.subrange(start as int, end as int),
{
    let mut part: Vec<u8> = Vec::new();
    let mut i: usize = start;
    while i < end
        invariant
            start <= i <= end <= bytes@.len(),
            part@ == bytes@.subrange(start as int, i as int),
        decreases end - i,
    {
        part.push(bytes[i]);
        assert(bytes@.subrange(start as int, i + 1) =~= bytes@.subrange(start as int, i as int).push(
            bytes@[i as int],
        ));
        i += 1;
    }
    part
}

/// Cuts a byte sequence at every occurrence of `separator`.
pub fn split_bytes(bytes: &[u8], separator: u8) -> (parts: Vec<Vec<u8>>)
    ensures
        byte_views(parts@) == pieces(bytes@, separator),
{
    let mut parts: Vec<Vec<u8>> = Vec::new();
    let mut current: Vec<u8> = Vec::new();
    let mut i: usize = 0;
    assert(bytes@.take(0) =~= seq![]);
    assert(byte_views(parts@).push(current@) =~= seq![seq![]]);
    while i < bytes.len()
        invariant
            i <= bytes.len(),
            byte_views(parts@).push(current@) == pieces(bytes@.take(i as int), separator),
        decreases bytes.len() - i,
    {
        let ghost so_far = byte_views(parts@).push(current@);
        assert(bytes@.take(i + 1).drop_last() =~= bytes@.take(i as int));
        if bytes[i] == separator {
            let ghost before = parts@;
            let ghost part = current@;
            parts.push(current);
            current = Vec::new();
            assert(byte_views(parts@) =~= byte_views(before).push(part));
            assert(byte_views(parts@).push(current@) =~= so_far.push(seq![]));
        } else {
            current.push(bytes[i]);
            assert(so_far.drop_last() =~= byte_views(parts@));
            assert(byte_views(parts@).push(current@) =~= so_far.drop_last().push(
                so_far.last().push(bytes@[i as int]),
            ));
        }
        i += 1;
    }
    assert(bytes@.take(i as int) =~= bytes@);
    let ghost before = parts@;
    let ghost part = current@;
    parts.push(current);
    assert(byte_views(parts@) =~= byte_views(before).push(part));
    parts
}

/// Where `wanted` first occurs.
pub open spec fn first_byte(bytes: Seq<u8>, wanted: u8) -> Option<int>
    decreases bytes.len(),
{
    if bytes.len() == 0 {
        None
    } else {
        match first_byte(bytes.drop_last(), wanted) {
            Some(i) => Some(i),
            None => if bytes.last() == wanted {
                Some(bytes.len() - 1)
            } else {
                None
            },
        }
    }
}

pub proof fn lemma_first_byte(bytes: Seq<u8>, wanted: u8)
    ensures
        match first_byte(bytes, wanted) {
            Some(i) => 0 <= i < bytes.len() && bytes[i] == wanted && forall|j: int|
                0 <= j < i ==> bytes[j] != wanted,
            None => forall|j: int| 0 <= j < bytes.len() ==> bytes[j] != wanted,
        },
    decreases bytes.len(),
{
    if bytes.len() > 0 {
        lemma_first_byte(bytes.drop_last(), wanted);
        assert forall|j: int| 0 <= j < bytes.len() - 1 implies bytes[j] == bytes.drop_last()[j] by {
        }
    }
}

/// Where `wanted` first occurs.
pub fn find_byte(bytes: &[u8], wanted: u8) -> (found: Option<usize>)
    ensures
        match found {
            Some(i) => first_byte(bytes@, wanted) == Some(i as int) && i < bytes@.len(),
            None => first_byte(bytes@, wanted) is None,
        },
{
    proof {
        lemma_first_byte(bytes@, wanted);
    }
    let mut i: usize = 0;
    while i < bytes.len()
        invariant
            i <= bytes.len(),
            forall|j: int| 0 <= j < i ==> bytes@[j] != wanted,
        decreases bytes.len() - i,
    {
        if bytes[i] == wanted {
            proof {
                lemma_first_byte(bytes@, wanted);
            }
            return Some(i);
        }
        i += 1;
    }
    None
}

} // verus!
