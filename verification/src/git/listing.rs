//! The worktrees that Git lists are read as Git lists them.

use crate::bytes::first_byte;
use crate::bytes::lemma_first_byte;
use crate::git::error::GitError;
use crate::git::meaning::closed_by;
use crate::git::meaning::closed_parts_are_found;
use crate::git::meaning::lacks;
use crate::git::meaning::lemma_ascii;
use crate::git::meaning::lemma_encoded_text;
use crate::git::meaning::lemma_no_nul;
use crate::git::meaning::no_nul;
use crate::git::porcelain::draft_of;
use crate::git::porcelain::field_key;
use crate::git::porcelain::field_rest;
use crate::git::porcelain::parse_worktree_list_porcelain;
use crate::git::porcelain::record_worktree;
use crate::git::porcelain::record_worktrees;
use crate::git::porcelain::records;
use crate::git::porcelain::with_field;
use crate::git::worktree::GitWorktree;
use crate::git::worktree::GitWorktreeView;
use crate::text::lossy_text;
use crate::text::pieces;
use crate::text::views;
use vstd::prelude::*;
use vstd::utf8::encode_utf8;

verus! {

/// A worktree as `git worktree list --porcelain -z` prints it. A reason may be missing
/// where Git knows none.
pub struct PrintedWorktree {
    pub path: Seq<char>,
    pub head: Option<Seq<char>>,
    pub branch: Option<Seq<char>>,
    pub detached: bool,
    pub bare: bool,
    pub locked: bool,
    pub lock_reason: Option<Seq<char>>,
    pub prunable: bool,
    pub prune_reason: Option<Seq<char>>,
}

/// A field with a value.
pub open spec fn valued(key: Seq<char>, value: Seq<char>) -> Seq<Seq<u8>> {
    seq![encode_utf8(key) + seq![32u8] + encode_utf8(value)]
}

/// A field that may be missing.
pub open spec fn maybe_valued(key: Seq<char>, value: Option<Seq<char>>) -> Seq<Seq<u8>> {
    match value {
        Some(text) => valued(key, text),
        None => seq![],
    }
}

/// A field that is there or not, with a reason or without.
pub open spec fn flagged(key: Seq<char>, set: bool, reason: Option<Seq<char>>) -> Seq<Seq<u8>> {
    if !set {
        seq![]
    } else {
        match reason {
            Some(text) => valued(key, text),
            None => seq![encode_utf8(key)],
        }
    }
}

/// Whether a text that may be missing holds no NUL character.
pub open spec fn maybe_no_nul(text: Option<Seq<char>>) -> bool {
    text is Some ==> no_nul(text->0)
}

impl PrintedWorktree {
    /// Whether Git prints such a worktree: no NUL stands in its texts.
    pub open spec fn is_proper(self) -> bool {
        &&& no_nul(self.path)
        &&& maybe_no_nul(self.head)
        &&& maybe_no_nul(self.branch)
        &&& maybe_no_nul(self.lock_reason)
        &&& maybe_no_nul(self.prune_reason)
    }

    /// The fields that Git prints, in order. A branch is printed with its full name.
    pub open spec fn fields(self) -> Seq<Seq<u8>> {
        valued("worktree"@, self.path) + maybe_valued("HEAD"@, self.head) + maybe_valued(
            "branch"@,
            self.full_branch(),
        ) + flagged("detached"@, self.detached, None) + flagged("bare"@, self.bare, None)
            + flagged("locked"@, self.locked, self.lock_reason) + flagged(
            "prunable"@,
            self.prunable,
            self.prune_reason,
        )
    }

    /// The full name of the branch.
    pub open spec fn full_branch(self) -> Option<Seq<char>> {
        match self.branch {
            Some(name) => Some("refs/heads/"@ + name),
            None => None,
        }
    }

    /// Whether a worktree that was read is this one. The text of a reason is what the
    /// bytes of the reason are read as.
    pub open spec fn is_read_as(self, read: GitWorktreeView) -> bool {
        &&& read.path == self.path
        &&& read.head == self.head
        &&& read.branch == self.branch
        &&& read.detached == self.detached
        &&& read.bare == self.bare
        &&& read.locked == self.locked
        &&& read.prunable == self.prunable
        &&& read.lock_reason == reason_read(self.locked, self.lock_reason)
        &&& read.prune_reason == reason_read(self.prunable, self.prune_reason)
    }
}

/// What the bytes of a reason are read as.
pub open spec fn reason_read(set: bool, reason: Option<Seq<char>>) -> Option<Seq<char>> {
    if set && reason is Some {
        Some(lossy_text(encode_utf8(reason->0)))
    } else {
        None
    }
}

/// Whether a text is a key: ASCII characters, and no space.
spec fn is_key(key: Seq<char>) -> bool {
    &&& key.len() > 0
    &&& forall|i: int| 0 <= i < key.len() ==> 32 < (#[trigger] key[i]) as u32 <= 0x7f
}

proof fn lemma_key(key: Seq<char>, value: Seq<char>)
    requires
        is_key(key),
    ensures
        field_key(encode_utf8(key)) == encode_utf8(key),
        field_rest(encode_utf8(key)) is None,
        field_key(valued(key, value)[0]) == encode_utf8(key),
        field_rest(valued(key, value)[0]) == Some(encode_utf8(value)),
        encode_utf8(key).len() == key.len(),
        lacks(encode_utf8(key), 0u8),
{
    let bytes = encode_utf8(key);
    lemma_ascii(key);
    assert forall|i: int| 0 <= i < bytes.len() implies #[trigger] bytes[i] != 32u8 && bytes[i]
        != 0u8 by {
        assert(32 < key[i] as u32 <= 0x7f);
        assert(bytes[i] == (key[i] as u32) as u8);
    }
    lemma_first_byte(bytes, 32u8);
    let field = valued(key, value)[0];
    lemma_first_byte(field, 32u8);
    let at = bytes.len() as int;
    assert(field[at] == 32u8);
    assert forall|i: int| 0 <= i < at implies field[i] == bytes[i] by {
    }
    let found = first_byte(field, 32u8)->0;
    if found < at {
        assert(field[found] == bytes[found]);
    }
    assert(found == at);
    assert(field.take(at) =~= bytes);
    assert(field.skip(at + 1) =~= encode_utf8(value));
}

proof fn lemma_keys()
    ensures
        is_key("worktree"@),
        is_key("HEAD"@),
        is_key("branch"@),
        is_key("detached"@),
        is_key("bare"@),
        is_key("locked"@),
        is_key("prunable"@),
{
    reveal_strlit("worktree");
    reveal_strlit("HEAD");
    reveal_strlit("branch");
    reveal_strlit("detached");
    reveal_strlit("bare");
    reveal_strlit("locked");
    reveal_strlit("prunable");
}

proof fn lemma_keys_differ()
    ensures
        encode_utf8("HEAD"@) != encode_utf8("worktree"@),
        encode_utf8("branch"@) != encode_utf8("worktree"@),
        encode_utf8("branch"@) != encode_utf8("HEAD"@),
        encode_utf8("detached"@) != encode_utf8("worktree"@),
        encode_utf8("detached"@) != encode_utf8("HEAD"@),
        encode_utf8("detached"@) != encode_utf8("branch"@),
        encode_utf8("bare"@) != encode_utf8("worktree"@),
        encode_utf8("bare"@) != encode_utf8("HEAD"@),
        encode_utf8("bare"@) != encode_utf8("branch"@),
        encode_utf8("bare"@) != encode_utf8("detached"@),
        encode_utf8("locked"@) != encode_utf8("worktree"@),
        encode_utf8("locked"@) != encode_utf8("HEAD"@),
        encode_utf8("locked"@) != encode_utf8("branch"@),
        encode_utf8("locked"@) != encode_utf8("detached"@),
        encode_utf8("locked"@) != encode_utf8("bare"@),
        encode_utf8("prunable"@) != encode_utf8("worktree"@),
        encode_utf8("prunable"@) != encode_utf8("HEAD"@),
        encode_utf8("prunable"@) != encode_utf8("branch"@),
        encode_utf8("prunable"@) != encode_utf8("detached"@),
        encode_utf8("prunable"@) != encode_utf8("bare"@),
        encode_utf8("prunable"@) != encode_utf8("locked"@),
{
    lemma_encoded_text("worktree"@);
    lemma_encoded_text("HEAD"@);
    lemma_encoded_text("branch"@);
    lemma_encoded_text("detached"@);
    lemma_encoded_text("bare"@);
    lemma_encoded_text("locked"@);
    lemma_encoded_text("prunable"@);
    reveal_strlit("worktree");
    reveal_strlit("HEAD");
    reveal_strlit("branch");
    reveal_strlit("detached");
    reveal_strlit("bare");
    reveal_strlit("locked");
    reveal_strlit("prunable");
    assert("worktree"@[0] == 'w');
    assert("HEAD"@[0] == 'H');
    assert("branch"@[0] == 'b');
    assert("branch"@[1] == 'r');
    assert("detached"@[0] == 'd');
    assert("bare"@[0] == 'b');
    assert("bare"@[1] == 'a');
    assert("locked"@[0] == 'l');
    assert("prunable"@[0] == 'p');
}

proof fn lemma_more(fields: Seq<Seq<u8>>, more: Seq<Seq<u8>>)
    requires
        more.len() <= 1,
        draft_of(fields) is Ok,
    ensures
        draft_of(fields + more) == (if more.len() == 0 {
            draft_of(fields)
        } else {
            with_field(draft_of(fields)->Ok_0, more[0])
        }),
{
    if more.len() == 0 {
        assert(fields + more =~= fields);
    } else {
        assert((fields + more).drop_last() =~= fields);
        assert((fields + more).last() == more[0]);
    }
}

proof fn lemma_record(printed: PrintedWorktree)
    requires
        printed.is_proper(),
    ensures
        record_worktree(printed.fields()) matches Ok(read) && printed.is_read_as(read),
{
    lemma_keys();
    lemma_keys_differ();
    let a = valued("worktree"@, printed.path);
    let b = maybe_valued("HEAD"@, printed.head);
    let c = maybe_valued("branch"@, printed.full_branch());
    let d = flagged("detached"@, printed.detached, None);
    let e = flagged("bare"@, printed.bare, None);
    let f = flagged("locked"@, printed.locked, printed.lock_reason);
    let g = flagged("prunable"@, printed.prunable, printed.prune_reason);
    let start: Seq<Seq<u8>> = seq![];
    assert(start + a =~= a);
    lemma_key("worktree"@, printed.path);
    lemma_encoded_text(printed.path);
    lemma_more(start, a);
    lemma_key("HEAD"@, printed.head->0);
    lemma_encoded_text(printed.head->0);
    lemma_more(a, b);
    let reference = printed.full_branch()->0;
    lemma_key("branch"@, reference);
    lemma_encoded_text(reference);
    if printed.branch is Some {
        let prefix = "refs/heads/"@;
        assert(reference.skip(prefix.len() as int) =~= printed.branch->0);
        assert(reference.take(prefix.len() as int) =~= prefix);
    }
    lemma_more(a + b, c);
    lemma_key("detached"@, seq![]);
    lemma_more(a + b + c, d);
    lemma_key("bare"@, seq![]);
    lemma_more(a + b + c + d, e);
    lemma_key("locked"@, printed.lock_reason->0);
    lemma_more(a + b + c + d + e, f);
    lemma_key("prunable"@, printed.prune_reason->0);
    lemma_more(a + b + c + d + e + f, g);
}

/// Whether every field holds something, and no NUL.
spec fn whole(fields: Seq<Seq<u8>>) -> bool {
    forall|i: int|
        0 <= i < fields.len() ==> (#[trigger] fields[i]).len() > 0 && lacks(fields[i], 0u8)
}

proof fn lemma_whole_concat(left: Seq<Seq<u8>>, right: Seq<Seq<u8>>)
    requires
        whole(left),
        whole(right),
    ensures
        whole(left + right),
{
    let both = left + right;
    assert forall|i: int| 0 <= i < both.len() implies (#[trigger] both[i]).len() > 0 && lacks(
        both[i],
        0u8,
    ) by {
        if i < left.len() {
            assert(both[i] == left[i]);
        } else {
            assert(both[i] == right[i - left.len()]);
        }
    }
}

proof fn lemma_whole_part(key: Seq<char>, value: Option<Seq<char>>, set: bool)
    requires
        is_key(key),
        maybe_no_nul(value),
    ensures
        whole(maybe_valued(key, value)),
        whole(flagged(key, set, value)),
{
    lemma_key(key, seq![]);
    if value is Some {
        lemma_whole_field(key, value->0);
    }
}

proof fn lemma_whole_fields(printed: PrintedWorktree)
    requires
        printed.is_proper(),
    ensures
        printed.fields().len() > 0,
        whole(printed.fields()),
{
    lemma_keys();
    let a = valued("worktree"@, printed.path);
    let b = maybe_valued("HEAD"@, printed.head);
    let c = maybe_valued("branch"@, printed.full_branch());
    let d = flagged("detached"@, printed.detached, None);
    let e = flagged("bare"@, printed.bare, None);
    let f = flagged("locked"@, printed.locked, printed.lock_reason);
    let g = flagged("prunable"@, printed.prunable, printed.prune_reason);
    lemma_whole_part("worktree"@, Some(printed.path), true);
    lemma_whole_part("HEAD"@, printed.head, true);
    if printed.branch is Some {
        let prefix = "refs/heads/"@;
        reveal_strlit("refs/heads/");
        let reference = prefix + printed.branch->0;
        assert forall|i: int| 0 <= i < reference.len() implies (#[trigger] reference[i]) as u32
            != 0 by {
            if i >= prefix.len() {
                assert(reference[i] == printed.branch->0[i - prefix.len()]);
            }
        }
    }
    lemma_whole_part("branch"@, printed.full_branch(), true);
    lemma_whole_part("detached"@, None, printed.detached);
    lemma_whole_part("bare"@, None, printed.bare);
    lemma_whole_part("locked"@, printed.lock_reason, printed.locked);
    lemma_whole_part("prunable"@, printed.prune_reason, printed.prunable);
    assert(whole(a));
    lemma_whole_concat(a, b);
    lemma_whole_concat(a + b, c);
    lemma_whole_concat(a + b + c, d);
    lemma_whole_concat(a + b + c + d, e);
    lemma_whole_concat(a + b + c + d + e, f);
    lemma_whole_concat(a + b + c + d + e + f, g);
}

proof fn lemma_whole_field(key: Seq<char>, value: Seq<char>)
    requires
        is_key(key),
        no_nul(value),
    ensures
        valued(key, value)[0].len() > 0,
        lacks(valued(key, value)[0], 0u8),
{
    lemma_key(key, value);
    lemma_no_nul(value);
    let field = valued(key, value)[0];
    let n = encode_utf8(key).len() as int;
    assert forall|i: int| 0 <= i < field.len() implies #[trigger] field[i] != 0u8 by {
        if i < n {
            assert(field[i] == encode_utf8(key)[i]);
        } else if i > n {
            assert(field[i] == encode_utf8(value)[i - n - 1]);
        }
    }
}

/// The fields of worktrees, with an empty one after each worktree.
pub open spec fn listing_fields(list: Seq<PrintedWorktree>) -> Seq<Seq<u8>>
    decreases list.len(),
{
    if list.len() == 0 {
        seq![]
    } else {
        listing_fields(list.drop_last()) + list.last().fields().push(seq![])
    }
}

proof fn lemma_grouped(before: Seq<Seq<u8>>, record: Seq<Seq<u8>>, k: int)
    requires
        before.len() == 0 || before.last().len() == 0,
        0 < k <= record.len(),
        forall|i: int| 0 <= i < record.len() ==> (#[trigger] record[i]).len() > 0,
    ensures
        records(before + record.take(k)) == records(before).push(record.take(k)),
    decreases k,
{
    let part = record.take(k);
    let all = before + part;
    assert(all.last() == record[k - 1]);
    assert(all.last().len() > 0);
    if k == 1 {
        assert(all.drop_last() =~= before);
        assert(part =~= seq![record[0]]);
    } else {
        lemma_grouped(before, record, k - 1);
        let shorter = record.take(k - 1);
        assert(all.drop_last() =~= before + shorter);
        assert(all[all.len() - 2] == record[k - 2]);
        let grouped = records(before + shorter);
        assert(grouped.drop_last() =~= records(before));
        assert(shorter.push(record[k - 1]) =~= part);
    }
}

proof fn lemma_listing(list: Seq<PrintedWorktree>)
    requires
        forall|k: int| 0 <= k < list.len() ==> (#[trigger] list[k]).is_proper(),
    ensures
        listing_fields(list).len() == 0 || listing_fields(list).last().len() == 0,
        forall|i: int|
            0 <= i < listing_fields(list).len() ==> lacks(
                #[trigger] listing_fields(list)[i],
                0u8,
            ),
        records(listing_fields(list)).len() == list.len(),
        record_worktrees(records(listing_fields(list))) matches Ok(read) && read.len()
            == list.len() && forall|k: int|
            0 <= k < list.len() ==> (#[trigger] list[k]).is_read_as(read[k]),
    decreases list.len(),
{
    if list.len() > 0 {
        let shorter = list.drop_last();
        assert forall|k: int| 0 <= k < shorter.len() implies (#[trigger] shorter[k]).is_proper() by {
            assert(shorter[k] == list[k]);
        }
        lemma_listing(shorter);
        let last = list[list.len() - 1];
        assert(last.is_proper());
        lemma_whole_fields(last);
        lemma_record(last);
        let before = listing_fields(shorter);
        let own = last.fields();
        let all = listing_fields(list);
        lemma_grouped(before, own, own.len() as int);
        assert(own.take(own.len() as int) =~= own);
        assert(all =~= (before + own).push(seq![]));
        assert(all.drop_last() =~= before + own);
        let grouped = records(before).push(own);
        assert(records(all) == grouped);
        assert(grouped.drop_last() =~= records(before));
        assert forall|i: int| 0 <= i < all.len() implies lacks(#[trigger] all[i], 0u8) by {
            if i < before.len() {
                assert(all[i] == before[i]);
            } else if i < before.len() + own.len() {
                assert(all[i] == own[i - before.len()]);
            }
        }
        let earlier = record_worktrees(records(before))->Ok_0;
        let read = record_worktrees(grouped)->Ok_0;
        assert forall|k: int| 0 <= k < list.len() implies (#[trigger] list[k]).is_read_as(
            read[k],
        ) by {
            if k < shorter.len() {
                assert(shorter[k] == list[k]);
                assert(read[k] == earlier[k]);
            }
        }
    }
}

proof fn lemma_open_end(fields: Seq<Seq<u8>>)
    ensures
        records(fields.push(seq![])) == records(fields),
{
    assert(fields.push(seq![]).drop_last() =~= fields);
}

/// The worktrees that `git worktree list` prints are read as they were printed: all of
/// them, in order, each with its path, commit and branch, and with what Git says of it.
pub proof fn printed_worktrees_are_read_back(
    list: Seq<PrintedWorktree>,
    output: &[u8],
    result: Result<Vec<GitWorktree>, GitError>,
)
    requires
        forall|k: int| 0 <= k < list.len() ==> (#[trigger] list[k]).is_proper(),
        output@ == closed_by(listing_fields(list), 0u8),
        call_ensures(parse_worktree_list_porcelain, (output,), result),
    ensures
        result matches Ok(read) && read@.len() == list.len() && forall|k: int|
            0 <= k < list.len() ==> (#[trigger] list[k]).is_read_as(read@[k]@),
{
    lemma_listing(list);
    let fields = listing_fields(list);
    closed_parts_are_found(fields, 0u8);
    lemma_open_end(fields);
    assert(records(pieces(output@, 0u8)) == records(fields));
    let read = result->Ok_0@;
    assert(views(read).len() == read.len());
    assert forall|k: int| 0 <= k < list.len() implies (#[trigger] list[k]).is_read_as(
        read[k]@,
    ) by {
        assert(views(read)[k] == read[k]@);
    }
}

/// The word for a worktree names the first of these that holds: Git would prune it, it
/// is bare, it is locked, its commit is checked out without a branch; a worktree of which
/// none holds is available.
pub proof fn worktree_words(worktree: &GitWorktree, word: &'static str)
    requires
        call_ensures(GitWorktree::state, (worktree,), word),
    ensures
        worktree.prunable <==> word@ == "prunable"@,
        worktree.bare && !worktree.prunable <==> word@ == "bare"@,
        worktree.locked && !worktree.bare && !worktree.prunable <==> word@ == "locked"@,
        worktree.detached && !worktree.locked && !worktree.bare && !worktree.prunable <==> word@
            == "detached"@,
        word@ == "available"@ <==> !(worktree.detached || worktree.locked || worktree.bare
            || worktree.prunable),
{
    reveal_strlit("prunable");
    reveal_strlit("bare");
    reveal_strlit("locked");
    reveal_strlit("detached");
    reveal_strlit("available");
    assert("prunable"@[0] == 'p');
    assert("bare"@[0] == 'b');
    assert("locked"@[0] == 'l');
    assert("detached"@[0] == 'd');
    assert("available"@[0] == 'a');
}

} // verus!
