//! What Git prints is read as Git means it.

use crate::git::error::GitError;
use crate::git::porcelain::change_kind;
use crate::git::porcelain::entry_at;
use crate::git::porcelain::filled;
use crate::git::porcelain::parse_status_porcelain;
use crate::git::porcelain::summary_from;
use crate::git::porcelain::with_entry;
use crate::model::ChangeEntryView;
use crate::model::ChangeKind;
use crate::model::ChangeSummary;
use crate::model::ChangeSummaryView;
use crate::text::lemma_byte_length_positive;
use crate::text::lemma_pieces_nonempty;
use crate::text::pieces;
use vstd::prelude::*;
use vstd::utf8::encode_scalar;
use vstd::utf8::encode_utf8;

verus! {

// ---------------------------------------------------------------------------
// Texts and bytes
// ---------------------------------------------------------------------------

/// Parts, each followed by a separator.
pub open spec fn closed_by<T>(parts: Seq<Seq<T>>, separator: T) -> Seq<T>
    decreases parts.len(),
{
    if parts.len() == 0 {
        seq![]
    } else {
        closed_by(parts.drop_last(), separator) + parts.last().push(separator)
    }
}

/// Whether something does not occur.
pub open spec fn lacks<T>(items: Seq<T>, item: T) -> bool {
    forall|i: int| 0 <= i < items.len() ==> #[trigger] items[i] != item
}

proof fn lemma_pieces_append<T>(items: Seq<T>, part: Seq<T>, separator: T)
    requires
        lacks(part, separator),
    ensures
        pieces(items + part, separator) == pieces(items, separator).drop_last().push(
            pieces(items, separator).last() + part,
        ),
    decreases part.len(),
{
    lemma_pieces_nonempty(items, separator);
    let before = pieces(items, separator);
    if part.len() == 0 {
        assert(items + part =~= items);
        assert(before.last() + part =~= before.last());
        assert(before.drop_last().push(before.last()) =~= before);
    } else {
        let shorter = part.drop_last();
        assert(lacks(shorter, separator)) by {
            assert forall|i: int| 0 <= i < shorter.len() implies #[trigger] shorter[i]
                != separator by {
                assert(shorter[i] == part[i]);
            }
        }
        lemma_pieces_append(items, shorter, separator);
        assert((items + part).drop_last() =~= items + shorter);
        assert((items + part).last() == part.last());
        assert(part[part.len() - 1] != separator);
        let so_far = pieces(items + shorter, separator);
        assert(so_far.drop_last() =~= before.drop_last());
        assert((before.last() + shorter).push(part.last()) =~= before.last() + part);
    }
}

/// Parts in which a separator does not occur are found again between the separators.
pub proof fn closed_parts_are_found<T>(parts: Seq<Seq<T>>, separator: T)
    requires
        forall|i: int| 0 <= i < parts.len() ==> lacks(#[trigger] parts[i], separator),
    ensures
        pieces(closed_by(parts, separator), separator) == parts.push(seq![]),
    decreases parts.len(),
{
    if parts.len() == 0 {
        assert(parts.push(seq![]) =~= seq![seq![]]);
    } else {
        let shorter = parts.drop_last();
        assert forall|i: int| 0 <= i < shorter.len() implies lacks(
            #[trigger] shorter[i],
            separator,
        ) by {
            assert(shorter[i] == parts[i]);
        }
        closed_parts_are_found(shorter, separator);
        let before = closed_by(shorter, separator);
        assert(lacks(parts[parts.len() - 1], separator));
        lemma_pieces_append(before, parts.last(), separator);
        let open = before + parts.last();
        assert(closed_by(parts, separator) =~= open.push(separator));
        assert(open.push(separator).drop_last() =~= open);
        assert(shorter.push(seq![]).drop_last() =~= shorter);
        assert(Seq::<T>::empty() + parts.last() =~= parts.last());
        assert(shorter.push(parts.last()) =~= parts);
    }
}

/// Whether every character of a text is an ASCII character.
pub open spec fn is_ascii(text: Seq<char>) -> bool {
    forall|i: int| 0 <= i < text.len() ==> (#[trigger] text[i]) as u32 <= 0x7f
}

proof fn lemma_ascii_scalar(scalar: u32)
    requires
        scalar <= 0x7f,
    ensures
        encode_scalar(scalar) == seq![scalar as u8],
{
    assert(scalar <= 0x7f ==> (scalar & 0x7F) as u8 == scalar as u8) by (bit_vector);
}

/// ASCII characters are encoded one by one.
pub proof fn lemma_ascii(text: Seq<char>)
    requires
        is_ascii(text),
    ensures
        encode_utf8(text).len() == text.len(),
        forall|i: int| 0 <= i < text.len() ==> #[trigger] encode_utf8(text)[i] == (
            text[i] as u32
        ) as u8,
    decreases text.len(),
{
    if text.len() > 0 {
        let rest = text.drop_first();
        assert forall|i: int| 0 <= i < rest.len() implies (#[trigger] rest[i]) as u32 <= 0x7f by {
            assert(rest[i] == text[i + 1]);
        }
        lemma_ascii(rest);
        lemma_ascii_scalar(text[0] as u32);
        assert(encode_utf8(text) == encode_scalar(text[0] as u32) + encode_utf8(rest));
        assert forall|i: int| 0 <= i < text.len() implies #[trigger] encode_utf8(text)[i]
            == (text[i] as u32) as u8 by {
            if i > 0 {
                assert(encode_utf8(text)[i] == encode_utf8(rest)[i - 1]);
                assert(rest[i - 1] == text[i]);
            }
        }
    }
}

proof fn lemma_scalar_holds_no_nul(scalar: u32)
    requires
        scalar != 0,
    ensures
        lacks(encode_scalar(scalar), 0u8),
{
    assert(scalar <= 0x7f && scalar != 0 ==> (scalar & 0x7F) as u8 != 0) by (bit_vector);
    assert(0xC0 | ((scalar >> 6) & 0x1F) as u8 != 0) by (bit_vector);
    assert(0xE0 | ((scalar >> 12) & 0x0F) as u8 != 0) by (bit_vector);
    assert(0xF0 | ((scalar >> 18) & 0x7) as u8 != 0) by (bit_vector);
    assert(0x80 | (scalar & 0x3F) as u8 != 0) by (bit_vector);
    assert(0x80 | ((scalar >> 6) & 0x3F) as u8 != 0) by (bit_vector);
    assert(0x80 | ((scalar >> 12) & 0x3F) as u8 != 0) by (bit_vector);
}

/// Whether a text holds no NUL character.
pub open spec fn no_nul(text: Seq<char>) -> bool {
    forall|i: int| 0 <= i < text.len() ==> (#[trigger] text[i]) as u32 != 0
}

pub proof fn lemma_no_nul(text: Seq<char>)
    requires
        no_nul(text),
    ensures
        lacks(encode_utf8(text), 0u8),
    decreases text.len(),
{
    if text.len() > 0 {
        let rest = text.drop_first();
        assert forall|i: int| 0 <= i < rest.len() implies (#[trigger] rest[i]) as u32 != 0 by {
            assert(rest[i] == text[i + 1]);
        }
        lemma_no_nul(rest);
        lemma_scalar_holds_no_nul(text[0] as u32);
        let first = encode_scalar(text[0] as u32);
        assert(encode_utf8(text) == first + encode_utf8(rest));
        assert forall|i: int| 0 <= i < encode_utf8(text).len() implies #[trigger] encode_utf8(
            text,
        )[i] != 0u8 by {
            if i < first.len() {
                assert((first + encode_utf8(rest))[i] == first[i]);
            } else {
                assert((first + encode_utf8(rest))[i] == encode_utf8(rest)[i - first.len()]);
            }
        }
    }
}

// ---------------------------------------------------------------------------
// Changes
// ---------------------------------------------------------------------------

/// Whether the letter that Git prints tells of a change to a tracked file.
pub open spec fn tells_of_change(letter: char) -> bool {
    !(letter == ' ' || letter == '?' || letter == '!')
}

/// Whether two letters stand together as Git prints them: not both are blank, and the
/// marks of untracked and of ignored files come in pairs.
pub open spec fn are_paired(index: char, worktree: char) -> bool {
    &&& !(index == ' ' && worktree == ' ')
    &&& index == '?' <==> worktree == '?'
    &&& index == '!' <==> worktree == '!'
}

/// What the counts of a summary must be, given its entries.
pub open spec fn counts_match(summary: ChangeSummaryView) -> bool {
    &&& summary.staged > 0 <==> exists|k: int|
        0 <= k < summary.entries.len() && tells_of_change(
            (#[trigger] summary.entries[k]).index_status,
        )
    &&& summary.unstaged > 0 <==> exists|k: int|
        0 <= k < summary.entries.len() && tells_of_change(
            (#[trigger] summary.entries[k]).worktree_status,
        )
    &&& summary.untracked > 0 <==> exists|k: int|
        0 <= k < summary.entries.len() && (#[trigger] summary.entries[k]).index_status == '?'
            && summary.entries[k].worktree_status == '?'
    &&& summary.conflicted > 0 <==> exists|k: int|
        0 <= k < summary.entries.len() && (#[trigger] summary.entries[k]).conflicted
    &&& forall|k: int|
        0 <= k < summary.entries.len() ==> !((#[trigger] summary.entries[k]).index_status == '!'
            && summary.entries[k].worktree_status == '!')
    &&& forall|k: int|
        0 <= k < summary.entries.len() ==> {
            let entry = #[trigger] summary.entries[k];
            entry.conflicted <==> entry.index_status == 'U' || entry.worktree_status == 'U' || (
            entry.index_status == entry.worktree_status && (entry.index_status == 'A'
                || entry.index_status == 'D'))
        }
    &&& summary.staged <= summary.entries.len()
    &&& summary.unstaged <= summary.entries.len()
    &&& summary.untracked <= summary.entries.len()
    &&& summary.conflicted <= summary.entries.len()
}

proof fn lemma_counts_step(summary: ChangeSummaryView, entry: ChangeEntryView)
    requires
        counts_match(summary),
        entry.conflicted <==> entry.index_status == 'U' || entry.worktree_status == 'U' || (
        entry.index_status == entry.worktree_status && (entry.index_status == 'A'
            || entry.index_status == 'D')),
    ensures
        counts_match(with_entry(summary, entry)),
{
    let after = with_entry(summary, entry);
    if !(entry.index_status == '!' && entry.worktree_status == '!') {
        let n = summary.entries.len() as int;
        assert(after.entries[n] == entry);
        assert forall|k: int| 0 <= k < n implies after.entries[k] == #[
            trigger
        ] summary.entries[k] by {
        }
        if after.staged > 0 && !tells_of_change(entry.index_status) {
            let k = choose|k: int|
                0 <= k < summary.entries.len() && tells_of_change(
                    (#[trigger] summary.entries[k]).index_status,
                );
            assert(tells_of_change(after.entries[k].index_status));
        }
        if after.unstaged > 0 && !tells_of_change(entry.worktree_status) {
            let k = choose|k: int|
                0 <= k < summary.entries.len() && tells_of_change(
                    (#[trigger] summary.entries[k]).worktree_status,
                );
            assert(tells_of_change(after.entries[k].worktree_status));
        }
        if after.untracked > 0 && !(entry.index_status == '?' && entry.worktree_status == '?') {
            let k = choose|k: int|
                0 <= k < summary.entries.len() && (#[trigger] summary.entries[k]).index_status
                    == '?' && summary.entries[k].worktree_status == '?';
            assert(after.entries[k].index_status == '?');
        }
        if after.conflicted > 0 && !entry.conflicted {
            let k = choose|k: int|
                0 <= k < summary.entries.len() && (#[trigger] summary.entries[k]).conflicted;
            assert(after.entries[k].conflicted);
        }
        assert forall|k: int|
            0 <= k < after.entries.len() && tells_of_change(
                (#[trigger] after.entries[k]).index_status,
            ) implies after.staged > 0 by {
            if k < n {
                assert(tells_of_change(summary.entries[k].index_status));
            }
        }
        assert forall|k: int|
            0 <= k < after.entries.len() && tells_of_change(
                (#[trigger] after.entries[k]).worktree_status,
            ) implies after.unstaged > 0 by {
            if k < n {
                assert(tells_of_change(summary.entries[k].worktree_status));
            }
        }
        assert forall|k: int|
            0 <= k < after.entries.len() && (#[trigger] after.entries[k]).index_status == '?'
                && after.entries[k].worktree_status == '?' implies after.untracked > 0 by {
            if k < n {
                assert(summary.entries[k].index_status == '?');
            }
        }
        assert forall|k: int|
            0 <= k < after.entries.len() && (#[trigger] after.entries[k]).conflicted implies
            after.conflicted > 0 by {
            if k < n {
                assert(summary.entries[k].conflicted);
            }
        }
    }
}

proof fn lemma_counts(fields: Seq<Seq<u8>>, i: int, summary: ChangeSummaryView)
    requires
        counts_match(summary),
        summary_from(fields, i, summary) is Ok,
    ensures
        counts_match(summary_from(fields, i, summary)->Ok_0),
    decreases fields.len() - i,
{
    if 0 <= i < fields.len() {
        let (entry, next) = entry_at(fields, i)->Ok_0;
        lemma_counts_step(summary, entry);
        lemma_counts(fields, next, with_entry(summary, entry));
    }
}

/// Of every output of `git status` that is read, the counts say what the letters of the
/// entries say, no entry is an ignored file, and the summary is dirty exactly if some
/// entry tells of a change or of an untracked file. Each count that is not zero makes it
/// dirty, and so does every entry that Git prints.
pub proof fn changes_make_a_worktree_dirty(
    output: &[u8],
    result: Result<ChangeSummary, GitError>,
    dirty: bool,
    word: &'static str,
)
    requires
        call_ensures(parse_status_porcelain, (output,), result),
        result is Ok,
        call_ensures(ChangeSummary::dirty, (&result->Ok_0,), dirty),
        call_ensures(ChangeSummary::state, (&result->Ok_0,), word),
    ensures
        counts_match(result->Ok_0@),
        dirty == exists|k: int|
            0 <= k < result->Ok_0@.entries.len() && (tells_of_change(
                (#[trigger] result->Ok_0@.entries[k]).index_status,
            ) || tells_of_change(result->Ok_0@.entries[k].worktree_status) || (
            result->Ok_0@.entries[k].index_status == '?' && result->Ok_0@.entries[k].worktree_status
                == '?')),
        dirty == (result->Ok_0.staged + result->Ok_0.unstaged + result->Ok_0.untracked
            + result->Ok_0.conflicted > 0),
        !dirty && (forall|k: int|
            0 <= k < result->Ok_0@.entries.len() ==> are_paired(
                (#[trigger] result->Ok_0@.entries[k]).index_status,
                result->Ok_0@.entries[k].worktree_status,
            )) ==> result->Ok_0@.entries.len() == 0,
        word@ == "clean"@ <==> !dirty,
        word@ == "conflicted"@ <==> result->Ok_0.conflicted > 0,
        word@ == "dirty"@ <==> dirty && result->Ok_0.conflicted == 0,
{
    let summary = result->Ok_0@;
    lemma_counts(filled(pieces(output@, 0u8)), 0, ChangeSummaryView::none());
    lemma_change_words();
    if dirty {
        if summary.staged > 0 {
            let k = choose|k: int|
                0 <= k < summary.entries.len() && tells_of_change(
                    (#[trigger] summary.entries[k]).index_status,
                );
            assert(tells_of_change(summary.entries[k].index_status));
        } else if summary.unstaged > 0 {
            let k = choose|k: int|
                0 <= k < summary.entries.len() && tells_of_change(
                    (#[trigger] summary.entries[k]).worktree_status,
                );
            assert(tells_of_change(summary.entries[k].worktree_status));
        } else if summary.untracked > 0 {
            let k = choose|k: int|
                0 <= k < summary.entries.len() && (#[trigger] summary.entries[k]).index_status
                    == '?' && summary.entries[k].worktree_status == '?';
            assert(summary.entries[k].index_status == '?');
        } else {
            let k = choose|k: int|
                0 <= k < summary.entries.len() && (#[trigger] summary.entries[k]).conflicted;
            assert(summary.entries[k].conflicted);
        }
    } else if summary.entries.len() > 0 {
        let entry = summary.entries[0];
        assert(!tells_of_change(entry.index_status));
        assert(!tells_of_change(entry.worktree_status));
    }
}

proof fn lemma_change_words()
    ensures
        "clean"@ != "dirty"@,
        "clean"@ != "conflicted"@,
        "dirty"@ != "conflicted"@,
{
    reveal_strlit("clean");
    reveal_strlit("dirty");
    reveal_strlit("conflicted");
    assert("clean"@[0] == 'c');
    assert("dirty"@[0] == 'd');
    assert("conflicted"@.len() == 10);
    assert("clean"@.len() == 5);
}

/// The word for a change begins with the letter that Git prints for it, in lower case,
/// wherever the letter stands; files that are not tracked and files in conflict have
/// words of their own.
pub proof fn change_words_go_with_their_letters(
    index: char,
    worktree: char,
    kind: ChangeKind,
    word: &'static str,
)
    requires
        call_ensures(change_kind, (index, worktree), kind),
        call_ensures(ChangeKind::as_str, (kind,), word),
    ensures
        word@.len() > 0,
        ({
            let conflict = index == 'U' || worktree == 'U' || (index == worktree && (index == 'A'
                || index == 'D'));
            let letter = if tells_of_change(index) {
                index
            } else {
                worktree
            };
            &&& conflict ==> word@ == "unmerged"@
            &&& !conflict && (letter == 'M' || letter == 'A' || letter == 'D' || letter == 'R'
                || letter == 'C' || letter == 'T') ==> word@[0] as u32 == letter as u32 + 32
                && word@ != "unmerged"@
            &&& !conflict && letter == '?' ==> word@ == "untracked"@
            &&& !conflict && letter == 'M' ==> word@ == "modified"@
        }),
{
    reveal_strlit("modified");
    reveal_strlit("added");
    reveal_strlit("deleted");
    reveal_strlit("renamed");
    reveal_strlit("copied");
    reveal_strlit("untracked");
    reveal_strlit("type-changed");
    reveal_strlit("unmerged");
    reveal_strlit("other");
    assert("modified"@[0] == 'm');
    assert("added"@[0] == 'a');
    assert("deleted"@[0] == 'd');
    assert("renamed"@[0] == 'r');
    assert("copied"@[0] == 'c');
    assert("type-changed"@[0] == 't');
    assert("unmerged"@[0] == 'u');
    assert("other"@[0] == 'o');
}

// ---------------------------------------------------------------------------
// Changes, as Git prints them
// ---------------------------------------------------------------------------

/// A changed path as `git status` prints it.
pub struct PrintedChange {
    pub index: u8,
    pub worktree: u8,
    pub path: Seq<char>,
    pub source: Option<Seq<char>>,
}

impl PrintedChange {
    /// Whether Git prints such a change: the letters are no NUL, the paths hold no NUL,
    /// and the path from which a file was renamed or copied is there exactly where a
    /// letter tells of that.
    pub open spec fn is_proper(self) -> bool {
        &&& self.index != 0
        &&& self.worktree != 0
        &&& no_nul(self.path)
        &&& self.source is Some <==> (self.index as char == 'R' || self.index as char == 'C'
            || self.worktree as char == 'R' || self.worktree as char == 'C')
        &&& self.source is Some ==> no_nul(self.source->0) && self.source->0.len() > 0
    }

    /// Whether the path is ignored.
    pub open spec fn is_ignored(self) -> bool {
        self.index as char == '!' && self.worktree as char == '!'
    }

    /// The fields that Git prints: the letters, a space and the path, and the path from
    /// which the file came.
    pub open spec fn fields(self) -> Seq<Seq<u8>> {
        let first = seq![self.index, self.worktree, 32u8] + encode_utf8(self.path);
        match self.source {
            Some(path) => seq![first, encode_utf8(path)],
            None => seq![first],
        }
    }
}

/// The fields that Git prints for changes.
pub open spec fn change_fields(changes: Seq<PrintedChange>) -> Seq<Seq<u8>>
    decreases changes.len(),
{
    if changes.len() == 0 {
        seq![]
    } else {
        change_fields(changes.drop_last()) + changes.last().fields()
    }
}

/// The changes that are not ignored files.
pub open spec fn not_ignored(changes: Seq<PrintedChange>) -> Seq<PrintedChange>
    decreases changes.len(),
{
    if changes.len() == 0 {
        seq![]
    } else if changes.last().is_ignored() {
        not_ignored(changes.drop_last())
    } else {
        not_ignored(changes.drop_last()).push(changes.last())
    }
}

/// Whether entries tell of changes.
pub open spec fn tells_of(entries: Seq<ChangeEntryView>, changes: Seq<PrintedChange>) -> bool {
    &&& entries.len() == changes.len()
    &&& forall|k: int|
        #![trigger entries[k]]
        #![trigger changes[k]]
        0 <= k < changes.len() ==> {
            &&& entries[k].path == changes[k].path
            &&& entries[k].source_path == changes[k].source
            &&& entries[k].index_status == changes[k].index as char
            &&& entries[k].worktree_status == changes[k].worktree as char
        }
}

proof fn lemma_filled(parts: Seq<Seq<u8>>)
    requires
        forall|i: int| 0 <= i < parts.len() ==> (#[trigger] parts[i]).len() > 0,
    ensures
        filled(parts) == parts,
    decreases parts.len(),
{
    if parts.len() > 0 {
        let shorter = parts.drop_last();
        assert forall|i: int| 0 <= i < shorter.len() implies (#[trigger] shorter[i]).len() > 0 by {
            assert(shorter[i] == parts[i]);
        }
        lemma_filled(shorter);
        assert(parts[parts.len() - 1].len() > 0);
        assert(shorter.push(parts.last()) =~= parts);
    } else {
        assert(parts =~= seq![]);
    }
}

pub proof fn lemma_encoded_text(text: Seq<char>)
    ensures
        vstd::utf8::valid_utf8(encode_utf8(text)),
        vstd::utf8::decode_utf8(encode_utf8(text)) == text,
        text.len() > 0 ==> encode_utf8(text).len() > 0,
{
    vstd::utf8::encode_utf8_valid_utf8(text);
    vstd::utf8::encode_utf8_decode_utf8(text);
    lemma_byte_length_positive(text);
}

proof fn lemma_change_fields(changes: Seq<PrintedChange>)
    requires
        forall|k: int| 0 <= k < changes.len() ==> (#[trigger] changes[k]).is_proper(),
    ensures
        forall|i: int|
            0 <= i < change_fields(changes).len() ==> lacks(
                #[trigger] change_fields(changes)[i],
                0u8,
            ) && change_fields(changes)[i].len() > 0,
    decreases changes.len(),
{
    if changes.len() > 0 {
        let shorter = changes.drop_last();
        assert forall|k: int| 0 <= k < shorter.len() implies (#[trigger] shorter[k]).is_proper() by {
            assert(shorter[k] == changes[k]);
        }
        lemma_change_fields(shorter);
        let last = changes[changes.len() - 1];
        assert(last.is_proper());
        lemma_no_nul(last.path);
        let head = seq![last.index, last.worktree, 32u8];
        let first = head + encode_utf8(last.path);
        assert(lacks(first, 0u8)) by {
            assert forall|i: int| 0 <= i < first.len() implies #[trigger] first[i] != 0u8 by {
                if i >= 3 {
                    assert(first[i] == encode_utf8(last.path)[i - 3]);
                }
            }
        }
        if last.source is Some {
            lemma_no_nul(last.source->0);
            lemma_encoded_text(last.source->0);
        }
        let before = change_fields(shorter);
        assert forall|i: int| 0 <= i < change_fields(changes).len() implies lacks(
            #[trigger] change_fields(changes)[i],
            0u8,
        ) && change_fields(changes)[i].len() > 0 by {
            if i < before.len() {
                assert(change_fields(changes)[i] == before[i]);
            } else {
                assert(change_fields(changes)[i] == last.fields()[i - before.len()]);
            }
        }
    }
}

proof fn lemma_fields_split(changes: Seq<PrintedChange>, k: int)
    requires
        0 <= k < changes.len(),
    ensures
        ({
            let all = change_fields(changes);
            let before = change_fields(changes.take(k));
            let own = changes[k].fields();
            &&& change_fields(changes.take(k + 1)) == before + own
            &&& before.len() + own.len() <= all.len()
            &&& forall|i: int|
                0 <= i < own.len() ==> all[before.len() + i] == #[trigger] own[i]
        }),
    decreases changes.len(),
{
    let upto = changes.take(k + 1);
    assert(upto.drop_last() =~= changes.take(k));
    if k == changes.len() - 1 {
        assert(upto =~= changes);
    } else {
        let shorter = changes.drop_last();
        lemma_fields_split(shorter, k);
        assert(shorter.take(k) =~= changes.take(k));
        assert(shorter.take(k + 1) =~= upto);
        assert(shorter[k] == changes[k]);
    }
}

proof fn lemma_read_from(changes: Seq<PrintedChange>, k: int, summary: ChangeSummaryView)
    requires
        forall|j: int| 0 <= j < changes.len() ==> (#[trigger] changes[j]).is_proper(),
        0 <= k <= changes.len(),
        tells_of(summary.entries, not_ignored(changes.take(k))),
    ensures
        summary_from(
            change_fields(changes),
            change_fields(changes.take(k)).len() as int,
            summary,
        ) matches Ok(after) && tells_of(after.entries, not_ignored(changes)),
    decreases changes.len() - k,
{
    let all = change_fields(changes);
    let i = change_fields(changes.take(k)).len() as int;
    if k == changes.len() {
        assert(changes.take(k) =~= changes);
    } else {
        lemma_fields_split(changes, k);
        let change = changes[k];
        assert(change.is_proper());
        let own = change.fields();
        assert(own.len() > 0);
        let head = seq![change.index, change.worktree, 32u8];
        let first = head + encode_utf8(change.path);
        assert(all[i + 0] == own[0]);
        assert(all[i] == first);
        assert(first.skip(3) =~= encode_utf8(change.path));
        assert(first[0] == change.index && first[1] == change.worktree && first[2] == 32u8);
        lemma_encoded_text(change.path);
        if change.source is Some {
            lemma_encoded_text(change.source->0);
            assert(all[i + 1] == own[1]);
        }
        let (entry, next) = entry_at(all, i)->Ok_0;
        assert(next == i + own.len());
        let after = with_entry(summary, entry);
        assert(changes.take(k + 1).drop_last() =~= changes.take(k));
        assert(changes.take(k + 1).last() == change);
        lemma_read_from(changes, k + 1, after);
    }
}

/// The changes that `git status` prints are read as they were printed: every path that
/// is not ignored, in its place, with its letters and the path from which it came.
pub proof fn printed_changes_are_read_back(
    changes: Seq<PrintedChange>,
    output: &[u8],
    result: Result<ChangeSummary, GitError>,
)
    requires
        forall|k: int| 0 <= k < changes.len() ==> (#[trigger] changes[k]).is_proper(),
        output@ == closed_by(change_fields(changes), 0u8),
        call_ensures(parse_status_porcelain, (output,), result),
    ensures
        result matches Ok(summary) && tells_of(summary@.entries, not_ignored(changes)),
{
    let fields = change_fields(changes);
    lemma_change_fields(changes);
    closed_parts_are_found(fields, 0u8);
    assert(fields.push(seq![]).drop_last() =~= fields);
    lemma_filled(fields);
    assert(changes.take(0) =~= seq![]);
    assert(filled(pieces(output@, 0u8)) == fields);
    lemma_read_from(changes, 0, ChangeSummaryView::none());
}

/// Any count that is not zero makes a summary dirty, and nothing else does.
pub proof fn any_change_is_dirty(summary: &ChangeSummary, dirty: bool)
    requires
        call_ensures(ChangeSummary::dirty, (summary,), dirty),
    ensures
        summary.staged > 0 ==> dirty,
        summary.unstaged > 0 ==> dirty,
        summary.untracked > 0 ==> dirty,
        summary.conflicted > 0 ==> dirty,
        dirty ==> summary.staged > 0 || summary.unstaged > 0 || summary.untracked > 0
            || summary.conflicted > 0,
{
}

/// A worktree of which `git status` prints nothing but ignored files is clean, and any
/// other path that it prints makes it dirty.
pub proof fn printed_changes_make_a_worktree_dirty(
    changes: Seq<PrintedChange>,
    output: &[u8],
    result: Result<ChangeSummary, GitError>,
    dirty: bool,
    word: &'static str,
)
    requires
        forall|k: int| 0 <= k < changes.len() ==> (#[trigger] changes[k]).is_proper(),
        forall|k: int|
            0 <= k < changes.len() ==> are_paired(
                (#[trigger] changes[k]).index as char,
                changes[k].worktree as char,
            ),
        output@ == closed_by(change_fields(changes), 0u8),
        call_ensures(parse_status_porcelain, (output,), result),
        result is Ok,
        call_ensures(ChangeSummary::dirty, (&result->Ok_0,), dirty),
        call_ensures(ChangeSummary::state, (&result->Ok_0,), word),
    ensures
        dirty <==> exists|k: int| 0 <= k < changes.len() && !(#[trigger] changes[k]).is_ignored(),
        dirty <==> result->Ok_0.entries@.len() > 0,
        word@ == "clean"@ <==> forall|k: int|
            0 <= k < changes.len() ==> (#[trigger] changes[k]).is_ignored(),
{
    let summary = result->Ok_0@;
    printed_changes_are_read_back(changes, output, result);
    changes_make_a_worktree_dirty(output, result, dirty, word);
    lemma_not_ignored(changes);
    let kept = not_ignored(changes);
    assert forall|k: int| 0 <= k < summary.entries.len() implies are_paired(
        (#[trigger] summary.entries[k]).index_status,
        summary.entries[k].worktree_status,
    ) by {
        assert(changes.contains(kept[k]));
    }
    assert(summary.entries.len() == result->Ok_0.entries@.len());
    if exists|k: int| 0 <= k < changes.len() && !(#[trigger] changes[k]).is_ignored() {
        let k = choose|k: int| 0 <= k < changes.len() && !(#[trigger] changes[k]).is_ignored();
        assert(kept.contains(changes[k]));
    }
    if summary.entries.len() > 0 {
        assert(changes.contains(kept[0]));
        let k = choose|k: int| 0 <= k < changes.len() && changes[k] == kept[0];
        assert(!changes[k].is_ignored());
    }
}

proof fn lemma_not_ignored(changes: Seq<PrintedChange>)
    ensures
        forall|k: int|
            0 <= k < not_ignored(changes).len() ==> changes.contains(
                #[trigger] not_ignored(changes)[k],
            ) && !not_ignored(changes)[k].is_ignored(),
        forall|k: int|
            0 <= k < changes.len() && !changes[k].is_ignored() ==> not_ignored(changes).contains(
                #[trigger] changes[k],
            ),
    decreases changes.len(),
{
    if changes.len() > 0 {
        let shorter = changes.drop_last();
        let kept = not_ignored(changes);
        let before = not_ignored(shorter);
        lemma_not_ignored(shorter);
        assert forall|k: int| 0 <= k < kept.len() implies changes.contains(#[trigger] kept[k])
            && !kept[k].is_ignored() by {
            if k < before.len() {
                assert(kept[k] == before[k]);
                let j = choose|j: int| 0 <= j < shorter.len() && shorter[j] == before[k];
                assert(changes[j] == before[k]);
            } else {
                assert(changes[changes.len() - 1] == kept[k]);
            }
        }
        assert forall|k: int| 0 <= k < changes.len() && !changes[k].is_ignored() implies kept.contains(
            #[trigger] changes[k],
        ) by {
            if k < shorter.len() {
                assert(shorter[k] == changes[k]);
                let j = choose|j: int| 0 <= j < before.len() && before[j] == changes[k];
                assert(kept[j] == changes[k]);
            } else {
                assert(kept[kept.len() - 1] == changes[k]);
            }
        }
    }
}

} // verus!
