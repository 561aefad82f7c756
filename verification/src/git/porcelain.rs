//! The porcelain formats of `git worktree list` and `git status`.

use crate::bytes::byte_views;
use crate::bytes::find_byte;
use crate::bytes::first_byte;
use crate::bytes::same_bytes;
use crate::bytes::slice_bytes;
use crate::bytes::split_bytes;
use crate::git::error::GitError;
use crate::git::error::GitErrorView;
use crate::git::worktree::GitWorktree;
use crate::git::worktree::GitWorktreeView;
use crate::model::ChangeEntry;
use crate::model::ChangeEntryView;
use crate::model::ChangeKind;
use crate::model::ChangeSummary;
use crate::model::ChangeSummaryView;
use crate::text::begins_with;
use crate::text::concat;
use crate::text::concat3;
use crate::text::debug_string;
use crate::text::debug_text;
use crate::text::lossy_string;
use crate::text::lossy_text;
use crate::text::option_view;
use crate::text::pieces;
use crate::text::strict_string;
use crate::text::strip_prefix;
use crate::text::views;
use vstd::prelude::*;
use vstd::utf8::decode_utf8;
use vstd::utf8::encode_utf8;
use vstd::utf8::valid_utf8;

verus! {

// ---------------------------------------------------------------------------
// Fields
// ---------------------------------------------------------------------------

/// A field as text.
pub open spec fn field_value(value: Option<Seq<u8>>) -> Result<Seq<char>, GitErrorView> {
    match value {
        None => Err(GitErrorView::InvalidOutput("missing field value"@)),
        Some(bytes) => if valid_utf8(bytes) {
            Ok(decode_utf8(bytes))
        } else {
            Err(GitErrorView::InvalidOutput("Git returned non-UTF-8 output"@))
        },
    }
}

/// The path of a worktree as text.
pub open spec fn path_value(value: Option<Seq<u8>>) -> Result<Seq<char>, GitErrorView> {
    match value {
        None => Err(GitErrorView::InvalidOutput("worktree record has no path"@)),
        Some(bytes) => if valid_utf8(bytes) {
            Ok(decode_utf8(bytes))
        } else {
            Err(GitErrorView::InvalidOutput("Git returned a non-UTF-8 worktree path"@))
        },
    }
}

/// What an optional byte sequence holds.
pub open spec fn bytes_view(value: Option<Vec<u8>>) -> Option<Seq<u8>> {
    match value {
        Some(bytes) => Some(bytes@),
        None => None,
    }
}

/// Reads a field as text.
pub fn value_string(value: Option<Vec<u8>>) -> (result: Result<String, GitError>)
    ensures
        match (result, field_value(bytes_view(value))) {
            (Ok(text), Ok(expected)) => text@ == expected,
            (Err(error), Err(expected)) => error@ == expected,
            _ => false,
        },
{
    match value {
        None => Err(GitError::InvalidOutput("missing field value".to_owned())),
        Some(bytes) => match strict_string(bytes) {
            Some(text) => Ok(text),
            None => Err(GitError::InvalidOutput("Git returned non-UTF-8 output".to_owned())),
        },
    }
}

/// Reads the path of a worktree.
pub fn path_string(value: Option<Vec<u8>>) -> (result: Result<String, GitError>)
    ensures
        match (result, path_value(bytes_view(value))) {
            (Ok(text), Ok(expected)) => text@ == expected,
            (Err(error), Err(expected)) => error@ == expected,
            _ => false,
        },
{
    match value {
        None => Err(GitError::InvalidOutput("worktree record has no path".to_owned())),
        Some(bytes) => match strict_string(bytes) {
            Some(text) => Ok(text),
            None => Err(
                GitError::InvalidOutput("Git returned a non-UTF-8 worktree path".to_owned()),
            ),
        },
    }
}

// ---------------------------------------------------------------------------
// git worktree list --porcelain -z
// ---------------------------------------------------------------------------

/// Fields in records: an empty field ends a record.
pub open spec fn records(fields: Seq<Seq<u8>>) -> Seq<Seq<Seq<u8>>>
    decreases fields.len(),
{
    if fields.len() == 0 {
        seq![]
    } else if fields.last().len() == 0 {
        records(fields.drop_last())
    } else if fields.len() == 1 || fields[fields.len() - 2].len() == 0 {
        records(fields.drop_last()).push(seq![fields.last()])
    } else {
        let before = records(fields.drop_last());
        before.drop_last().push(before.last().push(fields.last()))
    }
}

/// What stands before the first space of a field.
pub open spec fn field_key(field: Seq<u8>) -> Seq<u8> {
    match first_byte(field, 32u8) {
        Some(i) => field.take(i),
        None => field,
    }
}

/// What stands after the first space of a field.
pub open spec fn field_rest(field: Seq<u8>) -> Option<Seq<u8>> {
    match first_byte(field, 32u8) {
        Some(i) => Some(field.skip(i + 1)),
        None => None,
    }
}

/// A worktree of which some fields were read.
#[verifier::ext_equal]
pub struct DraftView {
    pub path: Option<Seq<char>>,
    pub head: Option<Seq<char>>,
    pub branch: Option<Seq<char>>,
    pub detached: bool,
    pub bare: bool,
    pub locked: bool,
    pub lock_reason: Option<Seq<char>>,
    pub prunable: bool,
    pub prune_reason: Option<Seq<char>>,
}

/// Nothing read.
pub open spec fn blank_draft() -> DraftView {
    DraftView {
        path: None,
        head: None,
        branch: None,
        detached: false,
        bare: false,
        locked: false,
        lock_reason: None,
        prunable: false,
        prune_reason: None,
    }
}

/// The short name of a branch.
pub open spec fn short_branch(reference: Seq<char>) -> Seq<char> {
    if begins_with(reference, "refs/heads/"@) {
        reference.skip("refs/heads/"@.len() as int)
    } else {
        reference
    }
}

/// A reason that may be any bytes.
pub open spec fn reason_text(value: Option<Seq<u8>>) -> Option<Seq<char>> {
    match value {
        Some(bytes) => Some(lossy_text(bytes)),
        None => None,
    }
}

/// What one more field adds to a worktree.
pub open spec fn with_field(draft: DraftView, field: Seq<u8>) -> Result<DraftView, GitErrorView> {
    let key = field_key(field);
    let value = field_rest(field);
    if key == encode_utf8("worktree"@) {
        match path_value(value) {
            Ok(path) => Ok(DraftView { path: Some(path), ..draft }),
            Err(error) => Err(error),
        }
    } else if key == encode_utf8("HEAD"@) {
        match field_value(value) {
            Ok(head) => Ok(DraftView { head: Some(head), ..draft }),
            Err(error) => Err(error),
        }
    } else if key == encode_utf8("branch"@) {
        match field_value(value) {
            Ok(reference) => Ok(DraftView { branch: Some(short_branch(reference)), ..draft }),
            Err(error) => Err(error),
        }
    } else if key == encode_utf8("detached"@) {
        Ok(DraftView { detached: true, ..draft })
    } else if key == encode_utf8("bare"@) {
        Ok(DraftView { bare: true, ..draft })
    } else if key == encode_utf8("locked"@) {
        Ok(DraftView { locked: true, lock_reason: reason_text(value), ..draft })
    } else if key == encode_utf8("prunable"@) {
        Ok(DraftView { prunable: true, prune_reason: reason_text(value), ..draft })
    } else {
        Err(
            GitErrorView::InvalidOutput(
                "unknown worktree record field "@ + debug_text(lossy_text(key)),
            ),
        )
    }
}

/// What the fields of a record add up to, or the error of the first bad field.
pub open spec fn draft_of(fields: Seq<Seq<u8>>) -> Result<DraftView, GitErrorView>
    decreases fields.len(),
{
    if fields.len() == 0 {
        Ok(blank_draft())
    } else {
        match draft_of(fields.drop_last()) {
            Ok(draft) => with_field(draft, fields.last()),
            Err(error) => Err(error),
        }
    }
}

/// The worktree that a record describes.
pub open spec fn record_worktree(fields: Seq<Seq<u8>>) -> Result<GitWorktreeView, GitErrorView> {
    match draft_of(fields) {
        Err(error) => Err(error),
        Ok(draft) => match draft.path {
            None => Err(GitErrorView::InvalidOutput("worktree record has no path"@)),
            Some(path) => Ok(
                GitWorktreeView {
                    path,
                    head: draft.head,
                    branch: draft.branch,
                    detached: draft.detached,
                    bare: draft.bare,
                    locked: draft.locked,
                    lock_reason: draft.lock_reason,
                    prunable: draft.prunable,
                    prune_reason: draft.prune_reason,
                },
            ),
        },
    }
}

/// The worktrees that records describe, or the error of the first bad record.
pub open spec fn record_worktrees(list: Seq<Seq<Seq<u8>>>) -> Result<
    Seq<GitWorktreeView>,
    GitErrorView,
>
    decreases list.len(),
{
    if list.len() == 0 {
        Ok(seq![])
    } else {
        match record_worktrees(list.drop_last()) {
            Err(error) => Err(error),
            Ok(before) => match record_worktree(list.last()) {
                Err(error) => Err(error),
                Ok(worktree) => Ok(before.push(worktree)),
            },
        }
    }
}

/// The worktrees in the output of `git worktree list --porcelain -z`.
pub open spec fn listed_worktrees(output: Seq<u8>) -> Result<Seq<GitWorktreeView>, GitErrorView> {
    record_worktrees(records(pieces(output, 0u8)))
}

struct Draft {
    path: Option<String>,
    head: Option<String>,
    branch: Option<String>,
    detached: bool,
    bare: bool,
    locked: bool,
    lock_reason: Option<String>,
    prunable: bool,
    prune_reason: Option<String>,
}

impl View for Draft {
    type V = DraftView;

    closed spec fn view(&self) -> DraftView {
        DraftView {
            path: option_view(self.path),
            head: option_view(self.head),
            branch: option_view(self.branch),
            detached: self.detached,
            bare: self.bare,
            locked: self.locked,
            lock_reason: option_view(self.lock_reason),
            prunable: self.prunable,
            prune_reason: option_view(self.prune_reason),
        }
    }
}

fn reason(value: &Option<Vec<u8>>) -> (text: Option<String>)
    ensures
        option_view(text) == reason_text(bytes_view(*value)),
{
    match value {
        Some(bytes) => Some(lossy_string(bytes)),
        None => None,
    }
}

fn apply_field(draft: Draft, field: &Vec<u8>) -> (result: Result<Draft, GitError>)
    ensures
        match (result, with_field(draft@, field@)) {
            (Ok(after), Ok(expected)) => after@ == expected,
            (Err(error), Err(expected)) => error@ == expected,
            _ => false,
        },
{
    let (key, value) = match find_byte(field, 32) {
        Some(index) => {
            assert(index < field.len());
            let key = slice_bytes(field, 0, index);
            let rest = slice_bytes(field, index + 1, field.len());
            assert(key@ =~= field_key(field@));
            assert(rest@ =~= field_rest(field@)->0);
            (key, Some(rest))
        },
        None => {
            let key = slice_bytes(field, 0, field.len());
            assert(key@ =~= field@);
            (key, None)
        },
    };
    assert(bytes_view(value) == field_rest(field@));
    let mut draft = draft;
    if same_bytes(&key, "worktree".as_bytes()) {
        match path_string(value) {
            Ok(path) => draft.path = Some(path),
            Err(error) => return Err(error),
        }
    } else if same_bytes(&key, "HEAD".as_bytes()) {
        match value_string(value) {
            Ok(head) => draft.head = Some(head),
            Err(error) => return Err(error),
        }
    } else if same_bytes(&key, "branch".as_bytes()) {
        match value_string(value) {
            Ok(reference) => {
                let short = match strip_prefix(&reference, "refs/heads/") {
                    Some(rest) => rest,
                    None => reference,
                };
                draft.branch = Some(short);
            },
            Err(error) => return Err(error),
        }
    } else if same_bytes(&key, "detached".as_bytes()) {
        draft.detached = true;
    } else if same_bytes(&key, "bare".as_bytes()) {
        draft.bare = true;
    } else if same_bytes(&key, "locked".as_bytes()) {
        draft.locked = true;
        draft.lock_reason = reason(&value);
    } else if same_bytes(&key, "prunable".as_bytes()) {
        draft.prunable = true;
        draft.prune_reason = reason(&value);
    } else {
        let name = lossy_string(&key);
        let printed = debug_string(&name);
        return Err(GitError::InvalidOutput(concat("unknown worktree record field ", &printed)));
    }
    Ok(draft)
}

proof fn lemma_draft_stops(fields: Seq<Seq<u8>>, i: int)
    requires
        0 <= i <= fields.len(),
        draft_of(fields.take(i)) is Err,
    ensures
        draft_of(fields) == draft_of(fields.take(i)),
    decreases fields.len(),
{
    if i == fields.len() {
        assert(fields.take(i) =~= fields);
    } else {
        assert(fields.drop_last().take(i) =~= fields.take(i));
        lemma_draft_stops(fields.drop_last(), i);
    }
}

/// Reads the worktree that the fields of a record describe.
pub fn parse_worktree_record(fields: &Vec<Vec<u8>>) -> (result: Result<GitWorktree, GitError>)
    ensures
        match (result, record_worktree(byte_views(fields@))) {
            (Ok(worktree), Ok(expected)) => worktree@ == expected,
            (Err(error), Err(expected)) => error@ == expected,
            _ => false,
        },
{
    let ghost all = byte_views(fields@);
    let mut draft = Draft {
        path: None,
        head: None,
        branch: None,
        detached: false,
        bare: false,
        locked: false,
        lock_reason: None,
        prunable: false,
        prune_reason: None,
    };
    assert(all.take(0) =~= seq![]);
    let mut i: usize = 0;
    while i < fields.len()
        invariant
            i <= fields.len(),
            all == byte_views(fields@),
            draft_of(all.take(i as int)) == Ok::<DraftView, GitErrorView>(draft@),
        decreases fields.len() - i,
    {
        assert(all.take(i + 1).drop_last() =~= all.take(i as int));
        match apply_field(draft, &fields[i]) {
            Ok(after) => draft = after,
            Err(error) => {
                proof {
                    lemma_draft_stops(all, i + 1);
                }
                return Err(error);
            },
        }
        i += 1;
    }
    assert(all.take(i as int) =~= all);
    match draft.path {
        None => Err(GitError::InvalidOutput("worktree record has no path".to_owned())),
        Some(path) => Ok(
            GitWorktree {
                path,
                head: draft.head,
                branch: draft.branch,
                detached: draft.detached,
                bare: draft.bare,
                locked: draft.locked,
                lock_reason: draft.lock_reason,
                prunable: draft.prunable,
                prune_reason: draft.prune_reason,
            },
        ),
    }
}

/// The views of records.
pub open spec fn record_views(list: Seq<Vec<Vec<u8>>>) -> Seq<Seq<Seq<u8>>> {
    Seq::new(list.len(), |i: int| byte_views(list[i]@))
}

fn group_records(fields: Vec<Vec<u8>>) -> (list: Vec<Vec<Vec<u8>>>)
    ensures
        record_views(list@) == records(byte_views(fields@)),
{
    let ghost all = byte_views(fields@);
    let mut list: Vec<Vec<Vec<u8>>> = Vec::new();
    let mut current: Vec<Vec<u8>> = Vec::new();
    let mut i: usize = 0;
    assert(all.take(0) =~= seq![]);
    assert(record_views(list@) =~= seq![]);
    while i < fields.len()
        invariant
            i <= fields.len(),
            all == byte_views(fields@),
            (current.len() > 0) == (i > 0 && all[i - 1].len() > 0),
            current.len() > 0 ==> record_views(list@).push(byte_views(current@)) == records(
                all.take(i as int),
            ),
            current.len() == 0 ==> record_views(list@) == records(all.take(i as int)),
        decreases fields.len() - i,
    {
        let ghost shorter = all.take(i as int);
        let ghost longer = all.take(i + 1);
        assert(longer.drop_last() =~= shorter);
        let ghost before = list@;
        let ghost part = current@;
        if fields[i].len() == 0 {
            if current.len() > 0 {
                list.push(current);
                current = Vec::new();
                assert(record_views(list@) =~= record_views(before).push(byte_views(part)));
            }
        } else {
            let field = slice_bytes(&fields[i], 0, fields[i].len());
            assert(field@ =~= all[i as int]);
            current.push(field);
            assert(byte_views(current@) =~= byte_views(part).push(all[i as int]));
            proof {
                if part.len() > 0 {
                    assert(record_views(before).push(byte_views(part)).drop_last()
                        =~= record_views(before));
                } else {
                    assert(byte_views(current@) =~= seq![all[i as int]]);
                }
                assert(record_views(list@).push(byte_views(current@)) =~= records(longer));
            }
        }
        i += 1;
    }
    assert(all.take(i as int) =~= all);
    let ghost before = list@;
    let ghost part = current@;
    if current.len() > 0 {
        list.push(current);
        assert(record_views(list@) =~= record_views(before).push(byte_views(part)));
    }
    list
}

proof fn lemma_records_stop(list: Seq<Seq<Seq<u8>>>, i: int)
    requires
        0 <= i <= list.len(),
        record_worktrees(list.take(i)) is Err,
    ensures
        record_worktrees(list) == record_worktrees(list.take(i)),
    decreases list.len(),
{
    if i == list.len() {
        assert(list.take(i) =~= list);
    } else {
        assert(list.drop_last().take(i) =~= list.take(i));
        lemma_records_stop(list.drop_last(), i);
    }
}

/// Reads the output of `git worktree list --porcelain -z`.
pub fn parse_worktree_list_porcelain(input: &[u8]) -> (result: Result<Vec<GitWorktree>, GitError>)
    ensures
        match (result, listed_worktrees(input@)) {
            (Ok(worktrees), Ok(expected)) => views(worktrees@) == expected,
            (Err(error), Err(expected)) => error@ == expected,
            _ => false,
        },
{
    let fields = split_bytes(input, 0);
    let list = group_records(fields);
    let ghost all = record_views(list@);
    let mut worktrees: Vec<GitWorktree> = Vec::new();
    let mut i: usize = 0;
    assert(all.take(0) =~= seq![]);
    assert(views(worktrees@) =~= seq![]);
    while i < list.len()
        invariant
            i <= list.len(),
            all == record_views(list@),
            all == records(pieces(input@, 0u8)),
            record_worktrees(all.take(i as int)) == Ok::<Seq<GitWorktreeView>, GitErrorView>(
                views(worktrees@),
            ),
        decreases list.len() - i,
    {
        assert(all.take(i + 1).drop_last() =~= all.take(i as int));
        match parse_worktree_record(&list[i]) {
            Ok(worktree) => {
                let ghost before = worktrees@;
                let ghost added = worktree@;
                worktrees.push(worktree);
                assert(views(worktrees@) =~= views(before).push(added));
            },
            Err(error) => {
                proof {
                    lemma_records_stop(all, i + 1);
                }
                return Err(error);
            },
        }
        i += 1;
    }
    assert(all.take(i as int) =~= all);
    Ok(worktrees)
}

// ---------------------------------------------------------------------------
// git status --porcelain=v1 -z
// ---------------------------------------------------------------------------

/// The pieces that hold something.
pub open spec fn filled(parts: Seq<Seq<u8>>) -> Seq<Seq<u8>>
    decreases parts.len(),
{
    if parts.len() == 0 {
        seq![]
    } else if parts.last().len() == 0 {
        filled(parts.drop_last())
    } else {
        filled(parts.drop_last()).push(parts.last())
    }
}

/// Whether a pair of status letters tells of a conflict.
pub open spec fn is_conflict(index: char, worktree: char) -> bool {
    index == 'U' || worktree == 'U' || (index == 'A' && worktree == 'A') || (index == 'D'
        && worktree == 'D')
}

/// Whether a status letter tells of a change to a tracked file.
pub open spec fn is_tracked_change(status: char) -> bool {
    status != ' ' && status != '?' && status != '!'
}

/// What a pair of status letters says happened.
pub open spec fn kind_of_change(index: char, worktree: char) -> ChangeKind {
    let status = if is_tracked_change(index) {
        index
    } else {
        worktree
    };
    if is_conflict(index, worktree) {
        ChangeKind::Unmerged
    } else if status == 'M' {
        ChangeKind::Modified
    } else if status == 'A' {
        ChangeKind::Added
    } else if status == 'D' {
        ChangeKind::Deleted
    } else if status == 'R' {
        ChangeKind::Renamed
    } else if status == 'C' {
        ChangeKind::Copied
    } else if status == 'T' {
        ChangeKind::TypeChanged
    } else if status == '?' {
        ChangeKind::Untracked
    } else {
        ChangeKind::Other
    }
}

/// Whether a pair of status letters is followed by the path it came from.
pub open spec fn has_source(index: char, worktree: char) -> bool {
    index == 'R' || index == 'C' || worktree == 'R' || worktree == 'C'
}

/// One more, as far as 32 bits can count.
pub open spec fn one_more(count: u32, counts: bool) -> u32 {
    if counts && count < u32::MAX {
        (count + 1) as u32
    } else {
        count
    }
}

/// A summary with one more entry.
pub open spec fn with_entry(summary: ChangeSummaryView, entry: ChangeEntryView) -> ChangeSummaryView {
    let untracked = entry.index_status == '?' && entry.worktree_status == '?';
    if entry.index_status == '!' && entry.worktree_status == '!' {
        ChangeSummaryView { ignored: one_more(summary.ignored, true), ..summary }
    } else {
        ChangeSummaryView {
            staged: one_more(summary.staged, !untracked && is_tracked_change(entry.index_status)),
            unstaged: one_more(
                summary.unstaged,
                !untracked && is_tracked_change(entry.worktree_status),
            ),
            untracked: one_more(summary.untracked, untracked),
            conflicted: one_more(summary.conflicted, entry.conflicted),
            ignored: summary.ignored,
            entries: summary.entries.push(entry),
        }
    }
}

/// The entry that begins at field `i`, and the index of the field after it.
pub open spec fn entry_at(
    fields: Seq<Seq<u8>>,
    i: int,
) -> Result<(ChangeEntryView, int), GitErrorView> {
    let field = fields[i];
    let index = field[0] as char;
    let worktree = field[1] as char;
    if field.len() < 3 || field[2] != 32u8 {
        Err(
            GitErrorView::InvalidOutput(
                "invalid status entry "@ + debug_text(lossy_text(field)),
            ),
        )
    } else {
        match field_value(Some(field.skip(3))) {
            Err(error) => Err(error),
            Ok(path) => {
                let entry = ChangeEntryView {
                    path,
                    source_path: None,
                    index_status: index,
                    worktree_status: worktree,
                    kind: kind_of_change(index, worktree),
                    conflicted: is_conflict(index, worktree),
                };
                if !has_source(index, worktree) {
                    Ok((entry, i + 1))
                } else if i + 1 >= fields.len() {
                    Err(
                        GitErrorView::InvalidOutput(
                            "rename/copy entry for "@ + debug_text(path) + " has no source path"@,
                        ),
                    )
                } else {
                    match field_value(Some(fields[i + 1])) {
                        Err(error) => Err(error),
                        Ok(source) => Ok(
                            (ChangeEntryView { source_path: Some(source), ..entry }, i + 2),
                        ),
                    }
                }
            },
        }
    }
}

/// The summary of the fields from `i` on, added to `summary`.
pub open spec fn summary_from(fields: Seq<Seq<u8>>, i: int, summary: ChangeSummaryView) -> Result<
    ChangeSummaryView,
    GitErrorView,
>
    decreases fields.len() - i,
{
    if i < 0 || i >= fields.len() {
        Ok(summary)
    } else {
        match entry_at(fields, i) {
            Err(error) => Err(error),
            Ok((entry, next)) => summary_from(fields, next, with_entry(summary, entry)),
        }
    }
}

/// The changes in the output of `git status --porcelain=v1 -z`.
pub open spec fn status_summary(output: Seq<u8>) -> Result<ChangeSummaryView, GitErrorView> {
    summary_from(filled(pieces(output, 0u8)), 0, ChangeSummaryView::none())
}

/// Whether a pair of status letters tells of a conflict.
pub fn is_conflicted(index_status: char, worktree_status: char) -> (conflicted: bool)
    ensures
        conflicted == is_conflict(index_status, worktree_status),
{
    index_status == 'U' || worktree_status == 'U' || (index_status == 'A' && worktree_status == 'A')
        || (index_status == 'D' && worktree_status == 'D')
}

/// Whether the first status letter tells of a staged change.
pub fn status_counts_as_staged(status: char) -> (counts: bool)
    ensures
        counts == is_tracked_change(status),
{
    status != ' ' && status != '?' && status != '!'
}

/// Whether the second status letter tells of an unstaged change.
pub fn status_counts_as_unstaged(status: char) -> (counts: bool)
    ensures
        counts == is_tracked_change(status),
{
    status != ' ' && status != '?' && status != '!'
}

/// What a pair of status letters says happened.
pub fn change_kind(index_status: char, worktree_status: char) -> (kind: ChangeKind)
    ensures
        kind == kind_of_change(index_status, worktree_status),
{
    if is_conflicted(index_status, worktree_status) {
        return ChangeKind::Unmerged;
    }
    let status = if status_counts_as_staged(index_status) {
        index_status
    } else {
        worktree_status
    };
    if status == 'M' {
        ChangeKind::Modified
    } else if status == 'A' {
        ChangeKind::Added
    } else if status == 'D' {
        ChangeKind::Deleted
    } else if status == 'R' {
        ChangeKind::Renamed
    } else if status == 'C' {
        ChangeKind::Copied
    } else if status == 'T' {
        ChangeKind::TypeChanged
    } else if status == '?' {
        ChangeKind::Untracked
    } else {
        ChangeKind::Other
    }
}

fn count_one(count: u32, counts: bool) -> (after: u32)
    ensures
        after == one_more(count, counts),
{
    if counts {
        count.saturating_add(1)
    } else {
        count
    }
}

fn keep_filled(parts: Vec<Vec<u8>>) -> (fields: Vec<Vec<u8>>)
    ensures
        byte_views(fields@) == filled(byte_views(parts@)),
{
    let ghost all = byte_views(parts@);
    let mut fields: Vec<Vec<u8>> = Vec::new();
    let mut i: usize = 0;
    assert(all.take(0) =~= seq![]);
    assert(byte_views(fields@) =~= seq![]);
    while i < parts.len()
        invariant
            i <= parts.len(),
            all == byte_views(parts@),
            byte_views(fields@) == filled(all.take(i as int)),
        decreases parts.len() - i,
    {
        assert(all.take(i + 1).drop_last() =~= all.take(i as int));
        if parts[i].len() > 0 {
            let field = slice_bytes(&parts[i], 0, parts[i].len());
            assert(field@ =~= all[i as int]);
            let ghost before = fields@;
            fields.push(field);
            assert(byte_views(fields@) =~= byte_views(before).push(all[i as int]));
        }
        i += 1;
    }
    assert(all.take(i as int) =~= all);
    fields
}

fn add_entry(summary: ChangeSummary, entry: ChangeEntry) -> (after: ChangeSummary)
    ensures
        after@ == with_entry(summary@, entry@),
{
    let mut after = summary;
    if entry.index_status == '!' && entry.worktree_status == '!' {
        after.ignored = count_one(after.ignored, true);
        return after;
    }
    let untracked = entry.index_status == '?' && entry.worktree_status == '?';
    after.staged = count_one(
        after.staged,
        !untracked && status_counts_as_staged(entry.index_status),
    );
    after.unstaged = count_one(
        after.unstaged,
        !untracked && status_counts_as_unstaged(entry.worktree_status),
    );
    after.untracked = count_one(after.untracked, untracked);
    after.conflicted = count_one(after.conflicted, entry.conflicted);
    let ghost before = after.entries@;
    let ghost added = entry@;
    after.entries.push(entry);
    assert(views(after.entries@) =~= views(before).push(added));
    after
}

fn read_entry(fields: &Vec<Vec<u8>>, i: usize) -> (result: Result<(ChangeEntry, usize), GitError>)
    requires
        i < fields.len(),
    ensures
        match (result, entry_at(byte_views(fields@), i as int)) {
            (Ok((entry, next)), Ok((expected, after))) => entry@ == expected && next == after,
            (Err(error), Err(expected)) => error@ == expected,
            _ => false,
        },
{
    let field = &fields[i];
    assert(byte_views(fields@)[i as int] == field@);
    if field.len() < 3 || field[2] != 32 {
        let text = lossy_string(field);
        let printed = debug_string(&text);
        return Err(GitError::InvalidOutput(concat("invalid status entry ", &printed)));
    }
    let index_status = field[0] as char;
    let worktree_status = field[1] as char;
    let rest = slice_bytes(field, 3, field.len());
    assert(rest@ =~= field@.skip(3));
    let path = match value_string(Some(rest)) {
        Ok(path) => path,
        Err(error) => return Err(error),
    };
    let kind = change_kind(index_status, worktree_status);
    let conflicted = is_conflicted(index_status, worktree_status);
    if !(index_status == 'R' || index_status == 'C' || worktree_status == 'R' || worktree_status
        == 'C') {
        let entry = ChangeEntry {
            path,
            source_path: None,
            index_status,
            worktree_status,
            kind,
            conflicted,
        };
        return Ok((entry, i + 1));
    }
    if i + 1 >= fields.len() {
        let printed = debug_string(&path);
        return Err(
            GitError::InvalidOutput(
                concat3("rename/copy entry for ", &printed, " has no source path"),
            ),
        );
    }
    let source = slice_bytes(&fields[i + 1], 0, fields[i + 1].len());
    assert(source@ =~= byte_views(fields@)[i + 1]);
    match value_string(Some(source)) {
        Ok(source_path) => {
            let entry = ChangeEntry {
                path,
                source_path: Some(source_path),
                index_status,
                worktree_status,
                kind,
                conflicted,
            };
            Ok((entry, i + 2))
        },
        Err(error) => Err(error),
    }
}

/// Reads the output of `git status --porcelain=v1 -z`.
pub fn parse_status_porcelain(input: &[u8]) -> (result: Result<ChangeSummary, GitError>)
    ensures
        match (result, status_summary(input@)) {
            (Ok(summary), Ok(expected)) => summary@ == expected,
            (Err(error), Err(expected)) => error@ == expected,
            _ => false,
        },
{
    let parts = split_bytes(input, 0);
    let fields = keep_filled(parts);
    let ghost all = byte_views(fields@);
    let mut summary = ChangeSummary::default();
    let mut i: usize = 0;
    while i < fields.len()
        invariant
            i <= fields.len(),
            all == byte_views(fields@),
            status_summary(input@) == summary_from(all, i as int, summary@),
        decreases fields.len() - i,
    {
        match read_entry(&fields, i) {
            Ok((entry, next)) => {
                summary = add_entry(summary, entry);
                i = next;
            },
            Err(error) => return Err(error),
        }
    }
    Ok(summary)
}

} // verus!
