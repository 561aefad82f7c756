//! What the program shows, told in what it was given.

use crate::cli::error::CliError;
use crate::cli::figures::format_bytes;
use crate::cli::figures::format_modified;
use crate::cli::figures::kept_bytes;
use crate::cli::figures::kept_step;
use crate::cli::figures::rounded_steps;
use crate::cli::page::aligned_left;
use crate::cli::page::aligned_right;
use crate::cli::page::pad_left;
use crate::cli::page::pad_right;
use crate::cli::page::Page;
use crate::cli::page::shortened;
use crate::cli::page::truncate;
use crate::cli::relative::display_worktree_path;
use crate::cli::results::candidate_line;
use crate::cli::results::candidates_shown;
use crate::cli::results::render_cleanup_result;
use crate::cli::results::render_create_result;
use crate::cli::results::render_lock_result;
use crate::cli::results::render_remove_result;
use crate::cli::results::texts_of;
use crate::cli::status::all_rows;
use crate::cli::status::byte_prefix;
use crate::cli::status::changes_text;
use crate::cli::status::commit_lines;
use crate::cli::status::disk_line;
use crate::cli::status::entries_lines;
use crate::cli::status::entry_lines;
use crate::cli::status::error_lines;
use crate::cli::status::files_lines;
use crate::cli::status::identity_lines;
use crate::cli::status::list_head;
use crate::cli::status::modified_line;
use crate::cli::status::render_list;
use crate::cli::status::render_status;
use crate::cli::status::status_rows;
use crate::cli::status::unique_line;
use crate::cli::status::upstream_line;
use crate::git::repository::GitRepository;
use crate::git::worktree::GitWorktree;
use crate::git::worktree::GitWorktreeStatus;
use crate::git::worktree::GitWorktreeStatusView;
use crate::json::parser::parse;
use crate::json::value::Json;
use crate::json::value::Value;
use crate::model::ChangeEntryView;
use crate::model::ChangeKind;
use crate::model::DiskUsage;
use crate::numeral::decimal;
use crate::numeral::signed_decimal;
use crate::text::join_text;
use crate::text::views;
use vstd::prelude::*;

verus! {

// ---------------------------------------------------------------------------
// Results
// ---------------------------------------------------------------------------

/// Where JSON is asked for, the result is shown as it came, in one line, whatever command
/// it belongs to.
pub proof fn asked_for_json_is_shown_as_it_came(
    result_json: &str,
    lock: bool,
    created: (Page, Result<(), CliError>),
    locked: (Page, Result<(), CliError>),
    removed: (Page, Result<(), CliError>),
    scanned: (Page, Result<(), CliError>),
)
    requires
        call_ensures(render_create_result, (result_json, true), created),
        call_ensures(render_lock_result, (result_json, lock, true), locked),
        call_ensures(render_remove_result, (result_json, true), removed),
        call_ensures(render_cleanup_result, (result_json, true), scanned),
    ensures
        created.1 is Ok && views(created.0.lines@) == seq![result_json@],
        locked.1 is Ok && views(locked.0.lines@) == seq![result_json@],
        removed.1 is Ok && views(removed.0.lines@) == seq![result_json@],
        scanned.1 is Ok && views(scanned.0.lines@) == seq![result_json@],
{
}

/// A worktree that was created is said to be created, and one that was there before to be
/// reused, at its path and with its branch.
pub proof fn creation_is_shown(
    result_json: &str,
    value: Value,
    path: Seq<char>,
    shown: (Page, Result<(), CliError>),
)
    requires
        call_ensures(parse, (result_json,), Ok(value)),
        value@.field("path"@) == Some(Json::Str(path)),
        call_ensures(render_create_result, (result_json, false), shown),
    ensures
        (value@.field("branch"@) matches Some(Json::Str(branch)) ==> value@.field(
            "already_existed"@,
        ) == Some(Json::Bool(true)) ==> shown.1 is Ok && views(shown.0.lines@) == seq![
            "Reused"@ + " worktree "@ + branch + " at "@ + path,
        ]),
        (value@.field("branch"@) matches Some(Json::Str(branch)) ==> value@.field(
            "already_existed"@,
        ) == Some(Json::Bool(false)) ==> shown.1 is Ok && views(shown.0.lines@) == seq![
            "Created"@ + " worktree "@ + branch + " at "@ + path,
        ]),
        value@.field("branch"@) == Some(Json::Null) && value@.field("already_existed"@) == Some(
            Json::Bool(false),
        ) ==> shown.1 is Ok && views(shown.0.lines@) == seq![
            "Created"@ + " worktree "@ + "(detached)"@ + " at "@ + path,
        ],
{
}

/// A worktree that was locked is said to be locked and one that was unlocked to be
/// unlocked; where nothing was to be done, that is said, with the reason of the lock.
pub proof fn lock_is_shown(
    result_json: &str,
    lock: bool,
    value: Value,
    path: Seq<char>,
    shown: (Page, Result<(), CliError>),
)
    requires
        call_ensures(parse, (result_json,), Ok(value)),
        value@.field("path"@) == Some(Json::Str(path)),
        call_ensures(render_lock_result, (result_json, lock, false), shown),
    ensures
        value@.field("already_in_requested_state"@) == Some(Json::Bool(false)) && lock
            ==> shown.1 is Ok && views(shown.0.lines@) == seq!["Locked "@ + path],
        value@.field("already_in_requested_state"@) == Some(Json::Bool(false)) && !lock
            ==> shown.1 is Ok && views(shown.0.lines@) == seq!["Unlocked "@ + path],
        (value@.field("lock_reason"@) matches Some(Json::Str(reason)) ==> value@.field(
            "already_in_requested_state"@,
        ) == Some(Json::Bool(true)) && lock ==> shown.1 is Ok && views(shown.0.lines@) == seq![
            path + " already "@ + "locked"@ + ": "@ + reason,
        ]),
        value@.field("already_in_requested_state"@) == Some(Json::Bool(true)) && value@.field(
            "lock_reason"@,
        ) == Some(Json::Null) && !lock ==> shown.1 is Ok && views(shown.0.lines@) == seq![
            path + " already "@ + "unlocked"@ + ": "@ + ""@,
        ],
{
}

/// A worktree that was removed is said to be removed, and its branch to be deleted exactly
/// if it was.
pub proof fn removal_is_shown(
    result_json: &str,
    value: Value,
    path: Seq<char>,
    branch: Seq<char>,
    shown: (Page, Result<(), CliError>),
)
    requires
        call_ensures(parse, (result_json,), Ok(value)),
        value@.field("path"@) == Some(Json::Str(path)),
        value@.field("branch"@) == Some(Json::Str(branch)),
        call_ensures(render_remove_result, (result_json, false), shown),
    ensures
        value@.field("branch_deleted"@) == Some(Json::Bool(true)) ==> shown.1 is Ok && views(
            shown.0.lines@,
        ) == seq!["Removed worktree "@ + path, "Deleted branch "@ + branch],
        value@.field("branch_deleted"@) == Some(Json::Bool(false)) ==> shown.1 is Ok && views(
            shown.0.lines@,
        ) == seq!["Removed worktree "@ + path],
{
}

/// Whether a value tells of a worktree with a classification, a branch, a path and blockers.
pub open spec fn tells_of_candidate(
    item: Json,
    classification: Seq<char>,
    branch: Seq<char>,
    path: Seq<char>,
    blockers: Seq<Seq<char>>,
) -> bool {
    &&& item.field("classification"@) == Some(Json::Str(classification))
    &&& item.field("branch"@) == Some(Json::Str(branch))
    &&& item.field("path"@) == Some(Json::Str(path))
    &&& item.field("blockers"@) == Some(
        Json::Array(Seq::new(blockers.len(), |i: int| Json::Str(blockers[i]))),
    )
}

proof fn lemma_texts(texts: Seq<Seq<char>>)
    ensures
        texts_of(Seq::new(texts.len(), |i: int| Json::Str(texts[i]))) == Some(texts),
    decreases texts.len(),
{
    let items = Seq::new(texts.len(), |i: int| Json::Str(texts[i]));
    if texts.len() > 0 {
        let before = texts.drop_last();
        lemma_texts(before);
        assert(items.drop_last() =~= Seq::new(before.len(), |i: int| Json::Str(before[i])));
        assert(before.push(texts.last()) =~= texts);
    } else {
        assert(texts =~= seq![]);
    }
}

proof fn lemma_candidates(items: Seq<Json>, count: nat, k: int)
    requires
        count <= items.len(),
        forall|i: int| 0 <= i < items.len() ==> candidate_line(#[trigger] items[i]) is Ok,
    ensures
        candidates_shown(items, count).failure is None,
        candidates_shown(items, count).lines.len() == count + 1,
        candidates_shown(items, count).lines[0] == "Cleanup candidates:"@,
        0 <= k < count ==> candidates_shown(items, count).lines[k + 1] == candidate_line(
            items[k],
        )->Ok_0,
    decreases count,
{
    if count > 0 {
        lemma_candidates(items, (count - 1) as nat, k);
        assert(candidate_line(items[count - 1]) is Ok);
    }
}

/// A scan is shown with a line for every worktree: its classification, its branch, its
/// path, and what stands against its removal.
pub proof fn scan_is_shown(
    result_json: &str,
    value: Value,
    items: Seq<Json>,
    classifications: Seq<Seq<char>>,
    branches: Seq<Seq<char>>,
    paths: Seq<Seq<char>>,
    blockers: Seq<Seq<Seq<char>>>,
    k: int,
    shown: (Page, Result<(), CliError>),
)
    requires
        call_ensures(parse, (result_json,), Ok(value)),
        value@.field("candidates"@) == Some(Json::Array(items)),
        forall|i: int|
            0 <= i < items.len() ==> tells_of_candidate(
                #[trigger] items[i],
                classifications[i],
                branches[i],
                paths[i],
                blockers[i],
            ),
        0 <= k < items.len(),
        branches[k].len() <= 24,
        call_ensures(render_cleanup_result, (result_json, false), shown),
    ensures
        shown.1 is Ok,
        shown.0.lines@.len() == items.len() + 1,
        shown.0.lines@[0]@ == "Cleanup candidates:"@,
        blockers[k].len() > 0 ==> shown.0.lines@[k + 1]@ == "  "@ + aligned_left(
            classifications[k],
            8,
        ) + " "@ + aligned_left(branches[k], 24) + " "@ + aligned_left(paths[k], 20) + (
        " \u{2014} "@ + join_text(blockers[k], ", "@)),
        blockers[k].len() == 0 ==> shown.0.lines@[k + 1]@ == "  "@ + aligned_left(
            classifications[k],
            8,
        ) + " "@ + aligned_left(branches[k], 24) + " "@ + aligned_left(paths[k], 20) + ""@,
{
    assert forall|i: int| 0 <= i < items.len() implies candidate_line(
        #[trigger] items[i],
    ) is Ok by {
        assert(tells_of_candidate(
            items[i],
            classifications[i],
            branches[i],
            paths[i],
            blockers[i],
        ));
        lemma_texts(blockers[i]);
    }
    lemma_candidates(items, items.len(), k);
    assert(tells_of_candidate(items[k], classifications[k], branches[k], paths[k], blockers[k]));
    lemma_texts(blockers[k]);
    let lines = views(shown.0.lines@);
    assert(lines.len() == shown.0.lines@.len());
    assert(lines[0] == shown.0.lines@[0]@);
    assert(lines[k + 1] == shown.0.lines@[k + 1]@);
}

// ---------------------------------------------------------------------------
// Columns
// ---------------------------------------------------------------------------

/// A text in a column keeps all its characters and gets blanks behind or before it until
/// it is as wide as the column; what is cut is no wider than the column and begins as the
/// text does.
pub proof fn columns_keep_their_text(
    text: &str,
    width: usize,
    left: String,
    right: String,
    cut: String,
)
    requires
        call_ensures(pad_right, (text, width), left),
        call_ensures(pad_left, (text, width), right),
        call_ensures(truncate, (text, width), cut),
    ensures
        left@.take(text@.len() as int) == text@,
        right@.skip(right@.len() - text@.len()) == text@,
        left@.len() == (if text@.len() < width { width as nat } else { text@.len() }),
        right@.len() == left@.len(),
        forall|i: int| text@.len() <= i < left@.len() ==> #[trigger] left@[i] == ' ',
        forall|i: int| 0 <= i < right@.len() - text@.len() ==> #[trigger] right@[i] == ' ',
        text@.len() <= width ==> cut@ == text@,
        text@.len() > width > 0 ==> cut@.len() == width && cut@.drop_last() == text@.take(
            width - 1,
        ) && cut@.last() == '\u{2026}',
{
    assert(left@.take(text@.len() as int) =~= text@);
    assert(right@.skip(right@.len() - text@.len()) =~= text@);
    if text@.len() > width > 0 {
        assert(cut@.drop_last() =~= text@.take(width - 1));
    }
}

// ---------------------------------------------------------------------------
// Sizes
// ---------------------------------------------------------------------------

proof fn lemma_tenths(count: nat, size: nat)
    requires
        size == 0x400 || size == 0x10_0000 || size == 0x4000_0000 || size == 0x100_0000_0000,
    ensures
        rounded_steps(10 * (count * size), size) == 10 * count,
        rounded_steps(count, 1) == count,
{
    assert(10 * (count * size) == (10 * count) * size) by (nonlinear_arith);
    let product = (10 * count) * size;
    assert(product / size == 10 * count) by (nonlinear_arith)
        requires
            product == (10 * count) * size,
            size > 0,
    ;
    assert(product % size == 0) by (nonlinear_arith)
        requires
            product == (10 * count) * size,
            size > 0,
    ;
}

/// Up to a kilobyte, a size is shown in bytes.
pub proof fn small_sizes_are_shown_in_bytes(bytes: u64, text: String)
    requires
        bytes < 1024,
        call_ensures(format_bytes, (bytes,), text),
    ensures
        text@ == decimal(bytes as nat) + " B"@,
{
    lemma_tenths(bytes as nat, 0x400);
    assert(kept_step(bytes as nat) == 1);
    assert(rounded_steps(bytes as nat, 1) * 1 == bytes);
}

/// Whole numbers of kilobytes, megabytes, gigabytes and terabytes, a thousand and
/// twenty-four of each in the next, are shown as such.
pub proof fn whole_sizes_are_shown_in_their_unit(
    count: u64,
    kilo: String,
    mega: String,
    giga: String,
    tera: String,
)
    requires
        1 <= count < 1024,
        call_ensures(format_bytes, ((count * 0x400) as u64,), kilo),
        call_ensures(format_bytes, ((count * 0x10_0000) as u64,), mega),
        call_ensures(format_bytes, ((count * 0x4000_0000) as u64,), giga),
        call_ensures(format_bytes, ((count * 0x100_0000_0000) as u64,), tera),
    ensures
        kilo@ == decimal(count as nat) + "."@ + decimal(0) + " KB"@,
        mega@ == decimal(count as nat) + "."@ + decimal(0) + " MB"@,
        giga@ == decimal(count as nat) + "."@ + decimal(0) + " GB"@,
        tera@ == decimal(count as nat) + "."@ + decimal(0) + " TB"@,
{
    lemma_whole_size(count, 0x400);
    lemma_whole_size(count, 0x10_0000);
    lemma_whole_size(count, 0x4000_0000);
    lemma_whole_size(count, 0x100_0000_0000);
}

proof fn lemma_whole_size(count: u64, size: nat)
    requires
        1 <= count < 1024,
        size == 0x400 || size == 0x10_0000 || size == 0x4000_0000 || size == 0x100_0000_0000,
    ensures
        kept_bytes((count * size) as u64) == count * size,
        rounded_steps(10 * (count as nat * size), size) == 10 * count,
        (10 * count as nat) / 10 == count,
        (10 * count as nat) % 10 == 0,
        size <= count * size < 1024 * size,
        count * size <= u64::MAX,
{
    lemma_tenths(count as nat, size);
    assert(size <= count * size < 1024 * size) by (nonlinear_arith)
        requires
            1 <= count < 1024,
            size > 0,
    ;
    let bytes = (count * size) as nat;
    lemma_tenths(bytes, 0x400);
    assert(kept_step(bytes) == 1);
    assert(rounded_steps(bytes, 1) * 1 == bytes);
}

// ---------------------------------------------------------------------------
// Pages
// ---------------------------------------------------------------------------

proof fn lemma_part_is_there(
    before: Seq<Seq<char>>,
    part: Seq<Seq<char>>,
    after: Seq<Seq<char>>,
    k: int,
)
    requires
        0 <= k < part.len(),
    ensures
        (before + part + after).contains(part[k]),
{
    assert((before + part + after)[before.len() + k] == part[k]);
}

/// The page of a worktree tells its path, its branch, its commit, its state, its counts of
/// changes in their order, and how it stands to its upstream, each in a line of its own.
pub proof fn page_of_a_worktree_tells_what_is_known(
    repository: &GitRepository,
    status: &GitWorktreeStatus,
    git_word: &'static str,
    word: &'static str,
    page: Page,
)
    requires
        call_ensures(GitWorktree::state, (&status.worktree,), git_word),
        call_ensures(GitWorktreeStatus::state, (status,), word),
        call_ensures(render_status, (repository, status), page),
    ensures
        ({
            let lines = views(page.lines@);
            &&& lines.contains("Worktree: "@ + status.worktree.path@)
            &&& lines.contains("Repository: "@ + repository.display_name@)
            &&& status.worktree.branch matches Some(branch)
                ==> lines.contains("Branch: "@ + branch@)
            &&& status.worktree.branch is None ==> lines.contains("Branch: "@ + "(detached)"@)
            &&& status.worktree.head matches Some(head) ==> lines.contains("HEAD: "@ + head@)
            &&& lines.contains("Git state: "@ + git_word@)
            &&& lines.contains("Observed state: "@ + word@)
            &&& lines.contains(
                "Changes: "@ + (decimal(status.data.changes.staged as nat) + " staged, "@) + (
                decimal(status.data.changes.unstaged as nat) + " unstaged, "@) + (decimal(
                    status.data.changes.untracked as nat,
                ) + " untracked, "@) + (decimal(status.data.changes.conflicted as nat)
                    + " conflicted, "@) + (decimal(status.data.changes.ignored as nat)
                    + " ignored"@),
            )
            &&& status.data.upstream.name matches Some(name) ==> lines.contains(
                "Upstream: "@ + name@,
            )
            &&& status.data.upstream.name is None ==> lines.contains("Upstream: "@ + "none"@)
        }),
{
    let part = identity_lines(repository@, status@);
    let lines = views(page.lines@);
    let after = lines.skip(part.len() as int);
    assert(seq![] + part + after =~= lines);
    lemma_part_is_there(seq![], part, after, 0);
    lemma_part_is_there(seq![], part, after, 1);
    lemma_part_is_there(seq![], part, after, 2);
    lemma_part_is_there(seq![], part, after, 3);
    lemma_part_is_there(seq![], part, after, 4);
    lemma_part_is_there(seq![], part, after, 5);
    lemma_part_is_there(seq![], part, after, 6);
    lemma_part_is_there(seq![], part, after, 7);
}

proof fn lemma_two_parts(left: Seq<Seq<char>>, right: Seq<Seq<char>>)
    ensures
        forall|line: Seq<char>|
            left.contains(line) || right.contains(line) ==> #[trigger] (left + right).contains(
                line,
            ),
{
    assert forall|line: Seq<char>| left.contains(line) || right.contains(line) implies #[trigger] (
    left + right).contains(line) by {
        if left.contains(line) {
            let k = choose|k: int| 0 <= k < left.len() && left[k] == line;
            assert((left + right)[k] == line);
        } else {
            let k = choose|k: int| 0 <= k < right.len() && right[k] == line;
            assert((left + right)[left.len() + k] == line);
        }
    }
}

proof fn lemma_nine_parts(
    one: Seq<Seq<char>>,
    two: Seq<Seq<char>>,
    three: Seq<Seq<char>>,
    four: Seq<Seq<char>>,
    five: Seq<Seq<char>>,
    six: Seq<Seq<char>>,
    seven: Seq<Seq<char>>,
    eight: Seq<Seq<char>>,
    nine: Seq<Seq<char>>,
)
    ensures
        forall|line: Seq<char>|
            one.contains(line) || two.contains(line) || three.contains(line) || four.contains(line)
                || five.contains(line) || six.contains(line) || seven.contains(line)
                || eight.contains(line) || nine.contains(line) ==> #[trigger] (one + two + three
                + four + five + six + seven + eight + nine).contains(line),
{
    lemma_two_parts(one, two);
    lemma_two_parts(one + two, three);
    lemma_two_parts(one + two + three, four);
    lemma_two_parts(one + two + three + four, five);
    lemma_two_parts(one + two + three + four + five, six);
    lemma_two_parts(one + two + three + four + five + six, seven);
    lemma_two_parts(one + two + three + four + five + six + seven, eight);
    lemma_two_parts(one + two + three + four + five + six + seven + eight, nine);
}

/// The page of a worktree tells how far it is ahead and behind, how it is merged, how many
/// commits are its own, what its last commit is, and when it was modified, where these are
/// known.
pub proof fn page_of_a_worktree_tells_its_history(
    repository: &GitRepository,
    status: &GitWorktreeStatus,
    page: Page,
)
    requires
        call_ensures(render_status, (repository, status), page),
    ensures
        ({
            let lines = views(page.lines@);
            &&& status.data.upstream.ahead is Some && status.data.upstream.behind is Some
                ==> lines.contains(
                "Ahead/behind: "@ + decimal(status.data.upstream.ahead->0 as nat) + "/"@ + decimal(
                    status.data.upstream.behind->0 as nat,
                ),
            )
            &&& lines.contains("Merge: "@ + status.data.merge.classification@)
            &&& status.data.last_commit matches Some(commit) ==> {
                &&& commit.subject matches Some(subject) ==> lines.contains(
                    "Last commit: "@ + byte_prefix(commit.id@, 12) + " "@ + subject@,
                )
                &&& commit.committed_at matches Some(time) ==> lines.contains(
                    "Committed at: "@ + time@,
                )
            }
            &&& status.data.merge.unique_commits matches Some(unique) ==> lines.contains(
                "Unique commits: "@ + decimal(unique as nat),
            )
            &&& status.data.time.filesystem_modified_unix_seconds matches Some(seconds)
                ==> lines.contains(
                "Filesystem modified (approx.): "@ + signed_decimal(seconds as int),
            )
            &&& status.observation_error matches Some(error) ==> lines.contains(
                "Observation error: "@ + error@,
            )
        }),
{
    let one = identity_lines(repository@, status@);
    let two = upstream_line(status@);
    let three = seq!["Merge: "@ + status@.data.merge.classification];
    let four = unique_line(status@);
    let five = commit_lines(status@);
    let six = seq![disk_line(status@)];
    let seven = modified_line(status@);
    let eight = files_lines(status@.data.changes.entries);
    let nine = error_lines(status@);
    assert(views(page.lines@) == one + two + three + four + five + six + seven + eight + nine);
    lemma_nine_parts(one, two, three, four, five, six, seven, eight, nine);
    assert(three.contains(three[0]));
    if let Some(commit) = status.data.last_commit {
        assert(five.contains(five[0]));
        if commit.committed_at is Some {
            assert(five.contains(five[1]));
        }
    }
    if status.data.upstream.ahead is Some && status.data.upstream.behind is Some {
        assert(two.contains(two[0]));
    }
    if status.data.merge.unique_commits is Some {
        assert(four.contains(four[0]));
    }
    if status.data.time.filesystem_modified_unix_seconds is Some {
        assert(seven.contains(seven[0]));
    }
    if status.observation_error is Some {
        assert(nine.contains(nine[1]));
    }
}

proof fn lemma_entries(entries: Seq<ChangeEntryView>, k: int)
    requires
        0 <= k < entries.len(),
    ensures
        entries_lines(entries).len() == 2 * entries.len(),
        entries_lines(entries)[2 * k] == entry_lines(entries[k])[0],
        entries_lines(entries)[2 * k + 1] == entry_lines(entries[k])[1],
    decreases entries.len(),
{
    let before = entries.drop_last();
    if before.len() > 0 {
        if k < before.len() {
            lemma_entries(before, k);
        } else {
            lemma_entries(before, 0);
        }
    } else {
        assert(entries_lines(before) =~= seq![]);
    }
    assert(entries_lines(entries) == entries_lines(before) + entry_lines(entries.last()));
    assert(entries_lines(before).len() == 2 * before.len());
}

/// The page of a worktree tells of every changed file in two lines, one behind the other:
/// what happened to it, with its two letters, and where it is, with where it came from.
/// It tells how much space the worktree takes, apart from what all worktrees share.
pub proof fn page_of_a_worktree_tells_its_files(
    repository: &GitRepository,
    status: &GitWorktreeStatus,
    k: int,
    word: &'static str,
    own_size: String,
    common_size: String,
    page: Page,
)
    requires
        0 <= k < status.data.changes.entries@.len(),
        call_ensures(ChangeKind::as_str, (status.data.changes.entries@[k].kind,), word),
        call_ensures(format_bytes, (status.data.disk_usage.worktree_bytes,), own_size),
        call_ensures(format_bytes, (status.data.disk_usage.git_common_bytes,), common_size),
        call_ensures(render_status, (repository, status), page),
    ensures
        ({
            let lines = views(page.lines@);
            let entry = status.data.changes.entries@[k];
            let letters = seq![entry.index_status, entry.worktree_status];
            &&& lines.contains("Changed files:"@)
            &&& entry.source_path is None ==> lines.contains(
                "  "@ + word@ + ""@ + " ["@ + letters + "]"@,
            ) && lines.contains("    "@ + entry.path@ + ""@)
            &&& entry.source_path matches Some(source) ==> lines.contains(
                "  "@ + word@ + " "@ + " ["@ + letters + "]"@,
            ) && lines.contains("    "@ + entry.path@ + (" <- "@ + source@))
            &&& lines.contains(
                "Disk: "@ + own_size@ + " worktree-local + "@ + common_size@ + " common Git"@,
            )
        }),
{
    let one = identity_lines(repository@, status@);
    let two = upstream_line(status@);
    let three = seq!["Merge: "@ + status@.data.merge.classification];
    let four = unique_line(status@);
    let five = commit_lines(status@);
    let six = seq![disk_line(status@)];
    let seven = modified_line(status@);
    let entries = status@.data.changes.entries;
    let eight = files_lines(entries);
    let nine = error_lines(status@);
    assert(views(page.lines@) == one + two + three + four + five + six + seven + eight + nine);
    lemma_nine_parts(one, two, three, four, five, six, seven, eight, nine);
    assert(entries[k] == status.data.changes.entries@[k]@);
    lemma_entries(entries, k);
    assert(eight[1] == "Changed files:"@);
    assert(eight[2 + 2 * k] == entry_lines(entries[k])[0]);
    assert(eight[2 + (2 * k + 1)] == entry_lines(entries[k])[1]);
    assert(eight.contains(eight[1]));
    assert(eight.contains(eight[2 + 2 * k]));
    assert(eight.contains(eight[2 + (2 * k + 1)]));
    assert(six.contains(six[0]));
}

proof fn lemma_all_rows(root: Seq<char>, statuses: Seq<GitWorktreeStatusView>, k: int)
    requires
        0 <= k < statuses.len(),
    ensures
        all_rows(root, statuses).contains(status_rows(root, statuses[k])[0]),
        all_rows(root, statuses).len() >= statuses.len(),
    decreases statuses.len(),
{
    let before = all_rows(root, statuses.drop_last());
    let last = status_rows(root, statuses.last());
    if k == statuses.len() - 1 {
        assert((before + last)[before.len() as int] == last[0]);
        if k > 0 {
            lemma_all_rows(root, statuses.drop_last(), 0);
        }
    } else {
        lemma_all_rows(root, statuses.drop_last(), k);
        let row = status_rows(root, statuses[k])[0];
        assert(statuses.drop_last()[k] == statuses[k]);
        let j = choose|j: int| 0 <= j < before.len() && before[j] == row;
        assert((before + last)[j] == row);
    }
}

/// The list has a row for every worktree, with the path as seen from the root, the branch,
/// the state, the changes, the merge state, the date and the size in this order.
pub proof fn list_has_a_row_for_every_worktree(
    repository: &GitRepository,
    statuses: &Vec<GitWorktreeStatus>,
    k: int,
    root: &str,
    long_path: &str,
    path: String,
    path_text: &str,
    short_path: String,
    word: &'static str,
    date: String,
    total: u64,
    size: String,
    page: Page,
)
    requires
        0 <= k < statuses@.len(),
        statuses@[k].worktree.branch is Some,
        statuses@[k].worktree.branch->0@.len() <= 20,
        statuses@[k].observation_error is None,
        statuses@[k].data.merge.classification@.len() <= 18,
        statuses@[k].data.changes.entries@.len() < 10000,
        root@ == repository.root@,
        long_path@ == statuses@[k].worktree.path@,
        path_text@ == path@,
        call_ensures(display_worktree_path, (root, long_path), path),
        call_ensures(truncate, (path_text, 32usize), short_path),
        call_ensures(GitWorktreeStatus::state, (&statuses@[k],), word),
        call_ensures(
            format_modified,
            (statuses@[k].data.time.filesystem_modified_unix_seconds,),
            date,
        ),
        call_ensures(DiskUsage::total_bytes, (&statuses@[k].data.disk_usage,), total),
        call_ensures(format_bytes, (total,), size),
        call_ensures(render_list, (repository, statuses), page),
    ensures
        page.lines@.len() >= 5 + statuses@.len(),
        page.lines@[0]@ == "Repository: "@ + repository.display_name@,
        page.lines@[1]@ == "Root: "@ + repository.root@,
        repository.integration_branch matches Some(branch) ==> page.lines@[2]@ == "Integration: "@
            + branch@,
        exists|j: int, changes: Seq<char>|
            5 <= j < page.lines@.len() && #[trigger] page.lines@[j]@ == aligned_left(
                short_path@,
                32,
            ) + " "@ + aligned_left(statuses@[k].worktree.branch->0@, 20) + " "@ + aligned_left(
                word@,
                16,
            ) + " "@ + #[trigger] aligned_left(changes, 16) + " "@ + aligned_left(
                statuses@[k].data.merge.classification@,
                18,
            ) + " "@ + aligned_left(date@, 10) + " "@ + aligned_right(size@, 10) && changes == (
            if statuses@[k].data.changes.staged > 0 || statuses@[k].data.changes.unstaged > 0
                || statuses@[k].data.changes.untracked > 0
                || statuses@[k].data.changes.conflicted > 0 {
                "dirty ("@ + decimal(statuses@[k].data.changes.entries@.len()) + ")"@
            } else {
                "clean"@
            }),
{
    let rows = all_rows(repository@.root, views(statuses@));
    let status = views(statuses@)[k];
    lemma_all_rows(repository@.root, views(statuses@), k);
    let row = status_rows(repository@.root, status)[0];
    let j = choose|j: int| 0 <= j < rows.len() && rows[j] == row;
    let head = list_head(repository@);
    let lines = views(page.lines@);
    assert(lines.len() == page.lines@.len());
    assert(lines[0] == page.lines@[0]@);
    assert(lines[1] == page.lines@[1]@);
    assert(lines[2] == page.lines@[2]@);
    assert(lines[head.len() + j] == rows[j]);
    assert(page.lines@[head.len() + j]@ == lines[head.len() + j]);
    reveal_strlit("dirty (");
    reveal_strlit(")");
    reveal_strlit("clean");
    reveal_with_fuel(decimal, 5);
    assert(status.data.changes.entries.len() == statuses@[k].data.changes.entries@.len());
    let changes = shortened(changes_text(status.data.changes), 16);
    assert(changes == changes_text(status.data.changes));
    let i = head.len() + j;
    assert(page.lines@[i]@ == aligned_left(short_path@, 32) + " "@ + aligned_left(
        statuses@[k].worktree.branch->0@,
        20,
    ) + " "@ + aligned_left(word@, 16) + " "@ + aligned_left(changes, 16) + " "@ + aligned_left(
        statuses@[k].data.merge.classification@,
        18,
    ) + " "@ + aligned_left(date@, 10) + " "@ + aligned_right(size@, 10));
}

} // verus!
