//! The state of worktrees, as the program shows it.

use crate::cli::figures::format_bytes;
use crate::cli::figures::format_modified;
use crate::cli::figures::modified_text;
use crate::cli::figures::size_text;
use crate::cli::page::Page;
use crate::cli::page::aligned_left;
use crate::cli::page::aligned_right;
use crate::cli::page::pad_left;
use crate::cli::page::pad_right;
use crate::cli::page::shortened;
use crate::cli::page::truncate;
use crate::cli::relative::display_worktree_path;
use crate::cli::relative::shown_path;
use crate::git::repository::GitRepository;
use crate::git::repository::GitRepositoryView;
use crate::git::worktree::GitWorktreeStatus;
use crate::git::worktree::GitWorktreeStatusView;
use crate::model::ChangeEntry;
use crate::model::ChangeEntryView;
use crate::model::ChangeSummaryView;
use crate::numeral::decimal;
use crate::numeral::print_i64;
use crate::numeral::print_u64;
use crate::numeral::signed_decimal;
use crate::text::byte_length;
use crate::text::concat3;
use crate::text::concat;
use crate::text::option_view;
use crate::text::prefix_bytes;
use crate::text::slice_text;
use crate::text::to_chars;
use crate::text::views;
use vstd::prelude::*;

verus! {

/// A text, or a word that stands for its absence.
pub open spec fn or_word(text: Option<Seq<char>>, word: Seq<char>) -> Seq<char> {
    match text {
        Some(given) => given,
        None => word,
    }
}

fn text_or<'a>(text: &'a Option<String>, word: &'a str) -> (result: &'a str)
    ensures
        result@ == or_word(option_view(*text), word@),
{
    match text {
        Some(given) => given.as_str(),
        None => word,
    }
}

/// A line, where there is something to tell.
pub open spec fn optional_line(label: Seq<char>, text: Option<Seq<char>>) -> Seq<Seq<char>> {
    match text {
        Some(given) => seq![label + given],
        None => seq![],
    }
}

// ---------------------------------------------------------------------------
// Lists
// ---------------------------------------------------------------------------

/// A row of the list: seven columns.
pub open spec fn row_text(
    path: Seq<char>,
    branch: Seq<char>,
    state: Seq<char>,
    changes: Seq<char>,
    merge: Seq<char>,
    modified: Seq<char>,
    size: Seq<char>,
) -> Seq<char> {
    aligned_left(path, 32) + " "@ + aligned_left(branch, 20) + " "@ + aligned_left(state, 16)
        + " "@ + aligned_left(changes, 16) + " "@ + aligned_left(merge, 18) + " "@
        + aligned_left(modified, 10) + " "@ + aligned_right(size, 10)
}

fn print_row(
    path: &str,
    branch: &str,
    state: &str,
    changes: &str,
    merge: &str,
    modified: &str,
    size: &str,
) -> (text: String)
    ensures
        text@ == row_text(path@, branch@, state@, changes@, merge@, modified@, size@),
{
    let mut text = pad_right(path, 32);
    let column = pad_right(branch, 20);
    text.append(" ");
    text.append(&column);
    let column = pad_right(state, 16);
    text.append(" ");
    text.append(&column);
    let column = pad_right(changes, 16);
    text.append(" ");
    text.append(&column);
    let column = pad_right(merge, 18);
    text.append(" ");
    text.append(&column);
    let column = pad_right(modified, 10);
    text.append(" ");
    text.append(&column);
    let column = pad_left(size, 10);
    text.append(" ");
    text.append(&column);
    text
}

/// The changes in a worktree, in a few words.
pub open spec fn changes_text(changes: ChangeSummaryView) -> Seq<char> {
    if changes.is_dirty() {
        "dirty ("@ + decimal(changes.entries.len()) + ")"@
    } else {
        changes.word()
    }
}

/// The lines that tell of a worktree in the list.
pub open spec fn status_rows(root: Seq<char>, status: GitWorktreeStatusView) -> Seq<Seq<char>> {
    seq![
        row_text(
            shortened(shown_path(root, status.worktree.path), 32),
            shortened(or_word(status.worktree.branch, "(detached)"@), 20),
            status.word(),
            shortened(changes_text(status.data.changes), 16),
            shortened(
                if status.observation_error is Some {
                    "unknown"@
                } else {
                    status.data.merge.classification
                },
                18,
            ),
            modified_text(status.data.time.filesystem_modified_unix_seconds),
            size_text(status.data.disk_usage.total() as u64),
        ),
    ] + optional_line("  observation error: "@, status.observation_error)
}

/// The lines that tell of worktrees in the list.
pub open spec fn all_rows(root: Seq<char>, statuses: Seq<GitWorktreeStatusView>) -> Seq<Seq<char>>
    decreases statuses.len(),
{
    if statuses.len() == 0 {
        seq![]
    } else {
        all_rows(root, statuses.drop_last()) + status_rows(root, statuses.last())
    }
}

/// The lines above the rows of the list.
pub open spec fn list_head(repository: GitRepositoryView) -> Seq<Seq<char>> {
    seq![
        "Repository: "@ + repository.display_name,
        "Root: "@ + repository.root,
        "Integration: "@ + or_word(repository.integration_branch, "unknown"@),
        ""@,
        row_text(
            "WORKTREE"@,
            "BRANCH"@,
            "STATE"@,
            "CHANGES"@,
            "MERGE"@,
            "MODIFIED"@,
            "SIZE"@,
        ),
    ]
}

fn add_rows(page: &mut Page, root: &str, status: &GitWorktreeStatus)
    ensures
        final(page)@ == old(page)@ + status_rows(root@, status@),
{
    let path = display_worktree_path(root, &status.worktree.path);
    let path = truncate(&path, 32);
    let branch = truncate(text_or(&status.worktree.branch, "(detached)"), 20);
    let changes = if status.data.changes.dirty() {
        let count = print_u64(status.data.changes.entries.len() as u64);
        concat3("dirty (", &count, ")")
    } else {
        status.data.changes.state().to_owned()
    };
    let changes = truncate(&changes, 16);
    let merge = match &status.observation_error {
        Some(_) => truncate("unknown", 18),
        None => truncate(&status.data.merge.classification, 18),
    };
    let modified = format_modified(status.data.time.filesystem_modified_unix_seconds);
    let size = format_bytes(status.data.disk_usage.total_bytes());
    let row = print_row(&path, &branch, status.state(), &changes, &merge, &modified, &size);
    let ghost before = page@;
    page.add_line(row);
    if let Some(error) = &status.observation_error {
        page.add_pair("  observation error: ", error);
    }
    assert(page@ =~= before + status_rows(root@, status@));
}

/// Shows the worktrees of a repository.
pub fn render_list(repository: &GitRepository, statuses: &Vec<GitWorktreeStatus>) -> (page: Page)
    ensures
        page@ == list_head(repository@) + all_rows(repository@.root, views(statuses@)),
{
    let ghost all = views(statuses@);
    let mut page = Page::new();
    page.add_pair("Repository: ", &repository.display_name);
    page.add_pair("Root: ", &repository.root);
    page.add_pair("Integration: ", text_or(&repository.integration_branch, "unknown"));
    page.add_line("".to_owned());
    page.add_line(
        print_row("WORKTREE", "BRANCH", "STATE", "CHANGES", "MERGE", "MODIFIED", "SIZE"),
    );
    assert(page@ =~= list_head(repository@));
    let mut i: usize = 0;
    assert(all.take(0) =~= seq![]);
    assert(page@ =~= list_head(repository@) + all_rows(repository@.root, all.take(0)));
    while i < statuses.len()
        invariant
            i <= statuses.len(),
            all == views(statuses@),
            page@ == list_head(repository@) + all_rows(repository@.root, all.take(i as int)),
        decreases statuses.len() - i,
    {
        assert(all.take(i + 1).drop_last() =~= all.take(i as int));
        assert(all.take(i + 1).last() == statuses@[i as int]@);
        add_rows(&mut page, &repository.root, &statuses[i]);
        assert(page@ =~= list_head(repository@) + all_rows(repository@.root, all.take(i + 1)));
        i += 1;
    }
    assert(all.take(i as int) =~= all);
    page
}

// ---------------------------------------------------------------------------
// One worktree
// ---------------------------------------------------------------------------

/// The beginning of a text that takes up no more than some bytes.
pub open spec fn byte_prefix(text: Seq<char>, limit: nat) -> Seq<char>
    decreases text.len(),
{
    if text.len() == 0 || byte_length(text) <= limit {
        text
    } else {
        byte_prefix(text.drop_last(), limit)
    }
}

fn short_id(id: &str) -> (text: String)
    ensures
        text@ == byte_prefix(id@, 12),
{
    let bytes: usize = id.as_bytes().len();
    let chars = to_chars(id);
    assert(byte_length(chars@) == bytes);
    let mut count: usize = chars.len();
    assert(chars@.take(count as int) =~= chars@);
    while count > 0 && prefix_bytes(&chars, count) > 12
        invariant
            count <= chars@.len(),
            byte_length(chars@) <= usize::MAX,
            chars@ == id@,
            byte_prefix(chars@.take(count as int), 12) == byte_prefix(id@, 12),
        decreases count,
    {
        assert(chars@.take(count as int).drop_last() =~= chars@.take(count - 1));
        count -= 1;
    }
    let text = slice_text(&chars, 0, count);
    assert(text@ =~= chars@.take(count as int));
    text
}

/// A number of some kind of change.
pub open spec fn counted(count: u32, word: Seq<char>) -> Seq<char> {
    decimal(count as nat) + word
}

fn print_counted(count: u32, word: &str) -> (text: String)
    ensures
        text@ == counted(count, word@),
{
    let digits = print_u64(count as u64);
    concat(&digits, word)
}

/// The numbers of changes.
pub open spec fn counts_line(changes: ChangeSummaryView) -> Seq<char> {
    "Changes: "@ + counted(changes.staged, " staged, "@) + counted(
        changes.unstaged,
        " unstaged, "@,
    ) + counted(changes.untracked, " untracked, "@) + counted(
        changes.conflicted,
        " conflicted, "@,
    ) + counted(changes.ignored, " ignored"@)
}

fn print_counts(changes: &crate::model::ChangeSummary) -> (text: String)
    ensures
        text@ == counts_line(changes@),
{
    let mut text = "Changes: ".to_owned();
    let part = print_counted(changes.staged, " staged, ");
    text.append(&part);
    let part = print_counted(changes.unstaged, " unstaged, ");
    text.append(&part);
    let part = print_counted(changes.untracked, " untracked, ");
    text.append(&part);
    let part = print_counted(changes.conflicted, " conflicted, ");
    text.append(&part);
    let part = print_counted(changes.ignored, " ignored");
    text.append(&part);
    text
}

/// How far a branch and its upstream are apart, where that is known.
pub open spec fn upstream_line(status: GitWorktreeStatusView) -> Seq<Seq<char>> {
    match (status.data.upstream.ahead, status.data.upstream.behind) {
        (Some(ahead), Some(behind)) => seq![
            "Ahead/behind: "@ + decimal(ahead as nat) + "/"@ + decimal(behind as nat),
        ],
        _ => seq![],
    }
}

/// How many commits only the branch has, where that is known.
pub open spec fn unique_line(status: GitWorktreeStatusView) -> Seq<Seq<char>> {
    match status.data.merge.unique_commits {
        Some(unique) => seq!["Unique commits: "@ + decimal(unique as nat)],
        None => seq![],
    }
}

/// The last commit, where it is known.
pub open spec fn commit_lines(status: GitWorktreeStatusView) -> Seq<Seq<char>> {
    match status.data.last_commit {
        Some(commit) => seq![
            "Last commit: "@ + byte_prefix(commit.id, 12) + " "@ + or_word(commit.subject, ""@),
        ] + optional_line("Committed at: "@, commit.committed_at),
        None => seq![],
    }
}

/// When the directory was modified, where that is known.
pub open spec fn modified_line(status: GitWorktreeStatusView) -> Seq<Seq<char>> {
    match status.data.time.filesystem_modified_unix_seconds {
        Some(seconds) => seq![
            "Filesystem modified (approx.): "@ + signed_decimal(seconds as int),
        ],
        None => seq![],
    }
}

/// Where an entry came from.
pub open spec fn source_text(entry: ChangeEntryView) -> Seq<char> {
    match entry.source_path {
        Some(source) => " <- "@ + source,
        None => ""@,
    }
}

/// The two lines of a changed file.
pub open spec fn entry_lines(entry: ChangeEntryView) -> Seq<Seq<char>> {
    seq![
        "  "@ + entry.kind.word() + (if entry.source_path is Some {
            " "@
        } else {
            ""@
        }) + " ["@ + seq![entry.index_status, entry.worktree_status] + "]"@,
        "    "@ + entry.path + source_text(entry),
    ]
}

/// The lines of some changed files.
pub open spec fn entries_lines(entries: Seq<ChangeEntryView>) -> Seq<Seq<char>>
    decreases entries.len(),
{
    if entries.len() == 0 {
        seq![]
    } else {
        entries_lines(entries.drop_last()) + entry_lines(entries.last())
    }
}

/// The changed files, under a heading.
pub open spec fn files_lines(entries: Seq<ChangeEntryView>) -> Seq<Seq<char>> {
    if entries.len() == 0 {
        seq![]
    } else {
        seq![""@, "Changed files:"@] + entries_lines(entries)
    }
}

/// What could not be observed.
pub open spec fn error_lines(status: GitWorktreeStatusView) -> Seq<Seq<char>> {
    match status.observation_error {
        Some(error) => seq![""@, "Observation error: "@ + error],
        None => seq![],
    }
}

/// What a worktree is.
pub open spec fn identity_lines(
    repository: GitRepositoryView,
    status: GitWorktreeStatusView,
) -> Seq<Seq<char>> {
    seq![
        "Worktree: "@ + status.worktree.path,
        "Repository: "@ + repository.display_name,
        "Branch: "@ + or_word(status.worktree.branch, "(detached)"@),
        "HEAD: "@ + or_word(status.worktree.head, "unknown"@),
        "Git state: "@ + status.worktree.word(),
        "Observed state: "@ + status.word(),
        counts_line(status.data.changes),
        "Upstream: "@ + or_word(status.data.upstream.name, "none"@),
    ]
}

/// How much room a worktree takes up.
pub open spec fn disk_line(status: GitWorktreeStatusView) -> Seq<char> {
    "Disk: "@ + size_text(status.data.disk_usage.worktree_bytes) + " worktree-local + "@
        + size_text(status.data.disk_usage.git_common_bytes) + " common Git"@
}

/// The lines that tell of a worktree.
pub open spec fn status_lines(
    repository: GitRepositoryView,
    status: GitWorktreeStatusView,
) -> Seq<Seq<char>> {
    identity_lines(repository, status) + upstream_line(status) + seq![
        "Merge: "@ + status.data.merge.classification,
    ] + unique_line(status) + commit_lines(status) + seq![disk_line(status)] + modified_line(
        status,
    ) + files_lines(status.data.changes.entries) + error_lines(status)
}

fn add_identity(page: &mut Page, repository: &GitRepository, status: &GitWorktreeStatus)
    ensures
        final(page)@ == old(page)@ + identity_lines(repository@, status@),
{
    let worktree = &status.worktree;
    page.add_pair("Worktree: ", &worktree.path);
    page.add_pair("Repository: ", &repository.display_name);
    page.add_pair("Branch: ", text_or(&worktree.branch, "(detached)"));
    page.add_pair("HEAD: ", text_or(&worktree.head, "unknown"));
    page.add_pair("Git state: ", worktree.state());
    page.add_pair("Observed state: ", status.state());
    page.add_line(print_counts(&status.data.changes));
    page.add_pair("Upstream: ", text_or(&status.data.upstream.name, "none"));
    assert(page@ =~= old(page)@ + identity_lines(repository@, status@));
}

fn add_history(page: &mut Page, status: &GitWorktreeStatus)
    ensures
        final(page)@ == old(page)@ + (upstream_line(status@) + seq![
            "Merge: "@ + status@.data.merge.classification,
        ] + unique_line(status@) + commit_lines(status@)),
{
    if let (Some(ahead), Some(behind)) = (status.data.upstream.ahead, status.data.upstream.behind) {
        let left = print_u64(ahead as u64);
        let right = print_u64(behind as u64);
        let counts = concat3(&left, "/", &right);
        page.add_pair("Ahead/behind: ", &counts);
        assert(page@.last() =~= "Ahead/behind: "@ + decimal(ahead as nat) + "/"@ + decimal(
            behind as nat,
        ));
    }
    assert(page@ =~= old(page)@ + upstream_line(status@));
    page.add_pair("Merge: ", &status.data.merge.classification);
    if let Some(unique) = status.data.merge.unique_commits {
        let count = print_u64(unique as u64);
        page.add_pair("Unique commits: ", &count);
    }
    assert(page@ =~= old(page)@ + (upstream_line(status@) + seq![
        "Merge: "@ + status@.data.merge.classification,
    ] + unique_line(status@)));
    if let Some(commit) = &status.data.last_commit {
        let id = short_id(&commit.id);
        let mut line = concat3("Last commit: ", &id, " ");
        line.append(text_or(&commit.subject, ""));
        page.add_line(line);
        if let Some(committed_at) = &commit.committed_at {
            page.add_pair("Committed at: ", committed_at);
        }
    }
    assert(page@ =~= old(page)@ + (upstream_line(status@) + seq![
        "Merge: "@ + status@.data.merge.classification,
    ] + unique_line(status@) + commit_lines(status@)));
}

fn add_entry(page: &mut Page, entry: &ChangeEntry)
    ensures
        final(page)@ == old(page)@ + entry_lines(entry@),
{
    let mut line = concat("  ", entry.kind.as_str());
    if entry.source_path.is_some() {
        line.append(" ");
    } else {
        line.append("");
    }
    line.append(" [");
    line.push(entry.index_status);
    line.push(entry.worktree_status);
    line.append("]");
    assert(line@ =~= entry_lines(entry@)[0]);
    page.add_line(line);
    let mut second = concat("    ", &entry.path);
    match &entry.source_path {
        Some(source) => {
            let part = concat(" <- ", source);
            second.append(&part);
        },
        None => {
            second.append("");
        },
    }
    page.add_line(second);
    assert(page@ =~= old(page)@ + entry_lines(entry@));
}

fn add_files(page: &mut Page, entries: &Vec<ChangeEntry>)
    ensures
        final(page)@ == old(page)@ + files_lines(views(entries@)),
{
    if entries.len() == 0 {
        assert(page@ =~= old(page)@ + files_lines(views(entries@)));
        return;
    }
    let ghost all = views(entries@);
    page.add_line("".to_owned());
    page.add_line("Changed files:".to_owned());
    let ghost head = page@;
    let mut i: usize = 0;
    assert(all.take(0) =~= seq![]);
    assert(page@ =~= head + entries_lines(all.take(0)));
    while i < entries.len()
        invariant
            i <= entries.len(),
            all == views(entries@),
            page@ == head + entries_lines(all.take(i as int)),
        decreases entries.len() - i,
    {
        assert(all.take(i + 1).drop_last() =~= all.take(i as int));
        assert(all.take(i + 1).last() == entries@[i as int]@);
        add_entry(page, &entries[i]);
        assert(page@ =~= head + entries_lines(all.take(i + 1)));
        i += 1;
    }
    assert(all.take(i as int) =~= all);
    assert(page@ =~= old(page)@ + files_lines(views(entries@)));
}

/// Shows one worktree.
pub fn render_status(repository: &GitRepository, status: &GitWorktreeStatus) -> (page: Page)
    ensures
        page@ == status_lines(repository@, status@),
{
    let mut page = Page::new();
    add_identity(&mut page, repository, status);
    add_history(&mut page, status);
    let local = format_bytes(status.data.disk_usage.worktree_bytes);
    let common = format_bytes(status.data.disk_usage.git_common_bytes);
    let mut disk = concat3("Disk: ", &local, " worktree-local + ");
    disk.append(&common);
    disk.append(" common Git");
    page.add_line(disk);
    if let Some(seconds) = status.data.time.filesystem_modified_unix_seconds {
        let digits = print_i64(seconds);
        page.add_pair("Filesystem modified (approx.): ", &digits);
    }
    add_files(&mut page, &status.data.changes.entries);
    if let Some(error) = &status.observation_error {
        page.add_line("".to_owned());
        page.add_pair("Observation error: ", error);
    }
    assert(page@ =~= status_lines(repository@, status@));
    page
}

} // verus!
