//! Tests of what is read from Git.

use worktree_manager::git::parse_status_porcelain;
use worktree_manager::git::parse_worktree_list_porcelain;
use worktree_manager::git::reads::add_size;
use worktree_manager::git::reads::ancestor_args;
use worktree_manager::git::reads::can_compare_merge;
use worktree_manager::git::reads::filesystem_time;
use worktree_manager::git::reads::integration_candidates;
use worktree_manager::git::reads::is_ancestor;
use worktree_manager::git::reads::parse_count;
use worktree_manager::git::reads::read_change_summary;
use worktree_manager::git::reads::read_last_commit;
use worktree_manager::git::reads::read_merge_status;
use worktree_manager::git::reads::read_optional_answer;
use worktree_manager::git::reads::read_upstream_status;
use worktree_manager::git::reads::remote_candidates;
use worktree_manager::git::reads::require_stdout;
use worktree_manager::git::reads::rev_list_args;
use worktree_manager::git::reads::rev_list_count;
use worktree_manager::git::reads::skips_entry;
use worktree_manager::git::reads::status_args;
use worktree_manager::git::reads::stdout_string;
use worktree_manager::git::reads::system_time_to_unix_seconds;
use worktree_manager::git::reads::toplevel_args;
use worktree_manager::git::reads::unique_range;
use worktree_manager::git::reads::CommandOutput;
use worktree_manager::git::reads::RefSearch;
use worktree_manager::git::repository::read_common_dir;
use worktree_manager::git::repository::read_root;
use worktree_manager::git::repository::repository_display_name;
use worktree_manager::git::repository::ObservedWorktree;
use worktree_manager::git::repository::PathFacts;
use worktree_manager::git::repository::WorktreeReads;
use worktree_manager::git::GitError;
use worktree_manager::git::GitRepository;
use worktree_manager::git::GitWorktreeStatus;
use worktree_manager::model::ChangeKind;
use worktree_manager::model::DiskUsage;

fn answer(code: i32, stdout: &str) -> CommandOutput {
    CommandOutput { code: Some(code), stdout: stdout.as_bytes().to_vec(), stderr: Vec::new() }
}

const LISTING: &str = "worktree /fixture/repository\0HEAD abc\0branch refs/heads/main\0\0worktree /fixture/feature\0HEAD def\0branch refs/heads/feature\0\0";

const HERE: PathFacts =
    PathFacts { is_there: true, is_directory: true, modified_unix_seconds: Some(7) };

/// Discovers the repository of the fixture, which knows the given references.
fn discover(references: &[&str]) -> GitRepository {
    let root =
        read_root("/fixture/repository", answer(0, "/fixture/repository\n")).expect("a root");
    let common = read_common_dir(&root, answer(0, ".git\n")).expect("a common directory");
    let remote_head = read_optional_answer(&answer(1, "")).expect("readable");
    let integration =
        search(RefSearch::heads(integration_candidates(remote_head.as_deref())), references);
    let remote = integration
        .as_deref()
        .and_then(|base| search(RefSearch::remotes(remote_candidates(base)), references));
    GitRepository::discover(root, common, remote_head, integration, remote)
}

fn search(start: RefSearch, references: &[&str]) -> Option<String> {
    let mut search = start;
    loop {
        let there = match search.reference() {
            Some(reference) => references.contains(&reference.as_str()),
            None => return None,
        };
        match search.answer(there) {
            Ok(found) => return found,
            Err(rest) => search = rest,
        }
    }
}

fn reads(status: &str, unique: &str, merged: i32, remote: Option<&str>) -> WorktreeReads {
    let merge = rev_list_count(&answer(0, unique)).map(|unique_commits| {
        read_merge_status(
            "main",
            remote,
            unique_commits,
            is_ancestor(&answer(merged, "")),
            remote.and_then(|_| is_ancestor(&answer(merged, ""))),
        )
    });
    WorktreeReads {
        changes: read_change_summary(answer(0, status)),
        upstream: read_upstream_status("origin/feature".to_owned(), answer(0, "1\t2\n")),
        last_commit: read_last_commit(answer(
            0,
            "def\0Fixture\x002024-01-02T03:04:05+00:00\0feature work\n",
        )),
        remote_for_base: Ok(None),
        merge,
        disk_usage: Ok(DiskUsage { worktree_bytes: 26, git_common_bytes: 100 }),
    }
}

fn inspect(repository: &GitRepository, feature: WorktreeReads) -> Vec<GitWorktreeStatus> {
    let mut listed =
        GitRepository::list_worktrees(answer(0, LISTING)).expect("worktrees should be listed");
    let second = listed.pop().expect("two worktrees");
    let first = listed.pop().expect("two worktrees");
    let remote = repository.remote_integration_branch.as_deref();
    let main_reads = reads("", "0\n", 0, remote);
    repository.inspect_all(
        vec![
            ObservedWorktree { worktree: first, facts: HERE, reads: Some(main_reads) },
            ObservedWorktree { worktree: second, facts: HERE, reads: Some(feature) },
        ],
        None,
    )
}

#[test]
fn discovers_linked_worktrees_and_reports_dirty_files() {
    let repository = discover(&["refs/heads/main", "refs/remotes/origin/main"]);
    assert_eq!(repository.integration_branch.as_deref(), Some("main"));
    assert_eq!(repository.remote_integration_branch.as_deref(), Some("origin/main"));
    let feature = "/fixture/feature";
    let statuses =
        inspect(&repository, reads("?? notes.txt\0", "0\n", 0, Some("origin/main")));
    assert_eq!(statuses.len(), 2);

    let feature_status = statuses
        .iter()
        .find(|status| status.worktree.path == feature)
        .expect("feature worktree should be present");
    assert_eq!(feature_status.data.changes.untracked, 1);
    assert!(feature_status.data.changes.dirty());
    assert_eq!(feature_status.data.merge.unique_commits, Some(0));
    assert_eq!(feature_status.data.merge.merged_locally, Some(true));
    assert_eq!(feature_status.data.merge.merged_remotely, Some(true));
    assert!(feature_status.data.disk_usage.worktree_bytes > 0);
    assert!(feature_status.observation_error.is_none());

    let main_status = statuses
        .iter()
        .find(|status| status.worktree.path == repository.root)
        .expect("main worktree should be present");
    assert_eq!(main_status.state(), "clean");
    assert_eq!(main_status.data.merge.classification, "merged-locally");
}

#[test]
fn reports_branch_commits_that_are_not_integration_commits() {
    let repository = discover(&["refs/heads/main"]);
    let statuses = inspect(&repository, reads("", "1\n", 1, None));
    let feature_status = statuses
        .iter()
        .find(|status| status.worktree.path == "/fixture/feature")
        .expect("feature worktree should be present");
    assert_eq!(feature_status.data.merge.unique_commits, Some(1));
    assert_eq!(feature_status.data.merge.merged_locally, Some(false));
    assert_eq!(feature_status.data.merge.classification, "unmerged-commits");
    assert_eq!(feature_status.state(), "unmerged");
}

#[test]
fn failed_reads_are_reported_together() {
    let repository = discover(&["refs/heads/main"]);
    let mut failed = reads("", "0\n", 0, None);
    failed.changes = read_change_summary(answer(0, "??"));
    failed.disk_usage = Err(GitError::Io {
        operation: "inspect /fixture/feature".to_owned(),
        source: "denied".to_owned(),
    });
    let statuses = inspect(&repository, failed);
    assert_eq!(
        statuses[1].observation_error.as_deref(),
        Some("changes: invalid Git output: invalid status entry \"??\"; disk usage: inspect /fixture/feature: denied")
    );
    assert_eq!(statuses[1].state(), "unknown");
    assert_eq!(statuses[1].data.disk_usage.total_bytes(), 0);
}

#[test]
fn worktrees_that_cannot_be_read_say_why() {
    let repository = discover(&["refs/heads/main"]);
    let listed = GitRepository::list_worktrees(answer(
        0,
        "worktree /a\0bare\0\0worktree /b\0prunable gone\0\0worktree /c\0HEAD abc\0\0",
    ))
    .expect("listed");
    let gone = PathFacts { is_there: false, is_directory: false, modified_unix_seconds: None };
    let bare = repository.inspect_worktree(&listed[0], None, HERE, None);
    assert_eq!(
        bare.observation_error.as_deref(),
        Some("bare repository; working-tree status is not applicable")
    );
    let prunable = repository.inspect_worktree(&listed[1], None, gone, None);
    assert_eq!(
        prunable.observation_error.as_deref(),
        Some("Git reports this worktree as prunable")
    );
    assert_eq!(prunable.state(), "unavailable");
    let missing = repository.inspect_worktree(&listed[2], Some("dev"), gone, None);
    assert_eq!(
        missing.observation_error.as_deref(),
        Some("worktree path is missing or not a directory")
    );
    assert_eq!(missing.data.merge.integration_branch.as_deref(), Some("dev"));
    assert_eq!(missing.data.merge.classification, "unknown");
}

#[test]
fn prints_a_repository_with_its_worktrees() {
    let repository = discover(&["refs/heads/main"]);
    let statuses = inspect(&repository, reads("R  new\0old\0", "1\n", 1, None));
    let text = repository.to_json(&statuses);
    assert!(text.starts_with("{\"schema_version\":1,\"repository\":{\"name\":\"repository\",\"root\":\"/fixture/repository\",\"common_git_dir\":\"/fixture/repository/.git\",\"integration_branch\":\"main\",\"remote_integration_branch\":null},\"worktrees\":[{\"worktree\":{\"path\":\"/fixture/repository\""));
    assert!(text.contains("{\"path\":\"new\",\"source_path\":\"old\",\"index_status\":\"R\",\"worktree_status\":\" \",\"kind\":\"renamed\",\"conflicted\":false}"));
    assert!(text.contains("\"disk_usage\":{\"worktree_bytes\":26,\"git_common_bytes\":100,\"total_bytes\":126}"));
    assert!(text.contains("\"filesystem_modified_unix_seconds\":7"));
}

#[test]
fn answers_that_make_no_sense_are_errors() {
    let no_path = parse_worktree_list_porcelain(b"HEAD abc\0\0").expect_err("no path");
    assert_eq!(no_path.to_text(), "invalid Git output: worktree record has no path");
    let unknown = parse_worktree_list_porcelain(b"worktree /a\0odd x\0\0").expect_err("odd");
    assert_eq!(
        unknown,
        GitError::InvalidOutput("unknown worktree record field \"odd\"".to_owned())
    );
    let bytes = parse_worktree_list_porcelain(b"worktree /\xff\0\0").expect_err("no text");
    assert_eq!(
        bytes,
        GitError::InvalidOutput("Git returned a non-UTF-8 worktree path".to_owned())
    );
    let lossy = parse_worktree_list_porcelain(b"worktree /a\0locked a\xff\0\0").expect("lossy");
    assert_eq!(lossy[0].lock_reason.as_deref(), Some("a\u{fffd}"));
    let cut = parse_status_porcelain(b"R  new\0").expect_err("no source");
    assert_eq!(
        cut,
        GitError::InvalidOutput("rename/copy entry for \"new\" has no source path".to_owned())
    );
    let stdout =
        CommandOutput { code: Some(0), stdout: vec![0xc3, 0x28], stderr: Vec::new() };
    assert_eq!(
        stdout_string(&stdout),
        Err(GitError::InvalidOutput("Git returned non-UTF-8 stdout".to_owned()))
    );
    let failed = CommandOutput {
        code: None,
        stdout: Vec::new(),
        stderr: b" killed \n".to_vec(),
    };
    assert_eq!(
        require_stdout(&toplevel_args(), failed).expect_err("killed").to_text(),
        "git rev-parse --show-toplevel (terminated without an exit code): killed"
    );
    assert_eq!(
        read_root("/x", answer(0, " \n")),
        Err(GitError::NotRepository("/x".to_owned()))
    );
    assert_eq!(
        parse_count(None, "ahead"),
        Err(GitError::InvalidOutput("missing ahead count".to_owned()))
    );
    assert_eq!(
        parse_count(Some("x"), "ahead"),
        Err(GitError::InvalidOutput(
            "invalid ahead count: invalid digit found in string".to_owned()
        ))
    );
    assert!(read_last_commit(answer(0, "abc")).is_err());
    assert_eq!(read_last_commit(answer(128, "")), Ok(None));
    assert_eq!(rev_list_count(&answer(128, "")), Ok(None));
    assert_eq!(is_ancestor(&answer(128, "")), None);
}

#[test]
fn every_status_letter_has_its_meaning() {
    let summary = parse_status_porcelain(
        b"A  a\0 D d\0T  t\0C  c\0b\0AA both\0DD gone\0X  x\0",
    )
    .expect("parses");
    let kinds: Vec<&str> = summary.entries.iter().map(|entry| entry.kind.as_str()).collect();
    assert_eq!(
        kinds,
        vec!["added", "deleted", "type-changed", "copied", "unmerged", "unmerged", "other"]
    );
    assert_eq!(summary.conflicted, 2);
    assert_eq!(summary.state(), "conflicted");
    assert_eq!(summary.dirty_files(), 7);
    assert_eq!(parse_status_porcelain(b"").expect("empty").state(), "clean");
}

#[test]
fn branches_are_sought_in_order() {
    assert_eq!(integration_candidates(None), vec!["main", "master"]);
    assert_eq!(
        integration_candidates(Some("origin/dev")),
        vec!["dev", "main", "master"]
    );
    assert_eq!(remote_candidates("dev"), vec!["origin/dev", "dev"]);
    assert_eq!(remote_candidates("refs/heads/dev"), vec!["origin/dev", "refs/heads/dev"]);
    assert_eq!(remote_candidates("refs/remotes/up/dev"), vec!["up/dev"]);
    assert_eq!(remote_candidates("origin/dev"), vec!["origin/dev", "origin/origin/dev"]);
    assert_eq!(remote_candidates("upstream/dev"), vec!["upstream/dev", "origin/upstream/dev"]);
    assert_eq!(discover(&["refs/heads/master"]).integration_branch.as_deref(), Some("master"));
    assert_eq!(discover(&[]).integration_branch, None);
}

#[test]
fn repositories_are_named_after_their_directory() {
    assert_eq!(repository_display_name("/a/worktree", "/a/project/.git"), "project");
    assert_eq!(repository_display_name("/a/worktree", "/a/project.git"), "project.git");
    assert_eq!(repository_display_name("/a/worktree", "/.git"), "worktree");
    assert_eq!(repository_display_name("/", "/"), "/");
}

#[test]
fn small_reads_have_exact_results() {
    assert_eq!(unique_range("main"), "main..HEAD");
    assert_eq!(rev_list_args("main..HEAD"), vec!["rev-list", "--count", "main..HEAD"]);
    assert_eq!(
        ancestor_args("HEAD", "main"),
        vec!["merge-base", "--is-ancestor", "HEAD", "main"]
    );
    assert_eq!(
        status_args(),
        vec!["status", "--porcelain=v1", "-z", "--untracked-files=all", "--ignored"]
    );
    assert!(can_compare_merge(Some("main"), Some("abc")));
    assert!(!can_compare_merge(Some("main"), None));
    assert!(!can_compare_merge(None, Some("abc")));
    assert!(skips_entry("/a/.git", Some("/a/.git")));
    assert!(!skips_entry("/a/b", Some("/a/.git")));
    assert!(!skips_entry("/a/.git", None));
    assert_eq!(add_size(1, 2), 3);
    assert_eq!(add_size(u64::MAX, 2), u64::MAX);
    assert_eq!(system_time_to_unix_seconds(true, 5), Some(5));
    assert_eq!(system_time_to_unix_seconds(false, 5), Some(-5));
    assert_eq!(system_time_to_unix_seconds(true, u64::MAX), None);
    assert_eq!(
        filesystem_time(None).filesystem_modified_provenance,
        "filesystem metadata; approximate"
    );
    assert_eq!(read_optional_answer(&answer(0, " origin/main\n")), Ok(Some("origin/main".to_owned())));
    assert_eq!(read_optional_answer(&answer(0, "\n")), Ok(None));
}

#[test]
fn parses_worktree_records_with_optional_fields() {
    let input = b"worktree /tmp/project one\0HEAD abc123\0branch refs/heads/main\0\0worktree /tmp/project two\0HEAD def456\0detached\0locked reason\0\0";
    let records = parse_worktree_list_porcelain(input).expect("records should parse");
    assert_eq!(records.len(), 2);
    assert_eq!(records[0].path, "/tmp/project one");
    assert_eq!(records[0].branch.as_deref(), Some("main"));
    assert!(records[1].detached);
    assert!(records[1].locked);
    assert_eq!(records[1].lock_reason.as_deref(), Some("reason"));
}

#[test]
fn counts_status_entries_and_renames() {
    let input = b"M  staged.txt\0 M changed.txt\0?? new.txt\0UU conflict.txt\0R  new-name.txt\0old-name.txt\0!! ignored.log\0";
    let summary = parse_status_porcelain(input).expect("status should parse");
    assert_eq!(summary.staged, 3);
    assert_eq!(summary.unstaged, 2);
    assert_eq!(summary.untracked, 1);
    assert_eq!(summary.conflicted, 1);
    assert_eq!(summary.ignored, 1);
    assert_eq!(summary.entries.len(), 5);
    assert_eq!(summary.entries[4].kind, ChangeKind::Renamed);
    assert_eq!(
        summary.entries[4].source_path.as_deref(),
        Some("old-name.txt")
    );
}
