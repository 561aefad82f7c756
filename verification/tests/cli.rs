//! Tests of the program's arguments and of what it shows.

use worktree_manager::cli::dispatch::dispatch;
use worktree_manager::cli::dispatch::Invocation;
use worktree_manager::cli::figures::format_modified;
use worktree_manager::cli::format_bytes;
use worktree_manager::cli::options::DaemonCleanOptions;
use worktree_manager::cli::options::DaemonOptions;
use worktree_manager::cli::options::ListOptions;
use worktree_manager::cli::options::RepositoryMutationOptions;
use worktree_manager::cli::options::StatusOptions;
use worktree_manager::cli::page::pad_left;
use worktree_manager::cli::page::pad_right;
use worktree_manager::cli::page::truncate;
use worktree_manager::cli::relative::display_worktree_path;
use worktree_manager::cli::requests::asks_again;
use worktree_manager::cli::requests::cleanup_age;
use worktree_manager::cli::requests::cleanup_params;
use worktree_manager::cli::requests::create_params;
use worktree_manager::cli::requests::daemon_args;
use worktree_manager::cli::requests::daemon_is_ready;
use worktree_manager::cli::requests::default_inventory_path;
use worktree_manager::cli::requests::default_socket_path;
use worktree_manager::cli::requests::lock_params;
use worktree_manager::cli::requests::next_request_id;
use worktree_manager::cli::requests::not_linked;
use worktree_manager::cli::requests::read_ping;
use worktree_manager::cli::requests::remove_params;
use worktree_manager::cli::requests::repository_to_ask;
use worktree_manager::cli::requests::socket_path_too_long;
use worktree_manager::cli::requests::RepositoryChoice;
use worktree_manager::cli::results::render_cleanup_result;
use worktree_manager::cli::results::render_create_result;
use worktree_manager::cli::results::render_lock_result;
use worktree_manager::cli::results::render_remove_result;
use worktree_manager::cli::startup::look_limit;
use worktree_manager::cli::startup::Startup;
use worktree_manager::cli::startup::StartupStep;
use worktree_manager::cli::status::render_list;
use worktree_manager::cli::status::render_status;
use worktree_manager::cli::usage::help;
use worktree_manager::cli::usage::usage;
use worktree_manager::cli::CliError;
use worktree_manager::daemon::command::decode;
use worktree_manager::daemon::command::Command;
use worktree_manager::daemon::DaemonError;
use worktree_manager::git::GitRepository;
use worktree_manager::git::GitWorktree;
use worktree_manager::git::GitWorktreeStatus;
use worktree_manager::json;
use worktree_manager::model::ChangeEntry;
use worktree_manager::model::ChangeKind;
use worktree_manager::model::ChangeSummary;
use worktree_manager::model::CommitSummary;
use worktree_manager::model::DiskUsage;
use worktree_manager::model::MergeStatus;
use worktree_manager::model::TimeObservation;
use worktree_manager::model::UpstreamStatus;
use worktree_manager::model::WorktreeStatusData;
use worktree_manager::service::CreateRequest;

fn args(words: &[&str]) -> Vec<String> {
    words.iter().map(|word| word.to_string()).collect()
}

fn complaint(words: &[&str]) -> String {
    match dispatch(&args(words)) {
        Err(CliError::Usage(message)) => {
            let end = format!("\n\n{}", usage());
            message.strip_suffix(&end).expect("the usage follows").to_owned()
        }
        other => panic!("unexpected outcome: {other:?}"),
    }
}

fn repository() -> GitRepository {
    GitRepository {
        root: "/fixture/repository".to_owned(),
        common_git_dir: "/fixture/repository/.git".to_owned(),
        display_name: "repository".to_owned(),
        integration_branch: Some("main".to_owned()),
        remote_integration_branch: None,
    }
}

fn status() -> GitWorktreeStatus {
    GitWorktreeStatus {
        worktree: GitWorktree {
            path: "/fixture/repository/linked".to_owned(),
            head: Some("0123456789abcdef".to_owned()),
            branch: Some("feature".to_owned()),
            detached: false,
            bare: false,
            locked: false,
            lock_reason: None,
            prunable: false,
            prune_reason: None,
        },
        path_exists: true,
        data: WorktreeStatusData {
            changes: ChangeSummary {
                staged: 1,
                unstaged: 0,
                untracked: 0,
                conflicted: 0,
                ignored: 2,
                entries: vec![ChangeEntry {
                    path: "new.txt".to_owned(),
                    source_path: Some("old.txt".to_owned()),
                    index_status: 'R',
                    worktree_status: ' ',
                    kind: ChangeKind::Renamed,
                    conflicted: false,
                }],
            },
            upstream: UpstreamStatus {
                name: Some("origin/feature".to_owned()),
                ahead: Some(1),
                behind: Some(2),
            },
            merge: MergeStatus {
                integration_branch: Some("main".to_owned()),
                remote_integration_branch: None,
                unique_commits: Some(3),
                merged_locally: Some(false),
                merged_remotely: None,
                classification: "unmerged-commits".to_owned(),
            },
            last_commit: Some(CommitSummary {
                id: "0123456789abcdef".to_owned(),
                author: Some("Fixture".to_owned()),
                committed_at: Some("2024-01-02T03:04:05+00:00".to_owned()),
                subject: Some("feature work".to_owned()),
            }),
            disk_usage: DiskUsage { worktree_bytes: 2048, git_common_bytes: 512 },
            time: TimeObservation {
                filesystem_modified_unix_seconds: Some(86400),
                filesystem_modified_provenance: "filesystem-mtime",
            },
        },
        observation_error: None,
    }
}

#[test]
fn formats_bytes_for_human_output() {
    assert_eq!(format_bytes(512), "512 B");
    assert_eq!(format_bytes(2048), "2.0 KB");
}

#[test]
fn formats_sizes_as_floating_point_would() {
    for bytes in [
        0u64,
        1023,
        1024,
        1075,
        1076,
        1077,
        1126,
        1536,
        1048575,
        1048576,
        1073741823,
        1099511627776,
        1125899906842624,
        9007199254740993,
        u64::MAX - 1024,
        u64::MAX,
    ] {
        let units = ["B", "KB", "MB", "GB", "TB"];
        let mut value = bytes as f64;
        let mut unit = 0;
        while value >= 1024.0 && unit < units.len() - 1 {
            value /= 1024.0;
            unit += 1;
        }
        let expected = if unit == 0 {
            format!("{} {}", bytes, units[unit])
        } else {
            format!("{value:.1} {}", units[unit])
        };
        assert_eq!(format_bytes(bytes), expected);
    }
    let mut bytes: u64 = 987654321;
    for _ in 0..2000 {
        bytes = bytes.wrapping_mul(6364136223846793005).wrapping_add(1442695040888963407);
        let wanted = bytes >> (bytes % 50);
        let units = ["B", "KB", "MB", "GB", "TB"];
        let mut value = wanted as f64;
        let mut unit = 0;
        while value >= 1024.0 && unit < units.len() - 1 {
            value /= 1024.0;
            unit += 1;
        }
        if unit > 0 {
            assert_eq!(format_bytes(wanted), format!("{value:.1} {}", units[unit]));
        }
    }
}

#[test]
fn shows_days_of_modification() {
    assert_eq!(format_modified(None), "unknown");
    assert_eq!(format_modified(Some(0)), "1970-01-01");
    assert_eq!(format_modified(Some(86399)), "1970-01-01");
    assert_eq!(format_modified(Some(951782400)), "2000-02-29");
    assert_eq!(format_modified(Some(1709164800)), "2024-02-29");
    assert_eq!(format_modified(Some(-1)), "1969-12-31");
    assert_eq!(format_modified(Some(-86400)), "1969-12-31");
    assert_eq!(format_modified(Some(-86401)), "1969-12-30");
    assert_eq!(format_modified(Some(-62167219200)), "0000-01-01");
    assert_eq!(format_modified(Some(-62167219201)), "unknown");
    assert_eq!(format_modified(Some(i64::MIN)), "unknown");
}

#[test]
fn pads_and_shortens_columns() {
    assert_eq!(pad_right("ab", 4), "ab  ");
    assert_eq!(pad_right("abcde", 4), "abcde");
    assert_eq!(pad_left("ab", 4), "  ab");
    assert_eq!(truncate("abcd", 4), "abcd");
    assert_eq!(truncate("abcde", 4), "abc…");
    assert_eq!(truncate("äöüßé", 3), "äö…");
    assert_eq!(truncate("abc", 0), "…");
    assert_eq!(truncate("", 0), "");
}

#[test]
fn shows_paths_below_the_root_in_short() {
    assert_eq!(display_worktree_path("/r", "/r/a/b"), "a/b");
    assert_eq!(display_worktree_path("/r", "/r"), "/r");
    assert_eq!(display_worktree_path("/r", "/rest"), "/rest");
    assert_eq!(display_worktree_path("/r/", "/r//a"), "a");
}

#[test]
fn understands_every_command() {
    assert_eq!(dispatch(&args(&[])), Ok(Invocation::Help));
    for word in ["help", "--help", "-h"] {
        assert_eq!(dispatch(&args(&[word])), Ok(Invocation::Help));
    }
    for word in ["version", "--version", "-V"] {
        assert_eq!(dispatch(&args(&[word])), Ok(Invocation::Version));
    }
    assert_eq!(
        dispatch(&args(&["list", "--repo", "/r", "--base", "dev", "--json"])),
        Ok(Invocation::List(ListOptions {
            repo_path: "/r".to_owned(),
            base: Some("dev".to_owned()),
            json: true,
        }))
    );
    assert_eq!(
        dispatch(&args(&["list"])),
        Ok(Invocation::List(ListOptions { repo_path: ".".to_owned(), base: None, json: false }))
    );
    match dispatch(&args(&["status", "/w", "--base", "dev"])) {
        Ok(Invocation::Status { path, options }) => {
            assert_eq!(path, "/w");
            assert_eq!(
                options,
                StatusOptions {
                    path: Some("/w".to_owned()),
                    base: Some("dev".to_owned()),
                    json: false,
                }
            );
        }
        other => panic!("unexpected outcome: {other:?}"),
    }
    match dispatch(&args(&[
        "create", "feature", "--path", "../f", "--base", "dev", "--idempotency-key", "k",
    ])) {
        Ok(Invocation::Create { request, options }) => {
            assert_eq!(request.branch, "feature");
            assert_eq!(request.path.as_deref(), Some("../f"));
            assert_eq!(request.base.as_deref(), Some("dev"));
            assert_eq!(request.idempotency_key.as_deref(), Some("k"));
            assert_eq!(request.actor, "cli");
            assert!(!options.json);
        }
        other => panic!("unexpected outcome: {other:?}"),
    }
    match dispatch(&args(&["lock", "/w", "--reason", "busy"])) {
        Ok(Invocation::Lock { path, options }) => {
            assert_eq!(path, "/w");
            assert_eq!(options.reason.as_deref(), Some("busy"));
        }
        other => panic!("unexpected outcome: {other:?}"),
    }
    assert!(matches!(dispatch(&args(&["unlock", "/w"])), Ok(Invocation::Unlock { .. })));
    match dispatch(&args(&["remove", "/w", "--delete-branch", "--minimum-age-seconds", "7"])) {
        Ok(Invocation::Remove { path, options }) => {
            assert_eq!(path, "/w");
            assert!(options.delete_branch);
            assert_eq!(options.minimum_age_seconds, Some(7));
        }
        other => panic!("unexpected outcome: {other:?}"),
    }
    assert_eq!(
        dispatch(&args(&["cleanup", "scan", "--base", "dev", "--db", "/d", "--socket", "/s"])),
        Ok(Invocation::CleanupScan(RepositoryMutationOptions {
            repo_path: ".".to_owned(),
            base: Some("dev".to_owned()),
            db_path: Some("/d".to_owned()),
            socket_path: Some("/s".to_owned()),
            minimum_age_seconds: None,
            json: false,
        }))
    );
    assert_eq!(
        dispatch(&args(&["daemon", "--minimum-age-seconds", "0"])),
        Ok(Invocation::Daemon(DaemonOptions {
            repo_path: ".".to_owned(),
            db_path: None,
            socket_path: None,
            minimum_age_seconds: Some(0),
        }))
    );
    assert_eq!(
        dispatch(&args(&["daemon", "clean", "--socket", "/s"])),
        Ok(Invocation::DaemonClean(DaemonCleanOptions {
            repo_path: ".".to_owned(),
            socket_path: Some("/s".to_owned()),
        }))
    );
}

#[test]
fn complains_about_calls_that_make_no_sense() {
    assert_eq!(complaint(&["dig"]), "unknown command \"dig\"");
    assert_eq!(complaint(&["list", "--dry"]), "unknown option \"--dry\" for list");
    assert_eq!(complaint(&["list", "/a", "/b"]), "list accepts only one repository path");
    assert_eq!(complaint(&["list", "--base"]), "--base requires a value");
    assert_eq!(complaint(&["list", "--base", "-x"]), "--base requires a value");
    assert_eq!(complaint(&["status"]), "status requires a worktree path");
    assert_eq!(complaint(&["status", "/a", "/b"]), "status accepts one worktree path");
    assert_eq!(complaint(&["create"]), "create requires a branch name");
    assert_eq!(complaint(&["create", "a", "b"]), "create accepts one branch name");
    assert_eq!(complaint(&["lock"]), "lock requires a worktree path");
    assert_eq!(complaint(&["unlock", "/w", "--reason", "x"]), "unknown option \"--reason\" for unlock");
    assert_eq!(complaint(&["remove"]), "remove requires a worktree path");
    assert_eq!(complaint(&["lock", "/w", "--delete-branch"]), "unknown option \"--delete-branch\" for lock");
    assert_eq!(complaint(&["cleanup"]), "cleanup requires a subcommand");
    assert_eq!(complaint(&["cleanup", "all"]), "unknown cleanup subcommand \"all\"");
    assert_eq!(
        complaint(&["cleanup", "scan", "/w"]),
        "cleanup scan does not accept positional argument \"/w\""
    );
    assert_eq!(
        complaint(&["daemon", "--minimum-age-seconds", "soon"]),
        "--minimum-age-seconds requires an integer value, got \"soon\": invalid digit found in string"
    );
    assert_eq!(complaint(&["daemon", "start"]), "unknown option \"start\" for daemon");
}

#[test]
fn help_ends_with_the_usage() {
    assert!(help().starts_with("Worktree Manager\n\n"));
    assert!(help().ends_with(usage()));
}

#[test]
fn requests_are_read_as_they_were_meant() {
    let mut request = CreateRequest::new("feature");
    request.idempotency_key = Some("k".to_owned());
    let params = create_params(&request);
    let value = json::parse(&params).expect("parses");
    assert_eq!(decode("r", "create", &value, 5), Ok(Command::Create(request)));
    let value = json::parse(&lock_params("/w", Some("busy"))).expect("parses");
    assert_eq!(
        decode("r", "lock", &value, 5),
        Ok(Command::Lock {
            path: "/w".to_owned(),
            reason: Some("busy".to_owned()),
            actor: "cli".to_owned(),
        })
    );
    let value = json::parse(&remove_params("/w", true, 9)).expect("parses");
    assert_eq!(
        decode("r", "remove", &value, 5),
        Ok(Command::Remove {
            path: "/w".to_owned(),
            delete_branch: true,
            actor: "cli".to_owned(),
            minimum_age: 9,
        })
    );
    let value = json::parse(&cleanup_params(9, Some("dev"))).expect("parses");
    assert_eq!(
        decode("r", "cleanup_scan", &value, 5),
        Ok(Command::CleanupScan { base: Some("dev".to_owned()), minimum_age: 9 })
    );
    assert_eq!(next_request_id("create", 12, 345), "cli-create-12-345");
    assert_eq!(cleanup_age(None), 86400);
    assert_eq!(cleanup_age(Some(3)), 3);
    assert_eq!(
        not_linked("/w"),
        CliError::Usage("path is not a linked worktree in this repository: /w".to_owned())
    );
}

#[test]
fn finds_the_database_and_the_socket() {
    assert_eq!(
        default_inventory_path(&repository()),
        "/fixture/repository/.git/worktree-manager.sqlite3"
    );
    assert_eq!(
        default_socket_path(&repository(), "/tmp/x"),
        "/fixture/repository/.git/worktree-manager.sock"
    );
    let mut deep = repository();
    deep.common_git_dir = format!("/{}", "d".repeat(90));
    let short = default_socket_path(&deep, "/var/tmp");
    assert!(short.starts_with("/var/tmp/wtm-"));
    assert!(short.ends_with(".sock"));
    assert_eq!(short.len(), "/var/tmp/wtm-.sock".len() + 16);
    let fallback = default_socket_path(&deep, &format!("/{}", "t".repeat(90)));
    assert!(fallback.starts_with("/tmp/wtm-"));
    assert!(socket_path_too_long(&"s".repeat(100)));
    assert!(!socket_path_too_long(&"s".repeat(99)));
    assert_eq!(
        daemon_args("/r", "/d", "/s", -3),
        vec!["daemon", "--repo", "/r", "--db", "/d", "--socket", "/s", "--minimum-age-seconds", "-3"]
    );
}

#[test]
fn knows_its_own_daemon() {
    let response = "{\"schema_version\":1,\"request_id\":\"p\",\"ok\":true,\"result\":{\"repository_root\":\"/r\",\"inventory_path\":\"/d\",\"inventory_identity\":\"unix:1:2\"}}";
    let facts = read_ping(response).expect("all facts are there");
    assert_eq!(facts.inventory_path, "/d");
    assert!(daemon_is_ready(&facts, "/r", "/d", "/d", "unix:1:2"));
    assert!(!daemon_is_ready(&facts, "/q", "/d", "/d", "unix:1:2"));
    assert!(!daemon_is_ready(&facts, "/r", "/d", "/e", "unix:1:2"));
    assert!(!daemon_is_ready(&facts, "/r", "/d", "/d", "unix:1:3"));
    assert_eq!(read_ping("{\"result\":{}}"), None);
    assert_eq!(read_ping("nonsense"), None);
}

#[test]
fn waits_for_a_daemon_with_patience_and_an_end() {
    let mut startup = Startup::new("/s");
    for waited in [0, 50, 100, 60000, 119999] {
        assert_eq!(startup.look_after(false, None, &None, waited), StartupStep::Wait);
    }
    assert_eq!(
        startup.look_after(false, None, &Some(" refused \n".to_owned()), 120000),
        StartupStep::TimedOut("timed out waiting for local wtm daemon at /s: refused".to_owned())
    );
    assert_eq!(
        startup.look_after(false, None, &None, u64::MAX),
        StartupStep::TimedOut("timed out waiting for local wtm daemon at /s".to_owned())
    );
    assert_eq!(startup.look_after(true, None, &None, 120000), StartupStep::Ready);
    let mut startup = Startup::new("/s");
    let ended = || Some("exit status: 1".to_owned());
    assert_eq!(startup.look_after(false, ended(), &None, 120000), StartupStep::Wait);
    for _ in 0..9 {
        assert_eq!(startup.look_after(false, ended(), &None, 120000), StartupStep::Wait);
    }
    assert_eq!(
        startup.look_after(false, ended(), &None, 120000),
        StartupStep::Ended(
            "local wtm daemon exited before opening /s (exit status: 1)".to_owned()
        )
    );
}

#[test]
fn looks_end_with_the_wait() {
    assert_eq!(look_limit(0), 5000);
    assert_eq!(look_limit(115000), 5000);
    assert_eq!(look_limit(115001), 4999);
    assert_eq!(look_limit(119999), 1);
    assert_eq!(look_limit(120000), 1);
    assert_eq!(look_limit(u64::MAX), 1);
}

#[test]
fn lists_worktrees_in_columns() {
    let mut second = status();
    second.worktree.branch = None;
    second.observation_error = Some("no answer".to_owned());
    let page = render_list(&repository(), &vec![status(), second]);
    assert_eq!(page.lines[0], "Repository: repository");
    assert_eq!(page.lines[1], "Root: /fixture/repository");
    assert_eq!(page.lines[2], "Integration: main");
    assert_eq!(page.lines[3], "");
    assert_eq!(
        page.lines[4].split_whitespace().collect::<Vec<_>>(),
        vec!["WORKTREE", "BRANCH", "STATE", "CHANGES", "MERGE", "MODIFIED", "SIZE"]
    );
    assert!(page.lines[5].starts_with(&format!("{:<32} {:<20} ", "linked", "feature")));
    assert!(page.lines[5].contains("dirty (1)"));
    assert!(page.lines[5].contains("unmerged-commits"));
    assert!(page.lines[5].contains(&format!("{:>10}", "2.5 KB")));
    assert!(page.lines[5].contains("1970-01-02"));
    assert!(page.lines[6].contains("(detached)"));
    assert!(page.lines[6].contains("unknown"));
    assert_eq!(page.lines[7], "  observation error: no answer");
    assert_eq!(page.lines.len(), 8);
}

#[test]
fn shows_one_worktree_in_full() {
    let mut shown = status();
    shown.observation_error = Some("no answer".to_owned());
    let page = render_status(&repository(), &shown);
    assert_eq!(
        page.lines,
        vec![
            "Worktree: /fixture/repository/linked",
            "Repository: repository",
            "Branch: feature",
            "HEAD: 0123456789abcdef",
            "Git state: available",
            &format!("Observed state: {}", shown.state()),
            "Changes: 1 staged, 0 unstaged, 0 untracked, 0 conflicted, 2 ignored",
            "Upstream: origin/feature",
            "Ahead/behind: 1/2",
            "Merge: unmerged-commits",
            "Unique commits: 3",
            "Last commit: 0123456789ab feature work",
            "Committed at: 2024-01-02T03:04:05+00:00",
            "Disk: 2.0 KB worktree-local + 512 B common Git",
            "Filesystem modified (approx.): 86400",
            "",
            "Changed files:",
            "  renamed  [R ]",
            "    new.txt <- old.txt",
            "",
            "Observation error: no answer",
        ]
    );
}

#[test]
fn shows_results_in_words_or_as_they_came() {
    let created = "{\"path\":\"/w\",\"branch\":\"feature\",\"already_existed\":false}";
    let (page, outcome) = render_create_result(created, false);
    assert_eq!(page.lines, vec!["Created worktree feature at /w"]);
    assert_eq!(outcome, Ok(()));
    let (page, _) = render_create_result("{\"path\":\"/w\",\"already_existed\":true}", false);
    assert_eq!(page.lines, vec!["Reused worktree (detached) at /w"]);
    let (page, outcome) = render_create_result(created, true);
    assert_eq!(page.lines, vec![created]);
    assert_eq!(outcome, Ok(()));
    let (page, outcome) = render_create_result("{}", false);
    assert!(page.lines.is_empty());
    assert!(matches!(outcome, Err(CliError::Io(_))));

    let (page, _) = render_lock_result("{\"path\":\"/w\"}", true, false);
    assert_eq!(page.lines, vec!["Locked /w"]);
    let (page, _) = render_lock_result("{\"path\":\"/w\"}", false, false);
    assert_eq!(page.lines, vec!["Unlocked /w"]);
    let already =
        "{\"path\":\"/w\",\"already_in_requested_state\":true,\"lock_reason\":\"busy\"}";
    let (page, _) = render_lock_result(already, true, false);
    assert_eq!(page.lines, vec!["/w already locked: busy"]);

    let removed = "{\"path\":\"/w\",\"branch\":\"feature\",\"branch_deleted\":true}";
    let (page, _) = render_remove_result(removed, false);
    assert_eq!(page.lines, vec!["Removed worktree /w", "Deleted branch feature"]);
    let (page, outcome) = render_remove_result("{\"path\":\"/w\",\"branch_deleted\":1}", false);
    assert_eq!(page.lines, vec!["Removed worktree /w"]);
    assert!(outcome.is_err());

    let scan = "{\"candidates\":[{\"path\":\"/w\",\"branch\":\"feature\",\"classification\":\"unsafe\",\"blockers\":[\"one\",\"two\"]},{\"path\":\"/v\",\"classification\":\"eligible\",\"blockers\":[]},{\"path\":\"/u\",\"classification\":\"eligible\",\"blockers\":[3]}]}";
    let (page, outcome) = render_cleanup_result(scan, false);
    assert_eq!(
        page.lines,
        vec![
            "Cleanup candidates:".to_owned(),
            format!("  {:<8} {:<24} {:<20} — one, two", "unsafe", "feature", "/w"),
            format!("  {:<8} {:<24} {:<20}", "eligible", "(detached)", "/v"),
        ]
    );
    assert_eq!(
        outcome,
        Err(CliError::Io("daemon cleanup blocker is not a string".to_owned()))
    );
    let (page, outcome) = render_cleanup_result("{}", false);
    assert!(page.lines.is_empty());
    assert_eq!(
        outcome,
        Err(CliError::Io("daemon cleanup response has no candidates array".to_owned()))
    );
}

#[test]
fn removals_turn_to_the_given_repository_once_the_worktree_is_gone() {
    let given = Some("/repository".to_owned());
    assert_eq!(repository_to_ask(true, &given), RepositoryChoice::OfTheWorktree);
    assert_eq!(repository_to_ask(true, &None), RepositoryChoice::OfTheWorktree);
    assert_eq!(
        repository_to_ask(false, &given),
        RepositoryChoice::At("/repository".to_owned())
    );
    assert_eq!(repository_to_ask(false, &None), RepositoryChoice::Nowhere);
}

#[test]
fn daemons_are_restarted_and_asked_once_more() {
    let lost = Err(DaemonError::Io { operation: "connect".to_owned(), source: "no".to_owned() });
    assert!(asks_again(&lost, false));
    assert!(!asks_again(&lost, true));
    assert!(!asks_again(&Ok("{}".to_owned()), false));
    let refused = |code: &str| {
        Err(DaemonError::Remote { code: code.to_owned(), message: "no".to_owned() })
    };
    assert!(asks_again(&refused("inventory_replaced"), false));
    assert!(!asks_again(&refused("conflict"), false));
}

#[test]
fn looks_that_end_the_wait_change_nothing() {
    let mut startup = Startup::new("/s");
    let ended = || Some("exit status: 1".to_owned());
    assert_eq!(startup.look_after(true, ended(), &None, 0), StartupStep::Ready);
    assert_eq!(startup, Startup::new("/s"));
    assert!(matches!(
        startup.look_after(false, None, &None, 120000),
        StartupStep::TimedOut(_)
    ));
    assert_eq!(startup, Startup::new("/s"));
    assert_eq!(startup.look_after(false, ended(), &None, 50), StartupStep::Wait);
    assert_eq!(startup.ended, ended());
}
