//! Tests of the operations on a repository, against a Git that is kept in memory.

use worktree_manager::git::error::GitError;
use worktree_manager::git::reads::CommandOutput;
use worktree_manager::git::GitRepository;
use worktree_manager::git::GitWorktree;
use worktree_manager::git::GitWorktreeStatus;
use worktree_manager::inventory::worktrees::ListedWorktree;
use worktree_manager::inventory::EventInput;
use worktree_manager::inventory::Inventory;
use worktree_manager::inventory::InventoryError;
use worktree_manager::model::ChangeEntry;
use worktree_manager::model::ChangeKind;
use worktree_manager::model::ChangeSummary;
use worktree_manager::model::DiskUsage;
use worktree_manager::model::MergeStatus;
use worktree_manager::model::TimeObservation;
use worktree_manager::model::UpstreamStatus;
use worktree_manager::model::WorktreeStatusData;
use worktree_manager::process::ProcessError;
use worktree_manager::process::ProcessInfo;
use worktree_manager::service::assess::assess_worktree;
use worktree_manager::service::cleanup::Observation;
use worktree_manager::service::commands::local_branch_exists;
use worktree_manager::service::create::CreateStep;
use worktree_manager::service::lock::LockStep;
use worktree_manager::service::remove::BranchStep;
use worktree_manager::service::remove::RemoveStep;
use worktree_manager::service::rules::candidate_path;
use worktree_manager::service::rules::default_worktree_path;
use worktree_manager::service::rules::requested_path;
use worktree_manager::service::rules::validate_create_request;
use worktree_manager::service::rules::validate_session_request;
use worktree_manager::service::rules::worktree_directory;
use worktree_manager::service::types::Place;
use worktree_manager::service::CreateRequest;
use worktree_manager::service::CreateResult;
use worktree_manager::service::LockResult;
use worktree_manager::service::RegisterSessionRequest;
use worktree_manager::service::RemoveResult;
use worktree_manager::service::RepositoryService;
use worktree_manager::service::ServiceError;

const ROOT: &str = "/fixture/repository";

fn linked(path: &str, branch: &str) -> ListedWorktree {
    ListedWorktree {
        worktree: GitWorktree {
            path: path.to_string(),
            head: Some("abc123".to_string()),
            branch: Some(branch.to_string()),
            detached: false,
            bare: false,
            locked: false,
            lock_reason: None,
            prunable: false,
            prune_reason: None,
        },
        is_directory: true,
        resolved_path: path.to_string(),
    }
}

fn place(path: &str) -> Place {
    Place { path: path.to_string(), resolved_path: path.to_string() }
}

fn answer(code: i32, stderr: &str) -> Result<CommandOutput, GitError> {
    Ok(CommandOutput { code: Some(code), stdout: Vec::new(), stderr: stderr.as_bytes().to_vec() })
}

fn repository() -> GitRepository {
    GitRepository {
        root: ROOT.to_string(),
        common_git_dir: format!("{ROOT}/.git"),
        display_name: "repository".to_string(),
        integration_branch: Some("main".to_string()),
        remote_integration_branch: None,
    }
}

fn merged(worktree: &GitWorktree) -> GitWorktreeStatus {
    GitWorktreeStatus {
        worktree: worktree.clone(),
        path_exists: true,
        data: WorktreeStatusData {
            changes: ChangeSummary {
                staged: 0,
                unstaged: 0,
                untracked: 0,
                conflicted: 0,
                ignored: 0,
                entries: Vec::new(),
            },
            upstream: UpstreamStatus { name: None, ahead: None, behind: None },
            merge: MergeStatus {
                integration_branch: Some("main".to_string()),
                remote_integration_branch: None,
                unique_commits: Some(0),
                merged_locally: Some(true),
                merged_remotely: None,
                classification: "merged-locally".to_string(),
            },
            last_commit: None,
            disk_usage: DiskUsage { worktree_bytes: 4096, git_common_bytes: 100 },
            time: TimeObservation {
                filesystem_modified_unix_seconds: None,
                filesystem_modified_provenance: "unavailable",
            },
        },
        observation_error: None,
    }
}

fn with_new_files(status: &mut GitWorktreeStatus, count: u32) {
    for number in 0..count {
        status.data.changes.untracked += 1;
        status.data.changes.entries.push(ChangeEntry {
            path: format!("untracked-{number}.txt"),
            source_path: None,
            index_status: '?',
            worktree_status: '?',
            kind: ChangeKind::Untracked,
            conflicted: false,
        });
    }
}

/// A repository whose worktrees and branches are kept in memory.
struct Fixture {
    service: RepositoryService,
    worktrees: Vec<ListedWorktree>,
    branches: Vec<String>,
    now: i64,
}

impl Fixture {
    fn new() -> Fixture {
        let main = linked(ROOT, "main");
        let service = RepositoryService::open_with_minimum_age(
            repository(),
            &vec![main.worktree.clone()],
            Inventory::new(),
            0,
        )
        .expect("service opened");
        Fixture { service, worktrees: vec![main], branches: vec!["main".to_string()], now: 100 }
    }

    fn create(&mut self, request: &CreateRequest) -> Result<CreateResult, ServiceError> {
        self.now += 1;
        let target = place(request.path.as_deref().expect("the tests name a path"));
        let step = self.service.create(request, &target, &self.worktrees, false, self.now)?;
        match step {
            CreateStep::Done(result) => Ok(result),
            CreateStep::RunGit(pending) => {
                assert_eq!(
                    pending.args,
                    vec!["worktree", "add", "-b", request.branch.as_str(), "--", &target.path]
                );
                self.worktrees.push(linked(&target.path, &request.branch));
                self.branches.push(request.branch.clone());
                self.service.create_after_git(&pending, answer(0, ""), self.now)?;
                self.service.create_finish(&pending, &self.worktrees, self.now)
            }
        }
    }

    fn status(&self, path: &str) -> GitWorktreeStatus {
        let listed = self.worktrees.iter().find(|listed| listed.worktree.path == path);
        merged(&listed.expect("the worktree is listed").worktree)
    }

    fn remove(
        &mut self,
        path: &str,
        delete_branch: bool,
        actor: &str,
        dirty: u32,
    ) -> Result<RemoveResult, ServiceError> {
        self.now += 1;
        let requested = place(path);
        let step =
            self.service.remove(&requested, delete_branch, actor, &self.worktrees, self.now)?;
        match step {
            RemoveStep::Done(result) => Ok(result),
            RemoveStep::CheckBranch(retry) => {
                let there = self.branches.contains(&retry.branch);
                let found = answer(if there { 0 } else { 1 }, "");
                match self.service.retry_branch(&retry, found, self.now)? {
                    BranchStep::Done(result) => Ok(result),
                    BranchStep::DeleteBranch(_) => {
                        self.branches.retain(|branch| *branch != retry.branch);
                        self.service.retry_finish(&retry, answer(0, ""), self.now)
                    }
                }
            }
            RemoveStep::Inspect(removal) => {
                let mut status = self.status(path);
                with_new_files(&mut status, dirty);
                let nobody = Ok(Vec::new());
                self.service.remove_start(&removal, &status, &nobody, self.now)?;
                let listed = self.service.remove_recheck(&removal, &self.worktrees, self.now)?;
                let args =
                    self.service.remove_confirm(&removal, &listed, &status, &nobody, self.now)?;
                assert_eq!(args, vec!["worktree", "remove", "--", path]);
                self.worktrees.retain(|listed| listed.worktree.path != path);
                match self.service.remove_after_git(&removal, answer(0, ""), self.now)? {
                    BranchStep::Done(result) => Ok(result),
                    BranchStep::DeleteBranch(deletion) => {
                        assert_eq!(
                            deletion.args,
                            vec!["branch", "-d", "--", deletion.branch.as_str()]
                        );
                        self.branches.retain(|branch| *branch != deletion.branch);
                        self.service.remove_finish(&removal, &deletion, answer(0, ""), self.now)
                    }
                }
            }
        }
    }

    fn linked(&self, path: &str) -> bool {
        self.worktrees.iter().any(|listed| listed.worktree.path == path)
    }
}

fn request(branch: &str, path: &str, key: Option<&str>) -> CreateRequest {
    let mut request = CreateRequest::new(branch);
    request.path = Some(path.to_string());
    request.idempotency_key = key.map(|key| key.to_string());
    request
}

#[test]
fn creates_idempotently_and_records_lifecycle_events() {
    let mut fixture = Fixture::new();
    let path = "/fixture/feature";
    let wanted = request("feature", path, Some("create-feature"));
    let created = fixture.create(&wanted).expect("worktree created");
    assert!(!created.already_existed);
    assert_eq!(created.worktree.branch.as_deref(), Some("feature"));
    let replay = fixture.create(&wanted).expect("create replayed");
    assert!(replay.already_existed);
    assert_eq!(replay.worktree.path, path);

    let events = fixture.service.inventory().events(created.record.repository_id);
    assert!(events
        .iter()
        .any(|event| event.action == "create_worktree" && event.result == "succeeded"));
    assert!(events
        .iter()
        .any(|event| event.action == "create_worktree" && event.result == "idempotent-replay"));
    fixture.remove(path, true, "test", 0).expect("clean worktree removed");
    assert!(!fixture.linked(path));
    assert_eq!(fixture.branches, vec!["main"]);
    let again = request("feature", path, Some("create-feature-again"));
    let recreated = fixture.create(&again).expect("worktree recreated");
    assert!(!recreated.already_existed);
    fixture.remove(path, true, "test", 0).expect("recreated worktree removed");
}

#[test]
fn blocks_dirty_worktree_removal() {
    let mut fixture = Fixture::new();
    let path = "/fixture/dirty";
    fixture.create(&request("dirty", path, None)).expect("worktree created");
    let error = fixture
        .remove(path, false, "test", 1)
        .expect_err("dirty worktree should be blocked");
    assert!(matches!(error, ServiceError::UnsafeRemoval { .. }));
    assert_eq!(
        error,
        ServiceError::UnsafeRemoval {
            path: path.to_string(),
            blockers: vec!["working tree has 1 dirty file(s)".to_string()],
        }
    );
    assert!(fixture.linked(path));
}

#[test]
fn active_session_lease_blocks_removal_until_released() {
    let mut fixture = Fixture::new();
    let path = "/fixture/leased";
    let created = fixture.create(&request("leased", path, None)).expect("worktree created");

    let mut session = RegisterSessionRequest::new("session-1", path);
    session.provider = "test".to_string();
    session.lease_ttl_seconds = Some(3600);
    let registered = fixture
        .service
        .register_session(&session, &place(path), &fixture.worktrees, fixture.now)
        .expect("session registered");
    assert!(!registered.already_registered);
    assert!(registered.lease.is_some());
    let events = fixture.service.inventory().events(created.record.repository_id);
    assert!(events.iter().any(|event| {
        event.action == "register_session"
            && event.details_json.contains("\"lease_id\":")
            && !event.details_json.contains("\"lease_id\":null")
    }));
    let error = fixture
        .remove(path, false, "test", 0)
        .expect_err("leased worktree should be blocked");
    match error {
        ServiceError::UnsafeRemoval { blockers, .. } => {
            assert!(blockers.iter().any(|blocker| blocker.contains("lease")));
        }
        other => panic!("unexpected removal error: {other:?}"),
    }
    fixture
        .service
        .release_session("session-1", "test", fixture.now)
        .expect("session released");
    assert!(fixture
        .service
        .heartbeat_session("session-1", Some(3600), "test", fixture.now)
        .is_err());
    let worktrees = fixture.worktrees.clone();
    assert!(fixture
        .service
        .acquire_lease(&place(path), &worktrees, "session-1", 3600, "test", fixture.now)
        .is_err());
    fixture
        .remove(path, false, "test", 0)
        .expect("released worktree should be removable");
}

#[test]
fn reconciles_an_external_removal_as_missing() {
    let mut fixture = Fixture::new();
    let path = "/fixture/external";
    let created = fixture.create(&request("external", path, None)).expect("worktree created");
    fixture.worktrees.retain(|listed| listed.worktree.path != path);
    let (_, records) = fixture
        .service
        .refresh(&fixture.worktrees, fixture.now + 1)
        .expect("repository refreshed");
    let record = records
        .iter()
        .find(|record| record.path == created.worktree.path)
        .expect("removed worktree remains in inventory");
    assert_eq!(record.lifecycle_state, "missing");
}

#[test]
fn retries_an_interrupted_remove_after_git_already_removed_the_worktree() {
    let mut fixture = Fixture::new();
    let path = "/fixture/interrupted";
    let created = fixture.create(&request("interrupted", path, None)).expect("worktree created");
    fixture
        .service
        .inventory
        .record_event(EventInput {
            repository_id: created.record.repository_id,
            worktree_id: Some(created.record.id),
            occurred_at: 200,
            actor: "test",
            action: "remove_worktree",
            result: "started",
            details_json: "{}",
        })
        .expect("remove start event recorded");
    fixture.worktrees.retain(|listed| listed.worktree.path != path);
    let (_, retry_records) = fixture
        .service
        .refresh(&fixture.worktrees, 201)
        .expect("inventory should reconcile");
    assert_eq!(
        retry_records
            .iter()
            .find(|record| record.id == created.record.id)
            .map(|record| record.lifecycle_state.as_str()),
        Some("removed")
    );

    let result = fixture
        .remove(path, true, "retry", 0)
        .expect("interrupted remove should be replayable");
    assert_eq!(result.path, path);
    assert!(result.branch_deleted);
    assert_eq!(fixture.branches, vec!["main"]);
}

#[test]
fn refuses_a_create_whose_git_command_failed() {
    let mut fixture = Fixture::new();
    let wanted = request("feature", "/fixture/feature", Some("key"));
    let target = place("/fixture/feature");
    let step = fixture
        .service
        .create(&wanted, &target, &fixture.worktrees, false, 10)
        .expect("create started");
    let CreateStep::RunGit(pending) = step else { panic!("git has to run") };
    let error = fixture
        .service
        .create_after_git(&pending, answer(128, "fatal: no\n"), 11)
        .expect_err("git failed");
    assert_eq!(
        error.to_text(),
        "git worktree add -b feature -- /fixture/feature (exit code 128): fatal: no"
    );
    let reservation = &fixture.service.inventory().reservations[0];
    assert_eq!(reservation.state, "failed");
    let events = fixture.service.inventory().events(1);
    assert_eq!(events.len(), 2);
    assert!(events.iter().any(|event| event.result == "failed"
        && event.details_json.contains("\"branch\":\"feature\"")));
}

#[test]
fn refuses_branches_paths_and_files_that_are_taken() {
    let mut fixture = Fixture::new();
    let path = "/fixture/feature";
    fixture.create(&request("feature", path, None)).expect("worktree created");
    let taken = fixture.create(&request("feature", "/fixture/other", None)).expect_err("taken");
    assert_eq!(
        taken,
        ServiceError::Inventory(InventoryError::Conflict(
            "the requested branch is already reserved by creation 1".to_string()
        ))
    );
    fixture.worktrees.push(linked("/fixture/foreign", "foreign"));
    let checked_out =
        fixture.create(&request("foreign", "/fixture/other", None)).expect_err("checked out");
    assert_eq!(
        checked_out,
        ServiceError::InvalidRequest(
            "branch \"foreign\" is already checked out at /fixture/foreign".to_string()
        )
    );
    let other = fixture.create(&request("other", "/fixture/foreign", None)).expect_err("linked");
    assert_eq!(
        other,
        ServiceError::InvalidRequest(
            "path /fixture/foreign is already linked to another branch".to_string()
        )
    );
    let present = fixture
        .service
        .create(
            &request("present", "/fixture/present", None),
            &place("/fixture/present"),
            &fixture.worktrees,
            true,
            500,
        )
        .expect_err("there is a file");
    assert_eq!(
        present,
        ServiceError::InvalidRequest(
            "requested worktree path already exists: /fixture/present".to_string()
        )
    );
}

#[test]
fn adopts_a_worktree_that_git_already_made() {
    let mut fixture = Fixture::new();
    fixture.worktrees.push(linked("/fixture/feature", "feature"));
    let adopted = fixture
        .create(&request("feature", "/fixture/feature", Some("key")))
        .expect("worktree adopted");
    assert!(adopted.already_existed);
    assert_eq!(fixture.service.inventory().reservations[0].state, "succeeded");
}

#[test]
fn refuses_to_replay_a_creation_that_git_forgot() {
    let mut fixture = Fixture::new();
    let wanted = request("feature", "/fixture/feature", Some("key"));
    fixture.create(&wanted).expect("worktree created");
    fixture.worktrees.retain(|listed| listed.worktree.path != "/fixture/feature");
    let error = fixture.create(&wanted).expect_err("the worktree is gone");
    assert!(matches!(
        error,
        ServiceError::InvalidRequest(_) | ServiceError::Inventory(InventoryError::Conflict(_))
    ));
}

fn lock(fixture: &mut Fixture, path: &str, reason: Option<&str>) -> Result<LockResult, ServiceError> {
    let step = fixture.service.lock(&place(path), reason, "test", &fixture.worktrees, 300)?;
    match step {
        LockStep::Done(result) => Ok(result),
        LockStep::RunGit(pending) => {
            assert_eq!(pending.args, vec!["worktree", "lock", "--reason", "busy", "--", path]);
            for listed in fixture.worktrees.iter_mut() {
                if listed.worktree.path == path {
                    listed.worktree.locked = true;
                    listed.worktree.lock_reason = reason.map(|reason| reason.to_string());
                }
            }
            fixture.service.lock_after_git(&pending, answer(0, ""), 300)?;
            fixture.service.lock_finish(&pending, &fixture.worktrees, 300)
        }
    }
}

#[test]
fn locks_and_unlocks_a_worktree() {
    let mut fixture = Fixture::new();
    let path = "/fixture/feature";
    fixture.create(&request("feature", path, None)).expect("worktree created");
    let locked = lock(&mut fixture, path, Some("busy")).expect("locked");
    assert!(!locked.already_in_requested_state);
    assert!(locked.worktree.locked);
    let again = lock(&mut fixture, path, Some("busy")).expect("still locked");
    assert!(again.already_in_requested_state);
    let events = fixture.service.inventory().events(1);
    assert_eq!(events.iter().filter(|event| event.action == "lock_worktree").count(), 2);

    let step = fixture
        .service
        .unlock(&place(path), "test", &fixture.worktrees, 301)
        .expect("unlock started");
    let LockStep::RunGit(pending) = step else { panic!("git has to run") };
    assert_eq!(pending.args, vec!["worktree", "unlock", "--", path]);
    let failed = fixture
        .service
        .lock_after_git(&pending, answer(1, "no\n"), 301)
        .expect_err("git failed");
    assert_eq!(
        failed,
        ServiceError::Git(GitError::Command {
            args: "worktree unlock -- /fixture/feature".to_string(),
            code: Some(1),
            stderr: "no".to_string(),
        })
    );
    let missing = fixture.service.lock(&place("/nowhere"), None, "test", &fixture.worktrees, 302);
    assert_eq!(missing, Err(ServiceError::NotFound("/nowhere".to_string())));
}

#[test]
fn failed_branch_deletion_is_reported_after_the_removal() {
    let mut fixture = Fixture::new();
    let path = "/fixture/feature";
    fixture.create(&request("feature", path, None)).expect("worktree created");
    let step = fixture
        .service
        .remove(&place(path), true, "test", &fixture.worktrees, 400)
        .expect("removal prepared");
    let RemoveStep::Inspect(removal) = step else { panic!("the worktree has to be inspected") };
    let status = fixture.status(path);
    let nobody = Ok(Vec::new());
    fixture.service.remove_start(&removal, &status, &nobody, 400).expect("started");
    let listed =
        fixture.service.remove_recheck(&removal, &fixture.worktrees, 400).expect("unchanged");
    fixture
        .service
        .remove_confirm(&removal, &listed, &status, &nobody, 400)
        .expect("confirmed");
    let step = fixture.service.remove_after_git(&removal, answer(0, ""), 401).expect("removed");
    let BranchStep::DeleteBranch(deletion) = step else { panic!("the branch has to go") };
    let error = fixture
        .service
        .remove_finish(&removal, &deletion, answer(1, "not merged\n"), 402)
        .expect_err("git kept the branch");
    assert!(matches!(error, ServiceError::BranchDeletionFailed { .. }));
    let record = &fixture.service.inventory().worktrees(1)[0];
    assert_eq!(record.lifecycle_state, "removed");
    assert_eq!(record.removed_at, Some(401));
}

#[test]
fn removal_stops_when_the_worktree_changed_meanwhile() {
    let mut fixture = Fixture::new();
    let path = "/fixture/feature";
    fixture.create(&request("feature", path, None)).expect("worktree created");
    let step = fixture
        .service
        .remove(&place(path), false, "test", &fixture.worktrees, 400)
        .expect("removal prepared");
    let RemoveStep::Inspect(removal) = step else { panic!("the worktree has to be inspected") };
    let status = fixture.status(path);
    let nobody = Ok(Vec::new());
    fixture.service.remove_start(&removal, &status, &nobody, 400).expect("started");
    let mut moved = fixture.worktrees.clone();
    moved[1].worktree.head = Some("def456".to_string());
    let error = fixture.service.remove_recheck(&removal, &moved, 400).expect_err("moved");
    assert_eq!(
        error,
        ServiceError::InvalidRequest(
            "worktree identity changed during removal preflight".to_string()
        )
    );
    let mut dirty = status.clone();
    with_new_files(&mut dirty, 2);
    let blocked = fixture
        .service
        .remove_confirm(&removal, &fixture.worktrees[1], &dirty, &nobody, 400)
        .expect_err("dirty");
    assert_eq!(
        blocked,
        ServiceError::UnsafeRemoval {
            path: path.to_string(),
            blockers: vec!["working tree has 2 dirty file(s)".to_string()],
        }
    );
}

#[test]
fn removal_of_an_unknown_worktree_is_not_found() {
    let mut fixture = Fixture::new();
    let error = fixture.remove("/nowhere", false, "test", 0).expect_err("unknown");
    assert_eq!(error, ServiceError::NotFound("/nowhere".to_string()));
    let negative = fixture.service.remove_with_minimum_age(
        &place("/nowhere"),
        false,
        "test",
        -1,
        &fixture.worktrees,
        1,
    );
    assert!(matches!(negative, Err(ServiceError::InvalidRequest(_))));
}

#[test]
fn every_blocker_is_named() {
    let mut listed = linked("/fixture/feature", "feature");
    listed.worktree.locked = true;
    let mut status = merged(&listed.worktree);
    status.observation_error = Some("no answer".to_string());
    with_new_files(&mut status, 3);
    status.data.merge.unique_commits = Some(3);
    status.data.merge.merged_locally = Some(false);
    status.data.merge.remote_integration_branch = Some("origin/main".to_string());
    let fixture = Fixture::new();
    let mut record = {
        let mut service = fixture.service;
        let (_, records) = service.refresh(&vec![listed.clone()], 50).expect("refreshed");
        records[0].clone()
    };
    record.created_at = None;
    let users = Ok(vec![
        ProcessInfo { pid: 12, command: "worker".to_string() },
        ProcessInfo { pid: 34, command: "shell".to_string() },
    ]);
    let found =
        assess_worktree(ROOT, &listed, &status, &users, Some(&record), true, 80, 60);
    assert_eq!(found.classification, "in-use");
    assert_eq!(
        found.blockers,
        vec![
            "Git worktree is locked",
            "active process(es) use this worktree: worker (12), shell (34)",
            "an active ownership lease exists",
            "worktree age is 30s; minimum cleanup age is 60s",
            "observation is incomplete: no answer",
            "working tree has 3 dirty file(s)",
            "branch has 3 unique commit(s)",
            "branch is not verified as merged into the local integration branch",
            "branch is not verified as merged into the configured remote integration branch",
        ]
    );

    let primary = linked(ROOT, "main");
    let mut unknown = merged(&primary.worktree);
    unknown.data.merge.unique_commits = None;
    let failed: Result<Vec<ProcessInfo>, ProcessError> =
        Err(ProcessError::Command("lsof is missing".to_string()));
    let found = assess_worktree(ROOT, &primary, &unknown, &failed, None, false, 80, 60);
    assert_eq!(found.classification, "review");
    assert_eq!(found.worktree_id, None);
    assert_eq!(found.blockers[0], "primary repository worktree cannot be removed");
    assert!(found.blockers[1].starts_with("process ownership is unknown: "));
    assert_eq!(found.blockers[2], "unique commit count is unknown");

    let mut gone = linked("/fixture/gone", "gone");
    gone.is_directory = false;
    let status = merged(&gone.worktree);
    let found = assess_worktree(ROOT, &gone, &status, &failed, None, false, 80, 60);
    assert_eq!(found.blockers, vec!["Git reports the worktree as unavailable"]);
    assert_eq!(found.classification, "review");
}

#[test]
fn scan_lists_every_worktree_with_its_record() {
    let mut fixture = Fixture::new();
    fixture.create(&request("feature", "/fixture/feature", None)).expect("worktree created");
    let records = fixture.service.cleanup_scan(&fixture.worktrees, 900).expect("scanned");
    let seen: Vec<Observation> = fixture
        .worktrees
        .iter()
        .map(|listed| Observation {
            listed: listed.clone(),
            status: merged(&listed.worktree),
            processes: Ok(Vec::new()),
        })
        .collect();
    let candidates = fixture.service.cleanup_candidates(&records, &seen, 900, 0);
    assert_eq!(candidates.len(), 2);
    assert_eq!(candidates[0].classification, "review");
    assert_eq!(candidates[1].classification, "eligible");
    assert_eq!(candidates[1].worktree_id, Some(2));
    assert_eq!(candidates[1].reclaimable_bytes, 4096);
    assert_eq!(
        candidates[1].to_json(),
        "{\"worktree_id\":2,\"path\":\"/fixture/feature\",\"branch\":\"feature\",\"classification\":\"eligible\",\"blockers\":[],\"reclaimable_bytes\":4096}"
    );
    assert!(fixture
        .service
        .cleanup_scan_with_minimum_age(-1, &fixture.worktrees, 900)
        .is_err());
}

#[test]
fn sessions_extend_share_and_release_leases() {
    let mut fixture = Fixture::new();
    let path = "/fixture/feature";
    fixture.create(&request("feature", path, None)).expect("worktree created");
    let session = RegisterSessionRequest::new("session-1", path);
    assert_eq!(session.provider, "terminal");
    let worktrees = fixture.worktrees.clone();
    let first = fixture
        .service
        .register_session(&session, &place(path), &worktrees, 1000)
        .expect("registered");
    assert_eq!(first.lease, None);
    let again = fixture
        .service
        .register_session(&session, &place(path), &worktrees, 1001)
        .expect("registered again");
    assert!(again.already_registered);
    let beat = fixture
        .service
        .heartbeat_session("session-1", Some(60), "test", 1002)
        .expect("heard");
    assert_eq!(beat.lease.expect("leased").expires_at, 1062);
    let taken = fixture
        .service
        .acquire_lease(&place(path), &worktrees, "session-1", 120, "test", 1010)
        .expect("leased");
    assert!(taken.already_active);
    assert_eq!(taken.lease.expires_at, 1130);
    let released = fixture.service.release_lease("session-1", "test", 1011).expect("released");
    assert!(released.iter().all(|lease| lease.state == "released"));
    assert_eq!(
        fixture.service.heartbeat_session("session-1", Some(0), "test", 1012),
        Err(ServiceError::InvalidRequest("lease TTL must be positive".to_string()))
    );
    assert_eq!(
        fixture.service.release_lease(" ", "test", 1012),
        Err(ServiceError::InvalidRequest("session id cannot be empty".to_string()))
    );
    assert_eq!(
        fixture.service.release_session("no\"body", "test", 1012),
        Err(ServiceError::InvalidRequest("session \"no\\\"body\" not found".to_string()))
    );
}

#[test]
fn request_rules_name_what_is_wrong() {
    let mut create = CreateRequest::new("  ");
    assert!(matches!(validate_create_request(&create), Err(ServiceError::InvalidRequest(_))));
    create.branch = "feature".to_string();
    assert_eq!(validate_create_request(&create), Ok(()));
    create.branch = "-f".to_string();
    assert_eq!(
        validate_create_request(&create),
        Err(ServiceError::InvalidRequest(
            "branch name cannot begin with '-' or contain NUL".to_string()
        ))
    );
    create.branch = "feature".to_string();
    create.base = Some("-b".to_string());
    assert_eq!(
        validate_create_request(&create),
        Err(ServiceError::InvalidRequest(
            "base ref cannot begin with '-' or contain NUL".to_string()
        ))
    );
    create.base = None;
    create.idempotency_key = Some(String::new());
    assert_eq!(
        validate_create_request(&create),
        Err(ServiceError::InvalidRequest(
            "idempotency key cannot be empty or contain NUL".to_string()
        ))
    );
    let mut session = RegisterSessionRequest::new("", "/w");
    assert!(validate_session_request(&session).is_err());
    session.session_id = "session-1".to_string();
    assert_eq!(validate_session_request(&session), Ok(()));
    session.lease_ttl_seconds = Some(0);
    assert!(validate_session_request(&session).is_err());
}

#[test]
fn worktrees_stand_beside_the_repository() {
    assert_eq!(
        default_worktree_path(ROOT, "feature/one"),
        "/fixture/repository-feature-one"
    );
    let mut create = CreateRequest::new("feature");
    assert_eq!(candidate_path(ROOT, &create), "/fixture/repository-feature");
    create.path = Some("../elsewhere".to_string());
    assert_eq!(candidate_path(ROOT, &create), "/fixture/repository/../elsewhere");
    assert_eq!(worktree_directory(ROOT), Ok("/fixture".to_string()));
    assert_eq!(
        requested_path(ROOT, "/fixture/repository/.git", "/fixture/a", "/fixture", "/fixture"),
        Ok("/fixture/a".to_string())
    );
    assert!(requested_path(ROOT, "/fixture/repository/.git", "/other/a", "/other", "/fixture")
        .is_err());
}

#[test]
fn branch_lookup_tells_absence_from_failure() {
    assert_eq!(local_branch_exists("main", answer(0, "")), Ok(true));
    assert_eq!(local_branch_exists("main", answer(1, "")), Ok(false));
    assert!(local_branch_exists("main", answer(128, "fatal")).is_err());
}

#[test]
fn the_mutation_lock_lies_in_the_common_directory() {
    let fixture = Fixture::new();
    assert_eq!(
        fixture.service.mutation_lock_path(),
        "/fixture/repository/.git/worktree-manager.mutation.lock"
    );
    assert_eq!(fixture.service.minimum_cleanup_age_seconds(), 0);
    assert_eq!(fixture.service.repository().root, ROOT);
}

#[test]
fn service_errors_explain_themselves() {
    let blocked = ServiceError::UnsafeRemoval {
        path: "/w".to_string(),
        blockers: vec!["one".to_string(), "two".to_string()],
    };
    assert_eq!(blocked.to_text(), "refusing to remove /w: one, two");
    assert_eq!(ServiceError::NotFound("/w".to_string()).to_text(), "worktree not found: /w");
    assert_eq!(
        ServiceError::Io { operation: "read".to_string(), source: "closed".to_string() }.to_text(),
        "read: closed"
    );
    assert_eq!(
        ServiceError::LockPoisoned.to_text(),
        "repository mutation lock is poisoned"
    );
}

#[test]
fn fulfilled_keys_reuse_their_worktree_in_later_states() {
    let mut fixture = Fixture::new();
    let wanted = request("feature", "/fixture/feature", Some("first"));
    let created = fixture.create(&wanted).expect("worktree created");
    fixture.create(&request("other", "/fixture/other", Some("second"))).expect("other created");
    let count = fixture.worktrees.len();
    let replay = fixture.create(&wanted).expect("create replayed");
    assert!(replay.already_existed);
    assert_eq!(replay.record.id, created.record.id);
    assert_eq!(replay.worktree.branch.as_deref(), Some("feature"));
    for taken in [
        request("feature", "/fixture/third", Some("third")),
        request("third", "/fixture/feature", Some("third")),
        request("feature", "/fixture/third", None),
        request("feature", "/fixture/other", Some("second")),
        request("other", "/fixture/feature", Some("second")),
    ] {
        let error = fixture.create(&taken).expect_err("path or branch is taken");
        assert!(matches!(
            error,
            ServiceError::Inventory(worktree_manager::inventory::InventoryError::Conflict(_))
        ));
    }
    assert_eq!(fixture.worktrees.len(), count);
}
