//! Tests of the daemon: its protocol, its journal and its sockets.

use std::cell::Cell;
use worktree_manager::daemon::clean_stale_socket;
use worktree_manager::daemon::client::extract_result;
use worktree_manager::daemon::client::request_line;
use worktree_manager::daemon::command::decode;
use worktree_manager::daemon::command::is_mutating_method;
use worktree_manager::daemon::command::Command;
use worktree_manager::daemon::execute::execute_acquire_lease;
use worktree_manager::daemon::execute::execute_cleanup_scan;
use worktree_manager::daemon::execute::execute_heartbeat_session;
use worktree_manager::daemon::execute::execute_ping;
use worktree_manager::daemon::execute::execute_refresh;
use worktree_manager::daemon::execute::execute_register_session;
use worktree_manager::daemon::execute::execute_release_lease;
use worktree_manager::daemon::execute::execute_release_session;
use worktree_manager::daemon::fingerprint::request_operation;
use worktree_manager::daemon::fingerprint::stable_hash_value;
use worktree_manager::daemon::fingerprint::stable_string_hash;
use worktree_manager::daemon::is_retryable;
use worktree_manager::daemon::journal::check_identity;
use worktree_manager::daemon::journal::close_call;
use worktree_manager::daemon::journal::enter_call;
use worktree_manager::daemon::journal::JournalStep;
use worktree_manager::daemon::lines::refusal_of;
use worktree_manager::daemon::lines::LineReader;
use worktree_manager::daemon::lines::LineStep;
use worktree_manager::daemon::protocol::check_response;
use worktree_manager::daemon::protocol::error_response;
use worktree_manager::daemon::protocol::failure_response;
use worktree_manager::daemon::protocol::handle_line;
use worktree_manager::daemon::protocol::interpret_response;
use worktree_manager::daemon::protocol::rejection;
use worktree_manager::daemon::protocol::service_error_code;
use worktree_manager::daemon::protocol::success_response;
use worktree_manager::daemon::protocol::Incoming;
use worktree_manager::daemon::sockets::check_socket_path;
use worktree_manager::daemon::sockets::connection_count;
use worktree_manager::daemon::sockets::prepare_socket_path;
use worktree_manager::daemon::sockets::request_identity_lock_path;
use worktree_manager::daemon::sockets::request_lock_directory;
use worktree_manager::daemon::sockets::request_path_lock_path;
use worktree_manager::daemon::sockets::validate_request_lock;
use worktree_manager::daemon::sockets::validate_request_lock_directory;
use worktree_manager::daemon::sockets::FileFacts;
use worktree_manager::daemon::sockets::SocketProbe;
use worktree_manager::daemon::DaemonClient;
use worktree_manager::daemon::DaemonConfig;
use worktree_manager::daemon::DaemonError;
use worktree_manager::git::reads::CommandOutput;
use worktree_manager::git::GitError;
use worktree_manager::git::GitRepository;
use worktree_manager::git::GitWorktree;
use worktree_manager::git::GitWorktreeStatus;
use worktree_manager::inventory::worktrees::ListedWorktree;
use worktree_manager::inventory::Inventory;
use worktree_manager::inventory::InventoryError;
use worktree_manager::json;
use worktree_manager::json::Object;
use worktree_manager::model::ChangeSummary;
use worktree_manager::model::DiskUsage;
use worktree_manager::model::MergeStatus;
use worktree_manager::model::TimeObservation;
use worktree_manager::model::UpstreamStatus;
use worktree_manager::model::WorktreeStatusData;
use worktree_manager::service::cleanup::Observation;
use worktree_manager::service::create::CreateStep;
use worktree_manager::service::types::Place;
use worktree_manager::service::RepositoryService;
use worktree_manager::service::ServiceError;

const ROOT: &str = "/fixture/repository";

fn linked(path: &str, branch: &str) -> ListedWorktree {
    ListedWorktree {
        worktree: GitWorktree {
            path: path.to_string(),
            head: Some("abc123".to_string()),
            branch: Some(branch.to_string()),
            detached: false,
            bare: false,
            locked: false,
            lock_reason: None,
            prunable: false,
            prune_reason: None,
        },
        is_directory: true,
        resolved_path: path.to_string(),
    }
}

fn repository() -> GitRepository {
    GitRepository {
        root: ROOT.to_string(),
        common_git_dir: format!("{ROOT}/.git"),
        display_name: "repository".to_string(),
        integration_branch: Some("main".to_string()),
        remote_integration_branch: None,
    }
}

fn merged(worktree: &GitWorktree) -> GitWorktreeStatus {
    GitWorktreeStatus {
        worktree: worktree.clone(),
        path_exists: true,
        data: WorktreeStatusData {
            changes: ChangeSummary {
                staged: 0,
                unstaged: 0,
                untracked: 0,
                conflicted: 0,
                ignored: 0,
                entries: Vec::new(),
            },
            upstream: UpstreamStatus { name: None, ahead: None, behind: None },
            merge: MergeStatus {
                integration_branch: Some("main".to_string()),
                remote_integration_branch: None,
                unique_commits: Some(0),
                merged_locally: Some(true),
                merged_remotely: None,
                classification: "merged-locally".to_string(),
            },
            last_commit: None,
            disk_usage: DiskUsage { worktree_bytes: 4096, git_common_bytes: 100 },
            time: TimeObservation {
                filesystem_modified_unix_seconds: None,
                filesystem_modified_provenance: "unavailable",
            },
        },
        observation_error: None,
    }
}

/// A daemon whose repository is kept in memory.
struct Server {
    service: RepositoryService,
    worktrees: Vec<ListedWorktree>,
    now: i64,
}

impl Server {
    fn open(config: DaemonConfig) -> Server {
        config.validate().expect("the configuration is valid");
        let main = linked(ROOT, "main");
        let service = RepositoryService::open_with_minimum_age(
            config.repository,
            &vec![main.worktree.clone()],
            Inventory::new(),
            config.minimum_cleanup_age_seconds,
        )
        .expect("service opened");
        Server { service, worktrees: vec![main], now: 1000 }
    }

    fn handle_line(&mut self, line: &str) -> Result<String, DaemonError> {
        self.now += 1;
        let call = match handle_line(line)? {
            Incoming::Answer(response) => return Ok(response),
            Incoming::Call(call) => call,
        };
        if !is_mutating_method(&call.method) {
            return Ok(match self.execute(&call.request_id, &call.method, &call.params) {
                Ok(result) => success_response(&call.request_id, &result),
                Err(error) => failure_response(Some(&call.request_id), &error),
            });
        }
        let operation = request_operation(&call.method, &call.params);
        let step = enter_call(&mut self.service.inventory, &call.request_id, &operation, self.now)?;
        match step {
            JournalStep::Respond(response) => Ok(response),
            JournalStep::Execute => {
                let outcome = self.execute(&call.request_id, &call.method, &call.params);
                close_call(&mut self.service.inventory, &call.request_id, outcome, self.now)
            }
        }
    }

    fn execute(
        &mut self,
        request_id: &str,
        method: &str,
        params: &json::Value,
    ) -> Result<String, DaemonError> {
        let default_age = self.service.minimum_cleanup_age_seconds();
        match decode(request_id, method, params, default_age)? {
            Command::Ping => {
                Ok(execute_ping(&self.service, 7, "/fixture/inventory.sqlite3", "unix:1:2"))
            }
            Command::Refresh => execute_refresh(&mut self.service, &self.worktrees, self.now),
            Command::Create(request) => {
                let path = request.path.clone().expect("the tests name a path");
                let target = Place { path: path.clone(), resolved_path: path.clone() };
                let step = self
                    .service
                    .create(&request, &target, &self.worktrees, false, self.now)
                    .map_err(DaemonError::Service)?;
                let result = match step {
                    CreateStep::Done(result) => result,
                    CreateStep::RunGit(pending) => {
                        let output =
                            CommandOutput { code: Some(0), stdout: Vec::new(), stderr: Vec::new() };
                        self.worktrees.push(linked(&path, &request.branch));
                        self.service
                            .create_after_git(&pending, Ok(output), self.now)
                            .map_err(DaemonError::Service)?;
                        self.service
                            .create_finish(&pending, &self.worktrees, self.now)
                            .map_err(DaemonError::Service)?
                    }
                };
                Ok(result.to_json())
            }
            Command::CleanupScan { base, minimum_age } => {
                let records = self
                    .service
                    .cleanup_scan_with_minimum_age(minimum_age, &self.worktrees, self.now)
                    .map_err(DaemonError::Service)?;
                let seen = self
                    .worktrees
                    .iter()
                    .map(|listed| Observation {
                        listed: listed.clone(),
                        status: merged(&listed.worktree),
                        processes: Ok(Vec::new()),
                    })
                    .collect();
                Ok(execute_cleanup_scan(
                    &self.service,
                    &records,
                    &seen,
                    base.as_deref(),
                    minimum_age,
                    self.now,
                ))
            }
            Command::RegisterSession(request) => {
                let requested = Place {
                    path: request.worktree.clone(),
                    resolved_path: request.worktree.clone(),
                };
                execute_register_session(
                    &mut self.service,
                    &request,
                    &requested,
                    &self.worktrees,
                    self.now,
                )
            }
            Command::HeartbeatSession { session_id, lease_ttl_seconds, actor } => {
                execute_heartbeat_session(
                    &mut self.service,
                    &session_id,
                    lease_ttl_seconds,
                    &actor,
                    self.now,
                )
            }
            Command::AcquireLease { path, session_id, lease_ttl_seconds, actor } => {
                let requested = Place { path: path.clone(), resolved_path: path };
                execute_acquire_lease(
                    &mut self.service,
                    &requested,
                    &self.worktrees,
                    &session_id,
                    lease_ttl_seconds,
                    &actor,
                    self.now,
                )
            }
            Command::ReleaseLease { session_id, actor } => {
                execute_release_lease(&mut self.service, &session_id, &actor, self.now)
            }
            Command::ReleaseSession { session_id, actor } => {
                execute_release_session(&mut self.service, &session_id, &actor, self.now)
            }
            other => panic!("the tests make no such call: {other:?}"),
        }
    }
}

fn request(request_id: &str, method: &str, params: &str) -> String {
    Object::new()
        .number("schema_version", 1)
        .string("request_id", request_id)
        .string("method", method)
        .raw("params", params.to_owned())
        .finish()
}

fn server() -> Server {
    Server::open(DaemonConfig::new(
        repository(),
        "/fixture/inventory.sqlite3",
        "/fixture/daemon.sock",
    ))
}

#[test]
fn handles_idempotent_create_and_session_leases() {
    let mut server = server();
    let create_params =
        Object::new().string("branch", "feature").string("path", "/fixture/feature").finish();
    let first = server
        .handle_line(&request("create-1", "create", &create_params))
        .expect("create should succeed");
    let second = server
        .handle_line(&request("create-1", "create", &create_params))
        .expect("create replay should succeed");
    assert_eq!(first, second);
    let conflicting_params =
        Object::new().string("branch", "other").string("path", "/fixture/other").finish();
    let conflict = server
        .handle_line(&request("create-1", "create", &conflicting_params))
        .expect("request conflict should be encoded in the response");
    assert!(conflict.contains("\"ok\":false"));
    assert!(conflict.contains("\"code\":\"conflict\""));

    let default_cleanup = server
        .handle_line(&request("cleanup-default", "cleanup_scan", "{}"))
        .expect("default cleanup scan should succeed");
    assert!(default_cleanup.contains("\"minimum_age_seconds\":86400"));
    assert!(default_cleanup.contains("minimum cleanup age is 86400s"));

    let cleanup_params =
        Object::new().signed_number("minimum_age_seconds", 0).string("base", "main").finish();
    let cleanup = server
        .handle_line(&request("cleanup-1", "cleanup_scan", &cleanup_params))
        .expect("cleanup scan should accept a per-request age");
    assert!(cleanup.contains("\"minimum_age_seconds\":0"));
    assert!(cleanup.contains("\"base\":\"main\""));
    assert!(!cleanup.contains("minimum cleanup age is 86400s"));

    let register_params = Object::new()
        .string("session_id", "session-1")
        .string("path", "/fixture/feature")
        .string("provider", "terminal")
        .number("lease_ttl_seconds", 60)
        .finish();
    let session = server
        .handle_line(&request("session-1-register", "register_session", &register_params))
        .expect("session should register");
    assert!(session.contains("\"lease\":{"));
    let heartbeat_params = Object::new()
        .string("session_id", "session-1")
        .number("lease_ttl_seconds", 60)
        .finish();
    let heartbeat = server
        .handle_line(&request("session-1-heartbeat", "heartbeat_session", &heartbeat_params))
        .expect("heartbeat should succeed");
    assert!(heartbeat.contains("\"state\":\"active\""));
}

#[test]
fn answers_the_remaining_session_calls() {
    let mut server = server();
    let ping = server.handle_line(&request("ping-1", "ping", "{}")).expect("ping answered");
    assert_eq!(
        ping,
        "{\"schema_version\":1,\"request_id\":\"ping-1\",\"ok\":true,\"result\":{\"status\":\"ok\",\"pid\":7,\"repository_root\":\"/fixture/repository\",\"inventory_path\":\"/fixture/inventory.sqlite3\",\"inventory_identity\":\"unix:1:2\",\"minimum_cleanup_age_seconds\":86400}}"
    );
    let refresh = server.handle_line(&request("r", "refresh", "{}")).expect("refreshed");
    assert!(refresh.contains("\"repository_id\":1"));
    let session = server
        .handle_line(&request("s", "register_session", "{\"path\":\"/fixture/repository\"}"))
        .expect("registered");
    assert!(session.contains("\"session_id\":\"s\",\"already_registered\":false"));
    assert!(session.contains("\"lease\":null"));
    let lease = server
        .handle_line(&request(
            "l",
            "acquire_lease",
            "{\"path\":\"/fixture/repository\",\"session_id\":\"s\",\"lease_ttl_seconds\":5}",
        ))
        .expect("leased");
    assert!(lease.contains("\"already_active\":false"));
    let released = server
        .handle_line(&request("u", "release_lease", "{\"session_id\":\"s\"}"))
        .expect("released");
    assert!(released.contains("\"state\":\"released\""));
    let ended = server
        .handle_line(&request("e", "release_session", "{\"session_id\":\"s\"}"))
        .expect("ended");
    assert!(ended.contains("\"state\":\"released\""));
    let missing = server
        .handle_line(&request("x", "heartbeat_session", "{\"session_id\":\"none\"}"))
        .expect("answered");
    assert!(missing.contains("\"code\":\"invalid_request\""));
}

#[test]
fn retries_only_transport_and_protocol_errors() {
    assert!(is_retryable(&DaemonError::Protocol("malformed".to_owned())));
    assert!(is_retryable(&DaemonError::Io {
        operation: "read".to_owned(),
        source: "closed".to_owned(),
    }));
    assert!(!is_retryable(&DaemonError::Remote {
        code: "conflict".to_owned(),
        message: "already exists".to_owned(),
    }));
    assert!(is_retryable(&DaemonError::Remote {
        code: "inventory_replaced".to_owned(),
        message: "database changed".to_owned(),
    }));
}

#[test]
fn client_retries_transport_failures_but_not_remote_errors() {
    let client = DaemonClient::new("unused.sock").with_retries(3);
    let remote_response = error_response(
        Some("request-1"),
        "conflict",
        "request already completed with different parameters",
    );
    let remote_attempts = Cell::new(0);
    let remote_error = client
        .request("request-1", "create", "{}", |_, _| {
            remote_attempts.set(remote_attempts.get() + 1);
            Ok(remote_response.clone())
        })
        .expect_err("application errors should be returned");
    assert_eq!(remote_attempts.get(), 1);
    assert!(matches!(remote_error, DaemonError::Remote { .. }));

    let success_response = success_response("request-2", "{}");
    let client = DaemonClient::new("unused.sock").with_retries(1);
    let transport_attempts = Cell::new(0);
    let result = client
        .request("request-2", "create", "{}", |_, _| {
            transport_attempts.set(transport_attempts.get() + 1);
            if transport_attempts.get() == 1 {
                Err(DaemonError::Io {
                    operation: "read".to_owned(),
                    source: "closed".to_owned(),
                })
            } else {
                Ok(success_response.clone())
            }
        })
        .expect("transport retry should succeed");
    assert_eq!(transport_attempts.get(), 2);
    assert_eq!(result, success_response);
}

#[test]
fn client_gives_up_after_its_retries() {
    let client = DaemonClient::new("unused.sock");
    assert_eq!(client.socket_path(), "unused.sock");
    let attempts = Cell::new(0u32);
    let error = client
        .request_result("request-1", "ping", "{}", |attempt, line| {
            assert_eq!(attempt, attempts.get());
            assert_eq!(
                line,
                "{\"schema_version\":1,\"request_id\":\"request-1\",\"method\":\"ping\",\"params\":{}}"
            );
            attempts.set(attempt + 1);
            Ok("nonsense".to_owned())
        })
        .expect_err("the answers make no sense");
    assert_eq!(attempts.get(), 4);
    assert!(matches!(error, DaemonError::Protocol(_)));
    let result = client
        .request_result("request-1", "ping", "{}", |_, _| {
            Ok(success_response("request-1", "{\"status\": \"ok\"}"))
        })
        .expect("answered");
    assert_eq!(result, "{\"status\":\"ok\"}");
}

#[test]
fn cleans_missing_socket_and_rejects_non_socket_paths() {
    let socket = "/fixture/daemon.sock";
    assert!(!clean_stale_socket(socket, &SocketProbe::Missing).expect("missing socket is cleanable"));
    let error = clean_stale_socket(socket, &SocketProbe::NotSocket)
        .expect_err("regular files must not be removed");
    assert!(error.to_text().contains("not a Unix socket"));
}

#[test]
fn sockets_are_removed_only_when_nobody_answers() {
    let path = "/s";
    assert_eq!(clean_stale_socket(path, &SocketProbe::Refused), Ok(true));
    assert_eq!(clean_stale_socket(path, &SocketProbe::Gone), Ok(true));
    assert_eq!(
        clean_stale_socket(path, &SocketProbe::Connected).expect_err("in use").to_text(),
        "clean daemon socket /s: daemon is running; refusing to remove its socket"
    );
    assert_eq!(
        clean_stale_socket(path, &SocketProbe::Failed("odd".to_owned())).expect_err("odd").to_text(),
        "inspect daemon socket /s: odd"
    );
    assert_eq!(prepare_socket_path(path, &SocketProbe::Missing), Ok(false));
    assert_eq!(prepare_socket_path(path, &SocketProbe::Unreadable("odd".to_owned())), Ok(false));
    assert_eq!(prepare_socket_path(path, &SocketProbe::Refused), Ok(true));
    assert_eq!(
        prepare_socket_path(path, &SocketProbe::Connected).expect_err("in use").to_text(),
        "bind daemon socket /s: daemon is already running"
    );
    assert_eq!(
        prepare_socket_path(path, &SocketProbe::NotSocket).expect_err("a file").to_text(),
        "bind daemon socket /s: daemon socket path is not a Unix socket"
    );
    assert_eq!(
        prepare_socket_path(path, &SocketProbe::Failed("odd".to_owned())).expect_err("odd").to_text(),
        "inspect daemon socket /s: daemon socket is unavailable"
    );
}

#[test]
fn socket_paths_and_connections_are_limited() {
    let longest = format!("/{}", "s".repeat(98));
    assert_eq!(check_socket_path(&longest), Ok(()));
    let too_long = format!("{longest}s");
    assert!(matches!(check_socket_path(&too_long), Err(DaemonError::Protocol(_))));
    let wide = format!("/{}", "é".repeat(50));
    assert!(check_socket_path(&wide).is_err());
    assert_eq!(connection_count(63), Some(64));
    assert_eq!(connection_count(64), None);
}

#[test]
fn lock_files_belong_to_the_user_alone() {
    let directory = FileFacts {
        is_link: false,
        is_directory: true,
        is_file: false,
        owner: 7,
        mode: 0o040700,
    };
    assert_eq!(validate_request_lock_directory("/l", directory, 7), Ok(()));
    let linked = FileFacts { is_link: true, ..directory };
    assert!(validate_request_lock_directory("/l", linked, 7)
        .expect_err("a link")
        .to_text()
        .contains("must be a real directory"));
    assert!(validate_request_lock_directory("/l", directory, 8)
        .expect_err("foreign")
        .to_text()
        .contains("owned by another user"));
    let open = FileFacts { mode: 0o040750, ..directory };
    assert_eq!(
        validate_request_lock_directory("/l", open, 7).expect_err("open").to_text(),
        "restrict request lock directory /l: request lock directory is accessible by another user"
    );
    let file = FileFacts {
        is_link: false,
        is_directory: false,
        is_file: true,
        owner: 7,
        mode: 0o100600,
    };
    assert_eq!(validate_request_lock("/f", file, 7), Ok(()));
    assert!(validate_request_lock("/f", directory, 7).is_err());
    assert!(validate_request_lock("/f", file, 8).is_err());
    assert!(validate_request_lock("/f", FileFacts { mode: 0o100640, ..file }, 7).is_err());
}

#[test]
fn hashes_follow_the_published_function() {
    assert_eq!(stable_string_hash(""), 0xcbf29ce484222325);
    assert_eq!(stable_string_hash("a"), 0xaf63dc4c8601ec8c);
    assert_eq!(stable_string_hash("foobar"), 0x85944171f73967e8);
    assert_eq!(request_lock_directory("/tmp", 501), "/tmp/worktree-manager-locks-501");
    assert_eq!(
        request_path_lock_path("/locks", "foobar"),
        "/locks/path-85944171f73967e8.request.lock"
    );
    assert_eq!(
        request_identity_lock_path("/locks", "a"),
        "/locks/identity-af63dc4c8601ec8c.request.lock"
    );
}

#[test]
fn operations_do_not_depend_on_field_order() {
    let one = json::parse("{\"a\":1,\"b\":[true,null,\"x\"]}").expect("parses");
    let two = json::parse("{\"b\":[true,null,\"x\"],\"a\":1}").expect("parses");
    let three = json::parse("{\"a\":2,\"b\":[true,null,\"x\"]}").expect("parses");
    assert_eq!(request_operation("create", &one), request_operation("create", &two));
    assert_ne!(request_operation("create", &one), request_operation("create", &three));
    assert_ne!(request_operation("create", &one), request_operation("remove", &one));
    assert!(request_operation("create", &one).starts_with("create:"));
    assert_eq!(request_operation("create", &one).len(), "create:".len() + 16);
}

#[test]
fn only_the_ping_is_not_journaled() {
    for method in [
        "refresh",
        "create",
        "lock",
        "unlock",
        "cleanup_scan",
        "remove",
        "register_session",
        "heartbeat_session",
        "acquire_lease",
        "release_lease",
        "release_session",
    ] {
        assert!(is_mutating_method(method));
    }
    assert!(!is_mutating_method("ping"));
    assert!(!is_mutating_method("unknown"));
}

#[test]
fn decodes_calls_with_their_defaults() {
    let params = json::parse("{\"path\":\"/w\"}").expect("parses");
    assert_eq!(
        decode("r", "remove", &params, 5),
        Ok(Command::Remove {
            path: "/w".to_owned(),
            delete_branch: false,
            actor: "ipc".to_owned(),
            minimum_age: 5,
        })
    );
    assert_eq!(
        decode("r", "lock", &params, 5),
        Ok(Command::Lock { path: "/w".to_owned(), reason: None, actor: "ipc".to_owned() })
    );
    assert_eq!(
        decode("r", "unlock", &params, 5),
        Ok(Command::Unlock { path: "/w".to_owned(), actor: "ipc".to_owned() })
    );
    assert!(matches!(decode("r", "create", &params, 5), Err(DaemonError::Protocol(_))));
    let branch = json::parse("{\"branch\":\"b\"}").expect("parses");
    match decode("r", "create", &branch, 5) {
        Ok(Command::Create(request)) => {
            assert_eq!(request.idempotency_key.as_deref(), Some("r"));
            assert_eq!(request.actor, "ipc");
        }
        other => panic!("unexpected command: {other:?}"),
    }
    let session = json::parse("{\"path\":\"/w\",\"session_id\":\"s\"}").expect("parses");
    assert_eq!(
        decode("r", "acquire_lease", &session, 5),
        Err(DaemonError::Protocol("lease_ttl_seconds is required".to_owned()))
    );
    assert_eq!(
        decode("r", "dig \"up\"", &params, 5),
        Err(DaemonError::Protocol("unknown daemon method \"dig \\\"up\\\"\"".to_owned()))
    );
}

#[test]
fn lines_need_an_identifier_and_a_known_schema() {
    assert!(matches!(handle_line("{"), Err(DaemonError::Protocol(_))));
    assert_eq!(
        handle_line("{\"method\":\"ping\"}"),
        Ok(Incoming::Answer(error_response(None, "invalid_request", "request_id is required")))
    );
    assert_eq!(
        handle_line("{\"request_id\":\"one\",\"schema_version\":2,\"method\":\"ping\"}"),
        Ok(Incoming::Answer(error_response(
            Some("one"),
            "unsupported_schema",
            "unsupported daemon protocol schema version"
        )))
    );
    assert!(handle_line("{\"request_id\":\"one\"}").is_err());
    assert!(handle_line("{\"request_id\":\"one\",\"method\":\"ping\",\"params\":3}").is_err());
    assert_eq!(
        rejection("{\"request_id\":\"one\"}", "no method"),
        error_response(Some("one"), "invalid_request", "no method")
    );
    assert_eq!(
        rejection("nonsense", "no JSON"),
        error_response(None, "invalid_request", "no JSON")
    );
}

#[test]
fn responses_are_understood_by_the_client() {
    let response = success_response("one", "{\"a\":1}");
    assert_eq!(interpret_response(response.clone(), "one"), Ok(response.clone()));
    assert_eq!(extract_result(&response), Ok("{\"a\":1}".to_owned()));
    assert!(interpret_response(response, "two").is_err());
    let failure = error_response(Some("one"), "conflict", "taken");
    assert_eq!(
        interpret_response(failure, "one"),
        Err(DaemonError::Remote { code: "conflict".to_owned(), message: "taken".to_owned() })
    );
    assert_eq!(
        interpret_response("{\"request_id\":\"one\"}".to_owned(), "one"),
        Err(DaemonError::Protocol("daemon response has no schema_version".to_owned()))
    );
    assert_eq!(
        extract_result("{\"ok\":true}"),
        Err(DaemonError::Protocol("daemon response has no result".to_owned()))
    );
    assert_eq!(
        request_line(" ", "ping", "{}"),
        Err(DaemonError::Protocol("request id and method cannot be empty".to_owned()))
    );
    assert!(request_line("one", "ping", "[]").is_err());
    assert!(request_line("one", "ping", "{").expect_err("cut off").to_text().contains("invalid params: "));
}

#[test]
fn errors_have_codes() {
    let io = || "x".to_owned();
    let unsafe_removal =
        DaemonError::Service(ServiceError::UnsafeRemoval { path: io(), blockers: Vec::new() });
    assert_eq!(service_error_code(&unsafe_removal), "unsafe_removal");
    assert_eq!(service_error_code(&DaemonError::Service(ServiceError::NotFound(io()))), "not_found");
    assert_eq!(
        service_error_code(&DaemonError::Service(ServiceError::InvalidRequest(io()))),
        "invalid_request"
    );
    assert_eq!(
        service_error_code(&DaemonError::Service(ServiceError::Inventory(
            InventoryError::Conflict(io())
        ))),
        "conflict"
    );
    assert_eq!(service_error_code(&DaemonError::Protocol(io())), "invalid_request");
    assert_eq!(
        service_error_code(&DaemonError::Git(GitError::InvalidOutput(io()))),
        "git_error"
    );
    assert_eq!(service_error_code(&DaemonError::Service(ServiceError::LockPoisoned)), "service_error");
    assert_eq!(service_error_code(&DaemonError::Unsupported), "daemon_error");
    assert_eq!(
        failure_response(Some("one"), &DaemonError::Unsupported),
        error_response(Some("one"), "daemon_error", "daemon IPC is unsupported on this platform")
    );
}

#[test]
fn the_journal_repeats_answers_and_runs_the_unanswered_again() {
    let mut inventory = Inventory::new();
    assert_eq!(enter_call(&mut inventory, "one", "create:1", 1), Ok(JournalStep::Execute));
    assert_eq!(enter_call(&mut inventory, "one", "create:1", 2), Ok(JournalStep::Execute));
    let response = close_call(&mut inventory, "one", Ok("{}".to_owned()), 3).expect("closed");
    assert_eq!(response, success_response("one", "{}"));
    assert_eq!(
        enter_call(&mut inventory, "one", "create:1", 4),
        Ok(JournalStep::Respond(response))
    );
    match enter_call(&mut inventory, "one", "create:2", 5) {
        Ok(JournalStep::Respond(conflict)) => assert!(conflict.contains("\"code\":\"conflict\"")),
        other => panic!("unexpected step: {other:?}"),
    }
    assert_eq!(enter_call(&mut inventory, "two", "create:1", 6), Ok(JournalStep::Execute));
    let failed = close_call(
        &mut inventory,
        "two",
        Err(DaemonError::Protocol("no".to_owned())),
        7,
    )
    .expect("closed");
    assert!(failed.contains("\"ok\":false"));
    assert_eq!(enter_call(&mut inventory, "two", "create:1", 8), Ok(JournalStep::Execute));
    let huge = "x".repeat(1024 * 1024);
    let cut = close_call(&mut inventory, "two", Ok(json::string(&huge)), 9).expect("closed");
    assert!(cut.contains("\"code\":\"response_too_large\""));
    assert_eq!(enter_call(&mut inventory, "two", "create:1", 10), Ok(JournalStep::Respond(cut)));
    assert_eq!(check_identity("one", "a", "a"), None);
    assert_eq!(
        check_identity("one", "a", "b"),
        Some(error_response(
            Some("one"),
            "inventory_replaced",
            "inventory database changed while daemon was running"
        ))
    );
}

fn feed(reader: &mut LineReader, bytes: &[u8]) -> LineStep {
    let mut step = LineStep::More;
    for byte in bytes {
        step = reader.feed(Some(*byte));
    }
    step
}

#[test]
fn lines_end_at_a_break_or_the_end_of_input() {
    let mut reader = LineReader::new();
    assert_eq!(feed(&mut reader, "café\r\n".as_bytes()), LineStep::Line("café".to_owned()));
    let mut reader = LineReader::new();
    assert_eq!(feed(&mut reader, b"half"), LineStep::More);
    assert_eq!(reader.feed(None), LineStep::Line("half".to_owned()));
    let mut reader = LineReader::new();
    assert_eq!(reader.feed(None), LineStep::Closed);
    let mut reader = LineReader::new();
    assert_eq!(feed(&mut reader, b"\xff\n"), LineStep::NotText);
    let mut reader = LineReader::new();
    let longest = vec![120u8; 1024 * 1024];
    assert_eq!(feed(&mut reader, &longest), LineStep::More);
    assert_eq!(reader.feed(Some(120)), LineStep::TooLong);
    let fitting = "x".repeat(1024 * 1024);
    assert_eq!(check_response(&fitting), Ok(()));
    assert_eq!(
        check_response(&format!("{fitting}x")),
        Err(DaemonError::Protocol("daemon response exceeds 1 MiB".to_owned()))
    );
}

#[test]
fn negative_ages_are_refused_at_the_start() {
    let mut config = DaemonConfig::new(repository(), "/i", "/s");
    assert_eq!(config.minimum_cleanup_age_seconds, 86400);
    config.minimum_cleanup_age_seconds = -1;
    assert_eq!(
        config.validate(),
        Err(DaemonError::Protocol("minimum cleanup age cannot be negative".to_owned()))
    );
}

#[test]
fn daemon_errors_explain_themselves() {
    assert_eq!(
        DaemonError::Remote { code: "conflict".to_owned(), message: "taken".to_owned() }.to_text(),
        "daemon request failed (conflict): taken"
    );
    assert_eq!(
        DaemonError::Protocol("odd".to_owned()).to_text(),
        "daemon protocol error: odd"
    );
    assert_eq!(
        DaemonError::Io { operation: "read".to_owned(), source: "closed".to_owned() }.to_text(),
        "read: closed"
    );
}

#[test]
fn hashes_of_objects_do_not_depend_on_the_order_of_fields() {
    let left = json::parse(r#"{"b":[1,true],"a":"x"}"#).expect("JSON should parse");
    let right = json::parse(r#"{"a":"x","b":[1,true]}"#).expect("JSON should parse");
    let other = json::parse(r#"{"a":"x","b":[true,1]}"#).expect("JSON should parse");
    for start in [0u64, 1, u64::MAX, 0xcbf2_9ce4_8422_2325] {
        assert_eq!(stable_hash_value(start, &left), stable_hash_value(start, &right));
        assert_ne!(stable_hash_value(start, &left), stable_hash_value(start, &other));
    }
    let mut expected = 7u64;
    for byte in [&b"s"[..], &b"ab"[..], &2usize.to_le_bytes()[..]].concat() {
        expected = (expected ^ u64::from(byte)).wrapping_mul(0x100_0000_01b3);
    }
    assert_eq!(stable_hash_value(7, &json::Value::String("ab".to_owned())), expected);
}

#[test]
fn answers_pass_only_to_the_request_that_they_answer() {
    let success = success_response("one", " { \"a\" : [ 1 ] } ");
    assert_eq!(interpret_response(success.clone(), "one"), Ok(success.clone()));
    let mismatch = || {
        Err(DaemonError::Protocol(
            "daemon response request_id does not match request".to_owned(),
        ))
    };
    assert_eq!(interpret_response(success, "two"), mismatch());
    let failure = error_response(Some("one"), "not_found", "gone");
    assert_eq!(
        interpret_response(failure.clone(), "one"),
        Err(DaemonError::Remote { code: "not_found".to_owned(), message: "gone".to_owned() })
    );
    assert_eq!(interpret_response(failure, "two"), mismatch());
    assert_eq!(
        interpret_response(error_response(None, "not_found", "gone"), "one"),
        Err(DaemonError::Protocol("daemon response has no request_id".to_owned()))
    );
}

#[test]
fn other_calls_do_not_disturb_an_answered_one() {
    let mut inventory = Inventory::new();
    let enter = |inventory: &mut Inventory, line: &str, now: i64| {
        let Ok(Incoming::Call(call)) = handle_line(line) else {
            panic!("the line should make a call");
        };
        let operation = request_operation(&call.method, &call.params);
        enter_call(inventory, &call.request_id, &operation, now).expect("the journal should work")
    };
    let line = r#"{"request_id":"one","method":"create","params":{"branch":"b","path":"/p"}}"#;
    let moved = r#"{"params":{"path":"/p","branch":"b"},"method":"create","request_id":"one"}"#;
    let changed = r#"{"request_id":"one","method":"create","params":{"branch":"c","path":"/q"}}"#;
    let other = r#"{"request_id":"two","method":"refresh"}"#;
    assert_eq!(enter(&mut inventory, line, 1), JournalStep::Execute);
    assert_eq!(enter(&mut inventory, other, 2), JournalStep::Execute);
    let first = close_call(&mut inventory, "one", Ok("{}".to_owned()), 3);
    let first = first.expect("the journal should work");
    let failed = Err(DaemonError::Protocol("no".to_owned()));
    assert!(close_call(&mut inventory, "two", failed, 4).is_ok());
    assert_eq!(enter(&mut inventory, line, 5), JournalStep::Respond(first.clone()));
    assert_eq!(enter(&mut inventory, moved, 6), JournalStep::Respond(first));
    assert_eq!(enter(&mut inventory, other, 7), JournalStep::Execute);
    let JournalStep::Respond(conflict) = enter(&mut inventory, changed, 8) else {
        panic!("another call under the identifier should be refused");
    };
    assert!(conflict.contains("\"ok\":false"));
    assert!(conflict.contains("\"code\":\"conflict\""));
}

#[test]
fn only_the_first_line_of_a_stream_is_taken() {
    let stream = b"one\r\r\ntwo\n";
    let mut reader = LineReader::new();
    let mut taken = 0;
    let step = loop {
        let step = reader.feed(stream.get(taken).copied());
        taken += 1;
        if step != LineStep::More {
            break step;
        }
    };
    assert_eq!(step, LineStep::Line("one\r".to_owned()));
    assert_eq!(taken, 6);
    let mut reader = LineReader::new();
    assert_eq!(reader.feed(Some(10)), LineStep::Line(String::new()));
    let mut reader = LineReader::new();
    assert_eq!(feed(&mut reader, b"end\r"), LineStep::More);
    assert_eq!(reader.feed(None), LineStep::Line("end\r".to_owned()));
}

#[test]
fn lines_that_cannot_be_read_are_refused() {
    assert_eq!(
        refusal_of(&LineStep::TooLong),
        Some(error_response(None, "request_too_large", "request exceeds 1 MiB"))
    );
    assert_eq!(
        refusal_of(&LineStep::NotText).as_deref(),
        Some(
            "{\"schema_version\":1,\"request_id\":null,\"ok\":false,\"error\":\
             {\"code\":\"invalid_request\",\"message\":\"request is not UTF-8\"}}"
        )
    );
    for step in [LineStep::More, LineStep::Closed, LineStep::Line("x".to_owned())] {
        assert_eq!(refusal_of(&step), None);
    }
}
