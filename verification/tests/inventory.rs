//! Tests of the inventory and the rules by which it changes.

use worktree_manager::git::GitRepository;
use worktree_manager::git::GitWorktree;
use worktree_manager::inventory::migration::needs_lease_migration;
use worktree_manager::inventory::records::InventoryFileIdentity;
use worktree_manager::inventory::sessions::add_seconds;
use worktree_manager::inventory::worktrees::ListedWorktree;
use worktree_manager::inventory::EventInput;
use worktree_manager::inventory::EventMetadata;
use worktree_manager::inventory::Inventory;
use worktree_manager::inventory::InventoryError;
use worktree_manager::inventory::LeaseRecord;
use worktree_manager::inventory::RepositoryRecord;
use worktree_manager::inventory::SessionInput;
use worktree_manager::inventory::SessionRecord;
use worktree_manager::inventory::WorktreeRecord;

fn repository() -> GitRepository {
    GitRepository {
        root: "/repo".to_owned(),
        common_git_dir: "/repo/.git".to_owned(),
        display_name: "repo".to_owned(),
        integration_branch: Some("main".to_owned()),
        remote_integration_branch: None,
    }
}

fn linked(path: &str, branch: &str) -> ListedWorktree {
    ListedWorktree {
        worktree: GitWorktree {
            path: path.to_owned(),
            head: Some("abc123".to_owned()),
            branch: Some(branch.to_owned()),
            detached: false,
            bare: false,
            locked: false,
            lock_reason: None,
            prunable: false,
            prune_reason: None,
        },
        is_directory: true,
        resolved_path: path.to_owned(),
    }
}

fn session(id: &str, worktree_id: i64, now: i64) -> SessionInput<'_> {
    SessionInput {
        id,
        worktree_id,
        provider: "test",
        provider_session_id: Some("provider-1"),
        pid: None,
        process_started_at: None,
        terminal_metadata: None,
        now,
    }
}

fn event(repository_id: i64, worktree_id: Option<i64>, result: &str) -> EventInput<'_> {
    EventInput {
        repository_id,
        worktree_id,
        occurred_at: 5,
        actor: "test",
        action: "remove_worktree",
        result,
        details_json: "{}",
    }
}

fn filled() -> (Inventory, Vec<WorktreeRecord>) {
    let mut inventory = Inventory::new();
    let worktrees = vec![linked("/repo", "main"), linked("/feature", "feature")];
    let records = inventory
        .reconcile_repository(&repository(), &worktrees, 100)
        .expect("repository reconciled");
    (inventory, records)
}

#[test]
fn creates_schema_and_records_repository_worktree_and_event() {
    let mut inventory = Inventory::new();
    let worktrees = vec![linked("/repo", "main")];
    let repository_record = inventory
        .register_repository(&repository(), 100)
        .expect("repository registered");
    let records = inventory
        .reconcile_repository(&repository(), &worktrees, 101)
        .expect("repository reconciled");
    assert_eq!(records.len(), 1);
    assert_eq!(records[0].lifecycle_state, "active");

    let event = inventory
        .record_event(EventInput {
            repository_id: repository_record.id,
            worktree_id: Some(records[0].id),
            occurred_at: 102,
            actor: "test",
            action: "inspect",
            result: "succeeded",
            details_json: r#"{"path":"repository"}"#,
        })
        .expect("event recorded");
    assert_eq!(inventory.events(repository_record.id), vec![event]);
}

#[test]
fn migrates_duplicate_active_leases_before_creating_the_unique_index() {
    let mut inventory = Inventory::new();
    inventory.repositories.push(RepositoryRecord {
        id: 1,
        common_git_dir: "/repo/.git".to_owned(),
        root_path: "/repo".to_owned(),
        display_name: "repo".to_owned(),
        integration_branch: None,
        remote_integration_branch: None,
        added_at: 1,
        last_seen_at: 1,
    });
    inventory.worktrees.push(WorktreeRecord {
        id: 1,
        repository_id: 1,
        path: "/repo".to_owned(),
        branch: None,
        head: None,
        git_state: "available".to_owned(),
        lifecycle_state: "active".to_owned(),
        first_seen_at: 1,
        created_at: None,
        last_seen_at: 1,
        archived_at: None,
        removed_at: None,
    });
    inventory.sessions.push(SessionRecord {
        id: "session-1".to_owned(),
        worktree_id: 1,
        provider: "test".to_owned(),
        provider_session_id: None,
        pid: None,
        process_started_at: None,
        terminal_metadata: None,
        state: "active".to_owned(),
        created_at: 1,
        last_seen_at: 1,
    });
    for (id, acquired_at, expires_at) in [(1, 1, 100), (2, 2, 200)] {
        inventory.leases.push(LeaseRecord {
            id,
            worktree_id: 1,
            session_id: "session-1".to_owned(),
            acquired_at,
            renewed_at: acquired_at,
            expires_at,
            state: "active".to_owned(),
        });
    }
    assert!(needs_lease_migration(0));
    assert!(needs_lease_migration(1));
    assert!(!needs_lease_migration(2));
    inventory.keep_latest_leases(50);
    let active: Vec<i64> = inventory
        .leases
        .iter()
        .filter(|lease| lease.state == "active")
        .map(|lease| lease.id)
        .collect();
    assert_eq!(active, vec![2]);
}

#[test]
fn request_journal_and_leases_recover_after_interruption() {
    let mut inventory = Inventory::new();
    let repository_record = inventory
        .register_repository(&repository(), 100)
        .expect("repository registered");
    let records = inventory
        .reconcile_repository(&repository(), &vec![linked("/repo", "main")], 100)
        .expect("repository reconciled");
    let worktree = &records[0];
    inventory
        .register_session(session("session-1", worktree.id, 100))
        .expect("session registered");
    let lease = inventory
        .acquire_lease(worktree.id, "session-1", 10, 100)
        .expect("lease acquired");
    assert!(inventory.active_lease_exists(worktree.id, 109));
    assert!(!inventory.active_lease_exists(worktree.id, 110));
    assert_eq!(inventory.expire_leases(110), 1);
    assert_eq!(inventory.lease_by_id(lease.id).unwrap().state, "expired");

    let started = inventory
        .begin_request("request-1", "create:abc", 100)
        .expect("request started");
    assert_eq!(started.state, "started");
    let restarted = inventory
        .begin_request("request-1", "create:abc", 101)
        .expect("request restarted");
    assert_eq!(restarted.state, "started");
    inventory
        .complete_request("request-1", "{\"ok\":true}", 102)
        .expect("request completed");
    let replay = inventory
        .begin_request("request-1", "create:abc", 103)
        .expect("request replayed");
    assert_eq!(replay.state, "succeeded");
    assert_eq!(replay.response_json.as_deref(), Some("{\"ok\":true}"));
    assert_eq!(repository_record.id, worktree.repository_id);
}

#[test]
fn repositories_are_known_by_their_common_directory() {
    let mut inventory = Inventory::new();
    let first = inventory.register_repository(&repository(), 1).expect("registered");
    let mut renamed = repository();
    renamed.display_name = "renamed".to_owned();
    renamed.root = "/moved".to_owned();
    let second = inventory.register_repository(&renamed, 2).expect("registered again");
    assert_eq!(second.id, first.id);
    assert_eq!(second.added_at, 1);
    assert_eq!(second.last_seen_at, 2);
    assert_eq!(second.display_name, "renamed");
    let mut other = repository();
    other.common_git_dir = "/other/.git".to_owned();
    assert_ne!(inventory.register_repository(&other, 3).expect("registered").id, first.id);
    assert_eq!(
        inventory.repository_by_common_git_dir("/repo/.git").expect("readable"),
        Some(second)
    );
    assert_eq!(inventory.repository_by_common_git_dir("/none").expect("readable"), None);
}

#[test]
fn worktrees_are_listed_by_path_and_keep_their_identity() {
    let (mut inventory, records) = filled();
    assert_eq!(records[0].path, "/feature");
    assert_eq!(records[1].path, "/repo");
    let mut gone = linked("/feature", "feature");
    gone.is_directory = false;
    let again = inventory
        .reconcile_repository(&repository(), &vec![linked("/repo", "main"), gone], 200)
        .expect("reconciled");
    assert_eq!(again[0].id, records[0].id);
    assert_eq!(again[0].lifecycle_state, "missing");
    assert_eq!(again[0].first_seen_at, 100);
    assert_eq!(again[0].last_seen_at, 200);
    assert_eq!(inventory.worktrees(records[0].repository_id), again);
    assert_eq!(
        inventory.worktree_by_path(records[0].repository_id, "/repo").expect("readable"),
        Some(again[1].clone())
    );
}

#[test]
fn archived_worktrees_stay_archived() {
    let (mut inventory, records) = filled();
    for row in inventory.worktrees.iter_mut() {
        if row.path == "/feature" {
            row.lifecycle_state = "archived".to_owned();
        }
    }
    let listed = vec![linked("/repo", "main"), linked("/feature", "feature")];
    let again = inventory.reconcile_repository(&repository(), &listed, 200).expect("reconciled");
    assert_eq!(again[0].lifecycle_state, "archived");
    let gone = inventory
        .reconcile_repository(&repository(), &vec![linked("/repo", "main")], 300)
        .expect("reconciled");
    assert_eq!(gone[0].lifecycle_state, "archived");
    assert_eq!(gone[0].id, records[0].id);
}

#[test]
fn a_failed_removal_leaves_a_missing_worktree() {
    let (mut inventory, records) = filled();
    let id = records[0].id;
    let repository_id = records[0].repository_id;
    inventory.record_event(event(repository_id, Some(id), "started")).expect("recorded");
    inventory.record_event(event(repository_id, Some(id), "failed")).expect("recorded");
    let only = vec![linked("/repo", "main")];
    let after = inventory.reconcile_repository(&repository(), &only, 200).expect("reconciled");
    assert_eq!(after[0].lifecycle_state, "missing");
    inventory.record_event(event(repository_id, Some(id), "started")).expect("recorded");
    let later = inventory.reconcile_repository(&repository(), &only, 300).expect("reconciled");
    assert_eq!(later[0].lifecycle_state, "removed");
}

#[test]
fn vanished_worktrees_lose_their_sessions_leases_and_reservations() {
    let (mut inventory, records) = filled();
    let id = records[0].id;
    let repository_id = records[0].repository_id;
    inventory.register_session(session("session-1", id, 100)).expect("registered");
    let lease = inventory.acquire_lease(id, "session-1", 1000, 100).expect("leased");
    let reservation = inventory
        .reserve_creation(repository_id, "/feature", "feature", Some("key"), 100)
        .expect("reserved");
    inventory
        .set_reservation_state(reservation.id, "succeeded", Some(id), Some(100))
        .expect("fulfilled");
    inventory
        .reconcile_repository(&repository(), &vec![linked("/repo", "main")], 200)
        .expect("reconciled");
    let stale = inventory.session_by_id("session-1").expect("readable").expect("there");
    assert_eq!(stale.state, "stale");
    assert_eq!(inventory.lease_by_id(lease.id).expect("there").state, "expired");
    assert_eq!(inventory.reservations[0].state, "released");
}

#[test]
fn reservations_refuse_what_is_taken() {
    let (mut inventory, records) = filled();
    let repository_id = records[0].repository_id;
    let reserved = inventory
        .reserve_creation(repository_id, "/a", "a", Some("key"), 1)
        .expect("reserved");
    assert_eq!(reserved.state, "pending");
    assert_eq!(
        inventory.reserve_creation(repository_id, "/a", "a", Some("key"), 2),
        Ok(reserved.clone())
    );
    assert_eq!(
        inventory.reserve_creation(repository_id, "/b", "a", Some("key"), 2),
        Err(InventoryError::Conflict(
            "idempotency key \"key\" is already reserved for /a / a".to_owned()
        ))
    );
    assert_eq!(
        inventory.reserve_creation(repository_id, "/a", "b", None, 2),
        Err(InventoryError::Conflict(
            "the requested path is already reserved by creation 1".to_owned()
        ))
    );
    assert_eq!(
        inventory.reserve_creation(repository_id, "/b", "a", None, 2),
        Err(InventoryError::Conflict(
            "the requested branch is already reserved by creation 1".to_owned()
        ))
    );
    inventory.set_reservation_state(reserved.id, "failed", None, Some(3)).expect("failed");
    assert_eq!(
        inventory.reserve_creation(repository_id, "/a", "a", Some("key"), 4),
        Err(InventoryError::Conflict(
            "idempotency key \"key\" was already completed with state \"failed\"".to_owned()
        ))
    );
    assert!(inventory.reserve_creation(repository_id, "/a", "a", None, 4).is_ok());
}

#[test]
fn leases_belong_to_one_session_at_a_time() {
    let (mut inventory, records) = filled();
    let id = records[0].id;
    inventory.register_session(session("one", id, 10)).expect("registered");
    inventory.register_session(session("two", id, 10)).expect("registered");
    inventory.acquire_lease(id, "one", 10, 10).expect("leased");
    assert_eq!(
        inventory.acquire_lease(id, "two", 10, 15),
        Err(InventoryError::Conflict(format!("worktree {id} is leased by session \"one\"")))
    );
    let taken = inventory.acquire_lease(id, "two", 10, 20).expect("the lease ran out");
    assert_eq!(taken.expires_at, 30);
    assert_eq!(inventory.active_lease_for_worktree(id), Some(taken.clone()));
    assert_eq!(
        inventory.active_lease_for_session("two", 29).expect("readable"),
        Some(taken.clone())
    );
    assert_eq!(inventory.active_lease_for_session("two", 30).expect("readable"), None);
    assert_eq!(
        inventory.acquire_lease(id, "nobody", 10, 20),
        Err(InventoryError::Conflict("session \"nobody\" is not registered".to_owned()))
    );
    let other = records[1].id;
    assert_eq!(
        inventory.acquire_lease(other, "two", 10, 20),
        Err(InventoryError::Conflict(format!(
            "session \"two\" belongs to worktree {id}, not {other}"
        )))
    );
    assert_eq!(
        inventory.acquire_lease(id, "two", 0, 20),
        Err(InventoryError::InvalidData("lease TTL must be positive".to_owned()))
    );
    let renewed = inventory.renew_lease("two", 100, 25).expect("renewed").expect("there");
    assert_eq!(renewed.expires_at, 125);
    assert_eq!(inventory.renew_lease("one", 100, 25).expect("nothing to renew"), None);
    let released = inventory.release_lease("two", 26).expect("released");
    assert_eq!(released.len(), 1);
    assert_eq!(released[0].state, "released");
    assert_eq!(inventory.leases_for_session("one").expect("readable").len(), 1);
}

#[test]
fn expiry_times_do_not_overflow() {
    assert_eq!(add_seconds(10, 5), 15);
    assert_eq!(add_seconds(i64::MAX, 1), i64::MAX);
    assert_eq!(add_seconds(i64::MIN, -1), i64::MIN);
}

#[test]
fn sessions_belong_to_one_worktree_and_provider() {
    let (mut inventory, records) = filled();
    let id = records[0].id;
    let first = inventory.register_session(session("one", id, 10)).expect("registered");
    assert_eq!(first.state, "active");
    let again = inventory.register_session(session("one", id, 20)).expect("registered");
    assert_eq!(again.created_at, 10);
    assert_eq!(again.last_seen_at, 20);
    assert_eq!(
        inventory.register_session(session("one", records[1].id, 20)),
        Err(InventoryError::Conflict(
            "session \"one\" is already registered to another worktree or provider".to_owned()
        ))
    );
    assert_eq!(
        inventory.register_session(session("", id, 20)),
        Err(InventoryError::InvalidData("session id and provider cannot be empty".to_owned()))
    );
    let touched = inventory.touch_session("one", 30).expect("touched").expect("there");
    assert_eq!(touched.last_seen_at, 30);
    assert_eq!(inventory.touch_session("none", 30).expect("nobody"), None);
    let released = inventory.release_session("one", 40).expect("released").expect("there");
    assert_eq!(released.state, "released");
}

#[test]
fn session_changes_and_their_events_come_together() {
    let (mut inventory, records) = filled();
    let id = records[0].id;
    let repository_id = records[0].repository_id;
    let metadata = EventMetadata {
        repository_id,
        worktree_id: Some(id),
        occurred_at: 10,
        actor: "test",
        action: "register_session",
        result: "succeeded",
    };
    let registered = inventory
        .register_session_with_lease_and_event_builder(
            session("one", id, 10),
            Some(60),
            metadata,
            |session, lease| format!("{} {}", session.id, lease.map_or(0, |lease| lease.id)),
        )
        .expect("registered");
    assert_eq!(registered.lease.expect("leased").expires_at, 70);
    assert_eq!(inventory.events(repository_id)[0].details_json, "one 1");
    let before = inventory.clone();
    let refused = inventory.acquire_lease_with_event(
        id,
        "nobody",
        60,
        11,
        event(repository_id, Some(id), "succeeded"),
    );
    assert!(refused.is_err());
    assert_eq!(inventory, before);
    inventory
        .heartbeat_session_with_lease_and_event(
            "one",
            Some(60),
            20,
            event(repository_id, Some(id), "succeeded"),
        )
        .expect("heard");
    assert_eq!(inventory.leases[0].expires_at, 80);
    inventory
        .release_session_with_event("one", 30, event(repository_id, Some(id), "succeeded"))
        .expect("released");
    assert_eq!(inventory.leases[0].state, "released");
    assert_eq!(inventory.events(repository_id).len(), 3);
}

#[test]
fn identifiers_are_not_reused_for_other_operations() {
    let mut inventory = Inventory::new();
    inventory.begin_request("one", "create:1", 1).expect("started");
    assert_eq!(
        inventory.begin_request("one", "create:2", 2),
        Err(InventoryError::Conflict(
            "request id \"one\" was already used for operation \"create:1\"".to_owned()
        ))
    );
    assert_eq!(
        inventory.begin_request("", "create:2", 2),
        Err(InventoryError::InvalidData("request id and operation cannot be empty".to_owned()))
    );
    inventory.fail_request("one", 3).expect("failed");
    assert_eq!(
        inventory.request_by_id("one").expect("readable").expect("there").state,
        "failed"
    );
    assert_eq!(inventory.begin_request("one", "create:1", 4).expect("again").state, "started");
}

#[test]
fn removed_and_created_worktrees_are_marked() {
    let (mut inventory, records) = filled();
    let repository_id = records[0].repository_id;
    inventory.mark_created(records[0].id, 150).expect("marked");
    inventory.mark_removed(repository_id, "/feature", 160).expect("marked");
    let row = inventory
        .worktree_by_path(repository_id, "/feature")
        .expect("readable")
        .expect("there");
    assert_eq!(row.created_at, Some(150));
    assert_eq!(row.lifecycle_state, "removed");
    assert_eq!(row.removed_at, Some(160));
}

#[test]
fn identity_keys_name_the_file() {
    let unix = InventoryFileIdentity::Unix {
        device: 26,
        inode: 255,
        change_time: 10,
        change_time_nanoseconds: 20,
    };
    assert_eq!(unix.key(), "unix:1a:ff");
    let mac = InventoryFileIdentity::Mac {
        device: 26,
        inode: 255,
        birth_time: 10,
        birth_time_nanoseconds: 20,
    };
    assert_eq!(mac.key(), "macos:1a:ff:10:20");
    assert_eq!(InventoryFileIdentity::Path("/i".to_owned()).key(), "/i");
    assert_eq!(InventoryFileIdentity::ensure_path_identity(&unix, &unix), Ok(()));
    assert_eq!(
        InventoryFileIdentity::ensure_path_identity(&unix, &mac),
        Err(InventoryError::InvalidData(
            "inventory database was replaced while it was open".to_owned()
        ))
    );
    assert_eq!(
        InventoryFileIdentity::ensure_unchanged_while_opening(&unix, &mac),
        Err(InventoryError::InvalidData(
            "inventory database changed while it was opening".to_owned()
        ))
    );
}

#[test]
fn inventory_errors_explain_themselves() {
    assert_eq!(
        InventoryError::Conflict("taken".to_owned()).to_text(),
        "inventory conflict: taken"
    );
    assert_eq!(
        InventoryError::InvalidData("odd".to_owned()).to_text(),
        "invalid inventory data: odd"
    );
}
