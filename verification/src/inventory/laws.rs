//! What every operation on the inventory keeps.

use crate::git::repository::GitRepositoryView;
use crate::inventory::records::EventInputView;
use crate::inventory::records::EventRecordView;
use crate::inventory::records::LeaseRecordView;
use crate::inventory::records::RepositoryRecordView;
use crate::inventory::records::RequestRecordView;
use crate::inventory::records::ReservationRecordView;
use crate::inventory::records::SessionInputView;
use crate::inventory::records::SessionRecordView;
use crate::inventory::records::WorktreeRecordView;
use crate::inventory::reservations::holds;
use crate::inventory::sessions::later;
use crate::inventory::state::event_ids;
use crate::inventory::state::fresh_id;
use crate::inventory::state::lease_ids;
use crate::inventory::state::lemma_largest;
use crate::inventory::state::repository_ids;
use crate::inventory::state::reservation_ids;
use crate::inventory::state::worktree_ids;
use crate::inventory::state::InventoryView;
use crate::inventory::table::lemma_first_match;
use crate::inventory::worktrees::keeps_branch;
use crate::inventory::worktrees::worktree_again;
use crate::inventory::worktrees::worktree_row;
use crate::inventory::worktrees::ListedWorktreeView;
use vstd::prelude::*;

verus! {

/// Whether no two rows have the same key. Rows without a key do not count.
pub open spec fn distinct<V, K>(rows: Seq<V>, key: spec_fn(V) -> Option<K>) -> bool {
    forall|i: int, j: int|
        #![trigger rows[i], rows[j]]
        0 <= i < j < rows.len() && key(rows[i]) is Some ==> key(rows[i]) != key(rows[j])
}

// ---------------------------------------------------------------------------
// Keys
// ---------------------------------------------------------------------------

pub open spec fn repository_key() -> spec_fn(RepositoryRecordView) -> Option<i64> {
    |row: RepositoryRecordView| Some(row.id)
}

pub open spec fn git_dir_key() -> spec_fn(RepositoryRecordView) -> Option<Seq<char>> {
    |row: RepositoryRecordView| Some(row.common_git_dir)
}

pub open spec fn worktree_key() -> spec_fn(WorktreeRecordView) -> Option<i64> {
    |row: WorktreeRecordView| Some(row.id)
}

pub open spec fn place_key() -> spec_fn(WorktreeRecordView) -> Option<(i64, Seq<char>)> {
    |row: WorktreeRecordView| Some((row.repository_id, row.path))
}

/// Only worktrees that keep a branch to themselves have this key.
pub open spec fn branch_key() -> spec_fn(WorktreeRecordView) -> Option<(i64, Seq<char>)> {
    |row: WorktreeRecordView|
        if keeps_branch(row) {
            Some((row.repository_id, row.branch->0))
        } else {
            None
        }
}

pub open spec fn session_key() -> spec_fn(SessionRecordView) -> Option<Seq<char>> {
    |row: SessionRecordView| Some(row.id)
}

pub open spec fn lease_key() -> spec_fn(LeaseRecordView) -> Option<i64> {
    |row: LeaseRecordView| Some(row.id)
}

/// Only active leases have this key.
pub open spec fn leased_key() -> spec_fn(LeaseRecordView) -> Option<i64> {
    |row: LeaseRecordView|
        if row.state == "active"@ {
            Some(row.worktree_id)
        } else {
            None
        }
}

pub open spec fn event_key() -> spec_fn(EventRecordView) -> Option<i64> {
    |row: EventRecordView| Some(row.id)
}

pub open spec fn reservation_key() -> spec_fn(ReservationRecordView) -> Option<i64> {
    |row: ReservationRecordView| Some(row.id)
}

/// Only reservations that hold their path have this key.
pub open spec fn held_path_key() -> spec_fn(ReservationRecordView) -> Option<(i64, Seq<char>)> {
    |row: ReservationRecordView|
        if holds(row.state) {
            Some((row.repository_id, row.path))
        } else {
            None
        }
}

/// Only reservations that hold their branch have this key.
pub open spec fn held_branch_key() -> spec_fn(ReservationRecordView) -> Option<(i64, Seq<char>)> {
    |row: ReservationRecordView|
        if holds(row.state) {
            Some((row.repository_id, row.branch))
        } else {
            None
        }
}

/// Only reservations made with a key have this one.
pub open spec fn idempotency_key() -> spec_fn(ReservationRecordView) -> Option<(i64, Seq<char>)> {
    |row: ReservationRecordView|
        match row.idempotency_key {
            Some(key) => Some((row.repository_id, key)),
            None => None,
        }
}

pub open spec fn request_key() -> spec_fn(RequestRecordView) -> Option<Seq<char>> {
    |row: RequestRecordView| Some(row.id)
}

impl InventoryView {
    /// Whether each worktree has at most one active lease.
    pub open spec fn leases_exclusive(self) -> bool {
        distinct(self.leases, leased_key())
    }

    /// Whether every table keeps what its keys promise: identifiers are given
    /// once, a worktree has at most one active lease, a branch is kept by at most
    /// one worktree, and a path or a branch is held by at most one reservation.
    pub open spec fn consistent(self) -> bool {
        &&& distinct(self.repositories, repository_key())
        &&& distinct(self.repositories, git_dir_key())
        &&& distinct(self.worktrees, worktree_key())
        &&& distinct(self.worktrees, place_key())
        &&& distinct(self.worktrees, branch_key())
        &&& distinct(self.sessions, session_key())
        &&& distinct(self.leases, lease_key())
        &&& self.leases_exclusive()
        &&& distinct(self.events, event_key())
        &&& distinct(self.reservations, reservation_key())
        &&& distinct(self.reservations, held_path_key())
        &&& distinct(self.reservations, held_branch_key())
        &&& distinct(self.reservations, idempotency_key())
        &&& distinct(self.requests, request_key())
    }
}

// ---------------------------------------------------------------------------
// Tables
// ---------------------------------------------------------------------------

proof fn lemma_distinct_push<V, K>(rows: Seq<V>, key: spec_fn(V) -> Option<K>, row: V)
    requires
        distinct(rows, key),
        key(row) is Some ==> forall|i: int| 0 <= i < rows.len() ==> key(
            #[trigger] rows[i]
        ) != key(row),
    ensures
        distinct(rows.push(row), key),
{
    let after = rows.push(row);
    assert forall|i: int, j: int|
        #![trigger after[i], after[j]]
        0 <= i < j < after.len() && key(after[i]) is Some implies key(after[i]) != key(after[j]) by {
        assert(after[i] == rows[i]);
        if j < rows.len() {
            assert(after[j] == rows[j]);
        }
    }
}

proof fn lemma_distinct_map<V, K>(
    rows: Seq<V>,
    key: spec_fn(V) -> Option<K>,
    change: spec_fn(V) -> V,
)
    requires
        distinct(rows, key),
        forall|i: int|
            0 <= i < rows.len() ==> key(change(#[trigger] rows[i])) is None || key(change(rows[i]))
                == key(rows[i]),
    ensures
        distinct(rows.map_values(change), key),
{
    let after = rows.map_values(change);
    assert forall|i: int, j: int|
        #![trigger after[i], after[j]]
        0 <= i < j < after.len() && key(after[i]) is Some implies key(after[i]) != key(after[j]) by {
        assert(after[i] == change(rows[i]));
        assert(after[j] == change(rows[j]));
    }
}

/// One row changes its key to one that no other row has.
proof fn lemma_distinct_change<V, K>(
    rows: Seq<V>,
    key: spec_fn(V) -> Option<K>,
    change: spec_fn(V) -> V,
    place: int,
)
    requires
        distinct(rows, key),
        0 <= place < rows.len(),
        forall|i: int| 0 <= i < rows.len() && i != place ==> change(#[trigger] rows[i]) == rows[i],
        key(change(rows[place])) is Some ==> forall|i: int|
            0 <= i < rows.len() && i != place ==> key(#[trigger] rows[i]) != key(
                change(rows[place]),
            ),
    ensures
        distinct(rows.map_values(change), key),
{
    let after = rows.map_values(change);
    assert forall|i: int, j: int|
        #![trigger after[i], after[j]]
        0 <= i < j < after.len() && key(after[i]) is Some implies key(after[i]) != key(after[j]) by {
        assert(after[i] == change(rows[i]));
        assert(after[j] == change(rows[j]));
    }
}

pub proof fn lemma_same_key<V, K>(rows: Seq<V>, key: spec_fn(V) -> Option<K>, i: int, j: int)
    requires
        distinct(rows, key),
        0 <= i < rows.len(),
        0 <= j < rows.len(),
        key(rows[i]) is Some,
        key(rows[i]) == key(rows[j]),
    ensures
        i == j,
{
    if i < j {
        assert(key(rows[i]) != key(rows[j]));
    } else if j < i {
        assert(key(rows[j]) != key(rows[i]));
    }
}

proof fn lemma_fresh(ids: Seq<i64>)
    requires
        fresh_id(ids) is Some,
    ensures
        forall|i: int| 0 <= i < ids.len() ==> #[trigger] ids[i] < fresh_id(ids)->0,
{
    lemma_largest(ids);
}

/// An inventory without rows is consistent.
pub proof fn new_inventory_is_consistent()
    ensures
        InventoryView::nothing().consistent(),
{
}

// ---------------------------------------------------------------------------
// Leases and sessions
// ---------------------------------------------------------------------------

proof fn lemma_leases_changed(
    before: InventoryView,
    after: InventoryView,
    change: spec_fn(LeaseRecordView) -> LeaseRecordView,
)
    requires
        before.consistent(),
        after == (InventoryView { leases: before.leases.map_values(change), ..before }),
        forall|row: LeaseRecordView| (#[trigger] change(row)).id == row.id,
        forall|i: int|
            0 <= i < before.leases.len() && change(#[trigger] before.leases[i]).state == "active"@
                ==> before.leases[i].state == "active"@ && change(before.leases[i]).worktree_id
                == before.leases[i].worktree_id,
    ensures
        after.consistent(),
{
    lemma_distinct_map(before.leases, lease_key(), change);
    lemma_distinct_map(before.leases, leased_key(), change);
}

proof fn lemma_sessions_changed(
    before: InventoryView,
    after: InventoryView,
    change: spec_fn(SessionRecordView) -> SessionRecordView,
)
    requires
        before.consistent(),
        after == (InventoryView { sessions: before.sessions.map_values(change), ..before }),
        forall|row: SessionRecordView| (#[trigger] change(row)).id == row.id,
    ensures
        after.consistent(),
{
    lemma_distinct_map(before.sessions, session_key(), change);
}

pub proof fn lemma_active_differs()
    ensures
        "active"@ != "expired"@,
        "active"@ != "released"@,
        "active"@ != "stale"@,
{
    reveal_strlit("active");
    reveal_strlit("expired");
    reveal_strlit("released");
    reveal_strlit("stale");
    assert("active"@.len() == 6);
    assert("expired"@.len() == 7);
    assert("released"@.len() == 8);
    assert("stale"@.len() == 5);
}

/// Expiring the leases that have run out keeps the inventory consistent.
pub proof fn expiring_keeps_consistent(inventory: InventoryView, now: i64)
    requires
        inventory.consistent(),
    ensures
        inventory.with_leases_expired(now).consistent(),
{
    lemma_active_differs();
    let change = |row: LeaseRecordView|
        if row.state == "active"@ && row.expires_at <= now {
            LeaseRecordView { state: "expired"@, renewed_at: now, ..row }
        } else {
            row
        };
    lemma_leases_changed(inventory, inventory.with_leases_expired(now), change);
}

proof fn lemma_worktree_expired(inventory: InventoryView, worktree_id: i64, now: i64)
    requires
        inventory.consistent(),
    ensures
        inventory.with_worktree_leases_expired(worktree_id, now).consistent(),
{
    lemma_active_differs();
    let change = |row: LeaseRecordView|
        if row.worktree_id == worktree_id && row.state == "active"@ && row.expires_at <= now {
            LeaseRecordView { state: "expired"@, renewed_at: now, ..row }
        } else {
            row
        };
    lemma_leases_changed(
        inventory,
        inventory.with_worktree_leases_expired(worktree_id, now),
        change,
    );
}

/// Leaving behind the sessions of a worktree keeps the inventory consistent.
pub proof fn abandoning_keeps_consistent(inventory: InventoryView, worktree_id: i64, now: i64)
    requires
        inventory.consistent(),
    ensures
        inventory.with_worktree_abandoned(worktree_id, now).consistent(),
{
    lemma_active_differs();
    let end = |row: LeaseRecordView|
        if row.worktree_id == worktree_id && row.state == "active"@ {
            LeaseRecordView { state: "expired"@, renewed_at: now, ..row }
        } else {
            row
        };
    let ended = inventory.with_worktree_leases_ended(worktree_id, now);
    lemma_leases_changed(inventory, ended, end);
    let leave = |row: SessionRecordView|
        if row.worktree_id == worktree_id && row.state == "active"@ {
            SessionRecordView { state: "stale"@, last_seen_at: now, ..row }
        } else {
            row
        };
    lemma_sessions_changed(ended, ended.with_worktree_sessions_stale(worktree_id, now), leave);
}

/// Giving up the leases of a session keeps the inventory consistent.
pub proof fn releasing_leases_keeps_consistent(
    inventory: InventoryView,
    session_id: Seq<char>,
    now: i64,
)
    requires
        inventory.consistent(),
    ensures
        inventory.with_session_leases_released(session_id, now).consistent(),
{
    lemma_active_differs();
    let change = |row: LeaseRecordView|
        if row.session_id == session_id && row.state == "active"@ {
            LeaseRecordView { state: "released"@, renewed_at: now, ..row }
        } else {
            row
        };
    lemma_leases_changed(
        inventory,
        inventory.with_session_leases_released(session_id, now),
        change,
    );
}

/// Ending a session keeps the inventory consistent.
pub proof fn ending_session_keeps_consistent(
    inventory: InventoryView,
    session_id: Seq<char>,
    now: i64,
)
    requires
        inventory.consistent(),
    ensures
        inventory.release_session(session_id, now) matches Ok((after, _)) ==> after.consistent(),
{
    releasing_leases_keeps_consistent(inventory, session_id, now);
    let released = inventory.with_session_leases_released(session_id, now);
    let change = |row: SessionRecordView|
        if row.id == session_id {
            SessionRecordView { state: "released"@, last_seen_at: now, ..row }
        } else {
            row
        };
    lemma_sessions_changed(released, released.with_session_ended(session_id, now), change);
}

/// Noting that a session was seen keeps the inventory consistent.
pub proof fn touching_keeps_consistent(inventory: InventoryView, session_id: Seq<char>, now: i64)
    requires
        inventory.consistent(),
    ensures
        inventory.with_session_touched(session_id, now).consistent(),
{
    let change = |row: SessionRecordView|
        if row.id == session_id && row.state == "active"@ {
            SessionRecordView { last_seen_at: now, ..row }
        } else {
            row
        };
    lemma_sessions_changed(inventory, inventory.with_session_touched(session_id, now), change);
}

/// Prolonging the lease of a session keeps the inventory consistent.
pub proof fn renewing_keeps_consistent(
    inventory: InventoryView,
    session_id: Seq<char>,
    ttl_seconds: i64,
    now: i64,
)
    requires
        inventory.consistent(),
    ensures
        inventory.with_session_lease_renewed(session_id, ttl_seconds, now).consistent(),
{
    let change = |row: LeaseRecordView|
        if row.session_id == session_id && row.state == "active"@ && row.expires_at > now {
            LeaseRecordView { renewed_at: now, expires_at: later(now, ttl_seconds), ..row }
        } else {
            row
        };
    lemma_leases_changed(
        inventory,
        inventory.with_session_lease_renewed(session_id, ttl_seconds, now),
        change,
    );
}

proof fn lemma_claim(
    inventory: InventoryView,
    worktree_id: i64,
    session_id: Seq<char>,
    ttl_seconds: i64,
    now: i64,
)
    requires
        inventory.consistent(),
    ensures
        inventory.claim_lease(worktree_id, session_id, ttl_seconds, now) matches Ok((after, _))
            ==> after.consistent(),
{
    let wanted = |row: LeaseRecordView| row.worktree_id == worktree_id && row.state == "active"@;
    lemma_first_match(inventory.leases, wanted);
    match inventory.worktree_lease(worktree_id) {
        Some(existing) => {
            let place = choose|i: int|
                0 <= i < inventory.leases.len() && inventory.leases[i] == existing;
            let change = |row: LeaseRecordView|
                if row.id == existing.id {
                    LeaseRecordView {
                        renewed_at: now,
                        expires_at: later(now, ttl_seconds),
                        state: "active"@,
                        ..row
                    }
                } else {
                    row
                };
            assert forall|i: int|
                0 <= i < inventory.leases.len() && change(#[trigger] inventory.leases[i]).state
                    == "active"@ implies inventory.leases[i].state == "active"@ && change(
                inventory.leases[i],
            ).worktree_id == inventory.leases[i].worktree_id by {
                if inventory.leases[i].id == existing.id {
                    lemma_same_key(inventory.leases, lease_key(), i, place);
                }
            }
            lemma_leases_changed(
                inventory,
                inventory.with_lease_renewed(existing.id, ttl_seconds, now),
                change,
            );
        },
        None => {
            if let Some(id) = fresh_id(lease_ids(inventory.leases)) {
                let row = crate::inventory::sessions::lease_row(
                    id,
                    worktree_id,
                    session_id,
                    ttl_seconds,
                    now,
                );
                lemma_fresh(lease_ids(inventory.leases));
                assert forall|i: int| 0 <= i < inventory.leases.len() implies (lease_key())(
                    #[trigger] inventory.leases[i],
                ) != (lease_key())(row) by {
                    assert(lease_ids(inventory.leases)[i] == inventory.leases[i].id);
                }
                assert forall|i: int| 0 <= i < inventory.leases.len() implies (leased_key())(
                    #[trigger] inventory.leases[i],
                ) != (leased_key())(row) by {
                    assert(!wanted(inventory.leases[i]));
                }
                lemma_distinct_push(inventory.leases, lease_key(), row);
                lemma_distinct_push(inventory.leases, leased_key(), row);
            }
        },
    }
}

/// Acquiring a lease keeps the inventory consistent: no two sessions ever hold
/// an active lease on the same worktree.
pub proof fn acquiring_keeps_consistent(
    inventory: InventoryView,
    worktree_id: i64,
    session_id: Seq<char>,
    ttl_seconds: i64,
    now: i64,
)
    requires
        inventory.consistent(),
    ensures
        inventory.take_lease(worktree_id, session_id, ttl_seconds, now) matches Ok((after, _))
            ==> after.consistent(),
        inventory.acquire_lease(worktree_id, session_id, ttl_seconds, now) matches Ok((after, _))
            ==> after.consistent(),
{
    lemma_worktree_expired(inventory, worktree_id, now);
    lemma_claim(
        inventory.with_worktree_leases_expired(worktree_id, now),
        worktree_id,
        session_id,
        ttl_seconds,
        now,
    );
}

/// Registering a session keeps the inventory consistent.
pub proof fn registering_session_keeps_consistent(inventory: InventoryView, input: SessionInputView)
    requires
        inventory.consistent(),
    ensures
        inventory.register_session(input) matches Ok((after, _)) ==> after.consistent(),
{
    let wanted = |row: SessionRecordView| row.id == input.id;
    lemma_first_match(inventory.sessions, wanted);
    let change = |row: SessionRecordView|
        if row.id == input.id {
            crate::inventory::sessions::session_again(row, input)
        } else {
            row
        };
    lemma_sessions_changed(inventory, inventory.with_session_again(input), change);
    if inventory.session(input.id) is None {
        let row = crate::inventory::sessions::session_row(input);
        assert forall|i: int| 0 <= i < inventory.sessions.len() implies (session_key())(
            #[trigger] inventory.sessions[i],
        ) != (session_key())(row) by {
            assert(!wanted(inventory.sessions[i]));
        }
        lemma_distinct_push(inventory.sessions, session_key(), row);
    }
}

/// Registering a session together with a lease keeps the inventory consistent.
pub proof fn registering_with_lease_keeps_consistent(
    inventory: InventoryView,
    input: SessionInputView,
    lease_ttl_seconds: Option<i64>,
)
    requires
        inventory.consistent(),
    ensures
        inventory.register_with_lease(input, lease_ttl_seconds) matches Ok((after, _, _))
            ==> after.consistent(),
{
    registering_session_keeps_consistent(inventory, input);
    if let Ok((registered, _)) = inventory.register_session(input) {
        if let Some(ttl) = lease_ttl_seconds {
            acquiring_keeps_consistent(registered, input.worktree_id, input.id, ttl, input.now);
        }
    }
}

/// The heartbeat of a session keeps the inventory consistent.
pub proof fn heartbeat_keeps_consistent(
    inventory: InventoryView,
    session_id: Seq<char>,
    lease_ttl_seconds: Option<i64>,
    now: i64,
)
    requires
        inventory.consistent(),
    ensures
        inventory.heartbeat(session_id, lease_ttl_seconds, now) matches Ok((after, _, _))
            ==> after.consistent(),
{
    expiring_keeps_consistent(inventory, now);
    let current = inventory.with_leases_expired(now);
    touching_keeps_consistent(current, session_id, now);
    let touched = current.with_session_touched(session_id, now);
    if let Some(ttl) = lease_ttl_seconds {
        renewing_keeps_consistent(touched, session_id, ttl, now);
        let renewed = touched.with_session_lease_renewed(session_id, ttl, now);
        if let Some(found) = current.session(session_id) {
            acquiring_keeps_consistent(renewed, found.worktree_id, session_id, ttl, now);
        }
    }
}

/// Bringing an inventory up to date leaves at most one active lease on each
/// worktree, also where there were several.
pub proof fn migration_makes_leases_exclusive(inventory: InventoryView, now: i64)
    requires
        distinct(inventory.leases, lease_key()),
    ensures
        inventory.with_latest_leases(now).leases_exclusive(),
{
    lemma_active_differs();
    let before = inventory.leases;
    let after = inventory.with_latest_leases(now).leases;
    assert forall|i: int, j: int|
        #![trigger after[i], after[j]]
        0 <= i < j < after.len() && (leased_key())(after[i]) is Some implies (leased_key())(
        after[i],
    ) != (leased_key())(after[j]) by {
        if (leased_key())(after[i]) == (leased_key())(after[j]) {
            let a = before[i];
            let b = before[j];
            assert(a.state == "active"@ && b.state == "active"@);
            assert(a.worktree_id == b.worktree_id);
            assert((lease_key())(a) != (lease_key())(b));
            let later_than_a = |row: LeaseRecordView|
                row.state == "active"@ && row.worktree_id == a.worktree_id && row.id > a.id;
            let later_than_b = |row: LeaseRecordView|
                row.state == "active"@ && row.worktree_id == b.worktree_id && row.id > b.id;
            lemma_first_match(before, later_than_a);
            lemma_first_match(before, later_than_b);
            if b.id > a.id {
                assert(later_than_a(before[j]));
                assert(inventory.later_lease(a) is Some);
            } else {
                assert(later_than_b(before[i]));
                assert(inventory.later_lease(b) is Some);
            }
        }
    }
}

// ---------------------------------------------------------------------------
// Events, requests, reservations
// ---------------------------------------------------------------------------

/// Recording an event keeps the inventory consistent, adds that event at the end
/// and changes nothing else.
pub proof fn recording_keeps_consistent(inventory: InventoryView, input: EventInputView)
    requires
        inventory.consistent(),
    ensures
        inventory.record_event(input) matches Ok((after, row)) ==> after.consistent()
            && after == (InventoryView { events: inventory.events.push(row), ..inventory }),
{
    if let Ok((after, row)) = inventory.record_event(input) {
        lemma_fresh(event_ids(inventory.events));
        assert forall|i: int| 0 <= i < inventory.events.len() implies (event_key())(
            #[trigger] inventory.events[i],
        ) != (event_key())(row) by {
            assert(event_ids(inventory.events)[i] == inventory.events[i].id);
        }
        lemma_distinct_push(inventory.events, event_key(), row);
    }
}

proof fn lemma_request_state(
    inventory: InventoryView,
    id: Seq<char>,
    state: Seq<char>,
    response_json: Option<Seq<char>>,
    now: i64,
)
    requires
        inventory.consistent(),
    ensures
        inventory.with_request_state(id, state, response_json, now).consistent(),
{
    let change = |row: RequestRecordView|
        if row.id == id {
            RequestRecordView { state, response_json, updated_at: now, ..row }
        } else {
            row
        };
    lemma_distinct_map(inventory.requests, request_key(), change);
}

/// The journal of requests keeps the inventory consistent.
pub proof fn requests_keep_consistent(
    inventory: InventoryView,
    id: Seq<char>,
    operation: Seq<char>,
    response_json: Seq<char>,
    now: i64,
)
    requires
        inventory.consistent(),
    ensures
        inventory.begin_request(id, operation, now) matches Ok((after, _)) ==> after.consistent(),
        inventory.complete_request(id, response_json, now) matches Ok((after, _))
            ==> after.consistent(),
        inventory.fail_request(id, now) matches Ok(after) ==> after.consistent(),
{
    lemma_request_state(inventory, id, "started"@, None, now);
    lemma_request_state(inventory, id, "succeeded"@, Some(response_json), now);
    lemma_request_state(inventory, id, "failed"@, None, now);
    let wanted = |row: RequestRecordView| row.id == id;
    lemma_first_match(inventory.requests, wanted);
    if inventory.request(id) is None {
        let row = RequestRecordView {
            id,
            operation,
            state: "started"@,
            response_json: None,
            created_at: now,
            updated_at: now,
        };
        assert forall|i: int| 0 <= i < inventory.requests.len() implies (request_key())(
            #[trigger] inventory.requests[i],
        ) != (request_key())(row) by {
            assert(!wanted(inventory.requests[i]));
        }
        lemma_distinct_push(inventory.requests, request_key(), row);
    }
}

/// Setting a path and a branch aside keeps the inventory consistent: two
/// creations never hold the same path or the same branch.
pub proof fn reserving_keeps_consistent(
    inventory: InventoryView,
    repository_id: i64,
    path: Seq<char>,
    branch: Seq<char>,
    key: Option<Seq<char>>,
    now: i64,
)
    requires
        inventory.consistent(),
    ensures
        inventory.reserve_creation(repository_id, path, branch, key, now) matches Ok((after, _))
            ==> after.consistent(),
{
    let rows = inventory.reservations;
    let held = |row: ReservationRecordView|
        row.repository_id == repository_id && holds(row.state) && (row.path == path || row.branch
            == branch);
    lemma_first_match(rows, held);
    if key is Some {
        let keyed = |row: ReservationRecordView|
            row.repository_id == repository_id && row.idempotency_key == Some(key->0);
        lemma_first_match(rows, keyed);
    }
    let repeated = key is Some && inventory.reservation_for_key(repository_id, key->0) is Some;
    if !repeated && inventory.make_reservation(repository_id, path, branch, key, now) is Ok {
        let row = inventory.make_reservation(repository_id, path, branch, key, now)->Ok_0.1;
        lemma_fresh(reservation_ids(rows));
        assert forall|i: int| 0 <= i < rows.len() implies (reservation_key())(#[trigger] rows[i])
            != (reservation_key())(row) by {
            assert(reservation_ids(rows)[i] == rows[i].id);
        }
        assert forall|i: int| 0 <= i < rows.len() implies (held_path_key())(#[trigger] rows[i])
            != (held_path_key())(row) by {
            assert(!held(rows[i]));
        }
        assert forall|i: int| 0 <= i < rows.len() implies (held_branch_key())(#[trigger] rows[i])
            != (held_branch_key())(row) by {
            assert(!held(rows[i]));
        }
        if key is Some {
            let keyed = |row: ReservationRecordView|
                row.repository_id == repository_id && row.idempotency_key == Some(key->0);
            assert forall|i: int| 0 <= i < rows.len() implies (idempotency_key())(
                #[trigger] rows[i],
            ) != (idempotency_key())(row) by {
                assert(!keyed(rows[i]));
            }
        }
        lemma_distinct_push(rows, reservation_key(), row);
        lemma_distinct_push(rows, held_path_key(), row);
        lemma_distinct_push(rows, held_branch_key(), row);
        lemma_distinct_push(rows, idempotency_key(), row);
    }
}

proof fn lemma_released_holds_nothing()
    ensures
        !holds("released"@),
{
    reveal_strlit("released");
    reveal_strlit("pending");
    reveal_strlit("succeeded");
    assert("released"@.len() == 8);
    assert("pending"@.len() == 7);
    assert("succeeded"@.len() == 9);
}

/// Giving up the reservation of a worktree keeps the inventory consistent.
pub proof fn releasing_reservations_keeps_consistent(
    inventory: InventoryView,
    worktree_id: i64,
    released_at: i64,
)
    requires
        inventory.consistent(),
    ensures
        inventory.with_reservations_released(worktree_id, released_at).consistent(),
{
    lemma_released_holds_nothing();
    let change = |row: ReservationRecordView|
        if row.worktree_id == Some(worktree_id) && row.state == "succeeded"@ {
            ReservationRecordView {
                state: "released"@,
                completed_at: Some(released_at),
                ..row
            }
        } else {
            row
        };
    lemma_distinct_map(inventory.reservations, reservation_key(), change);
    lemma_distinct_map(inventory.reservations, held_path_key(), change);
    lemma_distinct_map(inventory.reservations, held_branch_key(), change);
    lemma_distinct_map(inventory.reservations, idempotency_key(), change);
}

/// Giving a reservation another state keeps the inventory consistent.
pub proof fn reservation_state_keeps_consistent(
    inventory: InventoryView,
    id: i64,
    state: Seq<char>,
    worktree_id: Option<i64>,
    completed_at: Option<i64>,
)
    requires
        inventory.consistent(),
    ensures
        inventory.set_reservation_state(id, state, worktree_id, completed_at) matches Ok(after)
            ==> after.consistent(),
{
    let rows = inventory.reservations;
    let wanted = |row: ReservationRecordView| row.id == id;
    lemma_first_match(rows, wanted);
    let change = |row: ReservationRecordView|
        if row.id == id {
            ReservationRecordView { state, worktree_id, completed_at, ..row }
        } else {
            row
        };
    if let Ok(after) = inventory.set_reservation_state(id, state, worktree_id, completed_at) {
        match inventory.reservation(id) {
            None => {
                assert forall|i: int| 0 <= i < rows.len() implies change(#[trigger] rows[i])
                    == rows[i] by {
                    assert(!wanted(rows[i]));
                }
                assert(rows.map_values(change) =~= rows);
            },
            Some(own) => {
                let place = choose|i: int| 0 <= i < rows.len() && rows[i] == own;
                let by_path = |row: ReservationRecordView|
                    row.id != own.id && row.repository_id == own.repository_id && holds(row.state)
                        && row.path == own.path;
                let by_branch = |row: ReservationRecordView|
                    row.id != own.id && row.repository_id == own.repository_id && holds(row.state)
                        && row.branch == own.branch;
                lemma_first_match(rows, by_path);
                lemma_first_match(rows, by_branch);
                assert forall|i: int| 0 <= i < rows.len() && i != place implies change(
                    #[trigger] rows[i],
                ) == rows[i] && rows[i].id != own.id by {
                    if rows[i].id == id {
                        lemma_same_key(rows, reservation_key(), i, place);
                    }
                }
                assert forall|i: int| 0 <= i < rows.len() && i != place && holds(state) implies (
                held_path_key())(#[trigger] rows[i]) != (held_path_key())(change(rows[place])) by {
                    assert(!by_path(rows[i]));
                }
                assert forall|i: int| 0 <= i < rows.len() && i != place && holds(state) implies (
                held_branch_key())(#[trigger] rows[i]) != (held_branch_key())(
                    change(rows[place]),
                ) by {
                    assert(!by_branch(rows[i]));
                }
                lemma_distinct_map(rows, reservation_key(), change);
                lemma_distinct_map(rows, idempotency_key(), change);
                lemma_distinct_change(rows, held_path_key(), change, place);
                lemma_distinct_change(rows, held_branch_key(), change, place);
            },
        }
    }
}

// ---------------------------------------------------------------------------
// Repositories and worktrees
// ---------------------------------------------------------------------------

/// Registering a repository keeps the inventory consistent.
pub proof fn registering_repository_keeps_consistent(
    inventory: InventoryView,
    repository: GitRepositoryView,
    now: i64,
)
    requires
        inventory.consistent(),
    ensures
        inventory.register_repository(
            repository,
            now,
        ) matches Ok((after, _)) ==> after.consistent(),
{
    let rows = inventory.repositories;
    let wanted = |row: RepositoryRecordView| row.common_git_dir == repository.common_git_dir;
    lemma_first_match(rows, wanted);
    if let Ok((after, row)) = inventory.register_repository(repository, now) {
        if inventory.repository_at(repository.common_git_dir) is Some {
            let change = |row: RepositoryRecordView|
                if row.common_git_dir == repository.common_git_dir {
                    crate::inventory::worktrees::repository_again(row, repository, now)
                } else {
                    row
                };
            lemma_distinct_map(rows, repository_key(), change);
            lemma_distinct_map(rows, git_dir_key(), change);
        } else {
            lemma_fresh(repository_ids(rows));
            assert forall|i: int| 0 <= i < rows.len() implies (repository_key())(
                #[trigger] rows[i],
            ) != (repository_key())(row) by {
                assert(repository_ids(rows)[i] == rows[i].id);
            }
            assert forall|i: int| 0 <= i < rows.len() implies (git_dir_key())(#[trigger] rows[i])
                != (git_dir_key())(row) by {
                assert(!wanted(rows[i]));
            }
            lemma_distinct_push(rows, repository_key(), row);
            lemma_distinct_push(rows, git_dir_key(), row);
        }
    }
}

/// A single worktree row changes: identifiers and places stay, and its branch is
/// its own.
proof fn lemma_worktree_changed(
    inventory: InventoryView,
    change: spec_fn(WorktreeRecordView) -> WorktreeRecordView,
    place: int,
)
    requires
        inventory.consistent(),
        0 <= place < inventory.worktrees.len(),
        forall|i: int|
            0 <= i < inventory.worktrees.len() && i != place ==> change(
                #[trigger] inventory.worktrees[i],
            ) == inventory.worktrees[i],
        change(inventory.worktrees[place]).id == inventory.worktrees[place].id,
        change(inventory.worktrees[place]).repository_id
            == inventory.worktrees[place].repository_id,
        change(inventory.worktrees[place]).path == inventory.worktrees[place].path,
        !inventory.branch_clash(change(inventory.worktrees[place])),
    ensures
        (InventoryView {
            worktrees: inventory.worktrees.map_values(change),
            ..inventory
        }).consistent(),
{
    let rows = inventory.worktrees;
    let own = change(rows[place]);
    let keeper = |row: WorktreeRecordView|
        row.id != own.id && row.repository_id == own.repository_id && keeps_branch(row)
            && row.branch == own.branch;
    lemma_first_match(rows, keeper);
    assert forall|i: int| 0 <= i < rows.len() && i != place && keeps_branch(own) implies (
    branch_key())(#[trigger] rows[i]) != (branch_key())(own) by {
        if rows[i].id == own.id {
            lemma_same_key(rows, worktree_key(), i, place);
        }
        assert(!keeper(rows[i]));
    }
    assert forall|i: int| 0 <= i < rows.len() implies (worktree_key())(change(#[trigger] rows[i]))
        == (worktree_key())(rows[i]) by {}
    assert forall|i: int| 0 <= i < rows.len() implies (place_key())(change(#[trigger] rows[i]))
        == (place_key())(rows[i]) by {}
    lemma_distinct_map(rows, worktree_key(), change);
    lemma_distinct_map(rows, place_key(), change);
    lemma_distinct_change(rows, branch_key(), change, place);
}

/// Entering a listed worktree keeps the inventory consistent: a branch is never
/// kept by two worktrees.
pub proof fn entering_keeps_consistent(
    inventory: InventoryView,
    repository_id: i64,
    listed: ListedWorktreeView,
    now: i64,
)
    requires
        inventory.consistent(),
    ensures
        inventory.enter_worktree(
            repository_id,
            listed,
            now,
        ) matches Ok(after) ==> after.consistent(),
{
    let rows = inventory.worktrees;
    let path = listed.worktree.path;
    let wanted = |row: WorktreeRecordView| row.repository_id == repository_id && row.path == path;
    lemma_first_match(rows, wanted);
    if let Ok(after) = inventory.enter_worktree(repository_id, listed, now) {
        match inventory.worktree_at(repository_id, path) {
            Some(existing) => {
                let place = choose|i: int| 0 <= i < rows.len() && rows[i] == existing;
                let change = |row: WorktreeRecordView|
                    if row.repository_id == repository_id && row.path == path {
                        worktree_again(row, listed, now)
                    } else {
                        row
                    };
                assert forall|i: int| 0 <= i < rows.len() && i != place implies change(
                    #[trigger] rows[i],
                ) == rows[i] by {
                    if wanted(rows[i]) {
                        lemma_same_key(rows, place_key(), i, place);
                    }
                }
                lemma_worktree_changed(inventory, change, place);
            },
            None => {
                lemma_fresh(worktree_ids(rows));
                let row = worktree_row(
                    fresh_id(worktree_ids(rows))->0,
                    repository_id,
                    listed,
                    now,
                );
                let keeper = |other: WorktreeRecordView|
                    other.id != row.id && other.repository_id == row.repository_id && keeps_branch(
                        other,
                    ) && other.branch == row.branch;
                lemma_first_match(rows, keeper);
                assert forall|i: int| 0 <= i < rows.len() implies (worktree_key())(
                    #[trigger] rows[i],
                ) != (worktree_key())(row) by {
                    assert(worktree_ids(rows)[i] == rows[i].id);
                }
                assert forall|i: int| 0 <= i < rows.len() implies (place_key())(#[trigger] rows[i])
                    != (place_key())(row) by {
                    assert(!wanted(rows[i]));
                }
                assert forall|i: int| 0 <= i < rows.len() && keeps_branch(row) implies (
                branch_key())(#[trigger] rows[i]) != (branch_key())(row) by {
                    assert(worktree_ids(rows)[i] == rows[i].id);
                    assert(!keeper(rows[i]));
                }
                lemma_distinct_push(rows, worktree_key(), row);
                lemma_distinct_push(rows, place_key(), row);
                lemma_distinct_push(rows, branch_key(), row);
            },
        }
    }
}

proof fn lemma_lost(inventory: InventoryView, id: i64, state: Seq<char>, now: i64)
    requires
        inventory.consistent(),
        state == "removed"@ || state == "missing"@,
    ensures
        inventory.with_worktree_lost(id, state, now).consistent(),
{
    let change = |row: WorktreeRecordView|
        if row.id == id {
            WorktreeRecordView { lifecycle_state: state, last_seen_at: now, ..row }
        } else {
            row
        };
    lemma_distinct_map(inventory.worktrees, worktree_key(), change);
    lemma_distinct_map(inventory.worktrees, place_key(), change);
    lemma_distinct_map(inventory.worktrees, branch_key(), change);
}

proof fn lemma_settled(
    inventory: InventoryView,
    known: Seq<WorktreeRecordView>,
    listed: Seq<ListedWorktreeView>,
    now: i64,
)
    requires
        inventory.consistent(),
    ensures
        inventory.settle_worktrees(known, listed, now).consistent(),
    decreases known.len(),
{
    if known.len() > 0 {
        let before = inventory.settle_worktrees(known.drop_last(), listed, now);
        lemma_settled(inventory, known.drop_last(), listed, now);
        let id = known.last().id;
        releasing_reservations_keeps_consistent(before, id, now);
        abandoning_keeps_consistent(before.with_reservations_released(id, now), id, now);
        let state = before.lost_state(id);
        lemma_lost(before, id, state, now);
        let lost = before.with_worktree_lost(id, state, now);
        releasing_reservations_keeps_consistent(lost, id, now);
        abandoning_keeps_consistent(lost.with_reservations_released(id, now), id, now);
    }
}

proof fn lemma_entered(
    inventory: InventoryView,
    repository_id: i64,
    listed: Seq<ListedWorktreeView>,
    now: i64,
)
    requires
        inventory.consistent(),
    ensures
        inventory.enter_worktrees(
            repository_id,
            listed,
            now,
        ) matches Ok(after) ==> after.consistent(),
    decreases listed.len(),
{
    if listed.len() > 0 {
        lemma_entered(inventory, repository_id, listed.drop_last(), now);
        if let Ok(before) = inventory.enter_worktrees(repository_id, listed.drop_last(), now) {
            entering_keeps_consistent(before, repository_id, listed.last(), now);
        }
    }
}

/// Reconciling a repository with what Git lists keeps the inventory consistent,
/// also where it fails.
pub proof fn reconciling_keeps_consistent(
    inventory: InventoryView,
    repository: GitRepositoryView,
    listed: Seq<ListedWorktreeView>,
    now: i64,
)
    requires
        inventory.consistent(),
    ensures
        inventory.reconcile_repository(repository, listed, now).0.consistent(),
{
    registering_repository_keeps_consistent(inventory, repository, now);
    if let Ok((registered, record)) = inventory.register_repository(repository, now) {
        lemma_entered(registered, record.id, listed, now);
        if let Ok(entered) = registered.enter_worktrees(record.id, listed, now) {
            lemma_settled(entered, entered.worktree_rows(record.id), listed, now);
        }
    }
}

/// Noting that a worktree was created keeps the inventory consistent.
pub proof fn creating_keeps_consistent(inventory: InventoryView, id: i64, created_at: i64)
    requires
        inventory.consistent(),
    ensures
        inventory.mark_created(id, created_at) matches Ok(after) ==> after.consistent(),
{
    let rows = inventory.worktrees;
    let wanted = |row: WorktreeRecordView| row.id == id;
    lemma_first_match(rows, wanted);
    let change = |row: WorktreeRecordView|
        if row.id == id {
            WorktreeRecordView {
                created_at: Some(created_at),
                lifecycle_state: "active"@,
                removed_at: None,
                ..row
            }
        } else {
            row
        };
    if inventory.mark_created(id, created_at) is Ok {
        match inventory.worktree_with_id(id) {
            Some(own) => {
                let place = choose|i: int| 0 <= i < rows.len() && rows[i] == own;
                assert forall|i: int| 0 <= i < rows.len() && i != place implies change(
                    #[trigger] rows[i],
                ) == rows[i] by {
                    if wanted(rows[i]) {
                        lemma_same_key(rows, worktree_key(), i, place);
                    }
                }
                lemma_worktree_changed(inventory, change, place);
            },
            None => {
                assert forall|i: int| 0 <= i < rows.len() implies change(#[trigger] rows[i])
                    == rows[i] by {
                    assert(!wanted(rows[i]));
                }
                assert(rows.map_values(change) =~= rows);
            },
        }
    }
}

/// Noting that a worktree was removed keeps the inventory consistent.
pub proof fn removing_keeps_consistent(
    inventory: InventoryView,
    repository_id: i64,
    path: Seq<char>,
    removed_at: i64,
)
    requires
        inventory.consistent(),
    ensures
        inventory.mark_removed(repository_id, path, removed_at) matches Ok(after)
            ==> after.consistent(),
{
    let change = |row: WorktreeRecordView|
        if row.repository_id == repository_id && row.path == path {
            WorktreeRecordView {
                lifecycle_state: "removed"@,
                removed_at: Some(removed_at),
                last_seen_at: removed_at,
                ..row
            }
        } else {
            row
        };
    lemma_distinct_map(inventory.worktrees, worktree_key(), change);
    lemma_distinct_map(inventory.worktrees, place_key(), change);
    lemma_distinct_map(inventory.worktrees, branch_key(), change);
}

} // verus!
