//! What the operations write into the columns of the inventory, and what they leave.

use crate::git::repository::GitRepositoryView;
use crate::inventory::records::EventInputView;
use crate::inventory::records::LeaseRecordView;
use crate::inventory::records::option_fault;
use crate::inventory::records::RepositoryRecordView;
use crate::inventory::records::RequestRecordView;
use crate::inventory::records::ReservationRecordView;
use crate::inventory::records::SessionInputView;
use crate::inventory::records::SessionRecordView;
use crate::inventory::records::text_fault;
use crate::inventory::records::WorktreeRecordView;
use crate::inventory::reservations::holds;
use crate::inventory::sessions::add_seconds;
use crate::inventory::state::event_ids;
use crate::inventory::state::fresh_id;
use crate::inventory::state::Inventory;
use crate::inventory::state::InventoryView;
use crate::inventory::state::largest;
use crate::inventory::state::lemma_largest;
use crate::inventory::state::reservation_ids;
use crate::inventory::state::worktree_ids;
use crate::inventory::table::lemma_first_match;
use crate::inventory::worktrees::keeps_branch;
use crate::inventory::worktrees::ListedWorktreeView;
use crate::inventory::worktrees::worktree_again;
use crate::inventory::worktrees::worktree_row;
use vstd::prelude::*;

verus! {

/// A moment some seconds on, kept within 64 bits.
pub open spec fn moment_after(now: i64, seconds: i64) -> int {
    if now + seconds > i64::MAX {
        i64::MAX as int
    } else if now + seconds < i64::MIN {
        i64::MIN as int
    } else {
        now + seconds
    }
}

/// Seconds are added to a moment, as far as 64 bits can tell.
pub proof fn seconds_are_added(now: i64, seconds: i64, moment: i64)
    requires
        call_ensures(add_seconds, (now, seconds), moment),
    ensures
        i64::MIN <= now + seconds <= i64::MAX ==> moment == now + seconds,
        now + seconds > i64::MAX ==> moment == i64::MAX,
        now + seconds < i64::MIN ==> moment == i64::MIN,
{
}

// ---------------------------------------------------------------------------
// Events
// ---------------------------------------------------------------------------

/// An event is recorded behind all others, with everything that was told of it and with
/// an identifier above all others. Nothing else in the inventory changes.
pub proof fn event_is_recorded_as_told(inventory: InventoryView, input: EventInputView)
    ensures
        inventory.record_event(input) matches Ok((after, row)) ==> {
            &&& after == (InventoryView { events: inventory.events.push(row), ..inventory })
            &&& row.repository_id == input.repository_id
            &&& row.worktree_id == input.worktree_id
            &&& row.occurred_at == input.occurred_at
            &&& row.actor == input.actor
            &&& row.action == input.action
            &&& row.result == input.result
            &&& row.details_json == input.details_json
            &&& forall|i: int|
                0 <= i < inventory.events.len() ==> (#[trigger] inventory.events[i]).id < row.id
        },
{
    let ids = event_ids(inventory.events);
    lemma_largest(ids);
    assert forall|i: int| 0 <= i < inventory.events.len() implies ids[i]
        == #[trigger] inventory.events[i].id by {}
}

// ---------------------------------------------------------------------------
// Sessions
// ---------------------------------------------------------------------------

proof fn lemma_session(inventory: InventoryView, id: Seq<char>)
    ensures
        match inventory.session(id) {
            Some(row) => row.id == id && inventory.sessions.contains(row),
            None => forall|i: int|
                0 <= i < inventory.sessions.len() ==> (#[trigger] inventory.sessions[i]).id != id,
        },
{
    lemma_first_match(inventory.sessions, |row: SessionRecordView| row.id == id);
}

/// A session is registered with everything that was told of it, as active and seen now.
/// It was created now if it is new and keeps the time of its creation if not. No other
/// session changes, and no lease.
pub proof fn session_is_registered_as_told(inventory: InventoryView, input: SessionInputView)
    ensures
        inventory.register_session(input) matches Ok((after, row)) ==> {
            &&& row.id == input.id
            &&& row.worktree_id == input.worktree_id
            &&& row.provider == input.provider
            &&& row.provider_session_id == input.provider_session_id
            &&& row.pid == input.pid
            &&& row.process_started_at == input.process_started_at
            &&& row.terminal_metadata == input.terminal_metadata
            &&& row.state == "active"@
            &&& row.last_seen_at == input.now
            &&& (forall|i: int|
                0 <= i < inventory.sessions.len() ==> (#[trigger] inventory.sessions[i]).id
                    != input.id) ==> row.created_at == input.now && after.sessions
                == inventory.sessions.push(row)
            &&& (exists|i: int|
                0 <= i < inventory.sessions.len() && (#[trigger] inventory.sessions[i]).id
                    == input.id) ==> (exists|i: int|
                0 <= i < inventory.sessions.len() && (#[trigger] inventory.sessions[i]).id
                    == input.id && inventory.sessions[i].created_at == row.created_at)
            &&& forall|i: int|
                0 <= i < inventory.sessions.len() && inventory.sessions[i].id != input.id
                    ==> after.sessions[i] == #[trigger] inventory.sessions[i]
            &&& after.leases == inventory.leases
            &&& after.worktrees == inventory.worktrees
            &&& after.events == inventory.events
        },
{
    lemma_session(inventory, input.id);
    if let Some(found) = inventory.session(input.id) {
        let i = choose|i: int|
            0 <= i < inventory.sessions.len() && inventory.sessions[i] == found;
        assert(inventory.sessions[i].id == input.id);
    }
}

/// A session cannot be registered without a name or a provider, nor moved to another
/// worktree or provider.
pub proof fn session_keeps_its_worktree(
    inventory: InventoryView,
    input: SessionInputView,
    known: int,
)
    requires
        input.id.len() == 0 || input.provider.len() == 0 || (0 <= known < inventory.sessions.len()
            && inventory.sessions[known].id == input.id && inventory.sessions_are_named_once()
            && (inventory.sessions[known].worktree_id != input.worktree_id
            || inventory.sessions[known].provider != input.provider)),
    ensures
        inventory.register_session(input) is Err,
{
    lemma_session(inventory, input.id);
    if input.id.len() > 0 && input.provider.len() > 0 {
        if let Some(found) = inventory.session(input.id) {
            let i = choose|i: int|
                0 <= i < inventory.sessions.len() && inventory.sessions[i] == found;
            assert(inventory.sessions[i].id == inventory.sessions[known].id);
        }
    }
}

impl InventoryView {
    /// Whether no two sessions have the same name.
    pub open spec fn sessions_are_named_once(self) -> bool {
        forall|i: int, j: int|
            0 <= i < self.sessions.len() && 0 <= j < self.sessions.len() && (
            #[trigger] self.sessions[i]).id == (#[trigger] self.sessions[j]).id ==> i == j
    }
}

// ---------------------------------------------------------------------------
// Leases
// ---------------------------------------------------------------------------

proof fn lemma_words_of_leases()
    ensures
        "active"@ != "expired"@,
        "active"@ != "released"@,
        "active"@ != "stale"@,
        "expired"@ != "released"@,
{
    reveal_strlit("active");
    reveal_strlit("expired");
    reveal_strlit("released");
    reveal_strlit("stale");
    assert("active"@.len() == 6);
    assert("expired"@.len() == 7);
    assert("released"@.len() == 8);
    assert("stale"@.len() == 5);
}

/// A lease that is acquired belongs to the session and the worktree that asked for it, is
/// active, and runs out when the time that was asked for is over, counted from now. Only a
/// registered, active session can acquire one, only on its own worktree, and only for a
/// positive time.
pub proof fn lease_is_granted_as_asked(
    inventory: InventoryView,
    worktree_id: i64,
    session_id: Seq<char>,
    ttl_seconds: i64,
    now: i64,
)
    ensures
        inventory.acquire_lease(
            worktree_id,
            session_id,
            ttl_seconds,
            now,
        ) matches Ok((after, lease))
            ==> {
            &&& ttl_seconds > 0
            &&& lease.worktree_id == worktree_id
            &&& lease.session_id == session_id
            &&& lease.state == "active"@
            &&& lease.renewed_at == now
            &&& lease.expires_at == moment_after(now, ttl_seconds)
            &&& exists|i: int|
                0 <= i < inventory.sessions.len() && (#[trigger] inventory.sessions[i]).id
                    == session_id && inventory.sessions[i].state == "active"@
                    && inventory.sessions[i].worktree_id == worktree_id
            &&& after.sessions == inventory.sessions
            &&& after.worktrees == inventory.worktrees
            &&& after.events == inventory.events
            &&& after.leases.len() == inventory.leases.len() + 1 ==> lease.acquired_at == now
                && after.leases.last() == lease
        },
        ttl_seconds <= 0 ==> inventory.acquire_lease(worktree_id, session_id, ttl_seconds, now)
            is Err,
{
    lemma_session(inventory, session_id);
    if let Some(found) = inventory.session(session_id) {
        let i = choose|i: int|
            0 <= i < inventory.sessions.len() && inventory.sessions[i] == found;
        assert(inventory.sessions[i].id == session_id);
        let current = inventory.with_worktree_leases_expired(worktree_id, now);
        lemma_first_match(
            current.leases,
            |row: LeaseRecordView| row.worktree_id == worktree_id && row.state == "active"@,
        );
    }
}

/// Releasing the leases of a session releases each of its active leases now, and leaves
/// every other lease and every session as it is.
pub proof fn releasing_leases_releases_all(
    inventory: InventoryView,
    session_id: Seq<char>,
    now: i64,
    i: int,
)
    requires
        0 <= i < inventory.leases.len(),
    ensures
        inventory.release_lease(session_id, now) matches Ok((after, rows)) ==> {
            let row = inventory.leases[i];
            &&& after.sessions == inventory.sessions
            &&& after.leases.len() == inventory.leases.len()
            &&& row.session_id == session_id && row.state == "active"@ ==> after.leases[i].state
                == "released"@ && after.leases[i].renewed_at == now && after.leases[i].id == row.id
                && after.leases[i].expires_at == row.expires_at
            &&& !(row.session_id == session_id && row.state == "active"@) ==> after.leases[i]
                == row
        },
{
}

/// Ending a session ends it now and releases each of its active leases. Every other
/// session and every other lease stays as it is.
pub proof fn ending_session_ends_all(
    inventory: InventoryView,
    session_id: Seq<char>,
    now: i64,
    i: int,
    k: int,
)
    requires
        0 <= i < inventory.leases.len(),
        0 <= k < inventory.sessions.len(),
    ensures
        inventory.release_session(session_id, now) matches Ok((after, ended)) ==> {
            let row = inventory.leases[i];
            let session = inventory.sessions[k];
            &&& after.leases.len() == inventory.leases.len()
            &&& after.sessions.len() == inventory.sessions.len()
            &&& row.session_id == session_id && row.state == "active"@ ==> after.leases[i].state
                == "released"@ && after.leases[i].renewed_at == now
            &&& !(row.session_id == session_id && row.state == "active"@) ==> after.leases[i]
                == row
            &&& session.id == session_id ==> after.sessions[k].state == "released"@
                && after.sessions[k].last_seen_at == now
            &&& session.id != session_id ==> after.sessions[k] == session
            &&& session.id == session_id ==> ended is Some
            &&& ended matches Some(one) ==> one.id == session_id && one.state == "released"@
                && one.last_seen_at == now
        },
{
    lemma_session(inventory, session_id);
}

/// A session that is seen is marked as seen now and stays active, and no other session
/// changes. Where a time is given, its lease is active and runs out when that time is
/// over, counted from now. Only a registered, active session can be seen.
pub proof fn heartbeat_prolongs_the_lease(
    inventory: InventoryView,
    session_id: Seq<char>,
    ttl: Option<i64>,
    now: i64,
)
    ensures
        inventory.heartbeat(session_id, ttl, now) matches Ok((after, session, lease)) ==> {
            &&& session.id == session_id
            &&& session.state == "active"@
            &&& session.last_seen_at == now
            &&& ttl matches Some(seconds) ==> seconds > 0 && lease is Some && lease->0.session_id
                == session_id && lease->0.state == "active"@ && lease->0.renewed_at == now
                && lease->0.expires_at == moment_after(now, seconds)
            &&& ttl is None && lease is Some ==> lease->0.session_id == session_id
                && lease->0.state == "active"@ && lease->0.expires_at > now
            &&& after.sessions.len() == inventory.sessions.len()
            &&& forall|i: int|
                0 <= i < inventory.sessions.len() ==> after.sessions[i] == (if (
                #[trigger] inventory.sessions[i]).id == session_id && inventory.sessions[i].state
                    == "active"@ {
                    SessionRecordView { last_seen_at: now, ..inventory.sessions[i] }
                } else {
                    inventory.sessions[i]
                })
            &&& after.events == inventory.events
        },
{
    lemma_words_of_leases();
    let current = inventory.with_leases_expired(now);
    lemma_session(current, session_id);
    let touched = current.with_session_touched(session_id, now);
    let live = |row: LeaseRecordView|
        row.session_id == session_id && row.state == "active"@ && row.expires_at > now;
    lemma_first_match(touched.leases, live);
    if let Some(seconds) = ttl {
        let renewed = touched.with_session_lease_renewed(session_id, seconds, now);
        lemma_first_match(renewed.leases, live);
        if let Some(lease) = renewed.session_lease(session_id, now) {
            let k = choose|k: int| 0 <= k < renewed.leases.len() && renewed.leases[k] == lease;
            assert(touched.leases[k].session_id == session_id);
        } else if let Some(found) = current.session(session_id) {
            if seconds > 0 {
                lease_is_granted_as_asked(renewed, found.worktree_id, session_id, seconds, now);
                assert(renewed.acquire_lease(found.worktree_id, session_id, seconds, now)
                    == renewed.take_lease(found.worktree_id, session_id, seconds, now));
            }
        }
    }
}

/// A session that is registered with a lease has one for the time that was asked for,
/// counted from now; without such a time no lease is touched.
pub proof fn registration_leases_on_request(
    inventory: InventoryView,
    input: SessionInputView,
    ttl: Option<i64>,
)
    ensures
        inventory.register_with_lease(input, ttl) matches Ok((after, session, lease)) ==> {
            &&& session.id == input.id
            &&& session.worktree_id == input.worktree_id
            &&& session.state == "active"@
            &&& lease is Some <==> ttl is Some
            &&& ttl is None ==> after.leases == inventory.leases
            &&& ttl matches Some(seconds) ==> {
                &&& seconds > 0
                &&& lease->0.session_id == input.id
                &&& lease->0.worktree_id == input.worktree_id
                &&& lease->0.state == "active"@
                &&& lease->0.renewed_at == input.now
                &&& lease->0.expires_at == moment_after(input.now, seconds)
            }
        },
{
    session_is_registered_as_told(inventory, input);
    if let Ok((registered, session)) = inventory.register_session(input) {
        if let Some(seconds) = ttl {
            if seconds > 0 {
                lease_is_granted_as_asked(
                    registered,
                    input.worktree_id,
                    input.id,
                    seconds,
                    input.now,
                );
                assert(registered.acquire_lease(input.worktree_id, input.id, seconds, input.now)
                    == registered.take_lease(input.worktree_id, input.id, seconds, input.now));
            }
        }
    }
}

/// A worktree is leased exactly if some lease on it is active and has not run out.
pub proof fn leased_means_a_lease_that_lasts(
    inventory: &Inventory,
    worktree_id: i64,
    now: i64,
    leased: bool,
)
    requires
        call_ensures(Inventory::active_lease_exists, (inventory, worktree_id, now), leased),
    ensures
        leased <==> exists|i: int|
            0 <= i < inventory@.leases.len() && (#[trigger] inventory@.leases[i]).worktree_id
                == worktree_id && inventory@.leases[i].state == "active"@
                && inventory@.leases[i].expires_at > now,
{
    let live = |row: LeaseRecordView|
        row.worktree_id == worktree_id && row.state == "active"@ && row.expires_at > now;
    lemma_first_match(inventory@.leases, live);
    if leased {
        let found = inventory@.live_worktree_lease(worktree_id, now)->0;
        let i = choose|i: int| 0 <= i < inventory@.leases.len() && inventory@.leases[i] == found;
        assert(inventory@.leases[i].worktree_id == worktree_id);
    } else {
        assert forall|i: int| 0 <= i < inventory@.leases.len() implies !((
        #[trigger] inventory@.leases[i]).worktree_id == worktree_id && inventory@.leases[i].state
            == "active"@ && inventory@.leases[i].expires_at > now) by {
            assert(!live(inventory@.leases[i]));
        }
    }
}

/// When a worktree is gone, each active lease on it expires now and each active session in
/// it is left behind. Leases on other worktrees and sessions elsewhere stay as they are.
pub proof fn gone_worktree_loses_leases_and_sessions(
    inventory: InventoryView,
    worktree_id: i64,
    now: i64,
    i: int,
    k: int,
)
    requires
        0 <= i < inventory.leases.len(),
        0 <= k < inventory.sessions.len(),
    ensures
        ({
            let after = inventory.with_worktree_abandoned(worktree_id, now);
            let lease = inventory.leases[i];
            let session = inventory.sessions[k];
            &&& lease.worktree_id == worktree_id && lease.state == "active"@
                ==> after.leases[i].state == "expired"@ && after.leases[i].renewed_at == now
            &&& !(lease.worktree_id == worktree_id && lease.state == "active"@) ==> after.leases[i]
                == lease
            &&& session.worktree_id == worktree_id && session.state == "active"@
                ==> after.sessions[k].state == "stale"@ && after.sessions[k].last_seen_at == now
            &&& !(session.worktree_id == worktree_id && session.state == "active"@)
                ==> after.sessions[k] == session
        }),
{
}

/// Of several active leases on one worktree only the latest stays active; every other
/// lease stays as it is.
pub proof fn latest_lease_stays(inventory: InventoryView, now: i64, i: int)
    requires
        0 <= i < inventory.leases.len(),
    ensures
        ({
            let after = inventory.with_latest_leases(now);
            let row = inventory.leases[i];
            let outdated = row.state == "active"@ && exists|j: int|
                0 <= j < inventory.leases.len() && (#[trigger] inventory.leases[j]).state
                    == "active"@ && inventory.leases[j].worktree_id == row.worktree_id
                    && inventory.leases[j].id > row.id;
            &&& outdated ==> after.leases[i].state == "expired"@ && after.leases[i].renewed_at
                == now && after.leases[i].id == row.id
            &&& !outdated ==> after.leases[i] == row
            &&& after.leases.len() == inventory.leases.len()
        }),
{
    let row = inventory.leases[i];
    let newer = |one: LeaseRecordView|
        one.state == "active"@ && one.worktree_id == row.worktree_id && one.id > row.id;
    lemma_first_match(inventory.leases, newer);
    if inventory.later_lease(row) is Some {
        let found = inventory.later_lease(row)->0;
        let j = choose|j: int| 0 <= j < inventory.leases.len() && inventory.leases[j] == found;
        assert(inventory.leases[j].state == "active"@);
    } else {
        assert forall|j: int| 0 <= j < inventory.leases.len() implies !((
        #[trigger] inventory.leases[j]).state == "active"@ && inventory.leases[j].worktree_id
            == row.worktree_id && inventory.leases[j].id > row.id) by {
            assert(!newer(inventory.leases[j]));
        }
    }
}

/// Renewing the lease of a session prolongs each of its active leases that has not run
/// out, from now on for the time that is given, and no other lease; a session that is
/// touched is seen now, if it is active, and no other session changes; and leases that
/// are expired at a moment are those whose time was over by then.
pub proof fn renewing_and_expiring_follow_the_clock(
    inventory: InventoryView,
    session_id: Seq<char>,
    ttl_seconds: i64,
    now: i64,
    i: int,
    k: int,
)
    requires
        0 <= i < inventory.leases.len(),
        0 <= k < inventory.sessions.len(),
    ensures
        ({
            let after = inventory.with_session_lease_renewed(session_id, ttl_seconds, now);
            let row = inventory.leases[i];
            let live = row.session_id == session_id && row.state == "active"@ && row.expires_at
                > now;
            &&& live ==> after.leases[i].renewed_at == now && after.leases[i].expires_at
                == moment_after(now, ttl_seconds) && after.leases[i].state == "active"@
                && after.leases[i].acquired_at == row.acquired_at
            &&& !live ==> after.leases[i] == row
            &&& after.sessions == inventory.sessions
        }),
        ({
            let after = inventory.with_session_touched(session_id, now);
            let row = inventory.sessions[k];
            let seen = row.id == session_id && row.state == "active"@;
            &&& seen ==> after.sessions[k] == (SessionRecordView { last_seen_at: now, ..row })
            &&& !seen ==> after.sessions[k] == row
            &&& after.leases == inventory.leases
        }),
        ({
            let after = inventory.with_leases_expired(now);
            let row = inventory.leases[i];
            let over = row.state == "active"@ && row.expires_at <= now;
            &&& over ==> after.leases[i].state == "expired"@ && after.leases[i].renewed_at == now
            &&& !over ==> after.leases[i] == row
            &&& after.leases.len() == inventory.leases.len()
        }),
{
}

// ---------------------------------------------------------------------------
// Reservations
// ---------------------------------------------------------------------------

/// A new reservation sets aside the path and the branch that were asked for, under the key
/// that was given, as pending from now on, and with an identifier above all others. It is
/// made only where no reservation that is pending or fulfilled holds either.
pub proof fn reservation_is_made_as_asked(
    inventory: InventoryView,
    repository_id: i64,
    path: Seq<char>,
    branch: Seq<char>,
    key: Option<Seq<char>>,
    now: i64,
)
    ensures
        inventory.make_reservation(repository_id, path, branch, key, now) matches Ok((after, row))
            ==> {
            &&& after == (InventoryView {
                reservations: inventory.reservations.push(row),
                ..inventory
            })
            &&& row.repository_id == repository_id
            &&& row.path == path
            &&& row.branch == branch
            &&& row.idempotency_key == key
            &&& row.state == "pending"@
            &&& row.worktree_id is None
            &&& row.created_at == now
            &&& row.completed_at is None
            &&& forall|i: int|
                0 <= i < inventory.reservations.len() ==> (
                #[trigger] inventory.reservations[i]).id < row.id
            &&& forall|i: int|
                0 <= i < inventory.reservations.len() && (
                #[trigger] inventory.reservations[i]).repository_id == repository_id && (
                inventory.reservations[i].path == path || inventory.reservations[i].branch
                    == branch) ==> inventory.reservations[i].state != "pending"@
                    && inventory.reservations[i].state != "succeeded"@
        },
{
    let ids = reservation_ids(inventory.reservations);
    lemma_largest(ids);
    assert forall|i: int| 0 <= i < inventory.reservations.len() implies ids[i]
        == #[trigger] inventory.reservations[i].id by {}
    let holding = |row: ReservationRecordView|
        row.repository_id == repository_id && holds(row.state) && (
        row.path == path || row.branch == branch);
    lemma_first_match(inventory.reservations, holding);
    if inventory.reservation_holding(repository_id, path, branch) is None {
        assert forall|i: int|
            0 <= i < inventory.reservations.len() && (
            #[trigger] inventory.reservations[i]).repository_id == repository_id && (
            inventory.reservations[i].path == path || inventory.reservations[i].branch
                == branch) implies inventory.reservations[i].state != "pending"@
            && inventory.reservations[i].state != "succeeded"@ by {
            assert(!holding(inventory.reservations[i]));
        }
    }
}

/// A reservation whose state is set has that state, that worktree and that time of its
/// end, and nothing else in the inventory changes.
pub proof fn reservation_state_is_set(
    inventory: InventoryView,
    id: i64,
    state: Seq<char>,
    worktree_id: Option<i64>,
    completed_at: Option<i64>,
    i: int,
)
    requires
        0 <= i < inventory.reservations.len(),
    ensures
        inventory.set_reservation_state(id, state, worktree_id, completed_at) matches Ok(after)
            ==> {
            let row = inventory.reservations[i];
            &&& after.reservations.len() == inventory.reservations.len()
            &&& row.id == id ==> after.reservations[i].state == state
                && after.reservations[i].worktree_id == worktree_id
                && after.reservations[i].completed_at == completed_at && after.reservations[i].path
                == row.path && after.reservations[i].branch == row.branch
                && after.reservations[i].idempotency_key == row.idempotency_key
                && after.reservations[i].repository_id == row.repository_id
            &&& row.id != id ==> after.reservations[i] == row
            &&& after.worktrees == inventory.worktrees
            &&& after.leases == inventory.leases
            &&& after.sessions == inventory.sessions
            &&& after.events == inventory.events
        },
{
}

/// When a worktree is gone, the reservation that was fulfilled with it is given up from
/// then on, and no other reservation changes.
pub proof fn reservation_goes_with_its_worktree(
    inventory: InventoryView,
    worktree_id: i64,
    now: i64,
    i: int,
)
    requires
        0 <= i < inventory.reservations.len(),
    ensures
        ({
            let after = inventory.with_reservations_released(worktree_id, now);
            let row = inventory.reservations[i];
            &&& row.worktree_id == Some(worktree_id) && row.state == "succeeded"@
                ==> after.reservations[i].state == "released"@
                && after.reservations[i].completed_at == Some(now) && after.reservations[i].path
                == row.path && after.reservations[i].branch == row.branch
            &&& !(row.worktree_id == Some(worktree_id) && row.state == "succeeded"@)
                ==> after.reservations[i] == row
            &&& after.reservations.len() == inventory.reservations.len()
            &&& after.worktrees == inventory.worktrees
        }),
{
}

// ---------------------------------------------------------------------------
// Worktrees
// ---------------------------------------------------------------------------

/// A worktree that was created is active and was created at that moment; a worktree that
/// was removed is removed since that moment. Every other row stays as it is.
pub proof fn worktree_is_marked(
    inventory: InventoryView,
    id: i64,
    repository_id: i64,
    path: Seq<char>,
    moment: i64,
    i: int,
)
    requires
        0 <= i < inventory.worktrees.len(),
    ensures
        inventory.mark_created(id, moment) matches Ok(after) ==> {
            let row = inventory.worktrees[i];
            &&& after.worktrees.len() == inventory.worktrees.len()
            &&& row.id == id ==> after.worktrees[i].created_at == Some(moment)
                && after.worktrees[i].lifecycle_state == "active"@ && after.worktrees[i].removed_at
                is None && after.worktrees[i].first_seen_at == row.first_seen_at
                && after.worktrees[i].path == row.path && after.worktrees[i].branch == row.branch
            &&& row.id != id ==> after.worktrees[i] == row
        },
        inventory.mark_removed(repository_id, path, moment) matches Ok(after) ==> {
            let row = inventory.worktrees[i];
            &&& after.worktrees.len() == inventory.worktrees.len()
            &&& row.repository_id == repository_id && row.path == path
                ==> after.worktrees[i].lifecycle_state == "removed"@
                && after.worktrees[i].removed_at == Some(moment) && after.worktrees[i].last_seen_at
                == moment && after.worktrees[i].branch == row.branch && after.worktrees[i].id
                == row.id
            &&& !(row.repository_id == repository_id && row.path == path) ==> after.worktrees[i]
                == row
        },
{
}

/// A worktree that is listed for the first time is entered as Git lists it, first and last
/// seen now, and with no known time of creation. One that is known keeps when it was first
/// seen and created, and everything else is as Git lists it.
pub proof fn listed_worktree_is_entered_as_listed(
    inventory: InventoryView,
    repository_id: i64,
    listed: ListedWorktreeView,
    now: i64,
)
    ensures
        inventory.enter_worktree(repository_id, listed, now) matches Ok(after) ==> {
            &&& (forall|i: int|
                0 <= i < inventory.worktrees.len() ==> !((
                #[trigger] inventory.worktrees[i]).repository_id == repository_id
                    && inventory.worktrees[i].path == listed.worktree.path)) ==> {
                let row = after.worktrees.last();
                &&& after.worktrees == inventory.worktrees.push(row)
                &&& row.repository_id == repository_id
                &&& row.path == listed.worktree.path
                &&& row.branch == listed.worktree.branch
                &&& row.head == listed.worktree.head
                &&& row.first_seen_at == now
                &&& row.last_seen_at == now
                &&& row.created_at is None
                &&& row.removed_at is None
                &&& row.archived_at is None
                &&& row.lifecycle_state == (if listed.worktree.prunable || !listed.is_directory {
                    "missing"@
                } else {
                    "active"@
                })
            }
            &&& forall|i: int|
                0 <= i < inventory.worktrees.len() ==> {
                    let row = #[trigger] inventory.worktrees[i];
                    let new = after.worktrees[i];
                    &&& new.id == row.id
                    &&& new.first_seen_at == row.first_seen_at
                    &&& new.created_at == row.created_at
                    &&& new.path == row.path
                    &&& row.repository_id == repository_id && row.path == listed.worktree.path
                        ==> new.branch == listed.worktree.branch && new.head
                        == listed.worktree.head && new.last_seen_at == now
                    &&& row.repository_id == repository_id && row.path == listed.worktree.path
                        && row.lifecycle_state != "archived"@ ==> new.lifecycle_state == (
                    if listed.worktree.prunable || !listed.is_directory {
                        "missing"@
                    } else {
                        "active"@
                    })
                    &&& row.lifecycle_state == "archived"@ ==> new.lifecycle_state == "archived"@
                    &&& !(row.repository_id == repository_id && row.path == listed.worktree.path)
                        ==> new == row
                }
            &&& after.leases == inventory.leases
            &&& after.sessions == inventory.sessions
            &&& after.reservations == inventory.reservations
        },
{
    let path = listed.worktree.path;
    let wanted = |row: WorktreeRecordView| row.repository_id == repository_id && row.path == path;
    lemma_first_match(inventory.worktrees, wanted);
    if let Some(found) = inventory.worktree_at(repository_id, path) {
        let i = choose|i: int|
            0 <= i < inventory.worktrees.len() && inventory.worktrees[i] == found;
        assert(inventory.worktrees[i].repository_id == repository_id
            && inventory.worktrees[i].path == path);
    }
}

/// A repository that is new is registered as found, added and seen now. One that is known
/// by its Git directory keeps its identifier and when it was added, and is seen now.
pub proof fn repository_is_registered_as_found(
    inventory: InventoryView,
    repository: GitRepositoryView,
    now: i64,
)
    ensures
        inventory.register_repository(repository, now) matches Ok((after, row)) ==> {
            &&& row.common_git_dir == repository.common_git_dir
            &&& row.root_path == repository.root
            &&& row.display_name == repository.display_name
            &&& row.last_seen_at == now
            &&& (forall|i: int|
                0 <= i < inventory.repositories.len() ==> (
                #[trigger] inventory.repositories[i]).common_git_dir != repository.common_git_dir)
                ==> row.added_at == now && row.integration_branch == repository.integration_branch
                && row.remote_integration_branch == repository.remote_integration_branch
                && after.repositories == inventory.repositories.push(row)
            &&& forall|i: int|
                0 <= i < inventory.repositories.len() ==> after.repositories[i].id == (
                #[trigger] inventory.repositories[i]).id && after.repositories[i].added_at
                    == inventory.repositories[i].added_at
            &&& after.worktrees == inventory.worktrees
            &&& after.leases == inventory.leases
            &&& after.events == inventory.events
        },
{
    let wanted = |row: RepositoryRecordView| row.common_git_dir == repository.common_git_dir;
    lemma_first_match(inventory.repositories, wanted);
    if let Some(found) = inventory.repository_at(repository.common_git_dir) {
        let i = choose|i: int|
            0 <= i < inventory.repositories.len() && inventory.repositories[i] == found;
        assert(inventory.repositories[i].common_git_dir == repository.common_git_dir);
    }
}

// ---------------------------------------------------------------------------
// Requests
// ---------------------------------------------------------------------------

/// A request that is answered is remembered as such with exactly that answer; one that
/// failed has no answer. No other request changes.
pub proof fn request_is_answered_with_its_response(
    inventory: InventoryView,
    id: Seq<char>,
    response: Seq<char>,
    now: i64,
    i: int,
)
    requires
        0 <= i < inventory.requests.len(),
    ensures
        inventory.complete_request(id, response, now) matches Ok((after, row)) ==> {
            &&& row.id == id
            &&& row.state == "succeeded"@
            &&& row.response_json == Some(response)
            &&& row.updated_at == now
            &&& after.requests.len() == inventory.requests.len()
            &&& inventory.requests[i].id == id ==> after.requests[i].state == "succeeded"@
                && after.requests[i].response_json == Some(response) && after.requests[i].operation
                == inventory.requests[i].operation
            &&& inventory.requests[i].id != id ==> after.requests[i] == inventory.requests[i]
        },
        inventory.fail_request(id, now) matches Ok(after) ==> {
            &&& after.requests.len() == inventory.requests.len()
            &&& inventory.requests[i].id == id ==> after.requests[i].state == "failed"@
                && after.requests[i].response_json is None
            &&& inventory.requests[i].id != id ==> after.requests[i] == inventory.requests[i]
        },
{
    lemma_first_match(inventory.requests, |row: RequestRecordView| row.id == id);
}

/// A request that is new is begun now with its operation and without an answer.
pub proof fn new_request_is_begun(
    inventory: InventoryView,
    id: Seq<char>,
    operation: Seq<char>,
    now: i64,
)
    requires
        forall|i: int|
            0 <= i < inventory.requests.len() ==> (#[trigger] inventory.requests[i]).id != id,
    ensures
        inventory.begin_request(id, operation, now) matches Ok((after, row)) ==> {
            &&& row.id == id
            &&& row.operation == operation
            &&& row.state == "started"@
            &&& row.response_json is None
            &&& row.created_at == now
            &&& row.updated_at == now
            &&& after.requests == inventory.requests.push(row)
        },
{
    lemma_first_match(inventory.requests, |row: RequestRecordView| row.id == id);
}

/// A worktree with a branch is entered only where no other worktree of the repository has
/// that branch, unless that one is missing or removed.
pub proof fn branch_belongs_to_one_worktree(
    inventory: InventoryView,
    repository_id: i64,
    listed: ListedWorktreeView,
    now: i64,
    k: int,
)
    requires
        forall|i: int, j: int|
            0 <= i < j < inventory.worktrees.len() ==> (#[trigger] inventory.worktrees[i]).id != (
            #[trigger] inventory.worktrees[j]).id,
        0 <= k < inventory.worktrees.len(),
        inventory.worktrees[k].repository_id == repository_id,
        inventory.worktrees[k].path != listed.worktree.path,
        inventory.worktrees[k].branch is Some,
        inventory.worktrees[k].branch == listed.worktree.branch,
        inventory.worktrees[k].lifecycle_state != "missing"@,
        inventory.worktrees[k].lifecycle_state != "removed"@,
        !listed.worktree.prunable,
        listed.is_directory,
    ensures
        inventory.enter_worktree(repository_id, listed, now) is Err,
{
    let path = listed.worktree.path;
    let wanted = |row: WorktreeRecordView| row.repository_id == repository_id && row.path == path;
    lemma_first_match(inventory.worktrees, wanted);
    reveal_strlit("active");
    reveal_strlit("missing");
    reveal_strlit("removed");
    reveal_strlit("archived");
    assert("active"@[0] == 'a');
    assert("archived"@[0] == 'a');
    assert("missing"@[0] == 'm');
    assert("removed"@[0] == 'r');
    let other = inventory.worktrees[k];
    let own = match inventory.worktree_at(repository_id, path) {
        Some(existing) => worktree_again(existing, listed, now),
        None => worktree_row(
            fresh_id(worktree_ids(inventory.worktrees))->0,
            repository_id,
            listed,
            now,
        ),
    };
    let keeper = |row: WorktreeRecordView|
        row.id != own.id && row.repository_id == own.repository_id && keeps_branch(row)
            && row.branch == own.branch;
    lemma_first_match(inventory.worktrees, keeper);
    match inventory.worktree_at(repository_id, path) {
        Some(existing) => {
            let i = choose|i: int|
                0 <= i < inventory.worktrees.len() && inventory.worktrees[i] == existing;
            assert(inventory.worktrees[i].path == path);
            assert(inventory.worktrees[i].id != other.id);
            assert(keeper(other));
        },
        None => {
            if fresh_id(worktree_ids(inventory.worktrees)) is Some {
                lemma_largest(worktree_ids(inventory.worktrees));
                assert(worktree_ids(inventory.worktrees)[k] == other.id);
                assert(own.id != other.id);
                assert(keeper(other));
            }
        },
    }
}

proof fn lemma_largest_is_there(ids: Seq<i64>)
    ensures
        largest(ids) == 0 || ids.contains(largest(ids)),
    decreases ids.len(),
{
    if ids.len() > 0 {
        let before = ids.drop_last();
        lemma_largest_is_there(before);
        if before.contains(largest(before)) {
            let i = choose|i: int| 0 <= i < before.len() && before[i] == largest(before);
            assert(ids[i] == largest(before));
        }
        assert(ids[ids.len() - 1] == ids.last());
    }
}

/// A worktree that does not have its branch to itself, because it is missing or removed or
/// has none, keeps no other worktree from being entered.
pub proof fn lost_worktree_frees_its_branch(
    inventory: InventoryView,
    repository_id: i64,
    listed: ListedWorktreeView,
    now: i64,
)
    requires
        forall|k: int|
            0 <= k < inventory.worktrees.len() ==> {
                let row = #[trigger] inventory.worktrees[k];
                row.repository_id != repository_id || row.path == listed.worktree.path
                    || row.branch is None || row.branch != listed.worktree.branch
                    || row.lifecycle_state == "missing"@ || row.lifecycle_state == "removed"@
            },
        forall|i: int, j: int|
            0 <= i < j < inventory.worktrees.len() ==> !((
            #[trigger] inventory.worktrees[i]).repository_id == (
            #[trigger] inventory.worktrees[j]).repository_id && inventory.worktrees[i].path
                == inventory.worktrees[j].path),
        forall|k: int|
            0 <= k < inventory.worktrees.len()
                ==> (#[trigger] inventory.worktrees[k]).id < i64::MAX,
        text_fault(listed.worktree.path) is None,
        option_fault(listed.worktree.branch) is None,
        option_fault(listed.worktree.head) is None,
    ensures
        inventory.enter_worktree(repository_id, listed, now) is Ok,
{
    let path = listed.worktree.path;
    let wanted = |row: WorktreeRecordView| row.repository_id == repository_id && row.path == path;
    lemma_first_match(inventory.worktrees, wanted);
    let ids = worktree_ids(inventory.worktrees);
    lemma_largest_is_there(ids);
    let found = inventory.worktree_at(repository_id, path);
    let own = match found {
        Some(existing) => worktree_again(existing, listed, now),
        None => worktree_row(fresh_id(ids)->0, repository_id, listed, now),
    };
    let keeper = |row: WorktreeRecordView|
        row.id != own.id && row.repository_id == own.repository_id && keeps_branch(row)
            && row.branch == own.branch;
    lemma_first_match(inventory.worktrees, keeper);
    if inventory.branch_keeper(own) is Some {
        let row = inventory.branch_keeper(own)->0;
        let j = choose|j: int| 0 <= j < inventory.worktrees.len() && inventory.worktrees[j] == row;
        assert(keeper(inventory.worktrees[j]));
        assert(inventory.worktrees[j].path == path);
        assert(wanted(inventory.worktrees[j]));
        let existing = found->0;
        let i = choose|i: int|
            0 <= i < inventory.worktrees.len() && inventory.worktrees[i] == existing;
        assert(inventory.worktrees[i].path == path);
        assert(i == j);
    }
}

} // verus!
