//! What a scan for worktrees to clean up says of each of them.

use crate::daemon::execute::execute_cleanup_scan;
use crate::daemon::replies::cleanup_result;
use crate::inventory::records::LeaseRecordView;
use crate::inventory::records::WorktreeRecord;
use crate::inventory::records::WorktreeRecordView;
use crate::inventory::table::lemma_first_match;
use crate::paths::same_steps;
use crate::service::cleanup::Observation;
use crate::service::judgement::lemma_eligible;
use crate::service::judgement::saturated;
use crate::service::state::record_at;
use crate::service::state::RepositoryService;
use crate::service::state::ServiceView;
use crate::service::steps::lemma_record;
use crate::service::types::CleanupCandidate;
use crate::text::option_view;
use crate::text::views;
use vstd::prelude::*;

verus! {

proof fn lemma_lease(service: ServiceView, worktree_id: i64, now: i64)
    ensures
        service.inventory.live_worktree_lease(worktree_id, now) is None <==> forall|k: int|
            0 <= k < service.inventory.leases.len() ==> !((
            #[trigger] service.inventory.leases[k]).worktree_id == worktree_id
                && service.inventory.leases[k].state == "active"@
                && service.inventory.leases[k].expires_at > now),
{
    lemma_first_match(
        service.inventory.leases,
        |row: LeaseRecordView|
            row.worktree_id == worktree_id && row.state == "active"@ && row.expires_at > now,
    );
}

/// A scan tells of every worktree that was observed, in the same order, where it stands,
/// what is checked out in it, what its removal would free, and under which number the
/// inventory has it.
pub proof fn scan_tells_of_every_worktree(
    service: &RepositoryService,
    records: &Vec<WorktreeRecord>,
    seen: &Vec<Observation>,
    now: i64,
    minimum_age: i64,
    candidates: Vec<CleanupCandidate>,
    k: int,
)
    requires
        0 <= k < seen@.len(),
        call_ensures(
            RepositoryService::cleanup_candidates,
            (service, records, seen, now, minimum_age),
            candidates,
        ),
    ensures
        candidates@.len() == seen@.len(),
        candidates@[k].path@ == seen@[k].listed.worktree.path@,
        option_view(candidates@[k].branch) == option_view(seen@[k].listed.worktree.branch),
        candidates@[k].reclaimable_bytes == seen@[k].status.data.disk_usage.worktree_bytes,
        match candidates@[k].worktree_id {
            Some(id) => exists|j: int|
                0 <= j < records@.len() && (#[trigger] records@[j]).id == id && records@[j].path@
                    == seen@[k].listed.worktree.path@,
            None => forall|j: int|
                0 <= j < records@.len() ==> (#[trigger] records@[j]).path@
                    != seen@[k].listed.worktree.path@,
        },
{
    let rows = views(records@);
    let one = views(seen@)[k];
    let path = one.listed.worktree.path;
    assert(views(candidates@).len() == candidates@.len());
    assert(views(candidates@)[k] == candidates@[k]@);
    lemma_record(rows, path);
    match record_at(rows, path) {
        Some(row) => {
            let j = choose|j: int| 0 <= j < rows.len() && rows[j] == row;
            assert(records@[j]@ == row);
        },
        None => {
            assert forall|j: int| 0 <= j < records@.len() implies (#[trigger] records@[j]).path@
                != path by {
                assert(rows[j] == records@[j]@);
            }
        },
    }
}

/// A scan calls a worktree eligible exactly if it is not the repository itself, is there,
/// is not locked, no process works in it, nothing in it is staged, unstaged, untracked or
/// conflicted, it has no commits of its own and is merged wherever it can be; and, where
/// the inventory knows it, if no session holds a lease on it that has not run out, and it
/// is known for at least the minimum age.
pub proof fn scan_calls_eligible_what_can_go(
    service: &RepositoryService,
    records: &Vec<WorktreeRecord>,
    seen: &Vec<Observation>,
    now: i64,
    minimum_age: i64,
    candidates: Vec<CleanupCandidate>,
    k: int,
    row: WorktreeRecordView,
)
    requires
        0 <= k < seen@.len(),
        forall|i: int, j: int|
            0 <= i < j < records@.len() ==> (#[trigger] records@[i]).path@ != (
            #[trigger] records@[j]).path@,
        views(records@).contains(row),
        row.path == seen@[k].listed.worktree.path@,
        call_ensures(
            RepositoryService::cleanup_candidates,
            (service, records, seen, now, minimum_age),
            candidates,
        ),
    ensures
        candidates@[k].classification@ == "eligible"@ <==> {
            &&& !same_steps(seen@[k].listed.worktree.path@, service.primary_root@)
            &&& !seen@[k].listed.worktree.prunable
            &&& seen@[k].listed.is_directory
            &&& !seen@[k].listed.worktree.locked
            &&& seen@[k].processes is Ok
            &&& seen@[k].processes->Ok_0@.len() == 0
            &&& forall|i: int|
                0 <= i < service@.inventory.leases.len() ==> !((
                #[trigger] service@.inventory.leases[i]).worktree_id == row.id
                    && service@.inventory.leases[i].state == "active"@
                    && service@.inventory.leases[i].expires_at > now)
            &&& saturated(now - (if row.created_at is Some {
                row.created_at->0
            } else {
                row.first_seen_at
            })) >= minimum_age
            &&& seen@[k].status.observation_error is None
            &&& seen@[k].status.data.changes.staged == 0
            &&& seen@[k].status.data.changes.unstaged == 0
            &&& seen@[k].status.data.changes.untracked == 0
            &&& seen@[k].status.data.changes.conflicted == 0
            &&& seen@[k].status.data.merge.unique_commits == Some(0u32)
            &&& seen@[k].status.data.merge.merged_locally == Some(true)
            &&& seen@[k].status.data.merge.remote_integration_branch is Some
                ==> seen@[k].status.data.merge.merged_remotely == Some(true)
        },
{
    let rows = views(records@);
    let one = views(seen@)[k];
    let path = one.listed.worktree.path;
    assert(views(candidates@).len() == candidates@.len());
    assert(views(candidates@)[k] == candidates@[k]@);
    lemma_record(rows, path);
    let i = choose|i: int| 0 <= i < rows.len() && rows[i] == row;
    assert(records@[i].path@ == path);
    assert(record_at(rows, path) == Some(row)) by {
        assert(rows[i].path == path);
        let found = record_at(rows, path)->0;
        let j = choose|j: int| 0 <= j < rows.len() && rows[j] == found;
        assert(records@[j].path@ == path);
        assert(i == j);
    }
    lemma_lease(service@, row.id, now);
    lemma_eligible(service@.circumstances(one, Some(row), now, minimum_age));
}

/// What a client is told of a scan is what the scan with the minimum age that was asked
/// for said.
pub proof fn scan_is_told_as_it_came(
    service: &RepositoryService,
    records: &Vec<WorktreeRecord>,
    seen: &Vec<Observation>,
    base: Option<&str>,
    minimum_age: i64,
    now: i64,
    candidates: Vec<CleanupCandidate>,
    expected: String,
    text: String,
)
    requires
        call_ensures(
            RepositoryService::cleanup_candidates,
            (service, records, seen, now, minimum_age),
            candidates,
        ),
        call_ensures(cleanup_result, (base, minimum_age, &candidates), expected),
        call_ensures(
            execute_cleanup_scan,
            (service, records, seen, base, minimum_age, now),
            text,
        ),
    ensures
        text@ == expected@,
{
}

} // verus!
