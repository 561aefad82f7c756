//! Repeating a removal that was interrupted.

use crate::inventory::again::begun_removal_is_recognised;
use crate::inventory::again::every_worktree_is_listed;
use crate::inventory::again::lemma_listed_record;
use crate::inventory::again::lemma_reconciled_repository;
use crate::inventory::again::lemma_registered_again;
use crate::inventory::again::lemma_same_standing_removal;
use crate::inventory::laws::registering_repository_keeps_consistent;
use crate::inventory::records::EventRecordView;
use crate::inventory::records::WorktreeRecordView;
use crate::inventory::state::event_ids;
use crate::inventory::state::lemma_largest;
use crate::inventory::state::InventoryView;
use crate::inventory::table::lemma_first_match;
use crate::inventory::worktrees::listed_at;
use crate::inventory::worktrees::ListedWorktreeView;
use crate::service::cleanup::ObservationView;
use crate::service::error::ServiceErrorView;
use crate::service::laws::preparing_removal_keeps_consistent;
use crate::service::remove::removed_record;
use crate::service::remove::RemovalView;
use crate::service::remove::RemoveStepView;
use crate::service::rules::worktree_there;
use crate::service::state::ServiceView;
use crate::service::types::PlaceView;
use vstd::prelude::*;

verus! {

proof fn lemma_begun_removal_stands(
    service: ServiceView,
    removal: RemovalView,
    seen: ObservationView,
    now: i64,
)
    requires
        service.remove_start(removal, seen, now).1 is Ok,
    ensures
        service.remove_start(removal, seen, now).0.standing_removal(removal.record.id) is Some,
        ({
            let after = service.remove_start(removal, seen, now).0;
            after == InventoryView { events: after.events, ..service.inventory }
        }),
{
    let after = service.remove_start(removal, seen, now).0;
    let before = service.inventory;
    let id = removal.record.id;
    let own = after.events.last();
    lemma_largest(event_ids(before.events));
    let failed = |row: EventRecordView|
        row.worktree_id == Some(id) && row.action == "remove_worktree"@ && row.result == "failed"@
            && row.id > own.id;
    lemma_first_match(after.events, failed);
    assert forall|i: int| 0 <= i < after.events.len() implies !failed(
        #[trigger] after.events[i],
    ) by {
        if i < before.events.len() {
            assert(event_ids(before.events)[i] == before.events[i].id);
        }
    }
    if after.failed_removal_after(id, own.id) is Some {
        let m = choose|m: int|
            0 <= m < after.events.len() && after.events[m] == after.failed_removal_after(
                id,
                own.id,
            )->0;
        assert(!failed(after.events[m]));
    }
    let standing = |row: EventRecordView|
        row.worktree_id == Some(id) && row.action == "remove_worktree"@ && (row.result
            == "started"@ || row.result == "succeeded"@) && after.failed_removal_after(
            id,
            row.id,
        ) is None;
    lemma_first_match(after.events, standing);
    assert(standing(after.events[after.events.len() - 1]));
}

/// A removal that had begun when the program was interrupted, and that Git has
/// carried out since, succeeds when it is asked for again: the worktree is reported
/// as removed, and its branch is looked for only if it is to be deleted. That holds
/// unless the worktree was archived.
pub proof fn begun_removal_can_be_repeated(
    service: ServiceView,
    requested: PlaceView,
    delete_branch: bool,
    actor: Seq<char>,
    minimum_age: i64,
    before: Seq<ListedWorktreeView>,
    prepared: i64,
    removal: RemovalView,
    seen: ObservationView,
    begun: i64,
    worktrees: Seq<ListedWorktreeView>,
    later: i64,
)
    requires
        service.inventory.consistent(),
        removal.requested.path == removal.listed.worktree.path,
        removal.record.lifecycle_state != "archived"@,
        worktree_there(worktrees, requested.resolved_path) is None,
        listed_at(worktrees, requested.path) is None,
        ({
            let first = service.remove(
                requested,
                delete_branch,
                actor,
                minimum_age,
                before,
                prepared,
            );
            let start = service.with_inventory(first.0).remove_start(removal, seen, begun);
            &&& first.1 == Ok::<_, ServiceErrorView>(RemoveStepView::Inspect(removal))
            &&& start.1 is Ok
            &&& service.with_inventory(start.0).refresh(worktrees, later).1 is Ok
        }),
    ensures
        ({
            let first = service.remove(
                requested,
                delete_branch,
                actor,
                minimum_age,
                before,
                prepared,
            );
            let start = service.with_inventory(first.0).remove_start(removal, seen, begun);
            let again = service.with_inventory(start.0).remove(
                requested,
                delete_branch,
                actor,
                minimum_age,
                worktrees,
                later,
            );
            match again.1 {
                Ok(RemoveStepView::Done(result)) => result.path == requested.path
                    && !result.branch_deleted && (delete_branch ==> result.branch is None),
                Ok(RemoveStepView::CheckBranch(retry)) => delete_branch && retry.path
                    == requested.path,
                _ => false,
            }
        }),
{
    let repository = service.inventory_repository();
    let first = service.remove(requested, delete_branch, actor, minimum_age, before, prepared);
    let held = service.with_inventory(first.0);
    let start = held.remove_start(removal, seen, begun);
    let path = removal.listed.worktree.path;
    preparing_removal_keeps_consistent(
        service,
        requested,
        delete_branch,
        actor,
        minimum_age,
        before,
        removal,
        seen,
        prepared,
    );
    preparing_removal_keeps_consistent(
        held,
        requested,
        delete_branch,
        actor,
        minimum_age,
        before,
        removal,
        seen,
        begun,
    );
    // The repository and the record are in the inventory that the removal began with.
    let (opened, _) = service.inventory.register_repository(repository, prepared)->Ok_0;
    lemma_registered_again(service.inventory, repository, prepared);
    lemma_reconciled_repository(opened, repository, before, prepared);
    lemma_registered_again(opened, repository, prepared);
    lemma_listed_record(first.0, removal.repository_id, path);
    lemma_begun_removal_stands(held, removal, seen, begun);
    let wanted = |row: WorktreeRecordView|
        row.repository_id == removal.repository_id && row.path == path;
    lemma_first_match(first.0.worktrees, wanted);
    let place = choose|i: int|
        0 <= i < first.0.worktrees.len() && first.0.worktrees[i] == removal.record;
    // Reconciling recognises that it was carried out.
    lemma_registered_again(start.0, repository, later);
    registering_repository_keeps_consistent(start.0, repository, later);
    let (registered, _) = start.0.register_repository(repository, later)->Ok_0;
    lemma_registered_again(registered, repository, later);
    lemma_same_standing_removal(start.0, registered, removal.record.id);
    begun_removal_is_recognised(registered, repository, worktrees, place, later);
    let after = registered.reconcile_repository(repository, worktrees, later).0;
    let gone = after.worktrees[place];
    every_worktree_is_listed(after, removal.repository_id, gone);
    let records = after.worktrees_of(removal.repository_id);
    let removed = |row: WorktreeRecordView| row.path == path && row.lifecycle_state == "removed"@;
    lemma_first_match(records, removed);
    assert(after.worktrees.contains(gone));
    let k = choose|k: int| 0 <= k < records.len() && records[k] == gone;
    assert(removed(records[k]));
    assert(removed_record(records, requested.path) is Some);
}

} // verus!
