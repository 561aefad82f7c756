//! Creating a worktree twice under one key.

use crate::git::error::GitErrorView;
use crate::git::reads::CommandOutputView;
use crate::inventory::again::is_there;
use crate::inventory::again::knows;
use crate::inventory::again::knows_all;
use crate::inventory::again::lemma_listed_record;
use crate::inventory::again::lemma_reconciled_repository;
use crate::inventory::again::lemma_registered_again;
use crate::inventory::again::reconciling_again_changes_little;
use crate::inventory::again::is_kept;
use crate::inventory::again::reconciling_keeps_reservations;
use crate::inventory::again::same_reservations;
use crate::inventory::again::stands;
use crate::inventory::laws::idempotency_key;
use crate::inventory::laws::lemma_same_key;
use crate::inventory::laws::registering_repository_keeps_consistent;
use crate::inventory::laws::worktree_key;
use crate::inventory::promises::held_path_or_branch_is_refused;
use crate::inventory::promises::key_holds;
use crate::inventory::promises::lemma_first_match_map;
use crate::inventory::promises::paths_differ;
use crate::inventory::records::text_fault;
use crate::inventory::records::ReservationRecordView;
use crate::inventory::records::WorktreeRecordView;
use crate::inventory::reservations::holds;
use crate::inventory::state::InventoryView;
use crate::inventory::table::lemma_first_match;
use crate::inventory::worktrees::listed_at;
use crate::inventory::worktrees::ListedWorktreeView;
use crate::service::create::CreateStepView;
use crate::service::create::PendingCreateView;
use crate::service::error::ServiceErrorView;
use crate::service::laws::creating_worktree_keeps_consistent;
use crate::service::rules::create_fault;
use crate::service::rules::worktree_there;
use crate::service::state::record_at;
use crate::service::state::ServiceView;
use crate::service::types::CreateRequestView;
use crate::service::types::CreateResultView;
use crate::service::types::PlaceView;
use vstd::prelude::*;

verus! {

/// The reservation at index `i` sets a path and a branch aside under a key.
spec fn set_aside_at(
    inventory: InventoryView,
    i: int,
    pending: PendingCreateView,
    key: Seq<char>,
) -> bool {
    &&& 0 <= i < inventory.reservations.len()
    &&& inventory.reservations[i].id == pending.reservation_id
    &&& inventory.reservations[i].repository_id == pending.repository_id
    &&& inventory.reservations[i].path == pending.target.path
    &&& inventory.reservations[i].branch == pending.branch
    &&& inventory.reservations[i].idempotency_key == Some(key)
}

proof fn lemma_reserved(
    service: ServiceView,
    request: CreateRequestView,
    target: PlaceView,
    worktrees: Seq<ListedWorktreeView>,
    exists_already: bool,
    now: i64,
) -> (i: int)
    requires
        service.inventory.consistent(),
        request.idempotency_key is Some,
        service.create(request, target, worktrees, exists_already, now).1 matches Ok(step)
            && step is RunGit,
    ensures
        ({
            let (reserved, outcome) = service.create(
                request,
                target,
                worktrees,
                exists_already,
                now,
            );
            let pending = outcome->Ok_0->RunGit_0;
            let repository = service.inventory_repository();
            &&& create_fault(request) is None
            &&& text_fault(request.idempotency_key->0) is None
            &&& service.inventory.register_repository(repository, now) is Ok
            &&& reserved.consistent()
            &&& reserved.repository_at(repository.common_git_dir) matches Some(row) && row.id
                == pending.repository_id
            &&& pending.target == target
            &&& pending.branch == request.branch
            &&& set_aside_at(reserved, i, pending, request.idempotency_key->0)
            &&& reserved.reservations[i].state == "pending"@
        }),
{
    let (reserved, outcome) = service.create(request, target, worktrees, exists_already, now);
    let pending = outcome->Ok_0->RunGit_0;
    let key = request.idempotency_key->0;
    let repository = service.inventory_repository();
    creating_worktree_keeps_consistent(
        service,
        request,
        target,
        worktrees,
        exists_already,
        pending,
        Err(GitErrorView::InvalidOutput(key)),
        GitErrorView::InvalidOutput(key),
        now,
    );
    let (current, refreshed) = service.refresh(worktrees, now);
    let (registered, first) = service.inventory.register_repository(repository, now)->Ok_0;
    lemma_registered_again(service.inventory, repository, now);
    lemma_reconciled_repository(registered, repository, worktrees, now);
    lemma_registered_again(registered, repository, now);
    let (held, reservation) = current.reserve_creation(
        first.id,
        target.path,
        request.branch,
        Some(key),
        now,
    )->Ok_0;
    let by_key = |row: ReservationRecordView|
        row.repository_id == first.id && row.idempotency_key == Some(key);
    lemma_first_match(current.reservations, by_key);
    if current.reservation_for_key(first.id, key) is Some {
        let i = choose|i: int|
            0 <= i < current.reservations.len() && current.reservations[i] == reservation;
        i
    } else {
        current.reservations.len() as int
    }
}

proof fn lemma_refreshed_again(
    service: ServiceView,
    repository_id: i64,
    listed: Seq<ListedWorktreeView>,
    path: Seq<char>,
    i: int,
    now: i64,
)
    requires
        service.inventory.consistent(),
        service.inventory.register_repository(service.inventory_repository(), now) is Ok,
        service.inventory.repository_at(service.repository.common_git_dir) matches Some(row)
            && row.id == repository_id,
        knows_all(service.inventory, repository_id, listed),
        0 <= i < service.inventory.reservations.len(),
        stands(
            service.inventory,
            repository_id,
            listed,
            service.inventory.reservations[i],
            path,
        ),
    ensures
        ({
            let (after, outcome) = service.refresh(listed, now);
            &&& outcome matches Ok((record, records)) && record.id == repository_id && record_at(
                records,
                path,
            ) == after.worktree_at(repository_id, path)
            &&& after.consistent()
            &&& after.repository_at(service.repository.common_git_dir) matches Some(row) && row.id
                == repository_id
            &&& knows_all(after, repository_id, listed)
            &&& same_reservations(service.inventory.reservations, after.reservations)
            &&& after.reservations[i] == service.inventory.reservations[i]
            &&& stands(after, repository_id, listed, after.reservations[i], path)
        }),
{
    let repository = service.inventory_repository();
    lemma_registered_again(service.inventory, repository, now);
    registering_repository_keeps_consistent(service.inventory, repository, now);
    let (registered, record) = service.inventory.register_repository(repository, now)->Ok_0;
    assert forall|k: int| 0 <= k < listed.len() implies knows(
        registered,
        repository_id,
        #[trigger] listed[k],
    ) by {
        assert(knows(service.inventory, repository_id, listed[k]));
    }
    reconciling_again_changes_little(
        registered,
        repository,
        repository_id,
        listed,
        path,
        i,
        now,
    );
    let after = registered.reconcile_repository(repository, listed, now).0;
    lemma_listed_record(after, repository_id, path);
}

proof fn lemma_fulfilled(
    service: ServiceView,
    pending: PendingCreateView,
    worktrees: Seq<ListedWorktreeView>,
    key: Seq<char>,
    i: int,
    now: i64,
)
    requires
        service.inventory.consistent(),
        service.inventory.repository_at(service.repository.common_git_dir) matches Some(row)
            && row.id == pending.repository_id,
        set_aside_at(service.inventory, i, pending, key),
        service.inventory.reservations[i].state == "pending"@,
        service.create_finish(pending, worktrees, now).1 is Ok,
    ensures
        ({
            let (created, outcome) = service.create_finish(pending, worktrees, now);
            &&& created.consistent()
            &&& created.repository_at(service.repository.common_git_dir) matches Some(row)
                && row.id == pending.repository_id
            &&& paths_differ(worktrees) && is_there(worktrees, pending.target.path) ==> knows_all(
                created,
                pending.repository_id,
                worktrees,
            )
            &&& set_aside_at(created, i, pending, key)
            &&& created.reservations[i].state == "succeeded"@
            &&& created.worktree_at(pending.repository_id, pending.target.path) is Some
            &&& created.reservations[i].worktree_id == Some(outcome->Ok_0.record.id)
            &&& created.worktree_at(pending.repository_id, pending.target.path)->0.id
                == outcome->Ok_0.record.id
        }),
{
    reveal_strlit("pending");
    reveal_strlit("succeeded");
    assert("pending"@.len() != "succeeded"@.len());
    let repository = service.inventory_repository();
    let path = pending.target.path;
    let rid = pending.repository_id;
    creating_worktree_keeps_consistent(
        service,
        arbitrary(),
        pending.target,
        worktrees,
        false,
        pending,
        Err(GitErrorView::InvalidOutput(key)),
        GitErrorView::InvalidOutput(key),
        now,
    );
    let (created, outcome) = service.create_finish(pending, worktrees, now);
    let (current, refreshed) = service.refresh(worktrees, now);
    lemma_registered_again(service.inventory, repository, now);
    registering_repository_keeps_consistent(service.inventory, repository, now);
    let (registered, first) = service.inventory.register_repository(repository, now)->Ok_0;
    lemma_registered_again(registered, repository, now);
    reconciling_keeps_reservations(registered, repository, worktrees, path, i, now);
    lemma_listed_record(current, rid, path);
    let record = outcome->Ok_0.record;
    assert(current.worktree_at(rid, path) == Some(record));
    let wanted = |row: WorktreeRecordView| row.repository_id == rid && row.path == path;
    lemma_first_match(current.worktrees, wanted);
    let own = choose|p: int| 0 <= p < current.worktrees.len() && current.worktrees[p] == record;
    let change = |row: WorktreeRecordView|
        if row.id == record.id {
            WorktreeRecordView {
                created_at: Some(now),
                lifecycle_state: "active"@,
                removed_at: None,
                ..row
            }
        } else {
            row
        };
    assert(created.worktrees == current.worktrees.map_values(change));
    if paths_differ(worktrees) && is_there(worktrees, path) {
        assert forall|k: int| 0 <= k < worktrees.len() implies knows(
            created,
            rid,
            #[trigger] worktrees[k],
        ) by {
            let item = worktrees[k];
            assert(knows(current, rid, item));
            let at = |row: WorktreeRecordView|
                row.repository_id == rid && row.path == item.worktree.path;
            lemma_first_match_map(current.worktrees, at, change);
            lemma_first_match(current.worktrees, at);
            let row = current.worktree_at(rid, item.worktree.path)->0;
            if row.id == record.id {
                let p = choose|p: int|
                    0 <= p < current.worktrees.len() && current.worktrees[p] == row;
                lemma_same_key(current.worktrees, worktree_key(), p, own);
                let listed_here = |one: ListedWorktreeView| one.worktree.path == path;
                lemma_first_match(worktrees, listed_here);
                let first_here = choose|m: int|
                    0 <= m < worktrees.len() && worktrees[m] == listed_at(worktrees, path)->0;
                if first_here < k {
                    assert(worktrees[first_here].worktree.path != worktrees[k].worktree.path);
                } else if k < first_here {
                    assert(worktrees[k].worktree.path != worktrees[first_here].worktree.path);
                }
                assert(item.lifecycle() == "active"@);
            }
        }
    }
    lemma_first_match_map(current.worktrees, wanted, change);
    let by_id = |row: ReservationRecordView| row.id == pending.reservation_id;
    lemma_first_match(current.reservations, by_id);
}

pub proof fn lemma_refreshed(
    service: ServiceView,
    repository_id: i64,
    listed: Seq<ListedWorktreeView>,
    path: Seq<char>,
    i: int,
    now: i64,
)
    requires
        service.inventory.consistent(),
        service.refresh(listed, now).1 is Ok,
        service.inventory.repository_at(service.repository.common_git_dir) matches Some(row)
            && row.id == repository_id,
        0 <= i < service.inventory.reservations.len(),
        is_kept(
            service.inventory,
            repository_id,
            listed,
            service.inventory.reservations[i],
            path,
        ),
    ensures
        ({
            let (after, outcome) = service.refresh(listed, now);
            &&& outcome matches Ok((record, records)) && record.id == repository_id && record_at(
                records,
                path,
            ) == after.worktree_at(repository_id, path)
            &&& after.consistent()
            &&& after.repository_at(service.repository.common_git_dir) matches Some(row) && row.id
                == repository_id
            &&& paths_differ(listed) ==> knows_all(after, repository_id, listed)
            &&& same_reservations(service.inventory.reservations, after.reservations)
            &&& after.reservations[i] == service.inventory.reservations[i]
            &&& stands(
                service.inventory,
                repository_id,
                listed,
                service.inventory.reservations[i],
                path,
            ) ==> stands(after, repository_id, listed, after.reservations[i], path)
        }),
{
    let repository = service.inventory_repository();
    lemma_registered_again(service.inventory, repository, now);
    registering_repository_keeps_consistent(service.inventory, repository, now);
    let (registered, record) = service.inventory.register_repository(repository, now)->Ok_0;
    lemma_registered_again(registered, repository, now);
    reconciling_keeps_reservations(registered, repository, listed, path, i, now);
    let after = registered.reconcile_repository(repository, listed, now).0;
    lemma_listed_record(after, repository_id, path);
}

/// Whether a key was fulfilled: its reservation succeeded for a path and a branch,
/// with the worktree that the inventory knows at that path.
pub open spec fn is_fulfilled(
    inventory: InventoryView,
    repository_id: i64,
    key: Seq<char>,
    path: Seq<char>,
    branch: Seq<char>,
) -> bool {
    match inventory.reservation_for_key(repository_id, key) {
        None => false,
        Some(row) => {
            &&& row.state == "succeeded"@
            &&& row.path == path
            &&& row.branch == branch
            &&& inventory.worktree_at(repository_id, path) matches Some(worktree)
                && row.worktree_id == Some(worktree.id)
        },
    }
}

/// A request that created a worktree has fulfilled its key.
pub proof fn creation_fulfils_its_key(
    service: ServiceView,
    request: CreateRequestView,
    target: PlaceView,
    before: Seq<ListedWorktreeView>,
    exists_already: bool,
    pending: PendingCreateView,
    attempt: Result<CommandOutputView, GitErrorView>,
    worktrees: Seq<ListedWorktreeView>,
    result: CreateResultView,
    started: i64,
    ran: i64,
    finished: i64,
)
    requires
        service.inventory.consistent(),
        request.idempotency_key is Some,
        ({
            let first = service.create(request, target, before, exists_already, started);
            let run = service.with_inventory(first.0).create_after_git(pending, attempt, ran);
            let last = service.with_inventory(run.0).create_finish(pending, worktrees, finished);
            &&& first.1 == Ok::<_, ServiceErrorView>(
                CreateStepView::RunGit(pending),
            )
            &&& run.1 is Ok
            &&& last.1 == Ok::<_, ServiceErrorView>(result)
        }),
    ensures
        ({
            let first = service.create(request, target, before, exists_already, started);
            let run = service.with_inventory(first.0).create_after_git(pending, attempt, ran);
            let last = service.with_inventory(run.0).create_finish(pending, worktrees, finished);
            let key = request.idempotency_key->0;
            &&& create_fault(request) is None
            &&& text_fault(key) is None
            &&& last.0.consistent()
            &&& last.0.repository_at(service.repository.common_git_dir) matches Some(row)
                && row.id == pending.repository_id
            &&& is_fulfilled(last.0, pending.repository_id, key, target.path, request.branch)
            &&& last.0.worktree_at(pending.repository_id, target.path)->0.id == result.record.id
        }),
{
    let key = request.idempotency_key->0;
    let rid = pending.repository_id;
    let i = lemma_reserved(service, request, target, before, exists_already, started);
    let first = service.create(request, target, before, exists_already, started);
    let run = service.with_inventory(first.0).create_after_git(pending, attempt, ran);
    assert(run.0 == first.0);
    let held = service.with_inventory(run.0);
    lemma_fulfilled(held, pending, worktrees, key, i, finished);
    let last = held.create_finish(pending, worktrees, finished);
    let by_key = |row: ReservationRecordView|
        row.repository_id == rid && row.idempotency_key == Some(key);
    lemma_first_match(last.0.reservations, by_key);
    assert(by_key(last.0.reservations[i]));
    let j = choose|j: int|
        0 <= j < last.0.reservations.len() && last.0.reservations[j]
            == last.0.reservation_for_key(rid, key)->0;
    lemma_same_key(last.0.reservations, idempotency_key(), i, j);
}

/// In every state in which a key was fulfilled, and Git lists the worktree and it is
/// there, a request under that key for that path and branch gets that worktree: no
/// other one is created. What Git lists must be such that it can be entered into the
/// inventory, and entered again; the latter it can where it lists no path twice.
pub proof fn fulfilled_key_reuses_the_worktree(
    service: ServiceView,
    repository_id: i64,
    request: CreateRequestView,
    target: PlaceView,
    worktrees: Seq<ListedWorktreeView>,
    target_exists: bool,
    now: i64,
)
    requires
        service.inventory.consistent(),
        create_fault(request) is None,
        request.idempotency_key is Some,
        text_fault(request.idempotency_key->0) is None,
        service.inventory.repository_at(service.repository.common_git_dir) matches Some(row)
            && row.id == repository_id,
        is_fulfilled(
            service.inventory,
            repository_id,
            request.idempotency_key->0,
            target.path,
            request.branch,
        ),
        is_there(worktrees, target.path),
        worktree_there(worktrees, target.resolved_path) is Some,
        service.refresh(worktrees, now).1 is Ok,
        paths_differ(worktrees) || service.with_inventory(
            service.refresh(worktrees, now).0,
        ).refresh(worktrees, now).1 is Ok,
    ensures
        match service.create(request, target, worktrees, target_exists, now).1 {
            Ok(CreateStepView::Done(repeated)) => {
                &&& repeated.already_existed
                &&& repeated.worktree == worktree_there(
                    worktrees,
                    target.resolved_path,
                )->0.worktree
                &&& repeated.record.id == service.inventory.worktree_at(
                    repository_id,
                    target.path,
                )->0.id
            },
            _ => false,
        },
{
    let key = request.idempotency_key->0;
    let path = target.path;
    let by_key = |row: ReservationRecordView|
        row.repository_id == repository_id && row.idempotency_key == Some(key);
    lemma_first_match(service.inventory.reservations, by_key);
    let i = choose|i: int|
        0 <= i < service.inventory.reservations.len() && service.inventory.reservations[i]
            == service.inventory.reservation_for_key(repository_id, key)->0;
    lemma_refreshed(service, repository_id, worktrees, path, i, now);
    let (current, refreshed) = service.refresh(worktrees, now);
    lemma_first_match(current.reservations, by_key);
    assert(by_key(current.reservations[i]));
    let existing = current.reservation_for_key(repository_id, key)->0;
    let j = choose|j: int|
        0 <= j < current.reservations.len() && current.reservations[j] == existing;
    lemma_same_key(current.reservations, idempotency_key(), i, j);
    let repeat = service.with_inventory(current);
    if paths_differ(worktrees) {
        lemma_refreshed_again(repeat, repository_id, worktrees, path, i, now);
    } else {
        lemma_refreshed(repeat, repository_id, worktrees, path, i, now);
    }
}

/// While a path or a branch is set aside, a request that has not set both aside under
/// its key fails, and sets nothing aside: Git is not run. A reservation that succeeded
/// counts as long as Git lists its worktree and that is there.
pub proof fn taken_path_or_branch_is_refused(
    service: ServiceView,
    repository_id: i64,
    request: CreateRequestView,
    target: PlaceView,
    worktrees: Seq<ListedWorktreeView>,
    target_exists: bool,
    i: int,
    now: i64,
)
    requires
        service.inventory.consistent(),
        service.inventory.repository_at(service.repository.common_git_dir) matches Some(row)
            && row.id == repository_id,
        0 <= i < service.inventory.reservations.len(),
        service.inventory.reservations[i].repository_id == repository_id,
        holds(service.inventory.reservations[i].state),
        service.inventory.reservations[i].path == target.path
            || service.inventory.reservations[i].branch == request.branch,
        is_kept(
            service.inventory,
            repository_id,
            worktrees,
            service.inventory.reservations[i],
            service.inventory.reservations[i].path,
        ),
        !key_holds(
            service.inventory,
            repository_id,
            request.idempotency_key,
            target.path,
            request.branch,
        ),
    ensures
        service.create(request, target, worktrees, target_exists, now).1 is Err,
        same_reservations(
            service.inventory.reservations,
            service.create(request, target, worktrees, target_exists, now).0.reservations,
        ),
{
    let repository = service.inventory_repository();
    if service.inventory.register_repository(repository, now) is Ok {
        let (registered, _) = service.inventory.register_repository(repository, now)->Ok_0;
        lemma_registered_again(service.inventory, repository, now);
        if registered.register_repository(repository, now) is Ok {
            lemma_registered_again(registered, repository, now);
        }
    }
    let (current, refreshed) = service.refresh(worktrees, now);
    if refreshed is Ok {
        let path = service.inventory.reservations[i].path;
        lemma_refreshed(service, repository_id, worktrees, path, i, now);
        if let Some(key) = request.idempotency_key {
            let by_key = |row: ReservationRecordView|
                row.repository_id == repository_id && row.idempotency_key == Some(key);
            lemma_first_match(service.inventory.reservations, by_key);
            lemma_first_match(current.reservations, by_key);
            if current.reservation_for_key(repository_id, key) is Some {
                let j = choose|j: int|
                    0 <= j < current.reservations.len() && current.reservations[j]
                        == current.reservation_for_key(repository_id, key)->0;
                assert(by_key(service.inventory.reservations[j]));
                let own = service.inventory.reservation_for_key(repository_id, key)->0;
                let m = choose|m: int|
                    0 <= m < service.inventory.reservations.len()
                        && service.inventory.reservations[m] == own;
                lemma_same_key(service.inventory.reservations, idempotency_key(), j, m);
            }
        }
        held_path_or_branch_is_refused(
            current,
            repository_id,
            target.path,
            request.branch,
            request.idempotency_key,
            now,
            i,
        );
    }
}

/// A request that is repeated under its key after it created a worktree gets that
/// worktree, as long as Git lists it and it is there: no other one is created.
pub proof fn repeated_creation_reuses_the_worktree(
    service: ServiceView,
    request: CreateRequestView,
    target: PlaceView,
    before: Seq<ListedWorktreeView>,
    exists_already: bool,
    pending: PendingCreateView,
    attempt: Result<CommandOutputView, GitErrorView>,
    worktrees: Seq<ListedWorktreeView>,
    result: CreateResultView,
    exists_later: bool,
    started: i64,
    ran: i64,
    finished: i64,
    later: i64,
)
    requires
        service.inventory.consistent(),
        request.idempotency_key is Some,
        paths_differ(worktrees),
        is_there(worktrees, target.path),
        ({
            let first = service.create(request, target, before, exists_already, started);
            let run = service.with_inventory(first.0).create_after_git(pending, attempt, ran);
            let last = service.with_inventory(run.0).create_finish(pending, worktrees, finished);
            &&& first.1 == Ok::<_, ServiceErrorView>(
                CreateStepView::RunGit(pending),
            )
            &&& run.1 is Ok
            &&& last.1 == Ok::<_, ServiceErrorView>(result)
        }),
    ensures
        ({
            let first = service.create(request, target, before, exists_already, started);
            let run = service.with_inventory(first.0).create_after_git(pending, attempt, ran);
            let last = service.with_inventory(run.0).create_finish(pending, worktrees, finished);
            let again = service.with_inventory(last.0).create(
                request,
                target,
                worktrees,
                exists_later,
                later,
            );
            match again.1 {
                Ok(CreateStepView::Done(repeated)) => {
                    &&& repeated.already_existed
                    &&& repeated.worktree == result.worktree
                    &&& repeated.record.id == result.record.id
                },
                _ => false,
            }
        }),
{
    let key = request.idempotency_key->0;
    let rid = pending.repository_id;
    let path = target.path;
    let i = lemma_reserved(service, request, target, before, exists_already, started);
    let first = service.create(request, target, before, exists_already, started);
    let run = service.with_inventory(first.0).create_after_git(pending, attempt, ran);
    assert(run.0 == first.0);
    let held = service.with_inventory(run.0);
    lemma_fulfilled(held, pending, worktrees, key, i, finished);
    let last = held.create_finish(pending, worktrees, finished);
    let done = service.with_inventory(last.0);
    lemma_refreshed_again(done, rid, worktrees, path, i, later);
    let (current, refreshed) = done.refresh(worktrees, later);
    let by_key = |row: ReservationRecordView|
        row.repository_id == rid && row.idempotency_key == Some(key);
    lemma_first_match(current.reservations, by_key);
    assert(by_key(current.reservations[i]));
    let existing = current.reservation_for_key(rid, key)->0;
    let j = choose|j: int|
        0 <= j < current.reservations.len() && current.reservations[j] == existing;
    lemma_same_key(current.reservations, idempotency_key(), i, j);
    let repeat = service.with_inventory(current);
    lemma_refreshed_again(repeat, rid, worktrees, path, i, later);
}

} // verus!
