//! What the events of operations that failed tell of them.

use crate::git::error::GitErrorView;
use crate::git::reads::CommandOutputView;
use crate::inventory::records::EventInputView;
use crate::inventory::state::InventoryView;
use crate::json::fields::has_fields;
use crate::json::fields::tells;
use crate::json::value::Json;
use crate::json::writer::json_text;
use crate::service::cleanup::ObservationView;
use crate::service::create::create_failure_json;
use crate::service::create::PendingCreateView;
use crate::service::create::with_failed_reservation;
use crate::service::create::worktree_event;
use crate::service::error::ServiceErrorView;
use crate::service::lock::lock_failure_json;
use crate::service::lock::PendingLockView;
use crate::service::remove::branch_failure_json;
use crate::service::remove::BranchDeletionView;
use crate::service::remove::RemovalView;
use crate::service::remove::remove_blocked_json;
use crate::service::remove::remove_failure_json;
use crate::service::state::ServiceView;
use vstd::prelude::*;

verus! {

/// Whether an inventory comes from another by recording an event, where that is possible.
pub open spec fn notes(before: InventoryView, after: InventoryView, event: EventInputView) -> bool {
    match before.record_event(event) {
        Ok((recorded, _)) => after == recorded,
        Err(_) => after == before,
    }
}

/// Whether an event tells of a failure in some details, with where, when and for whom.
pub open spec fn tells_of_failure(
    event: EventInputView,
    repository_id: i64,
    worktree_id: Option<i64>,
    now: i64,
    actor: Seq<char>,
    action: Seq<char>,
    value: Json,
) -> bool {
    &&& event.repository_id == repository_id
    &&& event.worktree_id == worktree_id
    &&& event.occurred_at == now
    &&& event.actor == actor
    &&& event.action == action
    &&& event.result == "failed"@
    &&& event.details_json == json_text(value)
}

/// The event of a creation that Git refused tells where, for which branch, and what Git
/// said.
pub proof fn failed_creation_is_told(
    service: ServiceView,
    pending: PendingCreateView,
    attempt: Result<CommandOutputView, GitErrorView>,
    now: i64,
)
    ensures
        service.create_after_git(pending, attempt, now) matches (
            after,
            Err(ServiceErrorView::Git(error)),
        )
            ==> exists|before: InventoryView, event: EventInputView, value: Json|
            #[trigger] notes(before, after, event) && before.events == service.inventory.events
                && #[trigger] tells_of_failure(
                event,
                pending.repository_id,
                None,
                now,
                pending.actor,
                "create_worktree"@,
                value,
            ) && has_fields(value, 3) && tells(
                value,
                "path"@,
                Json::Str(pending.target.path),
            ) && tells(
                value,
                "branch"@,
                Json::Str(pending.branch),
            ) && tells(
                value,
                "error"@,
                Json::Str(error.text()),
            ),
{
    if let (
        after,
        Err(ServiceErrorView::Git(error)),
    ) = service.create_after_git(pending, attempt, now) {
        let value = create_failure_json(pending.target.path, pending.branch, error.text());
        assert(value->Object_0[0] == ("path"@, Json::Str(pending.target.path)));
        assert(value->Object_0[1] == ("branch"@, Json::Str(pending.branch)));
        assert(value->Object_0[2] == ("error"@, Json::Str(error.text())));
        let event = worktree_event(
            pending.repository_id,
            None,
            now,
            pending.actor,
            "create_worktree"@,
            "failed"@,
            value,
        );
        assert(tells_of_failure(
            event,
            pending.repository_id,
            None,
            now,
            pending.actor,
            "create_worktree"@,
            value,
        ));
        assert(
            notes(
                with_failed_reservation(service.inventory, pending.reservation_id, now),
                after,
                event,
            )
        );
    }
}

/// The event of a lock or an unlock that Git refused tells which of the two, where, and
/// what Git said.
pub proof fn failed_lock_is_told(
    service: ServiceView,
    pending: PendingLockView,
    attempt: Result<CommandOutputView, GitErrorView>,
    now: i64,
    action: Seq<char>,
)
    requires
        action == (if pending.lock {
            "lock_worktree"@
        } else {
            "unlock_worktree"@
        }),
    ensures
        service.lock_after_git(pending, attempt, now) matches (
            after,
            Err(ServiceErrorView::Git(error)),
        )
            ==> exists|before: InventoryView, event: EventInputView, value: Json|
            #[trigger] notes(before, after, event) && before.events == service.inventory.events
                && #[trigger] tells_of_failure(
                event,
                pending.repository_id,
                pending.worktree_id,
                now,
                pending.actor,
                action,
                value,
            ) && has_fields(value, 2) && tells(
                value,
                "path"@,
                Json::Str(pending.path),
            ) && tells(
                value,
                "error"@,
                Json::Str(error.text()),
            ),
{
    if let (
        after,
        Err(ServiceErrorView::Git(error)),
    ) = service.lock_after_git(pending, attempt, now) {
        let value = lock_failure_json(pending.path, error.text());
        assert(value->Object_0[0] == ("path"@, Json::Str(pending.path)));
        assert(value->Object_0[1] == ("error"@, Json::Str(error.text())));
        let event = worktree_event(
            pending.repository_id,
            pending.worktree_id,
            now,
            pending.actor,
            action,
            "failed"@,
            value,
        );
        assert(tells_of_failure(
            event,
            pending.repository_id,
            pending.worktree_id,
            now,
            pending.actor,
            action,
            value,
        ));
        assert(notes(service.inventory, after, event));
    }
}

/// The event of a removal that Git refused tells where and what Git said.
pub proof fn failed_removal_is_told(
    service: ServiceView,
    removal: RemovalView,
    attempt: Result<CommandOutputView, GitErrorView>,
    now: i64,
)
    ensures
        service.remove_after_git(removal, attempt, now) matches (
            after,
            Err(ServiceErrorView::Git(error)),
        )
            ==> exists|before: InventoryView, event: EventInputView, value: Json|
            #[trigger] notes(before, after, event) && before.events == service.inventory.events
                && #[trigger] tells_of_failure(
                event,
                removal.repository_id,
                Some(removal.record.id),
                now,
                removal.actor,
                "remove_worktree"@,
                value,
            ) && has_fields(value, 2) && tells(
                value,
                "path"@,
                Json::Str(removal.listed.worktree.path),
            ) && tells(
                value,
                "error"@,
                Json::Str(error.text()),
            ),
{
    if let (
        after,
        Err(ServiceErrorView::Git(error)),
    ) = service.remove_after_git(removal, attempt, now) {
        let value = remove_failure_json(removal.listed.worktree.path, error.text());
        assert(value->Object_0[0] == ("path"@, Json::Str(removal.listed.worktree.path)));
        assert(value->Object_0[1] == ("error"@, Json::Str(error.text())));
        let event = worktree_event(
            removal.repository_id,
            Some(removal.record.id),
            now,
            removal.actor,
            "remove_worktree"@,
            "failed"@,
            value,
        );
        assert(tells_of_failure(
            event,
            removal.repository_id,
            Some(removal.record.id),
            now,
            removal.actor,
            "remove_worktree"@,
            value,
        ));
        assert(notes(service.inventory, after, event));
    }
}

/// The event of a branch that could not be deleted names it and tells what Git said.
pub proof fn kept_branch_is_told(
    service: ServiceView,
    removal: RemovalView,
    deletion: BranchDeletionView,
    attempt: Result<CommandOutputView, GitErrorView>,
    now: i64,
)
    ensures
        service.remove_finish(removal, deletion, attempt, now) matches (
            after,
            Err(ServiceErrorView::BranchDeletionFailed { branch, source }),
        )
            ==> branch == deletion.branch
            && exists|before: InventoryView, event: EventInputView, value: Json|
            #[trigger] notes(before, after, event) && before.events == service.inventory.events
                && #[trigger] tells_of_failure(
                event,
                removal.repository_id,
                Some(removal.record.id),
                now,
                removal.actor,
                "delete_branch"@,
                value,
            ) && has_fields(value, 2) && tells(
                value,
                "branch"@,
                Json::Str(deletion.branch),
            ) && tells(
                value,
                "error"@,
                Json::Str(source.text()),
            ),
{
    if let (
        after,
        Err(ServiceErrorView::BranchDeletionFailed { branch, source }),
    ) = service.remove_finish(removal, deletion, attempt, now) {
        let value = branch_failure_json(deletion.branch, source.text());
        assert(value->Object_0[0] == ("branch"@, Json::Str(deletion.branch)));
        assert(value->Object_0[1] == ("error"@, Json::Str(source.text())));
        let event = worktree_event(
            removal.repository_id,
            Some(removal.record.id),
            now,
            removal.actor,
            "delete_branch"@,
            "failed"@,
            value,
        );
        assert(tells_of_failure(
            event,
            removal.repository_id,
            Some(removal.record.id),
            now,
            removal.actor,
            "delete_branch"@,
            value,
        ));
        assert(notes(service.inventory, after, event));
    }
}

/// The event of a removal that was begun and is stopped, because something now stands
/// against it, tells where and everything that does.
pub proof fn stopped_removal_is_told(
    service: ServiceView,
    removal: RemovalView,
    seen: ObservationView,
    now: i64,
)
    ensures
        service.remove_confirm(removal, seen, now) matches (
            after,
            Err(ServiceErrorView::UnsafeRemoval { path, blockers }),
        )
            ==> path == removal.requested.path
            && exists|before: InventoryView, event: EventInputView, value: Json|
            #[trigger] notes(before, after, event) && before.events == service.inventory.events
                && #[trigger] tells_of_failure(
                event,
                removal.repository_id,
                Some(removal.record.id),
                now,
                removal.actor,
                "remove_worktree"@,
                value,
            ) && has_fields(value, 2) && tells(
                value,
                "path"@,
                Json::Str(removal.listed.worktree.path),
            ) && tells(
                value,
                "blockers"@,
                Json::Array(Seq::new(blockers.len(), |i: int| Json::Str(blockers[i]))),
            ),
{
    if let (
        after,
        Err(ServiceErrorView::UnsafeRemoval { path, blockers }),
    ) = service.remove_confirm(removal, seen, now) {
        assert(blockers.map_values(|text: Seq<char>| Json::Str(text)) =~= Seq::new(
            blockers.len(),
            |i: int| Json::Str(blockers[i]),
        ));
        let value = remove_blocked_json(removal.listed.worktree.path, blockers);
        assert(value->Object_0[0] == ("path"@, Json::Str(removal.listed.worktree.path)));
        assert(
            value->Object_0[1] == (
                "blockers"@,
                Json::Array(Seq::new(blockers.len(), |i: int| Json::Str(blockers[i]))),
            )
        );
        let event = worktree_event(
            removal.repository_id,
            Some(removal.record.id),
            now,
            removal.actor,
            "remove_worktree"@,
            "failed"@,
            value,
        );
        assert(tells_of_failure(
            event,
            removal.repository_id,
            Some(removal.record.id),
            now,
            removal.actor,
            "remove_worktree"@,
            value,
        ));
        assert(notes(service.inventory, after, event));
    }
}

} // verus!
