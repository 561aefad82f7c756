//! Removing worktrees.

use crate::git::error::GitError;
use crate::git::error::GitErrorView;
use crate::git::reads::CommandOutput;
use crate::git::reads::CommandOutputView;
use crate::git::worktree::GitWorktreeStatus;
use crate::inventory::records::EventInput;
use crate::inventory::records::EventInputView;
use crate::inventory::records::WorktreeRecord;
use crate::inventory::records::WorktreeRecordView;
use crate::inventory::state::Inventory;
use crate::inventory::state::InventoryView;
use crate::inventory::table::find_row;
use crate::inventory::table::first_match;
use crate::inventory::worktrees::ListedWorktree;
use crate::inventory::worktrees::ListedWorktreeView;
use crate::json::value::Json;
use crate::json::writer::Object;
use crate::json::writer::field_texts;
use crate::json::writer::json_text;
use crate::json::writer::lemma_field_texts;
use crate::json::writer::slice_view;
use crate::json::writer::text_or_null;
use crate::process::ProcessError;
use crate::process::ProcessInfo;
use crate::service::assess::assess_worktree;
use crate::service::assess::processes_view;
use crate::service::cleanup::ObservationView;
use crate::service::commands::attempt_failure;
use crate::service::commands::attempt_view;
use crate::service::commands::branch_presence;
use crate::service::commands::branch_ref_args;
use crate::service::commands::branch_ref_command;
use crate::service::commands::delete_branch_args;
use crate::service::commands::delete_branch_command;
use crate::service::commands::local_branch_exists;
use crate::service::commands::remove_args;
use crate::service::commands::remove_command;
use crate::service::commands::run_git;
use crate::service::create::worktree_event;
use crate::service::error::ServiceError;
use crate::service::error::ServiceErrorView;
use crate::service::error::invalid;
use crate::service::error::invalid_request;
use crate::service::rules::age_fault;
use crate::service::rules::find_worktree;
use crate::service::rules::validate_cleanup_age;
use crate::service::rules::worktree_there;
use crate::service::state::RepositoryService;
use crate::service::state::ServiceView;
use crate::service::state::find_record;
use crate::service::state::record_at;
use crate::service::state::with_event_if_possible;
use crate::service::types::CleanupCandidateView;
use crate::service::types::Place;
use crate::service::types::PlaceView;
use crate::service::types::RemoveResult;
use crate::service::types::RemoveResultView;
use crate::service::types::texts_json;
use crate::service::types::texts_to_json;
use crate::text::as_slice;
use crate::text::copy_option;
use crate::text::copy_texts;
use crate::text::same_option;
use crate::text::same_text;
use crate::text::views;
use vstd::prelude::*;

verus! {

/// A worktree that is to be removed.
#[derive(Debug, PartialEq, Eq)]
pub struct Removal {
    pub repository_id: i64,
    /// What the inventory knows of the worktree.
    pub record: WorktreeRecord,
    /// The worktree as Git listed it first.
    pub listed: ListedWorktree,
    pub requested: Place,
    /// Whether its branch is to be deleted too.
    pub delete_branch: bool,
    pub actor: String,
    pub minimum_age: i64,
}

/// The view of a [`Removal`].
#[verifier::ext_equal]
pub struct RemovalView {
    pub repository_id: i64,
    pub record: WorktreeRecordView,
    pub listed: ListedWorktreeView,
    pub requested: PlaceView,
    pub delete_branch: bool,
    pub actor: Seq<char>,
    pub minimum_age: i64,
}

impl View for Removal {
    type V = RemovalView;

    open spec fn view(&self) -> RemovalView {
        RemovalView {
            repository_id: self.repository_id,
            record: self.record@,
            listed: self.listed@,
            requested: self.requested@,
            delete_branch: self.delete_branch,
            actor: self.actor@,
            minimum_age: self.minimum_age,
        }
    }
}

impl Clone for Removal {
    fn clone(&self) -> (copy: Self)
        ensures
            copy@ == self@,
    {
        Removal {
            repository_id: self.repository_id,
            record: self.record.clone(),
            listed: self.listed.clone(),
            requested: self.requested.clone(),
            delete_branch: self.delete_branch,
            actor: self.actor.clone(),
            minimum_age: self.minimum_age,
        }
    }
}

/// A branch that may be left over from a removal that was interrupted.
#[derive(Debug, PartialEq, Eq)]
pub struct BranchRetry {
    pub repository_id: i64,
    pub worktree_id: i64,
    pub path: String,
    pub branch: String,
    pub actor: String,
    /// The Git command that tells whether the branch exists.
    pub args: Vec<String>,
}

/// The view of a [`BranchRetry`].
#[verifier::ext_equal]
pub struct BranchRetryView {
    pub repository_id: i64,
    pub worktree_id: i64,
    pub path: Seq<char>,
    pub branch: Seq<char>,
    pub actor: Seq<char>,
    pub args: Seq<Seq<char>>,
}

impl View for BranchRetry {
    type V = BranchRetryView;

    open spec fn view(&self) -> BranchRetryView {
        BranchRetryView {
            repository_id: self.repository_id,
            worktree_id: self.worktree_id,
            path: self.path@,
            branch: self.branch@,
            actor: self.actor@,
            args: views(self.args@),
        }
    }
}

impl Clone for BranchRetry {
    fn clone(&self) -> (copy: Self)
        ensures
            copy@ == self@,
    {
        BranchRetry {
            repository_id: self.repository_id,
            worktree_id: self.worktree_id,
            path: self.path.clone(),
            branch: self.branch.clone(),
            actor: self.actor.clone(),
            args: copy_texts(&self.args),
        }
    }
}

/// What a request to remove a worktree comes to.
#[derive(Debug, PartialEq, Eq)]
pub enum RemoveStep {
    Done(RemoveResult),
    CheckBranch(BranchRetry),
    Inspect(Removal),
}

/// The view of a [`RemoveStep`].
#[verifier::ext_equal]
pub enum RemoveStepView {
    Done(RemoveResultView),
    CheckBranch(BranchRetryView),
    Inspect(RemovalView),
}

impl View for RemoveStep {
    type V = RemoveStepView;

    open spec fn view(&self) -> RemoveStepView {
        match self {
            RemoveStep::Done(inner) => RemoveStepView::Done(inner@),
            RemoveStep::CheckBranch(inner) => RemoveStepView::CheckBranch(inner@),
            RemoveStep::Inspect(inner) => RemoveStepView::Inspect(inner@),
        }
    }
}

/// A branch that Git is about to delete.
#[derive(Debug, PartialEq, Eq)]
pub struct BranchDeletion {
    pub branch: String,
    /// The Git command to run.
    pub args: Vec<String>,
}

/// The view of a [`BranchDeletion`].
#[verifier::ext_equal]
pub struct BranchDeletionView {
    pub branch: Seq<char>,
    pub args: Seq<Seq<char>>,
}

impl View for BranchDeletion {
    type V = BranchDeletionView;

    open spec fn view(&self) -> BranchDeletionView {
        BranchDeletionView {
            branch: self.branch@,
            args: views(self.args@),
        }
    }
}

impl Clone for BranchDeletion {
    fn clone(&self) -> (copy: Self)
        ensures
            copy@ == self@,
    {
        BranchDeletion {
            branch: self.branch.clone(),
            args: copy_texts(&self.args),
        }
    }
}

/// What is left to do about a branch.
#[derive(Debug, PartialEq, Eq)]
pub enum BranchStep {
    Done(RemoveResult),
    DeleteBranch(BranchDeletion),
}

/// The view of a [`BranchStep`].
#[verifier::ext_equal]
pub enum BranchStepView {
    Done(RemoveResultView),
    DeleteBranch(BranchDeletionView),
}

impl View for BranchStep {
    type V = BranchStepView;

    open spec fn view(&self) -> BranchStepView {
        match self {
            BranchStep::Done(inner) => BranchStepView::Done(inner@),
            BranchStep::DeleteBranch(inner) => BranchStepView::DeleteBranch(inner@),
        }
    }
}

/// What an event tells of a worktree to remove.
pub open spec fn remove_details_json(
    path: Seq<char>,
    branch: Option<Seq<char>>,
    delete_branch: bool,
) -> Json {
    Json::Object(
        seq![
            ("path"@, Json::Str(path)),
            ("branch"@, text_or_null(branch)),
            ("delete_branch_requested"@, Json::Bool(delete_branch)),
        ],
    )
}

fn remove_details(path: &str, branch: Option<&str>, delete_branch: bool) -> (text: String)
    ensures
        text@ == json_text(remove_details_json(path@, slice_view(branch), delete_branch)),
{
    let object = Object::new()
        .string("path", path)
        .optional_string("branch", branch)
        .bool("delete_branch_requested", delete_branch);
    proof {
        let fields = remove_details_json(path@, slice_view(branch), delete_branch)->Object_0;
        lemma_field_texts(fields);
        assert(object@ =~= field_texts(fields));
    }
    object.finish()
}

/// What an event tells of a worktree that could not be removed.
pub open spec fn remove_failure_json(path: Seq<char>, error: Seq<char>) -> Json {
    Json::Object(
        seq![
            ("path"@, Json::Str(path)),
            ("error"@, Json::Str(error)),
        ],
    )
}

fn remove_failure(path: &str, error: &str) -> (text: String)
    ensures
        text@ == json_text(remove_failure_json(path@, error@)),
{
    let object = Object::new()
        .string("path", path)
        .string("error", error);
    proof {
        let fields = remove_failure_json(path@, error@)->Object_0;
        lemma_field_texts(fields);
        assert(object@ =~= field_texts(fields));
    }
    object.finish()
}

/// What an event tells of a worktree that must not be removed.
pub open spec fn remove_blocked_json(path: Seq<char>, blockers: Seq<Seq<char>>) -> Json {
    Json::Object(
        seq![
            ("path"@, Json::Str(path)),
            ("blockers"@, texts_json(blockers)),
        ],
    )
}

fn remove_blocked(path: &str, blockers: &Vec<String>) -> (text: String)
    ensures
        text@ == json_text(remove_blocked_json(path@, views(blockers@))),
{
    let object = Object::new()
        .string("path", path)
        .raw("blockers", texts_to_json(blockers));
    proof {
        let fields = remove_blocked_json(path@, views(blockers@))->Object_0;
        lemma_field_texts(fields);
        assert(object@ =~= field_texts(fields));
    }
    object.finish()
}

/// What an event tells of a branch that was deleted.
pub open spec fn branch_details_json(branch: Seq<char>) -> Json {
    Json::Object(
        seq![
            ("branch"@, Json::Str(branch)),
        ],
    )
}

fn branch_details(branch: &str) -> (text: String)
    ensures
        text@ == json_text(branch_details_json(branch@)),
{
    let object = Object::new()
        .string("branch", branch);
    proof {
        let fields = branch_details_json(branch@)->Object_0;
        lemma_field_texts(fields);
        assert(object@ =~= field_texts(fields));
    }
    object.finish()
}

/// What an event tells of a branch that could not be deleted.
pub open spec fn branch_failure_json(branch: Seq<char>, error: Seq<char>) -> Json {
    Json::Object(
        seq![
            ("branch"@, Json::Str(branch)),
            ("error"@, Json::Str(error)),
        ],
    )
}

fn branch_failure(branch: &str, error: &str) -> (text: String)
    ensures
        text@ == json_text(branch_failure_json(branch@, error@)),
{
    let object = Object::new()
        .string("branch", branch)
        .string("error", error);
    proof {
        let fields = branch_failure_json(branch@, error@)->Object_0;
        lemma_field_texts(fields);
        assert(object@ =~= field_texts(fields));
    }
    object.finish()
}

/// The row of a worktree that was removed from a path.
pub open spec fn removed_record(records: Seq<WorktreeRecordView>, path: Seq<char>) -> Option<
    WorktreeRecordView,
> {
    first_match(
        records,
        |row: WorktreeRecordView| row.path == path && row.lifecycle_state == "removed"@,
    )
}

fn find_removed(records: &Vec<WorktreeRecord>, path: &str) -> (found: Option<usize>)
    ensures
        match found {
            Some(i) => i < records@.len() && removed_record(views(records@), path@) == Some(
                records@[i as int]@,
            ),
            None => removed_record(views(records@), path@) is None,
        },
{
    let test = |row: &WorktreeRecord| -> (answer: bool)
        ensures
            answer == (row@.path == path@ && row@.lifecycle_state == "removed"@),
        {
            same_text(&row.path, path) && same_text(&row.lifecycle_state, "removed")
        };
    find_row(
        records,
        test,
        Ghost(
            |row: WorktreeRecordView| row.path == path@ && row.lifecycle_state == "removed"@,
        ),
    )
}

impl RemovalView {
    /// What an event about the removal tells.
    pub open spec fn details(self) -> Json {
        remove_details_json(
            self.listed.worktree.path,
            self.listed.worktree.branch,
            self.delete_branch,
        )
    }

    /// An event about the removal.
    pub open spec fn event(self, now: i64, result: Seq<char>, details: Json) -> EventInputView {
        worktree_event(
            self.repository_id,
            Some(self.record.id),
            now,
            self.actor,
            "remove_worktree"@,
            result,
            details,
        )
    }

    /// What the removal comes to.
    pub open spec fn result(self, branch_deleted: bool) -> RemoveResultView {
        RemoveResultView {
            path: self.listed.worktree.path,
            branch: self.listed.worktree.branch,
            branch_deleted,
        }
    }
}

impl Removal {
    fn details(&self) -> (text: String)
        ensures
            text@ == json_text(self@.details()),
    {
        remove_details(
            &self.listed.worktree.path,
            as_slice(&self.listed.worktree.branch),
            self.delete_branch,
        )
    }

    fn result(&self, branch_deleted: bool) -> (result: RemoveResult)
        ensures
            result@ == self@.result(branch_deleted),
    {
        RemoveResult {
            path: self.listed.worktree.path.clone(),
            branch: copy_option(&self.listed.worktree.branch),
            branch_deleted,
        }
    }
}

impl ServiceView {
    /// A worktree that Git does not list: if the inventory knows that it was
    /// removed, the request has been fulfilled, up to its branch.
    pub open spec fn repeat_removal(
        self,
        requested: PlaceView,
        delete_branch: bool,
        actor: Seq<char>,
        worktrees: Seq<ListedWorktreeView>,
        now: i64,
    ) -> (InventoryView, Result<RemoveStepView, ServiceErrorView>) {
        match self.refresh(worktrees, now) {
            (current, Err(error)) => (current, Err(ServiceErrorView::Inventory(error))),
            (current, Ok((repository, records))) => match removed_record(records, requested.path) {
                None => (current, Err(ServiceErrorView::NotFound(requested.path))),
                Some(record) => if delete_branch && record.branch is Some {
                    (
                        current,
                        Ok(
                            RemoveStepView::CheckBranch(
                                BranchRetryView {
                                    repository_id: repository.id,
                                    worktree_id: record.id,
                                    path: requested.path,
                                    branch: record.branch->0,
                                    actor,
                                    args: branch_ref_command(record.branch->0),
                                },
                            ),
                        ),
                    )
                } else {
                    (
                        current,
                        Ok(
                            RemoveStepView::Done(
                                RemoveResultView {
                                    path: requested.path,
                                    branch: record.branch,
                                    branch_deleted: false,
                                },
                            ),
                        ),
                    )
                },
            },
        }
    }

    /// A request to remove a worktree, up to where it has to be inspected.
    pub open spec fn remove(
        self,
        requested: PlaceView,
        delete_branch: bool,
        actor: Seq<char>,
        minimum_age: i64,
        worktrees: Seq<ListedWorktreeView>,
        now: i64,
    ) -> (InventoryView, Result<RemoveStepView, ServiceErrorView>) {
        if age_fault(minimum_age) is Some {
            (self.inventory, Err(age_fault(minimum_age)->0))
        } else {
            match worktree_there(worktrees, requested.resolved_path) {
                None => self.repeat_removal(requested, delete_branch, actor, worktrees, now),
                Some(listed) => match self.refresh(worktrees, now) {
                    (current, Err(error)) => (current, Err(ServiceErrorView::Inventory(error))),
                    (current, Ok((repository, records))) => match record_at(
                        records,
                        listed.worktree.path,
                    ) {
                        None => (
                            current,
                            Err(invalid("worktree was found by Git but not in the inventory"@)),
                        ),
                        Some(record) => (
                            current,
                            Ok(
                                RemoveStepView::Inspect(
                                    RemovalView {
                                        repository_id: repository.id,
                                        record,
                                        listed,
                                        requested,
                                        delete_branch,
                                        actor,
                                        minimum_age,
                                    },
                                ),
                            ),
                        ),
                    },
                },
            }
        }
    }

    /// The assessment of a worktree that is to be removed.
    pub open spec fn removal_assessment(
        self,
        removal: RemovalView,
        seen: ObservationView,
        now: i64,
    ) -> CleanupCandidateView {
        self.assess(seen, Some(removal.record), now, removal.minimum_age)
    }

    /// A worktree that is to be removed was inspected. The removal starts if it is
    /// eligible.
    pub open spec fn remove_start(
        self,
        removal: RemovalView,
        seen: ObservationView,
        now: i64,
    ) -> (InventoryView, Result<(), ServiceErrorView>) {
        let assessment = self.removal_assessment(removal, seen, now);
        if assessment.classification != "eligible"@ {
            (
                self.inventory,
                Err(
                    ServiceErrorView::UnsafeRemoval {
                        path: removal.requested.path,
                        blockers: assessment.blockers,
                    },
                ),
            )
        } else {
            match self.inventory.record_event(removal.event(now, "started"@, removal.details())) {
                Err(error) => (self.inventory, Err(ServiceErrorView::Inventory(error))),
                Ok((started, _)) => (started, Ok(())),
            }
        }
    }

    /// The worktrees were listed again after the removal started: the worktree
    /// must be there and be the same.
    pub open spec fn remove_recheck(
        self,
        removal: RemovalView,
        worktrees: Seq<ListedWorktreeView>,
        now: i64,
    ) -> (InventoryView, Result<ListedWorktreeView, ServiceErrorView>) {
        match worktree_there(worktrees, removal.requested.resolved_path) {
            None => (self.inventory, Err(ServiceErrorView::NotFound(removal.requested.path))),
            Some(listed) => if listed.worktree.branch != removal.listed.worktree.branch
                || listed.worktree.head != removal.listed.worktree.head {
                (
                    with_event_if_possible(
                        self.inventory,
                        removal.event(
                            now,
                            "failed"@,
                            remove_failure_json(
                                removal.listed.worktree.path,
                                "worktree identity changed during removal preflight"@,
                            ),
                        ),
                    ),
                    Err(invalid("worktree identity changed during removal preflight"@)),
                )
            } else {
                (self.inventory, Ok(listed))
            },
        }
    }

    /// The worktree was inspected again. Git may remove it if it is still
    /// eligible.
    pub open spec fn remove_confirm(
        self,
        removal: RemovalView,
        seen: ObservationView,
        now: i64,
    ) -> (InventoryView, Result<Seq<Seq<char>>, ServiceErrorView>) {
        let assessment = self.removal_assessment(removal, seen, now);
        if assessment.classification != "eligible"@ {
            (
                with_event_if_possible(
                    self.inventory,
                    removal.event(
                        now,
                        "failed"@,
                        remove_blocked_json(removal.listed.worktree.path, assessment.blockers),
                    ),
                ),
                Err(
                    ServiceErrorView::UnsafeRemoval {
                        path: removal.requested.path,
                        blockers: assessment.blockers,
                    },
                ),
            )
        } else {
            (self.inventory, Ok(remove_command(removal.listed.worktree.path)))
        }
    }

    /// A worktree is gone. What is left to do about its branch is done only on
    /// request.
    pub open spec fn settle_removal(self, removal: RemovalView, now: i64) -> (
        InventoryView,
        Result<BranchStepView, ServiceErrorView>,
    ) {
        match self.inventory.mark_removed(
            removal.repository_id,
            removal.listed.worktree.path,
            now,
        ) {
            Err(error) => (self.inventory, Err(ServiceErrorView::Inventory(error))),
            Ok(marked) => {
                let released = marked.with_reservations_released(removal.record.id, now);
                match released.record_event(
                    removal.event(now, "succeeded"@, removal.details()),
                ) {
                    Err(error) => (released, Err(ServiceErrorView::Inventory(error))),
                    Ok((recorded, _)) => (
                        recorded,
                        Ok(
                            if removal.delete_branch && removal.listed.worktree.branch is Some {
                                BranchStepView::DeleteBranch(
                                    BranchDeletionView {
                                        branch: removal.listed.worktree.branch->0,
                                        args: delete_branch_command(
                                            removal.listed.worktree.branch->0,
                                        ),
                                    },
                                )
                            } else {
                                BranchStepView::Done(removal.result(false))
                            },
                        ),
                    ),
                }
            },
        }
    }

    /// Git was run to remove a worktree.
    pub open spec fn remove_after_git(
        self,
        removal: RemovalView,
        attempt: Result<CommandOutputView, GitErrorView>,
        now: i64,
    ) -> (InventoryView, Result<BranchStepView, ServiceErrorView>) {
        match attempt_failure(remove_command(removal.listed.worktree.path), attempt) {
            Some(error) => (
                with_event_if_possible(
                    self.inventory,
                    removal.event(
                        now,
                        "failed"@,
                        remove_failure_json(removal.listed.worktree.path, error.text()),
                    ),
                ),
                Err(ServiceErrorView::Git(error)),
            ),
            None => self.settle_removal(removal, now),
        }
    }

    /// Git was run to delete the branch of a worktree that was removed.
    pub open spec fn remove_finish(
        self,
        removal: RemovalView,
        deletion: BranchDeletionView,
        attempt: Result<CommandOutputView, GitErrorView>,
        now: i64,
    ) -> (InventoryView, Result<RemoveResultView, ServiceErrorView>) {
        match attempt_failure(deletion.args, attempt) {
            Some(error) => (
                with_event_if_possible(
                    self.inventory,
                    worktree_event(
                        removal.repository_id,
                        Some(removal.record.id),
                        now,
                        removal.actor,
                        "delete_branch"@,
                        "failed"@,
                        branch_failure_json(deletion.branch, error.text()),
                    ),
                ),
                Err(
                    ServiceErrorView::BranchDeletionFailed {
                        branch: deletion.branch,
                        source: error,
                    },
                ),
            ),
            None => (
                with_event_if_possible(
                    self.inventory,
                    worktree_event(
                        removal.repository_id,
                        Some(removal.record.id),
                        now,
                        removal.actor,
                        "delete_branch"@,
                        "succeeded"@,
                        branch_details_json(deletion.branch),
                    ),
                ),
                Ok(removal.result(true)),
            ),
        }
    }

    /// The branch of an interrupted removal is gone.
    pub open spec fn settle_branch(self, retry: BranchRetryView, existed: bool, now: i64) -> (
        InventoryView,
        Result<RemoveResultView, ServiceErrorView>,
    ) {
        match self.inventory.record_event(
            worktree_event(
                retry.repository_id,
                Some(retry.worktree_id),
                now,
                retry.actor,
                "delete_branch"@,
                if existed {
                    "succeeded"@
                } else {
                    "idempotent-replay"@
                },
                branch_details_json(retry.branch),
            ),
        ) {
            Err(error) => (self.inventory, Err(ServiceErrorView::Inventory(error))),
            Ok((recorded, _)) => (
                recorded,
                Ok(
                    RemoveResultView {
                        path: retry.path,
                        branch: Some(retry.branch),
                        branch_deleted: true,
                    },
                ),
            ),
        }
    }

    /// Git told whether the branch of an interrupted removal exists.
    pub open spec fn retry_branch(
        self,
        retry: BranchRetryView,
        attempt: Result<CommandOutputView, GitErrorView>,
        now: i64,
    ) -> (InventoryView, Result<BranchStepView, ServiceErrorView>) {
        match branch_presence(retry.branch, attempt) {
            Err(error) => (self.inventory, Err(ServiceErrorView::Git(error))),
            Ok(true) => (
                self.inventory,
                Ok(
                    BranchStepView::DeleteBranch(
                        BranchDeletionView {
                            branch: retry.branch,
                            args: delete_branch_command(retry.branch),
                        },
                    ),
                ),
            ),
            Ok(false) => match self.settle_branch(retry, false, now) {
                (after, Err(error)) => (after, Err(error)),
                (after, Ok(result)) => (after, Ok(BranchStepView::Done(result))),
            },
        }
    }

    /// Git was run to delete the branch of an interrupted removal.
    pub open spec fn retry_finish(
        self,
        retry: BranchRetryView,
        attempt: Result<CommandOutputView, GitErrorView>,
        now: i64,
    ) -> (InventoryView, Result<RemoveResultView, ServiceErrorView>) {
        match attempt_failure(delete_branch_command(retry.branch), attempt) {
            Some(error) => (self.inventory, Err(ServiceErrorView::Git(error))),
            None => self.settle_branch(retry, true, now),
        }
    }
}

impl RepositoryService {
    /// Removes a worktree of the minimum age of the service or older: says what
    /// has to be looked at first.
    pub fn remove(
        &mut self,
        requested: &Place,
        delete_branch: bool,
        actor: &str,
        worktrees: &Vec<ListedWorktree>,
        now: i64,
    ) -> (result: Result<RemoveStep, ServiceError>)
        ensures
            ({
                let (inventory, outcome) = old(self)@.remove(
                    requested@,
                    delete_branch,
                    actor@,
                    old(self)@.minimum_cleanup_age_seconds,
                    views(worktrees@),
                    now,
                );
                &&& final(self)@ == old(self)@.with_inventory(inventory)
                &&& match (result, outcome) {
                    (Ok(done), Ok(expected)) => done@ == expected,
                    (Err(error), Err(expected)) => error@ == expected,
                    _ => false,
                }
            }),
    {
        let minimum_age = self.minimum_cleanup_age_seconds;
        self.remove_with_minimum_age(requested, delete_branch, actor, minimum_age, worktrees, now)
    }

    /// Removes a worktree of some minimum age: says what has to be looked at
    /// first.
    pub fn remove_with_minimum_age(
        &mut self,
        requested: &Place,
        delete_branch: bool,
        actor: &str,
        minimum_cleanup_age_seconds: i64,
        worktrees: &Vec<ListedWorktree>,
        now: i64,
    ) -> (result: Result<RemoveStep, ServiceError>)
        ensures
            ({
                let (inventory, outcome) = old(self)@.remove(
                    requested@,
                    delete_branch,
                    actor@,
                    minimum_cleanup_age_seconds,
                    views(worktrees@),
                    now,
                );
                &&& final(self)@ == old(self)@.with_inventory(inventory)
                &&& match (result, outcome) {
                    (Ok(done), Ok(expected)) => done@ == expected,
                    (Err(error), Err(expected)) => error@ == expected,
                    _ => false,
                }
            }),
    {
        if let Err(error) = validate_cleanup_age(minimum_cleanup_age_seconds) {
            return Err(error);
        }
        let listed = match find_worktree(worktrees, &requested.resolved_path) {
            Some(i) => &worktrees[i],
            None => return self.repeat_removal(requested, delete_branch, actor, worktrees, now),
        };
        let (repository, records) = match self.refresh(worktrees, now) {
            Ok(both) => both,
            Err(error) => return Err(error),
        };
        match find_record(&records, &listed.worktree.path) {
            Some(i) => Ok(
                RemoveStep::Inspect(
                    Removal {
                        repository_id: repository.id,
                        record: records[i].clone(),
                        listed: listed.clone(),
                        requested: requested.clone(),
                        delete_branch,
                        actor: actor.to_owned(),
                        minimum_age: minimum_cleanup_age_seconds,
                    },
                ),
            ),
            None => Err(invalid_request("worktree was found by Git but not in the inventory")),
        }
    }

    fn repeat_removal(
        &mut self,
        requested: &Place,
        delete_branch: bool,
        actor: &str,
        worktrees: &Vec<ListedWorktree>,
        now: i64,
    ) -> (result: Result<RemoveStep, ServiceError>)
        ensures
            ({
                let (inventory, outcome) = old(self)@.repeat_removal(
                    requested@,
                    delete_branch,
                    actor@,
                    views(worktrees@),
                    now,
                );
                &&& final(self)@ == old(self)@.with_inventory(inventory)
                &&& match (result, outcome) {
                    (Ok(done), Ok(expected)) => done@ == expected,
                    (Err(error), Err(expected)) => error@ == expected,
                    _ => false,
                }
            }),
    {
        let (repository, records) = match self.refresh(worktrees, now) {
            Ok(both) => both,
            Err(error) => return Err(error),
        };
        let record = match find_removed(&records, &requested.path) {
            Some(i) => &records[i],
            None => return Err(ServiceError::NotFound(requested.path.clone())),
        };
        if delete_branch {
            if let Some(branch) = &record.branch {
                return Ok(
                    RemoveStep::CheckBranch(
                        BranchRetry {
                            repository_id: repository.id,
                            worktree_id: record.id,
                            path: requested.path.clone(),
                            branch: branch.clone(),
                            actor: actor.to_owned(),
                            args: branch_ref_args(branch),
                        },
                    ),
                );
            }
        }
        Ok(
            RemoveStep::Done(
                RemoveResult {
                    path: requested.path.clone(),
                    branch: copy_option(&record.branch),
                    branch_deleted: false,
                },
            ),
        )
    }

    /// Starts the removal of a worktree that was inspected, if it is eligible.
    pub fn remove_start(
        &mut self,
        removal: &Removal,
        status: &GitWorktreeStatus,
        processes: &Result<Vec<ProcessInfo>, ProcessError>,
        now: i64,
    ) -> (result: Result<(), ServiceError>)
        ensures
            ({
                let (inventory, outcome) = old(self)@.remove_start(
                    removal@,
                    ObservationView {
                        listed: removal@.listed,
                        status: status@,
                        processes: processes_view(*processes),
                    },
                    now,
                );
                &&& final(self)@ == old(self)@.with_inventory(inventory)
                &&& match (result, outcome) {
                    (Ok(done), Ok(expected)) => true,
                    (Err(error), Err(expected)) => error@ == expected,
                    _ => false,
                }
            }),
    {
        let assessment = self.assess_worktree(
            &removal.listed,
            status,
            processes,
            Some(&removal.record),
            now,
            removal.minimum_age,
        );
        if !same_text(&assessment.classification, "eligible") {
            return Err(
                ServiceError::UnsafeRemoval {
                    path: removal.requested.path.clone(),
                    blockers: assessment.blockers,
                },
            );
        }
        let details = removal.details();
        let event = EventInput {
            repository_id: removal.repository_id,
            worktree_id: Some(removal.record.id),
            occurred_at: now,
            actor: &removal.actor,
            action: "remove_worktree",
            result: "started",
            details_json: &details,
        };
        match self.inventory.record_event(event) {
            Ok(_) => Ok(()),
            Err(error) => Err(ServiceError::Inventory(error)),
        }
    }

    /// Looks whether the worktree to remove is still the one that was inspected.
    pub fn remove_recheck(
        &mut self,
        removal: &Removal,
        worktrees: &Vec<ListedWorktree>,
        now: i64,
    ) -> (result: Result<ListedWorktree, ServiceError>)
        ensures
            ({
                let (inventory, outcome) = old(self)@.remove_recheck(
                    removal@,
                    views(worktrees@),
                    now,
                );
                &&& final(self)@ == old(self)@.with_inventory(inventory)
                &&& match (result, outcome) {
                    (Ok(done), Ok(expected)) => done@ == expected,
                    (Err(error), Err(expected)) => error@ == expected,
                    _ => false,
                }
            }),
    {
        let listed = match find_worktree(worktrees, &removal.requested.resolved_path) {
            Some(i) => &worktrees[i],
            None => return Err(ServiceError::NotFound(removal.requested.path.clone())),
        };
        let before = &removal.listed.worktree;
        if !same_option(&listed.worktree.branch, &before.branch) || !same_option(
            &listed.worktree.head,
            &before.head,
        ) {
            let changed = "worktree identity changed during removal preflight";
            let details = remove_failure(&before.path, changed);
            let event = EventInput {
                repository_id: removal.repository_id,
                worktree_id: Some(removal.record.id),
                occurred_at: now,
                actor: &removal.actor,
                action: "remove_worktree",
                result: "failed",
                details_json: &details,
            };
            self.note_event(event);
            return Err(invalid_request(changed));
        }
        Ok(listed.clone())
    }

    /// Gives the Git command that removes a worktree that was inspected again, if
    /// it is still eligible.
    pub fn remove_confirm(
        &mut self,
        removal: &Removal,
        listed: &ListedWorktree,
        status: &GitWorktreeStatus,
        processes: &Result<Vec<ProcessInfo>, ProcessError>,
        now: i64,
    ) -> (result: Result<Vec<String>, ServiceError>)
        ensures
            ({
                let (inventory, outcome) = old(self)@.remove_confirm(
                    removal@,
                    ObservationView {
                        listed: listed@,
                        status: status@,
                        processes: processes_view(*processes),
                    },
                    now,
                );
                &&& final(self)@ == old(self)@.with_inventory(inventory)
                &&& match (result, outcome) {
                    (Ok(done), Ok(expected)) => views(done@) == expected,
                    (Err(error), Err(expected)) => error@ == expected,
                    _ => false,
                }
            }),
    {
        let assessment = self.assess_worktree(
            listed,
            status,
            processes,
            Some(&removal.record),
            now,
            removal.minimum_age,
        );
        if !same_text(&assessment.classification, "eligible") {
            let details = remove_blocked(&removal.listed.worktree.path, &assessment.blockers);
            let event = EventInput {
                repository_id: removal.repository_id,
                worktree_id: Some(removal.record.id),
                occurred_at: now,
                actor: &removal.actor,
                action: "remove_worktree",
                result: "failed",
                details_json: &details,
            };
            self.note_event(event);
            return Err(
                ServiceError::UnsafeRemoval {
                    path: removal.requested.path.clone(),
                    blockers: assessment.blockers,
                },
            );
        }
        Ok(remove_args(&removal.listed.worktree.path))
    }

    /// Takes note of how Git fared in removing a worktree.
    pub fn remove_after_git(
        &mut self,
        removal: &Removal,
        attempt: Result<CommandOutput, GitError>,
        now: i64,
    ) -> (result: Result<BranchStep, ServiceError>)
        ensures
            ({
                let (inventory, outcome) = old(self)@.remove_after_git(
                    removal@,
                    attempt_view(attempt),
                    now,
                );
                &&& final(self)@ == old(self)@.with_inventory(inventory)
                &&& match (result, outcome) {
                    (Ok(done), Ok(expected)) => done@ == expected,
                    (Err(error), Err(expected)) => error@ == expected,
                    _ => false,
                }
            }),
    {
        let args = remove_args(&removal.listed.worktree.path);
        if let Err(error) = run_git(&args, attempt) {
            let text = error.to_text();
            let details = remove_failure(&removal.listed.worktree.path, &text);
            let event = EventInput {
                repository_id: removal.repository_id,
                worktree_id: Some(removal.record.id),
                occurred_at: now,
                actor: &removal.actor,
                action: "remove_worktree",
                result: "failed",
                details_json: &details,
            };
            self.note_event(event);
            return Err(ServiceError::Git(error));
        }
        self.settle_removal(removal, now)
    }

    fn settle_removal(&mut self, removal: &Removal, now: i64) -> (result: Result<
        BranchStep,
        ServiceError,
    >)
        ensures
            ({
                let (inventory, outcome) = old(self)@.settle_removal(removal@, now);
                &&& final(self)@ == old(self)@.with_inventory(inventory)
                &&& match (result, outcome) {
                    (Ok(done), Ok(expected)) => done@ == expected,
                    (Err(error), Err(expected)) => error@ == expected,
                    _ => false,
                }
            }),
    {
        if let Err(error) = self.inventory.mark_removed(
            removal.repository_id,
            &removal.listed.worktree.path,
            now,
        ) {
            return Err(ServiceError::Inventory(error));
        }
        self.inventory.release_reservations_for_worktree(removal.record.id, now);
        let details = removal.details();
        let event = EventInput {
            repository_id: removal.repository_id,
            worktree_id: Some(removal.record.id),
            occurred_at: now,
            actor: &removal.actor,
            action: "remove_worktree",
            result: "succeeded",
            details_json: &details,
        };
        if let Err(error) = self.inventory.record_event(event) {
            return Err(ServiceError::Inventory(error));
        }
        if removal.delete_branch {
            if let Some(branch) = &removal.listed.worktree.branch {
                return Ok(
                    BranchStep::DeleteBranch(
                        BranchDeletion {
                            branch: branch.clone(),
                            args: delete_branch_args(branch),
                        },
                    ),
                );
            }
        }
        Ok(BranchStep::Done(removal.result(false)))
    }

    /// Takes note of how Git fared in deleting the branch of a worktree that was
    /// removed.
    pub fn remove_finish(
        &mut self,
        removal: &Removal,
        deletion: &BranchDeletion,
        attempt: Result<CommandOutput, GitError>,
        now: i64,
    ) -> (result: Result<RemoveResult, ServiceError>)
        ensures
            ({
                let (inventory, outcome) = old(self)@.remove_finish(
                    removal@,
                    deletion@,
                    attempt_view(attempt),
                    now,
                );
                &&& final(self)@ == old(self)@.with_inventory(inventory)
                &&& match (result, outcome) {
                    (Ok(done), Ok(expected)) => done@ == expected,
                    (Err(error), Err(expected)) => error@ == expected,
                    _ => false,
                }
            }),
    {
        if let Err(error) = run_git(&deletion.args, attempt) {
            let text = error.to_text();
            let details = branch_failure(&deletion.branch, &text);
            let event = EventInput {
                repository_id: removal.repository_id,
                worktree_id: Some(removal.record.id),
                occurred_at: now,
                actor: &removal.actor,
                action: "delete_branch",
                result: "failed",
                details_json: &details,
            };
            self.note_event(event);
            return Err(
                ServiceError::BranchDeletionFailed {
                    branch: deletion.branch.clone(),
                    source: error,
                },
            );
        }
        let details = branch_details(&deletion.branch);
        let event = EventInput {
            repository_id: removal.repository_id,
            worktree_id: Some(removal.record.id),
            occurred_at: now,
            actor: &removal.actor,
            action: "delete_branch",
            result: "succeeded",
            details_json: &details,
        };
        self.note_event(event);
        Ok(removal.result(true))
    }

    fn settle_branch(&mut self, retry: &BranchRetry, existed: bool, now: i64) -> (result: Result<
        RemoveResult,
        ServiceError,
    >)
        ensures
            ({
                let (inventory, outcome) = old(self)@.settle_branch(retry@, existed, now);
                &&& final(self)@ == old(self)@.with_inventory(inventory)
                &&& match (result, outcome) {
                    (Ok(done), Ok(expected)) => done@ == expected,
                    (Err(error), Err(expected)) => error@ == expected,
                    _ => false,
                }
            }),
    {
        let details = branch_details(&retry.branch);
        let outcome = if existed {
            "succeeded"
        } else {
            "idempotent-replay"
        };
        let event = EventInput {
            repository_id: retry.repository_id,
            worktree_id: Some(retry.worktree_id),
            occurred_at: now,
            actor: &retry.actor,
            action: "delete_branch",
            result: outcome,
            details_json: &details,
        };
        if let Err(error) = self.inventory.record_event(event) {
            return Err(ServiceError::Inventory(error));
        }
        Ok(
            RemoveResult {
                path: retry.path.clone(),
                branch: Some(retry.branch.clone()),
                branch_deleted: true,
            },
        )
    }

    /// Says what is left to do about the branch of an interrupted removal.
    pub fn retry_branch(
        &mut self,
        retry: &BranchRetry,
        attempt: Result<CommandOutput, GitError>,
        now: i64,
    ) -> (result: Result<BranchStep, ServiceError>)
        ensures
            ({
                let (inventory, outcome) = old(self)@.retry_branch(
                    retry@,
                    attempt_view(attempt),
                    now,
                );
                &&& final(self)@ == old(self)@.with_inventory(inventory)
                &&& match (result, outcome) {
                    (Ok(done), Ok(expected)) => done@ == expected,
                    (Err(error), Err(expected)) => error@ == expected,
                    _ => false,
                }
            }),
    {
        match local_branch_exists(&retry.branch, attempt) {
            Err(error) => Err(ServiceError::Git(error)),
            Ok(existed) => if existed {
                Ok(
                    BranchStep::DeleteBranch(
                        BranchDeletion {
                            branch: retry.branch.clone(),
                            args: delete_branch_args(&retry.branch),
                        },
                    ),
                )
            } else {
                match self.settle_branch(retry, false, now) {
                    Ok(result) => Ok(BranchStep::Done(result)),
                    Err(error) => Err(error),
                }
            },
        }
    }

    /// Takes note of how Git fared in deleting the branch of an interrupted
    /// removal.
    pub fn retry_finish(
        &mut self,
        retry: &BranchRetry,
        attempt: Result<CommandOutput, GitError>,
        now: i64,
    ) -> (result: Result<RemoveResult, ServiceError>)
        ensures
            ({
                let (inventory, outcome) = old(self)@.retry_finish(
                    retry@,
                    attempt_view(attempt),
                    now,
                );
                &&& final(self)@ == old(self)@.with_inventory(inventory)
                &&& match (result, outcome) {
                    (Ok(done), Ok(expected)) => done@ == expected,
                    (Err(error), Err(expected)) => error@ == expected,
                    _ => false,
                }
            }),
    {
        let args = delete_branch_args(&retry.branch);
        if let Err(error) = run_git(&args, attempt) {
            return Err(ServiceError::Git(error));
        }
        self.settle_branch(retry, true, now)
    }
}

} // verus!
