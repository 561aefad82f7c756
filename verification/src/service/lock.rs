//! Locking worktrees.

use crate::git::error::GitError;
use crate::git::error::GitErrorView;
use crate::git::reads::CommandOutput;
use crate::git::reads::CommandOutputView;
use crate::inventory::records::EventInput;
use crate::inventory::records::WorktreeRecordView;
use crate::inventory::records::own_option;
use crate::inventory::state::Inventory;
use crate::inventory::state::InventoryView;
use crate::inventory::worktrees::ListedWorktree;
use crate::inventory::worktrees::ListedWorktreeView;
use crate::json::value::Json;
use crate::json::writer::Object;
use crate::json::writer::field_texts;
use crate::json::writer::json_text;
use crate::json::writer::lemma_field_texts;
use crate::json::writer::slice_view;
use crate::json::writer::text_or_null;
use crate::service::commands::attempt_failure;
use crate::service::commands::attempt_view;
use crate::service::commands::lock_args;
use crate::service::commands::lock_command;
use crate::service::commands::run_git;
use crate::service::create::worktree_event;
use crate::service::error::ServiceError;
use crate::service::error::ServiceErrorView;
use crate::service::rules::find_worktree;
use crate::service::rules::worktree_there;
use crate::service::state::RepositoryService;
use crate::service::state::ServiceView;
use crate::service::state::find_record;
use crate::service::state::record_at;
use crate::service::state::with_event_if_possible;
use crate::service::types::LockResult;
use crate::service::types::LockResultView;
use crate::service::types::Place;
use crate::service::types::PlaceView;
use crate::text::as_slice;
use crate::text::copy_option;
use crate::text::copy_texts;
use crate::text::option_view;
use crate::text::views;
use vstd::prelude::*;

verus! {

/// A worktree that Git is about to lock or unlock.
#[derive(Debug, PartialEq, Eq)]
pub struct PendingLock {
    pub repository_id: i64,
    pub worktree_id: Option<i64>,
    pub requested: Place,
    /// The path by which Git lists the worktree.
    pub path: String,
    pub reason: Option<String>,
    /// Whether it is locked, not unlocked.
    pub lock: bool,
    pub actor: String,
    /// The Git command to run.
    pub args: Vec<String>,
}

/// The view of a [`PendingLock`].
#[verifier::ext_equal]
pub struct PendingLockView {
    pub repository_id: i64,
    pub worktree_id: Option<i64>,
    pub requested: PlaceView,
    pub path: Seq<char>,
    pub reason: Option<Seq<char>>,
    pub lock: bool,
    pub actor: Seq<char>,
    pub args: Seq<Seq<char>>,
}

impl View for PendingLock {
    type V = PendingLockView;

    open spec fn view(&self) -> PendingLockView {
        PendingLockView {
            repository_id: self.repository_id,
            worktree_id: self.worktree_id,
            requested: self.requested@,
            path: self.path@,
            reason: option_view(self.reason),
            lock: self.lock,
            actor: self.actor@,
            args: views(self.args@),
        }
    }
}

impl Clone for PendingLock {
    fn clone(&self) -> (copy: Self)
        ensures
            copy@ == self@,
    {
        PendingLock {
            repository_id: self.repository_id,
            worktree_id: self.worktree_id,
            requested: self.requested.clone(),
            path: self.path.clone(),
            reason: copy_option(&self.reason),
            lock: self.lock,
            actor: self.actor.clone(),
            args: copy_texts(&self.args),
        }
    }
}

/// What a request to lock or unlock a worktree comes to.
#[derive(Debug, PartialEq, Eq)]
pub enum LockStep {
    Done(LockResult),
    RunGit(PendingLock),
}

/// The view of a [`LockStep`].
#[verifier::ext_equal]
pub enum LockStepView {
    Done(LockResultView),
    RunGit(PendingLockView),
}

impl View for LockStep {
    type V = LockStepView;

    open spec fn view(&self) -> LockStepView {
        match self {
            LockStep::Done(inner) => LockStepView::Done(inner@),
            LockStep::RunGit(inner) => LockStepView::RunGit(inner@),
        }
    }
}

/// What an event tells of a worktree to lock or unlock.
pub open spec fn lock_details_json(path: Seq<char>, reason: Option<Seq<char>>) -> Json {
    Json::Object(
        seq![
            ("path"@, Json::Str(path)),
            ("reason"@, text_or_null(reason)),
        ],
    )
}

fn lock_details(path: &str, reason: Option<&str>) -> (text: String)
    ensures
        text@ == json_text(lock_details_json(path@, slice_view(reason))),
{
    let object = Object::new()
        .string("path", path)
        .optional_string("reason", reason);
    proof {
        let fields = lock_details_json(path@, slice_view(reason))->Object_0;
        lemma_field_texts(fields);
        assert(object@ =~= field_texts(fields));
    }
    object.finish()
}

/// What an event tells of a worktree that could not be locked or unlocked.
pub open spec fn lock_failure_json(path: Seq<char>, error: Seq<char>) -> Json {
    Json::Object(
        seq![
            ("path"@, Json::Str(path)),
            ("error"@, Json::Str(error)),
        ],
    )
}

fn lock_failure(path: &str, error: &str) -> (text: String)
    ensures
        text@ == json_text(lock_failure_json(path@, error@)),
{
    let object = Object::new()
        .string("path", path)
        .string("error", error);
    proof {
        let fields = lock_failure_json(path@, error@)->Object_0;
        lemma_field_texts(fields);
        assert(object@ =~= field_texts(fields));
    }
    object.finish()
}

/// The name of the operation in events.
pub open spec fn lock_action(lock: bool) -> Seq<char> {
    if lock {
        "lock_worktree"@
    } else {
        "unlock_worktree"@
    }
}

fn lock_operation(lock: bool) -> (action: &'static str)
    ensures
        action@ == lock_action(lock),
{
    if lock {
        "lock_worktree"
    } else {
        "unlock_worktree"
    }
}

/// The identifier of a row, if there is one.
pub open spec fn record_id(record: Option<WorktreeRecordView>) -> Option<i64> {
    match record {
        Some(row) => Some(row.id),
        None => None,
    }
}

impl ServiceView {
    /// A listed worktree is to be locked or unlocked.
    pub open spec fn pursue_lock(
        self,
        listed: ListedWorktreeView,
        requested: PlaceView,
        reason: Option<Seq<char>>,
        lock: bool,
        actor: Seq<char>,
        worktrees: Seq<ListedWorktreeView>,
        now: i64,
    ) -> (InventoryView, Result<LockStepView, ServiceErrorView>) {
        match self.refresh(worktrees, now) {
            (current, Err(error)) => (current, Err(ServiceErrorView::Inventory(error))),
            (current, Ok((repository, records))) => {
                let path = listed.worktree.path;
                let worktree_id = record_id(record_at(records, path));
                match current.record_event(
                    worktree_event(
                        repository.id,
                        worktree_id,
                        now,
                        actor,
                        lock_action(lock),
                        "started"@,
                        lock_details_json(path, reason),
                    ),
                ) {
                    Err(error) => (current, Err(ServiceErrorView::Inventory(error))),
                    Ok((started, _)) => (
                        started,
                        Ok(
                            LockStepView::RunGit(
                                PendingLockView {
                                    repository_id: repository.id,
                                    worktree_id,
                                    requested,
                                    path,
                                    reason,
                                    lock,
                                    actor,
                                    args: lock_command(lock, reason, path),
                                },
                            ),
                        ),
                    ),
                }
            },
        }
    }

    /// A request to lock or unlock a worktree, up to where Git has to run.
    pub open spec fn set_lock(
        self,
        requested: PlaceView,
        reason: Option<Seq<char>>,
        lock: bool,
        actor: Seq<char>,
        worktrees: Seq<ListedWorktreeView>,
        now: i64,
    ) -> (InventoryView, Result<LockStepView, ServiceErrorView>) {
        match worktree_there(worktrees, requested.resolved_path) {
            None => (self.inventory, Err(ServiceErrorView::NotFound(requested.path))),
            Some(listed) => if listed.worktree.locked == lock {
                (
                    self.inventory,
                    Ok(
                        LockStepView::Done(
                            LockResultView {
                                worktree: listed.worktree,
                                already_in_requested_state: true,
                            },
                        ),
                    ),
                )
            } else {
                self.pursue_lock(listed, requested, reason, lock, actor, worktrees, now)
            },
        }
    }

    /// Git was run to lock or unlock a worktree.
    pub open spec fn lock_after_git(
        self,
        pending: PendingLockView,
        attempt: Result<CommandOutputView, GitErrorView>,
        now: i64,
    ) -> (InventoryView, Result<(), ServiceErrorView>) {
        match attempt_failure(pending.args, attempt) {
            None => (self.inventory, Ok(())),
            Some(error) => (
                with_event_if_possible(
                    self.inventory,
                    worktree_event(
                        pending.repository_id,
                        pending.worktree_id,
                        now,
                        pending.actor,
                        lock_action(pending.lock),
                        "failed"@,
                        lock_failure_json(pending.path, error.text()),
                    ),
                ),
                Err(ServiceErrorView::Git(error)),
            ),
        }
    }

    /// A worktree was locked or unlocked, and Git lists its worktrees again.
    pub open spec fn lock_finish(
        self,
        pending: PendingLockView,
        worktrees: Seq<ListedWorktreeView>,
        now: i64,
    ) -> (InventoryView, Result<LockResultView, ServiceErrorView>) {
        match worktree_there(worktrees, pending.requested.resolved_path) {
            None => (self.inventory, Err(ServiceErrorView::NotFound(pending.requested.path))),
            Some(listed) => match self.refresh(worktrees, now) {
                (current, Err(error)) => (current, Err(ServiceErrorView::Inventory(error))),
                (current, Ok(_)) => match current.record_event(
                    worktree_event(
                        pending.repository_id,
                        pending.worktree_id,
                        now,
                        pending.actor,
                        lock_action(pending.lock),
                        "succeeded"@,
                        lock_details_json(pending.path, pending.reason),
                    ),
                ) {
                    Err(error) => (current, Err(ServiceErrorView::Inventory(error))),
                    Ok((recorded, _)) => (
                        recorded,
                        Ok(
                            LockResultView {
                                worktree: listed.worktree,
                                already_in_requested_state: false,
                            },
                        ),
                    ),
                },
            },
        }
    }
}

impl RepositoryService {
    /// Locks a worktree: says which Git command does it, if there is anything to do.
    pub fn lock(
        &mut self,
        requested: &Place,
        reason: Option<&str>,
        actor: &str,
        worktrees: &Vec<ListedWorktree>,
        now: i64,
    ) -> (result: Result<LockStep, ServiceError>)
        ensures
            ({
                let (inventory, outcome) = old(self)@.set_lock(
                    requested@,
                    slice_view(reason),
                    true,
                    actor@,
                    views(worktrees@),
                    now,
                );
                &&& final(self)@ == old(self)@.with_inventory(inventory)
                &&& match (result, outcome) {
                    (Ok(done), Ok(expected)) => done@ == expected,
                    (Err(error), Err(expected)) => error@ == expected,
                    _ => false,
                }
            }),
    {
        self.set_lock(requested, reason, true, actor, worktrees, now)
    }

    /// Unlocks a worktree: says which Git command does it, if there is anything to
    /// do.
    pub fn unlock(
        &mut self,
        requested: &Place,
        actor: &str,
        worktrees: &Vec<ListedWorktree>,
        now: i64,
    ) -> (result: Result<LockStep, ServiceError>)
        ensures
            ({
                let (inventory, outcome) = old(self)@.set_lock(
                    requested@,
                    None,
                    false,
                    actor@,
                    views(worktrees@),
                    now,
                );
                &&& final(self)@ == old(self)@.with_inventory(inventory)
                &&& match (result, outcome) {
                    (Ok(done), Ok(expected)) => done@ == expected,
                    (Err(error), Err(expected)) => error@ == expected,
                    _ => false,
                }
            }),
    {
        self.set_lock(requested, None, false, actor, worktrees, now)
    }

    fn set_lock(
        &mut self,
        requested: &Place,
        reason: Option<&str>,
        lock: bool,
        actor: &str,
        worktrees: &Vec<ListedWorktree>,
        now: i64,
    ) -> (result: Result<LockStep, ServiceError>)
        ensures
            ({
                let (inventory, outcome) = old(self)@.set_lock(
                    requested@,
                    slice_view(reason),
                    lock,
                    actor@,
                    views(worktrees@),
                    now,
                );
                &&& final(self)@ == old(self)@.with_inventory(inventory)
                &&& match (result, outcome) {
                    (Ok(done), Ok(expected)) => done@ == expected,
                    (Err(error), Err(expected)) => error@ == expected,
                    _ => false,
                }
            }),
    {
        let listed = match find_worktree(worktrees, &requested.resolved_path) {
            Some(i) => &worktrees[i],
            None => return Err(ServiceError::NotFound(requested.path.clone())),
        };
        if listed.worktree.locked == lock {
            return Ok(
                LockStep::Done(
                    LockResult {
                        worktree: listed.worktree.clone(),
                        already_in_requested_state: true,
                    },
                ),
            );
        }
        let (repository, records) = match self.refresh(worktrees, now) {
            Ok(both) => both,
            Err(error) => return Err(error),
        };
        let path = &listed.worktree.path;
        let worktree_id = match find_record(&records, path) {
            Some(i) => Some(records[i].id),
            None => None,
        };
        let details = lock_details(path, reason);
        let event = EventInput {
            repository_id: repository.id,
            worktree_id,
            occurred_at: now,
            actor,
            action: lock_operation(lock),
            result: "started",
            details_json: &details,
        };
        if let Err(error) = self.inventory.record_event(event) {
            return Err(ServiceError::Inventory(error));
        }
        Ok(
            LockStep::RunGit(
                PendingLock {
                    repository_id: repository.id,
                    worktree_id,
                    requested: requested.clone(),
                    path: path.clone(),
                    reason: own_option(reason),
                    lock,
                    actor: actor.to_owned(),
                    args: lock_args(lock, reason, path),
                },
            ),
        )
    }

    /// Takes note of how Git fared in locking or unlocking a worktree.
    pub fn lock_after_git(
        &mut self,
        pending: &PendingLock,
        attempt: Result<CommandOutput, GitError>,
        now: i64,
    ) -> (result: Result<(), ServiceError>)
        ensures
            ({
                let (inventory, outcome) = old(self)@.lock_after_git(
                    pending@,
                    attempt_view(attempt),
                    now,
                );
                &&& final(self)@ == old(self)@.with_inventory(inventory)
                &&& match (result, outcome) {
                    (Ok(done), Ok(expected)) => true,
                    (Err(error), Err(expected)) => error@ == expected,
                    _ => false,
                }
            }),
    {
        match run_git(&pending.args, attempt) {
            Ok(()) => Ok(()),
            Err(error) => {
                let text = error.to_text();
                let details = lock_failure(&pending.path, &text);
                let event = EventInput {
                    repository_id: pending.repository_id,
                    worktree_id: pending.worktree_id,
                    occurred_at: now,
                    actor: &pending.actor,
                    action: lock_operation(pending.lock),
                    result: "failed",
                    details_json: &details,
                };
                self.note_event(event);
                Err(ServiceError::Git(error))
            },
        }
    }

    /// Enters a worktree that Git locked or unlocked into the inventory.
    pub fn lock_finish(
        &mut self,
        pending: &PendingLock,
        worktrees: &Vec<ListedWorktree>,
        now: i64,
    ) -> (result: Result<LockResult, ServiceError>)
        ensures
            ({
                let (inventory, outcome) = old(self)@.lock_finish(
                    pending@,
                    views(worktrees@),
                    now,
                );
                &&& final(self)@ == old(self)@.with_inventory(inventory)
                &&& match (result, outcome) {
                    (Ok(done), Ok(expected)) => done@ == expected,
                    (Err(error), Err(expected)) => error@ == expected,
                    _ => false,
                }
            }),
    {
        let listed = match find_worktree(worktrees, &pending.requested.resolved_path) {
            Some(i) => &worktrees[i],
            None => return Err(ServiceError::NotFound(pending.requested.path.clone())),
        };
        if let Err(error) = self.refresh(worktrees, now) {
            return Err(error);
        }
        let details = lock_details(&pending.path, as_slice(&pending.reason));
        let event = EventInput {
            repository_id: pending.repository_id,
            worktree_id: pending.worktree_id,
            occurred_at: now,
            actor: &pending.actor,
            action: lock_operation(pending.lock),
            result: "succeeded",
            details_json: &details,
        };
        if let Err(error) = self.inventory.record_event(event) {
            return Err(ServiceError::Inventory(error));
        }
        Ok(LockResult { worktree: listed.worktree.clone(), already_in_requested_state: false })
    }
}

} // verus!
