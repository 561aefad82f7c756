//! Creating worktrees.

use crate::git::error::GitError;
use crate::git::error::GitErrorView;
use crate::git::reads::CommandOutput;
use crate::git::reads::CommandOutputView;
use crate::inventory::records::EventInput;
use crate::inventory::records::EventInputView;
use crate::inventory::records::WorktreeRecord;
use crate::inventory::records::WorktreeRecordView;
use crate::inventory::state::Inventory;
use crate::inventory::state::InventoryView;
use crate::inventory::table::find_row;
use crate::inventory::table::first_match;
use crate::inventory::worktrees::ListedWorktree;
use crate::inventory::worktrees::ListedWorktreeView;
use crate::json::value::Json;
use crate::json::writer::Object;
use crate::json::writer::field_texts;
use crate::json::writer::json_text;
use crate::json::writer::lemma_field_texts;
use crate::service::commands::add_args;
use crate::service::commands::add_command;
use crate::service::commands::attempt_failure;
use crate::service::commands::attempt_view;
use crate::service::commands::run_git;
use crate::service::error::ServiceError;
use crate::service::error::ServiceErrorView;
use crate::service::error::invalid;
use crate::service::error::invalid_request;
use crate::service::rules::create_fault;
use crate::service::rules::find_worktree;
use crate::service::rules::validate_create_request;
use crate::service::rules::worktree_there;
use crate::service::state::RepositoryService;
use crate::service::state::ServiceView;
use crate::service::state::find_record;
use crate::service::state::record_at;
use crate::service::state::with_event_if_possible;
use crate::service::types::CreateRequest;
use crate::service::types::CreateRequestView;
use crate::service::types::CreateResult;
use crate::service::types::CreateResultView;
use crate::service::types::Place;
use crate::service::types::PlaceView;
use crate::text::as_slice;
use crate::text::concat3;
use crate::text::concat;
use crate::text::copy_texts;
use crate::text::debug_string;
use crate::text::debug_text;
use crate::text::is_text;
use crate::text::same_text;
use crate::text::views;
use vstd::prelude::*;

verus! {

/// A worktree that Git is about to create.
#[derive(Debug, PartialEq, Eq)]
pub struct PendingCreate {
    pub repository_id: i64,
    pub reservation_id: i64,
    /// Where the worktree will stand.
    pub target: Place,
    pub branch: String,
    pub actor: String,
    /// The Git command to run.
    pub args: Vec<String>,
}

/// The view of a [`PendingCreate`].
#[verifier::ext_equal]
pub struct PendingCreateView {
    pub repository_id: i64,
    pub reservation_id: i64,
    pub target: PlaceView,
    pub branch: Seq<char>,
    pub actor: Seq<char>,
    pub args: Seq<Seq<char>>,
}

impl View for PendingCreate {
    type V = PendingCreateView;

    open spec fn view(&self) -> PendingCreateView {
        PendingCreateView {
            repository_id: self.repository_id,
            reservation_id: self.reservation_id,
            target: self.target@,
            branch: self.branch@,
            actor: self.actor@,
            args: views(self.args@),
        }
    }
}

impl Clone for PendingCreate {
    fn clone(&self) -> (copy: Self)
        ensures
            copy@ == self@,
    {
        PendingCreate {
            repository_id: self.repository_id,
            reservation_id: self.reservation_id,
            target: self.target.clone(),
            branch: self.branch.clone(),
            actor: self.actor.clone(),
            args: copy_texts(&self.args),
        }
    }
}

/// What a request to create a worktree comes to.
#[derive(Debug, PartialEq, Eq)]
pub enum CreateStep {
    Done(CreateResult),
    RunGit(PendingCreate),
}

/// The view of a [`CreateStep`].
#[verifier::ext_equal]
pub enum CreateStepView {
    Done(CreateResultView),
    RunGit(PendingCreateView),
}

impl View for CreateStep {
    type V = CreateStepView;

    open spec fn view(&self) -> CreateStepView {
        match self {
            CreateStep::Done(inner) => CreateStepView::Done(inner@),
            CreateStep::RunGit(inner) => CreateStepView::RunGit(inner@),
        }
    }
}

/// What an event tells of a worktree to create.
pub open spec fn create_details_json(path: Seq<char>, branch: Seq<char>) -> Json {
    Json::Object(
        seq![
            ("path"@, Json::Str(path)),
            ("branch"@, Json::Str(branch)),
        ],
    )
}

fn create_details(path: &str, branch: &str) -> (text: String)
    ensures
        text@ == json_text(create_details_json(path@, branch@)),
{
    let object = Object::new()
        .string("path", path)
        .string("branch", branch);
    proof {
        let fields = create_details_json(path@, branch@)->Object_0;
        lemma_field_texts(fields);
        assert(object@ =~= field_texts(fields));
    }
    object.finish()
}

/// What an event tells of a worktree that could not be created.
pub open spec fn create_failure_json(path: Seq<char>, branch: Seq<char>, error: Seq<char>) -> Json {
    Json::Object(
        seq![
            ("path"@, Json::Str(path)),
            ("branch"@, Json::Str(branch)),
            ("error"@, Json::Str(error)),
        ],
    )
}

fn create_failure(path: &str, branch: &str, error: &str) -> (text: String)
    ensures
        text@ == json_text(create_failure_json(path@, branch@, error@)),
{
    let object = Object::new()
        .string("path", path)
        .string("branch", branch)
        .string("error", error);
    proof {
        let fields = create_failure_json(path@, branch@, error@)->Object_0;
        lemma_field_texts(fields);
        assert(object@ =~= field_texts(fields));
    }
    object.finish()
}

/// An event about a worktree.
pub open spec fn worktree_event(
    repository_id: i64,
    worktree_id: Option<i64>,
    now: i64,
    actor: Seq<char>,
    action: Seq<char>,
    result: Seq<char>,
    details: Json,
) -> EventInputView {
    EventInputView {
        repository_id,
        worktree_id,
        occurred_at: now,
        actor,
        action,
        result,
        details_json: json_text(details),
    }
}

/// The first listed worktree that has a branch checked out.
pub open spec fn worktree_on(worktrees: Seq<ListedWorktreeView>, branch: Seq<char>) -> Option<
    ListedWorktreeView,
> {
    first_match(worktrees, |item: ListedWorktreeView| item.worktree.branch == Some(branch))
}

fn find_branch(worktrees: &Vec<ListedWorktree>, branch: &str) -> (found: Option<usize>)
    ensures
        match found {
            Some(i) => i < worktrees@.len() && worktree_on(views(worktrees@), branch@) == Some(
                worktrees@[i as int]@,
            ),
            None => worktree_on(views(worktrees@), branch@) is None,
        },
{
    let test = |item: &ListedWorktree| -> (answer: bool)
        ensures
            answer == (item@.worktree.branch == Some(branch@)),
        {
            is_text(&item.worktree.branch, branch)
        };
    find_row(
        worktrees,
        test,
        Ghost(|item: ListedWorktreeView| item.worktree.branch == Some(branch@)),
    )
}

/// The complaint about a path that is linked to another branch.
pub open spec fn linked_elsewhere(path: Seq<char>) -> ServiceErrorView {
    invalid("path "@ + path + " is already linked to another branch"@)
}

/// The complaint about a branch that is checked out.
pub open spec fn checked_out(branch: Seq<char>, path: Seq<char>) -> ServiceErrorView {
    invalid("branch "@ + debug_text(branch) + " is already checked out at "@ + path)
}

/// The complaint about a path at which something stands.
pub open spec fn path_taken(path: Seq<char>) -> ServiceErrorView {
    invalid("requested worktree path already exists: "@ + path)
}

/// A reservation fails for a reason.
pub open spec fn fail_reservation<T>(
    inventory: InventoryView,
    reservation_id: i64,
    now: i64,
    reason: ServiceErrorView,
) -> (InventoryView, Result<T, ServiceErrorView>) {
    match inventory.set_reservation_state(reservation_id, "failed"@, None, Some(now)) {
        Err(error) => (inventory, Err(ServiceErrorView::Inventory(error))),
        Ok(after) => (after, Err(reason)),
    }
}

/// The inventory with a reservation that failed, or as it was where it cannot be
/// marked so.
pub open spec fn with_failed_reservation(
    inventory: InventoryView,
    reservation_id: i64,
    now: i64,
) -> InventoryView {
    match inventory.set_reservation_state(reservation_id, "failed"@, None, Some(now)) {
        Err(_) => inventory,
        Ok(after) => after,
    }
}

impl ServiceView {
    /// A request whose reservation was fulfilled before: it gets the same worktree.
    pub open spec fn replay_create(
        self,
        request: CreateRequestView,
        target: PlaceView,
        worktrees: Seq<ListedWorktreeView>,
        repository_id: i64,
        now: i64,
    ) -> (InventoryView, Result<CreateStepView, ServiceErrorView>) {
        match worktree_there(worktrees, target.resolved_path) {
            None => (
                self.inventory,
                Err(
                    invalid(
                        "idempotency key already completed for "@ + target.path
                            + " but Git no longer lists that worktree"@,
                    ),
                ),
            ),
            Some(listed) => match self.refresh(worktrees, now) {
                (current, Err(error)) => (current, Err(ServiceErrorView::Inventory(error))),
                (current, Ok((_, records))) => match record_at(records, target.path) {
                    None => (
                        current,
                        Err(invalid("idempotent create has no matching inventory row"@)),
                    ),
                    Some(record) => (
                        with_event_if_possible(
                            current,
                            worktree_event(
                                repository_id,
                                Some(record.id),
                                now,
                                request.actor,
                                "create_worktree"@,
                                "idempotent-replay"@,
                                create_details_json(target.path, request.branch),
                            ),
                        ),
                        Ok(
                            CreateStepView::Done(
                                CreateResultView {
                                    worktree: listed.worktree,
                                    record,
                                    already_existed: true,
                                },
                            ),
                        ),
                    ),
                },
            },
        }
    }

    /// A request that was interrupted after Git had created the worktree: its
    /// reservation is fulfilled now.
    pub open spec fn recover_create(
        self,
        target: PlaceView,
        listed: ListedWorktreeView,
        worktrees: Seq<ListedWorktreeView>,
        reservation_id: i64,
        now: i64,
    ) -> (InventoryView, Result<CreateStepView, ServiceErrorView>) {
        match self.refresh(worktrees, now) {
            (current, Err(error)) => (current, Err(ServiceErrorView::Inventory(error))),
            (current, Ok((_, records))) => match record_at(records, target.path) {
                None => (current, Err(invalid("pending create recovery has no inventory row"@))),
                Some(record) => match current.set_reservation_state(
                    reservation_id,
                    "succeeded"@,
                    Some(record.id),
                    Some(now),
                ) {
                    Err(error) => (current, Err(ServiceErrorView::Inventory(error))),
                    Ok(after) => (
                        after,
                        Ok(
                            CreateStepView::Done(
                                CreateResultView {
                                    worktree: listed.worktree,
                                    record,
                                    already_existed: true,
                                },
                            ),
                        ),
                    ),
                },
            },
        }
    }

    /// A request with a pending reservation: Git may run if neither the path nor
    /// the branch is taken.
    pub open spec fn pursue_create(
        self,
        request: CreateRequestView,
        target: PlaceView,
        worktrees: Seq<ListedWorktreeView>,
        target_exists: bool,
        repository_id: i64,
        reservation_id: i64,
        now: i64,
    ) -> (InventoryView, Result<CreateStepView, ServiceErrorView>) {
        match worktree_there(worktrees, target.resolved_path) {
            Some(listed) => if listed.worktree.branch == Some(request.branch) {
                self.recover_create(target, listed, worktrees, reservation_id, now)
            } else {
                fail_reservation(
                    self.inventory,
                    reservation_id,
                    now,
                    linked_elsewhere(target.path),
                )
            },
            None => match worktree_on(worktrees, request.branch) {
                Some(other) => fail_reservation(
                    self.inventory,
                    reservation_id,
                    now,
                    checked_out(request.branch, other.worktree.path),
                ),
                None => if target_exists {
                    fail_reservation(
                        self.inventory,
                        reservation_id,
                        now,
                        path_taken(target.path),
                    )
                } else {
                    match self.inventory.record_event(
                        worktree_event(
                            repository_id,
                            None,
                            now,
                            request.actor,
                            "create_worktree"@,
                            "started"@,
                            create_details_json(target.path, request.branch),
                        ),
                    ) {
                        Err(error) => (
                            self.inventory,
                            Err(ServiceErrorView::Inventory(error)),
                        ),
                        Ok((started, _)) => (
                            started,
                            Ok(
                                CreateStepView::RunGit(
                                    PendingCreateView {
                                        repository_id,
                                        reservation_id,
                                        target,
                                        branch: request.branch,
                                        actor: request.actor,
                                        args: add_command(
                                            request.branch,
                                            target.path,
                                            request.base,
                                        ),
                                    },
                                ),
                            ),
                        ),
                    }
                },
            },
        }
    }

    /// A request to create a worktree, up to where Git has to run.
    pub open spec fn create(
        self,
        request: CreateRequestView,
        target: PlaceView,
        worktrees: Seq<ListedWorktreeView>,
        target_exists: bool,
        now: i64,
    ) -> (InventoryView, Result<CreateStepView, ServiceErrorView>) {
        if create_fault(request) is Some {
            (self.inventory, Err(create_fault(request)->0))
        } else {
            match self.refresh(worktrees, now) {
                (current, Err(error)) => (current, Err(ServiceErrorView::Inventory(error))),
                (current, Ok((repository, _))) => match current.reserve_creation(
                    repository.id,
                    target.path,
                    request.branch,
                    request.idempotency_key,
                    now,
                ) {
                    Err(error) => (current, Err(ServiceErrorView::Inventory(error))),
                    Ok((reserved, reservation)) => {
                        let held = self.with_inventory(reserved);
                        if reservation.state == "succeeded"@ {
                            held.replay_create(request, target, worktrees, repository.id, now)
                        } else if reservation.state != "pending"@ {
                            (
                                reserved,
                                Err(
                                    invalid(
                                        "unsupported creation reservation state "@ + debug_text(
                                            reservation.state,
                                        ),
                                    ),
                                ),
                            )
                        } else {
                            held.pursue_create(
                                request,
                                target,
                                worktrees,
                                target_exists,
                                repository.id,
                                reservation.id,
                                now,
                            )
                        }
                    },
                },
            }
        }
    }

    /// Git was run to create a worktree. If it failed, the reservation fails with
    /// it.
    pub open spec fn create_after_git(
        self,
        pending: PendingCreateView,
        attempt: Result<CommandOutputView, GitErrorView>,
        now: i64,
    ) -> (InventoryView, Result<(), ServiceErrorView>) {
        match attempt_failure(pending.args, attempt) {
            None => (self.inventory, Ok(())),
            Some(error) => (
                with_event_if_possible(
                    with_failed_reservation(self.inventory, pending.reservation_id, now),
                    worktree_event(
                        pending.repository_id,
                        None,
                        now,
                        pending.actor,
                        "create_worktree"@,
                        "failed"@,
                        create_failure_json(pending.target.path, pending.branch, error.text()),
                    ),
                ),
                Err(ServiceErrorView::Git(error)),
            ),
        }
    }

    /// The worktrees could not be listed again after Git had created one.
    pub open spec fn create_unconfirmed(
        self,
        pending: PendingCreateView,
        error: GitErrorView,
        now: i64,
    ) -> (InventoryView, ServiceErrorView) {
        (
            with_failed_reservation(self.inventory, pending.reservation_id, now),
            ServiceErrorView::Git(error),
        )
    }

    /// A worktree was created, and Git lists it.
    pub open spec fn settle_create(
        self,
        pending: PendingCreateView,
        listed: ListedWorktreeView,
        record: WorktreeRecordView,
        now: i64,
    ) -> (InventoryView, Result<CreateResultView, ServiceErrorView>) {
        match self.inventory.mark_created(record.id, now) {
            Err(error) => (self.inventory, Err(ServiceErrorView::Inventory(error))),
            Ok(marked) => match marked.set_reservation_state(
                pending.reservation_id,
                "succeeded"@,
                Some(record.id),
                Some(now),
            ) {
                Err(error) => (marked, Err(ServiceErrorView::Inventory(error))),
                Ok(fulfilled) => match fulfilled.record_event(
                    worktree_event(
                        pending.repository_id,
                        Some(record.id),
                        now,
                        pending.actor,
                        "create_worktree"@,
                        "succeeded"@,
                        create_details_json(pending.target.path, pending.branch),
                    ),
                ) {
                    Err(error) => (fulfilled, Err(ServiceErrorView::Inventory(error))),
                    Ok((recorded, _)) => (
                        recorded,
                        Ok(
                            CreateResultView {
                                worktree: listed.worktree,
                                record,
                                already_existed: false,
                            },
                        ),
                    ),
                },
            },
        }
    }

    /// Git was run to create a worktree, and lists its worktrees again.
    pub open spec fn create_finish(
        self,
        pending: PendingCreateView,
        worktrees: Seq<ListedWorktreeView>,
        now: i64,
    ) -> (InventoryView, Result<CreateResultView, ServiceErrorView>) {
        match worktree_there(worktrees, pending.target.resolved_path) {
            Some(listed) => if listed.worktree.branch != Some(pending.branch) {
                (self.inventory, Err(created_not_found()))
            } else {
                match self.refresh(worktrees, now) {
                    (current, Err(error)) => (current, Err(ServiceErrorView::Inventory(error))),
                    (current, Ok((_, records))) => match record_at(records, pending.target.path) {
                        None => (
                            current,
                            Err(invalid("created worktree was not persisted in the inventory"@)),
                        ),
                        Some(record) => self.with_inventory(current).settle_create(
                            pending,
                            listed,
                            record,
                            now,
                        ),
                    },
                }
            },
            None => (self.inventory, Err(created_not_found())),
        }
    }
}

/// The complaint about a created worktree that Git does not list.
pub open spec fn created_not_found() -> ServiceErrorView {
    invalid("Git worktree add succeeded but the new worktree was not found after rescan"@)
}

impl RepositoryService {
    fn fail_reservation(&mut self, reservation_id: i64, now: i64, reason: ServiceError) -> (error:
        ServiceError)
        ensures
            ({
                let (inventory, outcome) = fail_reservation::<()>(
                    old(self)@.inventory,
                    reservation_id,
                    now,
                    reason@,
                );
                &&& final(self)@ == old(self)@.with_inventory(inventory)
                &&& outcome == Err::<(), ServiceErrorView>(error@)
            }),
    {
        match self.inventory.set_reservation_state(reservation_id, "failed", None, Some(now)) {
            Ok(()) => reason,
            Err(error) => ServiceError::Inventory(error),
        }
    }

    fn mark_failed(&mut self, reservation_id: i64, now: i64)
        ensures
            final(self)@ == old(self)@.with_inventory(
                with_failed_reservation(old(self)@.inventory, reservation_id, now),
            ),
    {
        let _ = self.inventory.set_reservation_state(reservation_id, "failed", None, Some(now));
    }

    fn replay_create(
        &mut self,
        request: &CreateRequest,
        target: &Place,
        worktrees: &Vec<ListedWorktree>,
        repository_id: i64,
        now: i64,
    ) -> (result: Result<CreateStep, ServiceError>)
        ensures
            ({
                let (inventory, outcome) = old(self)@.replay_create(
                    request@,
                    target@,
                    views(worktrees@),
                    repository_id,
                    now,
                );
                &&& final(self)@ == old(self)@.with_inventory(inventory)
                &&& match (result, outcome) {
                    (Ok(done), Ok(expected)) => done@ == expected,
                    (Err(error), Err(expected)) => error@ == expected,
                    _ => false,
                }
            }),
    {
        let found = match find_worktree(worktrees, &target.resolved_path) {
            Some(i) => i,
            None => {
                return Err(
                    ServiceError::InvalidRequest(
                        concat3(
                            "idempotency key already completed for ",
                            &target.path,
                            " but Git no longer lists that worktree",
                        ),
                    ),
                );
            },
        };
        let (_, records) = match self.refresh(worktrees, now) {
            Ok(both) => both,
            Err(error) => return Err(error),
        };
        let record = match find_record(&records, &target.path) {
            Some(i) => records[i].clone(),
            None => {
                return Err(invalid_request("idempotent create has no matching inventory row"));
            },
        };
        let details = create_details(&target.path, &request.branch);
        let event = EventInput {
            repository_id,
            worktree_id: Some(record.id),
            occurred_at: now,
            actor: &request.actor,
            action: "create_worktree",
            result: "idempotent-replay",
            details_json: &details,
        };
        self.note_event(event);
        Ok(
            CreateStep::Done(
                CreateResult {
                    worktree: worktrees[found].worktree.clone(),
                    record,
                    already_existed: true,
                },
            ),
        )
    }

    fn recover_create(
        &mut self,
        target: &Place,
        listed: &ListedWorktree,
        worktrees: &Vec<ListedWorktree>,
        reservation_id: i64,
        now: i64,
    ) -> (result: Result<CreateStep, ServiceError>)
        ensures
            ({
                let (inventory, outcome) = old(self)@.recover_create(
                    target@,
                    listed@,
                    views(worktrees@),
                    reservation_id,
                    now,
                );
                &&& final(self)@ == old(self)@.with_inventory(inventory)
                &&& match (result, outcome) {
                    (Ok(done), Ok(expected)) => done@ == expected,
                    (Err(error), Err(expected)) => error@ == expected,
                    _ => false,
                }
            }),
    {
        let (_, records) = match self.refresh(worktrees, now) {
            Ok(both) => both,
            Err(error) => return Err(error),
        };
        let record = match find_record(&records, &target.path) {
            Some(i) => records[i].clone(),
            None => return Err(invalid_request("pending create recovery has no inventory row")),
        };
        if let Err(error) = self.inventory.set_reservation_state(
            reservation_id,
            "succeeded",
            Some(record.id),
            Some(now),
        ) {
            return Err(ServiceError::Inventory(error));
        }
        Ok(
            CreateStep::Done(
                CreateResult {
                    worktree: listed.worktree.clone(),
                    record,
                    already_existed: true,
                },
            ),
        )
    }

    fn pursue_create(
        &mut self,
        request: &CreateRequest,
        target: &Place,
        worktrees: &Vec<ListedWorktree>,
        target_exists: bool,
        repository_id: i64,
        reservation_id: i64,
        now: i64,
    ) -> (result: Result<CreateStep, ServiceError>)
        ensures
            ({
                let (inventory, outcome) = old(self)@.pursue_create(
                    request@,
                    target@,
                    views(worktrees@),
                    target_exists,
                    repository_id,
                    reservation_id,
                    now,
                );
                &&& final(self)@ == old(self)@.with_inventory(inventory)
                &&& match (result, outcome) {
                    (Ok(done), Ok(expected)) => done@ == expected,
                    (Err(error), Err(expected)) => error@ == expected,
                    _ => false,
                }
            }),
    {
        if let Some(i) = find_worktree(worktrees, &target.resolved_path) {
            if is_text(&worktrees[i].worktree.branch, &request.branch) {
                return self.recover_create(target, &worktrees[i], worktrees, reservation_id, now);
            }
            let reason = ServiceError::InvalidRequest(
                concat3("path ", &target.path, " is already linked to another branch"),
            );
            return Err(self.fail_reservation(reservation_id, now, reason));
        }
        if let Some(i) = find_branch(worktrees, &request.branch) {
            let name = debug_string(&request.branch);
            let mut message = concat3("branch ", &name, " is already checked out at ");
            message.append(&worktrees[i].worktree.path);
            let reason = ServiceError::InvalidRequest(message);
            return Err(self.fail_reservation(reservation_id, now, reason));
        }
        if target_exists {
            let reason = ServiceError::InvalidRequest(
                concat("requested worktree path already exists: ", &target.path),
            );
            return Err(self.fail_reservation(reservation_id, now, reason));
        }
        let details = create_details(&target.path, &request.branch);
        let event = EventInput {
            repository_id,
            worktree_id: None,
            occurred_at: now,
            actor: &request.actor,
            action: "create_worktree",
            result: "started",
            details_json: &details,
        };
        if let Err(error) = self.inventory.record_event(event) {
            return Err(ServiceError::Inventory(error));
        }
        Ok(
            CreateStep::RunGit(
                PendingCreate {
                    repository_id,
                    reservation_id,
                    target: target.clone(),
                    branch: request.branch.clone(),
                    actor: request.actor.clone(),
                    args: add_args(&request.branch, &target.path, as_slice(&request.base)),
                },
            ),
        )
    }

    /// Sets aside a path and a branch for a worktree, and says which Git command
    /// creates it, if there is anything left to create.
    pub fn create(
        &mut self,
        request: &CreateRequest,
        target: &Place,
        worktrees: &Vec<ListedWorktree>,
        target_exists: bool,
        now: i64,
    ) -> (result: Result<CreateStep, ServiceError>)
        ensures
            ({
                let (inventory, outcome) = old(self)@.create(
                    request@,
                    target@,
                    views(worktrees@),
                    target_exists,
                    now,
                );
                &&& final(self)@ == old(self)@.with_inventory(inventory)
                &&& match (result, outcome) {
                    (Ok(done), Ok(expected)) => done@ == expected,
                    (Err(error), Err(expected)) => error@ == expected,
                    _ => false,
                }
            }),
    {
        if let Err(error) = validate_create_request(request) {
            return Err(error);
        }
        let (repository, _) = match self.refresh(worktrees, now) {
            Ok(both) => both,
            Err(error) => return Err(error),
        };
        let reservation = match self.inventory.reserve_creation(
            repository.id,
            &target.path,
            &request.branch,
            as_slice(&request.idempotency_key),
            now,
        ) {
            Ok(reservation) => reservation,
            Err(error) => return Err(ServiceError::Inventory(error)),
        };
        if same_text(&reservation.state, "succeeded") {
            return self.replay_create(request, target, worktrees, repository.id, now);
        }
        if !same_text(&reservation.state, "pending") {
            let state = debug_string(&reservation.state);
            return Err(
                ServiceError::InvalidRequest(
                    concat("unsupported creation reservation state ", &state),
                ),
            );
        }
        self.pursue_create(
            request,
            target,
            worktrees,
            target_exists,
            repository.id,
            reservation.id,
            now,
        )
    }

    /// Takes note of how Git fared in creating a worktree.
    pub fn create_after_git(
        &mut self,
        pending: &PendingCreate,
        attempt: Result<CommandOutput, GitError>,
        now: i64,
    ) -> (result: Result<(), ServiceError>)
        ensures
            ({
                let (inventory, outcome) = old(self)@.create_after_git(
                    pending@,
                    attempt_view(attempt),
                    now,
                );
                &&& final(self)@ == old(self)@.with_inventory(inventory)
                &&& match (result, outcome) {
                    (Ok(done), Ok(expected)) => true,
                    (Err(error), Err(expected)) => error@ == expected,
                    _ => false,
                }
            }),
    {
        match run_git(&pending.args, attempt) {
            Ok(()) => Ok(()),
            Err(error) => {
                self.mark_failed(pending.reservation_id, now);
                let text = error.to_text();
                let details = create_failure(&pending.target.path, &pending.branch, &text);
                let event = EventInput {
                    repository_id: pending.repository_id,
                    worktree_id: None,
                    occurred_at: now,
                    actor: &pending.actor,
                    action: "create_worktree",
                    result: "failed",
                    details_json: &details,
                };
                self.note_event(event);
                Err(ServiceError::Git(error))
            },
        }
    }

    /// Gives up a worktree that Git created but could not list again.
    pub fn create_unconfirmed(&mut self, pending: &PendingCreate, error: GitError, now: i64) -> (
        reason: ServiceError)
        ensures
            ({
                let (inventory, expected) = old(self)@.create_unconfirmed(pending@, error@, now);
                &&& final(self)@ == old(self)@.with_inventory(inventory)
                &&& reason@ == expected
            }),
    {
        self.mark_failed(pending.reservation_id, now);
        ServiceError::Git(error)
    }

    /// Enters a worktree that Git created into the inventory.
    pub fn create_finish(
        &mut self,
        pending: &PendingCreate,
        worktrees: &Vec<ListedWorktree>,
        now: i64,
    ) -> (result: Result<CreateResult, ServiceError>)
        ensures
            ({
                let (inventory, outcome) = old(self)@.create_finish(
                    pending@,
                    views(worktrees@),
                    now,
                );
                &&& final(self)@ == old(self)@.with_inventory(inventory)
                &&& match (result, outcome) {
                    (Ok(done), Ok(expected)) => done@ == expected,
                    (Err(error), Err(expected)) => error@ == expected,
                    _ => false,
                }
            }),
    {
        let not_found = "Git worktree add succeeded but the new worktree was not found after rescan";
        let listed = match find_worktree(worktrees, &pending.target.resolved_path) {
            Some(i) => &worktrees[i],
            None => return Err(invalid_request(not_found)),
        };
        if !is_text(&listed.worktree.branch, &pending.branch) {
            return Err(invalid_request(not_found));
        }
        let (_, records) = match self.refresh(worktrees, now) {
            Ok(both) => both,
            Err(error) => return Err(error),
        };
        let record = match find_record(&records, &pending.target.path) {
            Some(i) => records[i].clone(),
            None => {
                return Err(
                    invalid_request("created worktree was not persisted in the inventory"),
                );
            },
        };
        self.settle_create(pending, listed, record, now)
    }

    fn settle_create(
        &mut self,
        pending: &PendingCreate,
        listed: &ListedWorktree,
        record: WorktreeRecord,
        now: i64,
    ) -> (result: Result<CreateResult, ServiceError>)
        ensures
            ({
                let (inventory, outcome) = old(self)@.settle_create(
                    pending@,
                    listed@,
                    record@,
                    now,
                );
                &&& final(self)@ == old(self)@.with_inventory(inventory)
                &&& match (result, outcome) {
                    (Ok(done), Ok(expected)) => done@ == expected,
                    (Err(error), Err(expected)) => error@ == expected,
                    _ => false,
                }
            }),
    {
        if let Err(error) = self.inventory.mark_created(record.id, now) {
            return Err(ServiceError::Inventory(error));
        }
        if let Err(error) = self.inventory.set_reservation_state(
            pending.reservation_id,
            "succeeded",
            Some(record.id),
            Some(now),
        ) {
            return Err(ServiceError::Inventory(error));
        }
        let details = create_details(&pending.target.path, &pending.branch);
        let event = EventInput {
            repository_id: pending.repository_id,
            worktree_id: Some(record.id),
            occurred_at: now,
            actor: &pending.actor,
            action: "create_worktree",
            result: "succeeded",
            details_json: &details,
        };
        if let Err(error) = self.inventory.record_event(event) {
            return Err(ServiceError::Inventory(error));
        }
        Ok(CreateResult { worktree: listed.worktree.clone(), record, already_existed: false })
    }
}

} // verus!
