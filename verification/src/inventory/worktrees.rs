//! Repositories and worktrees, reconciled with what Git lists.

use crate::git::repository::GitRepository;
use crate::git::repository::GitRepositoryView;
use crate::git::worktree::GitWorktree;
use crate::git::worktree::GitWorktreeView;
use crate::inventory::records::check_option;
use crate::inventory::records::check_text;
use crate::inventory::records::constraint_error;
use crate::inventory::records::constraint_failure;
use crate::inventory::records::first_fault;
use crate::inventory::records::full_error;
use crate::inventory::records::option_fault;
use crate::inventory::records::table_full;
use crate::inventory::records::text_fault;
use crate::inventory::records::EventRecord;
use crate::inventory::records::EventRecordView;
use crate::inventory::records::InventoryError;
use crate::inventory::records::InventoryErrorView;
use crate::inventory::records::RepositoryRecord;
use crate::inventory::records::RepositoryRecordView;
use crate::inventory::records::WorktreeRecord;
use crate::inventory::records::WorktreeRecordView;
use crate::inventory::state::fresh_id;
use crate::inventory::state::next_repository_id;
use crate::inventory::state::next_worktree_id;
use crate::inventory::state::repository_ids;
use crate::inventory::state::worktree_ids;
use crate::inventory::state::Inventory;
use crate::inventory::state::InventoryView;
use crate::inventory::table::any_row;
use crate::inventory::table::find_row;
use crate::inventory::table::first_match;
use crate::inventory::table::lemma_views_push;
use crate::inventory::table::map_rows;
use crate::inventory::table::select_rows;
use crate::order::index_views;
use crate::order::sort_indices;
use crate::order::sorted_indices;
use crate::text::as_slice;
use crate::text::copy_option;
use crate::text::option_view;
use crate::text::same_option;
use crate::text::same_text;
use crate::text::views;
use vstd::prelude::*;

verus! {

/// A worktree as Git lists it, and what stands at its path.
#[derive(Debug, PartialEq, Eq)]
pub struct ListedWorktree {
    pub worktree: GitWorktree,
    /// Whether a directory stands at the path.
    pub is_directory: bool,
    /// Where the path leads once links are followed.
    pub resolved_path: String,
}

/// The view of a [`ListedWorktree`].
#[verifier::ext_equal]
pub struct ListedWorktreeView {
    pub worktree: GitWorktreeView,
    pub is_directory: bool,
    pub resolved_path: Seq<char>,
}

impl View for ListedWorktree {
    type V = ListedWorktreeView;

    open spec fn view(&self) -> ListedWorktreeView {
        ListedWorktreeView {
            worktree: self.worktree@,
            is_directory: self.is_directory,
            resolved_path: self.resolved_path@,
        }
    }
}

impl Clone for ListedWorktree {
    fn clone(&self) -> (copy: Self)
        ensures
            copy@ == self@,
    {
        ListedWorktree {
            worktree: self.worktree.clone(),
            is_directory: self.is_directory,
            resolved_path: self.resolved_path.clone(),
        }
    }
}

impl ListedWorktreeView {
    /// Whether the worktree is listed but not there.
    pub open spec fn is_missing(self) -> bool {
        self.worktree.prunable || !self.is_directory
    }

    /// The state of life in which a listed worktree is.
    pub open spec fn lifecycle(self) -> Seq<char> {
        if self.is_missing() {
            "missing"@
        } else {
            "active"@
        }
    }
}

impl ListedWorktree {
    /// Whether the worktree is listed but not there.
    pub fn missing(&self) -> (missing: bool)
        ensures
            missing == self@.is_missing(),
    {
        self.worktree.prunable || !self.is_directory
    }

    fn lifecycle_state(&self) -> (state: &'static str)
        ensures
            state@ == self@.lifecycle(),
    {
        if self.missing() {
            "missing"
        } else {
            "active"
        }
    }
}

/// A repository as it is seen for the first time.
pub open spec fn repository_row(
    id: i64,
    repository: GitRepositoryView,
    now: i64,
) -> RepositoryRecordView {
    RepositoryRecordView {
        id,
        common_git_dir: repository.common_git_dir,
        root_path: repository.root,
        display_name: repository.display_name,
        integration_branch: repository.integration_branch,
        remote_integration_branch: repository.remote_integration_branch,
        added_at: now,
        last_seen_at: now,
    }
}

/// A repository as it is seen again.
pub open spec fn repository_again(
    row: RepositoryRecordView,
    repository: GitRepositoryView,
    now: i64,
) -> RepositoryRecordView {
    RepositoryRecordView {
        root_path: repository.root,
        display_name: repository.display_name,
        last_seen_at: now,
        ..row
    }
}

/// A worktree as it is seen for the first time.
pub open spec fn worktree_row(
    id: i64,
    repository_id: i64,
    listed: ListedWorktreeView,
    now: i64,
) -> WorktreeRecordView {
    WorktreeRecordView {
        id,
        repository_id,
        path: listed.worktree.path,
        branch: listed.worktree.branch,
        head: listed.worktree.head,
        git_state: listed.worktree.word(),
        lifecycle_state: listed.lifecycle(),
        first_seen_at: now,
        created_at: None,
        last_seen_at: now,
        archived_at: None,
        removed_at: None,
    }
}

/// A worktree as it is seen again: what Git says of it replaces what was known,
/// but an archived worktree stays archived.
pub open spec fn worktree_again(
    row: WorktreeRecordView,
    listed: ListedWorktreeView,
    now: i64,
) -> WorktreeRecordView {
    WorktreeRecordView {
        branch: listed.worktree.branch,
        head: listed.worktree.head,
        git_state: listed.worktree.word(),
        lifecycle_state: if row.lifecycle_state == "archived"@ {
            "archived"@
        } else {
            listed.lifecycle()
        },
        last_seen_at: now,
        removed_at: if listed.is_missing() {
            row.removed_at
        } else {
            None
        },
        ..row
    }
}

/// Whether a worktree has its branch to itself: it has one, and is neither
/// missing nor removed.
pub open spec fn keeps_branch(row: WorktreeRecordView) -> bool {
    row.branch is Some && row.lifecycle_state != "missing"@ && row.lifecycle_state != "removed"@
}

fn row_keeps_branch(row: &WorktreeRecord) -> (result: bool)
    ensures
        result == keeps_branch(row@),
{
    row.branch.is_some() && !same_text(&row.lifecycle_state, "missing") && !same_text(
        &row.lifecycle_state,
        "removed",
    )
}

/// The error of a branch that another worktree has.
pub open spec fn branch_failure() -> InventoryErrorView {
    constraint_failure("UNIQUE constraint failed: worktrees.repository_id, worktrees.branch"@)
}

fn branch_error() -> (error: InventoryError)
    ensures
        error@ == branch_failure(),
{
    constraint_error("UNIQUE constraint failed: worktrees.repository_id, worktrees.branch")
}

/// The first listed worktree at a path.
pub open spec fn listed_at(listed: Seq<ListedWorktreeView>, path: Seq<char>) -> Option<
    ListedWorktreeView,
> {
    first_match(listed, |item: ListedWorktreeView| item.worktree.path == path)
}

/// The paths of worktrees.
pub open spec fn worktree_paths(rows: Seq<WorktreeRecordView>) -> Seq<Seq<char>> {
    rows.map_values(|row: WorktreeRecordView| row.path)
}

/// Worktrees in the order of their paths.
pub open spec fn by_path(rows: Seq<WorktreeRecordView>) -> Seq<WorktreeRecordView> {
    let order = sorted_indices(worktree_paths(rows), rows.len());
    Seq::new(order.len(), |i: int| rows[order[i]])
}

impl InventoryView {
    /// The repository that shares a Git directory.
    pub open spec fn repository_at(self, common_git_dir: Seq<char>) -> Option<RepositoryRecordView> {
        first_match(
            self.repositories,
            |row: RepositoryRecordView| row.common_git_dir == common_git_dir,
        )
    }

    /// The worktree at a path.
    pub open spec fn worktree_at(
        self,
        repository_id: i64,
        path: Seq<char>,
    ) -> Option<WorktreeRecordView> {
        first_match(
            self.worktrees,
            |row: WorktreeRecordView| row.repository_id == repository_id && row.path == path,
        )
    }

    /// Another worktree that has the branch of this one to itself.
    pub open spec fn branch_keeper(self, own: WorktreeRecordView) -> Option<WorktreeRecordView> {
        first_match(
            self.worktrees,
            |row: WorktreeRecordView|
                row.id != own.id
                    && row.repository_id == own.repository_id
                    && keeps_branch(row)
                    && row.branch == own.branch,
        )
    }

    /// Whether a worktree would share a branch that only one may have.
    pub open spec fn branch_clash(self, own: WorktreeRecordView) -> bool {
        keeps_branch(own) && self.branch_keeper(own) is Some
    }

    /// A repository is registered, or seen again.
    pub open spec fn register_repository(self, repository: GitRepositoryView, now: i64) -> Result<
        (InventoryView, RepositoryRecordView),
        InventoryErrorView,
    > {
        let fault = first_fault(
            text_fault(repository.common_git_dir),
            first_fault(
                text_fault(repository.root),
                first_fault(
                    text_fault(repository.display_name),
                    first_fault(
                        option_fault(repository.integration_branch),
                        option_fault(repository.remote_integration_branch),
                    ),
                ),
            ),
        );
        if fault is Some {
            Err(fault->0)
        } else {
            match self.repository_at(repository.common_git_dir) {
                Some(existing) => Ok(
                    (
                        InventoryView {
                            repositories: self.repositories.map_values(
                                |row: RepositoryRecordView|
                                    if row.common_git_dir == repository.common_git_dir {
                                        repository_again(row, repository, now)
                                    } else {
                                        row
                                    },
                            ),
                            ..self
                        },
                        repository_again(existing, repository, now),
                    ),
                ),
                None => match fresh_id(repository_ids(self.repositories)) {
                    None => Err(table_full()),
                    Some(id) => {
                        let row = repository_row(id, repository, now);
                        Ok(
                            (
                                InventoryView { repositories: self.repositories.push(row), ..self },
                                row,
                            )
                        )
                    },
                },
            }
        }
    }

    /// A listed worktree is entered, or what is known of it is replaced.
    pub open spec fn enter_worktree(
        self,
        repository_id: i64,
        listed: ListedWorktreeView,
        now: i64,
    ) -> Result<InventoryView, InventoryErrorView> {
        let path = listed.worktree.path;
        let fault = first_fault(
            text_fault(path),
            first_fault(option_fault(listed.worktree.branch), option_fault(listed.worktree.head)),
        );
        if fault is Some {
            Err(fault->0)
        } else {
            match self.worktree_at(repository_id, path) {
                Some(existing) => if self.branch_clash(worktree_again(existing, listed, now)) {
                    Err(branch_failure())
                } else {
                    Ok(
                        InventoryView {
                            worktrees: self.worktrees.map_values(
                                |row: WorktreeRecordView|
                                    if row.repository_id == repository_id && row.path == path {
                                        worktree_again(row, listed, now)
                                    } else {
                                        row
                                    },
                            ),
                            ..self
                        },
                    )
                },
                None => match fresh_id(worktree_ids(self.worktrees)) {
                    None => Err(table_full()),
                    Some(id) => {
                        let row = worktree_row(id, repository_id, listed, now);
                        if self.branch_clash(row) {
                            Err(branch_failure())
                        } else {
                            Ok(InventoryView { worktrees: self.worktrees.push(row), ..self })
                        }
                    },
                },
            }
        }
    }

    /// Listed worktrees are entered one by one, up to the first that cannot be.
    pub open spec fn enter_worktrees(
        self,
        repository_id: i64,
        listed: Seq<ListedWorktreeView>,
        now: i64,
    ) -> Result<InventoryView, InventoryErrorView>
        decreases listed.len(),
    {
        if listed.len() == 0 {
            Ok(self)
        } else {
            match self.enter_worktrees(repository_id, listed.drop_last(), now) {
                Err(error) => Err(error),
                Ok(inventory) => inventory.enter_worktree(repository_id, listed.last(), now),
            }
        }
    }

    /// The removals of a worktree that failed after an event.
    pub open spec fn failed_removal_after(self, worktree_id: i64, event_id: i64) -> Option<
        EventRecordView,
    > {
        first_match(
            self.events,
            |row: EventRecordView|
                row.worktree_id == Some(worktree_id) && row.action == "remove_worktree"@
                    && row.result == "failed"@ && row.id > event_id,
        )
    }

    /// A removal of a worktree that was begun and did not fail later.
    pub open spec fn standing_removal(self, worktree_id: i64) -> Option<EventRecordView> {
        first_match(
            self.events,
            |row: EventRecordView|
                row.worktree_id == Some(worktree_id) && row.action == "remove_worktree"@ && (
                row.result == "started"@ || row.result == "succeeded"@)
                    && self.failed_removal_after(worktree_id, row.id) is None,
        )
    }

    /// The state of a worktree that Git no longer lists.
    pub open spec fn lost_state(self, worktree_id: i64) -> Seq<char> {
        if self.standing_removal(worktree_id) is Some {
            "removed"@
        } else {
            "missing"@
        }
    }

    /// A worktree is in another state of life.
    pub open spec fn with_worktree_lost(self, id: i64, state: Seq<char>, now: i64) -> InventoryView {
        InventoryView {
            worktrees: self.worktrees.map_values(
                |row: WorktreeRecordView|
                    if row.id == id {
                        WorktreeRecordView { lifecycle_state: state, last_seen_at: now, ..row }
                    } else {
                        row
                    },
            ),
            ..self
        }
    }

    /// A worktree that was known before is settled: one that is listed but not
    /// there, or no longer listed, loses its reservation, leases and sessions.
    pub open spec fn settle_worktree(
        self,
        known: WorktreeRecordView,
        listed: Seq<ListedWorktreeView>,
        now: i64,
    ) -> InventoryView {
        match listed_at(listed, known.path) {
            Some(item) => if item.is_missing() {
                self.with_reservations_released(known.id, now).with_worktree_abandoned(
                    known.id,
                    now,
                )
            } else {
                self
            },
            None => if known.lifecycle_state != "removed"@ && known.lifecycle_state
                != "archived"@ {
                self.with_worktree_lost(
                    known.id,
                    self.lost_state(known.id),
                    now,
                ).with_reservations_released(known.id, now).with_worktree_abandoned(known.id, now)
            } else {
                self
            },
        }
    }

    /// The worktrees that were known before are settled one by one.
    pub open spec fn settle_worktrees(
        self,
        known: Seq<WorktreeRecordView>,
        listed: Seq<ListedWorktreeView>,
        now: i64,
    ) -> InventoryView
        decreases known.len(),
    {
        if known.len() == 0 {
            self
        } else {
            self.settle_worktrees(known.drop_last(), listed, now).settle_worktree(
                known.last(),
                listed,
                now,
            )
        }
    }

    /// The worktrees of a repository, in the order in which they were entered.
    pub open spec fn worktree_rows(self, repository_id: i64) -> Seq<WorktreeRecordView> {
        self.worktrees.filter(|row: WorktreeRecordView| row.repository_id == repository_id)
    }

    /// The worktrees of a repository, in the order of their paths.
    pub open spec fn worktrees_of(self, repository_id: i64) -> Seq<WorktreeRecordView> {
        by_path(self.worktree_rows(repository_id))
    }

    /// What is known of the worktrees of a repository is reconciled with what
    /// Git lists.
    pub open spec fn reconcile_worktrees(
        self,
        repository_id: i64,
        listed: Seq<ListedWorktreeView>,
        now: i64,
    ) -> Result<InventoryView, InventoryErrorView> {
        match self.enter_worktrees(repository_id, listed, now) {
            Err(error) => Err(error),
            Ok(entered) => Ok(
                entered.settle_worktrees(entered.worktree_rows(repository_id), listed, now),
            ),
        }
    }

    /// A repository is registered and its worktrees are reconciled. The
    /// registration stays if the worktrees cannot be.
    pub open spec fn reconcile_repository(
        self,
        repository: GitRepositoryView,
        listed: Seq<ListedWorktreeView>,
        now: i64,
    ) -> (InventoryView, Result<Seq<WorktreeRecordView>, InventoryErrorView>) {
        match self.register_repository(repository, now) {
            Err(error) => (self, Err(error)),
            Ok((registered, record)) => match registered.reconcile_worktrees(
                record.id,
                listed,
                now,
            ) {
                Err(error) => (registered, Err(error)),
                Ok(reconciled) => (reconciled, Ok(reconciled.worktrees_of(record.id))),
            },
        }
    }

    /// A worktree was created.
    pub open spec fn with_worktree_created(self, id: i64, created_at: i64) -> InventoryView {
        InventoryView {
            worktrees: self.worktrees.map_values(
                |row: WorktreeRecordView|
                    if row.id == id {
                        WorktreeRecordView {
                            created_at: Some(created_at),
                            lifecycle_state: "active"@,
                            removed_at: None,
                            ..row
                        }
                    } else {
                        row
                    },
            ),
            ..self
        }
    }

    /// A worktree was removed.
    pub open spec fn with_worktree_removed(
        self,
        repository_id: i64,
        path: Seq<char>,
        removed_at: i64,
    ) -> InventoryView {
        InventoryView {
            worktrees: self.worktrees.map_values(
                |row: WorktreeRecordView|
                    if row.repository_id == repository_id && row.path == path {
                        WorktreeRecordView {
                            lifecycle_state: "removed"@,
                            removed_at: Some(removed_at),
                            last_seen_at: removed_at,
                            ..row
                        }
                    } else {
                        row
                    },
            ),
            ..self
        }
    }

    /// A worktree was created, and has its branch to itself.
    pub open spec fn mark_created(self, id: i64, created_at: i64) -> Result<
        InventoryView,
        InventoryErrorView,
    > {
        match self.worktree_with_id(id) {
            Some(row) => if self.branch_clash(
                WorktreeRecordView {
                    created_at: Some(created_at),
                    lifecycle_state: "active"@,
                    removed_at: None,
                    ..row
                },
            ) {
                Err(branch_failure())
            } else {
                Ok(self.with_worktree_created(id, created_at))
            },
            None => Ok(self.with_worktree_created(id, created_at)),
        }
    }

    /// A worktree was removed.
    pub open spec fn mark_removed(
        self,
        repository_id: i64,
        path: Seq<char>,
        removed_at: i64,
    ) -> Result<
        InventoryView,
        InventoryErrorView,
    > {
        if text_fault(path) is Some {
            Err(text_fault(path)->0)
        } else {
            Ok(self.with_worktree_removed(repository_id, path, removed_at))
        }
    }
}

impl Inventory {
    fn find_repository_at(&self, common_git_dir: &str) -> (found: Option<usize>)
        ensures
            match found {
                Some(i) => i < self.repositories@.len()
                    && self@.repository_at(common_git_dir@) == Some(self.repositories@[i as int]@),
                None => self@.repository_at(common_git_dir@) is None,
            },
    {
        let test = |row: &RepositoryRecord| -> (answer: bool)
            ensures
                answer == (row@.common_git_dir == common_git_dir@),
            {
                same_text(&row.common_git_dir, common_git_dir)
            };
        find_row(
            &self.repositories,
            test,
            Ghost(|row: RepositoryRecordView| row.common_git_dir == common_git_dir@),
        )
    }

    fn find_worktree_at(&self, repository_id: i64, path: &str) -> (found: Option<usize>)
        ensures
            match found {
                Some(i) => i < self.worktrees@.len()
                    && self@.worktree_at(repository_id, path@) == Some(self.worktrees@[i as int]@),
                None => self@.worktree_at(repository_id, path@) is None,
            },
    {
        let test = |row: &WorktreeRecord| -> (answer: bool)
            ensures
                answer == (row@.repository_id == repository_id && row@.path == path@),
            {
                row.repository_id == repository_id && same_text(&row.path, path)
            };
        find_row(
            &self.worktrees,
            test,
            Ghost(
                |row: WorktreeRecordView| row.repository_id == repository_id && row.path == path@
            ),
        )
    }

    fn find_branch_keeper(&self, own: &WorktreeRecord) -> (found: Option<usize>)
        ensures
            match found {
                Some(i) => i < self.worktrees@.len()
                    && self@.branch_keeper(own@) == Some(self.worktrees@[i as int]@),
                None => self@.branch_keeper(own@) is None,
            },
    {
        let test = |row: &WorktreeRecord| -> (answer: bool)
            ensures
                answer == (
                    row@.id != own@.id
                        && row@.repository_id == own@.repository_id
                        && keeps_branch(row@)
                        && row@.branch == own@.branch
                ),
            {
                row.id != own.id
                    && row.repository_id == own.repository_id
                    && row_keeps_branch(row)
                    && same_option(&row.branch, &own.branch)
            };
        find_row(
            &self.worktrees,
            test,
            Ghost(
                |row: WorktreeRecordView|
                    row.id != own@.id
                        && row.repository_id == own@.repository_id
                        && keeps_branch(row)
                        && row.branch == own@.branch
            ),
        )
    }

    fn branch_clash(&self, own: &WorktreeRecord) -> (clash: bool)
        ensures
            clash == self@.branch_clash(own@),
    {
        row_keeps_branch(own) && self.find_branch_keeper(own).is_some()
    }

    /// The repository that shares a Git directory.
    pub fn repository_by_common_git_dir(&self, common_git_dir: &str) -> (result: Result<
        Option<RepositoryRecord>,
        InventoryError,
    >)
        ensures
            match result {
                Ok(found) => text_fault(common_git_dir@) is None && option_view(found)
                    == self@.repository_at(common_git_dir@),
                Err(error) => text_fault(common_git_dir@) == Some(error@),
            },
    {
        if let Some(fault) = check_text(common_git_dir) {
            return Err(fault);
        }
        match self.find_repository_at(common_git_dir) {
            Some(i) => Ok(Some(self.repositories[i].clone())),
            None => Ok(None),
        }
    }

    /// The worktree at a path.
    pub fn worktree_by_path(&self, repository_id: i64, path: &str) -> (result: Result<
        Option<WorktreeRecord>,
        InventoryError,
    >)
        ensures
            match result {
                Ok(found) => text_fault(path@) is None && option_view(found) == self@.worktree_at(
                    repository_id,
                    path@,
                ),
                Err(error) => text_fault(path@) == Some(error@),
            },
    {
        if let Some(fault) = check_text(path) {
            return Err(fault);
        }
        match self.find_worktree_at(repository_id, path) {
            Some(i) => Ok(Some(self.worktrees[i].clone())),
            None => Ok(None),
        }
    }

    fn see_repository(&mut self, repository: &GitRepository, now: i64)
        ensures
            final(self)@ == (InventoryView {
                repositories: old(self)@.repositories.map_values(
                    |row: RepositoryRecordView|
                        if row.common_git_dir == repository@.common_git_dir {
                            repository_again(row, repository@, now)
                        } else {
                            row
                        },
                ),
                ..old(self)@
            }),
    {
        let ghost changed = |row: RepositoryRecordView|
            if row.common_git_dir == repository@.common_git_dir {
                repository_again(row, repository@, now)
            } else {
                row
            };
        let change = |row: &RepositoryRecord| -> (after: RepositoryRecord)
            ensures
                after@ == changed(row@),
            {
                let mut after = row.clone();
                if same_text(&row.common_git_dir, &repository.common_git_dir) {
                    after.root_path = repository.root.clone();
                    after.display_name = repository.display_name.clone();
                    after.last_seen_at = now;
                }
                after
            };
        let rows = map_rows(&self.repositories, change, Ghost(changed));
        self.repositories = rows;
    }

    /// Registers a repository, or notes that it was seen again.
    pub fn register_repository(&mut self, repository: &GitRepository, now: i64) -> (result: Result<
        RepositoryRecord,
        InventoryError,
    >)
        ensures
            match (result, old(self)@.register_repository(repository@, now)) {
                (Ok(record), Ok((inventory, row))) => record@ == row && final(self)@ == inventory,
                (Err(error), Err(expected)) => error@ == expected && final(self)@ == old(self)@,
                _ => false,
            },
    {
        if let Some(fault) = check_text(&repository.common_git_dir) {
            return Err(fault);
        }
        if let Some(fault) = check_text(&repository.root) {
            return Err(fault);
        }
        if let Some(fault) = check_text(&repository.display_name) {
            return Err(fault);
        }
        if let Some(fault) = check_option(as_slice(&repository.integration_branch)) {
            return Err(fault);
        }
        if let Some(fault) = check_option(as_slice(&repository.remote_integration_branch)) {
            return Err(fault);
        }
        match self.find_repository_at(&repository.common_git_dir) {
            Some(i) => {
                let mut record = self.repositories[i].clone();
                self.see_repository(repository, now);
                record.root_path = repository.root.clone();
                record.display_name = repository.display_name.clone();
                record.last_seen_at = now;
                Ok(record)
            },
            None => {
                let id = match next_repository_id(&self.repositories) {
                    Some(id) => id,
                    None => return Err(full_error()),
                };
                let record = RepositoryRecord {
                    id,
                    common_git_dir: repository.common_git_dir.clone(),
                    root_path: repository.root.clone(),
                    display_name: repository.display_name.clone(),
                    integration_branch: copy_option(&repository.integration_branch),
                    remote_integration_branch: copy_option(&repository.remote_integration_branch),
                    added_at: now,
                    last_seen_at: now,
                };
                let row = record.clone();
                proof {
                    lemma_views_push(self.repositories@, row);
                }
                self.repositories.push(row);
                Ok(record)
            },
        }
    }

    fn see_worktree(&mut self, repository_id: i64, listed: &ListedWorktree, now: i64)
        ensures
            final(self)@ == (InventoryView {
                worktrees: old(self)@.worktrees.map_values(
                    |row: WorktreeRecordView|
                        if row.repository_id == repository_id && row.path
                            == listed@.worktree.path {
                            worktree_again(row, listed@, now)
                        } else {
                            row
                        },
                ),
                ..old(self)@
            }),
    {
        let ghost path = listed@.worktree.path;
        let ghost changed = |row: WorktreeRecordView|
            if row.repository_id == repository_id && row.path == path {
                worktree_again(row, listed@, now)
            } else {
                row
            };
        let change = |row: &WorktreeRecord| -> (after: WorktreeRecord)
            ensures
                after@ == changed(row@),
            {
                if row.repository_id == repository_id && same_text(
                    &row.path,
                    &listed.worktree.path,
                ) {
                    seen_again(row, listed, now)
                } else {
                    row.clone()
                }
            };
        let rows = map_rows(&self.worktrees, change, Ghost(changed));
        self.worktrees = rows;
    }

    fn enter_worktree(&mut self, repository_id: i64, listed: &ListedWorktree, now: i64) -> (result:
        Result<(), InventoryError>)
        ensures
            match (result, old(self)@.enter_worktree(repository_id, listed@, now)) {
                (Ok(()), Ok(inventory)) => final(self)@ == inventory,
                (Err(error), Err(expected)) => error@ == expected && final(self)@ == old(self)@,
                _ => false,
            },
    {
        let worktree = &listed.worktree;
        if let Some(fault) = check_text(&worktree.path) {
            return Err(fault);
        }
        if let Some(fault) = check_option(as_slice(&worktree.branch)) {
            return Err(fault);
        }
        if let Some(fault) = check_option(as_slice(&worktree.head)) {
            return Err(fault);
        }
        match self.find_worktree_at(repository_id, &worktree.path) {
            Some(i) => {
                let after = seen_again(&self.worktrees[i], listed, now);
                if self.branch_clash(&after) {
                    return Err(branch_error());
                }
                self.see_worktree(repository_id, listed, now);
                Ok(())
            },
            None => {
                let id = match next_worktree_id(&self.worktrees) {
                    Some(id) => id,
                    None => return Err(full_error()),
                };
                let row = WorktreeRecord {
                    id,
                    repository_id,
                    path: worktree.path.clone(),
                    branch: copy_option(&worktree.branch),
                    head: copy_option(&worktree.head),
                    git_state: worktree.state().to_owned(),
                    lifecycle_state: listed.lifecycle_state().to_owned(),
                    first_seen_at: now,
                    created_at: None,
                    last_seen_at: now,
                    archived_at: None,
                    removed_at: None,
                };
                if self.branch_clash(&row) {
                    return Err(branch_error());
                }
                proof {
                    lemma_views_push(self.worktrees@, row);
                }
                self.worktrees.push(row);
                Ok(())
            },
        }
    }

    fn removal_failed_after(&self, worktree_id: i64, event_id: i64) -> (failed: bool)
        ensures
            failed == self@.failed_removal_after(worktree_id, event_id) is Some,
    {
        let test = |row: &EventRecord| -> (answer: bool)
            ensures
                answer == (row@.worktree_id == Some(worktree_id) && row@.action
                    == "remove_worktree"@ && row@.result == "failed"@ && row@.id > event_id),
            {
                concerns(row, worktree_id) && same_text(&row.result, "failed") && row.id > event_id
            };
        any_row(
            &self.events,
            test,
            Ghost(
                |row: EventRecordView|
                    row.worktree_id == Some(worktree_id) && row.action == "remove_worktree"@
                        && row.result == "failed"@ && row.id > event_id,
            ),
        )
    }

    fn lost_state(&self, worktree_id: i64) -> (state: &'static str)
        ensures
            state@ == self@.lost_state(worktree_id),
    {
        let test = |row: &EventRecord| -> (answer: bool)
            ensures
                answer == (row@.worktree_id == Some(worktree_id) && row@.action
                    == "remove_worktree"@ && (row@.result == "started"@ || row@.result
                    == "succeeded"@) && self@.failed_removal_after(worktree_id, row@.id) is None),
            {
                concerns(row, worktree_id) && (same_text(&row.result, "started") || same_text(
                    &row.result,
                    "succeeded",
                )) && !self.removal_failed_after(worktree_id, row.id)
            };
        let ghost inventory = self@;
        let standing = any_row(
            &self.events,
            test,
            Ghost(
                |row: EventRecordView|
                    row.worktree_id == Some(worktree_id) && row.action == "remove_worktree"@ && (
                    row.result == "started"@ || row.result == "succeeded"@)
                        && inventory.failed_removal_after(worktree_id, row.id) is None,
            ),
        );
        if standing {
            "removed"
        } else {
            "missing"
        }
    }

    fn lose_worktree(&mut self, id: i64, state: &str, now: i64)
        ensures
            final(self)@ == old(self)@.with_worktree_lost(id, state@, now),
    {
        let ghost changed = |row: WorktreeRecordView|
            if row.id == id {
                WorktreeRecordView { lifecycle_state: state@, last_seen_at: now, ..row }
            } else {
                row
            };
        let change = |row: &WorktreeRecord| -> (after: WorktreeRecord)
            ensures
                after@ == changed(row@),
            {
                let mut after = row.clone();
                if row.id == id {
                    after.lifecycle_state = state.to_owned();
                    after.last_seen_at = now;
                }
                after
            };
        let rows = map_rows(&self.worktrees, change, Ghost(changed));
        self.worktrees = rows;
    }

    fn settle_worktree(&mut self, known: &WorktreeRecord, listed: &Vec<ListedWorktree>, now: i64)
        ensures
            final(self)@ == old(self)@.settle_worktree(known@, views(listed@), now),
    {
        match find_listed(listed, &known.path) {
            Some(i) => {
                if listed[i].missing() {
                    self.release_reservations_for_worktree(known.id, now);
                    self.mark_sessions_stale_for_worktree(known.id, now);
                }
            },
            None => {
                if !same_text(&known.lifecycle_state, "removed") && !same_text(
                    &known.lifecycle_state,
                    "archived",
                ) {
                    let state = self.lost_state(known.id);
                    self.lose_worktree(known.id, state, now);
                    self.release_reservations_for_worktree(known.id, now);
                    self.mark_sessions_stale_for_worktree(known.id, now);
                }
            },
        }
    }

    fn copy_worktree_rows(&self, repository_id: i64) -> (rows: Vec<WorktreeRecord>)
        ensures
            views(rows@) == self@.worktree_rows(repository_id),
    {
        let pick = |row: &WorktreeRecord| -> (picked: Option<WorktreeRecord>)
            ensures
                match picked {
                    Some(copy) => row@.repository_id == repository_id && copy@ == row@,
                    None => row@.repository_id != repository_id,
                },
            {
                if row.repository_id == repository_id {
                    Some(row.clone())
                } else {
                    None
                }
            };
        select_rows(
            &self.worktrees,
            pick,
            Ghost(|row: WorktreeRecordView| row.repository_id == repository_id),
        )
    }

    fn reconcile_worktrees(
        &mut self,
        repository_id: i64,
        listed: &Vec<ListedWorktree>,
        now: i64,
    ) -> (result: Result<(), InventoryError>)
        ensures
            match (
                result,
                old(self)@.reconcile_worktrees(repository_id, views(listed@), now),
            ) {
                (Ok(()), Ok(inventory)) => final(self)@ == inventory,
                (Err(error), Err(expected)) => error@ == expected && final(self)@ == old(self)@,
                _ => false,
            },
    {
        let ghost start = self@;
        let ghost items = views(listed@);
        let mut draft = self.clone();
        let mut i: usize = 0;
        assert(items.take(0) =~= seq![]);
        while i < listed.len()
            invariant
                i <= listed.len(),
                items == views(listed@),
                start == self@,
                self@ == old(self)@,
                start.enter_worktrees(repository_id, items.take(i as int), now) == Ok::<
                    InventoryView,
                    InventoryErrorView,
                >(draft@),
            decreases listed.len() - i,
        {
            assert(items.take(i + 1).drop_last() =~= items.take(i as int));
            match draft.enter_worktree(repository_id, &listed[i], now) {
                Ok(()) => {},
                Err(error) => {
                    proof {
                        lemma_entering_stops(start, repository_id, items, now, i + 1);
                    }
                    return Err(error);
                },
            }
            i += 1;
        }
        assert(items.take(i as int) =~= items);
        let ghost entered = draft@;
        let known = draft.copy_worktree_rows(repository_id);
        let ghost rows = views(known@);
        let mut k: usize = 0;
        assert(rows.take(0) =~= seq![]);
        while k < known.len()
            invariant
                k <= known.len(),
                rows == views(known@),
                items == views(listed@),
                draft@ == entered.settle_worktrees(rows.take(k as int), items, now),
            decreases known.len() - k,
        {
            assert(rows.take(k + 1).drop_last() =~= rows.take(k as int));
            draft.settle_worktree(&known[k], listed, now);
            k += 1;
        }
        assert(rows.take(k as int) =~= rows);
        *self = draft;
        Ok(())
    }

    /// Registers a repository and reconciles its worktrees with what Git lists.
    pub fn reconcile_repository(
        &mut self,
        repository: &GitRepository,
        worktrees: &Vec<ListedWorktree>,
        now: i64,
    ) -> (result: Result<Vec<WorktreeRecord>, InventoryError>)
        ensures
            final(self)@ == old(self)@.reconcile_repository(
                repository@,
                views(worktrees@),
                now,
            ).0,
            match (
                result,
                old(self)@.reconcile_repository(repository@, views(worktrees@), now).1,
            ) {
                (Ok(records), Ok(rows)) => views(records@) == rows,
                (Err(error), Err(expected)) => error@ == expected,
                _ => false,
            },
    {
        let record = match self.register_repository(repository, now) {
            Ok(record) => record,
            Err(error) => return Err(error),
        };
        match self.reconcile_worktrees(record.id, worktrees, now) {
            Ok(()) => Ok(self.worktrees(record.id)),
            Err(error) => Err(error),
        }
    }

    /// The worktrees of a repository, in the order of their paths.
    pub fn worktrees(&self, repository_id: i64) -> (records: Vec<WorktreeRecord>)
        ensures
            views(records@) == self@.worktrees_of(repository_id),
    {
        let rows = self.copy_worktree_rows(repository_id);
        let ghost all = views(rows@);
        let mut paths: Vec<String> = Vec::new();
        let mut i: usize = 0;
        while i < rows.len()
            invariant
                i <= rows.len(),
                paths@.len() == i,
                forall|j: int| 0 <= j < i ==> (#[trigger] paths@[j])@ == rows@[j]@.path,
            decreases rows.len() - i,
        {
            paths.push(rows[i].path.clone());
            i += 1;
        }
        assert(views(paths@) =~= worktree_paths(all));
        let order = sort_indices(&paths);
        let ghost indices = sorted_indices(worktree_paths(all), all.len());
        let mut records: Vec<WorktreeRecord> = Vec::new();
        let mut k: usize = 0;
        while k < order.len()
            invariant
                k <= order.len(),
                order@.len() == rows@.len(),
                all == views(rows@),
                indices == index_views(order@),
                forall|j: int| 0 <= j < order@.len() ==> #[trigger] order@[j] < rows@.len(),
                records@.len() == k,
                forall|j: int| 0 <= j < k ==> (#[trigger] records@[j])@ == all[indices[j]],
            decreases order.len() - k,
        {
            assert(order@[k as int] < rows@.len());
            records.push(rows[order[k]].clone());
            k += 1;
        }
        assert(views(records@) =~= by_path(all));
        records
    }

    fn set_created(&mut self, id: i64, created_at: i64)
        ensures
            final(self)@ == old(self)@.with_worktree_created(id, created_at),
    {
        let ghost changed = |row: WorktreeRecordView|
            if row.id == id {
                WorktreeRecordView {
                    created_at: Some(created_at),
                    lifecycle_state: "active"@,
                    removed_at: None,
                    ..row
                }
            } else {
                row
            };
        let change = |row: &WorktreeRecord| -> (after: WorktreeRecord)
            ensures
                after@ == changed(row@),
            {
                let mut after = row.clone();
                if row.id == id {
                    after.created_at = Some(created_at);
                    after.lifecycle_state = "active".to_owned();
                    after.removed_at = None;
                }
                after
            };
        let rows = map_rows(&self.worktrees, change, Ghost(changed));
        self.worktrees = rows;
    }

    fn set_removed(&mut self, repository_id: i64, path: &str, removed_at: i64)
        ensures
            final(self)@ == old(self)@.with_worktree_removed(repository_id, path@, removed_at),
    {
        let ghost changed = |row: WorktreeRecordView|
            if row.repository_id == repository_id && row.path == path@ {
                WorktreeRecordView {
                    lifecycle_state: "removed"@,
                    removed_at: Some(removed_at),
                    last_seen_at: removed_at,
                    ..row
                }
            } else {
                row
            };
        let change = |row: &WorktreeRecord| -> (after: WorktreeRecord)
            ensures
                after@ == changed(row@),
            {
                let mut after = row.clone();
                if row.repository_id == repository_id && same_text(&row.path, path) {
                    after.lifecycle_state = "removed".to_owned();
                    after.removed_at = Some(removed_at);
                    after.last_seen_at = removed_at;
                }
                after
            };
        let rows = map_rows(&self.worktrees, change, Ghost(changed));
        self.worktrees = rows;
    }

    /// Notes that a worktree was created.
    pub fn mark_created(&mut self, worktree_id: i64, created_at: i64) -> (result: Result<
        (),
        InventoryError,
    >)
        ensures
            match (result, old(self)@.mark_created(worktree_id, created_at)) {
                (Ok(()), Ok(inventory)) => final(self)@ == inventory,
                (Err(error), Err(expected)) => error@ == expected && final(self)@ == old(self)@,
                _ => false,
            },
    {
        if let Some(i) = self.find_worktree_id(worktree_id) {
            let mut after = self.worktrees[i].clone();
            after.created_at = Some(created_at);
            after.lifecycle_state = "active".to_owned();
            after.removed_at = None;
            if self.branch_clash(&after) {
                return Err(branch_error());
            }
        }
        self.set_created(worktree_id, created_at);
        Ok(())
    }

    /// Notes that a worktree was removed.
    pub fn mark_removed(&mut self, repository_id: i64, path: &str, removed_at: i64) -> (result:
        Result<(), InventoryError>)
        ensures
            match (result, old(self)@.mark_removed(repository_id, path@, removed_at)) {
                (Ok(()), Ok(inventory)) => final(self)@ == inventory,
                (Err(error), Err(expected)) => error@ == expected && final(self)@ == old(self)@,
                _ => false,
            },
    {
        if let Some(fault) = check_text(path) {
            return Err(fault);
        }
        self.set_removed(repository_id, path, removed_at);
        Ok(())
    }
}

fn seen_again(row: &WorktreeRecord, listed: &ListedWorktree, now: i64) -> (after: WorktreeRecord)
    ensures
        after@ == worktree_again(row@, listed@, now),
{
    let mut after = row.clone();
    after.branch = copy_option(&listed.worktree.branch);
    after.head = copy_option(&listed.worktree.head);
    after.git_state = listed.worktree.state().to_owned();
    if !same_text(&row.lifecycle_state, "archived") {
        after.lifecycle_state = listed.lifecycle_state().to_owned();
    }
    after.last_seen_at = now;
    if !listed.missing() {
        after.removed_at = None;
    }
    after
}

fn concerns(row: &EventRecord, worktree_id: i64) -> (result: bool)
    ensures
        result == (row@.worktree_id == Some(worktree_id) && row@.action == "remove_worktree"@),
{
    match row.worktree_id {
        Some(id) => id == worktree_id && same_text(&row.action, "remove_worktree"),
        None => false,
    }
}

fn find_listed(listed: &Vec<ListedWorktree>, path: &str) -> (found: Option<usize>)
    ensures
        match found {
            Some(i) => i < listed@.len() && listed_at(views(listed@), path@) == Some(
                listed@[i as int]@,
            ),
            None => listed_at(views(listed@), path@) is None,
        },
{
    let test = |item: &ListedWorktree| -> (answer: bool)
        ensures
            answer == (item@.worktree.path == path@),
        {
            same_text(&item.worktree.path, path)
        };
    find_row(listed, test, Ghost(|item: ListedWorktreeView| item.worktree.path == path@))
}

proof fn lemma_entering_stops(
    inventory: InventoryView,
    repository_id: i64,
    listed: Seq<ListedWorktreeView>,
    now: i64,
    i: int,
)
    requires
        0 <= i <= listed.len(),
        inventory.enter_worktrees(repository_id, listed.take(i), now) is Err,
    ensures
        inventory.enter_worktrees(repository_id, listed, now) == inventory.enter_worktrees(
            repository_id,
            listed.take(i),
            now,
        ),
    decreases listed.len(),
{
    if i == listed.len() {
        assert(listed.take(i) =~= listed);
    } else {
        assert(listed.drop_last().take(i) =~= listed.take(i));
        lemma_entering_stops(inventory, repository_id, listed.drop_last(), now, i);
    }
}

} // verus!
