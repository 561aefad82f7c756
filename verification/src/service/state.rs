//! The service of one repository: its inventory and its settings.

use crate::git::repository::GitRepository;
use crate::git::repository::GitRepositoryView;
use crate::git::worktree::GitWorktree;
use crate::git::worktree::GitWorktreeView;
use crate::inventory::records::EventInput;
use crate::inventory::records::EventInputView;
use crate::inventory::records::InventoryErrorView;
use crate::inventory::records::RepositoryRecord;
use crate::inventory::records::RepositoryRecordView;
use crate::inventory::records::WorktreeRecord;
use crate::inventory::records::WorktreeRecordView;
use crate::inventory::state::Inventory;
use crate::inventory::state::InventoryView;
use crate::inventory::table::find_row;
use crate::inventory::table::first_match;
use crate::inventory::worktrees::ListedWorktree;
use crate::inventory::worktrees::ListedWorktreeView;
use crate::paths::join_path;
use crate::paths::joined;
use crate::service::error::ServiceError;
use crate::service::error::ServiceErrorView;
use crate::service::error::invalid;
use crate::service::error::invalid_request;
use crate::service::rules::DEFAULT_CLEANUP_MINIMUM_AGE_SECONDS;
use crate::text::same_text;
use crate::text::views;
use vstd::prelude::*;

verus! {

/// A repository together with its inventory.
#[derive(Debug, PartialEq, Eq)]
pub struct RepositoryService {
    pub repository: GitRepository,
    /// The worktree that is the repository itself.
    pub primary_root: String,
    pub minimum_cleanup_age_seconds: i64,
    pub inventory: Inventory,
}

/// The view of a [`RepositoryService`].
#[verifier::ext_equal]
pub struct ServiceView {
    pub repository: GitRepositoryView,
    pub primary_root: Seq<char>,
    pub minimum_cleanup_age_seconds: i64,
    pub inventory: InventoryView,
}

impl View for RepositoryService {
    type V = ServiceView;

    open spec fn view(&self) -> ServiceView {
        ServiceView {
            repository: self.repository@,
            primary_root: self.primary_root@,
            minimum_cleanup_age_seconds: self.minimum_cleanup_age_seconds,
            inventory: self.inventory@,
        }
    }
}

/// The row of a worktree at a path.
pub open spec fn record_at(records: Seq<WorktreeRecordView>, path: Seq<char>) -> Option<
    WorktreeRecordView,
> {
    first_match(records, |row: WorktreeRecordView| row.path == path)
}

pub(crate) fn find_record(records: &Vec<WorktreeRecord>, path: &str) -> (found: Option<usize>)
    ensures
        match found {
            Some(i) => i < records@.len() && record_at(views(records@), path@) == Some(
                records@[i as int]@,
            ),
            None => record_at(views(records@), path@) is None,
        },
{
    let test = |row: &WorktreeRecord| -> (answer: bool)
        ensures
            answer == (row@.path == path@),
        {
            same_text(&row.path, path)
        };
    find_row(records, test, Ghost(|row: WorktreeRecordView| row.path == path@))
}

/// The inventory with an event recorded, or as it was where that is not possible.
pub open spec fn with_event_if_possible(
    inventory: InventoryView,
    input: EventInputView,
) -> InventoryView {
    match inventory.record_event(input) {
        Ok((after, _)) => after,
        Err(_) => inventory,
    }
}

/// The worktree that is the repository itself: the first that has files and is
/// there.
pub open spec fn primary_of(root: Seq<char>, worktrees: Seq<GitWorktreeView>) -> Seq<char> {
    match first_match(worktrees, |item: GitWorktreeView| !item.bare && !item.prunable) {
        Some(worktree) => worktree.path,
        None => root,
    }
}

/// Finds the worktree that is the repository itself.
pub fn primary_root(root: &str, worktrees: &Vec<GitWorktree>) -> (path: String)
    ensures
        path@ == primary_of(root@, views(worktrees@)),
{
    let test = |item: &GitWorktree| -> (answer: bool)
        ensures
            answer == (!item@.bare && !item@.prunable),
        {
            !item.bare && !item.prunable
        };
    match find_row(
        worktrees,
        test,
        Ghost(|item: GitWorktreeView| !item.bare && !item.prunable),
    ) {
        Some(i) => worktrees[i].path.clone(),
        None => root.to_owned(),
    }
}

impl ServiceView {
    /// The repository as the inventory knows it: at its primary root.
    pub open spec fn inventory_repository(self) -> GitRepositoryView {
        GitRepositoryView { root: self.primary_root, ..self.repository }
    }

    /// The inventory, reconciled with what Git lists.
    pub open spec fn refresh(self, listed: Seq<ListedWorktreeView>, now: i64) -> (
        InventoryView,
        Result<(RepositoryRecordView, Seq<WorktreeRecordView>), InventoryErrorView>,
    ) {
        let repository = self.inventory_repository();
        match self.inventory.register_repository(repository, now) {
            Err(error) => (self.inventory, Err(error)),
            Ok((registered, record)) => {
                let (after, outcome) = registered.reconcile_repository(repository, listed, now);
                match outcome {
                    Err(error) => (after, Err(error)),
                    Ok(records) => (after, Ok((record, records))),
                }
            },
        }
    }

    /// The same service with another inventory.
    pub open spec fn with_inventory(self, inventory: InventoryView) -> ServiceView {
        ServiceView { inventory, ..self }
    }
}

impl RepositoryService {
    /// A service with the default minimum age.
    pub fn open(
        repository: GitRepository,
        worktrees: &Vec<GitWorktree>,
        inventory: Inventory,
    ) -> (result: Result<RepositoryService, ServiceError>)
        ensures
            result matches Ok(service) && service@ == (ServiceView {
                repository: repository@,
                primary_root: primary_of(repository@.root, views(worktrees@)),
                minimum_cleanup_age_seconds: DEFAULT_CLEANUP_MINIMUM_AGE_SECONDS,
                inventory: inventory@,
            }),
    {
        RepositoryService::open_with_minimum_age(
            repository,
            worktrees,
            inventory,
            DEFAULT_CLEANUP_MINIMUM_AGE_SECONDS,
        )
    }

    /// A service that cleans up worktrees from some age on.
    pub fn open_with_minimum_age(
        repository: GitRepository,
        worktrees: &Vec<GitWorktree>,
        inventory: Inventory,
        minimum_cleanup_age_seconds: i64,
    ) -> (result: Result<RepositoryService, ServiceError>)
        ensures
            match result {
                Ok(service) => minimum_cleanup_age_seconds >= 0 && service@ == (ServiceView {
                    repository: repository@,
                    primary_root: primary_of(repository@.root, views(worktrees@)),
                    minimum_cleanup_age_seconds,
                    inventory: inventory@,
                }),
                Err(error) => minimum_cleanup_age_seconds < 0 && error@ == invalid(
                    "minimum cleanup age cannot be negative"@,
                ),
            },
    {
        if minimum_cleanup_age_seconds < 0 {
            return Err(invalid_request("minimum cleanup age cannot be negative"));
        }
        let primary_root = primary_root(&repository.root, worktrees);
        Ok(RepositoryService { repository, primary_root, minimum_cleanup_age_seconds, inventory })
    }

    /// The repository.
    pub fn repository(&self) -> (repository: &GitRepository)
        ensures
            repository@ == self@.repository,
    {
        &self.repository
    }

    /// The inventory.
    pub fn inventory(&self) -> (inventory: &Inventory)
        ensures
            inventory@ == self@.inventory,
    {
        &self.inventory
    }

    /// The age from which worktrees are cleaned up.
    pub fn minimum_cleanup_age_seconds(&self) -> (seconds: i64)
        ensures
            seconds == self@.minimum_cleanup_age_seconds,
    {
        self.minimum_cleanup_age_seconds
    }

    /// The file on which processes that change the repository take turns.
    pub fn mutation_lock_path(&self) -> (path: String)
        ensures
            path@ == joined(self@.repository.common_git_dir, "worktree-manager.mutation.lock"@),
    {
        join_path(&self.repository.common_git_dir, "worktree-manager.mutation.lock")
    }

    pub(crate) fn inventory_repository(&self) -> (repository: GitRepository)
        ensures
            repository@ == self@.inventory_repository(),
    {
        let mut repository = self.repository.clone();
        repository.root = self.primary_root.clone();
        repository
    }

    /// Reconciles the inventory with what Git lists.
    pub fn refresh(&mut self, worktrees: &Vec<ListedWorktree>, now: i64) -> (result: Result<
        (RepositoryRecord, Vec<WorktreeRecord>),
        ServiceError,
    >)
        ensures
            final(self)@ == old(self)@.with_inventory(old(self)@.refresh(views(worktrees@), now).0),
            match (result, old(self)@.refresh(views(worktrees@), now).1) {
                (Ok((record, records)), Ok((row, rows))) => record@ == row && views(records@)
                    == rows,
                (Err(error), Err(expected)) => error@ == ServiceErrorView::Inventory(expected),
                _ => false,
            },
    {
        let repository = self.inventory_repository();
        let record = match self.inventory.register_repository(&repository, now) {
            Ok(record) => record,
            Err(error) => return Err(ServiceError::Inventory(error)),
        };
        match self.inventory.reconcile_repository(&repository, worktrees, now) {
            Ok(records) => Ok((record, records)),
            Err(error) => Err(ServiceError::Inventory(error)),
        }
    }

    pub(crate) fn note_event(&mut self, input: EventInput<'_>)
        ensures
            final(self)@ == old(self)@.with_inventory(
                with_event_if_possible(old(self)@.inventory, input@),
            ),
    {
        let _ = self.inventory.record_event(input);
    }
}

} // verus!
