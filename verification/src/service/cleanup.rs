//! Assessing which worktrees can be cleaned up.

use crate::git::worktree::GitWorktreeStatus;
use crate::git::worktree::GitWorktreeStatusView;
use crate::inventory::records::WorktreeRecord;
use crate::inventory::records::WorktreeRecordView;
use crate::inventory::state::Inventory;
use crate::inventory::state::InventoryView;
use crate::inventory::worktrees::ListedWorktree;
use crate::inventory::worktrees::ListedWorktreeView;
use crate::process::ProcessError;
use crate::process::ProcessErrorView;
use crate::process::ProcessInfo;
use crate::process::ProcessInfoView;
use crate::service::assess::Circumstances;
use crate::service::assess::assess_worktree;
use crate::service::assess::processes_view;
use crate::service::assess::record_view;
use crate::service::error::ServiceError;
use crate::service::error::ServiceErrorView;
use crate::service::rules::age_fault;
use crate::service::rules::validate_cleanup_age;
use crate::service::state::RepositoryService;
use crate::service::state::ServiceView;
use crate::service::state::find_record;
use crate::service::state::record_at;
use crate::service::types::CleanupCandidate;
use crate::service::types::CleanupCandidateView;
use crate::text::views;
use vstd::prelude::*;

verus! {

/// What was seen of a worktree: its state, and the processes that use it.
#[derive(Debug, PartialEq, Eq)]
pub struct Observation {
    pub listed: ListedWorktree,
    pub status: GitWorktreeStatus,
    pub processes: Result<Vec<ProcessInfo>, ProcessError>,
}

/// The view of an [`Observation`].
#[verifier::ext_equal]
pub struct ObservationView {
    pub listed: ListedWorktreeView,
    pub status: GitWorktreeStatusView,
    pub processes: Result<Seq<ProcessInfoView>, ProcessErrorView>,
}

impl View for Observation {
    type V = ObservationView;

    open spec fn view(&self) -> ObservationView {
        ObservationView {
            listed: self.listed@,
            status: self.status@,
            processes: processes_view(self.processes),
        }
    }
}

impl ServiceView {
    /// Whether a worktree can be cleaned up, by what was seen of it and what the
    /// inventory knows.
    pub open spec fn assess(
        self,
        seen: ObservationView,
        record: Option<WorktreeRecordView>,
        now: i64,
        minimum_age: i64,
    ) -> CleanupCandidateView {
        self.circumstances(seen, record, now, minimum_age).candidate()
    }

    /// All that bears on whether a worktree can be cleaned up.
    pub open spec fn circumstances(
        self,
        seen: ObservationView,
        record: Option<WorktreeRecordView>,
        now: i64,
        minimum_age: i64,
    ) -> Circumstances {
        Circumstances {
            primary_root: self.primary_root,
            listed: seen.listed,
            status: seen.status,
            processes: seen.processes,
            record,
            leased: record is Some && self.inventory.live_worktree_lease(record->0.id, now)
                is Some,
            now,
            minimum_age,
        }
    }

    /// Before worktrees are observed for a cleanup, the inventory is reconciled.
    pub open spec fn cleanup_scan(
        self,
        minimum_age: i64,
        worktrees: Seq<ListedWorktreeView>,
        now: i64,
    ) -> (InventoryView, Result<Seq<WorktreeRecordView>, ServiceErrorView>) {
        if age_fault(minimum_age) is Some {
            (self.inventory, Err(age_fault(minimum_age)->0))
        } else {
            match self.refresh(worktrees, now) {
                (current, Err(error)) => (current, Err(ServiceErrorView::Inventory(error))),
                (current, Ok((_, records))) => (current, Ok(records)),
            }
        }
    }

    /// The assessment of every worktree that was observed.
    pub open spec fn cleanup_candidates(
        self,
        records: Seq<WorktreeRecordView>,
        seen: Seq<ObservationView>,
        now: i64,
        minimum_age: i64,
    ) -> Seq<CleanupCandidateView> {
        seen.map_values(
            |one: ObservationView|
                self.assess(one, record_at(records, one.listed.worktree.path), now, minimum_age),
        )
    }
}

impl RepositoryService {
    /// Reconciles the inventory before worktrees are observed for a cleanup with
    /// the minimum age of the service.
    pub fn cleanup_scan(&mut self, worktrees: &Vec<ListedWorktree>, now: i64) -> (result: Result<
        Vec<WorktreeRecord>,
        ServiceError,
    >)
        ensures
            ({
                let (inventory, outcome) = old(self)@.cleanup_scan(
                    old(self)@.minimum_cleanup_age_seconds,
                    views(worktrees@),
                    now,
                );
                &&& final(self)@ == old(self)@.with_inventory(inventory)
                &&& match (result, outcome) {
                    (Ok(done), Ok(expected)) => views(done@) == expected,
                    (Err(error), Err(expected)) => error@ == expected,
                    _ => false,
                }
            }),
    {
        self.cleanup_scan_with_minimum_age(self.minimum_cleanup_age_seconds, worktrees, now)
    }

    /// Reconciles the inventory before worktrees are observed for a cleanup.
    pub fn cleanup_scan_with_minimum_age(
        &mut self,
        minimum_cleanup_age_seconds: i64,
        worktrees: &Vec<ListedWorktree>,
        now: i64,
    ) -> (result: Result<Vec<WorktreeRecord>, ServiceError>)
        ensures
            ({
                let (inventory, outcome) = old(self)@.cleanup_scan(
                    minimum_cleanup_age_seconds,
                    views(worktrees@),
                    now,
                );
                &&& final(self)@ == old(self)@.with_inventory(inventory)
                &&& match (result, outcome) {
                    (Ok(done), Ok(expected)) => views(done@) == expected,
                    (Err(error), Err(expected)) => error@ == expected,
                    _ => false,
                }
            }),
    {
        if let Err(error) = validate_cleanup_age(minimum_cleanup_age_seconds) {
            return Err(error);
        }
        match self.refresh(worktrees, now) {
            Ok((_, records)) => Ok(records),
            Err(error) => Err(error),
        }
    }

    /// Assesses a worktree by what was seen of it.
    pub fn assess_worktree(
        &self,
        listed: &ListedWorktree,
        status: &GitWorktreeStatus,
        processes: &Result<Vec<ProcessInfo>, ProcessError>,
        record: Option<&WorktreeRecord>,
        now: i64,
        minimum_cleanup_age_seconds: i64,
    ) -> (candidate: CleanupCandidate)
        ensures
            candidate@ == self@.assess(
                (ObservationView {
                    listed: listed@,
                    status: status@,
                    processes: processes_view(*processes),
                }),
                record_view(record),
                now,
                minimum_cleanup_age_seconds,
            ),
    {
        let leased = match record {
            Some(row) => self.inventory.active_lease_exists(row.id, now),
            None => false,
        };
        assess_worktree(
            &self.primary_root,
            listed,
            status,
            processes,
            record,
            leased,
            now,
            minimum_cleanup_age_seconds,
        )
    }

    /// Assesses every worktree that was observed.
    pub fn cleanup_candidates(
        &self,
        records: &Vec<WorktreeRecord>,
        seen: &Vec<Observation>,
        now: i64,
        minimum_cleanup_age_seconds: i64,
    ) -> (candidates: Vec<CleanupCandidate>)
        ensures
            views(candidates@) == self@.cleanup_candidates(
                views(records@),
                views(seen@),
                now,
                minimum_cleanup_age_seconds,
            ),
    {
        let ghost expected = self@.cleanup_candidates(
            views(records@),
            views(seen@),
            now,
            minimum_cleanup_age_seconds,
        );
        let mut candidates: Vec<CleanupCandidate> = Vec::new();
        let mut i: usize = 0;
        while i < seen.len()
            invariant
                i <= seen.len(),
                candidates@.len() == i,
                expected == self@.cleanup_candidates(
                    views(records@),
                    views(seen@),
                    now,
                    minimum_cleanup_age_seconds,
                ),
                forall|j: int| 0 <= j < i ==> (#[trigger] candidates@[j])@ == expected[j],
            decreases seen.len() - i,
        {
            let record = match find_record(records, &seen[i].listed.worktree.path) {
                Some(k) => Some(&records[k]),
                None => None,
            };
            let one = &seen[i];
            candidates.push(
                self.assess_worktree(
                    &one.listed,
                    &one.status,
                    &one.processes,
                    record,
                    now,
                    minimum_cleanup_age_seconds,
                ),
            );
            i += 1;
        }
        assert(views(candidates@) =~= expected);
        candidates
    }
}

} // verus!
