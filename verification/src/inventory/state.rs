//! The tables of the inventory.

use crate::inventory::records::EventRecord;
use crate::inventory::records::EventRecordView;
use crate::inventory::records::LeaseRecord;
use crate::inventory::records::LeaseRecordView;
use crate::inventory::records::RepositoryRecord;
use crate::inventory::records::RepositoryRecordView;
use crate::inventory::records::RequestRecord;
use crate::inventory::records::RequestRecordView;
use crate::inventory::records::ReservationRecord;
use crate::inventory::records::ReservationRecordView;
use crate::inventory::records::SessionRecord;
use crate::inventory::records::SessionRecordView;
use crate::inventory::records::WorktreeRecord;
use crate::inventory::records::WorktreeRecordView;
use crate::inventory::table::map_rows;
use crate::text::views;
use vstd::prelude::*;

verus! {

/// Everything the inventory holds, one sequence of rows for each table. Rows
/// are added at the end, so that the identifiers of a table rise.
#[derive(Debug, PartialEq, Eq)]
pub struct Inventory {
    pub repositories: Vec<RepositoryRecord>,
    pub worktrees: Vec<WorktreeRecord>,
    pub sessions: Vec<SessionRecord>,
    pub leases: Vec<LeaseRecord>,
    pub events: Vec<EventRecord>,
    pub reservations: Vec<ReservationRecord>,
    pub requests: Vec<RequestRecord>,
}

/// The view of an [`Inventory`].
#[verifier::ext_equal]
pub struct InventoryView {
    pub repositories: Seq<RepositoryRecordView>,
    pub worktrees: Seq<WorktreeRecordView>,
    pub sessions: Seq<SessionRecordView>,
    pub leases: Seq<LeaseRecordView>,
    pub events: Seq<EventRecordView>,
    pub reservations: Seq<ReservationRecordView>,
    pub requests: Seq<RequestRecordView>,
}

impl View for Inventory {
    type V = InventoryView;

    open spec fn view(&self) -> InventoryView {
        InventoryView {
            repositories: views(self.repositories@),
            worktrees: views(self.worktrees@),
            sessions: views(self.sessions@),
            leases: views(self.leases@),
            events: views(self.events@),
            reservations: views(self.reservations@),
            requests: views(self.requests@),
        }
    }
}

impl InventoryView {
    /// An inventory without rows.
    pub open spec fn nothing() -> InventoryView {
        InventoryView {
            repositories: seq![],
            worktrees: seq![],
            sessions: seq![],
            leases: seq![],
            events: seq![],
            reservations: seq![],
            requests: seq![],
        }
    }
}

impl Inventory {
    /// An inventory without rows.
    pub fn new() -> (inventory: Inventory)
        ensures
            inventory@ == InventoryView::nothing(),
    {
        let inventory = Inventory {
            repositories: Vec::new(),
            worktrees: Vec::new(),
            sessions: Vec::new(),
            leases: Vec::new(),
            events: Vec::new(),
            reservations: Vec::new(),
            requests: Vec::new(),
        };
        assert(inventory@ =~= InventoryView::nothing());
        inventory
    }
}

impl Default for Inventory {
    fn default() -> (inventory: Inventory)
        ensures
            inventory@ == InventoryView::nothing(),
    {
        Inventory::new()
    }
}

fn copy_repositories(rows: &Vec<RepositoryRecord>) -> (copy: Vec<RepositoryRecord>)
    ensures
        views(copy@) == views(rows@),
{
    let change = |row: &RepositoryRecord| -> (copied: RepositoryRecord)
        ensures
            copied@ == row@,
        {
            row.clone()
        };
    let copy = map_rows(rows, change, Ghost(|row: RepositoryRecordView| row));
    assert(views(copy@) =~= views(rows@));
    copy
}

fn copy_worktrees(rows: &Vec<WorktreeRecord>) -> (copy: Vec<WorktreeRecord>)
    ensures
        views(copy@) == views(rows@),
{
    let change = |row: &WorktreeRecord| -> (copied: WorktreeRecord)
        ensures
            copied@ == row@,
        {
            row.clone()
        };
    let copy = map_rows(rows, change, Ghost(|row: WorktreeRecordView| row));
    assert(views(copy@) =~= views(rows@));
    copy
}

fn copy_sessions(rows: &Vec<SessionRecord>) -> (copy: Vec<SessionRecord>)
    ensures
        views(copy@) == views(rows@),
{
    let change = |row: &SessionRecord| -> (copied: SessionRecord)
        ensures
            copied@ == row@,
        {
            row.clone()
        };
    let copy = map_rows(rows, change, Ghost(|row: SessionRecordView| row));
    assert(views(copy@) =~= views(rows@));
    copy
}

fn copy_leases(rows: &Vec<LeaseRecord>) -> (copy: Vec<LeaseRecord>)
    ensures
        views(copy@) == views(rows@),
{
    let change = |row: &LeaseRecord| -> (copied: LeaseRecord)
        ensures
            copied@ == row@,
        {
            row.clone()
        };
    let copy = map_rows(rows, change, Ghost(|row: LeaseRecordView| row));
    assert(views(copy@) =~= views(rows@));
    copy
}

fn copy_events(rows: &Vec<EventRecord>) -> (copy: Vec<EventRecord>)
    ensures
        views(copy@) == views(rows@),
{
    let change = |row: &EventRecord| -> (copied: EventRecord)
        ensures
            copied@ == row@,
        {
            row.clone()
        };
    let copy = map_rows(rows, change, Ghost(|row: EventRecordView| row));
    assert(views(copy@) =~= views(rows@));
    copy
}

fn copy_reservations(rows: &Vec<ReservationRecord>) -> (copy: Vec<ReservationRecord>)
    ensures
        views(copy@) == views(rows@),
{
    let change = |row: &ReservationRecord| -> (copied: ReservationRecord)
        ensures
            copied@ == row@,
        {
            row.clone()
        };
    let copy = map_rows(rows, change, Ghost(|row: ReservationRecordView| row));
    assert(views(copy@) =~= views(rows@));
    copy
}

fn copy_requests(rows: &Vec<RequestRecord>) -> (copy: Vec<RequestRecord>)
    ensures
        views(copy@) == views(rows@),
{
    let change = |row: &RequestRecord| -> (copied: RequestRecord)
        ensures
            copied@ == row@,
        {
            row.clone()
        };
    let copy = map_rows(rows, change, Ghost(|row: RequestRecordView| row));
    assert(views(copy@) =~= views(rows@));
    copy
}

impl Clone for Inventory {
    fn clone(&self) -> (copy: Self)
        ensures
            copy@ == self@,
    {
        Inventory {
            repositories: copy_repositories(&self.repositories),
            worktrees: copy_worktrees(&self.worktrees),
            sessions: copy_sessions(&self.sessions),
            leases: copy_leases(&self.leases),
            events: copy_events(&self.events),
            reservations: copy_reservations(&self.reservations),
            requests: copy_requests(&self.requests),
        }
    }
}

// ---------------------------------------------------------------------------
// Identifiers
// ---------------------------------------------------------------------------

/// The largest of some identifiers, or zero.
pub open spec fn largest(ids: Seq<i64>) -> i64
    decreases ids.len(),
{
    if ids.len() == 0 {
        0
    } else {
        let before = largest(ids.drop_last());
        if ids.last() > before {
            ids.last()
        } else {
            before
        }
    }
}

/// The identifier of the next row: one more than the largest so far.
pub open spec fn fresh_id(ids: Seq<i64>) -> Option<i64> {
    if largest(ids) == i64::MAX {
        None
    } else {
        Some((largest(ids) + 1) as i64)
    }
}

pub proof fn lemma_largest(ids: Seq<i64>)
    ensures
        forall|i: int| 0 <= i < ids.len() ==> #[trigger] ids[i] <= largest(ids),
        largest(ids) >= 0,
    decreases ids.len(),
{
    if ids.len() > 0 {
        lemma_largest(ids.drop_last());
        assert forall|i: int| 0 <= i < ids.len() implies #[trigger] ids[i] <= largest(ids) by {
            if i < ids.len() - 1 {
                assert(ids.drop_last()[i] == ids[i]);
            }
        }
    }
}

pub(crate) fn next_id(ids: &Vec<i64>) -> (id: Option<i64>)
    ensures
        id == fresh_id(ids@),
{
    let mut most: i64 = 0;
    let mut i: usize = 0;
    assert(ids@.take(0) =~= seq![]);
    while i < ids.len()
        invariant
            i <= ids.len(),
            most == largest(ids@.take(i as int)),
        decreases ids.len() - i,
    {
        assert(ids@.take(i + 1).drop_last() =~= ids@.take(i as int));
        if ids[i] > most {
            most = ids[i];
        }
        i += 1;
    }
    assert(ids@.take(i as int) =~= ids@);
    if most == i64::MAX {
        None
    } else {
        Some(most + 1)
    }
}

/// The identifiers of the repositories.
pub open spec fn repository_ids(rows: Seq<RepositoryRecordView>) -> Seq<i64> {
    rows.map_values(|row: RepositoryRecordView| row.id)
}

pub(crate) fn next_repository_id(rows: &Vec<RepositoryRecord>) -> (id: Option<i64>)
    ensures
        id == fresh_id(repository_ids(views(rows@))),
{
    let mut ids: Vec<i64> = Vec::new();
    let mut i: usize = 0;
    while i < rows.len()
        invariant
            i <= rows.len(),
            ids@.len() == i,
            forall|j: int| 0 <= j < i ==> #[trigger] ids@[j] == rows@[j].id,
        decreases rows.len() - i,
    {
        ids.push(rows[i].id);
        i += 1;
    }
    assert(ids@ =~= repository_ids(views(rows@)));
    next_id(&ids)
}

/// The identifiers of the worktrees.
pub open spec fn worktree_ids(rows: Seq<WorktreeRecordView>) -> Seq<i64> {
    rows.map_values(|row: WorktreeRecordView| row.id)
}

pub(crate) fn next_worktree_id(rows: &Vec<WorktreeRecord>) -> (id: Option<i64>)
    ensures
        id == fresh_id(worktree_ids(views(rows@))),
{
    let mut ids: Vec<i64> = Vec::new();
    let mut i: usize = 0;
    while i < rows.len()
        invariant
            i <= rows.len(),
            ids@.len() == i,
            forall|j: int| 0 <= j < i ==> #[trigger] ids@[j] == rows@[j].id,
        decreases rows.len() - i,
    {
        ids.push(rows[i].id);
        i += 1;
    }
    assert(ids@ =~= worktree_ids(views(rows@)));
    next_id(&ids)
}

/// The identifiers of the leases.
pub open spec fn lease_ids(rows: Seq<LeaseRecordView>) -> Seq<i64> {
    rows.map_values(|row: LeaseRecordView| row.id)
}

pub(crate) fn next_lease_id(rows: &Vec<LeaseRecord>) -> (id: Option<i64>)
    ensures
        id == fresh_id(lease_ids(views(rows@))),
{
    let mut ids: Vec<i64> = Vec::new();
    let mut i: usize = 0;
    while i < rows.len()
        invariant
            i <= rows.len(),
            ids@.len() == i,
            forall|j: int| 0 <= j < i ==> #[trigger] ids@[j] == rows@[j].id,
        decreases rows.len() - i,
    {
        ids.push(rows[i].id);
        i += 1;
    }
    assert(ids@ =~= lease_ids(views(rows@)));
    next_id(&ids)
}

/// The identifiers of the events.
pub open spec fn event_ids(rows: Seq<EventRecordView>) -> Seq<i64> {
    rows.map_values(|row: EventRecordView| row.id)
}

pub(crate) fn next_event_id(rows: &Vec<EventRecord>) -> (id: Option<i64>)
    ensures
        id == fresh_id(event_ids(views(rows@))),
{
    let mut ids: Vec<i64> = Vec::new();
    let mut i: usize = 0;
    while i < rows.len()
        invariant
            i <= rows.len(),
            ids@.len() == i,
            forall|j: int| 0 <= j < i ==> #[trigger] ids@[j] == rows@[j].id,
        decreases rows.len() - i,
    {
        ids.push(rows[i].id);
        i += 1;
    }
    assert(ids@ =~= event_ids(views(rows@)));
    next_id(&ids)
}

/// The identifiers of the reservations.
pub open spec fn reservation_ids(rows: Seq<ReservationRecordView>) -> Seq<i64> {
    rows.map_values(|row: ReservationRecordView| row.id)
}

pub(crate) fn next_reservation_id(rows: &Vec<ReservationRecord>) -> (id: Option<i64>)
    ensures
        id == fresh_id(reservation_ids(views(rows@))),
{
    let mut ids: Vec<i64> = Vec::new();
    let mut i: usize = 0;
    while i < rows.len()
        invariant
            i <= rows.len(),
            ids@.len() == i,
            forall|j: int| 0 <= j < i ==> #[trigger] ids@[j] == rows@[j].id,
        decreases rows.len() - i,
    {
        ids.push(rows[i].id);
        i += 1;
    }
    assert(ids@ =~= reservation_ids(views(rows@)));
    next_id(&ids)
}

} // verus!
