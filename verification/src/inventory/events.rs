//! The record of what happened.

use crate::inventory::records::check_text;
use crate::inventory::records::dangling_reference;
use crate::inventory::records::first_fault;
use crate::inventory::records::full_error;
use crate::inventory::records::reference_error;
use crate::inventory::records::table_full;
use crate::inventory::records::text_fault;
use crate::inventory::records::EventInput;
use crate::inventory::records::EventInputView;
use crate::inventory::records::EventRecord;
use crate::inventory::records::EventRecordView;
use crate::inventory::records::InventoryError;
use crate::inventory::records::InventoryErrorView;
use crate::inventory::records::RepositoryRecord;
use crate::inventory::records::RepositoryRecordView;
use crate::inventory::records::WorktreeRecord;
use crate::inventory::records::WorktreeRecordView;
use crate::inventory::state::event_ids;
use crate::inventory::state::fresh_id;
use crate::inventory::state::next_event_id;
use crate::inventory::state::Inventory;
use crate::inventory::state::InventoryView;
use crate::inventory::table::find_row;
use crate::inventory::table::first_match;
use crate::inventory::table::lemma_views_push;
use crate::inventory::table::select_rows;
use crate::text::views;
use vstd::prelude::*;

verus! {

/// An event as a row.
pub open spec fn event_row(id: i64, input: EventInputView) -> EventRecordView {
    EventRecordView {
        id,
        repository_id: input.repository_id,
        worktree_id: input.worktree_id,
        occurred_at: input.occurred_at,
        actor: input.actor,
        action: input.action,
        result: input.result,
        details_json: input.details_json,
    }
}

/// Why an event cannot be stored.
pub open spec fn event_fault(input: EventInputView) -> Option<InventoryErrorView> {
    first_fault(
        text_fault(input.actor),
        first_fault(
            text_fault(input.action),
            first_fault(text_fault(input.result), text_fault(input.details_json)),
        ),
    )
}

impl InventoryView {
    /// The repository with that identifier.
    pub open spec fn repository_with_id(self, id: i64) -> Option<RepositoryRecordView> {
        first_match(self.repositories, |row: RepositoryRecordView| row.id == id)
    }

    /// The worktree with that identifier.
    pub open spec fn worktree_with_id(self, id: i64) -> Option<WorktreeRecordView> {
        first_match(self.worktrees, |row: WorktreeRecordView| row.id == id)
    }

    /// Whether the rows that an event refers to are there.
    pub open spec fn event_refers(self, input: EventInputView) -> bool {
        self.repository_with_id(input.repository_id) is Some && match input.worktree_id {
            Some(id) => self.worktree_with_id(id) is Some,
            None => true,
        }
    }

    /// An event is recorded.
    pub open spec fn record_event(self, input: EventInputView) -> Result<
        (InventoryView, EventRecordView),
        InventoryErrorView,
    > {
        if event_fault(input) is Some {
            Err(event_fault(input)->0)
        } else {
            match fresh_id(event_ids(self.events)) {
                None => Err(table_full()),
                Some(id) => if self.event_refers(input) {
                    Ok(
                        (
                            InventoryView {
                                events: self.events.push(event_row(id, input)),
                                ..self
                            },
                            event_row(id, input),
                        ),
                    )
                } else {
                    Err(dangling_reference())
                },
            }
        }
    }

    /// The events of a repository, in the order in which they were recorded.
    pub open spec fn events_of(self, repository_id: i64) -> Seq<EventRecordView> {
        self.events.filter(|row: EventRecordView| row.repository_id == repository_id)
    }
}

impl Inventory {
    pub(crate) fn find_repository_id(&self, id: i64) -> (found: Option<usize>)
        ensures
            match found {
                Some(i) => i < self.repositories@.len()
                    && self@.repository_with_id(id) == Some(self.repositories@[i as int]@),
                None => self@.repository_with_id(id) is None,
            },
    {
        let test = |row: &RepositoryRecord| -> (answer: bool)
            ensures
                answer == (row@.id == id),
            {
                row.id == id
            };
        find_row(&self.repositories, test, Ghost(|row: RepositoryRecordView| row.id == id))
    }

    pub(crate) fn find_worktree_id(&self, id: i64) -> (found: Option<usize>)
        ensures
            match found {
                Some(i) => i < self.worktrees@.len()
                    && self@.worktree_with_id(id) == Some(self.worktrees@[i as int]@),
                None => self@.worktree_with_id(id) is None,
            },
    {
        let test = |row: &WorktreeRecord| -> (answer: bool)
            ensures
                answer == (row@.id == id),
            {
                row.id == id
            };
        find_row(&self.worktrees, test, Ghost(|row: WorktreeRecordView| row.id == id))
    }

    /// Records an event.
    pub fn record_event(&mut self, input: EventInput<'_>) -> (result: Result<
        EventRecord,
        InventoryError,
    >)
        ensures
            match (result, old(self)@.record_event(input@)) {
                (Ok(record), Ok((inventory, row))) => record@ == row && final(self)@ == inventory,
                (Err(error), Err(expected)) => error@ == expected && final(self)@ == old(self)@,
                _ => false,
            },
    {
        if let Some(fault) = check_text(input.actor) {
            return Err(fault);
        }
        if let Some(fault) = check_text(input.action) {
            return Err(fault);
        }
        if let Some(fault) = check_text(input.result) {
            return Err(fault);
        }
        if let Some(fault) = check_text(input.details_json) {
            return Err(fault);
        }
        let id = match next_event_id(&self.events) {
            Some(id) => id,
            None => return Err(full_error()),
        };
        if self.find_repository_id(input.repository_id).is_none() {
            return Err(reference_error());
        }
        if let Some(worktree_id) = input.worktree_id {
            if self.find_worktree_id(worktree_id).is_none() {
                return Err(reference_error());
            }
        }
        let record = EventRecord {
            id,
            repository_id: input.repository_id,
            worktree_id: input.worktree_id,
            occurred_at: input.occurred_at,
            actor: input.actor.to_owned(),
            action: input.action.to_owned(),
            result: input.result.to_owned(),
            details_json: input.details_json.to_owned(),
        };
        let row = record.clone();
        proof {
            lemma_views_push(self.events@, row);
        }
        self.events.push(row);
        Ok(record)
    }

    /// The events of a repository, in the order in which they were recorded.
    pub fn events(&self, repository_id: i64) -> (records: Vec<EventRecord>)
        ensures
            views(records@) == self@.events_of(repository_id),
    {
        let pick = |row: &EventRecord| -> (picked: Option<EventRecord>)
            ensures
                match picked {
                    Some(copy) => row@.repository_id == repository_id && copy@ == row@,
                    None => row@.repository_id != repository_id,
                },
            {
                if row.repository_id == repository_id {
                    Some(row.clone())
                } else {
                    None
                }
            };
        select_rows(
            &self.events,
            pick,
            Ghost(|row: EventRecordView| row.repository_id == repository_id),
        )
    }
}

} // verus!
