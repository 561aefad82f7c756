//! Paths and branches set aside for worktrees that are being created.

use crate::inventory::records::check_text;
use crate::inventory::records::constraint_error;
use crate::inventory::records::constraint_failure;
use crate::inventory::records::dangling_reference;
use crate::inventory::records::first_fault;
use crate::inventory::records::full_error;
use crate::inventory::records::own_option;
use crate::inventory::records::reference_error;
use crate::inventory::records::table_full;
use crate::inventory::records::text_fault;
use crate::inventory::records::InventoryError;
use crate::inventory::records::InventoryErrorView;
use crate::inventory::records::ReservationRecord;
use crate::inventory::records::ReservationRecordView;
use crate::inventory::state::fresh_id;
use crate::inventory::state::next_reservation_id;
use crate::inventory::state::reservation_ids;
use crate::inventory::state::Inventory;
use crate::inventory::state::InventoryView;
use crate::inventory::table::find_row;
use crate::inventory::table::first_match;
use crate::inventory::table::lemma_views_push;
use crate::inventory::table::map_rows;
use crate::json::writer::slice_view;
use crate::numeral::print_i64;
use crate::numeral::signed_decimal;
use crate::text::concat3;
use crate::text::debug_string;
use crate::text::debug_text;
use crate::text::is_text;
use crate::text::same_text;
use vstd::prelude::*;

verus! {

/// Whether a reservation in that state holds its path and branch.
pub open spec fn holds(state: Seq<char>) -> bool {
    state == "pending"@ || state == "succeeded"@
}

fn state_holds(state: &str) -> (result: bool)
    ensures
        result == holds(state@),
{
    same_text(state, "pending") || same_text(state, "succeeded")
}

/// A reservation as it is made.
pub open spec fn reservation_row(
    id: i64,
    repository_id: i64,
    path: Seq<char>,
    branch: Seq<char>,
    idempotency_key: Option<Seq<char>>,
    now: i64,
) -> ReservationRecordView {
    ReservationRecordView {
        id,
        repository_id,
        path,
        branch,
        idempotency_key,
        state: "pending"@,
        worktree_id: None,
        created_at: now,
        completed_at: None,
    }
}

impl InventoryView {
    /// The reservation that was made with a key.
    pub open spec fn reservation_for_key(
        self,
        repository_id: i64,
        key: Seq<char>,
    ) -> Option<ReservationRecordView> {
        first_match(
            self.reservations,
            |row: ReservationRecordView|
                row.repository_id == repository_id
                    && row.idempotency_key == Some(key),
        )
    }

    /// A reservation that holds a path or a branch.
    pub open spec fn reservation_holding(
        self,
        repository_id: i64,
        path: Seq<char>,
        branch: Seq<char>,
    ) -> Option<ReservationRecordView> {
        first_match(
            self.reservations,
            |row: ReservationRecordView|
                row.repository_id == repository_id
                    && holds(row.state)
                    && (row.path == path || row.branch == branch),
        )
    }

    /// The reservation with that identifier.
    pub open spec fn reservation(self, id: i64) -> Option<ReservationRecordView> {
        first_match(self.reservations, |row: ReservationRecordView| row.id == id)
    }

    /// The reservation of a worktree that is gone is given up.
    pub open spec fn with_reservations_released(
        self,
        worktree_id: i64,
        released_at: i64,
    ) -> InventoryView {
        InventoryView {
            reservations: self.reservations.map_values(
                |row: ReservationRecordView|
                    if row.worktree_id == Some(worktree_id) && row.state == "succeeded"@ {
                        ReservationRecordView {
                            state: "released"@,
                            completed_at: Some(released_at),
                            ..row
                        }
                    } else {
                        row
                    },
            ),
            ..self
        }
    }

    /// A reservation is in another state.
    pub open spec fn with_reservation_state(
        self,
        id: i64,
        state: Seq<char>,
        worktree_id: Option<i64>,
        completed_at: Option<i64>,
    ) -> InventoryView {
        InventoryView {
            reservations: self.reservations.map_values(
                |row: ReservationRecordView|
                    if row.id == id {
                        ReservationRecordView {
                            state: state,
                            worktree_id: worktree_id,
                            completed_at: completed_at,
                            ..row
                        }
                    } else {
                        row
                    },
            ),
            ..self
        }
    }

    /// Another reservation that holds the path of this one.
    pub open spec fn path_rival(self, own: ReservationRecordView) -> Option<ReservationRecordView> {
        first_match(
            self.reservations,
            |row: ReservationRecordView|
                row.id != own.id
                    && row.repository_id == own.repository_id
                    && holds(row.state)
                    && row.path == own.path,
        )
    }

    /// Another reservation that holds the branch of this one.
    pub open spec fn branch_rival(self, own: ReservationRecordView) -> Option<ReservationRecordView> {
        first_match(
            self.reservations,
            |row: ReservationRecordView|
                row.id != own.id
                    && row.repository_id == own.repository_id
                    && holds(row.state)
                    && row.branch == own.branch,
        )
    }

    /// The answer to a key that was used before: the same reservation for the
    /// same path and branch, and a conflict for others or once it is over.
    pub open spec fn repeat_reservation(
        self,
        existing: ReservationRecordView,
        path: Seq<char>,
        branch: Seq<char>,
        key: Seq<char>,
    ) -> Result<(InventoryView, ReservationRecordView), InventoryErrorView> {
        if existing.path != path || existing.branch != branch {
            Err(
                InventoryErrorView::Conflict(
                    "idempotency key "@ + debug_text(key) + " is already reserved for "@
                        + existing.path + " / "@ + existing.branch,
                ),
            )
        } else if holds(existing.state) {
            Ok((self, existing))
        } else {
            Err(
                InventoryErrorView::Conflict(
                    "idempotency key "@ + debug_text(key)
                        + " was already completed with state "@ + debug_text(existing.state),
                ),
            )
        }
    }

    /// A path and a branch that nobody holds are set aside.
    pub open spec fn make_reservation(
        self,
        repository_id: i64,
        path: Seq<char>,
        branch: Seq<char>,
        idempotency_key: Option<Seq<char>>,
        now: i64,
    ) -> Result<(InventoryView, ReservationRecordView), InventoryErrorView> {
        let fault = first_fault(text_fault(path), text_fault(branch));
        if fault is Some {
            Err(fault->0)
        } else {
            match self.reservation_holding(repository_id, path, branch) {
                Some(existing) => Err(
                    InventoryErrorView::Conflict(
                        (if existing.path == path {
                            "the requested path"@
                        } else {
                            "the requested branch"@
                        }) + " is already reserved by creation "@ + signed_decimal(
                            existing.id as int,
                        ),
                    ),
                ),
                None => match fresh_id(reservation_ids(self.reservations)) {
                    None => Err(table_full()),
                    Some(id) => if self.repository_with_id(repository_id) is None {
                        Err(dangling_reference())
                    } else {
                        let row = reservation_row(
                            id,
                            repository_id,
                            path,
                            branch,
                            idempotency_key,
                            now,
                        );
                        Ok(
                            (
                                InventoryView { reservations: self.reservations.push(row), ..self },
                                row,
                            ),
                        )
                    },
                },
            }
        }
    }

    /// A path and a branch are set aside for a worktree to be created.
    pub open spec fn reserve_creation(
        self,
        repository_id: i64,
        path: Seq<char>,
        branch: Seq<char>,
        idempotency_key: Option<Seq<char>>,
        now: i64,
    ) -> Result<(InventoryView, ReservationRecordView), InventoryErrorView> {
        match idempotency_key {
            Some(key) => if text_fault(key) is Some {
                Err(text_fault(key)->0)
            } else {
                match self.reservation_for_key(repository_id, key) {
                    Some(existing) => self.repeat_reservation(existing, path, branch, key),
                    None => self.make_reservation(
                        repository_id,
                        path,
                        branch,
                        idempotency_key,
                        now,
                    ),
                }
            },
            None => self.make_reservation(repository_id, path, branch, None, now),
        }
    }

    /// A reservation gets another state. It cannot take up a path or a branch
    /// that another one holds.
    pub open spec fn set_reservation_state(
        self,
        id: i64,
        state: Seq<char>,
        worktree_id: Option<i64>,
        completed_at: Option<i64>,
    ) -> Result<InventoryView, InventoryErrorView> {
        if text_fault(state) is Some {
            Err(text_fault(state)->0)
        } else {
            match self.reservation(id) {
                None => Ok(self.with_reservation_state(id, state, worktree_id, completed_at)),
                Some(own) => if holds(state) && self.path_rival(own) is Some {
                    Err(
                        constraint_failure(
                            "UNIQUE constraint failed: reservations.repository_id, reservations.path"@,
                        ),
                    )
                } else if holds(state) && self.branch_rival(own) is Some {
                    Err(
                        constraint_failure(
                            "UNIQUE constraint failed: reservations.repository_id, reservations.branch"@,
                        ),
                    )
                } else if worktree_id is Some && self.worktree_with_id(worktree_id->0) is None {
                    Err(dangling_reference())
                } else {
                    Ok(self.with_reservation_state(id, state, worktree_id, completed_at))
                },
            }
        }
    }
}

impl Inventory {
    fn find_reservation_key(&self, repository_id: i64, key: &str) -> (found: Option<usize>)
        ensures
            match found {
                Some(i) => i < self.reservations@.len()
                    && self@.reservation_for_key(repository_id, key@) == Some(
                        self.reservations@[i as int]@
                    ),
                None => self@.reservation_for_key(repository_id, key@) is None,
            },
    {
        let test = |row: &ReservationRecord| -> (answer: bool)
            ensures
                answer == (
                    row@.repository_id == repository_id && row@.idempotency_key == Some(key@)
                ),
            {
                row.repository_id == repository_id && is_text(&row.idempotency_key, key)
            };
        find_row(
            &self.reservations,
            test,
            Ghost(
                |row: ReservationRecordView|
                    row.repository_id == repository_id
                        && row.idempotency_key == Some(key@)
            ),
        )
    }

    fn find_reservation_holding(
        &self,
        repository_id: i64,
        path: &str,
        branch: &str,
    ) -> (found: Option<usize>)
        ensures
            match found {
                Some(i) => i < self.reservations@.len()
                    && self@.reservation_holding(
                        repository_id,
                        path@,
                        branch@,
                    ) == Some(self.reservations@[i as int]@),
                None => self@.reservation_holding(repository_id, path@, branch@) is None,
            },
    {
        let test = |row: &ReservationRecord| -> (answer: bool)
            ensures
                answer == (
                    row@.repository_id == repository_id
                        && holds(row@.state)
                        && (row@.path == path@ || row@.branch == branch@)
                ),
            {
                row.repository_id == repository_id
                    && state_holds(&row.state)
                    && (same_text(&row.path, path) || same_text(&row.branch, branch))
            };
        find_row(
            &self.reservations,
            test,
            Ghost(
                |row: ReservationRecordView|
                    row.repository_id == repository_id
                        && holds(row.state)
                        && (row.path == path@ || row.branch == branch@)
            ),
        )
    }

    fn find_reservation(&self, id: i64) -> (found: Option<usize>)
        ensures
            match found {
                Some(i) => i < self.reservations@.len()
                    && self@.reservation(id) == Some(self.reservations@[i as int]@),
                None => self@.reservation(id) is None,
            },
    {
        let test = |row: &ReservationRecord| -> (answer: bool)
            ensures
                answer == (row@.id == id),
            {
                row.id == id
            };
        find_row(&self.reservations, test, Ghost(|row: ReservationRecordView| row.id == id))
    }

    fn find_path_rival(&self, own: &ReservationRecord) -> (found: Option<usize>)
        ensures
            match found {
                Some(i) => i < self.reservations@.len()
                    && self@.path_rival(own@) == Some(self.reservations@[i as int]@),
                None => self@.path_rival(own@) is None,
            },
    {
        let test = |row: &ReservationRecord| -> (answer: bool)
            ensures
                answer == (
                    row@.id != own@.id
                        && row@.repository_id == own@.repository_id
                        && holds(row@.state)
                        && row@.path == own@.path
                ),
            {
                row.id != own.id
                    && row.repository_id == own.repository_id
                    && state_holds(&row.state)
                    && same_text(&row.path, &own.path)
            };
        find_row(
            &self.reservations,
            test,
            Ghost(
                |row: ReservationRecordView|
                    row.id != own@.id
                        && row.repository_id == own@.repository_id
                        && holds(row.state)
                        && row.path == own@.path
            ),
        )
    }

    fn find_branch_rival(&self, own: &ReservationRecord) -> (found: Option<usize>)
        ensures
            match found {
                Some(i) => i < self.reservations@.len()
                    && self@.branch_rival(own@) == Some(self.reservations@[i as int]@),
                None => self@.branch_rival(own@) is None,
            },
    {
        let test = |row: &ReservationRecord| -> (answer: bool)
            ensures
                answer == (
                    row@.id != own@.id
                        && row@.repository_id == own@.repository_id
                        && holds(row@.state)
                        && row@.branch == own@.branch
                ),
            {
                row.id != own.id
                    && row.repository_id == own.repository_id
                    && state_holds(&row.state)
                    && same_text(&row.branch, &own.branch)
            };
        find_row(
            &self.reservations,
            test,
            Ghost(
                |row: ReservationRecordView|
                    row.id != own@.id
                        && row.repository_id == own@.repository_id
                        && holds(row.state)
                        && row.branch == own@.branch
            ),
        )
    }

    /// Gives up the reservation of a worktree that is gone.
    pub fn release_reservations_for_worktree(&mut self, worktree_id: i64, released_at: i64)
        ensures
            final(self)@ == old(self)@.with_reservations_released(worktree_id, released_at),
    {
        let ghost changed = |row: ReservationRecordView|
            if row.worktree_id == Some(worktree_id) && row.state == "succeeded"@ {
                ReservationRecordView { state: "released"@, completed_at: Some(released_at), ..row }
            } else {
                row
            };
        let change = |row: &ReservationRecord| -> (after: ReservationRecord)
            ensures
                after@ == changed(row@),
            {
                let mut after = row.clone();
                if is_worktree(row.worktree_id, worktree_id) && same_text(&row.state, "succeeded") {
                    after.state = "released".to_owned();
                    after.completed_at = Some(released_at);
                }
                after
            };
        let rows = map_rows(&self.reservations, change, Ghost(changed));
        self.reservations = rows;
    }

    fn change_reservation(
        &mut self,
        id: i64,
        state: &str,
        worktree_id: Option<i64>,
        completed_at: Option<i64>,
    )
        ensures
            final(self)@ == old(self)@.with_reservation_state(
                id,
                state@,
                worktree_id,
                completed_at,
            ),
    {
        let ghost changed = |row: ReservationRecordView|
            if row.id == id {
                ReservationRecordView {
                    state: state@,
                    worktree_id: worktree_id,
                    completed_at: completed_at,
                    ..row
                }
            } else {
                row
            };
        let change = |row: &ReservationRecord| -> (after: ReservationRecord)
            ensures
                after@ == changed(row@),
            {
                let mut after = row.clone();
                if row.id == id {
                    after.state = state.to_owned();
                    after.worktree_id = worktree_id;
                    after.completed_at = completed_at;
                }
                after
            };
        let rows = map_rows(&self.reservations, change, Ghost(changed));
        self.reservations = rows;
    }

    fn make_reservation(
        &mut self,
        repository_id: i64,
        path: &str,
        branch: &str,
        idempotency_key: Option<&str>,
        now: i64,
    ) -> (result: Result<ReservationRecord, InventoryError>)
        ensures
            match (
                result,
                old(self)@.make_reservation(
                    repository_id,
                    path@,
                    branch@,
                    slice_view(idempotency_key),
                    now,
                ),
            ) {
                (Ok(record), Ok((inventory, row))) => record@ == row && final(self)@ == inventory,
                (Err(error), Err(expected)) => error@ == expected && final(self)@ == old(self)@,
                _ => false,
            },
    {
        if let Some(fault) = check_text(path) {
            return Err(fault);
        }
        if let Some(fault) = check_text(branch) {
            return Err(fault);
        }
        if let Some(i) = self.find_reservation_holding(repository_id, path, branch) {
            let number = print_i64(self.reservations[i].id);
            let what = if same_text(&self.reservations[i].path, path) {
                "the requested path"
            } else {
                "the requested branch"
            };
            return Err(
                InventoryError::Conflict(
                    concat3(what, " is already reserved by creation ", &number),
                ),
            );
        }
        let id = match next_reservation_id(&self.reservations) {
            Some(id) => id,
            None => return Err(full_error()),
        };
        if self.find_repository_id(repository_id).is_none() {
            return Err(reference_error());
        }
        let record = ReservationRecord {
            id,
            repository_id,
            path: path.to_owned(),
            branch: branch.to_owned(),
            idempotency_key: own_option(idempotency_key),
            state: "pending".to_owned(),
            worktree_id: None,
            created_at: now,
            completed_at: None,
        };
        let row = record.clone();
        proof {
            lemma_views_push(self.reservations@, row);
        }
        self.reservations.push(row);
        Ok(record)
    }

    /// Sets a path and a branch aside for a worktree to be created.
    pub fn reserve_creation(
        &mut self,
        repository_id: i64,
        path: &str,
        branch: &str,
        idempotency_key: Option<&str>,
        now: i64,
    ) -> (result: Result<ReservationRecord, InventoryError>)
        ensures
            match (
                result,
                old(self)@.reserve_creation(
                    repository_id,
                    path@,
                    branch@,
                    slice_view(idempotency_key),
                    now,
                ),
            ) {
                (Ok(record), Ok((inventory, row))) => record@ == row && final(self)@ == inventory,
                (Err(error), Err(expected)) => error@ == expected && final(self)@ == old(self)@,
                _ => false,
            },
    {
        let key = match idempotency_key {
            Some(key) => key,
            None => return self.make_reservation(repository_id, path, branch, None, now),
        };
        if let Some(fault) = check_text(key) {
            return Err(fault);
        }
        match self.find_reservation_key(repository_id, key) {
            None => self.make_reservation(repository_id, path, branch, idempotency_key, now),
            Some(i) => {
                let existing = self.reservations[i].clone();
                let printed = debug_string(key);
                if !same_text(&existing.path, path) || !same_text(&existing.branch, branch) {
                    let mut message = concat3(
                        "idempotency key ",
                        &printed,
                        " is already reserved for ",
                    );
                    message.append(&existing.path);
                    message.append(" / ");
                    message.append(&existing.branch);
                    return Err(InventoryError::Conflict(message));
                }
                if state_holds(&existing.state) {
                    return Ok(existing);
                }
                let state = debug_string(&existing.state);
                let mut message = concat3(
                    "idempotency key ",
                    &printed,
                    " was already completed with state ",
                );
                message.append(&state);
                Err(InventoryError::Conflict(message))
            },
        }
    }

    /// Gives a reservation another state.
    pub fn set_reservation_state(
        &mut self,
        reservation_id: i64,
        state: &str,
        worktree_id: Option<i64>,
        completed_at: Option<i64>,
    ) -> (result: Result<(), InventoryError>)
        ensures
            match (
                result,
                old(self)@.set_reservation_state(
                    reservation_id,
                    state@,
                    worktree_id,
                    completed_at,
                ),
            ) {
                (Ok(()), Ok(inventory)) => final(self)@ == inventory,
                (Err(error), Err(expected)) => error@ == expected && final(self)@ == old(self)@,
                _ => false,
            },
    {
        if let Some(fault) = check_text(state) {
            return Err(fault);
        }
        if let Some(i) = self.find_reservation(reservation_id) {
            if state_holds(state) {
                if self.find_path_rival(&self.reservations[i]).is_some() {
                    return Err(
                        constraint_error(
                            "UNIQUE constraint failed: reservations.repository_id, reservations.path",
                        ),
                    );
                }
                if self.find_branch_rival(&self.reservations[i]).is_some() {
                    return Err(
                        constraint_error(
                            "UNIQUE constraint failed: reservations.repository_id, reservations.branch",
                        ),
                    );
                }
            }
            if let Some(id) = worktree_id {
                if self.find_worktree_id(id).is_none() {
                    return Err(reference_error());
                }
            }
        }
        self.change_reservation(reservation_id, state, worktree_id, completed_at);
        Ok(())
    }
}

fn is_worktree(value: Option<i64>, wanted: i64) -> (same: bool)
    ensures
        same == (value == Some(wanted)),
{
    match value {
        Some(id) => id == wanted,
        None => false,
    }
}

} // verus!
