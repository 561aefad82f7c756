//! Bringing older inventories up to date.

use crate::inventory::records::LeaseRecord;
use crate::inventory::records::LeaseRecordView;
use crate::inventory::state::Inventory;
use crate::inventory::state::InventoryView;
use crate::inventory::table::find_row;
use crate::inventory::table::first_match;
use crate::inventory::table::map_rows;
use crate::text::same_text;
use vstd::prelude::*;

verus! {

/// Whether an inventory of that version may hold several active leases on one
/// worktree.
pub fn needs_lease_migration(version: i64) -> (needed: bool)
    ensures
        needed == (version < 2),
{
    version < 2
}

impl InventoryView {
    /// A later active lease on the worktree of this one.
    pub open spec fn later_lease(self, own: LeaseRecordView) -> Option<LeaseRecordView> {
        first_match(
            self.leases,
            |row: LeaseRecordView|
                row.state == "active"@
                    && row.worktree_id == own.worktree_id
                    && row.id > own.id,
        )
    }

    /// Of the active leases on a worktree, only the latest stays active.
    pub open spec fn with_latest_leases(self, now: i64) -> InventoryView {
        InventoryView {
            leases: self.leases.map_values(
                |row: LeaseRecordView|
                    if row.state == "active"@ && self.later_lease(row) is Some {
                        LeaseRecordView { state: "expired"@, renewed_at: now, ..row }
                    } else {
                        row
                    },
            ),
            ..self
        }
    }
}

impl Inventory {
    fn find_later_lease(&self, own: &LeaseRecord) -> (found: Option<usize>)
        ensures
            match found {
                Some(i) => i < self.leases@.len()
                    && self@.later_lease(own@) == Some(self.leases@[i as int]@),
                None => self@.later_lease(own@) is None,
            },
    {
        let test = |row: &LeaseRecord| -> (answer: bool)
            ensures
                answer == (
                    row@.state == "active"@
                        && row@.worktree_id == own@.worktree_id
                        && row@.id > own@.id
                ),
            {
                same_text(&row.state, "active")
                    && row.worktree_id == own.worktree_id
                    && row.id > own.id
            };
        find_row(
            &self.leases,
            test,
            Ghost(
                |row: LeaseRecordView|
                    row.state == "active"@
                        && row.worktree_id == own@.worktree_id
                        && row.id > own@.id
            ),
        )
    }

    /// Expires all but the latest active lease on each worktree.
    pub fn keep_latest_leases(&mut self, now: i64)
        ensures
            final(self)@ == old(self)@.with_latest_leases(now),
    {
        let ghost inventory = self@;
        let ghost changed = |row: LeaseRecordView|
            if row.state == "active"@ && inventory.later_lease(row) is Some {
                LeaseRecordView { state: "expired"@, renewed_at: now, ..row }
            } else {
                row
            };
        let this: &Inventory = self;
        let change = |row: &LeaseRecord| -> (after: LeaseRecord)
            ensures
                after@ == changed(row@),
            {
                let mut after = row.clone();
                if same_text(&row.state, "active") && this.find_later_lease(row).is_some() {
                    after.state = "expired".to_owned();
                    after.renewed_at = now;
                }
                after
            };
        let rows = map_rows(&this.leases, change, Ghost(changed));
        self.leases = rows;
    }
}

} // verus!
