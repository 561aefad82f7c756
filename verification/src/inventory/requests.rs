//! The journal of requests, by which a repeated request is answered as before.

use crate::inventory::records::check_text;
use crate::inventory::records::first_fault;
use crate::inventory::records::own_option;
use crate::inventory::records::text_fault;
use crate::inventory::records::InventoryError;
use crate::inventory::records::InventoryErrorView;
use crate::inventory::records::RequestRecord;
use crate::inventory::records::RequestRecordView;
use crate::inventory::state::Inventory;
use crate::inventory::state::InventoryView;
use crate::inventory::table::find_row;
use crate::inventory::table::first_match;
use crate::inventory::table::lemma_views_push;
use crate::inventory::table::map_rows;
use crate::json::writer::slice_view;
use crate::text::concat;
use crate::text::debug_string;
use crate::text::debug_text;
use crate::text::is_blank;
use crate::text::option_view;
use crate::text::same_text;
use vstd::prelude::*;

verus! {

impl InventoryView {
    /// The request with that identifier.
    pub open spec fn request(self, id: Seq<char>) -> Option<RequestRecordView> {
        first_match(self.requests, |row: RequestRecordView| row.id == id)
    }

    /// The requests, with those of that identifier in another state.
    pub open spec fn with_request_state(
        self,
        id: Seq<char>,
        state: Seq<char>,
        response_json: Option<Seq<char>>,
        now: i64,
    ) -> InventoryView {
        InventoryView {
            requests: self.requests.map_values(
                |row: RequestRecordView|
                    if row.id == id {
                        RequestRecordView { state, response_json, updated_at: now, ..row }
                    } else {
                        row
                    },
            ),
            ..self
        }
    }

    /// A request is begun: it is new, or it is begun again, or it was answered
    /// already. The same identifier with another operation is a conflict.
    pub open spec fn begin_request(self, id: Seq<char>, operation: Seq<char>, now: i64) -> Result<
        (InventoryView, RequestRecordView),
        InventoryErrorView,
    > {
        if id.len() == 0 || operation.len() == 0 {
            Err(InventoryErrorView::InvalidData("request id and operation cannot be empty"@))
        } else if text_fault(id) is Some {
            Err(text_fault(id)->0)
        } else {
            match self.request(id) {
                Some(existing) => if existing.operation != operation {
                    Err(
                        InventoryErrorView::Conflict(
                            "request id "@ + debug_text(id) + " was already used for operation "@
                                + debug_text(existing.operation),
                        ),
                    )
                } else if existing.state == "succeeded"@ {
                    Ok((self, existing))
                } else {
                    Ok(
                        (
                            self.with_request_state(id, "started"@, None, now),
                            RequestRecordView {
                                state: "started"@,
                                response_json: None,
                                updated_at: now,
                                ..existing
                            },
                        ),
                    )
                },
                None => if text_fault(operation) is Some {
                    Err(text_fault(operation)->0)
                } else {
                    let row = RequestRecordView {
                        id,
                        operation,
                        state: "started"@,
                        response_json: None,
                        created_at: now,
                        updated_at: now,
                    };
                    Ok((InventoryView { requests: self.requests.push(row), ..self }, row))
                },
            }
        }
    }

    /// A request is answered.
    pub open spec fn complete_request(
        self,
        id: Seq<char>,
        response_json: Seq<char>,
        now: i64,
    ) -> Result<(InventoryView, RequestRecordView), InventoryErrorView> {
        let fault = first_fault(text_fault(response_json), text_fault(id));
        if fault is Some {
            Err(fault->0)
        } else {
            match self.request(id) {
                Some(existing) => Ok(
                    (
                        self.with_request_state(id, "succeeded"@, Some(response_json), now),
                        RequestRecordView {
                            state: "succeeded"@,
                            response_json: Some(response_json),
                            updated_at: now,
                            ..existing
                        },
                    ),
                ),
                None => Err(
                    InventoryErrorView::InvalidData("completed request did not return a row"@),
                ),
            }
        }
    }

    /// A request failed, and may be begun again.
    pub open spec fn fail_request(self, id: Seq<char>, now: i64) -> Result<
        InventoryView,
        InventoryErrorView,
    > {
        if text_fault(id) is Some {
            Err(text_fault(id)->0)
        } else {
            Ok(self.with_request_state(id, "failed"@, None, now))
        }
    }
}

impl Inventory {
    fn find_request(&self, id: &str) -> (found: Option<usize>)
        ensures
            match found {
                Some(i) => i < self.requests@.len() && self@.request(id@) == Some(
                    self.requests@[i as int]@,
                ),
                None => self@.request(id@) is None,
            },
    {
        let test = |row: &RequestRecord| -> (answer: bool)
            ensures
                answer == (row@.id == id@),
            {
                same_text(&row.id, id)
            };
        find_row(&self.requests, test, Ghost(|row: RequestRecordView| row.id == id@))
    }

    fn set_request_state(&mut self, id: &str, state: &str, response_json: Option<&str>, now: i64)
        ensures
            final(self)@ == old(self)@.with_request_state(
                id@,
                state@,
                slice_view(response_json),
                now,
            ),
    {
        let ghost response = slice_view(response_json);
        let ghost changed = |row: RequestRecordView|
            if row.id == id@ {
                RequestRecordView {
                    state: state@,
                    response_json: response,
                    updated_at: now,
                    ..row
                }
            } else {
                row
            };
        let change = |row: &RequestRecord| -> (after: RequestRecord)
            ensures
                after@ == changed(row@),
            {
                let mut after = row.clone();
                if same_text(&row.id, id) {
                    after.state = state.to_owned();
                    after.response_json = own_option(response_json);
                    after.updated_at = now;
                }
                after
            };
        let requests = map_rows(&self.requests, change, Ghost(changed));
        self.requests = requests;
    }

    /// The request with that identifier.
    pub fn request_by_id(&self, id: &str) -> (result: Result<Option<RequestRecord>, InventoryError>)
        ensures
            match result {
                Ok(found) => text_fault(id@) is None && option_view(found) == self@.request(id@),
                Err(error) => text_fault(id@) == Some(error@),
            },
    {
        if let Some(fault) = check_text(id) {
            return Err(fault);
        }
        match self.find_request(id) {
            Some(i) => Ok(Some(self.requests[i].clone())),
            None => Ok(None),
        }
    }

    /// Begins a request.
    pub fn begin_request(&mut self, id: &str, operation: &str, now: i64) -> (result: Result<
        RequestRecord,
        InventoryError,
    >)
        ensures
            match (result, old(self)@.begin_request(id@, operation@, now)) {
                (Ok(record), Ok((inventory, row))) => record@ == row && final(self)@ == inventory,
                (Err(error), Err(expected)) => error@ == expected && final(self)@ == old(self)@,
                _ => false,
            },
    {
        if is_blank(id) || is_blank(operation) {
            return Err(
                InventoryError::InvalidData("request id and operation cannot be empty".to_owned()),
            );
        }
        if let Some(fault) = check_text(id) {
            return Err(fault);
        }
        match self.find_request(id) {
            Some(i) => {
                let existing = self.requests[i].clone();
                if !same_text(&existing.operation, operation) {
                    let key = debug_string(id);
                    let used = debug_string(&existing.operation);
                    let mut message = concat("request id ", &key);
                    message.append(" was already used for operation ");
                    message.append(&used);
                    return Err(InventoryError::Conflict(message));
                }
                if same_text(&existing.state, "succeeded") {
                    return Ok(existing);
                }
                self.set_request_state(id, "started", None, now);
                let mut record = existing;
                record.state = "started".to_owned();
                record.response_json = None;
                record.updated_at = now;
                Ok(record)
            },
            None => {
                if let Some(fault) = check_text(operation) {
                    return Err(fault);
                }
                let record = RequestRecord {
                    id: id.to_owned(),
                    operation: operation.to_owned(),
                    state: "started".to_owned(),
                    response_json: None,
                    created_at: now,
                    updated_at: now,
                };
                let row = record.clone();
                proof {
                    lemma_views_push(self.requests@, row);
                }
                self.requests.push(row);
                Ok(record)
            },
        }
    }

    /// Answers a request.
    pub fn complete_request(&mut self, id: &str, response_json: &str, now: i64) -> (result: Result<
        RequestRecord,
        InventoryError,
    >)
        ensures
            match (result, old(self)@.complete_request(id@, response_json@, now)) {
                (Ok(record), Ok((inventory, row))) => record@ == row && final(self)@ == inventory,
                (Err(error), Err(expected)) => error@ == expected && final(self)@ == old(self)@,
                _ => false,
            },
    {
        if let Some(fault) = check_text(response_json) {
            return Err(fault);
        }
        if let Some(fault) = check_text(id) {
            return Err(fault);
        }
        match self.find_request(id) {
            Some(i) => {
                let mut record = self.requests[i].clone();
                self.set_request_state(id, "succeeded", Some(response_json), now);
                record.state = "succeeded".to_owned();
                record.response_json = Some(response_json.to_owned());
                record.updated_at = now;
                Ok(record)
            },
            None => Err(
                InventoryError::InvalidData("completed request did not return a row".to_owned()),
            ),
        }
    }

    /// Notes that a request failed.
    pub fn fail_request(&mut self, id: &str, now: i64) -> (result: Result<(), InventoryError>)
        ensures
            match (result, old(self)@.fail_request(id@, now)) {
                (Ok(()), Ok(inventory)) => final(self)@ == inventory,
                (Err(error), Err(expected)) => error@ == expected && final(self)@ == old(self)@,
                _ => false,
            },
    {
        if let Some(fault) = check_text(id) {
            return Err(fault);
        }
        self.set_request_state(id, "failed", None, now);
        Ok(())
    }
}

} // verus!
