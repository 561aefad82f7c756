//! Answering a request that was made before as it was answered then.

use crate::daemon::error::DaemonError;
use crate::daemon::error::DaemonErrorView;
use crate::daemon::error::protocol;
use crate::daemon::error::protocol_error;
use crate::daemon::fingerprint::operation_name;
use crate::daemon::protocol::error_code;
use crate::daemon::protocol::error_json;
use crate::daemon::protocol::error_response;
use crate::daemon::protocol::failure_is_understood;
use crate::daemon::protocol::incoming;
use crate::daemon::protocol::response_fault;
use crate::daemon::protocol::response_fits;
use crate::daemon::protocol::service_error_code;
use crate::daemon::protocol::success_is_understood;
use crate::daemon::protocol::success_response;
use crate::daemon::protocol::success_text;
use crate::daemon::protocol::too_long;
use crate::daemon::protocol::CallView;
use crate::daemon::protocol::IncomingView;
use crate::inventory::promises::lemma_first_match_map;
use crate::inventory::promises::lemma_first_match_push;
use crate::inventory::promises::lemma_request_after;
use crate::inventory::promises::unanswered_request_is_begun_again;
use crate::inventory::records::InventoryError;
use crate::inventory::records::InventoryErrorView;
use crate::inventory::records::RequestRecordView;
use crate::inventory::records::text_fault;
use crate::inventory::state::Inventory;
use crate::inventory::state::InventoryView;
use crate::inventory::table::first_match;
use crate::inventory::table::lemma_first_match;
use crate::json::inside::within_depth;
use crate::json::parser::parse_text;
use crate::json::parser::ParseErrorView;
use crate::json::value::Json;
use crate::json::writer::json_text;
use crate::service::error::ServiceError;
use crate::service::error::ServiceErrorView;
use crate::text::debug_text;
use crate::text::option_view;
use crate::text::same_text;
use vstd::prelude::*;

verus! {

/// What a call that goes through the journal comes to: an answer at once, or its
/// execution.
#[derive(Debug, PartialEq, Eq)]
pub enum JournalStep {
    Respond(String),
    Execute,
}

/// The view of a [`JournalStep`].
#[verifier::ext_equal]
pub enum JournalStepView {
    Respond(Seq<char>),
    Execute,
}

impl View for JournalStep {
    type V = JournalStepView;

    open spec fn view(&self) -> JournalStepView {
        match self {
            JournalStep::Respond(text) => JournalStepView::Respond(text@),
            JournalStep::Execute => JournalStepView::Execute,
        }
    }
}

/// The answer to a call when the inventory is no longer the one that was opened.
pub open spec fn replaced_answer(
    request_id: Seq<char>,
    opened: Seq<char>,
    current: Seq<char>,
) -> Option<Seq<char>> {
    if opened == current {
        None
    } else {
        Some(
            json_text(
                error_json(
                    Some(request_id),
                    "inventory_replaced"@,
                    "inventory database changed while daemon was running"@,
                ),
            ),
        )
    }
}

/// Looks whether the inventory is still the one that was opened.
pub fn check_identity(request_id: &str, opened: &str, current: &str) -> (answer: Option<String>)
    ensures
        option_view(answer) == replaced_answer(request_id@, opened@, current@),
{
    if same_text(opened, current) {
        None
    } else {
        Some(
            error_response(
                Some(request_id),
                "inventory_replaced",
                "inventory database changed while daemon was running",
            ),
        )
    }
}

/// A call enters the journal. One that was answered gets its answer again; the
/// identifier of another call is a conflict.
pub open spec fn begin_call(
    inventory: InventoryView,
    request_id: Seq<char>,
    operation: Seq<char>,
    now: i64,
) -> (InventoryView, Result<JournalStepView, DaemonErrorView>) {
    match inventory.begin_request(request_id, operation, now) {
        Ok((after, row)) => if row.state == "succeeded"@ {
            match row.response_json {
                Some(response) => (after, Ok(JournalStepView::Respond(response))),
                None => (after, Err(protocol("succeeded request has no stored response"@))),
            }
        } else {
            (after, Ok(JournalStepView::Execute))
        },
        Err(error) => if error is Conflict {
            (
                inventory,
                Ok(
                    JournalStepView::Respond(
                        json_text(error_json(Some(request_id), "conflict"@, error.text())),
                    ),
                ),
            )
        } else {
            (inventory, Err(DaemonErrorView::Service(ServiceErrorView::Inventory(error))))
        },
    }
}

/// Enters a call into the journal.
pub fn enter_call(inventory: &mut Inventory, request_id: &str, operation: &str, now: i64) -> (
    result: Result<JournalStep, DaemonError>)
    ensures
        ({
            let (after, outcome) = begin_call(
                old(inventory)@,
                request_id@,
                operation@,
                now,
            );
            &&& final(inventory)@ == after
            &&& match (result, outcome) {
                (Ok(step), Ok(expected)) => step@ == expected,
                (Err(error), Err(expected)) => error@ == expected,
                _ => false,
            }
        }),
{
    match inventory.begin_request(request_id, operation, now) {
        Ok(record) => if same_text(&record.state, "succeeded") {
            match record.response_json {
                Some(response) => Ok(JournalStep::Respond(response)),
                None => Err(protocol_error("succeeded request has no stored response")),
            }
        } else {
            Ok(JournalStep::Execute)
        },
        Err(error) => {
            let conflict = match &error {
                InventoryError::Conflict(_) => true,
                _ => false,
            };
            if conflict {
                let message = error.to_text();
                Ok(JournalStep::Respond(error_response(Some(request_id), "conflict", &message)))
            } else {
                Err(DaemonError::Service(ServiceError::Inventory(error)))
            }
        },
    }
}

/// The response to a call that was executed with success: too long a result is
/// replaced by a complaint.
pub open spec fn fitting_response(request_id: Seq<char>, result: Seq<char>) -> Seq<char> {
    if too_long(success_text(request_id, result)) {
        json_text(
            error_json(
                Some(request_id),
                "response_too_large"@,
                "daemon response exceeds 1 MiB; use a narrower request"@,
            ),
        )
    } else {
        success_text(request_id, result)
    }
}

/// A call was executed. Its response is kept, unless it failed: then it may be
/// made again.
pub open spec fn finish_call(
    inventory: InventoryView,
    request_id: Seq<char>,
    outcome: Result<Seq<char>, DaemonErrorView>,
    now: i64,
) -> (InventoryView, Result<Seq<char>, DaemonErrorView>) {
    match outcome {
        Ok(result) => {
            let response = fitting_response(request_id, result);
            match inventory.complete_request(request_id, response, now) {
                Ok((after, _)) => (after, Ok(response)),
                Err(error) => (
                    inventory,
                    Err(DaemonErrorView::Service(ServiceErrorView::Inventory(error))),
                ),
            }
        },
        Err(failure) => match inventory.fail_request(request_id, now) {
            Ok(after) => (
                after,
                Ok(
                    json_text(
                        error_json(Some(request_id), error_code(failure), failure.text()),
                    ),
                ),
            ),
            Err(error) => (
                inventory,
                Err(DaemonErrorView::Service(ServiceErrorView::Inventory(error))),
            ),
        },
    }
}

/// What came of executing a call.
pub open spec fn outcome_view(outcome: Result<String, DaemonError>) -> Result<
    Seq<char>,
    DaemonErrorView,
> {
    match outcome {
        Ok(text) => Ok(text@),
        Err(error) => Err(error@),
    }
}

/// Enters into the journal what came of executing a call, and gives the response.
pub fn close_call(
    inventory: &mut Inventory,
    request_id: &str,
    outcome: Result<String, DaemonError>,
    now: i64,
) -> (result: Result<String, DaemonError>)
    ensures
        ({
            let (after, expected) = finish_call(
                old(inventory)@,
                request_id@,
                outcome_view(outcome),
                now,
            );
            &&& final(inventory)@ == after
            &&& match (result, expected) {
                (Ok(response), Ok(text)) => response@ == text,
                (Err(error), Err(failure)) => error@ == failure,
                _ => false,
            }
        }),
{
    match outcome {
        Ok(text) => {
            let full = success_response(request_id, &text);
            let response = if response_fits(&full) {
                full
            } else {
                error_response(
                    Some(request_id),
                    "response_too_large",
                    "daemon response exceeds 1 MiB; use a narrower request",
                )
            };
            match inventory.complete_request(request_id, &response, now) {
                Ok(_) => Ok(response),
                Err(error) => Err(DaemonError::Service(ServiceError::Inventory(error))),
            }
        },
        Err(failure) => {
            let message = failure.to_text();
            let response = error_response(
                Some(request_id),
                service_error_code(&failure),
                &message,
            );
            match inventory.fail_request(request_id, now) {
                Ok(()) => Ok(response),
                Err(error) => Err(DaemonError::Service(ServiceError::Inventory(error))),
            }
        },
    }
}

// ---------------------------------------------------------------------------
// Laws
// ---------------------------------------------------------------------------

/// Whether two inventories know the same of a request.
pub open spec fn same_request(
    left: InventoryView,
    right: InventoryView,
    request_id: Seq<char>,
) -> bool {
    left.request(request_id) == right.request(request_id)
}

/// Whether a call was answered, with that response.
pub open spec fn is_answered(
    inventory: InventoryView,
    request_id: Seq<char>,
    operation: Seq<char>,
    response: Seq<char>,
) -> bool {
    &&& request_id.len() > 0
    &&& operation.len() > 0
    &&& text_fault(request_id) is None
    &&& match inventory.request(request_id) {
        Some(row) => row.operation == operation && row.state == "succeeded"@ && row.response_json
            == Some(response),
        None => false,
    }
}

proof fn lemma_entered(
    before: InventoryView,
    request_id: Seq<char>,
    operation: Seq<char>,
    now: i64,
)
    requires
        begin_call(before, request_id, operation, now).1 == Ok::<
            JournalStepView,
            DaemonErrorView,
        >(JournalStepView::Execute),
    ensures
        request_id.len() > 0,
        operation.len() > 0,
        text_fault(request_id) is None,
        begin_call(before, request_id, operation, now).0.request(request_id) matches Some(row)
            && row.operation == operation && row.state == "started"@,
{
    let after = begin_call(before, request_id, operation, now).0;
    if before.request(request_id) is Some {
        unanswered_request_is_begun_again(before, request_id, operation, now);
    } else {
        let wanted = |row: RequestRecordView| row.id == request_id;
        assert(after.requests.drop_last() =~= before.requests);
        assert(first_match(after.requests, wanted) == Some(after.requests.last()));
    }
}

/// A call that was entered, and executed with success, is answered, whatever
/// happened to the rest of the inventory meanwhile.
pub proof fn executed_call_is_answered(
    before: InventoryView,
    executed: InventoryView,
    request_id: Seq<char>,
    operation: Seq<char>,
    result: Seq<char>,
    begun_at: i64,
    answered_at: i64,
)
    requires
        begin_call(before, request_id, operation, begun_at).1 == Ok::<
            JournalStepView,
            DaemonErrorView,
        >(JournalStepView::Execute),
        same_request(
            executed,
            begin_call(before, request_id, operation, begun_at).0,
            request_id,
        ),
        finish_call(executed, request_id, Ok(result), answered_at).1 is Ok,
    ensures
        finish_call(executed, request_id, Ok(result), answered_at).1 == Ok::<
            Seq<char>,
            DaemonErrorView,
        >(fitting_response(request_id, result)),
        is_answered(
            finish_call(executed, request_id, Ok(result), answered_at).0,
            request_id,
            operation,
            fitting_response(request_id, result),
        ),
{
    lemma_entered(before, request_id, operation, begun_at);
    lemma_request_after(
        executed,
        request_id,
        "succeeded"@,
        Some(fitting_response(request_id, result)),
        answered_at,
    );
}

/// A call that was answered gets that response whenever it is made again, with
/// nothing executed and nothing changed.
pub proof fn answered_call_is_repeated(
    inventory: InventoryView,
    request_id: Seq<char>,
    operation: Seq<char>,
    response: Seq<char>,
    now: i64,
)
    requires
        is_answered(inventory, request_id, operation, response),
    ensures
        begin_call(inventory, request_id, operation, now) == (
            inventory,
            Ok::<JournalStepView, DaemonErrorView>(JournalStepView::Respond(response)),
        ),
{
}

/// A call whose execution was interrupted, or failed, is executed when it is made
/// again, whatever happened to the rest of the inventory meanwhile.
pub proof fn unanswered_call_is_executed_again(
    before: InventoryView,
    executed: InventoryView,
    later: InventoryView,
    request_id: Seq<char>,
    operation: Seq<char>,
    failure: DaemonErrorView,
    begun_at: i64,
    failed_at: i64,
    repeated_at: i64,
)
    requires
        begin_call(before, request_id, operation, begun_at).1 == Ok::<
            JournalStepView,
            DaemonErrorView,
        >(JournalStepView::Execute),
        same_request(
            executed,
            begin_call(before, request_id, operation, begun_at).0,
            request_id,
        ),
        same_request(later, executed, request_id) || same_request(
            later,
            finish_call(executed, request_id, Err(failure), failed_at).0,
            request_id,
        ),
    ensures
        begin_call(later, request_id, operation, repeated_at).1 == Ok::<
            JournalStepView,
            DaemonErrorView,
        >(JournalStepView::Execute),
{
    lemma_entered(before, request_id, operation, begun_at);
    reveal_strlit("succeeded");
    reveal_strlit("started");
    reveal_strlit("failed");
    assert("succeeded"@.len() == 9);
    assert("started"@.len() == 7);
    assert("failed"@.len() == 6);
    lemma_request_after(executed, request_id, "failed"@, None, failed_at);
    assert(later.request(request_id) is Some);
    unanswered_request_is_begun_again(later, request_id, operation, repeated_at);
}

proof fn lemma_other_state(
    inventory: InventoryView,
    request_id: Seq<char>,
    other: Seq<char>,
    state: Seq<char>,
    response_json: Option<Seq<char>>,
    now: i64,
)
    requires
        other != request_id,
    ensures
        same_request(
            inventory.with_request_state(other, state, response_json, now),
            inventory,
            request_id,
        ),
{
    let wanted = |row: RequestRecordView| row.id == request_id;
    let change = |row: RequestRecordView|
        if row.id == other {
            RequestRecordView { state, response_json, updated_at: now, ..row }
        } else {
            row
        };
    lemma_first_match(inventory.requests, wanted);
    lemma_first_match_map(inventory.requests, wanted, change);
}

/// Calls with other identifiers, entered or executed, with success or not, change
/// nothing of what is known of a request.
pub proof fn other_calls_keep_the_request(
    inventory: InventoryView,
    request_id: Seq<char>,
    other: Seq<char>,
    operation: Seq<char>,
    outcome: Result<Seq<char>, DaemonErrorView>,
    now: i64,
)
    requires
        other != request_id,
    ensures
        same_request(begin_call(inventory, other, operation, now).0, inventory, request_id),
        same_request(finish_call(inventory, other, outcome, now).0, inventory, request_id),
{
    lemma_other_state(inventory, request_id, other, "started"@, None, now);
    lemma_other_state(inventory, request_id, other, "failed"@, None, now);
    if let Ok(result) = outcome {
        let response = fitting_response(other, result);
        lemma_other_state(inventory, request_id, other, "succeeded"@, Some(response), now);
    }
    if let Ok((after, row)) = inventory.begin_request(other, operation, now) {
        if inventory.request(other) is None {
            lemma_first_match_push(
                inventory.requests,
                |one: RequestRecordView| one.id == request_id,
                row,
            );
        }
    }
}

/// A line that makes a call which was answered gets the same response again, with
/// nothing executed and nothing changed. One that makes another call with that
/// identifier gets told of a conflict instead. Calls are the same where their
/// operations have the same name.
pub proof fn repeated_line_is_answered_alike(
    inventory: InventoryView,
    line: Seq<char>,
    call: CallView,
    answered: CallView,
    response: Seq<char>,
    now: i64,
)
    requires
        incoming(line) == Ok::<IncomingView, Seq<char>>(IncomingView::Call(call)),
        call.request_id == answered.request_id,
        is_answered(
            inventory,
            answered.request_id,
            operation_name(answered.method, answered.params),
            response,
        ),
    ensures
        ({
            let (after, step) = begin_call(
                inventory,
                call.request_id,
                operation_name(call.method, call.params),
                now,
            );
            &&& after == inventory
            &&& if operation_name(call.method, call.params) == operation_name(
                answered.method,
                answered.params,
            ) {
                step == Ok::<JournalStepView, DaemonErrorView>(JournalStepView::Respond(response))
            } else {
                step == Ok::<JournalStepView, DaemonErrorView>(
                    JournalStepView::Respond(
                        json_text(
                            error_json(
                                Some(call.request_id),
                                "conflict"@,
                                reused_text(
                                    call.request_id,
                                    operation_name(answered.method, answered.params),
                                ),
                            ),
                        ),
                    ),
                )
            }
        }),
{
    reveal_strlit(":");
    let operation = operation_name(call.method, call.params);
    assert(operation.len() > 0);
}

/// Once a line that makes a call was executed and answered with success, a line that
/// makes the same call gets the identical answer, with nothing executed and nothing
/// changed, and a line that makes another call with its identifier gets told of a
/// conflict: then, and later, as long as what is known of that request stays the same.
pub proof fn line_is_executed_once(
    before: InventoryView,
    executed: InventoryView,
    later: InventoryView,
    line: Seq<char>,
    call: CallView,
    again: Seq<char>,
    repeated: CallView,
    result: Seq<char>,
    begun_at: i64,
    answered_at: i64,
    repeated_at: i64,
)
    requires
        incoming(line) == Ok::<IncomingView, Seq<char>>(IncomingView::Call(call)),
        incoming(again) == Ok::<IncomingView, Seq<char>>(IncomingView::Call(repeated)),
        repeated.request_id == call.request_id,
        ({
            let operation = operation_name(call.method, call.params);
            let entered = begin_call(before, call.request_id, operation, begun_at);
            let answered = finish_call(executed, call.request_id, Ok(result), answered_at);
            &&& entered.1 == Ok::<JournalStepView, DaemonErrorView>(JournalStepView::Execute)
            &&& same_request(executed, entered.0, call.request_id)
            &&& answered.1 is Ok
            &&& same_request(later, answered.0, call.request_id)
        }),
    ensures
        ({
            let operation = operation_name(call.method, call.params);
            let other = operation_name(repeated.method, repeated.params);
            let first = finish_call(executed, call.request_id, Ok(result), answered_at).1->Ok_0;
            begin_call(later, repeated.request_id, other, repeated_at) == (
                later,
                Ok::<JournalStepView, DaemonErrorView>(
                    JournalStepView::Respond(
                        if other == operation {
                            first
                        } else {
                            json_text(
                                error_json(
                                    Some(call.request_id),
                                    "conflict"@,
                                    reused_text(call.request_id, operation),
                                ),
                            )
                        },
                    ),
                ),
            )
        }),
        again == line ==> operation_name(repeated.method, repeated.params) == operation_name(
            call.method,
            call.params,
        ),
{
    executed_call_is_answered(
        before,
        executed,
        call.request_id,
        operation_name(call.method, call.params),
        result,
        begun_at,
        answered_at,
    );
    repeated_line_is_answered_alike(
        later,
        again,
        repeated,
        call,
        fitting_response(call.request_id, result),
        repeated_at,
    );
}

/// The response to a call reaches the client that made it: it tells of success
/// where the call succeeded, unless its result is too long, and of the error where
/// it failed.
pub proof fn response_reaches_its_client(
    inventory: InventoryView,
    request_id: Seq<char>,
    result: Seq<char>,
    value: Json,
    failure: DaemonErrorView,
    now: i64,
)
    requires
        parse_text(result) == Ok::<Json, ParseErrorView>(value),
        within_depth(value, 1),
    ensures
        finish_call(inventory, request_id, Ok(result), now).1 matches Ok(response)
            ==> response_fault(response, request_id) == (if too_long(
            success_text(request_id, result),
        ) {
            Some(
                (DaemonErrorView::Remote {
                    code: "response_too_large"@,
                    message: "daemon response exceeds 1 MiB; use a narrower request"@,
                }),
            )
        } else {
            None
        }),
        finish_call(inventory, request_id, Err(failure), now).1 matches Ok(response)
            ==> response_fault(response, request_id) == Some(
            (DaemonErrorView::Remote { code: error_code(failure), message: failure.text() }),
        ),
{
    success_is_understood(request_id, result, value);
    failure_is_understood(
        request_id,
        "response_too_large"@,
        "daemon response exceeds 1 MiB; use a narrower request"@,
    );
    failure_is_understood(request_id, error_code(failure), failure.text());
}

/// The complaint about an identifier that was used for another operation.
pub open spec fn reused_text(request_id: Seq<char>, used_for: Seq<char>) -> Seq<char> {
    (InventoryErrorView::Conflict(
        "request id "@ + debug_text(request_id) + " was already used for operation "@
            + debug_text(used_for),
    )).text()
}

/// A call cannot take the identifier of another call, whether that was answered or
/// not.
pub proof fn reused_identifier_is_a_conflict(
    inventory: InventoryView,
    request_id: Seq<char>,
    operation: Seq<char>,
    now: i64,
)
    requires
        request_id.len() > 0,
        operation.len() > 0,
        text_fault(request_id) is None,
        inventory.request(request_id) matches Some(row) && row.operation != operation,
    ensures
        begin_call(inventory, request_id, operation, now) == (
            inventory,
            Ok::<JournalStepView, DaemonErrorView>(
                JournalStepView::Respond(
                    json_text(
                        error_json(
                            Some(request_id),
                            "conflict"@,
                            reused_text(request_id, inventory.request(request_id)->0.operation),
                        ),
                    ),
                ),
            ),
        ),
{
}

} // verus!
