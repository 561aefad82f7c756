//! The messages between a client and the daemon: JSON objects, one on a line.

use crate::daemon::error::DaemonError;
use crate::daemon::error::DaemonErrorView;
use crate::daemon::error::protocol;
use crate::daemon::error::protocol_error;
use crate::inventory::records::InventoryError;
use crate::inventory::records::InventoryErrorView;
use crate::inventory::state::Inventory;
use crate::json::inside::keyed_texts;
use crate::json::inside::keyed_values;
use crate::json::inside::lemma_object_reads_as;
use crate::json::inside::lemma_printed_reads_as;
use crate::json::inside::reads_as;
use crate::json::inside::within_depth;
use crate::json::laws::readable;
use crate::json::parser::parse;
use crate::json::parser::parse_text;
use crate::json::parser::ParseErrorView;
use crate::json::value::Json;
use crate::json::value::Value;
use crate::json::value::first_field;
use crate::json::value::lemma_field_views;
use crate::json::value::optional_integer;
use crate::json::value::optional_text;
use crate::json::value::required_text;
use crate::json::writer::Object;
use crate::json::writer::field_text;
use crate::json::writer::field_texts;
use crate::json::writer::json_text;
use crate::json::writer::lemma_field_texts;
use crate::json::writer::object_text;
use crate::json::writer::quoted;
use crate::json::writer::slice_view;
use crate::json::writer::string;
use crate::json::writer::text_or_null;
use crate::service::error::ServiceError;
use crate::service::error::ServiceErrorView;
use crate::service::error::invalid_request;
use crate::text::byte_length;
use crate::text::option_view;
use crate::text::same_text;
use crate::text::trim_text;
use crate::text::trims_to_nothing;
use vstd::prelude::*;

verus! {

/// The version of the protocol.
pub const PROTOCOL_VERSION: i64 = 1;

/// How many bytes a line may hold.
pub const MAX_REQUEST_BYTES: usize = 1048576;

// ---------------------------------------------------------------------------
// Responses
// ---------------------------------------------------------------------------

/// The response to a request that succeeded, around a printed result.
pub open spec fn success_text(request_id: Seq<char>, result: Seq<char>) -> Seq<char> {
    object_text(
        seq![
            field_text(("schema_version"@, Json::Number(1))),
            field_text(("request_id"@, Json::Str(request_id))),
            field_text(("ok"@, Json::Bool(true))),
            quoted("result"@) + ":"@ + result,
        ],
    )
}

/// The response to a request that succeeded.
pub open spec fn success_json(request_id: Seq<char>, result: Json) -> Json {
    Json::Object(
        seq![
            ("schema_version"@, Json::Number(1)),
            ("request_id"@, Json::Str(request_id)),
            ("ok"@, Json::Bool(true)),
            ("result"@, result),
        ],
    )
}

/// Prints the response to a request that succeeded.
pub fn success_response(request_id: &str, result: &str) -> (text: String)
    ensures
        text@ == success_text(request_id@, result@),
{
    let object = Object::new().number("schema_version", 1).string("request_id", request_id).bool(
        "ok",
        true,
    ).raw("result", result.to_owned());
    assert(object@ =~= seq![
        field_text(("schema_version"@, Json::Number(1))),
        field_text(("request_id"@, Json::Str(request_id@))),
        field_text(("ok"@, Json::Bool(true))),
        quoted("result"@) + ":"@ + result@,
    ]);
    object.finish()
}

/// What went wrong, as JSON.
pub open spec fn fault_json(code: Seq<char>, message: Seq<char>) -> Json {
    Json::Object(seq![("code"@, Json::Str(code)), ("message"@, Json::Str(message))])
}

/// The response to a request that failed.
pub open spec fn error_json(
    request_id: Option<Seq<char>>,
    code: Seq<char>,
    message: Seq<char>,
) -> Json {
    Json::Object(
        seq![
            ("schema_version"@, Json::Number(1)),
            ("request_id"@, text_or_null(request_id)),
            ("ok"@, Json::Bool(false)),
            ("error"@, fault_json(code, message)),
        ],
    )
}

fn print_fault(code: &str, message: &str) -> (text: String)
    ensures
        text@ == json_text(fault_json(code@, message@)),
{
    let object = Object::new().string("code", code).string("message", message);
    proof {
        let fields = fault_json(code@, message@)->Object_0;
        lemma_field_texts(fields);
        assert(object@ =~= field_texts(fields));
    }
    object.finish()
}

/// Prints the response to a request that failed.
pub fn error_response(request_id: Option<&str>, code: &str, message: &str) -> (text: String)
    ensures
        text@ == json_text(error_json(slice_view(request_id), code@, message@)),
{
    let object = Object::new().number("schema_version", 1).optional_string(
        "request_id",
        request_id,
    ).bool("ok", false).raw("error", print_fault(code, message));
    proof {
        let fields = error_json(slice_view(request_id), code@, message@)->Object_0;
        lemma_field_texts(fields);
        assert(object@ =~= field_texts(fields));
    }
    object.finish()
}

/// The word by which a client tells errors apart.
pub open spec fn error_code(error: DaemonErrorView) -> Seq<char> {
    match error {
        DaemonErrorView::Service(ServiceErrorView::UnsafeRemoval { .. }) => "unsafe_removal"@,
        DaemonErrorView::Service(ServiceErrorView::NotFound(_)) => "not_found"@,
        DaemonErrorView::Service(ServiceErrorView::InvalidRequest(_)) => "invalid_request"@,
        DaemonErrorView::Service(
            ServiceErrorView::Inventory(InventoryErrorView::Conflict(_)),
        ) => "conflict"@,
        DaemonErrorView::Protocol(_) => "invalid_request"@,
        DaemonErrorView::Git(_) => "git_error"@,
        DaemonErrorView::Service(_) => "service_error"@,
        _ => "daemon_error"@,
    }
}

/// The word by which a client tells errors apart.
pub fn service_error_code(error: &DaemonError) -> (code: &'static str)
    ensures
        code@ == error_code(error@),
{
    match error {
        DaemonError::Service(ServiceError::UnsafeRemoval { .. }) => "unsafe_removal",
        DaemonError::Service(ServiceError::NotFound(_)) => "not_found",
        DaemonError::Service(ServiceError::InvalidRequest(_)) => "invalid_request",
        DaemonError::Service(ServiceError::Inventory(InventoryError::Conflict(_))) => "conflict",
        DaemonError::Protocol(_) => "invalid_request",
        DaemonError::Git(_) => "git_error",
        DaemonError::Service(_) => "service_error",
        _ => "daemon_error",
    }
}

/// The response that tells of an error.
pub open spec fn failure_json(request_id: Option<Seq<char>>, error: DaemonErrorView) -> Json {
    error_json(request_id, error_code(error), error.text())
}

/// Prints the response that tells of an error.
pub fn failure_response(request_id: Option<&str>, error: &DaemonError) -> (text: String)
    ensures
        text@ == json_text(failure_json(slice_view(request_id), error@)),
{
    let message = error.to_text();
    error_response(request_id, service_error_code(error), &message)
}

/// Whether a message is too long for a line.
pub open spec fn too_long(message: Seq<char>) -> bool {
    byte_length(message) > MAX_REQUEST_BYTES
}

/// Whether a message fits on a line.
pub fn response_fits(message: &str) -> (fits: bool)
    ensures
        fits == !too_long(message@),
{
    message.as_bytes().len() <= MAX_REQUEST_BYTES
}

/// Refuses to write a message that is too long.
pub fn check_response(message: &str) -> (result: Result<(), DaemonError>)
    ensures
        match result {
            Ok(()) => !too_long(message@),
            Err(error) => too_long(message@) && error@ == protocol(
                "daemon response exceeds 1 MiB"@,
            ),
        },
{
    if response_fits(message) {
        Ok(())
    } else {
        Err(protocol_error("daemon response exceeds 1 MiB"))
    }
}

// ---------------------------------------------------------------------------
// Requests
// ---------------------------------------------------------------------------

/// A request that is addressed properly.
#[derive(Debug, PartialEq)]
pub struct Call {
    pub request_id: String,
    pub method: String,
    pub params: Value,
}

/// The view of a [`Call`].
#[verifier::ext_equal]
pub struct CallView {
    pub request_id: Seq<char>,
    pub method: Seq<char>,
    pub params: Json,
}

impl View for Call {
    type V = CallView;

    open spec fn view(&self) -> CallView {
        CallView {
            request_id: self.request_id@,
            method: self.method@,
            params: self.params@,
        }
    }
}

/// What a line that a client sent comes to: an answer at once, or a call.
#[derive(Debug, PartialEq)]
pub enum Incoming {
    Answer(String),
    Call(Call),
}

/// The view of an [`Incoming`].
#[verifier::ext_equal]
pub enum IncomingView {
    Answer(Seq<char>),
    Call(CallView),
}

impl View for Incoming {
    type V = IncomingView;

    open spec fn view(&self) -> IncomingView {
        match self {
            Incoming::Answer(text) => IncomingView::Answer(text@),
            Incoming::Call(call) => IncomingView::Call(call@),
        }
    }
}

/// The parameters of a request: none, where the field is missing.
pub open spec fn params_of(value: Json) -> Json {
    match value.field("params"@) {
        Some(params) => params,
        None => Json::Object(seq![]),
    }
}

/// The call that a request with that identifier and version makes.
pub open spec fn call_of(request_id: Seq<char>, value: Json) -> Result<IncomingView, Seq<char>> {
    match required_text(value, "method"@) {
        Err(message) => Err(message),
        Ok(method) => if params_of(value) !is Object {
            Err("JSON request must be an object"@)
        } else {
            Ok(
                IncomingView::Call(CallView { request_id, method, params: params_of(value) }),
            )
        },
    }
}

/// What a line that a client sent comes to, or how it breaches the protocol.
pub open spec fn incoming(line: Seq<char>) -> Result<IncomingView, Seq<char>> {
    match parse_text(line) {
        Err(error) => Err(error.text()),
        Ok(value) => match optional_text(value, "request_id"@) {
            Err(message) => Err(message),
            Ok(request_id) => if request_id is None || trim_text(request_id->0).len() == 0 {
                Ok(
                    IncomingView::Answer(
                        json_text(
                            error_json(None, "invalid_request"@, "request_id is required"@),
                        ),
                    ),
                )
            } else {
                match optional_integer(value, "schema_version"@) {
                    Err(message) => Err(message),
                    Ok(version) => if version is Some && version->0 != PROTOCOL_VERSION {
                        Ok(
                            IncomingView::Answer(
                                json_text(
                                    error_json(
                                        request_id,
                                        "unsupported_schema"@,
                                        "unsupported daemon protocol schema version"@,
                                    ),
                                ),
                            ),
                        )
                    } else {
                        call_of(request_id->0, value)
                    },
                }
            },
        },
    }
}

fn read_call(request_id: &str, value: &Value) -> (result: Result<Incoming, DaemonError>)
    ensures
        match (result, call_of(request_id@, value@)) {
            (Ok(found), Ok(expected)) => found@ == expected,
            (Err(error), Err(message)) => error@ == protocol(message),
            _ => false,
        },
{
    broadcast use lemma_field_views;

    let method = match value.required_string("method") {
        Ok(method) => method,
        Err(message) => return Err(DaemonError::Protocol(message)),
    };
    let params = match value.object_field("params") {
        Some(params) => params.clone(),
        None => {
            let none = Value::Object(Vec::new());
            assert(none@->Object_0 =~= seq![]);
            none
        },
    };
    if let Err(message) = params.as_object() {
        return Err(DaemonError::Protocol(message));
    }
    Ok(
        Incoming::Call(
            Call { request_id: request_id.to_owned(), method: method.to_owned(), params },
        ),
    )
}

/// Reads a line that a client sent.
pub fn handle_line(line: &str) -> (result: Result<Incoming, DaemonError>)
    ensures
        match (result, incoming(line@)) {
            (Ok(found), Ok(expected)) => found@ == expected,
            (Err(error), Err(message)) => error@ == protocol(message),
            _ => false,
        },
{
    let value = match parse(line) {
        Ok(value) => value,
        Err(error) => return Err(DaemonError::Protocol(error.to_text())),
    };
    let request_id = match value.optional_string("request_id") {
        Ok(request_id) => request_id,
        Err(message) => return Err(DaemonError::Protocol(message)),
    };
    let request_id = match request_id {
        Some(text) => text,
        None => {
            return Ok(
                Incoming::Answer(
                    error_response(None, "invalid_request", "request_id is required"),
                ),
            );
        },
    };
    if trims_to_nothing(request_id) {
        return Ok(
            Incoming::Answer(error_response(None, "invalid_request", "request_id is required")),
        );
    }
    match value.optional_i64("schema_version") {
        Err(message) => return Err(DaemonError::Protocol(message)),
        Ok(Some(version)) => {
            if version != PROTOCOL_VERSION {
                return Ok(
                    Incoming::Answer(
                        error_response(
                            Some(request_id),
                            "unsupported_schema",
                            "unsupported daemon protocol schema version",
                        ),
                    ),
                );
            }
        },
        Ok(None) => {},
    }
    read_call(request_id, &value)
}

/// The identifier that a line bears, as far as it can be read.
pub open spec fn line_id(line: Seq<char>) -> Option<Seq<char>> {
    match parse_text(line) {
        Err(_) => None,
        Ok(value) => match optional_text(value, "request_id"@) {
            Err(_) => None,
            Ok(request_id) => request_id,
        },
    }
}

/// Prints the response to a line that breaches the protocol.
pub fn rejection(line: &str, message: &str) -> (text: String)
    ensures
        text@ == json_text(error_json(line_id(line@), "invalid_request"@, message@)),
{
    match parse(line) {
        Err(_) => error_response(None, "invalid_request", message),
        Ok(value) => match value.optional_string("request_id") {
            Err(_) => error_response(None, "invalid_request", message),
            Ok(request_id) => error_response(request_id, "invalid_request", message),
        },
    }
}

// ---------------------------------------------------------------------------
// Responses, as a client reads them
// ---------------------------------------------------------------------------

/// What a response with a proper head says: nothing where it tells of success.
pub open spec fn verdict_fault(value: Json) -> Option<DaemonErrorView> {
    match value.field("ok"@) {
        Some(Json::Bool(true)) => None,
        Some(Json::Bool(false)) => match value.field("error"@) {
            None => Some(protocol("error response has no error field"@)),
            Some(error) => match required_text(error, "code"@) {
                Err(message) => Some(protocol(message)),
                Ok(code) => match required_text(error, "message"@) {
                    Err(message) => Some(protocol(message)),
                    Ok(message) => Some(DaemonErrorView::Remote { code, message }),
                },
            },
        },
        _ => Some(protocol("daemon response has no boolean ok field"@)),
    }
}

/// What is wrong with a response that is read as a value, if anything is.
pub open spec fn head_fault(value: Json, request_id: Seq<char>) -> Option<DaemonErrorView> {
    match optional_integer(value, "schema_version"@) {
        Err(message) => Some(protocol(message)),
        Ok(None) => Some(protocol("daemon response has no schema_version"@)),
        Ok(Some(version)) => if version != PROTOCOL_VERSION {
            Some(protocol("daemon response schema_version does not match client"@))
        } else {
            match optional_text(value, "request_id"@) {
                Err(message) => Some(protocol(message)),
                Ok(None) => Some(protocol("daemon response has no request_id"@)),
                Ok(Some(found)) => if found != request_id {
                    Some(protocol("daemon response request_id does not match request"@))
                } else {
                    verdict_fault(value)
                },
            }
        },
    }
}

/// What is wrong with a response to a request, if anything is.
pub open spec fn response_fault(response: Seq<char>, request_id: Seq<char>) -> Option<
    DaemonErrorView,
> {
    match parse_text(response) {
        Err(error) => Some(protocol(error.text())),
        Ok(value) => head_fault(value, request_id),
    }
}

fn check_verdict(value: &Value) -> (fault: Option<DaemonError>)
    ensures
        option_view(fault) == verdict_fault(value@),
{
    match value.object_field("ok") {
        Some(Value::Bool(ok)) => {
            if *ok {
                return None;
            }
            let error = match value.object_field("error") {
                Some(error) => error,
                None => return Some(protocol_error("error response has no error field")),
            };
            let code = match error.required_string("code") {
                Ok(code) => code,
                Err(message) => return Some(DaemonError::Protocol(message)),
            };
            match error.required_string("message") {
                Ok(message) => Some(
                    DaemonError::Remote { code: code.to_owned(), message: message.to_owned() },
                ),
                Err(message) => Some(DaemonError::Protocol(message)),
            }
        },
        _ => Some(protocol_error("daemon response has no boolean ok field")),
    }
}

/// Lets a response pass that answers a request with success.
pub fn interpret_response(response: String, expected_request_id: &str) -> (result: Result<
    String,
    DaemonError,
>)
    ensures
        match result {
            Ok(passed) => passed@ == response@ && response_fault(response@, expected_request_id@)
                is None,
            Err(error) => response_fault(response@, expected_request_id@) == Some(error@),
        },
{
    let value = match parse(&response) {
        Ok(value) => value,
        Err(error) => return Err(DaemonError::Protocol(error.to_text())),
    };
    match value.optional_i64("schema_version") {
        Err(message) => return Err(DaemonError::Protocol(message)),
        Ok(None) => return Err(protocol_error("daemon response has no schema_version")),
        Ok(Some(version)) => {
            if version != PROTOCOL_VERSION {
                return Err(
                    protocol_error("daemon response schema_version does not match client"),
                );
            }
        },
    }
    match value.optional_string("request_id") {
        Err(message) => return Err(DaemonError::Protocol(message)),
        Ok(None) => return Err(protocol_error("daemon response has no request_id")),
        Ok(Some(found)) => {
            if !same_text(found, expected_request_id) {
                return Err(protocol_error("daemon response request_id does not match request"));
            }
        },
    }
    match check_verdict(&value) {
        Some(error) => Err(error),
        None => Ok(response),
    }
}

/// Whether another attempt may succeed where one failed with that error.
pub open spec fn retryable(error: DaemonErrorView) -> bool {
    match error {
        DaemonErrorView::Io { .. } => true,
        DaemonErrorView::Protocol(_) => true,
        DaemonErrorView::Remote { code, .. } => code == "inventory_replaced"@,
        _ => false,
    }
}

/// Whether another attempt may succeed where one failed with that error.
pub fn is_retryable(error: &DaemonError) -> (result: bool)
    ensures
        result == retryable(error@),
{
    match error {
        DaemonError::Io { .. } => true,
        DaemonError::Protocol(_) => true,
        DaemonError::Remote { code, .. } => same_text(code, "inventory_replaced"),
        _ => false,
    }
}

// ---------------------------------------------------------------------------
// Laws
// ---------------------------------------------------------------------------

proof fn lemma_keys()
    ensures
        "schema_version"@ != "request_id"@,
        "schema_version"@ != "ok"@,
        "schema_version"@ != "result"@,
        "schema_version"@ != "error"@,
        "request_id"@ != "ok"@,
        "request_id"@ != "result"@,
        "request_id"@ != "error"@,
        "ok"@ != "result"@,
        "ok"@ != "error"@,
        "code"@ != "message"@,
{
    reveal_strlit("schema_version");
    reveal_strlit("request_id");
    reveal_strlit("ok");
    reveal_strlit("result");
    reveal_strlit("error");
    reveal_strlit("code");
    reveal_strlit("message");
    assert("schema_version"@.len() == 14);
    assert("request_id"@.len() == 10);
    assert("ok"@.len() == 2);
    assert("result"@.len() == 6);
    assert("error"@.len() == 5);
    assert("code"@.len() == 4);
    assert("message"@.len() == 7);
}

proof fn lemma_head(response: Seq<char>, value: Json, request_id: Seq<char>)
    requires
        reads_as(response, value),
    ensures
        parse_text(response) == Ok::<Json, ParseErrorView>(value),
        response_fault(response, request_id) == head_fault(value, request_id),
{
    reveal(reads_as);
}

proof fn lemma_success_is_read(request_id: Seq<char>, result: Seq<char>, value: Json)
    requires
        reads_as(result, value),
        within_depth(value, 1),
    ensures
        reads_as(success_text(request_id, result), success_json(request_id, value)),
{
    let keys = seq!["schema_version"@, "request_id"@, "ok"@, "result"@];
    let number = Json::Number(1);
    let id = Json::Str(request_id);
    let ok = Json::Bool(true);
    let texts = seq![json_text(number), json_text(id), json_text(ok), result];
    let values = seq![number, id, ok, value];
    lemma_printed_reads_as(number);
    lemma_printed_reads_as(id);
    lemma_printed_reads_as(ok);
    lemma_object_reads_as(keys, texts, values);
    assert(keyed_texts(keys, texts) =~= seq![
        field_text(("schema_version"@, number)),
        field_text(("request_id"@, id)),
        field_text(("ok"@, ok)),
        quoted("result"@) + ":"@ + result,
    ]);
    assert(keyed_values(keys, values) =~= success_json(request_id, value)->Object_0);
}

/// What the daemon answers to a request that succeeded, with whatever text for its
/// result that is read as a value, the client takes for success, and finds the
/// value in it.
pub proof fn success_is_understood(request_id: Seq<char>, result: Seq<char>, value: Json)
    requires
        parse_text(result) == Ok::<Json, ParseErrorView>(value),
        within_depth(value, 1),
    ensures
        response_fault(success_text(request_id, result), request_id) is None,
        parse_text(success_text(request_id, result)) == Ok::<Json, ParseErrorView>(
            success_json(request_id, value),
        ),
        success_json(request_id, value).field("result"@) == Some(value),
{
    assert(reads_as(result, value)) by {
        reveal(reads_as);
    }
    lemma_success_is_read(request_id, result, value);
    lemma_head(success_text(request_id, result), success_json(request_id, value), request_id);
    lemma_keys();
    lemma_four_fields(success_json(request_id, value)->Object_0);
}

/// What the daemon answers to a request that failed, the client takes for that
/// failure.
pub proof fn failure_is_understood(
    request_id: Seq<char>,
    code: Seq<char>,
    message: Seq<char>,
)
    ensures
        response_fault(
            json_text(error_json(Some(request_id), code, message)),
            request_id,
        ) == Some(DaemonErrorView::Remote { code, message }),
{
    let value = error_json(Some(request_id), code, message);
    lemma_failure_is_read(Some(request_id), code, message);
    lemma_head(json_text(value), value, request_id);
    lemma_keys();
    lemma_four_fields(value->Object_0);
    lemma_two_fields(fault_json(code, message)->Object_0);
}

proof fn lemma_failure_is_read(
    request_id: Option<Seq<char>>,
    code: Seq<char>,
    message: Seq<char>,
)
    ensures
        reads_as(
            json_text(error_json(request_id, code, message)),
            error_json(request_id, code, message),
        ),
{
    let value = error_json(request_id, code, message);
    let fields = value->Object_0;
    let fault = fault_json(code, message);
    let inner = fault->Object_0;
    assert(readable(fault, 1)) by {
        assert forall|i: int| 0 <= i < inner.len() implies readable((#[trigger] inner[i]).1, 2) by {
        }
    }
    assert(readable(value, 0)) by {
        assert forall|i: int| 0 <= i < fields.len() implies readable((#[trigger] fields[i]).1, 1) by {
        }
    }
    lemma_printed_reads_as(value);
}

/// What the daemon answers to another request, whether that succeeded or failed, the
/// client takes for a breach of the protocol, and so an answer to no request.
pub proof fn answer_to_another_is_refused(
    request_id: Seq<char>,
    other: Seq<char>,
    result: Seq<char>,
    value: Json,
    code: Seq<char>,
    message: Seq<char>,
)
    requires
        other != request_id,
        parse_text(result) == Ok::<Json, ParseErrorView>(value),
        within_depth(value, 1),
    ensures
        response_fault(success_text(request_id, result), other) == Some(
            protocol("daemon response request_id does not match request"@),
        ),
        response_fault(json_text(error_json(Some(request_id), code, message)), other) == Some(
            protocol("daemon response request_id does not match request"@),
        ),
        response_fault(json_text(error_json(None, code, message)), request_id) == Some(
            protocol("daemon response has no request_id"@),
        ),
{
    let success = success_json(request_id, value);
    let failure = error_json(Some(request_id), code, message);
    let nameless = error_json(None, code, message);
    assert(reads_as(result, value)) by {
        reveal(reads_as);
    }
    lemma_success_is_read(request_id, result, value);
    lemma_failure_is_read(Some(request_id), code, message);
    lemma_failure_is_read(None, code, message);
    lemma_head(success_text(request_id, result), success, other);
    lemma_head(json_text(failure), failure, other);
    lemma_head(json_text(nameless), nameless, request_id);
    lemma_keys();
    lemma_four_fields(success->Object_0);
    lemma_four_fields(failure->Object_0);
    lemma_four_fields(nameless->Object_0);
}

proof fn lemma_four_fields(fields: Seq<(Seq<char>, Json)>)
    requires
        fields.len() == 4,
    ensures
        forall|key: Seq<char>| #[trigger]
            first_field(fields, key) == (if fields[0].0 == key {
                Some(fields[0].1)
            } else if fields[1].0 == key {
                Some(fields[1].1)
            } else if fields[2].0 == key {
                Some(fields[2].1)
            } else if fields[3].0 == key {
                Some(fields[3].1)
            } else {
                None
            }),
{
    reveal_with_fuel(first_field, 5);
}

proof fn lemma_two_fields(fields: Seq<(Seq<char>, Json)>)
    requires
        fields.len() == 2,
    ensures
        forall|key: Seq<char>| #[trigger]
            first_field(fields, key) == (if fields[0].0 == key {
                Some(fields[0].1)
            } else if fields[1].0 == key {
                Some(fields[1].1)
            } else {
                None
            }),
{
    reveal_with_fuel(first_field, 3);
}

} // verus!
