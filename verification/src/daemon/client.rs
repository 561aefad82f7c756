//! The client of the daemon.

use crate::daemon::error::DaemonError;
use crate::daemon::error::DaemonErrorView;
use crate::daemon::error::protocol;
use crate::daemon::error::protocol_error;
use crate::daemon::protocol::CallView;
use crate::daemon::protocol::IncomingView;
use crate::daemon::protocol::error_json;
use crate::daemon::protocol::failure_is_understood;
use crate::daemon::protocol::incoming;
use crate::daemon::protocol::interpret_response;
use crate::daemon::protocol::is_retryable;
use crate::daemon::protocol::response_fault;
use crate::daemon::protocol::retryable;
use crate::json::laws::printed_value_reads_back;
use crate::json::laws::readable;
use crate::json::parser::parse;
use crate::json::parser::parse_text;
use crate::json::value::Json;
use crate::json::value::first_field;
use crate::json::writer::Object;
use crate::json::writer::field_text;
use crate::json::writer::field_texts;
use crate::json::writer::json_text;
use crate::json::writer::lemma_field_texts;
use crate::json::writer::object_text;
use crate::json::writer::quoted;
use crate::json::writer::string;
use crate::service::error::invalid;
use crate::text::concat;
use crate::text::trim_text;
use crate::text::trims_to_nothing;
use vstd::prelude::*;

verus! {

/// How often a client tries again, unless told otherwise.
pub const DEFAULT_CLIENT_RETRIES: u32 = 3;

/// How long a client waits before it tries again.
pub const RETRY_DELAY_MILLISECONDS: u64 = 50;

/// A client of the daemon at a socket.
#[derive(Debug, PartialEq, Eq)]
pub struct DaemonClient {
    pub socket_path: String,
    pub retries: u32,
    pub retry_delay_milliseconds: u64,
}

/// The view of a [`DaemonClient`].
#[verifier::ext_equal]
pub struct DaemonClientView {
    pub socket_path: Seq<char>,
    pub retries: u32,
    pub retry_delay_milliseconds: u64,
}

impl View for DaemonClient {
    type V = DaemonClientView;

    open spec fn view(&self) -> DaemonClientView {
        DaemonClientView {
            socket_path: self.socket_path@,
            retries: self.retries,
            retry_delay_milliseconds: self.retry_delay_milliseconds,
        }
    }
}

/// The line that a client sends, or why it sends none.
pub open spec fn request_text(
    request_id: Seq<char>,
    method: Seq<char>,
    params_json: Seq<char>,
) -> Result<Seq<char>, DaemonErrorView> {
    if trim_text(request_id).len() == 0 || trim_text(method).len() == 0 {
        Err(protocol("request id and method cannot be empty"@))
    } else {
        match parse_text(params_json) {
            Err(error) => Err(protocol("invalid params: "@ + error.text())),
            Ok(params) => if params !is Object {
                Err(protocol("JSON request must be an object"@))
            } else {
                Ok(
                    object_text(
                        seq![
                            field_text(("schema_version"@, Json::Number(1))),
                            field_text(("request_id"@, Json::Str(request_id))),
                            field_text(("method"@, Json::Str(method))),
                            quoted("params"@) + ":"@ + params_json,
                        ],
                    ),
                )
            },
        }
    }
}

/// Writes the line that a client sends.
pub fn request_line(request_id: &str, method: &str, params_json: &str) -> (result: Result<
    String,
    DaemonError,
>)
    ensures
        match (result, request_text(request_id@, method@, params_json@)) {
            (Ok(line), Ok(expected)) => line@ == expected,
            (Err(error), Err(expected)) => error@ == expected,
            _ => false,
        },
{
    if trims_to_nothing(request_id) || trims_to_nothing(method) {
        return Err(protocol_error("request id and method cannot be empty"));
    }
    let params = match parse(params_json) {
        Ok(params) => params,
        Err(error) => {
            let text = error.to_text();
            return Err(DaemonError::Protocol(concat("invalid params: ", &text)));
        },
    };
    if let Err(message) = params.as_object() {
        return Err(DaemonError::Protocol(message));
    }
    let object = Object::new().number("schema_version", 1).string("request_id", request_id).string(
        "method",
        method,
    ).raw("params", params_json.to_owned());
    assert(object@ =~= seq![
        field_text(("schema_version"@, Json::Number(1))),
        field_text(("request_id"@, Json::Str(request_id@))),
        field_text(("method"@, Json::Str(method@))),
        quoted("params"@) + ":"@ + params_json@,
    ]);
    Ok(object.finish())
}

/// Why an attempt did not bring an answer that tells of success.
pub open spec fn attempt_fault(
    attempt: Result<String, DaemonError>,
    request_id: Seq<char>,
) -> Option<DaemonErrorView> {
    match attempt {
        Err(error) => Some(error@),
        Ok(response) => response_fault(response@, request_id),
    }
}

/// Whether a client tries again after an attempt: when nothing came back, or
/// something that another attempt may mend.
pub open spec fn tries_again(attempt: Result<String, DaemonError>, request_id: Seq<char>) -> bool {
    match attempt {
        Err(_) => true,
        Ok(response) => match response_fault(response@, request_id) {
            None => false,
            Some(error) => retryable(error),
        },
    }
}

/// Whether attempts go on as long as they have to and no longer.
pub open spec fn persistent(
    attempts: Seq<Result<String, DaemonError>>,
    request_id: Seq<char>,
    retries: u32,
) -> bool {
    &&& 1 <= attempts.len() <= retries + 1
    &&& forall|i: int|
        0 <= i < attempts.len() - 1 ==> tries_again(#[trigger] attempts[i], request_id)
    &&& attempts.len() < retries + 1 ==> !tries_again(attempts.last(), request_id)
}

/// Whether attempts came from sending a line, one after the other.
pub open spec fn came_from<F: Fn(u32, &str) -> Result<String, DaemonError>>(
    send: F,
    line: &str,
    attempts: Seq<Result<String, DaemonError>>,
) -> bool {
    forall|i: int|
        0 <= i < attempts.len() ==> call_ensures(send, (i as u32, line), #[trigger] attempts[i])
}

/// Whether a client that sends with `send` may come to that answer.
pub open spec fn answers<F: Fn(u32, &str) -> Result<String, DaemonError>>(
    client: DaemonClientView,
    request_id: Seq<char>,
    method: Seq<char>,
    params_json: Seq<char>,
    send: F,
    answer: Result<String, DaemonError>,
) -> bool {
    match request_text(request_id, method, params_json) {
        Err(error) => answer matches Err(found) && found@ == error,
        Ok(text) => exists|line: &str, attempts: Seq<Result<String, DaemonError>>|
            {
                &&& line@ == text
                &&& #[trigger] came_from(send, line, attempts)
                &&& persistent(attempts, request_id, client.retries)
                &&& match answer {
                    Ok(response) => attempts.last() matches Ok(last) && last@ == response@
                        && attempt_fault(attempts.last(), request_id) is None,
                    Err(error) => attempt_fault(attempts.last(), request_id) == Some(error@),
                }
            },
    }
}

/// The result in a response that tells of success.
pub open spec fn result_text(response: Seq<char>) -> Result<Seq<char>, DaemonErrorView> {
    match parse_text(response) {
        Err(error) => Err(protocol(error.text())),
        Ok(value) => match value.field("result"@) {
            Some(result) => Ok(json_text(result)),
            None => Err(protocol("daemon response has no result"@)),
        },
    }
}

/// Takes the result out of a response that tells of success.
pub fn extract_result(response: &str) -> (result: Result<String, DaemonError>)
    ensures
        match (result, result_text(response@)) {
            (Ok(text), Ok(expected)) => text@ == expected,
            (Err(error), Err(expected)) => error@ == expected,
            _ => false,
        },
{
    let value = match parse(response) {
        Ok(value) => value,
        Err(error) => return Err(DaemonError::Protocol(error.to_text())),
    };
    match value.object_field("result") {
        Some(result) => Ok(result.to_json()),
        None => Err(protocol_error("daemon response has no result")),
    }
}

impl DaemonClient {
    /// A client of the daemon at a socket.
    pub fn new(socket_path: &str) -> (client: DaemonClient)
        ensures
            client@ == (DaemonClientView {
                socket_path: socket_path@,
                retries: DEFAULT_CLIENT_RETRIES,
                retry_delay_milliseconds: RETRY_DELAY_MILLISECONDS,
            }),
    {
        DaemonClient {
            socket_path: socket_path.to_owned(),
            retries: DEFAULT_CLIENT_RETRIES,
            retry_delay_milliseconds: RETRY_DELAY_MILLISECONDS,
        }
    }

    /// The same client with another number of retries.
    pub fn with_retries(self, retries: u32) -> (client: DaemonClient)
        ensures
            client@ == (DaemonClientView { retries, ..self@ }),
    {
        let mut client = self;
        client.retries = retries;
        client
    }

    /// The socket.
    pub fn socket_path(&self) -> (path: &str)
        ensures
            path@ == self@.socket_path,
    {
        &self.socket_path
    }

    /// Makes a request and gives the response. `send` gets the number of the
    /// attempt and the line; it waits before every attempt but the first.
    pub fn request<F: Fn(u32, &str) -> Result<String, DaemonError>>(
        &self,
        request_id: &str,
        method: &str,
        params_json: &str,
        send: F,
    ) -> (answer: Result<String, DaemonError>)
        requires
            forall|attempt: u32, line: &str| call_requires(send, (attempt, line)),
        ensures
            answers(self@, request_id@, method@, params_json@, send, answer),
    {
        let request = match request_line(request_id, method, params_json) {
            Ok(line) => line,
            Err(error) => return Err(error),
        };
        let line = request.as_str();
        let ghost mut attempts: Seq<Result<String, DaemonError>> = seq![];
        let mut attempt: u32 = 0;
        loop
            invariant
                forall|number: u32, text: &str| call_requires(send, (number, text)),
                request_text(request_id@, method@, params_json@) == Ok::<
                    Seq<char>,
                    DaemonErrorView,
                >(line@),
                attempt <= self.retries,
                attempts.len() == attempt,
                came_from(send, line, attempts),
                forall|i: int|
                    0 <= i < attempts.len() ==> tries_again(#[trigger] attempts[i], request_id@),
            decreases self.retries - attempt,
        {
            let outcome = send(attempt, line);
            proof {
                let before = attempts;
                attempts = attempts.push(outcome);
                assert(attempts.drop_last() =~= before);
                assert forall|i: int| 0 <= i < attempts.len() - 1 implies tries_again(
                    #[trigger] attempts[i],
                    request_id@,
                ) by {
                    assert(before[i] == attempts[i]);
                }
                assert forall|i: int| 0 <= i < attempts.len() implies call_ensures(
                    send,
                    (i as u32, line),
                    #[trigger] attempts[i],
                ) by {
                    if i < before.len() {
                        assert(before[i] == attempts[i]);
                    }
                }
                assert(came_from(send, line, attempts));
                assert(attempts.last() == outcome);
            }
            let failure = match outcome {
                Ok(response) => match interpret_response(response, request_id) {
                    Ok(passed) => return Ok(passed),
                    Err(error) => {
                        if !is_retryable(&error) {
                            return Err(error);
                        }
                        error
                    },
                },
                Err(error) => error,
            };
            if attempt >= self.retries {
                return Err(failure);
            }
            attempt += 1;
        }
    }

    /// Makes a request and gives the result that the response holds.
    pub fn request_result<F: Fn(u32, &str) -> Result<String, DaemonError>>(
        &self,
        request_id: &str,
        method: &str,
        params_json: &str,
        send: F,
    ) -> (result: Result<String, DaemonError>)
        requires
            forall|attempt: u32, line: &str| call_requires(send, (attempt, line)),
        ensures
            exists|answer: Result<String, DaemonError>|
                {
                    &&& #[trigger] answers(
                        self@,
                        request_id@,
                        method@,
                        params_json@,
                        send,
                        answer,
                    )
                    &&& match answer {
                        Err(error) => result matches Err(found) && found@ == error@,
                        Ok(response) => match (result, result_text(response@)) {
                            (Ok(text), Ok(expected)) => text@ == expected,
                            (Err(error), Err(expected)) => error@ == expected,
                            _ => false,
                        },
                    }
                },
    {
        let answer = self.request(request_id, method, params_json, send);
        match answer {
            Ok(response) => extract_result(&response),
            Err(error) => Err(error),
        }
    }
}

/// The line that a client sends is the call that it means: the daemon reads the
/// same identifier, method and parameters from it.
pub proof fn request_is_understood(request_id: Seq<char>, method: Seq<char>, params: Json)
    requires
        trim_text(request_id).len() > 0,
        trim_text(method).len() > 0,
        params is Object,
        readable(params, 1),
    ensures
        request_text(request_id, method, json_text(params)) matches Ok(line) && incoming(line)
            == Ok::<IncomingView, Seq<char>>(
            IncomingView::Call(CallView { request_id, method, params }),
        ),
{
    let fields: Seq<(Seq<char>, Json)> = seq![
        ("schema_version"@, Json::Number(1)),
        ("request_id"@, Json::Str(request_id)),
        ("method"@, Json::Str(method)),
        ("params"@, params),
    ];
    let value = Json::Object(fields);
    lemma_field_texts(fields);
    assert(field_texts(fields) =~= seq![
        field_text(fields[0]),
        field_text(fields[1]),
        field_text(fields[2]),
        field_text(fields[3]),
    ]);
    assert(readable(params, 0)) by {
        lemma_readable_above(params, 1);
    }
    printed_value_reads_back(params);
    assert(readable(value, 0)) by {
        assert forall|i: int| 0 <= i < fields.len() implies readable((#[trigger] fields[i]).1, 1) by {
        }
    }
    printed_value_reads_back(value);
    reveal_strlit("schema_version");
    reveal_strlit("request_id");
    reveal_strlit("method");
    reveal_strlit("params");
    assert("schema_version"@.len() == 14);
    assert("request_id"@.len() == 10);
    assert("method"@.len() == 6);
    assert("params"@.len() == 6);
    assert("method"@[0] == 'm');
    assert("params"@[0] == 'p');
    reveal_with_fuel(first_field, 5);
}

proof fn lemma_readable_above(value: Json, depth: nat)
    requires
        readable(value, depth),
        depth > 0,
    ensures
        readable(value, (depth - 1) as nat),
    decreases value,
{
    match value {
        Json::Array(items) => {
            assert forall|i: int| 0 <= i < items.len() implies readable(
                #[trigger] items[i],
                depth,
            ) by {
                assert(decreases_to!(items => items[i]));
                assert(readable(items[i], depth + 1));
                lemma_readable_above(items[i], depth + 1);
            }
        },
        Json::Object(fields) => {
            assert forall|i: int| 0 <= i < fields.len() implies readable(
                (#[trigger] fields[i]).1,
                depth,
            ) by {
                assert(decreases_to!(fields => fields[i]));
                assert(decreases_to!(fields[i] => fields[i].1));
                assert(readable(fields[i].1, depth + 1));
                lemma_readable_above(fields[i].1, depth + 1);
            }
        },
        _ => {},
    }
}

/// A response by which the daemon tells of an error is final, unless it says that
/// the inventory was replaced: the client does not try again.
pub proof fn remote_errors_are_final(
    attempts: Seq<Result<String, DaemonError>>,
    request_id: Seq<char>,
    retries: u32,
    code: Seq<char>,
    message: Seq<char>,
)
    requires
        persistent(attempts, request_id, retries),
        attempts[0] matches Ok(response) && response@ == json_text(
            error_json(Some(request_id), code, message),
        ),
        code != "inventory_replaced"@,
    ensures
        attempts.len() == 1,
        attempt_fault(attempts.last(), request_id) == Some(
            (DaemonErrorView::Remote { code, message }),
        ),
{
    failure_is_understood(request_id, code, message);
    assert(!tries_again(attempts[0], request_id));
}

} // verus!
