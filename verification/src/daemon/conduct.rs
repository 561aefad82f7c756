//! How the daemon and its clients deal with each other.

use crate::daemon::client::DaemonClient;
use crate::daemon::client::extract_result;
use crate::daemon::client::request_line;
use crate::daemon::config::DaemonConfig;
use crate::daemon::error::DaemonError;
use crate::daemon::error::DaemonErrorView;
use crate::daemon::execute::execute_ping;
use crate::daemon::fingerprint::stable_string_hash;
use crate::daemon::journal::check_identity;
use crate::daemon::lines::LineStep;
use crate::daemon::lines::refusal_of;
use crate::daemon::protocol::check_response;
use crate::daemon::protocol::error_json;
use crate::daemon::protocol::failure_json;
use crate::daemon::protocol::failure_response;
use crate::daemon::protocol::fault_json;
use crate::daemon::protocol::handle_line;
use crate::daemon::protocol::Incoming;
use crate::daemon::protocol::interpret_response;
use crate::daemon::protocol::is_retryable;
use crate::daemon::protocol::response_fits;
use crate::daemon::protocol::service_error_code;
use crate::daemon::replies::ping_json;
use crate::daemon::sockets::check_socket_path;
use crate::daemon::sockets::clean_stale_socket;
use crate::daemon::sockets::connection_count;
use crate::daemon::sockets::FileFacts;
use crate::daemon::sockets::prepare_socket_path;
use crate::daemon::sockets::request_identity_lock_path;
use crate::daemon::sockets::request_lock_directory;
use crate::daemon::sockets::request_path_lock_path;
use crate::daemon::sockets::SocketProbe;
use crate::daemon::sockets::validate_request_lock;
use crate::daemon::sockets::validate_request_lock_directory;
use crate::git::repository::GitRepository;
use crate::inventory::records::InventoryErrorView;
use crate::json::fields::has_fields;
use crate::json::fields::tells;
use crate::json::parser::parse;
use crate::json::parser::ParseError;
use crate::json::value::Json;
use crate::json::value::Value;
use crate::json::writer::json_text;
use crate::json::writer::slice_view;
use crate::numeral::decimal;
use crate::numeral::print_hex_digits;
use crate::service::error::ServiceErrorView;
use crate::service::state::RepositoryService;
use crate::wording::all_space;
use crate::wording::lemma_all_space;
use vstd::prelude::*;
use vstd::utf8::encode_utf8;

verus! {

proof fn lemma_codes()
    ensures
        "unsafe_removal"@ != "not_found"@,
        "unsafe_removal"@ != "invalid_request"@,
        "unsafe_removal"@ != "conflict"@,
        "unsafe_removal"@ != "git_error"@,
        "unsafe_removal"@ != "service_error"@,
        "unsafe_removal"@ != "daemon_error"@,
        "not_found"@ != "invalid_request"@,
        "not_found"@ != "conflict"@,
        "not_found"@ != "git_error"@,
        "not_found"@ != "service_error"@,
        "not_found"@ != "daemon_error"@,
        "invalid_request"@ != "conflict"@,
        "invalid_request"@ != "git_error"@,
        "invalid_request"@ != "service_error"@,
        "invalid_request"@ != "daemon_error"@,
        "conflict"@ != "git_error"@,
        "conflict"@ != "service_error"@,
        "conflict"@ != "daemon_error"@,
        "git_error"@ != "service_error"@,
        "git_error"@ != "daemon_error"@,
        "service_error"@ != "daemon_error"@,
{
    reveal_strlit("unsafe_removal");
    reveal_strlit("not_found");
    reveal_strlit("invalid_request");
    reveal_strlit("conflict");
    reveal_strlit("git_error");
    reveal_strlit("service_error");
    reveal_strlit("daemon_error");
    assert("unsafe_removal"@.len() == 14);
    assert("not_found"@.len() == 9);
    assert("invalid_request"@.len() == 15);
    assert("conflict"@.len() == 8);
    assert("git_error"@.len() == 9);
    assert("service_error"@.len() == 13);
    assert("daemon_error"@.len() == 12);
    assert("not_found"@[0] == 'n' && "git_error"@[0] == 'g');
}

/// Each failure has the word by which a client can tell what happened: a removal that was
/// refused, something that was not found, a request that cannot be carried out, a
/// conflict, a failure of Git, another failure of the service, or one of the daemon.
pub proof fn failures_are_told_apart(error: &DaemonError, code: &'static str)
    requires
        call_ensures(service_error_code, (error,), code),
    ensures
        code@ == "unsafe_removal"@ <==> error@ matches DaemonErrorView::Service(
            ServiceErrorView::UnsafeRemoval { path, blockers },
        ),
        code@ == "not_found"@ <==> error@ matches DaemonErrorView::Service(
            ServiceErrorView::NotFound(path),
        ),
        code@ == "invalid_request"@ <==> (error@ is Protocol || error@ matches
            DaemonErrorView::Service(ServiceErrorView::InvalidRequest(message))),
        code@ == "conflict"@ <==> error@ matches DaemonErrorView::Service(
            ServiceErrorView::Inventory(InventoryErrorView::Conflict(message)),
        ),
        code@ == "git_error"@ <==> error@ is Git,
        code@ == "daemon_error"@ <==> error@ is Io || error@ is Remote || error@ is Unsupported,
{
    lemma_codes();
}

/// A failure is answered with its word and its sentence.
pub proof fn failure_is_told_with_its_word(
    request_id: Option<&str>,
    error: &DaemonError,
    code: &'static str,
    message: String,
    text: String,
)
    requires
        call_ensures(service_error_code, (error,), code),
        call_ensures(DaemonError::to_text, (error,), message),
        call_ensures(failure_response, (request_id, error), text),
    ensures
        exists|value: Json, fault: Json|
            text@ == #[trigger] json_text(value) && #[trigger] tells(value, "error"@, fault) && {
                &&& tells(value, "ok"@, Json::Bool(false))
                &&& tells(
                    value,
                    "request_id"@,
                    match slice_view(request_id) { Some(id) => Json::Str(id), None => Json::Null },
                )
                &&& tells(fault, "code"@, Json::Str(code@))
                &&& tells(fault, "message"@, Json::Str(message@))
            },
{
    let value = failure_json(slice_view(request_id), error@);
    let fault = fault_json(code@, message@);
    let fields = value->Object_0;
    assert(
        fields[1] == (
            "request_id"@,
            match slice_view(request_id) { Some(id) => Json::Str(id), None => Json::Null },
        )
    );
    assert(fields[2] == ("ok"@, Json::Bool(false)));
    assert(fields[3] == ("error"@, fault));
    assert(fault->Object_0[0] == ("code"@, Json::Str(code@)));
    assert(fault->Object_0[1] == ("message"@, Json::Str(message@)));
    assert(tells(value, "error"@, fault));
    assert(text@ == json_text(value));
}

/// A response fits exactly if its bytes are no more than a mebibyte, and one that does not
/// is refused.
pub proof fn long_responses_are_refused(message: &str, fits: bool, result: Result<(), DaemonError>)
    requires
        call_ensures(response_fits, (message,), fits),
        call_ensures(check_response, (message,), result),
    ensures
        fits <==> encode_utf8(message@).len() <= 1024 * 1024,
        result is Ok <==> fits,
{
}

/// A client is served exactly if fewer than sixty-four are, and is counted then.
pub proof fn clients_are_counted(active: usize, counted: Option<usize>)
    requires
        call_ensures(connection_count, (active,), counted),
    ensures
        counted is Some <==> active < 64,
        counted matches Some(number) ==> number == active + 1,
{
}

/// A socket is removed only where nobody answers: a connection was refused, or the socket
/// was gone. A socket that answers, anything that is no socket, and whatever cannot be
/// told are left alone.
pub proof fn only_dead_sockets_are_removed(
    path: &str,
    found: &SocketProbe,
    cleaned: Result<bool, DaemonError>,
    prepared: Result<bool, DaemonError>,
)
    requires
        call_ensures(clean_stale_socket, (path, found), cleaned),
        call_ensures(prepare_socket_path, (path, found), prepared),
    ensures
        cleaned is Ok && cleaned->Ok_0 <==> *found is Refused || *found is Gone,
        prepared is Ok && prepared->Ok_0 <==> *found is Refused || *found is Gone,
        cleaned is Ok && !cleaned->Ok_0 <==> *found is Missing,
        prepared is Ok && !prepared->Ok_0 <==> *found is Missing || *found is Unreadable,
        *found is Connected || *found is NotSocket || *found is Failed ==> cleaned is Err
            && prepared is Err,
{
}

/// The path of a socket is refused exactly from a hundred bytes on.
pub proof fn long_socket_paths_are_refused(path: &str, result: Result<(), DaemonError>)
    requires
        call_ensures(check_socket_path, (path,), result),
    ensures
        result is Ok <==> encode_utf8(path@).len() < 100,
{
}

/// A directory may hold lock files exactly if it is a real directory that belongs to the
/// user and to nobody else; a file may serve as a lock exactly if it is a regular file of
/// that sort.
pub proof fn locks_belong_to_the_user(
    path: &str,
    facts: FileFacts,
    user: u32,
    directory: Result<(), DaemonError>,
    file: Result<(), DaemonError>,
)
    requires
        call_ensures(validate_request_lock_directory, (path, facts, user), directory),
        call_ensures(validate_request_lock, (path, facts, user), file),
    ensures
        directory is Ok <==> !facts.is_link && facts.is_directory && facts.owner == user
            && facts.mode & 0o077u32 == 0,
        file is Ok <==> !facts.is_link && facts.is_file && facts.owner == user && facts.mode
            & 0o077u32 == 0,
{
}

/// Each user has a directory for locks of their own, under the directory that is given.
pub proof fn lock_directory_names_the_user(temporary: &str, user: u32, path: String)
    requires
        temporary@.len() > 0,
        temporary@.last() != '/',
        call_ensures(request_lock_directory, (temporary, user), path),
    ensures
        path@ == temporary@ + "/"@ + "worktree-manager-locks-"@ + decimal(user as nat),
{
    reveal_strlit("worktree-manager-locks-");
    let name = "worktree-manager-locks-"@ + decimal(user as nat);
    assert(name[0] == 'w');
    assert(path@ =~= temporary@ + "/"@ + "worktree-manager-locks-"@ + decimal(user as nat));
}

/// An inventory is still the one that was opened exactly if its identity is the same.
pub proof fn replaced_inventory_is_noticed(
    request_id: &str,
    opened: &str,
    current: &str,
    answer: Option<String>,
)
    requires
        call_ensures(check_identity, (request_id, opened, current), answer),
    ensures
        answer is None <==> opened@ == current@,
        answer matches Some(text) ==> exists|value: Json, fault: Json|
            text@ == #[trigger] json_text(value) && #[trigger] tells(value, "error"@, fault)
                && tells(value, "ok"@, Json::Bool(false)) && tells(
                value,
                "request_id"@,
                Json::Str(request_id@),
            ) && tells(fault, "code"@, Json::Str("inventory_replaced"@)),
{
    if let Some(text) = answer {
        let message = "inventory database changed while daemon was running"@;
        let value = error_json(Some(request_id@), "inventory_replaced"@, message);
        let fault = fault_json("inventory_replaced"@, message);
        assert(value->Object_0[1] == ("request_id"@, Json::Str(request_id@)));
        assert(value->Object_0[2] == ("ok"@, Json::Bool(false)));
        assert(value->Object_0[3] == ("error"@, fault));
        assert(fault->Object_0[0] == ("code"@, Json::Str("inventory_replaced"@)));
        assert(tells(value, "error"@, fault));
        assert(text@ == json_text(value));
    }
}

/// A line that is too long or is no text is answered with the word for that, and any other
/// line is not refused.
pub proof fn bad_lines_are_answered(step: &LineStep, answer: Option<String>)
    requires
        call_ensures(refusal_of, (step,), answer),
    ensures
        answer is Some <==> *step is TooLong || *step is NotText,
        answer matches Some(text) ==> exists|value: Json, fault: Json|
            text@ == #[trigger] json_text(value) && #[trigger] tells(value, "error"@, fault)
                && tells(value, "ok"@, Json::Bool(false)) && tells(
                fault,
                "code"@,
                Json::Str(
                    if *step is TooLong {
                        "request_too_large"@
                    } else {
                        "invalid_request"@
                    },
                ),
            ),
{
    if let Some(text) = answer {
        let (code, message) = if *step is TooLong {
            ("request_too_large"@, "request exceeds 1 MiB"@)
        } else {
            ("invalid_request"@, "request is not UTF-8"@)
        };
        let value = error_json(None, code, message);
        let fault = fault_json(code, message);
        assert(value->Object_0[2] == ("ok"@, Json::Bool(false)));
        assert(value->Object_0[3] == ("error"@, fault));
        assert(fault->Object_0[0] == ("code"@, Json::Str(code)));
        assert(tells(value, "error"@, fault));
        assert(text@ == json_text(value));
    }
}

/// A line is a call only if it is an object with an identifier that is not blank, with a
/// method, and with the version of this protocol, if it names one. The call has just that
/// identifier, that method and those parameters.
pub proof fn calls_are_addressed(
    line: &str,
    parsed: Result<Value, ParseError>,
    result: Result<Incoming, DaemonError>,
)
    requires
        call_ensures(parse, (line,), parsed),
        call_ensures(handle_line, (line,), result),
    ensures
        parsed is Err ==> result is Err,
        result matches Ok(Incoming::Call(call)) ==> parsed is Ok && {
            let value = parsed->Ok_0@;
            &&& value.field("request_id"@) == Some(Json::Str(call.request_id@))
            &&& !all_space(call.request_id@)
            &&& value.field("method"@) == Some(Json::Str(call.method@))
            &&& value.field("schema_version"@) matches Some(Json::Number(version)) ==> version == 1
            &&& value.field("params"@) matches Some(params) ==> call.params@ == params
            &&& value.field("params"@) is None ==> call.params@ == Json::Object(seq![])
            &&& call.params@ is Object
        },
        parsed is Ok && parsed->Ok_0@.field("request_id"@) is None ==> result is Ok
            && result->Ok_0 is Answer,
        parsed is Ok ==> (parsed->Ok_0@.field("schema_version"@) matches Some(Json::Number(version))
            ==> version != 1 ==> !(result is Ok && result->Ok_0 is Call)),
{
    if let Ok(Incoming::Call(call)) = result {
        lemma_all_space(call.request_id@);
    }
}

/// A client takes a response for success exactly if it is an object with the version of
/// this protocol and the identifier of the request, and says that it is one; and it hands
/// on that response unchanged.
pub proof fn success_is_what_says_so(
    response: String,
    text: &str,
    request_id: &str,
    parsed: Result<Value, ParseError>,
    result: Result<String, DaemonError>,
)
    requires
        text@ == response@,
        call_ensures(parse, (text,), parsed),
        call_ensures(interpret_response, (response, request_id), result),
    ensures
        result is Ok <==> parsed is Ok && parsed->Ok_0@.field("schema_version"@) == Some(
            Json::Number(1),
        ) && parsed->Ok_0@.field("request_id"@) == Some(Json::Str(request_id@))
            && parsed->Ok_0@.field("ok"@) == Some(Json::Bool(true)),
        result matches Ok(passed) ==> passed@ == response@,
{
}

/// Another attempt may mend a failure to reach the daemon, a breach of the protocol, or an
/// inventory that was replaced, and nothing else.
pub proof fn few_failures_can_be_mended(error: &DaemonError, result: bool)
    requires
        call_ensures(is_retryable, (error,), result),
    ensures
        error@ is Io || error@ is Protocol ==> result,
        error@ is Git || error@ is Service || error@ is Unsupported ==> !result,
        error@ matches DaemonErrorView::Remote { code, message } ==> (result <==> code
            == "inventory_replaced"@),
{
}

/// A client tries three times again with fifty milliseconds between, unless told otherwise,
/// and keeps its socket.
pub proof fn client_is_made_as_told(
    path: &str,
    fresh: DaemonClient,
    retries: u32,
    told: DaemonClient,
    kept: &str,
)
    requires
        call_ensures(DaemonClient::new, (path,), fresh),
        call_ensures(DaemonClient::with_retries, (fresh, retries), told),
        call_ensures(DaemonClient::socket_path, (&told,), kept),
    ensures
        fresh.retries == 3,
        fresh.retry_delay_milliseconds == 50,
        told.retries == retries,
        told.retry_delay_milliseconds == 50,
        kept@ == path@,
{
}

/// The result is taken out of a response as it stands there.
pub proof fn result_is_taken_out(
    response: &str,
    parsed: Result<Value, ParseError>,
    result: Result<String, DaemonError>,
)
    requires
        call_ensures(parse, (response,), parsed),
        call_ensures(extract_result, (response,), result),
    ensures
        parsed is Err ==> result is Err,
        parsed matches Ok(value) ==> (result is Ok <==> value@.field("result"@) is Some),
        parsed is Ok && result is Ok ==> result->Ok_0@ == json_text(
            parsed->Ok_0@.field("result"@)->0,
        ),
{
}

/// A client sends nothing for a blank identifier or method, nor for parameters that are no
/// object.
pub proof fn senseless_requests_are_not_sent(
    request_id: &str,
    method: &str,
    params: &str,
    parsed: Result<Value, ParseError>,
    result: Result<String, DaemonError>,
)
    requires
        call_ensures(parse, (params,), parsed),
        call_ensures(request_line, (request_id, method, params), result),
    ensures
        result is Ok <==> !all_space(request_id@) && !all_space(method@) && parsed is Ok
            && parsed->Ok_0@ is Object,
{
    lemma_all_space(request_id@);
    lemma_all_space(method@);
}

/// A ping tells of the repository that the service serves and of the age that it works with.
pub proof fn ping_tells_of_the_service(
    service: &RepositoryService,
    pid: u32,
    path: &str,
    identity: &str,
    text: String,
)
    requires
        call_ensures(execute_ping, (service, pid, path, identity), text),
    ensures
        exists|value: Json|
            text@ == #[trigger] json_text(value) && {
                &&& has_fields(value, 6)
                &&& tells(value, "pid"@, Json::Number(pid as int))
                &&& tells(value, "repository_root"@, Json::Str(service@.repository.root))
                &&& tells(value, "inventory_path"@, Json::Str(path@))
                &&& tells(value, "inventory_identity"@, Json::Str(identity@))
                &&& tells(
                    value,
                    "minimum_cleanup_age_seconds"@,
                    Json::Number(service@.minimum_cleanup_age_seconds as int),
                )
            },
{
    let age = service@.minimum_cleanup_age_seconds;
    let value = ping_json(pid, service@.repository.root, path@, identity@, age);
    let fields = value->Object_0;
    assert(fields[1] == ("pid"@, Json::Number(pid as int)));
    assert(fields[2] == ("repository_root"@, Json::Str(service@.repository.root)));
    assert(fields[3] == ("inventory_path"@, Json::Str(path@)));
    assert(fields[4] == ("inventory_identity"@, Json::Str(identity@)));
    assert(fields[5] == ("minimum_cleanup_age_seconds"@, Json::Number(age as int)));
    assert(text@ == json_text(value));
}

/// A daemon is set up with what it is given and a day as the minimum age, and refuses a
/// negative age.
pub proof fn daemon_is_set_up_as_told(
    repository: GitRepository,
    inventory: &str,
    socket: &str,
    config: DaemonConfig,
    other: &DaemonConfig,
    result: Result<(), DaemonError>,
)
    requires
        call_ensures(DaemonConfig::new, (repository, inventory, socket), config),
        call_ensures(DaemonConfig::validate, (other,), result),
    ensures
        config.repository@ == repository@,
        config.inventory_path@ == inventory@,
        config.socket_path@ == socket@,
        config.minimum_cleanup_age_seconds == 24 * 60 * 60,
        result is Ok <==> other.minimum_cleanup_age_seconds >= 0,
{
}

/// Everyone who opens the inventory at a path takes turns on one lock file, and everyone who
/// uses the same inventory on another. Both stand in the directory of locks, are named by
/// what they are for, and carry the hash of the path or of the identity.
pub proof fn lock_files_are_named_after_their_use(
    directory: &str,
    inventory_path: &str,
    identity: &str,
    path_hash: u64,
    path_digits: String,
    identity_hash: u64,
    identity_digits: String,
    path_lock: String,
    identity_lock: String,
)
    requires
        directory@.len() > 0,
        directory@.last() != '/',
        call_ensures(stable_string_hash, (inventory_path,), path_hash),
        call_ensures(print_hex_digits, (path_hash, 16usize), path_digits),
        call_ensures(stable_string_hash, (identity,), identity_hash),
        call_ensures(print_hex_digits, (identity_hash, 16usize), identity_digits),
        call_ensures(request_path_lock_path, (directory, inventory_path), path_lock),
        call_ensures(request_identity_lock_path, (directory, identity), identity_lock),
    ensures
        path_lock@ == directory@ + "/"@ + ("path-"@ + path_digits@ + ".request.lock"@),
        identity_lock@ == directory@ + "/"@ + ("identity-"@ + identity_digits@
            + ".request.lock"@),
{
    reveal_strlit("path-");
    reveal_strlit("identity-");
    assert(("path-"@ + path_digits@ + ".request.lock"@)[0] == 'p');
    assert(("identity-"@ + identity_digits@ + ".request.lock"@)[0] == 'i');
}

} // verus!
