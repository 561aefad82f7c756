//! What the command line asks of the daemon, each thing under its own key.

use crate::cli::requests::cleanup_params;
use crate::cli::requests::cleanup_params_json;
use crate::cli::requests::create_params;
use crate::cli::requests::create_params_json;
use crate::cli::requests::lock_params;
use crate::cli::requests::lock_params_json;
use crate::cli::requests::remove_params;
use crate::cli::requests::remove_params_json;
use crate::json::fields::has_fields;
use crate::json::fields::tells;
use crate::json::value::Json;
use crate::json::writer::json_text;
use crate::json::writer::slice_view;
use crate::service::types::CreateRequest;
use crate::text::option_view;
use vstd::prelude::*;

verus! {

/// A request to create a worktree hands on everything that was asked for.
pub proof fn creation_is_asked_for_whole(
    request: &CreateRequest,
    text: String,
)
    requires
        call_ensures(create_params, (request,), text),
    ensures
        exists|value: Json|
            text@ == #[trigger] json_text(value) && {
                &&& has_fields(value, 5)
                &&& tells(value, "branch"@, Json::Str(request.branch@))
                &&& tells(
                    value,
                    "base"@,
                    match option_view(request.base) {
                        Some(text) => Json::Str(text),
                        None => Json::Null,
                    },
                )
                &&& tells(
                    value,
                    "path"@,
                    match option_view(request.path) {
                        Some(text) => Json::Str(text),
                        None => Json::Null,
                    },
                )
                &&& tells(
                    value,
                    "idempotency_key"@,
                    match option_view(request.idempotency_key) {
                        Some(text) => Json::Str(text),
                        None => Json::Null,
                    },
                )
                &&& tells(value, "actor"@, Json::Str(request.actor@))
            },
{
    let value = create_params_json(request@);
    let fields = value->Object_0;
    assert(fields[0] == ("branch"@, Json::Str(request.branch@)));
    assert(
        fields[1] == (
            "base"@,
            match option_view(request.base) { Some(text) => Json::Str(text), None => Json::Null },
        )
    );
    assert(
        fields[2] == (
            "path"@,
            match option_view(request.path) { Some(text) => Json::Str(text), None => Json::Null },
        )
    );
    assert(
        fields[3] == (
            "idempotency_key"@,
            match option_view(request.idempotency_key) {
                Some(text) => Json::Str(text),
                None => Json::Null,
            },
        )
    );
    assert(fields[4] == ("actor"@, Json::Str(request.actor@)));
    assert(text@ == json_text(value));
}

/// A request to lock or unlock a worktree hands on its path and the reason.
pub proof fn lock_is_asked_for_whole(
    path: &str,
    reason: Option<&str>,
    text: String,
)
    requires
        call_ensures(lock_params, (path, reason), text),
    ensures
        exists|value: Json|
            text@ == #[trigger] json_text(value) && {
                &&& has_fields(value, 3)
                &&& tells(value, "path"@, Json::Str(path@))
                &&& tells(
                    value,
                    "reason"@,
                    match slice_view(reason) { Some(text) => Json::Str(text), None => Json::Null },
                )
                &&& tells(value, "actor"@, Json::Str("cli"@))
            },
{
    let value = lock_params_json(path@, slice_view(reason));
    let fields = value->Object_0;
    assert(fields[0] == ("path"@, Json::Str(path@)));
    assert(
        fields[1] == (
            "reason"@,
            match slice_view(reason) { Some(text) => Json::Str(text), None => Json::Null },
        )
    );
    assert(fields[2] == ("actor"@, Json::Str("cli"@)));
    assert(text@ == json_text(value));
}

/// A request to remove a worktree hands on its path, the minimum age, and whether its branch
/// is to be deleted.
pub proof fn removal_is_asked_for_whole(
    path: &str,
    delete_branch: bool,
    minimum_age: i64,
    text: String,
)
    requires
        call_ensures(remove_params, (path, delete_branch, minimum_age), text),
    ensures
        exists|value: Json|
            text@ == #[trigger] json_text(value) && {
                &&& has_fields(value, 4)
                &&& tells(value, "path"@, Json::Str(path@))
                &&& tells(value, "delete_branch"@, Json::Bool(delete_branch))
                &&& tells(value, "minimum_age_seconds"@, Json::Number(minimum_age as int))
                &&& tells(value, "actor"@, Json::Str("cli"@))
            },
{
    let value = remove_params_json(path@, delete_branch, minimum_age);
    let fields = value->Object_0;
    assert(fields[0] == ("path"@, Json::Str(path@)));
    assert(fields[1] == ("delete_branch"@, Json::Bool(delete_branch)));
    assert(fields[2] == ("minimum_age_seconds"@, Json::Number(minimum_age as int)));
    assert(fields[3] == ("actor"@, Json::Str("cli"@)));
    assert(text@ == json_text(value));
}

/// A request to scan for cleanup hands on the minimum age and the base.
pub proof fn cleanup_is_asked_for_whole(
    minimum_age: i64,
    base: Option<&str>,
    text: String,
)
    requires
        call_ensures(cleanup_params, (minimum_age, base), text),
    ensures
        exists|value: Json|
            text@ == #[trigger] json_text(value) && {
                &&& has_fields(value, 3)
                &&& tells(value, "minimum_age_seconds"@, Json::Number(minimum_age as int))
                &&& tells(
                    value,
                    "base"@,
                    match slice_view(base) { Some(text) => Json::Str(text), None => Json::Null },
                )
                &&& tells(value, "actor"@, Json::Str("cli"@))
            },
{
    let value = cleanup_params_json(minimum_age, slice_view(base));
    let fields = value->Object_0;
    assert(fields[0] == ("minimum_age_seconds"@, Json::Number(minimum_age as int)));
    assert(
        fields[1] == (
            "base"@,
            match slice_view(base) { Some(text) => Json::Str(text), None => Json::Null },
        )
    );
    assert(fields[2] == ("actor"@, Json::Str("cli"@)));
    assert(text@ == json_text(value));
}

} // verus!
