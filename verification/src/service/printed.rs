//! What is printed of the results of the service, each thing under its own key.

use crate::json::fields::has_fields;
use crate::json::fields::tells;
use crate::json::value::Json;
use crate::json::writer::json_text;
use crate::service::types::CleanupCandidate;
use crate::service::types::CreateResult;
use crate::service::types::LockResult;
use crate::service::types::RemoveResult;
use crate::text::option_view;
use crate::text::views;
use vstd::prelude::*;

verus! {

/// The result of a creation is printed with the worktree as Git lists it, the state of its
/// row, and whether it was there before.
pub proof fn creation_is_printed_whole(
    result: &CreateResult,
    text: String,
)
    requires
        call_ensures(CreateResult::to_json, (result,), text),
    ensures
        exists|value: Json|
            text@ == #[trigger] json_text(value) && {
                &&& has_fields(value, 7)
                &&& tells(value, "schema_version"@, Json::Number(1))
                &&& tells(value, "operation"@, Json::Str("create"@))
                &&& tells(value, "already_existed"@, Json::Bool(result.already_existed))
                &&& tells(value, "path"@, Json::Str(result.worktree.path@))
                &&& tells(
                    value,
                    "branch"@,
                    match option_view(result.worktree.branch) {
                        Some(text) => Json::Str(text),
                        None => Json::Null,
                    },
                )
                &&& tells(
                    value,
                    "head"@,
                    match option_view(result.worktree.head) {
                        Some(text) => Json::Str(text),
                        None => Json::Null,
                    },
                )
                &&& tells(value, "lifecycle_state"@, Json::Str(result.record.lifecycle_state@))
            },
{
    let value = result@.json();
    let fields = value->Object_0;
    assert(fields[0] == ("schema_version"@, Json::Number(1)));
    assert(fields[1] == ("operation"@, Json::Str("create"@)));
    assert(fields[2] == ("already_existed"@, Json::Bool(result.already_existed)));
    assert(fields[3] == ("path"@, Json::Str(result.worktree.path@)));
    assert(
        fields[4] == (
            "branch"@,
            match option_view(result.worktree.branch) {
                Some(text) => Json::Str(text),
                None => Json::Null,
            },
        )
    );
    assert(
        fields[5] == (
            "head"@,
            match option_view(result.worktree.head) {
                Some(text) => Json::Str(text),
                None => Json::Null,
            },
        )
    );
    assert(fields[6] == ("lifecycle_state"@, Json::Str(result.record.lifecycle_state@)));
    assert(text@ == json_text(value));
}

/// The result of a lock or its end is printed with the worktree as Git lists it, and whether
/// it was in that state before.
pub proof fn lock_is_printed_whole(
    result: &LockResult,
    operation: &str,
    text: String,
)
    requires
        call_ensures(LockResult::to_json, (result, operation), text),
    ensures
        exists|value: Json|
            text@ == #[trigger] json_text(value) && {
                &&& has_fields(value, 7)
                &&& tells(value, "schema_version"@, Json::Number(1))
                &&& tells(value, "operation"@, Json::Str(operation@))
                &&& tells(
                    value,
                    "already_in_requested_state"@,
                    Json::Bool(result.already_in_requested_state),
                )
                &&& tells(value, "path"@, Json::Str(result.worktree.path@))
                &&& tells(
                    value,
                    "branch"@,
                    match option_view(result.worktree.branch) {
                        Some(text) => Json::Str(text),
                        None => Json::Null,
                    },
                )
                &&& tells(value, "locked"@, Json::Bool(result.worktree.locked))
                &&& tells(
                    value,
                    "lock_reason"@,
                    match option_view(result.worktree.lock_reason) {
                        Some(text) => Json::Str(text),
                        None => Json::Null,
                    },
                )
            },
{
    let value = result@.json(operation@);
    let fields = value->Object_0;
    assert(fields[0] == ("schema_version"@, Json::Number(1)));
    assert(fields[1] == ("operation"@, Json::Str(operation@)));
    assert(
        fields[2] == ("already_in_requested_state"@, Json::Bool(result.already_in_requested_state))
    );
    assert(fields[3] == ("path"@, Json::Str(result.worktree.path@)));
    assert(
        fields[4] == (
            "branch"@,
            match option_view(result.worktree.branch) {
                Some(text) => Json::Str(text),
                None => Json::Null,
            },
        )
    );
    assert(fields[5] == ("locked"@, Json::Bool(result.worktree.locked)));
    assert(
        fields[6] == (
            "lock_reason"@,
            match option_view(result.worktree.lock_reason) {
                Some(text) => Json::Str(text),
                None => Json::Null,
            },
        )
    );
    assert(text@ == json_text(value));
}

/// The result of a removal is printed with the path, the branch, and whether the branch was
/// deleted.
pub proof fn removal_is_printed_whole(
    result: &RemoveResult,
    text: String,
)
    requires
        call_ensures(RemoveResult::to_json, (result,), text),
    ensures
        exists|value: Json|
            text@ == #[trigger] json_text(value) && {
                &&& has_fields(value, 5)
                &&& tells(value, "schema_version"@, Json::Number(1))
                &&& tells(value, "operation"@, Json::Str("remove"@))
                &&& tells(value, "path"@, Json::Str(result.path@))
                &&& tells(
                    value,
                    "branch"@,
                    match option_view(result.branch) {
                        Some(text) => Json::Str(text),
                        None => Json::Null,
                    },
                )
                &&& tells(value, "branch_deleted"@, Json::Bool(result.branch_deleted))
            },
{
    let value = result@.json();
    let fields = value->Object_0;
    assert(fields[0] == ("schema_version"@, Json::Number(1)));
    assert(fields[1] == ("operation"@, Json::Str("remove"@)));
    assert(fields[2] == ("path"@, Json::Str(result.path@)));
    assert(
        fields[3] == (
            "branch"@,
            match option_view(result.branch) { Some(text) => Json::Str(text), None => Json::Null },
        )
    );
    assert(fields[4] == ("branch_deleted"@, Json::Bool(result.branch_deleted)));
    assert(text@ == json_text(value));
}

/// A candidate for cleanup is printed with its row, path and branch, the judgement about it,
/// every sentence that stands against its removal, and what its removal would free.
pub proof fn candidate_is_printed_whole(
    candidate: &CleanupCandidate,
    text: String,
)
    requires
        call_ensures(CleanupCandidate::to_json, (candidate,), text),
    ensures
        exists|value: Json|
            text@ == #[trigger] json_text(value) && {
                &&& has_fields(value, 6)
                &&& tells(
                    value,
                    "worktree_id"@,
                    match candidate.worktree_id {
                        Some(number) => Json::Number(
                            if number < 0 {
                                number + 0x1_0000_0000_0000_0000
                            } else {
                                number as int
                            }
                        ),
                        None => Json::Null,
                    },
                )
                &&& tells(value, "path"@, Json::Str(candidate.path@))
                &&& tells(
                    value,
                    "branch"@,
                    match option_view(candidate.branch) {
                        Some(text) => Json::Str(text),
                        None => Json::Null,
                    },
                )
                &&& tells(value, "classification"@, Json::Str(candidate.classification@))
                &&& tells(
                    value,
                    "blockers"@,
                    Json::Array(
                        Seq::new(
                            candidate.blockers@.len(),
                            |i: int| Json::Str(candidate.blockers@[i]@),
                        )
                    ),
                )
                &&& tells(
                    value,
                    "reclaimable_bytes"@,
                    Json::Number(candidate.reclaimable_bytes as int),
                )
            },
{
    let blockers = Seq::new(candidate.blockers@.len(), |i: int| Json::Str(candidate.blockers@[i]@));
    assert(views(candidate.blockers@).map_values(|text: Seq<char>| Json::Str(text)) =~= blockers);
    let value = candidate@.json();
    let fields = value->Object_0;
    assert(
        fields[0] == (
            "worktree_id"@,
            match candidate.worktree_id {
                Some(number) => Json::Number(
                    if number < 0 { number + 0x1_0000_0000_0000_0000 } else { number as int }
                ),
                None => Json::Null,
            },
        )
    );
    assert(fields[1] == ("path"@, Json::Str(candidate.path@)));
    assert(
        fields[2] == (
            "branch"@,
            match option_view(candidate.branch) {
                Some(text) => Json::Str(text),
                None => Json::Null,
            },
        )
    );
    assert(fields[3] == ("classification"@, Json::Str(candidate.classification@)));
    assert(
        fields[4] == (
            "blockers"@,
            Json::Array(
                Seq::new(candidate.blockers@.len(), |i: int| Json::Str(candidate.blockers@[i]@))
            ),
        )
    );
    assert(fields[5] == ("reclaimable_bytes"@, Json::Number(candidate.reclaimable_bytes as int)));
    assert(text@ == json_text(value));
}

} // verus!
