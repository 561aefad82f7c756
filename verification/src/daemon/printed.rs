//! What the daemon prints, each thing under its own key.

use crate::daemon::protocol::error_json;
use crate::daemon::protocol::error_response;
use crate::daemon::protocol::fault_json;
use crate::daemon::replies::candidate_json;
use crate::daemon::replies::candidates_json;
use crate::daemon::replies::candidates_to_json;
use crate::daemon::replies::cleanup_json;
use crate::daemon::replies::cleanup_result;
use crate::daemon::replies::ended_result;
use crate::daemon::replies::ended_result_json;
use crate::daemon::replies::heartbeat_result;
use crate::daemon::replies::heartbeat_result_json;
use crate::daemon::replies::lease_json;
use crate::daemon::replies::lease_or_null;
use crate::daemon::replies::lease_result;
use crate::daemon::replies::lease_result_json;
use crate::daemon::replies::lease_to_json;
use crate::daemon::replies::leases_json;
use crate::daemon::replies::leases_result;
use crate::daemon::replies::leases_result_json;
use crate::daemon::replies::leases_to_json;
use crate::daemon::replies::ping_json;
use crate::daemon::replies::ping_result;
use crate::daemon::replies::refresh_json;
use crate::daemon::replies::refresh_result;
use crate::daemon::replies::session_json;
use crate::daemon::replies::session_or_null;
use crate::daemon::replies::session_result;
use crate::daemon::replies::session_result_json;
use crate::daemon::replies::session_to_json;
use crate::daemon::replies::worktree_record_json;
use crate::daemon::replies::worktree_record_to_json;
use crate::daemon::replies::worktrees_json;
use crate::daemon::replies::worktrees_to_json;
use crate::inventory::records::LeaseRecord;
use crate::inventory::records::LeaseRecordView;
use crate::inventory::records::SessionRecord;
use crate::inventory::records::WorktreeRecord;
use crate::inventory::records::WorktreeRecordView;
use crate::json::fields::has_fields;
use crate::json::fields::tells;
use crate::json::value::Json;
use crate::json::writer::json_text;
use crate::json::writer::slice_view;
use crate::service::types::CleanupCandidate;
use crate::service::types::CleanupCandidateView;
use crate::service::types::HeartbeatResult;
use crate::service::types::LeaseResult;
use crate::service::types::SessionResult;
use crate::text::option_view;
use crate::text::views;
use vstd::prelude::*;

verus! {

/// A row of a worktree is printed with each of its columns under its own key.
pub proof fn worktree_row_is_printed_whole(
    record: &WorktreeRecord,
    text: String,
)
    requires
        call_ensures(worktree_record_to_json, (record,), text),
    ensures
        exists|value: Json|
            text@ == #[trigger] json_text(value) && {
                &&& has_fields(value, 12)
                &&& tells(
                    value,
                    "id"@,
                    Json::Number(
                        if record.id < 0 {
                            record.id + 0x1_0000_0000_0000_0000
                        } else {
                            record.id as int
                        }
                    ),
                )
                &&& tells(
                    value,
                    "repository_id"@,
                    Json::Number(
                        if record.repository_id < 0 {
                            record.repository_id + 0x1_0000_0000_0000_0000
                        } else {
                            record.repository_id as int
                        }
                    ),
                )
                &&& tells(value, "path"@, Json::Str(record.path@))
                &&& tells(
                    value,
                    "branch"@,
                    match option_view(record.branch) {
                        Some(text) => Json::Str(text),
                        None => Json::Null,
                    },
                )
                &&& tells(
                    value,
                    "head"@,
                    match option_view(record.head) {
                        Some(text) => Json::Str(text),
                        None => Json::Null,
                    },
                )
                &&& tells(value, "git_state"@, Json::Str(record.git_state@))
                &&& tells(value, "lifecycle_state"@, Json::Str(record.lifecycle_state@))
                &&& tells(value, "first_seen_at"@, Json::Number(record.first_seen_at as int))
                &&& tells(
                    value,
                    "created_at"@,
                    match record.created_at {
                        Some(number) => Json::Number(number as int),
                        None => Json::Null,
                    },
                )
                &&& tells(value, "last_seen_at"@, Json::Number(record.last_seen_at as int))
                &&& tells(
                    value,
                    "archived_at"@,
                    match record.archived_at {
                        Some(number) => Json::Number(number as int),
                        None => Json::Null,
                    },
                )
                &&& tells(
                    value,
                    "removed_at"@,
                    match record.removed_at {
                        Some(number) => Json::Number(number as int),
                        None => Json::Null,
                    },
                )
            },
{
    let value = worktree_record_json(record@);
    let fields = value->Object_0;
    assert(
        fields[0] == (
            "id"@,
            Json::Number(
                if record.id < 0 { record.id + 0x1_0000_0000_0000_0000 } else { record.id as int }
            ),
        )
    );
    assert(
        fields[1] == (
            "repository_id"@,
            Json::Number(
                if record.repository_id < 0 {
                    record.repository_id + 0x1_0000_0000_0000_0000
                } else {
                    record.repository_id as int
                }
            ),
        )
    );
    assert(fields[2] == ("path"@, Json::Str(record.path@)));
    assert(
        fields[3] == (
            "branch"@,
            match option_view(record.branch) { Some(text) => Json::Str(text), None => Json::Null },
        )
    );
    assert(
        fields[4] == (
            "head"@,
            match option_view(record.head) { Some(text) => Json::Str(text), None => Json::Null },
        )
    );
    assert(fields[5] == ("git_state"@, Json::Str(record.git_state@)));
    assert(fields[6] == ("lifecycle_state"@, Json::Str(record.lifecycle_state@)));
    assert(fields[7] == ("first_seen_at"@, Json::Number(record.first_seen_at as int)));
    assert(
        fields[8] == (
            "created_at"@,
            match record.created_at {
                Some(number) => Json::Number(number as int),
                None => Json::Null,
            },
        )
    );
    assert(fields[9] == ("last_seen_at"@, Json::Number(record.last_seen_at as int)));
    assert(
        fields[10] == (
            "archived_at"@,
            match record.archived_at {
                Some(number) => Json::Number(number as int),
                None => Json::Null,
            },
        )
    );
    assert(
        fields[11] == (
            "removed_at"@,
            match record.removed_at {
                Some(number) => Json::Number(number as int),
                None => Json::Null,
            },
        )
    );
    assert(text@ == json_text(value));
}

/// A row of a session is printed with each of its columns under its own key.
pub proof fn session_row_is_printed_whole(
    session: &SessionRecord,
    text: String,
)
    requires
        call_ensures(session_to_json, (session,), text),
    ensures
        exists|value: Json|
            text@ == #[trigger] json_text(value) && {
                &&& has_fields(value, 10)
                &&& tells(value, "id"@, Json::Str(session.id@))
                &&& tells(
                    value,
                    "worktree_id"@,
                    Json::Number(
                        if session.worktree_id < 0 {
                            session.worktree_id + 0x1_0000_0000_0000_0000
                        } else {
                            session.worktree_id as int
                        }
                    ),
                )
                &&& tells(value, "provider"@, Json::Str(session.provider@))
                &&& tells(
                    value,
                    "provider_session_id"@,
                    match option_view(session.provider_session_id) {
                        Some(text) => Json::Str(text),
                        None => Json::Null,
                    },
                )
                &&& tells(
                    value,
                    "pid"@,
                    match session.pid {
                        Some(number) => Json::Number(number as int),
                        None => Json::Null,
                    },
                )
                &&& tells(
                    value,
                    "process_started_at"@,
                    match session.process_started_at {
                        Some(number) => Json::Number(number as int),
                        None => Json::Null,
                    },
                )
                &&& tells(
                    value,
                    "terminal_metadata"@,
                    match option_view(session.terminal_metadata) {
                        Some(text) => Json::Str(text),
                        None => Json::Null,
                    },
                )
                &&& tells(value, "state"@, Json::Str(session.state@))
                &&& tells(value, "created_at"@, Json::Number(session.created_at as int))
                &&& tells(value, "last_seen_at"@, Json::Number(session.last_seen_at as int))
            },
{
    let value = session_json(session@);
    let fields = value->Object_0;
    assert(fields[0] == ("id"@, Json::Str(session.id@)));
    assert(
        fields[1] == (
            "worktree_id"@,
            Json::Number(
                if session.worktree_id < 0 {
                    session.worktree_id + 0x1_0000_0000_0000_0000
                } else {
                    session.worktree_id as int
                }
            ),
        )
    );
    assert(fields[2] == ("provider"@, Json::Str(session.provider@)));
    assert(
        fields[3] == (
            "provider_session_id"@,
            match option_view(session.provider_session_id) {
                Some(text) => Json::Str(text),
                None => Json::Null,
            },
        )
    );
    assert(
        fields[4] == (
            "pid"@,
            match session.pid { Some(number) => Json::Number(number as int), None => Json::Null },
        )
    );
    assert(
        fields[5] == (
            "process_started_at"@,
            match session.process_started_at {
                Some(number) => Json::Number(number as int),
                None => Json::Null,
            },
        )
    );
    assert(
        fields[6] == (
            "terminal_metadata"@,
            match option_view(session.terminal_metadata) {
                Some(text) => Json::Str(text),
                None => Json::Null,
            },
        )
    );
    assert(fields[7] == ("state"@, Json::Str(session.state@)));
    assert(fields[8] == ("created_at"@, Json::Number(session.created_at as int)));
    assert(fields[9] == ("last_seen_at"@, Json::Number(session.last_seen_at as int)));
    assert(text@ == json_text(value));
}

/// A row of a lease is printed with each of its columns under its own key.
pub proof fn lease_row_is_printed_whole(
    lease: &LeaseRecord,
    text: String,
)
    requires
        call_ensures(lease_to_json, (lease,), text),
    ensures
        exists|value: Json|
            text@ == #[trigger] json_text(value) && {
                &&& has_fields(value, 7)
                &&& tells(
                    value,
                    "id"@,
                    Json::Number(
                        if lease.id < 0 {
                            lease.id + 0x1_0000_0000_0000_0000
                        } else {
                            lease.id as int
                        }
                    ),
                )
                &&& tells(
                    value,
                    "worktree_id"@,
                    Json::Number(
                        if lease.worktree_id < 0 {
                            lease.worktree_id + 0x1_0000_0000_0000_0000
                        } else {
                            lease.worktree_id as int
                        }
                    ),
                )
                &&& tells(value, "session_id"@, Json::Str(lease.session_id@))
                &&& tells(value, "acquired_at"@, Json::Number(lease.acquired_at as int))
                &&& tells(value, "renewed_at"@, Json::Number(lease.renewed_at as int))
                &&& tells(value, "expires_at"@, Json::Number(lease.expires_at as int))
                &&& tells(value, "state"@, Json::Str(lease.state@))
            },
{
    let value = lease_json(lease@);
    let fields = value->Object_0;
    assert(
        fields[0] == (
            "id"@,
            Json::Number(
                if lease.id < 0 { lease.id + 0x1_0000_0000_0000_0000 } else { lease.id as int }
            ),
        )
    );
    assert(
        fields[1] == (
            "worktree_id"@,
            Json::Number(
                if lease.worktree_id < 0 {
                    lease.worktree_id + 0x1_0000_0000_0000_0000
                } else {
                    lease.worktree_id as int
                }
            ),
        )
    );
    assert(fields[2] == ("session_id"@, Json::Str(lease.session_id@)));
    assert(fields[3] == ("acquired_at"@, Json::Number(lease.acquired_at as int)));
    assert(fields[4] == ("renewed_at"@, Json::Number(lease.renewed_at as int)));
    assert(fields[5] == ("expires_at"@, Json::Number(lease.expires_at as int)));
    assert(fields[6] == ("state"@, Json::Str(lease.state@)));
    assert(text@ == json_text(value));
}

/// A ping is answered with who serves which repository and inventory, and with the minimum
/// age that the daemon was started with.
pub proof fn ping_is_answered_whole(
    pid: u32,
    root: &str,
    inventory_path: &str,
    identity: &str,
    minimum_age: i64,
    text: String,
)
    requires
        call_ensures(ping_result, (pid, root, inventory_path, identity, minimum_age), text),
    ensures
        exists|value: Json|
            text@ == #[trigger] json_text(value) && {
                &&& has_fields(value, 6)
                &&& tells(value, "status"@, Json::Str("ok"@))
                &&& tells(value, "pid"@, Json::Number(pid as int))
                &&& tells(value, "repository_root"@, Json::Str(root@))
                &&& tells(value, "inventory_path"@, Json::Str(inventory_path@))
                &&& tells(value, "inventory_identity"@, Json::Str(identity@))
                &&& tells(value, "minimum_cleanup_age_seconds"@, Json::Number(minimum_age as int))
            },
{
    let value = ping_json(pid, root@, inventory_path@, identity@, minimum_age);
    let fields = value->Object_0;
    assert(fields[0] == ("status"@, Json::Str("ok"@)));
    assert(fields[1] == ("pid"@, Json::Number(pid as int)));
    assert(fields[2] == ("repository_root"@, Json::Str(root@)));
    assert(fields[3] == ("inventory_path"@, Json::Str(inventory_path@)));
    assert(fields[4] == ("inventory_identity"@, Json::Str(identity@)));
    assert(fields[5] == ("minimum_cleanup_age_seconds"@, Json::Number(minimum_age as int)));
    assert(text@ == json_text(value));
}

/// The rows of worktrees are printed one by one and in order.
pub proof fn worktree_rows_are_printed_in_order(
    rows: &Vec<WorktreeRecord>,
    texts: Seq<String>,
    text: String,
)
    requires
        texts.len() == rows@.len(),
        forall|i: int|
            0 <= i < texts.len()
                ==> call_ensures(worktree_record_to_json, (&rows@[i],), #[trigger] texts[i]),
        call_ensures(worktrees_to_json, (rows,), text),
    ensures
        exists|values: Seq<Json>|
            text@ == json_text(Json::Array(values)) && values.len() == texts.len() && forall|
                i: int,
            | 0 <= i < values.len() ==> (#[trigger] texts[i])@ == json_text(values[i]),
{
    let values = views(rows@).map_values(|row: WorktreeRecordView| worktree_record_json(row));
    assert forall|i: int| 0 <= i < values.len() implies (#[trigger] texts[i])@ == json_text(
        values[i],
    ) by {
        assert(views(rows@)[i] == rows@[i]@);
    }
    assert(text@ == json_text(Json::Array(values)));
}

/// The rows of leases are printed one by one and in order.
pub proof fn lease_rows_are_printed_in_order(
    rows: &Vec<LeaseRecord>,
    texts: Seq<String>,
    text: String,
)
    requires
        texts.len() == rows@.len(),
        forall|i: int|
            0 <= i < texts.len() ==> call_ensures(lease_to_json, (&rows@[i],), #[trigger] texts[i]),
        call_ensures(leases_to_json, (rows,), text),
    ensures
        exists|values: Seq<Json>|
            text@ == json_text(Json::Array(values)) && values.len() == texts.len() && forall|
                i: int,
            | 0 <= i < values.len() ==> (#[trigger] texts[i])@ == json_text(values[i]),
{
    let values = views(rows@).map_values(|row: LeaseRecordView| lease_json(row));
    assert forall|i: int| 0 <= i < values.len() implies (#[trigger] texts[i])@ == json_text(
        values[i],
    ) by {
        assert(views(rows@)[i] == rows@[i]@);
    }
    assert(text@ == json_text(Json::Array(values)));
}

/// Candidates for cleanup are printed one by one and in order.
pub proof fn candidates_are_printed_in_order(
    rows: &Vec<CleanupCandidate>,
    texts: Seq<String>,
    text: String,
)
    requires
        texts.len() == rows@.len(),
        forall|i: int|
            0 <= i < texts.len()
                ==> call_ensures(CleanupCandidate::to_json, (&rows@[i],), #[trigger] texts[i]),
        call_ensures(candidates_to_json, (rows,), text),
    ensures
        exists|values: Seq<Json>|
            text@ == json_text(Json::Array(values)) && values.len() == texts.len() && forall|
                i: int,
            | 0 <= i < values.len() ==> (#[trigger] texts[i])@ == json_text(values[i]),
{
    let values = views(rows@).map_values(|row: CleanupCandidateView| candidate_json(row));
    assert forall|i: int| 0 <= i < values.len() implies (#[trigger] texts[i])@ == json_text(
        values[i],
    ) by {
        assert(views(rows@)[i] == rows@[i]@);
    }
    assert(text@ == json_text(Json::Array(values)));
}

/// A refresh is answered with the repository and its rows.
pub proof fn refresh_is_answered_whole(
    repository_id: i64,
    rows: &Vec<WorktreeRecord>,
    printed: String,
    text: String,
)
    requires
        call_ensures(worktrees_to_json, (rows,), printed),
        call_ensures(refresh_result, (repository_id, rows), text),
    ensures
        exists|value: Json, list: Json|
            text@ == #[trigger] json_text(value) && #[trigger] tells(value, "worktrees"@, list) && {
                &&& has_fields(value, 2)
                &&& tells(
                    value,
                    "repository_id"@,
                    Json::Number(
                        if repository_id < 0 {
                            repository_id + 0x1_0000_0000_0000_0000
                        } else {
                            repository_id as int
                        }
                    ),
                )
                &&& printed@ == json_text(list)
            },
{
    let value = refresh_json(repository_id, views(rows@));
    let list = worktrees_json(views(rows@));
    assert(
        value->Object_0[0] == (
            "repository_id"@,
            Json::Number(
                if repository_id < 0 {
                    repository_id + 0x1_0000_0000_0000_0000
                } else {
                    repository_id as int
                }
            ),
        )
    );
    assert(value->Object_0[1] == ("worktrees"@, list));
    assert(tells(value, "worktrees"@, list));
    assert(text@ == json_text(value));
}

/// A scan for cleanup is answered with the base and the age that it was made with, and
/// with every candidate.
pub proof fn cleanup_is_answered_whole(
    base: Option<&str>,
    minimum_age: i64,
    rows: &Vec<CleanupCandidate>,
    printed: String,
    text: String,
)
    requires
        call_ensures(candidates_to_json, (rows,), printed),
        call_ensures(cleanup_result, (base, minimum_age, rows), text),
    ensures
        exists|value: Json, list: Json|
            text@ == #[trigger] json_text(value) && #[trigger] tells(value, "candidates"@, list)
                && {
                &&& has_fields(value, 5)
                &&& tells(value, "schema_version"@, Json::Number(1))
                &&& tells(value, "operation"@, Json::Str("cleanup_scan"@))
                &&& tells(
                    value,
                    "base"@,
                    match slice_view(base) { Some(text) => Json::Str(text), None => Json::Null },
                )
                &&& tells(value, "minimum_age_seconds"@, Json::Number(minimum_age as int))
                &&& printed@ == json_text(list)
            },
{
    let value = cleanup_json(slice_view(base), minimum_age, views(rows@));
    let list = candidates_json(views(rows@));
    let fields = value->Object_0;
    assert(fields[0] == ("schema_version"@, Json::Number(1)));
    assert(fields[1] == ("operation"@, Json::Str("cleanup_scan"@)));
    assert(
        fields[2] == (
            "base"@,
            match slice_view(base) { Some(text) => Json::Str(text), None => Json::Null },
        )
    );
    assert(fields[3] == ("minimum_age_seconds"@, Json::Number(minimum_age as int)));
    assert(fields[4] == ("candidates"@, list));
    assert(tells(value, "candidates"@, list));
    assert(text@ == json_text(value));
}

/// A registration is answered with the session, with its lease where it has one, and with
/// whether it was registered before.
pub proof fn registration_is_answered_whole(
    result: &SessionResult,
    session: String,
    lease: String,
    text: String,
)
    requires
        call_ensures(session_to_json, (&result.session,), session),
        result.lease matches Some(row) ==> call_ensures(lease_to_json, (&row,), lease),
        call_ensures(session_result, (result,), text),
    ensures
        exists|value: Json, one: Json, other: Json|
            text@ == #[trigger] json_text(value) && #[trigger] tells(value, "session"@, one)
                && #[trigger] tells(value, "lease"@, other) && {
                &&& has_fields(value, 4)
                &&& tells(value, "session_id"@, Json::Str(result.session.id@))
                &&& tells(value, "already_registered"@, Json::Bool(result.already_registered))
                &&& session@ == json_text(one)
                &&& result.lease is Some ==> lease@ == json_text(other)
                &&& result.lease is None ==> other == Json::Null
            },
{
    let value = session_result_json(result@);
    let one = session_json(result@.session);
    let other = lease_or_null(result@.lease);
    let fields = value->Object_0;
    assert(fields[0] == ("session_id"@, Json::Str(result.session.id@)));
    assert(fields[1] == ("already_registered"@, Json::Bool(result.already_registered)));
    assert(fields[2] == ("session"@, one));
    assert(fields[3] == ("lease"@, other));
    assert(tells(value, "session"@, one));
    assert(tells(value, "lease"@, other));
    assert(text@ == json_text(value));
}

/// A heartbeat is answered with the session and with its lease where it has one.
pub proof fn heartbeat_is_answered_whole(
    result: &HeartbeatResult,
    session: String,
    lease: String,
    text: String,
)
    requires
        call_ensures(session_to_json, (&result.session,), session),
        result.lease matches Some(row) ==> call_ensures(lease_to_json, (&row,), lease),
        call_ensures(heartbeat_result, (result,), text),
    ensures
        exists|value: Json, one: Json, other: Json|
            text@ == #[trigger] json_text(value) && #[trigger] tells(value, "session"@, one)
                && #[trigger] tells(value, "lease"@, other) && {
                &&& has_fields(value, 2)
                &&& session@ == json_text(one)
                &&& result.lease is Some ==> lease@ == json_text(other)
                &&& result.lease is None ==> other == Json::Null
            },
{
    let value = heartbeat_result_json(result@);
    let one = session_json(result@.session);
    let other = lease_or_null(result@.lease);
    assert(value->Object_0[0] == ("session"@, one));
    assert(value->Object_0[1] == ("lease"@, other));
    assert(tells(value, "session"@, one));
    assert(tells(value, "lease"@, other));
    assert(text@ == json_text(value));
}

/// A lease that was acquired is answered with, and with whether it was held before; leases
/// that were released and a session that ended are answered with, too.
pub proof fn leases_are_answered_whole(
    result: &LeaseResult,
    lease: String,
    acquired: String,
    rows: &Vec<LeaseRecord>,
    printed: String,
    released: String,
    session: &Option<SessionRecord>,
    own: String,
    ended: String,
)
    requires
        call_ensures(lease_to_json, (&result.lease,), lease),
        call_ensures(lease_result, (result,), acquired),
        call_ensures(leases_to_json, (rows,), printed),
        call_ensures(leases_result, (rows,), released),
        session matches Some(row) ==> call_ensures(session_to_json, (&row,), own),
        call_ensures(ended_result, (session,), ended),
    ensures
        exists|value: Json, one: Json|
            acquired@ == #[trigger] json_text(value) && #[trigger] tells(value, "lease"@, one) && {
                &&& has_fields(value, 2)
                &&& tells(value, "already_active"@, Json::Bool(result.already_active))
                &&& lease@ == json_text(one)
            },
        exists|value: Json, list: Json|
            released@ == #[trigger] json_text(value) && #[trigger] tells(value, "leases"@, list)
                && has_fields(value, 1) && printed@ == json_text(list),
        exists|value: Json, one: Json|
            ended@ == #[trigger] json_text(value) && #[trigger] tells(value, "session"@, one)
                && has_fields(value, 1) && (session is Some ==> own@ == json_text(one)) && (session
                is None ==> one == Json::Null),
{
    let first = lease_result_json(result@);
    let one = lease_json(result@.lease);
    assert(first->Object_0[0] == ("already_active"@, Json::Bool(result.already_active)));
    assert(first->Object_0[1] == ("lease"@, one));
    assert(tells(first, "lease"@, one));
    assert(acquired@ == json_text(first));
    let second = leases_result_json(views(rows@));
    let list = leases_json(views(rows@));
    assert(second->Object_0[0] == ("leases"@, list));
    assert(tells(second, "leases"@, list));
    assert(released@ == json_text(second));
    let third = ended_result_json(option_view(*session));
    let other = session_or_null(option_view(*session));
    assert(third->Object_0[0] == ("session"@, other));
    assert(tells(third, "session"@, other));
    assert(ended@ == json_text(third));
}

/// A request that failed is answered with its identifier, where it has one, and with a
/// code and a message; the answer never claims success.
pub proof fn failure_is_answered_whole(
    request_id: Option<&str>,
    code: &str,
    message: &str,
    text: String,
)
    requires
        call_ensures(error_response, (request_id, code, message), text),
    ensures
        exists|value: Json, fault: Json|
            text@ == #[trigger] json_text(value) && #[trigger] tells(value, "error"@, fault) && {
                &&& has_fields(value, 4)
                &&& tells(value, "schema_version"@, Json::Number(1))
                &&& tells(
                    value,
                    "request_id"@,
                    match slice_view(request_id) {
                        Some(text) => Json::Str(text),
                        None => Json::Null,
                    },
                )
                &&& tells(value, "ok"@, Json::Bool(false))
                &&& has_fields(fault, 2)
                &&& tells(fault, "code"@, Json::Str(code@))
                &&& tells(fault, "message"@, Json::Str(message@))
            },
{
    let value = error_json(slice_view(request_id), code@, message@);
    let fault = fault_json(code@, message@);
    let fields = value->Object_0;
    assert(fields[0] == ("schema_version"@, Json::Number(1)));
    assert(
        fields[1] == (
            "request_id"@,
            match slice_view(request_id) { Some(text) => Json::Str(text), None => Json::Null },
        )
    );
    assert(fields[2] == ("ok"@, Json::Bool(false)));
    assert(fields[3] == ("error"@, fault));
    assert(fault->Object_0[0] == ("code"@, Json::Str(code@)));
    assert(fault->Object_0[1] == ("message"@, Json::Str(message@)));
    assert(tells(value, "error"@, fault));
    assert(text@ == json_text(value));
}

} // verus!
