//! Rows of the inventory and results of the service, as the daemon prints them.

use crate::inventory::records::LeaseRecord;
use crate::inventory::records::LeaseRecordView;
use crate::inventory::records::SessionRecord;
use crate::inventory::records::SessionRecordView;
use crate::inventory::records::WorktreeRecord;
use crate::inventory::records::WorktreeRecordView;
use crate::json::value::Json;
use crate::json::writer::Object;
use crate::json::writer::array;
use crate::json::writer::field_texts;
use crate::json::writer::item_texts;
use crate::json::writer::json_text;
use crate::json::writer::lemma_field_texts;
use crate::json::writer::lemma_item_texts;
use crate::json::writer::signed_or_null;
use crate::json::writer::slice_view;
use crate::json::writer::string;
use crate::json::writer::text_or_null;
use crate::service::types::CleanupCandidate;
use crate::service::types::CleanupCandidateView;
use crate::service::types::HeartbeatResult;
use crate::service::types::HeartbeatResultView;
use crate::service::types::LeaseResult;
use crate::service::types::LeaseResultView;
use crate::service::types::SessionResult;
use crate::service::types::SessionResultView;
use crate::service::types::as_unsigned;
use crate::service::types::unsigned_bits;
use crate::text::as_slice;
use crate::text::option_view;
use crate::text::views;
use vstd::prelude::*;

verus! {

/// A worktree as JSON.
pub open spec fn worktree_record_json(record: WorktreeRecordView) -> Json {
    Json::Object(
        seq![
            ("id"@, Json::Number(unsigned_bits(record.id))),
            ("repository_id"@, Json::Number(unsigned_bits(record.repository_id))),
            ("path"@, Json::Str(record.path)),
            ("branch"@, text_or_null(record.branch)),
            ("head"@, text_or_null(record.head)),
            ("git_state"@, Json::Str(record.git_state)),
            ("lifecycle_state"@, Json::Str(record.lifecycle_state)),
            ("first_seen_at"@, Json::Number(record.first_seen_at as int)),
            ("created_at"@, signed_or_null(record.created_at)),
            ("last_seen_at"@, Json::Number(record.last_seen_at as int)),
            ("archived_at"@, signed_or_null(record.archived_at)),
            ("removed_at"@, signed_or_null(record.removed_at)),
        ],
    )
}

/// A worktree as JSON.
pub fn worktree_record_to_json(record: &WorktreeRecord) -> (text: String)
    ensures
        text@ == json_text(worktree_record_json(record@)),
{
    let object = Object::new()
        .number("id", as_unsigned(record.id))
        .number("repository_id", as_unsigned(record.repository_id))
        .string("path", &record.path)
        .optional_string("branch", as_slice(&record.branch))
        .optional_string("head", as_slice(&record.head))
        .string("git_state", &record.git_state)
        .string("lifecycle_state", &record.lifecycle_state)
        .signed_number("first_seen_at", record.first_seen_at)
        .optional_signed_number("created_at", record.created_at)
        .signed_number("last_seen_at", record.last_seen_at)
        .optional_signed_number("archived_at", record.archived_at)
        .optional_signed_number("removed_at", record.removed_at);
    proof {
        let fields = worktree_record_json(record@)->Object_0;
        lemma_field_texts(fields);
        assert(object@ =~= field_texts(fields));
    }
    object.finish()
}

/// A session as JSON.
pub open spec fn session_json(session: SessionRecordView) -> Json {
    Json::Object(
        seq![
            ("id"@, Json::Str(session.id)),
            ("worktree_id"@, Json::Number(unsigned_bits(session.worktree_id))),
            ("provider"@, Json::Str(session.provider)),
            ("provider_session_id"@, text_or_null(session.provider_session_id)),
            ("pid"@, signed_or_null(session.pid)),
            ("process_started_at"@, signed_or_null(session.process_started_at)),
            ("terminal_metadata"@, text_or_null(session.terminal_metadata)),
            ("state"@, Json::Str(session.state)),
            ("created_at"@, Json::Number(session.created_at as int)),
            ("last_seen_at"@, Json::Number(session.last_seen_at as int)),
        ],
    )
}

/// A session as JSON.
pub fn session_to_json(session: &SessionRecord) -> (text: String)
    ensures
        text@ == json_text(session_json(session@)),
{
    let object = Object::new()
        .string("id", &session.id)
        .number("worktree_id", as_unsigned(session.worktree_id))
        .string("provider", &session.provider)
        .optional_string("provider_session_id", as_slice(&session.provider_session_id))
        .optional_signed_number("pid", session.pid)
        .optional_signed_number("process_started_at", session.process_started_at)
        .optional_string("terminal_metadata", as_slice(&session.terminal_metadata))
        .string("state", &session.state)
        .signed_number("created_at", session.created_at)
        .signed_number("last_seen_at", session.last_seen_at);
    proof {
        let fields = session_json(session@)->Object_0;
        lemma_field_texts(fields);
        assert(object@ =~= field_texts(fields));
    }
    object.finish()
}

/// A lease as JSON.
pub open spec fn lease_json(lease: LeaseRecordView) -> Json {
    Json::Object(
        seq![
            ("id"@, Json::Number(unsigned_bits(lease.id))),
            ("worktree_id"@, Json::Number(unsigned_bits(lease.worktree_id))),
            ("session_id"@, Json::Str(lease.session_id)),
            ("acquired_at"@, Json::Number(lease.acquired_at as int)),
            ("renewed_at"@, Json::Number(lease.renewed_at as int)),
            ("expires_at"@, Json::Number(lease.expires_at as int)),
            ("state"@, Json::Str(lease.state)),
        ],
    )
}

/// A lease as JSON.
pub fn lease_to_json(lease: &LeaseRecord) -> (text: String)
    ensures
        text@ == json_text(lease_json(lease@)),
{
    let object = Object::new()
        .number("id", as_unsigned(lease.id))
        .number("worktree_id", as_unsigned(lease.worktree_id))
        .string("session_id", &lease.session_id)
        .signed_number("acquired_at", lease.acquired_at)
        .signed_number("renewed_at", lease.renewed_at)
        .signed_number("expires_at", lease.expires_at)
        .string("state", &lease.state);
    proof {
        let fields = lease_json(lease@)->Object_0;
        lemma_field_texts(fields);
        assert(object@ =~= field_texts(fields));
    }
    object.finish()
}

/// Worktrees as JSON.
pub open spec fn worktrees_json(rows: Seq<WorktreeRecordView>) -> Json {
    Json::Array(rows.map_values(|row: WorktreeRecordView| worktree_record_json(row)))
}

/// Worktrees as JSON.
pub fn worktrees_to_json(rows: &Vec<WorktreeRecord>) -> (text: String)
    ensures
        text@ == json_text(worktrees_json(views(rows@))),
{
    let mut printed: Vec<String> = Vec::new();
    let mut i: usize = 0;
    while i < rows.len()
        invariant
            i <= rows.len(),
            printed@.len() == i,
            forall|j: int|
                0 <= j < i ==> (#[trigger] printed@[j])@ == json_text(
                    worktree_record_json(rows@[j]@)
                ),
        decreases rows.len() - i,
    {
        printed.push(worktree_record_to_json(&rows[i]));
        i += 1;
    }
    proof {
        let items = views(rows@).map_values(|row: WorktreeRecordView| worktree_record_json(row));
        lemma_item_texts(items);
        assert(views(printed@) =~= item_texts(items));
    }
    array(printed)
}

/// Leases as JSON.
pub open spec fn leases_json(rows: Seq<LeaseRecordView>) -> Json {
    Json::Array(rows.map_values(|row: LeaseRecordView| lease_json(row)))
}

/// Leases as JSON.
pub fn leases_to_json(rows: &Vec<LeaseRecord>) -> (text: String)
    ensures
        text@ == json_text(leases_json(views(rows@))),
{
    let mut printed: Vec<String> = Vec::new();
    let mut i: usize = 0;
    while i < rows.len()
        invariant
            i <= rows.len(),
            printed@.len() == i,
            forall|j: int|
                0 <= j < i ==> (#[trigger] printed@[j])@ == json_text(lease_json(rows@[j]@)),
        decreases rows.len() - i,
    {
        printed.push(lease_to_json(&rows[i]));
        i += 1;
    }
    proof {
        let items = views(rows@).map_values(|row: LeaseRecordView| lease_json(row));
        lemma_item_texts(items);
        assert(views(printed@) =~= item_texts(items));
    }
    array(printed)
}

/// A candidate for cleanup as JSON.
pub open spec fn candidate_json(candidate: CleanupCandidateView) -> Json {
    candidate.json()
}

/// Candidates for cleanup as JSON.
pub open spec fn candidates_json(rows: Seq<CleanupCandidateView>) -> Json {
    Json::Array(rows.map_values(|row: CleanupCandidateView| candidate_json(row)))
}

/// Candidates for cleanup as JSON.
pub fn candidates_to_json(rows: &Vec<CleanupCandidate>) -> (text: String)
    ensures
        text@ == json_text(candidates_json(views(rows@))),
{
    let mut printed: Vec<String> = Vec::new();
    let mut i: usize = 0;
    while i < rows.len()
        invariant
            i <= rows.len(),
            printed@.len() == i,
            forall|j: int|
                0 <= j < i ==> (#[trigger] printed@[j])@ == json_text(candidate_json(rows@[j]@)),
        decreases rows.len() - i,
    {
        printed.push(rows[i].to_json());
        i += 1;
    }
    proof {
        let items = views(rows@).map_values(|row: CleanupCandidateView| candidate_json(row));
        lemma_item_texts(items);
        assert(views(printed@) =~= item_texts(items));
    }
    array(printed)
}

/// A lease as JSON, or `null`.
pub open spec fn lease_or_null(row: Option<LeaseRecordView>) -> Json {
    match row {
        Some(inner) => lease_json(inner),
        None => Json::Null,
    }
}

fn print_lease(row: &Option<LeaseRecord>) -> (text: String)
    ensures
        text@ == json_text(lease_or_null(option_view(*row))),
{
    match row {
        Some(inner) => lease_to_json(inner),
        None => "null".to_owned(),
    }
}

/// A session as JSON, or `null`.
pub open spec fn session_or_null(row: Option<SessionRecordView>) -> Json {
    match row {
        Some(inner) => session_json(inner),
        None => Json::Null,
    }
}

fn print_session(row: &Option<SessionRecord>) -> (text: String)
    ensures
        text@ == json_text(session_or_null(option_view(*row))),
{
    match row {
        Some(inner) => session_to_json(inner),
        None => "null".to_owned(),
    }
}

/// What the daemon answers to a ping.
pub open spec fn ping_json(
    pid: u32,
    repository_root: Seq<char>,
    inventory_path: Seq<char>,
    inventory_identity: Seq<char>,
    minimum_age: i64,
) -> Json {
    Json::Object(
        seq![
            ("status"@, Json::Str("ok"@)),
            ("pid"@, Json::Number(pid as int)),
            ("repository_root"@, Json::Str(repository_root)),
            ("inventory_path"@, Json::Str(inventory_path)),
            ("inventory_identity"@, Json::Str(inventory_identity)),
            ("minimum_cleanup_age_seconds"@, Json::Number(minimum_age as int)),
        ],
    )
}

/// What the daemon answers to a ping.
pub fn ping_result(
    pid: u32,
    repository_root: &str,
    inventory_path: &str,
    inventory_identity: &str,
    minimum_age: i64,
) -> (text: String)
    ensures
        text@ == json_text(
            ping_json(pid, repository_root@, inventory_path@, inventory_identity@, minimum_age)
        ),
{
    let object = Object::new()
        .string("status", "ok")
        .number("pid", pid as u64)
        .string("repository_root", repository_root)
        .string("inventory_path", inventory_path)
        .string("inventory_identity", inventory_identity)
        .signed_number("minimum_cleanup_age_seconds", minimum_age);
    proof {
        let fields = ping_json(
            pid,
            repository_root@,
            inventory_path@,
            inventory_identity@,
            minimum_age,
        )->Object_0;
        lemma_field_texts(fields);
        assert(object@ =~= field_texts(fields));
    }
    object.finish()
}

/// What the daemon answers when the inventory was reconciled.
pub open spec fn refresh_json(repository_id: i64, worktrees: Seq<WorktreeRecordView>) -> Json {
    Json::Object(
        seq![
            ("repository_id"@, Json::Number(unsigned_bits(repository_id))),
            ("worktrees"@, worktrees_json(worktrees)),
        ],
    )
}

/// What the daemon answers when the inventory was reconciled.
pub fn refresh_result(repository_id: i64, worktrees: &Vec<WorktreeRecord>) -> (text: String)
    ensures
        text@ == json_text(refresh_json(repository_id, views(worktrees@))),
{
    let object = Object::new()
        .number("repository_id", as_unsigned(repository_id))
        .raw("worktrees", worktrees_to_json(worktrees));
    proof {
        let fields = refresh_json(repository_id, views(worktrees@))->Object_0;
        lemma_field_texts(fields);
        assert(object@ =~= field_texts(fields));
    }
    object.finish()
}

/// What the daemon answers to a scan for cleanup.
pub open spec fn cleanup_json(
    base: Option<Seq<char>>,
    minimum_age: i64,
    candidates: Seq<CleanupCandidateView>,
) -> Json {
    Json::Object(
        seq![
            ("schema_version"@, Json::Number(1)),
            ("operation"@, Json::Str("cleanup_scan"@)),
            ("base"@, text_or_null(base)),
            ("minimum_age_seconds"@, Json::Number(minimum_age as int)),
            ("candidates"@, candidates_json(candidates)),
        ],
    )
}

/// What the daemon answers to a scan for cleanup.
pub fn cleanup_result(
    base: Option<&str>,
    minimum_age: i64,
    candidates: &Vec<CleanupCandidate>,
) -> (text: String)
    ensures
        text@ == json_text(cleanup_json(slice_view(base), minimum_age, views(candidates@))),
{
    let object = Object::new()
        .number("schema_version", 1)
        .string("operation", "cleanup_scan")
        .optional_string("base", base)
        .signed_number("minimum_age_seconds", minimum_age)
        .raw("candidates", candidates_to_json(candidates));
    proof {
        let fields = cleanup_json(slice_view(base), minimum_age, views(candidates@))->Object_0;
        lemma_field_texts(fields);
        assert(object@ =~= field_texts(fields));
    }
    object.finish()
}

/// What the daemon answers when a session was registered.
pub open spec fn session_result_json(result: SessionResultView) -> Json {
    Json::Object(
        seq![
            ("session_id"@, Json::Str(result.session.id)),
            ("already_registered"@, Json::Bool(result.already_registered)),
            ("session"@, session_json(result.session)),
            ("lease"@, lease_or_null(result.lease)),
        ],
    )
}

/// What the daemon answers when a session was registered.
pub fn session_result(result: &SessionResult) -> (text: String)
    ensures
        text@ == json_text(session_result_json(result@)),
{
    let object = Object::new()
        .string("session_id", &result.session.id)
        .bool("already_registered", result.already_registered)
        .raw("session", session_to_json(&result.session))
        .raw("lease", print_lease(&result.lease));
    proof {
        let fields = session_result_json(result@)->Object_0;
        lemma_field_texts(fields);
        assert(object@ =~= field_texts(fields));
    }
    object.finish()
}

/// What the daemon answers to a heartbeat.
pub open spec fn heartbeat_result_json(result: HeartbeatResultView) -> Json {
    Json::Object(
        seq![
            ("session"@, session_json(result.session)),
            ("lease"@, lease_or_null(result.lease)),
        ],
    )
}

/// What the daemon answers to a heartbeat.
pub fn heartbeat_result(result: &HeartbeatResult) -> (text: String)
    ensures
        text@ == json_text(heartbeat_result_json(result@)),
{
    let object = Object::new()
        .raw("session", session_to_json(&result.session))
        .raw("lease", print_lease(&result.lease));
    proof {
        let fields = heartbeat_result_json(result@)->Object_0;
        lemma_field_texts(fields);
        assert(object@ =~= field_texts(fields));
    }
    object.finish()
}

/// What the daemon answers when a lease was acquired.
pub open spec fn lease_result_json(result: LeaseResultView) -> Json {
    Json::Object(
        seq![
            ("already_active"@, Json::Bool(result.already_active)),
            ("lease"@, lease_json(result.lease)),
        ],
    )
}

/// What the daemon answers when a lease was acquired.
pub fn lease_result(result: &LeaseResult) -> (text: String)
    ensures
        text@ == json_text(lease_result_json(result@)),
{
    let object = Object::new()
        .bool("already_active", result.already_active)
        .raw("lease", lease_to_json(&result.lease));
    proof {
        let fields = lease_result_json(result@)->Object_0;
        lemma_field_texts(fields);
        assert(object@ =~= field_texts(fields));
    }
    object.finish()
}

/// What the daemon answers when leases were released.
pub open spec fn leases_result_json(leases: Seq<LeaseRecordView>) -> Json {
    Json::Object(
        seq![
            ("leases"@, leases_json(leases)),
        ],
    )
}

/// What the daemon answers when leases were released.
pub fn leases_result(leases: &Vec<LeaseRecord>) -> (text: String)
    ensures
        text@ == json_text(leases_result_json(views(leases@))),
{
    let object = Object::new()
        .raw("leases", leases_to_json(leases));
    proof {
        let fields = leases_result_json(views(leases@))->Object_0;
        lemma_field_texts(fields);
        assert(object@ =~= field_texts(fields));
    }
    object.finish()
}

/// What the daemon answers when a session ended.
pub open spec fn ended_result_json(session: Option<SessionRecordView>) -> Json {
    Json::Object(
        seq![
            ("session"@, session_or_null(session)),
        ],
    )
}

/// What the daemon answers when a session ended.
pub fn ended_result(session: &Option<SessionRecord>) -> (text: String)
    ensures
        text@ == json_text(ended_result_json(option_view(*session))),
{
    let object = Object::new()
        .raw("session", print_session(session));
    proof {
        let fields = ended_result_json(option_view(*session))->Object_0;
        lemma_field_texts(fields);
        assert(object@ =~= field_texts(fields));
    }
    object.finish()
}

} // verus!
