//! Requests to the service and the results it gives.

use crate::git::worktree::GitWorktree;
use crate::git::worktree::GitWorktreeView;
use crate::inventory::records::LeaseRecord;
use crate::inventory::records::LeaseRecordView;
use crate::inventory::records::SessionRecord;
use crate::inventory::records::SessionRecordView;
use crate::inventory::records::WorktreeRecord;
use crate::inventory::records::WorktreeRecordView;
use crate::json::value::Json;
use crate::json::writer::array;
use crate::json::writer::field_texts;
use crate::json::writer::item_texts;
use crate::json::writer::json_text;
use crate::json::writer::lemma_field_texts;
use crate::json::writer::lemma_item_texts;
use crate::json::writer::string;
use crate::json::writer::text_or_null;
use crate::json::writer::Object;
use crate::text::as_slice;
use crate::text::copy_option;
use crate::text::copy_texts;
use crate::text::option_view;
use crate::text::views;
use vstd::prelude::*;

verus! {

/// The bits of a signed number read as an unsigned one.
pub open spec fn unsigned_bits(number: i64) -> int {
    if number < 0 {
        number + 0x1_0000_0000_0000_0000
    } else {
        number as int
    }
}

/// The bits of a signed number read as an unsigned one.
pub fn as_unsigned(number: i64) -> (bits: u64)
    ensures
        bits == unsigned_bits(number),
{
    if number >= 0 {
        number as u64
    } else {
        u64::MAX - (-(number + 1)) as u64
    }
}

/// Texts as JSON.
pub open spec fn texts_json(texts: Seq<Seq<char>>) -> Json {
    Json::Array(texts.map_values(|text: Seq<char>| Json::Str(text)))
}

/// Prints texts as JSON.
pub fn texts_to_json(texts: &Vec<String>) -> (text: String)
    ensures
        text@ == json_text(texts_json(views(texts@))),
{
    let mut printed: Vec<String> = Vec::new();
    let mut i: usize = 0;
    while i < texts.len()
        invariant
            i <= texts.len(),
            printed@.len() == i,
            forall|j: int|
                0 <= j < i ==> (#[trigger] printed@[j])@ == json_text(Json::Str(texts@[j]@)),
        decreases texts.len() - i,
    {
        printed.push(string(&texts[i]));
        i += 1;
    }
    proof {
        let items = views(texts@).map_values(|text: Seq<char>| Json::Str(text));
        lemma_item_texts(items);
        assert(views(printed@) =~= item_texts(items));
    }
    array(printed)
}

/// A path as it was asked for, and where it leads once links are followed.
#[derive(Debug, PartialEq, Eq)]
pub struct Place {
    pub path: String,
    pub resolved_path: String,
}

/// The view of a [`Place`].
#[verifier::ext_equal]
pub struct PlaceView {
    pub path: Seq<char>,
    pub resolved_path: Seq<char>,
}

impl View for Place {
    type V = PlaceView;

    open spec fn view(&self) -> PlaceView {
        PlaceView {
            path: self.path@,
            resolved_path: self.resolved_path@,
        }
    }
}

impl Clone for Place {
    fn clone(&self) -> (copy: Self)
        ensures
            copy@ == self@,
    {
        Place {
            path: self.path.clone(),
            resolved_path: self.resolved_path.clone(),
        }
    }
}

/// A worktree to create.
#[derive(Debug, PartialEq, Eq)]
pub struct CreateRequest {
    pub branch: String,
    pub base: Option<String>,
    pub path: Option<String>,
    pub idempotency_key: Option<String>,
    pub actor: String,
}

/// The view of a [`CreateRequest`].
#[verifier::ext_equal]
pub struct CreateRequestView {
    pub branch: Seq<char>,
    pub base: Option<Seq<char>>,
    pub path: Option<Seq<char>>,
    pub idempotency_key: Option<Seq<char>>,
    pub actor: Seq<char>,
}

impl View for CreateRequest {
    type V = CreateRequestView;

    open spec fn view(&self) -> CreateRequestView {
        CreateRequestView {
            branch: self.branch@,
            base: option_view(self.base),
            path: option_view(self.path),
            idempotency_key: option_view(self.idempotency_key),
            actor: self.actor@,
        }
    }
}

impl Clone for CreateRequest {
    fn clone(&self) -> (copy: Self)
        ensures
            copy@ == self@,
    {
        CreateRequest {
            branch: self.branch.clone(),
            base: copy_option(&self.base),
            path: copy_option(&self.path),
            idempotency_key: copy_option(&self.idempotency_key),
            actor: self.actor.clone(),
        }
    }
}

impl CreateRequest {
    /// A worktree for a branch, with everything else left open.
    pub fn new(branch: &str) -> (request: CreateRequest)
        ensures
            request@ == (CreateRequestView {
                branch: branch@,
                base: None,
                path: None,
                idempotency_key: None,
                actor: "cli"@,
            }),
    {
        CreateRequest {
            branch: branch.to_owned(),
            base: None,
            path: None,
            idempotency_key: None,
            actor: "cli".to_owned(),
        }
    }
}

/// A worktree that was created, or that was there already.
#[derive(Debug, PartialEq, Eq)]
pub struct CreateResult {
    pub worktree: GitWorktree,
    pub record: WorktreeRecord,
    pub already_existed: bool,
}

/// The view of a [`CreateResult`].
#[verifier::ext_equal]
pub struct CreateResultView {
    pub worktree: GitWorktreeView,
    pub record: WorktreeRecordView,
    pub already_existed: bool,
}

impl View for CreateResult {
    type V = CreateResultView;

    open spec fn view(&self) -> CreateResultView {
        CreateResultView {
            worktree: self.worktree@,
            record: self.record@,
            already_existed: self.already_existed,
        }
    }
}

impl Clone for CreateResult {
    fn clone(&self) -> (copy: Self)
        ensures
            copy@ == self@,
    {
        CreateResult {
            worktree: self.worktree.clone(),
            record: self.record.clone(),
            already_existed: self.already_existed,
        }
    }
}

impl CreateResultView {
    /// The result as JSON.
    pub open spec fn json(self) -> Json {
        Json::Object(
            seq![
                ("schema_version"@, Json::Number(1)),
                ("operation"@, Json::Str("create"@)),
                ("already_existed"@, Json::Bool(self.already_existed)),
                ("path"@, Json::Str(self.worktree.path)),
                ("branch"@, text_or_null(self.worktree.branch)),
                ("head"@, text_or_null(self.worktree.head)),
                ("lifecycle_state"@, Json::Str(self.record.lifecycle_state)),
            ],
        )
    }
}

impl CreateResult {
    /// Prints the result as JSON.
    pub fn to_json(&self) -> (text: String)
        ensures
            text@ == json_text(self@.json()),
    {
        let object = Object::new().number("schema_version", 1).string("operation", "create").bool(
            "already_existed",
            self.already_existed,
        ).string("path", &self.worktree.path).optional_string(
            "branch",
            as_slice(&self.worktree.branch),
        ).optional_string("head", as_slice(&self.worktree.head)).string(
            "lifecycle_state",
            &self.record.lifecycle_state,
        );
        proof {
            let fields = self@.json()->Object_0;
            lemma_field_texts(fields);
            assert(object@ =~= field_texts(fields));
        }
        object.finish()
    }
}

/// A worktree that was locked or unlocked.
#[derive(Debug, PartialEq, Eq)]
pub struct LockResult {
    pub worktree: GitWorktree,
    pub already_in_requested_state: bool,
}

/// The view of a [`LockResult`].
#[verifier::ext_equal]
pub struct LockResultView {
    pub worktree: GitWorktreeView,
    pub already_in_requested_state: bool,
}

impl View for LockResult {
    type V = LockResultView;

    open spec fn view(&self) -> LockResultView {
        LockResultView {
            worktree: self.worktree@,
            already_in_requested_state: self.already_in_requested_state,
        }
    }
}

impl Clone for LockResult {
    fn clone(&self) -> (copy: Self)
        ensures
            copy@ == self@,
    {
        LockResult {
            worktree: self.worktree.clone(),
            already_in_requested_state: self.already_in_requested_state,
        }
    }
}

impl LockResultView {
    /// The result as JSON.
    pub open spec fn json(self, operation: Seq<char>) -> Json {
        Json::Object(
            seq![
                ("schema_version"@, Json::Number(1)),
                ("operation"@, Json::Str(operation)),
                ("already_in_requested_state"@, Json::Bool(self.already_in_requested_state)),
                ("path"@, Json::Str(self.worktree.path)),
                ("branch"@, text_or_null(self.worktree.branch)),
                ("locked"@, Json::Bool(self.worktree.locked)),
                ("lock_reason"@, text_or_null(self.worktree.lock_reason)),
            ],
        )
    }
}

impl LockResult {
    /// Prints the result as JSON.
    pub fn to_json(&self, operation: &str) -> (text: String)
        ensures
            text@ == json_text(self@.json(operation@)),
    {
        let object = Object::new().number("schema_version", 1).string("operation", operation).bool(
            "already_in_requested_state",
            self.already_in_requested_state,
        ).string("path", &self.worktree.path).optional_string(
            "branch",
            as_slice(&self.worktree.branch),
        ).bool("locked", self.worktree.locked).optional_string(
            "lock_reason",
            as_slice(&self.worktree.lock_reason),
        );
        proof {
            let fields = self@.json(operation@)->Object_0;
            lemma_field_texts(fields);
            assert(object@ =~= field_texts(fields));
        }
        object.finish()
    }
}

/// A worktree, and what stands against removing it.
#[derive(Debug, PartialEq, Eq)]
pub struct CleanupCandidate {
    pub worktree_id: Option<i64>,
    pub path: String,
    pub branch: Option<String>,
    pub classification: String,
    pub blockers: Vec<String>,
    pub reclaimable_bytes: u64,
}

/// The view of a [`CleanupCandidate`].
#[verifier::ext_equal]
pub struct CleanupCandidateView {
    pub worktree_id: Option<i64>,
    pub path: Seq<char>,
    pub branch: Option<Seq<char>>,
    pub classification: Seq<char>,
    pub blockers: Seq<Seq<char>>,
    pub reclaimable_bytes: u64,
}

impl View for CleanupCandidate {
    type V = CleanupCandidateView;

    open spec fn view(&self) -> CleanupCandidateView {
        CleanupCandidateView {
            worktree_id: self.worktree_id,
            path: self.path@,
            branch: option_view(self.branch),
            classification: self.classification@,
            blockers: views(self.blockers@),
            reclaimable_bytes: self.reclaimable_bytes,
        }
    }
}

impl Clone for CleanupCandidate {
    fn clone(&self) -> (copy: Self)
        ensures
            copy@ == self@,
    {
        CleanupCandidate {
            worktree_id: self.worktree_id,
            path: self.path.clone(),
            branch: copy_option(&self.branch),
            classification: self.classification.clone(),
            blockers: copy_texts(&self.blockers),
            reclaimable_bytes: self.reclaimable_bytes,
        }
    }
}

/// An identifier as JSON, by its bits.
pub open spec fn id_or_null(id: Option<i64>) -> Json {
    match id {
        Some(number) => Json::Number(unsigned_bits(number)),
        None => Json::Null,
    }
}

impl CleanupCandidateView {
    /// The candidate as JSON.
    pub open spec fn json(self) -> Json {
        Json::Object(
            seq![
                ("worktree_id"@, id_or_null(self.worktree_id)),
                ("path"@, Json::Str(self.path)),
                ("branch"@, text_or_null(self.branch)),
                ("classification"@, Json::Str(self.classification)),
                ("blockers"@, texts_json(self.blockers)),
                ("reclaimable_bytes"@, Json::Number(self.reclaimable_bytes as int)),
            ],
        )
    }
}

impl CleanupCandidate {
    /// Prints the candidate as JSON.
    pub fn to_json(&self) -> (text: String)
        ensures
            text@ == json_text(self@.json()),
    {
        let id = match self.worktree_id {
            Some(number) => Some(as_unsigned(number)),
            None => None,
        };
        let blockers = texts_to_json(&self.blockers);
        let object = Object::new().optional_number("worktree_id", id).string(
            "path",
            &self.path,
        ).optional_string("branch", as_slice(&self.branch)).string(
            "classification",
            &self.classification,
        ).raw("blockers", blockers).number("reclaimable_bytes", self.reclaimable_bytes);
        proof {
            let fields = self@.json()->Object_0;
            lemma_field_texts(fields);
            assert(object@ =~= field_texts(fields));
        }
        object.finish()
    }
}

/// A worktree that was removed.
#[derive(Debug, PartialEq, Eq)]
pub struct RemoveResult {
    pub path: String,
    pub branch: Option<String>,
    pub branch_deleted: bool,
}

/// The view of a [`RemoveResult`].
#[verifier::ext_equal]
pub struct RemoveResultView {
    pub path: Seq<char>,
    pub branch: Option<Seq<char>>,
    pub branch_deleted: bool,
}

impl View for RemoveResult {
    type V = RemoveResultView;

    open spec fn view(&self) -> RemoveResultView {
        RemoveResultView {
            path: self.path@,
            branch: option_view(self.branch),
            branch_deleted: self.branch_deleted,
        }
    }
}

impl Clone for RemoveResult {
    fn clone(&self) -> (copy: Self)
        ensures
            copy@ == self@,
    {
        RemoveResult {
            path: self.path.clone(),
            branch: copy_option(&self.branch),
            branch_deleted: self.branch_deleted,
        }
    }
}

impl RemoveResultView {
    /// The result as JSON.
    pub open spec fn json(self) -> Json {
        Json::Object(
            seq![
                ("schema_version"@, Json::Number(1)),
                ("operation"@, Json::Str("remove"@)),
                ("path"@, Json::Str(self.path)),
                ("branch"@, text_or_null(self.branch)),
                ("branch_deleted"@, Json::Bool(self.branch_deleted)),
            ],
        )
    }
}

impl RemoveResult {
    /// Prints the result as JSON.
    pub fn to_json(&self) -> (text: String)
        ensures
            text@ == json_text(self@.json()),
    {
        let object = Object::new().number("schema_version", 1).string("operation", "remove").string(
            "path",
            &self.path,
        ).optional_string("branch", as_slice(&self.branch)).bool(
            "branch_deleted",
            self.branch_deleted,
        );
        proof {
            let fields = self@.json()->Object_0;
            lemma_field_texts(fields);
            assert(object@ =~= field_texts(fields));
        }
        object.finish()
    }
}

/// A session to register.
#[derive(Debug, PartialEq, Eq)]
pub struct RegisterSessionRequest {
    pub session_id: String,
    pub worktree: String,
    pub provider: String,
    pub provider_session_id: Option<String>,
    pub pid: Option<i64>,
    pub process_started_at: Option<i64>,
    pub terminal_metadata: Option<String>,
    pub lease_ttl_seconds: Option<i64>,
    pub actor: String,
}

/// The view of a [`RegisterSessionRequest`].
#[verifier::ext_equal]
pub struct RegisterSessionRequestView {
    pub session_id: Seq<char>,
    pub worktree: Seq<char>,
    pub provider: Seq<char>,
    pub provider_session_id: Option<Seq<char>>,
    pub pid: Option<i64>,
    pub process_started_at: Option<i64>,
    pub terminal_metadata: Option<Seq<char>>,
    pub lease_ttl_seconds: Option<i64>,
    pub actor: Seq<char>,
}

impl View for RegisterSessionRequest {
    type V = RegisterSessionRequestView;

    open spec fn view(&self) -> RegisterSessionRequestView {
        RegisterSessionRequestView {
            session_id: self.session_id@,
            worktree: self.worktree@,
            provider: self.provider@,
            provider_session_id: option_view(self.provider_session_id),
            pid: self.pid,
            process_started_at: self.process_started_at,
            terminal_metadata: option_view(self.terminal_metadata),
            lease_ttl_seconds: self.lease_ttl_seconds,
            actor: self.actor@,
        }
    }
}

impl Clone for RegisterSessionRequest {
    fn clone(&self) -> (copy: Self)
        ensures
            copy@ == self@,
    {
        RegisterSessionRequest {
            session_id: self.session_id.clone(),
            worktree: self.worktree.clone(),
            provider: self.provider.clone(),
            provider_session_id: copy_option(&self.provider_session_id),
            pid: self.pid,
            process_started_at: self.process_started_at,
            terminal_metadata: copy_option(&self.terminal_metadata),
            lease_ttl_seconds: self.lease_ttl_seconds,
            actor: self.actor.clone(),
        }
    }
}

impl RegisterSessionRequest {
    /// A terminal session in a worktree, with everything else left open.
    pub fn new(session_id: &str, worktree: &str) -> (request: RegisterSessionRequest)
        ensures
            request@ == (RegisterSessionRequestView {
                session_id: session_id@,
                worktree: worktree@,
                provider: "terminal"@,
                provider_session_id: None,
                pid: None,
                process_started_at: None,
                terminal_metadata: None,
                lease_ttl_seconds: None,
                actor: "daemon"@,
            }),
    {
        RegisterSessionRequest {
            session_id: session_id.to_owned(),
            worktree: worktree.to_owned(),
            provider: "terminal".to_owned(),
            provider_session_id: None,
            pid: None,
            process_started_at: None,
            terminal_metadata: None,
            lease_ttl_seconds: None,
            actor: "daemon".to_owned(),
        }
    }
}

/// A session that was registered.
#[derive(Debug, PartialEq, Eq)]
pub struct SessionResult {
    pub session: SessionRecord,
    pub lease: Option<LeaseRecord>,
    pub already_registered: bool,
}

/// The view of a [`SessionResult`].
#[verifier::ext_equal]
pub struct SessionResultView {
    pub session: SessionRecordView,
    pub lease: Option<LeaseRecordView>,
    pub already_registered: bool,
}

impl View for SessionResult {
    type V = SessionResultView;

    open spec fn view(&self) -> SessionResultView {
        SessionResultView {
            session: self.session@,
            lease: option_view(self.lease),
            already_registered: self.already_registered,
        }
    }
}

impl Clone for SessionResult {
    fn clone(&self) -> (copy: Self)
        ensures
            copy@ == self@,
    {
        SessionResult {
            session: self.session.clone(),
            lease: match &self.lease {
                Some(inner) => Some(inner.clone()),
                None => None,
            },
            already_registered: self.already_registered,
        }
    }
}

/// A session that was seen.
#[derive(Debug, PartialEq, Eq)]
pub struct HeartbeatResult {
    pub session: SessionRecord,
    pub lease: Option<LeaseRecord>,
}

/// The view of a [`HeartbeatResult`].
#[verifier::ext_equal]
pub struct HeartbeatResultView {
    pub session: SessionRecordView,
    pub lease: Option<LeaseRecordView>,
}

impl View for HeartbeatResult {
    type V = HeartbeatResultView;

    open spec fn view(&self) -> HeartbeatResultView {
        HeartbeatResultView {
            session: self.session@,
            lease: option_view(self.lease),
        }
    }
}

impl Clone for HeartbeatResult {
    fn clone(&self) -> (copy: Self)
        ensures
            copy@ == self@,
    {
        HeartbeatResult {
            session: self.session.clone(),
            lease: match &self.lease {
                Some(inner) => Some(inner.clone()),
                None => None,
            },
        }
    }
}

/// A lease that was acquired.
#[derive(Debug, PartialEq, Eq)]
pub struct LeaseResult {
    pub lease: LeaseRecord,
    pub already_active: bool,
}

/// The view of a [`LeaseResult`].
#[verifier::ext_equal]
pub struct LeaseResultView {
    pub lease: LeaseRecordView,
    pub already_active: bool,
}

impl View for LeaseResult {
    type V = LeaseResultView;

    open spec fn view(&self) -> LeaseResultView {
        LeaseResultView {
            lease: self.lease@,
            already_active: self.already_active,
        }
    }
}

impl Clone for LeaseResult {
    fn clone(&self) -> (copy: Self)
        ensures
            copy@ == self@,
    {
        LeaseResult {
            lease: self.lease.clone(),
            already_active: self.already_active,
        }
    }
}

} // verus!
