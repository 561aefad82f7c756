//! The rows of the inventory and what can go wrong with it.

use crate::json::writer::slice_view;
use crate::numeral::hexadecimal;
use crate::numeral::print_hex;
use crate::numeral::print_i64;
use crate::numeral::signed_decimal;
use crate::text::byte_length;
use crate::text::concat;
use crate::text::contains_char;
use crate::text::copy_option;
use crate::text::option_view;
use crate::text::same_text;
use vstd::prelude::*;

verus! {

/// A failure of the inventory.
#[derive(Debug, PartialEq, Eq)]
pub enum InventoryError {
    Io { operation: String, source: String },
    Sqlite { operation: String, code: i32, message: String },
    InvalidData(String),
    Conflict(String),
}

/// The view of a [`InventoryError`].
#[verifier::ext_equal]
pub enum InventoryErrorView {
    Io { operation: Seq<char>, source: Seq<char> },
    Sqlite { operation: Seq<char>, code: i32, message: Seq<char> },
    InvalidData(Seq<char>),
    Conflict(Seq<char>),
}

impl View for InventoryError {
    type V = InventoryErrorView;

    open spec fn view(&self) -> InventoryErrorView {
        match self {
            InventoryError::Io { operation, source } => InventoryErrorView::Io {
                operation: operation@,
                source: source@,
            },
            InventoryError::Sqlite { operation, code, message } => InventoryErrorView::Sqlite {
                operation: operation@,
                code: *code,
                message: message@,
            },
            InventoryError::InvalidData(inner) => InventoryErrorView::InvalidData(inner@),
            InventoryError::Conflict(inner) => InventoryErrorView::Conflict(inner@),
        }
    }
}

impl Clone for InventoryError {
    fn clone(&self) -> (copy: Self)
        ensures
            copy@ == self@,
    {
        match self {
            InventoryError::Io { operation, source } => InventoryError::Io {
                operation: operation.clone(),
                source: source.clone(),
            },
            InventoryError::Sqlite { operation, code, message } => InventoryError::Sqlite {
                operation: operation.clone(),
                code: *code,
                message: message.clone(),
            },
            InventoryError::InvalidData(inner) => InventoryError::InvalidData(inner.clone()),
            InventoryError::Conflict(inner) => InventoryError::Conflict(inner.clone()),
        }
    }
}

impl InventoryErrorView {
    /// The sentence that tells a reader of the error.
    pub open spec fn text(self) -> Seq<char> {
        match self {
            InventoryErrorView::Io { operation, source } => operation + ": "@ + source,
            InventoryErrorView::Sqlite { operation, code, message } => operation + " (SQLite code "@
                + signed_decimal(code as int) + "): "@ + message,
            InventoryErrorView::InvalidData(message) => "invalid inventory data: "@ + message,
            InventoryErrorView::Conflict(message) => "inventory conflict: "@ + message,
        }
    }
}

impl InventoryError {
    /// The sentence that tells a reader of the error.
    pub fn to_text(&self) -> (text: String)
        ensures
            text@ == self@.text(),
    {
        match self {
            InventoryError::Io { operation, source } => {
                let mut text = operation.clone();
                text.append(": ");
                text.append(source);
                text
            },
            InventoryError::Sqlite { operation, code, message } => {
                let mut text = operation.clone();
                text.append(" (SQLite code ");
                let number = print_i64(*code as i64);
                text.append(&number);
                text.append("): ");
                text.append(message);
                text
            },
            InventoryError::InvalidData(message) => concat("invalid inventory data: ", message),
            InventoryError::Conflict(message) => concat("inventory conflict: ", message),
        }
    }
}

// ---------------------------------------------------------------------------
// Constraints
// ---------------------------------------------------------------------------

/// The error of a row that breaks a constraint.
pub open spec fn constraint_failure(message: Seq<char>) -> InventoryErrorView {
    InventoryErrorView::Sqlite { operation: "step SQLite statement"@, code: 19, message }
}

/// The error of a table whose identifiers are used up.
pub open spec fn table_full() -> InventoryErrorView {
    InventoryErrorView::Sqlite {
        operation: "step SQLite statement"@,
        code: 13,
        message: "database or disk is full"@,
    }
}

/// The error of a reference to a row that is not there.
pub open spec fn dangling_reference() -> InventoryErrorView {
    constraint_failure("FOREIGN KEY constraint failed"@)
}

pub(crate) fn constraint_error(message: &str) -> (error: InventoryError)
    ensures
        error@ == constraint_failure(message@),
{
    InventoryError::Sqlite {
        operation: "step SQLite statement".to_owned(),
        code: 19,
        message: message.to_owned(),
    }
}

pub(crate) fn full_error() -> (error: InventoryError)
    ensures
        error@ == table_full(),
{
    InventoryError::Sqlite {
        operation: "step SQLite statement".to_owned(),
        code: 13,
        message: "database or disk is full".to_owned(),
    }
}

pub(crate) fn reference_error() -> (error: InventoryError)
    ensures
        error@ == dangling_reference(),
{
    constraint_error("FOREIGN KEY constraint failed")
}

/// Why a text cannot be stored: it holds a zero character, or is longer than a
/// column can be.
pub open spec fn text_fault(text: Seq<char>) -> Option<InventoryErrorView> {
    if text.contains(0u32 as char) {
        Some(InventoryErrorView::InvalidData("SQLite text value contains a NUL byte"@))
    } else if byte_length(text) > 0x7fff_ffff {
        Some(InventoryErrorView::InvalidData("SQLite text value is too long"@))
    } else {
        None
    }
}

/// Why an optional text cannot be stored.
pub open spec fn option_fault(text: Option<Seq<char>>) -> Option<InventoryErrorView> {
    match text {
        Some(inner) => text_fault(inner),
        None => None,
    }
}

/// The first of two faults.
pub open spec fn first_fault(
    first: Option<InventoryErrorView>,
    second: Option<InventoryErrorView>,
) -> Option<InventoryErrorView> {
    match first {
        Some(fault) => Some(fault),
        None => second,
    }
}

/// Tests whether a text can be stored.
pub(crate) fn check_text(text: &str) -> (fault: Option<InventoryError>)
    ensures
        option_view(fault) == text_fault(text@),
{
    let zero = 0u8 as char;
    if contains_char(text, zero) {
        return Some(
            InventoryError::InvalidData("SQLite text value contains a NUL byte".to_owned()),
        );
    }
    let length: usize = text.as_bytes().len();
    if length > 0x7fff_ffff {
        Some(InventoryError::InvalidData("SQLite text value is too long".to_owned()))
    } else {
        None
    }
}

/// Tests whether an optional text can be stored.
pub(crate) fn check_option(text: Option<&str>) -> (fault: Option<InventoryError>)
    ensures
        option_view(fault) == option_fault(slice_view(text)),
{
    match text {
        Some(inner) => check_text(inner),
        None => None,
    }
}

// ---------------------------------------------------------------------------
// Rows
// ---------------------------------------------------------------------------

/// A repository that was seen.
#[derive(Debug, PartialEq, Eq)]
pub struct RepositoryRecord {
    pub id: i64,
    pub common_git_dir: String,
    pub root_path: String,
    pub display_name: String,
    pub integration_branch: Option<String>,
    pub remote_integration_branch: Option<String>,
    pub added_at: i64,
    pub last_seen_at: i64,
}

/// The view of a [`RepositoryRecord`].
#[verifier::ext_equal]
pub struct RepositoryRecordView {
    pub id: i64,
    pub common_git_dir: Seq<char>,
    pub root_path: Seq<char>,
    pub display_name: Seq<char>,
    pub integration_branch: Option<Seq<char>>,
    pub remote_integration_branch: Option<Seq<char>>,
    pub added_at: i64,
    pub last_seen_at: i64,
}

impl View for RepositoryRecord {
    type V = RepositoryRecordView;

    open spec fn view(&self) -> RepositoryRecordView {
        RepositoryRecordView {
            id: self.id,
            common_git_dir: self.common_git_dir@,
            root_path: self.root_path@,
            display_name: self.display_name@,
            integration_branch: option_view(self.integration_branch),
            remote_integration_branch: option_view(self.remote_integration_branch),
            added_at: self.added_at,
            last_seen_at: self.last_seen_at,
        }
    }
}

impl Clone for RepositoryRecord {
    fn clone(&self) -> (copy: Self)
        ensures
            copy@ == self@,
    {
        RepositoryRecord {
            id: self.id,
            common_git_dir: self.common_git_dir.clone(),
            root_path: self.root_path.clone(),
            display_name: self.display_name.clone(),
            integration_branch: copy_option(&self.integration_branch),
            remote_integration_branch: copy_option(&self.remote_integration_branch),
            added_at: self.added_at,
            last_seen_at: self.last_seen_at,
        }
    }
}

/// A worktree that was seen.
#[derive(Debug, PartialEq, Eq)]
pub struct WorktreeRecord {
    pub id: i64,
    pub repository_id: i64,
    pub path: String,
    pub branch: Option<String>,
    pub head: Option<String>,
    pub git_state: String,
    pub lifecycle_state: String,
    pub first_seen_at: i64,
    pub created_at: Option<i64>,
    pub last_seen_at: i64,
    pub archived_at: Option<i64>,
    pub removed_at: Option<i64>,
}

/// The view of a [`WorktreeRecord`].
#[verifier::ext_equal]
pub struct WorktreeRecordView {
    pub id: i64,
    pub repository_id: i64,
    pub path: Seq<char>,
    pub branch: Option<Seq<char>>,
    pub head: Option<Seq<char>>,
    pub git_state: Seq<char>,
    pub lifecycle_state: Seq<char>,
    pub first_seen_at: i64,
    pub created_at: Option<i64>,
    pub last_seen_at: i64,
    pub archived_at: Option<i64>,
    pub removed_at: Option<i64>,
}

impl View for WorktreeRecord {
    type V = WorktreeRecordView;

    open spec fn view(&self) -> WorktreeRecordView {
        WorktreeRecordView {
            id: self.id,
            repository_id: self.repository_id,
            path: self.path@,
            branch: option_view(self.branch),
            head: option_view(self.head),
            git_state: self.git_state@,
            lifecycle_state: self.lifecycle_state@,
            first_seen_at: self.first_seen_at,
            created_at: self.created_at,
            last_seen_at: self.last_seen_at,
            archived_at: self.archived_at,
            removed_at: self.removed_at,
        }
    }
}

impl Clone for WorktreeRecord {
    fn clone(&self) -> (copy: Self)
        ensures
            copy@ == self@,
    {
        WorktreeRecord {
            id: self.id,
            repository_id: self.repository_id,
            path: self.path.clone(),
            branch: copy_option(&self.branch),
            head: copy_option(&self.head),
            git_state: self.git_state.clone(),
            lifecycle_state: self.lifecycle_state.clone(),
            first_seen_at: self.first_seen_at,
            created_at: self.created_at,
            last_seen_at: self.last_seen_at,
            archived_at: self.archived_at,
            removed_at: self.removed_at,
        }
    }
}

/// Something that happened to a repository.
#[derive(Debug, PartialEq, Eq)]
pub struct EventRecord {
    pub id: i64,
    pub repository_id: i64,
    pub worktree_id: Option<i64>,
    pub occurred_at: i64,
    pub actor: String,
    pub action: String,
    pub result: String,
    pub details_json: String,
}

/// The view of a [`EventRecord`].
#[verifier::ext_equal]
pub struct EventRecordView {
    pub id: i64,
    pub repository_id: i64,
    pub worktree_id: Option<i64>,
    pub occurred_at: i64,
    pub actor: Seq<char>,
    pub action: Seq<char>,
    pub result: Seq<char>,
    pub details_json: Seq<char>,
}

impl View for EventRecord {
    type V = EventRecordView;

    open spec fn view(&self) -> EventRecordView {
        EventRecordView {
            id: self.id,
            repository_id: self.repository_id,
            worktree_id: self.worktree_id,
            occurred_at: self.occurred_at,
            actor: self.actor@,
            action: self.action@,
            result: self.result@,
            details_json: self.details_json@,
        }
    }
}

impl Clone for EventRecord {
    fn clone(&self) -> (copy: Self)
        ensures
            copy@ == self@,
    {
        EventRecord {
            id: self.id,
            repository_id: self.repository_id,
            worktree_id: self.worktree_id,
            occurred_at: self.occurred_at,
            actor: self.actor.clone(),
            action: self.action.clone(),
            result: self.result.clone(),
            details_json: self.details_json.clone(),
        }
    }
}

/// A path and a branch set aside for a worktree that is being created.
#[derive(Debug, PartialEq, Eq)]
pub struct ReservationRecord {
    pub id: i64,
    pub repository_id: i64,
    pub path: String,
    pub branch: String,
    pub idempotency_key: Option<String>,
    pub state: String,
    pub worktree_id: Option<i64>,
    pub created_at: i64,
    pub completed_at: Option<i64>,
}

/// The view of a [`ReservationRecord`].
#[verifier::ext_equal]
pub struct ReservationRecordView {
    pub id: i64,
    pub repository_id: i64,
    pub path: Seq<char>,
    pub branch: Seq<char>,
    pub idempotency_key: Option<Seq<char>>,
    pub state: Seq<char>,
    pub worktree_id: Option<i64>,
    pub created_at: i64,
    pub completed_at: Option<i64>,
}

impl View for ReservationRecord {
    type V = ReservationRecordView;

    open spec fn view(&self) -> ReservationRecordView {
        ReservationRecordView {
            id: self.id,
            repository_id: self.repository_id,
            path: self.path@,
            branch: self.branch@,
            idempotency_key: option_view(self.idempotency_key),
            state: self.state@,
            worktree_id: self.worktree_id,
            created_at: self.created_at,
            completed_at: self.completed_at,
        }
    }
}

impl Clone for ReservationRecord {
    fn clone(&self) -> (copy: Self)
        ensures
            copy@ == self@,
    {
        ReservationRecord {
            id: self.id,
            repository_id: self.repository_id,
            path: self.path.clone(),
            branch: self.branch.clone(),
            idempotency_key: copy_option(&self.idempotency_key),
            state: self.state.clone(),
            worktree_id: self.worktree_id,
            created_at: self.created_at,
            completed_at: self.completed_at,
        }
    }
}

/// A session that works in a worktree.
#[derive(Debug, PartialEq, Eq)]
pub struct SessionRecord {
    pub id: String,
    pub worktree_id: i64,
    pub provider: String,
    pub provider_session_id: Option<String>,
    pub pid: Option<i64>,
    pub process_started_at: Option<i64>,
    pub terminal_metadata: Option<String>,
    pub state: String,
    pub created_at: i64,
    pub last_seen_at: i64,
}

/// The view of a [`SessionRecord`].
#[verifier::ext_equal]
pub struct SessionRecordView {
    pub id: Seq<char>,
    pub worktree_id: i64,
    pub provider: Seq<char>,
    pub provider_session_id: Option<Seq<char>>,
    pub pid: Option<i64>,
    pub process_started_at: Option<i64>,
    pub terminal_metadata: Option<Seq<char>>,
    pub state: Seq<char>,
    pub created_at: i64,
    pub last_seen_at: i64,
}

impl View for SessionRecord {
    type V = SessionRecordView;

    open spec fn view(&self) -> SessionRecordView {
        SessionRecordView {
            id: self.id@,
            worktree_id: self.worktree_id,
            provider: self.provider@,
            provider_session_id: option_view(self.provider_session_id),
            pid: self.pid,
            process_started_at: self.process_started_at,
            terminal_metadata: option_view(self.terminal_metadata),
            state: self.state@,
            created_at: self.created_at,
            last_seen_at: self.last_seen_at,
        }
    }
}

impl Clone for SessionRecord {
    fn clone(&self) -> (copy: Self)
        ensures
            copy@ == self@,
    {
        SessionRecord {
            id: self.id.clone(),
            worktree_id: self.worktree_id,
            provider: self.provider.clone(),
            provider_session_id: copy_option(&self.provider_session_id),
            pid: self.pid,
            process_started_at: self.process_started_at,
            terminal_metadata: copy_option(&self.terminal_metadata),
            state: self.state.clone(),
            created_at: self.created_at,
            last_seen_at: self.last_seen_at,
        }
    }
}

/// The claim of a session to a worktree, for a time.
#[derive(Debug, PartialEq, Eq)]
pub struct LeaseRecord {
    pub id: i64,
    pub worktree_id: i64,
    pub session_id: String,
    pub acquired_at: i64,
    pub renewed_at: i64,
    pub expires_at: i64,
    pub state: String,
}

/// The view of a [`LeaseRecord`].
#[verifier::ext_equal]
pub struct LeaseRecordView {
    pub id: i64,
    pub worktree_id: i64,
    pub session_id: Seq<char>,
    pub acquired_at: i64,
    pub renewed_at: i64,
    pub expires_at: i64,
    pub state: Seq<char>,
}

impl View for LeaseRecord {
    type V = LeaseRecordView;

    open spec fn view(&self) -> LeaseRecordView {
        LeaseRecordView {
            id: self.id,
            worktree_id: self.worktree_id,
            session_id: self.session_id@,
            acquired_at: self.acquired_at,
            renewed_at: self.renewed_at,
            expires_at: self.expires_at,
            state: self.state@,
        }
    }
}

impl Clone for LeaseRecord {
    fn clone(&self) -> (copy: Self)
        ensures
            copy@ == self@,
    {
        LeaseRecord {
            id: self.id,
            worktree_id: self.worktree_id,
            session_id: self.session_id.clone(),
            acquired_at: self.acquired_at,
            renewed_at: self.renewed_at,
            expires_at: self.expires_at,
            state: self.state.clone(),
        }
    }
}

/// A request of the daemon, and the response it was given.
#[derive(Debug, PartialEq, Eq)]
pub struct RequestRecord {
    pub id: String,
    pub operation: String,
    pub state: String,
    pub response_json: Option<String>,
    pub created_at: i64,
    pub updated_at: i64,
}

/// The view of a [`RequestRecord`].
#[verifier::ext_equal]
pub struct RequestRecordView {
    pub id: Seq<char>,
    pub operation: Seq<char>,
    pub state: Seq<char>,
    pub response_json: Option<Seq<char>>,
    pub created_at: i64,
    pub updated_at: i64,
}

impl View for RequestRecord {
    type V = RequestRecordView;

    open spec fn view(&self) -> RequestRecordView {
        RequestRecordView {
            id: self.id@,
            operation: self.operation@,
            state: self.state@,
            response_json: option_view(self.response_json),
            created_at: self.created_at,
            updated_at: self.updated_at,
        }
    }
}

impl Clone for RequestRecord {
    fn clone(&self) -> (copy: Self)
        ensures
            copy@ == self@,
    {
        RequestRecord {
            id: self.id.clone(),
            operation: self.operation.clone(),
            state: self.state.clone(),
            response_json: copy_option(&self.response_json),
            created_at: self.created_at,
            updated_at: self.updated_at,
        }
    }
}

/// An event to record.
#[derive(Debug, Clone, Copy)]
pub struct EventInput<'a> {
    pub repository_id: i64,
    pub worktree_id: Option<i64>,
    pub occurred_at: i64,
    pub actor: &'a str,
    pub action: &'a str,
    pub result: &'a str,
    pub details_json: &'a str,
}

/// The view of an [`EventInput`].
#[verifier::ext_equal]
pub struct EventInputView {
    pub repository_id: i64,
    pub worktree_id: Option<i64>,
    pub occurred_at: i64,
    pub actor: Seq<char>,
    pub action: Seq<char>,
    pub result: Seq<char>,
    pub details_json: Seq<char>,
}

impl View for EventInput<'_> {
    type V = EventInputView;

    open spec fn view(&self) -> EventInputView {
        EventInputView {
            repository_id: self.repository_id,
            worktree_id: self.worktree_id,
            occurred_at: self.occurred_at,
            actor: self.actor@,
            action: self.action@,
            result: self.result@,
            details_json: self.details_json@,
        }
    }
}

/// An event whose details are not known yet.
#[derive(Debug, Clone, Copy)]
pub struct EventMetadata<'a> {
    pub repository_id: i64,
    pub worktree_id: Option<i64>,
    pub occurred_at: i64,
    pub actor: &'a str,
    pub action: &'a str,
    pub result: &'a str,
}

/// The view of an [`EventMetadata`].
#[verifier::ext_equal]
pub struct EventMetadataView {
    pub repository_id: i64,
    pub worktree_id: Option<i64>,
    pub occurred_at: i64,
    pub actor: Seq<char>,
    pub action: Seq<char>,
    pub result: Seq<char>,
}

impl View for EventMetadata<'_> {
    type V = EventMetadataView;

    open spec fn view(&self) -> EventMetadataView {
        EventMetadataView {
            repository_id: self.repository_id,
            worktree_id: self.worktree_id,
            occurred_at: self.occurred_at,
            actor: self.actor@,
            action: self.action@,
            result: self.result@,
        }
    }
}

impl EventMetadataView {
    /// The event with its details.
    pub open spec fn with_details(self, details_json: Seq<char>) -> EventInputView {
        EventInputView {
            repository_id: self.repository_id,
            worktree_id: self.worktree_id,
            occurred_at: self.occurred_at,
            actor: self.actor,
            action: self.action,
            result: self.result,
            details_json,
        }
    }
}

impl<'a> EventMetadata<'a> {
    /// The event with its details.
    pub fn with_details(self, details_json: &'a str) -> (event: EventInput<'a>)
        ensures
            event@ == self@.with_details(details_json@),
    {
        EventInput {
            repository_id: self.repository_id,
            worktree_id: self.worktree_id,
            occurred_at: self.occurred_at,
            actor: self.actor,
            action: self.action,
            result: self.result,
            details_json,
        }
    }
}

/// A session to register.
#[derive(Debug, Clone, Copy)]
pub struct SessionInput<'a> {
    pub id: &'a str,
    pub worktree_id: i64,
    pub provider: &'a str,
    pub provider_session_id: Option<&'a str>,
    pub pid: Option<i64>,
    pub process_started_at: Option<i64>,
    pub terminal_metadata: Option<&'a str>,
    pub now: i64,
}

/// The view of a [`SessionInput`].
#[verifier::ext_equal]
pub struct SessionInputView {
    pub id: Seq<char>,
    pub worktree_id: i64,
    pub provider: Seq<char>,
    pub provider_session_id: Option<Seq<char>>,
    pub pid: Option<i64>,
    pub process_started_at: Option<i64>,
    pub terminal_metadata: Option<Seq<char>>,
    pub now: i64,
}

impl View for SessionInput<'_> {
    type V = SessionInputView;

    open spec fn view(&self) -> SessionInputView {
        SessionInputView {
            id: self.id@,
            worktree_id: self.worktree_id,
            provider: self.provider@,
            provider_session_id: slice_view(self.provider_session_id),
            pid: self.pid,
            process_started_at: self.process_started_at,
            terminal_metadata: slice_view(self.terminal_metadata),
            now: self.now,
        }
    }
}

/// Makes a text of a borrowed one.
pub(crate) fn own_option(text: Option<&str>) -> (owned: Option<String>)
    ensures
        option_view(owned) == slice_view(text),
{
    match text {
        Some(inner) => Some(inner.to_owned()),
        None => None,
    }
}

/// A session and the lease it holds.
#[derive(Debug, PartialEq, Eq)]
pub struct SessionLeaseResult {
    pub session: SessionRecord,
    pub lease: Option<LeaseRecord>,
}

/// The view of a [`SessionLeaseResult`].
#[verifier::ext_equal]
pub struct SessionLeaseResultView {
    pub session: SessionRecordView,
    pub lease: Option<LeaseRecordView>,
}

impl View for SessionLeaseResult {
    type V = SessionLeaseResultView;

    open spec fn view(&self) -> SessionLeaseResultView {
        SessionLeaseResultView {
            session: self.session@,
            lease: option_view(self.lease),
        }
    }
}

impl Clone for SessionLeaseResult {
    fn clone(&self) -> (copy: Self)
        ensures
            copy@ == self@,
    {
        SessionLeaseResult {
            session: self.session.clone(),
            lease: match &self.lease {
                Some(inner) => Some(inner.clone()),
                None => None,
            },
        }
    }
}

/// What tells the file of an inventory from another at the same path.
#[derive(Debug, PartialEq, Eq)]
pub enum InventoryFileIdentity {
    Mac { device: u64, inode: u64, birth_time: i64, birth_time_nanoseconds: i64 },
    Unix { device: u64, inode: u64, change_time: i64, change_time_nanoseconds: i64 },
    Path(String),
}

impl InventoryFileIdentity {
    /// The text by which the file is known.
    pub open spec fn key_text(self) -> Seq<char> {
        match self {
            InventoryFileIdentity::Mac { device, inode, birth_time, birth_time_nanoseconds } => {
                "macos:"@ + hexadecimal(device as nat) + ":"@ + hexadecimal(inode as nat) + ":"@
                    + signed_decimal(birth_time as int) + ":"@ + signed_decimal(
                    birth_time_nanoseconds as int,
                )
            },
            InventoryFileIdentity::Unix { device, inode, .. } => {
                "unix:"@ + hexadecimal(device as nat) + ":"@ + hexadecimal(inode as nat)
            },
            InventoryFileIdentity::Path(path) => path@,
        }
    }

    /// Whether two identities are those of the same file in the same state.
    pub open spec fn matches(self, other: InventoryFileIdentity) -> bool {
        match (self, other) {
            (InventoryFileIdentity::Path(left), InventoryFileIdentity::Path(right)) => left@
                == right@,
            _ => self == other,
        }
    }

    /// The text by which the file is known.
    pub fn key(&self) -> (key: String)
        ensures
            key@ == self.key_text(),
    {
        match self {
            InventoryFileIdentity::Mac { device, inode, birth_time, birth_time_nanoseconds } => {
                let mut key = "macos:".to_owned();
                let device_text = print_hex(*device);
                key.append(&device_text);
                key.append(":");
                let inode_text = print_hex(*inode);
                key.append(&inode_text);
                key.append(":");
                let seconds = print_i64(*birth_time);
                key.append(&seconds);
                key.append(":");
                let nanoseconds = print_i64(*birth_time_nanoseconds);
                key.append(&nanoseconds);
                key
            },
            InventoryFileIdentity::Unix { device, inode, .. } => {
                let mut key = "unix:".to_owned();
                let device_text = print_hex(*device);
                key.append(&device_text);
                key.append(":");
                let inode_text = print_hex(*inode);
                key.append(&inode_text);
                key
            },
            InventoryFileIdentity::Path(path) => path.clone(),
        }
    }

    fn same(&self, other: &InventoryFileIdentity) -> (same: bool)
        ensures
            same == self.matches(*other),
    {
        match (self, other) {
            (
                InventoryFileIdentity::Mac { device, inode, birth_time, birth_time_nanoseconds },
                InventoryFileIdentity::Mac {
                    device: d,
                    inode: i,
                    birth_time: b,
                    birth_time_nanoseconds: n,
                },
            ) => *device == *d && *inode == *i && *birth_time == *b && *birth_time_nanoseconds == *n,
            (
                InventoryFileIdentity::Unix { device, inode, change_time, change_time_nanoseconds },
                InventoryFileIdentity::Unix {
                    device: d,
                    inode: i,
                    change_time: c,
                    change_time_nanoseconds: n,
                },
            ) => *device == *d && *inode == *i && *change_time == *c && *change_time_nanoseconds
                == *n,
            (InventoryFileIdentity::Path(left), InventoryFileIdentity::Path(right)) => same_text(
                left,
                right,
            ),
            _ => false,
        }
    }

    /// Tests that the file at the path is still the one that is open.
    pub fn ensure_path_identity(
        opened: &InventoryFileIdentity,
        current: &InventoryFileIdentity,
    ) -> (result: Result<(), InventoryError>)
        ensures
            match result {
                Ok(()) => current.matches(*opened),
                Err(error) => !current.matches(*opened) && error@ == InventoryErrorView::InvalidData(
                    "inventory database was replaced while it was open"@,
                ),
            },
    {
        if current.same(opened) {
            Ok(())
        } else {
            Err(
                InventoryError::InvalidData(
                    "inventory database was replaced while it was open".to_owned(),
                ),
            )
        }
    }

    /// Tests that the file did not change while it was being opened.
    pub fn ensure_unchanged_while_opening(
        opened: &InventoryFileIdentity,
        current: &InventoryFileIdentity,
    ) -> (result: Result<(), InventoryError>)
        ensures
            match result {
                Ok(()) => current.matches(*opened),
                Err(error) => !current.matches(*opened) && error@ == InventoryErrorView::InvalidData(
                    "inventory database changed while it was opening"@,
                ),
            },
    {
        if current.same(opened) {
            Ok(())
        } else {
            Err(
                InventoryError::InvalidData(
                    "inventory database changed while it was opening".to_owned(),
                ),
            )
        }
    }
}

} // verus!
