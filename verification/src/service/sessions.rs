//! Sessions and leases on the worktrees of a repository.

use crate::inventory::records::EventInput;
use crate::inventory::records::EventMetadata;
use crate::inventory::records::EventMetadataView;
use crate::inventory::records::LeaseRecord;
use crate::inventory::records::LeaseRecordView;
use crate::inventory::records::SessionInput;
use crate::inventory::records::SessionInputView;
use crate::inventory::records::SessionRecord;
use crate::inventory::records::SessionRecordView;
use crate::inventory::records::text_fault;
use crate::inventory::sessions::lease_view;
use crate::inventory::state::Inventory;
use crate::inventory::state::InventoryView;
use crate::inventory::worktrees::ListedWorktree;
use crate::inventory::worktrees::ListedWorktreeView;
use crate::json::value::Json;
use crate::json::writer::Object;
use crate::json::writer::field_texts;
use crate::json::writer::json_text;
use crate::json::writer::lemma_field_texts;
use crate::json::writer::number_or_null;
use crate::json::writer::text_or_null;
use crate::service::error::ServiceError;
use crate::service::error::ServiceErrorView;
use crate::service::error::invalid;
use crate::service::error::invalid_request;
use crate::service::rules::find_worktree;
use crate::service::rules::session_fault;
use crate::service::rules::validate_session_request;
use crate::service::rules::worktree_there;
use crate::service::state::RepositoryService;
use crate::service::state::ServiceView;
use crate::service::state::find_record;
use crate::service::state::record_at;
use crate::service::types::HeartbeatResult;
use crate::service::types::HeartbeatResultView;
use crate::service::types::LeaseResult;
use crate::service::types::LeaseResultView;
use crate::service::types::Place;
use crate::service::types::PlaceView;
use crate::service::types::RegisterSessionRequest;
use crate::service::types::RegisterSessionRequestView;
use crate::service::types::SessionResult;
use crate::service::types::SessionResultView;
use crate::service::types::as_unsigned;
use crate::service::types::unsigned_bits;
use crate::text::as_slice;
use crate::text::concat3;
use crate::text::debug_string;
use crate::text::debug_text;
use crate::text::option_view;
use crate::text::same_text;
use crate::text::trim_text;
use crate::text::trims_to_nothing;
use crate::text::views;
use vstd::prelude::*;

verus! {

/// An identifier as a number that is not negative, or `null`.
pub open spec fn lease_id_json(lease: Option<LeaseRecordView>) -> Json {
    match lease {
        Some(row) => if row.id >= 0 {
            Json::Number(row.id as int)
        } else {
            Json::Null
        },
        None => Json::Null,
    }
}

fn lease_id(lease: Option<&LeaseRecord>) -> (id: Option<u64>)
    ensures
        number_or_null(id) == lease_id_json(lease_view(lease)),
{
    match lease {
        Some(row) => if row.id >= 0 {
            Some(row.id as u64)
        } else {
            None
        },
        None => None,
    }
}

/// What an event tells of a session that was registered.
pub open spec fn session_details_json(
    request: RegisterSessionRequestView,
    path: Seq<char>,
    lease: Option<LeaseRecordView>,
) -> Json {
    Json::Object(
        seq![
            ("session_id"@, Json::Str(request.session_id)),
            ("path"@, Json::Str(path)),
            ("provider"@, Json::Str(request.provider)),
            ("provider_session_id"@, text_or_null(request.provider_session_id)),
            ("lease_id"@, lease_id_json(lease)),
        ],
    )
}

/// Prints what an event tells of a session that was registered.
pub fn session_details(
    request: &RegisterSessionRequest,
    path: &str,
    lease: Option<&LeaseRecord>,
) -> (text: String)
    ensures
        text@ == json_text(session_details_json(request@, path@, lease_view(lease))),
{
    let object = Object::new().string("session_id", &request.session_id).string(
        "path",
        path,
    ).string("provider", &request.provider).optional_string(
        "provider_session_id",
        as_slice(&request.provider_session_id),
    ).optional_number("lease_id", lease_id(lease));
    proof {
        let fields = session_details_json(request@, path@, lease_view(lease))->Object_0;
        lemma_field_texts(fields);
        assert(object@ =~= field_texts(fields));
    }
    object.finish()
}

/// What an event tells of a heartbeat.
pub open spec fn heartbeat_details_json(
    session_id: Seq<char>,
    lease: Option<LeaseRecordView>,
) -> Json {
    Json::Object(
        seq![("session_id"@, Json::Str(session_id)), ("lease_id"@, lease_id_json(lease))],
    )
}

fn heartbeat_details(session_id: &str, lease: Option<&LeaseRecord>) -> (text: String)
    ensures
        text@ == json_text(heartbeat_details_json(session_id@, lease_view(lease))),
{
    let object = Object::new().string("session_id", session_id).optional_number(
        "lease_id",
        lease_id(lease),
    );
    proof {
        let fields = heartbeat_details_json(session_id@, lease_view(lease))->Object_0;
        lemma_field_texts(fields);
        assert(object@ =~= field_texts(fields));
    }
    object.finish()
}

/// What an event tells of a lease that was acquired.
pub open spec fn lease_details_json(session_id: Seq<char>, lease_id: i64, ttl_seconds: i64) -> Json {
    Json::Object(
        seq![
            ("session_id"@, Json::Str(session_id)),
            ("lease_id"@, Json::Number(unsigned_bits(lease_id))),
            ("ttl_seconds"@, Json::Number(unsigned_bits(ttl_seconds))),
        ],
    )
}

fn lease_details(session_id: &str, lease: &LeaseRecord, ttl_seconds: i64) -> (text: String)
    ensures
        text@ == json_text(lease_details_json(session_id@, lease@.id, ttl_seconds)),
{
    let object = Object::new().string("session_id", session_id).number(
        "lease_id",
        as_unsigned(lease.id),
    ).number("ttl_seconds", as_unsigned(ttl_seconds));
    proof {
        let fields = lease_details_json(session_id@, lease@.id, ttl_seconds)->Object_0;
        lemma_field_texts(fields);
        assert(object@ =~= field_texts(fields));
    }
    object.finish()
}

/// What an event tells of leases that were given up.
pub open spec fn release_details_json(session_id: Seq<char>, count: int) -> Json {
    Json::Object(
        seq![("session_id"@, Json::Str(session_id)), ("released_count"@, Json::Number(count))],
    )
}

fn release_details(session_id: &str, count: u64) -> (text: String)
    ensures
        text@ == json_text(release_details_json(session_id@, count as int)),
{
    let object = Object::new().string("session_id", session_id).number("released_count", count);
    proof {
        let fields = release_details_json(session_id@, count as int)->Object_0;
        lemma_field_texts(fields);
        assert(object@ =~= field_texts(fields));
    }
    object.finish()
}

/// What an event tells of a session that is over.
pub open spec fn ended_details_json(session_id: Seq<char>) -> Json {
    Json::Object(seq![("session_id"@, Json::Str(session_id))])
}

fn ended_details(session_id: &str) -> (text: String)
    ensures
        text@ == json_text(ended_details_json(session_id@)),
{
    let object = Object::new().string("session_id", session_id);
    proof {
        let fields = ended_details_json(session_id@)->Object_0;
        lemma_field_texts(fields);
        assert(object@ =~= field_texts(fields));
    }
    object.finish()
}

/// The complaint about a session that is not known.
pub open spec fn session_not_found(session_id: Seq<char>) -> ServiceErrorView {
    invalid("session "@ + debug_text(session_id) + " not found"@)
}

fn session_not_found_error(session_id: &str) -> (error: ServiceError)
    ensures
        error@ == session_not_found(session_id@),
{
    let key = debug_string(session_id);
    ServiceError::InvalidRequest(concat3("session ", &key, " not found"))
}

/// The number of active leases among some.
pub open spec fn active_count(leases: Seq<LeaseRecordView>) -> nat
    decreases leases.len(),
{
    if leases.len() == 0 {
        0
    } else if leases.last().state == "active"@ {
        active_count(leases.drop_last()) + 1
    } else {
        active_count(leases.drop_last())
    }
}

fn count_active(leases: &Vec<LeaseRecord>) -> (count: u64)
    ensures
        count == active_count(views(leases@)),
{
    let ghost all = views(leases@);
    let mut count: u64 = 0;
    let mut i: usize = 0;
    assert(all.take(0) =~= seq![]);
    while i < leases.len()
        invariant
            i <= leases.len(),
            all == views(leases@),
            count == active_count(all.take(i as int)),
            count <= i,
        decreases leases.len() - i,
    {
        assert(all.take(i + 1).drop_last() =~= all.take(i as int));
        if same_text(&leases[i].state, "active") {
            count = count + 1;
        }
        i += 1;
    }
    assert(all.take(i as int) =~= all);
    count
}

/// An event of the service that succeeded.
pub open spec fn done_event(
    repository_id: i64,
    worktree_id: i64,
    now: i64,
    actor: Seq<char>,
    action: Seq<char>,
    result: Seq<char>,
) -> EventMetadataView {
    EventMetadataView {
        repository_id,
        worktree_id: Some(worktree_id),
        occurred_at: now,
        actor,
        action,
        result,
    }
}

impl ServiceView {
    /// A session is registered in a listed worktree that is there.
    pub open spec fn register_session(
        self,
        request: RegisterSessionRequestView,
        requested: PlaceView,
        worktrees: Seq<ListedWorktreeView>,
        now: i64,
    ) -> (InventoryView, Result<SessionResultView, ServiceErrorView>) {
        if session_fault(request) is Some {
            (self.inventory, Err(session_fault(request)->0))
        } else {
            match worktree_there(worktrees, requested.resolved_path) {
                None => (self.inventory, Err(ServiceErrorView::NotFound(requested.path))),
                Some(listed) => if listed.worktree.bare || listed.is_missing() {
                    (
                        self.inventory,
                        Err(invalid("session worktree must be an available directory"@)),
                    )
                } else {
                    match self.refresh(worktrees, now) {
                        (current, Err(error)) => (
                            current,
                            Err(ServiceErrorView::Inventory(error)),
                        ),
                        (current, Ok((repository, records))) => match record_at(
                            records,
                            listed.worktree.path,
                        ) {
                            None => (
                                current,
                                Err(
                                    invalid(
                                        "session worktree was not persisted in the inventory"@,
                                    ),
                                ),
                            ),
                            Some(record) => enroll_session(
                                current,
                                request,
                                requested.path,
                                repository.id,
                                record.id,
                                now,
                            ),
                        },
                    }
                },
            }
        }
    }

    /// A session was seen.
    pub open spec fn heartbeat_session(
        self,
        session_id: Seq<char>,
        lease_ttl_seconds: Option<i64>,
        actor: Seq<char>,
        now: i64,
    ) -> (InventoryView, Result<HeartbeatResultView, ServiceErrorView>) {
        if trim_text(session_id).len() == 0 {
            (self.inventory, Err(invalid("session id cannot be empty"@)))
        } else if lease_ttl_seconds is Some && lease_ttl_seconds->0 <= 0 {
            (self.inventory, Err(invalid("lease TTL must be positive"@)))
        } else {
            match known_session(self.inventory, session_id) {
                Err(error) => (self.inventory, Err(error)),
                Ok(session) => match self.inventory.register_repository(
                    self.inventory_repository(),
                    now,
                ) {
                    Err(error) => (self.inventory, Err(ServiceErrorView::Inventory(error))),
                    Ok((current, repository)) => match current.heartbeat(
                        session_id,
                        lease_ttl_seconds,
                        now,
                    ) {
                        Err(error) => (current, Err(ServiceErrorView::Inventory(error))),
                        Ok((seen, row, lease)) => match seen.record_event(
                            done_event(
                                repository.id,
                                session.worktree_id,
                                now,
                                actor,
                                "heartbeat_session"@,
                                "succeeded"@,
                            ).with_details(json_text(heartbeat_details_json(session_id, lease))),
                        ) {
                            Err(error) => (current, Err(ServiceErrorView::Inventory(error))),
                            Ok((recorded, _)) => (
                                recorded,
                                Ok(HeartbeatResultView { session: row, lease }),
                            ),
                        },
                    },
                },
            }
        }
    }

    /// A session acquires the lease on a listed worktree.
    pub open spec fn acquire_lease(
        self,
        requested: PlaceView,
        worktrees: Seq<ListedWorktreeView>,
        session_id: Seq<char>,
        ttl_seconds: i64,
        actor: Seq<char>,
        now: i64,
    ) -> (InventoryView, Result<LeaseResultView, ServiceErrorView>) {
        if ttl_seconds <= 0 {
            (self.inventory, Err(invalid("lease TTL must be positive"@)))
        } else {
            match worktree_there(worktrees, requested.resolved_path) {
                None => (self.inventory, Err(ServiceErrorView::NotFound(requested.path))),
                Some(listed) => match self.refresh(worktrees, now) {
                    (current, Err(error)) => (current, Err(ServiceErrorView::Inventory(error))),
                    (current, Ok((repository, records))) => match record_at(
                        records,
                        listed.worktree.path,
                    ) {
                        None => (
                            current,
                            Err(invalid("lease worktree was not persisted in the inventory"@)),
                        ),
                        Some(record) => match known_session(current, session_id) {
                            Err(error) => (current, Err(error)),
                            Ok(_) => grant_lease(
                                current,
                                repository.id,
                                record.id,
                                session_id,
                                ttl_seconds,
                                actor,
                                now,
                            ),
                        },
                    },
                },
            }
        }
    }

    /// A session gives up its leases.
    pub open spec fn release_lease(
        self,
        session_id: Seq<char>,
        actor: Seq<char>,
        now: i64,
    ) -> (InventoryView, Result<Seq<LeaseRecordView>, ServiceErrorView>) {
        if trim_text(session_id).len() == 0 {
            (self.inventory, Err(invalid("session id cannot be empty"@)))
        } else {
            match known_session(self.inventory, session_id) {
                Err(error) => (self.inventory, Err(error)),
                Ok(session) => {
                    let count = active_count(self.inventory.session_leases(session_id));
                    match self.inventory.register_repository(self.inventory_repository(), now) {
                        Err(error) => (self.inventory, Err(ServiceErrorView::Inventory(error))),
                        Ok((current, repository)) => match current.release_lease(session_id, now) {
                            Err(error) => (current, Err(ServiceErrorView::Inventory(error))),
                            Ok((released, leases)) => match released.record_event(
                                done_event(
                                    repository.id,
                                    session.worktree_id,
                                    now,
                                    actor,
                                    "release_lease"@,
                                    "succeeded"@,
                                ).with_details(
                                    json_text(release_details_json(session_id, count as int)),
                                ),
                            ) {
                                Err(error) => (current, Err(ServiceErrorView::Inventory(error))),
                                Ok((recorded, _)) => (recorded, Ok(leases)),
                            },
                        },
                    }
                },
            }
        }
    }

    /// A session is over.
    pub open spec fn release_session(
        self,
        session_id: Seq<char>,
        actor: Seq<char>,
        now: i64,
    ) -> (InventoryView, Result<Option<SessionRecordView>, ServiceErrorView>) {
        if trim_text(session_id).len() == 0 {
            (self.inventory, Err(invalid("session id cannot be empty"@)))
        } else {
            match known_session(self.inventory, session_id) {
                Err(error) => (self.inventory, Err(error)),
                Ok(session) => match self.inventory.register_repository(
                    self.inventory_repository(),
                    now,
                ) {
                    Err(error) => (self.inventory, Err(ServiceErrorView::Inventory(error))),
                    Ok((current, repository)) => match current.release_session(session_id, now) {
                        Err(error) => (current, Err(ServiceErrorView::Inventory(error))),
                        Ok((released, None)) => (released, Ok(None)),
                        Ok((released, Some(row))) => match released.record_event(
                            done_event(
                                repository.id,
                                session.worktree_id,
                                now,
                                actor,
                                "release_session"@,
                                "succeeded"@,
                            ).with_details(json_text(ended_details_json(session_id))),
                        ) {
                            Err(error) => (current, Err(ServiceErrorView::Inventory(error))),
                            Ok((recorded, _)) => (recorded, Ok(Some(row))),
                        },
                    },
                },
            }
        }
    }
}

/// The session with that identifier, which must be known.
pub open spec fn known_session(inventory: InventoryView, session_id: Seq<char>) -> Result<
    SessionRecordView,
    ServiceErrorView,
> {
    if text_fault(session_id) is Some {
        Err(
            ServiceErrorView::Inventory(text_fault(session_id)->0),
        )
    } else {
        match inventory.session(session_id) {
            None => Err(session_not_found(session_id)),
            Some(session) => Ok(session),
        }
    }
}

/// A session is entered into the inventory, with its lease and an event.
pub open spec fn enroll_session(
    inventory: InventoryView,
    request: RegisterSessionRequestView,
    path: Seq<char>,
    repository_id: i64,
    worktree_id: i64,
    now: i64,
) -> (InventoryView, Result<SessionResultView, ServiceErrorView>) {
    let input = SessionInputView {
        id: request.session_id,
        worktree_id,
        provider: request.provider,
        provider_session_id: request.provider_session_id,
        pid: request.pid,
        process_started_at: request.process_started_at,
        terminal_metadata: request.terminal_metadata,
        now,
    };
    if text_fault(request.session_id) is Some {
        (
            inventory,
            Err(
                ServiceErrorView::Inventory(
                    text_fault(request.session_id)->0,
                ),
            ),
        )
    } else {
        let existing = inventory.session(request.session_id) is Some;
        match inventory.register_with_lease(input, request.lease_ttl_seconds) {
            Err(error) => (inventory, Err(ServiceErrorView::Inventory(error))),
            Ok((registered, session, lease)) => match registered.record_event(
                done_event(
                    repository_id,
                    worktree_id,
                    now,
                    request.actor,
                    "register_session"@,
                    if existing {
                        "idempotent-replay"@
                    } else {
                        "succeeded"@
                    },
                ).with_details(json_text(session_details_json(request, path, lease))),
            ) {
                Err(error) => (inventory, Err(ServiceErrorView::Inventory(error))),
                Ok((recorded, _)) => (
                    recorded,
                    Ok(SessionResultView { session, lease, already_registered: existing }),
                ),
            },
        }
    }
}

/// A lease is granted and an event recorded.
pub open spec fn grant_lease(
    inventory: InventoryView,
    repository_id: i64,
    worktree_id: i64,
    session_id: Seq<char>,
    ttl_seconds: i64,
    actor: Seq<char>,
    now: i64,
) -> (InventoryView, Result<LeaseResultView, ServiceErrorView>) {
    let already_active = match inventory.worktree_lease(worktree_id) {
        Some(existing) => existing.session_id == session_id && existing.expires_at > now,
        None => false,
    };
    match inventory.acquire_lease(worktree_id, session_id, ttl_seconds, now) {
        Err(error) => (inventory, Err(ServiceErrorView::Inventory(error))),
        Ok((leased, lease)) => match leased.record_event(
            done_event(
                repository_id,
                worktree_id,
                now,
                actor,
                "acquire_lease"@,
                "succeeded"@,
            ).with_details(json_text(lease_details_json(session_id, lease.id, ttl_seconds))),
        ) {
            Err(error) => (inventory, Err(ServiceErrorView::Inventory(error))),
            Ok((recorded, _)) => (recorded, Ok(LeaseResultView { lease, already_active })),
        },
    }
}

impl RepositoryService {
    fn known_session(&self, session_id: &str) -> (result: Result<SessionRecord, ServiceError>)
        ensures
            match (result, known_session(self@.inventory, session_id@)) {
                (Ok(session), Ok(expected)) => session@ == expected,
                (Err(error), Err(expected)) => error@ == expected,
                _ => false,
            },
    {
        match self.inventory.session_by_id(session_id) {
            Err(error) => Err(ServiceError::Inventory(error)),
            Ok(Some(session)) => Ok(session),
            Ok(None) => Err(session_not_found_error(session_id)),
        }
    }

    /// Registers a session in a listed worktree.
    pub fn register_session(
        &mut self,
        request: &RegisterSessionRequest,
        requested: &Place,
        worktrees: &Vec<ListedWorktree>,
        now: i64,
    ) -> (result: Result<SessionResult, ServiceError>)
        ensures
            ({
                let (inventory, outcome) = old(self)@.register_session(
                    request@,
                    requested@,
                    views(worktrees@),
                    now,
                );
                &&& final(self)@ == old(self)@.with_inventory(inventory)
                &&& match (result, outcome) {
                    (Ok(done), Ok(expected)) => done@ == expected,
                    (Err(error), Err(expected)) => error@ == expected,
                    _ => false,
                }
            }),
    {
        if let Err(error) = validate_session_request(request) {
            return Err(error);
        }
        let found = match find_worktree(worktrees, &requested.resolved_path) {
            Some(i) => i,
            None => return Err(ServiceError::NotFound(requested.path.clone())),
        };
        let listed = &worktrees[found];
        if listed.worktree.bare || listed.missing() {
            return Err(invalid_request("session worktree must be an available directory"));
        }
        let (repository, records) = match self.refresh(worktrees, now) {
            Ok(both) => both,
            Err(error) => return Err(error),
        };
        let record = match find_record(&records, &listed.worktree.path) {
            Some(i) => &records[i],
            None => {
                return Err(
                    invalid_request("session worktree was not persisted in the inventory"),
                );
            },
        };
        self.enroll_session(request, &requested.path, repository.id, record.id, now)
    }

    fn enroll_session(
        &mut self,
        request: &RegisterSessionRequest,
        path: &str,
        repository_id: i64,
        worktree_id: i64,
        now: i64,
    ) -> (result: Result<SessionResult, ServiceError>)
        ensures
            ({
                let (inventory, outcome) = enroll_session(
                    old(self)@.inventory,
                    request@,
                    path@,
                    repository_id,
                    worktree_id,
                    now,
                );
                &&& final(self)@ == old(self)@.with_inventory(inventory)
                &&& match (result, outcome) {
                    (Ok(done), Ok(expected)) => done@ == expected,
                    (Err(error), Err(expected)) => error@ == expected,
                    _ => false,
                }
            }),
    {
        let existing = match self.inventory.session_by_id(&request.session_id) {
            Ok(found) => found.is_some(),
            Err(error) => return Err(ServiceError::Inventory(error)),
        };
        let input = SessionInput {
            id: &request.session_id,
            worktree_id,
            provider: &request.provider,
            provider_session_id: as_slice(&request.provider_session_id),
            pid: request.pid,
            process_started_at: request.process_started_at,
            terminal_metadata: as_slice(&request.terminal_metadata),
            now,
        };
        let event = EventMetadata {
            repository_id,
            worktree_id: Some(worktree_id),
            occurred_at: now,
            actor: &request.actor,
            action: "register_session",
            result: if existing {
                "idempotent-replay"
            } else {
                "succeeded"
            },
        };
        let details = |session: &SessionRecord, lease: Option<&LeaseRecord>| -> (text: String)
            ensures
                text@ == json_text(session_details_json(request@, path@, lease_view(lease))),
            {
                session_details(request, path, lease)
            };
        match self.inventory.register_session_with_lease_and_event_builder(
            input,
            request.lease_ttl_seconds,
            event,
            details,
        ) {
            Ok(both) => Ok(
                SessionResult {
                    session: both.session,
                    lease: both.lease,
                    already_registered: existing,
                },
            ),
            Err(error) => Err(ServiceError::Inventory(error)),
        }
    }

    fn repository_record_id(&mut self, now: i64) -> (result: Result<i64, ServiceError>)
        ensures
            match (
                result,
                old(self)@.inventory.register_repository(old(self)@.inventory_repository(), now),
            ) {
                (Ok(id), Ok((inventory, row))) => id == row.id
                    && final(self)@ == old(self)@.with_inventory(inventory),
                (Err(error), Err(expected)) => error@ == ServiceErrorView::Inventory(expected)
                    && final(self)@ == old(self)@,
                _ => false,
            },
    {
        let repository = self.inventory_repository();
        match self.inventory.register_repository(&repository, now) {
            Ok(record) => Ok(record.id),
            Err(error) => Err(ServiceError::Inventory(error)),
        }
    }

    /// Notes that a session was seen, and prolongs its lease if a time is given.
    pub fn heartbeat_session(
        &mut self,
        session_id: &str,
        lease_ttl_seconds: Option<i64>,
        actor: &str,
        now: i64,
    ) -> (result: Result<HeartbeatResult, ServiceError>)
        ensures
            ({
                let (inventory, outcome) = old(self)@.heartbeat_session(
                    session_id@,
                    lease_ttl_seconds,
                    actor@,
                    now,
                );
                &&& final(self)@ == old(self)@.with_inventory(inventory)
                &&& match (result, outcome) {
                    (Ok(done), Ok(expected)) => done@ == expected,
                    (Err(error), Err(expected)) => error@ == expected,
                    _ => false,
                }
            }),
    {
        if trims_to_nothing(session_id) {
            return Err(invalid_request("session id cannot be empty"));
        }
        if let Some(ttl) = lease_ttl_seconds {
            if ttl <= 0 {
                return Err(invalid_request("lease TTL must be positive"));
            }
        }
        let session = match self.known_session(session_id) {
            Ok(session) => session,
            Err(error) => return Err(error),
        };
        let repository_id = match self.repository_record_id(now) {
            Ok(id) => id,
            Err(error) => return Err(error),
        };
        let event = EventMetadata {
            repository_id,
            worktree_id: Some(session.worktree_id),
            occurred_at: now,
            actor,
            action: "heartbeat_session",
            result: "succeeded",
        };
        let details = |row: &SessionRecord, lease: Option<&LeaseRecord>| -> (text: String)
            ensures
                text@ == json_text(heartbeat_details_json(session_id@, lease_view(lease))),
            {
                heartbeat_details(session_id, lease)
            };
        match self.inventory.heartbeat_session_with_lease_and_event_builder(
            session_id,
            lease_ttl_seconds,
            now,
            event,
            details,
        ) {
            Ok(both) => Ok(HeartbeatResult { session: both.session, lease: both.lease }),
            Err(error) => Err(ServiceError::Inventory(error)),
        }
    }

    /// Acquires the lease on a listed worktree for a session.
    pub fn acquire_lease(
        &mut self,
        requested: &Place,
        worktrees: &Vec<ListedWorktree>,
        session_id: &str,
        ttl_seconds: i64,
        actor: &str,
        now: i64,
    ) -> (result: Result<LeaseResult, ServiceError>)
        ensures
            ({
                let (inventory, outcome) = old(self)@.acquire_lease(
                    requested@,
                    views(worktrees@),
                    session_id@,
                    ttl_seconds,
                    actor@,
                    now,
                );
                &&& final(self)@ == old(self)@.with_inventory(inventory)
                &&& match (result, outcome) {
                    (Ok(done), Ok(expected)) => done@ == expected,
                    (Err(error), Err(expected)) => error@ == expected,
                    _ => false,
                }
            }),
    {
        if ttl_seconds <= 0 {
            return Err(invalid_request("lease TTL must be positive"));
        }
        let found = match find_worktree(worktrees, &requested.resolved_path) {
            Some(i) => i,
            None => return Err(ServiceError::NotFound(requested.path.clone())),
        };
        let (repository, records) = match self.refresh(worktrees, now) {
            Ok(both) => both,
            Err(error) => return Err(error),
        };
        let worktree_id = match find_record(&records, &worktrees[found].worktree.path) {
            Some(i) => records[i].id,
            None => {
                return Err(
                    invalid_request("lease worktree was not persisted in the inventory"),
                );
            },
        };
        if let Err(error) = self.known_session(session_id) {
            return Err(error);
        }
        let already_active = match self.inventory.active_lease_for_worktree(worktree_id) {
            Some(existing) => same_text(&existing.session_id, session_id) && existing.expires_at
                > now,
            None => false,
        };
        let event = EventMetadata {
            repository_id: repository.id,
            worktree_id: Some(worktree_id),
            occurred_at: now,
            actor,
            action: "acquire_lease",
            result: "succeeded",
        };
        let details = |lease: &LeaseRecord| -> (text: String)
            ensures
                text@ == json_text(lease_details_json(session_id@, lease@.id, ttl_seconds)),
            {
                lease_details(session_id, lease, ttl_seconds)
            };
        match self.inventory.acquire_lease_with_event_builder(
            worktree_id,
            session_id,
            ttl_seconds,
            now,
            event,
            details,
        ) {
            Ok(lease) => Ok(LeaseResult { lease, already_active }),
            Err(error) => Err(ServiceError::Inventory(error)),
        }
    }

    /// Gives up the leases of a session.
    pub fn release_lease(&mut self, session_id: &str, actor: &str, now: i64) -> (result: Result<
        Vec<LeaseRecord>,
        ServiceError,
    >)
        ensures
            ({
                let (inventory, outcome) = old(self)@.release_lease(session_id@, actor@, now);
                &&& final(self)@ == old(self)@.with_inventory(inventory)
                &&& match (result, outcome) {
                    (Ok(leases), Ok(expected)) => views(leases@) == expected,
                    (Err(error), Err(expected)) => error@ == expected,
                    _ => false,
                }
            }),
    {
        if trims_to_nothing(session_id) {
            return Err(invalid_request("session id cannot be empty"));
        }
        let session = match self.known_session(session_id) {
            Ok(session) => session,
            Err(error) => return Err(error),
        };
        let before = match self.inventory.leases_for_session(session_id) {
            Ok(leases) => leases,
            Err(error) => return Err(ServiceError::Inventory(error)),
        };
        let details = release_details(session_id, count_active(&before));
        let repository_id = match self.repository_record_id(now) {
            Ok(id) => id,
            Err(error) => return Err(error),
        };
        let event = EventInput {
            repository_id,
            worktree_id: Some(session.worktree_id),
            occurred_at: now,
            actor,
            action: "release_lease",
            result: "succeeded",
            details_json: &details,
        };
        match self.inventory.release_lease_with_event(session_id, now, event) {
            Ok(leases) => Ok(leases),
            Err(error) => Err(ServiceError::Inventory(error)),
        }
    }

    /// Ends a session.
    pub fn release_session(&mut self, session_id: &str, actor: &str, now: i64) -> (result: Result<
        Option<SessionRecord>,
        ServiceError,
    >)
        ensures
            ({
                let (inventory, outcome) = old(self)@.release_session(session_id@, actor@, now);
                &&& final(self)@ == old(self)@.with_inventory(inventory)
                &&& match (result, outcome) {
                    (Ok(session), Ok(expected)) => option_view(session) == expected,
                    (Err(error), Err(expected)) => error@ == expected,
                    _ => false,
                }
            }),
    {
        if trims_to_nothing(session_id) {
            return Err(invalid_request("session id cannot be empty"));
        }
        let session = match self.known_session(session_id) {
            Ok(session) => session,
            Err(error) => return Err(error),
        };
        let details = ended_details(session_id);
        let repository_id = match self.repository_record_id(now) {
            Ok(id) => id,
            Err(error) => return Err(error),
        };
        let event = EventInput {
            repository_id,
            worktree_id: Some(session.worktree_id),
            occurred_at: now,
            actor,
            action: "release_session",
            result: "succeeded",
            details_json: &details,
        };
        match self.inventory.release_session_with_event(session_id, now, event) {
            Ok(found) => Ok(found),
            Err(error) => Err(ServiceError::Inventory(error)),
        }
    }
}

} // verus!
