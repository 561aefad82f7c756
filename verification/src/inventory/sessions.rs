//! Sessions and the leases that they hold on worktrees.

use crate::inventory::records::check_option;
use crate::inventory::records::check_text;
use crate::inventory::records::dangling_reference;
use crate::inventory::records::first_fault;
use crate::inventory::records::full_error;
use crate::inventory::records::option_fault;
use crate::inventory::records::own_option;
use crate::inventory::records::reference_error;
use crate::inventory::records::table_full;
use crate::inventory::records::text_fault;
use crate::inventory::records::EventInput;
use crate::inventory::records::EventMetadata;
use crate::inventory::records::InventoryError;
use crate::inventory::records::InventoryErrorView;
use crate::inventory::records::LeaseRecord;
use crate::inventory::records::LeaseRecordView;
use crate::inventory::records::SessionInput;
use crate::inventory::records::SessionInputView;
use crate::inventory::records::SessionLeaseResult;
use crate::inventory::records::SessionRecord;
use crate::inventory::records::SessionRecordView;
use crate::inventory::state::fresh_id;
use crate::inventory::state::lease_ids;
use crate::inventory::state::next_lease_id;
use crate::inventory::state::Inventory;
use crate::inventory::state::InventoryView;
use crate::inventory::table::find_row;
use crate::inventory::table::first_match;
use crate::inventory::table::lemma_views_push;
use crate::inventory::table::map_rows;
use crate::inventory::table::select_rows;
use crate::numeral::print_i64;
use crate::numeral::signed_decimal;
use crate::text::concat3;
use crate::text::debug_string;
use crate::text::debug_text;
use crate::text::is_blank;
use crate::text::option_view;
use crate::text::same_text;
use crate::text::views;
use vstd::prelude::*;

verus! {

/// A point in time some seconds on, as far as 64 bits can tell.
pub open spec fn later(now: i64, seconds: i64) -> i64 {
    if now + seconds > i64::MAX {
        i64::MAX
    } else if now + seconds < i64::MIN {
        i64::MIN
    } else {
        (now + seconds) as i64
    }
}

/// A point in time some seconds on, as far as 64 bits can tell.
pub fn add_seconds(now: i64, seconds: i64) -> (result: i64)
    ensures
        result == later(now, seconds),
{
    if seconds > 0 {
        if now > i64::MAX - seconds {
            i64::MAX
        } else {
            now + seconds
        }
    } else if now < i64::MIN - seconds {
        i64::MIN
    } else {
        now + seconds
    }
}

/// The complaint about a lease that would be over at once.
pub open spec fn ttl_fault() -> InventoryErrorView {
    InventoryErrorView::InvalidData("lease TTL must be positive"@)
}

fn ttl_error() -> (error: InventoryError)
    ensures
        error@ == ttl_fault(),
{
    InventoryError::InvalidData("lease TTL must be positive".to_owned())
}

/// The complaint about a session that nobody registered.
pub open spec fn unknown_session(id: Seq<char>) -> InventoryErrorView {
    InventoryErrorView::Conflict("session "@ + debug_text(id) + " is not registered"@)
}

fn unknown_session_error(id: &str) -> (error: InventoryError)
    ensures
        error@ == unknown_session(id@),
{
    let key = debug_string(id);
    InventoryError::Conflict(concat3("session ", &key, " is not registered"))
}

/// The complaint about a session that is over.
pub open spec fn inactive_session(id: Seq<char>, state: Seq<char>) -> InventoryErrorView {
    InventoryErrorView::Conflict(
        "session "@ + debug_text(id) + " is not active (state "@ + debug_text(state) + ")"@,
    )
}

fn inactive_session_error(id: &str, state: &str) -> (error: InventoryError)
    ensures
        error@ == inactive_session(id@, state@),
{
    let key = debug_string(id);
    let printed = debug_string(state);
    let mut message = concat3("session ", &key, " is not active (state ");
    message.append(&printed);
    message.append(")");
    InventoryError::Conflict(message)
}

/// A session as it is registered for the first time.
pub open spec fn session_row(input: SessionInputView) -> SessionRecordView {
    SessionRecordView {
        id: input.id,
        worktree_id: input.worktree_id,
        provider: input.provider,
        provider_session_id: input.provider_session_id,
        pid: input.pid,
        process_started_at: input.process_started_at,
        terminal_metadata: input.terminal_metadata,
        state: "active"@,
        created_at: input.now,
        last_seen_at: input.now,
    }
}

/// A session as it is registered again.
pub open spec fn session_again(row: SessionRecordView, input: SessionInputView) -> SessionRecordView {
    SessionRecordView {
        provider_session_id: input.provider_session_id,
        pid: input.pid,
        process_started_at: input.process_started_at,
        terminal_metadata: input.terminal_metadata,
        state: "active"@,
        last_seen_at: input.now,
        ..row
    }
}

/// A lease as it is acquired.
pub open spec fn lease_row(
    id: i64,
    worktree_id: i64,
    session_id: Seq<char>,
    ttl_seconds: i64,
    now: i64,
) -> LeaseRecordView {
    LeaseRecordView {
        id,
        worktree_id,
        session_id,
        acquired_at: now,
        renewed_at: now,
        expires_at: later(now, ttl_seconds),
        state: "active"@,
    }
}

impl InventoryView {
    /// The session with that identifier.
    pub open spec fn session(self, id: Seq<char>) -> Option<SessionRecordView> {
        first_match(self.sessions, |row: SessionRecordView| row.id == id)
    }

    /// The lease with that identifier.
    pub open spec fn lease(self, id: i64) -> Option<LeaseRecordView> {
        first_match(self.leases, |row: LeaseRecordView| row.id == id)
    }

    /// The active lease on a worktree, run out or not.
    pub open spec fn worktree_lease(self, worktree_id: i64) -> Option<LeaseRecordView> {
        first_match(
            self.leases,
            |row: LeaseRecordView| row.worktree_id == worktree_id && row.state == "active"@,
        )
    }

    /// The active lease on a worktree that has not run out.
    pub open spec fn live_worktree_lease(
        self,
        worktree_id: i64,
        now: i64,
    ) -> Option<LeaseRecordView> {
        first_match(
            self.leases,
            |row: LeaseRecordView|
                row.worktree_id == worktree_id
                    && row.state == "active"@
                    && row.expires_at > now,
        )
    }

    /// The active lease of a session that has not run out.
    pub open spec fn session_lease(self, session_id: Seq<char>, now: i64) -> Option<LeaseRecordView> {
        first_match(
            self.leases,
            |row: LeaseRecordView|
                row.session_id == session_id
                    && row.state == "active"@
                    && row.expires_at > now,
        )
    }

    /// The leases of a session, in the order in which they were acquired.
    pub open spec fn session_leases(self, session_id: Seq<char>) -> Seq<LeaseRecordView> {
        self.leases.filter(|row: LeaseRecordView| row.session_id == session_id)
    }

    /// The active leases that have run out.
    pub open spec fn run_out_leases(self, now: i64) -> Seq<LeaseRecordView> {
        self.leases.filter(
            |row: LeaseRecordView| row.state == "active"@ && row.expires_at <= now,
        )
    }

    /// Every lease that has run out is expired.
    pub open spec fn with_leases_expired(self, now: i64) -> InventoryView {
        InventoryView {
            leases: self.leases.map_values(
                |row: LeaseRecordView|
                    if row.state == "active"@ && row.expires_at <= now {
                        LeaseRecordView { state: "expired"@, renewed_at: now, ..row }
                    } else {
                        row
                    },
            ),
            ..self
        }
    }

    /// Every lease on a worktree that has run out is expired.
    pub open spec fn with_worktree_leases_expired(self, worktree_id: i64, now: i64) -> InventoryView {
        InventoryView {
            leases: self.leases.map_values(
                |row: LeaseRecordView|
                    if row.worktree_id == worktree_id
                        && row.state == "active"@
                        && row.expires_at <= now {
                        LeaseRecordView { state: "expired"@, renewed_at: now, ..row }
                    } else {
                        row
                    },
            ),
            ..self
        }
    }

    /// Every lease on a worktree is ended.
    pub open spec fn with_worktree_leases_ended(self, worktree_id: i64, now: i64) -> InventoryView {
        InventoryView {
            leases: self.leases.map_values(
                |row: LeaseRecordView|
                    if row.worktree_id == worktree_id && row.state == "active"@ {
                        LeaseRecordView { state: "expired"@, renewed_at: now, ..row }
                    } else {
                        row
                    },
            ),
            ..self
        }
    }

    /// Every session in a worktree is left behind.
    pub open spec fn with_worktree_sessions_stale(self, worktree_id: i64, now: i64) -> InventoryView {
        InventoryView {
            sessions: self.sessions.map_values(
                |row: SessionRecordView|
                    if row.worktree_id == worktree_id && row.state == "active"@ {
                        SessionRecordView { state: "stale"@, last_seen_at: now, ..row }
                    } else {
                        row
                    },
            ),
            ..self
        }
    }

    /// A worktree is gone: its leases end and its sessions are left behind.
    pub open spec fn with_worktree_abandoned(self, worktree_id: i64, now: i64) -> InventoryView {
        self.with_worktree_leases_ended(worktree_id, now).with_worktree_sessions_stale(
            worktree_id,
            now,
        )
    }

    /// The leases of a session are given up.
    pub open spec fn with_session_leases_released(
        self,
        session_id: Seq<char>,
        now: i64,
    ) -> InventoryView {
        InventoryView {
            leases: self.leases.map_values(
                |row: LeaseRecordView|
                    if row.session_id == session_id && row.state == "active"@ {
                        LeaseRecordView { state: "released"@, renewed_at: now, ..row }
                    } else {
                        row
                    },
            ),
            ..self
        }
    }

    /// A session is over.
    pub open spec fn with_session_ended(self, session_id: Seq<char>, now: i64) -> InventoryView {
        InventoryView {
            sessions: self.sessions.map_values(
                |row: SessionRecordView|
                    if row.id == session_id {
                        SessionRecordView { state: "released"@, last_seen_at: now, ..row }
                    } else {
                        row
                    },
            ),
            ..self
        }
    }

    /// A session was seen.
    pub open spec fn with_session_touched(self, session_id: Seq<char>, now: i64) -> InventoryView {
        InventoryView {
            sessions: self.sessions.map_values(
                |row: SessionRecordView|
                    if row.id == session_id && row.state == "active"@ {
                        SessionRecordView { last_seen_at: now, ..row }
                    } else {
                        row
                    },
            ),
            ..self
        }
    }

    /// The lease of a session is prolonged.
    pub open spec fn with_session_lease_renewed(
        self,
        session_id: Seq<char>,
        ttl_seconds: i64,
        now: i64,
    ) -> InventoryView {
        InventoryView {
            leases: self.leases.map_values(
                |row: LeaseRecordView|
                    if row.session_id == session_id
                        && row.state == "active"@
                        && row.expires_at > now {
                        LeaseRecordView {
                            renewed_at: now,
                            expires_at: later(now, ttl_seconds),
                            ..row
                        }
                    } else {
                        row
                    },
            ),
            ..self
        }
    }

    /// A lease is prolonged.
    pub open spec fn with_lease_renewed(self, id: i64, ttl_seconds: i64, now: i64) -> InventoryView {
        InventoryView {
            leases: self.leases.map_values(
                |row: LeaseRecordView|
                    if row.id == id {
                        LeaseRecordView {
                            renewed_at: now,
                            expires_at: later(now, ttl_seconds),
                            state: "active"@,
                            ..row
                        }
                    } else {
                        row
                    },
            ),
            ..self
        }
    }

    /// A session with the details it was registered with anew.
    pub open spec fn with_session_again(self, input: SessionInputView) -> InventoryView {
        InventoryView {
            sessions: self.sessions.map_values(
                |row: SessionRecordView|
                    if row.id == input.id {
                        session_again(row, input)
                    } else {
                        row
                    },
            ),
            ..self
        }
    }

    /// A session is registered, or registered again with the same worktree and
    /// provider.
    pub open spec fn register_session(self, input: SessionInputView) -> Result<
        (InventoryView, SessionRecordView),
        InventoryErrorView,
    > {
        if input.id.len() == 0 || input.provider.len() == 0 {
            Err(InventoryErrorView::InvalidData("session id and provider cannot be empty"@))
        } else if text_fault(input.id) is Some {
            Err(text_fault(input.id)->0)
        } else {
            let details = first_fault(
                option_fault(input.provider_session_id),
                option_fault(input.terminal_metadata),
            );
            match self.session(input.id) {
                Some(existing) => if existing.worktree_id != input.worktree_id || existing.provider
                    != input.provider {
                    Err(
                        InventoryErrorView::Conflict(
                            "session "@ + debug_text(input.id)
                                + " is already registered to another worktree or provider"@,
                        ),
                    )
                } else if details is Some {
                    Err(details->0)
                } else {
                    Ok((self.with_session_again(input), session_again(existing, input)))
                },
                None => {
                    let fault = first_fault(text_fault(input.provider), details);
                    if fault is Some {
                        Err(fault->0)
                    } else if self.worktree_with_id(input.worktree_id) is None {
                        Err(dangling_reference())
                    } else {
                        Ok(
                            (
                                InventoryView {
                                    sessions: self.sessions.push(session_row(input)),
                                    ..self
                                },
                                session_row(input),
                            ),
                        )
                    }
                },
            }
        }
    }

    /// A session acquires the lease on its worktree, or prolongs the one it has.
    /// A worktree that another session has leased is a conflict.
    pub open spec fn take_lease(
        self,
        worktree_id: i64,
        session_id: Seq<char>,
        ttl_seconds: i64,
        now: i64,
    ) -> Result<(InventoryView, LeaseRecordView), InventoryErrorView> {
        if text_fault(session_id) is Some {
            Err(text_fault(session_id)->0)
        } else {
            match self.session(session_id) {
                None => Err(unknown_session(session_id)),
                Some(session) => if session.state != "active"@ {
                    Err(inactive_session(session_id, session.state))
                } else if session.worktree_id != worktree_id {
                    Err(
                        InventoryErrorView::Conflict(
                            "session "@ + debug_text(session_id) + " belongs to worktree "@
                                + signed_decimal(session.worktree_id as int) + ", not "@
                                + signed_decimal(worktree_id as int),
                        ),
                    )
                } else {
                    self.with_worktree_leases_expired(worktree_id, now).claim_lease(
                        worktree_id,
                        session_id,
                        ttl_seconds,
                        now,
                    )
                },
            }
        }
    }

    /// The lease on a worktree without leases that have run out goes to a session.
    pub open spec fn claim_lease(
        self,
        worktree_id: i64,
        session_id: Seq<char>,
        ttl_seconds: i64,
        now: i64,
    ) -> Result<(InventoryView, LeaseRecordView), InventoryErrorView> {
        match self.worktree_lease(worktree_id) {
            Some(existing) => if existing.session_id != session_id {
                Err(
                    InventoryErrorView::Conflict(
                        "worktree "@ + signed_decimal(worktree_id as int)
                            + " is leased by session "@ + debug_text(existing.session_id),
                    ),
                )
            } else {
                Ok(
                    (
                        self.with_lease_renewed(existing.id, ttl_seconds, now),
                        LeaseRecordView {
                            renewed_at: now,
                            expires_at: later(now, ttl_seconds),
                            state: "active"@,
                            ..existing
                        },
                    ),
                )
            },
            None => match fresh_id(lease_ids(self.leases)) {
                None => Err(table_full()),
                Some(id) => {
                    let row = lease_row(id, worktree_id, session_id, ttl_seconds, now);
                    Ok((InventoryView { leases: self.leases.push(row), ..self }, row))
                },
            },
        }
    }

    /// A session acquires the lease on its worktree for a positive time.
    pub open spec fn acquire_lease(
        self,
        worktree_id: i64,
        session_id: Seq<char>,
        ttl_seconds: i64,
        now: i64,
    ) -> Result<(InventoryView, LeaseRecordView), InventoryErrorView> {
        if ttl_seconds <= 0 {
            Err(ttl_fault())
        } else {
            self.take_lease(worktree_id, session_id, ttl_seconds, now)
        }
    }

    /// A session is registered and, if a time is given, leases its worktree.
    pub open spec fn register_with_lease(
        self,
        input: SessionInputView,
        lease_ttl_seconds: Option<i64>,
    ) -> Result<(InventoryView, SessionRecordView, Option<LeaseRecordView>), InventoryErrorView> {
        if input.id.len() == 0 || input.provider.len() == 0 {
            Err(InventoryErrorView::InvalidData("session id and provider cannot be empty"@))
        } else if lease_ttl_seconds is Some && lease_ttl_seconds->0 <= 0 {
            Err(ttl_fault())
        } else {
            match self.register_session(input) {
                Err(error) => Err(error),
                Ok((registered, session)) => match lease_ttl_seconds {
                    None => Ok((registered, session, None)),
                    Some(ttl) => match registered.take_lease(
                        input.worktree_id,
                        input.id,
                        ttl,
                        input.now,
                    ) {
                        Err(error) => Err(error),
                        Ok((leased, lease)) => Ok((leased, session, Some(lease))),
                    },
                },
            }
        }
    }

    /// A session was seen; if a time is given, its lease is prolonged, or
    /// acquired where it has run out.
    pub open spec fn heartbeat(
        self,
        session_id: Seq<char>,
        lease_ttl_seconds: Option<i64>,
        now: i64,
    ) -> Result<(InventoryView, SessionRecordView, Option<LeaseRecordView>), InventoryErrorView> {
        let current = self.with_leases_expired(now);
        if lease_ttl_seconds is Some && lease_ttl_seconds->0 <= 0 {
            Err(ttl_fault())
        } else if text_fault(session_id) is Some {
            Err(text_fault(session_id)->0)
        } else {
            match current.session(session_id) {
                None => Err(unknown_session(session_id)),
                Some(found) => if found.state != "active"@ {
                    Err(inactive_session(session_id, found.state))
                } else {
                    let touched = current.with_session_touched(session_id, now);
                    let session = SessionRecordView { last_seen_at: now, ..found };
                    match lease_ttl_seconds {
                        None => Ok((touched, session, touched.session_lease(session_id, now))),
                        Some(ttl) => {
                            let renewed = touched.with_session_lease_renewed(session_id, ttl, now);
                            match renewed.session_lease(session_id, now) {
                                Some(lease) => Ok((renewed, session, Some(lease))),
                                None => match renewed.take_lease(
                                    session.worktree_id,
                                    session_id,
                                    ttl,
                                    now,
                                ) {
                                    Err(error) => Err(error),
                                    Ok((leased, lease)) => Ok((leased, session, Some(lease))),
                                },
                            }
                        },
                    }
                },
            }
        }
    }

    /// A session is over and its leases are given up.
    pub open spec fn release_session(self, session_id: Seq<char>, now: i64) -> Result<
        (InventoryView, Option<SessionRecordView>),
        InventoryErrorView,
    > {
        if text_fault(session_id) is Some {
            Err(text_fault(session_id)->0)
        } else {
            Ok(
                (
                    self.with_session_leases_released(session_id, now).with_session_ended(
                        session_id,
                        now,
                    ),
                    match self.session(session_id) {
                        Some(row) => Some(
                            SessionRecordView { state: "released"@, last_seen_at: now, ..row },
                        ),
                        None => None,
                    },
                ),
            )
        }
    }

    /// The leases of a session are given up.
    pub open spec fn release_lease(self, session_id: Seq<char>, now: i64) -> Result<
        (InventoryView, Seq<LeaseRecordView>),
        InventoryErrorView,
    > {
        if text_fault(session_id) is Some {
            Err(text_fault(session_id)->0)
        } else {
            let released = self.with_session_leases_released(session_id, now);
            Ok((released, released.session_leases(session_id)))
        }
    }
}

impl Inventory {
    fn find_session(&self, id: &str) -> (found: Option<usize>)
        ensures
            match found {
                Some(i) => i < self.sessions@.len()
                    && self@.session(id@) == Some(self.sessions@[i as int]@),
                None => self@.session(id@) is None,
            },
    {
        let test = |row: &SessionRecord| -> (answer: bool)
            ensures
                answer == (row@.id == id@),
            {
                same_text(&row.id, id)
            };
        find_row(&self.sessions, test, Ghost(|row: SessionRecordView| row.id == id@))
    }

    fn find_lease(&self, id: i64) -> (found: Option<usize>)
        ensures
            match found {
                Some(i) => i < self.leases@.len()
                    && self@.lease(id) == Some(self.leases@[i as int]@),
                None => self@.lease(id) is None,
            },
    {
        let test = |row: &LeaseRecord| -> (answer: bool)
            ensures
                answer == (row@.id == id),
            {
                row.id == id
            };
        find_row(&self.leases, test, Ghost(|row: LeaseRecordView| row.id == id))
    }

    fn find_worktree_lease(&self, worktree_id: i64) -> (found: Option<usize>)
        ensures
            match found {
                Some(i) => i < self.leases@.len()
                    && self@.worktree_lease(worktree_id) == Some(self.leases@[i as int]@),
                None => self@.worktree_lease(worktree_id) is None,
            },
    {
        let test = |row: &LeaseRecord| -> (answer: bool)
            ensures
                answer == (row@.worktree_id == worktree_id && row@.state == "active"@),
            {
                row.worktree_id == worktree_id && same_text(&row.state, "active")
            };
        find_row(
            &self.leases,
            test,
            Ghost(|row: LeaseRecordView| row.worktree_id == worktree_id && row.state == "active"@),
        )
    }

    fn find_live_worktree_lease(&self, worktree_id: i64, now: i64) -> (found: Option<usize>)
        ensures
            match found {
                Some(i) => i < self.leases@.len()
                    && self@.live_worktree_lease(worktree_id, now) == Some(self.leases@[i as int]@),
                None => self@.live_worktree_lease(worktree_id, now) is None,
            },
    {
        let test = |row: &LeaseRecord| -> (answer: bool)
            ensures
                answer == (
                    row@.worktree_id == worktree_id
                        && row@.state == "active"@
                        && row@.expires_at > now
                ),
            {
                row.worktree_id == worktree_id
                    && same_text(&row.state, "active")
                    && row.expires_at > now
            };
        find_row(
            &self.leases,
            test,
            Ghost(
                |row: LeaseRecordView|
                    row.worktree_id == worktree_id
                        && row.state == "active"@
                        && row.expires_at > now
            ),
        )
    }

    fn find_session_lease(&self, session_id: &str, now: i64) -> (found: Option<usize>)
        ensures
            match found {
                Some(i) => i < self.leases@.len()
                    && self@.session_lease(session_id@, now) == Some(self.leases@[i as int]@),
                None => self@.session_lease(session_id@, now) is None,
            },
    {
        let test = |row: &LeaseRecord| -> (answer: bool)
            ensures
                answer == (
                    row@.session_id == session_id@
                        && row@.state == "active"@
                        && row@.expires_at > now
                ),
            {
                same_text(&row.session_id, session_id)
                    && same_text(&row.state, "active")
                    && row.expires_at > now
            };
        find_row(
            &self.leases,
            test,
            Ghost(
                |row: LeaseRecordView|
                    row.session_id == session_id@
                        && row.state == "active"@
                        && row.expires_at > now
            ),
        )
    }

    fn expire_all(&mut self, now: i64)
        ensures
            final(self)@ == old(self)@.with_leases_expired(now),
    {
        let ghost changed = |row: LeaseRecordView|
            if row.state == "active"@ && row.expires_at <= now {
                LeaseRecordView { state: "expired"@, renewed_at: now, ..row }
            } else {
                row
            };
        let change = |row: &LeaseRecord| -> (after: LeaseRecord)
            ensures
                after@ == changed(row@),
            {
                let mut after = row.clone();
                if same_text(&row.state, "active") && row.expires_at <= now {
                    after.state = "expired".to_owned();
                    after.renewed_at = now;
                }
                after
            };
        let rows = map_rows(&self.leases, change, Ghost(changed));
        self.leases = rows;
    }

    fn expire_worktree(&mut self, worktree_id: i64, now: i64)
        ensures
            final(self)@ == old(self)@.with_worktree_leases_expired(worktree_id, now),
    {
        let ghost changed = |row: LeaseRecordView|
            if row.worktree_id == worktree_id && row.state == "active"@ && row.expires_at <= now {
                LeaseRecordView { state: "expired"@, renewed_at: now, ..row }
            } else {
                row
            };
        let change = |row: &LeaseRecord| -> (after: LeaseRecord)
            ensures
                after@ == changed(row@),
            {
                let mut after = row.clone();
                if row.worktree_id == worktree_id
                    && same_text(&row.state, "active")
                    && row.expires_at <= now {
                    after.state = "expired".to_owned();
                    after.renewed_at = now;
                }
                after
            };
        let rows = map_rows(&self.leases, change, Ghost(changed));
        self.leases = rows;
    }

    fn end_worktree_leases(&mut self, worktree_id: i64, now: i64)
        ensures
            final(self)@ == old(self)@.with_worktree_leases_ended(worktree_id, now),
    {
        let ghost changed = |row: LeaseRecordView|
            if row.worktree_id == worktree_id && row.state == "active"@ {
                LeaseRecordView { state: "expired"@, renewed_at: now, ..row }
            } else {
                row
            };
        let change = |row: &LeaseRecord| -> (after: LeaseRecord)
            ensures
                after@ == changed(row@),
            {
                let mut after = row.clone();
                if row.worktree_id == worktree_id && same_text(&row.state, "active") {
                    after.state = "expired".to_owned();
                    after.renewed_at = now;
                }
                after
            };
        let rows = map_rows(&self.leases, change, Ghost(changed));
        self.leases = rows;
    }

    fn stale_worktree_sessions(&mut self, worktree_id: i64, now: i64)
        ensures
            final(self)@ == old(self)@.with_worktree_sessions_stale(worktree_id, now),
    {
        let ghost changed = |row: SessionRecordView|
            if row.worktree_id == worktree_id && row.state == "active"@ {
                SessionRecordView { state: "stale"@, last_seen_at: now, ..row }
            } else {
                row
            };
        let change = |row: &SessionRecord| -> (after: SessionRecord)
            ensures
                after@ == changed(row@),
            {
                let mut after = row.clone();
                if row.worktree_id == worktree_id && same_text(&row.state, "active") {
                    after.state = "stale".to_owned();
                    after.last_seen_at = now;
                }
                after
            };
        let rows = map_rows(&self.sessions, change, Ghost(changed));
        self.sessions = rows;
    }

    fn release_leases_of(&mut self, session_id: &str, now: i64)
        ensures
            final(self)@ == old(self)@.with_session_leases_released(session_id@, now),
    {
        let ghost changed = |row: LeaseRecordView|
            if row.session_id == session_id@ && row.state == "active"@ {
                LeaseRecordView { state: "released"@, renewed_at: now, ..row }
            } else {
                row
            };
        let change = |row: &LeaseRecord| -> (after: LeaseRecord)
            ensures
                after@ == changed(row@),
            {
                let mut after = row.clone();
                if same_text(&row.session_id, session_id) && same_text(&row.state, "active") {
                    after.state = "released".to_owned();
                    after.renewed_at = now;
                }
                after
            };
        let rows = map_rows(&self.leases, change, Ghost(changed));
        self.leases = rows;
    }

    fn end_session(&mut self, session_id: &str, now: i64)
        ensures
            final(self)@ == old(self)@.with_session_ended(session_id@, now),
    {
        let ghost changed = |row: SessionRecordView|
            if row.id == session_id@ {
                SessionRecordView { state: "released"@, last_seen_at: now, ..row }
            } else {
                row
            };
        let change = |row: &SessionRecord| -> (after: SessionRecord)
            ensures
                after@ == changed(row@),
            {
                let mut after = row.clone();
                if same_text(&row.id, session_id) {
                    after.state = "released".to_owned();
                    after.last_seen_at = now;
                }
                after
            };
        let rows = map_rows(&self.sessions, change, Ghost(changed));
        self.sessions = rows;
    }

    fn see_session(&mut self, session_id: &str, now: i64)
        ensures
            final(self)@ == old(self)@.with_session_touched(session_id@, now),
    {
        let ghost changed = |row: SessionRecordView|
            if row.id == session_id@ && row.state == "active"@ {
                SessionRecordView { last_seen_at: now, ..row }
            } else {
                row
            };
        let change = |row: &SessionRecord| -> (after: SessionRecord)
            ensures
                after@ == changed(row@),
            {
                let mut after = row.clone();
                if same_text(&row.id, session_id) && same_text(&row.state, "active") {
                    after.last_seen_at = now;
                }
                after
            };
        let rows = map_rows(&self.sessions, change, Ghost(changed));
        self.sessions = rows;
    }

    fn prolong_session_lease(&mut self, session_id: &str, ttl_seconds: i64, now: i64)
        ensures
            final(self)@ == old(self)@.with_session_lease_renewed(session_id@, ttl_seconds, now),
    {
        let ghost changed = |row: LeaseRecordView|
            if row.session_id == session_id@ && row.state == "active"@ && row.expires_at > now {
                LeaseRecordView { renewed_at: now, expires_at: later(now, ttl_seconds), ..row }
            } else {
                row
            };
        let change = |row: &LeaseRecord| -> (after: LeaseRecord)
            ensures
                after@ == changed(row@),
            {
                let mut after = row.clone();
                if same_text(&row.session_id, session_id)
                    && same_text(&row.state, "active")
                    && row.expires_at > now {
                    after.renewed_at = now;
                    after.expires_at = add_seconds(now, ttl_seconds);
                }
                after
            };
        let rows = map_rows(&self.leases, change, Ghost(changed));
        self.leases = rows;
    }

    fn prolong_lease(&mut self, id: i64, ttl_seconds: i64, now: i64)
        ensures
            final(self)@ == old(self)@.with_lease_renewed(id, ttl_seconds, now),
    {
        let ghost changed = |row: LeaseRecordView|
            if row.id == id {
                LeaseRecordView {
                    renewed_at: now,
                    expires_at: later(now, ttl_seconds),
                    state: "active"@,
                    ..row
                }
            } else {
                row
            };
        let change = |row: &LeaseRecord| -> (after: LeaseRecord)
            ensures
                after@ == changed(row@),
            {
                let mut after = row.clone();
                if row.id == id {
                    after.renewed_at = now;
                    after.expires_at = add_seconds(now, ttl_seconds);
                    after.state = "active".to_owned();
                }
                after
            };
        let rows = map_rows(&self.leases, change, Ghost(changed));
        self.leases = rows;
    }

    /// Ends the leases on a worktree that is gone and leaves its sessions behind.
    pub fn mark_sessions_stale_for_worktree(&mut self, worktree_id: i64, now: i64)
        ensures
            final(self)@ == old(self)@.with_worktree_abandoned(worktree_id, now),
    {
        self.end_worktree_leases(worktree_id, now);
        self.stale_worktree_sessions(worktree_id, now);
    }

    /// Whether a worktree is leased at a point in time.
    pub fn active_lease_exists(&self, worktree_id: i64, now: i64) -> (leased: bool)
        ensures
            leased == self@.live_worktree_lease(worktree_id, now) is Some,
    {
        self.find_live_worktree_lease(worktree_id, now).is_some()
    }

    /// The session with that identifier.
    pub fn session_by_id(&self, id: &str) -> (result: Result<Option<SessionRecord>, InventoryError>)
        ensures
            match result {
                Ok(found) => text_fault(id@) is None && option_view(found) == self@.session(id@),
                Err(error) => text_fault(id@) == Some(error@),
            },
    {
        if let Some(fault) = check_text(id) {
            return Err(fault);
        }
        match self.find_session(id) {
            Some(i) => Ok(Some(self.sessions[i].clone())),
            None => Ok(None),
        }
    }

    /// The lease with that identifier.
    pub fn lease_by_id(&self, id: i64) -> (found: Option<LeaseRecord>)
        ensures
            option_view(found) == self@.lease(id),
    {
        match self.find_lease(id) {
            Some(i) => Some(self.leases[i].clone()),
            None => None,
        }
    }

    /// The active lease on a worktree, run out or not.
    pub fn active_lease_for_worktree(&self, worktree_id: i64) -> (found: Option<LeaseRecord>)
        ensures
            option_view(found) == self@.worktree_lease(worktree_id),
    {
        match self.find_worktree_lease(worktree_id) {
            Some(i) => Some(self.leases[i].clone()),
            None => None,
        }
    }

    /// The active lease of a session that has not run out.
    pub fn active_lease_for_session(&self, session_id: &str, now: i64) -> (result: Result<
        Option<LeaseRecord>,
        InventoryError,
    >)
        ensures
            match result {
                Ok(found) => text_fault(session_id@) is None && option_view(found)
                    == self@.session_lease(session_id@, now),
                Err(error) => text_fault(session_id@) == Some(error@),
            },
    {
        if let Some(fault) = check_text(session_id) {
            return Err(fault);
        }
        match self.find_session_lease(session_id, now) {
            Some(i) => Ok(Some(self.leases[i].clone())),
            None => Ok(None),
        }
    }

    fn copy_session_leases(&self, session_id: &str) -> (leases: Vec<LeaseRecord>)
        ensures
            views(leases@) == self@.session_leases(session_id@),
    {
        let pick = |row: &LeaseRecord| -> (picked: Option<LeaseRecord>)
            ensures
                match picked {
                    Some(copy) => row@.session_id == session_id@ && copy@ == row@,
                    None => row@.session_id != session_id@,
                },
            {
                if same_text(&row.session_id, session_id) {
                    Some(row.clone())
                } else {
                    None
                }
            };
        select_rows(
            &self.leases,
            pick,
            Ghost(|row: LeaseRecordView| row.session_id == session_id@),
        )
    }

    /// The leases of a session, in the order in which they were acquired.
    pub fn leases_for_session(&self, session_id: &str) -> (result: Result<
        Vec<LeaseRecord>,
        InventoryError,
    >)
        ensures
            match result {
                Ok(leases) => text_fault(session_id@) is None && views(leases@)
                    == self@.session_leases(session_id@),
                Err(error) => text_fault(session_id@) == Some(error@),
            },
    {
        if let Some(fault) = check_text(session_id) {
            return Err(fault);
        }
        Ok(self.copy_session_leases(session_id))
    }

    /// Expires the leases that have run out, and counts them.
    pub fn expire_leases(&mut self, now: i64) -> (count: u64)
        ensures
            final(self)@ == old(self)@.with_leases_expired(now),
            count == old(self)@.run_out_leases(now).len(),
    {
        let pick = |row: &LeaseRecord| -> (picked: Option<LeaseRecord>)
            ensures
                match picked {
                    Some(copy) => row@.state == "active"@ && row@.expires_at <= now && copy@
                        == row@,
                    None => !(row@.state == "active"@ && row@.expires_at <= now),
                },
            {
                if same_text(&row.state, "active") && row.expires_at <= now {
                    Some(row.clone())
                } else {
                    None
                }
            };
        let run_out = select_rows(
            &self.leases,
            pick,
            Ghost(|row: LeaseRecordView| row.state == "active"@ && row.expires_at <= now),
        );
        assert(views(run_out@).len() == run_out@.len());
        let count: usize = run_out.len();
        self.expire_all(now);
        count as u64
    }

    fn register_again(&mut self, input: SessionInput<'_>)
        ensures
            final(self)@ == old(self)@.with_session_again(input@),
    {
        let ghost view = input@;
        let ghost changed = |row: SessionRecordView|
            if row.id == view.id {
                session_again(row, view)
            } else {
                row
            };
        let change = |row: &SessionRecord| -> (after: SessionRecord)
            ensures
                after@ == changed(row@),
            {
                let mut after = row.clone();
                if same_text(&row.id, input.id) {
                    after.provider_session_id = own_option(input.provider_session_id);
                    after.pid = input.pid;
                    after.process_started_at = input.process_started_at;
                    after.terminal_metadata = own_option(input.terminal_metadata);
                    after.state = "active".to_owned();
                    after.last_seen_at = input.now;
                }
                after
            };
        let rows = map_rows(&self.sessions, change, Ghost(changed));
        self.sessions = rows;
    }

    /// Registers a session.
    pub fn register_session(&mut self, input: SessionInput<'_>) -> (result: Result<
        SessionRecord,
        InventoryError,
    >)
        ensures
            match (result, old(self)@.register_session(input@)) {
                (Ok(record), Ok((inventory, row))) => record@ == row && final(self)@ == inventory,
                (Err(error), Err(expected)) => error@ == expected && final(self)@ == old(self)@,
                _ => false,
            },
    {
        if is_blank(input.id) || is_blank(input.provider) {
            return Err(
                InventoryError::InvalidData("session id and provider cannot be empty".to_owned()),
            );
        }
        if let Some(fault) = check_text(input.id) {
            return Err(fault);
        }
        match self.find_session(input.id) {
            Some(i) => {
                let mut record = self.sessions[i].clone();
                if record.worktree_id != input.worktree_id || !same_text(
                    &record.provider,
                    input.provider,
                ) {
                    let key = debug_string(input.id);
                    return Err(
                        InventoryError::Conflict(
                            concat3(
                                "session ",
                                &key,
                                " is already registered to another worktree or provider",
                            ),
                        ),
                    );
                }
                if let Some(fault) = check_option(input.provider_session_id) {
                    return Err(fault);
                }
                if let Some(fault) = check_option(input.terminal_metadata) {
                    return Err(fault);
                }
                self.register_again(input);
                record.provider_session_id = own_option(input.provider_session_id);
                record.pid = input.pid;
                record.process_started_at = input.process_started_at;
                record.terminal_metadata = own_option(input.terminal_metadata);
                record.state = "active".to_owned();
                record.last_seen_at = input.now;
                Ok(record)
            },
            None => {
                if let Some(fault) = check_text(input.provider) {
                    return Err(fault);
                }
                if let Some(fault) = check_option(input.provider_session_id) {
                    return Err(fault);
                }
                if let Some(fault) = check_option(input.terminal_metadata) {
                    return Err(fault);
                }
                if self.find_worktree_id(input.worktree_id).is_none() {
                    return Err(reference_error());
                }
                let record = SessionRecord {
                    id: input.id.to_owned(),
                    worktree_id: input.worktree_id,
                    provider: input.provider.to_owned(),
                    provider_session_id: own_option(input.provider_session_id),
                    pid: input.pid,
                    process_started_at: input.process_started_at,
                    terminal_metadata: own_option(input.terminal_metadata),
                    state: "active".to_owned(),
                    created_at: input.now,
                    last_seen_at: input.now,
                };
                let row = record.clone();
                proof {
                    lemma_views_push(self.sessions@, row);
                }
                self.sessions.push(row);
                Ok(record)
            },
        }
    }

    /// Notes that a session was seen.
    pub fn touch_session(&mut self, session_id: &str, now: i64) -> (result: Result<
        Option<SessionRecord>,
        InventoryError,
    >)
        ensures
            match result {
                Ok(found) => {
                    &&& text_fault(session_id@) is None
                    &&& final(self)@ == old(self)@.with_session_touched(session_id@, now)
                    &&& option_view(found) == final(self)@.session(session_id@)
                },
                Err(error) => text_fault(session_id@) == Some(error@) && final(self)@ == old(self)@,
            },
    {
        if let Some(fault) = check_text(session_id) {
            return Err(fault);
        }
        self.see_session(session_id, now);
        self.session_by_id(session_id)
    }

    fn claim_lease(
        &mut self,
        worktree_id: i64,
        session_id: &str,
        ttl_seconds: i64,
        now: i64,
    ) -> (result: Result<LeaseRecord, InventoryError>)
        ensures
            match (
                result,
                old(self)@.claim_lease(worktree_id, session_id@, ttl_seconds, now),
            ) {
                (Ok(record), Ok((inventory, row))) => record@ == row && final(self)@ == inventory,
                (Err(error), Err(expected)) => error@ == expected && final(self)@ == old(self)@,
                _ => false,
            },
    {
        match self.find_worktree_lease(worktree_id) {
            Some(i) => {
                let mut record = self.leases[i].clone();
                if !same_text(&record.session_id, session_id) {
                    let number = print_i64(worktree_id);
                    let owner = debug_string(&record.session_id);
                    let mut message = concat3("worktree ", &number, " is leased by session ");
                    message.append(&owner);
                    return Err(InventoryError::Conflict(message));
                }
                self.prolong_lease(record.id, ttl_seconds, now);
                record.renewed_at = now;
                record.expires_at = add_seconds(now, ttl_seconds);
                record.state = "active".to_owned();
                Ok(record)
            },
            None => {
                let id = match next_lease_id(&self.leases) {
                    Some(id) => id,
                    None => return Err(full_error()),
                };
                let record = LeaseRecord {
                    id,
                    worktree_id,
                    session_id: session_id.to_owned(),
                    acquired_at: now,
                    renewed_at: now,
                    expires_at: add_seconds(now, ttl_seconds),
                    state: "active".to_owned(),
                };
                let row = record.clone();
                proof {
                    lemma_views_push(self.leases@, row);
                }
                self.leases.push(row);
                Ok(record)
            },
        }
    }

    fn take_lease(
        &mut self,
        worktree_id: i64,
        session_id: &str,
        ttl_seconds: i64,
        now: i64,
    ) -> (result: Result<LeaseRecord, InventoryError>)
        ensures
            match (
                result,
                old(self)@.take_lease(worktree_id, session_id@, ttl_seconds, now),
            ) {
                (Ok(record), Ok((inventory, row))) => record@ == row && final(self)@ == inventory,
                (Err(error), Err(expected)) => error@ == expected && final(self)@ == old(self)@,
                _ => false,
            },
    {
        if let Some(fault) = check_text(session_id) {
            return Err(fault);
        }
        let found = match self.find_session(session_id) {
            Some(i) => i,
            None => return Err(unknown_session_error(session_id)),
        };
        if !same_text(&self.sessions[found].state, "active") {
            return Err(inactive_session_error(session_id, &self.sessions[found].state));
        }
        if self.sessions[found].worktree_id != worktree_id {
            let key = debug_string(session_id);
            let own = print_i64(self.sessions[found].worktree_id);
            let wanted = print_i64(worktree_id);
            let mut message = concat3("session ", &key, " belongs to worktree ");
            message.append(&own);
            message.append(", not ");
            message.append(&wanted);
            return Err(InventoryError::Conflict(message));
        }
        let mut draft = self.clone();
        draft.expire_worktree(worktree_id, now);
        match draft.claim_lease(worktree_id, session_id, ttl_seconds, now) {
            Ok(record) => {
                *self = draft;
                Ok(record)
            },
            Err(error) => Err(error),
        }
    }

    /// Acquires the lease on the worktree of a session, or prolongs it.
    pub fn acquire_lease(
        &mut self,
        worktree_id: i64,
        session_id: &str,
        ttl_seconds: i64,
        now: i64,
    ) -> (result: Result<LeaseRecord, InventoryError>)
        ensures
            match (
                result,
                old(self)@.acquire_lease(worktree_id, session_id@, ttl_seconds, now),
            ) {
                (Ok(record), Ok((inventory, row))) => record@ == row && final(self)@ == inventory,
                (Err(error), Err(expected)) => error@ == expected && final(self)@ == old(self)@,
                _ => false,
            },
    {
        if ttl_seconds <= 0 {
            return Err(ttl_error());
        }
        self.take_lease(worktree_id, session_id, ttl_seconds, now)
    }

    /// Acquires a lease and records an event, or does neither.
    pub fn acquire_lease_with_event(
        &mut self,
        worktree_id: i64,
        session_id: &str,
        ttl_seconds: i64,
        now: i64,
        event: EventInput<'_>,
    ) -> (result: Result<LeaseRecord, InventoryError>)
        ensures
            match old(self)@.acquire_lease(worktree_id, session_id@, ttl_seconds, now) {
                Err(expected) => result matches Err(error) && error@ == expected && final(self)@
                    == old(self)@,
                Ok((leased, lease)) => match leased.record_event(event@) {
                    Err(expected) => result matches Err(error) && error@ == expected && final(self)@
                        == old(self)@,
                    Ok((recorded, _)) => result matches Ok(record)
                        && record@ == lease
                        && final(self)@ == recorded,
                },
            },
    {
        let mut draft = self.clone();
        let lease = match draft.acquire_lease(worktree_id, session_id, ttl_seconds, now) {
            Ok(lease) => lease,
            Err(error) => return Err(error),
        };
        match draft.record_event(event) {
            Ok(_) => {
                *self = draft;
                Ok(lease)
            },
            Err(error) => Err(error),
        }
    }

    /// Acquires a lease and records an event that tells of it, or does neither.
    pub fn acquire_lease_with_event_builder<F: FnOnce(&LeaseRecord) -> String>(
        &mut self,
        worktree_id: i64,
        session_id: &str,
        ttl_seconds: i64,
        now: i64,
        event: EventMetadata<'_>,
        details: F,
    ) -> (result: Result<LeaseRecord, InventoryError>)
        requires
            forall|lease: LeaseRecord| call_requires(details, (&lease,)),
        ensures
            match old(self)@.acquire_lease(worktree_id, session_id@, ttl_seconds, now) {
                Err(expected) => result matches Err(error) && error@ == expected && final(self)@
                    == old(self)@,
                Ok((leased, lease)) => exists|record: LeaseRecord, text: String|
                    record@ == lease && #[trigger] call_ensures(details, (&record,), text)
                        && match leased.record_event(event@.with_details(text@)) {
                        Err(expected) => result matches Err(error)
                            && error@ == expected
                            && final(self)@ == old(self)@,
                        Ok((recorded, _)) => result == Ok::<LeaseRecord, InventoryError>(record)
                            && final(self)@ == recorded,
                    },
            },
    {
        let mut draft = self.clone();
        let lease = match draft.acquire_lease(worktree_id, session_id, ttl_seconds, now) {
            Ok(lease) => lease,
            Err(error) => return Err(error),
        };
        let text = details(&lease);
        match draft.record_event(event.with_details(&text)) {
            Ok(_) => {
                *self = draft;
                Ok(lease)
            },
            Err(error) => Err(error),
        }
    }

    fn register_with_lease(
        &mut self,
        input: SessionInput<'_>,
        lease_ttl_seconds: Option<i64>,
    ) -> (result: Result<SessionLeaseResult, InventoryError>)
        ensures
            match (result, old(self)@.register_with_lease(input@, lease_ttl_seconds)) {
                (Ok(both), Ok((inventory, session, lease))) => both@.session == session
                    && both@.lease == lease && final(self)@ == inventory,
                (Err(error), Err(expected)) => error@ == expected && final(self)@ == old(self)@,
                _ => false,
            },
    {
        if is_blank(input.id) || is_blank(input.provider) {
            return Err(
                InventoryError::InvalidData("session id and provider cannot be empty".to_owned()),
            );
        }
        if let Some(ttl) = lease_ttl_seconds {
            if ttl <= 0 {
                return Err(ttl_error());
            }
        }
        let mut draft = self.clone();
        let session = match draft.register_session(input) {
            Ok(session) => session,
            Err(error) => return Err(error),
        };
        let lease = match lease_ttl_seconds {
            Some(ttl) => match draft.take_lease(input.worktree_id, input.id, ttl, input.now) {
                Ok(lease) => Some(lease),
                Err(error) => return Err(error),
            },
            None => None,
        };
        *self = draft;
        Ok(SessionLeaseResult { session, lease })
    }

    /// Registers a session, leases its worktree if a time is given, and records
    /// an event, or does nothing of it.
    pub fn register_session_with_lease_and_event(
        &mut self,
        input: SessionInput<'_>,
        lease_ttl_seconds: Option<i64>,
        event: EventInput<'_>,
    ) -> (result: Result<SessionLeaseResult, InventoryError>)
        ensures
            match old(self)@.register_with_lease(input@, lease_ttl_seconds) {
                Err(expected) => result matches Err(error) && error@ == expected && final(self)@
                    == old(self)@,
                Ok((registered, session, lease)) => match registered.record_event(event@) {
                    Err(expected) => result matches Err(error) && error@ == expected && final(self)@
                        == old(self)@,
                    Ok((recorded, _)) => result matches Ok(both) && both@.session == session
                        && both@.lease == lease && final(self)@ == recorded,
                },
            },
    {
        let mut draft = self.clone();
        let both = match draft.register_with_lease(input, lease_ttl_seconds) {
            Ok(both) => both,
            Err(error) => return Err(error),
        };
        match draft.record_event(event) {
            Ok(_) => {
                *self = draft;
                Ok(both)
            },
            Err(error) => Err(error),
        }
    }

    /// Registers a session, leases its worktree if a time is given, and records
    /// an event that tells of both, or does nothing of it.
    pub fn register_session_with_lease_and_event_builder<
        F: FnOnce(&SessionRecord, Option<&LeaseRecord>) -> String,
    >(
        &mut self,
        input: SessionInput<'_>,
        lease_ttl_seconds: Option<i64>,
        event: EventMetadata<'_>,
        details: F,
    ) -> (result: Result<SessionLeaseResult, InventoryError>)
        requires
            forall|session: SessionRecord, lease: Option<&LeaseRecord>|
                call_requires(details, (&session, lease)),
        ensures
            match old(self)@.register_with_lease(input@, lease_ttl_seconds) {
                Err(expected) => result matches Err(error) && error@ == expected && final(self)@
                    == old(self)@,
                Ok((registered, session, lease)) => exists|
                    record: SessionRecord,
                    held: Option<&LeaseRecord>,
                    text: String,
                |
                    record@ == session && lease_view(held) == lease && #[trigger] call_ensures(
                        details,
                        (&record, held),
                        text,
                    ) && match registered.record_event(event@.with_details(text@)) {
                        Err(expected) => result matches Err(error)
                            && error@ == expected
                            && final(self)@ == old(self)@,
                        Ok((recorded, _)) => result matches Ok(both) && both@.session == session
                            && both@.lease == lease && final(self)@ == recorded,
                    },
            },
    {
        let mut draft = self.clone();
        let both = match draft.register_with_lease(input, lease_ttl_seconds) {
            Ok(both) => both,
            Err(error) => return Err(error),
        };
        let held = borrow_lease(&both.lease);
        let text = details(&both.session, held);
        match draft.record_event(event.with_details(&text)) {
            Ok(_) => {
                *self = draft;
                Ok(both)
            },
            Err(error) => Err(error),
        }
    }

    fn heartbeat(
        &mut self,
        session_id: &str,
        lease_ttl_seconds: Option<i64>,
        now: i64,
    ) -> (result: Result<SessionLeaseResult, InventoryError>)
        ensures
            match (result, old(self)@.heartbeat(session_id@, lease_ttl_seconds, now)) {
                (Ok(both), Ok((inventory, session, lease))) => both@.session == session
                    && both@.lease == lease && final(self)@ == inventory,
                (Err(error), Err(expected)) => error@ == expected && final(self)@ == old(self)@,
                _ => false,
            },
    {
        if let Some(ttl) = lease_ttl_seconds {
            if ttl <= 0 {
                return Err(ttl_error());
            }
        }
        if let Some(fault) = check_text(session_id) {
            return Err(fault);
        }
        let mut draft = self.clone();
        draft.expire_all(now);
        let mut session = match draft.find_session(session_id) {
            Some(i) => draft.sessions[i].clone(),
            None => return Err(unknown_session_error(session_id)),
        };
        if !same_text(&session.state, "active") {
            return Err(inactive_session_error(session_id, &session.state));
        }
        draft.see_session(session_id, now);
        session.last_seen_at = now;
        let lease = match lease_ttl_seconds {
            None => match draft.find_session_lease(session_id, now) {
                Some(i) => Some(draft.leases[i].clone()),
                None => None,
            },
            Some(ttl) => {
                draft.prolong_session_lease(session_id, ttl, now);
                match draft.find_session_lease(session_id, now) {
                    Some(i) => Some(draft.leases[i].clone()),
                    None => match draft.take_lease(session.worktree_id, session_id, ttl, now) {
                        Ok(lease) => Some(lease),
                        Err(error) => return Err(error),
                    },
                }
            },
        };
        *self = draft;
        Ok(SessionLeaseResult { session, lease })
    }

    /// Notes that a session was seen, prolongs its lease if a time is given, and
    /// records an event, or does nothing of it.
    pub fn heartbeat_session_with_lease_and_event(
        &mut self,
        session_id: &str,
        lease_ttl_seconds: Option<i64>,
        now: i64,
        event: EventInput<'_>,
    ) -> (result: Result<SessionLeaseResult, InventoryError>)
        ensures
            match old(self)@.heartbeat(session_id@, lease_ttl_seconds, now) {
                Err(expected) => result matches Err(error) && error@ == expected && final(self)@
                    == old(self)@,
                Ok((seen, session, lease)) => match seen.record_event(event@) {
                    Err(expected) => result matches Err(error) && error@ == expected && final(self)@
                        == old(self)@,
                    Ok((recorded, _)) => result matches Ok(both) && both@.session == session
                        && both@.lease == lease && final(self)@ == recorded,
                },
            },
    {
        let mut draft = self.clone();
        let both = match draft.heartbeat(session_id, lease_ttl_seconds, now) {
            Ok(both) => both,
            Err(error) => return Err(error),
        };
        match draft.record_event(event) {
            Ok(_) => {
                *self = draft;
                Ok(both)
            },
            Err(error) => Err(error),
        }
    }

    /// Notes that a session was seen, prolongs its lease if a time is given, and
    /// records an event that tells of both, or does nothing of it.
    pub fn heartbeat_session_with_lease_and_event_builder<
        F: FnOnce(&SessionRecord, Option<&LeaseRecord>) -> String,
    >(
        &mut self,
        session_id: &str,
        lease_ttl_seconds: Option<i64>,
        now: i64,
        event: EventMetadata<'_>,
        details: F,
    ) -> (result: Result<SessionLeaseResult, InventoryError>)
        requires
            forall|session: SessionRecord, lease: Option<&LeaseRecord>|
                call_requires(details, (&session, lease)),
        ensures
            match old(self)@.heartbeat(session_id@, lease_ttl_seconds, now) {
                Err(expected) => result matches Err(error) && error@ == expected && final(self)@
                    == old(self)@,
                Ok((seen, session, lease)) => exists|
                    record: SessionRecord,
                    held: Option<&LeaseRecord>,
                    text: String,
                |
                    record@ == session && lease_view(held) == lease && #[trigger] call_ensures(
                        details,
                        (&record, held),
                        text,
                    ) && match seen.record_event(event@.with_details(text@)) {
                        Err(expected) => result matches Err(error)
                            && error@ == expected
                            && final(self)@ == old(self)@,
                        Ok((recorded, _)) => result matches Ok(both) && both@.session == session
                            && both@.lease == lease && final(self)@ == recorded,
                    },
            },
    {
        let mut draft = self.clone();
        let both = match draft.heartbeat(session_id, lease_ttl_seconds, now) {
            Ok(both) => both,
            Err(error) => return Err(error),
        };
        let held = borrow_lease(&both.lease);
        let text = details(&both.session, held);
        match draft.record_event(event.with_details(&text)) {
            Ok(_) => {
                *self = draft;
                Ok(both)
            },
            Err(error) => Err(error),
        }
    }

    /// Ends a session and gives up its leases.
    pub fn release_session(&mut self, session_id: &str, now: i64) -> (result: Result<
        Option<SessionRecord>,
        InventoryError,
    >)
        ensures
            match (result, old(self)@.release_session(session_id@, now)) {
                (Ok(record), Ok((inventory, row))) => option_view(record) == row && final(self)@
                    == inventory,
                (Err(error), Err(expected)) => error@ == expected && final(self)@ == old(self)@,
                _ => false,
            },
    {
        if let Some(fault) = check_text(session_id) {
            return Err(fault);
        }
        let found = match self.find_session(session_id) {
            Some(i) => {
                let mut record = self.sessions[i].clone();
                record.state = "released".to_owned();
                record.last_seen_at = now;
                Some(record)
            },
            None => None,
        };
        self.release_leases_of(session_id, now);
        self.end_session(session_id, now);
        Ok(found)
    }

    /// Ends a session and records an event, if the session is known.
    pub fn release_session_with_event(
        &mut self,
        session_id: &str,
        now: i64,
        event: EventInput<'_>,
    ) -> (result: Result<Option<SessionRecord>, InventoryError>)
        ensures
            match old(self)@.release_session(session_id@, now) {
                Err(expected) => result matches Err(error) && error@ == expected && final(self)@
                    == old(self)@,
                Ok((released, None)) => result matches Ok(None) && final(self)@ == released,
                Ok((released, Some(row))) => match released.record_event(event@) {
                    Err(expected) => result matches Err(error) && error@ == expected && final(self)@
                        == old(self)@,
                    Ok((recorded, _)) => result matches Ok(Some(record))
                        && record@ == row
                        && final(self)@ == recorded,
                },
            },
    {
        let mut draft = self.clone();
        let session = match draft.release_session(session_id, now) {
            Ok(session) => session,
            Err(error) => return Err(error),
        };
        if session.is_some() {
            match draft.record_event(event) {
                Ok(_) => {},
                Err(error) => return Err(error),
            }
        }
        *self = draft;
        Ok(session)
    }

    /// Prolongs the lease of a session that has not run out.
    pub fn renew_lease(&mut self, session_id: &str, ttl_seconds: i64, now: i64) -> (result: Result<
        Option<LeaseRecord>,
        InventoryError,
    >)
        ensures
            if ttl_seconds <= 0 {
                result matches Err(error) && error@ == ttl_fault() && final(self)@ == old(self)@
            } else {
                match result {
                    Ok(found) => {
                        &&& text_fault(session_id@) is None
                        &&& final(self)@ == old(self)@.with_session_lease_renewed(
                            session_id@,
                            ttl_seconds,
                            now,
                        )
                        &&& option_view(found) == final(self)@.session_lease(session_id@, now)
                    },
                    Err(error) => text_fault(session_id@) == Some(error@)
                        && final(self)@ == old(self)@,
                }
            },
    {
        if ttl_seconds <= 0 {
            return Err(ttl_error());
        }
        if let Some(fault) = check_text(session_id) {
            return Err(fault);
        }
        self.prolong_session_lease(session_id, ttl_seconds, now);
        self.active_lease_for_session(session_id, now)
    }

    /// Gives up the leases of a session.
    pub fn release_lease(&mut self, session_id: &str, now: i64) -> (result: Result<
        Vec<LeaseRecord>,
        InventoryError,
    >)
        ensures
            match (result, old(self)@.release_lease(session_id@, now)) {
                (Ok(records), Ok((inventory, rows))) => views(records@) == rows && final(self)@
                    == inventory,
                (Err(error), Err(expected)) => error@ == expected && final(self)@ == old(self)@,
                _ => false,
            },
    {
        if let Some(fault) = check_text(session_id) {
            return Err(fault);
        }
        self.release_leases_of(session_id, now);
        Ok(self.copy_session_leases(session_id))
    }

    /// Gives up the leases of a session and records an event, or does neither.
    pub fn release_lease_with_event(
        &mut self,
        session_id: &str,
        now: i64,
        event: EventInput<'_>,
    ) -> (result: Result<Vec<LeaseRecord>, InventoryError>)
        ensures
            match old(self)@.release_lease(session_id@, now) {
                Err(expected) => result matches Err(error) && error@ == expected && final(self)@
                    == old(self)@,
                Ok((released, rows)) => match released.record_event(event@) {
                    Err(expected) => result matches Err(error) && error@ == expected && final(self)@
                        == old(self)@,
                    Ok((recorded, _)) => result matches Ok(records) && views(records@) == rows
                        && final(self)@ == recorded,
                },
            },
    {
        let mut draft = self.clone();
        let leases = match draft.release_lease(session_id, now) {
            Ok(leases) => leases,
            Err(error) => return Err(error),
        };
        match draft.record_event(event) {
            Ok(_) => {
                *self = draft;
                Ok(leases)
            },
            Err(error) => Err(error),
        }
    }
}

/// What a borrowed lease holds.
pub open spec fn lease_view(lease: Option<&LeaseRecord>) -> Option<LeaseRecordView> {
    match lease {
        Some(inner) => Some(inner@),
        None => None,
    }
}

fn borrow_lease(lease: &Option<LeaseRecord>) -> (held: Option<&LeaseRecord>)
    ensures
        lease_view(held) == option_view(*lease),
{
    match lease {
        Some(inner) => Some(inner),
        None => None,
    }
}

} // verus!
