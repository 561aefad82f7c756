//! Waiting for a daemon that was started.

use crate::text::concat3;
use crate::text::concat;
use crate::text::is_blank;
use crate::text::option_view;
use crate::text::trim_text;
use vstd::prelude::*;

verus! {

/// How long the program waits for the daemon to be ready: two minutes.
pub const STARTUP_WAIT_MILLISECONDS: u64 = 120000;

/// How long the program waits for an answer when it looks whether the daemon is
/// ready.
pub const LOOK_MILLISECONDS: u64 = 5000;

/// How often the program looks once more after the daemon has ended: another one
/// may have taken its place.
pub const GRACE_ATTEMPTS: u32 = 10;

/// How long the program waits before it looks again.
pub const STARTUP_DELAY_MILLISECONDS: u64 = 50;

/// How far the wait has come.
#[derive(Debug, PartialEq, Eq)]
pub struct Startup {
    pub socket_path: String,
    /// How the daemon ended, once it has.
    pub ended: Option<String>,
    pub grace: u32,
}

/// The view of a [`Startup`].
#[verifier::ext_equal]
pub struct StartupView {
    pub socket_path: Seq<char>,
    pub ended: Option<Seq<char>>,
    pub grace: u32,
}

impl View for Startup {
    type V = StartupView;

    open spec fn view(&self) -> StartupView {
        StartupView {
            socket_path: self.socket_path@,
            ended: option_view(self.ended),
            grace: self.grace,
        }
    }
}

/// What to do next.
#[derive(Debug, PartialEq, Eq)]
pub enum StartupStep {
    /// Use the daemon.
    Ready,
    /// Wait, and look again.
    Wait,
    /// Clean up after the daemon that has ended, and give up.
    Ended(String),
    /// End the daemon, clean up after it, and give up.
    TimedOut(String),
}

/// The view of a [`StartupStep`].
#[verifier::ext_equal]
pub enum StartupStepView {
    Ready,
    Wait,
    Ended(Seq<char>),
    TimedOut(Seq<char>),
}

impl View for StartupStep {
    type V = StartupStepView;

    open spec fn view(&self) -> StartupStepView {
        match self {
            StartupStep::Ready => StartupStepView::Ready,
            StartupStep::Wait => StartupStepView::Wait,
            StartupStep::Ended(message) => StartupStepView::Ended(message@),
            StartupStep::TimedOut(message) => StartupStepView::TimedOut(message@),
        }
    }
}

/// A message, with a reason where one is known.
pub open spec fn with_reason(message: Seq<char>, reason: Option<Seq<char>>) -> Seq<char> {
    match reason {
        Some(text) => if trim_text(text).len() == 0 {
            message
        } else {
            message + ": "@ + trim_text(text)
        },
        None => message,
    }
}

fn add_reason(message: String, reason: &Option<String>) -> (text: String)
    ensures
        text@ == with_reason(message@, option_view(*reason)),
{
    match reason {
        Some(given) => {
            let trimmed = crate::text::trim(given);
            if is_blank(&trimmed) {
                message
            } else {
                concat3(&message, ": ", &trimmed)
            }
        },
        None => message,
    }
}

impl StartupView {
    /// What is said of a daemon that has ended.
    pub open spec fn ended_message(self, reason: Option<Seq<char>>) -> Seq<char> {
        with_reason(
            "local wtm daemon exited before opening "@ + self.socket_path + " ("@ + self.ended->0
                + ")"@,
            reason,
        )
    }

    /// What is said of a daemon that was not ready in time.
    pub open spec fn timeout_message(self, reason: Option<Seq<char>>) -> Seq<char> {
        with_reason("timed out waiting for local wtm daemon at "@ + self.socket_path, reason)
    }

    /// The wait, after the program looked and saw how the daemon ended, if it did.
    pub open spec fn seen(self, ended: Option<Seq<char>>) -> StartupView {
        if self.ended is Some {
            StartupView { grace: (self.grace + 1) as u32, ..self }
        } else if ended is Some {
            StartupView { ended, grace: 0, ..self }
        } else {
            self
        }
    }

    /// What to do after the program looked, so many milliseconds after the daemon was
    /// started.
    pub open spec fn step(
        self,
        ready: bool,
        ended: Option<Seq<char>>,
        reason: Option<Seq<char>>,
        waited_milliseconds: u64,
    ) -> StartupStepView {
        if ready {
            StartupStepView::Ready
        } else if self.ended is Some {
            if self.grace + 1 >= GRACE_ATTEMPTS {
                StartupStepView::Ended(self.ended_message(reason))
            } else {
                StartupStepView::Wait
            }
        } else if ended is Some {
            StartupStepView::Wait
        } else if waited_milliseconds >= STARTUP_WAIT_MILLISECONDS {
            StartupStepView::TimedOut(self.timeout_message(reason))
        } else {
            StartupStepView::Wait
        }
    }

    /// Whether the wait is still going on.
    pub open spec fn going_on(self) -> bool {
        self.grace < GRACE_ATTEMPTS
    }
}

impl Startup {
    /// Begins to wait for a daemon at a socket.
    pub fn new(socket_path: &str) -> (startup: Startup)
        ensures
            startup@ == (StartupView {
                socket_path: socket_path@,
                ended: None,
                grace: 0,
            }),
            startup@.going_on(),
    {
        Startup { socket_path: socket_path.to_owned(), ended: None, grace: 0 }
    }

    /// Takes note of what the program saw: whether the daemon answered, how it
    /// ended, if it did, what was last reported of it, and how long ago it was
    /// started.
    pub fn look_after(
        &mut self,
        ready: bool,
        ended: Option<String>,
        reason: &Option<String>,
        waited_milliseconds: u64,
    ) -> (step: StartupStep)
        requires
            old(self)@.going_on(),
        ensures
            step@ == old(self)@.step(
                ready,
                option_view(ended),
                option_view(*reason),
                waited_milliseconds,
            ),
            step@ is TimedOut <==> !ready && old(self)@.ended is None && ended is None
                && waited_milliseconds >= STARTUP_WAIT_MILLISECONDS,
            step@ is Wait ==> final(self)@ == old(self)@.seen(
                option_view(ended)
            ) && final(self)@.going_on(),
            step@ !is Wait ==> final(self)@ == old(self)@,
    {
        if ready {
            return StartupStep::Ready;
        }
        if let Some(status) = &self.ended {
            if self.grace + 1 >= GRACE_ATTEMPTS {
                let mut message = concat3(
                    "local wtm daemon exited before opening ",
                    &self.socket_path,
                    " (",
                );
                message.append(status);
                message.append(")");
                return StartupStep::Ended(add_reason(message, reason));
            }
            self.grace = self.grace + 1;
            return StartupStep::Wait;
        }
        if ended.is_some() {
            self.ended = ended;
            self.grace = 0;
            return StartupStep::Wait;
        }
        if waited_milliseconds >= STARTUP_WAIT_MILLISECONDS {
            let message = concat(
                "timed out waiting for local wtm daemon at ",
                &self.socket_path,
            );
            return StartupStep::TimedOut(add_reason(message, reason));
        }
        StartupStep::Wait
    }
}

/// How long one look may take, so many milliseconds after the daemon was started: no
/// longer than what is left of the wait, and a moment at least.
pub open spec fn look_time(waited_milliseconds: u64) -> int {
    if waited_milliseconds + LOOK_MILLISECONDS <= STARTUP_WAIT_MILLISECONDS {
        LOOK_MILLISECONDS as int
    } else if waited_milliseconds < STARTUP_WAIT_MILLISECONDS {
        STARTUP_WAIT_MILLISECONDS - waited_milliseconds
    } else {
        1
    }
}

/// How long one look may take.
pub fn look_limit(waited_milliseconds: u64) -> (milliseconds: u64)
    ensures
        milliseconds == look_time(waited_milliseconds),
{
    if waited_milliseconds >= STARTUP_WAIT_MILLISECONDS {
        1
    } else if STARTUP_WAIT_MILLISECONDS - waited_milliseconds < LOOK_MILLISECONDS {
        STARTUP_WAIT_MILLISECONDS - waited_milliseconds
    } else {
        LOOK_MILLISECONDS
    }
}

/// The wait comes to an end: the program looks again only before its time is over, or
/// after the daemon has ended, and then only a few times.
pub proof fn waiting_ends(
    startup: StartupView,
    ready: bool,
    ended: Option<Seq<char>>,
    reason: Option<Seq<char>>,
    waited_milliseconds: u64,
)
    requires
        startup.going_on(),
        startup.step(ready, ended, reason, waited_milliseconds) is Wait,
    ensures
        startup.ended is None && ended is None ==> waited_milliseconds
            < STARTUP_WAIT_MILLISECONDS,
        startup.ended is None && ended is Some ==> startup.seen(ended).ended is Some
            && startup.seen(ended).grace == 0,
        startup.ended is Some ==> startup.seen(ended).ended is Some && startup.grace
            < startup.seen(ended).grace < GRACE_ATTEMPTS,
{
}

/// A look that begins before the time of the wait is over ends by then.
pub proof fn looks_fit_into_the_wait(waited_milliseconds: u64)
    requires
        waited_milliseconds < STARTUP_WAIT_MILLISECONDS,
    ensures
        0 < look_time(waited_milliseconds) <= LOOK_MILLISECONDS,
        waited_milliseconds + look_time(waited_milliseconds) <= STARTUP_WAIT_MILLISECONDS,
{
}

} // verus!
