//! The connection supervisor: which action each observation of the game
//! client's presence calls for, and what becomes of the shared client handle.
//!
//! The supervisor itself neither polls nor sleeps. Its owner observes, asks
//! [`Lcu::poll`] what to do, does it, and reports an extraction's outcome to
//! [`Lcu::complete`]. While the supervisor listens, a poll goes by this table:
//!
//! | handle | game client | action       | handle afterwards                 |
//! |--------|-------------|--------------|-----------------------------------|
//! | empty  | absent      | `Wait`       | empty                             |
//! | empty  | present     | `Connect`    | empty until the extraction is in  |
//! | held   | present     | `Wait`       | held, unchanged                   |
//! | held   | absent      | `Disconnect` | empty                             |
//!
//! An extraction that fails leaves the handle empty, so the next poll that
//! finds the game client present asks for another. A supervisor that was
//! stopped answers every poll with `Halt`.

use crate::extract::{outcome_view, Credentials, CredentialsView, ExtractionError};
use vstd::prelude::*;

verus! {

/// Polling interval of a supervisor that was given none, in milliseconds.
pub const DEFAULT_RETRY_INTERVAL_MS: u64 = 1000;

/// What the owner of the supervisor does after a poll.
#[derive(Clone, Copy, Debug, PartialEq, Eq, Structural)]
pub enum Action {
    /// Nothing until the next poll.
    Wait,
    /// Run the extractor, build a client, and report the outcome.
    Connect,
    /// Drop the client: the handle was cleared.
    Disconnect,
    /// End the loop: the supervisor was stopped.
    Halt,
}

/// Mathematical content of a supervisor.
pub struct LcuView {
    /// Credentials to which the live client is bound; `None` while disconnected.
    pub client: Option<CredentialsView>,
    /// Whether a polling loop is active.
    pub listening: bool,
    /// Whether an extraction was asked for and its outcome is still awaited.
    pub connecting: bool,
    /// Presence of the game client at the last poll.
    pub prev_running: bool,
    /// Polling interval in milliseconds.
    pub retry_interval_ms: u64,
}

impl LcuView {
    /// What holds of every supervisor: a client is held only while the loop is
    /// active and the game client was present at the last poll, and an
    /// extraction is awaited only under the same two conditions.
    pub open spec fn wf(self) -> bool {
        &&& self.client is Some ==> self.listening && self.prev_running && !self.connecting
        &&& self.connecting ==> self.listening && self.prev_running
        &&& self.prev_running ==> self.listening
    }

    /// A supervisor that was just started.
    pub open spec fn started(retry_interval_ms: u64) -> LcuView {
        LcuView {
            client: None,
            listening: true,
            connecting: false,
            prev_running: false,
            retry_interval_ms,
        }
    }

    /// Idempotent start: the state afterwards, and whether a loop has to be
    /// spawned.
    pub open spec fn listen(self) -> (LcuView, bool) {
        if self.listening {
            (self, false)
        } else {
            (LcuView { listening: true, ..self }, true)
        }
    }

    /// One poll: the state after observing `running`, and the action owed.
    pub open spec fn poll(self, running: bool) -> (LcuView, Action) {
        if !self.listening {
            (self, Action::Halt)
        } else if running {
            if self.client is Some {
                (LcuView { prev_running: true, ..self }, Action::Wait)
            } else {
                (LcuView { prev_running: true, connecting: true, ..self }, Action::Connect)
            }
        } else {
            if self.client is Some {
                (
                    LcuView { client: None, connecting: false, prev_running: false, ..self },
                    Action::Disconnect,
                )
            } else {
                (LcuView { connecting: false, prev_running: false, ..self }, Action::Wait)
            }
        }
    }

    /// The end of an extraction: the state afterwards, and whether the
    /// credentials were installed.
    pub open spec fn complete(self, outcome: Result<CredentialsView, ExtractionError>) -> (
        LcuView,
        bool,
    ) {
        if self.listening && self.connecting {
            match outcome {
                Ok(credentials) => (
                    LcuView { client: Some(credentials), connecting: false, ..self },
                    true,
                ),
                Err(_) => (LcuView { connecting: false, ..self }, false),
            }
        } else {
            (self, false)
        }
    }

    /// The state after a stop.
    pub open spec fn stop(self) -> LcuView {
        LcuView { client: None, listening: false, connecting: false, prev_running: false, ..self }
    }
}

/// What can happen to a supervisor.
pub enum Event {
    /// It is started.
    Listen,
    /// The game client's presence is observed.
    Poll(bool),
    /// An extraction ends.
    Complete(Result<CredentialsView, ExtractionError>),
    /// It is stopped.
    Stop,
}

impl LcuView {
    /// The state after one event.
    pub open spec fn step(self, event: Event) -> LcuView {
        match event {
            Event::Listen => self.listen().0,
            Event::Poll(running) => self.poll(running).0,
            Event::Complete(outcome) => self.complete(outcome).0,
            Event::Stop => self.stop(),
        }
    }

    /// The state after a history of events, the earliest first.
    pub open spec fn run(self, history: Seq<Event>) -> LcuView
        decreases history.len(),
    {
        if history.len() == 0 {
            self
        } else {
            self.run(history.drop_last()).step(history.last())
        }
    }
}

/// Mathematical content of a client handle.
pub open spec fn handle_view(client: Option<Credentials>) -> Option<CredentialsView> {
    match client {
        Some(credentials) => Some(credentials@),
        None => None,
    }
}

/// The connection supervisor.
#[derive(Debug)]
pub struct Lcu {
    client: Option<Credentials>,
    listening: bool,
    connecting: bool,
    prev_running: bool,
    retry_interval_ms: u64,
}

impl View for Lcu {
    type V = LcuView;

    closed spec fn view(&self) -> LcuView {
        LcuView {
            client: handle_view(self.client),
            listening: self.listening,
            connecting: self.connecting,
            prev_running: self.prev_running,
            retry_interval_ms: self.retry_interval_ms,
        }
    }
}

impl Lcu {
    #[verifier::type_invariant]
    spec fn inv(self) -> bool {
        self@.wf()
    }

    /// A supervisor with the given polling interval, disconnected and
    /// listening: its owner spawns the loop.
    pub fn new(retry_interval_ms: u64) -> (lcu: Lcu)
        ensures
            lcu@ == LcuView::started(retry_interval_ms),
            lcu@.wf(),
    {
        Lcu {
            client: None,
            listening: true,
            connecting: false,
            prev_running: false,
            retry_interval_ms,
        }
    }

    /// The client handle: the credentials to which the live client is bound.
    pub fn client(&self) -> (handle: &Option<Credentials>)
        ensures
            handle_view(*handle) == self@.client,
            self@.wf(),
    {
        proof {
            use_type_invariant(self);
        }
        &self.client
    }

    /// Whether a polling loop is active.
    pub fn is_listening(&self) -> (listening: bool)
        ensures
            listening == self@.listening,
    {
        self.listening
    }

    /// Presence of the game client at the last poll.
    pub fn prev_running(&self) -> (running: bool)
        ensures
            running == self@.prev_running,
    {
        self.prev_running
    }

    /// The polling interval in milliseconds.
    pub fn retry_interval_ms(&self) -> (interval: u64)
        ensures
            interval == self@.retry_interval_ms,
    {
        self.retry_interval_ms
    }

    /// Starts listening unless a loop is active already. `true` tells the
    /// owner to spawn the loop; on an active supervisor nothing changes.
    pub fn listen(&mut self) -> (spawn: bool)
        ensures
            (final(self)@, spawn) == old(self)@.listen(),
            final(self)@.wf(),
    {
        proof {
            use_type_invariant(&*self);
        }
        if self.listening {
            false
        } else {
            self.listening = true;
            true
        }
    }

    /// Takes one observation of the game client's presence and says what to
    /// do about it.
    pub fn poll(&mut self, running: bool) -> (action: Action)
        ensures
            (final(self)@, action) == old(self)@.poll(running),
            final(self)@.wf(),
            !running ==> final(self)@.client is None,
            action == Action::Connect ==> old(self)@.client is None && running,
    {
        proof {
            use_type_invariant(&*self);
        }
        if !self.listening {
            Action::Halt
        } else if running {
            if self.client.is_some() {
                self.prev_running = true;
                Action::Wait
            } else {
                self.prev_running = true;
                self.connecting = true;
                Action::Connect
            }
        } else {
            if self.client.is_some() {
                self.client = None;
                self.connecting = false;
                self.prev_running = false;
                Action::Disconnect
            } else {
                self.connecting = false;
                self.prev_running = false;
                Action::Wait
            }
        }
    }

    /// Takes the outcome of the extraction that the last `Connect` asked for.
    /// `true` tells the owner to put the client it built into the shared
    /// handle; an outcome that nothing awaits any more is dropped.
    pub fn complete(&mut self, outcome: Result<Credentials, ExtractionError>) -> (installed: bool)
        ensures
            (final(self)@, installed) == old(self)@.complete(outcome_view(outcome)),
            final(self)@.wf(),
    {
        proof {
            use_type_invariant(&*self);
        }
        if self.listening && self.connecting {
            match outcome {
                Ok(credentials) => {
                    self.connecting = false;
                    self.client = Some(credentials);
                    true
                },
                Err(_) => {
                    self.connecting = false;
                    false
                },
            }
        } else {
            false
        }
    }

    /// Stops the supervisor and clears the handle.
    pub fn stop(&mut self)
        ensures
            final(self)@ == old(self)@.stop(),
            final(self)@.wf(),
    {
        proof {
            use_type_invariant(&*self);
        }
        self.client = None;
        self.connecting = false;
        self.prev_running = false;
        self.listening = false;
    }
}

impl Default for Lcu {
    fn default() -> (lcu: Lcu)
        ensures
            lcu@ == LcuView::started(DEFAULT_RETRY_INTERVAL_MS),
    {
        Lcu::new(DEFAULT_RETRY_INTERVAL_MS)
    }
}

/// Every step of the supervisor keeps its state well formed.
pub proof fn lemma_steps_keep_wf(
    s: LcuView,
    running: bool,
    outcome: Result<CredentialsView, ExtractionError>,
)
    requires
        s.wf(),
    ensures
        LcuView::started(s.retry_interval_ms).wf(),
        s.listen().0.wf(),
        s.poll(running).0.wf(),
        s.complete(outcome).0.wf(),
        s.stop().wf(),
{
}

/// Whatever happens to a supervisor after it was made, its state is well
/// formed. In particular the handle is held only while the game client was
/// present at the last poll.
pub proof fn lemma_every_state_wf(retry_interval_ms: u64, history: Seq<Event>)
    ensures
        LcuView::started(retry_interval_ms).run(history).wf(),
        LcuView::started(retry_interval_ms).run(history).client is Some ==> LcuView::started(
            retry_interval_ms,
        ).run(history).prev_running,
    decreases history.len(),
{
    if history.len() > 0 {
        lemma_every_state_wf(retry_interval_ms, history.drop_last());
    }
}

/// The handle follows presence: after a poll it is held only if it was held
/// before and the game client is still present, and then it is the same;
/// after an extraction's end it is held only if it was held before, or the
/// extraction was awaited and gave credentials, and then it holds those.
pub proof fn lemma_handle_follows_presence(
    s: LcuView,
    running: bool,
    outcome: Result<CredentialsView, ExtractionError>,
)
    requires
        s.wf(),
    ensures
        s.poll(running).0.client is Some <==> s.client is Some && running,
        s.poll(running).0.client is Some ==> s.poll(running).0.client == s.client,
        s.complete(outcome).0.client is Some <==> s.client is Some || (s.connecting
            && outcome is Ok),
        s.connecting && outcome is Ok ==> s.complete(outcome).0.client == Some(outcome->Ok_0),
{
}

/// No spurious connects: when the game client is observed absent at two polls
/// in a row, the handle is empty after each of them, neither poll asks for an
/// extraction, and an extraction's outcome that arrives late is not installed.
pub proof fn lemma_absent_twice_stays_disconnected(
    s: LcuView,
    late: Result<CredentialsView, ExtractionError>,
)
    requires
        s.wf(),
    ensures
        s.poll(false).0.client is None,
        s.poll(false).0.poll(false).0.client is None,
        s.poll(false).1 != Action::Connect,
        s.poll(false).0.poll(false).1 != Action::Connect,
        s.poll(false).0.complete(late).0.client is None,
        s.poll(false).0.poll(false).0.complete(late).0.client is None,
{
}

/// A falling edge empties the handle at the very poll that observes it,
/// whatever the state was: a connected supervisor is told to disconnect, and
/// one that awaited an extraction awaits it no longer.
pub proof fn lemma_falling_edge_disconnects(s: LcuView)
    requires
        s.wf(),
    ensures
        s.poll(false).0.client is None,
        !s.poll(false).0.connecting,
        s.client is Some ==> s.poll(false).1 == Action::Disconnect,
{
}

/// An extraction is asked for only while the handle is empty, and it is asked
/// for at every poll that finds the game client present and the handle empty:
/// a failed extraction is tried again at the next poll.
pub proof fn lemma_connect_only_while_disconnected(s: LcuView, running: bool)
    requires
        s.wf(),
    ensures
        s.poll(running).1 == Action::Connect <==> s.listening && running && s.client is None,
        s.poll(running).1 == Action::Connect ==> s.poll(running).0.client is None,
{
}

/// A stop is final for what was in flight: the handle is empty afterwards, and
/// neither a poll nor the outcome of an extraction that was under way writes
/// it again until the supervisor is started anew.
pub proof fn lemma_stop_discards_stale_outcome(
    s: LcuView,
    running: bool,
    stale: Result<CredentialsView, ExtractionError>,
)
    requires
        s.wf(),
    ensures
        s.stop().client is None,
        s.stop().complete(stale) == (s.stop(), false),
        s.stop().poll(running) == (s.stop(), Action::Halt),
        s.stop().listen().0.complete(stale).0.client is None,
{
}

/// Starting is idempotent: a second start changes nothing and spawns nothing.
pub proof fn lemma_listen_idempotent(s: LcuView)
    ensures
        s.listen().0.listen() == (s.listen().0, false),
        s.listening ==> s.listen() == (s, false),
{
}

} // verus!
