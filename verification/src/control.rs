//! The control loop that keeps the client's listening port equal to the
//! forwarded port: what to do next, given what the last action brought. The
//! caller carries the actions out (log in, read the port file, apply a port,
//! sleep) and reports each outcome as an event.

use vstd::prelude::*;

verus! {

/// What the caller is asked to do.
#[derive(Debug, Clone, Copy, PartialEq, Eq, Structural)]
pub enum Action {
    /// Log in to the backend.
    Authenticate,
    /// Read the forwarded port.
    ReadPort,
    /// Tell the backend to listen on the port.
    ApplyPort(u16),
    /// Wait for one poll interval.
    Sleep,
}

/// What an action brought.
#[derive(Debug, Clone, Copy, PartialEq, Eq, Structural)]
pub enum Event {
    /// The login went through (`true`) or failed.
    Login(bool),
    /// The forwarded port was read, or could not be read (`None`). A
    /// reading of 0 is no port and counts as one that could not be read.
    Port(Option<u16>),
    /// The port was applied (`true`) or the backend did not take it.
    Applied(bool),
    /// The poll interval is over.
    Woke,
}

/// The action whose outcome the loop waits for.
#[derive(Debug, Clone, Copy, PartialEq, Eq, Structural)]
pub enum Waiting {
    /// The login that opens the run.
    FirstLogin,
    /// A login made in place of a poll.
    Login,
    /// The reading of the forwarded port.
    Port,
    /// The application of the port.
    Apply(u16),
    /// The end of the poll interval.
    Sleep,
}

/// The state of the control loop: whether a session is open, the port that
/// was applied last (0 while none was: 0 is never a port), and the action
/// under way.
#[derive(Debug, Clone, Copy, PartialEq, Eq, Structural)]
pub struct ControlLoop {
    logged_in: bool,
    last_port: u16,
    waiting: Waiting,
}

/// The loop's state as plain data.
pub struct LoopState {
    pub logged_in: bool,
    pub last_port: u16,
    pub waiting: Waiting,
}

/// A state together with the action that leads out of it.
pub struct Turn {
    pub state: LoopState,
    pub action: Action,
}

impl Waiting {
    /// The action that the loop waits for.
    pub open spec fn action(self) -> Action {
        match self {
            Waiting::FirstLogin => Action::Authenticate,
            Waiting::Login => Action::Authenticate,
            Waiting::Port => Action::ReadPort,
            Waiting::Apply(port) => Action::ApplyPort(port),
            Waiting::Sleep => Action::Sleep,
        }
    }
}

impl LoopState {
    /// The state in which a run begins: no session, no port applied, the
    /// first login under way.
    pub open spec fn initial() -> LoopState {
        LoopState { logged_in: false, last_port: 0, waiting: Waiting::FirstLogin }
    }

    /// The forwarded port is read, and a port is applied, only while a
    /// session is open; a port that is being applied is not 0 and differs
    /// from the one applied last.
    pub open spec fn well_formed(self) -> bool {
        match self.waiting {
            Waiting::Port => self.logged_in,
            Waiting::Apply(port) => self.logged_in && port != 0 && port != self.last_port,
            Waiting::FirstLogin => !self.logged_in,
            Waiting::Login => !self.logged_in,
            Waiting::Sleep => true,
        }
    }

    /// The same state, waiting for `waiting`.
    pub open spec fn wait_for(self, waiting: Waiting) -> Turn {
        Turn {
            state: LoopState { logged_in: self.logged_in, last_port: self.last_port, waiting },
            action: waiting.action(),
        }
    }

    /// The transition table of the loop.
    ///
    /// * The first login: on success the forwarded port is read at once, on
    ///   failure the loop sleeps before it tries again.
    /// * A later login: the session is open or not as the login says; the
    ///   loop sleeps.
    /// * A port that was read: where it differs from the port applied last
    ///   it is applied, otherwise the loop sleeps. A reading that failed,
    ///   and a reading of 0, which is no port, let the loop sleep.
    /// * A port that was applied is recorded; one that was not leaves the
    ///   record as it is. The loop sleeps.
    /// * After the sleep the port is read where a session is open, else a
    ///   login is made.
    /// * An event that does not answer the action under way changes nothing:
    ///   the action is asked for again.
    pub open spec fn next(self, event: Event) -> Turn {
        match (self.waiting, event) {
            (Waiting::FirstLogin, Event::Login(ok)) => {
                let state = LoopState { logged_in: ok, ..self };
                if ok {
                    state.wait_for(Waiting::Port)
                } else {
                    state.wait_for(Waiting::Sleep)
                }
            },
            (Waiting::Login, Event::Login(ok)) => (LoopState { logged_in: ok, ..self }).wait_for(
                Waiting::Sleep,
            ),
            (Waiting::Port, Event::Port(Some(port))) => if port != 0 && port != self.last_port {
                self.wait_for(Waiting::Apply(port))
            } else {
                self.wait_for(Waiting::Sleep)
            },
            (Waiting::Port, Event::Port(None)) => self.wait_for(Waiting::Sleep),
            (Waiting::Apply(port), Event::Applied(true)) => (LoopState {
                last_port: port,
                ..self
            }).wait_for(Waiting::Sleep),
            (Waiting::Apply(_), Event::Applied(false)) => self.wait_for(Waiting::Sleep),
            (Waiting::Sleep, Event::Woke) => if self.logged_in {
                self.wait_for(Waiting::Port)
            } else {
                self.wait_for(Waiting::Login)
            },
            _ => self.wait_for(self.waiting),
        }
    }
}

impl View for ControlLoop {
    type V = LoopState;

    closed spec fn view(&self) -> LoopState {
        LoopState { logged_in: self.logged_in, last_port: self.last_port, waiting: self.waiting }
    }
}

impl ControlLoop {
    /// The loop at the start of a run. Its first action is `Authenticate`.
    pub fn new() -> (r: ControlLoop)
        ensures
            r@ == LoopState::initial(),
            r@.well_formed(),
            r@.waiting.action() == Action::Authenticate,
    {
        ControlLoop { logged_in: false, last_port: 0, waiting: Waiting::FirstLogin }
    }

    /// Whether a session is open.
    pub fn logged_in(&self) -> (r: bool)
        ensures
            r == self@.logged_in,
    {
        self.logged_in
    }

    /// The port that was applied last; 0 while none was.
    pub fn last_port(&self) -> (r: u16)
        ensures
            r == self@.last_port,
    {
        self.last_port
    }

    /// The action whose outcome the loop waits for.
    pub fn pending(&self) -> (r: Action)
        ensures
            r == self@.waiting.action(),
    {
        match self.waiting {
            Waiting::FirstLogin => Action::Authenticate,
            Waiting::Login => Action::Authenticate,
            Waiting::Port => Action::ReadPort,
            Waiting::Apply(port) => Action::ApplyPort(port),
            Waiting::Sleep => Action::Sleep,
        }
    }

    fn wait_for(&mut self, waiting: Waiting) -> (action: Action)
        ensures
            final(self)@ == old(self)@.wait_for(waiting).state,
            action == old(self)@.wait_for(waiting).action,
    {
        self.waiting = waiting;
        self.pending()
    }

    /// Takes the outcome of the action under way and says what to do next,
    /// as the transition table has it.
    pub fn step(&mut self, event: Event) -> (action: Action)
        ensures
            final(self)@ == old(self)@.next(event).state,
            action == old(self)@.next(event).action,
            old(self)@.well_formed() ==> final(self)@.well_formed(),
            old(self)@.well_formed() ==> action != Action::ApplyPort(0),
    {
        match (self.waiting, event) {
            (Waiting::FirstLogin, Event::Login(ok)) => {
                self.logged_in = ok;
                if ok {
                    self.wait_for(Waiting::Port)
                } else {
                    self.wait_for(Waiting::Sleep)
                }
            },
            (Waiting::Login, Event::Login(ok)) => {
                self.logged_in = ok;
                self.wait_for(Waiting::Sleep)
            },
            (Waiting::Port, Event::Port(Some(port))) => {
                if port != 0 && port != self.last_port {
                    self.wait_for(Waiting::Apply(port))
                } else {
                    self.wait_for(Waiting::Sleep)
                }
            },
            (Waiting::Port, Event::Port(None)) => self.wait_for(Waiting::Sleep),
            (Waiting::Apply(port), Event::Applied(true)) => {
                self.last_port = port;
                self.wait_for(Waiting::Sleep)
            },
            (Waiting::Apply(_), Event::Applied(false)) => self.wait_for(Waiting::Sleep),
            (Waiting::Sleep, Event::Woke) => {
                if self.logged_in {
                    self.wait_for(Waiting::Port)
                } else {
                    self.wait_for(Waiting::Login)
                }
            },
            _ => self.pending(),
        }
    }
}

// ---------------------------------------------------------------------------
// What holds of every run
// ---------------------------------------------------------------------------

/// Every step leads from a well-formed state to a well-formed state.
pub proof fn lemma_step_keeps_well_formed(state: LoopState, event: Event)
    requires
        state.well_formed(),
    ensures
        state.next(event).state.well_formed(),
{
}

/// The forwarded port is read, and a port is applied, only while a session
/// is open; and what is asked for is always the action that the new state
/// waits for.
pub proof fn lemma_backend_is_used_in_session_only(state: LoopState, event: Event)
    requires
        state.well_formed(),
    ensures
        state.next(event).action == state.next(event).state.waiting.action(),
        state.next(event).action is ReadPort || state.next(event).action is ApplyPort
            ==> state.next(event).state.logged_in,
        state.next(event).action is Authenticate ==> !state.next(event).state.logged_in,
{
}

/// Once a port has been recorded as applied, reading the same port again
/// applies nothing: the loop sleeps and the record stays. A port, which is a
/// number from 1 to 65535, is applied exactly where it differs from the
/// record.
pub proof fn lemma_no_redundant_apply(state: LoopState, port: u16)
    requires
        state.waiting == Waiting::Port,
    ensures
        port == state.last_port ==> state.next(Event::Port(Some(port))).action == Action::Sleep,
        port == state.last_port ==> state.next(Event::Port(Some(port))).state.last_port == port,
        port >= 1 && port != state.last_port ==> state.next(Event::Port(Some(port))).action
            == Action::ApplyPort(port),
{
}

/// The number 0 is never treated as a port: the loop never asks to apply it,
/// whatever it is told, and a record that is not 0 never becomes 0.
pub proof fn lemma_zero_is_never_applied(state: LoopState, event: Event)
    requires
        state.well_formed(),
    ensures
        state.next(event).action != Action::ApplyPort(0),
        state.last_port != 0 ==> state.next(event).state.last_port != 0,
{
}

/// A port that the backend took is the record from then on, and the next
/// poll that reads the same port applies nothing.
pub proof fn lemma_applied_port_is_not_applied_again(state: LoopState, port: u16)
    requires
        state.well_formed(),
        state.waiting == Waiting::Apply(port),
    ensures
        ({
            let applied = state.next(Event::Applied(true));
            let woke = applied.state.next(Event::Woke);
            let read = woke.state.next(Event::Port(Some(port)));
            &&& applied.state.last_port == port
            &&& applied.action == Action::Sleep
            &&& woke.action == Action::ReadPort
            &&& read.action == Action::Sleep
            &&& read.state.last_port == port
        }),
{
}

/// The record of the applied port changes in one way only: the backend took
/// the port that the loop asked it to apply.
pub proof fn lemma_record_changes_only_on_success(state: LoopState, event: Event)
    ensures
        state.next(event).state.last_port != state.last_port ==> {
            &&& state.waiting is Apply
            &&& event == Event::Applied(true)
            &&& state.next(event).state.last_port == state.waiting->Apply_0
        },
{
}

/// A failure never stops the loop and never makes it spin: whatever a login,
/// a reading or an application brought, the loop goes on, and after a
/// failure it sleeps first.
pub proof fn lemma_failure_leads_to_sleep(state: LoopState)
    ensures
        state.waiting is FirstLogin || state.waiting is Login ==> state.next(
            Event::Login(false),
        ).action == Action::Sleep,
        state.waiting is Port ==> state.next(Event::Port(None)).action == Action::Sleep,
        state.waiting is Apply ==> state.next(Event::Applied(false)).action == Action::Sleep,
        state.waiting is Apply ==> state.next(Event::Applied(false)).state.last_port
            == state.last_port,
{
}

} // verus!
