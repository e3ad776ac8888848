//! The actor that owns one connection: it takes commands one at a time and
//! decides, from what the outside work reported, what is done next.
//!
//! The actor performs no outside work itself. Each call of [`Conn::step`] takes
//! an event (a command, or the outcome of the work last asked for) and
//! answers with the work to do next and, where a continuation is owed a
//! result, a report for it.

use vstd::prelude::*;
use crate::error::{should_reconnect, Failure};
use crate::query::{Query, QueryResult, NO_CONTINUATION};
use crate::state::State;

verus! {

/// The number of times that a lost connection is opened anew before the
/// actor gives up.
pub const MAX_RECONNECT_ATTEMPTS: u8 = 7;

/// What is shared of a connection with those who only read it.
#[derive(Clone, Copy, Debug, PartialEq, Eq, Structural)]
pub struct ConnMeta {
    /// The generation: it grows by one each time a connection is opened.
    pub id: u64,
    pub state: State,
}

impl ConnMeta {
    pub fn set_state(&mut self, state: State)
        ensures
            final(self).state == state,
            final(self).id == old(self).id,
    {
        self.state = state;
    }
}

/// What the actor is asked to do.
#[derive(Debug, Clone, PartialEq, Eq)]
pub enum Command {
    Connect(i32),
    Disconnect(i32),
    Query(Query),
    Ping(i32),
    /// Ends the actor. Nothing is taken after it.
    Close,
}

/// What a continuation is told.
#[derive(Debug, Clone, PartialEq, Eq)]
pub enum Outcome {
    /// The work was done; there is nothing to hand over.
    Done,
    Failed(Failure),
    /// The time that a round trip took, in microseconds.
    Latency(u64),
    Result(QueryResult),
}

/// A result and the continuation that it is owed to.
#[derive(Debug, Clone, PartialEq, Eq)]
pub struct Report {
    pub continuation: i32,
    /// Whether the caller waits for the result itself: a result that is
    /// waited for is handed over directly, any other is queued for the
    /// host's next poll.
    pub sync: bool,
    pub outcome: Outcome,
}

/// The outside work that the actor asks for next.
#[derive(Debug, Clone, PartialEq, Eq)]
pub enum Action {
    /// Wait for the next command.
    Receive,
    /// Open a connection; before that, if `close_existing`, close the one
    /// that is held, whatever comes of closing it.
    Open { close_existing: bool },
    /// Close the connection that is held.
    Close,
    /// Run the query on the connection that is held.
    Execute(Query),
    /// Make a round trip on the connection that is held.
    Ping,
    /// Wait for so many seconds.
    Sleep(u64),
    /// End the loop.
    Stop,
    /// The event does not answer what the actor asked for; nothing changed.
    Rejected,
}

/// A command, or the outcome of the work that the actor asked for.
#[derive(Debug, PartialEq, Eq)]
pub enum Event {
    Command(Command),
    Opened(Result<(), Failure>),
    Closed(Result<(), Failure>),
    QueryFinished(Result<QueryResult, Failure>),
    /// The outcome of a round trip: the time it took, in microseconds.
    Pinged(Result<u64, Failure>),
    Slept,
}

/// What the actor is waiting for.
#[derive(Debug, Clone, PartialEq, Eq)]
pub enum Phase {
    /// The next command.
    Idle,
    /// The outcome of opening a connection, for a `Connect` command.
    Connecting { continuation: i32 },
    /// The outcome of closing the connection.
    Disconnecting { continuation: i32 },
    /// The outcome of a query.
    Querying { continuation: i32, sync: bool },
    /// The outcome of the round trip that tells whether the connection is
    /// gone, after a query failed with the transient failure `failure`.
    Verifying { continuation: i32, sync: bool, failure: Failure },
    /// The end of the pause before the attempt `attempt` to open the
    /// connection anew.
    Backoff { attempt: u8 },
    /// The outcome of the attempt `attempt` to open the connection anew.
    Reconnecting { attempt: u8 },
    /// The outcome of a round trip, for a `Ping` command.
    Pinging { continuation: i32 },
    /// Nothing: the actor has ended.
    Stopped,
}

/// What a step of the actor answers.
#[derive(Debug, Clone, PartialEq, Eq)]
pub struct Step {
    pub report: Option<Report>,
    pub action: Action,
}

/// The actor as a plain value.
pub struct ConnView {
    pub state: State,
    pub id: u64,
    /// Whether a connection is held.
    pub connected: bool,
    pub phase: Phase,
}

/// The pause, in seconds, before the attempt `attempt` to open the connection
/// anew: two seconds before the first, one more before each that follows.
pub open spec fn delay_before(attempt: u8) -> u64 {
    (attempt + 1) as u64
}

/// The generation that follows `id`: one more, and after the greatest
/// number that a generation can be, zero again.
pub open spec fn next_generation(id: u64) -> u64 {
    if id == u64::MAX {
        0
    } else {
        (id + 1) as u64
    }
}

/// The report that is owed for a result; nobody is told where nobody waits.
pub open spec fn report_for_query(continuation: i32, sync: bool, outcome: Outcome) -> Option<
    Report,
> {
    if continuation == NO_CONTINUATION && !sync {
        None
    } else {
        Some(Report { continuation, sync, outcome })
    }
}

/// The report that a continuation is owed for a command that nobody waits
/// for in person.
pub open spec fn report_to(continuation: i32, outcome: Outcome) -> Option<Report> {
    report_for_query(continuation, false, outcome)
}

/// What a continuation is told of work that hands nothing over.
pub open spec fn outcome_of(res: Result<(), Failure>) -> Outcome {
    match res {
        Ok(_) => Outcome::Done,
        Err(e) => Outcome::Failed(e),
    }
}

/// What a continuation is told of a round trip.
pub open spec fn outcome_of_ping(res: Result<u64, Failure>) -> Outcome {
    match res {
        Ok(micros) => Outcome::Latency(micros),
        Err(e) => Outcome::Failed(e),
    }
}

impl ConnView {
    /// What holds of the actor between any two steps.
    pub open spec fn wf(self) -> bool {
        match self.phase {
            Phase::Idle => self.state != State::Connecting && (self.connected <==> self.state
                == State::Connected),
            Phase::Connecting { .. } => self.state == State::Connecting && !self.connected,
            Phase::Disconnecting { .. } => self.state == State::Disconnected && !self.connected,
            Phase::Querying { .. } | Phase::Pinging { .. } => self.state == State::Connected
                && self.connected,
            Phase::Verifying { failure, .. } => self.state == State::Connected && self.connected
                && failure.is_transient(),
            Phase::Backoff { attempt } => self.state == State::NotConnected && 1 <= attempt
                <= MAX_RECONNECT_ATTEMPTS,
            Phase::Reconnecting { attempt } => self.state == State::Connecting && !self.connected
                && 1 <= attempt <= MAX_RECONNECT_ATTEMPTS,
            Phase::Stopped => true,
        }
    }

    /// The answer to an event that the actor did not ask for.
    pub open spec fn rejected(self) -> (ConnView, Step) {
        (self, Step { report: None, action: Action::Rejected })
    }

    /// The actor waits for the next command, with `report` to hand over.
    pub open spec fn idle(self, report: Option<Report>) -> (ConnView, Step) {
        (ConnView { phase: Phase::Idle, ..self }, Step { report, action: Action::Receive })
    }

    /// A command arrives.
    pub open spec fn on_command(self, command: Command) -> (ConnView, Step) {
        if !(self.phase is Idle) {
            self.rejected()
        } else {
            match command {
                Command::Connect(c) => (
                    ConnView {
                        state: State::Connecting,
                        connected: false,
                        phase: Phase::Connecting { continuation: c },
                        ..self
                    },
                    Step { report: None, action: Action::Open { close_existing: self.connected } },
                ),
                Command::Disconnect(c) => if self.connected {
                    (
                        ConnView {
                            state: State::Disconnected,
                            connected: false,
                            phase: Phase::Disconnecting { continuation: c },
                            ..self
                        },
                        Step { report: None, action: Action::Close },
                    )
                } else {
                    ConnView { state: State::Disconnected, ..self }.idle(
                        report_to(c, Outcome::Done),
                    )
                },
                Command::Query(q) => if self.connected {
                    (
                        ConnView {
                            phase: Phase::Querying { continuation: q.callback, sync: q.sync },
                            ..self
                        },
                        Step { report: None, action: Action::Execute(q) },
                    )
                } else {
                    self.idle(
                        report_for_query(
                            q.callback,
                            q.sync,
                            Outcome::Failed(Failure::NotConnected),
                        ),
                    )
                },
                Command::Ping(c) => if self.connected {
                    (
                        ConnView { phase: Phase::Pinging { continuation: c }, ..self },
                        Step { report: None, action: Action::Ping },
                    )
                } else {
                    self.idle(report_to(c, Outcome::Failed(Failure::NotConnected)))
                },
                Command::Close => (
                    ConnView { phase: Phase::Stopped, ..self },
                    Step { report: None, action: Action::Stop },
                ),
            }
        }
    }

    /// A connection was opened: the actor holds it and the generation grows.
    pub open spec fn opened(self, report: Option<Report>) -> (ConnView, Step) {
        ConnView {
            state: State::Connected,
            id: next_generation(self.id),
            connected: true,
            ..self
        }.idle(report)
    }

    /// Opening a connection ended. An attempt that failed leaves the
    /// connection `NotConnected`, whether a command had asked for it or the
    /// actor made it to get a lost connection back.
    pub open spec fn on_opened(self, res: Result<(), Failure>) -> (ConnView, Step) {
        match self.phase {
            Phase::Connecting { continuation } => match res {
                Ok(_) => self.opened(report_to(continuation, Outcome::Done)),
                Err(e) => ConnView { state: State::NotConnected, ..self }.idle(
                    report_to(continuation, Outcome::Failed(e)),
                ),
            },
            Phase::Reconnecting { attempt } => match res {
                Ok(_) => self.opened(None),
                Err(_) => if attempt < MAX_RECONNECT_ATTEMPTS {
                    (
                        ConnView {
                            state: State::NotConnected,
                            phase: Phase::Backoff { attempt: (attempt + 1) as u8 },
                            ..self
                        },
                        Step {
                            report: None,
                            action: Action::Sleep(delay_before((attempt + 1) as u8)),
                        },
                    )
                } else {
                    ConnView { state: State::NotConnected, ..self }.idle(None)
                },
            },
            _ => self.rejected(),
        }
    }

    /// Closing the connection ended.
    pub open spec fn on_closed(self, res: Result<(), Failure>) -> (ConnView, Step) {
        match self.phase {
            Phase::Disconnecting { continuation } => self.idle(
                report_to(continuation, outcome_of(res)),
            ),
            _ => self.rejected(),
        }
    }

    /// A query ended.
    pub open spec fn on_query_finished(self, res: Result<QueryResult, Failure>) -> (
        ConnView,
        Step,
    ) {
        match self.phase {
            Phase::Querying { continuation, sync } => match res {
                Ok(r) => self.idle(report_for_query(continuation, sync, Outcome::Result(r))),
                Err(e) => if e.is_transient() {
                    (
                        ConnView {
                            phase: Phase::Verifying { continuation, sync, failure: e },
                            ..self
                        },
                        Step { report: None, action: Action::Ping },
                    )
                } else {
                    self.idle(report_for_query(continuation, sync, Outcome::Failed(e)))
                },
            },
            _ => self.rejected(),
        }
    }

    /// A round trip ended.
    pub open spec fn on_pinged(self, res: Result<u64, Failure>) -> (ConnView, Step) {
        match self.phase {
            Phase::Pinging { continuation } => self.idle(
                report_to(continuation, outcome_of_ping(res)),
            ),
            Phase::Verifying { continuation, sync, failure } => match res {
                Ok(_) => self.idle(report_for_query(continuation, sync, Outcome::Failed(failure))),
                Err(_) => (
                    ConnView {
                        state: State::NotConnected,
                        phase: Phase::Backoff { attempt: 1 },
                        ..self
                    },
                    Step {
                        report: report_for_query(continuation, sync, Outcome::Failed(failure)),
                        action: Action::Sleep(delay_before(1)),
                    },
                ),
            },
            _ => self.rejected(),
        }
    }

    /// A pause ended.
    pub open spec fn on_slept(self) -> (ConnView, Step) {
        match self.phase {
            Phase::Backoff { attempt } => (
                ConnView {
                    state: State::Connecting,
                    connected: false,
                    phase: Phase::Reconnecting { attempt },
                    ..self
                },
                Step { report: None, action: Action::Open { close_existing: self.connected } },
            ),
            _ => self.rejected(),
        }
    }

    /// The actor after `event`, and what it answers.
    pub open spec fn next(self, event: Event) -> (ConnView, Step) {
        match event {
            Event::Command(command) => self.on_command(command),
            Event::Opened(res) => self.on_opened(res),
            Event::Closed(res) => self.on_closed(res),
            Event::QueryFinished(res) => self.on_query_finished(res),
            Event::Pinged(res) => self.on_pinged(res),
            Event::Slept => self.on_slept(),
        }
    }
}

/// The actor that owns one connection.
#[derive(Debug, PartialEq, Eq)]
pub struct Conn {
    meta: ConnMeta,
    connected: bool,
    phase: Phase,
}

fn report_of(continuation: i32, sync: bool, outcome: Outcome) -> (report: Option<Report>)
    ensures
        report == report_for_query(continuation, sync, outcome),
{
    if continuation == NO_CONTINUATION && !sync {
        None
    } else {
        Some(Report { continuation, sync, outcome })
    }
}

fn report_for(continuation: i32, outcome: Outcome) -> (report: Option<Report>)
    ensures
        report == report_to(continuation, outcome),
{
    report_of(continuation, false, outcome)
}

impl View for Conn {
    type V = ConnView;

    closed spec fn view(&self) -> ConnView {
        ConnView {
            state: self.meta.state,
            id: self.meta.id,
            connected: self.connected,
            phase: self.phase,
        }
    }
}

impl Conn {
    /// What holds of the actor between any two steps.
    pub open spec fn wf(self) -> bool {
        self@.wf()
    }

    /// An actor that holds no connection and waits for its first command.
    pub fn new() -> (conn: Conn)
        ensures
            conn.wf(),
            conn@ == (ConnView {
                state: State::NotConnected,
                id: 0,
                connected: false,
                phase: Phase::Idle,
            }),
    {
        Conn {
            meta: ConnMeta { id: 0, state: State::NotConnected },
            connected: false,
            phase: Phase::Idle,
        }
    }

    /// The generation of the connection.
    pub fn id(&self) -> (id: u64)
        ensures
            id == self@.id,
    {
        self.meta.id
    }

    /// The state of the connection.
    pub fn state(&self) -> (state: State)
        ensures
            state == self@.state,
    {
        self.meta.state
    }

    /// What is shared of the connection with those who only read it.
    pub fn meta(&self) -> (meta: ConnMeta)
        ensures
            meta.id == self@.id,
            meta.state == self@.state,
    {
        self.meta
    }

    /// Whether the actor waits for the next command.
    pub fn is_idle(&self) -> (idle: bool)
        ensures
            idle == (self@.phase is Idle),
    {
        match &self.phase {
            Phase::Idle => true,
            _ => false,
        }
    }

    /// Whether the actor has ended.
    pub fn is_stopped(&self) -> (stopped: bool)
        ensures
            stopped == (self@.phase is Stopped),
    {
        match &self.phase {
            Phase::Stopped => true,
            _ => false,
        }
    }

    fn rest(&mut self, report: Option<Report>) -> (step: Step)
        ensures
            (final(self)@, step) == old(self)@.idle(report),
    {
        self.phase = Phase::Idle;
        Step { report, action: Action::Receive }
    }

    fn hold(&mut self, phase: Phase) -> (step: Step)
        ensures
            final(self)@ == (ConnView { phase, ..old(self)@ }),
            step == (Step { report: None, action: Action::Rejected }),
    {
        self.phase = phase;
        Step { report: None, action: Action::Rejected }
    }

    fn take_phase(&mut self) -> (phase: Phase)
        ensures
            phase == old(self)@.phase,
            final(self)@ == (ConnView { phase: Phase::Idle, ..old(self)@ }),
    {
        let mut phase = Phase::Idle;
        core::mem::swap(&mut self.phase, &mut phase);
        phase
    }

    fn accept_opened(&mut self, report: Option<Report>) -> (step: Step)
        ensures
            (final(self)@, step) == old(self)@.opened(report),
    {
        self.meta.set_state(State::Connected);
        self.meta.id = following_generation(self.meta.id);
        self.connected = true;
        self.rest(report)
    }

    fn accept_command(&mut self, command: Command) -> (step: Step)
        requires
            old(self)@.phase is Idle,
        ensures
            (final(self)@, step) == old(self)@.on_command(command),
    {
        match command {
            Command::Connect(c) => {
                let close_existing = self.connected;
                self.meta.set_state(State::Connecting);
                self.connected = false;
                self.phase = Phase::Connecting { continuation: c };
                Step { report: None, action: Action::Open { close_existing } }
            },
            Command::Disconnect(c) => {
                self.meta.set_state(State::Disconnected);
                if self.connected {
                    self.connected = false;
                    self.phase = Phase::Disconnecting { continuation: c };
                    Step { report: None, action: Action::Close }
                } else {
                    self.rest(report_for(c, Outcome::Done))
                }
            },
            Command::Query(q) => {
                if self.connected {
                    self.phase = Phase::Querying { continuation: q.callback, sync: q.sync };
                    Step { report: None, action: Action::Execute(q) }
                } else {
                    self.rest(
                        report_of(q.callback, q.sync, Outcome::Failed(Failure::NotConnected)),
                    )
                }
            },
            Command::Ping(c) => {
                if self.connected {
                    self.phase = Phase::Pinging { continuation: c };
                    Step { report: None, action: Action::Ping }
                } else {
                    self.rest(report_for(c, Outcome::Failed(Failure::NotConnected)))
                }
            },
            Command::Close => {
                self.phase = Phase::Stopped;
                Step { report: None, action: Action::Stop }
            },
        }
    }

    /// Takes an event and answers with the work to do next and the report
    /// that is owed. An event that does not answer what the actor asked for
    /// last changes nothing and is answered with `Rejected`.
    pub fn step(&mut self, event: Event) -> (step: Step)
        requires
            old(self).wf(),
        ensures
            final(self).wf(),
            (final(self)@, step) == old(self)@.next(event),
    {
        let phase = self.take_phase();
        match event {
            Event::Command(command) => match phase {
                Phase::Idle => self.accept_command(command),
                other => self.hold(other),
            },
            Event::Opened(res) => match phase {
                Phase::Connecting { continuation } => match res {
                    Ok(_) => self.accept_opened(report_for(continuation, Outcome::Done)),
                    Err(e) => {
                        self.meta.set_state(State::NotConnected);
                        self.rest(report_for(continuation, Outcome::Failed(e)))
                    },
                },
                Phase::Reconnecting { attempt } => match res {
                    Ok(_) => self.accept_opened(None),
                    Err(_) => {
                        self.meta.set_state(State::NotConnected);
                        if attempt < MAX_RECONNECT_ATTEMPTS {
                            let following: u8 = attempt + 1;
                            self.phase = Phase::Backoff { attempt: following };
                            Step { report: None, action: Action::Sleep(pause_before(following)) }
                        } else {
                            self.rest(None)
                        }
                    },
                },
                other => self.hold(other),
            },
            Event::Closed(res) => match phase {
                Phase::Disconnecting { continuation } => {
                    let outcome = match res {
                        Ok(_) => Outcome::Done,
                        Err(e) => Outcome::Failed(e),
                    };
                    self.rest(report_for(continuation, outcome))
                },
                other => self.hold(other),
            },
            Event::QueryFinished(res) => match phase {
                Phase::Querying { continuation, sync } => match res {
                    Ok(r) => self.rest(report_of(continuation, sync, Outcome::Result(r))),
                    Err(e) => {
                        if should_reconnect(&e) {
                            self.phase = Phase::Verifying { continuation, sync, failure: e };
                            Step { report: None, action: Action::Ping }
                        } else {
                            self.rest(report_of(continuation, sync, Outcome::Failed(e)))
                        }
                    },
                },
                other => self.hold(other),
            },
            Event::Pinged(res) => match phase {
                Phase::Pinging { continuation } => {
                    let outcome = match res {
                        Ok(micros) => Outcome::Latency(micros),
                        Err(e) => Outcome::Failed(e),
                    };
                    self.rest(report_for(continuation, outcome))
                },
                Phase::Verifying { continuation, sync, failure } => match res {
                    Ok(_) => self.rest(report_of(continuation, sync, Outcome::Failed(failure))),
                    Err(_) => {
                        self.meta.set_state(State::NotConnected);
                        self.phase = Phase::Backoff { attempt: 1 };
                        Step {
                            report: report_of(continuation, sync, Outcome::Failed(failure)),
                            action: Action::Sleep(pause_before(1)),
                        }
                    },
                },
                other => self.hold(other),
            },
            Event::Slept => match phase {
                Phase::Backoff { attempt } => {
                    let close_existing = self.connected;
                    self.meta.set_state(State::Connecting);
                    self.connected = false;
                    self.phase = Phase::Reconnecting { attempt };
                    Step { report: None, action: Action::Open { close_existing } }
                },
                other => self.hold(other),
            },
        }
    }
}

/// Hands the actor the command to open a connection, for `callback`.
pub fn connect(conn: &mut Conn, callback: i32) -> (step: Step)
    requires
        old(conn).wf(),
    ensures
        final(conn).wf(),
        (final(conn)@, step) == old(conn)@.next(Event::Command(Command::Connect(callback))),
{
    conn.step(Event::Command(Command::Connect(callback)))
}

/// Hands the actor the command to close the connection, for `callback`.
pub fn disconnect(conn: &mut Conn, callback: i32) -> (step: Step)
    requires
        old(conn).wf(),
    ensures
        final(conn).wf(),
        (final(conn)@, step) == old(conn)@.next(Event::Command(Command::Disconnect(callback))),
{
    conn.step(Event::Command(Command::Disconnect(callback)))
}

/// Hands the actor a query.
pub fn query(conn: &mut Conn, request: Query) -> (step: Step)
    requires
        old(conn).wf(),
    ensures
        final(conn).wf(),
        (final(conn)@, step) == old(conn)@.next(Event::Command(Command::Query(request))),
{
    conn.step(Event::Command(Command::Query(request)))
}

/// Hands the actor the command to make a round trip, for `callback`.
pub fn ping(conn: &mut Conn, callback: i32) -> (step: Step)
    requires
        old(conn).wf(),
    ensures
        final(conn).wf(),
        (final(conn)@, step) == old(conn)@.next(Event::Command(Command::Ping(callback))),
{
    conn.step(Event::Command(Command::Ping(callback)))
}

/// The generation that follows `id`: one more, and zero after the greatest
/// number that a generation can be.
pub fn following_generation(id: u64) -> (next: u64)
    ensures
        next == next_generation(id),
{
    if id == u64::MAX {
        0
    } else {
        id + 1
    }
}

/// The pause, in seconds, before the attempt `attempt` to open a lost
/// connection anew.
pub fn pause_before(attempt: u8) -> (seconds: u64)
    requires
        attempt <= MAX_RECONNECT_ATTEMPTS,
    ensures
        seconds == delay_before(attempt),
{
    let n: u64 = attempt.into();
    n + 1
}

/// The number of failed attempts at the head of `outcomes`.
pub open spec fn failures_before_success(outcomes: Seq<Result<(), Failure>>) -> int
    decreases outcomes.len(),
{
    if outcomes.len() == 0 || outcomes[0] is Ok {
        0
    } else {
        1 + failures_before_success(outcomes.skip(1))
    }
}

/// The failed attempts at the head are no more than the attempts.
pub proof fn failures_before_success_bounds(outcomes: Seq<Result<(), Failure>>)
    ensures
        0 <= failures_before_success(outcomes) <= outcomes.len(),
    decreases outcomes.len(),
{
    if outcomes.len() != 0 && !(outcomes[0] is Ok) {
        failures_before_success_bounds(outcomes.skip(1));
    }
}

/// The actor after its attempts to open a lost connection anew, where
/// `outcomes` holds what comes of the attempts, in order: it pauses and tries
/// until an attempt succeeds or it gives up.
pub open spec fn recover(v: ConnView, outcomes: Seq<Result<(), Failure>>) -> ConnView
    decreases outcomes.len(),
{
    if outcomes.len() == 0 || !(v.phase is Backoff) {
        v
    } else {
        recover(v.next(Event::Slept).0.next(Event::Opened(outcomes[0])).0, outcomes.skip(1))
    }
}

/// The number of attempts that the actor makes on the way to `recover`.
pub open spec fn attempts_made(v: ConnView, outcomes: Seq<Result<(), Failure>>) -> int
    decreases outcomes.len(),
{
    if outcomes.len() == 0 || !(v.phase is Backoff) {
        0
    } else {
        1 + attempts_made(
            v.next(Event::Slept).0.next(Event::Opened(outcomes[0])).0,
            outcomes.skip(1),
        )
    }
}

/// The pauses, in seconds, that the actor asks for on the way to `recover`,
/// in order.
pub open spec fn pauses_asked(v: ConnView, outcomes: Seq<Result<(), Failure>>) -> Seq<u64>
    decreases outcomes.len(),
{
    if outcomes.len() == 0 || !(v.phase is Backoff) {
        Seq::empty()
    } else {
        let (after, answer) = v.next(Event::Slept).0.next(Event::Opened(outcomes[0]));
        let asked = match answer.action {
            Action::Sleep(seconds) => seq![seconds],
            _ => Seq::empty(),
        };
        asked + pauses_asked(after, outcomes.skip(1))
    }
}

/// The smaller of two numbers.
pub open spec fn smaller(a: int, b: int) -> int {
    if a <= b {
        a
    } else {
        b
    }
}

/// Every step keeps the actor well-formed.
pub proof fn step_keeps_well_formed(v: ConnView, event: Event)
    requires
        v.wf(),
    ensures
        v.next(event).0.wf(),
{
}

/// While a command is under way, another is rejected and changes nothing: no
/// two commands run on the connection at once.
pub proof fn busy_actor_rejects_commands(v: ConnView, command: Command)
    requires
        !(v.phase is Idle),
    ensures
        v.next(Event::Command(command)) == v.rejected(),
{
}

/// The generation changes only when a connection was opened, and then to
/// the generation that follows: one more, but for the greatest number that a
/// generation can be, which zero follows.
pub proof fn generation_grows_only_on_open(v: ConnView, event: Event)
    requires
        v.wf(),
    ensures
        v.next(event).0.id != v.id <==> (event is Opened && event->Opened_0 is Ok && (v.phase
            is Connecting || v.phase is Reconnecting)),
        v.next(event).0.id != v.id ==> v.next(event).0.id == next_generation(v.id) && v.next(
            event,
        ).0.state == State::Connected,
        v.id < u64::MAX ==> next_generation(v.id) == v.id + 1,
{
}

/// The actor never holds a connection to be in the state `Error`: an
/// attempt to open a connection that fails, asked for or not, leaves the
/// connection `NotConnected`.
pub proof fn failed_open_leaves_not_connected(v: ConnView, event: Event)
    requires
        v.wf(),
        v.state != State::Error,
    ensures
        v.next(event).0.state != State::Error,
        (event is Opened && event->Opened_0 is Err && (v.phase is Connecting || v.phase
            is Reconnecting)) ==> v.next(event).0.state == State::NotConnected && v.next(
            event,
        ).0.id == v.id,
{
}

/// A connection is held to be open only once an attempt to open it, during
/// which it was held to be connecting, has succeeded.
pub proof fn connected_only_through_connecting(v: ConnView, event: Event)
    requires
        v.wf(),
        v.state != State::Connected,
        v.next(event).0.state == State::Connected,
    ensures
        v.state == State::Connecting,
        event is Opened,
        event->Opened_0 is Ok,
{
}

/// A connection that was closed on request stays closed until a command
/// asks to open it.
pub proof fn disconnected_until_connect(v: ConnView, event: Event)
    requires
        v.wf(),
        v.state == State::Disconnected,
        v.next(event).0.state != State::Disconnected,
    ensures
        event is Command,
        event->Command_0 is Connect,
        v.next(event).0.state == State::Connecting,
{
}

/// Without a connection nothing is sent: a query or a round trip is answered
/// at once with the failure `NotConnected`, and the actor stays as it was.
pub proof fn not_connected_is_answered_at_once(v: ConnView, command: Command)
    requires
        v.wf(),
        v.phase is Idle,
        !v.connected,
        command is Query || command is Ping,
    ensures
        v.next(Event::Command(command)).0 == v,
        v.next(Event::Command(command)).1.action == Action::Receive,
        v.next(Event::Command(command)).1.report == (match command {
            Command::Query(q) => report_for_query(
                q.callback,
                q.sync,
                Outcome::Failed(Failure::NotConnected),
            ),
            Command::Ping(c) => report_to(c, Outcome::Failed(Failure::NotConnected)),
            _ => None,
        }),
{
}

/// A query that fails with a transient failure is answered with a round
/// trip, and until that has ended nothing is reported and the connection is
/// not held to be gone. A query that fails otherwise is reported at once,
/// and the actor waits for the next command.
pub proof fn transient_failure_is_checked_first(v: ConnView, e: Failure)
    requires
        v.wf(),
        v.phase is Querying,
    ensures
        ({
            let (w, s) = v.next(Event::QueryFinished(Err(e)));
            let c = v.phase->Querying_continuation;
            let sync = v.phase->Querying_sync;
            &&& w.state == v.state && w.id == v.id && w.connected == v.connected
            &&& e.is_transient() ==> s.action == Action::Ping && s.report is None && w.phase == (
            Phase::Verifying { continuation: c, sync, failure: e })
            &&& !e.is_transient() ==> s.action == Action::Receive && w.phase is Idle && s.report
                == report_for_query(c, sync, Outcome::Failed(e))
        }),
{
}

/// A connection that is held to be open is given up only when the round trip
/// that follows a transient failure has failed too. The failed query is
/// reported all the same.
pub proof fn connection_is_given_up_only_after_failed_ping(v: ConnView, event: Event)
    requires
        v.wf(),
        v.state == State::Connected,
        v.next(event).0.state == State::NotConnected,
    ensures
        v.phase is Verifying,
        v.phase->Verifying_failure.is_transient(),
        event is Pinged,
        event->Pinged_0 is Err,
        v.next(event).1.report == report_for_query(
            v.phase->Verifying_continuation,
            v.phase->Verifying_sync,
            Outcome::Failed(v.phase->Verifying_failure),
        ),
{
}

/// The actor pauses only before an attempt to open a lost connection anew:
/// two seconds before the first attempt, which follows a failed round trip
/// after a transient failure, and one second more before each attempt that
/// follows a failed one. There is no attempt after the seventh.
pub proof fn pauses_follow_the_schedule(v: ConnView, event: Event)
    requires
        v.wf(),
    ensures
        ({
            let (w, s) = v.next(event);
            &&& s.action is Sleep ==> w.phase is Backoff
            &&& w.phase is Backoff ==> s.action is Sleep || (s.action is Rejected && w == v)
            &&& s.action is Sleep ==> {
                let attempt = w.phase->Backoff_attempt;
                &&& 1 <= attempt <= MAX_RECONNECT_ATTEMPTS
                &&& s.action == Action::Sleep((attempt + 1) as u64)
                &&& attempt == 1 ==> v.phase is Verifying && v.phase->Verifying_failure.is_transient()
                    && event is Pinged && event->Pinged_0 is Err
                &&& attempt > 1 ==> v.phase == (Phase::Reconnecting {
                    attempt: (attempt - 1) as u8,
                }) && event is Opened && event->Opened_0 is Err
            }
        }),
{
}

/// From the pause before the attempt `attempt` on, the actor tries until an
/// attempt succeeds or the seventh has failed. Where one succeeds, the
/// generation is the one that follows and the connection is open; where
/// none does, the generation is as it was and the connection stays lost.
/// After each failed attempt but the seventh it asks for a pause that is one
/// second longer than the one before.
pub proof fn recovery_from(v: ConnView, outcomes: Seq<Result<(), Failure>>, attempt: u8)
    requires
        v.wf(),
        v.phase == (Phase::Backoff { attempt }),
        outcomes.len() > MAX_RECONNECT_ATTEMPTS - attempt,
    ensures
        ({
            let r = recover(v, outcomes);
            let failed = failures_before_success(outcomes);
            let left = MAX_RECONNECT_ATTEMPTS - attempt + 1;
            &&& r.wf()
            &&& r.phase is Idle
            &&& failed < left ==> r.id == next_generation(v.id) && r.state == State::Connected && r.connected
                && attempts_made(v, outcomes) == failed + 1
            &&& failed >= left ==> r.id == v.id && r.state == State::NotConnected && !r.connected
                && attempts_made(v, outcomes) == left
            &&& pauses_asked(v, outcomes) == Seq::new(
                smaller(failed, left - 1) as nat,
                |i: int| (attempt + 2 + i) as u64,
            )
        }),
    decreases outcomes.len(),
{
    let rest = outcomes.skip(1);
    let b = v.next(Event::Slept).0.next(Event::Opened(outcomes[0])).0;
    let failed = failures_before_success(outcomes);
    let left = MAX_RECONNECT_ATTEMPTS - attempt + 1;
    let expected = Seq::new(smaller(failed, left - 1) as nat, |i: int| (attempt + 2 + i) as u64);
    failures_before_success_bounds(rest);
    if outcomes[0] is Ok || attempt == MAX_RECONNECT_ATTEMPTS {
        assert(b.phase is Idle);
        assert(recover(b, rest) == b);
        assert(attempts_made(b, rest) == 0);
        assert(pauses_asked(b, rest) == Seq::<u64>::empty());
        assert(pauses_asked(v, outcomes) =~= expected);
    } else {
        recovery_from(b, rest, (attempt + 1) as u8);
        let later = Seq::new(
            smaller(failed - 1, left - 2) as nat,
            |i: int| (attempt + 3 + i) as u64,
        );
        assert(pauses_asked(b, rest) == later);
        assert(pauses_asked(v, outcomes) == seq![(attempt + 2) as u64] + later);
        assert(seq![(attempt + 2) as u64] + later =~= expected);
    }
}

/// After a connection was lost the actor makes at most seven attempts to
/// open it anew, and stops at the first that succeeds. Where one succeeds,
/// the generation is the one that follows, which is one more but at the very
/// limit of the counter, and the connection is open; where
/// all seven fail, the generation is as it was and the connection stays lost
/// until it is asked for again. After the pause of two seconds that comes
/// before the first attempt, the pauses that the actor asks for, one after
/// each failed attempt but the seventh, are of three seconds, then four, and
/// so on up to eight.
pub proof fn recovery_is_bounded(v: ConnView, outcomes: Seq<Result<(), Failure>>)
    requires
        v.wf(),
        v.phase == (Phase::Backoff { attempt: 1 }),
        outcomes.len() >= MAX_RECONNECT_ATTEMPTS,
    ensures
        ({
            let r = recover(v, outcomes);
            let failed = failures_before_success(outcomes);
            &&& r.phase is Idle
            &&& 1 <= attempts_made(v, outcomes) <= MAX_RECONNECT_ATTEMPTS
            &&& failed < MAX_RECONNECT_ATTEMPTS ==> r.id == next_generation(v.id) && r.state == State::Connected
                && attempts_made(v, outcomes) == failed + 1
            &&& failed >= MAX_RECONNECT_ATTEMPTS ==> r.id == v.id && r.state == State::NotConnected
                && attempts_made(v, outcomes) == MAX_RECONNECT_ATTEMPTS
            &&& pauses_asked(v, outcomes) == Seq::new(
                smaller(failed, MAX_RECONNECT_ATTEMPTS - 1) as nat,
                |i: int| (3 + i) as u64,
            )
        }),
{
    failures_before_success_bounds(outcomes);
    recovery_from(v, outcomes, 1);
}

} // verus!
