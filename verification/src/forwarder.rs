//! The control state of a forwarder: which port its listen socket is on,
//! whether it still takes work, how many relays it may still start, and
//! how long it waits for them when it stops.
//!
//! A forwarder owns one listen socket. Its driver waits on the action bus
//! and on the socket, reports what it saw, and does what the forwarder
//! answers.

use crate::action::{Action, Ending, Transport};
use crate::config::RuntimeConfig;
use crate::addr::Ipv4;
use crate::recv::{classify, first_orig_dst, reception_of, Header, Received, Reception};
use crate::relay::Io;
use crate::log::{join, join3, join4, line_views, Level, LineView, LogLine};
use crate::socket::{listen_plan, spec_listen_plan, SocketFailure, SocketPlan};
use crate::text::{decimal, decimal_text};
use crate::tcp::Connection;
use crate::{CONN_BACKLOG, DRAIN_SECS};
use vstd::prelude::*;
use vstd::string::*;

verus! {

/// Milliseconds a forwarder waits for its relays once it stops taking
/// work.
pub open spec fn drain_millis() -> u64 {
    (DRAIN_SECS * 1000) as u64
}

/// Where a forwarder is in its life.
#[derive(Clone, Copy, Debug, PartialEq, Eq, Structural)]
pub enum Phase {
    /// Taking work.
    Running,
    /// Taking no more work and waiting for the relays in flight until the
    /// clock reads `deadline` milliseconds.
    Draining { deadline: u64 },
    /// Ended.
    Finished,
}

/// What a forwarder is, as plain values.
pub struct ForwarderState {
    pub transport: Transport,
    /// Port of the live listen socket.
    pub port: u16,
    pub phase: Phase,
    /// Relays that may still be started. Only UDP counts them; TCP leaves
    /// the limit to the listen backlog.
    pub permits: u32,
}

/// What the driver does after it reported an action.
#[derive(Clone, Copy, Debug, PartialEq, Eq, Structural)]
pub enum Command {
    /// Go on as before.
    Continue,
    /// Take the published snapshot as the one new relays see. Where
    /// `rebind` holds a plan, open that listen socket too and report the
    /// result with [`Forwarder::on_rebound`].
    Adopt { rebind: Option<SocketPlan> },
    /// Leave the main loop and drain until the clock reads `deadline`.
    Drain { deadline: u64 },
    /// Leave the main loop and cancel every relay in flight.
    Abort,
}

/// Whether a relay may be started.
#[derive(Clone, Copy, Debug, PartialEq, Eq, Structural)]
pub enum Admission {
    /// Start it; it holds one permit until it is released.
    Granted,
    /// All permits are out: drop the datagram.
    Busy,
    /// The forwarder no longer takes work.
    Stopping,
}

/// What the driver does while it drains.
#[derive(Clone, Copy, Debug, PartialEq, Eq, Structural)]
pub enum DrainStep {
    /// Wait for a relay to end, no longer than `millis` milliseconds, and
    /// ask again.
    Wait { millis: u64 },
    /// Return. With `forced`, relays are still in flight and are
    /// cancelled.
    Done { forced: bool },
}

/// A forwarder that has just opened its listen socket on `port`.
pub open spec fn fresh(transport: Transport, port: u16) -> ForwarderState {
    ForwarderState { transport, port, phase: Phase::Running, permits: CONN_BACKLOG }
}

/// The deadline of a drain that starts when the clock reads `now`.
pub open spec fn drain_deadline(now: u64) -> u64 {
    if now + drain_millis() > u64::MAX {
        u64::MAX
    } else {
        (now + drain_millis()) as u64
    }
}

/// How a forwarder reacts to the action it reads from the bus; `latest`
/// is the listen port of the snapshot published last and `now` the clock
/// in milliseconds.
pub open spec fn react(state: ForwarderState, action: Action, latest: u16, now: u64) -> (
    ForwarderState,
    Command,
) {
    match state.phase {
        Phase::Running => match action {
            Action::Init => (state, Command::Continue),
            Action::Reload(port_changed) => (
                state,
                Command::Adopt {
                    rebind: if port_changed {
                        Some(spec_listen_plan(state.transport, latest))
                    } else {
                        None
                    },
                },
            ),
            Action::Shutdown | Action::Stop(_) => (
                ForwarderState { phase: Phase::Draining { deadline: drain_deadline(now) }, ..state },
                Command::Drain { deadline: drain_deadline(now) },
            ),
            Action::Kill | Action::Panicked => (
                ForwarderState { phase: Phase::Finished, ..state },
                Command::Abort,
            ),
        },
        Phase::Draining { deadline } => match action {
            Action::Kill | Action::Panicked => (
                ForwarderState { phase: Phase::Finished, ..state },
                Command::Abort,
            ),
            _ => (state, Command::Continue),
        },
        Phase::Finished => (state, Command::Continue),
    }
}

/// How a forwarder reacts when the bus is gone. Nothing can be told to it
/// any more, least of all to stop, so it stops by itself as for
/// `Shutdown`.
pub open spec fn bus_closed(state: ForwarderState, now: u64) -> (ForwarderState, Command) {
    react(state, Action::Shutdown, state.port, now)
}

/// The forwarder after the driver tried to open a listen socket on
/// `port`: with success that socket replaces the old one, without it the
/// old one stays.
pub open spec fn rebound(state: ForwarderState, port: u16, opened: bool) -> ForwarderState {
    if opened && state.phase == Phase::Running {
        ForwarderState { port, ..state }
    } else {
        state
    }
}

/// Whether one more relay may start, and the forwarder after the answer.
pub open spec fn acquire(state: ForwarderState) -> (ForwarderState, Admission) {
    if state.phase != Phase::Running {
        (state, Admission::Stopping)
    } else if state.transport == Transport::Tcp {
        (state, Admission::Granted)
    } else if state.permits > 0 {
        (ForwarderState { permits: (state.permits - 1) as u32, ..state }, Admission::Granted)
    } else {
        (state, Admission::Busy)
    }
}

/// The forwarder after a relay that held a permit ended.
pub open spec fn release(state: ForwarderState) -> ForwarderState {
    if state.transport == Transport::Udp && state.permits < CONN_BACKLOG {
        ForwarderState { permits: (state.permits + 1) as u32, ..state }
    } else {
        state
    }
}

/// One look at the drain: with no relay left the forwarder is done; past
/// the deadline it is done by force; otherwise it waits for what is left
/// of the time. A forwarder that still runs is left alone, and one that
/// has ended stays ended.
pub open spec fn drain_poll(state: ForwarderState, now: u64, outstanding: nat) -> (
    ForwarderState,
    DrainStep,
) {
    match state.phase {
        Phase::Draining { deadline } => if outstanding == 0 {
            (ForwarderState { phase: Phase::Finished, ..state }, DrainStep::Done { forced: false })
        } else if now >= deadline {
            (ForwarderState { phase: Phase::Finished, ..state }, DrainStep::Done { forced: true })
        } else {
            (state, DrainStep::Wait { millis: (deadline - now) as u64 })
        },
        Phase::Running => (state, DrainStep::Wait { millis: 0 }),
        Phase::Finished => (state, DrainStep::Done { forced: outstanding > 0 }),
    }
}

/// What the driver does with one read of the UDP listen socket.
#[derive(Debug, PartialEq, Eq)]
pub enum Dispatch {
    /// Copy the payload out of the buffer and start a relay for it; the
    /// relay holds a permit.
    Spawn { header: Header },
    /// Drop the datagram: every permit is out.
    Busy,
    /// Drop the datagram: the forwarder takes no more work.
    Stopping,
    /// There is no datagram to relay; `reception` says why.
    Rejected { reception: Reception },
}

/// What the driver does with one accept on the TCP listener.
#[derive(Debug, PartialEq, Eq)]
pub enum Accept {
    /// Start a relay for the connection.
    Spawn { connection: Connection },
    /// Close the connection: the forwarder takes no more work.
    Stopping,
    /// There is no connection; the accept failed.
    Failed { error: String },
}

/// What a forwarder does with one read of its listen socket: a datagram
/// that is in order is relayed if a permit is free and dropped if not.
pub open spec fn dispatch(state: ForwarderState, received: Received) -> (ForwarderState, Dispatch) {
    match reception_of(received) {
        Reception::Accepted { header } => match acquire(state).1 {
            Admission::Granted => (acquire(state).0, Dispatch::Spawn { header }),
            Admission::Busy => (state, Dispatch::Busy),
            Admission::Stopping => (state, Dispatch::Stopping),
        },
        reception => (state, Dispatch::Rejected { reception }),
    }
}

/// What a forwarder does with one accept on its listener.
pub open spec fn accept(state: ForwarderState, accepted: Io<Connection>) -> (
    ForwarderState,
    Accept,
) {
    match accepted {
        Err(error) => (state, Accept::Failed { error }),
        Ok(connection) => match acquire(state).1 {
            Admission::Granted => (acquire(state).0, Accept::Spawn { connection }),
            _ => (state, Accept::Stopping),
        },
    }
}

/// The control state of one forwarder.
pub struct Forwarder {
    transport: Transport,
    port: u16,
    phase: Phase,
    permits: u32,
}

impl View for Forwarder {
    type V = ForwarderState;

    closed spec fn view(&self) -> ForwarderState {
        ForwarderState {
            transport: self.transport,
            port: self.port,
            phase: self.phase,
            permits: self.permits,
        }
    }
}

impl Forwarder {
    #[verifier::type_invariant]
    spec fn bounded(&self) -> bool {
        self.permits <= CONN_BACKLOG
    }

    /// A forwarder whose listen socket was just opened on `port`.
    pub fn new(transport: Transport, port: u16) -> (forwarder: Forwarder)
        ensures
            forwarder@ == fresh(transport, port),
    {
        Forwarder { transport, port, phase: Phase::Running, permits: CONN_BACKLOG }
    }

    /// The plan of the first listen socket of a forwarder.
    pub fn first_socket(transport: Transport, config: &RuntimeConfig) -> (plan: SocketPlan)
        ensures
            plan == spec_listen_plan(transport, config.listen_port),
    {
        listen_plan(transport, config.listen_port)
    }

    pub fn transport(&self) -> (transport: Transport)
        ensures
            transport == self@.transport,
    {
        self.transport
    }

    /// Port of the live listen socket.
    pub fn port(&self) -> (port: u16)
        ensures
            port == self@.port,
    {
        self.port
    }

    pub fn phase(&self) -> (phase: Phase)
        ensures
            phase == self@.phase,
    {
        self.phase
    }

    /// Relays that may still be started.
    pub fn permits(&self) -> (permits: u32)
        ensures
            permits == self@.permits,
            permits <= CONN_BACKLOG,
    {
        proof {
            use_type_invariant(self);
        }
        self.permits
    }

    /// Relays in flight, as far as permits count them.
    pub fn in_flight(&self) -> (count: u32)
        ensures
            count == CONN_BACKLOG - self@.permits,
    {
        proof {
            use_type_invariant(self);
        }
        CONN_BACKLOG - self.permits
    }

    /// Reacts to the action read from the bus. `latest` is the snapshot
    /// published last, `now` the monotonic clock in milliseconds.
    pub fn on_action(&mut self, action: Action, latest: &RuntimeConfig, now: u64) -> (command:
        Command)
        ensures
            (final(self)@, command) == react(old(self)@, action, latest.listen_port, now),
    {
        proof {
            use_type_invariant(&*self);
        }
        match self.phase {
            Phase::Running => match action.ending() {
                Ending::Continue => match action {
                    Action::Reload(port_changed) => Command::Adopt {
                        rebind: if port_changed {
                            Some(listen_plan(self.transport, latest.listen_port))
                        } else {
                            None
                        },
                    },
                    _ => Command::Continue,
                },
                Ending::Graceful => {
                    let deadline = now.saturating_add(DRAIN_SECS * 1000);
                    self.phase = Phase::Draining { deadline };
                    Command::Drain { deadline }
                },
                Ending::Forced => {
                    self.phase = Phase::Finished;
                    Command::Abort
                },
            },
            Phase::Draining { deadline } => match action.ending() {
                Ending::Forced => {
                    self.phase = Phase::Finished;
                    Command::Abort
                },
                _ => Command::Continue,
            },
            Phase::Finished => Command::Continue,
        }
    }

    /// Reacts to the loss of the bus; `now` is the monotonic clock in
    /// milliseconds.
    pub fn on_bus_closed(&mut self, now: u64) -> (command: Command)
        ensures
            (final(self)@, command) == bus_closed(old(self)@, now),
    {
        proof {
            use_type_invariant(&*self);
        }
        match self.phase {
            Phase::Running => {
                let deadline = now.saturating_add(DRAIN_SECS * 1000);
                self.phase = Phase::Draining { deadline };
                Command::Drain { deadline }
            },
            _ => Command::Continue,
        }
    }

    /// Records how opening the listen socket on `port` went.
    pub fn on_rebound(&mut self, port: u16, opened: bool)
        ensures
            final(self)@ == rebound(old(self)@, port, opened),
    {
        proof {
            use_type_invariant(&*self);
        }
        if opened && self.phase == Phase::Running {
            self.port = port;
        }
    }

    /// Asks to start one more relay.
    pub fn try_acquire(&mut self) -> (admission: Admission)
        ensures
            (final(self)@, admission) == acquire(old(self)@),
    {
        proof {
            use_type_invariant(&*self);
        }
        if self.phase != Phase::Running {
            Admission::Stopping
        } else if self.transport == Transport::Tcp {
            Admission::Granted
        } else if self.permits > 0 {
            self.permits = self.permits - 1;
            Admission::Granted
        } else {
            Admission::Busy
        }
    }

    /// Decides what to do with one read of the UDP listen socket.
    pub fn on_datagram(&mut self, received: Received) -> (verdict: Dispatch)
        ensures
            (final(self)@, verdict) == dispatch(old(self)@, received),
    {
        match classify(received) {
            Reception::Accepted { header } => match self.try_acquire() {
                Admission::Granted => Dispatch::Spawn { header },
                Admission::Busy => Dispatch::Busy,
                Admission::Stopping => Dispatch::Stopping,
            },
            reception => Dispatch::Rejected { reception },
        }
    }

    /// Decides what to do with one accept on the TCP listener.
    pub fn on_connection(&mut self, accepted: Io<Connection>) -> (verdict: Accept)
        ensures
            (final(self)@, verdict) == accept(old(self)@, accepted),
    {
        match accepted {
            Err(error) => Accept::Failed { error },
            Ok(connection) => match self.try_acquire() {
                Admission::Granted => Accept::Spawn { connection },
                _ => Accept::Stopping,
            },
        }
    }

    /// Records that a relay that held a permit ended.
    pub fn on_relay_finished(&mut self)
        ensures
            final(self)@ == release(old(self)@),
    {
        proof {
            use_type_invariant(&*self);
        }
        if self.transport == Transport::Udp && self.permits < CONN_BACKLOG {
            self.permits = self.permits + 1;
        }
    }

    /// Looks at the drain: `now` is the clock in milliseconds and
    /// `outstanding` the number of relays still in flight.
    pub fn on_drain_poll(&mut self, now: u64, outstanding: usize) -> (step: DrainStep)
        ensures
            (final(self)@, step) == drain_poll(old(self)@, now, outstanding as nat),
    {
        proof {
            use_type_invariant(&*self);
        }
        match self.phase {
            Phase::Draining { deadline } => {
                if outstanding == 0 {
                    self.phase = Phase::Finished;
                    DrainStep::Done { forced: false }
                } else if now >= deadline {
                    self.phase = Phase::Finished;
                    DrainStep::Done { forced: true }
                } else {
                    DrainStep::Wait { millis: deadline - now }
                }
            },
            Phase::Running => DrainStep::Wait { millis: 0 },
            Phase::Finished => DrainStep::Done { forced: outstanding > 0 },
        }
    }
}

/// The text logged when every permit is out.
pub open spec fn busy_text() -> Seq<char> {
    "UDP forwarder is busy, dropping packets..."@
}

/// The text logged when an accept fails.
pub open spec fn accept_failed_text(error: Seq<char>) -> Seq<char> {
    "Error accepting TCP connection - "@ + error
}

/// The text logged when a forwarder ends with relays still in flight.
pub open spec fn forced_exit_text(transport: Transport) -> Seq<char> {
    transport.spec_name() + " forwarder exits by force, cancelling unfinished tasks"@
}

/// The text logged when a forwarder loses the bus.
pub open spec fn bus_lost_text(transport: Transport) -> Seq<char> {
    "Action channel closed...Shutting down "@ + transport.spec_name() + " forwarder..."@
}

/// The text logged when a forwarder has moved to `port`.
pub open spec fn moved_text(transport: Transport, port: u16) -> Seq<char> {
    transport.spec_name() + " forwarder now listens on port "@ + decimal(port as nat)
}

/// The text logged when a forwarder could not move to `port`.
pub open spec fn not_moved_text(transport: Transport, port: u16, error: Seq<char>) -> Seq<char> {
    transport.spec_name() + " forwarder keeps its listen socket, failed to listen on port "@
        + decimal(port as nat) + " - "@ + error
}

impl Dispatch {
    /// The lines that report what became of a read: a warning for a
    /// datagram dropped for want of a permit, the lines of the reception
    /// where there was no datagram to relay, nothing otherwise.
    pub open spec fn spec_lines(self) -> Seq<LineView> {
        match self {
            Dispatch::Spawn { .. } => seq![],
            Dispatch::Stopping => seq![],
            Dispatch::Busy => seq![LineView { level: Level::Warn, text: busy_text() }],
            Dispatch::Rejected { reception } => reception.spec_lines(),
        }
    }

    /// The lines that report what became of a read, in order.
    pub fn log(&self) -> (lines: Vec<LogLine>)
        ensures
            line_views(lines@) == self.spec_lines(),
    {
        match self {
            Dispatch::Busy => {
                let mut lines: Vec<LogLine> = Vec::new();
                lines.push(
                    LogLine {
                        level: Level::Warn,
                        text: String::from_str("UDP forwarder is busy, dropping packets..."),
                    },
                );
                assert(line_views(lines@) =~= self.spec_lines());
                lines
            },
            Dispatch::Rejected { reception } => reception.log(),
            _ => {
                let lines: Vec<LogLine> = Vec::new();
                assert(line_views(lines@) =~= self.spec_lines());
                lines
            },
        }
    }
}

impl Accept {
    /// The line that reports a failed accept; nothing otherwise.
    pub open spec fn spec_line(self) -> Option<LineView> {
        match self {
            Accept::Failed { error } => Some(
                LineView { level: Level::Error, text: accept_failed_text(error@) },
            ),
            _ => None,
        }
    }

    /// The line that reports what became of an accept, if there is one.
    pub fn log(&self) -> (line: Option<LogLine>)
        ensures
            match self.spec_line() {
                Some(view) => line matches Some(l) && l@ == view,
                None => line is None,
            },
    {
        match self {
            Accept::Failed { error } => Some(
                LogLine {
                    level: Level::Error,
                    text: join("Error accepting TCP connection - ", error.as_str()),
                },
            ),
            _ => None,
        }
    }
}

impl DrainStep {
    /// The line that reports a forced exit; nothing for a wait and
    /// nothing for an exit with no relay left.
    pub open spec fn spec_line(self, transport: Transport) -> Option<LineView> {
        match self {
            DrainStep::Done { forced: true } => Some(
                LineView { level: Level::Warn, text: forced_exit_text(transport) },
            ),
            _ => None,
        }
    }

    /// The line that reports the step of the drain of a forwarder of
    /// `transport`, if there is one.
    pub fn log(&self, transport: Transport) -> (line: Option<LogLine>)
        ensures
            match self.spec_line(transport) {
                Some(view) => line matches Some(l) && l@ == view,
                None => line is None,
            },
    {
        match self {
            DrainStep::Done { forced: true } => Some(
                LogLine {
                    level: Level::Warn,
                    text: join(
                        transport.name(),
                        " forwarder exits by force, cancelling unfinished tasks",
                    ),
                },
            ),
            _ => None,
        }
    }
}

/// The line logged when a forwarder of `transport` loses the bus.
pub fn bus_lost_line(transport: Transport) -> (line: LogLine)
    ensures
        line.level == Level::Error,
        line.text@ == bus_lost_text(transport),
{
    LogLine {
        level: Level::Error,
        text: join3("Action channel closed...Shutting down ", transport.name(), " forwarder..."),
    }
}

/// The line logged after a forwarder of `transport` tried to move its
/// listen socket to `port`: news if it moved, an error if the old socket
/// stays.
pub fn rebound_line(transport: Transport, port: u16, opened: &Result<(), SocketFailure>) -> (line:
    LogLine)
    ensures
        match opened {
            Ok(_) => line.level == Level::Info && line.text@ == moved_text(transport, port),
            Err(failure) => line.level == Level::Error && line.text@ == not_moved_text(
                transport,
                port,
                failure.error@,
            ),
        },
{
    match opened {
        Ok(_) => LogLine {
            level: Level::Info,
            text: join3(
                transport.name(),
                " forwarder now listens on port ",
                decimal_text(port).as_str(),
            ),
        },
        Err(failure) => {
            let mut text = join4(
                transport.name(),
                " forwarder keeps its listen socket, failed to listen on port ",
                decimal_text(port).as_str(),
                " - ",
            );
            text.append(failure.error.as_str());
            LogLine { level: Level::Error, text }
        },
    }
}

/// Anything a driver can report to a forwarder.
pub enum Input {
    Action { action: Action, latest: u16, now: u64 },
    BusClosed { now: u64 },
    Rebound { port: u16, opened: bool },
    Acquire,
    Release,
    DrainPoll { now: u64, outstanding: nat },
}

/// The forwarder after one report.
pub open spec fn apply(state: ForwarderState, input: Input) -> ForwarderState {
    match input {
        Input::Action { action, latest, now } => react(state, action, latest, now).0,
        Input::BusClosed { now } => bus_closed(state, now).0,
        Input::Rebound { port, opened } => rebound(state, port, opened),
        Input::Acquire => acquire(state).0,
        Input::Release => release(state),
        Input::DrainPoll { now, outstanding } => drain_poll(state, now, outstanding).0,
    }
}

/// The forwarder after a run of reports, first to last.
pub open spec fn run(state: ForwarderState, inputs: Seq<Input>) -> ForwarderState
    decreases inputs.len(),
{
    if inputs.len() == 0 {
        state
    } else {
        apply(run(state, inputs.drop_last()), inputs.last())
    }
}

/// The forwarder after `n` requests to start a relay in a row.
pub open spec fn after_requests(state: ForwarderState, n: nat) -> ForwarderState
    decreases n,
{
    if n == 0 {
        state
    } else {
        acquire(after_requests(state, (n - 1) as nat)).0
    }
}

/// Backpressure. While no relay ends, a fresh UDP forwarder starts a
/// relay for each of its first `CONN_BACKLOG` datagrams and drops every
/// datagram after those: the request is answered `Busy` at once and
/// leaves the forwarder as it was, so nothing is queued.
pub proof fn lemma_backpressure(port: u16, n: nat)
    ensures
        after_requests(fresh(Transport::Udp, port), n).permits == if n <= CONN_BACKLOG {
            CONN_BACKLOG - n
        } else {
            0
        },
        n < CONN_BACKLOG ==> acquire(after_requests(fresh(Transport::Udp, port), n)).1
            == Admission::Granted,
        n >= CONN_BACKLOG ==> acquire(after_requests(fresh(Transport::Udp, port), n)) == (
            after_requests(fresh(Transport::Udp, port), n),
            Admission::Busy,
        ),
    decreases n,
{
    let start = fresh(Transport::Udp, port);
    lemma_requests_keep_running(start, n);
    if n > 0 {
        lemma_backpressure(port, (n - 1) as nat);
    }
}

proof fn lemma_requests_keep_running(state: ForwarderState, n: nat)
    ensures
        after_requests(state, n).phase == state.phase,
        after_requests(state, n).transport == state.transport,
        after_requests(state, n).port == state.port,
    decreases n,
{
    if n > 0 {
        lemma_requests_keep_running(state, (n - 1) as nat);
    }
}

/// A relay is started only for a datagram that names a sender other than
/// `0.0.0.0` and carries the destination the client first wrote to; the
/// relay gets exactly that sender and that destination.
pub proof fn lemma_spawn_needs_source_and_destination(state: ForwarderState, received: Received)
    requires
        dispatch(state, received).1 is Spawn,
    ensures
        ({
            &&& received matches Received::Message { source: Some(client), control: Ok(messages), len }
            &&& client.ip != Ipv4::spec_unspecified()
            &&& first_orig_dst(messages@) matches Some(orig_dst)
            &&& dispatch(state, received).1 == (Dispatch::Spawn {
                header: Header { client, orig_dst, len },
            })
        }),
{
}

/// With every permit out, a UDP forwarder starts no relay whatever it
/// reads: a datagram that is in order is dropped as `Busy`, and the
/// forwarder is left as it was.
pub proof fn lemma_full_backlog_drops(state: ForwarderState, received: Received)
    requires
        state.transport == Transport::Udp,
        state.phase == Phase::Running,
        state.permits == 0,
    ensures
        dispatch(state, received).0 == state,
        !(dispatch(state, received).1 is Spawn),
        reception_of(received) is Accepted ==> dispatch(state, received).1 is Busy,
{
}

/// A relay that ends gives its permit back: after a grant and the
/// release that follows it, the forwarder is as it was before.
pub proof fn lemma_release_returns_permit(state: ForwarderState)
    requires
        state.permits <= CONN_BACKLOG,
        acquire(state).1 == Admission::Granted,
    ensures
        release(acquire(state).0) == state,
{
}

/// A reload that leaves the listen port alone touches no socket: the
/// forwarder takes the new snapshot and nothing else changes.
pub proof fn lemma_reload_without_port_change(state: ForwarderState, latest: u16, now: u64)
    ensures
        react(state, Action::Reload(false), latest, now).0 == state,
        state.phase == Phase::Running ==> react(state, Action::Reload(false), latest, now).1 == (
        Command::Adopt { rebind: None }),
        !(react(state, Action::Reload(false), latest, now).1 matches Command::Adopt {
            rebind: Some(_),
        }),
{
}

/// A reload that changes the listen port moves the listener: a running
/// forwarder is told to open the listen socket of its transport on the
/// new port, and once that socket is open the forwarder listens there and
/// no longer on the old port. If the socket cannot be opened the old one
/// stays.
pub proof fn lemma_reload_with_port_change(state: ForwarderState, latest: u16, now: u64)
    requires
        state.phase == Phase::Running,
    ensures
        react(state, Action::Reload(true), latest, now) == (
            state,
            Command::Adopt { rebind: Some(spec_listen_plan(state.transport, latest)) },
        ),
        spec_listen_plan(state.transport, latest).bind.port == latest,
        rebound(state, latest, true).port == latest,
        rebound(state, latest, false) == state,
{
}

/// A forwarder that has stopped taking work never takes work again,
/// whatever is reported to it.
pub proof fn lemma_stopped_stays_stopped(state: ForwarderState, inputs: Seq<Input>)
    requires
        state.phase != Phase::Running,
    ensures
        run(state, inputs).phase != Phase::Running,
        acquire(run(state, inputs)).1 == Admission::Stopping,
    decreases inputs.len(),
{
    if inputs.len() > 0 {
        lemma_stopped_stays_stopped(state, inputs.drop_last());
    }
}

/// Ordering. Once a forwarder has seen `Kill` or `Panicked`, or any other
/// action that ends it, no relay is started: every later request is
/// answered `Stopping`, whatever happens in between.
pub proof fn lemma_no_work_after_ending(
    state: ForwarderState,
    action: Action,
    latest: u16,
    now: u64,
    later: Seq<Input>,
)
    requires
        action.spec_ending() != Ending::Continue,
    ensures
        acquire(run(react(state, action, latest, now).0, later)).1 == Admission::Stopping,
        action.spec_ending() == Ending::Forced ==> react(state, action, latest, now).0.phase
            == Phase::Finished,
        action.spec_ending() == Ending::Forced && state.phase != Phase::Finished ==> react(
            state,
            action,
            latest,
            now,
        ).1 == Command::Abort,
{
    lemma_stopped_stays_stopped(react(state, action, latest, now).0, later);
}

/// A forwarder that loses the bus ends as for `Shutdown`: it takes no
/// more work and drains within the drain time.
pub proof fn lemma_lost_bus_ends_forwarder(state: ForwarderState, now: u64, later: Seq<Input>)
    ensures
        bus_closed(state, now) == react(state, Action::Shutdown, state.port, now),
        acquire(run(bus_closed(state, now).0, later)).1 == Admission::Stopping,
        state.phase == Phase::Running ==> bus_closed(state, now).1 == (Command::Drain {
            deadline: drain_deadline(now),
        }),
{
    lemma_stopped_stays_stopped(bus_closed(state, now).0, later);
}

/// Drain bound. A running forwarder that sees `Shutdown` or `Stop` at
/// time `start` drains for no longer than the drain time: a look at or
/// after `start + drain_millis()` ends the drain, and an earlier look
/// never asks to wait past that moment. A look that finds no relay left
/// ends the drain at once.
pub proof fn lemma_drain_is_bounded(
    state: ForwarderState,
    action: Action,
    latest: u16,
    start: u64,
    now: u64,
    outstanding: nat,
)
    requires
        state.phase == Phase::Running,
        action.spec_ending() == Ending::Graceful,
    ensures
        ({
            let draining = react(state, action, latest, start).0;
            let (after, step) = drain_poll(draining, now, outstanding);
            &&& draining.phase == (Phase::Draining { deadline: drain_deadline(start) })
            &&& drain_deadline(start) <= start + drain_millis()
            &&& now >= start + drain_millis() ==> step is Done && after.phase == Phase::Finished
            &&& outstanding == 0 ==> step == (DrainStep::Done { forced: false })
            &&& step matches DrainStep::Wait { millis } ==> now + millis <= start + drain_millis()
            &&& step matches DrainStep::Done { forced } ==> (forced <==> outstanding > 0)
        }),
{
}

/// The bus keeps only the latest action, and a forwarder loses nothing by
/// it: if an action that ends nothing was replaced by one that ends the
/// forwarder before the forwarder looked, the forwarder ends exactly as
/// if it had seen both.
pub proof fn lemma_missed_action_loses_nothing(
    state: ForwarderState,
    missed: Action,
    seen: Action,
    latest: u16,
    now: u64,
)
    requires
        missed.spec_ending() == Ending::Continue,
        seen.spec_ending() != Ending::Continue,
    ensures
        missed.rank() < seen.rank(),
        react(react(state, missed, latest, now).0, seen, latest, now) == react(
            state,
            seen,
            latest,
            now,
        ),
{
}

} // verus!
