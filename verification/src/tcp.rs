//! The relay of one TCP connection: one request to the upstream, one
//! reply back. Each direction carries what a single read returns, at most
//! one buffer.
//!
//! Like the UDP relay this is a state machine whose driver performs the
//! step returned and reports the result as the next [`TcpEvent`].

use crate::addr::SockAddr;
use crate::config::{ForwarderMap, Upstream};
use crate::log::{join, join4, Level, LogLine};
use crate::relay::{Awaited, Io};
use crate::text::{decimal, decimal_text};
use crate::{BUFFER_SIZE, CONN_TIMEOUT_SECS};
use vstd::prelude::*;
use vstd::string::*;

verus! {

/// A connection as the listener accepted it.
#[derive(Clone, Copy, Debug, PartialEq, Eq, Structural)]
pub struct Connection {
    /// Who connected.
    pub client: SockAddr,
    /// Where the client was connecting to before it was redirected, if
    /// the kernel could say.
    pub orig_dst: Option<SockAddr>,
}

/// How a TCP relay ended.
#[derive(Debug, PartialEq, Eq)]
pub enum TcpOutcome {
    /// The reply reached the client.
    Forwarded { client: SockAddr },
    /// The kernel did not report where the client was connecting to.
    NoOriginalDestination { client: SockAddr },
    /// No upstream is configured for the destination port.
    NoMapping { port: u16 },
    /// The upstream refused or the connect failed otherwise.
    ConnectFailed { upstream: SockAddr, error: String },
    /// The upstream did not accept in time.
    ConnectTimedOut { upstream: SockAddr },
    /// Reading the request from the client failed.
    ClientReadFailed { client: SockAddr, error: String },
    /// Writing the request to the upstream failed.
    ForwardFailed { upstream: SockAddr, error: String },
    /// Reading the reply from the upstream failed.
    ReplyReadFailed { upstream: SockAddr, error: String },
    /// The upstream did not reply in time.
    ReplyTimedOut { upstream: SockAddr },
    /// Writing the reply to the client failed.
    ReplyFailed { client: SockAddr, error: String },
    /// The driver reported something the relay was not waiting for.
    OutOfStep,
}

/// What the driver reports to a TCP relay.
#[derive(Debug, PartialEq, Eq)]
pub enum TcpEvent {
    /// The connect to the upstream ended.
    Connected(Awaited<Io<()>>),
    /// The read from the client ended, with the bytes read.
    ClientRead(Io<Vec<u8>>),
    /// The request was written to the upstream, or not.
    UpstreamWritten(Io<()>),
    /// The read from the upstream ended, with the bytes read.
    UpstreamRead(Awaited<Io<Vec<u8>>>),
    /// The reply was written to the client, or not.
    ClientWritten(Io<()>),
}

/// What the driver of a TCP relay has to do next.
#[derive(Debug, PartialEq, Eq)]
pub enum TcpStep {
    /// Connect to `to`, giving up after `timeout_secs` seconds.
    Connect { to: SockAddr, timeout_secs: u64 },
    /// Read once from the client, at most `capacity` bytes.
    ReadClient { capacity: usize },
    /// Write all of `payload` to the upstream.
    WriteUpstream { payload: Vec<u8> },
    /// Read once from the upstream, at most `capacity` bytes, giving up
    /// after `timeout_secs` seconds.
    ReadUpstream { capacity: usize, timeout_secs: u64 },
    /// Write all of `payload` to the client.
    WriteClient { payload: Vec<u8> },
    /// Log the outcome, close both ends and end the task.
    Finish { outcome: TcpOutcome },
}

/// The state of a TCP relay between two steps.
#[derive(Debug, PartialEq, Eq)]
pub enum TcpRelay {
    /// Waiting for the upstream connection.
    Connecting { client: SockAddr, upstream: Upstream },
    /// Waiting for the request.
    ReadingClient { client: SockAddr, upstream: Upstream },
    /// Waiting for the request to be written.
    WritingUpstream { client: SockAddr, upstream: Upstream },
    /// Waiting for the reply.
    ReadingUpstream { client: SockAddr, upstream: Upstream },
    /// Waiting for the reply to be written.
    WritingClient { client: SockAddr },
    /// Finished; nothing more is expected.
    Done,
}

/// A relay that has ended with `outcome`.
pub open spec fn tcp_finished(outcome: TcpOutcome) -> (TcpRelay, TcpStep) {
    (TcpRelay::Done, TcpStep::Finish { outcome })
}

/// First move of a relay: the first destination must be known and its
/// port must have an upstream; the relay then asks for the connection.
pub open spec fn tcp_start(table: Map<u16, Upstream>, connection: Connection) -> (
    TcpRelay,
    TcpStep,
) {
    match connection.orig_dst {
        None => tcp_finished(TcpOutcome::NoOriginalDestination { client: connection.client }),
        Some(orig_dst) => if table.contains_key(orig_dst.port) {
            (
                TcpRelay::Connecting { client: connection.client, upstream: table[orig_dst.port] },
                TcpStep::Connect {
                    to: table[orig_dst.port].spec_addr(),
                    timeout_secs: CONN_TIMEOUT_SECS,
                },
            )
        } else {
            tcp_finished(TcpOutcome::NoMapping { port: orig_dst.port })
        },
    }
}

/// The transition function of the relay.
pub open spec fn tcp_next(state: TcpRelay, event: TcpEvent) -> (TcpRelay, TcpStep) {
    match (state, event) {
        (TcpRelay::Connecting { client, upstream }, TcpEvent::Connected(Awaited::Ready(Ok(_)))) => (
            TcpRelay::ReadingClient { client, upstream },
            TcpStep::ReadClient { capacity: BUFFER_SIZE },
        ),
        (
            TcpRelay::Connecting { client, upstream },
            TcpEvent::Connected(Awaited::Ready(Err(error))),
        ) => tcp_finished(TcpOutcome::ConnectFailed { upstream: upstream.spec_addr(), error }),
        (TcpRelay::Connecting { client, upstream }, TcpEvent::Connected(Awaited::TimedOut)) => {
            tcp_finished(TcpOutcome::ConnectTimedOut { upstream: upstream.spec_addr() })
        },
        (TcpRelay::ReadingClient { client, upstream }, TcpEvent::ClientRead(Ok(request))) => (
            TcpRelay::WritingUpstream { client, upstream },
            TcpStep::WriteUpstream { payload: request },
        ),
        (TcpRelay::ReadingClient { client, upstream }, TcpEvent::ClientRead(Err(error))) => {
            tcp_finished(TcpOutcome::ClientReadFailed { client, error })
        },
        (TcpRelay::WritingUpstream { client, upstream }, TcpEvent::UpstreamWritten(Ok(_))) => (
            TcpRelay::ReadingUpstream { client, upstream },
            TcpStep::ReadUpstream { capacity: BUFFER_SIZE, timeout_secs: CONN_TIMEOUT_SECS },
        ),
        (TcpRelay::WritingUpstream { client, upstream }, TcpEvent::UpstreamWritten(Err(error))) => {
            tcp_finished(TcpOutcome::ForwardFailed { upstream: upstream.spec_addr(), error })
        },
        (
            TcpRelay::ReadingUpstream { client, upstream },
            TcpEvent::UpstreamRead(Awaited::Ready(Ok(reply))),
        ) => (TcpRelay::WritingClient { client }, TcpStep::WriteClient { payload: reply }),
        (
            TcpRelay::ReadingUpstream { client, upstream },
            TcpEvent::UpstreamRead(Awaited::Ready(Err(error))),
        ) => tcp_finished(TcpOutcome::ReplyReadFailed { upstream: upstream.spec_addr(), error }),
        (
            TcpRelay::ReadingUpstream { client, upstream },
            TcpEvent::UpstreamRead(Awaited::TimedOut),
        ) => tcp_finished(TcpOutcome::ReplyTimedOut { upstream: upstream.spec_addr() }),
        (TcpRelay::WritingClient { client }, TcpEvent::ClientWritten(Ok(_))) => tcp_finished(
            TcpOutcome::Forwarded { client },
        ),
        (TcpRelay::WritingClient { client }, TcpEvent::ClientWritten(Err(error))) => tcp_finished(
            TcpOutcome::ReplyFailed { client, error },
        ),
        _ => tcp_finished(TcpOutcome::OutOfStep),
    }
}

fn finished(outcome: TcpOutcome) -> (next: (TcpRelay, TcpStep))
    ensures
        next == tcp_finished(outcome),
{
    (TcpRelay::Done, TcpStep::Finish { outcome })
}

impl TcpRelay {
    /// Starts the relay of `connection` under the table `map`.
    pub fn start(map: &ForwarderMap, connection: Connection) -> (next: (TcpRelay, TcpStep))
        ensures
            next == tcp_start(map@, connection),
    {
        match connection.orig_dst {
            None => finished(TcpOutcome::NoOriginalDestination { client: connection.client }),
            Some(orig_dst) => match map.get(orig_dst.port) {
                Some(upstream) => (
                    TcpRelay::Connecting { client: connection.client, upstream },
                    TcpStep::Connect { to: upstream.addr(), timeout_secs: CONN_TIMEOUT_SECS },
                ),
                None => finished(TcpOutcome::NoMapping { port: orig_dst.port }),
            },
        }
    }

    /// Takes the relay one step on: `event` says how the last step went.
    pub fn step(self, event: TcpEvent) -> (next: (TcpRelay, TcpStep))
        ensures
            next == tcp_next(self, event),
    {
        match (self, event) {
            (
                TcpRelay::Connecting { client, upstream },
                TcpEvent::Connected(Awaited::Ready(Ok(_))),
            ) => (
                TcpRelay::ReadingClient { client, upstream },
                TcpStep::ReadClient { capacity: BUFFER_SIZE },
            ),
            (
                TcpRelay::Connecting { client, upstream },
                TcpEvent::Connected(Awaited::Ready(Err(error))),
            ) => finished(TcpOutcome::ConnectFailed { upstream: upstream.addr(), error }),
            (TcpRelay::Connecting { client, upstream }, TcpEvent::Connected(Awaited::TimedOut)) => {
                finished(TcpOutcome::ConnectTimedOut { upstream: upstream.addr() })
            },
            (TcpRelay::ReadingClient { client, upstream }, TcpEvent::ClientRead(Ok(request))) => (
                TcpRelay::WritingUpstream { client, upstream },
                TcpStep::WriteUpstream { payload: request },
            ),
            (TcpRelay::ReadingClient { client, upstream }, TcpEvent::ClientRead(Err(error))) => {
                finished(TcpOutcome::ClientReadFailed { client, error })
            },
            (TcpRelay::WritingUpstream { client, upstream }, TcpEvent::UpstreamWritten(Ok(_))) => (
                TcpRelay::ReadingUpstream { client, upstream },
                TcpStep::ReadUpstream { capacity: BUFFER_SIZE, timeout_secs: CONN_TIMEOUT_SECS },
            ),
            (
                TcpRelay::WritingUpstream { client, upstream },
                TcpEvent::UpstreamWritten(Err(error)),
            ) => finished(TcpOutcome::ForwardFailed { upstream: upstream.addr(), error }),
            (
                TcpRelay::ReadingUpstream { client, upstream },
                TcpEvent::UpstreamRead(Awaited::Ready(Ok(reply))),
            ) => (TcpRelay::WritingClient { client }, TcpStep::WriteClient { payload: reply }),
            (
                TcpRelay::ReadingUpstream { client, upstream },
                TcpEvent::UpstreamRead(Awaited::Ready(Err(error))),
            ) => finished(TcpOutcome::ReplyReadFailed { upstream: upstream.addr(), error }),
            (
                TcpRelay::ReadingUpstream { client, upstream },
                TcpEvent::UpstreamRead(Awaited::TimedOut),
            ) => finished(TcpOutcome::ReplyTimedOut { upstream: upstream.addr() }),
            (TcpRelay::WritingClient { client }, TcpEvent::ClientWritten(Ok(_))) => finished(
                TcpOutcome::Forwarded { client },
            ),
            (TcpRelay::WritingClient { client }, TcpEvent::ClientWritten(Err(error))) => finished(
                TcpOutcome::ReplyFailed { client, error },
            ),
            _ => finished(TcpOutcome::OutOfStep),
        }
    }

    /// Whether the relay has ended.
    pub fn is_done(&self) -> (done: bool)
        ensures
            done == (*self is Done),
    {
        match self {
            TcpRelay::Done => true,
            _ => false,
        }
    }
}

impl Connection {
    /// The line logged when a connection with a known first destination
    /// is taken in.
    pub open spec fn spec_intercepted(client: SockAddr, orig_dst: SockAddr) -> Seq<char> {
        "TCP intercepted for "@ + orig_dst.text() + " from "@ + client.text()
    }

    /// The line logged when a connection is taken in, if its first
    /// destination is known.
    pub fn intercepted(&self) -> (line: Option<LogLine>)
        ensures
            match self.orig_dst {
                Some(orig_dst) => line matches Some(l) && l.level == Level::Info && l.text@
                    == Connection::spec_intercepted(self.client, orig_dst),
                None => line is None,
            },
    {
        match self.orig_dst {
            Some(orig_dst) => Some(
                LogLine {
                    level: Level::Info,
                    text: join4(
                        "TCP intercepted for ",
                        orig_dst.to_text().as_str(),
                        " from ",
                        self.client.to_text().as_str(),
                    ),
                },
            ),
            None => None,
        }
    }
}

impl TcpOutcome {
    /// How grave the outcome is: a reply that arrived is news, a port
    /// without upstream a warning, everything else an error.
    pub open spec fn spec_level(self) -> Level {
        match self {
            TcpOutcome::Forwarded { .. } => Level::Info,
            TcpOutcome::NoMapping { .. } => Level::Warn,
            _ => Level::Error,
        }
    }

    /// The text of the line that reports the outcome.
    pub open spec fn spec_text(self) -> Seq<char> {
        match self {
            TcpOutcome::Forwarded { client } => "TCP reply forwarded back to client "@
                + client.text(),
            TcpOutcome::NoOriginalDestination { client } =>
                "Failed to get original destination for TCP connection from "@ + client.text(),
            TcpOutcome::NoMapping { port } =>
                "No upstream mapping found for destination TCP port "@ + decimal(port as nat),
            TcpOutcome::ConnectFailed { upstream, error } => "Failed to connect to upstream "@
                + upstream.text() + " - "@ + error@,
            TcpOutcome::ConnectTimedOut { upstream } =>
                "Timed out while trying to connect to upstream "@ + upstream.text(),
            TcpOutcome::ClientReadFailed { client, error } => "Failed to read from TCP client "@
                + client.text() + " - "@ + error@,
            TcpOutcome::ForwardFailed { upstream, error } => "Failed to forward TCP to upstream "@
                + upstream.text() + " - "@ + error@,
            TcpOutcome::ReplyReadFailed { upstream, error } =>
                "Failed to read TCP reply from upstream "@ + upstream.text() + " - "@ + error@,
            TcpOutcome::ReplyTimedOut { upstream } =>
                "Timed out while trying to read TCP reply from upstream "@ + upstream.text(),
            TcpOutcome::ReplyFailed { client, error } =>
                "Failed to forward TCP reply back to client "@ + client.text() + " - "@ + error@,
            TcpOutcome::OutOfStep => "TCP relay was told of a step it had not asked for"@,
        }
    }

    /// The line that reports the outcome.
    pub fn log(&self) -> (line: LogLine)
        ensures
            line.level == self.spec_level(),
            line.text@ == self.spec_text(),
    {
        match self {
            TcpOutcome::Forwarded { client } => LogLine {
                level: Level::Info,
                text: join("TCP reply forwarded back to client ", client.to_text().as_str()),
            },
            TcpOutcome::NoOriginalDestination { client } => LogLine {
                level: Level::Error,
                text: join(
                    "Failed to get original destination for TCP connection from ",
                    client.to_text().as_str(),
                ),
            },
            TcpOutcome::NoMapping { port } => LogLine {
                level: Level::Warn,
                text: join(
                    "No upstream mapping found for destination TCP port ",
                    decimal_text(*port).as_str(),
                ),
            },
            TcpOutcome::ConnectFailed { upstream, error } => LogLine {
                level: Level::Error,
                text: join4(
                    "Failed to connect to upstream ",
                    upstream.to_text().as_str(),
                    " - ",
                    error.as_str(),
                ),
            },
            TcpOutcome::ConnectTimedOut { upstream } => LogLine {
                level: Level::Error,
                text: join(
                    "Timed out while trying to connect to upstream ",
                    upstream.to_text().as_str(),
                ),
            },
            TcpOutcome::ClientReadFailed { client, error } => LogLine {
                level: Level::Error,
                text: join4(
                    "Failed to read from TCP client ",
                    client.to_text().as_str(),
                    " - ",
                    error.as_str(),
                ),
            },
            TcpOutcome::ForwardFailed { upstream, error } => LogLine {
                level: Level::Error,
                text: join4(
                    "Failed to forward TCP to upstream ",
                    upstream.to_text().as_str(),
                    " - ",
                    error.as_str(),
                ),
            },
            TcpOutcome::ReplyReadFailed { upstream, error } => LogLine {
                level: Level::Error,
                text: join4(
                    "Failed to read TCP reply from upstream ",
                    upstream.to_text().as_str(),
                    " - ",
                    error.as_str(),
                ),
            },
            TcpOutcome::ReplyTimedOut { upstream } => LogLine {
                level: Level::Error,
                text: join(
                    "Timed out while trying to read TCP reply from upstream ",
                    upstream.to_text().as_str(),
                ),
            },
            TcpOutcome::ReplyFailed { client, error } => LogLine {
                level: Level::Error,
                text: join4(
                    "Failed to forward TCP reply back to client ",
                    client.to_text().as_str(),
                    " - ",
                    error.as_str(),
                ),
            },
            TcpOutcome::OutOfStep => LogLine {
                level: Level::Error,
                text: String::from_str("TCP relay was told of a step it had not asked for"),
            },
        }
    }
}

/// One request and one reply are carried unchanged in both directions.
/// This is the whole run of a relay whose every socket operation
/// succeeds: it connects to the configured upstream within the timeout,
/// reads at most a buffer from the client, writes exactly those bytes to
/// the upstream, reads at most a buffer from the upstream within the
/// timeout, writes exactly those bytes to the client, and ends.
pub proof fn lemma_tcp_round_trip(
    table: Map<u16, Upstream>,
    client: SockAddr,
    orig_dst: SockAddr,
    request: Vec<u8>,
    reply: Vec<u8>,
)
    requires
        table.contains_key(orig_dst.port),
    ensures
        ({
            let upstream = table[orig_dst.port];
            let (s1, step1) = tcp_start(table, Connection { client, orig_dst: Some(orig_dst) });
            let (s2, step2) = tcp_next(s1, TcpEvent::Connected(Awaited::Ready(Ok(()))));
            let (s3, step3) = tcp_next(s2, TcpEvent::ClientRead(Ok(request)));
            let (s4, step4) = tcp_next(s3, TcpEvent::UpstreamWritten(Ok(())));
            let (s5, step5) = tcp_next(s4, TcpEvent::UpstreamRead(Awaited::Ready(Ok(reply))));
            let (s6, step6) = tcp_next(s5, TcpEvent::ClientWritten(Ok(())));
            &&& step1 == (TcpStep::Connect {
                to: upstream.spec_addr(),
                timeout_secs: CONN_TIMEOUT_SECS,
            })
            &&& step2 == (TcpStep::ReadClient { capacity: BUFFER_SIZE })
            &&& step3 == (TcpStep::WriteUpstream { payload: request })
            &&& step4 == (TcpStep::ReadUpstream {
                capacity: BUFFER_SIZE,
                timeout_secs: CONN_TIMEOUT_SECS,
            })
            &&& step5 == (TcpStep::WriteClient { payload: reply })
            &&& step6 == (TcpStep::Finish { outcome: TcpOutcome::Forwarded { client } })
            &&& s6 is Done
        }),
{
}

/// No read ever asks for more than one buffer.
pub proof fn lemma_tcp_reads_are_bounded(state: TcpRelay, event: TcpEvent)
    ensures
        tcp_next(state, event).1 matches TcpStep::ReadClient { capacity } ==> capacity
            == BUFFER_SIZE,
        tcp_next(state, event).1 matches TcpStep::ReadUpstream { capacity, .. } ==> capacity
            == BUFFER_SIZE,
{
}

/// A connection whose first destination is unknown, or whose port has no
/// upstream, is closed without a connect: the relay ends at once.
pub proof fn lemma_tcp_unmapped_port_dropped(table: Map<u16, Upstream>, connection: Connection)
    requires
        connection.orig_dst matches Some(orig_dst) ==> !table.contains_key(orig_dst.port),
    ensures
        tcp_start(table, connection).0 is Done,
        tcp_start(table, connection).1 is Finish,
        connection.orig_dst matches Some(orig_dst) ==> tcp_start(table, connection)
            == tcp_finished(TcpOutcome::NoMapping { port: orig_dst.port }) && (
        TcpOutcome::NoMapping { port: orig_dst.port }).spec_level() == Level::Warn,
{
}

/// A relay ends exactly when it says so: the step is `Finish` if and only
/// if the new state is `Done`, and a relay that is done stays done.
pub proof fn lemma_tcp_finish_is_final(state: TcpRelay, event: TcpEvent)
    ensures
        tcp_next(state, event).1 is Finish <==> tcp_next(state, event).0 is Done,
        state is Done ==> tcp_next(state, event) == tcp_finished(TcpOutcome::OutOfStep),
{
}

/// Whether `event` reports a failure or a timeout.
pub open spec fn tcp_event_failed(event: TcpEvent) -> bool {
    match event {
        TcpEvent::Connected(Awaited::Ready(result)) => result is Err,
        TcpEvent::Connected(Awaited::TimedOut) => true,
        TcpEvent::ClientRead(result) => result is Err,
        TcpEvent::UpstreamWritten(result) => result is Err,
        TcpEvent::UpstreamRead(Awaited::Ready(result)) => result is Err,
        TcpEvent::UpstreamRead(Awaited::TimedOut) => true,
        TcpEvent::ClientWritten(result) => result is Err,
    }
}

/// Any failure ends the relay at once: whatever the state, an event that
/// reports an error or a timeout leaves no further step.
pub proof fn lemma_tcp_failure_ends_relay(state: TcpRelay, event: TcpEvent)
    requires
        tcp_event_failed(event),
    ensures
        tcp_next(state, event).0 is Done,
        tcp_next(state, event).1 is Finish,
        tcp_next(state, event).1->outcome.spec_level() == Level::Error,
{
}

} // verus!
