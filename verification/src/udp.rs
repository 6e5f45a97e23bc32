//! The relay of one UDP datagram: look up the upstream, send the datagram
//! on from an ephemeral socket, wait for one reply, and send the reply to
//! the client from the address the client first wrote to.
//!
//! The relay is a state machine. [`UdpRelay::start`] and
//! [`UdpRelay::step`] each return the next state and the step the driver
//! has to perform; the driver reports how the step went as the next
//! [`UdpEvent`].

use crate::addr::{Ipv4, SockAddr};
use crate::config::{ForwarderMap, Upstream};
use crate::log::{join, join3, join4, Level, LogLine};
use crate::recv::Header;
use crate::relay::{Awaited, Io};
use crate::socket::{spec_udp_reply_plan, udp_reply_plan, SocketFailure, SocketPlan, SocketStage};
use crate::text::{decimal, decimal_text};
use crate::{BUFFER_SIZE, CONN_TIMEOUT_SECS};
use vstd::prelude::*;
use vstd::slice::{slice_subrange, slice_to_vec};
use vstd::string::*;

verus! {

/// A datagram as the listen socket delivered it.
#[derive(Debug, PartialEq, Eq)]
pub struct Datagram {
    /// Who sent it.
    pub client: SockAddr,
    /// Where the client addressed it, before it was redirected.
    pub orig_dst: SockAddr,
    pub payload: Vec<u8>,
}

/// How a UDP relay ended.
#[derive(Debug, PartialEq, Eq)]
pub enum UdpOutcome {
    /// The reply reached the client.
    Forwarded { client: SockAddr },
    /// No upstream is configured for the destination port.
    NoMapping { port: u16 },
    /// The ephemeral socket for the upstream leg could not be bound.
    UpstreamBindFailed { error: String },
    /// The datagram could not be sent to the upstream.
    SendFailed { upstream: SockAddr, error: String },
    /// Receiving the reply failed.
    ReceiveFailed { upstream: SockAddr, error: String },
    /// The upstream did not reply in time.
    TimedOut { upstream: SockAddr },
    /// The socket for the reply could not be opened.
    ReplySocketFailed { orig_dst: SockAddr, failure: SocketFailure },
    /// The reply could not be sent to the client.
    ReplyFailed { client: SockAddr, error: String },
    /// The driver reported something the relay was not waiting for.
    OutOfStep,
}

/// What the driver reports to a UDP relay.
#[derive(Debug, PartialEq, Eq)]
pub enum UdpEvent {
    /// The ephemeral upstream socket was bound, or not.
    UpstreamBound(Io<()>),
    /// The datagram was sent to the upstream, or not.
    RequestSent(Io<()>),
    /// The wait for the reply ended.
    ReplyReceived(Awaited<Io<Vec<u8>>>),
    /// The reply socket was opened, or not.
    ReplySocketOpened(Result<(), SocketFailure>),
    /// The reply was sent to the client, or not.
    ReplySent(Io<()>),
}

/// What the driver of a UDP relay has to do next.
#[derive(Debug, PartialEq, Eq)]
pub enum UdpStep {
    /// Bind a fresh UDP socket to `local` for the upstream leg.
    BindUpstream { local: SockAddr },
    /// Send `payload` to `to` from the upstream socket.
    SendUpstream { to: SockAddr, payload: Vec<u8> },
    /// Receive one datagram of at most `capacity` bytes on the upstream
    /// socket, giving up after `timeout_secs` seconds.
    AwaitReply { capacity: usize, timeout_secs: u64 },
    /// Open the socket the reply leaves from.
    OpenReplySocket { plan: SocketPlan },
    /// Send `payload` to `to` from the reply socket.
    SendReply { to: SockAddr, payload: Vec<u8> },
    /// Log the outcome and end the task.
    Finish { outcome: UdpOutcome },
}

/// The state of a UDP relay between two steps.
#[derive(Debug, PartialEq, Eq)]
pub enum UdpRelay {
    /// Waiting for the upstream socket.
    Binding { datagram: Datagram, upstream: Upstream },
    /// Waiting for the datagram to leave.
    Sending { client: SockAddr, orig_dst: SockAddr, upstream: Upstream },
    /// Waiting for the reply.
    Awaiting { client: SockAddr, orig_dst: SockAddr, upstream: Upstream },
    /// Waiting for the reply socket.
    OpeningReply { client: SockAddr, orig_dst: SockAddr, reply: Vec<u8> },
    /// Waiting for the reply to leave.
    Replying { client: SockAddr },
    /// Finished; nothing more is expected.
    Done,
}

/// The payload of a datagram of `len` bytes that was read into `buf`: the
/// first `len` bytes, or all of the buffer if it holds fewer.
pub open spec fn payload_of(buf: Seq<u8>, len: usize) -> Seq<u8> {
    buf.take(
        if len <= buf.len() {
            len as int
        } else {
            buf.len() as int
        },
    )
}

/// Copies the datagram that `header` describes out of the receive buffer.
pub fn datagram_of(buf: &[u8], header: Header) -> (datagram: Datagram)
    ensures
        datagram.client == header.client,
        datagram.orig_dst == header.orig_dst,
        datagram.payload@ == payload_of(buf@, header.len),
{
    let len = if header.len <= buf.len() {
        header.len
    } else {
        buf.len()
    };
    Datagram {
        client: header.client,
        orig_dst: header.orig_dst,
        payload: slice_to_vec(slice_subrange(buf, 0, len)),
    }
}

/// The wildcard address with port zero, where the upstream leg binds.
pub open spec fn ephemeral() -> SockAddr {
    SockAddr { ip: Ipv4::spec_unspecified(), port: 0 }
}

/// A relay that has ended with `outcome`.
pub open spec fn udp_finished(outcome: UdpOutcome) -> (UdpRelay, UdpStep) {
    (UdpRelay::Done, UdpStep::Finish { outcome })
}

/// First move of a relay: find the upstream for the port the client
/// addressed, and if there is one, ask for the upstream socket.
pub open spec fn udp_start(table: Map<u16, Upstream>, datagram: Datagram) -> (UdpRelay, UdpStep) {
    if table.contains_key(datagram.orig_dst.port) {
        (
            UdpRelay::Binding { datagram, upstream: table[datagram.orig_dst.port] },
            UdpStep::BindUpstream { local: ephemeral() },
        )
    } else {
        udp_finished(UdpOutcome::NoMapping { port: datagram.orig_dst.port })
    }
}

/// The transition function of the relay.
pub open spec fn udp_next(state: UdpRelay, event: UdpEvent) -> (UdpRelay, UdpStep) {
    match (state, event) {
        (UdpRelay::Binding { datagram, upstream }, UdpEvent::UpstreamBound(Ok(_))) => (
            UdpRelay::Sending { client: datagram.client, orig_dst: datagram.orig_dst, upstream },
            UdpStep::SendUpstream { to: upstream.spec_addr(), payload: datagram.payload },
        ),
        (UdpRelay::Binding { datagram, upstream }, UdpEvent::UpstreamBound(Err(error))) => {
            udp_finished(UdpOutcome::UpstreamBindFailed { error })
        },
        (UdpRelay::Sending { client, orig_dst, upstream }, UdpEvent::RequestSent(Ok(_))) => (
            UdpRelay::Awaiting { client, orig_dst, upstream },
            UdpStep::AwaitReply { capacity: BUFFER_SIZE, timeout_secs: CONN_TIMEOUT_SECS },
        ),
        (UdpRelay::Sending { client, orig_dst, upstream }, UdpEvent::RequestSent(Err(error))) => {
            udp_finished(UdpOutcome::SendFailed { upstream: upstream.spec_addr(), error })
        },
        (
            UdpRelay::Awaiting { client, orig_dst, upstream },
            UdpEvent::ReplyReceived(Awaited::Ready(Ok(reply))),
        ) => (
            UdpRelay::OpeningReply { client, orig_dst, reply },
            UdpStep::OpenReplySocket { plan: spec_udp_reply_plan(orig_dst) },
        ),
        (
            UdpRelay::Awaiting { client, orig_dst, upstream },
            UdpEvent::ReplyReceived(Awaited::Ready(Err(error))),
        ) => udp_finished(UdpOutcome::ReceiveFailed { upstream: upstream.spec_addr(), error }),
        (
            UdpRelay::Awaiting { client, orig_dst, upstream },
            UdpEvent::ReplyReceived(Awaited::TimedOut),
        ) => udp_finished(UdpOutcome::TimedOut { upstream: upstream.spec_addr() }),
        (
            UdpRelay::OpeningReply { client, orig_dst, reply },
            UdpEvent::ReplySocketOpened(Ok(_)),
        ) => (UdpRelay::Replying { client }, UdpStep::SendReply { to: client, payload: reply }),
        (
            UdpRelay::OpeningReply { client, orig_dst, reply },
            UdpEvent::ReplySocketOpened(Err(failure)),
        ) => udp_finished(UdpOutcome::ReplySocketFailed { orig_dst, failure }),
        (UdpRelay::Replying { client }, UdpEvent::ReplySent(Ok(_))) => udp_finished(
            UdpOutcome::Forwarded { client },
        ),
        (UdpRelay::Replying { client }, UdpEvent::ReplySent(Err(error))) => udp_finished(
            UdpOutcome::ReplyFailed { client, error },
        ),
        _ => udp_finished(UdpOutcome::OutOfStep),
    }
}

impl UdpRelay {
    /// Starts the relay of `datagram` under the table `map`.
    pub fn start(map: &ForwarderMap, datagram: Datagram) -> (next: (UdpRelay, UdpStep))
        ensures
            next == udp_start(map@, datagram),
    {
        match map.get(datagram.orig_dst.port) {
            Some(upstream) => (
                UdpRelay::Binding { datagram, upstream },
                UdpStep::BindUpstream {
                    local: SockAddr { ip: Ipv4 { a: 0, b: 0, c: 0, d: 0 }, port: 0 },
                },
            ),
            None => (
                UdpRelay::Done,
                UdpStep::Finish { outcome: UdpOutcome::NoMapping { port: datagram.orig_dst.port } },
            ),
        }
    }

    /// Takes the relay one step on: `event` says how the last step went.
    pub fn step(self, event: UdpEvent) -> (next: (UdpRelay, UdpStep))
        ensures
            next == udp_next(self, event),
    {
        match (self, event) {
            (UdpRelay::Binding { datagram, upstream }, UdpEvent::UpstreamBound(Ok(_))) => (
                UdpRelay::Sending {
                    client: datagram.client,
                    orig_dst: datagram.orig_dst,
                    upstream,
                },
                UdpStep::SendUpstream { to: upstream.addr(), payload: datagram.payload },
            ),
            (UdpRelay::Binding { datagram, upstream }, UdpEvent::UpstreamBound(Err(error))) => {
                finished(UdpOutcome::UpstreamBindFailed { error })
            },
            (UdpRelay::Sending { client, orig_dst, upstream }, UdpEvent::RequestSent(Ok(_))) => (
                UdpRelay::Awaiting { client, orig_dst, upstream },
                UdpStep::AwaitReply { capacity: BUFFER_SIZE, timeout_secs: CONN_TIMEOUT_SECS },
            ),
            (
                UdpRelay::Sending { client, orig_dst, upstream },
                UdpEvent::RequestSent(Err(error)),
            ) => finished(UdpOutcome::SendFailed { upstream: upstream.addr(), error }),
            (
                UdpRelay::Awaiting { client, orig_dst, upstream },
                UdpEvent::ReplyReceived(Awaited::Ready(Ok(reply))),
            ) => (
                UdpRelay::OpeningReply { client, orig_dst, reply },
                UdpStep::OpenReplySocket { plan: udp_reply_plan(orig_dst) },
            ),
            (
                UdpRelay::Awaiting { client, orig_dst, upstream },
                UdpEvent::ReplyReceived(Awaited::Ready(Err(error))),
            ) => finished(UdpOutcome::ReceiveFailed { upstream: upstream.addr(), error }),
            (
                UdpRelay::Awaiting { client, orig_dst, upstream },
                UdpEvent::ReplyReceived(Awaited::TimedOut),
            ) => finished(UdpOutcome::TimedOut { upstream: upstream.addr() }),
            (
                UdpRelay::OpeningReply { client, orig_dst, reply },
                UdpEvent::ReplySocketOpened(Ok(_)),
            ) => (UdpRelay::Replying { client }, UdpStep::SendReply { to: client, payload: reply }),
            (
                UdpRelay::OpeningReply { client, orig_dst, reply },
                UdpEvent::ReplySocketOpened(Err(failure)),
            ) => finished(UdpOutcome::ReplySocketFailed { orig_dst, failure }),
            (UdpRelay::Replying { client }, UdpEvent::ReplySent(Ok(_))) => finished(
                UdpOutcome::Forwarded { client },
            ),
            (UdpRelay::Replying { client }, UdpEvent::ReplySent(Err(error))) => finished(
                UdpOutcome::ReplyFailed { client, error },
            ),
            _ => finished(UdpOutcome::OutOfStep),
        }
    }

    /// Whether the relay has ended.
    pub fn is_done(&self) -> (done: bool)
        ensures
            done == (*self is Done),
    {
        match self {
            UdpRelay::Done => true,
            _ => false,
        }
    }
}

fn finished(outcome: UdpOutcome) -> (next: (UdpRelay, UdpStep))
    ensures
        next == udp_finished(outcome),
{
    (UdpRelay::Done, UdpStep::Finish { outcome })
}

impl Datagram {
    /// The line logged when a datagram is taken in.
    pub open spec fn spec_intercepted(self) -> Seq<char> {
        "UDP intercepted for "@ + self.orig_dst.text() + " from "@ + self.client.text()
    }

    /// The line logged when a datagram is taken in.
    pub fn intercepted(&self) -> (line: LogLine)
        ensures
            line.level == Level::Info,
            line.text@ == self.spec_intercepted(),
    {
        LogLine {
            level: Level::Info,
            text: join4(
                "UDP intercepted for ",
                self.orig_dst.to_text().as_str(),
                " from ",
                self.client.to_text().as_str(),
            ),
        }
    }
}

/// The words that name the stage at which a reply socket failed.
pub open spec fn reply_stage_text(stage: SocketStage, orig_dst: SockAddr) -> Seq<char> {
    match stage {
        SocketStage::Create => "Failed to create UDP socket for reply"@,
        SocketStage::ReuseAddress => "Failed to set reuse address on UDP reply socket"@,
        SocketStage::ReusePort => "Failed to set reuse port on UDP reply socket"@,
        SocketStage::Transparent => "Failed to set IP transparent on UDP reply socket"@,
        SocketStage::RecvOrigDst => "Failed to set receive original destination on UDP reply socket"@,
        SocketStage::NonBlocking => "Failed to set non-blocking on UDP reply socket"@,
        SocketStage::Bind => "Failed to bind UDP reply socket to original destination "@
            + orig_dst.text(),
        SocketStage::Listen => "Failed to listen on UDP reply socket"@,
        SocketStage::Register => "Failed to create UDP socket from std for reply"@,
    }
}

fn reply_stage(stage: SocketStage, orig_dst: SockAddr) -> (text: String)
    ensures
        text@ == reply_stage_text(stage, orig_dst),
{
    match stage {
        SocketStage::Create => String::from_str("Failed to create UDP socket for reply"),
        SocketStage::ReuseAddress => String::from_str(
            "Failed to set reuse address on UDP reply socket",
        ),
        SocketStage::ReusePort => String::from_str("Failed to set reuse port on UDP reply socket"),
        SocketStage::Transparent => String::from_str(
            "Failed to set IP transparent on UDP reply socket",
        ),
        SocketStage::RecvOrigDst => String::from_str(
            "Failed to set receive original destination on UDP reply socket",
        ),
        SocketStage::NonBlocking => String::from_str(
            "Failed to set non-blocking on UDP reply socket",
        ),
        SocketStage::Bind => join(
            "Failed to bind UDP reply socket to original destination ",
            orig_dst.to_text().as_str(),
        ),
        SocketStage::Listen => String::from_str("Failed to listen on UDP reply socket"),
        SocketStage::Register => String::from_str("Failed to create UDP socket from std for reply"),
    }
}

impl UdpOutcome {
    /// How grave the outcome is: a reply that arrived is news, a port
    /// without upstream a warning, everything else an error.
    pub open spec fn spec_level(self) -> Level {
        match self {
            UdpOutcome::Forwarded { .. } => Level::Info,
            UdpOutcome::NoMapping { .. } => Level::Warn,
            _ => Level::Error,
        }
    }

    /// The text of the line that reports the outcome.
    pub open spec fn spec_text(self) -> Seq<char> {
        match self {
            UdpOutcome::Forwarded { client } => "UDP reply forwarded back to client "@
                + client.text(),
            UdpOutcome::NoMapping { port } =>
                "No upstream mapping provided for destination UDP port "@ + decimal(port as nat),
            UdpOutcome::UpstreamBindFailed { error } =>
                "Failed to create and bind upstream UDP socket "@ + error@,
            UdpOutcome::SendFailed { upstream, error } =>
                "Failed to send UDP datagram to upstream "@ + upstream.text() + " - "@ + error@,
            UdpOutcome::ReceiveFailed { upstream, error } =>
                "Failed to receive UDP datagram from upstream "@ + upstream.text() + " - "@
                    + error@,
            UdpOutcome::TimedOut { upstream } =>
                "Timed out while trying to receive UDP datagram from upstream "@
                    + upstream.text(),
            UdpOutcome::ReplySocketFailed { orig_dst, failure } => reply_stage_text(
                failure.stage,
                orig_dst,
            ) + " - "@ + failure.error@,
            UdpOutcome::ReplyFailed { client, error } =>
                "Failed to forward UDP reply back to client "@ + client.text() + " - "@ + error@,
            UdpOutcome::OutOfStep => "UDP relay was told of a step it had not asked for"@,
        }
    }

    /// The line that reports the outcome.
    pub fn log(&self) -> (line: LogLine)
        ensures
            line.level == self.spec_level(),
            line.text@ == self.spec_text(),
    {
        match self {
            UdpOutcome::Forwarded { client } => LogLine {
                level: Level::Info,
                text: join("UDP reply forwarded back to client ", client.to_text().as_str()),
            },
            UdpOutcome::NoMapping { port } => LogLine {
                level: Level::Warn,
                text: join(
                    "No upstream mapping provided for destination UDP port ",
                    decimal_text(*port).as_str(),
                ),
            },
            UdpOutcome::UpstreamBindFailed { error } => LogLine {
                level: Level::Error,
                text: join("Failed to create and bind upstream UDP socket ", error.as_str()),
            },
            UdpOutcome::SendFailed { upstream, error } => LogLine {
                level: Level::Error,
                text: join4(
                    "Failed to send UDP datagram to upstream ",
                    upstream.to_text().as_str(),
                    " - ",
                    error.as_str(),
                ),
            },
            UdpOutcome::ReceiveFailed { upstream, error } => LogLine {
                level: Level::Error,
                text: join4(
                    "Failed to receive UDP datagram from upstream ",
                    upstream.to_text().as_str(),
                    " - ",
                    error.as_str(),
                ),
            },
            UdpOutcome::TimedOut { upstream } => LogLine {
                level: Level::Error,
                text: join(
                    "Timed out while trying to receive UDP datagram from upstream ",
                    upstream.to_text().as_str(),
                ),
            },
            UdpOutcome::ReplySocketFailed { orig_dst, failure } => LogLine {
                level: Level::Error,
                text: join3(
                    reply_stage(failure.stage, *orig_dst).as_str(),
                    " - ",
                    failure.error.as_str(),
                ),
            },
            UdpOutcome::ReplyFailed { client, error } => LogLine {
                level: Level::Error,
                text: join4(
                    "Failed to forward UDP reply back to client ",
                    client.to_text().as_str(),
                    " - ",
                    error.as_str(),
                ),
            },
            UdpOutcome::OutOfStep => LogLine {
                level: Level::Error,
                text: String::from_str("UDP relay was told of a step it had not asked for"),
            },
        }
    }
}

/// A datagram for a configured port goes to its upstream unchanged, and
/// the reply goes back to the client unchanged, from a socket bound to the
/// address the client first wrote to. This is the whole run of a relay
/// whose every socket operation succeeds: it opens the upstream socket,
/// sends the payload to the configured upstream, waits no longer than the
/// timeout for a reply of at most a buffer, opens the reply socket on the
/// first destination, sends the reply to the client, and ends.
pub proof fn lemma_udp_round_trip(table: Map<u16, Upstream>, datagram: Datagram, reply: Vec<u8>)
    requires
        table.contains_key(datagram.orig_dst.port),
    ensures
        ({
            let upstream = table[datagram.orig_dst.port];
            let (s1, step1) = udp_start(table, datagram);
            let (s2, step2) = udp_next(s1, UdpEvent::UpstreamBound(Ok(())));
            let (s3, step3) = udp_next(s2, UdpEvent::RequestSent(Ok(())));
            let (s4, step4) = udp_next(s3, UdpEvent::ReplyReceived(Awaited::Ready(Ok(reply))));
            let (s5, step5) = udp_next(s4, UdpEvent::ReplySocketOpened(Ok(())));
            let (s6, step6) = udp_next(s5, UdpEvent::ReplySent(Ok(())));
            &&& step1 == (UdpStep::BindUpstream { local: ephemeral() })
            &&& step2 == (UdpStep::SendUpstream {
                to: upstream.spec_addr(),
                payload: datagram.payload,
            })
            &&& step3 == (UdpStep::AwaitReply {
                capacity: BUFFER_SIZE,
                timeout_secs: CONN_TIMEOUT_SECS,
            })
            &&& step4 == (UdpStep::OpenReplySocket { plan: spec_udp_reply_plan(datagram.orig_dst) })
            &&& spec_udp_reply_plan(datagram.orig_dst).bind == datagram.orig_dst
            &&& spec_udp_reply_plan(datagram.orig_dst).transparent
            &&& step5 == (UdpStep::SendReply { to: datagram.client, payload: reply })
            &&& step6 == (UdpStep::Finish {
                outcome: UdpOutcome::Forwarded { client: datagram.client },
            })
            &&& s6 is Done
        }),
{
}

/// A datagram for a port without upstream is dropped with a warning: the
/// relay ends at once and asks for no socket.
pub proof fn lemma_udp_unmapped_port_dropped(table: Map<u16, Upstream>, datagram: Datagram)
    requires
        !table.contains_key(datagram.orig_dst.port),
    ensures
        udp_start(table, datagram) == udp_finished(
            UdpOutcome::NoMapping { port: datagram.orig_dst.port },
        ),
        (UdpOutcome::NoMapping { port: datagram.orig_dst.port }).spec_level() == Level::Warn,
{
}

/// When the upstream does not reply in time the relay ends with an error.
pub proof fn lemma_udp_timeout_ends_relay(client: SockAddr, orig_dst: SockAddr, upstream: Upstream)
    ensures
        udp_next(
            UdpRelay::Awaiting { client, orig_dst, upstream },
            UdpEvent::ReplyReceived(Awaited::TimedOut),
        ) == udp_finished(UdpOutcome::TimedOut { upstream: upstream.spec_addr() }),
        (UdpOutcome::TimedOut { upstream: upstream.spec_addr() }).spec_level() == Level::Error,
{
}

/// A relay ends exactly when it says so: the step is `Finish` if and only
/// if the new state is `Done`, and a relay that is done stays done.
pub proof fn lemma_udp_finish_is_final(state: UdpRelay, event: UdpEvent)
    ensures
        udp_next(state, event).1 is Finish <==> udp_next(state, event).0 is Done,
        state is Done ==> udp_next(state, event) == udp_finished(UdpOutcome::OutOfStep),
{
}

/// Any failure ends the relay at once: whatever the state, an event that
/// reports an error or a timeout leaves no further step.
pub proof fn lemma_udp_failure_ends_relay(state: UdpRelay, event: UdpEvent)
    requires
        udp_event_failed(event),
    ensures
        udp_next(state, event).0 is Done,
        udp_next(state, event).1 is Finish,
        udp_next(state, event).1->outcome.spec_level() == Level::Error,
{
}

/// Whether `event` reports a failure or a timeout.
pub open spec fn udp_event_failed(event: UdpEvent) -> bool {
    match event {
        UdpEvent::UpstreamBound(result) => result is Err,
        UdpEvent::RequestSent(result) => result is Err,
        UdpEvent::ReplyReceived(Awaited::Ready(result)) => result is Err,
        UdpEvent::ReplyReceived(Awaited::TimedOut) => true,
        UdpEvent::ReplySocketOpened(result) => result is Err,
        UdpEvent::ReplySent(result) => result is Err,
    }
}

} // verus!
