//! What a forwarder makes of one read from its UDP listen socket: a
//! datagram is taken in only if it names its sender and carries the
//! destination the client first wrote to.

use crate::addr::{Ipv4, SockAddr};
use crate::log::{join, line_views, Level, LineView, LogLine};
use crate::relay::Io;
use vstd::prelude::*;
use vstd::string::*;

verus! {

/// One control message that came with a datagram.
#[derive(Clone, Copy, Debug, PartialEq, Eq, Structural)]
pub enum ControlMessage {
    /// The destination the datagram had before it was redirected.
    OrigDst(SockAddr),
    /// Any other message.
    Other,
}

/// What one non-blocking read of the listen socket returned.
#[derive(Debug, PartialEq, Eq)]
pub enum Received {
    /// A datagram of `len` bytes. `control` holds the control messages in
    /// the order they arrived, or the error if the space set aside for
    /// them was too small.
    Message { source: Option<SockAddr>, control: Io<Vec<ControlMessage>>, len: usize },
    /// Nothing was waiting.
    WouldBlock,
    /// The read failed.
    Failed { error: String },
}

/// What is wrong with the sender of a datagram.
#[derive(Clone, Copy, Debug, PartialEq, Eq, Structural)]
pub enum SourceFault {
    /// The datagram names no sender.
    Missing,
    /// The sender is `0.0.0.0`.
    Unspecified,
}

/// Why the first destination of a datagram is not known.
#[derive(Debug, PartialEq, Eq)]
pub enum DestinationFault {
    /// No control message carries it.
    Absent,
    /// The control messages did not fit the space set aside for them.
    Truncated { error: String },
}

/// The envelope of a datagram that is taken in.
#[derive(Clone, Copy, Debug, PartialEq, Eq, Structural)]
pub struct Header {
    pub client: SockAddr,
    pub orig_dst: SockAddr,
    /// Number of payload bytes in the receive buffer.
    pub len: usize,
}

/// What a read amounts to.
#[derive(Debug, PartialEq, Eq)]
pub enum Reception {
    /// A datagram to relay.
    Accepted { header: Header },
    /// A datagram to drop, with everything that is wrong with it.
    Dropped { source: Option<SourceFault>, destination: Option<DestinationFault> },
    /// No datagram, and nothing to say.
    Idle,
    /// No datagram, and an error to log.
    Failed { error: String },
}

/// The first original destination among `messages`, if any carries one.
pub open spec fn first_orig_dst(messages: Seq<ControlMessage>) -> Option<SockAddr>
    decreases messages.len(),
{
    if messages.len() == 0 {
        None
    } else {
        match messages[0] {
            ControlMessage::OrigDst(addr) => Some(addr),
            ControlMessage::Other => first_orig_dst(messages.skip(1)),
        }
    }
}

/// The sender of a datagram, if it names one that can be answered.
pub open spec fn source_of(source: Option<SockAddr>) -> Result<SockAddr, SourceFault> {
    match source {
        None => Err(SourceFault::Missing),
        Some(addr) => if addr.ip == Ipv4::spec_unspecified() {
            Err(SourceFault::Unspecified)
        } else {
            Ok(addr)
        },
    }
}

/// The first destination of a datagram, if its control data holds one.
pub open spec fn destination_of(control: Io<Vec<ControlMessage>>) -> Result<
    SockAddr,
    DestinationFault,
> {
    match control {
        Err(error) => Err(DestinationFault::Truncated { error }),
        Ok(messages) => match first_orig_dst(messages@) {
            Some(addr) => Ok(addr),
            None => Err(DestinationFault::Absent),
        },
    }
}

/// What `received` amounts to. A datagram is accepted exactly when its
/// sender and its first destination are both known; otherwise it is
/// dropped and each fault is reported.
pub open spec fn reception_of(received: Received) -> Reception {
    match received {
        Received::WouldBlock => Reception::Idle,
        Received::Failed { error } => Reception::Failed { error },
        Received::Message { source, control, len } => match (
            source_of(source),
            destination_of(control),
        ) {
            (Ok(client), Ok(orig_dst)) => Reception::Accepted {
                header: Header { client, orig_dst, len },
            },
            (source, destination) => Reception::Dropped {
                source: match source {
                    Ok(_) => None,
                    Err(fault) => Some(fault),
                },
                destination: match destination {
                    Ok(_) => None,
                    Err(fault) => Some(fault),
                },
            },
        },
    }
}

/// `first_orig_dst` picks the earliest message that carries a
/// destination: it answers `Some(addr)` exactly when some message holds
/// `addr` and none before it holds any, and `None` exactly when no
/// message holds one.
pub proof fn lemma_first_orig_dst(messages: Seq<ControlMessage>)
    ensures
        match first_orig_dst(messages) {
            Some(addr) => exists|i: int|
                0 <= i < messages.len() && messages[i] == ControlMessage::OrigDst(addr) && (
                forall|j: int| 0 <= j < i ==> messages[j] == ControlMessage::Other),
            None => forall|i: int| 0 <= i < messages.len() ==> messages[i] == ControlMessage::Other,
        },
    decreases messages.len(),
{
    if messages.len() > 0 {
        match messages[0] {
            ControlMessage::OrigDst(addr) => {
                assert(messages[0] == ControlMessage::OrigDst(addr));
            },
            ControlMessage::Other => {
                let rest = messages.skip(1);
                lemma_first_orig_dst(rest);
                match first_orig_dst(rest) {
                    Some(addr) => {
                        let i = choose|i: int|
                            0 <= i < rest.len() && rest[i] == ControlMessage::OrigDst(addr) && (
                            forall|j: int| 0 <= j < i ==> rest[j] == ControlMessage::Other);
                        assert(messages[i + 1] == rest[i]);
                        assert forall|j: int| 0 <= j < i + 1 implies messages[j]
                            == ControlMessage::Other by {
                            if j > 0 {
                                assert(messages[j] == rest[j - 1]);
                            }
                        }
                    },
                    None => {
                        assert forall|i: int| 0 <= i < messages.len() implies messages[i]
                            == ControlMessage::Other by {
                            if i > 0 {
                                assert(messages[i] == rest[i - 1]);
                            }
                        }
                    },
                }
            },
        }
    }
}

/// Checks the sender of a datagram.
pub fn check_source(source: Option<SockAddr>) -> (checked: Result<SockAddr, SourceFault>)
    ensures
        checked == source_of(source),
{
    match source {
        None => Err(SourceFault::Missing),
        Some(addr) => {
            if addr.ip.is_unspecified() {
                Err(SourceFault::Unspecified)
            } else {
                Ok(addr)
            }
        },
    }
}

/// Finds the first original destination among `messages`.
pub fn find_orig_dst(messages: &Vec<ControlMessage>) -> (found: Option<SockAddr>)
    ensures
        found == first_orig_dst(messages@),
{
    let mut i: usize = 0;
    proof {
        assert(messages@.skip(0) == messages@);
    }
    while i < messages.len()
        invariant
            i <= messages.len(),
            first_orig_dst(messages@) == first_orig_dst(messages@.skip(i as int)),
        decreases messages.len() - i,
    {
        proof {
            assert(messages@.skip(i as int)[0] == messages@[i as int]);
            assert(messages@.skip(i as int).skip(1) == messages@.skip(i + 1));
        }
        match messages[i] {
            ControlMessage::OrigDst(addr) => {
                return Some(addr);
            },
            ControlMessage::Other => {},
        }
        i += 1;
    }
    None
}

/// Decides what a read of the listen socket amounts to.
pub fn classify(received: Received) -> (reception: Reception)
    ensures
        reception == reception_of(received),
{
    match received {
        Received::WouldBlock => Reception::Idle,
        Received::Failed { error } => Reception::Failed { error },
        Received::Message { source, control, len } => {
            let source = check_source(source);
            let destination = match control {
                Err(error) => Err(DestinationFault::Truncated { error }),
                Ok(messages) => match find_orig_dst(&messages) {
                    Some(addr) => Ok(addr),
                    None => Err(DestinationFault::Absent),
                },
            };
            match (source, destination) {
                (Ok(client), Ok(orig_dst)) => Reception::Accepted {
                    header: Header { client, orig_dst, len },
                },
                (source, destination) => Reception::Dropped {
                    source: match source {
                        Ok(_) => None,
                        Err(fault) => Some(fault),
                    },
                    destination: match destination {
                        Ok(_) => None,
                        Err(fault) => Some(fault),
                    },
                },
            }
        },
    }
}

impl SourceFault {
    pub open spec fn spec_text(self) -> Seq<char> {
        match self {
            SourceFault::Missing => "recvmsg(): missing source address...dropping packet..."@,
            SourceFault::Unspecified => "recvmsg(): source unspecified... dropping packet..."@,
        }
    }

    /// The line that reports the fault.
    pub fn log(&self) -> (line: LogLine)
        ensures
            line.level == Level::Error,
            line.text@ == self.spec_text(),
    {
        match self {
            SourceFault::Missing => LogLine {
                level: Level::Error,
                text: String::from_str("recvmsg(): missing source address...dropping packet..."),
            },
            SourceFault::Unspecified => LogLine {
                level: Level::Error,
                text: String::from_str("recvmsg(): source unspecified... dropping packet..."),
            },
        }
    }
}

impl DestinationFault {
    pub open spec fn spec_text(self) -> Seq<char> {
        match self {
            DestinationFault::Absent => "Couldn't find original destination"@,
            DestinationFault::Truncated { error } =>
                "Allocated space for CMSGs too small...errno: "@ + error@,
        }
    }

    /// The line that reports the fault.
    pub fn log(&self) -> (line: LogLine)
        ensures
            line.level == Level::Error,
            line.text@ == self.spec_text(),
    {
        match self {
            DestinationFault::Absent => LogLine {
                level: Level::Error,
                text: String::from_str("Couldn't find original destination"),
            },
            DestinationFault::Truncated { error } => LogLine {
                level: Level::Error,
                text: join("Allocated space for CMSGs too small...errno: ", error.as_str()),
            },
        }
    }
}

impl Reception {
    /// The lines that report a reception: none for a datagram that is
    /// taken in and none where nothing was waiting, one for a failed read,
    /// and for a dropped datagram one for each fault, the sender's first.
    pub open spec fn spec_lines(self) -> Seq<LineView> {
        match self {
            Reception::Accepted { .. } => seq![],
            Reception::Idle => seq![],
            Reception::Failed { error } => seq![
                LineView { level: Level::Error, text: "recvmsg(): failed...errno: "@ + error@ },
            ],
            Reception::Dropped { source, destination } => (match source {
                Some(fault) => seq![LineView { level: Level::Error, text: fault.spec_text() }],
                None => seq![],
            }) + (match destination {
                Some(fault) => seq![LineView { level: Level::Error, text: fault.spec_text() }],
                None => seq![],
            }),
        }
    }

    /// The lines that report the reception, in order.
    pub fn log(&self) -> (lines: Vec<LogLine>)
        ensures
            line_views(lines@) == self.spec_lines(),
    {
        let mut lines: Vec<LogLine> = Vec::new();
        match self {
            Reception::Accepted { .. } => {},
            Reception::Idle => {},
            Reception::Failed { error } => {
                lines.push(
                    LogLine {
                        level: Level::Error,
                        text: join("recvmsg(): failed...errno: ", error.as_str()),
                    },
                );
            },
            Reception::Dropped { source, destination } => {
                match source {
                    Some(fault) => {
                        lines.push(fault.log());
                    },
                    None => {},
                }
                match destination {
                    Some(fault) => {
                        lines.push(fault.log());
                    },
                    None => {},
                }
            },
        }
        assert(line_views(lines@) =~= self.spec_lines());
        lines
    }
}

} // verus!
