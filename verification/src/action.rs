//! The control actions that the workers broadcast to one another.

use vstd::prelude::*;
use vstd::string::*;

verus! {

/// The two transports the forwarder serves.
#[derive(Clone, Copy, Debug, PartialEq, Eq, Structural)]
pub enum Transport {
    Udp,
    Tcp,
}

impl Transport {
    /// The name of the transport in log lines.
    pub open spec fn spec_name(self) -> Seq<char> {
        match self {
            Transport::Udp => "UDP"@,
            Transport::Tcp => "TCP"@,
        }
    }

    /// The name of the transport in log lines.
    pub fn name(&self) -> (name: &'static str)
        ensures
            name@ == self.spec_name(),
    {
        match self {
            Transport::Udp => "UDP",
            Transport::Tcp => "TCP",
        }
    }
}

/// The three long-lived workers of the process.
#[derive(Clone, Copy, Debug, PartialEq, Eq, Structural)]
pub enum Worker {
    UdpForwarder,
    TcpForwarder,
    SignalHandler,
}

impl Worker {
    /// The name a worker goes by in log lines.
    pub open spec fn spec_label(self) -> Seq<char> {
        match self {
            Worker::UdpForwarder => "UDP forwarder"@,
            Worker::TcpForwarder => "TCP forwarder"@,
            Worker::SignalHandler => "Signal handler"@,
        }
    }

    /// The name a worker goes by in log lines.
    pub fn label(&self) -> (label: &'static str)
        ensures
            label@ == self.spec_label(),
    {
        match self {
            Worker::UdpForwarder => "UDP forwarder",
            Worker::TcpForwarder => "TCP forwarder",
            Worker::SignalHandler => "Signal handler",
        }
    }
}

/// A control action. The bus that carries actions keeps only the latest
/// one, so a worker may miss an action that a later one replaced.
#[derive(Clone, Copy, Debug, PartialEq, Eq, Structural)]
pub enum Action {
    /// Nothing has happened yet.
    Init,
    /// A new snapshot was published; the flag says whether the listen port
    /// differs from the one before.
    Reload(bool),
    /// Stop taking work and let the relays in flight finish.
    Shutdown,
    /// Stop at once and cancel the relays in flight.
    Kill,
    /// The named worker failed; stop as for `Shutdown`.
    Stop(Worker),
    /// A worker panicked; stop as for `Kill`.
    Panicked,
}

/// How a worker must end when it sees an action.
#[derive(Clone, Copy, Debug, PartialEq, Eq, Structural)]
pub enum Ending {
    /// The action ends nothing.
    Continue,
    /// Drain: wait a bounded time for the relays in flight.
    Graceful,
    /// Cancel the relays in flight.
    Forced,
}

impl Action {
    /// Rank in the order of control intent: an action of higher rank
    /// replaces one of lower rank without loss.
    pub open spec fn rank(self) -> nat {
        match self {
            Action::Init => 0,
            Action::Reload(_) => 1,
            Action::Shutdown => 2,
            Action::Stop(_) => 2,
            Action::Kill => 3,
            Action::Panicked => 3,
        }
    }

    pub open spec fn spec_ending(self) -> Ending {
        match self {
            Action::Init => Ending::Continue,
            Action::Reload(_) => Ending::Continue,
            Action::Shutdown => Ending::Graceful,
            Action::Stop(_) => Ending::Graceful,
            Action::Kill => Ending::Forced,
            Action::Panicked => Ending::Forced,
        }
    }

    /// How a forwarder must end when it sees this action.
    #[verifier::when_used_as_spec(spec_ending)]
    pub fn ending(self) -> (ending: Ending)
        ensures
            ending == self.spec_ending(),
    {
        match self {
            Action::Init => Ending::Continue,
            Action::Reload(_) => Ending::Continue,
            Action::Shutdown => Ending::Graceful,
            Action::Stop(_) => Ending::Graceful,
            Action::Kill => Ending::Forced,
            Action::Panicked => Ending::Forced,
        }
    }

    /// Whether this action replaces `earlier` without loss.
    pub fn supersedes(&self, earlier: &Action) -> (replaces: bool)
        ensures
            replaces == (self.rank() >= earlier.rank()),
    {
        self.level() >= earlier.level()
    }

    fn level(&self) -> (level: u8)
        ensures
            level == self.rank(),
    {
        match self {
            Action::Init => 0,
            Action::Reload(_) => 1,
            Action::Shutdown => 2,
            Action::Stop(_) => 2,
            Action::Kill => 3,
            Action::Panicked => 3,
        }
    }
}

} // verus!
