//! What each socket of the forwarder must look like before it is used.

use crate::action::Transport;
use crate::addr::{listen_ip, spec_listen_ip, Ipv4, SockAddr};
use crate::CONN_BACKLOG;
use vstd::prelude::*;

verus! {

/// The steps of opening a socket, in the order they are taken.
#[derive(Clone, Copy, Debug, PartialEq, Eq, Structural)]
pub enum SocketStage {
    Create,
    ReuseAddress,
    ReusePort,
    Transparent,
    RecvOrigDst,
    NonBlocking,
    Bind,
    Listen,
    Register,
}

/// Everything that must be done to a fresh socket: the options to switch
/// on, the address to bind, and for a listener the backlog. The options
/// are applied in the order of [`SocketStage`], each only where the plan
/// asks for it, and the socket is handed to the runtime last.
#[derive(Clone, Copy, Debug, PartialEq, Eq, Structural)]
pub struct SocketPlan {
    pub transport: Transport,
    /// `SO_REUSEADDR`.
    pub reuse_address: bool,
    /// `SO_REUSEPORT`.
    pub reuse_port: bool,
    /// `IP_TRANSPARENT`.
    pub transparent: bool,
    /// `IP_RECVORIGDSTADDR`.
    pub recv_orig_dst: bool,
    pub nonblocking: bool,
    pub bind: SockAddr,
    /// Listen backlog; `None` for a socket that does not listen.
    pub backlog: Option<u32>,
}

/// Why a socket could not be opened: the stage that failed and what the
/// system said.
#[derive(Debug, PartialEq, Eq)]
pub struct SocketFailure {
    pub stage: SocketStage,
    pub error: String,
}

pub open spec fn spec_udp_listen_plan(port: u16) -> SocketPlan {
    SocketPlan {
        transport: Transport::Udp,
        reuse_address: true,
        reuse_port: true,
        transparent: true,
        recv_orig_dst: true,
        nonblocking: true,
        bind: SockAddr { ip: spec_listen_ip(), port },
        backlog: None,
    }
}

pub open spec fn spec_udp_reply_plan(orig_dst: SockAddr) -> SocketPlan {
    SocketPlan {
        transport: Transport::Udp,
        reuse_address: true,
        reuse_port: true,
        transparent: true,
        recv_orig_dst: false,
        nonblocking: true,
        bind: orig_dst,
        backlog: None,
    }
}

pub open spec fn spec_tcp_listen_plan(port: u16) -> SocketPlan {
    SocketPlan {
        transport: Transport::Tcp,
        reuse_address: false,
        reuse_port: false,
        transparent: true,
        recv_orig_dst: false,
        nonblocking: true,
        bind: SockAddr { ip: spec_listen_ip(), port },
        backlog: Some(CONN_BACKLOG),
    }
}

/// The plan of the listen socket of a transport on `port`.
pub open spec fn spec_listen_plan(transport: Transport, port: u16) -> SocketPlan {
    match transport {
        Transport::Udp => spec_udp_listen_plan(port),
        Transport::Tcp => spec_tcp_listen_plan(port),
    }
}

/// The UDP listen socket: transparent, reporting the destination each
/// datagram was first addressed to, rebindable at once, on the listen
/// address.
#[verifier::when_used_as_spec(spec_udp_listen_plan)]
pub fn udp_listen_plan(port: u16) -> (plan: SocketPlan)
    ensures
        plan == spec_udp_listen_plan(port),
{
    SocketPlan {
        transport: Transport::Udp,
        reuse_address: true,
        reuse_port: true,
        transparent: true,
        recv_orig_dst: true,
        nonblocking: true,
        bind: SockAddr { ip: listen_ip(), port },
        backlog: None,
    }
}

/// The socket one UDP reply leaves from: transparent and bound to the
/// address the client first wrote to, so that the reply carries it as its
/// source.
#[verifier::when_used_as_spec(spec_udp_reply_plan)]
pub fn udp_reply_plan(orig_dst: SockAddr) -> (plan: SocketPlan)
    ensures
        plan == spec_udp_reply_plan(orig_dst),
{
    SocketPlan {
        transport: Transport::Udp,
        reuse_address: true,
        reuse_port: true,
        transparent: true,
        recv_orig_dst: false,
        nonblocking: true,
        bind: orig_dst,
        backlog: None,
    }
}

/// The TCP listener: transparent, on the listen address, with the
/// connection backlog.
#[verifier::when_used_as_spec(spec_tcp_listen_plan)]
pub fn tcp_listen_plan(port: u16) -> (plan: SocketPlan)
    ensures
        plan == spec_tcp_listen_plan(port),
{
    SocketPlan {
        transport: Transport::Tcp,
        reuse_address: false,
        reuse_port: false,
        transparent: true,
        recv_orig_dst: false,
        nonblocking: true,
        bind: SockAddr { ip: listen_ip(), port },
        backlog: Some(CONN_BACKLOG),
    }
}

/// The plan of the listen socket of `transport` on `port`.
#[verifier::when_used_as_spec(spec_listen_plan)]
pub fn listen_plan(transport: Transport, port: u16) -> (plan: SocketPlan)
    ensures
        plan == spec_listen_plan(transport, port),
{
    match transport {
        Transport::Udp => udp_listen_plan(port),
        Transport::Tcp => tcp_listen_plan(port),
    }
}

/// Every listen socket is transparent and bound to the listen address on
/// the port asked for; the UDP one also reports original destinations.
pub proof fn lemma_listen_sockets(transport: Transport, port: u16)
    ensures
        spec_listen_plan(transport, port).transparent,
        spec_listen_plan(transport, port).nonblocking,
        spec_listen_plan(transport, port).bind == (SockAddr { ip: spec_listen_ip(), port }),
        transport == Transport::Udp ==> spec_listen_plan(transport, port).recv_orig_dst,
        transport == Transport::Tcp ==> spec_listen_plan(transport, port).backlog == Some(
            CONN_BACKLOG,
        ),
{
}

} // verus!
