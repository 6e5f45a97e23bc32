use krustacean::action::{Action, Ending, Transport, Worker};
use krustacean::addr::{listen_ip, Ipv4, SockAddr};
use krustacean::config::{FileConfig, FileEntry, RuntimeConfig};
use krustacean::forwarder::{
    bus_lost_line, rebound_line, Accept, Admission, Command, Dispatch, DrainStep, Forwarder, Phase,
};
use krustacean::log::{Level, LogLine};
use krustacean::recv::{DestinationFault, SourceFault};
use krustacean::socket::{SocketFailure, SocketStage};
use krustacean::recv::{ControlMessage, Header, Received, Reception};
use krustacean::socket::{listen_plan, tcp_listen_plan, udp_listen_plan, SocketPlan};
use krustacean::tcp::Connection;
use krustacean::{CONN_BACKLOG, DRAIN_SECS};

fn addr(ip: [u8; 4], port: u16) -> SockAddr {
    SockAddr::new(Ipv4::from_octets(ip), port)
}

fn config(port: u16) -> RuntimeConfig {
    RuntimeConfig::from_file(&FileConfig {
        port,
        udp: vec![FileEntry { upstream_ip: Ipv4::new(127, 0, 0, 3), upstream_port: 53, orig_port: 53 }],
        tcp: vec![FileEntry { upstream_ip: Ipv4::new(10, 0, 0, 1), upstream_port: 80, orig_port: 80 }],
    })
}

fn good_datagram(len: usize) -> Received {
    Received::Message {
        source: Some(addr([127, 0, 0, 1], 40000)),
        control: Ok(vec![ControlMessage::OrigDst(addr([127, 0, 0, 2], 53))]),
        len,
    }
}

fn good_header(len: usize) -> Header {
    Header { client: addr([127, 0, 0, 1], 40000), orig_dst: addr([127, 0, 0, 2], 53), len }
}

#[test]
fn constants_of_the_forwarder() {
    assert_eq!(CONN_BACKLOG, 100);
    assert_eq!(DRAIN_SECS, 5);
}

#[test]
fn udp_listen_socket_options() {
    let plan = udp_listen_plan(10000);
    assert_eq!(
        plan,
        SocketPlan {
            transport: Transport::Udp,
            reuse_address: true,
            reuse_port: true,
            transparent: true,
            recv_orig_dst: true,
            nonblocking: true,
            bind: SockAddr { ip: Ipv4::new(127, 0, 0, 2), port: 10000 },
            backlog: None,
        }
    );
    assert_eq!(plan.bind.ip, listen_ip());
    assert_eq!(listen_plan(Transport::Udp, 10000), plan);
}

#[test]
fn tcp_listen_socket_options() {
    let plan = tcp_listen_plan(10000);
    assert_eq!(
        plan,
        SocketPlan {
            transport: Transport::Tcp,
            reuse_address: false,
            reuse_port: false,
            transparent: true,
            recv_orig_dst: false,
            nonblocking: true,
            bind: SockAddr { ip: Ipv4::new(127, 0, 0, 2), port: 10000 },
            backlog: Some(100),
        }
    );
    assert_eq!(listen_plan(Transport::Tcp, 10000), plan);
}

#[test]
fn first_socket_is_on_the_configured_port() {
    assert_eq!(Forwarder::first_socket(Transport::Udp, &config(10000)), udp_listen_plan(10000));
    assert_eq!(Forwarder::first_socket(Transport::Tcp, &config(443)), tcp_listen_plan(443));
}

#[test]
fn fresh_forwarder() {
    let forwarder = Forwarder::new(Transport::Udp, 10000);
    assert_eq!(forwarder.transport(), Transport::Udp);
    assert_eq!(forwarder.port(), 10000);
    assert_eq!(forwarder.phase(), Phase::Running);
    assert_eq!(forwarder.permits(), 100);
    assert_eq!(forwarder.in_flight(), 0);
}

#[test]
fn the_101st_datagram_is_dropped() {
    let mut forwarder = Forwarder::new(Transport::Udp, 10000);
    for n in 0..100u32 {
        assert_eq!(forwarder.in_flight(), n);
        assert_eq!(
            forwarder.on_datagram(good_datagram(1)),
            Dispatch::Spawn { header: good_header(1) }
        );
    }
    assert_eq!(forwarder.permits(), 0);
    assert_eq!(forwarder.in_flight(), 100);
    assert_eq!(forwarder.on_datagram(good_datagram(1)), Dispatch::Busy);
    assert_eq!(forwarder.on_datagram(good_datagram(1)), Dispatch::Busy);
    assert_eq!(forwarder.in_flight(), 100);
    assert_eq!(forwarder.phase(), Phase::Running);

    forwarder.on_relay_finished();
    assert_eq!(forwarder.in_flight(), 99);
    assert_eq!(forwarder.on_datagram(good_datagram(7)), Dispatch::Spawn { header: good_header(7) });
    assert_eq!(forwarder.on_datagram(good_datagram(7)), Dispatch::Busy);
}

#[test]
fn try_acquire_counts_permits() {
    let mut forwarder = Forwarder::new(Transport::Udp, 10000);
    assert_eq!(forwarder.try_acquire(), Admission::Granted);
    assert_eq!(forwarder.permits(), 99);
    forwarder.on_relay_finished();
    assert_eq!(forwarder.permits(), 100);
    forwarder.on_relay_finished();
    assert_eq!(forwarder.permits(), 100);
}

#[test]
fn a_relay_that_times_out_gives_its_permit_back() {
    let mut forwarder = Forwarder::new(Transport::Udp, 10000);
    assert!(matches!(forwarder.on_datagram(good_datagram(1)), Dispatch::Spawn { .. }));
    assert_eq!(forwarder.in_flight(), 1);
    // the relay task ends, here by timeout, and the driver reaps it
    forwarder.on_relay_finished();
    assert_eq!(forwarder.in_flight(), 0);
    assert_eq!(forwarder.permits(), 100);
}

#[test]
fn tcp_forwarder_counts_no_permits() {
    let mut forwarder = Forwarder::new(Transport::Tcp, 10000);
    let connection = Connection { client: addr([192, 168, 0, 7], 51000), orig_dst: Some(addr([1, 1, 1, 1], 80)) };
    for _ in 0..250 {
        assert_eq!(forwarder.on_connection(Ok(connection)), Accept::Spawn { connection });
    }
    assert_eq!(forwarder.permits(), 100);
    forwarder.on_relay_finished();
    assert_eq!(forwarder.permits(), 100);
}

#[test]
fn failed_accept_is_reported() {
    let mut forwarder = Forwarder::new(Transport::Tcp, 10000);
    assert_eq!(
        forwarder.on_connection(Err("too many files".to_string())),
        Accept::Failed { error: "too many files".to_string() }
    );
    assert_eq!(forwarder.phase(), Phase::Running);
}

#[test]
fn datagram_faults_take_no_permit() {
    let mut forwarder = Forwarder::new(Transport::Udp, 10000);
    assert_eq!(
        forwarder.on_datagram(Received::WouldBlock),
        Dispatch::Rejected { reception: Reception::Idle }
    );
    assert_eq!(
        forwarder.on_datagram(Received::Failed { error: "bad fd".to_string() }),
        Dispatch::Rejected { reception: Reception::Failed { error: "bad fd".to_string() } }
    );
    assert!(matches!(
        forwarder.on_datagram(Received::Message { source: None, control: Ok(vec![]), len: 3 }),
        Dispatch::Rejected { reception: Reception::Dropped { .. } }
    ));
    assert_eq!(forwarder.permits(), 100);
}

#[test]
fn init_is_ignored() {
    let mut forwarder = Forwarder::new(Transport::Udp, 10000);
    assert_eq!(forwarder.on_action(Action::Init, &config(10000), 0), Command::Continue);
    assert_eq!(forwarder.phase(), Phase::Running);
    assert_eq!(forwarder.port(), 10000);
}

#[test]
fn reload_without_port_change_keeps_the_socket() {
    for transport in [Transport::Udp, Transport::Tcp] {
        let mut forwarder = Forwarder::new(transport, 10000);
        assert_eq!(
            forwarder.on_action(Action::Reload(false), &config(10000), 0),
            Command::Adopt { rebind: None }
        );
        assert_eq!(forwarder.port(), 10000);
        assert_eq!(forwarder.phase(), Phase::Running);
    }
}

#[test]
fn reload_from_port_10000_to_10001_moves_the_listener() {
    let mut forwarder = Forwarder::new(Transport::Udp, 10000);
    let command = forwarder.on_action(Action::Reload(true), &config(10001), 0);
    assert_eq!(command, Command::Adopt { rebind: Some(udp_listen_plan(10001)) });
    // until the new socket is open the forwarder still listens on the old port
    assert_eq!(forwarder.port(), 10000);
    forwarder.on_rebound(10001, true);
    assert_eq!(forwarder.port(), 10001);
    assert_eq!(forwarder.phase(), Phase::Running);
    // it still relays
    assert_eq!(forwarder.on_datagram(good_datagram(1)), Dispatch::Spawn { header: good_header(1) });

    let mut forwarder = Forwarder::new(Transport::Tcp, 10000);
    let command = forwarder.on_action(Action::Reload(true), &config(10001), 0);
    assert_eq!(command, Command::Adopt { rebind: Some(tcp_listen_plan(10001)) });
    forwarder.on_rebound(10001, true);
    assert_eq!(forwarder.port(), 10001);
}

#[test]
fn failed_rebind_keeps_the_old_socket() {
    let mut forwarder = Forwarder::new(Transport::Udp, 10000);
    forwarder.on_action(Action::Reload(true), &config(10001), 0);
    forwarder.on_rebound(10001, false);
    assert_eq!(forwarder.port(), 10000);
    assert_eq!(forwarder.phase(), Phase::Running);
    assert_eq!(forwarder.on_datagram(good_datagram(1)), Dispatch::Spawn { header: good_header(1) });
}

#[test]
fn shutdown_and_stop_begin_a_drain() {
    for action in [Action::Shutdown, Action::Stop(Worker::TcpForwarder), Action::Stop(Worker::SignalHandler)] {
        let mut forwarder = Forwarder::new(Transport::Udp, 10000);
        assert_eq!(action.ending(), Ending::Graceful);
        assert_eq!(
            forwarder.on_action(action, &config(10000), 1_000),
            Command::Drain { deadline: 6_000 }
        );
        assert_eq!(forwarder.phase(), Phase::Draining { deadline: 6_000 });
        assert_eq!(forwarder.on_datagram(good_datagram(1)), Dispatch::Stopping);
        assert_eq!(forwarder.try_acquire(), Admission::Stopping);
        assert_eq!(forwarder.permits(), 100);
    }
}

#[test]
fn kill_and_panicked_abort() {
    for action in [Action::Kill, Action::Panicked] {
        let mut forwarder = Forwarder::new(Transport::Udp, 10000);
        assert_eq!(action.ending(), Ending::Forced);
        assert_eq!(forwarder.on_action(action, &config(10000), 1_000), Command::Abort);
        assert_eq!(forwarder.phase(), Phase::Finished);
        assert_eq!(forwarder.on_datagram(good_datagram(1)), Dispatch::Stopping);
    }
}

#[test]
fn sigquit_with_five_relays_in_flight_cancels_them_at_once() {
    let mut forwarder = Forwarder::new(Transport::Udp, 10000);
    for _ in 0..5 {
        assert!(matches!(forwarder.on_datagram(good_datagram(1)), Dispatch::Spawn { .. }));
    }
    assert_eq!(forwarder.in_flight(), 5);
    assert_eq!(forwarder.on_action(Action::Kill, &config(10000), 77), Command::Abort);
    assert_eq!(forwarder.phase(), Phase::Finished);
    // no wait is asked for: the driver cancels the five and returns
    assert_eq!(forwarder.on_drain_poll(77, 5), DrainStep::Done { forced: true });
    assert_eq!(forwarder.on_datagram(good_datagram(1)), Dispatch::Stopping);
}

#[test]
fn no_work_after_kill_whatever_comes() {
    let mut forwarder = Forwarder::new(Transport::Tcp, 10000);
    forwarder.on_action(Action::Kill, &config(10000), 0);
    forwarder.on_action(Action::Reload(true), &config(10001), 1);
    forwarder.on_rebound(10001, true);
    forwarder.on_action(Action::Init, &config(10001), 2);
    forwarder.on_relay_finished();
    forwarder.on_drain_poll(3, 0);
    let connection = Connection { client: addr([192, 168, 0, 7], 51000), orig_dst: Some(addr([1, 1, 1, 1], 80)) };
    assert_eq!(forwarder.on_connection(Ok(connection)), Accept::Stopping);
    assert_eq!(forwarder.phase(), Phase::Finished);
    assert_eq!(forwarder.port(), 10000);
}

#[test]
fn kill_during_a_drain_aborts() {
    let mut forwarder = Forwarder::new(Transport::Udp, 10000);
    forwarder.on_action(Action::Shutdown, &config(10000), 0);
    assert_eq!(forwarder.on_action(Action::Reload(true), &config(10001), 10), Command::Continue);
    assert_eq!(forwarder.on_action(Action::Shutdown, &config(10000), 10), Command::Continue);
    assert_eq!(forwarder.phase(), Phase::Draining { deadline: 5_000 });
    assert_eq!(forwarder.on_action(Action::Panicked, &config(10000), 20), Command::Abort);
    assert_eq!(forwarder.phase(), Phase::Finished);
    assert_eq!(forwarder.on_action(Action::Kill, &config(10000), 30), Command::Continue);
}

#[test]
fn drain_waits_at_most_five_seconds() {
    let mut forwarder = Forwarder::new(Transport::Udp, 10000);
    forwarder.on_action(Action::Shutdown, &config(10000), 1_000);
    assert_eq!(forwarder.on_drain_poll(1_000, 3), DrainStep::Wait { millis: 5_000 });
    assert_eq!(forwarder.on_drain_poll(2_500, 2), DrainStep::Wait { millis: 3_500 });
    assert_eq!(forwarder.on_drain_poll(5_999, 1), DrainStep::Wait { millis: 1 });
    assert_eq!(forwarder.phase(), Phase::Draining { deadline: 6_000 });
    assert_eq!(forwarder.on_drain_poll(6_000, 1), DrainStep::Done { forced: true });
    assert_eq!(forwarder.phase(), Phase::Finished);
}

#[test]
fn drain_ends_as_soon_as_nothing_is_left() {
    let mut forwarder = Forwarder::new(Transport::Tcp, 10000);
    forwarder.on_action(Action::Stop(Worker::UdpForwarder), &config(10000), 1_000);
    assert_eq!(forwarder.on_drain_poll(1_000, 1), DrainStep::Wait { millis: 5_000 });
    assert_eq!(forwarder.on_drain_poll(1_200, 0), DrainStep::Done { forced: false });
    assert_eq!(forwarder.phase(), Phase::Finished);
    assert_eq!(forwarder.on_drain_poll(1_300, 0), DrainStep::Done { forced: false });
}

#[test]
fn drain_deadline_saturates_at_the_end_of_the_clock() {
    let mut forwarder = Forwarder::new(Transport::Udp, 10000);
    assert_eq!(
        forwarder.on_action(Action::Shutdown, &config(10000), u64::MAX - 10),
        Command::Drain { deadline: u64::MAX }
    );
    assert_eq!(forwarder.on_drain_poll(u64::MAX - 10, 1), DrainStep::Wait { millis: 10 });
    assert_eq!(forwarder.on_drain_poll(u64::MAX, 1), DrainStep::Done { forced: true });
}

#[test]
fn drain_poll_of_a_running_forwarder_changes_nothing() {
    let mut forwarder = Forwarder::new(Transport::Udp, 10000);
    assert_eq!(forwarder.on_drain_poll(5, 0), DrainStep::Wait { millis: 0 });
    assert_eq!(forwarder.phase(), Phase::Running);
}

#[test]
fn action_ranks() {
    let ordered = [
        Action::Init,
        Action::Reload(false),
        Action::Shutdown,
        Action::Kill,
    ];
    for (i, later) in ordered.iter().enumerate() {
        for (j, earlier) in ordered.iter().enumerate() {
            assert_eq!(later.supersedes(earlier), i >= j);
        }
    }
    assert!(Action::Panicked.supersedes(&Action::Kill));
    assert!(Action::Kill.supersedes(&Action::Panicked));
    assert!(Action::Stop(Worker::UdpForwarder).supersedes(&Action::Shutdown));
    assert!(!Action::Stop(Worker::UdpForwarder).supersedes(&Action::Kill));
    assert!(Action::Reload(true).supersedes(&Action::Reload(false)));
    assert_eq!(Action::Init.ending(), Ending::Continue);
    assert_eq!(Action::Reload(true).ending(), Ending::Continue);
}

#[test]
fn worker_labels() {
    assert_eq!(Worker::UdpForwarder.label(), "UDP forwarder");
    assert_eq!(Worker::TcpForwarder.label(), "TCP forwarder");
    assert_eq!(Worker::SignalHandler.label(), "Signal handler");
}

fn line(level: Level, text: &str) -> LogLine {
    LogLine { level, text: text.to_string() }
}

#[test]
fn lost_bus_begins_a_drain() {
    let mut forwarder = Forwarder::new(Transport::Udp, 10000);
    assert_eq!(forwarder.on_bus_closed(1_000), Command::Drain { deadline: 6_000 });
    assert_eq!(forwarder.phase(), Phase::Draining { deadline: 6_000 });
    assert_eq!(forwarder.on_datagram(good_datagram(1)), Dispatch::Stopping);
    assert_eq!(forwarder.on_bus_closed(2_000), Command::Continue);
    assert_eq!(forwarder.phase(), Phase::Draining { deadline: 6_000 });
    assert_eq!(forwarder.on_drain_poll(6_000, 1), DrainStep::Done { forced: true });
    assert_eq!(forwarder.on_bus_closed(7_000), Command::Continue);
    assert_eq!(forwarder.phase(), Phase::Finished);
}

#[test]
fn lost_bus_lines() {
    assert_eq!(
        bus_lost_line(Transport::Udp),
        line(Level::Error, "Action channel closed...Shutting down UDP forwarder...")
    );
    assert_eq!(
        bus_lost_line(Transport::Tcp),
        line(Level::Error, "Action channel closed...Shutting down TCP forwarder...")
    );
}

#[test]
fn busy_datagram_is_logged_as_a_warning() {
    assert_eq!(
        Dispatch::Busy.log(),
        vec![line(Level::Warn, "UDP forwarder is busy, dropping packets...")]
    );
}

#[test]
fn relayed_and_refused_datagrams_log_nothing() {
    assert_eq!(Dispatch::Spawn { header: good_header(1) }.log(), vec![]);
    assert_eq!(Dispatch::Stopping.log(), vec![]);
    assert_eq!(Dispatch::Rejected { reception: Reception::Idle }.log(), vec![]);
}

#[test]
fn failed_read_is_logged() {
    assert_eq!(
        Dispatch::Rejected { reception: Reception::Failed { error: "EBADF".to_string() } }.log(),
        vec![line(Level::Error, "recvmsg(): failed...errno: EBADF")]
    );
}

#[test]
fn each_fault_of_a_dropped_datagram_is_logged() {
    let both = Dispatch::Rejected {
        reception: Reception::Dropped {
            source: Some(SourceFault::Unspecified),
            destination: Some(DestinationFault::Truncated { error: "ENOBUFS".to_string() }),
        },
    };
    assert_eq!(
        both.log(),
        vec![
            line(Level::Error, "recvmsg(): source unspecified... dropping packet..."),
            line(Level::Error, "Allocated space for CMSGs too small...errno: ENOBUFS"),
        ]
    );
    let one = Dispatch::Rejected {
        reception: Reception::Dropped { source: None, destination: Some(DestinationFault::Absent) },
    };
    assert_eq!(one.log(), vec![line(Level::Error, "Couldn't find original destination")]);
    let other = Dispatch::Rejected {
        reception: Reception::Dropped { source: Some(SourceFault::Missing), destination: None },
    };
    assert_eq!(
        other.log(),
        vec![line(Level::Error, "recvmsg(): missing source address...dropping packet...")]
    );
}

#[test]
fn failed_accept_is_logged() {
    assert_eq!(
        Accept::Failed { error: "too many files".to_string() }.log(),
        Some(line(Level::Error, "Error accepting TCP connection - too many files"))
    );
    assert_eq!(Accept::Stopping.log(), None);
    let connection = Connection { client: addr([1, 2, 3, 4], 5), orig_dst: None };
    assert_eq!(Accept::Spawn { connection }.log(), None);
}

#[test]
fn forced_exit_is_logged() {
    assert_eq!(
        DrainStep::Done { forced: true }.log(Transport::Udp),
        Some(line(Level::Warn, "UDP forwarder exits by force, cancelling unfinished tasks"))
    );
    assert_eq!(
        DrainStep::Done { forced: true }.log(Transport::Tcp),
        Some(line(Level::Warn, "TCP forwarder exits by force, cancelling unfinished tasks"))
    );
    assert_eq!(DrainStep::Done { forced: false }.log(Transport::Udp), None);
    assert_eq!(DrainStep::Wait { millis: 5 }.log(Transport::Udp), None);
}

#[test]
fn rebind_lines() {
    assert_eq!(
        rebound_line(Transport::Udp, 10001, &Ok(())),
        line(Level::Info, "UDP forwarder now listens on port 10001")
    );
    assert_eq!(
        rebound_line(
            Transport::Tcp,
            443,
            &Err(SocketFailure { stage: SocketStage::Bind, error: "Address in use".to_string() })
        ),
        line(
            Level::Error,
            "TCP forwarder keeps its listen socket, failed to listen on port 443 - Address in use"
        )
    );
}

#[test]
fn transport_names() {
    assert_eq!(Transport::Udp.name(), "UDP");
    assert_eq!(Transport::Tcp.name(), "TCP");
}
