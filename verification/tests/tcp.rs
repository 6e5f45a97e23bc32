use krustacean::addr::{Ipv4, SockAddr};
use krustacean::config::{FileConfig, FileEntry, RuntimeConfig};
use krustacean::log::Level;
use krustacean::relay::Awaited;
use krustacean::tcp::{Connection, TcpEvent, TcpOutcome, TcpRelay, TcpStep};

fn addr(ip: [u8; 4], port: u16) -> SockAddr {
    SockAddr::new(Ipv4::from_octets(ip), port)
}

fn web_config() -> RuntimeConfig {
    RuntimeConfig::from_file(&FileConfig {
        port: 10000,
        udp: vec![],
        tcp: vec![FileEntry { upstream_ip: Ipv4::new(10, 0, 0, 1), upstream_port: 80, orig_port: 80 }],
    })
}

fn web_connection() -> Connection {
    Connection { client: addr([192, 168, 0, 7], 51000), orig_dst: Some(addr([93, 184, 216, 34], 80)) }
}

fn finish(step: TcpStep) -> TcpOutcome {
    match step {
        TcpStep::Finish { outcome } => outcome,
        other => panic!("relay did not finish: {:?}", other),
    }
}

fn run(events: Vec<TcpEvent>) -> (TcpRelay, TcpStep) {
    let (mut relay, mut step) = TcpRelay::start(&web_config().tcp_map, web_connection());
    for event in events {
        let next = relay.step(event);
        relay = next.0;
        step = next.1;
    }
    (relay, step)
}

#[test]
fn tcp_request_and_reply_are_relayed() {
    let connection = web_connection();
    let line = connection.intercepted().unwrap();
    assert_eq!(line.level, Level::Info);
    assert_eq!(line.text, "TCP intercepted for 93.184.216.34:80 from 192.168.0.7:51000");

    let (relay, step) = TcpRelay::start(&web_config().tcp_map, connection);
    assert_eq!(step, TcpStep::Connect { to: addr([10, 0, 0, 1], 80), timeout_secs: 2 });
    assert!(!relay.is_done());

    let (relay, step) = relay.step(TcpEvent::Connected(Awaited::Ready(Ok(()))));
    assert_eq!(step, TcpStep::ReadClient { capacity: 4096 });

    let request = b"GET / HTTP/1.0\r\n".to_vec();
    let (relay, step) = relay.step(TcpEvent::ClientRead(Ok(request.clone())));
    assert_eq!(step, TcpStep::WriteUpstream { payload: request });

    let (relay, step) = relay.step(TcpEvent::UpstreamWritten(Ok(())));
    assert_eq!(step, TcpStep::ReadUpstream { capacity: 4096, timeout_secs: 2 });

    let reply = b"HTTP/1.0 200 OK\r\n".to_vec();
    let (relay, step) = relay.step(TcpEvent::UpstreamRead(Awaited::Ready(Ok(reply.clone()))));
    assert_eq!(step, TcpStep::WriteClient { payload: reply });

    let (relay, step) = relay.step(TcpEvent::ClientWritten(Ok(())));
    assert!(relay.is_done());
    let outcome = finish(step);
    assert_eq!(outcome, TcpOutcome::Forwarded { client: addr([192, 168, 0, 7], 51000) });
    assert_eq!(outcome.log().level, Level::Info);
    assert_eq!(outcome.log().text, "TCP reply forwarded back to client 192.168.0.7:51000");
}

#[test]
fn tcp_unknown_first_destination() {
    let connection = Connection { client: addr([192, 168, 0, 7], 51000), orig_dst: None };
    assert_eq!(connection.intercepted(), None);
    let (relay, step) = TcpRelay::start(&web_config().tcp_map, connection);
    assert!(relay.is_done());
    let outcome = finish(step);
    assert_eq!(outcome, TcpOutcome::NoOriginalDestination { client: addr([192, 168, 0, 7], 51000) });
    assert_eq!(outcome.log().level, Level::Error);
    assert_eq!(
        outcome.log().text,
        "Failed to get original destination for TCP connection from 192.168.0.7:51000"
    );
}

#[test]
fn tcp_unmapped_port_is_closed_with_a_warning() {
    let connection =
        Connection { client: addr([192, 168, 0, 7], 51000), orig_dst: Some(addr([93, 184, 216, 34], 443)) };
    let (relay, step) = TcpRelay::start(&web_config().tcp_map, connection);
    assert!(relay.is_done());
    let outcome = finish(step);
    assert_eq!(outcome, TcpOutcome::NoMapping { port: 443 });
    assert_eq!(outcome.log().level, Level::Warn);
    assert_eq!(outcome.log().text, "No upstream mapping found for destination TCP port 443");
}

#[test]
fn tcp_connect_failure_and_timeout() {
    let (relay, step) = run(vec![TcpEvent::Connected(Awaited::Ready(Err("refused".to_string())))]);
    assert!(relay.is_done());
    let outcome = finish(step);
    assert_eq!(
        outcome,
        TcpOutcome::ConnectFailed { upstream: addr([10, 0, 0, 1], 80), error: "refused".to_string() }
    );
    assert_eq!(outcome.log().text, "Failed to connect to upstream 10.0.0.1:80 - refused");
    assert_eq!(outcome.log().level, Level::Error);

    let (relay, step) = run(vec![TcpEvent::Connected(Awaited::TimedOut)]);
    assert!(relay.is_done());
    let outcome = finish(step);
    assert_eq!(outcome, TcpOutcome::ConnectTimedOut { upstream: addr([10, 0, 0, 1], 80) });
    assert_eq!(outcome.log().text, "Timed out while trying to connect to upstream 10.0.0.1:80");
}

#[test]
fn tcp_client_read_failure() {
    let (relay, step) = run(vec![
        TcpEvent::Connected(Awaited::Ready(Ok(()))),
        TcpEvent::ClientRead(Err("reset".to_string())),
    ]);
    assert!(relay.is_done());
    let outcome = finish(step);
    assert_eq!(
        outcome,
        TcpOutcome::ClientReadFailed { client: addr([192, 168, 0, 7], 51000), error: "reset".to_string() }
    );
    assert_eq!(outcome.log().text, "Failed to read from TCP client 192.168.0.7:51000 - reset");
}

#[test]
fn tcp_forward_failure() {
    let (relay, step) = run(vec![
        TcpEvent::Connected(Awaited::Ready(Ok(()))),
        TcpEvent::ClientRead(Ok(b"x".to_vec())),
        TcpEvent::UpstreamWritten(Err("pipe".to_string())),
    ]);
    assert!(relay.is_done());
    let outcome = finish(step);
    assert_eq!(
        outcome,
        TcpOutcome::ForwardFailed { upstream: addr([10, 0, 0, 1], 80), error: "pipe".to_string() }
    );
    assert_eq!(outcome.log().text, "Failed to forward TCP to upstream 10.0.0.1:80 - pipe");
}

#[test]
fn tcp_reply_read_failure_and_timeout() {
    let before = || {
        vec![
            TcpEvent::Connected(Awaited::Ready(Ok(()))),
            TcpEvent::ClientRead(Ok(b"x".to_vec())),
            TcpEvent::UpstreamWritten(Ok(())),
        ]
    };
    let mut events = before();
    events.push(TcpEvent::UpstreamRead(Awaited::Ready(Err("reset".to_string()))));
    let (relay, step) = run(events);
    assert!(relay.is_done());
    let outcome = finish(step);
    assert_eq!(
        outcome,
        TcpOutcome::ReplyReadFailed { upstream: addr([10, 0, 0, 1], 80), error: "reset".to_string() }
    );
    assert_eq!(outcome.log().text, "Failed to read TCP reply from upstream 10.0.0.1:80 - reset");

    let mut events = before();
    events.push(TcpEvent::UpstreamRead(Awaited::TimedOut));
    let (relay, step) = run(events);
    assert!(relay.is_done());
    let outcome = finish(step);
    assert_eq!(outcome, TcpOutcome::ReplyTimedOut { upstream: addr([10, 0, 0, 1], 80) });
    assert_eq!(
        outcome.log().text,
        "Timed out while trying to read TCP reply from upstream 10.0.0.1:80"
    );
    assert_eq!(outcome.log().level, Level::Error);
}

#[test]
fn tcp_reply_write_failure() {
    let (relay, step) = run(vec![
        TcpEvent::Connected(Awaited::Ready(Ok(()))),
        TcpEvent::ClientRead(Ok(b"x".to_vec())),
        TcpEvent::UpstreamWritten(Ok(())),
        TcpEvent::UpstreamRead(Awaited::Ready(Ok(b"y".to_vec()))),
        TcpEvent::ClientWritten(Err("gone".to_string())),
    ]);
    assert!(relay.is_done());
    let outcome = finish(step);
    assert_eq!(
        outcome,
        TcpOutcome::ReplyFailed { client: addr([192, 168, 0, 7], 51000), error: "gone".to_string() }
    );
    assert_eq!(
        outcome.log().text,
        "Failed to forward TCP reply back to client 192.168.0.7:51000 - gone"
    );
}

#[test]
fn tcp_empty_read_is_forwarded_as_it_is() {
    let (_, step) = run(vec![
        TcpEvent::Connected(Awaited::Ready(Ok(()))),
        TcpEvent::ClientRead(Ok(vec![])),
    ]);
    assert_eq!(step, TcpStep::WriteUpstream { payload: vec![] });
}

#[test]
fn tcp_event_out_of_step_ends_the_relay() {
    let (relay, step) = run(vec![TcpEvent::ClientWritten(Ok(()))]);
    assert!(relay.is_done());
    assert_eq!(finish(step), TcpOutcome::OutOfStep);
    let (relay, step) = relay.step(TcpEvent::Connected(Awaited::Ready(Ok(()))));
    assert!(relay.is_done());
    let outcome = finish(step);
    assert_eq!(outcome, TcpOutcome::OutOfStep);
    assert_eq!(outcome.log().level, Level::Error);
}
