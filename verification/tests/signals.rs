use krustacean::action::{Action, Worker};
use krustacean::addr::Ipv4;
use krustacean::config::{FileConfig, FileEntry, RuntimeConfig};
use krustacean::log::{Level, LogLine};
use krustacean::signals::{
    status_line, Effect, HandlerEvent, HandlerPhase, Notice, Signal, SignalHandler,
};

fn file(port: u16) -> FileConfig {
    FileConfig {
        port,
        udp: vec![FileEntry { upstream_ip: Ipv4::new(127, 0, 0, 3), upstream_port: 53, orig_port: 53 }],
        tcp: vec![FileEntry { upstream_ip: Ipv4::new(10, 0, 0, 1), upstream_port: 80, orig_port: 80 }],
    }
}

fn loading(current: &RuntimeConfig) -> SignalHandler {
    let mut handler = SignalHandler::new(Action::Init);
    assert_eq!(handler.step(HandlerEvent::Signal(Signal::Hangup), current), vec![Effect::ReadClock]);
    assert_eq!(handler.phase(), HandlerPhase::Reloading);
    assert_eq!(
        handler.step(HandlerEvent::Clock(Ok(123_456)), current),
        vec![Effect::Notify(Notice::Reloading { monotonic_usec: 123_456 }), Effect::ReadConfig]
    );
    assert_eq!(handler.phase(), HandlerPhase::Loading);
    handler
}

fn closing(port: u16) -> Vec<Effect> {
    vec![
        Effect::Notify(Notice::Ready),
        Effect::Notify(Notice::Status { text: format!("Configured to listen at 127.0.0.2:{}", port) }),
    ]
}

#[test]
fn status_line_text() {
    assert_eq!(status_line(10000), "Configured to listen at 127.0.0.2:10000");
    assert_eq!(status_line(0), "Configured to listen at 127.0.0.2:0");
    assert_eq!(status_line(65535), "Configured to listen at 127.0.0.2:65535");
}

#[test]
fn handler_starts_unless_a_worker_is_down() {
    assert_eq!(SignalHandler::new(Action::Init).phase(), HandlerPhase::Listening);
    assert_eq!(SignalHandler::new(Action::Reload(true)).phase(), HandlerPhase::Listening);
    assert_eq!(SignalHandler::new(Action::Shutdown).phase(), HandlerPhase::Listening);
    assert_eq!(SignalHandler::new(Action::Kill).phase(), HandlerPhase::Listening);
    assert_eq!(SignalHandler::new(Action::Stop(Worker::UdpForwarder)).phase(), HandlerPhase::Exited);
    assert_eq!(SignalHandler::new(Action::Panicked).phase(), HandlerPhase::Exited);
    assert!(SignalHandler::new(Action::Panicked).has_exited());
    assert!(!SignalHandler::new(Action::Init).has_exited());
}

#[test]
fn interrupt_and_terminate_publish_shutdown() {
    let current = RuntimeConfig::from_file(&file(10000));
    for signal in [Signal::Interrupt, Signal::Terminate] {
        let mut handler = SignalHandler::new(Action::Init);
        assert_eq!(
            handler.step(HandlerEvent::Signal(signal), &current),
            vec![Effect::Publish(Action::Shutdown), Effect::Exit]
        );
        assert!(handler.has_exited());
    }
}

#[test]
fn quit_publishes_kill() {
    let current = RuntimeConfig::from_file(&file(10000));
    let mut handler = SignalHandler::new(Action::Init);
    assert_eq!(
        handler.step(HandlerEvent::Signal(Signal::Quit), &current),
        vec![Effect::Publish(Action::Kill), Effect::Exit]
    );
    assert!(handler.has_exited());
}

#[test]
fn events_after_exit_are_dropped() {
    let current = RuntimeConfig::from_file(&file(10000));
    let mut handler = SignalHandler::new(Action::Init);
    handler.step(HandlerEvent::Signal(Signal::Terminate), &current);
    for event in [
        HandlerEvent::Signal(Signal::Quit),
        HandlerEvent::Signal(Signal::Hangup),
        HandlerEvent::Signal(Signal::Interrupt),
        HandlerEvent::Bus(Some(Action::Panicked)),
        HandlerEvent::Bus(None),
        HandlerEvent::Clock(Ok(1)),
        HandlerEvent::Loaded(Ok(file(10001))),
    ] {
        assert_eq!(handler.step(event, &current), vec![]);
        assert!(handler.has_exited());
    }
}

#[test]
fn handler_leaves_when_a_worker_fails_or_panics() {
    let current = RuntimeConfig::from_file(&file(10000));
    for action in [Action::Stop(Worker::TcpForwarder), Action::Panicked] {
        let mut handler = SignalHandler::new(Action::Init);
        assert_eq!(handler.step(HandlerEvent::Bus(Some(action)), &current), vec![Effect::Exit]);
        assert!(handler.has_exited());
    }
}

#[test]
fn handler_ignores_its_own_actions_on_the_bus() {
    let current = RuntimeConfig::from_file(&file(10000));
    for action in [Action::Init, Action::Reload(true), Action::Reload(false), Action::Shutdown, Action::Kill] {
        let mut handler = SignalHandler::new(Action::Init);
        assert_eq!(handler.step(HandlerEvent::Bus(Some(action)), &current), vec![]);
        assert_eq!(handler.phase(), HandlerPhase::Listening);
    }
}

#[test]
fn handler_leaves_when_the_bus_is_gone() {
    let current = RuntimeConfig::from_file(&file(10000));
    let mut handler = SignalHandler::new(Action::Init);
    assert_eq!(
        handler.step(HandlerEvent::Bus(None), &current),
        vec![
            Effect::Log(LogLine {
                level: Level::Error,
                text: "Signal channel closed...Shutting down Signal handler...".to_string()
            }),
            Effect::Exit
        ]
    );
    assert!(handler.has_exited());
}

#[test]
fn sighup_with_an_unchanged_file_publishes_nothing() {
    let current = RuntimeConfig::from_file(&file(10000));
    let mut handler = loading(&current);
    let mut expected = vec![Effect::Log(LogLine {
        level: Level::Info,
        text: "Configuration unchanged".to_string(),
    })];
    expected.extend(closing(10000));
    let effects = handler.step(HandlerEvent::Loaded(Ok(file(10000))), &current);
    assert_eq!(effects, expected);
    assert!(!effects.iter().any(|e| matches!(e, Effect::Publish(_) | Effect::Store(_))));
    assert_eq!(handler.phase(), HandlerPhase::Listening);
}

#[test]
fn sighup_with_reordered_and_repeated_rules_publishes_nothing() {
    let current = RuntimeConfig::from_file(&file(10000));
    let mut handler = loading(&current);
    let mut same = file(10000);
    same.udp.push(same.udp[0]);
    same.tcp.insert(0, same.tcp[0]);
    let effects = handler.step(HandlerEvent::Loaded(Ok(same)), &current);
    assert!(!effects.iter().any(|e| matches!(e, Effect::Publish(_) | Effect::Store(_))));
}

#[test]
fn sighup_with_a_new_port_publishes_reload_true() {
    let current = RuntimeConfig::from_file(&file(10000));
    let mut handler = loading(&current);
    let mut expected = vec![
        Effect::Store(RuntimeConfig::from_file(&file(10001))),
        Effect::Publish(Action::Reload(true)),
    ];
    expected.extend(closing(10001));
    assert_eq!(handler.step(HandlerEvent::Loaded(Ok(file(10001))), &current), expected);
    assert_eq!(handler.phase(), HandlerPhase::Listening);
}

#[test]
fn sighup_with_new_rules_publishes_reload_false() {
    let current = RuntimeConfig::from_file(&file(10000));
    let mut handler = loading(&current);
    let mut changed = file(10000);
    changed.udp[0].upstream_port = 5353;
    let mut expected = vec![
        Effect::Store(RuntimeConfig::from_file(&changed)),
        Effect::Publish(Action::Reload(false)),
    ];
    expected.extend(closing(10000));
    assert_eq!(handler.step(HandlerEvent::Loaded(Ok(changed)), &current), expected);
}

#[test]
fn sighup_with_a_bad_file_keeps_the_snapshot() {
    let current = RuntimeConfig::from_file(&file(10000));
    let mut handler = loading(&current);
    let mut expected = vec![Effect::Log(LogLine {
        level: Level::Error,
        text: "Failed to deserialize configuration file - EOF".to_string(),
    })];
    expected.extend(closing(10000));
    assert_eq!(
        handler.step(
            HandlerEvent::Loaded(Err("Failed to deserialize configuration file - EOF".to_string())),
            &current
        ),
        expected
    );
    assert_eq!(handler.phase(), HandlerPhase::Listening);
}

#[test]
fn sighup_without_a_clock_still_reloads() {
    let current = RuntimeConfig::from_file(&file(10000));
    let mut handler = SignalHandler::new(Action::Init);
    handler.step(HandlerEvent::Signal(Signal::Hangup), &current);
    assert_eq!(
        handler.step(HandlerEvent::Clock(Err("EINVAL".to_string())), &current),
        vec![
            Effect::Log(LogLine {
                level: Level::Warn,
                text: "Systemd RELOADING notify skipped as CLOCK_MONOTONIC cannot be determined - EINVAL"
                    .to_string()
            }),
            Effect::ReadConfig
        ]
    );
    assert_eq!(handler.phase(), HandlerPhase::Loading);

    let mut expected = vec![
        Effect::Store(RuntimeConfig::from_file(&file(10001))),
        Effect::Publish(Action::Reload(true)),
    ];
    expected.extend(closing(10001));
    assert_eq!(handler.step(HandlerEvent::Loaded(Ok(file(10001))), &current), expected);
    assert_eq!(handler.phase(), HandlerPhase::Listening);
}

#[test]
fn sighup_without_a_clock_and_with_an_unchanged_file_publishes_nothing() {
    let current = RuntimeConfig::from_file(&file(10000));
    let mut handler = SignalHandler::new(Action::Init);
    handler.step(HandlerEvent::Signal(Signal::Hangup), &current);
    handler.step(HandlerEvent::Clock(Err("EINVAL".to_string())), &current);
    let effects = handler.step(HandlerEvent::Loaded(Ok(file(10000))), &current);
    assert!(!effects.iter().any(|e| matches!(e, Effect::Publish(_) | Effect::Store(_))));
    assert_eq!(handler.phase(), HandlerPhase::Listening);
}

#[test]
fn handler_reloads_again_and_again() {
    let mut current = RuntimeConfig::from_file(&file(10000));
    let mut handler = SignalHandler::new(Action::Init);
    for port in [10001u16, 10002, 10003] {
        handler.step(HandlerEvent::Signal(Signal::Hangup), &current);
        handler.step(HandlerEvent::Clock(Ok(1)), &current);
        let effects = handler.step(HandlerEvent::Loaded(Ok(file(port))), &current);
        assert_eq!(effects[1], Effect::Publish(Action::Reload(true)));
        current = RuntimeConfig::from_file(&file(port));
        assert!(!handler.has_exited());
    }
}

#[test]
fn terminate_during_a_reload_still_shuts_down() {
    let current = RuntimeConfig::from_file(&file(10000));
    let mut handler = loading(&current);
    assert_eq!(handler.step(HandlerEvent::Signal(Signal::Hangup), &current), vec![]);
    assert_eq!(handler.phase(), HandlerPhase::Loading);
    assert_eq!(
        handler.step(HandlerEvent::Signal(Signal::Terminate), &current),
        vec![Effect::Publish(Action::Shutdown), Effect::Exit]
    );
    assert!(handler.has_exited());
}

#[test]
fn stray_reports_are_ignored() {
    let current = RuntimeConfig::from_file(&file(10000));
    let mut handler = SignalHandler::new(Action::Init);
    assert_eq!(handler.step(HandlerEvent::Clock(Ok(5)), &current), vec![]);
    assert_eq!(handler.step(HandlerEvent::Loaded(Ok(file(10001))), &current), vec![]);
    assert_eq!(handler.phase(), HandlerPhase::Listening);
}
