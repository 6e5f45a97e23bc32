//! The signal handler: which action each signal publishes, when the
//! handler leaves, and how a hangup reloads the configuration.
//!
//! The handler is a state machine. Its driver waits for signals and for
//! changes on the action bus, reports each as a [`HandlerEvent`], and
//! carries out the effects it gets back, in order.

use crate::action::Action;
use crate::addr::{listen_ip, spec_listen_ip, SockAddr};
use crate::config::{snapshot_of, FileConfig, RuntimeConfig, Snapshot};
use crate::forwarder::{react, rebound, Command, ForwarderState, Phase};
use crate::log::{join, Level, LogLine};
use crate::relay::Io;
use crate::socket::spec_listen_plan;
use vstd::prelude::*;
use vstd::string::*;

verus! {

/// The signals the handler subscribes to.
#[derive(Clone, Copy, Debug, PartialEq, Eq, Structural)]
pub enum Signal {
    Interrupt,
    Terminate,
    Quit,
    Hangup,
}

/// A message for the service manager.
#[derive(Debug, PartialEq, Eq)]
pub enum Notice {
    /// The service is up, or up again after a reload.
    Ready,
    /// A reload began when the monotonic clock read `monotonic_usec`.
    Reloading { monotonic_usec: u64 },
    /// One line of status.
    Status { text: String },
    /// The service is going down.
    Stopping,
}

/// A [`Notice`] as plain values.
pub enum NoticeView {
    Ready,
    Reloading { monotonic_usec: u64 },
    Status { text: Seq<char> },
    Stopping,
}

impl View for Notice {
    type V = NoticeView;

    open spec fn view(&self) -> NoticeView {
        match self {
            Notice::Ready => NoticeView::Ready,
            Notice::Reloading { monotonic_usec } => NoticeView::Reloading {
                monotonic_usec: *monotonic_usec,
            },
            Notice::Status { text } => NoticeView::Status { text: text@ },
            Notice::Stopping => NoticeView::Stopping,
        }
    }
}

/// Where the handler is in its life.
#[derive(Clone, Copy, Debug, PartialEq, Eq, Structural)]
pub enum HandlerPhase {
    /// Waiting for signals.
    Listening,
    /// A reload began; waiting for the clock.
    Reloading,
    /// A reload is under way; waiting for the configuration file.
    Loading,
    /// Left; whatever comes now is dropped.
    Exited,
}

/// What the driver reports to the handler.
#[derive(Debug, PartialEq, Eq)]
pub enum HandlerEvent {
    /// A signal arrived.
    Signal(Signal),
    /// The action bus changed and now holds this action; `None` if the
    /// bus is gone.
    Bus(Option<Action>),
    /// The monotonic clock in microseconds, or why it cannot be read.
    Clock(Io<u64>),
    /// The configuration file as parsed, or why it cannot be had.
    Loaded(Io<FileConfig>),
}

/// One thing the driver has to do.
#[derive(Debug, PartialEq, Eq)]
pub enum Effect {
    /// Read the monotonic clock and report it.
    ReadClock,
    /// Read and parse the configuration file and report it.
    ReadConfig,
    /// Tell the service manager; a failure is a warning, no more.
    Notify(Notice),
    /// Make this snapshot the current one, in one atomic swap.
    Store(RuntimeConfig),
    /// Put this action on the bus.
    Publish(Action),
    /// Write this line to the log.
    Log(LogLine),
    /// Leave.
    Exit,
}

/// An [`Effect`] as plain values.
pub enum EffectView {
    ReadClock,
    ReadConfig,
    Notify(NoticeView),
    Store(Snapshot),
    Publish(Action),
    Log { level: Level, text: Seq<char> },
    Exit,
}

impl View for Effect {
    type V = EffectView;

    open spec fn view(&self) -> EffectView {
        match self {
            Effect::ReadClock => EffectView::ReadClock,
            Effect::ReadConfig => EffectView::ReadConfig,
            Effect::Notify(notice) => EffectView::Notify(notice@),
            Effect::Store(config) => EffectView::Store(config@),
            Effect::Publish(action) => EffectView::Publish(*action),
            Effect::Log(line) => EffectView::Log { level: line.level, text: line.text@ },
            Effect::Exit => EffectView::Exit,
        }
    }
}

/// The effects in `effects`, each as plain values.
pub open spec fn views(effects: Seq<Effect>) -> Seq<EffectView> {
    Seq::new(effects.len(), |i: int| effects[i]@)
}

/// The status line for a service that listens on `port`.
pub open spec fn status_text(port: u16) -> Seq<char> {
    "Configured to listen at "@ + (SockAddr { ip: spec_listen_ip(), port }).text()
}

/// The two notices that close every reload, whether it changed anything
/// or not: the service is ready, and it listens on `port`.
pub open spec fn reload_closing(port: u16) -> Seq<EffectView> {
    seq![
        EffectView::Notify(NoticeView::Ready),
        EffectView::Notify(NoticeView::Status { text: status_text(port) }),
    ]
}

/// What a signal asks of a handler that has not left: interrupt and
/// terminate publish `Shutdown`, quit publishes `Kill`, and all three
/// make the handler leave; a hangup begins a reload unless one is under
/// way.
pub open spec fn on_signal(phase: HandlerPhase, signal: Signal) -> (HandlerPhase, Seq<EffectView>) {
    match signal {
        Signal::Interrupt | Signal::Terminate => (
            HandlerPhase::Exited,
            seq![EffectView::Publish(Action::Shutdown), EffectView::Exit],
        ),
        Signal::Quit => (
            HandlerPhase::Exited,
            seq![EffectView::Publish(Action::Kill), EffectView::Exit],
        ),
        Signal::Hangup => if phase == HandlerPhase::Listening {
            (HandlerPhase::Reloading, seq![EffectView::ReadClock])
        } else {
            (phase, seq![])
        },
    }
}

/// What a change on the bus asks of a handler that has not left: it
/// leaves when a worker failed or panicked, or when the bus is gone.
pub open spec fn on_bus(phase: HandlerPhase, action: Option<Action>) -> (
    HandlerPhase,
    Seq<EffectView>,
) {
    match action {
        Some(Action::Stop(_)) | Some(Action::Panicked) => (
            HandlerPhase::Exited,
            seq![EffectView::Exit],
        ),
        Some(_) => (phase, seq![]),
        None => (
            HandlerPhase::Exited,
            seq![
                EffectView::Log { level: Level::Error, text: bus_closed_text() },
                EffectView::Exit,
            ],
        ),
    }
}

pub open spec fn bus_closed_text() -> Seq<char> {
    "Signal channel closed...Shutting down Signal handler..."@
}

pub open spec fn clock_failed_text(error: Seq<char>) -> Seq<char> {
    "Systemd RELOADING notify skipped as CLOCK_MONOTONIC cannot be determined - "@ + error
}

pub open spec fn unchanged_text() -> Seq<char> {
    "Configuration unchanged"@
}

/// What the clock reading asks of a handler that began a reload. The
/// reading serves only to tell the service manager that a reload began:
/// with it the service manager is told, without it a warning is logged in
/// place of the notice. Either way the file is read next.
pub open spec fn on_clock(clock: Io<u64>) -> (HandlerPhase, Seq<EffectView>) {
    match clock {
        Ok(monotonic_usec) => (
            HandlerPhase::Loading,
            seq![
                EffectView::Notify(NoticeView::Reloading { monotonic_usec }),
                EffectView::ReadConfig,
            ],
        ),
        Err(error) => (
            HandlerPhase::Loading,
            seq![
                EffectView::Log { level: Level::Warn, text: clock_failed_text(error@) },
                EffectView::ReadConfig,
            ],
        ),
    }
}

/// What the file asks of a handler that waits for it. A file that cannot
/// be had, or that says what `current` says, changes nothing. Any other
/// file becomes the new snapshot, which is stored before `Reload` is
/// published, so that whoever sees the action sees the snapshot; the flag
/// of `Reload` says whether the listen port changed.
pub open spec fn on_loaded(loaded: Io<FileConfig>, current: Snapshot) -> Seq<EffectView> {
    match loaded {
        Err(error) => seq![EffectView::Log { level: Level::Error, text: error@ }]
            + reload_closing(current.listen_port),
        Ok(file) => if snapshot_of(file) == current {
            seq![EffectView::Log { level: Level::Info, text: unchanged_text() }] + reload_closing(
                current.listen_port,
            )
        } else {
            seq![
                EffectView::Store(snapshot_of(file)),
                EffectView::Publish(Action::Reload(file.port != current.listen_port)),
            ] + reload_closing(file.port)
        },
    }
}

/// The transition function of the handler: the new phase and the effects
/// to carry out, in order. `current` is the snapshot in force.
pub open spec fn handler_next(phase: HandlerPhase, event: HandlerEvent, current: Snapshot) -> (
    HandlerPhase,
    Seq<EffectView>,
) {
    if phase == HandlerPhase::Exited {
        (phase, seq![])
    } else {
        match event {
            HandlerEvent::Signal(signal) => on_signal(phase, signal),
            HandlerEvent::Bus(action) => on_bus(phase, action),
            HandlerEvent::Clock(clock) => if phase == HandlerPhase::Reloading {
                on_clock(clock)
            } else {
                (phase, seq![])
            },
            HandlerEvent::Loaded(loaded) => if phase == HandlerPhase::Loading {
                (HandlerPhase::Listening, on_loaded(loaded, current))
            } else {
                (phase, seq![])
            },
        }
    }
}

/// The phase a handler starts in, given what the bus holds at that
/// moment: it does not start at all if a worker has failed or panicked.
pub open spec fn handler_start(action: Action) -> HandlerPhase {
    match action {
        Action::Stop(_) | Action::Panicked => HandlerPhase::Exited,
        _ => HandlerPhase::Listening,
    }
}

/// Writes the status line for a service that listens on `port`.
pub fn status_line(port: u16) -> (text: String)
    ensures
        text@ == status_text(port),
{
    join("Configured to listen at ", SockAddr { ip: listen_ip(), port }.to_text().as_str())
}

/// The signal handler.
pub struct SignalHandler {
    phase: HandlerPhase,
}

impl View for SignalHandler {
    type V = HandlerPhase;

    closed spec fn view(&self) -> HandlerPhase {
        self.phase
    }
}

impl SignalHandler {
    /// A handler that starts while the bus holds `action`.
    pub fn new(action: Action) -> (handler: SignalHandler)
        ensures
            handler@ == handler_start(action),
    {
        SignalHandler {
            phase: match action {
                Action::Stop(_) | Action::Panicked => HandlerPhase::Exited,
                _ => HandlerPhase::Listening,
            },
        }
    }

    pub fn phase(&self) -> (phase: HandlerPhase)
        ensures
            phase == self@,
    {
        self.phase
    }

    /// Whether the handler has left.
    pub fn has_exited(&self) -> (exited: bool)
        ensures
            exited == (self@ == HandlerPhase::Exited),
    {
        self.phase == HandlerPhase::Exited
    }

    /// Takes in one event and says what to do, in order. `current` is the
    /// snapshot in force.
    pub fn step(&mut self, event: HandlerEvent, current: &RuntimeConfig) -> (effects: Vec<Effect>)
        ensures
            (final(self)@, views(effects@)) == handler_next(old(self)@, event, current@),
    {
        let mut effects: Vec<Effect> = Vec::new();
        if self.phase == HandlerPhase::Exited {
            assert(views(effects@) =~= seq![]);
            return effects;
        }
        match event {
            HandlerEvent::Signal(signal) => match signal {
                Signal::Interrupt | Signal::Terminate => {
                    self.phase = HandlerPhase::Exited;
                    effects.push(Effect::Publish(Action::Shutdown));
                    effects.push(Effect::Exit);
                    assert(views(effects@) =~= seq![
                        EffectView::Publish(Action::Shutdown),
                        EffectView::Exit,
                    ]);
                },
                Signal::Quit => {
                    self.phase = HandlerPhase::Exited;
                    effects.push(Effect::Publish(Action::Kill));
                    effects.push(Effect::Exit);
                    assert(views(effects@) =~= seq![
                        EffectView::Publish(Action::Kill),
                        EffectView::Exit,
                    ]);
                },
                Signal::Hangup => {
                    if self.phase == HandlerPhase::Listening {
                        self.phase = HandlerPhase::Reloading;
                        effects.push(Effect::ReadClock);
                        assert(views(effects@) =~= seq![EffectView::ReadClock]);
                    } else {
                        assert(views(effects@) =~= seq![]);
                    }
                },
            },
            HandlerEvent::Bus(action) => match action {
                Some(Action::Stop(_)) | Some(Action::Panicked) => {
                    self.phase = HandlerPhase::Exited;
                    effects.push(Effect::Exit);
                    assert(views(effects@) =~= seq![EffectView::Exit]);
                },
                Some(_) => {
                    assert(views(effects@) =~= seq![]);
                },
                None => {
                    self.phase = HandlerPhase::Exited;
                    effects.push(
                        Effect::Log(
                            LogLine {
                                level: Level::Error,
                                text: String::from_str(
                                    "Signal channel closed...Shutting down Signal handler...",
                                ),
                            },
                        ),
                    );
                    effects.push(Effect::Exit);
                    assert(views(effects@) =~= seq![
                        EffectView::Log { level: Level::Error, text: bus_closed_text() },
                        EffectView::Exit,
                    ]);
                },
            },
            HandlerEvent::Clock(clock) => {
                if self.phase == HandlerPhase::Reloading {
                    match clock {
                        Ok(monotonic_usec) => {
                            self.phase = HandlerPhase::Loading;
                            effects.push(Effect::Notify(Notice::Reloading { monotonic_usec }));
                            effects.push(Effect::ReadConfig);
                            assert(views(effects@) =~= seq![
                                EffectView::Notify(NoticeView::Reloading { monotonic_usec }),
                                EffectView::ReadConfig,
                            ]);
                        },
                        Err(error) => {
                            self.phase = HandlerPhase::Loading;
                            effects.push(
                                Effect::Log(
                                    LogLine {
                                        level: Level::Warn,
                                        text: join(
                                            "Systemd RELOADING notify skipped as CLOCK_MONOTONIC cannot be determined - ",
                                            error.as_str(),
                                        ),
                                    },
                                ),
                            );
                            effects.push(Effect::ReadConfig);
                            assert(views(effects@) =~= seq![
                                EffectView::Log {
                                    level: Level::Warn,
                                    text: clock_failed_text(error@),
                                },
                                EffectView::ReadConfig,
                            ]);
                        },
                    }
                } else {
                    assert(views(effects@) =~= seq![]);
                }
            },
            HandlerEvent::Loaded(loaded) => {
                if self.phase == HandlerPhase::Loading {
                    self.phase = HandlerPhase::Listening;
                    let port: u16;
                    match loaded {
                        Err(error) => {
                            port = current.listen_port;
                            effects.push(Effect::Log(LogLine { level: Level::Error, text: error }));
                        },
                        Ok(file) => {
                            let fresh = RuntimeConfig::from_file(&file);
                            if current.same_as(&fresh) {
                                port = current.listen_port;
                                effects.push(
                                    Effect::Log(
                                        LogLine {
                                            level: Level::Info,
                                            text: String::from_str("Configuration unchanged"),
                                        },
                                    ),
                                );
                            } else {
                                port = fresh.listen_port;
                                let port_changed = fresh.listen_port != current.listen_port;
                                effects.push(Effect::Store(fresh));
                                effects.push(Effect::Publish(Action::Reload(port_changed)));
                            }
                        },
                    }
                    effects.push(Effect::Notify(Notice::Ready));
                    effects.push(Effect::Notify(Notice::Status { text: status_line(port) }));
                    assert(views(effects@) =~= on_loaded(loaded, current@));
                } else {
                    assert(views(effects@) =~= seq![]);
                }
            },
        }
        effects
    }
}

/// Whether `effect` changes what the workers run on: a new snapshot or an
/// action on the bus.
pub open spec fn touches_workers(effect: EffectView) -> bool {
    effect is Store || effect is Publish
}

/// The table of signals. A handler that has not left answers interrupt
/// and terminate with `Shutdown`, quit with `Kill`, and leaves after
/// each; a hangup publishes nothing by itself and the handler stays.
pub proof fn lemma_signal_table(phase: HandlerPhase, current: Snapshot)
    requires
        phase != HandlerPhase::Exited,
    ensures
        handler_next(phase, HandlerEvent::Signal(Signal::Interrupt), current) == (
            HandlerPhase::Exited,
            seq![EffectView::Publish(Action::Shutdown), EffectView::Exit],
        ),
        handler_next(phase, HandlerEvent::Signal(Signal::Terminate), current) == (
            HandlerPhase::Exited,
            seq![EffectView::Publish(Action::Shutdown), EffectView::Exit],
        ),
        handler_next(phase, HandlerEvent::Signal(Signal::Quit), current) == (
            HandlerPhase::Exited,
            seq![EffectView::Publish(Action::Kill), EffectView::Exit],
        ),
        handler_next(phase, HandlerEvent::Signal(Signal::Hangup), current).0
            != HandlerPhase::Exited,
        forall|i: int|
            0 <= i < handler_next(phase, HandlerEvent::Signal(Signal::Hangup), current).1.len()
                ==> !touches_workers(
                #[trigger] handler_next(phase, HandlerEvent::Signal(Signal::Hangup), current).1[i],
            ),
{
}

/// The first event that makes the handler leave wins: whatever is
/// reported afterwards is dropped.
pub proof fn lemma_events_after_exit_are_dropped(event: HandlerEvent, current: Snapshot)
    ensures
        handler_next(HandlerPhase::Exited, event, current) == (
            HandlerPhase::Exited,
            Seq::<EffectView>::empty(),
        ),
{
}

/// Reload idempotence. A hangup that finds the file saying what the
/// current snapshot says stores nothing and publishes nothing, so no
/// worker hears of it and no listen socket is touched; the service
/// manager is still told that the service is ready on the port it had.
pub proof fn lemma_reload_of_unchanged_file(file: FileConfig, current: Snapshot)
    requires
        snapshot_of(file) == current,
    ensures
        ({
            let (phase, effects) = handler_next(
                HandlerPhase::Loading,
                HandlerEvent::Loaded(Ok(file)),
                current,
            );
            &&& phase == HandlerPhase::Listening
            &&& forall|i: int| 0 <= i < effects.len() ==> !touches_workers(#[trigger] effects[i])
            &&& effects == seq![EffectView::Log { level: Level::Info, text: unchanged_text() }]
                + reload_closing(current.listen_port)
        }),
{
}

/// A file that cannot be read or parsed changes nothing either: the
/// failure is logged and the current snapshot stays.
pub proof fn lemma_reload_of_bad_file(error: String, current: Snapshot)
    ensures
        ({
            let (phase, effects) = handler_next(
                HandlerPhase::Loading,
                HandlerEvent::Loaded(Err(error)),
                current,
            );
            &&& phase == HandlerPhase::Listening
            &&& forall|i: int| 0 <= i < effects.len() ==> !touches_workers(#[trigger] effects[i])
            &&& effects[0] == (EffectView::Log { level: Level::Error, text: error@ })
        }),
{
}

/// The clock decides nothing about a reload. Whether or not it can be
/// read, the handler goes on to read the file; a failed reading costs the
/// `Reloading` notice, is logged as a warning, and touches no worker.
pub proof fn lemma_clock_never_stops_a_reload(clock: Io<u64>, current: Snapshot)
    ensures
        ({
            let (phase, effects) = handler_next(
                HandlerPhase::Reloading,
                HandlerEvent::Clock(clock),
                current,
            );
            &&& phase == HandlerPhase::Loading
            &&& effects.len() == 2
            &&& effects[1] == EffectView::ReadConfig
            &&& !touches_workers(effects[0])
            &&& clock matches Ok(monotonic_usec) ==> effects[0] == EffectView::Notify(
                NoticeView::Reloading { monotonic_usec },
            )
            &&& clock matches Err(error) ==> effects[0] == (EffectView::Log {
                level: Level::Warn,
                text: clock_failed_text(error@),
            })
        }),
{
}

/// Port-change reload. A hangup that finds a file with another listen
/// port stores the new snapshot, then publishes `Reload(true)`, then
/// reports the new port, whether or not the clock could be read on the
/// way. A running forwarder that sees that action is told to open its
/// listen socket on the new port, and once the socket is open it listens
/// on the new port and no longer on the old one.
pub proof fn lemma_reload_with_new_port(
    clock: Io<u64>,
    file: FileConfig,
    current: Snapshot,
    forwarder: ForwarderState,
    now: u64,
)
    requires
        file.port != current.listen_port,
        forwarder.phase == Phase::Running,
    ensures
        ({
            let (hung_up, first) = handler_next(
                HandlerPhase::Listening,
                HandlerEvent::Signal(Signal::Hangup),
                current,
            );
            let (timed, second) = handler_next(hung_up, HandlerEvent::Clock(clock), current);
            let (phase, effects) = handler_next(timed, HandlerEvent::Loaded(Ok(file)), current);
            let (after, command) = react(forwarder, Action::Reload(true), file.port, now);
            &&& first == seq![EffectView::ReadClock]
            &&& second.last() == EffectView::ReadConfig
            &&& phase == HandlerPhase::Listening
            &&& effects == seq![
                EffectView::Store(snapshot_of(file)),
                EffectView::Publish(Action::Reload(true)),
                EffectView::Notify(NoticeView::Ready),
                EffectView::Notify(NoticeView::Status { text: status_text(file.port) }),
            ]
            &&& command == (Command::Adopt {
                rebind: Some(spec_listen_plan(forwarder.transport, file.port)),
            })
            &&& spec_listen_plan(forwarder.transport, file.port).bind.port == file.port
            &&& rebound(after, file.port, true).port == file.port
            &&& rebound(after, file.port, true).port != current.listen_port
        }),
{
    let effects = on_loaded(Ok(file), current);
    assert(effects =~= seq![
        EffectView::Store(snapshot_of(file)),
        EffectView::Publish(Action::Reload(true)),
        EffectView::Notify(NoticeView::Ready),
        EffectView::Notify(NoticeView::Status { text: status_text(file.port) }),
    ]);
}

/// Every hangup reaches the file. From a handler that listens, a hangup
/// and whatever the clock says lead to the reading of the file, and what
/// the file says is then carried out: nothing on the way can give the
/// reload up.
pub proof fn lemma_hangup_always_loads(clock: Io<u64>, loaded: Io<FileConfig>, current: Snapshot)
    ensures
        ({
            let (hung_up, first) = handler_next(
                HandlerPhase::Listening,
                HandlerEvent::Signal(Signal::Hangup),
                current,
            );
            let (timed, second) = handler_next(hung_up, HandlerEvent::Clock(clock), current);
            let (phase, effects) = handler_next(timed, HandlerEvent::Loaded(loaded), current);
            &&& hung_up == HandlerPhase::Reloading
            &&& timed == HandlerPhase::Loading
            &&& phase == HandlerPhase::Listening
            &&& effects == on_loaded(loaded, current)
        }),
{
}

/// Whenever a reload publishes, the snapshot is stored first: the effect
/// before a `Publish(Reload(..))` is the `Store` of the snapshot the file
/// stands for, and the flag says whether the listen port changed.
pub proof fn lemma_store_comes_before_publish(loaded: Io<FileConfig>, current: Snapshot)
    ensures
        ({
            let effects = on_loaded(loaded, current);
            forall|i: int|
                0 <= i < effects.len() && (#[trigger] effects[i]) is Publish ==> {
                    &&& loaded is Ok
                    &&& i == 1
                    &&& effects[0] == EffectView::Store(snapshot_of(loaded->Ok_0))
                    &&& snapshot_of(loaded->Ok_0) != current
                    &&& effects[i] == EffectView::Publish(
                        Action::Reload(loaded->Ok_0.port != current.listen_port),
                    )
                }
        }),
{
}

} // verus!
