//! The supervisor: it starts the three workers, watches them end, and on
//! the first one that fails or panics tells the others to stop.

use crate::action::{Action, Worker};
use crate::log::{join, join3, Level, LogLine};
use crate::relay::Io;
use vstd::prelude::*;
use vstd::string::*;

verus! {

/// Number of workers the supervisor starts.
pub const WORKERS: u8 = 3;

/// How one worker ended, as the supervisor learns it.
#[derive(Debug, PartialEq, Eq)]
pub enum Report {
    /// The worker returned, cleanly or with an error.
    Returned { worker: Worker, result: Io<()> },
    /// The worker could not be joined: it panicked or was cancelled.
    JoinFailed { error: String },
}

/// What the supervisor is, as plain values.
pub struct SupervisorState {
    /// Whether a failure has been answered with an action already.
    pub alarmed: bool,
    /// Workers that have not ended yet.
    pub running: u8,
}

/// What the supervisor does about one report.
#[derive(Debug, PartialEq, Eq)]
pub struct Verdict {
    /// The action to put on the bus, if any.
    pub publish: Option<Action>,
    /// The line for the log.
    pub line: LogLine,
    /// Whether every worker has ended: tell the service manager that the
    /// service is stopping, and return success.
    pub finished: bool,
}

/// A supervisor that has just started its workers.
pub open spec fn started() -> SupervisorState {
    SupervisorState { alarmed: false, running: WORKERS }
}

/// The action a report calls for by itself: `Stop` with the worker's name
/// for a worker that returned an error, `Panicked` for one that could not
/// be joined, none for one that ended cleanly.
pub open spec fn alarm_of(report: Report) -> Option<Action> {
    match report {
        Report::Returned { worker, result: Ok(_) } => None,
        Report::Returned { worker, result: Err(_) } => Some(Action::Stop(worker)),
        Report::JoinFailed { .. } => Some(Action::Panicked),
    }
}

/// The action the supervisor publishes for `report`: the one the report
/// calls for, unless an earlier failure was answered already.
pub open spec fn published(state: SupervisorState, report: Report) -> Option<Action> {
    if state.alarmed {
        None
    } else {
        alarm_of(report)
    }
}

/// The supervisor after `report`.
pub open spec fn supervise(state: SupervisorState, report: Report) -> SupervisorState {
    SupervisorState {
        alarmed: state.alarmed || alarm_of(report) is Some,
        running: if state.running > 0 {
            (state.running - 1) as u8
        } else {
            0
        },
    }
}

/// The level of the line that records `report`.
pub open spec fn report_level(report: Report) -> Level {
    match report {
        Report::Returned { worker, result: Ok(_) } => Level::Info,
        _ => Level::Error,
    }
}

/// The text of the line that records `report`.
pub open spec fn report_text(report: Report) -> Seq<char> {
    match report {
        Report::Returned { worker, result: Ok(_) } => worker.spec_label() + " - exited cleanly"@,
        Report::Returned { worker, result: Err(error) } => worker.spec_label() + " - error: "@
            + error@,
        Report::JoinFailed { error } => "Task join error: "@ + error@,
    }
}

/// The supervisor after a run of reports, first to last.
pub open spec fn supervise_all(state: SupervisorState, reports: Seq<Report>) -> SupervisorState
    decreases reports.len(),
{
    if reports.len() == 0 {
        state
    } else {
        supervise(supervise_all(state, reports.drop_last()), reports.last())
    }
}

/// The supervisor.
pub struct Supervisor {
    alarmed: bool,
    running: u8,
}

impl View for Supervisor {
    type V = SupervisorState;

    closed spec fn view(&self) -> SupervisorState {
        SupervisorState { alarmed: self.alarmed, running: self.running }
    }
}

impl Supervisor {
    /// A supervisor that has just started its workers.
    pub fn new() -> (supervisor: Supervisor)
        ensures
            supervisor@ == started(),
    {
        Supervisor { alarmed: false, running: WORKERS }
    }

    /// Workers that have not ended yet.
    pub fn running(&self) -> (running: u8)
        ensures
            running == self@.running,
    {
        self.running
    }

    /// Whether a failure has been answered with an action already.
    pub fn alarmed(&self) -> (alarmed: bool)
        ensures
            alarmed == self@.alarmed,
    {
        self.alarmed
    }

    /// Takes in how one worker ended.
    pub fn on_report(&mut self, report: Report) -> (verdict: Verdict)
        ensures
            final(self)@ == supervise(old(self)@, report),
            verdict.publish == published(old(self)@, report),
            verdict.line.level == report_level(report),
            verdict.line.text@ == report_text(report),
            verdict.finished == (final(self)@.running == 0),
    {
        let (alarm, line) = match report {
            Report::Returned { worker, result: Ok(_) } => (
                None,
                LogLine { level: Level::Info, text: join(worker.label(), " - exited cleanly") },
            ),
            Report::Returned { worker, result: Err(error) } => (
                Some(Action::Stop(worker)),
                LogLine {
                    level: Level::Error,
                    text: join3(worker.label(), " - error: ", error.as_str()),
                },
            ),
            Report::JoinFailed { error } => (
                Some(Action::Panicked),
                LogLine { level: Level::Error, text: join("Task join error: ", error.as_str()) },
            ),
        };
        let publish = if self.alarmed {
            None
        } else {
            alarm
        };
        if alarm.is_some() {
            self.alarmed = true;
        }
        if self.running > 0 {
            self.running = self.running - 1;
        }
        Verdict { publish, line, finished: self.running == 0 }
    }
}

/// The first failure decides. A supervisor that has answered one failure
/// publishes nothing more, whatever the other workers report and in
/// whatever order.
pub proof fn lemma_first_failure_wins(
    state: SupervisorState,
    first: Report,
    later: Seq<Report>,
    next: Report,
)
    requires
        alarm_of(first) is Some,
    ensures
        !state.alarmed ==> published(state, first) == alarm_of(first),
        supervise_all(supervise(state, first), later).alarmed,
        published(supervise_all(supervise(state, first), later), next) is None,
    decreases later.len(),
{
    if later.len() > 0 {
        lemma_first_failure_wins(state, first, later.drop_last(), later.last());
    }
}

/// While every worker ends cleanly the supervisor publishes nothing, and
/// it is finished exactly when the last of its workers has ended.
pub proof fn lemma_clean_exit()
    ensures
        ({
            let clean = |worker: Worker| Report::Returned { worker, result: Ok(()) };
            let one = supervise(started(), clean(Worker::UdpForwarder));
            let two = supervise(one, clean(Worker::TcpForwarder));
            let three = supervise(two, clean(Worker::SignalHandler));
            &&& published(started(), clean(Worker::UdpForwarder)) is None
            &&& published(one, clean(Worker::TcpForwarder)) is None
            &&& published(two, clean(Worker::SignalHandler)) is None
            &&& one.running == 2
            &&& two.running == 1
            &&& three.running == 0
            &&& !three.alarmed
        }),
{
}

} // verus!
