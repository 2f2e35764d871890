//! The launcher as a state machine. The driver performs each [`Action`] and
//! hands its outcome back as an [`Event`]; every decision is taken here.

use vstd::prelude::*;
use vstd::slice::slice_to_vec;
use crate::config::{read_error, resolution, resolve_target, ReadOutcome};
use crate::log::{
    forwarded, forwarded_texts, header_text, invocation_line, log_path, log_path_text,
    millis_or_zero, texts, timestamp,
};
use crate::report::{diagnostic, diagnostic_text, opt_text};
use crate::status::{wait_error, wait_termination, Failure, Termination, WaitOutcome};

verus! {

/// What the launcher is waiting for.
#[derive(Clone, Copy, Debug, PartialEq, Eq, Structural)]
pub enum Phase {
    /// Nothing has happened yet.
    Start,
    /// The configuration file is being read.
    Config,
    /// The missing configuration file is being created.
    ConfigCreate,
    /// The clock is being read.
    Clock,
    /// The log file is being created.
    LogCreate,
    /// The invocation line is being written to the log.
    Header,
    /// The target is being started.
    Spawn,
    /// The next chunk of the target's output is being read.
    Read,
    /// A chunk is being written to the log.
    LogWrite,
    /// A chunk is being written to standard output.
    StdoutWrite,
    /// The target's end is being waited for.
    Wait,
    /// The run is over.
    Done,
}

/// The outcome of the step that the launcher asked for last. A step that can
/// fail reports the system's error text where it did.
#[derive(Debug, PartialEq, Eq)]
pub enum Event {
    /// The driver is ready.
    Started,
    /// The configuration file was read, or could not be.
    ConfigRead(ReadOutcome),
    /// An empty configuration file was created, or could not be.
    ConfigCreated(Result<(), String>),
    /// The clock gave this many milliseconds since the epoch, or no reading.
    Clock(Option<u128>),
    /// The log file was created, or could not be.
    LogCreated(Result<(), String>),
    /// The invocation line was written, or could not be.
    HeaderWritten(Result<(), String>),
    /// The target was started, or could not be.
    Spawned(Result<(), String>),
    /// Reading the target's output gave these bytes, none where the stream is
    /// closed, or failed.
    Read(Option<Vec<u8>>),
    /// The chunk was written to the log, or could not be.
    LogWritten(Result<(), String>),
    /// The chunk was written to standard output, or could not be.
    StdoutWritten(Result<(), String>),
    /// The wait for the target returned.
    Waited(WaitOutcome),
}

/// What the driver is to do next.
#[derive(Debug, PartialEq, Eq)]
pub enum Action {
    /// Read the configuration file.
    ReadConfig,
    /// Create an empty configuration file.
    CreateConfig,
    /// Read the clock.
    ReadClock,
    /// Create the log file at this path, emptying it if it exists.
    CreateLog(String),
    /// Write this line to the log.
    WriteHeader(String),
    /// Start the target with these arguments and capture its standard output.
    Spawn { program: String, args: Vec<String> },
    /// Read the next chunk of the target's output.
    ReadOutput,
    /// Write these bytes to the log.
    WriteLog(Vec<u8>),
    /// Write these bytes to standard output.
    WriteStdout(Vec<u8>),
    /// Wait for the target to end.
    Wait,
    /// Print the diagnostic, if there is one, to the error stream and end the
    /// process in this way.
    Exit { termination: Termination, diagnostic: Option<String> },
}

/// An action as a mathematical value.
pub enum ActionView {
    ReadConfig,
    CreateConfig,
    ReadClock,
    CreateLog(Seq<char>),
    WriteHeader(Seq<char>),
    Spawn { program: Seq<char>, args: Seq<Seq<char>> },
    ReadOutput,
    WriteLog(Seq<u8>),
    WriteStdout(Seq<u8>),
    Wait,
    Exit { termination: Termination, diagnostic: Option<Seq<char>> },
}

impl View for Action {
    type V = ActionView;

    open spec fn view(&self) -> ActionView {
        match *self {
            Action::ReadConfig => ActionView::ReadConfig,
            Action::CreateConfig => ActionView::CreateConfig,
            Action::ReadClock => ActionView::ReadClock,
            Action::CreateLog(path) => ActionView::CreateLog(path@),
            Action::WriteHeader(line) => ActionView::WriteHeader(line@),
            Action::Spawn { program, args } => ActionView::Spawn {
                program: program@,
                args: texts(args@),
            },
            Action::ReadOutput => ActionView::ReadOutput,
            Action::WriteLog(bytes) => ActionView::WriteLog(bytes@),
            Action::WriteStdout(bytes) => ActionView::WriteStdout(bytes@),
            Action::Wait => ActionView::Wait,
            Action::Exit { termination, diagnostic } => ActionView::Exit {
                termination,
                diagnostic: opt_text(diagnostic),
            },
        }
    }
}

/// The launcher's state as a mathematical value.
pub struct LauncherView {
    /// The whole invocation, the launcher's own name first.
    pub args: Seq<Seq<char>>,
    /// The resolved target; empty until the configuration has been read.
    pub target: Seq<char>,
    /// The log file's path; empty until the clock has been read.
    pub log_path: Seq<char>,
    /// The chunk that has been read but not yet handed to standard output.
    pub chunk: Seq<u8>,
    /// What the launcher is waiting for.
    pub phase: Phase,
}

/// The launcher's state.
#[derive(Debug)]
pub struct Launcher {
    args: Vec<String>,
    target: String,
    log_path: String,
    chunk: Vec<u8>,
    phase: Phase,
}

impl View for Launcher {
    type V = LauncherView;

    closed spec fn view(&self) -> LauncherView {
        LauncherView {
            args: texts(self.args@),
            target: self.target@,
            log_path: self.log_path@,
            chunk: self.chunk@,
            phase: self.phase,
        }
    }
}

/// The state in which every run begins.
pub open spec fn initial(args: Seq<Seq<char>>) -> LauncherView {
    LauncherView {
        args,
        target: Seq::empty(),
        log_path: Seq::empty(),
        chunk: Seq::empty(),
        phase: Phase::Start,
    }
}

/// Whether `e` answers what the launcher is waiting for in `phase`.
pub open spec fn accepts(phase: Phase, e: Event) -> bool {
    match e {
        Event::Started => phase == Phase::Start,
        Event::ConfigRead(_) => phase == Phase::Config,
        Event::ConfigCreated(_) => phase == Phase::ConfigCreate,
        Event::Clock(_) => phase == Phase::Clock,
        Event::LogCreated(_) => phase == Phase::LogCreate,
        Event::HeaderWritten(_) => phase == Phase::Header,
        Event::Spawned(_) => phase == Phase::Spawn,
        Event::Read(_) => phase == Phase::Read,
        Event::LogWritten(_) => phase == Phase::LogWrite,
        Event::StdoutWritten(_) => phase == Phase::StdoutWrite,
        Event::Waited(_) => phase == Phase::Wait,
    }
}

/// The state `s` in phase `phase`.
pub open spec fn in_phase(s: LauncherView, phase: Phase) -> LauncherView {
    LauncherView { phase, ..s }
}

/// The error text of a step that failed.
pub open spec fn error_text(outcome: Result<(), String>) -> Option<Seq<char>> {
    match outcome {
        Ok(_) => None,
        Err(text) => Some(text@),
    }
}

/// The state and action with which a run ends in `termination`; `detail` is
/// the system's error text, where the last step failed with one.
pub open spec fn finish(s: LauncherView, termination: Termination, detail: Option<Seq<char>>) -> (
    LauncherView,
    ActionView,
) {
    (
        in_phase(s, Phase::Done),
        ActionView::Exit {
            termination,
            diagnostic: match termination {
                Termination::Exited(_) => None,
                Termination::Failed(f) => diagnostic_text(f, s.log_path, s.target, detail),
            },
        },
    )
}

/// The state and action with which a run ends for cause `f`.
pub open spec fn give_up(s: LauncherView, f: Failure, detail: Option<Seq<char>>) -> (
    LauncherView,
    ActionView,
) {
    finish(s, Termination::Failed(f), detail)
}

/// The launcher's rule: the state and the action that follow event `e` in state `s`.
///
/// Each step that fails ends the run with its own failure and diagnostic;
/// nothing is retried. A chunk that was read goes to the log first and, once
/// that write has succeeded, to standard output. A read that gives no bytes, or
/// fails, ends the relay, and the target's end is waited for.
pub open spec fn next(s: LauncherView, e: Event) -> (LauncherView, ActionView)
    recommends
        accepts(s.phase, e),
{
    match e {
        Event::Started => (in_phase(s, Phase::Config), ActionView::ReadConfig),
        Event::ConfigRead(outcome) => match resolution(outcome) {
            Ok(target) => (
                LauncherView { target, phase: Phase::Clock, ..s },
                ActionView::ReadClock,
            ),
            Err(Failure::ConfigMissing) => (
                in_phase(s, Phase::ConfigCreate),
                ActionView::CreateConfig,
            ),
            Err(f) => give_up(s, f, read_error(outcome)),
        },
        Event::ConfigCreated(outcome) => give_up(s, Failure::ConfigMissing, error_text(outcome)),
        Event::Clock(clock) => {
            let log_path = log_path_text(millis_or_zero(clock) as nat);
            (
                LauncherView { log_path, phase: Phase::LogCreate, ..s },
                ActionView::CreateLog(log_path),
            )
        },
        Event::LogCreated(outcome) => if outcome is Ok {
            (in_phase(s, Phase::Header), ActionView::WriteHeader(header_text(s.args)))
        } else {
            give_up(s, Failure::LogCreate, error_text(outcome))
        },
        Event::HeaderWritten(outcome) => if outcome is Ok {
            (
                in_phase(s, Phase::Spawn),
                ActionView::Spawn { program: s.target, args: forwarded_texts(s.args) },
            )
        } else {
            give_up(s, Failure::LogHeader, error_text(outcome))
        },
        Event::Spawned(outcome) => if outcome is Ok {
            (in_phase(s, Phase::Read), ActionView::ReadOutput)
        } else {
            give_up(s, Failure::Spawn, error_text(outcome))
        },
        Event::Read(Some(bytes)) => if bytes@.len() > 0 {
            (
                LauncherView { chunk: bytes@, phase: Phase::LogWrite, ..s },
                ActionView::WriteLog(bytes@),
            )
        } else {
            (in_phase(s, Phase::Wait), ActionView::Wait)
        },
        Event::Read(None) => (in_phase(s, Phase::Wait), ActionView::Wait),
        Event::LogWritten(outcome) => if outcome is Ok {
            (
                LauncherView { chunk: Seq::empty(), phase: Phase::StdoutWrite, ..s },
                ActionView::WriteStdout(s.chunk),
            )
        } else {
            give_up(s, Failure::Relay, error_text(outcome))
        },
        Event::StdoutWritten(outcome) => if outcome is Ok {
            (in_phase(s, Phase::Read), ActionView::ReadOutput)
        } else {
            give_up(s, Failure::Relay, error_text(outcome))
        },
        Event::Waited(w) => finish(s, wait_termination(w), wait_error(w)),
    }
}

impl Launcher {
    /// A launcher that was invoked as `args`, its own name first, before anything has happened.
    pub fn new(args: Vec<String>) -> (r: Launcher)
        ensures
            r@ == initial(texts(args@)),
    {
        Launcher {
            args,
            target: String::new(),
            log_path: String::new(),
            chunk: Vec::new(),
            phase: Phase::Start,
        }
    }

    /// What the launcher is waiting for.
    pub fn phase(&self) -> (r: Phase)
        ensures
            r == self@.phase,
    {
        self.phase
    }

    /// Whether the run is over.
    pub fn is_done(&self) -> (r: bool)
        ensures
            r == (self@.phase == Phase::Done),
    {
        self.phase == Phase::Done
    }

    /// Whether `event` answers what the launcher is waiting for.
    pub fn expects(&self, event: &Event) -> (r: bool)
        ensures
            r == accepts(self@.phase, *event),
    {
        let phase = self.phase;
        match event {
            Event::Started => phase == Phase::Start,
            Event::ConfigRead(_) => phase == Phase::Config,
            Event::ConfigCreated(_) => phase == Phase::ConfigCreate,
            Event::Clock(_) => phase == Phase::Clock,
            Event::LogCreated(_) => phase == Phase::LogCreate,
            Event::HeaderWritten(_) => phase == Phase::Header,
            Event::Spawned(_) => phase == Phase::Spawn,
            Event::Read(_) => phase == Phase::Read,
            Event::LogWritten(_) => phase == Phase::LogWrite,
            Event::StdoutWritten(_) => phase == Phase::StdoutWrite,
            Event::Waited(_) => phase == Phase::Wait,
        }
    }

    /// Ends the run in `termination`, with the diagnostic that goes with it.
    fn end(self, termination: Termination, detail: &Option<String>) -> (r: (Launcher, Action))
        ensures
            (r.0@, r.1@) == finish(self@, termination, opt_text(*detail)),
    {
        let diagnostic = match termination {
            Termination::Exited(_) => None,
            Termination::Failed(f) => diagnostic(
                f,
                self.log_path.as_str(),
                self.target.as_str(),
                detail,
            ),
        };
        self.move_to(Phase::Done, Action::Exit { termination, diagnostic })
    }

    /// Ends the run for cause `f`, which came with the outcome `outcome`.
    fn fail(self, f: Failure, outcome: Result<(), String>) -> (r: (Launcher, Action))
        ensures
            (r.0@, r.1@) == give_up(self@, f, error_text(outcome)),
    {
        let detail = match outcome {
            Ok(_) => None,
            Err(text) => Some(text),
        };
        self.end(Termination::Failed(f), &detail)
    }

    /// Moves to `phase` and asks for `action`.
    fn move_to(self, phase: Phase, action: Action) -> (r: (Launcher, Action))
        ensures
            r.0@ == in_phase(self@, phase),
            r.1 == action,
    {
        let Launcher { args, target, log_path, chunk, phase: _ } = self;
        (Launcher { args, target, log_path, chunk, phase }, action)
    }

    /// Takes the outcome of the last action and decides the next one.
    pub fn step(self, event: Event) -> (r: (Launcher, Action))
        requires
            accepts(self@.phase, event),
        ensures
            r.0@ == next(self@, event).0,
            r.1@ == next(self@, event).1,
    {
        match event {
            Event::Started => self.move_to(Phase::Config, Action::ReadConfig),
            Event::ConfigRead(outcome) => match resolve_target(&outcome) {
                Ok(found) => {
                    let Launcher { args, target: _, log_path, chunk, phase: _ } = self;
                    (
                        Launcher { args, target: found, log_path, chunk, phase: Phase::Clock },
                        Action::ReadClock,
                    )
                },
                Err(f) => match f {
                    Failure::ConfigMissing => self.move_to(
                        Phase::ConfigCreate,
                        Action::CreateConfig,
                    ),
                    _ => {
                        let detail = match outcome {
                            ReadOutcome::Failed(text) => Some(text),
                            _ => None,
                        };
                        self.end(Termination::Failed(f), &detail)
                    },
                },
            },
            Event::ConfigCreated(outcome) => self.fail(Failure::ConfigMissing, outcome),
            Event::Clock(clock) => {
                let path = log_path(timestamp(clock));
                let kept = path.clone();
                let Launcher { args, target, log_path: _, chunk, phase: _ } = self;
                (
                    Launcher { args, target, log_path: kept, chunk, phase: Phase::LogCreate },
                    Action::CreateLog(path),
                )
            },
            Event::LogCreated(outcome) => if outcome.is_ok() {
                let line = invocation_line(&self.args);
                self.move_to(Phase::Header, Action::WriteHeader(line))
            } else {
                self.fail(Failure::LogCreate, outcome)
            },
            Event::HeaderWritten(outcome) => if outcome.is_ok() {
                let program = self.target.clone();
                let args = forwarded(&self.args);
                self.move_to(Phase::Spawn, Action::Spawn { program, args })
            } else {
                self.fail(Failure::LogHeader, outcome)
            },
            Event::Spawned(outcome) => if outcome.is_ok() {
                self.move_to(Phase::Read, Action::ReadOutput)
            } else {
                self.fail(Failure::Spawn, outcome)
            },
            Event::Read(read) => match read {
                Some(bytes) => if bytes.len() > 0 {
                    let copy = slice_to_vec(bytes.as_slice());
                    let Launcher { args, target, log_path, chunk: _, phase: _ } = self;
                    (
                        Launcher { args, target, log_path, chunk: bytes, phase: Phase::LogWrite },
                        Action::WriteLog(copy),
                    )
                } else {
                    self.move_to(Phase::Wait, Action::Wait)
                },
                None => self.move_to(Phase::Wait, Action::Wait),
            },
            Event::LogWritten(outcome) => if outcome.is_ok() {
                let Launcher { args, target, log_path, chunk, phase: _ } = self;
                (
                    Launcher {
                        args,
                        target,
                        log_path,
                        chunk: Vec::new(),
                        phase: Phase::StdoutWrite,
                    },
                    Action::WriteStdout(chunk),
                )
            } else {
                self.fail(Failure::Relay, outcome)
            },
            Event::StdoutWritten(outcome) => if outcome.is_ok() {
                self.move_to(Phase::Read, Action::ReadOutput)
            } else {
                self.fail(Failure::Relay, outcome)
            },
            Event::Waited(w) => {
                let termination = Termination::after_wait(&w);
                let detail = match w {
                    WaitOutcome::Failed(text) => Some(text),
                    _ => None,
                };
                self.end(termination, &detail)
            },
        }
    }

    /// Takes `event` if it answers what the launcher is waiting for, and decides
    /// the next action; hands the launcher back unchanged if it does not.
    pub fn try_step(self, event: Event) -> (r: Result<(Launcher, Action), Launcher>)
        ensures
            match r {
                Ok((after, action)) => {
                    &&& accepts(self@.phase, event)
                    &&& after@ == next(self@, event).0
                    &&& action@ == next(self@, event).1
                },
                Err(same) => !accepts(self@.phase, event) && same == self,
            },
    {
        if self.expects(&event) {
            Ok(self.step(event))
        } else {
            Err(self)
        }
    }
}

} // verus!
