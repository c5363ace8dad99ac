//! The life of one task, as its coordinating worker sees it.
//!
//! The worker asks the directory for the host, takes the session through
//! its setup steps, lets the reader and the writer run, and closes the task
//! with exactly one terminal event. It is told the result of each action it
//! asked for and answers with the event to send, if any, and the next
//! action.

use crate::directory::{
    ConnectionParams,
    ConnectionParamsView,
    HostLookup,
    HostLookupView,
    HostRecord,
};
use crate::events::{Event, EventView, ProgressStatus};
use crate::reader::ReaderExit;
use crate::response::{exit_code_or_default, reported_exit_code, SshErrorKind};
use crate::writer::WriterExit;
use vstd::prelude::*;

verus! {

/// Limit for each call during setup, in milliseconds.
pub const SETUP_TIMEOUT_MS: u32 = 10000;

/// Limit for each read and write once the shell runs, in milliseconds.
pub const IO_TIMEOUT_MS: u32 = 100;

/// Pause that lets the remote shell come up before the first read, in
/// milliseconds.
pub const SHELL_SETTLE_MS: u64 = 300;

/// The terminal type asked of the remote side.
pub fn terminal_type() -> (name: &'static str)
    ensures
        name@ == "xterm-256color"@,
{
    "xterm-256color"
}

/// The steps that take a session from nothing to a running shell, in order.
#[derive(Clone, Copy, Debug, PartialEq, Eq, Structural)]
pub enum SetupStep {
    /// Resolve the host's address and port.
    Resolve,
    /// Open the transport, within the connect timeout.
    Connect,
    /// Perform the protocol handshake.
    Handshake,
    /// Authenticate with user name and secret.
    Authenticate,
    /// Open a channel.
    OpenChannel,
    /// Ask for a pseudo-terminal of [`terminal_type`].
    RequestPty,
    /// Start an interactive shell.
    StartShell,
    /// Switch to [`IO_TIMEOUT_MS`] and pause for [`SHELL_SETTLE_MS`].
    Settle,
}

impl SetupStep {
    /// The kind reported when the step fails. The pause cannot fail.
    pub open spec fn failure(self) -> Option<SshErrorKind> {
        match self {
            SetupStep::Resolve => Some(SshErrorKind::Network),
            SetupStep::Connect => Some(SshErrorKind::Timeout),
            SetupStep::Handshake => Some(SshErrorKind::Network),
            SetupStep::Authenticate => Some(SshErrorKind::Auth),
            SetupStep::OpenChannel => Some(SshErrorKind::Internal),
            SetupStep::RequestPty => Some(SshErrorKind::Command),
            SetupStep::StartShell => Some(SshErrorKind::Command),
            SetupStep::Settle => None,
        }
    }

    /// The step that follows, if any.
    pub open spec fn following(self) -> Option<SetupStep> {
        match self {
            SetupStep::Resolve => Some(SetupStep::Connect),
            SetupStep::Connect => Some(SetupStep::Handshake),
            SetupStep::Handshake => Some(SetupStep::Authenticate),
            SetupStep::Authenticate => Some(SetupStep::OpenChannel),
            SetupStep::OpenChannel => Some(SetupStep::RequestPty),
            SetupStep::RequestPty => Some(SetupStep::StartShell),
            SetupStep::StartShell => Some(SetupStep::Settle),
            SetupStep::Settle => None,
        }
    }

    /// The step's place in the sequence, from 1.
    pub open spec fn ordinal(self) -> nat {
        match self {
            SetupStep::Resolve => 1,
            SetupStep::Connect => 2,
            SetupStep::Handshake => 3,
            SetupStep::Authenticate => 4,
            SetupStep::OpenChannel => 5,
            SetupStep::RequestPty => 6,
            SetupStep::StartShell => 7,
            SetupStep::Settle => 8,
        }
    }

    pub fn failure_kind(self) -> (kind: Option<SshErrorKind>)
        ensures
            kind == self.failure(),
    {
        match self {
            SetupStep::Resolve => Some(SshErrorKind::Network),
            SetupStep::Connect => Some(SshErrorKind::Timeout),
            SetupStep::Handshake => Some(SshErrorKind::Network),
            SetupStep::Authenticate => Some(SshErrorKind::Auth),
            SetupStep::OpenChannel => Some(SshErrorKind::Internal),
            SetupStep::RequestPty => Some(SshErrorKind::Command),
            SetupStep::StartShell => Some(SshErrorKind::Command),
            SetupStep::Settle => None,
        }
    }

    pub fn next(self) -> (step: Option<SetupStep>)
        ensures
            step == self.following(),
    {
        match self {
            SetupStep::Resolve => Some(SetupStep::Connect),
            SetupStep::Connect => Some(SetupStep::Handshake),
            SetupStep::Handshake => Some(SetupStep::Authenticate),
            SetupStep::Authenticate => Some(SetupStep::OpenChannel),
            SetupStep::OpenChannel => Some(SetupStep::RequestPty),
            SetupStep::RequestPty => Some(SetupStep::StartShell),
            SetupStep::StartShell => Some(SetupStep::Settle),
            SetupStep::Settle => None,
        }
    }
}

/// Why a task ended in error.
#[derive(Clone, Copy, Debug, PartialEq, Eq, Structural)]
pub enum TaskFailure {
    /// The directory or a setup step failed, with the kind of the failure.
    Setup(SshErrorKind),
    /// The task's output went over the cap.
    LimitExceeded,
    /// A lock could not be taken.
    LockFailure,
    /// A read of the remote output failed for good.
    ReadFailed,
    /// A write of input failed.
    WriteFailed,
}

/// How a task ended.
#[derive(Clone, Copy, Debug, PartialEq, Eq, Structural)]
pub enum Terminal {
    /// The shell ended and left this exit code.
    Done(i32),
    /// The task was cancelled.
    Cancelled,
    /// The task failed.
    Error(TaskFailure),
}

impl Terminal {
    /// The one event that reports this end of task `task_id`.
    pub open spec fn event(self, task_id: Seq<char>) -> EventView {
        match self {
            Terminal::Done(exit_code) => EventView::Done { task_id, exit_code },
            Terminal::Cancelled => EventView::Progress {
                task_id,
                status: ProgressStatus::Cancelled,
            },
            Terminal::Error(_) => EventView::Progress { task_id, status: ProgressStatus::Error },
        }
    }
}

/// The states of a task.
#[derive(Clone, Copy, Debug, PartialEq, Eq, Structural)]
pub enum TaskPhase {
    /// The host is being looked up or the session is being set up.
    Starting,
    /// The shell is live and the reader and writer are at work, or have
    /// just stopped.
    Running,
    Done,
    Cancelled,
    Error,
}

impl TaskPhase {
    pub open spec fn is_terminal(self) -> bool {
        self != TaskPhase::Starting && self != TaskPhase::Running
    }
}

/// Where the worker stands: what it has asked for and waits to hear of.
#[derive(Clone, Copy, Debug, PartialEq, Eq, Structural)]
pub enum Stage {
    /// The directory has been asked for the host.
    AwaitHost,
    /// This setup step has been asked for.
    AwaitStep(SetupStep),
    /// The reader and the writer run.
    Pumping,
    /// The reader has stopped for this reason; the task's input is being
    /// torn down so that the writer stops too.
    Draining(ReaderExit),
    /// Both have stopped; the channel is being closed for its exit status.
    Closing,
    /// The terminal event has been sent.
    Ended(Terminal),
}

impl Stage {
    pub open spec fn phase(self) -> TaskPhase {
        match self {
            Stage::AwaitHost => TaskPhase::Starting,
            Stage::AwaitStep(_) => TaskPhase::Starting,
            Stage::Pumping => TaskPhase::Running,
            Stage::Draining(_) => TaskPhase::Running,
            Stage::Closing => TaskPhase::Running,
            Stage::Ended(Terminal::Done(_)) => TaskPhase::Done,
            Stage::Ended(Terminal::Cancelled) => TaskPhase::Cancelled,
            Stage::Ended(Terminal::Error(_)) => TaskPhase::Error,
        }
    }

    /// How far along the stage is. No step of the worker lowers it.
    pub open spec fn rank(self) -> nat {
        match self {
            Stage::AwaitHost => 0,
            Stage::AwaitStep(step) => step.ordinal(),
            Stage::Pumping => 9,
            Stage::Draining(_) => 10,
            Stage::Closing => 11,
            Stage::Ended(_) => 12,
        }
    }
}

/// What the worker is told.
#[derive(Clone, Debug, PartialEq, Eq)]
pub enum WorkerInput {
    /// The directory's answer.
    Host(HostLookup),
    /// Whether the setup step that was asked for succeeded.
    Step(bool),
    /// The reader has stopped, for this reason.
    ReaderStopped(ReaderExit),
    /// The writer has stopped too, for this reason, and the cancellation
    /// flag stood thus when it had.
    WriterStopped { writer: WriterExit, cancel_requested: bool },
    /// The channel is closed and gave this exit status, if any.
    Closed { exit_status: Option<i32> },
}

/// A [`WorkerInput`] with its record as a view.
pub ghost enum WorkerInputView {
    Host(HostLookupView),
    Step(bool),
    ReaderStopped(ReaderExit),
    WriterStopped { writer: WriterExit, cancel_requested: bool },
    Closed { exit_status: Option<i32> },
}

impl View for WorkerInput {
    type V = WorkerInputView;

    open spec fn view(&self) -> WorkerInputView {
        match self {
            WorkerInput::Host(lookup) => WorkerInputView::Host(lookup@),
            WorkerInput::Step(ok) => WorkerInputView::Step(*ok),
            WorkerInput::ReaderStopped(reader) => WorkerInputView::ReaderStopped(*reader),
            WorkerInput::WriterStopped { writer, cancel_requested } => {
                WorkerInputView::WriterStopped {
                    writer: *writer,
                    cancel_requested: *cancel_requested,
                }
            },
            WorkerInput::Closed { exit_status } => WorkerInputView::Closed {
                exit_status: *exit_status,
            },
        }
    }
}

/// What the worker asks for next.
#[derive(Clone, Copy, Debug, PartialEq, Eq, Structural)]
pub enum WorkerAction {
    /// Ask the directory for this host.
    Lookup { host_id: i64 },
    /// Perform this setup step with the worker's connection parameters.
    Setup(SetupStep),
    /// Start the reader and the writer and wait until the reader has
    /// stopped.
    Pump,
    /// Tear down the task's input channel and wait until the writer has
    /// stopped.
    CloseInput,
    /// Close the channel and fetch the exit status.
    Close,
    /// Remove the task from the registry. The worker is done.
    Finish,
    /// Nothing new: what was told did not bear on what the worker waits for.
    Wait,
}

/// The worker's answer: first send the event, if there is one, then act.
#[derive(Debug, PartialEq, Eq)]
pub struct WorkerOutput {
    pub event: Option<Event>,
    pub action: WorkerAction,
}

/// A [`WorkerOutput`] with its event as a view.
pub ghost struct WorkerOutputView {
    pub event: Option<EventView>,
    pub action: WorkerAction,
}

impl View for WorkerOutput {
    type V = WorkerOutputView;

    open spec fn view(&self) -> WorkerOutputView {
        WorkerOutputView {
            event: match self.event {
                Some(event) => Some(event@),
                None => None,
            },
            action: self.action,
        }
    }
}

/// The failure that a reader's exit reports, if it reports one.
pub open spec fn reader_failure(exit: ReaderExit) -> Option<TaskFailure> {
    match exit {
        ReaderExit::LimitExceeded => Some(TaskFailure::LimitExceeded),
        ReaderExit::LockFailure => Some(TaskFailure::LockFailure),
        ReaderExit::ReadFailed => Some(TaskFailure::ReadFailed),
        ReaderExit::Cancelled => None,
        ReaderExit::EndOfStream => None,
    }
}

/// The failure that a writer's exit reports, if it reports one.
pub open spec fn writer_failure(exit: WriterExit) -> Option<TaskFailure> {
    match exit {
        WriterExit::WriteFailed => Some(TaskFailure::WriteFailed),
        WriterExit::LockFailure => Some(TaskFailure::LockFailure),
        WriterExit::Cancelled => None,
        WriterExit::Disconnected => None,
    }
}

/// What the two exits and the cancellation flag settle: the end of the
/// task, or nothing yet where the exit status decides. A reported failure
/// comes before cancellation, and the reader's before the writer's.
pub open spec fn settled(reader: ReaderExit, writer: WriterExit, cancel_requested: bool) -> Option<
    Terminal,
> {
    match reader_failure(reader) {
        Some(failure) => Some(Terminal::Error(failure)),
        None => match writer_failure(writer) {
            Some(failure) => Some(Terminal::Error(failure)),
            None => if cancel_requested {
                Some(Terminal::Cancelled)
            } else {
                None
            },
        },
    }
}

/// Decides how a task ends once its reader and writer have stopped.
/// `None` means that the task ends normally: the channel is to be closed
/// and its exit status reported.
pub fn settle(reader: ReaderExit, writer: WriterExit, cancel_requested: bool) -> (end: Option<
    Terminal,
>)
    ensures
        end == settled(reader, writer, cancel_requested),
{
    match reader {
        ReaderExit::LimitExceeded => {
            return Some(Terminal::Error(TaskFailure::LimitExceeded));
        },
        ReaderExit::LockFailure => {
            return Some(Terminal::Error(TaskFailure::LockFailure));
        },
        ReaderExit::ReadFailed => {
            return Some(Terminal::Error(TaskFailure::ReadFailed));
        },
        _ => {},
    }
    match writer {
        WriterExit::WriteFailed => {
            return Some(Terminal::Error(TaskFailure::WriteFailed));
        },
        WriterExit::LockFailure => {
            return Some(Terminal::Error(TaskFailure::LockFailure));
        },
        _ => {},
    }
    if cancel_requested {
        Some(Terminal::Cancelled)
    } else {
        None
    }
}

/// The worker's state.
pub ghost struct WorkerView {
    pub task_id: Seq<char>,
    pub host_id: i64,
    pub stage: Stage,
    /// The connection parameters, once the directory has given them.
    pub params: Option<ConnectionParamsView>,
}

impl WorkerView {
    /// The worker of a task that has just been started.
    pub open spec fn fresh(task_id: Seq<char>, host_id: i64) -> WorkerView {
        WorkerView { task_id, host_id, stage: Stage::AwaitHost, params: None }
    }

    pub open spec fn progress(self, status: ProgressStatus) -> EventView {
        EventView::Progress { task_id: self.task_id, status }
    }

    /// The worker ends the task: it sends the terminal event and asks for
    /// the task's removal.
    pub open spec fn end(self, terminal: Terminal) -> (WorkerView, WorkerOutputView) {
        (
            WorkerView { stage: Stage::Ended(terminal), ..self },
            WorkerOutputView {
                event: Some(terminal.event(self.task_id)),
                action: WorkerAction::Finish,
            },
        )
    }

    /// The worker moves on without an event.
    pub open spec fn proceed(self, stage: Stage, action: WorkerAction) -> (
        WorkerView,
        WorkerOutputView,
    ) {
        (WorkerView { stage, ..self }, WorkerOutputView { event: None, action })
    }

    /// The worker leaves what it was told aside.
    pub open spec fn ignore(self) -> (WorkerView, WorkerOutputView) {
        (self, WorkerOutputView { event: None, action: WorkerAction::Wait })
    }

    /// The worker after it was told `input`, and its answer.
    pub open spec fn step(self, input: WorkerInputView) -> (WorkerView, WorkerOutputView) {
        match (self.stage, input) {
            (Stage::AwaitHost, WorkerInputView::Host(lookup)) => match lookup {
                HostLookupView::Found(record) => match record.params() {
                    Some(params) => (
                        WorkerView {
                            stage: Stage::AwaitStep(SetupStep::Resolve),
                            params: Some(params),
                            ..self
                        },
                        WorkerOutputView {
                            event: Some(self.progress(ProgressStatus::Running)),
                            action: WorkerAction::Setup(SetupStep::Resolve),
                        },
                    ),
                    None => self.end(Terminal::Error(TaskFailure::Setup(SshErrorKind::Auth))),
                },
                HostLookupView::NotFound => self.end(
                    Terminal::Error(TaskFailure::Setup(SshErrorKind::Internal)),
                ),
                HostLookupView::Unavailable => self.end(
                    Terminal::Error(TaskFailure::LockFailure),
                ),
            },
            (Stage::AwaitStep(step), WorkerInputView::Step(ok)) => if !ok && step.failure()
                is Some {
                self.end(Terminal::Error(TaskFailure::Setup(step.failure()->0)))
            } else {
                match step.following() {
                    Some(next) => self.proceed(Stage::AwaitStep(next), WorkerAction::Setup(next)),
                    None => self.proceed(Stage::Pumping, WorkerAction::Pump),
                }
            },
            (Stage::Pumping, WorkerInputView::ReaderStopped(reader)) => self.proceed(
                Stage::Draining(reader),
                WorkerAction::CloseInput,
            ),
            (
                Stage::Draining(reader),
                WorkerInputView::WriterStopped { writer, cancel_requested },
            ) => match settled(reader, writer, cancel_requested) {
                Some(terminal) => self.end(terminal),
                None => self.proceed(Stage::Closing, WorkerAction::Close),
            },
            (Stage::Closing, WorkerInputView::Closed { exit_status }) => self.end(
                Terminal::Done(reported_exit_code(exit_status)),
            ),
            _ => self.ignore(),
        }
    }
}

/// The coordinating worker of one task.
pub struct Worker {
    task_id: String,
    host_id: i64,
    stage: Stage,
    params: Option<ConnectionParams>,
}

impl View for Worker {
    type V = WorkerView;

    closed spec fn view(&self) -> WorkerView {
        WorkerView {
            task_id: self.task_id@,
            host_id: self.host_id,
            stage: self.stage,
            params: match self.params {
                Some(params) => Some(params@),
                None => None,
            },
        }
    }
}

impl Worker {
    /// The worker for task `task_id` on host `host_id`. Its first action is
    /// to ask the directory for the host.
    pub fn new(task_id: &str, host_id: i64) -> (worker: Worker)
        ensures
            worker@ == WorkerView::fresh(task_id@, host_id),
    {
        Worker { task_id: task_id.to_owned(), host_id, stage: Stage::AwaitHost, params: None }
    }

    /// The action that opens the worker's course.
    pub fn first_action(&self) -> (action: WorkerAction)
        ensures
            action == (WorkerAction::Lookup { host_id: self@.host_id }),
    {
        WorkerAction::Lookup { host_id: self.host_id }
    }

    pub fn task_id(&self) -> (id: &str)
        ensures
            id@ == self@.task_id,
    {
        self.task_id.as_str()
    }

    pub fn stage(&self) -> (stage: Stage)
        ensures
            stage == self@.stage,
    {
        self.stage
    }

    /// The task's state.
    pub fn phase(&self) -> (phase: TaskPhase)
        ensures
            phase == self@.stage.phase(),
    {
        match self.stage {
            Stage::AwaitHost => TaskPhase::Starting,
            Stage::AwaitStep(_) => TaskPhase::Starting,
            Stage::Pumping => TaskPhase::Running,
            Stage::Draining(_) => TaskPhase::Running,
            Stage::Closing => TaskPhase::Running,
            Stage::Ended(Terminal::Done(_)) => TaskPhase::Done,
            Stage::Ended(Terminal::Cancelled) => TaskPhase::Cancelled,
            Stage::Ended(Terminal::Error(_)) => TaskPhase::Error,
        }
    }

    /// The connection parameters, once the directory has given them.
    pub fn connection(&self) -> (params: Option<&ConnectionParams>)
        ensures
            match params {
                Some(p) => self@.params == Some(p@),
                None => self@.params is None,
            },
    {
        self.params.as_ref()
    }

    fn end(&mut self, terminal: Terminal) -> (output: WorkerOutput)
        ensures
            (final(self)@, output@) == old(self)@.end(terminal),
    {
        let event = match terminal {
            Terminal::Done(exit_code) => Event::done(self.task_id.as_str(), exit_code),
            Terminal::Cancelled => Event::progress(
                self.task_id.as_str(),
                ProgressStatus::Cancelled,
            ),
            Terminal::Error(_) => Event::progress(self.task_id.as_str(), ProgressStatus::Error),
        };
        self.stage = Stage::Ended(terminal);
        WorkerOutput { event: Some(event), action: WorkerAction::Finish }
    }

    fn proceed(&mut self, stage: Stage, action: WorkerAction) -> (output: WorkerOutput)
        ensures
            (final(self)@, output@) == old(self)@.proceed(stage, action),
    {
        self.stage = stage;
        WorkerOutput { event: None, action }
    }

    /// Tells the worker the result of the action it asked for. What does
    /// not answer that action is left aside: the worker stays as it is,
    /// sends nothing and asks for nothing new.
    pub fn step(&mut self, input: WorkerInput) -> (output: WorkerOutput)
        ensures
            (final(self)@, output@) == old(self)@.step(input@),
    {
        match (self.stage, input) {
            (Stage::AwaitHost, WorkerInput::Host(lookup)) => match lookup {
                HostLookup::Found(record) => match record.into_params() {
                    Some(params) => {
                        let event = Event::progress(
                            self.task_id.as_str(),
                            ProgressStatus::Running,
                        );
                        self.params = Some(params);
                        self.stage = Stage::AwaitStep(SetupStep::Resolve);
                        WorkerOutput {
                            event: Some(event),
                            action: WorkerAction::Setup(SetupStep::Resolve),
                        }
                    },
                    None => self.end(Terminal::Error(TaskFailure::Setup(SshErrorKind::Auth))),
                },
                HostLookup::NotFound => self.end(
                    Terminal::Error(TaskFailure::Setup(SshErrorKind::Internal)),
                ),
                HostLookup::Unavailable => self.end(Terminal::Error(TaskFailure::LockFailure)),
            },
            (Stage::AwaitStep(step), WorkerInput::Step(ok)) => {
                if !ok {
                    if let Some(kind) = step.failure_kind() {
                        return self.end(Terminal::Error(TaskFailure::Setup(kind)));
                    }
                }
                match step.next() {
                    Some(next) => self.proceed(Stage::AwaitStep(next), WorkerAction::Setup(next)),
                    None => self.proceed(Stage::Pumping, WorkerAction::Pump),
                }
            },
            (Stage::Pumping, WorkerInput::ReaderStopped(reader)) => self.proceed(
                Stage::Draining(reader),
                WorkerAction::CloseInput,
            ),
            (Stage::Draining(reader), WorkerInput::WriterStopped { writer, cancel_requested }) => {
                match settle(reader, writer, cancel_requested) {
                    Some(terminal) => self.end(terminal),
                    None => self.proceed(Stage::Closing, WorkerAction::Close),
                }
            },
            (Stage::Closing, WorkerInput::Closed { exit_status }) => {
                let exit_code = exit_code_or_default(exit_status);
                self.end(Terminal::Done(exit_code))
            },
            _ => WorkerOutput { event: None, action: WorkerAction::Wait },
        }
    }
}

} // verus!
