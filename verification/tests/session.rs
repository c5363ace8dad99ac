use nethopper::directory::{HostLookup, HostRecord};
use nethopper::events::{Event, ProgressStatus};
use nethopper::reader::ReaderExit;
use nethopper::response::SshErrorKind;
use nethopper::session::{
    settle, terminal_type, SetupStep, Stage, TaskFailure, TaskPhase, Terminal, Worker,
    WorkerAction, WorkerInput, WorkerOutput, IO_TIMEOUT_MS, SETUP_TIMEOUT_MS, SHELL_SETTLE_MS,
};
use nethopper::writer::WriterExit;

fn record(password: Option<&str>) -> HostRecord {
    HostRecord {
        host: "example.org".to_string(),
        port: 22,
        username: "root".to_string(),
        password: password.map(|p| p.to_string()),
    }
}

fn progress(task_id: &str, status: ProgressStatus) -> Option<Event> {
    Some(Event::Progress { task_id: task_id.to_string(), status })
}

fn all_steps() -> Vec<SetupStep> {
    vec![
        SetupStep::Resolve,
        SetupStep::Connect,
        SetupStep::Handshake,
        SetupStep::Authenticate,
        SetupStep::OpenChannel,
        SetupStep::RequestPty,
        SetupStep::StartShell,
        SetupStep::Settle,
    ]
}

fn pumping_worker(task_id: &str) -> Worker {
    let mut worker = Worker::new(task_id, 1);
    worker.step(WorkerInput::Host(HostLookup::Found(record(Some("pw")))));
    for _ in all_steps() {
        worker.step(WorkerInput::Step(true));
    }
    assert_eq!(worker.stage(), Stage::Pumping);
    worker
}

/// Tells a worker that its reader and then its writer have stopped, and
/// returns its answer to the second.
fn stop_both(
    worker: &mut Worker,
    reader: ReaderExit,
    writer: WriterExit,
    cancel_requested: bool,
) -> WorkerOutput {
    let first = worker.step(WorkerInput::ReaderStopped(reader));
    assert_eq!(first, WorkerOutput { event: None, action: WorkerAction::CloseInput });
    assert_eq!(worker.stage(), Stage::Draining(reader));
    assert_eq!(worker.phase(), TaskPhase::Running);
    worker.step(WorkerInput::WriterStopped { writer, cancel_requested })
}

#[test]
fn session_constants() {
    assert_eq!(SETUP_TIMEOUT_MS, 10000);
    assert_eq!(IO_TIMEOUT_MS, 100);
    assert_eq!(SHELL_SETTLE_MS, 300);
    assert_eq!(terminal_type(), "xterm-256color");
}

#[test]
fn setup_steps_follow_one_another() {
    let steps = all_steps();
    for pair in steps.windows(2) {
        assert_eq!(pair[0].next(), Some(pair[1]));
    }
    assert_eq!(SetupStep::Settle.next(), None);
}

#[test]
fn each_setup_step_fails_with_its_kind() {
    assert_eq!(SetupStep::Resolve.failure_kind(), Some(SshErrorKind::Network));
    assert_eq!(SetupStep::Connect.failure_kind(), Some(SshErrorKind::Timeout));
    assert_eq!(SetupStep::Handshake.failure_kind(), Some(SshErrorKind::Network));
    assert_eq!(SetupStep::Authenticate.failure_kind(), Some(SshErrorKind::Auth));
    assert_eq!(SetupStep::OpenChannel.failure_kind(), Some(SshErrorKind::Internal));
    assert_eq!(SetupStep::RequestPty.failure_kind(), Some(SshErrorKind::Command));
    assert_eq!(SetupStep::StartShell.failure_kind(), Some(SshErrorKind::Command));
    assert_eq!(SetupStep::Settle.failure_kind(), None);
}

#[test]
fn a_host_with_a_secret_starts_setup_and_announces_running() {
    let mut worker = Worker::new("t1", 5);
    assert_eq!(worker.first_action(), WorkerAction::Lookup { host_id: 5 });
    let output = worker.step(WorkerInput::Host(HostLookup::Found(record(Some("pw")))));
    assert_eq!(
        output,
        WorkerOutput {
            event: progress("t1", ProgressStatus::Running),
            action: WorkerAction::Setup(SetupStep::Resolve),
        }
    );
    assert_eq!(worker.stage(), Stage::AwaitStep(SetupStep::Resolve));
    assert_eq!(worker.phase(), TaskPhase::Starting);
    let params = worker.connection().unwrap();
    assert_eq!(params.address, "example.org");
    assert_eq!(params.port, 22);
    assert_eq!(params.username, "root");
    assert_eq!(params.secret, "pw");
}

#[test]
fn a_host_without_a_secret_ends_in_error_at_once() {
    let mut worker = Worker::new("t2", 2);
    let output = worker.step(WorkerInput::Host(HostLookup::Found(record(None))));
    assert_eq!(
        output,
        WorkerOutput { event: progress("t2", ProgressStatus::Error), action: WorkerAction::Finish }
    );
    assert_eq!(worker.stage(), Stage::Ended(Terminal::Error(TaskFailure::Setup(SshErrorKind::Auth))));
    assert_eq!(worker.phase(), TaskPhase::Error);
    assert!(worker.connection().is_none());
}

#[test]
fn an_unknown_host_ends_in_error_at_once() {
    let mut worker = Worker::new("t1", 2);
    let output = worker.step(WorkerInput::Host(HostLookup::NotFound));
    assert_eq!(
        output,
        WorkerOutput { event: progress("t1", ProgressStatus::Error), action: WorkerAction::Finish }
    );
    assert_eq!(
        worker.stage(),
        Stage::Ended(Terminal::Error(TaskFailure::Setup(SshErrorKind::Internal)))
    );
}

#[test]
fn a_directory_that_cannot_be_asked_ends_in_error_at_once() {
    let mut worker = Worker::new("t1", 2);
    let output = worker.step(WorkerInput::Host(HostLookup::Unavailable));
    assert_eq!(
        output,
        WorkerOutput { event: progress("t1", ProgressStatus::Error), action: WorkerAction::Finish }
    );
    assert_eq!(worker.stage(), Stage::Ended(Terminal::Error(TaskFailure::LockFailure)));
}

#[test]
fn setup_runs_through_its_steps_to_the_pump() {
    let mut worker = Worker::new("t1", 1);
    worker.step(WorkerInput::Host(HostLookup::Found(record(Some("pw")))));
    let steps = all_steps();
    for i in 0..steps.len() {
        assert_eq!(worker.stage(), Stage::AwaitStep(steps[i]));
        assert_eq!(worker.phase(), TaskPhase::Starting);
        let output = worker.step(WorkerInput::Step(true));
        let expected = if i + 1 < steps.len() {
            WorkerAction::Setup(steps[i + 1])
        } else {
            WorkerAction::Pump
        };
        assert_eq!(output, WorkerOutput { event: None, action: expected });
    }
    assert_eq!(worker.stage(), Stage::Pumping);
    assert_eq!(worker.phase(), TaskPhase::Running);
}

#[test]
fn a_failed_setup_step_ends_in_error_with_the_kind_of_the_step() {
    let steps = all_steps();
    for failing in 0..7 {
        let mut worker = Worker::new("t1", 1);
        worker.step(WorkerInput::Host(HostLookup::Found(record(Some("pw")))));
        for _ in 0..failing {
            worker.step(WorkerInput::Step(true));
        }
        let output = worker.step(WorkerInput::Step(false));
        assert_eq!(
            output,
            WorkerOutput {
                event: progress("t1", ProgressStatus::Error),
                action: WorkerAction::Finish
            }
        );
        let kind = steps[failing].failure_kind().unwrap();
        assert_eq!(worker.stage(), Stage::Ended(Terminal::Error(TaskFailure::Setup(kind))));
        assert_eq!(worker.phase(), TaskPhase::Error);
    }
}

#[test]
fn the_pause_cannot_fail() {
    let mut worker = Worker::new("t1", 1);
    worker.step(WorkerInput::Host(HostLookup::Found(record(Some("pw")))));
    for _ in 0..7 {
        worker.step(WorkerInput::Step(true));
    }
    assert_eq!(worker.stage(), Stage::AwaitStep(SetupStep::Settle));
    let output = worker.step(WorkerInput::Step(false));
    assert_eq!(output, WorkerOutput { event: None, action: WorkerAction::Pump });
    assert_eq!(worker.stage(), Stage::Pumping);
}

#[test]
fn a_normal_end_asks_for_the_exit_status_and_reports_it() {
    let mut worker = pumping_worker("t1");
    let output = stop_both(&mut worker, ReaderExit::EndOfStream, WriterExit::Disconnected, false);
    assert_eq!(output, WorkerOutput { event: None, action: WorkerAction::Close });
    assert_eq!(worker.stage(), Stage::Closing);
    assert_eq!(worker.phase(), TaskPhase::Running);
    let output = worker.step(WorkerInput::Closed { exit_status: Some(3) });
    assert_eq!(
        output,
        WorkerOutput {
            event: Some(Event::Done { task_id: "t1".to_string(), exit_code: 3 }),
            action: WorkerAction::Finish,
        }
    );
    assert_eq!(worker.stage(), Stage::Ended(Terminal::Done(3)));
    assert_eq!(worker.phase(), TaskPhase::Done);
}

#[test]
fn a_missing_exit_status_is_reported_as_minus_one() {
    let mut worker = pumping_worker("t1");
    stop_both(&mut worker, ReaderExit::EndOfStream, WriterExit::Disconnected, false);
    let output = worker.step(WorkerInput::Closed { exit_status: None });
    assert_eq!(
        output.event,
        Some(Event::Done { task_id: "t1".to_string(), exit_code: -1 })
    );
    assert_eq!(worker.stage(), Stage::Ended(Terminal::Done(-1)));
}

#[test]
fn cancellation_ends_in_cancelled() {
    let mut worker = pumping_worker("t3");
    let output = stop_both(&mut worker, ReaderExit::Cancelled, WriterExit::Cancelled, true);
    assert_eq!(
        output,
        WorkerOutput {
            event: progress("t3", ProgressStatus::Cancelled),
            action: WorkerAction::Finish
        }
    );
    assert_eq!(worker.stage(), Stage::Ended(Terminal::Cancelled));
    assert_eq!(worker.phase(), TaskPhase::Cancelled);
}

#[test]
fn cancellation_counts_even_where_the_stream_had_ended() {
    let mut worker = pumping_worker("t3");
    let output = stop_both(&mut worker, ReaderExit::EndOfStream, WriterExit::Disconnected, true);
    assert_eq!(output.event, progress("t3", ProgressStatus::Cancelled));
    assert_eq!(output.action, WorkerAction::Finish);
}

#[test]
fn settle_puts_failure_before_cancellation_and_the_reader_before_the_writer() {
    assert_eq!(
        settle(ReaderExit::LimitExceeded, WriterExit::Cancelled, true),
        Some(Terminal::Error(TaskFailure::LimitExceeded))
    );
    assert_eq!(
        settle(ReaderExit::LockFailure, WriterExit::WriteFailed, false),
        Some(Terminal::Error(TaskFailure::LockFailure))
    );
    assert_eq!(
        settle(ReaderExit::ReadFailed, WriterExit::WriteFailed, true),
        Some(Terminal::Error(TaskFailure::ReadFailed))
    );
    assert_eq!(
        settle(ReaderExit::Cancelled, WriterExit::WriteFailed, true),
        Some(Terminal::Error(TaskFailure::WriteFailed))
    );
    assert_eq!(
        settle(ReaderExit::EndOfStream, WriterExit::LockFailure, false),
        Some(Terminal::Error(TaskFailure::LockFailure))
    );
    assert_eq!(settle(ReaderExit::Cancelled, WriterExit::Cancelled, true), Some(Terminal::Cancelled));
    assert_eq!(
        settle(ReaderExit::EndOfStream, WriterExit::Disconnected, true),
        Some(Terminal::Cancelled)
    );
    assert_eq!(settle(ReaderExit::EndOfStream, WriterExit::Disconnected, false), None);
    assert_eq!(settle(ReaderExit::Cancelled, WriterExit::Cancelled, false), None);
}

#[test]
fn a_reported_failure_ends_in_error_whatever_else_holds() {
    for cancel_requested in [false, true] {
        let mut worker = pumping_worker("t1");
        let output = stop_both(
            &mut worker,
            ReaderExit::LimitExceeded,
            WriterExit::Disconnected,
            cancel_requested,
        );
        assert_eq!(
            output,
            WorkerOutput {
                event: progress("t1", ProgressStatus::Error),
                action: WorkerAction::Finish
            }
        );
        assert_eq!(worker.stage(), Stage::Ended(Terminal::Error(TaskFailure::LimitExceeded)));
    }
    let mut worker = pumping_worker("t1");
    let output = stop_both(&mut worker, ReaderExit::EndOfStream, WriterExit::WriteFailed, false);
    assert_eq!(output.event, progress("t1", ProgressStatus::Error));
    assert_eq!(worker.stage(), Stage::Ended(Terminal::Error(TaskFailure::WriteFailed)));
}

#[test]
fn an_ended_worker_sends_nothing_more() {
    let mut worker = pumping_worker("t1");
    stop_both(&mut worker, ReaderExit::Cancelled, WriterExit::Cancelled, true);
    let silent = WorkerOutput { event: None, action: WorkerAction::Wait };
    assert_eq!(worker.step(WorkerInput::Closed { exit_status: Some(0) }), silent);
    assert_eq!(worker.step(WorkerInput::ReaderStopped(ReaderExit::LimitExceeded)), silent);
    assert_eq!(
        worker.step(WorkerInput::WriterStopped {
            writer: WriterExit::WriteFailed,
            cancel_requested: false
        }),
        silent
    );
    assert_eq!(worker.step(WorkerInput::Step(false)), silent);
    assert_eq!(worker.step(WorkerInput::Host(HostLookup::Found(record(Some("pw"))))), silent);
    assert_eq!(worker.stage(), Stage::Ended(Terminal::Cancelled));
}

#[test]
fn what_the_worker_does_not_wait_for_is_left_aside() {
    let silent = WorkerOutput { event: None, action: WorkerAction::Wait };
    let mut worker = Worker::new("t1", 1);
    assert_eq!(worker.step(WorkerInput::Step(true)), silent);
    assert_eq!(worker.step(WorkerInput::Closed { exit_status: Some(0) }), silent);
    assert_eq!(worker.step(WorkerInput::ReaderStopped(ReaderExit::EndOfStream)), silent);
    assert_eq!(worker.stage(), Stage::AwaitHost);
    worker.step(WorkerInput::Host(HostLookup::Found(record(Some("pw")))));
    assert_eq!(worker.step(WorkerInput::Host(HostLookup::NotFound)), silent);
    assert_eq!(worker.step(WorkerInput::Closed { exit_status: None }), silent);
    assert_eq!(worker.stage(), Stage::AwaitStep(SetupStep::Resolve));
    let mut worker = pumping_worker("t1");
    assert_eq!(worker.step(WorkerInput::Step(false)), silent);
    assert_eq!(worker.step(WorkerInput::Closed { exit_status: Some(0) }), silent);
    assert_eq!(
        worker.step(WorkerInput::WriterStopped {
            writer: WriterExit::Disconnected,
            cancel_requested: true
        }),
        silent
    );
    assert_eq!(worker.stage(), Stage::Pumping);
    worker.step(WorkerInput::ReaderStopped(ReaderExit::EndOfStream));
    assert_eq!(worker.step(WorkerInput::ReaderStopped(ReaderExit::LimitExceeded)), silent);
    assert_eq!(worker.step(WorkerInput::Closed { exit_status: Some(0) }), silent);
    assert_eq!(worker.stage(), Stage::Draining(ReaderExit::EndOfStream));
}
