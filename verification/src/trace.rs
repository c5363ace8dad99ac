//! What one task sends over its whole life, and in what order.
//!
//! The worker's answers and the reader's, each taken over a whole series of
//! inputs, and the laws that hold of every such course.

use crate::events::{EventView, ProgressStatus};
use crate::reader::{ReadOutcomeView, ReaderExit, ReaderView};
use crate::session::{
    reader_failure,
    writer_failure,
    SetupStep,
    Stage,
    TaskFailure,
    TaskPhase,
    Terminal,
    WorkerAction,
    WorkerInputView,
    WorkerView,
};
use crate::writer::WriterExit;
use vstd::prelude::*;

verus! {

/// What a worker has done over a series of inputs.
pub ghost struct WorkerRun {
    /// The worker afterwards.
    pub worker: WorkerView,
    /// The events it asked to send, in order.
    pub events: Seq<EventView>,
}

impl WorkerView {
    /// The worker's course over `inputs`, each answered in turn.
    pub open spec fn run(self, inputs: Seq<WorkerInputView>) -> WorkerRun
        decreases inputs.len(),
    {
        if inputs.len() == 0 {
            WorkerRun { worker: self, events: Seq::empty() }
        } else {
            let before = self.run(inputs.drop_last());
            let (worker, output) = before.worker.step(inputs.last());
            WorkerRun {
                worker,
                events: match output.event {
                    Some(event) => before.events.push(event),
                    None => before.events,
                },
            }
        }
    }

    /// What a worker that started fresh has sent by the time it stands at
    /// its stage: nothing before the directory answered, `running` alone
    /// while the task is under way, and at the end the terminal event,
    /// alone or after `running`.
    pub open spec fn has_sent(self, events: Seq<EventView>) -> bool {
        let running = self.progress(ProgressStatus::Running);
        match self.stage {
            Stage::AwaitHost => events == Seq::<EventView>::empty(),
            Stage::Ended(terminal) => events == seq![terminal.event(self.task_id)] || events
                == seq![running, terminal.event(self.task_id)],
            _ => events == seq![running],
        }
    }
}

/// A worker that has ended the task stays as it is: it sends nothing more
/// and asks for nothing more, whatever it is told.
pub proof fn lemma_ended_worker_is_silent(worker: WorkerView, inputs: Seq<WorkerInputView>)
    requires
        worker.stage is Ended,
    ensures
        forall|input: WorkerInputView| #[trigger] worker.step(input) == worker.ignore(),
        worker.run(inputs) == (WorkerRun { worker, events: Seq::empty() }),
    decreases inputs.len(),
{
    if inputs.len() > 0 {
        lemma_ended_worker_is_silent(worker, inputs.drop_last());
    }
}

/// No step takes a task back: the stage never falls in rank, an ended task
/// keeps its end, and `Running` is entered from the last setup step only.
pub proof fn lemma_stage_never_goes_back(worker: WorkerView, input: WorkerInputView)
    ensures
        worker.step(input).0.stage.rank() >= worker.stage.rank(),
        worker.stage is Ended ==> worker.step(input).0.stage == worker.stage,
        worker.stage.phase().is_terminal() ==> worker.step(input).0.stage.phase()
            == worker.stage.phase(),
        worker.stage.phase() == TaskPhase::Running ==> worker.step(input).0.stage.phase()
            != TaskPhase::Starting,
        worker.step(input).0.stage == Stage::Pumping && worker.stage != Stage::Pumping
            ==> worker.stage == Stage::AwaitStep(SetupStep::Settle),
        worker.step(input).0.task_id == worker.task_id,
{
}

/// The terminal event and the task's removal go together: the worker asks
/// for the removal exactly when it sends a terminal event, which is exactly
/// when it ends the task. Every event it sends bears the task's identifier.
pub proof fn lemma_removal_follows_terminal_event(worker: WorkerView, input: WorkerInputView)
    ensures
        ({
            let (next, output) = worker.step(input);
            let ends = !(worker.stage is Ended) && next.stage is Ended;
            &&& output.action == WorkerAction::Finish <==> ends
            &&& (output.event is Some && output.event->0.is_terminal()) <==> ends
            &&& ends ==> output.event == Some(next.stage->Ended_0.event(worker.task_id))
            &&& output.event is Some ==> output.event->0.task_id() == worker.task_id
            &&& output.event is Some && !ends ==> worker.stage == Stage::AwaitHost
                && output.event->0.is_running()
        }),
{
}

/// At every point of a worker's course from a fresh start, what it has
/// sent is what [`WorkerView::has_sent`] allows at its stage. So `running`
/// is sent at most once and before anything else, and a terminal event is
/// sent exactly once, last, when the task ends.
pub proof fn lemma_worker_course(task_id: Seq<char>, host_id: i64, inputs: Seq<WorkerInputView>)
    ensures
        ({
            let run = WorkerView::fresh(task_id, host_id).run(inputs);
            run.worker.task_id == task_id && run.worker.has_sent(run.events)
        }),
    decreases inputs.len(),
{
    if inputs.len() > 0 {
        lemma_worker_course(task_id, host_id, inputs.drop_last());
        let before = WorkerView::fresh(task_id, host_id).run(inputs.drop_last());
        let running = before.worker.progress(ProgressStatus::Running);
        lemma_removal_follows_terminal_event(before.worker, inputs.last());
        let (_, output) = before.worker.step(inputs.last());
        if output.event is Some && before.worker.stage != Stage::AwaitHost {
            assert(before.events.push(output.event->0) =~= seq![running, output.event->0]);
        }
    }
}

/// A trace of one task is in order when every event bears the task's
/// identifier, `running` comes first if it comes at all, output comes only
/// after `running`, and a terminal event comes last if it comes at all.
pub open spec fn in_order(trace: Seq<EventView>, task_id: Seq<char>) -> bool {
    &&& forall|i: int| 0 <= i < trace.len() ==> (#[trigger] trace[i]).task_id() == task_id
    &&& forall|i: int| 0 <= i < trace.len() && (#[trigger] trace[i]).is_running() ==> i == 0
    &&& forall|i: int|
        0 <= i < trace.len() && (#[trigger] trace[i]).is_output() ==> i > 0
            && trace[0].is_running()
    &&& forall|i: int|
        0 <= i < trace.len() && (#[trigger] trace[i]).is_terminal() ==> i == trace.len() - 1
}

/// All that is sent for one task: what its worker sends up to the start of
/// the reader and the writer, then what the reader sends, then what the
/// worker sends once both have stopped. Where setup does not reach the
/// running shell, no reader is started.
pub open spec fn task_trace(
    task_id: Seq<char>,
    host_id: i64,
    cap: nat,
    setup: Seq<WorkerInputView>,
    reads: Seq<ReadOutcomeView>,
    closing: Seq<WorkerInputView>,
) -> Seq<EventView> {
    let started = WorkerView::fresh(task_id, host_id).run(setup);
    if started.worker.stage == Stage::Pumping {
        started.events + ReaderView::fresh(task_id, cap).run(reads).events + started.worker.run(
            closing,
        ).events
    } else {
        started.events
    }
}

/// The worker at the end of the course that [`task_trace`] describes.
pub open spec fn task_end(
    task_id: Seq<char>,
    host_id: i64,
    setup: Seq<WorkerInputView>,
    closing: Seq<WorkerInputView>,
) -> WorkerView {
    let started = WorkerView::fresh(task_id, host_id).run(setup);
    if started.worker.stage == Stage::Pumping {
        started.worker.run(closing).worker
    } else {
        started.worker
    }
}

/// Every event a reader sends is an output event of its task.
pub proof fn lemma_reader_sends_output_only(reader: ReaderView, reads: Seq<ReadOutcomeView>)
    ensures
        forall|i: int|
            0 <= i < reader.run(reads).events.len() ==> {
                let event = #[trigger] reader.run(reads).events[i];
                event.is_output() && event.task_id() == reader.task_id
            },
        reader.run(reads).reader.task_id == reader.task_id,
    decreases reads.len(),
{
    if reads.len() > 0 {
        lemma_reader_sends_output_only(reader, reads.drop_last());
    }
}

/// A worker that starts from the running shell sends nothing until the
/// task ends, and then the terminal event alone.
proof fn lemma_closing_course(worker: WorkerView, inputs: Seq<WorkerInputView>)
    requires
        worker.stage == Stage::Pumping,
    ensures
        ({
            let run = worker.run(inputs);
            &&& run.worker.task_id == worker.task_id
            &&& match run.worker.stage {
                Stage::Pumping => run.events.len() == 0,
                Stage::Draining(_) => run.events.len() == 0,
                Stage::Closing => run.events.len() == 0,
                Stage::Ended(terminal) => run.events == seq![terminal.event(worker.task_id)],
                _ => false,
            }
        }),
    decreases inputs.len(),
{
    if inputs.len() > 0 {
        lemma_closing_course(worker, inputs.drop_last());
        lemma_removal_follows_terminal_event(
            worker.run(inputs.drop_last()).worker,
            inputs.last(),
        );
    }
}

/// Whatever the directory, the setup steps, the reads and the two workers'
/// exits turn out to be, the events of one task are in order: `running`
/// precedes all output, and the terminal event is the last. A task that
/// has ended has sent exactly one terminal event; one that has not has sent
/// none.
pub proof fn lemma_task_trace_in_order(
    task_id: Seq<char>,
    host_id: i64,
    cap: nat,
    setup: Seq<WorkerInputView>,
    reads: Seq<ReadOutcomeView>,
    closing: Seq<WorkerInputView>,
)
    ensures
        ({
            let trace = task_trace(task_id, host_id, cap, setup, reads, closing);
            let end = task_end(task_id, host_id, setup, closing);
            &&& in_order(trace, task_id)
            &&& end.stage matches Stage::Ended(terminal) ==> trace.len() > 0 && trace.last()
                == terminal.event(task_id)
            &&& !(end.stage is Ended) ==> forall|i: int|
                0 <= i < trace.len() ==> !(#[trigger] trace[i]).is_terminal()
        }),
{
    let started = WorkerView::fresh(task_id, host_id).run(setup);
    lemma_worker_course(task_id, host_id, setup);
    if started.worker.stage == Stage::Pumping {
        lemma_reader_sends_output_only(ReaderView::fresh(task_id, cap), reads);
        lemma_closing_course(started.worker, closing);
    }
}

/// Cancellation ends a running task in `cancelled`: where the flag stands
/// when the reader and the writer have stopped and neither reports a
/// failure, the worker sends `cancelled`, asks for the task's removal, and
/// sends nothing after it, neither `done` nor `error`.
pub proof fn lemma_cancel_ends_in_cancelled(
    worker: WorkerView,
    reader: ReaderExit,
    writer: WriterExit,
    later: Seq<WorkerInputView>,
)
    requires
        worker.stage == Stage::Pumping,
        reader_failure(reader) is None,
        writer_failure(writer) is None,
    ensures
        ({
            let (draining, first) = worker.step(WorkerInputView::ReaderStopped(reader));
            let (next, output) = draining.step(
                WorkerInputView::WriterStopped { writer, cancel_requested: true },
            );
            &&& first.event is None
            &&& first.action == WorkerAction::CloseInput
            &&& output.event == Some(worker.progress(ProgressStatus::Cancelled))
            &&& output.action == WorkerAction::Finish
            &&& next.stage == Stage::Ended(Terminal::Cancelled)
            &&& next.run(later).events.len() == 0
        }),
{
    let (draining, _) = worker.step(WorkerInputView::ReaderStopped(reader));
    let (next, _) = draining.step(
        WorkerInputView::WriterStopped { writer, cancel_requested: true },
    );
    lemma_ended_worker_is_silent(next, later);
}

/// A breach of the output cap ends the task in `error`, cancelled or not
/// and whatever the writer did; no `done` follows.
pub proof fn lemma_cap_breach_ends_in_error(
    worker: WorkerView,
    writer: WriterExit,
    cancel_requested: bool,
    later: Seq<WorkerInputView>,
)
    requires
        worker.stage == Stage::Pumping,
    ensures
        ({
            let (draining, first) = worker.step(
                WorkerInputView::ReaderStopped(ReaderExit::LimitExceeded),
            );
            let (next, output) = draining.step(
                WorkerInputView::WriterStopped { writer, cancel_requested },
            );
            &&& first.event is None
            &&& output.event == Some(worker.progress(ProgressStatus::Error))
            &&& output.action == WorkerAction::Finish
            &&& next.stage == Stage::Ended(Terminal::Error(TaskFailure::LimitExceeded))
            &&& next.run(later).events.len() == 0
        }),
{
    let (draining, _) = worker.step(WorkerInputView::ReaderStopped(ReaderExit::LimitExceeded));
    let (next, _) = draining.step(WorkerInputView::WriterStopped { writer, cancel_requested });
    lemma_ended_worker_is_silent(next, later);
}

} // verus!
