//! The worker that forwards the caller's input to the remote shell.
//!
//! Before each wait for input the writer is told whether cancellation was
//! requested. It is then told what the wait gave and, where it asked for a
//! write, how the write went.

use crate::registry::{InputPoll, InputPollView};
use vstd::prelude::*;

verus! {

/// Longest wait for input before the cancellation flag is looked at again,
/// in milliseconds.
pub const INPUT_WAIT_MS: u64 = 50;

/// How one write of a whole chunk, followed by a flush, went.
#[derive(Clone, Copy, Debug, PartialEq, Eq, Structural)]
pub enum WriteOutcome {
    /// The chunk was written. A flush that failed is noted and not held
    /// against the writer.
    Written { flushed: bool },
    /// The write failed.
    Failed,
    /// The lock on the session could not be taken.
    LockFailed,
}

/// Why the writer stopped.
#[derive(Clone, Copy, Debug, PartialEq, Eq, Structural)]
pub enum WriterExit {
    /// The cancellation flag was seen set.
    Cancelled,
    /// The input channel is gone: the ordinary way to shut down.
    Disconnected,
    /// A write failed.
    WriteFailed,
    /// The lock on the session could not be taken.
    LockFailure,
}

/// The writer's answer to the cancellation flag or to a finished write.
#[derive(Clone, Copy, Debug, PartialEq, Eq, Structural)]
pub enum WriterPoll {
    /// Wait for input, at most [`INPUT_WAIT_MS`].
    Receive,
    /// Wait no more.
    Stop(WriterExit),
}

/// The writer's answer to what a wait for input gave.
#[derive(Debug, PartialEq, Eq)]
pub enum WriterStep {
    /// Write this chunk whole, flush, and report how it went.
    Write(Vec<u8>),
    /// Nothing came: go on.
    Idle,
    /// Wait no more.
    Stop(WriterExit),
}

/// A [`WriterStep`] with its chunk as a byte sequence.
pub ghost enum WriterStepView {
    Write(Seq<u8>),
    Idle,
    Stop(WriterExit),
}

impl View for WriterStep {
    type V = WriterStepView;

    open spec fn view(&self) -> WriterStepView {
        match self {
            WriterStep::Write(bytes) => WriterStepView::Write(bytes@),
            WriterStep::Idle => WriterStepView::Idle,
            WriterStep::Stop(exit) => WriterStepView::Stop(*exit),
        }
    }
}

/// The writer's state: why it stopped, once it has.
pub ghost struct WriterView {
    pub exit: Option<WriterExit>,
}

impl WriterView {
    /// A writer that has not stopped.
    pub open spec fn fresh() -> WriterView {
        WriterView { exit: None }
    }

    pub open spec fn stopped(exit: WriterExit) -> WriterView {
        WriterView { exit: Some(exit) }
    }

    /// The writer after the cancellation flag was shown to it, and its answer.
    pub open spec fn poll(self, cancel_requested: bool) -> (WriterView, WriterPoll) {
        match self.exit {
            Some(exit) => (self, WriterPoll::Stop(exit)),
            None => if cancel_requested {
                (
                    WriterView::stopped(WriterExit::Cancelled),
                    WriterPoll::Stop(WriterExit::Cancelled),
                )
            } else {
                (self, WriterPoll::Receive)
            },
        }
    }

    /// The writer after a wait for input gave `input`, and its answer.
    pub open spec fn take(self, input: InputPollView) -> (WriterView, WriterStepView) {
        match self.exit {
            Some(exit) => (self, WriterStepView::Stop(exit)),
            None => match input {
                InputPollView::Chunk(bytes) => (self, WriterStepView::Write(bytes)),
                InputPollView::Empty => (self, WriterStepView::Idle),
                InputPollView::Disconnected => (
                    WriterView::stopped(WriterExit::Disconnected),
                    WriterStepView::Stop(WriterExit::Disconnected),
                ),
            },
        }
    }

    /// The writer after a write went as `outcome` says, and its answer.
    pub open spec fn written(self, outcome: WriteOutcome) -> (WriterView, WriterPoll) {
        match self.exit {
            Some(exit) => (self, WriterPoll::Stop(exit)),
            None => match outcome {
                WriteOutcome::Written { .. } => (self, WriterPoll::Receive),
                WriteOutcome::Failed => (
                    WriterView::stopped(WriterExit::WriteFailed),
                    WriterPoll::Stop(WriterExit::WriteFailed),
                ),
                WriteOutcome::LockFailed => (
                    WriterView::stopped(WriterExit::LockFailure),
                    WriterPoll::Stop(WriterExit::LockFailure),
                ),
            },
        }
    }
}

/// The writer of one task.
pub struct Writer {
    exit: Option<WriterExit>,
}

impl View for Writer {
    type V = WriterView;

    closed spec fn view(&self) -> WriterView {
        WriterView { exit: self.exit }
    }
}

impl Writer {
    /// A writer that has not stopped.
    pub fn new() -> (writer: Writer)
        ensures
            writer@ == WriterView::fresh(),
    {
        Writer { exit: None }
    }

    /// Why the writer stopped, once it has.
    pub fn exit(&self) -> (exit: Option<WriterExit>)
        ensures
            exit == self@.exit,
    {
        self.exit
    }

    /// Shows the writer the cancellation flag, before a wait for input. A
    /// set flag stops the writer at once; a writer that has stopped stays
    /// stopped.
    pub fn poll(&mut self, cancel_requested: bool) -> (answer: WriterPoll)
        ensures
            (final(self)@, answer) == old(self)@.poll(cancel_requested),
    {
        match self.exit {
            Some(exit) => WriterPoll::Stop(exit),
            None => {
                if cancel_requested {
                    self.exit = Some(WriterExit::Cancelled);
                    WriterPoll::Stop(WriterExit::Cancelled)
                } else {
                    WriterPoll::Receive
                }
            },
        }
    }

    /// Tells the writer what the wait for input gave. A chunk is to be
    /// written as it came; a channel that is gone stops the writer without
    /// blame.
    pub fn on_input(&mut self, input: InputPoll) -> (step: WriterStep)
        ensures
            (final(self)@, step@) == old(self)@.take(input@),
    {
        if let Some(exit) = self.exit {
            return WriterStep::Stop(exit);
        }
        match input {
            InputPoll::Chunk(bytes) => WriterStep::Write(bytes),
            InputPoll::Empty => WriterStep::Idle,
            InputPoll::Disconnected => {
                self.exit = Some(WriterExit::Disconnected);
                WriterStep::Stop(WriterExit::Disconnected)
            },
        }
    }

    /// Tells the writer how the write it asked for went. Only a failed
    /// write, or a lock that could not be taken, stops the writer; a failed
    /// flush does not.
    pub fn on_write(&mut self, outcome: WriteOutcome) -> (answer: WriterPoll)
        ensures
            (final(self)@, answer) == old(self)@.written(outcome),
    {
        if let Some(exit) = self.exit {
            return WriterPoll::Stop(exit);
        }
        match outcome {
            WriteOutcome::Written { .. } => WriterPoll::Receive,
            WriteOutcome::Failed => {
                self.exit = Some(WriterExit::WriteFailed);
                WriterPoll::Stop(WriterExit::WriteFailed)
            },
            WriteOutcome::LockFailed => {
                self.exit = Some(WriterExit::LockFailure);
                WriterPoll::Stop(WriterExit::LockFailure)
            },
        }
    }
}

/// One turn of the writer: what the wait for input gave and, where that was
/// a chunk, how writing it went.
pub ghost struct WriterTurn {
    pub input: InputPollView,
    pub outcome: WriteOutcome,
}

/// What a writer has done over a series of turns.
pub ghost struct WriterRun {
    /// The writer afterwards.
    pub writer: WriterView,
    /// The chunks it asked to write, in order.
    pub writes: Seq<Seq<u8>>,
}

impl WriterView {
    /// The writer after one turn, with the chunk it asked to write, if any.
    pub open spec fn turn(self, turn: WriterTurn) -> (WriterView, Option<Seq<u8>>) {
        let (writer, step) = self.take(turn.input);
        match step {
            WriterStepView::Write(bytes) => (writer.written(turn.outcome).0, Some(bytes)),
            _ => (writer, None),
        }
    }

    /// The writer's course over `turns`, each answered in turn.
    pub open spec fn run(self, turns: Seq<WriterTurn>) -> WriterRun
        decreases turns.len(),
    {
        if turns.len() == 0 {
            WriterRun { writer: self, writes: Seq::empty() }
        } else {
            let before = self.run(turns.drop_last());
            let (writer, write) = before.writer.turn(turns.last());
            WriterRun {
                writer,
                writes: match write {
                    Some(bytes) => before.writes.push(bytes),
                    None => before.writes,
                },
            }
        }
    }
}

/// The turns in which `chunks` arrive one after the other and are written.
pub open spec fn chunk_turns(chunks: Seq<Seq<u8>>) -> Seq<WriterTurn> {
    chunks.map_values(
        |bytes: Seq<u8>|
            WriterTurn {
                input: InputPollView::Chunk(bytes),
                outcome: WriteOutcome::Written { flushed: true },
            },
    )
}

/// Input reaches the remote side in the order in which it was queued: the
/// writer asks for one write per chunk, in order, with the bytes unchanged.
pub proof fn lemma_writes_follow_input(writer: WriterView, chunks: Seq<Seq<u8>>)
    requires
        writer.exit is None,
    ensures
        writer.run(chunk_turns(chunks)).writes == chunks,
        writer.run(chunk_turns(chunks)).writer == writer,
    decreases chunks.len(),
{
    if chunks.len() > 0 {
        assert(chunk_turns(chunks).drop_last() =~= chunk_turns(chunks.drop_last()));
        lemma_writes_follow_input(writer, chunks.drop_last());
    }
}

/// A writer that has stopped stays stopped: whatever it is shown, it asks
/// for no write.
pub proof fn lemma_stopped_writer_is_silent(writer: WriterView, turns: Seq<WriterTurn>)
    requires
        writer.exit is Some,
    ensures
        writer.run(turns) == (WriterRun { writer, writes: Seq::empty() }),
        forall|flag: bool| #[trigger]
            writer.poll(flag) == (writer, WriterPoll::Stop(writer.exit->0)),
    decreases turns.len(),
{
    if turns.len() > 0 {
        lemma_stopped_writer_is_silent(writer, turns.drop_last());
    }
}

/// Once the writer has seen the cancellation flag set, it asks for no
/// further write.
pub proof fn lemma_cancel_stops_writer(writer: WriterView, turns: Seq<WriterTurn>)
    ensures
        writer.poll(true).1 is Stop,
        writer.exit is None ==> writer.poll(true).1 == WriterPoll::Stop(WriterExit::Cancelled),
        writer.poll(true).0.run(turns).writes.len() == 0,
{
    lemma_stopped_writer_is_silent(writer.poll(true).0, turns);
}

} // verus!
