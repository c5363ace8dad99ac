//! The worker that drains the remote shell's output.
//!
//! The reader owns a running total of what it has forwarded. Before each
//! read it is told whether cancellation was requested; after each read it is
//! told what the read gave, and answers with what to do next.

use crate::events::{Event, EventView};
use crate::text::{concat, decode_lossy, faithful, lemma_concat_push, lemma_faithful_concat, lossy_text, lossy_texts};
use vstd::prelude::*;
use vstd::utf8::*;

verus! {

/// Most output bytes a task may produce: 10 MiB.
pub const MAX_OUTPUT_BYTES: usize = 10 * 1024 * 1024;

/// Size of the buffer a single read fills.
pub const READ_BUFFER_BYTES: usize = 8192;

/// Pause before the next attempt when a read found nothing, in milliseconds.
pub const READ_RETRY_MS: u64 = 3;

/// How a read or a write failed, as far as the workers tell failures apart.
#[derive(Clone, Copy, Debug, PartialEq, Eq, Structural)]
pub enum IoFailure {
    /// Nothing was ready and the call would have had to wait.
    WouldBlock,
    /// The per-call timeout ran out.
    TimedOut,
    /// Anything else.
    Other,
}

impl IoFailure {
    /// A failure that only says "not now": the attempt is repeated.
    pub open spec fn is_transient(self) -> bool {
        self != IoFailure::Other
    }
}

/// What one read attempt on the shared session gave.
#[derive(Debug, PartialEq, Eq)]
pub enum ReadOutcome {
    /// The bytes read. None at all means that the remote side closed the
    /// stream.
    Data(Vec<u8>),
    /// The read failed.
    Failed(IoFailure),
    /// The lock on the session could not be taken.
    LockFailed,
}

/// A [`ReadOutcome`] with its bytes as a sequence.
pub ghost enum ReadOutcomeView {
    Data(Seq<u8>),
    Failed(IoFailure),
    LockFailed,
}

impl View for ReadOutcome {
    type V = ReadOutcomeView;

    open spec fn view(&self) -> ReadOutcomeView {
        match self {
            ReadOutcome::Data(bytes) => ReadOutcomeView::Data(bytes@),
            ReadOutcome::Failed(failure) => ReadOutcomeView::Failed(*failure),
            ReadOutcome::LockFailed => ReadOutcomeView::LockFailed,
        }
    }
}

/// Why the reader stopped.
#[derive(Clone, Copy, Debug, PartialEq, Eq, Structural)]
pub enum ReaderExit {
    /// The cancellation flag was seen set.
    Cancelled,
    /// A read returned no bytes.
    EndOfStream,
    /// The next chunk would have taken the total over the cap.
    LimitExceeded,
    /// A read failed for good.
    ReadFailed,
    /// The lock on the session could not be taken.
    LockFailure,
}

/// The reader's answer to the cancellation flag.
#[derive(Clone, Copy, Debug, PartialEq, Eq, Structural)]
pub enum ReaderPoll {
    /// Make one read attempt.
    Read,
    /// Make no further attempt.
    Stop(ReaderExit),
}

/// The reader's answer to the outcome of a read.
#[derive(Debug, PartialEq, Eq)]
pub enum ReaderStep {
    /// Send this output event, then go on.
    Emit(Event),
    /// Release the lock, pause for [`READ_RETRY_MS`], then go on.
    Sleep,
    /// Make no further attempt.
    Stop(ReaderExit),
}

/// A [`ReaderStep`] with its event as a view.
pub ghost enum ReaderStepView {
    Emit(EventView),
    Sleep,
    Stop(ReaderExit),
}

impl View for ReaderStep {
    type V = ReaderStepView;

    open spec fn view(&self) -> ReaderStepView {
        match self {
            ReaderStep::Emit(event) => ReaderStepView::Emit(event@),
            ReaderStep::Sleep => ReaderStepView::Sleep,
            ReaderStep::Stop(exit) => ReaderStepView::Stop(*exit),
        }
    }
}

/// The reader's state.
pub ghost struct ReaderView {
    pub task_id: Seq<char>,
    /// Most bytes that may be forwarded in all.
    pub cap: nat,
    /// Bytes forwarded so far.
    pub total: nat,
    /// Why the reader stopped, once it has.
    pub exit: Option<ReaderExit>,
}

impl ReaderView {
    /// A reader that has forwarded nothing yet.
    pub open spec fn fresh(task_id: Seq<char>, cap: nat) -> ReaderView {
        ReaderView { task_id, cap, total: 0, exit: None }
    }

    pub open spec fn stopped(self, exit: ReaderExit) -> ReaderView {
        ReaderView { exit: Some(exit), ..self }
    }

    /// The reader after the cancellation flag was shown to it, and its answer.
    pub open spec fn poll(self, cancel_requested: bool) -> (ReaderView, ReaderPoll) {
        match self.exit {
            Some(exit) => (self, ReaderPoll::Stop(exit)),
            None => if cancel_requested {
                (self.stopped(ReaderExit::Cancelled), ReaderPoll::Stop(ReaderExit::Cancelled))
            } else {
                (self, ReaderPoll::Read)
            },
        }
    }

    /// The output event that forwards `bytes`.
    pub open spec fn output(self, bytes: Seq<u8>) -> EventView {
        EventView::Output { task_id: self.task_id, data: lossy_text(bytes) }
    }

    /// The reader after a read gave `outcome`, and its answer.
    pub open spec fn read(self, outcome: ReadOutcomeView) -> (ReaderView, ReaderStepView) {
        match self.exit {
            Some(exit) => (self, ReaderStepView::Stop(exit)),
            None => match outcome {
                ReadOutcomeView::Data(bytes) => if bytes.len() == 0 {
                    (
                        self.stopped(ReaderExit::EndOfStream),
                        ReaderStepView::Stop(ReaderExit::EndOfStream),
                    )
                } else if self.total + bytes.len() > self.cap {
                    (
                        self.stopped(ReaderExit::LimitExceeded),
                        ReaderStepView::Stop(ReaderExit::LimitExceeded),
                    )
                } else {
                    (
                        ReaderView { total: self.total + bytes.len(), ..self },
                        ReaderStepView::Emit(self.output(bytes)),
                    )
                },
                ReadOutcomeView::Failed(failure) => if failure.is_transient() {
                    (self, ReaderStepView::Sleep)
                } else {
                    (
                        self.stopped(ReaderExit::ReadFailed),
                        ReaderStepView::Stop(ReaderExit::ReadFailed),
                    )
                },
                ReadOutcomeView::LockFailed => (
                    self.stopped(ReaderExit::LockFailure),
                    ReaderStepView::Stop(ReaderExit::LockFailure),
                ),
            },
        }
    }
}

/// The reader of one task.
pub struct Reader {
    task_id: String,
    cap: usize,
    total: usize,
    exit: Option<ReaderExit>,
}

impl View for Reader {
    type V = ReaderView;

    closed spec fn view(&self) -> ReaderView {
        ReaderView {
            task_id: self.task_id@,
            cap: self.cap as nat,
            total: self.total as nat,
            exit: self.exit,
        }
    }
}

impl Reader {
    #[verifier::type_invariant]
    spec fn within_cap(&self) -> bool {
        self.total <= self.cap
    }

    /// A reader for `task_id` that forwards at most `cap` bytes.
    pub fn new(task_id: &str, cap: usize) -> (reader: Reader)
        ensures
            reader@ == ReaderView::fresh(task_id@, cap as nat),
    {
        Reader { task_id: task_id.to_owned(), cap, total: 0, exit: None }
    }

    /// A reader for `task_id` with the standard cap, [`MAX_OUTPUT_BYTES`].
    pub fn standard(task_id: &str) -> (reader: Reader)
        ensures
            reader@ == ReaderView::fresh(task_id@, MAX_OUTPUT_BYTES as nat),
    {
        Reader::new(task_id, MAX_OUTPUT_BYTES)
    }

    /// Bytes forwarded so far.
    pub fn total(&self) -> (n: usize)
        ensures
            n == self@.total,
            n <= self@.cap,
    {
        proof {
            use_type_invariant(self);
        }
        self.total
    }

    /// Why the reader stopped, once it has.
    pub fn exit(&self) -> (exit: Option<ReaderExit>)
        ensures
            exit == self@.exit,
    {
        self.exit
    }

    /// Shows the reader the cancellation flag, before a read. A set flag
    /// stops the reader at once; a reader that has stopped stays stopped.
    pub fn poll(&mut self, cancel_requested: bool) -> (answer: ReaderPoll)
        ensures
            (final(self)@, answer) == old(self)@.poll(cancel_requested),
    {
        proof {
            use_type_invariant(&*self);
        }
        match self.exit {
            Some(exit) => ReaderPoll::Stop(exit),
            None => {
                if cancel_requested {
                    self.exit = Some(ReaderExit::Cancelled);
                    ReaderPoll::Stop(ReaderExit::Cancelled)
                } else {
                    ReaderPoll::Read
                }
            },
        }
    }

    /// Tells the reader what a read gave. A chunk that fits under the cap is
    /// decoded and comes back as one output event; a chunk that does not fit
    /// stops the reader and is not forwarded.
    pub fn on_read(&mut self, outcome: ReadOutcome) -> (step: ReaderStep)
        ensures
            (final(self)@, step@) == old(self)@.read(outcome@),
            step matches ReaderStep::Emit(event) ==> outcome matches ReadOutcome::Data(bytes)
                && event@ matches EventView::Output { data, .. } && (valid_utf8(bytes@)
                ==> encode_utf8(data) == bytes@),
    {
        proof {
            use_type_invariant(&*self);
        }
        if let Some(exit) = self.exit {
            return ReaderStep::Stop(exit);
        }
        match outcome {
            ReadOutcome::Data(bytes) => {
                let n = bytes.len();
                if n == 0 {
                    self.exit = Some(ReaderExit::EndOfStream);
                    ReaderStep::Stop(ReaderExit::EndOfStream)
                } else if n > self.cap - self.total {
                    self.exit = Some(ReaderExit::LimitExceeded);
                    ReaderStep::Stop(ReaderExit::LimitExceeded)
                } else {
                    let text = decode_lossy(bytes.as_slice());
                    let event = Event::output(self.task_id.as_str(), text);
                    self.total = self.total + n;
                    ReaderStep::Emit(event)
                }
            },
            ReadOutcome::Failed(failure) => match failure {
                IoFailure::Other => {
                    self.exit = Some(ReaderExit::ReadFailed);
                    ReaderStep::Stop(ReaderExit::ReadFailed)
                },
                _ => ReaderStep::Sleep,
            },
            ReadOutcome::LockFailed => {
                self.exit = Some(ReaderExit::LockFailure);
                ReaderStep::Stop(ReaderExit::LockFailure)
            },
        }
    }
}

/// What a reader has done over a series of reads.
pub ghost struct ReaderRun {
    /// The reader afterwards.
    pub reader: ReaderView,
    /// The events it asked to send, in order.
    pub events: Seq<EventView>,
}

impl ReaderView {
    /// The reader's course over `reads`, each answered in turn.
    pub open spec fn run(self, reads: Seq<ReadOutcomeView>) -> ReaderRun
        decreases reads.len(),
    {
        if reads.len() == 0 {
            ReaderRun { reader: self, events: Seq::empty() }
        } else {
            let before = self.run(reads.drop_last());
            let (reader, step) = before.reader.read(reads.last());
            ReaderRun {
                reader,
                events: match step {
                    ReaderStepView::Emit(event) => before.events.push(event),
                    _ => before.events,
                },
            }
        }
    }

    /// Whether the reader can forward all of `chunks`: it has not stopped,
    /// no chunk is empty, and the cap leaves room for them together.
    pub open spec fn can_forward(self, chunks: Seq<Seq<u8>>) -> bool {
        &&& self.exit is None
        &&& forall|i: int| 0 <= i < chunks.len() ==> (#[trigger] chunks[i]).len() > 0
        &&& self.total + concat(chunks).len() <= self.cap
    }

    /// The output events that forward `chunks`, one each.
    pub open spec fn outputs(self, chunks: Seq<Seq<u8>>) -> Seq<EventView> {
        chunks.map_values(|bytes: Seq<u8>| self.output(bytes))
    }
}

/// The reads that deliver `chunks`, one read each.
pub open spec fn data_reads(chunks: Seq<Seq<u8>>) -> Seq<ReadOutcomeView> {
    chunks.map_values(|bytes: Seq<u8>| ReadOutcomeView::Data(bytes))
}

/// The payload of an output event.
pub open spec fn output_text(event: EventView) -> Seq<char> {
    match event {
        EventView::Output { data, .. } => data,
        _ => Seq::empty(),
    }
}

/// A course over two series of reads is the course over the first followed
/// by the course over the second.
pub proof fn lemma_run_append(
    reader: ReaderView,
    first: Seq<ReadOutcomeView>,
    second: Seq<ReadOutcomeView>,
)
    ensures
        reader.run(first + second).reader == reader.run(first).reader.run(second).reader,
        reader.run(first + second).events == reader.run(first).events + reader.run(
            first,
        ).reader.run(second).events,
    decreases second.len(),
{
    let mid = reader.run(first);
    if second.len() > 0 {
        assert((first + second).drop_last() =~= first + second.drop_last());
        lemma_run_append(reader, first, second.drop_last());
        let before = mid.reader.run(second.drop_last());
        let (_, step) = before.reader.read(second.last());
        match step {
            ReaderStepView::Emit(event) => {
                assert((mid.events + before.events).push(event) =~= mid.events
                    + before.events.push(event));
            },
            _ => {},
        }
    }
}

/// A reader that has stopped stays stopped: whatever it is shown, it asks
/// for no read and sends nothing.
pub proof fn lemma_stopped_reader_is_silent(reader: ReaderView, reads: Seq<ReadOutcomeView>)
    requires
        reader.exit is Some,
    ensures
        reader.run(reads) == (ReaderRun { reader, events: Seq::empty() }),
        forall|flag: bool| #[trigger]
            reader.poll(flag) == (reader, ReaderPoll::Stop(reader.exit->0)),
    decreases reads.len(),
{
    if reads.len() > 0 {
        lemma_stopped_reader_is_silent(reader, reads.drop_last());
    }
}

/// Once the reader has seen the cancellation flag set, it makes no further
/// read attempt and sends nothing more.
pub proof fn lemma_cancel_stops_reader(reader: ReaderView, reads: Seq<ReadOutcomeView>)
    ensures
        reader.poll(true).1 is Stop,
        reader.exit is None ==> reader.poll(true).1 == ReaderPoll::Stop(ReaderExit::Cancelled),
        reader.poll(true).0.run(reads).events.len() == 0,
        reader.poll(true).0.run(reads).reader == reader.poll(true).0,
{
    lemma_stopped_reader_is_silent(reader.poll(true).0, reads);
}

/// Reads that succeed are forwarded one event each, in the order in which
/// they were made, and each event carries the text of its own chunk.
pub proof fn lemma_outputs_follow_reads(reader: ReaderView, chunks: Seq<Seq<u8>>)
    requires
        reader.can_forward(chunks),
    ensures
        reader.run(data_reads(chunks)).events == reader.outputs(chunks),
        reader.run(data_reads(chunks)).reader == (ReaderView {
            total: reader.total + concat(chunks).len(),
            ..reader
        }),
    decreases chunks.len(),
{
    if chunks.len() > 0 {
        let head = chunks.drop_last();
        assert(data_reads(chunks).drop_last() =~= data_reads(head));
        lemma_concat_push(head, chunks.last());
        lemma_outputs_follow_reads(reader, head);
        assert(reader.outputs(chunks) =~= reader.outputs(head).push(
            reader.output(chunks.last()),
        ));
    }
}

/// The texts sent for reads that succeed, put together, are the bytes that
/// were read, put together, as far as decoding hands the chunks on intact.
pub proof fn lemma_outputs_carry_the_bytes(reader: ReaderView, chunks: Seq<Seq<u8>>)
    requires
        reader.can_forward(chunks),
        forall|i: int| 0 <= i < chunks.len() ==> faithful(#[trigger] chunks[i]),
    ensures
        encode_utf8(
            concat(
                reader.run(data_reads(chunks)).events.map_values(|e: EventView| output_text(e)),
            ),
        ) == concat(chunks),
{
    lemma_outputs_follow_reads(reader, chunks);
    lemma_faithful_concat(chunks);
    assert(reader.outputs(chunks).map_values(|e: EventView| output_text(e)) =~= lossy_texts(
        chunks,
    ));
}

/// The read that would take the total over the cap stops the reader with
/// `LimitExceeded`. What was sent is exactly what the reads before it
/// delivered; the breaching chunk and all that follows are not forwarded.
pub proof fn lemma_cap_breach_stops_reader(
    reader: ReaderView,
    chunks: Seq<Seq<u8>>,
    breaching: Seq<u8>,
    later: Seq<ReadOutcomeView>,
)
    requires
        reader.can_forward(chunks),
        reader.total + concat(chunks).len() + breaching.len() > reader.cap,
    ensures
        reader.run(data_reads(chunks).push(ReadOutcomeView::Data(breaching)) + later).events
            == reader.outputs(chunks),
        reader.run(
            data_reads(chunks).push(ReadOutcomeView::Data(breaching)) + later,
        ).reader.exit == Some(ReaderExit::LimitExceeded),
{
    let reads = data_reads(chunks).push(ReadOutcomeView::Data(breaching));
    lemma_outputs_follow_reads(reader, chunks);
    assert(reads.drop_last() =~= data_reads(chunks));
    lemma_run_append(reader, reads, later);
    lemma_stopped_reader_is_silent(reader.run(reads).reader, later);
}

} // verus!
