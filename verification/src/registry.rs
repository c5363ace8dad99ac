//! The table of live tasks.
//!
//! A task is known by the identifier its caller chose. The registry owns the
//! task's cancellation flag and the queue through which input reaches the
//! task's writer; whether a task exists is decided here and nowhere else.

use vstd::prelude::*;

verus! {

/// Why a caller's request was turned down.
#[derive(Clone, Copy, Debug, PartialEq, Eq, Structural)]
pub enum TaskError {
    /// `start` named a task that is already registered.
    DuplicateTask,
    /// The task is not registered.
    TaskNotFound,
    /// The task's writer has gone and takes no more input.
    ChannelClosed,
}

impl TaskError {
    pub open spec fn text(self) -> Seq<char> {
        match self {
            TaskError::DuplicateTask => "Task already exists"@,
            TaskError::TaskNotFound => "Task not found"@,
            TaskError::ChannelClosed => "Stdin sender not available"@,
        }
    }

    /// The message shown to the caller.
    pub fn message(self) -> (text: &'static str)
        ensures
            text@ == self.text(),
    {
        match self {
            TaskError::DuplicateTask => "Task already exists",
            TaskError::TaskNotFound => "Task not found",
            TaskError::ChannelClosed => "Stdin sender not available",
        }
    }
}

/// What the registry knows of one task.
pub ghost struct TaskState {
    /// Cancellation has been requested.
    pub cancelled: bool,
    /// The chunks waiting for the writer, oldest first; `None` once the
    /// input channel has been torn down.
    pub input: Option<Seq<Seq<u8>>>,
}

/// The registry as a mathematical map from task identifier to state.
pub type Tasks = Map<Seq<char>, TaskState>;

/// The state of a task that has just been started.
pub open spec fn fresh_task() -> TaskState {
    TaskState { cancelled: false, input: Some(Seq::empty()) }
}

/// `tasks` after `start(id)`: unchanged where `id` is live.
pub open spec fn started(tasks: Tasks, id: Seq<char>) -> Tasks {
    if tasks.contains_key(id) {
        tasks
    } else {
        tasks.insert(id, fresh_task())
    }
}

/// `tasks` after `cancel(id)`: the flag of `id` is set, where `id` is live.
pub open spec fn cancelled(tasks: Tasks, id: Seq<char>) -> Tasks {
    if tasks.contains_key(id) {
        tasks.insert(id, TaskState { cancelled: true, input: tasks[id].input })
    } else {
        tasks
    }
}

/// Whether `deliver_input(id, ..)` finds an open queue.
pub open spec fn accepts_input(tasks: Tasks, id: Seq<char>) -> bool {
    tasks.contains_key(id) && tasks[id].input is Some
}

/// `tasks` after `deliver_input(id, bytes)`: the chunk goes to the back of
/// the queue of `id`, where that queue is open.
pub open spec fn delivered(tasks: Tasks, id: Seq<char>, bytes: Seq<u8>) -> Tasks {
    if accepts_input(tasks, id) {
        tasks.insert(
            id,
            TaskState { cancelled: tasks[id].cancelled, input: Some(tasks[id].input->0.push(bytes)) },
        )
    } else {
        tasks
    }
}

/// `tasks` after the writer of `id` has taken the oldest waiting chunk.
pub open spec fn received(tasks: Tasks, id: Seq<char>) -> Tasks {
    if accepts_input(tasks, id) && tasks[id].input->0.len() > 0 {
        tasks.insert(
            id,
            TaskState {
                cancelled: tasks[id].cancelled,
                input: Some(tasks[id].input->0.drop_first()),
            },
        )
    } else {
        tasks
    }
}

/// `tasks` after the input channel of `id` has been torn down.
pub open spec fn closed(tasks: Tasks, id: Seq<char>) -> Tasks {
    if tasks.contains_key(id) {
        tasks.insert(id, TaskState { cancelled: tasks[id].cancelled, input: None })
    } else {
        tasks
    }
}

/// What the writer finds when it asks for input.
#[derive(Clone, Debug, PartialEq, Eq)]
pub enum InputPoll {
    /// The oldest waiting chunk.
    Chunk(Vec<u8>),
    /// Nothing is waiting.
    Empty,
    /// The task is gone or its channel is closed: no input will come.
    Disconnected,
}

/// An [`InputPoll`] with its chunk as a byte sequence.
pub ghost enum InputPollView {
    Chunk(Seq<u8>),
    Empty,
    Disconnected,
}

impl View for InputPoll {
    type V = InputPollView;

    open spec fn view(&self) -> InputPollView {
        match self {
            InputPoll::Chunk(bytes) => InputPollView::Chunk(bytes@),
            InputPoll::Empty => InputPollView::Empty,
            InputPoll::Disconnected => InputPollView::Disconnected,
        }
    }
}

/// What a poll of `id` returns on `tasks`.
pub open spec fn next_input(tasks: Tasks, id: Seq<char>) -> InputPollView {
    if !accepts_input(tasks, id) {
        InputPollView::Disconnected
    } else if tasks[id].input->0.len() == 0 {
        InputPollView::Empty
    } else {
        InputPollView::Chunk(tasks[id].input->0.first())
    }
}

struct TaskEntry {
    id: String,
    cancel: bool,
    open: bool,
    queue: Vec<Vec<u8>>,
}

impl TaskEntry {
    spec fn state(self) -> TaskState {
        TaskState {
            cancelled: self.cancel,
            input: if self.open {
                Some(self.queue@.map_values(|chunk: Vec<u8>| chunk@))
            } else {
                None
            },
        }
    }
}

spec fn has_id(entries: Seq<TaskEntry>, id: Seq<char>, i: int) -> bool {
    0 <= i < entries.len() && entries[i].id@ == id
}

spec fn distinct_ids(entries: Seq<TaskEntry>) -> bool {
    forall|i: int, j: int|
        0 <= i < j < entries.len() ==> (#[trigger] entries[i]).id@ != (#[trigger] entries[j]).id@
}

spec fn tasks_of(entries: Seq<TaskEntry>) -> Tasks {
    Map::new(
        |id: Seq<char>| exists|i: int| has_id(entries, id, i),
        |id: Seq<char>| entries[choose|i: int| has_id(entries, id, i)].state(),
    )
}

proof fn lemma_entry_found(entries: Seq<TaskEntry>, i: int)
    requires
        distinct_ids(entries),
        0 <= i < entries.len(),
    ensures
        tasks_of(entries).contains_key(entries[i].id@),
        tasks_of(entries)[entries[i].id@] == entries[i].state(),
{
    assert(has_id(entries, entries[i].id@, i));
}

proof fn lemma_entry_absent(entries: Seq<TaskEntry>, id: Seq<char>)
    requires
        forall|i: int| 0 <= i < entries.len() ==> (#[trigger] entries[i]).id@ != id,
    ensures
        !tasks_of(entries).contains_key(id),
{
}

/// Replacing the entry at `i` by one of the same identifier rewrites that
/// identifier's state and nothing else.
proof fn lemma_entry_replaced(before: Seq<TaskEntry>, after: Seq<TaskEntry>, i: int)
    requires
        distinct_ids(before),
        0 <= i < before.len(),
        after.len() == before.len(),
        after[i].id@ == before[i].id@,
        forall|j: int| 0 <= j < before.len() && j != i ==> after[j] == before[j],
    ensures
        distinct_ids(after),
        tasks_of(after) == tasks_of(before).insert(before[i].id@, after[i].state()),
{
    let want = tasks_of(before).insert(before[i].id@, after[i].state());
    assert forall|id: Seq<char>| tasks_of(after).contains_key(id) == want.contains_key(id) by {
        if tasks_of(after).contains_key(id) {
            let j = choose|j: int| has_id(after, id, j);
            assert(has_id(before, id, j));
        }
        if want.contains_key(id) && id != before[i].id@ {
            let j = choose|j: int| has_id(before, id, j);
            assert(has_id(after, id, j));
        }
        if id == before[i].id@ {
            assert(has_id(after, id, i));
        }
    }
    assert forall|id: Seq<char>| tasks_of(after).contains_key(id) implies tasks_of(after)[id]
        == want[id] by {
        let j = choose|j: int| has_id(after, id, j);
        lemma_entry_found(after, j);
        if j != i {
            lemma_entry_found(before, j);
        }
    }
}

proof fn lemma_entry_pushed(before: Seq<TaskEntry>, entry: TaskEntry)
    requires
        distinct_ids(before),
        forall|i: int| 0 <= i < before.len() ==> (#[trigger] before[i]).id@ != entry.id@,
    ensures
        distinct_ids(before.push(entry)),
        tasks_of(before.push(entry)) == tasks_of(before).insert(entry.id@, entry.state()),
{
    let after = before.push(entry);
    let n = before.len() as int;
    let want = tasks_of(before).insert(entry.id@, entry.state());
    assert forall|id: Seq<char>| tasks_of(after).contains_key(id) == want.contains_key(id) by {
        if tasks_of(after).contains_key(id) {
            let j = choose|j: int| has_id(after, id, j);
            if j < n {
                assert(has_id(before, id, j));
            }
        }
        if want.contains_key(id) && id != entry.id@ {
            let j = choose|j: int| has_id(before, id, j);
            assert(has_id(after, id, j));
        }
        if id == entry.id@ {
            assert(has_id(after, id, n));
        }
    }
    assert forall|id: Seq<char>| tasks_of(after).contains_key(id) implies tasks_of(after)[id]
        == want[id] by {
        let j = choose|j: int| has_id(after, id, j);
        lemma_entry_found(after, j);
        if j < n {
            lemma_entry_found(before, j);
        }
    }
}

proof fn lemma_entry_removed(before: Seq<TaskEntry>, i: int)
    requires
        distinct_ids(before),
        0 <= i < before.len(),
    ensures
        distinct_ids(before.remove(i)),
        tasks_of(before.remove(i)) == tasks_of(before).remove(before[i].id@),
{
    let after = before.remove(i);
    let want = tasks_of(before).remove(before[i].id@);
    assert forall|id: Seq<char>| tasks_of(after).contains_key(id) == want.contains_key(id) by {
        if tasks_of(after).contains_key(id) {
            let j = choose|j: int| has_id(after, id, j);
            let j0 = if j < i { j } else { j + 1 };
            assert(has_id(before, id, j0));
        }
        if want.contains_key(id) {
            let j = choose|j: int| has_id(before, id, j);
            let j1 = if j < i { j } else { j - 1 };
            assert(has_id(after, id, j1));
        }
    }
    assert forall|id: Seq<char>| tasks_of(after).contains_key(id) implies tasks_of(after)[id]
        == want[id] by {
        let j = choose|j: int| has_id(after, id, j);
        lemma_entry_found(after, j);
        lemma_entry_found(before, if j < i { j } else { j + 1 });
    }
}

proof fn lemma_task_count(entries: Seq<TaskEntry>)
    requires
        distinct_ids(entries),
    ensures
        tasks_of(entries).dom().finite(),
        tasks_of(entries).len() == entries.len(),
    decreases entries.len(),
{
    if entries.len() == 0 {
        assert forall|id: Seq<char>| !tasks_of(entries).contains_key(id) by {
            lemma_entry_absent(entries, id);
        }
        assert(tasks_of(entries) =~= Tasks::empty());
    } else {
        let last = entries.len() - 1;
        let rest = entries.remove(last);
        lemma_entry_removed(entries, last);
        lemma_task_count(rest);
        lemma_entry_found(entries, last);
    }
}

/// The table of live tasks, keyed by task identifier.
pub struct TaskRegistry {
    entries: Vec<TaskEntry>,
}

impl View for TaskRegistry {
    type V = Tasks;

    closed spec fn view(&self) -> Tasks {
        tasks_of(self.entries@)
    }
}

impl TaskRegistry {
    #[verifier::type_invariant]
    spec fn well_formed(&self) -> bool {
        distinct_ids(self.entries@)
    }

    /// An empty registry.
    pub fn new() -> (registry: TaskRegistry)
        ensures
            registry@ == Tasks::empty(),
    {
        let registry = TaskRegistry { entries: Vec::new() };
        proof {
            assert(tasks_of(registry.entries@) =~= Tasks::empty()) by {
                assert forall|id: Seq<char>| !tasks_of(registry.entries@).contains_key(id) by {
                    lemma_entry_absent(registry.entries@, id);
                }
            }
        }
        registry
    }

    fn find(&self, task_id: &str) -> (found: Option<usize>)
        ensures
            match found {
                Some(i) => i < self.entries@.len() && self.entries@[i as int].id@ == task_id@,
                None => forall|i: int|
                    0 <= i < self.entries@.len() ==> (#[trigger] self.entries@[i]).id@ != task_id@,
            },
            found is Some == self@.contains_key(task_id@),
            found matches Some(i) ==> self@[task_id@] == self.entries@[i as int].state(),
    {
        proof {
            use_type_invariant(self);
        }
        let key = task_id.to_owned();
        let mut i: usize = 0;
        while i < self.entries.len()
            invariant
                i <= self.entries@.len(),
                key@ == task_id@,
                distinct_ids(self.entries@),
                forall|j: int| 0 <= j < i ==> (#[trigger] self.entries@[j]).id@ != task_id@,
            decreases self.entries@.len() - i,
        {
            if self.entries[i].id == key {
                proof {
                    lemma_entry_found(self.entries@, i as int);
                }
                return Some(i);
            }
            i += 1;
        }
        proof {
            lemma_entry_absent(self.entries@, task_id@);
        }
        None
    }

    /// Whether `task_id` is live.
    pub fn contains(&self, task_id: &str) -> (live: bool)
        ensures
            live == self@.contains_key(task_id@),
    {
        self.find(task_id).is_some()
    }

    /// Moves the entries out, leaving the table empty until they are put
    /// back.
    fn take(&mut self) -> (entries: Vec<TaskEntry>)
        ensures
            entries@ == old(self).entries@,
            distinct_ids(entries@),
            final(self).entries@.len() == 0,
    {
        proof {
            use_type_invariant(&*self);
        }
        let mut entries: Vec<TaskEntry> = Vec::new();
        std::mem::swap(&mut self.entries, &mut entries);
        entries
    }

    /// Registers `task_id` with a clear cancellation flag and an open, empty
    /// input queue. An identifier that is live is refused, and the live task
    /// is left as it was.
    pub fn start(&mut self, task_id: &str) -> (res: Result<(), TaskError>)
        ensures
            final(self)@ == started(old(self)@, task_id@),
            res == if old(self)@.contains_key(task_id@) {
                Err::<(), TaskError>(TaskError::DuplicateTask)
            } else {
                Ok::<(), TaskError>(())
            },
            res is Err ==> final(self)@ == old(self)@,
    {
        match self.find(task_id) {
            Some(_) => Err(TaskError::DuplicateTask),
            None => {
                let entry = TaskEntry {
                    id: task_id.to_owned(),
                    cancel: false,
                    open: true,
                    queue: Vec::new(),
                };
                let mut entries = self.take();
                proof {
                    lemma_entry_pushed(entries@, entry);
                    assert(entry.state().input->0 =~= Seq::<Seq<u8>>::empty());
                }
                entries.push(entry);
                self.entries = entries;
                Ok(())
            },
        }
    }

    /// Requests cancellation of `task_id`. Nothing happens where the task is
    /// not live, so the call may be repeated and may come late.
    pub fn cancel(&mut self, task_id: &str)
        ensures
            final(self)@ == cancelled(old(self)@, task_id@),
    {
        match self.find(task_id) {
            Some(i) => {
                let mut entries = self.take();
                let ghost before = entries@;
                let mut entry = entries.remove(i);
                entry.cancel = true;
                entries.insert(i, entry);
                proof {
                    lemma_entry_replaced(before, entries@, i as int);
                }
                self.entries = entries;
            },
            None => {},
        }
    }

    /// Queues `bytes` for the writer of `task_id`, behind what is already
    /// waiting. Fails, and changes nothing, where the task is not live or no
    /// longer takes input.
    pub fn deliver_input(&mut self, task_id: &str, bytes: Vec<u8>) -> (res: Result<(), TaskError>)
        ensures
            final(self)@ == delivered(old(self)@, task_id@, bytes@),
            res == if !old(self)@.contains_key(task_id@) {
                Err::<(), TaskError>(TaskError::TaskNotFound)
            } else if old(self)@[task_id@].input is None {
                Err::<(), TaskError>(TaskError::ChannelClosed)
            } else {
                Ok::<(), TaskError>(())
            },
            res is Err ==> final(self)@ == old(self)@,
    {
        match self.find(task_id) {
            None => Err(TaskError::TaskNotFound),
            Some(i) => {
                if !self.entries[i].open {
                    return Err(TaskError::ChannelClosed);
                }
                let mut entries = self.take();
                let ghost before = entries@;
                let mut entry = entries.remove(i);
                entry.queue.push(bytes);
                proof {
                    assert(entry.state().input->0 =~= before[i as int].state().input->0.push(
                        bytes@,
                    ));
                }
                entries.insert(i, entry);
                proof {
                    lemma_entry_replaced(before, entries@, i as int);
                }
                self.entries = entries;
                Ok(())
            },
        }
    }

    /// Whether cancellation of `task_id` has been requested. A task that is
    /// not live has no flag, and the answer is `false`.
    pub fn is_cancelled(&self, task_id: &str) -> (flag: bool)
        ensures
            flag == (self@.contains_key(task_id@) && self@[task_id@].cancelled),
    {
        match self.find(task_id) {
            Some(i) => self.entries[i].cancel,
            None => false,
        }
    }

    /// Hands the writer of `task_id` the oldest waiting chunk and takes it
    /// off the queue.
    pub fn receive(&mut self, task_id: &str) -> (poll: InputPoll)
        ensures
            poll@ == next_input(old(self)@, task_id@),
            final(self)@ == received(old(self)@, task_id@),
    {
        match self.find(task_id) {
            None => InputPoll::Disconnected,
            Some(i) => {
                if !self.entries[i].open {
                    return InputPoll::Disconnected;
                }
                if self.entries[i].queue.len() == 0 {
                    return InputPoll::Empty;
                }
                let mut entries = self.take();
                let ghost before = entries@;
                let mut entry = entries.remove(i);
                let chunk = entry.queue.remove(0);
                proof {
                    let waiting = before[i as int].state().input->0;
                    assert(entry.state().input->0 =~= waiting.drop_first());
                }
                entries.insert(i, entry);
                proof {
                    lemma_entry_replaced(before, entries@, i as int);
                }
                self.entries = entries;
                InputPoll::Chunk(chunk)
            },
        }
    }

    /// Tears down the input channel of `task_id`: what is still waiting is
    /// dropped, and later deliveries fail with `ChannelClosed`.
    pub fn close_input(&mut self, task_id: &str)
        ensures
            final(self)@ == closed(old(self)@, task_id@),
    {
        match self.find(task_id) {
            Some(i) => {
                let mut entries = self.take();
                let ghost before = entries@;
                let mut entry = entries.remove(i);
                entry.open = false;
                entry.queue = Vec::new();
                entries.insert(i, entry);
                proof {
                    lemma_entry_replaced(before, entries@, i as int);
                }
                self.entries = entries;
            },
            None => {},
        }
    }

    /// Forgets `task_id`. The identifier is free for a new task afterwards.
    pub fn remove(&mut self, task_id: &str)
        ensures
            final(self)@ == old(self)@.remove(task_id@),
    {
        match self.find(task_id) {
            Some(i) => {
                let mut entries = self.take();
                proof {
                    lemma_entry_removed(entries@, i as int);
                }
                let _ = entries.remove(i);
                self.entries = entries;
            },
            None => {},
        }
    }

    /// The number of live tasks.
    pub fn len(&self) -> (n: usize)
        ensures
            n == self@.len(),
            self@.dom().finite(),
    {
        proof {
            use_type_invariant(self);
            lemma_task_count(self.entries@);
        }
        self.entries.len()
    }
}

/// The operations of the registry.
pub ghost enum RegistryOp {
    Start(Seq<char>),
    DeliverInput(Seq<char>, Seq<u8>),
    Cancel(Seq<char>),
    Receive(Seq<char>),
    CloseInput(Seq<char>),
    Remove(Seq<char>),
}

impl RegistryOp {
    /// The task the operation names.
    pub open spec fn task_id(self) -> Seq<char> {
        match self {
            RegistryOp::Start(id) => id,
            RegistryOp::DeliverInput(id, _) => id,
            RegistryOp::Cancel(id) => id,
            RegistryOp::Receive(id) => id,
            RegistryOp::CloseInput(id) => id,
            RegistryOp::Remove(id) => id,
        }
    }

    /// `tasks` after the operation.
    pub open spec fn apply(self, tasks: Tasks) -> Tasks {
        match self {
            RegistryOp::Start(id) => started(tasks, id),
            RegistryOp::DeliverInput(id, bytes) => delivered(tasks, id, bytes),
            RegistryOp::Cancel(id) => cancelled(tasks, id),
            RegistryOp::Receive(id) => received(tasks, id),
            RegistryOp::CloseInput(id) => closed(tasks, id),
            RegistryOp::Remove(id) => tasks.remove(id),
        }
    }
}

/// Cancelling twice is cancelling once.
pub proof fn lemma_cancel_twice(tasks: Tasks, id: Seq<char>)
    ensures
        cancelled(cancelled(tasks, id), id) == cancelled(tasks, id),
{
}

/// Cancelling a task that is not live, be it unknown or ended and removed,
/// changes nothing.
pub proof fn lemma_cancel_of_absent_task(tasks: Tasks, id: Seq<char>)
    ensures
        !tasks.contains_key(id) ==> cancelled(tasks, id) == tasks,
        cancelled(tasks.remove(id), id) == tasks.remove(id),
{
}

/// The cancellation flag only ever goes up: once set, it stays set under
/// every operation but the task's removal.
pub proof fn lemma_cancellation_is_kept(tasks: Tasks, id: Seq<char>, op: RegistryOp)
    requires
        tasks.contains_key(id),
        tasks[id].cancelled,
        op != RegistryOp::Remove(id),
    ensures
        op.apply(tasks).contains_key(id),
        op.apply(tasks)[id].cancelled,
{
}

/// An operation touches the task it names and no other: every other task
/// is live afterwards exactly if it was before, in the state it had.
pub proof fn lemma_other_tasks_undisturbed(tasks: Tasks, op: RegistryOp, other: Seq<char>)
    requires
        other != op.task_id(),
    ensures
        op.apply(tasks).contains_key(other) == tasks.contains_key(other),
        tasks.contains_key(other) ==> op.apply(tasks)[other] == tasks[other],
{
}

/// Starting a task that is live changes nothing, and the live task keeps
/// its flag and its queue.
pub proof fn lemma_duplicate_start_changes_nothing(tasks: Tasks, id: Seq<char>)
    requires
        tasks.contains_key(id),
    ensures
        started(tasks, id) == tasks,
{
}

/// Input is handed to the writer in the order in which it was delivered: a
/// chunk delivered to an open queue waits behind what was there, and comes
/// out when all of that has been received.
pub proof fn lemma_input_is_first_in_first_out(tasks: Tasks, id: Seq<char>, bytes: Seq<u8>)
    requires
        accepts_input(tasks, id),
    ensures
        ({
            let waiting = tasks[id].input->0;
            let after = delivered(tasks, id, bytes);
            &&& after[id].input == Some(waiting.push(bytes))
            &&& next_input(after, id) == if waiting.len() == 0 {
                InputPollView::Chunk(bytes)
            } else {
                InputPollView::Chunk(waiting.first())
            }
            &&& waiting.len() > 0 ==> received(after, id) == delivered(
                received(tasks, id),
                id,
                bytes,
            )
            &&& waiting.len() == 0 ==> received(after, id) == tasks
        }),
{
    let waiting = tasks[id].input->0;
    if waiting.len() > 0 {
        assert(waiting.push(bytes).drop_first() =~= waiting.drop_first().push(bytes));
    } else {
        assert(waiting.push(bytes).drop_first() =~= waiting);
    }
}

} // verus!
