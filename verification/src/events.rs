//! Notifications that a task sends to its caller.

use vstd::prelude::*;

verus! {

/// The three values of a progress notification's status.
#[derive(Clone, Copy, Debug, PartialEq, Eq, Structural)]
pub enum ProgressStatus {
    Running,
    Cancelled,
    Error,
}

impl ProgressStatus {
    /// The status as it is written on the wire.
    pub open spec fn name(self) -> Seq<char> {
        match self {
            ProgressStatus::Running => "running"@,
            ProgressStatus::Cancelled => "cancelled"@,
            ProgressStatus::Error => "error"@,
        }
    }

    pub fn as_str(self) -> (s: &'static str)
        ensures
            s@ == self.name(),
    {
        match self {
            ProgressStatus::Running => "running",
            ProgressStatus::Cancelled => "cancelled",
            ProgressStatus::Error => "error",
        }
    }
}

/// One notification, addressed by the task it is about.
#[derive(Clone, Debug, PartialEq, Eq)]
pub enum Event {
    Progress { task_id: String, status: ProgressStatus },
    Output { task_id: String, data: String },
    Done { task_id: String, exit_code: i32 },
}

/// What an [`Event`] says, with its strings as character sequences.
pub ghost enum EventView {
    Progress { task_id: Seq<char>, status: ProgressStatus },
    Output { task_id: Seq<char>, data: Seq<char> },
    Done { task_id: Seq<char>, exit_code: i32 },
}

impl EventView {
    pub open spec fn task_id(self) -> Seq<char> {
        match self {
            EventView::Progress { task_id, .. } => task_id,
            EventView::Output { task_id, .. } => task_id,
            EventView::Done { task_id, .. } => task_id,
        }
    }

    /// A terminal event closes a task: `done`, or a progress notification
    /// other than `running`.
    pub open spec fn is_terminal(self) -> bool {
        match self {
            EventView::Progress { status, .. } => status != ProgressStatus::Running,
            EventView::Output { .. } => false,
            EventView::Done { .. } => true,
        }
    }

    pub open spec fn is_running(self) -> bool {
        self matches EventView::Progress { status, .. } && status == ProgressStatus::Running
    }

    pub open spec fn is_output(self) -> bool {
        self is Output
    }

    /// The name of the channel the event travels on.
    pub open spec fn channel(self) -> Seq<char> {
        match self {
            EventView::Progress { .. } => "ssh:progress"@,
            EventView::Output { .. } => "ssh:stdout"@,
            EventView::Done { .. } => "ssh:done"@,
        }
    }
}

impl View for Event {
    type V = EventView;

    open spec fn view(&self) -> EventView {
        match self {
            Event::Progress { task_id, status } => EventView::Progress {
                task_id: task_id@,
                status: *status,
            },
            Event::Output { task_id, data } => EventView::Output { task_id: task_id@, data: data@ },
            Event::Done { task_id, exit_code } => EventView::Done {
                task_id: task_id@,
                exit_code: *exit_code,
            },
        }
    }
}

impl Event {
    pub fn progress(task_id: &str, status: ProgressStatus) -> (e: Event)
        ensures
            e@ == (EventView::Progress { task_id: task_id@, status }),
    {
        Event::Progress { task_id: task_id.to_owned(), status }
    }

    pub fn output(task_id: &str, data: String) -> (e: Event)
        ensures
            e@ == (EventView::Output { task_id: task_id@, data: data@ }),
    {
        Event::Output { task_id: task_id.to_owned(), data }
    }

    pub fn done(task_id: &str, exit_code: i32) -> (e: Event)
        ensures
            e@ == (EventView::Done { task_id: task_id@, exit_code }),
    {
        Event::Done { task_id: task_id.to_owned(), exit_code }
    }

    pub fn task_id(&self) -> (id: &str)
        ensures
            id@ == self@.task_id(),
    {
        match self {
            Event::Progress { task_id, .. } => task_id.as_str(),
            Event::Output { task_id, .. } => task_id.as_str(),
            Event::Done { task_id, .. } => task_id.as_str(),
        }
    }

    pub fn channel(&self) -> (name: &'static str)
        ensures
            name@ == self@.channel(),
    {
        match self {
            Event::Progress { .. } => "ssh:progress",
            Event::Output { .. } => "ssh:stdout",
            Event::Done { .. } => "ssh:done",
        }
    }

    pub fn is_terminal(&self) -> (b: bool)
        ensures
            b == self@.is_terminal(),
    {
        match self {
            Event::Progress { status, .. } => match status {
                ProgressStatus::Running => false,
                _ => true,
            },
            Event::Output { .. } => false,
            Event::Done { .. } => true,
        }
    }
}

} // verus!
