//! The operations a caller has: start a task, send it input, cancel it.
//!
//! Each returns at once. What becomes of the task is told by its events;
//! only a request that is turned down is answered here.

use crate::registry::{accepts_input, cancelled, delivered, started, TaskError, TaskRegistry};
use crate::session::{Worker, WorkerView};
use vstd::prelude::*;
use vstd::string::*;
use vstd::utf8::*;

verus! {

/// Registers task `task_id` and hands back the worker that is to run it on
/// host `host_id`. A live identifier is refused with `DuplicateTask`, and
/// the live task is left as it was. Success says only that the task is
/// registered, not that a session stands.
pub fn ssh_exec_start(registry: &mut TaskRegistry, task_id: String, host_id: i64) -> (res: Result<
    Worker,
    TaskError,
>)
    ensures
        final(registry)@ == started(old(registry)@, task_id@),
        match res {
            Ok(worker) => !old(registry)@.contains_key(task_id@) && worker@ == WorkerView::fresh(
                task_id@,
                host_id,
            ),
            Err(error) => old(registry)@.contains_key(task_id@) && error
                == TaskError::DuplicateTask && final(registry)@ == old(registry)@,
        },
{
    match registry.start(task_id.as_str()) {
        Ok(()) => Ok(Worker::new(task_id.as_str(), host_id)),
        Err(error) => Err(error),
    }
}

/// Queues the bytes of `data` for the writer of task `task_id`. Fails with
/// `TaskNotFound` where the task is not live and with `ChannelClosed` where
/// its writer has gone; nothing is queued then.
pub fn ssh_exec_input(registry: &mut TaskRegistry, task_id: String, data: String) -> (res: Result<
    (),
    TaskError,
>)
    ensures
        final(registry)@ == delivered(old(registry)@, task_id@, encode_utf8(data@)),
        res == if !old(registry)@.contains_key(task_id@) {
            Err::<(), TaskError>(TaskError::TaskNotFound)
        } else if !accepts_input(old(registry)@, task_id@) {
            Err::<(), TaskError>(TaskError::ChannelClosed)
        } else {
            Ok::<(), TaskError>(())
        },
        res is Err ==> final(registry)@ == old(registry)@,
{
    let bytes = data.as_str().as_bytes_vec();
    registry.deliver_input(task_id.as_str(), bytes)
}

/// Requests cancellation of task `task_id`. There is nothing to fail: for
/// a task that is not live the call does nothing.
pub fn ssh_exec_cancel(registry: &mut TaskRegistry, task_id: String)
    ensures
        final(registry)@ == cancelled(old(registry)@, task_id@),
{
    registry.cancel(task_id.as_str())
}

/// Removes task `task_id` from the registry, once it has ended.
pub fn cleanup_task(registry: &mut TaskRegistry, task_id: &str)
    ensures
        final(registry)@ == old(registry)@.remove(task_id@),
{
    registry.remove(task_id)
}

} // verus!
