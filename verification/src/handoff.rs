use vstd::prelude::*;

use crate::consumer::{lemma_task_message_roundtrip, le_i32_value, object_key, task_message_bytes};

verus! {

/// The producer and a consumer agree on a task.  The producer stores the file
/// of task `task_id` under `object_key(task_id)` and announces the task with
/// `task_message_bytes(task_id)` (`FormUpload::step`).  A consumer that takes
/// that message is a well-formed four-byte message, starts a run for
/// `le_i32_value(message)` (`TaskRun::start`), and downloads the object
/// `object_key` of that id (`TaskRun::step`): the id it reads is the id the
/// producer recorded, and the object it fetches is the one the producer stored.
pub proof fn lemma_producer_consumer_handoff(task_id: i32)
    ensures
        task_message_bytes(task_id).len() == 4,
        le_i32_value(task_message_bytes(task_id)) == task_id as int,
        object_key(le_i32_value(task_message_bytes(task_id)) as i32) == object_key(task_id),
{
    lemma_task_message_roundtrip(task_id);
}

} // verus!
