//! What the task operations decide between their database reads and writes.

pub mod main_task_handler;
pub mod subtask_handler;
pub mod update_handler;
