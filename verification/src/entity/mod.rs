//! The two stored records, main tasks and subtasks, and the instants they
//! carry.

pub mod main_task_messageinfo;
pub mod subtask_messageinfo;
pub mod timestamp;
