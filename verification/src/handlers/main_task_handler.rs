//! Main tasks: looking one up, and the record a creation request stores.

use vstd::prelude::*;
use crate::entity::main_task_messageinfo::{MainTaskStatus, Model};
use crate::entity::timestamp::{utc_now, Timestamp};
use crate::models::task_model::CreateMainTaskRequest;
use crate::text::clone_opt_string;
use crate::utils::web_error::WebError;

verus! {

/// How a database insert ended.
#[derive(Clone, Debug, PartialEq, Eq)]
pub enum InsertOutcome {
    /// The row was stored and read back.
    Inserted,
    /// The row was stored but the database (SQLite) did not hand it back.
    RecordNotFound,
    /// The insert failed; the database's message.
    Failed(String),
}

/// The error for a task that a lookup by identifier did not find.
pub open spec fn task_not_found_text() -> Seq<char> {
    "Task not found"@
}

/// A lookup by identifier: its first row, or the not-found error when it
/// found nothing.
pub fn first_task<T>(rows: Vec<T>) -> (r: Result<T, WebError>)
    ensures
        rows@.len() > 0 ==> r == Ok::<T, WebError>(rows@[0]),
        rows@.len() == 0 ==> (r matches Err(e) && e is NotFound && e.message() == task_not_found_text()),
{
    let mut rows = rows;
    if rows.len() == 0 {
        Err(WebError::NotFound(String::from_str("Task not found")))
    } else {
        Ok(rows.swap_remove(0))
    }
}

/// The record stored for a new main task: the requested identifier, name,
/// description, worker and type, pending, priority 1, created and updated
/// at `now`, with no log and nothing in the spare columns.
pub open spec fn spec_new_main_task(request: CreateMainTaskRequest, now: Timestamp) -> Model {
    Model {
        id: request.id,
        name: request.maintask_name,
        description: request.description,
        status: MainTaskStatus::Pending,
        log: None,
        priority: Some(1),
        task_type: request.task_type,
        worker_name: request.worker_name,
        create_timestamp: Some(now),
        update_timestamp: Some(now),
        bak1: None,
        bak2: None,
    }
}

/// The record to store for a main-task creation request made at `now`.
pub fn new_main_task(request: &CreateMainTaskRequest, now: Timestamp) -> (m: Model)
    ensures
        m == spec_new_main_task(*request, now),
{
    Model {
        id: request.id,
        name: request.maintask_name.clone(),
        description: clone_opt_string(&request.description),
        status: MainTaskStatus::Pending,
        log: None,
        priority: Some(1),
        task_type: request.task_type.clone(),
        worker_name: request.worker_name.clone(),
        create_timestamp: Some(now),
        update_timestamp: Some(now),
        bak1: None,
        bak2: None,
    }
}

/// The record to store for a main-task creation request made now; `None`
/// when the clock cannot be read.
pub fn main_task_record(request: &CreateMainTaskRequest) -> (m: Option<Model>)
    ensures
        m matches Some(r) ==> exists|now: Timestamp| r == spec_new_main_task(*request, now),
{
    match utc_now() {
        Some(now) => Some(new_main_task(request, now)),
        None => None,
    }
}

/// A main-task creation succeeds when the row was stored, whether or not the
/// database handed it back; a failed insert is reported with the database's
/// message.
pub fn main_task_insert_result(outcome: InsertOutcome) -> (r: Result<(), WebError>)
    ensures
        outcome is Failed <==> r is Err,
        outcome matches InsertOutcome::Failed(m) ==> r == Err::<(), WebError>(WebError::ActixError(m)),
{
    match outcome {
        InsertOutcome::Inserted => Ok(()),
        InsertOutcome::RecordNotFound => Ok(()),
        InsertOutcome::Failed(m) => Err(WebError::ActixError(m)),
    }
}

} // verus!
