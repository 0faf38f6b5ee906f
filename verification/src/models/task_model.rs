//! Request and response bodies for tasks and subtasks.

use vstd::prelude::*;
use crate::entity::subtask_messageinfo::SubTaskStatus;
use crate::text::opt_chars;
use crate::utils::validation::{
    check_length, check_opt_length, failed_if, length_within, opt_length_within,
    opt_u64, opt_within, outcome, record_failure, InvalidField, ValidationErrors,
};

verus! {

/// A request to create a task.
#[derive(Clone, Debug, PartialEq, Eq)]
pub struct TaskCreateRequest {
    /// Must not be empty.
    pub name: String,
    /// At most 1000 characters.
    pub description: Option<String>,
    /// Must not be empty.
    pub status: String,
    /// 1 to 5.
    pub priority: i32,
    /// Must not be empty.
    pub task_type: String,
}

impl TaskCreateRequest {
    /// The fields that break their rules, in declaration order.
    pub open spec fn invalid_fields(&self) -> Seq<InvalidField> {
        failed_if(length_within(self.name@, 1, usize::MAX as int), InvalidField::Name)
            + failed_if(opt_length_within(opt_chars(self.description), 0, 1000), InvalidField::Description)
            + failed_if(length_within(self.status@, 1, usize::MAX as int), InvalidField::Status)
            + failed_if(1 <= self.priority <= 5, InvalidField::Priority)
            + failed_if(length_within(self.task_type@, 1, usize::MAX as int), InvalidField::TaskType)
    }

    /// Checks that name, status and type are not empty, that the
    /// description has at most 1000 characters and the priority lies in 1..=5.
    pub fn validate(&self) -> (r: Result<(), ValidationErrors>)
        ensures
            r is Ok <==> self.invalid_fields().len() == 0,
            r matches Err(e) ==> e.fields@ == self.invalid_fields(),
    {
        let mut fields: Vec<InvalidField> = Vec::new();
        record_failure(&mut fields, check_length(&self.name, 1, usize::MAX), InvalidField::Name);
        record_failure(&mut fields, check_opt_length(&self.description, 0, 1000), InvalidField::Description);
        record_failure(&mut fields, check_length(&self.status, 1, usize::MAX), InvalidField::Status);
        record_failure(&mut fields, 1 <= self.priority && self.priority <= 5, InvalidField::Priority);
        record_failure(&mut fields, check_length(&self.task_type, 1, usize::MAX), InvalidField::TaskType);
        assert(fields@ =~= self.invalid_fields());
        outcome(fields)
    }
}

/// A request naming one task.
#[derive(Clone, Copy, Debug, PartialEq, Eq)]
pub struct TaskGetRequest {
    pub id: i64,
}

/// A request for the subtasks of one main task.
#[derive(Clone, Copy, Debug, PartialEq, Eq)]
pub struct SubTasksRequest {
    /// The main task; at least 1.
    pub id: i64,
}

impl SubTasksRequest {
    /// The fields that break their rules.
    pub open spec fn invalid_fields(&self) -> Seq<InvalidField> {
        failed_if(1 <= self.id, InvalidField::Id)
    }

    /// Checks that the identifier is at least 1.
    pub fn validate(&self) -> (r: Result<(), ValidationErrors>)
        ensures
            r is Ok <==> self.invalid_fields().len() == 0,
            r matches Err(e) ==> e.fields@ == self.invalid_fields(),
    {
        let mut fields: Vec<InvalidField> = Vec::new();
        record_failure(&mut fields, 1 <= self.id, InvalidField::Id);
        assert(fields@ =~= self.invalid_fields());
        outcome(fields)
    }
}

/// The page rules shared by the paged requests: any page, and a page size of
/// at least 1 when one is given.
pub open spec fn page_invalid_fields(page: Option<u64>, pagesize: Option<u64>) -> Seq<InvalidField> {
    failed_if(opt_within(opt_u64(page), 0, u64::MAX as int), InvalidField::Page) + failed_if(
        opt_within(opt_u64(pagesize), 1, u64::MAX as int),
        InvalidField::PageSize,
    )
}

fn validate_page(page: Option<u64>, pagesize: Option<u64>) -> (r: Result<(), ValidationErrors>)
    ensures
        r is Ok <==> page_invalid_fields(page, pagesize).len() == 0,
        r matches Err(e) ==> e.fields@ == page_invalid_fields(page, pagesize),
{
    let mut fields: Vec<InvalidField> = Vec::new();
    record_failure(&mut fields, true, InvalidField::Page);
    let size_ok = match pagesize {
        Some(s) => 1 <= s,
        None => true,
    };
    record_failure(&mut fields, size_ok, InvalidField::PageSize);
    assert(fields@ =~= page_invalid_fields(page, pagesize));
    outcome(fields)
}

/// A request for one page of main tasks.
#[derive(Clone, Copy, Debug, PartialEq, Eq)]
pub struct MainTasksRequest {
    /// Page number, from 0.
    pub page: Option<u64>,
    /// Tasks per page; at least 1.
    pub pagesize: Option<u64>,
}

impl MainTasksRequest {
    /// Checks that the page size, when given, is at least 1.
    pub fn validate(&self) -> (r: Result<(), ValidationErrors>)
        ensures
            r is Ok <==> page_invalid_fields(self.page, self.pagesize).len() == 0,
            r matches Err(e) ==> e.fields@ == page_invalid_fields(self.page, self.pagesize),
    {
        validate_page(self.page, self.pagesize)
    }
}

/// A request to change a task.
#[derive(Clone, Debug, PartialEq, Eq)]
pub struct TaskUpdateRequest {
    /// At least 1.
    pub id: i64,
    /// At most 1000 characters.
    pub description: Option<String>,
    /// Must not be empty.
    pub status: String,
    pub priority: Option<i32>,
    pub task_type: Option<String>,
}

impl TaskUpdateRequest {
    /// The fields that break their rules, in declaration order.
    pub open spec fn invalid_fields(&self) -> Seq<InvalidField> {
        failed_if(1 <= self.id, InvalidField::Id)
            + failed_if(opt_length_within(opt_chars(self.description), 0, 1000), InvalidField::Description)
            + failed_if(length_within(self.status@, 1, usize::MAX as int), InvalidField::Status)
    }

    /// Checks that the identifier is at least 1, the description has at
    /// most 1000 characters and the status is not empty.
    pub fn validate(&self) -> (r: Result<(), ValidationErrors>)
        ensures
            r is Ok <==> self.invalid_fields().len() == 0,
            r matches Err(e) ==> e.fields@ == self.invalid_fields(),
    {
        let mut fields: Vec<InvalidField> = Vec::new();
        record_failure(&mut fields, 1 <= self.id, InvalidField::Id);
        record_failure(&mut fields, check_opt_length(&self.description, 0, 1000), InvalidField::Description);
        record_failure(&mut fields, check_length(&self.status, 1, usize::MAX), InvalidField::Status);
        assert(fields@ =~= self.invalid_fields());
        outcome(fields)
    }
}

/// A task as sent back to the caller.
#[derive(Clone, Debug, PartialEq, Eq)]
pub struct Body {
    pub id: i64,
    pub name: String,
    pub description: String,
    pub status: String,
    pub priority: i32,
    pub task_type: String,
}

/// An answer carrying at most one task.
#[derive(Clone, Debug, PartialEq, Eq)]
pub struct TaskResponse {
    pub status: i32,
    pub description: String,
    pub body: Option<Body>,
}

/// A task or subtask in a listing. The time it took is kept in whole
/// milliseconds; the answer sent to the caller gives it in seconds.
#[derive(Clone, Debug, PartialEq, Eq)]
pub struct SubTaskBody {
    pub id: i64,
    pub name: String,
    pub status: String,
    pub task_order: i32,
    pub task_type: String,
    /// Milliseconds from creation to the last update, when both are known.
    pub elapsed_millis: Option<i64>,
}

/// An answer carrying at most one listed subtask.
#[derive(Clone, Debug, PartialEq, Eq)]
pub struct SubTaskResponse {
    pub status: i32,
    pub description: String,
    pub body: Option<SubTaskBody>,
}

/// An answer carrying a list of subtasks.
#[derive(Clone, Debug, PartialEq, Eq)]
pub struct SubTasksResponse {
    pub status: i32,
    pub description: String,
    pub body: Option<Vec<SubTaskBody>>,
}

/// A request to create several subtasks at once.
#[derive(Clone, Debug, PartialEq, Eq)]
pub struct BatchTaskRequest {
    pub tasks: Vec<TaskBody>,
}

/// One subtask to create.
#[derive(Clone, Debug, PartialEq, Eq)]
pub struct TaskBody {
    /// The main task it belongs to.
    pub parent_id: i64,
    pub name: String,
    pub description: Option<String>,
    /// Its position among the subtasks.
    pub order: i32,
}

/// A report that a main task could not be run.
#[derive(Clone, Debug, PartialEq, Eq)]
pub struct FailedTaskRequest {
    /// The main task.
    pub id: i64,
    pub log: String,
    pub status: String,
    pub overview: Detail,
}

/// A failure code with its message.
#[derive(Clone, Debug, PartialEq, Eq)]
pub struct Detail {
    pub code: u64,
    pub msg: String,
}

/// A progress report for one subtask.
#[derive(Clone, Debug, PartialEq, Eq)]
pub struct UpdateTaskRequest {
    /// The main task.
    pub parent_id: i64,
    /// The subtask's title.
    pub name: String,
    pub log: String,
    pub status: SubTaskStatus,
    /// The subtask's position.
    pub order: i32,
}

/// A paged listing request.
#[derive(Clone, Copy, Debug, PartialEq, Eq)]
pub struct ServiceRequest {
    pub page: Option<u64>,
    pub pagesize: Option<u64>,
}

impl ServiceRequest {
    /// Checks that the page size, when given, is at least 1.
    pub fn validate(&self) -> (r: Result<(), ValidationErrors>)
        ensures
            r is Ok <==> page_invalid_fields(self.page, self.pagesize).len() == 0,
            r matches Err(e) ==> e.fields@ == page_invalid_fields(self.page, self.pagesize),
    {
        validate_page(self.page, self.pagesize)
    }
}

/// A generic answer: a status, a description, an optional body and an
/// optional total.
#[derive(Clone, Debug, PartialEq, Eq)]
pub struct WebResponse<T> {
    pub status: i32,
    pub description: String,
    pub body: Option<T>,
    pub total: Option<u64>,
}

/// One page of records with the number of records on all pages.
#[derive(Clone, Debug, PartialEq, Eq)]
pub struct PagedResult<T> {
    pub total: u64,
    pub data: Vec<T>,
}

/// A request to create a main task.
#[derive(Clone, Debug, PartialEq, Eq)]
pub struct CreateMainTaskRequest {
    pub maintask_name: String,
    pub worker_name: String,
    pub description: Option<String>,
    pub task_type: String,
    pub id: i64,
}

/// A request naming one main task.
#[derive(Clone, Copy, Debug, PartialEq, Eq)]
pub struct FindMainTaskRequest {
    pub id: i64,
}

/// A listing answer: the items and how many there are in all.
#[derive(Clone, Debug, PartialEq, Eq)]
pub struct AppResponse<T> {
    pub list: Option<T>,
    pub total_count: Option<u64>,
}

impl<T> AppResponse<T> {
    /// An answer with the given items and count.
    pub fn new(list: Option<T>, total_count: Option<u64>) -> (r: Self)
        ensures
            r.list == list,
            r.total_count == total_count,
    {
        AppResponse { list, total_count }
    }

    /// A successful answer: the items are present.
    pub fn success(list: T, total_count: Option<u64>) -> (r: Self)
        ensures
            r.list == Some(list),
            r.total_count == total_count,
    {
        Self::new(Some(list), total_count)
    }
}

/// The run log of a subtask.
#[derive(Clone, Debug, PartialEq, Eq)]
pub struct LogResult {
    pub log: String,
}

} // verus!
