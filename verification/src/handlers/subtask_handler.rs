//! Subtasks: creating them (a batch for a main task, or one record of a main
//! task that could not run) and applying progress reports.
//!
//! Creation alternates database work with decisions, so it is a state
//! machine: each step takes what the database answered and says what to do
//! next, until it says `Done`.

use vstd::prelude::*;
use crate::entity::main_task_messageinfo::Model as MainTask;
use crate::entity::subtask_messageinfo::{Model, SubTaskStatus};
use crate::entity::timestamp::{utc_now, Timestamp};
use crate::handlers::main_task_handler::InsertOutcome;
use crate::models::task_model::{Detail, FailedTaskRequest, TaskBody, UpdateTaskRequest};
use crate::text::{
    clone_opt_string, debug_text, decimal_digits, push_decimal, push_str, str_debug,
};
use crate::utils::web_error::WebError;

verus! {

/// The run log recorded for a main task that could not run.
pub open spec fn failure_log(request: FailedTaskRequest) -> Seq<char> {
    "log: "@ + request.log@ + "\n            (code: "@ + decimal_digits(request.overview.code as nat)
        + ", msg: "@ + request.overview.msg@ + ")"@
}

/// The description recorded for a main task that could not run: the failure
/// detail as its `Debug` form writes it.
pub open spec fn detail_debug(d: Detail) -> Seq<char> {
    "Detail { code: "@ + decimal_digits(d.code as nat) + ", msg: "@ + str_debug(d.msg@) + " }"@
}

/// What one new subtask record is made from.
#[derive(Clone, Debug, PartialEq, Eq)]
pub enum SubtaskSource {
    /// One subtask of a batch.
    Batch(TaskBody),
    /// The record of a main task that could not run.
    Failure(FailedTaskRequest),
}

/// `row` is the record stored for `source`, given the main task it belongs
/// to, its new identifier and the time. A batch subtask keeps its name,
/// description, order and main-task identifier, takes the main task's type
/// and starts in progress; the record of a main task that could not run
/// takes the main task's name, type and identifier, is failed, and carries
/// the failure detail as description and log.
pub open spec fn is_new_subtask(row: Model, source: SubtaskSource, main: MainTask, id: i64, now: Timestamp) -> bool {
    match source {
        SubtaskSource::Batch(task) => row == Model {
            id: id,
            sub_title: task.name,
            description: task.description,
            status: SubTaskStatus::Inprogress,
            log: None,
            task_order: Some(task.order),
            task_type: main.task_type,
            parent_id: task.parent_id,
            create_timestamp: Some(now),
            update_timestamp: Some(now),
            bak1: None,
            bak2: None,
        },
        SubtaskSource::Failure(request) => {
            &&& row.id == id
            &&& row.sub_title == main.name
            &&& row.description matches Some(d) && d@ == detail_debug(request.overview)
            &&& row.status == SubTaskStatus::Failure
            &&& row.log matches Some(l) && l@ == failure_log(request)
            &&& row.task_order == None::<i32>
            &&& row.task_type == main.task_type
            &&& row.parent_id == main.id
            &&& row.create_timestamp == Some(now)
            &&& row.update_timestamp == Some(now)
            &&& row.bak1 == None::<i64>
            &&& row.bak2 == None::<String>
        },
    }
}

/// Every new subtask record, of a batch or of a failure, carries the
/// identifier issued for it and the main task's type, and was created and
/// last updated at the instant it was made.
pub proof fn lemma_new_subtask_created_now(
    row: Model,
    source: SubtaskSource,
    main: MainTask,
    id: i64,
    now: Timestamp,
)
    requires
        is_new_subtask(row, source, main, id, now),
    ensures
        row.id == id,
        row.task_type@ == main.task_type@,
        row.create_timestamp == Some(now),
        row.update_timestamp == Some(now),
        row.update_timestamp == row.create_timestamp,
{
}

fn failure_log_text(request: &FailedTaskRequest) -> (s: String)
    ensures
        s@ == failure_log(*request),
{
    let mut s = String::from_str("log: ");
    push_str(&mut s, request.log.as_str());
    push_str(&mut s, "\n            (code: ");
    push_decimal(&mut s, request.overview.code);
    push_str(&mut s, ", msg: ");
    push_str(&mut s, request.overview.msg.as_str());
    push_str(&mut s, ")");
    s
}

fn detail_debug_text(d: &Detail) -> (s: String)
    ensures
        s@ == detail_debug(*d),
{
    let mut s = String::from_str("Detail { code: ");
    push_decimal(&mut s, d.code);
    push_str(&mut s, ", msg: ");
    let quoted = debug_text(d.msg.as_str());
    push_str(&mut s, quoted.as_str());
    push_str(&mut s, " }");
    s
}

/// The record to store for one subtask of a batch.
pub fn new_batch_subtask(task: &TaskBody, main: &MainTask, id: i64, now: Timestamp) -> (row: Model)
    ensures
        is_new_subtask(row, SubtaskSource::Batch(*task), *main, id, now),
        row.id == id,
        row.create_timestamp == Some(now),
        row.update_timestamp == Some(now),
{
    Model {
        id: id,
        sub_title: task.name.clone(),
        description: clone_opt_string(&task.description),
        status: SubTaskStatus::Inprogress,
        log: None,
        task_order: Some(task.order),
        task_type: main.task_type.clone(),
        parent_id: task.parent_id,
        create_timestamp: Some(now),
        update_timestamp: Some(now),
        bak1: None,
        bak2: None,
    }
}

/// The record to store for a main task that could not run.
pub fn new_failure_subtask(request: &FailedTaskRequest, main: &MainTask, id: i64, now: Timestamp) -> (row: Model)
    ensures
        is_new_subtask(row, SubtaskSource::Failure(*request), *main, id, now),
        row.id == id,
        row.create_timestamp == Some(now),
        row.update_timestamp == Some(now),
{
    Model {
        id: id,
        sub_title: main.name.clone(),
        description: Some(detail_debug_text(&request.overview)),
        status: SubTaskStatus::Failure,
        log: Some(failure_log_text(request)),
        task_order: None,
        task_type: main.task_type.clone(),
        parent_id: main.id,
        create_timestamp: Some(now),
        update_timestamp: Some(now),
        bak1: None,
        bak2: None,
    }
}

/// What a creation is asked to store.
#[derive(Clone, Debug, PartialEq, Eq)]
pub enum CreationInput {
    /// Subtasks of the main task named by the first one.
    Batch(Vec<TaskBody>),
    /// The record of a main task that could not run.
    Failure(FailedTaskRequest),
}

impl CreationInput {
    /// How many records the creation stores.
    pub open spec fn count(&self) -> nat {
        match self {
            CreationInput::Batch(tasks) => tasks@.len(),
            CreationInput::Failure(_) => 1,
        }
    }

    /// What the `i`-th record is made from.
    pub open spec fn source_at(&self, i: int) -> SubtaskSource {
        match self {
            CreationInput::Batch(tasks) => SubtaskSource::Batch(tasks@[i]),
            CreationInput::Failure(request) => SubtaskSource::Failure(*request),
        }
    }

    /// The message when the main task does not exist.
    pub open spec fn missing_main_text(&self) -> Seq<char> {
        match self {
            CreationInput::Batch(_) => "主任务不存在,无法更新子任务"@,
            CreationInput::Failure(_) => "主任务不存在，无法登记失败子任务"@,
        }
    }
}

/// The message when a batch has no subtasks.
pub open spec fn empty_batch_text() -> Seq<char> {
    "Tasks vector cannot be empty"@
}

/// The message when a stored subtask cannot be read back.
pub open spec fn lost_row_text() -> Seq<char> {
    "未能找到刚刚插入的任务。"@
}

/// Where a creation stands: which answer it waits for.
#[derive(Clone, Copy, Debug, PartialEq, Eq, Structural)]
pub enum CreationPhase {
    AwaitMainTask,
    AwaitId,
    AwaitInsert,
    AwaitRow,
    Finished,
}

/// What to do next.
#[derive(Debug)]
pub enum CreationAction {
    /// Look up the main task with this identifier and pass the answer to
    /// `on_main_task`.
    LookupMainTask(i64),
    /// Issue a new identifier, read the time, and pass both to `on_id`.
    IssueId,
    /// Insert this record and pass how it ended to `on_insert`.
    Insert(Model),
    /// Read the subtask with this identifier and pass it to `on_row`.
    FindInserted(i64),
    /// The creation is over: the stored records, read back, or the error.
    Done(Result<Vec<Model>, WebError>),
}

/// A creation of subtask records in progress.
pub struct SubtaskCreation {
    input: CreationInput,
    main_task: Option<MainTask>,
    next: usize,
    pending_id: i64,
    results: Vec<Model>,
    phase: CreationPhase,
}

impl SubtaskCreation {
    /// What is being stored.
    pub closed spec fn input(&self) -> CreationInput {
        self.input
    }

    /// The main task, once found.
    pub closed spec fn main_task(&self) -> Option<MainTask> {
        self.main_task
    }

    /// How many records have been stored and read back.
    pub closed spec fn stored(&self) -> nat {
        self.next as nat
    }

    /// The identifier of the record being inserted.
    pub closed spec fn pending_id(&self) -> i64 {
        self.pending_id
    }

    /// The records read back so far.
    pub closed spec fn results(&self) -> Seq<Model> {
        self.results@
    }

    /// The answer the creation waits for.
    pub closed spec fn phase(&self) -> CreationPhase {
        self.phase
    }

    /// How many more answers the creation can take at most: three per
    /// record still to store (identifier, insert, read-back), plus the
    /// main-task lookup while it waits for it; none once finished.
    pub closed spec fn remaining_steps(&self) -> nat {
        let left = (self.input.count() - self.next) as nat;
        match self.phase {
            CreationPhase::AwaitMainTask => 3 * self.input.count() + 1,
            CreationPhase::AwaitId => 3 * left,
            CreationPhase::AwaitInsert => (3 * left - 1) as nat,
            CreationPhase::AwaitRow => (3 * left - 2) as nat,
            CreationPhase::Finished => 0,
        }
    }

    /// One record read back per record stored, at least one record to
    /// store, and while records remain the main task is known.
    pub closed spec fn wf(&self) -> bool {
        &&& self.input.count() >= 1
        &&& self.next <= self.input.count()
        &&& self.results@.len() == self.next
        &&& self.phase == CreationPhase::AwaitMainTask ==> self.next == 0 && self.main_task is None
        &&& (self.phase == CreationPhase::AwaitId || self.phase == CreationPhase::AwaitInsert
            || self.phase == CreationPhase::AwaitRow) ==> self.next < self.input.count()
            && self.main_task is Some
    }

    /// Starts a batch: refused when it has no subtasks, otherwise the first
    /// step looks up the main task named by the first subtask.
    pub fn for_batch(tasks: Vec<TaskBody>) -> (r: Result<(SubtaskCreation, CreationAction), WebError>)
        ensures
            tasks@.len() == 0 <==> r is Err,
            r matches Err(e) ==> e is DBError && e.message() == empty_batch_text(),
            r matches Ok((m, a)) ==> {
                &&& m.wf()
                &&& m.input() == CreationInput::Batch(tasks)
                &&& m.phase() == CreationPhase::AwaitMainTask
                &&& m.remaining_steps() == 3 * tasks@.len() + 1
                &&& a == CreationAction::LookupMainTask(tasks@[0].parent_id)
            },
    {
        if tasks.len() == 0 {
            return Err(WebError::DBError(String::from_str("Tasks vector cannot be empty")));
        }
        let parent = tasks[0].parent_id;
        let m = SubtaskCreation {
            input: CreationInput::Batch(tasks),
            main_task: None,
            next: 0,
            pending_id: 0,
            results: Vec::new(),
            phase: CreationPhase::AwaitMainTask,
        };
        Ok((m, CreationAction::LookupMainTask(parent)))
    }

    /// Starts recording a main task that could not run: the first step
    /// looks up that main task.
    pub fn for_failure(request: FailedTaskRequest) -> (r: (SubtaskCreation, CreationAction))
        ensures
            r.0.wf(),
            r.0.input() == CreationInput::Failure(request),
            r.0.phase() == CreationPhase::AwaitMainTask,
            r.0.remaining_steps() == 4,
            r.1 == CreationAction::LookupMainTask(request.id),
    {
        let id = request.id;
        let m = SubtaskCreation {
            input: CreationInput::Failure(request),
            main_task: None,
            next: 0,
            pending_id: 0,
            results: Vec::new(),
            phase: CreationPhase::AwaitMainTask,
        };
        (m, CreationAction::LookupMainTask(id))
    }

    fn missing_main_error(&self) -> (e: WebError)
        ensures
            e is NotFound && e.message() == self.input().missing_main_text(),
    {
        match &self.input {
            CreationInput::Batch(_) => WebError::NotFound(String::from_str("主任务不存在,无法更新子任务")),
            CreationInput::Failure(_) => WebError::NotFound(String::from_str("主任务不存在，无法登记失败子任务")),
        }
    }

    /// Takes the answer of the main-task lookup. A failed lookup ends the
    /// creation with a database error; a missing main task ends it with
    /// the not-found error of its kind; a found main task is kept and an
    /// identifier for the first record is asked for.
    pub fn on_main_task(&mut self, found: Result<Option<MainTask>, String>) -> (a: CreationAction)
        requires
            old(self).wf(),
            old(self).phase() == CreationPhase::AwaitMainTask,
        ensures
            final(self).wf(),
            final(self).remaining_steps() < old(self).remaining_steps(),
            final(self).phase() == CreationPhase::Finished <==> a is Done,
            final(self).input() == old(self).input(),
            final(self).stored() == 0,
            found matches Err(m) ==> a == CreationAction::Done(Err(WebError::DBError(m)))
                && final(self).phase() == CreationPhase::Finished,
            found matches Ok(None) ==> a matches CreationAction::Done(Err(e)) && e is NotFound
                && e.message() == old(self).input().missing_main_text()
                && final(self).phase() == CreationPhase::Finished,
            found matches Ok(Some(t)) ==> a == CreationAction::IssueId
                && final(self).main_task() == Some(t)
                && final(self).phase() == CreationPhase::AwaitId,
    {
        match found {
            Err(m) => {
                self.phase = CreationPhase::Finished;
                CreationAction::Done(Err(WebError::DBError(m)))
            },
            Ok(None) => {
                self.phase = CreationPhase::Finished;
                CreationAction::Done(Err(self.missing_main_error()))
            },
            Ok(Some(t)) => {
                self.main_task = Some(t);
                self.phase = CreationPhase::AwaitId;
                CreationAction::IssueId
            },
        }
    }

    /// Takes the new identifier and the time, and asks for the next record
    /// to be inserted.
    pub fn on_id(&mut self, id: i64, now: Timestamp) -> (a: CreationAction)
        requires
            old(self).wf(),
            old(self).phase() == CreationPhase::AwaitId,
        ensures
            final(self).wf(),
            final(self).remaining_steps() < old(self).remaining_steps(),
            final(self).phase() == CreationPhase::Finished <==> a is Done,
            final(self).input() == old(self).input(),
            final(self).main_task() == old(self).main_task(),
            final(self).stored() == old(self).stored(),
            final(self).results() == old(self).results(),
            final(self).pending_id() == id,
            final(self).phase() == CreationPhase::AwaitInsert,
            a matches CreationAction::Insert(row) && is_new_subtask(
                row,
                old(self).input().source_at(old(self).stored() as int),
                old(self).main_task()->0,
                id,
                now,
            ),
    {
        let row = match (&self.input, &self.main_task) {
            (CreationInput::Batch(tasks), Some(main)) => new_batch_subtask(&tasks[self.next], main, id, now),
            (CreationInput::Failure(request), Some(main)) => new_failure_subtask(request, main, id, now),
            (_, None) => vstd::pervasive::unreached(),
        };
        self.pending_id = id;
        self.phase = CreationPhase::AwaitInsert;
        CreationAction::Insert(row)
    }

    /// Takes the new identifier, reads the clock, and asks for the next
    /// record to be inserted, made at that time; `None`, with the creation
    /// unchanged, when the clock cannot be read.
    pub fn on_new_id(&mut self, id: i64) -> (a: Option<CreationAction>)
        requires
            old(self).wf(),
            old(self).phase() == CreationPhase::AwaitId,
        ensures
            final(self).wf(),
            a is None ==> *final(self) == *old(self),
            a is Some ==> {
                &&& final(self).remaining_steps() < old(self).remaining_steps()
                &&& final(self).input() == old(self).input()
                &&& final(self).main_task() == old(self).main_task()
                &&& final(self).stored() == old(self).stored()
                &&& final(self).results() == old(self).results()
                &&& final(self).pending_id() == id
                &&& final(self).phase() == CreationPhase::AwaitInsert
            },
            a matches Some(action) ==> (action matches CreationAction::Insert(row) && (exists|
                now: Timestamp,
            | #[trigger] is_new_subtask(
                row,
                old(self).input().source_at(old(self).stored() as int),
                old(self).main_task()->0,
                id,
                now,
            ))),
    {
        match utc_now() {
            Some(now) => Some(self.on_id(id, now)),
            None => None,
        }
    }

    /// Takes how the insert ended. A failed insert ends the creation with
    /// the database's message; otherwise the stored record is read back.
    pub fn on_insert(&mut self, outcome: InsertOutcome) -> (a: CreationAction)
        requires
            old(self).wf(),
            old(self).phase() == CreationPhase::AwaitInsert,
        ensures
            final(self).wf(),
            final(self).remaining_steps() < old(self).remaining_steps(),
            final(self).phase() == CreationPhase::Finished <==> a is Done,
            final(self).input() == old(self).input(),
            final(self).main_task() == old(self).main_task(),
            final(self).stored() == old(self).stored(),
            final(self).results() == old(self).results(),
            final(self).pending_id() == old(self).pending_id(),
            outcome matches InsertOutcome::Failed(m) ==> a == CreationAction::Done(Err(WebError::ActixError(m)))
                && final(self).phase() == CreationPhase::Finished,
            !(outcome is Failed) ==> a == CreationAction::FindInserted(old(self).pending_id())
                && final(self).phase() == CreationPhase::AwaitRow,
    {
        match outcome {
            InsertOutcome::Failed(m) => {
                self.phase = CreationPhase::Finished;
                CreationAction::Done(Err(WebError::ActixError(m)))
            },
            _ => {
                self.phase = CreationPhase::AwaitRow;
                CreationAction::FindInserted(self.pending_id)
            },
        }
    }

    /// Takes the record read back. A failed read ends the creation with a
    /// database error and a missing record with the not-found error;
    /// otherwise the record joins the results, and the creation either asks
    /// for the next identifier or, after the last record, ends with all
    /// records read back, one per record asked for, in order.
    pub fn on_row(&mut self, found: Result<Option<Model>, String>) -> (a: CreationAction)
        requires
            old(self).wf(),
            old(self).phase() == CreationPhase::AwaitRow,
        ensures
            final(self).wf(),
            final(self).remaining_steps() < old(self).remaining_steps(),
            final(self).phase() == CreationPhase::Finished <==> a is Done,
            final(self).input() == old(self).input(),
            final(self).main_task() == old(self).main_task(),
            found matches Err(m) ==> a == CreationAction::Done(Err(WebError::DBError(m)))
                && final(self).phase() == CreationPhase::Finished,
            found matches Ok(None) ==> a matches CreationAction::Done(Err(e)) && e is NotFound
                && e.message() == lost_row_text()
                && final(self).phase() == CreationPhase::Finished,
            found matches Ok(Some(r)) ==> old(self).stored() + 1 < old(self).input().count() ==> {
                &&& a == CreationAction::IssueId
                &&& final(self).phase() == CreationPhase::AwaitId
                &&& final(self).stored() == old(self).stored() + 1
                &&& final(self).results() == old(self).results().push(r)
            },
            found matches Ok(Some(r)) ==> old(self).stored() + 1 == old(self).input().count() ==> {
                &&& a matches CreationAction::Done(Ok(rows)) && rows@ == old(self).results().push(r)
                    && rows@.len() == old(self).input().count()
                &&& final(self).phase() == CreationPhase::Finished
            },
    {
        match found {
            Err(m) => {
                self.phase = CreationPhase::Finished;
                CreationAction::Done(Err(WebError::DBError(m)))
            },
            Ok(None) => {
                self.phase = CreationPhase::Finished;
                CreationAction::Done(Err(WebError::NotFound(String::from_str("未能找到刚刚插入的任务。"))))
            },
            Ok(Some(r)) => {
                let total = match &self.input {
                    CreationInput::Batch(tasks) => tasks.len(),
                    CreationInput::Failure(_) => 1,
                };
                self.results.push(r);
                self.next = self.next + 1;
                if self.next == total {
                    let mut rows: Vec<Model> = Vec::new();
                    std::mem::swap(&mut rows, &mut self.results);
                    self.next = 0;
                    self.phase = CreationPhase::Finished;
                    CreationAction::Done(Ok(rows))
                } else {
                    self.phase = CreationPhase::AwaitId;
                    CreationAction::IssueId
                }
            },
        }
    }
}

/// The message when a progress report names no known subtask.
pub open spec fn missing_subtask_text() -> Seq<char> {
    "SubTask not found"@
}

/// The subtask record after a progress report at `now`: the reported
/// status and log, updated at `now`, everything else as it was.
pub open spec fn spec_updated_subtask(existing: Model, request: UpdateTaskRequest, now: Timestamp) -> Model {
    Model {
        status: request.status,
        log: Some(request.log),
        update_timestamp: Some(now),
        ..existing
    }
}

/// A progress report sets the subtask's status and log to exactly the
/// reported ones, whatever they are, and its last update to the report's
/// time; the subtask keeps its identifier, main task, title, order and
/// creation time.
pub proof fn lemma_report_sets_status_and_log(m: Model, request: UpdateTaskRequest, now: Timestamp)
    ensures
        spec_updated_subtask(m, request, now).status == request.status,
        spec_updated_subtask(m, request, now).log == Some(request.log),
        spec_updated_subtask(m, request, now).update_timestamp == Some(now),
        spec_updated_subtask(m, request, now).id == m.id,
        spec_updated_subtask(m, request, now).parent_id == m.parent_id,
        spec_updated_subtask(m, request, now).sub_title == m.sub_title,
        spec_updated_subtask(m, request, now).task_order == m.task_order,
        spec_updated_subtask(m, request, now).create_timestamp == m.create_timestamp,
{
}

/// Of two progress reports on one subtask, the later one decides: applying
/// both gives what applying only the later one gives.
pub proof fn lemma_later_report_wins(
    m: Model,
    first: UpdateTaskRequest,
    t1: Timestamp,
    second: UpdateTaskRequest,
    t2: Timestamp,
)
    ensures
        spec_updated_subtask(spec_updated_subtask(m, first, t1), second, t2) == spec_updated_subtask(
            m,
            second,
            t2,
        ),
{
}

/// What a progress report does to the subtask found for it (by main task,
/// order and title): without one it is refused as not found; otherwise the
/// record to save.
pub fn plan_subtask_update(existing: Option<Model>, request: UpdateTaskRequest, now: Timestamp) -> (r: Result<Model, WebError>)
    ensures
        existing is None <==> r is Err,
        r matches Err(e) ==> e is NotFound && e.message() == missing_subtask_text(),
        existing matches Some(m) ==> r == Ok::<Model, WebError>(spec_updated_subtask(m, request, now)),
        r matches Ok(x) ==> x.status == request.status && x.log == Some(request.log)
            && x.update_timestamp == Some(now),
{
    match existing {
        None => Err(WebError::NotFound(String::from_str("SubTask not found"))),
        Some(m) => Ok(Model {
            status: request.status,
            log: Some(request.log),
            update_timestamp: Some(now),
            ..m
        }),
    }
}

/// What a progress report made now does to the subtask found for it:
/// without one it is refused as not found; otherwise the record to save,
/// updated at the time of the call. The clock is read only when the subtask
/// was found; `None` when it cannot be read.
pub fn plan_subtask_update_now(existing: Option<Model>, request: UpdateTaskRequest) -> (r: Option<
    Result<Model, WebError>,
>)
    ensures
        existing is None ==> (r matches Some(Err(e)) && e is NotFound && e.message()
            == missing_subtask_text()),
        existing matches Some(m) ==> (r matches Some(p) ==> exists|now: Timestamp| p == Ok::<
            Model,
            WebError,
        >(spec_updated_subtask(m, request, now))),
        r matches Some(Ok(x)) ==> x.status == request.status && x.log == Some(request.log),
{
    match existing {
        None => Some(Err(WebError::NotFound(String::from_str("SubTask not found")))),
        Some(m) => match utc_now() {
            Some(now) => Some(plan_subtask_update(Some(m), request, now)),
            None => None,
        },
    }
}

} // verus!
