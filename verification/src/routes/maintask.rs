//! Main-task endpoints: listing a page, creating one and fetching one.

use vstd::prelude::*;
use crate::entity::main_task_messageinfo::{main_status_text, Model};
use crate::models::task_model::{AppResponse, MainTasksRequest, PagedResult, SubTaskBody};

verus! {

/// Tasks per page when the request does not say.
pub const DEFAULT_PAGE_SIZE: u64 = 10;

/// The page asked for (0 when not given) and its size (10 when not given).
pub fn page_and_size(request: &MainTasksRequest) -> (r: (u64, u64))
    ensures
        r.0 == match request.page { Some(p) => p, None => 0 },
        r.1 == match request.pagesize { Some(s) => s, None => DEFAULT_PAGE_SIZE },
{
    let page = match request.page {
        Some(p) => p,
        None => 0,
    };
    let size = match request.pagesize {
        Some(s) => s,
        None => DEFAULT_PAGE_SIZE,
    };
    (page, size)
}

/// How a main task is listed: its identifier, name, status text and type,
/// its priority (0 when it has none) in the order column, and no duration.
pub open spec fn is_main_task_body(b: SubTaskBody, m: Model) -> bool {
    &&& b.id == m.id
    &&& b.name == m.name
    &&& b.status@ == main_status_text(m.status)
    &&& b.task_type == m.task_type
    &&& b.task_order == match m.priority { Some(p) => p, None => 0 }
    &&& b.elapsed_millis is None
}

/// A main task as listed.
pub fn main_task_body(m: &Model) -> (b: SubTaskBody)
    ensures
        is_main_task_body(b, *m),
        b.id == m.id,
        b.name@ == m.name@,
        b.task_type@ == m.task_type@,
{
    SubTaskBody {
        id: m.id,
        name: m.name.clone(),
        status: m.status.to_string(),
        task_order: match m.priority {
            Some(p) => p,
            None => 0,
        },
        task_type: m.task_type.clone(),
        elapsed_millis: None,
    }
}

/// The answer for a page of main tasks: every task of the page listed, in
/// order, with the number of main tasks on all pages.
pub fn main_tasks_response(paged: &PagedResult<Model>) -> (r: AppResponse<Vec<SubTaskBody>>)
    ensures
        r.total_count == Some(paged.total),
        r.list matches Some(bodies) && bodies@.len() == paged.data@.len()
            && forall|i: int| 0 <= i < bodies@.len() ==> is_main_task_body(#[trigger] bodies@[i], paged.data@[i]),
        r.list matches Some(bodies) ==> forall|i: int| 0 <= i < bodies@.len() ==> (#[trigger] bodies@[i]).id
            == paged.data@[i].id && bodies@[i].task_type@ == paged.data@[i].task_type@,
{
    let mut bodies: Vec<SubTaskBody> = Vec::new();
    let mut i: usize = 0;
    while i < paged.data.len()
        invariant
            i <= paged.data@.len(),
            bodies@.len() == i,
            forall|k: int| 0 <= k < i ==> is_main_task_body(#[trigger] bodies@[k], paged.data@[k]),
        decreases paged.data.len() - i,
    {
        bodies.push(main_task_body(&paged.data[i]));
        i = i + 1;
    }
    AppResponse::success(bodies, Some(paged.total))
}

/// A main task is listed under its own identifier, name and type, whatever
/// its worker: two listed tasks of different types are shown with different
/// types.
pub proof fn lemma_main_task_listing_keeps_identity(b: SubTaskBody, m: Model, b2: SubTaskBody, m2: Model)
    requires
        is_main_task_body(b, m),
        is_main_task_body(b2, m2),
    ensures
        b.id == m.id,
        b.name@ == m.name@,
        b.task_type@ == m.task_type@,
        m.task_type@ != m2.task_type@ ==> b.task_type@ != b2.task_type@,
        m.id != m2.id ==> b.id != b2.id,
{
}

/// The answer after a main task was created.
pub fn created_message() -> (s: String)
    ensures
        s@ == "新增主任务成功"@,
{
    String::from_str("新增主任务成功")
}

} // verus!
