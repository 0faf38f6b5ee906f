//! Subtask endpoints: a subtask's log, the subtasks of a main task, and the
//! answers of batch creation, progress reports and failure records.

use vstd::prelude::*;
use crate::entity::subtask_messageinfo::{sub_status_text, Model};
use crate::entity::timestamp::{elapsed_millis, lemma_elapsed_antisymmetric, spec_elapsed_millis};
use crate::models::task_model::{AppResponse, LogResult, SubTaskBody};

verus! {

/// A subtask's run log, empty when it has none.
pub fn log_result(m: &Model) -> (r: LogResult)
    ensures
        r.log@ == match m.log { Some(l) => l@, None => Seq::<char>::empty() },
{
    LogResult {
        log: match &m.log {
            Some(l) => l.clone(),
            None => String::new(),
        },
    }
}

/// How long a subtask took, in milliseconds: from its creation to its last
/// update, when both are known (and the count fits).
pub open spec fn spec_subtask_elapsed(m: Model) -> Option<int> {
    match (m.create_timestamp, m.update_timestamp) {
        (Some(c), Some(u)) => if i64::MIN <= spec_elapsed_millis(c, u) <= i64::MAX {
            Some(spec_elapsed_millis(c, u))
        } else {
            None
        },
        _ => None,
    }
}

/// How a subtask is listed: its identifier, title, status text, type,
/// order (0 when it has none) and how long it took.
pub open spec fn is_subtask_body(b: SubTaskBody, m: Model) -> bool {
    &&& b.id == m.id
    &&& b.name == m.sub_title
    &&& b.status@ == sub_status_text(m.status)
    &&& b.task_type == m.task_type
    &&& b.task_order == match m.task_order { Some(o) => o, None => 0 }
    &&& match b.elapsed_millis {
        Some(v) => spec_subtask_elapsed(m) == Some(v as int),
        None => spec_subtask_elapsed(m) is None,
    }
}

/// A subtask as listed.
pub fn subtask_body(m: &Model) -> (b: SubTaskBody)
    ensures
        is_subtask_body(b, *m),
        b.id == m.id,
        b.name@ == m.sub_title@,
        b.task_type@ == m.task_type@,
{
    let elapsed = match (m.create_timestamp, m.update_timestamp) {
        (Some(c), Some(u)) => elapsed_millis(c, u),
        _ => None,
    };
    SubTaskBody {
        id: m.id,
        name: m.sub_title.clone(),
        status: m.status.to_string(),
        task_order: match m.task_order {
            Some(o) => o,
            None => 0,
        },
        task_type: m.task_type.clone(),
        elapsed_millis: elapsed,
    }
}

/// The answer listing the subtasks of a main task: every subtask listed, in
/// order, with their number.
pub fn subtasks_response(rows: &Vec<Model>) -> (r: AppResponse<Vec<SubTaskBody>>)
    ensures
        r.total_count == Some(rows@.len() as u64),
        r.list matches Some(bodies) && bodies@.len() == rows@.len()
            && forall|i: int| 0 <= i < bodies@.len() ==> is_subtask_body(#[trigger] bodies@[i], rows@[i]),
        r.list matches Some(bodies) ==> forall|i: int| 0 <= i < bodies@.len() ==> (#[trigger] bodies@[i]).id
            == rows@[i].id,
{
    let mut bodies: Vec<SubTaskBody> = Vec::new();
    let mut i: usize = 0;
    while i < rows.len()
        invariant
            i <= rows@.len(),
            bodies@.len() == i,
            forall|k: int| 0 <= k < i ==> is_subtask_body(#[trigger] bodies@[k], rows@[k]),
        decreases rows.len() - i,
    {
        bodies.push(subtask_body(&rows[i]));
        i = i + 1;
    }
    let total = bodies.len() as u64;
    AppResponse::success(bodies, Some(total))
}

/// A subtask is listed under its own identifier and title, not its main
/// task's: subtasks with different identifiers are listed with different
/// identifiers, even when they share a main task.
pub proof fn lemma_subtask_listing_keeps_identity(b: SubTaskBody, m: Model, b2: SubTaskBody, m2: Model)
    requires
        is_subtask_body(b, m),
        is_subtask_body(b2, m2),
    ensures
        b.id == m.id,
        b.name@ == m.sub_title@,
        b.task_type@ == m.task_type@,
        m.id != m2.id ==> b.id != b2.id,
{
}

/// A subtask whose creation and last update are the same instant is listed
/// as having taken no time.
pub proof fn lemma_untouched_subtask_takes_no_time(b: SubTaskBody, m: Model)
    requires
        is_subtask_body(b, m),
        m.create_timestamp is Some,
        m.update_timestamp == m.create_timestamp,
    ensures
        b.elapsed_millis == Some(0i64),
{
    let t = m.create_timestamp->0;
    lemma_elapsed_antisymmetric(t, t);
}

/// The answer after a batch of subtasks was created.
pub fn batch_created_message() -> (s: String)
    ensures
        s@ == "创建成功！"@,
{
    String::from_str("创建成功！")
}

/// The answer after a progress report was applied.
pub fn updated_message() -> (s: String)
    ensures
        s@ == "更新成功"@,
{
    String::from_str("更新成功")
}

/// The answer after a failure was recorded.
pub fn failure_recorded_message() -> (s: String)
    ensures
        s@ == "失败登记完成"@,
{
    String::from_str("失败登记完成")
}

} // verus!
