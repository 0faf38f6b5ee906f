//! Subtasks: the ordered steps of a main task.

use vstd::prelude::*;
use crate::entity::timestamp::Timestamp;
use crate::utils::validation::{
    check_length, failed_if, length_within, opt_i32, opt_within, outcome, record_failure,
    InvalidField, ValidationErrors,
};

verus! {

/// Where a subtask stands.
#[derive(Clone, Copy, Debug, PartialEq, Eq, Structural)]
pub enum SubTaskStatus {
    Pending,
    Inprogress,
    Success,
    Failure,
}

/// The same states under the names that request bodies use.
#[derive(Clone, Copy, Debug, PartialEq, Eq, Structural)]
pub enum SubTaskStatusDef {
    Pending,
    Inprogress,
    Success,
    Failure,
}

/// The text of a status, which is also how it is stored.
pub open spec fn sub_status_text(s: SubTaskStatus) -> Seq<char> {
    match s {
        SubTaskStatus::Pending => "pending"@,
        SubTaskStatus::Inprogress => "in_progress"@,
        SubTaskStatus::Success => "success"@,
        SubTaskStatus::Failure => "failure"@,
    }
}

/// A request-body status names the status of the same name.
pub open spec fn sub_status_from_def(d: SubTaskStatusDef) -> SubTaskStatus {
    match d {
        SubTaskStatusDef::Pending => SubTaskStatus::Pending,
        SubTaskStatusDef::Inprogress => SubTaskStatus::Inprogress,
        SubTaskStatusDef::Success => SubTaskStatus::Success,
        SubTaskStatusDef::Failure => SubTaskStatus::Failure,
    }
}

impl SubTaskStatus {
    /// The status as text: `pending`, `in_progress`, `success` or `failure`.
    pub fn to_string(&self) -> (s: String)
        ensures
            s@ == sub_status_text(*self),
    {
        match self {
            SubTaskStatus::Pending => String::from_str("pending"),
            SubTaskStatus::Inprogress => String::from_str("in_progress"),
            SubTaskStatus::Success => String::from_str("success"),
            SubTaskStatus::Failure => String::from_str("failure"),
        }
    }
}

impl From<SubTaskStatusDef> for SubTaskStatus {
    fn from(def: SubTaskStatusDef) -> (s: SubTaskStatus) {
        match def {
            SubTaskStatusDef::Pending => SubTaskStatus::Pending,
            SubTaskStatusDef::Inprogress => SubTaskStatus::Inprogress,
            SubTaskStatusDef::Success => SubTaskStatus::Success,
            SubTaskStatusDef::Failure => SubTaskStatus::Failure,
        }
    }
}

impl vstd::std_specs::convert::FromSpecImpl<SubTaskStatusDef> for SubTaskStatus {
    open spec fn obeys_from_spec() -> bool {
        true
    }

    open spec fn from_spec(v: SubTaskStatusDef) -> SubTaskStatus {
        sub_status_from_def(v)
    }
}

/// Different statuses never share a text, so the stored text names exactly
/// one status.
pub proof fn lemma_sub_status_text_injective(a: SubTaskStatus, b: SubTaskStatus)
    requires
        sub_status_text(a) == sub_status_text(b),
    ensures
        a == b,
{
    reveal_strlit("pending");
    reveal_strlit("in_progress");
    reveal_strlit("success");
    reveal_strlit("failure");
    assert("pending"@[0] == 'p');
    assert("in_progress"@[0] == 'i');
    assert("success"@[0] == 's');
    assert("failure"@[0] == 'f');
    assert(sub_status_text(a)[0] == sub_status_text(b)[0]);
}

/// A stored subtask.
#[derive(Clone, Debug, PartialEq, Eq)]
pub struct Model {
    /// Identifier.
    pub id: i64,
    /// Subtask title.
    pub sub_title: String,
    pub description: Option<String>,
    /// Created, running, succeeded or failed.
    pub status: SubTaskStatus,
    /// Run log.
    pub log: Option<String>,
    /// Position among the subtasks of its main task.
    pub task_order: Option<i32>,
    /// Kind of subtask.
    pub task_type: String,
    /// Identifier of the main task.
    pub parent_id: i64,
    pub create_timestamp: Option<Timestamp>,
    pub update_timestamp: Option<Timestamp>,
    /// Spare integer column.
    pub bak1: Option<i64>,
    /// Spare text column.
    pub bak2: Option<String>,
}

impl Model {
    /// The title has 1 to 255 characters.
    pub open spec fn sub_title_valid(&self) -> bool {
        length_within(self.sub_title@, 1, 255)
    }

    /// The order, when given, is at least 1.
    pub open spec fn task_order_valid(&self) -> bool {
        opt_within(opt_i32(self.task_order), 1, i32::MAX as int)
    }

    /// The fields that break their rules, in declaration order.
    pub open spec fn invalid_fields(&self) -> Seq<InvalidField> {
        failed_if(self.sub_title_valid(), InvalidField::SubTitle) + failed_if(
            self.task_order_valid(),
            InvalidField::TaskOrder,
        )
    }

    /// Checks the title length (1 to 255 characters) and the order (at
    /// least 1, when given).
    pub fn validate(&self) -> (r: Result<(), ValidationErrors>)
        ensures
            r is Ok <==> (self.sub_title_valid() && self.task_order_valid()),
            r matches Err(e) ==> e.fields@ == self.invalid_fields(),
    {
        let mut fields: Vec<InvalidField> = Vec::new();
        record_failure(&mut fields, check_length(&self.sub_title, 1, 255), InvalidField::SubTitle);
        let order_ok = match self.task_order {
            Some(o) => 1 <= o,
            None => true,
        };
        record_failure(&mut fields, order_ok, InvalidField::TaskOrder);
        assert(fields@ =~= self.invalid_fields());
        outcome(fields)
    }
}

} // verus!
