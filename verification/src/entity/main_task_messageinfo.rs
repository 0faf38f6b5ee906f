//! Main tasks: a named unit of work run by a worker, split into subtasks.

use vstd::prelude::*;
use crate::entity::timestamp::Timestamp;
use crate::utils::validation::{
    check_length, failed_if, length_within, opt_i32, opt_within, outcome, record_failure,
    InvalidField, ValidationErrors,
};

verus! {

/// Where a main task stands.
#[derive(Clone, Copy, Debug, PartialEq, Eq, Structural)]
pub enum MainTaskStatus {
    Pending,
    Inprogress,
    Success,
    Failure,
}

/// The same states under the names that request bodies use.
#[derive(Clone, Copy, Debug, PartialEq, Eq, Structural)]
pub enum MainTaskStatusDef {
    Pending,
    Inprogress,
    Success,
    Failure,
}

/// The text of a status, which is also how it is stored.
pub open spec fn main_status_text(s: MainTaskStatus) -> Seq<char> {
    match s {
        MainTaskStatus::Pending => "pending"@,
        MainTaskStatus::Inprogress => "in_progress"@,
        MainTaskStatus::Success => "success"@,
        MainTaskStatus::Failure => "failure"@,
    }
}

/// A request-body status names the status of the same name.
pub open spec fn main_status_from_def(d: MainTaskStatusDef) -> MainTaskStatus {
    match d {
        MainTaskStatusDef::Pending => MainTaskStatus::Pending,
        MainTaskStatusDef::Inprogress => MainTaskStatus::Inprogress,
        MainTaskStatusDef::Success => MainTaskStatus::Success,
        MainTaskStatusDef::Failure => MainTaskStatus::Failure,
    }
}

impl MainTaskStatus {
    /// The status as text: `pending`, `in_progress`, `success` or `failure`.
    pub fn to_string(&self) -> (s: String)
        ensures
            s@ == main_status_text(*self),
    {
        match self {
            MainTaskStatus::Pending => String::from_str("pending"),
            MainTaskStatus::Inprogress => String::from_str("in_progress"),
            MainTaskStatus::Success => String::from_str("success"),
            MainTaskStatus::Failure => String::from_str("failure"),
        }
    }
}

impl From<MainTaskStatusDef> for MainTaskStatus {
    fn from(def: MainTaskStatusDef) -> (s: MainTaskStatus) {
        match def {
            MainTaskStatusDef::Pending => MainTaskStatus::Pending,
            MainTaskStatusDef::Inprogress => MainTaskStatus::Inprogress,
            MainTaskStatusDef::Success => MainTaskStatus::Success,
            MainTaskStatusDef::Failure => MainTaskStatus::Failure,
        }
    }
}

impl vstd::std_specs::convert::FromSpecImpl<MainTaskStatusDef> for MainTaskStatus {
    open spec fn obeys_from_spec() -> bool {
        true
    }

    open spec fn from_spec(v: MainTaskStatusDef) -> MainTaskStatus {
        main_status_from_def(v)
    }
}

/// Different statuses never share a text, so the stored text names exactly
/// one status.
pub proof fn lemma_main_status_text_injective(a: MainTaskStatus, b: MainTaskStatus)
    requires
        main_status_text(a) == main_status_text(b),
    ensures
        a == b,
{
    reveal_strlit("pending");
    reveal_strlit("in_progress");
    reveal_strlit("success");
    reveal_strlit("failure");
    assert("pending"@[0] == 'p');
    assert("in_progress"@[0] == 'i');
    assert("success"@[0] == 's');
    assert("failure"@[0] == 'f');
    assert(main_status_text(a)[0] == main_status_text(b)[0]);
}

/// A stored main task.
#[derive(Clone, Debug, PartialEq, Eq)]
pub struct Model {
    /// Identifier.
    pub id: i64,
    /// Task name.
    pub name: String,
    pub description: Option<String>,
    pub status: MainTaskStatus,
    pub log: Option<String>,
    /// 1 is the highest priority, 5 the lowest.
    pub priority: Option<i32>,
    /// System-level or business-level.
    pub task_type: String,
    /// Name of the worker that runs it.
    pub worker_name: String,
    pub create_timestamp: Option<Timestamp>,
    pub update_timestamp: Option<Timestamp>,
    /// Spare integer column.
    pub bak1: Option<i64>,
    /// Spare text column.
    pub bak2: Option<String>,
}

impl Model {
    /// The name has 1 to 255 characters.
    pub open spec fn name_valid(&self) -> bool {
        length_within(self.name@, 1, 255)
    }

    /// The priority, when given, lies in 1..=5.
    pub open spec fn priority_valid(&self) -> bool {
        opt_within(opt_i32(self.priority), 1, 5)
    }

    /// The fields that break their rules, in declaration order.
    pub open spec fn invalid_fields(&self) -> Seq<InvalidField> {
        failed_if(self.name_valid(), InvalidField::Name) + failed_if(
            self.priority_valid(),
            InvalidField::Priority,
        )
    }

    /// Checks the name length (1 to 255 characters) and the priority range
    /// (1 to 5, when given).
    pub fn validate(&self) -> (r: Result<(), ValidationErrors>)
        ensures
            r is Ok <==> (self.name_valid() && self.priority_valid()),
            r matches Err(e) ==> e.fields@ == self.invalid_fields(),
    {
        let mut fields: Vec<InvalidField> = Vec::new();
        record_failure(&mut fields, check_length(&self.name, 1, 255), InvalidField::Name);
        let priority_ok = match self.priority {
            Some(p) => 1 <= p && p <= 5,
            None => true,
        };
        record_failure(&mut fields, priority_ok, InvalidField::Priority);
        assert(fields@ =~= self.invalid_fields());
        outcome(fields)
    }
}

} // verus!
