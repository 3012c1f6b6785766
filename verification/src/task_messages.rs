//! Request and response bodies for tasks. A task message carries its deadline
//! as milliseconds since the epoch; a deadline the date library cannot
//! represent is dropped, exactly as a failed conversion would drop it.

use vstd::prelude::*;
use crate::crypto::{chrono_millis_representable, timestamp_millis_representable};
use crate::models::{TaskModel, TaskView};

verus! {

/// A task as presented to clients; labels are attached only where the
/// endpoint loads them.
#[derive(Debug)]
pub struct TaskMessage {
    pub id: u128,
    pub title: String,
    pub project_id: u128,
    pub column_id: Option<u128>,
    pub assignee_id: Option<u128>,
    pub creator_id: Option<u128>,
    pub deadline: Option<i64>,
    pub estimation: Option<i32>,
    pub state_id: Option<u128>,
    pub parent_id: Option<u128>,
    pub task_type: i32,
    pub labels: Option<Vec<u128>>,
}

impl TaskMessage {
    pub fn from_model(value: TaskModel) -> (r: Self)
        ensures
            r.id == value.id,
            r.title == value.title,
            r.project_id == value.project_id,
            r.column_id == value.column_id,
            r.assignee_id == value.assignee_id,
            r.creator_id == value.creator_id,
            r.deadline == value.deadline,
            r.estimation == value.estimation,
            r.state_id == value.state_id,
            r.parent_id == value.parent_id,
            r.task_type == value.task_type,
            r.labels is None,
    {
        Self {
            id: value.id,
            title: value.title,
            project_id: value.project_id,
            column_id: value.column_id,
            assignee_id: value.assignee_id,
            creator_id: value.creator_id,
            deadline: value.deadline,
            estimation: value.estimation,
            state_id: value.state_id,
            parent_id: value.parent_id,
            task_type: value.task_type,
            labels: None,
        }
    }
}

/// Body of a task creation or update; the same shape serves both.
#[derive(Debug)]
pub struct CreateOrUpdateTaskMessage {
    pub title: String,
    pub project_id: u128,
    pub column_id: Option<u128>,
    pub assignee_id: Option<u128>,
    pub creator_id: Option<u128>,
    pub deadline: Option<i64>,
    pub estimation: Option<i32>,
    pub state_id: Option<u128>,
    pub parent_id: Option<u128>,
    pub task_type: i32,
    pub labels: Option<Vec<u128>>,
}

impl CreateOrUpdateTaskMessage {
    /// The deadline that is actually stored: the offered timestamp where the
    /// date library can represent it, nothing otherwise.
    pub open spec fn spec_deadline(self) -> Option<i64> {
        match self.deadline {
            Some(ms) => if chrono_millis_representable(ms) {
                Some(ms)
            } else {
                None
            },
            None => None,
        }
    }

    fn stored_deadline(&self) -> (r: Option<i64>)
        ensures
            r == self.spec_deadline(),
    {
        match self.deadline {
            Some(ms) => if timestamp_millis_representable(ms) {
                Some(ms)
            } else {
                None
            },
            None => None,
        }
    }

    /// The fresh task this body describes; the identifier is left for the
    /// store to assign.
    pub fn to_model(self) -> (r: TaskModel)
        ensures
            r@ == (TaskView {
                id: 0,
                title: self.title@,
                project_id: self.project_id,
                column_id: self.column_id,
                assignee_id: self.assignee_id,
                creator_id: self.creator_id,
                deadline: self.spec_deadline(),
                estimation: self.estimation,
                state_id: self.state_id,
                parent_id: self.parent_id,
                task_type: self.task_type,
            }),
    {
        let deadline = self.stored_deadline();
        TaskModel {
            id: 0,
            title: self.title,
            project_id: self.project_id,
            column_id: self.column_id,
            assignee_id: self.assignee_id,
            creator_id: self.creator_id,
            deadline,
            estimation: self.estimation,
            state_id: self.state_id,
            parent_id: self.parent_id,
            task_type: self.task_type,
        }
    }

    /// The task after this body is applied: every offered field overwrites
    /// the stored one; the identifier and the owning project never change.
    pub open spec fn spec_apply(self, t: TaskView) -> TaskView {
        TaskView {
            id: t.id,
            project_id: t.project_id,
            title: self.title@,
            column_id: self.column_id,
            assignee_id: self.assignee_id,
            creator_id: self.creator_id,
            deadline: self.spec_deadline(),
            estimation: self.estimation,
            state_id: self.state_id,
            parent_id: self.parent_id,
            task_type: self.task_type,
        }
    }

    pub fn update_model(self, model: &mut TaskModel)
        ensures
            final(model)@ == self.spec_apply(old(model)@),
    {
        let deadline = self.stored_deadline();
        model.title = self.title;
        model.column_id = self.column_id;
        model.assignee_id = self.assignee_id;
        model.creator_id = self.creator_id;
        model.deadline = deadline;
        model.estimation = self.estimation;
        model.state_id = self.state_id;
        model.parent_id = self.parent_id;
        model.task_type = self.task_type;
        proof {
            assert(model@ =~= self.spec_apply(old(model)@));
        }
    }
}

} // verus!
