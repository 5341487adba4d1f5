//! Projects and their task lists.
use std::collections::BTreeMap;

use vstd::prelude::*;

use super::datetime::DateTime;
use super::id::Uuid;
use super::task::{Task, TaskState};

verus! {

/// The id a project has been given by the super-productivity app, if any.
#[derive(Debug)]
pub struct SuperProductivity {
    pub id: Option<String>,
}

/// Settings of a project for outside tools.
#[derive(Debug)]
pub struct ExternalTools {
    pub super_productivity: Option<SuperProductivity>,
}

impl Default for ExternalTools {
    fn default() -> (r: Self)
        ensures
            r.super_productivity is None,
    {
        ExternalTools { super_productivity: None }
    }
}

/// A project as referenced from a task.
#[derive(Debug)]
pub struct ProjectRef {
    pub id: Uuid,
    pub root: String,
    pub name: String,
}

/// A project definition.
#[derive(Debug)]
pub struct ProjectInfo {
    pub id: Uuid,
    pub name: String,
    /// root project (e.g. "util" in project "util/task")
    pub root: String,
    pub description: Option<String>,
    pub created: DateTime,
    pub color: String,
    pub data: serde_json::Value,
    pub external_tools: ExternalTools,
}

/// Recorded id of a project in the super-productivity app.
#[derive(Debug)]
pub struct SuperProductivityState {
    pub id: String,
}

/// Recorded state of a project in outside tools.
#[derive(Debug)]
pub struct ExternalState {
    pub super_productivity: Option<SuperProductivityState>,
}

impl Default for ExternalState {
    fn default() -> (r: Self)
        ensures
            r.super_productivity is None,
    {
        ExternalState { super_productivity: None }
    }
}

/// Recorded state of a project itself.
#[derive(Debug)]
pub struct ProjectState {
    pub external_tools: ExternalState,
}

impl Default for ProjectState {
    fn default() -> (r: Self)
        ensures
            r.external_tools.super_productivity is None,
    {
        ProjectState { external_tools: ExternalState::default() }
    }
}

/// Recorded state of a project and of its tasks, by task id.
#[derive(Debug)]
pub struct ProjectDefState {
    pub project: ProjectState,
    pub tasks: BTreeMap<u128, TaskState>,
}

impl Default for ProjectDefState {
    fn default() -> (r: Self)
        ensures
            r.project.external_tools.super_productivity is None,
            r.tasks@ == Map::<u128, TaskState>::empty(),
    {
        ProjectDefState { project: ProjectState::default(), tasks: BTreeMap::new() }
    }
}

/// A project with its tasks.
#[derive(Debug)]
pub struct ProjectDef {
    pub project: ProjectInfo,
    pub tasks: Vec<Task>,
}

impl ProjectDef {
    /// Position of the first task with id `task_id`, if any.
    pub fn task_index(&self, task_id: &Uuid) -> (r: Option<usize>)
        ensures
            match r {
                Some(i) => i < self.tasks@.len() && self.tasks@[i as int].id == *task_id
                    && forall|j: int| 0 <= j < i ==> self.tasks@[j].id != *task_id,
                None => forall|j: int| 0 <= j < self.tasks@.len() ==> self.tasks@[j].id != *task_id,
            },
    {
        let mut i: usize = 0;
        while i < self.tasks.len()
            invariant
                i <= self.tasks@.len(),
                forall|j: int| 0 <= j < i ==> self.tasks@[j].id != *task_id,
            decreases self.tasks.len() - i,
        {
            if self.tasks[i].id.0 == task_id.0 {
                return Some(i);
            }
            i = i + 1;
        }
        None
    }
}

} // verus!
