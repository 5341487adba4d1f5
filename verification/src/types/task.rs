//! Tasks and their recorded state.
use vstd::prelude::*;

use super::datetime::DateTime;
use super::id::Uuid;
use super::project::ProjectRef;
use super::tag::TagRef;

verus! {

/// Extra time-tracker tags for a task.
#[derive(Debug)]
pub struct Timewarrior {
    pub extra_tags: Vec<String>,
}

/// The id a task has been given by the super-productivity app, if any.
#[derive(Debug)]
pub struct SuperProductivity {
    pub id: Option<String>,
}

/// Settings of a task for outside tools.
#[derive(Debug)]
pub struct ExternalTools {
    pub timewarrior: Option<Timewarrior>,
    pub super_productivity: Option<SuperProductivity>,
}

impl Default for ExternalTools {
    fn default() -> (r: Self)
        ensures
            r.timewarrior is None,
            r.super_productivity is None,
    {
        ExternalTools { timewarrior: None, super_productivity: None }
    }
}

/// Recorded id of a task in the super-productivity app.
#[derive(Debug)]
pub struct SuperProductivityState {
    pub id: String,
}

/// Recorded state of a task in outside tools.
#[derive(Debug)]
pub struct ExternalState {
    pub super_productivity: Option<SuperProductivityState>,
}

impl Default for ExternalState {
    fn default() -> (r: Self)
        ensures
            r.super_productivity is None,
    {
        ExternalState { super_productivity: None }
    }
}

/// Whether a task is still to be done.
#[derive(Clone, Copy, Debug, PartialEq, Eq, Structural)]
pub enum Status {
    Pending,
    Completed,
}

impl Default for Status {
    fn default() -> (r: Self)
        ensures
            r == Status::Pending,
    {
        Status::Pending
    }
}

/// The part of a task that changes as work is recorded.
#[derive(Debug)]
pub struct TaskState {
    pub status: Status,
    pub completed: Option<DateTime>,
    pub external_tools: ExternalState,
}

impl Default for TaskState {
    fn default() -> (r: Self)
        ensures
            r.status == Status::Pending,
            r.completed is None,
            r.external_tools.super_productivity is None,
    {
        TaskState { status: Status::Pending, completed: None, external_tools: ExternalState::default() }
    }
}

/// A task of a project.
#[derive(Debug)]
pub struct Task {
    pub id: Uuid,
    pub name: String,
    pub status: Status,
    pub description: Option<String>,
    pub created: DateTime,
    pub completed: Option<DateTime>,
    pub project: ProjectRef,
    pub tags: Vec<TagRef>,
    pub data: serde_json::Value,
    pub external_tools: ExternalTools,
}

} // verus!
