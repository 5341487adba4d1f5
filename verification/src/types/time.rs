//! Records of time spent on tasks.
use vstd::prelude::*;

use super::datetime::DateTime;
use super::id::Uuid;

verus! {

/// Extra time-tracker tags for one record.
#[derive(Debug)]
pub struct Timewarrior {
    pub extra_tags: Vec<String>,
}

/// Settings of a time record for outside tools.
#[derive(Debug)]
pub struct ExternalTools {
    pub timewarrior: Option<Timewarrior>,
}

impl Default for ExternalTools {
    fn default() -> (r: Self)
        ensures
            r.timewarrior is None,
    {
        ExternalTools { timewarrior: None }
    }
}

/// Data attached to a time record by its definition file.
#[derive(Debug)]
pub struct TimeInfo {
    pub data: serde_json::Value,
    pub external_tools: ExternalTools,
}

/// A span of time spent on a task of a project.
#[derive(Debug)]
pub struct TimeRecord<P, T> {
    pub id: Uuid,
    pub start_time: DateTime,
    pub end_time: DateTime,
    pub project: P,
    pub task: T,
    pub done: bool,
    pub data: serde_json::Value,
    pub external_tools: ExternalTools,
}

} // verus!
