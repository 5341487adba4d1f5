//! Task records in the form the Taskwarrior `task import` command reads.
use vstd::prelude::*;

use super::ical::{ical_datetime_text, year_ce};
use crate::text::{chars_to_string, lemma_decimal_len, lemma_padded_len, push_str};
use crate::types::datetime::{lemma_civil_from_days_ranges, local_date};
use crate::types::datetime::{DateTime, UtcDateTime};
use crate::types::id::Uuid;
use crate::types::project::ProjectInfo;
use crate::types::task::{Status, Task};

verus! {

/// Status of a Taskwarrior task.
#[derive(Clone, Copy, Debug, PartialEq, Eq, Structural)]
pub enum TwStatus {
    Pending,
    Completed,
}

/// A task as handed to Taskwarrior; times are already in its `YYYYMMDDTHHMMSSZ` form.
#[derive(Debug)]
pub struct TwTask {
    pub id: usize,
    pub uuid: Uuid,
    pub description: String,
    pub status: TwStatus,
    pub entry: String,
    pub start: Option<String>,
    pub end: Option<String>,
    pub project: String,
    pub tags: Vec<String>,
}

/// Taskwarrior's text for the UTC instant `secs`: the iCalendar date-time
/// text cut to its first 16 characters (a fixed 16-byte buffer is written).
pub open spec fn tw_datetime_text(secs: int) -> Seq<char> {
    ical_datetime_text(secs).take(16)
}

/// For years with at most four digits (before or in the common era) the
/// Taskwarrior text of a time is its full iCalendar text: nothing is cut.
pub proof fn law_taskwarrior_time_is_ical_time(secs: int)
    requires
        year_ce(local_date(secs, 0).0) < 10000,
    ensures
        tw_datetime_text(secs) == ical_datetime_text(secs),
{
    let (y, m, d) = local_date(secs, 0);
    lemma_civil_from_days_ranges(secs / 86400);
    let t = secs % 86400;
    assert(0 <= t / 3600 < 24) by (nonlinear_arith)
        requires
            0 <= t < 86400,
    ;
    assert(0 <= (t % 3600) / 60 < 60) by (nonlinear_arith)
        requires
            0 <= t < 86400,
    ;
    lemma_decimal_len(year_ce(y));
    lemma_decimal_len(m as nat);
    lemma_decimal_len(d as nat);
    lemma_decimal_len((t / 3600) as nat);
    lemma_decimal_len(((t % 3600) / 60) as nat);
    lemma_decimal_len((secs % 60) as nat);
    lemma_padded_len(year_ce(y), 4);
    lemma_padded_len(m as nat, 2);
    lemma_padded_len(d as nat, 2);
    lemma_padded_len((t / 3600) as nat, 2);
    lemma_padded_len(((t % 3600) / 60) as nat, 2);
    lemma_padded_len((secs % 60) as nat, 2);
    assert(ical_datetime_text(secs).len() == 16);
    assert(ical_datetime_text(secs).take(16) =~= ical_datetime_text(secs));
}

/// The Taskwarrior project name of a project: `root.name`.
pub open spec fn tw_project_text(p: ProjectInfo) -> Seq<char> {
    p.root@ + seq!['.'] + p.name@
}

/// Whether `r` is the Taskwarrior record of task `t` of project `p`, numbered
/// `id`, started at `start` if given.
pub open spec fn is_tw_task(r: TwTask, id: usize, p: ProjectInfo, t: Task, start: Option<DateTime>) -> bool {
    &&& r.id == id
    &&& r.uuid == t.id
    &&& r.description@ == t.name@
    &&& r.status == (match t.status {
        Status::Pending => TwStatus::Pending,
        Status::Completed => TwStatus::Completed,
    })
    &&& r.entry@ == tw_datetime_text(t.created.spec_secs())
    &&& (match start {
        Some(s) => r.start matches Some(x) && x@ == tw_datetime_text(s.spec_secs()),
        None => r.start is None,
    })
    &&& (match t.completed {
        Some(c) => r.end matches Some(x) && x@ == tw_datetime_text(c.spec_secs()),
        None => r.end is None,
    })
    &&& r.project@ == tw_project_text(p)
    &&& r.tags@.len() == t.tags@.len()
    &&& forall|i: int| 0 <= i < t.tags@.len() ==> #[trigger] r.tags@[i]@ == t.tags@[i].name@
}

/// A Taskwarrior record carries the task's id and name, is completed exactly
/// when the task is, is active (has a start time) exactly when a start time
/// is given, has an end time exactly when the task has a completion time, and
/// lists every tag of the task by name, in order.
pub proof fn law_tw_task_fields(r: TwTask, id: usize, p: ProjectInfo, t: Task, start: Option<DateTime>)
    requires
        is_tw_task(r, id, p, t, start),
    ensures
        r.uuid == t.id,
        r.description@ == t.name@,
        (r.status == TwStatus::Completed) <==> (t.status == Status::Completed),
        r.start is Some <==> start is Some,
        r.end is Some <==> t.completed is Some,
        r.tags@.len() == t.tags@.len(),
        forall|i: int| 0 <= i < t.tags@.len() ==> (#[trigger] r.tags@[i])@ == t.tags@[i].name@,
{
}

/// Taskwarrior text of a UTC instant.
pub fn tw_datetime(d: &UtcDateTime) -> (s: String)
    ensures
        s@ == tw_datetime_text(d.spec_secs()),
{
    let mut buf: Vec<char> = Vec::new();
    super::ical::ToICal::write_ical(d, &mut buf);
    let mut out: Vec<char> = Vec::new();
    let mut i: usize = 0;
    while i < buf.len() && i < 16
        invariant
            i <= buf@.len(),
            i <= 16,
            out@ == buf@.take(i as int),
        decreases 16 - i,
    {
        out.push(buf[i]);
        i = i + 1;
        proof {
            assert(buf@.take(i as int) =~= buf@.take(i - 1).push(buf@[i - 1]));
        }
    }
    proof {
        assert(buf@ =~= ical_datetime_text(d.spec_secs()));
        if buf@.len() < 16 {
            assert(buf@.take(16) =~= buf@.take(i as int));
        }
    }
    chars_to_string(&out)
}

/// The Taskwarrior record of task `t` of project `p`.
pub fn to_task(id: usize, p: &ProjectInfo, t: &Task, start: Option<DateTime>) -> (r: TwTask)
    ensures
        is_tw_task(r, id, *p, *t, start),
{
    let status = match t.status {
        Status::Pending => TwStatus::Pending,
        Status::Completed => TwStatus::Completed,
    };
    let entry = tw_datetime(&t.created.to_utc());
    let start_text = match start {
        Some(s) => Some(tw_datetime(&s.to_utc())),
        None => None,
    };
    let end_text = match &t.completed {
        Some(c) => Some(tw_datetime(&c.to_utc())),
        None => None,
    };
    let mut project: Vec<char> = Vec::new();
    push_str(&mut project, p.root.as_str());
    project.push('.');
    push_str(&mut project, p.name.as_str());
    proof {
        assert(project@ =~= tw_project_text(*p));
    }
    let mut tags: Vec<String> = Vec::new();
    let mut i: usize = 0;
    while i < t.tags.len()
        invariant
            i <= t.tags@.len(),
            tags@.len() == i,
            forall|j: int| 0 <= j < i ==> #[trigger] tags@[j]@ == t.tags@[j].name@,
        decreases t.tags.len() - i,
    {
        tags.push(t.tags[i].name.clone());
        i = i + 1;
    }
    TwTask {
        id,
        uuid: t.id,
        description: t.name.clone(),
        status,
        entry,
        start: start_text,
        end: end_text,
        project: chars_to_string(&project),
        tags,
    }
}

/// Produces the Taskwarrior records that keep Taskwarrior in step with the
/// project's tasks; the records are imported with `task import`.
#[derive(Debug)]
pub struct Taskwarrior {}

impl Taskwarrior {
    pub fn new() -> Self {
        Self {}
    }

    /// Records for all tasks of a project, numbered by position.
    pub fn add_tasks(&mut self, project: &ProjectInfo, tasks: &[Task]) -> (r: Vec<TwTask>)
        ensures
            r@.len() == tasks@.len(),
            forall|i: int| 0 <= i < tasks@.len() ==> is_tw_task(#[trigger] r@[i], i as usize, *project, tasks@[i], None),
    {
        let mut out: Vec<TwTask> = Vec::new();
        let mut i: usize = 0;
        while i < tasks.len()
            invariant
                i <= tasks@.len(),
                out@.len() == i,
                forall|j: int| 0 <= j < i ==> is_tw_task(#[trigger] out@[j], j as usize, *project, tasks@[j], None),
            decreases tasks.len() - i,
        {
            out.push(to_task(i, project, &tasks[i], None));
            i = i + 1;
        }
        out
    }

    /// The record of a task that has been started at `start`.
    pub fn start_task(&mut self, project: &ProjectInfo, t: &Task, start: DateTime) -> (r: Vec<TwTask>)
        ensures
            r@.len() == 1,
            is_tw_task(r@[0], 0, *project, *t, Some(start)),
    {
        let mut out: Vec<TwTask> = Vec::new();
        out.push(to_task(0, project, t, Some(start)));
        out
    }

    /// The record of a task that has been stopped: without a start time, it
    /// is no longer active.
    pub fn stop_task(&mut self, project: &ProjectInfo, t: &Task) -> (r: Vec<TwTask>)
        ensures
            r@.len() == 1,
            is_tw_task(r@[0], 0, *project, *t, None),
    {
        let mut out: Vec<TwTask> = Vec::new();
        out.push(to_task(0, project, t, None));
        out
    }

    /// The record of a task that has been finished.
    pub fn finish_task(&mut self, project: &ProjectInfo, t: &Task) -> (r: Vec<TwTask>)
        ensures
            r@.len() == 1,
            is_tw_task(r@[0], 0, *project, *t, None),
    {
        let mut out: Vec<TwTask> = Vec::new();
        out.push(to_task(0, project, t, None));
        out
    }

    /// The record of a task that has been marked complete.
    pub fn set_task_complete(&mut self, project: &ProjectInfo, t: &Task) -> (r: Vec<TwTask>)
        ensures
            r@.len() == 1,
            is_tw_task(r@[0], 0, *project, *t, None),
    {
        let mut out: Vec<TwTask> = Vec::new();
        out.push(to_task(0, project, t, None));
        out
    }
}

} // verus!
