//! Layout of a Radicale calendar store: one collection per project, one
//! iCalendar file per task.
use vstd::prelude::*;

use super::ical::{calendar_footer, calendar_header, task_lines, ICalTodoBuilder};
use crate::text::{chars_to_string, push_str};
use crate::types::id::{uuid_text, Uuid};
use crate::types::project::ProjectInfo;
use crate::types::task::Task;

verus! {

/// Where the calendar store lives.
#[derive(Debug)]
pub struct Config {
    pub path: String,
}

/// Properties of a project's calendar collection (`.Radicale.props`).
#[derive(Debug)]
pub struct ProjectProp {
    pub component_set: String,
    pub name: String,
    pub description: Option<String>,
    pub color: String,
    pub tag: String,
    pub calender_enabled: String,
}

/// The collection properties of a project: a VTODO calendar named after the
/// project, with its description and color, enabled.
pub fn project_props(project: &ProjectInfo) -> (r: ProjectProp)
    ensures
        r.component_set@ == "VTODO"@,
        r.name@ == project.name@,
        r.description == project.description,
        r.color@ == project.color@,
        r.tag@ == "VCALENDAR"@,
        r.calender_enabled@ == "1"@,
{
    ProjectProp {
        component_set: "VTODO".to_owned(),
        name: project.name.clone(),
        description: match &project.description {
            Some(d) => Some(d.clone()),
            None => None,
        },
        color: project.color.clone(),
        tag: "VCALENDAR".to_owned(),
        calender_enabled: "1".to_owned(),
    }
}

/// Path of a project's collection directory, relative to the store root.
pub fn project_dir_path(project_id: &Uuid) -> (r: String)
    ensures
        r@ == uuid_text(project_id.0),
{
    project_id.to_text()
}

/// Path of a project's collection property file, relative to the store root.
pub fn project_props_path(project_id: &Uuid) -> (r: String)
    ensures
        r@ == uuid_text(project_id.0) + "/.Radicale.props"@,
{
    let mut buf: Vec<char> = Vec::new();
    let id = project_id.to_text();
    push_str(&mut buf, id.as_str());
    push_str(&mut buf, "/.Radicale.props");
    chars_to_string(&buf)
}

/// Path of a task's calendar file, relative to the store root.
pub fn task_file_path(project_id: &Uuid, task_id: &Uuid) -> (r: String)
    ensures
        r@ == uuid_text(project_id.0) + seq!['/'] + uuid_text(task_id.0) + ".ics"@,
{
    let mut buf: Vec<char> = Vec::new();
    let p = project_id.to_text();
    let t = task_id.to_text();
    push_str(&mut buf, p.as_str());
    buf.push('/');
    push_str(&mut buf, t.as_str());
    push_str(&mut buf, ".ics");
    proof {
        assert(buf@ =~= uuid_text(project_id.0) + seq!['/'] + uuid_text(task_id.0) + ".ics"@);
    }
    chars_to_string(&buf)
}

/// The calendar file text of task `task`, the `idx`-th of its project, built
/// in the reusable `ical_buf`.
pub fn task_calendar<'a>(ical_buf: &'a mut ICalTodoBuilder, idx: usize, task: &Task) -> (r: &'a str)
    requires
        (idx + 1) * 100 <= usize::MAX,
    ensures
        r@ == calendar_header() + task_lines(idx as int, *task) + calendar_footer(),
        final(ical_buf)@ == r@,
        final(ical_buf).no_pending_line(),
{
    ical_buf.clear();
    ical_buf.add_task(idx, task);
    ical_buf.finish()
}

} // verus!
