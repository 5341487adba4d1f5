//! The tool's own bookkeeping: evaluating definition files, the state file
//! next to each definition, starting and stopping the clock on a task, and
//! where time records are filed.
use vstd::prelude::*;

use crate::ext_tools::ical::{
    description_text, ical_datetime_text, ical_escape, prop_line, tag_list, task_lines, year_ce,
};
use crate::text::{
    chars_to_string, decimal, extend_strings, padded, push_decimal, push_padded, push_right_aligned, push_str,
    space_pad, texts,
};
use crate::types::datetime::{local_date, CivilTime, DateTime};
use crate::types::id::{uuid_text, Uuid};
use crate::types::project::{ProjectDefState, ProjectInfo};
use crate::types::task::{ExternalState, Status, Task, TaskState};
use crate::types::time::{TimeInfo, TimeRecord};
use crate::ext_tools::super_productivity::tasks_with_sp_id;

verus! {

broadcast use vstd::laws_cmp::group_laws_cmp;

/// Where the time log lives.
#[derive(Debug)]
pub struct Config {
    pub time_log_path: String,
}

/// When the running task was started.
#[derive(Debug)]
pub struct Started {
    pub start_time: DateTime,
}

/// The task that is running, as kept in the started-task file.
#[derive(Debug)]
pub struct StartedTask {
    pub id: Uuid,
    pub start_time: DateTime,
}

/// Why a task cannot be started.
#[derive(Debug, PartialEq, Eq, Structural)]
pub enum StartError {
    /// Only a pending task can be started.
    NotPending,
}

/// Options of stopping the clock on a task.
#[derive(Debug)]
pub struct StopTimeOpt<'a> {
    pub task_index: usize,
    pub def_file: Option<&'a str>,
    pub done: bool,
    pub args: &'a [String],
    pub stop_time: Option<DateTime>,
}

/// Arguments of `nickel export` for `file`: JSON output, the optional field
/// to export, and, if there are any, the arguments after a `--`.
pub open spec fn nickel_args_spec(
    file: Seq<char>,
    field: Option<Seq<char>>,
    args: Seq<Seq<char>>,
    extra: Seq<Seq<char>>,
) -> Seq<Seq<char>> {
    seq!["export"@, "--format"@, "json"@] + (match field {
        Some(f) => seq!["--field"@, f],
        None => Seq::empty(),
    }) + seq![file] + (if extra.len() > 0 || args.len() > 0 {
        seq!["--"@] + args + extra
    } else {
        Seq::empty()
    })
}

/// The `nickel export` arguments start with `export --format json`, name the
/// file right before the separator, and, whenever there are arguments or
/// extra arguments, end with `--` followed by all the arguments and then all
/// the extra arguments; with neither, the file comes last.
pub proof fn law_nickel_args_layout(
    file: Seq<char>,
    field: Option<Seq<char>>,
    args: Seq<Seq<char>>,
    extra: Seq<Seq<char>>,
)
    ensures
        ({
            let r = nickel_args_spec(file, field, args, extra);
            let head = if field is Some {
                6int
            } else {
                4int
            };
            &&& r[0] == "export"@ && r[1] == "--format"@ && r[2] == "json"@
            &&& r[head - 1] == file
            &&& (field matches Some(f) ==> r[3] == "--field"@ && r[4] == f)
            &&& (args.len() > 0 || extra.len() > 0) ==> {
                &&& r.len() == head + 1 + args.len() + extra.len()
                &&& r[head] == "--"@
                &&& forall|i: int| 0 <= i < args.len() ==> r[head + 1 + i] == #[trigger] args[i]
                &&& forall|i: int|
                    0 <= i < extra.len() ==> r[head + 1 + args.len() + i] == #[trigger] extra[i]
            }
            &&& (args.len() == 0 && extra.len() == 0) ==> r.len() == head
        }),
{
    let r = nickel_args_spec(file, field, args, extra);
    let head = if field is Some {
        6int
    } else {
        4int
    };
    if args.len() > 0 || extra.len() > 0 {
        assert forall|i: int| 0 <= i < args.len() implies r[head + 1 + i] == #[trigger] args[i] by {
        }
        assert forall|i: int| 0 <= i < extra.len() implies r[head + 1 + args.len() + i]
            == #[trigger] extra[i] by {}
    }
}

/// Evaluating a time definition always tells it the task index and the done
/// flag: they follow the separator, before the extra arguments.
pub proof fn law_time_def_args_reach_nickel(
    def: Seq<char>,
    task_index: usize,
    done: bool,
    extra: Seq<Seq<char>>,
)
    ensures
        ({
            let r = nickel_args_spec(
                def,
                None,
                seq![
                    "info.task_index="@ + decimal(task_index as nat),
                    "info.done="@ + (if done {
                        "true"@
                    } else {
                        "false"@
                    }),
                ],
                extra,
            );
            &&& r.len() == 7 + extra.len()
            &&& r[3] == def
            &&& r[4] == "--"@
            &&& r[5] == "info.task_index="@ + decimal(task_index as nat)
            &&& r[6] == "info.done="@ + (if done {
                "true"@
            } else {
                "false"@
            })
        }),
{
    let a = seq![
        "info.task_index="@ + decimal(task_index as nat),
        "info.done="@ + (if done {
            "true"@
        } else {
            "false"@
        }),
    ];
    law_nickel_args_layout(def, None, a, extra);
}

/// Arguments of the `nickel` command that exports `file` as JSON.
pub fn nickel_args(file: &str, field: Option<&str>, args: &[String], extra_args: &[String]) -> (r:
    Vec<String>)
    ensures
        texts(r@) == nickel_args_spec(
            file@,
            match field {
                Some(f) => Some(f@),
                None => None,
            },
            texts(args@),
            texts(extra_args@),
        ),
{
    let mut out: Vec<String> = Vec::new();
    out.push("export".to_owned());
    out.push("--format".to_owned());
    out.push("json".to_owned());
    match field {
        Some(f) => {
            out.push("--field".to_owned());
            out.push(f.to_owned());
        },
        None => {},
    }
    out.push(file.to_owned());
    let ghost head = texts(out@);
    if extra_args.len() > 0 || args.len() > 0 {
        out.push("--".to_owned());
        extend_strings(&mut out, args);
        extend_strings(&mut out, extra_args);
    }
    proof {
        assert(texts(out@) =~~= nickel_args_spec(
            file@,
            match field {
                Some(f) => Some(f@),
                None => None,
            },
            texts(args@),
            texts(extra_args@),
        ));
    }
    out
}

/// The stem of the final component of `path`, as `std::path::Path::file_stem`
/// computes it.
pub uninterp spec fn std_file_stem(path: Seq<char>) -> Option<Seq<char>>;

/// Stem of the final component of a path.
///
/// Trusted: calls `std::path::Path::file_stem`. Its result depends on the
/// path alone and is named `std_file_stem`; as the stem is a piece of the
/// given `&str` cut at ASCII separators, converting it back to a `String`
/// loses nothing.
#[verifier::external_body]
fn path_file_stem(path: &str) -> (r: Option<String>)
    ensures
        match r {
            Some(s) => std_file_stem(path@) == Some(s@),
            None => std_file_stem(path@) is None,
        },
{
    match std::path::Path::new(path).file_stem() {
        Some(s) => Some(s.to_string_lossy().into_owned()),
        None => None,
    }
}

/// The state file kept next to a definition file, given the stem of the
/// definition file's name: the stem (or the whole path when there is none)
/// with `.json` appended.
pub fn state_json_path_from_stem(path: &str, stem: &Option<String>) -> (r: String)
    ensures
        r@ == (match *stem {
            Some(s) => s@,
            None => path@,
        }) + ".json"@,
{
    let mut buf: Vec<char> = Vec::new();
    match stem {
        Some(s) => push_str(&mut buf, s.as_str()),
        None => push_str(&mut buf, path),
    }
    push_str(&mut buf, ".json");
    chars_to_string(&buf)
}

/// The state file kept next to a definition file: its stem (or the whole
/// path when it has none) with `.json` appended.
pub fn state_json_path(path: &str) -> (r: String)
    ensures
        r@ == (match std_file_stem(path@) {
            Some(s) => s,
            None => path@,
        }) + ".json"@,
{
    let stem = path_file_stem(path);
    state_json_path_from_stem(path, &stem)
}

/// Only a pending task can be started.
pub fn check_startable(task: &Task) -> (r: Result<(), StartError>)
    ensures
        r is Ok <==> task.status == Status::Pending,
        r is Err ==> r == Err::<(), StartError>(StartError::NotPending),
{
    match task.status {
        Status::Pending => Ok(()),
        Status::Completed => Err(StartError::NotPending),
    }
}

/// `info.task_index=<index>` and `info.done=<true|false>`, the arguments that
/// tell a time definition which task is being stopped and whether it is done.
pub fn time_def_args(task_index: usize, done: bool) -> (r: Vec<String>)
    ensures
        texts(r@) == seq![
            "info.task_index="@ + decimal(task_index as nat),
            "info.done="@ + (if done {
                "true"@
            } else {
                "false"@
            }),
        ],
{
    let mut a: Vec<char> = Vec::new();
    push_str(&mut a, "info.task_index=");
    push_decimal(&mut a, task_index as u64);
    let mut b: Vec<char> = Vec::new();
    push_str(&mut b, "info.done=");
    if done {
        push_str(&mut b, "true");
    } else {
        push_str(&mut b, "false");
    }
    let mut out: Vec<String> = Vec::new();
    out.push(chars_to_string(&a));
    out.push(chars_to_string(&b));
    proof {
        assert(texts(out@) =~~= seq![
            "info.task_index="@ + decimal(task_index as nat),
            "info.done="@ + (if done {
                "true"@
            } else {
                "false"@
            }),
        ]);
    }
    out
}

impl<'a> StopTimeOpt<'a> {
    /// Arguments of the `nickel` command that evaluates the time definition
    /// of this stop, if one is given: the definition file, the task index and
    /// done flag, then the extra arguments.
    pub fn time_def_nickel_args(&self) -> (r: Option<Vec<String>>)
        ensures
            match self.def_file {
                Some(def) => r matches Some(v) && texts(v@) == nickel_args_spec(
                    def@,
                    None,
                    seq![
                        "info.task_index="@ + decimal(self.task_index as nat),
                        "info.done="@ + (if self.done {
                            "true"@
                        } else {
                            "false"@
                        }),
                    ],
                    texts(self.args@),
                ),
                None => r is None,
            },
    {
        match self.def_file {
            Some(def) => {
                let info = time_def_args(self.task_index, self.done);
                Some(nickel_args(def, None, info.as_slice(), self.args))
            },
            None => None,
        }
    }
}

/// The recorded task states after task `id` is marked done at `end`: its
/// entry (a fresh one if it had none) gets completed status and time, keeping
/// its ids in outside tools; other entries are unchanged.
pub open spec fn stopped_states(m: Map<u128, TaskState>, id: u128, end: DateTime) -> Map<u128, TaskState> {
    m.insert(
        id,
        TaskState {
            status: Status::Completed,
            completed: Some(end),
            external_tools: if m.contains_key(id) {
                m[id].external_tools
            } else {
                ExternalState { super_productivity: None }
            },
        },
    )
}

/// Marks a task done at `end_time` when `done` is set, both in the task and in
/// the project's recorded state; does nothing otherwise.
pub fn apply_stop(done: bool, end_time: DateTime, task: &mut Task, state: &mut ProjectDefState)
    ensures
        !done ==> *final(task) == *old(task) && *final(state) == *old(state),
        done ==> *final(task) == (Task {
            status: Status::Completed,
            completed: Some(end_time),
            ..*old(task)
        }),
        done ==> final(state).tasks@ == stopped_states(old(state).tasks@, old(task).id.0, end_time),
        final(state).project == old(state).project,
{
    if done {
        let key = task.id.0;
        let mut entry = match state.tasks.remove(&key) {
            Some(s) => s,
            None => TaskState::default(),
        };
        entry.status = Status::Completed;
        entry.completed = Some(end_time);
        state.tasks.insert(key, entry);
        task.status = Status::Completed;
        task.completed = Some(end_time);
        proof {
            assert(state.tasks@ =~= stopped_states(old(state).tasks@, key, end_time));
        }
    }
}

/// Stopping a task as done a second time, at the same time, changes nothing
/// more: marking done is idempotent.
pub proof fn law_stop_done_idempotent(m: Map<u128, TaskState>, id: u128, end: DateTime)
    ensures
        stopped_states(stopped_states(m, id, end), id, end) == stopped_states(m, id, end),
{
    assert(stopped_states(stopped_states(m, id, end), id, end) =~= stopped_states(m, id, end));
}

/// After a task is marked done at `end`, its entry is completed at `end`,
/// keeps the app id it had, and the state holds exactly the tasks it held
/// before plus this one, every other entry unchanged.
pub proof fn law_stop_done_marks_entry(m: Map<u128, TaskState>, id: u128, end: DateTime)
    ensures
        ({
            let n = stopped_states(m, id, end);
            &&& n.contains_key(id)
            &&& n[id].status == Status::Completed
            &&& n[id].completed == Some(end)
            &&& m.contains_key(id) ==> n[id].external_tools == m[id].external_tools
            &&& !m.contains_key(id) ==> n[id].external_tools.super_productivity is None
            &&& n.dom() == m.dom().insert(id)
            &&& forall|k: u128| k != id && #[trigger] m.contains_key(k) ==> n[k] == m[k]
        }),
{
}

/// The time record of a stop: the started task's id and start time, the stop
/// time, the project and task, whether the task is done, and what the time
/// definition attached.
pub fn time_record<'a>(
    started: &StartedTask,
    end_time: DateTime,
    project: &'a ProjectInfo,
    task: &'a Task,
    done: bool,
    time_def: TimeInfo,
) -> (r: TimeRecord<&'a ProjectInfo, &'a Task>)
    ensures
        r.id == started.id,
        r.start_time == started.start_time,
        r.end_time == end_time,
        r.project == project,
        r.task == task,
        r.done == done,
        r.data == time_def.data,
        r.external_tools == time_def.external_tools,
{
    TimeRecord {
        id: started.id,
        start_time: started.start_time,
        end_time,
        project,
        task,
        done,
        data: time_def.data,
        external_tools: time_def.external_tools,
    }
}

/// Path of a time record in the time log, from the calendar date its start
/// time falls on and its id: `<year>/<year>-<MM>/<DD>/<id>.json`, the year
/// counted without era.
pub open spec fn record_path_of_date(y: int, m: int, d: int, id: Uuid) -> Seq<char> {
    decimal(year_ce(y)) + seq!['/'] + decimal(year_ce(y)) + seq!['-'] + padded(m as nat, 2) + seq![
        '/',
    ] + padded(d as nat, 2) + seq!['/'] + uuid_text(id.0) + ".json"@
}

/// Path of a time record in the time log, from its start time (in the
/// offset it was recorded at) and id.
pub open spec fn time_record_path_spec(start: DateTime, id: Uuid) -> Seq<char> {
    let (y, m, d) = local_date(start.spec_secs(), start.spec_offset());
    record_path_of_date(y, m, d, id)
}

/// Path of a time record in the time log, from the calendar fields of its
/// start time and its id.
pub fn time_record_path_from_civil(c: &CivilTime, id: &Uuid) -> (r: String)
    ensures
        r@ == record_path_of_date(c.year as int, c.month as int, c.day as int, *id),
{
    let y: i64 = c.year as i64;
    let year: u64 = if y < 1 {
        (1 - y) as u64
    } else {
        y as u64
    };
    let mut buf: Vec<char> = Vec::new();
    push_decimal(&mut buf, year);
    buf.push('/');
    push_decimal(&mut buf, year);
    buf.push('-');
    push_padded(&mut buf, c.month as u64, 2);
    buf.push('/');
    push_padded(&mut buf, c.day as u64, 2);
    buf.push('/');
    let id_text = id.to_text();
    push_str(&mut buf, id_text.as_str());
    push_str(&mut buf, ".json");
    proof {
        assert(buf@ =~= record_path_of_date(c.year as int, c.month as int, c.day as int, *id));
    }
    chars_to_string(&buf)
}

/// Path of a time record in the time log.
pub fn time_record_path(start_time: &DateTime, id: &Uuid) -> (r: String)
    ensures
        r@ == time_record_path_spec(*start_time, *id),
{
    let c = start_time.local_civil();
    time_record_path_from_civil(&c, id)
}

/// One line of the task listing: the index right-aligned in four columns, an
/// `x` for a completed task (a space otherwise), and the task name.
pub open spec fn task_list_line_spec(idx: usize, task: Task) -> Seq<char> {
    space_pad(decimal(idx as nat), 4) + seq![' '] + (match task.status {
        Status::Pending => seq![' '],
        Status::Completed => seq!['x'],
    }) + seq![' '] + task.name@
}

/// A listing line shows a task's position right-aligned in at least four
/// columns, then after a space an `x` for a completed task or a space for a
/// pending one, then after another space the task name.
pub proof fn law_task_list_line_layout(idx: usize, task: Task)
    ensures
        ({
            let line = task_list_line_spec(idx, task);
            let n = space_pad(decimal(idx as nat), 4).len() as int;
            &&& n >= 4
            &&& line.len() == n + 3 + task.name@.len()
            &&& line[n] == ' '
            &&& line[n + 1] == (if task.status == Status::Completed {
                'x'
            } else {
                ' '
            })
            &&& line[n + 2] == ' '
            &&& line.subrange(n + 3, line.len() as int) == task.name@
        }),
{
    let line = task_list_line_spec(idx, task);
    let n = space_pad(decimal(idx as nat), 4).len() as int;
    assert(line.subrange(n + 3, line.len() as int) =~= task.name@);
}

/// One line of the task listing.
pub fn task_list_line(idx: usize, task: &Task) -> (r: String)
    ensures
        r@ == task_list_line_spec(idx, *task),
{
    let mut buf: Vec<char> = Vec::new();
    push_right_aligned(&mut buf, idx as u64, 4);
    buf.push(' ');
    match task.status {
        Status::Pending => buf.push(' '),
        Status::Completed => buf.push('x'),
    }
    buf.push(' ');
    push_str(&mut buf, task.name.as_str());
    proof {
        assert(buf@ =~= task_list_line_spec(idx, *task));
    }
    chars_to_string(&buf)
}


/// A task that stopping has marked done at `end` (completed status and
/// completion time, as `apply_stop` leaves it) is listed with an `x`, and its
/// calendar entry reports it completed at `end`, 100 percent done, with
/// status COMPLETED.
pub proof fn law_done_task_reports_completed(idx: usize, task: Task, end: DateTime)
    requires
        task.status == Status::Completed,
        task.completed == Some(end),
    ensures
        task_list_line_spec(idx, task)[space_pad(decimal(idx as nat), 4).len() as int + 1] == 'x',
        exists|a: Seq<char>, b: Seq<char>|
            task_lines(idx as int, task) == a + prop_line(
                "COMPLETED"@,
                ical_datetime_text(end.spec_secs()),
            ) + prop_line("PERCENT-COMPLETE"@, ical_escape("100"@)) + prop_line(
                "STATUS"@,
                ical_escape("COMPLETED"@),
            ) + b,
{
    let cat = if task.tags@.len() > 0 {
        prop_line("CATEGORIES"@, tag_list(task.tags@))
    } else {
        Seq::empty()
    };
    let a = cat + prop_line("DESCRIPTION"@, ical_escape(description_text(task.description)))
        + prop_line("DTSTAMP"@, ical_datetime_text(task.created.spec_secs())) + prop_line(
        "PRIORITY"@,
        decimal(0),
    );
    let b = prop_line("SUMMARY"@, ical_escape(task.name@)) + prop_line(
        "UID"@,
        uuid_text(task.id.0),
    ) + prop_line("X-APPLE-SORT-ORDER"@, decimal(((idx + 1) * 100) as nat));
    assert(task_lines(idx as int, task) =~= a + prop_line(
        "COMPLETED"@,
        ical_datetime_text(end.spec_secs()),
    ) + prop_line("PERCENT-COMPLETE"@, ical_escape("100"@)) + prop_line(
        "STATUS"@,
        ical_escape("COMPLETED"@),
    ) + b);
}


/// Marking a task done and recording its app id give the same task states in
/// either order: neither undoes the other.
pub proof fn law_stop_and_sp_id_commute(
    m: Map<u128, TaskState>,
    id: u128,
    end: DateTime,
    other: u128,
    sp: String,
)
    ensures
        stopped_states(tasks_with_sp_id(m, other, sp), id, end) == tasks_with_sp_id(
            stopped_states(m, id, end),
            other,
            sp,
        ),
{
    assert(stopped_states(tasks_with_sp_id(m, other, sp), id, end) =~= tasks_with_sp_id(
        stopped_states(m, id, end),
        other,
        sp,
    ));
}

} // verus!
