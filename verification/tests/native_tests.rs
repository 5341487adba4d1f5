use std::collections::BTreeMap;

use task_util::native::{
    apply_stop, check_startable, nickel_args, state_json_path, state_json_path_from_stem,
    task_list_line, time_def_args, time_record, time_record_path, time_record_path_from_civil,
    Config, StartError, StartedTask, StopTimeOpt,
};
use task_util::types::datetime::{CivilTime, DateTime};
use task_util::types::id::Uuid;
use task_util::types::project::{self, ProjectDefState, ProjectInfo, ProjectRef, ProjectState};
use task_util::types::task::{self, Status, Task, TaskState};
use task_util::types::time::{ExternalTools as TimeTools, TimeInfo, Timewarrior};

fn dt(secs: i64, offset: i32) -> DateTime {
    DateTime::from_parts(secs, 0, offset).unwrap()
}

fn s(v: &[&str]) -> Vec<String> {
    v.iter().map(|x| x.to_string()).collect()
}

fn task(status: Status) -> Task {
    Task {
        id: Uuid(7),
        name: "Write docs".into(),
        status,
        description: None,
        created: dt(0, 0),
        completed: None,
        project: ProjectRef { id: Uuid(9), root: "util".into(), name: "task".into() },
        tags: vec![],
        data: serde_json::Value::Null,
        external_tools: task::ExternalTools { timewarrior: None, super_productivity: None },
    }
}

fn project() -> ProjectInfo {
    ProjectInfo {
        id: Uuid(9),
        name: "task".into(),
        root: "util".into(),
        description: None,
        created: dt(0, 0),
        color: "red".into(),
        data: serde_json::Value::Null,
        external_tools: project::ExternalTools { super_productivity: None },
    }
}

fn state() -> ProjectDefState {
    ProjectDefState {
        project: ProjectState { external_tools: project::ExternalState { super_productivity: None } },
        tasks: BTreeMap::new(),
    }
}

#[test]
fn nickel_command_arguments() {
    assert_eq!(nickel_args("p.ncl", None, &[], &[]), s(&["export", "--format", "json", "p.ncl"]));
    assert_eq!(
        nickel_args("t.ncl", Some("all_tags"), &[], &[]),
        s(&["export", "--format", "json", "--field", "all_tags", "t.ncl"])
    );
    assert_eq!(
        nickel_args("d.ncl", None, &s(&["a=1"]), &s(&["b", "c"])),
        s(&["export", "--format", "json", "d.ncl", "--", "a=1", "b", "c"])
    );
    assert_eq!(
        nickel_args("d.ncl", None, &[], &s(&["b"])),
        s(&["export", "--format", "json", "d.ncl", "--", "b"])
    );
}

#[test]
fn state_file_next_to_definition() {
    assert_eq!(state_json_path("projects/util.ncl"), "util.json");
    assert_eq!(state_json_path("tags.tar.ncl"), "tags.tar.json");
    assert_eq!(state_json_path("plain"), "plain.json");
    assert_eq!(state_json_path(".hidden"), ".hidden.json");
    assert_eq!(state_json_path(""), ".json");
    assert_eq!(state_json_path("a/.."), "a/...json");
}

#[test]
fn only_pending_tasks_start() {
    assert_eq!(check_startable(&task(Status::Pending)), Ok(()));
    assert_eq!(check_startable(&task(Status::Completed)), Err(StartError::NotPending));
}

#[test]
fn time_definition_arguments() {
    assert_eq!(time_def_args(3, true), s(&["info.task_index=3", "info.done=true"]));
    assert_eq!(time_def_args(0, false), s(&["info.task_index=0", "info.done=false"]));
    let extra = s(&["x=1"]);
    let opt = StopTimeOpt { task_index: 12, def_file: Some("time.ncl"), done: false, args: &extra, stop_time: None };
    assert_eq!(
        opt.time_def_nickel_args(),
        Some(s(&["export", "--format", "json", "time.ncl", "--", "info.task_index=12", "info.done=false", "x=1"]))
    );
    let none = StopTimeOpt { task_index: 0, def_file: None, done: true, args: &extra, stop_time: None };
    assert_eq!(none.time_def_nickel_args(), None);
}

#[test]
fn stopping_without_done_changes_nothing() {
    let mut t = task(Status::Pending);
    let mut st = state();
    apply_stop(false, dt(100, 0), &mut t, &mut st);
    assert_eq!(t.status, Status::Pending);
    assert!(t.completed.is_none());
    assert!(st.tasks.is_empty());
}

#[test]
fn stopping_done_completes_task_and_state() {
    let mut t = task(Status::Pending);
    let mut st = state();
    st.tasks.insert(
        1,
        TaskState {
            status: Status::Pending,
            completed: None,
            external_tools: task::ExternalState { super_productivity: None },
        },
    );
    st.tasks.insert(
        7,
        TaskState {
            status: Status::Pending,
            completed: None,
            external_tools: task::ExternalState {
                super_productivity: Some(task::SuperProductivityState { id: "sp7".into() }),
            },
        },
    );
    apply_stop(true, dt(100, 3600), &mut t, &mut st);
    assert_eq!(t.status, Status::Completed);
    assert_eq!(t.completed.unwrap().secs(), 100);
    assert_eq!(st.tasks.len(), 2);
    assert_eq!(st.tasks[&7].status, Status::Completed);
    assert_eq!(st.tasks[&7].completed.unwrap().secs(), 100);
    assert_eq!(st.tasks[&7].external_tools.super_productivity.as_ref().unwrap().id, "sp7");
    assert_eq!(st.tasks[&1].status, Status::Pending);

    // a task with no recorded state yet gets one
    let mut st2 = state();
    let mut t2 = task(Status::Pending);
    apply_stop(true, dt(5, 0), &mut t2, &mut st2);
    assert_eq!(st2.tasks[&7].status, Status::Completed);
    assert!(st2.tasks[&7].external_tools.super_productivity.is_none());
}

#[test]
fn time_records() {
    let p = project();
    let t = task(Status::Pending);
    let started = StartedTask { id: Uuid(42), start_time: dt(1704164645, 0) };
    let info = TimeInfo {
        data: serde_json::Value::Bool(true),
        external_tools: TimeTools { timewarrior: Some(Timewarrior { extra_tags: s(&["x"]) }) },
    };
    let r = time_record(&started, dt(1704168245, 0), &p, &t, true, info);
    assert_eq!(r.id, Uuid(42));
    assert_eq!(r.start_time.secs(), 1704164645);
    assert_eq!(r.end_time.secs(), 1704168245);
    assert!(r.done);
    assert_eq!(r.task.name, "Write docs");
    assert_eq!(r.data, serde_json::Value::Bool(true));
    assert_eq!(r.external_tools.timewarrior.as_ref().unwrap().extra_tags, s(&["x"]));
}

#[test]
fn time_log_paths() {
    let id = Uuid(0x0123456789abcdef0123456789abcdef);
    assert_eq!(
        time_record_path(&dt(1704164645, 0), &id),
        "2024/2024-01/02/01234567-89ab-cdef-0123-456789abcdef.json"
    );
    // the date is the local one: 2024-06-30T23:30Z at +02:00 is July 1st
    assert_eq!(
        time_record_path(&dt(1719790200, 7200), &id),
        "2024/2024-07/01/01234567-89ab-cdef-0123-456789abcdef.json"
    );
    // year -1 is filed under year 2 before the common era
    assert_eq!(
        time_record_path(&dt(-62193380033, 0), &id),
        "2/2-03/04/01234567-89ab-cdef-0123-456789abcdef.json"
    );
}

#[test]
fn task_listing() {
    assert_eq!(task_list_line(5, &task(Status::Pending)), "   5   Write docs");
    assert_eq!(task_list_line(12345, &task(Status::Completed)), "12345 x Write docs");
    assert_eq!(task_list_line(0, &task(Status::Completed)), "   0 x Write docs");
}

#[test]
fn native_config() {
    let c = Config { time_log_path: "log".into() };
    assert_eq!(c.time_log_path, "log");
}

#[test]
fn state_path_from_given_stem() {
    assert_eq!(state_json_path_from_stem("dir/p.ncl", &Some("p".to_string())), "p.json");
    assert_eq!(state_json_path_from_stem("dir/p.ncl", &None), "dir/p.ncl.json");
}

#[test]
fn record_path_from_calendar_fields() {
    let id = Uuid(0x0123456789abcdef0123456789abcdef);
    let c = CivilTime { year: 2024, month: 3, day: 7, hour: 1, minute: 2, second: 3 };
    assert_eq!(
        time_record_path_from_civil(&c, &id),
        "2024/2024-03/07/01234567-89ab-cdef-0123-456789abcdef.json"
    );
    let bce = CivilTime { year: -5, month: 12, day: 31, hour: 0, minute: 0, second: 0 };
    assert_eq!(
        time_record_path_from_civil(&bce, &id),
        "6/6-12/31/01234567-89ab-cdef-0123-456789abcdef.json"
    );
}
