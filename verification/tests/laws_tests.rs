use std::collections::BTreeMap;

use task_util::ext_tools::ical::ICalTodoBuilder;
use task_util::ext_tools::super_productivity::{record_tag_id, record_task_id};
use task_util::ext_tools::taskwarrior::tw_datetime;
use task_util::native::{apply_stop, task_list_line};
use task_util::types::datetime::DateTime;
use task_util::types::id::Uuid;
use task_util::types::project::{self, ProjectDefState, ProjectRef, ProjectState};
use task_util::types::task::{self, Status, Task};

fn dt(secs: i64) -> DateTime {
    DateTime::from_parts(secs, 0, 0).unwrap()
}

fn task(id: u128) -> Task {
    Task {
        id: Uuid(id),
        name: "Plan".into(),
        status: Status::Pending,
        description: None,
        created: dt(1704164645),
        completed: None,
        project: ProjectRef { id: Uuid(9), root: "r".into(), name: "n".into() },
        tags: vec![],
        data: serde_json::Value::Null,
        external_tools: task::ExternalTools { timewarrior: None, super_productivity: None },
    }
}

fn state() -> ProjectDefState {
    ProjectDefState {
        project: ProjectState { external_tools: project::ExternalState { super_productivity: None } },
        tasks: BTreeMap::new(),
    }
}

fn summary(st: &ProjectDefState) -> Vec<(u128, Status, Option<i64>, Option<String>)> {
    st.tasks
        .iter()
        .map(|(k, v)| {
            (
                *k,
                v.status,
                v.completed.map(|c| c.secs()),
                v.external_tools.super_productivity.as_ref().map(|s| s.id.clone()),
            )
        })
        .collect()
}

#[test]
fn stopping_done_twice_is_like_once() {
    let mut t = task(1);
    let mut once = state();
    apply_stop(true, dt(500), &mut t, &mut once);
    let mut twice = state();
    let mut t2 = task(1);
    apply_stop(true, dt(500), &mut t2, &mut twice);
    apply_stop(true, dt(500), &mut t2, &mut twice);
    assert_eq!(summary(&once), summary(&twice));
    assert_eq!(t2.status, Status::Completed);
    assert_eq!(t2.completed.unwrap().secs(), 500);
}

#[test]
fn stop_and_id_recording_commute() {
    let mut a = state();
    let mut ta = task(1);
    apply_stop(true, dt(500), &mut ta, &mut a);
    record_task_id(&mut a, &Uuid(1), "sp1".into());
    record_task_id(&mut a, &Uuid(2), "sp2".into());

    let mut b = state();
    let mut tb = task(1);
    record_task_id(&mut b, &Uuid(2), "sp2".into());
    record_task_id(&mut b, &Uuid(1), "sp1".into());
    apply_stop(true, dt(500), &mut tb, &mut b);
    assert_eq!(summary(&a), summary(&b));
    assert_eq!(
        summary(&a),
        vec![
            (1, Status::Completed, Some(500), Some("sp1".to_string())),
            (2, Status::Pending, None, Some("sp2".to_string())),
        ]
    );
}

#[test]
fn later_id_wins() {
    let mut st = state();
    record_task_id(&mut st, &Uuid(3), "first".into());
    record_task_id(&mut st, &Uuid(3), "second".into());
    assert_eq!(summary(&st), vec![(3, Status::Pending, None, Some("second".to_string()))]);
    let mut tags = BTreeMap::new();
    record_tag_id(&mut tags, &Uuid(4), "first".into());
    record_tag_id(&mut tags, &Uuid(4), "second".into());
    assert_eq!(tags[&4].external_tools.super_productivity.as_ref().unwrap().id, "second");
}

#[test]
fn done_task_is_reported_completed() {
    let mut t = task(1);
    let mut st = state();
    apply_stop(true, dt(1704164645 + 3600), &mut t, &mut st);
    assert_eq!(task_list_line(3, &t), "   3 x Plan");
    let mut b = ICalTodoBuilder::new();
    b.clear();
    b.add_task(3, &t);
    let text = b.finish().to_string();
    assert!(text.contains(
        "COMPLETED:20240102T040405Z\r\nPERCENT-COMPLETE:100\r\nSTATUS:COMPLETED\r\n"
    ));
}

#[test]
fn taskwarrior_and_ical_times_agree() {
    for secs in [0i64, 1704164645, -62193380033, 253402300799] {
        let mut buf = Vec::new();
        task_util::ext_tools::ical::ToICal::write_ical(&dt(secs).to_utc(), &mut buf);
        let ical: String = buf.into_iter().collect();
        assert_eq!(tw_datetime(&dt(secs).to_utc()), ical);
    }
}
