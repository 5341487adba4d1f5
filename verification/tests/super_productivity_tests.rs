use std::collections::BTreeMap;

use task_util::ext_tools::super_productivity::{
    finish_task_request, get_task_id, plan_add_project, plan_add_tag, plan_add_task, record_project_id,
    record_tag_id, record_task_id, start_task_uri, stop_task_uri, ApiError, ApiFailure, ApiResult,
    IpcReq, IpcResult, SpError, SpProject, SpTag, SpTask, SpTimestamp,
};
use task_util::types::datetime::DateTime;
use task_util::types::id::Uuid;
use task_util::types::project::{self, ProjectDefState, ProjectInfo, ProjectRef, ProjectState};
use task_util::types::tag::{self, TagInfo, TagRef, TagState};
use task_util::types::task::{self, Status, Task, TaskState};

fn dt(secs: i64, nanos: u32) -> DateTime {
    DateTime::from_parts(secs, nanos, 0).unwrap()
}

fn project(sp: Option<&str>) -> ProjectInfo {
    ProjectInfo {
        id: Uuid(9),
        name: "Tasks".into(),
        root: "util".into(),
        description: None,
        created: dt(1000, 5_000_000),
        color: "red".into(),
        data: serde_json::Value::Null,
        external_tools: project::ExternalTools {
            super_productivity: sp.map(|s| project::SuperProductivity { id: Some(s.into()) }),
        },
    }
}

fn tag_ref(id: u128, name: &str, sp: Option<&str>) -> TagRef {
    TagRef {
        id: Uuid(id),
        name: name.into(),
        external_tools: tag::ExternalTools {
            super_productivity: Some(tag::SuperProductivity { id: sp.map(str::to_string) }),
        },
    }
}

fn tag_info(sp: Option<&str>) -> TagInfo {
    TagInfo {
        id: Uuid(5),
        name: "home".into(),
        created: dt(2, 0),
        color: "blue".into(),
        data: serde_json::Value::Null,
        external_tools: tag::ExternalTools {
            super_productivity: sp.map(|s| tag::SuperProductivity { id: Some(s.into()) }),
        },
    }
}

fn task(tags: Vec<TagRef>, sp: Option<&str>, completed: Option<DateTime>) -> Task {
    Task {
        id: Uuid(7),
        name: "Write".into(),
        status: if completed.is_some() { Status::Completed } else { Status::Pending },
        description: Some("notes".into()),
        created: dt(3, 999_999_999),
        completed,
        project: ProjectRef { id: Uuid(9), root: "util".into(), name: "Tasks".into() },
        tags,
        data: serde_json::Value::Null,
        external_tools: task::ExternalTools {
            timewarrior: None,
            super_productivity: sp.map(|s| task::SuperProductivity { id: Some(s.into()) }),
        },
    }
}

fn empty_state() -> ProjectDefState {
    ProjectDefState {
        project: ProjectState { external_tools: project::ExternalState { super_productivity: None } },
        tasks: BTreeMap::new(),
    }
}

#[test]
fn api_results() {
    let ok: ApiResult<u32> = ApiResult { ok: true, data: Some(3), error: None };
    assert!(matches!(ok.into_result(), Ok(3)));
    let err: ApiResult<u32> = ApiResult {
        ok: false,
        data: None,
        error: Some(ApiError { code: "E1".into(), message: "bad".into() }),
    };
    match err.into_result() {
        Err(ApiFailure::Api(e)) => assert_eq!(e.to_text(), "api error: E1: bad"),
        _ => panic!("expected an api error"),
    }
    let invalid: ApiResult<u32> = ApiResult { ok: true, data: None, error: None };
    assert!(matches!(invalid.into_result(), Err(ApiFailure::Invalid(ApiResult { ok: true, data: None, error: None }))));
    let invalid2: ApiResult<u32> = ApiResult {
        ok: false,
        data: Some(1),
        error: Some(ApiError { code: "c".into(), message: "m".into() }),
    };
    assert!(matches!(invalid2.into_result(), Err(ApiFailure::Invalid(_))));
}

#[test]
fn ipc_results() {
    assert_eq!(IpcResult::Success(4u8).into_result(), Ok(4));
    assert_eq!(IpcResult::<u8>::Failure("no".into()).into_result(), Err("no".to_string()));
}

#[test]
fn sp_millisecond_timestamps() {
    assert_eq!(SpTimestamp::from_datetime(&dt(3, 999_999_999)), SpTimestamp(3999));
    assert_eq!(SpProject::from_project(&project(None)).created, SpTimestamp(1_000_005));
    let t = SpTag::from_tag(&tag_info(None));
    assert_eq!((t.title.as_str(), t.color.as_str(), t.created), ("home", "blue", SpTimestamp(2000)));
}

#[test]
fn task_conversion() {
    let t = task(vec![tag_ref(1, "a", Some("ta")), tag_ref(2, "b", Some("tb"))], None, Some(dt(10, 0)));
    let s = SpTask::from_task(&project(Some("p1")), &t).unwrap();
    assert_eq!(s.title, "Write");
    assert_eq!(s.notes.as_deref(), Some("notes"));
    assert!(s.is_done);
    assert_eq!(s.project_id, "p1");
    assert_eq!(s.tag_ids, vec!["ta".to_string(), "tb".to_string()]);
    assert_eq!(s.created, SpTimestamp(3999));
    assert_eq!(s.done_on, Some(SpTimestamp(10000)));
}

#[test]
fn task_conversion_errors() {
    let t = task(vec![tag_ref(1, "a", Some("ta"))], None, None);
    assert!(matches!(SpTask::from_task(&project(None), &t), Err(SpError::ProjectNotAdded)));
    let t2 = task(vec![tag_ref(1, "a", Some("ta")), tag_ref(2, "b", None), tag_ref(3, "c", None)], None, None);
    match SpTask::from_task(&project(Some("p")), &t2) {
        Err(SpError::TagNotAdded { name, id }) => {
            assert_eq!(name, "b");
            assert_eq!(id, Uuid(2));
        }
        _ => panic!("expected a missing tag"),
    }
}

#[test]
fn task_ids() {
    assert_eq!(get_task_id(&task(vec![], Some("x1"), None)).unwrap(), "x1");
    assert!(matches!(get_task_id(&task(vec![], None, None)), Err(SpError::TaskNotAdded)));
    assert_eq!(start_task_uri(&task(vec![], Some("x1"), None)).unwrap(), "/tasks/x1/start");
    assert!(matches!(start_task_uri(&task(vec![], None, None)), Err(SpError::TaskNotAdded)));
    assert_eq!(stop_task_uri(), "/task-control/stop");
    match finish_task_request(&task(vec![], Some("x1"), None), &dt(5, 2_000_000)) {
        Ok(IpcReq::FinishTask { id, completed_time }) => {
            assert_eq!(id, "x1");
            assert_eq!(completed_time, SpTimestamp(5002));
        }
        _ => panic!("expected a finish request"),
    }
    assert!(matches!(finish_task_request(&task(vec![], None, None), &dt(5, 0)), Err(SpError::TaskNotAdded)));
}

#[test]
fn tag_plans() {
    assert!(matches!(plan_add_tag(false, &tag_info(None)), Some(IpcReq::AddTag(_))));
    assert!(matches!(plan_add_tag(true, &tag_info(None)), Some(IpcReq::AddTag(_))));
    assert!(plan_add_tag(false, &tag_info(Some("t"))).is_none());
    match plan_add_tag(true, &tag_info(Some("t"))) {
        Some(IpcReq::UpdateTag { id, updates }) => {
            assert_eq!(id, "t");
            assert_eq!(updates.title, "home");
        }
        _ => panic!("expected an update"),
    }
}

#[test]
fn project_plans() {
    assert!(matches!(plan_add_project(false, &project(None)), Some(IpcReq::AddProject(_))));
    assert!(plan_add_project(false, &project(Some("p"))).is_none());
    assert!(matches!(plan_add_project(true, &project(Some("p"))), Some(IpcReq::UpdateProject { .. })));
}

#[test]
fn task_plans() {
    let p = project(Some("p"));
    assert!(matches!(plan_add_task(false, &p, &task(vec![], None, None)), Ok(Some(IpcReq::AddTask(_)))));
    assert!(matches!(plan_add_task(false, &p, &task(vec![], Some("t"), None)), Ok(None)));
    assert!(matches!(plan_add_task(true, &p, &task(vec![], Some("t"), None)), Ok(Some(IpcReq::UpdateTask { .. }))));
    assert!(matches!(plan_add_task(true, &project(None), &task(vec![], Some("t"), None)), Err(SpError::ProjectNotAdded)));
    assert!(matches!(
        plan_add_task(false, &p, &task(vec![tag_ref(1, "a", None)], Some("t"), None)),
        Err(SpError::TagNotAdded { .. })
    ));
}

#[test]
fn recorded_ids() {
    let mut tags: BTreeMap<u128, TagState> = BTreeMap::new();
    record_tag_id(&mut tags, &Uuid(5), "t5".into());
    record_tag_id(&mut tags, &Uuid(6), "t6".into());
    record_tag_id(&mut tags, &Uuid(5), "t5b".into());
    assert_eq!(tags.len(), 2);
    assert_eq!(tags[&5].external_tools.super_productivity.as_ref().unwrap().id, "t5b");
    assert_eq!(tags[&6].external_tools.super_productivity.as_ref().unwrap().id, "t6");

    let mut state = empty_state();
    record_project_id(&mut state, "p9".into());
    assert_eq!(state.project.external_tools.super_productivity.as_ref().unwrap().id, "p9");

    state.tasks.insert(
        7,
        TaskState {
            status: Status::Completed,
            completed: Some(dt(8, 0)),
            external_tools: task::ExternalState { super_productivity: None },
        },
    );
    record_task_id(&mut state, &Uuid(7), "x7".into());
    record_task_id(&mut state, &Uuid(8), "x8".into());
    assert_eq!(state.tasks.len(), 2);
    assert_eq!(state.tasks[&7].status, Status::Completed);
    assert_eq!(state.tasks[&7].completed.unwrap().secs(), 8);
    assert_eq!(state.tasks[&7].external_tools.super_productivity.as_ref().unwrap().id, "x7");
    assert_eq!(state.tasks[&8].status, Status::Pending);
    assert!(state.tasks[&8].completed.is_none());
    assert_eq!(state.project.external_tools.super_productivity.as_ref().unwrap().id, "p9");
}

#[test]
fn task_plan_names_first_missing_tag() {
    let p = project(Some("p"));
    let t = task(
        vec![tag_ref(1, "a", Some("x")), tag_ref(2, "b", None), tag_ref(3, "c", None)],
        None,
        None,
    );
    match plan_add_task(false, &p, &t) {
        Err(SpError::TagNotAdded { name, id }) => {
            assert_eq!(name, "b");
            assert_eq!(id, Uuid(2));
        }
        other => panic!("unexpected plan: {other:?}"),
    }
}
