use task_util::ext_tools::ical::ICalTodoBuilder;
use task_util::ext_tools::radicale::{
    project_dir_path, project_props, project_props_path, task_calendar, task_file_path, Config,
};
use task_util::types::datetime::DateTime;
use task_util::types::id::Uuid;
use task_util::types::project::{ExternalTools, ProjectInfo, ProjectRef};
use task_util::types::task::{ExternalTools as TaskTools, Status, Task};

const P: u128 = 0x11111111222233334444555555555555;
const T: u128 = 0x0123456789abcdef0123456789abcdef;

fn project(description: Option<&str>) -> ProjectInfo {
    ProjectInfo {
        id: Uuid(P),
        name: "Tasks".into(),
        root: "util".into(),
        description: description.map(str::to_string),
        created: DateTime::from_parts(0, 0, 0).unwrap(),
        color: "#ff0000".into(),
        data: serde_json::Value::Null,
        external_tools: ExternalTools { super_productivity: None },
    }
}

#[test]
fn store_paths() {
    assert_eq!(project_dir_path(&Uuid(P)), "11111111-2222-3333-4444-555555555555");
    assert_eq!(project_props_path(&Uuid(P)), "11111111-2222-3333-4444-555555555555/.Radicale.props");
    assert_eq!(
        task_file_path(&Uuid(P), &Uuid(T)),
        "11111111-2222-3333-4444-555555555555/01234567-89ab-cdef-0123-456789abcdef.ics"
    );
}

#[test]
fn collection_properties() {
    let p = project_props(&project(Some("my tasks")));
    assert_eq!(p.component_set, "VTODO");
    assert_eq!(p.name, "Tasks");
    assert_eq!(p.description.as_deref(), Some("my tasks"));
    assert_eq!(p.color, "#ff0000");
    assert_eq!(p.tag, "VCALENDAR");
    assert_eq!(p.calender_enabled, "1");
    assert_eq!(project_props(&project(None)).description, None);
}

#[test]
fn config_holds_path() {
    let c = Config { path: "cal".into() };
    assert_eq!(c.path, "cal");
}

#[test]
fn calendar_file_of_a_task() {
    let task = Task {
        id: Uuid(T),
        name: "Write".into(),
        status: Status::Pending,
        description: None,
        created: DateTime::from_parts(1704164645, 0, 0).unwrap(),
        completed: None,
        project: ProjectRef { id: Uuid(P), root: "util".into(), name: "Tasks".into() },
        tags: vec![],
        data: serde_json::Value::Null,
        external_tools: TaskTools { timewarrior: None, super_productivity: None },
    };
    let mut b = ICalTodoBuilder::new();
    b.add_simple_prop("LEFTOVER", 1u8);
    let text = task_calendar(&mut b, 2, &task).to_string();
    assert_eq!(
        text,
        "BEGIN:VCALENDAR\nVERSION:2.0\nPRODID:-//task-util (https://github.com/Forist2034/task-util)\nBEGIN:VTODO\nDESCRIPTION:\r\nDTSTAMP:20240102T030405Z\r\nPRIORITY:0\r\nSTATUS:NEEDS-ACTION\r\nSUMMARY:Write\r\nUID:01234567-89ab-cdef-0123-456789abcdef\r\nX-APPLE-SORT-ORDER:300\r\nEND:VTODO\nEND:VCALENDAR\n"
    );
}
