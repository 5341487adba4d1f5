use task_util::recorder::{
    recorder_nickel_args, recorder_path_from_civil, recorder_record_path, recorder_timew_entry,
    StartData, TaskData,
};
use task_util::types::datetime::{CivilTime, DateTime};
use task_util::types::id::Uuid;

fn info() -> TaskData {
    TaskData {
        task_id: Uuid(0x0123456789abcdef0123456789abcdef),
        task_name: "docs".into(),
        description: "write docs".into(),
        categories: vec!["work".into()],
        tags: vec!["a".into(), "b".into()],
        timew_tags: vec!["t".into()],
        value: serde_json::Value::Null,
    }
}

#[test]
fn recorder_interval() {
    let start = StartData { id: Uuid(0xff), start_time: DateTime::from_parts(1704164645, 0, 3600).unwrap() };
    let stop = DateTime::from_parts(1704168245, 0, -7200).unwrap();
    let e = recorder_timew_entry(&start, &stop, &info());
    assert_eq!(e.id, 0);
    assert_eq!(e.start, "2024-01-02T03:04:05Z");
    assert_eq!(e.end, "2024-01-02T04:04:05Z");
    assert_eq!(e.annotation, "00000000-0000-0000-0000-0000000000ff");
    assert_eq!(
        e.tags,
        vec![
            "write docs",
            "task:docs",
            "task_id:01234567-89ab-cdef-0123-456789abcdef",
            "work",
            "a",
            "b",
            "t",
        ]
    );
}

#[test]
fn recorder_rfc3339_edges() {
    let start = StartData { id: Uuid(1), start_time: DateTime::from_parts(1483228799, 1_500_000_000, 0).unwrap() };
    let far = DateTime::from_parts(327403382400, 0, 0).unwrap();
    let e = recorder_timew_entry(&start, &far, &info());
    // a leap second is written as second 60
    assert_eq!(e.start, "2016-12-31T23:59:60Z");
    assert_eq!(e.end, "+12345-01-01T00:00:00Z");
    let past = StartData { id: Uuid(1), start_time: DateTime::from_parts(-62193380033, 0, 0).unwrap() };
    let e2 = recorder_timew_entry(&past, &far, &info());
    assert_eq!(e2.start, "-0001-03-04T05:06:07Z");
}

#[test]
fn recorder_log_paths() {
    let start = StartData { id: Uuid(0xff), start_time: DateTime::from_parts(1719790200, 0, 7200).unwrap() };
    assert_eq!(recorder_record_path(&start), "2024/2024-07/01/00000000-0000-0000-0000-0000000000ff.json");
    let past = StartData { id: Uuid(1), start_time: DateTime::from_parts(-62193380033, 0, 0).unwrap() };
    assert_eq!(recorder_record_path(&past), "-1/-1-03/04/00000000-0000-0000-0000-000000000001.json");
}

#[test]
fn recorder_nickel_command_line() {
    let params = vec!["a=1".to_string(), "b".to_string()];
    assert_eq!(
        recorder_nickel_args("task.ncl", &params),
        vec!["export", "-f", "json", "task.ncl", "--", "a=1", "b"]
    );
    assert_eq!(recorder_nickel_args("t", &[]), vec!["export", "-f", "json", "t", "--"]);
}

#[test]
fn recorder_path_keeps_signed_year() {
    let id = Uuid(0xff);
    let c = CivilTime { year: -5, month: 1, day: 2, hour: 0, minute: 0, second: 0 };
    assert_eq!(
        recorder_path_from_civil(&c, &id),
        "-5/-5-01/02/00000000-0000-0000-0000-0000000000ff.json"
    );
}
