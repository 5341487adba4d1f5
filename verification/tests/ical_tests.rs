use task_util::ext_tools::ical::{push_ical_civil, ICalTodoBuilder, ToICal};
use task_util::types::datetime::{CivilTime, DateTime};
use task_util::types::id::Uuid;
use task_util::types::project::ProjectRef;
use task_util::types::tag::{ExternalTools as TagTools, TagRef};
use task_util::types::task::{ExternalTools, Status, Task};

const HEADER: &str = "BEGIN:VCALENDAR\nVERSION:2.0\nPRODID:-//task-util (https://github.com/Forist2034/task-util)\nBEGIN:VTODO\n";
const FOOTER: &str = "END:VTODO\nEND:VCALENDAR\n";

fn dt(secs: i64) -> DateTime {
    DateTime::from_parts(secs, 0, 0).unwrap()
}

fn tag(id: u128, name: &str) -> TagRef {
    TagRef { id: Uuid(id), name: name.to_string(), external_tools: TagTools { super_productivity: None } }
}

fn task(tags: Vec<TagRef>, description: Option<&str>, completed: Option<DateTime>, status: Status) -> Task {
    Task {
        id: Uuid(0x0123456789abcdef0123456789abcdef),
        name: "Write, test; ship".to_string(),
        status,
        description: description.map(str::to_string),
        created: dt(1704164645),
        completed,
        project: ProjectRef { id: Uuid(1), root: "util".to_string(), name: "task".to_string() },
        tags,
        data: serde_json::Value::Null,
        external_tools: ExternalTools { timewarrior: None, super_productivity: None },
    }
}

fn written<T: ToICal>(v: T) -> String {
    let mut buf = Vec::new();
    v.write_ical(&mut buf);
    buf.into_iter().collect()
}

fn unescape(s: &str) -> String {
    let mut out = String::new();
    let mut it = s.chars();
    while let Some(c) = it.next() {
        if c == '\\' {
            match it.next() {
                Some('n') => out.push('\n'),
                Some(d) => out.push(d),
                None => out.push('\\'),
            }
        } else {
            out.push(c);
        }
    }
    out
}

fn unfold(s: &str) -> String {
    s.replace("\r\n ", "")
}

#[test]
fn empty_builder_is_empty() {
    let mut b = ICalTodoBuilder::new();
    b.clear();
    assert_eq!(b.finish(), format!("{HEADER}{FOOTER}"));
}

#[test]
fn clear_drops_earlier_text() {
    let mut b = ICalTodoBuilder::new();
    b.add_simple_prop("X", 1u8);
    b.clear();
    b.add_simple_prop("Y", 2u8);
    assert_eq!(b.finish(), format!("{HEADER}Y:2\r\n{FOOTER}"));
}

#[test]
fn text_values_are_escaped() {
    assert_eq!(written("a\\b;c,d\ne"), "a\\\\b\\;c\\,d\\ne");
    assert_eq!(written("plain text"), "plain text");
    assert_eq!(written(""), "");
}

#[test]
fn escaped_text_unescapes_to_itself() {
    for s in ["a\\b;c,d\ne", "\\n", ";;,,\n\n", "naïve – ok", ""] {
        let e = written(s);
        assert!(!e.contains('\n'));
        assert_eq!(unescape(&e), s);
    }
}

#[test]
fn integers_and_booleans() {
    assert_eq!(written(0u8), "0");
    assert_eq!(written(255u8), "255");
    assert_eq!(written(65535u16), "65535");
    assert_eq!(written(4294967295u32), "4294967295");
    assert_eq!(written(u64::MAX), "18446744073709551615");
    assert_eq!(written(1200usize), "1200");
    assert_eq!(written(true), "true");
    assert_eq!(written(false), "false");
}

#[test]
fn utc_times_and_ids() {
    assert_eq!(written(dt(1704164645).to_utc()), "20240102T030405Z");
    assert_eq!(written(dt(0).to_utc()), "19700101T000000Z");
    assert_eq!(written(dt(-1).to_utc()), "19691231T235959Z");
    // year -1 is written as 2 (before the common era)
    assert_eq!(written(dt(-62193380033).to_utc()), "00020304T050607Z");
    assert_eq!(written(dt(327403382400).to_utc()), "123450101T000000Z");
    assert_eq!(
        written(Uuid(0x0123456789abcdef0123456789abcdef)),
        "01234567-89ab-cdef-0123-456789abcdef"
    );
}

#[test]
fn utc_of_an_offset_time() {
    // 2024-06-30T23:30:00Z seen at +02:00 is already July 1st locally
    let d = DateTime::from_parts(1719790200, 0, 7200).unwrap();
    assert_eq!(written(d.to_utc()), "20240630T233000Z");
}

#[test]
fn short_line_is_not_folded() {
    let mut b = ICalTodoBuilder::new();
    b.add_simple_prop("SUMMARY", "hello");
    b.clear();
    let mut b2 = ICalTodoBuilder::new();
    b2.add_simple_prop("SUMMARY", "hello");
    let text = {
        let mut b3 = ICalTodoBuilder::new();
        b3.clear();
        b3.add_simple_prop("SUMMARY", "hello");
        b3.finish().to_string()
    };
    assert_eq!(text, format!("{HEADER}SUMMARY:hello\r\n{FOOTER}"));
}

#[test]
fn long_line_is_folded_at_75_bytes() {
    let value: String = std::iter::repeat('a').take(200).collect();
    let mut b = ICalTodoBuilder::new();
    b.clear();
    b.add_simple_prop("SUMMARY", value.as_str());
    let text = b.finish().to_string();
    let body = &text[HEADER.len()..text.len() - FOOTER.len()];
    let line = format!("SUMMARY:{value}");
    let expected = format!("{}\r\n {}\r\n {}\r\n", &line[..75], &line[75..150], &line[150..]);
    assert_eq!(body, expected);
    assert_eq!(unfold(body), format!("{line}\r\n"));
}

#[test]
fn folding_keeps_characters_whole() {
    // 'é' takes two bytes: 8 bytes of "SUMMARY:" leave room for 33 of them
    let value: String = std::iter::repeat('é').take(50).collect();
    let mut b = ICalTodoBuilder::new();
    b.clear();
    b.add_simple_prop("SUMMARY", value.as_str());
    let text = b.finish().to_string();
    let body = &text[HEADER.len()..text.len() - FOOTER.len()];
    let pieces: Vec<&str> = body.trim_end_matches("\r\n").split("\r\n ").collect();
    assert_eq!(pieces.len(), 2);
    assert_eq!(pieces[0].len(), 8 + 33 * 2);
    assert_eq!(pieces[1].chars().count(), 17);
    for p in &pieces {
        assert!(p.len() <= 75);
    }
    assert_eq!(unfold(body), format!("SUMMARY:{value}\r\n"));
}

#[test]
fn exactly_75_bytes_stay_on_one_line() {
    let value: String = std::iter::repeat('b').take(75 - 8).collect();
    let mut b = ICalTodoBuilder::new();
    b.clear();
    b.add_simple_prop("SUMMARY", value.as_str());
    let text = b.finish().to_string();
    assert_eq!(text, format!("{HEADER}SUMMARY:{value}\r\n{FOOTER}"));
}

#[test]
fn pending_task_without_tags() {
    let t = task(vec![], None, None, Status::Pending);
    let mut b = ICalTodoBuilder::new();
    b.clear();
    b.add_task(0, &t);
    let expected = format!(
        "{HEADER}DESCRIPTION:\r\nDTSTAMP:20240102T030405Z\r\nPRIORITY:0\r\nSTATUS:NEEDS-ACTION\r\nSUMMARY:Write\\, test\\; ship\r\nUID:01234567-89ab-cdef-0123-456789abcdef\r\nX-APPLE-SORT-ORDER:100\r\n{FOOTER}"
    );
    assert_eq!(b.finish(), expected);
}

#[test]
fn completed_task_with_tags() {
    let t = task(
        vec![tag(1, "home"), tag(2, "a,b"), tag(3, "c;d")],
        Some("line one\nline two"),
        Some(dt(1704164645 + 86400)),
        Status::Completed,
    );
    let mut b = ICalTodoBuilder::new();
    b.clear();
    b.add_task(4, &t);
    let expected = format!(
        "{HEADER}CATEGORIES:home,a\\,b,c\\;d\r\nDESCRIPTION:line one\\nline two\r\nDTSTAMP:20240102T030405Z\r\nPRIORITY:0\r\nCOMPLETED:20240103T030405Z\r\nPERCENT-COMPLETE:100\r\nSTATUS:COMPLETED\r\nSUMMARY:Write\\, test\\; ship\r\nUID:01234567-89ab-cdef-0123-456789abcdef\r\nX-APPLE-SORT-ORDER:500\r\n{FOOTER}"
    );
    assert_eq!(b.finish(), expected);
}

#[test]
fn single_tag_category() {
    let t = task(vec![tag(1, "solo")], Some(""), None, Status::Pending);
    let mut b = ICalTodoBuilder::new();
    b.add_task(1, &t);
    let mut b2 = ICalTodoBuilder::new();
    b2.clear();
    b2.add_task(1, &t);
    let text = b2.finish().to_string();
    assert!(text.starts_with(&format!("{HEADER}CATEGORIES:solo\r\nDESCRIPTION:\r\n")));
    assert!(text.contains("X-APPLE-SORT-ORDER:200\r\n"));
}

#[test]
fn ical_text_of_calendar_fields() {
    let mut buf = Vec::new();
    let c = CivilTime { year: 2024, month: 1, day: 2, hour: 3, minute: 4, second: 5 };
    push_ical_civil(&mut buf, &c);
    assert_eq!(buf.iter().collect::<String>(), "20240102T030405Z");
    let mut bce = Vec::new();
    let c0 = CivilTime { year: 0, month: 12, day: 31, hour: 23, minute: 59, second: 59 };
    push_ical_civil(&mut bce, &c0);
    assert_eq!(bce.iter().collect::<String>(), "00011231T235959Z");
}

#[test]
fn folding_round_trips_carriage_returns() {
    // the 75th byte of the line is a CR, so the first piece ends with it
    let value = format!("{}\r{}", "a".repeat(66), "b".repeat(100));
    let mut b = ICalTodoBuilder::new();
    b.clear();
    b.add_simple_prop("SUMMARY", value.as_str());
    let text = b.finish().to_string();
    let body = &text[HEADER.len()..text.len() - FOOTER.len()];
    let line = format!("SUMMARY:{value}");
    assert_eq!(&body[..78], format!("{}\r\n ", &line[..75]));
    assert_eq!(unfold(body), format!("{line}\r\n"));
}
