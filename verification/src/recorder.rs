//! The stand-alone time recorder: the Timewarrior interval and the log path
//! of a recorded span of work on a task described by a definition file.
use vstd::prelude::*;

use crate::text::{
    chars_to_string, extend_strings, padded, push_padded, push_signed_decimal, push_str,
    signed_decimal, texts,
};
use crate::types::datetime::{local_date, rfc3339_utc_text, CivilTime, DateTime};
use crate::types::id::{uuid_text, Uuid};

verus! {

/// What a task definition tells about the work being recorded.
#[derive(Debug)]
pub struct TaskData {
    pub task_id: Uuid,
    pub task_name: String,
    pub description: String,
    pub categories: Vec<String>,
    /// task specific tags
    pub tags: Vec<String>,
    pub timew_tags: Vec<String>,
    pub value: serde_json::Value,
}

/// The running span of work, as kept in the started-task file.
#[derive(Debug)]
pub struct StartData {
    pub id: Uuid,
    pub start_time: DateTime,
}

/// One interval as handed to Timewarrior.
#[derive(Debug)]
pub struct RecorderTimewData {
    pub id: u8,
    pub start: String,
    pub end: String,
    pub tags: Vec<String>,
    pub annotation: String,
}

/// Arguments of the `nickel` command that evaluates the task definition
/// `task`: `export -f json <task> --`, then `params`.
pub fn recorder_nickel_args(task: &str, params: &[String]) -> (r: Vec<String>)
    ensures
        texts(r@) == seq!["export"@, "-f"@, "json"@, task@, "--"@] + texts(params@),
{
    let mut out: Vec<String> = Vec::new();
    out.push("export".to_owned());
    out.push("-f".to_owned());
    out.push("json".to_owned());
    out.push(task.to_owned());
    out.push("--".to_owned());
    proof {
        assert(texts(out@) =~~= seq!["export"@, "-f"@, "json"@, task@, "--"@]);
    }
    extend_strings(&mut out, params);
    out
}

/// Tags of a recorded interval: the description, `task:<name>`,
/// `task_id:<id>`, then the categories, the task tags and the extra
/// Timewarrior tags.
pub open spec fn recorder_tags(info: TaskData) -> Seq<Seq<char>> {
    seq![info.description@, "task:"@ + info.task_name@, "task_id:"@ + uuid_text(info.task_id.0)]
        + texts(info.categories@) + texts(info.tags@) + texts(info.timew_tags@)
}

/// The tags of a recorded interval are the three fixed tags, then every
/// category, every task tag and every extra Timewarrior tag, each list whole
/// and in order.
pub proof fn law_recorder_tags_layout(info: TaskData)
    ensures
        ({
            let tags = recorder_tags(info);
            let c = info.categories@.len();
            let t = info.tags@.len();
            let w = info.timew_tags@.len();
            &&& tags.len() == 3 + c + t + w
            &&& tags[0] == info.description@
            &&& tags[1] == "task:"@ + info.task_name@
            &&& tags[2] == "task_id:"@ + uuid_text(info.task_id.0)
            &&& forall|i: int| 0 <= i < c ==> tags[3 + i] == (#[trigger] info.categories@[i])@
            &&& forall|i: int| 0 <= i < t ==> tags[3 + c + i] == (#[trigger] info.tags@[i])@
            &&& forall|i: int| 0 <= i < w ==> tags[3 + c + t + i] == (#[trigger] info.timew_tags@[i])@
        }),
{
    let tags = recorder_tags(info);
    let c = info.categories@.len();
    let t = info.tags@.len();
    assert forall|i: int| 0 <= i < c implies tags[3 + i] == (#[trigger] info.categories@[i])@ by {
        assert(texts(info.categories@)[i] == info.categories@[i]@);
    }
    assert forall|i: int| 0 <= i < t implies tags[3 + c + i] == (#[trigger] info.tags@[i])@ by {
        assert(texts(info.tags@)[i] == info.tags@[i]@);
    }
    assert forall|i: int| 0 <= i < info.timew_tags@.len() implies tags[3 + c + t + i] == (
    #[trigger] info.timew_tags@[i])@ by {
        assert(texts(info.timew_tags@)[i] == info.timew_tags@[i]@);
    }
}

/// The Timewarrior interval of a span of work from `start` to `stop_time`.
pub fn recorder_timew_entry(start: &StartData, stop_time: &DateTime, info: &TaskData) -> (r:
    RecorderTimewData)
    ensures
        r.id == 0,
        r.start@ == rfc3339_utc_text(start.start_time.spec_secs(), start.start_time.spec_nanos()),
        r.end@ == rfc3339_utc_text(stop_time.spec_secs(), stop_time.spec_nanos()),
        texts(r.tags@) == recorder_tags(*info),
        r.annotation@ == uuid_text(start.id.0),
{
    let mut tags: Vec<String> = Vec::new();
    tags.push(info.description.clone());
    let mut name_buf: Vec<char> = Vec::new();
    push_str(&mut name_buf, "task:");
    push_str(&mut name_buf, info.task_name.as_str());
    tags.push(chars_to_string(&name_buf));
    let id_text = info.task_id.to_text();
    let mut id_buf: Vec<char> = Vec::new();
    push_str(&mut id_buf, "task_id:");
    push_str(&mut id_buf, id_text.as_str());
    tags.push(chars_to_string(&id_buf));
    proof {
        assert(texts(tags@) =~~= seq![
            info.description@,
            "task:"@ + info.task_name@,
            "task_id:"@ + uuid_text(info.task_id.0),
        ]);
    }
    extend_strings(&mut tags, info.categories.as_slice());
    extend_strings(&mut tags, info.tags.as_slice());
    extend_strings(&mut tags, info.timew_tags.as_slice());
    proof {
        assert(texts(tags@) =~~= recorder_tags(*info));
    }
    RecorderTimewData {
        id: 0,
        start: start.start_time.to_utc().to_rfc3339_secs_z(),
        end: stop_time.to_utc().to_rfc3339_secs_z(),
        tags,
        annotation: start.id.to_text(),
    }
}

/// Path of a recorded span in the log, from the calendar date its start time
/// falls on and its id: `<year>/<year>-<MM>/<DD>/<id>.json`, the year signed.
pub open spec fn recorder_path_of_date(y: int, m: int, d: int, id: Uuid) -> Seq<char> {
    signed_decimal(y) + seq!['/'] + signed_decimal(y) + seq!['-'] + padded(m as nat, 2) + seq!['/']
        + padded(d as nat, 2) + seq!['/'] + uuid_text(id.0) + ".json"@
}

/// Path of a recorded span in the log, from its start time (in the offset it
/// was recorded at) and id.
pub open spec fn recorder_record_path_spec(start: StartData) -> Seq<char> {
    let (y, m, d) = local_date(start.start_time.spec_secs(), start.start_time.spec_offset());
    recorder_path_of_date(y, m, d, start.id)
}

/// Path of a recorded span in the log, from the calendar fields of its start
/// time and its id.
pub fn recorder_path_from_civil(c: &CivilTime, id: &Uuid) -> (r: String)
    ensures
        r@ == recorder_path_of_date(c.year as int, c.month as int, c.day as int, *id),
{
    let y: i64 = c.year as i64;
    let mut buf: Vec<char> = Vec::new();
    push_signed_decimal(&mut buf, y);
    buf.push('/');
    push_signed_decimal(&mut buf, y);
    buf.push('-');
    push_padded(&mut buf, c.month as u64, 2);
    buf.push('/');
    push_padded(&mut buf, c.day as u64, 2);
    buf.push('/');
    let id_text = id.to_text();
    push_str(&mut buf, id_text.as_str());
    push_str(&mut buf, ".json");
    proof {
        assert(buf@ =~= recorder_path_of_date(c.year as int, c.month as int, c.day as int, *id));
    }
    chars_to_string(&buf)
}

/// Path of a recorded span in the log.
pub fn recorder_record_path(start: &StartData) -> (r: String)
    ensures
        r@ == recorder_record_path_spec(*start),
{
    let c = start.start_time.local_civil();
    recorder_path_from_civil(&c, &start.id)
}

} // verus!
