//! Time records in the form the Timewarrior `timew import` command reads.
use vstd::prelude::*;

use super::taskwarrior::{tw_datetime, tw_datetime_text};
use crate::text::{chars_to_string, extend_strings, push_str, texts};
use crate::types::id::{uuid_text, Uuid};
use crate::types::project::ProjectInfo;
use crate::types::tag::TagRef;
use crate::types::task::Task;
use crate::types::time::TimeRecord;

verus! {

/// One interval as handed to Timewarrior.
#[derive(Debug)]
pub struct TimewData {
    pub id: u8,
    pub start: String,
    pub end: String,
    pub tags: Vec<String>,
    pub annotation: Uuid,
}

/// Names of a list of tags.
pub open spec fn tag_names(tags: Seq<TagRef>) -> Seq<Seq<char>> {
    tags.map_values(|t: TagRef| t.name@)
}

/// Extra Timewarrior tags of an optional setting.
pub open spec fn extra_tags_of_task(t: Task) -> Seq<Seq<char>> {
    match t.external_tools.timewarrior {
        Some(tw) => texts(tw.extra_tags@),
        None => Seq::empty(),
    }
}

/// The Timewarrior tags of a time record: the task name, `task_id:<id>`,
/// `project:<root>.<name>`, the task's tag names, the task's extra tags and
/// the record's extra tags.
pub open spec fn timew_tags(p: ProjectInfo, r: TimeRecord<&ProjectInfo, &Task>) -> Seq<Seq<char>> {
    seq![
        r.task.name@,
        "task_id:"@ + uuid_text(r.task.id.0),
        "project:"@ + p.root@ + seq!['.'] + p.name@,
    ] + tag_names(r.task.tags@) + extra_tags_of_task(*r.task) + (match r.external_tools.timewarrior {
        Some(tw) => texts(tw.extra_tags@),
        None => Seq::empty(),
    })
}

/// The Timewarrior tags of a record are the task name, its id tag and its
/// project tag, then the name of every tag of the task in order, then the
/// task's and the record's extra tags in order.
pub proof fn law_timew_tags_layout(p: ProjectInfo, r: TimeRecord<&ProjectInfo, &Task>)
    ensures
        ({
            let tags = timew_tags(p, r);
            let n = r.task.tags@.len();
            let te = extra_tags_of_task(*r.task);
            let re = match r.external_tools.timewarrior {
                Some(tw) => texts(tw.extra_tags@),
                None => Seq::empty(),
            };
            &&& tags.len() == 3 + n + te.len() + re.len()
            &&& tags[0] == r.task.name@
            &&& tags[1] == "task_id:"@ + uuid_text(r.task.id.0)
            &&& tags[2] == "project:"@ + p.root@ + seq!['.'] + p.name@
            &&& forall|i: int| 0 <= i < n ==> tags[3 + i] == (#[trigger] r.task.tags@[i]).name@
            &&& forall|i: int| 0 <= i < te.len() ==> tags[3 + n + i] == #[trigger] te[i]
            &&& forall|i: int| 0 <= i < re.len() ==> tags[3 + n + te.len() + i] == #[trigger] re[i]
        }),
{
    let tags = timew_tags(p, r);
    let n = r.task.tags@.len();
    assert forall|i: int| 0 <= i < n implies tags[3 + i] == (#[trigger] r.task.tags@[i]).name@ by {
        assert(tag_names(r.task.tags@)[i] == r.task.tags@[i].name@);
    }
}

/// The Timewarrior interval of time record `t` of a task of project `project`.
pub fn timew_entry(project: &ProjectInfo, t: &TimeRecord<&ProjectInfo, &Task>) -> (r: TimewData)
    ensures
        r.id == 0,
        r.start@ == tw_datetime_text(t.start_time.spec_secs()),
        r.end@ == tw_datetime_text(t.end_time.spec_secs()),
        texts(r.tags@) == timew_tags(*project, *t),
        r.annotation == t.id,
{
    let task: &Task = t.task;
    let mut tags: Vec<String> = Vec::new();
    tags.push(task.name.clone());
    let id_text = task.id.to_text();
    let mut id_buf: Vec<char> = Vec::new();
    push_str(&mut id_buf, "task_id:");
    push_str(&mut id_buf, id_text.as_str());
    tags.push(chars_to_string(&id_buf));
    let mut proj_buf: Vec<char> = Vec::new();
    push_str(&mut proj_buf, "project:");
    push_str(&mut proj_buf, project.root.as_str());
    proj_buf.push('.');
    push_str(&mut proj_buf, project.name.as_str());
    tags.push(chars_to_string(&proj_buf));
    proof {
        assert(texts(tags@) =~~= seq![
            task.name@,
            "task_id:"@ + uuid_text(task.id.0),
            "project:"@ + project.root@ + seq!['.'] + project.name@,
        ]);
    }
    let ghost head = texts(tags@);
    let mut i: usize = 0;
    while i < task.tags.len()
        invariant
            i <= task.tags@.len(),
            texts(tags@) =~~= head + tag_names(task.tags@.take(i as int)),
        decreases task.tags.len() - i,
    {
        let ghost before = tags@;
        tags.push(task.tags[i].name.clone());
        i = i + 1;
        proof {
            assert(texts(tags@) =~~= texts(before).push(task.tags@[i - 1].name@));
            assert(task.tags@.take(i as int) =~= task.tags@.take(i - 1).push(task.tags@[i - 1]));
            assert(tag_names(task.tags@.take(i as int)) =~~= tag_names(task.tags@.take(i - 1)).push(
                task.tags@[i - 1].name@,
            ));
        }
    }
    proof {
        assert(task.tags@.take(task.tags@.len() as int) =~= task.tags@);
    }
    let ghost mid = texts(tags@);
    match &task.external_tools.timewarrior {
        Some(tw) => extend_strings(&mut tags, tw.extra_tags.as_slice()),
        None => {},
    }
    let ghost mid2 = texts(tags@);
    proof {
        assert(mid2 =~~= mid + extra_tags_of_task(*task));
    }
    match &t.external_tools.timewarrior {
        Some(tw) => extend_strings(&mut tags, tw.extra_tags.as_slice()),
        None => {},
    }
    proof {
        assert(texts(tags@) =~~= timew_tags(*project, *t));
    }
    TimewData {
        id: 0,
        start: tw_datetime(&t.start_time.to_utc()),
        end: tw_datetime(&t.end_time.to_utc()),
        tags,
        annotation: t.id,
    }
}

} // verus!
