//! Requests to the super-productivity app and the bookkeeping of the ids it
//! hands out.
use vstd::prelude::*;

use crate::text::{chars_to_string, push_str};
use crate::types::datetime::DateTime;
use crate::types::id::{uuid_text, Uuid};
use crate::types::project::{self, ProjectDefState, ProjectInfo};
use crate::types::tag::{self, TagInfo, TagState, TagsState};
use crate::types::task::{self, Status, Task, TaskState};

verus! {

broadcast use vstd::laws_cmp::group_laws_cmp;

/// An error reported by the app's REST interface.
#[derive(Debug)]
pub struct ApiError {
    pub code: String,
    pub message: String,
}

impl ApiError {
    /// Text of the error: `api error: <code>: <message>`.
    pub fn to_text(&self) -> (r: String)
        ensures
            r@ == "api error: "@ + self.code@ + ": "@ + self.message@,
    {
        let mut buf: Vec<char> = Vec::new();
        push_str(&mut buf, "api error: ");
        push_str(&mut buf, self.code.as_str());
        push_str(&mut buf, ": ");
        push_str(&mut buf, self.message.as_str());
        chars_to_string(&buf)
    }
}

/// A reply of the app's REST interface.
#[derive(Debug)]
pub struct ApiResult<T> {
    pub ok: bool,
    pub data: Option<T>,
    pub error: Option<ApiError>,
}

/// Why a REST reply carries no data.
#[derive(Debug)]
pub enum ApiFailure<T> {
    /// The app reported an error.
    Api(ApiError),
    /// The reply is neither a success with data nor a failure with an error.
    Invalid(ApiResult<T>),
}

impl<T> ApiResult<T> {
    /// The data of a successful reply: success means `ok` with data and no
    /// error; failure means not `ok`, no data and an error; anything else is
    /// an invalid reply.
    pub fn into_result(self) -> (r: Result<T, ApiFailure<T>>)
        ensures
            (self.ok && self.data is Some && self.error is None) ==> r == Ok::<T, ApiFailure<T>>(
                self.data->0,
            ),
            (!self.ok && self.data is None && self.error is Some) ==> r == Err::<T, ApiFailure<T>>(
                ApiFailure::Api(self.error->0),
            ),
            !(self.ok && self.data is Some && self.error is None) && !(!self.ok && self.data is None
                && self.error is Some) ==> r == Err::<T, ApiFailure<T>>(ApiFailure::Invalid(self)),
    {
        if self.ok && self.data.is_some() && self.error.is_none() {
            match self.data {
                Some(d) => Ok(d),
                None => Err(ApiFailure::Invalid(self)),
            }
        } else if !self.ok && self.data.is_none() && self.error.is_some() {
            match self.error {
                Some(e) => Err(ApiFailure::Api(e)),
                None => Err(ApiFailure::Invalid(self)),
            }
        } else {
            Err(ApiFailure::Invalid(self))
        }
    }
}

/// A reply of the app's file-based request interface.
#[derive(Debug)]
pub enum IpcResult<T> {
    /// Status `ok`, with the reply data.
    Success(T),
    /// Status `err`, with the error message.
    Failure(String),
}

impl<T> IpcResult<T> {
    /// The data of a successful reply, or the message of a failed one.
    pub fn into_result(self) -> (r: Result<T, String>)
        ensures
            match self {
                IpcResult::Success(v) => r == Ok::<T, String>(v),
                IpcResult::Failure(e) => r == Err::<T, String>(e),
            },
    {
        match self {
            IpcResult::Success(r) => Ok(r),
            IpcResult::Failure(e) => Err(e),
        }
    }
}

/// A point in time as the app counts it: milliseconds since the Unix epoch.
#[derive(Clone, Copy, Debug, PartialEq, Eq, Structural)]
pub struct SpTimestamp(pub i64);

impl SpTimestamp {
    pub fn from_datetime(value: &DateTime) -> (r: SpTimestamp)
        ensures
            r.0 == value.spec_secs() * 1000 + value.spec_nanos() / 1_000_000,
    {
        SpTimestamp(value.timestamp_millis())
    }
}

/// Millisecond timestamp of an instant.
pub open spec fn sp_millis(d: DateTime) -> int {
    d.spec_secs() * 1000 + d.spec_nanos() / 1_000_000
}

/// A project as the app stores it.
#[derive(Debug)]
pub struct SpProject {
    pub title: String,
    pub created: SpTimestamp,
}

/// Whether `s` is the app's form of project `p`.
pub open spec fn is_sp_project(s: SpProject, p: ProjectInfo) -> bool {
    s.title@ == p.name@ && s.created.0 == sp_millis(p.created)
}

impl SpProject {
    pub fn from_project(value: &ProjectInfo) -> (r: Self)
        ensures
            is_sp_project(r, *value),
    {
        SpProject { title: value.name.clone(), created: SpTimestamp::from_datetime(&value.created) }
    }
}

/// A tag as the app stores it.
#[derive(Debug)]
pub struct SpTag {
    pub title: String,
    pub color: String,
    pub created: SpTimestamp,
}

/// Whether `s` is the app's form of tag `t`.
pub open spec fn is_sp_tag(s: SpTag, t: TagInfo) -> bool {
    s.title@ == t.name@ && s.color@ == t.color@ && s.created.0 == sp_millis(t.created)
}

impl SpTag {
    pub fn from_tag(value: &TagInfo) -> (r: Self)
        ensures
            is_sp_tag(r, *value),
    {
        SpTag {
            title: value.name.clone(),
            color: value.color.clone(),
            created: SpTimestamp::from_datetime(&value.created),
        }
    }
}

/// A task as the app stores it.
#[derive(Debug)]
pub struct SpTask {
    pub title: String,
    pub notes: Option<String>,
    pub is_done: bool,
    pub project_id: String,
    pub tag_ids: Vec<String>,
    pub created: SpTimestamp,
    pub done_on: Option<SpTimestamp>,
}

/// Why an item cannot be sent to the app.
#[derive(Debug)]
pub enum SpError {
    /// The project has no id in the app yet.
    ProjectNotAdded,
    /// The tag with this name and id has no id in the app yet.
    TagNotAdded { name: String, id: Uuid },
    /// The task has no id in the app yet.
    TaskNotAdded,
}

/// The app's id of a project, if it has one.
pub open spec fn project_sp_id(p: ProjectInfo) -> Option<String> {
    match p.external_tools.super_productivity {
        Some(s) => s.id,
        None => None,
    }
}

/// The app's id of a tag reference, if it has one.
pub open spec fn tag_ref_sp_id(t: tag::TagRef) -> Option<String> {
    match t.external_tools.super_productivity {
        Some(s) => s.id,
        None => None,
    }
}

/// The app's id of a tag definition, if it has one.
pub open spec fn tag_sp_id(t: TagInfo) -> Option<String> {
    match t.external_tools.super_productivity {
        Some(s) => s.id,
        None => None,
    }
}

/// The app's id of a task, if it has one.
pub open spec fn task_sp_id(t: Task) -> Option<String> {
    match t.external_tools.super_productivity {
        Some(s) => s.id,
        None => None,
    }
}

/// Whether every tag of `t` has an id in the app.
pub open spec fn all_tags_added(t: Task) -> bool {
    forall|i: int| 0 <= i < t.tags@.len() ==> (#[trigger] tag_ref_sp_id(t.tags@[i])) is Some
}

/// Whether `s` is the app's form of task `t` of project `p`.
pub open spec fn is_sp_task(s: SpTask, p: ProjectInfo, t: Task) -> bool {
    &&& s.title@ == t.name@
    &&& s.notes == t.description
    &&& s.is_done == (t.status == Status::Completed)
    &&& project_sp_id(p) matches Some(pid) && s.project_id@ == pid@
    &&& s.tag_ids@.len() == t.tags@.len()
    &&& forall|i: int|
        0 <= i < t.tags@.len() ==> tag_ref_sp_id(t.tags@[i]) is Some && (#[trigger] s.tag_ids@[i])@
            == tag_ref_sp_id(t.tags@[i])->0@
    &&& s.created.0 == sp_millis(t.created)
    &&& match t.completed {
        Some(c) => s.done_on matches Some(x) && x.0 == sp_millis(c),
        None => s.done_on is None,
    }
}

/// The app's form of a task is marked done exactly when the task is
/// completed, and carries a done time exactly when the task has a completion
/// time: a pending task is sent as not done.
pub proof fn law_sp_task_done_iff_completed(s: SpTask, p: ProjectInfo, t: Task)
    requires
        is_sp_task(s, p, t),
    ensures
        s.is_done <==> t.status == Status::Completed,
        t.status == Status::Pending ==> !s.is_done,
        s.done_on is Some <==> t.completed is Some,
        s.title@ == t.name@,
        s.tag_ids@.len() == t.tags@.len(),
{
}

/// The app's form of a task refers to the project and to every tag of the
/// task by their app ids, tag by tag in order, and its times are the task's
/// creation and completion times in milliseconds.
pub proof fn law_sp_task_refers_by_app_ids(s: SpTask, p: ProjectInfo, t: Task)
    requires
        is_sp_task(s, p, t),
    ensures
        project_sp_id(p) is Some,
        s.project_id@ == project_sp_id(p)->0@,
        forall|i: int|
            0 <= i < t.tags@.len() ==> tag_ref_sp_id(#[trigger] t.tags@[i]) is Some && s.tag_ids@[i]@
                == tag_ref_sp_id(t.tags@[i])->0@,
        s.created.0 == t.created.spec_secs() * 1000 + t.created.spec_nanos() / 1_000_000,
        t.completed matches Some(c) ==> s.done_on matches Some(x) && x.0 == c.spec_secs() * 1000
            + c.spec_nanos() / 1_000_000,
{
    assert forall|i: int| 0 <= i < t.tags@.len() implies tag_ref_sp_id(#[trigger] t.tags@[i]) is Some
        && s.tag_ids@[i]@ == tag_ref_sp_id(t.tags@[i])->0@ by {
        assert(s.tag_ids@[i]@ == tag_ref_sp_id(t.tags@[i])->0@);
    }
}

fn clone_opt(s: &Option<String>) -> (r: Option<String>)
    ensures
        r == *s,
{
    match s {
        Some(v) => Some(v.clone()),
        None => None,
    }
}

impl SpTask {
    /// The app's form of task `task` of project `project`; it fails when the
    /// project, or the first of the task's tags, has no id in the app yet.
    pub fn from_task(project: &ProjectInfo, task: &Task) -> (r: Result<Self, SpError>)
        ensures
            project_sp_id(*project) is None ==> r matches Err(SpError::ProjectNotAdded),
            project_sp_id(*project) is Some && !all_tags_added(*task) ==> (r matches Err(
                SpError::TagNotAdded { name, id },
            ) && exists|i: int|
                0 <= i < task.tags@.len() && tag_ref_sp_id(#[trigger] task.tags@[i]) is None && name@
                    == task.tags@[i].name@ && id == task.tags@[i].id && forall|j: int|
                    0 <= j < i ==> (#[trigger] tag_ref_sp_id(task.tags@[j])) is Some),
            project_sp_id(*project) is Some && all_tags_added(*task) ==> (r matches Ok(s)
                && is_sp_task(s, *project, *task)),
    {
        let project_id = match &project.external_tools.super_productivity {
            Some(project::SuperProductivity { id: Some(i) }) => i.clone(),
            _ => {
                return Err(SpError::ProjectNotAdded);
            },
        };
        let mut tag_ids: Vec<String> = Vec::new();
        let mut i: usize = 0;
        while i < task.tags.len()
            invariant
                i <= task.tags@.len(),
                tag_ids@.len() == i,
                project_sp_id(*project) is Some,
                forall|j: int|
                    #![trigger tag_ids@[j]]
                    #![trigger task.tags@[j]]
                    0 <= j < i ==> tag_ref_sp_id(task.tags@[j]) is Some && tag_ids@[j]@ == tag_ref_sp_id(
                        task.tags@[j],
                    )->0@,
            decreases task.tags.len() - i,
        {
            let t = &task.tags[i];
            match &t.external_tools.super_productivity {
                Some(tag::SuperProductivity { id: Some(tid) }) => {
                    tag_ids.push(tid.clone());
                },
                _ => {
                    proof {
                        assert(tag_ref_sp_id(task.tags@[i as int]) is None);
                        assert(!all_tags_added(*task));
                        assert forall|j: int| 0 <= j < i implies (#[trigger] tag_ref_sp_id(
                            task.tags@[j],
                        )) is Some by {
                            assert(task.tags@[j] == task.tags@[j]);
                        }
                    }
                    return Err(SpError::TagNotAdded { name: t.name.clone(), id: t.id });
                },
            }
            i = i + 1;
        }
        proof {
            assert forall|j: int| 0 <= j < task.tags@.len() implies (#[trigger] tag_ref_sp_id(
                task.tags@[j],
            )) is Some by {
                assert(task.tags@[j] == task.tags@[j]);
            }
        }
        Ok(SpTask {
            title: task.name.clone(),
            notes: clone_opt(&task.description),
            is_done: match task.status {
                Status::Completed => true,
                Status::Pending => false,
            },
            project_id,
            tag_ids,
            created: SpTimestamp::from_datetime(&task.created),
            done_on: match &task.completed {
                Some(c) => Some(SpTimestamp::from_datetime(c)),
                None => None,
            },
        })
    }
}

/// A request to the app's file-based interface.
#[derive(Debug)]
#[allow(inconsistent_fields)]
pub enum IpcReq {
    AddTask(SpTask),
    UpdateTask { id: String, updates: SpTask },
    FinishTask { id: String, completed_time: SpTimestamp },
    AddProject(SpProject),
    UpdateProject { id: String, updates: SpProject },
    AddTag(SpTag),
    UpdateTag { id: String, updates: SpTag },
}

/// The app's id of a task; fails when the task has none yet.
pub fn get_task_id(task: &Task) -> (r: Result<String, SpError>)
    ensures
        match task_sp_id(*task) {
            Some(id) => r matches Ok(s) && s@ == id@,
            None => r matches Err(SpError::TaskNotAdded),
        },
{
    match &task.external_tools.super_productivity {
        Some(task::SuperProductivity { id: Some(tid) }) => Ok(tid.clone()),
        _ => Err(SpError::TaskNotAdded),
    }
}

/// The request that brings a tag into the app: an update of the app's copy
/// when the tag already has an id there and `update` is asked for, nothing
/// when it has an id and no update is asked for, otherwise an addition.
pub fn plan_add_tag(update: bool, tag: &TagInfo) -> (r: Option<IpcReq>)
    ensures
        match tag_sp_id(*tag) {
            Some(id) => if update {
                r matches Some(IpcReq::UpdateTag { id: rid, updates }) && rid@ == id@ && is_sp_tag(
                    updates,
                    *tag,
                )
            } else {
                r is None
            },
            None => r matches Some(IpcReq::AddTag(t)) && is_sp_tag(t, *tag),
        },
{
    match &tag.external_tools.super_productivity {
        Some(tag::SuperProductivity { id: Some(tid) }) => {
            if update {
                Some(IpcReq::UpdateTag { id: tid.clone(), updates: SpTag::from_tag(tag) })
            } else {
                None
            }
        },
        _ => Some(IpcReq::AddTag(SpTag::from_tag(tag))),
    }
}

/// The request that brings a project into the app, decided as for tags.
pub fn plan_add_project(update: bool, project: &ProjectInfo) -> (r: Option<IpcReq>)
    ensures
        match project_sp_id(*project) {
            Some(id) => if update {
                r matches Some(IpcReq::UpdateProject { id: rid, updates }) && rid@ == id@
                    && is_sp_project(updates, *project)
            } else {
                r is None
            },
            None => r matches Some(IpcReq::AddProject(p)) && is_sp_project(p, *project),
        },
{
    match &project.external_tools.super_productivity {
        Some(project::SuperProductivity { id: Some(pid) }) => {
            if update {
                Some(
                    IpcReq::UpdateProject { id: pid.clone(), updates: SpProject::from_project(project) },
                )
            } else {
                None
            }
        },
        _ => Some(IpcReq::AddProject(SpProject::from_project(project))),
    }
}

/// The request that brings a task into the app, decided as for tags; the
/// task is first converted, which fails as `SpTask::from_task` does.
pub fn plan_add_task(update: bool, project: &ProjectInfo, task: &Task) -> (r: Result<
    Option<IpcReq>,
    SpError,
>)
    ensures
        project_sp_id(*project) is None ==> r matches Err(SpError::ProjectNotAdded),
        project_sp_id(*project) is Some && !all_tags_added(*task) ==> (r matches Err(
            SpError::TagNotAdded { name, id },
        ) && exists|i: int|
            0 <= i < task.tags@.len() && tag_ref_sp_id(#[trigger] task.tags@[i]) is None && name@
                == task.tags@[i].name@ && id == task.tags@[i].id && forall|j: int|
                0 <= j < i ==> (#[trigger] tag_ref_sp_id(task.tags@[j])) is Some),
        project_sp_id(*project) is Some && all_tags_added(*task) ==> (r matches Ok(plan) && match task_sp_id(
            *task,
        ) {
            Some(id) => if update {
                plan matches Some(IpcReq::UpdateTask { id: rid, updates }) && rid@ == id@
                    && is_sp_task(updates, *project, *task)
            } else {
                plan is None
            },
            None => plan matches Some(IpcReq::AddTask(t)) && is_sp_task(t, *project, *task),
        }),
{
    let sp_task = match SpTask::from_task(project, task) {
        Ok(t) => t,
        Err(e) => {
            return Err(e);
        },
    };
    match &task.external_tools.super_productivity {
        Some(task::SuperProductivity { id: Some(tid) }) => {
            if update {
                Ok(Some(IpcReq::UpdateTask { id: tid.clone(), updates: sp_task }))
            } else {
                Ok(None)
            }
        },
        _ => Ok(Some(IpcReq::AddTask(sp_task))),
    }
}

/// The recorded tag states after tag `id` is given the app id `sp`.
pub open spec fn tags_with_sp_id(m: Map<u128, TagState>, id: u128, sp: String) -> Map<u128, TagState> {
    m.insert(
        id,
        TagState {
            external_tools: tag::ExternalState {
                super_productivity: Some(tag::SuperProductivityState { id: sp }),
            },
        },
    )
}

/// The recorded task states after task `id` is given the app id `sp`: its
/// entry (a fresh pending one if it had none) keeps status and completion
/// time; other entries are unchanged.
pub open spec fn tasks_with_sp_id(m: Map<u128, TaskState>, id: u128, sp: String) -> Map<u128, TaskState> {
    m.insert(
        id,
        TaskState {
            status: if m.contains_key(id) {
                m[id].status
            } else {
                Status::Pending
            },
            completed: if m.contains_key(id) {
                m[id].completed
            } else {
                None
            },
            external_tools: task::ExternalState {
                super_productivity: Some(task::SuperProductivityState { id: sp }),
            },
        },
    )
}

/// After a task is given the app id `sp`, its entry holds that id and keeps
/// its status and completion time (a task without an entry is pending and
/// not completed); the other entries are unchanged.
pub proof fn law_task_sp_id_recorded(m: Map<u128, TaskState>, id: u128, sp: String)
    ensures
        ({
            let n = tasks_with_sp_id(m, id, sp);
            &&& n.contains_key(id)
            &&& n[id].external_tools.super_productivity == Some(task::SuperProductivityState { id: sp })
            &&& m.contains_key(id) ==> n[id].status == m[id].status && n[id].completed
                == m[id].completed
            &&& !m.contains_key(id) ==> n[id].status == Status::Pending && n[id].completed is None
            &&& n.dom() == m.dom().insert(id)
            &&& forall|k: u128| k != id && #[trigger] m.contains_key(k) ==> n[k] == m[k]
        }),
{
}

/// After a tag is given the app id `sp`, its entry holds that id; the other
/// entries are unchanged.
pub proof fn law_tag_sp_id_recorded(m: Map<u128, TagState>, id: u128, sp: String)
    ensures
        ({
            let n = tags_with_sp_id(m, id, sp);
            &&& n.contains_key(id)
            &&& n[id].external_tools.super_productivity == Some(tag::SuperProductivityState { id: sp })
            &&& n.dom() == m.dom().insert(id)
            &&& forall|k: u128| k != id && #[trigger] m.contains_key(k) ==> n[k] == m[k]
        }),
{
}

/// Records the app's id of a newly added tag.
pub fn record_tag_id(state: &mut TagsState, tag_id: &Uuid, sp_id: String)
    ensures
        final(state)@ == tags_with_sp_id(old(state)@, tag_id.0, sp_id),
{
    let mut entry = match state.remove(&tag_id.0) {
        Some(s) => s,
        None => TagState::default(),
    };
    entry.external_tools.super_productivity = Some(tag::SuperProductivityState { id: sp_id });
    state.insert(tag_id.0, entry);
    proof {
        assert(state@ =~= tags_with_sp_id(old(state)@, tag_id.0, sp_id));
    }
}

/// Records the app's id of a newly added project.
pub fn record_project_id(state: &mut ProjectDefState, sp_id: String)
    ensures
        final(state).tasks@ == old(state).tasks@,
        final(state).project.external_tools.super_productivity == Some(
            project::SuperProductivityState { id: sp_id },
        ),
{
    state.project.external_tools.super_productivity = Some(
        project::SuperProductivityState { id: sp_id },
    );
}

/// Records the app's id of a newly added task.
pub fn record_task_id(state: &mut ProjectDefState, task_id: &Uuid, sp_id: String)
    ensures
        final(state).tasks@ == tasks_with_sp_id(old(state).tasks@, task_id.0, sp_id),
        final(state).project == old(state).project,
{
    let mut entry = match state.tasks.remove(&task_id.0) {
        Some(s) => s,
        None => TaskState::default(),
    };
    entry.external_tools.super_productivity = Some(task::SuperProductivityState { id: sp_id });
    state.tasks.insert(task_id.0, entry);
    proof {
        assert(state.tasks@ =~= tasks_with_sp_id(old(state).tasks@, task_id.0, sp_id));
    }
}

/// Recording an app id again for the same task keeps only the later id.
pub proof fn law_task_sp_id_last_wins(m: Map<u128, TaskState>, id: u128, first: String, second: String)
    ensures
        tasks_with_sp_id(tasks_with_sp_id(m, id, first), id, second) == tasks_with_sp_id(m, id, second),
{
    assert(tasks_with_sp_id(tasks_with_sp_id(m, id, first), id, second) =~= tasks_with_sp_id(
        m,
        id,
        second,
    ));
}

/// Recording app ids of two different tasks gives the same states in
/// either order.
pub proof fn law_task_sp_ids_commute(m: Map<u128, TaskState>, a: u128, sa: String, b: u128, sb: String)
    requires
        a != b,
    ensures
        tasks_with_sp_id(tasks_with_sp_id(m, a, sa), b, sb) == tasks_with_sp_id(
            tasks_with_sp_id(m, b, sb),
            a,
            sa,
        ),
{
    assert(tasks_with_sp_id(tasks_with_sp_id(m, a, sa), b, sb) =~= tasks_with_sp_id(
        tasks_with_sp_id(m, b, sb),
        a,
        sa,
    ));
}

/// Recording an app id for a tag again keeps only the later id.
pub proof fn law_tag_sp_id_last_wins(m: Map<u128, TagState>, id: u128, first: String, second: String)
    ensures
        tags_with_sp_id(tags_with_sp_id(m, id, first), id, second) == tags_with_sp_id(m, id, second),
{
    assert(tags_with_sp_id(tags_with_sp_id(m, id, first), id, second) =~= tags_with_sp_id(
        m,
        id,
        second,
    ));
}

/// REST path that starts the timer of a task; fails when the task has no id
/// in the app.
pub fn start_task_uri(task: &Task) -> (r: Result<String, SpError>)
    ensures
        match task_sp_id(*task) {
            Some(id) => r matches Ok(s) && s@ == "/tasks/"@ + id@ + "/start"@,
            None => r matches Err(SpError::TaskNotAdded),
        },
{
    let id = match get_task_id(task) {
        Ok(i) => i,
        Err(e) => {
            return Err(e);
        },
    };
    let mut buf: Vec<char> = Vec::new();
    push_str(&mut buf, "/tasks/");
    push_str(&mut buf, id.as_str());
    push_str(&mut buf, "/start");
    proof {
        assert(buf@ =~= "/tasks/"@ + id@ + "/start"@);
    }
    Ok(chars_to_string(&buf))
}

/// REST path that stops the running timer.
pub fn stop_task_uri() -> (r: &'static str)
    ensures
        r@ == "/task-control/stop"@,
{
    "/task-control/stop"
}

/// The request that marks a task finished at `stop_time`; fails when the
/// task has no id in the app.
pub fn finish_task_request(task: &Task, stop_time: &DateTime) -> (r: Result<IpcReq, SpError>)
    ensures
        match task_sp_id(*task) {
            Some(id) => r matches Ok(IpcReq::FinishTask { id: rid, completed_time }) && rid@ == id@
                && completed_time.0 == sp_millis(*stop_time),
            None => r matches Err(SpError::TaskNotAdded),
        },
{
    let id = match get_task_id(task) {
        Ok(i) => i,
        Err(e) => {
            return Err(e);
        },
    };
    Ok(IpcReq::FinishTask { id, completed_time: SpTimestamp::from_datetime(stop_time) })
}

} // verus!
