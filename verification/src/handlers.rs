use vstd::prelude::*;
use vstd::string::*;

use crate::error::AppError;
use crate::ident::{read_uuid, spec_read_uuid, uuid_string, uuid_text};
use crate::types::{
    ConfigureSyncRequest, SortField, SyncConfigView, SyncReport, SyncSettings, TaskFilter,
    TaskFilterQuery, TaskUpdate, UpdateTaskRequest, WorkingSetItem,
};

verus! {

/// The protected routes of the API.
#[derive(PartialEq, Eq, Structural, Clone, Copy, Debug)]
pub enum Endpoint {
    ListTasks,
    CreateTask,
    GetTask,
    UpdateTask,
    DeleteTask,
    CompleteTask,
    UncompleteTask,
    StartTask,
    StopTask,
    ConfigureSync,
    GetSyncConfig,
    SyncNow,
    ClearData,
    WorkingSet,
}

pub const STATUS_OK: u16 = 200;
pub const STATUS_CREATED: u16 = 201;
pub const STATUS_NO_CONTENT: u16 = 204;

/// The status of a successful answer: a created task is `201 Created`; the
/// routes that answer with no body (delete, stop, clear) are `204 No
/// Content`; every other route is `200 OK`.
pub open spec fn spec_success_status(endpoint: Endpoint) -> u16 {
    match endpoint {
        Endpoint::CreateTask => STATUS_CREATED,
        Endpoint::DeleteTask => STATUS_NO_CONTENT,
        Endpoint::StopTask => STATUS_NO_CONTENT,
        Endpoint::ClearData => STATUS_NO_CONTENT,
        _ => STATUS_OK,
    }
}

/// The status with which `endpoint` answers when it succeeds.
pub fn success_status(endpoint: Endpoint) -> (r: u16)
    ensures
        r == spec_success_status(endpoint),
{
    match endpoint {
        Endpoint::CreateTask => STATUS_CREATED,
        Endpoint::DeleteTask => STATUS_NO_CONTENT,
        Endpoint::StopTask => STATUS_NO_CONTENT,
        Endpoint::ClearData => STATUS_NO_CONTENT,
        _ => STATUS_OK,
    }
}

/// `s` reads exactly `lit`.
fn text_is(s: &String, lit: &str) -> (r: bool)
    ensures
        r == (s@ == lit@),
{
    let l = String::from_str(lit);
    *s == l
}

/// The order that the `sort_by` parameter asks for: none, or `urgency`, sorts
/// by urgency; `modified` by modification time; `project` and `description`
/// by description. Any other value is refused.
pub open spec fn spec_sort(raw: Option<Seq<char>>) -> Option<SortField> {
    match raw {
        None => Some(SortField::Urgency),
        Some(v) => if v == "urgency"@ {
            Some(SortField::Urgency)
        } else if v == "modified"@ {
            Some(SortField::Modified)
        } else if v == "project"@ || v == "description"@ {
            Some(SortField::Description)
        } else {
            None
        },
    }
}

/// The view of an optional string.
pub open spec fn opt_view(s: Option<String>) -> Option<Seq<char>> {
    match s {
        Some(v) => Some(v@),
        None => None,
    }
}

/// Reads the `sort_by` parameter; an unknown order is a bad request that
/// names the value.
pub fn sort_field(raw: &Option<String>) -> (r: Result<SortField, AppError>)
    ensures
        match spec_sort(opt_view(*raw)) {
            Some(field) => r == Ok::<SortField, AppError>(field),
            None => r is Err && r->Err_0 is BadRequest
                && r->Err_0->BadRequest_0@ == "invalid sort_by: "@ + raw->0@,
        },
{
    match raw {
        None => Ok(SortField::Urgency),
        Some(v) => {
            if text_is(v, "urgency") {
                Ok(SortField::Urgency)
            } else if text_is(v, "modified") {
                Ok(SortField::Modified)
            } else if text_is(v, "project") || text_is(v, "description") {
                Ok(SortField::Description)
            } else {
                let mut message = String::from_str("invalid sort_by: ");
                message.append(v.as_str());
                Err(AppError::BadRequest(message))
            }
        },
    }
}

/// What `GET /api/tasks` asks of the task store: the tasks that the filter
/// selects, in the order that `sort_by` names.
#[derive(Clone, Debug)]
pub struct ListRequest {
    pub filter: TaskFilter,
    pub sort: SortField,
}

/// Turns the query of `GET /api/tasks` into the store's listing request.
pub fn list_tasks_request(query: TaskFilterQuery) -> (r: Result<ListRequest, AppError>)
    ensures
        match spec_sort(opt_view(query.sort_by)) {
            Some(field) => r is Ok && r->Ok_0.sort == field
                && r->Ok_0.filter.status == query.status
                && r->Ok_0.filter.project == query.project
                && r->Ok_0.filter.tag == query.tag,
            None => r is Err && r->Err_0 is BadRequest
                && r->Err_0->BadRequest_0@ == "invalid sort_by: "@ + query.sort_by->0@,
        },
{
    let sort = match sort_field(&query.sort_by) {
        Ok(field) => field,
        Err(e) => { return Err(e); },
    };
    let TaskFilterQuery { status, project, tag, .. } = query;
    Ok(ListRequest { filter: TaskFilter { status, project, tag }, sort })
}

/// A task named in a request path: its UUID and the canonical text under
/// which the task store keeps it.
#[derive(Clone, Debug)]
pub struct TaskKey {
    pub id: u128,
    pub text: String,
}

/// Reads the `{uuid}` segment of a task route. Text that is no UUID is a bad
/// request carrying the parser's message.
pub fn task_key(raw: &str) -> (r: Result<TaskKey, AppError>)
    ensures
        match spec_read_uuid(raw@) {
            Ok(id) => r is Ok && r->Ok_0.id == id && r->Ok_0.text@ == uuid_text(id),
            Err(m) => r is Err && r->Err_0 is BadRequest && r->Err_0->BadRequest_0@ == m,
        },
{
    match read_uuid(raw) {
        Ok(id) => Ok(TaskKey { id, text: uuid_string(id) }),
        Err(m) => Err(AppError::BadRequest(m)),
    }
}

/// The text of the answer for a task that the store does not have, named by
/// the canonical text of its UUID.
pub open spec fn not_found_message(text: Seq<char>) -> Seq<char> {
    "Task "@ + text + " not found"@
}

/// The task that `GET /api/tasks/{uuid}` found, or `404` naming the UUID.
pub fn found_task<T>(task: Option<T>, key: &TaskKey) -> (r: Result<T, AppError>)
    ensures
        match task {
            Some(t) => r == Ok::<T, AppError>(t),
            None => r is Err && r->Err_0 is NotFound
                && r->Err_0->NotFound_0@ == not_found_message(key.text@),
        },
{
    match task {
        Some(t) => Ok(t),
        None => {
            let mut message = String::from_str("Task ");
            message.append(key.text.as_str());
            message.append(" not found");
            Err(AppError::NotFound(message))
        },
    }
}

/// The changes that `PUT /api/tasks/{uuid}` hands to the store: every field
/// of the request, as it came.
pub fn update_task_changes(req: UpdateTaskRequest) -> (r: TaskUpdate)
    ensures
        r.description == req.description,
        r.project == req.project,
        r.tags == req.tags,
        r.priority == req.priority,
        r.due == req.due,
        r.wait == req.wait,
        r.recur == req.recur,
{
    TaskUpdate {
        description: req.description,
        project: req.project,
        tags: req.tags,
        priority: req.priority,
        due: req.due,
        wait: req.wait,
        recur: req.recur,
    }
}

/// The settings that `POST /api/sync/configure` hands to the store: each
/// field of the request in its place.
pub open spec fn spec_sync_settings(req: ConfigureSyncRequest) -> SyncSettings {
    SyncSettings {
        server_url: req.server_url,
        encryption_secret: req.encryption_secret,
        client_id: req.client_id,
    }
}

/// The settings that `POST /api/sync/configure` hands to the store.
pub fn sync_settings(req: ConfigureSyncRequest) -> (r: SyncSettings)
    ensures
        r == spec_sync_settings(req),
        r.server_url == req.server_url,
        r.encryption_secret == req.encryption_secret,
        r.client_id == req.client_id,
{
    SyncSettings {
        server_url: req.server_url,
        encryption_secret: req.encryption_secret,
        client_id: req.client_id,
    }
}

/// What `GET /api/sync/config` reports of what the store holds: sync counts
/// as configured exactly when a server URL is stored.
pub open spec fn spec_sync_config_view(stored: Option<(Option<String>, Option<String>)>) -> SyncConfigView {
    match stored {
        None => SyncConfigView { configured: false, server_url: None, client_id: None },
        Some((server_url, client_id)) => SyncConfigView {
            configured: server_url is Some,
            server_url,
            client_id,
        },
    }
}

/// How `GET /api/sync/config` reports what the store holds.
pub fn sync_config_view(stored: Option<(Option<String>, Option<String>)>) -> (r: SyncConfigView)
    ensures
        r == spec_sync_config_view(stored),
        match stored {
            None => !r.configured && r.server_url is None && r.client_id is None,
            Some((server_url, client_id)) => r.configured == server_url is Some
                && r.server_url == server_url && r.client_id == client_id,
        },
{
    match stored {
        None => SyncConfigView { configured: false, server_url: None, client_id: None },
        Some((server_url, client_id)) => {
            let configured = server_url.is_some();
            SyncConfigView { configured, server_url, client_id }
        },
    }
}

/// The `status` that `POST /api/sync/configure` answers with once the store
/// has taken the settings.
pub fn configure_sync_status() -> (r: String)
    ensures
        r@ == "configured"@,
{
    String::from_str("configured")
}

/// The answer of `POST /api/sync`: whether the sync succeeded, and the
/// store's message.
pub fn sync_report(success: bool, message: String) -> (r: SyncReport)
    ensures
        r.success == success,
        r.message == message,
{
    SyncReport { success, message }
}

/// The working set as `GET /api/tasks/working-set` answers it: one item per
/// entry, in the store's order, with the entry's index as `id`.
pub fn working_set_items<T>(entries: Vec<(usize, T)>) -> (r: Vec<WorkingSetItem<T>>)
    ensures
        r@.len() == entries@.len(),
        forall|i: int|
            0 <= i < r@.len() ==> (#[trigger] r@[i]).id == entries@[i].0 && r@[i].task
                == entries@[i].1,
{
    let ghost all = entries@;
    let mut rest = entries;
    let mut items: Vec<WorkingSetItem<T>> = Vec::new();
    while rest.len() > 0
        invariant
            rest@ == all.subrange(0, rest@.len() as int),
            items@.len() == all.len() - rest@.len(),
            forall|i: int|
                0 <= i < items@.len() ==> (#[trigger] items@[i]).id == all[rest@.len() + i].0
                    && items@[i].task == all[rest@.len() + i].1,
        decreases rest@.len(),
    {
        let ghost before = items@;
        let (id, task) = rest.pop().unwrap();
        items.insert(0, WorkingSetItem { id, task });
        assert forall|i: int| 0 <= i < items@.len() implies (#[trigger] items@[i]).id == all[
            rest@.len() + i].0 && items@[i].task == all[rest@.len() + i].1 by {
            if i > 0 {
                assert(items@[i] == before[i - 1]);
            }
        }
    }
    items
}

} // verus!

verus! {

/// When the store hands back the server URL and client id it was given by
/// `POST /api/sync/configure`, `GET /api/sync/config` reports sync as
/// configured, with the request's server URL and client id, neither swapped
/// with the secret nor with each other.
pub proof fn lemma_sync_config_round_trip(
    req: ConfigureSyncRequest,
    stored: Option<(Option<String>, Option<String>)>,
)
    requires
        stored == Some(
            (Some(spec_sync_settings(req).server_url), Some(spec_sync_settings(req).client_id)),
        ),
    ensures
        spec_sync_config_view(stored).configured,
        spec_sync_config_view(stored).server_url == Some(req.server_url),
        spec_sync_config_view(stored).client_id == Some(req.client_id),
{
}

} // verus!

verus! {

/// Sync counts as configured exactly when a server URL is stored, whatever
/// the client id; the stored URL and client id are reported as they are, and
/// nothing stored reports nothing configured.
pub proof fn lemma_sync_view_configured_by_url(
    server_url: Option<String>,
    client_id: Option<String>,
)
    ensures
        spec_sync_config_view(Some((server_url, client_id))).configured == server_url is Some,
        spec_sync_config_view(Some((server_url, client_id))).server_url == server_url,
        spec_sync_config_view(Some((server_url, client_id))).client_id == client_id,
        !spec_sync_config_view(None).configured,
        spec_sync_config_view(None).server_url is None,
        spec_sync_config_view(None).client_id is None,
{
}

/// The store is handed each field of the request in its own place: the
/// request's server URL, its encryption secret and its client id.
pub proof fn lemma_sync_settings_keep_fields(req: ConfigureSyncRequest)
    ensures
        spec_sync_settings(req).server_url == req.server_url,
        spec_sync_settings(req).encryption_secret == req.encryption_secret,
        spec_sync_settings(req).client_id == req.client_id,
{
}

} // verus!
