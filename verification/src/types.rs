use vstd::prelude::*;

verus! {

/// Body of `POST /api/tasks`.
#[derive(Clone, Debug)]
pub struct CreateTaskRequest {
    pub description: String,
}

/// Body of `PUT /api/tasks/{uuid}`: each field that is present replaces the
/// task's; absent fields are left as they are.
#[derive(Clone, Debug)]
pub struct UpdateTaskRequest {
    pub description: Option<String>,
    pub project: Option<String>,
    pub tags: Option<Vec<String>>,
    pub priority: Option<String>,
    pub due: Option<String>,
    pub wait: Option<String>,
    pub recur: Option<String>,
}

impl Default for UpdateTaskRequest {
    /// A request that changes nothing.
    fn default() -> (r: UpdateTaskRequest)
        ensures
            r.description is None,
            r.project is None,
            r.tags is None,
            r.priority is None,
            r.due is None,
            r.wait is None,
            r.recur is None,
    {
        UpdateTaskRequest {
            description: None,
            project: None,
            tags: None,
            priority: None,
            due: None,
            wait: None,
            recur: None,
        }
    }
}

/// Query string of `GET /api/tasks`.
#[derive(Clone, Debug)]
pub struct TaskFilterQuery {
    pub status: Option<String>,
    pub project: Option<String>,
    pub tag: Option<String>,
    pub sort_by: Option<String>,
}

/// Body of `POST /api/sync/configure`.
#[derive(Clone, Debug)]
pub struct ConfigureSyncRequest {
    pub server_url: String,
    pub client_id: String,
    pub encryption_secret: String,
}

/// The UUIDs of the tasks in the working set.
#[derive(Clone, Debug)]
pub struct WorkingSetResponse {
    pub tasks: Vec<String>,
}

/// One entry of the working set: its index and its task.
#[derive(Clone, Debug)]
pub struct WorkingSetItem<T> {
    pub id: usize,
    pub task: T,
}

/// The answer of a sync: whether it succeeded, and the store's message.
#[derive(Clone, Debug)]
pub struct SyncReport {
    pub success: bool,
    pub message: String,
}

/// The order in which the task store lists tasks.
#[derive(PartialEq, Eq, Structural, Clone, Copy, Debug)]
pub enum SortField {
    Urgency,
    Modified,
    Description,
}

/// Which tasks the task store lists.
#[derive(Clone, Debug)]
pub struct TaskFilter {
    pub status: Option<String>,
    pub project: Option<String>,
    pub tag: Option<String>,
}

/// The changes handed to the task store for one task.
#[derive(Clone, Debug)]
pub struct TaskUpdate {
    pub description: Option<String>,
    pub project: Option<String>,
    pub tags: Option<Vec<String>>,
    pub priority: Option<String>,
    pub due: Option<String>,
    pub wait: Option<String>,
    pub recur: Option<String>,
}

/// The sync settings in the order the task store takes them.
#[derive(Clone, Debug)]
pub struct SyncSettings {
    pub server_url: String,
    pub encryption_secret: String,
    pub client_id: String,
}

/// Body of `GET /api/sync/config`.
#[derive(Clone, Debug)]
pub struct SyncConfigView {
    pub configured: bool,
    pub server_url: Option<String>,
    pub client_id: Option<String>,
}

} // verus!
