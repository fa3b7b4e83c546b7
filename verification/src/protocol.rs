//! The request shapes exchanged with the task-queue server. The shell
//! serializes them; the engine only defines and fills them.

use vstd::prelude::*;

use crate::discovery::TableSchema;

verus! {

/// Asks the server for the next query task.
pub struct AcquireRequest {
    pub is_high_priority_queue: bool,
}

/// What the server hands out for one task or job.
pub struct AcquireResultBody {
    pub id: String,
    pub datasource_name: String,
    pub query: String,
}

/// Reports a task or job failure.
pub struct ErrorSubmissionRequest {
    pub error: String,
    pub is_high_priority_queue: bool,
}

/// Submits the schemas one discovery run gathered.
pub struct SchemaSubmissionRequest {
    pub schemas: Vec<TableSchema>,
}

/// Creates or updates a datasource on the server.
pub struct DatasourceUpsertRequest {
    pub datasource_type: String,
}

} // verus!
