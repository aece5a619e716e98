//! Records exchanged with the task service.

use vstd::prelude::*;

verus! {

/// Lightweight list-view record for a task.
#[derive(Clone, Debug)]
pub struct Task {
    pub id: u64,
    pub title: String,
    pub done: bool,
}

/// A tag attached to a task; read-only for this client.
#[derive(Clone, Debug)]
pub struct Label {
    pub id: u64,
    pub title: String,
}

/// Full record for one task, fetched on demand.
#[derive(Clone, Debug)]
pub struct TaskDetail {
    pub id: u64,
    pub title: String,
    pub done: bool,
    pub due_date: Option<String>,
    pub labels: Option<Vec<Label>>,
    pub priority: Option<i32>,
    pub description: Option<String>,
}

} // verus!
