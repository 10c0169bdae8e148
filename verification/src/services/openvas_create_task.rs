//! Creating a task for the vulnerability scanner.

use vstd::prelude::*;
use crate::api::openvas::{self, task_body, TASKS_URL};
use crate::api::{BackendRequest, BackendRequestView};

verus! {

/// The request that creates the task `name`, which scans a target with a
/// scan configuration.
pub fn openvas_create_task(name: &str, config_id: &str, target_id: &str) -> (request: BackendRequest)
    ensures
        request@ == BackendRequestView::post(TASKS_URL@, task_body(name@, config_id@, target_id@)),
{
    openvas::create_task(name, config_id, target_id)
}

} // verus!
