//! Starting a task of the vulnerability scanner.

use vstd::prelude::*;
use crate::api::openvas::{self, single_body, START_TASK_URL};
use crate::api::{BackendRequest, BackendRequestView};

verus! {

/// The request that starts the task `task_id`.
pub fn openvas_start_task(task_id: &str) -> (request: BackendRequest)
    ensures
        request@ == BackendRequestView::post(START_TASK_URL@, single_body("task_id"@, task_id@)),
{
    openvas::start_task(task_id)
}

} // verus!
