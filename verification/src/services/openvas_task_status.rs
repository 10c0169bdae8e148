//! Asking how far a task of the vulnerability scanner has come.

use vstd::prelude::*;
use crate::api::openvas::{self, single_body, TASK_STATUS_URL};
use crate::api::{BackendRequest, BackendRequestView};

verus! {

/// The request for the state of the task `task_id`.
pub fn openvas_task_status(task_id: &str) -> (request: BackendRequest)
    ensures
        request@ == BackendRequestView::post(TASK_STATUS_URL@, single_body("task_id"@, task_id@)),
{
    openvas::get_task_status(task_id)
}

} // verus!
