//! Fetching a report of the vulnerability scanner.

use vstd::prelude::*;
use crate::api::openvas::{self, single_body, REPORTS_URL};
use crate::api::{BackendRequest, BackendRequestView};

verus! {

/// The request for the report `report_id`.
pub fn openvas_get_report(report_id: &str) -> (request: BackendRequest)
    ensures
        request@ == BackendRequestView::post(REPORTS_URL@, single_body("report_id"@, report_id@)),
{
    openvas::get_report(report_id)
}

} // verus!
