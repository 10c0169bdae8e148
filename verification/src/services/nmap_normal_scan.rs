//! The simple scan of open ports.

use vstd::prelude::*;
use crate::api::nmap::{self, simple_scan_body, SCAN_URL};
use crate::api::{BackendRequest, BackendRequestView};
use crate::text::text_of;

verus! {

/// The request of a simple scan of `target`, at the given timing where one
/// is named.
pub fn nmap_normal_scan(target: &str, timing: Option<&str>) -> (request: BackendRequest)
    ensures
        request@ == BackendRequestView::post(SCAN_URL@, simple_scan_body(target@, text_of(timing))),
{
    nmap::scan_open_ports(target, timing)
}

} // verus!
