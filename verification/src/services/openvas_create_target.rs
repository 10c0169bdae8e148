//! Creating a target for the vulnerability scanner.

use vstd::prelude::*;
use crate::api::openvas::{self, target_body, TARGETS_URL};
use crate::api::{BackendRequest, BackendRequestView};
use crate::text::text_of;

verus! {

/// The request that creates the target `name` for `hosts`.
pub fn openvas_create_target(name: &str, hosts: &str, port_range: Option<&str>) -> (request:
    BackendRequest)
    ensures
        request@ == BackendRequestView::post(
            TARGETS_URL@,
            target_body(name@, hosts@, text_of(port_range)),
        ),
{
    openvas::create_target(name, hosts, port_range)
}

} // verus!
