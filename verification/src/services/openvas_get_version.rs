//! Asking the vulnerability scanner for its version.

use vstd::prelude::*;
use crate::api::openvas::{self, VERSION_URL};
use crate::api::{BackendRequest, BackendRequestView};

verus! {

/// The request for the backend's version.
pub fn openvas_get_version() -> (request: BackendRequest)
    ensures
        request@ == BackendRequestView::get(VERSION_URL@),
{
    openvas::get_version()
}

} // verus!
