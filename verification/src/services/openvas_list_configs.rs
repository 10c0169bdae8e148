//! Listing the scan configurations of the vulnerability scanner.

use vstd::prelude::*;
use crate::api::openvas::{self, CONFIGS_URL};
use crate::api::{BackendRequest, BackendRequestView};

verus! {

/// The request for the scan configurations on offer.
pub fn openvas_list_configs() -> (request: BackendRequest)
    ensures
        request@ == BackendRequestView::get(CONFIGS_URL@),
{
    openvas::list_configs()
}

} // verus!
