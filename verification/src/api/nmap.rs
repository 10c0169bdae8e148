//! Requests to the port scanner backend.

use vstd::prelude::*;
use crate::api::{BackendRequest, BackendRequestView};
use crate::json::{Json, JsonValue};
use crate::text::text_of;

verus! {

/// Where the port scanner backend takes its scans.
pub const SCAN_URL: &'static str = "http://127.0.0.1:8080/scan-open-ports";

/// The body of a simple scan: the target, and the timing where one is given.
pub open spec fn simple_scan_body(target: Seq<char>, timing: Option<Seq<char>>) -> JsonValue {
    JsonValue::object().with("target"@, JsonValue::Str(target)).with_text("timing"@, timing)
}

/// The request that runs a scan with the given options.
pub fn advanced_scan(request_body: &Json) -> (request: BackendRequest)
    ensures
        request@ == BackendRequestView::post(SCAN_URL@, request_body@),
{
    BackendRequest::post(SCAN_URL, request_body.clone())
}

/// The request that runs a simple scan of open ports.
pub fn scan_open_ports(target: &str, timing: Option<&str>) -> (request: BackendRequest)
    ensures
        request@ == BackendRequestView::post(SCAN_URL@, simple_scan_body(target@, text_of(timing))),
{
    let body = Json::object().with("target", Json::string(target)).with_text("timing", timing);
    advanced_scan(&body)
}

} // verus!
