//! Requests to the vulnerability scanner backend.

use vstd::prelude::*;
use crate::api::{BackendRequest, BackendRequestView};
use crate::json::{Json, JsonValue};
use crate::text::{blank, is_blank, text_of};

verus! {

/// Where the backend tells its version.
pub const VERSION_URL: &'static str = "http://127.0.0.1:8081/openvas/version";

/// Where the backend lists its scan configurations.
pub const CONFIGS_URL: &'static str = "http://127.0.0.1:8081/openvas/configs";

/// Where the backend takes new targets.
pub const TARGETS_URL: &'static str = "http://127.0.0.1:8080/openvas/targets";

/// Where the backend takes new tasks.
pub const TASKS_URL: &'static str = "http://127.0.0.1:8080/openvas/tasks";

/// Where the backend starts a task.
pub const START_TASK_URL: &'static str = "http://127.0.0.1:8080/openvas/tasks/start";

/// Where the backend tells the state of a task.
pub const TASK_STATUS_URL: &'static str = "http://127.0.0.1:8080/openvas/tasks/status";

/// Where the backend hands out reports.
pub const REPORTS_URL: &'static str = "http://127.0.0.1:8080/openvas/reports";

/// The body that describes a new target. A port range that is missing or
/// blank is left out.
pub open spec fn target_body(name: Seq<char>, hosts: Seq<char>, port_range: Option<Seq<char>>) -> JsonValue {
    let body = JsonValue::object().with("name"@, JsonValue::Str(name)).with(
        "hosts"@,
        JsonValue::Str(hosts),
    );
    match port_range {
        Some(range) => if blank(range) {
            body
        } else {
            body.with("port_range"@, JsonValue::Str(range))
        },
        None => body,
    }
}

/// The body that describes a new task.
pub open spec fn task_body(name: Seq<char>, config_id: Seq<char>, target_id: Seq<char>) -> JsonValue {
    JsonValue::object().with("name"@, JsonValue::Str(name)).with(
        "config_id"@,
        JsonValue::Str(config_id),
    ).with("target_id"@, JsonValue::Str(target_id))
}

/// A body with a single text member.
pub open spec fn single_body(key: Seq<char>, value: Seq<char>) -> JsonValue {
    JsonValue::object().with(key, JsonValue::Str(value))
}

/// The request for the backend's version.
pub fn get_version() -> (request: BackendRequest)
    ensures
        request@ == BackendRequestView::get(VERSION_URL@),
{
    BackendRequest::get(VERSION_URL)
}

/// The request for the scan configurations that the backend offers.
pub fn list_configs() -> (request: BackendRequest)
    ensures
        request@ == BackendRequestView::get(CONFIGS_URL@),
{
    BackendRequest::get(CONFIGS_URL)
}

/// The request that creates a target, or finds the one that exists.
pub fn create_target(name: &str, hosts: &str, port_range: Option<&str>) -> (request: BackendRequest)
    ensures
        request@ == BackendRequestView::post(
            TARGETS_URL@,
            target_body(name@, hosts@, text_of(port_range)),
        ),
{
    let mut body = Json::object().with("name", Json::string(name)).with("hosts", Json::string(hosts));
    if let Some(range) = port_range {
        if !is_blank(range) {
            body = body.with("port_range", Json::string(range));
        }
    }
    BackendRequest::post(TARGETS_URL, body)
}

/// The request that creates a task, or finds the one that exists.
pub fn create_task(name: &str, config_id: &str, target_id: &str) -> (request: BackendRequest)
    ensures
        request@ == BackendRequestView::post(TASKS_URL@, task_body(name@, config_id@, target_id@)),
{
    let body = Json::object().with("name", Json::string(name)).with(
        "config_id",
        Json::string(config_id),
    ).with("target_id", Json::string(target_id));
    BackendRequest::post(TASKS_URL, body)
}

/// The request that starts a task.
pub fn start_task(task_id: &str) -> (request: BackendRequest)
    ensures
        request@ == BackendRequestView::post(START_TASK_URL@, single_body("task_id"@, task_id@)),
{
    BackendRequest::post(START_TASK_URL, Json::object().with("task_id", Json::string(task_id)))
}

/// The request for the state of a task.
pub fn get_task_status(task_id: &str) -> (request: BackendRequest)
    ensures
        request@ == BackendRequestView::post(TASK_STATUS_URL@, single_body("task_id"@, task_id@)),
{
    BackendRequest::post(TASK_STATUS_URL, Json::object().with("task_id", Json::string(task_id)))
}

/// The request for a finished report.
pub fn get_report(report_id: &str) -> (request: BackendRequest)
    ensures
        request@ == BackendRequestView::post(REPORTS_URL@, single_body("report_id"@, report_id@)),
{
    BackendRequest::post(REPORTS_URL, Json::object().with("report_id", Json::string(report_id)))
}

} // verus!
