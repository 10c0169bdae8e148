//! The tool that asks how far a task of the vulnerability scanner has come.

use vstd::prelude::*;
use crate::api::openvas::{single_body, TASK_STATUS_URL};
use crate::api::BackendRequestView;
use crate::services::openvas_task_status::openvas_task_status;
use crate::json::{Json, JsonValue};
use crate::tools::schema::{closed_object, make_closed_object, make_property, property};
use crate::tools::{missing_field, outcome_view, Invocation, InvocationView, Tool, ToolError};

verus! {

/// The name under which the tool is called.
pub const OPENVAS_TASK_STATUS_NAME: &'static str = "openvas_task_status";

/// What the tool does, as it is listed.
pub const OPENVAS_TASK_STATUS_DESCRIPTION: &'static str =
    "Fetches the current status/details for an existing OpenVAS/GVM task by ID via the Go backend.";

/// The input that `openvas_task_status` takes.
pub open spec fn openvas_task_status_schema() -> JsonValue {
    closed_object(
        JsonValue::object()
            .with(
                "task_id"@,
                property("string"@, "OpenVAS task ID whose status should be fetched."@),
            ),
        JsonValue::array().item_str("task_id"@),
    )
}

/// Fetches the state of a task of the vulnerability scanner.
#[derive(Debug, Clone, Copy, PartialEq, Eq)]
pub struct OpenVASTaskStatusTool;

impl Tool for OpenVASTaskStatusTool {
    open spec fn spec_name(&self) -> Seq<char> {
        OPENVAS_TASK_STATUS_NAME@
    }

    open spec fn spec_description(&self) -> Seq<char> {
        OPENVAS_TASK_STATUS_DESCRIPTION@
    }

    open spec fn spec_input_schema(&self) -> JsonValue {
        openvas_task_status_schema()
    }

    open spec fn spec_execute(&self, input: JsonValue) -> Result<InvocationView, Seq<char>> {
        match input.str_at("task_id"@) {
            Some(task_id) => Ok(
                InvocationView::Backend(
                    BackendRequestView::post(TASK_STATUS_URL@, single_body("task_id"@, task_id)),
                ),
            ),
            None => Err(missing_field("task_id"@)),
        }
    }

    fn name(&self) -> (name: &'static str)
        ensures
            name@ == self.spec_name(),
    {
        OPENVAS_TASK_STATUS_NAME
    }

    fn description(&self) -> (description: &'static str)
        ensures
            description@ == self.spec_description(),
    {
        OPENVAS_TASK_STATUS_DESCRIPTION
    }

    fn input_schema(&self) -> (schema: Json)
        ensures
            schema@ == self.spec_input_schema(),
    {
        make_closed_object(
            Json::object()
                .with(
                    "task_id",
                    make_property("string", "OpenVAS task ID whose status should be fetched."),
                ),
            Json::array().item_str("task_id"),
        )
    }

    fn execute(&self, input: Json) -> (outcome: Result<Invocation, ToolError>)
        ensures
            outcome_view(outcome) == self.spec_execute(input@),
    {
        let task_id = match input.str_at("task_id") {
            Some(task_id) => task_id,
            None => {
                return Err(ToolError::missing_field("task_id"));
            },
        };
        Ok(Invocation::Backend(openvas_task_status(task_id)))
    }
}

} // verus!
