//! The tool that starts a task of the vulnerability scanner.

use vstd::prelude::*;
use crate::api::openvas::{single_body, START_TASK_URL};
use crate::api::BackendRequestView;
use crate::services::openvas_start_task::openvas_start_task;
use crate::json::{Json, JsonValue};
use crate::tools::schema::{closed_object, make_closed_object, make_property, property};
use crate::tools::{missing_field, outcome_view, Invocation, InvocationView, Tool, ToolError};

verus! {

/// The name under which the tool is called.
pub const OPENVAS_START_TASK_NAME: &'static str = "openvas_start_task";

/// What the tool does, as it is listed.
pub const OPENVAS_START_TASK_DESCRIPTION: &'static str =
    "Starts an existing OpenVAS/GVM task by ID via the Go backend and returns the raw XML response.";

/// The input that `openvas_start_task` takes.
pub open spec fn openvas_start_task_schema() -> JsonValue {
    closed_object(
        JsonValue::object()
            .with("task_id"@, property("string"@, "OpenVAS task ID to start."@)),
        JsonValue::array().item_str("task_id"@),
    )
}

/// Starts a task of the vulnerability scanner.
#[derive(Debug, Clone, Copy, PartialEq, Eq)]
pub struct OpenVASStartTaskTool;

impl Tool for OpenVASStartTaskTool {
    open spec fn spec_name(&self) -> Seq<char> {
        OPENVAS_START_TASK_NAME@
    }

    open spec fn spec_description(&self) -> Seq<char> {
        OPENVAS_START_TASK_DESCRIPTION@
    }

    open spec fn spec_input_schema(&self) -> JsonValue {
        openvas_start_task_schema()
    }

    open spec fn spec_execute(&self, input: JsonValue) -> Result<InvocationView, Seq<char>> {
        match input.str_at("task_id"@) {
            Some(task_id) => Ok(
                InvocationView::Backend(
                    BackendRequestView::post(START_TASK_URL@, single_body("task_id"@, task_id)),
                ),
            ),
            None => Err(missing_field("task_id"@)),
        }
    }

    fn name(&self) -> (name: &'static str)
        ensures
            name@ == self.spec_name(),
    {
        OPENVAS_START_TASK_NAME
    }

    fn description(&self) -> (description: &'static str)
        ensures
            description@ == self.spec_description(),
    {
        OPENVAS_START_TASK_DESCRIPTION
    }

    fn input_schema(&self) -> (schema: Json)
        ensures
            schema@ == self.spec_input_schema(),
    {
        make_closed_object(
            Json::object()
                .with("task_id", make_property("string", "OpenVAS task ID to start.")),
            Json::array().item_str("task_id"),
        )
    }

    fn execute(&self, input: Json) -> (outcome: Result<Invocation, ToolError>)
        ensures
            outcome_view(outcome) == self.spec_execute(input@),
    {
        let task_id = match input.str_at("task_id") {
            Some(task_id) => task_id,
            None => {
                return Err(ToolError::missing_field("task_id"));
            },
        };
        Ok(Invocation::Backend(openvas_start_task(task_id)))
    }
}

} // verus!
