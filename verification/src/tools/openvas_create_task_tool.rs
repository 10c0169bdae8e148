//! The tool that creates a task for the vulnerability scanner.

use vstd::prelude::*;
use crate::api::openvas::{task_body, TASKS_URL};
use crate::api::BackendRequestView;
use crate::services::openvas_create_task::openvas_create_task;
use crate::json::{Json, JsonValue};
use crate::tools::schema::{closed_object, make_closed_object, make_property, property};
use crate::tools::{missing_field, outcome_view, Invocation, InvocationView, Tool, ToolError};

verus! {

/// The name under which the tool is called.
pub const OPENVAS_CREATE_TASK_NAME: &'static str = "openvas_create_task";

/// What the tool does, as it is listed.
pub const OPENVAS_CREATE_TASK_DESCRIPTION: &'static str =
    "Creates an OpenVAS/GVM task (name, config_id, target_id) via the Go backend and returns its ID.";

/// The input that `openvas_create_task` takes.
pub open spec fn openvas_create_task_schema() -> JsonValue {
    closed_object(
        JsonValue::object()
            .with("name"@, property("string"@, "Friendly name for the task."@))
            .with(
                "config_id"@,
                property("string"@, "OpenVAS scan configuration ID to use for the task."@),
            )
            .with(
                "target_id"@,
                property("string"@, "OpenVAS target ID that the task will scan."@),
            ),
        JsonValue::array().item_str("name"@).item_str("config_id"@).item_str("target_id"@),
    )
}

/// Creates a task of the vulnerability scanner: a scan of a target with a
/// scan configuration.
#[derive(Debug, Clone, Copy, PartialEq, Eq)]
pub struct OpenVASCreateTaskTool;

impl Tool for OpenVASCreateTaskTool {
    open spec fn spec_name(&self) -> Seq<char> {
        OPENVAS_CREATE_TASK_NAME@
    }

    open spec fn spec_description(&self) -> Seq<char> {
        OPENVAS_CREATE_TASK_DESCRIPTION@
    }

    open spec fn spec_input_schema(&self) -> JsonValue {
        openvas_create_task_schema()
    }

    open spec fn spec_execute(&self, input: JsonValue) -> Result<InvocationView, Seq<char>> {
        match input.str_at("name"@) {
            Some(name) => match input.str_at("config_id"@) {
                Some(config_id) => match input.str_at("target_id"@) {
                    Some(target_id) => Ok(
                        InvocationView::Backend(
                            BackendRequestView::post(
                                TASKS_URL@,
                                task_body(name, config_id, target_id),
                            ),
                        ),
                    ),
                    None => Err(missing_field("target_id"@)),
                },
                None => Err(missing_field("config_id"@)),
            },
            None => Err(missing_field("name"@)),
        }
    }

    fn name(&self) -> (name: &'static str)
        ensures
            name@ == self.spec_name(),
    {
        OPENVAS_CREATE_TASK_NAME
    }

    fn description(&self) -> (description: &'static str)
        ensures
            description@ == self.spec_description(),
    {
        OPENVAS_CREATE_TASK_DESCRIPTION
    }

    fn input_schema(&self) -> (schema: Json)
        ensures
            schema@ == self.spec_input_schema(),
    {
        make_closed_object(
            Json::object()
                .with("name", make_property("string", "Friendly name for the task."))
                .with(
                    "config_id",
                    make_property(
                        "string",
                        "OpenVAS scan configuration ID to use for the task.",
                    ),
                )
                .with(
                    "target_id",
                    make_property("string", "OpenVAS target ID that the task will scan."),
                ),
            Json::array().item_str("name").item_str("config_id").item_str("target_id"),
        )
    }

    fn execute(&self, input: Json) -> (outcome: Result<Invocation, ToolError>)
        ensures
            outcome_view(outcome) == self.spec_execute(input@),
    {
        let name = match input.str_at("name") {
            Some(name) => name,
            None => {
                return Err(ToolError::missing_field("name"));
            },
        };
        let config_id = match input.str_at("config_id") {
            Some(config_id) => config_id,
            None => {
                return Err(ToolError::missing_field("config_id"));
            },
        };
        let target_id = match input.str_at("target_id") {
            Some(target_id) => target_id,
            None => {
                return Err(ToolError::missing_field("target_id"));
            },
        };
        Ok(Invocation::Backend(openvas_create_task(name, config_id, target_id)))
    }
}

} // verus!
