//! The tool that creates a target for the vulnerability scanner.

use vstd::prelude::*;
use crate::api::openvas::{target_body, TARGETS_URL};
use crate::api::BackendRequestView;
use crate::services::openvas_create_target::openvas_create_target;
use crate::json::{Json, JsonValue};
use crate::tools::schema::{closed_object, make_closed_object, make_property, property};
use crate::tools::{missing_field, outcome_view, Invocation, InvocationView, Tool, ToolError};

verus! {

/// The name under which the tool is called.
pub const OPENVAS_CREATE_TARGET_NAME: &'static str = "openvas_create_target";

/// What the tool does, as it is listed.
pub const OPENVAS_CREATE_TARGET_DESCRIPTION: &'static str =
    "Creates an OpenVAS/GVM target (name, hosts, optional port_range) via the Go backend and returns its ID.";

/// The input that `openvas_create_target` takes.
pub open spec fn openvas_create_target_schema() -> JsonValue {
    closed_object(
        JsonValue::object()
            .with("name"@, property("string"@, "Friendly name for the target."@))
            .with("hosts"@, property("string"@, "Hostname/IP or CIDR understood by OpenVAS."@))
            .with(
                "port_range"@,
                property("string"@, "Optional port range string (e.g. '1-65535' or '62078')."@),
            ),
        JsonValue::array().item_str("name"@).item_str("hosts"@),
    )
}

/// Creates a target of the vulnerability scanner: a name for the hosts to
/// scan.
#[derive(Debug, Clone, Copy, PartialEq, Eq)]
pub struct OpenVASCreateTargetTool;

impl Tool for OpenVASCreateTargetTool {
    open spec fn spec_name(&self) -> Seq<char> {
        OPENVAS_CREATE_TARGET_NAME@
    }

    open spec fn spec_description(&self) -> Seq<char> {
        OPENVAS_CREATE_TARGET_DESCRIPTION@
    }

    open spec fn spec_input_schema(&self) -> JsonValue {
        openvas_create_target_schema()
    }

    open spec fn spec_execute(&self, input: JsonValue) -> Result<InvocationView, Seq<char>> {
        match input.str_at("name"@) {
            Some(name) => match input.str_at("hosts"@) {
                Some(hosts) => Ok(
                    InvocationView::Backend(
                        BackendRequestView::post(
                            TARGETS_URL@,
                            target_body(name, hosts, input.str_at("port_range"@)),
                        ),
                    ),
                ),
                None => Err(missing_field("hosts"@)),
            },
            None => Err(missing_field("name"@)),
        }
    }

    fn name(&self) -> (name: &'static str)
        ensures
            name@ == self.spec_name(),
    {
        OPENVAS_CREATE_TARGET_NAME
    }

    fn description(&self) -> (description: &'static str)
        ensures
            description@ == self.spec_description(),
    {
        OPENVAS_CREATE_TARGET_DESCRIPTION
    }

    fn input_schema(&self) -> (schema: Json)
        ensures
            schema@ == self.spec_input_schema(),
    {
        make_closed_object(
            Json::object()
                .with("name", make_property("string", "Friendly name for the target."))
                .with(
                    "hosts",
                    make_property("string", "Hostname/IP or CIDR understood by OpenVAS."),
                )
                .with(
                    "port_range",
                    make_property(
                        "string",
                        "Optional port range string (e.g. '1-65535' or '62078').",
                    ),
                ),
            Json::array().item_str("name").item_str("hosts"),
        )
    }

    fn execute(&self, input: Json) -> (outcome: Result<Invocation, ToolError>)
        ensures
            outcome_view(outcome) == self.spec_execute(input@),
    {
        let name = match input.str_at("name") {
            Some(name) => name,
            None => {
                return Err(ToolError::missing_field("name"));
            },
        };
        let hosts = match input.str_at("hosts") {
            Some(hosts) => hosts,
            None => {
                return Err(ToolError::missing_field("hosts"));
            },
        };
        let port_range = input.str_at("port_range");
        Ok(Invocation::Backend(openvas_create_target(name, hosts, port_range)))
    }
}

} // verus!
