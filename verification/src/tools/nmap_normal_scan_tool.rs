//! The tool for a simple scan of open ports.

use vstd::prelude::*;
use crate::api::nmap::{simple_scan_body, SCAN_URL};
use crate::api::BackendRequestView;
use crate::services::nmap_normal_scan::nmap_normal_scan;
use crate::json::{Json, JsonValue};
use crate::tools::schema::{closed_object, make_closed_object, make_property, property};
use crate::tools::{missing_field, outcome_view, Invocation, InvocationView, Tool, ToolError};

verus! {

/// The name under which the tool is called.
pub const NMAP_OPEN_PORTS_NAME: &'static str = "nmap_open_ports";

/// What the tool does, as it is listed.
pub const NMAP_OPEN_PORTS_DESCRIPTION: &'static str =
    "Scans open TCP ports on a given target with optional timing template (T0-T5).";

/// The input that `nmap_open_ports` takes.
pub open spec fn nmap_open_ports_schema() -> JsonValue {
    closed_object(
        JsonValue::object()
            .with("target"@, property("string"@, "Target hostname or IP address to scan."@))
            .with(
                "timing"@,
                JsonValue::object()
                    .with_str("type"@, "string"@)
                    .with_str(
                        "description"@,
                        "Nmap timing template: T0 (Paranoid), T1 (Sneaky), T2 (Polite), T3 (Normal), T4 (Aggressive), T5 (Insane). Default: T2"@,
                    )
                    .with(
                        "enum"@,
                        JsonValue::array()
                            .item_str("T0"@)
                            .item_str("T1"@)
                            .item_str("T2"@)
                            .item_str("T3"@)
                            .item_str("T4"@)
                            .item_str("T5"@),
                    ),
            ),
        JsonValue::array().item_str("target"@),
    )
}

/// Scans the open TCP ports of a target.
#[derive(Debug, Clone, Copy, PartialEq, Eq)]
pub struct NmapOpenPortsTool;

impl Tool for NmapOpenPortsTool {
    open spec fn spec_name(&self) -> Seq<char> {
        NMAP_OPEN_PORTS_NAME@
    }

    open spec fn spec_description(&self) -> Seq<char> {
        NMAP_OPEN_PORTS_DESCRIPTION@
    }

    open spec fn spec_input_schema(&self) -> JsonValue {
        nmap_open_ports_schema()
    }

    open spec fn spec_execute(&self, input: JsonValue) -> Result<InvocationView, Seq<char>> {
        match input.str_at("target"@) {
            Some(target) => Ok(
                InvocationView::Backend(
                    BackendRequestView::post(
                        SCAN_URL@,
                        simple_scan_body(target, input.str_at("timing"@)),
                    ),
                ),
            ),
            None => Err(missing_field("target"@)),
        }
    }

    fn name(&self) -> (name: &'static str)
        ensures
            name@ == self.spec_name(),
    {
        NMAP_OPEN_PORTS_NAME
    }

    fn description(&self) -> (description: &'static str)
        ensures
            description@ == self.spec_description(),
    {
        NMAP_OPEN_PORTS_DESCRIPTION
    }

    fn input_schema(&self) -> (schema: Json)
        ensures
            schema@ == self.spec_input_schema(),
    {
        make_closed_object(
            Json::object()
                .with(
                    "target",
                    make_property("string", "Target hostname or IP address to scan."),
                )
                .with(
                    "timing",
                    Json::object()
                        .with_str("type", "string")
                        .with_str(
                            "description",
                            "Nmap timing template: T0 (Paranoid), T1 (Sneaky), T2 (Polite), T3 (Normal), T4 (Aggressive), T5 (Insane). Default: T2",
                        )
                        .with(
                            "enum",
                            Json::array()
                                .item_str("T0")
                                .item_str("T1")
                                .item_str("T2")
                                .item_str("T3")
                                .item_str("T4")
                                .item_str("T5"),
                        ),
                ),
            Json::array().item_str("target"),
        )
    }

    fn execute(&self, input: Json) -> (outcome: Result<Invocation, ToolError>)
        ensures
            outcome_view(outcome) == self.spec_execute(input@),
    {
        let target = match input.str_at("target") {
            Some(target) => target,
            None => {
                return Err(ToolError::missing_field("target"));
            },
        };
        let timing = input.str_at("timing");
        Ok(Invocation::Backend(nmap_normal_scan(target, timing)))
    }
}

} // verus!
