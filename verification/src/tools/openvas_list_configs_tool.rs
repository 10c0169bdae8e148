//! The tool that lists the scan configurations of the vulnerability scanner.

use vstd::prelude::*;
use crate::api::openvas::CONFIGS_URL;
use crate::api::BackendRequestView;
use crate::services::openvas_list_configs::openvas_list_configs;
use crate::json::{Json, JsonValue};
use crate::tools::schema::{make_property, property};
use crate::tools::{outcome_view, Invocation, InvocationView, Tool, ToolError};

verus! {

/// The name under which the tool is called.
pub const OPENVAS_LIST_CONFIGS_NAME: &'static str = "openvas_list_scan_configs";

/// What the tool does, as it is listed.
pub const OPENVAS_LIST_CONFIGS_DESCRIPTION: &'static str =
    "Lists all available OpenVAS/GVM scan configurations (profiles) via the Go backend.";

/// The input that `openvas_list_scan_configs` takes.
pub open spec fn openvas_list_configs_schema() -> JsonValue {
    property("object"@, "No input fields required."@)
}

/// Lists the scan configurations that the vulnerability scanner offers. It
/// reads nothing of its input.
#[derive(Debug, Clone, Copy, PartialEq, Eq)]
pub struct OpenVASListConfigsTool;

impl Tool for OpenVASListConfigsTool {
    open spec fn spec_name(&self) -> Seq<char> {
        OPENVAS_LIST_CONFIGS_NAME@
    }

    open spec fn spec_description(&self) -> Seq<char> {
        OPENVAS_LIST_CONFIGS_DESCRIPTION@
    }

    open spec fn spec_input_schema(&self) -> JsonValue {
        openvas_list_configs_schema()
    }

    open spec fn spec_execute(&self, input: JsonValue) -> Result<InvocationView, Seq<char>> {
        Ok(InvocationView::Backend(BackendRequestView::get(CONFIGS_URL@)))
    }

    fn name(&self) -> (name: &'static str)
        ensures
            name@ == self.spec_name(),
    {
        OPENVAS_LIST_CONFIGS_NAME
    }

    fn description(&self) -> (description: &'static str)
        ensures
            description@ == self.spec_description(),
    {
        OPENVAS_LIST_CONFIGS_DESCRIPTION
    }

    fn input_schema(&self) -> (schema: Json)
        ensures
            schema@ == self.spec_input_schema(),
    {
        make_property("object", "No input fields required.")
    }

    fn execute(&self, input: Json) -> (outcome: Result<Invocation, ToolError>)
        ensures
            outcome_view(outcome) == self.spec_execute(input@),
    {
        Ok(Invocation::Backend(openvas_list_configs()))
    }
}

} // verus!
