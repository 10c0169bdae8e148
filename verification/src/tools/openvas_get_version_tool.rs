//! The tool that asks the vulnerability scanner for its version.

use vstd::prelude::*;
use crate::api::openvas::VERSION_URL;
use crate::api::BackendRequestView;
use crate::services::openvas_get_version::openvas_get_version;
use crate::json::{Json, JsonValue};
use crate::tools::schema::{make_property, property};
use crate::tools::{outcome_view, Invocation, InvocationView, Tool, ToolError};

verus! {

/// The name under which the tool is called.
pub const OPENVAS_GET_VERSION_NAME: &'static str = "openvas_get_version";

/// What the tool does, as it is listed.
pub const OPENVAS_GET_VERSION_DESCRIPTION: &'static str =
    "Fetches the OpenVAS/GVM version via the Go backend.";

/// The input that `openvas_get_version` takes.
pub open spec fn openvas_get_version_schema() -> JsonValue {
    property("object"@, "No input fields required."@)
}

/// Fetches the version of the vulnerability scanner. It reads nothing of
/// its input.
#[derive(Debug, Clone, Copy, PartialEq, Eq)]
pub struct OpenVASGetVersionTool;

impl Tool for OpenVASGetVersionTool {
    open spec fn spec_name(&self) -> Seq<char> {
        OPENVAS_GET_VERSION_NAME@
    }

    open spec fn spec_description(&self) -> Seq<char> {
        OPENVAS_GET_VERSION_DESCRIPTION@
    }

    open spec fn spec_input_schema(&self) -> JsonValue {
        openvas_get_version_schema()
    }

    open spec fn spec_execute(&self, input: JsonValue) -> Result<InvocationView, Seq<char>> {
        Ok(InvocationView::Backend(BackendRequestView::get(VERSION_URL@)))
    }

    fn name(&self) -> (name: &'static str)
        ensures
            name@ == self.spec_name(),
    {
        OPENVAS_GET_VERSION_NAME
    }

    fn description(&self) -> (description: &'static str)
        ensures
            description@ == self.spec_description(),
    {
        OPENVAS_GET_VERSION_DESCRIPTION
    }

    fn input_schema(&self) -> (schema: Json)
        ensures
            schema@ == self.spec_input_schema(),
    {
        make_property("object", "No input fields required.")
    }

    fn execute(&self, input: Json) -> (outcome: Result<Invocation, ToolError>)
        ensures
            outcome_view(outcome) == self.spec_execute(input@),
    {
        Ok(Invocation::Backend(openvas_get_version()))
    }
}

} // verus!
