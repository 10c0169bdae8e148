//! The tool that answers with its input.

use vstd::prelude::*;
use crate::json::{Json, JsonValue};
use crate::tools::schema::{any_object, make_any_object};
use crate::tools::{outcome_view, Invocation, InvocationView, Tool, ToolError};

verus! {

/// The name under which the tool is called.
pub const ECHO_NAME: &'static str = "echo";

/// What the tool does, as it is listed.
pub const ECHO_DESCRIPTION: &'static str = "Echoes back the given JSON input.";

/// Hands its input back under the key `echo`. It asks no backend, and is
/// there to try the protocol out.
#[derive(Debug, Clone, Copy, PartialEq, Eq)]
pub struct EchoTool;

impl Tool for EchoTool {
    open spec fn spec_name(&self) -> Seq<char> {
        ECHO_NAME@
    }

    open spec fn spec_description(&self) -> Seq<char> {
        ECHO_DESCRIPTION@
    }

    open spec fn spec_input_schema(&self) -> JsonValue {
        any_object("Any JSON object to echo back."@)
    }

    open spec fn spec_execute(&self, input: JsonValue) -> Result<InvocationView, Seq<char>> {
        Ok(InvocationView::Immediate(JsonValue::object().with("echo"@, input)))
    }

    fn name(&self) -> (name: &'static str)
        ensures
            name@ == self.spec_name(),
    {
        ECHO_NAME
    }

    fn description(&self) -> (description: &'static str)
        ensures
            description@ == self.spec_description(),
    {
        ECHO_DESCRIPTION
    }

    fn input_schema(&self) -> (schema: Json)
        ensures
            schema@ == self.spec_input_schema(),
    {
        make_any_object("Any JSON object to echo back.")
    }

    fn execute(&self, input: Json) -> (outcome: Result<Invocation, ToolError>)
        ensures
            outcome_view(outcome) == self.spec_execute(input@),
    {
        Ok(Invocation::Immediate(Json::object().with("echo", input)))
    }
}

} // verus!
