//! The tool that fetches a report of the vulnerability scanner.

use vstd::prelude::*;
use crate::api::openvas::{single_body, REPORTS_URL};
use crate::api::BackendRequestView;
use crate::services::openvas_get_report::openvas_get_report;
use crate::json::{Json, JsonValue};
use crate::tools::schema::{closed_object, make_closed_object, make_property, property};
use crate::tools::{missing_field, outcome_view, Invocation, InvocationView, Tool, ToolError};

verus! {

/// The name under which the tool is called.
pub const OPENVAS_GET_REPORT_NAME: &'static str = "openvas_get_report";

/// What the tool does, as it is listed.
pub const OPENVAS_GET_REPORT_DESCRIPTION: &'static str =
    "Fetches the final OpenVAS/GVM report by report ID via the Go backend.";

/// The input that `openvas_get_report` takes.
pub open spec fn openvas_get_report_schema() -> JsonValue {
    closed_object(
        JsonValue::object()
            .with(
                "report_id"@,
                property("string"@, "OpenVAS report ID whose contents should be fetched."@),
            ),
        JsonValue::array().item_str("report_id"@),
    )
}

/// Fetches a finished report of the vulnerability scanner.
#[derive(Debug, Clone, Copy, PartialEq, Eq)]
pub struct OpenVASGetReportTool;

impl Tool for OpenVASGetReportTool {
    open spec fn spec_name(&self) -> Seq<char> {
        OPENVAS_GET_REPORT_NAME@
    }

    open spec fn spec_description(&self) -> Seq<char> {
        OPENVAS_GET_REPORT_DESCRIPTION@
    }

    open spec fn spec_input_schema(&self) -> JsonValue {
        openvas_get_report_schema()
    }

    open spec fn spec_execute(&self, input: JsonValue) -> Result<InvocationView, Seq<char>> {
        match input.str_at("report_id"@) {
            Some(report_id) => Ok(
                InvocationView::Backend(
                    BackendRequestView::post(REPORTS_URL@, single_body("report_id"@, report_id)),
                ),
            ),
            None => Err(missing_field("report_id"@)),
        }
    }

    fn name(&self) -> (name: &'static str)
        ensures
            name@ == self.spec_name(),
    {
        OPENVAS_GET_REPORT_NAME
    }

    fn description(&self) -> (description: &'static str)
        ensures
            description@ == self.spec_description(),
    {
        OPENVAS_GET_REPORT_DESCRIPTION
    }

    fn input_schema(&self) -> (schema: Json)
        ensures
            schema@ == self.spec_input_schema(),
    {
        make_closed_object(
            Json::object()
                .with(
                    "report_id",
                    make_property(
                        "string",
                        "OpenVAS report ID whose contents should be fetched.",
                    ),
                ),
            Json::array().item_str("report_id"),
        )
    }

    fn execute(&self, input: Json) -> (outcome: Result<Invocation, ToolError>)
        ensures
            outcome_view(outcome) == self.spec_execute(input@),
    {
        let report_id = match input.str_at("report_id") {
            Some(report_id) => report_id,
            None => {
                return Err(ToolError::missing_field("report_id"));
            },
        };
        Ok(Invocation::Backend(openvas_get_report(report_id)))
    }
}

} // verus!
