//! The tools that the gateway offers.
//!
//! A tool has a name, a description and a schema of its input. Executing it
//! on an input decides what its invocation amounts to: an output that is
//! known at once, or a request to a backend whose answer is the output.

use vstd::prelude::*;
use vstd::string::*;
use crate::api::{BackendRequest, BackendRequestView};
use crate::json::{Json, JsonValue};
use crate::registry::{lemma_registering_next_of_distinct, names, registered, ToolRegistry};
use crate::text::appended;
use crate::tools::advanced_nmap_tool::{
    AdvancedNmapTool, ComprehensiveScanTool, NetworkDiscoveryTool, QuickScanTool, StealthScanTool,
};
use crate::tools::nmap_normal_scan_tool::NmapOpenPortsTool;
use crate::tools::openvas_create_target_tool::OpenVASCreateTargetTool;
use crate::tools::openvas_create_task_tool::OpenVASCreateTaskTool;
use crate::tools::openvas_get_report_tool::OpenVASGetReportTool;
use crate::tools::openvas_get_version_tool::OpenVASGetVersionTool;
use crate::tools::openvas_list_configs_tool::OpenVASListConfigsTool;
use crate::tools::openvas_start_task_tool::OpenVASStartTaskTool;
use crate::tools::openvas_task_status_tool::OpenVASTaskStatusTool;
use crate::tools::schema::{any_object, make_any_object};
use crate::tools::simple_echo_tool::EchoTool;

pub mod advanced_nmap_tool;
pub mod nmap_normal_scan_tool;
pub mod openvas_create_target_tool;
pub mod openvas_create_task_tool;
pub mod openvas_get_report_tool;
pub mod openvas_get_version_tool;
pub mod openvas_list_configs_tool;
pub mod openvas_start_task_tool;
pub mod openvas_task_status_tool;
pub mod schema;
pub mod simple_echo_tool;

verus! {

/// What the invocation of a tool amounts to.
#[derive(Debug, PartialEq, Eq)]
pub enum Invocation {
    /// The output is known without asking anyone.
    Immediate(Json),
    /// The output is what the backend answers to this request.
    Backend(BackendRequest),
}

/// The content of an [`Invocation`].
pub enum InvocationView {
    Immediate(JsonValue),
    Backend(BackendRequestView),
}

impl View for Invocation {
    type V = InvocationView;

    open spec fn view(&self) -> InvocationView {
        match self {
            Invocation::Immediate(output) => InvocationView::Immediate(output@),
            Invocation::Backend(request) => InvocationView::Backend(request@),
        }
    }
}

/// Why a tool could not be executed.
#[derive(Debug, Clone, PartialEq, Eq)]
pub struct ToolError {
    pub message: String,
}

/// The message that reports a missing input field.
pub open spec fn missing_field(field: Seq<char>) -> Seq<char> {
    "missing required field `"@ + field + "`"@
}

impl ToolError {
    /// The error of an input that lacks the text field `field`.
    pub fn missing_field(field: &str) -> (error: ToolError)
        ensures
            error.message@ == missing_field(field@),
    {
        let mut message = appended("missing required field `", field);
        message.append("`");
        ToolError { message }
    }
}

/// The content of what executing a tool gives: the invocation, or the
/// message of the error.
pub open spec fn outcome_view(outcome: Result<Invocation, ToolError>) -> Result<
    InvocationView,
    Seq<char>,
> {
    match outcome {
        Ok(invocation) => Ok(invocation@),
        Err(error) => Err(error.message@),
    }
}

/// The schema of a tool that takes any JSON object.
pub open spec fn default_schema() -> JsonValue {
    any_object("Arbitrary JSON object"@)
}

/// The schema for a tool that has nothing to say about its input: any JSON
/// object is accepted.
pub fn default_input_schema() -> (schema: Json)
    ensures
        schema@ == default_schema(),
{
    make_any_object("Arbitrary JSON object")
}

/// A capability that the gateway offers under a name.
pub trait Tool {
    /// The name under which the tool is registered and called.
    spec fn spec_name(&self) -> Seq<char>;

    /// What the tool does, for a human reader.
    spec fn spec_description(&self) -> Seq<char>;

    /// The shape of the input that the tool takes, as a JSON schema.
    spec fn spec_input_schema(&self) -> JsonValue;

    /// What executing the tool on `input` gives.
    spec fn spec_execute(&self, input: JsonValue) -> Result<InvocationView, Seq<char>>;

    fn name(&self) -> (name: &'static str)
        ensures
            name@ == self.spec_name(),
    ;

    fn description(&self) -> (description: &'static str)
        ensures
            description@ == self.spec_description(),
    ;

    fn input_schema(&self) -> (schema: Json)
        ensures
            schema@ == self.spec_input_schema(),
    ;

    /// Decides what invoking the tool on `input` amounts to, or why it
    /// cannot be invoked.
    fn execute(&self, input: Json) -> (outcome: Result<Invocation, ToolError>)
        ensures
            outcome_view(outcome) == self.spec_execute(input@),
    ;
}

/// One of the tools that come with the gateway.
#[derive(Debug, Clone, Copy, PartialEq, Eq)]
pub enum BuiltinTool {
    Echo(EchoTool),
    NmapOpenPorts(NmapOpenPortsTool),
    AdvancedNmap(AdvancedNmapTool),
    QuickScan(QuickScanTool),
    StealthScan(StealthScanTool),
    ComprehensiveScan(ComprehensiveScanTool),
    NetworkDiscovery(NetworkDiscoveryTool),
    OpenVASGetVersion(OpenVASGetVersionTool),
    OpenVASListConfigs(OpenVASListConfigsTool),
    OpenVASCreateTarget(OpenVASCreateTargetTool),
    OpenVASCreateTask(OpenVASCreateTaskTool),
    OpenVASStartTask(OpenVASStartTaskTool),
    OpenVASTaskStatus(OpenVASTaskStatusTool),
    OpenVASGetReport(OpenVASGetReportTool),
}

impl Tool for BuiltinTool {
    open spec fn spec_name(&self) -> Seq<char> {
        match self {
            BuiltinTool::Echo(tool) => tool.spec_name(),
            BuiltinTool::NmapOpenPorts(tool) => tool.spec_name(),
            BuiltinTool::AdvancedNmap(tool) => tool.spec_name(),
            BuiltinTool::QuickScan(tool) => tool.spec_name(),
            BuiltinTool::StealthScan(tool) => tool.spec_name(),
            BuiltinTool::ComprehensiveScan(tool) => tool.spec_name(),
            BuiltinTool::NetworkDiscovery(tool) => tool.spec_name(),
            BuiltinTool::OpenVASGetVersion(tool) => tool.spec_name(),
            BuiltinTool::OpenVASListConfigs(tool) => tool.spec_name(),
            BuiltinTool::OpenVASCreateTarget(tool) => tool.spec_name(),
            BuiltinTool::OpenVASCreateTask(tool) => tool.spec_name(),
            BuiltinTool::OpenVASStartTask(tool) => tool.spec_name(),
            BuiltinTool::OpenVASTaskStatus(tool) => tool.spec_name(),
            BuiltinTool::OpenVASGetReport(tool) => tool.spec_name(),
        }
    }

    open spec fn spec_description(&self) -> Seq<char> {
        match self {
            BuiltinTool::Echo(tool) => tool.spec_description(),
            BuiltinTool::NmapOpenPorts(tool) => tool.spec_description(),
            BuiltinTool::AdvancedNmap(tool) => tool.spec_description(),
            BuiltinTool::QuickScan(tool) => tool.spec_description(),
            BuiltinTool::StealthScan(tool) => tool.spec_description(),
            BuiltinTool::ComprehensiveScan(tool) => tool.spec_description(),
            BuiltinTool::NetworkDiscovery(tool) => tool.spec_description(),
            BuiltinTool::OpenVASGetVersion(tool) => tool.spec_description(),
            BuiltinTool::OpenVASListConfigs(tool) => tool.spec_description(),
            BuiltinTool::OpenVASCreateTarget(tool) => tool.spec_description(),
            BuiltinTool::OpenVASCreateTask(tool) => tool.spec_description(),
            BuiltinTool::OpenVASStartTask(tool) => tool.spec_description(),
            BuiltinTool::OpenVASTaskStatus(tool) => tool.spec_description(),
            BuiltinTool::OpenVASGetReport(tool) => tool.spec_description(),
        }
    }

    open spec fn spec_input_schema(&self) -> JsonValue {
        match self {
            BuiltinTool::Echo(tool) => tool.spec_input_schema(),
            BuiltinTool::NmapOpenPorts(tool) => tool.spec_input_schema(),
            BuiltinTool::AdvancedNmap(tool) => tool.spec_input_schema(),
            BuiltinTool::QuickScan(tool) => tool.spec_input_schema(),
            BuiltinTool::StealthScan(tool) => tool.spec_input_schema(),
            BuiltinTool::ComprehensiveScan(tool) => tool.spec_input_schema(),
            BuiltinTool::NetworkDiscovery(tool) => tool.spec_input_schema(),
            BuiltinTool::OpenVASGetVersion(tool) => tool.spec_input_schema(),
            BuiltinTool::OpenVASListConfigs(tool) => tool.spec_input_schema(),
            BuiltinTool::OpenVASCreateTarget(tool) => tool.spec_input_schema(),
            BuiltinTool::OpenVASCreateTask(tool) => tool.spec_input_schema(),
            BuiltinTool::OpenVASStartTask(tool) => tool.spec_input_schema(),
            BuiltinTool::OpenVASTaskStatus(tool) => tool.spec_input_schema(),
            BuiltinTool::OpenVASGetReport(tool) => tool.spec_input_schema(),
        }
    }

    open spec fn spec_execute(&self, input: JsonValue) -> Result<InvocationView, Seq<char>> {
        match self {
            BuiltinTool::Echo(tool) => tool.spec_execute(input),
            BuiltinTool::NmapOpenPorts(tool) => tool.spec_execute(input),
            BuiltinTool::AdvancedNmap(tool) => tool.spec_execute(input),
            BuiltinTool::QuickScan(tool) => tool.spec_execute(input),
            BuiltinTool::StealthScan(tool) => tool.spec_execute(input),
            BuiltinTool::ComprehensiveScan(tool) => tool.spec_execute(input),
            BuiltinTool::NetworkDiscovery(tool) => tool.spec_execute(input),
            BuiltinTool::OpenVASGetVersion(tool) => tool.spec_execute(input),
            BuiltinTool::OpenVASListConfigs(tool) => tool.spec_execute(input),
            BuiltinTool::OpenVASCreateTarget(tool) => tool.spec_execute(input),
            BuiltinTool::OpenVASCreateTask(tool) => tool.spec_execute(input),
            BuiltinTool::OpenVASStartTask(tool) => tool.spec_execute(input),
            BuiltinTool::OpenVASTaskStatus(tool) => tool.spec_execute(input),
            BuiltinTool::OpenVASGetReport(tool) => tool.spec_execute(input),
        }
    }

    fn name(&self) -> (name: &'static str)
        ensures
            name@ == self.spec_name(),
    {
        match self {
            BuiltinTool::Echo(tool) => tool.name(),
            BuiltinTool::NmapOpenPorts(tool) => tool.name(),
            BuiltinTool::AdvancedNmap(tool) => tool.name(),
            BuiltinTool::QuickScan(tool) => tool.name(),
            BuiltinTool::StealthScan(tool) => tool.name(),
            BuiltinTool::ComprehensiveScan(tool) => tool.name(),
            BuiltinTool::NetworkDiscovery(tool) => tool.name(),
            BuiltinTool::OpenVASGetVersion(tool) => tool.name(),
            BuiltinTool::OpenVASListConfigs(tool) => tool.name(),
            BuiltinTool::OpenVASCreateTarget(tool) => tool.name(),
            BuiltinTool::OpenVASCreateTask(tool) => tool.name(),
            BuiltinTool::OpenVASStartTask(tool) => tool.name(),
            BuiltinTool::OpenVASTaskStatus(tool) => tool.name(),
            BuiltinTool::OpenVASGetReport(tool) => tool.name(),
        }
    }

    fn description(&self) -> (description: &'static str)
        ensures
            description@ == self.spec_description(),
    {
        match self {
            BuiltinTool::Echo(tool) => tool.description(),
            BuiltinTool::NmapOpenPorts(tool) => tool.description(),
            BuiltinTool::AdvancedNmap(tool) => tool.description(),
            BuiltinTool::QuickScan(tool) => tool.description(),
            BuiltinTool::StealthScan(tool) => tool.description(),
            BuiltinTool::ComprehensiveScan(tool) => tool.description(),
            BuiltinTool::NetworkDiscovery(tool) => tool.description(),
            BuiltinTool::OpenVASGetVersion(tool) => tool.description(),
            BuiltinTool::OpenVASListConfigs(tool) => tool.description(),
            BuiltinTool::OpenVASCreateTarget(tool) => tool.description(),
            BuiltinTool::OpenVASCreateTask(tool) => tool.description(),
            BuiltinTool::OpenVASStartTask(tool) => tool.description(),
            BuiltinTool::OpenVASTaskStatus(tool) => tool.description(),
            BuiltinTool::OpenVASGetReport(tool) => tool.description(),
        }
    }

    fn input_schema(&self) -> (schema: Json)
        ensures
            schema@ == self.spec_input_schema(),
    {
        match self {
            BuiltinTool::Echo(tool) => tool.input_schema(),
            BuiltinTool::NmapOpenPorts(tool) => tool.input_schema(),
            BuiltinTool::AdvancedNmap(tool) => tool.input_schema(),
            BuiltinTool::QuickScan(tool) => tool.input_schema(),
            BuiltinTool::StealthScan(tool) => tool.input_schema(),
            BuiltinTool::ComprehensiveScan(tool) => tool.input_schema(),
            BuiltinTool::NetworkDiscovery(tool) => tool.input_schema(),
            BuiltinTool::OpenVASGetVersion(tool) => tool.input_schema(),
            BuiltinTool::OpenVASListConfigs(tool) => tool.input_schema(),
            BuiltinTool::OpenVASCreateTarget(tool) => tool.input_schema(),
            BuiltinTool::OpenVASCreateTask(tool) => tool.input_schema(),
            BuiltinTool::OpenVASStartTask(tool) => tool.input_schema(),
            BuiltinTool::OpenVASTaskStatus(tool) => tool.input_schema(),
            BuiltinTool::OpenVASGetReport(tool) => tool.input_schema(),
        }
    }

    fn execute(&self, input: Json) -> (outcome: Result<Invocation, ToolError>)
        ensures
            outcome_view(outcome) == self.spec_execute(input@),
    {
        match self {
            BuiltinTool::Echo(tool) => tool.execute(input),
            BuiltinTool::NmapOpenPorts(tool) => tool.execute(input),
            BuiltinTool::AdvancedNmap(tool) => tool.execute(input),
            BuiltinTool::QuickScan(tool) => tool.execute(input),
            BuiltinTool::StealthScan(tool) => tool.execute(input),
            BuiltinTool::ComprehensiveScan(tool) => tool.execute(input),
            BuiltinTool::NetworkDiscovery(tool) => tool.execute(input),
            BuiltinTool::OpenVASGetVersion(tool) => tool.execute(input),
            BuiltinTool::OpenVASListConfigs(tool) => tool.execute(input),
            BuiltinTool::OpenVASCreateTarget(tool) => tool.execute(input),
            BuiltinTool::OpenVASCreateTask(tool) => tool.execute(input),
            BuiltinTool::OpenVASStartTask(tool) => tool.execute(input),
            BuiltinTool::OpenVASTaskStatus(tool) => tool.execute(input),
            BuiltinTool::OpenVASGetReport(tool) => tool.execute(input),
        }
    }
}

/// The tools that the gateway registers at its start, in the order in which
/// it registers them.
pub open spec fn builtin_tools() -> Seq<BuiltinTool> {
    seq![
        BuiltinTool::Echo(EchoTool),
        BuiltinTool::NmapOpenPorts(NmapOpenPortsTool),
        BuiltinTool::AdvancedNmap(AdvancedNmapTool),
        BuiltinTool::QuickScan(QuickScanTool),
        BuiltinTool::StealthScan(StealthScanTool),
        BuiltinTool::OpenVASGetVersion(OpenVASGetVersionTool),
        BuiltinTool::OpenVASListConfigs(OpenVASListConfigsTool),
        BuiltinTool::OpenVASCreateTarget(OpenVASCreateTargetTool),
        BuiltinTool::OpenVASCreateTask(OpenVASCreateTaskTool),
        BuiltinTool::OpenVASStartTask(OpenVASStartTaskTool),
        BuiltinTool::OpenVASTaskStatus(OpenVASTaskStatusTool),
        BuiltinTool::OpenVASGetReport(OpenVASGetReportTool),
    ]
}

/// `tools` once every tool of the gateway is registered.
pub open spec fn with_builtin_tools(tools: Seq<BuiltinTool>) -> Seq<BuiltinTool> {
    let tools = registered(tools, BuiltinTool::Echo(EchoTool));
    let tools = registered(tools, BuiltinTool::NmapOpenPorts(NmapOpenPortsTool));
    let tools = registered(tools, BuiltinTool::AdvancedNmap(AdvancedNmapTool));
    let tools = registered(tools, BuiltinTool::QuickScan(QuickScanTool));
    let tools = registered(tools, BuiltinTool::StealthScan(StealthScanTool));
    let tools = registered(tools, BuiltinTool::OpenVASGetVersion(OpenVASGetVersionTool));
    let tools = registered(tools, BuiltinTool::OpenVASListConfigs(OpenVASListConfigsTool));
    let tools = registered(tools, BuiltinTool::OpenVASCreateTarget(OpenVASCreateTargetTool));
    let tools = registered(tools, BuiltinTool::OpenVASCreateTask(OpenVASCreateTaskTool));
    let tools = registered(tools, BuiltinTool::OpenVASStartTask(OpenVASStartTaskTool));
    let tools = registered(tools, BuiltinTool::OpenVASTaskStatus(OpenVASTaskStatusTool));
    let tools = registered(tools, BuiltinTool::OpenVASGetReport(OpenVASGetReportTool));
    tools
}

/// Registers every tool that the gateway exposes.
pub fn register_all_tools(registry: &mut ToolRegistry<BuiltinTool>)
    ensures
        final(registry)@ == with_builtin_tools(old(registry)@),
        final(registry).wf(),
{
    registry.register(BuiltinTool::Echo(EchoTool));
    registry.register(BuiltinTool::NmapOpenPorts(NmapOpenPortsTool));
    registry.register(BuiltinTool::AdvancedNmap(AdvancedNmapTool));
    registry.register(BuiltinTool::QuickScan(QuickScanTool));
    registry.register(BuiltinTool::StealthScan(StealthScanTool));
    registry.register(BuiltinTool::OpenVASGetVersion(OpenVASGetVersionTool));
    registry.register(BuiltinTool::OpenVASListConfigs(OpenVASListConfigsTool));
    registry.register(BuiltinTool::OpenVASCreateTarget(OpenVASCreateTargetTool));
    registry.register(BuiltinTool::OpenVASCreateTask(OpenVASCreateTaskTool));
    registry.register(BuiltinTool::OpenVASStartTask(OpenVASStartTaskTool));
    registry.register(BuiltinTool::OpenVASTaskStatus(OpenVASTaskStatusTool));
    registry.register(BuiltinTool::OpenVASGetReport(OpenVASGetReportTool));
}

/// No two tools of the gateway share a name.
pub proof fn lemma_builtin_names_differ()
    ensures
        names(builtin_tools()).no_duplicates(),
{
    reveal_strlit("echo");
    reveal_strlit("nmap_open_ports");
    reveal_strlit("advanced_nmap_scan");
    reveal_strlit("quick_scan");
    reveal_strlit("stealth_scan");
    reveal_strlit("openvas_get_version");
    reveal_strlit("openvas_list_scan_configs");
    reveal_strlit("openvas_create_target");
    reveal_strlit("openvas_create_task");
    reveal_strlit("openvas_start_task");
    reveal_strlit("openvas_task_status");
    reveal_strlit("openvas_get_report");
    let listed = names(builtin_tools());
    assert(listed.len() == 12);
    assert(listed[0].len() == 4);
    assert(listed[1].len() == 15);
    assert(listed[2].len() == 18);
    assert(listed[3].len() == 10);
    assert(listed[4].len() == 12);
    assert(listed[5].len() == 19);
    assert(listed[6].len() == 25);
    assert(listed[7].len() == 21);
    assert(listed[8].len() == 19);
    assert(listed[9].len() == 18);
    assert(listed[10].len() == 19);
    assert(listed[11].len() == 18);
    assert(listed[2][0] == 'a' && listed[2][8] == '_');
    assert(listed[5][0] == 'o' && listed[5][8] == 'g');
    assert(listed[8][0] == 'o' && listed[8][8] == 'c');
    assert(listed[9][0] == 'o' && listed[9][8] == 's');
    assert(listed[10][0] == 'o' && listed[10][8] == 't');
    assert(listed[11][0] == 'o' && listed[11][8] == 'g');
}

/// Registering the tools of the gateway in an empty registry leaves
/// exactly these tools in it, in the order in which they are registered.
pub proof fn lemma_fresh_registry_holds_the_builtin_tools()
    ensures
        with_builtin_tools(Seq::empty()) == builtin_tools(),
{
    let all = builtin_tools();
    lemma_builtin_names_differ();
    assert(all.take(0) =~= Seq::<BuiltinTool>::empty());
    lemma_registering_next_of_distinct(all, 0);
    lemma_registering_next_of_distinct(all, 1);
    lemma_registering_next_of_distinct(all, 2);
    lemma_registering_next_of_distinct(all, 3);
    lemma_registering_next_of_distinct(all, 4);
    lemma_registering_next_of_distinct(all, 5);
    lemma_registering_next_of_distinct(all, 6);
    lemma_registering_next_of_distinct(all, 7);
    lemma_registering_next_of_distinct(all, 8);
    lemma_registering_next_of_distinct(all, 9);
    lemma_registering_next_of_distinct(all, 10);
    lemma_registering_next_of_distinct(all, 11);
    assert(all.take(12) =~= all);
}

} // verus!
