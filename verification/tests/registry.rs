use chatbot::api::{BackendRequest, HttpMethod};
use chatbot::json::Json;
use chatbot::registry::{CallError, ToolRegistry};
use chatbot::tools::advanced_nmap_tool::{ComprehensiveScanTool, QuickScanTool};
use chatbot::tools::simple_echo_tool::EchoTool;
use chatbot::tools::{register_all_tools, BuiltinTool, Invocation, Tool, ToolError};

fn s(text: &str) -> String {
    text.to_string()
}

fn object(members: Vec<(&str, Json)>) -> Json {
    Json::Object(members.into_iter().map(|(k, v)| (s(k), v)).collect())
}

fn listed_names(registry: &ToolRegistry<BuiltinTool>) -> Vec<String> {
    registry.list().iter().map(|entry| entry.str_at("name").unwrap().to_string()).collect()
}

#[test]
fn a_new_registry_is_empty() {
    let registry: ToolRegistry<BuiltinTool> = ToolRegistry::new();
    assert_eq!(registry.len(), 0);
    assert!(registry.list().is_empty());
    assert!(!registry.contains("echo"));
}

#[test]
fn the_gateway_registers_twelve_tools() {
    let mut registry = ToolRegistry::new();
    register_all_tools(&mut registry);
    assert_eq!(
        listed_names(&registry),
        vec![
            "echo",
            "nmap_open_ports",
            "advanced_nmap_scan",
            "quick_scan",
            "stealth_scan",
            "openvas_get_version",
            "openvas_list_scan_configs",
            "openvas_create_target",
            "openvas_create_task",
            "openvas_start_task",
            "openvas_task_status",
            "openvas_get_report",
        ]
    );
    assert_eq!(registry.len(), 12);
    assert!(registry.contains("stealth_scan"));
    assert!(!registry.contains("comprehensive_scan"));
    assert!(!registry.contains("network_discovery"));
}

#[test]
fn listed_names_are_the_registered_names_without_duplicates() {
    let mut registry = ToolRegistry::new();
    register_all_tools(&mut registry);
    register_all_tools(&mut registry);
    registry.register(BuiltinTool::ComprehensiveScan(ComprehensiveScanTool));
    registry.register(BuiltinTool::Echo(EchoTool));
    let names = listed_names(&registry);
    assert_eq!(names.len(), 13);
    let mut unique = names.clone();
    unique.sort();
    unique.dedup();
    assert_eq!(unique.len(), names.len());
    for name in &names {
        assert!(registry.contains(name));
    }
    assert!(names.contains(&s("comprehensive_scan")));
}

#[test]
fn listing_describes_each_tool() {
    let mut registry = ToolRegistry::new();
    registry.register(BuiltinTool::QuickScan(QuickScanTool));
    registry.register(BuiltinTool::Echo(EchoTool));
    assert_eq!(
        registry.list(),
        vec![
            object(vec![
                ("name", Json::Str(s("quick_scan"))),
                ("description", Json::Str(s(QuickScanTool.description()))),
                ("inputSchema", QuickScanTool.input_schema()),
            ]),
            object(vec![
                ("name", Json::Str(s("echo"))),
                ("description", Json::Str(s("Echoes back the given JSON input."))),
                (
                    "inputSchema",
                    object(vec![
                        ("type", Json::Str(s("object"))),
                        ("description", Json::Str(s("Any JSON object to echo back."))),
                    ])
                ),
            ]),
        ]
    );
}

#[test]
fn registering_a_taken_name_adds_no_second_entry() {
    let mut registry = ToolRegistry::new();
    registry.register(BuiltinTool::Echo(EchoTool));
    registry.register(BuiltinTool::QuickScan(QuickScanTool));
    registry.register(BuiltinTool::Echo(EchoTool));
    assert_eq!(registry.len(), 2);
    assert_eq!(listed_names(&registry), vec!["echo", "quick_scan"]);
    assert_eq!(
        registry.call("echo", Json::Bool(true)),
        Ok(Invocation::Immediate(object(vec![("echo", Json::Bool(true))])))
    );
}

#[test]
fn calling_an_unknown_name_fails_with_unknown_tool() {
    let mut registry = ToolRegistry::new();
    register_all_tools(&mut registry);
    let outcome = registry.call("no_such_tool", Json::Null);
    assert_eq!(outcome, Err(CallError::UnknownTool(s("no_such_tool"))));
    assert_eq!(outcome.unwrap_err().message(), "Unknown tool: no_such_tool");
    assert_eq!(
        registry.call("Echo", Json::Null),
        Err(CallError::UnknownTool(s("Echo"))),
        "names are matched exactly"
    );
    let empty: ToolRegistry<BuiltinTool> = ToolRegistry::new();
    assert_eq!(empty.call("echo", Json::Null), Err(CallError::UnknownTool(s("echo"))));
}

#[test]
fn a_failing_tool_is_told_apart_from_an_unknown_one() {
    let mut registry = ToolRegistry::new();
    register_all_tools(&mut registry);
    let outcome = registry.call("quick_scan", object(vec![]));
    assert_eq!(
        outcome,
        Err(CallError::Failed(ToolError { message: s("missing required field `target`") }))
    );
    assert_eq!(outcome.unwrap_err().message(), "missing required field `target`");
}

#[test]
fn calling_a_tool_gives_its_invocation() {
    let mut registry = ToolRegistry::new();
    register_all_tools(&mut registry);
    assert_eq!(
        registry.call("echo", Json::Bool(false)),
        Ok(Invocation::Immediate(object(vec![("echo", Json::Bool(false))])))
    );
    assert_eq!(
        registry.call("openvas_get_version", Json::Null),
        Ok(Invocation::Backend(BackendRequest {
            method: HttpMethod::Get,
            url: s("http://127.0.0.1:8081/openvas/version"),
            body: None,
        }))
    );
}
