use chatbot::api::{BackendRequest, HttpMethod};
use chatbot::json::Json;
use chatbot::prompts::list_scan_config_prompts::{get_prompt, list_prompts};
use chatbot::protocol::{
    complete_call, err_resp, failure, handle_message, handle_request, ok, Dispatch, ErrorKind,
    read_name, PendingCall, RpcError, RpcRequest, RpcResponse, ToolCallParams, INVALID_PARAMS,
    METHOD_NOT_FOUND, TOOL_ERROR,
};
use chatbot::registry::ToolRegistry;
use chatbot::tools::{register_all_tools, BuiltinTool};

fn s(text: &str) -> String {
    text.to_string()
}

fn text(value: &str) -> Json {
    Json::Str(s(value))
}

fn number(value: &str) -> Json {
    Json::Number(s(value))
}

fn object(members: Vec<(&str, Json)>) -> Json {
    Json::Object(members.into_iter().map(|(k, v)| (s(k), v)).collect())
}

fn gateway() -> ToolRegistry<BuiltinTool> {
    let mut registry = ToolRegistry::new();
    register_all_tools(&mut registry);
    registry
}

fn message(id: Option<Json>, method: &str, params: Option<Json>) -> Json {
    let mut members = vec![("jsonrpc", text("2.0"))];
    if let Some(id) = id {
        members.push(("id", id));
    }
    members.push(("method", text(method)));
    if let Some(params) = params {
        members.push(("params", params));
    }
    object(members)
}

fn success(id: Json, result: Json) -> Option<Dispatch> {
    Some(Dispatch::Reply(RpcResponse { jsonrpc: "2.0", id, result: Some(result), error: None }))
}

fn refused(id: Json, code: i32, message: &str) -> Option<Dispatch> {
    Some(Dispatch::Reply(RpcResponse {
        jsonrpc: "2.0",
        id,
        result: None,
        error: Some(RpcError { code, message: s(message) }),
    }))
}

#[test]
fn error_codes() {
    assert_eq!(METHOD_NOT_FOUND, -32601);
    assert_eq!(INVALID_PARAMS, -32602);
    assert_eq!(TOOL_ERROR, -32000);
}

#[test]
fn every_kind_of_error_has_its_code_and_its_words() {
    let kinds = [
        (ErrorKind::UnknownMethod, -32601, "Method not found: "),
        (ErrorKind::InvalidParams, -32602, "Invalid params: "),
        (ErrorKind::UnknownCapability, -32000, "Tool error: "),
        (ErrorKind::CapabilityExecutionFailure, -32000, "Tool error: "),
        (ErrorKind::UnknownPromptName, -32601, "Prompt not found: "),
    ];
    for (kind, code, prefix) in kinds {
        assert_eq!(kind.code(), code);
        assert_eq!(kind.prefix(), prefix);
        assert_eq!(
            failure(number("1"), kind, "x"),
            RpcResponse {
                jsonrpc: "2.0",
                id: number("1"),
                result: None,
                error: Some(RpcError { code, message: format!("{}x", prefix) }),
            }
        );
    }
}

#[test]
fn responses_hold_a_result_or_an_error() {
    assert_eq!(
        ok(number("1"), Json::Null),
        RpcResponse { jsonrpc: "2.0", id: number("1"), result: Some(Json::Null), error: None }
    );
    assert_eq!(
        err_resp(text("a"), -1, s("bad")),
        RpcResponse {
            jsonrpc: "2.0",
            id: text("a"),
            result: None,
            error: Some(RpcError { code: -1, message: s("bad") }),
        }
    );
}

#[test]
fn responses_are_written_with_exactly_one_of_result_and_error() {
    assert_eq!(
        ok(number("1"), object(vec![("x", Json::Null)])).to_json(),
        object(vec![
            ("jsonrpc", text("2.0")),
            ("id", number("1")),
            ("result", object(vec![("x", Json::Null)])),
        ])
    );
    assert_eq!(
        err_resp(text("a"), -32601, s("Method not found: x")).to_json(),
        object(vec![
            ("jsonrpc", text("2.0")),
            ("id", text("a")),
            (
                "error",
                object(vec![("code", number("-32601")), ("message", text("Method not found: x"))])
            ),
        ])
    );
}

#[test]
fn reading_a_message() {
    assert_eq!(
        RpcRequest::from_json(&message(Some(number("7")), "tools/list", None)),
        Some(RpcRequest { id: Some(number("7")), method: s("tools/list"), params: Json::Null })
    );
    assert_eq!(
        RpcRequest::from_json(&message(None, "x", Some(object(vec![])))),
        Some(RpcRequest { id: None, method: s("x"), params: object(vec![]) })
    );
    assert_eq!(
        RpcRequest::from_json(&message(Some(Json::Null), "x", None)),
        Some(RpcRequest { id: None, method: s("x"), params: Json::Null }),
        "a null identifier counts as none"
    );
    assert_eq!(RpcRequest::from_json(&object(vec![("id", number("1"))])), None);
    assert_eq!(
        RpcRequest::from_json(&object(vec![("id", number("1")), ("method", number("5"))])),
        None
    );
    assert_eq!(RpcRequest::from_json(&Json::Null), None);
    assert_eq!(RpcRequest::from_json(&Json::Array(vec![text("method")])), None);
    assert_eq!(RpcRequest::from_json(&text("initialize")), None);
}

#[test]
fn reading_call_parameters() {
    assert_eq!(
        ToolCallParams::from_json(&object(vec![("name", text("echo")), ("input", number("1"))])),
        Ok(ToolCallParams { name: s("echo"), input: number("1") })
    );
    assert_eq!(
        ToolCallParams::from_json(&object(vec![("name", text("echo"))])),
        Ok(ToolCallParams { name: s("echo"), input: Json::Null })
    );
    assert_eq!(ToolCallParams::from_json(&object(vec![])), Err(s("missing field `name`")));
    assert_eq!(ToolCallParams::from_json(&Json::Null), Err(s("missing field `name`")));
    assert_eq!(
        ToolCallParams::from_json(&object(vec![("name", number("3"))])),
        Err(s("invalid type for field `name`: expected a string"))
    );
}

#[test]
fn reading_a_name() {
    assert_eq!(read_name(&object(vec![("name", text("x"))])), Ok(s("x")));
    assert_eq!(read_name(&object(vec![("name", text(""))])), Ok(s("")));
    assert_eq!(
        read_name(&object(vec![("name", text("old")), ("name", text("new"))])),
        Ok(s("new"))
    );
    assert_eq!(read_name(&object(vec![("Name", text("x"))])), Err(s("missing field `name`")));
    assert_eq!(
        read_name(&object(vec![("name", Json::Array(vec![text("x")]))])),
        Err(s("invalid type for field `name`: expected a string"))
    );
}

#[test]
fn notifications_get_no_response() {
    let registry = gateway();
    for method in [
        "initialize",
        "tools/list",
        "tools/call",
        "prompts/list",
        "prompts/get",
        "notifications/initialized",
        "no/such/method",
        "",
    ] {
        assert_eq!(handle_message(&registry, &message(None, method, None)), None);
        assert_eq!(
            handle_message(
                &registry,
                &message(None, method, Some(object(vec![("name", text("echo"))])))
            ),
            None
        );
        assert_eq!(handle_message(&registry, &message(Some(Json::Null), method, None)), None);
    }
}

#[test]
fn what_is_no_message_gets_no_response() {
    let registry = gateway();
    assert_eq!(handle_message(&registry, &Json::Null), None);
    assert_eq!(handle_message(&registry, &number("1")), None);
    assert_eq!(handle_message(&registry, &Json::Array(vec![])), None);
    assert_eq!(handle_message(&registry, &object(vec![("id", number("1"))])), None);
    assert_eq!(
        handle_message(&registry, &object(vec![("id", number("1")), ("method", Json::Bool(true))])),
        None
    );
}

#[test]
fn handshake_echoes_the_protocol_version() {
    let registry = gateway();
    let result = |version: &str| {
        object(vec![
            ("protocolVersion", text(version)),
            (
                "capabilities",
                object(vec![
                    ("tools", object(vec![("listChanged", Json::Bool(true))])),
                    ("prompts", object(vec![("listChanged", Json::Bool(true))])),
                ]),
            ),
            (
                "serverInfo",
                object(vec![("name", text("hacker_agent")), ("version", text("0.1.0"))]),
            ),
        ])
    };
    assert_eq!(
        handle_message(
            &registry,
            &message(
                Some(number("0")),
                "initialize",
                Some(object(vec![("protocolVersion", text("2025-06-18"))]))
            )
        ),
        success(number("0"), result("2025-06-18"))
    );
    assert_eq!(
        handle_message(&registry, &message(Some(number("0")), "initialize", None)),
        success(number("0"), result("2024-11-05"))
    );
    assert_eq!(
        handle_message(
            &registry,
            &message(
                Some(number("0")),
                "initialize",
                Some(object(vec![("protocolVersion", number("1"))]))
            )
        ),
        success(number("0"), result("2024-11-05"))
    );
}

#[test]
fn tools_are_listed() {
    let registry = gateway();
    assert_eq!(
        handle_message(&registry, &message(Some(text("x")), "tools/list", None)),
        success(text("x"), object(vec![("tools", Json::Array(registry.list()))]))
    );
    let empty: ToolRegistry<BuiltinTool> = ToolRegistry::new();
    assert_eq!(
        handle_message(&empty, &message(Some(text("x")), "tools/list", None)),
        success(text("x"), object(vec![("tools", Json::Array(vec![]))]))
    );
}

#[test]
fn a_tool_without_a_backend_is_answered_at_once() {
    let registry = gateway();
    let params = object(vec![("name", text("echo")), ("input", object(vec![("a", number("1"))]))]);
    assert_eq!(
        handle_message(&registry, &message(Some(number("3")), "tools/call", Some(params))),
        success(
            number("3"),
            object(vec![("output", object(vec![("echo", object(vec![("a", number("1"))]))]))])
        )
    );
}

#[test]
fn a_tool_with_a_backend_waits_for_its_answer() {
    let registry = gateway();
    let params = object(vec![
        ("name", text("nmap_open_ports")),
        ("input", object(vec![("target", text("h"))])),
    ]);
    assert_eq!(
        handle_message(&registry, &message(Some(number("4")), "tools/call", Some(params))),
        Some(Dispatch::Backend(PendingCall {
            id: number("4"),
            request: BackendRequest {
                method: HttpMethod::Post,
                url: s("http://127.0.0.1:8080/scan-open-ports"),
                body: Some(object(vec![("target", text("h"))])),
            },
        }))
    );
}

#[test]
fn the_answer_of_the_backend_becomes_the_output() {
    assert_eq!(
        complete_call(number("4"), Ok(object(vec![("ports", Json::Array(vec![]))]))),
        RpcResponse {
            jsonrpc: "2.0",
            id: number("4"),
            result: Some(object(vec![("output", object(vec![("ports", Json::Array(vec![]))]))])),
            error: None,
        }
    );
    assert_eq!(
        complete_call(number("4"), Err(s("HTTP status server error (500)"))),
        RpcResponse {
            jsonrpc: "2.0",
            id: number("4"),
            result: None,
            error: Some(RpcError {
                code: -32000,
                message: s("Tool error: HTTP status server error (500)"),
            }),
        }
    );
}

#[test]
fn missing_or_mistyped_name_is_invalid_params() {
    let registry = gateway();
    assert_eq!(
        handle_message(&registry, &message(Some(number("1")), "tools/call", None)),
        refused(number("1"), -32602, "Invalid params: missing field `name`")
    );
    assert_eq!(
        handle_message(
            &registry,
            &message(Some(number("1")), "tools/call", Some(object(vec![("input", Json::Null)])))
        ),
        refused(number("1"), -32602, "Invalid params: missing field `name`")
    );
    assert_eq!(
        handle_message(
            &registry,
            &message(Some(number("1")), "tools/call", Some(object(vec![("name", Json::Null)])))
        ),
        refused(
            number("1"),
            -32602,
            "Invalid params: invalid type for field `name`: expected a string"
        )
    );
    assert_eq!(
        handle_message(&registry, &message(Some(number("1")), "prompts/get", None)),
        refused(number("1"), -32602, "Invalid params: missing field `name`")
    );
}

#[test]
fn an_unregistered_tool_is_a_tool_error() {
    let registry = gateway();
    assert_eq!(
        handle_message(
            &registry,
            &message(
                Some(number("9")),
                "tools/call",
                Some(object(vec![("name", text("format_disk"))]))
            )
        ),
        refused(number("9"), -32000, "Tool error: Unknown tool: format_disk")
    );
    assert_eq!(
        handle_message(
            &registry,
            &message(
                Some(number("9")),
                "tools/call",
                Some(object(vec![("name", text("comprehensive_scan"))]))
            )
        ),
        refused(number("9"), -32000, "Tool error: Unknown tool: comprehensive_scan")
    );
}

#[test]
fn a_tool_that_cannot_be_executed_is_a_tool_error() {
    let registry = gateway();
    assert_eq!(
        handle_message(
            &registry,
            &message(
                Some(number("9")),
                "tools/call",
                Some(object(vec![("name", text("stealth_scan")), ("input", object(vec![]))]))
            )
        ),
        refused(number("9"), -32000, "Tool error: missing required field `target`")
    );
}

#[test]
fn prompts_are_listed() {
    let registry = gateway();
    let listed: Vec<Json> = list_prompts().iter().map(|p| p.to_json()).collect();
    assert_eq!(listed.len(), 1);
    assert_eq!(
        handle_message(&registry, &message(Some(number("2")), "prompts/list", None)),
        success(number("2"), object(vec![("prompts", Json::Array(listed))]))
    );
}

#[test]
fn a_listed_prompt_is_served() {
    let registry = gateway();
    for prompt in list_prompts() {
        let params = object(vec![("name", text(&prompt.name)), ("arguments", object(vec![]))]);
        assert_eq!(
            handle_message(&registry, &message(Some(number("2")), "prompts/get", Some(params))),
            success(
                number("2"),
                object(vec![("prompt", get_prompt(&prompt.name, Json::Null).unwrap())])
            )
        );
    }
}

#[test]
fn an_unknown_prompt_is_not_found() {
    let registry = gateway();
    assert_eq!(
        handle_message(
            &registry,
            &message(Some(number("2")), "prompts/get", Some(object(vec![("name", text("nope"))])))
        ),
        refused(number("2"), -32601, "Prompt not found: Unknown prompt: nope")
    );
}

#[test]
fn an_unknown_method_is_not_found() {
    let registry = gateway();
    assert_eq!(
        handle_message(&registry, &message(Some(number("5")), "resources/list", None)),
        refused(number("5"), -32601, "Method not found: resources/list")
    );
    assert_eq!(
        handle_message(&registry, &message(Some(number("5")), "", None)),
        refused(number("5"), -32601, "Method not found: ")
    );
    assert_eq!(
        handle_message(&registry, &message(Some(number("5")), "Initialize", None)),
        refused(number("5"), -32601, "Method not found: Initialize")
    );
}

#[test]
fn every_response_echoes_its_own_identifier() {
    let registry = gateway();
    let ids = vec![
        number("1"),
        number("2"),
        number("-7"),
        number("1.5"),
        text("abc"),
        text(""),
        Json::Bool(true),
        object(vec![("k", number("1"))]),
        Json::Array(vec![number("1")]),
    ];
    let calls = vec![
        ("initialize", None),
        ("tools/list", None),
        ("tools/call", Some(object(vec![("name", text("echo"))]))),
        ("tools/call", Some(object(vec![("name", text("missing"))]))),
        ("tools/call", Some(object(vec![("name", text("openvas_get_version"))]))),
        ("tools/call", None),
        ("prompts/list", None),
        ("prompts/get", Some(object(vec![("name", text("x"))]))),
        ("unknown", None),
    ];
    for id in &ids {
        for (method, params) in &calls {
            let decided =
                handle_message(&registry, &message(Some(id.clone()), method, params.clone()));
            match decided {
                Some(Dispatch::Reply(response)) => {
                    assert_eq!(&response.id, id);
                    assert_eq!(response.jsonrpc, "2.0");
                    assert_ne!(response.result.is_some(), response.error.is_some());
                }
                Some(Dispatch::Backend(call)) => {
                    assert_eq!(&call.id, id);
                    let response = complete_call(call.id, Err(s("down")));
                    assert_eq!(&response.id, id);
                }
                None => panic!("a request got no response"),
            }
        }
    }
}

#[test]
fn handle_request_takes_the_identifier_from_its_caller() {
    let registry = gateway();
    let request =
        RpcRequest { id: Some(number("1")), method: s("tools/list"), params: Json::Null };
    assert_eq!(
        handle_request(&registry, number("2"), request),
        Dispatch::Reply(RpcResponse {
            jsonrpc: "2.0",
            id: number("2"),
            result: Some(object(vec![("tools", Json::Array(registry.list()))])),
            error: None,
        })
    );
}
