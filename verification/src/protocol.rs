//! The protocol engine: what the gateway answers to a message.
//!
//! A message is a JSON object with a method, parameters and, where an answer
//! is wanted, an identifier. A message with an identifier is a request and
//! gets exactly one response, which carries the identifier unchanged. A
//! message without one is a notification and gets none, and neither does a
//! message that is no well-formed message at all.
//!
//! The engine decides; it does not talk to a backend. Where a tool needs a
//! backend, [`handle_request`] hands out the request to send, and
//! [`complete_call`] turns what the backend answered into the response.

use vstd::prelude::*;
use vstd::string::*;
use crate::api::{BackendRequest, BackendRequestView};
use crate::json::{items_view, result_view, Json, JsonValue};
use crate::prompts::list_scan_config_prompts::{
    builtin_prompts, get_prompt, lemma_listed_prompts_can_be_got, list_prompts, prompt_result,
    prompts_json, prompts_to_json, PromptGetParams,
};
use crate::registry::{
    call_result, descriptors, lemma_unregistered_name_is_unknown, names, CallError, CallErrorView,
    ToolRegistry,
};
use crate::text::{appended, same_text};
use crate::tools::{Invocation, InvocationView, Tool};
use crate::wire::{optional_view, parse_json, parsed_json};

verus! {

/// The version of JSON-RPC that every response names.
pub const JSONRPC_VERSION: &'static str = "2.0";

/// The protocol version that the handshake answers with where the caller
/// names none.
pub const DEFAULT_PROTOCOL_VERSION: &'static str = "2024-11-05";

/// The name that the gateway gives itself in the handshake.
pub const SERVER_NAME: &'static str = "hacker_agent";

/// The version that the gateway gives itself in the handshake.
pub const SERVER_VERSION: &'static str = "0.1.0";

/// The code of a method or a prompt that does not exist.
pub const METHOD_NOT_FOUND: i32 = -32601;

/// The code of parameters that lack a field or hold a value of the wrong type.
pub const INVALID_PARAMS: i32 = -32602;

/// The code of a tool that is not known or could not be executed.
pub const TOOL_ERROR: i32 = -32000;

/// Why a request is answered with an error.
///
/// What is no well-formed message is not among these: it is dropped, and
/// nobody is told.
#[derive(Debug, Clone, Copy, PartialEq, Eq)]
pub enum ErrorKind {
    /// The method is none of those that the gateway knows.
    UnknownMethod,
    /// A field of the parameters is missing or of the wrong type.
    InvalidParams,
    /// No tool is registered under the name.
    UnknownCapability,
    /// The tool could not be executed, or its backend failed.
    CapabilityExecutionFailure,
    /// No prompt has the name.
    UnknownPromptName,
}

impl ErrorKind {
    /// The code under which this kind of error is reported. A method and a
    /// prompt that are not found share one code, and so do a tool that is
    /// not known and one that failed: the message tells them apart.
    pub open spec fn spec_code(self) -> int {
        match self {
            ErrorKind::UnknownMethod => METHOD_NOT_FOUND as int,
            ErrorKind::InvalidParams => INVALID_PARAMS as int,
            ErrorKind::UnknownCapability => TOOL_ERROR as int,
            ErrorKind::CapabilityExecutionFailure => TOOL_ERROR as int,
            ErrorKind::UnknownPromptName => METHOD_NOT_FOUND as int,
        }
    }

    /// What starts the message of an error of this kind.
    pub open spec fn spec_prefix(self) -> Seq<char> {
        match self {
            ErrorKind::UnknownMethod => "Method not found: "@,
            ErrorKind::InvalidParams => "Invalid params: "@,
            ErrorKind::UnknownCapability => "Tool error: "@,
            ErrorKind::CapabilityExecutionFailure => "Tool error: "@,
            ErrorKind::UnknownPromptName => "Prompt not found: "@,
        }
    }

    /// The code under which this kind of error is reported.
    pub fn code(&self) -> (code: i32)
        ensures
            code as int == self.spec_code(),
    {
        match self {
            ErrorKind::UnknownMethod => METHOD_NOT_FOUND,
            ErrorKind::InvalidParams => INVALID_PARAMS,
            ErrorKind::UnknownCapability => TOOL_ERROR,
            ErrorKind::CapabilityExecutionFailure => TOOL_ERROR,
            ErrorKind::UnknownPromptName => METHOD_NOT_FOUND,
        }
    }

    /// What starts the message of an error of this kind.
    pub fn prefix(&self) -> (prefix: &'static str)
        ensures
            prefix@ == self.spec_prefix(),
    {
        match self {
            ErrorKind::UnknownMethod => "Method not found: ",
            ErrorKind::InvalidParams => "Invalid params: ",
            ErrorKind::UnknownCapability => "Tool error: ",
            ErrorKind::CapabilityExecutionFailure => "Tool error: ",
            ErrorKind::UnknownPromptName => "Prompt not found: ",
        }
    }
}

/// A message of a caller.
#[derive(Debug, Clone, PartialEq, Eq)]
pub struct RpcRequest {
    /// The identifier to echo; a notification has none.
    pub id: Option<Json>,
    pub method: String,
    /// The parameters; `null` where the message has none.
    pub params: Json,
}

/// Why a request failed.
#[derive(Debug, Clone, PartialEq, Eq)]
pub struct RpcError {
    pub code: i32,
    pub message: String,
}

/// The answer to a request: either a result or an error.
#[derive(Debug, Clone, PartialEq, Eq)]
pub struct RpcResponse {
    pub jsonrpc: &'static str,
    pub id: Json,
    pub result: Option<Json>,
    pub error: Option<RpcError>,
}

/// What a `tools/call` request carries.
#[derive(Debug, Clone, PartialEq, Eq)]
pub struct ToolCallParams {
    pub name: String,
    /// The input of the tool; `null` where none is given.
    pub input: Json,
}

/// A call that waits for its backend: the request to send, and the
/// identifier under which the answer goes back to the caller.
#[derive(Debug, PartialEq, Eq)]
pub struct PendingCall {
    pub id: Json,
    pub request: BackendRequest,
}

/// What the engine decides for a request.
#[derive(Debug, PartialEq, Eq)]
pub enum Dispatch {
    /// The response is known.
    Reply(RpcResponse),
    /// The response is owed once the backend has answered.
    Backend(PendingCall),
}

/// The content of an [`RpcRequest`].
pub struct RpcRequestView {
    pub id: Option<JsonValue>,
    pub method: Seq<char>,
    pub params: JsonValue,
}

/// The content of an [`RpcError`].
pub struct RpcErrorView {
    pub code: int,
    pub message: Seq<char>,
}

/// The content of an [`RpcResponse`].
pub struct RpcResponseView {
    pub jsonrpc: Seq<char>,
    pub id: JsonValue,
    pub result: Option<JsonValue>,
    pub error: Option<RpcErrorView>,
}

/// The content of a [`Dispatch`].
pub enum DispatchView {
    Reply(RpcResponseView),
    Backend { id: JsonValue, request: BackendRequestView },
}

impl View for RpcRequest {
    type V = RpcRequestView;

    open spec fn view(&self) -> RpcRequestView {
        RpcRequestView { id: optional_view(self.id), method: self.method@, params: self.params@ }
    }
}

impl View for RpcError {
    type V = RpcErrorView;

    open spec fn view(&self) -> RpcErrorView {
        RpcErrorView { code: self.code as int, message: self.message@ }
    }
}

impl View for RpcResponse {
    type V = RpcResponseView;

    open spec fn view(&self) -> RpcResponseView {
        RpcResponseView {
            jsonrpc: self.jsonrpc@,
            id: self.id@,
            result: optional_view(self.result),
            error: match self.error {
                Some(error) => Some(error@),
                None => None,
            },
        }
    }
}

impl View for Dispatch {
    type V = DispatchView;

    open spec fn view(&self) -> DispatchView {
        match self {
            Dispatch::Reply(response) => DispatchView::Reply(response@),
            Dispatch::Backend(call) => DispatchView::Backend { id: call.id@, request: call.request@ },
        }
    }
}

/// The content of what the engine decides for a message.
pub open spec fn decision_view(decision: Option<Dispatch>) -> Option<DispatchView> {
    match decision {
        Some(dispatch) => Some(dispatch@),
        None => None,
    }
}

impl RpcResponseView {
    /// The response that carries a result.
    pub open spec fn ok(id: JsonValue, result: JsonValue) -> RpcResponseView {
        RpcResponseView { jsonrpc: JSONRPC_VERSION@, id, result: Some(result), error: None }
    }

    /// The response that carries an error.
    pub open spec fn err(id: JsonValue, code: int, message: Seq<char>) -> RpcResponseView {
        RpcResponseView {
            jsonrpc: JSONRPC_VERSION@,
            id,
            result: None,
            error: Some(RpcErrorView { code, message }),
        }
    }

    /// The response that reports an error of the given kind: its code, and
    /// its message after the words that introduce the kind.
    pub open spec fn failure(id: JsonValue, kind: ErrorKind, detail: Seq<char>) -> RpcResponseView {
        RpcResponseView::err(id, kind.spec_code(), kind.spec_prefix() + detail)
    }

    /// Exactly one of result and error is present.
    pub open spec fn wf(self) -> bool {
        self.jsonrpc == JSONRPC_VERSION@ && (self.result is Some) != (self.error is Some)
    }

    /// The response as it is written: the version, the identifier, and the
    /// result or the error, whichever is present.
    pub open spec fn to_json(self) -> JsonValue {
        let head = JsonValue::object().with_str("jsonrpc"@, self.jsonrpc).with("id"@, self.id);
        let body = head.with_some("result"@, self.result);
        match self.error {
            Some(error) => body.with(
                "error"@,
                JsonValue::object().with("code"@, JsonValue::integer(error.code)).with_str(
                    "message"@,
                    error.message,
                ),
            ),
            None => body,
        }
    }
}

/// The response that carries a result.
pub fn ok(id: Json, result: Json) -> (response: RpcResponse)
    ensures
        response@ == RpcResponseView::ok(id@, result@),
        response@.wf(),
{
    RpcResponse { jsonrpc: JSONRPC_VERSION, id, result: Some(result), error: None }
}

/// The response that carries an error.
pub fn err_resp(id: Json, code: i32, message: String) -> (response: RpcResponse)
    ensures
        response@ == RpcResponseView::err(id@, code as int, message@),
        response@.wf(),
{
    RpcResponse { jsonrpc: JSONRPC_VERSION, id, result: None, error: Some(RpcError { code, message }) }
}

/// The response that reports an error of the given kind.
pub fn failure(id: Json, kind: ErrorKind, detail: &str) -> (response: RpcResponse)
    ensures
        response@ == RpcResponseView::failure(id@, kind, detail@),
        response@.wf(),
{
    err_resp(id, kind.code(), appended(kind.prefix(), detail))
}

impl RpcResponse {
    /// The response as it is written.
    pub fn to_json(&self) -> (written: Json)
        ensures
            written@ == self@.to_json(),
    {
        let mut written = Json::object().with_str("jsonrpc", self.jsonrpc).with("id", self.id.clone());
        if let Some(result) = &self.result {
            written = written.with("result", result.clone());
        }
        if let Some(error) = &self.error {
            written = written.with(
                "error",
                Json::object().with("code", Json::integer(error.code as i64)).with_str(
                    "message",
                    error.message.as_str(),
                ),
            );
        }
        written
    }
}

/// The identifier of a message: the member `id`, unless it is `null`.
pub open spec fn message_id(message: JsonValue) -> Option<JsonValue> {
    match message.get("id"@) {
        Some(JsonValue::Null) => None,
        Some(id) => Some(id),
        None => None,
    }
}

/// The message that `message` is, if it is one: a JSON object whose method
/// is a string.
pub open spec fn request_of(message: JsonValue) -> Option<RpcRequestView> {
    match message.str_at("method"@) {
        Some(method) => Some(
            RpcRequestView {
                id: message_id(message),
                method,
                params: message.member_or_null("params"@),
            },
        ),
        None => None,
    }
}

/// Whether a message is a request: a message that carries an identifier.
pub open spec fn is_request(message: JsonValue) -> bool {
    request_of(message) is Some && message_id(message) is Some
}

impl RpcRequest {
    /// Reads a message. What is no JSON object, or has no method that is a
    /// string, is no message. An identifier that is `null` counts as absent.
    pub fn from_json(message: &Json) -> (request: Option<RpcRequest>)
        ensures
            match request {
                Some(r) => request_of(message@) == Some(r@),
                None => request_of(message@) is None,
            },
    {
        let method = match message.str_at("method") {
            Some(method) => method.to_owned(),
            None => {
                return None;
            },
        };
        let id = match message.get("id") {
            Some(Json::Null) => None,
            Some(id) => Some(id.clone()),
            None => None,
        };
        Some(RpcRequest { id, method, params: message.member_or_null("params") })
    }
}

/// What reading the name of a tool or a prompt from `params` gives: the
/// name, or what is wrong with the parameters.
pub open spec fn name_of(params: JsonValue) -> Result<Seq<char>, Seq<char>> {
    match params.get("name"@) {
        Some(JsonValue::Str(name)) => Ok(name),
        Some(_) => Err("invalid type for field `name`: expected a string"@),
        None => Err("missing field `name`"@),
    }
}

/// Reads the name of a tool or a prompt from `params`.
pub fn read_name(params: &Json) -> (name: Result<String, String>)
    ensures
        match name {
            Ok(n) => name_of(params@) == Ok::<Seq<char>, Seq<char>>(n@),
            Err(m) => name_of(params@) == Err::<Seq<char>, Seq<char>>(m@),
        },
{
    match params.get("name") {
        Some(Json::Str(name)) => Ok(name.clone()),
        Some(_) => Err("invalid type for field `name`: expected a string".to_owned()),
        None => Err("missing field `name`".to_owned()),
    }
}

impl ToolCallParams {
    /// Reads the parameters of a `tools/call` request: the name of the
    /// tool, which must be a string, and its input.
    pub fn from_json(params: &Json) -> (read: Result<ToolCallParams, String>)
        ensures
            match read {
                Ok(p) => name_of(params@) == Ok::<Seq<char>, Seq<char>>(p.name@) && p.input@
                    == params@.member_or_null("input"@),
                Err(m) => name_of(params@) == Err::<Seq<char>, Seq<char>>(m@),
            },
    {
        match read_name(params) {
            Ok(name) => Ok(ToolCallParams { name, input: params.member_or_null("input") }),
            Err(message) => Err(message),
        }
    }
}

/// What the handshake answers: the protocol version that the caller named,
/// or the default one, what the gateway can do, and who it is.
pub open spec fn initialize_result(params: JsonValue) -> JsonValue {
    let changes = JsonValue::object().with_bool("listChanged"@, true);
    JsonValue::object().with_str(
        "protocolVersion"@,
        params.str_or("protocolVersion"@, DEFAULT_PROTOCOL_VERSION@),
    ).with("capabilities"@, JsonValue::object().with("tools"@, changes).with("prompts"@, changes)).with(
        "serverInfo"@,
        JsonValue::object().with_str("name"@, SERVER_NAME@).with_str("version"@, SERVER_VERSION@),
    )
}

/// The result that carries the output of a tool.
pub open spec fn output_result(output: JsonValue) -> JsonValue {
    JsonValue::object().with("output"@, output)
}

/// The response to a call whose outcome is known: the output, or the error
/// of the tool.
pub open spec fn completed(id: JsonValue, outcome: Result<JsonValue, Seq<char>>) -> RpcResponseView {
    match outcome {
        Ok(output) => RpcResponseView::ok(id, output_result(output)),
        Err(message) => RpcResponseView::failure(id, ErrorKind::CapabilityExecutionFailure, message),
    }
}

/// What the engine decides for a `tools/call` request.
pub open spec fn call_dispatch<T: Tool>(tools: Seq<T>, id: JsonValue, params: JsonValue) -> DispatchView {
    match name_of(params) {
        Ok(name) => match call_result(tools, name, params.member_or_null("input"@)) {
            Ok(InvocationView::Immediate(output)) => DispatchView::Reply(completed(id, Ok(output))),
            Ok(InvocationView::Backend(request)) => DispatchView::Backend { id, request },
            Err(CallErrorView::UnknownTool(unknown)) => DispatchView::Reply(
                RpcResponseView::failure(
                    id,
                    ErrorKind::UnknownCapability,
                    CallErrorView::UnknownTool(unknown).message(),
                ),
            ),
            Err(CallErrorView::Failed(message)) => DispatchView::Reply(
                RpcResponseView::failure(id, ErrorKind::CapabilityExecutionFailure, message),
            ),
        },
        Err(message) => DispatchView::Reply(
            RpcResponseView::failure(id, ErrorKind::InvalidParams, message),
        ),
    }
}

/// What the engine answers to a `prompts/get` request.
pub open spec fn prompt_response(id: JsonValue, params: JsonValue) -> RpcResponseView {
    match name_of(params) {
        Ok(name) => match prompt_result(name) {
            Ok(prompt) => RpcResponseView::ok(id, JsonValue::object().with("prompt"@, prompt)),
            Err(message) => RpcResponseView::failure(id, ErrorKind::UnknownPromptName, message),
        },
        Err(message) => RpcResponseView::failure(id, ErrorKind::InvalidParams, message),
    }
}

/// What the engine decides for the request `request` with the identifier
/// `id`, by its method.
pub open spec fn dispatch<T: Tool>(tools: Seq<T>, id: JsonValue, request: RpcRequestView) -> DispatchView {
    if request.method == "initialize"@ {
        DispatchView::Reply(RpcResponseView::ok(id, initialize_result(request.params)))
    } else if request.method == "tools/list"@ {
        DispatchView::Reply(
            RpcResponseView::ok(
                id,
                JsonValue::object().with("tools"@, JsonValue::Array(descriptors(tools))),
            ),
        )
    } else if request.method == "tools/call"@ {
        call_dispatch(tools, id, request.params)
    } else if request.method == "prompts/list"@ {
        DispatchView::Reply(
            RpcResponseView::ok(
                id,
                JsonValue::object().with(
                    "prompts"@,
                    JsonValue::Array(prompts_json(builtin_prompts())),
                ),
            ),
        )
    } else if request.method == "prompts/get"@ {
        DispatchView::Reply(prompt_response(id, request.params))
    } else {
        DispatchView::Reply(RpcResponseView::failure(id, ErrorKind::UnknownMethod, request.method))
    }
}

/// What the engine decides for a message: nothing for what is no message
/// and for a notification, else what it decides for the request.
pub open spec fn decision<T: Tool>(tools: Seq<T>, message: JsonValue) -> Option<DispatchView> {
    match request_of(message) {
        Some(request) => match request.id {
            Some(id) => Some(dispatch(tools, id, request)),
            None => None,
        },
        None => None,
    }
}

/// What the engine decides for a line of text: nothing where the line
/// holds no JSON value, else what it decides for the value as a message.
pub open spec fn line_decision<T: Tool>(tools: Seq<T>, line: Seq<char>) -> Option<DispatchView> {
    match parsed_json(line) {
        Some(message) => decision(tools, message),
        None => None,
    }
}

/// The identifier that a decision carries.
pub open spec fn dispatch_id(dispatch: DispatchView) -> JsonValue {
    match dispatch {
        DispatchView::Reply(response) => response.id,
        DispatchView::Backend { id, request } => id,
    }
}

/// Turns what became of a call into the response to it: the output under
/// the key `output`, or the failure as a tool error. The identifier is the
/// one of the request.
pub fn complete_call(id: Json, outcome: Result<Json, String>) -> (response: RpcResponse)
    ensures
        response@ == completed(id@, result_view(outcome)),
        response@.id == id@,
        response@.wf(),
{
    match outcome {
        Ok(output) => ok(id, Json::object().with("output", output)),
        Err(message) => failure(id, ErrorKind::CapabilityExecutionFailure, message.as_str()),
    }
}

/// Handles a `tools/call` request.
fn handle_call<T: Tool>(registry: &ToolRegistry<T>, id: Json, params: &Json) -> (decided: Dispatch)
    ensures
        decided@ == call_dispatch(registry@, id@, params@),
{
    let call = match ToolCallParams::from_json(params) {
        Ok(call) => call,
        Err(message) => {
            return Dispatch::Reply(failure(id, ErrorKind::InvalidParams, message.as_str()));
        },
    };
    match registry.call(call.name.as_str(), call.input) {
        Ok(Invocation::Immediate(output)) => Dispatch::Reply(complete_call(id, Ok(output))),
        Ok(Invocation::Backend(request)) => Dispatch::Backend(PendingCall { id, request }),
        Err(CallError::UnknownTool(unknown)) => {
            let error = CallError::UnknownTool(unknown);
            Dispatch::Reply(failure(id, ErrorKind::UnknownCapability, error.message().as_str()))
        },
        Err(CallError::Failed(error)) => Dispatch::Reply(
            failure(id, ErrorKind::CapabilityExecutionFailure, error.message.as_str()),
        ),
    }
}

/// Handles a `prompts/get` request.
fn handle_prompt(id: Json, params: Json) -> (response: RpcResponse)
    ensures
        response@ == prompt_response(id@, params@),
{
    let asked = match PromptGetParams::from_json(&params) {
        Ok(asked) => asked,
        Err(message) => {
            return failure(id, ErrorKind::InvalidParams, message.as_str());
        },
    };
    match get_prompt(asked.name.as_str(), asked.arguments) {
        Ok(prompt) => ok(id, Json::object().with("prompt", prompt)),
        Err(message) => failure(id, ErrorKind::UnknownPromptName, message.as_str()),
    }
}

/// Decides what becomes of the request `req` with the identifier `id`.
///
/// The methods are `initialize`, `tools/list`, `tools/call`, `prompts/list`
/// and `prompts/get`; any other is answered with the error that the method
/// was not found. Whatever is decided carries `id` unchanged.
pub fn handle_request<T: Tool>(registry: &ToolRegistry<T>, id: Json, req: RpcRequest) -> (decided:
    Dispatch)
    ensures
        decided@ == dispatch(registry@, id@, req@),
        dispatch_id(decided@) == id@,
{
    proof {
        lemma_dispatch_echoes_id(registry@, id@, req@);
    }
    let method = req.method.as_str();
    if same_text(method, "initialize") {
        let version = req.params.str_or("protocolVersion", DEFAULT_PROTOCOL_VERSION);
        let result = Json::object().with_str("protocolVersion", version).with(
            "capabilities",
            Json::object().with("tools", Json::object().with_bool("listChanged", true)).with(
                "prompts",
                Json::object().with_bool("listChanged", true),
            ),
        ).with(
            "serverInfo",
            Json::object().with_str("name", SERVER_NAME).with_str("version", SERVER_VERSION),
        );
        Dispatch::Reply(ok(id, result))
    } else if same_text(method, "tools/list") {
        let tools = registry.list();
        Dispatch::Reply(ok(id, Json::object().with("tools", Json::array_of(tools))))
    } else if same_text(method, "tools/call") {
        handle_call(registry, id, &req.params)
    } else if same_text(method, "prompts/list") {
        let prompts = list_prompts();
        let listed = prompts_to_json(&prompts);
        Dispatch::Reply(ok(id, Json::object().with("prompts", Json::array_of(listed))))
    } else if same_text(method, "prompts/get") {
        Dispatch::Reply(handle_prompt(id, req.params))
    } else {
        Dispatch::Reply(failure(id, ErrorKind::UnknownMethod, method))
    }
}

/// Decides what becomes of a message.
///
/// What is no well-formed message is dropped without an answer, and so is
/// a notification, whatever its method: for neither is anything to be
/// written. A request is handed to [`handle_request`].
pub fn handle_message<T: Tool>(registry: &ToolRegistry<T>, message: &Json) -> (decided: Option<
    Dispatch,
>)
    ensures
        decision_view(decided) == decision(registry@, message@),
        message_id(message@) is None ==> decided is None,
        decided matches Some(d) ==> message_id(message@) == Some(dispatch_id(d@)),
{
    let request = match RpcRequest::from_json(message) {
        Some(request) => request,
        None => {
            return None;
        },
    };
    match request.id.clone() {
        Some(id) => Some(handle_request(registry, id, request)),
        None => None,
    }
}

/// Decides what becomes of a line of text.
///
/// A line that holds no JSON value is dropped without an answer, as is
/// every message that [`handle_message`] drops: noise on the line is not
/// answered with errors.
pub fn handle_line<T: Tool>(registry: &ToolRegistry<T>, line: &str) -> (decided: Option<Dispatch>)
    ensures
        decision_view(decided) == line_decision(registry@, line@),
        parsed_json(line@) is None ==> decided is None,
        decided matches Some(d) ==> (parsed_json(line@) matches Some(message) && message_id(message)
            == Some(dispatch_id(d@))),
{
    match parse_json(line) {
        Some(message) => handle_message(registry, &message),
        None => None,
    }
}

/// A call of a name under which no tool is registered is answered with an
/// error that carries the code of a tool error and names the tool: never
/// with a result, and never with silence.
pub proof fn lemma_unregistered_tool_is_an_error<T: Tool>(
    tools: Seq<T>,
    id: JsonValue,
    params: JsonValue,
    name: Seq<char>,
)
    requires
        name_of(params) == Ok::<Seq<char>, Seq<char>>(name),
        !names(tools).contains(name),
    ensures
        call_dispatch(tools, id, params) == DispatchView::Reply(
            RpcResponseView::failure(id, ErrorKind::UnknownCapability, "Unknown tool: "@ + name),
        ),
        call_dispatch(tools, id, params) matches DispatchView::Reply(response) && (response.result
            is None && (response.error matches Some(error) && error.code == TOOL_ERROR)),
{
    lemma_unregistered_name_is_unknown(tools, name, params.member_or_null("input"@));
}

/// Asking for a prompt by a name that the list of prompts shows is
/// answered with the prompt, never with the error that it was not found.
pub proof fn lemma_listed_prompt_is_served(id: JsonValue, params: JsonValue, i: int)
    requires
        0 <= i < builtin_prompts().len(),
        name_of(params) == Ok::<Seq<char>, Seq<char>>(builtin_prompts()[i].name),
    ensures
        prompt_response(id, params).result is Some,
        prompt_response(id, params).error is None,
{
    lemma_listed_prompts_can_be_got(i);
}

/// Whatever the engine decides for a request carries the identifier of the
/// request: in the response where it answers at once, in the pending call
/// where it waits for a backend.
pub proof fn lemma_dispatch_echoes_id<T: Tool>(tools: Seq<T>, id: JsonValue, request: RpcRequestView)
    ensures
        dispatch_id(dispatch(tools, id, request)) == id,
{
}

} // verus!
