//! The JSON-RPC 2.0 request handling of Claide's MCP server: dispatch of
//! `initialize`, `notifications/initialized`, `tools/list` and `tools/call`,
//! and the responses they give.

use vstd::prelude::*;
use vstd::string::*;
use crate::text::{owned, same_text, join2};

verus! {

// ---------------------------------------------------------------------------
// JSON values
// ---------------------------------------------------------------------------

/// A JSON number as `serde_json` keeps it; a float as the bit pattern of its
/// `f64` value.
#[derive(PartialEq, Eq, Structural, Clone, Copy, Debug)]
pub enum JsonNumber {
    PosInt(u64),
    NegInt(i64),
    Float(u64),
}

/// A JSON value in mathematical form.
#[verifier::ext_equal]
pub enum JsonNode {
    Null,
    Bool(bool),
    Number(JsonNumber),
    Str(Seq<char>),
    Array(Seq<JsonNode>),
    Object(Seq<(Seq<char>, JsonNode)>),
}

/// A JSON value. An object keeps its members in order; looking a key up
/// finds the first member with that key.
pub enum JsonValue {
    Null,
    Bool(bool),
    Number(JsonNumber),
    Str(String),
    Array(Vec<JsonValue>),
    Object(Vec<(String, JsonValue)>),
}

impl JsonValue {
    pub open spec fn node(self) -> JsonNode
        decreases self,
    {
        match self {
            JsonValue::Null => JsonNode::Null,
            JsonValue::Bool(b) => JsonNode::Bool(b),
            JsonValue::Number(n) => JsonNode::Number(n),
            JsonValue::Str(s) => JsonNode::Str(s@),
            JsonValue::Array(items) => JsonNode::Array(
                Seq::new(
                    items.len() as nat,
                    |i: int|
                        if 0 <= i < items.len() {
                            items@[i].node()
                        } else {
                            JsonNode::Null
                        },
                ),
            ),
            JsonValue::Object(members) => JsonNode::Object(
                Seq::new(
                    members.len() as nat,
                    |i: int|
                        if 0 <= i < members.len() {
                            (members@[i].0@, members@[i].1.node())
                        } else {
                            (Seq::empty(), JsonNode::Null)
                        },
                ),
            ),
        }
    }
}

impl View for JsonValue {
    type V = JsonNode;

    open spec fn view(&self) -> JsonNode {
        self.node()
    }
}

/// `i` is the position of the first member whose key is `key`.
pub open spec fn is_first_member(members: Seq<(Seq<char>, JsonNode)>, key: Seq<char>, i: int) -> bool {
    &&& 0 <= i < members.len()
    &&& members[i].0 == key
    &&& forall|j: int| 0 <= j < i ==> members[j].0 != key
}

/// `serde_json::Value::get(key)`: the member `key` of an object; nothing for
/// other values.
pub open spec fn json_get(v: JsonNode, key: Seq<char>) -> Option<JsonNode> {
    match v {
        JsonNode::Object(members) => if exists|i: int| is_first_member(members, key, i) {
            Some(members[choose|i: int| is_first_member(members, key, i)].1)
        } else {
            None
        },
        _ => None,
    }
}

/// The position of the first member with key `key`.
fn member_index(members: &Vec<(String, JsonValue)>, key: &str) -> (r: Option<usize>)
    ensures
        match r {
            Some(i) => i < members.len() && members@[i as int].0@ == key@
                && forall|j: int| 0 <= j < i ==> members@[j].0@ != key@,
            None => forall|j: int| 0 <= j < members.len() ==> members@[j].0@ != key@,
        },
{
    let mut i: usize = 0;
    while i < members.len()
        invariant
            i <= members.len(),
            forall|j: int| 0 <= j < i ==> members@[j].0@ != key@,
        decreases members.len() - i,
    {
        if same_text(members[i].0.as_str(), key) {
            return Some(i);
        }
        i = i + 1;
    }
    None
}

/// `get(key)` then `as_str()`: the member `key` if it is a string.
pub open spec fn json_str_member(v: JsonNode, key: Seq<char>) -> Option<Seq<char>> {
    match json_get(v, key) {
        Some(JsonNode::Str(s)) => Some(s),
        _ => None,
    }
}

pub open spec fn empty_object() -> JsonNode {
    JsonNode::Object(Seq::empty())
}

/// `{}`.
pub fn empty_json_object() -> (r: JsonValue)
    ensures
        r@ == empty_object(),
{
    let members: Vec<(String, JsonValue)> = Vec::new();
    let r = JsonValue::Object(members);
    assert(r@->Object_0.len() == 0);
    assert(r@->Object_0 =~= Seq::<(Seq<char>, JsonNode)>::empty());
    r
}

/// The string member `key` of `v`, copied.
fn str_member(v: &JsonValue, key: &str) -> (r: Option<String>)
    ensures
        match r {
            Some(s) => json_str_member(v@, key@) == Some(s@),
            None => json_str_member(v@, key@) is None,
        },
{
    match v {
        JsonValue::Object(members) => {
            let ghost ms = v@->Object_0;
            assert(forall|k: int| 0 <= k < members.len() ==> #[trigger] ms[k] == (members@[k].0@, members@[k].1@));
            match member_index(members, key) {
                Some(i) => {
                    assert(is_first_member(ms, key@, i as int));
                    let ghost c = choose|c: int| is_first_member(ms, key@, c);
                    assert(c == i);
                    match &members[i].1 {
                        JsonValue::Str(s) => Some(owned(s.as_str())),
                        _ => None,
                    }
                },
                None => {
                    assert(!exists|c: int| is_first_member(ms, key@, c));
                    None
                },
            }
        },
        _ => None,
    }
}

/// The member `key` of `v`, moved out; an empty object where there is none.
fn take_member_or_empty(v: JsonValue, key: &str) -> (r: JsonValue)
    ensures
        r@ == (match json_get(v@, key@) {
            Some(x) => x,
            None => empty_object(),
        }),
{
    let ghost vn = v@;
    match v {
        JsonValue::Object(mut members) => {
            let ghost ms = vn->Object_0;
            assert(forall|k: int| 0 <= k < members.len() ==> #[trigger] ms[k] == (members@[k].0@, members@[k].1@));
            match member_index(&members, key) {
                Some(i) => {
                    assert(is_first_member(ms, key@, i as int));
                    let ghost c = choose|c: int| is_first_member(ms, key@, c);
                    assert(c == i);
                    let (_, x) = members.remove(i);
                    x
                },
                None => {
                    assert(!exists|c: int| is_first_member(ms, key@, c));
                    empty_json_object()
                },
            }
        },
        _ => {
            empty_json_object()
        },
    }
}

// ---------------------------------------------------------------------------
// Protocol types
// ---------------------------------------------------------------------------

/// Server name returned during initialization.
pub const SERVER_NAME: &'static str = "zeptoclaw";

/// MCP protocol version returned during initialization.
pub const PROTOCOL_VERSION: &'static str = "2024-11-05";

/// A tool as the kernel defines it.
pub struct ToolDefinition {
    pub name: String,
    pub description: String,
    pub parameters: JsonValue,
}

/// What a tool execution produced.
pub struct ToolOutput {
    pub for_llm: String,
    pub is_error: bool,
}

/// A tool as MCP lists it.
pub struct McpTool {
    pub name: String,
    pub description: Option<String>,
    pub input_schema: JsonValue,
}

/// The result of `tools/list`.
pub struct ListToolsResult {
    pub tools: Vec<McpTool>,
}

/// A block of tool output.
pub enum ContentBlock {
    Text { text: String },
}

/// The result of `tools/call`.
pub struct CallToolResult {
    pub content: Vec<ContentBlock>,
    pub is_error: bool,
}

/// The `result` member of a response.
pub enum McpResult {
    /// A plain JSON value.
    Value(JsonValue),
    /// The tool list of `tools/list`.
    Tools(ListToolsResult),
    /// The outcome of `tools/call`.
    ToolCall(CallToolResult),
}

/// The `error` member of a response.
pub struct McpError {
    pub code: i64,
    pub message: String,
    pub data: Option<JsonValue>,
}

/// A JSON-RPC 2.0 response.
pub struct McpResponse {
    pub jsonrpc: String,
    pub id: Option<u64>,
    pub result: Option<McpResult>,
    pub error: Option<McpError>,
}

// ---------------------------------------------------------------------------
// Views
// ---------------------------------------------------------------------------

#[verifier::ext_equal]
pub struct ToolView {
    pub name: Seq<char>,
    pub description: Option<Seq<char>>,
    pub input_schema: JsonNode,
}

#[verifier::ext_equal]
pub enum ResultView {
    Value(JsonNode),
    Tools(Seq<ToolView>),
    ToolCall { texts: Seq<Seq<char>>, is_error: bool },
}

#[verifier::ext_equal]
pub struct ErrorView {
    pub code: i64,
    pub message: Seq<char>,
    pub data: Option<JsonNode>,
}

#[verifier::ext_equal]
pub struct ResponseView {
    pub jsonrpc: Seq<char>,
    pub id: Option<u64>,
    pub result: Option<ResultView>,
    pub error: Option<ErrorView>,
}

impl View for McpTool {
    type V = ToolView;

    open spec fn view(&self) -> ToolView {
        ToolView {
            name: self.name@,
            description: match self.description {
                Some(d) => Some(d@),
                None => None,
            },
            input_schema: self.input_schema@,
        }
    }
}

impl View for ContentBlock {
    type V = Seq<char>;

    open spec fn view(&self) -> Seq<char> {
        match self {
            ContentBlock::Text { text } => text@,
        }
    }
}

impl View for McpResult {
    type V = ResultView;

    open spec fn view(&self) -> ResultView {
        match self {
            McpResult::Value(v) => ResultView::Value(v@),
            McpResult::Tools(l) => ResultView::Tools(l.tools@.map_values(|t: McpTool| t@)),
            McpResult::ToolCall(c) => ResultView::ToolCall {
                texts: c.content@.map_values(|b: ContentBlock| b@),
                is_error: c.is_error,
            },
        }
    }
}

impl View for McpError {
    type V = ErrorView;

    open spec fn view(&self) -> ErrorView {
        ErrorView {
            code: self.code,
            message: self.message@,
            data: match self.data {
                Some(d) => Some(d@),
                None => None,
            },
        }
    }
}

impl View for McpResponse {
    type V = ResponseView;

    open spec fn view(&self) -> ResponseView {
        ResponseView {
            jsonrpc: self.jsonrpc@,
            id: self.id,
            result: match self.result {
                Some(r) => Some(r@),
                None => None,
            },
            error: match self.error {
                Some(e) => Some(e@),
                None => None,
            },
        }
    }
}

/// A JSON-RPC 2.0 success response to request `id`.
pub open spec fn success_view(id: Option<u64>, result: ResultView) -> ResponseView {
    ResponseView { jsonrpc: "2.0"@, id, result: Some(result), error: None }
}

/// A JSON-RPC 2.0 error response to request `id`.
pub open spec fn error_view(id: Option<u64>, code: i64, message: Seq<char>) -> ResponseView {
    ResponseView {
        jsonrpc: "2.0"@,
        id,
        result: None,
        error: Some(ErrorView { code, message, data: None }),
    }
}

/// The envelope that JSON-RPC 2.0 asks of every response: version `2.0`,
/// the request's id, and exactly one of `result` and `error`.
pub open spec fn answers(r: ResponseView, id: Option<u64>) -> bool {
    &&& r.jsonrpc == "2.0"@
    &&& r.id == id
    &&& (r.result is Some) != (r.error is Some)
}

/// Error code of JSON-RPC 2.0 for an unknown method.
pub const METHOD_NOT_FOUND: i64 = -32601i64;

/// Error code of JSON-RPC 2.0 for invalid parameters.
pub const INVALID_PARAMS: i64 = -32602i64;

fn success(id: Option<u64>, result: McpResult) -> (r: McpResponse)
    ensures
        r@ == success_view(id, result@),
{
    McpResponse { jsonrpc: owned("2.0"), id, result: Some(result), error: None }
}

/// Build a JSON-RPC 2.0 error response.
pub fn error_response(id: Option<u64>, code: i64, message: &str) -> (r: McpResponse)
    ensures
        r@ == error_view(id, code, message@),
{
    McpResponse {
        jsonrpc: owned("2.0"),
        id,
        result: None,
        error: Some(McpError { code, message: owned(message), data: None }),
    }
}

// ---------------------------------------------------------------------------
// initialize
// ---------------------------------------------------------------------------

/// The `initialize` result: protocol version, capabilities (tools only) and
/// server information with the server's `version`.
pub open spec fn initialize_result(version: Seq<char>) -> JsonNode {
    JsonNode::Object(
        seq![
            ("protocolVersion"@, JsonNode::Str(PROTOCOL_VERSION@)),
            ("capabilities"@, JsonNode::Object(seq![("tools"@, empty_object())])),
            (
                "serverInfo"@,
                JsonNode::Object(
                    seq![("name"@, JsonNode::Str(SERVER_NAME@)), ("version"@, JsonNode::Str(version))],
                ),
            ),
        ],
    )
}

fn json_str(s: &str) -> (r: JsonValue)
    ensures
        r@ == JsonNode::Str(s@),
{
    JsonValue::Str(owned(s))
}

fn json_object(members: Vec<(String, JsonValue)>) -> (r: JsonValue)
    ensures
        r@ == JsonNode::Object(members@.map_values(|m: (String, JsonValue)| (m.0@, m.1@))),
{
    let r = JsonValue::Object(members);
    assert(r@->Object_0 =~= members@.map_values(|m: (String, JsonValue)| (m.0@, m.1@)));
    r
}

/// Handle `initialize` — return server info and capabilities (tools only);
/// `version` is the server's version.
pub fn handle_initialize(id: Option<u64>, version: &str) -> (r: McpResponse)
    ensures
        r@ == success_view(id, ResultView::Value(initialize_result(version@))),
{
    let mut tools: Vec<(String, JsonValue)> = Vec::new();
    tools.push((owned("tools"), empty_json_object()));
    assert(tools@.map_values(|m: (String, JsonValue)| (m.0@, m.1@)) =~= seq![("tools"@, empty_object())]);
    let capabilities = json_object(tools);
    let mut info: Vec<(String, JsonValue)> = Vec::new();
    info.push((owned("name"), json_str(SERVER_NAME)));
    info.push((owned("version"), json_str(version)));
    assert(info@.map_values(|m: (String, JsonValue)| (m.0@, m.1@))
        =~= seq![("name"@, JsonNode::Str(SERVER_NAME@)), ("version"@, JsonNode::Str(version@))]);
    let server_info = json_object(info);
    let mut top: Vec<(String, JsonValue)> = Vec::new();
    top.push((owned("protocolVersion"), json_str(PROTOCOL_VERSION)));
    top.push((owned("capabilities"), capabilities));
    top.push((owned("serverInfo"), server_info));
    assert(top@.map_values(|m: (String, JsonValue)| (m.0@, m.1@)) =~= initialize_result(version@)->Object_0);
    let result = json_object(top);
    assert(result@ =~= initialize_result(version@));
    success(id, McpResult::Value(result))
}

// ---------------------------------------------------------------------------
// tools/list
// ---------------------------------------------------------------------------

/// The MCP listing of a kernel tool: its name, its description, and its
/// parameter schema as input schema.
pub open spec fn tool_entry(d: ToolDefinition) -> ToolView {
    ToolView { name: d.name@, description: Some(d.description@), input_schema: d.parameters@ }
}

/// Handle `tools/list` — map the kernel's tool definitions, in order, to the
/// MCP tool list.
pub fn handle_tools_list(id: Option<u64>, defs: Vec<ToolDefinition>) -> (r: McpResponse)
    ensures
        r@ == success_view(id, ResultView::Tools(defs@.map_values(|d: ToolDefinition| tool_entry(d)))),
{
    let ghost ds = defs@;
    let mut defs = defs;
    let mut tools: Vec<McpTool> = Vec::new();
    let mut i: usize = 0;
    let n = defs.len();
    // Take the definitions from the back, then restore their order.
    while defs.len() > 0
        invariant
            n == ds.len(),
            defs@ == ds.subrange(0, defs.len() as int),
            tools.len() + defs.len() == n,
            forall|k: int| 0 <= k < tools.len() ==> #[trigger] tools@[k]@ == tool_entry(ds[n - 1 - k]),
        decreases defs.len(),
    {
        let d = defs.pop().unwrap();
        tools.push(McpTool { name: d.name, description: Some(d.description), input_schema: d.parameters });
    }
    let mut ordered: Vec<McpTool> = Vec::new();
    while tools.len() > 0
        invariant
            n == ds.len(),
            tools.len() + ordered.len() == n,
            forall|k: int| 0 <= k < tools.len() ==> #[trigger] tools@[k]@ == tool_entry(ds[n - 1 - k]),
            forall|k: int| 0 <= k < ordered.len() ==> #[trigger] ordered@[k]@ == tool_entry(ds[k]),
        decreases tools.len(),
    {
        let t = tools.pop().unwrap();
        ordered.push(t);
    }
    let result = ListToolsResult { tools: ordered };
    assert(result.tools@.map_values(|t: McpTool| t@) =~= ds.map_values(|d: ToolDefinition| tool_entry(d)));
    success(id, McpResult::Tools(result))
}

// ---------------------------------------------------------------------------
// tools/call
// ---------------------------------------------------------------------------

/// What to do next with a request.
pub enum RequestStep {
    /// Send this response.
    Respond(McpResponse),
    /// List the kernel's tools and answer with `handle_tools_list`.
    ListTools,
    /// Execute the tool `name` with `arguments`, and answer with `tools_call_response`.
    CallTool { name: String, arguments: JsonValue },
}

pub enum StepView {
    Respond(ResponseView),
    ListTools,
    CallTool { name: Seq<char>, arguments: JsonNode },
}

impl View for RequestStep {
    type V = StepView;

    open spec fn view(&self) -> StepView {
        match self {
            RequestStep::Respond(r) => StepView::Respond(r@),
            RequestStep::ListTools => StepView::ListTools,
            RequestStep::CallTool { name, arguments } => StepView::CallTool { name: name@, arguments: arguments@ },
        }
    }
}

/// The step for `tools/call`: an invalid-params error without params or
/// without a string `name` in them; otherwise the call of that tool with the
/// `arguments` member (an empty object where there is none).
pub open spec fn tools_call_step(id: Option<u64>, params: Option<JsonNode>) -> StepView {
    match params {
        None => StepView::Respond(error_view(id, INVALID_PARAMS, "Missing params for tools/call"@)),
        Some(p) => match json_str_member(p, "name"@) {
            None => StepView::Respond(error_view(id, INVALID_PARAMS, "Missing 'name' in tools/call params"@)),
            Some(name) => StepView::CallTool {
                name,
                arguments: match json_get(p, "arguments"@) {
                    Some(a) => a,
                    None => empty_object(),
                },
            },
        },
    }
}

pub open spec fn opt_json(v: Option<JsonValue>) -> Option<JsonNode> {
    match v {
        Some(x) => Some(x@),
        None => None,
    }
}

/// Validate the params of `tools/call` and extract the tool's name and arguments.
pub fn plan_tools_call(id: Option<u64>, params: Option<JsonValue>) -> (r: RequestStep)
    ensures
        r@ == tools_call_step(id, opt_json(params)),
{
    let params = match params {
        Some(p) => p,
        None => {
            return RequestStep::Respond(error_response(id, INVALID_PARAMS, "Missing params for tools/call"));
        },
    };
    let tool_name = match str_member(&params, "name") {
        Some(name) => name,
        None => {
            return RequestStep::Respond(
                error_response(id, INVALID_PARAMS, "Missing 'name' in tools/call params"),
            );
        },
    };
    let arguments = take_member_or_empty(params, "arguments");
    RequestStep::CallTool { name: tool_name, arguments }
}

/// The `tools/call` result for a tool's outcome: its output text with its
/// error flag, or, where it could not run, `Tool execution error: ` and the
/// reason, flagged as an error. Either way a result, never a JSON-RPC error.
pub open spec fn call_result(output: Result<(Seq<char>, bool), Seq<char>>) -> ResultView {
    match output {
        Ok((text, is_error)) => ResultView::ToolCall { texts: seq![text], is_error },
        Err(e) => ResultView::ToolCall { texts: seq!["Tool execution error: "@ + e], is_error: true },
    }
}

pub open spec fn output_view(output: Result<ToolOutput, String>) -> Result<(Seq<char>, bool), Seq<char>> {
    match output {
        Ok(o) => Ok((o.for_llm@, o.is_error)),
        Err(e) => Err(e@),
    }
}

/// Answer `tools/call` with the outcome of the tool's execution (`Err`
/// holding the kernel's error message).
pub fn tools_call_response(id: Option<u64>, output: Result<ToolOutput, String>) -> (r: McpResponse)
    ensures
        r@ == success_view(id, call_result(output_view(output))),
{
    let ghost ov = output_view(output);
    let (text, is_error) = match output {
        Ok(tool_output) => (tool_output.for_llm, tool_output.is_error),
        Err(e) => (join2("Tool execution error: ", e.as_str()), true),
    };
    let mut content: Vec<ContentBlock> = Vec::new();
    content.push(ContentBlock::Text { text });
    let call = CallToolResult { content, is_error };
    assert(call.content@.map_values(|b: ContentBlock| b@) =~= call_result(ov)->texts);
    success(id, McpResult::ToolCall(call))
}

// ---------------------------------------------------------------------------
// Dispatch
// ---------------------------------------------------------------------------

/// What a request asks for, by its method: `initialize` is answered with the
/// server info; `notifications/initialized` with an empty object; `tools/list`
/// lists the tools; `tools/call` calls one (see `tools_call_step`); any other
/// method gets the method-not-found error `Method not found: <method>`.
pub open spec fn request_step(id: Option<u64>, method: Seq<char>, params: Option<JsonNode>, version: Seq<char>) -> StepView {
    if method == "initialize"@ {
        StepView::Respond(success_view(id, ResultView::Value(initialize_result(version))))
    } else if method == "notifications/initialized"@ {
        StepView::Respond(success_view(id, ResultView::Value(empty_object())))
    } else if method == "tools/list"@ {
        StepView::ListTools
    } else if method == "tools/call"@ {
        tools_call_step(id, params)
    } else {
        StepView::Respond(error_view(id, METHOD_NOT_FOUND, "Method not found: "@ + method))
    }
}

/// Handle a parsed JSON-RPC 2.0 request: answer it, or say which kernel work
/// its answer needs. `version` is the server's version.
pub fn handle_request(id: Option<u64>, method: &str, params: Option<JsonValue>, version: &str) -> (r: RequestStep)
    ensures
        r@ == request_step(id, method@, opt_json(params), version@),
{
    if same_text(method, "initialize") {
        RequestStep::Respond(handle_initialize(id, version))
    } else if same_text(method, "notifications/initialized") {
        RequestStep::Respond(success(id, McpResult::Value(empty_json_object())))
    } else if same_text(method, "tools/list") {
        RequestStep::ListTools
    } else if same_text(method, "tools/call") {
        plan_tools_call(id, params)
    } else {
        RequestStep::Respond(error_response(id, METHOD_NOT_FOUND, join2("Method not found: ", method).as_str()))
    }
}

// ---------------------------------------------------------------------------
// Laws
// ---------------------------------------------------------------------------

/// Every response that a request gets, at once or after the kernel's work,
/// is a well-formed JSON-RPC 2.0 response to that request's id.
pub proof fn lemma_every_response_answers_its_request(
    id: Option<u64>,
    method: Seq<char>,
    params: Option<JsonNode>,
    version: Seq<char>,
    tools: Seq<ToolView>,
    output: Result<(Seq<char>, bool), Seq<char>>,
)
    ensures
        request_step(id, method, params, version) matches StepView::Respond(r) ==> answers(r, id),
        answers(success_view(id, ResultView::Tools(tools)), id),
        answers(success_view(id, call_result(output)), id),
{
}

/// A tool that fails, or cannot run, is reported in a successful response
/// with its error flag set, never as a JSON-RPC error.
pub proof fn lemma_tool_failure_is_a_result(id: Option<u64>, output: Result<(Seq<char>, bool), Seq<char>>)
    ensures
        success_view(id, call_result(output)).error is None,
        (output is Err || output->Ok_0.1) ==> call_result(output)->is_error,
{
}

/// The only JSON-RPC errors that dispatch produces are method-not-found,
/// for a method it does not know, and invalid-params, for `tools/call`.
pub proof fn lemma_error_codes(id: Option<u64>, method: Seq<char>, params: Option<JsonNode>, version: Seq<char>)
    ensures
        ({
            let step = request_step(id, method, params, version);
            step is Respond && step->Respond_0.error is Some ==> {
                let code = step->Respond_0.error->0.code;
                ||| code == METHOD_NOT_FOUND && method != "initialize"@
                    && method != "notifications/initialized"@ && method != "tools/list"@
                    && method != "tools/call"@
                ||| code == INVALID_PARAMS && method == "tools/call"@
            }
        }),
{
}

// ---------------------------------------------------------------------------
// Laws of the dispatch
// ---------------------------------------------------------------------------

proof fn lemma_method_names()
    ensures
        "tools/call"@ != "initialize"@,
        "tools/call"@ != "notifications/initialized"@,
        "tools/call"@ != "tools/list"@,
        "tools/list"@ != "initialize"@,
        "tools/list"@ != "notifications/initialized"@,
        "notifications/initialized"@ != "initialize"@,
{
    reveal_strlit("tools/call");
    reveal_strlit("tools/list");
    reveal_strlit("initialize");
    reveal_strlit("notifications/initialized");
    assert("tools/call"@[0] != "initialize"@[0]);
    assert("tools/call"@[0] != "notifications/initialized"@[0]);
    assert("tools/call"@[6] != "tools/list"@[6]);
    assert("tools/list"@[0] != "initialize"@[0]);
    assert("tools/list"@[0] != "notifications/initialized"@[0]);
    assert("notifications/initialized"@[0] != "initialize"@[0]);
}

/// `tools/call` with a string `name`: the kernel is asked to run that tool
/// with the `arguments` member exactly as the request holds it (the same
/// members in the same order), or with `{}` where there is none.
pub proof fn lemma_tools_call_passes_name_and_arguments(id: Option<u64>, p: JsonNode, version: Seq<char>)
    requires
        json_str_member(p, "name"@) is Some,
    ensures
        request_step(id, "tools/call"@, Some(p), version) is CallTool,
        request_step(id, "tools/call"@, Some(p), version)->name == json_str_member(p, "name"@)->0,
        json_get(p, "arguments"@) is Some
            ==> request_step(id, "tools/call"@, Some(p), version)->arguments == json_get(p, "arguments"@)->0,
        json_get(p, "arguments"@) is None
            ==> request_step(id, "tools/call"@, Some(p), version)->arguments == JsonNode::Object(Seq::empty()),
{
    lemma_method_names();
}

/// `tools/call` without params, or without a string `name` in them, is
/// answered with the invalid-params error and its message; no tool runs.
pub proof fn lemma_tools_call_bad_params(id: Option<u64>, params: Option<JsonNode>, version: Seq<char>)
    requires
        params is None || json_str_member(params->0, "name"@) is None,
    ensures
        request_step(id, "tools/call"@, params, version) == StepView::Respond(error_view(
            id,
            -32602i64,
            if params is None {
                "Missing params for tools/call"@
            } else {
                "Missing 'name' in tools/call params"@
            },
        )),
{
    lemma_method_names();
}

/// `initialize` is answered with protocol version `2024-11-05`, server
/// `zeptoclaw` at the given version, and capabilities that hold exactly one
/// member, `tools`, an empty object: only what the dispatch serves.
pub proof fn lemma_initialize_advertises_tools_only(id: Option<u64>, params: Option<JsonNode>, version: Seq<char>)
    ensures
        ({
            let step = request_step(id, "initialize"@, params, version);
            &&& step is Respond
            &&& step->Respond_0.error is None
            &&& step->Respond_0.id == id
            &&& step->Respond_0.result matches Some(ResultView::Value(x)) && {
                &&& json_get(x, "protocolVersion"@) == Some(JsonNode::Str("2024-11-05"@))
                &&& json_get(x, "capabilities"@) matches Some(JsonNode::Object(caps)) && {
                    &&& caps.len() == 1
                    &&& caps[0] == ("tools"@, JsonNode::Object(Seq::empty()))
                }
                &&& json_get(x, "serverInfo"@) matches Some(info) && {
                    &&& json_get(info, "name"@) == Some(JsonNode::Str("zeptoclaw"@))
                    &&& json_get(info, "version"@) == Some(JsonNode::Str(version))
                }
            }
        }),
{
    reveal_strlit("protocolVersion");
    reveal_strlit("capabilities");
    reveal_strlit("serverInfo");
    reveal_strlit("name");
    reveal_strlit("version");
    let x = initialize_result(version);
    let top = x->Object_0;
    assert(is_first_member(top, "protocolVersion"@, 0));
    assert("capabilities"@[0] != "protocolVersion"@[0]);
    assert(is_first_member(top, "capabilities"@, 1));
    assert("serverInfo"@[0] != "protocolVersion"@[0] && "serverInfo"@[0] != "capabilities"@[0]);
    assert(is_first_member(top, "serverInfo"@, 2));
    let info = top[2].1;
    assert(is_first_member(info->Object_0, "name"@, 0));
    assert("version"@[0] != "name"@[0]);
    assert(is_first_member(info->Object_0, "version"@, 1));
    let c0 = choose|i: int| is_first_member(top, "protocolVersion"@, i);
    let c1 = choose|i: int| is_first_member(top, "capabilities"@, i);
    let c2 = choose|i: int| is_first_member(top, "serverInfo"@, i);
    assert(c0 == 0 && c1 == 1 && c2 == 2);
    let d0 = choose|i: int| is_first_member(info->Object_0, "name"@, i);
    let d1 = choose|i: int| is_first_member(info->Object_0, "version"@, i);
    assert(d0 == 0 && d1 == 1);
}

/// `notifications/initialized` is acknowledged with an empty object.
pub proof fn lemma_initialized_acknowledged(id: Option<u64>, params: Option<JsonNode>, version: Seq<char>)
    ensures
        request_step(id, "notifications/initialized"@, params, version) == StepView::Respond(ResponseView {
            jsonrpc: "2.0"@,
            id,
            result: Some(ResultView::Value(JsonNode::Object(Seq::empty()))),
            error: None,
        }),
{
    lemma_method_names();
}

/// A method the server does not know is answered with method-not-found,
/// naming the method.
pub proof fn lemma_unknown_method(id: Option<u64>, method: Seq<char>, params: Option<JsonNode>, version: Seq<char>)
    requires
        method != "initialize"@,
        method != "notifications/initialized"@,
        method != "tools/list"@,
        method != "tools/call"@,
    ensures
        request_step(id, method, params, version) == StepView::Respond(
            error_view(id, -32601i64, "Method not found: "@ + method),
        ),
{
}

/// The tool list names every kernel tool, in order, with its description and
/// with its parameter schema as input schema.
pub proof fn lemma_tools_list_entries(id: Option<u64>, defs: Seq<ToolDefinition>)
    ensures
        ({
            let r = success_view(id, ResultView::Tools(defs.map_values(|d: ToolDefinition| tool_entry(d))));
            &&& r.error is None
            &&& r.result matches Some(ResultView::Tools(tools)) && {
                &&& tools.len() == defs.len()
                &&& forall|i: int| 0 <= i < defs.len() ==> {
                    &&& (#[trigger] tools[i]).name == defs[i].name@
                    &&& tools[i].description == Some(defs[i].description@)
                    &&& tools[i].input_schema == defs[i].parameters@
                }
            }
        }),
{
}

/// The `tools/call` result carries the tool's output text and error flag
/// unchanged; a tool that could not run gives `Tool execution error: ` and
/// the reason, flagged as an error.
pub proof fn lemma_call_result_contents(output: Result<(Seq<char>, bool), Seq<char>>)
    ensures
        call_result(output) is ToolCall,
        call_result(output)->texts.len() == 1,
        output matches Ok((text, flag)) ==> call_result(output)->texts[0] == text && call_result(output)->is_error == flag,
        output matches Err(e) ==> call_result(output)->texts[0] == "Tool execution error: "@ + e
            && call_result(output)->is_error,
{
}

// ---------------------------------------------------------------------------
// Summary of an OpenClaw config
// ---------------------------------------------------------------------------

pub open spec fn opt_json_ref(r: Option<&JsonValue>) -> Option<JsonNode> {
    match r {
        Some(v) => Some(v@),
        None => None,
    }
}

/// `get(key)` on a JSON value, by reference.
pub fn json_member<'a>(v: &'a JsonValue, key: &str) -> (r: Option<&'a JsonValue>)
    ensures
        opt_json_ref(r) == json_get(v@, key@),
{
    match v {
        JsonValue::Object(members) => {
            let ghost ms = v@->Object_0;
            assert(forall|k: int| 0 <= k < members.len() ==> #[trigger] ms[k] == (members@[k].0@, members@[k].1@));
            match member_index(members, key) {
                Some(i) => {
                    assert(is_first_member(ms, key@, i as int));
                    let ghost c = choose|c: int| is_first_member(ms, key@, c);
                    assert(c == i);
                    Some(&members[i].1)
                },
                None => {
                    assert(!exists|c: int| is_first_member(ms, key@, c));
                    None
                },
            }
        },
        _ => None,
    }
}

/// The number of members of `v` if it is an object (`as_object().map(len)`), 0 otherwise.
pub open spec fn member_count(v: Option<JsonNode>) -> nat {
    match v {
        Some(JsonNode::Object(ms)) => ms.len(),
        _ => 0,
    }
}

/// The providers an OpenClaw config configures: the members of `models.providers`.
pub open spec fn provider_count(c: JsonNode) -> nat {
    member_count(
        match json_get(c, "models"@) {
            Some(m) => json_get(m, "providers"@),
            None => None,
        },
    )
}

/// The channels an OpenClaw config configures: the members of `channels`.
pub open spec fn channel_count(c: JsonNode) -> nat {
    member_count(json_get(c, "channels"@))
}

fn object_len(v: Option<&JsonValue>) -> (r: usize)
    ensures
        r as nat == member_count(opt_json_ref(v)),
{
    match v {
        Some(JsonValue::Object(ms)) => ms.len(),
        _ => 0,
    }
}

/// The provider and channel counts that `claide migrate` shows for an
/// OpenClaw config: the members of `models.providers` and of `channels`
/// (0 where either is missing or not an object).
pub fn summary_counts(c: &JsonValue) -> (r: (usize, usize))
    ensures
        r.0 as nat == provider_count(c@),
        r.1 as nat == channel_count(c@),
{
    let providers = match json_member(c, "models") {
        Some(m) => json_member(m, "providers"),
        None => None,
    };
    (object_len(providers), object_len(json_member(c, "channels")))
}

} // verus!
