//! A client of an MCP server.
//!
//! The client makes the requests and reads the replies; sending them is up to
//! the caller. A call goes in steps: the client gives a request, the caller
//! posts it to [`McpClient::url`] and hands the reply back.

use vstd::prelude::*;
use vstd::string::*;
use crate::http::{is_success, success_status};
use crate::json::{put, Json, JsonModel};
use crate::tools::mcp::protocol::{
    copy_tools, tool_models, McpRequest, McpResponse, McpTool, RequestModel, ResponseModel,
    ToolModel,
};

verus! {

/// What came back for a request that was posted.
pub enum HttpReply {
    /// Nothing: the request failed for the given reason.
    Failed(String),
    /// An answer of the server.
    Answered(HttpAnswer),
}

/// An answer of the server.
pub struct HttpAnswer {
    /// The status code.
    pub status: u16,
    /// The status with its text, as it is printed.
    pub status_text: String,
    /// The body as text; `None` where it could not be read.
    pub body: Option<String>,
    /// The body as a JSON-RPC response, or why it is none.
    pub response: Result<McpResponse, String>,
}

/// The response in a reply, or what went wrong.
pub open spec fn reply_response(reply: HttpReply) -> Result<ResponseModel, Seq<char>> {
    match reply {
        HttpReply::Failed(reason) => Err("HTTP request failed: "@ + reason@),
        HttpReply::Answered(answer) => if !success_status(answer.status) {
            Err(
                "HTTP "@ + answer.status_text@ + " from MCP server: "@ + (match answer.body {
                    Some(body) => body@,
                    None => Seq::empty(),
                }),
            )
        } else {
            match answer.response {
                Ok(response) => Ok(response@),
                Err(reason) => Err("Failed to parse MCP response: "@ + reason@),
            }
        },
    }
}

/// The result in a reply to `call`, or what went wrong. `missing` stands for a
/// result that is not there.
pub open spec fn reply_result(
    reply: HttpReply,
    call: Seq<char>,
    missing: Result<JsonModel, Seq<char>>,
) -> Result<JsonModel, Seq<char>> {
    match reply_response(reply) {
        Err(e) => Err(e),
        Ok(response) => match response.error {
            Some(message) => Err("MCP "@ + call + " error: "@ + message),
            None => match response.result {
                Some(result) => Ok(result),
                None => missing,
            },
        },
    }
}

/// What an outcome with a JSON value says.
pub open spec fn json_outcome(r: Result<Json, String>) -> Result<JsonModel, Seq<char>> {
    match r {
        Ok(value) => Ok(value@),
        Err(e) => Err(e@),
    }
}

/// Two strings, one behind the other.
fn prefixed(prefix: &str, rest: &str) -> (r: String)
    ensures
        r@ == prefix@ + rest@,
{
    let mut out = prefix.to_string();
    out.append(rest);
    out
}

/// The response in a reply.
fn response_in(reply: HttpReply) -> (r: Result<McpResponse, String>)
    ensures
        match r {
            Ok(response) => reply_response(reply) == Ok::<ResponseModel, Seq<char>>(response@),
            Err(e) => reply_response(reply) == Err::<ResponseModel, Seq<char>>(e@),
        },
{
    match reply {
        HttpReply::Failed(reason) => Err(prefixed("HTTP request failed: ", reason.as_str())),
        HttpReply::Answered(answer) => {
            if !is_success(answer.status) {
                let mut text = prefixed("HTTP ", answer.status_text.as_str());
                text.append(" from MCP server: ");
                let ghost before = text@;
                match answer.body {
                    Some(body) => text.append(body.as_str()),
                    None => {},
                }
                proof {
                    assert(before + Seq::<char>::empty() =~= before);
                }
                return Err(text);
            }
            match answer.response {
                Ok(response) => Ok(response),
                Err(reason) => Err(prefixed("Failed to parse MCP response: ", reason.as_str())),
            }
        },
    }
}

/// The result in a reply to `call`.
fn result_in(reply: HttpReply, call: &str, missing: Result<Json, String>) -> (r: Result<
    Json,
    String,
>)
    ensures
        json_outcome(r) == reply_result(reply, call@, json_outcome(missing)),
{
    let response = match response_in(reply) {
        Ok(response) => response,
        Err(e) => return Err(e),
    };
    match response.error {
        Some(error) => {
            let mut text = prefixed("MCP ", call);
            text.append(" error: ");
            text.append(error.message.as_str());
            Err(text)
        },
        None => match response.result {
            Some(result) => Ok(result),
            None => missing,
        },
    }
}

/// What to do to learn the tools of the server.
pub enum Listing {
    /// Nothing: they are known.
    Known(Vec<McpTool>),
    /// Send the request.
    Ask(McpRequest),
}

/// What a listing says.
#[verifier::ext_equal]
pub enum ListingModel {
    Known(Seq<ToolModel>),
    Ask(RequestModel),
}

impl View for Listing {
    type V = ListingModel;

    open spec fn view(&self) -> ListingModel {
        match *self {
            Listing::Known(tools) => ListingModel::Known(tool_models(tools@)),
            Listing::Ask(request) => ListingModel::Ask(request@),
        }
    }
}

/// What a client does to learn the tools, and its state then.
pub open spec fn listing(client: ClientModel) -> (ListingModel, ClientModel) {
    match client.tools {
        Some(tools) => (ListingModel::Known(tools), client),
        None => (
            ListingModel::Ask(
                RequestModel { id: client.next_id, method: "tools/list"@, params: None },
            ),
            client.advanced(),
        ),
    }
}

/// A client of an MCP server.
pub struct McpClient {
    url: String,
    server_name: String,
    timeout_secs: u64,
    next_id: u64,
    tools_cache: Option<Vec<McpTool>>,
}

/// The state of a client.
#[verifier::ext_equal]
pub struct ClientModel {
    pub url: Seq<char>,
    pub server_name: Seq<char>,
    pub timeout_secs: u64,
    pub next_id: u64,
    pub tools: Option<Seq<ToolModel>>,
}

impl ClientModel {
    /// The state after a request has taken its id. After the last id of all,
    /// zero follows.
    pub open spec fn advanced(self) -> ClientModel {
        ClientModel { next_id: self.next_id.wrapping_add(1), ..self }
    }

    /// The state in which the tools are known, or unknown.
    pub open spec fn knowing(self, tools: Option<Seq<ToolModel>>) -> ClientModel {
        ClientModel { tools, ..self }
    }
}

/// The state of a new client of the server `name` at `url`.
pub open spec fn new_client(name: Seq<char>, url: Seq<char>, timeout_secs: u64) -> ClientModel {
    ClientModel { url, server_name: name, timeout_secs, next_id: 1, tools: None }
}

/// The request of the handshake.
pub open spec fn handshake(client: ClientModel, params: JsonModel) -> RequestModel {
    RequestModel { id: client.next_id, method: "initialize"@, params: Some(params) }
}

/// What the reply to the handshake says. A result that is not there counts as
/// null.
pub open spec fn handshake_result(reply: HttpReply) -> Result<JsonModel, Seq<char>> {
    reply_result(reply, "initialize"@, Ok(JsonModel::Null))
}

/// What the reply to a request for the tools says.
pub open spec fn listing_result(reply: HttpReply) -> Result<JsonModel, Seq<char>> {
    reply_result(reply, "tools/list"@, Err("No result in tools/list response"@))
}

/// The request to call a tool.
pub open spec fn tool_call(
    client: ClientModel,
    name: Seq<char>,
    arguments: JsonModel,
) -> RequestModel {
    RequestModel {
        id: client.next_id,
        method: "tools/call"@,
        params: Some(
            JsonModel::Object(
                Map::empty().insert("name"@, JsonModel::Text(name)).insert("arguments"@, arguments),
            ),
        ),
    }
}

/// What the reply to the call of a tool says.
pub open spec fn call_result(reply: HttpReply) -> Result<JsonModel, Seq<char>> {
    reply_result(reply, "tools/call"@, Err("No result in tools/call response"@))
}

/// What comes of the value that lists the tools, and the state of the client
/// then.
pub open spec fn noted(client: ClientModel, parsed: Result<Vec<McpTool>, String>) -> (
    Result<Seq<ToolModel>, Seq<char>>,
    ClientModel,
) {
    match parsed {
        Ok(tools) => (
            Ok(tool_models(tools@)),
            client.knowing(Some(tool_models(tools@))),
        ),
        Err(reason) => (Err("Failed to parse tools list: "@ + reason@), client),
    }
}

/// What an outcome with a list of tools says.
pub open spec fn tools_outcome(r: Result<Vec<McpTool>, String>) -> Result<
    Seq<ToolModel>,
    Seq<char>,
> {
    match r {
        Ok(tools) => Ok(tool_models(tools@)),
        Err(e) => Err(e@),
    }
}

impl View for McpClient {
    type V = ClientModel;

    closed spec fn view(&self) -> ClientModel {
        ClientModel {
            url: self.url@,
            server_name: self.server_name@,
            timeout_secs: self.timeout_secs,
            next_id: self.next_id,
            tools: match self.tools_cache {
                Some(tools) => Some(tool_models(tools@)),
                None => None,
            },
        }
    }
}

impl McpClient {
    /// A client of the server `name` at `url`. It knows no tools yet, and its
    /// first request has the id 1.
    pub fn new(name: &str, url: &str, timeout_secs: u64) -> (r: McpClient)
        ensures
            r@ == new_client(name@, url@, timeout_secs),
    {
        McpClient {
            url: url.to_string(),
            server_name: name.to_string(),
            timeout_secs,
            next_id: 1,
            tools_cache: None,
        }
    }

    /// The id of the next request.
    pub fn next_request_id(&mut self) -> (r: u64)
        ensures
            r == old(self)@.next_id,
            final(self)@ == old(self)@.advanced(),
    {
        let id: u64 = self.next_id;
        self.next_id = id.wrapping_add(1);
        id
    }

    /// The name of the server.
    pub fn server_name(&self) -> (r: &str)
        ensures
            r@ == self@.server_name,
    {
        self.server_name.as_str()
    }

    /// Where the server takes requests.
    pub fn url(&self) -> (r: &str)
        ensures
            r@ == self@.url,
    {
        self.url.as_str()
    }

    /// How many seconds a request may take.
    pub fn timeout_secs(&self) -> (r: u64)
        ensures
            r == self@.timeout_secs,
    {
        self.timeout_secs
    }

    /// The tools of the server, where they are known.
    pub fn cached_tools(&self) -> (r: Option<&Vec<McpTool>>)
        ensures
            self@.tools == (match r {
                Some(tools) => Some(tool_models(tools@)),
                None => None,
            }),
    {
        match &self.tools_cache {
            Some(tools) => Some(tools),
            None => None,
        }
    }

    /// The request of the handshake.
    pub fn initialize(&mut self, params: Json) -> (r: McpRequest)
        ensures
            r@ == handshake(old(self)@, params@),
            final(self)@ == old(self)@.advanced(),
    {
        let id: u64 = self.next_request_id();
        McpRequest::new(id, "initialize", Some(params))
    }

    /// Reads the reply to the handshake. A result that is not there counts as
    /// null.
    pub fn initialized(&self, reply: HttpReply) -> (r: Result<Json, String>)
        ensures
            json_outcome(r) == handshake_result(reply),
    {
        result_in(reply, "initialize", Ok(Json::Null))
    }

    /// What to do to learn the tools of the server: nothing where they are
    /// known, else to ask for them.
    pub fn list_tools(&mut self) -> (r: Listing)
        ensures
            (r@, final(self)@) == listing(old(self)@),
    {
        match &self.tools_cache {
            Some(tools) => Listing::Known(copy_tools(tools)),
            None => {
                let id: u64 = self.next_request_id();
                Listing::Ask(McpRequest::new(id, "tools/list", None))
            },
        }
    }

    /// Reads the reply to a request for the tools: the JSON value that lists
    /// them.
    pub fn tools_reply(&self, reply: HttpReply) -> (r: Result<Json, String>)
        ensures
            json_outcome(r) == listing_result(reply),
    {
        result_in(reply, "tools/list", Err("No result in tools/list response".to_string()))
    }

    /// Takes note of the tools, if the value that lists them could be read.
    pub fn tools_listed(&mut self, parsed: Result<Vec<McpTool>, String>) -> (r: Result<
        Vec<McpTool>,
        String,
    >)
        ensures
            (tools_outcome(r), final(self)@) == noted(old(self)@, parsed),
    {
        match parsed {
            Ok(tools) => {
                let copy = copy_tools(&tools);
                self.tools_cache = Some(copy);
                Ok(tools)
            },
            Err(reason) => Err(prefixed("Failed to parse tools list: ", reason.as_str())),
        }
    }

    /// The request to call a tool.
    pub fn call_tool(&mut self, name: &str, arguments: Json) -> (r: McpRequest)
        ensures
            r@ == tool_call(old(self)@, name@, arguments@),
            final(self)@ == old(self)@.advanced(),
    {
        let mut params: Vec<(String, Json)> = Vec::new();
        put(&mut params, "name", Json::text(name));
        put(&mut params, "arguments", arguments);
        let id: u64 = self.next_request_id();
        McpRequest::new(id, "tools/call", Some(Json::Object(params)))
    }

    /// Reads the reply to the call of a tool: the JSON value with its result.
    pub fn call_reply(&self, reply: HttpReply) -> (r: Result<Json, String>)
        ensures
            json_outcome(r) == call_result(reply),
    {
        result_in(reply, "tools/call", Err("No result in tools/call response".to_string()))
    }

    /// The result of the call of a tool, if the value that holds it could be
    /// read.
    pub fn tool_called<T>(&self, parsed: Result<T, String>) -> (r: Result<T, String>)
        ensures
            match parsed {
                Ok(value) => r == Ok::<T, String>(value),
                Err(reason) => r matches Err(e) && e@ == "Failed to parse tool call result: "@
                    + reason@,
            },
    {
        match parsed {
            Ok(value) => Ok(value),
            Err(reason) => Err(prefixed("Failed to parse tool call result: ", reason.as_str())),
        }
    }

    /// Forgets the tools, so that the next listing asks for them.
    pub fn invalidate_cache(&mut self)
        ensures
            final(self)@ == old(self)@.knowing(None),
    {
        self.tools_cache = None;
    }
}

/// The state of a client after `n` requests.
pub open spec fn after_requests(client: ClientModel, n: nat) -> ClientModel
    decreases n,
{
    if n == 0 {
        client
    } else {
        after_requests(client, (n - 1) as nat).advanced()
    }
}

/// The ids of the requests of a client count up, through all of `u64` and round
/// again, and nothing else of its state changes.
pub proof fn request_ids_count_up(client: ClientModel, n: nat)
    ensures
        after_requests(client, n) == (ClientModel {
            next_id: ((client.next_id + n) % 0x1_0000_0000_0000_0000) as u64,
            ..client
        }),
    decreases n,
{
    if n > 0 {
        request_ids_count_up(client, (n - 1) as nat);
    }
}

/// No two requests of a client have one id, unless all ids were used between
/// them.
pub proof fn request_ids_are_distinct(client: ClientModel, m: nat, n: nat)
    requires
        m < n < m + 0x1_0000_0000_0000_0000,
    ensures
        after_requests(client, m).next_id != after_requests(client, n).next_id,
{
    request_ids_count_up(client, m);
    request_ids_count_up(client, n);
}

/// Once the tools are known they are listed without a request, whatever
/// requests are made meanwhile, and the listing changes nothing.
pub proof fn known_tools_are_listed(client: ClientModel, tools: Seq<ToolModel>, n: nat)
    ensures
        ({
            let later = after_requests(client.knowing(Some(tools)), n);
            listing(later) == (ListingModel::Known(tools), later)
        }),
{
    request_ids_count_up(client.knowing(Some(tools)), n);
}

/// After the tools were forgotten, listing them takes a request.
pub proof fn forgotten_tools_are_asked_for(client: ClientModel)
    ensures
        listing(client.knowing(None)).0 is Ask,
{
}

} // verus!
