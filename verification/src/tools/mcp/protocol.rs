//! The messages between an MCP client and its server.

use vstd::prelude::*;
use vstd::string::*;
use crate::json::{Json, JsonModel};

verus! {

/// A JSON-RPC request.
pub struct McpRequest {
    pub id: u64,
    pub method: String,
    pub params: Option<Json>,
}

/// What a request says.
#[verifier::ext_equal]
pub struct RequestModel {
    pub id: u64,
    pub method: Seq<char>,
    pub params: Option<JsonModel>,
}

impl View for McpRequest {
    type V = RequestModel;

    open spec fn view(&self) -> RequestModel {
        RequestModel { id: self.id, method: self.method@, params: json_option(self.params) }
    }
}

/// What an optional value says.
pub open spec fn json_option(value: Option<Json>) -> Option<JsonModel> {
    match value {
        Some(value) => Some(value@),
        None => None,
    }
}

impl McpRequest {
    /// A request for `method`.
    pub fn new(id: u64, method: &str, params: Option<Json>) -> (r: McpRequest)
        ensures
            r@ == (RequestModel { id, method: method@, params: json_option(params) }),
    {
        McpRequest { id, method: method.to_string(), params }
    }
}

/// The error that a server reports.
pub struct McpError {
    pub message: String,
}

/// A JSON-RPC response.
pub struct McpResponse {
    pub result: Option<Json>,
    pub error: Option<McpError>,
}

/// What a response says.
#[verifier::ext_equal]
pub struct ResponseModel {
    pub result: Option<JsonModel>,
    pub error: Option<Seq<char>>,
}

impl View for McpResponse {
    type V = ResponseModel;

    open spec fn view(&self) -> ResponseModel {
        ResponseModel {
            result: json_option(self.result),
            error: match self.error {
                Some(error) => Some(error.message@),
                None => None,
            },
        }
    }
}

/// A tool that a server offers.
pub struct McpTool {
    pub name: String,
    pub description: Option<String>,
    pub input_schema: Json,
}

/// What the description of a tool says.
#[verifier::ext_equal]
pub struct ToolModel {
    pub name: Seq<char>,
    pub description: Option<Seq<char>>,
    pub input_schema: JsonModel,
}

impl View for McpTool {
    type V = ToolModel;

    open spec fn view(&self) -> ToolModel {
        ToolModel {
            name: self.name@,
            description: match self.description {
                Some(s) => Some(s@),
                None => None,
            },
            input_schema: self.input_schema@,
        }
    }
}

/// What the descriptions of a list of tools say.
pub open spec fn tool_models(tools: Seq<McpTool>) -> Seq<ToolModel> {
    tools.map_values(|t: McpTool| t@)
}

impl McpTool {
    /// A second description that says the same.
    pub fn copy(&self) -> (r: McpTool)
        ensures
            r@ == self@,
    {
        McpTool {
            name: self.name.clone(),
            description: match &self.description {
                Some(s) => Some(s.clone()),
                None => None,
            },
            input_schema: self.input_schema.copy(),
        }
    }
}

/// A second list that says the same.
pub fn copy_tools(tools: &Vec<McpTool>) -> (r: Vec<McpTool>)
    ensures
        tool_models(r@) == tool_models(tools@),
{
    let mut out: Vec<McpTool> = Vec::new();
    let mut i: usize = 0;
    while i < tools.len()
        invariant
            i <= tools.len(),
            out.len() == i,
            forall|j: int| 0 <= j < i ==> (#[trigger] out@[j])@ == tools@[j]@,
        decreases tools.len() - i,
    {
        out.push(tools[i].copy());
        i = i + 1;
    }
    proof {
        assert(tool_models(out@) =~= tool_models(tools@));
    }
    out
}

} // verus!
