//! Laws of the client of an MCP server.

use vstd::prelude::*;
use vstd::string::*;
use crate::json::JsonModel;
use crate::tools::mcp::client::{
    call_result, handshake, handshake_result, listing, listing_result, new_client, noted,
    reply_response, reply_result, tool_call, ClientModel, HttpAnswer, HttpReply, ListingModel,
};
use crate::tools::mcp::protocol::{tool_models, McpResponse, McpTool, ResponseModel};

verus! {

/// The response in a reply is that of an answer with a status of success. A
/// request that failed, a refusal and a body that is no response are errors, each
/// with what is known of it.
pub proof fn response_in_a_reply(reason: String, answer: HttpAnswer)
    ensures
        reply_response(HttpReply::Failed(reason)) == Err::<ResponseModel, Seq<char>>(
            "HTTP request failed: "@ + reason@,
        ),
        200 <= answer.status <= 299 ==> (match answer.response {
            Ok(response) => reply_response(HttpReply::Answered(answer)) == Ok::<
                ResponseModel,
                Seq<char>,
            >(response@),
            Err(why) => reply_response(HttpReply::Answered(answer)) == Err::<
                ResponseModel,
                Seq<char>,
            >("Failed to parse MCP response: "@ + why@),
        }),
        !(200 <= answer.status <= 299) ==> (match answer.body {
            Some(body) => reply_response(HttpReply::Answered(answer)) == Err::<
                ResponseModel,
                Seq<char>,
            >("HTTP "@ + answer.status_text@ + " from MCP server: "@ + body@),
            None => reply_response(HttpReply::Answered(answer)) == Err::<ResponseModel, Seq<char>>(
                "HTTP "@ + answer.status_text@ + " from MCP server: "@,
            ),
        }),
{
    let head = "HTTP "@ + answer.status_text@ + " from MCP server: "@;
    assert(head + Seq::<char>::empty() =~= head);
}

/// What a response says.
pub proof fn what_a_response_holds(response: McpResponse)
    ensures
        response.error matches Some(error) ==> response@.error == Some(error.message@),
        response.error is None ==> response@.error is None,
        response.result matches Some(result) ==> response@.result == Some(result@),
        response.result is None ==> response@.result is None,
{
}

/// What came of the handshake, of the listing and of a call is the result of the
/// response; an error that it reports comes first, under the name of the request.
/// Without either, the handshake gives null and the others an error.
pub proof fn results_of_the_requests(reply: HttpReply, response: ResponseModel)
    requires
        reply_response(reply) == Ok::<ResponseModel, Seq<char>>(response),
    ensures
        response.error matches Some(message) ==> {
            &&& handshake_result(reply) == Err::<JsonModel, Seq<char>>(
                "MCP "@ + "initialize"@ + " error: "@ + message,
            )
            &&& listing_result(reply) == Err::<JsonModel, Seq<char>>(
                "MCP "@ + "tools/list"@ + " error: "@ + message,
            )
            &&& call_result(reply) == Err::<JsonModel, Seq<char>>(
                "MCP "@ + "tools/call"@ + " error: "@ + message,
            )
        },
        response.error is None && response.result is Some ==> {
            &&& handshake_result(reply) == Ok::<JsonModel, Seq<char>>(response.result->0)
            &&& listing_result(reply) == Ok::<JsonModel, Seq<char>>(response.result->0)
            &&& call_result(reply) == Ok::<JsonModel, Seq<char>>(response.result->0)
        },
        response.error is None && response.result is None ==> {
            &&& handshake_result(reply) == Ok::<JsonModel, Seq<char>>(JsonModel::Null)
            &&& listing_result(reply) == Err::<JsonModel, Seq<char>>(
                "No result in tools/list response"@,
            )
            &&& call_result(reply) == Err::<JsonModel, Seq<char>>(
                "No result in tools/call response"@,
            )
        },
{
}

/// A reply without a response gives its error, whatever was asked.
pub proof fn errors_come_through(
    reply: HttpReply,
    error: Seq<char>,
    call: Seq<char>,
    missing: Result<JsonModel, Seq<char>>,
)
    requires
        reply_response(reply) == Err::<ResponseModel, Seq<char>>(error),
    ensures
        reply_result(reply, call, missing) == Err::<JsonModel, Seq<char>>(error),
        handshake_result(reply) == Err::<JsonModel, Seq<char>>(error),
        listing_result(reply) == Err::<JsonModel, Seq<char>>(error),
        call_result(reply) == Err::<JsonModel, Seq<char>>(error),
{
}

/// A new client knows its server and no tools, and begins to count at one.
pub proof fn new_clients(name: Seq<char>, url: Seq<char>, timeout_secs: u64)
    ensures
        new_client(name, url, timeout_secs).server_name == name,
        new_client(name, url, timeout_secs).url == url,
        new_client(name, url, timeout_secs).timeout_secs == timeout_secs,
        new_client(name, url, timeout_secs).next_id == 1,
        new_client(name, url, timeout_secs).tools is None,
{
}

/// Each request has the next id of the client and the method that it is for. The
/// handshake carries its parameters, a call the name of the tool and its
/// arguments and nothing else, and a listing nothing.
pub proof fn requests_of_a_client(client: ClientModel, name: Seq<char>, value: JsonModel)
    ensures
        handshake(client, value).id == client.next_id,
        handshake(client, value).method == "initialize"@,
        handshake(client, value).params == Some(value),
        tool_call(client, name, value).id == client.next_id,
        tool_call(client, name, value).method == "tools/call"@,
        tool_call(client, name, value).params matches Some(JsonModel::Object(params)) && {
            &&& params.dom() == set!["name"@, "arguments"@]
            &&& params["name"@] == JsonModel::Text(name)
            &&& params["arguments"@] == value
        },
        client.tools is None ==> (listing(client).0 matches ListingModel::Ask(request)
            && request.id == client.next_id && request.method == "tools/list"@
            && request.params is None && listing(client).1 == client.advanced()),
        client.tools matches Some(tools) ==> listing(client) == (
            ListingModel::Known(tools),
            client,
        ),
{
    reveal_strlit("name");
    reveal_strlit("arguments");
    assert("name"@.len() == 4 && "arguments"@.len() == 9);
    let params = tool_call(client, name, value).params->0->Object_0;
    assert(params.dom() =~= set!["name"@, "arguments"@]);
}

/// Tools that could be read are handed on and known from then on; where they
/// could not, the client stays as it is and the error has the reason.
pub proof fn tools_are_noted(client: ClientModel, tools: Vec<McpTool>, reason: String)
    ensures
        noted(client, Ok(tools)).0 == Ok::<
            Seq<crate::tools::mcp::protocol::ToolModel>,
            Seq<char>,
        >(tool_models(tools@)),
        noted(client, Ok(tools)).1.tools == Some(tool_models(tools@)),
        noted(client, Ok(tools)).1 == (ClientModel {
            tools: noted(client, Ok(tools)).1.tools,
            ..client
        }),
        noted(client, Err(reason)).0 == Err::<
            Seq<crate::tools::mcp::protocol::ToolModel>,
            Seq<char>,
        >("Failed to parse tools list: "@ + reason@),
        noted(client, Err(reason)).1 == client,
{
}

/// What is known of each tool is its name, its description and its schema.
pub proof fn what_is_known_of_tools(tools: Seq<McpTool>)
    ensures
        tool_models(tools).len() == tools.len(),
        forall|i: int|
            0 <= i < tools.len() ==> {
                let known = #[trigger] tool_models(tools)[i];
                &&& known.name == tools[i].name@
                &&& tools[i].description matches Some(text) ==> known.description == Some(text@)
                &&& tools[i].description is None ==> known.description is None
                &&& known.input_schema == tools[i].input_schema@
            },
{
}

/// Learning or forgetting the tools, and taking an id, change nothing else of a
/// client.
pub proof fn client_keeps_the_rest(client: ClientModel)
    ensures
        client.knowing(None).tools is None,
        client.knowing(None) == (ClientModel { tools: client.knowing(None).tools, ..client }),
        client.next_id < 0xffff_ffff_ffff_ffff ==> client.advanced().next_id == client.next_id + 1,
        client.next_id == 0xffff_ffff_ffff_ffff ==> client.advanced().next_id == 0,
        client.advanced() == (ClientModel { next_id: client.advanced().next_id, ..client }),
{
}

} // verus!
