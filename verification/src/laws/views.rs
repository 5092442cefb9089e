//! Laws of the models in which the contracts speak: each says all that the value
//! holds.

use vstd::prelude::*;
use vstd::string::*;
use crate::channels::persona_switch::{entry_texts, opt_command, PersonaCommand, PersonaPreset};
use crate::channels::serial::{ChannelModel, SerialOutbound};
use crate::clock::{rfc3339_instant, timestamp};
use crate::error::{outcome, ErrorModel, ZeptoError};
use crate::hardware::introspect::{
    board_models, device_models, BoardInfo, IntrospectResult, UsbDevice,
};
use crate::json::{items_model, items_model_index, opt_json, opt_text, Json};
use crate::paths::{no_verbatim_prefix, path_steps};
use crate::peripherals::board_profile::BoardProfile;
use crate::peripherals::nvs::{reply_output, tool_error, verdict, DeviceCommand};
use crate::providers::chat::LLMResponse;
use crate::providers::gemini::{
    opt_auth, text_pairs, ChatError, ChatErrorModel, AuthModel, GeminiAuth, GeminiRequest,
};
use crate::session::{message_models, Message};
use crate::text::{opt_string, texts};
use crate::text_map::{map_of, map_of_pairs, distinct_keys, has_key};
use crate::tools::composed::{
    def_models, param_models, parse_error, usual_place, ComposedToolDef, ParamDef,
};
use crate::tools::create_tool::{NewTool, StoreChange};
use crate::tools::mcp::protocol::McpRequest;
use crate::tools::output::{OutputModel, ToolOutput};
use crate::tools::template::arg_texts;

verus! {

/// What is said of an optional value is what is said of the value.
pub proof fn optional_values(s: String, t: &str, json: &Json, auth: GeminiAuth)
    ensures
        opt_string(Some(s)) == Some(s@),
        opt_string(None) is None,
        opt_text(Some(t)) == Some(t@),
        opt_text(None) is None,
        opt_json(Some(json)) == Some(json@),
        opt_json(None) is None,
        opt_auth(Some(auth)) == Some(auth@),
        opt_auth(None) is None,
        opt_command(None) is None,
{
}

/// A result is a success just where it is one, with its value; an error keeps its
/// kind and its message.
pub proof fn results(output: ToolOutput, e: ZeptoError, text: String, fault: Seq<char>)
    ensures
        outcome::<ToolOutput>(Ok(output)) == Ok::<OutputModel, ErrorModel>(output@),
        outcome::<ToolOutput>(Err(e)) == Err::<OutputModel, ErrorModel>(e@),
        verdict(Ok(())) is None,
        verdict(Err(e)) == Some(e@),
        tool_error(None) is None,
        tool_error(Some(fault)) == Some(ErrorModel::Tool(fault)),
        ZeptoError::Tool(text)@ == ErrorModel::Tool(text@),
        ZeptoError::Config(text)@ == ErrorModel::Config(text@),
        ZeptoError::Provider(text)@ == ErrorModel::Provider(text@),
        parse_error(text@) == ErrorModel::Tool("Failed to parse composed tools file: "@ + text@),
{
}

/// What a tool hands back, to the model and to the user.
pub proof fn outputs(output: ToolOutput)
    ensures
        output@.for_llm == output.for_llm@,
        output.for_user matches Some(text) ==> output@.for_user == Some(text@),
        output.for_user is None ==> output@.for_user is None,
{
}

/// The reply of a board goes to the model as it is; an error stays one.
pub proof fn replies_of_a_board(text: String, e: ZeptoError)
    ensures
        reply_output(Ok(text)) matches Ok(output) && output.for_llm == text@
            && output.for_user is None,
        reply_output(Err(e)) == Err::<OutputModel, ErrorModel>(e@),
{
}

/// A definition says its texts and its parameters, each with its three fields.
pub proof fn definitions(def: ComposedToolDef, tool: NewTool, param: ParamDef)
    ensures
        def@.name == def.name@,
        def@.description == def.description@,
        def@.action == def.action@,
        def@.created_at == def.created_at@,
        def@.parameters == param_models(def.parameters.pairs()),
        tool@.name == tool.name@,
        tool@.description == tool.description@,
        tool@.action == tool.action@,
        tool@.parameters == param_models(tool.parameters.pairs()),
        param@.param_type == param.param_type@,
        param@.description == param.description@,
        param@.required == param.required,
{
}

/// A change says what is answered and, where there is something, what is stored.
pub proof fn changes(change: StoreChange)
    ensures
        change@.output == change.output@,
        change.store matches Some(defs) ==> change@.store == Some(def_models(defs@)),
        change.store is None ==> change@.store is None,
{
}

/// What is said of a list is what is said of each of its items, in order.
pub proof fn lists(
    defs: Seq<ComposedToolDef>,
    params: Seq<(Seq<char>, ParamDef)>,
    args: Seq<(Seq<char>, String)>,
    items: Seq<Json>,
    strings: Seq<String>,
    messages: Seq<Message>,
    named: Seq<(String, String)>,
    i: int,
)
    ensures
        def_models(defs).len() == defs.len(),
        0 <= i < defs.len() ==> def_models(defs)[i] == defs[i]@,
        param_models(params).len() == params.len(),
        0 <= i < params.len() ==> param_models(params)[i] == (params[i].0, params[i].1@),
        arg_texts(args).len() == args.len(),
        0 <= i < args.len() ==> arg_texts(args)[i] == (args[i].0, args[i].1@),
        items_model(items).len() == items.len(),
        0 <= i < items.len() ==> items_model(items)[i] == items[i]@,
        texts(strings).len() == strings.len(),
        0 <= i < strings.len() ==> texts(strings)[i] == strings[i]@,
        message_models(messages).len() == messages.len(),
        0 <= i < messages.len() ==> message_models(messages)[i].role == messages[i].role
            && message_models(messages)[i].content == messages[i].content@,
        text_pairs(named).len() == named.len(),
        0 <= i < named.len() ==> text_pairs(named)[i] == (named[i].0@, named[i].1@),
        entry_texts(named).len() == named.len(),
        0 <= i < named.len() ==> entry_texts(named)[i] == (named[i].0@, named[i].1@),
{
    items_model_index(items);
}

/// A list of distinct keys denotes the map with just its keys and values.
pub proof fn maps<V>(pairs: Seq<(Seq<char>, V)>, i: int)
    requires
        distinct_keys(pairs),
        0 <= i < pairs.len(),
    ensures
        map_of(pairs).dom().contains(pairs[i].0),
        map_of(pairs)[pairs[i].0] == pairs[i].1,
        forall|k: Seq<char>| #[trigger]
            map_of(pairs).dom().contains(k) ==> exists|j: int|
                0 <= j < pairs.len() && (#[trigger] pairs[j]).0 == k,
{
    map_of_pairs(pairs);
    assert(has_key(pairs, pairs[i].0));
}

/// What is said of devices and boards, and what is found out.
pub proof fn devices_and_boards(
    devices: Seq<UsbDevice>,
    boards: Seq<BoardInfo>,
    found: IntrospectResult,
    profile: BoardProfile,
    i: int,
)
    ensures
        device_models(devices).len() == devices.len(),
        0 <= i < devices.len() ==> {
            let said = device_models(devices)[i];
            &&& said.vid == devices[i].vid
            &&& said.pid == devices[i].pid
            &&& said.board_name == opt_string(devices[i].board_name)
            &&& said.architecture == opt_string(devices[i].architecture)
        },
        board_models(boards).len() == boards.len(),
        0 <= i < boards.len() ==> {
            let said = board_models(boards)[i];
            &&& said.vid == boards[i].vid
            &&& said.pid == boards[i].pid
            &&& said.name == boards[i].name@
            &&& said.architecture == opt_string(boards[i].architecture)
        },
        found@.path == found.path@,
        found@.vid == found.vid,
        found@.pid == found.pid,
        found@.board_name == opt_string(found.board_name),
        found@.architecture == opt_string(found.architecture),
        found@.memory_map_note == found.memory_map_note@,
        profile@.name == profile.name@,
        profile@.gpio_pins == profile.gpio_pins@,
        profile@.adc_pins == profile.adc_pins@,
        profile@.i2c_buses == profile.i2c_buses@,
        profile@.has_nvs == profile.has_nvs,
        profile@.has_pwm == profile.has_pwm,
{
}

/// What goes out: to a board, to a device, to an MCP server and to Gemini.
pub proof fn what_goes_out(
    command: DeviceCommand,
    line: SerialOutbound,
    call: McpRequest,
    request: GeminiRequest,
)
    ensures
        command@.name == command.name@,
        command@.args == command.args@,
        line@.msg_type == line.msg_type@,
        line@.text == line.text@,
        call@.id == call.id,
        call@.method == call.method@,
        call.params matches Some(params) ==> call@.params == Some(params@),
        call.params is None ==> call@.params is None,
        request@.url == request.url@,
        request@.query == text_pairs(request.query@),
        request@.headers == text_pairs(request.headers@),
        request@.body == request.body@,
{
}

/// What an answer of a model, and the lack of one, says.
pub proof fn answers(response: LLMResponse, e: ZeptoError, status: u16, message: String)
    ensures
        response@.content == response.content@,
        response@.usage == response.usage,
        ChatError::Failed(e)@ == ChatErrorModel::Failed(e@),
        ChatError::Api(status, message)@ == ChatErrorModel::Api(status, message@),
        GeminiAuth::ApiKey(message)@ == AuthModel::ApiKey(message@),
        GeminiAuth::BearerToken(message)@ == AuthModel::BearerToken(message@),
{
}

/// What a command and a preset say.
pub proof fn commands_and_presets(command: PersonaCommand, preset: PersonaPreset)
    ensures
        command is Show <==> command@ is Show,
        command is Reset <==> command@ is Reset,
        command is List <==> command@ is List,
        command matches PersonaCommand::SetTo(arg) ==> (
        command@ matches crate::channels::persona_switch::CommandModel::SetTo(said) && said
            == arg@),
        preset@.name == preset.name@,
        preset@.label == preset.label@,
        preset@.soul_content == preset.soul_content@,
{
}

/// A channel goes by its own list.
pub proof fn channels_go_by_their_list(channel: ChannelModel, user: Seq<char>)
    ensures
        channel.allowlist.len() > 0 ==> channel.allows(user) == channel.allowlist.contains(user),
        channel.allowlist.len() == 0 ==> channel.allows(user) == !channel.deny_by_default,
{
}

/// The file with the definitions stands in the directory `.zeptoclaw` of the home
/// directory, or of the one in which the program runs where there is none.
pub proof fn place_of_the_definitions(path: std::path::PathBuf, home: std::path::PathBuf)
    ensures
        usual_place(path, Some(home)) && no_verbatim_prefix(path_steps(home)) ==> path_steps(path)
            == path_steps(home) + seq![".zeptoclaw"@, "composed_tools.json"@],
        usual_place(path, None) ==> path_steps(path) == seq![
            "."@,
            ".zeptoclaw"@,
            "composed_tools.json"@,
        ],
        usual_place(path, Some(home)) ==> path_steps(path).len() > 0 && path_steps(path).last()
            == "composed_tools.json"@,
{
    reveal_strlit(".");
    if usual_place(path, Some(home)) && no_verbatim_prefix(path_steps(home)) {
        assert(path_steps(path) =~= path_steps(home) + seq![
            ".zeptoclaw"@,
            "composed_tools.json"@,
        ]);
    }
    if usual_place(path, None) {
        assert(path_steps(path) =~= seq!["."@, ".zeptoclaw"@, "composed_tools.json"@]);
    }
}

/// A text with which the time is noted can be read back as a time since 1970,
/// unless it begins with a sign.
pub proof fn noted_times_can_be_read(text: Seq<char>)
    requires
        timestamp(text),
        text.len() > 0 ==> text[0] != '+',
    ensures
        rfc3339_instant(text) matches Some(at) && at.secs >= 0,
{
}

} // verus!
