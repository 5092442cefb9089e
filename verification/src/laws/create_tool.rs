//! Laws of the tool that manages composed tools: what a call asks for, and what
//! becomes of the definitions.

use vstd::prelude::*;
use vstd::string::*;
use crate::error::{ErrorModel, ZeptoError};
use crate::json::{json_text, members_model, Json, JsonModel};
use crate::laws::composed::{
    member_as_written, request_has_the_parameter_of_each_member, run_passes_the_members_on,
};
use crate::laws::values::text_at;
use crate::text::{decimal, joined, letter_or_number, utf8_len};
use crate::text_map::{distinct_keys, map_of};
use crate::tools::composed::{requested_param, ComposedToolDef, DefModel, ParamModel};
use crate::tools::create_tool::{
    answered, arguments_schema, created, creation, deleted, first_named, listed, loaded_tools,
    name_fault, params_line, params_of, ran, request_of, tool_line, unknown_tool, without, ChangeModel,
    NewToolModel, RequestModel,
};
use crate::tools::template::interpolate;

verus! {

/// Whether a text can be the name of a tool: one to sixty-four bytes of letters,
/// numbers, underscores and hyphens.
pub open spec fn tool_name(name: Seq<char>) -> bool {
    &&& 1 <= name.len()
    &&& utf8_len(name) <= 64
    &&& forall|i: int|
        0 <= i < name.len() ==> letter_or_number(#[trigger] name[i]) || name[i] == '_' || name[i]
            == '-'
}

/// A name is refused just where it is no name for a tool; a character that it
/// may not have is named before its length.
pub proof fn names_of_tools(name: Seq<char>)
    ensures
        name_fault(name) is None <==> tool_name(name),
        name_fault(name) is Some ==> name_fault(name) == Some(
            if forall|i: int|
                0 <= i < name.len() ==> letter_or_number(#[trigger] name[i]) || name[i] == '_'
                    || name[i] == '-' {
                "Tool name must be 1-64 characters"@
            } else {
                "Tool name must be alphanumeric with underscores/hyphens only"@
            },
        ),
{
    use_name_char(name);
}

/// The characters of a name, one by one.
proof fn use_name_char(name: Seq<char>)
    ensures
        (exists|i: int|
            0 <= i < name.len() && !#[trigger] crate::tools::create_tool::name_char(name[i]))
            == !(forall|i: int|
            0 <= i < name.len() ==> letter_or_number(#[trigger] name[i]) || name[i] == '_'
                || name[i] == '-'),
{
    if exists|i: int|
        0 <= i < name.len() && !#[trigger] crate::tools::create_tool::name_char(name[i]) {
        let i = choose|i: int|
            0 <= i < name.len() && !#[trigger] crate::tools::create_tool::name_char(name[i]);
        assert(!(letter_or_number(name[i]) || name[i] == '_' || name[i] == '-'));
    } else {
        assert forall|i: int| 0 <= i < name.len() implies letter_or_number(#[trigger] name[i])
            || name[i] == '_' || name[i] == '-' by {
            assert(crate::tools::create_tool::name_char(name[i]));
        }
    }
}

/// The text under `action_template`, or under `action` where there is no
/// `action_template`.
pub open spec fn template_at(members: Map<Seq<char>, JsonModel>) -> Option<Seq<char>> {
    if members.dom().contains("action_template"@) {
        text_at(members, "action_template"@)
    } else {
        text_at(members, "action"@)
    }
}

/// A request describes a new tool just where it has a name that a tool can have,
/// a description and a template; the tool then has these texts.
pub proof fn described_tool(args: Json, members: Map<Seq<char>, JsonModel>)
    requires
        args@ == JsonModel::Object(members),
    ensures
        match creation(args) {
            Ok(tool) => {
                &&& text_at(members, "name"@) == Some(tool.name)
                &&& tool_name(tool.name)
                &&& text_at(members, "description"@) == Some(tool.description)
                &&& template_at(members) == Some(tool.action)
            },
            Err(e) => {
                ||| text_at(members, "name"@) is None && e == ErrorModel::Tool(
                    "'name' is required"@,
                )
                ||| (text_at(members, "name"@) matches Some(name) && !tool_name(name) && name_fault(
                    name,
                ) is Some && e == ErrorModel::Tool(name_fault(name)->0))
                ||| (text_at(members, "name"@) matches Some(name) && tool_name(name) && text_at(
                    members,
                    "description"@,
                ) is None && e == ErrorModel::Tool("'description' is required"@))
                ||| (text_at(members, "name"@) matches Some(name) && tool_name(name) && text_at(
                    members,
                    "description"@,
                ) is Some && template_at(members) is None && e == ErrorModel::Tool(
                    "'action_template' (or 'action') is required"@,
                ))
            },
        },
{
    if let Some(name) = text_at(members, "name"@) {
        names_of_tools(name);
    }
}

/// The parameters of a described tool are the members under `parameters`, each
/// under its name and as it is described there; without such an object there are
/// none.
pub proof fn parameters_of_a_described_tool(args: Json, members: Map<Seq<char>, JsonModel>)
    requires
        args@ == JsonModel::Object(members),
    ensures
        distinct_keys(params_of(args)),
        creation(args) matches Ok(tool) ==> tool.parameters == params_of(args),
        members.dom().contains("parameters"@) && members["parameters"@] is Object ==> (
        members["parameters"@] matches JsonModel::Object(described) && (forall|k: Seq<char>|
            #[trigger] map_of(params_of(args)).dom().contains(k) == described.dom().contains(k))
            && (forall|k: Seq<char>|
            described.dom().contains(k) ==> #[trigger] map_of(params_of(args))[k]
                == requested_param(described[k]))),
        !(members.dom().contains("parameters"@) && members["parameters"@] is Object) ==> params_of(
            args,
        ).len() == 0,
{
    let list = args->Object_0@;
    member_as_written(list, "parameters"@);
    if let Some(Json::Object(described)) = args.member_at("parameters"@) {
        request_has_the_parameter_of_each_member(described@);
        assert(members["parameters"@] == JsonModel::Object(members_model(described@)));
    }
}

/// The word under `action` decides what a call asks for; without one it asks for
/// the list.
pub proof fn action_decides(args: Json, members: Map<Seq<char>, JsonModel>)
    requires
        args@ == JsonModel::Object(members),
    ensures
        text_at(members, "action"@) is None || text_at(members, "action"@) == Some("list"@)
            ==> request_of(args) == Ok::<RequestModel, ErrorModel>(RequestModel::List),
        text_at(members, "action"@) == Some("create"@) ==> (match creation(args) {
            Ok(tool) => request_of(args) == Ok::<RequestModel, ErrorModel>(
                RequestModel::Create(tool),
            ),
            Err(e) => request_of(args) == Err::<RequestModel, ErrorModel>(e),
        }),
        text_at(members, "action"@) == Some("delete"@) ==> request_of(args) == (match text_at(
            members,
            "name"@,
        ) {
            Some(name) => Ok::<RequestModel, ErrorModel>(RequestModel::Delete(name)),
            None => Err(ErrorModel::Tool("'name' is required for delete"@)),
        }),
        text_at(members, "action"@) == Some("run"@) ==> (match text_at(members, "name"@) {
            Some(name) => request_of(args) matches Ok(RequestModel::Run(tool, _)) && tool == name,
            None => request_of(args) == Err::<RequestModel, ErrorModel>(
                ErrorModel::Tool("'name' is required for run"@),
            ),
        }),
        text_at(members, "action"@) matches Some(action) && action != "create"@ && action
            != "list"@ && action != "delete"@ && action != "run"@ ==> request_of(args) == Err::<
            RequestModel,
            ErrorModel,
        >(
            ErrorModel::Tool(
                "Unknown action '"@ + text_at(members, "action"@)->0
                    + "'. Use: create, list, delete, run"@,
            ),
        ),
{
    reveal_strlit("create");
    reveal_strlit("list");
    reveal_strlit("delete");
    reveal_strlit("run");
    assert("create"@.len() == 6 && "list"@.len() == 4 && "delete"@.len() == 6 && "run"@.len() == 3);
    assert("create"@[0] == 'c' && "delete"@[0] == 'd');
}

/// A request to run a tool gives it every member but `action` and `name`.
pub proof fn run_request_carries_the_members(args: Json, members: Map<Seq<char>, JsonModel>)
    requires
        args@ == JsonModel::Object(members),
    ensures
        request_of(args) matches Ok(RequestModel::Run(_, given)) ==> distinct_keys(given) && (
        forall|k: Seq<char>| #[trigger]
            map_of(given).dom().contains(k) == (members.dom().contains(k) && k != "action"@ && k
                != "name"@)) && (forall|k: Seq<char>| #[trigger]
            map_of(given).dom().contains(k) ==> map_of(given)[k] == (match members[k] {
                JsonModel::Text(s) => s,
                other => json_text(other),
            })),
{
    run_passes_the_members_on(args, members);
}

/// A call whose arguments are no object asks for the list.
pub proof fn other_values_ask_for_the_list(args: Json)
    requires
        !(args@ is Object),
    ensures
        request_of(args) == Ok::<RequestModel, ErrorModel>(RequestModel::List),
{
    reveal_strlit("create");
    reveal_strlit("list");
    assert("create"@.len() == 6 && "list"@.len() == 4);
}

/// The schema of the arguments has the five that a call can give, the action
/// among the four words that it can be, and asks for the action alone.
pub proof fn schema_of_the_arguments()
    ensures
        arguments_schema() matches JsonModel::Object(schema) && {
            &&& schema["required"@] == JsonModel::Array(seq![JsonModel::Text("action"@)])
            &&& schema["properties"@] matches JsonModel::Object(properties) && properties.dom()
                == set!["action"@, "name"@, "description"@, "action_template"@, "parameters"@]
                && (properties["action"@] matches JsonModel::Object(action) && action["enum"@]
                == JsonModel::Array(
                seq![
                    JsonModel::Text("create"@),
                    JsonModel::Text("list"@),
                    JsonModel::Text("delete"@),
                    JsonModel::Text("run"@),
                ],
            ) && action["type"@] == JsonModel::Text("string"@))
        },
{
    reveal_strlit("type");
    reveal_strlit("properties");
    reveal_strlit("required");
    reveal_strlit("enum");
    reveal_strlit("action");
    reveal_strlit("name");
    reveal_strlit("description");
    reveal_strlit("action_template");
    reveal_strlit("parameters");
    assert("type"@.len() == 4 && "properties"@.len() == 10 && "required"@.len() == 8);
    assert("enum"@.len() == 4 && "enum"@[0] == 'e' && "type"@[0] == 't');
    assert("action"@.len() == 6 && "name"@.len() == 4 && "description"@.len() == 11);
    assert("action_template"@.len() == 15 && "parameters"@.len() == 10);
    let schema = arguments_schema()->Object_0;
    let properties = schema["properties"@]->Object_0;
    assert(properties.dom() =~= set![
        "action"@,
        "name"@,
        "description"@,
        "action_template"@,
        "parameters"@,
    ]);
}

/// A new tool is added behind the others, as it was described and with the time
/// of its creation, and the answer for model and user names it.
pub proof fn created_tool_is_added_at_the_end(
    tool: NewToolModel,
    defs: Seq<DefModel>,
    now: Seq<char>,
)
    requires
        forall|i: int| 0 <= i < defs.len() ==> (#[trigger] defs[i]).name != tool.name,
    ensures
        created(tool, defs, now) matches Ok(change) && change.store matches Some(after) && {
            &&& after.len() == defs.len() + 1
            &&& after.drop_last() == defs
            &&& after.last().name == tool.name
            &&& after.last().description == tool.description
            &&& after.last().action == tool.action
            &&& after.last().parameters == tool.parameters
            &&& after.last().created_at == now
            &&& change.output.for_user == Some(change.output.for_llm)
            &&& change.output.for_llm == "Created composed tool '"@ + tool.name
                + "'. It will be available as a first-class tool in your next session. Use action='run' with name='"@
                + tool.name + "' to try it now."@
        },
{
    let after = created(tool, defs, now)->Ok_0.store->0;
    assert(after.drop_last() =~= defs);
}

/// A tool whose name is taken is refused.
pub proof fn taken_name_is_refused(
    tool: NewToolModel,
    defs: Seq<DefModel>,
    now: Seq<char>,
    i: int,
)
    requires
        0 <= i < defs.len(),
        defs[i].name == tool.name,
    ensures
        created(tool, defs, now) == Err::<ChangeModel, ErrorModel>(
            ErrorModel::Tool(
                "A composed tool named '"@ + tool.name
                    + "' already exists. Delete it first or choose a different name."@,
            ),
        ),
{
}

/// Deleting a name takes out the definitions of that name and keeps all others,
/// as they are and in their order.
pub proof fn deletion_keeps_the_others(defs: Seq<DefModel>, name: Seq<char>)
    ensures
        without(defs, name) == defs.filter(|d: DefModel| d.name != name),
    decreases defs.len(),
{
    reveal(Seq::filter);
    if defs.len() > 0 {
        deletion_keeps_the_others(defs.drop_last(), name);
    }
}

/// A tool is deleted just where there is one of the name: the answer for model
/// and user says so, and the others are stored.
pub proof fn deletion_of_a_tool(defs: Seq<DefModel>, name: Seq<char>)
    ensures
        match deleted(name, defs) {
            Ok(change) => {
                &&& exists|i: int| 0 <= i < defs.len() && (#[trigger] defs[i]).name == name
                &&& change.store == Some(defs.filter(|d: DefModel| d.name != name))
                &&& change.output.for_llm == "Deleted composed tool '"@ + name + "'."@
                &&& change.output.for_user == Some(change.output.for_llm)
            },
            Err(e) => {
                &&& forall|i: int| 0 <= i < defs.len() ==> (#[trigger] defs[i]).name != name
                &&& e == ErrorModel::Tool("No composed tool named '"@ + name + "'"@)
            },
        },
{
    deletion_keeps_the_others(defs, name);
}

/// The definition that is found is the first of the name.
pub proof fn first_of_the_name(defs: Seq<DefModel>, name: Seq<char>, i: int)
    requires
        0 <= i < defs.len(),
        defs[i].name == name,
        forall|j: int| 0 <= j < i ==> (#[trigger] defs[j]).name != name,
    ensures
        first_named(defs, name) == Some(defs[i]),
    decreases defs.len(),
{
    if i > 0 {
        assert(defs[0].name != name);
        let rest = defs.skip(1);
        assert forall|j: int| 0 <= j < i - 1 implies (#[trigger] rest[j]).name != name by {
            assert(defs[j + 1].name != name);
        }
        first_of_the_name(rest, name, i - 1);
    }
}

/// Running a name answers the model alone with the action of the first tool of
/// that name, the arguments put in, and stores nothing.
pub proof fn run_answers_with_the_action(
    defs: Seq<DefModel>,
    name: Seq<char>,
    args: Seq<(Seq<char>, Seq<char>)>,
    i: int,
)
    requires
        0 <= i < defs.len(),
        defs[i].name == name,
        forall|j: int| 0 <= j < i ==> (#[trigger] defs[j]).name != name,
    ensures
        ran(name, args, defs) matches Ok(change) && change.store is None && change.output.for_llm
            == "[Composed tool instructions] "@ + interpolate(defs[i].action, args)
            && change.output.for_user is None,
{
    first_of_the_name(defs, name, i);
}

/// Running a name that no tool has is refused.
pub proof fn run_of_an_unknown_name_is_refused(
    defs: Seq<DefModel>,
    name: Seq<char>,
    args: Seq<(Seq<char>, Seq<char>)>,
)
    requires
        forall|i: int| 0 <= i < defs.len() ==> (#[trigger] defs[i]).name != name,
    ensures
        ran(name, args, defs) == Err::<ChangeModel, ErrorModel>(
            ErrorModel::Tool("No composed tool named '"@ + name + "'"@),
        ),
    decreases defs.len(),
{
    if defs.len() > 0 {
        assert(defs[0].name != name);
        let rest = defs.skip(1);
        assert forall|i: int| 0 <= i < rest.len() implies (#[trigger] rest[i]).name != name by {
            assert(defs[i + 1].name != name);
        }
        run_of_an_unknown_name_is_refused(rest, name, args);
    }
}

/// The list counts the tools and has one line for each, in their order, with its
/// name, its description and the names of its parameters; it is for the model
/// alone and changes nothing.
pub proof fn list_has_a_line_for_each_tool(defs: Seq<DefModel>)
    ensures
        listed(defs).store is None,
        listed(defs).output.for_user is None,
        defs.len() == 0 ==> listed(defs).output.for_llm
            == "No composed tools defined. Use action='create' to define one."@,
        defs.len() > 0 ==> listed(defs).output.for_llm == "Composed tools ("@ + decimal(defs.len())
            + "):\n"@ + joined(
            Seq::new(
                defs.len(),
                |i: int|
                    "- "@ + defs[i].name + " — "@ + defs[i].description + " [params: "@ + (
                    if defs[i].parameters.len() == 0 {
                        "(no params)"@
                    } else {
                        joined(
                            Seq::new(
                                defs[i].parameters.len(),
                                |j: int| defs[i].parameters[j].0,
                            ),
                            ", "@,
                        )
                    }) + "]"@,
            ),
            "\n"@,
        ),
{
    let lines = Seq::new(
        defs.len(),
        |i: int|
            "- "@ + defs[i].name + " — "@ + defs[i].description + " [params: "@ + (
            if defs[i].parameters.len() == 0 {
                "(no params)"@
            } else {
                joined(
                    Seq::new(defs[i].parameters.len(), |j: int| defs[i].parameters[j].0),
                    ", "@,
                )
            }) + "]"@,
    );
    let told = defs.map_values(|d: DefModel| tool_line(d));
    assert forall|i: int| 0 <= i < defs.len() implies #[trigger] told[i] == lines[i] by {
        let params = defs[i].parameters;
        let names = Seq::new(params.len(), |j: int| params[j].0);
        assert(params.map_values(|p: (Seq<char>, ParamModel)| p.0) =~= names);
        assert(params_line(params) == if params.len() == 0 {
            "(no params)"@
        } else {
            joined(names, ", "@)
        });
    }
    assert(told =~= lines);
}

/// Each kind of request is answered for what it asks.
pub proof fn each_request_is_answered(
    tool: NewToolModel,
    name: Seq<char>,
    args: Seq<(Seq<char>, Seq<char>)>,
    defs: Seq<DefModel>,
    now: Seq<char>,
)
    ensures
        answered(RequestModel::Create(tool), defs, now) == created(tool, defs, now),
        answered(RequestModel::List, defs, now) == Ok::<ChangeModel, ErrorModel>(listed(defs)),
        answered(RequestModel::Delete(name), defs, now) == deleted(name, defs),
        answered(RequestModel::Run(name, args), defs, now) == ran(name, args, defs),
        unknown_tool(name) == ErrorModel::Tool("No composed tool named '"@ + name + "'"@),
{
}

/// The tools of a store are those of its definitions, each in its place; where
/// loading failed there are none.
pub proof fn tools_of_a_store(defs: Vec<ComposedToolDef>, e: ZeptoError, i: int)
    ensures
        loaded_tools(Ok(defs)).len() == defs@.len(),
        0 <= i < defs@.len() ==> loaded_tools(Ok(defs))[i] == defs@[i]@,
        loaded_tools(Err(e)).len() == 0,
{
}

} // verus!
