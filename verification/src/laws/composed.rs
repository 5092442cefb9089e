//! Laws of composed tools: their parameters, their schemas and their calls.

use vstd::prelude::*;
use vstd::string::*;
use crate::error::ErrorModel;
use crate::json::{json_text, last_member, members_model, Json, JsonModel};
use crate::laws::values::{blank_between, trimming_cuts_white_space_alone};
use crate::text_map::{distinct_keys, has_key, map_of, upsert_sets};
use crate::tools::composed::{
    args_of, call_args, executed, instructions, load_step, param_schema, param_schemas, requested_param, requested_params,
    required_names, save_error, schema_lists_the_parameters, tool_schema,
    DefModel, FileRead, LoadModel, ParamModel, SaveFailure,
};
use crate::tools::output::{llm_only, user_visible};
use crate::tools::schema::{object_schema, property};
use crate::tools::template::{
    interpolate, interpolation_ignores_order, placeholder, slot_at, slot_at_is_shortest,
};

verus! {

/// The arguments of a call, member by member.
proof fn args_by_key(members: Seq<(String, Json)>, running: bool)
    ensures
        distinct_keys(call_args(members, running)),
        forall|k: Seq<char>| #[trigger]
            map_of(call_args(members, running)).dom().contains(k) == (members_model(
                members,
            ).dom().contains(k) && !(running && (k == "action"@ || k == "name"@))),
        forall|k: Seq<char>| #[trigger]
            map_of(call_args(members, running)).dom().contains(k) ==> map_of(
                call_args(members, running),
            )[k] == (match members_model(members)[k] {
                JsonModel::Text(s) => s,
                other => json_text(other),
            }),
    decreases members.len(),
{
    if members.len() > 0 {
        args_by_key(members.drop_last(), running);
        let before = call_args(members.drop_last(), running);
        let value = members.last().1.model();
        let text = match value {
            JsonModel::Text(s) => s,
            other => json_text(other),
        };
        upsert_sets(before, members.last().0@, text);
    }
}

/// A run passes the members of its request on.
///
/// Of a request whose arguments are an object, every member goes to the tool but
/// `action` and `name`, which belong to the request: a text as it is, any other
/// value as its compact JSON. Nothing else goes.
pub proof fn run_passes_the_members_on(args: Json, members: Map<Seq<char>, JsonModel>)
    requires
        args@ == JsonModel::Object(members),
    ensures
        distinct_keys(args_of(args, true)),
        forall|k: Seq<char>| #[trigger]
            map_of(args_of(args, true)).dom().contains(k) == (members.dom().contains(k) && k
                != "action"@ && k != "name"@),
        forall|k: Seq<char>| #[trigger]
            map_of(args_of(args, true)).dom().contains(k) ==> map_of(args_of(args, true))[k] == (
            match members[k] {
                JsonModel::Text(s) => s,
                other => json_text(other),
            }),
{
    args_by_key(args->Object_0@, true);
}

/// A call of a tool under its own name passes every member on.
pub proof fn call_passes_the_members_on(args: Json, members: Map<Seq<char>, JsonModel>)
    requires
        args@ == JsonModel::Object(members),
    ensures
        distinct_keys(args_of(args, false)),
        forall|k: Seq<char>| #[trigger]
            map_of(args_of(args, false)).dom().contains(k) == members.dom().contains(k),
        forall|k: Seq<char>|
            members.dom().contains(k) ==> #[trigger] map_of(args_of(args, false))[k] == (
            match members[k] {
                JsonModel::Text(s) => s,
                other => json_text(other),
            }),
{
    args_by_key(args->Object_0@, false);
    assert forall|k: Seq<char>| members.dom().contains(k) implies #[trigger] map_of(
        args_of(args, false),
    )[k] == (match members[k] {
        JsonModel::Text(s) => s,
        other => json_text(other),
    }) by {
        assert(map_of(args_of(args, false)).dom().contains(k));
    }
}

/// A call whose arguments are no object gives none.
pub proof fn other_values_give_no_arguments(args: Json, running: bool)
    requires
        !(args@ is Object),
    ensures
        args_of(args, running).len() == 0,
{
}

/// The object with the three fields of a parameter describes that parameter,
/// whatever else it holds.
pub proof fn described_parameter_is_itself(param: ParamModel, members: Map<Seq<char>, JsonModel>)
    requires
        members.dom().contains("param_type"@),
        members["param_type"@] == JsonModel::Text(param.param_type),
        members.dom().contains("description"@),
        members["description"@] == JsonModel::Text(param.description),
        members.dom().contains("required"@),
        members["required"@] == JsonModel::Bool(param.required),
    ensures
        requested_param(JsonModel::Object(members)) == param,
{
}

/// The object with just the three fields of a parameter describes that
/// parameter.
pub proof fn written_parameter_is_itself(param: ParamModel)
    ensures
        requested_param(
            JsonModel::Object(
                map![
                    "param_type"@ => JsonModel::Text(param.param_type),
                    "description"@ => JsonModel::Text(param.description),
                    "required"@ => JsonModel::Bool(param.required)
                ],
            ),
        ) == param,
{
    reveal_strlit("param_type");
    reveal_strlit("description");
    reveal_strlit("required");
    assert("param_type"@.len() == 10 && "description"@.len() == 11 && "required"@.len() == 8);
    let members = map![
        "param_type"@ => JsonModel::Text(param.param_type),
        "description"@ => JsonModel::Text(param.description),
        "required"@ => JsonModel::Bool(param.required)
    ];
    described_parameter_is_itself(param, members);
}

/// Whether each field of a parameter that an object holds has its type.
pub open spec fn fields_have_their_types(members: Map<Seq<char>, JsonModel>) -> bool {
    &&& members.dom().contains("param_type"@) ==> members["param_type"@] is Text
    &&& members.dom().contains("description"@) ==> members["description"@] is Text
    &&& members.dom().contains("required"@) ==> members["required"@] is Bool
}

/// A field that is absent is the type `string`, an empty description, or
/// required; a field of the wrong type makes all three so.
pub proof fn absent_fields_take_their_defaults(members: Map<Seq<char>, JsonModel>)
    ensures
        !members.dom().contains("param_type"@) || !fields_have_their_types(members)
            ==> requested_param(JsonModel::Object(members)).param_type == "string"@,
        !members.dom().contains("description"@) || !fields_have_their_types(members)
            ==> requested_param(JsonModel::Object(members)).description.len() == 0,
        !members.dom().contains("required"@) || !fields_have_their_types(members)
            ==> requested_param(JsonModel::Object(members)).required,
        fields_have_their_types(members) && members.dom().contains("param_type"@)
            ==> members["param_type"@] == JsonModel::Text(
            requested_param(JsonModel::Object(members)).param_type,
        ),
        fields_have_their_types(members) && members.dom().contains("description"@)
            ==> members["description"@] == JsonModel::Text(
            requested_param(JsonModel::Object(members)).description,
        ),
        fields_have_their_types(members) && members.dom().contains("required"@)
            ==> members["required"@] == JsonModel::Bool(
            requested_param(JsonModel::Object(members)).required,
        ),
{
}

/// A text describes the parameter of that type, and a list the one with its
/// items for fields; what is neither describes the one that says nothing.
pub proof fn short_forms_of_a_parameter(text: Seq<char>, param: ParamModel, other: JsonModel)
    ensures
        requested_param(JsonModel::Text(text)).param_type == text,
        requested_param(JsonModel::Text(text)).description.len() == 0,
        requested_param(JsonModel::Text(text)).required,
        requested_param(
            JsonModel::Array(
                seq![
                    JsonModel::Text(param.param_type),
                    JsonModel::Text(param.description),
                    JsonModel::Bool(param.required),
                ],
            ),
        ) == param,
        other is Null || other is Bool || other is Integer || other is Real || (other matches
            JsonModel::Array(items) && items.len() > 3) ==> requested_param(other).param_type
            == "string"@ && requested_param(other).description.len() == 0 && requested_param(
            other,
        ).required,
{
}

/// A request has the parameter of each member, under its name and as the member
/// describes it.
pub proof fn request_has_the_parameter_of_each_member(members: Seq<(String, Json)>)
    ensures
        distinct_keys(requested_params(members)),
        forall|k: Seq<char>| #[trigger]
            map_of(requested_params(members)).dom().contains(k) == members_model(
                members,
            ).dom().contains(k),
        forall|k: Seq<char>|
            members_model(members).dom().contains(k) ==> #[trigger] map_of(
                requested_params(members),
            )[k] == requested_param(members_model(members)[k]),
    decreases members.len(),
{
    if members.len() > 0 {
        request_has_the_parameter_of_each_member(members.drop_last());
        upsert_sets(
            requested_params(members.drop_last()),
            members.last().0@,
            requested_param(members.last().1.model()),
        );
    }
}

/// Parameters keep the order of the members that describe them.
pub proof fn parameters_keep_their_order(members: Seq<(String, Json)>)
    requires
        forall|i: int, j: int|
            0 <= i < j < members.len() ==> (#[trigger] members[i]).0@ != (#[trigger] members[j]).0@,
    ensures
        requested_params(members).len() == members.len(),
        forall|i: int|
            0 <= i < members.len() ==> (#[trigger] requested_params(members)[i]).0
                == members[i].0@ && requested_params(members)[i].1 == requested_param(
                members[i].1@,
            ),
    decreases members.len(),
{
    if members.len() > 0 {
        let front = members.drop_last();
        assert forall|i: int, j: int| 0 <= i < j < front.len() implies (#[trigger] front[i]).0@ != (
        #[trigger] front[j]).0@ by {
            assert(members[i].0@ != members[j].0@);
        }
        parameters_keep_their_order(front);
        assert forall|i: int| 0 <= i < front.len() implies (#[trigger] requested_params(
            front,
        )[i]).0 != members.last().0@ by {
            assert(members[i].0@ != members[members.len() - 1].0@);
        }
        assert forall|i: int| 0 <= i < members.len() implies (#[trigger] requested_params(
            members,
        )[i]).0 == members[i].0@ && requested_params(members)[i].1 == requested_param(
            members[i].1@,
        ) by {
            if i < front.len() {
                assert(requested_params(members)[i] == requested_params(front)[i]);
                assert(front[i] == members[i]);
            }
        }
    }
}

/// The member under a key, as it is written, has the meaning that the object
/// holds there.
pub proof fn member_as_written(members: Seq<(String, Json)>, key: Seq<char>)
    ensures
        last_member(members, key) is Some == members_model(members).dom().contains(key),
        last_member(members, key) matches Some(value) ==> value@ == members_model(members)[key],
    decreases members.len(),
{
    if members.len() > 0 {
        member_as_written(members.drop_last(), key);
    }
}

/// The schema of a parameter is its type, and its description where that is not
/// empty.
pub proof fn schema_of_a_parameter(param: ParamModel)
    ensures
        param_schema(param) matches JsonModel::Object(schema) && {
            &&& schema.dom() == (if param.description.len() > 0 {
                set!["type"@, "description"@]
            } else {
                set!["type"@]
            })
            &&& schema["type"@] == JsonModel::Text(param.param_type)
            &&& param.description.len() > 0 ==> schema["description"@] == JsonModel::Text(
                param.description,
            )
        },
{
    reveal_strlit("type");
    reveal_strlit("description");
    assert("type"@.len() == 4 && "description"@.len() == 11);
    let schema = param_schema(param)->Object_0;
    if param.description.len() > 0 {
        assert(schema.dom() =~= set!["type"@, "description"@]);
    } else {
        assert(schema.dom() =~= set!["type"@]);
    }
}

/// A schema asks for the required parameters by name, in their order.
pub proof fn required_parameters_are_asked_for(params: Seq<(Seq<char>, ParamModel)>)
    ensures
        required_names(params) == params.filter(
            |p: (Seq<char>, ParamModel)| p.1.required,
        ).map_values(|p: (Seq<char>, ParamModel)| JsonModel::Text(p.0)),
    decreases params.len(),
{
    reveal(Seq::filter);
    let wanted = |p: (Seq<char>, ParamModel)| p.1.required;
    let name = |p: (Seq<char>, ParamModel)| JsonModel::Text(p.0);
    if params.len() == 0 {
        assert(required_names(params) =~= params.filter(wanted).map_values(name));
    } else {
        required_parameters_are_asked_for(params.drop_last());
        assert(required_names(params) =~= params.filter(wanted).map_values(name));
    }
}

/// The schema of arguments is that of an object with the given properties, of
/// which the given ones are required, and a property has its type and its
/// description; neither says anything else.
pub proof fn schemas(
    properties: Map<Seq<char>, JsonModel>,
    required: Seq<JsonModel>,
    kind: Seq<char>,
    description: Seq<char>,
)
    ensures
        object_schema(properties, required) matches JsonModel::Object(schema) && {
            &&& schema.dom() == set!["type"@, "properties"@, "required"@]
            &&& schema["type"@] == JsonModel::Text("object"@)
            &&& schema["properties"@] == JsonModel::Object(properties)
            &&& schema["required"@] == JsonModel::Array(required)
        },
        property(kind, description).dom() == set!["type"@, "description"@],
        property(kind, description)["type"@] == JsonModel::Text(kind),
        property(kind, description)["description"@] == JsonModel::Text(description),
{
    reveal_strlit("type");
    reveal_strlit("description");
    reveal_strlit("properties");
    reveal_strlit("required");
    assert("type"@.len() == 4 && "description"@.len() == 11);
    assert("properties"@.len() == 10 && "required"@.len() == 8);
    let schema = object_schema(properties, required)->Object_0;
    assert(schema.dom() =~= set!["type"@, "properties"@, "required"@]);
    assert(property(kind, description).dom() =~= set!["type"@, "description"@]);
}

/// A result for the model alone shows the user nothing; one for both shows both
/// the same text.
pub proof fn who_sees_a_result(text: Seq<char>)
    ensures
        llm_only(text).for_llm == text,
        llm_only(text).for_user is None,
        user_visible(text).for_llm == text,
        user_visible(text).for_user == Some(text),
{
}

/// A composed tool answers the model alone, with its action marked as
/// instructions.
pub proof fn instructions_are_for_the_model(
    action: Seq<char>,
    args: Seq<(Seq<char>, Seq<char>)>,
)
    ensures
        instructions(action, args).for_llm == "[Composed tool instructions] "@ + interpolate(
            action,
            args,
        ),
        instructions(action, args).for_user is None,
{
}

/// A placeholder is the name of its parameter between double braces.
pub proof fn placeholders_stand_in_double_braces(key: Seq<char>)
    ensures
        placeholder(key) == "{{"@ + key + "}}"@,
{
    reveal_strlit("{{");
    reveal_strlit("}}");
    assert(placeholder(key) =~= "{{"@ + key + "}}"@);
}

/// Where the placeholder of one parameter begins, and of no other, the value of
/// that parameter comes in its place, and what follows is filled in the same way.
pub proof fn value_comes_in_the_place_of_its_placeholder(
    rest: Seq<char>,
    args: Seq<(Seq<char>, Seq<char>)>,
    i: int,
)
    requires
        0 <= i < args.len(),
        forall|j: int|
            0 <= j < args.len() && j != i ==> !("{{"@ + (#[trigger] args[j]).0
                + "}}"@).is_prefix_of("{{"@ + args[i].0 + "}}"@ + rest),
    ensures
        interpolate("{{"@ + args[i].0 + "}}"@ + rest, args) == args[i].1 + interpolate(rest, args),
{
    let slot = "{{"@ + args[i].0 + "}}"@;
    let text = slot + rest;
    reveal_strlit("{{");
    placeholders_stand_in_double_braces(args[i].0);
    slot_at_is_shortest(text, args);
    assert(slot.is_prefix_of(text)) by {
        assert(text.subrange(0, slot.len() as int) =~= slot);
    }
    assert(placeholder(args[i].0).is_prefix_of(text));
    match slot_at(text, args) {
        Some(found) => {
            let k = choose|k: int| 0 <= k < args.len() && args[k] == found;
            placeholders_stand_in_double_braces(args[k].0);
            assert(args[k].0 == found.0);
        },
        None => {
            assert(!placeholder(args[i].0).is_prefix_of(text));
        },
    }
    assert(text.skip(slot.len() as int) =~= rest);
}

/// Where no placeholder begins, the character stays, and what follows is filled
/// in.
pub proof fn other_characters_stay(template: Seq<char>, args: Seq<(Seq<char>, Seq<char>)>)
    requires
        template.len() > 0,
        forall|j: int|
            0 <= j < args.len() ==> !("{{"@ + (#[trigger] args[j]).0 + "}}"@).is_prefix_of(
                template,
            ),
    ensures
        interpolate(template, args) == seq![template[0]] + interpolate(template.skip(1), args),
        interpolate(Seq::empty(), args) == Seq::<char>::empty(),
{
    slot_at_is_shortest(template, args);
    if let Some(found) = slot_at(template, args) {
        let k = choose|k: int| 0 <= k < args.len() && args[k] == found;
        placeholders_stand_in_double_braces(args[k].0);
        assert(args[k].0 == found.0);
    }
    assert(template.drop_first() =~= template.skip(1));
}

/// Where there is no file with definitions, or one with nothing but white space,
/// there are none; any other contents are read as they are, and a file that
/// cannot be read is an error with the reason.
pub proof fn loading_the_definitions(data: String, reason: String)
    ensures
        load_step(FileRead::Missing) == Ok::<LoadModel, ErrorModel>(LoadModel::Empty),
        blank_between(data@, 0, data@.len() as int) ==> load_step(FileRead::Contents(data)) == Ok::<
            LoadModel,
            ErrorModel,
        >(LoadModel::Empty),
        !blank_between(data@, 0, data@.len() as int) ==> load_step(FileRead::Contents(data))
            == Ok::<LoadModel, ErrorModel>(LoadModel::Parse(data@)),
        load_step(FileRead::Failed(reason)) == Err::<LoadModel, ErrorModel>(
            ErrorModel::Tool("Failed to read composed tools file: "@ + reason@),
        ),
{
    let cut = trimming_cuts_white_space_alone(data@);
}

/// Definitions that cannot be saved are an error that says at which step and
/// why.
pub proof fn saving_the_definitions(reason: String)
    ensures
        save_error(SaveFailure::Directory(reason)) == ErrorModel::Tool(
            "Failed to create config dir: "@ + reason@,
        ),
        save_error(SaveFailure::Serialize(reason)) == ErrorModel::Tool(
            "Failed to serialize composed tools: "@ + reason@,
        ),
        save_error(SaveFailure::Write(reason)) == ErrorModel::Tool(
            "Failed to write composed tools: "@ + reason@,
        ),
{
}

/// A tool that is called under its own name answers the model alone, with its
/// action, in which every member of the call is put in under its key: a text as
/// it is, any other value as its compact JSON.
pub proof fn execution_puts_every_member_in(
    def: DefModel,
    args: Json,
    members: Map<Seq<char>, JsonModel>,
    given: Seq<(Seq<char>, Seq<char>)>,
)
    requires
        args@ == JsonModel::Object(members),
        distinct_keys(given),
        map_of(given) == members.map_values(
            |v: JsonModel|
                match v {
                    JsonModel::Text(s) => s,
                    other => json_text(other),
                },
        ),
    ensures
        executed(def, args).for_llm == "[Composed tool instructions] "@ + interpolate(
            def.action,
            given,
        ),
        executed(def, args).for_user is None,
{
    call_passes_the_members_on(args, members);
    assert(map_of(args_of(args, false)) =~= map_of(given));
    interpolation_ignores_order(def.action, args_of(args, false), given);
}

/// The schema of a tool has each parameter under its name, with its type, and
/// asks for the required ones in their order.
pub proof fn schema_of_a_tool(params: Seq<(Seq<char>, ParamModel)>)
    requires
        distinct_keys(params),
    ensures
        tool_schema(params) matches JsonModel::Object(schema) && schema["type"@] == JsonModel::Text(
            "object"@,
        ) && (schema["properties"@] matches JsonModel::Object(properties) && (forall|
            k: Seq<char>,
        | #[trigger]
            properties.dom().contains(k) == has_key(params, k)) && (forall|i: int|
            0 <= i < params.len() ==> properties[(#[trigger] params[i]).0] == param_schema(
                params[i].1,
            ))) && schema["required"@] == JsonModel::Array(
            params.filter(|p: (Seq<char>, ParamModel)| p.1.required).map_values(
                |p: (Seq<char>, ParamModel)| JsonModel::Text(p.0),
            ),
        ),
{
    schema_lists_the_parameters(params);
    required_parameters_are_asked_for(params);
    schemas(param_schemas(params), required_names(params), Seq::empty(), Seq::empty());
}

} // verus!
