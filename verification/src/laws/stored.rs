//! Laws of the JSON form in which definitions are stored.

use vstd::prelude::*;
use vstd::string::*;
use crate::json::JsonModel;
use crate::laws::values::text_at;
use crate::text_map::map_of;
use crate::tools::composed::{param_of, ComposedToolDef, DefModel, ParamModel};
use crate::tools::stored::{
    all_contents, contents, def_json, def_of, param_json, store_json, store_of, DefContents,
};

verus! {

/// The stored form of a parameter has its three fields under their names, and no
/// others.
pub proof fn stored_parameter(param: ParamModel)
    ensures
        param_json(param) matches JsonModel::Object(members) && {
            &&& members.dom() == set!["param_type"@, "description"@, "required"@]
            &&& members["param_type"@] == JsonModel::Text(param.param_type)
            &&& members["description"@] == JsonModel::Text(param.description)
            &&& members["required"@] == JsonModel::Bool(param.required)
        },
{
    reveal_strlit("param_type");
    reveal_strlit("description");
    reveal_strlit("required");
    assert("param_type"@.len() == 10 && "description"@.len() == 11 && "required"@.len() == 8);
    let members = param_json(param)->Object_0;
    assert(members.dom() =~= set!["param_type"@, "description"@, "required"@]);
}

/// The stored form of a definition has its five fields under their names, and no
/// others; its parameters are stored by name.
pub proof fn stored_definition(def: DefModel)
    ensures
        def_json(contents(def)) matches JsonModel::Object(members) && {
            &&& members.dom() == set![
                "name"@,
                "description"@,
                "action"@,
                "parameters"@,
                "created_at"@,
            ]
            &&& members["name"@] == JsonModel::Text(def.name)
            &&& members["description"@] == JsonModel::Text(def.description)
            &&& members["action"@] == JsonModel::Text(def.action)
            &&& members["created_at"@] == JsonModel::Text(def.created_at)
            &&& members["parameters"@] matches JsonModel::Object(params) && params.dom() == map_of(
                def.parameters,
            ).dom() && forall|k: Seq<char>|
                params.dom().contains(k) ==> #[trigger] params[k] == param_json(
                    map_of(def.parameters)[k],
                )
        },
{
    reveal_strlit("name");
    reveal_strlit("description");
    reveal_strlit("action");
    reveal_strlit("parameters");
    reveal_strlit("created_at");
    assert("name"@.len() == 4 && "description"@.len() == 11 && "action"@.len() == 6);
    assert("parameters"@.len() == 10 && "created_at"@.len() == 10);
    assert("parameters"@[0] == 'p' && "created_at"@[0] == 'c');
    let members = def_json(contents(def))->Object_0;
    assert(members.dom() =~= set![
        "name"@,
        "description"@,
        "action"@,
        "parameters"@,
        "created_at"@,
    ]);
    let params = members["parameters"@]->Object_0;
    assert(params.dom() =~= map_of(def.parameters).dom());
}

/// A list of definitions is stored as the list of their forms, in order.
pub proof fn stored_definitions(defs: Seq<DefContents>)
    ensures
        store_json(defs) matches JsonModel::Array(items) && items.len() == defs.len() && forall|
            i: int,
        |
            0 <= i < defs.len() ==> #[trigger] items[i] == def_json(defs[i]),
{
}

/// Whether an object holds the parameters of a definition, or says nothing of
/// them.
pub open spec fn parameters_can_be_read(members: Map<Seq<char>, JsonModel>) -> bool {
    members.dom().contains("parameters"@) ==> (members["parameters"@] matches JsonModel::Object(
        params,
    ) && forall|k: Seq<char>|
        params.dom().contains(k) ==> param_of(#[trigger] params[k]) is Some)
}

/// An object is read as a definition just where it has a name, a description and
/// an action that are texts, the time of creation is a text if it is there, and
/// so are its parameters; the definition then has these.
pub proof fn read_definition(members: Map<Seq<char>, JsonModel>)
    ensures
        def_of(JsonModel::Object(members)) is Some <==> text_at(members, "name"@) is Some
            && text_at(members, "description"@) is Some && text_at(members, "action"@) is Some && (
        members.dom().contains("created_at"@) ==> members["created_at"@] is Text)
            && parameters_can_be_read(members),
        def_of(JsonModel::Object(members)) matches Some(def) ==> {
            &&& text_at(members, "name"@) == Some(def.name)
            &&& text_at(members, "description"@) == Some(def.description)
            &&& text_at(members, "action"@) == Some(def.action)
            &&& def.created_at == (match text_at(members, "created_at"@) {
                Some(text) => text,
                None => Seq::empty(),
            })
            &&& !members.dom().contains("parameters"@) ==> def.parameters.dom()
                =~= Set::<Seq<char>>::empty()
            &&& members.dom().contains("parameters"@) ==> (
            members["parameters"@] matches JsonModel::Object(params) && def.parameters.dom()
                =~= params.dom() && forall|k: Seq<char>|
                params.dom().contains(k) ==> param_of(#[trigger] params[k]) == Some(
                    def.parameters[k],
                ))
        },
{
}

/// Whether an object holds the items of a list under the names, in order, and
/// none of the names beyond them.
pub open spec fn names_the_items(
    members: Map<Seq<char>, JsonModel>,
    items: Seq<JsonModel>,
    names: Seq<Seq<char>>,
) -> bool {
    forall|i: int| #![trigger names[i]]
        0 <= i < names.len() ==> members.dom().contains(names[i]) == (i < items.len()) && (i
            < items.len() ==> members[names[i]] == items[i])
}

/// A list of up to five fields is read as the object with the same fields under
/// their names, and a list of up to three as that parameter; longer lists are
/// not read.
pub proof fn lists_stand_for_objects(items: Seq<JsonModel>, members: Map<Seq<char>, JsonModel>)
    ensures
        items.len() <= 5 && names_the_items(
            members,
            items,
            seq!["name"@, "description"@, "action"@, "parameters"@, "created_at"@],
        ) ==> def_of(JsonModel::Array(items)) == def_of(JsonModel::Object(members)),
        items.len() <= 3 && names_the_items(
            members,
            items,
            seq!["param_type"@, "description"@, "required"@],
        ) ==> param_of(JsonModel::Array(items)) == param_of(JsonModel::Object(members)),
        items.len() > 5 ==> def_of(JsonModel::Array(items)) is None,
        items.len() > 3 ==> param_of(JsonModel::Array(items)) is None,
{
    let fields = seq!["name"@, "description"@, "action"@, "parameters"@, "created_at"@];
    let traits = seq!["param_type"@, "description"@, "required"@];
    assert(fields[0] == "name"@ && fields[1] == "description"@ && fields[2] == "action"@);
    assert(fields[3] == "parameters"@ && fields[4] == "created_at"@);
    assert(traits[0] == "param_type"@ && traits[1] == "description"@ && traits[2] == "required"@);
}

/// A list is read as definitions just where each item is, in order; nothing but
/// a list is.
pub proof fn read_definitions(items: Seq<JsonModel>, other: JsonModel)
    ensures
        store_of(JsonModel::Array(items)) is Some <==> forall|i: int|
            0 <= i < items.len() ==> def_of(#[trigger] items[i]) is Some,
        store_of(JsonModel::Array(items)) matches Some(defs) ==> defs.len() == items.len()
            && forall|i: int|
            0 <= i < items.len() ==> def_of(#[trigger] items[i]) == Some(defs[i]),
        !(other is Array) ==> store_of(other) is None,
{
}

/// What of a list of definitions is stored is what of each is, in order: its
/// texts, and its parameters by name.
pub proof fn what_is_stored(defs: Seq<ComposedToolDef>, i: int)
    requires
        0 <= i < defs.len(),
    ensures
        all_contents(defs).len() == defs.len(),
        all_contents(defs)[i].name == defs[i]@.name,
        all_contents(defs)[i].description == defs[i]@.description,
        all_contents(defs)[i].action == defs[i]@.action,
        all_contents(defs)[i].created_at == defs[i]@.created_at,
        all_contents(defs)[i].parameters == map_of(defs[i]@.parameters),
{
}

} // verus!
