//! The JSON form in which definitions of composed tools are stored.
//!
//! A definition is stored as an object with its fields under their names; the
//! order of its parameters is not kept. What is read back from the form of a
//! list of definitions is that list: [`saved_definitions_load_back`].

use vstd::prelude::*;
use vstd::string::*;
use crate::json::{
    item, items_model, items_model_index, member, members_model, opt_json, put, put_item, text_of,
    Json, JsonModel,
};
use crate::text_map::{map_of, values_mapped, TextMap};
use crate::tools::composed::{
    param_models, param_of, read_text_field, text_field, ComposedToolDef, ComposedToolStore,
    DefModel, ParamDef, ParamModel,
};

verus! {

/// What of a definition is stored: all but the order of its parameters.
#[verifier::ext_equal]
pub struct DefContents {
    pub name: Seq<char>,
    pub description: Seq<char>,
    pub action: Seq<char>,
    pub parameters: Map<Seq<char>, ParamModel>,
    pub created_at: Seq<char>,
}

/// What of a definition is stored.
pub open spec fn contents(def: DefModel) -> DefContents {
    DefContents {
        name: def.name,
        description: def.description,
        action: def.action,
        parameters: map_of(def.parameters),
        created_at: def.created_at,
    }
}

/// The JSON form of a parameter.
pub open spec fn param_json(param: ParamModel) -> JsonModel {
    JsonModel::Object(
        Map::empty().insert("param_type"@, JsonModel::Text(param.param_type)).insert(
            "description"@,
            JsonModel::Text(param.description),
        ).insert("required"@, JsonModel::Bool(param.required)),
    )
}

/// The JSON forms of parameters by name.
pub open spec fn params_json(params: Map<Seq<char>, ParamModel>) -> Map<Seq<char>, JsonModel> {
    params.map_values(|p: ParamModel| param_json(p))
}

/// The JSON form of a definition.
pub open spec fn def_json(def: DefContents) -> JsonModel {
    JsonModel::Object(
        Map::empty().insert("name"@, JsonModel::Text(def.name)).insert(
            "description"@,
            JsonModel::Text(def.description),
        ).insert("action"@, JsonModel::Text(def.action)).insert(
            "parameters"@,
            JsonModel::Object(params_json(def.parameters)),
        ).insert("created_at"@, JsonModel::Text(def.created_at)),
    )
}

/// The JSON form of a list of definitions.
pub open spec fn store_json(defs: Seq<DefContents>) -> JsonModel {
    JsonModel::Array(defs.map_values(|d: DefContents| def_json(d)))
}

/// The parameters that a JSON value gives: none where it is absent, and nothing
/// where it is no object or a member of it gives no parameter.
pub open spec fn params_of(value: Option<JsonModel>) -> Option<Map<Seq<char>, ParamModel>> {
    match value {
        None => Some(Map::empty()),
        Some(JsonModel::Object(members)) => if forall|name: Seq<char>|
            members.dom().contains(name) ==> param_of(#[trigger] members[name]) is Some {
            Some(members.map_values(|v: JsonModel| param_of(v)->0))
        } else {
            None
        },
        Some(_) => None,
    }
}

/// A text that has to be there.
pub open spec fn needed_text(value: Option<JsonModel>) -> Option<Seq<char>> {
    match value {
        Some(value) => text_of(value),
        None => None,
    }
}

/// The definition that the five fields give, if each that is needed is there and
/// each has its type.
pub open spec fn def_of_fields(
    name: Option<JsonModel>,
    description: Option<JsonModel>,
    action: Option<JsonModel>,
    parameters: Option<JsonModel>,
    created_at: Option<JsonModel>,
) -> Option<DefContents> {
    match (
        needed_text(name),
        needed_text(description),
        needed_text(action),
        params_of(parameters),
        text_field(created_at, Seq::empty()),
    ) {
        (
            Some(name),
            Some(description),
            Some(action),
            Some(parameters),
            Some(created_at),
        ) => Some(DefContents { name, description, action, parameters, created_at }),
        _ => None,
    }
}

/// The definition that a JSON value gives: an object with the fields by name, or
/// an array with up to five of them in order.
pub open spec fn def_of(value: JsonModel) -> Option<DefContents> {
    match value {
        JsonModel::Object(_) => def_of_fields(
            member(value, "name"@),
            member(value, "description"@),
            member(value, "action"@),
            member(value, "parameters"@),
            member(value, "created_at"@),
        ),
        JsonModel::Array(items) => if items.len() <= 5 {
            def_of_fields(
                item(value, 0),
                item(value, 1),
                item(value, 2),
                item(value, 3),
                item(value, 4),
            )
        } else {
            None
        },
        _ => None,
    }
}

/// The definitions that a JSON value gives: an array of them.
pub open spec fn store_of(value: JsonModel) -> Option<Seq<DefContents>> {
    match value {
        JsonModel::Array(items) => if forall|i: int|
            0 <= i < items.len() ==> def_of(#[trigger] items[i]) is Some {
            Some(items.map_values(|v: JsonModel| def_of(v)->0))
        } else {
            None
        },
        _ => None,
    }
}

/// What of a list of definitions is stored.
pub open spec fn all_contents(defs: Seq<ComposedToolDef>) -> Seq<DefContents> {
    defs.map_values(|d: ComposedToolDef| contents(d@))
}

/// Mapping the values of a list maps those of the map it denotes.
proof fn map_of_mapped<V, W>(pairs: Seq<(Seq<char>, V)>, f: spec_fn(V) -> W)
    ensures
        map_of(values_mapped(pairs, f)) == map_of(pairs).map_values(f),
    decreases pairs.len(),
{
    let mapped = values_mapped(pairs, f);
    if pairs.len() == 0 {
        assert(map_of(mapped) =~= map_of(pairs).map_values(f));
    } else {
        map_of_mapped(pairs.drop_last(), f);
        assert(mapped.drop_last() =~= values_mapped(pairs.drop_last(), f));
        assert(map_of(mapped) =~= map_of(pairs).map_values(f));
    }
}

/// A key is in the map of a list of members just where it stands in the list.
proof fn member_names(members: Seq<(String, Json)>)
    ensures
        forall|name: Seq<char>| #[trigger]
            members_model(members).dom().contains(name) == exists|i: int|
                0 <= i < members.len() && (#[trigger] members[i]).0@ == name,
    decreases members.len(),
{
    if members.len() > 0 {
        let front = members.drop_last();
        member_names(front);
        assert forall|name: Seq<char>| #[trigger]
            members_model(members).dom().contains(name) == exists|i: int|
                0 <= i < members.len() && (#[trigger] members[i]).0@ == name by {
            assert(members_model(front).dom().contains(name) == exists|i: int|
                0 <= i < front.len() && (#[trigger] front[i]).0@ == name);
            if members_model(front).dom().contains(name) {
                let i = choose|i: int| 0 <= i < front.len() && (#[trigger] front[i]).0@ == name;
                assert(members[i].0@ == name);
            }
            if members.last().0@ == name {
                assert(members[members.len() - 1].0@ == name);
            }
            if exists|i: int| 0 <= i < members.len() && (#[trigger] members[i]).0@ == name {
                let i = choose|i: int| 0 <= i < members.len() && (#[trigger] members[i]).0@ == name;
                if i < front.len() {
                    assert(front[i].0@ == name);
                }
            }
        }
    }
}

/// Reads the parameters of a definition.
fn read_stored_params(value: Option<&Json>) -> (r: Option<TextMap<ParamDef>>)
    ensures
        match r {
            Some(params) => params_of(opt_json(value)) == Some(
                map_of(param_models(params.pairs())),
            ),
            None => params_of(opt_json(value)) is None,
        },
{
    let mut params: TextMap<ParamDef> = TextMap::new();
    let object = match value {
        None => {
            proof {
                assert(param_models(params.pairs()) =~= Seq::empty());
            }
            return Some(params);
        },
        Some(object) => object,
    };
    let members = match object.as_object() {
        None => return None,
        Some(members) => members,
    };
    let ghost all = members_model(members@);
    let mut i: usize = 0;
    proof {
        member_names(members@);
    }
    while i < members.len()
        invariant
            i <= members.len(),
            *object == Json::Object(*members),
            opt_json(value) == Some(JsonModel::Object(all)),
            all == members_model(members@),
            forall|name: Seq<char>| #[trigger]
                all.dom().contains(name) == exists|j: int|
                    0 <= j < members.len() && (#[trigger] members@[j]).0@ == name,
            forall|name: Seq<char>| #[trigger]
                map_of(params.pairs()).dom().contains(name) == exists|j: int|
                    0 <= j < i && (#[trigger] members@[j]).0@ == name,
            forall|name: Seq<char>| #[trigger]
                map_of(params.pairs()).dom().contains(name) ==> all.dom().contains(name)
                    && param_of(all[name]) == Some(map_of(params.pairs())[name]@),
        decreases members.len() - i,
    {
        let name = members[i].0.as_str();
        let ghost before = map_of(params.pairs());
        proof {
            assert(members@[i as int].0@ == name@);
            assert(all.dom().contains(name@));
        }
        let param = match object.get(name) {
            Some(value) => ParamDef::from_json(value),
            None => None,
        };
        let param = match param {
            Some(param) => param,
            None => {
                proof {
                    assert(param_of(all[name@]) is None);
                }
                return None;
            },
        };
        params.insert(name.to_string(), param);
        proof {
            let after = map_of(params.pairs());
            assert forall|n: Seq<char>| #[trigger] after.dom().contains(n) == exists|j: int|
                0 <= j < i + 1 && (#[trigger] members@[j]).0@ == n by {
                assert(before.dom().contains(n) == exists|j: int|
                    0 <= j < i && (#[trigger] members@[j]).0@ == n);
                if n == name@ {
                    assert(members@[i as int].0@ == n);
                }
            }
            assert forall|n: Seq<char>| #[trigger] after.dom().contains(n) implies all.dom().contains(
                n,
            ) && param_of(all[n]) == Some(after[n]@) by {
                if n != name@ {
                    assert(before.dom().contains(n));
                }
            }
        }
        i = i + 1;
    }
    proof {
        let view = |p: ParamDef| p@;
        map_of_mapped(params.pairs(), view);
        let found = map_of(params.pairs());
        assert forall|name: Seq<char>| all.dom().contains(name) implies param_of(
            #[trigger] all[name],
        ) is Some by {
            assert(found.dom().contains(name));
        }
        assert(found.map_values(view) =~= all.map_values(|v: JsonModel| param_of(v)->0)) by {
            assert forall|name: Seq<char>| found.dom().contains(name) == all.dom().contains(
                name,
            ) by {}
            assert forall|name: Seq<char>| found.dom().contains(name) implies found[name]@
                == param_of(all[name])->0 by {}
        }
    }
    Some(params)
}

/// Reads a text that has to be there.
fn read_needed_text(value: Option<&Json>) -> (r: Option<String>)
    ensures
        match r {
            Some(s) => needed_text(opt_json(value)) == Some(s@),
            None => needed_text(opt_json(value)) is None,
        },
{
    match value {
        Some(value) => match value.as_str() {
            Some(s) => Some(s.to_string()),
            None => None,
        },
        None => None,
    }
}

/// The JSON form of a parameter.
fn param_json_of(param: &ParamDef) -> (r: Json)
    ensures
        r@ == param_json(param@),
{
    let mut members: Vec<(String, Json)> = Vec::new();
    put(&mut members, "param_type", Json::text(param.param_type.as_str()));
    put(&mut members, "description", Json::text(param.description.as_str()));
    put(&mut members, "required", Json::Bool(param.required));
    Json::Object(members)
}

impl ComposedToolDef {
    /// The JSON form of the definition.
    pub fn to_json(&self) -> (r: Json)
        ensures
            r@ == def_json(contents(self@)),
    {
        let params = &self.parameters;
        let ghost all = self@.parameters;
        let mut forms: Vec<(String, Json)> = Vec::new();
        let n = params.len();
        let mut i: usize = 0;
        proof {
            assert(members_model(forms@) =~= params_json(map_of(all.take(0))));
        }
        while i < n
            invariant
                i <= n,
                n == params.pairs().len(),
                all == param_models(params.pairs()),
                members_model(forms@) == params_json(map_of(all.take(i as int))),
            decreases n - i,
        {
            let name = params.key_at(i);
            let param = params.value_at(i);
            proof {
                assert(all.take(i + 1).drop_last() =~= all.take(i as int));
                assert(all.take(i + 1).last() == (name@, param@));
                assert(params_json(map_of(all.take(i + 1))) =~= params_json(
                    map_of(all.take(i as int)),
                ).insert(name@, param_json(param@)));
            }
            put(&mut forms, name, param_json_of(param));
            i = i + 1;
        }
        proof {
            assert(all.take(i as int) =~= all);
        }
        let mut members: Vec<(String, Json)> = Vec::new();
        put(&mut members, "name", Json::text(self.name.as_str()));
        put(&mut members, "description", Json::text(self.description.as_str()));
        put(&mut members, "action", Json::text(self.action.as_str()));
        put(&mut members, "parameters", Json::Object(forms));
        put(&mut members, "created_at", Json::text(self.created_at.as_str()));
        Json::Object(members)
    }

    /// The definition that a JSON value gives, if it gives one.
    pub fn from_json(value: &Json) -> (r: Option<ComposedToolDef>)
        ensures
            match r {
                Some(def) => def_of(value@) == Some(contents(def@)),
                None => def_of(value@) is None,
            },
    {
        let (name, description, action, parameters, created_at) = match value {
            Json::Object(_) => (
                value.get("name"),
                value.get("description"),
                value.get("action"),
                value.get("parameters"),
                value.get("created_at"),
            ),
            Json::Array(items) => {
                proof {
                    items_model_index(items@);
                }
                if items.len() > 5 {
                    return None;
                }
                (value.at(0), value.at(1), value.at(2), value.at(3), value.at(4))
            },
            _ => {
                return None;
            },
        };
        proof {
            reveal_strlit("");
            assert(""@ =~= Seq::<char>::empty());
        }
        let name = read_needed_text(name);
        let description = read_needed_text(description);
        let action = read_needed_text(action);
        let parameters = read_stored_params(parameters);
        let created_at = read_text_field(created_at, "");
        match (name, description, action, parameters, created_at) {
            (
                Some(name),
                Some(description),
                Some(action),
                Some(parameters),
                Some(created_at),
            ) => Some(ComposedToolDef { name, description, action, parameters, created_at }),
            _ => None,
        }
    }
}

impl ComposedToolStore {
    /// The JSON form of a list of definitions.
    pub fn to_json(defs: &Vec<ComposedToolDef>) -> (r: Json)
        ensures
            r@ == store_json(all_contents(defs@)),
    {
        let ghost forms = all_contents(defs@).map_values(|d: DefContents| def_json(d));
        let mut items: Vec<Json> = Vec::new();
        let mut i: usize = 0;
        proof {
            assert(items_model(items@) =~= forms.take(0));
        }
        while i < defs.len()
            invariant
                i <= defs.len(),
                forms == all_contents(defs@).map_values(|d: DefContents| def_json(d)),
                items_model(items@) == forms.take(i as int),
            decreases defs.len() - i,
        {
            let form = defs[i].to_json();
            proof {
                assert(forms[i as int] == form@);
                assert(forms.take(i as int).push(form@) =~= forms.take(i + 1));
            }
            put_item(&mut items, form);
            i = i + 1;
        }
        proof {
            assert(forms.take(i as int) =~= forms);
        }
        Json::Array(items)
    }

    /// The definitions that a JSON value gives, if it gives a list of them.
    pub fn from_json(value: &Json) -> (r: Option<Vec<ComposedToolDef>>)
        ensures
            match r {
                Some(defs) => store_of(value@) == Some(all_contents(defs@)),
                None => store_of(value@) is None,
            },
    {
        let items = match value.as_array() {
            Some(items) => items,
            None => return None,
        };
        let ghost all = items_model(items@);
        let mut defs: Vec<ComposedToolDef> = Vec::new();
        let mut i: usize = 0;
        proof {
            items_model_index(items@);
        }
        while i < items.len()
            invariant
                i <= items.len(),
                value@ == JsonModel::Array(all),
                all.len() == items.len(),
                forall|j: int| 0 <= j < items.len() ==> #[trigger] all[j] == items@[j].model(),
                defs.len() == i,
                forall|j: int|
                    0 <= j < i ==> def_of(#[trigger] all[j]) == Some(contents(defs@[j]@)),
            decreases items.len() - i,
        {
            proof {
                assert(all[i as int] == items@[i as int]@);
            }
            match ComposedToolDef::from_json(&items[i]) {
                Some(def) => {
                    defs.push(def);
                },
                None => {
                    proof {
                        assert(def_of(all[i as int]) is None);
                    }
                    return None;
                },
            }
            i = i + 1;
        }
        proof {
            assert(all.map_values(|v: JsonModel| def_of(v)->0) =~= all_contents(defs@));
        }
        Some(defs)
    }
}

/// What is read back from the form of a parameter is that parameter.
pub proof fn saved_parameter_loads_back(param: ParamModel)
    ensures
        param_of(param_json(param)) == Some(param),
{
    reveal_strlit("param_type");
    reveal_strlit("description");
    reveal_strlit("required");
    assert("param_type"@.len() == 10 && "description"@.len() == 11 && "required"@.len() == 8);
}

/// What is read back from the form of a definition is that definition.
pub proof fn saved_definition_loads_back(def: DefContents)
    ensures
        def_of(def_json(def)) == Some(def),
{
    reveal_strlit("name");
    reveal_strlit("description");
    reveal_strlit("action");
    reveal_strlit("parameters");
    reveal_strlit("created_at");
    assert("name"@.len() == 4 && "description"@.len() == 11 && "action"@.len() == 6);
    assert("parameters"@.len() == 10 && "created_at"@.len() == 10);
    assert("parameters"@[0] == 'p' && "created_at"@[0] == 'c');
    let forms = params_json(def.parameters);
    assert forall|name: Seq<char>| forms.dom().contains(name) implies param_of(
        #[trigger] forms[name],
    ) == Some(def.parameters[name]) by {
        saved_parameter_loads_back(def.parameters[name]);
    }
    assert(forms.map_values(|v: JsonModel| param_of(v)->0) =~= def.parameters);
    let value = def_json(def);
    assert(member(value, "parameters"@) == Some(JsonModel::Object(forms)));
}

/// What is read back from the form of a list of definitions is that list.
pub proof fn saved_definitions_load_back(defs: Seq<DefContents>)
    ensures
        store_of(store_json(defs)) == Some(defs),
{
    let forms = defs.map_values(|d: DefContents| def_json(d));
    assert forall|i: int| 0 <= i < forms.len() implies def_of(#[trigger] forms[i]) == Some(
        defs[i],
    ) by {
        saved_definition_loads_back(defs[i]);
    }
    assert(forms.map_values(|v: JsonModel| def_of(v)->0) =~= defs);
}

} // verus!
