//! Tools that are described in natural language.
//!
//! A composed tool is a name, a description and an action template. Calling it
//! returns the template, with the call's parameters put in, as instructions
//! for the agent.

use vstd::prelude::*;
use vstd::string::*;
use crate::error::{outcome, ErrorModel, ZeptoError};
use crate::json::{
    item, items_model, items_model_index, json_text, member, members_model, opt_json, put,
    put_item, text_of, Json, JsonModel,
};
use crate::paths::{home_dir, join_path, no_verbatim_prefix, path_steps, single_step};
use crate::text::{byte_len, same_text, trim, trimmed};
use crate::text_map::{
    distinct_keys, has_key, upsert, upsert_mapped, values_mapped, TextMap,
};
use crate::tools::output::{llm_only, OutputModel, ToolCategory, ToolOutput};
use crate::tools::schema::{object_schema, schema_of};
use crate::tools::template::{arg_texts, interpolate, interpolate_action};

verus! {

/// A parameter of a composed tool.
#[derive(Debug)]
pub struct ParamDef {
    /// The JSON Schema type.
    pub param_type: String,
    /// What the parameter is for.
    pub description: String,
    /// Whether a call has to give it.
    pub required: bool,
}

/// What a parameter definition says.
#[verifier::ext_equal]
pub struct ParamModel {
    pub param_type: Seq<char>,
    pub description: Seq<char>,
    pub required: bool,
}

impl View for ParamDef {
    type V = ParamModel;

    open spec fn view(&self) -> ParamModel {
        ParamModel {
            param_type: self.param_type@,
            description: self.description@,
            required: self.required,
        }
    }
}

/// The type of a parameter that gives none.
pub fn default_param_type() -> (r: String)
    ensures
        r@ == "string"@,
{
    "string".to_string()
}

/// A parameter is required unless it says otherwise.
pub fn default_true() -> (r: bool)
    ensures
        r,
{
    true
}

/// The parameter that says nothing of itself.
pub open spec fn default_param() -> ParamModel {
    ParamModel { param_type: "string"@, description: Seq::empty(), required: true }
}

/// A text field: `default` where it is absent, nothing where it is no text.
pub open spec fn text_field(value: Option<JsonModel>, default: Seq<char>) -> Option<Seq<char>> {
    match value {
        None => Some(default),
        Some(value) => text_of(value),
    }
}

/// A boolean field: true where it is absent, nothing where it is no boolean.
pub open spec fn flag_field(value: Option<JsonModel>) -> Option<bool> {
    match value {
        None => Some(true),
        Some(JsonModel::Bool(b)) => Some(b),
        Some(_) => None,
    }
}

/// The definition that the three fields give, if each has its type.
pub open spec fn param_of_fields(
    param_type: Option<JsonModel>,
    description: Option<JsonModel>,
    required: Option<JsonModel>,
) -> Option<ParamModel> {
    match (
        text_field(param_type, "string"@),
        text_field(description, Seq::empty()),
        flag_field(required),
    ) {
        (Some(param_type), Some(description), Some(required)) => Some(
            ParamModel { param_type, description, required },
        ),
        _ => None,
    }
}

/// The definition that a JSON value gives: an object with the fields by name,
/// or an array with up to three of them in order.
pub open spec fn param_of(value: JsonModel) -> Option<ParamModel> {
    match value {
        JsonModel::Object(_) => param_of_fields(
            member(value, "param_type"@),
            member(value, "description"@),
            member(value, "required"@),
        ),
        JsonModel::Array(items) => if items.len() <= 3 {
            param_of_fields(item(value, 0), item(value, 1), item(value, 2))
        } else {
            None
        },
        _ => None,
    }
}

/// Reads a text field.
pub fn read_text_field(value: Option<&Json>, default: &str) -> (r: Option<String>)
    ensures
        match r {
            Some(s) => text_field(opt_json(value), default@) == Some(s@),
            None => text_field(opt_json(value), default@) is None,
        },
{
    match value {
        None => Some(default.to_string()),
        Some(value) => match value.as_str() {
            Some(s) => Some(s.to_string()),
            None => None,
        },
    }
}

/// Reads a boolean field.
fn read_flag_field(value: Option<&Json>) -> (r: Option<bool>)
    ensures
        r == flag_field(opt_json(value)),
{
    match value {
        None => Some(default_true()),
        Some(value) => value.as_bool(),
    }
}

impl ParamDef {
    /// The definition that a JSON value gives, if it gives one.
    pub fn from_json(value: &Json) -> (r: Option<ParamDef>)
        ensures
            match r {
                Some(param) => param_of(value@) == Some(param@),
                None => param_of(value@) is None,
            },
    {
        let (param_type, description, required) = match value {
            Json::Object(_) => (
                value.get("param_type"),
                value.get("description"),
                value.get("required"),
            ),
            Json::Array(items) => {
                proof {
                    items_model_index(items@);
                }
                if items.len() > 3 {
                    return None;
                }
                (value.at(0), value.at(1), value.at(2))
            },
            _ => {
                return None;
            },
        };
        let param_type = read_text_field(param_type, "string");
        let description = read_text_field(description, "");
        let required = read_flag_field(required);
        proof {
            reveal_strlit("");
            assert(""@ =~= Seq::<char>::empty());
        }
        match (param_type, description, required) {
            (Some(param_type), Some(description), Some(required)) => Some(
                ParamDef { param_type, description, required },
            ),
            _ => None,
        }
    }
}

/// The parameters of a list of entries.
pub open spec fn param_models(pairs: Seq<(Seq<char>, ParamDef)>) -> Seq<(Seq<char>, ParamModel)> {
    values_mapped(pairs, |p: ParamDef| p@)
}

/// The parameter that a request for a new tool describes. A text is a type; a
/// value that gives no definition stands for the parameter that says nothing
/// of itself.
pub open spec fn requested_param(value: JsonModel) -> ParamModel {
    match value {
        JsonModel::Text(param_type) => ParamModel {
            param_type,
            description: Seq::empty(),
            required: true,
        },
        _ => match param_of(value) {
            Some(param) => param,
            None => default_param(),
        },
    }
}

/// The parameters that a request describes, in the order of its members.
pub open spec fn requested_params(members: Seq<(String, Json)>) -> Seq<(Seq<char>, ParamModel)>
    decreases members.len(),
{
    if members.len() == 0 {
        Seq::empty()
    } else {
        upsert(
            requested_params(members.drop_last()),
            members.last().0@,
            requested_param(members.last().1.model()),
        )
    }
}

/// Reads the description of one parameter.
fn read_param(value: &Json) -> (r: ParamDef)
    ensures
        r@ == requested_param(value@),
{
    match value.as_str() {
        Some(param_type) => ParamDef {
            param_type: param_type.to_string(),
            description: String::new(),
            required: true,
        },
        None => match ParamDef::from_json(value) {
            Some(param) => param,
            None => ParamDef {
                param_type: default_param_type(),
                description: String::new(),
                required: default_true(),
            },
        },
    }
}

/// Reads the descriptions of the parameters.
pub fn read_params(members: &Vec<(String, Json)>) -> (r: TextMap<ParamDef>)
    ensures
        param_models(r.pairs()) == requested_params(members@),
{
    let mut params: TextMap<ParamDef> = TextMap::new();
    let mut i: usize = 0;
    proof {
        assert(param_models(params.pairs()) =~= requested_params(members@.take(0)));
    }
    while i < members.len()
        invariant
            i <= members.len(),
            param_models(params.pairs()) == requested_params(members@.take(i as int)),
        decreases members.len() - i,
    {
        let param = read_param(&members[i].1);
        proof {
            upsert_mapped(params.pairs(), members@[i as int].0@, param, |p: ParamDef| p@);
            assert(members@.take(i + 1).drop_last() =~= members@.take(i as int));
        }
        params.insert(members[i].0.clone(), param);
        i = i + 1;
    }
    proof {
        assert(members@.take(i as int) =~= members@);
    }
    params
}

/// The definition of a composed tool.
pub struct ComposedToolDef {
    /// The name under which the tool is called.
    pub name: String,
    /// What the tool is for.
    pub description: String,
    /// The action template.
    pub action: String,
    /// The parameters by name.
    pub parameters: TextMap<ParamDef>,
    /// When the tool was created.
    pub created_at: String,
}

/// What a definition says.
#[verifier::ext_equal]
pub struct DefModel {
    pub name: Seq<char>,
    pub description: Seq<char>,
    pub action: Seq<char>,
    pub parameters: Seq<(Seq<char>, ParamModel)>,
    pub created_at: Seq<char>,
}

impl View for ComposedToolDef {
    type V = DefModel;

    open spec fn view(&self) -> DefModel {
        DefModel {
            name: self.name@,
            description: self.description@,
            action: self.action@,
            parameters: param_models(self.parameters.pairs()),
            created_at: self.created_at@,
        }
    }
}

/// The definitions of a list.
pub open spec fn def_models(defs: Seq<ComposedToolDef>) -> Seq<DefModel> {
    defs.map_values(|d: ComposedToolDef| d@)
}

/// The JSON Schema of one parameter.
pub open spec fn param_schema(param: ParamModel) -> JsonModel {
    let typed = Map::empty().insert("type"@, JsonModel::Text(param.param_type));
    JsonModel::Object(
        if param.description.len() == 0 {
            typed
        } else {
            typed.insert("description"@, JsonModel::Text(param.description))
        },
    )
}

/// The JSON Schemas of the parameters by name.
pub open spec fn param_schemas(params: Seq<(Seq<char>, ParamModel)>) -> Map<Seq<char>, JsonModel>
    decreases params.len(),
{
    if params.len() == 0 {
        Map::empty()
    } else {
        param_schemas(params.drop_last()).insert(
            params.last().0,
            param_schema(params.last().1),
        )
    }
}

/// The names of the required parameters.
pub open spec fn required_names(params: Seq<(Seq<char>, ParamModel)>) -> Seq<JsonModel>
    decreases params.len(),
{
    if params.len() == 0 {
        Seq::empty()
    } else if params.last().1.required {
        required_names(params.drop_last()).push(JsonModel::Text(params.last().0))
    } else {
        required_names(params.drop_last())
    }
}

/// The text that an argument puts into a template: a text itself, the compact
/// JSON of any other value.
pub open spec fn arg_text(value: JsonModel) -> Seq<char> {
    match value {
        JsonModel::Text(s) => s,
        _ => json_text(value),
    }
}

/// Whether a member of a request to `create_tool` belongs to the request and is
/// no argument of the tool that it runs.
pub open spec fn reserved(key: Seq<char>) -> bool {
    key == "action"@ || key == "name"@
}

/// The arguments that the members of a call give, without the reserved ones
/// where `running`.
pub open spec fn call_args(members: Seq<(String, Json)>, running: bool) -> Seq<
    (Seq<char>, Seq<char>),
>
    decreases members.len(),
{
    if members.len() == 0 {
        Seq::empty()
    } else {
        let before = call_args(members.drop_last(), running);
        let key = members.last().0@;
        if running && reserved(key) {
            before
        } else {
            upsert(before, key, arg_text(members.last().1.model()))
        }
    }
}

/// The arguments that a call gives; none where it is no object.
pub open spec fn args_of(args: Json, running: bool) -> Seq<(Seq<char>, Seq<char>)> {
    match args {
        Json::Object(members) => call_args(members@, running),
        _ => Seq::empty(),
    }
}

/// What a composed tool answers.
pub open spec fn instructions(action: Seq<char>, args: Seq<(Seq<char>, Seq<char>)>) -> OutputModel {
    llm_only("[Composed tool instructions] "@ + interpolate(action, args))
}

/// The JSON Schema of the arguments of a tool with the given parameters.
pub open spec fn tool_schema(params: Seq<(Seq<char>, ParamModel)>) -> JsonModel {
    object_schema(param_schemas(params), required_names(params))
}

/// What a tool answers to a call under its own name.
pub open spec fn executed(def: DefModel, args: Json) -> OutputModel {
    instructions(def.action, args_of(args, false))
}

/// Collects the arguments of a call.
pub fn read_args(args: &Json, running: bool) -> (r: TextMap<String>)
    ensures
        arg_texts(r.pairs()) == args_of(*args, running),
{
    let mut out: TextMap<String> = TextMap::new();
    proof {
        assert(arg_texts(out.pairs()) =~= Seq::empty());
    }
    match args.as_object() {
        None => out,
        Some(members) => {
            let mut i: usize = 0;
            proof {
                assert(members@.take(0) =~= Seq::empty());
            }
            while i < members.len()
                invariant
                    i <= members.len(),
                    arg_texts(out.pairs()) == call_args(members@.take(i as int), running),
                decreases members.len() - i,
            {
                let key = members[i].0.as_str();
                proof {
                    assert(members@.take(i + 1).drop_last() =~= members@.take(i as int));
                }
                let skip = running && (same_text(key, "action") || same_text(key, "name"));
                if !skip {
                    let text = match members[i].1.as_str() {
                        Some(s) => s.to_string(),
                        None => members[i].1.compact(),
                    };
                    proof {
                        upsert_mapped(out.pairs(), key@, text, |s: String| s@);
                    }
                    out.insert(key.to_string(), text);
                }
                i = i + 1;
            }
            proof {
                assert(members@.take(i as int) =~= members@);
            }
            out
        },
    }
}

/// Puts the arguments into the action and frames it for the agent.
pub fn instruct(action: &str, args: &TextMap<String>) -> (r: ToolOutput)
    ensures
        r@ == instructions(action@, arg_texts(args.pairs())),
{
    let filled = interpolate_action(action, args);
    let mut text = "[Composed tool instructions] ".to_string();
    text.append(filled.as_str());
    ToolOutput::llm_only(text)
}

/// A tool made from a definition. It returns its action as instructions for
/// the agent.
pub struct ComposedTool {
    def: ComposedToolDef,
}

impl View for ComposedTool {
    type V = DefModel;

    closed spec fn view(&self) -> DefModel {
        self.def@
    }
}

impl ComposedTool {
    /// The tool of a definition.
    pub fn new(def: ComposedToolDef) -> (r: ComposedTool)
        ensures
            r@ == def@,
    {
        ComposedTool { def }
    }

    /// The name of the tool.
    pub fn name(&self) -> (r: &str)
        ensures
            r@ == self@.name,
    {
        self.def.name.as_str()
    }

    /// What the tool is for.
    pub fn description(&self) -> (r: &str)
        ensures
            r@ == self@.description,
    {
        self.def.description.as_str()
    }

    /// What the tool is for, in short: the description itself.
    pub fn compact_description(&self) -> (r: &str)
        ensures
            r@ == self@.description,
    {
        self.description()
    }

    /// A composed tool only returns text; the tools that the agent then calls
    /// have categories of their own.
    pub fn category(&self) -> (r: ToolCategory)
        ensures
            r == ToolCategory::Memory,
    {
        ToolCategory::Memory
    }

    /// The JSON Schema of the arguments.
    pub fn parameters(&self) -> (r: Json)
        ensures
            r@ == tool_schema(self@.parameters),
    {
        let params = &self.def.parameters;
        let ghost all = self@.parameters;
        let mut properties: Vec<(String, Json)> = Vec::new();
        let mut required: Vec<Json> = Vec::new();
        let mut i: usize = 0;
        let n = params.len();
        while i < n
            invariant
                i <= n,
                n == params.pairs().len(),
                all == param_models(params.pairs()),
                members_model(properties@) == param_schemas(all.take(i as int)),
                items_model(required@) == required_names(all.take(i as int)),
            decreases n - i,
        {
            let name = params.key_at(i);
            let param = params.value_at(i);
            proof {
                assert(all.take(i + 1).drop_last() =~= all.take(i as int));
                assert(all.take(i + 1).last() == (name@, param@));
            }
            let mut prop: Vec<(String, Json)> = Vec::new();
            put(&mut prop, "type", Json::text(param.param_type.as_str()));
            if byte_len(param.description.as_str()) > 0 {
                put(&mut prop, "description", Json::text(param.description.as_str()));
            }
            put(&mut properties, name, Json::Object(prop));
            if param.required {
                put_item(&mut required, Json::text(name));
            }
            i = i + 1;
        }
        proof {
            assert(all.take(i as int) =~= all);
        }
        schema_of(properties, required)
    }

    /// The action with the arguments put in, as instructions for the agent.
    pub fn execute(&self, args: &Json) -> (r: Result<ToolOutput, ZeptoError>)
        ensures
            outcome(r) == Ok::<OutputModel, ErrorModel>(executed(self@, *args)),
    {
        let string_args = read_args(args, false);
        Ok(instruct(self.def.action.as_str(), &string_args))
    }
}

/// What came of reading the file with the definitions.
pub enum FileRead {
    /// There is no file.
    Missing,
    /// It could not be read, for the given reason.
    Failed(String),
    /// It was read.
    Contents(String),
}

/// What to do to load the definitions.
pub enum LoadStep {
    /// Nothing: there are none.
    Empty,
    /// Read the text as a JSON list of definitions.
    Parse(String),
}

/// What a step is.
#[verifier::ext_equal]
pub enum LoadModel {
    Empty,
    Parse(Seq<char>),
}

impl View for LoadStep {
    type V = LoadModel;

    open spec fn view(&self) -> LoadModel {
        match *self {
            LoadStep::Empty => LoadModel::Empty,
            LoadStep::Parse(text) => LoadModel::Parse(text@),
        }
    }
}

/// What to do after the file was read, or why nothing can be done.
pub open spec fn load_step(read: FileRead) -> Result<LoadModel, ErrorModel> {
    match read {
        FileRead::Missing => Ok(LoadModel::Empty),
        FileRead::Failed(reason) => Err(
            ErrorModel::Tool("Failed to read composed tools file: "@ + reason@),
        ),
        FileRead::Contents(data) => if trimmed(data@).len() == 0 {
            Ok(LoadModel::Empty)
        } else {
            Ok(LoadModel::Parse(data@))
        },
    }
}

/// The error of contents that cannot be read as definitions.
pub open spec fn parse_error(reason: Seq<char>) -> ErrorModel {
    ErrorModel::Tool("Failed to parse composed tools file: "@ + reason)
}

/// What could not be done to save the definitions.
pub enum SaveFailure {
    Directory(String),
    Serialize(String),
    Write(String),
}

/// The error of definitions that could not be saved.
pub open spec fn save_error(failure: SaveFailure) -> ErrorModel {
    ErrorModel::Tool(
        match failure {
            SaveFailure::Directory(reason) => "Failed to create config dir: "@ + reason@,
            SaveFailure::Serialize(reason) => "Failed to serialize composed tools: "@ + reason@,
            SaveFailure::Write(reason) => "Failed to write composed tools: "@ + reason@,
        },
    )
}

/// The file in which the definitions are kept, as JSON.
pub struct ComposedToolStore;

/// The steps of the home directory: `.` where there is none.
pub open spec fn home_steps(home: Option<std::path::PathBuf>) -> Seq<Seq<char>> {
    match home {
        Some(home) => path_steps(home),
        None => seq!["."@],
    }
}

/// Whether a path is the usual place of the file: in a directory of its own
/// under the home directory. Under a home directory with a verbatim prefix only
/// the name of the file is fixed.
pub open spec fn usual_place(path: std::path::PathBuf, home: Option<std::path::PathBuf>) -> bool {
    &&& no_verbatim_prefix(home_steps(home)) ==> path_steps(path) == home_steps(home).push(
        ".zeptoclaw"@,
    ).push("composed_tools.json"@)
    &&& path_steps(path).len() > 0 && path_steps(path).last() == "composed_tools.json"@
}

impl ComposedToolStore {
    /// The usual place of the file under the given home directory.
    pub fn default_path_in(home: Option<std::path::PathBuf>) -> (r: std::path::PathBuf)
        ensures
            usual_place(r, home),
    {
        let home = match home {
            Some(home) => home,
            None => single_step("."),
        };
        proof {
            reveal_strlit(".");
            reveal_strlit("..");
            reveal_strlit(".zeptoclaw");
            reveal_strlit("composed_tools.json");
        }
        let dir = join_path(&home, ".zeptoclaw");
        join_path(&dir, "composed_tools.json")
    }

    /// The usual place of the file.
    pub fn default_path() -> (r: std::path::PathBuf)
        ensures
            exists|home: Option<std::path::PathBuf>| #[trigger] usual_place(r, home),
    {
        let home = home_dir();
        ComposedToolStore::default_path_in(home)
    }

    /// What to do to load the definitions. Where there is no file, or nothing but
    /// white space in it, there are none.
    pub fn load(read: FileRead) -> (r: Result<LoadStep, ZeptoError>)
        ensures
            outcome(r) == load_step(read),
    {
        match read {
            FileRead::Missing => Ok(LoadStep::Empty),
            FileRead::Failed(reason) => {
                let mut text = "Failed to read composed tools file: ".to_string();
                text.append(reason.as_str());
                Err(ZeptoError::Tool(text))
            },
            FileRead::Contents(data) => if trim(data.as_str()).unicode_len() == 0 {
                Ok(LoadStep::Empty)
            } else {
                Ok(LoadStep::Parse(data))
            },
        }
    }

    /// The definitions, if the contents of the file could be read as such.
    pub fn loaded(parsed: Result<Vec<ComposedToolDef>, String>) -> (r: Result<
        Vec<ComposedToolDef>,
        ZeptoError,
    >)
        ensures
            match parsed {
                Ok(defs) => r == Ok::<Vec<ComposedToolDef>, ZeptoError>(defs),
                Err(reason) => r matches Err(e) && e@ == parse_error(reason@),
            },
    {
        match parsed {
            Ok(defs) => Ok(defs),
            Err(reason) => {
                let mut text = "Failed to parse composed tools file: ".to_string();
                text.append(reason.as_str());
                Err(ZeptoError::Tool(text))
            },
        }
    }

    /// Whether the definitions were saved, or what went wrong.
    pub fn save(done: Result<(), SaveFailure>) -> (r: Result<(), ZeptoError>)
        ensures
            match done {
                Ok(_) => r is Ok,
                Err(failure) => r matches Err(e) && e@ == save_error(failure),
            },
    {
        let (what, reason) = match done {
            Ok(_) => return Ok(()),
            Err(SaveFailure::Directory(reason)) => ("Failed to create config dir: ", reason),
            Err(SaveFailure::Serialize(reason)) => (
                "Failed to serialize composed tools: ",
                reason,
            ),
            Err(SaveFailure::Write(reason)) => ("Failed to write composed tools: ", reason),
        };
        let mut text = what.to_string();
        text.append(reason.as_str());
        Err(ZeptoError::Tool(text))
    }
}

/// The schema of a tool has each of its parameters under its name, and no other;
/// it asks for those that are required, each once.
pub proof fn schema_lists_the_parameters(params: Seq<(Seq<char>, ParamModel)>)
    requires
        distinct_keys(params),
    ensures
        forall|name: Seq<char>| #[trigger]
            param_schemas(params).dom().contains(name) == has_key(params, name),
        forall|i: int|
            0 <= i < params.len() ==> param_schemas(params)[(#[trigger] params[i]).0]
                == param_schema(params[i].1),
        forall|name: Seq<char>| #[trigger]
            required_names(params).contains(JsonModel::Text(name)) == exists|i: int|
                0 <= i < params.len() && (#[trigger] params[i]).0 == name && params[i].1.required,
        forall|i: int| 0 <= i < required_names(params).len() ==> #[trigger] required_names(
            params,
        )[i] is Text,
        required_names(params).no_duplicates(),
    decreases params.len(),
{
    if params.len() > 0 {
        let front = params.drop_last();
        let last = params.last();
        let n = params.len() - 1;
        assert(distinct_keys(front)) by {
            assert forall|i: int, j: int| 0 <= i < j < front.len() implies (#[trigger] front[i]).0
                != (#[trigger] front[j]).0 by {
                assert(params[i].0 != params[j].0);
            }
        }
        schema_lists_the_parameters(front);
        assert forall|name: Seq<char>| #[trigger]
            param_schemas(params).dom().contains(name) == has_key(params, name) by {
            assert(param_schemas(front).dom().contains(name) == has_key(front, name));
            if has_key(front, name) {
                let i = choose|i: int| 0 <= i < front.len() && (#[trigger] front[i]).0 == name;
                assert(params[i].0 == name);
            }
            if has_key(params, name) && name != last.0 {
                let i = choose|i: int| 0 <= i < params.len() && (#[trigger] params[i]).0 == name;
                assert(front[i].0 == name);
            }
            if name == last.0 {
                assert(params[n].0 == name);
            }
        }
        assert forall|i: int| 0 <= i < params.len() implies param_schemas(params)[(
        #[trigger] params[i]).0] == param_schema(params[i].1) by {
            if i < n {
                assert(front[i] == params[i]);
                assert(params[i].0 != params[n].0);
            }
        }
        let names = required_names(front);
        assert(required_names(params).no_duplicates()) by {
            let all = required_names(params);
            if last.1.required {
                if names.contains(JsonModel::Text(last.0)) {
                    let i = choose|i: int|
                        0 <= i < front.len() && (#[trigger] front[i]).0 == last.0
                            && front[i].1.required;
                    assert(params[i].0 != params[n].0);
                }
                assert forall|i: int, j: int|
                    0 <= i < all.len() && 0 <= j < all.len() && i != j implies all[i] != all[j] by {
                    if i < names.len() && j < names.len() {
                        assert(all[i] == names[i] && all[j] == names[j]);
                    } else if i < names.len() {
                        assert(names.contains(names[i]));
                    } else {
                        assert(names.contains(names[j]));
                    }
                }
            }
        }
        assert forall|i: int| 0 <= i < required_names(params).len() implies
            #[trigger] required_names(params)[i] is Text by {
            if i < names.len() {
                assert(names[i] is Text);
            }
        }
        assert forall|name: Seq<char>| #[trigger]
            required_names(params).contains(JsonModel::Text(name)) == exists|i: int|
                0 <= i < params.len() && (#[trigger] params[i]).0 == name && params[i].1.required by {
            let text = JsonModel::Text(name);
            assert(names.contains(text) == exists|i: int|
                0 <= i < front.len() && (#[trigger] front[i]).0 == name && front[i].1.required);
            if names.contains(text) {
                let i = choose|i: int|
                    0 <= i < front.len() && (#[trigger] front[i]).0 == name && front[i].1.required;
                assert(params[i].0 == name && params[i].1.required);
                let k = choose|k: int| 0 <= k < names.len() && names[k] == text;
                assert(required_names(params)[k] == text);
            }
            if last.0 == name && last.1.required {
                assert(params[n].0 == name && params[n].1.required);
                assert(required_names(params)[names.len() as int] == text);
            }
            if required_names(params).contains(text) && !names.contains(text) {
                let k = choose|k: int|
                    0 <= k < required_names(params).len() && required_names(params)[k] == text;
                assert(k == names.len());
            }
            if exists|i: int|
                0 <= i < params.len() && (#[trigger] params[i]).0 == name
                    && params[i].1.required {
                let i = choose|i: int|
                    0 <= i < params.len() && (#[trigger] params[i]).0 == name
                        && params[i].1.required;
                if i < n {
                    assert(front[i].0 == name && front[i].1.required);
                }
            }
        }
    }
}

} // verus!
