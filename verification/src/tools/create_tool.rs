//! The tool that manages composed tools.
//!
//! A call goes in two steps. [`CreateToolTool::request`] reads the arguments,
//! and refuses what no list of definitions could make good. Then
//! [`CreateToolTool::answer`] takes the stored definitions and says what to
//! answer and, where they change, what to store in their place.

use vstd::prelude::*;
use vstd::string::*;
use crate::clock::{timestamp, utc_now};
use crate::error::{outcome, ErrorModel, ZeptoError};
use crate::json::{
    items_model, member, put, put_item, text_member, text_of, Json, JsonModel,
};
use crate::text::{
    byte_len, concat, decimal, decimal_text, join, joined, letter_or_number, same_text, texts,
    utf8_len,
};
use crate::text_map::TextMap;
use crate::tools::composed::{
    args_of, def_models, instruct, instructions, param_models, read_args,
    read_params, requested_params, usual_place, ComposedTool, ComposedToolDef, ComposedToolStore,
    DefModel, ParamDef, ParamModel,
};
use crate::tools::output::{llm_only, user_visible, OutputModel, ToolCategory, ToolOutput};
use crate::tools::schema::{object_schema, property, property_of, schema_of};
use crate::tools::template::arg_texts;

verus! {

/// A new tool, as a request describes it.
pub struct NewTool {
    pub name: String,
    pub description: String,
    pub action: String,
    pub parameters: TextMap<ParamDef>,
}

/// What a request for a new tool says.
#[verifier::ext_equal]
pub struct NewToolModel {
    pub name: Seq<char>,
    pub description: Seq<char>,
    pub action: Seq<char>,
    pub parameters: Seq<(Seq<char>, ParamModel)>,
}

impl View for NewTool {
    type V = NewToolModel;

    open spec fn view(&self) -> NewToolModel {
        NewToolModel {
            name: self.name@,
            description: self.description@,
            action: self.action@,
            parameters: param_models(self.parameters.pairs()),
        }
    }
}

/// A call of the tool, its arguments read.
pub enum ToolRequest {
    /// Define a new tool.
    Create(NewTool),
    /// List the tools.
    List,
    /// Remove a tool.
    Delete(String),
    /// Run a tool with the arguments.
    Run(String, TextMap<String>),
}

/// What a call asks for.
#[verifier::ext_equal]
pub enum RequestModel {
    Create(NewToolModel),
    List,
    Delete(Seq<char>),
    Run(Seq<char>, Seq<(Seq<char>, Seq<char>)>),
}

impl View for ToolRequest {
    type V = RequestModel;

    open spec fn view(&self) -> RequestModel {
        match *self {
            ToolRequest::Create(tool) => RequestModel::Create(tool@),
            ToolRequest::List => RequestModel::List,
            ToolRequest::Delete(name) => RequestModel::Delete(name@),
            ToolRequest::Run(name, args) => RequestModel::Run(name@, arg_texts(args.pairs())),
        }
    }
}

/// The characters of which the name of a tool is made.
pub open spec fn name_char(c: char) -> bool {
    letter_or_number(c) || c == '_' || c == '-'
}

/// Why a name cannot be that of a tool, if it cannot.
pub open spec fn name_fault(name: Seq<char>) -> Option<Seq<char>> {
    if exists|i: int| 0 <= i < name.len() && !#[trigger] name_char(name[i]) {
        Some("Tool name must be alphanumeric with underscores/hyphens only"@)
    } else if name.len() == 0 || utf8_len(name) > 64 {
        Some("Tool name must be 1-64 characters"@)
    } else {
        None
    }
}

/// The template in a request: `action_template`, or `action` where that is
/// absent.
pub open spec fn template_of(args: JsonModel) -> Option<Seq<char>> {
    match member(args, "action_template"@) {
        Some(value) => text_of(value),
        None => text_member(args, "action"@),
    }
}

/// The parameters in a request; none where they are no object.
pub open spec fn params_of(args: Json) -> Seq<(Seq<char>, ParamModel)> {
    match args.member_at("parameters"@) {
        Some(Json::Object(members)) => requested_params(members@),
        _ => Seq::empty(),
    }
}

/// The new tool that a request describes, or why it describes none.
pub open spec fn creation(args: Json) -> Result<NewToolModel, ErrorModel> {
    match text_member(args@, "name"@) {
        None => Err(ErrorModel::Tool("'name' is required"@)),
        Some(name) => match name_fault(name) {
            Some(fault) => Err(ErrorModel::Tool(fault)),
            None => match text_member(args@, "description"@) {
                None => Err(ErrorModel::Tool("'description' is required"@)),
                Some(description) => match template_of(args@) {
                    None => Err(
                        ErrorModel::Tool("'action_template' (or 'action') is required"@),
                    ),
                    Some(action) => Ok(
                        NewToolModel { name, description, action, parameters: params_of(args) },
                    ),
                },
            },
        },
    }
}

/// The action that a call selects: `list` where it names none.
pub open spec fn selected(args: JsonModel) -> Seq<char> {
    match text_member(args, "action"@) {
        Some(action) => action,
        None => "list"@,
    }
}

/// What a call asks for, or why it cannot be understood.
pub open spec fn request_of(args: Json) -> Result<RequestModel, ErrorModel> {
    let action = selected(args@);
    if action == "create"@ {
        match creation(args) {
            Ok(tool) => Ok(RequestModel::Create(tool)),
            Err(e) => Err(e),
        }
    } else if action == "list"@ {
        Ok(RequestModel::List)
    } else if action == "delete"@ {
        match text_member(args@, "name"@) {
            Some(name) => Ok(RequestModel::Delete(name)),
            None => Err(ErrorModel::Tool("'name' is required for delete"@)),
        }
    } else if action == "run"@ {
        match text_member(args@, "name"@) {
            Some(name) => Ok(RequestModel::Run(name, args_of(args, true))),
            None => Err(ErrorModel::Tool("'name' is required for run"@)),
        }
    } else {
        Err(
            ErrorModel::Tool(
                "Unknown action '"@ + action + "'. Use: create, list, delete, run"@,
            ),
        )
    }
}

/// Whether each character of `name` may stand in the name of a tool.
fn has_name_chars(name: &str) -> (r: bool)
    ensures
        r == (forall|i: int| 0 <= i < name@.len() ==> #[trigger] name_char(name@[i])),
{
    for c in it: name.chars()
        invariant
            it.seq() == name@,
            forall|i: int| 0 <= i < it.index() ==> #[trigger] name_char(name@[i]),
    {
        if !(c.is_alphanumeric() || c == '_' || c == '-') {
            proof {
                assert(!name_char(name@[it.index() as int]));
            }
            return false;
        }
    }
    true
}

/// Reads a request for a new tool.
fn read_creation(args: &Json) -> (r: Result<NewTool, ZeptoError>)
    ensures
        outcome(r) == creation(*args),
{
    let name = match args.get_str("name") {
        Some(name) => name,
        None => return Err(ZeptoError::Tool("'name' is required".to_string())),
    };
    if !has_name_chars(name) {
        return Err(
            ZeptoError::Tool(
                "Tool name must be alphanumeric with underscores/hyphens only".to_string(),
            ),
        );
    }
    if name.unicode_len() == 0 || byte_len(name) > 64 {
        return Err(ZeptoError::Tool("Tool name must be 1-64 characters".to_string()));
    }
    let description = match args.get_str("description") {
        Some(description) => description,
        None => return Err(ZeptoError::Tool("'description' is required".to_string())),
    };
    let template = match args.get("action_template") {
        Some(value) => value.as_str(),
        None => args.get_str("action"),
    };
    let action = match template {
        Some(action) => action,
        None => return Err(
            ZeptoError::Tool("'action_template' (or 'action') is required".to_string()),
        ),
    };
    let parameters = match args.get("parameters") {
        Some(Json::Object(members)) => read_params(members),
        _ => TextMap::new(),
    };
    proof {
        assert(param_models(Seq::<(Seq<char>, ParamDef)>::empty()) =~= Seq::empty());
    }
    Ok(
        NewTool {
            name: name.to_string(),
            description: description.to_string(),
            action: action.to_string(),
            parameters,
        },
    )
}

/// What a call does: its answer, and the definitions to store where they
/// change.
pub struct StoreChange {
    pub output: ToolOutput,
    pub store: Option<Vec<ComposedToolDef>>,
}

/// What a change says.
#[verifier::ext_equal]
pub struct ChangeModel {
    pub output: OutputModel,
    pub store: Option<Seq<DefModel>>,
}

impl View for StoreChange {
    type V = ChangeModel;

    open spec fn view(&self) -> ChangeModel {
        ChangeModel {
            output: self.output@,
            store: match self.store {
                Some(defs) => Some(def_models(defs@)),
                None => None,
            },
        }
    }
}

/// Whether one of the definitions has the name.
pub open spec fn named(defs: Seq<DefModel>, name: Seq<char>) -> bool {
    exists|i: int| 0 <= i < defs.len() && (#[trigger] defs[i]).name == name
}

/// The first of the definitions with the name.
pub open spec fn first_named(defs: Seq<DefModel>, name: Seq<char>) -> Option<DefModel>
    decreases defs.len(),
{
    if defs.len() == 0 {
        None
    } else if defs[0].name == name {
        Some(defs[0])
    } else {
        first_named(defs.skip(1), name)
    }
}

/// The definitions without those of the name.
pub open spec fn without(defs: Seq<DefModel>, name: Seq<char>) -> Seq<DefModel>
    decreases defs.len(),
{
    if defs.len() == 0 {
        Seq::empty()
    } else if defs.last().name == name {
        without(defs.drop_last(), name)
    } else {
        without(defs.drop_last(), name).push(defs.last())
    }
}

/// The definition of a new tool.
pub open spec fn new_def(tool: NewToolModel, created_at: Seq<char>) -> DefModel {
    DefModel {
        name: tool.name,
        description: tool.description,
        action: tool.action,
        parameters: tool.parameters,
        created_at,
    }
}

/// What creating a tool does at the time `created_at`.
pub open spec fn created(
    tool: NewToolModel,
    defs: Seq<DefModel>,
    created_at: Seq<char>,
) -> Result<ChangeModel, ErrorModel> {
    if named(defs, tool.name) {
        Err(
            ErrorModel::Tool(
                "A composed tool named '"@ + tool.name
                    + "' already exists. Delete it first or choose a different name."@,
            ),
        )
    } else {
        Ok(
            ChangeModel {
                output: user_visible(
                    "Created composed tool '"@ + tool.name
                        + "'. It will be available as a first-class tool in your next session. Use action='run' with name='"@
                        + tool.name + "' to try it now."@,
                ),
                store: Some(defs.push(new_def(tool, created_at))),
            },
        )
    }
}

/// The parameters of a tool in the list of tools.
pub open spec fn params_line(params: Seq<(Seq<char>, ParamModel)>) -> Seq<char> {
    if params.len() == 0 {
        "(no params)"@
    } else {
        joined(params.map_values(|p: (Seq<char>, ParamModel)| p.0), ", "@)
    }
}

/// The line of a tool in the list of tools.
pub open spec fn tool_line(def: DefModel) -> Seq<char> {
    "- "@ + def.name + " — "@ + def.description + " [params: "@ + params_line(def.parameters)
        + "]"@
}

/// The answer to a request for the list of tools.
pub open spec fn listed(defs: Seq<DefModel>) -> ChangeModel {
    ChangeModel {
        output: llm_only(
            if defs.len() == 0 {
                "No composed tools defined. Use action='create' to define one."@
            } else {
                "Composed tools ("@ + decimal(defs.len()) + "):\n"@ + joined(
                    defs.map_values(|d: DefModel| tool_line(d)),
                    "\n"@,
                )
            },
        ),
        store: None,
    }
}

/// The complaint that there is no tool of a name.
pub open spec fn unknown_tool(name: Seq<char>) -> ErrorModel {
    ErrorModel::Tool("No composed tool named '"@ + name + "'"@)
}

/// What deleting a tool does.
pub open spec fn deleted(name: Seq<char>, defs: Seq<DefModel>) -> Result<ChangeModel, ErrorModel> {
    if named(defs, name) {
        Ok(
            ChangeModel {
                output: user_visible("Deleted composed tool '"@ + name + "'."@),
                store: Some(without(defs, name)),
            },
        )
    } else {
        Err(unknown_tool(name))
    }
}

/// What running a tool does.
pub open spec fn ran(
    name: Seq<char>,
    args: Seq<(Seq<char>, Seq<char>)>,
    defs: Seq<DefModel>,
) -> Result<ChangeModel, ErrorModel> {
    match first_named(defs, name) {
        Some(def) => Ok(ChangeModel { output: instructions(def.action, args), store: None }),
        None => Err(unknown_tool(name)),
    }
}

/// What a request does to the stored definitions at the time `now`.
pub open spec fn answered(
    request: RequestModel,
    defs: Seq<DefModel>,
    now: Seq<char>,
) -> Result<ChangeModel, ErrorModel> {
    match request {
        RequestModel::Create(tool) => created(tool, defs, now),
        RequestModel::List => Ok(listed(defs)),
        RequestModel::Delete(name) => deleted(name, defs),
        RequestModel::Run(name, args) => ran(name, args, defs),
    }
}

/// Whether one of the definitions has the name.
fn is_named(defs: &Vec<ComposedToolDef>, name: &str) -> (r: bool)
    ensures
        r == named(def_models(defs@), name@),
{
    let mut i: usize = 0;
    while i < defs.len()
        invariant
            i <= defs.len(),
            forall|j: int| 0 <= j < i ==> (#[trigger] def_models(defs@)[j]).name != name@,
        decreases defs.len() - i,
    {
        if same_text(defs[i].name.as_str(), name) {
            proof {
                assert(def_models(defs@)[i as int].name == name@);
            }
            return true;
        }
        i = i + 1;
    }
    false
}

/// The names of the parameters of a tool, for the list of tools.
fn format_params(params: &TextMap<ParamDef>) -> (r: String)
    ensures
        r@ == params_line(param_models(params.pairs())),
{
    let ghost all = param_models(params.pairs());
    let n = params.len();
    if n == 0 {
        return "(no params)".to_string();
    }
    let mut names: Vec<String> = Vec::new();
    let mut i: usize = 0;
    while i < n
        invariant
            i <= n,
            n == params.pairs().len(),
            all == param_models(params.pairs()),
            names.len() == i,
            forall|j: int| 0 <= j < i ==> (#[trigger] names@[j])@ == all[j].0,
        decreases n - i,
    {
        names.push(params.key_at(i).to_string());
        i = i + 1;
    }
    proof {
        assert(texts(names@) =~= all.map_values(|p: (Seq<char>, ParamModel)| p.0));
    }
    join(&names, ", ")
}

/// The line of a tool in the list of tools.
fn format_tool(def: &ComposedToolDef) -> (r: String)
    ensures
        r@ == tool_line(def@),
{
    let params = format_params(&def.parameters);
    let mut line = "- ".to_string();
    line.append(def.name.as_str());
    line.append(" — ");
    line.append(def.description.as_str());
    line.append(" [params: ");
    line.append(params.as_str());
    line.append("]");
    line
}

/// The JSON Schema of the arguments of `create_tool`.
pub open spec fn arguments_schema() -> JsonModel {
    object_schema(
        Map::empty().insert(
            "action"@,
            JsonModel::Object(
                property("string"@, "Action to perform: create, list, delete, run"@).insert(
                    "enum"@,
                    JsonModel::Array(
                        seq![
                            JsonModel::Text("create"@),
                            JsonModel::Text("list"@),
                            JsonModel::Text("delete"@),
                            JsonModel::Text("run"@),
                        ],
                    ),
                ),
            ),
        ).insert(
            "name"@,
            JsonModel::Object(
                property(
                    "string"@,
                    "Tool name (for create/delete/run). Snake_case recommended."@,
                ),
            ),
        ).insert(
            "description"@,
            JsonModel::Object(
                property("string"@, "Tool description for the LLM (for create)."@),
            ),
        ).insert(
            "action_template"@,
            JsonModel::Object(
                property(
                    "string"@,
                    "Natural language action with {{param}} placeholders (for create). This is what the agent will execute when the tool is called."@,
                ),
            ),
        ).insert(
            "parameters"@,
            JsonModel::Object(
                property(
                    "object"@,
                    "Parameter definitions: {\"param_name\": \"type\"} or {\"param_name\": {\"param_type\": \"string\", \"description\": \"...\", \"required\": true}} (for create)."@,
                ),
            ),
        ),
        seq![JsonModel::Text("action"@)],
    )
}

/// Creates, lists, deletes and runs composed tools.
pub struct CreateToolTool {
    store_path: std::path::PathBuf,
}

impl Default for CreateToolTool {
    fn default() -> (r: CreateToolTool)
        ensures
            exists|home: Option<std::path::PathBuf>| #[trigger] usual_place(r.path(), home),
    {
        CreateToolTool::new()
    }
}

impl CreateToolTool {
    /// Where the definitions are stored.
    pub closed spec fn path(self) -> std::path::PathBuf {
        self.store_path
    }

    /// The tool for the definitions that are stored at the usual place.
    pub fn new() -> (r: CreateToolTool)
        ensures
            exists|home: Option<std::path::PathBuf>| #[trigger] usual_place(r.path(), home),
    {
        let path = ComposedToolStore::default_path();
        let ghost home = choose|home: Option<std::path::PathBuf>| #[trigger] usual_place(path, home);
        let tool = CreateToolTool { store_path: path };
        proof {
            assert(usual_place(tool.path(), home));
        }
        tool
    }

    /// The tool for the definitions that are stored at `path`.
    pub fn with_path(path: std::path::PathBuf) -> (r: CreateToolTool)
        ensures
            r.path() == path,
    {
        CreateToolTool { store_path: path }
    }

    /// Where the definitions are stored.
    pub fn store_path(&self) -> (r: &std::path::PathBuf)
        ensures
            *r == self.path(),
    {
        &self.store_path
    }

    /// The name of the tool.
    pub fn name(&self) -> (r: &str)
        ensures
            r@ == "create_tool"@,
    {
        "create_tool"
    }

    /// What the tool is for.
    pub fn description(&self) -> (r: &str)
        ensures
            r@
                == "Create, list, delete, or run composed tools defined in natural language. Composed tools let you define new capabilities by describing what they do — no code needed. Actions: create, list, delete, run."@,
    {
        "Create, list, delete, or run composed tools defined in natural language. Composed tools let you define new capabilities by describing what they do — no code needed. Actions: create, list, delete, run."
    }

    /// What the tool is for, in short.
    pub fn compact_description(&self) -> (r: &str)
        ensures
            r@ == "Manage composed tools (create/list/delete/run)"@,
    {
        "Manage composed tools (create/list/delete/run)"
    }

    /// The tool only changes what the agent remembers.
    pub fn category(&self) -> (r: ToolCategory)
        ensures
            r == ToolCategory::Memory,
    {
        ToolCategory::Memory
    }

    /// The JSON Schema of the arguments.
    pub fn parameters(&self) -> (r: Json)
        ensures
            r@ == arguments_schema(),
    {
        let mut actions: Vec<Json> = Vec::new();
        put_item(&mut actions, Json::text("create"));
        put_item(&mut actions, Json::text("list"));
        put_item(&mut actions, Json::text("delete"));
        put_item(&mut actions, Json::text("run"));
        let mut action = property_of("string", "Action to perform: create, list, delete, run");
        put(&mut action, "enum", Json::Array(actions));
        let mut properties: Vec<(String, Json)> = Vec::new();
        put(&mut properties, "action", Json::Object(action));
        put(
            &mut properties,
            "name",
            Json::Object(
                property_of(
                    "string",
                    "Tool name (for create/delete/run). Snake_case recommended.",
                ),
            ),
        );
        put(
            &mut properties,
            "description",
            Json::Object(property_of("string", "Tool description for the LLM (for create).")),
        );
        put(
            &mut properties,
            "action_template",
            Json::Object(
                property_of(
                    "string",
                    "Natural language action with {{param}} placeholders (for create). This is what the agent will execute when the tool is called.",
                ),
            ),
        );
        put(
            &mut properties,
            "parameters",
            Json::Object(
                property_of(
                    "object",
                    "Parameter definitions: {\"param_name\": \"type\"} or {\"param_name\": {\"param_type\": \"string\", \"description\": \"...\", \"required\": true}} (for create).",
                ),
            ),
        );
        let mut required: Vec<Json> = Vec::new();
        put_item(&mut required, Json::text("action"));
        proof {
            assert(items_model(actions@) =~= seq![
                JsonModel::Text("create"@),
                JsonModel::Text("list"@),
                JsonModel::Text("delete"@),
                JsonModel::Text("run"@),
            ]);
            assert(items_model(required@) =~= seq![JsonModel::Text("action"@)]);
        }
        schema_of(properties, required)
    }

    /// Reads the arguments of a call.
    pub fn request(&self, args: &Json) -> (r: Result<ToolRequest, ZeptoError>)
        ensures
            outcome(r) == request_of(*args),
    {
        let action = match args.get_str("action") {
            Some(action) => action,
            None => "list",
        };
        if same_text(action, "create") {
            match read_creation(args) {
                Ok(tool) => Ok(ToolRequest::Create(tool)),
                Err(e) => Err(e),
            }
        } else if same_text(action, "list") {
            Ok(ToolRequest::List)
        } else if same_text(action, "delete") {
            match args.get_str("name") {
                Some(name) => Ok(ToolRequest::Delete(name.to_string())),
                None => Err(ZeptoError::Tool("'name' is required for delete".to_string())),
            }
        } else if same_text(action, "run") {
            match args.get_str("name") {
                Some(name) => Ok(ToolRequest::Run(name.to_string(), read_args(args, true))),
                None => Err(ZeptoError::Tool("'name' is required for run".to_string())),
            }
        } else {
            Err(
                ZeptoError::Tool(
                    concat("Unknown action '", action, "'. Use: create, list, delete, run"),
                ),
            )
        }
    }

    /// Adds the definition of a new tool at the time `created_at`.
    pub fn handle_create_at(
        &self,
        tool: NewTool,
        defs: Vec<ComposedToolDef>,
        created_at: String,
    ) -> (r: Result<StoreChange, ZeptoError>)
        ensures
            outcome(r) == created(tool@, def_models(defs@), created_at@),
    {
        if is_named(&defs, tool.name.as_str()) {
            return Err(
                ZeptoError::Tool(
                    concat(
                        "A composed tool named '",
                        tool.name.as_str(),
                        "' already exists. Delete it first or choose a different name.",
                    ),
                ),
            );
        }
        let ghost before = def_models(defs@);
        let mut text = concat(
            "Created composed tool '",
            tool.name.as_str(),
            "'. It will be available as a first-class tool in your next session. Use action='run' with name='",
        );
        text.append(tool.name.as_str());
        text.append("' to try it now.");
        let def = ComposedToolDef {
            name: tool.name,
            description: tool.description,
            action: tool.action,
            parameters: tool.parameters,
            created_at,
        };
        let mut all = defs;
        all.push(def);
        proof {
            assert(def_models(all@) =~= before.push(new_def(tool@, created_at@)));
        }
        Ok(StoreChange { output: ToolOutput::user_visible(text), store: Some(all) })
    }

    /// Adds the definition of a new tool now.
    pub fn handle_create(&self, tool: NewTool, defs: Vec<ComposedToolDef>) -> (r: Result<
        StoreChange,
        ZeptoError,
    >)
        ensures
            exists|now: Seq<char>|
                timestamp(now) && outcome(r) == #[trigger] created(tool@, def_models(defs@), now),
    {
        let now = utc_now();
        self.handle_create_at(tool, defs, now.text)
    }

    /// Lists the tools.
    pub fn handle_list(&self, defs: &Vec<ComposedToolDef>) -> (r: Result<StoreChange, ZeptoError>)
        ensures
            outcome(r) == Ok::<ChangeModel, ErrorModel>(listed(def_models(defs@))),
    {
        if defs.len() == 0 {
            let none = "No composed tools defined. Use action='create' to define one.".to_string();
            return Ok(StoreChange { output: ToolOutput::llm_only(none), store: None });
        }
        let ghost all = def_models(defs@);
        let mut lines: Vec<String> = Vec::new();
        let mut i: usize = 0;
        while i < defs.len()
            invariant
                i <= defs.len(),
                all == def_models(defs@),
                lines.len() == i,
                forall|j: int| 0 <= j < i ==> (#[trigger] lines@[j])@ == tool_line(all[j]),
            decreases defs.len() - i,
        {
            lines.push(format_tool(&defs[i]));
            i = i + 1;
        }
        proof {
            assert(texts(lines@) =~= all.map_values(|d: DefModel| tool_line(d)));
        }
        let count = decimal_text(defs.len() as u64);
        let mut text = concat("Composed tools (", count.as_str(), "):\n");
        let rest = join(&lines, "\n");
        text.append(rest.as_str());
        Ok(StoreChange { output: ToolOutput::llm_only(text), store: None })
    }

    /// Removes the tools of a name.
    pub fn handle_delete(&self, name: &str, defs: Vec<ComposedToolDef>) -> (r: Result<
        StoreChange,
        ZeptoError,
    >)
        ensures
            outcome(r) == deleted(name@, def_models(defs@)),
    {
        if !is_named(&defs, name) {
            return Err(ZeptoError::Tool(concat("No composed tool named '", name, "'")));
        }
        let ghost all = def_models(defs@);
        let ghost stored = defs@;
        let mut kept: Vec<ComposedToolDef> = Vec::new();
        proof {
            assert(def_models(kept@) =~= without(all.take(0), name@));
        }
        for def in it: defs
            invariant
                it.seq() == stored,
                all == def_models(stored),
                def_models(kept@) == without(all.take(it.index() as int), name@),
        {
            proof {
                assert(all.take(it.index() + 1).drop_last() =~= all.take(it.index() as int));
                assert(all.take(it.index() + 1).last() == def@);
                assert(def_models(kept@.push(def)) =~= def_models(kept@).push(def@));
            }
            if !same_text(def.name.as_str(), name) {
                kept.push(def);
            }
        }
        proof {
            assert(all.take(all.len() as int) =~= all);
        }
        let text = concat("Deleted composed tool '", name, "'.");
        Ok(StoreChange { output: ToolOutput::user_visible(text), store: Some(kept) })
    }

    /// Runs the first tool of a name.
    pub fn handle_run(
        &self,
        name: &str,
        args: &TextMap<String>,
        defs: &Vec<ComposedToolDef>,
    ) -> (r: Result<StoreChange, ZeptoError>)
        ensures
            outcome(r) == ran(name@, arg_texts(args.pairs()), def_models(defs@)),
    {
        let ghost all = def_models(defs@);
        let mut i: usize = 0;
        proof {
            assert(all.skip(0) =~= all);
        }
        while i < defs.len()
            invariant
                i <= defs.len(),
                all == def_models(defs@),
                first_named(all, name@) == first_named(all.skip(i as int), name@),
            decreases defs.len() - i,
        {
            proof {
                assert(all.skip(i as int)[0] == defs@[i as int]@);
                assert(all.skip(i as int).skip(1) =~= all.skip(i + 1));
            }
            if same_text(defs[i].name.as_str(), name) {
                let output = instruct(defs[i].action.as_str(), args);
                return Ok(StoreChange { output, store: None });
            }
            i = i + 1;
        }
        Err(ZeptoError::Tool(concat("No composed tool named '", name, "'")))
    }

    /// Answers a request from the stored definitions.
    pub fn answer(&self, request: ToolRequest, defs: Vec<ComposedToolDef>) -> (r: Result<
        StoreChange,
        ZeptoError,
    >)
        ensures
            exists|now: Seq<char>|
                timestamp(now) && outcome(r) == #[trigger] answered(
                    request@,
                    def_models(defs@),
                    now,
                ),
    {
        let ghost all = def_models(defs@);
        let ghost any = seq!['+'];
        match request {
            ToolRequest::Create(tool) => {
                let ghost asked = tool@;
                let r = self.handle_create(tool, defs);
                proof {
                    let now = choose|now: Seq<char>|
                        timestamp(now) && outcome(r) == #[trigger] created(asked, all, now);
                    assert(answered(request@, all, now) == created(asked, all, now));
                }
                r
            },
            ToolRequest::List => {
                let r = self.handle_list(&defs);
                proof {
                    assert(outcome(r) == answered(request@, all, any));
                }
                r
            },
            ToolRequest::Delete(name) => {
                let r = self.handle_delete(name.as_str(), defs);
                proof {
                    assert(outcome(r) == answered(request@, all, any));
                }
                r
            },
            ToolRequest::Run(name, args) => {
                let r = self.handle_run(name.as_str(), &args, &defs);
                proof {
                    assert(outcome(r) == answered(request@, all, any));
                }
                r
            },
        }
    }
}

/// The definitions of the tools of a store.
pub open spec fn loaded_tools(loaded: Result<Vec<ComposedToolDef>, ZeptoError>) -> Seq<DefModel> {
    match loaded {
        Ok(defs) => def_models(defs@),
        Err(_) => Seq::empty(),
    }
}

/// The tools of a store: those of the definitions that could be loaded, in
/// their order, and none where loading failed.
pub fn load_composed_tools_from(loaded: Result<Vec<ComposedToolDef>, ZeptoError>) -> (r: Vec<
    ComposedTool,
>)
    ensures
        r@.map_values(|t: ComposedTool| t@) == loaded_tools(loaded),
{
    let mut tools: Vec<ComposedTool> = Vec::new();
    match loaded {
        Ok(defs) => {
            let ghost all = defs@;
            for def in it: defs
                invariant
                    it.seq() == all,
                    tools.len() == it.index(),
                    forall|j: int| 0 <= j < tools.len() ==> (#[trigger] tools@[j])@ == all[j]@,
            {
                tools.push(ComposedTool::new(def));
            }
            proof {
                assert(tools@.map_values(|t: ComposedTool| t@) =~= def_models(all));
            }
            tools
        },
        Err(_) => {
            proof {
                assert(tools@.map_values(|t: ComposedTool| t@) =~= Seq::empty());
            }
            tools
        },
    }
}

/// No two definitions have one name.
pub open spec fn distinct_names(defs: Seq<DefModel>) -> bool {
    forall|i: int, j: int|
        0 <= i < j < defs.len() ==> (#[trigger] defs[i]).name != (#[trigger] defs[j]).name
}

/// What is found under a name in a list with one more definition.
proof fn first_named_push(defs: Seq<DefModel>, def: DefModel, name: Seq<char>)
    ensures
        first_named(defs.push(def), name) == (if first_named(defs, name) is Some {
            first_named(defs, name)
        } else if def.name == name {
            Some(def)
        } else {
            None
        }),
    decreases defs.len(),
{
    if defs.len() == 0 {
        assert(defs.push(def).skip(1) =~= Seq::empty());
        assert(first_named(defs.push(def).skip(1), name) is None);
        assert(defs.push(def)[0] == def);
    } else {
        assert(defs.push(def)[0] == defs[0]);
        assert(defs.push(def).skip(1) =~= defs.skip(1).push(def));
        first_named_push(defs.skip(1), def, name);
    }
}

/// A definition is found under a name just where one has the name.
pub proof fn found_iff_named(defs: Seq<DefModel>, name: Seq<char>)
    ensures
        first_named(defs, name) is Some == named(defs, name),
        first_named(defs, name) matches Some(def) ==> def.name == name,
    decreases defs.len(),
{
    if defs.len() > 0 {
        let rest = defs.skip(1);
        found_iff_named(rest, name);
        if named(rest, name) {
            let i = choose|i: int| 0 <= i < rest.len() && (#[trigger] rest[i]).name == name;
            assert(defs[i + 1].name == name);
        }
        if named(defs, name) && defs[0].name != name {
            let i = choose|i: int| 0 <= i < defs.len() && (#[trigger] defs[i]).name == name;
            assert(rest[i - 1].name == name);
        }
    }
}

/// What deleting a name leaves: nothing of that name, each other name as it
/// was, and no name twice that stood once.
pub proof fn deletion_removes_one_name(defs: Seq<DefModel>, name: Seq<char>, other: Seq<char>)
    ensures
        !named(without(defs, name), name),
        other != name ==> first_named(without(defs, name), other) == first_named(defs, other),
        distinct_names(defs) ==> distinct_names(without(defs, name)),
        without(defs, name).len() <= defs.len(),
        forall|i: int|
            0 <= i < without(defs, name).len() ==> named(
                defs,
                (#[trigger] without(defs, name)[i]).name,
            ),
    decreases defs.len(),
{
    if defs.len() > 0 {
        let front = defs.drop_last();
        let kept = without(front, name);
        deletion_removes_one_name(front, name, other);
        assert(front.push(defs.last()) =~= defs);
        first_named_push(front, defs.last(), other);
        assert forall|n: Seq<char>| named(front, n) implies #[trigger] named(defs, n) by {
            let i = choose|i: int| 0 <= i < front.len() && (#[trigger] front[i]).name == n;
            assert(defs[i].name == n);
        }
        assert(named(defs, defs.last().name)) by {
            assert(defs[defs.len() - 1].name == defs.last().name);
        }
        if defs.last().name != name {
            let after = kept.push(defs.last());
            assert(without(defs, name) == after);
            first_named_push(kept, defs.last(), other);
            assert(!named(after, name)) by {
                if named(after, name) {
                    let i = choose|i: int|
                        0 <= i < after.len() && (#[trigger] after[i]).name == name;
                    assert(i < kept.len());
                    assert(kept[i].name == name);
                }
            }
            assert forall|i: int| 0 <= i < after.len() implies named(
                defs,
                (#[trigger] after[i]).name,
            ) by {
                if i < kept.len() {
                    assert(after[i] == kept[i]);
                    assert(named(front, kept[i].name));
                }
            }
            if distinct_names(defs) {
                assert(distinct_names(front)) by {
                    assert forall|i: int, j: int| 0 <= i < j < front.len() implies (
                    #[trigger] front[i]).name != (#[trigger] front[j]).name by {
                        assert(defs[i].name != defs[j].name);
                    }
                }
                assert forall|i: int, j: int| 0 <= i < j < after.len() implies (
                #[trigger] after[i]).name != (#[trigger] after[j]).name by {
                    assert(after[i] == kept[i]);
                    if j < kept.len() {
                        assert(after[j] == kept[j]);
                    } else {
                        assert(named(front, kept[i].name));
                        let k = choose|k: int|
                            0 <= k < front.len() && (#[trigger] front[k]).name == kept[i].name;
                        assert(defs[k].name != defs[defs.len() - 1].name);
                    }
                }
            }
        } else {
            assert forall|i: int| 0 <= i < kept.len() implies named(
                defs,
                (#[trigger] without(defs, name)[i]).name,
            ) by {
                assert(named(front, kept[i].name));
            }
            if distinct_names(defs) {
                assert(distinct_names(front)) by {
                    assert forall|i: int, j: int| 0 <= i < j < front.len() implies (
                    #[trigger] front[i]).name != (#[trigger] front[j]).name by {
                        assert(defs[i].name != defs[j].name);
                    }
                }
            }
        }
    }
}

/// A list without a name is what deleting that name leaves of it.
proof fn without_absent(defs: Seq<DefModel>, name: Seq<char>)
    requires
        !named(defs, name),
    ensures
        without(defs, name) == defs,
    decreases defs.len(),
{
    if defs.len() > 0 {
        let front = defs.drop_last();
        assert(defs[defs.len() - 1].name != name);
        assert(!named(front, name)) by {
            if named(front, name) {
                let i = choose|i: int| 0 <= i < front.len() && (#[trigger] front[i]).name == name;
                assert(defs[i].name == name);
            }
        }
        without_absent(front, name);
        assert(front.push(defs.last()) =~= defs);
    }
}

/// A created tool is found under its name, each other name as before, and no
/// name stands twice that stood once.
pub proof fn creation_adds_one_name(
    tool: NewToolModel,
    defs: Seq<DefModel>,
    now: Seq<char>,
    other: Seq<char>,
)
    requires
        !named(defs, tool.name),
    ensures
        created(tool, defs, now) matches Ok(change) && change.store matches Some(after)
            && first_named(after, tool.name) == Some(new_def(tool, now)) && (other != tool.name
            ==> first_named(after, other) == first_named(defs, other)) && (distinct_names(defs)
            ==> distinct_names(after)),
{
    let def = new_def(tool, now);
    let after = defs.push(def);
    found_iff_named(defs, tool.name);
    first_named_push(defs, def, tool.name);
    first_named_push(defs, def, other);
    if distinct_names(defs) {
        assert forall|i: int, j: int| 0 <= i < j < after.len() implies (#[trigger] after[i]).name
            != (#[trigger] after[j]).name by {
            assert(after[i] == defs[i]);
            if j < defs.len() {
                assert(after[j] == defs[j]);
            }
        }
    }
}

/// Deleting a tool that was just created gives the definitions as they were
/// before.
pub proof fn deletion_undoes_creation(tool: NewToolModel, defs: Seq<DefModel>, now: Seq<char>)
    requires
        !named(defs, tool.name),
    ensures
        created(tool, defs, now) matches Ok(change) && change.store matches Some(after) && deleted(
            tool.name,
            after,
        ) matches Ok(undone) && undone.store == Some(defs),
{
    let after = defs.push(new_def(tool, now));
    assert(after[defs.len() as int].name == tool.name);
    assert(after.drop_last() =~= defs);
    without_absent(defs, tool.name);
}

/// A tool that was created cannot be created again.
pub proof fn creation_is_refused_twice(
    tool: NewToolModel,
    again: NewToolModel,
    defs: Seq<DefModel>,
    now: Seq<char>,
    later: Seq<char>,
)
    requires
        !named(defs, tool.name),
        again.name == tool.name,
    ensures
        created(tool, defs, now) matches Ok(change) && change.store matches Some(after) && created(
            again,
            after,
            later,
        ) is Err,
{
    let after = defs.push(new_def(tool, now));
    assert(after[defs.len() as int].name == tool.name);
}

/// A tool that was deleted can neither be run nor deleted again.
pub proof fn deleted_tool_is_gone(
    name: Seq<char>,
    args: Seq<(Seq<char>, Seq<char>)>,
    defs: Seq<DefModel>,
)
    requires
        named(defs, name),
    ensures
        deleted(name, defs) matches Ok(change) && change.store matches Some(after) && deleted(
            name,
            after,
        ) == Err::<ChangeModel, ErrorModel>(unknown_tool(name)) && ran(name, args, after) == Err::<
            ChangeModel,
            ErrorModel,
        >(unknown_tool(name)),
{
    deletion_removes_one_name(defs, name, name);
    found_iff_named(without(defs, name), name);
}

/// A tool that was just created runs with its action.
pub proof fn created_tool_runs(
    tool: NewToolModel,
    args: Seq<(Seq<char>, Seq<char>)>,
    defs: Seq<DefModel>,
    now: Seq<char>,
)
    requires
        !named(defs, tool.name),
    ensures
        created(tool, defs, now) matches Ok(change) && change.store matches Some(after) && ran(
            tool.name,
            args,
            after,
        ) matches Ok(run) && run.output == instructions(tool.action, args),
{
    creation_adds_one_name(tool, defs, now, tool.name);
}

} // verus!
