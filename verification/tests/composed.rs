use std::path::PathBuf;
use zeptoclaw::error::ZeptoError;
use zeptoclaw::json::{Json, JsonNumber};
use zeptoclaw::text_map::TextMap;
use zeptoclaw::tools::composed::{
    ComposedTool, ComposedToolDef, ComposedToolStore, FileRead, LoadStep, ParamDef, SaveFailure,
};
use zeptoclaw::tools::create_tool::{load_composed_tools_from, CreateToolTool, ToolRequest};
use zeptoclaw::tools::output::{ToolCategory, ToolOutput};
use zeptoclaw::tools::template::interpolate_action;

fn json(text: &str) -> Json {
    Json::parse(text).unwrap()
}

fn args(pairs: &[(&str, &str)]) -> TextMap<String> {
    let mut map = TextMap::new();
    for (key, value) in pairs {
        map.insert(key.to_string(), value.to_string());
    }
    map
}

fn param(param_type: &str, description: &str, required: bool) -> ParamDef {
    ParamDef {
        param_type: param_type.to_string(),
        description: description.to_string(),
        required,
    }
}

fn params(list: Vec<(&str, ParamDef)>) -> TextMap<ParamDef> {
    let mut map = TextMap::new();
    for (name, param) in list {
        map.insert(name.to_string(), param);
    }
    map
}

fn def(
    name: &str,
    description: &str,
    action: &str,
    parameters: TextMap<ParamDef>,
) -> ComposedToolDef {
    ComposedToolDef {
        name: name.to_string(),
        description: description.to_string(),
        action: action.to_string(),
        parameters,
        created_at: String::new(),
    }
}

/// The tool with the definitions that it has stored.
struct Store {
    tool: CreateToolTool,
    defs: Vec<ComposedToolDef>,
}

impl Store {
    fn new() -> Store {
        Store {
            tool: CreateToolTool::with_path(PathBuf::from("composed_tools.json")),
            defs: Vec::new(),
        }
    }

    fn copy_defs(&self) -> Vec<ComposedToolDef> {
        self.defs
            .iter()
            .map(|d| {
                let mut parameters = TextMap::new();
                for i in 0..d.parameters.len() {
                    let p = d.parameters.value_at(i);
                    parameters.insert(
                        d.parameters.key_at(i).to_string(),
                        param(&p.param_type, &p.description, p.required),
                    );
                }
                ComposedToolDef {
                    name: d.name.clone(),
                    description: d.description.clone(),
                    action: d.action.clone(),
                    parameters,
                    created_at: d.created_at.clone(),
                }
            })
            .collect()
    }

    fn execute(&mut self, args: &str) -> Result<ToolOutput, ZeptoError> {
        let request = self.tool.request(&json(args))?;
        let change = self.tool.answer(request, self.copy_defs())?;
        if let Some(defs) = change.store {
            self.defs = defs;
        }
        Ok(change.output)
    }
}

// === ParamDef ===

#[test]
fn test_param_def_defaults() {
    let p = ParamDef::from_json(&json("{}")).unwrap();
    assert_eq!(p.param_type, "string");
    assert!(p.required);
    assert!(p.description.is_empty());
}

#[test]
fn test_param_def_full() {
    let p = ParamDef::from_json(&json(
        r#"{"param_type":"number","description":"Count","required":false}"#,
    ))
    .unwrap();
    assert_eq!(p.param_type, "number");
    assert_eq!(p.description, "Count");
    assert!(!p.required);
}

#[test]
fn param_def_from_an_array() {
    let p = ParamDef::from_json(&json(r#"["number", "Count", false]"#)).unwrap();
    assert_eq!(p.param_type, "number");
    assert_eq!(p.description, "Count");
    assert!(!p.required);
    let p = ParamDef::from_json(&json(r#"["number"]"#)).unwrap();
    assert_eq!(p.param_type, "number");
    assert!(p.required);
    assert!(ParamDef::from_json(&json(r#"["a", "b", true, 4]"#)).is_none());
}

#[test]
fn param_def_refuses_other_values() {
    assert!(ParamDef::from_json(&json("7")).is_none());
    assert!(ParamDef::from_json(&json("null")).is_none());
    assert!(ParamDef::from_json(&json(r#"{"param_type": 1}"#)).is_none());
    assert!(ParamDef::from_json(&json(r#"{"required": "yes"}"#)).is_none());
}

// === Store ===

#[test]
fn test_composed_tool_def_roundtrip() {
    let def = ComposedToolDef {
        name: "test_tool".to_string(),
        description: "A test".to_string(),
        action: "Do {{thing}}".to_string(),
        parameters: params(vec![("thing", param("string", "The thing", true))]),
        created_at: "2026-01-01T00:00:00Z".to_string(),
    };
    let text = def.to_json().compact();
    let back = ComposedToolDef::from_json(&json(&text)).unwrap();
    assert_eq!(back.name, "test_tool");
    assert_eq!(back.parameters.len(), 1);
    assert_eq!(back.description, "A test");
    assert_eq!(back.action, "Do {{thing}}");
    assert_eq!(back.created_at, "2026-01-01T00:00:00Z");
    let thing = back.parameters.get("thing").unwrap();
    assert_eq!(thing.param_type, "string");
    assert_eq!(thing.description, "The thing");
    assert!(thing.required);
}

#[test]
fn test_store_load_missing_file() {
    let defs = match ComposedToolStore::load(FileRead::Missing) {
        Ok(LoadStep::Empty) => Vec::<ComposedToolDef>::new(),
        _ => panic!("expected no definitions"),
    };
    assert!(defs.is_empty());
}

#[test]
fn test_store_save_and_load() {
    let defs = vec![ComposedToolDef {
        name: "greet".to_string(),
        description: "Greet someone".to_string(),
        action: "Say hello to {{name}}".to_string(),
        parameters: params(vec![("name", param("string", "Person name", true))]),
        created_at: "2026-01-01T00:00:00Z".to_string(),
    }];
    let data = ComposedToolStore::to_json(&defs).compact();
    let text = match ComposedToolStore::load(FileRead::Contents(data)) {
        Ok(LoadStep::Parse(text)) => text,
        _ => panic!("expected a text to parse"),
    };
    let parsed = ComposedToolStore::from_json(&json(&text)).ok_or("no list".to_string());
    let loaded = ComposedToolStore::loaded(parsed).unwrap_or_default();
    assert_eq!(loaded.len(), 1);
    assert_eq!(loaded[0].name, "greet");
}

#[test]
fn test_store_empty_file() {
    assert!(matches!(
        ComposedToolStore::load(FileRead::Contents("".to_string())),
        Ok(LoadStep::Empty)
    ));
}

#[test]
fn form_of_a_definition() {
    let def = def("n", "d", "a", params(vec![("p", param("number", "x", false))]));
    assert_eq!(
        def.to_json().compact(),
        [
            r#"{"action":"a","created_at":"","description":"d","name":"n","#,
            r#""parameters":{"p":{"description":"x","param_type":"number","required":false}}}"#,
        ]
        .concat()
    );
}

#[test]
fn definitions_with_fields_left_out() {
    let def = ComposedToolDef::from_json(&json(
        r#"{"name": "n", "description": "d", "action": "a", "other": 1}"#,
    ))
    .unwrap();
    assert_eq!(def.parameters.len(), 0);
    assert_eq!(def.created_at, "");
    let def = ComposedToolDef::from_json(&json(r#"["n", "d", "a", {"p": {}}]"#)).unwrap();
    assert_eq!(def.name, "n");
    assert_eq!(def.parameters.get("p").unwrap().param_type, "string");
    for text in [
        "1",
        r#"{"name": "n", "description": "d"}"#,
        r#"{"name": "n", "description": "d", "action": 1}"#,
        r#"{"name": "n", "description": "d", "action": "a", "parameters": []}"#,
        r#"{"name": "n", "description": "d", "action": "a", "parameters": {"p": "string"}}"#,
        r#"{"name": "n", "description": "d", "action": "a", "created_at": null}"#,
        r#"["n", "d"]"#,
        r#"["n", "d", "a", {}, "", 6]"#,
    ] {
        assert!(ComposedToolDef::from_json(&json(text)).is_none());
    }
    assert!(ComposedToolStore::from_json(&json("{}")).is_none());
    assert!(ComposedToolStore::from_json(&json("[1]")).is_none());
}

#[test]
fn stores_without_definitions() {
    assert!(matches!(
        ComposedToolStore::load(FileRead::Missing),
        Ok(LoadStep::Empty)
    ));
    for data in ["", " \n\t \u{3000}"] {
        let read = FileRead::Contents(data.to_string());
        assert!(matches!(ComposedToolStore::load(read), Ok(LoadStep::Empty)));
    }
}

#[test]
fn stores_with_definitions() {
    match ComposedToolStore::load(FileRead::Contents(" []\n".to_string())) {
        Ok(LoadStep::Parse(text)) => assert_eq!(text, " []\n"),
        _ => panic!("expected a text to parse"),
    }
    match ComposedToolStore::loaded(Ok(vec![def("a", "", "", TextMap::new())])) {
        Ok(defs) => assert_eq!(defs[0].name, "a"),
        Err(e) => panic!("{}", e.message()),
    }
}

#[test]
fn failures_of_the_store() {
    match ComposedToolStore::load(FileRead::Failed("denied".to_string())) {
        Err(ZeptoError::Tool(text)) => {
            assert_eq!(text, "Failed to read composed tools file: denied")
        }
        _ => panic!("expected an error"),
    }
    match ComposedToolStore::loaded(Err("eof".to_string())) {
        Err(ZeptoError::Tool(text)) => {
            assert_eq!(text, "Failed to parse composed tools file: eof")
        }
        _ => panic!("expected an error"),
    }
    assert!(ComposedToolStore::save(Ok(())).is_ok());
    let failed = |failure| {
        ComposedToolStore::save(Err(failure))
            .unwrap_err()
            .message()
            .to_string()
    };
    assert_eq!(
        failed(SaveFailure::Directory("a".to_string())),
        "Failed to create config dir: a"
    );
    assert_eq!(
        failed(SaveFailure::Serialize("b".to_string())),
        "Failed to serialize composed tools: b"
    );
    assert_eq!(
        failed(SaveFailure::Write("c".to_string())),
        "Failed to write composed tools: c"
    );
}

// === Interpolation ===

#[test]
fn test_interpolate_basic() {
    let result = interpolate_action(
        "Fetch {{url}} and summarize",
        &args(&[("url", "https://example.com")]),
    );
    assert_eq!(result, "Fetch https://example.com and summarize");
}

#[test]
fn test_interpolate_multiple() {
    let result = interpolate_action(
        "Tell {{name}} about {{topic}}",
        &args(&[("name", "Alice"), ("topic", "Rust")]),
    );
    assert_eq!(result, "Tell Alice about Rust");
}

#[test]
fn test_interpolate_missing_param() {
    let result = interpolate_action("Do {{thing}}", &args(&[]));
    assert_eq!(result, "Do {{thing}}");
}

#[test]
fn test_interpolate_no_placeholders() {
    let result = interpolate_action("Just do it", &args(&[("unused", "val")]));
    assert_eq!(result, "Just do it");
}

#[test]
fn interpolation_does_not_depend_on_the_order() {
    let there = args(&[("a", "1"), ("b", "2"), ("c", "3")]);
    let back = args(&[("c", "3"), ("b", "2"), ("a", "1")]);
    let template = "{{a}}-{{b}}{{b}}-{{c}} {{d}}";
    assert_eq!(interpolate_action(template, &there), "1-22-3 {{d}}");
    assert_eq!(interpolate_action(template, &back), "1-22-3 {{d}}");
}

#[test]
fn inserted_values_are_not_expanded() {
    for pairs in [[("a", "{{b}}"), ("b", "X")], [("b", "X"), ("a", "{{b}}")]] {
        assert_eq!(interpolate_action("{{a}}", &args(&pairs)), "{{b}}");
        assert_eq!(interpolate_action("{{a}} {{b}}", &args(&pairs)), "{{b}} X");
    }
    // Nor do a value and the text round it make a placeholder.
    assert_eq!(
        interpolate_action("{{{a}}b}}", &args(&[("a", "{"), ("b", "X")])),
        "{{{a}}b}}".replace("{{a}}", "{")
    );
}

#[test]
fn shortest_key_counts() {
    for pairs in [[("a", "1"), ("a}}b", "2")], [("a}}b", "2"), ("a", "1")]] {
        assert_eq!(interpolate_action("{{a}}b}}", &args(&pairs)), "1b}}");
    }
}

#[test]
fn interpolation_replaces_like_the_standard_library() {
    for (template, key, value) in [
        ("{{{a}}}", "a", "x"),
        ("{{a}}{{a}}", "a", ""),
        ("{{a}} {{é}} {{a", "é", "ü{{a}}"),
        ("{{}}", "", "none"),
    ] {
        let expected = template.replace(&format!("{{{{{}}}}}", key), value);
        assert_eq!(interpolate_action(template, &args(&[(key, value)])), expected);
    }
}

// === ComposedTool ===

#[test]
fn test_composed_tool_name() {
    let tool = ComposedTool::new(def("my_tool", "desc", "action", TextMap::new()));
    assert_eq!(tool.name(), "my_tool");
    assert_eq!(tool.description(), "desc");
    assert_eq!(tool.compact_description(), "desc");
}

#[test]
fn test_composed_tool_category() {
    let tool = ComposedTool::new(def("t", "d", "a", TextMap::new()));
    assert_eq!(tool.category(), ToolCategory::Memory);
}

#[test]
fn test_composed_tool_parameters_empty() {
    let tool = ComposedTool::new(def("t", "d", "a", TextMap::new()));
    let params = tool.parameters();
    assert_eq!(params.get_str("type"), Some("object"));
    assert!(params.get("properties").unwrap().as_object().unwrap().is_empty());
}

#[test]
fn test_composed_tool_parameters_with_defs() {
    let tool = ComposedTool::new(def(
        "t",
        "d",
        "a",
        params(vec![("query", param("string", "Search query", true))]),
    ));
    let params = tool.parameters();
    let query = params.get("properties").unwrap().get("query").unwrap();
    assert_eq!(query.get_str("type"), Some("string"));
    assert_eq!(query.get_str("description"), Some("Search query"));
    let req = params.get("required").unwrap().as_array().unwrap();
    assert!(req.iter().any(|v| v.as_str() == Some("query")));
}

#[test]
fn parameters_without_description_or_need() {
    let tool = ComposedTool::new(def(
        "t",
        "d",
        "a",
        params(vec![
            ("b", param("number", "", false)),
            ("a", param("string", "A", true)),
        ]),
    ));
    assert_eq!(
        tool.parameters().compact(),
        concat_lines(&[
            r#"{"properties":{"a":{"description":"A","type":"string"},"b":{"type":"number"}},"#,
            r#""required":["a"],"type":"object"}"#,
        ])
    );
}

fn concat_lines(lines: &[&str]) -> String {
    lines.concat()
}

#[test]
fn test_composed_tool_execute() {
    let tool = ComposedTool::new(def(
        "greet",
        "Greet someone",
        "Say hello to {{name}} in {{language}}",
        params(vec![
            ("name", param("string", "", true)),
            ("language", param("string", "", true)),
        ]),
    ));
    let result = tool
        .execute(&json(r#"{"name": "Alice", "language": "French"}"#))
        .unwrap();
    assert!(result.for_llm.contains("Say hello to Alice in French"));
    assert!(result.for_llm.contains("[Composed tool instructions]"));
    assert!(result.for_user.is_none());
}

#[test]
fn test_composed_tool_execute_no_params() {
    let tool = ComposedTool::new(def(
        "daily",
        "Daily brief",
        "Generate a daily briefing",
        TextMap::new(),
    ));
    let result = tool.execute(&json("{}")).unwrap();
    assert!(result.for_llm.contains("Generate a daily briefing"));
}

#[test]
fn values_that_are_no_text_are_written_as_json() {
    let tool = ComposedTool::new(def("t", "d", "{{n}} {{b}} {{o}} {{x}} {{l}}", TextMap::new()));
    let result = tool
        .execute(&json(
            r#"{"n": 42, "b": true, "o": null, "x": {"k": [1, "two", -3]}, "l": 0.5}"#,
        ))
        .unwrap();
    assert_eq!(
        result.for_llm,
        r#"[Composed tool instructions] 42 true null {"k":[1,"two",-3]} 0.5"#
    );
}

#[test]
fn call_without_an_object_has_no_arguments() {
    let tool = ComposedTool::new(def("t", "d", "{{n}}", TextMap::new()));
    let result = tool.execute(&Json::Array(Vec::new())).unwrap();
    assert_eq!(result.for_llm, "[Composed tool instructions] {{n}}");
}

// === CreateToolTool ===

#[test]
fn test_create_tool_tool_name() {
    let tool = CreateToolTool::new();
    assert_eq!(tool.name(), "create_tool");
    assert_eq!(tool.category(), ToolCategory::Memory);
    assert_eq!(
        tool.compact_description(),
        "Manage composed tools (create/list/delete/run)"
    );
    assert_eq!(
        tool.description(),
        "Create, list, delete, or run composed tools defined in natural language. \
         Composed tools let you define new capabilities by describing what they do — \
         no code needed. Actions: create, list, delete, run."
    );
}

#[test]
fn places_of_the_store() {
    let usual: PathBuf = [".zeptoclaw", "composed_tools.json"].iter().collect();
    assert!(ComposedToolStore::default_path().ends_with(&usual));
    assert_eq!(CreateToolTool::new().store_path(), &ComposedToolStore::default_path());
    assert_eq!(CreateToolTool::default().store_path(), &ComposedToolStore::default_path());
    let home = PathBuf::from("home");
    assert_eq!(ComposedToolStore::default_path_in(Some(home.clone())), home.join(&usual));
    assert_eq!(
        ComposedToolStore::default_path_in(None),
        PathBuf::from(".").join(&usual)
    );
    let tool = CreateToolTool::with_path(home.clone());
    assert_eq!(tool.store_path(), &home);
}

#[test]
fn test_create_action() {
    let mut store = Store::new();
    let result = store
        .execute(
            r#"{
                "action": "create",
                "name": "test_tool",
                "description": "A test tool",
                "action_template": "Do the thing with {{item}}",
                "parameters": {"item": "string"}
            }"#,
        )
        .unwrap();
    assert!(result.for_llm.contains("Created composed tool"));
    assert!(result.for_llm.contains("test_tool"));
    assert_eq!(store.defs.len(), 1);
    assert_eq!(store.defs[0].name, "test_tool");
    assert_eq!(store.defs[0].action, "Do the thing with {{item}}");
}

#[test]
fn created_tool_is_stamped_and_announced() {
    let mut store = Store::new();
    let result = store
        .execute(r#"{"action": "create", "name": "t", "description": "d", "action_template": "a"}"#)
        .unwrap();
    assert_eq!(
        result.for_user.as_deref(),
        Some(
            "Created composed tool 't'. It will be available as a first-class tool in your next \
             session. Use action='run' with name='t' to try it now."
        )
    );
    // A time such as 2026-01-01T00:00:00.123456789+00:00, which can be read back.
    assert!(chrono::DateTime::parse_from_rfc3339(&store.defs[0].created_at).is_ok());
    assert!(store.defs[0].created_at.contains('T'));
    assert!(store.defs[0].created_at.ends_with("+00:00"));
}

#[test]
fn creation_at_a_given_time() {
    let tool = CreateToolTool::with_path(PathBuf::from("composed_tools.json"));
    let args = json(
        r#"{"action": "create", "name": "t", "description": "d", "action_template": "a {{x}}",
            "parameters": {"x": "number", "y": {"required": false}, "z": 5}}"#,
    );
    let new_tool = match tool.request(&args) {
        Ok(ToolRequest::Create(new_tool)) => new_tool,
        _ => panic!("expected a request for a new tool"),
    };
    let change = match tool.handle_create_at(new_tool, Vec::new(), "now".to_string()) {
        Ok(change) => change,
        Err(e) => panic!("{}", e.message()),
    };
    let defs = change.store.unwrap();
    assert_eq!(defs.len(), 1);
    assert_eq!(defs[0].name, "t");
    assert_eq!(defs[0].description, "d");
    assert_eq!(defs[0].action, "a {{x}}");
    assert_eq!(defs[0].created_at, "now");
    let x = defs[0].parameters.get("x").unwrap();
    assert_eq!((x.param_type.as_str(), x.required), ("number", true));
    let y = defs[0].parameters.get("y").unwrap();
    assert_eq!((y.param_type.as_str(), y.required), ("string", false));
    let z = defs[0].parameters.get("z").unwrap();
    assert_eq!((z.param_type.as_str(), z.required), ("string", true));
}

#[test]
fn test_create_duplicate_rejected() {
    let mut store = Store::new();
    store
        .execute(
            r#"{"action": "create", "name": "dup_tool", "description": "d", "action_template": "a"}"#,
        )
        .unwrap();
    let result = store.execute(
        r#"{"action": "create", "name": "dup_tool", "description": "d2", "action_template": "a2"}"#,
    );
    assert!(result.is_err());
    let e = result.unwrap_err();
    assert!(e.message().contains("already exists"));
    assert_eq!(
        e.message(),
        "A composed tool named 'dup_tool' already exists. Delete it first or choose a different name."
    );
}

#[test]
fn test_create_invalid_name() {
    let mut store = Store::new();
    let result = store.execute(
        r#"{"action": "create", "name": "bad name!", "description": "d", "action_template": "a"}"#,
    );
    assert!(result.is_err());
    assert!(result.unwrap_err().message().contains("alphanumeric"));
    assert!(store.defs.is_empty());
}

#[test]
fn names_may_be_in_any_script() {
    let mut store = Store::new();
    store
        .execute(
            r#"{"action": "create", "name": "größe_2-б", "description": "d", "action_template": "a"}"#,
        )
        .unwrap();
    assert_eq!(store.defs[0].name, "größe_2-б");
}

#[test]
fn names_have_one_to_64_bytes() {
    let mut store = Store::new();
    let create = |name: &str| {
        format!(
            r#"{{"action": "create", "name": "{}", "description": "d", "action_template": "a"}}"#,
            name
        )
    };
    assert!(store.execute(&create(&"n".repeat(64))).is_ok());
    for name in ["", &"n".repeat(65), &"ü".repeat(33)] {
        let e = store.execute(&create(name)).unwrap_err();
        assert_eq!(e.message(), "Tool name must be 1-64 characters");
    }
}

#[test]
fn creation_needs_its_parts() {
    let mut store = Store::new();
    let mut fails = |args: &str, message: &str| {
        assert_eq!(store.execute(args).unwrap_err().message(), message);
    };
    fails(r#"{"action": "create"}"#, "'name' is required");
    fails(r#"{"action": "create", "name": 3}"#, "'name' is required");
    fails(
        r#"{"action": "create", "name": "a b", "description": "d"}"#,
        "Tool name must be alphanumeric with underscores/hyphens only",
    );
    fails(r#"{"action": "create", "name": "a"}"#, "'description' is required");
    fails(
        r#"{"action": "create", "name": "a", "description": "d", "action_template": 1}"#,
        "'action_template' (or 'action') is required",
    );
}

#[test]
fn action_stands_in_for_the_template() {
    let mut store = Store::new();
    store
        .execute(r#"{"action": "create", "name": "a", "description": "d"}"#)
        .unwrap();
    assert_eq!(store.defs[0].action, "create");
}

#[test]
fn test_list_empty() {
    let mut store = Store::new();
    let result = store.execute(r#"{"action": "list"}"#).unwrap();
    assert!(result.for_llm.contains("No composed tools"));
}

#[test]
fn list_is_the_default_action() {
    let mut store = Store::new();
    let result = store.execute("{}").unwrap();
    assert_eq!(
        result.for_llm,
        "No composed tools defined. Use action='create' to define one."
    );
}

#[test]
fn test_list_with_tools() {
    let mut store = Store::new();
    store
        .execute(
            r#"{"action": "create", "name": "tool_a", "description": "Tool A", "action_template": "Do A"}"#,
        )
        .unwrap();
    let result = store.execute(r#"{"action": "list"}"#).unwrap();
    assert!(result.for_llm.contains("tool_a"));
    assert!(result.for_llm.contains("Tool A"));
}

#[test]
fn list_shows_each_tool() {
    let mut store = Store::new();
    store.defs = vec![
        def("a", "Tool A", "do", TextMap::new()),
        def(
            "b",
            "Tool B",
            "do",
            params(vec![
                ("x", param("string", "", true)),
                ("y", param("string", "", true)),
            ]),
        ),
    ];
    let result = store.execute(r#"{"action": "list"}"#).unwrap();
    assert_eq!(
        result.for_llm,
        "Composed tools (2):\n- a — Tool A [params: (no params)]\n- b — Tool B [params: x, y]"
    );
}

#[test]
fn test_delete_action() {
    let mut store = Store::new();
    store
        .execute(
            r#"{"action": "create", "name": "doomed", "description": "d", "action_template": "a"}"#,
        )
        .unwrap();
    let result = store
        .execute(r#"{"action": "delete", "name": "doomed"}"#)
        .unwrap();
    assert!(result.for_llm.contains("Deleted"));
    assert!(store.defs.is_empty());
}

#[test]
fn deletion_keeps_the_others_in_order() {
    let mut store = Store::new();
    store.defs = vec![
        def("a", "", "", TextMap::new()),
        def("b", "", "", TextMap::new()),
        def("c", "", "", TextMap::new()),
    ];
    let result = store.execute(r#"{"action": "delete", "name": "b"}"#).unwrap();
    assert_eq!(result.for_user.as_deref(), Some("Deleted composed tool 'b'."));
    let names: Vec<&str> = store.defs.iter().map(|d| d.name.as_str()).collect();
    assert_eq!(names, ["a", "c"]);
}

#[test]
fn test_delete_nonexistent() {
    let mut store = Store::new();
    let result = store.execute(r#"{"action": "delete", "name": "ghost"}"#);
    assert!(result.is_err());
    assert_eq!(
        result.unwrap_err().message(),
        "No composed tool named 'ghost'"
    );
}

#[test]
fn test_run_action() {
    let mut store = Store::new();
    store
        .execute(
            r#"{
                "action": "create",
                "name": "searcher",
                "description": "Search for things",
                "action_template": "Search the web for {{query}} and summarize top 3 results",
                "parameters": {"query": "string"}
            }"#,
        )
        .unwrap();
    let result = store
        .execute(r#"{"action": "run", "name": "searcher", "query": "Rust async"}"#)
        .unwrap();
    assert!(result
        .for_llm
        .contains("Search the web for Rust async and summarize top 3 results"));
}

#[test]
fn run_keeps_the_members_of_the_request_out() {
    let mut store = Store::new();
    store.defs = vec![def("t", "", "{{action}} {{name}} {{n}}", TextMap::new())];
    let result = store
        .execute(r#"{"action": "run", "name": "t", "n": 7}"#)
        .unwrap();
    assert_eq!(
        result.for_llm,
        "[Composed tool instructions] {{action}} {{name}} 7"
    );
}

#[test]
fn test_run_nonexistent() {
    let mut store = Store::new();
    let result = store.execute(r#"{"action": "run", "name": "missing"}"#);
    assert!(result.is_err());
}

#[test]
fn names_are_required() {
    let mut store = Store::new();
    let e = store.execute(r#"{"action": "delete"}"#).unwrap_err();
    assert_eq!(e.message(), "'name' is required for delete");
    let e = store.execute(r#"{"action": "run"}"#).unwrap_err();
    assert_eq!(e.message(), "'name' is required for run");
}

#[test]
fn test_unknown_action() {
    let mut store = Store::new();
    let result = store.execute(r#"{"action": "explode"}"#);
    assert!(result.is_err());
    let e = result.unwrap_err();
    assert!(e.message().contains("Unknown action"));
    assert_eq!(
        e.message(),
        "Unknown action 'explode'. Use: create, list, delete, run"
    );
}

#[test]
fn deletion_undoes_creation() {
    let mut store = Store::new();
    store.defs = vec![def("a", "A", "do a", TextMap::new())];
    store
        .execute(r#"{"action": "create", "name": "b", "description": "d", "action_template": "x"}"#)
        .unwrap();
    assert_eq!(store.defs.len(), 2);
    store.execute(r#"{"action": "delete", "name": "b"}"#).unwrap();
    assert_eq!(store.defs.len(), 1);
    assert_eq!(store.defs[0].name, "a");
    assert!(store.execute(r#"{"action": "delete", "name": "b"}"#).is_err());
    assert!(store.execute(r#"{"action": "run", "name": "b"}"#).is_err());
}

#[test]
fn schema_of_create_tool() {
    let tool = CreateToolTool::with_path(PathBuf::from("composed_tools.json"));
    let schema = tool.parameters();
    assert_eq!(schema.get_str("type"), Some("object"));
    let properties = schema.get("properties").unwrap();
    let names: Vec<&str> = properties
        .as_object()
        .unwrap()
        .iter()
        .map(|(name, _)| name.as_str())
        .collect();
    assert_eq!(
        names,
        ["action", "name", "description", "action_template", "parameters"]
    );
    let actions = properties.get("action").unwrap().get("enum").unwrap();
    assert_eq!(actions.compact(), r#"["create","list","delete","run"]"#);
    assert_eq!(
        properties.get("parameters").unwrap().get_str("description"),
        Some(
            "Parameter definitions: {\"param_name\": \"type\"} or {\"param_name\": \
             {\"param_type\": \"string\", \"description\": \"...\", \"required\": true}} (for create)."
        )
    );
    assert_eq!(schema.get("required").unwrap().compact(), r#"["action"]"#);
}

// === load_composed_tools_from ===

#[test]
fn test_load_composed_tools_empty() {
    let tools = load_composed_tools_from(Ok(Vec::new()));
    assert!(tools.is_empty());
}

#[test]
fn test_load_composed_tools_with_defs() {
    let tools = load_composed_tools_from(Ok(vec![
        def("a", "da", "do a", TextMap::new()),
        def("b", "db", "do b", TextMap::new()),
    ]));
    assert_eq!(tools.len(), 2);
    assert_eq!(tools[0].name(), "a");
    assert_eq!(tools[1].name(), "b");
}

#[test]
fn tools_that_cannot_be_loaded_are_none() {
    let tools = load_composed_tools_from(Err(ZeptoError::Tool("broken".to_string())));
    assert!(tools.is_empty());
}

#[test]
fn test_create_with_full_param_objects() {
    let mut store = Store::new();
    let result = store
        .execute(
            r#"{
                "action": "create",
                "name": "analyzer",
                "description": "Analyze data",
                "action_template": "Analyze {{data}} with depth {{depth}}",
                "parameters": {
                    "data": {
                        "param_type": "string",
                        "description": "Data to analyze",
                        "required": true
                    },
                    "depth": {
                        "param_type": "integer",
                        "description": "Analysis depth",
                        "required": false
                    }
                }
            }"#,
        )
        .unwrap();
    assert!(result.for_llm.contains("Created"));
    let parameters = &store.defs[0].parameters;
    assert_eq!(parameters.len(), 2);
    assert_eq!(parameters.get("data").unwrap().param_type, "string");
    assert_eq!(parameters.get("depth").unwrap().param_type, "integer");
    assert!(!parameters.get("depth").unwrap().required);
}

#[test]
fn arguments_may_repeat_a_key() {
    let tool = ComposedTool::new(def("t", "d", "{{n}}", TextMap::new()));
    let args = Json::Object(vec![
        ("n".to_string(), Json::text("first")),
        (
            "n".to_string(),
            Json::Number(JsonNumber::Real("2.50".to_string())),
        ),
    ]);
    let result = tool.execute(&args).unwrap();
    assert_eq!(result.for_llm, "[Composed tool instructions] 2.5");
}
