//! Tools for the non-volatile storage of a board.
//!
//! The storage keeps values under a key in a namespace. Names are short and
//! made of ASCII letters, digits, `_` and `-`; a command that breaks this is
//! refused before it is sent.

use vstd::prelude::*;
use vstd::string::*;
use crate::error::{outcome, ErrorModel, ZeptoError};
use crate::json::{items_model, members_model, put, put_item, text_member, Json, JsonModel};
use crate::text::{
    ascii_alphanumeric, byte_len, concat, decimal, decimal_text, is_ascii_alphanumeric, utf8_len,
};
use crate::tools::output::{llm_only, OutputModel, ToolCategory, ToolOutput};
use crate::tools::schema::{object_schema, property, property_of, schema_of};

verus! {

/// How many bytes a key may have.
pub const MAX_KEY_LEN: usize = 15;

/// How many bytes a namespace may have.
pub const MAX_NAMESPACE_LEN: usize = 15;

/// How many bytes a value may have.
pub const MAX_VALUE_LEN: usize = 4000;

/// The namespace that is used where none is given.
pub const DEFAULT_NAMESPACE: &'static str = "config";

/// The characters of which a name in the storage is made.
pub open spec fn nvs_char(c: char) -> bool {
    ascii_alphanumeric(c) || c == '_' || c == '-'
}

/// Why a text cannot be the `field` of a command, if it cannot.
pub open spec fn nvs_fault(value: Seq<char>, field: Seq<char>, max_len: usize) -> Option<
    Seq<char>,
> {
    if value.len() == 0 {
        Some("NVS "@ + field + " must not be empty"@)
    } else if utf8_len(value) > max_len {
        Some(
            "NVS "@ + field + " '"@ + value + "' exceeds maximum length of "@ + decimal(
                max_len as nat,
            ) + " bytes (got "@ + decimal(utf8_len(value)) + ")"@,
        )
    } else if exists|i: int| 0 <= i < value.len() && !#[trigger] nvs_char(value[i]) {
        Some(
            "NVS "@ + field + " '"@ + value
                + "' contains invalid characters; only alphanumeric, '_', and '-' are allowed"@,
        )
    } else {
        None
    }
}

/// What an outcome without a value says.
pub open spec fn verdict(r: Result<(), ZeptoError>) -> Option<ErrorModel> {
    match r {
        Ok(_) => None,
        Err(e) => Some(e@),
    }
}

/// The error of a fault.
pub open spec fn tool_error(fault: Option<Seq<char>>) -> Option<ErrorModel> {
    match fault {
        Some(text) => Some(ErrorModel::Tool(text)),
        None => None,
    }
}

/// Whether each character of `value` may stand in a name.
fn has_nvs_chars(value: &str) -> (r: bool)
    ensures
        r == (forall|i: int| 0 <= i < value@.len() ==> #[trigger] nvs_char(value@[i])),
{
    for c in it: value.chars()
        invariant
            it.seq() == value@,
            forall|i: int| 0 <= i < it.index() ==> #[trigger] nvs_char(value@[i]),
    {
        if !(is_ascii_alphanumeric(c) || c == '_' || c == '-') {
            proof {
                assert(!nvs_char(value@[it.index() as int]));
            }
            return false;
        }
    }
    true
}

/// Refuses a namespace or key that the storage cannot have.
pub fn validate_nvs_string(value: &str, field: &str, max_len: usize) -> (r: Result<(), ZeptoError>)
    ensures
        verdict(r) == tool_error(nvs_fault(value@, field@, max_len)),
{
    if value.unicode_len() == 0 {
        return Err(ZeptoError::Tool(concat("NVS ", field, " must not be empty")));
    }
    let len = byte_len(value);
    if len > max_len {
        let limit = decimal_text(max_len as u64);
        let got = decimal_text(len as u64);
        let mut text = concat("NVS ", field, " '");
        text.append(value);
        text.append("' exceeds maximum length of ");
        text.append(limit.as_str());
        text.append(" bytes (got ");
        text.append(got.as_str());
        text.append(")");
        return Err(ZeptoError::Tool(text));
    }
    if !has_nvs_chars(value) {
        let mut text = concat("NVS ", field, " '");
        text.append(value);
        text.append("' contains invalid characters; only alphanumeric, '_', and '-' are allowed");
        return Err(ZeptoError::Tool(text));
    }
    Ok(())
}

/// A command for the board.
pub struct DeviceCommand {
    pub name: &'static str,
    pub args: Json,
}

/// What a command says.
#[verifier::ext_equal]
pub struct CommandModel {
    pub name: Seq<char>,
    pub args: JsonModel,
}

impl View for DeviceCommand {
    type V = CommandModel;

    open spec fn view(&self) -> CommandModel {
        CommandModel { name: self.name@, args: self.args@ }
    }
}

/// The namespace that a call names, or the default.
pub open spec fn namespace_of(args: JsonModel) -> Seq<char> {
    match text_member(args, "namespace"@) {
        Some(namespace) => namespace,
        None => "config"@,
    }
}

/// Why a value cannot be found under the two names, if it cannot.
pub open spec fn slot_fault(namespace: Seq<char>, key: Seq<char>) -> Option<Seq<char>> {
    match nvs_fault(namespace, "namespace"@, MAX_NAMESPACE_LEN) {
        Some(fault) => Some(fault),
        None => nvs_fault(key, "key"@, MAX_KEY_LEN),
    }
}

/// The arguments of a command that name a value.
pub open spec fn slot(namespace: Seq<char>, key: Seq<char>) -> Map<Seq<char>, JsonModel> {
    Map::empty().insert("namespace"@, JsonModel::Text(namespace)).insert(
        "key"@,
        JsonModel::Text(key),
    )
}

/// The command `name` for the value that a call names, or why there is none.
pub open spec fn slot_command(name: Seq<char>, args: JsonModel) -> Result<
    CommandModel,
    ErrorModel,
> {
    let namespace = namespace_of(args);
    match text_member(args, "key"@) {
        None => Err(ErrorModel::Tool("Missing required parameter 'key'"@)),
        Some(key) => match slot_fault(namespace, key) {
            Some(fault) => Err(ErrorModel::Tool(fault)),
            None => Ok(CommandModel { name, args: JsonModel::Object(slot(namespace, key)) }),
        },
    }
}

/// Why a value cannot be stored, if it cannot.
pub open spec fn value_fault(value: Seq<char>) -> Option<Seq<char>> {
    if utf8_len(value) > MAX_VALUE_LEN {
        Some(
            "NVS value exceeds maximum length of "@ + decimal(MAX_VALUE_LEN as nat)
                + " bytes (got "@ + decimal(utf8_len(value)) + ")"@,
        )
    } else {
        None
    }
}

/// The command to store the value that a call gives, or why there is none.
pub open spec fn set_command(args: JsonModel) -> Result<CommandModel, ErrorModel> {
    let namespace = namespace_of(args);
    match text_member(args, "key"@) {
        None => Err(ErrorModel::Tool("Missing required parameter 'key'"@)),
        Some(key) => match text_member(args, "value"@) {
            None => Err(ErrorModel::Tool("Missing required parameter 'value'"@)),
            Some(value) => match slot_fault(namespace, key) {
                Some(fault) => Err(ErrorModel::Tool(fault)),
                None => match value_fault(value) {
                    Some(fault) => Err(ErrorModel::Tool(fault)),
                    None => Ok(
                        CommandModel {
                            name: "nvs_set"@,
                            args: JsonModel::Object(
                                slot(namespace, key).insert("value"@, JsonModel::Text(value)),
                            ),
                        },
                    ),
                },
            },
        },
    }
}

/// The namespace that a call names, or the default.
fn read_namespace(args: &Json) -> (r: &str)
    ensures
        r@ == namespace_of(args@),
{
    match args.get_str("namespace") {
        Some(namespace) => namespace,
        None => DEFAULT_NAMESPACE,
    }
}

/// Refuses two names under which no value can be.
fn validate_slot(namespace: &str, key: &str) -> (r: Result<(), ZeptoError>)
    ensures
        verdict(r) == tool_error(slot_fault(namespace@, key@)),
{
    match validate_nvs_string(namespace, "namespace", MAX_NAMESPACE_LEN) {
        Ok(_) => validate_nvs_string(key, "key", MAX_KEY_LEN),
        Err(e) => Err(e),
    }
}

/// The arguments of a command that name a value.
fn slot_of(namespace: &str, key: &str) -> (r: Vec<(String, Json)>)
    ensures
        members_model(r@) == slot(namespace@, key@),
{
    let mut members: Vec<(String, Json)> = Vec::new();
    put(&mut members, "namespace", Json::text(namespace));
    put(&mut members, "key", Json::text(key));
    members
}

/// The command `name` for the value that a call names.
fn slot_command_of(name: &'static str, args: &Json) -> (r: Result<DeviceCommand, ZeptoError>)
    ensures
        outcome(r) == slot_command(name@, args@),
{
    let namespace = read_namespace(args);
    let key = match args.get_str("key") {
        Some(key) => key,
        None => return Err(ZeptoError::Tool("Missing required parameter 'key'".to_string())),
    };
    match validate_slot(namespace, key) {
        Ok(_) => Ok(DeviceCommand { name, args: Json::Object(slot_of(namespace, key)) }),
        Err(e) => Err(e),
    }
}

/// What a call answers for the reply of the board.
pub open spec fn reply_output(reply: Result<String, ZeptoError>) -> Result<
    OutputModel,
    ErrorModel,
> {
    match reply {
        Ok(text) => Ok(llm_only(text@)),
        Err(e) => Err(e@),
    }
}

/// The answer for the reply of the board.
fn output_of(reply: Result<String, ZeptoError>) -> (r: Result<ToolOutput, ZeptoError>)
    ensures
        outcome(r) == reply_output(reply),
{
    match reply {
        Ok(text) => Ok(ToolOutput::llm_only(text)),
        Err(e) => Err(e),
    }
}

/// The properties that name a value, in a schema.
pub open spec fn slot_properties(key_description: Seq<char>) -> Map<Seq<char>, JsonModel> {
    Map::empty().insert(
        "namespace"@,
        JsonModel::Object(property("string"@, "NVS namespace (default: \"config\", max 15 chars, alphanumeric/_/-)"@)),
    ).insert("key"@, JsonModel::Object(property("string"@, key_description)))
}

/// The schema of a call that names a value.
pub open spec fn slot_arguments(key_description: Seq<char>) -> JsonModel {
    object_schema(slot_properties(key_description), seq![JsonModel::Text("key"@)])
}

/// The schema of a call that stores a value.
pub open spec fn set_arguments() -> JsonModel {
    object_schema(
        slot_properties("NVS key name (required, max 15 chars, alphanumeric/_/-)"@).insert(
            "value"@,
            JsonModel::Object(property("string"@, "String value to store in NVS"@)),
        ),
        seq![JsonModel::Text("key"@), JsonModel::Text("value"@)],
    )
}

/// The properties that name a value, in a schema.
fn slot_properties_of(key_description: &str) -> (r: Vec<(String, Json)>)
    ensures
        members_model(r@) == slot_properties(key_description@),
{
    let mut properties: Vec<(String, Json)> = Vec::new();
    put(
        &mut properties,
        "namespace",
        Json::Object(property_of("string", "NVS namespace (default: \"config\", max 15 chars, alphanumeric/_/-)")),
    );
    put(&mut properties, "key", Json::Object(property_of("string", key_description)));
    properties
}

/// The schema of a call that names a value.
fn slot_schema(key_description: &str) -> (r: Json)
    ensures
        r@ == slot_arguments(key_description@),
{
    let properties = slot_properties_of(key_description);
    let mut required: Vec<Json> = Vec::new();
    put_item(&mut required, Json::text("key"));
    proof {
        assert(items_model(required@) =~= seq![JsonModel::Text("key"@)]);
    }
    schema_of(properties, required)
}

/// Reads a value from the storage of a board.
pub struct NvsGetTool;

impl NvsGetTool {
    /// The name of the tool.
    pub fn name(&self) -> (r: &str)
        ensures
            r@ == "nvs_get"@,
    {
        "nvs_get"
    }

    /// What the tool is for.
    pub fn description(&self) -> (r: &str)
        ensures
            r@
                == "Read a value from ESP32 NVS (non-volatile flash storage) by namespace and key. Returns the stored string value, or an error if the key does not exist."@,
    {
        "Read a value from ESP32 NVS (non-volatile flash storage) by namespace and key. Returns the stored string value, or an error if the key does not exist."
    }

    /// What the tool is for, in short.
    pub fn compact_description(&self) -> (r: &str)
        ensures
            r@ == "Read NVS key value"@,
    {
        "Read NVS key value"
    }

    /// The tool drives a board.
    pub fn category(&self) -> (r: ToolCategory)
        ensures
            r == ToolCategory::Hardware,
    {
        ToolCategory::Hardware
    }

    /// The JSON Schema of the arguments.
    pub fn parameters(&self) -> (r: Json)
        ensures
            r@ == slot_arguments("NVS key name (required, max 15 chars, alphanumeric/_/-)"@),
    {
        slot_schema("NVS key name (required, max 15 chars, alphanumeric/_/-)")
    }

    /// The command to read the value that a call names.
    pub fn command(&self, args: &Json) -> (r: Result<DeviceCommand, ZeptoError>)
        ensures
            outcome(r) == slot_command("nvs_get"@, args@),
    {
        slot_command_of("nvs_get", args)
    }

    /// The answer for the reply of the board.
    pub fn output(&self, reply: Result<String, ZeptoError>) -> (r: Result<ToolOutput, ZeptoError>)
        ensures
            outcome(r) == reply_output(reply),
    {
        output_of(reply)
    }
}

/// Writes a value to the storage of a board.
pub struct NvsSetTool;

impl NvsSetTool {
    /// The name of the tool.
    pub fn name(&self) -> (r: &str)
        ensures
            r@ == "nvs_set"@,
    {
        "nvs_set"
    }

    /// What the tool is for.
    pub fn description(&self) -> (r: &str)
        ensures
            r@
                == "Write a string value to ESP32 NVS (non-volatile flash storage). Creates the key if it does not exist; overwrites if it does."@,
    {
        "Write a string value to ESP32 NVS (non-volatile flash storage). Creates the key if it does not exist; overwrites if it does."
    }

    /// What the tool is for, in short.
    pub fn compact_description(&self) -> (r: &str)
        ensures
            r@ == "Write NVS key value"@,
    {
        "Write NVS key value"
    }

    /// The tool drives a board.
    pub fn category(&self) -> (r: ToolCategory)
        ensures
            r == ToolCategory::Hardware,
    {
        ToolCategory::Hardware
    }

    /// The JSON Schema of the arguments.
    pub fn parameters(&self) -> (r: Json)
        ensures
            r@ == set_arguments(),
    {
        let mut properties = slot_properties_of(
            "NVS key name (required, max 15 chars, alphanumeric/_/-)",
        );
        put(
            &mut properties,
            "value",
            Json::Object(property_of("string", "String value to store in NVS")),
        );
        let mut required: Vec<Json> = Vec::new();
        put_item(&mut required, Json::text("key"));
        put_item(&mut required, Json::text("value"));
        proof {
            assert(items_model(required@) =~= seq![
                JsonModel::Text("key"@),
                JsonModel::Text("value"@),
            ]);
        }
        schema_of(properties, required)
    }

    /// The command to store the value that a call gives.
    pub fn command(&self, args: &Json) -> (r: Result<DeviceCommand, ZeptoError>)
        ensures
            outcome(r) == set_command(args@),
    {
        let namespace = read_namespace(args);
        let key = match args.get_str("key") {
            Some(key) => key,
            None => return Err(ZeptoError::Tool("Missing required parameter 'key'".to_string())),
        };
        let value = match args.get_str("value") {
            Some(value) => value,
            None => return Err(
                ZeptoError::Tool("Missing required parameter 'value'".to_string()),
            ),
        };
        if let Err(e) = validate_slot(namespace, key) {
            return Err(e);
        }
        let len = byte_len(value);
        if len > MAX_VALUE_LEN {
            let limit = decimal_text(MAX_VALUE_LEN as u64);
            let got = decimal_text(len as u64);
            let mut text = concat(
                "NVS value exceeds maximum length of ",
                limit.as_str(),
                " bytes (got ",
            );
            text.append(got.as_str());
            text.append(")");
            return Err(ZeptoError::Tool(text));
        }
        let mut members = slot_of(namespace, key);
        put(&mut members, "value", Json::text(value));
        Ok(DeviceCommand { name: "nvs_set", args: Json::Object(members) })
    }

    /// The answer for the reply of the board.
    pub fn output(&self, reply: Result<String, ZeptoError>) -> (r: Result<ToolOutput, ZeptoError>)
        ensures
            outcome(r) == reply_output(reply),
    {
        output_of(reply)
    }
}

/// Deletes a value from the storage of a board.
pub struct NvsDeleteTool;

impl NvsDeleteTool {
    /// The name of the tool.
    pub fn name(&self) -> (r: &str)
        ensures
            r@ == "nvs_delete"@,
    {
        "nvs_delete"
    }

    /// What the tool is for.
    pub fn description(&self) -> (r: &str)
        ensures
            r@
                == "Delete a key from ESP32 NVS (non-volatile flash storage). Returns an error if the namespace or key does not exist."@,
    {
        "Delete a key from ESP32 NVS (non-volatile flash storage). Returns an error if the namespace or key does not exist."
    }

    /// What the tool is for, in short.
    pub fn compact_description(&self) -> (r: &str)
        ensures
            r@ == "Delete NVS key"@,
    {
        "Delete NVS key"
    }

    /// The tool drives a board.
    pub fn category(&self) -> (r: ToolCategory)
        ensures
            r == ToolCategory::Hardware,
    {
        ToolCategory::Hardware
    }

    /// The JSON Schema of the arguments.
    pub fn parameters(&self) -> (r: Json)
        ensures
            r@ == slot_arguments(
                "NVS key name to delete (required, max 15 chars, alphanumeric/_/-)"@,
            ),
    {
        slot_schema("NVS key name to delete (required, max 15 chars, alphanumeric/_/-)")
    }

    /// The command to delete the value that a call names.
    pub fn command(&self, args: &Json) -> (r: Result<DeviceCommand, ZeptoError>)
        ensures
            outcome(r) == slot_command("nvs_delete"@, args@),
    {
        slot_command_of("nvs_delete", args)
    }

    /// The answer for the reply of the board.
    pub fn output(&self, reply: Result<String, ZeptoError>) -> (r: Result<ToolOutput, ZeptoError>)
        ensures
            outcome(r) == reply_output(reply),
    {
        output_of(reply)
    }
}

/// Whether a text is a name that the storage can have.
pub open spec fn nvs_name(name: Seq<char>, max_len: usize) -> bool {
    0 < name.len() && utf8_len(name) <= max_len && forall|i: int|
        0 <= i < name.len() ==> #[trigger] nvs_char(name[i])
}

/// A command that reads or deletes carries two names that the storage can have.
pub proof fn slot_commands_carry_valid_names(name: Seq<char>, args: JsonModel)
    ensures
        slot_command(name, args) matches Ok(command) ==> {
            &&& text_member(command.args, "namespace"@) matches Some(namespace) && nvs_name(
                namespace,
                MAX_NAMESPACE_LEN,
            )
            &&& text_member(command.args, "key"@) matches Some(key) && nvs_name(key, MAX_KEY_LEN)
        },
{
    reveal_strlit("namespace");
    reveal_strlit("key");
}

/// A command that writes carries two names that the storage can have, and a
/// value that fits.
pub proof fn set_commands_carry_valid_names(args: JsonModel)
    ensures
        set_command(args) matches Ok(command) ==> {
            &&& text_member(command.args, "namespace"@) matches Some(namespace) && nvs_name(
                namespace,
                MAX_NAMESPACE_LEN,
            )
            &&& text_member(command.args, "key"@) matches Some(key) && nvs_name(key, MAX_KEY_LEN)
            &&& text_member(command.args, "value"@) matches Some(value) && utf8_len(value)
                <= MAX_VALUE_LEN
        },
{
    reveal_strlit("namespace");
    reveal_strlit("key");
    reveal_strlit("value");
}

} // verus!
