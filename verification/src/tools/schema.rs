//! JSON Schemas of tool arguments.

use vstd::prelude::*;
use vstd::string::*;
use crate::json::{items_model, members_model, put, Json, JsonModel};

verus! {

/// A property of a type, with its description.
pub open spec fn property(kind: Seq<char>, description: Seq<char>) -> Map<Seq<char>, JsonModel> {
    Map::empty().insert("type"@, JsonModel::Text(kind)).insert(
        "description"@,
        JsonModel::Text(description),
    )
}

/// The JSON Schema of the arguments of a tool.
pub open spec fn object_schema(
    properties: Map<Seq<char>, JsonModel>,
    required: Seq<JsonModel>,
) -> JsonModel {
    JsonModel::Object(
        Map::empty().insert("type"@, JsonModel::Text("object"@)).insert(
            "properties"@,
            JsonModel::Object(properties),
        ).insert("required"@, JsonModel::Array(required)),
    )
}

/// The members of a property.
pub fn property_of(kind: &str, description: &str) -> (r: Vec<(String, Json)>)
    ensures
        members_model(r@) == property(kind@, description@),
{
    let mut members: Vec<(String, Json)> = Vec::new();
    put(&mut members, "type", Json::text(kind));
    put(&mut members, "description", Json::text(description));
    members
}

/// The schema with the given properties, of which those in `required` have to
/// be there.
pub fn schema_of(properties: Vec<(String, Json)>, required: Vec<Json>) -> (r: Json)
    ensures
        r@ == object_schema(members_model(properties@), items_model(required@)),
{
    let mut schema: Vec<(String, Json)> = Vec::new();
    put(&mut schema, "type", Json::text("object"));
    put(&mut schema, "properties", Json::Object(properties));
    put(&mut schema, "required", Json::Array(required));
    Json::Object(schema)
}

} // verus!
