//! JSON values.
//!
//! [`Json`] holds a JSON value as plain data. Its view is a [`JsonModel`], in
//! which an object is a map: where a key stands twice in the list of members,
//! the later one counts.
//!
//! Reading and writing JSON text is left to `serde_json`; the functions at the
//! end of this file carry values to it and back.

use vstd::prelude::*;
use vstd::string::*;
use crate::text::{decimal, same_text};

verus! {

/// A JSON number. A number that is no integer is kept as its decimal text.
#[derive(Debug)]
pub enum JsonNumber {
    Unsigned(u64),
    Signed(i64),
    Real(String),
}

/// A JSON value.
#[derive(Debug)]
pub enum Json {
    Null,
    Bool(bool),
    Number(JsonNumber),
    Text(String),
    Array(Vec<Json>),
    Object(Vec<(String, Json)>),
}

/// What a JSON value is.
#[verifier::ext_equal]
pub enum JsonModel {
    Null,
    Bool(bool),
    Integer(int),
    Real(Seq<char>),
    Text(Seq<char>),
    Array(Seq<JsonModel>),
    Object(Map<Seq<char>, JsonModel>),
}

/// The text with which `serde_json` prints the floating-point number that
/// `text` denotes, or `None` where `text` denotes no finite number.
pub uninterp spec fn printed_real(text: Seq<char>) -> Option<Seq<char>>;

/// The value of a number that is no integer; null where it is not finite.
pub open spec fn real_model(text: Seq<char>) -> JsonModel {
    match printed_real(text) {
        Some(printed) => JsonModel::Real(printed),
        None => JsonModel::Null,
    }
}

impl JsonNumber {
    pub open spec fn model(self) -> JsonModel {
        match self {
            JsonNumber::Unsigned(n) => JsonModel::Integer(n as int),
            JsonNumber::Signed(n) => JsonModel::Integer(n as int),
            JsonNumber::Real(text) => real_model(text@),
        }
    }
}

impl Json {
    /// The meaning of the value.
    pub open spec fn model(self) -> JsonModel
        decreases self,
    {
        match self {
            Json::Null => JsonModel::Null,
            Json::Bool(b) => JsonModel::Bool(b),
            Json::Number(n) => n.model(),
            Json::Text(s) => JsonModel::Text(s@),
            Json::Array(items) => JsonModel::Array(items_model(items@)),
            Json::Object(members) => JsonModel::Object(members_model(members@)),
        }
    }
}

/// The values of a list.
pub open spec fn items_model(items: Seq<Json>) -> Seq<JsonModel>
    decreases items,
{
    if items.len() == 0 {
        Seq::empty()
    } else {
        items_model(items.drop_last()).push(items.last().model())
    }
}

/// The map that a list of members denotes.
pub open spec fn members_model(members: Seq<(String, Json)>) -> Map<Seq<char>, JsonModel>
    decreases members,
{
    if members.len() == 0 {
        Map::empty()
    } else {
        members_model(members.drop_last()).insert(members.last().0@, members.last().1.model())
    }
}

impl View for Json {
    type V = JsonModel;

    open spec fn view(&self) -> JsonModel {
        self.model()
    }
}

/// The list of values has one value for each item.
pub proof fn items_model_index(items: Seq<Json>)
    ensures
        items_model(items).len() == items.len(),
        forall|i: int| 0 <= i < items.len() ==> #[trigger] items_model(items)[i] == items[i].model(),
    decreases items.len(),
{
    if items.len() > 0 {
        items_model_index(items.drop_last());
        assert forall|i: int| 0 <= i < items.len() implies #[trigger] items_model(items)[i]
            == items[i].model() by {
            if i < items.len() - 1 {
                assert(items.drop_last()[i] == items[i]);
            }
        }
    }
}

/// A member appended to the list counts over all before it.
pub proof fn members_model_push(members: Seq<(String, Json)>, member: (String, Json))
    ensures
        members_model(members.push(member)) == members_model(members).insert(
            member.0@,
            member.1.model(),
        ),
{
    assert(members.push(member).drop_last() =~= members);
}

/// An item appended to the list stands at its end.
pub proof fn items_model_push(items: Seq<Json>, item: Json)
    ensures
        items_model(items.push(item)) == items_model(items).push(item.model()),
{
    assert(items.push(item).drop_last() =~= items);
}

/// The member of an object under `key`; `None` for a value of another kind.
pub open spec fn member(value: JsonModel, key: Seq<char>) -> Option<JsonModel> {
    match value {
        JsonModel::Object(members) => if members.dom().contains(key) {
            Some(members[key])
        } else {
            None
        },
        _ => None,
    }
}

/// The value of the last member under `key` in a list of members.
pub open spec fn last_member(members: Seq<(String, Json)>, key: Seq<char>) -> Option<Json>
    decreases members.len(),
{
    if members.len() == 0 {
        None
    } else if members.last().0@ == key {
        Some(members.last().1)
    } else {
        last_member(members.drop_last(), key)
    }
}

/// The item of an array at `index`; `None` for a value of another kind.
pub open spec fn item(value: JsonModel, index: int) -> Option<JsonModel> {
    match value {
        JsonModel::Array(items) => if 0 <= index < items.len() {
            Some(items[index])
        } else {
            None
        },
        _ => None,
    }
}

/// The characters of a text; `None` for a value of another kind.
pub open spec fn text_of(value: JsonModel) -> Option<Seq<char>> {
    match value {
        JsonModel::Text(s) => Some(s),
        _ => None,
    }
}

/// The text that an object holds under `key`.
pub open spec fn text_member(value: JsonModel, key: Seq<char>) -> Option<Seq<char>> {
    match member(value, key) {
        Some(found) => text_of(found),
        None => None,
    }
}

/// The integer from zero to `u64::MAX` that a value is.
pub open spec fn natural_of(value: JsonModel) -> Option<u64> {
    match value {
        JsonModel::Integer(n) => if 0 <= n <= u64::MAX {
            Some(n as u64)
        } else {
            None
        },
        _ => None,
    }
}

/// The characters of an optional string.
pub open spec fn opt_text(s: Option<&str>) -> Option<Seq<char>> {
    match s {
        Some(s) => Some(s@),
        None => None,
    }
}

/// The meaning of an optional value.
pub open spec fn opt_json(value: Option<&Json>) -> Option<JsonModel> {
    match value {
        Some(value) => Some(value@),
        None => None,
    }
}

impl Json {
    /// A text value.
    pub fn text(s: &str) -> (r: Json)
        ensures
            r@ == JsonModel::Text(s@),
    {
        Json::Text(s.to_string())
    }

    /// A number from an unsigned integer.
    pub fn natural(n: u64) -> (r: Json)
        ensures
            r@ == JsonModel::Integer(n as int),
    {
        Json::Number(JsonNumber::Unsigned(n))
    }

    /// The value, as it is written, of the member under `key` of an object.
    pub open spec fn member_at(self, key: Seq<char>) -> Option<Json> {
        match self {
            Json::Object(members) => last_member(members@, key),
            _ => None,
        }
    }

    /// The member under `key` of an object.
    pub fn get(&self, key: &str) -> (r: Option<&Json>)
        ensures
            opt_json(r) == member(self@, key@),
            match r {
                Some(value) => self.member_at(key@) == Some(*value),
                None => self.member_at(key@) is None,
            },
    {
        match self {
            Json::Object(members) => {
                let ghost all = members_model(members@);
                let mut i: usize = members.len();
                proof {
                    assert(members@.take(i as int) =~= members@);
                }
                while i > 0
                    invariant
                        i <= members.len(),
                        all == members_model(members@),
                        self@ == JsonModel::Object(all),
                        *self == Json::Object(*members),
                        last_member(members@, key@) == last_member(members@.take(i as int), key@),
                        member(self@, key@) == member(
                            JsonModel::Object(members_model(members@.take(i as int))),
                            key@,
                        ),
                    decreases i,
                {
                    let found = same_text(members[i - 1].0.as_str(), key);
                    proof {
                        assert(members@.take(i as int).drop_last() =~= members@.take(i - 1));
                        assert(members@.take(i as int).last() == members@[i - 1]);
                    }
                    if found {
                        return Some(&members[i - 1].1);
                    }
                    i = i - 1;
                }
                None
            },
            _ => None,
        }
    }

    /// The item at `index` of an array.
    pub fn at(&self, index: usize) -> (r: Option<&Json>)
        ensures
            opt_json(r) == item(self@, index as int),
    {
        match self {
            Json::Array(items) => {
                proof {
                    items_model_index(items@);
                }
                if index < items.len() {
                    Some(&items[index])
                } else {
                    None
                }
            },
            _ => None,
        }
    }

    /// The characters of a text.
    pub fn as_str(&self) -> (r: Option<&str>)
        ensures
            opt_text(r) == text_of(self@),
    {
        match self {
            Json::Text(s) => Some(s.as_str()),
            _ => None,
        }
    }

    /// The value of a boolean.
    pub fn as_bool(&self) -> (r: Option<bool>)
        ensures
            r == (match self@ {
                JsonModel::Bool(b) => Some(b),
                _ => None,
            }),
    {
        match self {
            Json::Bool(b) => Some(*b),
            _ => None,
        }
    }

    /// The value of an integer that fits in `u64`.
    pub fn as_u64(&self) -> (r: Option<u64>)
        ensures
            r == natural_of(self@),
    {
        match self {
            Json::Number(JsonNumber::Unsigned(n)) => Some(*n),
            Json::Number(JsonNumber::Signed(n)) => if *n >= 0 {
                Some(*n as u64)
            } else {
                None
            },
            _ => None,
        }
    }

    /// The items of an array.
    pub fn as_array(&self) -> (r: Option<&Vec<Json>>)
        ensures
            match r {
                Some(items) => self@ == JsonModel::Array(items_model(items@)),
                None => !(self@ is Array),
            },
    {
        match self {
            Json::Array(items) => Some(items),
            _ => None,
        }
    }

    /// The members of an object.
    pub fn as_object(&self) -> (r: Option<&Vec<(String, Json)>>)
        ensures
            match r {
                Some(members) => *self == Json::Object(*members),
                None => !(self@ is Object),
            },
    {
        match self {
            Json::Object(members) => Some(members),
            _ => None,
        }
    }

    /// The text that an object holds under `key`.
    pub fn get_str(&self, key: &str) -> (r: Option<&str>)
        ensures
            opt_text(r) == text_member(self@, key@),
    {
        match self.get(key) {
            Some(value) => value.as_str(),
            None => None,
        }
    }

    /// A second value of the same meaning.
    pub fn copy(&self) -> (r: Json)
        ensures
            r@ == self@,
        decreases self,
    {
        match self {
            Json::Null => Json::Null,
            Json::Bool(b) => Json::Bool(*b),
            Json::Number(JsonNumber::Unsigned(n)) => Json::Number(JsonNumber::Unsigned(*n)),
            Json::Number(JsonNumber::Signed(n)) => Json::Number(JsonNumber::Signed(*n)),
            Json::Number(JsonNumber::Real(s)) => Json::Number(JsonNumber::Real(s.clone())),
            Json::Text(s) => Json::Text(s.clone()),
            Json::Array(items) => {
                let mut out: Vec<Json> = Vec::new();
                let mut i: usize = 0;
                while i < items.len()
                    invariant
                        i <= items.len(),
                        *self == Json::Array(*items),
                        items_model(out@) == items_model(items@.take(i as int)),
                    decreases items.len() - i,
                {
                    proof {
                        assert(decreases_to!(*self => self->Array_0));
                        assert(decreases_to!(self->Array_0 => self->Array_0@));
                        assert(decreases_to!(items@ => items@[i as int]));
                    }
                    let item = items[i].copy();
                    proof {
                        items_model_push(out@, item);
                        items_model_push(items@.take(i as int), items@[i as int]);
                        assert(items@.take(i as int).push(items@[i as int]) =~= items@.take(i + 1));
                    }
                    out.push(item);
                    i = i + 1;
                }
                proof {
                    assert(items@.take(i as int) =~= items@);
                }
                Json::Array(out)
            },
            Json::Object(members) => {
                let mut out: Vec<(String, Json)> = Vec::new();
                let mut i: usize = 0;
                while i < members.len()
                    invariant
                        i <= members.len(),
                        *self == Json::Object(*members),
                        members_model(out@) == members_model(members@.take(i as int)),
                    decreases members.len() - i,
                {
                    proof {
                        assert(decreases_to!(*self => self->Object_0));
                        assert(decreases_to!(self->Object_0 => self->Object_0@));
                        assert(decreases_to!(members@ => members@[i as int]));
                        assert(decreases_to!(members@[i as int] => members@[i as int].1));
                    }
                    let entry = (members[i].0.clone(), members[i].1.copy());
                    proof {
                        members_model_push(out@, entry);
                        members_model_push(members@.take(i as int), members@[i as int]);
                        assert(members@.take(i as int).push(members@[i as int]) =~= members@.take(
                            i + 1,
                        ));
                    }
                    out.push(entry);
                    i = i + 1;
                }
                proof {
                    assert(members@.take(i as int) =~= members@);
                }
                Json::Object(out)
            },
        }
    }
}

/// Appends a member to the list of an object's members.
pub fn put(members: &mut Vec<(String, Json)>, key: &str, value: Json)
    ensures
        members_model(final(members)@) == members_model(old(members)@).insert(key@, value@),
        final(members)@ == old(members)@.push(final(members)@.last()),
        final(members)@.last().0@ == key@,
        final(members)@.last().1 == value,
{
    let entry = (key.to_string(), value);
    proof {
        members_model_push(members@, entry);
    }
    members.push(entry);
}

/// Appends an item to the list of an array's items.
pub fn put_item(items: &mut Vec<Json>, value: Json)
    ensures
        items_model(final(items)@) == items_model(old(items)@).push(value@),
        final(items)@ == old(items)@.push(value),
{
    proof {
        items_model_push(items@, value);
    }
    items.push(value);
}

/// `serde_json::Value`, the crate's own tree of JSON values.
#[verifier::external_type_specification]
#[verifier::external_body]
pub struct ExValue(serde_json::Value);

/// What a `serde_json::Value` holds.
pub uninterp spec fn value_model(value: serde_json::Value) -> JsonModel;

/// The compact text in which `serde_json` writes a value.
pub uninterp spec fn compact_text(value: JsonModel) -> Seq<char>;

/// The compact text of a value: the three words of JSON, integers in decimal,
/// and what `serde_json` writes for any other.
pub open spec fn json_text(value: JsonModel) -> Seq<char> {
    match value {
        JsonModel::Null => "null"@,
        JsonModel::Bool(true) => "true"@,
        JsonModel::Bool(false) => "false"@,
        JsonModel::Integer(n) => if n >= 0 {
            decimal(n as nat)
        } else {
            "-"@ + decimal((-n) as nat)
        },
        _ => compact_text(value),
    }
}

/// The value that `serde_json` reads from a text; `None` where it reports an
/// error.
pub uninterp spec fn parsed_json(text: Seq<char>) -> Option<JsonModel>;

/// One level of a JSON value, with the values below it as `serde_json` has
/// them.
pub enum Node {
    Null,
    Bool(bool),
    Number(JsonNumber),
    Text(String),
    Array(Vec<serde_json::Value>),
    Object(Vec<(String, serde_json::Value)>),
}

/// The map that a list of members denotes.
pub open spec fn entries_model(entries: Seq<(String, serde_json::Value)>) -> Map<
    Seq<char>,
    JsonModel,
>
    decreases entries.len(),
{
    if entries.len() == 0 {
        Map::empty()
    } else {
        entries_model(entries.drop_last()).insert(
            entries.last().0@,
            value_model(entries.last().1),
        )
    }
}

impl Node {
    pub open spec fn model(self) -> JsonModel {
        match self {
            Node::Null => JsonModel::Null,
            Node::Bool(b) => JsonModel::Bool(b),
            Node::Number(n) => n.model(),
            Node::Text(s) => JsonModel::Text(s@),
            Node::Array(items) => JsonModel::Array(
                items@.map_values(|v: serde_json::Value| value_model(v)),
            ),
            Node::Object(entries) => JsonModel::Object(entries_model(entries@)),
        }
    }
}

/// Takes a `serde_json::Value` apart. The six variants of the enum go to the
/// six of [`Node`]; of a `Number`, `as_u64` and `as_i64` give the integers and
/// `to_string` the text of any other. No key occurs twice in a
/// `serde_json::Map`.
#[verifier::external_body]
fn open_value(value: serde_json::Value) -> (r: Node)
    ensures
        r.model() == value_model(value),
        r matches Node::Object(entries) ==> forall|i: int, j: int|
            0 <= i < j < entries@.len() ==> (#[trigger] entries@[i]).0@ != (
            #[trigger] entries@[j]).0@,
{
    match value {
        serde_json::Value::Null => Node::Null,
        serde_json::Value::Bool(b) => Node::Bool(b),
        serde_json::Value::Number(n) => Node::Number(match (n.as_u64(), n.as_i64()) {
            (Some(n), _) => JsonNumber::Unsigned(n),
            (None, Some(n)) => JsonNumber::Signed(n),
            (None, None) => JsonNumber::Real(n.to_string()),
        }),
        serde_json::Value::String(s) => Node::Text(s),
        serde_json::Value::Array(items) => Node::Array(items),
        serde_json::Value::Object(entries) => Node::Object(entries.into_iter().collect()),
    }
}

/// Puts a `serde_json::Value` together. Integers go through `Value::from`, a
/// real number through `Number::from_f64`, which refuses what is not finite,
/// and the members through `collect`, in which the later of two equal keys
/// counts.
#[verifier::external_body]
fn close_value(node: Node) -> (r: serde_json::Value)
    ensures
        value_model(r) == node.model(),
        node matches Node::Number(JsonNumber::Real(text)) ==> value_model(r) == (
        match printed_real(text@) {
            Some(printed) => JsonModel::Real(printed),
            None => JsonModel::Null,
        }),
{
    match node {
        Node::Null => serde_json::Value::Null,
        Node::Bool(b) => serde_json::Value::Bool(b),
        Node::Number(JsonNumber::Unsigned(n)) => serde_json::Value::from(n),
        Node::Number(JsonNumber::Signed(n)) => serde_json::Value::from(n),
        Node::Number(JsonNumber::Real(text)) => serde_json::Value::from(
            text.parse().ok().and_then(serde_json::Number::from_f64),
        ),
        Node::Text(s) => serde_json::Value::String(s),
        Node::Array(items) => serde_json::Value::Array(items),
        Node::Object(entries) => serde_json::Value::Object(entries.into_iter().collect()),
    }
}

/// Writes a `serde_json::Value` with its `to_string`. For the three words of
/// JSON and for integers the text is stated; for any other value it is left
/// unspecified beyond being a function of the value.
#[verifier::external_body]
fn value_text(value: &serde_json::Value) -> (r: String)
    ensures
        r@ == compact_text(value_model(*value)),
        r@ == json_text(value_model(*value)),
{
    value.to_string()
}

/// Reads a text with `serde_json::from_str`; the error is dropped.
#[verifier::external_body]
fn value_from_text(text: &str) -> (r: Option<serde_json::Value>)
    ensures
        r is Some == parsed_json(text@) is Some,
        r matches Some(value) ==> parsed_json(text@) == Some(value_model(value)),
{
    serde_json::from_str(text).ok()
}

/// In a list without repeated keys, each member counts.
proof fn entries_model_index(entries: Seq<(String, serde_json::Value)>)
    requires
        forall|i: int, j: int|
            0 <= i < j < entries.len() ==> (#[trigger] entries[i]).0@ != (
            #[trigger] entries[j]).0@,
    ensures
        entries_model(entries).dom().finite(),
        forall|i: int|
            0 <= i < entries.len() ==> entries_model(entries).dom().contains(
                (#[trigger] entries[i]).0@,
            ) && entries_model(entries)[entries[i].0@] == value_model(entries[i].1),
    decreases entries.len(),
{
    if entries.len() > 0 {
        let front = entries.drop_last();
        assert forall|i: int, j: int| 0 <= i < j < front.len() implies (#[trigger] front[i]).0@ != (
        #[trigger] front[j]).0@ by {
            assert(front[i] == entries[i]);
            assert(front[j] == entries[j]);
        }
        entries_model_index(front);
        assert forall|i: int| 0 <= i < entries.len() implies entries_model(entries).dom().contains(
            (#[trigger] entries[i]).0@,
        ) && entries_model(entries)[entries[i].0@] == value_model(entries[i].1) by {
            if i < entries.len() - 1 {
                assert(front[i] == entries[i]);
                assert(entries[i].0@ != entries[entries.len() - 1].0@);
            }
        }
    }
}

/// The [`Json`] of a `serde_json::Value`.
pub fn from_value(value: serde_json::Value) -> (r: Json)
    ensures
        r@ == value_model(value),
    decreases value_model(value),
{
    let ghost whole = value_model(value);
    match open_value(value) {
        Node::Null => Json::Null,
        Node::Bool(b) => Json::Bool(b),
        Node::Number(n) => Json::Number(n),
        Node::Text(s) => Json::Text(s),
        Node::Array(items) => {
            let ghost all = items@;
            let ghost models = all.map_values(|v: serde_json::Value| value_model(v));
            let mut out: Vec<Json> = Vec::new();
            for v in it: items
                invariant
                    it.seq() == all,
                    models == all.map_values(|v: serde_json::Value| value_model(v)),
                    whole == JsonModel::Array(models),
                    whole == value_model(value),
                    items_model(out@) == models.take(it.index() as int),
            {
                proof {
                    assert(models[it.index() as int] == value_model(v));
                    assert(decreases_to!(whole => whole->Array_0));
                    assert(decreases_to!(models => models[it.index() as int]));
                }
                let item = from_value(v);
                proof {
                    items_model_push(out@, item);
                    assert(models.take(it.index() as int).push(models[it.index() as int])
                        =~= models.take(it.index() + 1));
                }
                out.push(item);
            }
            proof {
                assert(models.take(models.len() as int) =~= models);
            }
            Json::Array(out)
        },
        Node::Object(entries) => {
            let ghost all = entries@;
            let ghost map = entries_model(all);
            proof {
                entries_model_index(all);
            }
            let mut out: Vec<(String, Json)> = Vec::new();
            for entry in it: entries
                invariant
                    it.seq() == all,
                    map == entries_model(all),
                    map.dom().finite(),
                    whole == JsonModel::Object(map),
                    whole == value_model(value),
                    forall|i: int|
                        0 <= i < all.len() ==> map.dom().contains((#[trigger] all[i]).0@)
                            && map[all[i].0@] == value_model(all[i].1),
                    members_model(out@) == entries_model(all.take(it.index() as int)),
            {
                proof {
                    assert(all[it.index() as int] == entry);
                    assert(decreases_to!(whole => whole->Object_0));
                    assert(decreases_to!(map => map[entry.0@]));
                }
                let made = (entry.0, from_value(entry.1));
                proof {
                    members_model_push(out@, made);
                    assert(all.take(it.index() + 1).drop_last() =~= all.take(it.index() as int));
                }
                out.push(made);
            }
            proof {
                assert(all.take(all.len() as int) =~= all);
            }
            Json::Object(out)
        },
    }
}

/// The `serde_json::Value` of a [`Json`].
pub fn to_value(json: &Json) -> (r: serde_json::Value)
    ensures
        value_model(r) == json@,
    decreases json,
{
    match json {
        Json::Null => close_value(Node::Null),
        Json::Bool(b) => close_value(Node::Bool(*b)),
        Json::Number(JsonNumber::Unsigned(n)) => close_value(
            Node::Number(JsonNumber::Unsigned(*n)),
        ),
        Json::Number(JsonNumber::Signed(n)) => close_value(Node::Number(JsonNumber::Signed(*n))),
        Json::Number(JsonNumber::Real(s)) => close_value(
            Node::Number(JsonNumber::Real(s.clone())),
        ),
        Json::Text(s) => close_value(Node::Text(s.clone())),
        Json::Array(items) => {
            let mut out: Vec<serde_json::Value> = Vec::new();
            let mut i: usize = 0;
            proof {
                items_model_index(items@);
            }
            while i < items.len()
                invariant
                    i <= items.len(),
                    *json == Json::Array(*items),
                    out.len() == i,
                    items_model(items@).len() == items.len(),
                    forall|j: int|
                        0 <= j < items.len() ==> #[trigger] items_model(items@)[j]
                            == items@[j].model(),
                    forall|j: int|
                        0 <= j < i ==> value_model(#[trigger] out@[j]) == items@[j].model(),
                decreases items.len() - i,
            {
                proof {
                    assert(decreases_to!(*json => json->Array_0));
                    assert(decreases_to!(json->Array_0 => json->Array_0@));
                    assert(decreases_to!(items@ => items@[i as int]));
                }
                out.push(to_value(&items[i]));
                i = i + 1;
            }
            proof {
                assert(out@.map_values(|v: serde_json::Value| value_model(v)) =~= items_model(
                    items@,
                ));
            }
            close_value(Node::Array(out))
        },
        Json::Object(members) => {
            let mut out: Vec<(String, serde_json::Value)> = Vec::new();
            let mut i: usize = 0;
            while i < members.len()
                invariant
                    i <= members.len(),
                    *json == Json::Object(*members),
                    entries_model(out@) == members_model(members@.take(i as int)),
                decreases members.len() - i,
            {
                proof {
                    assert(decreases_to!(*json => json->Object_0));
                    assert(decreases_to!(json->Object_0 => json->Object_0@));
                    assert(decreases_to!(members@ => members@[i as int]));
                    assert(decreases_to!(members@[i as int] => members@[i as int].1));
                }
                let made = (members[i].0.clone(), to_value(&members[i].1));
                proof {
                    assert(out@.push(made).drop_last() =~= out@);
                    assert(members@.take(i + 1).drop_last() =~= members@.take(i as int));
                }
                out.push(made);
                i = i + 1;
            }
            proof {
                assert(members@.take(i as int) =~= members@);
            }
            close_value(Node::Object(out))
        },
    }
}

impl Json {
    /// Reads JSON text; `None` where it is not valid.
    pub fn parse(text: &str) -> (r: Option<Json>)
        ensures
            match r {
                Some(json) => parsed_json(text@) == Some(json@),
                None => parsed_json(text@) is None,
            },
    {
        match value_from_text(text) {
            Some(value) => Some(from_value(value)),
            None => None,
        }
    }

    /// Writes the value as compact JSON text.
    pub fn compact(&self) -> (r: String)
        ensures
            r@ == json_text(self@),
    {
        let value = to_value(self);
        value_text(&value)
    }
}

} // verus!
