//! JSON values as plain data.
//!
//! Text is parsed by `serde_json`; the parsed value is then taken apart into
//! [`Json`], whose view is a [`JsonTree`].

use crate::text::text_eq;
use vstd::prelude::*;

verus! {

/// A JSON number. Floating-point numbers keep their decimal text.
#[derive(Debug)]
pub enum JsonNumber {
    Unsigned(u64),
    Negative(i64),
    Float(String),
}

/// One member of a JSON object.
#[derive(Debug)]
pub struct JsonMember {
    pub name: String,
    pub value: Json,
}

/// A JSON value. Where an object repeats a name, the last member counts.
#[derive(Debug)]
pub enum Json {
    Null,
    Bool(bool),
    Number(JsonNumber),
    Text(String),
    Array(Vec<Json>),
    Object(Vec<JsonMember>),
}

/// The mathematical value of a JSON number.
pub enum NumberTree {
    Unsigned(u64),
    Negative(i64),
    Float(Seq<char>),
}

/// The mathematical value of a JSON document.
pub enum JsonTree {
    Null,
    Bool(bool),
    Number(NumberTree),
    Text(Seq<char>),
    Array(Seq<JsonTree>),
    Object(Map<Seq<char>, JsonTree>),
}

impl JsonNumber {
    pub open spec fn view(&self) -> NumberTree {
        match self {
            JsonNumber::Unsigned(n) => NumberTree::Unsigned(*n),
            JsonNumber::Negative(n) => NumberTree::Negative(*n),
            JsonNumber::Float(text) => NumberTree::Float(text@),
        }
    }
}

impl JsonNumber {
    pub fn duplicate(&self) -> (r: JsonNumber)
        ensures
            r.view() == self.view(),
    {
        match self {
            JsonNumber::Unsigned(n) => JsonNumber::Unsigned(*n),
            JsonNumber::Negative(n) => JsonNumber::Negative(*n),
            JsonNumber::Float(text) => JsonNumber::Float(text.clone()),
        }
    }
}

/// The values of a run of elements.
pub open spec fn array_tree(items: Seq<Json>) -> Seq<JsonTree>
    decreases items,
{
    if items.len() == 0 {
        Seq::empty()
    } else {
        array_tree(items.drop_last()).push(items.last().view())
    }
}

/// The members of an object by name; a later member replaces an earlier one.
pub open spec fn object_tree(members: Seq<JsonMember>) -> Map<Seq<char>, JsonTree>
    decreases members,
{
    if members.len() == 0 {
        Map::empty()
    } else {
        object_tree(members.drop_last()).insert(
            members.last().name@,
            members.last().value.view(),
        )
    }
}

impl Json {
    pub open spec fn view(&self) -> JsonTree
        decreases self,
    {
        match self {
            Json::Null => JsonTree::Null,
            Json::Bool(b) => JsonTree::Bool(*b),
            Json::Number(n) => JsonTree::Number(n.view()),
            Json::Text(text) => JsonTree::Text(text@),
            Json::Array(items) => JsonTree::Array(array_tree(items@)),
            Json::Object(members) => JsonTree::Object(object_tree(members@)),
        }
    }
}

impl JsonTree {
    /// The member of an object under `name`.
    pub open spec fn get(self, name: Seq<char>) -> Option<JsonTree> {
        match self {
            JsonTree::Object(members) => if members.dom().contains(name) {
                Some(members[name])
            } else {
                None
            },
            _ => None,
        }
    }

    pub open spec fn as_bool(self) -> Option<bool> {
        match self {
            JsonTree::Bool(b) => Some(b),
            _ => None,
        }
    }

    pub open spec fn as_text(self) -> Option<Seq<char>> {
        match self {
            JsonTree::Text(text) => Some(text),
            _ => None,
        }
    }

    pub open spec fn as_u64(self) -> Option<u64> {
        match self {
            JsonTree::Number(NumberTree::Unsigned(n)) => Some(n),
            _ => None,
        }
    }

    pub open spec fn as_array(self) -> Option<Seq<JsonTree>> {
        match self {
            JsonTree::Array(items) => Some(items),
            _ => None,
        }
    }

    /// The boolean member under `name`.
    pub open spec fn bool_at(self, name: Seq<char>) -> Option<bool> {
        match self.get(name) {
            Some(member) => member.as_bool(),
            None => None,
        }
    }

    /// The text member under `name`.
    pub open spec fn text_at(self, name: Seq<char>) -> Option<Seq<char>> {
        match self.get(name) {
            Some(member) => member.as_text(),
            None => None,
        }
    }

    /// The unsigned member under `name`.
    pub open spec fn u64_at(self, name: Seq<char>) -> Option<u64> {
        match self.get(name) {
            Some(member) => member.as_u64(),
            None => None,
        }
    }

    /// The array member under `name`.
    pub open spec fn array_at(self, name: Seq<char>) -> Option<Seq<JsonTree>> {
        match self.get(name) {
            Some(member) => member.as_array(),
            None => None,
        }
    }
}

/// The number tree of an integer.
pub open spec fn integer_tree(n: int) -> NumberTree {
    if n < 0 {
        NumberTree::Negative(n as i64)
    } else {
        NumberTree::Unsigned(n as u64)
    }
}

/// A text, or null where there is none.
pub open spec fn text_or_null(value: Option<Seq<char>>) -> JsonTree {
    match value {
        Some(text) => JsonTree::Text(text),
        None => JsonTree::Null,
    }
}

/// An unsigned number, or null where there is none.
pub open spec fn unsigned_or_null(value: Option<u64>) -> JsonTree {
    match value {
        Some(n) => JsonTree::Number(NumberTree::Unsigned(n)),
        None => JsonTree::Null,
    }
}

/// An unsigned number.
pub open spec fn unsigned_tree(n: u64) -> JsonTree {
    JsonTree::Number(NumberTree::Unsigned(n))
}

/// The view of an optional JSON reference.
pub open spec fn optional_tree(value: Option<&Json>) -> Option<JsonTree> {
    match value {
        Some(json) => Some(json.view()),
        None => None,
    }
}

/// The view of an optional text reference.
pub open spec fn optional_text(value: Option<&str>) -> Option<Seq<char>> {
    match value {
        Some(text) => Some(text@),
        None => None,
    }
}

/// The view of an optional owned text.
pub open spec fn optional_string(value: Option<String>) -> Option<Seq<char>> {
    match value {
        Some(text) => Some(text@),
        None => None,
    }
}

/// An array's view keeps length and position.
pub proof fn lemma_array_tree(items: Seq<Json>)
    ensures
        array_tree(items).len() == items.len(),
        forall|i: int|
            0 <= i < items.len() ==> #[trigger] array_tree(items)[i] == items[i].view(),
    decreases items,
{
    if items.len() > 0 {
        lemma_array_tree(items.drop_last());
    }
}

/// A name is in an object's view exactly when a member carries it, and then
/// its value is that of the last such member.
proof fn lemma_object_tree_last(members: Seq<JsonMember>, name: Seq<char>, at: int)
    requires
        -1 <= at < members.len(),
        at >= 0 ==> members[at].name@ == name,
        forall|i: int| at < i < members.len() ==> (#[trigger] members[i]).name@ != name,
    ensures
        at >= 0 ==> object_tree(members).dom().contains(name) && object_tree(members)[name]
            == members[at].value.view(),
        at < 0 ==> !object_tree(members).dom().contains(name),
    decreases members,
{
    if members.len() > 0 && at < members.len() - 1 {
        assert(members[members.len() - 1].name@ != name);
        let rest = members.drop_last();
        assert forall|i: int| at < i < rest.len() implies (#[trigger] rest[i]).name@ != name by {
            assert(rest[i] == members[i]);
        }
        lemma_object_tree_last(rest, name, at);
    }
}

impl Json {
    /// The member of an object under `name`.
    pub fn get(&self, name: &str) -> (r: Option<&Json>)
        ensures
            optional_tree(r) == self.view().get(name@),
    {
        match self {
            Json::Object(members) => {
                let mut i: usize = members.len();
                while i > 0
                    invariant
                        i <= members.len(),
                        forall|k: int| i <= k < members.len() ==> (#[trigger] members@[k]).name@ != name@,
                        self.view() == JsonTree::Object(object_tree(members@)),
                    decreases i,
                {
                    i = i - 1;
                    if text_eq(members[i].name.as_str(), name) {
                        proof {
                            lemma_object_tree_last(members@, name@, i as int);
                        }
                        return Some(&members[i].value);
                    }
                }
                proof {
                    lemma_object_tree_last(members@, name@, -1);
                }
                None
            },
            _ => None,
        }
    }

    pub fn is_null(&self) -> (r: bool)
        ensures
            r == (self.view() is Null),
    {
        matches!(self, Json::Null)
    }

    pub fn is_object(&self) -> (r: bool)
        ensures
            r == (self.view() is Object),
    {
        matches!(self, Json::Object(_))
    }

    pub fn as_bool(&self) -> (r: Option<bool>)
        ensures
            r == self.view().as_bool(),
    {
        match self {
            Json::Bool(b) => Some(*b),
            _ => None,
        }
    }

    pub fn as_text(&self) -> (r: Option<&str>)
        ensures
            optional_text(r) == self.view().as_text(),
    {
        match self {
            Json::Text(text) => Some(text.as_str()),
            _ => None,
        }
    }

    pub fn as_u64(&self) -> (r: Option<u64>)
        ensures
            r == self.view().as_u64(),
    {
        match self {
            Json::Number(JsonNumber::Unsigned(n)) => Some(*n),
            _ => None,
        }
    }

    pub fn as_array(&self) -> (r: Option<&Vec<Json>>)
        ensures
            match r {
                Some(items) => self.view().as_array() == Some(array_tree(items@)),
                None => self.view().as_array() is None,
            },
    {
        match self {
            Json::Array(items) => Some(items),
            _ => None,
        }
    }

    pub fn bool_at(&self, name: &str) -> (r: Option<bool>)
        ensures
            r == self.view().bool_at(name@),
    {
        match self.get(name) {
            Some(member) => member.as_bool(),
            None => None,
        }
    }

    pub fn text_at(&self, name: &str) -> (r: Option<&str>)
        ensures
            optional_text(r) == self.view().text_at(name@),
    {
        match self.get(name) {
            Some(member) => member.as_text(),
            None => None,
        }
    }

    pub fn u64_at(&self, name: &str) -> (r: Option<u64>)
        ensures
            r == self.view().u64_at(name@),
    {
        match self.get(name) {
            Some(member) => member.as_u64(),
            None => None,
        }
    }

    /// A deep copy of the value.
    pub fn duplicate(&self) -> (r: Json)
        ensures
            r.view() == self.view(),
        decreases self,
    {
        match self {
            Json::Null => Json::Null,
            Json::Bool(b) => Json::Bool(*b),
            Json::Number(n) => Json::Number(n.duplicate()),
            Json::Text(text) => Json::Text(text.clone()),
            Json::Array(items) => {
                let mut out: Vec<Json> = Vec::new();
                let mut i: usize = 0;
                while i < items.len()
                    invariant
                        i <= items.len(),
                        self == (Json::Array(*items)),
                        array_tree(out@) == array_tree(items@.take(i as int)),
                    decreases items.len() - i,
                {
                    assert(decreases_to!(*self => self->Array_0));
                    assert(decreases_to!(self->Array_0 => self->Array_0@));
                    assert(decreases_to!(self->Array_0@ => self->Array_0@[i as int]));
                    let item = items[i].duplicate();
                    let ghost before = out@;
                    out.push(item);
                    assert(out@.drop_last() =~= before);
                    assert(items@.take(i + 1).drop_last() =~= items@.take(i as int));
                    i = i + 1;
                }
                assert(items@.take(items@.len() as int) =~= items@);
                Json::Array(out)
            },
            Json::Object(members) => {
                let mut out: Vec<JsonMember> = Vec::new();
                let mut i: usize = 0;
                while i < members.len()
                    invariant
                        i <= members.len(),
                        self == (Json::Object(*members)),
                        object_tree(out@) == object_tree(members@.take(i as int)),
                    decreases members.len() - i,
                {
                    assert(decreases_to!(*self => self->Object_0));
                    assert(decreases_to!(self->Object_0 => self->Object_0@));
                    assert(decreases_to!(self->Object_0@ => self->Object_0@[i as int]));
                    assert(decreases_to!(members@[i as int] => members@[i as int].value));
                    let item = members[i].value.duplicate();
                    put_member(&mut out, members[i].name.as_str(), item);
                    assert(members@.take(i + 1).drop_last() =~= members@.take(i as int));
                    i = i + 1;
                }
                assert(members@.take(members@.len() as int) =~= members@);
                Json::Object(out)
            },
        }
    }

    /// A JSON number for an unsigned integer.
    pub fn unsigned(n: u64) -> (r: Json)
        ensures
            r.view() == JsonTree::Number(NumberTree::Unsigned(n)),
    {
        Json::Number(JsonNumber::Unsigned(n))
    }

    /// A JSON number for a signed integer.
    pub fn signed(n: i64) -> (r: Json)
        ensures
            r.view() == JsonTree::Number(integer_tree(n as int)),
    {
        if n < 0 {
            Json::Number(JsonNumber::Negative(n))
        } else {
            Json::Number(JsonNumber::Unsigned(n as u64))
        }
    }

    /// A JSON number, or null where there is none.
    pub fn optional_unsigned(value: Option<u64>) -> (r: Json)
        ensures
            r.view() == unsigned_or_null(value),
    {
        match value {
            Some(n) => Json::unsigned(n),
            None => Json::Null,
        }
    }

    /// A JSON text, or null where there is none.
    pub fn optional_text(value: Option<&str>) -> (r: Json)
        ensures
            r.view() == text_or_null(optional_text(value)),
    {
        match value {
            Some(text) => Json::text(text),
            None => Json::Null,
        }
    }

    /// A JSON text.
    pub fn text(value: &str) -> (r: Json)
        ensures
            r.view() == JsonTree::Text(value@),
    {
        Json::Text(value.to_owned())
    }
}

impl Clone for Json {
    fn clone(&self) -> (r: Json)
        ensures
            r.view() == self.view(),
    {
        self.duplicate()
    }
}

/// Adds one member to an object under construction.
pub fn put_member(members: &mut Vec<JsonMember>, name: &str, value: Json)
    ensures
        object_tree(final(members)@) == object_tree(old(members)@).insert(name@, value.view()),
{
    members.push(JsonMember { name: name.to_owned(), value });
    assert(members@.drop_last() =~= old(members)@);
}

/// The members of an object, as they are written.
pub fn members_of(value: &Json) -> (r: Option<&Vec<JsonMember>>)
    ensures
        match r {
            Some(members) => value.view() == JsonTree::Object(object_tree(members@)),
            None => !(value.view() is Object),
        },
{
    match value {
        Json::Object(members) => Some(members),
        _ => None,
    }
}

/// Copies the members of an object without the one under `name`.
pub fn without_member(members: &Vec<JsonMember>, name: &str) -> (r: Vec<JsonMember>)
    ensures
        object_tree(r@) == object_tree(members@).remove(name@),
{
    let mut out: Vec<JsonMember> = Vec::new();
    let mut i: usize = 0;
    assert(object_tree(out@) =~= object_tree(members@.take(0)).remove(name@));
    while i < members.len()
        invariant
            i <= members.len(),
            object_tree(out@) == object_tree(members@.take(i as int)).remove(name@),
        decreases members.len() - i,
    {
        let ghost before = object_tree(members@.take(i as int));
        let ghost member = members@[i as int];
        assert(members@.take(i + 1).drop_last() =~= members@.take(i as int));
        if text_eq(members[i].name.as_str(), name) {
            assert(before.insert(name@, member.value.view()).remove(name@) =~= before.remove(
                name@,
            ));
        } else {
            put_member(&mut out, members[i].name.as_str(), members[i].value.clone());
            assert(before.insert(member.name@, member.value.view()).remove(name@)
                =~= before.remove(name@).insert(member.name@, member.value.view()));
        }
        i = i + 1;
    }
    assert(members@.take(members@.len() as int) =~= members@);
    out
}

/// Copies the members of an object.
pub fn duplicate_members(members: &Vec<JsonMember>) -> (r: Vec<JsonMember>)
    ensures
        object_tree(r@) == object_tree(members@),
{
    let mut out: Vec<JsonMember> = Vec::new();
    let mut i: usize = 0;
    while i < members.len()
        invariant
            i <= members.len(),
            object_tree(out@) == object_tree(members@.take(i as int)),
        decreases members.len() - i,
    {
        assert(members@.take(i + 1).drop_last() =~= members@.take(i as int));
        put_member(&mut out, members[i].name.as_str(), members[i].value.clone());
        i = i + 1;
    }
    assert(members@.take(members@.len() as int) =~= members@);
    out
}

/// `serde_json::Value`, carried opaquely.
#[verifier::external_type_specification]
#[verifier::external_body]
pub struct ExSerdeValue(serde_json::Value);

/// What a parsed `serde_json::Value` holds.
pub uninterp spec fn value_tree(value: serde_json::Value) -> JsonTree;

/// What `serde_json::from_str` makes of a text: the parsed value, or the text
/// of its error.
pub uninterp spec fn parsed_text(text: Seq<char>) -> Result<JsonTree, Seq<char>>;

/// What `serde_json::from_slice` makes of bytes: the parsed value, or the text
/// of its error.
pub uninterp spec fn parsed_bytes(bytes: Seq<u8>) -> Result<JsonTree, Seq<char>>;

/// One level of a `serde_json::Value`.
enum ValueLevel<'a> {
    Null,
    Bool(bool),
    Unsigned(u64),
    Negative(i64),
    Float(String),
    Text(String),
    Array(Vec<&'a serde_json::Value>),
    Object(Vec<(String, &'a serde_json::Value)>),
}

spec fn level_matches(level: ValueLevel<'_>, tree: JsonTree) -> bool {
    match level {
        ValueLevel::Null => tree == JsonTree::Null,
        ValueLevel::Bool(b) => tree == JsonTree::Bool(b),
        ValueLevel::Unsigned(n) => tree == JsonTree::Number(NumberTree::Unsigned(n)),
        ValueLevel::Negative(n) => tree == JsonTree::Number(NumberTree::Negative(n)),
        ValueLevel::Float(text) => tree == JsonTree::Number(NumberTree::Float(text@)),
        ValueLevel::Text(text) => tree == JsonTree::Text(text@),
        ValueLevel::Array(items) => {
            &&& tree is Array
            &&& tree->Array_0.len() == items@.len()
            &&& forall|i: int|
                0 <= i < items@.len() ==> tree->Array_0[i] == value_tree(*(#[trigger] items@[i]))
        },
        ValueLevel::Object(members) => {
            &&& tree is Object
            &&& forall|i: int, j: int|
                0 <= i < j < members@.len() ==> (#[trigger] members@[i]).0@ != (
                #[trigger] members@[j]).0@
            &&& forall|i: int|
                0 <= i < members@.len() ==> tree->Object_0.dom().contains(
                    (#[trigger] members@[i]).0@,
                ) && tree->Object_0[members@[i].0@] == value_tree(*members@[i].1)
            &&& forall|name: Seq<char>| #[trigger]
                tree->Object_0.dom().contains(name) ==> exists|i: int|
                    0 <= i < members@.len() && (#[trigger] members@[i]).0@ == name
        },
    }
}

/// Parses a JSON text with `serde_json::from_str`. The result is named
/// `parsed_text` of the text: the value itself, or the error's display text.
#[verifier::external_body]
fn parse_text(text: &str) -> (r: Result<serde_json::Value, String>)
    ensures
        match r {
            Ok(value) => parsed_text(text@) == Ok::<JsonTree, Seq<char>>(value_tree(value)),
            Err(message) => parsed_text(text@) == Err::<JsonTree, Seq<char>>(message@),
        },
{
    serde_json::from_str(text).map_err(|error: serde_json::Error| error.to_string())
}

/// Parses JSON bytes with `serde_json::from_slice`. The result is named
/// `parsed_bytes` of the bytes: the value itself, or the error's display text.
#[verifier::external_body]
fn parse_bytes(bytes: &Vec<u8>) -> (r: Result<serde_json::Value, String>)
    ensures
        match r {
            Ok(value) => parsed_bytes(bytes@) == Ok::<JsonTree, Seq<char>>(value_tree(value)),
            Err(message) => parsed_bytes(bytes@) == Err::<JsonTree, Seq<char>>(message@),
        },
{
    serde_json::from_slice(bytes).map_err(|error: serde_json::Error| error.to_string())
}

/// Takes one level of a `serde_json::Value` apart by its variants, with
/// `Number::as_u64` and `Number::as_i64` telling the integer kinds apart. The
/// level holds what the value holds; an object lists each of its names once,
/// in an order that is left open.
#[verifier::external_body]
fn value_level<'a>(value: &'a serde_json::Value) -> (r: ValueLevel<'a>)
    ensures
        level_matches(r, value_tree(*value)),
{
    match value {
        serde_json::Value::Null => ValueLevel::Null,
        serde_json::Value::Bool(b) => ValueLevel::Bool(*b),
        serde_json::Value::Number(n) => match (n.as_u64(), n.as_i64()) {
            (Some(unsigned), _) => ValueLevel::Unsigned(unsigned),
            (None, Some(negative)) => ValueLevel::Negative(negative),
            (None, None) => ValueLevel::Float(n.to_string()),
        },
        serde_json::Value::String(text) => ValueLevel::Text(text.clone()),
        serde_json::Value::Array(items) => ValueLevel::Array(items.iter().collect()),
        serde_json::Value::Object(m) => ValueLevel::Object(m.iter().map(|(k, v)| (k.clone(), v)).collect()),
    }
}

/// The plain form of a parsed value.
fn plain_json(value: &serde_json::Value) -> (r: Json)
    ensures
        r.view() == value_tree(*value),
    decreases value_tree(*value),
{
    match value_level(value) {
        ValueLevel::Null => Json::Null,
        ValueLevel::Bool(b) => Json::Bool(b),
        ValueLevel::Unsigned(n) => Json::Number(JsonNumber::Unsigned(n)),
        ValueLevel::Negative(n) => Json::Number(JsonNumber::Negative(n)),
        ValueLevel::Float(text) => Json::Number(JsonNumber::Float(text)),
        ValueLevel::Text(text) => Json::Text(text),
        ValueLevel::Array(items) => {
            let mut out: Vec<Json> = Vec::new();
            let mut i: usize = 0;
            while i < items.len()
                invariant
                    i <= items.len(),
                    level_matches(ValueLevel::Array(items), value_tree(*value)),
                    array_tree(out@) == value_tree(*value)->Array_0.take(i as int),
                decreases items.len() - i,
            {
                let ghost tree = value_tree(*value);
                assert(tree->Array_0[i as int] == value_tree(*items@[i as int]));
                assert(decreases_to!(tree => tree->Array_0[i as int]));
                let item = plain_json(items[i]);
                let ghost before = out@;
                out.push(item);
                assert(out@.drop_last() =~= before);
                assert(tree->Array_0.take(i + 1) =~= tree->Array_0.take(i as int).push(
                    tree->Array_0[i as int],
                ));
                i = i + 1;
            }
            assert(value_tree(*value)->Array_0.take(items@.len() as int)
                =~= value_tree(*value)->Array_0);
            Json::Array(out)
        },
        ValueLevel::Object(members) => {
            let mut out: Vec<JsonMember> = Vec::new();
            let mut i: usize = 0;
            while i < members.len()
                invariant
                    i <= members.len(),
                    level_matches(ValueLevel::Object(members), value_tree(*value)),
                    forall|k: int|
                        0 <= k < i ==> object_tree(out@).dom().contains(
                            (#[trigger] members@[k]).0@,
                        ) && object_tree(out@)[members@[k].0@] == value_tree(*members@[k].1),
                    forall|name: Seq<char>| #[trigger]
                        object_tree(out@).dom().contains(name) ==> exists|k: int|
                            0 <= k < i && (#[trigger] members@[k]).0@ == name,
                decreases members.len() - i,
            {
                let ghost tree = value_tree(*value);
                assert(tree->Object_0[members@[i as int].0@] == value_tree(*members@[i as int].1));
                assert(decreases_to!(tree => tree->Object_0[members@[i as int].0@]));
                let item = plain_json(members[i].1);
                let ghost before = object_tree(out@);
                put_member(&mut out, members[i].0.as_str(), item);
                assert forall|name: Seq<char>| #[trigger]
                    object_tree(out@).dom().contains(name) implies exists|k: int|
                    0 <= k < i + 1 && (#[trigger] members@[k]).0@ == name by {
                    if name == members@[i as int].0@ {
                        assert(members@[i as int].0@ == name);
                    } else {
                        assert(before.dom().contains(name));
                    }
                }
                i = i + 1;
            }
            assert(object_tree(out@) =~= value_tree(*value)->Object_0);
            Json::Object(out)
        },
    }
}

/// The parsed form of a JSON text, or the parser's message.
pub fn parse_json(text: &str) -> (r: Result<Json, String>)
    ensures
        match r {
            Ok(json) => parsed_text(text@) == Ok::<JsonTree, Seq<char>>(json.view()),
            Err(message) => parsed_text(text@) == Err::<JsonTree, Seq<char>>(message@),
        },
{
    match parse_text(text) {
        Ok(value) => Ok(plain_json(&value)),
        Err(message) => Err(message),
    }
}

/// The parsed form of JSON bytes, or the parser's message.
pub fn parse_json_bytes(bytes: &Vec<u8>) -> (r: Result<Json, String>)
    ensures
        match r {
            Ok(json) => parsed_bytes(bytes@) == Ok::<JsonTree, Seq<char>>(json.view()),
            Err(message) => parsed_bytes(bytes@) == Err::<JsonTree, Seq<char>>(message@),
        },
{
    match parse_bytes(bytes) {
        Ok(value) => Ok(plain_json(&value)),
        Err(message) => Err(message),
    }
}

} // verus!
