//! Decoded payloads as loosely typed trees.
use crate::text::text_eq;
use vstd::prelude::*;

verus! {

/// A decoded payload: what a tree holds, as a mathematical value.
pub enum JsonValue {
    Null,
    Bool(bool),
    Unsigned(u64),
    Signed(i64),
    Real(Seq<char>),
    Text(Seq<char>),
    Array(Seq<JsonValue>),
    Object(Seq<(Seq<char>, JsonValue)>),
}

/// A decoded payload.
///
/// A number is kept as an unsigned integer where it is one, as a signed
/// integer where it is a negative one, and by its text otherwise. The members
/// of an object are kept in the order in which the decoder hands them out.
#[derive(Debug, PartialEq, Eq)]
pub enum Json {
    Null,
    Bool(bool),
    Unsigned(u64),
    Signed(i64),
    Real(String),
    Text(String),
    Array(Vec<Json>),
    Object(Vec<(String, Json)>),
}

/// What a tree holds.
pub open spec fn tree_value(tree: Json) -> JsonValue
    decreases tree,
{
    match tree {
        Json::Null => JsonValue::Null,
        Json::Bool(b) => JsonValue::Bool(b),
        Json::Unsigned(n) => JsonValue::Unsigned(n),
        Json::Signed(n) => JsonValue::Signed(n),
        Json::Real(text) => JsonValue::Real(text@),
        Json::Text(text) => JsonValue::Text(text@),
        Json::Array(items) => JsonValue::Array(
            Seq::new(
                items@.len(),
                |i: int|
                    if 0 <= i < items@.len() {
                        tree_value(items@[i])
                    } else {
                        JsonValue::Null
                    },
            ),
        ),
        Json::Object(members) => JsonValue::Object(
            Seq::new(
                members@.len(),
                |i: int|
                    if 0 <= i < members@.len() {
                        (members@[i].0@, tree_value(members@[i].1))
                    } else {
                        (Seq::empty(), JsonValue::Null)
                    },
            ),
        ),
    }
}

impl View for Json {
    type V = JsonValue;

    open spec fn view(&self) -> JsonValue {
        tree_value(*self)
    }
}

/// The value of the first member of `members` whose key is `key`.
pub open spec fn lookup(members: Seq<(Seq<char>, JsonValue)>, key: Seq<char>) -> Option<JsonValue>
    decreases members.len(),
{
    if members.len() == 0 {
        None
    } else if members[0].0 == key {
        Some(members[0].1)
    } else {
        lookup(members.subrange(1, members.len() as int), key)
    }
}

impl JsonValue {
    /// The member of an object under `key`; nothing for any other value.
    pub open spec fn member(self, key: Seq<char>) -> Option<JsonValue> {
        match self {
            JsonValue::Object(members) => lookup(members, key),
            _ => None,
        }
    }

    /// The text of a string value.
    pub open spec fn text(self) -> Option<Seq<char>> {
        match self {
            JsonValue::Text(text) => Some(text),
            _ => None,
        }
    }

    /// The number of an unsigned integer value.
    pub open spec fn unsigned(self) -> Option<u64> {
        match self {
            JsonValue::Unsigned(n) => Some(n),
            _ => None,
        }
    }

    /// The truth value of a boolean value.
    pub open spec fn boolean(self) -> Option<bool> {
        match self {
            JsonValue::Bool(b) => Some(b),
            _ => None,
        }
    }

    /// The members of an object.
    pub open spec fn members(self) -> Option<Seq<(Seq<char>, JsonValue)>> {
        match self {
            JsonValue::Object(members) => Some(members),
            _ => None,
        }
    }
}

/// The members of an object as a mathematical value.
pub open spec fn members_view(members: Seq<(String, Json)>) -> Seq<(Seq<char>, JsonValue)> {
    Seq::new(members.len(), |i: int| (members[i].0@, members[i].1@))
}

/// The items of an array as a mathematical value.
pub open spec fn items_view(items: Seq<Json>) -> Seq<JsonValue> {
    Seq::new(items.len(), |i: int| items[i]@)
}

/// An object's view is the view of its members.
pub proof fn lemma_object_view(members: Vec<(String, Json)>)
    ensures
        Json::Object(members)@ == JsonValue::Object(members_view(members@)),
{
    let o = Json::Object(members);
    assert(o.view() is Object);
    let m = o.view()->Object_0;
    assert(m.len() == members@.len());
    assert forall|i: int| 0 <= i < m.len() implies m[i] == members_view(members@)[i] by {}
    assert(m =~= members_view(members@));
}

/// An array's view is the view of its items.
pub proof fn lemma_array_view(items: Vec<Json>)
    ensures
        Json::Array(items)@ == JsonValue::Array(items_view(items@)),
{
    let a = Json::Array(items);
    assert(a.view() is Array);
    let m = a.view()->Array_0;
    assert(m =~= items_view(items@));
}

/// The member under `key` among `members`, by the first key that matches.
pub fn find_member<'a>(members: &'a Vec<(String, Json)>, key: &str) -> (found: Option<&'a Json>)
    ensures
        match found {
            Some(value) => lookup(members_view(members@), key@) == Some(value@),
            None => lookup(members_view(members@), key@) is None,
        },
{
    let ghost all = members_view(members@);
    let mut i: usize = 0;
    assert(all.subrange(0, all.len() as int) =~= all);
    while i < members.len()
        invariant
            i <= members.len(),
            all == members_view(members@),
            lookup(all, key@) == lookup(all.subrange(i as int, all.len() as int), key@),
        decreases members.len() - i,
    {
        let ghost rest = all.subrange(i as int, all.len() as int);
        assert(rest[0] == all[i as int]);
        if text_eq(members[i].0.as_str(), key) {
            return Some(&members[i].1);
        }
        assert(rest.subrange(1, rest.len() as int) =~= all.subrange(i + 1, all.len() as int));
        i += 1;
    }
    None
}

impl Json {
    /// The member of an object under `key`.
    pub fn get(&self, key: &str) -> (found: Option<&Json>)
        ensures
            match found {
                Some(value) => self@.member(key@) == Some(value@),
                None => self@.member(key@) is None,
            },
    {
        match self {
            Json::Object(members) => {
                proof {
                    lemma_object_view(*members);
                }
                find_member(members, key)
            },
            _ => None,
        }
    }

    /// The truth value, where the tree is a boolean.
    pub fn as_bool(&self) -> (value: Option<bool>)
        ensures
            value == self@.boolean(),
    {
        match self {
            Json::Bool(b) => Some(*b),
            _ => None,
        }
    }

    /// The number, where the tree is an unsigned integer.
    pub fn as_u64(&self) -> (value: Option<u64>)
        ensures
            value == self@.unsigned(),
    {
        match self {
            Json::Unsigned(n) => Some(*n),
            _ => None,
        }
    }

    /// The text, where the tree is a string.
    pub fn as_str(&self) -> (value: Option<&str>)
        ensures
            match value {
                Some(text) => self@.text() == Some(text@),
                None => self@.text() is None,
            },
    {
        match self {
            Json::Text(text) => Some(text.as_str()),
            _ => None,
        }
    }

    /// The members, where the tree is an object.
    pub fn as_object(&self) -> (value: Option<&Vec<(String, Json)>>)
        ensures
            match value {
                Some(members) => self@.members() == Some(members_view(members@)),
                None => self@.members() is None,
            },
    {
        match self {
            Json::Object(members) => {
                proof {
                    lemma_object_view(*members);
                }
                Some(members)
            },
            _ => None,
        }
    }
}

impl Clone for Json {
    /// A copy that holds the same value.
    fn clone(&self) -> (copy: Json)
        ensures
            copy@ == self@,
        decreases self,
    {
        match self {
            Json::Null => Json::Null,
            Json::Bool(b) => Json::Bool(*b),
            Json::Unsigned(n) => Json::Unsigned(*n),
            Json::Signed(n) => Json::Signed(*n),
            Json::Real(text) => Json::Real(text.clone()),
            Json::Text(text) => Json::Text(text.clone()),
            Json::Array(items) => {
                let mut copies: Vec<Json> = Vec::new();
                let mut i: usize = 0;
                while i < items.len()
                    invariant
                        i <= items.len(),
                        copies.len() == i,
                        self == Json::Array(*items),
                        forall|k: int| 0 <= k < i ==> copies@[k]@ == items@[k]@,
                    decreases items.len() - i,
                {
                    assert(self->Array_0 == *items);
                    let copy = items[i].clone();
                    copies.push(copy);
                    i += 1;
                }
                proof {
                    lemma_array_view(*items);
                    lemma_array_view(copies);
                    assert(items_view(copies@) =~= items_view(items@));
                }
                Json::Array(copies)
            },
            Json::Object(members) => {
                let mut copies: Vec<(String, Json)> = Vec::new();
                let mut i: usize = 0;
                while i < members.len()
                    invariant
                        i <= members.len(),
                        copies.len() == i,
                        self == Json::Object(*members),
                        forall|k: int|
                            0 <= k < i ==> copies@[k].0@ == members@[k].0@ && copies@[k].1@
                                == members@[k].1@,
                    decreases members.len() - i,
                {
                    let key = members[i].0.clone();
                    assert(self->Object_0 == *members);
                    let value = members[i].1.clone();
                    copies.push((key, value));
                    i += 1;
                }
                proof {
                    lemma_object_view(*members);
                    lemma_object_view(copies);
                    assert(members_view(copies@) =~= members_view(members@));
                }
                Json::Object(copies)
            },
        }
    }
}

/// The text under `key` among the members of an object.
pub open spec fn text_member(members: Seq<(Seq<char>, JsonValue)>, key: Seq<char>) -> Option<
    Seq<char>,
> {
    match lookup(members, key) {
        Some(value) => value.text(),
        None => None,
    }
}

/// The unsigned integer under `key` among the members of an object.
pub open spec fn unsigned_member(members: Seq<(Seq<char>, JsonValue)>, key: Seq<char>) -> Option<
    u64,
> {
    match lookup(members, key) {
        Some(value) => value.unsigned(),
        None => None,
    }
}

/// The text under `key` among `members`.
pub fn text_of(members: &Vec<(String, Json)>, key: &str) -> (text: Option<String>)
    ensures
        match text {
            Some(t) => text_member(members_view(members@), key@) == Some(t@),
            None => text_member(members_view(members@), key@) is None,
        },
{
    match find_member(members, key) {
        Some(value) => match value.as_str() {
            Some(text) => Some(text.to_owned()),
            None => None,
        },
        None => None,
    }
}

/// The unsigned integer under `key` among `members`.
pub fn unsigned_of(members: &Vec<(String, Json)>, key: &str) -> (number: Option<u64>)
    ensures
        number == unsigned_member(members_view(members@), key@),
{
    match find_member(members, key) {
        Some(value) => value.as_u64(),
        None => None,
    }
}

/// The decoder's tree type.
#[verifier::external_type_specification]
#[verifier::external_body]
pub struct ExValue(serde_json::Value);

/// What `serde_json::from_slice` makes of a body: the tree it decodes to, or
/// the text of the error it reports.
pub uninterp spec fn json_decoding(body: Seq<u8>) -> Result<JsonValue, Seq<char>>;

/// What a `serde_json::Value` holds.
pub uninterp spec fn value_tree(value: serde_json::Value) -> JsonValue;

/// Calls `serde_json::from_slice` for a `serde_json::Value`, and `to_string`
/// on the error where it fails.
///
/// The decoder reads nothing but the bytes, so its outcome is the decoding of
/// the body: the value's tree, or the error's text.
#[verifier::external_body]
fn parse_value(body: &[u8]) -> (parsed: Result<serde_json::Value, String>)
    ensures
        match parsed {
            Ok(value) => json_decoding(body@) == Ok::<JsonValue, Seq<char>>(value_tree(value)),
            Err(text) => json_decoding(body@) == Err::<JsonValue, Seq<char>>(text@),
        },
{
    serde_json::from_slice(body).map_err(|error: serde_json::Error| error.to_string())
}

/// Moves a `serde_json::Value` into a tree, variant by variant.
///
/// A number goes by `Number::as_u64`, then `Number::as_i64`, then its text;
/// the members of an object come in the order in which the map hands them out.
#[verifier::external_body]
fn tree_of(value: serde_json::Value) -> (tree: Json)
    ensures
        tree@ == value_tree(value),
{
    match value {
        serde_json::Value::Null => Json::Null,
        serde_json::Value::Bool(b) => Json::Bool(b),
        serde_json::Value::Number(n) => match (n.as_u64(), n.as_i64()) {
            (Some(u), _) => Json::Unsigned(u),
            (_, Some(i)) => Json::Signed(i),
            _ => Json::Real(n.to_string()),
        },
        serde_json::Value::String(s) => Json::Text(s),
        serde_json::Value::Array(a) => Json::Array(a.into_iter().map(tree_of).collect()),
        serde_json::Value::Object(m) => Json::Object(
            m.into_iter().map(|(k, v)| (k, tree_of(v))).collect(),
        ),
    }
}

/// Why a body could not be decoded.
#[derive(Debug, PartialEq, Eq)]
pub struct ParseError {
    pub message: String,
}

impl View for ParseError {
    type V = Seq<char>;

    open spec fn view(&self) -> Seq<char> {
        self.message@
    }
}

/// Decodes a body into a tree.
pub fn decode(body: &[u8]) -> (outcome: Result<Json, ParseError>)
    ensures
        match outcome {
            Ok(tree) => json_decoding(body@) == Ok::<JsonValue, Seq<char>>(tree@),
            Err(error) => json_decoding(body@) == Err::<JsonValue, Seq<char>>(error@),
        },
{
    match parse_value(body) {
        Ok(value) => Ok(tree_of(value)),
        Err(message) => Err(ParseError { message }),
    }
}

} // verus!
