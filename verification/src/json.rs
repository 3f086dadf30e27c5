//! JSON documents as this library reads them.

use vstd::prelude::*;

verus! {

/// `serde_json::Value`, a JSON document in memory. Nothing is known of what a
/// value holds but through [`value_tree`].
#[verifier::external_type_specification]
#[verifier::external_body]
pub struct ExValue(serde_json::Value);

/// A JSON document as a mathematical tree.
pub ghost enum JsonTree {
    Null,
    Bool(bool),
    /// A number: `Some(n)` where it is a whole number from 0 to 2^64 - 1,
    /// `None` for any other.
    Number(Option<u64>),
    Text(Seq<char>),
    Array(Seq<JsonTree>),
    /// The members of an object, each a key with its value.
    Object(Seq<(Seq<char>, JsonTree)>),
}

/// The value of the first of `members` whose key is `key`, if there is one.
pub open spec fn lookup(members: Seq<(Seq<char>, JsonTree)>, key: Seq<char>) -> Option<JsonTree>
    decreases members.len(),
{
    if members.len() == 0 {
        None
    } else if members[0].0 == key {
        Some(members[0].1)
    } else {
        lookup(members.drop_first(), key)
    }
}

impl JsonTree {
    /// The member `key` of an object. `None` where the tree is no object or
    /// the object has no such member.
    pub open spec fn member(self, key: Seq<char>) -> Option<JsonTree> {
        match self {
            JsonTree::Object(members) => lookup(members, key),
            _ => None,
        }
    }

    /// The text of the member `key`. `None` where there is no such member or
    /// it is no text.
    pub open spec fn text_member(self, key: Seq<char>) -> Option<Seq<char>> {
        match self.member(key) {
            Some(JsonTree::Text(text)) => Some(text),
            _ => None,
        }
    }

    /// The number of the member `key`. `None` where there is no such member or
    /// it is no whole number from 0 to 2^64 - 1.
    pub open spec fn number_member(self, key: Seq<char>) -> Option<u64> {
        match self.member(key) {
            Some(JsonTree::Number(Some(n))) => Some(n),
            _ => None,
        }
    }
}

/// A JSON document.
#[derive(Debug, PartialEq, Eq)]
pub enum Json {
    Null,
    Bool(bool),
    /// A number: `Some(n)` where it is a whole number from 0 to 2^64 - 1,
    /// `None` for any other.
    Number(Option<u64>),
    Text(String),
    Array(Vec<Json>),
    /// The members of an object, each a key with its value.
    Object(Vec<(String, Json)>),
}

impl View for Json {
    type V = JsonTree;

    open spec fn view(&self) -> JsonTree {
        tree(*self)
    }
}

/// The tree of a document.
pub open spec fn tree(json: Json) -> JsonTree
    decreases json,
{
    match json {
        Json::Null => JsonTree::Null,
        Json::Bool(b) => JsonTree::Bool(b),
        Json::Number(n) => JsonTree::Number(n),
        Json::Text(s) => JsonTree::Text(s@),
        Json::Array(items) => JsonTree::Array(
            Seq::new(
                items.len() as nat,
                |i: int|
                    if 0 <= i < items.len() {
                        tree(items[i])
                    } else {
                        JsonTree::Null
                    },
            ),
        ),
        Json::Object(members) => JsonTree::Object(
            Seq::new(
                members.len() as nat,
                |i: int|
                    if 0 <= i < members.len() {
                        (members[i].0@, tree(members[i].1))
                    } else {
                        (Seq::empty(), JsonTree::Null)
                    },
            ),
        ),
    }
}

/// The tree that a `serde_json::Value` holds: each variant by its own name,
/// a number by what `Number::as_u64` gives for it, an object by its members
/// in the order in which the map hands them out.
pub uninterp spec fn value_tree(value: serde_json::Value) -> JsonTree;

/// What `serde_json::from_str` reads from a text: the tree of the value it
/// returns, or `None` where it returns an error.
pub uninterp spec fn json_document(text: Seq<char>) -> Option<JsonTree>;

/// `serde_json::from_str`, asked for a `serde_json::Value`; why a text was
/// refused is dropped. The contract names the result: the text is a document
/// exactly when the call returns a value, and the document is that value's
/// tree.
#[verifier::external_body]
fn value_from_text(text: &str) -> (r: Option<serde_json::Value>)
    ensures
        match r {
            Some(value) => json_document(text@) == Some(value_tree(value)),
            None => json_document(text@) is None,
        },
{
    serde_json::from_str::<serde_json::Value>(text).ok()
}

/// Moves a `serde_json::Value` into a [`Json`], variant by variant; a number
/// goes through `Number::as_u64`. The result's view is the value's tree.
#[verifier::external_body]
fn json_from_value(value: serde_json::Value) -> (json: Json)
    ensures
        json@ == value_tree(value),
{
    match value {
        serde_json::Value::Null => Json::Null,
        serde_json::Value::Bool(b) => Json::Bool(b),
        serde_json::Value::Number(n) => Json::Number(n.as_u64()),
        serde_json::Value::String(s) => Json::Text(s),
        serde_json::Value::Array(a) => Json::Array(a.into_iter().map(json_from_value).collect()),
        serde_json::Value::Object(m) => Json::Object(
            m.into_iter().map(|(k, v)| (k, json_from_value(v))).collect(),
        ),
    }
}

impl Json {
    /// Reads a JSON text. `None` where the text is no JSON document.
    pub fn parse(text: &str) -> (r: Option<Json>)
        ensures
            match r {
                Some(json) => json_document(text@) == Some(json@),
                None => json_document(text@) is None,
            },
    {
        match value_from_text(text) {
            Some(value) => Some(json_from_value(value)),
            None => None,
        }
    }

    /// The member `key` of an object: of several with that key, the first.
    pub fn member(&self, key: &str) -> (r: Option<&Json>)
        ensures
            match r {
                Some(json) => self@.member(key@) == Some(json@),
                None => self@.member(key@) is None,
            },
    {
        match self {
            Json::Object(members) => {
                let wanted = key.to_owned();
                let ghost all = self@->Object_0;
                assert(all.subrange(0, all.len() as int) == all);
                let mut i: usize = 0;
                while i < members.len()
                    invariant
                        i <= members.len(),
                        wanted@ == key@,
                        self@ == JsonTree::Object(all),
                        all.len() == members.len(),
                        forall|k: int|
                            0 <= k < members.len() ==> all[k] == (
                                (#[trigger] members[k]).0@,
                                members[k].1@,
                            ),
                        lookup(all, key@) == lookup(all.subrange(i as int, all.len() as int), key@),
                    decreases members.len() - i,
                {
                    let ghost rest = all.subrange(i as int, all.len() as int);
                    assert(rest.drop_first() == all.subrange(i + 1, all.len() as int));
                    if members[i].0 == wanted {
                        return Some(&members[i].1);
                    }
                    i = i + 1;
                }
                None
            },
            _ => None,
        }
    }

    /// The text of the member `key`.
    pub fn text_member(&self, key: &str) -> (r: Option<&String>)
        ensures
            match r {
                Some(text) => self@.text_member(key@) == Some(text@),
                None => self@.text_member(key@) is None,
            },
    {
        match self.member(key) {
            Some(Json::Text(text)) => Some(text),
            _ => None,
        }
    }

    /// The number of the member `key`.
    pub fn number_member(&self, key: &str) -> (r: Option<u64>)
        ensures
            r == self@.number_member(key@),
    {
        match self.member(key) {
            Some(Json::Number(Some(n))) => Some(*n),
            _ => None,
        }
    }
}

} // verus!
