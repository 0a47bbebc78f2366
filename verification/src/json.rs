//! JSON documents as a plain tree, read from text by `serde_json`.

use vstd::prelude::*;

verus! {

/// A JSON value. A number keeps the text that `serde_json` writes for it; the
/// members of an object come in the order in which `serde_json` walks them.
#[derive(Debug)]
pub enum Json {
    Null,
    Bool(bool),
    Number(String),
    Text(String),
    Array(Vec<Json>),
    Object(Vec<(String, Json)>),
}

/// What `serde_json::from_str` makes of a text: the document, or the message of
/// its error.
pub uninterp spec fn json_of_text(text: Seq<char>) -> Result<Json, String>;

/// `serde_json::Value`, which is copied into a `Json` and never looked into.
#[verifier::external_type_specification]
#[verifier::external_body]
pub struct ExJsonValue(serde_json::Value);

/// Copies a `serde_json::Value` into a `Json`, variant by variant.
#[verifier::external_body]
fn json_of_value(v: &serde_json::Value) -> Json {
    match v {
        serde_json::Value::Null => Json::Null,
        serde_json::Value::Bool(b) => Json::Bool(*b),
        serde_json::Value::Number(n) => Json::Number(n.to_string()),
        serde_json::Value::String(s) => Json::Text(s.clone()),
        serde_json::Value::Array(a) => Json::Array(a.iter().map(json_of_value).collect()),
        serde_json::Value::Object(m) => {
            Json::Object(m.iter().map(|(k, v)| (k.clone(), json_of_value(v))).collect())
        },
    }
}

/// `serde_json::from_str::<serde_json::Value>`, with the document copied into a
/// `Json` and an error replaced by its message.
#[verifier::external_body]
fn read_json(text: &str) -> (r: Result<Json, String>)
    ensures
        r == json_of_text(text@),
{
    match serde_json::from_str::<serde_json::Value>(text) {
        Ok(v) => Ok(json_of_value(&v)),
        Err(e) => Err(e.to_string()),
    }
}

/// What `serde_json::from_str` makes of a text that is to be an array of
/// documents: the items, or the message of its error.
pub uninterp spec fn json_rows_of_text(text: Seq<char>) -> Result<Vec<Json>, String>;

/// `serde_json::from_str::<Vec<serde_json::Value>>`, with each item copied into
/// a `Json` and an error replaced by its message.
#[verifier::external_body]
fn read_json_rows(text: &str) -> (r: Result<Vec<Json>, String>)
    ensures
        r == json_rows_of_text(text@),
{
    match serde_json::from_str::<Vec<serde_json::Value>>(text) {
        Ok(rows) => Ok(rows.iter().map(json_of_value).collect()),
        Err(e) => Err(e.to_string()),
    }
}

/// Reads an array of documents from text.
pub fn parse_rows(text: &str) -> (r: Result<Vec<Json>, String>)
    ensures
        r == json_rows_of_text(text@),
{
    read_json_rows(text)
}

/// The value of the first member named `key`.
pub open spec fn find_member(members: Seq<(String, Json)>, key: Seq<char>) -> Option<Json>
    decreases members.len(),
{
    if members.len() == 0 {
        None
    } else if members[0].0@ == key {
        Some(members[0].1)
    } else {
        find_member(members.drop_first(), key)
    }
}

impl Json {
    /// The member `key` of an object; nothing for other values.
    pub open spec fn member(self, key: Seq<char>) -> Option<Json> {
        match self {
            Json::Object(members) => find_member(members@, key),
            _ => None,
        }
    }

    /// The characters of a string value; nothing for other values.
    pub open spec fn text(self) -> Option<Seq<char>> {
        match self {
            Json::Text(s) => Some(s@),
            _ => None,
        }
    }

    /// The items of an array; nothing for other values.
    pub open spec fn items(self) -> Option<Seq<Json>> {
        match self {
            Json::Array(items) => Some(items@),
            _ => None,
        }
    }

    /// The text of the member `key`, where it exists and is a string.
    pub open spec fn member_text(self, key: Seq<char>) -> Option<Seq<char>> {
        match self.member(key) {
            Some(v) => v.text(),
            None => None,
        }
    }

    /// Reads a document from text.
    pub fn parse(text: &str) -> (r: Result<Json, String>)
        ensures
            r == json_of_text(text@),
    {
        read_json(text)
    }

    /// The member `key` of an object.
    pub fn get(&self, key: &str) -> (r: Option<&Json>)
        ensures
            match r {
                Some(v) => self.member(key@) == Some(*v),
                None => self.member(key@) is None,
            },
    {
        match self {
            Json::Object(members) => {
                let mut i: usize = 0;
                assert(members@.skip(0) == members@);
                while i < members.len()
                    invariant
                        i <= members.len(),
                        self.member(key@) == find_member(members@, key@),
                        find_member(members@, key@) == find_member(members@.skip(i as int), key@),
                    decreases members.len() - i,
                {
                    if crate::text::same_text(members[i].0.as_str(), key) {
                        return Some(&members[i].1);
                    }
                    assert(members@.skip(i as int).drop_first() == members@.skip(i + 1));
                    i += 1;
                }
                None
            },
            _ => None,
        }
    }

    /// The characters of a string value.
    pub fn as_str(&self) -> (r: Option<&str>)
        ensures
            match r {
                Some(s) => self.text() == Some(s@),
                None => self.text() is None,
            },
    {
        match self {
            Json::Text(s) => Some(s.as_str()),
            _ => None,
        }
    }

    /// The items of an array.
    pub fn as_array(&self) -> (r: Option<&Vec<Json>>)
        ensures
            match r {
                Some(items) => self.items() == Some(items@),
                None => self.items() is None,
            },
    {
        match self {
            Json::Array(items) => Some(items),
            _ => None,
        }
    }

    /// The text of the member `key`, where it exists and is a string.
    pub fn get_str(&self, key: &str) -> (r: Option<&str>)
        ensures
            match r {
                Some(s) => self.member_text(key@) == Some(s@),
                None => self.member_text(key@) is None,
            },
    {
        match self.get(key) {
            Some(v) => v.as_str(),
            None => None,
        }
    }
}

} // verus!
