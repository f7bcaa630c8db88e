//! JSON documents as plain values, and the reader that makes them from text.

use vstd::prelude::*;
use vstd::string::*;
use crate::text::same_text;

verus! {

/// A JSON document.
#[derive(Debug, PartialEq, Eq)]
pub enum Json {
    Null,
    Bool(bool),
    /// A number; it holds the number's value where that is an integer that
    /// fits into `i64`.
    Number(Option<i64>),
    Text(String),
    Array(Vec<Json>),
    /// An object: its entries in order. What is read from a text holds each
    /// key once.
    Object(Vec<(String, Json)>),
}

/// What a `Json` holds, as mathematical values.
pub enum JsonValue {
    Null,
    Bool(bool),
    Number(Option<i64>),
    Text(Seq<char>),
    Array(Seq<JsonValue>),
    Object(Seq<(Seq<char>, JsonValue)>),
}

impl Json {
    /// What the document holds.
    pub open spec fn value(self) -> JsonValue
        decreases self,
    {
        match self {
            Json::Null => JsonValue::Null,
            Json::Bool(b) => JsonValue::Bool(b),
            Json::Number(n) => JsonValue::Number(n),
            Json::Text(s) => JsonValue::Text(s@),
            Json::Array(items) => JsonValue::Array(
                Seq::new(
                    items@.len(),
                    |i: int|
                        if 0 <= i < items@.len() {
                            items@[i].value()
                        } else {
                            JsonValue::Null
                        },
                ),
            ),
            Json::Object(entries) => JsonValue::Object(
                Seq::new(
                    entries@.len(),
                    |i: int|
                        if 0 <= i < entries@.len() {
                            (entries@[i].0@, entries@[i].1.value())
                        } else {
                            (Seq::empty(), JsonValue::Null)
                        },
                ),
            ),
        }
    }
}

impl DeepView for Json {
    type V = JsonValue;

    open spec fn deep_view(&self) -> JsonValue {
        self.value()
    }
}

/// The value under a key in a list of entries: that of the first entry with
/// that key.
pub open spec fn lookup<V>(entries: Seq<(Seq<char>, V)>, key: Seq<char>) -> Option<V>
    decreases entries.len(),
{
    if entries.len() == 0 {
        None
    } else if entries[0].0 == key {
        Some(entries[0].1)
    } else {
        lookup(entries.drop_first(), key)
    }
}

impl JsonValue {
    /// The member of an object under a key; `None` for any other value.
    pub open spec fn field(self, key: Seq<char>) -> Option<JsonValue> {
        match self {
            JsonValue::Object(entries) => lookup(entries, key),
            _ => None,
        }
    }

    /// The characters of a string value.
    pub open spec fn text(self) -> Option<Seq<char>> {
        match self {
            JsonValue::Text(s) => Some(s),
            _ => None,
        }
    }

    /// The value of a number that is an integer of 32 bits.
    pub open spec fn int32(self) -> Option<i32> {
        match self {
            JsonValue::Number(Some(n)) => if -0x8000_0000 <= n <= 0x7fff_ffff {
                Some(n as i32)
            } else {
                None
            },
            _ => None,
        }
    }

    /// The items of an array.
    pub open spec fn items(self) -> Option<Seq<JsonValue>> {
        match self {
            JsonValue::Array(items) => Some(items),
            _ => None,
        }
    }

    /// The entries of an object.
    pub open spec fn members(self) -> Option<Seq<(Seq<char>, JsonValue)>> {
        match self {
            JsonValue::Object(entries) => Some(entries),
            _ => None,
        }
    }
}

impl Json {
    /// The member of an object under `key`.
    pub fn field(&self, key: &str) -> (r: Option<&Json>)
        ensures
            r.deep_view() == self.deep_view().field(key@),
    {
        match self {
            Json::Object(entries) => {
                let ghost all = self.deep_view().members().unwrap();
                let mut i: usize = 0;
                assert(all.skip(0) =~= all);
                while i < entries.len()
                    invariant
                        i <= entries@.len(),
                        all.len() == entries@.len(),
                        self.deep_view().field(key@) == lookup(all, key@),
                        forall|k: int|
                            0 <= k < entries@.len() ==> #[trigger] all[k] == (
                                entries@[k].0@,
                                entries@[k].1.deep_view(),
                            ),
                        lookup(all, key@) == lookup(all.skip(i as int), key@),
                    decreases entries@.len() - i,
                {
                    if same_text(entries[i].0.as_str(), key) {
                        assert(all.skip(i as int)[0] == all[i as int]);
                        assert(lookup(all.skip(i as int), key@) == Some(all[i as int].1));
                        return Some(&entries[i].1);
                    }
                    proof {
                        assert(all.skip(i as int)[0] == all[i as int]);
                        assert(all.skip(i as int).drop_first() =~= all.skip(i + 1));
                    }
                    i += 1;
                }
                None
            },
            _ => None,
        }
    }

    /// The text of a string value.
    pub fn as_text(&self) -> (r: Option<&String>)
        ensures
            r.deep_view() == self.deep_view().text(),
    {
        match self {
            Json::Text(s) => Some(s),
            _ => None,
        }
    }

    /// The value of a number that is an integer of 32 bits.
    pub fn as_i32(&self) -> (r: Option<i32>)
        ensures
            r == self.deep_view().int32(),
    {
        match self {
            Json::Number(Some(n)) => if -0x8000_0000 <= *n && *n <= 0x7fff_ffff {
                Some(*n as i32)
            } else {
                None
            },
            _ => None,
        }
    }

    /// The items of an array.
    pub fn as_array(&self) -> (r: Option<&Vec<Json>>)
        ensures
            r.deep_view() == self.deep_view().items(),
    {
        match self {
            Json::Array(items) => {
                assert(items.deep_view() =~= self.deep_view().items().unwrap());
                Some(items)
            },
            _ => None,
        }
    }

    /// The entries of an object.
    pub fn as_object(&self) -> (r: Option<&Vec<(String, Json)>>)
        ensures
            r.deep_view() == self.deep_view().members(),
    {
        match self {
            Json::Object(entries) => {
                assert(entries.deep_view() =~= self.deep_view().members().unwrap());
                Some(entries)
            },
            _ => None,
        }
    }

    /// Whether the value is `null`.
    pub fn is_null(&self) -> (r: bool)
        ensures
            r == (self.deep_view() == JsonValue::Null),
    {
        match self {
            Json::Null => true,
            _ => false,
        }
    }
}

/// `serde_json::Value`: a document as the outside reader holds it. Nothing of
/// its inside is known here; it is copied into a `Json` before it is read.
#[verifier::external_type_specification]
#[verifier::external_body]
pub struct ExValue(serde_json::Value);

/// `serde_json::Error`: what the outside reader reports of a text that is no
/// JSON. Nothing is read of it.
#[verifier::external_type_specification]
#[verifier::external_body]
pub struct ExError(serde_json::Error);

/// The document that `serde_json::from_str` reads from a text as a
/// `serde_json::Value`, or `None` where it reports an error. Which texts are
/// JSON, and what they hold, is the outside reader's affair: nothing is said
/// of it here but that the same text always reads the same.
pub uninterp spec fn json_document(text: Seq<char>) -> Option<JsonValue>;

/// What a `serde_json::Value` holds, variant for variant: of a number what
/// `Number::as_i64` gives, of an array its items in order, of an object its
/// entries in the order in which `Map::iter` hands them out.
pub uninterp spec fn value_content(v: serde_json::Value) -> JsonValue;

/// Calls `serde_json::from_str` for a `serde_json::Value`. It never panics;
/// the same text always gives the same outcome, which `json_document` names.
/// Not proved: it stands for the outside reader.
#[verifier::external_body]
fn read_value(text: &str) -> (r: Result<serde_json::Value, serde_json::Error>)
    ensures
        match r {
            Ok(v) => json_document(text@) == Some(value_content(v)),
            Err(_) => json_document(text@) is None,
        },
{
    serde_json::from_str::<serde_json::Value>(text)
}

/// Copies a `serde_json::Value` into a `Json`, variant by variant, with
/// `Number::as_i64` for a number and `Map::iter` for an object's entries.
/// Not proved: what comes out is what `value_content` names.
#[verifier::external_body]
fn json_from_value(v: &serde_json::Value) -> (j: Json)
    ensures
        j.deep_view() == value_content(*v),
{
    match v {
        serde_json::Value::Null => Json::Null,
        serde_json::Value::Bool(b) => Json::Bool(*b),
        serde_json::Value::Number(n) => Json::Number(n.as_i64()),
        serde_json::Value::String(s) => Json::Text(s.clone()),
        serde_json::Value::Array(a) => Json::Array(a.iter().map(json_from_value).collect()),
        serde_json::Value::Object(m) => Json::Object(
            m.iter().map(|(k, x)| (k.clone(), json_from_value(x))).collect(),
        ),
    }
}

/// Reads a text as a JSON document; `None` where the text is not JSON.
pub fn parse_json(text: &str) -> (r: Option<Json>)
    ensures
        r.deep_view() == json_document(text@),
{
    match read_value(text) {
        Ok(v) => Some(json_from_value(&v)),
        Err(_) => None,
    }
}

} // verus!
