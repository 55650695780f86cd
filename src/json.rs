//! A generic JSON tree, held as plain values, and its mathematical model.

use vstd::prelude::*;
use vstd::string::*;
use serde_json::Value;

verus! {

broadcast use vstd::std_specs::vec::axiom_vec_index_decreases;

/// A parsed JSON value.
///
/// A non-negative integer that fits in a `u64` is `Unsigned`; any other
/// number keeps its text in `OtherNumber`. An object keeps its entries in
/// the order the parser gave them.
#[derive(Debug, PartialEq, Eq)]
pub enum Json {
    Null,
    Bool(bool),
    Unsigned(u64),
    OtherNumber(String),
    Str(String),
    Array(Vec<Json>),
    Object(Vec<(String, Json)>),
}

/// The model of a `Json` value: strings become character sequences and
/// vectors become sequences.
pub ghost enum JsonModel {
    Null,
    Bool(bool),
    Unsigned(u64),
    OtherNumber(Seq<char>),
    Str(Seq<char>),
    Array(Seq<JsonModel>),
    Object(Seq<(Seq<char>, JsonModel)>),
}

/// The model of a `Json` value, item by item and entry by entry.
pub open spec fn json_view(j: Json) -> JsonModel
    decreases j,
{
    match j {
        Json::Null => JsonModel::Null,
        Json::Bool(b) => JsonModel::Bool(b),
        Json::Unsigned(n) => JsonModel::Unsigned(n),
        Json::OtherNumber(s) => JsonModel::OtherNumber(s@),
        Json::Str(s) => JsonModel::Str(s@),
        Json::Array(v) => JsonModel::Array(
            Seq::new(
                v.len() as nat,
                |i: int|
                    if 0 <= i < v.len() {
                        json_view(v[i])
                    } else {
                        JsonModel::Null
                    },
            ),
        ),
        Json::Object(v) => JsonModel::Object(
            Seq::new(
                v.len() as nat,
                |i: int|
                    if 0 <= i < v.len() {
                        (v[i].0@, json_view(v[i].1))
                    } else {
                        (Seq::empty(), JsonModel::Null)
                    },
            ),
        ),
    }
}

impl View for Json {
    type V = JsonModel;

    open spec fn view(&self) -> JsonModel {
        json_view(*self)
    }
}

/// The value stored under `key` in an object's entries: the first entry
/// with that key, if any.
pub open spec fn lookup(entries: Seq<(Seq<char>, JsonModel)>, key: Seq<char>) -> Option<JsonModel>
    decreases entries.len(),
{
    if entries.len() == 0 {
        None
    } else if entries[0].0 == key {
        Some(entries[0].1)
    } else {
        lookup(entries.drop_first(), key)
    }
}

/// The model of an object's entries.
pub open spec fn entries_view(v: Vec<(String, Json)>) -> Seq<(Seq<char>, JsonModel)> {
    Seq::new(v.len() as nat, |i: int| (v[i].0@, v[i].1@))
}

/// The model of an array's items.
pub open spec fn items_view(v: Vec<Json>) -> Seq<JsonModel> {
    Seq::new(v.len() as nat, |i: int| v[i]@)
}

pub(crate) proof fn lemma_array_view(v: Vec<Json>)
    ensures
        Json::Array(v)@ == JsonModel::Array(items_view(v)),
{
    if let JsonModel::Array(m) = Json::Array(v)@ {
        assert(m =~= items_view(v));
    }
}

pub(crate) proof fn lemma_object_view(v: Vec<(String, Json)>)
    ensures
        Json::Object(v)@ == JsonModel::Object(entries_view(v)),
{
    if let JsonModel::Object(m) = Json::Object(v)@ {
        assert(m =~= entries_view(v));
    }
}

proof fn lemma_lookup_skip(entries: Seq<(Seq<char>, JsonModel)>, key: Seq<char>, i: int)
    requires
        0 <= i <= entries.len(),
        forall|j: int| 0 <= j < i ==> entries[j].0 != key,
    ensures
        lookup(entries, key) == lookup(entries.subrange(i, entries.len() as int), key),
    decreases i,
{
    if i > 0 {
        let rest = entries.drop_first();
        lemma_lookup_skip(rest, key, i - 1);
        assert(rest.subrange(i - 1, rest.len() as int) =~= entries.subrange(i, entries.len() as int));
    } else {
        assert(entries.subrange(0, entries.len() as int) =~= entries);
    }
}

impl Json {
    /// A copy of this value, built anew.
    pub fn duplicate(&self) -> (r: Json)
        ensures
            r@ == self@,
        decreases self,
    {
        match self {
            Json::Null => Json::Null,
            Json::Bool(b) => Json::Bool(*b),
            Json::Unsigned(n) => Json::Unsigned(*n),
            Json::OtherNumber(s) => Json::OtherNumber(s.clone()),
            Json::Str(s) => Json::Str(s.clone()),
            Json::Array(v) => {
                let mut out: Vec<Json> = Vec::new();
                let mut i: usize = 0;
                while i < v.len()
                    invariant
                        i <= v.len(),
                        out@.len() == i,
                        *self == Json::Array(*v),
                        forall|j: int| 0 <= j < i ==> out@[j]@ == v@[j]@,
                    decreases v.len() - i,
                {
                    proof {
                        assert(decreases_to!(*self => self->Array_0));
                        assert(decreases_to!(*v => v[i as int]));
                    }
                    out.push(v[i].duplicate());
                    i += 1;
                }
                let r = Json::Array(out);
                proof {
                    if let (JsonModel::Array(a), JsonModel::Array(b)) = (r@, self@) {
                        assert(a =~= b);
                    }
                }
                r
            },
            Json::Object(v) => {
                let mut out: Vec<(String, Json)> = Vec::new();
                let mut i: usize = 0;
                while i < v.len()
                    invariant
                        i <= v.len(),
                        out@.len() == i,
                        *self == Json::Object(*v),
                        forall|j: int| 0 <= j < i ==> out@[j].0@ == v@[j].0@ && out@[j].1@ == v@[j].1@,
                    decreases v.len() - i,
                {
                    proof {
                        assert(decreases_to!(*self => self->Object_0));
                        assert(decreases_to!(*v => v[i as int]));
                        assert(decreases_to!(v[i as int] => v[i as int].1));
                    }
                    out.push((v[i].0.clone(), v[i].1.duplicate()));
                    i += 1;
                }
                let r = Json::Object(out);
                proof {
                    if let (JsonModel::Object(a), JsonModel::Object(b)) = (r@, self@) {
                        assert(a =~= b);
                    }
                }
                r
            },
        }
    }
}

/// The value stored under `key` in `entries`, the first such if several.
pub fn find_field<'a>(entries: &'a Vec<(String, Json)>, key: &str) -> (r: Option<&'a Json>)
    ensures
        match r {
            Some(v) => lookup(entries_view(*entries), key@) == Some(v@),
            None => lookup(entries_view(*entries), key@) is None,
        },
{
    let k = String::from_str(key);
    let ghost m = entries_view(*entries);
    let mut i: usize = 0;
    while i < entries.len()
        invariant
            i <= entries.len(),
            m == entries_view(*entries),
            k@ == key@,
            forall|j: int| 0 <= j < i ==> m[j].0 != key@,
        decreases entries.len() - i,
    {
        if entries[i].0 == k {
            proof {
                lemma_lookup_skip(m, key@, i as int);
            }
            return Some(&entries[i].1);
        }
        i += 1;
    }
    proof {
        lemma_lookup_skip(m, key@, i as int);
    }
    None
}

/// serde_json's parsed tree, opaque here; it is only converted to `Json`.
#[verifier::external_type_specification]
#[verifier::external_body]
pub struct ExValue(serde_json::Value);

/// What serde_json makes of a text: the tree it parses, or `None` where
/// the text is not one valid JSON document.
pub uninterp spec fn parsed_json(text: Seq<char>) -> Option<JsonModel>;

/// Relies on serde_json's `Value` enum: each variant becomes the `Json`
/// variant of the same name and contents, a number through
/// `Number::as_u64` (else its text through `Number`'s `Display`).
#[verifier::external_body]
fn json_from_value(v: Value) -> Json {
    match v {
        Value::Null => Json::Null,
        Value::Bool(b) => Json::Bool(b),
        Value::Number(n) => match n.as_u64() {
            Some(u) => Json::Unsigned(u),
            None => Json::OtherNumber(n.to_string()),
        },
        Value::String(s) => Json::Str(s),
        Value::Array(a) => Json::Array(a.into_iter().map(json_from_value).collect()),
        Value::Object(o) => Json::Object(o.into_iter().map(|(k, x)| (k, json_from_value(x))).collect()),
    }
}

/// Relies on serde_json::from_str: it parses the text into a tree, or fails
/// with a message, and which of the two depends on the text alone.
#[verifier::external_body]
pub(crate) fn parse_json(text: &str) -> (r: Result<Json, String>)
    ensures
        match r {
            Ok(j) => parsed_json(text@) == Some(j@),
            Err(_) => parsed_json(text@) is None,
        },
{
    match serde_json::from_str::<Value>(text) {
        Ok(v) => Ok(json_from_value(v)),
        Err(e) => Err(e.to_string()),
    }
}

} // verus!
