//! Decoding of a parsed JSON answer into records.

use vstd::prelude::*;
use vstd::string::*;
use crate::error::{Error, ErrorModel};
use crate::json::{
    entries_view, find_field, items_view, lemma_array_view, lemma_object_view, lookup, parse_json,
    parsed_json, Json, JsonModel,
};
use crate::records::{strings_view, Breach, BreachModel, Paste, PasteModel};

verus! {

/// The error for `field`, missing (`None`) or holding `value`.
pub open spec fn schema(field: Seq<char>, value: Option<JsonModel>) -> ErrorModel {
    ErrorModel::Schema { field, value }
}

/// A string value, read for `field`.
pub open spec fn string_of(field: Seq<char>, v: JsonModel) -> Result<Seq<char>, ErrorModel> {
    match v {
        JsonModel::Str(s) => Ok(s),
        _ => Err(schema(field, Some(v))),
    }
}

/// Applies `f` to each item in order; the first failure ends it.
pub open spec fn collect<A>(
    items: Seq<JsonModel>,
    f: spec_fn(JsonModel) -> Result<A, ErrorModel>,
) -> Result<Seq<A>, ErrorModel>
    decreases items.len(),
{
    if items.len() == 0 {
        Ok(Seq::empty())
    } else {
        match collect(items.drop_last(), f) {
            Err(e) => Err(e),
            Ok(done) => match f(items.last()) {
                Ok(x) => Ok(done.push(x)),
                Err(e) => Err(e),
            },
        }
    }
}

/// An array of strings, read for `field`.
pub open spec fn strings_of(field: Seq<char>, v: JsonModel) -> Result<Seq<Seq<char>>, ErrorModel> {
    match v {
        JsonModel::Array(items) => collect(items, |x: JsonModel| string_of(field, x)),
        _ => Err(schema(field, Some(v))),
    }
}

/// A required string field.
pub open spec fn required_string(o: Seq<(Seq<char>, JsonModel)>, field: Seq<char>) -> Result<
    Seq<char>,
    ErrorModel,
> {
    match lookup(o, field) {
        None => Err(schema(field, None)),
        Some(v) => string_of(field, v),
    }
}

/// A required field holding a non-negative integer.
pub open spec fn required_u64(o: Seq<(Seq<char>, JsonModel)>, field: Seq<char>) -> Result<
    u64,
    ErrorModel,
> {
    match lookup(o, field) {
        None => Err(schema(field, None)),
        Some(JsonModel::Unsigned(n)) => Ok(n),
        Some(v) => Err(schema(field, Some(v))),
    }
}

/// An optional string field: absent and null both give `None`.
pub open spec fn optional_string(o: Seq<(Seq<char>, JsonModel)>, field: Seq<char>) -> Result<
    Option<Seq<char>>,
    ErrorModel,
> {
    match lookup(o, field) {
        None => Ok(None),
        Some(JsonModel::Null) => Ok(None),
        Some(JsonModel::Str(s)) => Ok(Some(s)),
        Some(v) => Err(schema(field, Some(v))),
    }
}

/// An optional field holding a non-negative integer.
pub open spec fn optional_u64(o: Seq<(Seq<char>, JsonModel)>, field: Seq<char>) -> Result<
    Option<u64>,
    ErrorModel,
> {
    match lookup(o, field) {
        None => Ok(None),
        Some(JsonModel::Null) => Ok(None),
        Some(JsonModel::Unsigned(n)) => Ok(Some(n)),
        Some(v) => Err(schema(field, Some(v))),
    }
}

/// An optional boolean field.
pub open spec fn optional_bool(o: Seq<(Seq<char>, JsonModel)>, field: Seq<char>) -> Result<
    Option<bool>,
    ErrorModel,
> {
    match lookup(o, field) {
        None => Ok(None),
        Some(JsonModel::Null) => Ok(None),
        Some(JsonModel::Bool(b)) => Ok(Some(b)),
        Some(v) => Err(schema(field, Some(v))),
    }
}

/// An optional field holding an array of strings.
pub open spec fn optional_strings(o: Seq<(Seq<char>, JsonModel)>, field: Seq<char>) -> Result<
    Option<Seq<Seq<char>>>,
    ErrorModel,
> {
    match lookup(o, field) {
        None => Ok(None),
        Some(JsonModel::Null) => Ok(None),
        Some(v) => match strings_of(field, v) {
            Ok(s) => Ok(Some(s)),
            Err(e) => Err(e),
        },
    }
}

/// The `Name` field of a breach: a non-empty string.
pub open spec fn breach_name(o: Seq<(Seq<char>, JsonModel)>) -> Result<Seq<char>, ErrorModel> {
    match lookup(o, "Name"@) {
        None => Err(schema("Name"@, None)),
        Some(JsonModel::Str(s)) => if s.len() > 0 {
            Ok(s)
        } else {
            Err(schema("Name"@, Some(JsonModel::Str(s))))
        },
        Some(v) => Err(schema("Name"@, Some(v))),
    }
}

/// A breach read from an object's entries. The fields are read in this
/// order, and the first that fails gives the error.
pub open spec fn breach_of(o: Seq<(Seq<char>, JsonModel)>) -> Result<BreachModel, ErrorModel> {
    let name = breach_name(o);
    let title = optional_string(o, "Title"@);
    let domain = optional_string(o, "Domain"@);
    let breach_date = optional_string(o, "BreachDate"@);
    let added_date = optional_string(o, "AddedDate"@);
    let pwn_count = optional_u64(o, "PwnCount"@);
    let description = optional_string(o, "Description"@);
    let data_classes = optional_strings(o, "DataClasses"@);
    let is_verified = optional_bool(o, "IsVerified"@);
    let is_sensitive = optional_bool(o, "IsSensitive"@);
    let is_retired = optional_bool(o, "IsRetired"@);
    if name is Err {
        Err(name->Err_0)
    } else if title is Err {
        Err(title->Err_0)
    } else if domain is Err {
        Err(domain->Err_0)
    } else if breach_date is Err {
        Err(breach_date->Err_0)
    } else if added_date is Err {
        Err(added_date->Err_0)
    } else if pwn_count is Err {
        Err(pwn_count->Err_0)
    } else if description is Err {
        Err(description->Err_0)
    } else if data_classes is Err {
        Err(data_classes->Err_0)
    } else if is_verified is Err {
        Err(is_verified->Err_0)
    } else if is_sensitive is Err {
        Err(is_sensitive->Err_0)
    } else if is_retired is Err {
        Err(is_retired->Err_0)
    } else {
        Ok(
            BreachModel {
                name: name->Ok_0,
                title: title->Ok_0,
                domain: domain->Ok_0,
                breach_date: breach_date->Ok_0,
                added_date: added_date->Ok_0,
                pwn_count: pwn_count->Ok_0,
                description: description->Ok_0,
                data_classes: data_classes->Ok_0,
                is_verified: is_verified->Ok_0,
                is_sensitive: is_sensitive->Ok_0,
                is_retired: is_retired->Ok_0,
            },
        )
    }
}

/// A paste read from an object's entries, fields in this order.
pub open spec fn paste_of(o: Seq<(Seq<char>, JsonModel)>) -> Result<PasteModel, ErrorModel> {
    let source = required_string(o, "Source"@);
    let id = required_string(o, "Id"@);
    let title = optional_string(o, "Title"@);
    let date = optional_string(o, "Date"@);
    let email_count = required_u64(o, "EmailCount"@);
    if source is Err {
        Err(source->Err_0)
    } else if id is Err {
        Err(id->Err_0)
    } else if title is Err {
        Err(title->Err_0)
    } else if date is Err {
        Err(date->Err_0)
    } else if email_count is Err {
        Err(email_count->Err_0)
    } else {
        Ok(
            PasteModel {
                source: source->Ok_0,
                id: id->Ok_0,
                title: title->Ok_0,
                date: date->Ok_0,
                email_count: email_count->Ok_0,
            },
        )
    }
}

/// A breach read from one item of an answer, which must be an object.
pub open spec fn breach_item(v: JsonModel) -> Result<BreachModel, ErrorModel> {
    match v {
        JsonModel::Object(o) => breach_of(o),
        _ => Err(ErrorModel::Shape(v)),
    }
}

/// A paste read from one item of an answer, which must be an object.
pub open spec fn paste_item(v: JsonModel) -> Result<PasteModel, ErrorModel> {
    match v {
        JsonModel::Object(o) => paste_of(o),
        _ => Err(ErrorModel::Shape(v)),
    }
}

/// The breaches an answer holds: one object, or an array of objects.
pub open spec fn breaches_of(j: JsonModel) -> Result<Seq<BreachModel>, ErrorModel> {
    match j {
        JsonModel::Array(items) => collect(items, |v: JsonModel| breach_item(v)),
        JsonModel::Object(o) => match breach_of(o) {
            Ok(b) => Ok(seq![b]),
            Err(e) => Err(e),
        },
        _ => Err(ErrorModel::Shape(j)),
    }
}

/// The pastes an answer holds: one object, or an array of objects.
pub open spec fn pastes_of(j: JsonModel) -> Result<Seq<PasteModel>, ErrorModel> {
    match j {
        JsonModel::Array(items) => collect(items, |v: JsonModel| paste_item(v)),
        JsonModel::Object(o) => match paste_of(o) {
            Ok(p) => Ok(seq![p]),
            Err(e) => Err(e),
        },
        _ => Err(ErrorModel::Shape(j)),
    }
}

/// The data classes an answer holds: an array of strings.
pub open spec fn data_classes_of(j: JsonModel) -> Result<Seq<Seq<char>>, ErrorModel> {
    match j {
        JsonModel::Array(items) => collect(items, |v: JsonModel| string_of(""@, v)),
        _ => Err(ErrorModel::Shape(j)),
    }
}

proof fn lemma_collect_err<A>(
    items: Seq<JsonModel>,
    f: spec_fn(JsonModel) -> Result<A, ErrorModel>,
    i: int,
)
    requires
        0 <= i <= items.len(),
        collect(items.take(i), f) is Err,
    ensures
        collect(items, f) == collect(items.take(i), f),
    decreases items.len() - i,
{
    if i == items.len() {
        assert(items.take(i) =~= items);
    } else {
        assert(items.take(i + 1).drop_last() =~= items.take(i));
        lemma_collect_err(items, f, i + 1);
    }
}

proof fn lemma_collect_step<A>(
    items: Seq<JsonModel>,
    f: spec_fn(JsonModel) -> Result<A, ErrorModel>,
    i: int,
)
    requires
        0 <= i < items.len(),
    ensures
        collect(items.take(i + 1), f) == match collect(items.take(i), f) {
            Err(e) => Err(e),
            Ok(done) => match f(items[i]) {
                Ok(x) => Ok(done.push(x)),
                Err(e) => Err(e),
            },
        },
{
    assert(items.take(i + 1).drop_last() =~= items.take(i));
}

fn schema_error(field: &str, value: Option<&Json>) -> (e: Error)
    ensures
        e@ == schema(
            field@,
            match value {
                Some(v) => Some(v@),
                None => None,
            },
        ),
{
    let value = match value {
        Some(v) => Some(v.duplicate()),
        None => None,
    };
    Error::Schema { field: String::from_str(field), value }
}

/// Reads a string value for `field`.
pub fn get_serde_string(field: &str, v: &Json) -> (r: Result<String, Error>)
    ensures
        match r {
            Ok(s) => string_of(field@, v@) == Ok::<Seq<char>, ErrorModel>(s@),
            Err(e) => string_of(field@, v@) == Err::<Seq<char>, ErrorModel>(e@),
        },
{
    match v {
        Json::Str(s) => Ok(s.clone()),
        _ => Err(schema_error(field, Some(v))),
    }
}

/// Reads a non-negative integer for `field`.
pub fn get_serde_u64(field: &str, v: &Json) -> (r: Result<u64, Error>)
    ensures
        match r {
            Ok(n) => v@ == JsonModel::Unsigned(n),
            Err(e) => !(v@ is Unsigned) && e@ == schema(field@, Some(v@)),
        },
{
    match v {
        Json::Unsigned(n) => Ok(*n),
        _ => Err(schema_error(field, Some(v))),
    }
}

/// Reads a boolean for `field`.
pub fn get_serde_bool(field: &str, v: &Json) -> (r: Result<bool, Error>)
    ensures
        match r {
            Ok(b) => v@ == JsonModel::Bool(b),
            Err(e) => !(v@ is Bool) && e@ == schema(field@, Some(v@)),
        },
{
    match v {
        Json::Bool(b) => Ok(*b),
        _ => Err(schema_error(field, Some(v))),
    }
}

/// Reads each item of `items` as a string for `field`; the first item that
/// is no string ends it.
pub fn get_serde_strings(field: &str, items: &Vec<Json>) -> (r: Result<Vec<String>, Error>)
    ensures
        match r {
            Ok(v) => collect(items_view(*items), |x: JsonModel| string_of(field@, x)) == Ok::<
                Seq<Seq<char>>,
                ErrorModel,
            >(strings_view(v@)),
            Err(e) => collect(items_view(*items), |x: JsonModel| string_of(field@, x)) == Err::<
                Seq<Seq<char>>,
                ErrorModel,
            >(e@),
        },
{
    let ghost m = items_view(*items);
    let ghost f = |x: JsonModel| string_of(field@, x);
    let mut out: Vec<String> = Vec::new();
    let mut i: usize = 0;
    proof {
        assert(m.take(0) =~= Seq::<JsonModel>::empty());
        assert(strings_view(out@) =~= Seq::<Seq<char>>::empty());
    }
    while i < items.len()
        invariant
            i <= items.len(),
            m == items_view(*items),
            f == (|x: JsonModel| string_of(field@, x)),
            collect(m.take(i as int), f) == Ok::<Seq<Seq<char>>, ErrorModel>(strings_view(out@)),
        decreases items.len() - i,
    {
        proof {
            lemma_collect_step(m, f, i as int);
        }
        match get_serde_string(field, &items[i]) {
            Ok(s) => {
                let ghost before = out@;
                let ghost sv = s@;
                out.push(s);
                proof {
                    assert(strings_view(out@) =~= strings_view(before).push(sv));
                }
            },
            Err(e) => {
                proof {
                    lemma_collect_err(m, f, i + 1);
                }
                return Err(e);
            },
        }
        i += 1;
    }
    proof {
        assert(m.take(i as int) =~= m);
    }
    Ok(out)
}

/// The value of a required field, or the error that names it.
pub fn get_or_err<'a>(name: &str, obj: &'a Vec<(String, Json)>) -> (r: Result<&'a Json, Error>)
    ensures
        match r {
            Ok(v) => lookup(entries_view(*obj), name@) == Some(v@),
            Err(e) => lookup(entries_view(*obj), name@) is None && e@ == schema(name@, None),
        },
{
    match find_field(obj, name) {
        Some(v) => Ok(v),
        None => Err(schema_error(name, None)),
    }
}

/// Reads an optional string field.
pub fn get_optional_string(name: &str, obj: &Vec<(String, Json)>) -> (r: Result<
    Option<String>,
    Error,
>)
    ensures
        match r {
            Ok(s) => optional_string(entries_view(*obj), name@) == Ok::<
                Option<Seq<char>>,
                ErrorModel,
            >(crate::records::opt_str_view(s)),
            Err(e) => optional_string(entries_view(*obj), name@) == Err::<
                Option<Seq<char>>,
                ErrorModel,
            >(e@),
        },
{
    match find_field(obj, name) {
        None => Ok(None),
        Some(Json::Null) => Ok(None),
        Some(v) => match get_serde_string(name, v) {
            Ok(s) => Ok(Some(s)),
            Err(e) => Err(e),
        },
    }
}

/// Reads an optional field holding a non-negative integer.
pub fn get_optional_u64(name: &str, obj: &Vec<(String, Json)>) -> (r: Result<Option<u64>, Error>)
    ensures
        match r {
            Ok(n) => optional_u64(entries_view(*obj), name@) == Ok::<Option<u64>, ErrorModel>(n),
            Err(e) => optional_u64(entries_view(*obj), name@) == Err::<Option<u64>, ErrorModel>(
                e@,
            ),
        },
{
    match find_field(obj, name) {
        None => Ok(None),
        Some(Json::Null) => Ok(None),
        Some(v) => match get_serde_u64(name, v) {
            Ok(n) => Ok(Some(n)),
            Err(e) => Err(e),
        },
    }
}

/// Reads an optional boolean field.
pub fn get_optional_bool(name: &str, obj: &Vec<(String, Json)>) -> (r: Result<Option<bool>, Error>)
    ensures
        match r {
            Ok(b) => optional_bool(entries_view(*obj), name@) == Ok::<Option<bool>, ErrorModel>(b),
            Err(e) => optional_bool(entries_view(*obj), name@) == Err::<Option<bool>, ErrorModel>(
                e@,
            ),
        },
{
    match find_field(obj, name) {
        None => Ok(None),
        Some(Json::Null) => Ok(None),
        Some(v) => match get_serde_bool(name, v) {
            Ok(b) => Ok(Some(b)),
            Err(e) => Err(e),
        },
    }
}

/// Reads an optional field holding an array of strings.
pub fn get_optional_strings(name: &str, obj: &Vec<(String, Json)>) -> (r: Result<
    Option<Vec<String>>,
    Error,
>)
    ensures
        match r {
            Ok(Some(v)) => optional_strings(entries_view(*obj), name@) == Ok::<
                Option<Seq<Seq<char>>>,
                ErrorModel,
            >(Some(strings_view(v@))),
            Ok(None) => optional_strings(entries_view(*obj), name@) == Ok::<
                Option<Seq<Seq<char>>>,
                ErrorModel,
            >(None),
            Err(e) => optional_strings(entries_view(*obj), name@) == Err::<
                Option<Seq<Seq<char>>>,
                ErrorModel,
            >(e@),
        },
{
    match find_field(obj, name) {
        None => Ok(None),
        Some(Json::Null) => Ok(None),
        Some(Json::Array(items)) => {
            proof {
                lemma_array_view(*items);
            }
            match get_serde_strings(name, items) {
                Ok(v) => Ok(Some(v)),
                Err(e) => Err(e),
            }
        },
        Some(v) => Err(schema_error(name, Some(v))),
    }
}

/// Reads a breach from an object's entries.
pub fn parse_breach(obj: &Vec<(String, Json)>) -> (r: Result<Breach, Error>)
    ensures
        match r {
            Ok(b) => breach_of(entries_view(*obj)) == Ok::<BreachModel, ErrorModel>(b@),
            Err(e) => breach_of(entries_view(*obj)) == Err::<BreachModel, ErrorModel>(e@),
        },
{
    let name = match get_or_err("Name", obj) {
        Ok(Json::Str(s)) => {
            if s.as_str().is_empty() {
                return Err(schema_error("Name", Some(&Json::Str(s.clone()))));
            }
            s.clone()
        },
        Ok(v) => return Err(schema_error("Name", Some(v))),
        Err(e) => return Err(e),
    };
    let title = match get_optional_string("Title", obj) {
        Ok(x) => x,
        Err(e) => return Err(e),
    };
    let domain = match get_optional_string("Domain", obj) {
        Ok(x) => x,
        Err(e) => return Err(e),
    };
    let breach_date = match get_optional_string("BreachDate", obj) {
        Ok(x) => x,
        Err(e) => return Err(e),
    };
    let added_date = match get_optional_string("AddedDate", obj) {
        Ok(x) => x,
        Err(e) => return Err(e),
    };
    let pwn_count = match get_optional_u64("PwnCount", obj) {
        Ok(x) => x,
        Err(e) => return Err(e),
    };
    let description = match get_optional_string("Description", obj) {
        Ok(x) => x,
        Err(e) => return Err(e),
    };
    let data_classes = match get_optional_strings("DataClasses", obj) {
        Ok(x) => x,
        Err(e) => return Err(e),
    };
    let is_verified = match get_optional_bool("IsVerified", obj) {
        Ok(x) => x,
        Err(e) => return Err(e),
    };
    let is_sensitive = match get_optional_bool("IsSensitive", obj) {
        Ok(x) => x,
        Err(e) => return Err(e),
    };
    let is_retired = match get_optional_bool("IsRetired", obj) {
        Ok(x) => x,
        Err(e) => return Err(e),
    };
    Ok(
        Breach {
            name,
            title,
            domain,
            breach_date,
            added_date,
            pwn_count,
            description,
            data_classes,
            is_verified,
            is_sensitive,
            is_retired,
        },
    )
}

/// Reads a paste from an object's entries.
pub fn parse_paste(obj: &Vec<(String, Json)>) -> (r: Result<Paste, Error>)
    ensures
        match r {
            Ok(p) => paste_of(entries_view(*obj)) == Ok::<PasteModel, ErrorModel>(p@),
            Err(e) => paste_of(entries_view(*obj)) == Err::<PasteModel, ErrorModel>(e@),
        },
{
    let source = match get_or_err("Source", obj) {
        Ok(v) => match get_serde_string("Source", v) {
            Ok(s) => s,
            Err(e) => return Err(e),
        },
        Err(e) => return Err(e),
    };
    let id = match get_or_err("Id", obj) {
        Ok(v) => match get_serde_string("Id", v) {
            Ok(s) => s,
            Err(e) => return Err(e),
        },
        Err(e) => return Err(e),
    };
    let title = match get_optional_string("Title", obj) {
        Ok(x) => x,
        Err(e) => return Err(e),
    };
    let date = match get_optional_string("Date", obj) {
        Ok(x) => x,
        Err(e) => return Err(e),
    };
    let email_count = match get_or_err("EmailCount", obj) {
        Ok(v) => match get_serde_u64("EmailCount", v) {
            Ok(n) => n,
            Err(e) => return Err(e),
        },
        Err(e) => return Err(e),
    };
    Ok(Paste { source, id, title, date, email_count })
}

/// The breaches a parsed answer holds: one object, or an array of objects.
pub fn breaches_from_json(j: &Json) -> (r: Result<Vec<Breach>, Error>)
    ensures
        match r {
            Ok(v) => breaches_of(j@) == Ok::<Seq<BreachModel>, ErrorModel>(
                v@.map_values(|b: Breach| b@),
            ),
            Err(e) => breaches_of(j@) == Err::<Seq<BreachModel>, ErrorModel>(e@),
        },
{
    match j {
        Json::Array(items) => {
            proof {
                lemma_array_view(*items);
            }
            let ghost m = items_view(*items);
            let ghost f = |v: JsonModel| breach_item(v);
            let mut out: Vec<Breach> = Vec::new();
            let mut i: usize = 0;
            proof {
                assert(m.take(0) =~= Seq::<JsonModel>::empty());
                assert(out@.map_values(|b: Breach| b@) =~= Seq::<BreachModel>::empty());
            }
            while i < items.len()
                invariant
                    i <= items.len(),
                    m == items_view(*items),
                    j@ == JsonModel::Array(m),
                    f == (|v: JsonModel| breach_item(v)),
                    collect(m.take(i as int), f) == Ok::<Seq<BreachModel>, ErrorModel>(
                        out@.map_values(|b: Breach| b@),
                    ),
                decreases items.len() - i,
            {
                proof {
                    lemma_collect_step(m, f, i as int);
                }
                let item = match &items[i] {
                    Json::Object(o) => {
                        proof {
                            lemma_object_view(*o);
                        }
                        parse_breach(o)
                    },
                    other => Err(Error::Shape(other.duplicate())),
                };
                match item {
                    Ok(b) => {
                        let ghost before = out@;
                        let ghost bv = b@;
                        out.push(b);
                        proof {
                            assert(out@.map_values(|b: Breach| b@) =~= before.map_values(
                                |b: Breach| b@,
                            ).push(bv));
                        }
                    },
                    Err(e) => {
                        proof {
                            lemma_collect_err(m, f, i + 1);
                        }
                        return Err(e);
                    },
                }
                i += 1;
            }
            proof {
                assert(m.take(i as int) =~= m);
            }
            Ok(out)
        },
        Json::Object(o) => {
            proof {
                lemma_object_view(*o);
            }
            match parse_breach(o) {
                Ok(b) => {
                    let out = vec![b];
                    proof {
                        assert(out@.map_values(|b: Breach| b@) =~= seq![b@]);
                    }
                    Ok(out)
                },
                Err(e) => Err(e),
            }
        },
        _ => Err(Error::Shape(j.duplicate())),
    }
}

/// The pastes a parsed answer holds: one object, or an array of objects.
pub fn pastes_from_json(j: &Json) -> (r: Result<Vec<Paste>, Error>)
    ensures
        match r {
            Ok(v) => pastes_of(j@) == Ok::<Seq<PasteModel>, ErrorModel>(
                v@.map_values(|p: Paste| p@),
            ),
            Err(e) => pastes_of(j@) == Err::<Seq<PasteModel>, ErrorModel>(e@),
        },
{
    match j {
        Json::Array(items) => {
            proof {
                lemma_array_view(*items);
            }
            let ghost m = items_view(*items);
            let ghost f = |v: JsonModel| paste_item(v);
            let mut out: Vec<Paste> = Vec::new();
            let mut i: usize = 0;
            proof {
                assert(m.take(0) =~= Seq::<JsonModel>::empty());
                assert(out@.map_values(|p: Paste| p@) =~= Seq::<PasteModel>::empty());
            }
            while i < items.len()
                invariant
                    i <= items.len(),
                    m == items_view(*items),
                    j@ == JsonModel::Array(m),
                    f == (|v: JsonModel| paste_item(v)),
                    collect(m.take(i as int), f) == Ok::<Seq<PasteModel>, ErrorModel>(
                        out@.map_values(|p: Paste| p@),
                    ),
                decreases items.len() - i,
            {
                proof {
                    lemma_collect_step(m, f, i as int);
                }
                let item = match &items[i] {
                    Json::Object(o) => {
                        proof {
                            lemma_object_view(*o);
                        }
                        parse_paste(o)
                    },
                    other => Err(Error::Shape(other.duplicate())),
                };
                match item {
                    Ok(p) => {
                        let ghost before = out@;
                        let ghost pv = p@;
                        out.push(p);
                        proof {
                            assert(out@.map_values(|p: Paste| p@) =~= before.map_values(
                                |p: Paste| p@,
                            ).push(pv));
                        }
                    },
                    Err(e) => {
                        proof {
                            lemma_collect_err(m, f, i + 1);
                        }
                        return Err(e);
                    },
                }
                i += 1;
            }
            proof {
                assert(m.take(i as int) =~= m);
            }
            Ok(out)
        },
        Json::Object(o) => {
            proof {
                lemma_object_view(*o);
            }
            match parse_paste(o) {
                Ok(p) => {
                    let out = vec![p];
                    proof {
                        assert(out@.map_values(|p: Paste| p@) =~= seq![p@]);
                    }
                    Ok(out)
                },
                Err(e) => Err(e),
            }
        },
        _ => Err(Error::Shape(j.duplicate())),
    }
}

/// The data classes a parsed answer holds: an array of strings.
pub fn data_classes_from_json(j: &Json) -> (r: Result<Vec<String>, Error>)
    ensures
        match r {
            Ok(v) => data_classes_of(j@) == Ok::<Seq<Seq<char>>, ErrorModel>(strings_view(v@)),
            Err(e) => data_classes_of(j@) == Err::<Seq<Seq<char>>, ErrorModel>(e@),
        },
{
    match j {
        Json::Array(items) => {
            proof {
                lemma_array_view(*items);
            }
            get_serde_strings("", items)
        },
        _ => Err(Error::Shape(j.duplicate())),
    }
}

/// The breaches an answer's body holds.
pub open spec fn breaches_of_text(text: Seq<char>) -> Result<Seq<BreachModel>, ErrorModel> {
    match parsed_json(text) {
        None => Err(ErrorModel::Parse),
        Some(j) => breaches_of(j),
    }
}

/// The pastes an answer's body holds; an empty body holds none.
pub open spec fn pastes_of_body(text: Seq<char>) -> Result<Seq<PasteModel>, ErrorModel> {
    if text.len() == 0 {
        Ok(Seq::empty())
    } else {
        match parsed_json(text) {
            None => Err(ErrorModel::Parse),
            Some(j) => pastes_of(j),
        }
    }
}

/// The data classes an answer's body holds.
pub open spec fn data_classes_of_text(text: Seq<char>) -> Result<Seq<Seq<char>>, ErrorModel> {
    match parsed_json(text) {
        None => Err(ErrorModel::Parse),
        Some(j) => data_classes_of(j),
    }
}

/// Parses an answer's body and reads the breaches it holds.
pub fn breaches_from_str(s: &str) -> (r: Result<Vec<Breach>, Error>)
    ensures
        match r {
            Ok(v) => breaches_of_text(s@) == Ok::<Seq<BreachModel>, ErrorModel>(
                v@.map_values(|b: Breach| b@),
            ),
            Err(e) => breaches_of_text(s@) == Err::<Seq<BreachModel>, ErrorModel>(e@),
        },
{
    match parse_json(s) {
        Ok(j) => breaches_from_json(&j),
        Err(m) => Err(Error::Parse(m)),
    }
}

/// Parses an answer's body, which is not empty, and reads the pastes it
/// holds.
pub fn pastes_from_str(s: &str) -> (r: Result<Vec<Paste>, Error>)
    ensures
        match r {
            Ok(v) => parsed_json(s@) is Some && pastes_of(parsed_json(s@)->Some_0) == Ok::<
                Seq<PasteModel>,
                ErrorModel,
            >(v@.map_values(|p: Paste| p@)),
            Err(e) => match parsed_json(s@) {
                None => e@ == ErrorModel::Parse,
                Some(j) => pastes_of(j) == Err::<Seq<PasteModel>, ErrorModel>(e@),
            },
        },
{
    match parse_json(s) {
        Ok(j) => pastes_from_json(&j),
        Err(m) => Err(Error::Parse(m)),
    }
}

/// Reads the pastes from the paste endpoint's body: an empty body means no
/// pastes and is not parsed.
pub fn pastes_from_body(s: &str) -> (r: Result<Vec<Paste>, Error>)
    ensures
        s@.len() == 0 ==> (r matches Ok(v) && v@.len() == 0),
        match r {
            Ok(v) => pastes_of_body(s@) == Ok::<Seq<PasteModel>, ErrorModel>(
                v@.map_values(|p: Paste| p@),
            ),
            Err(e) => pastes_of_body(s@) == Err::<Seq<PasteModel>, ErrorModel>(e@),
        },
{
    if s.is_empty() {
        let out: Vec<Paste> = Vec::new();
        proof {
            assert(out@.map_values(|p: Paste| p@) =~= Seq::<PasteModel>::empty());
        }
        Ok(out)
    } else {
        pastes_from_str(s)
    }
}

/// Parses an answer's body and reads the data classes it lists.
pub fn data_classes_from_str(s: &str) -> (r: Result<Vec<String>, Error>)
    ensures
        match r {
            Ok(v) => data_classes_of_text(s@) == Ok::<Seq<Seq<char>>, ErrorModel>(
                strings_view(v@),
            ),
            Err(e) => data_classes_of_text(s@) == Err::<Seq<Seq<char>>, ErrorModel>(e@),
        },
{
    match parse_json(s) {
        Ok(j) => data_classes_from_json(&j),
        Err(m) => Err(Error::Parse(m)),
    }
}

/// A single object decodes to the same one-element sequence as the same
/// object wrapped in a one-element array, for breaches and for pastes.
pub proof fn lemma_single_object_as_array(o: Seq<(Seq<char>, JsonModel)>)
    ensures
        breaches_of(JsonModel::Object(o)) == breaches_of(
            JsonModel::Array(seq![JsonModel::Object(o)]),
        ),
        pastes_of(JsonModel::Object(o)) == pastes_of(JsonModel::Array(seq![JsonModel::Object(o)])),
{
    let items = seq![JsonModel::Object(o)];
    let fb = |v: JsonModel| breach_item(v);
    let fp = |v: JsonModel| paste_item(v);
    assert(items.drop_last() =~= Seq::<JsonModel>::empty());
    assert(collect(items.drop_last(), fb) == Ok::<Seq<BreachModel>, ErrorModel>(Seq::empty()));
    assert(collect(items.drop_last(), fp) == Ok::<Seq<PasteModel>, ErrorModel>(Seq::empty()));
    assert(items.last() == JsonModel::Object(o));
    if let Ok(b) = breach_of(o) {
        assert(Seq::<BreachModel>::empty().push(b) =~= seq![b]);
    }
    if let Ok(p) = paste_of(o) {
        assert(Seq::<PasteModel>::empty().push(p) =~= seq![p]);
    }
}

/// An object holding nothing but a non-empty string `Name` decodes to a
/// breach of that name with every other field absent.
pub proof fn lemma_name_only_breach(name: Seq<char>)
    requires
        name.len() > 0,
    ensures
        breach_of(seq![("Name"@, JsonModel::Str(name))]) == Ok::<BreachModel, ErrorModel>(
            BreachModel {
                name,
                title: None,
                domain: None,
                breach_date: None,
                added_date: None,
                pwn_count: None,
                description: None,
                data_classes: None,
                is_verified: None,
                is_sensitive: None,
                is_retired: None,
            },
        ),
{
    let o = seq![("Name"@, JsonModel::Str(name))];
    reveal_strlit("Name");
    reveal_strlit("Title");
    reveal_strlit("Domain");
    reveal_strlit("BreachDate");
    reveal_strlit("AddedDate");
    reveal_strlit("PwnCount");
    reveal_strlit("Description");
    reveal_strlit("DataClasses");
    reveal_strlit("IsVerified");
    reveal_strlit("IsSensitive");
    reveal_strlit("IsRetired");
    assert(o.drop_first() =~= Seq::<(Seq<char>, JsonModel)>::empty());
    assert(lookup(o, "Name"@) == Some(JsonModel::Str(name)));
    assert("Title"@ != "Name"@) by {
        assert("Title"@[0] != "Name"@[0]);
    }
    assert("Domain"@ != "Name"@) by {
        assert("Domain"@[0] != "Name"@[0]);
    }
    assert("BreachDate"@ != "Name"@) by {
        assert("BreachDate"@[0] != "Name"@[0]);
    }
    assert("AddedDate"@ != "Name"@) by {
        assert("AddedDate"@[0] != "Name"@[0]);
    }
    assert("PwnCount"@ != "Name"@) by {
        assert("PwnCount"@[0] != "Name"@[0]);
    }
    assert("Description"@ != "Name"@) by {
        assert("Description"@[0] != "Name"@[0]);
    }
    assert("DataClasses"@ != "Name"@) by {
        assert("DataClasses"@[0] != "Name"@[0]);
    }
    assert("IsVerified"@ != "Name"@) by {
        assert("IsVerified"@[0] != "Name"@[0]);
    }
    assert("IsSensitive"@ != "Name"@) by {
        assert("IsSensitive"@[0] != "Name"@[0]);
    }
    assert("IsRetired"@ != "Name"@) by {
        assert("IsRetired"@[0] != "Name"@[0]);
    }
    assert(forall|k: Seq<char>| k != "Name"@ ==> #[trigger] lookup(o, k) is None) by {
        assert forall|k: Seq<char>| k != "Name"@ implies #[trigger] lookup(o, k) is None by {
            assert(lookup(o.drop_first(), k) is None);
        }
    }
}

/// An object without a `Name` field fails to decode as a breach, with the
/// schema error that names `Name` as missing.
pub proof fn lemma_breach_without_name(o: Seq<(Seq<char>, JsonModel)>)
    requires
        lookup(o, "Name"@) is None,
    ensures
        breach_of(o) == Err::<BreachModel, ErrorModel>(schema("Name"@, None)),
{
}

/// Every breach that decodes has a non-empty name.
pub proof fn lemma_decoded_breach_named(o: Seq<(Seq<char>, JsonModel)>)
    requires
        breach_of(o) is Ok,
    ensures
        breach_of(o)->Ok_0.name.len() > 0,
{
}

} // verus!
