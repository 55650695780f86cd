use pwned::decode::{
    breaches_from_json, breaches_from_str, data_classes_from_json, data_classes_from_str,
    get_or_err, get_serde_string, parse_breach, parse_paste, pastes_from_body, pastes_from_json,
    pastes_from_str,
};
use pwned::error::Error;
use pwned::json::{find_field, Json};
use pwned::records::{Breach, Paste};

fn s(x: &str) -> String {
    x.to_string()
}

fn name_only(name: &str) -> Breach {
    Breach {
        name: s(name),
        title: None,
        domain: None,
        breach_date: None,
        added_date: None,
        pwn_count: None,
        description: None,
        data_classes: None,
        is_verified: None,
        is_sensitive: None,
        is_retired: None,
    }
}

#[test]
fn single_breach_adobe() {
    let r = breaches_from_str(r#"{"Name":"Adobe","PwnCount":152445165,"IsVerified":true}"#)
        .unwrap();
    assert_eq!(r.len(), 1);
    let mut expected = name_only("Adobe");
    expected.pwn_count = Some(152445165);
    expected.is_verified = Some(true);
    assert_eq!(r[0], expected);
}

#[test]
fn single_object_equals_wrapped_array() {
    let obj = r#"{"Name":"Adobe","Title":"Adobe","DataClasses":["Passwords"],"IsRetired":false}"#;
    let single = breaches_from_str(obj).unwrap();
    let wrapped = breaches_from_str(&format!("[{}]", obj)).unwrap();
    assert_eq!(single.len(), 1);
    assert_eq!(single, wrapped);
    let paste = r#"{"Source":"Pastebin","Id":"8Q0BvKD8","Title":null,"Date":"2014-03-04T19:14:54Z","EmailCount":139}"#;
    let single = pastes_from_str(paste).unwrap();
    let wrapped = pastes_from_str(&format!("[{}]", paste)).unwrap();
    assert_eq!(single.len(), 1);
    assert_eq!(single, wrapped);
}

#[test]
fn name_only_breach_has_no_optional_fields() {
    let r = breaches_from_str(r#"{"Name":"LinkedIn"}"#).unwrap();
    assert_eq!(r, vec![name_only("LinkedIn")]);
}

#[test]
fn breach_without_name_is_schema_error() {
    let r = breaches_from_str(r#"{"Title":"Adobe","PwnCount":5}"#);
    assert_eq!(r, Err(Error::Schema { field: s("Name"), value: None }));
    let r = breaches_from_str(r#"[{"Name":"A"},{"Title":"B"}]"#);
    assert_eq!(r, Err(Error::Schema { field: s("Name"), value: None }));
}

#[test]
fn breach_with_empty_name_is_schema_error() {
    let r = breaches_from_str(r#"{"Name":""}"#);
    assert_eq!(r, Err(Error::Schema { field: s("Name"), value: Some(Json::Str(s(""))) }));
}

#[test]
fn breach_with_mistyped_field_names_field_and_value() {
    let r = breaches_from_str(r#"{"Name":"A","PwnCount":"many"}"#);
    assert_eq!(r, Err(Error::Schema { field: s("PwnCount"), value: Some(Json::Str(s("many"))) }));
    let r = breaches_from_str(r#"{"Name":"A","PwnCount":-3}"#);
    assert_eq!(
        r,
        Err(Error::Schema { field: s("PwnCount"), value: Some(Json::OtherNumber(s("-3"))) })
    );
    let r = breaches_from_str(r#"{"Name":"A","IsVerified":1}"#);
    assert_eq!(r, Err(Error::Schema { field: s("IsVerified"), value: Some(Json::Unsigned(1)) }));
    let r = breaches_from_str(r#"{"Name":"A","DataClasses":["Passwords",7]}"#);
    assert_eq!(r, Err(Error::Schema { field: s("DataClasses"), value: Some(Json::Unsigned(7)) }));
    let r = breaches_from_str(r#"{"Name":"A","DataClasses":"Passwords"}"#);
    assert_eq!(
        r,
        Err(Error::Schema { field: s("DataClasses"), value: Some(Json::Str(s("Passwords"))) })
    );
}

#[test]
fn first_failing_field_wins() {
    let r = breaches_from_str(r#"{"Name":"A","Title":3,"IsRetired":"no"}"#);
    assert_eq!(r, Err(Error::Schema { field: s("Title"), value: Some(Json::Unsigned(3)) }));
}

#[test]
fn null_optional_fields_are_absent() {
    let r = breaches_from_str(r#"{"Name":"A","Title":null,"PwnCount":null,"DataClasses":null}"#)
        .unwrap();
    assert_eq!(r, vec![name_only("A")]);
}

#[test]
fn full_breach_record() {
    let text = r#"[{"Name":"Adobe","Title":"Adobe","Domain":"adobe.com","BreachDate":"2013-10-04",
        "AddedDate":"2013-12-04T00:00:00Z","PwnCount":152445165,"Description":"In October 2013",
        "DataClasses":["Email addresses","Password hints"],"IsVerified":true,"IsSensitive":false,
        "IsRetired":false}]"#;
    let r = breaches_from_str(text).unwrap();
    let expected = Breach {
        name: s("Adobe"),
        title: Some(s("Adobe")),
        domain: Some(s("adobe.com")),
        breach_date: Some(s("2013-10-04")),
        added_date: Some(s("2013-12-04T00:00:00Z")),
        pwn_count: Some(152445165),
        description: Some(s("In October 2013")),
        data_classes: Some(vec![s("Email addresses"), s("Password hints")]),
        is_verified: Some(true),
        is_sensitive: Some(false),
        is_retired: Some(false),
    };
    assert_eq!(r, vec![expected]);
}

#[test]
fn empty_array_decodes_to_no_breaches() {
    assert_eq!(breaches_from_str("[]").unwrap(), vec![]);
}

#[test]
fn scalar_top_level_is_shape_error() {
    assert_eq!(breaches_from_str("5"), Err(Error::Shape(Json::Unsigned(5))));
    assert_eq!(breaches_from_str("null"), Err(Error::Shape(Json::Null)));
    assert_eq!(breaches_from_str(r#"[{"Name":"A"},true]"#), Err(Error::Shape(Json::Bool(true))));
}

#[test]
fn invalid_json_is_parse_error() {
    assert!(matches!(breaches_from_str("{\"Name\":"), Err(Error::Parse(_))));
    assert!(matches!(breaches_from_str(""), Err(Error::Parse(_))));
    assert!(matches!(data_classes_from_str("[1,"), Err(Error::Parse(_))));
}

#[test]
fn empty_paste_body_is_no_pastes() {
    assert_eq!(pastes_from_body("").unwrap(), vec![]);
    assert!(matches!(pastes_from_str(""), Err(Error::Parse(_))));
}

#[test]
fn paste_records_decode() {
    let text = r#"[{"Source":"Pastebin","Id":"8Q0BvKD8","Title":"syslog","Date":"2014-03-04T19:14:54Z","EmailCount":139},
                   {"Source":"Pastie","Id":"7152479","EmailCount":30}]"#;
    let r = pastes_from_body(text).unwrap();
    assert_eq!(
        r,
        vec![
            Paste {
                source: s("Pastebin"),
                id: s("8Q0BvKD8"),
                title: Some(s("syslog")),
                date: Some(s("2014-03-04T19:14:54Z")),
                email_count: 139,
            },
            Paste { source: s("Pastie"), id: s("7152479"), title: None, date: None, email_count: 30 },
        ]
    );
}

#[test]
fn paste_errors() {
    let r = pastes_from_body(r#"[{"Source":"Pastebin","Id":"x"}]"#);
    assert_eq!(r, Err(Error::Schema { field: s("EmailCount"), value: None }));
    let r = pastes_from_body(r#"[{"Source":"Pastebin","Id":5,"EmailCount":1}]"#);
    assert_eq!(r, Err(Error::Schema { field: s("Id"), value: Some(Json::Unsigned(5)) }));
    let r = pastes_from_body(r#"[{"Source":"P","Id":"x","Title":false,"EmailCount":1}]"#);
    assert_eq!(r, Err(Error::Schema { field: s("Title"), value: Some(Json::Bool(false)) }));
    assert_eq!(pastes_from_body("\"x\""), Err(Error::Shape(Json::Str(s("x")))));
}

#[test]
fn data_classes_decode_exactly() {
    let r = data_classes_from_str(r#"["Email addresses","Passwords"]"#).unwrap();
    assert_eq!(r, vec![s("Email addresses"), s("Passwords")]);
}

#[test]
fn data_classes_of_numbers_is_schema_error() {
    let r = data_classes_from_str("[1,2]");
    assert_eq!(r, Err(Error::Schema { field: s(""), value: Some(Json::Unsigned(1)) }));
    let r = data_classes_from_str(r#"{"a":"b"}"#);
    assert_eq!(r, Err(Error::Shape(Json::Object(vec![(s("a"), Json::Str(s("b")))]))));
}

#[test]
fn decoders_on_built_trees() {
    let obj = vec![(s("Name"), Json::Str(s("Adobe"))), (s("IsSensitive"), Json::Bool(true))];
    let copy = || Json::Object(obj.iter().map(|(k, v)| (k.clone(), v.duplicate())).collect());
    let mut expected = name_only("Adobe");
    expected.is_sensitive = Some(true);
    assert_eq!(parse_breach(&obj), Ok(expected.clone()));
    assert_eq!(breaches_from_json(&copy()), Ok(vec![expected.clone()]));
    assert_eq!(
        breaches_from_json(&Json::Array(vec![copy()])),
        Ok(vec![expected])
    );
    let paste = vec![
        (s("Source"), Json::Str(s("P"))),
        (s("Id"), Json::Str(s("1"))),
        (s("EmailCount"), Json::Unsigned(2)),
    ];
    let p = Paste { source: s("P"), id: s("1"), title: None, date: None, email_count: 2 };
    assert_eq!(parse_paste(&paste), Ok(p.clone()));
    assert_eq!(pastes_from_json(&Json::Array(vec![Json::Object(paste)])), Ok(vec![p]));
    assert_eq!(
        data_classes_from_json(&Json::Array(vec![Json::Str(s("Passwords"))])),
        Ok(vec![s("Passwords")])
    );
    assert_eq!(data_classes_from_json(&Json::Null), Err(Error::Shape(Json::Null)));
}

#[test]
fn field_lookup_and_copy() {
    let obj = vec![
        (s("A"), Json::Unsigned(1)),
        (s("B"), Json::Array(vec![Json::Null, Json::Str(s("x"))])),
    ];
    assert_eq!(find_field(&obj, "B"), Some(&obj[1].1));
    assert_eq!(find_field(&obj, "C"), None);
    assert_eq!(get_or_err("A", &obj), Ok(&Json::Unsigned(1)));
    assert_eq!(get_or_err("C", &obj), Err(Error::Schema { field: s("C"), value: None }));
    assert_eq!(obj[1].1.duplicate(), obj[1].1);
    assert_eq!(get_serde_string("B", &Json::Str(s("v"))), Ok(s("v")));
}
