use file_data_decode::decode::{decode, DecodeError};
use file_data_decode::json::{extract_strings, lookup, Json};

fn entry(key: &str, value: Json) -> (String, Json) {
    (String::from(key), value)
}

fn file_data(path: &str, contents: &str, filetypes: Vec<Json>) -> Json {
    Json::Obj(vec![entry(
        path,
        Json::Obj(vec![
            entry("contents", Json::Str(String::from(contents))),
            entry("filetypes", Json::Arr(filetypes)),
        ]),
    )])
}

#[test]
fn valid_single_entry_object_decodes() {
    let v = file_data("/a/b.js", "var x = 1;", vec![Json::Str(String::from("javascript"))]);
    let fr = decode(&v).unwrap();
    assert_eq!(fr.absolute_path, "/a/b.js");
    assert_eq!(fr.contents, "var x = 1;");
    assert_eq!(fr.file_types, vec![String::from("javascript")]);
}

#[test]
fn empty_path_key_is_kept() {
    let v = file_data("", "x", Vec::new());
    let fr = decode(&v).unwrap();
    assert_eq!(fr.absolute_path, "");
    assert_eq!(fr.file_types, Vec::<String>::new());
}

#[test]
fn empty_object_fails() {
    let v = Json::Obj(Vec::new());
    assert_eq!(decode(&v).unwrap_err(), DecodeError::NotSingleEntry { found: 0 });
}

#[test]
fn two_well_formed_entries_fail() {
    let inner = |c: &str| {
        Json::Obj(vec![
            entry("contents", Json::Str(String::from(c))),
            entry("filetypes", Json::Arr(Vec::new())),
        ])
    };
    let v = Json::Obj(vec![entry("/a.js", inner("a")), entry("/b.js", inner("b"))]);
    assert_eq!(decode(&v).unwrap_err(), DecodeError::NotSingleEntry { found: 2 });
}

#[test]
fn non_object_top_level_fails() {
    assert_eq!(decode(&Json::Str(String::from("x"))).unwrap_err(), DecodeError::NotAnObject);
    assert_eq!(decode(&Json::Num(Some(3))).unwrap_err(), DecodeError::NotAnObject);
    assert_eq!(decode(&Json::Null).unwrap_err(), DecodeError::NotAnObject);
}

#[test]
fn non_object_entry_value_fails() {
    let v = Json::Obj(vec![entry("/a.js", Json::Str(String::from("oops")))]);
    assert_eq!(decode(&v).unwrap_err(), DecodeError::EntryNotAnObject);
    let v = Json::Obj(vec![entry("/a.js", Json::Num(Some(7)))]);
    assert_eq!(decode(&v).unwrap_err(), DecodeError::EntryNotAnObject);
}

#[test]
fn missing_contents_fails() {
    let v = Json::Obj(vec![entry(
        "/a.js",
        Json::Obj(vec![entry("filetypes", Json::Arr(Vec::new()))]),
    )]);
    assert_eq!(decode(&v).unwrap_err(), DecodeError::BadContents);
}

#[test]
fn numeric_contents_fails() {
    let v = Json::Obj(vec![entry(
        "/a.js",
        Json::Obj(vec![
            entry("contents", Json::Num(Some(5))),
            entry("filetypes", Json::Arr(Vec::new())),
        ]),
    )]);
    assert_eq!(decode(&v).unwrap_err(), DecodeError::BadContents);
}

#[test]
fn missing_filetypes_fails() {
    let v = Json::Obj(vec![entry(
        "/a.js",
        Json::Obj(vec![entry("contents", Json::Str(String::from("x")))]),
    )]);
    assert_eq!(decode(&v).unwrap_err(), DecodeError::BadFiletypes);
}

#[test]
fn non_array_filetypes_fails() {
    let v = Json::Obj(vec![entry(
        "/a.js",
        Json::Obj(vec![
            entry("contents", Json::Str(String::from("x"))),
            entry("filetypes", Json::Str(String::from("javascript"))),
        ]),
    )]);
    assert_eq!(decode(&v).unwrap_err(), DecodeError::BadFiletypes);
}

#[test]
fn mixed_filetypes_keep_strings_in_order() {
    let v = file_data(
        "/a.js",
        "x",
        vec![
            Json::Str(String::from("javascript")),
            Json::Num(Some(42)),
            Json::Str(String::from("jsx")),
        ],
    );
    let fr = decode(&v).unwrap();
    assert_eq!(fr.file_types, vec![String::from("javascript"), String::from("jsx")]);
}

#[test]
fn extract_strings_drops_non_strings() {
    let elems = vec![
        Json::Null,
        Json::Str(String::from("a")),
        Json::Bool(true),
        Json::Arr(Vec::new()),
        Json::Str(String::from("b")),
    ];
    assert_eq!(extract_strings(&elems), vec![String::from("a"), String::from("b")]);
    assert_eq!(extract_strings(&Vec::new()), Vec::<String>::new());
}

#[test]
fn lookup_finds_first_match() {
    let entries = vec![
        entry("k", Json::Num(Some(1))),
        entry("other", Json::Null),
        entry("k", Json::Num(Some(2))),
    ];
    match lookup(&entries, &String::from("k")) {
        Some(Json::Num(Some(n))) => assert_eq!(*n, 1),
        _ => panic!("expected the first k entry"),
    }
    assert!(lookup(&entries, &String::from("absent")).is_none());
}

#[test]
fn error_messages_name_the_expectation() {
    assert_eq!(DecodeError::NotAnObject.message(), "expected an object");
    assert_eq!(
        DecodeError::NotSingleEntry { found: 3 }.message(),
        "expected exactly one entry"
    );
    assert!(DecodeError::BadContents.message().contains("contents"));
    assert!(DecodeError::BadFiletypes.message().contains("filetypes"));
}
