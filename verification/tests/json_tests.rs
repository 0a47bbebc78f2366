use barterup_be::json::{parse_rows, Json};

#[test]
fn documents_are_read_into_a_tree() {
    let doc = Json::parse(r#"{"a":"x","b":[1,true,null],"c":{"d":"y"}}"#).unwrap();
    assert_eq!(doc.get_str("a"), Some("x"));
    assert_eq!(doc.get("c").and_then(|c| c.get_str("d")), Some("y"));
    let items = doc.get("b").and_then(|b| b.as_array()).unwrap();
    assert_eq!(items.len(), 3);
    assert!(matches!(&items[0], Json::Number(n) if n == "1"));
    assert!(matches!(items[1], Json::Bool(true)));
    assert!(matches!(items[2], Json::Null));
}

#[test]
fn missing_members_and_other_types_give_nothing() {
    let doc = Json::parse(r#"{"n":5,"s":"t"}"#).unwrap();
    assert!(doc.get("x").is_none());
    assert_eq!(doc.get_str("n"), None);
    assert_eq!(doc.get_str("x"), None);
    assert!(doc.as_array().is_none());
    assert!(doc.as_str().is_none());
    let text = Json::parse(r#""plain""#).unwrap();
    assert_eq!(text.as_str(), Some("plain"));
    assert!(text.get("x").is_none());
    let list = Json::parse("[]").unwrap();
    assert_eq!(list.as_array().map(|a| a.len()), Some(0));
    assert!(list.get("x").is_none());
}

#[test]
fn of_two_members_of_one_name_the_last_counts() {
    let doc = Json::parse(r#"{"a":"first","a":"second"}"#).unwrap();
    assert_eq!(doc.get_str("a"), Some("second"));
}

#[test]
fn text_that_is_no_document_gives_the_parser_s_message() {
    let e = Json::parse("{not json").unwrap_err();
    assert_eq!(e, serde_json::from_str::<serde_json::Value>("{not json").unwrap_err().to_string());
    assert!(Json::parse("").is_err());
}

#[test]
fn rows_are_read_from_an_array_only() {
    let rows = parse_rows(r#"[{"role":"user"},{"role":"admin"}]"#).unwrap();
    assert_eq!(rows.len(), 2);
    assert_eq!(rows[0].get_str("role"), Some("user"));
    assert_eq!(rows[1].get_str("role"), Some("admin"));
    assert_eq!(parse_rows("[]").unwrap().len(), 0);
    let e = parse_rows(r#"{"role":"user"}"#).unwrap_err();
    assert_eq!(
        e,
        serde_json::from_str::<Vec<serde_json::Value>>(r#"{"role":"user"}"#).unwrap_err().to_string()
    );
    assert!(parse_rows("nonsense").is_err());
}
