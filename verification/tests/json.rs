use yahoo_finance_api::json::{json_from_text, Json};

fn number(json: &Json) -> (Option<i64>, f64) {
    match json {
        Json::Number(n) => (n.integer, f64::from_bits(n.float.bits)),
        other => panic!("expected a number, got {:?}", other),
    }
}

#[test]
fn a_document_is_read_variant_by_variant() {
    let json = json_from_text(r#"{"b":[null,true,"xé",{}],"a":-3}"#).unwrap();
    let Json::Object(members) = json else { panic!("expected an object") };
    assert_eq!(members.len(), 2);
    let a = members.iter().find(|(name, _)| name == "a").unwrap();
    assert_eq!(number(&a.1), (Some(-3), -3.0));
    let b = members.iter().find(|(name, _)| name == "b").unwrap();
    let Json::Array(items) = &b.1 else { panic!("expected an array") };
    assert_eq!(items.len(), 4);
    assert!(matches!(items[0], Json::Null));
    assert!(matches!(items[1], Json::Bool(true)));
    assert!(matches!(&items[2], Json::String(s) if s == "x\u{00e9}"));
    assert!(matches!(&items[3], Json::Object(inner) if inner.is_empty()));
}

#[test]
fn a_number_is_kept_as_integer_and_as_float() {
    assert!(json_from_text("[1e400]").is_err());
    let Json::Array(items) = json_from_text(
        "[0, -1, 9223372036854775807, 9223372036854775808, -9223372036854775808, 1.0, 2.5e3]",
    )
    .unwrap() else {
        panic!("expected an array")
    };
    assert_eq!(number(&items[0]), (Some(0), 0.0));
    assert_eq!(number(&items[1]), (Some(-1), -1.0));
    assert_eq!(number(&items[2]), (Some(i64::MAX), 9223372036854775807.0));
    assert_eq!(number(&items[3]), (None, 9223372036854775808.0));
    assert_eq!(number(&items[4]), (Some(i64::MIN), -9223372036854775808.0));
    assert_eq!(number(&items[5]), (None, 1.0));
    assert_eq!(number(&items[6]), (None, 2500.0));
}

#[test]
fn text_that_is_no_document_gives_the_reader_s_words() {
    assert_eq!(
        json_from_text("{").unwrap_err(),
        serde_json::from_str::<serde_json::Value>("{").unwrap_err().to_string()
    );
    assert_eq!(json_from_text("[1,]").unwrap_err(), "trailing comma at line 1 column 4");
    assert!(json_from_text("1 2").is_err());
}

#[test]
fn the_last_of_two_members_with_one_name_stays() {
    let Json::Object(members) = json_from_text(r#"{"a":1,"a":2}"#).unwrap() else {
        panic!("expected an object")
    };
    assert_eq!(members.len(), 1);
    assert_eq!(number(&members[0].1), (Some(2), 2.0));
}
