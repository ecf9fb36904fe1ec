use recorder::json::Json;
use recorder::outside::{parse_first_json, parse_json};

#[test]
fn json_texts_parse_into_the_model() {
    let v = parse_json(r#"{"b": [1, -2, 1.5, "x", null, true], "a": {}}"#).unwrap();
    let Json::Object(members) = v else { panic!("expected an object") };
    let keys: Vec<&str> = members.iter().map(|(k, _)| k.as_str()).collect();
    assert_eq!(keys, vec!["a", "b"]);
    let Json::Array(items) = &members[1].1 else { panic!("expected an array") };
    assert!(matches!(items[0], Json::PosInt(1)));
    assert!(matches!(items[1], Json::NegInt(-2)));
    assert!(matches!(&items[2], Json::Float(t) if t == "1.5"));
    assert!(matches!(&items[3], Json::Str(t) if t == "x"));
    assert!(matches!(items[4], Json::Null));
    assert!(matches!(items[5], Json::Bool(true)));
    let e = parse_json("{").unwrap_err();
    assert!(e.contains("EOF"));
}

#[test]
fn the_first_json_value_of_a_text() {
    match parse_first_json("  [1] trailing") {
        Some(Json::Array(items)) => assert!(items.len() == 1 && matches!(items[0], Json::PosInt(1))),
        _ => panic!("expected the array"),
    }
    assert!(parse_first_json("nothing").is_none());
}
