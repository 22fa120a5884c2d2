use std::collections::HashMap;

use tinyjson::JsonValue;

use stepflow_web::json::obj_to_string;
use stepflow_web::json::JsonGenerateError;
use stepflow_web::json::JsonObj;
use stepflow_web::json::JsonPayload;
use stepflow_web::json::JsonScalar;
use stepflow_web::result::StepFlowResult;
use stepflow_web::session::create_session_result;
use stepflow_web::session_store::SessionStore;
use stepflow_web::Registry;

fn parse_obj(s: &str) -> HashMap<String, JsonValue> {
    match s.parse::<JsonValue>().unwrap() {
        JsonValue::Object(map) => map,
        other => panic!("expected a JSON object, got {:?}", other),
    }
}

#[test]
fn envelope_has_exactly_one_key() {
    // every envelope holds exactly one of `ok` / `err`, never both
    let ok = StepFlowResult::Success(JsonPayload::Scalar(JsonScalar::Num("42".to_owned())));
    let ok_map = parse_obj(&ok.to_json_string().unwrap());
    assert_eq!(ok_map.len(), 1);
    assert!(ok_map.contains_key("ok"));

    let err = StepFlowResult::Failure("something broke".to_owned());
    let err_map = parse_obj(&err.to_json_string().unwrap());
    assert_eq!(err_map.len(), 1);
    assert_eq!(
        err_map.get("err"),
        Some(&JsonValue::String("something broke".to_owned()))
    );
}

#[test]
fn envelope_payload_shapes() {
    let ok = StepFlowResult::Success(JsonPayload::Scalar(JsonScalar::Num("7".to_owned())));
    assert_eq!(ok.to_json_string().unwrap(), "{\"ok\":7}");

    let obj: JsonObj = vec![
        ("a".to_owned(), JsonScalar::Str("x".to_owned())),
        ("b".to_owned(), JsonScalar::Bool(false)),
        ("c".to_owned(), JsonScalar::Num("-1.25".to_owned())),
    ];
    let ok_obj = StepFlowResult::Success(JsonPayload::Object(obj));
    assert_eq!(
        ok_obj.to_json_string().unwrap(),
        "{\"ok\":{\"a\":\"x\",\"b\":false,\"c\":-1.25}}"
    );
}

#[test]
fn string_escaping_roundtrips() {
    // quotes, backslashes and control characters survive the trip through
    // the serializer and an independent JSON parser
    let tricky = "he said \"hi\\bye\"\nline\ttab\r\u{1}end";
    let err = StepFlowResult::Failure(tricky.to_owned());
    let text = err.to_json_string().unwrap();
    let map = parse_obj(&text);
    assert_eq!(map.get("err"), Some(&JsonValue::String(tricky.to_owned())));
}

#[test]
fn invalid_number_text_is_rejected() {
    for bad in ["NaN", "inf", "01", "1.", ".5", "", "-", "1.2.3", "+1", "1e5"] {
        let obj: JsonObj = vec![("n".to_owned(), JsonScalar::Num(bad.to_owned()))];
        assert!(
            matches!(obj_to_string(&obj), Err(JsonGenerateError::InvalidNumber(_))),
            "expected {:?} to be rejected",
            bad
        );
    }
    for good in ["0", "7", "-7", "3.25", "-0.5", "65535", "0.0001"] {
        let obj: JsonObj = vec![("n".to_owned(), JsonScalar::Num(good.to_owned()))];
        assert!(obj_to_string(&obj).is_ok(), "expected {:?} to be accepted", good);
    }
}

#[test]
fn serialized_object_parses_back() {
    let obj: JsonObj = vec![
        ("name".to_owned(), JsonScalar::Str("billy".to_owned())),
        ("waited".to_owned(), JsonScalar::Bool(true)),
        ("score".to_owned(), JsonScalar::Num("12.5".to_owned())),
    ];
    let text = obj_to_string(&obj).unwrap();
    let map = parse_obj(&text);
    assert_eq!(map.len(), 3);
    assert_eq!(map.get("name"), Some(&JsonValue::String("billy".to_owned())));
    assert_eq!(map.get("waited"), Some(&JsonValue::Boolean(true)));
    assert_eq!(map.get("score"), Some(&JsonValue::Number(12.5)));
}

#[test]
fn create_session_envelope_carries_the_id() {
    let mut store: SessionStore = Registry::new();
    let res = create_session_result(
        &mut store,
        r#"{"steps":{"$root":{"substeps":["s1"],"outputs":["o"]},"s1":{"outputs":["o"]}},"actions":{"$all":{"type":"HtmlForm"}}}"#,
        true,
    );
    let map = parse_obj(&res.to_json_string().unwrap());
    assert_eq!(map.get("ok"), Some(&JsonValue::Number(0.0)));

    // a bad definition comes back as an err envelope, with the identifier
    // still consumed
    let res_bad = create_session_result(&mut store, "not json at all", true);
    let map_bad = parse_obj(&res_bad.to_json_string().unwrap());
    assert_eq!(map_bad.len(), 1);
    assert!(matches!(map_bad.get("err"), Some(JsonValue::String(_))));

    let res2 = create_session_result(
        &mut store,
        r#"{"steps":{"$root":{"substeps":["s1"],"outputs":["o"]},"s1":{"outputs":["o"]}},"actions":{"$all":{"type":"HtmlForm"}}}"#,
        true,
    );
    let map2 = parse_obj(&res2.to_json_string().unwrap());
    assert_eq!(map2.get("ok"), Some(&JsonValue::Number(2.0)));
}
