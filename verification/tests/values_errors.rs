use stepflow_web::error::AdvanceSessionError;
use stepflow_web::error::WebError;
use stepflow_web::json::JsonScalar;
use stepflow_web::session::advance_session;
use stepflow_web::session::create_session;
use stepflow_web::session::get_statedata;
use stepflow_web::session_store::new_session;
use stepflow_web::session_store::SessionStore;
use stepflow_web::value::json_value_from_val;
use stepflow_web::value::val_from_json_value;
use stepflow_web::value::Value;
use stepflow_web::Registry;

#[test]
fn marshal_roundtrip_all_variants() {
    // marshal then unmarshal reproduces each of the three variants exactly
    let vals = vec![
        Value::Str("hello".to_owned()),
        Value::Str(String::new()),
        Value::Bool(true),
        Value::Bool(false),
        Value::Num(format!("{}", 1.5f64)),
        Value::Num(format!("{}", -0.25f64)),
    ];
    for v in vals {
        let marshaled = json_value_from_val(&v);
        assert_eq!(val_from_json_value(&marshaled), v);
    }
}

#[test]
fn marshal_preserves_kind() {
    assert_eq!(
        json_value_from_val(&Value::Str("x".to_owned())),
        JsonScalar::Str("x".to_owned())
    );
    assert_eq!(json_value_from_val(&Value::Bool(true)), JsonScalar::Bool(true));
    assert_eq!(
        json_value_from_val(&Value::Num("2.5".to_owned())),
        JsonScalar::Num("2.5".to_owned())
    );
}

#[test]
fn float_text_is_numerically_exact() {
    // a float that is exactly representable survives the trip through its
    // decimal rendering
    for x in [0.5f64, -3.25, 1024.0, 0.1] {
        let v = Value::Num(format!("{}", x));
        let JsonScalar::Num(t) = json_value_from_val(&v) else {
            panic!("expected a number");
        };
        assert_eq!(t.parse::<f64>().unwrap(), x);
    }
}

#[test]
fn error_messages_name_their_kind() {
    assert_eq!(
        AdvanceSessionError::InvalidSessionId(-3).message(),
        "invalid session id: -3"
    );
    assert_eq!(
        AdvanceSessionError::SessionIdMissing(7).message(),
        "session id missing: 7"
    );
    assert_eq!(
        AdvanceSessionError::ActionIdMissing(260).message(),
        "action id missing: 260"
    );
    assert_eq!(
        AdvanceSessionError::SessionIdsExhausted.message(),
        "session identifiers exhausted"
    );
    assert_eq!(
        AdvanceSessionError::VarIdUnnamed(0).message(),
        "state variable has no name: 0"
    );
    assert_eq!(
        AdvanceSessionError::ParseError("bad".to_owned()).message(),
        "parse error: bad"
    );
    assert_eq!(AdvanceSessionError::Error("engine".to_owned()).message(), "engine");
    assert_eq!(AdvanceSessionError::Other("misc".to_owned()).message(), "misc");
}

#[test]
fn web_error_exposes_the_message() {
    let w = WebError::from_error(AdvanceSessionError::SessionIdMissing(9));
    assert_eq!(w.message(), "session id missing: 9");
}

#[test]
fn out_of_range_session_id_is_invalid() {
    let mut store: SessionStore = Registry::new();
    assert!(matches!(
        advance_session(&mut store, -1, None),
        Err(AdvanceSessionError::InvalidSessionId(-1))
    ));
    assert!(matches!(
        advance_session(&mut store, 65536, None),
        Err(AdvanceSessionError::InvalidSessionId(65536))
    ));
    assert!(matches!(
        get_statedata(&store, -1),
        Err(AdvanceSessionError::InvalidSessionId(-1))
    ));
}

#[test]
fn unknown_session_id_is_missing() {
    let mut store: SessionStore = Registry::new();
    assert!(matches!(
        advance_session(&mut store, 5, None),
        Err(AdvanceSessionError::SessionIdMissing(5))
    ));
    assert!(matches!(
        get_statedata(&store, 5),
        Err(AdvanceSessionError::SessionIdMissing(5))
    ));
}

#[test]
fn bad_definition_is_a_parse_error_and_wastes_the_id() {
    let mut store: SessionStore = Registry::new();
    let r = create_session(&mut store, "{", true);
    assert!(matches!(r, Err(AdvanceSessionError::ParseError(_))));
    // the reserved identifier is consumed, never reissued
    let id = new_session(&mut store).unwrap();
    assert_eq!(id, 1);
}

#[test]
fn failed_create_binds_nothing_observable() {
    let mut store: SessionStore = Registry::new();
    assert!(matches!(
        create_session(&mut store, "{", true),
        Err(AdvanceSessionError::ParseError(_))
    ));
    // the wasted identifier is not bound to any session: addressing it is
    // the same as addressing one that was never issued
    assert!(matches!(
        advance_session(&mut store, 0, None),
        Err(AdvanceSessionError::SessionIdMissing(0))
    ));
    assert!(matches!(
        get_statedata(&store, 0),
        Err(AdvanceSessionError::SessionIdMissing(0))
    ));
}

#[test]
fn bad_step_output_is_a_parse_error() {
    let mut store: SessionStore = Registry::new();
    let id = create_session(
        &mut store,
        r#"{"vars":{"v":"String"},"steps":{"$root":{"substeps":["s1"],"outputs":["v"]},"s1":{"outputs":["v"]}},"actions":{"$all":{"type":"HtmlForm"}}}"#,
        false,
    )
    .unwrap();
    let r = advance_session(&mut store, id as i32, Some("not json"));
    assert!(matches!(r, Err(AdvanceSessionError::ParseError(_))));
}
