use std::collections::HashMap;

use stepflow::data::StringValue;
use stepflow::data::StringVar;
use stepflow::prelude::ObjectStoreContent;
use stepflow::AdvanceBlockedOn;
use stepflow_json::statedata_from_jsonval_obj;
use tinyjson::JsonValue;

use stepflow_web::advance_blocked_on::ActionType;
use stepflow_web::advance_blocked_on::AdvanceOutcome;
use stepflow_web::advance_blocked_on::WebAdvanceBlockedOn;
use stepflow_web::advance_blocked_on::WebAdvanceBlockedOnType;
use stepflow_web::error::AdvanceSessionError;
use stepflow_web::json::JsonScalar;
use stepflow_web::session::advance_session;
use stepflow_web::value::Value;
use stepflow_web::session::create_session;
use stepflow_web::session::get_statedata;
use stepflow_web::session_store::SessionStore;
use stepflow_web::Registry;

const JSON: &str = r#"
{
    "vars": {
        "first_name": "String",
        "last_name": "String",
        "email": "Email",
        "email_waited": "True",
        "nothing": "Bool"
    },
    "steps": {
       "$root": {
           "substeps": ["name", "email"],
           "outputs": ["first_name","last_name","email", "email_waited"]
       },
       "name": {
           "outputs": ["first_name","last_name"]
       },
       "email": {
           "outputs": ["email", "email_waited"]
       }
    },
    "actions": {
        "$all": {
            "type": "UriStringTemplate",
            "template": "/base-path/{{step}}"
        },
        "email": {
            "type": "SetData",
            "stateData": {
                "email_waited": "true"
            },
            "afterAttempt": 2
        }
    }
}"#;

#[test]
fn deserialize() {
    let mut session_store: SessionStore = Registry::new();
    let session_id = create_session(&mut session_store, JSON, false).unwrap();
    let session = session_store.get_mut(session_id);
    let name_stepid = session.step_store().get_by_name("name").unwrap().id().clone();
    let email_stepid = session.step_store().get_by_name("email").unwrap().id().clone();
    let _firstname_var_id = session.var_store().get_by_name("first_name").unwrap().id().clone();
    let _email_waited_varid = session.var_store().get_by_name("email_waited").unwrap().id().clone();
    let uri_action_id = session.action_store().id_from_name("$all").unwrap().clone();

    // advance to first step (name)
    let name_advance = session.advance(None).unwrap();
    assert_eq!(
        name_advance,
        AdvanceBlockedOn::ActionStartWith(
            uri_action_id.clone(),
            "/base-path/name".parse::<StringValue>().unwrap().boxed()
        )
    );

    // try advancing without setting name and fail
    let name_advance_fail = session.advance(None).unwrap();
    assert_eq!(
        name_advance_fail,
        AdvanceBlockedOn::ActionStartWith(
            uri_action_id.clone(),
            "/base-path/name".parse::<StringValue>().unwrap().boxed()
        )
    );

    // advance to next step (email) - fail setdata (attempt #1) so get URI action result
    let mut data_name = HashMap::new();
    data_name.insert("first_name".to_owned(), JsonValue::String("billy".to_owned()));
    data_name.insert("last_name".to_owned(), JsonValue::String("bob".to_owned()));
    let statedata_name = statedata_from_jsonval_obj(&data_name, session.var_store()).unwrap();
    let name_advance_success = session.advance(Some((&name_stepid, statedata_name))).unwrap();
    assert_eq!(
        name_advance_success,
        AdvanceBlockedOn::ActionStartWith(
            uri_action_id.clone(),
            "/base-path/email".parse::<StringValue>().unwrap().boxed()
        )
    );

    // put in email and try advancing -- fail setdata (attempt #2) because email waited setdata
    // action hasn't fired so get URI action result
    let mut data_email = HashMap::new();
    data_email.insert("email".to_owned(), JsonValue::String("a@b.com".to_owned()));
    let statedata_email = statedata_from_jsonval_obj(&data_email, session.var_store()).unwrap();
    let name_advance_success = session.advance(Some((&email_stepid, statedata_email))).unwrap();
    assert_eq!(
        name_advance_success,
        AdvanceBlockedOn::ActionStartWith(
            uri_action_id.clone(),
            "/base-path/email".parse::<StringValue>().unwrap().boxed()
        )
    );

    // try advancing again -- success with setdata firing and we're finished
    let name_advance_success = session.advance(None).unwrap();
    assert_eq!(name_advance_success, AdvanceBlockedOn::FinishedAdvancing);
}

#[test]
fn session_ids() {
    let mut session_store: SessionStore = Registry::new();
    let session_id1 = create_session(&mut session_store, JSON, false).unwrap();
    let session_id2 = create_session(&mut session_store, JSON, false).unwrap();
    assert_ne!(session_id1, session_id2);
}

#[test]
fn implicit_vars() {
    let json = r#"
    {
        "steps": {
            "$root": {
                "substeps": ["step1"],
                "outputs": ["test_output"]
            },
            "step1": { "inputs": ["test_input"], "outputs": ["test_output"] }
        },
        "actions": {
            "$all": { "type": "HtmlForm" }
        }
    }
    "#;
    let json = json.to_string();

    // expect error when we don't allow implicit var
    let mut session_store: SessionStore = Registry::new();
    assert!(matches!(create_session(&mut session_store, &json[..], false), Err(_)));

    // create session
    let session_id = create_session(&mut session_store, &json[..], true).unwrap();
    let session = session_store.get(session_id).unwrap();

    assert_eq!(session.var_store().iter_names().count(), 2);
    let input_var = session.var_store().get_by_name("test_input").unwrap();
    assert!(input_var.is::<StringVar>());
    let output_var = session.var_store().get_by_name("test_output").unwrap();
    assert!(output_var.is::<StringVar>());
}

fn entry<'a>(obj: &'a [(String, JsonScalar)], key: &str) -> Option<&'a JsonScalar> {
    obj.iter().find(|(k, _)| k == key).map(|(_, v)| v)
}

fn str_scalar(s: &str) -> JsonScalar {
    JsonScalar::Str(s.to_owned())
}

#[test]
fn scenario_repeat_advance_same_outcome() {
    // two advances with no input supplied return the identical StartWith message
    let mut store: SessionStore = Registry::new();
    let id = create_session(&mut store, JSON, false).unwrap();
    let obj1 = advance_session(&mut store, id as i32, None).unwrap();
    let obj2 = advance_session(&mut store, id as i32, None).unwrap();
    assert_eq!(obj1, obj2);
    assert_eq!(entry(&obj1, "blockedOn"), Some(&str_scalar("StartWith")));
    assert_eq!(entry(&obj1, "actionName"), Some(&str_scalar("$all")));
    assert_eq!(entry(&obj1, "actionType"), Some(&str_scalar("UriStringTemplate")));
    assert_eq!(entry(&obj1, "startWith"), Some(&str_scalar("/base-path/name")));
    assert_eq!(obj1.len(), 4);
}

#[test]
fn scenario_step_output_moves_to_next_step() {
    // valid output for the first step moves the template value to the second
    let mut store: SessionStore = Registry::new();
    let id = create_session(&mut store, JSON, false).unwrap();
    let first = advance_session(&mut store, id as i32, None).unwrap();
    assert_eq!(entry(&first, "startWith"), Some(&str_scalar("/base-path/name")));
    let second = advance_session(
        &mut store,
        id as i32,
        Some(r#"{"first_name":"billy","last_name":"bob"}"#),
    )
    .unwrap();
    assert_eq!(entry(&second, "blockedOn"), Some(&str_scalar("StartWith")));
    assert_eq!(entry(&second, "startWith"), Some(&str_scalar("/base-path/email")));
}

#[test]
fn scenario_finish_and_read_state() {
    // after all outputs are supplied the session finishes advancing, and the
    // state data lists every populated variable under its declared name
    let mut store: SessionStore = Registry::new();
    let id = create_session(&mut store, JSON, false).unwrap();
    advance_session(&mut store, id as i32, None).unwrap();
    advance_session(
        &mut store,
        id as i32,
        Some(r#"{"first_name":"billy","last_name":"bob"}"#),
    )
    .unwrap();
    advance_session(&mut store, id as i32, Some(r#"{"email":"a@b.com"}"#)).unwrap();
    let done = advance_session(&mut store, id as i32, None).unwrap();
    assert_eq!(entry(&done, "blockedOn"), Some(&str_scalar("FinishedAdvancing")));
    assert_eq!(done.len(), 1);

    let state = get_statedata(&store, id as i32).unwrap();
    assert_eq!(state.len(), 4);
    assert_eq!(entry(&state, "first_name"), Some(&str_scalar("billy")));
    assert_eq!(entry(&state, "last_name"), Some(&str_scalar("bob")));
    assert_eq!(entry(&state, "email"), Some(&str_scalar("a@b.com")));
    assert_eq!(entry(&state, "email_waited"), Some(&JsonScalar::Bool(true)));
}

#[test]
fn resolver_fields_present_exactly_for_start_with() {
    let mut store: SessionStore = Registry::new();
    let id = create_session(&mut store, JSON, false).unwrap();
    let session = store.get(id).unwrap();
    let uri_action_id = session.action_store().id_from_name("$all").unwrap().val();

    // a known action resolves to its name, its category and the value
    let outcome = AdvanceOutcome::ActionStartWith(uri_action_id, Value::Str("/x".to_owned()));
    let msg = WebAdvanceBlockedOn::try_from(outcome, session).unwrap();
    assert!(matches!(msg.blocked_on, WebAdvanceBlockedOnType::ActionStartWith));
    assert_eq!(msg.action().as_deref(), Some("$all"));
    assert!(matches!(msg.action_type, Some(ActionType::UriStringTemplate)));
    assert_eq!(msg.start_with(), &Some(Value::Str("/x".to_owned())));

    // an unknown action identifier is a distinguished error
    let bogus = AdvanceOutcome::ActionStartWith(999, Value::Bool(true));
    assert!(matches!(
        WebAdvanceBlockedOn::try_from(bogus, session),
        Err(AdvanceSessionError::ActionIdMissing(999))
    ));

    // the non-blocked outcomes carry no action fields
    let done = WebAdvanceBlockedOn::try_from(AdvanceOutcome::FinishedAdvancing, session).unwrap();
    assert!(matches!(done.blocked_on, WebAdvanceBlockedOnType::FinishedAdvancing));
    assert_eq!(done.action(), &None);
    assert_eq!(done.action_type, None);
    assert_eq!(done.start_with(), &None);
    let stuck = WebAdvanceBlockedOn::try_from(AdvanceOutcome::ActionCannotFulfill, session).unwrap();
    assert!(matches!(stuck.blocked_on, WebAdvanceBlockedOnType::ActionCannotFulfill));
    assert_eq!(stuck.action(), &None);
}

#[test]
fn distinct_sessions_do_not_interfere() {
    // advancing one session leaves another session's state and outcome alone
    let mut store: SessionStore = Registry::new();
    let id_a = create_session(&mut store, JSON, false).unwrap();
    let id_b = create_session(&mut store, JSON, false).unwrap();

    // drive session A two steps ahead
    advance_session(&mut store, id_a as i32, None).unwrap();
    advance_session(
        &mut store,
        id_a as i32,
        Some(r#"{"first_name":"billy","last_name":"bob"}"#),
    )
    .unwrap();

    // session B, advanced alone, still reports its first step
    let b = advance_session(&mut store, id_b as i32, None).unwrap();
    assert_eq!(entry(&b, "startWith"), Some(&str_scalar("/base-path/name")));
    let state_b = get_statedata(&store, id_b as i32).unwrap();
    assert_eq!(state_b.len(), 0);
    let state_a = get_statedata(&store, id_a as i32).unwrap();
    assert_eq!(entry(&state_a, "first_name"), Some(&str_scalar("billy")));
}
