//! Trusted boundary to the opaque workflow engine.
//!
//! The engine owns workflow definitions, session state and the advance
//! state machine; this crate consumes it and never re-implements it. Every
//! call into it goes through one of the wrappers below. Verus believes
//! their contracts and reads nothing else of the engine, so each contract
//! states only what the engine's source plainly shows.
//!
//! What the engine's stores hold is given names — `action_name_of`,
//! `state_var_ids` and friends — that are functions of the session value;
//! the wrappers relate their results to those names, and the verified
//! resolver and state reader are exact over them.

use vstd::prelude::*;

use stepflow::action::ActionId;
use stepflow::action::HtmlEscapedString;
use stepflow::action::HtmlFormAction;
use stepflow::action::SetDataAction;
use stepflow::action::StringTemplateAction;
use stepflow::action::UriEscapedString;
use stepflow::data::VarId;
use stepflow::step::StepId;
use stepflow::AdvanceBlockedOn;

use crate::advance_blocked_on::ActionType;
use crate::advance_blocked_on::AdvanceOutcome;
use crate::value::Value;

verus! {

#[verifier::external_type_specification]
#[verifier::external_body]
pub struct ExSession(stepflow::Session);

#[verifier::external_type_specification]
#[verifier::external_body]
pub struct ExStateData(stepflow::data::StateData);

#[verifier::external_type_specification]
#[verifier::external_body]
pub struct ExBaseValue(stepflow::data::BaseValue);

/// The name the session's action store holds for an action identifier.
pub uninterp spec fn action_name_of(s: stepflow::Session, id: u16) -> Option<Seq<char>>;

/// The kind category of the action bound to an identifier, `None` when the
/// action store does not know the identifier.
pub uninterp spec fn action_kind_of(s: stepflow::Session, id: u16) -> Option<ActionType>;

/// The identifiers of the variables present in the session's state data.
pub uninterp spec fn state_var_ids(s: stepflow::Session) -> Set<u16>;

/// The value the session's state data holds for a variable identifier.
pub uninterp spec fn state_value_of(s: stepflow::Session, id: u16) -> Option<Value>;

/// The name the session's variable store holds for a variable identifier.
pub uninterp spec fn var_name_of(s: stepflow::Session, id: u16) -> Option<Seq<char>>;

/// Relies on `stepflow::Session::new`: builds the engine's empty session
/// object around a freshly reserved identifier.
#[verifier::external_body]
pub(crate) fn engine_new_session(id: u16) -> stepflow::Session {
    stepflow::Session::new(stepflow::SessionId::new(id))
}

/// Relies on `stepflow_json::parse_session_json`: parses and validates a
/// workflow definition into the session. Which definitions the engine
/// accepts is its own affair, so nothing is promised of the outcome; the
/// engine's error is flattened to its debug rendering.
#[verifier::external_body]
pub(crate) fn engine_parse_session(
    s: &mut stepflow::Session,
    json: &str,
    allow_implicit_var: bool,
) -> Result<(), String> {
    stepflow_json::parse_session_json(s, json, allow_implicit_var).map_err(
        |e| format!("{:?}", e),
    )
}

/// Relies on `stepflow_json::parse_statedata_json` and
/// `stepflow::Session::var_store`: parses a step-output JSON document
/// against the session's variable store.
#[verifier::external_body]
pub(crate) fn engine_parse_statedata(s: &stepflow::Session, json: &str) -> Result<
    stepflow::data::StateData,
    String,
> {
    stepflow_json::parse_statedata_json(json, s.var_store()).map_err(|e| format!("{:?}", e))
}

/// Relies on `stepflow::Session::current_step`: the identifier of the step
/// the session's cursor stands on.
#[verifier::external_body]
pub(crate) fn engine_current_step(s: &stepflow::Session) -> Result<u16, String> {
    match s.current_step() {
        Ok(step_id) => Ok(step_id.val()),
        Err(e) => Err(format!("{:?}", e)),
    }
}

/// Relies on the three variants of `stepflow::data::BaseValue`: converts the
/// engine scalar to the library's value, rendering a number through its
/// `Display` form (a function of the numeric value alone).
#[verifier::external_body]
pub(crate) fn value_from_base(b: stepflow::data::BaseValue) -> Value {
    match b {
        stepflow::data::BaseValue::String(t) => Value::Str(t),
        stepflow::data::BaseValue::Boolean(v) => Value::Bool(v),
        stepflow::data::BaseValue::Float(x) => Value::Num(format!("{}", x)),
    }
}

/// Relies on `stepflow::Session::advance` and
/// `stepflow::data::Value::get_baseval`: runs the engine's advance state
/// machine on the optional step output. The outcome depends on the
/// session's hidden state, so nothing is promised of which variant comes
/// back; the engine's error is flattened to its debug rendering.
#[verifier::external_body]
pub(crate) fn engine_advance(
    s: &mut stepflow::Session,
    step_output: Option<(u16, stepflow::data::StateData)>,
) -> Result<AdvanceOutcome, String> {
    let r = match step_output {
        None => s.advance(None),
        Some((sid, sd)) => s.advance(Some((&StepId::new(sid), sd))),
    };
    match r {
        Ok(AdvanceBlockedOn::ActionStartWith(aid, v)) =>
            Ok(AdvanceOutcome::ActionStartWith(aid.val(), value_from_base(v.get_baseval()))),
        Ok(AdvanceBlockedOn::ActionCannotFulfill) => Ok(AdvanceOutcome::ActionCannotFulfill),
        Ok(AdvanceBlockedOn::FinishedAdvancing) => Ok(AdvanceOutcome::FinishedAdvancing),
        Err(e) => Err(format!("{:?}", e)),
    }
}

/// Relies on `ObjectStore::get` on the session's action store and the
/// engine's concrete action types: tells the closed set of known action
/// kinds apart, with `Other` for anything else and `None` for an unknown
/// identifier.
#[verifier::external_body]
pub(crate) fn engine_action_kind(s: &stepflow::Session, id: u16) -> (r: Option<ActionType>)
    ensures
        r == action_kind_of(*s, id),
{
    let a = match s.action_store().get(&ActionId::new(id)) {
        None => return None,
        Some(a) => a,
    };
    Some(if a.is::<StringTemplateAction<UriEscapedString>>() { ActionType::UriStringTemplate }
    else if a.is::<StringTemplateAction<HtmlEscapedString>>() { ActionType::HtmlStringTemplate }
    else if a.is::<SetDataAction>() { ActionType::SetData }
    else if a.is::<HtmlFormAction>() { ActionType::HtmlForm }
    else { ActionType::Other })
}

/// Relies on `ObjectStore::name_from_id` on the session's action store.
#[verifier::external_body]
pub(crate) fn engine_action_name(s: &stepflow::Session, id: u16) -> (r: Option<String>)
    ensures
        match r {
            Some(n) => action_name_of(*s, id) == Some(n@),
            None => action_name_of(*s, id) is None,
        },
{
    match s.action_store().name_from_id(&ActionId::new(id)) {
        Some(n) => Some(n.to_owned()),
        None => None,
    }
}

/// Relies on `stepflow::data::StateData::iter_val`: the identifiers of the
/// variables held in the session's state, each exactly once. Their order is
/// the hash map's walk and is deliberately left unstated.
#[verifier::external_body]
pub(crate) fn engine_state_var_ids(s: &stepflow::Session) -> (r: Vec<u16>)
    ensures
        r@.to_set() == state_var_ids(*s),
        r@.no_duplicates(),
{
    s.state_data().iter_val().map(|(vid, _)| vid.val()).collect()
}

/// Relies on `stepflow::data::StateData::get` and
/// `stepflow::data::Value::get_baseval`: the value the state holds for a
/// variable, present for exactly the identifiers the state holds.
#[verifier::external_body]
pub(crate) fn engine_state_value(s: &stepflow::Session, id: u16) -> (r: Option<Value>)
    ensures
        r == state_value_of(*s, id),
        r is Some <==> state_var_ids(*s).contains(id),
{
    match s.state_data().get(&VarId::new(id)) {
        Some(vv) => Some(value_from_base(vv.get_val().get_baseval())),
        None => None,
    }
}

/// Relies on `ObjectStore::name_from_id` on the session's variable store.
#[verifier::external_body]
pub(crate) fn engine_var_name(s: &stepflow::Session, id: u16) -> (r: Option<String>)
    ensures
        match r {
            Some(n) => var_name_of(*s, id) == Some(n@),
            None => var_name_of(*s, id) is None,
        },
{
    match s.var_store().name_from_id(&VarId::new(id)) {
        Some(n) => Some(n.to_owned()),
        None => None,
    }
}

} // verus!
