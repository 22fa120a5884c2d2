//! Rendering of the advance message as a flat JSON object.

use vstd::prelude::*;
use vstd::string::*;

use crate::advance_blocked_on::WebAdvanceBlockedOn;
use crate::advance_blocked_on::WebAdvanceBlockedOnType;
use crate::json::JsonObj;
use crate::json::JsonScalar;
use crate::value::json_value_from_val;
use crate::value::marshal_spec;

verus! {

/// The wire tag of an outcome kind.
pub open spec fn blockedon_tag_text(t: WebAdvanceBlockedOnType) -> Seq<char> {
    match t {
        WebAdvanceBlockedOnType::ActionStartWith => "StartWith"@,
        WebAdvanceBlockedOnType::ActionCannotFulfill => "CannotFulfill"@,
        WebAdvanceBlockedOnType::FinishedAdvancing => "FinishedAdvancing"@,
    }
}

/// The scalar is a JSON string with exactly these characters.
pub open spec fn scalar_is_str(s: JsonScalar, t: Seq<char>) -> bool {
    match s {
        JsonScalar::Str(x) => x@ == t,
        _ => false,
    }
}

/// The object is exactly the rendering of the message `w`: the `blockedOn`
/// member always, holding the outcome tag as a JSON string, and — exactly
/// when the outcome is `StartWith` — the action's name, its category tag and
/// the marshaled start-with value, nothing else.
pub open spec fn is_rendered_message(w: WebAdvanceBlockedOn, es: Seq<(String, JsonScalar)>) -> bool {
    &&& es.len() == (if w.blocked_on == WebAdvanceBlockedOnType::ActionStartWith {
        4int
    } else {
        1int
    })
    &&& es[0].0@ == "blockedOn"@
    &&& scalar_is_str(es[0].1, blockedon_tag_text(w.blocked_on))
    &&& w.blocked_on == WebAdvanceBlockedOnType::ActionStartWith ==> {
        &&& es[1].0@ == "actionName"@
        &&& scalar_is_str(es[1].1, w.spec_action_name().unwrap())
        &&& es[2].0@ == "actionType"@
        &&& scalar_is_str(es[2].1, w.action_type.unwrap().tag_spec())
        &&& es[3].0@ == "startWith"@
        &&& es[3].1 == marshal_spec(w.start_with.unwrap())
    }
}

fn tag_scalar(t: WebAdvanceBlockedOnType) -> (s: JsonScalar)
    ensures
        scalar_is_str(s, blockedon_tag_text(t)),
{
    match t {
        WebAdvanceBlockedOnType::ActionStartWith => JsonScalar::Str(String::from_str("StartWith")),
        WebAdvanceBlockedOnType::ActionCannotFulfill => JsonScalar::Str(
            String::from_str("CannotFulfill"),
        ),
        WebAdvanceBlockedOnType::FinishedAdvancing => JsonScalar::Str(
            String::from_str("FinishedAdvancing"),
        ),
    }
}

/// Render the advance message as the flat JSON object the host receives:
/// the outcome tag always, and the action name, category tag and marshaled
/// start-with value exactly when the outcome is `StartWith`.
pub fn advance_blockedon_to_json_obj(w: &WebAdvanceBlockedOn) -> (obj: JsonObj)
    requires
        w.wf(),
    ensures
        is_rendered_message(*w, obj@),
{
    let mut obj: JsonObj = Vec::new();
    obj.push((String::from_str("blockedOn"), tag_scalar(w.blocked_on)));
    match (&w.action_name, &w.action_type, &w.start_with) {
        (Some(name), Some(kind), Some(val)) => {
            obj.push((String::from_str("actionName"), JsonScalar::Str(name.clone())));
            obj.push((String::from_str("actionType"), JsonScalar::Str(kind.tag())));
            obj.push((String::from_str("startWith"), json_value_from_val(val)));
        },
        _ => {},
    }
    obj
}

} // verus!
