//! The advance-outcome resolver.
//!
//! The engine's advance operation reports a three-way signal: the session
//! needs an action started, no action can fulfill it, or there is nothing
//! left to advance. The resolver turns that signal into the host-facing
//! message: the outcome kind, and — only when an action is needed — the
//! action's stable name, its coarse category, and the value to start it
//! with.

use vstd::prelude::*;
use vstd::string::*;

use crate::engine::action_kind_of;
use crate::engine::action_name_of;
use crate::engine::engine_action_kind;
use crate::engine::engine_action_name;
use crate::error::AdvanceSessionError;
use crate::value::Value;

verus! {

/// The engine's three-way advance signal, with the action identifier and
/// start-with value it carries in the blocked case. Closed: no other
/// variant is ever produced, and resolving code matches exhaustively.
#[derive(Debug, Clone, PartialEq)]
pub enum AdvanceOutcome {
    ActionStartWith(u16, Value),
    ActionCannotFulfill,
    FinishedAdvancing,
}

/// The outcome kind as shipped to the host.
#[derive(Copy, Clone, Debug, PartialEq, Eq, Structural)]
pub enum WebAdvanceBlockedOnType {
    ActionStartWith,
    ActionCannotFulfill,
    FinishedAdvancing,
}

/// Coarse category of an action's runtime kind: a closed set of known
/// categories with `Other` as the forward-compatible catch-all. Advisory
/// for the host UI; never gates engine correctness.
#[derive(Copy, Clone, Debug, PartialEq, Eq, Structural)]
pub enum ActionType {
    UriStringTemplate,
    HtmlStringTemplate,
    SetData,
    HtmlForm,
    Other,
}

impl ActionType {
    /// The wire tag of the category.
    pub open spec fn tag_spec(&self) -> Seq<char> {
        match *self {
            ActionType::UriStringTemplate => "UriStringTemplate"@,
            ActionType::HtmlStringTemplate => "HtmlStringTemplate"@,
            ActionType::SetData => "SetData"@,
            ActionType::HtmlForm => "HtmlForm"@,
            ActionType::Other => "Other"@,
        }
    }

    /// Render the wire tag.
    pub fn tag(&self) -> (s: String)
        ensures
            s@ == self.tag_spec(),
    {
        match self {
            ActionType::UriStringTemplate => String::from_str("UriStringTemplate"),
            ActionType::HtmlStringTemplate => String::from_str("HtmlStringTemplate"),
            ActionType::SetData => String::from_str("SetData"),
            ActionType::HtmlForm => String::from_str("HtmlForm"),
            ActionType::Other => String::from_str("Other"),
        }
    }
}

/// The host-facing advance message.
pub struct WebAdvanceBlockedOn {
    pub blocked_on: WebAdvanceBlockedOnType,
    pub action_name: Option<String>,
    pub action_type: Option<ActionType>,
    pub start_with: Option<Value>,
}

impl WebAdvanceBlockedOn {
    /// The action fields are present exactly when the session is blocked on
    /// starting an action.
    pub open spec fn wf(&self) -> bool {
        match self.blocked_on {
            WebAdvanceBlockedOnType::ActionStartWith => self.action_name is Some
                && self.action_type is Some && self.start_with is Some,
            _ => self.action_name is None && self.action_type is None
                && self.start_with is None,
        }
    }

    /// The resolved action name, as a sequence of characters.
    pub open spec fn spec_action_name(&self) -> Option<Seq<char>> {
        match self.action_name {
            Some(n) => Some(n@),
            None => None,
        }
    }

    /// The resolved action's name, if the message carries one.
    pub fn action(&self) -> (r: &Option<String>)
        ensures
            *r == self.action_name,
    {
        &self.action_name
    }

    /// The value the action should be started with, if the message carries
    /// one.
    pub fn start_with(&self) -> (r: &Option<Value>)
        ensures
            *r == self.start_with,
    {
        &self.start_with
    }

    /// Resolve the engine's advance signal against the session's action
    /// store. Succeeds for every non-blocked outcome; for a blocked one it
    /// succeeds exactly when the action store knows the identifier, and
    /// fails with `ActionIdMissing` otherwise.
    pub fn try_from(advance_result: AdvanceOutcome, session: &stepflow::Session) -> (r: Result<
        WebAdvanceBlockedOn,
        AdvanceSessionError,
    >)
        ensures
            r is Ok ==> r->Ok_0.wf(),
            match advance_result {
                AdvanceOutcome::ActionStartWith(action_id, val) => {
                    &&& (r is Ok <==> action_kind_of(*session, action_id) is Some
                        && action_name_of(*session, action_id) is Some)
                    &&& (r is Ok ==> {
                        &&& r->Ok_0.blocked_on == WebAdvanceBlockedOnType::ActionStartWith
                        &&& r->Ok_0.spec_action_name() == action_name_of(*session, action_id)
                        &&& r->Ok_0.action_type == action_kind_of(*session, action_id)
                        &&& r->Ok_0.start_with == Some(val)
                    })
                    &&& (r is Err ==> r->Err_0 == AdvanceSessionError::ActionIdMissing(action_id))
                },
                AdvanceOutcome::ActionCannotFulfill => r is Ok && r->Ok_0.blocked_on
                    == WebAdvanceBlockedOnType::ActionCannotFulfill,
                AdvanceOutcome::FinishedAdvancing => r is Ok && r->Ok_0.blocked_on
                    == WebAdvanceBlockedOnType::FinishedAdvancing,
            },
    {
        match advance_result {
            AdvanceOutcome::ActionStartWith(action_id, val) => {
                let action_type = match engine_action_kind(session, action_id) {
                    Some(k) => k,
                    None => {
                        return Err(AdvanceSessionError::ActionIdMissing(action_id));
                    },
                };
                let action_name = match engine_action_name(session, action_id) {
                    Some(n) => n,
                    None => {
                        return Err(AdvanceSessionError::ActionIdMissing(action_id));
                    },
                };
                Ok(
                    WebAdvanceBlockedOn {
                        blocked_on: WebAdvanceBlockedOnType::ActionStartWith,
                        action_name: Some(action_name),
                        action_type: Some(action_type),
                        start_with: Some(val),
                    },
                )
            },
            AdvanceOutcome::ActionCannotFulfill => Ok(
                WebAdvanceBlockedOn {
                    blocked_on: WebAdvanceBlockedOnType::ActionCannotFulfill,
                    action_name: None,
                    action_type: None,
                    start_with: None,
                },
            ),
            AdvanceOutcome::FinishedAdvancing => Ok(
                WebAdvanceBlockedOn {
                    blocked_on: WebAdvanceBlockedOnType::FinishedAdvancing,
                    action_name: None,
                    action_type: None,
                    start_with: None,
                },
            ),
        }
    }
}

} // verus!
