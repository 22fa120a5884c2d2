//! The error taxonomy of the boundary layer.
//!
//! Identifier errors are distinguished kinds, so a host can tell a stale
//! identifier from other failures; engine validation and engine-internal
//! failures arrive already flattened to descriptive text by the trusted
//! wrappers. Every error renders to a descriptive message string, which is
//! what the transport envelope ships.

use vstd::prelude::*;
use vstd::string::*;

use crate::text::dec_of;
use crate::text::dec_of_int;
use crate::text::dec_string;
use crate::text::dec_string_i32;

verus! {

/// Why a session operation failed.
#[derive(Debug, Clone, PartialEq)]
pub enum AdvanceSessionError {
    /// The host-supplied session identifier is outside the identifier
    /// family's range.
    InvalidSessionId(i32),
    /// No session is bound to this identifier.
    SessionIdMissing(u16),
    /// The advance outcome names an action the action store does not know.
    ActionIdMissing(u16),
    /// Every identifier of the session family has been issued.
    SessionIdsExhausted,
    /// A state entry's variable has no name in the variable store — an
    /// engine-internal inconsistency, not a host input failure.
    VarIdUnnamed(u16),
    /// The engine rejected a workflow definition or step-output payload.
    ParseError(String),
    /// The engine itself reported a failure, surfaced verbatim.
    Error(String),
    /// A boundary failure (lock poisoning, serialization), described
    /// best-effort.
    Other(String),
}

impl AdvanceSessionError {
    /// The descriptive message the error renders to.
    pub open spec fn message_spec(&self) -> Seq<char> {
        match *self {
            AdvanceSessionError::InvalidSessionId(v) => "invalid session id: "@ + dec_of_int(
                v as int,
            ),
            AdvanceSessionError::SessionIdMissing(id) => "session id missing: "@ + dec_of(
                id as nat,
            ),
            AdvanceSessionError::ActionIdMissing(id) => "action id missing: "@ + dec_of(id as nat),
            AdvanceSessionError::SessionIdsExhausted => "session identifiers exhausted"@,
            AdvanceSessionError::VarIdUnnamed(id) => "state variable has no name: "@ + dec_of(
                id as nat,
            ),
            AdvanceSessionError::ParseError(m) => "parse error: "@ + m@,
            AdvanceSessionError::Error(m) => m@,
            AdvanceSessionError::Other(m) => m@,
        }
    }

    /// Render the error to its descriptive message.
    pub fn message(&self) -> (s: String)
        ensures
            s@ == self.message_spec(),
    {
        match self {
            AdvanceSessionError::InvalidSessionId(v) => {
                let mut s = String::from_str("invalid session id: ");
                let num = dec_string_i32(*v);
                s.append(num.as_str());
                s
            },
            AdvanceSessionError::SessionIdMissing(id) => {
                let mut s = String::from_str("session id missing: ");
                let num = dec_string(*id as u64);
                s.append(num.as_str());
                s
            },
            AdvanceSessionError::ActionIdMissing(id) => {
                let mut s = String::from_str("action id missing: ");
                let num = dec_string(*id as u64);
                s.append(num.as_str());
                s
            },
            AdvanceSessionError::SessionIdsExhausted => String::from_str(
                "session identifiers exhausted",
            ),
            AdvanceSessionError::VarIdUnnamed(id) => {
                let mut s = String::from_str("state variable has no name: ");
                let num = dec_string(*id as u64);
                s.append(num.as_str());
                s
            },
            AdvanceSessionError::ParseError(m) => {
                let mut s = String::from_str("parse error: ");
                s.append(m.as_str());
                s
            },
            AdvanceSessionError::Error(m) => m.clone(),
            AdvanceSessionError::Other(m) => m.clone(),
        }
    }
}

/// A boundary error as handed to the structured host binding: it wraps the
/// session error and exposes only its descriptive message.
#[derive(Debug, Clone, PartialEq)]
pub struct WebError {
    error: AdvanceSessionError,
}

impl WebError {
    /// The wrapped error.
    pub closed spec fn inner(&self) -> AdvanceSessionError {
        self.error
    }

    /// Wrap a session error.
    pub fn from_error(error: AdvanceSessionError) -> (w: WebError)
        ensures
            w.inner() == error,
    {
        WebError { error }
    }

    /// The descriptive message of the wrapped error.
    pub fn message(&self) -> (s: String)
        ensures
            s@ == self.inner().message_spec(),
    {
        self.error.message()
    }
}

} // verus!
