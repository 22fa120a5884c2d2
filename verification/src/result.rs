//! The transport envelope of the text binding.
//!
//! Every boundary call's result — success or failure — is wrapped in a JSON
//! document with exactly one top-level key: `"ok"` carrying the call's
//! payload, or `"err"` carrying one descriptive message string. Never both,
//! never neither: see [`lemma_envelope_exclusive`].

use vstd::prelude::*;
use vstd::string::*;

use crate::error::AdvanceSessionError;
use crate::json::payload_text;
use crate::json::payload_wf;
use crate::json::check_payload;
use crate::json::push_payload;
use crate::json::push_quoted;
use crate::json::quoted;
use crate::json::JsonGenerateError;
use crate::json::JsonObj;
use crate::json::JsonPayload;
use crate::text::string_of_chars;

verus! {

/// The outcome of a boundary call, ready for the envelope: a JSON payload
/// on success, a descriptive message on failure.
#[derive(Debug, Clone, PartialEq)]
pub enum StepFlowResult {
    Success(JsonPayload),
    Failure(String),
}

impl StepFlowResult {
    /// Wrap an object-producing call's outcome, flattening the error to its
    /// message.
    pub fn from_obj_result(r: Result<JsonObj, AdvanceSessionError>) -> (s: StepFlowResult)
        ensures
            match r {
                Ok(obj) => s == StepFlowResult::Success(JsonPayload::Object(obj)),
                Err(e) => s matches StepFlowResult::Failure(m) && m@ == e.message_spec(),
            },
    {
        match r {
            Ok(obj) => StepFlowResult::Success(JsonPayload::Object(obj)),
            Err(e) => StepFlowResult::Failure(e.message()),
        }
    }

    /// Wrap a scalar-producing call's outcome, flattening the error to its
    /// message.
    pub fn from_scalar_result(r: Result<crate::json::JsonScalar, AdvanceSessionError>) -> (s:
        StepFlowResult)
        ensures
            match r {
                Ok(v) => s == StepFlowResult::Success(JsonPayload::Scalar(v)),
                Err(e) => s matches StepFlowResult::Failure(m) && m@ == e.message_spec(),
            },
    {
        match r {
            Ok(v) => StepFlowResult::Success(JsonPayload::Scalar(v)),
            Err(e) => StepFlowResult::Failure(e.message()),
        }
    }

    /// The single top-level key of the envelope.
    pub open spec fn envelope_key(&self) -> Seq<char> {
        if self is Success {
            "ok"@
        } else {
            "err"@
        }
    }

    /// The characters of the envelope's single member value.
    pub open spec fn envelope_payload_text(&self) -> Seq<char> {
        match *self {
            StepFlowResult::Success(p) => payload_text(p),
            StepFlowResult::Failure(m) => quoted(m@),
        }
    }

    /// The characters of the whole envelope document.
    pub open spec fn envelope_text_spec(&self) -> Seq<char> {
        seq!['{'] + quoted(self.envelope_key()) + seq![':'] + self.envelope_payload_text()
            + seq!['}']
    }

    /// The envelope can be serialized: a success payload must be
    /// serializable; a failure always is.
    pub open spec fn envelope_wf(&self) -> bool {
        match *self {
            StepFlowResult::Success(p) => payload_wf(p),
            StepFlowResult::Failure(_) => true,
        }
    }

    /// Serialize the envelope to one JSON document.
    pub fn to_json_string(&self) -> (r: Result<String, JsonGenerateError>)
        ensures
            match r {
                Ok(s) => self.envelope_wf() && s@ == self.envelope_text_spec(),
                Err(_) => !self.envelope_wf(),
            },
    {
        match self {
            StepFlowResult::Failure(m) => {
                let mut out: Vec<char> = Vec::new();
                out.push('{');
                push_quoted(&mut out, "err");
                out.push(':');
                push_quoted(&mut out, m.as_str());
                out.push('}');
                proof {
                    assert(out@ =~= self.envelope_text_spec());
                }
                Ok(string_of_chars(&out))
            },
            StepFlowResult::Success(p) => {
                match check_payload(p) {
                    Err(e) => Err(e),
                    Ok(()) => {
                        let mut out: Vec<char> = Vec::new();
                        out.push('{');
                        push_quoted(&mut out, "ok");
                        out.push(':');
                        push_payload(&mut out, p);
                        out.push('}');
                        proof {
                            assert(out@ =~= self.envelope_text_spec());
                        }
                        Ok(string_of_chars(&out))
                    },
                }
            },
        }
    }
}

/// Law: the envelope carries exactly one top-level key — `ok` exactly for a
/// success, `err` exactly for a failure, and the two keys differ.
pub proof fn lemma_envelope_exclusive(r: StepFlowResult)
    ensures
        r is Success <==> r.envelope_key() == "ok"@,
        r is Failure <==> r.envelope_key() == "err"@,
{
    reveal_strlit("ok");
    reveal_strlit("err");
    assert("ok"@.len() == 2);
    assert("err"@.len() == 3);
}

} // verus!
