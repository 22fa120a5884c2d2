//! Session-level boundary operations: create a session from a workflow
//! definition, advance it with optional step output, and read its state
//! data back as a name-to-value object.

use vstd::prelude::*;

use crate::advance_blocked_on::WebAdvanceBlockedOn;
use crate::engine::engine_advance;
use crate::engine::engine_current_step;
use crate::engine::engine_new_session;
use crate::engine::engine_parse_session;
use crate::engine::engine_parse_statedata;
use crate::engine::engine_state_var_ids;
use crate::engine::engine_state_value;
use crate::engine::engine_var_name;
use crate::engine::state_value_of;
use crate::engine::state_var_ids;
use crate::engine::var_name_of;
use crate::error::AdvanceSessionError;
use crate::json::JsonObj;
use crate::json::JsonScalar;
use crate::session_advance_blockedon::advance_blockedon_to_json_obj;
use crate::session_advance_blockedon::is_rendered_message;
use crate::json::lemma_dec_of_is_json_number;
use crate::json::JsonPayload;
use crate::result::StepFlowResult;
use crate::session_store::SessionStore;
use crate::text::dec_of;
use crate::text::dec_string;
use crate::value::json_value_from_val;
use crate::value::marshal_spec;

verus! {

/// A host-supplied session identifier value is valid when it lies in the
/// 16-bit identifier family.
pub open spec fn valid_session_id_val(v: i32) -> bool {
    0 <= v <= 0xffff
}

/// Narrow the host's identifier value to the identifier family.
fn sessionid_from_val(session_id_val: i32) -> (r: Result<u16, AdvanceSessionError>)
    ensures
        match r {
            Ok(id) => valid_session_id_val(session_id_val) && id as int == session_id_val as int,
            Err(e) => !valid_session_id_val(session_id_val) && e
                == AdvanceSessionError::InvalidSessionId(session_id_val),
        },
{
    if session_id_val < 0 || session_id_val > 0xffff {
        Err(AdvanceSessionError::InvalidSessionId(session_id_val))
    } else {
        Ok(session_id_val as u16)
    }
}

/// Create a session: reserve a fresh identifier, parse the workflow
/// definition into a new session, and bind it only when the parse succeeds.
/// A failed parse still consumes the identifier — it is never reissued —
/// but binds nothing observable: every entry of the store, the wasted slot
/// included, reads as before. Which definitions parse is the engine's own
/// affair.
pub fn create_session(store: &mut SessionStore, json: &str, allow_implicit_var: bool) -> (r:
    Result<u16, AdvanceSessionError>)
    requires
        old(store).wf(),
    ensures
        final(store).wf(),
        forall|j: u16| final(store).spec_name(j) == old(store).spec_name(j),
        old(store).issued() <= final(store).issued() <= old(store).issued() + 1,
        forall|j: u16|
            (j as int) != old(store).issued() ==> final(store).spec_get(j) == old(
                store,
            ).spec_get(j),
        match r {
            Ok(id) => {
                &&& id as int == old(store).issued()
                &&& final(store).issued() == old(store).issued() + 1
                &&& final(store).spec_get(id) is Some
            },
            Err(e) => match e {
                AdvanceSessionError::SessionIdsExhausted => old(store).issued() == 0x10000
                    && *final(store) == *old(store),
                AdvanceSessionError::ParseError(_) => {
                    &&& final(store).issued() == old(store).issued() + 1
                    &&& forall|j: u16| final(store).spec_get(j) == old(store).spec_get(j)
                },
                _ => false,
            },
        },
{
    let id = match store.reserve_id() {
        Ok(id) => id,
        Err(_) => {
            return Err(AdvanceSessionError::SessionIdsExhausted);
        },
    };
    let mut sess = engine_new_session(id);
    match engine_parse_session(&mut sess, json, allow_implicit_var) {
        Ok(()) => match store.register(id, sess) {
            Ok(()) => Ok(id),
            Err(_) => unreached(),
        },
        Err(m) => Err(AdvanceSessionError::ParseError(m)),
    }
}

/// Advance a session: look it up, parse the optional step output against
/// its variable store, pair that with the current step, run the engine's
/// advance, and resolve the outcome into the host-facing message object.
/// A rejected payload leaves the store exactly as it was (the host may
/// correct and resubmit); only the addressed session's entry is ever
/// touched; and every successful result is the rendering of a well-formed
/// advance message.
pub fn advance_session(
    store: &mut SessionStore,
    session_id_val: i32,
    step_output_json: Option<&str>,
) -> (r: Result<JsonObj, AdvanceSessionError>)
    requires
        old(store).wf(),
    ensures
        final(store).wf(),
        final(store).issued() == old(store).issued(),
        forall|j: u16| final(store).spec_name(j) == old(store).spec_name(j),
        forall|j: u16|
            !(valid_session_id_val(session_id_val) && j as int == session_id_val as int)
                ==> final(store).spec_get(j) == old(store).spec_get(j),
        match r {
            Ok(obj) => {
                &&& valid_session_id_val(session_id_val)
                &&& old(store).spec_get(session_id_val as u16) is Some
                &&& exists|w: WebAdvanceBlockedOn| w.wf() && is_rendered_message(w, obj@)
            },
            Err(e) => match e {
                AdvanceSessionError::InvalidSessionId(w) => w == session_id_val
                    && !valid_session_id_val(session_id_val) && *final(store) == *old(store),
                AdvanceSessionError::SessionIdMissing(id) => valid_session_id_val(session_id_val)
                    && id as int == session_id_val as int && old(store).spec_get(id) is None
                    && *final(store) == *old(store),
                AdvanceSessionError::ParseError(_) => valid_session_id_val(session_id_val) && old(
                    store,
                ).spec_get(session_id_val as u16) is Some && *final(store) == *old(store),
                AdvanceSessionError::Error(_) | AdvanceSessionError::ActionIdMissing(_) =>
                    valid_session_id_val(session_id_val) && old(store).spec_get(
                    session_id_val as u16,
                ) is Some,
                _ => false,
            },
        },
{
    let session_id = match sessionid_from_val(session_id_val) {
        Ok(id) => id,
        Err(e) => {
            return Err(e);
        },
    };
    if !store.contains(session_id) {
        return Err(AdvanceSessionError::SessionIdMissing(session_id));
    }
    // parse the optional step output and locate the current step while the
    // session is borrowed only for reading: a rejected payload provably
    // leaves the store untouched
    let (state_data, current_step) = {
        let session = match store.get(session_id) {
            Some(s) => s,
            None => unreached(),
        };
        let state_data = match step_output_json {
            None => None,
            Some(s) => match engine_parse_statedata(session, s) {
                Ok(sd) => Some(sd),
                Err(m) => {
                    return Err(AdvanceSessionError::ParseError(m));
                },
            },
        };
        let current_step = match engine_current_step(session) {
            Ok(step_id) => step_id,
            Err(m) => {
                return Err(AdvanceSessionError::Error(m));
            },
        };
        (state_data, current_step)
    };
    // pair the parsed output with the step the session stands on
    let step_output = match state_data {
        None => None,
        Some(sd) => Some((current_step, sd)),
    };
    let session = store.get_mut(session_id);
    let outcome = match engine_advance(session, step_output) {
        Ok(o) => o,
        Err(m) => {
            return Err(AdvanceSessionError::Error(m));
        },
    };
    let web = match WebAdvanceBlockedOn::try_from(outcome, session) {
        Ok(w) => w,
        Err(e) => {
            return Err(e);
        },
    };
    let obj = advance_blockedon_to_json_obj(&web);
    proof {
        assert(web.wf() && is_rendered_message(web, obj@));
    }
    Ok(obj)
}

/// The object is exactly the session's state data, keyed by variable name:
/// every member comes from a state entry, and every state entry appears.
pub open spec fn statedata_message_ok(s: stepflow::Session, es: Seq<(String, JsonScalar)>) -> bool {
    &&& forall|k: int|
        0 <= k < es.len() ==> exists|id: u16|
            state_var_ids(s).contains(id) && var_name_of(s, id) == Some((#[trigger] es[k]).0@)
                && es[k].1 == marshal_spec(state_value_of(s, id).unwrap())
    &&& forall|id: u16|
        #[trigger] state_var_ids(s).contains(id) ==> var_name_of(s, id) is Some && exists|k: int|
            0 <= k < es.len() && (#[trigger] es[k]).0@ == var_name_of(s, id).unwrap() && es[k].1
                == marshal_spec(state_value_of(s, id).unwrap())
}

/// Read a session's accumulated state data as a name-to-value object: for
/// every variable present in the state, its name resolved through the
/// variable store and its marshaled value. A state entry whose identifier
/// has no name is an engine-internal inconsistency and fails with a
/// distinguished error.
pub fn get_statedata(store: &SessionStore, session_id_val: i32) -> (r: Result<
    JsonObj,
    AdvanceSessionError,
>)
    ensures
        match r {
            Ok(obj) => {
                &&& valid_session_id_val(session_id_val)
                &&& store.spec_get(session_id_val as u16) is Some
                &&& statedata_message_ok(store.spec_get(session_id_val as u16).unwrap(), obj@)
            },
            Err(e) => match e {
                AdvanceSessionError::InvalidSessionId(w) => w == session_id_val
                    && !valid_session_id_val(session_id_val),
                AdvanceSessionError::SessionIdMissing(id) => valid_session_id_val(session_id_val)
                    && id as int == session_id_val as int && store.spec_get(id) is None,
                AdvanceSessionError::VarIdUnnamed(id) => {
                    &&& valid_session_id_val(session_id_val)
                    &&& store.spec_get(session_id_val as u16) matches Some(sess)
                        && state_var_ids(sess).contains(id) && var_name_of(sess, id) is None
                },
                _ => false,
            },
        },
{
    let session_id = match sessionid_from_val(session_id_val) {
        Ok(id) => id,
        Err(e) => {
            return Err(e);
        },
    };
    proof {
        assert(session_id == session_id_val as u16);
    }
    let session = match store.get(session_id) {
        Some(s) => s,
        None => {
            return Err(AdvanceSessionError::SessionIdMissing(session_id));
        },
    };
    let ids = engine_state_var_ids(session);
    let mut obj: JsonObj = Vec::new();
    let n = ids.len();
    let mut i: usize = 0;
    while i < n
        invariant
            valid_session_id_val(session_id_val),
            session_id == session_id_val as u16,
            store.spec_get(session_id) == Some(*session),
            n == ids@.len(),
            i <= n,
            ids@.to_set() == state_var_ids(*session),
            ids@.no_duplicates(),
            obj@.len() == i,
            forall|k: int|
                0 <= k < i ==> {
                    &&& state_var_ids(*session).contains(ids@[k])
                    &&& var_name_of(*session, ids@[k]) == Some((#[trigger] obj@[k]).0@)
                    &&& obj@[k].1 == marshal_spec(state_value_of(*session, ids@[k]).unwrap())
                },
        decreases n - i,
    {
        let id = ids[i];
        proof {
            assert(ids@.contains(ids@[i as int]));
            assert(state_var_ids(*session).contains(id));
        }
        let val = match engine_state_value(session, id) {
            Some(v) => v,
            None => unreached(),
        };
        let name = match engine_var_name(session, id) {
            Some(nm) => nm,
            None => {
                return Err(AdvanceSessionError::VarIdUnnamed(id));
            },
        };
        obj.push((name, json_value_from_val(&val)));
        i += 1;
    }
    proof {
        assert forall|id: u16| #[trigger]
            state_var_ids(*session).contains(id) implies var_name_of(*session, id) is Some
            && exists|k: int|
            0 <= k < obj@.len() && (#[trigger] obj@[k]).0@ == var_name_of(*session, id).unwrap()
                && obj@[k].1 == marshal_spec(state_value_of(*session, id).unwrap()) by {
            assert(ids@.to_set().contains(id));
            assert(ids@.contains(id));
            let k = choose|k: int| 0 <= k < ids@.len() && ids@[k] == id;
            assert(var_name_of(*session, ids@[k]) == Some(obj@[k].0@));
            assert((obj@[k]).0@ == var_name_of(*session, id).unwrap());
        }
        assert forall|k: int| 0 <= k < obj@.len() implies exists|id: u16|
            state_var_ids(*session).contains(id) && var_name_of(*session, id) == Some(
                (#[trigger] obj@[k]).0@,
            ) && obj@[k].1 == marshal_spec(state_value_of(*session, id).unwrap()) by {
            assert(state_var_ids(*session).contains(ids@[k]) && var_name_of(*session, ids@[k])
                == Some(obj@[k].0@) && obj@[k].1 == marshal_spec(
                state_value_of(*session, ids@[k]).unwrap(),
            ));
        }
    }
    Ok(obj)
}

/// Create a session and wrap the outcome for the envelope: on success the
/// payload is the fresh identifier as a JSON number, which always
/// serializes; on failure, the rendered message of an error the create
/// really produced, with its effect on the store.
pub fn create_session_result(store: &mut SessionStore, json: &str, allow_implicit_var: bool) -> (
    res: StepFlowResult)
    requires
        old(store).wf(),
    ensures
        final(store).wf(),
        forall|j: u16| final(store).spec_name(j) == old(store).spec_name(j),
        old(store).issued() <= final(store).issued() <= old(store).issued() + 1,
        forall|j: u16|
            (j as int) != old(store).issued() ==> final(store).spec_get(j) == old(
                store,
            ).spec_get(j),
        res.envelope_wf(),
        match res {
            StepFlowResult::Success(p) => {
                &&& p matches JsonPayload::Scalar(JsonScalar::Num(t)) && t@ == dec_of(
                    old(store).issued() as nat,
                )
                &&& final(store).issued() == old(store).issued() + 1
                &&& final(store).spec_get(old(store).issued() as u16) is Some
            },
            StepFlowResult::Failure(m) => exists|e: AdvanceSessionError|
                m@ == e.message_spec() && match e {
                    AdvanceSessionError::SessionIdsExhausted => old(store).issued() == 0x10000
                        && *final(store) == *old(store),
                    AdvanceSessionError::ParseError(_) => final(store).issued() == old(
                        store,
                    ).issued() + 1 && forall|j: u16|
                        final(store).spec_get(j) == old(store).spec_get(j),
                    _ => false,
                },
        },
{
    match create_session(store, json, allow_implicit_var) {
        Ok(id) => {
            let num = dec_string(id as u64);
            proof {
                lemma_dec_of_is_json_number(id as nat);
            }
            StepFlowResult::Success(JsonPayload::Scalar(JsonScalar::Num(num)))
        },
        Err(e) => StepFlowResult::Failure(e.message()),
    }
}

/// Advance a session and wrap the outcome for the envelope: the rendering
/// of a well-formed advance message on success, and on failure the rendered
/// message of an error the advance really produced, with its effect on the
/// store.
pub fn advance_session_result(
    store: &mut SessionStore,
    session_id_val: i32,
    step_output_json: Option<&str>,
) -> (res: StepFlowResult)
    requires
        old(store).wf(),
    ensures
        final(store).wf(),
        final(store).issued() == old(store).issued(),
        forall|j: u16| final(store).spec_name(j) == old(store).spec_name(j),
        forall|j: u16|
            !(valid_session_id_val(session_id_val) && j as int == session_id_val as int)
                ==> final(store).spec_get(j) == old(store).spec_get(j),
        match res {
            StepFlowResult::Success(p) => p matches JsonPayload::Object(obj)
                && valid_session_id_val(session_id_val) && old(store).spec_get(
                session_id_val as u16,
            ) is Some && (exists|w: WebAdvanceBlockedOn| w.wf() && is_rendered_message(w, obj@)),
            StepFlowResult::Failure(m) => exists|e: AdvanceSessionError|
                m@ == e.message_spec() && match e {
                    AdvanceSessionError::InvalidSessionId(v) => v == session_id_val
                        && !valid_session_id_val(session_id_val) && *final(store) == *old(store),
                    AdvanceSessionError::SessionIdMissing(id) => valid_session_id_val(
                        session_id_val,
                    ) && id as int == session_id_val as int && old(store).spec_get(id) is None
                        && *final(store) == *old(store),
                    AdvanceSessionError::ParseError(_) => valid_session_id_val(session_id_val)
                        && old(store).spec_get(session_id_val as u16) is Some && *final(store)
                        == *old(store),
                    AdvanceSessionError::Error(_) | AdvanceSessionError::ActionIdMissing(_) =>
                        valid_session_id_val(session_id_val) && old(store).spec_get(
                        session_id_val as u16,
                    ) is Some,
                    _ => false,
                },
        },
{
    match advance_session(store, session_id_val, step_output_json) {
        Ok(obj) => StepFlowResult::Success(JsonPayload::Object(obj)),
        Err(e) => StepFlowResult::Failure(e.message()),
    }
}

/// Law: mutating calls against distinct sessions do not interfere. A call
/// that touches only session `a`'s entry (as `advance_session` promises)
/// followed by one that touches only session `b`'s leaves `a`'s entry
/// exactly as the first call left it, and left `b`'s untouched until the
/// second — so each session ends in the state its own calls alone produce.
/// (That two such calls never overlap is the session store lock's duty,
/// which the host glue holds for the whole of every mutating call.)
pub proof fn lemma_distinct_sessions_commute(
    s0: SessionStore,
    s1: SessionStore,
    s2: SessionStore,
    a: u16,
    b: u16,
)
    requires
        a != b,
        forall|j: u16| j != a ==> s1.spec_get(j) == s0.spec_get(j),
        forall|j: u16| j != b ==> s2.spec_get(j) == s1.spec_get(j),
    ensures
        s2.spec_get(a) == s1.spec_get(a),
        s1.spec_get(b) == s0.spec_get(b),
{
}

/// Read a session's state data and wrap the outcome for the envelope: the
/// name-to-value object on success, and on failure the rendered message of
/// an error the read really produced.
pub fn get_statedata_result(store: &SessionStore, session_id_val: i32) -> (res: StepFlowResult)
    ensures
        match res {
            StepFlowResult::Success(p) => p matches JsonPayload::Object(obj)
                && valid_session_id_val(session_id_val) && (store.spec_get(
                session_id_val as u16,
            ) matches Some(sess) && statedata_message_ok(sess, obj@)),
            StepFlowResult::Failure(m) => exists|e: AdvanceSessionError|
                m@ == e.message_spec() && match e {
                    AdvanceSessionError::InvalidSessionId(v) => v == session_id_val
                        && !valid_session_id_val(session_id_val),
                    AdvanceSessionError::SessionIdMissing(id) => valid_session_id_val(
                        session_id_val,
                    ) && id as int == session_id_val as int && store.spec_get(id) is None,
                    AdvanceSessionError::VarIdUnnamed(id) => valid_session_id_val(session_id_val)
                        && (store.spec_get(session_id_val as u16) matches Some(sess)
                        && state_var_ids(sess).contains(id) && var_name_of(sess, id) is None),
                    _ => false,
                },
        },
{
    match get_statedata(store, session_id_val) {
        Ok(obj) => StepFlowResult::Success(JsonPayload::Object(obj)),
        Err(e) => StepFlowResult::Failure(e.message()),
    }
}

} // verus!
