//! The session store: a registry of live engine sessions.
//!
//! The store itself is a value; the process-wide instance, its lazy
//! construction and its reader/writer lock live with the host glue, which
//! passes the store into every boundary operation here.

use vstd::prelude::*;

use crate::engine::engine_new_session;
use crate::error::AdvanceSessionError;
use crate::registry::Registry;

verus! {

/// The registry of live sessions, indexed by session identifier.
pub type SessionStore = Registry<stepflow::Session>;

/// Reserve a fresh session identifier and bind a new, empty engine session
/// to it. The identifier is never one issued before, and no other entry of
/// the store is touched.
pub fn new_session(store: &mut SessionStore) -> (r: Result<u16, AdvanceSessionError>)
    requires
        old(store).wf(),
    ensures
        final(store).wf(),
        forall|j: u16| final(store).spec_name(j) == old(store).spec_name(j),
        match r {
            Ok(id) => {
                &&& id as int == old(store).issued()
                &&& final(store).issued() == old(store).issued() + 1
                &&& final(store).spec_get(id) is Some
                &&& forall|j: u16|
                    j != id ==> final(store).spec_get(j) == old(store).spec_get(j)
            },
            Err(e) => {
                &&& e matches AdvanceSessionError::SessionIdsExhausted
                &&& old(store).issued() == 0x10000
                &&& *final(store) == *old(store)
            },
        },
{
    let id = match store.reserve_id() {
        Ok(id) => id,
        Err(_) => {
            return Err(AdvanceSessionError::SessionIdsExhausted);
        },
    };
    let sess = engine_new_session(id);
    match store.register(id, sess) {
        Ok(()) => Ok(id),
        Err(_) => unreached(),
    }
}

} // verus!
