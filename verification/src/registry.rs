//! An append-only registry that issues numeric identifiers for live objects
//! and keeps an optional name for each one.
//!
//! Identifiers are issued in strictly increasing order starting at 0 and are
//! never reused, not even when the entry they were reserved for is never
//! bound (a failed construction simply wastes the identifier). Identifier 0
//! is an ordinary identifier, not a sentinel. Every name, if present, belongs
//! to exactly one identifier.

use vstd::prelude::*;

use crate::text::str_eq_chars;

verus! {

/// Why a registry operation could not complete.
#[derive(Debug, Clone, PartialEq)]
pub enum RegistryError {
    /// Every identifier of the 16-bit family has already been issued.
    IdsExhausted,
    /// The identifier was never issued by this registry.
    IdNotReserved(u16),
    /// The identifier is already bound to an object.
    IdAlreadyExists(u16),
    /// The name is already bound to another identifier.
    NameAlreadyExists(String),
}

/// An insertion-ordered store of objects, indexed by a `u16` identifier,
/// with a name-to-identifier side index.
///
/// Slot `i` of `slots` belongs to identifier `i`; a `None` slot is an
/// identifier that was reserved but never bound (or whose construction
/// failed). `names[i]` is the name bound to identifier `i`, if any.
pub struct Registry<T> {
    slots: Vec<Option<T>>,
    names: Vec<Option<String>>,
}

impl<T> Registry<T> {
    /// How many identifiers have been issued so far; also the next fresh one.
    pub closed spec fn issued(&self) -> int {
        self.slots@.len() as int
    }

    /// The object bound to `id`, if any.
    pub closed spec fn spec_get(&self, id: u16) -> Option<T> {
        if (id as int) < self.slots@.len() {
            self.slots@[id as int]
        } else {
            None
        }
    }

    /// The name bound to `id`, if any.
    pub closed spec fn spec_name(&self, id: u16) -> Option<Seq<char>> {
        if (id as int) < self.names@.len() {
            match self.names@[id as int] {
                Some(n) => Some(n@),
                None => None,
            }
        } else {
            None
        }
    }

    /// Whether some identifier carries this name.
    pub closed spec fn has_name(&self, name: Seq<char>) -> bool {
        exists|id: u16| self.spec_name(id) == Some(name)
    }

    /// The identifier carrying this name, if any. Well defined because names
    /// are unique (see `wf`).
    pub closed spec fn spec_id_of(&self, name: Seq<char>) -> Option<u16> {
        if self.has_name(name) {
            Some(choose|id: u16| self.spec_name(id) == Some(name))
        } else {
            None
        }
    }

    /// Structural invariant: the two columns have the same length, at most
    /// one slot per 16-bit identifier exists, and names are unique. Holds
    /// for every registry built with `new` and kept by every operation.
    pub closed spec fn wf(&self) -> bool {
        &&& self.names@.len() == self.slots@.len()
        &&& self.slots@.len() <= 0x10000
        &&& forall|i: int, j: int|
                0 <= i < self.names@.len() && 0 <= j < self.names@.len() && i != j
                    && self.names@[i] is Some && self.names@[j] is Some
                ==> self.names@[i].unwrap()@ != self.names@[j].unwrap()@
    }

    /// Create an empty registry; no identifier has been issued yet.
    pub fn new() -> (r: Registry<T>)
        ensures
            r.wf(),
            r.issued() == 0,
    {
        Registry { slots: Vec::new(), names: Vec::new() }
    }

    /// Allocate a fresh, never-before-issued identifier without binding it to
    /// an object. Fails only when the whole 16-bit family is used up.
    pub fn reserve_id(&mut self) -> (r: Result<u16, RegistryError>)
        requires
            old(self).wf(),
        ensures
            final(self).wf(),
            match r {
                Ok(id) => {
                    &&& id as int == old(self).issued()
                    &&& final(self).issued() == old(self).issued() + 1
                    &&& old(self).spec_get(id) is None
                    &&& old(self).spec_name(id) is None
                    &&& final(self).spec_get(id) is None
                    &&& final(self).spec_name(id) is None
                    &&& forall|j: u16| j != id ==> final(self).spec_get(j) == old(self).spec_get(j)
                    &&& forall|j: u16| j != id ==> final(self).spec_name(j) == old(self).spec_name(j)
                },
                Err(e) => {
                    &&& e matches RegistryError::IdsExhausted
                    &&& old(self).issued() == 0x10000
                    &&& *final(self) == *old(self)
                },
            },
    {
        let n = self.slots.len();
        if n >= 0x10000 {
            Err(RegistryError::IdsExhausted)
        } else {
            self.slots.push(None);
            self.names.push(None);
            Ok(n as u16)
        }
    }

    /// Whether `id` is bound to an object.
    pub fn contains(&self, id: u16) -> (r: bool)
        ensures
            r == (self.spec_get(id) is Some),
    {
        (id as usize) < self.slots.len() && self.slots[id as usize].is_some()
    }

    /// Look up the object bound to `id`; absence is a legitimate state, not
    /// an error.
    pub fn get(&self, id: u16) -> (r: Option<&T>)
        ensures
            match r {
                Some(t) => self.spec_get(id) == Some(*t),
                None => self.spec_get(id) is None,
            },
    {
        if (id as usize) < self.slots.len() {
            match &self.slots[id as usize] {
                Some(t) => Some(t),
                None => None,
            }
        } else {
            None
        }
    }

    /// Mutable access to the object bound to `id`. Callers must know the
    /// identifier is bound; `contains` tells them.
    pub fn get_mut(&mut self, id: u16) -> (r: &mut T)
        requires
            old(self).wf(),
            old(self).spec_get(id) is Some,
        ensures
            *r == old(self).spec_get(id).unwrap(),
            final(self).wf(),
            final(self).issued() == old(self).issued(),
            final(self).spec_get(id) == Some(*final(r)),
            forall|j: u16| j != id ==> final(self).spec_get(j) == old(self).spec_get(j),
            forall|j: u16| final(self).spec_name(j) == old(self).spec_name(j),
    {
        let slot = &mut self.slots[id as usize];
        match slot {
            Some(t) => t,
            None => unreached(),
        }
    }

    /// Bind a reserved-but-unbound identifier to an object.
    pub fn register(&mut self, id: u16, object: T) -> (r: Result<(), RegistryError>)
        requires
            old(self).wf(),
        ensures
            final(self).wf(),
            final(self).issued() == old(self).issued(),
            forall|j: u16| final(self).spec_name(j) == old(self).spec_name(j),
            match r {
                Ok(()) => {
                    &&& (id as int) < old(self).issued()
                    &&& old(self).spec_get(id) is None
                    &&& final(self).spec_get(id) == Some(object)
                    &&& forall|j: u16| j != id ==> final(self).spec_get(j) == old(self).spec_get(j)
                },
                Err(e) => {
                    &&& *final(self) == *old(self)
                    &&& match e {
                        RegistryError::IdNotReserved(i) => i == id && old(self).issued() <= id as int,
                        RegistryError::IdAlreadyExists(i) => i == id && (id as int) < old(self).issued()
                            && old(self).spec_get(id) is Some,
                        _ => false,
                    }
                },
            },
    {
        if (id as usize) >= self.slots.len() {
            return Err(RegistryError::IdNotReserved(id));
        }
        if self.slots[id as usize].is_some() {
            return Err(RegistryError::IdAlreadyExists(id));
        }
        let slot = &mut self.slots[id as usize];
        *slot = Some(object);
        Ok(())
    }

    /// Bind a reserved identifier to an object and give it a name. The name
    /// must not be in use by any other identifier.
    pub fn register_named(&mut self, id: u16, name: String, object: T) -> (r: Result<
        (),
        RegistryError,
    >)
        requires
            old(self).wf(),
        ensures
            final(self).wf(),
            final(self).issued() == old(self).issued(),
            match r {
                Ok(()) => {
                    &&& !old(self).has_name(name@)
                    &&& (id as int) < old(self).issued()
                    &&& old(self).spec_get(id) is None
                    &&& final(self).spec_get(id) == Some(object)
                    &&& final(self).spec_name(id) == Some(name@)
                    &&& forall|j: u16| j != id ==> final(self).spec_get(j) == old(self).spec_get(j)
                    &&& forall|j: u16| j != id ==> final(self).spec_name(j) == old(self).spec_name(
                        j,
                    )
                },
                Err(e) => {
                    &&& *final(self) == *old(self)
                    &&& match e {
                        RegistryError::NameAlreadyExists(n) => n@ == name@ && old(self).has_name(
                            name@,
                        ),
                        RegistryError::IdNotReserved(i) => i == id && !old(self).has_name(name@)
                            && old(self).issued() <= id as int,
                        RegistryError::IdAlreadyExists(i) => i == id && !old(self).has_name(name@)
                            && (id as int) < old(self).issued() && old(self).spec_get(id) is Some,
                        _ => false,
                    }
                },
            },
    {
        if self.id_from_name(name.as_str()).is_some() {
            return Err(RegistryError::NameAlreadyExists(name));
        }
        match self.register(id, object) {
            Err(e) => Err(e),
            Ok(()) => {
                let name_slot = &mut self.names[id as usize];
                *name_slot = Some(name);
                proof {
                    assert forall|i: int, j: int|
                        0 <= i < self.names@.len() && 0 <= j < self.names@.len() && i != j
                            && self.names@[i] is Some && self.names@[j] is Some implies self.names@[i].unwrap()@
                        != self.names@[j].unwrap()@ by {
                        if i == id as int {
                            assert(old(self).spec_name(j as u16) == Some(
                                self.names@[j].unwrap()@,
                            ));
                        } else if j == id as int {
                            assert(old(self).spec_name(i as u16) == Some(
                                self.names@[i].unwrap()@,
                            ));
                        }
                    }
                }
                Ok(())
            },
        }
    }

    /// Reserve a fresh identifier and bind the object to it in one step.
    pub fn insert_new(&mut self, object: T) -> (r: Result<u16, RegistryError>)
        requires
            old(self).wf(),
        ensures
            final(self).wf(),
            match r {
                Ok(id) => {
                    &&& id as int == old(self).issued()
                    &&& final(self).issued() == old(self).issued() + 1
                    &&& final(self).spec_get(id) == Some(object)
                    &&& forall|j: u16| j != id ==> final(self).spec_get(j) == old(self).spec_get(j)
                    &&& forall|j: u16| final(self).spec_name(j) == old(self).spec_name(j)
                },
                Err(e) => {
                    &&& e matches RegistryError::IdsExhausted
                    &&& old(self).issued() == 0x10000
                    &&& *final(self) == *old(self)
                },
            },
    {
        let id = match self.reserve_id() {
            Ok(id) => id,
            Err(e) => {
                return Err(e);
            },
        };
        match self.register(id, object) {
            Ok(()) => Ok(id),
            Err(_) => unreached(),
        }
    }

    /// Reserve a fresh identifier and bind a named object to it in one step.
    /// A name collision still consumes the reserved identifier.
    pub fn insert_new_named(&mut self, name: String, object: T) -> (r: Result<
        u16,
        RegistryError,
    >)
        requires
            old(self).wf(),
        ensures
            final(self).wf(),
            match r {
                Ok(id) => {
                    &&& id as int == old(self).issued()
                    &&& final(self).issued() == old(self).issued() + 1
                    &&& !old(self).has_name(name@)
                    &&& final(self).spec_get(id) == Some(object)
                    &&& final(self).spec_name(id) == Some(name@)
                    &&& forall|j: u16| j != id ==> final(self).spec_get(j) == old(self).spec_get(j)
                    &&& forall|j: u16| j != id ==> final(self).spec_name(j) == old(self).spec_name(
                        j,
                    )
                },
                Err(e) => match e {
                    RegistryError::IdsExhausted => old(self).issued() == 0x10000 && *final(self)
                        == *old(self),
                    RegistryError::NameAlreadyExists(n) => {
                        &&& n@ == name@
                        &&& old(self).has_name(name@)
                        &&& final(self).issued() == old(self).issued() + 1
                        &&& forall|j: u16| final(self).spec_get(j) == old(self).spec_get(j)
                        &&& forall|j: u16| final(self).spec_name(j) == old(self).spec_name(j)
                    },
                    _ => false,
                },
            },
    {
        let id = match self.reserve_id() {
            Ok(id) => id,
            Err(e) => {
                return Err(e);
            },
        };
        match self.register_named(id, name, object) {
            Ok(()) => Ok(id),
            Err(RegistryError::NameAlreadyExists(n)) => Err(RegistryError::NameAlreadyExists(n)),
            Err(_) => unreached(),
        }
    }

    /// The name bound to `id`, if any; anonymous entries are a legitimate
    /// state, not an error.
    pub fn name_from_id(&self, id: u16) -> (r: Option<&String>)
        ensures
            match r {
                Some(n) => self.spec_name(id) == Some(n@),
                None => self.spec_name(id) is None,
            },
    {
        if (id as usize) < self.names.len() {
            match &self.names[id as usize] {
                Some(n) => Some(n),
                None => None,
            }
        } else {
            None
        }
    }

    /// The identifier a name is bound to, if any.
    pub fn id_from_name(&self, name: &str) -> (r: Option<u16>)
        requires
            self.wf(),
        ensures
            r == self.spec_id_of(name@),
    {
        let n = self.names.len();
        let mut i: usize = 0;
        while i < n
            invariant
                self.wf(),
                n == self.names@.len(),
                i <= n,
                forall|k: int|
                    0 <= k < i && self.names@[k] is Some ==> self.names@[k].unwrap()@ != name@,
            decreases n - i,
        {
            let found = match &self.names[i] {
                Some(nm) => str_eq_chars(nm.as_str(), name),
                None => false,
            };
            if found {
                let id = i as u16;
                proof {
                    assert(self.spec_name(id) == Some(name@));
                    let c = choose|cid: u16| self.spec_name(cid) == Some(name@);
                    if c != id {
                        assert(self.names@[c as int] is Some);
                        assert(false);
                    }
                }
                return Some(id);
            }
            i += 1;
        }
        proof {
            if self.has_name(name@) {
                let id = choose|cid: u16| self.spec_name(cid) == Some(name@);
                assert(self.names@[id as int] is Some);
                assert(false);
            }
        }
        None
    }

    /// The object bound to a name, if any.
    pub fn get_by_name(&self, name: &str) -> (r: Option<&T>)
        requires
            self.wf(),
        ensures
            match r {
                Some(t) => self.spec_id_of(name@) is Some && self.spec_get(
                    self.spec_id_of(name@).unwrap(),
                ) == Some(*t),
                None => self.spec_id_of(name@) is None || self.spec_get(
                    self.spec_id_of(name@).unwrap(),
                ) is None,
            },
    {
        match self.id_from_name(name) {
            Some(id) => self.get(id),
            None => None,
        }
    }

    /// Every (name, identifier) pair of the registry, in identifier order —
    /// which is issuance order, so the listing is deterministic for a given
    /// sequence of insertions.
    pub fn iter_names(&self) -> (r: Vec<(String, u16)>)
        requires
            self.wf(),
        ensures
            forall|k: int|
                0 <= k < r@.len() ==> self.spec_name(#[trigger] r@[k].1) == Some(r@[k].0@),
            forall|id: u16|
                self.spec_name(id) is Some ==> exists|k: int|
                    0 <= k < r@.len() && #[trigger] r@[k].1 == id,
            forall|k1: int, k2: int| 0 <= k1 < k2 < r@.len() ==> r@[k1].1 < r@[k2].1,
    {
        let n = self.names.len();
        let mut out: Vec<(String, u16)> = Vec::new();
        let mut i: usize = 0;
        while i < n
            invariant
                self.wf(),
                n == self.names@.len(),
                i <= n,
                forall|k: int|
                    0 <= k < out@.len() ==> self.spec_name(#[trigger] out@[k].1) == Some(
                        out@[k].0@,
                    ),
                forall|id: u16|
                    (id as int) < i && self.spec_name(id) is Some ==> exists|k: int|
                        0 <= k < out@.len() && #[trigger] out@[k].1 == id,
                forall|k: int| 0 <= k < out@.len() ==> (#[trigger] out@[k].1 as int) < i,
                forall|k1: int, k2: int| 0 <= k1 < k2 < out@.len() ==> out@[k1].1 < out@[k2].1,
            decreases n - i,
        {
            let ghost prev = out@;
            let ghost iprev = i as int;
            match &self.names[i] {
                Some(nm) => {
                    out.push((nm.clone(), i as u16));
                },
                None => {},
            }
            i += 1;
            proof {
                assert forall|id: u16| (id as int) < i && self.spec_name(id) is Some implies exists|k: int|
                    0 <= k < out@.len() && #[trigger] out@[k].1 == id by {
                    if (id as int) < iprev {
                        let k = choose|k: int| 0 <= k < prev.len() && #[trigger] prev[k].1 == id;
                        assert(out@[k].1 == id);
                    } else {
                        assert(self.names@[iprev] is Some);
                        assert(out@[out@.len() - 1].1 == id);
                    }
                }
            }
        }
        out
    }

    /// Law: an identifier reserved from a later registry state is strictly
    /// greater than one reserved earlier — however many operations lie in
    /// between, reserved identifiers are pairwise distinct and increase in
    /// issuance order.
    pub proof fn lemma_identifier_uniqueness(
        pre_a: Self,
        post_a: Self,
        id_a: u16,
        pre_b: Self,
        id_b: u16,
    )
        requires
            id_a as int == pre_a.issued(),
            post_a.issued() == pre_a.issued() + 1,
            post_a.issued() <= pre_b.issued(),
            id_b as int == pre_b.issued(),
        ensures
            id_a < id_b,
    {
    }

    /// Law: looking up the name of a bound identifier and resolving that
    /// name again yields the same identifier.
    pub proof fn lemma_name_roundtrip(&self, id: u16)
        requires
            self.wf(),
            self.spec_name(id) is Some,
        ensures
            self.spec_id_of(self.spec_name(id).unwrap()) == Some(id),
    {
        let name = self.spec_name(id).unwrap();
        assert(self.has_name(name));
        let c = choose|cid: u16| self.spec_name(cid) == Some(name);
        if c != id {
            assert(self.names@[c as int] is Some);
            assert(self.names@[id as int] is Some);
            assert(false);
        }
    }

    /// Law: resolving a name to its identifier and reading that identifier's
    /// name again yields the same name.
    pub proof fn lemma_id_roundtrip(&self, name: Seq<char>)
        requires
            self.wf(),
            self.spec_id_of(name) is Some,
        ensures
            self.spec_name(self.spec_id_of(name).unwrap()) == Some(name),
    {
    }
}

} // verus!
