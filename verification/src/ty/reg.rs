//! A registry of SPIR-V types keyed by their result ids.
use vstd::prelude::*;

use std::collections::HashMap;

use crate::error::Error;
use crate::ty::Type;

verus! {

broadcast use vstd::std_specs::hash::group_hash_axioms;

/// Whether a type may be assigned to an id that already holds `prev`: a
/// forward-declared device address may be refined to a device pointer.
pub open spec fn may_replace(prev: Type, next: Type) -> bool {
    prev is DeviceAddress && next is DevicePointer
}

/// Types declared in a module, keyed by their type ids.
pub struct TypeRegistry {
    ty_map: HashMap<u32, Type>,
}

impl View for TypeRegistry {
    type V = Map<u32, Type>;

    closed spec fn view(&self) -> Map<u32, Type> {
        self.ty_map@
    }
}

impl Default for TypeRegistry {
    fn default() -> (r: TypeRegistry)
        ensures
            r@ == Map::<u32, Type>::empty(),
    {
        TypeRegistry { ty_map: HashMap::new() }
    }
}

impl TypeRegistry {
    /// Allocate a type handle referred by `id` and assign a type to it.
    ///
    /// An id can be assigned once, except that a device address assigned
    /// before may be replaced by a device pointer; any other second assignment
    /// is a collision and leaves the registry unchanged.
    pub fn set(&mut self, id: u32, ty: Type) -> (r: Result<(), Error>)
        ensures
            r is Ok <==> (!old(self)@.contains_key(id) || may_replace(old(self)@[id], ty)),
            r is Ok ==> final(self)@ == old(self)@.insert(id, ty),
            r is Err ==> {
                &&& r == Err::<(), Error>(Error::TypeCollision(id))
                &&& old(self)@.contains_key(id)
                &&& !may_replace(old(self)@[id], ty)
                &&& final(self)@ == old(self)@
            },
    {
        let replaceable = match self.ty_map.get(&id) {
            None => true,
            Some(prev) => prev.is_device_address() && ty.is_device_pointer(),
        };
        if replaceable {
            self.ty_map.insert(id, ty);
            Ok(())
        } else {
            Err(Error::TypeCollision(id))
        }
    }

    /// Get the type identified by `id`.
    pub fn get(&self, id: u32) -> (r: Result<&Type, Error>)
        ensures
            match r {
                Ok(t) => self@.contains_key(id) && *t == self@[id],
                Err(e) => !self@.contains_key(id) && e == Error::MissingType(id),
            },
    {
        match self.ty_map.get(&id) {
            Some(t) => Ok(t),
            None => Err(Error::MissingType(id)),
        }
    }
}

/// A type read back from the registry is the one last assigned to its id.
pub proof fn lemma_set_then_get(before: Map<u32, Type>, id: u32, ty: Type, other: u32)
    ensures
        before.insert(id, ty).contains_key(id),
        before.insert(id, ty)[id] == ty,
        other != id ==> before.insert(id, ty).contains_key(other) == before.contains_key(other),
        other != id && before.contains_key(other) ==> before.insert(id, ty)[other] == before[other],
{
}

} // verus!
