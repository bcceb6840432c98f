//! The scalar types an assembly text declares, by result id.
use vstd::prelude::*;

use std::collections::HashMap;

use crate::ty::Type;

verus! {

broadcast use vstd::std_specs::hash::group_hash_axioms;

/// A tiny type registry. It serves mainly to decide the input format of
/// OpConstant's LiteralContextDependentNumber, so it holds scalar types.
pub struct TinyTypeRegistry {
    ty_map: HashMap<u32, Type>,
}

impl View for TinyTypeRegistry {
    type V = Map<u32, Type>;

    closed spec fn view(&self) -> Map<u32, Type> {
        self.ty_map@
    }
}

impl Default for TinyTypeRegistry {
    fn default() -> (r: TinyTypeRegistry)
        ensures
            r@ == Map::<u32, Type>::empty(),
    {
        TinyTypeRegistry { ty_map: HashMap::new() }
    }
}

impl TinyTypeRegistry {
    /// Register `ty` as the type declared by the result id `id`, replacing
    /// what the id held before.
    pub fn reg_ty(&mut self, id: u32, ty: Type)
        ensures
            final(self)@ == old(self)@.insert(id, ty),
    {
        self.ty_map.insert(id, ty);
    }
}

} // verus!
