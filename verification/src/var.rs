//! Variables: interface locations, descriptor bindings and the variables a
//! module allocates.
use vstd::prelude::*;

use std::collections::HashMap;

use spirv::StorageClass;

use vstd::std_specs::hash::spec_hash_map_iter;
use vstd::std_specs::iter::IteratorSpec;

use crate::error::Error;
use crate::text::{dec_chars, push_dec, push_str};
use crate::ty::{DescriptorType, PointerType, Type};

verus! {

broadcast use vstd::std_specs::hash::group_hash_axioms;

/// Descriptor set and binding point carrier.
#[derive(PartialEq, Eq, PartialOrd, Ord, Hash, Clone, Copy, Debug, Structural)]
pub struct DescriptorBinding(u32, u32);

impl Default for DescriptorBinding {
    fn default() -> (r: DescriptorBinding)
        ensures
            r.spec_set() == 0 && r.spec_bind() == 0,
    {
        DescriptorBinding(0, 0)
    }
}

impl DescriptorBinding {
    /// The descriptor set.
    pub closed spec fn spec_set(self) -> u32 {
        self.0
    }

    /// The binding point.
    pub closed spec fn spec_bind(self) -> u32 {
        self.1
    }

    /// Two bindings are equal exactly when their sets and binding points are.
    pub proof fn lemma_eq(self, other: Self)
        ensures
            (self == other) <==> (self.spec_set() == other.spec_set() && self.spec_bind()
                == other.spec_bind()),
    {
    }

    pub fn new(desc_set: u32, bind_point: u32) -> (r: Self)
        ensures
            r.spec_set() == desc_set,
            r.spec_bind() == bind_point,
    {
        DescriptorBinding(desc_set, bind_point)
    }

    pub fn set(&self) -> (r: u32)
        ensures
            r == self.spec_set(),
    {
        self.0
    }

    pub fn bind(&self) -> (r: u32)
        ensures
            r == self.spec_bind(),
    {
        self.1
    }

    pub fn into_inner(self) -> (r: (u32, u32))
        ensures
            r == (self.spec_set(), self.spec_bind()),
    {
        (self.0, self.1)
    }

    /// Renders the binding as `(set=S, bind=B)`.
    pub fn to_string(&self) -> (r: String)
        ensures
            r@ == "(set="@ + dec_chars(self.spec_set() as nat) + ", bind="@ + dec_chars(
                self.spec_bind() as nat,
            ) + ")"@,
    {
        let mut s = String::new();
        push_str(&mut s, "(set=");
        push_dec(&mut s, self.0 as u64);
        push_str(&mut s, ", bind=");
        push_dec(&mut s, self.1 as u64);
        push_str(&mut s, ")");
        s
    }
}

/// Interface variable location and component.
#[derive(PartialEq, Eq, PartialOrd, Ord, Hash, Clone, Copy, Debug, Structural)]
pub struct InterfaceLocation(u32, u32);

impl Default for InterfaceLocation {
    fn default() -> (r: InterfaceLocation)
        ensures
            r.spec_loc() == 0 && r.spec_comp() == 0,
    {
        InterfaceLocation(0, 0)
    }
}

impl InterfaceLocation {
    /// The location.
    pub closed spec fn spec_loc(self) -> u32 {
        self.0
    }

    /// The component.
    pub closed spec fn spec_comp(self) -> u32 {
        self.1
    }

    /// Two locations are equal exactly when their locations and components
    /// are.
    pub proof fn lemma_eq(self, other: Self)
        ensures
            (self == other) <==> (self.spec_loc() == other.spec_loc() && self.spec_comp()
                == other.spec_comp()),
    {
    }

    pub fn new(loc: u32, comp: u32) -> (r: Self)
        ensures
            r.spec_loc() == loc,
            r.spec_comp() == comp,
    {
        InterfaceLocation(loc, comp)
    }

    pub fn loc(&self) -> (r: u32)
        ensures
            r == self.spec_loc(),
    {
        self.0
    }

    pub fn comp(&self) -> (r: u32)
        ensures
            r == self.spec_comp(),
    {
        self.1
    }

    pub fn into_inner(self) -> (r: (u32, u32))
        ensures
            r == (self.spec_loc(), self.spec_comp()),
    {
        (self.0, self.1)
    }

    /// Renders the location as `(loc=L, comp=C)`.
    pub fn to_string(&self) -> (r: String)
        ensures
            r@ == "(loc="@ + dec_chars(self.spec_loc() as nat) + ", comp="@ + dec_chars(
                self.spec_comp() as nat,
            ) + ")"@,
    {
        let mut s = String::new();
        push_str(&mut s, "(loc=");
        push_dec(&mut s, self.0 as u64);
        push_str(&mut s, ", comp=");
        push_dec(&mut s, self.1 as u64);
        push_str(&mut s, ")");
        s
    }
}

/// Specialization constant ID.
pub type SpecId = u32;

/// The characters of an optional name.
pub open spec fn name_view(name: Option<String>) -> Option<Seq<char>> {
    match name {
        Some(n) => Some(n@),
        None => None,
    }
}

/// Borrows an optional name as a string slice.
pub fn name_str(name: &Option<String>) -> (r: Option<&str>)
    ensures
        match r {
            Some(s) => name_view(*name) == Some(s@),
            None => name_view(*name) is None,
        },
{
    match name {
        Some(n) => Some(n.as_str()),
        None => None,
    }
}

/// A SPIR-V variable - interface variables, descriptor resources and push
/// constants.
#[derive(Debug, Clone, PartialEq, Eq, Hash)]
pub enum Variable {
    /// Input interface variable.
    Input {
        name: Option<String>,
        /// Interface location of input.
        location: InterfaceLocation,
        /// The concrete SPIR-V type definition of descriptor resource.
        ty: Type,
    },
    /// Output interface variable.
    Output {
        name: Option<String>,
        /// Interface location of output.
        location: InterfaceLocation,
        /// The concrete SPIR-V type definition of descriptor resource.
        ty: Type,
    },
    /// Descriptor resource.
    Descriptor {
        name: Option<String>,
        /// Binding point of descriptor resource.
        desc_bind: DescriptorBinding,
        /// Descriptor resource type matching `VkDescriptorType`.
        desc_ty: DescriptorType,
        /// The concrete SPIR-V type definition of descriptor resource.
        ty: Type,
        /// Number of bindings at the binding point; 0 if the multi-binding is
        /// dynamic.
        bind_count: u32,
    },
    /// Push constant.
    PushConstant {
        name: Option<String>,
        /// The concrete SPIR-V type definition of descriptor resource.
        ty: Type,
    },
    /// Specialization constant.
    SpecConstant {
        name: Option<String>,
        /// Specialization constant ID.
        spec_id: SpecId,
        /// The concrete SPIR-V type definition of descriptor resource.
        ty: Type,
    },
}

impl Variable {
    /// The name of the variable, whatever its kind.
    pub open spec fn spec_name(self) -> Option<String> {
        match self {
            Variable::Input { name, .. } => name,
            Variable::Output { name, .. } => name,
            Variable::Descriptor { name, .. } => name,
            Variable::PushConstant { name, .. } => name,
            Variable::SpecConstant { name, .. } => name,
        }
    }

    /// The type of the variable, whatever its kind.
    pub open spec fn spec_ty(self) -> Type {
        match self {
            Variable::Input { ty, .. } => ty,
            Variable::Output { ty, .. } => ty,
            Variable::Descriptor { ty, .. } => ty,
            Variable::PushConstant { ty, .. } => ty,
            Variable::SpecConstant { ty, .. } => ty,
        }
    }

    pub fn name(&self) -> (r: Option<&str>)
        ensures
            match r {
                Some(s) => name_view(self.spec_name()) == Some(s@),
                None => name_view(self.spec_name()) is None,
            },
    {
        match self {
            Variable::Input { name, .. } => name_str(name),
            Variable::Output { name, .. } => name_str(name),
            Variable::Descriptor { name, .. } => name_str(name),
            Variable::PushConstant { name, .. } => name_str(name),
            Variable::SpecConstant { name, .. } => name_str(name),
        }
    }

    pub fn ty(&self) -> (r: &Type)
        ensures
            *r == self.spec_ty(),
    {
        match self {
            Variable::Input { ty, .. } => ty,
            Variable::Output { ty, .. } => ty,
            Variable::Descriptor { ty, .. } => ty,
            Variable::PushConstant { ty, .. } => ty,
            Variable::SpecConstant { ty, .. } => ty,
        }
    }
}

/// Variable allocated by `OpVariable`.
pub struct VariableAlloc {
    pub name: Option<String>,
    /// Variable storage class.
    pub store_cls: StorageClass,
    /// Pointer type of the variable. It points to an array if it's a
    /// multibind. Otherwise, it directly points to the actual inner type.
    pub ptr_ty: PointerType,
}

/// Variables allocated in a module, keyed by their result ids.
pub struct VariableRegistry {
    var_map: HashMap<u32, VariableAlloc>,
}

impl View for VariableRegistry {
    type V = Map<u32, VariableAlloc>;

    closed spec fn view(&self) -> Map<u32, VariableAlloc> {
        self.var_map@
    }
}

impl Default for VariableRegistry {
    fn default() -> (r: VariableRegistry)
        ensures
            r@ == Map::<u32, VariableAlloc>::empty(),
    {
        VariableRegistry { var_map: HashMap::new() }
    }
}

impl VariableRegistry {
    /// Register the variable allocated as `id`. An id can be registered once;
    /// a second registration is refused and leaves the registry unchanged.
    pub fn set(&mut self, id: u32, var: VariableAlloc) -> (r: Result<(), Error>)
        ensures
            r is Ok <==> !old(self)@.contains_key(id),
            r is Ok ==> final(self)@ == old(self)@.insert(id, var),
            r is Err ==> r == Err::<(), Error>(Error::VariableCollision(id)) && final(self)@ == old(self)@,
    {
        if self.var_map.contains_key(&id) {
            Err(Error::VariableCollision(id))
        } else {
            self.var_map.insert(id, var);
            Ok(())
        }
    }

    /// The variable allocated as `id`.
    pub fn get(&self, id: u32) -> (r: Result<&VariableAlloc, Error>)
        ensures
            match r {
                Ok(v) => self@.contains_key(id) && *v == self@[id],
                Err(e) => !self@.contains_key(id) && e == Error::MissingVariable(id),
            },
    {
        match self.var_map.get(&id) {
            Some(v) => Ok(v),
            None => Err(Error::MissingVariable(id)),
        }
    }

    /// All registered variables with their ids, each once, in no particular
    /// order.
    pub fn iter(&self) -> (r: Vec<(u32, &VariableAlloc)>)
        ensures
            r@.len() == self@.dom().len(),
            forall|i: int|
                0 <= i < r@.len() ==> #[trigger] self@.contains_key(r@[i].0) && self@[r@[i].0]
                    == *r@[i].1,
            forall|k: u32| #[trigger] self@.contains_key(k) ==> exists|i: int|
                0 <= i < r@.len() && r@[i].0 == k,
            forall|i: int, j: int| 0 <= i < j < r@.len() ==> r@[i].0 != r@[j].0,
    {
        let mut out: Vec<(u32, &VariableAlloc)> = Vec::new();
        let ghost items = spec_hash_map_iter(&self.var_map).remaining();
        for p in it: self.var_map.iter()
            invariant
                it.seq() == items,
                out@.len() == it.index(),
                forall|i: int|
                    0 <= i < it.index() ==> #[trigger] out@[i] == (*it.seq()[i].0, it.seq()[i].1),
        {
            let (k, v) = p;
            out.push((*k, v));
        }
        assert(forall|i: int| 0 <= i < out@.len() ==> out@[i].0 == *items[i].0);
        assert forall|k: u32| #[trigger] self@.contains_key(k) implies exists|i: int|
            0 <= i < out@.len() && out@[i].0 == k by {
            assert(items.contains((&k, &self@[k])));
            let i = choose|i: int| 0 <= i < items.len() && items[i] == (&k, &self@[k]);
            assert(out@[i].0 == k);
        }
        assert forall|i: int, j: int| 0 <= i < j < out@.len() implies out@[i].0 != out@[j].0 by {
            assert(items.no_duplicates());
            if out@[i].0 == out@[j].0 {
                assert(self@[out@[i].0] == *items[i].1);
                assert(items[i] == items[j]);
            }
        }
        out
    }
}

} // verus!
