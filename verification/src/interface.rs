//! Reflected shader interface variables and the locators that identify them.
use vstd::prelude::*;

pub use crate::constant::{Constant, ConstantValue};
pub use crate::func::{ExecutionMode, Function};
pub use crate::var::{DescriptorBinding, InterfaceLocation, SpecId};

use crate::ty::{DescriptorType, Type};
use crate::var::{name_str, name_view};

verus! {

/// Variable locator.
#[derive(PartialEq, Eq, Hash, Clone, Copy, Debug, Structural)]
pub enum Locator {
    Input(InterfaceLocation),
    Output(InterfaceLocation),
    Descriptor(DescriptorBinding),
    PushConstant,
    SpecConstant(SpecId),
}

/// A reflected variable: its debug name, where it is bound and its type.
pub trait SpirvVariable {
    /// The characters of the debug name, if there is one.
    spec fn spec_name(&self) -> Option<Seq<char>>;

    /// The locator of the variable.
    spec fn spec_locator(&self) -> Locator;

    /// The concrete type of the variable.
    spec fn spec_ty(&self) -> Type;

    /// Debug name of this variable.
    fn name(&self) -> (r: Option<&str>)
        ensures
            match r {
                Some(s) => self.spec_name() == Some(s@),
                None => self.spec_name() is None,
            },
    ;

    /// Locator of the variable.
    fn locator(&self) -> (r: Locator)
        ensures
            r == self.spec_locator(),
    ;

    /// Concrete type of the variable.
    fn ty(&self) -> (r: &Type)
        ensures
            *r == self.spec_ty(),
    ;
}

#[derive(Debug, Clone, PartialEq, Eq, Hash)]
pub struct InputVariable {
    pub name: Option<String>,
    /// Interface location of input.
    pub location: InterfaceLocation,
    /// The concrete SPIR-V type definition of descriptor resource.
    pub ty: Type,
}

impl SpirvVariable for InputVariable {
    open spec fn spec_name(&self) -> Option<Seq<char>> {
        name_view(self.name)
    }

    open spec fn spec_locator(&self) -> Locator {
        Locator::Input(self.location)
    }

    open spec fn spec_ty(&self) -> Type {
        self.ty
    }

    fn name(&self) -> (r: Option<&str>) {
        proof {
            assert(self.spec_name() == name_view(self.name));
        }
        name_str(&self.name)
    }

    fn locator(&self) -> (r: Locator) {
        proof {
            assert(self.spec_locator() == Locator::Input(self.location));
        }
        Locator::Input(self.location)
    }

    fn ty(&self) -> (r: &Type) {
        proof {
            assert(self.spec_ty() == self.ty);
        }
        &self.ty
    }
}

#[derive(Debug, Clone, PartialEq, Eq, Hash)]
pub struct OutputVariable {
    pub name: Option<String>,
    /// Interface location of output.
    pub location: InterfaceLocation,
    /// The concrete SPIR-V type definition of descriptor resource.
    pub ty: Type,
}

impl SpirvVariable for OutputVariable {
    open spec fn spec_name(&self) -> Option<Seq<char>> {
        name_view(self.name)
    }

    open spec fn spec_locator(&self) -> Locator {
        Locator::Output(self.location)
    }

    open spec fn spec_ty(&self) -> Type {
        self.ty
    }

    fn name(&self) -> (r: Option<&str>) {
        proof {
            assert(self.spec_name() == name_view(self.name));
        }
        name_str(&self.name)
    }

    fn locator(&self) -> (r: Locator) {
        proof {
            assert(self.spec_locator() == Locator::Output(self.location));
        }
        Locator::Output(self.location)
    }

    fn ty(&self) -> (r: &Type) {
        proof {
            assert(self.spec_ty() == self.ty);
        }
        &self.ty
    }
}

#[derive(Debug, Clone, PartialEq, Eq, Hash)]
pub struct DescriptorVariable {
    pub name: Option<String>,
    /// Binding point of descriptor resource.
    pub desc_bind: DescriptorBinding,
    /// Descriptor resource type matching `VkDescriptorType`.
    pub desc_ty: DescriptorType,
    /// The concrete SPIR-V type definition of descriptor resource.
    pub ty: Type,
    /// Number of bindings at the binding point; 0 if the multi-binding is
    /// dynamic.
    pub bind_count: u32,
}

impl SpirvVariable for DescriptorVariable {
    open spec fn spec_name(&self) -> Option<Seq<char>> {
        name_view(self.name)
    }

    open spec fn spec_locator(&self) -> Locator {
        Locator::Descriptor(self.desc_bind)
    }

    open spec fn spec_ty(&self) -> Type {
        self.ty
    }

    fn name(&self) -> (r: Option<&str>) {
        proof {
            assert(self.spec_name() == name_view(self.name));
        }
        name_str(&self.name)
    }

    fn locator(&self) -> (r: Locator) {
        proof {
            assert(self.spec_locator() == Locator::Descriptor(self.desc_bind));
        }
        Locator::Descriptor(self.desc_bind)
    }

    fn ty(&self) -> (r: &Type) {
        proof {
            assert(self.spec_ty() == self.ty);
        }
        &self.ty
    }
}

#[derive(Debug, Clone, PartialEq, Eq, Hash)]
pub struct PushConstantVariable {
    pub name: Option<String>,
    /// The concrete SPIR-V type definition of descriptor resource.
    pub ty: Type,
}

impl SpirvVariable for PushConstantVariable {
    open spec fn spec_name(&self) -> Option<Seq<char>> {
        name_view(self.name)
    }

    open spec fn spec_locator(&self) -> Locator {
        Locator::PushConstant
    }

    open spec fn spec_ty(&self) -> Type {
        self.ty
    }

    fn name(&self) -> (r: Option<&str>) {
        proof {
            assert(self.spec_name() == name_view(self.name));
        }
        name_str(&self.name)
    }

    fn locator(&self) -> (r: Locator) {
        proof {
            assert(self.spec_locator() == Locator::PushConstant);
        }
        Locator::PushConstant
    }

    fn ty(&self) -> (r: &Type) {
        proof {
            assert(self.spec_ty() == self.ty);
        }
        &self.ty
    }
}

#[derive(Debug, Clone, PartialEq, Eq, Hash)]
pub struct SpecConstantVariable {
    pub name: Option<String>,
    /// Specialization constant ID.
    pub spec_id: SpecId,
    /// The concrete SPIR-V type definition of descriptor resource.
    pub ty: Type,
}

impl SpirvVariable for SpecConstantVariable {
    open spec fn spec_name(&self) -> Option<Seq<char>> {
        name_view(self.name)
    }

    open spec fn spec_locator(&self) -> Locator {
        Locator::SpecConstant(self.spec_id)
    }

    open spec fn spec_ty(&self) -> Type {
        self.ty
    }

    fn name(&self) -> (r: Option<&str>) {
        proof {
            assert(self.spec_name() == name_view(self.name));
        }
        name_str(&self.name)
    }

    fn locator(&self) -> (r: Locator) {
        proof {
            assert(self.spec_locator() == Locator::SpecConstant(self.spec_id));
        }
        Locator::SpecConstant(self.spec_id)
    }

    fn ty(&self) -> (r: &Type) {
        proof {
            assert(self.spec_ty() == self.ty);
        }
        &self.ty
    }
}

/// A SPIR-V variable - interface variables, descriptor resources and push
/// constants.
#[derive(Debug, Clone, PartialEq, Eq, Hash)]
pub enum Variable {
    /// Input interface variable.
    Input(InputVariable),
    /// Output interface variable.
    Output(OutputVariable),
    /// Descriptor resource.
    Descriptor(DescriptorVariable),
    /// Push constant.
    PushConstant(PushConstantVariable),
    /// Specialization constant.
    SpecConstant(SpecConstantVariable),
}

impl SpirvVariable for Variable {
    open spec fn spec_name(&self) -> Option<Seq<char>> {
        match self {
            Variable::Input(x) => x.spec_name(),
            Variable::Output(x) => x.spec_name(),
            Variable::Descriptor(x) => x.spec_name(),
            Variable::PushConstant(x) => x.spec_name(),
            Variable::SpecConstant(x) => x.spec_name(),
        }
    }

    open spec fn spec_locator(&self) -> Locator {
        match self {
            Variable::Input(x) => x.spec_locator(),
            Variable::Output(x) => x.spec_locator(),
            Variable::Descriptor(x) => x.spec_locator(),
            Variable::PushConstant(x) => x.spec_locator(),
            Variable::SpecConstant(x) => x.spec_locator(),
        }
    }

    open spec fn spec_ty(&self) -> Type {
        match self {
            Variable::Input(x) => x.spec_ty(),
            Variable::Output(x) => x.spec_ty(),
            Variable::Descriptor(x) => x.spec_ty(),
            Variable::PushConstant(x) => x.spec_ty(),
            Variable::SpecConstant(x) => x.spec_ty(),
        }
    }

    fn name(&self) -> (r: Option<&str>) {
        match self {
            Variable::Input(x) => {
                proof {
                    assert(self.spec_name() == x.spec_name());
                }
                x.name()
            },
            Variable::Output(x) => {
                proof {
                    assert(self.spec_name() == x.spec_name());
                }
                x.name()
            },
            Variable::Descriptor(x) => {
                proof {
                    assert(self.spec_name() == x.spec_name());
                }
                x.name()
            },
            Variable::PushConstant(x) => {
                proof {
                    assert(self.spec_name() == x.spec_name());
                }
                x.name()
            },
            Variable::SpecConstant(x) => {
                proof {
                    assert(self.spec_name() == x.spec_name());
                }
                x.name()
            },
        }
    }

    fn locator(&self) -> (r: Locator) {
        match self {
            Variable::Input(x) => {
                proof {
                    assert(self.spec_locator() == x.spec_locator());
                }
                x.locator()
            },
            Variable::Output(x) => {
                proof {
                    assert(self.spec_locator() == x.spec_locator());
                }
                x.locator()
            },
            Variable::Descriptor(x) => {
                proof {
                    assert(self.spec_locator() == x.spec_locator());
                }
                x.locator()
            },
            Variable::PushConstant(x) => {
                proof {
                    assert(self.spec_locator() == x.spec_locator());
                }
                x.locator()
            },
            Variable::SpecConstant(x) => {
                proof {
                    assert(self.spec_locator() == x.spec_locator());
                }
                x.locator()
            },
        }
    }

    fn ty(&self) -> (r: &Type) {
        match self {
            Variable::Input(x) => {
                proof {
                    assert(self.spec_ty() == x.spec_ty());
                }
                x.ty()
            },
            Variable::Output(x) => {
                proof {
                    assert(self.spec_ty() == x.spec_ty());
                }
                x.ty()
            },
            Variable::Descriptor(x) => {
                proof {
                    assert(self.spec_ty() == x.spec_ty());
                }
                x.ty()
            },
            Variable::PushConstant(x) => {
                proof {
                    assert(self.spec_ty() == x.spec_ty());
                }
                x.ty()
            },
            Variable::SpecConstant(x) => {
                proof {
                    assert(self.spec_ty() == x.spec_ty());
                }
                x.ty()
            },
        }
    }
}

} // verus!
