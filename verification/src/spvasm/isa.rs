//! What the assembler and the disassembler are told of the instruction set:
//! the names of instructions, which of them have a result type id and a
//! result id, and the names of enumerants.
use vstd::prelude::*;

use crate::error::Error;
use crate::spvasm::operand_layout::EnumKind;
use crate::spvasm::print_operand::EnumName;
use crate::text::owned;

verus! {

/// An instruction: its name in assembly, its opcode, and whether it has a
/// result type id and a result id.
pub struct OpInfo {
    pub name: String,
    pub opcode: u32,
    pub has_result_type_id: bool,
    pub has_result_id: bool,
}

/// The instructions and enumerant names the assembler and the disassembler
/// work with; the first entry given for a name or an opcode counts.
pub struct InstructionSet {
    pub ops: Vec<OpInfo>,
    pub enums: Vec<EnumName>,
}

/// The name of an enum kind, as the operand tables name it.
pub open spec fn enum_kind_text(k: EnumKind) -> Seq<char> {
    match k {
        EnumKind::ImageOperands => "ImageOperands"@,
        EnumKind::FPFastMathMode => "FPFastMathMode"@,
        EnumKind::SelectionControl => "SelectionControl"@,
        EnumKind::LoopControl => "LoopControl"@,
        EnumKind::FunctionControl => "FunctionControl"@,
        EnumKind::MemorySemantics => "MemorySemantics"@,
        EnumKind::MemoryAccess => "MemoryAccess"@,
        EnumKind::KernelProfilingInfo => "KernelProfilingInfo"@,
        EnumKind::RayFlags => "RayFlags"@,
        EnumKind::FragmentShadingRate => "FragmentShadingRate"@,
        EnumKind::SourceLanguage => "SourceLanguage"@,
        EnumKind::ExecutionModel => "ExecutionModel"@,
        EnumKind::AddressingModel => "AddressingModel"@,
        EnumKind::MemoryModel => "MemoryModel"@,
        EnumKind::ExecutionMode => "ExecutionMode"@,
        EnumKind::StorageClass => "StorageClass"@,
        EnumKind::Dim => "Dim"@,
        EnumKind::SamplerAddressingMode => "SamplerAddressingMode"@,
        EnumKind::SamplerFilterMode => "SamplerFilterMode"@,
        EnumKind::ImageFormat => "ImageFormat"@,
        EnumKind::ImageChannelOrder => "ImageChannelOrder"@,
        EnumKind::ImageChannelDataType => "ImageChannelDataType"@,
        EnumKind::FPRoundingMode => "FPRoundingMode"@,
        EnumKind::FPDenormMode => "FPDenormMode"@,
        EnumKind::QuantizationModes => "QuantizationModes"@,
        EnumKind::FPOperationMode => "FPOperationMode"@,
        EnumKind::OverflowModes => "OverflowModes"@,
        EnumKind::LinkageType => "LinkageType"@,
        EnumKind::AccessQualifier => "AccessQualifier"@,
        EnumKind::HostAccessQualifier => "HostAccessQualifier"@,
        EnumKind::FunctionParameterAttribute => "FunctionParameterAttribute"@,
        EnumKind::Decoration => "Decoration"@,
        EnumKind::BuiltIn => "BuiltIn"@,
        EnumKind::Scope => "Scope"@,
        EnumKind::GroupOperation => "GroupOperation"@,
        EnumKind::KernelEnqueueFlags => "KernelEnqueueFlags"@,
        EnumKind::Capability => "Capability"@,
        EnumKind::RayQueryIntersection => "RayQueryIntersection"@,
        EnumKind::RayQueryCommittedIntersectionType => "RayQueryCommittedIntersectionType"@,
        EnumKind::RayQueryCandidateIntersectionType => "RayQueryCandidateIntersectionType"@,
        EnumKind::PackedVectorFormat => "PackedVectorFormat"@,
        EnumKind::CooperativeMatrixOperands => "CooperativeMatrixOperands"@,
        EnumKind::CooperativeMatrixLayout => "CooperativeMatrixLayout"@,
        EnumKind::CooperativeMatrixUse => "CooperativeMatrixUse"@,
        EnumKind::InitializationModeQualifier => "InitializationModeQualifier"@,
        EnumKind::LoadCacheControl => "LoadCacheControl"@,
        EnumKind::StoreCacheControl => "StoreCacheControl"@,
    }
}

/// The name of an enum kind, as the operand tables name it.
pub fn enum_kind_name(k: EnumKind) -> (r: &'static str)
    ensures
        r@ == enum_kind_text(k),
{
    match k {
        EnumKind::ImageOperands => "ImageOperands",
        EnumKind::FPFastMathMode => "FPFastMathMode",
        EnumKind::SelectionControl => "SelectionControl",
        EnumKind::LoopControl => "LoopControl",
        EnumKind::FunctionControl => "FunctionControl",
        EnumKind::MemorySemantics => "MemorySemantics",
        EnumKind::MemoryAccess => "MemoryAccess",
        EnumKind::KernelProfilingInfo => "KernelProfilingInfo",
        EnumKind::RayFlags => "RayFlags",
        EnumKind::FragmentShadingRate => "FragmentShadingRate",
        EnumKind::SourceLanguage => "SourceLanguage",
        EnumKind::ExecutionModel => "ExecutionModel",
        EnumKind::AddressingModel => "AddressingModel",
        EnumKind::MemoryModel => "MemoryModel",
        EnumKind::ExecutionMode => "ExecutionMode",
        EnumKind::StorageClass => "StorageClass",
        EnumKind::Dim => "Dim",
        EnumKind::SamplerAddressingMode => "SamplerAddressingMode",
        EnumKind::SamplerFilterMode => "SamplerFilterMode",
        EnumKind::ImageFormat => "ImageFormat",
        EnumKind::ImageChannelOrder => "ImageChannelOrder",
        EnumKind::ImageChannelDataType => "ImageChannelDataType",
        EnumKind::FPRoundingMode => "FPRoundingMode",
        EnumKind::FPDenormMode => "FPDenormMode",
        EnumKind::QuantizationModes => "QuantizationModes",
        EnumKind::FPOperationMode => "FPOperationMode",
        EnumKind::OverflowModes => "OverflowModes",
        EnumKind::LinkageType => "LinkageType",
        EnumKind::AccessQualifier => "AccessQualifier",
        EnumKind::HostAccessQualifier => "HostAccessQualifier",
        EnumKind::FunctionParameterAttribute => "FunctionParameterAttribute",
        EnumKind::Decoration => "Decoration",
        EnumKind::BuiltIn => "BuiltIn",
        EnumKind::Scope => "Scope",
        EnumKind::GroupOperation => "GroupOperation",
        EnumKind::KernelEnqueueFlags => "KernelEnqueueFlags",
        EnumKind::Capability => "Capability",
        EnumKind::RayQueryIntersection => "RayQueryIntersection",
        EnumKind::RayQueryCommittedIntersectionType => "RayQueryCommittedIntersectionType",
        EnumKind::RayQueryCandidateIntersectionType => "RayQueryCandidateIntersectionType",
        EnumKind::PackedVectorFormat => "PackedVectorFormat",
        EnumKind::CooperativeMatrixOperands => "CooperativeMatrixOperands",
        EnumKind::CooperativeMatrixLayout => "CooperativeMatrixLayout",
        EnumKind::CooperativeMatrixUse => "CooperativeMatrixUse",
        EnumKind::InitializationModeQualifier => "InitializationModeQualifier",
        EnumKind::LoadCacheControl => "LoadCacheControl",
        EnumKind::StoreCacheControl => "StoreCacheControl",
    }
}

/// The first instruction named `name`.
pub open spec fn op_by_name(ops: Seq<OpInfo>, name: Seq<char>) -> Option<OpInfo>
    decreases ops.len(),
{
    if ops.len() == 0 {
        None
    } else if ops[0].name@ == name {
        Some(ops[0])
    } else {
        op_by_name(ops.drop_first(), name)
    }
}

/// The first instruction with opcode `opcode`.
pub open spec fn op_by_code(ops: Seq<OpInfo>, opcode: u32) -> Option<OpInfo>
    decreases ops.len(),
{
    if ops.len() == 0 {
        None
    } else if ops[0].opcode == opcode {
        Some(ops[0])
    } else {
        op_by_code(ops.drop_first(), opcode)
    }
}

/// The value of the first enumerant of the kind named `kind` that is named
/// `name`.
pub open spec fn enum_by_name(enums: Seq<EnumName>, kind: Seq<char>, name: Seq<char>) -> Option<u32>
    decreases enums.len(),
{
    if enums.len() == 0 {
        None
    } else if enum_kind_text(enums[0].kind) == kind && enums[0].name@ == name {
        Some(enums[0].value)
    } else {
        enum_by_name(enums.drop_first(), kind, name)
    }
}

fn find_op_by_code(isa: &InstructionSet, opcode: u32) -> (r: Option<usize>)
    ensures
        match op_by_code(isa.ops@, opcode) {
            Some(o) => r matches Some(i) && i < isa.ops@.len() && isa.ops@[i as int] == o,
            None => r is None,
        },
{
    let mut i: usize = 0;
    assert(isa.ops@.skip(0) =~= isa.ops@);
    while i < isa.ops.len()
        invariant
            i <= isa.ops@.len(),
            op_by_code(isa.ops@, opcode) == op_by_code(isa.ops@.skip(i as int), opcode),
        decreases isa.ops@.len() - i,
    {
        assert(isa.ops@.skip(i as int).drop_first() =~= isa.ops@.skip(i + 1));
        assert(isa.ops@.skip(i as int)[0] == isa.ops@[i as int]);
        if isa.ops[i].opcode == opcode {
            return Some(i);
        }
        i = i + 1;
    }
    None
}

/// The opcode of the instruction named `name`.
pub fn op_from_str(isa: &InstructionSet, name: &str) -> (r: Result<u32, Error>)
    ensures
        match op_by_name(isa.ops@, name@) {
            Some(o) => r == Ok::<u32, Error>(o.opcode),
            None => r == Err::<u32, Error>(Error::UnknownOpName),
        },
{
    let target = owned(name);
    let mut i: usize = 0;
    assert(isa.ops@.skip(0) =~= isa.ops@);
    while i < isa.ops.len()
        invariant
            i <= isa.ops@.len(),
            target@ == name@,
            op_by_name(isa.ops@, name@) == op_by_name(isa.ops@.skip(i as int), name@),
        decreases isa.ops@.len() - i,
    {
        assert(isa.ops@.skip(i as int).drop_first() =~= isa.ops@.skip(i + 1));
        assert(isa.ops@.skip(i as int)[0] == isa.ops@[i as int]);
        if isa.ops[i].name == target {
            return Ok(isa.ops[i].opcode);
        }
        i = i + 1;
    }
    Err(Error::UnknownOpName)
}

/// The name of the instruction with opcode `opcode`.
pub fn op_to_str(isa: &InstructionSet, opcode: u32) -> (r: Result<&str, Error>)
    ensures
        match op_by_code(isa.ops@, opcode) {
            Some(o) => r matches Ok(s) && s@ == o.name@,
            None => r == Err::<&str, Error>(Error::UnsupportedOpcode(opcode)),
        },
{
    match find_op_by_code(isa, opcode) {
        Some(i) => Ok(isa.ops[i].name.as_str()),
        None => Err(Error::UnsupportedOpcode(opcode)),
    }
}

/// Whether the instruction with opcode `opcode` has a result id.
pub fn op_has_result_id(isa: &InstructionSet, opcode: u32) -> (r: Result<bool, Error>)
    ensures
        match op_by_code(isa.ops@, opcode) {
            Some(o) => r == Ok::<bool, Error>(o.has_result_id),
            None => r == Err::<bool, Error>(Error::UnsupportedOpcode(opcode)),
        },
{
    match find_op_by_code(isa, opcode) {
        Some(i) => Ok(isa.ops[i].has_result_id),
        None => Err(Error::UnsupportedOpcode(opcode)),
    }
}

/// Whether the instruction with opcode `opcode` has a result type id.
pub fn op_has_result_type_id(isa: &InstructionSet, opcode: u32) -> (r: Result<bool, Error>)
    ensures
        match op_by_code(isa.ops@, opcode) {
            Some(o) => r == Ok::<bool, Error>(o.has_result_type_id),
            None => r == Err::<bool, Error>(Error::UnsupportedOpcode(opcode)),
        },
{
    match find_op_by_code(isa, opcode) {
        Some(i) => Ok(isa.ops[i].has_result_type_id),
        None => Err(Error::UnsupportedOpcode(opcode)),
    }
}

/// The value of the enumerant named `name` of the kind named `kind`.
pub fn enum_from_str(isa: &InstructionSet, kind: &str, name: &str) -> (r: Result<u32, Error>)
    ensures
        match enum_by_name(isa.enums@, kind@, name@) {
            Some(v) => r == Ok::<u32, Error>(v),
            None => r == Err::<u32, Error>(Error::UnknownEnumerantName),
        },
{
    let kind_s = owned(kind);
    let name_s = owned(name);
    let mut i: usize = 0;
    assert(isa.enums@.skip(0) =~= isa.enums@);
    while i < isa.enums.len()
        invariant
            i <= isa.enums@.len(),
            kind_s@ == kind@,
            name_s@ == name@,
            enum_by_name(isa.enums@, kind@, name@) == enum_by_name(isa.enums@.skip(i as int), kind@, name@),
        decreases isa.enums@.len() - i,
    {
        assert(isa.enums@.skip(i as int).drop_first() =~= isa.enums@.skip(i + 1));
        assert(isa.enums@.skip(i as int)[0] == isa.enums@[i as int]);
        let k = owned(enum_kind_name(isa.enums[i].kind));
        if k == kind_s && isa.enums[i].name == name_s {
            return Ok(isa.enums[i].value);
        }
        i = i + 1;
    }
    Err(Error::UnknownEnumerantName)
}

} // verus!
