//! Operand layouts of SPIR-V instructions and of the parameters that
//! enumerants carry, as the assembly printer reads them.
use vstd::prelude::*;

verus! {

/// An operand kind whose values are enumerants.
#[derive(Debug, Clone, Copy, PartialEq, Eq, Structural)]
pub enum EnumKind {
    ImageOperands,
    FPFastMathMode,
    SelectionControl,
    LoopControl,
    FunctionControl,
    MemorySemantics,
    MemoryAccess,
    KernelProfilingInfo,
    RayFlags,
    FragmentShadingRate,
    SourceLanguage,
    ExecutionModel,
    AddressingModel,
    MemoryModel,
    ExecutionMode,
    StorageClass,
    Dim,
    SamplerAddressingMode,
    SamplerFilterMode,
    ImageFormat,
    ImageChannelOrder,
    ImageChannelDataType,
    FPRoundingMode,
    FPDenormMode,
    QuantizationModes,
    FPOperationMode,
    OverflowModes,
    LinkageType,
    AccessQualifier,
    HostAccessQualifier,
    FunctionParameterAttribute,
    Decoration,
    BuiltIn,
    Scope,
    GroupOperation,
    KernelEnqueueFlags,
    Capability,
    RayQueryIntersection,
    RayQueryCommittedIntersectionType,
    RayQueryCandidateIntersectionType,
    PackedVectorFormat,
    CooperativeMatrixOperands,
    CooperativeMatrixLayout,
    CooperativeMatrixUse,
    InitializationModeQualifier,
    LoadCacheControl,
    StoreCacheControl,
}

/// How an operand is read and printed.
#[derive(Debug, Clone, Copy, PartialEq, Eq, Structural)]
pub enum OperandKind {
    /// An id, printed `%` and its number.
    Id,
    /// A literal number.
    U32,
    /// A literal 32-bit float.
    F32,
    /// A literal string, printed in double quotes.
    Str,
    /// All the remaining words, each printed as a number.
    List,
    /// All the remaining words in pairs of ids.
    PairIdIdList,
    /// All the remaining words in pairs of an id and a number.
    PairIdU32List,
    /// All the remaining words in pairs of a number and an id.
    PairU32IdList,
    /// An enumerant, printed by its name, then the parameters it carries.
    Enum(EnumKind),
}

/// How often an operand occurs.
#[derive(Debug, Clone, Copy, PartialEq, Eq, Structural)]
pub enum Repeat {
    /// Exactly once.
    One,
    /// Once if any word is left.
    Optional,
    /// As long as words are left.
    Many,
}

/// One operand of a layout.
#[derive(Debug, Clone, Copy, PartialEq, Eq, Structural)]
pub struct Slot {
    pub kind: OperandKind,
    pub repeat: Repeat,
}

/// The enumerants of the kind are bit flags that combine.
pub open spec fn is_bitmask(e: EnumKind) -> bool {
    match e {
        EnumKind::ImageOperands => true,
        EnumKind::FPFastMathMode => true,
        EnumKind::SelectionControl => true,
        EnumKind::LoopControl => true,
        EnumKind::FunctionControl => true,
        EnumKind::MemorySemantics => true,
        EnumKind::MemoryAccess => true,
        EnumKind::KernelProfilingInfo => true,
        EnumKind::RayFlags => true,
        EnumKind::FragmentShadingRate => true,
        EnumKind::CooperativeMatrixOperands => true,
        _ => false,
    }
}

/// Whether the enumerants of the kind are bit flags that combine.
pub fn enum_is_bitmask(e: EnumKind) -> (r: bool)
    ensures
        r == is_bitmask(e),
{
    match e {
        EnumKind::ImageOperands => true,
        EnumKind::FPFastMathMode => true,
        EnumKind::SelectionControl => true,
        EnumKind::LoopControl => true,
        EnumKind::FunctionControl => true,
        EnumKind::MemorySemantics => true,
        EnumKind::MemoryAccess => true,
        EnumKind::KernelProfilingInfo => true,
        EnumKind::RayFlags => true,
        EnumKind::FragmentShadingRate => true,
        EnumKind::CooperativeMatrixOperands => true,
        _ => false,
    }
}

/// The parameters that a `ExecutionMode` enumerant carries.
pub open spec fn execution_mode_params(v: u32) -> Seq<Slot> {
    match v {
        0 => seq![Slot { kind: OperandKind::U32, repeat: Repeat::One }],
        17 => seq![Slot { kind: OperandKind::U32, repeat: Repeat::One }, Slot { kind: OperandKind::U32, repeat: Repeat::One }, Slot { kind: OperandKind::U32, repeat: Repeat::One }],
        18 => seq![Slot { kind: OperandKind::U32, repeat: Repeat::One }, Slot { kind: OperandKind::U32, repeat: Repeat::One }, Slot { kind: OperandKind::U32, repeat: Repeat::One }],
        26 => seq![Slot { kind: OperandKind::U32, repeat: Repeat::One }],
        30 => seq![Slot { kind: OperandKind::U32, repeat: Repeat::One }],
        35 => seq![Slot { kind: OperandKind::U32, repeat: Repeat::One }],
        36 => seq![Slot { kind: OperandKind::U32, repeat: Repeat::One }],
        37 => seq![Slot { kind: OperandKind::Id, repeat: Repeat::One }],
        38 => seq![Slot { kind: OperandKind::Id, repeat: Repeat::One }, Slot { kind: OperandKind::Id, repeat: Repeat::One }, Slot { kind: OperandKind::Id, repeat: Repeat::One }],
        39 => seq![Slot { kind: OperandKind::Id, repeat: Repeat::One }, Slot { kind: OperandKind::Id, repeat: Repeat::One }, Slot { kind: OperandKind::Id, repeat: Repeat::One }],
        4459 => seq![Slot { kind: OperandKind::U32, repeat: Repeat::One }],
        4460 => seq![Slot { kind: OperandKind::U32, repeat: Repeat::One }],
        4461 => seq![Slot { kind: OperandKind::U32, repeat: Repeat::One }],
        4462 => seq![Slot { kind: OperandKind::U32, repeat: Repeat::One }],
        4463 => seq![Slot { kind: OperandKind::U32, repeat: Repeat::One }],
        5071 => seq![Slot { kind: OperandKind::Id, repeat: Repeat::One }],
        5072 => seq![Slot { kind: OperandKind::Id, repeat: Repeat::One }, Slot { kind: OperandKind::Id, repeat: Repeat::One }, Slot { kind: OperandKind::Id, repeat: Repeat::One }],
        5073 => seq![Slot { kind: OperandKind::Id, repeat: Repeat::One }],
        5077 => seq![Slot { kind: OperandKind::Id, repeat: Repeat::One }, Slot { kind: OperandKind::Id, repeat: Repeat::One }, Slot { kind: OperandKind::Id, repeat: Repeat::One }],
        5270 => seq![Slot { kind: OperandKind::U32, repeat: Repeat::One }],
        5618 => seq![Slot { kind: OperandKind::U32, repeat: Repeat::One }],
        5620 => seq![Slot { kind: OperandKind::U32, repeat: Repeat::One }],
        5621 => seq![Slot { kind: OperandKind::U32, repeat: Repeat::One }],
        5622 => seq![Slot { kind: OperandKind::U32, repeat: Repeat::One }],
        5623 => seq![Slot { kind: OperandKind::U32, repeat: Repeat::One }],
        5893 => seq![Slot { kind: OperandKind::U32, repeat: Repeat::One }, Slot { kind: OperandKind::U32, repeat: Repeat::One }, Slot { kind: OperandKind::U32, repeat: Repeat::One }],
        5894 => seq![Slot { kind: OperandKind::U32, repeat: Repeat::One }],
        5896 => seq![Slot { kind: OperandKind::U32, repeat: Repeat::One }],
        5903 => seq![Slot { kind: OperandKind::U32, repeat: Repeat::One }],
        6154 => seq![Slot { kind: OperandKind::U32, repeat: Repeat::One }],
        6160 => seq![Slot { kind: OperandKind::U32, repeat: Repeat::One }],
        6417 => seq![Slot { kind: OperandKind::U32, repeat: Repeat::One }],
        _ => seq![],
    }
}

/// The parameters that a `ExecutionMode` enumerant carries.
fn execution_mode_param_list(v: u32) -> (r: Vec<Slot>)
    ensures
        r@ == execution_mode_params(v),
{
    match v {
        0 => vec![Slot { kind: OperandKind::U32, repeat: Repeat::One }],
        17 => vec![Slot { kind: OperandKind::U32, repeat: Repeat::One }, Slot { kind: OperandKind::U32, repeat: Repeat::One }, Slot { kind: OperandKind::U32, repeat: Repeat::One }],
        18 => vec![Slot { kind: OperandKind::U32, repeat: Repeat::One }, Slot { kind: OperandKind::U32, repeat: Repeat::One }, Slot { kind: OperandKind::U32, repeat: Repeat::One }],
        26 => vec![Slot { kind: OperandKind::U32, repeat: Repeat::One }],
        30 => vec![Slot { kind: OperandKind::U32, repeat: Repeat::One }],
        35 => vec![Slot { kind: OperandKind::U32, repeat: Repeat::One }],
        36 => vec![Slot { kind: OperandKind::U32, repeat: Repeat::One }],
        37 => vec![Slot { kind: OperandKind::Id, repeat: Repeat::One }],
        38 => vec![Slot { kind: OperandKind::Id, repeat: Repeat::One }, Slot { kind: OperandKind::Id, repeat: Repeat::One }, Slot { kind: OperandKind::Id, repeat: Repeat::One }],
        39 => vec![Slot { kind: OperandKind::Id, repeat: Repeat::One }, Slot { kind: OperandKind::Id, repeat: Repeat::One }, Slot { kind: OperandKind::Id, repeat: Repeat::One }],
        4459 => vec![Slot { kind: OperandKind::U32, repeat: Repeat::One }],
        4460 => vec![Slot { kind: OperandKind::U32, repeat: Repeat::One }],
        4461 => vec![Slot { kind: OperandKind::U32, repeat: Repeat::One }],
        4462 => vec![Slot { kind: OperandKind::U32, repeat: Repeat::One }],
        4463 => vec![Slot { kind: OperandKind::U32, repeat: Repeat::One }],
        5071 => vec![Slot { kind: OperandKind::Id, repeat: Repeat::One }],
        5072 => vec![Slot { kind: OperandKind::Id, repeat: Repeat::One }, Slot { kind: OperandKind::Id, repeat: Repeat::One }, Slot { kind: OperandKind::Id, repeat: Repeat::One }],
        5073 => vec![Slot { kind: OperandKind::Id, repeat: Repeat::One }],
        5077 => vec![Slot { kind: OperandKind::Id, repeat: Repeat::One }, Slot { kind: OperandKind::Id, repeat: Repeat::One }, Slot { kind: OperandKind::Id, repeat: Repeat::One }],
        5270 => vec![Slot { kind: OperandKind::U32, repeat: Repeat::One }],
        5618 => vec![Slot { kind: OperandKind::U32, repeat: Repeat::One }],
        5620 => vec![Slot { kind: OperandKind::U32, repeat: Repeat::One }],
        5621 => vec![Slot { kind: OperandKind::U32, repeat: Repeat::One }],
        5622 => vec![Slot { kind: OperandKind::U32, repeat: Repeat::One }],
        5623 => vec![Slot { kind: OperandKind::U32, repeat: Repeat::One }],
        5893 => vec![Slot { kind: OperandKind::U32, repeat: Repeat::One }, Slot { kind: OperandKind::U32, repeat: Repeat::One }, Slot { kind: OperandKind::U32, repeat: Repeat::One }],
        5894 => vec![Slot { kind: OperandKind::U32, repeat: Repeat::One }],
        5896 => vec![Slot { kind: OperandKind::U32, repeat: Repeat::One }],
        5903 => vec![Slot { kind: OperandKind::U32, repeat: Repeat::One }],
        6154 => vec![Slot { kind: OperandKind::U32, repeat: Repeat::One }],
        6160 => vec![Slot { kind: OperandKind::U32, repeat: Repeat::One }],
        6417 => vec![Slot { kind: OperandKind::U32, repeat: Repeat::One }],
        _ => vec![],
    }
}

/// The parameters that a `Decoration` enumerant carries.
pub open spec fn decoration_params(v: u32) -> Seq<Slot> {
    match v {
        1 => seq![Slot { kind: OperandKind::U32, repeat: Repeat::One }],
        6 => seq![Slot { kind: OperandKind::U32, repeat: Repeat::One }],
        7 => seq![Slot { kind: OperandKind::U32, repeat: Repeat::One }],
        11 => seq![Slot { kind: OperandKind::Enum(EnumKind::BuiltIn), repeat: Repeat::One }],
        27 => seq![Slot { kind: OperandKind::Id, repeat: Repeat::One }],
        29 => seq![Slot { kind: OperandKind::U32, repeat: Repeat::One }],
        30 => seq![Slot { kind: OperandKind::U32, repeat: Repeat::One }],
        31 => seq![Slot { kind: OperandKind::U32, repeat: Repeat::One }],
        32 => seq![Slot { kind: OperandKind::U32, repeat: Repeat::One }],
        33 => seq![Slot { kind: OperandKind::U32, repeat: Repeat::One }],
        34 => seq![Slot { kind: OperandKind::U32, repeat: Repeat::One }],
        35 => seq![Slot { kind: OperandKind::U32, repeat: Repeat::One }],
        36 => seq![Slot { kind: OperandKind::U32, repeat: Repeat::One }],
        37 => seq![Slot { kind: OperandKind::U32, repeat: Repeat::One }],
        38 => seq![Slot { kind: OperandKind::Enum(EnumKind::FunctionParameterAttribute), repeat: Repeat::One }],
        39 => seq![Slot { kind: OperandKind::Enum(EnumKind::FPRoundingMode), repeat: Repeat::One }],
        40 => seq![Slot { kind: OperandKind::Enum(EnumKind::FPFastMathMode), repeat: Repeat::One }],
        41 => seq![Slot { kind: OperandKind::Str, repeat: Repeat::One }, Slot { kind: OperandKind::Enum(EnumKind::LinkageType), repeat: Repeat::One }],
        43 => seq![Slot { kind: OperandKind::U32, repeat: Repeat::One }],
        44 => seq![Slot { kind: OperandKind::U32, repeat: Repeat::One }],
        45 => seq![Slot { kind: OperandKind::U32, repeat: Repeat::One }],
        46 => seq![Slot { kind: OperandKind::Id, repeat: Repeat::One }],
        47 => seq![Slot { kind: OperandKind::Id, repeat: Repeat::One }],
        5019 => seq![Slot { kind: OperandKind::Id, repeat: Repeat::One }],
        5020 => seq![Slot { kind: OperandKind::Id, repeat: Repeat::One }],
        5091 => seq![Slot { kind: OperandKind::Str, repeat: Repeat::One }],
        5256 => seq![Slot { kind: OperandKind::U32, repeat: Repeat::One }],
        5599 => seq![Slot { kind: OperandKind::U32, repeat: Repeat::One }],
        5607 => seq![Slot { kind: OperandKind::Str, repeat: Repeat::One }],
        5625 => seq![Slot { kind: OperandKind::U32, repeat: Repeat::One }],
        5628 => seq![Slot { kind: OperandKind::U32, repeat: Repeat::One }],
        5634 => seq![Slot { kind: OperandKind::Id, repeat: Repeat::One }],
        5635 => seq![Slot { kind: OperandKind::Str, repeat: Repeat::One }],
        5636 => seq![Slot { kind: OperandKind::Str, repeat: Repeat::One }],
        5822 => seq![Slot { kind: OperandKind::U32, repeat: Repeat::One }, Slot { kind: OperandKind::Enum(EnumKind::FPRoundingMode), repeat: Repeat::One }],
        5823 => seq![Slot { kind: OperandKind::U32, repeat: Repeat::One }, Slot { kind: OperandKind::Enum(EnumKind::FPDenormMode), repeat: Repeat::One }],
        5826 => seq![Slot { kind: OperandKind::Str, repeat: Repeat::One }],
        5827 => seq![Slot { kind: OperandKind::U32, repeat: Repeat::One }],
        5828 => seq![Slot { kind: OperandKind::U32, repeat: Repeat::One }],
        5829 => seq![Slot { kind: OperandKind::U32, repeat: Repeat::One }],
        5832 => seq![Slot { kind: OperandKind::U32, repeat: Repeat::One }],
        5834 => seq![Slot { kind: OperandKind::Str, repeat: Repeat::One }, Slot { kind: OperandKind::Str, repeat: Repeat::One }],
        5835 => seq![Slot { kind: OperandKind::U32, repeat: Repeat::One }],
        5836 => seq![Slot { kind: OperandKind::U32, repeat: Repeat::One }],
        5883 => seq![Slot { kind: OperandKind::U32, repeat: Repeat::One }],
        5884 => seq![Slot { kind: OperandKind::U32, repeat: Repeat::One }],
        5900 => seq![Slot { kind: OperandKind::U32, repeat: Repeat::One }],
        5902 => seq![Slot { kind: OperandKind::U32, repeat: Repeat::One }],
        5909 => seq![Slot { kind: OperandKind::U32, repeat: Repeat::One }, Slot { kind: OperandKind::U32, repeat: Repeat::One }],
        5914 => seq![Slot { kind: OperandKind::Id, repeat: Repeat::One }],
        5915 => seq![Slot { kind: OperandKind::Id, repeat: Repeat::One }],
        5917 => seq![Slot { kind: OperandKind::U32, repeat: Repeat::One }],
        5918 => seq![Slot { kind: OperandKind::U32, repeat: Repeat::One }],
        5919 => seq![Slot { kind: OperandKind::U32, repeat: Repeat::One }],
        5921 => seq![Slot { kind: OperandKind::U32, repeat: Repeat::One }],
        5944 => seq![Slot { kind: OperandKind::U32, repeat: Repeat::One }],
        6080 => seq![Slot { kind: OperandKind::U32, repeat: Repeat::One }, Slot { kind: OperandKind::Enum(EnumKind::FPOperationMode), repeat: Repeat::One }],
        6170 => seq![Slot { kind: OperandKind::F32, repeat: Repeat::One }],
        6172 => seq![Slot { kind: OperandKind::U32, repeat: Repeat::One }],
        6173 => seq![Slot { kind: OperandKind::U32, repeat: Repeat::One }, Slot { kind: OperandKind::U32, repeat: Repeat::One }, Slot { kind: OperandKind::U32, repeat: Repeat::One }],
        6177 => seq![Slot { kind: OperandKind::U32, repeat: Repeat::One }],
        6178 => seq![Slot { kind: OperandKind::U32, repeat: Repeat::One }],
        6179 => seq![Slot { kind: OperandKind::U32, repeat: Repeat::One }],
        6180 => seq![Slot { kind: OperandKind::Enum(EnumKind::AccessQualifier), repeat: Repeat::One }],
        6181 => seq![Slot { kind: OperandKind::U32, repeat: Repeat::One }],
        6182 => seq![Slot { kind: OperandKind::U32, repeat: Repeat::One }],
        6188 => seq![Slot { kind: OperandKind::Enum(EnumKind::HostAccessQualifier), repeat: Repeat::One }, Slot { kind: OperandKind::Str, repeat: Repeat::One }],
        6190 => seq![Slot { kind: OperandKind::Enum(EnumKind::InitializationModeQualifier), repeat: Repeat::One }],
        6191 => seq![Slot { kind: OperandKind::U32, repeat: Repeat::One }],
        6442 => seq![Slot { kind: OperandKind::U32, repeat: Repeat::One }, Slot { kind: OperandKind::Enum(EnumKind::LoadCacheControl), repeat: Repeat::One }],
        6443 => seq![Slot { kind: OperandKind::U32, repeat: Repeat::One }, Slot { kind: OperandKind::Enum(EnumKind::StoreCacheControl), repeat: Repeat::One }],
        _ => seq![],
    }
}

/// The parameters that a `Decoration` enumerant carries.
fn decoration_param_list(v: u32) -> (r: Vec<Slot>)
    ensures
        r@ == decoration_params(v),
{
    match v {
        1 => vec![Slot { kind: OperandKind::U32, repeat: Repeat::One }],
        6 => vec![Slot { kind: OperandKind::U32, repeat: Repeat::One }],
        7 => vec![Slot { kind: OperandKind::U32, repeat: Repeat::One }],
        11 => vec![Slot { kind: OperandKind::Enum(EnumKind::BuiltIn), repeat: Repeat::One }],
        27 => vec![Slot { kind: OperandKind::Id, repeat: Repeat::One }],
        29 => vec![Slot { kind: OperandKind::U32, repeat: Repeat::One }],
        30 => vec![Slot { kind: OperandKind::U32, repeat: Repeat::One }],
        31 => vec![Slot { kind: OperandKind::U32, repeat: Repeat::One }],
        32 => vec![Slot { kind: OperandKind::U32, repeat: Repeat::One }],
        33 => vec![Slot { kind: OperandKind::U32, repeat: Repeat::One }],
        34 => vec![Slot { kind: OperandKind::U32, repeat: Repeat::One }],
        35 => vec![Slot { kind: OperandKind::U32, repeat: Repeat::One }],
        36 => vec![Slot { kind: OperandKind::U32, repeat: Repeat::One }],
        37 => vec![Slot { kind: OperandKind::U32, repeat: Repeat::One }],
        38 => vec![Slot { kind: OperandKind::Enum(EnumKind::FunctionParameterAttribute), repeat: Repeat::One }],
        39 => vec![Slot { kind: OperandKind::Enum(EnumKind::FPRoundingMode), repeat: Repeat::One }],
        40 => vec![Slot { kind: OperandKind::Enum(EnumKind::FPFastMathMode), repeat: Repeat::One }],
        41 => vec![Slot { kind: OperandKind::Str, repeat: Repeat::One }, Slot { kind: OperandKind::Enum(EnumKind::LinkageType), repeat: Repeat::One }],
        43 => vec![Slot { kind: OperandKind::U32, repeat: Repeat::One }],
        44 => vec![Slot { kind: OperandKind::U32, repeat: Repeat::One }],
        45 => vec![Slot { kind: OperandKind::U32, repeat: Repeat::One }],
        46 => vec![Slot { kind: OperandKind::Id, repeat: Repeat::One }],
        47 => vec![Slot { kind: OperandKind::Id, repeat: Repeat::One }],
        5019 => vec![Slot { kind: OperandKind::Id, repeat: Repeat::One }],
        5020 => vec![Slot { kind: OperandKind::Id, repeat: Repeat::One }],
        5091 => vec![Slot { kind: OperandKind::Str, repeat: Repeat::One }],
        5256 => vec![Slot { kind: OperandKind::U32, repeat: Repeat::One }],
        5599 => vec![Slot { kind: OperandKind::U32, repeat: Repeat::One }],
        5607 => vec![Slot { kind: OperandKind::Str, repeat: Repeat::One }],
        5625 => vec![Slot { kind: OperandKind::U32, repeat: Repeat::One }],
        5628 => vec![Slot { kind: OperandKind::U32, repeat: Repeat::One }],
        5634 => vec![Slot { kind: OperandKind::Id, repeat: Repeat::One }],
        5635 => vec![Slot { kind: OperandKind::Str, repeat: Repeat::One }],
        5636 => vec![Slot { kind: OperandKind::Str, repeat: Repeat::One }],
        5822 => vec![Slot { kind: OperandKind::U32, repeat: Repeat::One }, Slot { kind: OperandKind::Enum(EnumKind::FPRoundingMode), repeat: Repeat::One }],
        5823 => vec![Slot { kind: OperandKind::U32, repeat: Repeat::One }, Slot { kind: OperandKind::Enum(EnumKind::FPDenormMode), repeat: Repeat::One }],
        5826 => vec![Slot { kind: OperandKind::Str, repeat: Repeat::One }],
        5827 => vec![Slot { kind: OperandKind::U32, repeat: Repeat::One }],
        5828 => vec![Slot { kind: OperandKind::U32, repeat: Repeat::One }],
        5829 => vec![Slot { kind: OperandKind::U32, repeat: Repeat::One }],
        5832 => vec![Slot { kind: OperandKind::U32, repeat: Repeat::One }],
        5834 => vec![Slot { kind: OperandKind::Str, repeat: Repeat::One }, Slot { kind: OperandKind::Str, repeat: Repeat::One }],
        5835 => vec![Slot { kind: OperandKind::U32, repeat: Repeat::One }],
        5836 => vec![Slot { kind: OperandKind::U32, repeat: Repeat::One }],
        5883 => vec![Slot { kind: OperandKind::U32, repeat: Repeat::One }],
        5884 => vec![Slot { kind: OperandKind::U32, repeat: Repeat::One }],
        5900 => vec![Slot { kind: OperandKind::U32, repeat: Repeat::One }],
        5902 => vec![Slot { kind: OperandKind::U32, repeat: Repeat::One }],
        5909 => vec![Slot { kind: OperandKind::U32, repeat: Repeat::One }, Slot { kind: OperandKind::U32, repeat: Repeat::One }],
        5914 => vec![Slot { kind: OperandKind::Id, repeat: Repeat::One }],
        5915 => vec![Slot { kind: OperandKind::Id, repeat: Repeat::One }],
        5917 => vec![Slot { kind: OperandKind::U32, repeat: Repeat::One }],
        5918 => vec![Slot { kind: OperandKind::U32, repeat: Repeat::One }],
        5919 => vec![Slot { kind: OperandKind::U32, repeat: Repeat::One }],
        5921 => vec![Slot { kind: OperandKind::U32, repeat: Repeat::One }],
        5944 => vec![Slot { kind: OperandKind::U32, repeat: Repeat::One }],
        6080 => vec![Slot { kind: OperandKind::U32, repeat: Repeat::One }, Slot { kind: OperandKind::Enum(EnumKind::FPOperationMode), repeat: Repeat::One }],
        6170 => vec![Slot { kind: OperandKind::F32, repeat: Repeat::One }],
        6172 => vec![Slot { kind: OperandKind::U32, repeat: Repeat::One }],
        6173 => vec![Slot { kind: OperandKind::U32, repeat: Repeat::One }, Slot { kind: OperandKind::U32, repeat: Repeat::One }, Slot { kind: OperandKind::U32, repeat: Repeat::One }],
        6177 => vec![Slot { kind: OperandKind::U32, repeat: Repeat::One }],
        6178 => vec![Slot { kind: OperandKind::U32, repeat: Repeat::One }],
        6179 => vec![Slot { kind: OperandKind::U32, repeat: Repeat::One }],
        6180 => vec![Slot { kind: OperandKind::Enum(EnumKind::AccessQualifier), repeat: Repeat::One }],
        6181 => vec![Slot { kind: OperandKind::U32, repeat: Repeat::One }],
        6182 => vec![Slot { kind: OperandKind::U32, repeat: Repeat::One }],
        6188 => vec![Slot { kind: OperandKind::Enum(EnumKind::HostAccessQualifier), repeat: Repeat::One }, Slot { kind: OperandKind::Str, repeat: Repeat::One }],
        6190 => vec![Slot { kind: OperandKind::Enum(EnumKind::InitializationModeQualifier), repeat: Repeat::One }],
        6191 => vec![Slot { kind: OperandKind::U32, repeat: Repeat::One }],
        6442 => vec![Slot { kind: OperandKind::U32, repeat: Repeat::One }, Slot { kind: OperandKind::Enum(EnumKind::LoadCacheControl), repeat: Repeat::One }],
        6443 => vec![Slot { kind: OperandKind::U32, repeat: Repeat::One }, Slot { kind: OperandKind::Enum(EnumKind::StoreCacheControl), repeat: Repeat::One }],
        _ => vec![],
    }
}

/// The parameters that an enumerant of a kind whose enumerants do not
/// combine carries.
pub open spec fn value_params(e: EnumKind, v: u32) -> Seq<Slot> {
    match e {
        EnumKind::ExecutionMode => execution_mode_params(v),
        EnumKind::Decoration => decoration_params(v),
        _ => seq![],
    }
}

fn value_param_list(e: EnumKind, v: u32) -> (r: Vec<Slot>)
    ensures
        r@ == value_params(e, v),
{
    match e {
        EnumKind::ExecutionMode => execution_mode_param_list(v),
        EnumKind::Decoration => decoration_param_list(v),
        _ => vec![],
    }
}

/// The flags of a kind whose enumerants combine that carry parameters, in
/// the order their parameters follow the mask, each with its parameters.
pub open spec fn flag_params(e: EnumKind) -> Seq<(u32, Seq<Slot>)> {
    match e {
        EnumKind::ImageOperands => seq![(1u32, seq![Slot { kind: OperandKind::Id, repeat: Repeat::One }]), (2u32, seq![Slot { kind: OperandKind::Id, repeat: Repeat::One }]), (4u32, seq![Slot { kind: OperandKind::Id, repeat: Repeat::One }, Slot { kind: OperandKind::Id, repeat: Repeat::One }]), (8u32, seq![Slot { kind: OperandKind::Id, repeat: Repeat::One }]), (16u32, seq![Slot { kind: OperandKind::Id, repeat: Repeat::One }]), (32u32, seq![Slot { kind: OperandKind::Id, repeat: Repeat::One }]), (64u32, seq![Slot { kind: OperandKind::Id, repeat: Repeat::One }]), (128u32, seq![Slot { kind: OperandKind::Id, repeat: Repeat::One }]), (256u32, seq![Slot { kind: OperandKind::Id, repeat: Repeat::One }]), (512u32, seq![Slot { kind: OperandKind::Id, repeat: Repeat::One }]), (65536u32, seq![Slot { kind: OperandKind::Id, repeat: Repeat::One }])],
        EnumKind::LoopControl => seq![(8u32, seq![Slot { kind: OperandKind::U32, repeat: Repeat::One }]), (16u32, seq![Slot { kind: OperandKind::U32, repeat: Repeat::One }]), (32u32, seq![Slot { kind: OperandKind::U32, repeat: Repeat::One }]), (64u32, seq![Slot { kind: OperandKind::U32, repeat: Repeat::One }]), (128u32, seq![Slot { kind: OperandKind::U32, repeat: Repeat::One }]), (256u32, seq![Slot { kind: OperandKind::U32, repeat: Repeat::One }]), (65536u32, seq![Slot { kind: OperandKind::U32, repeat: Repeat::One }]), (131072u32, seq![Slot { kind: OperandKind::U32, repeat: Repeat::One }]), (262144u32, seq![Slot { kind: OperandKind::U32, repeat: Repeat::One }]), (524288u32, seq![Slot { kind: OperandKind::U32, repeat: Repeat::One }]), (1048576u32, seq![Slot { kind: OperandKind::U32, repeat: Repeat::One }]), (2097152u32, seq![Slot { kind: OperandKind::U32, repeat: Repeat::One }]), (4194304u32, seq![Slot { kind: OperandKind::U32, repeat: Repeat::One }]), (16777216u32, seq![Slot { kind: OperandKind::U32, repeat: Repeat::One }]), (33554432u32, seq![Slot { kind: OperandKind::U32, repeat: Repeat::One }])],
        EnumKind::MemoryAccess => seq![(2u32, seq![Slot { kind: OperandKind::U32, repeat: Repeat::One }]), (8u32, seq![Slot { kind: OperandKind::Id, repeat: Repeat::One }]), (16u32, seq![Slot { kind: OperandKind::Id, repeat: Repeat::One }]), (65536u32, seq![Slot { kind: OperandKind::Id, repeat: Repeat::One }]), (131072u32, seq![Slot { kind: OperandKind::Id, repeat: Repeat::One }])],
        _ => seq![],
    }
}

fn flag_param_list(e: EnumKind) -> (r: Vec<(u32, Vec<Slot>)>)
    ensures
        r@.len() == flag_params(e).len(),
        forall|i: int|
            0 <= i < r@.len() ==> (#[trigger] r@[i]).0 == flag_params(e)[i].0 && r@[i].1@ == flag_params(e)[i].1,
{
    let r = match e {
        EnumKind::ImageOperands => vec![(1u32, vec![Slot { kind: OperandKind::Id, repeat: Repeat::One }]), (2u32, vec![Slot { kind: OperandKind::Id, repeat: Repeat::One }]), (4u32, vec![Slot { kind: OperandKind::Id, repeat: Repeat::One }, Slot { kind: OperandKind::Id, repeat: Repeat::One }]), (8u32, vec![Slot { kind: OperandKind::Id, repeat: Repeat::One }]), (16u32, vec![Slot { kind: OperandKind::Id, repeat: Repeat::One }]), (32u32, vec![Slot { kind: OperandKind::Id, repeat: Repeat::One }]), (64u32, vec![Slot { kind: OperandKind::Id, repeat: Repeat::One }]), (128u32, vec![Slot { kind: OperandKind::Id, repeat: Repeat::One }]), (256u32, vec![Slot { kind: OperandKind::Id, repeat: Repeat::One }]), (512u32, vec![Slot { kind: OperandKind::Id, repeat: Repeat::One }]), (65536u32, vec![Slot { kind: OperandKind::Id, repeat: Repeat::One }])],
        EnumKind::LoopControl => vec![(8u32, vec![Slot { kind: OperandKind::U32, repeat: Repeat::One }]), (16u32, vec![Slot { kind: OperandKind::U32, repeat: Repeat::One }]), (32u32, vec![Slot { kind: OperandKind::U32, repeat: Repeat::One }]), (64u32, vec![Slot { kind: OperandKind::U32, repeat: Repeat::One }]), (128u32, vec![Slot { kind: OperandKind::U32, repeat: Repeat::One }]), (256u32, vec![Slot { kind: OperandKind::U32, repeat: Repeat::One }]), (65536u32, vec![Slot { kind: OperandKind::U32, repeat: Repeat::One }]), (131072u32, vec![Slot { kind: OperandKind::U32, repeat: Repeat::One }]), (262144u32, vec![Slot { kind: OperandKind::U32, repeat: Repeat::One }]), (524288u32, vec![Slot { kind: OperandKind::U32, repeat: Repeat::One }]), (1048576u32, vec![Slot { kind: OperandKind::U32, repeat: Repeat::One }]), (2097152u32, vec![Slot { kind: OperandKind::U32, repeat: Repeat::One }]), (4194304u32, vec![Slot { kind: OperandKind::U32, repeat: Repeat::One }]), (16777216u32, vec![Slot { kind: OperandKind::U32, repeat: Repeat::One }]), (33554432u32, vec![Slot { kind: OperandKind::U32, repeat: Repeat::One }])],
        EnumKind::MemoryAccess => vec![(2u32, vec![Slot { kind: OperandKind::U32, repeat: Repeat::One }]), (8u32, vec![Slot { kind: OperandKind::Id, repeat: Repeat::One }]), (16u32, vec![Slot { kind: OperandKind::Id, repeat: Repeat::One }]), (65536u32, vec![Slot { kind: OperandKind::Id, repeat: Repeat::One }]), (131072u32, vec![Slot { kind: OperandKind::Id, repeat: Repeat::One }])],
        _ => vec![],
    };
    r
}

/// The parameters of the flags set in the mask `v`, in table order.
pub open spec fn mask_params(flags: Seq<(u32, Seq<Slot>)>, v: u32) -> Seq<Slot>
    decreases flags.len(),
{
    if flags.len() == 0 {
        seq![]
    } else {
        (if v & flags[0].0 != 0 {
            flags[0].1
        } else {
            seq![]
        }) + mask_params(flags.drop_first(), v)
    }
}

/// The parameters that the enumerant `v` of kind `e` carries.
pub open spec fn param_slots(e: EnumKind, v: u32) -> Seq<Slot> {
    if is_bitmask(e) {
        mask_params(flag_params(e), v)
    } else {
        value_params(e, v)
    }
}

/// The parameters that the enumerant `v` of kind `e` carries.
pub fn param_slot_list(e: EnumKind, v: u32) -> (r: Vec<Slot>)
    ensures
        r@ == param_slots(e, v),
{
    if !enum_is_bitmask(e) {
        return value_param_list(e, v);
    }
    let flags = flag_param_list(e);
    let ghost fs = flag_params(e);
    let mut out: Vec<Slot> = Vec::new();
    let mut i: usize = flags.len();
    while i > 0
        invariant
            i <= flags@.len(),
            flags@.len() == fs.len(),
            forall|j: int|
                0 <= j < flags@.len() ==> (#[trigger] flags@[j]).0 == fs[j].0 && flags@[j].1@ == fs[j].1,
            out@ == mask_params(fs.skip(i as int), v),
        decreases i,
    {
        i = i - 1;
        let ghost rest = fs.skip(i as int);
        assert(rest.drop_first() =~= fs.skip(i + 1));
        assert(rest[0] == fs[i as int]);
        let (mask, params) = &flags[i];
        if v & *mask != 0 {
            let mut next = params.clone();
            next.append(&mut out);
            out = next;
        }
    }
    assert(fs.skip(0) =~= fs);
    out
}

pub open spec fn opcode_slots_0(op: u32) -> Option<Seq<Slot>> {
    match op {
        0 => Some(seq![]),
        1 => Some(seq![]),
        2 => Some(seq![Slot { kind: OperandKind::Str, repeat: Repeat::One }]),
        3 => Some(seq![Slot { kind: OperandKind::Enum(EnumKind::SourceLanguage), repeat: Repeat::One }, Slot { kind: OperandKind::U32, repeat: Repeat::One }, Slot { kind: OperandKind::Id, repeat: Repeat::Optional }, Slot { kind: OperandKind::Str, repeat: Repeat::Optional }]),
        4 => Some(seq![Slot { kind: OperandKind::Str, repeat: Repeat::One }]),
        5 => Some(seq![Slot { kind: OperandKind::Id, repeat: Repeat::One }, Slot { kind: OperandKind::Str, repeat: Repeat::One }]),
        6 => Some(seq![Slot { kind: OperandKind::Id, repeat: Repeat::One }, Slot { kind: OperandKind::U32, repeat: Repeat::One }, Slot { kind: OperandKind::Str, repeat: Repeat::One }]),
        7 => Some(seq![Slot { kind: OperandKind::Str, repeat: Repeat::One }]),
        8 => Some(seq![Slot { kind: OperandKind::Id, repeat: Repeat::One }, Slot { kind: OperandKind::U32, repeat: Repeat::One }, Slot { kind: OperandKind::U32, repeat: Repeat::One }]),
        10 => Some(seq![Slot { kind: OperandKind::Str, repeat: Repeat::One }]),
        11 => Some(seq![Slot { kind: OperandKind::Str, repeat: Repeat::One }]),
        12 => Some(seq![Slot { kind: OperandKind::Id, repeat: Repeat::One }, Slot { kind: OperandKind::U32, repeat: Repeat::One }, Slot { kind: OperandKind::Id, repeat: Repeat::Many }]),
        14 => Some(seq![Slot { kind: OperandKind::Enum(EnumKind::AddressingModel), repeat: Repeat::One }, Slot { kind: OperandKind::Enum(EnumKind::MemoryModel), repeat: Repeat::One }]),
        15 => Some(seq![Slot { kind: OperandKind::Enum(EnumKind::ExecutionModel), repeat: Repeat::One }, Slot { kind: OperandKind::Id, repeat: Repeat::One }, Slot { kind: OperandKind::Str, repeat: Repeat::One }, Slot { kind: OperandKind::Id, repeat: Repeat::Many }]),
        16 => Some(seq![Slot { kind: OperandKind::Id, repeat: Repeat::One }, Slot { kind: OperandKind::Enum(EnumKind::ExecutionMode), repeat: Repeat::One }]),
        17 => Some(seq![Slot { kind: OperandKind::Enum(EnumKind::Capability), repeat: Repeat::One }]),
        19 => Some(seq![]),
        20 => Some(seq![]),
        21 => Some(seq![Slot { kind: OperandKind::U32, repeat: Repeat::One }, Slot { kind: OperandKind::U32, repeat: Repeat::One }]),
        22 => Some(seq![Slot { kind: OperandKind::U32, repeat: Repeat::One }]),
        23 => Some(seq![Slot { kind: OperandKind::Id, repeat: Repeat::One }, Slot { kind: OperandKind::U32, repeat: Repeat::One }]),
        24 => Some(seq![Slot { kind: OperandKind::Id, repeat: Repeat::One }, Slot { kind: OperandKind::U32, repeat: Repeat::One }]),
        25 => Some(seq![Slot { kind: OperandKind::Id, repeat: Repeat::One }, Slot { kind: OperandKind::Enum(EnumKind::Dim), repeat: Repeat::One }, Slot { kind: OperandKind::U32, repeat: Repeat::One }, Slot { kind: OperandKind::U32, repeat: Repeat::One }, Slot { kind: OperandKind::U32, repeat: Repeat::One }, Slot { kind: OperandKind::U32, repeat: Repeat::One }, Slot { kind: OperandKind::Enum(EnumKind::ImageFormat), repeat: Repeat::One }, Slot { kind: OperandKind::Enum(EnumKind::AccessQualifier), repeat: Repeat::Optional }]),
        26 => Some(seq![]),
        27 => Some(seq![Slot { kind: OperandKind::Id, repeat: Repeat::One }]),
        28 => Some(seq![Slot { kind: OperandKind::Id, repeat: Repeat::One }, Slot { kind: OperandKind::Id, repeat: Repeat::One }]),
        29 => Some(seq![Slot { kind: OperandKind::Id, repeat: Repeat::One }]),
        30 => Some(seq![Slot { kind: OperandKind::Id, repeat: Repeat::Many }]),
        31 => Some(seq![Slot { kind: OperandKind::Str, repeat: Repeat::One }]),
        32 => Some(seq![Slot { kind: OperandKind::Enum(EnumKind::StorageClass), repeat: Repeat::One }, Slot { kind: OperandKind::Id, repeat: Repeat::One }]),
        33 => Some(seq![Slot { kind: OperandKind::Id, repeat: Repeat::One }, Slot { kind: OperandKind::Id, repeat: Repeat::Many }]),
        34 => Some(seq![]),
        35 => Some(seq![]),
        36 => Some(seq![]),
        37 => Some(seq![]),
        38 => Some(seq![Slot { kind: OperandKind::Enum(EnumKind::AccessQualifier), repeat: Repeat::One }]),
        39 => Some(seq![Slot { kind: OperandKind::Id, repeat: Repeat::One }, Slot { kind: OperandKind::Enum(EnumKind::StorageClass), repeat: Repeat::One }]),
        41 => Some(seq![]),
        42 => Some(seq![]),
        43 => Some(seq![Slot { kind: OperandKind::List, repeat: Repeat::One }]),
        44 => Some(seq![Slot { kind: OperandKind::Id, repeat: Repeat::Many }]),
        45 => Some(seq![Slot { kind: OperandKind::Enum(EnumKind::SamplerAddressingMode), repeat: Repeat::One }, Slot { kind: OperandKind::U32, repeat: Repeat::One }, Slot { kind: OperandKind::Enum(EnumKind::SamplerFilterMode), repeat: Repeat::One }]),
        46 => Some(seq![]),
        48 => Some(seq![]),
        49 => Some(seq![]),
        50 => Some(seq![Slot { kind: OperandKind::List, repeat: Repeat::One }]),
        51 => Some(seq![Slot { kind: OperandKind::Id, repeat: Repeat::Many }]),
        52 => Some(seq![Slot { kind: OperandKind::U32, repeat: Repeat::One }]),
        54 => Some(seq![Slot { kind: OperandKind::Enum(EnumKind::FunctionControl), repeat: Repeat::One }, Slot { kind: OperandKind::Id, repeat: Repeat::One }]),
        55 => Some(seq![]),
        56 => Some(seq![]),
        57 => Some(seq![Slot { kind: OperandKind::Id, repeat: Repeat::One }, Slot { kind: OperandKind::Id, repeat: Repeat::Many }]),
        59 => Some(seq![Slot { kind: OperandKind::Enum(EnumKind::StorageClass), repeat: Repeat::One }, Slot { kind: OperandKind::Id, repeat: Repeat::Optional }]),
        60 => Some(seq![Slot { kind: OperandKind::Id, repeat: Repeat::One }, Slot { kind: OperandKind::Id, repeat: Repeat::One }, Slot { kind: OperandKind::Id, repeat: Repeat::One }]),
        61 => Some(seq![Slot { kind: OperandKind::Id, repeat: Repeat::One }, Slot { kind: OperandKind::Enum(EnumKind::MemoryAccess), repeat: Repeat::Optional }]),
        62 => Some(seq![Slot { kind: OperandKind::Id, repeat: Repeat::One }, Slot { kind: OperandKind::Id, repeat: Repeat::One }, Slot { kind: OperandKind::Enum(EnumKind::MemoryAccess), repeat: Repeat::Optional }]),
        63 => Some(seq![Slot { kind: OperandKind::Id, repeat: Repeat::One }, Slot { kind: OperandKind::Id, repeat: Repeat::One }, Slot { kind: OperandKind::Enum(EnumKind::MemoryAccess), repeat: Repeat::Optional }, Slot { kind: OperandKind::Enum(EnumKind::MemoryAccess), repeat: Repeat::Optional }]),
        64 => Some(seq![Slot { kind: OperandKind::Id, repeat: Repeat::One }, Slot { kind: OperandKind::Id, repeat: Repeat::One }, Slot { kind: OperandKind::Id, repeat: Repeat::One }, Slot { kind: OperandKind::Enum(EnumKind::MemoryAccess), repeat: Repeat::Optional }, Slot { kind: OperandKind::Enum(EnumKind::MemoryAccess), repeat: Repeat::Optional }]),
        65 => Some(seq![Slot { kind: OperandKind::Id, repeat: Repeat::One }, Slot { kind: OperandKind::Id, repeat: Repeat::Many }]),
        66 => Some(seq![Slot { kind: OperandKind::Id, repeat: Repeat::One }, Slot { kind: OperandKind::Id, repeat: Repeat::Many }]),
        _ => None,
    }
}

pub open spec fn opcode_slots_1(op: u32) -> Option<Seq<Slot>> {
    match op {
        67 => Some(seq![Slot { kind: OperandKind::Id, repeat: Repeat::One }, Slot { kind: OperandKind::Id, repeat: Repeat::One }, Slot { kind: OperandKind::Id, repeat: Repeat::Many }]),
        68 => Some(seq![Slot { kind: OperandKind::Id, repeat: Repeat::One }, Slot { kind: OperandKind::U32, repeat: Repeat::One }]),
        69 => Some(seq![Slot { kind: OperandKind::Id, repeat: Repeat::One }]),
        70 => Some(seq![Slot { kind: OperandKind::Id, repeat: Repeat::One }, Slot { kind: OperandKind::Id, repeat: Repeat::One }, Slot { kind: OperandKind::Id, repeat: Repeat::Many }]),
        71 => Some(seq![Slot { kind: OperandKind::Id, repeat: Repeat::One }, Slot { kind: OperandKind::Enum(EnumKind::Decoration), repeat: Repeat::One }]),
        72 => Some(seq![Slot { kind: OperandKind::Id, repeat: Repeat::One }, Slot { kind: OperandKind::U32, repeat: Repeat::One }, Slot { kind: OperandKind::Enum(EnumKind::Decoration), repeat: Repeat::One }]),
        73 => Some(seq![]),
        74 => Some(seq![Slot { kind: OperandKind::Id, repeat: Repeat::One }, Slot { kind: OperandKind::Id, repeat: Repeat::Many }]),
        75 => Some(seq![Slot { kind: OperandKind::Id, repeat: Repeat::One }, Slot { kind: OperandKind::PairIdU32List, repeat: Repeat::Many }]),
        77 => Some(seq![Slot { kind: OperandKind::Id, repeat: Repeat::One }, Slot { kind: OperandKind::Id, repeat: Repeat::One }]),
        78 => Some(seq![Slot { kind: OperandKind::Id, repeat: Repeat::One }, Slot { kind: OperandKind::Id, repeat: Repeat::One }, Slot { kind: OperandKind::Id, repeat: Repeat::One }]),
        79 => Some(seq![Slot { kind: OperandKind::Id, repeat: Repeat::One }, Slot { kind: OperandKind::Id, repeat: Repeat::One }, Slot { kind: OperandKind::U32, repeat: Repeat::Many }]),
        80 => Some(seq![Slot { kind: OperandKind::Id, repeat: Repeat::Many }]),
        81 => Some(seq![Slot { kind: OperandKind::Id, repeat: Repeat::One }, Slot { kind: OperandKind::U32, repeat: Repeat::Many }]),
        82 => Some(seq![Slot { kind: OperandKind::Id, repeat: Repeat::One }, Slot { kind: OperandKind::Id, repeat: Repeat::One }, Slot { kind: OperandKind::U32, repeat: Repeat::Many }]),
        83 => Some(seq![Slot { kind: OperandKind::Id, repeat: Repeat::One }]),
        84 => Some(seq![Slot { kind: OperandKind::Id, repeat: Repeat::One }]),
        86 => Some(seq![Slot { kind: OperandKind::Id, repeat: Repeat::One }, Slot { kind: OperandKind::Id, repeat: Repeat::One }]),
        87 => Some(seq![Slot { kind: OperandKind::Id, repeat: Repeat::One }, Slot { kind: OperandKind::Id, repeat: Repeat::One }, Slot { kind: OperandKind::Enum(EnumKind::ImageOperands), repeat: Repeat::Optional }]),
        88 => Some(seq![Slot { kind: OperandKind::Id, repeat: Repeat::One }, Slot { kind: OperandKind::Id, repeat: Repeat::One }, Slot { kind: OperandKind::Enum(EnumKind::ImageOperands), repeat: Repeat::One }]),
        89 => Some(seq![Slot { kind: OperandKind::Id, repeat: Repeat::One }, Slot { kind: OperandKind::Id, repeat: Repeat::One }, Slot { kind: OperandKind::Id, repeat: Repeat::One }, Slot { kind: OperandKind::Enum(EnumKind::ImageOperands), repeat: Repeat::Optional }]),
        90 => Some(seq![Slot { kind: OperandKind::Id, repeat: Repeat::One }, Slot { kind: OperandKind::Id, repeat: Repeat::One }, Slot { kind: OperandKind::Id, repeat: Repeat::One }, Slot { kind: OperandKind::Enum(EnumKind::ImageOperands), repeat: Repeat::One }]),
        91 => Some(seq![Slot { kind: OperandKind::Id, repeat: Repeat::One }, Slot { kind: OperandKind::Id, repeat: Repeat::One }, Slot { kind: OperandKind::Enum(EnumKind::ImageOperands), repeat: Repeat::Optional }]),
        92 => Some(seq![Slot { kind: OperandKind::Id, repeat: Repeat::One }, Slot { kind: OperandKind::Id, repeat: Repeat::One }, Slot { kind: OperandKind::Enum(EnumKind::ImageOperands), repeat: Repeat::One }]),
        93 => Some(seq![Slot { kind: OperandKind::Id, repeat: Repeat::One }, Slot { kind: OperandKind::Id, repeat: Repeat::One }, Slot { kind: OperandKind::Id, repeat: Repeat::One }, Slot { kind: OperandKind::Enum(EnumKind::ImageOperands), repeat: Repeat::Optional }]),
        94 => Some(seq![Slot { kind: OperandKind::Id, repeat: Repeat::One }, Slot { kind: OperandKind::Id, repeat: Repeat::One }, Slot { kind: OperandKind::Id, repeat: Repeat::One }, Slot { kind: OperandKind::Enum(EnumKind::ImageOperands), repeat: Repeat::One }]),
        95 => Some(seq![Slot { kind: OperandKind::Id, repeat: Repeat::One }, Slot { kind: OperandKind::Id, repeat: Repeat::One }, Slot { kind: OperandKind::Enum(EnumKind::ImageOperands), repeat: Repeat::Optional }]),
        96 => Some(seq![Slot { kind: OperandKind::Id, repeat: Repeat::One }, Slot { kind: OperandKind::Id, repeat: Repeat::One }, Slot { kind: OperandKind::Id, repeat: Repeat::One }, Slot { kind: OperandKind::Enum(EnumKind::ImageOperands), repeat: Repeat::Optional }]),
        97 => Some(seq![Slot { kind: OperandKind::Id, repeat: Repeat::One }, Slot { kind: OperandKind::Id, repeat: Repeat::One }, Slot { kind: OperandKind::Id, repeat: Repeat::One }, Slot { kind: OperandKind::Enum(EnumKind::ImageOperands), repeat: Repeat::Optional }]),
        98 => Some(seq![Slot { kind: OperandKind::Id, repeat: Repeat::One }, Slot { kind: OperandKind::Id, repeat: Repeat::One }, Slot { kind: OperandKind::Enum(EnumKind::ImageOperands), repeat: Repeat::Optional }]),
        99 => Some(seq![Slot { kind: OperandKind::Id, repeat: Repeat::One }, Slot { kind: OperandKind::Id, repeat: Repeat::One }, Slot { kind: OperandKind::Id, repeat: Repeat::One }, Slot { kind: OperandKind::Enum(EnumKind::ImageOperands), repeat: Repeat::Optional }]),
        100 => Some(seq![Slot { kind: OperandKind::Id, repeat: Repeat::One }]),
        101 => Some(seq![Slot { kind: OperandKind::Id, repeat: Repeat::One }]),
        102 => Some(seq![Slot { kind: OperandKind::Id, repeat: Repeat::One }]),
        103 => Some(seq![Slot { kind: OperandKind::Id, repeat: Repeat::One }, Slot { kind: OperandKind::Id, repeat: Repeat::One }]),
        104 => Some(seq![Slot { kind: OperandKind::Id, repeat: Repeat::One }]),
        105 => Some(seq![Slot { kind: OperandKind::Id, repeat: Repeat::One }, Slot { kind: OperandKind::Id, repeat: Repeat::One }]),
        106 => Some(seq![Slot { kind: OperandKind::Id, repeat: Repeat::One }]),
        107 => Some(seq![Slot { kind: OperandKind::Id, repeat: Repeat::One }]),
        109 => Some(seq![Slot { kind: OperandKind::Id, repeat: Repeat::One }]),
        110 => Some(seq![Slot { kind: OperandKind::Id, repeat: Repeat::One }]),
        111 => Some(seq![Slot { kind: OperandKind::Id, repeat: Repeat::One }]),
        112 => Some(seq![Slot { kind: OperandKind::Id, repeat: Repeat::One }]),
        113 => Some(seq![Slot { kind: OperandKind::Id, repeat: Repeat::One }]),
        114 => Some(seq![Slot { kind: OperandKind::Id, repeat: Repeat::One }]),
        115 => Some(seq![Slot { kind: OperandKind::Id, repeat: Repeat::One }]),
        116 => Some(seq![Slot { kind: OperandKind::Id, repeat: Repeat::One }]),
        117 => Some(seq![Slot { kind: OperandKind::Id, repeat: Repeat::One }]),
        118 => Some(seq![Slot { kind: OperandKind::Id, repeat: Repeat::One }]),
        119 => Some(seq![Slot { kind: OperandKind::Id, repeat: Repeat::One }]),
        120 => Some(seq![Slot { kind: OperandKind::Id, repeat: Repeat::One }]),
        121 => Some(seq![Slot { kind: OperandKind::Id, repeat: Repeat::One }]),
        122 => Some(seq![Slot { kind: OperandKind::Id, repeat: Repeat::One }]),
        123 => Some(seq![Slot { kind: OperandKind::Id, repeat: Repeat::One }, Slot { kind: OperandKind::Enum(EnumKind::StorageClass), repeat: Repeat::One }]),
        124 => Some(seq![Slot { kind: OperandKind::Id, repeat: Repeat::One }]),
        126 => Some(seq![Slot { kind: OperandKind::Id, repeat: Repeat::One }]),
        127 => Some(seq![Slot { kind: OperandKind::Id, repeat: Repeat::One }]),
        128 => Some(seq![Slot { kind: OperandKind::Id, repeat: Repeat::One }, Slot { kind: OperandKind::Id, repeat: Repeat::One }]),
        129 => Some(seq![Slot { kind: OperandKind::Id, repeat: Repeat::One }, Slot { kind: OperandKind::Id, repeat: Repeat::One }]),
        130 => Some(seq![Slot { kind: OperandKind::Id, repeat: Repeat::One }, Slot { kind: OperandKind::Id, repeat: Repeat::One }]),
        _ => None,
    }
}

pub open spec fn opcode_slots_2(op: u32) -> Option<Seq<Slot>> {
    match op {
        131 => Some(seq![Slot { kind: OperandKind::Id, repeat: Repeat::One }, Slot { kind: OperandKind::Id, repeat: Repeat::One }]),
        132 => Some(seq![Slot { kind: OperandKind::Id, repeat: Repeat::One }, Slot { kind: OperandKind::Id, repeat: Repeat::One }]),
        133 => Some(seq![Slot { kind: OperandKind::Id, repeat: Repeat::One }, Slot { kind: OperandKind::Id, repeat: Repeat::One }]),
        134 => Some(seq![Slot { kind: OperandKind::Id, repeat: Repeat::One }, Slot { kind: OperandKind::Id, repeat: Repeat::One }]),
        135 => Some(seq![Slot { kind: OperandKind::Id, repeat: Repeat::One }, Slot { kind: OperandKind::Id, repeat: Repeat::One }]),
        136 => Some(seq![Slot { kind: OperandKind::Id, repeat: Repeat::One }, Slot { kind: OperandKind::Id, repeat: Repeat::One }]),
        137 => Some(seq![Slot { kind: OperandKind::Id, repeat: Repeat::One }, Slot { kind: OperandKind::Id, repeat: Repeat::One }]),
        138 => Some(seq![Slot { kind: OperandKind::Id, repeat: Repeat::One }, Slot { kind: OperandKind::Id, repeat: Repeat::One }]),
        139 => Some(seq![Slot { kind: OperandKind::Id, repeat: Repeat::One }, Slot { kind: OperandKind::Id, repeat: Repeat::One }]),
        140 => Some(seq![Slot { kind: OperandKind::Id, repeat: Repeat::One }, Slot { kind: OperandKind::Id, repeat: Repeat::One }]),
        141 => Some(seq![Slot { kind: OperandKind::Id, repeat: Repeat::One }, Slot { kind: OperandKind::Id, repeat: Repeat::One }]),
        142 => Some(seq![Slot { kind: OperandKind::Id, repeat: Repeat::One }, Slot { kind: OperandKind::Id, repeat: Repeat::One }]),
        143 => Some(seq![Slot { kind: OperandKind::Id, repeat: Repeat::One }, Slot { kind: OperandKind::Id, repeat: Repeat::One }]),
        144 => Some(seq![Slot { kind: OperandKind::Id, repeat: Repeat::One }, Slot { kind: OperandKind::Id, repeat: Repeat::One }]),
        145 => Some(seq![Slot { kind: OperandKind::Id, repeat: Repeat::One }, Slot { kind: OperandKind::Id, repeat: Repeat::One }]),
        146 => Some(seq![Slot { kind: OperandKind::Id, repeat: Repeat::One }, Slot { kind: OperandKind::Id, repeat: Repeat::One }]),
        147 => Some(seq![Slot { kind: OperandKind::Id, repeat: Repeat::One }, Slot { kind: OperandKind::Id, repeat: Repeat::One }]),
        148 => Some(seq![Slot { kind: OperandKind::Id, repeat: Repeat::One }, Slot { kind: OperandKind::Id, repeat: Repeat::One }]),
        149 => Some(seq![Slot { kind: OperandKind::Id, repeat: Repeat::One }, Slot { kind: OperandKind::Id, repeat: Repeat::One }]),
        150 => Some(seq![Slot { kind: OperandKind::Id, repeat: Repeat::One }, Slot { kind: OperandKind::Id, repeat: Repeat::One }]),
        151 => Some(seq![Slot { kind: OperandKind::Id, repeat: Repeat::One }, Slot { kind: OperandKind::Id, repeat: Repeat::One }]),
        152 => Some(seq![Slot { kind: OperandKind::Id, repeat: Repeat::One }, Slot { kind: OperandKind::Id, repeat: Repeat::One }]),
        154 => Some(seq![Slot { kind: OperandKind::Id, repeat: Repeat::One }]),
        155 => Some(seq![Slot { kind: OperandKind::Id, repeat: Repeat::One }]),
        156 => Some(seq![Slot { kind: OperandKind::Id, repeat: Repeat::One }]),
        157 => Some(seq![Slot { kind: OperandKind::Id, repeat: Repeat::One }]),
        158 => Some(seq![Slot { kind: OperandKind::Id, repeat: Repeat::One }]),
        159 => Some(seq![Slot { kind: OperandKind::Id, repeat: Repeat::One }]),
        160 => Some(seq![Slot { kind: OperandKind::Id, repeat: Repeat::One }]),
        161 => Some(seq![Slot { kind: OperandKind::Id, repeat: Repeat::One }, Slot { kind: OperandKind::Id, repeat: Repeat::One }]),
        162 => Some(seq![Slot { kind: OperandKind::Id, repeat: Repeat::One }, Slot { kind: OperandKind::Id, repeat: Repeat::One }]),
        163 => Some(seq![Slot { kind: OperandKind::Id, repeat: Repeat::One }, Slot { kind: OperandKind::Id, repeat: Repeat::One }]),
        164 => Some(seq![Slot { kind: OperandKind::Id, repeat: Repeat::One }, Slot { kind: OperandKind::Id, repeat: Repeat::One }]),
        165 => Some(seq![Slot { kind: OperandKind::Id, repeat: Repeat::One }, Slot { kind: OperandKind::Id, repeat: Repeat::One }]),
        166 => Some(seq![Slot { kind: OperandKind::Id, repeat: Repeat::One }, Slot { kind: OperandKind::Id, repeat: Repeat::One }]),
        167 => Some(seq![Slot { kind: OperandKind::Id, repeat: Repeat::One }, Slot { kind: OperandKind::Id, repeat: Repeat::One }]),
        168 => Some(seq![Slot { kind: OperandKind::Id, repeat: Repeat::One }]),
        169 => Some(seq![Slot { kind: OperandKind::Id, repeat: Repeat::One }, Slot { kind: OperandKind::Id, repeat: Repeat::One }, Slot { kind: OperandKind::Id, repeat: Repeat::One }]),
        170 => Some(seq![Slot { kind: OperandKind::Id, repeat: Repeat::One }, Slot { kind: OperandKind::Id, repeat: Repeat::One }]),
        171 => Some(seq![Slot { kind: OperandKind::Id, repeat: Repeat::One }, Slot { kind: OperandKind::Id, repeat: Repeat::One }]),
        172 => Some(seq![Slot { kind: OperandKind::Id, repeat: Repeat::One }, Slot { kind: OperandKind::Id, repeat: Repeat::One }]),
        173 => Some(seq![Slot { kind: OperandKind::Id, repeat: Repeat::One }, Slot { kind: OperandKind::Id, repeat: Repeat::One }]),
        174 => Some(seq![Slot { kind: OperandKind::Id, repeat: Repeat::One }, Slot { kind: OperandKind::Id, repeat: Repeat::One }]),
        175 => Some(seq![Slot { kind: OperandKind::Id, repeat: Repeat::One }, Slot { kind: OperandKind::Id, repeat: Repeat::One }]),
        176 => Some(seq![Slot { kind: OperandKind::Id, repeat: Repeat::One }, Slot { kind: OperandKind::Id, repeat: Repeat::One }]),
        177 => Some(seq![Slot { kind: OperandKind::Id, repeat: Repeat::One }, Slot { kind: OperandKind::Id, repeat: Repeat::One }]),
        178 => Some(seq![Slot { kind: OperandKind::Id, repeat: Repeat::One }, Slot { kind: OperandKind::Id, repeat: Repeat::One }]),
        179 => Some(seq![Slot { kind: OperandKind::Id, repeat: Repeat::One }, Slot { kind: OperandKind::Id, repeat: Repeat::One }]),
        180 => Some(seq![Slot { kind: OperandKind::Id, repeat: Repeat::One }, Slot { kind: OperandKind::Id, repeat: Repeat::One }]),
        181 => Some(seq![Slot { kind: OperandKind::Id, repeat: Repeat::One }, Slot { kind: OperandKind::Id, repeat: Repeat::One }]),
        182 => Some(seq![Slot { kind: OperandKind::Id, repeat: Repeat::One }, Slot { kind: OperandKind::Id, repeat: Repeat::One }]),
        183 => Some(seq![Slot { kind: OperandKind::Id, repeat: Repeat::One }, Slot { kind: OperandKind::Id, repeat: Repeat::One }]),
        184 => Some(seq![Slot { kind: OperandKind::Id, repeat: Repeat::One }, Slot { kind: OperandKind::Id, repeat: Repeat::One }]),
        185 => Some(seq![Slot { kind: OperandKind::Id, repeat: Repeat::One }, Slot { kind: OperandKind::Id, repeat: Repeat::One }]),
        186 => Some(seq![Slot { kind: OperandKind::Id, repeat: Repeat::One }, Slot { kind: OperandKind::Id, repeat: Repeat::One }]),
        187 => Some(seq![Slot { kind: OperandKind::Id, repeat: Repeat::One }, Slot { kind: OperandKind::Id, repeat: Repeat::One }]),
        188 => Some(seq![Slot { kind: OperandKind::Id, repeat: Repeat::One }, Slot { kind: OperandKind::Id, repeat: Repeat::One }]),
        189 => Some(seq![Slot { kind: OperandKind::Id, repeat: Repeat::One }, Slot { kind: OperandKind::Id, repeat: Repeat::One }]),
        190 => Some(seq![Slot { kind: OperandKind::Id, repeat: Repeat::One }, Slot { kind: OperandKind::Id, repeat: Repeat::One }]),
        191 => Some(seq![Slot { kind: OperandKind::Id, repeat: Repeat::One }, Slot { kind: OperandKind::Id, repeat: Repeat::One }]),
        _ => None,
    }
}

pub open spec fn opcode_slots_3(op: u32) -> Option<Seq<Slot>> {
    match op {
        194 => Some(seq![Slot { kind: OperandKind::Id, repeat: Repeat::One }, Slot { kind: OperandKind::Id, repeat: Repeat::One }]),
        195 => Some(seq![Slot { kind: OperandKind::Id, repeat: Repeat::One }, Slot { kind: OperandKind::Id, repeat: Repeat::One }]),
        196 => Some(seq![Slot { kind: OperandKind::Id, repeat: Repeat::One }, Slot { kind: OperandKind::Id, repeat: Repeat::One }]),
        197 => Some(seq![Slot { kind: OperandKind::Id, repeat: Repeat::One }, Slot { kind: OperandKind::Id, repeat: Repeat::One }]),
        198 => Some(seq![Slot { kind: OperandKind::Id, repeat: Repeat::One }, Slot { kind: OperandKind::Id, repeat: Repeat::One }]),
        199 => Some(seq![Slot { kind: OperandKind::Id, repeat: Repeat::One }, Slot { kind: OperandKind::Id, repeat: Repeat::One }]),
        200 => Some(seq![Slot { kind: OperandKind::Id, repeat: Repeat::One }]),
        201 => Some(seq![Slot { kind: OperandKind::Id, repeat: Repeat::One }, Slot { kind: OperandKind::Id, repeat: Repeat::One }, Slot { kind: OperandKind::Id, repeat: Repeat::One }, Slot { kind: OperandKind::Id, repeat: Repeat::One }]),
        202 => Some(seq![Slot { kind: OperandKind::Id, repeat: Repeat::One }, Slot { kind: OperandKind::Id, repeat: Repeat::One }, Slot { kind: OperandKind::Id, repeat: Repeat::One }]),
        203 => Some(seq![Slot { kind: OperandKind::Id, repeat: Repeat::One }, Slot { kind: OperandKind::Id, repeat: Repeat::One }, Slot { kind: OperandKind::Id, repeat: Repeat::One }]),
        204 => Some(seq![Slot { kind: OperandKind::Id, repeat: Repeat::One }]),
        205 => Some(seq![Slot { kind: OperandKind::Id, repeat: Repeat::One }]),
        207 => Some(seq![Slot { kind: OperandKind::Id, repeat: Repeat::One }]),
        208 => Some(seq![Slot { kind: OperandKind::Id, repeat: Repeat::One }]),
        209 => Some(seq![Slot { kind: OperandKind::Id, repeat: Repeat::One }]),
        210 => Some(seq![Slot { kind: OperandKind::Id, repeat: Repeat::One }]),
        211 => Some(seq![Slot { kind: OperandKind::Id, repeat: Repeat::One }]),
        212 => Some(seq![Slot { kind: OperandKind::Id, repeat: Repeat::One }]),
        213 => Some(seq![Slot { kind: OperandKind::Id, repeat: Repeat::One }]),
        214 => Some(seq![Slot { kind: OperandKind::Id, repeat: Repeat::One }]),
        215 => Some(seq![Slot { kind: OperandKind::Id, repeat: Repeat::One }]),
        218 => Some(seq![]),
        219 => Some(seq![]),
        220 => Some(seq![Slot { kind: OperandKind::Id, repeat: Repeat::One }]),
        221 => Some(seq![Slot { kind: OperandKind::Id, repeat: Repeat::One }]),
        224 => Some(seq![Slot { kind: OperandKind::Id, repeat: Repeat::One }, Slot { kind: OperandKind::Id, repeat: Repeat::One }, Slot { kind: OperandKind::Id, repeat: Repeat::One }]),
        225 => Some(seq![Slot { kind: OperandKind::Id, repeat: Repeat::One }, Slot { kind: OperandKind::Id, repeat: Repeat::One }]),
        227 => Some(seq![Slot { kind: OperandKind::Id, repeat: Repeat::One }, Slot { kind: OperandKind::Id, repeat: Repeat::One }, Slot { kind: OperandKind::Id, repeat: Repeat::One }]),
        228 => Some(seq![Slot { kind: OperandKind::Id, repeat: Repeat::One }, Slot { kind: OperandKind::Id, repeat: Repeat::One }, Slot { kind: OperandKind::Id, repeat: Repeat::One }, Slot { kind: OperandKind::Id, repeat: Repeat::One }]),
        229 => Some(seq![Slot { kind: OperandKind::Id, repeat: Repeat::One }, Slot { kind: OperandKind::Id, repeat: Repeat::One }, Slot { kind: OperandKind::Id, repeat: Repeat::One }, Slot { kind: OperandKind::Id, repeat: Repeat::One }]),
        230 => Some(seq![Slot { kind: OperandKind::Id, repeat: Repeat::One }, Slot { kind: OperandKind::Id, repeat: Repeat::One }, Slot { kind: OperandKind::Id, repeat: Repeat::One }, Slot { kind: OperandKind::Id, repeat: Repeat::One }, Slot { kind: OperandKind::Id, repeat: Repeat::One }, Slot { kind: OperandKind::Id, repeat: Repeat::One }]),
        231 => Some(seq![Slot { kind: OperandKind::Id, repeat: Repeat::One }, Slot { kind: OperandKind::Id, repeat: Repeat::One }, Slot { kind: OperandKind::Id, repeat: Repeat::One }, Slot { kind: OperandKind::Id, repeat: Repeat::One }, Slot { kind: OperandKind::Id, repeat: Repeat::One }, Slot { kind: OperandKind::Id, repeat: Repeat::One }]),
        232 => Some(seq![Slot { kind: OperandKind::Id, repeat: Repeat::One }, Slot { kind: OperandKind::Id, repeat: Repeat::One }, Slot { kind: OperandKind::Id, repeat: Repeat::One }]),
        233 => Some(seq![Slot { kind: OperandKind::Id, repeat: Repeat::One }, Slot { kind: OperandKind::Id, repeat: Repeat::One }, Slot { kind: OperandKind::Id, repeat: Repeat::One }]),
        234 => Some(seq![Slot { kind: OperandKind::Id, repeat: Repeat::One }, Slot { kind: OperandKind::Id, repeat: Repeat::One }, Slot { kind: OperandKind::Id, repeat: Repeat::One }, Slot { kind: OperandKind::Id, repeat: Repeat::One }]),
        235 => Some(seq![Slot { kind: OperandKind::Id, repeat: Repeat::One }, Slot { kind: OperandKind::Id, repeat: Repeat::One }, Slot { kind: OperandKind::Id, repeat: Repeat::One }, Slot { kind: OperandKind::Id, repeat: Repeat::One }]),
        236 => Some(seq![Slot { kind: OperandKind::Id, repeat: Repeat::One }, Slot { kind: OperandKind::Id, repeat: Repeat::One }, Slot { kind: OperandKind::Id, repeat: Repeat::One }, Slot { kind: OperandKind::Id, repeat: Repeat::One }]),
        237 => Some(seq![Slot { kind: OperandKind::Id, repeat: Repeat::One }, Slot { kind: OperandKind::Id, repeat: Repeat::One }, Slot { kind: OperandKind::Id, repeat: Repeat::One }, Slot { kind: OperandKind::Id, repeat: Repeat::One }]),
        238 => Some(seq![Slot { kind: OperandKind::Id, repeat: Repeat::One }, Slot { kind: OperandKind::Id, repeat: Repeat::One }, Slot { kind: OperandKind::Id, repeat: Repeat::One }, Slot { kind: OperandKind::Id, repeat: Repeat::One }]),
        239 => Some(seq![Slot { kind: OperandKind::Id, repeat: Repeat::One }, Slot { kind: OperandKind::Id, repeat: Repeat::One }, Slot { kind: OperandKind::Id, repeat: Repeat::One }, Slot { kind: OperandKind::Id, repeat: Repeat::One }]),
        240 => Some(seq![Slot { kind: OperandKind::Id, repeat: Repeat::One }, Slot { kind: OperandKind::Id, repeat: Repeat::One }, Slot { kind: OperandKind::Id, repeat: Repeat::One }, Slot { kind: OperandKind::Id, repeat: Repeat::One }]),
        241 => Some(seq![Slot { kind: OperandKind::Id, repeat: Repeat::One }, Slot { kind: OperandKind::Id, repeat: Repeat::One }, Slot { kind: OperandKind::Id, repeat: Repeat::One }, Slot { kind: OperandKind::Id, repeat: Repeat::One }]),
        242 => Some(seq![Slot { kind: OperandKind::Id, repeat: Repeat::One }, Slot { kind: OperandKind::Id, repeat: Repeat::One }, Slot { kind: OperandKind::Id, repeat: Repeat::One }, Slot { kind: OperandKind::Id, repeat: Repeat::One }]),
        245 => Some(seq![Slot { kind: OperandKind::PairIdIdList, repeat: Repeat::Many }]),
        246 => Some(seq![Slot { kind: OperandKind::Id, repeat: Repeat::One }, Slot { kind: OperandKind::Id, repeat: Repeat::One }, Slot { kind: OperandKind::Enum(EnumKind::LoopControl), repeat: Repeat::One }]),
        247 => Some(seq![Slot { kind: OperandKind::Id, repeat: Repeat::One }, Slot { kind: OperandKind::Enum(EnumKind::SelectionControl), repeat: Repeat::One }]),
        248 => Some(seq![]),
        249 => Some(seq![Slot { kind: OperandKind::Id, repeat: Repeat::One }]),
        250 => Some(seq![Slot { kind: OperandKind::Id, repeat: Repeat::One }, Slot { kind: OperandKind::Id, repeat: Repeat::One }, Slot { kind: OperandKind::Id, repeat: Repeat::One }, Slot { kind: OperandKind::U32, repeat: Repeat::Many }]),
        251 => Some(seq![Slot { kind: OperandKind::Id, repeat: Repeat::One }, Slot { kind: OperandKind::Id, repeat: Repeat::One }, Slot { kind: OperandKind::PairU32IdList, repeat: Repeat::Many }]),
        252 => Some(seq![]),
        253 => Some(seq![]),
        254 => Some(seq![Slot { kind: OperandKind::Id, repeat: Repeat::One }]),
        255 => Some(seq![]),
        256 => Some(seq![Slot { kind: OperandKind::Id, repeat: Repeat::One }, Slot { kind: OperandKind::U32, repeat: Repeat::One }]),
        257 => Some(seq![Slot { kind: OperandKind::Id, repeat: Repeat::One }, Slot { kind: OperandKind::U32, repeat: Repeat::One }]),
        259 => Some(seq![Slot { kind: OperandKind::Id, repeat: Repeat::One }, Slot { kind: OperandKind::Id, repeat: Repeat::One }, Slot { kind: OperandKind::Id, repeat: Repeat::One }, Slot { kind: OperandKind::Id, repeat: Repeat::One }, Slot { kind: OperandKind::Id, repeat: Repeat::One }, Slot { kind: OperandKind::Id, repeat: Repeat::One }]),
        260 => Some(seq![Slot { kind: OperandKind::Id, repeat: Repeat::One }, Slot { kind: OperandKind::Id, repeat: Repeat::One }, Slot { kind: OperandKind::Id, repeat: Repeat::One }]),
        261 => Some(seq![Slot { kind: OperandKind::Id, repeat: Repeat::One }, Slot { kind: OperandKind::Id, repeat: Repeat::One }]),
        262 => Some(seq![Slot { kind: OperandKind::Id, repeat: Repeat::One }, Slot { kind: OperandKind::Id, repeat: Repeat::One }]),
        _ => None,
    }
}

pub open spec fn opcode_slots_4(op: u32) -> Option<Seq<Slot>> {
    match op {
        263 => Some(seq![Slot { kind: OperandKind::Id, repeat: Repeat::One }, Slot { kind: OperandKind::Id, repeat: Repeat::One }, Slot { kind: OperandKind::Id, repeat: Repeat::One }]),
        264 => Some(seq![Slot { kind: OperandKind::Id, repeat: Repeat::One }, Slot { kind: OperandKind::Enum(EnumKind::GroupOperation), repeat: Repeat::One }, Slot { kind: OperandKind::Id, repeat: Repeat::One }]),
        265 => Some(seq![Slot { kind: OperandKind::Id, repeat: Repeat::One }, Slot { kind: OperandKind::Enum(EnumKind::GroupOperation), repeat: Repeat::One }, Slot { kind: OperandKind::Id, repeat: Repeat::One }]),
        266 => Some(seq![Slot { kind: OperandKind::Id, repeat: Repeat::One }, Slot { kind: OperandKind::Enum(EnumKind::GroupOperation), repeat: Repeat::One }, Slot { kind: OperandKind::Id, repeat: Repeat::One }]),
        267 => Some(seq![Slot { kind: OperandKind::Id, repeat: Repeat::One }, Slot { kind: OperandKind::Enum(EnumKind::GroupOperation), repeat: Repeat::One }, Slot { kind: OperandKind::Id, repeat: Repeat::One }]),
        268 => Some(seq![Slot { kind: OperandKind::Id, repeat: Repeat::One }, Slot { kind: OperandKind::Enum(EnumKind::GroupOperation), repeat: Repeat::One }, Slot { kind: OperandKind::Id, repeat: Repeat::One }]),
        269 => Some(seq![Slot { kind: OperandKind::Id, repeat: Repeat::One }, Slot { kind: OperandKind::Enum(EnumKind::GroupOperation), repeat: Repeat::One }, Slot { kind: OperandKind::Id, repeat: Repeat::One }]),
        270 => Some(seq![Slot { kind: OperandKind::Id, repeat: Repeat::One }, Slot { kind: OperandKind::Enum(EnumKind::GroupOperation), repeat: Repeat::One }, Slot { kind: OperandKind::Id, repeat: Repeat::One }]),
        271 => Some(seq![Slot { kind: OperandKind::Id, repeat: Repeat::One }, Slot { kind: OperandKind::Enum(EnumKind::GroupOperation), repeat: Repeat::One }, Slot { kind: OperandKind::Id, repeat: Repeat::One }]),
        274 => Some(seq![Slot { kind: OperandKind::Id, repeat: Repeat::One }, Slot { kind: OperandKind::Id, repeat: Repeat::One }, Slot { kind: OperandKind::Id, repeat: Repeat::One }, Slot { kind: OperandKind::Id, repeat: Repeat::One }]),
        275 => Some(seq![Slot { kind: OperandKind::Id, repeat: Repeat::One }, Slot { kind: OperandKind::Id, repeat: Repeat::One }, Slot { kind: OperandKind::Id, repeat: Repeat::One }, Slot { kind: OperandKind::Id, repeat: Repeat::One }]),
        276 => Some(seq![Slot { kind: OperandKind::Id, repeat: Repeat::One }, Slot { kind: OperandKind::Id, repeat: Repeat::One }, Slot { kind: OperandKind::Id, repeat: Repeat::One }, Slot { kind: OperandKind::Id, repeat: Repeat::One }, Slot { kind: OperandKind::Id, repeat: Repeat::One }, Slot { kind: OperandKind::Id, repeat: Repeat::One }]),
        277 => Some(seq![Slot { kind: OperandKind::Id, repeat: Repeat::One }, Slot { kind: OperandKind::Id, repeat: Repeat::One }, Slot { kind: OperandKind::Id, repeat: Repeat::One }, Slot { kind: OperandKind::Id, repeat: Repeat::One }, Slot { kind: OperandKind::Id, repeat: Repeat::One }, Slot { kind: OperandKind::Id, repeat: Repeat::One }]),
        278 => Some(seq![Slot { kind: OperandKind::Id, repeat: Repeat::One }, Slot { kind: OperandKind::Id, repeat: Repeat::One }, Slot { kind: OperandKind::Id, repeat: Repeat::One }, Slot { kind: OperandKind::Id, repeat: Repeat::One }]),
        279 => Some(seq![Slot { kind: OperandKind::Id, repeat: Repeat::One }, Slot { kind: OperandKind::Id, repeat: Repeat::One }, Slot { kind: OperandKind::Id, repeat: Repeat::One }, Slot { kind: OperandKind::Id, repeat: Repeat::One }]),
        280 => Some(seq![Slot { kind: OperandKind::Id, repeat: Repeat::One }, Slot { kind: OperandKind::Id, repeat: Repeat::One }, Slot { kind: OperandKind::Id, repeat: Repeat::One }, Slot { kind: OperandKind::Id, repeat: Repeat::One }]),
        281 => Some(seq![Slot { kind: OperandKind::Id, repeat: Repeat::One }, Slot { kind: OperandKind::Id, repeat: Repeat::One }, Slot { kind: OperandKind::Id, repeat: Repeat::One }, Slot { kind: OperandKind::Id, repeat: Repeat::One }]),
        282 => Some(seq![Slot { kind: OperandKind::Id, repeat: Repeat::One }]),
        283 => Some(seq![Slot { kind: OperandKind::Id, repeat: Repeat::One }, Slot { kind: OperandKind::Id, repeat: Repeat::One }, Slot { kind: OperandKind::Id, repeat: Repeat::One }]),
        284 => Some(seq![Slot { kind: OperandKind::Id, repeat: Repeat::One }, Slot { kind: OperandKind::Id, repeat: Repeat::One }, Slot { kind: OperandKind::Id, repeat: Repeat::One }]),
        285 => Some(seq![Slot { kind: OperandKind::Id, repeat: Repeat::One }, Slot { kind: OperandKind::Id, repeat: Repeat::One }, Slot { kind: OperandKind::Id, repeat: Repeat::One }, Slot { kind: OperandKind::Id, repeat: Repeat::One }, Slot { kind: OperandKind::Id, repeat: Repeat::One }]),
        286 => Some(seq![Slot { kind: OperandKind::Id, repeat: Repeat::One }, Slot { kind: OperandKind::Id, repeat: Repeat::One }, Slot { kind: OperandKind::Id, repeat: Repeat::One }, Slot { kind: OperandKind::Id, repeat: Repeat::One }, Slot { kind: OperandKind::Id, repeat: Repeat::One }]),
        287 => Some(seq![Slot { kind: OperandKind::Id, repeat: Repeat::One }, Slot { kind: OperandKind::Id, repeat: Repeat::One }, Slot { kind: OperandKind::Id, repeat: Repeat::One }, Slot { kind: OperandKind::Id, repeat: Repeat::One }, Slot { kind: OperandKind::Id, repeat: Repeat::One }]),
        288 => Some(seq![Slot { kind: OperandKind::Id, repeat: Repeat::One }, Slot { kind: OperandKind::Id, repeat: Repeat::One }, Slot { kind: OperandKind::Id, repeat: Repeat::One }, Slot { kind: OperandKind::Id, repeat: Repeat::One }, Slot { kind: OperandKind::Id, repeat: Repeat::One }]),
        291 => Some(seq![Slot { kind: OperandKind::Id, repeat: Repeat::One }, Slot { kind: OperandKind::Id, repeat: Repeat::One }, Slot { kind: OperandKind::Id, repeat: Repeat::One }, Slot { kind: OperandKind::Id, repeat: Repeat::One }]),
        292 => Some(seq![Slot { kind: OperandKind::Id, repeat: Repeat::One }, Slot { kind: OperandKind::Id, repeat: Repeat::One }, Slot { kind: OperandKind::Id, repeat: Repeat::One }, Slot { kind: OperandKind::Id, repeat: Repeat::One }, Slot { kind: OperandKind::Id, repeat: Repeat::One }, Slot { kind: OperandKind::Id, repeat: Repeat::One }, Slot { kind: OperandKind::Id, repeat: Repeat::One }, Slot { kind: OperandKind::Id, repeat: Repeat::One }, Slot { kind: OperandKind::Id, repeat: Repeat::One }, Slot { kind: OperandKind::Id, repeat: Repeat::One }, Slot { kind: OperandKind::Id, repeat: Repeat::Many }]),
        293 => Some(seq![Slot { kind: OperandKind::Id, repeat: Repeat::One }, Slot { kind: OperandKind::Id, repeat: Repeat::One }, Slot { kind: OperandKind::Id, repeat: Repeat::One }, Slot { kind: OperandKind::Id, repeat: Repeat::One }, Slot { kind: OperandKind::Id, repeat: Repeat::One }]),
        294 => Some(seq![Slot { kind: OperandKind::Id, repeat: Repeat::One }, Slot { kind: OperandKind::Id, repeat: Repeat::One }, Slot { kind: OperandKind::Id, repeat: Repeat::One }, Slot { kind: OperandKind::Id, repeat: Repeat::One }, Slot { kind: OperandKind::Id, repeat: Repeat::One }]),
        295 => Some(seq![Slot { kind: OperandKind::Id, repeat: Repeat::One }, Slot { kind: OperandKind::Id, repeat: Repeat::One }, Slot { kind: OperandKind::Id, repeat: Repeat::One }, Slot { kind: OperandKind::Id, repeat: Repeat::One }]),
        296 => Some(seq![Slot { kind: OperandKind::Id, repeat: Repeat::One }, Slot { kind: OperandKind::Id, repeat: Repeat::One }, Slot { kind: OperandKind::Id, repeat: Repeat::One }, Slot { kind: OperandKind::Id, repeat: Repeat::One }]),
        297 => Some(seq![Slot { kind: OperandKind::Id, repeat: Repeat::One }]),
        298 => Some(seq![Slot { kind: OperandKind::Id, repeat: Repeat::One }]),
        299 => Some(seq![]),
        300 => Some(seq![Slot { kind: OperandKind::Id, repeat: Repeat::One }]),
        301 => Some(seq![Slot { kind: OperandKind::Id, repeat: Repeat::One }, Slot { kind: OperandKind::Id, repeat: Repeat::One }]),
        302 => Some(seq![Slot { kind: OperandKind::Id, repeat: Repeat::One }, Slot { kind: OperandKind::Id, repeat: Repeat::One }, Slot { kind: OperandKind::Id, repeat: Repeat::One }]),
        303 => Some(seq![]),
        304 => Some(seq![Slot { kind: OperandKind::Id, repeat: Repeat::One }, Slot { kind: OperandKind::Id, repeat: Repeat::One }, Slot { kind: OperandKind::Id, repeat: Repeat::One }]),
        305 => Some(seq![Slot { kind: OperandKind::Id, repeat: Repeat::One }, Slot { kind: OperandKind::Id, repeat: Repeat::One }, Slot { kind: OperandKind::Enum(EnumKind::ImageOperands), repeat: Repeat::Optional }]),
        306 => Some(seq![Slot { kind: OperandKind::Id, repeat: Repeat::One }, Slot { kind: OperandKind::Id, repeat: Repeat::One }, Slot { kind: OperandKind::Enum(EnumKind::ImageOperands), repeat: Repeat::One }]),
        307 => Some(seq![Slot { kind: OperandKind::Id, repeat: Repeat::One }, Slot { kind: OperandKind::Id, repeat: Repeat::One }, Slot { kind: OperandKind::Id, repeat: Repeat::One }, Slot { kind: OperandKind::Enum(EnumKind::ImageOperands), repeat: Repeat::Optional }]),
        308 => Some(seq![Slot { kind: OperandKind::Id, repeat: Repeat::One }, Slot { kind: OperandKind::Id, repeat: Repeat::One }, Slot { kind: OperandKind::Id, repeat: Repeat::One }, Slot { kind: OperandKind::Enum(EnumKind::ImageOperands), repeat: Repeat::One }]),
        309 => Some(seq![Slot { kind: OperandKind::Id, repeat: Repeat::One }, Slot { kind: OperandKind::Id, repeat: Repeat::One }, Slot { kind: OperandKind::Enum(EnumKind::ImageOperands), repeat: Repeat::Optional }]),
        310 => Some(seq![Slot { kind: OperandKind::Id, repeat: Repeat::One }, Slot { kind: OperandKind::Id, repeat: Repeat::One }, Slot { kind: OperandKind::Enum(EnumKind::ImageOperands), repeat: Repeat::One }]),
        311 => Some(seq![Slot { kind: OperandKind::Id, repeat: Repeat::One }, Slot { kind: OperandKind::Id, repeat: Repeat::One }, Slot { kind: OperandKind::Id, repeat: Repeat::One }, Slot { kind: OperandKind::Enum(EnumKind::ImageOperands), repeat: Repeat::Optional }]),
        312 => Some(seq![Slot { kind: OperandKind::Id, repeat: Repeat::One }, Slot { kind: OperandKind::Id, repeat: Repeat::One }, Slot { kind: OperandKind::Id, repeat: Repeat::One }, Slot { kind: OperandKind::Enum(EnumKind::ImageOperands), repeat: Repeat::One }]),
        313 => Some(seq![Slot { kind: OperandKind::Id, repeat: Repeat::One }, Slot { kind: OperandKind::Id, repeat: Repeat::One }, Slot { kind: OperandKind::Enum(EnumKind::ImageOperands), repeat: Repeat::Optional }]),
        314 => Some(seq![Slot { kind: OperandKind::Id, repeat: Repeat::One }, Slot { kind: OperandKind::Id, repeat: Repeat::One }, Slot { kind: OperandKind::Id, repeat: Repeat::One }, Slot { kind: OperandKind::Enum(EnumKind::ImageOperands), repeat: Repeat::Optional }]),
        315 => Some(seq![Slot { kind: OperandKind::Id, repeat: Repeat::One }, Slot { kind: OperandKind::Id, repeat: Repeat::One }, Slot { kind: OperandKind::Id, repeat: Repeat::One }, Slot { kind: OperandKind::Enum(EnumKind::ImageOperands), repeat: Repeat::Optional }]),
        316 => Some(seq![Slot { kind: OperandKind::Id, repeat: Repeat::One }]),
        317 => Some(seq![]),
        318 => Some(seq![Slot { kind: OperandKind::Id, repeat: Repeat::One }, Slot { kind: OperandKind::Id, repeat: Repeat::One }, Slot { kind: OperandKind::Id, repeat: Repeat::One }]),
        319 => Some(seq![Slot { kind: OperandKind::Id, repeat: Repeat::One }, Slot { kind: OperandKind::Id, repeat: Repeat::One }, Slot { kind: OperandKind::Id, repeat: Repeat::One }]),
        320 => Some(seq![Slot { kind: OperandKind::Id, repeat: Repeat::One }, Slot { kind: OperandKind::Id, repeat: Repeat::One }, Slot { kind: OperandKind::Enum(EnumKind::ImageOperands), repeat: Repeat::Optional }]),
        321 => Some(seq![Slot { kind: OperandKind::Id, repeat: Repeat::One }]),
        322 => Some(seq![]),
        323 => Some(seq![Slot { kind: OperandKind::U32, repeat: Repeat::One }, Slot { kind: OperandKind::U32, repeat: Repeat::One }, Slot { kind: OperandKind::U32, repeat: Repeat::One }]),
        324 => Some(seq![Slot { kind: OperandKind::Id, repeat: Repeat::One }]),
        325 => Some(seq![Slot { kind: OperandKind::Id, repeat: Repeat::One }, Slot { kind: OperandKind::Id, repeat: Repeat::One }, Slot { kind: OperandKind::Id, repeat: Repeat::One }, Slot { kind: OperandKind::Id, repeat: Repeat::One }, Slot { kind: OperandKind::Id, repeat: Repeat::One }]),
        326 => Some(seq![Slot { kind: OperandKind::Id, repeat: Repeat::One }, Slot { kind: OperandKind::Id, repeat: Repeat::One }, Slot { kind: OperandKind::Id, repeat: Repeat::One }, Slot { kind: OperandKind::Id, repeat: Repeat::One }]),
        _ => None,
    }
}

pub open spec fn opcode_slots_5(op: u32) -> Option<Seq<Slot>> {
    match op {
        327 => Some(seq![]),
        328 => Some(seq![Slot { kind: OperandKind::Id, repeat: Repeat::One }]),
        329 => Some(seq![Slot { kind: OperandKind::Id, repeat: Repeat::One }, Slot { kind: OperandKind::Id, repeat: Repeat::One }, Slot { kind: OperandKind::Id, repeat: Repeat::One }]),
        330 => Some(seq![Slot { kind: OperandKind::Str, repeat: Repeat::One }]),
        331 => Some(seq![Slot { kind: OperandKind::Id, repeat: Repeat::One }, Slot { kind: OperandKind::Enum(EnumKind::ExecutionMode), repeat: Repeat::One }]),
        332 => Some(seq![Slot { kind: OperandKind::Id, repeat: Repeat::One }, Slot { kind: OperandKind::Enum(EnumKind::Decoration), repeat: Repeat::One }]),
        333 => Some(seq![Slot { kind: OperandKind::Id, repeat: Repeat::One }]),
        334 => Some(seq![Slot { kind: OperandKind::Id, repeat: Repeat::One }, Slot { kind: OperandKind::Id, repeat: Repeat::One }]),
        335 => Some(seq![Slot { kind: OperandKind::Id, repeat: Repeat::One }, Slot { kind: OperandKind::Id, repeat: Repeat::One }]),
        336 => Some(seq![Slot { kind: OperandKind::Id, repeat: Repeat::One }, Slot { kind: OperandKind::Id, repeat: Repeat::One }]),
        337 => Some(seq![Slot { kind: OperandKind::Id, repeat: Repeat::One }, Slot { kind: OperandKind::Id, repeat: Repeat::One }, Slot { kind: OperandKind::Id, repeat: Repeat::One }]),
        338 => Some(seq![Slot { kind: OperandKind::Id, repeat: Repeat::One }, Slot { kind: OperandKind::Id, repeat: Repeat::One }]),
        339 => Some(seq![Slot { kind: OperandKind::Id, repeat: Repeat::One }, Slot { kind: OperandKind::Id, repeat: Repeat::One }]),
        340 => Some(seq![Slot { kind: OperandKind::Id, repeat: Repeat::One }, Slot { kind: OperandKind::Id, repeat: Repeat::One }]),
        341 => Some(seq![Slot { kind: OperandKind::Id, repeat: Repeat::One }, Slot { kind: OperandKind::Id, repeat: Repeat::One }, Slot { kind: OperandKind::Id, repeat: Repeat::One }]),
        342 => Some(seq![Slot { kind: OperandKind::Id, repeat: Repeat::One }, Slot { kind: OperandKind::Enum(EnumKind::GroupOperation), repeat: Repeat::One }, Slot { kind: OperandKind::Id, repeat: Repeat::One }]),
        343 => Some(seq![Slot { kind: OperandKind::Id, repeat: Repeat::One }, Slot { kind: OperandKind::Id, repeat: Repeat::One }]),
        344 => Some(seq![Slot { kind: OperandKind::Id, repeat: Repeat::One }, Slot { kind: OperandKind::Id, repeat: Repeat::One }]),
        345 => Some(seq![Slot { kind: OperandKind::Id, repeat: Repeat::One }, Slot { kind: OperandKind::Id, repeat: Repeat::One }, Slot { kind: OperandKind::Id, repeat: Repeat::One }]),
        346 => Some(seq![Slot { kind: OperandKind::Id, repeat: Repeat::One }, Slot { kind: OperandKind::Id, repeat: Repeat::One }, Slot { kind: OperandKind::Id, repeat: Repeat::One }]),
        347 => Some(seq![Slot { kind: OperandKind::Id, repeat: Repeat::One }, Slot { kind: OperandKind::Id, repeat: Repeat::One }, Slot { kind: OperandKind::Id, repeat: Repeat::One }]),
        348 => Some(seq![Slot { kind: OperandKind::Id, repeat: Repeat::One }, Slot { kind: OperandKind::Id, repeat: Repeat::One }, Slot { kind: OperandKind::Id, repeat: Repeat::One }]),
        349 => Some(seq![Slot { kind: OperandKind::Id, repeat: Repeat::One }, Slot { kind: OperandKind::Enum(EnumKind::GroupOperation), repeat: Repeat::One }, Slot { kind: OperandKind::Id, repeat: Repeat::One }, Slot { kind: OperandKind::Id, repeat: Repeat::Optional }]),
        350 => Some(seq![Slot { kind: OperandKind::Id, repeat: Repeat::One }, Slot { kind: OperandKind::Enum(EnumKind::GroupOperation), repeat: Repeat::One }, Slot { kind: OperandKind::Id, repeat: Repeat::One }, Slot { kind: OperandKind::Id, repeat: Repeat::Optional }]),
        351 => Some(seq![Slot { kind: OperandKind::Id, repeat: Repeat::One }, Slot { kind: OperandKind::Enum(EnumKind::GroupOperation), repeat: Repeat::One }, Slot { kind: OperandKind::Id, repeat: Repeat::One }, Slot { kind: OperandKind::Id, repeat: Repeat::Optional }]),
        352 => Some(seq![Slot { kind: OperandKind::Id, repeat: Repeat::One }, Slot { kind: OperandKind::Enum(EnumKind::GroupOperation), repeat: Repeat::One }, Slot { kind: OperandKind::Id, repeat: Repeat::One }, Slot { kind: OperandKind::Id, repeat: Repeat::Optional }]),
        353 => Some(seq![Slot { kind: OperandKind::Id, repeat: Repeat::One }, Slot { kind: OperandKind::Enum(EnumKind::GroupOperation), repeat: Repeat::One }, Slot { kind: OperandKind::Id, repeat: Repeat::One }, Slot { kind: OperandKind::Id, repeat: Repeat::Optional }]),
        354 => Some(seq![Slot { kind: OperandKind::Id, repeat: Repeat::One }, Slot { kind: OperandKind::Enum(EnumKind::GroupOperation), repeat: Repeat::One }, Slot { kind: OperandKind::Id, repeat: Repeat::One }, Slot { kind: OperandKind::Id, repeat: Repeat::Optional }]),
        355 => Some(seq![Slot { kind: OperandKind::Id, repeat: Repeat::One }, Slot { kind: OperandKind::Enum(EnumKind::GroupOperation), repeat: Repeat::One }, Slot { kind: OperandKind::Id, repeat: Repeat::One }, Slot { kind: OperandKind::Id, repeat: Repeat::Optional }]),
        356 => Some(seq![Slot { kind: OperandKind::Id, repeat: Repeat::One }, Slot { kind: OperandKind::Enum(EnumKind::GroupOperation), repeat: Repeat::One }, Slot { kind: OperandKind::Id, repeat: Repeat::One }, Slot { kind: OperandKind::Id, repeat: Repeat::Optional }]),
        357 => Some(seq![Slot { kind: OperandKind::Id, repeat: Repeat::One }, Slot { kind: OperandKind::Enum(EnumKind::GroupOperation), repeat: Repeat::One }, Slot { kind: OperandKind::Id, repeat: Repeat::One }, Slot { kind: OperandKind::Id, repeat: Repeat::Optional }]),
        358 => Some(seq![Slot { kind: OperandKind::Id, repeat: Repeat::One }, Slot { kind: OperandKind::Enum(EnumKind::GroupOperation), repeat: Repeat::One }, Slot { kind: OperandKind::Id, repeat: Repeat::One }, Slot { kind: OperandKind::Id, repeat: Repeat::Optional }]),
        359 => Some(seq![Slot { kind: OperandKind::Id, repeat: Repeat::One }, Slot { kind: OperandKind::Enum(EnumKind::GroupOperation), repeat: Repeat::One }, Slot { kind: OperandKind::Id, repeat: Repeat::One }, Slot { kind: OperandKind::Id, repeat: Repeat::Optional }]),
        360 => Some(seq![Slot { kind: OperandKind::Id, repeat: Repeat::One }, Slot { kind: OperandKind::Enum(EnumKind::GroupOperation), repeat: Repeat::One }, Slot { kind: OperandKind::Id, repeat: Repeat::One }, Slot { kind: OperandKind::Id, repeat: Repeat::Optional }]),
        361 => Some(seq![Slot { kind: OperandKind::Id, repeat: Repeat::One }, Slot { kind: OperandKind::Enum(EnumKind::GroupOperation), repeat: Repeat::One }, Slot { kind: OperandKind::Id, repeat: Repeat::One }, Slot { kind: OperandKind::Id, repeat: Repeat::Optional }]),
        362 => Some(seq![Slot { kind: OperandKind::Id, repeat: Repeat::One }, Slot { kind: OperandKind::Enum(EnumKind::GroupOperation), repeat: Repeat::One }, Slot { kind: OperandKind::Id, repeat: Repeat::One }, Slot { kind: OperandKind::Id, repeat: Repeat::Optional }]),
        363 => Some(seq![Slot { kind: OperandKind::Id, repeat: Repeat::One }, Slot { kind: OperandKind::Enum(EnumKind::GroupOperation), repeat: Repeat::One }, Slot { kind: OperandKind::Id, repeat: Repeat::One }, Slot { kind: OperandKind::Id, repeat: Repeat::Optional }]),
        364 => Some(seq![Slot { kind: OperandKind::Id, repeat: Repeat::One }, Slot { kind: OperandKind::Enum(EnumKind::GroupOperation), repeat: Repeat::One }, Slot { kind: OperandKind::Id, repeat: Repeat::One }, Slot { kind: OperandKind::Id, repeat: Repeat::Optional }]),
        365 => Some(seq![Slot { kind: OperandKind::Id, repeat: Repeat::One }, Slot { kind: OperandKind::Id, repeat: Repeat::One }, Slot { kind: OperandKind::Id, repeat: Repeat::One }]),
        366 => Some(seq![Slot { kind: OperandKind::Id, repeat: Repeat::One }, Slot { kind: OperandKind::Id, repeat: Repeat::One }, Slot { kind: OperandKind::Id, repeat: Repeat::One }]),
        400 => Some(seq![Slot { kind: OperandKind::Id, repeat: Repeat::One }]),
        401 => Some(seq![Slot { kind: OperandKind::Id, repeat: Repeat::One }, Slot { kind: OperandKind::Id, repeat: Repeat::One }]),
        402 => Some(seq![Slot { kind: OperandKind::Id, repeat: Repeat::One }, Slot { kind: OperandKind::Id, repeat: Repeat::One }]),
        403 => Some(seq![Slot { kind: OperandKind::Id, repeat: Repeat::One }, Slot { kind: OperandKind::Id, repeat: Repeat::One }]),
        4160 => Some(seq![Slot { kind: OperandKind::Id, repeat: Repeat::One }, Slot { kind: OperandKind::Id, repeat: Repeat::Optional }]),
        4161 => Some(seq![Slot { kind: OperandKind::Id, repeat: Repeat::Optional }]),
        4162 => Some(seq![Slot { kind: OperandKind::Id, repeat: Repeat::Optional }]),
        4416 => Some(seq![]),
        4421 => Some(seq![Slot { kind: OperandKind::Id, repeat: Repeat::One }]),
        4422 => Some(seq![Slot { kind: OperandKind::Id, repeat: Repeat::One }]),
        4428 => Some(seq![Slot { kind: OperandKind::Id, repeat: Repeat::One }]),
        4429 => Some(seq![Slot { kind: OperandKind::Id, repeat: Repeat::One }]),
        4430 => Some(seq![Slot { kind: OperandKind::Id, repeat: Repeat::One }]),
        4431 => Some(seq![Slot { kind: OperandKind::Id, repeat: Repeat::One }, Slot { kind: OperandKind::Id, repeat: Repeat::One }, Slot { kind: OperandKind::Id, repeat: Repeat::One }, Slot { kind: OperandKind::Id, repeat: Repeat::Optional }]),
        4432 => Some(seq![Slot { kind: OperandKind::Id, repeat: Repeat::One }, Slot { kind: OperandKind::Id, repeat: Repeat::One }]),
        4445 => Some(seq![Slot { kind: OperandKind::Id, repeat: Repeat::One }, Slot { kind: OperandKind::Id, repeat: Repeat::One }, Slot { kind: OperandKind::Id, repeat: Repeat::One }, Slot { kind: OperandKind::Id, repeat: Repeat::One }, Slot { kind: OperandKind::Id, repeat: Repeat::One }, Slot { kind: OperandKind::Id, repeat: Repeat::One }, Slot { kind: OperandKind::Id, repeat: Repeat::One }, Slot { kind: OperandKind::Id, repeat: Repeat::One }, Slot { kind: OperandKind::Id, repeat: Repeat::One }, Slot { kind: OperandKind::Id, repeat: Repeat::One }, Slot { kind: OperandKind::Id, repeat: Repeat::One }]),
        4446 => Some(seq![Slot { kind: OperandKind::Id, repeat: Repeat::One }, Slot { kind: OperandKind::Id, repeat: Repeat::One }]),
        4447 => Some(seq![Slot { kind: OperandKind::Id, repeat: Repeat::One }]),
        4448 => Some(seq![]),
        4449 => Some(seq![]),
        _ => None,
    }
}

pub open spec fn opcode_slots_6(op: u32) -> Option<Seq<Slot>> {
    match op {
        4450 => Some(seq![Slot { kind: OperandKind::Id, repeat: Repeat::One }, Slot { kind: OperandKind::Id, repeat: Repeat::One }, Slot { kind: OperandKind::Enum(EnumKind::PackedVectorFormat), repeat: Repeat::Optional }]),
        4451 => Some(seq![Slot { kind: OperandKind::Id, repeat: Repeat::One }, Slot { kind: OperandKind::Id, repeat: Repeat::One }, Slot { kind: OperandKind::Enum(EnumKind::PackedVectorFormat), repeat: Repeat::Optional }]),
        4452 => Some(seq![Slot { kind: OperandKind::Id, repeat: Repeat::One }, Slot { kind: OperandKind::Id, repeat: Repeat::One }, Slot { kind: OperandKind::Enum(EnumKind::PackedVectorFormat), repeat: Repeat::Optional }]),
        4453 => Some(seq![Slot { kind: OperandKind::Id, repeat: Repeat::One }, Slot { kind: OperandKind::Id, repeat: Repeat::One }, Slot { kind: OperandKind::Id, repeat: Repeat::One }, Slot { kind: OperandKind::Enum(EnumKind::PackedVectorFormat), repeat: Repeat::Optional }]),
        4454 => Some(seq![Slot { kind: OperandKind::Id, repeat: Repeat::One }, Slot { kind: OperandKind::Id, repeat: Repeat::One }, Slot { kind: OperandKind::Id, repeat: Repeat::One }, Slot { kind: OperandKind::Enum(EnumKind::PackedVectorFormat), repeat: Repeat::Optional }]),
        4455 => Some(seq![Slot { kind: OperandKind::Id, repeat: Repeat::One }, Slot { kind: OperandKind::Id, repeat: Repeat::One }, Slot { kind: OperandKind::Id, repeat: Repeat::One }, Slot { kind: OperandKind::Enum(EnumKind::PackedVectorFormat), repeat: Repeat::Optional }]),
        4456 => Some(seq![Slot { kind: OperandKind::Id, repeat: Repeat::One }, Slot { kind: OperandKind::Id, repeat: Repeat::One }, Slot { kind: OperandKind::Id, repeat: Repeat::One }, Slot { kind: OperandKind::Id, repeat: Repeat::One }, Slot { kind: OperandKind::Id, repeat: Repeat::One }]),
        4457 => Some(seq![Slot { kind: OperandKind::Id, repeat: Repeat::One }, Slot { kind: OperandKind::Id, repeat: Repeat::One }, Slot { kind: OperandKind::Id, repeat: Repeat::Optional }, Slot { kind: OperandKind::Enum(EnumKind::MemoryAccess), repeat: Repeat::Optional }]),
        4458 => Some(seq![Slot { kind: OperandKind::Id, repeat: Repeat::One }, Slot { kind: OperandKind::Id, repeat: Repeat::One }, Slot { kind: OperandKind::Id, repeat: Repeat::One }, Slot { kind: OperandKind::Id, repeat: Repeat::Optional }, Slot { kind: OperandKind::Enum(EnumKind::MemoryAccess), repeat: Repeat::Optional }]),
        4459 => Some(seq![Slot { kind: OperandKind::Id, repeat: Repeat::One }, Slot { kind: OperandKind::Id, repeat: Repeat::One }, Slot { kind: OperandKind::Id, repeat: Repeat::One }, Slot { kind: OperandKind::Enum(EnumKind::CooperativeMatrixOperands), repeat: Repeat::Optional }]),
        4460 => Some(seq![Slot { kind: OperandKind::Id, repeat: Repeat::One }]),
        4472 => Some(seq![]),
        4473 => Some(seq![Slot { kind: OperandKind::Id, repeat: Repeat::One }, Slot { kind: OperandKind::Id, repeat: Repeat::One }, Slot { kind: OperandKind::Id, repeat: Repeat::One }, Slot { kind: OperandKind::Id, repeat: Repeat::One }, Slot { kind: OperandKind::Id, repeat: Repeat::One }, Slot { kind: OperandKind::Id, repeat: Repeat::One }, Slot { kind: OperandKind::Id, repeat: Repeat::One }, Slot { kind: OperandKind::Id, repeat: Repeat::One }]),
        4474 => Some(seq![Slot { kind: OperandKind::Id, repeat: Repeat::One }]),
        4475 => Some(seq![Slot { kind: OperandKind::Id, repeat: Repeat::One }, Slot { kind: OperandKind::Id, repeat: Repeat::One }]),
        4476 => Some(seq![Slot { kind: OperandKind::Id, repeat: Repeat::One }]),
        4477 => Some(seq![Slot { kind: OperandKind::Id, repeat: Repeat::One }]),
        4479 => Some(seq![Slot { kind: OperandKind::Id, repeat: Repeat::One }, Slot { kind: OperandKind::Id, repeat: Repeat::One }]),
        4480 => Some(seq![Slot { kind: OperandKind::Id, repeat: Repeat::One }, Slot { kind: OperandKind::Id, repeat: Repeat::One }, Slot { kind: OperandKind::Id, repeat: Repeat::One }]),
        4481 => Some(seq![Slot { kind: OperandKind::Id, repeat: Repeat::One }, Slot { kind: OperandKind::Id, repeat: Repeat::One }, Slot { kind: OperandKind::Id, repeat: Repeat::One }]),
        4482 => Some(seq![Slot { kind: OperandKind::Id, repeat: Repeat::One }, Slot { kind: OperandKind::Id, repeat: Repeat::One }, Slot { kind: OperandKind::Id, repeat: Repeat::One }, Slot { kind: OperandKind::Id, repeat: Repeat::One }, Slot { kind: OperandKind::Id, repeat: Repeat::One }]),
        4483 => Some(seq![Slot { kind: OperandKind::Id, repeat: Repeat::One }, Slot { kind: OperandKind::Id, repeat: Repeat::One }, Slot { kind: OperandKind::Id, repeat: Repeat::One }, Slot { kind: OperandKind::Id, repeat: Repeat::One }, Slot { kind: OperandKind::Id, repeat: Repeat::One }]),
        5000 => Some(seq![Slot { kind: OperandKind::Id, repeat: Repeat::One }, Slot { kind: OperandKind::Enum(EnumKind::GroupOperation), repeat: Repeat::One }, Slot { kind: OperandKind::Id, repeat: Repeat::One }]),
        5001 => Some(seq![Slot { kind: OperandKind::Id, repeat: Repeat::One }, Slot { kind: OperandKind::Enum(EnumKind::GroupOperation), repeat: Repeat::One }, Slot { kind: OperandKind::Id, repeat: Repeat::One }]),
        5002 => Some(seq![Slot { kind: OperandKind::Id, repeat: Repeat::One }, Slot { kind: OperandKind::Enum(EnumKind::GroupOperation), repeat: Repeat::One }, Slot { kind: OperandKind::Id, repeat: Repeat::One }]),
        5003 => Some(seq![Slot { kind: OperandKind::Id, repeat: Repeat::One }, Slot { kind: OperandKind::Enum(EnumKind::GroupOperation), repeat: Repeat::One }, Slot { kind: OperandKind::Id, repeat: Repeat::One }]),
        5004 => Some(seq![Slot { kind: OperandKind::Id, repeat: Repeat::One }, Slot { kind: OperandKind::Enum(EnumKind::GroupOperation), repeat: Repeat::One }, Slot { kind: OperandKind::Id, repeat: Repeat::One }]),
        5005 => Some(seq![Slot { kind: OperandKind::Id, repeat: Repeat::One }, Slot { kind: OperandKind::Enum(EnumKind::GroupOperation), repeat: Repeat::One }, Slot { kind: OperandKind::Id, repeat: Repeat::One }]),
        5006 => Some(seq![Slot { kind: OperandKind::Id, repeat: Repeat::One }, Slot { kind: OperandKind::Enum(EnumKind::GroupOperation), repeat: Repeat::One }, Slot { kind: OperandKind::Id, repeat: Repeat::One }]),
        5007 => Some(seq![Slot { kind: OperandKind::Id, repeat: Repeat::One }, Slot { kind: OperandKind::Enum(EnumKind::GroupOperation), repeat: Repeat::One }, Slot { kind: OperandKind::Id, repeat: Repeat::One }]),
        5011 => Some(seq![Slot { kind: OperandKind::Id, repeat: Repeat::One }, Slot { kind: OperandKind::Id, repeat: Repeat::One }]),
        5012 => Some(seq![Slot { kind: OperandKind::Id, repeat: Repeat::One }, Slot { kind: OperandKind::Id, repeat: Repeat::One }, Slot { kind: OperandKind::Id, repeat: Repeat::One }]),
        5056 => Some(seq![Slot { kind: OperandKind::Id, repeat: Repeat::One }]),
        5075 => Some(seq![Slot { kind: OperandKind::Id, repeat: Repeat::One }]),
        5078 => Some(seq![Slot { kind: OperandKind::Id, repeat: Repeat::One }]),
        5090 => Some(seq![Slot { kind: OperandKind::Id, repeat: Repeat::One }, Slot { kind: OperandKind::Id, repeat: Repeat::One }, Slot { kind: OperandKind::Id, repeat: Repeat::One }, Slot { kind: OperandKind::Id, repeat: Repeat::One }]),
        5249 => Some(seq![Slot { kind: OperandKind::Id, repeat: Repeat::One }, Slot { kind: OperandKind::Id, repeat: Repeat::One }, Slot { kind: OperandKind::Id, repeat: Repeat::One }, Slot { kind: OperandKind::Id, repeat: Repeat::One }, Slot { kind: OperandKind::Id, repeat: Repeat::One }, Slot { kind: OperandKind::Id, repeat: Repeat::One }, Slot { kind: OperandKind::Id, repeat: Repeat::One }, Slot { kind: OperandKind::Id, repeat: Repeat::One }, Slot { kind: OperandKind::Id, repeat: Repeat::One }, Slot { kind: OperandKind::Id, repeat: Repeat::One }, Slot { kind: OperandKind::Id, repeat: Repeat::One }, Slot { kind: OperandKind::Id, repeat: Repeat::One }, Slot { kind: OperandKind::Id, repeat: Repeat::One }, Slot { kind: OperandKind::Id, repeat: Repeat::One }]),
        5250 => Some(seq![Slot { kind: OperandKind::Id, repeat: Repeat::One }, Slot { kind: OperandKind::Id, repeat: Repeat::One }, Slot { kind: OperandKind::Id, repeat: Repeat::One }, Slot { kind: OperandKind::Id, repeat: Repeat::One }, Slot { kind: OperandKind::Id, repeat: Repeat::One }, Slot { kind: OperandKind::Id, repeat: Repeat::One }, Slot { kind: OperandKind::Id, repeat: Repeat::One }, Slot { kind: OperandKind::Id, repeat: Repeat::One }, Slot { kind: OperandKind::Id, repeat: Repeat::One }, Slot { kind: OperandKind::Id, repeat: Repeat::One }, Slot { kind: OperandKind::Id, repeat: Repeat::One }, Slot { kind: OperandKind::Id, repeat: Repeat::One }, Slot { kind: OperandKind::Id, repeat: Repeat::One }]),
        5251 => Some(seq![Slot { kind: OperandKind::Id, repeat: Repeat::One }, Slot { kind: OperandKind::Id, repeat: Repeat::One }, Slot { kind: OperandKind::Id, repeat: Repeat::One }, Slot { kind: OperandKind::Id, repeat: Repeat::One }, Slot { kind: OperandKind::Id, repeat: Repeat::One }, Slot { kind: OperandKind::Id, repeat: Repeat::One }, Slot { kind: OperandKind::Id, repeat: Repeat::One }]),
        5252 => Some(seq![Slot { kind: OperandKind::Id, repeat: Repeat::One }]),
        5253 => Some(seq![Slot { kind: OperandKind::Id, repeat: Repeat::One }]),
        5254 => Some(seq![Slot { kind: OperandKind::Id, repeat: Repeat::One }]),
        5255 => Some(seq![Slot { kind: OperandKind::Id, repeat: Repeat::One }]),
        5256 => Some(seq![Slot { kind: OperandKind::Id, repeat: Repeat::One }, Slot { kind: OperandKind::Id, repeat: Repeat::One }, Slot { kind: OperandKind::Id, repeat: Repeat::One }, Slot { kind: OperandKind::Id, repeat: Repeat::One }, Slot { kind: OperandKind::Id, repeat: Repeat::One }, Slot { kind: OperandKind::Id, repeat: Repeat::One }, Slot { kind: OperandKind::Id, repeat: Repeat::One }, Slot { kind: OperandKind::Id, repeat: Repeat::One }, Slot { kind: OperandKind::Id, repeat: Repeat::One }, Slot { kind: OperandKind::Id, repeat: Repeat::One }, Slot { kind: OperandKind::Id, repeat: Repeat::One }, Slot { kind: OperandKind::Id, repeat: Repeat::One }, Slot { kind: OperandKind::Id, repeat: Repeat::One }]),
        5257 => Some(seq![Slot { kind: OperandKind::Id, repeat: Repeat::One }]),
        5258 => Some(seq![Slot { kind: OperandKind::Id, repeat: Repeat::One }]),
        5259 => Some(seq![Slot { kind: OperandKind::Id, repeat: Repeat::One }]),
        5260 => Some(seq![Slot { kind: OperandKind::Id, repeat: Repeat::One }, Slot { kind: OperandKind::Id, repeat: Repeat::One }, Slot { kind: OperandKind::Id, repeat: Repeat::One }, Slot { kind: OperandKind::Id, repeat: Repeat::One }, Slot { kind: OperandKind::Id, repeat: Repeat::One }, Slot { kind: OperandKind::Id, repeat: Repeat::One }, Slot { kind: OperandKind::Id, repeat: Repeat::One }, Slot { kind: OperandKind::Id, repeat: Repeat::One }, Slot { kind: OperandKind::Id, repeat: Repeat::One }, Slot { kind: OperandKind::Id, repeat: Repeat::One }, Slot { kind: OperandKind::Id, repeat: Repeat::One }, Slot { kind: OperandKind::Id, repeat: Repeat::One }]),
        5261 => Some(seq![Slot { kind: OperandKind::Id, repeat: Repeat::One }, Slot { kind: OperandKind::Id, repeat: Repeat::One }, Slot { kind: OperandKind::Id, repeat: Repeat::One }, Slot { kind: OperandKind::Id, repeat: Repeat::One }, Slot { kind: OperandKind::Id, repeat: Repeat::One }, Slot { kind: OperandKind::Id, repeat: Repeat::One }, Slot { kind: OperandKind::Id, repeat: Repeat::One }, Slot { kind: OperandKind::Id, repeat: Repeat::One }, Slot { kind: OperandKind::Id, repeat: Repeat::One }, Slot { kind: OperandKind::Id, repeat: Repeat::One }, Slot { kind: OperandKind::Id, repeat: Repeat::One }, Slot { kind: OperandKind::Id, repeat: Repeat::One }, Slot { kind: OperandKind::Id, repeat: Repeat::One }]),
        5262 => Some(seq![Slot { kind: OperandKind::Id, repeat: Repeat::One }, Slot { kind: OperandKind::Id, repeat: Repeat::One }, Slot { kind: OperandKind::Id, repeat: Repeat::One }, Slot { kind: OperandKind::Id, repeat: Repeat::One }, Slot { kind: OperandKind::Id, repeat: Repeat::One }, Slot { kind: OperandKind::Id, repeat: Repeat::One }, Slot { kind: OperandKind::Id, repeat: Repeat::One }, Slot { kind: OperandKind::Id, repeat: Repeat::One }, Slot { kind: OperandKind::Id, repeat: Repeat::One }, Slot { kind: OperandKind::Id, repeat: Repeat::One }, Slot { kind: OperandKind::Id, repeat: Repeat::One }, Slot { kind: OperandKind::Id, repeat: Repeat::One }]),
        5263 => Some(seq![Slot { kind: OperandKind::Id, repeat: Repeat::One }, Slot { kind: OperandKind::Id, repeat: Repeat::One }, Slot { kind: OperandKind::Id, repeat: Repeat::One }, Slot { kind: OperandKind::Id, repeat: Repeat::One }, Slot { kind: OperandKind::Id, repeat: Repeat::One }, Slot { kind: OperandKind::Id, repeat: Repeat::One }]),
        5264 => Some(seq![Slot { kind: OperandKind::Id, repeat: Repeat::One }, Slot { kind: OperandKind::Id, repeat: Repeat::One }]),
        5265 => Some(seq![Slot { kind: OperandKind::Id, repeat: Repeat::One }]),
        5266 => Some(seq![Slot { kind: OperandKind::Id, repeat: Repeat::One }, Slot { kind: OperandKind::Id, repeat: Repeat::One }]),
        5267 => Some(seq![Slot { kind: OperandKind::Id, repeat: Repeat::One }]),
        5268 => Some(seq![Slot { kind: OperandKind::Id, repeat: Repeat::One }]),
        5269 => Some(seq![Slot { kind: OperandKind::Id, repeat: Repeat::One }]),
        5270 => Some(seq![Slot { kind: OperandKind::Id, repeat: Repeat::One }]),
        5271 => Some(seq![Slot { kind: OperandKind::Id, repeat: Repeat::One }]),
        5272 => Some(seq![Slot { kind: OperandKind::Id, repeat: Repeat::One }]),
        _ => None,
    }
}

pub open spec fn opcode_slots_7(op: u32) -> Option<Seq<Slot>> {
    match op {
        5273 => Some(seq![Slot { kind: OperandKind::Id, repeat: Repeat::One }]),
        5274 => Some(seq![Slot { kind: OperandKind::Id, repeat: Repeat::One }]),
        5275 => Some(seq![Slot { kind: OperandKind::Id, repeat: Repeat::One }]),
        5276 => Some(seq![Slot { kind: OperandKind::Id, repeat: Repeat::One }]),
        5277 => Some(seq![Slot { kind: OperandKind::Id, repeat: Repeat::One }]),
        5278 => Some(seq![Slot { kind: OperandKind::Id, repeat: Repeat::One }]),
        5279 => Some(seq![Slot { kind: OperandKind::Id, repeat: Repeat::One }, Slot { kind: OperandKind::Id, repeat: Repeat::Optional }, Slot { kind: OperandKind::Id, repeat: Repeat::Optional }]),
        5280 => Some(seq![Slot { kind: OperandKind::Id, repeat: Repeat::One }, Slot { kind: OperandKind::Id, repeat: Repeat::One }]),
        5281 => Some(seq![]),
        5283 => Some(seq![Slot { kind: OperandKind::Id, repeat: Repeat::One }, Slot { kind: OperandKind::Id, repeat: Repeat::One }, Slot { kind: OperandKind::Id, repeat: Repeat::One }, Slot { kind: OperandKind::Id, repeat: Repeat::One }, Slot { kind: OperandKind::Enum(EnumKind::ImageOperands), repeat: Repeat::Optional }]),
        5294 => Some(seq![Slot { kind: OperandKind::Id, repeat: Repeat::One }, Slot { kind: OperandKind::Id, repeat: Repeat::One }, Slot { kind: OperandKind::Id, repeat: Repeat::One }, Slot { kind: OperandKind::Id, repeat: Repeat::Optional }]),
        5295 => Some(seq![Slot { kind: OperandKind::Id, repeat: Repeat::One }, Slot { kind: OperandKind::Id, repeat: Repeat::One }]),
        5296 => Some(seq![Slot { kind: OperandKind::Id, repeat: Repeat::One }]),
        5299 => Some(seq![Slot { kind: OperandKind::Id, repeat: Repeat::One }, Slot { kind: OperandKind::Id, repeat: Repeat::One }]),
        5300 => Some(seq![Slot { kind: OperandKind::Id, repeat: Repeat::One }, Slot { kind: OperandKind::Id, repeat: Repeat::One }, Slot { kind: OperandKind::Id, repeat: Repeat::One }, Slot { kind: OperandKind::Id, repeat: Repeat::One }, Slot { kind: OperandKind::Id, repeat: Repeat::One }]),
        5301 => Some(seq![Slot { kind: OperandKind::Id, repeat: Repeat::One }, Slot { kind: OperandKind::Id, repeat: Repeat::One }, Slot { kind: OperandKind::Id, repeat: Repeat::One }, Slot { kind: OperandKind::Id, repeat: Repeat::One }, Slot { kind: OperandKind::Id, repeat: Repeat::One }]),
        5334 => Some(seq![Slot { kind: OperandKind::Id, repeat: Repeat::One }, Slot { kind: OperandKind::Id, repeat: Repeat::One }]),
        5335 => Some(seq![]),
        5336 => Some(seq![]),
        5337 => Some(seq![Slot { kind: OperandKind::Id, repeat: Repeat::One }, Slot { kind: OperandKind::Id, repeat: Repeat::One }, Slot { kind: OperandKind::Id, repeat: Repeat::One }, Slot { kind: OperandKind::Id, repeat: Repeat::One }, Slot { kind: OperandKind::Id, repeat: Repeat::One }, Slot { kind: OperandKind::Id, repeat: Repeat::One }, Slot { kind: OperandKind::Id, repeat: Repeat::One }, Slot { kind: OperandKind::Id, repeat: Repeat::One }, Slot { kind: OperandKind::Id, repeat: Repeat::One }, Slot { kind: OperandKind::Id, repeat: Repeat::One }, Slot { kind: OperandKind::Id, repeat: Repeat::One }]),
        5338 => Some(seq![Slot { kind: OperandKind::Id, repeat: Repeat::One }, Slot { kind: OperandKind::Id, repeat: Repeat::One }, Slot { kind: OperandKind::Id, repeat: Repeat::One }, Slot { kind: OperandKind::Id, repeat: Repeat::One }, Slot { kind: OperandKind::Id, repeat: Repeat::One }, Slot { kind: OperandKind::Id, repeat: Repeat::One }, Slot { kind: OperandKind::Id, repeat: Repeat::One }, Slot { kind: OperandKind::Id, repeat: Repeat::One }, Slot { kind: OperandKind::Id, repeat: Repeat::One }, Slot { kind: OperandKind::Id, repeat: Repeat::One }, Slot { kind: OperandKind::Id, repeat: Repeat::One }, Slot { kind: OperandKind::Id, repeat: Repeat::One }]),
        5339 => Some(seq![Slot { kind: OperandKind::Id, repeat: Repeat::One }, Slot { kind: OperandKind::Id, repeat: Repeat::One }, Slot { kind: OperandKind::Id, repeat: Repeat::One }, Slot { kind: OperandKind::Id, repeat: Repeat::One }, Slot { kind: OperandKind::Id, repeat: Repeat::One }, Slot { kind: OperandKind::Id, repeat: Repeat::One }, Slot { kind: OperandKind::Id, repeat: Repeat::One }, Slot { kind: OperandKind::Id, repeat: Repeat::One }, Slot { kind: OperandKind::Id, repeat: Repeat::One }, Slot { kind: OperandKind::Id, repeat: Repeat::One }, Slot { kind: OperandKind::Id, repeat: Repeat::One }, Slot { kind: OperandKind::Id, repeat: Repeat::One }]),
        5340 => Some(seq![Slot { kind: OperandKind::Id, repeat: Repeat::One }, Slot { kind: OperandKind::Id, repeat: Repeat::One }]),
        5341 => Some(seq![]),
        5344 => Some(seq![Slot { kind: OperandKind::Id, repeat: Repeat::One }, Slot { kind: OperandKind::Id, repeat: Repeat::One }]),
        5358 => Some(seq![Slot { kind: OperandKind::Id, repeat: Repeat::One }, Slot { kind: OperandKind::Id, repeat: Repeat::One }, Slot { kind: OperandKind::Id, repeat: Repeat::One }, Slot { kind: OperandKind::Id, repeat: Repeat::One }]),
        5359 => Some(seq![Slot { kind: OperandKind::Id, repeat: Repeat::One }, Slot { kind: OperandKind::Id, repeat: Repeat::One }, Slot { kind: OperandKind::Id, repeat: Repeat::One }, Slot { kind: OperandKind::Enum(EnumKind::MemoryAccess), repeat: Repeat::Optional }]),
        5360 => Some(seq![Slot { kind: OperandKind::Id, repeat: Repeat::One }, Slot { kind: OperandKind::Id, repeat: Repeat::One }, Slot { kind: OperandKind::Id, repeat: Repeat::One }, Slot { kind: OperandKind::Id, repeat: Repeat::One }, Slot { kind: OperandKind::Enum(EnumKind::MemoryAccess), repeat: Repeat::Optional }]),
        5361 => Some(seq![Slot { kind: OperandKind::Id, repeat: Repeat::One }, Slot { kind: OperandKind::Id, repeat: Repeat::One }, Slot { kind: OperandKind::Id, repeat: Repeat::One }]),
        5362 => Some(seq![Slot { kind: OperandKind::Id, repeat: Repeat::One }]),
        5364 => Some(seq![]),
        5365 => Some(seq![]),
        5380 => Some(seq![]),
        5381 => Some(seq![]),
        5391 => Some(seq![Slot { kind: OperandKind::Id, repeat: Repeat::One }]),
        5392 => Some(seq![Slot { kind: OperandKind::Id, repeat: Repeat::One }]),
        5393 => Some(seq![Slot { kind: OperandKind::Id, repeat: Repeat::One }]),
        5394 => Some(seq![Slot { kind: OperandKind::Id, repeat: Repeat::One }]),
        5395 => Some(seq![Slot { kind: OperandKind::Id, repeat: Repeat::One }]),
        5396 => Some(seq![Slot { kind: OperandKind::Id, repeat: Repeat::One }]),
        5397 => Some(seq![Slot { kind: OperandKind::U32, repeat: Repeat::One }]),
        5571 => Some(seq![Slot { kind: OperandKind::Id, repeat: Repeat::One }, Slot { kind: OperandKind::Id, repeat: Repeat::One }]),
        5572 => Some(seq![Slot { kind: OperandKind::Id, repeat: Repeat::One }, Slot { kind: OperandKind::Id, repeat: Repeat::One }, Slot { kind: OperandKind::Id, repeat: Repeat::One }]),
        5573 => Some(seq![Slot { kind: OperandKind::Id, repeat: Repeat::One }, Slot { kind: OperandKind::Id, repeat: Repeat::One }, Slot { kind: OperandKind::Id, repeat: Repeat::One }]),
        5574 => Some(seq![Slot { kind: OperandKind::Id, repeat: Repeat::One }, Slot { kind: OperandKind::Id, repeat: Repeat::One }]),
        5575 => Some(seq![Slot { kind: OperandKind::Id, repeat: Repeat::One }]),
        5576 => Some(seq![Slot { kind: OperandKind::Id, repeat: Repeat::One }, Slot { kind: OperandKind::Id, repeat: Repeat::One }]),
        5577 => Some(seq![Slot { kind: OperandKind::Id, repeat: Repeat::One }, Slot { kind: OperandKind::Id, repeat: Repeat::One }]),
        5578 => Some(seq![Slot { kind: OperandKind::Id, repeat: Repeat::One }, Slot { kind: OperandKind::Id, repeat: Repeat::One }, Slot { kind: OperandKind::Id, repeat: Repeat::One }]),
        5580 => Some(seq![Slot { kind: OperandKind::Id, repeat: Repeat::One }, Slot { kind: OperandKind::Id, repeat: Repeat::One }, Slot { kind: OperandKind::Id, repeat: Repeat::One }, Slot { kind: OperandKind::Id, repeat: Repeat::One }]),
        5581 => Some(seq![Slot { kind: OperandKind::Id, repeat: Repeat::One }, Slot { kind: OperandKind::Id, repeat: Repeat::One }, Slot { kind: OperandKind::Id, repeat: Repeat::One }, Slot { kind: OperandKind::Id, repeat: Repeat::One }, Slot { kind: OperandKind::Id, repeat: Repeat::One }]),
        5585 => Some(seq![Slot { kind: OperandKind::Id, repeat: Repeat::One }]),
        5586 => Some(seq![Slot { kind: OperandKind::Id, repeat: Repeat::One }]),
        5587 => Some(seq![Slot { kind: OperandKind::Id, repeat: Repeat::One }, Slot { kind: OperandKind::Id, repeat: Repeat::One }]),
        5588 => Some(seq![Slot { kind: OperandKind::Id, repeat: Repeat::One }, Slot { kind: OperandKind::Id, repeat: Repeat::One }]),
        5589 => Some(seq![Slot { kind: OperandKind::Id, repeat: Repeat::One }, Slot { kind: OperandKind::Id, repeat: Repeat::One }]),
        5590 => Some(seq![Slot { kind: OperandKind::Id, repeat: Repeat::One }, Slot { kind: OperandKind::Id, repeat: Repeat::One }]),
        5591 => Some(seq![Slot { kind: OperandKind::Id, repeat: Repeat::One }, Slot { kind: OperandKind::Id, repeat: Repeat::One }]),
        5592 => Some(seq![Slot { kind: OperandKind::Id, repeat: Repeat::One }, Slot { kind: OperandKind::Id, repeat: Repeat::One }]),
        5593 => Some(seq![Slot { kind: OperandKind::Id, repeat: Repeat::One }, Slot { kind: OperandKind::Id, repeat: Repeat::One }]),
        _ => None,
    }
}

pub open spec fn opcode_slots_8(op: u32) -> Option<Seq<Slot>> {
    match op {
        5594 => Some(seq![Slot { kind: OperandKind::Id, repeat: Repeat::One }, Slot { kind: OperandKind::Id, repeat: Repeat::One }]),
        5595 => Some(seq![Slot { kind: OperandKind::Id, repeat: Repeat::One }, Slot { kind: OperandKind::Id, repeat: Repeat::One }]),
        5596 => Some(seq![Slot { kind: OperandKind::Id, repeat: Repeat::One }, Slot { kind: OperandKind::Id, repeat: Repeat::One }]),
        5597 => Some(seq![Slot { kind: OperandKind::Id, repeat: Repeat::One }, Slot { kind: OperandKind::Id, repeat: Repeat::One }]),
        5598 => Some(seq![Slot { kind: OperandKind::Id, repeat: Repeat::One }, Slot { kind: OperandKind::Id, repeat: Repeat::One }]),
        5600 => Some(seq![Slot { kind: OperandKind::Id, repeat: Repeat::One }]),
        5601 => Some(seq![Slot { kind: OperandKind::Id, repeat: Repeat::Many }]),
        5609 => Some(seq![Slot { kind: OperandKind::Str, repeat: Repeat::One }]),
        5610 => Some(seq![Slot { kind: OperandKind::Id, repeat: Repeat::One }, Slot { kind: OperandKind::Id, repeat: Repeat::One }, Slot { kind: OperandKind::Str, repeat: Repeat::One }, Slot { kind: OperandKind::Str, repeat: Repeat::One }]),
        5611 => Some(seq![Slot { kind: OperandKind::Id, repeat: Repeat::One }, Slot { kind: OperandKind::Id, repeat: Repeat::Many }]),
        5614 => Some(seq![Slot { kind: OperandKind::Id, repeat: Repeat::One }, Slot { kind: OperandKind::Id, repeat: Repeat::One }, Slot { kind: OperandKind::Id, repeat: Repeat::One }, Slot { kind: OperandKind::Id, repeat: Repeat::One }]),
        5615 => Some(seq![Slot { kind: OperandKind::Id, repeat: Repeat::One }, Slot { kind: OperandKind::Id, repeat: Repeat::One }, Slot { kind: OperandKind::Id, repeat: Repeat::One }, Slot { kind: OperandKind::Id, repeat: Repeat::One }]),
        5630 => Some(seq![Slot { kind: OperandKind::Id, repeat: Repeat::One }]),
        5631 => Some(seq![Slot { kind: OperandKind::Id, repeat: Repeat::One }, Slot { kind: OperandKind::Id, repeat: Repeat::One }]),
        5632 => Some(seq![Slot { kind: OperandKind::Id, repeat: Repeat::One }, Slot { kind: OperandKind::Enum(EnumKind::Decoration), repeat: Repeat::One }]),
        5633 => Some(seq![Slot { kind: OperandKind::Id, repeat: Repeat::One }, Slot { kind: OperandKind::U32, repeat: Repeat::One }, Slot { kind: OperandKind::Enum(EnumKind::Decoration), repeat: Repeat::One }]),
        5699 => Some(seq![Slot { kind: OperandKind::Id, repeat: Repeat::One }, Slot { kind: OperandKind::Id, repeat: Repeat::One }]),
        5700 => Some(seq![Slot { kind: OperandKind::Id, repeat: Repeat::One }]),
        5701 => Some(seq![]),
        5702 => Some(seq![]),
        5703 => Some(seq![]),
        5704 => Some(seq![]),
        5705 => Some(seq![]),
        5706 => Some(seq![]),
        5707 => Some(seq![]),
        5708 => Some(seq![]),
        5709 => Some(seq![]),
        5710 => Some(seq![]),
        5711 => Some(seq![]),
        5712 => Some(seq![]),
        5713 => Some(seq![Slot { kind: OperandKind::Id, repeat: Repeat::One }, Slot { kind: OperandKind::Id, repeat: Repeat::One }]),
        5714 => Some(seq![Slot { kind: OperandKind::Id, repeat: Repeat::One }, Slot { kind: OperandKind::Id, repeat: Repeat::One }]),
        5715 => Some(seq![Slot { kind: OperandKind::Id, repeat: Repeat::One }, Slot { kind: OperandKind::Id, repeat: Repeat::One }]),
        5716 => Some(seq![Slot { kind: OperandKind::Id, repeat: Repeat::One }, Slot { kind: OperandKind::Id, repeat: Repeat::One }]),
        5717 => Some(seq![Slot { kind: OperandKind::Id, repeat: Repeat::One }, Slot { kind: OperandKind::Id, repeat: Repeat::One }]),
        5718 => Some(seq![Slot { kind: OperandKind::Id, repeat: Repeat::One }, Slot { kind: OperandKind::Id, repeat: Repeat::One }]),
        5719 => Some(seq![Slot { kind: OperandKind::Id, repeat: Repeat::One }, Slot { kind: OperandKind::Id, repeat: Repeat::One }]),
        5720 => Some(seq![Slot { kind: OperandKind::Id, repeat: Repeat::One }, Slot { kind: OperandKind::Id, repeat: Repeat::One }]),
        5721 => Some(seq![]),
        5722 => Some(seq![]),
        5723 => Some(seq![]),
        5724 => Some(seq![Slot { kind: OperandKind::Id, repeat: Repeat::One }, Slot { kind: OperandKind::Id, repeat: Repeat::One }, Slot { kind: OperandKind::Id, repeat: Repeat::One }, Slot { kind: OperandKind::Id, repeat: Repeat::One }]),
        5725 => Some(seq![Slot { kind: OperandKind::Id, repeat: Repeat::One }, Slot { kind: OperandKind::Id, repeat: Repeat::One }]),
        5726 => Some(seq![]),
        5727 => Some(seq![]),
        5728 => Some(seq![Slot { kind: OperandKind::Id, repeat: Repeat::One }]),
        5729 => Some(seq![Slot { kind: OperandKind::Id, repeat: Repeat::One }, Slot { kind: OperandKind::Id, repeat: Repeat::One }]),
        5730 => Some(seq![Slot { kind: OperandKind::Id, repeat: Repeat::One }, Slot { kind: OperandKind::Id, repeat: Repeat::One }]),
        5731 => Some(seq![Slot { kind: OperandKind::Id, repeat: Repeat::One }, Slot { kind: OperandKind::Id, repeat: Repeat::One }, Slot { kind: OperandKind::Id, repeat: Repeat::One }]),
        5732 => Some(seq![Slot { kind: OperandKind::Id, repeat: Repeat::One }]),
        5733 => Some(seq![Slot { kind: OperandKind::Id, repeat: Repeat::One }]),
        5734 => Some(seq![Slot { kind: OperandKind::Id, repeat: Repeat::One }]),
        5735 => Some(seq![Slot { kind: OperandKind::Id, repeat: Repeat::One }]),
        5736 => Some(seq![Slot { kind: OperandKind::Id, repeat: Repeat::One }]),
        5737 => Some(seq![Slot { kind: OperandKind::Id, repeat: Repeat::One }]),
        5738 => Some(seq![Slot { kind: OperandKind::Id, repeat: Repeat::One }]),
        5739 => Some(seq![Slot { kind: OperandKind::Id, repeat: Repeat::One }]),
        5740 => Some(seq![Slot { kind: OperandKind::Id, repeat: Repeat::One }]),
        5741 => Some(seq![Slot { kind: OperandKind::Id, repeat: Repeat::One }]),
        5742 => Some(seq![Slot { kind: OperandKind::Id, repeat: Repeat::One }]),
        _ => None,
    }
}

pub open spec fn opcode_slots_9(op: u32) -> Option<Seq<Slot>> {
    match op {
        5743 => Some(seq![Slot { kind: OperandKind::Id, repeat: Repeat::One }]),
        5744 => Some(seq![Slot { kind: OperandKind::Id, repeat: Repeat::One }]),
        5745 => Some(seq![Slot { kind: OperandKind::Id, repeat: Repeat::One }]),
        5746 => Some(seq![Slot { kind: OperandKind::Id, repeat: Repeat::One }, Slot { kind: OperandKind::Id, repeat: Repeat::One }, Slot { kind: OperandKind::Id, repeat: Repeat::One }]),
        5747 => Some(seq![Slot { kind: OperandKind::Id, repeat: Repeat::One }, Slot { kind: OperandKind::Id, repeat: Repeat::One }, Slot { kind: OperandKind::Id, repeat: Repeat::One }]),
        5748 => Some(seq![Slot { kind: OperandKind::Id, repeat: Repeat::One }, Slot { kind: OperandKind::Id, repeat: Repeat::One }, Slot { kind: OperandKind::Id, repeat: Repeat::One }]),
        5749 => Some(seq![Slot { kind: OperandKind::Id, repeat: Repeat::One }, Slot { kind: OperandKind::Id, repeat: Repeat::One }, Slot { kind: OperandKind::Id, repeat: Repeat::One }, Slot { kind: OperandKind::Id, repeat: Repeat::One }]),
        5750 => Some(seq![Slot { kind: OperandKind::Id, repeat: Repeat::One }, Slot { kind: OperandKind::Id, repeat: Repeat::One }]),
        5751 => Some(seq![Slot { kind: OperandKind::Id, repeat: Repeat::One }, Slot { kind: OperandKind::Id, repeat: Repeat::One }, Slot { kind: OperandKind::Id, repeat: Repeat::One }, Slot { kind: OperandKind::Id, repeat: Repeat::One }]),
        5752 => Some(seq![Slot { kind: OperandKind::Id, repeat: Repeat::One }]),
        5753 => Some(seq![Slot { kind: OperandKind::Id, repeat: Repeat::One }, Slot { kind: OperandKind::Id, repeat: Repeat::One }]),
        5754 => Some(seq![Slot { kind: OperandKind::Id, repeat: Repeat::One }]),
        5755 => Some(seq![Slot { kind: OperandKind::Id, repeat: Repeat::One }, Slot { kind: OperandKind::Id, repeat: Repeat::One }]),
        5756 => Some(seq![Slot { kind: OperandKind::Id, repeat: Repeat::One }, Slot { kind: OperandKind::Id, repeat: Repeat::One }]),
        5757 => Some(seq![Slot { kind: OperandKind::Id, repeat: Repeat::One }, Slot { kind: OperandKind::Id, repeat: Repeat::One }, Slot { kind: OperandKind::Id, repeat: Repeat::One }]),
        5758 => Some(seq![Slot { kind: OperandKind::Id, repeat: Repeat::One }, Slot { kind: OperandKind::Id, repeat: Repeat::One }, Slot { kind: OperandKind::Id, repeat: Repeat::One }, Slot { kind: OperandKind::Id, repeat: Repeat::One }]),
        5759 => Some(seq![Slot { kind: OperandKind::Id, repeat: Repeat::One }, Slot { kind: OperandKind::Id, repeat: Repeat::One }, Slot { kind: OperandKind::Id, repeat: Repeat::One }, Slot { kind: OperandKind::Id, repeat: Repeat::One }]),
        5760 => Some(seq![Slot { kind: OperandKind::Id, repeat: Repeat::One }, Slot { kind: OperandKind::Id, repeat: Repeat::One }, Slot { kind: OperandKind::Id, repeat: Repeat::One }, Slot { kind: OperandKind::Id, repeat: Repeat::One }, Slot { kind: OperandKind::Id, repeat: Repeat::One }]),
        5761 => Some(seq![Slot { kind: OperandKind::Id, repeat: Repeat::One }, Slot { kind: OperandKind::Id, repeat: Repeat::One }, Slot { kind: OperandKind::Id, repeat: Repeat::One }]),
        5762 => Some(seq![Slot { kind: OperandKind::Id, repeat: Repeat::One }, Slot { kind: OperandKind::Id, repeat: Repeat::One }, Slot { kind: OperandKind::Id, repeat: Repeat::One }, Slot { kind: OperandKind::Id, repeat: Repeat::One }]),
        5763 => Some(seq![Slot { kind: OperandKind::Id, repeat: Repeat::One }, Slot { kind: OperandKind::Id, repeat: Repeat::One }, Slot { kind: OperandKind::Id, repeat: Repeat::One }, Slot { kind: OperandKind::Id, repeat: Repeat::One }]),
        5764 => Some(seq![Slot { kind: OperandKind::Id, repeat: Repeat::One }, Slot { kind: OperandKind::Id, repeat: Repeat::One }, Slot { kind: OperandKind::Id, repeat: Repeat::One }, Slot { kind: OperandKind::Id, repeat: Repeat::One }, Slot { kind: OperandKind::Id, repeat: Repeat::One }]),
        5765 => Some(seq![Slot { kind: OperandKind::Id, repeat: Repeat::One }]),
        5766 => Some(seq![Slot { kind: OperandKind::Id, repeat: Repeat::One }]),
        5767 => Some(seq![Slot { kind: OperandKind::Id, repeat: Repeat::One }]),
        5768 => Some(seq![Slot { kind: OperandKind::Id, repeat: Repeat::One }]),
        5769 => Some(seq![Slot { kind: OperandKind::Id, repeat: Repeat::One }]),
        5770 => Some(seq![Slot { kind: OperandKind::Id, repeat: Repeat::One }, Slot { kind: OperandKind::Id, repeat: Repeat::One }]),
        5771 => Some(seq![Slot { kind: OperandKind::Id, repeat: Repeat::One }, Slot { kind: OperandKind::Id, repeat: Repeat::One }]),
        5772 => Some(seq![Slot { kind: OperandKind::Id, repeat: Repeat::One }, Slot { kind: OperandKind::Id, repeat: Repeat::One }]),
        5773 => Some(seq![Slot { kind: OperandKind::Id, repeat: Repeat::One }, Slot { kind: OperandKind::Id, repeat: Repeat::One }, Slot { kind: OperandKind::Id, repeat: Repeat::One }]),
        5774 => Some(seq![Slot { kind: OperandKind::Id, repeat: Repeat::One }, Slot { kind: OperandKind::Id, repeat: Repeat::One }, Slot { kind: OperandKind::Id, repeat: Repeat::One }]),
        5775 => Some(seq![Slot { kind: OperandKind::Id, repeat: Repeat::One }, Slot { kind: OperandKind::Id, repeat: Repeat::One }, Slot { kind: OperandKind::Id, repeat: Repeat::One }]),
        5776 => Some(seq![Slot { kind: OperandKind::Id, repeat: Repeat::One }, Slot { kind: OperandKind::Id, repeat: Repeat::One }]),
        5777 => Some(seq![Slot { kind: OperandKind::Id, repeat: Repeat::One }]),
        5778 => Some(seq![Slot { kind: OperandKind::Id, repeat: Repeat::One }]),
        5779 => Some(seq![Slot { kind: OperandKind::Id, repeat: Repeat::One }]),
        5780 => Some(seq![Slot { kind: OperandKind::Id, repeat: Repeat::One }]),
        5781 => Some(seq![Slot { kind: OperandKind::Id, repeat: Repeat::One }, Slot { kind: OperandKind::Id, repeat: Repeat::One }, Slot { kind: OperandKind::Id, repeat: Repeat::One }, Slot { kind: OperandKind::Id, repeat: Repeat::One }, Slot { kind: OperandKind::Id, repeat: Repeat::One }, Slot { kind: OperandKind::Id, repeat: Repeat::One }, Slot { kind: OperandKind::Id, repeat: Repeat::One }]),
        5782 => Some(seq![Slot { kind: OperandKind::Id, repeat: Repeat::One }, Slot { kind: OperandKind::Id, repeat: Repeat::One }, Slot { kind: OperandKind::Id, repeat: Repeat::One }, Slot { kind: OperandKind::Id, repeat: Repeat::One }, Slot { kind: OperandKind::Id, repeat: Repeat::One }, Slot { kind: OperandKind::Id, repeat: Repeat::One }, Slot { kind: OperandKind::Id, repeat: Repeat::One }, Slot { kind: OperandKind::Id, repeat: Repeat::One }]),
        5783 => Some(seq![Slot { kind: OperandKind::Id, repeat: Repeat::One }]),
        5784 => Some(seq![Slot { kind: OperandKind::Id, repeat: Repeat::One }]),
        5785 => Some(seq![Slot { kind: OperandKind::Id, repeat: Repeat::One }]),
        5786 => Some(seq![Slot { kind: OperandKind::Id, repeat: Repeat::One }, Slot { kind: OperandKind::Id, repeat: Repeat::One }, Slot { kind: OperandKind::Id, repeat: Repeat::One }]),
        5787 => Some(seq![Slot { kind: OperandKind::Id, repeat: Repeat::One }, Slot { kind: OperandKind::Id, repeat: Repeat::One }, Slot { kind: OperandKind::Id, repeat: Repeat::One }, Slot { kind: OperandKind::Id, repeat: Repeat::One }]),
        5788 => Some(seq![Slot { kind: OperandKind::Id, repeat: Repeat::One }, Slot { kind: OperandKind::Id, repeat: Repeat::One }, Slot { kind: OperandKind::Id, repeat: Repeat::One }]),
        5789 => Some(seq![Slot { kind: OperandKind::Id, repeat: Repeat::One }, Slot { kind: OperandKind::Id, repeat: Repeat::One }, Slot { kind: OperandKind::Id, repeat: Repeat::One }, Slot { kind: OperandKind::Id, repeat: Repeat::One }]),
        5790 => Some(seq![Slot { kind: OperandKind::Id, repeat: Repeat::One }]),
        5791 => Some(seq![Slot { kind: OperandKind::Id, repeat: Repeat::One }]),
        5792 => Some(seq![Slot { kind: OperandKind::Id, repeat: Repeat::One }, Slot { kind: OperandKind::Id, repeat: Repeat::One }, Slot { kind: OperandKind::Id, repeat: Repeat::One }, Slot { kind: OperandKind::Id, repeat: Repeat::One }, Slot { kind: OperandKind::Id, repeat: Repeat::One }, Slot { kind: OperandKind::Id, repeat: Repeat::One }]),
        5793 => Some(seq![Slot { kind: OperandKind::Id, repeat: Repeat::One }, Slot { kind: OperandKind::Id, repeat: Repeat::One }, Slot { kind: OperandKind::Id, repeat: Repeat::One }, Slot { kind: OperandKind::Id, repeat: Repeat::One }, Slot { kind: OperandKind::Id, repeat: Repeat::One }, Slot { kind: OperandKind::Id, repeat: Repeat::One }, Slot { kind: OperandKind::Id, repeat: Repeat::One }, Slot { kind: OperandKind::Id, repeat: Repeat::One }]),
        5794 => Some(seq![Slot { kind: OperandKind::Id, repeat: Repeat::One }, Slot { kind: OperandKind::Id, repeat: Repeat::One }, Slot { kind: OperandKind::Id, repeat: Repeat::One }, Slot { kind: OperandKind::Id, repeat: Repeat::One }, Slot { kind: OperandKind::Id, repeat: Repeat::One }, Slot { kind: OperandKind::Id, repeat: Repeat::One }, Slot { kind: OperandKind::Id, repeat: Repeat::One }, Slot { kind: OperandKind::Id, repeat: Repeat::One }, Slot { kind: OperandKind::Id, repeat: Repeat::One }, Slot { kind: OperandKind::Id, repeat: Repeat::One }, Slot { kind: OperandKind::Id, repeat: Repeat::One }]),
        5795 => Some(seq![Slot { kind: OperandKind::Id, repeat: Repeat::One }, Slot { kind: OperandKind::Id, repeat: Repeat::One }]),
        5796 => Some(seq![Slot { kind: OperandKind::Id, repeat: Repeat::One }]),
        5797 => Some(seq![Slot { kind: OperandKind::Id, repeat: Repeat::One }, Slot { kind: OperandKind::Id, repeat: Repeat::One }]),
        5798 => Some(seq![Slot { kind: OperandKind::Id, repeat: Repeat::One }, Slot { kind: OperandKind::Id, repeat: Repeat::One }, Slot { kind: OperandKind::Id, repeat: Repeat::One }, Slot { kind: OperandKind::Id, repeat: Repeat::One }]),
        5799 => Some(seq![Slot { kind: OperandKind::Id, repeat: Repeat::One }, Slot { kind: OperandKind::Id, repeat: Repeat::One }]),
        5800 => Some(seq![Slot { kind: OperandKind::Id, repeat: Repeat::One }]),
        5801 => Some(seq![Slot { kind: OperandKind::Id, repeat: Repeat::One }, Slot { kind: OperandKind::Id, repeat: Repeat::One }]),
        5802 => Some(seq![Slot { kind: OperandKind::Id, repeat: Repeat::One }, Slot { kind: OperandKind::Id, repeat: Repeat::One }]),
        _ => None,
    }
}

pub open spec fn opcode_slots_10(op: u32) -> Option<Seq<Slot>> {
    match op {
        5803 => Some(seq![Slot { kind: OperandKind::Id, repeat: Repeat::One }, Slot { kind: OperandKind::Id, repeat: Repeat::One }]),
        5804 => Some(seq![Slot { kind: OperandKind::Id, repeat: Repeat::One }, Slot { kind: OperandKind::Id, repeat: Repeat::One }, Slot { kind: OperandKind::Id, repeat: Repeat::One }]),
        5805 => Some(seq![Slot { kind: OperandKind::Id, repeat: Repeat::One }, Slot { kind: OperandKind::Id, repeat: Repeat::One }, Slot { kind: OperandKind::Id, repeat: Repeat::One }, Slot { kind: OperandKind::Id, repeat: Repeat::One }]),
        5806 => Some(seq![Slot { kind: OperandKind::Id, repeat: Repeat::One }, Slot { kind: OperandKind::Id, repeat: Repeat::One }, Slot { kind: OperandKind::Id, repeat: Repeat::One }]),
        5807 => Some(seq![Slot { kind: OperandKind::Id, repeat: Repeat::One }, Slot { kind: OperandKind::Id, repeat: Repeat::One }, Slot { kind: OperandKind::Id, repeat: Repeat::One }, Slot { kind: OperandKind::Id, repeat: Repeat::One }]),
        5808 => Some(seq![Slot { kind: OperandKind::Id, repeat: Repeat::One }]),
        5809 => Some(seq![Slot { kind: OperandKind::Id, repeat: Repeat::One }]),
        5810 => Some(seq![Slot { kind: OperandKind::Id, repeat: Repeat::One }]),
        5811 => Some(seq![Slot { kind: OperandKind::Id, repeat: Repeat::One }]),
        5812 => Some(seq![Slot { kind: OperandKind::Id, repeat: Repeat::One }]),
        5813 => Some(seq![Slot { kind: OperandKind::Id, repeat: Repeat::One }]),
        5814 => Some(seq![Slot { kind: OperandKind::Id, repeat: Repeat::One }]),
        5815 => Some(seq![Slot { kind: OperandKind::Id, repeat: Repeat::One }]),
        5816 => Some(seq![Slot { kind: OperandKind::Id, repeat: Repeat::One }]),
        5818 => Some(seq![Slot { kind: OperandKind::Id, repeat: Repeat::One }]),
        5819 => Some(seq![]),
        5820 => Some(seq![Slot { kind: OperandKind::Id, repeat: Repeat::One }]),
        5840 => Some(seq![Slot { kind: OperandKind::Id, repeat: Repeat::One }, Slot { kind: OperandKind::U32, repeat: Repeat::One }, Slot { kind: OperandKind::U32, repeat: Repeat::One }, Slot { kind: OperandKind::U32, repeat: Repeat::One }, Slot { kind: OperandKind::U32, repeat: Repeat::One }, Slot { kind: OperandKind::U32, repeat: Repeat::One }, Slot { kind: OperandKind::U32, repeat: Repeat::One }]),
        5841 => Some(seq![Slot { kind: OperandKind::Id, repeat: Repeat::One }, Slot { kind: OperandKind::U32, repeat: Repeat::One }, Slot { kind: OperandKind::U32, repeat: Repeat::One }, Slot { kind: OperandKind::U32, repeat: Repeat::One }, Slot { kind: OperandKind::U32, repeat: Repeat::One }, Slot { kind: OperandKind::U32, repeat: Repeat::One }]),
        5842 => Some(seq![Slot { kind: OperandKind::Id, repeat: Repeat::One }, Slot { kind: OperandKind::U32, repeat: Repeat::One }, Slot { kind: OperandKind::U32, repeat: Repeat::One }, Slot { kind: OperandKind::U32, repeat: Repeat::One }, Slot { kind: OperandKind::U32, repeat: Repeat::One }, Slot { kind: OperandKind::U32, repeat: Repeat::One }]),
        5843 => Some(seq![Slot { kind: OperandKind::Id, repeat: Repeat::One }, Slot { kind: OperandKind::U32, repeat: Repeat::One }, Slot { kind: OperandKind::U32, repeat: Repeat::One }, Slot { kind: OperandKind::U32, repeat: Repeat::One }, Slot { kind: OperandKind::U32, repeat: Repeat::One }]),
        5846 => Some(seq![Slot { kind: OperandKind::Id, repeat: Repeat::One }, Slot { kind: OperandKind::U32, repeat: Repeat::One }, Slot { kind: OperandKind::Id, repeat: Repeat::One }, Slot { kind: OperandKind::U32, repeat: Repeat::One }, Slot { kind: OperandKind::U32, repeat: Repeat::One }, Slot { kind: OperandKind::U32, repeat: Repeat::One }, Slot { kind: OperandKind::U32, repeat: Repeat::One }, Slot { kind: OperandKind::U32, repeat: Repeat::One }]),
        5847 => Some(seq![Slot { kind: OperandKind::Id, repeat: Repeat::One }, Slot { kind: OperandKind::U32, repeat: Repeat::One }, Slot { kind: OperandKind::Id, repeat: Repeat::One }, Slot { kind: OperandKind::U32, repeat: Repeat::One }, Slot { kind: OperandKind::U32, repeat: Repeat::One }, Slot { kind: OperandKind::U32, repeat: Repeat::One }, Slot { kind: OperandKind::U32, repeat: Repeat::One }, Slot { kind: OperandKind::U32, repeat: Repeat::One }]),
        5848 => Some(seq![Slot { kind: OperandKind::Id, repeat: Repeat::One }, Slot { kind: OperandKind::U32, repeat: Repeat::One }, Slot { kind: OperandKind::Id, repeat: Repeat::One }, Slot { kind: OperandKind::U32, repeat: Repeat::One }, Slot { kind: OperandKind::U32, repeat: Repeat::One }, Slot { kind: OperandKind::U32, repeat: Repeat::One }, Slot { kind: OperandKind::U32, repeat: Repeat::One }, Slot { kind: OperandKind::U32, repeat: Repeat::One }]),
        5849 => Some(seq![Slot { kind: OperandKind::Id, repeat: Repeat::One }, Slot { kind: OperandKind::U32, repeat: Repeat::One }, Slot { kind: OperandKind::Id, repeat: Repeat::One }, Slot { kind: OperandKind::U32, repeat: Repeat::One }, Slot { kind: OperandKind::U32, repeat: Repeat::One }, Slot { kind: OperandKind::U32, repeat: Repeat::One }, Slot { kind: OperandKind::U32, repeat: Repeat::One }, Slot { kind: OperandKind::U32, repeat: Repeat::One }]),
        5850 => Some(seq![Slot { kind: OperandKind::Id, repeat: Repeat::One }, Slot { kind: OperandKind::U32, repeat: Repeat::One }, Slot { kind: OperandKind::Id, repeat: Repeat::One }, Slot { kind: OperandKind::U32, repeat: Repeat::One }]),
        5851 => Some(seq![Slot { kind: OperandKind::Id, repeat: Repeat::One }, Slot { kind: OperandKind::U32, repeat: Repeat::One }, Slot { kind: OperandKind::Id, repeat: Repeat::One }, Slot { kind: OperandKind::U32, repeat: Repeat::One }]),
        5852 => Some(seq![Slot { kind: OperandKind::Id, repeat: Repeat::One }, Slot { kind: OperandKind::U32, repeat: Repeat::One }, Slot { kind: OperandKind::Id, repeat: Repeat::One }, Slot { kind: OperandKind::U32, repeat: Repeat::One }]),
        5853 => Some(seq![Slot { kind: OperandKind::Id, repeat: Repeat::One }, Slot { kind: OperandKind::U32, repeat: Repeat::One }, Slot { kind: OperandKind::Id, repeat: Repeat::One }, Slot { kind: OperandKind::U32, repeat: Repeat::One }]),
        5854 => Some(seq![Slot { kind: OperandKind::Id, repeat: Repeat::One }, Slot { kind: OperandKind::U32, repeat: Repeat::One }, Slot { kind: OperandKind::Id, repeat: Repeat::One }, Slot { kind: OperandKind::U32, repeat: Repeat::One }]),
        5855 => Some(seq![Slot { kind: OperandKind::Id, repeat: Repeat::One }, Slot { kind: OperandKind::U32, repeat: Repeat::One }, Slot { kind: OperandKind::U32, repeat: Repeat::One }, Slot { kind: OperandKind::U32, repeat: Repeat::One }, Slot { kind: OperandKind::U32, repeat: Repeat::One }, Slot { kind: OperandKind::U32, repeat: Repeat::One }]),
        5856 => Some(seq![Slot { kind: OperandKind::Id, repeat: Repeat::One }, Slot { kind: OperandKind::U32, repeat: Repeat::One }, Slot { kind: OperandKind::U32, repeat: Repeat::One }, Slot { kind: OperandKind::U32, repeat: Repeat::One }, Slot { kind: OperandKind::U32, repeat: Repeat::One }, Slot { kind: OperandKind::U32, repeat: Repeat::One }]),
        5857 => Some(seq![Slot { kind: OperandKind::Id, repeat: Repeat::One }, Slot { kind: OperandKind::U32, repeat: Repeat::One }, Slot { kind: OperandKind::U32, repeat: Repeat::One }, Slot { kind: OperandKind::U32, repeat: Repeat::One }, Slot { kind: OperandKind::U32, repeat: Repeat::One }, Slot { kind: OperandKind::U32, repeat: Repeat::One }]),
        5858 => Some(seq![Slot { kind: OperandKind::Id, repeat: Repeat::One }, Slot { kind: OperandKind::U32, repeat: Repeat::One }, Slot { kind: OperandKind::Id, repeat: Repeat::One }, Slot { kind: OperandKind::U32, repeat: Repeat::One }, Slot { kind: OperandKind::U32, repeat: Repeat::One }, Slot { kind: OperandKind::U32, repeat: Repeat::One }, Slot { kind: OperandKind::U32, repeat: Repeat::One }, Slot { kind: OperandKind::U32, repeat: Repeat::One }]),
        5859 => Some(seq![Slot { kind: OperandKind::Id, repeat: Repeat::One }, Slot { kind: OperandKind::U32, repeat: Repeat::One }, Slot { kind: OperandKind::U32, repeat: Repeat::One }, Slot { kind: OperandKind::U32, repeat: Repeat::One }, Slot { kind: OperandKind::U32, repeat: Repeat::One }, Slot { kind: OperandKind::U32, repeat: Repeat::One }]),
        5860 => Some(seq![Slot { kind: OperandKind::Id, repeat: Repeat::One }, Slot { kind: OperandKind::U32, repeat: Repeat::One }, Slot { kind: OperandKind::U32, repeat: Repeat::One }, Slot { kind: OperandKind::U32, repeat: Repeat::One }, Slot { kind: OperandKind::U32, repeat: Repeat::One }, Slot { kind: OperandKind::U32, repeat: Repeat::One }]),
        5861 => Some(seq![Slot { kind: OperandKind::Id, repeat: Repeat::One }, Slot { kind: OperandKind::U32, repeat: Repeat::One }, Slot { kind: OperandKind::U32, repeat: Repeat::One }, Slot { kind: OperandKind::U32, repeat: Repeat::One }, Slot { kind: OperandKind::U32, repeat: Repeat::One }, Slot { kind: OperandKind::U32, repeat: Repeat::One }]),
        5862 => Some(seq![Slot { kind: OperandKind::Id, repeat: Repeat::One }, Slot { kind: OperandKind::U32, repeat: Repeat::One }, Slot { kind: OperandKind::U32, repeat: Repeat::One }, Slot { kind: OperandKind::U32, repeat: Repeat::One }, Slot { kind: OperandKind::U32, repeat: Repeat::One }, Slot { kind: OperandKind::U32, repeat: Repeat::One }]),
        5863 => Some(seq![Slot { kind: OperandKind::Id, repeat: Repeat::One }, Slot { kind: OperandKind::U32, repeat: Repeat::One }, Slot { kind: OperandKind::U32, repeat: Repeat::One }, Slot { kind: OperandKind::U32, repeat: Repeat::One }, Slot { kind: OperandKind::U32, repeat: Repeat::One }, Slot { kind: OperandKind::U32, repeat: Repeat::One }]),
        5864 => Some(seq![Slot { kind: OperandKind::Id, repeat: Repeat::One }, Slot { kind: OperandKind::U32, repeat: Repeat::One }, Slot { kind: OperandKind::U32, repeat: Repeat::One }, Slot { kind: OperandKind::U32, repeat: Repeat::One }, Slot { kind: OperandKind::U32, repeat: Repeat::One }, Slot { kind: OperandKind::U32, repeat: Repeat::One }]),
        5865 => Some(seq![Slot { kind: OperandKind::Id, repeat: Repeat::One }, Slot { kind: OperandKind::U32, repeat: Repeat::One }, Slot { kind: OperandKind::U32, repeat: Repeat::One }, Slot { kind: OperandKind::U32, repeat: Repeat::One }, Slot { kind: OperandKind::U32, repeat: Repeat::One }, Slot { kind: OperandKind::U32, repeat: Repeat::One }]),
        5866 => Some(seq![Slot { kind: OperandKind::Id, repeat: Repeat::One }, Slot { kind: OperandKind::U32, repeat: Repeat::One }, Slot { kind: OperandKind::U32, repeat: Repeat::One }, Slot { kind: OperandKind::U32, repeat: Repeat::One }, Slot { kind: OperandKind::U32, repeat: Repeat::One }, Slot { kind: OperandKind::U32, repeat: Repeat::One }]),
        5867 => Some(seq![Slot { kind: OperandKind::Id, repeat: Repeat::One }, Slot { kind: OperandKind::U32, repeat: Repeat::One }, Slot { kind: OperandKind::U32, repeat: Repeat::One }, Slot { kind: OperandKind::U32, repeat: Repeat::One }, Slot { kind: OperandKind::U32, repeat: Repeat::One }, Slot { kind: OperandKind::U32, repeat: Repeat::One }]),
        5868 => Some(seq![Slot { kind: OperandKind::Id, repeat: Repeat::One }, Slot { kind: OperandKind::U32, repeat: Repeat::One }, Slot { kind: OperandKind::U32, repeat: Repeat::One }, Slot { kind: OperandKind::U32, repeat: Repeat::One }, Slot { kind: OperandKind::U32, repeat: Repeat::One }, Slot { kind: OperandKind::U32, repeat: Repeat::One }]),
        5869 => Some(seq![Slot { kind: OperandKind::Id, repeat: Repeat::One }, Slot { kind: OperandKind::U32, repeat: Repeat::One }, Slot { kind: OperandKind::U32, repeat: Repeat::One }, Slot { kind: OperandKind::U32, repeat: Repeat::One }, Slot { kind: OperandKind::U32, repeat: Repeat::One }, Slot { kind: OperandKind::U32, repeat: Repeat::One }]),
        5870 => Some(seq![Slot { kind: OperandKind::Id, repeat: Repeat::One }, Slot { kind: OperandKind::U32, repeat: Repeat::One }, Slot { kind: OperandKind::U32, repeat: Repeat::One }, Slot { kind: OperandKind::U32, repeat: Repeat::One }, Slot { kind: OperandKind::U32, repeat: Repeat::One }, Slot { kind: OperandKind::U32, repeat: Repeat::One }]),
        5871 => Some(seq![Slot { kind: OperandKind::Id, repeat: Repeat::One }, Slot { kind: OperandKind::U32, repeat: Repeat::One }, Slot { kind: OperandKind::U32, repeat: Repeat::One }, Slot { kind: OperandKind::U32, repeat: Repeat::One }, Slot { kind: OperandKind::U32, repeat: Repeat::One }, Slot { kind: OperandKind::U32, repeat: Repeat::One }]),
        5872 => Some(seq![Slot { kind: OperandKind::Id, repeat: Repeat::One }, Slot { kind: OperandKind::U32, repeat: Repeat::One }, Slot { kind: OperandKind::U32, repeat: Repeat::One }, Slot { kind: OperandKind::U32, repeat: Repeat::One }, Slot { kind: OperandKind::U32, repeat: Repeat::One }, Slot { kind: OperandKind::U32, repeat: Repeat::One }]),
        5873 => Some(seq![Slot { kind: OperandKind::Id, repeat: Repeat::One }, Slot { kind: OperandKind::U32, repeat: Repeat::One }, Slot { kind: OperandKind::U32, repeat: Repeat::One }, Slot { kind: OperandKind::U32, repeat: Repeat::One }, Slot { kind: OperandKind::U32, repeat: Repeat::One }, Slot { kind: OperandKind::U32, repeat: Repeat::One }]),
        5874 => Some(seq![Slot { kind: OperandKind::Id, repeat: Repeat::One }, Slot { kind: OperandKind::U32, repeat: Repeat::One }, Slot { kind: OperandKind::U32, repeat: Repeat::One }, Slot { kind: OperandKind::U32, repeat: Repeat::One }, Slot { kind: OperandKind::U32, repeat: Repeat::One }, Slot { kind: OperandKind::U32, repeat: Repeat::One }]),
        5875 => Some(seq![Slot { kind: OperandKind::Id, repeat: Repeat::One }, Slot { kind: OperandKind::U32, repeat: Repeat::One }, Slot { kind: OperandKind::U32, repeat: Repeat::One }, Slot { kind: OperandKind::U32, repeat: Repeat::One }, Slot { kind: OperandKind::U32, repeat: Repeat::One }, Slot { kind: OperandKind::U32, repeat: Repeat::One }]),
        5876 => Some(seq![Slot { kind: OperandKind::Id, repeat: Repeat::One }, Slot { kind: OperandKind::U32, repeat: Repeat::One }, Slot { kind: OperandKind::U32, repeat: Repeat::One }, Slot { kind: OperandKind::U32, repeat: Repeat::One }, Slot { kind: OperandKind::U32, repeat: Repeat::One }, Slot { kind: OperandKind::U32, repeat: Repeat::One }]),
        5877 => Some(seq![Slot { kind: OperandKind::Id, repeat: Repeat::One }, Slot { kind: OperandKind::U32, repeat: Repeat::One }, Slot { kind: OperandKind::U32, repeat: Repeat::One }, Slot { kind: OperandKind::U32, repeat: Repeat::One }, Slot { kind: OperandKind::U32, repeat: Repeat::One }, Slot { kind: OperandKind::U32, repeat: Repeat::One }]),
        5878 => Some(seq![Slot { kind: OperandKind::Id, repeat: Repeat::One }, Slot { kind: OperandKind::U32, repeat: Repeat::One }, Slot { kind: OperandKind::U32, repeat: Repeat::One }, Slot { kind: OperandKind::U32, repeat: Repeat::One }, Slot { kind: OperandKind::U32, repeat: Repeat::One }, Slot { kind: OperandKind::U32, repeat: Repeat::One }]),
        5879 => Some(seq![Slot { kind: OperandKind::Id, repeat: Repeat::One }, Slot { kind: OperandKind::U32, repeat: Repeat::One }, Slot { kind: OperandKind::Id, repeat: Repeat::One }, Slot { kind: OperandKind::U32, repeat: Repeat::One }, Slot { kind: OperandKind::U32, repeat: Repeat::One }, Slot { kind: OperandKind::U32, repeat: Repeat::One }, Slot { kind: OperandKind::U32, repeat: Repeat::One }, Slot { kind: OperandKind::U32, repeat: Repeat::One }]),
        5880 => Some(seq![Slot { kind: OperandKind::Id, repeat: Repeat::One }, Slot { kind: OperandKind::U32, repeat: Repeat::One }, Slot { kind: OperandKind::Id, repeat: Repeat::One }, Slot { kind: OperandKind::U32, repeat: Repeat::One }, Slot { kind: OperandKind::U32, repeat: Repeat::One }, Slot { kind: OperandKind::U32, repeat: Repeat::One }, Slot { kind: OperandKind::U32, repeat: Repeat::One }, Slot { kind: OperandKind::U32, repeat: Repeat::One }]),
        5881 => Some(seq![Slot { kind: OperandKind::Id, repeat: Repeat::One }, Slot { kind: OperandKind::U32, repeat: Repeat::One }, Slot { kind: OperandKind::Id, repeat: Repeat::One }, Slot { kind: OperandKind::U32, repeat: Repeat::One }, Slot { kind: OperandKind::U32, repeat: Repeat::One }, Slot { kind: OperandKind::U32, repeat: Repeat::One }, Slot { kind: OperandKind::U32, repeat: Repeat::One }, Slot { kind: OperandKind::U32, repeat: Repeat::One }]),
        5882 => Some(seq![Slot { kind: OperandKind::Id, repeat: Repeat::One }, Slot { kind: OperandKind::U32, repeat: Repeat::One }, Slot { kind: OperandKind::Id, repeat: Repeat::One }, Slot { kind: OperandKind::U32, repeat: Repeat::One }, Slot { kind: OperandKind::U32, repeat: Repeat::One }, Slot { kind: OperandKind::U32, repeat: Repeat::One }, Slot { kind: OperandKind::U32, repeat: Repeat::One }]),
        5887 => Some(seq![Slot { kind: OperandKind::U32, repeat: Repeat::Many }]),
        5911 => Some(seq![Slot { kind: OperandKind::Id, repeat: Repeat::Optional }]),
        _ => None,
    }
}

pub open spec fn opcode_slots_11(op: u32) -> Option<Seq<Slot>> {
    match op {
        5912 => Some(seq![Slot { kind: OperandKind::Id, repeat: Repeat::One }, Slot { kind: OperandKind::Id, repeat: Repeat::Optional }]),
        5913 => Some(seq![Slot { kind: OperandKind::Id, repeat: Repeat::Many }]),
        5923 => Some(seq![Slot { kind: OperandKind::Id, repeat: Repeat::One }, Slot { kind: OperandKind::Id, repeat: Repeat::One }, Slot { kind: OperandKind::U32, repeat: Repeat::One }, Slot { kind: OperandKind::U32, repeat: Repeat::One }, Slot { kind: OperandKind::U32, repeat: Repeat::One }, Slot { kind: OperandKind::U32, repeat: Repeat::One }, Slot { kind: OperandKind::U32, repeat: Repeat::One }]),
        5924 => Some(seq![Slot { kind: OperandKind::Id, repeat: Repeat::One }, Slot { kind: OperandKind::Id, repeat: Repeat::One }, Slot { kind: OperandKind::U32, repeat: Repeat::One }, Slot { kind: OperandKind::U32, repeat: Repeat::One }, Slot { kind: OperandKind::U32, repeat: Repeat::One }, Slot { kind: OperandKind::U32, repeat: Repeat::One }, Slot { kind: OperandKind::U32, repeat: Repeat::One }]),
        5925 => Some(seq![Slot { kind: OperandKind::Id, repeat: Repeat::One }, Slot { kind: OperandKind::Id, repeat: Repeat::One }, Slot { kind: OperandKind::U32, repeat: Repeat::One }, Slot { kind: OperandKind::U32, repeat: Repeat::One }, Slot { kind: OperandKind::U32, repeat: Repeat::One }, Slot { kind: OperandKind::U32, repeat: Repeat::One }, Slot { kind: OperandKind::U32, repeat: Repeat::One }]),
        5926 => Some(seq![Slot { kind: OperandKind::Id, repeat: Repeat::One }, Slot { kind: OperandKind::Id, repeat: Repeat::One }, Slot { kind: OperandKind::U32, repeat: Repeat::One }, Slot { kind: OperandKind::U32, repeat: Repeat::One }, Slot { kind: OperandKind::U32, repeat: Repeat::One }, Slot { kind: OperandKind::U32, repeat: Repeat::One }, Slot { kind: OperandKind::U32, repeat: Repeat::One }]),
        5927 => Some(seq![Slot { kind: OperandKind::Id, repeat: Repeat::One }, Slot { kind: OperandKind::Id, repeat: Repeat::One }, Slot { kind: OperandKind::U32, repeat: Repeat::One }, Slot { kind: OperandKind::U32, repeat: Repeat::One }, Slot { kind: OperandKind::U32, repeat: Repeat::One }, Slot { kind: OperandKind::U32, repeat: Repeat::One }, Slot { kind: OperandKind::U32, repeat: Repeat::One }]),
        5928 => Some(seq![Slot { kind: OperandKind::Id, repeat: Repeat::One }, Slot { kind: OperandKind::Id, repeat: Repeat::One }, Slot { kind: OperandKind::U32, repeat: Repeat::One }, Slot { kind: OperandKind::U32, repeat: Repeat::One }, Slot { kind: OperandKind::U32, repeat: Repeat::One }, Slot { kind: OperandKind::U32, repeat: Repeat::One }, Slot { kind: OperandKind::U32, repeat: Repeat::One }]),
        5929 => Some(seq![Slot { kind: OperandKind::Id, repeat: Repeat::One }, Slot { kind: OperandKind::Id, repeat: Repeat::One }, Slot { kind: OperandKind::U32, repeat: Repeat::One }, Slot { kind: OperandKind::U32, repeat: Repeat::One }, Slot { kind: OperandKind::U32, repeat: Repeat::One }, Slot { kind: OperandKind::U32, repeat: Repeat::One }, Slot { kind: OperandKind::U32, repeat: Repeat::One }]),
        5930 => Some(seq![Slot { kind: OperandKind::Id, repeat: Repeat::One }, Slot { kind: OperandKind::Id, repeat: Repeat::One }, Slot { kind: OperandKind::U32, repeat: Repeat::One }, Slot { kind: OperandKind::U32, repeat: Repeat::One }, Slot { kind: OperandKind::U32, repeat: Repeat::One }, Slot { kind: OperandKind::U32, repeat: Repeat::One }, Slot { kind: OperandKind::U32, repeat: Repeat::One }]),
        5931 => Some(seq![Slot { kind: OperandKind::Id, repeat: Repeat::One }, Slot { kind: OperandKind::Id, repeat: Repeat::One }, Slot { kind: OperandKind::U32, repeat: Repeat::One }, Slot { kind: OperandKind::U32, repeat: Repeat::One }, Slot { kind: OperandKind::U32, repeat: Repeat::One }, Slot { kind: OperandKind::U32, repeat: Repeat::One }, Slot { kind: OperandKind::U32, repeat: Repeat::One }]),
        5932 => Some(seq![Slot { kind: OperandKind::Id, repeat: Repeat::One }, Slot { kind: OperandKind::Id, repeat: Repeat::One }, Slot { kind: OperandKind::U32, repeat: Repeat::One }, Slot { kind: OperandKind::U32, repeat: Repeat::One }, Slot { kind: OperandKind::U32, repeat: Repeat::One }, Slot { kind: OperandKind::U32, repeat: Repeat::One }, Slot { kind: OperandKind::U32, repeat: Repeat::One }]),
        5933 => Some(seq![Slot { kind: OperandKind::Id, repeat: Repeat::One }, Slot { kind: OperandKind::Id, repeat: Repeat::One }, Slot { kind: OperandKind::U32, repeat: Repeat::One }, Slot { kind: OperandKind::U32, repeat: Repeat::One }, Slot { kind: OperandKind::U32, repeat: Repeat::One }, Slot { kind: OperandKind::U32, repeat: Repeat::One }, Slot { kind: OperandKind::U32, repeat: Repeat::One }]),
        5934 => Some(seq![Slot { kind: OperandKind::Id, repeat: Repeat::One }]),
        5938 => Some(seq![Slot { kind: OperandKind::Id, repeat: Repeat::One }]),
        5946 => Some(seq![Slot { kind: OperandKind::Id, repeat: Repeat::One }, Slot { kind: OperandKind::Id, repeat: Repeat::One }]),
        5947 => Some(seq![Slot { kind: OperandKind::Id, repeat: Repeat::One }, Slot { kind: OperandKind::Id, repeat: Repeat::One }]),
        5949 => Some(seq![Slot { kind: OperandKind::Id, repeat: Repeat::One }, Slot { kind: OperandKind::Id, repeat: Repeat::One }]),
        6016 => Some(seq![Slot { kind: OperandKind::Id, repeat: Repeat::One }]),
        6017 => Some(seq![Slot { kind: OperandKind::Id, repeat: Repeat::One }]),
        6018 => Some(seq![Slot { kind: OperandKind::Id, repeat: Repeat::One }, Slot { kind: OperandKind::Id, repeat: Repeat::One }]),
        6019 => Some(seq![Slot { kind: OperandKind::Id, repeat: Repeat::One }, Slot { kind: OperandKind::Id, repeat: Repeat::One }]),
        6020 => Some(seq![Slot { kind: OperandKind::Id, repeat: Repeat::One }, Slot { kind: OperandKind::Id, repeat: Repeat::One }]),
        6021 => Some(seq![Slot { kind: OperandKind::Id, repeat: Repeat::One }, Slot { kind: OperandKind::Id, repeat: Repeat::One }]),
        6022 => Some(seq![Slot { kind: OperandKind::Id, repeat: Repeat::One }, Slot { kind: OperandKind::Id, repeat: Repeat::One }]),
        6023 => Some(seq![Slot { kind: OperandKind::Id, repeat: Repeat::One }, Slot { kind: OperandKind::Id, repeat: Repeat::One }]),
        6024 => Some(seq![Slot { kind: OperandKind::Id, repeat: Repeat::One }, Slot { kind: OperandKind::Id, repeat: Repeat::One }]),
        6025 => Some(seq![Slot { kind: OperandKind::Id, repeat: Repeat::One }, Slot { kind: OperandKind::Id, repeat: Repeat::One }]),
        6026 => Some(seq![Slot { kind: OperandKind::Id, repeat: Repeat::One }]),
        6027 => Some(seq![Slot { kind: OperandKind::Id, repeat: Repeat::One }, Slot { kind: OperandKind::Id, repeat: Repeat::One }]),
        6028 => Some(seq![Slot { kind: OperandKind::Id, repeat: Repeat::One }, Slot { kind: OperandKind::Id, repeat: Repeat::One }]),
        6029 => Some(seq![Slot { kind: OperandKind::Id, repeat: Repeat::One }]),
        6030 => Some(seq![Slot { kind: OperandKind::Id, repeat: Repeat::One }]),
        6031 => Some(seq![Slot { kind: OperandKind::Id, repeat: Repeat::One }, Slot { kind: OperandKind::Id, repeat: Repeat::One }]),
        6032 => Some(seq![Slot { kind: OperandKind::Id, repeat: Repeat::One }, Slot { kind: OperandKind::Id, repeat: Repeat::One }]),
        6035 => Some(seq![Slot { kind: OperandKind::Id, repeat: Repeat::One }, Slot { kind: OperandKind::Id, repeat: Repeat::One }, Slot { kind: OperandKind::Id, repeat: Repeat::One }, Slot { kind: OperandKind::Id, repeat: Repeat::One }]),
        6086 => Some(seq![Slot { kind: OperandKind::Enum(EnumKind::AccessQualifier), repeat: Repeat::One }]),
        6090 => Some(seq![Slot { kind: OperandKind::Id, repeat: Repeat::Many }]),
        6091 => Some(seq![Slot { kind: OperandKind::Id, repeat: Repeat::Many }]),
        6092 => Some(seq![Slot { kind: OperandKind::Id, repeat: Repeat::Many }]),
        6096 => Some(seq![Slot { kind: OperandKind::Id, repeat: Repeat::Many }]),
        6116 => Some(seq![Slot { kind: OperandKind::Id, repeat: Repeat::One }]),
        6117 => Some(seq![Slot { kind: OperandKind::Id, repeat: Repeat::One }]),
        6142 => Some(seq![Slot { kind: OperandKind::Id, repeat: Repeat::One }, Slot { kind: OperandKind::Id, repeat: Repeat::One }, Slot { kind: OperandKind::Id, repeat: Repeat::One }]),
        6143 => Some(seq![Slot { kind: OperandKind::Id, repeat: Repeat::One }, Slot { kind: OperandKind::Id, repeat: Repeat::One }, Slot { kind: OperandKind::Id, repeat: Repeat::One }]),
        6401 => Some(seq![Slot { kind: OperandKind::Id, repeat: Repeat::One }, Slot { kind: OperandKind::Enum(EnumKind::GroupOperation), repeat: Repeat::One }, Slot { kind: OperandKind::Id, repeat: Repeat::One }]),
        6402 => Some(seq![Slot { kind: OperandKind::Id, repeat: Repeat::One }, Slot { kind: OperandKind::Enum(EnumKind::GroupOperation), repeat: Repeat::One }, Slot { kind: OperandKind::Id, repeat: Repeat::One }]),
        6403 => Some(seq![Slot { kind: OperandKind::Id, repeat: Repeat::One }, Slot { kind: OperandKind::Enum(EnumKind::GroupOperation), repeat: Repeat::One }, Slot { kind: OperandKind::Id, repeat: Repeat::One }]),
        6404 => Some(seq![Slot { kind: OperandKind::Id, repeat: Repeat::One }, Slot { kind: OperandKind::Enum(EnumKind::GroupOperation), repeat: Repeat::One }, Slot { kind: OperandKind::Id, repeat: Repeat::One }]),
        6405 => Some(seq![Slot { kind: OperandKind::Id, repeat: Repeat::One }, Slot { kind: OperandKind::Enum(EnumKind::GroupOperation), repeat: Repeat::One }, Slot { kind: OperandKind::Id, repeat: Repeat::One }]),
        6406 => Some(seq![Slot { kind: OperandKind::Id, repeat: Repeat::One }, Slot { kind: OperandKind::Enum(EnumKind::GroupOperation), repeat: Repeat::One }, Slot { kind: OperandKind::Id, repeat: Repeat::One }]),
        6407 => Some(seq![Slot { kind: OperandKind::Id, repeat: Repeat::One }, Slot { kind: OperandKind::Enum(EnumKind::GroupOperation), repeat: Repeat::One }, Slot { kind: OperandKind::Id, repeat: Repeat::One }]),
        6408 => Some(seq![Slot { kind: OperandKind::Id, repeat: Repeat::One }, Slot { kind: OperandKind::Enum(EnumKind::GroupOperation), repeat: Repeat::One }, Slot { kind: OperandKind::Id, repeat: Repeat::One }]),
        _ => None,
    }
}

/// The operand layout of the instruction with opcode `op`, if the printer
/// knows the opcode.
pub open spec fn opcode_slots(op: u32) -> Option<Seq<Slot>> {
    if 0 <= op && op <= 66 {
        opcode_slots_0(op)
    } else if 67 <= op && op <= 130 {
        opcode_slots_1(op)
    } else if 131 <= op && op <= 191 {
        opcode_slots_2(op)
    } else if 194 <= op && op <= 262 {
        opcode_slots_3(op)
    } else if 263 <= op && op <= 326 {
        opcode_slots_4(op)
    } else if 327 <= op && op <= 4449 {
        opcode_slots_5(op)
    } else if 4450 <= op && op <= 5272 {
        opcode_slots_6(op)
    } else if 5273 <= op && op <= 5593 {
        opcode_slots_7(op)
    } else if 5594 <= op && op <= 5742 {
        opcode_slots_8(op)
    } else if 5743 <= op && op <= 5802 {
        opcode_slots_9(op)
    } else if 5803 <= op && op <= 5911 {
        opcode_slots_10(op)
    } else if 5912 <= op && op <= 6408 {
        opcode_slots_11(op)
    } else {
        None
    }
}

fn opcode_slot_list_0(op: u32) -> (r: Option<Vec<Slot>>)
    requires
        0 <= op <= 66,
    ensures
        match r {
            Some(v) => opcode_slots(op) == Some(v@),
            None => opcode_slots(op) is None,
        },
{
    match op {
        0 => Some(vec![]),
        1 => Some(vec![]),
        2 => Some(vec![Slot { kind: OperandKind::Str, repeat: Repeat::One }]),
        3 => Some(vec![Slot { kind: OperandKind::Enum(EnumKind::SourceLanguage), repeat: Repeat::One }, Slot { kind: OperandKind::U32, repeat: Repeat::One }, Slot { kind: OperandKind::Id, repeat: Repeat::Optional }, Slot { kind: OperandKind::Str, repeat: Repeat::Optional }]),
        4 => Some(vec![Slot { kind: OperandKind::Str, repeat: Repeat::One }]),
        5 => Some(vec![Slot { kind: OperandKind::Id, repeat: Repeat::One }, Slot { kind: OperandKind::Str, repeat: Repeat::One }]),
        6 => Some(vec![Slot { kind: OperandKind::Id, repeat: Repeat::One }, Slot { kind: OperandKind::U32, repeat: Repeat::One }, Slot { kind: OperandKind::Str, repeat: Repeat::One }]),
        7 => Some(vec![Slot { kind: OperandKind::Str, repeat: Repeat::One }]),
        8 => Some(vec![Slot { kind: OperandKind::Id, repeat: Repeat::One }, Slot { kind: OperandKind::U32, repeat: Repeat::One }, Slot { kind: OperandKind::U32, repeat: Repeat::One }]),
        10 => Some(vec![Slot { kind: OperandKind::Str, repeat: Repeat::One }]),
        11 => Some(vec![Slot { kind: OperandKind::Str, repeat: Repeat::One }]),
        12 => Some(vec![Slot { kind: OperandKind::Id, repeat: Repeat::One }, Slot { kind: OperandKind::U32, repeat: Repeat::One }, Slot { kind: OperandKind::Id, repeat: Repeat::Many }]),
        14 => Some(vec![Slot { kind: OperandKind::Enum(EnumKind::AddressingModel), repeat: Repeat::One }, Slot { kind: OperandKind::Enum(EnumKind::MemoryModel), repeat: Repeat::One }]),
        15 => Some(vec![Slot { kind: OperandKind::Enum(EnumKind::ExecutionModel), repeat: Repeat::One }, Slot { kind: OperandKind::Id, repeat: Repeat::One }, Slot { kind: OperandKind::Str, repeat: Repeat::One }, Slot { kind: OperandKind::Id, repeat: Repeat::Many }]),
        16 => Some(vec![Slot { kind: OperandKind::Id, repeat: Repeat::One }, Slot { kind: OperandKind::Enum(EnumKind::ExecutionMode), repeat: Repeat::One }]),
        17 => Some(vec![Slot { kind: OperandKind::Enum(EnumKind::Capability), repeat: Repeat::One }]),
        19 => Some(vec![]),
        20 => Some(vec![]),
        21 => Some(vec![Slot { kind: OperandKind::U32, repeat: Repeat::One }, Slot { kind: OperandKind::U32, repeat: Repeat::One }]),
        22 => Some(vec![Slot { kind: OperandKind::U32, repeat: Repeat::One }]),
        23 => Some(vec![Slot { kind: OperandKind::Id, repeat: Repeat::One }, Slot { kind: OperandKind::U32, repeat: Repeat::One }]),
        24 => Some(vec![Slot { kind: OperandKind::Id, repeat: Repeat::One }, Slot { kind: OperandKind::U32, repeat: Repeat::One }]),
        25 => Some(vec![Slot { kind: OperandKind::Id, repeat: Repeat::One }, Slot { kind: OperandKind::Enum(EnumKind::Dim), repeat: Repeat::One }, Slot { kind: OperandKind::U32, repeat: Repeat::One }, Slot { kind: OperandKind::U32, repeat: Repeat::One }, Slot { kind: OperandKind::U32, repeat: Repeat::One }, Slot { kind: OperandKind::U32, repeat: Repeat::One }, Slot { kind: OperandKind::Enum(EnumKind::ImageFormat), repeat: Repeat::One }, Slot { kind: OperandKind::Enum(EnumKind::AccessQualifier), repeat: Repeat::Optional }]),
        26 => Some(vec![]),
        27 => Some(vec![Slot { kind: OperandKind::Id, repeat: Repeat::One }]),
        28 => Some(vec![Slot { kind: OperandKind::Id, repeat: Repeat::One }, Slot { kind: OperandKind::Id, repeat: Repeat::One }]),
        29 => Some(vec![Slot { kind: OperandKind::Id, repeat: Repeat::One }]),
        30 => Some(vec![Slot { kind: OperandKind::Id, repeat: Repeat::Many }]),
        31 => Some(vec![Slot { kind: OperandKind::Str, repeat: Repeat::One }]),
        32 => Some(vec![Slot { kind: OperandKind::Enum(EnumKind::StorageClass), repeat: Repeat::One }, Slot { kind: OperandKind::Id, repeat: Repeat::One }]),
        33 => Some(vec![Slot { kind: OperandKind::Id, repeat: Repeat::One }, Slot { kind: OperandKind::Id, repeat: Repeat::Many }]),
        34 => Some(vec![]),
        35 => Some(vec![]),
        36 => Some(vec![]),
        37 => Some(vec![]),
        38 => Some(vec![Slot { kind: OperandKind::Enum(EnumKind::AccessQualifier), repeat: Repeat::One }]),
        39 => Some(vec![Slot { kind: OperandKind::Id, repeat: Repeat::One }, Slot { kind: OperandKind::Enum(EnumKind::StorageClass), repeat: Repeat::One }]),
        41 => Some(vec![]),
        42 => Some(vec![]),
        43 => Some(vec![Slot { kind: OperandKind::List, repeat: Repeat::One }]),
        44 => Some(vec![Slot { kind: OperandKind::Id, repeat: Repeat::Many }]),
        45 => Some(vec![Slot { kind: OperandKind::Enum(EnumKind::SamplerAddressingMode), repeat: Repeat::One }, Slot { kind: OperandKind::U32, repeat: Repeat::One }, Slot { kind: OperandKind::Enum(EnumKind::SamplerFilterMode), repeat: Repeat::One }]),
        46 => Some(vec![]),
        48 => Some(vec![]),
        49 => Some(vec![]),
        50 => Some(vec![Slot { kind: OperandKind::List, repeat: Repeat::One }]),
        51 => Some(vec![Slot { kind: OperandKind::Id, repeat: Repeat::Many }]),
        52 => Some(vec![Slot { kind: OperandKind::U32, repeat: Repeat::One }]),
        54 => Some(vec![Slot { kind: OperandKind::Enum(EnumKind::FunctionControl), repeat: Repeat::One }, Slot { kind: OperandKind::Id, repeat: Repeat::One }]),
        55 => Some(vec![]),
        56 => Some(vec![]),
        57 => Some(vec![Slot { kind: OperandKind::Id, repeat: Repeat::One }, Slot { kind: OperandKind::Id, repeat: Repeat::Many }]),
        59 => Some(vec![Slot { kind: OperandKind::Enum(EnumKind::StorageClass), repeat: Repeat::One }, Slot { kind: OperandKind::Id, repeat: Repeat::Optional }]),
        60 => Some(vec![Slot { kind: OperandKind::Id, repeat: Repeat::One }, Slot { kind: OperandKind::Id, repeat: Repeat::One }, Slot { kind: OperandKind::Id, repeat: Repeat::One }]),
        61 => Some(vec![Slot { kind: OperandKind::Id, repeat: Repeat::One }, Slot { kind: OperandKind::Enum(EnumKind::MemoryAccess), repeat: Repeat::Optional }]),
        62 => Some(vec![Slot { kind: OperandKind::Id, repeat: Repeat::One }, Slot { kind: OperandKind::Id, repeat: Repeat::One }, Slot { kind: OperandKind::Enum(EnumKind::MemoryAccess), repeat: Repeat::Optional }]),
        63 => Some(vec![Slot { kind: OperandKind::Id, repeat: Repeat::One }, Slot { kind: OperandKind::Id, repeat: Repeat::One }, Slot { kind: OperandKind::Enum(EnumKind::MemoryAccess), repeat: Repeat::Optional }, Slot { kind: OperandKind::Enum(EnumKind::MemoryAccess), repeat: Repeat::Optional }]),
        64 => Some(vec![Slot { kind: OperandKind::Id, repeat: Repeat::One }, Slot { kind: OperandKind::Id, repeat: Repeat::One }, Slot { kind: OperandKind::Id, repeat: Repeat::One }, Slot { kind: OperandKind::Enum(EnumKind::MemoryAccess), repeat: Repeat::Optional }, Slot { kind: OperandKind::Enum(EnumKind::MemoryAccess), repeat: Repeat::Optional }]),
        65 => Some(vec![Slot { kind: OperandKind::Id, repeat: Repeat::One }, Slot { kind: OperandKind::Id, repeat: Repeat::Many }]),
        66 => Some(vec![Slot { kind: OperandKind::Id, repeat: Repeat::One }, Slot { kind: OperandKind::Id, repeat: Repeat::Many }]),
        _ => None,
    }
}

fn opcode_slot_list_1(op: u32) -> (r: Option<Vec<Slot>>)
    requires
        67 <= op <= 130,
    ensures
        match r {
            Some(v) => opcode_slots(op) == Some(v@),
            None => opcode_slots(op) is None,
        },
{
    match op {
        67 => Some(vec![Slot { kind: OperandKind::Id, repeat: Repeat::One }, Slot { kind: OperandKind::Id, repeat: Repeat::One }, Slot { kind: OperandKind::Id, repeat: Repeat::Many }]),
        68 => Some(vec![Slot { kind: OperandKind::Id, repeat: Repeat::One }, Slot { kind: OperandKind::U32, repeat: Repeat::One }]),
        69 => Some(vec![Slot { kind: OperandKind::Id, repeat: Repeat::One }]),
        70 => Some(vec![Slot { kind: OperandKind::Id, repeat: Repeat::One }, Slot { kind: OperandKind::Id, repeat: Repeat::One }, Slot { kind: OperandKind::Id, repeat: Repeat::Many }]),
        71 => Some(vec![Slot { kind: OperandKind::Id, repeat: Repeat::One }, Slot { kind: OperandKind::Enum(EnumKind::Decoration), repeat: Repeat::One }]),
        72 => Some(vec![Slot { kind: OperandKind::Id, repeat: Repeat::One }, Slot { kind: OperandKind::U32, repeat: Repeat::One }, Slot { kind: OperandKind::Enum(EnumKind::Decoration), repeat: Repeat::One }]),
        73 => Some(vec![]),
        74 => Some(vec![Slot { kind: OperandKind::Id, repeat: Repeat::One }, Slot { kind: OperandKind::Id, repeat: Repeat::Many }]),
        75 => Some(vec![Slot { kind: OperandKind::Id, repeat: Repeat::One }, Slot { kind: OperandKind::PairIdU32List, repeat: Repeat::Many }]),
        77 => Some(vec![Slot { kind: OperandKind::Id, repeat: Repeat::One }, Slot { kind: OperandKind::Id, repeat: Repeat::One }]),
        78 => Some(vec![Slot { kind: OperandKind::Id, repeat: Repeat::One }, Slot { kind: OperandKind::Id, repeat: Repeat::One }, Slot { kind: OperandKind::Id, repeat: Repeat::One }]),
        79 => Some(vec![Slot { kind: OperandKind::Id, repeat: Repeat::One }, Slot { kind: OperandKind::Id, repeat: Repeat::One }, Slot { kind: OperandKind::U32, repeat: Repeat::Many }]),
        80 => Some(vec![Slot { kind: OperandKind::Id, repeat: Repeat::Many }]),
        81 => Some(vec![Slot { kind: OperandKind::Id, repeat: Repeat::One }, Slot { kind: OperandKind::U32, repeat: Repeat::Many }]),
        82 => Some(vec![Slot { kind: OperandKind::Id, repeat: Repeat::One }, Slot { kind: OperandKind::Id, repeat: Repeat::One }, Slot { kind: OperandKind::U32, repeat: Repeat::Many }]),
        83 => Some(vec![Slot { kind: OperandKind::Id, repeat: Repeat::One }]),
        84 => Some(vec![Slot { kind: OperandKind::Id, repeat: Repeat::One }]),
        86 => Some(vec![Slot { kind: OperandKind::Id, repeat: Repeat::One }, Slot { kind: OperandKind::Id, repeat: Repeat::One }]),
        87 => Some(vec![Slot { kind: OperandKind::Id, repeat: Repeat::One }, Slot { kind: OperandKind::Id, repeat: Repeat::One }, Slot { kind: OperandKind::Enum(EnumKind::ImageOperands), repeat: Repeat::Optional }]),
        88 => Some(vec![Slot { kind: OperandKind::Id, repeat: Repeat::One }, Slot { kind: OperandKind::Id, repeat: Repeat::One }, Slot { kind: OperandKind::Enum(EnumKind::ImageOperands), repeat: Repeat::One }]),
        89 => Some(vec![Slot { kind: OperandKind::Id, repeat: Repeat::One }, Slot { kind: OperandKind::Id, repeat: Repeat::One }, Slot { kind: OperandKind::Id, repeat: Repeat::One }, Slot { kind: OperandKind::Enum(EnumKind::ImageOperands), repeat: Repeat::Optional }]),
        90 => Some(vec![Slot { kind: OperandKind::Id, repeat: Repeat::One }, Slot { kind: OperandKind::Id, repeat: Repeat::One }, Slot { kind: OperandKind::Id, repeat: Repeat::One }, Slot { kind: OperandKind::Enum(EnumKind::ImageOperands), repeat: Repeat::One }]),
        91 => Some(vec![Slot { kind: OperandKind::Id, repeat: Repeat::One }, Slot { kind: OperandKind::Id, repeat: Repeat::One }, Slot { kind: OperandKind::Enum(EnumKind::ImageOperands), repeat: Repeat::Optional }]),
        92 => Some(vec![Slot { kind: OperandKind::Id, repeat: Repeat::One }, Slot { kind: OperandKind::Id, repeat: Repeat::One }, Slot { kind: OperandKind::Enum(EnumKind::ImageOperands), repeat: Repeat::One }]),
        93 => Some(vec![Slot { kind: OperandKind::Id, repeat: Repeat::One }, Slot { kind: OperandKind::Id, repeat: Repeat::One }, Slot { kind: OperandKind::Id, repeat: Repeat::One }, Slot { kind: OperandKind::Enum(EnumKind::ImageOperands), repeat: Repeat::Optional }]),
        94 => Some(vec![Slot { kind: OperandKind::Id, repeat: Repeat::One }, Slot { kind: OperandKind::Id, repeat: Repeat::One }, Slot { kind: OperandKind::Id, repeat: Repeat::One }, Slot { kind: OperandKind::Enum(EnumKind::ImageOperands), repeat: Repeat::One }]),
        95 => Some(vec![Slot { kind: OperandKind::Id, repeat: Repeat::One }, Slot { kind: OperandKind::Id, repeat: Repeat::One }, Slot { kind: OperandKind::Enum(EnumKind::ImageOperands), repeat: Repeat::Optional }]),
        96 => Some(vec![Slot { kind: OperandKind::Id, repeat: Repeat::One }, Slot { kind: OperandKind::Id, repeat: Repeat::One }, Slot { kind: OperandKind::Id, repeat: Repeat::One }, Slot { kind: OperandKind::Enum(EnumKind::ImageOperands), repeat: Repeat::Optional }]),
        97 => Some(vec![Slot { kind: OperandKind::Id, repeat: Repeat::One }, Slot { kind: OperandKind::Id, repeat: Repeat::One }, Slot { kind: OperandKind::Id, repeat: Repeat::One }, Slot { kind: OperandKind::Enum(EnumKind::ImageOperands), repeat: Repeat::Optional }]),
        98 => Some(vec![Slot { kind: OperandKind::Id, repeat: Repeat::One }, Slot { kind: OperandKind::Id, repeat: Repeat::One }, Slot { kind: OperandKind::Enum(EnumKind::ImageOperands), repeat: Repeat::Optional }]),
        99 => Some(vec![Slot { kind: OperandKind::Id, repeat: Repeat::One }, Slot { kind: OperandKind::Id, repeat: Repeat::One }, Slot { kind: OperandKind::Id, repeat: Repeat::One }, Slot { kind: OperandKind::Enum(EnumKind::ImageOperands), repeat: Repeat::Optional }]),
        100 => Some(vec![Slot { kind: OperandKind::Id, repeat: Repeat::One }]),
        101 => Some(vec![Slot { kind: OperandKind::Id, repeat: Repeat::One }]),
        102 => Some(vec![Slot { kind: OperandKind::Id, repeat: Repeat::One }]),
        103 => Some(vec![Slot { kind: OperandKind::Id, repeat: Repeat::One }, Slot { kind: OperandKind::Id, repeat: Repeat::One }]),
        104 => Some(vec![Slot { kind: OperandKind::Id, repeat: Repeat::One }]),
        105 => Some(vec![Slot { kind: OperandKind::Id, repeat: Repeat::One }, Slot { kind: OperandKind::Id, repeat: Repeat::One }]),
        106 => Some(vec![Slot { kind: OperandKind::Id, repeat: Repeat::One }]),
        107 => Some(vec![Slot { kind: OperandKind::Id, repeat: Repeat::One }]),
        109 => Some(vec![Slot { kind: OperandKind::Id, repeat: Repeat::One }]),
        110 => Some(vec![Slot { kind: OperandKind::Id, repeat: Repeat::One }]),
        111 => Some(vec![Slot { kind: OperandKind::Id, repeat: Repeat::One }]),
        112 => Some(vec![Slot { kind: OperandKind::Id, repeat: Repeat::One }]),
        113 => Some(vec![Slot { kind: OperandKind::Id, repeat: Repeat::One }]),
        114 => Some(vec![Slot { kind: OperandKind::Id, repeat: Repeat::One }]),
        115 => Some(vec![Slot { kind: OperandKind::Id, repeat: Repeat::One }]),
        116 => Some(vec![Slot { kind: OperandKind::Id, repeat: Repeat::One }]),
        117 => Some(vec![Slot { kind: OperandKind::Id, repeat: Repeat::One }]),
        118 => Some(vec![Slot { kind: OperandKind::Id, repeat: Repeat::One }]),
        119 => Some(vec![Slot { kind: OperandKind::Id, repeat: Repeat::One }]),
        120 => Some(vec![Slot { kind: OperandKind::Id, repeat: Repeat::One }]),
        121 => Some(vec![Slot { kind: OperandKind::Id, repeat: Repeat::One }]),
        122 => Some(vec![Slot { kind: OperandKind::Id, repeat: Repeat::One }]),
        123 => Some(vec![Slot { kind: OperandKind::Id, repeat: Repeat::One }, Slot { kind: OperandKind::Enum(EnumKind::StorageClass), repeat: Repeat::One }]),
        124 => Some(vec![Slot { kind: OperandKind::Id, repeat: Repeat::One }]),
        126 => Some(vec![Slot { kind: OperandKind::Id, repeat: Repeat::One }]),
        127 => Some(vec![Slot { kind: OperandKind::Id, repeat: Repeat::One }]),
        128 => Some(vec![Slot { kind: OperandKind::Id, repeat: Repeat::One }, Slot { kind: OperandKind::Id, repeat: Repeat::One }]),
        129 => Some(vec![Slot { kind: OperandKind::Id, repeat: Repeat::One }, Slot { kind: OperandKind::Id, repeat: Repeat::One }]),
        130 => Some(vec![Slot { kind: OperandKind::Id, repeat: Repeat::One }, Slot { kind: OperandKind::Id, repeat: Repeat::One }]),
        _ => None,
    }
}

fn opcode_slot_list_2(op: u32) -> (r: Option<Vec<Slot>>)
    requires
        131 <= op <= 191,
    ensures
        match r {
            Some(v) => opcode_slots(op) == Some(v@),
            None => opcode_slots(op) is None,
        },
{
    match op {
        131 => Some(vec![Slot { kind: OperandKind::Id, repeat: Repeat::One }, Slot { kind: OperandKind::Id, repeat: Repeat::One }]),
        132 => Some(vec![Slot { kind: OperandKind::Id, repeat: Repeat::One }, Slot { kind: OperandKind::Id, repeat: Repeat::One }]),
        133 => Some(vec![Slot { kind: OperandKind::Id, repeat: Repeat::One }, Slot { kind: OperandKind::Id, repeat: Repeat::One }]),
        134 => Some(vec![Slot { kind: OperandKind::Id, repeat: Repeat::One }, Slot { kind: OperandKind::Id, repeat: Repeat::One }]),
        135 => Some(vec![Slot { kind: OperandKind::Id, repeat: Repeat::One }, Slot { kind: OperandKind::Id, repeat: Repeat::One }]),
        136 => Some(vec![Slot { kind: OperandKind::Id, repeat: Repeat::One }, Slot { kind: OperandKind::Id, repeat: Repeat::One }]),
        137 => Some(vec![Slot { kind: OperandKind::Id, repeat: Repeat::One }, Slot { kind: OperandKind::Id, repeat: Repeat::One }]),
        138 => Some(vec![Slot { kind: OperandKind::Id, repeat: Repeat::One }, Slot { kind: OperandKind::Id, repeat: Repeat::One }]),
        139 => Some(vec![Slot { kind: OperandKind::Id, repeat: Repeat::One }, Slot { kind: OperandKind::Id, repeat: Repeat::One }]),
        140 => Some(vec![Slot { kind: OperandKind::Id, repeat: Repeat::One }, Slot { kind: OperandKind::Id, repeat: Repeat::One }]),
        141 => Some(vec![Slot { kind: OperandKind::Id, repeat: Repeat::One }, Slot { kind: OperandKind::Id, repeat: Repeat::One }]),
        142 => Some(vec![Slot { kind: OperandKind::Id, repeat: Repeat::One }, Slot { kind: OperandKind::Id, repeat: Repeat::One }]),
        143 => Some(vec![Slot { kind: OperandKind::Id, repeat: Repeat::One }, Slot { kind: OperandKind::Id, repeat: Repeat::One }]),
        144 => Some(vec![Slot { kind: OperandKind::Id, repeat: Repeat::One }, Slot { kind: OperandKind::Id, repeat: Repeat::One }]),
        145 => Some(vec![Slot { kind: OperandKind::Id, repeat: Repeat::One }, Slot { kind: OperandKind::Id, repeat: Repeat::One }]),
        146 => Some(vec![Slot { kind: OperandKind::Id, repeat: Repeat::One }, Slot { kind: OperandKind::Id, repeat: Repeat::One }]),
        147 => Some(vec![Slot { kind: OperandKind::Id, repeat: Repeat::One }, Slot { kind: OperandKind::Id, repeat: Repeat::One }]),
        148 => Some(vec![Slot { kind: OperandKind::Id, repeat: Repeat::One }, Slot { kind: OperandKind::Id, repeat: Repeat::One }]),
        149 => Some(vec![Slot { kind: OperandKind::Id, repeat: Repeat::One }, Slot { kind: OperandKind::Id, repeat: Repeat::One }]),
        150 => Some(vec![Slot { kind: OperandKind::Id, repeat: Repeat::One }, Slot { kind: OperandKind::Id, repeat: Repeat::One }]),
        151 => Some(vec![Slot { kind: OperandKind::Id, repeat: Repeat::One }, Slot { kind: OperandKind::Id, repeat: Repeat::One }]),
        152 => Some(vec![Slot { kind: OperandKind::Id, repeat: Repeat::One }, Slot { kind: OperandKind::Id, repeat: Repeat::One }]),
        154 => Some(vec![Slot { kind: OperandKind::Id, repeat: Repeat::One }]),
        155 => Some(vec![Slot { kind: OperandKind::Id, repeat: Repeat::One }]),
        156 => Some(vec![Slot { kind: OperandKind::Id, repeat: Repeat::One }]),
        157 => Some(vec![Slot { kind: OperandKind::Id, repeat: Repeat::One }]),
        158 => Some(vec![Slot { kind: OperandKind::Id, repeat: Repeat::One }]),
        159 => Some(vec![Slot { kind: OperandKind::Id, repeat: Repeat::One }]),
        160 => Some(vec![Slot { kind: OperandKind::Id, repeat: Repeat::One }]),
        161 => Some(vec![Slot { kind: OperandKind::Id, repeat: Repeat::One }, Slot { kind: OperandKind::Id, repeat: Repeat::One }]),
        162 => Some(vec![Slot { kind: OperandKind::Id, repeat: Repeat::One }, Slot { kind: OperandKind::Id, repeat: Repeat::One }]),
        163 => Some(vec![Slot { kind: OperandKind::Id, repeat: Repeat::One }, Slot { kind: OperandKind::Id, repeat: Repeat::One }]),
        164 => Some(vec![Slot { kind: OperandKind::Id, repeat: Repeat::One }, Slot { kind: OperandKind::Id, repeat: Repeat::One }]),
        165 => Some(vec![Slot { kind: OperandKind::Id, repeat: Repeat::One }, Slot { kind: OperandKind::Id, repeat: Repeat::One }]),
        166 => Some(vec![Slot { kind: OperandKind::Id, repeat: Repeat::One }, Slot { kind: OperandKind::Id, repeat: Repeat::One }]),
        167 => Some(vec![Slot { kind: OperandKind::Id, repeat: Repeat::One }, Slot { kind: OperandKind::Id, repeat: Repeat::One }]),
        168 => Some(vec![Slot { kind: OperandKind::Id, repeat: Repeat::One }]),
        169 => Some(vec![Slot { kind: OperandKind::Id, repeat: Repeat::One }, Slot { kind: OperandKind::Id, repeat: Repeat::One }, Slot { kind: OperandKind::Id, repeat: Repeat::One }]),
        170 => Some(vec![Slot { kind: OperandKind::Id, repeat: Repeat::One }, Slot { kind: OperandKind::Id, repeat: Repeat::One }]),
        171 => Some(vec![Slot { kind: OperandKind::Id, repeat: Repeat::One }, Slot { kind: OperandKind::Id, repeat: Repeat::One }]),
        172 => Some(vec![Slot { kind: OperandKind::Id, repeat: Repeat::One }, Slot { kind: OperandKind::Id, repeat: Repeat::One }]),
        173 => Some(vec![Slot { kind: OperandKind::Id, repeat: Repeat::One }, Slot { kind: OperandKind::Id, repeat: Repeat::One }]),
        174 => Some(vec![Slot { kind: OperandKind::Id, repeat: Repeat::One }, Slot { kind: OperandKind::Id, repeat: Repeat::One }]),
        175 => Some(vec![Slot { kind: OperandKind::Id, repeat: Repeat::One }, Slot { kind: OperandKind::Id, repeat: Repeat::One }]),
        176 => Some(vec![Slot { kind: OperandKind::Id, repeat: Repeat::One }, Slot { kind: OperandKind::Id, repeat: Repeat::One }]),
        177 => Some(vec![Slot { kind: OperandKind::Id, repeat: Repeat::One }, Slot { kind: OperandKind::Id, repeat: Repeat::One }]),
        178 => Some(vec![Slot { kind: OperandKind::Id, repeat: Repeat::One }, Slot { kind: OperandKind::Id, repeat: Repeat::One }]),
        179 => Some(vec![Slot { kind: OperandKind::Id, repeat: Repeat::One }, Slot { kind: OperandKind::Id, repeat: Repeat::One }]),
        180 => Some(vec![Slot { kind: OperandKind::Id, repeat: Repeat::One }, Slot { kind: OperandKind::Id, repeat: Repeat::One }]),
        181 => Some(vec![Slot { kind: OperandKind::Id, repeat: Repeat::One }, Slot { kind: OperandKind::Id, repeat: Repeat::One }]),
        182 => Some(vec![Slot { kind: OperandKind::Id, repeat: Repeat::One }, Slot { kind: OperandKind::Id, repeat: Repeat::One }]),
        183 => Some(vec![Slot { kind: OperandKind::Id, repeat: Repeat::One }, Slot { kind: OperandKind::Id, repeat: Repeat::One }]),
        184 => Some(vec![Slot { kind: OperandKind::Id, repeat: Repeat::One }, Slot { kind: OperandKind::Id, repeat: Repeat::One }]),
        185 => Some(vec![Slot { kind: OperandKind::Id, repeat: Repeat::One }, Slot { kind: OperandKind::Id, repeat: Repeat::One }]),
        186 => Some(vec![Slot { kind: OperandKind::Id, repeat: Repeat::One }, Slot { kind: OperandKind::Id, repeat: Repeat::One }]),
        187 => Some(vec![Slot { kind: OperandKind::Id, repeat: Repeat::One }, Slot { kind: OperandKind::Id, repeat: Repeat::One }]),
        188 => Some(vec![Slot { kind: OperandKind::Id, repeat: Repeat::One }, Slot { kind: OperandKind::Id, repeat: Repeat::One }]),
        189 => Some(vec![Slot { kind: OperandKind::Id, repeat: Repeat::One }, Slot { kind: OperandKind::Id, repeat: Repeat::One }]),
        190 => Some(vec![Slot { kind: OperandKind::Id, repeat: Repeat::One }, Slot { kind: OperandKind::Id, repeat: Repeat::One }]),
        191 => Some(vec![Slot { kind: OperandKind::Id, repeat: Repeat::One }, Slot { kind: OperandKind::Id, repeat: Repeat::One }]),
        _ => None,
    }
}

fn opcode_slot_list_3(op: u32) -> (r: Option<Vec<Slot>>)
    requires
        194 <= op <= 262,
    ensures
        match r {
            Some(v) => opcode_slots(op) == Some(v@),
            None => opcode_slots(op) is None,
        },
{
    match op {
        194 => Some(vec![Slot { kind: OperandKind::Id, repeat: Repeat::One }, Slot { kind: OperandKind::Id, repeat: Repeat::One }]),
        195 => Some(vec![Slot { kind: OperandKind::Id, repeat: Repeat::One }, Slot { kind: OperandKind::Id, repeat: Repeat::One }]),
        196 => Some(vec![Slot { kind: OperandKind::Id, repeat: Repeat::One }, Slot { kind: OperandKind::Id, repeat: Repeat::One }]),
        197 => Some(vec![Slot { kind: OperandKind::Id, repeat: Repeat::One }, Slot { kind: OperandKind::Id, repeat: Repeat::One }]),
        198 => Some(vec![Slot { kind: OperandKind::Id, repeat: Repeat::One }, Slot { kind: OperandKind::Id, repeat: Repeat::One }]),
        199 => Some(vec![Slot { kind: OperandKind::Id, repeat: Repeat::One }, Slot { kind: OperandKind::Id, repeat: Repeat::One }]),
        200 => Some(vec![Slot { kind: OperandKind::Id, repeat: Repeat::One }]),
        201 => Some(vec![Slot { kind: OperandKind::Id, repeat: Repeat::One }, Slot { kind: OperandKind::Id, repeat: Repeat::One }, Slot { kind: OperandKind::Id, repeat: Repeat::One }, Slot { kind: OperandKind::Id, repeat: Repeat::One }]),
        202 => Some(vec![Slot { kind: OperandKind::Id, repeat: Repeat::One }, Slot { kind: OperandKind::Id, repeat: Repeat::One }, Slot { kind: OperandKind::Id, repeat: Repeat::One }]),
        203 => Some(vec![Slot { kind: OperandKind::Id, repeat: Repeat::One }, Slot { kind: OperandKind::Id, repeat: Repeat::One }, Slot { kind: OperandKind::Id, repeat: Repeat::One }]),
        204 => Some(vec![Slot { kind: OperandKind::Id, repeat: Repeat::One }]),
        205 => Some(vec![Slot { kind: OperandKind::Id, repeat: Repeat::One }]),
        207 => Some(vec![Slot { kind: OperandKind::Id, repeat: Repeat::One }]),
        208 => Some(vec![Slot { kind: OperandKind::Id, repeat: Repeat::One }]),
        209 => Some(vec![Slot { kind: OperandKind::Id, repeat: Repeat::One }]),
        210 => Some(vec![Slot { kind: OperandKind::Id, repeat: Repeat::One }]),
        211 => Some(vec![Slot { kind: OperandKind::Id, repeat: Repeat::One }]),
        212 => Some(vec![Slot { kind: OperandKind::Id, repeat: Repeat::One }]),
        213 => Some(vec![Slot { kind: OperandKind::Id, repeat: Repeat::One }]),
        214 => Some(vec![Slot { kind: OperandKind::Id, repeat: Repeat::One }]),
        215 => Some(vec![Slot { kind: OperandKind::Id, repeat: Repeat::One }]),
        218 => Some(vec![]),
        219 => Some(vec![]),
        220 => Some(vec![Slot { kind: OperandKind::Id, repeat: Repeat::One }]),
        221 => Some(vec![Slot { kind: OperandKind::Id, repeat: Repeat::One }]),
        224 => Some(vec![Slot { kind: OperandKind::Id, repeat: Repeat::One }, Slot { kind: OperandKind::Id, repeat: Repeat::One }, Slot { kind: OperandKind::Id, repeat: Repeat::One }]),
        225 => Some(vec![Slot { kind: OperandKind::Id, repeat: Repeat::One }, Slot { kind: OperandKind::Id, repeat: Repeat::One }]),
        227 => Some(vec![Slot { kind: OperandKind::Id, repeat: Repeat::One }, Slot { kind: OperandKind::Id, repeat: Repeat::One }, Slot { kind: OperandKind::Id, repeat: Repeat::One }]),
        228 => Some(vec![Slot { kind: OperandKind::Id, repeat: Repeat::One }, Slot { kind: OperandKind::Id, repeat: Repeat::One }, Slot { kind: OperandKind::Id, repeat: Repeat::One }, Slot { kind: OperandKind::Id, repeat: Repeat::One }]),
        229 => Some(vec![Slot { kind: OperandKind::Id, repeat: Repeat::One }, Slot { kind: OperandKind::Id, repeat: Repeat::One }, Slot { kind: OperandKind::Id, repeat: Repeat::One }, Slot { kind: OperandKind::Id, repeat: Repeat::One }]),
        230 => Some(vec![Slot { kind: OperandKind::Id, repeat: Repeat::One }, Slot { kind: OperandKind::Id, repeat: Repeat::One }, Slot { kind: OperandKind::Id, repeat: Repeat::One }, Slot { kind: OperandKind::Id, repeat: Repeat::One }, Slot { kind: OperandKind::Id, repeat: Repeat::One }, Slot { kind: OperandKind::Id, repeat: Repeat::One }]),
        231 => Some(vec![Slot { kind: OperandKind::Id, repeat: Repeat::One }, Slot { kind: OperandKind::Id, repeat: Repeat::One }, Slot { kind: OperandKind::Id, repeat: Repeat::One }, Slot { kind: OperandKind::Id, repeat: Repeat::One }, Slot { kind: OperandKind::Id, repeat: Repeat::One }, Slot { kind: OperandKind::Id, repeat: Repeat::One }]),
        232 => Some(vec![Slot { kind: OperandKind::Id, repeat: Repeat::One }, Slot { kind: OperandKind::Id, repeat: Repeat::One }, Slot { kind: OperandKind::Id, repeat: Repeat::One }]),
        233 => Some(vec![Slot { kind: OperandKind::Id, repeat: Repeat::One }, Slot { kind: OperandKind::Id, repeat: Repeat::One }, Slot { kind: OperandKind::Id, repeat: Repeat::One }]),
        234 => Some(vec![Slot { kind: OperandKind::Id, repeat: Repeat::One }, Slot { kind: OperandKind::Id, repeat: Repeat::One }, Slot { kind: OperandKind::Id, repeat: Repeat::One }, Slot { kind: OperandKind::Id, repeat: Repeat::One }]),
        235 => Some(vec![Slot { kind: OperandKind::Id, repeat: Repeat::One }, Slot { kind: OperandKind::Id, repeat: Repeat::One }, Slot { kind: OperandKind::Id, repeat: Repeat::One }, Slot { kind: OperandKind::Id, repeat: Repeat::One }]),
        236 => Some(vec![Slot { kind: OperandKind::Id, repeat: Repeat::One }, Slot { kind: OperandKind::Id, repeat: Repeat::One }, Slot { kind: OperandKind::Id, repeat: Repeat::One }, Slot { kind: OperandKind::Id, repeat: Repeat::One }]),
        237 => Some(vec![Slot { kind: OperandKind::Id, repeat: Repeat::One }, Slot { kind: OperandKind::Id, repeat: Repeat::One }, Slot { kind: OperandKind::Id, repeat: Repeat::One }, Slot { kind: OperandKind::Id, repeat: Repeat::One }]),
        238 => Some(vec![Slot { kind: OperandKind::Id, repeat: Repeat::One }, Slot { kind: OperandKind::Id, repeat: Repeat::One }, Slot { kind: OperandKind::Id, repeat: Repeat::One }, Slot { kind: OperandKind::Id, repeat: Repeat::One }]),
        239 => Some(vec![Slot { kind: OperandKind::Id, repeat: Repeat::One }, Slot { kind: OperandKind::Id, repeat: Repeat::One }, Slot { kind: OperandKind::Id, repeat: Repeat::One }, Slot { kind: OperandKind::Id, repeat: Repeat::One }]),
        240 => Some(vec![Slot { kind: OperandKind::Id, repeat: Repeat::One }, Slot { kind: OperandKind::Id, repeat: Repeat::One }, Slot { kind: OperandKind::Id, repeat: Repeat::One }, Slot { kind: OperandKind::Id, repeat: Repeat::One }]),
        241 => Some(vec![Slot { kind: OperandKind::Id, repeat: Repeat::One }, Slot { kind: OperandKind::Id, repeat: Repeat::One }, Slot { kind: OperandKind::Id, repeat: Repeat::One }, Slot { kind: OperandKind::Id, repeat: Repeat::One }]),
        242 => Some(vec![Slot { kind: OperandKind::Id, repeat: Repeat::One }, Slot { kind: OperandKind::Id, repeat: Repeat::One }, Slot { kind: OperandKind::Id, repeat: Repeat::One }, Slot { kind: OperandKind::Id, repeat: Repeat::One }]),
        245 => Some(vec![Slot { kind: OperandKind::PairIdIdList, repeat: Repeat::Many }]),
        246 => Some(vec![Slot { kind: OperandKind::Id, repeat: Repeat::One }, Slot { kind: OperandKind::Id, repeat: Repeat::One }, Slot { kind: OperandKind::Enum(EnumKind::LoopControl), repeat: Repeat::One }]),
        247 => Some(vec![Slot { kind: OperandKind::Id, repeat: Repeat::One }, Slot { kind: OperandKind::Enum(EnumKind::SelectionControl), repeat: Repeat::One }]),
        248 => Some(vec![]),
        249 => Some(vec![Slot { kind: OperandKind::Id, repeat: Repeat::One }]),
        250 => Some(vec![Slot { kind: OperandKind::Id, repeat: Repeat::One }, Slot { kind: OperandKind::Id, repeat: Repeat::One }, Slot { kind: OperandKind::Id, repeat: Repeat::One }, Slot { kind: OperandKind::U32, repeat: Repeat::Many }]),
        251 => Some(vec![Slot { kind: OperandKind::Id, repeat: Repeat::One }, Slot { kind: OperandKind::Id, repeat: Repeat::One }, Slot { kind: OperandKind::PairU32IdList, repeat: Repeat::Many }]),
        252 => Some(vec![]),
        253 => Some(vec![]),
        254 => Some(vec![Slot { kind: OperandKind::Id, repeat: Repeat::One }]),
        255 => Some(vec![]),
        256 => Some(vec![Slot { kind: OperandKind::Id, repeat: Repeat::One }, Slot { kind: OperandKind::U32, repeat: Repeat::One }]),
        257 => Some(vec![Slot { kind: OperandKind::Id, repeat: Repeat::One }, Slot { kind: OperandKind::U32, repeat: Repeat::One }]),
        259 => Some(vec![Slot { kind: OperandKind::Id, repeat: Repeat::One }, Slot { kind: OperandKind::Id, repeat: Repeat::One }, Slot { kind: OperandKind::Id, repeat: Repeat::One }, Slot { kind: OperandKind::Id, repeat: Repeat::One }, Slot { kind: OperandKind::Id, repeat: Repeat::One }, Slot { kind: OperandKind::Id, repeat: Repeat::One }]),
        260 => Some(vec![Slot { kind: OperandKind::Id, repeat: Repeat::One }, Slot { kind: OperandKind::Id, repeat: Repeat::One }, Slot { kind: OperandKind::Id, repeat: Repeat::One }]),
        261 => Some(vec![Slot { kind: OperandKind::Id, repeat: Repeat::One }, Slot { kind: OperandKind::Id, repeat: Repeat::One }]),
        262 => Some(vec![Slot { kind: OperandKind::Id, repeat: Repeat::One }, Slot { kind: OperandKind::Id, repeat: Repeat::One }]),
        _ => None,
    }
}

fn opcode_slot_list_4(op: u32) -> (r: Option<Vec<Slot>>)
    requires
        263 <= op <= 326,
    ensures
        match r {
            Some(v) => opcode_slots(op) == Some(v@),
            None => opcode_slots(op) is None,
        },
{
    match op {
        263 => Some(vec![Slot { kind: OperandKind::Id, repeat: Repeat::One }, Slot { kind: OperandKind::Id, repeat: Repeat::One }, Slot { kind: OperandKind::Id, repeat: Repeat::One }]),
        264 => Some(vec![Slot { kind: OperandKind::Id, repeat: Repeat::One }, Slot { kind: OperandKind::Enum(EnumKind::GroupOperation), repeat: Repeat::One }, Slot { kind: OperandKind::Id, repeat: Repeat::One }]),
        265 => Some(vec![Slot { kind: OperandKind::Id, repeat: Repeat::One }, Slot { kind: OperandKind::Enum(EnumKind::GroupOperation), repeat: Repeat::One }, Slot { kind: OperandKind::Id, repeat: Repeat::One }]),
        266 => Some(vec![Slot { kind: OperandKind::Id, repeat: Repeat::One }, Slot { kind: OperandKind::Enum(EnumKind::GroupOperation), repeat: Repeat::One }, Slot { kind: OperandKind::Id, repeat: Repeat::One }]),
        267 => Some(vec![Slot { kind: OperandKind::Id, repeat: Repeat::One }, Slot { kind: OperandKind::Enum(EnumKind::GroupOperation), repeat: Repeat::One }, Slot { kind: OperandKind::Id, repeat: Repeat::One }]),
        268 => Some(vec![Slot { kind: OperandKind::Id, repeat: Repeat::One }, Slot { kind: OperandKind::Enum(EnumKind::GroupOperation), repeat: Repeat::One }, Slot { kind: OperandKind::Id, repeat: Repeat::One }]),
        269 => Some(vec![Slot { kind: OperandKind::Id, repeat: Repeat::One }, Slot { kind: OperandKind::Enum(EnumKind::GroupOperation), repeat: Repeat::One }, Slot { kind: OperandKind::Id, repeat: Repeat::One }]),
        270 => Some(vec![Slot { kind: OperandKind::Id, repeat: Repeat::One }, Slot { kind: OperandKind::Enum(EnumKind::GroupOperation), repeat: Repeat::One }, Slot { kind: OperandKind::Id, repeat: Repeat::One }]),
        271 => Some(vec![Slot { kind: OperandKind::Id, repeat: Repeat::One }, Slot { kind: OperandKind::Enum(EnumKind::GroupOperation), repeat: Repeat::One }, Slot { kind: OperandKind::Id, repeat: Repeat::One }]),
        274 => Some(vec![Slot { kind: OperandKind::Id, repeat: Repeat::One }, Slot { kind: OperandKind::Id, repeat: Repeat::One }, Slot { kind: OperandKind::Id, repeat: Repeat::One }, Slot { kind: OperandKind::Id, repeat: Repeat::One }]),
        275 => Some(vec![Slot { kind: OperandKind::Id, repeat: Repeat::One }, Slot { kind: OperandKind::Id, repeat: Repeat::One }, Slot { kind: OperandKind::Id, repeat: Repeat::One }, Slot { kind: OperandKind::Id, repeat: Repeat::One }]),
        276 => Some(vec![Slot { kind: OperandKind::Id, repeat: Repeat::One }, Slot { kind: OperandKind::Id, repeat: Repeat::One }, Slot { kind: OperandKind::Id, repeat: Repeat::One }, Slot { kind: OperandKind::Id, repeat: Repeat::One }, Slot { kind: OperandKind::Id, repeat: Repeat::One }, Slot { kind: OperandKind::Id, repeat: Repeat::One }]),
        277 => Some(vec![Slot { kind: OperandKind::Id, repeat: Repeat::One }, Slot { kind: OperandKind::Id, repeat: Repeat::One }, Slot { kind: OperandKind::Id, repeat: Repeat::One }, Slot { kind: OperandKind::Id, repeat: Repeat::One }, Slot { kind: OperandKind::Id, repeat: Repeat::One }, Slot { kind: OperandKind::Id, repeat: Repeat::One }]),
        278 => Some(vec![Slot { kind: OperandKind::Id, repeat: Repeat::One }, Slot { kind: OperandKind::Id, repeat: Repeat::One }, Slot { kind: OperandKind::Id, repeat: Repeat::One }, Slot { kind: OperandKind::Id, repeat: Repeat::One }]),
        279 => Some(vec![Slot { kind: OperandKind::Id, repeat: Repeat::One }, Slot { kind: OperandKind::Id, repeat: Repeat::One }, Slot { kind: OperandKind::Id, repeat: Repeat::One }, Slot { kind: OperandKind::Id, repeat: Repeat::One }]),
        280 => Some(vec![Slot { kind: OperandKind::Id, repeat: Repeat::One }, Slot { kind: OperandKind::Id, repeat: Repeat::One }, Slot { kind: OperandKind::Id, repeat: Repeat::One }, Slot { kind: OperandKind::Id, repeat: Repeat::One }]),
        281 => Some(vec![Slot { kind: OperandKind::Id, repeat: Repeat::One }, Slot { kind: OperandKind::Id, repeat: Repeat::One }, Slot { kind: OperandKind::Id, repeat: Repeat::One }, Slot { kind: OperandKind::Id, repeat: Repeat::One }]),
        282 => Some(vec![Slot { kind: OperandKind::Id, repeat: Repeat::One }]),
        283 => Some(vec![Slot { kind: OperandKind::Id, repeat: Repeat::One }, Slot { kind: OperandKind::Id, repeat: Repeat::One }, Slot { kind: OperandKind::Id, repeat: Repeat::One }]),
        284 => Some(vec![Slot { kind: OperandKind::Id, repeat: Repeat::One }, Slot { kind: OperandKind::Id, repeat: Repeat::One }, Slot { kind: OperandKind::Id, repeat: Repeat::One }]),
        285 => Some(vec![Slot { kind: OperandKind::Id, repeat: Repeat::One }, Slot { kind: OperandKind::Id, repeat: Repeat::One }, Slot { kind: OperandKind::Id, repeat: Repeat::One }, Slot { kind: OperandKind::Id, repeat: Repeat::One }, Slot { kind: OperandKind::Id, repeat: Repeat::One }]),
        286 => Some(vec![Slot { kind: OperandKind::Id, repeat: Repeat::One }, Slot { kind: OperandKind::Id, repeat: Repeat::One }, Slot { kind: OperandKind::Id, repeat: Repeat::One }, Slot { kind: OperandKind::Id, repeat: Repeat::One }, Slot { kind: OperandKind::Id, repeat: Repeat::One }]),
        287 => Some(vec![Slot { kind: OperandKind::Id, repeat: Repeat::One }, Slot { kind: OperandKind::Id, repeat: Repeat::One }, Slot { kind: OperandKind::Id, repeat: Repeat::One }, Slot { kind: OperandKind::Id, repeat: Repeat::One }, Slot { kind: OperandKind::Id, repeat: Repeat::One }]),
        288 => Some(vec![Slot { kind: OperandKind::Id, repeat: Repeat::One }, Slot { kind: OperandKind::Id, repeat: Repeat::One }, Slot { kind: OperandKind::Id, repeat: Repeat::One }, Slot { kind: OperandKind::Id, repeat: Repeat::One }, Slot { kind: OperandKind::Id, repeat: Repeat::One }]),
        291 => Some(vec![Slot { kind: OperandKind::Id, repeat: Repeat::One }, Slot { kind: OperandKind::Id, repeat: Repeat::One }, Slot { kind: OperandKind::Id, repeat: Repeat::One }, Slot { kind: OperandKind::Id, repeat: Repeat::One }]),
        292 => Some(vec![Slot { kind: OperandKind::Id, repeat: Repeat::One }, Slot { kind: OperandKind::Id, repeat: Repeat::One }, Slot { kind: OperandKind::Id, repeat: Repeat::One }, Slot { kind: OperandKind::Id, repeat: Repeat::One }, Slot { kind: OperandKind::Id, repeat: Repeat::One }, Slot { kind: OperandKind::Id, repeat: Repeat::One }, Slot { kind: OperandKind::Id, repeat: Repeat::One }, Slot { kind: OperandKind::Id, repeat: Repeat::One }, Slot { kind: OperandKind::Id, repeat: Repeat::One }, Slot { kind: OperandKind::Id, repeat: Repeat::One }, Slot { kind: OperandKind::Id, repeat: Repeat::Many }]),
        293 => Some(vec![Slot { kind: OperandKind::Id, repeat: Repeat::One }, Slot { kind: OperandKind::Id, repeat: Repeat::One }, Slot { kind: OperandKind::Id, repeat: Repeat::One }, Slot { kind: OperandKind::Id, repeat: Repeat::One }, Slot { kind: OperandKind::Id, repeat: Repeat::One }]),
        294 => Some(vec![Slot { kind: OperandKind::Id, repeat: Repeat::One }, Slot { kind: OperandKind::Id, repeat: Repeat::One }, Slot { kind: OperandKind::Id, repeat: Repeat::One }, Slot { kind: OperandKind::Id, repeat: Repeat::One }, Slot { kind: OperandKind::Id, repeat: Repeat::One }]),
        295 => Some(vec![Slot { kind: OperandKind::Id, repeat: Repeat::One }, Slot { kind: OperandKind::Id, repeat: Repeat::One }, Slot { kind: OperandKind::Id, repeat: Repeat::One }, Slot { kind: OperandKind::Id, repeat: Repeat::One }]),
        296 => Some(vec![Slot { kind: OperandKind::Id, repeat: Repeat::One }, Slot { kind: OperandKind::Id, repeat: Repeat::One }, Slot { kind: OperandKind::Id, repeat: Repeat::One }, Slot { kind: OperandKind::Id, repeat: Repeat::One }]),
        297 => Some(vec![Slot { kind: OperandKind::Id, repeat: Repeat::One }]),
        298 => Some(vec![Slot { kind: OperandKind::Id, repeat: Repeat::One }]),
        299 => Some(vec![]),
        300 => Some(vec![Slot { kind: OperandKind::Id, repeat: Repeat::One }]),
        301 => Some(vec![Slot { kind: OperandKind::Id, repeat: Repeat::One }, Slot { kind: OperandKind::Id, repeat: Repeat::One }]),
        302 => Some(vec![Slot { kind: OperandKind::Id, repeat: Repeat::One }, Slot { kind: OperandKind::Id, repeat: Repeat::One }, Slot { kind: OperandKind::Id, repeat: Repeat::One }]),
        303 => Some(vec![]),
        304 => Some(vec![Slot { kind: OperandKind::Id, repeat: Repeat::One }, Slot { kind: OperandKind::Id, repeat: Repeat::One }, Slot { kind: OperandKind::Id, repeat: Repeat::One }]),
        305 => Some(vec![Slot { kind: OperandKind::Id, repeat: Repeat::One }, Slot { kind: OperandKind::Id, repeat: Repeat::One }, Slot { kind: OperandKind::Enum(EnumKind::ImageOperands), repeat: Repeat::Optional }]),
        306 => Some(vec![Slot { kind: OperandKind::Id, repeat: Repeat::One }, Slot { kind: OperandKind::Id, repeat: Repeat::One }, Slot { kind: OperandKind::Enum(EnumKind::ImageOperands), repeat: Repeat::One }]),
        307 => Some(vec![Slot { kind: OperandKind::Id, repeat: Repeat::One }, Slot { kind: OperandKind::Id, repeat: Repeat::One }, Slot { kind: OperandKind::Id, repeat: Repeat::One }, Slot { kind: OperandKind::Enum(EnumKind::ImageOperands), repeat: Repeat::Optional }]),
        308 => Some(vec![Slot { kind: OperandKind::Id, repeat: Repeat::One }, Slot { kind: OperandKind::Id, repeat: Repeat::One }, Slot { kind: OperandKind::Id, repeat: Repeat::One }, Slot { kind: OperandKind::Enum(EnumKind::ImageOperands), repeat: Repeat::One }]),
        309 => Some(vec![Slot { kind: OperandKind::Id, repeat: Repeat::One }, Slot { kind: OperandKind::Id, repeat: Repeat::One }, Slot { kind: OperandKind::Enum(EnumKind::ImageOperands), repeat: Repeat::Optional }]),
        310 => Some(vec![Slot { kind: OperandKind::Id, repeat: Repeat::One }, Slot { kind: OperandKind::Id, repeat: Repeat::One }, Slot { kind: OperandKind::Enum(EnumKind::ImageOperands), repeat: Repeat::One }]),
        311 => Some(vec![Slot { kind: OperandKind::Id, repeat: Repeat::One }, Slot { kind: OperandKind::Id, repeat: Repeat::One }, Slot { kind: OperandKind::Id, repeat: Repeat::One }, Slot { kind: OperandKind::Enum(EnumKind::ImageOperands), repeat: Repeat::Optional }]),
        312 => Some(vec![Slot { kind: OperandKind::Id, repeat: Repeat::One }, Slot { kind: OperandKind::Id, repeat: Repeat::One }, Slot { kind: OperandKind::Id, repeat: Repeat::One }, Slot { kind: OperandKind::Enum(EnumKind::ImageOperands), repeat: Repeat::One }]),
        313 => Some(vec![Slot { kind: OperandKind::Id, repeat: Repeat::One }, Slot { kind: OperandKind::Id, repeat: Repeat::One }, Slot { kind: OperandKind::Enum(EnumKind::ImageOperands), repeat: Repeat::Optional }]),
        314 => Some(vec![Slot { kind: OperandKind::Id, repeat: Repeat::One }, Slot { kind: OperandKind::Id, repeat: Repeat::One }, Slot { kind: OperandKind::Id, repeat: Repeat::One }, Slot { kind: OperandKind::Enum(EnumKind::ImageOperands), repeat: Repeat::Optional }]),
        315 => Some(vec![Slot { kind: OperandKind::Id, repeat: Repeat::One }, Slot { kind: OperandKind::Id, repeat: Repeat::One }, Slot { kind: OperandKind::Id, repeat: Repeat::One }, Slot { kind: OperandKind::Enum(EnumKind::ImageOperands), repeat: Repeat::Optional }]),
        316 => Some(vec![Slot { kind: OperandKind::Id, repeat: Repeat::One }]),
        317 => Some(vec![]),
        318 => Some(vec![Slot { kind: OperandKind::Id, repeat: Repeat::One }, Slot { kind: OperandKind::Id, repeat: Repeat::One }, Slot { kind: OperandKind::Id, repeat: Repeat::One }]),
        319 => Some(vec![Slot { kind: OperandKind::Id, repeat: Repeat::One }, Slot { kind: OperandKind::Id, repeat: Repeat::One }, Slot { kind: OperandKind::Id, repeat: Repeat::One }]),
        320 => Some(vec![Slot { kind: OperandKind::Id, repeat: Repeat::One }, Slot { kind: OperandKind::Id, repeat: Repeat::One }, Slot { kind: OperandKind::Enum(EnumKind::ImageOperands), repeat: Repeat::Optional }]),
        321 => Some(vec![Slot { kind: OperandKind::Id, repeat: Repeat::One }]),
        322 => Some(vec![]),
        323 => Some(vec![Slot { kind: OperandKind::U32, repeat: Repeat::One }, Slot { kind: OperandKind::U32, repeat: Repeat::One }, Slot { kind: OperandKind::U32, repeat: Repeat::One }]),
        324 => Some(vec![Slot { kind: OperandKind::Id, repeat: Repeat::One }]),
        325 => Some(vec![Slot { kind: OperandKind::Id, repeat: Repeat::One }, Slot { kind: OperandKind::Id, repeat: Repeat::One }, Slot { kind: OperandKind::Id, repeat: Repeat::One }, Slot { kind: OperandKind::Id, repeat: Repeat::One }, Slot { kind: OperandKind::Id, repeat: Repeat::One }]),
        326 => Some(vec![Slot { kind: OperandKind::Id, repeat: Repeat::One }, Slot { kind: OperandKind::Id, repeat: Repeat::One }, Slot { kind: OperandKind::Id, repeat: Repeat::One }, Slot { kind: OperandKind::Id, repeat: Repeat::One }]),
        _ => None,
    }
}

fn opcode_slot_list_5(op: u32) -> (r: Option<Vec<Slot>>)
    requires
        327 <= op <= 4449,
    ensures
        match r {
            Some(v) => opcode_slots(op) == Some(v@),
            None => opcode_slots(op) is None,
        },
{
    match op {
        327 => Some(vec![]),
        328 => Some(vec![Slot { kind: OperandKind::Id, repeat: Repeat::One }]),
        329 => Some(vec![Slot { kind: OperandKind::Id, repeat: Repeat::One }, Slot { kind: OperandKind::Id, repeat: Repeat::One }, Slot { kind: OperandKind::Id, repeat: Repeat::One }]),
        330 => Some(vec![Slot { kind: OperandKind::Str, repeat: Repeat::One }]),
        331 => Some(vec![Slot { kind: OperandKind::Id, repeat: Repeat::One }, Slot { kind: OperandKind::Enum(EnumKind::ExecutionMode), repeat: Repeat::One }]),
        332 => Some(vec![Slot { kind: OperandKind::Id, repeat: Repeat::One }, Slot { kind: OperandKind::Enum(EnumKind::Decoration), repeat: Repeat::One }]),
        333 => Some(vec![Slot { kind: OperandKind::Id, repeat: Repeat::One }]),
        334 => Some(vec![Slot { kind: OperandKind::Id, repeat: Repeat::One }, Slot { kind: OperandKind::Id, repeat: Repeat::One }]),
        335 => Some(vec![Slot { kind: OperandKind::Id, repeat: Repeat::One }, Slot { kind: OperandKind::Id, repeat: Repeat::One }]),
        336 => Some(vec![Slot { kind: OperandKind::Id, repeat: Repeat::One }, Slot { kind: OperandKind::Id, repeat: Repeat::One }]),
        337 => Some(vec![Slot { kind: OperandKind::Id, repeat: Repeat::One }, Slot { kind: OperandKind::Id, repeat: Repeat::One }, Slot { kind: OperandKind::Id, repeat: Repeat::One }]),
        338 => Some(vec![Slot { kind: OperandKind::Id, repeat: Repeat::One }, Slot { kind: OperandKind::Id, repeat: Repeat::One }]),
        339 => Some(vec![Slot { kind: OperandKind::Id, repeat: Repeat::One }, Slot { kind: OperandKind::Id, repeat: Repeat::One }]),
        340 => Some(vec![Slot { kind: OperandKind::Id, repeat: Repeat::One }, Slot { kind: OperandKind::Id, repeat: Repeat::One }]),
        341 => Some(vec![Slot { kind: OperandKind::Id, repeat: Repeat::One }, Slot { kind: OperandKind::Id, repeat: Repeat::One }, Slot { kind: OperandKind::Id, repeat: Repeat::One }]),
        342 => Some(vec![Slot { kind: OperandKind::Id, repeat: Repeat::One }, Slot { kind: OperandKind::Enum(EnumKind::GroupOperation), repeat: Repeat::One }, Slot { kind: OperandKind::Id, repeat: Repeat::One }]),
        343 => Some(vec![Slot { kind: OperandKind::Id, repeat: Repeat::One }, Slot { kind: OperandKind::Id, repeat: Repeat::One }]),
        344 => Some(vec![Slot { kind: OperandKind::Id, repeat: Repeat::One }, Slot { kind: OperandKind::Id, repeat: Repeat::One }]),
        345 => Some(vec![Slot { kind: OperandKind::Id, repeat: Repeat::One }, Slot { kind: OperandKind::Id, repeat: Repeat::One }, Slot { kind: OperandKind::Id, repeat: Repeat::One }]),
        346 => Some(vec![Slot { kind: OperandKind::Id, repeat: Repeat::One }, Slot { kind: OperandKind::Id, repeat: Repeat::One }, Slot { kind: OperandKind::Id, repeat: Repeat::One }]),
        347 => Some(vec![Slot { kind: OperandKind::Id, repeat: Repeat::One }, Slot { kind: OperandKind::Id, repeat: Repeat::One }, Slot { kind: OperandKind::Id, repeat: Repeat::One }]),
        348 => Some(vec![Slot { kind: OperandKind::Id, repeat: Repeat::One }, Slot { kind: OperandKind::Id, repeat: Repeat::One }, Slot { kind: OperandKind::Id, repeat: Repeat::One }]),
        349 => Some(vec![Slot { kind: OperandKind::Id, repeat: Repeat::One }, Slot { kind: OperandKind::Enum(EnumKind::GroupOperation), repeat: Repeat::One }, Slot { kind: OperandKind::Id, repeat: Repeat::One }, Slot { kind: OperandKind::Id, repeat: Repeat::Optional }]),
        350 => Some(vec![Slot { kind: OperandKind::Id, repeat: Repeat::One }, Slot { kind: OperandKind::Enum(EnumKind::GroupOperation), repeat: Repeat::One }, Slot { kind: OperandKind::Id, repeat: Repeat::One }, Slot { kind: OperandKind::Id, repeat: Repeat::Optional }]),
        351 => Some(vec![Slot { kind: OperandKind::Id, repeat: Repeat::One }, Slot { kind: OperandKind::Enum(EnumKind::GroupOperation), repeat: Repeat::One }, Slot { kind: OperandKind::Id, repeat: Repeat::One }, Slot { kind: OperandKind::Id, repeat: Repeat::Optional }]),
        352 => Some(vec![Slot { kind: OperandKind::Id, repeat: Repeat::One }, Slot { kind: OperandKind::Enum(EnumKind::GroupOperation), repeat: Repeat::One }, Slot { kind: OperandKind::Id, repeat: Repeat::One }, Slot { kind: OperandKind::Id, repeat: Repeat::Optional }]),
        353 => Some(vec![Slot { kind: OperandKind::Id, repeat: Repeat::One }, Slot { kind: OperandKind::Enum(EnumKind::GroupOperation), repeat: Repeat::One }, Slot { kind: OperandKind::Id, repeat: Repeat::One }, Slot { kind: OperandKind::Id, repeat: Repeat::Optional }]),
        354 => Some(vec![Slot { kind: OperandKind::Id, repeat: Repeat::One }, Slot { kind: OperandKind::Enum(EnumKind::GroupOperation), repeat: Repeat::One }, Slot { kind: OperandKind::Id, repeat: Repeat::One }, Slot { kind: OperandKind::Id, repeat: Repeat::Optional }]),
        355 => Some(vec![Slot { kind: OperandKind::Id, repeat: Repeat::One }, Slot { kind: OperandKind::Enum(EnumKind::GroupOperation), repeat: Repeat::One }, Slot { kind: OperandKind::Id, repeat: Repeat::One }, Slot { kind: OperandKind::Id, repeat: Repeat::Optional }]),
        356 => Some(vec![Slot { kind: OperandKind::Id, repeat: Repeat::One }, Slot { kind: OperandKind::Enum(EnumKind::GroupOperation), repeat: Repeat::One }, Slot { kind: OperandKind::Id, repeat: Repeat::One }, Slot { kind: OperandKind::Id, repeat: Repeat::Optional }]),
        357 => Some(vec![Slot { kind: OperandKind::Id, repeat: Repeat::One }, Slot { kind: OperandKind::Enum(EnumKind::GroupOperation), repeat: Repeat::One }, Slot { kind: OperandKind::Id, repeat: Repeat::One }, Slot { kind: OperandKind::Id, repeat: Repeat::Optional }]),
        358 => Some(vec![Slot { kind: OperandKind::Id, repeat: Repeat::One }, Slot { kind: OperandKind::Enum(EnumKind::GroupOperation), repeat: Repeat::One }, Slot { kind: OperandKind::Id, repeat: Repeat::One }, Slot { kind: OperandKind::Id, repeat: Repeat::Optional }]),
        359 => Some(vec![Slot { kind: OperandKind::Id, repeat: Repeat::One }, Slot { kind: OperandKind::Enum(EnumKind::GroupOperation), repeat: Repeat::One }, Slot { kind: OperandKind::Id, repeat: Repeat::One }, Slot { kind: OperandKind::Id, repeat: Repeat::Optional }]),
        360 => Some(vec![Slot { kind: OperandKind::Id, repeat: Repeat::One }, Slot { kind: OperandKind::Enum(EnumKind::GroupOperation), repeat: Repeat::One }, Slot { kind: OperandKind::Id, repeat: Repeat::One }, Slot { kind: OperandKind::Id, repeat: Repeat::Optional }]),
        361 => Some(vec![Slot { kind: OperandKind::Id, repeat: Repeat::One }, Slot { kind: OperandKind::Enum(EnumKind::GroupOperation), repeat: Repeat::One }, Slot { kind: OperandKind::Id, repeat: Repeat::One }, Slot { kind: OperandKind::Id, repeat: Repeat::Optional }]),
        362 => Some(vec![Slot { kind: OperandKind::Id, repeat: Repeat::One }, Slot { kind: OperandKind::Enum(EnumKind::GroupOperation), repeat: Repeat::One }, Slot { kind: OperandKind::Id, repeat: Repeat::One }, Slot { kind: OperandKind::Id, repeat: Repeat::Optional }]),
        363 => Some(vec![Slot { kind: OperandKind::Id, repeat: Repeat::One }, Slot { kind: OperandKind::Enum(EnumKind::GroupOperation), repeat: Repeat::One }, Slot { kind: OperandKind::Id, repeat: Repeat::One }, Slot { kind: OperandKind::Id, repeat: Repeat::Optional }]),
        364 => Some(vec![Slot { kind: OperandKind::Id, repeat: Repeat::One }, Slot { kind: OperandKind::Enum(EnumKind::GroupOperation), repeat: Repeat::One }, Slot { kind: OperandKind::Id, repeat: Repeat::One }, Slot { kind: OperandKind::Id, repeat: Repeat::Optional }]),
        365 => Some(vec![Slot { kind: OperandKind::Id, repeat: Repeat::One }, Slot { kind: OperandKind::Id, repeat: Repeat::One }, Slot { kind: OperandKind::Id, repeat: Repeat::One }]),
        366 => Some(vec![Slot { kind: OperandKind::Id, repeat: Repeat::One }, Slot { kind: OperandKind::Id, repeat: Repeat::One }, Slot { kind: OperandKind::Id, repeat: Repeat::One }]),
        400 => Some(vec![Slot { kind: OperandKind::Id, repeat: Repeat::One }]),
        401 => Some(vec![Slot { kind: OperandKind::Id, repeat: Repeat::One }, Slot { kind: OperandKind::Id, repeat: Repeat::One }]),
        402 => Some(vec![Slot { kind: OperandKind::Id, repeat: Repeat::One }, Slot { kind: OperandKind::Id, repeat: Repeat::One }]),
        403 => Some(vec![Slot { kind: OperandKind::Id, repeat: Repeat::One }, Slot { kind: OperandKind::Id, repeat: Repeat::One }]),
        4160 => Some(vec![Slot { kind: OperandKind::Id, repeat: Repeat::One }, Slot { kind: OperandKind::Id, repeat: Repeat::Optional }]),
        4161 => Some(vec![Slot { kind: OperandKind::Id, repeat: Repeat::Optional }]),
        4162 => Some(vec![Slot { kind: OperandKind::Id, repeat: Repeat::Optional }]),
        4416 => Some(vec![]),
        4421 => Some(vec![Slot { kind: OperandKind::Id, repeat: Repeat::One }]),
        4422 => Some(vec![Slot { kind: OperandKind::Id, repeat: Repeat::One }]),
        4428 => Some(vec![Slot { kind: OperandKind::Id, repeat: Repeat::One }]),
        4429 => Some(vec![Slot { kind: OperandKind::Id, repeat: Repeat::One }]),
        4430 => Some(vec![Slot { kind: OperandKind::Id, repeat: Repeat::One }]),
        4431 => Some(vec![Slot { kind: OperandKind::Id, repeat: Repeat::One }, Slot { kind: OperandKind::Id, repeat: Repeat::One }, Slot { kind: OperandKind::Id, repeat: Repeat::One }, Slot { kind: OperandKind::Id, repeat: Repeat::Optional }]),
        4432 => Some(vec![Slot { kind: OperandKind::Id, repeat: Repeat::One }, Slot { kind: OperandKind::Id, repeat: Repeat::One }]),
        4445 => Some(vec![Slot { kind: OperandKind::Id, repeat: Repeat::One }, Slot { kind: OperandKind::Id, repeat: Repeat::One }, Slot { kind: OperandKind::Id, repeat: Repeat::One }, Slot { kind: OperandKind::Id, repeat: Repeat::One }, Slot { kind: OperandKind::Id, repeat: Repeat::One }, Slot { kind: OperandKind::Id, repeat: Repeat::One }, Slot { kind: OperandKind::Id, repeat: Repeat::One }, Slot { kind: OperandKind::Id, repeat: Repeat::One }, Slot { kind: OperandKind::Id, repeat: Repeat::One }, Slot { kind: OperandKind::Id, repeat: Repeat::One }, Slot { kind: OperandKind::Id, repeat: Repeat::One }]),
        4446 => Some(vec![Slot { kind: OperandKind::Id, repeat: Repeat::One }, Slot { kind: OperandKind::Id, repeat: Repeat::One }]),
        4447 => Some(vec![Slot { kind: OperandKind::Id, repeat: Repeat::One }]),
        4448 => Some(vec![]),
        4449 => Some(vec![]),
        _ => None,
    }
}

fn opcode_slot_list_6(op: u32) -> (r: Option<Vec<Slot>>)
    requires
        4450 <= op <= 5272,
    ensures
        match r {
            Some(v) => opcode_slots(op) == Some(v@),
            None => opcode_slots(op) is None,
        },
{
    match op {
        4450 => Some(vec![Slot { kind: OperandKind::Id, repeat: Repeat::One }, Slot { kind: OperandKind::Id, repeat: Repeat::One }, Slot { kind: OperandKind::Enum(EnumKind::PackedVectorFormat), repeat: Repeat::Optional }]),
        4451 => Some(vec![Slot { kind: OperandKind::Id, repeat: Repeat::One }, Slot { kind: OperandKind::Id, repeat: Repeat::One }, Slot { kind: OperandKind::Enum(EnumKind::PackedVectorFormat), repeat: Repeat::Optional }]),
        4452 => Some(vec![Slot { kind: OperandKind::Id, repeat: Repeat::One }, Slot { kind: OperandKind::Id, repeat: Repeat::One }, Slot { kind: OperandKind::Enum(EnumKind::PackedVectorFormat), repeat: Repeat::Optional }]),
        4453 => Some(vec![Slot { kind: OperandKind::Id, repeat: Repeat::One }, Slot { kind: OperandKind::Id, repeat: Repeat::One }, Slot { kind: OperandKind::Id, repeat: Repeat::One }, Slot { kind: OperandKind::Enum(EnumKind::PackedVectorFormat), repeat: Repeat::Optional }]),
        4454 => Some(vec![Slot { kind: OperandKind::Id, repeat: Repeat::One }, Slot { kind: OperandKind::Id, repeat: Repeat::One }, Slot { kind: OperandKind::Id, repeat: Repeat::One }, Slot { kind: OperandKind::Enum(EnumKind::PackedVectorFormat), repeat: Repeat::Optional }]),
        4455 => Some(vec![Slot { kind: OperandKind::Id, repeat: Repeat::One }, Slot { kind: OperandKind::Id, repeat: Repeat::One }, Slot { kind: OperandKind::Id, repeat: Repeat::One }, Slot { kind: OperandKind::Enum(EnumKind::PackedVectorFormat), repeat: Repeat::Optional }]),
        4456 => Some(vec![Slot { kind: OperandKind::Id, repeat: Repeat::One }, Slot { kind: OperandKind::Id, repeat: Repeat::One }, Slot { kind: OperandKind::Id, repeat: Repeat::One }, Slot { kind: OperandKind::Id, repeat: Repeat::One }, Slot { kind: OperandKind::Id, repeat: Repeat::One }]),
        4457 => Some(vec![Slot { kind: OperandKind::Id, repeat: Repeat::One }, Slot { kind: OperandKind::Id, repeat: Repeat::One }, Slot { kind: OperandKind::Id, repeat: Repeat::Optional }, Slot { kind: OperandKind::Enum(EnumKind::MemoryAccess), repeat: Repeat::Optional }]),
        4458 => Some(vec![Slot { kind: OperandKind::Id, repeat: Repeat::One }, Slot { kind: OperandKind::Id, repeat: Repeat::One }, Slot { kind: OperandKind::Id, repeat: Repeat::One }, Slot { kind: OperandKind::Id, repeat: Repeat::Optional }, Slot { kind: OperandKind::Enum(EnumKind::MemoryAccess), repeat: Repeat::Optional }]),
        4459 => Some(vec![Slot { kind: OperandKind::Id, repeat: Repeat::One }, Slot { kind: OperandKind::Id, repeat: Repeat::One }, Slot { kind: OperandKind::Id, repeat: Repeat::One }, Slot { kind: OperandKind::Enum(EnumKind::CooperativeMatrixOperands), repeat: Repeat::Optional }]),
        4460 => Some(vec![Slot { kind: OperandKind::Id, repeat: Repeat::One }]),
        4472 => Some(vec![]),
        4473 => Some(vec![Slot { kind: OperandKind::Id, repeat: Repeat::One }, Slot { kind: OperandKind::Id, repeat: Repeat::One }, Slot { kind: OperandKind::Id, repeat: Repeat::One }, Slot { kind: OperandKind::Id, repeat: Repeat::One }, Slot { kind: OperandKind::Id, repeat: Repeat::One }, Slot { kind: OperandKind::Id, repeat: Repeat::One }, Slot { kind: OperandKind::Id, repeat: Repeat::One }, Slot { kind: OperandKind::Id, repeat: Repeat::One }]),
        4474 => Some(vec![Slot { kind: OperandKind::Id, repeat: Repeat::One }]),
        4475 => Some(vec![Slot { kind: OperandKind::Id, repeat: Repeat::One }, Slot { kind: OperandKind::Id, repeat: Repeat::One }]),
        4476 => Some(vec![Slot { kind: OperandKind::Id, repeat: Repeat::One }]),
        4477 => Some(vec![Slot { kind: OperandKind::Id, repeat: Repeat::One }]),
        4479 => Some(vec![Slot { kind: OperandKind::Id, repeat: Repeat::One }, Slot { kind: OperandKind::Id, repeat: Repeat::One }]),
        4480 => Some(vec![Slot { kind: OperandKind::Id, repeat: Repeat::One }, Slot { kind: OperandKind::Id, repeat: Repeat::One }, Slot { kind: OperandKind::Id, repeat: Repeat::One }]),
        4481 => Some(vec![Slot { kind: OperandKind::Id, repeat: Repeat::One }, Slot { kind: OperandKind::Id, repeat: Repeat::One }, Slot { kind: OperandKind::Id, repeat: Repeat::One }]),
        4482 => Some(vec![Slot { kind: OperandKind::Id, repeat: Repeat::One }, Slot { kind: OperandKind::Id, repeat: Repeat::One }, Slot { kind: OperandKind::Id, repeat: Repeat::One }, Slot { kind: OperandKind::Id, repeat: Repeat::One }, Slot { kind: OperandKind::Id, repeat: Repeat::One }]),
        4483 => Some(vec![Slot { kind: OperandKind::Id, repeat: Repeat::One }, Slot { kind: OperandKind::Id, repeat: Repeat::One }, Slot { kind: OperandKind::Id, repeat: Repeat::One }, Slot { kind: OperandKind::Id, repeat: Repeat::One }, Slot { kind: OperandKind::Id, repeat: Repeat::One }]),
        5000 => Some(vec![Slot { kind: OperandKind::Id, repeat: Repeat::One }, Slot { kind: OperandKind::Enum(EnumKind::GroupOperation), repeat: Repeat::One }, Slot { kind: OperandKind::Id, repeat: Repeat::One }]),
        5001 => Some(vec![Slot { kind: OperandKind::Id, repeat: Repeat::One }, Slot { kind: OperandKind::Enum(EnumKind::GroupOperation), repeat: Repeat::One }, Slot { kind: OperandKind::Id, repeat: Repeat::One }]),
        5002 => Some(vec![Slot { kind: OperandKind::Id, repeat: Repeat::One }, Slot { kind: OperandKind::Enum(EnumKind::GroupOperation), repeat: Repeat::One }, Slot { kind: OperandKind::Id, repeat: Repeat::One }]),
        5003 => Some(vec![Slot { kind: OperandKind::Id, repeat: Repeat::One }, Slot { kind: OperandKind::Enum(EnumKind::GroupOperation), repeat: Repeat::One }, Slot { kind: OperandKind::Id, repeat: Repeat::One }]),
        5004 => Some(vec![Slot { kind: OperandKind::Id, repeat: Repeat::One }, Slot { kind: OperandKind::Enum(EnumKind::GroupOperation), repeat: Repeat::One }, Slot { kind: OperandKind::Id, repeat: Repeat::One }]),
        5005 => Some(vec![Slot { kind: OperandKind::Id, repeat: Repeat::One }, Slot { kind: OperandKind::Enum(EnumKind::GroupOperation), repeat: Repeat::One }, Slot { kind: OperandKind::Id, repeat: Repeat::One }]),
        5006 => Some(vec![Slot { kind: OperandKind::Id, repeat: Repeat::One }, Slot { kind: OperandKind::Enum(EnumKind::GroupOperation), repeat: Repeat::One }, Slot { kind: OperandKind::Id, repeat: Repeat::One }]),
        5007 => Some(vec![Slot { kind: OperandKind::Id, repeat: Repeat::One }, Slot { kind: OperandKind::Enum(EnumKind::GroupOperation), repeat: Repeat::One }, Slot { kind: OperandKind::Id, repeat: Repeat::One }]),
        5011 => Some(vec![Slot { kind: OperandKind::Id, repeat: Repeat::One }, Slot { kind: OperandKind::Id, repeat: Repeat::One }]),
        5012 => Some(vec![Slot { kind: OperandKind::Id, repeat: Repeat::One }, Slot { kind: OperandKind::Id, repeat: Repeat::One }, Slot { kind: OperandKind::Id, repeat: Repeat::One }]),
        5056 => Some(vec![Slot { kind: OperandKind::Id, repeat: Repeat::One }]),
        5075 => Some(vec![Slot { kind: OperandKind::Id, repeat: Repeat::One }]),
        5078 => Some(vec![Slot { kind: OperandKind::Id, repeat: Repeat::One }]),
        5090 => Some(vec![Slot { kind: OperandKind::Id, repeat: Repeat::One }, Slot { kind: OperandKind::Id, repeat: Repeat::One }, Slot { kind: OperandKind::Id, repeat: Repeat::One }, Slot { kind: OperandKind::Id, repeat: Repeat::One }]),
        5249 => Some(vec![Slot { kind: OperandKind::Id, repeat: Repeat::One }, Slot { kind: OperandKind::Id, repeat: Repeat::One }, Slot { kind: OperandKind::Id, repeat: Repeat::One }, Slot { kind: OperandKind::Id, repeat: Repeat::One }, Slot { kind: OperandKind::Id, repeat: Repeat::One }, Slot { kind: OperandKind::Id, repeat: Repeat::One }, Slot { kind: OperandKind::Id, repeat: Repeat::One }, Slot { kind: OperandKind::Id, repeat: Repeat::One }, Slot { kind: OperandKind::Id, repeat: Repeat::One }, Slot { kind: OperandKind::Id, repeat: Repeat::One }, Slot { kind: OperandKind::Id, repeat: Repeat::One }, Slot { kind: OperandKind::Id, repeat: Repeat::One }, Slot { kind: OperandKind::Id, repeat: Repeat::One }, Slot { kind: OperandKind::Id, repeat: Repeat::One }]),
        5250 => Some(vec![Slot { kind: OperandKind::Id, repeat: Repeat::One }, Slot { kind: OperandKind::Id, repeat: Repeat::One }, Slot { kind: OperandKind::Id, repeat: Repeat::One }, Slot { kind: OperandKind::Id, repeat: Repeat::One }, Slot { kind: OperandKind::Id, repeat: Repeat::One }, Slot { kind: OperandKind::Id, repeat: Repeat::One }, Slot { kind: OperandKind::Id, repeat: Repeat::One }, Slot { kind: OperandKind::Id, repeat: Repeat::One }, Slot { kind: OperandKind::Id, repeat: Repeat::One }, Slot { kind: OperandKind::Id, repeat: Repeat::One }, Slot { kind: OperandKind::Id, repeat: Repeat::One }, Slot { kind: OperandKind::Id, repeat: Repeat::One }, Slot { kind: OperandKind::Id, repeat: Repeat::One }]),
        5251 => Some(vec![Slot { kind: OperandKind::Id, repeat: Repeat::One }, Slot { kind: OperandKind::Id, repeat: Repeat::One }, Slot { kind: OperandKind::Id, repeat: Repeat::One }, Slot { kind: OperandKind::Id, repeat: Repeat::One }, Slot { kind: OperandKind::Id, repeat: Repeat::One }, Slot { kind: OperandKind::Id, repeat: Repeat::One }, Slot { kind: OperandKind::Id, repeat: Repeat::One }]),
        5252 => Some(vec![Slot { kind: OperandKind::Id, repeat: Repeat::One }]),
        5253 => Some(vec![Slot { kind: OperandKind::Id, repeat: Repeat::One }]),
        5254 => Some(vec![Slot { kind: OperandKind::Id, repeat: Repeat::One }]),
        5255 => Some(vec![Slot { kind: OperandKind::Id, repeat: Repeat::One }]),
        5256 => Some(vec![Slot { kind: OperandKind::Id, repeat: Repeat::One }, Slot { kind: OperandKind::Id, repeat: Repeat::One }, Slot { kind: OperandKind::Id, repeat: Repeat::One }, Slot { kind: OperandKind::Id, repeat: Repeat::One }, Slot { kind: OperandKind::Id, repeat: Repeat::One }, Slot { kind: OperandKind::Id, repeat: Repeat::One }, Slot { kind: OperandKind::Id, repeat: Repeat::One }, Slot { kind: OperandKind::Id, repeat: Repeat::One }, Slot { kind: OperandKind::Id, repeat: Repeat::One }, Slot { kind: OperandKind::Id, repeat: Repeat::One }, Slot { kind: OperandKind::Id, repeat: Repeat::One }, Slot { kind: OperandKind::Id, repeat: Repeat::One }, Slot { kind: OperandKind::Id, repeat: Repeat::One }]),
        5257 => Some(vec![Slot { kind: OperandKind::Id, repeat: Repeat::One }]),
        5258 => Some(vec![Slot { kind: OperandKind::Id, repeat: Repeat::One }]),
        5259 => Some(vec![Slot { kind: OperandKind::Id, repeat: Repeat::One }]),
        5260 => Some(vec![Slot { kind: OperandKind::Id, repeat: Repeat::One }, Slot { kind: OperandKind::Id, repeat: Repeat::One }, Slot { kind: OperandKind::Id, repeat: Repeat::One }, Slot { kind: OperandKind::Id, repeat: Repeat::One }, Slot { kind: OperandKind::Id, repeat: Repeat::One }, Slot { kind: OperandKind::Id, repeat: Repeat::One }, Slot { kind: OperandKind::Id, repeat: Repeat::One }, Slot { kind: OperandKind::Id, repeat: Repeat::One }, Slot { kind: OperandKind::Id, repeat: Repeat::One }, Slot { kind: OperandKind::Id, repeat: Repeat::One }, Slot { kind: OperandKind::Id, repeat: Repeat::One }, Slot { kind: OperandKind::Id, repeat: Repeat::One }]),
        5261 => Some(vec![Slot { kind: OperandKind::Id, repeat: Repeat::One }, Slot { kind: OperandKind::Id, repeat: Repeat::One }, Slot { kind: OperandKind::Id, repeat: Repeat::One }, Slot { kind: OperandKind::Id, repeat: Repeat::One }, Slot { kind: OperandKind::Id, repeat: Repeat::One }, Slot { kind: OperandKind::Id, repeat: Repeat::One }, Slot { kind: OperandKind::Id, repeat: Repeat::One }, Slot { kind: OperandKind::Id, repeat: Repeat::One }, Slot { kind: OperandKind::Id, repeat: Repeat::One }, Slot { kind: OperandKind::Id, repeat: Repeat::One }, Slot { kind: OperandKind::Id, repeat: Repeat::One }, Slot { kind: OperandKind::Id, repeat: Repeat::One }, Slot { kind: OperandKind::Id, repeat: Repeat::One }]),
        5262 => Some(vec![Slot { kind: OperandKind::Id, repeat: Repeat::One }, Slot { kind: OperandKind::Id, repeat: Repeat::One }, Slot { kind: OperandKind::Id, repeat: Repeat::One }, Slot { kind: OperandKind::Id, repeat: Repeat::One }, Slot { kind: OperandKind::Id, repeat: Repeat::One }, Slot { kind: OperandKind::Id, repeat: Repeat::One }, Slot { kind: OperandKind::Id, repeat: Repeat::One }, Slot { kind: OperandKind::Id, repeat: Repeat::One }, Slot { kind: OperandKind::Id, repeat: Repeat::One }, Slot { kind: OperandKind::Id, repeat: Repeat::One }, Slot { kind: OperandKind::Id, repeat: Repeat::One }, Slot { kind: OperandKind::Id, repeat: Repeat::One }]),
        5263 => Some(vec![Slot { kind: OperandKind::Id, repeat: Repeat::One }, Slot { kind: OperandKind::Id, repeat: Repeat::One }, Slot { kind: OperandKind::Id, repeat: Repeat::One }, Slot { kind: OperandKind::Id, repeat: Repeat::One }, Slot { kind: OperandKind::Id, repeat: Repeat::One }, Slot { kind: OperandKind::Id, repeat: Repeat::One }]),
        5264 => Some(vec![Slot { kind: OperandKind::Id, repeat: Repeat::One }, Slot { kind: OperandKind::Id, repeat: Repeat::One }]),
        5265 => Some(vec![Slot { kind: OperandKind::Id, repeat: Repeat::One }]),
        5266 => Some(vec![Slot { kind: OperandKind::Id, repeat: Repeat::One }, Slot { kind: OperandKind::Id, repeat: Repeat::One }]),
        5267 => Some(vec![Slot { kind: OperandKind::Id, repeat: Repeat::One }]),
        5268 => Some(vec![Slot { kind: OperandKind::Id, repeat: Repeat::One }]),
        5269 => Some(vec![Slot { kind: OperandKind::Id, repeat: Repeat::One }]),
        5270 => Some(vec![Slot { kind: OperandKind::Id, repeat: Repeat::One }]),
        5271 => Some(vec![Slot { kind: OperandKind::Id, repeat: Repeat::One }]),
        5272 => Some(vec![Slot { kind: OperandKind::Id, repeat: Repeat::One }]),
        _ => None,
    }
}

fn opcode_slot_list_7(op: u32) -> (r: Option<Vec<Slot>>)
    requires
        5273 <= op <= 5593,
    ensures
        match r {
            Some(v) => opcode_slots(op) == Some(v@),
            None => opcode_slots(op) is None,
        },
{
    match op {
        5273 => Some(vec![Slot { kind: OperandKind::Id, repeat: Repeat::One }]),
        5274 => Some(vec![Slot { kind: OperandKind::Id, repeat: Repeat::One }]),
        5275 => Some(vec![Slot { kind: OperandKind::Id, repeat: Repeat::One }]),
        5276 => Some(vec![Slot { kind: OperandKind::Id, repeat: Repeat::One }]),
        5277 => Some(vec![Slot { kind: OperandKind::Id, repeat: Repeat::One }]),
        5278 => Some(vec![Slot { kind: OperandKind::Id, repeat: Repeat::One }]),
        5279 => Some(vec![Slot { kind: OperandKind::Id, repeat: Repeat::One }, Slot { kind: OperandKind::Id, repeat: Repeat::Optional }, Slot { kind: OperandKind::Id, repeat: Repeat::Optional }]),
        5280 => Some(vec![Slot { kind: OperandKind::Id, repeat: Repeat::One }, Slot { kind: OperandKind::Id, repeat: Repeat::One }]),
        5281 => Some(vec![]),
        5283 => Some(vec![Slot { kind: OperandKind::Id, repeat: Repeat::One }, Slot { kind: OperandKind::Id, repeat: Repeat::One }, Slot { kind: OperandKind::Id, repeat: Repeat::One }, Slot { kind: OperandKind::Id, repeat: Repeat::One }, Slot { kind: OperandKind::Enum(EnumKind::ImageOperands), repeat: Repeat::Optional }]),
        5294 => Some(vec![Slot { kind: OperandKind::Id, repeat: Repeat::One }, Slot { kind: OperandKind::Id, repeat: Repeat::One }, Slot { kind: OperandKind::Id, repeat: Repeat::One }, Slot { kind: OperandKind::Id, repeat: Repeat::Optional }]),
        5295 => Some(vec![Slot { kind: OperandKind::Id, repeat: Repeat::One }, Slot { kind: OperandKind::Id, repeat: Repeat::One }]),
        5296 => Some(vec![Slot { kind: OperandKind::Id, repeat: Repeat::One }]),
        5299 => Some(vec![Slot { kind: OperandKind::Id, repeat: Repeat::One }, Slot { kind: OperandKind::Id, repeat: Repeat::One }]),
        5300 => Some(vec![Slot { kind: OperandKind::Id, repeat: Repeat::One }, Slot { kind: OperandKind::Id, repeat: Repeat::One }, Slot { kind: OperandKind::Id, repeat: Repeat::One }, Slot { kind: OperandKind::Id, repeat: Repeat::One }, Slot { kind: OperandKind::Id, repeat: Repeat::One }]),
        5301 => Some(vec![Slot { kind: OperandKind::Id, repeat: Repeat::One }, Slot { kind: OperandKind::Id, repeat: Repeat::One }, Slot { kind: OperandKind::Id, repeat: Repeat::One }, Slot { kind: OperandKind::Id, repeat: Repeat::One }, Slot { kind: OperandKind::Id, repeat: Repeat::One }]),
        5334 => Some(vec![Slot { kind: OperandKind::Id, repeat: Repeat::One }, Slot { kind: OperandKind::Id, repeat: Repeat::One }]),
        5335 => Some(vec![]),
        5336 => Some(vec![]),
        5337 => Some(vec![Slot { kind: OperandKind::Id, repeat: Repeat::One }, Slot { kind: OperandKind::Id, repeat: Repeat::One }, Slot { kind: OperandKind::Id, repeat: Repeat::One }, Slot { kind: OperandKind::Id, repeat: Repeat::One }, Slot { kind: OperandKind::Id, repeat: Repeat::One }, Slot { kind: OperandKind::Id, repeat: Repeat::One }, Slot { kind: OperandKind::Id, repeat: Repeat::One }, Slot { kind: OperandKind::Id, repeat: Repeat::One }, Slot { kind: OperandKind::Id, repeat: Repeat::One }, Slot { kind: OperandKind::Id, repeat: Repeat::One }, Slot { kind: OperandKind::Id, repeat: Repeat::One }]),
        5338 => Some(vec![Slot { kind: OperandKind::Id, repeat: Repeat::One }, Slot { kind: OperandKind::Id, repeat: Repeat::One }, Slot { kind: OperandKind::Id, repeat: Repeat::One }, Slot { kind: OperandKind::Id, repeat: Repeat::One }, Slot { kind: OperandKind::Id, repeat: Repeat::One }, Slot { kind: OperandKind::Id, repeat: Repeat::One }, Slot { kind: OperandKind::Id, repeat: Repeat::One }, Slot { kind: OperandKind::Id, repeat: Repeat::One }, Slot { kind: OperandKind::Id, repeat: Repeat::One }, Slot { kind: OperandKind::Id, repeat: Repeat::One }, Slot { kind: OperandKind::Id, repeat: Repeat::One }, Slot { kind: OperandKind::Id, repeat: Repeat::One }]),
        5339 => Some(vec![Slot { kind: OperandKind::Id, repeat: Repeat::One }, Slot { kind: OperandKind::Id, repeat: Repeat::One }, Slot { kind: OperandKind::Id, repeat: Repeat::One }, Slot { kind: OperandKind::Id, repeat: Repeat::One }, Slot { kind: OperandKind::Id, repeat: Repeat::One }, Slot { kind: OperandKind::Id, repeat: Repeat::One }, Slot { kind: OperandKind::Id, repeat: Repeat::One }, Slot { kind: OperandKind::Id, repeat: Repeat::One }, Slot { kind: OperandKind::Id, repeat: Repeat::One }, Slot { kind: OperandKind::Id, repeat: Repeat::One }, Slot { kind: OperandKind::Id, repeat: Repeat::One }, Slot { kind: OperandKind::Id, repeat: Repeat::One }]),
        5340 => Some(vec![Slot { kind: OperandKind::Id, repeat: Repeat::One }, Slot { kind: OperandKind::Id, repeat: Repeat::One }]),
        5341 => Some(vec![]),
        5344 => Some(vec![Slot { kind: OperandKind::Id, repeat: Repeat::One }, Slot { kind: OperandKind::Id, repeat: Repeat::One }]),
        5358 => Some(vec![Slot { kind: OperandKind::Id, repeat: Repeat::One }, Slot { kind: OperandKind::Id, repeat: Repeat::One }, Slot { kind: OperandKind::Id, repeat: Repeat::One }, Slot { kind: OperandKind::Id, repeat: Repeat::One }]),
        5359 => Some(vec![Slot { kind: OperandKind::Id, repeat: Repeat::One }, Slot { kind: OperandKind::Id, repeat: Repeat::One }, Slot { kind: OperandKind::Id, repeat: Repeat::One }, Slot { kind: OperandKind::Enum(EnumKind::MemoryAccess), repeat: Repeat::Optional }]),
        5360 => Some(vec![Slot { kind: OperandKind::Id, repeat: Repeat::One }, Slot { kind: OperandKind::Id, repeat: Repeat::One }, Slot { kind: OperandKind::Id, repeat: Repeat::One }, Slot { kind: OperandKind::Id, repeat: Repeat::One }, Slot { kind: OperandKind::Enum(EnumKind::MemoryAccess), repeat: Repeat::Optional }]),
        5361 => Some(vec![Slot { kind: OperandKind::Id, repeat: Repeat::One }, Slot { kind: OperandKind::Id, repeat: Repeat::One }, Slot { kind: OperandKind::Id, repeat: Repeat::One }]),
        5362 => Some(vec![Slot { kind: OperandKind::Id, repeat: Repeat::One }]),
        5364 => Some(vec![]),
        5365 => Some(vec![]),
        5380 => Some(vec![]),
        5381 => Some(vec![]),
        5391 => Some(vec![Slot { kind: OperandKind::Id, repeat: Repeat::One }]),
        5392 => Some(vec![Slot { kind: OperandKind::Id, repeat: Repeat::One }]),
        5393 => Some(vec![Slot { kind: OperandKind::Id, repeat: Repeat::One }]),
        5394 => Some(vec![Slot { kind: OperandKind::Id, repeat: Repeat::One }]),
        5395 => Some(vec![Slot { kind: OperandKind::Id, repeat: Repeat::One }]),
        5396 => Some(vec![Slot { kind: OperandKind::Id, repeat: Repeat::One }]),
        5397 => Some(vec![Slot { kind: OperandKind::U32, repeat: Repeat::One }]),
        5571 => Some(vec![Slot { kind: OperandKind::Id, repeat: Repeat::One }, Slot { kind: OperandKind::Id, repeat: Repeat::One }]),
        5572 => Some(vec![Slot { kind: OperandKind::Id, repeat: Repeat::One }, Slot { kind: OperandKind::Id, repeat: Repeat::One }, Slot { kind: OperandKind::Id, repeat: Repeat::One }]),
        5573 => Some(vec![Slot { kind: OperandKind::Id, repeat: Repeat::One }, Slot { kind: OperandKind::Id, repeat: Repeat::One }, Slot { kind: OperandKind::Id, repeat: Repeat::One }]),
        5574 => Some(vec![Slot { kind: OperandKind::Id, repeat: Repeat::One }, Slot { kind: OperandKind::Id, repeat: Repeat::One }]),
        5575 => Some(vec![Slot { kind: OperandKind::Id, repeat: Repeat::One }]),
        5576 => Some(vec![Slot { kind: OperandKind::Id, repeat: Repeat::One }, Slot { kind: OperandKind::Id, repeat: Repeat::One }]),
        5577 => Some(vec![Slot { kind: OperandKind::Id, repeat: Repeat::One }, Slot { kind: OperandKind::Id, repeat: Repeat::One }]),
        5578 => Some(vec![Slot { kind: OperandKind::Id, repeat: Repeat::One }, Slot { kind: OperandKind::Id, repeat: Repeat::One }, Slot { kind: OperandKind::Id, repeat: Repeat::One }]),
        5580 => Some(vec![Slot { kind: OperandKind::Id, repeat: Repeat::One }, Slot { kind: OperandKind::Id, repeat: Repeat::One }, Slot { kind: OperandKind::Id, repeat: Repeat::One }, Slot { kind: OperandKind::Id, repeat: Repeat::One }]),
        5581 => Some(vec![Slot { kind: OperandKind::Id, repeat: Repeat::One }, Slot { kind: OperandKind::Id, repeat: Repeat::One }, Slot { kind: OperandKind::Id, repeat: Repeat::One }, Slot { kind: OperandKind::Id, repeat: Repeat::One }, Slot { kind: OperandKind::Id, repeat: Repeat::One }]),
        5585 => Some(vec![Slot { kind: OperandKind::Id, repeat: Repeat::One }]),
        5586 => Some(vec![Slot { kind: OperandKind::Id, repeat: Repeat::One }]),
        5587 => Some(vec![Slot { kind: OperandKind::Id, repeat: Repeat::One }, Slot { kind: OperandKind::Id, repeat: Repeat::One }]),
        5588 => Some(vec![Slot { kind: OperandKind::Id, repeat: Repeat::One }, Slot { kind: OperandKind::Id, repeat: Repeat::One }]),
        5589 => Some(vec![Slot { kind: OperandKind::Id, repeat: Repeat::One }, Slot { kind: OperandKind::Id, repeat: Repeat::One }]),
        5590 => Some(vec![Slot { kind: OperandKind::Id, repeat: Repeat::One }, Slot { kind: OperandKind::Id, repeat: Repeat::One }]),
        5591 => Some(vec![Slot { kind: OperandKind::Id, repeat: Repeat::One }, Slot { kind: OperandKind::Id, repeat: Repeat::One }]),
        5592 => Some(vec![Slot { kind: OperandKind::Id, repeat: Repeat::One }, Slot { kind: OperandKind::Id, repeat: Repeat::One }]),
        5593 => Some(vec![Slot { kind: OperandKind::Id, repeat: Repeat::One }, Slot { kind: OperandKind::Id, repeat: Repeat::One }]),
        _ => None,
    }
}

fn opcode_slot_list_8(op: u32) -> (r: Option<Vec<Slot>>)
    requires
        5594 <= op <= 5742,
    ensures
        match r {
            Some(v) => opcode_slots(op) == Some(v@),
            None => opcode_slots(op) is None,
        },
{
    match op {
        5594 => Some(vec![Slot { kind: OperandKind::Id, repeat: Repeat::One }, Slot { kind: OperandKind::Id, repeat: Repeat::One }]),
        5595 => Some(vec![Slot { kind: OperandKind::Id, repeat: Repeat::One }, Slot { kind: OperandKind::Id, repeat: Repeat::One }]),
        5596 => Some(vec![Slot { kind: OperandKind::Id, repeat: Repeat::One }, Slot { kind: OperandKind::Id, repeat: Repeat::One }]),
        5597 => Some(vec![Slot { kind: OperandKind::Id, repeat: Repeat::One }, Slot { kind: OperandKind::Id, repeat: Repeat::One }]),
        5598 => Some(vec![Slot { kind: OperandKind::Id, repeat: Repeat::One }, Slot { kind: OperandKind::Id, repeat: Repeat::One }]),
        5600 => Some(vec![Slot { kind: OperandKind::Id, repeat: Repeat::One }]),
        5601 => Some(vec![Slot { kind: OperandKind::Id, repeat: Repeat::Many }]),
        5609 => Some(vec![Slot { kind: OperandKind::Str, repeat: Repeat::One }]),
        5610 => Some(vec![Slot { kind: OperandKind::Id, repeat: Repeat::One }, Slot { kind: OperandKind::Id, repeat: Repeat::One }, Slot { kind: OperandKind::Str, repeat: Repeat::One }, Slot { kind: OperandKind::Str, repeat: Repeat::One }]),
        5611 => Some(vec![Slot { kind: OperandKind::Id, repeat: Repeat::One }, Slot { kind: OperandKind::Id, repeat: Repeat::Many }]),
        5614 => Some(vec![Slot { kind: OperandKind::Id, repeat: Repeat::One }, Slot { kind: OperandKind::Id, repeat: Repeat::One }, Slot { kind: OperandKind::Id, repeat: Repeat::One }, Slot { kind: OperandKind::Id, repeat: Repeat::One }]),
        5615 => Some(vec![Slot { kind: OperandKind::Id, repeat: Repeat::One }, Slot { kind: OperandKind::Id, repeat: Repeat::One }, Slot { kind: OperandKind::Id, repeat: Repeat::One }, Slot { kind: OperandKind::Id, repeat: Repeat::One }]),
        5630 => Some(vec![Slot { kind: OperandKind::Id, repeat: Repeat::One }]),
        5631 => Some(vec![Slot { kind: OperandKind::Id, repeat: Repeat::One }, Slot { kind: OperandKind::Id, repeat: Repeat::One }]),
        5632 => Some(vec![Slot { kind: OperandKind::Id, repeat: Repeat::One }, Slot { kind: OperandKind::Enum(EnumKind::Decoration), repeat: Repeat::One }]),
        5633 => Some(vec![Slot { kind: OperandKind::Id, repeat: Repeat::One }, Slot { kind: OperandKind::U32, repeat: Repeat::One }, Slot { kind: OperandKind::Enum(EnumKind::Decoration), repeat: Repeat::One }]),
        5699 => Some(vec![Slot { kind: OperandKind::Id, repeat: Repeat::One }, Slot { kind: OperandKind::Id, repeat: Repeat::One }]),
        5700 => Some(vec![Slot { kind: OperandKind::Id, repeat: Repeat::One }]),
        5701 => Some(vec![]),
        5702 => Some(vec![]),
        5703 => Some(vec![]),
        5704 => Some(vec![]),
        5705 => Some(vec![]),
        5706 => Some(vec![]),
        5707 => Some(vec![]),
        5708 => Some(vec![]),
        5709 => Some(vec![]),
        5710 => Some(vec![]),
        5711 => Some(vec![]),
        5712 => Some(vec![]),
        5713 => Some(vec![Slot { kind: OperandKind::Id, repeat: Repeat::One }, Slot { kind: OperandKind::Id, repeat: Repeat::One }]),
        5714 => Some(vec![Slot { kind: OperandKind::Id, repeat: Repeat::One }, Slot { kind: OperandKind::Id, repeat: Repeat::One }]),
        5715 => Some(vec![Slot { kind: OperandKind::Id, repeat: Repeat::One }, Slot { kind: OperandKind::Id, repeat: Repeat::One }]),
        5716 => Some(vec![Slot { kind: OperandKind::Id, repeat: Repeat::One }, Slot { kind: OperandKind::Id, repeat: Repeat::One }]),
        5717 => Some(vec![Slot { kind: OperandKind::Id, repeat: Repeat::One }, Slot { kind: OperandKind::Id, repeat: Repeat::One }]),
        5718 => Some(vec![Slot { kind: OperandKind::Id, repeat: Repeat::One }, Slot { kind: OperandKind::Id, repeat: Repeat::One }]),
        5719 => Some(vec![Slot { kind: OperandKind::Id, repeat: Repeat::One }, Slot { kind: OperandKind::Id, repeat: Repeat::One }]),
        5720 => Some(vec![Slot { kind: OperandKind::Id, repeat: Repeat::One }, Slot { kind: OperandKind::Id, repeat: Repeat::One }]),
        5721 => Some(vec![]),
        5722 => Some(vec![]),
        5723 => Some(vec![]),
        5724 => Some(vec![Slot { kind: OperandKind::Id, repeat: Repeat::One }, Slot { kind: OperandKind::Id, repeat: Repeat::One }, Slot { kind: OperandKind::Id, repeat: Repeat::One }, Slot { kind: OperandKind::Id, repeat: Repeat::One }]),
        5725 => Some(vec![Slot { kind: OperandKind::Id, repeat: Repeat::One }, Slot { kind: OperandKind::Id, repeat: Repeat::One }]),
        5726 => Some(vec![]),
        5727 => Some(vec![]),
        5728 => Some(vec![Slot { kind: OperandKind::Id, repeat: Repeat::One }]),
        5729 => Some(vec![Slot { kind: OperandKind::Id, repeat: Repeat::One }, Slot { kind: OperandKind::Id, repeat: Repeat::One }]),
        5730 => Some(vec![Slot { kind: OperandKind::Id, repeat: Repeat::One }, Slot { kind: OperandKind::Id, repeat: Repeat::One }]),
        5731 => Some(vec![Slot { kind: OperandKind::Id, repeat: Repeat::One }, Slot { kind: OperandKind::Id, repeat: Repeat::One }, Slot { kind: OperandKind::Id, repeat: Repeat::One }]),
        5732 => Some(vec![Slot { kind: OperandKind::Id, repeat: Repeat::One }]),
        5733 => Some(vec![Slot { kind: OperandKind::Id, repeat: Repeat::One }]),
        5734 => Some(vec![Slot { kind: OperandKind::Id, repeat: Repeat::One }]),
        5735 => Some(vec![Slot { kind: OperandKind::Id, repeat: Repeat::One }]),
        5736 => Some(vec![Slot { kind: OperandKind::Id, repeat: Repeat::One }]),
        5737 => Some(vec![Slot { kind: OperandKind::Id, repeat: Repeat::One }]),
        5738 => Some(vec![Slot { kind: OperandKind::Id, repeat: Repeat::One }]),
        5739 => Some(vec![Slot { kind: OperandKind::Id, repeat: Repeat::One }]),
        5740 => Some(vec![Slot { kind: OperandKind::Id, repeat: Repeat::One }]),
        5741 => Some(vec![Slot { kind: OperandKind::Id, repeat: Repeat::One }]),
        5742 => Some(vec![Slot { kind: OperandKind::Id, repeat: Repeat::One }]),
        _ => None,
    }
}

fn opcode_slot_list_9(op: u32) -> (r: Option<Vec<Slot>>)
    requires
        5743 <= op <= 5802,
    ensures
        match r {
            Some(v) => opcode_slots(op) == Some(v@),
            None => opcode_slots(op) is None,
        },
{
    match op {
        5743 => Some(vec![Slot { kind: OperandKind::Id, repeat: Repeat::One }]),
        5744 => Some(vec![Slot { kind: OperandKind::Id, repeat: Repeat::One }]),
        5745 => Some(vec![Slot { kind: OperandKind::Id, repeat: Repeat::One }]),
        5746 => Some(vec![Slot { kind: OperandKind::Id, repeat: Repeat::One }, Slot { kind: OperandKind::Id, repeat: Repeat::One }, Slot { kind: OperandKind::Id, repeat: Repeat::One }]),
        5747 => Some(vec![Slot { kind: OperandKind::Id, repeat: Repeat::One }, Slot { kind: OperandKind::Id, repeat: Repeat::One }, Slot { kind: OperandKind::Id, repeat: Repeat::One }]),
        5748 => Some(vec![Slot { kind: OperandKind::Id, repeat: Repeat::One }, Slot { kind: OperandKind::Id, repeat: Repeat::One }, Slot { kind: OperandKind::Id, repeat: Repeat::One }]),
        5749 => Some(vec![Slot { kind: OperandKind::Id, repeat: Repeat::One }, Slot { kind: OperandKind::Id, repeat: Repeat::One }, Slot { kind: OperandKind::Id, repeat: Repeat::One }, Slot { kind: OperandKind::Id, repeat: Repeat::One }]),
        5750 => Some(vec![Slot { kind: OperandKind::Id, repeat: Repeat::One }, Slot { kind: OperandKind::Id, repeat: Repeat::One }]),
        5751 => Some(vec![Slot { kind: OperandKind::Id, repeat: Repeat::One }, Slot { kind: OperandKind::Id, repeat: Repeat::One }, Slot { kind: OperandKind::Id, repeat: Repeat::One }, Slot { kind: OperandKind::Id, repeat: Repeat::One }]),
        5752 => Some(vec![Slot { kind: OperandKind::Id, repeat: Repeat::One }]),
        5753 => Some(vec![Slot { kind: OperandKind::Id, repeat: Repeat::One }, Slot { kind: OperandKind::Id, repeat: Repeat::One }]),
        5754 => Some(vec![Slot { kind: OperandKind::Id, repeat: Repeat::One }]),
        5755 => Some(vec![Slot { kind: OperandKind::Id, repeat: Repeat::One }, Slot { kind: OperandKind::Id, repeat: Repeat::One }]),
        5756 => Some(vec![Slot { kind: OperandKind::Id, repeat: Repeat::One }, Slot { kind: OperandKind::Id, repeat: Repeat::One }]),
        5757 => Some(vec![Slot { kind: OperandKind::Id, repeat: Repeat::One }, Slot { kind: OperandKind::Id, repeat: Repeat::One }, Slot { kind: OperandKind::Id, repeat: Repeat::One }]),
        5758 => Some(vec![Slot { kind: OperandKind::Id, repeat: Repeat::One }, Slot { kind: OperandKind::Id, repeat: Repeat::One }, Slot { kind: OperandKind::Id, repeat: Repeat::One }, Slot { kind: OperandKind::Id, repeat: Repeat::One }]),
        5759 => Some(vec![Slot { kind: OperandKind::Id, repeat: Repeat::One }, Slot { kind: OperandKind::Id, repeat: Repeat::One }, Slot { kind: OperandKind::Id, repeat: Repeat::One }, Slot { kind: OperandKind::Id, repeat: Repeat::One }]),
        5760 => Some(vec![Slot { kind: OperandKind::Id, repeat: Repeat::One }, Slot { kind: OperandKind::Id, repeat: Repeat::One }, Slot { kind: OperandKind::Id, repeat: Repeat::One }, Slot { kind: OperandKind::Id, repeat: Repeat::One }, Slot { kind: OperandKind::Id, repeat: Repeat::One }]),
        5761 => Some(vec![Slot { kind: OperandKind::Id, repeat: Repeat::One }, Slot { kind: OperandKind::Id, repeat: Repeat::One }, Slot { kind: OperandKind::Id, repeat: Repeat::One }]),
        5762 => Some(vec![Slot { kind: OperandKind::Id, repeat: Repeat::One }, Slot { kind: OperandKind::Id, repeat: Repeat::One }, Slot { kind: OperandKind::Id, repeat: Repeat::One }, Slot { kind: OperandKind::Id, repeat: Repeat::One }]),
        5763 => Some(vec![Slot { kind: OperandKind::Id, repeat: Repeat::One }, Slot { kind: OperandKind::Id, repeat: Repeat::One }, Slot { kind: OperandKind::Id, repeat: Repeat::One }, Slot { kind: OperandKind::Id, repeat: Repeat::One }]),
        5764 => Some(vec![Slot { kind: OperandKind::Id, repeat: Repeat::One }, Slot { kind: OperandKind::Id, repeat: Repeat::One }, Slot { kind: OperandKind::Id, repeat: Repeat::One }, Slot { kind: OperandKind::Id, repeat: Repeat::One }, Slot { kind: OperandKind::Id, repeat: Repeat::One }]),
        5765 => Some(vec![Slot { kind: OperandKind::Id, repeat: Repeat::One }]),
        5766 => Some(vec![Slot { kind: OperandKind::Id, repeat: Repeat::One }]),
        5767 => Some(vec![Slot { kind: OperandKind::Id, repeat: Repeat::One }]),
        5768 => Some(vec![Slot { kind: OperandKind::Id, repeat: Repeat::One }]),
        5769 => Some(vec![Slot { kind: OperandKind::Id, repeat: Repeat::One }]),
        5770 => Some(vec![Slot { kind: OperandKind::Id, repeat: Repeat::One }, Slot { kind: OperandKind::Id, repeat: Repeat::One }]),
        5771 => Some(vec![Slot { kind: OperandKind::Id, repeat: Repeat::One }, Slot { kind: OperandKind::Id, repeat: Repeat::One }]),
        5772 => Some(vec![Slot { kind: OperandKind::Id, repeat: Repeat::One }, Slot { kind: OperandKind::Id, repeat: Repeat::One }]),
        5773 => Some(vec![Slot { kind: OperandKind::Id, repeat: Repeat::One }, Slot { kind: OperandKind::Id, repeat: Repeat::One }, Slot { kind: OperandKind::Id, repeat: Repeat::One }]),
        5774 => Some(vec![Slot { kind: OperandKind::Id, repeat: Repeat::One }, Slot { kind: OperandKind::Id, repeat: Repeat::One }, Slot { kind: OperandKind::Id, repeat: Repeat::One }]),
        5775 => Some(vec![Slot { kind: OperandKind::Id, repeat: Repeat::One }, Slot { kind: OperandKind::Id, repeat: Repeat::One }, Slot { kind: OperandKind::Id, repeat: Repeat::One }]),
        5776 => Some(vec![Slot { kind: OperandKind::Id, repeat: Repeat::One }, Slot { kind: OperandKind::Id, repeat: Repeat::One }]),
        5777 => Some(vec![Slot { kind: OperandKind::Id, repeat: Repeat::One }]),
        5778 => Some(vec![Slot { kind: OperandKind::Id, repeat: Repeat::One }]),
        5779 => Some(vec![Slot { kind: OperandKind::Id, repeat: Repeat::One }]),
        5780 => Some(vec![Slot { kind: OperandKind::Id, repeat: Repeat::One }]),
        5781 => Some(vec![Slot { kind: OperandKind::Id, repeat: Repeat::One }, Slot { kind: OperandKind::Id, repeat: Repeat::One }, Slot { kind: OperandKind::Id, repeat: Repeat::One }, Slot { kind: OperandKind::Id, repeat: Repeat::One }, Slot { kind: OperandKind::Id, repeat: Repeat::One }, Slot { kind: OperandKind::Id, repeat: Repeat::One }, Slot { kind: OperandKind::Id, repeat: Repeat::One }]),
        5782 => Some(vec![Slot { kind: OperandKind::Id, repeat: Repeat::One }, Slot { kind: OperandKind::Id, repeat: Repeat::One }, Slot { kind: OperandKind::Id, repeat: Repeat::One }, Slot { kind: OperandKind::Id, repeat: Repeat::One }, Slot { kind: OperandKind::Id, repeat: Repeat::One }, Slot { kind: OperandKind::Id, repeat: Repeat::One }, Slot { kind: OperandKind::Id, repeat: Repeat::One }, Slot { kind: OperandKind::Id, repeat: Repeat::One }]),
        5783 => Some(vec![Slot { kind: OperandKind::Id, repeat: Repeat::One }]),
        5784 => Some(vec![Slot { kind: OperandKind::Id, repeat: Repeat::One }]),
        5785 => Some(vec![Slot { kind: OperandKind::Id, repeat: Repeat::One }]),
        5786 => Some(vec![Slot { kind: OperandKind::Id, repeat: Repeat::One }, Slot { kind: OperandKind::Id, repeat: Repeat::One }, Slot { kind: OperandKind::Id, repeat: Repeat::One }]),
        5787 => Some(vec![Slot { kind: OperandKind::Id, repeat: Repeat::One }, Slot { kind: OperandKind::Id, repeat: Repeat::One }, Slot { kind: OperandKind::Id, repeat: Repeat::One }, Slot { kind: OperandKind::Id, repeat: Repeat::One }]),
        5788 => Some(vec![Slot { kind: OperandKind::Id, repeat: Repeat::One }, Slot { kind: OperandKind::Id, repeat: Repeat::One }, Slot { kind: OperandKind::Id, repeat: Repeat::One }]),
        5789 => Some(vec![Slot { kind: OperandKind::Id, repeat: Repeat::One }, Slot { kind: OperandKind::Id, repeat: Repeat::One }, Slot { kind: OperandKind::Id, repeat: Repeat::One }, Slot { kind: OperandKind::Id, repeat: Repeat::One }]),
        5790 => Some(vec![Slot { kind: OperandKind::Id, repeat: Repeat::One }]),
        5791 => Some(vec![Slot { kind: OperandKind::Id, repeat: Repeat::One }]),
        5792 => Some(vec![Slot { kind: OperandKind::Id, repeat: Repeat::One }, Slot { kind: OperandKind::Id, repeat: Repeat::One }, Slot { kind: OperandKind::Id, repeat: Repeat::One }, Slot { kind: OperandKind::Id, repeat: Repeat::One }, Slot { kind: OperandKind::Id, repeat: Repeat::One }, Slot { kind: OperandKind::Id, repeat: Repeat::One }]),
        5793 => Some(vec![Slot { kind: OperandKind::Id, repeat: Repeat::One }, Slot { kind: OperandKind::Id, repeat: Repeat::One }, Slot { kind: OperandKind::Id, repeat: Repeat::One }, Slot { kind: OperandKind::Id, repeat: Repeat::One }, Slot { kind: OperandKind::Id, repeat: Repeat::One }, Slot { kind: OperandKind::Id, repeat: Repeat::One }, Slot { kind: OperandKind::Id, repeat: Repeat::One }, Slot { kind: OperandKind::Id, repeat: Repeat::One }]),
        5794 => Some(vec![Slot { kind: OperandKind::Id, repeat: Repeat::One }, Slot { kind: OperandKind::Id, repeat: Repeat::One }, Slot { kind: OperandKind::Id, repeat: Repeat::One }, Slot { kind: OperandKind::Id, repeat: Repeat::One }, Slot { kind: OperandKind::Id, repeat: Repeat::One }, Slot { kind: OperandKind::Id, repeat: Repeat::One }, Slot { kind: OperandKind::Id, repeat: Repeat::One }, Slot { kind: OperandKind::Id, repeat: Repeat::One }, Slot { kind: OperandKind::Id, repeat: Repeat::One }, Slot { kind: OperandKind::Id, repeat: Repeat::One }, Slot { kind: OperandKind::Id, repeat: Repeat::One }]),
        5795 => Some(vec![Slot { kind: OperandKind::Id, repeat: Repeat::One }, Slot { kind: OperandKind::Id, repeat: Repeat::One }]),
        5796 => Some(vec![Slot { kind: OperandKind::Id, repeat: Repeat::One }]),
        5797 => Some(vec![Slot { kind: OperandKind::Id, repeat: Repeat::One }, Slot { kind: OperandKind::Id, repeat: Repeat::One }]),
        5798 => Some(vec![Slot { kind: OperandKind::Id, repeat: Repeat::One }, Slot { kind: OperandKind::Id, repeat: Repeat::One }, Slot { kind: OperandKind::Id, repeat: Repeat::One }, Slot { kind: OperandKind::Id, repeat: Repeat::One }]),
        5799 => Some(vec![Slot { kind: OperandKind::Id, repeat: Repeat::One }, Slot { kind: OperandKind::Id, repeat: Repeat::One }]),
        5800 => Some(vec![Slot { kind: OperandKind::Id, repeat: Repeat::One }]),
        5801 => Some(vec![Slot { kind: OperandKind::Id, repeat: Repeat::One }, Slot { kind: OperandKind::Id, repeat: Repeat::One }]),
        5802 => Some(vec![Slot { kind: OperandKind::Id, repeat: Repeat::One }, Slot { kind: OperandKind::Id, repeat: Repeat::One }]),
        _ => None,
    }
}

fn opcode_slot_list_10(op: u32) -> (r: Option<Vec<Slot>>)
    requires
        5803 <= op <= 5911,
    ensures
        match r {
            Some(v) => opcode_slots(op) == Some(v@),
            None => opcode_slots(op) is None,
        },
{
    match op {
        5803 => Some(vec![Slot { kind: OperandKind::Id, repeat: Repeat::One }, Slot { kind: OperandKind::Id, repeat: Repeat::One }]),
        5804 => Some(vec![Slot { kind: OperandKind::Id, repeat: Repeat::One }, Slot { kind: OperandKind::Id, repeat: Repeat::One }, Slot { kind: OperandKind::Id, repeat: Repeat::One }]),
        5805 => Some(vec![Slot { kind: OperandKind::Id, repeat: Repeat::One }, Slot { kind: OperandKind::Id, repeat: Repeat::One }, Slot { kind: OperandKind::Id, repeat: Repeat::One }, Slot { kind: OperandKind::Id, repeat: Repeat::One }]),
        5806 => Some(vec![Slot { kind: OperandKind::Id, repeat: Repeat::One }, Slot { kind: OperandKind::Id, repeat: Repeat::One }, Slot { kind: OperandKind::Id, repeat: Repeat::One }]),
        5807 => Some(vec![Slot { kind: OperandKind::Id, repeat: Repeat::One }, Slot { kind: OperandKind::Id, repeat: Repeat::One }, Slot { kind: OperandKind::Id, repeat: Repeat::One }, Slot { kind: OperandKind::Id, repeat: Repeat::One }]),
        5808 => Some(vec![Slot { kind: OperandKind::Id, repeat: Repeat::One }]),
        5809 => Some(vec![Slot { kind: OperandKind::Id, repeat: Repeat::One }]),
        5810 => Some(vec![Slot { kind: OperandKind::Id, repeat: Repeat::One }]),
        5811 => Some(vec![Slot { kind: OperandKind::Id, repeat: Repeat::One }]),
        5812 => Some(vec![Slot { kind: OperandKind::Id, repeat: Repeat::One }]),
        5813 => Some(vec![Slot { kind: OperandKind::Id, repeat: Repeat::One }]),
        5814 => Some(vec![Slot { kind: OperandKind::Id, repeat: Repeat::One }]),
        5815 => Some(vec![Slot { kind: OperandKind::Id, repeat: Repeat::One }]),
        5816 => Some(vec![Slot { kind: OperandKind::Id, repeat: Repeat::One }]),
        5818 => Some(vec![Slot { kind: OperandKind::Id, repeat: Repeat::One }]),
        5819 => Some(vec![]),
        5820 => Some(vec![Slot { kind: OperandKind::Id, repeat: Repeat::One }]),
        5840 => Some(vec![Slot { kind: OperandKind::Id, repeat: Repeat::One }, Slot { kind: OperandKind::U32, repeat: Repeat::One }, Slot { kind: OperandKind::U32, repeat: Repeat::One }, Slot { kind: OperandKind::U32, repeat: Repeat::One }, Slot { kind: OperandKind::U32, repeat: Repeat::One }, Slot { kind: OperandKind::U32, repeat: Repeat::One }, Slot { kind: OperandKind::U32, repeat: Repeat::One }]),
        5841 => Some(vec![Slot { kind: OperandKind::Id, repeat: Repeat::One }, Slot { kind: OperandKind::U32, repeat: Repeat::One }, Slot { kind: OperandKind::U32, repeat: Repeat::One }, Slot { kind: OperandKind::U32, repeat: Repeat::One }, Slot { kind: OperandKind::U32, repeat: Repeat::One }, Slot { kind: OperandKind::U32, repeat: Repeat::One }]),
        5842 => Some(vec![Slot { kind: OperandKind::Id, repeat: Repeat::One }, Slot { kind: OperandKind::U32, repeat: Repeat::One }, Slot { kind: OperandKind::U32, repeat: Repeat::One }, Slot { kind: OperandKind::U32, repeat: Repeat::One }, Slot { kind: OperandKind::U32, repeat: Repeat::One }, Slot { kind: OperandKind::U32, repeat: Repeat::One }]),
        5843 => Some(vec![Slot { kind: OperandKind::Id, repeat: Repeat::One }, Slot { kind: OperandKind::U32, repeat: Repeat::One }, Slot { kind: OperandKind::U32, repeat: Repeat::One }, Slot { kind: OperandKind::U32, repeat: Repeat::One }, Slot { kind: OperandKind::U32, repeat: Repeat::One }]),
        5846 => Some(vec![Slot { kind: OperandKind::Id, repeat: Repeat::One }, Slot { kind: OperandKind::U32, repeat: Repeat::One }, Slot { kind: OperandKind::Id, repeat: Repeat::One }, Slot { kind: OperandKind::U32, repeat: Repeat::One }, Slot { kind: OperandKind::U32, repeat: Repeat::One }, Slot { kind: OperandKind::U32, repeat: Repeat::One }, Slot { kind: OperandKind::U32, repeat: Repeat::One }, Slot { kind: OperandKind::U32, repeat: Repeat::One }]),
        5847 => Some(vec![Slot { kind: OperandKind::Id, repeat: Repeat::One }, Slot { kind: OperandKind::U32, repeat: Repeat::One }, Slot { kind: OperandKind::Id, repeat: Repeat::One }, Slot { kind: OperandKind::U32, repeat: Repeat::One }, Slot { kind: OperandKind::U32, repeat: Repeat::One }, Slot { kind: OperandKind::U32, repeat: Repeat::One }, Slot { kind: OperandKind::U32, repeat: Repeat::One }, Slot { kind: OperandKind::U32, repeat: Repeat::One }]),
        5848 => Some(vec![Slot { kind: OperandKind::Id, repeat: Repeat::One }, Slot { kind: OperandKind::U32, repeat: Repeat::One }, Slot { kind: OperandKind::Id, repeat: Repeat::One }, Slot { kind: OperandKind::U32, repeat: Repeat::One }, Slot { kind: OperandKind::U32, repeat: Repeat::One }, Slot { kind: OperandKind::U32, repeat: Repeat::One }, Slot { kind: OperandKind::U32, repeat: Repeat::One }, Slot { kind: OperandKind::U32, repeat: Repeat::One }]),
        5849 => Some(vec![Slot { kind: OperandKind::Id, repeat: Repeat::One }, Slot { kind: OperandKind::U32, repeat: Repeat::One }, Slot { kind: OperandKind::Id, repeat: Repeat::One }, Slot { kind: OperandKind::U32, repeat: Repeat::One }, Slot { kind: OperandKind::U32, repeat: Repeat::One }, Slot { kind: OperandKind::U32, repeat: Repeat::One }, Slot { kind: OperandKind::U32, repeat: Repeat::One }, Slot { kind: OperandKind::U32, repeat: Repeat::One }]),
        5850 => Some(vec![Slot { kind: OperandKind::Id, repeat: Repeat::One }, Slot { kind: OperandKind::U32, repeat: Repeat::One }, Slot { kind: OperandKind::Id, repeat: Repeat::One }, Slot { kind: OperandKind::U32, repeat: Repeat::One }]),
        5851 => Some(vec![Slot { kind: OperandKind::Id, repeat: Repeat::One }, Slot { kind: OperandKind::U32, repeat: Repeat::One }, Slot { kind: OperandKind::Id, repeat: Repeat::One }, Slot { kind: OperandKind::U32, repeat: Repeat::One }]),
        5852 => Some(vec![Slot { kind: OperandKind::Id, repeat: Repeat::One }, Slot { kind: OperandKind::U32, repeat: Repeat::One }, Slot { kind: OperandKind::Id, repeat: Repeat::One }, Slot { kind: OperandKind::U32, repeat: Repeat::One }]),
        5853 => Some(vec![Slot { kind: OperandKind::Id, repeat: Repeat::One }, Slot { kind: OperandKind::U32, repeat: Repeat::One }, Slot { kind: OperandKind::Id, repeat: Repeat::One }, Slot { kind: OperandKind::U32, repeat: Repeat::One }]),
        5854 => Some(vec![Slot { kind: OperandKind::Id, repeat: Repeat::One }, Slot { kind: OperandKind::U32, repeat: Repeat::One }, Slot { kind: OperandKind::Id, repeat: Repeat::One }, Slot { kind: OperandKind::U32, repeat: Repeat::One }]),
        5855 => Some(vec![Slot { kind: OperandKind::Id, repeat: Repeat::One }, Slot { kind: OperandKind::U32, repeat: Repeat::One }, Slot { kind: OperandKind::U32, repeat: Repeat::One }, Slot { kind: OperandKind::U32, repeat: Repeat::One }, Slot { kind: OperandKind::U32, repeat: Repeat::One }, Slot { kind: OperandKind::U32, repeat: Repeat::One }]),
        5856 => Some(vec![Slot { kind: OperandKind::Id, repeat: Repeat::One }, Slot { kind: OperandKind::U32, repeat: Repeat::One }, Slot { kind: OperandKind::U32, repeat: Repeat::One }, Slot { kind: OperandKind::U32, repeat: Repeat::One }, Slot { kind: OperandKind::U32, repeat: Repeat::One }, Slot { kind: OperandKind::U32, repeat: Repeat::One }]),
        5857 => Some(vec![Slot { kind: OperandKind::Id, repeat: Repeat::One }, Slot { kind: OperandKind::U32, repeat: Repeat::One }, Slot { kind: OperandKind::U32, repeat: Repeat::One }, Slot { kind: OperandKind::U32, repeat: Repeat::One }, Slot { kind: OperandKind::U32, repeat: Repeat::One }, Slot { kind: OperandKind::U32, repeat: Repeat::One }]),
        5858 => Some(vec![Slot { kind: OperandKind::Id, repeat: Repeat::One }, Slot { kind: OperandKind::U32, repeat: Repeat::One }, Slot { kind: OperandKind::Id, repeat: Repeat::One }, Slot { kind: OperandKind::U32, repeat: Repeat::One }, Slot { kind: OperandKind::U32, repeat: Repeat::One }, Slot { kind: OperandKind::U32, repeat: Repeat::One }, Slot { kind: OperandKind::U32, repeat: Repeat::One }, Slot { kind: OperandKind::U32, repeat: Repeat::One }]),
        5859 => Some(vec![Slot { kind: OperandKind::Id, repeat: Repeat::One }, Slot { kind: OperandKind::U32, repeat: Repeat::One }, Slot { kind: OperandKind::U32, repeat: Repeat::One }, Slot { kind: OperandKind::U32, repeat: Repeat::One }, Slot { kind: OperandKind::U32, repeat: Repeat::One }, Slot { kind: OperandKind::U32, repeat: Repeat::One }]),
        5860 => Some(vec![Slot { kind: OperandKind::Id, repeat: Repeat::One }, Slot { kind: OperandKind::U32, repeat: Repeat::One }, Slot { kind: OperandKind::U32, repeat: Repeat::One }, Slot { kind: OperandKind::U32, repeat: Repeat::One }, Slot { kind: OperandKind::U32, repeat: Repeat::One }, Slot { kind: OperandKind::U32, repeat: Repeat::One }]),
        5861 => Some(vec![Slot { kind: OperandKind::Id, repeat: Repeat::One }, Slot { kind: OperandKind::U32, repeat: Repeat::One }, Slot { kind: OperandKind::U32, repeat: Repeat::One }, Slot { kind: OperandKind::U32, repeat: Repeat::One }, Slot { kind: OperandKind::U32, repeat: Repeat::One }, Slot { kind: OperandKind::U32, repeat: Repeat::One }]),
        5862 => Some(vec![Slot { kind: OperandKind::Id, repeat: Repeat::One }, Slot { kind: OperandKind::U32, repeat: Repeat::One }, Slot { kind: OperandKind::U32, repeat: Repeat::One }, Slot { kind: OperandKind::U32, repeat: Repeat::One }, Slot { kind: OperandKind::U32, repeat: Repeat::One }, Slot { kind: OperandKind::U32, repeat: Repeat::One }]),
        5863 => Some(vec![Slot { kind: OperandKind::Id, repeat: Repeat::One }, Slot { kind: OperandKind::U32, repeat: Repeat::One }, Slot { kind: OperandKind::U32, repeat: Repeat::One }, Slot { kind: OperandKind::U32, repeat: Repeat::One }, Slot { kind: OperandKind::U32, repeat: Repeat::One }, Slot { kind: OperandKind::U32, repeat: Repeat::One }]),
        5864 => Some(vec![Slot { kind: OperandKind::Id, repeat: Repeat::One }, Slot { kind: OperandKind::U32, repeat: Repeat::One }, Slot { kind: OperandKind::U32, repeat: Repeat::One }, Slot { kind: OperandKind::U32, repeat: Repeat::One }, Slot { kind: OperandKind::U32, repeat: Repeat::One }, Slot { kind: OperandKind::U32, repeat: Repeat::One }]),
        5865 => Some(vec![Slot { kind: OperandKind::Id, repeat: Repeat::One }, Slot { kind: OperandKind::U32, repeat: Repeat::One }, Slot { kind: OperandKind::U32, repeat: Repeat::One }, Slot { kind: OperandKind::U32, repeat: Repeat::One }, Slot { kind: OperandKind::U32, repeat: Repeat::One }, Slot { kind: OperandKind::U32, repeat: Repeat::One }]),
        5866 => Some(vec![Slot { kind: OperandKind::Id, repeat: Repeat::One }, Slot { kind: OperandKind::U32, repeat: Repeat::One }, Slot { kind: OperandKind::U32, repeat: Repeat::One }, Slot { kind: OperandKind::U32, repeat: Repeat::One }, Slot { kind: OperandKind::U32, repeat: Repeat::One }, Slot { kind: OperandKind::U32, repeat: Repeat::One }]),
        5867 => Some(vec![Slot { kind: OperandKind::Id, repeat: Repeat::One }, Slot { kind: OperandKind::U32, repeat: Repeat::One }, Slot { kind: OperandKind::U32, repeat: Repeat::One }, Slot { kind: OperandKind::U32, repeat: Repeat::One }, Slot { kind: OperandKind::U32, repeat: Repeat::One }, Slot { kind: OperandKind::U32, repeat: Repeat::One }]),
        5868 => Some(vec![Slot { kind: OperandKind::Id, repeat: Repeat::One }, Slot { kind: OperandKind::U32, repeat: Repeat::One }, Slot { kind: OperandKind::U32, repeat: Repeat::One }, Slot { kind: OperandKind::U32, repeat: Repeat::One }, Slot { kind: OperandKind::U32, repeat: Repeat::One }, Slot { kind: OperandKind::U32, repeat: Repeat::One }]),
        5869 => Some(vec![Slot { kind: OperandKind::Id, repeat: Repeat::One }, Slot { kind: OperandKind::U32, repeat: Repeat::One }, Slot { kind: OperandKind::U32, repeat: Repeat::One }, Slot { kind: OperandKind::U32, repeat: Repeat::One }, Slot { kind: OperandKind::U32, repeat: Repeat::One }, Slot { kind: OperandKind::U32, repeat: Repeat::One }]),
        5870 => Some(vec![Slot { kind: OperandKind::Id, repeat: Repeat::One }, Slot { kind: OperandKind::U32, repeat: Repeat::One }, Slot { kind: OperandKind::U32, repeat: Repeat::One }, Slot { kind: OperandKind::U32, repeat: Repeat::One }, Slot { kind: OperandKind::U32, repeat: Repeat::One }, Slot { kind: OperandKind::U32, repeat: Repeat::One }]),
        5871 => Some(vec![Slot { kind: OperandKind::Id, repeat: Repeat::One }, Slot { kind: OperandKind::U32, repeat: Repeat::One }, Slot { kind: OperandKind::U32, repeat: Repeat::One }, Slot { kind: OperandKind::U32, repeat: Repeat::One }, Slot { kind: OperandKind::U32, repeat: Repeat::One }, Slot { kind: OperandKind::U32, repeat: Repeat::One }]),
        5872 => Some(vec![Slot { kind: OperandKind::Id, repeat: Repeat::One }, Slot { kind: OperandKind::U32, repeat: Repeat::One }, Slot { kind: OperandKind::U32, repeat: Repeat::One }, Slot { kind: OperandKind::U32, repeat: Repeat::One }, Slot { kind: OperandKind::U32, repeat: Repeat::One }, Slot { kind: OperandKind::U32, repeat: Repeat::One }]),
        5873 => Some(vec![Slot { kind: OperandKind::Id, repeat: Repeat::One }, Slot { kind: OperandKind::U32, repeat: Repeat::One }, Slot { kind: OperandKind::U32, repeat: Repeat::One }, Slot { kind: OperandKind::U32, repeat: Repeat::One }, Slot { kind: OperandKind::U32, repeat: Repeat::One }, Slot { kind: OperandKind::U32, repeat: Repeat::One }]),
        5874 => Some(vec![Slot { kind: OperandKind::Id, repeat: Repeat::One }, Slot { kind: OperandKind::U32, repeat: Repeat::One }, Slot { kind: OperandKind::U32, repeat: Repeat::One }, Slot { kind: OperandKind::U32, repeat: Repeat::One }, Slot { kind: OperandKind::U32, repeat: Repeat::One }, Slot { kind: OperandKind::U32, repeat: Repeat::One }]),
        5875 => Some(vec![Slot { kind: OperandKind::Id, repeat: Repeat::One }, Slot { kind: OperandKind::U32, repeat: Repeat::One }, Slot { kind: OperandKind::U32, repeat: Repeat::One }, Slot { kind: OperandKind::U32, repeat: Repeat::One }, Slot { kind: OperandKind::U32, repeat: Repeat::One }, Slot { kind: OperandKind::U32, repeat: Repeat::One }]),
        5876 => Some(vec![Slot { kind: OperandKind::Id, repeat: Repeat::One }, Slot { kind: OperandKind::U32, repeat: Repeat::One }, Slot { kind: OperandKind::U32, repeat: Repeat::One }, Slot { kind: OperandKind::U32, repeat: Repeat::One }, Slot { kind: OperandKind::U32, repeat: Repeat::One }, Slot { kind: OperandKind::U32, repeat: Repeat::One }]),
        5877 => Some(vec![Slot { kind: OperandKind::Id, repeat: Repeat::One }, Slot { kind: OperandKind::U32, repeat: Repeat::One }, Slot { kind: OperandKind::U32, repeat: Repeat::One }, Slot { kind: OperandKind::U32, repeat: Repeat::One }, Slot { kind: OperandKind::U32, repeat: Repeat::One }, Slot { kind: OperandKind::U32, repeat: Repeat::One }]),
        5878 => Some(vec![Slot { kind: OperandKind::Id, repeat: Repeat::One }, Slot { kind: OperandKind::U32, repeat: Repeat::One }, Slot { kind: OperandKind::U32, repeat: Repeat::One }, Slot { kind: OperandKind::U32, repeat: Repeat::One }, Slot { kind: OperandKind::U32, repeat: Repeat::One }, Slot { kind: OperandKind::U32, repeat: Repeat::One }]),
        5879 => Some(vec![Slot { kind: OperandKind::Id, repeat: Repeat::One }, Slot { kind: OperandKind::U32, repeat: Repeat::One }, Slot { kind: OperandKind::Id, repeat: Repeat::One }, Slot { kind: OperandKind::U32, repeat: Repeat::One }, Slot { kind: OperandKind::U32, repeat: Repeat::One }, Slot { kind: OperandKind::U32, repeat: Repeat::One }, Slot { kind: OperandKind::U32, repeat: Repeat::One }, Slot { kind: OperandKind::U32, repeat: Repeat::One }]),
        5880 => Some(vec![Slot { kind: OperandKind::Id, repeat: Repeat::One }, Slot { kind: OperandKind::U32, repeat: Repeat::One }, Slot { kind: OperandKind::Id, repeat: Repeat::One }, Slot { kind: OperandKind::U32, repeat: Repeat::One }, Slot { kind: OperandKind::U32, repeat: Repeat::One }, Slot { kind: OperandKind::U32, repeat: Repeat::One }, Slot { kind: OperandKind::U32, repeat: Repeat::One }, Slot { kind: OperandKind::U32, repeat: Repeat::One }]),
        5881 => Some(vec![Slot { kind: OperandKind::Id, repeat: Repeat::One }, Slot { kind: OperandKind::U32, repeat: Repeat::One }, Slot { kind: OperandKind::Id, repeat: Repeat::One }, Slot { kind: OperandKind::U32, repeat: Repeat::One }, Slot { kind: OperandKind::U32, repeat: Repeat::One }, Slot { kind: OperandKind::U32, repeat: Repeat::One }, Slot { kind: OperandKind::U32, repeat: Repeat::One }, Slot { kind: OperandKind::U32, repeat: Repeat::One }]),
        5882 => Some(vec![Slot { kind: OperandKind::Id, repeat: Repeat::One }, Slot { kind: OperandKind::U32, repeat: Repeat::One }, Slot { kind: OperandKind::Id, repeat: Repeat::One }, Slot { kind: OperandKind::U32, repeat: Repeat::One }, Slot { kind: OperandKind::U32, repeat: Repeat::One }, Slot { kind: OperandKind::U32, repeat: Repeat::One }, Slot { kind: OperandKind::U32, repeat: Repeat::One }]),
        5887 => Some(vec![Slot { kind: OperandKind::U32, repeat: Repeat::Many }]),
        5911 => Some(vec![Slot { kind: OperandKind::Id, repeat: Repeat::Optional }]),
        _ => None,
    }
}

fn opcode_slot_list_11(op: u32) -> (r: Option<Vec<Slot>>)
    requires
        5912 <= op <= 6408,
    ensures
        match r {
            Some(v) => opcode_slots(op) == Some(v@),
            None => opcode_slots(op) is None,
        },
{
    match op {
        5912 => Some(vec![Slot { kind: OperandKind::Id, repeat: Repeat::One }, Slot { kind: OperandKind::Id, repeat: Repeat::Optional }]),
        5913 => Some(vec![Slot { kind: OperandKind::Id, repeat: Repeat::Many }]),
        5923 => Some(vec![Slot { kind: OperandKind::Id, repeat: Repeat::One }, Slot { kind: OperandKind::Id, repeat: Repeat::One }, Slot { kind: OperandKind::U32, repeat: Repeat::One }, Slot { kind: OperandKind::U32, repeat: Repeat::One }, Slot { kind: OperandKind::U32, repeat: Repeat::One }, Slot { kind: OperandKind::U32, repeat: Repeat::One }, Slot { kind: OperandKind::U32, repeat: Repeat::One }]),
        5924 => Some(vec![Slot { kind: OperandKind::Id, repeat: Repeat::One }, Slot { kind: OperandKind::Id, repeat: Repeat::One }, Slot { kind: OperandKind::U32, repeat: Repeat::One }, Slot { kind: OperandKind::U32, repeat: Repeat::One }, Slot { kind: OperandKind::U32, repeat: Repeat::One }, Slot { kind: OperandKind::U32, repeat: Repeat::One }, Slot { kind: OperandKind::U32, repeat: Repeat::One }]),
        5925 => Some(vec![Slot { kind: OperandKind::Id, repeat: Repeat::One }, Slot { kind: OperandKind::Id, repeat: Repeat::One }, Slot { kind: OperandKind::U32, repeat: Repeat::One }, Slot { kind: OperandKind::U32, repeat: Repeat::One }, Slot { kind: OperandKind::U32, repeat: Repeat::One }, Slot { kind: OperandKind::U32, repeat: Repeat::One }, Slot { kind: OperandKind::U32, repeat: Repeat::One }]),
        5926 => Some(vec![Slot { kind: OperandKind::Id, repeat: Repeat::One }, Slot { kind: OperandKind::Id, repeat: Repeat::One }, Slot { kind: OperandKind::U32, repeat: Repeat::One }, Slot { kind: OperandKind::U32, repeat: Repeat::One }, Slot { kind: OperandKind::U32, repeat: Repeat::One }, Slot { kind: OperandKind::U32, repeat: Repeat::One }, Slot { kind: OperandKind::U32, repeat: Repeat::One }]),
        5927 => Some(vec![Slot { kind: OperandKind::Id, repeat: Repeat::One }, Slot { kind: OperandKind::Id, repeat: Repeat::One }, Slot { kind: OperandKind::U32, repeat: Repeat::One }, Slot { kind: OperandKind::U32, repeat: Repeat::One }, Slot { kind: OperandKind::U32, repeat: Repeat::One }, Slot { kind: OperandKind::U32, repeat: Repeat::One }, Slot { kind: OperandKind::U32, repeat: Repeat::One }]),
        5928 => Some(vec![Slot { kind: OperandKind::Id, repeat: Repeat::One }, Slot { kind: OperandKind::Id, repeat: Repeat::One }, Slot { kind: OperandKind::U32, repeat: Repeat::One }, Slot { kind: OperandKind::U32, repeat: Repeat::One }, Slot { kind: OperandKind::U32, repeat: Repeat::One }, Slot { kind: OperandKind::U32, repeat: Repeat::One }, Slot { kind: OperandKind::U32, repeat: Repeat::One }]),
        5929 => Some(vec![Slot { kind: OperandKind::Id, repeat: Repeat::One }, Slot { kind: OperandKind::Id, repeat: Repeat::One }, Slot { kind: OperandKind::U32, repeat: Repeat::One }, Slot { kind: OperandKind::U32, repeat: Repeat::One }, Slot { kind: OperandKind::U32, repeat: Repeat::One }, Slot { kind: OperandKind::U32, repeat: Repeat::One }, Slot { kind: OperandKind::U32, repeat: Repeat::One }]),
        5930 => Some(vec![Slot { kind: OperandKind::Id, repeat: Repeat::One }, Slot { kind: OperandKind::Id, repeat: Repeat::One }, Slot { kind: OperandKind::U32, repeat: Repeat::One }, Slot { kind: OperandKind::U32, repeat: Repeat::One }, Slot { kind: OperandKind::U32, repeat: Repeat::One }, Slot { kind: OperandKind::U32, repeat: Repeat::One }, Slot { kind: OperandKind::U32, repeat: Repeat::One }]),
        5931 => Some(vec![Slot { kind: OperandKind::Id, repeat: Repeat::One }, Slot { kind: OperandKind::Id, repeat: Repeat::One }, Slot { kind: OperandKind::U32, repeat: Repeat::One }, Slot { kind: OperandKind::U32, repeat: Repeat::One }, Slot { kind: OperandKind::U32, repeat: Repeat::One }, Slot { kind: OperandKind::U32, repeat: Repeat::One }, Slot { kind: OperandKind::U32, repeat: Repeat::One }]),
        5932 => Some(vec![Slot { kind: OperandKind::Id, repeat: Repeat::One }, Slot { kind: OperandKind::Id, repeat: Repeat::One }, Slot { kind: OperandKind::U32, repeat: Repeat::One }, Slot { kind: OperandKind::U32, repeat: Repeat::One }, Slot { kind: OperandKind::U32, repeat: Repeat::One }, Slot { kind: OperandKind::U32, repeat: Repeat::One }, Slot { kind: OperandKind::U32, repeat: Repeat::One }]),
        5933 => Some(vec![Slot { kind: OperandKind::Id, repeat: Repeat::One }, Slot { kind: OperandKind::Id, repeat: Repeat::One }, Slot { kind: OperandKind::U32, repeat: Repeat::One }, Slot { kind: OperandKind::U32, repeat: Repeat::One }, Slot { kind: OperandKind::U32, repeat: Repeat::One }, Slot { kind: OperandKind::U32, repeat: Repeat::One }, Slot { kind: OperandKind::U32, repeat: Repeat::One }]),
        5934 => Some(vec![Slot { kind: OperandKind::Id, repeat: Repeat::One }]),
        5938 => Some(vec![Slot { kind: OperandKind::Id, repeat: Repeat::One }]),
        5946 => Some(vec![Slot { kind: OperandKind::Id, repeat: Repeat::One }, Slot { kind: OperandKind::Id, repeat: Repeat::One }]),
        5947 => Some(vec![Slot { kind: OperandKind::Id, repeat: Repeat::One }, Slot { kind: OperandKind::Id, repeat: Repeat::One }]),
        5949 => Some(vec![Slot { kind: OperandKind::Id, repeat: Repeat::One }, Slot { kind: OperandKind::Id, repeat: Repeat::One }]),
        6016 => Some(vec![Slot { kind: OperandKind::Id, repeat: Repeat::One }]),
        6017 => Some(vec![Slot { kind: OperandKind::Id, repeat: Repeat::One }]),
        6018 => Some(vec![Slot { kind: OperandKind::Id, repeat: Repeat::One }, Slot { kind: OperandKind::Id, repeat: Repeat::One }]),
        6019 => Some(vec![Slot { kind: OperandKind::Id, repeat: Repeat::One }, Slot { kind: OperandKind::Id, repeat: Repeat::One }]),
        6020 => Some(vec![Slot { kind: OperandKind::Id, repeat: Repeat::One }, Slot { kind: OperandKind::Id, repeat: Repeat::One }]),
        6021 => Some(vec![Slot { kind: OperandKind::Id, repeat: Repeat::One }, Slot { kind: OperandKind::Id, repeat: Repeat::One }]),
        6022 => Some(vec![Slot { kind: OperandKind::Id, repeat: Repeat::One }, Slot { kind: OperandKind::Id, repeat: Repeat::One }]),
        6023 => Some(vec![Slot { kind: OperandKind::Id, repeat: Repeat::One }, Slot { kind: OperandKind::Id, repeat: Repeat::One }]),
        6024 => Some(vec![Slot { kind: OperandKind::Id, repeat: Repeat::One }, Slot { kind: OperandKind::Id, repeat: Repeat::One }]),
        6025 => Some(vec![Slot { kind: OperandKind::Id, repeat: Repeat::One }, Slot { kind: OperandKind::Id, repeat: Repeat::One }]),
        6026 => Some(vec![Slot { kind: OperandKind::Id, repeat: Repeat::One }]),
        6027 => Some(vec![Slot { kind: OperandKind::Id, repeat: Repeat::One }, Slot { kind: OperandKind::Id, repeat: Repeat::One }]),
        6028 => Some(vec![Slot { kind: OperandKind::Id, repeat: Repeat::One }, Slot { kind: OperandKind::Id, repeat: Repeat::One }]),
        6029 => Some(vec![Slot { kind: OperandKind::Id, repeat: Repeat::One }]),
        6030 => Some(vec![Slot { kind: OperandKind::Id, repeat: Repeat::One }]),
        6031 => Some(vec![Slot { kind: OperandKind::Id, repeat: Repeat::One }, Slot { kind: OperandKind::Id, repeat: Repeat::One }]),
        6032 => Some(vec![Slot { kind: OperandKind::Id, repeat: Repeat::One }, Slot { kind: OperandKind::Id, repeat: Repeat::One }]),
        6035 => Some(vec![Slot { kind: OperandKind::Id, repeat: Repeat::One }, Slot { kind: OperandKind::Id, repeat: Repeat::One }, Slot { kind: OperandKind::Id, repeat: Repeat::One }, Slot { kind: OperandKind::Id, repeat: Repeat::One }]),
        6086 => Some(vec![Slot { kind: OperandKind::Enum(EnumKind::AccessQualifier), repeat: Repeat::One }]),
        6090 => Some(vec![Slot { kind: OperandKind::Id, repeat: Repeat::Many }]),
        6091 => Some(vec![Slot { kind: OperandKind::Id, repeat: Repeat::Many }]),
        6092 => Some(vec![Slot { kind: OperandKind::Id, repeat: Repeat::Many }]),
        6096 => Some(vec![Slot { kind: OperandKind::Id, repeat: Repeat::Many }]),
        6116 => Some(vec![Slot { kind: OperandKind::Id, repeat: Repeat::One }]),
        6117 => Some(vec![Slot { kind: OperandKind::Id, repeat: Repeat::One }]),
        6142 => Some(vec![Slot { kind: OperandKind::Id, repeat: Repeat::One }, Slot { kind: OperandKind::Id, repeat: Repeat::One }, Slot { kind: OperandKind::Id, repeat: Repeat::One }]),
        6143 => Some(vec![Slot { kind: OperandKind::Id, repeat: Repeat::One }, Slot { kind: OperandKind::Id, repeat: Repeat::One }, Slot { kind: OperandKind::Id, repeat: Repeat::One }]),
        6401 => Some(vec![Slot { kind: OperandKind::Id, repeat: Repeat::One }, Slot { kind: OperandKind::Enum(EnumKind::GroupOperation), repeat: Repeat::One }, Slot { kind: OperandKind::Id, repeat: Repeat::One }]),
        6402 => Some(vec![Slot { kind: OperandKind::Id, repeat: Repeat::One }, Slot { kind: OperandKind::Enum(EnumKind::GroupOperation), repeat: Repeat::One }, Slot { kind: OperandKind::Id, repeat: Repeat::One }]),
        6403 => Some(vec![Slot { kind: OperandKind::Id, repeat: Repeat::One }, Slot { kind: OperandKind::Enum(EnumKind::GroupOperation), repeat: Repeat::One }, Slot { kind: OperandKind::Id, repeat: Repeat::One }]),
        6404 => Some(vec![Slot { kind: OperandKind::Id, repeat: Repeat::One }, Slot { kind: OperandKind::Enum(EnumKind::GroupOperation), repeat: Repeat::One }, Slot { kind: OperandKind::Id, repeat: Repeat::One }]),
        6405 => Some(vec![Slot { kind: OperandKind::Id, repeat: Repeat::One }, Slot { kind: OperandKind::Enum(EnumKind::GroupOperation), repeat: Repeat::One }, Slot { kind: OperandKind::Id, repeat: Repeat::One }]),
        6406 => Some(vec![Slot { kind: OperandKind::Id, repeat: Repeat::One }, Slot { kind: OperandKind::Enum(EnumKind::GroupOperation), repeat: Repeat::One }, Slot { kind: OperandKind::Id, repeat: Repeat::One }]),
        6407 => Some(vec![Slot { kind: OperandKind::Id, repeat: Repeat::One }, Slot { kind: OperandKind::Enum(EnumKind::GroupOperation), repeat: Repeat::One }, Slot { kind: OperandKind::Id, repeat: Repeat::One }]),
        6408 => Some(vec![Slot { kind: OperandKind::Id, repeat: Repeat::One }, Slot { kind: OperandKind::Enum(EnumKind::GroupOperation), repeat: Repeat::One }, Slot { kind: OperandKind::Id, repeat: Repeat::One }]),
        _ => None,
    }
}

/// The operand layout of the instruction with opcode `op`, if the printer
/// knows the opcode.
pub fn opcode_slot_list(op: u32) -> (r: Option<Vec<Slot>>)
    ensures
        match r {
            Some(v) => opcode_slots(op) == Some(v@),
            None => opcode_slots(op) is None,
        },
{
    if 0 <= op && op <= 66 {
        opcode_slot_list_0(op)
    } else if 67 <= op && op <= 130 {
        opcode_slot_list_1(op)
    } else if 131 <= op && op <= 191 {
        opcode_slot_list_2(op)
    } else if 194 <= op && op <= 262 {
        opcode_slot_list_3(op)
    } else if 263 <= op && op <= 326 {
        opcode_slot_list_4(op)
    } else if 327 <= op && op <= 4449 {
        opcode_slot_list_5(op)
    } else if 4450 <= op && op <= 5272 {
        opcode_slot_list_6(op)
    } else if 5273 <= op && op <= 5593 {
        opcode_slot_list_7(op)
    } else if 5594 <= op && op <= 5742 {
        opcode_slot_list_8(op)
    } else if 5743 <= op && op <= 5802 {
        opcode_slot_list_9(op)
    } else if 5803 <= op && op <= 5911 {
        opcode_slot_list_10(op)
    } else if 5912 <= op && op <= 6408 {
        opcode_slot_list_11(op)
    } else {
        None
    }
}

} // verus!
