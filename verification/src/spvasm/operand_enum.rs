//! Which operands of each instruction are enumerants, and of which enum.
use vstd::prelude::*;

use crate::error::Error;

verus! {

/// The enum that the `i`-th operand of an instruction with opcode `opcode`
/// (after its result type and result ids) belongs to, if it is an enumerant.
pub open spec fn operand_enum_spec(opcode: u32, i: usize) -> Option<&'static str> {
    match opcode {
        3u32 => match i {
            0usize => Some("SourceLanguage"),
            _ => None,
        },
        14u32 => match i {
            0usize => Some("AddressingModel"),
            1usize => Some("MemoryModel"),
            _ => None,
        },
        15u32 => match i {
            0usize => Some("ExecutionModel"),
            _ => None,
        },
        16u32 => match i {
            1usize => Some("ExecutionMode"),
            _ => None,
        },
        17u32 => match i {
            0usize => Some("Capability"),
            _ => None,
        },
        25u32 => match i {
            1usize => Some("Dim"),
            6usize => Some("ImageFormat"),
            7usize => Some("AccessQualifier"),
            _ => None,
        },
        32u32 => match i {
            0usize => Some("StorageClass"),
            _ => None,
        },
        38u32 => match i {
            0usize => Some("AccessQualifier"),
            _ => None,
        },
        39u32 => match i {
            1usize => Some("StorageClass"),
            _ => None,
        },
        45u32 => match i {
            0usize => Some("SamplerAddressingMode"),
            2usize => Some("SamplerFilterMode"),
            _ => None,
        },
        54u32 => match i {
            0usize => Some("FunctionControl"),
            _ => None,
        },
        59u32 => match i {
            0usize => Some("StorageClass"),
            _ => None,
        },
        61u32 => match i {
            1usize => Some("MemoryAccess"),
            _ => None,
        },
        62u32 => match i {
            2usize => Some("MemoryAccess"),
            _ => None,
        },
        63u32 => match i {
            2usize => Some("MemoryAccess"),
            3usize => Some("MemoryAccess"),
            _ => None,
        },
        64u32 => match i {
            3usize => Some("MemoryAccess"),
            4usize => Some("MemoryAccess"),
            _ => None,
        },
        71u32 => match i {
            1usize => Some("Decoration"),
            _ => None,
        },
        72u32 => match i {
            2usize => Some("Decoration"),
            _ => None,
        },
        87u32 => match i {
            2usize => Some("ImageOperands"),
            _ => None,
        },
        88u32 => match i {
            2usize => Some("ImageOperands"),
            _ => None,
        },
        89u32 => match i {
            3usize => Some("ImageOperands"),
            _ => None,
        },
        90u32 => match i {
            3usize => Some("ImageOperands"),
            _ => None,
        },
        91u32 => match i {
            2usize => Some("ImageOperands"),
            _ => None,
        },
        92u32 => match i {
            2usize => Some("ImageOperands"),
            _ => None,
        },
        93u32 => match i {
            3usize => Some("ImageOperands"),
            _ => None,
        },
        94u32 => match i {
            3usize => Some("ImageOperands"),
            _ => None,
        },
        95u32 => match i {
            2usize => Some("ImageOperands"),
            _ => None,
        },
        96u32 => match i {
            3usize => Some("ImageOperands"),
            _ => None,
        },
        97u32 => match i {
            3usize => Some("ImageOperands"),
            _ => None,
        },
        98u32 => match i {
            2usize => Some("ImageOperands"),
            _ => None,
        },
        99u32 => match i {
            3usize => Some("ImageOperands"),
            _ => None,
        },
        123u32 => match i {
            1usize => Some("StorageClass"),
            _ => None,
        },
        246u32 => match i {
            2usize => Some("LoopControl"),
            _ => None,
        },
        247u32 => match i {
            1usize => Some("SelectionControl"),
            _ => None,
        },
        264u32 => match i {
            1usize => Some("GroupOperation"),
            _ => None,
        },
        265u32 => match i {
            1usize => Some("GroupOperation"),
            _ => None,
        },
        266u32 => match i {
            1usize => Some("GroupOperation"),
            _ => None,
        },
        267u32 => match i {
            1usize => Some("GroupOperation"),
            _ => None,
        },
        268u32 => match i {
            1usize => Some("GroupOperation"),
            _ => None,
        },
        269u32 => match i {
            1usize => Some("GroupOperation"),
            _ => None,
        },
        270u32 => match i {
            1usize => Some("GroupOperation"),
            _ => None,
        },
        271u32 => match i {
            1usize => Some("GroupOperation"),
            _ => None,
        },
        305u32 => match i {
            2usize => Some("ImageOperands"),
            _ => None,
        },
        306u32 => match i {
            2usize => Some("ImageOperands"),
            _ => None,
        },
        307u32 => match i {
            3usize => Some("ImageOperands"),
            _ => None,
        },
        308u32 => match i {
            3usize => Some("ImageOperands"),
            _ => None,
        },
        309u32 => match i {
            2usize => Some("ImageOperands"),
            _ => None,
        },
        310u32 => match i {
            2usize => Some("ImageOperands"),
            _ => None,
        },
        311u32 => match i {
            3usize => Some("ImageOperands"),
            _ => None,
        },
        312u32 => match i {
            3usize => Some("ImageOperands"),
            _ => None,
        },
        313u32 => match i {
            2usize => Some("ImageOperands"),
            _ => None,
        },
        314u32 => match i {
            3usize => Some("ImageOperands"),
            _ => None,
        },
        315u32 => match i {
            3usize => Some("ImageOperands"),
            _ => None,
        },
        320u32 => match i {
            2usize => Some("ImageOperands"),
            _ => None,
        },
        331u32 => match i {
            1usize => Some("ExecutionMode"),
            _ => None,
        },
        332u32 => match i {
            1usize => Some("Decoration"),
            _ => None,
        },
        342u32 => match i {
            1usize => Some("GroupOperation"),
            _ => None,
        },
        349u32 => match i {
            1usize => Some("GroupOperation"),
            _ => None,
        },
        350u32 => match i {
            1usize => Some("GroupOperation"),
            _ => None,
        },
        351u32 => match i {
            1usize => Some("GroupOperation"),
            _ => None,
        },
        352u32 => match i {
            1usize => Some("GroupOperation"),
            _ => None,
        },
        353u32 => match i {
            1usize => Some("GroupOperation"),
            _ => None,
        },
        354u32 => match i {
            1usize => Some("GroupOperation"),
            _ => None,
        },
        355u32 => match i {
            1usize => Some("GroupOperation"),
            _ => None,
        },
        356u32 => match i {
            1usize => Some("GroupOperation"),
            _ => None,
        },
        357u32 => match i {
            1usize => Some("GroupOperation"),
            _ => None,
        },
        358u32 => match i {
            1usize => Some("GroupOperation"),
            _ => None,
        },
        359u32 => match i {
            1usize => Some("GroupOperation"),
            _ => None,
        },
        360u32 => match i {
            1usize => Some("GroupOperation"),
            _ => None,
        },
        361u32 => match i {
            1usize => Some("GroupOperation"),
            _ => None,
        },
        362u32 => match i {
            1usize => Some("GroupOperation"),
            _ => None,
        },
        363u32 => match i {
            1usize => Some("GroupOperation"),
            _ => None,
        },
        364u32 => match i {
            1usize => Some("GroupOperation"),
            _ => None,
        },
        4450u32 => match i {
            2usize => Some("PackedVectorFormat"),
            _ => None,
        },
        4451u32 => match i {
            2usize => Some("PackedVectorFormat"),
            _ => None,
        },
        4452u32 => match i {
            2usize => Some("PackedVectorFormat"),
            _ => None,
        },
        4453u32 => match i {
            3usize => Some("PackedVectorFormat"),
            _ => None,
        },
        4454u32 => match i {
            3usize => Some("PackedVectorFormat"),
            _ => None,
        },
        4455u32 => match i {
            3usize => Some("PackedVectorFormat"),
            _ => None,
        },
        4457u32 => match i {
            3usize => Some("MemoryAccess"),
            _ => None,
        },
        4458u32 => match i {
            4usize => Some("MemoryAccess"),
            _ => None,
        },
        4459u32 => match i {
            3usize => Some("CooperativeMatrixOperands"),
            _ => None,
        },
        5000u32 => match i {
            1usize => Some("GroupOperation"),
            _ => None,
        },
        5001u32 => match i {
            1usize => Some("GroupOperation"),
            _ => None,
        },
        5002u32 => match i {
            1usize => Some("GroupOperation"),
            _ => None,
        },
        5003u32 => match i {
            1usize => Some("GroupOperation"),
            _ => None,
        },
        5004u32 => match i {
            1usize => Some("GroupOperation"),
            _ => None,
        },
        5005u32 => match i {
            1usize => Some("GroupOperation"),
            _ => None,
        },
        5006u32 => match i {
            1usize => Some("GroupOperation"),
            _ => None,
        },
        5007u32 => match i {
            1usize => Some("GroupOperation"),
            _ => None,
        },
        5283u32 => match i {
            4usize => Some("ImageOperands"),
            _ => None,
        },
        5359u32 => match i {
            3usize => Some("MemoryAccess"),
            _ => None,
        },
        5360u32 => match i {
            4usize => Some("MemoryAccess"),
            _ => None,
        },
        5632u32 => match i {
            1usize => Some("Decoration"),
            _ => None,
        },
        5633u32 => match i {
            2usize => Some("Decoration"),
            _ => None,
        },
        6086u32 => match i {
            0usize => Some("AccessQualifier"),
            _ => None,
        },
        6401u32 => match i {
            1usize => Some("GroupOperation"),
            _ => None,
        },
        6402u32 => match i {
            1usize => Some("GroupOperation"),
            _ => None,
        },
        6403u32 => match i {
            1usize => Some("GroupOperation"),
            _ => None,
        },
        6404u32 => match i {
            1usize => Some("GroupOperation"),
            _ => None,
        },
        6405u32 => match i {
            1usize => Some("GroupOperation"),
            _ => None,
        },
        6406u32 => match i {
            1usize => Some("GroupOperation"),
            _ => None,
        },
        6407u32 => match i {
            1usize => Some("GroupOperation"),
            _ => None,
        },
        6408u32 => match i {
            1usize => Some("GroupOperation"),
            _ => None,
        },
        _ => None,
    }
}

/// Whether instructions with opcode `opcode` have an enumerant operand.
pub open spec fn has_enum_operands(opcode: u32) -> bool {
    match opcode {
        3u32 | 14u32 | 15u32 | 16u32 | 17u32 | 25u32 | 32u32 | 38u32 | 39u32 | 45u32 | 54u32 | 59u32 | 61u32 | 62u32 | 63u32 | 64u32 | 71u32 | 72u32 | 87u32 | 88u32 | 89u32 | 90u32 | 91u32 | 92u32 | 93u32 | 94u32 | 95u32 | 96u32 | 97u32 | 98u32 | 99u32 | 123u32 | 246u32 | 247u32 | 264u32 | 265u32 | 266u32 | 267u32 | 268u32 | 269u32 | 270u32 | 271u32 | 305u32 | 306u32 | 307u32 | 308u32 | 309u32 | 310u32 | 311u32 | 312u32 | 313u32 | 314u32 | 315u32 | 320u32 | 331u32 | 332u32 | 342u32 | 349u32 | 350u32 | 351u32 | 352u32 | 353u32 | 354u32 | 355u32 | 356u32 | 357u32 | 358u32 | 359u32 | 360u32 | 361u32 | 362u32 | 363u32 | 364u32 | 4450u32 | 4451u32 | 4452u32 | 4453u32 | 4454u32 | 4455u32 | 4457u32 | 4458u32 | 4459u32 | 5000u32 | 5001u32 | 5002u32 | 5003u32 | 5004u32 | 5005u32 | 5006u32 | 5007u32 | 5283u32 | 5359u32 | 5360u32 | 5632u32 | 5633u32 | 6086u32 | 6401u32 | 6402u32 | 6403u32 | 6404u32 | 6405u32 | 6406u32 | 6407u32 | 6408u32 => true,
        _ => false,
    }
}
/// The name of the enum of the `i`-th operand of an instruction with opcode
/// `opcode`. An instruction with enumerant operands reports an unknown index
/// for any other operand; any other instruction reports that it has none.
pub fn operand_enum_type(opcode: u32, i: usize) -> (r: Result<&'static str, Error>)
    ensures
        match operand_enum_spec(opcode, i) {
            Some(name) => r == Ok::<&'static str, Error>(name),
            None => r == Err::<&'static str, Error>(if has_enum_operands(opcode) {
                Error::UnknownOperandIndex(opcode, i)
            } else {
                Error::NotEnumOperand(opcode, i)
            }),
        },
{
    match opcode {
        3 => match i {
            0 => Ok("SourceLanguage"),
            _ => Err(Error::UnknownOperandIndex(opcode, i)),
        },
        14 => match i {
            0 => Ok("AddressingModel"),
            1 => Ok("MemoryModel"),
            _ => Err(Error::UnknownOperandIndex(opcode, i)),
        },
        15 => match i {
            0 => Ok("ExecutionModel"),
            _ => Err(Error::UnknownOperandIndex(opcode, i)),
        },
        16 => match i {
            1 => Ok("ExecutionMode"),
            _ => Err(Error::UnknownOperandIndex(opcode, i)),
        },
        17 => match i {
            0 => Ok("Capability"),
            _ => Err(Error::UnknownOperandIndex(opcode, i)),
        },
        25 => match i {
            1 => Ok("Dim"),
            6 => Ok("ImageFormat"),
            7 => Ok("AccessQualifier"),
            _ => Err(Error::UnknownOperandIndex(opcode, i)),
        },
        32 => match i {
            0 => Ok("StorageClass"),
            _ => Err(Error::UnknownOperandIndex(opcode, i)),
        },
        38 => match i {
            0 => Ok("AccessQualifier"),
            _ => Err(Error::UnknownOperandIndex(opcode, i)),
        },
        39 => match i {
            1 => Ok("StorageClass"),
            _ => Err(Error::UnknownOperandIndex(opcode, i)),
        },
        45 => match i {
            0 => Ok("SamplerAddressingMode"),
            2 => Ok("SamplerFilterMode"),
            _ => Err(Error::UnknownOperandIndex(opcode, i)),
        },
        54 => match i {
            0 => Ok("FunctionControl"),
            _ => Err(Error::UnknownOperandIndex(opcode, i)),
        },
        59 => match i {
            0 => Ok("StorageClass"),
            _ => Err(Error::UnknownOperandIndex(opcode, i)),
        },
        61 => match i {
            1 => Ok("MemoryAccess"),
            _ => Err(Error::UnknownOperandIndex(opcode, i)),
        },
        62 => match i {
            2 => Ok("MemoryAccess"),
            _ => Err(Error::UnknownOperandIndex(opcode, i)),
        },
        63 => match i {
            2 => Ok("MemoryAccess"),
            3 => Ok("MemoryAccess"),
            _ => Err(Error::UnknownOperandIndex(opcode, i)),
        },
        64 => match i {
            3 => Ok("MemoryAccess"),
            4 => Ok("MemoryAccess"),
            _ => Err(Error::UnknownOperandIndex(opcode, i)),
        },
        71 => match i {
            1 => Ok("Decoration"),
            _ => Err(Error::UnknownOperandIndex(opcode, i)),
        },
        72 => match i {
            2 => Ok("Decoration"),
            _ => Err(Error::UnknownOperandIndex(opcode, i)),
        },
        87 => match i {
            2 => Ok("ImageOperands"),
            _ => Err(Error::UnknownOperandIndex(opcode, i)),
        },
        88 => match i {
            2 => Ok("ImageOperands"),
            _ => Err(Error::UnknownOperandIndex(opcode, i)),
        },
        89 => match i {
            3 => Ok("ImageOperands"),
            _ => Err(Error::UnknownOperandIndex(opcode, i)),
        },
        90 => match i {
            3 => Ok("ImageOperands"),
            _ => Err(Error::UnknownOperandIndex(opcode, i)),
        },
        91 => match i {
            2 => Ok("ImageOperands"),
            _ => Err(Error::UnknownOperandIndex(opcode, i)),
        },
        92 => match i {
            2 => Ok("ImageOperands"),
            _ => Err(Error::UnknownOperandIndex(opcode, i)),
        },
        93 => match i {
            3 => Ok("ImageOperands"),
            _ => Err(Error::UnknownOperandIndex(opcode, i)),
        },
        94 => match i {
            3 => Ok("ImageOperands"),
            _ => Err(Error::UnknownOperandIndex(opcode, i)),
        },
        95 => match i {
            2 => Ok("ImageOperands"),
            _ => Err(Error::UnknownOperandIndex(opcode, i)),
        },
        96 => match i {
            3 => Ok("ImageOperands"),
            _ => Err(Error::UnknownOperandIndex(opcode, i)),
        },
        97 => match i {
            3 => Ok("ImageOperands"),
            _ => Err(Error::UnknownOperandIndex(opcode, i)),
        },
        98 => match i {
            2 => Ok("ImageOperands"),
            _ => Err(Error::UnknownOperandIndex(opcode, i)),
        },
        99 => match i {
            3 => Ok("ImageOperands"),
            _ => Err(Error::UnknownOperandIndex(opcode, i)),
        },
        123 => match i {
            1 => Ok("StorageClass"),
            _ => Err(Error::UnknownOperandIndex(opcode, i)),
        },
        246 => match i {
            2 => Ok("LoopControl"),
            _ => Err(Error::UnknownOperandIndex(opcode, i)),
        },
        247 => match i {
            1 => Ok("SelectionControl"),
            _ => Err(Error::UnknownOperandIndex(opcode, i)),
        },
        264 => match i {
            1 => Ok("GroupOperation"),
            _ => Err(Error::UnknownOperandIndex(opcode, i)),
        },
        265 => match i {
            1 => Ok("GroupOperation"),
            _ => Err(Error::UnknownOperandIndex(opcode, i)),
        },
        266 => match i {
            1 => Ok("GroupOperation"),
            _ => Err(Error::UnknownOperandIndex(opcode, i)),
        },
        267 => match i {
            1 => Ok("GroupOperation"),
            _ => Err(Error::UnknownOperandIndex(opcode, i)),
        },
        268 => match i {
            1 => Ok("GroupOperation"),
            _ => Err(Error::UnknownOperandIndex(opcode, i)),
        },
        269 => match i {
            1 => Ok("GroupOperation"),
            _ => Err(Error::UnknownOperandIndex(opcode, i)),
        },
        270 => match i {
            1 => Ok("GroupOperation"),
            _ => Err(Error::UnknownOperandIndex(opcode, i)),
        },
        271 => match i {
            1 => Ok("GroupOperation"),
            _ => Err(Error::UnknownOperandIndex(opcode, i)),
        },
        305 => match i {
            2 => Ok("ImageOperands"),
            _ => Err(Error::UnknownOperandIndex(opcode, i)),
        },
        306 => match i {
            2 => Ok("ImageOperands"),
            _ => Err(Error::UnknownOperandIndex(opcode, i)),
        },
        307 => match i {
            3 => Ok("ImageOperands"),
            _ => Err(Error::UnknownOperandIndex(opcode, i)),
        },
        308 => match i {
            3 => Ok("ImageOperands"),
            _ => Err(Error::UnknownOperandIndex(opcode, i)),
        },
        309 => match i {
            2 => Ok("ImageOperands"),
            _ => Err(Error::UnknownOperandIndex(opcode, i)),
        },
        310 => match i {
            2 => Ok("ImageOperands"),
            _ => Err(Error::UnknownOperandIndex(opcode, i)),
        },
        311 => match i {
            3 => Ok("ImageOperands"),
            _ => Err(Error::UnknownOperandIndex(opcode, i)),
        },
        312 => match i {
            3 => Ok("ImageOperands"),
            _ => Err(Error::UnknownOperandIndex(opcode, i)),
        },
        313 => match i {
            2 => Ok("ImageOperands"),
            _ => Err(Error::UnknownOperandIndex(opcode, i)),
        },
        314 => match i {
            3 => Ok("ImageOperands"),
            _ => Err(Error::UnknownOperandIndex(opcode, i)),
        },
        315 => match i {
            3 => Ok("ImageOperands"),
            _ => Err(Error::UnknownOperandIndex(opcode, i)),
        },
        320 => match i {
            2 => Ok("ImageOperands"),
            _ => Err(Error::UnknownOperandIndex(opcode, i)),
        },
        331 => match i {
            1 => Ok("ExecutionMode"),
            _ => Err(Error::UnknownOperandIndex(opcode, i)),
        },
        332 => match i {
            1 => Ok("Decoration"),
            _ => Err(Error::UnknownOperandIndex(opcode, i)),
        },
        342 => match i {
            1 => Ok("GroupOperation"),
            _ => Err(Error::UnknownOperandIndex(opcode, i)),
        },
        349 => match i {
            1 => Ok("GroupOperation"),
            _ => Err(Error::UnknownOperandIndex(opcode, i)),
        },
        350 => match i {
            1 => Ok("GroupOperation"),
            _ => Err(Error::UnknownOperandIndex(opcode, i)),
        },
        351 => match i {
            1 => Ok("GroupOperation"),
            _ => Err(Error::UnknownOperandIndex(opcode, i)),
        },
        352 => match i {
            1 => Ok("GroupOperation"),
            _ => Err(Error::UnknownOperandIndex(opcode, i)),
        },
        353 => match i {
            1 => Ok("GroupOperation"),
            _ => Err(Error::UnknownOperandIndex(opcode, i)),
        },
        354 => match i {
            1 => Ok("GroupOperation"),
            _ => Err(Error::UnknownOperandIndex(opcode, i)),
        },
        355 => match i {
            1 => Ok("GroupOperation"),
            _ => Err(Error::UnknownOperandIndex(opcode, i)),
        },
        356 => match i {
            1 => Ok("GroupOperation"),
            _ => Err(Error::UnknownOperandIndex(opcode, i)),
        },
        357 => match i {
            1 => Ok("GroupOperation"),
            _ => Err(Error::UnknownOperandIndex(opcode, i)),
        },
        358 => match i {
            1 => Ok("GroupOperation"),
            _ => Err(Error::UnknownOperandIndex(opcode, i)),
        },
        359 => match i {
            1 => Ok("GroupOperation"),
            _ => Err(Error::UnknownOperandIndex(opcode, i)),
        },
        360 => match i {
            1 => Ok("GroupOperation"),
            _ => Err(Error::UnknownOperandIndex(opcode, i)),
        },
        361 => match i {
            1 => Ok("GroupOperation"),
            _ => Err(Error::UnknownOperandIndex(opcode, i)),
        },
        362 => match i {
            1 => Ok("GroupOperation"),
            _ => Err(Error::UnknownOperandIndex(opcode, i)),
        },
        363 => match i {
            1 => Ok("GroupOperation"),
            _ => Err(Error::UnknownOperandIndex(opcode, i)),
        },
        364 => match i {
            1 => Ok("GroupOperation"),
            _ => Err(Error::UnknownOperandIndex(opcode, i)),
        },
        4450 => match i {
            2 => Ok("PackedVectorFormat"),
            _ => Err(Error::UnknownOperandIndex(opcode, i)),
        },
        4451 => match i {
            2 => Ok("PackedVectorFormat"),
            _ => Err(Error::UnknownOperandIndex(opcode, i)),
        },
        4452 => match i {
            2 => Ok("PackedVectorFormat"),
            _ => Err(Error::UnknownOperandIndex(opcode, i)),
        },
        4453 => match i {
            3 => Ok("PackedVectorFormat"),
            _ => Err(Error::UnknownOperandIndex(opcode, i)),
        },
        4454 => match i {
            3 => Ok("PackedVectorFormat"),
            _ => Err(Error::UnknownOperandIndex(opcode, i)),
        },
        4455 => match i {
            3 => Ok("PackedVectorFormat"),
            _ => Err(Error::UnknownOperandIndex(opcode, i)),
        },
        4457 => match i {
            3 => Ok("MemoryAccess"),
            _ => Err(Error::UnknownOperandIndex(opcode, i)),
        },
        4458 => match i {
            4 => Ok("MemoryAccess"),
            _ => Err(Error::UnknownOperandIndex(opcode, i)),
        },
        4459 => match i {
            3 => Ok("CooperativeMatrixOperands"),
            _ => Err(Error::UnknownOperandIndex(opcode, i)),
        },
        5000 => match i {
            1 => Ok("GroupOperation"),
            _ => Err(Error::UnknownOperandIndex(opcode, i)),
        },
        5001 => match i {
            1 => Ok("GroupOperation"),
            _ => Err(Error::UnknownOperandIndex(opcode, i)),
        },
        5002 => match i {
            1 => Ok("GroupOperation"),
            _ => Err(Error::UnknownOperandIndex(opcode, i)),
        },
        5003 => match i {
            1 => Ok("GroupOperation"),
            _ => Err(Error::UnknownOperandIndex(opcode, i)),
        },
        5004 => match i {
            1 => Ok("GroupOperation"),
            _ => Err(Error::UnknownOperandIndex(opcode, i)),
        },
        5005 => match i {
            1 => Ok("GroupOperation"),
            _ => Err(Error::UnknownOperandIndex(opcode, i)),
        },
        5006 => match i {
            1 => Ok("GroupOperation"),
            _ => Err(Error::UnknownOperandIndex(opcode, i)),
        },
        5007 => match i {
            1 => Ok("GroupOperation"),
            _ => Err(Error::UnknownOperandIndex(opcode, i)),
        },
        5283 => match i {
            4 => Ok("ImageOperands"),
            _ => Err(Error::UnknownOperandIndex(opcode, i)),
        },
        5359 => match i {
            3 => Ok("MemoryAccess"),
            _ => Err(Error::UnknownOperandIndex(opcode, i)),
        },
        5360 => match i {
            4 => Ok("MemoryAccess"),
            _ => Err(Error::UnknownOperandIndex(opcode, i)),
        },
        5632 => match i {
            1 => Ok("Decoration"),
            _ => Err(Error::UnknownOperandIndex(opcode, i)),
        },
        5633 => match i {
            2 => Ok("Decoration"),
            _ => Err(Error::UnknownOperandIndex(opcode, i)),
        },
        6086 => match i {
            0 => Ok("AccessQualifier"),
            _ => Err(Error::UnknownOperandIndex(opcode, i)),
        },
        6401 => match i {
            1 => Ok("GroupOperation"),
            _ => Err(Error::UnknownOperandIndex(opcode, i)),
        },
        6402 => match i {
            1 => Ok("GroupOperation"),
            _ => Err(Error::UnknownOperandIndex(opcode, i)),
        },
        6403 => match i {
            1 => Ok("GroupOperation"),
            _ => Err(Error::UnknownOperandIndex(opcode, i)),
        },
        6404 => match i {
            1 => Ok("GroupOperation"),
            _ => Err(Error::UnknownOperandIndex(opcode, i)),
        },
        6405 => match i {
            1 => Ok("GroupOperation"),
            _ => Err(Error::UnknownOperandIndex(opcode, i)),
        },
        6406 => match i {
            1 => Ok("GroupOperation"),
            _ => Err(Error::UnknownOperandIndex(opcode, i)),
        },
        6407 => match i {
            1 => Ok("GroupOperation"),
            _ => Err(Error::UnknownOperandIndex(opcode, i)),
        },
        6408 => match i {
            1 => Ok("GroupOperation"),
            _ => Err(Error::UnknownOperandIndex(opcode, i)),
        },
        _ => Err(Error::NotEnumOperand(opcode, i)),
    }
}
} // verus!
