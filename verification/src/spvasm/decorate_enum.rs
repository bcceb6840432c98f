//! Which parameters of each decoration are enumerants, and of which enum.
use vstd::prelude::*;

use crate::error::Error;

verus! {

/// The enum that the `i`-th parameter of the decoration `decoration` belongs
/// to, if it is an enumerant.
pub open spec fn decorate_parameter_spec(decoration: u32, i: usize) -> Option<&'static str> {
    match decoration {
        11u32 => match i {
            0usize => Some("BuiltIn"),
            _ => None,
        },
        38u32 => match i {
            0usize => Some("FunctionParameterAttribute"),
            _ => None,
        },
        39u32 => match i {
            0usize => Some("FPRoundingMode"),
            _ => None,
        },
        40u32 => match i {
            0usize => Some("FPFastMathMode"),
            _ => None,
        },
        41u32 => match i {
            1usize => Some("LinkageType"),
            _ => None,
        },
        5822u32 => match i {
            1usize => Some("FPRoundingMode"),
            _ => None,
        },
        5823u32 => match i {
            1usize => Some("FPDenormMode"),
            _ => None,
        },
        6080u32 => match i {
            1usize => Some("FPOperationMode"),
            _ => None,
        },
        6180u32 => match i {
            0usize => Some("AccessQualifier"),
            _ => None,
        },
        6188u32 => match i {
            0usize => Some("HostAccessQualifier"),
            _ => None,
        },
        6190u32 => match i {
            0usize => Some("InitializationModeQualifier"),
            _ => None,
        },
        6442u32 => match i {
            1usize => Some("LoadCacheControl"),
            _ => None,
        },
        6443u32 => match i {
            1usize => Some("StoreCacheControl"),
            _ => None,
        },
        _ => None,
    }
}

/// Whether the decoration `decoration` has an enumerant parameter.
pub open spec fn has_enum_parameters(decoration: u32) -> bool {
    match decoration {
        11u32 | 38u32 | 39u32 | 40u32 | 41u32 | 5822u32 | 5823u32 | 6080u32 | 6180u32 | 6188u32 | 6190u32 | 6442u32 | 6443u32 => true,
        _ => false,
    }
}
/// The name of the enum of the `i`-th parameter of the decoration
/// `decoration`. A decoration with enumerant parameters reports an unknown
/// index for any other parameter; any other decoration reports that it has
/// none.
pub fn decorate_parameter_enum_type(decoration: u32, i: usize) -> (r: Result<&'static str, Error>)
    ensures
        match decorate_parameter_spec(decoration, i) {
            Some(name) => r == Ok::<&'static str, Error>(name),
            None => r == Err::<&'static str, Error>(if has_enum_parameters(decoration) {
                Error::UnknownDecorateParameterIndex(decoration, i)
            } else {
                Error::NotEnumDecorateParameter(decoration, i)
            }),
        },
{
    match decoration {
        11 => match i {
            0 => Ok("BuiltIn"),
            _ => Err(Error::UnknownDecorateParameterIndex(decoration, i)),
        },
        38 => match i {
            0 => Ok("FunctionParameterAttribute"),
            _ => Err(Error::UnknownDecorateParameterIndex(decoration, i)),
        },
        39 => match i {
            0 => Ok("FPRoundingMode"),
            _ => Err(Error::UnknownDecorateParameterIndex(decoration, i)),
        },
        40 => match i {
            0 => Ok("FPFastMathMode"),
            _ => Err(Error::UnknownDecorateParameterIndex(decoration, i)),
        },
        41 => match i {
            1 => Ok("LinkageType"),
            _ => Err(Error::UnknownDecorateParameterIndex(decoration, i)),
        },
        5822 => match i {
            1 => Ok("FPRoundingMode"),
            _ => Err(Error::UnknownDecorateParameterIndex(decoration, i)),
        },
        5823 => match i {
            1 => Ok("FPDenormMode"),
            _ => Err(Error::UnknownDecorateParameterIndex(decoration, i)),
        },
        6080 => match i {
            1 => Ok("FPOperationMode"),
            _ => Err(Error::UnknownDecorateParameterIndex(decoration, i)),
        },
        6180 => match i {
            0 => Ok("AccessQualifier"),
            _ => Err(Error::UnknownDecorateParameterIndex(decoration, i)),
        },
        6188 => match i {
            0 => Ok("HostAccessQualifier"),
            _ => Err(Error::UnknownDecorateParameterIndex(decoration, i)),
        },
        6190 => match i {
            0 => Ok("InitializationModeQualifier"),
            _ => Err(Error::UnknownDecorateParameterIndex(decoration, i)),
        },
        6442 => match i {
            1 => Ok("LoadCacheControl"),
            _ => Err(Error::UnknownDecorateParameterIndex(decoration, i)),
        },
        6443 => match i {
            1 => Ok("StoreCacheControl"),
            _ => Err(Error::UnknownDecorateParameterIndex(decoration, i)),
        },
        _ => Err(Error::NotEnumDecorateParameter(decoration, i)),
    }
}
} // verus!
