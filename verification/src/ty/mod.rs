//! Structured representations of SPIR-V types.
use vstd::prelude::*;

pub mod access;
pub mod copy;
pub mod equiv;
pub mod image;
pub mod layout;
pub mod mutate;
pub mod reg;
pub mod text;

pub use spirv::StorageClass;
pub use image::{Dim, ImageFormat};
pub use access::AccessType;
pub use reg::TypeRegistry;

verus! {

/// In-memory layout and access queries shared by all SPIR-V types.
///
/// Sizes are in bytes. The contracts are stated over the spec functions of the
/// trait; the sizes of all the types are defined once, over `Type`, in
/// `ty_min_size`, `ty_size` and `ty_member_offset`.
pub trait SpirvType {
    /// Minimum size, if the type can be represented in memory.
    spec fn spec_min_size(&self) -> Option<usize>;

    /// Size, if the type can be represented in memory.
    spec fn spec_size(&self) -> Option<usize>;

    /// Offset of the given member.
    spec fn spec_member_offset(&self, member_index: usize) -> Option<usize>;

    /// How the type can be accessed.
    spec fn spec_access_ty(&self) -> Option<AccessType>;

    /// The sizes of the type can be computed without exceeding `usize`.
    spec fn sizes_fit(&self) -> bool;

    /// The offset of the given member can be computed without exceeding
    /// `usize`.
    spec fn offset_fits(&self, member_index: usize) -> bool;

    /// Minimum size of the type in bytes if it can be represented in-memory.
    /// It's the size of all static members and plus one element if it's an
    /// array.
    fn min_size(&self) -> (r: Option<usize>)
        requires
            self.sizes_fit(),
        ensures
            r == self.spec_min_size(),
    ;

    /// Size of the type in bytes if it can be represented in-memory.
    fn size(&self) -> (r: Option<usize>)
        requires
            self.sizes_fit(),
        ensures
            r == self.spec_size(),
    ;

    /// Returns true if the type is sized. A sized type can be represented
    /// in-memory. Otherwise the type can only be used as a descriptor resource.
    fn is_sized(&self) -> (r: bool)
        requires
            self.sizes_fit(),
        ensures
            r == self.spec_size() is Some,
    {
        self.size().is_some()
    }

    /// Returns the offset of the i-th member in bytes if it's a composite type.
    fn member_offset(&self, member_index: usize) -> (r: Option<usize>)
        requires
            self.offset_fits(member_index),
        ensures
            r == self.spec_member_offset(member_index),
    ;

    /// Returns how the type can be accessed: `ReadOnly`, `WriteOnly` or
    /// `ReadWrite`.
    fn access_ty(&self) -> (r: Option<AccessType>)
        ensures
            r == self.spec_access_ty(),
    ;
}

#[derive(PartialEq, Eq, Hash, Clone, Copy, Debug, Structural)]
pub enum ScalarType {
    /// Pseudo-type representing no data.
    Void,
    /// Boolean value of either true or false.
    Boolean,
    /// Two's complement integer.
    Integer {
        /// Number of bits the integer takes.
        bits: u32,
        /// Whether the integer is signed.
        is_signed: bool,
    },
    /// IEEE 754 floating-point number.
    Float {
        /// Number of bits the float takes.
        bits: u32,
    },
}

impl ScalarType {
    /// Create a signed integer type with the given number of bits.
    pub fn signed_int(bits: u32) -> (r: Self)
        ensures
            r == (ScalarType::Integer { bits, is_signed: true }),
    {
        Self::Integer { bits, is_signed: true }
    }

    /// Create an unsigned integer type with the given number of bits.
    pub fn uint(bits: u32) -> (r: Self)
        ensures
            r == (ScalarType::Integer { bits, is_signed: false }),
    {
        Self::Integer { bits, is_signed: false }
    }

    /// Create a floating point type with the given number of bits.
    pub fn float(bits: u32) -> (r: Self)
        ensures
            r == (ScalarType::Float { bits }),
    {
        Self::Float { bits }
    }

    /// Create a 32-bit signed integer type.
    pub fn i32() -> (r: Self)
        ensures
            r == (ScalarType::Integer { bits: 32, is_signed: true }),
    {
        Self::signed_int(32)
    }

    /// Create a 32-bit unsigned integer type.
    pub fn u32() -> (r: Self)
        ensures
            r == (ScalarType::Integer { bits: 32, is_signed: false }),
    {
        Self::uint(32)
    }

    /// Create a 32-bit floating-point type.
    pub fn float32() -> (r: Self)
        ensures
            r == (ScalarType::Float { bits: 32 }),
    {
        Self::float(32)
    }
}

#[derive(PartialEq, Eq, Hash, Clone, Copy, Debug, Structural)]
pub struct VectorType {
    /// Vector scalar type.
    pub scalar_ty: ScalarType,
    /// Number of scalar components in the vector.
    pub scalar_count: u32,
}

#[derive(PartialEq, Eq, Hash, Clone, Copy, Debug, Structural)]
pub enum MatrixAxisOrder {
    ColumnMajor,
    RowMajor,
}

impl Default for MatrixAxisOrder {
    fn default() -> (r: MatrixAxisOrder)
        ensures
            r == MatrixAxisOrder::ColumnMajor,
    {
        MatrixAxisOrder::ColumnMajor
    }
}

#[derive(PartialEq, Eq, Hash, Clone, Copy, Debug, Structural)]
pub struct MatrixType {
    /// Matrix vector type.
    pub vector_ty: VectorType,
    /// Number of vectors in the matrix.
    pub vector_count: u32,
    /// Axis order of the matrix. Valid SPIR-V never gives a `None` major.
    pub axis_order: Option<MatrixAxisOrder>,
    /// Stride between vectors in the matrix. Valid SPIR-V never gives a `None`
    /// stride.
    pub stride: Option<usize>,
}

#[derive(PartialEq, Eq, Hash, Debug)]
pub struct ImageType {
    /// Scalar type of image access result.
    pub scalar_ty: ScalarType,
    /// Dimension of the image.
    pub dim: Dim,
    /// Whether the image is a depth image, or `None` if it's unknown at compile
    /// time.
    pub is_depth: Option<bool>,
    /// Whether the image is an array of images.
    pub is_array: bool,
    /// Whether the image is multisampled.
    pub is_multisampled: bool,
    /// Whether the image is sampled, or `None` if it's unknown at compile time.
    pub is_sampled: Option<bool>,
    /// Matches `VkImageCreateInfo::format`.
    pub fmt: ImageFormat,
}

#[derive(PartialEq, Eq, Hash, Clone, Copy, Debug, Structural)]
pub struct SamplerType {}

#[derive(PartialEq, Eq, Hash, Debug)]
pub struct CombinedImageSamplerType {
    pub sampled_img_ty: SampledImageType,
}

#[derive(PartialEq, Eq, Hash, Debug)]
pub struct SampledImageType {
    /// Scalar type of image access result.
    pub scalar_ty: ScalarType,
    /// Dimension of the image.
    pub dim: Dim,
    /// Whether the image is an array of images.
    pub is_array: bool,
    /// Whether the image is multisampled.
    pub is_multisampled: bool,
}

#[derive(PartialEq, Eq, Hash, Debug)]
pub struct StorageImageType {
    /// Dimension of the image.
    pub dim: Dim,
    /// Whether the image is an array of images.
    pub is_array: bool,
    /// Whether the image is multisampled.
    pub is_multisampled: bool,
    /// Matches `VkImageCreateInfo::format`.
    pub fmt: ImageFormat,
}

#[derive(PartialEq, Eq, Hash, Clone, Copy, Debug, Structural)]
pub struct SubpassDataType {
    /// Scalar type of subpass data access result.
    pub scalar_ty: ScalarType,
    /// Image arrangement which encodes multisampling state.
    pub is_multisampled: bool,
}

#[derive(PartialEq, Eq, Hash, Debug)]
pub struct ArrayType {
    /// Type of the array element.
    pub element_ty: Box<Type>,
    /// Number of elements in the array. None if the array length is only known
    /// at runtime.
    pub element_count: Option<u32>,
    /// Stride between elements in the array. None if the array doesn't have
    /// a explicitly specified layout.
    pub stride: Option<usize>,
}

#[derive(PartialEq, Eq, Hash, Debug)]
pub struct StructMember {
    pub name: Option<String>,
    /// Offset of this member from the beginning of the struct. None if the
    /// struct doesn't have a explicitly specified layout.
    pub offset: Option<usize>,
    pub ty: Type,
    pub access_ty: AccessType,
}

#[derive(PartialEq, Eq, Hash, Debug)]
pub struct StructType {
    pub name: Option<String>,
    pub members: Vec<StructMember>,
}

impl StructType {
    /// The name of the struct, if it has one.
    pub fn name(&self) -> (r: Option<&str>)
        ensures
            match (r, self.name) {
                (Some(a), Some(b)) => a@ == b@,
                (None, None) => true,
                _ => false,
            },
    {
        match &self.name {
            Some(x) => Some(x.as_str()),
            None => None,
        }
    }
}

#[derive(PartialEq, Eq, Hash, Clone, Copy, Debug, Structural)]
pub struct AccelStructType {}

#[derive(PartialEq, Eq, Hash, Clone, Copy, Debug, Structural)]
pub struct DeviceAddressType {}

#[derive(PartialEq, Eq, Hash, Debug)]
pub struct PointerType {
    pub pointee_ty: Box<Type>,
    pub store_cls: StorageClass,
}

#[derive(PartialEq, Eq, Hash, Clone, Copy, Debug, Structural)]
pub struct RayQueryType {}

#[derive(PartialEq, Eq, Hash, Debug)]
#[non_exhaustive]
pub enum Type {
    /// A single value, which can be a signed or unsigned integer, a floating
    /// point number, or a boolean value.
    Scalar(ScalarType),
    /// A collection of scalars.
    Vector(VectorType),
    /// A collection of vectors.
    Matrix(MatrixType),
    /// An image.
    Image(ImageType),
    /// A sampled image externally combined with a sampler state.
    CombinedImageSampler(CombinedImageSamplerType),
    /// A sampled image yet to be combined with a `Sampler`.
    SampledImage(SampledImageType),
    /// A storage image that shaders can read and/or write.
    StorageImage(StorageImageType),
    /// Separable sampler state.
    Sampler(SamplerType),
    /// Pixel store from input attachments.
    SubpassData(SubpassDataType),
    /// Repetition of a single type.
    Array(ArrayType),
    /// Aggregation of types.
    Struct(StructType),
    /// Acceleration structure for ray-tracing.
    AccelStruct(AccelStructType),
    /// Forward-declared pointer but the type of pointed data is unknown.
    DeviceAddress(DeviceAddressType),
    /// Forward-declared pointer.
    DevicePointer(PointerType),
    /// Ray query payload type.
    RayQuery(RayQueryType),
}

impl Type {
    /// How the type can be accessed: arrays and pointers as their element or
    /// pointee, structs by combining their members, other types not at all.
    pub fn access_ty(&self) -> (r: Option<AccessType>)
        ensures
            r == crate::ty::layout::ty_access(*self),
    {
        crate::ty::layout::type_access(self)
    }

    /// Whether the type is a `Scalar`.
    pub fn is_scalar(&self) -> (r: bool)
        ensures
            r == (*self is Scalar),
    {
        match self {
            Type::Scalar(..) => true,
            _ => false,
        }
    }

    /// Whether the type is a `Vector`.
    pub fn is_vector(&self) -> (r: bool)
        ensures
            r == (*self is Vector),
    {
        match self {
            Type::Vector(..) => true,
            _ => false,
        }
    }

    /// Whether the type is a `Matrix`.
    pub fn is_matrix(&self) -> (r: bool)
        ensures
            r == (*self is Matrix),
    {
        match self {
            Type::Matrix(..) => true,
            _ => false,
        }
    }

    /// Whether the type is a `Image`.
    pub fn is_image(&self) -> (r: bool)
        ensures
            r == (*self is Image),
    {
        match self {
            Type::Image(..) => true,
            _ => false,
        }
    }

    /// Whether the type is a `Sampler`.
    pub fn is_sampler(&self) -> (r: bool)
        ensures
            r == (*self is Sampler),
    {
        match self {
            Type::Sampler(..) => true,
            _ => false,
        }
    }

    /// Whether the type is a `CombinedImageSampler`.
    pub fn is_combined_image_sampler(&self) -> (r: bool)
        ensures
            r == (*self is CombinedImageSampler),
    {
        match self {
            Type::CombinedImageSampler(..) => true,
            _ => false,
        }
    }

    /// Whether the type is a `SampledImage`.
    pub fn is_sampled_image(&self) -> (r: bool)
        ensures
            r == (*self is SampledImage),
    {
        match self {
            Type::SampledImage(..) => true,
            _ => false,
        }
    }

    /// Whether the type is a `StorageImage`.
    pub fn is_storage_image(&self) -> (r: bool)
        ensures
            r == (*self is StorageImage),
    {
        match self {
            Type::StorageImage(..) => true,
            _ => false,
        }
    }

    /// Whether the type is a `SubpassData`.
    pub fn is_subpass_data(&self) -> (r: bool)
        ensures
            r == (*self is SubpassData),
    {
        match self {
            Type::SubpassData(..) => true,
            _ => false,
        }
    }

    /// Whether the type is a `Array`.
    pub fn is_array(&self) -> (r: bool)
        ensures
            r == (*self is Array),
    {
        match self {
            Type::Array(..) => true,
            _ => false,
        }
    }

    /// Whether the type is a `Struct`.
    pub fn is_struct(&self) -> (r: bool)
        ensures
            r == (*self is Struct),
    {
        match self {
            Type::Struct(..) => true,
            _ => false,
        }
    }

    /// Whether the type is a `AccelStruct`.
    pub fn is_accel_struct(&self) -> (r: bool)
        ensures
            r == (*self is AccelStruct),
    {
        match self {
            Type::AccelStruct(..) => true,
            _ => false,
        }
    }

    /// Whether the type is a `DeviceAddress`.
    pub fn is_device_address(&self) -> (r: bool)
        ensures
            r == (*self is DeviceAddress),
    {
        match self {
            Type::DeviceAddress(..) => true,
            _ => false,
        }
    }

    /// Whether the type is a `DevicePointer`.
    pub fn is_device_pointer(&self) -> (r: bool)
        ensures
            r == (*self is DevicePointer),
    {
        match self {
            Type::DevicePointer(..) => true,
            _ => false,
        }
    }

    /// The inner type if the type is a `Scalar`.
    pub fn as_scalar(&self) -> (r: Option<&ScalarType>)
        ensures
            match *self {
                Type::Scalar(x) => r == Some(&x),
                _ => r is None,
            },
    {
        match self {
            Type::Scalar(x) => Some(x),
            _ => None,
        }
    }

    /// The inner type if the type is a `Vector`.
    pub fn as_vector(&self) -> (r: Option<&VectorType>)
        ensures
            match *self {
                Type::Vector(x) => r == Some(&x),
                _ => r is None,
            },
    {
        match self {
            Type::Vector(x) => Some(x),
            _ => None,
        }
    }

    /// The inner type if the type is a `Matrix`.
    pub fn as_matrix(&self) -> (r: Option<&MatrixType>)
        ensures
            match *self {
                Type::Matrix(x) => r == Some(&x),
                _ => r is None,
            },
    {
        match self {
            Type::Matrix(x) => Some(x),
            _ => None,
        }
    }

    /// The inner type if the type is a `Image`.
    pub fn as_image(&self) -> (r: Option<&ImageType>)
        ensures
            match *self {
                Type::Image(x) => r == Some(&x),
                _ => r is None,
            },
    {
        match self {
            Type::Image(x) => Some(x),
            _ => None,
        }
    }

    /// The inner type if the type is a `Sampler`.
    pub fn as_sampler(&self) -> (r: Option<&SamplerType>)
        ensures
            match *self {
                Type::Sampler(x) => r == Some(&x),
                _ => r is None,
            },
    {
        match self {
            Type::Sampler(x) => Some(x),
            _ => None,
        }
    }

    /// The inner type if the type is a `CombinedImageSampler`.
    pub fn as_combined_image_sampler(&self) -> (r: Option<&CombinedImageSamplerType>)
        ensures
            match *self {
                Type::CombinedImageSampler(x) => r == Some(&x),
                _ => r is None,
            },
    {
        match self {
            Type::CombinedImageSampler(x) => Some(x),
            _ => None,
        }
    }

    /// The inner type if the type is a `SampledImage`.
    pub fn as_sampled_image(&self) -> (r: Option<&SampledImageType>)
        ensures
            match *self {
                Type::SampledImage(x) => r == Some(&x),
                _ => r is None,
            },
    {
        match self {
            Type::SampledImage(x) => Some(x),
            _ => None,
        }
    }

    /// The inner type if the type is a `StorageImage`.
    pub fn as_storage_image(&self) -> (r: Option<&StorageImageType>)
        ensures
            match *self {
                Type::StorageImage(x) => r == Some(&x),
                _ => r is None,
            },
    {
        match self {
            Type::StorageImage(x) => Some(x),
            _ => None,
        }
    }

    /// The inner type if the type is a `SubpassData`.
    pub fn as_subpass_data(&self) -> (r: Option<&SubpassDataType>)
        ensures
            match *self {
                Type::SubpassData(x) => r == Some(&x),
                _ => r is None,
            },
    {
        match self {
            Type::SubpassData(x) => Some(x),
            _ => None,
        }
    }

    /// The inner type if the type is a `Array`.
    pub fn as_array(&self) -> (r: Option<&ArrayType>)
        ensures
            match *self {
                Type::Array(x) => r == Some(&x),
                _ => r is None,
            },
    {
        match self {
            Type::Array(x) => Some(x),
            _ => None,
        }
    }

    /// The inner type if the type is a `Struct`.
    pub fn as_struct(&self) -> (r: Option<&StructType>)
        ensures
            match *self {
                Type::Struct(x) => r == Some(&x),
                _ => r is None,
            },
    {
        match self {
            Type::Struct(x) => Some(x),
            _ => None,
        }
    }

    /// The inner type if the type is a `AccelStruct`.
    pub fn as_accel_struct(&self) -> (r: Option<&AccelStructType>)
        ensures
            match *self {
                Type::AccelStruct(x) => r == Some(&x),
                _ => r is None,
            },
    {
        match self {
            Type::AccelStruct(x) => Some(x),
            _ => None,
        }
    }

    /// The inner type if the type is a `DeviceAddress`.
    pub fn as_device_address(&self) -> (r: Option<&DeviceAddressType>)
        ensures
            match *self {
                Type::DeviceAddress(x) => r == Some(&x),
                _ => r is None,
            },
    {
        match self {
            Type::DeviceAddress(x) => Some(x),
            _ => None,
        }
    }

    /// The inner type if the type is a `DevicePointer`.
    pub fn as_device_pointer(&self) -> (r: Option<&PointerType>)
        ensures
            match *self {
                Type::DevicePointer(x) => r == Some(&x),
                _ => r is None,
            },
    {
        match self {
            Type::DevicePointer(x) => Some(x),
            _ => None,
        }
    }

}

/// Descriptor type matching `VkDescriptorType`.
#[derive(Debug, PartialEq, Eq, Hash, Clone, Copy, Structural)]
pub enum DescriptorType {
    /// `VK_DESCRIPTOR_TYPE_SAMPLER`
    Sampler,
    /// `VK_DESCRIPTOR_TYPE_COMBINED_IMAGE_SAMPLER`
    CombinedImageSampler,
    /// `VK_DESCRIPTOR_TYPE_SAMPLED_IMAGE`
    SampledImage,
    /// `VK_DESCRIPTOR_TYPE_STORAGE_IMAGE`
    StorageImage(AccessType),
    /// `VK_DESCRIPTOR_TYPE_UNIFORM_TEXEL_BUFFER`.
    UniformTexelBuffer,
    /// `VK_DESCRIPTOR_TYPE_STORAGE_TEXEL_BUFFER`.
    StorageTexelBuffer(AccessType),
    /// `VK_DESCRIPTOR_TYPE_UNIFORM_BUFFER`.
    UniformBuffer,
    /// `VK_DESCRIPTOR_TYPE_STORAGE_BUFFER`.
    StorageBuffer(AccessType),
    /// `VK_DESCRIPTOR_TYPE_INPUT_ATTACHMENT` and its input attachment index.
    InputAttachment(u32),
    /// `VK_DESCRIPTOR_TYPE_ACCELERATION_STRUCTURE_KHR`
    AccelStruct,
}

} // verus!
