use spirq_core::shader_source::{shader_source_kind, ShaderKind, SourceLanguage};
use spirq_core::ty::text::descriptor_type_name;
use spirq_core::ty::{
    AccessType, ArrayType, CombinedImageSamplerType, DescriptorType, DeviceAddressType, Dim,
    ImageFormat, ImageType, MatrixAxisOrder, MatrixType, PointerType, RayQueryType,
    SampledImageType, ScalarType, StorageClass, StorageImageType, StructMember, StructType,
    SubpassDataType, Type, VectorType,
};

fn vec4() -> VectorType {
    VectorType { scalar_ty: ScalarType::float32(), scalar_count: 4 }
}

#[test]
fn scalar_vector_matrix_text() {
    assert_eq!(ScalarType::i32().to_string(), "i32");
    assert_eq!(ScalarType::uint(8).to_string(), "u8");
    assert_eq!(ScalarType::float(64).to_string(), "f64");
    assert_eq!(ScalarType::Void.to_string(), "void");
    assert_eq!(ScalarType::Boolean.to_string(), "bool");
    assert_eq!(vec4().to_string(), "vec4<f32>");
    let m = MatrixType { vector_ty: vec4(), vector_count: 3, axis_order: Some(MatrixAxisOrder::RowMajor), stride: Some(16) };
    assert_eq!(m.to_string(), "mat4x3<f32,RowMajor,16>");
    let m = MatrixType { axis_order: None, stride: None, ..m };
    assert_eq!(m.to_string(), "mat4x3<f32,AxisOrder?,?>");
}

#[test]
fn image_text() {
    let img = ImageType {
        scalar_ty: ScalarType::float32(),
        dim: Dim::Dim2D,
        is_depth: Some(false),
        is_array: true,
        is_multisampled: false,
        is_sampled: Some(true),
        fmt: ImageFormat::Rgba8,
    };
    assert_eq!(img.to_string(), "Image2DArray<f32,Sampled,Color,Rgba8>");
    let sampled = SampledImageType { scalar_ty: ScalarType::u32(), dim: Dim::DimCube, is_array: false, is_multisampled: true };
    assert_eq!(sampled.to_string(), "SampledImageCubeMS<u32>");
    let combined = CombinedImageSamplerType { sampled_img_ty: SampledImageType { scalar_ty: ScalarType::float32(), dim: Dim::Dim1D, is_array: false, is_multisampled: false } };
    assert_eq!(combined.to_string(), "CombinedImageSampler<SampledImage1D<f32>>");
    let storage = StorageImageType { dim: Dim::Dim3D, is_array: false, is_multisampled: false, fmt: ImageFormat::R32f };
    assert_eq!(storage.to_string(), "StorageImage3D<R32f>");
    assert_eq!(Type::StorageImage(storage).to_string(), "StorageImage3D<R32f>");
    let sub = SubpassDataType { scalar_ty: ScalarType::float32(), is_multisampled: true };
    assert_eq!(sub.to_string(), "SubpassDataMS<f32>");
}

#[test]
fn composite_text() {
    let arr = ArrayType { element_ty: Box::new(Type::Scalar(ScalarType::float32())), element_count: Some(4), stride: Some(4) };
    assert_eq!(arr.to_string(), "[f32; 4]");
    let rt = ArrayType { element_ty: Box::new(Type::Vector(vec4())), element_count: None, stride: Some(16) };
    assert_eq!(rt.to_string(), "[vec4<f32>]");
    let s = StructType {
        name: Some("Block".to_string()),
        members: vec![
            StructMember { name: Some("color".to_string()), offset: Some(0), ty: Type::Vector(vec4()), access_ty: AccessType::ReadOnly },
            StructMember { name: None, offset: Some(16), ty: Type::Array(arr), access_ty: AccessType::ReadOnly },
        ],
    };
    assert_eq!(s.to_string(), "Block { color: vec4<f32>, 1: [f32; 4] }");
    let anon = StructType { name: None, members: vec![] };
    assert_eq!(anon.to_string(), "{  }");
    let p = PointerType { pointee_ty: Box::new(Type::Scalar(ScalarType::u32())), store_cls: StorageClass::PhysicalStorageBuffer };
    assert_eq!(p.to_string(), "Pointer { u32 }");
    assert_eq!(Type::DeviceAddress(DeviceAddressType {}).to_string(), "Address");
    assert_eq!(Type::RayQuery(RayQueryType {}).to_string(), "RayQuery");
    assert_eq!(Type::Struct(s).to_string(), "Block { color: vec4<f32>, 1: [f32; 4] }");
}

#[test]
fn descriptor_type_names() {
    assert_eq!(descriptor_type_name(&DescriptorType::UniformBuffer), "UniformBuffer");
    assert_eq!(descriptor_type_name(&DescriptorType::StorageBuffer(AccessType::ReadWrite)), "StorageBuffer(ReadWrite)");
    assert_eq!(descriptor_type_name(&DescriptorType::StorageImage(AccessType::WriteOnly)), "StorageImage(WriteOnly)");
    assert_eq!(descriptor_type_name(&DescriptorType::InputAttachment(2)), "InputAttachment(2)");
    assert_eq!(descriptor_type_name(&DescriptorType::AccelStruct), "AccelStruct");
}

#[test]
fn shader_sources_by_extension() {
    assert_eq!(shader_source_kind("a/b/shader.frag"), Some((SourceLanguage::Glsl, ShaderKind::Fragment)));
    assert_eq!(shader_source_kind("x.comp.glsl"), Some((SourceLanguage::Glsl, ShaderKind::Compute)));
    assert_eq!(shader_source_kind("x.rchit.hlsl"), Some((SourceLanguage::Hlsl, ShaderKind::ClosestHit)));
    assert_eq!(shader_source_kind("x.spv"), None);
    assert_eq!(shader_source_kind("frag"), None);
    assert_eq!(shader_source_kind(".vert"), Some((SourceLanguage::Glsl, ShaderKind::Vertex)));
}

#[test]
fn composite_of_images_text() {
    let storage = StorageImageType { dim: Dim::DimBuffer, is_array: false, is_multisampled: false, fmt: ImageFormat::Rgba32ui };
    let arr = ArrayType { element_ty: Box::new(Type::StorageImage(storage)), element_count: Some(2), stride: None };
    assert_eq!(arr.to_string(), "[StorageImageBuffer<Rgba32ui>; 2]");
    let sampled = SampledImageType { scalar_ty: ScalarType::float32(), dim: Dim::DimRect, is_array: false, is_multisampled: false };
    let s = StructType {
        name: None,
        members: vec![StructMember { name: Some("tex".to_string()), offset: None, ty: Type::SampledImage(sampled), access_ty: AccessType::ReadOnly }],
    };
    assert_eq!(Type::Struct(s).to_string(), "{ tex: SampledImageRect<f32> }");
}
