//! Human-readable descriptions of types, such as `vec4<f32>` or
//! `Block { color: vec4<f32>, 1: [f32; 4] }`.
use vstd::prelude::*;

use crate::text::{dec_chars, push_dec, push_str};
use crate::ty::image::{dim_text, format_text, push_dim, push_format};
use crate::ty::{
    AccelStructType,
    AccessType,
    DescriptorType,
    ArrayType,
    CombinedImageSamplerType,
    DeviceAddressType,
    ImageType,
    MatrixAxisOrder,
    MatrixType,
    PointerType,
    RayQueryType,
    SampledImageType,
    SamplerType,
    ScalarType,
    StorageImageType,
    StructType,
    SubpassDataType,
    Type,
    VectorType,
};

verus! {

/// `yes` if the flag is set, else nothing.
pub open spec fn flag_text(flag: bool, yes: Seq<char>) -> Seq<char> {
    if flag {
        yes
    } else {
        Seq::empty()
    }
}

fn push_flag(out: &mut String, flag: bool, yes: &str)
    ensures
        final(out)@ == old(out)@ + flag_text(flag, yes@),
{
    if flag {
        push_str(out, yes);
    } else {
        assert(old(out)@ + Seq::<char>::empty() =~= old(out)@);
    }
}

/// How a scalar type is written: `void`, `bool`, `i` or `u` and the bit
/// count for integers, `f` and the bit count for floats.
pub open spec fn scalar_text(s: ScalarType) -> Seq<char> {
    match s {
        ScalarType::Void => "void"@,
        ScalarType::Boolean => "bool"@,
        ScalarType::Integer { bits, is_signed } => (if is_signed {
            "i"@
        } else {
            "u"@
        }) + dec_chars(bits as nat),
        ScalarType::Float { bits } => "f"@ + dec_chars(bits as nat),
    }
}

/// How a vector type is written: `vec`, the component count and the scalar
/// type in angle brackets.
pub open spec fn vector_text(v: VectorType) -> Seq<char> {
    "vec"@ + dec_chars(v.scalar_count as nat) + "<"@ + scalar_text(v.scalar_ty) + ">"@
}

/// How a matrix axis order is written.
pub open spec fn axis_order_text(o: Option<MatrixAxisOrder>) -> Seq<char> {
    match o {
        Some(MatrixAxisOrder::ColumnMajor) => "ColumnMajor"@,
        Some(MatrixAxisOrder::RowMajor) => "RowMajor"@,
        None => "AxisOrder?"@,
    }
}

/// How a matrix type is written: `mat`, the row and column counts, then the
/// scalar type, axis order and stride in angle brackets.
pub open spec fn matrix_text(m: MatrixType) -> Seq<char> {
    "mat"@ + dec_chars(m.vector_ty.scalar_count as nat) + "x"@ + dec_chars(
        m.vector_count as nat,
    ) + "<"@ + scalar_text(m.vector_ty.scalar_ty) + ","@ + axis_order_text(m.axis_order) + ","@
        + match m.stride {
        Some(x) => dec_chars(x as nat),
        None => "?"@,
    } + ">"@
}

/// Whether an image is sampled, as written.
pub open spec fn sampled_text(o: Option<bool>) -> Seq<char> {
    match o {
        Some(true) => "Sampled"@,
        Some(false) => "Storage"@,
        None => "Sampled?"@,
    }
}

/// Whether an image holds depth, as written.
pub open spec fn depth_text(o: Option<bool>) -> Seq<char> {
    match o {
        Some(true) => "Depth"@,
        Some(false) => "Color"@,
        None => "Depth?"@,
    }
}

/// How an image type is written.
pub open spec fn image_text(t: ImageType) -> Seq<char> {
    "Image"@ + dim_text(t.dim) + flag_text(t.is_array, "Array"@) + flag_text(t.is_multisampled, "MS"@)
        + "<"@ + scalar_text(t.scalar_ty) + ","@ + sampled_text(t.is_sampled) + ","@ + depth_text(
        t.is_depth,
    ) + ","@ + format_text(t.fmt) + ">"@
}

/// How a sampled image type is written.
pub open spec fn sampled_image_text(t: SampledImageType) -> Seq<char> {
    "SampledImage"@ + dim_text(t.dim) + flag_text(t.is_array, "Array"@) + flag_text(
        t.is_multisampled,
        "MS"@,
    ) + "<"@ + scalar_text(t.scalar_ty) + ">"@
}

/// How a storage image type is written.
pub open spec fn storage_image_text(t: StorageImageType) -> Seq<char> {
    "StorageImage"@ + dim_text(t.dim) + flag_text(t.is_array, "Array"@) + flag_text(
        t.is_multisampled,
        "MS"@,
    ) + "<"@ + format_text(t.fmt) + ">"@
}

/// How a subpass data type is written.
pub open spec fn subpass_data_text(t: SubpassDataType) -> Seq<char> {
    "SubpassData"@ + flag_text(t.is_multisampled, "MS"@) + "<"@ + scalar_text(t.scalar_ty) + ">"@
}

/// How a struct's text opens: its name, if any, and a brace.
pub open spec fn struct_head(s: StructType) -> Seq<char> {
    match s.name {
        Some(n) => n@ + " { "@,
        None => "{ "@,
    }
}

/// How a type is written.
pub open spec fn ty_text(t: Type) -> Seq<char>
    decreases t, 0nat,
{
    match t {
        Type::Scalar(s) => scalar_text(s),
        Type::Vector(v) => vector_text(v),
        Type::Matrix(m) => matrix_text(m),
        Type::Image(x) => image_text(x),
        Type::CombinedImageSampler(x) => "CombinedImageSampler<"@ + sampled_image_text(
            x.sampled_img_ty,
        ) + ">"@,
        Type::SampledImage(x) => sampled_image_text(x),
        Type::StorageImage(x) => storage_image_text(x),
        Type::Sampler(_) => "Sampler"@,
        Type::SubpassData(s) => subpass_data_text(s),
        Type::AccelStruct(_) => "AccelStruct"@,
        Type::DeviceAddress(_) => "Address"@,
        Type::RayQuery(_) => "RayQuery"@,
        Type::Array(a) => match a.element_count {
            Some(n) => "["@ + ty_text(*a.element_ty) + "; "@ + dec_chars(n as nat) + "]"@,
            None => "["@ + ty_text(*a.element_ty) + "]"@,
        },
        Type::DevicePointer(p) => "Pointer { "@ + ty_text(*p.pointee_ty) + " }"@,
        Type::Struct(s) => struct_head(s) + members_text(s, 0) + " }"@,
    }
}

/// The members of `s` from the `i`-th on, each written as its name (or its
/// index) and its type, separated by `, `.
pub open spec fn members_text(s: StructType, i: int) -> Seq<char>
    decreases s, s.members@.len() - i,
{
    if i < 0 || i >= s.members@.len() {
        Seq::empty()
    } else {
        let m = s.members@[i];
        let head = match m.name {
            Some(n) => n@,
            None => dec_chars(i as nat),
        } + ": "@;
        (if i == 0 {
            Seq::empty()
        } else {
            ", "@
        }) + head + ty_text(m.ty) + members_text(s, i + 1)
    }
}

fn push_scalar(out: &mut String, s: &ScalarType)
    ensures
        final(out)@ == old(out)@ + scalar_text(*s),
{
    match s {
        ScalarType::Void => push_str(out, "void"),
        ScalarType::Boolean => push_str(out, "bool"),
        ScalarType::Integer { bits, is_signed } => {
            push_str(out, if *is_signed { "i" } else { "u" });
            push_dec(out, *bits as u64);
        },
        ScalarType::Float { bits } => {
            push_str(out, "f");
            push_dec(out, *bits as u64);
        },
    }
}

fn push_vector(out: &mut String, v: &VectorType)
    ensures
        final(out)@ == old(out)@ + vector_text(*v),
{
    push_str(out, "vec");
    push_dec(out, v.scalar_count as u64);
    push_str(out, "<");
    push_scalar(out, &v.scalar_ty);
    push_str(out, ">");
}

fn push_matrix(out: &mut String, m: &MatrixType)
    ensures
        final(out)@ == old(out)@ + matrix_text(*m),
{
    push_str(out, "mat");
    push_dec(out, m.vector_ty.scalar_count as u64);
    push_str(out, "x");
    push_dec(out, m.vector_count as u64);
    push_str(out, "<");
    push_scalar(out, &m.vector_ty.scalar_ty);
    push_str(out, ",");
    match m.axis_order {
        Some(MatrixAxisOrder::ColumnMajor) => push_str(out, "ColumnMajor"),
        Some(MatrixAxisOrder::RowMajor) => push_str(out, "RowMajor"),
        None => push_str(out, "AxisOrder?"),
    }
    push_str(out, ",");
    match m.stride {
        Some(x) => push_dec(out, x as u64),
        None => push_str(out, "?"),
    }
    push_str(out, ">");
}

fn push_sampled(out: &mut String, o: Option<bool>)
    ensures
        final(out)@ == old(out)@ + sampled_text(o),
{
    match o {
        Some(true) => push_str(out, "Sampled"),
        Some(false) => push_str(out, "Storage"),
        None => push_str(out, "Sampled?"),
    }
}

fn push_depth(out: &mut String, o: Option<bool>)
    ensures
        final(out)@ == old(out)@ + depth_text(o),
{
    match o {
        Some(true) => push_str(out, "Depth"),
        Some(false) => push_str(out, "Color"),
        None => push_str(out, "Depth?"),
    }
}

fn push_image(out: &mut String, t: &ImageType)
    ensures
        final(out)@ == old(out)@ + image_text(*t),
{
    let ghost o0 = out@;
    push_str(out, "Image");
    push_dim(out, t.dim);
    push_flag(out, t.is_array, "Array");
    push_flag(out, t.is_multisampled, "MS");
    push_str(out, "<");
    push_scalar(out, &t.scalar_ty);
    push_str(out, ",");
    let ghost o1 = out@;
    push_sampled(out, t.is_sampled);
    push_str(out, ",");
    push_depth(out, t.is_depth);
    push_str(out, ",");
    push_format(out, t.fmt);
    push_str(out, ">");
    let ghost prefix = "Image"@ + dim_text(t.dim) + flag_text(t.is_array, "Array"@) + flag_text(
        t.is_multisampled,
        "MS"@,
    ) + "<"@ + scalar_text(t.scalar_ty) + ","@;
    assert(o1 =~= o0 + prefix);
    assert(out@ =~= o0 + image_text(*t));
}

fn push_sampled_image(out: &mut String, t: &SampledImageType)
    ensures
        final(out)@ == old(out)@ + sampled_image_text(*t),
{
    push_str(out, "SampledImage");
    push_dim(out, t.dim);
    push_flag(out, t.is_array, "Array");
    push_flag(out, t.is_multisampled, "MS");
    push_str(out, "<");
    push_scalar(out, &t.scalar_ty);
    push_str(out, ">");
}

fn push_storage_image(out: &mut String, t: &StorageImageType)
    ensures
        final(out)@ == old(out)@ + storage_image_text(*t),
{
    push_str(out, "StorageImage");
    push_dim(out, t.dim);
    push_flag(out, t.is_array, "Array");
    push_flag(out, t.is_multisampled, "MS");
    push_str(out, "<");
    push_format(out, t.fmt);
    push_str(out, ">");
}

fn push_subpass_data(out: &mut String, t: &SubpassDataType)
    ensures
        final(out)@ == old(out)@ + subpass_data_text(*t),
{
    push_str(out, "SubpassData");
    push_flag(out, t.is_multisampled, "MS");
    push_str(out, "<");
    push_scalar(out, &t.scalar_ty);
    push_str(out, ">");
}

fn push_ty(out: &mut String, t: &Type)
    ensures
        final(out)@ == old(out)@ + ty_text(*t),
    decreases t, 0nat,
{
    match t {
        Type::Scalar(s) => push_scalar(out, s),
        Type::Vector(v) => push_vector(out, v),
        Type::Matrix(m) => push_matrix(out, m),
        Type::Image(x) => push_image(out, x),
        Type::CombinedImageSampler(x) => {
            push_str(out, "CombinedImageSampler<");
            push_sampled_image(out, &x.sampled_img_ty);
            push_str(out, ">");
        },
        Type::SampledImage(x) => push_sampled_image(out, x),
        Type::StorageImage(x) => push_storage_image(out, x),
        Type::Sampler(_) => push_str(out, "Sampler"),
        Type::SubpassData(x) => push_subpass_data(out, x),
        Type::Array(a) => {
            push_str(out, "[");
            push_ty(out, &a.element_ty);
            match a.element_count {
                Some(n) => {
                    push_str(out, "; ");
                    push_dec(out, n as u64);
                },
                None => {},
            }
            push_str(out, "]");
        },
        Type::Struct(s) => push_struct(out, s),
        Type::AccelStruct(_) => push_str(out, "AccelStruct"),
        Type::DeviceAddress(_) => push_str(out, "Address"),
        Type::DevicePointer(p) => {
            push_str(out, "Pointer { ");
            push_ty(out, &p.pointee_ty);
            push_str(out, " }");
        },
        Type::RayQuery(_) => push_str(out, "RayQuery"),
    }
}

fn push_struct(out: &mut String, s: &StructType)
    ensures
        final(out)@ == old(out)@ + ty_text(Type::Struct(*s)),
    decreases s, s.members@.len() + 1,
{
    match &s.name {
        Some(n) => {
            push_str(out, n.as_str());
            push_str(out, " { ");
        },
        None => push_str(out, "{ "),
    }
    let ghost start = out@;
    let mut i: usize = 0;
    while i < s.members.len()
        invariant
            i <= s.members@.len(),
            start + members_text(*s, 0) == out@ + members_text(*s, i as int),
        decreases s.members@.len() - i,
    {
        let m = &s.members[i];
        assert(s.members@[i as int] == *m);
        assert(decreases_to!(*s => m.ty)) by {
            assert(decreases_to!(s.members => s.members@[i as int]));
        }
        let ghost before = out@;
        if i != 0 {
            push_str(out, ", ");
        }
        match &m.name {
            Some(n) => push_str(out, n.as_str()),
            None => push_dec(out, i as u64),
        }
        push_str(out, ": ");
        push_ty(out, &m.ty);
        proof {
            let rest = members_text(*s, i as int);
            let next = members_text(*s, i + 1);
            let gm = s.members@[i as int];
            let head = match gm.name {
                Some(n) => n@,
                None => dec_chars(i as nat),
            } + ": "@;
            let sep = if i == 0 {
                Seq::<char>::empty()
            } else {
                ", "@
            };
            assert(rest == sep + head + ty_text(gm.ty) + next);
            assert(out@ == before + sep + head + ty_text(gm.ty));
            assert(start + members_text(*s, 0) =~= out@ + next);
        }
        i = i + 1;
    }
    push_str(out, " }");
}

impl ScalarType {
    /// The type written out, e.g. `i32` or `f64`.
    pub fn to_string(&self) -> (r: String)
        ensures
            r@ == scalar_text(*self),
    {
        let mut s = String::new();
        push_scalar(&mut s, self);
        s
    }
}

impl VectorType {
    /// The type written out, e.g. `vec4<f32>`.
    pub fn to_string(&self) -> (r: String)
        ensures
            r@ == vector_text(*self),
    {
        let mut s = String::new();
        push_vector(&mut s, self);
        s
    }
}

impl MatrixType {
    /// The type written out, e.g. `mat4x4<f32,ColumnMajor,16>`.
    pub fn to_string(&self) -> (r: String)
        ensures
            r@ == matrix_text(*self),
    {
        let mut s = String::new();
        push_matrix(&mut s, self);
        s
    }
}

impl ImageType {
    /// The type written out, e.g. `Image2D<f32,Sampled,Color,Unknown>`.
    pub fn to_string(&self) -> (r: String)
        ensures
            r@ == image_text(*self),
    {
        let mut s = String::new();
        push_image(&mut s, self);
        s
    }
}

impl SamplerType {
    /// The type written out: `Sampler`.
    pub fn to_string(&self) -> (r: String)
        ensures
            r@ == "Sampler"@,
    {
        let mut s = String::new();
        push_str(&mut s, "Sampler");
        s
    }
}

impl CombinedImageSamplerType {
    /// The type written out: `CombinedImageSampler` and the sampled image
    /// type in angle brackets.
    pub fn to_string(&self) -> (r: String)
        ensures
            r@ == "CombinedImageSampler<"@ + sampled_image_text(self.sampled_img_ty) + ">"@,
    {
        let mut s = String::new();
        push_str(&mut s, "CombinedImageSampler<");
        push_sampled_image(&mut s, &self.sampled_img_ty);
        push_str(&mut s, ">");
        s
    }
}

impl SampledImageType {
    /// The type written out, e.g. `SampledImage2DArray<f32>`.
    pub fn to_string(&self) -> (r: String)
        ensures
            r@ == sampled_image_text(*self),
    {
        let mut s = String::new();
        push_sampled_image(&mut s, self);
        s
    }
}

impl StorageImageType {
    /// The type written out, e.g. `StorageImage2D<Rgba8>`.
    pub fn to_string(&self) -> (r: String)
        ensures
            r@ == storage_image_text(*self),
    {
        let mut s = String::new();
        push_storage_image(&mut s, self);
        s
    }
}

impl SubpassDataType {
    /// The type written out, e.g. `SubpassDataMS<f32>`.
    pub fn to_string(&self) -> (r: String)
        ensures
            r@ == subpass_data_text(*self),
    {
        let mut s = String::new();
        push_subpass_data(&mut s, self);
        s
    }
}

impl ArrayType {
    /// The type written out: `[element; count]`, or `[element]` for a
    /// runtime array.
    pub fn to_string(&self) -> (r: String)
        ensures
            r@ == ty_text(Type::Array(*self)),
    {
        let mut s = String::new();
        push_str(&mut s, "[");
        push_ty(&mut s, &self.element_ty);
        match self.element_count {
            Some(n) => {
                push_str(&mut s, "; ");
                push_dec(&mut s, n as u64);
            },
            None => {},
        }
        push_str(&mut s, "]");
        s
    }
}

impl StructType {
    /// The type written out: its name, if any, then its members in braces,
    /// each as its name (or index) and its type.
    pub fn to_string(&self) -> (r: String)
        ensures
            r@ == ty_text(Type::Struct(*self)),
    {
        let mut s = String::new();
        push_struct(&mut s, self);
        s
    }
}

impl AccelStructType {
    /// The type written out: `AccelStruct`.
    pub fn to_string(&self) -> (r: String)
        ensures
            r@ == "AccelStruct"@,
    {
        let mut s = String::new();
        push_str(&mut s, "AccelStruct");
        s
    }
}

impl DeviceAddressType {
    /// The type written out: `Address`.
    pub fn to_string(&self) -> (r: String)
        ensures
            r@ == "Address"@,
    {
        let mut s = String::new();
        push_str(&mut s, "Address");
        s
    }
}

impl PointerType {
    /// The type written out: `Pointer { pointee }`.
    pub fn to_string(&self) -> (r: String)
        ensures
            r@ == ty_text(Type::DevicePointer(*self)),
    {
        let mut s = String::new();
        push_str(&mut s, "Pointer { ");
        push_ty(&mut s, &self.pointee_ty);
        push_str(&mut s, " }");
        s
    }
}

impl RayQueryType {
    /// The type written out: `RayQuery`.
    pub fn to_string(&self) -> (r: String)
        ensures
            r@ == "RayQuery"@,
    {
        let mut s = String::new();
        push_str(&mut s, "RayQuery");
        s
    }
}

impl Type {
    /// The type written out, as its variant writes it.
    pub fn to_string(&self) -> (r: String)
        ensures
            r@ == ty_text(*self),
    {
        let mut s = String::new();
        push_ty(&mut s, self);
        s
    }
}

/// How an access kind is written.
pub open spec fn access_text(a: AccessType) -> Seq<char> {
    match a {
        AccessType::ReadOnly => "ReadOnly"@,
        AccessType::WriteOnly => "WriteOnly"@,
        AccessType::ReadWrite => "ReadWrite"@,
    }
}

/// How a descriptor type is named in a reflection report: its kind, with the
/// access of storage resources and the index of input attachments in
/// parentheses.
pub open spec fn descriptor_type_text(d: DescriptorType) -> Seq<char> {
    match d {
        DescriptorType::Sampler => "Sampler"@,
        DescriptorType::CombinedImageSampler => "CombinedImageSampler"@,
        DescriptorType::SampledImage => "SampledImage"@,
        DescriptorType::StorageImage(a) => "StorageImage("@ + access_text(a) + ")"@,
        DescriptorType::UniformTexelBuffer => "UniformTexelBuffer"@,
        DescriptorType::StorageTexelBuffer(a) => "StorageTexelBuffer("@ + access_text(a) + ")"@,
        DescriptorType::UniformBuffer => "UniformBuffer"@,
        DescriptorType::StorageBuffer(a) => "StorageBuffer("@ + access_text(a) + ")"@,
        DescriptorType::InputAttachment(i) => "InputAttachment("@ + dec_chars(i as nat) + ")"@,
        DescriptorType::AccelStruct => "AccelStruct"@,
    }
}

fn push_access(out: &mut String, a: AccessType)
    ensures
        final(out)@ == old(out)@ + access_text(a),
{
    match a {
        AccessType::ReadOnly => push_str(out, "ReadOnly"),
        AccessType::WriteOnly => push_str(out, "WriteOnly"),
        AccessType::ReadWrite => push_str(out, "ReadWrite"),
    }
}

/// The name of a descriptor type in a reflection report, e.g.
/// `StorageBuffer(ReadWrite)`.
pub fn descriptor_type_name(d: &DescriptorType) -> (r: String)
    ensures
        r@ == descriptor_type_text(*d),
{
    let mut s = String::new();
    match d {
        DescriptorType::Sampler => push_str(&mut s, "Sampler"),
        DescriptorType::CombinedImageSampler => push_str(&mut s, "CombinedImageSampler"),
        DescriptorType::SampledImage => push_str(&mut s, "SampledImage"),
        DescriptorType::StorageImage(a) => {
            push_str(&mut s, "StorageImage(");
            push_access(&mut s, *a);
            push_str(&mut s, ")");
        },
        DescriptorType::UniformTexelBuffer => push_str(&mut s, "UniformTexelBuffer"),
        DescriptorType::StorageTexelBuffer(a) => {
            push_str(&mut s, "StorageTexelBuffer(");
            push_access(&mut s, *a);
            push_str(&mut s, ")");
        },
        DescriptorType::UniformBuffer => push_str(&mut s, "UniformBuffer"),
        DescriptorType::StorageBuffer(a) => {
            push_str(&mut s, "StorageBuffer(");
            push_access(&mut s, *a);
            push_str(&mut s, ")");
        },
        DescriptorType::InputAttachment(i) => {
            push_str(&mut s, "InputAttachment(");
            push_dec(&mut s, *i as u64);
            push_str(&mut s, ")");
        },
        DescriptorType::AccelStruct => push_str(&mut s, "AccelStruct"),
    }
    s
}

} // verus!
