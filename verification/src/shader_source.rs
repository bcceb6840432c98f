//! Which shader source files the reflection tool compiles, and as what.
use vstd::prelude::*;

use crate::spvasm::tokenizer::chars_of;

verus! {

/// The language a shader source is written in.
#[derive(Debug, Clone, Copy, PartialEq, Eq, Structural)]
pub enum SourceLanguage {
    Glsl,
    Hlsl,
}

/// The pipeline stage a shader source is compiled for.
#[derive(Debug, Clone, Copy, PartialEq, Eq, Structural)]
pub enum ShaderKind {
    Vertex,
    TessControl,
    TessEvaluation,
    Geometry,
    Fragment,
    Compute,
    Mesh,
    Task,
    RayGeneration,
    Intersection,
    AnyHit,
    ClosestHit,
    Miss,
    Callable,
}

/// The file extensions of shader sources, in the order they are tried, each
/// with the language and stage it stands for.
pub open spec fn source_extensions() -> Seq<(Seq<char>, SourceLanguage, ShaderKind)> {
    seq![
        (".vert"@, SourceLanguage::Glsl, ShaderKind::Vertex),
        (".tesc"@, SourceLanguage::Glsl, ShaderKind::TessControl),
        (".tese"@, SourceLanguage::Glsl, ShaderKind::TessEvaluation),
        (".geom"@, SourceLanguage::Glsl, ShaderKind::Geometry),
        (".frag"@, SourceLanguage::Glsl, ShaderKind::Fragment),
        (".comp"@, SourceLanguage::Glsl, ShaderKind::Compute),
        (".mesh"@, SourceLanguage::Glsl, ShaderKind::Mesh),
        (".task"@, SourceLanguage::Glsl, ShaderKind::Task),
        (".rgen"@, SourceLanguage::Glsl, ShaderKind::RayGeneration),
        (".rint"@, SourceLanguage::Glsl, ShaderKind::Intersection),
        (".rahit"@, SourceLanguage::Glsl, ShaderKind::AnyHit),
        (".rchit"@, SourceLanguage::Glsl, ShaderKind::ClosestHit),
        (".rmiss"@, SourceLanguage::Glsl, ShaderKind::Miss),
        (".rcall"@, SourceLanguage::Glsl, ShaderKind::Callable),
        (".vert.glsl"@, SourceLanguage::Glsl, ShaderKind::Vertex),
        (".tesc.glsl"@, SourceLanguage::Glsl, ShaderKind::TessControl),
        (".tese.glsl"@, SourceLanguage::Glsl, ShaderKind::TessEvaluation),
        (".geom.glsl"@, SourceLanguage::Glsl, ShaderKind::Geometry),
        (".frag.glsl"@, SourceLanguage::Glsl, ShaderKind::Fragment),
        (".comp.glsl"@, SourceLanguage::Glsl, ShaderKind::Compute),
        (".mesh.glsl"@, SourceLanguage::Glsl, ShaderKind::Mesh),
        (".task.glsl"@, SourceLanguage::Glsl, ShaderKind::Task),
        (".rgen.glsl"@, SourceLanguage::Glsl, ShaderKind::RayGeneration),
        (".rint.glsl"@, SourceLanguage::Glsl, ShaderKind::Intersection),
        (".rahit.glsl"@, SourceLanguage::Glsl, ShaderKind::AnyHit),
        (".rchit.glsl"@, SourceLanguage::Glsl, ShaderKind::ClosestHit),
        (".rmiss.glsl"@, SourceLanguage::Glsl, ShaderKind::Miss),
        (".rcall.glsl"@, SourceLanguage::Glsl, ShaderKind::Callable),
        (".vert.hlsl"@, SourceLanguage::Hlsl, ShaderKind::Vertex),
        (".tesc.hlsl"@, SourceLanguage::Hlsl, ShaderKind::TessControl),
        (".tese.hlsl"@, SourceLanguage::Hlsl, ShaderKind::TessEvaluation),
        (".geom.hlsl"@, SourceLanguage::Hlsl, ShaderKind::Geometry),
        (".frag.hlsl"@, SourceLanguage::Hlsl, ShaderKind::Fragment),
        (".comp.hlsl"@, SourceLanguage::Hlsl, ShaderKind::Compute),
        (".mesh.hlsl"@, SourceLanguage::Hlsl, ShaderKind::Mesh),
        (".task.hlsl"@, SourceLanguage::Hlsl, ShaderKind::Task),
        (".rgen.hlsl"@, SourceLanguage::Hlsl, ShaderKind::RayGeneration),
        (".rint.hlsl"@, SourceLanguage::Hlsl, ShaderKind::Intersection),
        (".rahit.hlsl"@, SourceLanguage::Hlsl, ShaderKind::AnyHit),
        (".rchit.hlsl"@, SourceLanguage::Hlsl, ShaderKind::ClosestHit),
        (".rmiss.hlsl"@, SourceLanguage::Hlsl, ShaderKind::Miss),
        (".rcall.hlsl"@, SourceLanguage::Hlsl, ShaderKind::Callable),
    ]
}

fn source_extension_list() -> (r: Vec<(&'static str, SourceLanguage, ShaderKind)>)
    ensures
        r@.len() == source_extensions().len(),
        forall|i: int|
            0 <= i < r@.len() ==> (#[trigger] r@[i]).0@ == source_extensions()[i].0 && r@[i].1
                == source_extensions()[i].1 && r@[i].2 == source_extensions()[i].2,
{
    let r = vec![
        (".vert", SourceLanguage::Glsl, ShaderKind::Vertex),
        (".tesc", SourceLanguage::Glsl, ShaderKind::TessControl),
        (".tese", SourceLanguage::Glsl, ShaderKind::TessEvaluation),
        (".geom", SourceLanguage::Glsl, ShaderKind::Geometry),
        (".frag", SourceLanguage::Glsl, ShaderKind::Fragment),
        (".comp", SourceLanguage::Glsl, ShaderKind::Compute),
        (".mesh", SourceLanguage::Glsl, ShaderKind::Mesh),
        (".task", SourceLanguage::Glsl, ShaderKind::Task),
        (".rgen", SourceLanguage::Glsl, ShaderKind::RayGeneration),
        (".rint", SourceLanguage::Glsl, ShaderKind::Intersection),
        (".rahit", SourceLanguage::Glsl, ShaderKind::AnyHit),
        (".rchit", SourceLanguage::Glsl, ShaderKind::ClosestHit),
        (".rmiss", SourceLanguage::Glsl, ShaderKind::Miss),
        (".rcall", SourceLanguage::Glsl, ShaderKind::Callable),
        (".vert.glsl", SourceLanguage::Glsl, ShaderKind::Vertex),
        (".tesc.glsl", SourceLanguage::Glsl, ShaderKind::TessControl),
        (".tese.glsl", SourceLanguage::Glsl, ShaderKind::TessEvaluation),
        (".geom.glsl", SourceLanguage::Glsl, ShaderKind::Geometry),
        (".frag.glsl", SourceLanguage::Glsl, ShaderKind::Fragment),
        (".comp.glsl", SourceLanguage::Glsl, ShaderKind::Compute),
        (".mesh.glsl", SourceLanguage::Glsl, ShaderKind::Mesh),
        (".task.glsl", SourceLanguage::Glsl, ShaderKind::Task),
        (".rgen.glsl", SourceLanguage::Glsl, ShaderKind::RayGeneration),
        (".rint.glsl", SourceLanguage::Glsl, ShaderKind::Intersection),
        (".rahit.glsl", SourceLanguage::Glsl, ShaderKind::AnyHit),
        (".rchit.glsl", SourceLanguage::Glsl, ShaderKind::ClosestHit),
        (".rmiss.glsl", SourceLanguage::Glsl, ShaderKind::Miss),
        (".rcall.glsl", SourceLanguage::Glsl, ShaderKind::Callable),
        (".vert.hlsl", SourceLanguage::Hlsl, ShaderKind::Vertex),
        (".tesc.hlsl", SourceLanguage::Hlsl, ShaderKind::TessControl),
        (".tese.hlsl", SourceLanguage::Hlsl, ShaderKind::TessEvaluation),
        (".geom.hlsl", SourceLanguage::Hlsl, ShaderKind::Geometry),
        (".frag.hlsl", SourceLanguage::Hlsl, ShaderKind::Fragment),
        (".comp.hlsl", SourceLanguage::Hlsl, ShaderKind::Compute),
        (".mesh.hlsl", SourceLanguage::Hlsl, ShaderKind::Mesh),
        (".task.hlsl", SourceLanguage::Hlsl, ShaderKind::Task),
        (".rgen.hlsl", SourceLanguage::Hlsl, ShaderKind::RayGeneration),
        (".rint.hlsl", SourceLanguage::Hlsl, ShaderKind::Intersection),
        (".rahit.hlsl", SourceLanguage::Hlsl, ShaderKind::AnyHit),
        (".rchit.hlsl", SourceLanguage::Hlsl, ShaderKind::ClosestHit),
        (".rmiss.hlsl", SourceLanguage::Hlsl, ShaderKind::Miss),
        (".rcall.hlsl", SourceLanguage::Hlsl, ShaderKind::Callable),
    ];
    assert(r@.len() == source_extensions().len());
    r
}

/// `suffix` ends `s`.
pub open spec fn ends_with(s: Seq<char>, suffix: Seq<char>) -> bool {
    suffix.len() <= s.len() && s.skip(s.len() - suffix.len()) == suffix
}

/// The language and stage of the first extension in the table that ends
/// `path`, if one does.
pub open spec fn source_kind_from(table: Seq<(Seq<char>, SourceLanguage, ShaderKind)>, path: Seq<char>) -> Option<
    (SourceLanguage, ShaderKind),
>
    decreases table.len(),
{
    if table.len() == 0 {
        None
    } else if ends_with(path, table[0].0) {
        Some((table[0].1, table[0].2))
    } else {
        source_kind_from(table.drop_first(), path)
    }
}

fn chars_end_with(s: &Vec<char>, suffix: &Vec<char>) -> (r: bool)
    ensures
        r == ends_with(s@, suffix@),
{
    if suffix.len() > s.len() {
        return false;
    }
    let off = s.len() - suffix.len();
    let mut i: usize = 0;
    while i < suffix.len()
        invariant
            off + suffix@.len() == s@.len(),
            s@.len() <= usize::MAX,
            i <= suffix@.len(),
            forall|j: int| 0 <= j < i ==> s@[off + j] == suffix@[j],
        decreases suffix@.len() - i,
    {
        if s[off + i] != suffix[i] {
            assert(s@.skip(off as int)[i as int] != suffix@[i as int]);
            return false;
        }
        i = i + 1;
    }
    assert(s@.skip(off as int) =~= suffix@);
    true
}

/// The language and stage of a shader source at `path`, told by its
/// extension; `None` for any other file, which is read as a SPIR-V binary.
pub fn shader_source_kind(path: &str) -> (r: Option<(SourceLanguage, ShaderKind)>)
    ensures
        r == source_kind_from(source_extensions(), path@),
{
    let table = source_extension_list();
    let cs = chars_of(path);
    let mut i: usize = 0;
    assert(source_extensions().skip(0) =~= source_extensions());
    while i < table.len()
        invariant
            cs@ == path@,
            i <= table@.len(),
            table@.len() == source_extensions().len(),
            forall|k: int|
                0 <= k < table@.len() ==> (#[trigger] table@[k]).0@ == source_extensions()[k].0
                    && table@[k].1 == source_extensions()[k].1 && table@[k].2
                    == source_extensions()[k].2,
            source_kind_from(source_extensions(), path@) == source_kind_from(
                source_extensions().skip(i as int),
                path@,
            ),
        decreases table@.len() - i,
    {
        let ghost rest = source_extensions().skip(i as int);
        assert(rest.drop_first() =~= source_extensions().skip(i + 1));
        assert(rest[0] == source_extensions()[i as int]);
        let (ext, lang, kind) = table[i];
        let ext_cs = chars_of(ext);
        if chars_end_with(&cs, &ext_cs) {
            return Some((lang, kind));
        }
        i = i + 1;
    }
    None
}

} // verus!
