//! SPIR-V module binaries and their headers.
use vstd::prelude::*;
use vstd::slice::{slice_subrange, slice_to_vec};

use crate::error::Error;
use crate::parse::instr::{spec_load, Instrs};
use crate::parse::words::{be_words, be_words_of, le_words, le_words_of};

verus! {

/// The SPIR-V magic number, the first word of every module.
pub const SPIRV_MAGIC: u32 = 0x07230203;

/// Number of words in a module header.
pub const HEADER_LEN: usize = 5;

/// Major version of the SPIR-V specification the `spirv` crate describes.
///
/// Reads `spirv::MAJOR_VERSION`, which the crate's source defines as `1`.
#[verifier::external_body]
fn spirv_major_version() -> (r: u8)
    ensures
        r == 1,
{
    spirv::MAJOR_VERSION
}

/// Minor version of the SPIR-V specification the `spirv` crate describes.
///
/// Reads `spirv::MINOR_VERSION`, which the crate's source defines as `6`.
#[verifier::external_body]
fn spirv_minor_version() -> (r: u8)
    ensures
        r == 6,
{
    spirv::MINOR_VERSION
}

/// The version word of the SPIR-V specification the library targets (1.6).
pub open spec fn default_version() -> u32 {
    0x00010600
}

/// The five words that open every SPIR-V module.
#[derive(Debug, Clone, Copy, PartialEq, Eq)]
pub struct SpirvHeader {
    pub magic: u32,
    pub version: u32,
    pub generator: u32,
    pub bound: u32,
    pub schema: u32,
}

impl Default for SpirvHeader {
    fn default() -> (r: Self)
        ensures
            r == (SpirvHeader {
                magic: SPIRV_MAGIC,
                version: default_version(),
                generator: 0,
                bound: 0,
                schema: 0,
            }),
    {
        let major = spirv_major_version() as u32;
        let minor = spirv_minor_version() as u32;
        let version = (major << 16) | (minor << 8);
        assert(((1u32 << 16u32) | (6u32 << 8u32)) == 0x00010600u32) by (bit_vector);
        SpirvHeader { magic: SPIRV_MAGIC, version, generator: 0, bound: 0, schema: 0 }
    }
}

impl SpirvHeader {
    /// A header with the given version and generator, the SPIR-V magic number
    /// and zero bound and schema.
    pub fn new(version: u32, generator: u32) -> (r: Self)
        ensures
            r == (SpirvHeader { magic: SPIRV_MAGIC, version, generator, bound: 0, schema: 0 }),
    {
        let d = SpirvHeader::default();
        SpirvHeader { version, generator, ..d }
    }

    /// The header words in module order.
    pub open spec fn spec_words(self) -> Seq<u32> {
        seq![self.magic, self.version, self.generator, self.bound, self.schema]
    }

    /// The header words in module order.
    pub fn words(&self) -> (r: [u32; 5])
        ensures
            r@ == self.spec_words(),
    {
        [self.magic, self.version, self.generator, self.bound, self.schema]
    }
}

/// The header that the first five words of a module stand for.
pub open spec fn header_of(ws: Seq<u32>) -> SpirvHeader {
    SpirvHeader { magic: ws[0], version: ws[1], generator: ws[2], bound: ws[3], schema: ws[4] }
}

/// The words a byte image of a module stands for. The first byte tells the
/// byte order: `0x03` for little-endian, `0x07` for big-endian (the first byte
/// of the magic number in either order). Any other first byte, or no byte at
/// all, gives an empty module.
pub open spec fn words_from_bytes(b: Seq<u8>) -> Seq<u32> {
    if b.len() == 0 {
        Seq::empty()
    } else if b[0] == 0x03 {
        le_words(b)
    } else if b[0] == 0x07 {
        be_words(b)
    } else {
        Seq::empty()
    }
}

/// SPIR-V program binary.
#[derive(Debug, Clone)]
pub struct SpirvBinary(Vec<u32>);

impl View for SpirvBinary {
    type V = Seq<u32>;

    closed spec fn view(&self) -> Seq<u32> {
        self.0@
    }
}

impl Default for SpirvBinary {
    fn default() -> (r: Self)
        ensures
            r@ == Seq::<u32>::empty(),
    {
        SpirvBinary(Vec::new())
    }
}

impl From<Vec<u32>> for SpirvBinary {
    fn from(x: Vec<u32>) -> (r: SpirvBinary)
        ensures
            r@ == x@,
    {
        SpirvBinary(x)
    }
}

impl vstd::std_specs::convert::FromSpecImpl<Vec<u32>> for SpirvBinary {
    open spec fn obeys_from_spec() -> bool {
        true
    }

    closed spec fn from_spec(v: Vec<u32>) -> SpirvBinary {
        SpirvBinary(v)
    }
}

impl From<&[u32]> for SpirvBinary {
    fn from(x: &[u32]) -> (r: SpirvBinary)
        ensures
            r@ == x@,
    {
        SpirvBinary::from_words(x)
    }
}

/// The binary is described by its words alone, which its own `from`
/// states; no single value is named for it.
impl vstd::std_specs::convert::FromSpecImpl<&[u32]> for SpirvBinary {
    open spec fn obeys_from_spec() -> bool {
        false
    }

    closed spec fn from_spec(v: &[u32]) -> SpirvBinary {
        choose|b: SpirvBinary| b@ == v@
    }
}

impl From<&[u8]> for SpirvBinary {
    fn from(x: &[u8]) -> (r: SpirvBinary)
        ensures
            r@ == words_from_bytes(x@),
    {
        SpirvBinary::from_bytes(x)
    }
}

/// The binary is described by its words alone, which its own `from`
/// states; no single value is named for it.
impl vstd::std_specs::convert::FromSpecImpl<&[u8]> for SpirvBinary {
    open spec fn obeys_from_spec() -> bool {
        false
    }

    closed spec fn from_spec(v: &[u8]) -> SpirvBinary {
        choose|b: SpirvBinary| b@ == words_from_bytes(v@)
    }
}

impl From<Vec<u8>> for SpirvBinary {
    fn from(x: Vec<u8>) -> (r: SpirvBinary)
        ensures
            r@ == words_from_bytes(x@),
    {
        SpirvBinary::from_bytes(x.as_slice())
    }
}

/// The binary is described by its words alone, which its own `from`
/// states; no single value is named for it.
impl vstd::std_specs::convert::FromSpecImpl<Vec<u8>> for SpirvBinary {
    open spec fn obeys_from_spec() -> bool {
        false
    }

    closed spec fn from_spec(v: Vec<u8>) -> SpirvBinary {
        choose|b: SpirvBinary| b@ == words_from_bytes(v@)
    }
}

impl SpirvBinary {
    /// A binary of the given words.
    pub fn from_words(x: &[u32]) -> (r: SpirvBinary)
        ensures
            r@ == x@,
    {
        SpirvBinary(slice_to_vec(x))
    }

    /// A binary from its byte image; see `words_from_bytes`.
    pub fn from_bytes(x: &[u8]) -> (r: SpirvBinary)
        ensures
            r@ == words_from_bytes(x@),
    {
        if x.len() == 0 {
            return SpirvBinary(Vec::new());
        }
        if x[0] == 0x03 {
            SpirvBinary(le_words_of(x))
        } else if x[0] == 0x07 {
            SpirvBinary(be_words_of(x))
        } else {
            SpirvBinary(Vec::new())
        }
    }

    pub fn words(&self) -> (r: &[u32])
        ensures
            r@ == self@,
    {
        self.0.as_slice()
    }

    pub fn into_words(self) -> (r: Vec<u32>)
        ensures
            r@ == self@,
    {
        self.0
    }

    /// A reader over the instructions after the header. The binary must hold
    /// the five header words.
    pub fn instrs(&self) -> (r: Result<Instrs<'_>, Error>)
        requires
            self@.len() >= HEADER_LEN,
        ensures
            match r {
                Ok(it) => spec_load(self@.skip(HEADER_LEN as int)) == Ok::<_, Error>(
                    (it.cached(), it.rest()),
                ),
                Err(e) => spec_load(self@.skip(HEADER_LEN as int)) == Err::<
                    (Option<Seq<u32>>, Seq<u32>),
                    _,
                >(e),
            },
    {
        let body = slice_subrange(self.0.as_slice(), HEADER_LEN, self.0.len());
        assert(body@ =~= self@.skip(HEADER_LEN as int));
        Instrs::new(body)
    }

    /// The header that the first five words stand for. The binary must hold
    /// the five header words.
    pub fn header(&self) -> (r: Option<SpirvHeader>)
        requires
            self@.len() >= HEADER_LEN,
        ensures
            r == Some(header_of(self@)),
    {
        let header = slice_subrange(self.0.as_slice(), 0, HEADER_LEN);
        if header.len() < 5 {
            return None;
        }
        Some(
            SpirvHeader {
                magic: header[0],
                version: header[1],
                generator: header[2],
                bound: header[3],
                schema: header[4],
            },
        )
    }
}

} // verus!
