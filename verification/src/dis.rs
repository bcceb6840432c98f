//! A minimal disassembler that prints the header of a SPIR-V module.
use vstd::prelude::*;

use crate::parse::bin::{header_of, SpirvBinary, HEADER_LEN};
use crate::text::{dec_chars, hex_chars, push_dec, push_hex, push_str};

verus! {

/// The header summary printed for a module whose header is `h`.
pub open spec fn header_summary(version: u32, generator: u32, bound: u32, schema: u32) -> Seq<
    char,
> {
    "; SPIR-V\n; Version: "@ + dec_chars((version >> 16u32) as nat) + "."@ + dec_chars(
        (version & 0xffffu32) as nat,
    ) + "\n; Generator: "@ + hex_chars(generator as nat) + "\n; Bound: "@ + hex_chars(
        bound as nat,
    ) + "\n; Schema: "@ + hex_chars(schema as nat) + "\n"@
}

/// Header-only SPIR-V disassembler.
pub struct Disassembler {}

impl Disassembler {
    /// Print the header of the module: its version as `major.minor` in
    /// decimal, then its generator, bound and schema in hexadecimal.
    pub fn apply(self, spv: &SpirvBinary) -> (r: String)
        requires
            spv@.len() >= HEADER_LEN,
        ensures
            r@ == header_summary(
                header_of(spv@).version,
                header_of(spv@).generator,
                header_of(spv@).bound,
                header_of(spv@).schema,
            ),
    {
        let mut out = String::new();
        let header = match spv.header() {
            Some(h) => h,
            None => return out,
        };
        push_str(&mut out, "; SPIR-V\n; Version: ");
        push_dec(&mut out, (header.version >> 16u32) as u64);
        push_str(&mut out, ".");
        push_dec(&mut out, (header.version & 0xffffu32) as u64);
        push_str(&mut out, "\n; Generator: ");
        push_hex(&mut out, header.generator as u64);
        push_str(&mut out, "\n; Bound: ");
        push_hex(&mut out, header.bound as u64);
        push_str(&mut out, "\n; Schema: ");
        push_hex(&mut out, header.schema as u64);
        push_str(&mut out, "\n");
        out
    }
}

} // verus!
