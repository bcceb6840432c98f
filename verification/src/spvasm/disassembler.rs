//! Configuration and line layout of the SPIR-V disassembler.
use vstd::prelude::*;

use std::collections::HashMap;

use vstd::utf8::encode_utf8;

use crate::parse::bin::SpirvHeader;
use crate::text::{dec_chars, hex_chars, push_char, push_dec, push_hex, push_str};

verus! {

broadcast use vstd::std_specs::hash::group_hash_axioms;

/// SPIR-V disassembler.
pub struct Disassembler {
    print_header: bool,
    name_ids: bool,
    name_type_ids: bool,
    name_const_ids: bool,
    indent: bool,
}

/// The byte offset of the first `=` in the UTF-8 encoding of a line, as
/// `str::find` reports it, searching from byte `from`.
pub open spec fn first_eq_from(b: Seq<u8>, from: int) -> Option<int>
    decreases b.len() - from,
{
    if from < 0 || from >= b.len() {
        None
    } else if b[from] == 0x3Du8 {
        Some(from)
    } else {
        first_eq_from(b, from + 1)
    }
}

/// The byte offset of the first `=` in a line.
pub open spec fn eq_pos(line: Seq<char>) -> Option<int> {
    first_eq_from(encode_utf8(line), 0)
}

/// The column that assignments are aligned to: the largest offset of an `=`
/// among the first `n` lines, at most 15, and 0 if no line has one.
pub open spec fn max_eq_pos(lines: Seq<Seq<char>>, n: int) -> int
    decreases n,
{
    if n <= 0 {
        0
    } else {
        let prev = max_eq_pos(lines, n - 1);
        match eq_pos(lines[n - 1]) {
            Some(p) => {
                let q = if p < 15 {
                    p
                } else {
                    15
                };
                if q > prev {
                    q
                } else {
                    prev
                }
            },
            None => prev,
        }
    }
}

/// The number of spaces before a line: enough to move its `=` to column
/// `col`, or `col + 2` for a line without one.
pub open spec fn indent_width(line: Seq<char>, col: int) -> int {
    match eq_pos(line) {
        Some(p) => col - if p < col {
            p
        } else {
            col
        },
        None => col + 2,
    }
}

/// `n` spaces.
pub open spec fn spaces(n: nat) -> Seq<char> {
    Seq::new(n, |i: int| ' ')
}

/// The header comment lines: version as `major.minor`, the generator (named
/// for Glslang, whose id is 8) and its version, the bound in decimal and the
/// schema in hexadecimal.
pub open spec fn header_lines_spec(h: SpirvHeader) -> Seq<Seq<char>> {
    let generator = h.generator >> 16u32;
    let generator_version = h.generator & 0xffffu32;
    seq![
        "; SPIR-V"@,
        "; Version: "@ + dec_chars((h.version >> 16u32) as nat) + "."@ + dec_chars(
            ((h.version >> 8u32) & 0xffu32) as nat,
        ),
        if generator == 8 {
            "; Generator: Khronos Glslang Reference Front End; "@ + dec_chars(
                generator_version as nat,
            )
        } else {
            "; Generator: "@ + dec_chars(generator as nat) + "; "@ + dec_chars(
                generator_version as nat,
            )
        },
        "; Bound: "@ + dec_chars(h.bound as nat),
        "; Schema: "@ + hex_chars(h.schema as nat),
    ]
}

/// The views of a vector of strings.
pub open spec fn lines_view(v: Seq<String>) -> Seq<Seq<char>> {
    v.map_values(|s: String| s@)
}

/// The offset of the first `=` in `s`, as `str::find` reports it.
fn find_eq(s: &str) -> (r: Option<usize>)
    ensures
        match r {
            Some(p) => eq_pos(s@) == Some(p as int),
            None => eq_pos(s@) is None,
        },
{
    let b = s.as_bytes();
    let mut i: usize = 0;
    while i < b.len()
        invariant
            b@ == encode_utf8(s@),
            i <= b@.len(),
            first_eq_from(b@, 0) == first_eq_from(b@, i as int),
        decreases b@.len() - i,
    {
        if b[i] == 0x3Du8 {
            return Some(i);
        }
        i = i + 1;
    }
    None
}

impl Disassembler {
    /// Whether the header comment is printed.
    pub closed spec fn spec_print_header(self) -> bool {
        self.print_header
    }

    /// Whether ids are referred to by their debug names.
    pub closed spec fn spec_name_ids(self) -> bool {
        self.name_ids
    }

    /// Whether type ids are referred to by names.
    pub closed spec fn spec_name_type_ids(self) -> bool {
        self.name_type_ids
    }

    /// Whether constant ids are referred to by names.
    pub closed spec fn spec_name_const_ids(self) -> bool {
        self.name_const_ids
    }

    /// Whether the output is indented.
    pub closed spec fn spec_indent(self) -> bool {
        self.indent
    }

    /// Create a new SPIR-V disassembler: it prints the header, names nothing
    /// and does not indent.
    pub fn new() -> (r: Self)
        ensures
            r.spec_print_header(),
            !r.spec_name_ids(),
            !r.spec_name_type_ids(),
            !r.spec_name_const_ids(),
            !r.spec_indent(),
    {
        Self {
            print_header: true,
            name_ids: false,
            name_type_ids: false,
            name_const_ids: false,
            indent: false,
        }
    }

    /// Print the metadata in the SPIR-V header.
    pub fn print_header(self, value: bool) -> (r: Self)
        ensures
            r.spec_print_header() == value,
            r.spec_name_ids() == self.spec_name_ids(),
            r.spec_name_type_ids() == self.spec_name_type_ids(),
            r.spec_name_const_ids() == self.spec_name_const_ids(),
            r.spec_indent() == self.spec_indent(),
    {
        Self { print_header: value, ..self }
    }

    /// Reference intermediate values by their names rather than numeric IDs
    /// if it has been annotated by OpName.
    pub fn name_ids(self, value: bool) -> (r: Self)
        ensures
            r.spec_print_header() == self.spec_print_header(),
            r.spec_name_ids() == value,
            r.spec_name_type_ids() == self.spec_name_type_ids(),
            r.spec_name_const_ids() == self.spec_name_const_ids(),
            r.spec_indent() == self.spec_indent(),
    {
        Self { name_ids: value, ..self }
    }

    /// Reference type definitions by their names rather than numeric IDs.
    pub fn name_type_ids(self, value: bool) -> (r: Self)
        ensures
            r.spec_print_header() == self.spec_print_header(),
            r.spec_name_ids() == self.spec_name_ids(),
            r.spec_name_type_ids() == value,
            r.spec_name_const_ids() == self.spec_name_const_ids(),
            r.spec_indent() == self.spec_indent(),
    {
        Self { name_type_ids: value, ..self }
    }

    /// Reference constant value by names rather than numeric IDs.
    pub fn name_const_ids(self, value: bool) -> (r: Self)
        ensures
            r.spec_print_header() == self.spec_print_header(),
            r.spec_name_ids() == self.spec_name_ids(),
            r.spec_name_type_ids() == self.spec_name_type_ids(),
            r.spec_name_const_ids() == value,
            r.spec_indent() == self.spec_indent(),
    {
        Self { name_const_ids: value, ..self }
    }

    /// Indent the output.
    pub fn indent(self, value: bool) -> (r: Self)
        ensures
            r.spec_print_header() == self.spec_print_header(),
            r.spec_name_ids() == self.spec_name_ids(),
            r.spec_name_type_ids() == self.spec_name_type_ids(),
            r.spec_name_const_ids() == self.spec_name_const_ids(),
            r.spec_indent() == value,
    {
        Self { indent: value, ..self }
    }

    /// Whether any kind of id is to be referred to by name.
    pub fn names_any(&self) -> (r: bool)
        ensures
            r == (self.spec_name_ids() || self.spec_name_type_ids() || self.spec_name_const_ids()),
    {
        self.name_ids || self.name_type_ids || self.name_const_ids
    }

    /// An id reference: `%` and the id's name if one was collected, else its
    /// number.
    pub fn print_id(&self, id: u32, id_names: &HashMap<u32, String>) -> (r: String)
        ensures
            r@ == seq!['%'] + if id_names@.contains_key(id) {
                id_names@[id]@
            } else {
                dec_chars(id as nat)
            },
    {
        let mut out = String::new();
        push_char(&mut out, '%');
        match id_names.get(&id) {
            Some(name) => push_str(&mut out, name.as_str()),
            None => push_dec(&mut out, id as u64),
        }
        out
    }

    /// The header comment lines for a module with header `h`, or none if the
    /// header is not printed.
    pub fn header_lines(&self, h: &SpirvHeader) -> (r: Vec<String>)
        ensures
            self.spec_print_header() ==> lines_view(r@) == header_lines_spec(*h),
            !self.spec_print_header() ==> r@.len() == 0,
    {
        let mut out: Vec<String> = Vec::new();
        if !self.print_header {
            return out;
        }
        let mut l0 = String::new();
        push_str(&mut l0, "; SPIR-V");
        let mut l1 = String::new();
        push_str(&mut l1, "; Version: ");
        push_dec(&mut l1, (h.version >> 16u32) as u64);
        push_str(&mut l1, ".");
        push_dec(&mut l1, ((h.version >> 8u32) & 0xffu32) as u64);
        let generator = h.generator >> 16u32;
        let generator_version = h.generator & 0xffffu32;
        let mut l2 = String::new();
        if generator == 8 {
            push_str(&mut l2, "; Generator: Khronos Glslang Reference Front End; ");
            push_dec(&mut l2, generator_version as u64);
        } else {
            push_str(&mut l2, "; Generator: ");
            push_dec(&mut l2, generator as u64);
            push_str(&mut l2, "; ");
            push_dec(&mut l2, generator_version as u64);
        }
        let mut l3 = String::new();
        push_str(&mut l3, "; Bound: ");
        push_dec(&mut l3, h.bound as u64);
        let mut l4 = String::new();
        push_str(&mut l4, "; Schema: ");
        push_hex(&mut l4, h.schema as u64);
        out.push(l0);
        out.push(l1);
        out.push(l2);
        out.push(l3);
        out.push(l4);
        assert(lines_view(out@) =~= header_lines_spec(*h));
        out
    }

    /// Aligns the `=` of assignment lines to one column (the largest offset
    /// of an `=`, at most 15) and indents other lines two columns past it;
    /// returns the lines unchanged if the output is not indented.
    pub fn indent_lines(&self, lines: Vec<String>) -> (r: Vec<String>)
        ensures
            !self.spec_indent() ==> r@ == lines@,
            self.spec_indent() ==> {
                let col = max_eq_pos(lines_view(lines@), lines@.len() as int);
                &&& r@.len() == lines@.len()
                &&& forall|i: int|
                    0 <= i < r@.len() ==> #[trigger] r@[i]@ == spaces(
                        indent_width(lines@[i]@, col) as nat,
                    ) + lines@[i]@
            },
    {
        if !self.indent {
            return lines;
        }
        let ghost lv = lines_view(lines@);
        let mut col: usize = 0;
        let mut i: usize = 0;
        while i < lines.len()
            invariant
                i <= lines@.len(),
                lv == lines_view(lines@),
                col == max_eq_pos(lv, i as int),
                col <= 15,
            decreases lines@.len() - i,
        {
            match find_eq(lines[i].as_str()) {
                Some(p) => {
                    let q = if p < 15 {
                        p
                    } else {
                        15
                    };
                    if q > col {
                        col = q;
                    }
                },
                None => {},
            }
            assert(lv[i as int] == lines@[i as int]@);
            i = i + 1;
        }
        let mut out: Vec<String> = Vec::new();
        let mut i: usize = 0;
        while i < lines.len()
            invariant
                i <= lines@.len(),
                lv == lines_view(lines@),
                col == max_eq_pos(lv, lines@.len() as int),
                col <= 15,
                out@.len() == i,
                forall|j: int|
                    0 <= j < i ==> #[trigger] out@[j]@ == spaces(
                        indent_width(lines@[j]@, col as int) as nat,
                    ) + lines@[j]@,
            decreases lines@.len() - i,
        {
            let line = &lines[i];
            let width: usize = match find_eq(line.as_str()) {
                Some(p) => col - if p < col {
                    p
                } else {
                    col
                },
                None => col + 2,
            };
            let mut s = String::new();
            let mut k: usize = 0;
            while k < width
                invariant
                    k <= width,
                    s@ == spaces(k as nat),
                decreases width - k,
            {
                push_char(&mut s, ' ');
                assert(s@ =~= spaces((k + 1) as nat));
                k = k + 1;
            }
            push_str(&mut s, line.as_str());
            out.push(s);
            i = i + 1;
        }
        out
    }
}

} // verus!
