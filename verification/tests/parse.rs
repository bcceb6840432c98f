use spirq_core::error::Error;
use spirq_core::parse::bin::{SpirvBinary, SpirvHeader};
use spirq_core::parse::instr::{Instr, Instrs, Instruction, InstructionBuilder, Operands};
use spirq_core::parse::words::{le_bytes_of, le_words_of, string_words};

#[test]
fn header_default_targets_spirv_1_6() {
    let h = SpirvHeader::default();
    assert_eq!(h.magic, 0x07230203);
    assert_eq!(h.version, 0x00010600);
    assert_eq!((h.generator, h.bound, h.schema), (0, 0, 0));
    let h = SpirvHeader::new(0x00010300, 7);
    assert_eq!(h.words(), [0x07230203, 0x00010300, 7, 0, 0]);
}

#[test]
fn binary_from_little_endian_bytes() {
    let bytes: Vec<u8> = vec![0x03, 0x02, 0x23, 0x07, 0x00, 0x00, 0x01, 0x00];
    let spv = SpirvBinary::from_bytes(&bytes);
    assert_eq!(spv.words(), &[0x07230203, 0x00010000]);
}

#[test]
fn binary_from_big_endian_bytes() {
    let bytes: Vec<u8> = vec![0x07, 0x23, 0x02, 0x03, 0x00, 0x01, 0x00, 0x00];
    let spv = SpirvBinary::from_bytes(&bytes);
    assert_eq!(spv.words(), &[0x07230203, 0x00010000]);
}

#[test]
fn binary_from_bytes_drops_partial_word_and_unknown_order() {
    let bytes: Vec<u8> = vec![0x03, 0x02, 0x23, 0x07, 0xaa];
    assert_eq!(SpirvBinary::from_bytes(&bytes).words(), &[0x07230203]);
    let bytes: Vec<u8> = vec![0x01, 0x02, 0x03, 0x04];
    assert!(SpirvBinary::from_bytes(&bytes).words().is_empty());
    assert!(SpirvBinary::from_bytes(&[]).words().is_empty());
}

#[test]
fn words_bytes_roundtrip() {
    let ws = vec![0x07230203u32, 0xdeadbeef, 1];
    let bytes = le_bytes_of(&ws);
    assert_eq!(bytes.len(), 12);
    assert_eq!(&bytes[4..8], &[0xef, 0xbe, 0xad, 0xde]);
    assert_eq!(le_words_of(&bytes), ws);
    assert_eq!(SpirvBinary::from_bytes(&bytes).into_words(), ws);
}

#[test]
fn binary_header_and_instrs() {
    let spv = SpirvBinary::from(vec![0x07230203u32, 0x00010000, 0, 3, 0, 0x00010000, 0x00020011, 1]);
    let h = spv.header().unwrap();
    assert_eq!(h.bound, 3);
    let mut it = spv.instrs().unwrap();
    let first = it.next().unwrap().unwrap();
    assert_eq!(first.opcode(), 0);
    assert_eq!(first.word_count(), 1);
    let second = it.next().unwrap().unwrap();
    assert_eq!(second.opcode(), 17);
    assert_eq!(second.as_words(), &[0x00020011, 1]);
    assert!(it.next().unwrap().is_none());
}

#[test]
fn instrs_skip_nops() {
    let words = [0x00010000u32, 0x00010000, 0x00020011, 5];
    let mut it = Instrs::new(&words).unwrap();
    let instr = it.next_non_nop().unwrap().unwrap();
    assert_eq!(instr.opcode(), 17);
    assert!(it.next_non_nop().unwrap().is_none());
}

#[test]
fn instrs_report_zero_length() {
    let words = [0x00000011u32];
    assert_eq!(Instrs::new(&words).err(), Some(Error::ZeroLengthInstruction));
    let words = [0x00010000u32, 0x00000011];
    let mut it = Instrs::new(&words).unwrap();
    assert_eq!(it.next().err(), Some(Error::ZeroLengthInstruction));
}

#[test]
fn instrs_stop_at_truncated_instruction() {
    let words = [0x00030011u32, 1];
    let mut it = Instrs::new(&words).unwrap();
    assert!(it.peek().is_none());
    assert!(it.next().unwrap().is_none());
}

#[test]
fn instr_needs_a_word() {
    assert_eq!(Instr::new(&[]).err(), Some(Error::InstructionTooShort));
    let words = [0x0003002bu32, 4, 7];
    let instr = Instr::new(&words).unwrap();
    assert_eq!(instr.opcode(), 43);
    let mut ops = instr.operands();
    assert_eq!(ops.len(), 2);
    assert_eq!(ops.read_id().unwrap(), 4);
    assert_eq!(ops.read_u32().unwrap(), 7);
    assert!(ops.is_empty());
    assert_eq!(ops.read_u32(), Err(Error::OperandTooShort));
    assert_eq!(instr.to_owned().as_words(), &words);
}

#[test]
fn builder_counts_words() {
    let instr = InstructionBuilder::new(43).push(4).push(7).build();
    assert_eq!(instr.as_words(), &[0x0003002b, 4, 7]);
    let instr = Instruction::builder(71).push_list(&[1, 2, 3]).build();
    assert_eq!(instr.into_words(), vec![0x00040047, 1, 2, 3]);
}

#[test]
fn builder_pads_strings() {
    let instr = InstructionBuilder::new(5).push(1).push_str("main").build();
    assert_eq!(instr.as_words(), &[0x00040005, 1, 0x6e69616d, 0]);
    assert_eq!(string_words("abc"), vec![0x00636261]);
    assert_eq!(string_words(""), vec![0]);
}

#[test]
fn operands_read_strings_back() {
    let instr = InstructionBuilder::new(5).push(1).push_str("main").push(9).build();
    let mut ops = instr.as_instr().operands();
    assert_eq!(ops.read_id().unwrap(), 1);
    assert_eq!(ops.read_str().unwrap(), "main");
    assert_eq!(ops.read_u32().unwrap(), 9);
}

#[test]
fn operands_string_errors() {
    let words = [0x64636261u32];
    let mut ops = Operands::new(&words);
    assert_eq!(ops.read_str(), Err(Error::StringNotNullTerminated));
    let words = [0x00ff_ffffu32];
    let mut ops = Operands::new(&words);
    assert_eq!(ops.read_str(), Err(Error::InvalidUtf8));
}

#[test]
fn operands_bool_and_list() {
    let words = [0u32, 2, 3, 4];
    let mut ops = Operands::new(&words);
    assert_eq!(ops.read_bool(), Ok(false));
    assert_eq!(ops.read_bool(), Ok(true));
    assert_eq!(ops.next(), Some(3));
    assert_eq!(ops.read_list().unwrap(), &[4]);
    assert!(ops.is_empty());
    assert_eq!(ops.next(), None);
}

#[test]
fn instrs_partition_the_stream_in_order() {
    let words = [0x00020011u32, 1, 0x00010000, 0x0003000e, 0, 1, 0x00010000];
    let mut it = Instrs::new(&words).unwrap();
    let expected: [&[u32]; 4] = [&[0x00020011, 1], &[0x00010000], &[0x0003000e, 0, 1], &[0x00010000]];
    for want in expected {
        assert_eq!(it.next().unwrap().unwrap().as_words(), want);
    }
    assert!(it.next().unwrap().is_none());
    assert!(it.next().unwrap().is_none());
}

#[test]
fn binary_from_byte_slices_and_vectors() {
    let le: Vec<u8> = vec![0x03, 0x02, 0x23, 0x07, 0x00, 0x00, 0x01, 0x00, 0x11];
    assert_eq!(SpirvBinary::from(&le[..]).words(), &[0x07230203, 0x00010000]);
    let be: Vec<u8> = vec![0x07, 0x23, 0x02, 0x03];
    assert_eq!(SpirvBinary::from(be).words(), &[0x07230203]);
    let other: &[u8] = &[0x05, 0x23, 0x02, 0x03];
    assert!(SpirvBinary::from(other).words().is_empty());
    let ws: &[u32] = &[1, 2, 3];
    assert_eq!(SpirvBinary::from(ws).words(), &[1, 2, 3]);
}
