//! The Super Nintendo CPU: a little-endian 65816 with 16-bit labels.
use vstd::prelude::*;
use crate::system_definition::{
    byte_index, entry_model, shape_of, table_model, ArgShape, EntryModel,
    AddressingMode, ArgumentSize, InstructionArgument, InstructionInfo, SystemDefinition,
};

verus! {

/// The name of the addressing mode that an operand of `size` selects.
pub open spec fn snes_mode_name(size: ArgumentSize) -> &'static str {
    match size {
        ArgumentSize::Word8 => "direct page",
        ArgumentSize::Word16 => "absolute",
        ArgumentSize::Word24 => "absolute long",
        ArgumentSize::Word32 => "invalid",
    }
}

pub fn snes_argument_size_to_addressing_mode(size: ArgumentSize) -> (r: &'static str)
    ensures
        r == snes_mode_name(size),
{
    match size {
        ArgumentSize::Word8 => "direct page",
        ArgumentSize::Word16 => "absolute",
        ArgumentSize::Word24 => "absolute long",
        ArgumentSize::Word32 => "invalid",
    }
}

/// A table entry as plain values.
pub open spec fn e(name: Seq<char>, addressing: AddressingMode, opcode: u8, arguments: Seq<ArgShape>) -> EntryModel {
    EntryModel { name, addressing, opcode, arguments }
}

/// Entries `adc` to `asl` of the opcode table.
pub open spec fn snes_table_0() -> Seq<EntryModel> {
    seq![
        e("adc"@, AddressingMode::IndexedIndirect, 0x61, seq![ArgShape::Number(ArgumentSize::Word8), ArgShape::Register("x"@)]),
        e("adc"@, AddressingMode::Indexed, 0x63, seq![ArgShape::Number(ArgumentSize::Word8), ArgShape::Register("s"@)]),
        e("adc"@, AddressingMode::SingleArgument, 0x65, seq![ArgShape::Number(ArgumentSize::Word8)]),
        e("adc"@, AddressingMode::IndirectLong, 0x67, seq![ArgShape::Number(ArgumentSize::Word8)]),
        e("adc"@, AddressingMode::Immediate, 0x69, seq![ArgShape::Numbers(seq![ArgumentSize::Word8, ArgumentSize::Word16])]),
        e("adc"@, AddressingMode::SingleArgument, 0x6D, seq![ArgShape::Number(ArgumentSize::Word16)]),
        e("adc"@, AddressingMode::SingleArgument, 0x6F, seq![ArgShape::Number(ArgumentSize::Word24)]),
        e("adc"@, AddressingMode::IndirectIndexed, 0x71, seq![ArgShape::Number(ArgumentSize::Word8), ArgShape::Register("y"@)]),
        e("adc"@, AddressingMode::Indirect, 0x72, seq![ArgShape::Number(ArgumentSize::Word8)]),
        e("adc"@, AddressingMode::StackRelativeIndirectIndexed, 0x73, seq![ArgShape::Number(ArgumentSize::Word8), ArgShape::Register("s"@), ArgShape::Register("y"@)]),
        e("adc"@, AddressingMode::Indexed, 0x75, seq![ArgShape::Number(ArgumentSize::Word8), ArgShape::Register("x"@)]),
        e("adc"@, AddressingMode::IndirectIndexedLong, 0x77, seq![ArgShape::Number(ArgumentSize::Word8), ArgShape::Register("y"@)]),
        e("adc"@, AddressingMode::Indexed, 0x79, seq![ArgShape::Number(ArgumentSize::Word16), ArgShape::Register("y"@)]),
        e("adc"@, AddressingMode::Indexed, 0x7D, seq![ArgShape::Number(ArgumentSize::Word16), ArgShape::Register("x"@)]),
        e("adc"@, AddressingMode::Indexed, 0x7F, seq![ArgShape::Number(ArgumentSize::Word24), ArgShape::Register("x"@)]),
        e("and"@, AddressingMode::IndexedIndirect, 0x21, seq![ArgShape::Number(ArgumentSize::Word8), ArgShape::Register("x"@)]),
        e("and"@, AddressingMode::Indexed, 0x23, seq![ArgShape::Number(ArgumentSize::Word8), ArgShape::Register("s"@)]),
        e("and"@, AddressingMode::SingleArgument, 0x25, seq![ArgShape::Number(ArgumentSize::Word8)]),
        e("and"@, AddressingMode::IndirectLong, 0x27, seq![ArgShape::Number(ArgumentSize::Word8)]),
        e("and"@, AddressingMode::Immediate, 0x29, seq![ArgShape::Numbers(seq![ArgumentSize::Word8, ArgumentSize::Word16])]),
        e("and"@, AddressingMode::SingleArgument, 0x2D, seq![ArgShape::Number(ArgumentSize::Word16)]),
        e("and"@, AddressingMode::SingleArgument, 0x2F, seq![ArgShape::Number(ArgumentSize::Word24)]),
        e("and"@, AddressingMode::IndirectIndexed, 0x31, seq![ArgShape::Number(ArgumentSize::Word8), ArgShape::Register("y"@)]),
        e("and"@, AddressingMode::Indirect, 0x32, seq![ArgShape::Number(ArgumentSize::Word8)]),
        e("and"@, AddressingMode::StackRelativeIndirectIndexed, 0x33, seq![ArgShape::Number(ArgumentSize::Word8), ArgShape::Register("s"@), ArgShape::Register("y"@)]),
        e("and"@, AddressingMode::Indexed, 0x35, seq![ArgShape::Number(ArgumentSize::Word8), ArgShape::Register("x"@)]),
        e("and"@, AddressingMode::IndirectIndexedLong, 0x37, seq![ArgShape::Number(ArgumentSize::Word8), ArgShape::Register("y"@)]),
        e("and"@, AddressingMode::Indexed, 0x39, seq![ArgShape::Number(ArgumentSize::Word16), ArgShape::Register("y"@)]),
        e("and"@, AddressingMode::Indexed, 0x3D, seq![ArgShape::Number(ArgumentSize::Word16), ArgShape::Register("x"@)]),
        e("and"@, AddressingMode::Indexed, 0x3F, seq![ArgShape::Number(ArgumentSize::Word24), ArgShape::Register("x"@)]),
        e("asl"@, AddressingMode::SingleArgument, 0x06, seq![ArgShape::Number(ArgumentSize::Word8)]),
        e("asl"@, AddressingMode::Implied, 0x0A, seq![]),
    ]
}

/// Entries `asl` to `cmp` of the opcode table.
pub open spec fn snes_table_1() -> Seq<EntryModel> {
    seq![
        e("asl"@, AddressingMode::SingleArgument, 0x0E, seq![ArgShape::Number(ArgumentSize::Word16)]),
        e("asl"@, AddressingMode::Indexed, 0x16, seq![ArgShape::Number(ArgumentSize::Word8), ArgShape::Register("x"@)]),
        e("asl"@, AddressingMode::Indexed, 0x1E, seq![ArgShape::Number(ArgumentSize::Word16), ArgShape::Register("x"@)]),
        e("bcc"@, AddressingMode::Relative, 0x90, seq![ArgShape::Number(ArgumentSize::Word8)]),
        e("bcs"@, AddressingMode::Relative, 0xB0, seq![ArgShape::Number(ArgumentSize::Word8)]),
        e("beq"@, AddressingMode::Relative, 0xF0, seq![ArgShape::Number(ArgumentSize::Word8)]),
        e("bit"@, AddressingMode::SingleArgument, 0x24, seq![ArgShape::Number(ArgumentSize::Word8)]),
        e("bit"@, AddressingMode::SingleArgument, 0x2C, seq![ArgShape::Number(ArgumentSize::Word16)]),
        e("bit"@, AddressingMode::Indexed, 0x34, seq![ArgShape::Number(ArgumentSize::Word8), ArgShape::Register("x"@)]),
        e("bit"@, AddressingMode::Indexed, 0x3C, seq![ArgShape::Number(ArgumentSize::Word16), ArgShape::Register("x"@)]),
        e("bit"@, AddressingMode::Immediate, 0x89, seq![ArgShape::Numbers(seq![ArgumentSize::Word8, ArgumentSize::Word16])]),
        e("bmi"@, AddressingMode::Relative, 0x30, seq![ArgShape::Number(ArgumentSize::Word8)]),
        e("bne"@, AddressingMode::Relative, 0xD0, seq![ArgShape::Number(ArgumentSize::Word8)]),
        e("bpl"@, AddressingMode::Relative, 0x10, seq![ArgShape::Number(ArgumentSize::Word8)]),
        e("bra"@, AddressingMode::Relative, 0x80, seq![ArgShape::Number(ArgumentSize::Word8)]),
        e("brk"@, AddressingMode::Implied, 0x00, seq![]),
        e("brl"@, AddressingMode::Relative, 0x82, seq![ArgShape::Number(ArgumentSize::Word16)]),
        e("bvc"@, AddressingMode::Relative, 0x50, seq![ArgShape::Number(ArgumentSize::Word8)]),
        e("bvs"@, AddressingMode::Relative, 0x70, seq![ArgShape::Number(ArgumentSize::Word8)]),
        e("clc"@, AddressingMode::Implied, 0x18, seq![]),
        e("cld"@, AddressingMode::Implied, 0xD8, seq![]),
        e("cli"@, AddressingMode::Implied, 0x58, seq![]),
        e("clv"@, AddressingMode::Implied, 0xB8, seq![]),
        e("cmp"@, AddressingMode::IndexedIndirect, 0xC1, seq![ArgShape::Number(ArgumentSize::Word8), ArgShape::Register("x"@)]),
        e("cmp"@, AddressingMode::Indexed, 0xC3, seq![ArgShape::Number(ArgumentSize::Word8), ArgShape::Register("s"@)]),
        e("cmp"@, AddressingMode::SingleArgument, 0xC5, seq![ArgShape::Number(ArgumentSize::Word8)]),
        e("cmp"@, AddressingMode::IndirectLong, 0xC7, seq![ArgShape::Number(ArgumentSize::Word8)]),
        e("cmp"@, AddressingMode::Immediate, 0xC9, seq![ArgShape::Numbers(seq![ArgumentSize::Word8, ArgumentSize::Word16])]),
        e("cmp"@, AddressingMode::SingleArgument, 0xCD, seq![ArgShape::Number(ArgumentSize::Word16)]),
        e("cmp"@, AddressingMode::SingleArgument, 0xCF, seq![ArgShape::Number(ArgumentSize::Word24)]),
        e("cmp"@, AddressingMode::IndirectIndexed, 0xD1, seq![ArgShape::Number(ArgumentSize::Word8), ArgShape::Register("y"@)]),
        e("cmp"@, AddressingMode::Indirect, 0xD2, seq![ArgShape::Number(ArgumentSize::Word8)]),
    ]
}

/// Entries `cmp` to `eor` of the opcode table.
pub open spec fn snes_table_2() -> Seq<EntryModel> {
    seq![
        e("cmp"@, AddressingMode::StackRelativeIndirectIndexed, 0xD3, seq![ArgShape::Number(ArgumentSize::Word8), ArgShape::Register("s"@), ArgShape::Register("y"@)]),
        e("cmp"@, AddressingMode::Indexed, 0xD5, seq![ArgShape::Number(ArgumentSize::Word8), ArgShape::Register("x"@)]),
        e("cmp"@, AddressingMode::IndirectIndexedLong, 0xD7, seq![ArgShape::Number(ArgumentSize::Word8), ArgShape::Register("y"@)]),
        e("cmp"@, AddressingMode::Indexed, 0xD9, seq![ArgShape::Number(ArgumentSize::Word16), ArgShape::Register("y"@)]),
        e("cmp"@, AddressingMode::Indexed, 0xDD, seq![ArgShape::Number(ArgumentSize::Word16), ArgShape::Register("x"@)]),
        e("cmp"@, AddressingMode::Indexed, 0xDF, seq![ArgShape::Number(ArgumentSize::Word24), ArgShape::Register("x"@)]),
        e("cop"@, AddressingMode::SingleArgument, 0x02, seq![ArgShape::Number(ArgumentSize::Word8)]),
        e("cpx"@, AddressingMode::Immediate, 0xE0, seq![ArgShape::Numbers(seq![ArgumentSize::Word8, ArgumentSize::Word16])]),
        e("cpx"@, AddressingMode::SingleArgument, 0xE4, seq![ArgShape::Number(ArgumentSize::Word8)]),
        e("cpx"@, AddressingMode::SingleArgument, 0xEC, seq![ArgShape::Number(ArgumentSize::Word16)]),
        e("cpy"@, AddressingMode::Immediate, 0xC0, seq![ArgShape::Numbers(seq![ArgumentSize::Word8, ArgumentSize::Word16])]),
        e("cpy"@, AddressingMode::SingleArgument, 0xC4, seq![ArgShape::Number(ArgumentSize::Word8)]),
        e("cpy"@, AddressingMode::SingleArgument, 0xCC, seq![ArgShape::Number(ArgumentSize::Word16)]),
        e("dec"@, AddressingMode::Implied, 0x3A, seq![]),
        e("dec"@, AddressingMode::SingleArgument, 0xC6, seq![ArgShape::Number(ArgumentSize::Word8)]),
        e("dec"@, AddressingMode::SingleArgument, 0xCE, seq![ArgShape::Number(ArgumentSize::Word16)]),
        e("dec"@, AddressingMode::Indexed, 0xD6, seq![ArgShape::Number(ArgumentSize::Word8), ArgShape::Register("x"@)]),
        e("dec"@, AddressingMode::Indexed, 0xDE, seq![ArgShape::Number(ArgumentSize::Word16), ArgShape::Register("x"@)]),
        e("dex"@, AddressingMode::Implied, 0xCA, seq![]),
        e("dey"@, AddressingMode::Implied, 0x88, seq![]),
        e("eor"@, AddressingMode::IndexedIndirect, 0x41, seq![ArgShape::Number(ArgumentSize::Word8), ArgShape::Register("x"@)]),
        e("eor"@, AddressingMode::Indexed, 0x43, seq![ArgShape::Number(ArgumentSize::Word8), ArgShape::Register("s"@)]),
        e("eor"@, AddressingMode::SingleArgument, 0x45, seq![ArgShape::Number(ArgumentSize::Word8)]),
        e("eor"@, AddressingMode::IndirectLong, 0x47, seq![ArgShape::Number(ArgumentSize::Word8)]),
        e("eor"@, AddressingMode::Immediate, 0x49, seq![ArgShape::Numbers(seq![ArgumentSize::Word8, ArgumentSize::Word16])]),
        e("eor"@, AddressingMode::SingleArgument, 0x4D, seq![ArgShape::Number(ArgumentSize::Word16)]),
        e("eor"@, AddressingMode::SingleArgument, 0x4F, seq![ArgShape::Number(ArgumentSize::Word24)]),
        e("eor"@, AddressingMode::IndirectIndexed, 0x51, seq![ArgShape::Number(ArgumentSize::Word8), ArgShape::Register("y"@)]),
        e("eor"@, AddressingMode::Indirect, 0x52, seq![ArgShape::Number(ArgumentSize::Word8)]),
        e("eor"@, AddressingMode::StackRelativeIndirectIndexed, 0x53, seq![ArgShape::Number(ArgumentSize::Word8), ArgShape::Register("s"@), ArgShape::Register("y"@)]),
        e("eor"@, AddressingMode::Indexed, 0x55, seq![ArgShape::Number(ArgumentSize::Word8), ArgShape::Register("x"@)]),
        e("eor"@, AddressingMode::IndirectIndexedLong, 0x57, seq![ArgShape::Number(ArgumentSize::Word8), ArgShape::Register("y"@)]),
    ]
}

/// Entries `eor` to `lda` of the opcode table.
pub open spec fn snes_table_3() -> Seq<EntryModel> {
    seq![
        e("eor"@, AddressingMode::Indexed, 0x59, seq![ArgShape::Number(ArgumentSize::Word16), ArgShape::Register("y"@)]),
        e("eor"@, AddressingMode::Indexed, 0x5D, seq![ArgShape::Number(ArgumentSize::Word16), ArgShape::Register("x"@)]),
        e("eor"@, AddressingMode::Indexed, 0x5F, seq![ArgShape::Number(ArgumentSize::Word24), ArgShape::Register("x"@)]),
        e("inc"@, AddressingMode::Implied, 0x1A, seq![]),
        e("inc"@, AddressingMode::SingleArgument, 0xE6, seq![ArgShape::Number(ArgumentSize::Word8)]),
        e("inc"@, AddressingMode::SingleArgument, 0xEE, seq![ArgShape::Number(ArgumentSize::Word16)]),
        e("inc"@, AddressingMode::Indexed, 0xF6, seq![ArgShape::Number(ArgumentSize::Word8), ArgShape::Register("x"@)]),
        e("inc"@, AddressingMode::Indexed, 0xFE, seq![ArgShape::Number(ArgumentSize::Word16), ArgShape::Register("x"@)]),
        e("inx"@, AddressingMode::Implied, 0xE8, seq![]),
        e("iny"@, AddressingMode::Implied, 0xC8, seq![]),
        e("jmp"@, AddressingMode::SingleArgument, 0x4C, seq![ArgShape::Number(ArgumentSize::Word16)]),
        e("jml"@, AddressingMode::SingleArgument, 0x5C, seq![ArgShape::Number(ArgumentSize::Word24)]),
        e("jmp"@, AddressingMode::Indirect, 0x6C, seq![ArgShape::Number(ArgumentSize::Word16)]),
        e("jmp"@, AddressingMode::IndexedIndirect, 0x7C, seq![ArgShape::Number(ArgumentSize::Word16), ArgShape::Register("x"@)]),
        e("jmp"@, AddressingMode::IndirectLong, 0xDC, seq![ArgShape::Number(ArgumentSize::Word16)]),
        e("jsr"@, AddressingMode::SingleArgument, 0x20, seq![ArgShape::Number(ArgumentSize::Word16)]),
        e("jsl"@, AddressingMode::SingleArgument, 0x22, seq![ArgShape::Number(ArgumentSize::Word24)]),
        e("jsr"@, AddressingMode::IndexedIndirect, 0xFC, seq![ArgShape::Number(ArgumentSize::Word16), ArgShape::Register("x"@)]),
        e("lda"@, AddressingMode::IndexedIndirect, 0xA1, seq![ArgShape::Number(ArgumentSize::Word8), ArgShape::Register("x"@)]),
        e("lda"@, AddressingMode::Indexed, 0xA3, seq![ArgShape::Number(ArgumentSize::Word8), ArgShape::Register("s"@)]),
        e("lda"@, AddressingMode::SingleArgument, 0xA5, seq![ArgShape::Number(ArgumentSize::Word8)]),
        e("lda"@, AddressingMode::IndirectLong, 0xA7, seq![ArgShape::Number(ArgumentSize::Word8)]),
        e("lda"@, AddressingMode::Immediate, 0xA9, seq![ArgShape::Numbers(seq![ArgumentSize::Word8, ArgumentSize::Word16])]),
        e("lda"@, AddressingMode::SingleArgument, 0xAD, seq![ArgShape::Number(ArgumentSize::Word16)]),
        e("lda"@, AddressingMode::SingleArgument, 0xAF, seq![ArgShape::Number(ArgumentSize::Word24)]),
        e("lda"@, AddressingMode::IndirectIndexed, 0xB1, seq![ArgShape::Number(ArgumentSize::Word8), ArgShape::Register("y"@)]),
        e("lda"@, AddressingMode::Indirect, 0xB2, seq![ArgShape::Number(ArgumentSize::Word8)]),
        e("lda"@, AddressingMode::StackRelativeIndirectIndexed, 0xB3, seq![ArgShape::Number(ArgumentSize::Word8), ArgShape::Register("s"@), ArgShape::Register("y"@)]),
        e("lda"@, AddressingMode::Indexed, 0xB5, seq![ArgShape::Number(ArgumentSize::Word8), ArgShape::Register("x"@)]),
        e("lda"@, AddressingMode::IndirectIndexedLong, 0xB7, seq![ArgShape::Number(ArgumentSize::Word8), ArgShape::Register("y"@)]),
        e("lda"@, AddressingMode::Indexed, 0xB9, seq![ArgShape::Number(ArgumentSize::Word16), ArgShape::Register("y"@)]),
        e("lda"@, AddressingMode::Indexed, 0xBD, seq![ArgShape::Number(ArgumentSize::Word16), ArgShape::Register("x"@)]),
    ]
}

/// Entries `lda` to `ora` of the opcode table.
pub open spec fn snes_table_4() -> Seq<EntryModel> {
    seq![
        e("lda"@, AddressingMode::Indexed, 0xBF, seq![ArgShape::Number(ArgumentSize::Word24), ArgShape::Register("x"@)]),
        e("ldx"@, AddressingMode::Immediate, 0xA2, seq![ArgShape::Numbers(seq![ArgumentSize::Word8, ArgumentSize::Word16])]),
        e("ldx"@, AddressingMode::SingleArgument, 0xA6, seq![ArgShape::Number(ArgumentSize::Word8)]),
        e("ldx"@, AddressingMode::SingleArgument, 0xAE, seq![ArgShape::Number(ArgumentSize::Word16)]),
        e("ldx"@, AddressingMode::Indexed, 0xB6, seq![ArgShape::Number(ArgumentSize::Word8), ArgShape::Register("y"@)]),
        e("ldx"@, AddressingMode::Indexed, 0xBE, seq![ArgShape::Number(ArgumentSize::Word16), ArgShape::Register("y"@)]),
        e("ldy"@, AddressingMode::Immediate, 0xA0, seq![ArgShape::Numbers(seq![ArgumentSize::Word8, ArgumentSize::Word16])]),
        e("ldy"@, AddressingMode::SingleArgument, 0xA4, seq![ArgShape::Number(ArgumentSize::Word8)]),
        e("ldy"@, AddressingMode::SingleArgument, 0xAC, seq![ArgShape::Number(ArgumentSize::Word16)]),
        e("ldy"@, AddressingMode::Indexed, 0xB4, seq![ArgShape::Number(ArgumentSize::Word8), ArgShape::Register("x"@)]),
        e("ldy"@, AddressingMode::Indexed, 0xBC, seq![ArgShape::Number(ArgumentSize::Word16), ArgShape::Register("x"@)]),
        e("lsr"@, AddressingMode::SingleArgument, 0x46, seq![ArgShape::Number(ArgumentSize::Word8)]),
        e("lsr"@, AddressingMode::Implied, 0x4A, seq![]),
        e("lsr"@, AddressingMode::SingleArgument, 0x4E, seq![ArgShape::Number(ArgumentSize::Word16)]),
        e("lsr"@, AddressingMode::Indexed, 0x56, seq![ArgShape::Number(ArgumentSize::Word8), ArgShape::Register("x"@)]),
        e("lsr"@, AddressingMode::Indexed, 0x5E, seq![ArgShape::Number(ArgumentSize::Word16), ArgShape::Register("x"@)]),
        e("mvn"@, AddressingMode::BlockMove, 0x54, seq![ArgShape::Number(ArgumentSize::Word8), ArgShape::Number(ArgumentSize::Word8)]),
        e("mvp"@, AddressingMode::BlockMove, 0x44, seq![ArgShape::Number(ArgumentSize::Word8), ArgShape::Number(ArgumentSize::Word8)]),
        e("nop"@, AddressingMode::Implied, 0xEA, seq![]),
        e("ora"@, AddressingMode::IndexedIndirect, 0x01, seq![ArgShape::Number(ArgumentSize::Word8), ArgShape::Register("x"@)]),
        e("ora"@, AddressingMode::Indexed, 0x03, seq![ArgShape::Number(ArgumentSize::Word8), ArgShape::Register("s"@)]),
        e("ora"@, AddressingMode::SingleArgument, 0x05, seq![ArgShape::Number(ArgumentSize::Word8)]),
        e("ora"@, AddressingMode::IndirectLong, 0x07, seq![ArgShape::Number(ArgumentSize::Word8)]),
        e("ora"@, AddressingMode::Immediate, 0x09, seq![ArgShape::Numbers(seq![ArgumentSize::Word8, ArgumentSize::Word16])]),
        e("ora"@, AddressingMode::SingleArgument, 0x0D, seq![ArgShape::Number(ArgumentSize::Word16)]),
        e("ora"@, AddressingMode::SingleArgument, 0x0F, seq![ArgShape::Number(ArgumentSize::Word24)]),
        e("ora"@, AddressingMode::IndirectIndexed, 0x11, seq![ArgShape::Number(ArgumentSize::Word8), ArgShape::Register("y"@)]),
        e("ora"@, AddressingMode::Indirect, 0x12, seq![ArgShape::Number(ArgumentSize::Word8)]),
        e("ora"@, AddressingMode::StackRelativeIndirectIndexed, 0x13, seq![ArgShape::Number(ArgumentSize::Word8), ArgShape::Register("s"@), ArgShape::Register("y"@)]),
        e("ora"@, AddressingMode::Indexed, 0x15, seq![ArgShape::Number(ArgumentSize::Word8), ArgShape::Register("x"@)]),
        e("ora"@, AddressingMode::IndirectIndexedLong, 0x17, seq![ArgShape::Number(ArgumentSize::Word8), ArgShape::Register("y"@)]),
        e("ora"@, AddressingMode::Indexed, 0x19, seq![ArgShape::Number(ArgumentSize::Word16), ArgShape::Register("y"@)]),
    ]
}

/// Entries `ora` to `rts` of the opcode table.
pub open spec fn snes_table_5() -> Seq<EntryModel> {
    seq![
        e("ora"@, AddressingMode::Indexed, 0x1D, seq![ArgShape::Number(ArgumentSize::Word16), ArgShape::Register("x"@)]),
        e("ora"@, AddressingMode::Indexed, 0x1F, seq![ArgShape::Number(ArgumentSize::Word24), ArgShape::Register("x"@)]),
        e("pea"@, AddressingMode::SingleArgument, 0xF4, seq![ArgShape::Number(ArgumentSize::Word16)]),
        e("pei"@, AddressingMode::Indirect, 0xD4, seq![ArgShape::Number(ArgumentSize::Word8)]),
        e("per"@, AddressingMode::SingleArgument, 0x62, seq![ArgShape::Number(ArgumentSize::Word16)]),
        e("pha"@, AddressingMode::Implied, 0x48, seq![]),
        e("phb"@, AddressingMode::Implied, 0x8B, seq![]),
        e("phd"@, AddressingMode::Implied, 0x0B, seq![]),
        e("phk"@, AddressingMode::Implied, 0x4B, seq![]),
        e("php"@, AddressingMode::Implied, 0x08, seq![]),
        e("phx"@, AddressingMode::Implied, 0xDA, seq![]),
        e("pha"@, AddressingMode::Implied, 0x5A, seq![]),
        e("pla"@, AddressingMode::Implied, 0x68, seq![]),
        e("plb"@, AddressingMode::Implied, 0xAB, seq![]),
        e("pld"@, AddressingMode::Implied, 0x2B, seq![]),
        e("plp"@, AddressingMode::Implied, 0x28, seq![]),
        e("plx"@, AddressingMode::Implied, 0xFA, seq![]),
        e("ply"@, AddressingMode::Implied, 0x7A, seq![]),
        e("rep"@, AddressingMode::Immediate, 0xC2, seq![ArgShape::Number(ArgumentSize::Word8)]),
        e("rol"@, AddressingMode::SingleArgument, 0x26, seq![ArgShape::Number(ArgumentSize::Word8)]),
        e("rol"@, AddressingMode::Implied, 0x2A, seq![]),
        e("lsr"@, AddressingMode::SingleArgument, 0x2E, seq![ArgShape::Number(ArgumentSize::Word16)]),
        e("rol"@, AddressingMode::Indexed, 0x36, seq![ArgShape::Number(ArgumentSize::Word8), ArgShape::Register("x"@)]),
        e("rol"@, AddressingMode::Indexed, 0x3E, seq![ArgShape::Number(ArgumentSize::Word16), ArgShape::Register("x"@)]),
        e("ror"@, AddressingMode::SingleArgument, 0x66, seq![ArgShape::Number(ArgumentSize::Word8)]),
        e("ror"@, AddressingMode::Implied, 0x6A, seq![]),
        e("ror"@, AddressingMode::SingleArgument, 0x6E, seq![ArgShape::Number(ArgumentSize::Word16)]),
        e("ror"@, AddressingMode::Indexed, 0x76, seq![ArgShape::Number(ArgumentSize::Word8), ArgShape::Register("x"@)]),
        e("ror"@, AddressingMode::Indexed, 0x7E, seq![ArgShape::Number(ArgumentSize::Word16), ArgShape::Register("x"@)]),
        e("rti"@, AddressingMode::Implied, 0x40, seq![]),
        e("rtl"@, AddressingMode::Implied, 0x6B, seq![]),
        e("rts"@, AddressingMode::Implied, 0x60, seq![]),
    ]
}

/// Entries `sbc` to `sta` of the opcode table.
pub open spec fn snes_table_6() -> Seq<EntryModel> {
    seq![
        e("sbc"@, AddressingMode::IndexedIndirect, 0xE1, seq![ArgShape::Number(ArgumentSize::Word8), ArgShape::Register("x"@)]),
        e("sbc"@, AddressingMode::Indexed, 0xE3, seq![ArgShape::Number(ArgumentSize::Word8), ArgShape::Register("s"@)]),
        e("sbc"@, AddressingMode::SingleArgument, 0xE5, seq![ArgShape::Number(ArgumentSize::Word8)]),
        e("sbc"@, AddressingMode::IndirectLong, 0xE7, seq![ArgShape::Number(ArgumentSize::Word8)]),
        e("sbc"@, AddressingMode::Immediate, 0xE9, seq![ArgShape::Numbers(seq![ArgumentSize::Word8, ArgumentSize::Word16])]),
        e("sbc"@, AddressingMode::SingleArgument, 0xED, seq![ArgShape::Number(ArgumentSize::Word16)]),
        e("sbc"@, AddressingMode::SingleArgument, 0xEF, seq![ArgShape::Number(ArgumentSize::Word24)]),
        e("sbc"@, AddressingMode::IndirectIndexed, 0xF1, seq![ArgShape::Number(ArgumentSize::Word8), ArgShape::Register("y"@)]),
        e("sbc"@, AddressingMode::Indirect, 0xF2, seq![ArgShape::Number(ArgumentSize::Word8)]),
        e("sbc"@, AddressingMode::StackRelativeIndirectIndexed, 0xF3, seq![ArgShape::Number(ArgumentSize::Word8), ArgShape::Register("s"@), ArgShape::Register("y"@)]),
        e("sbc"@, AddressingMode::Indexed, 0xF5, seq![ArgShape::Number(ArgumentSize::Word8), ArgShape::Register("x"@)]),
        e("sbc"@, AddressingMode::IndirectIndexedLong, 0xF7, seq![ArgShape::Number(ArgumentSize::Word8), ArgShape::Register("y"@)]),
        e("sbc"@, AddressingMode::Indexed, 0xF9, seq![ArgShape::Number(ArgumentSize::Word16), ArgShape::Register("y"@)]),
        e("sbc"@, AddressingMode::Indexed, 0xFD, seq![ArgShape::Number(ArgumentSize::Word16), ArgShape::Register("x"@)]),
        e("sbc"@, AddressingMode::Indexed, 0xFF, seq![ArgShape::Number(ArgumentSize::Word24), ArgShape::Register("x"@)]),
        e("sec"@, AddressingMode::Implied, 0x38, seq![]),
        e("sed"@, AddressingMode::Implied, 0xF8, seq![]),
        e("sei"@, AddressingMode::Implied, 0x78, seq![]),
        e("sep"@, AddressingMode::Immediate, 0xE2, seq![ArgShape::Number(ArgumentSize::Word8)]),
        e("sta"@, AddressingMode::IndexedIndirect, 0x81, seq![ArgShape::Number(ArgumentSize::Word8), ArgShape::Register("x"@)]),
        e("sta"@, AddressingMode::Indexed, 0x83, seq![ArgShape::Number(ArgumentSize::Word8), ArgShape::Register("s"@)]),
        e("sta"@, AddressingMode::SingleArgument, 0x85, seq![ArgShape::Number(ArgumentSize::Word8)]),
        e("sta"@, AddressingMode::IndirectLong, 0x87, seq![ArgShape::Number(ArgumentSize::Word8)]),
        e("sta"@, AddressingMode::SingleArgument, 0x8D, seq![ArgShape::Number(ArgumentSize::Word16)]),
        e("sta"@, AddressingMode::SingleArgument, 0x8F, seq![ArgShape::Number(ArgumentSize::Word24)]),
        e("sta"@, AddressingMode::IndirectIndexed, 0x91, seq![ArgShape::Number(ArgumentSize::Word8), ArgShape::Register("y"@)]),
        e("sta"@, AddressingMode::Indirect, 0x92, seq![ArgShape::Number(ArgumentSize::Word8)]),
        e("sta"@, AddressingMode::StackRelativeIndirectIndexed, 0x93, seq![ArgShape::Number(ArgumentSize::Word8), ArgShape::Register("s"@), ArgShape::Register("y"@)]),
        e("sta"@, AddressingMode::Indexed, 0x95, seq![ArgShape::Number(ArgumentSize::Word8), ArgShape::Register("x"@)]),
        e("sta"@, AddressingMode::IndirectIndexedLong, 0x97, seq![ArgShape::Number(ArgumentSize::Word8), ArgShape::Register("y"@)]),
        e("sta"@, AddressingMode::Indexed, 0x99, seq![ArgShape::Number(ArgumentSize::Word16), ArgShape::Register("y"@)]),
        e("sta"@, AddressingMode::Indexed, 0x9D, seq![ArgShape::Number(ArgumentSize::Word16), ArgShape::Register("x"@)]),
    ]
}

/// Entries `sta` to `xce` of the opcode table.
pub open spec fn snes_table_7() -> Seq<EntryModel> {
    seq![
        e("sta"@, AddressingMode::Indexed, 0x9F, seq![ArgShape::Number(ArgumentSize::Word24), ArgShape::Register("x"@)]),
        e("stp"@, AddressingMode::Implied, 0xDB, seq![]),
        e("stx"@, AddressingMode::SingleArgument, 0x86, seq![ArgShape::Number(ArgumentSize::Word8)]),
        e("stx"@, AddressingMode::SingleArgument, 0x8E, seq![ArgShape::Number(ArgumentSize::Word16)]),
        e("stx"@, AddressingMode::Indexed, 0x96, seq![ArgShape::Number(ArgumentSize::Word8), ArgShape::Register("y"@)]),
        e("sty"@, AddressingMode::SingleArgument, 0x84, seq![ArgShape::Number(ArgumentSize::Word8)]),
        e("sty"@, AddressingMode::SingleArgument, 0x8C, seq![ArgShape::Number(ArgumentSize::Word16)]),
        e("sty"@, AddressingMode::Indexed, 0x94, seq![ArgShape::Number(ArgumentSize::Word8), ArgShape::Register("x"@)]),
        e("stz"@, AddressingMode::SingleArgument, 0x64, seq![ArgShape::Number(ArgumentSize::Word8)]),
        e("stz"@, AddressingMode::Indexed, 0x74, seq![ArgShape::Number(ArgumentSize::Word8), ArgShape::Register("x"@)]),
        e("stz"@, AddressingMode::SingleArgument, 0x9C, seq![ArgShape::Number(ArgumentSize::Word16)]),
        e("stz"@, AddressingMode::Indexed, 0x9E, seq![ArgShape::Number(ArgumentSize::Word16), ArgShape::Register("x"@)]),
        e("tax"@, AddressingMode::Implied, 0xAA, seq![]),
        e("tay"@, AddressingMode::Implied, 0xA8, seq![]),
        e("tcd"@, AddressingMode::Implied, 0x5B, seq![]),
        e("tcs"@, AddressingMode::Implied, 0x1B, seq![]),
        e("tdc"@, AddressingMode::Implied, 0x7B, seq![]),
        e("trb"@, AddressingMode::SingleArgument, 0x14, seq![ArgShape::Number(ArgumentSize::Word8)]),
        e("trb"@, AddressingMode::SingleArgument, 0x1C, seq![ArgShape::Number(ArgumentSize::Word16)]),
        e("tsb"@, AddressingMode::SingleArgument, 0x04, seq![ArgShape::Number(ArgumentSize::Word8)]),
        e("tsb"@, AddressingMode::SingleArgument, 0x0C, seq![ArgShape::Number(ArgumentSize::Word16)]),
        e("tsc"@, AddressingMode::Implied, 0x3B, seq![]),
        e("tsx"@, AddressingMode::Implied, 0xBA, seq![]),
        e("txa"@, AddressingMode::Implied, 0x8A, seq![]),
        e("txs"@, AddressingMode::Implied, 0x9A, seq![]),
        e("txa"@, AddressingMode::Implied, 0x9B, seq![]),
        e("tya"@, AddressingMode::Implied, 0x98, seq![]),
        e("tyx"@, AddressingMode::Implied, 0xBB, seq![]),
        e("wai"@, AddressingMode::Implied, 0xCB, seq![]),
        e("wdm"@, AddressingMode::Implied, 0x42, seq![]),
        e("xba"@, AddressingMode::Implied, 0xEB, seq![]),
        e("xce"@, AddressingMode::Implied, 0xFB, seq![]),
    ]
}

/// The SNES opcode table, in the order in which it is searched.
pub open spec fn snes_table() -> Seq<EntryModel> {
    snes_table_0() + snes_table_1() + snes_table_2() + snes_table_3() + snes_table_4() + snes_table_5()
        + snes_table_6() + snes_table_7()
}

fn number(size: ArgumentSize) -> (r: InstructionArgument)
    ensures
        shape_of(r) == ArgShape::Number(size),
{
    InstructionArgument::Number(size)
}

fn numbers(sizes: Vec<ArgumentSize>) -> (r: InstructionArgument)
    ensures
        shape_of(r) == ArgShape::Numbers(sizes@),
{
    InstructionArgument::Numbers(sizes)
}

fn register(name: &str) -> (r: InstructionArgument)
    ensures
        shape_of(r) == ArgShape::Register(name@),
{
    InstructionArgument::Register(name.to_owned())
}

fn args0() -> (r: Vec<InstructionArgument>)
    ensures
        r@.map_values(|x: InstructionArgument| shape_of(x)) == Seq::<ArgShape>::empty(),
{
    let r: Vec<InstructionArgument> = Vec::new();
    assert(r@.map_values(|x: InstructionArgument| shape_of(x)) =~= Seq::<ArgShape>::empty());
    r
}

fn args1(a: InstructionArgument) -> (r: Vec<InstructionArgument>)
    ensures
        r@.map_values(|x: InstructionArgument| shape_of(x)) == seq![shape_of(a)],
{
    let ghost ga = a;
    let mut r: Vec<InstructionArgument> = Vec::new();
    r.push(a);
    assert(r@.map_values(|x: InstructionArgument| shape_of(x)) =~= seq![shape_of(ga)]);
    r
}

fn args2(a: InstructionArgument, b: InstructionArgument) -> (r: Vec<InstructionArgument>)
    ensures
        r@.map_values(|x: InstructionArgument| shape_of(x)) == seq![shape_of(a), shape_of(b)],
{
    let ghost ga = a;
    let ghost gb = b;
    let mut r: Vec<InstructionArgument> = Vec::new();
    r.push(a);
    r.push(b);
    assert(r@.map_values(|x: InstructionArgument| shape_of(x)) =~= seq![shape_of(ga), shape_of(gb)]);
    r
}

fn args3(a: InstructionArgument, b: InstructionArgument, c: InstructionArgument) -> (r: Vec<InstructionArgument>)
    ensures
        r@.map_values(|x: InstructionArgument| shape_of(x)) == seq![shape_of(a), shape_of(b), shape_of(c)],
{
    let ghost ga = a;
    let ghost gb = b;
    let ghost gc = c;
    let mut r: Vec<InstructionArgument> = Vec::new();
    r.push(a);
    r.push(b);
    r.push(c);
    assert(r@.map_values(|x: InstructionArgument| shape_of(x)) =~= seq![shape_of(ga), shape_of(gb), shape_of(gc)]);
    r
}

fn entry(name: &str, addressing: AddressingMode, opcode: u8, arguments: Vec<InstructionArgument>) -> (r: InstructionInfo)
    ensures
        entry_model(r) == e(name@, addressing, opcode, arguments@.map_values(|x: InstructionArgument| shape_of(x))),
{
    InstructionInfo { name: name.to_owned(), addressing, opcode, arguments }
}

/// Appends entries `adc` to `asl` of the opcode table.
#[verifier::rlimit(80)]
fn push_adc_to_asl(t: &mut Vec<InstructionInfo>)
    ensures
        table_model(final(t)@) == table_model(old(t)@) + snes_table_0(),
{
    // adc (dp,x)
    t.push(entry("adc", AddressingMode::IndexedIndirect, 0x61, args2(number(ArgumentSize::Word8), register("x"))));
    // adc byte,s
    t.push(entry("adc", AddressingMode::Indexed, 0x63, args2(number(ArgumentSize::Word8), register("s"))));
    // adc dp
    t.push(entry("adc", AddressingMode::SingleArgument, 0x65, args1(number(ArgumentSize::Word8))));
    // adc [dp]
    t.push(entry("adc", AddressingMode::IndirectLong, 0x67, args1(number(ArgumentSize::Word8))));
    // adc #number
    t.push(entry("adc", AddressingMode::Immediate, 0x69, args1(numbers(vec![ArgumentSize::Word8, ArgumentSize::Word16]))));
    // adc absolute
    t.push(entry("adc", AddressingMode::SingleArgument, 0x6D, args1(number(ArgumentSize::Word16))));
    // adc long
    t.push(entry("adc", AddressingMode::SingleArgument, 0x6F, args1(number(ArgumentSize::Word24))));
    // adc (dp),y
    t.push(entry("adc", AddressingMode::IndirectIndexed, 0x71, args2(number(ArgumentSize::Word8), register("y"))));
    // adc (dp)
    t.push(entry("adc", AddressingMode::Indirect, 0x72, args1(number(ArgumentSize::Word8))));
    // adc (sr,s),y
    t.push(entry("adc", AddressingMode::StackRelativeIndirectIndexed, 0x73, args3(number(ArgumentSize::Word8), register("s"), register("y"))));
    // adc dp,x
    t.push(entry("adc", AddressingMode::Indexed, 0x75, args2(number(ArgumentSize::Word8), register("x"))));
    // adc [dp],y
    t.push(entry("adc", AddressingMode::IndirectIndexedLong, 0x77, args2(number(ArgumentSize::Word8), register("y"))));
    // adc absolute,y
    t.push(entry("adc", AddressingMode::Indexed, 0x79, args2(number(ArgumentSize::Word16), register("y"))));
    // adc absolute,x
    t.push(entry("adc", AddressingMode::Indexed, 0x7D, args2(number(ArgumentSize::Word16), register("x"))));
    // adc long,x
    t.push(entry("adc", AddressingMode::Indexed, 0x7F, args2(number(ArgumentSize::Word24), register("x"))));
    // and (dp,x)
    t.push(entry("and", AddressingMode::IndexedIndirect, 0x21, args2(number(ArgumentSize::Word8), register("x"))));
    // and sr,s
    t.push(entry("and", AddressingMode::Indexed, 0x23, args2(number(ArgumentSize::Word8), register("s"))));
    // and dp
    t.push(entry("and", AddressingMode::SingleArgument, 0x25, args1(number(ArgumentSize::Word8))));
    // and [dp]
    t.push(entry("and", AddressingMode::IndirectLong, 0x27, args1(number(ArgumentSize::Word8))));
    // and #immediate
    t.push(entry("and", AddressingMode::Immediate, 0x29, args1(numbers(vec![ArgumentSize::Word8, ArgumentSize::Word16]))));
    // and absolute
    t.push(entry("and", AddressingMode::SingleArgument, 0x2D, args1(number(ArgumentSize::Word16))));
    // and long
    t.push(entry("and", AddressingMode::SingleArgument, 0x2F, args1(number(ArgumentSize::Word24))));
    // and (dp),y
    t.push(entry("and", AddressingMode::IndirectIndexed, 0x31, args2(number(ArgumentSize::Word8), register("y"))));
    // and (dp)
    t.push(entry("and", AddressingMode::Indirect, 0x32, args1(number(ArgumentSize::Word8))));
    // and (sr,s),y
    t.push(entry("and", AddressingMode::StackRelativeIndirectIndexed, 0x33, args3(number(ArgumentSize::Word8), register("s"), register("y"))));
    // and dp,x
    t.push(entry("and", AddressingMode::Indexed, 0x35, args2(number(ArgumentSize::Word8), register("x"))));
    // and [dp],y
    t.push(entry("and", AddressingMode::IndirectIndexedLong, 0x37, args2(number(ArgumentSize::Word8), register("y"))));
    // and absolute,y
    t.push(entry("and", AddressingMode::Indexed, 0x39, args2(number(ArgumentSize::Word16), register("y"))));
    // and absolute,x
    t.push(entry("and", AddressingMode::Indexed, 0x3D, args2(number(ArgumentSize::Word16), register("x"))));
    // and long,x
    t.push(entry("and", AddressingMode::Indexed, 0x3F, args2(number(ArgumentSize::Word24), register("x"))));
    // asl dp
    t.push(entry("asl", AddressingMode::SingleArgument, 0x06, args1(number(ArgumentSize::Word8))));
    // asl
    t.push(entry("asl", AddressingMode::Implied, 0x0A, args0()));
    assert(table_model(t@) =~= table_model(old(t)@) + snes_table_0());
}

/// Appends entries `asl` to `cmp` of the opcode table.
#[verifier::rlimit(80)]
fn push_asl_to_cmp(t: &mut Vec<InstructionInfo>)
    ensures
        table_model(final(t)@) == table_model(old(t)@) + snes_table_1(),
{
    // asl absolute
    t.push(entry("asl", AddressingMode::SingleArgument, 0x0E, args1(number(ArgumentSize::Word16))));
    // asl dp,x
    t.push(entry("asl", AddressingMode::Indexed, 0x16, args2(number(ArgumentSize::Word8), register("x"))));
    // asl absolute,x
    t.push(entry("asl", AddressingMode::Indexed, 0x1E, args2(number(ArgumentSize::Word16), register("x"))));
    // bcc label
    t.push(entry("bcc", AddressingMode::Relative, 0x90, args1(number(ArgumentSize::Word8))));
    // bcs label
    t.push(entry("bcs", AddressingMode::Relative, 0xB0, args1(number(ArgumentSize::Word8))));
    // beq label
    t.push(entry("beq", AddressingMode::Relative, 0xF0, args1(number(ArgumentSize::Word8))));
    // bit dp
    t.push(entry("bit", AddressingMode::SingleArgument, 0x24, args1(number(ArgumentSize::Word8))));
    // bit absolute
    t.push(entry("bit", AddressingMode::SingleArgument, 0x2C, args1(number(ArgumentSize::Word16))));
    // bit dp,x
    t.push(entry("bit", AddressingMode::Indexed, 0x34, args2(number(ArgumentSize::Word8), register("x"))));
    // bit absolute,x
    t.push(entry("bit", AddressingMode::Indexed, 0x3C, args2(number(ArgumentSize::Word16), register("x"))));
    // bit #immediate
    t.push(entry("bit", AddressingMode::Immediate, 0x89, args1(numbers(vec![ArgumentSize::Word8, ArgumentSize::Word16]))));
    // bmi label
    t.push(entry("bmi", AddressingMode::Relative, 0x30, args1(number(ArgumentSize::Word8))));
    // bne label
    t.push(entry("bne", AddressingMode::Relative, 0xD0, args1(number(ArgumentSize::Word8))));
    // bpl label
    t.push(entry("bpl", AddressingMode::Relative, 0x10, args1(number(ArgumentSize::Word8))));
    // bra label
    t.push(entry("bra", AddressingMode::Relative, 0x80, args1(number(ArgumentSize::Word8))));
    // brk
    t.push(entry("brk", AddressingMode::Implied, 0x00, args0()));
    // brl label
    t.push(entry("brl", AddressingMode::Relative, 0x82, args1(number(ArgumentSize::Word16))));
    // bvc label
    t.push(entry("bvc", AddressingMode::Relative, 0x50, args1(number(ArgumentSize::Word8))));
    // bvs label
    t.push(entry("bvs", AddressingMode::Relative, 0x70, args1(number(ArgumentSize::Word8))));
    // clc
    t.push(entry("clc", AddressingMode::Implied, 0x18, args0()));
    // cld
    t.push(entry("cld", AddressingMode::Implied, 0xD8, args0()));
    // cli
    t.push(entry("cli", AddressingMode::Implied, 0x58, args0()));
    // clv
    t.push(entry("clv", AddressingMode::Implied, 0xB8, args0()));
    // cmp (dp,x)
    t.push(entry("cmp", AddressingMode::IndexedIndirect, 0xC1, args2(number(ArgumentSize::Word8), register("x"))));
    // cmp byte,s
    t.push(entry("cmp", AddressingMode::Indexed, 0xC3, args2(number(ArgumentSize::Word8), register("s"))));
    // cmp dp
    t.push(entry("cmp", AddressingMode::SingleArgument, 0xC5, args1(number(ArgumentSize::Word8))));
    // cmp [dp]
    t.push(entry("cmp", AddressingMode::IndirectLong, 0xC7, args1(number(ArgumentSize::Word8))));
    // cmp #number
    t.push(entry("cmp", AddressingMode::Immediate, 0xC9, args1(numbers(vec![ArgumentSize::Word8, ArgumentSize::Word16]))));
    // cmp absolute
    t.push(entry("cmp", AddressingMode::SingleArgument, 0xCD, args1(number(ArgumentSize::Word16))));
    // cmp long
    t.push(entry("cmp", AddressingMode::SingleArgument, 0xCF, args1(number(ArgumentSize::Word24))));
    // cmp (dp),y
    t.push(entry("cmp", AddressingMode::IndirectIndexed, 0xD1, args2(number(ArgumentSize::Word8), register("y"))));
    // cmp (dp)
    t.push(entry("cmp", AddressingMode::Indirect, 0xD2, args1(number(ArgumentSize::Word8))));
    assert(table_model(t@) =~= table_model(old(t)@) + snes_table_1());
}

/// Appends entries `cmp` to `eor` of the opcode table.
#[verifier::rlimit(80)]
fn push_cmp_to_eor(t: &mut Vec<InstructionInfo>)
    ensures
        table_model(final(t)@) == table_model(old(t)@) + snes_table_2(),
{
    // cmp (sr,s),y
    t.push(entry("cmp", AddressingMode::StackRelativeIndirectIndexed, 0xD3, args3(number(ArgumentSize::Word8), register("s"), register("y"))));
    // cmp dp,x
    t.push(entry("cmp", AddressingMode::Indexed, 0xD5, args2(number(ArgumentSize::Word8), register("x"))));
    // cmp [dp],y
    t.push(entry("cmp", AddressingMode::IndirectIndexedLong, 0xD7, args2(number(ArgumentSize::Word8), register("y"))));
    // cmp absolute,y
    t.push(entry("cmp", AddressingMode::Indexed, 0xD9, args2(number(ArgumentSize::Word16), register("y"))));
    // cmp absolute,x
    t.push(entry("cmp", AddressingMode::Indexed, 0xDD, args2(number(ArgumentSize::Word16), register("x"))));
    // cmp long,x
    t.push(entry("cmp", AddressingMode::Indexed, 0xDF, args2(number(ArgumentSize::Word24), register("x"))));
    // cop const
    t.push(entry("cop", AddressingMode::SingleArgument, 0x02, args1(number(ArgumentSize::Word8))));
    // cpx #immediate
    t.push(entry("cpx", AddressingMode::Immediate, 0xE0, args1(numbers(vec![ArgumentSize::Word8, ArgumentSize::Word16]))));
    // cpx dp
    t.push(entry("cpx", AddressingMode::SingleArgument, 0xE4, args1(number(ArgumentSize::Word8))));
    // cpx absolute
    t.push(entry("cpx", AddressingMode::SingleArgument, 0xEC, args1(number(ArgumentSize::Word16))));
    // cpy #immediate
    t.push(entry("cpy", AddressingMode::Immediate, 0xC0, args1(numbers(vec![ArgumentSize::Word8, ArgumentSize::Word16]))));
    // cpy dp
    t.push(entry("cpy", AddressingMode::SingleArgument, 0xC4, args1(number(ArgumentSize::Word8))));
    // cpx absolute
    t.push(entry("cpy", AddressingMode::SingleArgument, 0xCC, args1(number(ArgumentSize::Word16))));
    // dec
    t.push(entry("dec", AddressingMode::Implied, 0x3A, args0()));
    // dec dp
    t.push(entry("dec", AddressingMode::SingleArgument, 0xC6, args1(number(ArgumentSize::Word8))));
    // dec absolute
    t.push(entry("dec", AddressingMode::SingleArgument, 0xCE, args1(number(ArgumentSize::Word16))));
    // dec dp,x
    t.push(entry("dec", AddressingMode::Indexed, 0xD6, args2(number(ArgumentSize::Word8), register("x"))));
    // dec absolute,x
    t.push(entry("dec", AddressingMode::Indexed, 0xDE, args2(number(ArgumentSize::Word16), register("x"))));
    // dex
    t.push(entry("dex", AddressingMode::Implied, 0xCA, args0()));
    // dey
    t.push(entry("dey", AddressingMode::Implied, 0x88, args0()));
    // eor (dp,x)
    t.push(entry("eor", AddressingMode::IndexedIndirect, 0x41, args2(number(ArgumentSize::Word8), register("x"))));
    // eor sr,s
    t.push(entry("eor", AddressingMode::Indexed, 0x43, args2(number(ArgumentSize::Word8), register("s"))));
    // eor dp
    t.push(entry("eor", AddressingMode::SingleArgument, 0x45, args1(number(ArgumentSize::Word8))));
    // eor [dp]
    t.push(entry("eor", AddressingMode::IndirectLong, 0x47, args1(number(ArgumentSize::Word8))));
    // eor #immediate
    t.push(entry("eor", AddressingMode::Immediate, 0x49, args1(numbers(vec![ArgumentSize::Word8, ArgumentSize::Word16]))));
    // eor absolute
    t.push(entry("eor", AddressingMode::SingleArgument, 0x4D, args1(number(ArgumentSize::Word16))));
    // eor long
    t.push(entry("eor", AddressingMode::SingleArgument, 0x4F, args1(number(ArgumentSize::Word24))));
    // eor (dp),y
    t.push(entry("eor", AddressingMode::IndirectIndexed, 0x51, args2(number(ArgumentSize::Word8), register("y"))));
    // eor (dp)
    t.push(entry("eor", AddressingMode::Indirect, 0x52, args1(number(ArgumentSize::Word8))));
    // eor (sr,s),y
    t.push(entry("eor", AddressingMode::StackRelativeIndirectIndexed, 0x53, args3(number(ArgumentSize::Word8), register("s"), register("y"))));
    // eor dp,x
    t.push(entry("eor", AddressingMode::Indexed, 0x55, args2(number(ArgumentSize::Word8), register("x"))));
    // eor [dp],y
    t.push(entry("eor", AddressingMode::IndirectIndexedLong, 0x57, args2(number(ArgumentSize::Word8), register("y"))));
    assert(table_model(t@) =~= table_model(old(t)@) + snes_table_2());
}

/// Appends entries `eor` to `lda` of the opcode table.
#[verifier::rlimit(80)]
fn push_eor_to_lda(t: &mut Vec<InstructionInfo>)
    ensures
        table_model(final(t)@) == table_model(old(t)@) + snes_table_3(),
{
    // eor absolute,y
    t.push(entry("eor", AddressingMode::Indexed, 0x59, args2(number(ArgumentSize::Word16), register("y"))));
    // eor absolute,x
    t.push(entry("eor", AddressingMode::Indexed, 0x5D, args2(number(ArgumentSize::Word16), register("x"))));
    // eor long,x
    t.push(entry("eor", AddressingMode::Indexed, 0x5F, args2(number(ArgumentSize::Word24), register("x"))));
    // inc
    t.push(entry("inc", AddressingMode::Implied, 0x1A, args0()));
    // inc dp
    t.push(entry("inc", AddressingMode::SingleArgument, 0xE6, args1(number(ArgumentSize::Word8))));
    // inc absolute
    t.push(entry("inc", AddressingMode::SingleArgument, 0xEE, args1(number(ArgumentSize::Word16))));
    // inc dp,x
    t.push(entry("inc", AddressingMode::Indexed, 0xF6, args2(number(ArgumentSize::Word8), register("x"))));
    // inc absolute,x
    t.push(entry("inc", AddressingMode::Indexed, 0xFE, args2(number(ArgumentSize::Word16), register("x"))));
    // inx
    t.push(entry("inx", AddressingMode::Implied, 0xE8, args0()));
    // iny
    t.push(entry("iny", AddressingMode::Implied, 0xC8, args0()));
    // jmp absolute
    t.push(entry("jmp", AddressingMode::SingleArgument, 0x4C, args1(number(ArgumentSize::Word16))));
    // jml long
    t.push(entry("jml", AddressingMode::SingleArgument, 0x5C, args1(number(ArgumentSize::Word24))));
    // jmp (absolute)
    t.push(entry("jmp", AddressingMode::Indirect, 0x6C, args1(number(ArgumentSize::Word16))));
    // jmp (absolute,x)
    t.push(entry("jmp", AddressingMode::IndexedIndirect, 0x7C, args2(number(ArgumentSize::Word16), register("x"))));
    // jmp [absolute]
    t.push(entry("jmp", AddressingMode::IndirectLong, 0xDC, args1(number(ArgumentSize::Word16))));
    // jsr absolute
    t.push(entry("jsr", AddressingMode::SingleArgument, 0x20, args1(number(ArgumentSize::Word16))));
    // jsl long
    t.push(entry("jsl", AddressingMode::SingleArgument, 0x22, args1(number(ArgumentSize::Word24))));
    // jsr (absolute,x)
    t.push(entry("jsr", AddressingMode::IndexedIndirect, 0xFC, args2(number(ArgumentSize::Word16), register("x"))));
    // lda (dp,x)
    t.push(entry("lda", AddressingMode::IndexedIndirect, 0xA1, args2(number(ArgumentSize::Word8), register("x"))));
    // lda sr,s
    t.push(entry("lda", AddressingMode::Indexed, 0xA3, args2(number(ArgumentSize::Word8), register("s"))));
    // lda dp
    t.push(entry("lda", AddressingMode::SingleArgument, 0xA5, args1(number(ArgumentSize::Word8))));
    // lda [dp]
    t.push(entry("lda", AddressingMode::IndirectLong, 0xA7, args1(number(ArgumentSize::Word8))));
    // lda #immediate
    t.push(entry("lda", AddressingMode::Immediate, 0xA9, args1(numbers(vec![ArgumentSize::Word8, ArgumentSize::Word16]))));
    // lda absolute
    t.push(entry("lda", AddressingMode::SingleArgument, 0xAD, args1(number(ArgumentSize::Word16))));
    // lda long
    t.push(entry("lda", AddressingMode::SingleArgument, 0xAF, args1(number(ArgumentSize::Word24))));
    // lda (dp),y
    t.push(entry("lda", AddressingMode::IndirectIndexed, 0xB1, args2(number(ArgumentSize::Word8), register("y"))));
    // lda (dp)
    t.push(entry("lda", AddressingMode::Indirect, 0xB2, args1(number(ArgumentSize::Word8))));
    // lda (byte,s),y
    t.push(entry("lda", AddressingMode::StackRelativeIndirectIndexed, 0xB3, args3(number(ArgumentSize::Word8), register("s"), register("y"))));
    // lda dp,x
    t.push(entry("lda", AddressingMode::Indexed, 0xB5, args2(number(ArgumentSize::Word8), register("x"))));
    // lda [dp],y
    t.push(entry("lda", AddressingMode::IndirectIndexedLong, 0xB7, args2(number(ArgumentSize::Word8), register("y"))));
    // lda absolute,y
    t.push(entry("lda", AddressingMode::Indexed, 0xB9, args2(number(ArgumentSize::Word16), register("y"))));
    // lda absolute,x
    t.push(entry("lda", AddressingMode::Indexed, 0xBD, args2(number(ArgumentSize::Word16), register("x"))));
    assert(table_model(t@) =~= table_model(old(t)@) + snes_table_3());
}

/// Appends entries `lda` to `ora` of the opcode table.
#[verifier::rlimit(80)]
fn push_lda_to_ora(t: &mut Vec<InstructionInfo>)
    ensures
        table_model(final(t)@) == table_model(old(t)@) + snes_table_4(),
{
    // lda long,x
    t.push(entry("lda", AddressingMode::Indexed, 0xBF, args2(number(ArgumentSize::Word24), register("x"))));
    // ldx #immediate
    t.push(entry("ldx", AddressingMode::Immediate, 0xA2, args1(numbers(vec![ArgumentSize::Word8, ArgumentSize::Word16]))));
    // ldx dp
    t.push(entry("ldx", AddressingMode::SingleArgument, 0xA6, args1(number(ArgumentSize::Word8))));
    // ldx absolute
    t.push(entry("ldx", AddressingMode::SingleArgument, 0xAE, args1(number(ArgumentSize::Word16))));
    // ldx dp,y
    t.push(entry("ldx", AddressingMode::Indexed, 0xB6, args2(number(ArgumentSize::Word8), register("y"))));
    // ldx absolute,y
    t.push(entry("ldx", AddressingMode::Indexed, 0xBE, args2(number(ArgumentSize::Word16), register("y"))));
    // ldy #immediate
    t.push(entry("ldy", AddressingMode::Immediate, 0xA0, args1(numbers(vec![ArgumentSize::Word8, ArgumentSize::Word16]))));
    // ldy dp
    t.push(entry("ldy", AddressingMode::SingleArgument, 0xA4, args1(number(ArgumentSize::Word8))));
    // ldy absolute
    t.push(entry("ldy", AddressingMode::SingleArgument, 0xAC, args1(number(ArgumentSize::Word16))));
    // ldy dp,x
    t.push(entry("ldy", AddressingMode::Indexed, 0xB4, args2(number(ArgumentSize::Word8), register("x"))));
    // ldy absolute,x
    t.push(entry("ldy", AddressingMode::Indexed, 0xBC, args2(number(ArgumentSize::Word16), register("x"))));
    // lsr dp
    t.push(entry("lsr", AddressingMode::SingleArgument, 0x46, args1(number(ArgumentSize::Word8))));
    // lsr
    t.push(entry("lsr", AddressingMode::Implied, 0x4A, args0()));
    // lsr absolute
    t.push(entry("lsr", AddressingMode::SingleArgument, 0x4E, args1(number(ArgumentSize::Word16))));
    // lsr dp,x
    t.push(entry("lsr", AddressingMode::Indexed, 0x56, args2(number(ArgumentSize::Word8), register("x"))));
    // lsr absolute,x
    t.push(entry("lsr", AddressingMode::Indexed, 0x5E, args2(number(ArgumentSize::Word16), register("x"))));
    // mvn byte,byte
    t.push(entry("mvn", AddressingMode::BlockMove, 0x54, args2(number(ArgumentSize::Word8), number(ArgumentSize::Word8))));
    // mvp byte,byte
    t.push(entry("mvp", AddressingMode::BlockMove, 0x44, args2(number(ArgumentSize::Word8), number(ArgumentSize::Word8))));
    // nop
    t.push(entry("nop", AddressingMode::Implied, 0xEA, args0()));
    // ora (dp,x)
    t.push(entry("ora", AddressingMode::IndexedIndirect, 0x01, args2(number(ArgumentSize::Word8), register("x"))));
    // ora sr,s
    t.push(entry("ora", AddressingMode::Indexed, 0x03, args2(number(ArgumentSize::Word8), register("s"))));
    // ora dp
    t.push(entry("ora", AddressingMode::SingleArgument, 0x05, args1(number(ArgumentSize::Word8))));
    // ora [dp]
    t.push(entry("ora", AddressingMode::IndirectLong, 0x07, args1(number(ArgumentSize::Word8))));
    // ora #immediate
    t.push(entry("ora", AddressingMode::Immediate, 0x09, args1(numbers(vec![ArgumentSize::Word8, ArgumentSize::Word16]))));
    // ora absolute
    t.push(entry("ora", AddressingMode::SingleArgument, 0x0D, args1(number(ArgumentSize::Word16))));
    // ora long
    t.push(entry("ora", AddressingMode::SingleArgument, 0x0F, args1(number(ArgumentSize::Word24))));
    // ora (dp),y
    t.push(entry("ora", AddressingMode::IndirectIndexed, 0x11, args2(number(ArgumentSize::Word8), register("y"))));
    // ora (dp)
    t.push(entry("ora", AddressingMode::Indirect, 0x12, args1(number(ArgumentSize::Word8))));
    // ora (sr,s),y
    t.push(entry("ora", AddressingMode::StackRelativeIndirectIndexed, 0x13, args3(number(ArgumentSize::Word8), register("s"), register("y"))));
    // ora dp,x
    t.push(entry("ora", AddressingMode::Indexed, 0x15, args2(number(ArgumentSize::Word8), register("x"))));
    // ora [dp],y
    t.push(entry("ora", AddressingMode::IndirectIndexedLong, 0x17, args2(number(ArgumentSize::Word8), register("y"))));
    // ora absolute,y
    t.push(entry("ora", AddressingMode::Indexed, 0x19, args2(number(ArgumentSize::Word16), register("y"))));
    assert(table_model(t@) =~= table_model(old(t)@) + snes_table_4());
}

/// Appends entries `ora` to `rts` of the opcode table.
#[verifier::rlimit(80)]
fn push_ora_to_rts(t: &mut Vec<InstructionInfo>)
    ensures
        table_model(final(t)@) == table_model(old(t)@) + snes_table_5(),
{
    // ora absolute,x
    t.push(entry("ora", AddressingMode::Indexed, 0x1D, args2(number(ArgumentSize::Word16), register("x"))));
    // ora long,x
    t.push(entry("ora", AddressingMode::Indexed, 0x1F, args2(number(ArgumentSize::Word24), register("x"))));
    // pea absolute
    t.push(entry("pea", AddressingMode::SingleArgument, 0xF4, args1(number(ArgumentSize::Word16))));
    // pei (dp)
    t.push(entry("pei", AddressingMode::Indirect, 0xD4, args1(number(ArgumentSize::Word8))));
    // per absolute
    t.push(entry("per", AddressingMode::SingleArgument, 0x62, args1(number(ArgumentSize::Word16))));
    // pha
    t.push(entry("pha", AddressingMode::Implied, 0x48, args0()));
    // phb
    t.push(entry("phb", AddressingMode::Implied, 0x8B, args0()));
    // phd
    t.push(entry("phd", AddressingMode::Implied, 0x0B, args0()));
    // phk
    t.push(entry("phk", AddressingMode::Implied, 0x4B, args0()));
    // php
    t.push(entry("php", AddressingMode::Implied, 0x08, args0()));
    // phx
    t.push(entry("phx", AddressingMode::Implied, 0xDA, args0()));
    // phy
    t.push(entry("pha", AddressingMode::Implied, 0x5A, args0()));
    // pla
    t.push(entry("pla", AddressingMode::Implied, 0x68, args0()));
    // plb
    t.push(entry("plb", AddressingMode::Implied, 0xAB, args0()));
    // pld
    t.push(entry("pld", AddressingMode::Implied, 0x2B, args0()));
    // plp
    t.push(entry("plp", AddressingMode::Implied, 0x28, args0()));
    // plx
    t.push(entry("plx", AddressingMode::Implied, 0xFA, args0()));
    // ply
    t.push(entry("ply", AddressingMode::Implied, 0x7A, args0()));
    // rep #immediate
    t.push(entry("rep", AddressingMode::Immediate, 0xC2, args1(number(ArgumentSize::Word8))));
    // rol dp
    t.push(entry("rol", AddressingMode::SingleArgument, 0x26, args1(number(ArgumentSize::Word8))));
    // rol
    t.push(entry("rol", AddressingMode::Implied, 0x2A, args0()));
    // rol absolute
    t.push(entry("lsr", AddressingMode::SingleArgument, 0x2E, args1(number(ArgumentSize::Word16))));
    // rol dp,x
    t.push(entry("rol", AddressingMode::Indexed, 0x36, args2(number(ArgumentSize::Word8), register("x"))));
    // rol absolute,x
    t.push(entry("rol", AddressingMode::Indexed, 0x3E, args2(number(ArgumentSize::Word16), register("x"))));
    // ror dp
    t.push(entry("ror", AddressingMode::SingleArgument, 0x66, args1(number(ArgumentSize::Word8))));
    // ror
    t.push(entry("ror", AddressingMode::Implied, 0x6A, args0()));
    // ror absolute
    t.push(entry("ror", AddressingMode::SingleArgument, 0x6E, args1(number(ArgumentSize::Word16))));
    // ror dp,x
    t.push(entry("ror", AddressingMode::Indexed, 0x76, args2(number(ArgumentSize::Word8), register("x"))));
    // ror absolute,x
    t.push(entry("ror", AddressingMode::Indexed, 0x7E, args2(number(ArgumentSize::Word16), register("x"))));
    // rti
    t.push(entry("rti", AddressingMode::Implied, 0x40, args0()));
    // rtl
    t.push(entry("rtl", AddressingMode::Implied, 0x6B, args0()));
    // rts
    t.push(entry("rts", AddressingMode::Implied, 0x60, args0()));
    assert(table_model(t@) =~= table_model(old(t)@) + snes_table_5());
}

/// Appends entries `sbc` to `sta` of the opcode table.
#[verifier::rlimit(80)]
fn push_sbc_to_sta(t: &mut Vec<InstructionInfo>)
    ensures
        table_model(final(t)@) == table_model(old(t)@) + snes_table_6(),
{
    // sbc (dp,x)
    t.push(entry("sbc", AddressingMode::IndexedIndirect, 0xE1, args2(number(ArgumentSize::Word8), register("x"))));
    // sbc byte,s
    t.push(entry("sbc", AddressingMode::Indexed, 0xE3, args2(number(ArgumentSize::Word8), register("s"))));
    // sbc dp
    t.push(entry("sbc", AddressingMode::SingleArgument, 0xE5, args1(number(ArgumentSize::Word8))));
    // sbc [dp]
    t.push(entry("sbc", AddressingMode::IndirectLong, 0xE7, args1(number(ArgumentSize::Word8))));
    // sbc #number
    t.push(entry("sbc", AddressingMode::Immediate, 0xE9, args1(numbers(vec![ArgumentSize::Word8, ArgumentSize::Word16]))));
    // sbc absolute
    t.push(entry("sbc", AddressingMode::SingleArgument, 0xED, args1(number(ArgumentSize::Word16))));
    // sbc long
    t.push(entry("sbc", AddressingMode::SingleArgument, 0xEF, args1(number(ArgumentSize::Word24))));
    // sbc (dp),y
    t.push(entry("sbc", AddressingMode::IndirectIndexed, 0xF1, args2(number(ArgumentSize::Word8), register("y"))));
    // sbc (dp)
    t.push(entry("sbc", AddressingMode::Indirect, 0xF2, args1(number(ArgumentSize::Word8))));
    // sbc (sr,s),y
    t.push(entry("sbc", AddressingMode::StackRelativeIndirectIndexed, 0xF3, args3(number(ArgumentSize::Word8), register("s"), register("y"))));
    // sbc dp,x
    t.push(entry("sbc", AddressingMode::Indexed, 0xF5, args2(number(ArgumentSize::Word8), register("x"))));
    // sbc [dp],y
    t.push(entry("sbc", AddressingMode::IndirectIndexedLong, 0xF7, args2(number(ArgumentSize::Word8), register("y"))));
    // sbc absolute,y
    t.push(entry("sbc", AddressingMode::Indexed, 0xF9, args2(number(ArgumentSize::Word16), register("y"))));
    // sbc absolute,x
    t.push(entry("sbc", AddressingMode::Indexed, 0xFD, args2(number(ArgumentSize::Word16), register("x"))));
    // sbc long,x
    t.push(entry("sbc", AddressingMode::Indexed, 0xFF, args2(number(ArgumentSize::Word24), register("x"))));
    // sec
    t.push(entry("sec", AddressingMode::Implied, 0x38, args0()));
    // sed
    t.push(entry("sed", AddressingMode::Implied, 0xF8, args0()));
    // sei
    t.push(entry("sei", AddressingMode::Implied, 0x78, args0()));
    // sep #immediate
    t.push(entry("sep", AddressingMode::Immediate, 0xE2, args1(number(ArgumentSize::Word8))));
    // sta (dp,x)
    t.push(entry("sta", AddressingMode::IndexedIndirect, 0x81, args2(number(ArgumentSize::Word8), register("x"))));
    // sta sr,s
    t.push(entry("sta", AddressingMode::Indexed, 0x83, args2(number(ArgumentSize::Word8), register("s"))));
    // sta dp
    t.push(entry("sta", AddressingMode::SingleArgument, 0x85, args1(number(ArgumentSize::Word8))));
    // sta [dp]
    t.push(entry("sta", AddressingMode::IndirectLong, 0x87, args1(number(ArgumentSize::Word8))));
    // sta absolute
    t.push(entry("sta", AddressingMode::SingleArgument, 0x8D, args1(number(ArgumentSize::Word16))));
    // sta long
    t.push(entry("sta", AddressingMode::SingleArgument, 0x8F, args1(number(ArgumentSize::Word24))));
    // sta (dp),y
    t.push(entry("sta", AddressingMode::IndirectIndexed, 0x91, args2(number(ArgumentSize::Word8), register("y"))));
    // sta (dp)
    t.push(entry("sta", AddressingMode::Indirect, 0x92, args1(number(ArgumentSize::Word8))));
    // sta (byte,s),y
    t.push(entry("sta", AddressingMode::StackRelativeIndirectIndexed, 0x93, args3(number(ArgumentSize::Word8), register("s"), register("y"))));
    // sta dp,x
    t.push(entry("sta", AddressingMode::Indexed, 0x95, args2(number(ArgumentSize::Word8), register("x"))));
    // sta [dp],y
    t.push(entry("sta", AddressingMode::IndirectIndexedLong, 0x97, args2(number(ArgumentSize::Word8), register("y"))));
    // sta absolute,y
    t.push(entry("sta", AddressingMode::Indexed, 0x99, args2(number(ArgumentSize::Word16), register("y"))));
    // sta absolute,x
    t.push(entry("sta", AddressingMode::Indexed, 0x9D, args2(number(ArgumentSize::Word16), register("x"))));
    assert(table_model(t@) =~= table_model(old(t)@) + snes_table_6());
}

/// Appends entries `sta` to `xce` of the opcode table.
#[verifier::rlimit(80)]
fn push_sta_to_xce(t: &mut Vec<InstructionInfo>)
    ensures
        table_model(final(t)@) == table_model(old(t)@) + snes_table_7(),
{
    // sta long,x
    t.push(entry("sta", AddressingMode::Indexed, 0x9F, args2(number(ArgumentSize::Word24), register("x"))));
    // stp
    t.push(entry("stp", AddressingMode::Implied, 0xDB, args0()));
    // stx dp
    t.push(entry("stx", AddressingMode::SingleArgument, 0x86, args1(number(ArgumentSize::Word8))));
    // stx absolute
    t.push(entry("stx", AddressingMode::SingleArgument, 0x8E, args1(number(ArgumentSize::Word16))));
    // stx dp,y
    t.push(entry("stx", AddressingMode::Indexed, 0x96, args2(number(ArgumentSize::Word8), register("y"))));
    // sty dp
    t.push(entry("sty", AddressingMode::SingleArgument, 0x84, args1(number(ArgumentSize::Word8))));
    // sty absolute
    t.push(entry("sty", AddressingMode::SingleArgument, 0x8C, args1(number(ArgumentSize::Word16))));
    // sty dp,x
    t.push(entry("sty", AddressingMode::Indexed, 0x94, args2(number(ArgumentSize::Word8), register("x"))));
    // stz dp
    t.push(entry("stz", AddressingMode::SingleArgument, 0x64, args1(number(ArgumentSize::Word8))));
    // sty dp,x
    t.push(entry("stz", AddressingMode::Indexed, 0x74, args2(number(ArgumentSize::Word8), register("x"))));
    // stz absolute
    t.push(entry("stz", AddressingMode::SingleArgument, 0x9C, args1(number(ArgumentSize::Word16))));
    // stz absolute,x
    t.push(entry("stz", AddressingMode::Indexed, 0x9E, args2(number(ArgumentSize::Word16), register("x"))));
    // tax
    t.push(entry("tax", AddressingMode::Implied, 0xAA, args0()));
    // tay
    t.push(entry("tay", AddressingMode::Implied, 0xA8, args0()));
    // tcd
    t.push(entry("tcd", AddressingMode::Implied, 0x5B, args0()));
    // tcs
    t.push(entry("tcs", AddressingMode::Implied, 0x1B, args0()));
    // tdc
    t.push(entry("tdc", AddressingMode::Implied, 0x7B, args0()));
    // trb dp
    t.push(entry("trb", AddressingMode::SingleArgument, 0x14, args1(number(ArgumentSize::Word8))));
    // trb absolute
    t.push(entry("trb", AddressingMode::SingleArgument, 0x1C, args1(number(ArgumentSize::Word16))));
    // tsb dp
    t.push(entry("tsb", AddressingMode::SingleArgument, 0x04, args1(number(ArgumentSize::Word8))));
    // tsb absolute
    t.push(entry("tsb", AddressingMode::SingleArgument, 0x0C, args1(number(ArgumentSize::Word16))));
    // tsc
    t.push(entry("tsc", AddressingMode::Implied, 0x3B, args0()));
    // tsx
    t.push(entry("tsx", AddressingMode::Implied, 0xBA, args0()));
    // txa
    t.push(entry("txa", AddressingMode::Implied, 0x8A, args0()));
    // txs
    t.push(entry("txs", AddressingMode::Implied, 0x9A, args0()));
    // txy
    t.push(entry("txa", AddressingMode::Implied, 0x9B, args0()));
    // tya
    t.push(entry("tya", AddressingMode::Implied, 0x98, args0()));
    // tyx
    t.push(entry("tyx", AddressingMode::Implied, 0xBB, args0()));
    // wai
    t.push(entry("wai", AddressingMode::Implied, 0xCB, args0()));
    // wdm
    t.push(entry("wdm", AddressingMode::Implied, 0x42, args0()));
    // xba
    t.push(entry("xba", AddressingMode::Implied, 0xEB, args0()));
    // xce
    t.push(entry("xce", AddressingMode::Implied, 0xFB, args0()));
    assert(table_model(t@) =~= table_model(old(t)@) + snes_table_7());
}

/// The opcode table, in the order in which it is searched.
fn snes_instructions() -> (r: Vec<InstructionInfo>)
    ensures
        table_model(r@) == snes_table(),
{
    let mut t: Vec<InstructionInfo> = Vec::new();
    assert(table_model(t@) =~= Seq::<EntryModel>::empty());
    push_adc_to_asl(&mut t);
    push_asl_to_cmp(&mut t);
    push_cmp_to_eor(&mut t);
    push_eor_to_lda(&mut t);
    push_lda_to_ora(&mut t);
    push_ora_to_rts(&mut t);
    push_sbc_to_sta(&mut t);
    push_sta_to_xce(&mut t);
    assert(table_model(t@) =~= snes_table());
    t
}

/// The SNES target: little-endian, 16-bit labels, registers `x`, `y` and `s`.
pub fn snes_cpu() -> (r: SystemDefinition)
    ensures
        r.short_name@ == "snes-cpu"@,
        !r.is_big_endian,
        r.label_size == ArgumentSize::Word16,
        r.registers@.len() == 3,
        r.registers@[0]@ == "x"@,
        r.registers@[1]@ == "y"@,
        r.registers@[2]@ == "s"@,
        forall|s: ArgumentSize| #[trigger] r.size_to_addressing_mode[byte_index(s)] == snes_mode_name(s),
        table_model(r.instructions@) == snes_table(),
{
    let mut registers: Vec<String> = Vec::new();
    registers.push("x".to_owned());
    registers.push("y".to_owned());
    registers.push("s".to_owned());
    SystemDefinition {
        short_name: "snes-cpu".to_owned(),
        name: "Super Nintendo/Super Famicom Ricoh 5A22 (65816 derivate)".to_owned(),
        is_big_endian: false,
        label_size: ArgumentSize::Word16,
        registers,
        size_to_addressing_mode: [
            snes_argument_size_to_addressing_mode(ArgumentSize::Word8),
            snes_argument_size_to_addressing_mode(ArgumentSize::Word16),
            snes_argument_size_to_addressing_mode(ArgumentSize::Word24),
            snes_argument_size_to_addressing_mode(ArgumentSize::Word32),
        ],
        instructions: snes_instructions(),
    }
}

/// The targets that this assembler knows, in the order in which they are
/// searched.
pub fn supported_systems() -> (r: Vec<SystemDefinition>)
    ensures
        r@.len() == 1,
        r@[0].short_name@ == "snes-cpu"@,
        !r@[0].is_big_endian,
        r@[0].label_size == ArgumentSize::Word16,
        table_model(r@[0].instructions@) == snes_table(),
{
    let mut systems: Vec<SystemDefinition> = Vec::new();
    systems.push(snes_cpu());
    systems
}

/// The first supported target whose short name is `cpu_name`; the SNES CPU
/// where none is. The SNES CPU is the one target, so it is found either way.
pub fn find_system(cpu_name: &String) -> (r: SystemDefinition)
    ensures
        r.short_name@ == "snes-cpu"@,
        !r.is_big_endian,
        r.label_size == ArgumentSize::Word16,
        table_model(r.instructions@) == snes_table(),
{
    let mut systems = supported_systems();
    let ghost all = systems@;
    let mut i: usize = 0;
    while i < systems.len()
        invariant
            i <= systems@.len(),
            systems@ == all,
            all.len() == 1,
            all[0].short_name@ == "snes-cpu"@,
            !all[0].is_big_endian,
            all[0].label_size == ArgumentSize::Word16,
            table_model(all[0].instructions@) == snes_table(),
        decreases systems@.len() - i,
    {
        if systems[i].short_name == *cpu_name {
            return systems.swap_remove(i);
        }
        i = i + 1;
    }
    snes_cpu()
}

} // verus!
