//! The emitter: what to write where, for a tree whose instructions are all
//! bound to opcodes. Memory maps turn CPU addresses into file offsets, and
//! operands are written in the system's byte order.
use vstd::prelude::*;
use byteorder::{BigEndian, ByteOrder, LittleEndian};
use crate::lexer::NumberLiteral;
use crate::parser::{FinalInstruction, ParseArgument, ParseExpression, ParseNode, SnesMap};
use crate::system_definition::{argument_size_to_byte_size, byte_size, size_modulus, ArgumentSize, SystemDefinition};

verus! {

/// 256 to the power of `k`.
pub open spec fn byte_limit(k: nat) -> nat
    decreases k,
{
    if k == 0 {
        1
    } else {
        256 * byte_limit((k - 1) as nat)
    }
}

/// The low `k` bytes of `v`, least significant first.
pub open spec fn le_bytes(v: nat, k: nat) -> Seq<u8>
    decreases k,
{
    if k == 0 {
        seq![]
    } else {
        seq![(v % 256) as u8] + le_bytes(v / 256, (k - 1) as nat)
    }
}

/// The low `k` bytes of `v`, most significant first.
pub open spec fn be_bytes(v: nat, k: nat) -> Seq<u8>
    decreases k,
{
    if k == 0 {
        seq![]
    } else {
        be_bytes(v / 256, (k - 1) as nat) + seq![(v % 256) as u8]
    }
}

/// Relies on byteorder's `LittleEndian::write_uint`, which stores the low
/// `nbytes` bytes of `n` least significant first, and panics unless
/// `n` fits in `nbytes` bytes and `nbytes <= 8`.
#[verifier::external_body]
fn little_endian_bytes(n: u64, nbytes: usize) -> (r: Vec<u8>)
    requires
        1 <= nbytes <= 8,
        n < byte_limit(nbytes as nat),
    ensures
        r@ == le_bytes(n as nat, nbytes as nat),
{
    let mut buf = vec![0u8; nbytes];
    LittleEndian::write_uint(&mut buf, n, nbytes);
    buf
}

/// Relies on byteorder's `BigEndian::write_uint`, which stores the low
/// `nbytes` bytes of `n` most significant first, and panics unless
/// `n` fits in `nbytes` bytes and `nbytes <= 8`.
#[verifier::external_body]
fn big_endian_bytes(n: u64, nbytes: usize) -> (r: Vec<u8>)
    requires
        1 <= nbytes <= 8,
        n < byte_limit(nbytes as nat),
    ensures
        r@ == be_bytes(n as nat, nbytes as nat),
{
    let mut buf = vec![0u8; nbytes];
    BigEndian::write_uint(&mut buf, n, nbytes);
    buf
}

/// The bytes of literal `n` at its own size, in the given byte order; a
/// value too wide for the size keeps its low bytes.
pub open spec fn literal_bytes(is_big_endian: bool, n: NumberLiteral) -> Seq<u8> {
    let v = (n.number as int % size_modulus(n.argument_size)) as nat;
    if is_big_endian {
        be_bytes(v, byte_size(n.argument_size))
    } else {
        le_bytes(v, byte_size(n.argument_size))
    }
}

/// The bytes of an operand: a literal's bytes; nothing for a register or a
/// label.
pub open spec fn operand_bytes(is_big_endian: bool, a: ParseArgument) -> Seq<u8> {
    match a {
        ParseArgument::NumberLiteral(n) => literal_bytes(is_big_endian, n),
        _ => seq![],
    }
}

/// The bytes of a bound instruction: its opcode, then its operands.
pub open spec fn instruction_bytes<'a>(is_big_endian: bool, f: FinalInstruction<'a>) -> Seq<u8> {
    match f {
        FinalInstruction::ImpliedInstruction(info) => seq![info.opcode],
        FinalInstruction::SingleArgumentInstruction(info, a) => seq![info.opcode] + operand_bytes(is_big_endian, a),
        FinalInstruction::TwoArgumentInstruction(info, a, b) => seq![info.opcode] + operand_bytes(is_big_endian, a)
            + operand_bytes(is_big_endian, b),
    }
}

proof fn lemma_byte_limit(s: ArgumentSize)
    ensures
        byte_limit(byte_size(s)) == size_modulus(s),
{
    reveal_with_fuel(byte_limit, 5);
}

pub fn write_number_literal(system: &SystemDefinition, number: &NumberLiteral) -> (r: Vec<u8>)
    ensures
        r@ == literal_bytes(system.is_big_endian, *number),
{
    let nbytes = argument_size_to_byte_size(number.argument_size) as usize;
    let value: u64 = match number.argument_size {
        ArgumentSize::Word8 => (number.number % 0x100) as u64,
        ArgumentSize::Word16 => (number.number % 0x1_0000) as u64,
        ArgumentSize::Word24 => (number.number % 0x100_0000) as u64,
        ArgumentSize::Word32 => number.number as u64,
    };
    proof {
        lemma_byte_limit(number.argument_size);
        vstd::arithmetic::div_mod::lemma_small_mod(number.number as nat, 0x1_0000_0000);
    }
    if system.is_big_endian {
        big_endian_bytes(value, nbytes)
    } else {
        little_endian_bytes(value, nbytes)
    }
}

fn write_operand(system: &SystemDefinition, argument: &ParseArgument, out: &mut Vec<u8>)
    ensures
        final(out)@ == old(out)@ + operand_bytes(system.is_big_endian, *argument),
{
    match argument {
        ParseArgument::NumberLiteral(number) => {
            let mut bytes = write_number_literal(system, number);
            out.append(&mut bytes);
        },
        _ => {
            assert(out@ =~= old(out)@ + operand_bytes(system.is_big_endian, *argument));
        },
    }
}

/// The bytes of a bound instruction.
pub fn handle_final_instruction(system: &SystemDefinition, final_instruction: &FinalInstruction) -> (r: Vec<u8>)
    ensures
        r@ == instruction_bytes(system.is_big_endian, *final_instruction),
{
    let mut out: Vec<u8> = Vec::new();
    match final_instruction {
        FinalInstruction::ImpliedInstruction(instruction) => {
            out.push(instruction.opcode);
            assert(out@ =~= instruction_bytes(system.is_big_endian, *final_instruction));
        },
        FinalInstruction::SingleArgumentInstruction(instruction, argument) => {
            out.push(instruction.opcode);
            write_operand(system, argument, &mut out);
            assert(out@ =~= instruction_bytes(system.is_big_endian, *final_instruction));
        },
        FinalInstruction::TwoArgumentInstruction(instruction, argument1, argument2) => {
            out.push(instruction.opcode);
            write_operand(system, argument1, &mut out);
            write_operand(system, argument2, &mut out);
            assert(out@ =~= instruction_bytes(system.is_big_endian, *final_instruction));
        },
    }
    out
}

/// LoROM: a 24-bit CPU address packed into a linear ROM offset.
pub open spec fn lorom_offset(value: u32) -> u32 {
    ((value & 0x7F_0000) >> 1u32) | (value & 0x7FFF)
}

/// HiROM: the low 22 bits of a CPU address.
pub open spec fn hirom_offset(value: u32) -> u32 {
    value & 0x3F_FFFF
}

/// The file offset of CPU address `value` under memory map `map`; without
/// a map, the address itself.
pub open spec fn mapped_offset(map: Option<SnesMap>, value: u32) -> u32 {
    match map {
        None => value,
        Some(SnesMap::LoRom) => lorom_offset(value),
        Some(SnesMap::HiRom) => hirom_offset(value),
    }
}

pub fn map_default(value: u32) -> (r: u32)
    ensures
        r == value,
{
    value
}

pub fn map_snes_lorom(value: u32) -> (r: u32)
    ensures
        r == lorom_offset(value),
{
    ((value & 0x7F_0000) >> 1u32) | (value & 0x7FFF)
}

pub fn map_snes_hirom(value: u32) -> (r: u32)
    ensures
        r == hirom_offset(value),
{
    value & 0x3F_FFFF
}

/// One step of writing the output: move to a file offset, write bytes, or
/// copy the contents of a file.
#[derive(Debug)]
pub enum OutputCommand {
    Seek(u64),
    Write(Vec<u8>),
    Incbin(String),
}

/// An `OutputCommand` as plain values.
pub enum CommandModel {
    Seek(u64),
    Write(Seq<u8>),
    Incbin(Seq<char>),
}

impl View for OutputCommand {
    type V = CommandModel;

    open spec fn view(&self) -> CommandModel {
        match self {
            OutputCommand::Seek(offset) => CommandModel::Seek(*offset),
            OutputCommand::Write(bytes) => CommandModel::Write(bytes@),
            OutputCommand::Incbin(path) => CommandModel::Incbin(path@),
        }
    }
}

/// The memory map in force after `nodes`, from `map`.
pub open spec fn map_after<'a>(map: Option<SnesMap>, nodes: Seq<ParseNode<'a>>) -> Option<SnesMap>
    decreases nodes.len(),
{
    if nodes.len() == 0 {
        map
    } else {
        match nodes.last().expression {
            ParseExpression::SnesMapStatement(m) => Some(m),
            _ => map_after(map, nodes.drop_last()),
        }
    }
}

/// What node `e` asks to write, under memory map `map`: an `origin` a seek
/// to its mapped offset, an `incbin` its file, a bound instruction its
/// bytes; anything else nothing.
pub open spec fn node_commands<'a>(system: SystemDefinition, map: Option<SnesMap>, e: ParseExpression<'a>) -> Seq<CommandModel> {
    match e {
        ParseExpression::FinalInstruction(f) => seq![CommandModel::Write(instruction_bytes(system.is_big_endian, f))],
        ParseExpression::IncBinStatement(path, _) => seq![CommandModel::Incbin(path@)],
        ParseExpression::OriginStatement(n) => seq![CommandModel::Seek(mapped_offset(map, n.number) as u64)],
        _ => seq![],
    }
}

/// What `nodes` ask to write, in order, from memory map `map`.
pub open spec fn commands_after<'a>(system: SystemDefinition, map: Option<SnesMap>, nodes: Seq<ParseNode<'a>>) -> Seq<CommandModel>
    decreases nodes.len(),
{
    if nodes.len() == 0 {
        seq![]
    } else {
        let init = nodes.drop_last();
        commands_after(system, map, init) + node_commands(system, map_after(map, init), nodes.last().expression)
    }
}

/// Turns a bound parse tree into output commands, keeping track of the
/// memory map in force.
pub struct OutputWriter<'a> {
    pub system: &'a SystemDefinition,
    pub map: Option<SnesMap>,
}

impl<'a> OutputWriter<'a> {
    pub fn new(system: &'a SystemDefinition) -> (r: Self)
        ensures
            r.system == system,
            r.map is None,
    {
        OutputWriter { system, map: None }
    }

    fn map_function(&self, value: u32) -> (r: u32)
        ensures
            r == mapped_offset(self.map, value),
    {
        match self.map {
            None => map_default(value),
            Some(SnesMap::LoRom) => map_snes_lorom(value),
            Some(SnesMap::HiRom) => map_snes_hirom(value),
        }
    }

    /// The commands that write `parse_tree`, as `commands_after` says.
    pub fn write(&mut self, parse_tree: &Vec<ParseNode<'a>>) -> (r: Vec<OutputCommand>)
        ensures
            r@.map_values(|c: OutputCommand| c@) == commands_after(*old(self).system, old(self).map, parse_tree@),
            final(self).map == map_after(old(self).map, parse_tree@),
            final(self).system == old(self).system,
    {
        let ghost start = self.map;
        let mut commands: Vec<OutputCommand> = Vec::new();
        let mut i: usize = 0;
        assert(parse_tree@.take(0) =~= seq![]);
        assert(commands@.map_values(|c: OutputCommand| c@) =~= seq![]);
        while i < parse_tree.len()
            invariant
                i <= parse_tree@.len(),
                self.system == old(self).system,
                self.map == map_after(start, parse_tree@.take(i as int)),
                commands@.map_values(|c: OutputCommand| c@) == commands_after(*self.system, start, parse_tree@.take(i as int)),
            decreases parse_tree@.len() - i,
        {
            let node = &parse_tree[i];
            let ghost before = commands@;
            proof {
                assert(parse_tree@.take(i + 1).drop_last() =~= parse_tree@.take(i as int));
                assert(parse_tree@.take(i + 1).last() == parse_tree@[i as int]);
            }
            match &node.expression {
                ParseExpression::FinalInstruction(final_instruction) => {
                    commands.push(OutputCommand::Write(handle_final_instruction(self.system, final_instruction)));
                },
                ParseExpression::IncBinStatement(filename, _) => {
                    commands.push(OutputCommand::Incbin(filename.clone()));
                },
                ParseExpression::OriginStatement(number) => {
                    let physical_address = self.map_function(number.number);
                    commands.push(OutputCommand::Seek(physical_address as u64));
                },
                ParseExpression::SnesMapStatement(map_mode) => {
                    self.map = Some(*map_mode);
                },
                _ => {},
            }
            assert(commands@.map_values(|c: OutputCommand| c@) =~= before.map_values(|c: OutputCommand| c@)
                + node_commands(*self.system, map_after(start, parse_tree@.take(i as int)), node.expression));
            i = i + 1;
        }
        assert(parse_tree@.take(parse_tree@.len() as int) =~= parse_tree@);
        commands
    }
}

/// Byte order of operands: a 16-, 24- or 32-bit literal `v` is written as
/// `v & 0xFF`, `(v >> 8) & 0xFF`, and so on up to its size, on a
/// little-endian system, and in the reverse order on a big-endian one.
pub proof fn lemma_operand_byte_order(v: u32)
    ensures
        literal_bytes(false, NumberLiteral { number: v, argument_size: ArgumentSize::Word16 }) == seq![
            (v & 0xFF) as u8,
            ((v >> 8u32) & 0xFF) as u8,
        ],
        literal_bytes(false, NumberLiteral { number: v, argument_size: ArgumentSize::Word24 }) == seq![
            (v & 0xFF) as u8,
            ((v >> 8u32) & 0xFF) as u8,
            ((v >> 16u32) & 0xFF) as u8,
        ],
        literal_bytes(false, NumberLiteral { number: v, argument_size: ArgumentSize::Word32 }) == seq![
            (v & 0xFF) as u8,
            ((v >> 8u32) & 0xFF) as u8,
            ((v >> 16u32) & 0xFF) as u8,
            ((v >> 24u32) & 0xFF) as u8,
        ],
        literal_bytes(true, NumberLiteral { number: v, argument_size: ArgumentSize::Word16 }) == seq![
            ((v >> 8u32) & 0xFF) as u8,
            (v & 0xFF) as u8,
        ],
        literal_bytes(true, NumberLiteral { number: v, argument_size: ArgumentSize::Word24 }) == seq![
            ((v >> 16u32) & 0xFF) as u8,
            ((v >> 8u32) & 0xFF) as u8,
            (v & 0xFF) as u8,
        ],
        literal_bytes(true, NumberLiteral { number: v, argument_size: ArgumentSize::Word32 }) == seq![
            ((v >> 24u32) & 0xFF) as u8,
            ((v >> 16u32) & 0xFF) as u8,
            ((v >> 8u32) & 0xFF) as u8,
            (v & 0xFF) as u8,
        ],
{
    assert((v % 0x1_0000) % 256 == v & 0xFF) by (bit_vector);
    assert(((v % 0x1_0000) / 256) % 256 == (v >> 8u32) & 0xFF) by (bit_vector);
    assert((v % 0x100_0000) % 256 == v & 0xFF) by (bit_vector);
    assert(((v % 0x100_0000) / 256) % 256 == (v >> 8u32) & 0xFF) by (bit_vector);
    assert(((v % 0x100_0000) / 256 / 256) % 256 == (v >> 16u32) & 0xFF) by (bit_vector);
    assert(v % 256 == v & 0xFF) by (bit_vector);
    assert((v / 256) % 256 == (v >> 8u32) & 0xFF) by (bit_vector);
    assert((v / 256 / 256) % 256 == (v >> 16u32) & 0xFF) by (bit_vector);
    assert((v / 256 / 256 / 256) % 256 == (v >> 24u32) & 0xFF) by (bit_vector);
    vstd::arithmetic::div_mod::lemma_small_mod(v as nat, 0x1_0000_0000);
    reveal_with_fuel(le_bytes, 5);
    reveal_with_fuel(be_bytes, 5);
    assert(literal_bytes(false, NumberLiteral { number: v, argument_size: ArgumentSize::Word16 }) =~= seq![
        (v & 0xFF) as u8,
        ((v >> 8u32) & 0xFF) as u8,
    ]);
    assert(literal_bytes(false, NumberLiteral { number: v, argument_size: ArgumentSize::Word24 }) =~= seq![
        (v & 0xFF) as u8,
        ((v >> 8u32) & 0xFF) as u8,
        ((v >> 16u32) & 0xFF) as u8,
    ]);
    assert(literal_bytes(false, NumberLiteral { number: v, argument_size: ArgumentSize::Word32 }) =~= seq![
        (v & 0xFF) as u8,
        ((v >> 8u32) & 0xFF) as u8,
        ((v >> 16u32) & 0xFF) as u8,
        ((v >> 24u32) & 0xFF) as u8,
    ]);
    assert(literal_bytes(true, NumberLiteral { number: v, argument_size: ArgumentSize::Word16 }) =~= seq![
        ((v >> 8u32) & 0xFF) as u8,
        (v & 0xFF) as u8,
    ]);
    assert(literal_bytes(true, NumberLiteral { number: v, argument_size: ArgumentSize::Word24 }) =~= seq![
        ((v >> 16u32) & 0xFF) as u8,
        ((v >> 8u32) & 0xFF) as u8,
        (v & 0xFF) as u8,
    ]);
    assert(literal_bytes(true, NumberLiteral { number: v, argument_size: ArgumentSize::Word32 }) =~= seq![
        ((v >> 24u32) & 0xFF) as u8,
        ((v >> 16u32) & 0xFF) as u8,
        ((v >> 8u32) & 0xFF) as u8,
        (v & 0xFF) as u8,
    ]);
}

} // verus!
