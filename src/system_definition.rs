//! The static description of a target CPU: operand sizes, addressing modes
//! and the opcode table.
use vstd::prelude::*;

verus! {

/// The width of a numeric operand.
#[derive(PartialEq, Eq, Structural, Clone, Copy, Debug)]
pub enum ArgumentSize {
    Word8,
    Word16,
    Word24,
    Word32,
}

/// Number of bytes that an operand of `size` takes.
pub open spec fn byte_size(size: ArgumentSize) -> nat {
    match size {
        ArgumentSize::Word8 => 1,
        ArgumentSize::Word16 => 2,
        ArgumentSize::Word24 => 3,
        ArgumentSize::Word32 => 4,
    }
}

/// 2 to the power of the bit width of `s`.
pub open spec fn size_modulus(s: ArgumentSize) -> int {
    match s {
        ArgumentSize::Word8 => 0x100,
        ArgumentSize::Word16 => 0x1_0000,
        ArgumentSize::Word24 => 0x100_0000,
        ArgumentSize::Word32 => 0x1_0000_0000,
    }
}

/// Where the name of the addressing mode of `size` stands in
/// `SystemDefinition::size_to_addressing_mode`.
pub open spec fn byte_index(size: ArgumentSize) -> int {
    byte_size(size) - 1
}

/// The smallest size that holds `number`.
pub open spec fn size_of_number(number: u32) -> ArgumentSize {
    if number > 0xFF_FFFF {
        ArgumentSize::Word32
    } else if number > 0xFFFF {
        ArgumentSize::Word24
    } else if number > 0xFF {
        ArgumentSize::Word16
    } else {
        ArgumentSize::Word8
    }
}

pub fn argument_size_to_bit_size(size: ArgumentSize) -> (r: i32)
    ensures
        r == 8 * byte_size(size),
{
    match size {
        ArgumentSize::Word8 => 8,
        ArgumentSize::Word16 => 16,
        ArgumentSize::Word24 => 24,
        ArgumentSize::Word32 => 32,
    }
}

pub fn argument_size_to_byte_size(size: ArgumentSize) -> (r: u32)
    ensures
        r == byte_size(size),
{
    match size {
        ArgumentSize::Word8 => 1,
        ArgumentSize::Word16 => 2,
        ArgumentSize::Word24 => 3,
        ArgumentSize::Word32 => 4,
    }
}

/// The bit width of `size`, written in decimal.
pub open spec fn bit_size_text(size: ArgumentSize) -> Seq<char> {
    match size {
        ArgumentSize::Word8 => "8"@,
        ArgumentSize::Word16 => "16"@,
        ArgumentSize::Word24 => "24"@,
        ArgumentSize::Word32 => "32"@,
    }
}

pub fn argument_size_to_bit_text(size: ArgumentSize) -> (r: &'static str)
    ensures
        r@ == bit_size_text(size),
{
    match size {
        ArgumentSize::Word8 => "8",
        ArgumentSize::Word16 => "16",
        ArgumentSize::Word24 => "24",
        ArgumentSize::Word32 => "32",
    }
}

pub fn number_to_argument_size(number: u32) -> (r: ArgumentSize)
    ensures
        r == size_of_number(number),
{
    if number > 16777215 {
        ArgumentSize::Word32
    } else if number > 0xFFFF {
        ArgumentSize::Word24
    } else if number > 0xFF {
        ArgumentSize::Word16
    } else {
        ArgumentSize::Word8
    }
}


/// An operand shape in the opcode table, or in a query against it.
/// `NotStaticRegister` only occurs in queries.
#[derive(Debug)]
pub enum InstructionArgument {
    Number(ArgumentSize),
    Numbers(Vec<ArgumentSize>),
    Register(String),
    NotStaticRegister(String),
}

/// The addressing mode of an opcode table entry.
#[derive(PartialEq, Eq, Structural, Clone, Copy, Debug)]
pub enum AddressingMode {
    Implied,
    Immediate,
    Relative,
    SingleArgument,
    Indexed,
    Indirect,
    IndirectLong,
    IndexedIndirect,
    IndirectIndexed,
    IndirectIndexedLong,
    BlockMove,
    StackRelativeIndirectIndexed,
}

/// One entry of the opcode table.
#[derive(Debug)]
pub struct InstructionInfo {
    pub name: String,
    pub addressing: AddressingMode,
    pub opcode: u8,
    pub arguments: Vec<InstructionArgument>,
}

/// A target CPU: byte order, the size of a label operand, register names,
/// the name of the addressing mode that each operand size selects, and the
/// opcode table in the order in which it is searched.
#[derive(Debug)]
pub struct SystemDefinition {
    pub short_name: String,
    pub name: String,
    pub is_big_endian: bool,
    pub label_size: ArgumentSize,
    pub registers: Vec<String>,
    pub size_to_addressing_mode: [&'static str; 4],
    pub instructions: Vec<InstructionInfo>,
}

/// A table operand as plain values.
pub enum ArgShape {
    Number(ArgumentSize),
    Numbers(Seq<ArgumentSize>),
    Register(Seq<char>),
    NotStaticRegister(Seq<char>),
}

/// An opcode table entry as plain values.
pub struct EntryModel {
    pub name: Seq<char>,
    pub addressing: AddressingMode,
    pub opcode: u8,
    pub arguments: Seq<ArgShape>,
}

pub open spec fn shape_of(a: InstructionArgument) -> ArgShape {
    match a {
        InstructionArgument::Number(s) => ArgShape::Number(s),
        InstructionArgument::Numbers(v) => ArgShape::Numbers(v@),
        InstructionArgument::Register(r) => ArgShape::Register(r@),
        InstructionArgument::NotStaticRegister(r) => ArgShape::NotStaticRegister(r@),
    }
}

/// Entry `i` as plain values.
pub open spec fn entry_model(i: InstructionInfo) -> EntryModel {
    EntryModel {
        name: i.name@,
        addressing: i.addressing,
        opcode: i.opcode,
        arguments: i.arguments@.map_values(|a: InstructionArgument| shape_of(a)),
    }
}

/// A table as plain values.
pub open spec fn table_model(t: Seq<InstructionInfo>) -> Seq<EntryModel> {
    t.map_values(|i: InstructionInfo| entry_model(i))
}

/// Whether the table operand `entry` accepts the query operand `query`.
pub open spec fn argument_matches(entry: InstructionArgument, query: InstructionArgument) -> bool {
    match entry {
        InstructionArgument::Number(s) => query == InstructionArgument::Number(s),
        InstructionArgument::Numbers(sizes) => match query {
            InstructionArgument::Number(q) => sizes@.contains(q),
            _ => false,
        },
        InstructionArgument::Register(r) => match query {
            InstructionArgument::NotStaticRegister(q) => r@ == q@,
            _ => false,
        },
        InstructionArgument::NotStaticRegister(_) => false,
    }
}

/// Whether the table entry `info` answers a query for mnemonic `name`, one of
/// the addressing modes `modes`, and the operand shapes `query`.
pub open spec fn entry_matches(
    info: InstructionInfo,
    name: Seq<char>,
    modes: Seq<AddressingMode>,
    query: Seq<InstructionArgument>,
) -> bool {
    &&& info.name@ == name
    &&& modes.contains(info.addressing)
    &&& info.arguments@.len() == query.len()
    &&& forall|k: int| 0 <= k < query.len() ==> argument_matches(#[trigger] info.arguments@[k], query[k])
}

/// Entry `i` of `table` answers the query and no earlier entry does.
pub open spec fn is_first_match(
    table: Seq<InstructionInfo>,
    name: Seq<char>,
    modes: Seq<AddressingMode>,
    query: Seq<InstructionArgument>,
    i: int,
) -> bool {
    &&& 0 <= i < table.len()
    &&& entry_matches(table[i], name, modes, query)
    &&& forall|j: int| 0 <= j < i ==> !entry_matches(#[trigger] table[j], name, modes, query)
}

/// No entry of `table` answers the query.
pub open spec fn has_no_match(
    table: Seq<InstructionInfo>,
    name: Seq<char>,
    modes: Seq<AddressingMode>,
    query: Seq<InstructionArgument>,
) -> bool {
    forall|j: int| 0 <= j < table.len() ==> !entry_matches(#[trigger] table[j], name, modes, query)
}

/// The first operand size named by `args[k..]`: a `Number`, or the first
/// size of a non-empty `Numbers`.
pub open spec fn first_size(args: Seq<InstructionArgument>, k: int) -> Option<ArgumentSize>
    decreases args.len() - k,
{
    if k < 0 || k >= args.len() {
        None
    } else {
        match args[k] {
            InstructionArgument::Number(s) => Some(s),
            InstructionArgument::Numbers(v) => if v@.len() > 0 {
                Some(v@[0])
            } else {
                first_size(args, k + 1)
            },
            _ => first_size(args, k + 1),
        }
    }
}

/// The operand size of the first entry of `table[i..]` with mnemonic `name`
/// and a mode in `modes` that names one.
pub open spec fn operand_size_from(
    table: Seq<InstructionInfo>,
    name: Seq<char>,
    modes: Seq<AddressingMode>,
    i: int,
) -> Option<ArgumentSize>
    decreases table.len() - i,
{
    if i < 0 || i >= table.len() {
        None
    } else if table[i].name@ == name && modes.contains(table[i].addressing) && first_size(
        table[i].arguments@,
        0,
    ) is Some {
        first_size(table[i].arguments@, 0)
    } else {
        operand_size_from(table, name, modes, i + 1)
    }
}

pub(crate) fn contains_mode(modes: &[AddressingMode], mode: AddressingMode) -> (r: bool)
    ensures
        r == modes@.contains(mode),
{
    let mut j: usize = 0;
    while j < modes.len()
        invariant
            j <= modes@.len(),
            forall|k: int| 0 <= k < j ==> modes@[k] != mode,
        decreases modes@.len() - j,
    {
        if modes[j] == mode {
            return true;
        }
        j = j + 1;
    }
    false
}

fn first_argument_size(args: &Vec<InstructionArgument>) -> (r: Option<ArgumentSize>)
    ensures
        r == first_size(args@, 0),
{
    let mut k: usize = 0;
    while k < args.len()
        invariant
            k <= args@.len(),
            first_size(args@, 0) == first_size(args@, k as int),
        decreases args@.len() - k,
    {
        match &args[k] {
            InstructionArgument::Number(s) => {
                return Some(*s);
            },
            InstructionArgument::Numbers(v) => {
                if v.len() > 0 {
                    return Some(v[0]);
                }
            },
            _ => {},
        }
        k = k + 1;
    }
    None
}

/// The operand size that the first entry for `opcode_name` in one of
/// `possible_addressings` names, if any.
pub fn find_instruction_argument_size(
    system: &SystemDefinition,
    opcode_name: &String,
    possible_addressings: &[AddressingMode],
) -> (r: Option<ArgumentSize>)
    ensures
        r == operand_size_from(system.instructions@, opcode_name@, possible_addressings@, 0),
{
    let mut i: usize = 0;
    while i < system.instructions.len()
        invariant
            i <= system.instructions@.len(),
            operand_size_from(system.instructions@, opcode_name@, possible_addressings@, 0)
                == operand_size_from(system.instructions@, opcode_name@, possible_addressings@, i as int),
        decreases system.instructions@.len() - i,
    {
        let instruction = &system.instructions[i];
        if instruction.name == *opcode_name && contains_mode(possible_addressings, instruction.addressing) {
            let size = first_argument_size(&instruction.arguments);
            if size.is_some() {
                return size;
            }
        }
        i = i + 1;
    }
    None
}

} // verus!
