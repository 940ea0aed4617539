//! The second pass: replaces each label operand by a number, the label's
//! address or, for a branch, its distance from the next instruction.
use vstd::prelude::*;
use crate::collect_label_pass::{address_advance, address_after, arguments_width, is_label, without_labels};
use crate::lexer::{NumberLiteral, Token};
use crate::parser::{
    at_token, error_at, extends_with, lemma_extends_with_nothing, lemma_extends_with_trans, instruction_arguments, instruction_mnemonic, text3, with_arguments,
    ErrorMessage, ParseArgument, ParseExpression, ParseNode,
};
use crate::pass::TreePass;
use crate::symbol_table::SymbolTable;
use crate::system_definition::{
    argument_size_to_byte_size, byte_size, find_instruction_argument_size, operand_size_from, size_modulus,
    AddressingMode, ArgumentSize, SystemDefinition,
};

verus! {

/// The addressing modes that the syntactic form of `e` may stand for.
pub open spec fn addressing_family<'a>(e: ParseExpression<'a>) -> Seq<AddressingMode> {
    match e {
        ParseExpression::ImpliedInstruction(_) => seq![AddressingMode::Implied],
        ParseExpression::ImmediateInstruction(_, _) => seq![AddressingMode::Immediate],
        ParseExpression::SingleArgumentInstruction(_, _) => seq![
            AddressingMode::SingleArgument,
            AddressingMode::Relative,
        ],
        ParseExpression::IndexedInstruction(_, _, _) => seq![AddressingMode::Indexed],
        ParseExpression::IndirectInstruction(_, _) => seq![AddressingMode::Indirect],
        ParseExpression::IndirectLongInstruction(_, _) => seq![AddressingMode::IndirectLong],
        ParseExpression::IndexedIndirectInstruction(_, _, _) => seq![AddressingMode::IndexedIndirect],
        ParseExpression::IndirectIndexedInstruction(_, _, _) => seq![AddressingMode::IndirectIndexed],
        ParseExpression::IndirectIndexedLongInstruction(_, _, _) => seq![AddressingMode::IndirectIndexedLong],
        ParseExpression::BlockMoveInstruction(_, _, _) => seq![AddressingMode::BlockMove],
        ParseExpression::StackRelativeIndirectIndexedInstruction(_, _, _, _) => seq![
            AddressingMode::StackRelativeIndirectIndexed,
        ],
        _ => seq![],
    }
}

/// The addressing modes that the syntactic form of `e` may stand for.
pub fn family_of(e: &ParseExpression) -> (r: Vec<AddressingMode>)
    ensures
        r@ == addressing_family(*e),
{
    match e {
        ParseExpression::ImpliedInstruction(_) => vec![AddressingMode::Implied],
        ParseExpression::ImmediateInstruction(_, _) => vec![AddressingMode::Immediate],
        ParseExpression::SingleArgumentInstruction(_, _) => vec![
            AddressingMode::SingleArgument,
            AddressingMode::Relative,
        ],
        ParseExpression::IndexedInstruction(_, _, _) => vec![AddressingMode::Indexed],
        ParseExpression::IndirectInstruction(_, _) => vec![AddressingMode::Indirect],
        ParseExpression::IndirectLongInstruction(_, _) => vec![AddressingMode::IndirectLong],
        ParseExpression::IndexedIndirectInstruction(_, _, _) => vec![AddressingMode::IndexedIndirect],
        ParseExpression::IndirectIndexedInstruction(_, _, _) => vec![AddressingMode::IndirectIndexed],
        ParseExpression::IndirectIndexedLongInstruction(_, _, _) => vec![AddressingMode::IndirectIndexedLong],
        ParseExpression::BlockMoveInstruction(_, _, _) => vec![AddressingMode::BlockMove],
        ParseExpression::StackRelativeIndirectIndexedInstruction(_, _, _, _) => vec![
            AddressingMode::StackRelativeIndirectIndexed,
        ],
        _ => vec![],
    }
}

/// Some entry for mnemonic `m` is a relative (branch) form.
pub open spec fn is_branching(system: SystemDefinition, m: Seq<char>) -> bool {
    exists|i: int|
        0 <= i < system.instructions@.len() && #[trigger] system.instructions@[i].name@ == m
            && system.instructions@[i].addressing == AddressingMode::Relative
}

/// The size given to a label operand of `e`: that of the first table entry
/// for its mnemonic and form, else the system's label size.
pub open spec fn resolve_size<'a>(system: SystemDefinition, e: ParseExpression<'a>) -> ArgumentSize {
    match operand_size_from(system.instructions@, instruction_mnemonic(e), addressing_family(e), 0) {
        Some(s) => s,
        None => system.label_size,
    }
}

/// A branch from an operand of size `s` at `at` to `target`, counted from
/// the end of the operand.
pub open spec fn displacement(target: u32, at: u32, s: ArgumentSize) -> int {
    target as int - (at as int + byte_size(s))
}

/// Whether an operand of size `s` can hold displacement `d`.
pub open spec fn in_branch_range(d: int, s: ArgumentSize) -> bool {
    match s {
        ArgumentSize::Word8 => -128 <= d <= 127,
        ArgumentSize::Word16 => -32768 <= d <= 32767,
        _ => true,
    }
}

/// The operand that encodes displacement `d` in size `s`: its two's
/// complement low bits for 8 and 16 bits, else 0.
pub open spec fn branch_operand(d: int, s: ArgumentSize) -> u32 {
    match s {
        ArgumentSize::Word8 => (d % 0x100) as u32,
        ArgumentSize::Word16 => (d % 0x1_0000) as u32,
        _ => 0,
    }
}

pub open spec fn not_found_text(name: Seq<char>) -> Seq<char> {
    "Label '"@ + name + "' not found."@
}

pub open spec fn too_far_text(name: Seq<char>) -> Seq<char> {
    "Branch label '"@ + name + "' is too far away. Consider reducing the distance of the label."@
}

/// One operand of an instruction with mnemonic `m`, resolved at address `at`
/// against `table` with label size `s`: the new operand, its width, whether
/// its label is missing, and the error texts.
pub open spec fn resolve_argument(
    system: SystemDefinition,
    table: Map<Seq<char>, u32>,
    m: Seq<char>,
    s: ArgumentSize,
    a: ParseArgument,
    at: u32,
) -> (ParseArgument, nat, bool, Seq<Seq<char>>) {
    match a {
        ParseArgument::NumberLiteral(n) => (a, byte_size(n.argument_size), false, seq![]),
        ParseArgument::Register(_) => (a, 0, false, seq![]),
        ParseArgument::Identifier(name) => if !table.contains_key(name@) {
            (a, byte_size(s), true, seq![not_found_text(name@)])
        } else if is_branching(system, m) {
            let d = displacement(table[name@], at, s);
            if in_branch_range(d, s) {
                (
                    ParseArgument::NumberLiteral(NumberLiteral { number: branch_operand(d, s), argument_size: s }),
                    byte_size(s),
                    false,
                    seq![],
                )
            } else {
                (
                    ParseArgument::NumberLiteral(NumberLiteral { number: 0, argument_size: s }),
                    byte_size(s),
                    false,
                    seq![too_far_text(name@)],
                )
            }
        } else {
            (
                ParseArgument::NumberLiteral(
                    NumberLiteral { number: (table[name@] as int % size_modulus(s)) as u32, argument_size: s },
                ),
                byte_size(s),
                false,
                seq![],
            )
        },
    }
}

/// The operands `args` of an instruction at `pc` resolved in order, each at
/// the address after the opcode byte and the operands before it.
pub open spec fn resolve_arguments(
    system: SystemDefinition,
    table: Map<Seq<char>, u32>,
    m: Seq<char>,
    s: ArgumentSize,
    args: Seq<ParseArgument>,
    pc: u32,
) -> (Seq<ParseArgument>, nat, bool, Seq<Seq<char>>)
    decreases args.len(),
{
    if args.len() == 0 {
        (seq![], 0, false, seq![])
    } else {
        let before = resolve_arguments(system, table, m, s, args.drop_last(), pc);
        let one = resolve_argument(system, table, m, s, args.last(), pc.wrapping_add((1 + before.1) as u32));
        (before.0.push(one.0), before.1 + one.1, before.2 || one.2, before.3 + one.3)
    }
}

/// Node `e` resolved at `pc`: the new node (unchanged where a label is
/// missing), and the error texts.
pub open spec fn resolve_expression<'a>(
    system: SystemDefinition,
    table: Map<Seq<char>, u32>,
    e: ParseExpression<'a>,
    pc: u32,
) -> (ParseExpression<'a>, Seq<Seq<char>>) {
    match instruction_arguments(e) {
        Some(args) => {
            let r = resolve_arguments(system, table, instruction_mnemonic(e), resolve_size(system, e), args, pc);
            (if r.2 { e } else { with_arguments(e, r.0) }, r.3)
        },
        None => (e, seq![]),
    }
}

/// How far node `e` moves the running address of this pass: as in the first
/// pass, but with label operands of the size that `resolve_size` gives.
pub open spec fn resolve_advance<'a>(system: SystemDefinition, e: ParseExpression<'a>) -> u32 {
    match instruction_arguments(e) {
        Some(args) => (1 + arguments_width(args, byte_size(resolve_size(system, e)))) as u32,
        None => match e {
            ParseExpression::IncBinStatement(_, size) => size as u32,
            _ => 0,
        },
    }
}

/// The running address of this pass after `nodes`, from 0.
pub open spec fn resolve_address_after<'a>(system: SystemDefinition, nodes: Seq<ParseNode<'a>>) -> u32
    decreases nodes.len(),
{
    if nodes.len() == 0 {
        0
    } else {
        let pc = resolve_address_after(system, nodes.drop_last());
        match nodes.last().expression {
            ParseExpression::OriginStatement(n) => n.number,
            e => pc.wrapping_add(resolve_advance(system, e)),
        }
    }
}

/// The nodes that this pass makes of `nodes`.
pub open spec fn resolved_nodes<'a>(
    system: SystemDefinition,
    table: Map<Seq<char>, u32>,
    nodes: Seq<ParseNode<'a>>,
) -> Seq<ParseNode<'a>> {
    Seq::new(
        nodes.len(),
        |i: int|
            ParseNode {
                start_token: nodes[i].start_token,
                expression: resolve_expression(
                    system,
                    table,
                    nodes[i].expression,
                    resolve_address_after(system, nodes.take(i)),
                ).0,
            },
    )
}

/// The errors that this pass reports on `nodes`, in order.
pub open spec fn resolve_errors<'a>(
    system: SystemDefinition,
    table: Map<Seq<char>, u32>,
    nodes: Seq<ParseNode<'a>>,
) -> Seq<(Seq<char>, Token)>
    decreases nodes.len(),
{
    if nodes.len() == 0 {
        seq![]
    } else {
        let init = nodes.drop_last();
        resolve_errors(system, table, init) + at_token(
            resolve_expression(
                system,
                table,
                nodes.last().expression,
                resolve_address_after(system, init),
            ).1,
            nodes.last().start_token,
        )
    }
}

/// A resolved operand list is as wide as the first pass counts it with label
/// operands of size `s`.
proof fn lemma_resolved_width(
    system: SystemDefinition,
    table: Map<Seq<char>, u32>,
    m: Seq<char>,
    s: ArgumentSize,
    args: Seq<ParseArgument>,
    pc: u32,
)
    ensures
        resolve_arguments(system, table, m, s, args, pc).1 == arguments_width(args, byte_size(s)),
        resolve_arguments(system, table, m, s, args, pc).0.len() == args.len(),
    decreases args.len(),
{
    if args.len() > 0 {
        lemma_resolved_width(system, table, m, s, args.drop_last(), pc);
    }
}

/// Every node of `nodes` moves the running address of this pass as far as
/// it moves that of the first pass.
pub open spec fn advances_agree<'a>(system: SystemDefinition, nodes: Seq<ParseNode<'a>>) -> bool {
    forall|k: int|
        0 <= k < nodes.len() ==> resolve_advance(system, (#[trigger] nodes[k]).expression) == address_advance(
            system,
            nodes[k].expression,
        )
}

proof fn lemma_addresses_agree<'a>(system: SystemDefinition, nodes: Seq<ParseNode<'a>>)
    requires
        advances_agree(system, nodes),
    ensures
        resolve_address_after(system, without_labels(nodes)) == address_after(system, nodes),
    decreases nodes.len(),
{
    if nodes.len() > 0 {
        let init = nodes.drop_last();
        assert(advances_agree(system, init)) by {
            assert forall|k: int| 0 <= k < init.len() implies resolve_advance(system, (#[trigger] init[k]).expression)
                == address_advance(system, init[k].expression) by {
                assert(init[k] == nodes[k]);
            }
        }
        lemma_addresses_agree(system, init);
        let last = nodes.last();
        assert(resolve_advance(system, last.expression) == address_advance(system, last.expression));
        if is_label(last.expression) {
            let pc = address_after(system, init);
            assert(pc.wrapping_add(0) == pc);
        } else {
            let w = without_labels(nodes);
            assert(w.drop_last() =~= without_labels(init));
        }
    }
}

/// The label-free form of a prefix of `nodes` is a prefix of the label-free
/// form of `nodes`.
proof fn lemma_without_labels_prefix<'a>(nodes: Seq<ParseNode<'a>>, i: int)
    requires
        0 <= i <= nodes.len(),
    ensures
        without_labels(nodes.take(i)).len() <= without_labels(nodes).len(),
        without_labels(nodes).take(without_labels(nodes.take(i)).len() as int) == without_labels(nodes.take(i)),
    decreases nodes.len(),
{
    if i == nodes.len() {
        assert(nodes.take(i) =~= nodes);
        assert(without_labels(nodes).take(without_labels(nodes).len() as int) =~= without_labels(nodes));
    } else {
        let init = nodes.drop_last();
        assert(init.take(i) =~= nodes.take(i));
        lemma_without_labels_prefix(init, i);
        let p = without_labels(nodes.take(i));
        if !is_label(nodes.last().expression) {
            assert(without_labels(nodes).take(p.len() as int) =~= without_labels(init).take(p.len() as int));
        }
    }
}

/// Address agreement of the first two passes: where every node moves the
/// running address of the second pass as far as that of the first, the second
/// pass, walking the label-free tree, meets the node that follows
/// `nodes[..i]` at the address at which the first pass met it.
pub proof fn lemma_pass_addresses_agree<'a>(system: SystemDefinition, nodes: Seq<ParseNode<'a>>, i: int)
    requires
        0 <= i <= nodes.len(),
        advances_agree(system, nodes),
    ensures
        ({
            let before = without_labels(nodes.take(i));
            &&& without_labels(nodes).take(before.len() as int) == before
            &&& resolve_address_after(system, before) == address_after(system, nodes.take(i))
        }),
{
    lemma_without_labels_prefix(nodes, i);
    assert(advances_agree(system, nodes.take(i))) by {
        assert forall|k: int| 0 <= k < nodes.take(i).len() implies resolve_advance(
            system,
            (#[trigger] nodes.take(i)[k]).expression,
        ) == address_advance(system, nodes.take(i)[k].expression) by {
            assert(nodes.take(i)[k] == nodes[k]);
        }
    }
    lemma_addresses_agree(system, nodes.take(i));
}

pub struct ResolveLabelPass<'a> {
    pub system: &'a SystemDefinition,
    pub error_messages: Vec<ErrorMessage>,
}

impl<'a> ResolveLabelPass<'a> {
    pub fn new(system: &'a SystemDefinition) -> (r: Self)
        ensures
            r.system == system,
            r.error_messages@.len() == 0,
    {
        ResolveLabelPass { system, error_messages: Vec::new() }
    }

    fn add_error_message(&mut self, error_message: String, offending_token: &Token)
        ensures
            final(self).system == old(self).system,
            extends_with(final(self).error_messages@, old(self).error_messages@, seq![(error_message@, *offending_token)]),
    {
        self.error_messages.push(error_at(error_message, offending_token));
    }

    fn is_branching_instruction(&self, opcode_name: &String) -> (r: bool)
        ensures
            r == is_branching(*self.system, opcode_name@),
    {
        let mut i: usize = 0;
        while i < self.system.instructions.len()
            invariant
                i <= self.system.instructions@.len(),
                forall|j: int|
                    0 <= j < i ==> !(#[trigger] self.system.instructions@[j].name@ == opcode_name@
                        && self.system.instructions@[j].addressing == AddressingMode::Relative),
            decreases self.system.instructions@.len() - i,
        {
            let instruction = &self.system.instructions[i];
            if instruction.name == *opcode_name && instruction.addressing == AddressingMode::Relative {
                return true;
            }
            i = i + 1;
        }
        false
    }

    /// Resolves one operand of mnemonic `m` at address `at`, reporting a
    /// missing label or a branch out of range against `token`.
    fn resolve_argument(
        &mut self,
        symbol_table: &SymbolTable,
        token: &Token,
        m: &String,
        branching: bool,
        size: ArgumentSize,
        argument: &ParseArgument,
        at: u32,
    ) -> (r: (ParseArgument, u32, bool))
        requires
            symbol_table.wf(),
            branching == is_branching(*old(self).system, m@),
        ensures
            ({
                let s = resolve_argument(*old(self).system, symbol_table@, m@, size, *argument, at);
                &&& r.0 == s.0
                &&& r.1 == s.1
                &&& r.2 == s.2
                &&& extends_with(final(self).error_messages@, old(self).error_messages@, at_token(s.3, *token))
            }),
            final(self).system == old(self).system,
    {
        let ghost before = self.error_messages@;
        match argument {
            ParseArgument::NumberLiteral(number) => {
                proof { assert(at_token(seq![], *token) =~= seq![]); }
                (argument.clone(), argument_size_to_byte_size(number.argument_size), false)
            },
            ParseArgument::Register(_) => {
                proof { assert(at_token(seq![], *token) =~= seq![]); }
                (argument.clone(), 0, false)
            },
            ParseArgument::Identifier(name) => {
                let width = argument_size_to_byte_size(size);
                if !symbol_table.has_label(name.as_str()) {
                    let message = text3("Label '", name.as_str(), "' not found.");
                    self.add_error_message(message, token);
                    proof {
                        assert(at_token(seq![not_found_text(name@)], *token) =~= seq![(message@, *token)]);
                    }
                    return (argument.clone(), width, true);
                }
                let target = symbol_table.address_for(name.as_str());
                if branching {
                    let d: i64 = target as i64 - (at as i64 + width as i64);
                    let too_far = match size {
                        ArgumentSize::Word8 => d > 127 || d < -128,
                        ArgumentSize::Word16 => d > 32767 || d < -32768,
                        _ => false,
                    };
                    if too_far {
                        let message = text3("Branch label '", name.as_str(),
                            "' is too far away. Consider reducing the distance of the label.");
                        self.add_error_message(message, token);
                        proof {
                            assert(at_token(seq![too_far_text(name@)], *token) =~= seq![(message@, *token)]);
                        }
                        return (ParseArgument::NumberLiteral(NumberLiteral { number: 0, argument_size: size }), width, false);
                    }
                    proof { assert(at_token(seq![], *token) =~= seq![]); }
                    let number: u32 = match size {
                        ArgumentSize::Word8 => {
                            proof { vstd::arithmetic::div_mod::lemma_mod_add_multiples_vanish(d as int, 0x100); }
                            ((d + 0x100) as u32) % 0x100
                        },
                        ArgumentSize::Word16 => {
                            proof { vstd::arithmetic::div_mod::lemma_mod_add_multiples_vanish(d as int, 0x1_0000); }
                            ((d + 0x1_0000) as u32) % 0x1_0000
                        },
                        _ => 0,
                    };
                    (ParseArgument::NumberLiteral(NumberLiteral { number, argument_size: size }), width, false)
                } else {
                    proof { assert(at_token(seq![], *token) =~= seq![]); }
                    let number: u32 = match size {
                        ArgumentSize::Word8 => target % 0x100,
                        ArgumentSize::Word16 => target % 0x1_0000,
                        ArgumentSize::Word24 => target % 0x100_0000,
                        ArgumentSize::Word32 => target,
                    };
                    proof {
                        if size == ArgumentSize::Word32 {
                            vstd::arithmetic::div_mod::lemma_small_mod(target as nat, 0x1_0000_0000);
                        }
                    }
                    (ParseArgument::NumberLiteral(NumberLiteral { number, argument_size: size }), width, false)
                }
            },
        }
    }

    /// Resolves the operands of `node` at running address `pc`; returns the
    /// new expression and how far it moves the running address.
    fn resolve_expression(&mut self, symbol_table: &SymbolTable, node: &ParseNode<'a>, pc: u32) -> (r: (ParseExpression<'a>, u32))
        requires
            symbol_table.wf(),
        ensures
            ({
                let s = resolve_expression(*old(self).system, symbol_table@, node.expression, pc);
                &&& r.0 == s.0
                &&& r.1 == resolve_advance(*old(self).system, node.expression)
                &&& extends_with(final(self).error_messages@, old(self).error_messages@, at_token(s.1, node.start_token))
            }),
            final(self).system == old(self).system,
    {
        let ghost system = *self.system;
        let ghost before = self.error_messages@;
        match node.expression.instruction_parts() {
            None => {
                proof {
                    assert(at_token(seq![], node.start_token) =~= seq![]);
                    lemma_extends_with_nothing(before);
                }
                let advance = match &node.expression {
                    ParseExpression::IncBinStatement(_, size) => *size as u32,
                    _ => 0,
                };
                (node.expression.clone(), advance)
            },
            Some(parts) => {
                let (m, args) = parts;
                let modes = family_of(&node.expression);
                let size = match find_instruction_argument_size(self.system, &m, modes.as_slice()) {
                    Some(s) => s,
                    None => self.system.label_size,
                };
                let branching = self.is_branching_instruction(&m);
                let ghost table = symbol_table@;
                let mut out: Vec<ParseArgument> = Vec::new();
                let mut width: u32 = 0;
                let mut missing = false;
                let mut k: usize = 0;
                proof {
                    lemma_extends_with_nothing(before);
                    assert(args@.take(0) =~= seq![]);
                    assert(at_token(seq![], node.start_token) =~= seq![]);
                }
                while k < args.len()
                    invariant
                        k <= args@.len() <= 3,
                        *self.system == system,
                        m@ == instruction_mnemonic(node.expression),
                        size == resolve_size(system, node.expression),
                        branching == is_branching(system, m@),
                        symbol_table.wf(),
                        symbol_table@ == table,
                        width <= 4 * k,
                        ({
                            let s = resolve_arguments(system, table, m@, size, args@.take(k as int), pc);
                            &&& out@ == s.0
                            &&& width == s.1
                            &&& missing == s.2
                            &&& extends_with(self.error_messages@, before, at_token(s.3, node.start_token))
                        }),
                    decreases args@.len() - k,
                {
                    let ghost mid = self.error_messages@;
                    let ghost s0 = resolve_arguments(system, table, m@, size, args@.take(k as int), pc);
                    let one = self.resolve_argument(symbol_table, &node.start_token, &m, branching, size, &args[k], pc.wrapping_add(1 + width));
                    proof {
                        assert(args@.take(k + 1).drop_last() =~= args@.take(k as int));
                        assert(args@.take(k + 1).last() == args@[k as int]);
                        let s1 = resolve_argument(system, table, m@, size, args@[k as int], pc.wrapping_add((1 + width) as u32));
                        assert(at_token(s0.3 + s1.3, node.start_token) =~= at_token(s0.3, node.start_token) + at_token(s1.3, node.start_token));
                        lemma_extends_with_trans(before, mid, self.error_messages@, at_token(s0.3, node.start_token), at_token(s1.3, node.start_token));
                    }
                    out.push(one.0);
                    width = width + one.1;
                    missing = missing || one.2;
                    k = k + 1;
                }
                proof {
                    assert(args@.take(args@.len() as int) =~= args@);
                    lemma_resolved_width(system, table, m@, size, args@, pc);
                }
                let expression = if missing {
                    node.expression.clone()
                } else {
                    node.expression.with_arguments(out)
                };
                (expression, 1 + width)
            },
        }
    }

    /// Replaces the label operands of `parse_tree` by numbers, as
    /// `resolved_nodes` says, and reports missing labels and branches out of
    /// range.
    pub fn do_pass(&mut self, parse_tree: Vec<ParseNode<'a>>, symbol_table: &mut SymbolTable) -> (r: Vec<ParseNode<'a>>)
        requires
            old(symbol_table).wf(),
        ensures
            *final(symbol_table) == *old(symbol_table),
            r@ == resolved_nodes(*old(self).system, old(symbol_table)@, parse_tree@),
            extends_with(
                final(self).error_messages@,
                old(self).error_messages@,
                resolve_errors(*old(self).system, old(symbol_table)@, parse_tree@),
            ),
            final(self).system == old(self).system,
    {
        let ghost system = *self.system;
        let ghost table = symbol_table@;
        let ghost before = self.error_messages@;
        let mut new_tree: Vec<ParseNode<'a>> = Vec::new();
        let mut current_address: u32 = 0;
        let mut i: usize = 0;
        proof {
            lemma_extends_with_nothing(before);
            assert(parse_tree@.take(0) =~= seq![]);
        }
        while i < parse_tree.len()
            invariant
                i <= parse_tree@.len(),
                *self.system == system,
                self.system == old(self).system,
                symbol_table.wf(),
                *symbol_table == *old(symbol_table),
                symbol_table@ == table,
                current_address == resolve_address_after(system, parse_tree@.take(i as int)),
                new_tree@.len() == i,
                forall|k: int| 0 <= k < i ==> new_tree@[k] == resolved_nodes(system, table, parse_tree@)[k],
                extends_with(self.error_messages@, before, resolve_errors(system, table, parse_tree@.take(i as int))),
            decreases parse_tree@.len() - i,
        {
            let node = &parse_tree[i];
            let ghost mid = self.error_messages@;
            proof {
                assert(parse_tree@.take(i + 1).drop_last() =~= parse_tree@.take(i as int));
                assert(parse_tree@.take(i + 1).last() == parse_tree@[i as int]);
            }
            let (expression, advance) = self.resolve_expression(symbol_table, node, current_address);
            proof {
                lemma_extends_with_trans(
                    before,
                    mid,
                    self.error_messages@,
                    resolve_errors(system, table, parse_tree@.take(i as int)),
                    at_token(resolve_expression(system, table, node.expression, current_address).1, node.start_token),
                );
            }
            new_tree.push(ParseNode { start_token: node.start_token.clone(), expression });
            current_address = match &node.expression {
                ParseExpression::OriginStatement(number) => number.number,
                _ => current_address.wrapping_add(advance),
            };
            i = i + 1;
        }
        proof {
            assert(parse_tree@.take(parse_tree@.len() as int) =~= parse_tree@);
            assert(new_tree@ =~= resolved_nodes(system, table, parse_tree@));
        }
        new_tree
    }
}

impl<'a> TreePass<'a> for ResolveLabelPass<'a> {
    open spec fn error_list(&self) -> Seq<ErrorMessage> {
        self.error_messages@
    }

    fn has_errors(&self) -> (r: bool) {
        !self.error_messages.is_empty()
    }

    fn get_error_messages(&self) -> (r: &Vec<ErrorMessage>) {
        &self.error_messages
    }

    fn do_pass(&mut self, parse_tree: Vec<ParseNode<'a>>, symbol_table: &mut SymbolTable) -> (r: Vec<ParseNode<'a>>) {
        ResolveLabelPass::do_pass(self, parse_tree, symbol_table)
    }
}

} // verus!
