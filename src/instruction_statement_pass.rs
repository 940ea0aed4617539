//! The third pass: binds each instruction to the first opcode table entry
//! that encodes its mnemonic, form and operand sizes.
use vstd::prelude::*;
use crate::lexer::Token;
use crate::parser::{
    at_token, error_at, extends_with, instruction_arguments, instruction_mnemonic, lemma_extends_with_nothing,
    lemma_extends_with_trans, text3, text5, ErrorMessage, FinalInstruction, ParseArgument, ParseExpression, ParseNode,
};
use crate::pass::TreePass;
use crate::resolve_label_pass::{addressing_family, family_of};
use crate::symbol_table::SymbolTable;
use crate::system_definition::{
    argument_matches, argument_size_to_bit_text, argument_size_to_byte_size, bit_size_text, byte_index,
    contains_mode, entry_matches, has_no_match, is_first_match, AddressingMode, ArgumentSize,
    InstructionArgument, InstructionInfo, SystemDefinition,
};

verus! {

/// The query operand for a written operand: a literal asks for its size, a
/// register for its name; a label asks for nothing.
pub open spec fn query_piece(a: ParseArgument) -> Seq<InstructionArgument> {
    match a {
        ParseArgument::NumberLiteral(n) => seq![InstructionArgument::Number(n.argument_size)],
        ParseArgument::Register(r) => seq![InstructionArgument::NotStaticRegister(r)],
        ParseArgument::Identifier(_) => seq![],
    }
}

/// The query for operands `args`, in order.
pub open spec fn query_of(args: Seq<ParseArgument>) -> Seq<InstructionArgument>
    decreases args.len(),
{
    if args.len() == 0 {
        seq![]
    } else {
        query_of(args.drop_last()) + query_piece(args.last())
    }
}

/// The name of the last register among `args`, or nothing.
pub open spec fn captured_register(args: Seq<ParseArgument>) -> Seq<char>
    decreases args.len(),
{
    if args.len() == 0 {
        seq![]
    } else {
        match args.last() {
            ParseArgument::Register(r) => r@,
            _ => captured_register(args.drop_last()),
        }
    }
}

/// The forms with a single operand, which must be a literal to be looked up.
pub open spec fn is_single_operand_form<'a>(e: ParseExpression<'a>) -> bool {
    ||| e is ImmediateInstruction
    ||| e is SingleArgumentInstruction
    ||| e is IndirectInstruction
    ||| e is IndirectLongInstruction
}

/// Whether this pass looks node `e` up in the opcode table.
pub open spec fn is_looked_up<'a>(e: ParseExpression<'a>) -> bool {
    &&& instruction_arguments(e) is Some
    &&& is_single_operand_form(e) ==> instruction_arguments(e)->0[0] is NumberLiteral
}

/// The query for node `e`.
pub open spec fn selection_query<'a>(e: ParseExpression<'a>) -> Seq<InstructionArgument> {
    query_of(instruction_arguments(e)->0)
}

/// `out` binds instruction node `e` to the table entry `entry`.
pub open spec fn is_bound<'a>(e: ParseExpression<'a>, out: ParseExpression<'a>, entry: InstructionInfo) -> bool {
    match out {
        ParseExpression::FinalInstruction(f) => match f {
            FinalInstruction::ImpliedInstruction(info) => e is ImpliedInstruction && *info == entry,
            FinalInstruction::SingleArgumentInstruction(info, a) => !(e is ImpliedInstruction)
                && !(e is BlockMoveInstruction) && *info == entry && a == instruction_arguments(e)->0[0],
            FinalInstruction::TwoArgumentInstruction(info, a, b) => match e {
                ParseExpression::BlockMoveInstruction(_, x, y) => *info == entry && a == x && b == y,
                _ => false,
            },
        },
        _ => false,
    }
}

pub open spec fn opcode_text(m: Seq<char>, rest: Seq<char>) -> Seq<char> {
    "opcode '"@ + m + rest
}

/// The error text when no table entry answers node `e`.
pub open spec fn no_match_text<'a>(system: SystemDefinition, e: ParseExpression<'a>) -> Seq<char> {
    let m = instruction_mnemonic(e);
    let r = captured_register(instruction_arguments(e)->0);
    match e {
        ParseExpression::ImpliedInstruction(_) => opcode_text(m, "' does not support implied addressing mode."@),
        ParseExpression::ImmediateInstruction(_, ParseArgument::NumberLiteral(n)) => opcode_text(
            m,
            "' does not support immediate addressing mode of size "@ + bit_size_text(n.argument_size) + "-bit."@,
        ),
        ParseExpression::SingleArgumentInstruction(_, ParseArgument::NumberLiteral(n)) => opcode_text(
            m,
            "' does not support "@ + system.size_to_addressing_mode[byte_index(n.argument_size)]@
                + " addressing mode."@,
        ),
        ParseExpression::IndexedInstruction(_, _, _) => if r == "s"@ {
            opcode_text(m, "' does not support stack relative mode."@)
        } else {
            opcode_text(m, "' does not support '"@ + r + "' indexed addressing mode."@)
        },
        ParseExpression::IndirectInstruction(_, _) => opcode_text(m, "' does not support indirect addressing mode."@),
        ParseExpression::IndirectLongInstruction(_, _) => opcode_text(
            m,
            "' does not support indirect long addressing mode."@,
        ),
        ParseExpression::IndexedIndirectInstruction(_, _, _) => opcode_text(
            m,
            "' does not support '"@ + r + "' indexed indirect addressing mode."@,
        ),
        ParseExpression::IndirectIndexedInstruction(_, _, _) => opcode_text(
            m,
            "' does not support '"@ + r + "' indirect indexed addressing mode."@,
        ),
        ParseExpression::IndirectIndexedLongInstruction(_, _, _) => opcode_text(
            m,
            "' does not support '"@ + r + "' indirect indexed long addressing mode."@,
        ),
        ParseExpression::BlockMoveInstruction(_, _, _) => opcode_text(
            m,
            "' does not support block mode addressing mode."@,
        ),
        _ => opcode_text(m, "' does not support stack relative indirect indexed addressing mode."@),
    }
}

/// The error text when a single operand form holds register `r`.
pub open spec fn register_text<'a>(e: ParseExpression<'a>, r: Seq<char>) -> Seq<char> {
    if e is ImmediateInstruction {
        "immediate addressing mode does not support '"@ + r + "' register argument."@
    } else {
        "addressing mode does not support '"@ + r + "' register argument."@
    }
}

/// The error texts that this pass reports on node `e`.
pub open spec fn selection_errors<'a>(system: SystemDefinition, e: ParseExpression<'a>) -> Seq<Seq<char>> {
    if is_looked_up(e) {
        if has_no_match(system.instructions@, instruction_mnemonic(e), addressing_family(e), selection_query(e)) {
            seq![no_match_text(system, e)]
        } else {
            seq![]
        }
    } else if is_single_operand_form(e) {
        match instruction_arguments(e)->0[0] {
            ParseArgument::Register(r) => seq![register_text(e, r@)],
            _ => seq![],
        }
    } else {
        seq![]
    }
}

/// `out` is what this pass makes of node `e`: bound to the first entry that
/// answers it, where it is looked up and one does; else `e` itself.
pub open spec fn selected<'a>(system: SystemDefinition, e: ParseExpression<'a>, out: ParseExpression<'a>) -> bool {
    if is_looked_up(e) && !has_no_match(
        system.instructions@,
        instruction_mnemonic(e),
        addressing_family(e),
        selection_query(e),
    ) {
        exists|i: int|
            is_first_match(system.instructions@, instruction_mnemonic(e), addressing_family(e), selection_query(e), i)
                && is_bound(e, out, system.instructions@[i])
    } else {
        out == e
    }
}

/// The errors that this pass reports on `nodes`, in order.
pub open spec fn selection_errors_of<'a>(system: SystemDefinition, nodes: Seq<ParseNode<'a>>) -> Seq<(Seq<char>, Token)>
    decreases nodes.len(),
{
    if nodes.len() == 0 {
        seq![]
    } else {
        selection_errors_of(system, nodes.drop_last()) + at_token(
            selection_errors(system, nodes.last().expression),
            nodes.last().start_token,
        )
    }
}

fn sizes_contain(sizes: &Vec<ArgumentSize>, q: ArgumentSize) -> (r: bool)
    ensures
        r == sizes@.contains(q),
{
    let mut k: usize = 0;
    while k < sizes.len()
        invariant
            k <= sizes@.len(),
            forall|j: int| 0 <= j < k ==> sizes@[j] != q,
        decreases sizes@.len() - k,
    {
        if sizes[k] == q {
            assert(sizes@[k as int] == q);
            return true;
        }
        k = k + 1;
    }
    false
}

/// Whether the table operand `entry` accepts the query operand `query`.
fn arguments_match(entry: &InstructionArgument, query: &InstructionArgument) -> (r: bool)
    ensures
        r == argument_matches(*entry, *query),
{
    match entry {
        InstructionArgument::Number(s) => match query {
            InstructionArgument::Number(q) => *s == *q,
            _ => false,
        },
        InstructionArgument::Numbers(sizes) => match query {
            InstructionArgument::Number(q) => sizes_contain(sizes, *q),
            _ => false,
        },
        InstructionArgument::Register(r) => match query {
            InstructionArgument::NotStaticRegister(q) => *r == *q,
            _ => false,
        },
        _ => false,
    }
}

fn entry_answers(
    info: &InstructionInfo,
    opcode_name: &String,
    possible_addressings: &[AddressingMode],
    possible_arguments: &Vec<InstructionArgument>,
) -> (r: bool)
    ensures
        r == entry_matches(*info, opcode_name@, possible_addressings@, possible_arguments@),
{
    if info.name != *opcode_name || !contains_mode(possible_addressings, info.addressing)
        || info.arguments.len() != possible_arguments.len() {
        return false;
    }
    let mut k: usize = 0;
    while k < info.arguments.len()
        invariant
            k <= info.arguments@.len(),
            info.arguments@.len() == possible_arguments@.len(),
            forall|j: int| 0 <= j < k ==> argument_matches(#[trigger] info.arguments@[j], possible_arguments@[j]),
        decreases info.arguments@.len() - k,
    {
        if !arguments_match(&info.arguments[k], &possible_arguments[k]) {
            return false;
        }
        k = k + 1;
    }
    true
}

/// Selector determinism: at most one entry is the first to answer a query.
pub proof fn lemma_first_match_unique(
    table: Seq<InstructionInfo>,
    name: Seq<char>,
    modes: Seq<AddressingMode>,
    query: Seq<InstructionArgument>,
    i: int,
    j: int,
)
    requires
        is_first_match(table, name, modes, query, i),
        is_first_match(table, name, modes, query, j),
    ensures
        i == j,
{
}

/// Selector determinism: this pass makes one thing only of each node.
pub proof fn lemma_selection_deterministic<'a>(
    system: SystemDefinition,
    e: ParseExpression<'a>,
    out1: ParseExpression<'a>,
    out2: ParseExpression<'a>,
)
    requires
        selected(system, e, out1),
        selected(system, e, out2),
    ensures
        out1 == out2,
{
    let table = system.instructions@;
    if is_looked_up(e) && !has_no_match(table, instruction_mnemonic(e), addressing_family(e), selection_query(e)) {
        let q = selection_query(e);
        let i = choose|i: int|
            is_first_match(table, instruction_mnemonic(e), addressing_family(e), q, i) && is_bound(e, out1, table[i]);
        let j = choose|j: int|
            is_first_match(table, instruction_mnemonic(e), addressing_family(e), q, j) && is_bound(e, out2, table[j]);
        lemma_first_match_unique(table, instruction_mnemonic(e), addressing_family(e), q, i, j);
    }
}

/// A node that is already bound to an opcode passes this pass unchanged and
/// without an error.
pub proof fn lemma_final_instruction_kept<'a>(system: SystemDefinition, e: ParseExpression<'a>, out: ParseExpression<'a>)
    requires
        e is FinalInstruction,
        selected(system, e, out),
    ensures
        out == e,
        selection_errors(system, e) == Seq::<Seq<char>>::empty(),
{
}

pub struct InstructionToStatementPass<'a> {
    pub system: &'a SystemDefinition,
    pub error_messages: Vec<ErrorMessage>,
}

impl<'a> InstructionToStatementPass<'a> {
    pub fn new(system: &'a SystemDefinition) -> (r: Self)
        ensures
            r.system == system,
            r.error_messages@.len() == 0,
    {
        InstructionToStatementPass { system, error_messages: Vec::new() }
    }

    /// The index of the first table entry that answers the query, if any;
    /// none where no entry does.
    pub fn find_suitable_instruction(
        &self,
        opcode_name: &String,
        possible_addressings: &[AddressingMode],
        possible_arguments: &Vec<InstructionArgument>,
    ) -> (r: Option<usize>)
        ensures
            match r {
                Some(i) => is_first_match(
                    self.system.instructions@,
                    opcode_name@,
                    possible_addressings@,
                    possible_arguments@,
                    i as int,
                ),
                None => has_no_match(
                    self.system.instructions@,
                    opcode_name@,
                    possible_addressings@,
                    possible_arguments@,
                ),
            },
    {
        let mut i: usize = 0;
        while i < self.system.instructions.len()
            invariant
                i <= self.system.instructions@.len(),
                forall|j: int|
                    0 <= j < i ==> !entry_matches(
                        #[trigger] self.system.instructions@[j],
                        opcode_name@,
                        possible_addressings@,
                        possible_arguments@,
                    ),
            decreases self.system.instructions@.len() - i,
        {
            if entry_answers(&self.system.instructions[i], opcode_name, possible_addressings, possible_arguments) {
                return Some(i);
            }
            i = i + 1;
        }
        None
    }

    fn add_error_message(&mut self, error_message: String, offending_token: &Token)
        ensures
            final(self).system == old(self).system,
            extends_with(final(self).error_messages@, old(self).error_messages@, seq![(error_message@, *offending_token)]),
    {
        self.error_messages.push(error_at(error_message, offending_token));
    }

    /// Appends the query operand for `argument`; returns its name where it is
    /// a register.
    fn add_to_argument_list_capture_register(
        &self,
        argument_list: &mut Vec<InstructionArgument>,
        argument: &ParseArgument,
    ) -> (r: Option<String>)
        ensures
            final(argument_list)@ == old(argument_list)@ + query_piece(*argument),
            r == match *argument {
                ParseArgument::Register(name) => Some(name),
                _ => None,
            },
    {
        match argument {
            ParseArgument::NumberLiteral(number) => {
                argument_list.push(InstructionArgument::Number(number.argument_size));
                assert(argument_list@ =~= old(argument_list)@ + query_piece(*argument));
                None
            },
            ParseArgument::Register(register_name) => {
                argument_list.push(InstructionArgument::NotStaticRegister(register_name.clone()));
                assert(argument_list@ =~= old(argument_list)@ + query_piece(*argument));
                Some(register_name.clone())
            },
            ParseArgument::Identifier(_) => {
                assert(argument_list@ =~= old(argument_list)@ + query_piece(*argument));
                None
            },
        }
    }

    /// The query for operands `args`, and the name of the last register
    /// among them.
    fn build_query(&self, args: &Vec<ParseArgument>) -> (r: (Vec<InstructionArgument>, String))
        ensures
            r.0@ == query_of(args@),
            r.1@ == captured_register(args@),
    {
        let mut query: Vec<InstructionArgument> = Vec::new();
        let mut captured = String::new();
        let mut k: usize = 0;
        while k < args.len()
            invariant
                k <= args@.len(),
                query@ == query_of(args@.take(k as int)),
                captured@ == captured_register(args@.take(k as int)),
            decreases args@.len() - k,
        {
            proof {
                assert(args@.take(k + 1).drop_last() =~= args@.take(k as int));
                assert(args@.take(k + 1).last() == args@[k as int]);
            }
            match self.add_to_argument_list_capture_register(&mut query, &args[k]) {
                Some(name) => {
                    captured = name;
                },
                None => {},
            }
            k = k + 1;
        }
        assert(args@.take(args@.len() as int) =~= args@);
        (query, captured)
    }

    fn is_single_operand_form(e: &ParseExpression<'a>) -> (r: bool)
        ensures
            r == is_single_operand_form(*e),
    {
        match e {
            ParseExpression::ImmediateInstruction(_, _) | ParseExpression::SingleArgumentInstruction(_, _)
            | ParseExpression::IndirectInstruction(_, _) | ParseExpression::IndirectLongInstruction(_, _) => true,
            _ => false,
        }
    }

    /// The error text when no table entry answers `e`.
    fn no_match_message(&self, e: &ParseExpression<'a>, m: &String, captured: &String) -> (r: String)
        requires
            is_looked_up(*e),
            m@ == instruction_mnemonic(*e),
            captured@ == captured_register(instruction_arguments(*e)->0),
        ensures
            r@ == no_match_text(*self.system, *e),
    {
        let m = m.as_str();
        let r = match e {
            ParseExpression::ImpliedInstruction(_) => text3("opcode '", m, "' does not support implied addressing mode."),
            ParseExpression::ImmediateInstruction(_, ParseArgument::NumberLiteral(n)) => text5(
                "opcode '",
                m,
                "' does not support immediate addressing mode of size ",
                argument_size_to_bit_text(n.argument_size),
                "-bit.",
            ),
            ParseExpression::SingleArgumentInstruction(_, ParseArgument::NumberLiteral(n)) => {
                let index = (argument_size_to_byte_size(n.argument_size) - 1) as usize;
                text5("opcode '", m, "' does not support ", self.system.size_to_addressing_mode[index], " addressing mode.")
            },
            ParseExpression::IndexedInstruction(_, _, _) => {
                if *captured == "s".to_owned() {
                    text3("opcode '", m, "' does not support stack relative mode.")
                } else {
                    text5("opcode '", m, "' does not support '", captured.as_str(), "' indexed addressing mode.")
                }
            },
            ParseExpression::IndirectInstruction(_, _) => text3("opcode '", m, "' does not support indirect addressing mode."),
            ParseExpression::IndirectLongInstruction(_, _) => text3(
                "opcode '",
                m,
                "' does not support indirect long addressing mode.",
            ),
            ParseExpression::IndexedIndirectInstruction(_, _, _) => text5(
                "opcode '",
                m,
                "' does not support '",
                captured.as_str(),
                "' indexed indirect addressing mode.",
            ),
            ParseExpression::IndirectIndexedInstruction(_, _, _) => text5(
                "opcode '",
                m,
                "' does not support '",
                captured.as_str(),
                "' indirect indexed addressing mode.",
            ),
            ParseExpression::IndirectIndexedLongInstruction(_, _, _) => text5(
                "opcode '",
                m,
                "' does not support '",
                captured.as_str(),
                "' indirect indexed long addressing mode.",
            ),
            ParseExpression::BlockMoveInstruction(_, _, _) => text3(
                "opcode '",
                m,
                "' does not support block mode addressing mode.",
            ),
            _ => text3("opcode '", m, "' does not support stack relative indirect indexed addressing mode."),
        };
        assert(r@ =~= no_match_text(*self.system, *e));
        r
    }

    /// Instruction node `e` bound to table entry `info`.
    fn bind(e: &ParseExpression<'a>, info: &'a InstructionInfo) -> (r: ParseExpression<'a>)
        requires
            instruction_arguments(*e) is Some,
        ensures
            is_bound(*e, r, *info),
    {
        match e {
            ParseExpression::ImpliedInstruction(_) => ParseExpression::FinalInstruction(
                FinalInstruction::ImpliedInstruction(info),
            ),
            ParseExpression::BlockMoveInstruction(_, a, b) => ParseExpression::FinalInstruction(
                FinalInstruction::TwoArgumentInstruction(info, a.clone(), b.clone()),
            ),
            ParseExpression::ImmediateInstruction(_, a) | ParseExpression::SingleArgumentInstruction(_, a)
            | ParseExpression::IndirectInstruction(_, a) | ParseExpression::IndirectLongInstruction(_, a)
            | ParseExpression::IndexedInstruction(_, a, _) | ParseExpression::IndexedIndirectInstruction(_, a, _)
            | ParseExpression::IndirectIndexedInstruction(_, a, _)
            | ParseExpression::IndirectIndexedLongInstruction(_, a, _)
            | ParseExpression::StackRelativeIndirectIndexedInstruction(_, a, _, _) => ParseExpression::FinalInstruction(
                FinalInstruction::SingleArgumentInstruction(info, a.clone()),
            ),
            _ => e.clone(),
        }
    }

    /// What this pass makes of `node`, with its errors reported.
    fn select_expression(&mut self, node: &ParseNode<'a>) -> (r: ParseExpression<'a>)
        ensures
            selected(*old(self).system, node.expression, r),
            extends_with(
                final(self).error_messages@,
                old(self).error_messages@,
                at_token(selection_errors(*old(self).system, node.expression), node.start_token),
            ),
            final(self).system == old(self).system,
    {
        let e = &node.expression;
        let ghost before = self.error_messages@;
        proof {
            lemma_extends_with_nothing(before);
            assert(at_token(seq![], node.start_token) =~= seq![]);
        }
        let parts = e.instruction_parts();
        match parts {
            None => e.clone(),
            Some(parts) => {
                let (m, args) = parts;
                if Self::is_single_operand_form(e) {
                    match &args[0] {
                        ParseArgument::Register(r) => {
                            let message = if let ParseExpression::ImmediateInstruction(_, _) = e {
                                text3("immediate addressing mode does not support '", r.as_str(), "' register argument.")
                            } else {
                                text3("addressing mode does not support '", r.as_str(), "' register argument.")
                            };
                            proof {
                                assert(message@ =~= register_text(*e, r@));
                                assert(at_token(seq![register_text(*e, r@)], node.start_token) =~= seq![(message@, node.start_token)]);
                            }
                            self.add_error_message(message, &node.start_token);
                            return e.clone();
                        },
                        ParseArgument::Identifier(_) => {
                            return e.clone();
                        },
                        _ => {},
                    }
                }
                let (query, captured) = self.build_query(&args);
                let modes = family_of(e);
                match self.find_suitable_instruction(&m, modes.as_slice(), &query) {
                    Some(i) => {
                        let system: &'a SystemDefinition = self.system;
                        Self::bind(e, &system.instructions[i])
                    },
                    None => {
                        let message = self.no_match_message(e, &m, &captured);
                        proof {
                            assert(at_token(seq![no_match_text(*self.system, *e)], node.start_token) =~= seq![(message@, node.start_token)]);
                        }
                        self.add_error_message(message, &node.start_token);
                        e.clone()
                    },
                }
            },
        }
    }

    /// Binds each instruction of `parse_tree` to its opcode table entry, as
    /// `selected` says, and reports the instructions that no entry encodes.
    pub fn do_pass(&mut self, parse_tree: Vec<ParseNode<'a>>, symbol_table: &mut SymbolTable) -> (r: Vec<ParseNode<'a>>)
        ensures
            *final(symbol_table) == *old(symbol_table),
            r@.len() == parse_tree@.len(),
            forall|k: int|
                0 <= k < parse_tree@.len() ==> (#[trigger] r@[k]).start_token == parse_tree@[k].start_token
                    && selected(*old(self).system, parse_tree@[k].expression, r@[k].expression),
            extends_with(
                final(self).error_messages@,
                old(self).error_messages@,
                selection_errors_of(*old(self).system, parse_tree@),
            ),
            final(self).system == old(self).system,
    {
        let ghost system = *self.system;
        let ghost before = self.error_messages@;
        let mut new_tree: Vec<ParseNode<'a>> = Vec::new();
        let mut i: usize = 0;
        proof {
            lemma_extends_with_nothing(before);
            assert(parse_tree@.take(0) =~= seq![]);
        }
        while i < parse_tree.len()
            invariant
                i <= parse_tree@.len(),
                *self.system == system,
                self.system == old(self).system,
                new_tree@.len() == i,
                forall|k: int|
                    0 <= k < i ==> (#[trigger] new_tree@[k]).start_token == parse_tree@[k].start_token
                        && selected(system, parse_tree@[k].expression, new_tree@[k].expression),
                extends_with(self.error_messages@, before, selection_errors_of(system, parse_tree@.take(i as int))),
            decreases parse_tree@.len() - i,
        {
            let node = &parse_tree[i];
            let ghost mid = self.error_messages@;
            proof {
                assert(parse_tree@.take(i + 1).drop_last() =~= parse_tree@.take(i as int));
                assert(parse_tree@.take(i + 1).last() == parse_tree@[i as int]);
            }
            let expression = self.select_expression(node);
            proof {
                lemma_extends_with_trans(
                    before,
                    mid,
                    self.error_messages@,
                    selection_errors_of(system, parse_tree@.take(i as int)),
                    at_token(selection_errors(system, node.expression), node.start_token),
                );
            }
            new_tree.push(ParseNode { start_token: node.start_token.clone(), expression });
            i = i + 1;
        }
        assert(parse_tree@.take(parse_tree@.len() as int) =~= parse_tree@);
        new_tree
    }
}

impl<'a> TreePass<'a> for InstructionToStatementPass<'a> {
    open spec fn error_list(&self) -> Seq<ErrorMessage> {
        self.error_messages@
    }

    fn has_errors(&self) -> (r: bool) {
        !self.error_messages.is_empty()
    }

    fn get_error_messages(&self) -> (r: &Vec<ErrorMessage>) {
        &self.error_messages
    }

    fn do_pass(&mut self, parse_tree: Vec<ParseNode<'a>>, symbol_table: &mut SymbolTable) -> (r: Vec<ParseNode<'a>>) {
        InstructionToStatementPass::do_pass(self, parse_tree, symbol_table)
    }
}

} // verus!
