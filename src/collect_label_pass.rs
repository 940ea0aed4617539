//! The first pass: walks the tree with a running address, records the
//! address of each label and drops the labels.
use vstd::prelude::*;
use crate::parser::{instruction_arguments, ErrorMessage, ParseArgument, ParseExpression, ParseNode};
use crate::pass::TreePass;
use crate::symbol_table::SymbolTable;
use crate::system_definition::{
    argument_size_to_byte_size, byte_size, find_instruction_argument_size, operand_size_from,
    AddressingMode, SystemDefinition,
};

verus! {

/// Bytes that an operand takes: a literal its own size, a label
/// `label_width`, a register none.
pub open spec fn argument_width(a: ParseArgument, label_width: nat) -> nat {
    match a {
        ParseArgument::NumberLiteral(n) => byte_size(n.argument_size),
        ParseArgument::Identifier(_) => label_width,
        ParseArgument::Register(_) => 0,
    }
}

pub open spec fn arguments_width(args: Seq<ParseArgument>, label_width: nat) -> nat
    decreases args.len(),
{
    if args.len() == 0 {
        0
    } else {
        arguments_width(args.drop_last(), label_width) + argument_width(args.last(), label_width)
    }
}

/// Bytes that the first pass counts for the label operand of a single
/// operand instruction `m`: the operand size of its relative form, else the
/// system's label size.
pub open spec fn single_label_width(system: SystemDefinition, m: Seq<char>) -> nat {
    match operand_size_from(system.instructions@, m, seq![AddressingMode::Relative], 0) {
        Some(s) => byte_size(s),
        None => byte_size(system.label_size),
    }
}

/// Bytes that the first pass counts for a label operand of `e`.
pub open spec fn label_operand_width<'a>(system: SystemDefinition, e: ParseExpression<'a>) -> nat {
    match e {
        ParseExpression::SingleArgumentInstruction(m, _) => single_label_width(system, m@),
        _ => byte_size(system.label_size),
    }
}

/// How far node `e` moves the running address: an instruction by its
/// opcode byte and operands, an `incbin` by the file size.
pub open spec fn address_advance<'a>(system: SystemDefinition, e: ParseExpression<'a>) -> u32 {
    match instruction_arguments(e) {
        Some(args) => (1 + arguments_width(args, label_operand_width(system, e))) as u32,
        None => match e {
            ParseExpression::IncBinStatement(_, size) => size as u32,
            _ => 0,
        },
    }
}

/// The running address after node `e`, from `pc` before it.
pub open spec fn next_address<'a>(system: SystemDefinition, pc: u32, e: ParseExpression<'a>) -> u32 {
    match e {
        ParseExpression::OriginStatement(n) => n.number,
        _ => pc.wrapping_add(address_advance(system, e)),
    }
}

/// The running address after `nodes`, from 0.
pub open spec fn address_after<'a>(system: SystemDefinition, nodes: Seq<ParseNode<'a>>) -> u32
    decreases nodes.len(),
{
    if nodes.len() == 0 {
        0
    } else {
        next_address(system, address_after(system, nodes.drop_last()), nodes.last().expression)
    }
}

/// `table` with each label of `nodes` set to the running address where it
/// stands; a later definition replaces an earlier one.
pub open spec fn labels_after<'a>(
    system: SystemDefinition,
    table: Map<Seq<char>, u32>,
    nodes: Seq<ParseNode<'a>>,
) -> Map<Seq<char>, u32>
    decreases nodes.len(),
{
    if nodes.len() == 0 {
        table
    } else {
        let before = labels_after(system, table, nodes.drop_last());
        match nodes.last().expression {
            ParseExpression::Label(name) => before.insert(name@, address_after(system, nodes.drop_last())),
            _ => before,
        }
    }
}

pub open spec fn is_label<'a>(e: ParseExpression<'a>) -> bool {
    e is Label
}

/// `nodes` without its labels, in order.
pub open spec fn without_labels<'a>(nodes: Seq<ParseNode<'a>>) -> Seq<ParseNode<'a>>
    decreases nodes.len(),
{
    if nodes.len() == 0 {
        nodes
    } else if is_label(nodes.last().expression) {
        without_labels(nodes.drop_last())
    } else {
        without_labels(nodes.drop_last()).push(nodes.last())
    }
}

/// Sum of `address_advance` over `nodes[lo..hi]`.
pub open spec fn advance_sum<'a>(system: SystemDefinition, nodes: Seq<ParseNode<'a>>, lo: int, hi: int) -> int
    decreases hi - lo,
{
    if hi <= lo {
        0
    } else {
        advance_sum(system, nodes, lo, hi - 1) + address_advance(system, nodes[hi - 1].expression) as int
    }
}

/// `nodes[i]` defines label `name`.
pub open spec fn defines_label<'a>(nodes: Seq<ParseNode<'a>>, i: int, name: Seq<char>) -> bool {
    0 <= i < nodes.len() && match nodes[i].expression {
        ParseExpression::Label(n) => n@ == name,
        _ => false,
    }
}

/// `nodes[i]` is the last definition of label `name`.
pub open spec fn last_definition<'a>(nodes: Seq<ParseNode<'a>>, i: int, name: Seq<char>) -> bool {
    &&& defines_label(nodes, i, name)
    &&& forall|k: int| i < k < nodes.len() ==> !defines_label(nodes, k, name)
}

proof fn lemma_wrapping_add(x: u32, y: u32)
    ensures
        x.wrapping_add(y) as int == (x as int + y as int) % 0x1_0000_0000,
{
    if x as int + y as int > u32::MAX {
        vstd::arithmetic::div_mod::lemma_fundamental_div_mod_converse(
            x as int + y as int,
            0x1_0000_0000,
            1,
            x as int + y as int - 0x1_0000_0000,
        );
    } else {
        vstd::arithmetic::div_mod::lemma_small_mod((x as int + y as int) as nat, 0x1_0000_0000);
    }
}

/// The label map of `nodes` holds the address where the last definition of
/// a label stands.
proof fn lemma_label_address<'a>(
    system: SystemDefinition,
    table: Map<Seq<char>, u32>,
    nodes: Seq<ParseNode<'a>>,
    i: int,
    name: Seq<char>,
)
    requires
        last_definition(nodes, i, name),
    ensures
        labels_after(system, table, nodes).contains_key(name),
        labels_after(system, table, nodes)[name] == address_after(system, nodes.take(i)),
    decreases nodes.len(),
{
    let init = nodes.drop_last();
    if i == nodes.len() - 1 {
        assert(nodes.take(i) =~= init);
    } else {
        assert(init.take(i) =~= nodes.take(i));
        assert forall|k: int| i < k < init.len() implies !defines_label(init, k, name) by {
            assert(!defines_label(nodes, k, name));
        }
        lemma_label_address(system, table, init, i, name);
        assert(!defines_label(nodes, nodes.len() - 1, name));
    }
}

/// Without an `origin` in `nodes[lo..hi]`, the running address moves by the
/// sum of their advances, modulo 2^32.
proof fn lemma_address_span<'a>(system: SystemDefinition, nodes: Seq<ParseNode<'a>>, lo: int, hi: int)
    requires
        0 <= lo <= hi <= nodes.len(),
        forall|k: int| lo <= k < hi ==> !(#[trigger] nodes[k].expression is OriginStatement),
    ensures
        address_after(system, nodes.take(hi)) as int == (address_after(system, nodes.take(lo)) as int
            + advance_sum(system, nodes, lo, hi)) % 0x1_0000_0000,
    decreases hi - lo,
{
    let a = address_after(system, nodes.take(lo)) as int;
    if hi == lo {
        vstd::arithmetic::div_mod::lemma_small_mod(a as nat, 0x1_0000_0000);
    } else {
        lemma_address_span(system, nodes, lo, hi - 1);
        assert(nodes.take(hi).drop_last() =~= nodes.take(hi - 1));
        let prev = address_after(system, nodes.take(hi - 1));
        let adv = address_advance(system, nodes[hi - 1].expression);
        lemma_wrapping_add(prev, adv);
        let s = advance_sum(system, nodes, lo, hi - 1);
        vstd::arithmetic::div_mod::lemma_add_mod_noop(a + s, adv as int, 0x1_0000_0000);
        vstd::arithmetic::div_mod::lemma_mod_twice(adv as int, 0x1_0000_0000);
        vstd::arithmetic::div_mod::lemma_small_mod(adv as nat, 0x1_0000_0000);
    }
}

/// Address conservation: where `l1` and `l2` are last defined at `i < j` and
/// no `origin` stands between them, the address of `l2` is that of `l1`
/// moved by the encoded length of everything between them, modulo 2^32.
pub proof fn lemma_label_distance<'a>(
    system: SystemDefinition,
    nodes: Seq<ParseNode<'a>>,
    i: int,
    j: int,
    l1: Seq<char>,
    l2: Seq<char>,
)
    requires
        i < j,
        last_definition(nodes, i, l1),
        last_definition(nodes, j, l2),
        forall|k: int| i < k < j ==> !(#[trigger] nodes[k].expression is OriginStatement),
    ensures
        ({
            let t = labels_after(system, Map::empty(), nodes);
            &&& t.contains_key(l1)
            &&& t.contains_key(l2)
            &&& t[l2] as int == (t[l1] as int + advance_sum(system, nodes, i + 1, j)) % 0x1_0000_0000
        }),
{
    lemma_label_address(system, Map::empty(), nodes, i, l1);
    lemma_label_address(system, Map::empty(), nodes, j, l2);
    lemma_address_span(system, nodes, i + 1, j);
    assert(nodes.take(i + 1).drop_last() =~= nodes.take(i));
    let a = address_after(system, nodes.take(i));
    assert(a.wrapping_add(0) == a);
}

/// The label map of `nodes` over `table` is `table` overridden by the label
/// map of `nodes` alone.
proof fn lemma_labels_override<'a>(system: SystemDefinition, table: Map<Seq<char>, u32>, nodes: Seq<ParseNode<'a>>)
    ensures
        labels_after(system, table, nodes) == table.union_prefer_right(labels_after(system, Map::empty(), nodes)),
    decreases nodes.len(),
{
    if nodes.len() > 0 {
        lemma_labels_override(system, table, nodes.drop_last());
        assert(labels_after(system, table, nodes) =~= table.union_prefer_right(
            labels_after(system, Map::empty(), nodes),
        ));
    } else {
        assert(labels_after(system, table, nodes) =~= table.union_prefer_right(Map::empty()));
    }
}

/// Collecting the labels of the same tree twice leaves the symbol table as
/// once.
pub proof fn lemma_collect_twice<'a>(system: SystemDefinition, table: Map<Seq<char>, u32>, nodes: Seq<ParseNode<'a>>)
    ensures
        labels_after(system, labels_after(system, table, nodes), nodes) == labels_after(system, table, nodes),
{
    let once = labels_after(system, table, nodes);
    lemma_labels_override(system, table, nodes);
    lemma_labels_override(system, once, nodes);
    let own = labels_after(system, Map::empty(), nodes);
    assert(once.union_prefer_right(own) =~= once);
}

pub struct CollectLabelPass<'a> {
    pub system: &'a SystemDefinition,
    pub error_messages: Vec<ErrorMessage>,
}

impl<'a> CollectLabelPass<'a> {
    pub fn new(system: &'a SystemDefinition) -> (r: Self)
        ensures
            r.system == system,
            r.error_messages@.len() == 0,
    {
        CollectLabelPass { system, error_messages: Vec::new() }
    }

    fn argument_width(&self, argument: &ParseArgument, label_width: u32) -> (r: u32)
        requires
            label_width <= 4,
        ensures
            r == argument_width(*argument, label_width as nat),
    {
        match argument {
            ParseArgument::NumberLiteral(number) => argument_size_to_byte_size(number.argument_size),
            ParseArgument::Identifier(_) => label_width,
            ParseArgument::Register(_) => 0,
        }
    }

    /// How far `expression` moves the running address.
    fn address_advance(&self, expression: &ParseExpression<'a>) -> (r: u32)
        ensures
            r == address_advance(*self.system, *expression),
    {
        let label_width = argument_size_to_byte_size(self.system.label_size);
        match expression {
            ParseExpression::ImpliedInstruction(_) => {
                proof { lemma_arguments_width(arbitrary(), arbitrary(), arbitrary(), label_width as nat); }
                1
            },
            ParseExpression::ImmediateInstruction(_, a) | ParseExpression::IndirectInstruction(_, a)
            | ParseExpression::IndirectLongInstruction(_, a) => {
                proof { lemma_arguments_width(*a, *a, *a, label_width as nat); }
                1 + self.argument_width(a, label_width)
            },
            ParseExpression::SingleArgumentInstruction(m, a) => {
                let width = self.find_instruction_argument_size(m);
                proof { lemma_arguments_width(*a, *a, *a, width as nat); }
                1 + self.argument_width(a, width)
            },
            ParseExpression::IndexedInstruction(_, a, b)
            | ParseExpression::IndexedIndirectInstruction(_, a, b)
            | ParseExpression::IndirectIndexedInstruction(_, a, b)
            | ParseExpression::IndirectIndexedLongInstruction(_, a, b)
            | ParseExpression::BlockMoveInstruction(_, a, b) => {
                proof { lemma_arguments_width(*a, *b, *b, label_width as nat); }
                1 + self.argument_width(a, label_width) + self.argument_width(b, label_width)
            },
            ParseExpression::StackRelativeIndirectIndexedInstruction(_, a, b, c) => {
                proof { lemma_arguments_width(*a, *b, *c, label_width as nat); }
                1 + self.argument_width(a, label_width) + self.argument_width(b, label_width)
                    + self.argument_width(c, label_width)
            },
            ParseExpression::IncBinStatement(_, size) => *size as u32,
            _ => 0,
        }
    }

    /// Records the address of each label of `parse_tree` in `symbol_table`
    /// and returns the other nodes unchanged.
    pub fn do_pass(&mut self, parse_tree: Vec<ParseNode<'a>>, symbol_table: &mut SymbolTable) -> (r: Vec<ParseNode<'a>>)
        requires
            old(symbol_table).wf(),
        ensures
            final(symbol_table).wf(),
            final(symbol_table)@ == labels_after(*old(self).system, old(symbol_table)@, parse_tree@),
            r@ == without_labels(parse_tree@),
            *final(self) == *old(self),
    {
        let mut new_tree: Vec<ParseNode<'a>> = Vec::new();
        let mut current_address: u32 = 0;
        let mut i: usize = 0;
        while i < parse_tree.len()
            invariant
                i <= parse_tree@.len(),
                symbol_table.wf(),
                current_address == address_after(*self.system, parse_tree@.take(i as int)),
                symbol_table@ == labels_after(*self.system, old(symbol_table)@, parse_tree@.take(i as int)),
                new_tree@ == without_labels(parse_tree@.take(i as int)),
                *self == *old(self),
            decreases parse_tree@.len() - i,
        {
            let node = &parse_tree[i];
            proof {
                assert(parse_tree@.take(i + 1).drop_last() =~= parse_tree@.take(i as int));
                assert(parse_tree@.take(i + 1).last() == parse_tree@[i as int]);
            }
            match &node.expression {
                ParseExpression::Label(label_name) => {
                    symbol_table.add_or_update_label(label_name.as_str(), current_address);
                },
                ParseExpression::OriginStatement(number) => {
                    current_address = number.number;
                    new_tree.push(node.clone());
                },
                _ => {
                    let advance = self.address_advance(&node.expression);
                    current_address = current_address.wrapping_add(advance);
                    new_tree.push(node.clone());
                },
            }
            i = i + 1;
        }
        assert(parse_tree@.take(parse_tree@.len() as int) =~= parse_tree@);
        new_tree
    }

    fn find_instruction_argument_size(&self, opcode_name: &String) -> (r: u32)
        ensures
            r == single_label_width(*self.system, opcode_name@),
    {
        let modes = [AddressingMode::Relative];
        assert(modes@ =~= seq![AddressingMode::Relative]);
        match find_instruction_argument_size(self.system, opcode_name, &modes) {
            Some(size) => argument_size_to_byte_size(size),
            None => argument_size_to_byte_size(self.system.label_size),
        }
    }
}


/// The width of up to three operands is the sum of their widths.
pub proof fn lemma_arguments_width(a: ParseArgument, b: ParseArgument, c: ParseArgument, w: nat)
    ensures
        arguments_width(seq![], w) == 0,
        arguments_width(seq![a], w) == argument_width(a, w),
        arguments_width(seq![a, b], w) == argument_width(a, w) + argument_width(b, w),
        arguments_width(seq![a, b, c], w) == argument_width(a, w) + argument_width(b, w)
            + argument_width(c, w),
{
    assert(seq![a, b, c].drop_last() =~= seq![a, b]);
    assert(seq![a, b].drop_last() =~= seq![a]);
    assert(seq![a].drop_last() =~= Seq::<ParseArgument>::empty());
    reveal_with_fuel(arguments_width, 4);
}

impl<'a> TreePass<'a> for CollectLabelPass<'a> {
    open spec fn error_list(&self) -> Seq<ErrorMessage> {
        self.error_messages@
    }

    fn has_errors(&self) -> (r: bool) {
        !self.error_messages.is_empty()
    }

    fn get_error_messages(&self) -> (r: &Vec<ErrorMessage>) {
        &self.error_messages
    }

    fn do_pass(&mut self, parse_tree: Vec<ParseNode<'a>>, symbol_table: &mut SymbolTable) -> (r: Vec<ParseNode<'a>>) {
        CollectLabelPass::do_pass(self, parse_tree, symbol_table)
    }
}

} // verus!
