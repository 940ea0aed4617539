//! The parse tree, and the recursive-descent parser that builds it.
use vstd::prelude::*;
use crate::lexer::{
    after_token, kind_after, kind_of, token_is, lemma_token_at, lemma_token_progress, push_char, text_after, token_start, Lexer, NumberLiteral, Token, TokenKind, TokenType,
};
use crate::system_definition::{InstructionInfo, SystemDefinition};

verus! {

/// An operand as written: a literal, a register name or a label name.
#[derive(Debug)]
pub enum ParseArgument {
    NumberLiteral(NumberLiteral),
    Register(String),
    Identifier(String),
}

impl Clone for ParseArgument {
    fn clone(&self) -> (r: Self)
        ensures
            r == *self,
    {
        match self {
            ParseArgument::NumberLiteral(n) => ParseArgument::NumberLiteral(*n),
            ParseArgument::Register(s) => ParseArgument::Register(s.clone()),
            ParseArgument::Identifier(s) => ParseArgument::Identifier(s.clone()),
        }
    }
}

/// An instruction bound to the opcode table entry that encodes it.
#[derive(Debug)]
pub enum FinalInstruction<'a> {
    ImpliedInstruction(&'a InstructionInfo),
    SingleArgumentInstruction(&'a InstructionInfo, ParseArgument),
    TwoArgumentInstruction(&'a InstructionInfo, ParseArgument, ParseArgument),
}

impl<'a> Clone for FinalInstruction<'a> {
    fn clone(&self) -> (r: Self)
        ensures
            r == *self,
    {
        match self {
            FinalInstruction::ImpliedInstruction(i) => FinalInstruction::ImpliedInstruction(*i),
            FinalInstruction::SingleArgumentInstruction(i, a) => {
                FinalInstruction::SingleArgumentInstruction(*i, a.clone())
            },
            FinalInstruction::TwoArgumentInstruction(i, a, b) => {
                FinalInstruction::TwoArgumentInstruction(*i, a.clone(), b.clone())
            },
        }
    }
}

/// The SNES cartridge memory maps.
#[derive(PartialEq, Eq, Structural, Clone, Copy, Debug)]
pub enum SnesMap {
    LoRom,
    HiRom,
}

/// A node of the parse tree. The instruction variants carry the mnemonic and
/// the operands of one syntactic form; `FinalInstruction` is what opcode
/// selection makes of them.
#[derive(Debug)]
pub enum ParseExpression<'a> {
    ImpliedInstruction(String),
    ImmediateInstruction(String, ParseArgument),
    SingleArgumentInstruction(String, ParseArgument),
    IndexedInstruction(String, ParseArgument, ParseArgument),
    IndirectInstruction(String, ParseArgument),
    IndirectLongInstruction(String, ParseArgument),
    IndexedIndirectInstruction(String, ParseArgument, ParseArgument),
    IndirectIndexedInstruction(String, ParseArgument, ParseArgument),
    IndirectIndexedLongInstruction(String, ParseArgument, ParseArgument),
    BlockMoveInstruction(String, ParseArgument, ParseArgument),
    StackRelativeIndirectIndexedInstruction(String, ParseArgument, ParseArgument, ParseArgument),
    FinalInstruction(FinalInstruction<'a>),
    Label(String),
    OriginStatement(NumberLiteral),
    SnesMapStatement(SnesMap),
    IncBinStatement(String, u64),
}

impl<'a> Clone for ParseExpression<'a> {
    fn clone(&self) -> (r: Self)
        ensures
            r == *self,
    {
        match self {
            ParseExpression::ImpliedInstruction(m) => ParseExpression::ImpliedInstruction(m.clone()),
            ParseExpression::ImmediateInstruction(m, a) => ParseExpression::ImmediateInstruction(m.clone(), a.clone()),
            ParseExpression::SingleArgumentInstruction(m, a) => ParseExpression::SingleArgumentInstruction(m.clone(), a.clone()),
            ParseExpression::IndexedInstruction(m, a, b) => ParseExpression::IndexedInstruction(m.clone(), a.clone(), b.clone()),
            ParseExpression::IndirectInstruction(m, a) => ParseExpression::IndirectInstruction(m.clone(), a.clone()),
            ParseExpression::IndirectLongInstruction(m, a) => ParseExpression::IndirectLongInstruction(m.clone(), a.clone()),
            ParseExpression::IndexedIndirectInstruction(m, a, b) => ParseExpression::IndexedIndirectInstruction(m.clone(), a.clone(), b.clone()),
            ParseExpression::IndirectIndexedInstruction(m, a, b) => ParseExpression::IndirectIndexedInstruction(m.clone(), a.clone(), b.clone()),
            ParseExpression::IndirectIndexedLongInstruction(m, a, b) => ParseExpression::IndirectIndexedLongInstruction(m.clone(), a.clone(), b.clone()),
            ParseExpression::BlockMoveInstruction(m, a, b) => ParseExpression::BlockMoveInstruction(m.clone(), a.clone(), b.clone()),
            ParseExpression::StackRelativeIndirectIndexedInstruction(m, a, b, c) => ParseExpression::StackRelativeIndirectIndexedInstruction(m.clone(), a.clone(), b.clone(), c.clone()),
            ParseExpression::FinalInstruction(f) => ParseExpression::FinalInstruction(f.clone()),
            ParseExpression::Label(s) => ParseExpression::Label(s.clone()),
            ParseExpression::OriginStatement(n) => ParseExpression::OriginStatement(*n),
            ParseExpression::SnesMapStatement(m) => ParseExpression::SnesMapStatement(*m),
            ParseExpression::IncBinStatement(s, n) => ParseExpression::IncBinStatement(s.clone(), *n),
        }
    }
}

/// A parse tree node with the token that starts it.
#[derive(Debug)]
pub struct ParseNode<'a> {
    pub start_token: Token,
    pub expression: ParseExpression<'a>,
}

impl<'a> Clone for ParseNode<'a> {
    fn clone(&self) -> (r: Self)
        ensures
            r == *self,
    {
        ParseNode { start_token: self.start_token.clone(), expression: self.expression.clone() }
    }
}

#[derive(PartialEq, Eq, Structural, Clone, Copy, Debug)]
pub enum ErrorSeverity {
    Error,
    Warning,
}

/// A diagnostic: its text, the token that it is about, and its severity.
#[derive(Debug)]
pub struct ErrorMessage {
    pub message: String,
    pub token: Token,
    pub severity: ErrorSeverity,
}

/// The operands of an instruction node, in source order; `None` for a node
/// that is no instruction as written.
pub open spec fn instruction_arguments<'a>(e: ParseExpression<'a>) -> Option<Seq<ParseArgument>> {
    match e {
        ParseExpression::ImpliedInstruction(_) => Some(seq![]),
        ParseExpression::ImmediateInstruction(_, a) => Some(seq![a]),
        ParseExpression::SingleArgumentInstruction(_, a) => Some(seq![a]),
        ParseExpression::IndexedInstruction(_, a, b) => Some(seq![a, b]),
        ParseExpression::IndirectInstruction(_, a) => Some(seq![a]),
        ParseExpression::IndirectLongInstruction(_, a) => Some(seq![a]),
        ParseExpression::IndexedIndirectInstruction(_, a, b) => Some(seq![a, b]),
        ParseExpression::IndirectIndexedInstruction(_, a, b) => Some(seq![a, b]),
        ParseExpression::IndirectIndexedLongInstruction(_, a, b) => Some(seq![a, b]),
        ParseExpression::BlockMoveInstruction(_, a, b) => Some(seq![a, b]),
        ParseExpression::StackRelativeIndirectIndexedInstruction(_, a, b, c) => Some(seq![a, b, c]),
        _ => None,
    }
}

/// The mnemonic of an instruction node as written.
pub open spec fn instruction_mnemonic<'a>(e: ParseExpression<'a>) -> Seq<char> {
    match e {
        ParseExpression::ImpliedInstruction(m) => m@,
        ParseExpression::ImmediateInstruction(m, _) => m@,
        ParseExpression::SingleArgumentInstruction(m, _) => m@,
        ParseExpression::IndexedInstruction(m, _, _) => m@,
        ParseExpression::IndirectInstruction(m, _) => m@,
        ParseExpression::IndirectLongInstruction(m, _) => m@,
        ParseExpression::IndexedIndirectInstruction(m, _, _) => m@,
        ParseExpression::IndirectIndexedInstruction(m, _, _) => m@,
        ParseExpression::IndirectIndexedLongInstruction(m, _, _) => m@,
        ParseExpression::BlockMoveInstruction(m, _, _) => m@,
        ParseExpression::StackRelativeIndirectIndexedInstruction(m, _, _, _) => m@,
        _ => Seq::empty(),
    }
}

/// Instruction node `e` with its operands replaced by `args`.
pub open spec fn with_arguments<'a>(e: ParseExpression<'a>, args: Seq<ParseArgument>) -> ParseExpression<'a> {
    match e {
        ParseExpression::ImpliedInstruction(m) => ParseExpression::ImpliedInstruction(m),
        ParseExpression::ImmediateInstruction(m, _) => ParseExpression::ImmediateInstruction(m, args[0]),
        ParseExpression::SingleArgumentInstruction(m, _) => ParseExpression::SingleArgumentInstruction(m, args[0]),
        ParseExpression::IndexedInstruction(m, _, _) => ParseExpression::IndexedInstruction(m, args[0], args[1]),
        ParseExpression::IndirectInstruction(m, _) => ParseExpression::IndirectInstruction(m, args[0]),
        ParseExpression::IndirectLongInstruction(m, _) => ParseExpression::IndirectLongInstruction(m, args[0]),
        ParseExpression::IndexedIndirectInstruction(m, _, _) => ParseExpression::IndexedIndirectInstruction(m, args[0], args[1]),
        ParseExpression::IndirectIndexedInstruction(m, _, _) => ParseExpression::IndirectIndexedInstruction(m, args[0], args[1]),
        ParseExpression::IndirectIndexedLongInstruction(m, _, _) => ParseExpression::IndirectIndexedLongInstruction(m, args[0], args[1]),
        ParseExpression::BlockMoveInstruction(m, _, _) => ParseExpression::BlockMoveInstruction(m, args[0], args[1]),
        ParseExpression::StackRelativeIndirectIndexedInstruction(m, _, _, _) => ParseExpression::StackRelativeIndirectIndexedInstruction(m, args[0], args[1], args[2]),
        _ => e,
    }
}

impl<'a> ParseExpression<'a> {
    /// The mnemonic and the operands of an instruction node as written.
    pub fn instruction_parts(&self) -> (r: Option<(String, Vec<ParseArgument>)>)
        ensures
            match r {
                Some(parts) => instruction_arguments(*self) == Some(parts.1@) && parts.0@
                    == instruction_mnemonic(*self),
                None => instruction_arguments(*self) is None,
            },
    {
        match self {
            ParseExpression::ImpliedInstruction(m) => Some((m.clone(), vec![])),
            ParseExpression::ImmediateInstruction(m, a) => Some((m.clone(), vec![a.clone()])),
            ParseExpression::SingleArgumentInstruction(m, a) => Some((m.clone(), vec![a.clone()])),
            ParseExpression::IndexedInstruction(m, a, b) => Some((m.clone(), vec![a.clone(), b.clone()])),
            ParseExpression::IndirectInstruction(m, a) => Some((m.clone(), vec![a.clone()])),
            ParseExpression::IndirectLongInstruction(m, a) => Some((m.clone(), vec![a.clone()])),
            ParseExpression::IndexedIndirectInstruction(m, a, b) => Some((m.clone(), vec![a.clone(), b.clone()])),
            ParseExpression::IndirectIndexedInstruction(m, a, b) => Some((m.clone(), vec![a.clone(), b.clone()])),
            ParseExpression::IndirectIndexedLongInstruction(m, a, b) => Some((m.clone(), vec![a.clone(), b.clone()])),
            ParseExpression::BlockMoveInstruction(m, a, b) => Some((m.clone(), vec![a.clone(), b.clone()])),
            ParseExpression::StackRelativeIndirectIndexedInstruction(m, a, b, c) => Some((m.clone(), vec![a.clone(), b.clone(), c.clone()])),
            _ => None,
        }
    }

    /// This instruction node with its operands replaced by `args`.
    pub fn with_arguments(&self, args: Vec<ParseArgument>) -> (r: ParseExpression<'a>)
        requires
            instruction_arguments(*self) is Some,
            args@.len() == instruction_arguments(*self)->0.len(),
        ensures
            r == with_arguments(*self, args@),
    {
        let ghost given = args@;
        let mut args = args;
        match self {
            ParseExpression::ImpliedInstruction(m) => ParseExpression::ImpliedInstruction(m.clone()),
            ParseExpression::ImmediateInstruction(m, _) => {
                let a = args.pop().unwrap();
                ParseExpression::ImmediateInstruction(m.clone(), a)
            },
            ParseExpression::SingleArgumentInstruction(m, _) => {
                let a = args.pop().unwrap();
                ParseExpression::SingleArgumentInstruction(m.clone(), a)
            },
            ParseExpression::IndexedInstruction(m, _, _) => {
                let b = args.pop().unwrap();
                let a = args.pop().unwrap();
                ParseExpression::IndexedInstruction(m.clone(), a, b)
            },
            ParseExpression::IndirectInstruction(m, _) => {
                let a = args.pop().unwrap();
                ParseExpression::IndirectInstruction(m.clone(), a)
            },
            ParseExpression::IndirectLongInstruction(m, _) => {
                let a = args.pop().unwrap();
                ParseExpression::IndirectLongInstruction(m.clone(), a)
            },
            ParseExpression::IndexedIndirectInstruction(m, _, _) => {
                let b = args.pop().unwrap();
                let a = args.pop().unwrap();
                ParseExpression::IndexedIndirectInstruction(m.clone(), a, b)
            },
            ParseExpression::IndirectIndexedInstruction(m, _, _) => {
                let b = args.pop().unwrap();
                let a = args.pop().unwrap();
                ParseExpression::IndirectIndexedInstruction(m.clone(), a, b)
            },
            ParseExpression::IndirectIndexedLongInstruction(m, _, _) => {
                let b = args.pop().unwrap();
                let a = args.pop().unwrap();
                ParseExpression::IndirectIndexedLongInstruction(m.clone(), a, b)
            },
            ParseExpression::BlockMoveInstruction(m, _, _) => {
                let b = args.pop().unwrap();
                let a = args.pop().unwrap();
                ParseExpression::BlockMoveInstruction(m.clone(), a, b)
            },
            ParseExpression::StackRelativeIndirectIndexedInstruction(m, _, _, _) => {
                let c = args.pop().unwrap();
                let b = args.pop().unwrap();
                let a = args.pop().unwrap();
                ParseExpression::StackRelativeIndirectIndexedInstruction(m.clone(), a, b, c)
            },
            _ => self.clone(),
        }
    }
}

/// `error` is an error with the text and token of `expected`.
pub open spec fn error_is(error: ErrorMessage, expected: (Seq<char>, Token)) -> bool {
    &&& error.message@ == expected.0
    &&& error.token == expected.1
    &&& error.severity == ErrorSeverity::Error
}

/// `new` is `old` followed by errors with the texts and tokens of `expected`.
pub open spec fn extends_with(new: Seq<ErrorMessage>, old: Seq<ErrorMessage>, expected: Seq<(Seq<char>, Token)>) -> bool {
    &&& new.len() == old.len() + expected.len()
    &&& forall|k: int| 0 <= k < old.len() ==> new[k] == old[k]
    &&& forall|k: int| 0 <= k < expected.len() ==> error_is(#[trigger] new[old.len() + k], expected[k])
}

pub proof fn lemma_extends_with_trans(
    a: Seq<ErrorMessage>,
    b: Seq<ErrorMessage>,
    c: Seq<ErrorMessage>,
    e1: Seq<(Seq<char>, Token)>,
    e2: Seq<(Seq<char>, Token)>,
)
    requires
        extends_with(b, a, e1),
        extends_with(c, b, e2),
    ensures
        extends_with(c, a, e1 + e2),
{
    assert forall|k: int| 0 <= k < (e1 + e2).len() implies error_is(#[trigger] c[a.len() + k], (e1 + e2)[k]) by {
        if k < e1.len() {
            assert(c[a.len() + k] == b[a.len() + k]);
        } else {
            assert(c[b.len() + (k - e1.len())] == c[a.len() + k]);
        }
    }
}

pub proof fn lemma_extends_with_nothing(a: Seq<ErrorMessage>)
    ensures
        extends_with(a, a, seq![]),
{
}

/// `texts`, each paired with `token`.
pub open spec fn at_token(texts: Seq<Seq<char>>, token: Token) -> Seq<(Seq<char>, Token)> {
    texts.map_values(|t: Seq<char>| (t, token))
}

/// An error about `token`.
pub fn error_at(message: String, token: &Token) -> (r: ErrorMessage)
    ensures
        r.message@ == message@,
        r.token == *token,
        r.severity == ErrorSeverity::Error,
{
    ErrorMessage { message, token: token.clone(), severity: ErrorSeverity::Error }
}

/// The text `a`, then `b`, `c`, `d` and `e`.
pub fn text5(a: &str, b: &str, c: &str, d: &str, e: &str) -> (r: String)
    ensures
        r@ == a@ + b@ + c@ + d@ + e@,
{
    text3(a, b, c).concat(d).concat(e)
}

/// The text `a`, then `b`, then `c`.
pub fn text3(a: &str, b: &str, c: &str) -> (r: String)
    ensures
        r@ == a@ + b@ + c@,
{
    a.to_owned().concat(b).concat(c)
}

/// What kind of file a directive asks for.
#[derive(PartialEq, Eq, Structural, Clone, Copy, Debug)]
pub enum FileKind {
    Include,
    Incbin,
}

/// A file that the parser needs before it can go on: `filename` as written
/// after `include` or `incbin` in `including_file`, at `token`.
#[derive(Debug)]
pub struct FileRequest {
    pub kind: FileKind,
    pub including_file: String,
    pub filename: String,
    pub token: Token,
}

/// Where a call of `Parser::parse_tree` stopped: at the end of the input,
/// with the whole tree, or at a directive that names a file.
#[derive(Debug)]
pub enum ParseStep<'a> {
    Finished(Vec<ParseNode<'a>>),
    NeedsFile(FileRequest),
}

/// The outcome of one grammar rule: nothing of its kind here, the end of
/// the file, an error already reported, what it parsed, or a file that it
/// needs.
enum ParseResult<T> {
    Nothing,
    Done,
    Failed,
    Parsed(T),
    Request(FileRequest),
}

/// `m` if `word` names a memory map.
pub open spec fn snesmap_of(word: Seq<char>) -> Option<SnesMap> {
    if word == "lorom"@ {
        Some(SnesMap::LoRom)
    } else if word == "hirom"@ {
        Some(SnesMap::HiRom)
    } else {
        None
    }
}


/// An operand as the grammar reads it.
pub enum ArgModel {
    Number(NumberLiteral),
    Register(Seq<char>),
    Identifier(Seq<char>),
}

/// A node as the grammar reads it.
pub enum ExprModel {
    Implied(Seq<char>),
    Immediate(Seq<char>, ArgModel),
    SingleArgument(Seq<char>, ArgModel),
    Indexed(Seq<char>, ArgModel, ArgModel),
    Indirect(Seq<char>, ArgModel),
    IndirectLong(Seq<char>, ArgModel),
    IndexedIndirect(Seq<char>, ArgModel, ArgModel),
    IndirectIndexed(Seq<char>, ArgModel, ArgModel),
    IndirectIndexedLong(Seq<char>, ArgModel, ArgModel),
    BlockMove(Seq<char>, ArgModel, ArgModel),
    StackRelativeIndirectIndexed(Seq<char>, ArgModel, ArgModel, ArgModel),
    Label(Seq<char>),
    Origin(NumberLiteral),
    SnesMapStatement(SnesMap),
}

/// Where an error of a grammar rule points: at the token that the rule was
/// given (the mnemonic, label or keyword before it), or at the token that
/// starts at an offset.
pub enum ErrorAt {
    Anchor,
    Offset(int),
}

/// What a grammar rule makes of the tokens from a position: nothing of its
/// kind, the end of the file, an error with its text, what it read, or a request for the
/// file named by a directive.
pub enum Outcome<T> {
    Nothing,
    Done,
    Failed(Seq<char>, ErrorAt),
    Parsed(T),
    Request(FileKind, Seq<char>),
}

/// Operand `a` as the grammar reads it.
pub open spec fn model_of_arg(a: ParseArgument) -> ArgModel {
    match a {
        ParseArgument::NumberLiteral(n) => ArgModel::Number(n),
        ParseArgument::Register(s) => ArgModel::Register(s@),
        ParseArgument::Identifier(s) => ArgModel::Identifier(s@),
    }
}

pub open spec fn arg_matches(a: ParseArgument, m: ArgModel) -> bool {
    match (a, m) {
        (ParseArgument::NumberLiteral(n), ArgModel::Number(k)) => n == k,
        (ParseArgument::Register(s), ArgModel::Register(t)) => s@ == t,
        (ParseArgument::Identifier(s), ArgModel::Identifier(t)) => s@ == t,
        _ => false,
    }
}

pub open spec fn expr_matches<'a>(e: ParseExpression<'a>, m: ExprModel) -> bool {
    match (e, m) {
        (ParseExpression::ImpliedInstruction(o), ExprModel::Implied(n)) => o@ == n,
        (ParseExpression::ImmediateInstruction(o, a), ExprModel::Immediate(n, x)) => o@ == n && arg_matches(a, x),
        (ParseExpression::SingleArgumentInstruction(o, a), ExprModel::SingleArgument(n, x)) => o@ == n && arg_matches(a, x),
        (ParseExpression::IndexedInstruction(o, a, b), ExprModel::Indexed(n, x, y)) => o@ == n && arg_matches(a, x)
            && arg_matches(b, y),
        (ParseExpression::IndirectInstruction(o, a), ExprModel::Indirect(n, x)) => o@ == n && arg_matches(a, x),
        (ParseExpression::IndirectLongInstruction(o, a), ExprModel::IndirectLong(n, x)) => o@ == n && arg_matches(a, x),
        (ParseExpression::IndexedIndirectInstruction(o, a, b), ExprModel::IndexedIndirect(n, x, y)) => o@ == n
            && arg_matches(a, x) && arg_matches(b, y),
        (ParseExpression::IndirectIndexedInstruction(o, a, b), ExprModel::IndirectIndexed(n, x, y)) => o@ == n
            && arg_matches(a, x) && arg_matches(b, y),
        (ParseExpression::IndirectIndexedLongInstruction(o, a, b), ExprModel::IndirectIndexedLong(n, x, y)) => o@ == n
            && arg_matches(a, x) && arg_matches(b, y),
        (ParseExpression::BlockMoveInstruction(o, a, b), ExprModel::BlockMove(n, x, y)) => o@ == n && arg_matches(a, x)
            && arg_matches(b, y),
        (
            ParseExpression::StackRelativeIndirectIndexedInstruction(o, a, b, c),
            ExprModel::StackRelativeIndirectIndexed(n, x, y, z),
        ) => o@ == n && arg_matches(a, x) && arg_matches(b, y) && arg_matches(c, z),
        (ParseExpression::Label(o), ExprModel::Label(n)) => o@ == n,
        (ParseExpression::OriginStatement(o), ExprModel::Origin(n)) => o == n,
        (ParseExpression::SnesMapStatement(o), ExprModel::SnesMapStatement(n)) => o == n,
        _ => false,
    }
}

/// The text of the error about invalid character `ch`.
pub open spec fn invalid_text(ch: char) -> Seq<char> {
    "Invalid token '"@ + seq![ch] + "' found."@
}

/// argument : NUMBER | REGISTER | IDENTIFIER, from `p`; an identifier
/// followed by a colon is a label, and is none.
pub open spec fn argument_rule(system: SystemDefinition, c: Seq<char>, p: int) -> (Outcome<ArgModel>, int) {
    let next = after_token(c, p);
    match kind_after(system, c, p) {
        TokenKind::NumberLiteral(n) => (Outcome::Parsed(ArgModel::Number(n)), next),
        TokenKind::Register => (Outcome::Parsed(ArgModel::Register(text_after(system, c, p))), next),
        TokenKind::Identifier => if kind_after(system, c, next) == TokenKind::Colon {
            (Outcome::Nothing, p)
        } else {
            (Outcome::Parsed(ArgModel::Identifier(text_after(system, c, p))), next)
        },
        TokenKind::Opcode | TokenKind::KeywordInclude | TokenKind::KeywordIncbin | TokenKind::KeywordOrigin
        | TokenKind::KeywordSnesMap => (Outcome::Nothing, p),
        TokenKind::EndOfFile => (Outcome::Done, p),
        TokenKind::Invalid(ch) => (Outcome::Failed(invalid_text(ch), ErrorAt::Offset(token_start(c, p))), next),
        _ => (Outcome::Failed("A number literal or register was expected here."@, ErrorAt::Offset(token_start(c, p))), next),
    }
}

/// A register operand from `p`, where one is required.
pub open spec fn register_rule(system: SystemDefinition, c: Seq<char>, p: int) -> (Outcome<ArgModel>, int) {
    let (a, e) = argument_rule(system, c, p);
    match a {
        Outcome::Parsed(x) => (Outcome::Parsed(x), e),
        Outcome::Done => (Outcome::Done, e),
        Outcome::Failed(t, at) => (Outcome::Failed(t, at), e),
        _ => (Outcome::Failed("register expected as argument."@, ErrorAt::Anchor), e),
    }
}

/// The operand of mnemonic `m` after '#' at `p`.
#[verifier::opaque]
pub open spec fn immediate_rule(system: SystemDefinition, c: Seq<char>, p: int, m: Seq<char>) -> (Outcome<ExprModel>, int) {
    let (a, e) = argument_rule(system, c, after_token(c, p));
    match a {
        Outcome::Parsed(x) => (Outcome::Parsed(ExprModel::Immediate(m, x)), e),
        Outcome::Done => (Outcome::Done, e),
        Outcome::Failed(t, at) => (Outcome::Failed(t, at), e),
        _ => (Outcome::Failed("number expected as argument."@, ErrorAt::Anchor), e),
    }
}

/// The operand after the comma at `p` of an indexed or block move form of
/// mnemonic `m` whose first operand is `x`.
#[verifier::opaque]
pub open spec fn second_rule(system: SystemDefinition, c: Seq<char>, p: int, m: Seq<char>, x: ArgModel) -> (Outcome<ExprModel>, int) {
    let (a, e) = argument_rule(system, c, p);
    match kind_after(system, c, p) {
        TokenKind::Register => match a {
            Outcome::Parsed(y) => (Outcome::Parsed(ExprModel::Indexed(m, x, y)), e),
            Outcome::Done => (Outcome::Done, e),
            Outcome::Failed(t, at) => (Outcome::Failed(t, at), e),
            _ => (Outcome::Failed("expected register or register as second argument."@, ErrorAt::Anchor), e),
        },
        TokenKind::NumberLiteral(_) => match a {
            Outcome::Parsed(y) => (Outcome::Parsed(ExprModel::BlockMove(m, x, y)), e),
            Outcome::Done => (Outcome::Done, e),
            Outcome::Failed(t, at) => (Outcome::Failed(t, at), e),
            _ => (Outcome::Failed("expected number or register as second argument."@, ErrorAt::Anchor), e),
        },
        _ => (Outcome::Failed("expected number or register as second argument."@, ErrorAt::Anchor), after_token(c, p)),
    }
}

/// After `( x )` of mnemonic `m`, at `p`: an optional `, register`.
#[verifier::opaque]
pub open spec fn after_paren_rule(system: SystemDefinition, c: Seq<char>, p: int, m: Seq<char>, x: ArgModel) -> (Outcome<ExprModel>, int) {
    if kind_after(system, c, p) == TokenKind::Comma {
        let (b, e) = register_rule(system, c, after_token(c, p));
        match b {
            Outcome::Parsed(y) => (Outcome::Parsed(ExprModel::IndirectIndexed(m, x, y)), e),
            Outcome::Done => (Outcome::Done, e),
            Outcome::Failed(t, at) => (Outcome::Failed(t, at), e),
            _ => (Outcome::Failed(seq![], ErrorAt::Anchor), e),
        }
    } else {
        (Outcome::Parsed(ExprModel::Indirect(m, x)), p)
    }
}

/// After `( x ,` of mnemonic `m`, at `p`: `register )`, then an optional
/// `, register`; `paren` is where the `(` starts.
#[verifier::opaque]
pub open spec fn paren_comma_rule(
    system: SystemDefinition,
    c: Seq<char>,
    p: int,
    m: Seq<char>,
    x: ArgModel,
    paren: int,
) -> (Outcome<ExprModel>, int) {
    let (b, e) = register_rule(system, c, p);
    match b {
        Outcome::Parsed(y) => if kind_after(system, c, e) == TokenKind::RightParen {
            let e2 = after_token(c, e);
            if kind_after(system, c, e2) == TokenKind::Comma {
                let (z, e3) = register_rule(system, c, after_token(c, e2));
                match z {
                    Outcome::Parsed(w) => (Outcome::Parsed(ExprModel::StackRelativeIndirectIndexed(m, x, y, w)), e3),
                    Outcome::Done => (Outcome::Done, e3),
                    Outcome::Failed(t, at) => (Outcome::Failed(t, at), e3),
                    _ => (Outcome::Failed(seq![], ErrorAt::Anchor), e3),
                }
            } else {
                (Outcome::Parsed(ExprModel::IndexedIndirect(m, x, y)), e2)
            }
        } else {
            (Outcome::Failed("no closing parenthesis found."@, ErrorAt::Offset(paren)), e)
        },
        Outcome::Done => (Outcome::Done, e),
        Outcome::Failed(t, at) => (Outcome::Failed(t, at), e),
        _ => (Outcome::Failed(seq![], ErrorAt::Anchor), e),
    }
}

/// The forms of mnemonic `m` that open with '(' at `p`.
#[verifier::opaque]
pub open spec fn indirect_rule(system: SystemDefinition, c: Seq<char>, p: int, m: Seq<char>) -> (Outcome<ExprModel>, int) {
    let (a, e) = argument_rule(system, c, after_token(c, p));
    match a {
        Outcome::Parsed(x) => match kind_after(system, c, e) {
            TokenKind::RightParen => after_paren_rule(system, c, after_token(c, e), m, x),
            TokenKind::Comma => paren_comma_rule(system, c, after_token(c, e), m, x, token_start(c, p)),
            _ => (Outcome::Failed("no closing parenthesis found."@, ErrorAt::Offset(token_start(c, p))), e),
        },
        Outcome::Done => (Outcome::Done, e),
        Outcome::Failed(t, at) => (Outcome::Failed(t, at), e),
        _ => (Outcome::Failed("number expected as argument."@, ErrorAt::Anchor), e),
    }
}

/// The forms of mnemonic `m` that open with '[' at `p`.
#[verifier::opaque]
pub open spec fn indirect_long_rule(system: SystemDefinition, c: Seq<char>, p: int, m: Seq<char>) -> (Outcome<ExprModel>, int) {
    let (a, e) = argument_rule(system, c, after_token(c, p));
    match a {
        Outcome::Parsed(x) => if kind_after(system, c, e) == TokenKind::RightBracket {
            let e2 = after_token(c, e);
            if kind_after(system, c, e2) == TokenKind::Comma {
                let (b, e3) = register_rule(system, c, after_token(c, e2));
                match b {
                    Outcome::Parsed(y) => (Outcome::Parsed(ExprModel::IndirectIndexedLong(m, x, y)), e3),
                    Outcome::Done => (Outcome::Done, e3),
                    Outcome::Failed(t, at) => (Outcome::Failed(t, at), e3),
                    _ => (Outcome::Failed(seq![], ErrorAt::Anchor), e3),
                }
            } else {
                (Outcome::Parsed(ExprModel::IndirectLong(m, x)), e2)
            }
        } else {
            (Outcome::Failed("no closing bracket found."@, ErrorAt::Offset(token_start(c, p))), e)
        },
        Outcome::Done => (Outcome::Done, e),
        Outcome::Failed(t, at) => (Outcome::Failed(t, at), e),
        _ => (Outcome::Failed("number expected as argument."@, ErrorAt::Anchor), e),
    }
}

/// The instruction of mnemonic `m` whose operands start at `p`.
pub open spec fn instruction_rule(system: SystemDefinition, c: Seq<char>, p: int, m: Seq<char>) -> (Outcome<ExprModel>, int) {
    match kind_after(system, c, p) {
        TokenKind::Immediate => immediate_rule(system, c, p, m),
        TokenKind::LeftParen => indirect_rule(system, c, p, m),
        TokenKind::LeftBracket => indirect_long_rule(system, c, p, m),
        _ => plain_rule(system, c, p, m),
    }
}

/// The forms of mnemonic `m` without '#', '(' or '[' at `p`: none, one
/// operand, or two separated by a comma.
#[verifier::opaque]
pub open spec fn plain_rule(system: SystemDefinition, c: Seq<char>, p: int, m: Seq<char>) -> (Outcome<ExprModel>, int) {
    let (a, e) = argument_rule(system, c, p);
    match a {
        Outcome::Parsed(x) => if kind_after(system, c, e) == TokenKind::Comma {
            second_rule(system, c, after_token(c, e), m, x)
        } else {
            (Outcome::Parsed(ExprModel::SingleArgument(m, x)), e)
        },
        Outcome::Nothing | Outcome::Done => (Outcome::Parsed(ExprModel::Implied(m)), e),
        Outcome::Failed(t, at) => (Outcome::Failed(t, at), e),
        _ => (Outcome::Failed(seq![], ErrorAt::Anchor), e),
    }
}

/// The colon after label `name`, at `p`.
pub open spec fn label_rule(system: SystemDefinition, c: Seq<char>, p: int, name: Seq<char>) -> (Outcome<ExprModel>, int) {
    if kind_after(system, c, p) == TokenKind::Colon {
        (Outcome::Parsed(ExprModel::Label(name)), after_token(c, p))
    } else {
        (Outcome::Failed("Expected a colon after this identifier."@, ErrorAt::Anchor), p)
    }
}

/// The number after `origin`, at `p`.
pub open spec fn origin_rule(system: SystemDefinition, c: Seq<char>, p: int) -> (Outcome<ExprModel>, int) {
    match kind_after(system, c, p) {
        TokenKind::NumberLiteral(n) => (Outcome::Parsed(ExprModel::Origin(n)), after_token(c, p)),
        TokenKind::Invalid(ch) => (Outcome::Failed(invalid_text(ch), ErrorAt::Offset(token_start(c, p))), after_token(c, p)),
        TokenKind::EndOfFile => (Outcome::Done, p),
        _ => (Outcome::Failed("Expected a number literal after origin keyword."@, ErrorAt::Anchor), p),
    }
}

/// The map name after `snesmap`, at `p`.
pub open spec fn snesmap_rule(system: SystemDefinition, c: Seq<char>, p: int) -> (Outcome<ExprModel>, int) {
    match kind_after(system, c, p) {
        TokenKind::Identifier => match snesmap_of(text_after(system, c, p)) {
            Some(map) => (Outcome::Parsed(ExprModel::SnesMapStatement(map)), after_token(c, p)),
            None => (Outcome::Failed("Expected lorom or hirom as argument to snesmap."@, ErrorAt::Anchor), after_token(c, p)),
        },
        TokenKind::Invalid(ch) => (Outcome::Failed(invalid_text(ch), ErrorAt::Offset(token_start(c, p))), after_token(c, p)),
        TokenKind::EndOfFile => (Outcome::Done, p),
        _ => (Outcome::Failed("Expected lorom or hirom as argument to snesmap."@, ErrorAt::Anchor), p),
    }
}

/// The file name after `include` or `incbin`, at `p`.
pub open spec fn file_rule(system: SystemDefinition, c: Seq<char>, p: int, kind: FileKind) -> (Outcome<ExprModel>, int) {
    match kind_after(system, c, p) {
        TokenKind::StringLiteral => (Outcome::Request(kind, text_after(system, c, p)), after_token(c, p)),
        TokenKind::Invalid(ch) => (Outcome::Failed(invalid_text(ch), ErrorAt::Offset(token_start(c, p))), after_token(c, p)),
        TokenKind::EndOfFile => (Outcome::Done, p),
        _ => (Outcome::Failed(if kind == FileKind::Include {
            "Expected a string literal as argument to include"@
        } else {
            "Expected a string literal as argument to incbin"@
        }, ErrorAt::Anchor), p),
    }
}

/// `o` with an error at the rule's anchor pointed at the token at `start`.
pub open spec fn anchored(o: Outcome<ExprModel>, start: int) -> Outcome<ExprModel> {
    match o {
        Outcome::Failed(t, ErrorAt::Anchor) => Outcome::Failed(t, ErrorAt::Offset(start)),
        _ => o,
    }
}

/// root : (cpu_instruction | label | directive)*: one statement from `p`.
pub open spec fn statement_rule(system: SystemDefinition, c: Seq<char>, p: int) -> (Outcome<ExprModel>, int) {
    let q = after_token(c, p);
    let (o, e) = match kind_after(system, c, p) {
        TokenKind::EndOfFile => (Outcome::Done, q),
        TokenKind::Opcode => instruction_rule(system, c, q, text_after(system, c, p)),
        TokenKind::Identifier => label_rule(system, c, q, text_after(system, c, p)),
        TokenKind::KeywordInclude => file_rule(system, c, q, FileKind::Include),
        TokenKind::KeywordIncbin => file_rule(system, c, q, FileKind::Incbin),
        TokenKind::KeywordOrigin => origin_rule(system, c, q),
        TokenKind::KeywordSnesMap => snesmap_rule(system, c, q),
        TokenKind::Invalid(ch) => (Outcome::Failed(invalid_text(ch), ErrorAt::Offset(token_start(c, p))), q),
        _ => (Outcome::Failed("unexpected token found."@, ErrorAt::Offset(token_start(c, p))), q),
    };
    (anchored(o, token_start(c, p)), e)
}

/// What a run of `Parser::parse_tree` reads: the statements, its errors
/// (each a text, the index of its file and the offset of its token there),
/// and the file it stopped for, if any.
pub struct ParseRun {
    pub nodes: Seq<ExprModel>,
    pub errors: Seq<(Seq<char>, int, int)>,
    pub request: Option<(FileKind, Seq<char>)>,
}

/// The statement and the error that outcome `o`, read in file `file`, adds
/// to a run.
pub open spec fn run_piece(o: Outcome<ExprModel>, file: int) -> (Seq<ExprModel>, Seq<(Seq<char>, int, int)>) {
    match o {
        Outcome::Parsed(m) => (seq![m], seq![]),
        Outcome::Failed(t, ErrorAt::Offset(at)) => (seq![], seq![(t, file, at)]),
        Outcome::Failed(t, ErrorAt::Anchor) => (seq![], seq![(t, file, -1)]),
        _ => (seq![], seq![]),
    }
}

/// `run` with `nodes` and `errors` read before it.
pub open spec fn after_models(nodes: Seq<ExprModel>, errors: Seq<(Seq<char>, int, int)>, run: Option<ParseRun>) -> Option<ParseRun> {
    match run {
        Some(r) => Some(ParseRun { nodes: nodes + r.nodes, errors: errors + r.errors, request: r.request }),
        None => None,
    }
}

/// What `Parser::parse_tree` reads in at most `fuel` steps, from files
/// `texts` read up to `positions`, `current` being read: each statement in
/// turn, going back to the previous file at the end of one, until a
/// directive asks for a file or no file is left. `None` where the steps do
/// not suffice.
pub open spec fn parse_run(
    system: SystemDefinition,
    texts: Seq<Seq<char>>,
    positions: Seq<int>,
    current: int,
    fuel: nat,
) -> Option<ParseRun>
    decreases fuel,
{
    if fuel == 0 {
        None
    } else if current < 0 || current >= texts.len() {
        Some(ParseRun { nodes: seq![], errors: seq![], request: None })
    } else {
        let (o, e) = statement_rule(system, texts[current], positions[current]);
        let next = positions.update(current, e);
        match o {
            Outcome::Request(k, name) => Some(ParseRun { nodes: seq![], errors: seq![], request: Some((k, name)) }),
            Outcome::Done => parse_run(system, texts, next, current - 1, (fuel - 1) as nat),
            _ => after_models(run_piece(o, current).0, run_piece(o, current).1, parse_run(system, texts, next, current, (fuel - 1) as nat)),
        }
    }
}

/// `nodes` are read as `models`.
pub open spec fn nodes_match<'a>(nodes: Seq<ParseNode<'a>>, models: Seq<ExprModel>) -> bool {
    &&& nodes.len() == models.len()
    &&& forall|i: int| 0 <= i < nodes.len() ==> expr_matches(#[trigger] nodes[i].expression, models[i])
}

/// `new` is `old` followed by the errors `errors` of a run over files
/// `texts` named `files`: each with its text, the token at its offset in
/// its file, and severity Error.
pub open spec fn reports_all(
    old: Seq<ErrorMessage>,
    new: Seq<ErrorMessage>,
    errors: Seq<(Seq<char>, int, int)>,
    system: SystemDefinition,
    texts: Seq<Seq<char>>,
    files: Seq<String>,
) -> bool {
    &&& new.len() == old.len() + errors.len()
    &&& forall|k: int| 0 <= k < old.len() ==> new[k] == old[k]
    &&& forall|k: int|
        0 <= k < errors.len() ==> {
            &&& (#[trigger] new[old.len() + k]).message@ == errors[k].0
            &&& new[old.len() + k].severity == ErrorSeverity::Error
            &&& 0 <= errors[k].1 < texts.len()
            &&& token_is(new[old.len() + k].token, system, texts[errors[k].1], errors[k].2, files[errors[k].1])
        }
}

/// One step of `parse_run` that reads no file request: the run from the
/// start is what was read so far, then the run from the next state.
proof fn lemma_run_step(
    system: SystemDefinition,
    texts0: Seq<Seq<char>>,
    positions0: Seq<int>,
    current0: int,
    steps: nat,
    nodes: Seq<ExprModel>,
    errors: Seq<(Seq<char>, int, int)>,
    texts: Seq<Seq<char>>,
    positions: Seq<int>,
    current: int,
    next_positions: Seq<int>,
    next_current: int,
)
    requires
        forall|f: nat|
            #[trigger] parse_run(system, texts0, positions0, current0, f + steps) == after_models(
                nodes,
                errors,
                parse_run(system, texts, positions, current, f),
            ),
        0 <= current < texts.len(),
        ({
            let (o, e) = statement_rule(system, texts[current], positions[current]);
            &&& next_positions == positions.update(current, e)
            &&& !(o is Request)
            &&& o is Done ==> next_current == current - 1
            &&& !(o is Done) ==> next_current == current
        }),
    ensures
        ({
            let o = statement_rule(system, texts[current], positions[current]).0;
            forall|f: nat|
                #[trigger] parse_run(system, texts0, positions0, current0, f + (steps + 1)) == after_models(
                    nodes + run_piece(o, current).0,
                    errors + run_piece(o, current).1,
                    parse_run(system, texts, next_positions, next_current, f),
                )
        }),
{
    let o = statement_rule(system, texts[current], positions[current]).0;
    assert forall|f: nat|
        #[trigger] parse_run(system, texts0, positions0, current0, f + (steps + 1)) == after_models(
            nodes + run_piece(o, current).0,
            errors + run_piece(o, current).1,
            parse_run(system, texts, next_positions, next_current, f),
        ) by {
        assert(f + (steps + 1) == (f + 1) + steps);
        let rest = parse_run(system, texts, next_positions, next_current, f);
        if rest is Some {
            let r = rest->0;
            assert(nodes + (run_piece(o, current).0 + r.nodes) =~= nodes + run_piece(o, current).0 + r.nodes);
            assert(errors + (run_piece(o, current).1 + r.errors) =~= errors + run_piece(o, current).1 + r.errors);
        }
        if o is Done {
            assert(nodes + run_piece(o, current).0 =~= nodes);
            assert(errors + run_piece(o, current).1 =~= errors);
        }
    }
}

/// The diagnostics `new` after a rule with outcome `o`, from `old`, reading
/// `c` of file `file`: where it failed, one error with the outcome's text,
/// at `anchor` or at the token at the outcome's offset; else none.
pub open spec fn reports<T>(
    old: Seq<ErrorMessage>,
    new: Seq<ErrorMessage>,
    o: Outcome<T>,
    anchor: Option<Token>,
    system: SystemDefinition,
    c: Seq<char>,
    file: String,
) -> bool {
    match o {
        Outcome::Failed(t, at) => {
            &&& new.len() == old.len() + 1
            &&& forall|k: int| 0 <= k < old.len() ==> new[k] == old[k]
            &&& new[old.len() as int].message@ == t
            &&& new[old.len() as int].severity == ErrorSeverity::Error
            &&& match at {
                ErrorAt::Anchor => anchor == Some(new[old.len() as int].token),
                ErrorAt::Offset(start) => token_is(new[old.len() as int].token, system, c, start, file),
            }
        },
        _ => new == old,
    }
}

spec fn arg_result(r: ParseResult<ParseArgument>, o: Outcome<ArgModel>) -> bool {
    match (r, o) {
        (ParseResult::Nothing, Outcome::Nothing) => true,
        (ParseResult::Done, Outcome::Done) => true,
        (ParseResult::Failed, Outcome::Failed(_, _)) => true,
        (ParseResult::Parsed(a), Outcome::Parsed(m)) => arg_matches(a, m),
        _ => false,
    }
}

spec fn node_result<'a>(r: ParseResult<ParseNode<'a>>, o: Outcome<ExprModel>) -> bool {
    match (r, o) {
        (ParseResult::Nothing, Outcome::Nothing) => true,
        (ParseResult::Done, Outcome::Done) => true,
        (ParseResult::Failed, Outcome::Failed(_, _)) => true,
        (ParseResult::Parsed(n), Outcome::Parsed(m)) => expr_matches(n.expression, m),
        (ParseResult::Request(q), Outcome::Request(k, name)) => q.kind == k && q.filename@ == name,
        _ => false,
    }
}

/// A recursive-descent parser over a stack of lexers, one for each source
/// file; `include` makes the included file's lexer current.
pub struct Parser<'a> {
    system: &'a SystemDefinition,
    lexers: Vec<Lexer<'a>>,
    current_lexer: i32,
    pub error_messages: Vec<ErrorMessage>,
    parsed_tree: Vec<ParseNode<'a>>,
}

impl<'a> Parser<'a> {
    pub closed spec fn wf(&self) -> bool {
        &&& -1 <= self.current_lexer < self.lexers@.len()
        &&& self.lexers@.len() < 0x7FFF_FFFF
        &&& forall|j: int|
            0 <= j < self.lexers@.len() ==> (#[trigger] self.lexers@[j]).wf() && self.lexers@[j].system()
                == *self.system
    }

    /// The diagnostics so far.
    pub closed spec fn errors(&self) -> Seq<ErrorMessage> {
        self.error_messages@
    }

    /// Some file is being read.
    pub closed spec fn active(&self) -> bool {
        0 <= self.current_lexer
    }

    /// The lexer of the file being read.
    pub closed spec fn current(&self) -> Lexer<'a> {
        self.lexers@[self.current_lexer as int]
    }

    /// The files read so far, with their lexers.
    pub closed spec fn lexers(&self) -> Seq<Lexer<'a>> {
        self.lexers@
    }

    /// The system that the parser reads for.
    pub closed spec fn target(&self) -> SystemDefinition {
        *self.system
    }

    /// The text of the current file.
    pub closed spec fn text(&self) -> Seq<char> {
        self.current().content()
    }

    /// The position in the current file.
    pub closed spec fn at(&self) -> int {
        self.current().position()
    }

    /// The texts of the files read so far.
    pub closed spec fn texts(&self) -> Seq<Seq<char>> {
        self.lexers@.map_values(|l: Lexer<'a>| l.content())
    }

    /// The names of the files read so far.
    pub closed spec fn files(&self) -> Seq<String> {
        self.lexers@.map_values(|l: Lexer<'a>| l.file())
    }

    /// The positions reached in the files read so far.
    pub closed spec fn positions(&self) -> Seq<int> {
        self.lexers@.map_values(|l: Lexer<'a>| l.position())
    }

    /// The index of the file being read, or -1.
    pub closed spec fn current_index(&self) -> int {
        self.current_lexer as int
    }

    /// The nodes read so far and not yet handed out.
    pub closed spec fn tree(&self) -> Seq<ParseNode<'a>> {
        self.parsed_tree@
    }

    /// What is left to read of the current file.
    pub closed spec fn remaining(&self) -> nat {
        if 0 <= self.current_lexer < self.lexers@.len() {
            (self.current().content().len() - self.current().position()) as nat
        } else {
            0
        }
    }

    /// `next` has read on in the current file and may have more errors;
    /// nothing else differs.
    pub closed spec fn read_on(&self, next: &Self) -> bool {
        &&& next.system == self.system
        &&& next.current_lexer == self.current_lexer
        &&& next.lexers@.len() == self.lexers@.len()
        &&& forall|j: int| 0 <= j < self.lexers@.len() && j != self.current_lexer ==> next.lexers@[j] == self.lexers@[j]
        &&& next.current().content() == self.current().content()
        &&& next.current().system() == self.current().system()
        &&& next.current().file() == self.current().file()
        &&& next.current().position() >= self.current().position()
        &&& next.parsed_tree == self.parsed_tree
        &&& next.error_messages@.len() >= self.error_messages@.len()
        &&& forall|k: int| 0 <= k < self.error_messages@.len() ==> next.error_messages@[k] == self.error_messages@[k]
    }

    pub fn new(system: &'a SystemDefinition) -> (r: Self)
        ensures
            r.wf(),
            !r.active(),
            r.lexers().len() == 0,
            r.errors().len() == 0,
    {
        Parser { system, lexers: Vec::new(), error_messages: Vec::new(), current_lexer: -1, parsed_tree: Vec::new() }
    }

    /// Makes `filename` the file being read: from its start again where it
    /// has a lexer already, else from `file_content`.
    pub fn set_current_input_file(&mut self, filename: &String, file_content: Vec<char>)
        requires
            old(self).wf(),
            old(self).lexers().len() < 0x7FFF_FFFE,
        ensures
            final(self).wf(),
            final(self).active(),
            final(self).current().file()@ == filename@,
            final(self).current().position() == 0,
            final(self).errors() == old(self).errors(),
            final(self).tree() == old(self).tree(),
            final(self).target() == old(self).target(),
            forall|j: int| 0 <= j < final(self).current_index() ==> (#[trigger] old(self).lexers()[j]).file()@ != filename@,
            0 <= final(self).current_index() <= old(self).lexers().len(),
            forall|j: int|
                0 <= j < old(self).lexers().len() ==> (#[trigger] final(self).lexers()[j]).file() == old(self).lexers()[j].file(),
            (forall|j: int| 0 <= j < old(self).lexers().len() ==> (#[trigger] old(self).lexers()[j]).file()@ != filename@)
                ==> final(self).current_index() == old(self).lexers().len(),
            final(self).current_index() < old(self).lexers().len() ==> {
                &&& old(self).lexers()[final(self).current_index()].file()@ == filename@
                &&& final(self).lexers().len() == old(self).lexers().len()
            },
            final(self).current_index() == old(self).lexers().len() ==> final(self).lexers().len() == old(self).lexers().len() + 1,
            final(self).current_index() < old(self).lexers().len() ==> {
                &&& final(self).texts() == old(self).texts()
                &&& final(self).positions() == old(self).positions().update(final(self).current_index(), 0)
            },
            final(self).current_index() == old(self).lexers().len() ==> {
                &&& final(self).texts() == old(self).texts().push(file_content@)
                &&& final(self).positions() == old(self).positions().push(0)
            },
    {
        let mut index: usize = 0;
        while index < self.lexers.len()
            invariant
                self.wf(),
                *self == *old(self),
                index <= self.lexers@.len(),
                forall|j: int| 0 <= j < index ==> (#[trigger] self.lexers@[j]).file()@ != filename@,
            decreases self.lexers@.len() - index,
        {
            if *self.lexers[index].source_file() == *filename {
                self.current_lexer = index as i32;
                self.lexers[index].reset();
                proof {
                    assert(self.texts() =~= old(self).texts());
                    assert(self.positions() =~= old(self).positions().update(index as int, 0));
                    assert(self.lexers@[index as int].file() == old(self).lexers@[index as int].file());
                }
                return;
            }
            index = index + 1;
        }
        let ghost file = file_content@;
        self.lexers.push(Lexer::new(self.system, filename.clone(), file_content));
        self.current_lexer = (self.lexers.len() - 1) as i32;
        proof {
            assert(self.texts() =~= old(self).texts().push(file));
            assert(self.positions() =~= old(self).positions().push(0));
        }
    }

    pub fn has_errors(&self) -> (r: bool)
        ensures
            r == (self.errors().len() > 0),
    {
        !self.error_messages.is_empty()
    }

    fn add_error_message(&mut self, error_message: String, offending_token: Token)
        ensures
            final(self).lexers == old(self).lexers,
            final(self).current_lexer == old(self).current_lexer,
            final(self).system == old(self).system,
            final(self).parsed_tree == old(self).parsed_tree,
            extends_with(final(self).error_messages@, old(self).error_messages@, seq![(error_message@, offending_token)]),
            final(self).errors().len() == old(self).errors().len() + 1,
            forall|k: int| 0 <= k < old(self).errors().len() ==> final(self).errors()[k] == old(self).errors()[k],
            final(self).errors()[old(self).errors().len() as int].message@ == error_message@,
            final(self).errors()[old(self).errors().len() as int].token == offending_token,
            final(self).errors()[old(self).errors().len() as int].severity == ErrorSeverity::Error,
    {
        self.error_messages.push(error_at(error_message, &offending_token));
    }

    fn add_invalid_token_message(&mut self, invalid_token: char, token: Token)
        ensures
            final(self).lexers == old(self).lexers,
            final(self).current_lexer == old(self).current_lexer,
            final(self).system == old(self).system,
            final(self).parsed_tree == old(self).parsed_tree,
            extends_with(
                final(self).error_messages@,
                old(self).error_messages@,
                seq![("Invalid token '"@ + seq![invalid_token] + "' found."@, token)],
            ),
            final(self).errors().len() == old(self).errors().len() + 1,
            forall|k: int| 0 <= k < old(self).errors().len() ==> final(self).errors()[k] == old(self).errors()[k],
            final(self).errors()[old(self).errors().len() as int].message@ == invalid_text(invalid_token),
            final(self).errors()[old(self).errors().len() as int].token == token,
            final(self).errors()[old(self).errors().len() as int].severity == ErrorSeverity::Error,
    {
        let mut text = String::new();
        push_char(&mut text, invalid_token);
        let message = text3("Invalid token '", text.as_str(), "' found.");
        assert(text@ =~= seq![invalid_token]);
        self.add_error_message(message, token);
    }

    fn lookahead(&mut self, times: u32) -> (r: Token)
        requires
            old(self).wf(),
            old(self).active(),
            times >= 1,
        ensures
            final(self).wf(),
            old(self).read_on(&*final(self)),
            final(self).at() == old(self).at(),
            final(self).errors() == old(self).errors(),
            times == 1 ==> token_is(
                r,
                old(self).target(),
                old(self).text(),
                token_start(old(self).text(), old(self).at()),
                old(self).current().file(),
            ),
            times == 2 ==> token_is(
                r,
                old(self).target(),
                old(self).text(),
                token_start(old(self).text(), after_token(old(self).text(), old(self).at())),
                old(self).current().file(),
            ),
            times == 1 ==> kind_of(r.ttype) == (kind_after(old(self).target(), old(self).text(), old(self).at()), text_after(
                old(self).target(),
                old(self).text(),
                old(self).at(),
            )),
            times == 2 ==> kind_of(r.ttype) == (kind_after(
                old(self).target(),
                old(self).text(),
                after_token(old(self).text(), old(self).at()),
            ), text_after(old(self).target(), old(self).text(), after_token(old(self).text(), old(self).at()))),
    {
        let index = self.current_lexer as usize;
        let r = self.lexers[index].lookahead(times);
        proof {
            let l = old(self).current();
            reveal_with_fuel(crate::lexer::position_after, 2);
            lemma_token_at(l.system(), l.content(), token_start(l.content(), crate::lexer::position_after(l.content(), l.position(), (times - 1) as nat)), r.ttype);
            assert forall|j: int| 0 <= j < self.lexers@.len() implies (#[trigger] self.lexers@[j]).wf()
                && self.lexers@[j].system() == *self.system by {
                if j != index {
                    assert(self.lexers@[j] == old(self).lexers@[j]);
                }
            }
        }
        r
    }

    fn get_next_token(&mut self) -> (r: Token)
        requires
            old(self).wf(),
            old(self).active(),
        ensures
            final(self).wf(),
            old(self).read_on(&*final(self)),
            old(self).current().steps_to(
                &final(self).current(),
                token_start(old(self).current().content(), old(self).current().position()),
                r,
            ),
            r.ttype is EndOfFile || final(self).current().position() > old(self).current().position(),
            kind_of(r.ttype) == (kind_after(old(self).target(), old(self).text(), old(self).at()), text_after(
                old(self).target(),
                old(self).text(),
                old(self).at(),
            )),
            final(self).at() == after_token(old(self).text(), old(self).at()),
            final(self).errors() == old(self).errors(),
            token_is(r, old(self).target(), old(self).text(), token_start(old(self).text(), old(self).at()), old(self).current().file()),
    {
        let index = self.current_lexer as usize;
        let ghost l = self.lexers@[index as int];
        proof { lemma_token_progress(l.content(), l.position()); }
        let r = self.lexers[index].get_next_token();
        proof {
            lemma_token_at(l.system(), l.content(), token_start(l.content(), l.position()), r.ttype);
            assert forall|j: int| 0 <= j < self.lexers@.len() implies (#[trigger] self.lexers@[j]).wf()
                && self.lexers@[j].system() == *self.system by {
                if j != index {
                    assert(self.lexers@[j] == old(self).lexers@[j]);
                }
            }
        }
        r
    }

    // argument : NUMBER_LITERAL | REGISTER | IDENTIFIER
    fn parse_argument(&mut self) -> (r: ParseResult<ParseArgument>)
        requires
            old(self).wf(),
            old(self).active(),
        ensures
            final(self).wf(),
            old(self).read_on(&*final(self)),
            ({
                let (o, e) = argument_rule(old(self).target(), old(self).text(), old(self).at());
                arg_result(r, o) && final(self).at() == e && reports(
                    old(self).errors(),
                    final(self).errors(),
                    o,
                    None,
                    old(self).target(),
                    old(self).text(),
                    old(self).current().file(),
                )
            }),
            !(r is Request),
    {
        let lookahead = self.lookahead(1);
        match lookahead.ttype {
            TokenType::NumberLiteral(number_literal) => {
                self.get_next_token();
                ParseResult::Parsed(ParseArgument::NumberLiteral(number_literal))
            },
            TokenType::Register(register_name) => {
                self.get_next_token();
                ParseResult::Parsed(ParseArgument::Register(register_name))
            },
            TokenType::Identifier(identifier) => {
                let second_lookahead = self.lookahead(2);
                if let TokenType::Colon = second_lookahead.ttype {
                    ParseResult::Nothing
                } else {
                    self.get_next_token();
                    ParseResult::Parsed(ParseArgument::Identifier(identifier))
                }
            },
            TokenType::Opcode(_) | TokenType::KeywordInclude | TokenType::KeywordIncbin | TokenType::KeywordOrigin
            | TokenType::KeywordSnesMap => ParseResult::Nothing,
            TokenType::Invalid(invalid_token) => {
                let token = self.get_next_token();
                self.add_invalid_token_message(invalid_token, token);
                ParseResult::Failed
            },
            TokenType::EndOfFile => ParseResult::Done,
            _ => {
                let token = self.get_next_token();
                self.add_error_message("A number literal or register was expected here.".to_owned(), token);
                ParseResult::Failed
            },
        }
    }

    fn parse_immediate(&mut self, opcode_token: &Token, opcode_name: &String) -> (r: ParseResult<ParseNode<'a>>)
        requires
            old(self).wf(),
            old(self).active(),
        ensures
            final(self).wf(),
            old(self).read_on(&*final(self)),
            ({
                let (o, e) = immediate_rule(old(self).target(), old(self).text(), old(self).at(), opcode_name@);
                node_result(r, o) && final(self).at() == e && reports(
                    old(self).errors(),
                    final(self).errors(),
                    o,
                    Some(*opcode_token),
                    old(self).target(),
                    old(self).text(),
                    old(self).current().file(),
                )
            }),
            !(r is Request),
    {
        reveal(immediate_rule);
        self.get_next_token();
        match self.parse_argument() {
            ParseResult::Parsed(result) => ParseResult::Parsed(ParseNode { start_token: opcode_token.clone(), expression: ParseExpression::ImmediateInstruction(opcode_name.clone(), result) }),
            ParseResult::Nothing => {
                self.add_error_message("number expected as argument.".to_owned(), opcode_token.clone());
                ParseResult::Failed
            },
            ParseResult::Done => ParseResult::Done,
            _ => ParseResult::Failed,
        }
    }

    /// The operand after the comma of an indexed or block move form, whose
    /// first operand is `first`.
    fn parse_second_argument(&mut self, opcode_token: &Token, opcode_name: &String, first: ParseArgument) -> (r: ParseResult<ParseNode<'a>>)
        requires
            old(self).wf(),
            old(self).active(),
        ensures
            final(self).wf(),
            old(self).read_on(&*final(self)),
            ({
                let (o, e) = second_rule(old(self).target(), old(self).text(), old(self).at(), opcode_name@, model_of_arg(first));
                node_result(r, o) && final(self).at() == e && reports(
                    old(self).errors(),
                    final(self).errors(),
                    o,
                    Some(*opcode_token),
                    old(self).target(),
                    old(self).text(),
                    old(self).current().file(),
                )
            }),
            !(r is Request),
    {
        reveal(second_rule);
        let second_lookahead = self.lookahead(1);
        match second_lookahead.ttype {
            TokenType::Register(_) => match self.parse_argument() {
                ParseResult::Parsed(second) => ParseResult::Parsed(ParseNode { start_token: opcode_token.clone(), expression: ParseExpression::IndexedInstruction(opcode_name.clone(), first, second) }),
                ParseResult::Nothing => {
                    self.add_error_message("expected register or register as second argument.".to_owned(), opcode_token.clone());
                    ParseResult::Failed
                },
                ParseResult::Done => ParseResult::Done,
                _ => ParseResult::Failed,
            },
            TokenType::NumberLiteral(_) => match self.parse_argument() {
                ParseResult::Parsed(second) => ParseResult::Parsed(ParseNode { start_token: opcode_token.clone(), expression: ParseExpression::BlockMoveInstruction(opcode_name.clone(), first, second) }),
                ParseResult::Nothing => {
                    self.add_error_message("expected number or register as second argument.".to_owned(), opcode_token.clone());
                    ParseResult::Failed
                },
                ParseResult::Done => ParseResult::Done,
                _ => ParseResult::Failed,
            },
            _ => {
                self.get_next_token();
                self.add_error_message("expected number or register as second argument.".to_owned(), opcode_token.clone());
                ParseResult::Failed
            },
        }
    }

    // cpu_instruction : OPCODE | OPCODE '#' argument | OPCODE argument
    //     | OPCODE argument ',' register | OPCODE argument ',' number
    //     | OPCODE '(' ... | OPCODE '[' ...
    fn parse_cpu_instruction(&mut self, opcode_token: &Token, opcode_name: &String) -> (r: ParseResult<ParseNode<'a>>)
        requires
            old(self).wf(),
            old(self).active(),
        ensures
            final(self).wf(),
            old(self).read_on(&*final(self)),
            ({
                let (o, e) = instruction_rule(old(self).target(), old(self).text(), old(self).at(), opcode_name@);
                node_result(r, o) && final(self).at() == e && reports(
                    old(self).errors(),
                    final(self).errors(),
                    o,
                    Some(*opcode_token),
                    old(self).target(),
                    old(self).text(),
                    old(self).current().file(),
                )
            }),
            !(r is Request),
    {
        let lookahead = self.lookahead(1);
        match lookahead.ttype {
            TokenType::Immediate => self.parse_immediate(opcode_token, opcode_name),
            TokenType::LeftParen => self.parse_indirect(opcode_token, opcode_name),
            TokenType::LeftBracket => self.parse_indirect_long(opcode_token, opcode_name),
            _ => self.parse_plain(opcode_token, opcode_name),
        }
    }

    /// The forms without '#', '(' or '[': none, one operand, or two.
    fn parse_plain(&mut self, opcode_token: &Token, opcode_name: &String) -> (r: ParseResult<ParseNode<'a>>)
        requires
            old(self).wf(),
            old(self).active(),
        ensures
            final(self).wf(),
            old(self).read_on(&*final(self)),
            ({
                let (o, e) = plain_rule(old(self).target(), old(self).text(), old(self).at(), opcode_name@);
                node_result(r, o) && final(self).at() == e && reports(
                    old(self).errors(),
                    final(self).errors(),
                    o,
                    Some(*opcode_token),
                    old(self).target(),
                    old(self).text(),
                    old(self).current().file(),
                )
            }),
            !(r is Request),
    {
        reveal(plain_rule);
        match self.parse_argument() {
            ParseResult::Parsed(result) => {
                let comma = self.lookahead(1);
                if let TokenType::Comma = comma.ttype {
                    self.get_next_token();
                    self.parse_second_argument(opcode_token, opcode_name, result)
                } else {
                    ParseResult::Parsed(ParseNode { start_token: opcode_token.clone(), expression: ParseExpression::SingleArgumentInstruction(opcode_name.clone(), result) })
                }
            },
            ParseResult::Nothing | ParseResult::Done => ParseResult::Parsed(ParseNode { start_token: opcode_token.clone(), expression: ParseExpression::ImpliedInstruction(opcode_name.clone()) }),
            _ => ParseResult::Failed,
        }
    }

    /// The register after `( argument )` or `[ argument ]` and a comma.
    fn parse_indexing_register(&mut self, opcode_token: &Token) -> (r: ParseResult<ParseArgument>)
        requires
            old(self).wf(),
            old(self).active(),
        ensures
            final(self).wf(),
            old(self).read_on(&*final(self)),
            ({
                let (o, e) = register_rule(old(self).target(), old(self).text(), old(self).at());
                arg_result(r, o) && final(self).at() == e && reports(
                    old(self).errors(),
                    final(self).errors(),
                    o,
                    Some(*opcode_token),
                    old(self).target(),
                    old(self).text(),
                    old(self).current().file(),
                )
            }),
            !(r is Request),
    {
        match self.parse_argument() {
            ParseResult::Parsed(register) => ParseResult::Parsed(register),
            ParseResult::Nothing => {
                self.add_error_message("register expected as argument.".to_owned(), opcode_token.clone());
                ParseResult::Failed
            },
            ParseResult::Done => ParseResult::Done,
            _ => ParseResult::Failed,
        }
    }

    /// After `( argument )`: an optional `, register`.
    fn parse_after_paren(&mut self, opcode_token: &Token, opcode_name: &String, result: ParseArgument) -> (r: ParseResult<ParseNode<'a>>)
        requires
            old(self).wf(),
            old(self).active(),
        ensures
            final(self).wf(),
            old(self).read_on(&*final(self)),
            ({
                let (o, e) = after_paren_rule(old(self).target(), old(self).text(), old(self).at(), opcode_name@, model_of_arg(result));
                node_result(r, o) && final(self).at() == e && reports(
                    old(self).errors(),
                    final(self).errors(),
                    o,
                    Some(*opcode_token),
                    old(self).target(),
                    old(self).text(),
                    old(self).current().file(),
                )
            }),
            !(r is Request),
    {
        reveal(after_paren_rule);
        let second_lookahead = self.lookahead(1);
        if let TokenType::Comma = second_lookahead.ttype {
            self.get_next_token();
            match self.parse_indexing_register(opcode_token) {
                ParseResult::Parsed(second) => ParseResult::Parsed(ParseNode { start_token: opcode_token.clone(), expression: ParseExpression::IndirectIndexedInstruction(opcode_name.clone(), result, second) }),
                ParseResult::Done => ParseResult::Done,
                _ => ParseResult::Failed,
            }
        } else {
            ParseResult::Parsed(ParseNode { start_token: opcode_token.clone(), expression: ParseExpression::IndirectInstruction(opcode_name.clone(), result) })
        }
    }

    /// After `( argument ,`: `register )`, then an optional `, register`.
    fn parse_after_paren_comma(
        &mut self,
        opcode_token: &Token,
        opcode_name: &String,
        result: ParseArgument,
        left_paren: Token,
        Ghost(paren): Ghost<int>,
    ) -> (r: ParseResult<ParseNode<'a>>)
        requires
            token_is(left_paren, old(self).target(), old(self).text(), paren, old(self).current().file()),
            old(self).wf(),
            old(self).active(),
        ensures
            final(self).wf(),
            old(self).read_on(&*final(self)),
            ({
                let (o, e) = paren_comma_rule(old(self).target(), old(self).text(), old(self).at(), opcode_name@, model_of_arg(result), paren);
                node_result(r, o) && final(self).at() == e && reports(
                    old(self).errors(),
                    final(self).errors(),
                    o,
                    Some(*opcode_token),
                    old(self).target(),
                    old(self).text(),
                    old(self).current().file(),
                )
            }),
            !(r is Request),
    {
        reveal(paren_comma_rule);
        let second = match self.parse_indexing_register(opcode_token) {
            ParseResult::Parsed(second) => second,
            ParseResult::Done => {
                return ParseResult::Done;
            },
            _ => {
                return ParseResult::Failed;
            },
        };
        let closing = self.lookahead(1);
        if let TokenType::RightParen = closing.ttype {
            self.get_next_token();
            let third_lookahead = self.lookahead(1);
            if let TokenType::Comma = third_lookahead.ttype {
                self.get_next_token();
                match self.parse_indexing_register(opcode_token) {
                    ParseResult::Parsed(third) => ParseResult::Parsed(ParseNode { start_token: opcode_token.clone(), expression: ParseExpression::StackRelativeIndirectIndexedInstruction(opcode_name.clone(), result, second, third) }),
                    ParseResult::Done => ParseResult::Done,
                    _ => ParseResult::Failed,
                }
            } else {
                ParseResult::Parsed(ParseNode { start_token: opcode_token.clone(), expression: ParseExpression::IndexedIndirectInstruction(opcode_name.clone(), result, second) })
            }
        } else {
            self.add_error_message("no closing parenthesis found.".to_owned(), left_paren);
            ParseResult::Failed
        }
    }

    // '(' argument ')' | '(' argument ')' ',' register | '(' argument ',' register ')'
    //     | '(' argument ',' register ')' ',' register
    fn parse_indirect(&mut self, opcode_token: &Token, opcode_name: &String) -> (r: ParseResult<ParseNode<'a>>)
        requires
            old(self).wf(),
            old(self).active(),
        ensures
            final(self).wf(),
            old(self).read_on(&*final(self)),
            ({
                let (o, e) = indirect_rule(old(self).target(), old(self).text(), old(self).at(), opcode_name@);
                node_result(r, o) && final(self).at() == e && reports(
                    old(self).errors(),
                    final(self).errors(),
                    o,
                    Some(*opcode_token),
                    old(self).target(),
                    old(self).text(),
                    old(self).current().file(),
                )
            }),
            !(r is Request),
    {
        reveal(indirect_rule);
        let ghost paren = token_start(self.text(), self.at());
        let left_paren = self.get_next_token();
        let result = match self.parse_argument() {
            ParseResult::Parsed(result) => result,
            ParseResult::Nothing => {
                self.add_error_message("number expected as argument.".to_owned(), opcode_token.clone());
                return ParseResult::Failed;
            },
            ParseResult::Done => {
                return ParseResult::Done;
            },
            _ => {
                return ParseResult::Failed;
            },
        };
        let lookahead = self.lookahead(1);
        match lookahead.ttype {
            TokenType::RightParen => {
                self.get_next_token();
                self.parse_after_paren(opcode_token, opcode_name, result)
            },
            TokenType::Comma => {
                self.get_next_token();
                self.parse_after_paren_comma(opcode_token, opcode_name, result, left_paren, Ghost(paren))
            },
            _ => {
                self.add_error_message("no closing parenthesis found.".to_owned(), left_paren);
                ParseResult::Failed
            },
        }
    }

    // '[' argument ']' | '[' argument ']' ',' register
    fn parse_indirect_long(&mut self, opcode_token: &Token, opcode_name: &String) -> (r: ParseResult<ParseNode<'a>>)
        requires
            old(self).wf(),
            old(self).active(),
        ensures
            final(self).wf(),
            old(self).read_on(&*final(self)),
            ({
                let (o, e) = indirect_long_rule(old(self).target(), old(self).text(), old(self).at(), opcode_name@);
                node_result(r, o) && final(self).at() == e && reports(
                    old(self).errors(),
                    final(self).errors(),
                    o,
                    Some(*opcode_token),
                    old(self).target(),
                    old(self).text(),
                    old(self).current().file(),
                )
            }),
            !(r is Request),
    {
        reveal(indirect_long_rule);
        let left_bracket = self.get_next_token();
        let result = match self.parse_argument() {
            ParseResult::Parsed(result) => result,
            ParseResult::Nothing => {
                self.add_error_message("number expected as argument.".to_owned(), opcode_token.clone());
                return ParseResult::Failed;
            },
            ParseResult::Done => {
                return ParseResult::Done;
            },
            _ => {
                return ParseResult::Failed;
            },
        };
        let lookahead = self.lookahead(1);
        if let TokenType::RightBracket = lookahead.ttype {
            self.get_next_token();
            let second_lookahead = self.lookahead(1);
            if let TokenType::Comma = second_lookahead.ttype {
                self.get_next_token();
                match self.parse_indexing_register(opcode_token) {
                    ParseResult::Parsed(second) => ParseResult::Parsed(ParseNode { start_token: opcode_token.clone(), expression: ParseExpression::IndirectIndexedLongInstruction(opcode_name.clone(), result, second) }),
                    ParseResult::Done => ParseResult::Done,
                    _ => ParseResult::Failed,
                }
            } else {
                ParseResult::Parsed(ParseNode { start_token: opcode_token.clone(), expression: ParseExpression::IndirectLongInstruction(opcode_name.clone(), result) })
            }
        } else {
            self.add_error_message("no closing bracket found.".to_owned(), left_bracket);
            ParseResult::Failed
        }
    }

    // label : IDENTIFIER ':'
    fn parse_label(&mut self, label_token: &Token, label_name: &String) -> (r: ParseResult<ParseNode<'a>>)
        requires
            old(self).wf(),
            old(self).active(),
        ensures
            final(self).wf(),
            old(self).read_on(&*final(self)),
            ({
                let (o, e) = label_rule(old(self).target(), old(self).text(), old(self).at(), label_name@);
                node_result(r, o) && final(self).at() == e && reports(
                    old(self).errors(),
                    final(self).errors(),
                    o,
                    Some(*label_token),
                    old(self).target(),
                    old(self).text(),
                    old(self).current().file(),
                )
            }),
            !(r is Request),
            r matches ParseResult::Parsed(node) ==> node.start_token == *label_token && node.expression
                == ParseExpression::Label(*label_name),
    {
        let lookahead = self.lookahead(1);
        if let TokenType::Colon = lookahead.ttype {
            self.get_next_token();
            ParseResult::Parsed(ParseNode { start_token: label_token.clone(), expression: ParseExpression::Label(label_name.clone()) })
        } else {
            self.add_error_message("Expected a colon after this identifier.".to_owned(), label_token.clone());
            ParseResult::Failed
        }
    }

    // origin_statement : 'origin' NUMBER_LITERAL
    fn parse_origin_statement(&mut self, origin_token: &Token) -> (r: ParseResult<ParseNode<'a>>)
        requires
            old(self).wf(),
            old(self).active(),
        ensures
            final(self).wf(),
            old(self).read_on(&*final(self)),
            ({
                let (o, e) = origin_rule(old(self).target(), old(self).text(), old(self).at());
                node_result(r, o) && final(self).at() == e && reports(
                    old(self).errors(),
                    final(self).errors(),
                    o,
                    Some(*origin_token),
                    old(self).target(),
                    old(self).text(),
                    old(self).current().file(),
                )
            }),
            !(r is Request),
            r matches ParseResult::Parsed(node) ==> node.start_token == *origin_token && node.expression is OriginStatement,
    {
        let lookahead = self.lookahead(1);
        match lookahead.ttype {
            TokenType::NumberLiteral(number) => {
                self.get_next_token();
                ParseResult::Parsed(ParseNode { start_token: origin_token.clone(), expression: ParseExpression::OriginStatement(number) })
            },
            TokenType::Invalid(invalid_token) => {
                self.get_next_token();
                self.add_invalid_token_message(invalid_token, lookahead);
                ParseResult::Failed
            },
            TokenType::EndOfFile => ParseResult::Done,
            _ => {
                self.add_error_message("Expected a number literal after origin keyword.".to_owned(), origin_token.clone());
                ParseResult::Failed
            },
        }
    }

    fn identifier_to_snesmap(&self, identifier: &String) -> (r: Option<SnesMap>)
        ensures
            r == snesmap_of(identifier@),
    {
        if *identifier == "lorom".to_owned() {
            Some(SnesMap::LoRom)
        } else if *identifier == "hirom".to_owned() {
            Some(SnesMap::HiRom)
        } else {
            None
        }
    }

    // snesmap_statement : 'snesmap' ('lorom' | 'hirom')
    fn parse_snesmap_statement(&mut self, origin_token: &Token) -> (r: ParseResult<ParseNode<'a>>)
        requires
            old(self).wf(),
            old(self).active(),
        ensures
            final(self).wf(),
            old(self).read_on(&*final(self)),
            ({
                let (o, e) = snesmap_rule(old(self).target(), old(self).text(), old(self).at());
                node_result(r, o) && final(self).at() == e && reports(
                    old(self).errors(),
                    final(self).errors(),
                    o,
                    Some(*origin_token),
                    old(self).target(),
                    old(self).text(),
                    old(self).current().file(),
                )
            }),
            !(r is Request),
    {
        let lookahead = self.lookahead(1);
        match lookahead.ttype {
            TokenType::Identifier(identifier) => {
                self.get_next_token();
                match self.identifier_to_snesmap(&identifier) {
                    Some(snes_map) => ParseResult::Parsed(
                        ParseNode { start_token: origin_token.clone(), expression: ParseExpression::SnesMapStatement(snes_map) },
                    ),
                    None => {
                        self.add_error_message("Expected lorom or hirom as argument to snesmap.".to_owned(), origin_token.clone());
                        ParseResult::Failed
                    },
                }
            },
            TokenType::Invalid(invalid_token) => {
                self.get_next_token();
                self.add_invalid_token_message(invalid_token, lookahead);
                ParseResult::Failed
            },
            TokenType::EndOfFile => ParseResult::Done,
            _ => {
                self.add_error_message("Expected lorom or hirom as argument to snesmap.".to_owned(), origin_token.clone());
                ParseResult::Failed
            },
        }
    }

    /// `include` or `incbin` with its file name: asks for the file.
    fn parse_file_directive(&mut self, origin_token: &Token, kind: FileKind) -> (r: ParseResult<ParseNode<'a>>)
        requires
            old(self).wf(),
            old(self).active(),
        ensures
            final(self).wf(),
            old(self).read_on(&*final(self)),
            ({
                let (o, e) = file_rule(old(self).target(), old(self).text(), old(self).at(), kind);
                node_result(r, o) && final(self).at() == e && reports(
                    old(self).errors(),
                    final(self).errors(),
                    o,
                    Some(*origin_token),
                    old(self).target(),
                    old(self).text(),
                    old(self).current().file(),
                )
            }),
            r matches ParseResult::Request(request) ==> request.including_file == final(self).current().file(),
            r matches ParseResult::Request(request) ==> request.kind == kind && request.token == *origin_token,
    {
        let lookahead = self.lookahead(1);
        match lookahead.ttype {
            TokenType::StringLiteral(filename) => {
                self.get_next_token();
                let including_file = self.lexers[self.current_lexer as usize].source_file().clone();
                ParseResult::Request(FileRequest { kind, including_file, filename, token: origin_token.clone() })
            },
            TokenType::Invalid(invalid_token) => {
                self.get_next_token();
                self.add_invalid_token_message(invalid_token, lookahead);
                ParseResult::Failed
            },
            TokenType::EndOfFile => ParseResult::Done,
            _ => {
                let message = match kind {
                    FileKind::Include => "Expected a string literal as argument to include",
                    FileKind::Incbin => "Expected a string literal as argument to incbin",
                };
                self.add_error_message(message.to_owned(), origin_token.clone());
                ParseResult::Failed
            },
        }
    }

    // include_statement : 'include' STRING_LITERAL
    fn parse_include(&mut self, origin_token: &Token) -> (r: ParseResult<ParseNode<'a>>)
        requires
            old(self).wf(),
            old(self).active(),
        ensures
            final(self).wf(),
            old(self).read_on(&*final(self)),
            ({
                let (o, e) = file_rule(old(self).target(), old(self).text(), old(self).at(), FileKind::Include);
                node_result(r, o) && final(self).at() == e && reports(
                    old(self).errors(),
                    final(self).errors(),
                    o,
                    Some(*origin_token),
                    old(self).target(),
                    old(self).text(),
                    old(self).current().file(),
                )
            }),
            r matches ParseResult::Request(request) ==> request.including_file == final(self).current().file(),
    {
        self.parse_file_directive(origin_token, FileKind::Include)
    }

    // incbin_statement : 'incbin' STRING_LITERAL
    fn parse_incbin(&mut self, origin_token: &Token) -> (r: ParseResult<ParseNode<'a>>)
        requires
            old(self).wf(),
            old(self).active(),
        ensures
            final(self).wf(),
            old(self).read_on(&*final(self)),
            ({
                let (o, e) = file_rule(old(self).target(), old(self).text(), old(self).at(), FileKind::Incbin);
                node_result(r, o) && final(self).at() == e && reports(
                    old(self).errors(),
                    final(self).errors(),
                    o,
                    Some(*origin_token),
                    old(self).target(),
                    old(self).text(),
                    old(self).current().file(),
                )
            }),
            r matches ParseResult::Request(request) ==> request.including_file == final(self).current().file(),
    {
        self.parse_file_directive(origin_token, FileKind::Incbin)
    }

    // root : (cpu_instruction | label | directive)*
    fn parse(&mut self) -> (r: ParseResult<ParseNode<'a>>)
        requires
            old(self).wf(),
            old(self).active(),
        ensures
            final(self).wf(),
            old(self).read_on(&*final(self)),
            ({
                let (o, e) = statement_rule(old(self).target(), old(self).text(), old(self).at());
                node_result(r, o) && final(self).at() == e && reports(
                    old(self).errors(),
                    final(self).errors(),
                    o,
                    None,
                    old(self).target(),
                    old(self).text(),
                    old(self).current().file(),
                )
            }),
            r matches ParseResult::Request(request) ==> request.including_file == final(self).current().file(),
            r is Done || final(self).current().position() > old(self).current().position(),
    {
        let token = self.get_next_token();
        match &token.ttype {
            TokenType::EndOfFile => ParseResult::Done,
            TokenType::Opcode(opcode_name) => self.parse_cpu_instruction(&token, opcode_name),
            TokenType::Identifier(label_name) => self.parse_label(&token, label_name),
            TokenType::KeywordInclude => self.parse_include(&token),
            TokenType::KeywordIncbin => self.parse_incbin(&token),
            TokenType::KeywordOrigin => self.parse_origin_statement(&token),
            TokenType::KeywordSnesMap => self.parse_snesmap_statement(&token),
            TokenType::Invalid(invalid_token) => {
                let c = *invalid_token;
                self.add_invalid_token_message(c, token);
                ParseResult::Failed
            },
            _ => {
                self.add_error_message("unexpected token found.".to_owned(), token);
                ParseResult::Failed
            },
        }
    }

    /// Parses until the end of the input, or until a directive names a file;
    /// then the caller answers with `set_current_input_file`, `incbin_found`
    /// or `file_not_found` and calls again. The nodes so far are kept
    /// between calls and handed out at the end.
    pub fn parse_tree(&mut self) -> (r: ParseStep<'a>)
        requires
            old(self).wf(),
        ensures
            final(self).wf(),
            final(self).lexers().len() == old(self).lexers().len(),
            final(self).texts() == old(self).texts(),
            exists|fuel: nat|
                {
                    let run = #[trigger] parse_run(
                        old(self).target(),
                        old(self).texts(),
                        old(self).positions(),
                        old(self).current_index(),
                        fuel,
                    );
                    &&& run is Some
                    &&& reports_all(
                        old(self).errors(),
                        final(self).errors(),
                        run->0.errors,
                        old(self).target(),
                        old(self).texts(),
                        old(self).files(),
                    )
                    &&& match r {
                        ParseStep::Finished(tree) => {
                            &&& run->0.request is None
                            &&& tree@.len() == old(self).tree().len() + run->0.nodes.len()
                            &&& tree@.subrange(0, old(self).tree().len() as int) == old(self).tree()
                            &&& nodes_match(tree@.subrange(old(self).tree().len() as int, tree@.len() as int), run->0.nodes)
                            &&& !final(self).active()
                            &&& final(self).tree().len() == 0
                        },
                        ParseStep::NeedsFile(request) => {
                            &&& run->0.request == Some((request.kind, request.filename@))
                            &&& final(self).tree().len() == old(self).tree().len() + run->0.nodes.len()
                            &&& final(self).tree().subrange(0, old(self).tree().len() as int) == old(self).tree()
                            &&& nodes_match(
                                final(self).tree().subrange(old(self).tree().len() as int, final(self).tree().len() as int),
                                run->0.nodes,
                            )
                            &&& final(self).active()
                            &&& request.including_file == final(self).current().file()
                        },
                    }
                },
    {
        let ghost texts0 = self.texts();
        let ghost positions0 = self.positions();
        let ghost current0 = self.current_index();
        let ghost tree0 = self.parsed_tree@;
        let ghost errors0 = self.error_messages@;
        let ghost files0 = self.files();
        let ghost mut models: Seq<ExprModel> = seq![];
        let ghost mut errs: Seq<(Seq<char>, int, int)> = seq![];
        let ghost mut steps: nat = 0;
        proof {
            assert forall|f: nat|
                #[trigger] parse_run(*self.system, texts0, positions0, current0, f + steps) == after_models(
                    models,
                    errs,
                    parse_run(*self.system, texts0, self.positions(), self.current_index(), f),
                ) by {
                let run = parse_run(*self.system, texts0, positions0, current0, f);
                if run is Some {
                    assert(models + run->0.nodes =~= run->0.nodes);
                    assert(errs + run->0.errors =~= run->0.errors);
                }
            }
            assert(self.parsed_tree@.subrange(0, tree0.len() as int) =~= tree0);
            assert(self.parsed_tree@.subrange(tree0.len() as int, self.parsed_tree@.len() as int) =~= Seq::<ParseNode<'a>>::empty());
        }
        loop
            invariant
                self.wf(),
                self.lexers@.len() == old(self).lexers@.len(),
                self.system == old(self).system,
                self.texts() == texts0,
                texts0 == old(self).texts(),
                positions0 == old(self).positions(),
                current0 == old(self).current_index(),
                tree0 == old(self).tree(),
                errors0 == old(self).errors(),
                reports_all(errors0, self.error_messages@, errs, *self.system, texts0, files0),
                self.files() == files0,
                files0 == old(self).files(),
                self.parsed_tree@.len() == tree0.len() + models.len(),
                self.parsed_tree@.subrange(0, tree0.len() as int) == tree0,
                nodes_match(self.parsed_tree@.subrange(tree0.len() as int, self.parsed_tree@.len() as int), models),
                forall|f: nat|
                    #[trigger] parse_run(*self.system, texts0, positions0, current0, f + steps) == after_models(
                        models,
                        errs,
                        parse_run(*self.system, texts0, self.positions(), self.current_index(), f),
                    ),
            decreases self.current_lexer + 1, self.remaining(),
        {
            if self.current_lexer < 0 {
                let mut tree: Vec<ParseNode<'a>> = Vec::new();
                std::mem::swap(&mut tree, &mut self.parsed_tree);
                proof {
                    assert(parse_run(*self.system, texts0, positions0, current0, 1 + steps) == after_models(
                        models,
                        errs,
                        parse_run(*self.system, texts0, self.positions(), self.current_index(), 1),
                    ));
                    assert(models + seq![] =~= models);
                    assert(errs + seq![] =~= errs);
                }
                return ParseStep::Finished(tree);
            }
            let ghost before = *self;
            let result = self.parse();
            let ghost outcome = statement_rule(*self.system, before.text(), before.at());
            proof {
                assert(self.positions() =~= before.positions().update(self.current_lexer as int, outcome.1));
                assert(before.texts()[self.current_lexer as int] == before.text());
                assert(before.positions()[self.current_lexer as int] == before.at());
                let piece = run_piece(outcome.0, before.current_index()).1;
                assert(self.files() =~= before.files());
                assert(texts0[before.current_index()] == before.text());
                assert(files0[before.current_index()] == before.current().file());
                assert(reports_all(errors0, self.error_messages@, errs + piece, *self.system, texts0, files0)) by {
                    assert forall|k: int| 0 <= k < (errs + piece).len() implies {
                        &&& (#[trigger] self.error_messages@[errors0.len() + k]).message@ == (errs + piece)[k].0
                        &&& self.error_messages@[errors0.len() + k].severity == ErrorSeverity::Error
                        &&& 0 <= (errs + piece)[k].1 < texts0.len()
                        &&& token_is(
                            self.error_messages@[errors0.len() + k].token,
                            *self.system,
                            texts0[(errs + piece)[k].1],
                            (errs + piece)[k].2,
                            files0[(errs + piece)[k].1],
                        )
                    } by {
                        if k < errs.len() {
                            assert(self.error_messages@[errors0.len() + k] == before.error_messages@[errors0.len() + k]);
                        } else {
                            assert(errors0.len() + k == before.error_messages@.len());
                        }
                    }
                }
            }
            match result {
                ParseResult::Request(request) => {
                    proof {
                        assert(parse_run(*self.system, texts0, positions0, current0, 1 + steps) == after_models(
                            models,
                            errs,
                            parse_run(*self.system, texts0, before.positions(), before.current_index(), 1),
                        ));
                        assert(models + seq![] =~= models);
                        assert(errs + seq![] =~= errs);
                        assert(errs + run_piece(outcome.0, before.current_index()).1 =~= errs);
                    }
                    return ParseStep::NeedsFile(request);
                },
                ParseResult::Parsed(node) => {
                    self.parsed_tree.push(node);
                    proof {
                        lemma_run_step(*self.system, texts0, positions0, current0, steps, models, errs, texts0,
                            before.positions(), before.current_index(), self.positions(), self.current_index());
                        assert(self.parsed_tree@.subrange(0, tree0.len() as int) =~= before.parsed_tree@.subrange(0, tree0.len() as int));
                        assert(self.parsed_tree@.subrange(tree0.len() as int, self.parsed_tree@.len() as int)
                            =~= before.parsed_tree@.subrange(tree0.len() as int, before.parsed_tree@.len() as int).push(node));
                        assert(models + run_piece(outcome.0, before.current_index()).0 =~= models.push(outcome.0->Parsed_0));
                        models = models + run_piece(outcome.0, before.current_index()).0;
                        errs = errs + run_piece(outcome.0, before.current_index()).1;
                        steps = steps + 1;
                    }
                },
                ParseResult::Done => {
                    self.current_lexer = self.current_lexer - 1;
                    proof {
                        assert(self.positions() =~= before.positions().update(before.current_index(), outcome.1));
                        lemma_run_step(*self.system, texts0, positions0, current0, steps, models, errs, texts0,
                            before.positions(), before.current_index(), self.positions(), self.current_index());
                        assert(models + run_piece(outcome.0, before.current_index()).0 =~= models);
                        models = models + run_piece(outcome.0, before.current_index()).0;
                        errs = errs + run_piece(outcome.0, before.current_index()).1;
                        steps = steps + 1;
                    }
                },
                _ => {
                    proof {
                        lemma_run_step(*self.system, texts0, positions0, current0, steps, models, errs, texts0,
                            before.positions(), before.current_index(), self.positions(), self.current_index());
                        assert(models + run_piece(outcome.0, before.current_index()).0 =~= models);
                        models = models + run_piece(outcome.0, before.current_index()).0;
                        errs = errs + run_piece(outcome.0, before.current_index()).1;
                        steps = steps + 1;
                    }
                },
            }
        }
    }

    /// Answers an `incbin` request: the file was found at `path`, with
    /// `size` bytes.
    pub fn incbin_found(&mut self, request: &FileRequest, path: String, size: u64)
        requires
            old(self).wf(),
        ensures
            final(self).wf(),
            final(self).lexers() == old(self).lexers(),
            final(self).current_index() == old(self).current_index(),
            final(self).errors() == old(self).errors(),
            final(self).tree() == old(self).tree().push(
                ParseNode { start_token: request.token, expression: ParseExpression::IncBinStatement(path, size) },
            ),
    {
        self.parsed_tree.push(ParseNode { start_token: request.token.clone(), expression: ParseExpression::IncBinStatement(path, size) });
    }

    /// Answers a request whose file could not be found: reports it.
    pub fn file_not_found(&mut self, request: &FileRequest)
        requires
            old(self).wf(),
        ensures
            final(self).wf(),
            final(self).lexers() == old(self).lexers(),
            final(self).current_index() == old(self).current_index(),
            final(self).tree() == old(self).tree(),
            extends_with(
                final(self).errors(),
                old(self).errors(),
                seq![(
                    "Couldn't open file '"@ + request.filename@ + (if request.kind == FileKind::Include {
                        "' for include statement"@
                    } else {
                        "' for incbin statement"@
                    }),
                    request.token,
                )],
            ),
    {
        let message = match request.kind {
            FileKind::Include => text3("Couldn't open file '", request.filename.as_str(), "' for include statement"),
            FileKind::Incbin => text3("Couldn't open file '", request.filename.as_str(), "' for incbin statement"),
        };
        self.add_error_message(message, request.token.clone());
    }
}

} // verus!
