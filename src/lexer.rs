//! Turns source text into classified tokens with their source positions.
use vstd::prelude::*;
use crate::system_definition::{number_to_argument_size, size_of_number, ArgumentSize, SystemDefinition};

verus! {

/// A numeric literal with the operand size that its spelling selects.
#[derive(PartialEq, Eq, Structural, Clone, Copy, Debug)]
pub struct NumberLiteral {
    pub number: u32,
    pub argument_size: ArgumentSize,
}

/// The class of a token, with its text where it has one.
#[derive(Debug)]
pub enum TokenType {
    Invalid(char),
    Identifier(String),
    Opcode(String),
    NumberLiteral(NumberLiteral),
    StringLiteral(String),
    Register(String),
    Comma,
    Immediate,
    LeftParen,
    RightParen,
    LeftBracket,
    RightBracket,
    Colon,
    EndOfFile,
    KeywordInclude,
    KeywordIncbin,
    KeywordOrigin,
    KeywordSnesMap,
}

impl Clone for TokenType {
    fn clone(&self) -> (r: Self)
        ensures
            r == *self,
    {
        match self {
            TokenType::Invalid(c) => TokenType::Invalid(*c),
            TokenType::Identifier(s) => TokenType::Identifier(s.clone()),
            TokenType::Opcode(s) => TokenType::Opcode(s.clone()),
            TokenType::NumberLiteral(n) => TokenType::NumberLiteral(*n),
            TokenType::StringLiteral(s) => TokenType::StringLiteral(s.clone()),
            TokenType::Register(s) => TokenType::Register(s.clone()),
            TokenType::Comma => TokenType::Comma,
            TokenType::Immediate => TokenType::Immediate,
            TokenType::LeftParen => TokenType::LeftParen,
            TokenType::RightParen => TokenType::RightParen,
            TokenType::LeftBracket => TokenType::LeftBracket,
            TokenType::RightBracket => TokenType::RightBracket,
            TokenType::Colon => TokenType::Colon,
            TokenType::EndOfFile => TokenType::EndOfFile,
            TokenType::KeywordInclude => TokenType::KeywordInclude,
            TokenType::KeywordIncbin => TokenType::KeywordIncbin,
            TokenType::KeywordOrigin => TokenType::KeywordOrigin,
            TokenType::KeywordSnesMap => TokenType::KeywordSnesMap,
        }
    }
}

/// A token and where it stands: 1-based line, the columns that it spans, the
/// file, and the offset of the first character of its line.
#[derive(Debug)]
pub struct Token {
    pub ttype: TokenType,
    pub line: u32,
    pub start_column: u32,
    pub end_column: u32,
    pub source_file: String,
    pub context_start: usize,
}

impl Clone for Token {
    fn clone(&self) -> (r: Self)
        ensures
            r == *self,
    {
        Token {
            ttype: self.ttype.clone(),
            line: self.line,
            start_column: self.start_column,
            end_column: self.end_column,
            source_file: self.source_file.clone(),
            context_start: self.context_start,
        }
    }
}

/// Unicode's White_Space characters.
pub open spec fn is_white_space(c: char) -> bool {
    ||| '\u{9}' <= c <= '\u{d}'
    ||| c == ' '
    ||| c == '\u{85}'
    ||| c == '\u{a0}'
    ||| c == '\u{1680}'
    ||| '\u{2000}' <= c <= '\u{200a}'
    ||| c == '\u{2028}'
    ||| c == '\u{2029}'
    ||| c == '\u{202f}'
    ||| c == '\u{205f}'
    ||| c == '\u{3000}'
}

pub open spec fn is_decimal(c: char) -> bool {
    '0' <= c <= '9'
}

pub open spec fn is_hex(c: char) -> bool {
    is_decimal(c) || ('a' <= c <= 'f') || ('A' <= c <= 'F')
}

pub open spec fn is_binary(c: char) -> bool {
    c == '0' || c == '1'
}

pub open spec fn is_ident_start(c: char) -> bool {
    ('a' <= c <= 'z') || ('A' <= c <= 'Z') || c == '_'
}

pub open spec fn is_ident_continue(c: char) -> bool {
    is_ident_start(c) || is_decimal(c)
}

/// The kinds of character runs that make up a token.
#[derive(PartialEq, Eq, Structural, Clone, Copy, Debug)]
pub enum CharRun {
    Identifier,
    Hex,
    Binary,
    Decimal,
    NotQuote,
}

pub open spec fn in_run(c: char, run: CharRun) -> bool {
    match run {
        CharRun::Identifier => is_ident_continue(c),
        CharRun::Hex => is_hex(c),
        CharRun::Binary => is_binary(c),
        CharRun::Decimal => is_decimal(c),
        CharRun::NotQuote => c != '"',
    }
}

/// The end of the run of `run` characters that starts at `k`.
pub open spec fn run_end(content: Seq<char>, k: int, run: CharRun) -> int
    decreases content.len() - k,
{
    if k < 0 || k >= content.len() || !in_run(content[k], run) {
        k
    } else {
        run_end(content, k + 1, run)
    }
}

/// The position after the whitespace and `//` comments from `pos`;
/// `in_comment` says that `pos` stands inside a comment.
pub open spec fn skip_from(content: Seq<char>, pos: int, in_comment: bool) -> int
    decreases content.len() - pos,
{
    if pos < 0 || pos >= content.len() {
        pos
    } else if in_comment {
        skip_from(content, pos + 1, content[pos] != '\n')
    } else if is_white_space(content[pos]) {
        skip_from(content, pos + 1, false)
    } else if content[pos] == '/' && pos + 1 < content.len() && content[pos + 1] == '/' {
        skip_from(content, pos + 2, true)
    } else {
        pos
    }
}

/// Where the token after `pos` starts.
pub open spec fn token_start(content: Seq<char>, pos: int) -> int {
    skip_from(content, pos, false)
}

/// Where the token that starts at `start` ends.
pub open spec fn token_end(content: Seq<char>, start: int) -> int {
    if start < 0 || start >= content.len() {
        start
    } else {
        let c = content[start];
        if is_ident_start(c) {
            run_end(content, start + 1, CharRun::Identifier)
        } else if c == '"' {
            let q = run_end(content, start + 1, CharRun::NotQuote);
            if q < content.len() {
                q + 1
            } else {
                q
            }
        } else if c == '$' {
            run_end(content, start + 1, CharRun::Hex)
        } else if c == '%' {
            run_end(content, start + 1, CharRun::Binary)
        } else if is_decimal(c) {
            run_end(content, start + 1, CharRun::Decimal)
        } else {
            start + 1
        }
    }
}

pub open spec fn digit_value(c: char) -> int {
    if is_decimal(c) {
        c as int - '0' as int
    } else if 'a' <= c <= 'f' {
        c as int - 'a' as int + 10
    } else {
        c as int - 'A' as int + 10
    }
}

/// The value of `digits` in base `radix`.
pub open spec fn digits_value(digits: Seq<char>, radix: int) -> int
    decreases digits.len(),
{
    if digits.len() == 0 {
        0
    } else {
        digits_value(digits.drop_last(), radix) * radix + digit_value(digits.last())
    }
}

/// The number that `digits` spell in base `radix`, or 0 where there are
/// none or the value does not fit in 32 bits.
pub open spec fn parsed_number(digits: Seq<char>, radix: int) -> u32 {
    if digits.len() > 0 && digits_value(digits, radix) <= u32::MAX {
        digits_value(digits, radix) as u32
    } else {
        0
    }
}

/// The size that a hex literal of `n` digits selects.
pub open spec fn hex_size(n: int) -> ArgumentSize {
    if n > 6 {
        ArgumentSize::Word32
    } else if n > 4 {
        ArgumentSize::Word24
    } else if n > 2 {
        ArgumentSize::Word16
    } else {
        ArgumentSize::Word8
    }
}

/// The size that a binary literal of `n` digits selects.
pub open spec fn binary_size(n: int) -> ArgumentSize {
    if n > 24 {
        ArgumentSize::Word32
    } else if n > 16 {
        ArgumentSize::Word24
    } else if n > 8 {
        ArgumentSize::Word16
    } else {
        ArgumentSize::Word8
    }
}

pub open spec fn is_mnemonic(system: SystemDefinition, word: Seq<char>) -> bool {
    exists|i: int| 0 <= i < system.instructions@.len() && #[trigger] system.instructions@[i].name@ == word
}

pub open spec fn is_register_name(system: SystemDefinition, word: Seq<char>) -> bool {
    exists|i: int| 0 <= i < system.registers@.len() && #[trigger] system.registers@[i]@ == word
}

/// The class of word `word`: a keyword, else a mnemonic, else a register,
/// else an identifier.
pub open spec fn word_class(system: SystemDefinition, word: Seq<char>, t: TokenType) -> bool {
    if word == "include"@ {
        t is KeywordInclude
    } else if word == "incbin"@ {
        t is KeywordIncbin
    } else if word == "origin"@ {
        t is KeywordOrigin
    } else if word == "snesmap"@ {
        t is KeywordSnesMap
    } else if is_mnemonic(system, word) {
        t matches TokenType::Opcode(s) && s@ == word
    } else if is_register_name(system, word) {
        t matches TokenType::Register(s) && s@ == word
    } else {
        t matches TokenType::Identifier(s) && s@ == word
    }
}

/// `t` is the class of the token that starts at `start`.
pub open spec fn token_type_at(system: SystemDefinition, content: Seq<char>, start: int, t: TokenType) -> bool {
    let end = token_end(content, start);
    if start < 0 || start >= content.len() {
        t is EndOfFile
    } else {
        let c = content[start];
        if is_ident_start(c) {
            word_class(system, content.subrange(start, end), t)
        } else if c == '"' {
            let q = run_end(content, start + 1, CharRun::NotQuote);
            if q < content.len() {
                t matches TokenType::StringLiteral(s) && s@ == content.subrange(start + 1, q)
            } else {
                t == TokenType::Invalid('"')
            }
        } else if c == '#' {
            t is Immediate
        } else if c == ',' {
            t is Comma
        } else if c == '(' {
            t is LeftParen
        } else if c == ')' {
            t is RightParen
        } else if c == '[' {
            t is LeftBracket
        } else if c == ']' {
            t is RightBracket
        } else if c == ':' {
            t is Colon
        } else if c == '$' {
            t == TokenType::NumberLiteral(
                NumberLiteral {
                    number: parsed_number(content.subrange(start + 1, end), 16),
                    argument_size: hex_size(end - start - 1),
                },
            )
        } else if c == '%' {
            t == TokenType::NumberLiteral(
                NumberLiteral {
                    number: parsed_number(content.subrange(start + 1, end), 2),
                    argument_size: binary_size(end - start - 1),
                },
            )
        } else if is_decimal(c) {
            let n = parsed_number(content.subrange(start, end), 10);
            t == TokenType::NumberLiteral(NumberLiteral { number: n, argument_size: size_of_number(n) })
        } else {
            t == TokenType::Invalid(c)
        }
    }
}

/// The class of a token, without its text.
#[derive(PartialEq, Eq, Structural, Clone, Copy, Debug)]
pub enum TokenKind {
    Invalid(char),
    Identifier,
    Opcode,
    NumberLiteral(NumberLiteral),
    StringLiteral,
    Register,
    Comma,
    Immediate,
    LeftParen,
    RightParen,
    LeftBracket,
    RightBracket,
    Colon,
    EndOfFile,
    KeywordInclude,
    KeywordIncbin,
    KeywordOrigin,
    KeywordSnesMap,
}

/// The class of token `t`, and its text where it has one.
pub open spec fn kind_of(t: TokenType) -> (TokenKind, Seq<char>) {
    match t {
        TokenType::Invalid(c) => (TokenKind::Invalid(c), seq![]),
        TokenType::Identifier(s) => (TokenKind::Identifier, s@),
        TokenType::Opcode(s) => (TokenKind::Opcode, s@),
        TokenType::NumberLiteral(n) => (TokenKind::NumberLiteral(n), seq![]),
        TokenType::StringLiteral(s) => (TokenKind::StringLiteral, s@),
        TokenType::Register(s) => (TokenKind::Register, s@),
        TokenType::Comma => (TokenKind::Comma, seq![]),
        TokenType::Immediate => (TokenKind::Immediate, seq![]),
        TokenType::LeftParen => (TokenKind::LeftParen, seq![]),
        TokenType::RightParen => (TokenKind::RightParen, seq![]),
        TokenType::LeftBracket => (TokenKind::LeftBracket, seq![]),
        TokenType::RightBracket => (TokenKind::RightBracket, seq![]),
        TokenType::Colon => (TokenKind::Colon, seq![]),
        TokenType::EndOfFile => (TokenKind::EndOfFile, seq![]),
        TokenType::KeywordInclude => (TokenKind::KeywordInclude, seq![]),
        TokenType::KeywordIncbin => (TokenKind::KeywordIncbin, seq![]),
        TokenType::KeywordOrigin => (TokenKind::KeywordOrigin, seq![]),
        TokenType::KeywordSnesMap => (TokenKind::KeywordSnesMap, seq![]),
    }
}

/// The class of a word: a keyword, else a mnemonic, else a register, else an
/// identifier.
pub open spec fn word_kind(system: SystemDefinition, word: Seq<char>) -> TokenKind {
    if word == "include"@ {
        TokenKind::KeywordInclude
    } else if word == "incbin"@ {
        TokenKind::KeywordIncbin
    } else if word == "origin"@ {
        TokenKind::KeywordOrigin
    } else if word == "snesmap"@ {
        TokenKind::KeywordSnesMap
    } else if is_mnemonic(system, word) {
        TokenKind::Opcode
    } else if is_register_name(system, word) {
        TokenKind::Register
    } else {
        TokenKind::Identifier
    }
}

/// The class and text of the token that starts at `start`, as
/// `token_type_at` describes it.
pub open spec fn token_at(system: SystemDefinition, content: Seq<char>, start: int) -> (TokenKind, Seq<char>) {
    let end = token_end(content, start);
    if start < 0 || start >= content.len() {
        (TokenKind::EndOfFile, seq![])
    } else {
        let c = content[start];
        if is_ident_start(c) {
            let word = content.subrange(start, end);
            let k = word_kind(system, word);
            (k, if k == TokenKind::Opcode || k == TokenKind::Register || k == TokenKind::Identifier {
                word
            } else {
                seq![]
            })
        } else if c == '"' {
            let q = run_end(content, start + 1, CharRun::NotQuote);
            if q < content.len() {
                (TokenKind::StringLiteral, content.subrange(start + 1, q))
            } else {
                (TokenKind::Invalid('"'), seq![])
            }
        } else if c == '#' {
            (TokenKind::Immediate, seq![])
        } else if c == ',' {
            (TokenKind::Comma, seq![])
        } else if c == '(' {
            (TokenKind::LeftParen, seq![])
        } else if c == ')' {
            (TokenKind::RightParen, seq![])
        } else if c == '[' {
            (TokenKind::LeftBracket, seq![])
        } else if c == ']' {
            (TokenKind::RightBracket, seq![])
        } else if c == ':' {
            (TokenKind::Colon, seq![])
        } else if c == '$' || c == '%' || is_decimal(c) {
            (kind_of(number_token(system, content, start)).0, seq![])
        } else {
            (TokenKind::Invalid(c), seq![])
        }
    }
}

/// The number token that starts at `start`.
pub open spec fn number_token(system: SystemDefinition, content: Seq<char>, start: int) -> TokenType {
    let end = token_end(content, start);
    let c = content[start];
    if c == '$' {
        TokenType::NumberLiteral(
            NumberLiteral {
                number: parsed_number(content.subrange(start + 1, end), 16),
                argument_size: hex_size(end - start - 1),
            },
        )
    } else if c == '%' {
        TokenType::NumberLiteral(
            NumberLiteral {
                number: parsed_number(content.subrange(start + 1, end), 2),
                argument_size: binary_size(end - start - 1),
            },
        )
    } else {
        let n = parsed_number(content.subrange(start, end), 10);
        TokenType::NumberLiteral(NumberLiteral { number: n, argument_size: size_of_number(n) })
    }
}

/// A token read at `start` has the class and text that `token_at` gives.
pub proof fn lemma_token_at(system: SystemDefinition, content: Seq<char>, start: int, t: TokenType)
    requires
        token_type_at(system, content, start, t),
    ensures
        kind_of(t) == token_at(system, content, start),
{
}

/// The class of the token after `pos`.
pub open spec fn kind_after(system: SystemDefinition, content: Seq<char>, pos: int) -> TokenKind {
    token_at(system, content, token_start(content, pos)).0
}

/// The text of the token after `pos`.
pub open spec fn text_after(system: SystemDefinition, content: Seq<char>, pos: int) -> Seq<char> {
    token_at(system, content, token_start(content, pos)).1
}

/// Where the token after `pos` ends.
pub open spec fn after_token(content: Seq<char>, pos: int) -> int {
    token_end(content, token_start(content, pos))
}

/// Where the `n`-th token from `pos` ends.
pub open spec fn position_after(content: Seq<char>, pos: int, n: nat) -> int
    decreases n,
{
    if n == 0 {
        pos
    } else {
        token_end(content, token_start(content, position_after(content, pos, (n - 1) as nat)))
    }
}

/// Size-by-syntax: a hex literal's size follows from its number of digits
/// alone, whatever their value.
pub proof fn lemma_hex_size_by_length(
    system: SystemDefinition,
    c1: Seq<char>,
    s1: int,
    t1: TokenType,
    c2: Seq<char>,
    s2: int,
    t2: TokenType,
)
    requires
        0 <= s1 < c1.len(),
        0 <= s2 < c2.len(),
        c1[s1] == '$',
        c2[s2] == '$',
        token_type_at(system, c1, s1, t1),
        token_type_at(system, c2, s2, t2),
        token_end(c1, s1) - s1 == token_end(c2, s2) - s2,
    ensures
        t1 matches TokenType::NumberLiteral(n1) && t2 matches TokenType::NumberLiteral(n2)
            && n1.argument_size == n2.argument_size,
{
}

proof fn lemma_run_end(content: Seq<char>, k: int, run: CharRun)
    requires
        0 <= k <= content.len(),
    ensures
        k <= run_end(content, k, run) <= content.len(),
        forall|j: int| k <= j < run_end(content, k, run) ==> in_run(#[trigger] content[j], run),
        run_end(content, k, run) == content.len() || !in_run(content[run_end(content, k, run)], run),
    decreases content.len() - k,
{
    if k < content.len() && in_run(content[k], run) {
        lemma_run_end(content, k + 1, run);
    }
}

proof fn lemma_skip_bounds(content: Seq<char>, pos: int, in_comment: bool)
    requires
        0 <= pos <= content.len(),
    ensures
        pos <= skip_from(content, pos, in_comment) <= content.len(),
    decreases content.len() - pos,
{
    if pos < content.len() {
        if in_comment {
            lemma_skip_bounds(content, pos + 1, content[pos] != '\n');
        } else if is_white_space(content[pos]) {
            lemma_skip_bounds(content, pos + 1, false);
        } else if content[pos] == '/' && pos + 1 < content.len() && content[pos + 1] == '/' {
            lemma_skip_bounds(content, pos + 2, true);
        }
    }
}

/// Reading a token from `pos` moves forward, and strictly unless the text
/// is used up.
pub proof fn lemma_token_progress(content: Seq<char>, pos: int)
    requires
        0 <= pos <= content.len(),
    ensures
        pos <= token_start(content, pos) <= token_end(content, token_start(content, pos)) <= content.len(),
        token_start(content, pos) < content.len() ==> pos < token_end(content, token_start(content, pos)),
        token_start(content, pos) >= content.len() ==> token_end(content, token_start(content, pos)) == content.len(),
{
    lemma_skip_bounds(content, pos, false);
    let s = token_start(content, pos);
    if s < content.len() {
        lemma_run_end(content, s + 1, CharRun::Identifier);
        lemma_run_end(content, s + 1, CharRun::NotQuote);
        lemma_run_end(content, s + 1, CharRun::Hex);
        lemma_run_end(content, s + 1, CharRun::Binary);
        lemma_run_end(content, s + 1, CharRun::Decimal);
    }
}

proof fn lemma_digits_value_nonnegative(digits: Seq<char>, radix: int)
    requires
        radix >= 1,
        forall|j: int| 0 <= j < digits.len() ==> is_hex(#[trigger] digits[j]),
    ensures
        digits_value(digits, radix) >= 0,
    decreases digits.len(),
{
    if digits.len() > 0 {
        lemma_digits_value_nonnegative(digits.drop_last(), radix);
        let v = digits_value(digits.drop_last(), radix);
        assert(v * radix >= 0) by (nonlinear_arith)
            requires
                v >= 0,
                radix >= 1,
        ;
    }
}

/// Relies on `String::push`, which appends `c`.
#[verifier::external_body]
pub(crate) fn push_char(s: &mut String, c: char)
    ensures
        final(s)@ == old(s)@.push(c),
{
    s.push(c);
}

fn is_space_char(c: char) -> (r: bool)
    ensures
        r == is_white_space(c),
{
    ('\u{9}' <= c && c <= '\u{d}') || c == ' ' || c == '\u{85}' || c == '\u{a0}' || c == '\u{1680}' || ('\u{2000}'
        <= c && c <= '\u{200a}') || c == '\u{2028}' || c == '\u{2029}' || c == '\u{202f}' || c == '\u{205f}' || c
        == '\u{3000}'
}

fn is_ascii_numeric(current_char: char) -> (r: bool)
    ensures
        r == is_decimal(current_char),
{
    current_char >= '0' && current_char <= '9'
}

fn is_ascii_binary_digit(current_char: char) -> (r: bool)
    ensures
        r == is_binary(current_char),
{
    current_char == '0' || current_char == '1'
}

fn is_ascii_hex_digit(current_char: char) -> (r: bool)
    ensures
        r == is_hex(current_char),
{
    is_ascii_numeric(current_char) || (current_char >= 'a' && current_char <= 'f') || (current_char >= 'A'
        && current_char <= 'F')
}

fn is_ascii_alphanumeric(current_char: char) -> (r: bool)
    ensures
        r == (is_decimal(current_char) || ('a' <= current_char <= 'z') || ('A' <= current_char <= 'Z')),
{
    is_ascii_numeric(current_char) || (current_char >= 'A' && current_char <= 'Z') || (current_char >= 'a'
        && current_char <= 'z')
}

fn continues_run(c: char, run: CharRun) -> (r: bool)
    ensures
        r == in_run(c, run),
{
    match run {
        CharRun::Identifier => is_ascii_alphanumeric(c) || c == '_',
        CharRun::Hex => is_ascii_hex_digit(c),
        CharRun::Binary => is_ascii_binary_digit(c),
        CharRun::Decimal => is_ascii_numeric(c),
        CharRun::NotQuote => c != '"',
    }
}

fn digit_of(c: char) -> (r: u64)
    requires
        is_hex(c),
    ensures
        r == digit_value(c),
        r < 16,
{
    if is_ascii_numeric(c) {
        (c as u64) - ('0' as u64)
    } else if c >= 'a' && c <= 'f' {
        (c as u64) - ('a' as u64) + 10
    } else {
        (c as u64) - ('A' as u64) + 10
    }
}

/// The 1-based column of offset `pos` on the line that starts at offset
/// `line_start`, saturating at `u32::MAX`.
pub open spec fn column_at(line_start: int, pos: int) -> u32 {
    if pos - line_start + 1 <= u32::MAX {
        (pos - line_start + 1) as u32
    } else {
        u32::MAX
    }
}

/// The number of newlines in `content[from..to]`.
pub open spec fn newlines(content: Seq<char>, from: int, to: int) -> int
    decreases to - from,
{
    if to <= from {
        0
    } else {
        newlines(content, from, to - 1) + if content[to - 1] == '\n' {
            1int
        } else {
            0int
        }
    }
}

/// Where the last line in `content[from..to]` starts: after its last
/// newline, or `line_start` where it holds none.
pub open spec fn line_start_after(content: Seq<char>, from: int, to: int, line_start: int) -> int
    decreases to - from,
{
    if to <= from {
        line_start
    } else if content[to - 1] == '\n' {
        to
    } else {
        line_start_after(content, from, to - 1, line_start)
    }
}

/// The 1-based line of offset `pos`: one more than the newlines before it,
/// saturating at `u32::MAX`.
pub open spec fn line_of(content: Seq<char>, pos: int) -> u32 {
    if 1 + newlines(content, 0, pos) <= u32::MAX {
        (1 + newlines(content, 0, pos)) as u32
    } else {
        u32::MAX
    }
}

/// The offset where the line of offset `pos` starts: after the last newline
/// before it, or 0.
pub open spec fn line_start_of(content: Seq<char>, pos: int) -> int {
    line_start_after(content, 0, pos, 0)
}

/// `t` is the token of `file` that starts at offset `start`: its class and
/// text, and the line, line start and columns of `start`; its end column is
/// counted on the line where it starts.
pub open spec fn token_is(t: Token, system: SystemDefinition, content: Seq<char>, start: int, file: String) -> bool {
    &&& token_type_at(system, content, start, t.ttype)
    &&& t.source_file == file
    &&& t.line == line_of(content, start)
    &&& t.context_start == line_start_of(content, start)
    &&& t.start_column == column_at(line_start_of(content, start), start)
    &&& t.end_column == column_at(line_start_of(content, start), token_end(content, start))
}

proof fn lemma_newlines_nonnegative(c: Seq<char>, a: int, d: int)
    ensures
        newlines(c, a, d) >= 0,
    decreases d - a,
{
    if d > a {
        lemma_newlines_nonnegative(c, a, d - 1);
    }
}

/// Line and line start one character further on.
proof fn lemma_line_step(c: Seq<char>, pos: int)
    requires
        0 <= pos < c.len(),
    ensures
        c[pos] == '\n' ==> line_of(c, pos + 1) == (if line_of(c, pos) < u32::MAX {
            (line_of(c, pos) + 1) as u32
        } else {
            line_of(c, pos)
        }) && line_start_of(c, pos + 1) == pos + 1,
        c[pos] != '\n' ==> line_of(c, pos + 1) == line_of(c, pos) && line_start_of(c, pos + 1) == line_start_of(c, pos),
{
    lemma_newlines_nonnegative(c, 0, pos);
}

/// The column of offset `pos` on the line that starts at `line_start`.
fn column_of(line_start: usize, pos: usize) -> (r: u32)
    requires
        line_start <= pos,
    ensures
        r == column_at(line_start as int, pos as int),
{
    let width = pos - line_start;
    if width < 0xFFFF_FFFF {
        width as u32 + 1
    } else {
        u32::MAX
    }
}

/// Turns source text into tokens. The state is a position in the text with
/// its line, column and the offset where its line starts.
pub struct Lexer<'a> {
    system: &'a SystemDefinition,
    source_file: String,
    file_content: Vec<char>,
    current_char: usize,
    line: u32,
    line_start: usize,
}

impl<'a> Lexer<'a> {
    /// The text being read.
    pub closed spec fn content(&self) -> Seq<char> {
        self.file_content@
    }

    /// The offset of the next character to read.
    pub closed spec fn position(&self) -> int {
        self.current_char as int
    }

    /// The target whose mnemonics and registers the lexer knows.
    pub closed spec fn system(&self) -> SystemDefinition {
        *self.system
    }

    /// The file that the text was read from.
    pub closed spec fn file(&self) -> String {
        self.source_file
    }

    /// `next` is this lexer after reading the token `t` that starts at
    /// `start`.
    pub open spec fn steps_to(&self, next: &Self, start: int, t: Token) -> bool {
        &&& next.wf()
        &&& next.content() == self.content()
        &&& next.system() == self.system()
        &&& next.file() == self.file()
        &&& next.position() == token_end(self.content(), start)
        &&& token_type_at(self.system(), self.content(), start, t.ttype)
        &&& t.source_file == self.file()
        &&& token_is(t, self.system(), self.content(), start, self.file())
    }

    /// The 1-based line of the position.
    pub closed spec fn line(&self) -> u32 {
        self.line
    }

    /// The offset where the line of the position starts.
    pub closed spec fn line_start(&self) -> int {
        self.line_start as int
    }

    pub open spec fn wf(&self) -> bool {
        &&& 0 <= self.position() <= self.content().len()
        &&& 0 <= self.line_start() <= self.position()
        &&& self.line() == line_of(self.content(), self.position())
        &&& self.line_start() == line_start_of(self.content(), self.position())
    }

    /// A lexer at the start of `file_content`, read from `source_file`.
    pub fn new(system: &'a SystemDefinition, source_file: String, file_content: Vec<char>) -> (r: Self)
        ensures
            r.wf(),
            r.content() == file_content@,
            r.position() == 0,
            r.line() == 1,
            r.line_start() == 0,
            r.system() == *system,
            r.file() == source_file,
    {
        Lexer { system, source_file, file_content, current_char: 0, line: 1, line_start: 0 }
    }

    /// The file that the text was read from.
    pub fn source_file(&self) -> (r: &String)
        ensures
            *r == self.file(),
    {
        &self.source_file
    }

    pub fn reset(&mut self)
        ensures
            final(self).wf(),
            final(self).content() == old(self).content(),
            final(self).system() == old(self).system(),
            final(self).file() == old(self).file(),
            final(self).position() == 0,
            final(self).line() == 1,
            final(self).line_start() == 0,
    {
        self.line = 1;
        self.current_char = 0;
        self.line_start = 0;
    }

    fn peek(&self) -> (r: Option<char>)
        requires
            self.wf(),
        ensures
            r == (if self.position() < self.content().len() {
                Some(self.content()[self.position()])
            } else {
                None
            }),
    {
        if self.current_char < self.file_content.len() {
            Some(self.file_content[self.current_char])
        } else {
            None
        }
    }

    fn peek_lookahead(&self, lookahead: usize) -> (r: Option<char>)
        requires
            self.wf(),
        ensures
            r == (if self.position() + lookahead < self.content().len() {
                Some(self.content()[self.position() + lookahead])
            } else {
                None
            }),
    {
        if lookahead < self.file_content.len() - self.current_char {
            Some(self.file_content[self.current_char + lookahead])
        } else {
            None
        }
    }

    fn consume(&mut self) -> (r: Option<char>)
        requires
            old(self).wf(),
        ensures
            final(self).wf(),
            final(self).content() == old(self).content(),
            final(self).system() == old(self).system(),
            final(self).file() == old(self).file(),
            final(self).position() == (if old(self).position() < old(self).content().len() {
                old(self).position() + 1
            } else {
                old(self).position()
            }),
            r == (if old(self).position() < old(self).content().len() {
                Some(old(self).content()[old(self).position()])
            } else {
                None
            }),
    {
        if self.current_char < self.file_content.len() {
            let consumed_char = self.file_content[self.current_char];
            proof {
                lemma_line_step(self.content(), self.position());
            }
            self.current_char = self.current_char + 1;
            if consumed_char == '\n' {
                if self.line < u32::MAX {
                    self.line = self.line + 1;
                }
                self.line_start = self.current_char;
            }
            Some(consumed_char)
        } else {
            None
        }
    }

    fn eat_whitespaces(&mut self)
        requires
            old(self).wf(),
        ensures
            final(self).wf(),
            final(self).content() == old(self).content(),
            final(self).system() == old(self).system(),
            final(self).file() == old(self).file(),
            skip_from(final(self).content(), final(self).position(), false) == skip_from(
                old(self).content(),
                old(self).position(),
                false,
            ),
            final(self).position() == final(self).content().len() || !is_white_space(
                final(self).content()[final(self).position()],
            ),
            final(self).position() >= old(self).position(),
    {
        let ghost start = *self;
        while self.current_char < self.file_content.len() && is_space_char(self.file_content[self.current_char])
            invariant
                self.wf(),
                self.content() == start.content(),
                self.system() == start.system(),
                self.file() == start.file(),
                skip_from(self.content(), self.position(), false) == skip_from(start.content(), start.position(), false),
                self.position() >= start.position(),
            decreases self.content().len() - self.position(),
        {
            self.consume();
        }
    }

    /// Skips whitespace and `//` comments.
    fn eat_comment(&mut self)
        requires
            old(self).wf(),
        ensures
            final(self).wf(),
            final(self).content() == old(self).content(),
            final(self).system() == old(self).system(),
            final(self).file() == old(self).file(),
            final(self).position() == token_start(old(self).content(), old(self).position()),
            final(self).position() >= old(self).position(),
    {
        let ghost start = *self;
        loop
            invariant
                self.wf(),
                self.content() == start.content(),
                self.system() == start.system(),
                self.file() == start.file(),
                skip_from(self.content(), self.position(), false) == skip_from(start.content(), start.position(), false),
                self.position() >= start.position(),
            ensures
                self.wf(),
                self.content() == start.content(),
                self.system() == start.system(),
                self.file() == start.file(),
                self.position() == skip_from(start.content(), start.position(), false),
                self.position() >= start.position(),
            decreases self.content().len() - self.position(),
        {
            self.eat_whitespaces();
            if self.peek() == Some('/') && self.peek_lookahead(1) == Some('/') {
                let ghost c = self.content();
                let ghost mark = self.position();
                self.consume();
                self.consume();
                while self.current_char < self.file_content.len() && self.file_content[self.current_char] != '\n'
                    invariant
                        self.wf(),
                        self.content() == c,
                        c == start.content(),
                        self.system() == start.system(),
                        self.file() == start.file(),
                        skip_from(c, self.position(), true) == skip_from(start.content(), start.position(), false),
                        self.position() >= mark + 2,
                        mark >= start.position(),
                    decreases self.content().len() - self.position(),
                {
                    self.consume();
                }
            } else {
                break;
            }
        }
    }

    /// Consumes the run of `run` characters at the position.
    fn scan_run(&mut self, run: CharRun)
        requires
            old(self).wf(),
        ensures
            final(self).wf(),
            final(self).content() == old(self).content(),
            final(self).system() == old(self).system(),
            final(self).file() == old(self).file(),
            final(self).position() == run_end(old(self).content(), old(self).position(), run),
    {
        let ghost start = *self;
        while self.current_char < self.file_content.len() && continues_run(self.file_content[self.current_char], run)
            invariant
                self.wf(),
                self.content() == start.content(),
                self.system() == start.system(),
                self.file() == start.file(),
                run_end(self.content(), self.position(), run) == run_end(start.content(), start.position(), run),
            decreases self.content().len() - self.position(),
        {
            self.consume();
        }
    }

    /// The text between offsets `from` and `to`.
    fn text_between(&self, from: usize, to: usize) -> (r: String)
        requires
            from <= to <= self.content().len(),
        ensures
            r@ == self.content().subrange(from as int, to as int),
    {
        let mut text = String::new();
        let mut k: usize = from;
        while k < to
            invariant
                from <= k <= to <= self.content().len(),
                text@ == self.content().subrange(from as int, k as int),
            decreases to - k,
        {
            push_char(&mut text, self.file_content[k]);
            proof {
                assert(self.content().subrange(from as int, k + 1) =~= self.content().subrange(from as int, k as int).push(
                    self.content()[k as int],
                ));
            }
            k = k + 1;
        }
        text
    }

    /// The number that the digits between `from` and `to` spell in base
    /// `radix`, or 0 where there are none or it does not fit in 32 bits.
    fn parse_digits(&self, from: usize, to: usize, radix: u64) -> (r: u32)
        requires
            from <= to <= self.content().len(),
            2 <= radix <= 16,
            forall|j: int| from <= j < to ==> is_hex(#[trigger] self.content()[j]),
        ensures
            r == parsed_number(self.content().subrange(from as int, to as int), radix as int),
    {
        let ghost c = self.content();
        let mut value: u64 = 0;
        let mut overflow = false;
        let mut k: usize = from;
        while k < to
            invariant
                from <= k <= to <= c.len(),
                c == self.content(),
                2 <= radix <= 16,
                forall|j: int| from <= j < to ==> is_hex(#[trigger] c[j]),
                !overflow ==> value == digits_value(c.subrange(from as int, k as int), radix as int),
                !overflow ==> value <= u32::MAX,
                overflow ==> digits_value(c.subrange(from as int, k as int), radix as int) > u32::MAX,
            decreases to - k,
        {
            let ghost prefix = c.subrange(from as int, k as int);
            let ghost next = c.subrange(from as int, k + 1);
            proof {
                assert(next.drop_last() =~= prefix);
                assert(next.last() == c[k as int]);
                assert forall|j: int| 0 <= j < prefix.len() implies is_hex(#[trigger] prefix[j]) by {
                    assert(prefix[j] == c[from + j]);
                }
                lemma_digits_value_nonnegative(prefix, radix as int);
            }
            let d = digit_of(self.file_content[k]);
            if !overflow {
                assert(value * radix <= 0xFFFF_FFFF * 16) by (nonlinear_arith)
                    requires
                        value <= u32::MAX,
                        radix <= 16,
                ;
                value = value * radix + d;
                if value > 0xFFFF_FFFF {
                    overflow = true;
                }
            } else {
                let ghost v = digits_value(prefix, radix as int);
                assert(v * radix >= v) by (nonlinear_arith)
                    requires
                        v >= 0,
                        radix >= 1,
                ;
            }
            k = k + 1;
        }
        if overflow || from == to {
            0
        } else {
            value as u32
        }
    }

    fn new_token(&self, ttype: TokenType, line: u32, start_column: u32, end_column: u32, context_start: usize) -> (r: Token)
        ensures
            r.ttype == ttype,
            r.source_file == self.file(),
            r.start_column == start_column,
            r.end_column == end_column,
            r.line == line,
            r.context_start == context_start,
    {
        Token {
            ttype,
            line,
            start_column,
            end_column,
            source_file: self.source_file.clone(),
            context_start,
        }
    }

    /// A one-character token.
    fn new_simple_token(&mut self, ttype: TokenType) -> (r: Token)
        requires
            old(self).wf(),
            old(self).position() < old(self).content().len(),
        ensures
            final(self).wf(),
            final(self).content() == old(self).content(),
            final(self).system() == old(self).system(),
            final(self).file() == old(self).file(),
            final(self).position() == old(self).position() + 1,
            r.ttype == ttype,
            r.source_file == old(self).file(),
            r.line == old(self).line(),
            r.context_start == old(self).line_start(),
            r.start_column == column_at(old(self).line_start(), old(self).position()),
            r.end_column == column_at(old(self).line_start(), old(self).position() + 1),
    {
        let line = self.line;
        let context_start = self.line_start;
        let start_column = column_of(context_start, self.current_char);
        self.consume();
        let end_column = column_of(context_start, self.current_char);
        self.new_token(ttype, line, start_column, end_column, context_start)
    }

    /// An invalid token for the character at the position.
    fn token_invalid(&mut self) -> (r: Token)
        requires
            old(self).wf(),
            old(self).position() < old(self).content().len(),
        ensures
            final(self).wf(),
            final(self).content() == old(self).content(),
            final(self).system() == old(self).system(),
            final(self).file() == old(self).file(),
            final(self).position() == old(self).position() + 1,
            r.ttype == TokenType::Invalid(old(self).content()[old(self).position()]),
            r.source_file == old(self).file(),
            r.line == old(self).line(),
            r.context_start == old(self).line_start(),
            r.start_column == column_at(old(self).line_start(), old(self).position()),
            r.end_column == column_at(old(self).line_start(), old(self).position() + 1),
    {
        let line = self.line;
        let context_start = self.line_start;
        let start_column = column_of(context_start, self.current_char);
        let invalid_char = match self.consume() {
            Some(c) => c,
            None => ' ',
        };
        let end_column = column_of(context_start, self.current_char);
        self.new_token(TokenType::Invalid(invalid_char), line, start_column, end_column, context_start)
    }

    fn is_keyword(&self, identifier: &String) -> (r: Option<TokenType>)
        ensures
            match r {
                Some(t) => word_class(self.system(), identifier@, t) && (identifier@ == "include"@ || identifier@
                    == "incbin"@ || identifier@ == "origin"@ || identifier@ == "snesmap"@),
                None => !(identifier@ == "include"@ || identifier@ == "incbin"@ || identifier@ == "origin"@
                    || identifier@ == "snesmap"@),
            },
    {
        if *identifier == "include".to_owned() {
            Some(TokenType::KeywordInclude)
        } else if *identifier == "incbin".to_owned() {
            Some(TokenType::KeywordIncbin)
        } else if *identifier == "origin".to_owned() {
            Some(TokenType::KeywordOrigin)
        } else if *identifier == "snesmap".to_owned() {
            Some(TokenType::KeywordSnesMap)
        } else {
            None
        }
    }

    fn is_opcode(&self, identifier: &String) -> (r: bool)
        ensures
            r == is_mnemonic(self.system(), identifier@),
    {
        let mut i: usize = 0;
        while i < self.system.instructions.len()
            invariant
                i <= self.system().instructions@.len(),
                forall|j: int| 0 <= j < i ==> (#[trigger] self.system().instructions@[j]).name@ != identifier@,
            decreases self.system().instructions@.len() - i,
        {
            if self.system.instructions[i].name == *identifier {
                return true;
            }
            i = i + 1;
        }
        false
    }

    fn is_register(&self, identifier: &String) -> (r: bool)
        ensures
            r == is_register_name(self.system(), identifier@),
    {
        let mut i: usize = 0;
        while i < self.system.registers.len()
            invariant
                i <= self.system().registers@.len(),
                forall|j: int| 0 <= j < i ==> (#[trigger] self.system().registers@[j])@ != identifier@,
            decreases self.system().registers@.len() - i,
        {
            if self.system.registers[i] == *identifier {
                return true;
            }
            i = i + 1;
        }
        false
    }

    fn parse_identifier_or_similar(&mut self) -> (r: Token)
        requires
            old(self).wf(),
            old(self).position() < old(self).content().len(),
            is_ident_start(old(self).content()[old(self).position()]),
        ensures
            old(self).steps_to(&*final(self), old(self).position(), r),
    {
        let line = self.line;
        let context_start = self.line_start;
        let start_column = column_of(context_start, self.current_char);
        let start = self.current_char;
        self.consume();
        self.scan_run(CharRun::Identifier);
        proof { lemma_run_end(self.content(), start + 1, CharRun::Identifier); }
        let end_column = column_of(context_start, self.current_char);
        let word = self.text_between(start, self.current_char);
        let ttype = match self.is_keyword(&word) {
            Some(keyword) => keyword,
            None => if self.is_opcode(&word) {
                TokenType::Opcode(word)
            } else if self.is_register(&word) {
                TokenType::Register(word)
            } else {
                TokenType::Identifier(word)
            },
        };
        self.new_token(ttype, line, start_column, end_column, context_start)
    }

    fn parse_string_literal(&mut self) -> (r: Token)
        requires
            old(self).wf(),
            old(self).position() < old(self).content().len(),
            old(self).content()[old(self).position()] == '"',
        ensures
            old(self).steps_to(&*final(self), old(self).position(), r),
    {
        let line = self.line;
        let context_start = self.line_start;
        let start_column = column_of(context_start, self.current_char);
        let start = self.current_char;
        self.consume();
        self.scan_run(CharRun::NotQuote);
        proof { lemma_run_end(self.content(), start + 1, CharRun::NotQuote); }
        if self.current_char < self.file_content.len() {
            let parsed_string = self.text_between(start + 1, self.current_char);
            self.consume();
            let end_column = column_of(context_start, self.current_char);
            self.new_token(TokenType::StringLiteral(parsed_string), line, start_column, end_column, context_start)
        } else {
            let end_column = column_of(context_start, self.current_char);
            self.new_token(TokenType::Invalid('"'), line, start_column, end_column, context_start)
        }
    }

    fn parse_hex_number(&mut self) -> (r: Token)
        requires
            old(self).wf(),
            old(self).position() < old(self).content().len(),
            old(self).content()[old(self).position()] == '$',
        ensures
            old(self).steps_to(&*final(self), old(self).position(), r),
    {
        let line = self.line;
        let context_start = self.line_start;
        let start_column = column_of(context_start, self.current_char);
        let start = self.current_char;
        self.consume();
        self.scan_run(CharRun::Hex);
        proof { lemma_run_end(self.content(), start + 1, CharRun::Hex); }
        let end_column = column_of(context_start, self.current_char);
        let result_number = self.parse_digits(start + 1, self.current_char, 16);
        let parsed_length = self.current_char - start - 1;
        let argument_size = if parsed_length > 6 {
            ArgumentSize::Word32
        } else if parsed_length > 4 {
            ArgumentSize::Word24
        } else if parsed_length > 2 {
            ArgumentSize::Word16
        } else {
            ArgumentSize::Word8
        };
        let number_literal = NumberLiteral { number: result_number, argument_size };
        self.new_token(TokenType::NumberLiteral(number_literal), line, start_column, end_column, context_start)
    }

    fn parse_binary_number(&mut self) -> (r: Token)
        requires
            old(self).wf(),
            old(self).position() < old(self).content().len(),
            old(self).content()[old(self).position()] == '%',
        ensures
            old(self).steps_to(&*final(self), old(self).position(), r),
    {
        let line = self.line;
        let context_start = self.line_start;
        let start_column = column_of(context_start, self.current_char);
        let start = self.current_char;
        self.consume();
        self.scan_run(CharRun::Binary);
        proof { lemma_run_end(self.content(), start + 1, CharRun::Binary); }
        let end_column = column_of(context_start, self.current_char);
        let result_number = self.parse_digits(start + 1, self.current_char, 2);
        let parsed_length = self.current_char - start - 1;
        let argument_size = if parsed_length > 24 {
            ArgumentSize::Word32
        } else if parsed_length > 16 {
            ArgumentSize::Word24
        } else if parsed_length > 8 {
            ArgumentSize::Word16
        } else {
            ArgumentSize::Word8
        };
        let number_literal = NumberLiteral { number: result_number, argument_size };
        self.new_token(TokenType::NumberLiteral(number_literal), line, start_column, end_column, context_start)
    }

    fn parse_number(&mut self) -> (r: Token)
        requires
            old(self).wf(),
            old(self).position() < old(self).content().len(),
            is_decimal(old(self).content()[old(self).position()]),
        ensures
            old(self).steps_to(&*final(self), old(self).position(), r),
    {
        let line = self.line;
        let context_start = self.line_start;
        let start_column = column_of(context_start, self.current_char);
        let start = self.current_char;
        self.consume();
        self.scan_run(CharRun::Decimal);
        proof { lemma_run_end(self.content(), start + 1, CharRun::Decimal); }
        let end_column = column_of(context_start, self.current_char);
        let result_number = self.parse_digits(start, self.current_char, 10);
        let number_literal = NumberLiteral { number: result_number, argument_size: number_to_argument_size(result_number) };
        self.new_token(TokenType::NumberLiteral(number_literal), line, start_column, end_column, context_start)
    }

    /// Reads the token that starts with `current_char`, at the position.
    fn parse_token(&mut self, current_char: char) -> (r: Token)
        requires
            old(self).wf(),
            old(self).position() < old(self).content().len(),
            old(self).content()[old(self).position()] == current_char,
        ensures
            old(self).steps_to(&*final(self), old(self).position(), r),
    {
        if ('a' <= current_char && current_char <= 'z') || ('A' <= current_char && current_char <= 'Z')
            || current_char == '_' {
            self.parse_identifier_or_similar()
        } else if current_char == '"' {
            self.parse_string_literal()
        } else if current_char == '#' {
            self.new_simple_token(TokenType::Immediate)
        } else if current_char == '$' {
            self.parse_hex_number()
        } else if current_char == ',' {
            self.new_simple_token(TokenType::Comma)
        } else if current_char == '(' {
            self.new_simple_token(TokenType::LeftParen)
        } else if current_char == ')' {
            self.new_simple_token(TokenType::RightParen)
        } else if current_char == '[' {
            self.new_simple_token(TokenType::LeftBracket)
        } else if current_char == ']' {
            self.new_simple_token(TokenType::RightBracket)
        } else if current_char == '%' {
            self.parse_binary_number()
        } else if current_char == ':' {
            self.new_simple_token(TokenType::Colon)
        } else if is_ascii_numeric(current_char) {
            self.parse_number()
        } else {
            self.token_invalid()
        }
    }

    /// Reads the next token.
    pub fn get_next_token(&mut self) -> (r: Token)
        requires
            old(self).wf(),
        ensures
            old(self).steps_to(&*final(self), token_start(old(self).content(), old(self).position()), r),
    {
        self.eat_comment();
        match self.peek() {
            None => self.token_eof(),
            Some(current_char) => self.parse_token(current_char),
        }
    }

    /// The `times`-th token ahead, read without moving.
    pub fn lookahead(&mut self, times: u32) -> (r: Token)
        requires
            old(self).wf(),
            times >= 1,
        ensures
            final(self).wf(),
            final(self).content() == old(self).content(),
            final(self).system() == old(self).system(),
            final(self).file() == old(self).file(),
            final(self).position() == old(self).position(),
            token_type_at(
                old(self).system(),
                old(self).content(),
                token_start(old(self).content(), position_after(old(self).content(), old(self).position(), (times - 1) as nat)),
                r.ttype,
            ),
            r.source_file == old(self).file(),
            token_is(
                r,
                old(self).system(),
                old(self).content(),
                token_start(old(self).content(), position_after(old(self).content(), old(self).position(), (times - 1) as nat)),
                old(self).file(),
            ),
    {
        let backup_line = self.line;
        let backup_current_char = self.current_char;
        let backup_line_start = self.line_start;
        let ghost start = *self;
        let mut k: u32 = 0;
        while k < times - 1
            invariant
                k <= times - 1,
                self.wf(),
                self.content() == start.content(),
                self.system() == start.system(),
                self.file() == start.file(),
                self.position() == position_after(start.content(), start.position(), k as nat),
            decreases times - 1 - k,
        {
            self.get_next_token();
            k = k + 1;
        }
        let lookahead = self.get_next_token();
        self.line = backup_line;
        self.current_char = backup_current_char;
        self.line_start = backup_line_start;
        lookahead
    }

    fn token_eof(&self) -> (r: Token)
        requires
            self.wf(),
        ensures
            r.ttype is EndOfFile,
            r.source_file == self.file(),
            r.line == self.line(),
            r.context_start == self.line_start(),
            r.start_column == column_at(self.line_start(), self.position()),
            r.end_column == column_at(self.line_start(), self.position()),
    {
        self.new_token(
            TokenType::EndOfFile,
            self.line,
            column_of(self.line_start, self.current_char),
            column_of(self.line_start, self.current_char),
            self.line_start,
        )
    }
}

} // verus!
