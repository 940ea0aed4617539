use std::collections::HashMap;

use zeal::collect_label_pass::CollectLabelPass;
use zeal::instruction_statement_pass::InstructionToStatementPass;
use zeal::lexer::{Lexer, NumberLiteral, TokenType};
use zeal::output_writer::{
    handle_final_instruction, map_default, map_snes_hirom, map_snes_lorom, write_number_literal, OutputCommand,
    OutputWriter,
};
use zeal::parser::{ErrorMessage, FinalInstruction, ParseExpression, ParseNode, ParseStep, Parser};
use zeal::pass::TreePass;
use zeal::resolve_label_pass::ResolveLabelPass;
use zeal::snes_cpu::{find_system, snes_argument_size_to_addressing_mode, snes_cpu, supported_systems};
use zeal::symbol_table::SymbolTable;
use zeal::system_definition::{
    AddressingMode, InstructionArgument,
    argument_size_to_bit_size, argument_size_to_byte_size, number_to_argument_size, ArgumentSize, SystemDefinition,
};

struct Assembly {
    image: Vec<u8>,
    errors: Vec<String>,
    labels: SymbolTable,
}

fn messages(errors: &[ErrorMessage]) -> Vec<String> {
    errors.iter().map(|e| e.message.clone()).collect()
}

fn parse<'a>(system: &'a SystemDefinition, source: &str, files: &HashMap<&str, Vec<u8>>) -> (Vec<ParseNode<'a>>, Vec<String>) {
    let mut parser = Parser::new(system);
    parser.set_current_input_file(&"main.s".to_string(), source.chars().collect());
    loop {
        match parser.parse_tree() {
            ParseStep::Finished(tree) => return (tree, messages(&parser.error_messages)),
            ParseStep::NeedsFile(request) => match files.get(request.filename.as_str()) {
                Some(bytes) => match request.kind {
                    zeal::parser::FileKind::Incbin => {
                        parser.incbin_found(&request, request.filename.clone(), bytes.len() as u64)
                    }
                    zeal::parser::FileKind::Include => parser.set_current_input_file(
                        &request.filename,
                        String::from_utf8(bytes.clone()).unwrap().chars().collect(),
                    ),
                },
                None => parser.file_not_found(&request),
            },
        }
    }
}

fn run(system: &SystemDefinition, commands: &[OutputCommand], files: &HashMap<&str, Vec<u8>>) -> Vec<u8> {
    let mut image: Vec<u8> = Vec::new();
    let mut at: usize = 0;
    for command in commands {
        let bytes: Vec<u8> = match command {
            OutputCommand::Seek(offset) => {
                at = *offset as usize;
                continue;
            }
            OutputCommand::Write(bytes) => bytes.clone(),
            OutputCommand::Incbin(path) => files[path.as_str()].clone(),
        };
        if image.len() < at + bytes.len() {
            image.resize(at + bytes.len(), 0);
        }
        image[at..at + bytes.len()].copy_from_slice(&bytes);
        at += bytes.len();
    }
    let _ = system;
    image
}

fn assemble_with(source: &str, files: &HashMap<&str, Vec<u8>>) -> Assembly {
    let system = snes_cpu();
    let (tree, mut errors) = parse(&system, source, files);
    let mut labels = SymbolTable::new();
    let mut collect = CollectLabelPass::new(&system);
    let tree = collect.do_pass(tree, &mut labels);
    let mut resolve = ResolveLabelPass::new(&system);
    let tree = resolve.do_pass(tree, &mut labels);
    errors.extend(messages(&resolve.error_messages));
    let mut select = InstructionToStatementPass::new(&system);
    let tree = select.do_pass(tree, &mut labels);
    errors.extend(messages(&select.error_messages));
    let mut writer = OutputWriter::new(&system);
    let commands = writer.write(&tree);
    let image = run(&system, &commands, files);
    Assembly { image, errors, labels }
}

fn assemble(source: &str) -> Assembly {
    assemble_with(source, &HashMap::new())
}

fn tokens(source: &str) -> Vec<TokenType> {
    let system = snes_cpu();
    let mut lexer = Lexer::new(&system, "t.s".to_string(), source.chars().collect());
    let mut out = Vec::new();
    loop {
        let token = lexer.get_next_token();
        let end = matches!(token.ttype, TokenType::EndOfFile);
        out.push(token.ttype);
        if end {
            return out;
        }
    }
}

fn literal(t: &TokenType) -> NumberLiteral {
    match t {
        TokenType::NumberLiteral(n) => *n,
        other => panic!("not a number: {:?}", other),
    }
}

#[test]
fn implied_immediate_absolute() {
    let a = assemble("clc\n lda #$10\n lda $1234\n");
    assert!(a.errors.is_empty(), "{:?}", a.errors);
    assert_eq!(a.image, vec![0x18, 0xA9, 0x10, 0xAD, 0x34, 0x12]);
}

#[test]
fn size_by_syntax_for_lda() {
    assert_eq!(assemble("lda #$10").image, vec![0xA9, 0x10]);
    assert_eq!(assemble("lda #$1000").image, vec![0xA9, 0x00, 0x10]);
    assert_eq!(assemble("lda $10").image, vec![0xA5, 0x10]);
    assert_eq!(assemble("lda $1000").image, vec![0xAD, 0x00, 0x10]);
    assert_eq!(assemble("lda $100000").image, vec![0xAF, 0x00, 0x00, 0x10]);
}

#[test]
fn forward_branch() {
    let a = assemble("bra target\n nop\n nop\n target:\n nop\n");
    assert!(a.errors.is_empty(), "{:?}", a.errors);
    assert_eq!(a.image, vec![0x80, 0x02, 0xEA, 0xEA, 0xEA]);
    assert_eq!(a.labels.address_for("target"), 4);
}

#[test]
fn backward_branch_too_far() {
    let mut source = String::from("target:\n");
    for _ in 0..198 {
        source.push_str(" nop\n");
    }
    source.push_str(" bra target\n");
    let a = assemble(&source);
    assert!(a.errors.contains(
        &"Branch label 'target' is too far away. Consider reducing the distance of the label.".to_string()
    ));
}

#[test]
fn backward_branch_in_range() {
    let a = assemble("target:\n nop\n bra target\n");
    assert!(a.errors.is_empty(), "{:?}", a.errors);
    assert_eq!(a.image, vec![0xEA, 0x80, 0xFD]);
}

#[test]
fn origin_with_lorom_mapping() {
    let a = assemble("snesmap lorom\n origin $008000\n lda #$01\n");
    assert!(a.errors.is_empty(), "{:?}", a.errors);
    assert_eq!(a.image, vec![0xA9, 0x01]);
    let b = assemble("snesmap lorom\n origin $018000\n lda #$01\n");
    assert_eq!(b.image.len(), 0x8002);
    assert_eq!(&b.image[0x8000..], &[0xA9, 0x01]);
}

#[test]
fn incbin_pass_through() {
    let mut files = HashMap::new();
    files.insert("F", vec![0xDE, 0xAD, 0xBE, 0xEF]);
    let a = assemble_with("origin $0\n incbin \"F\"\n after:\n lda #$FF\n", &files);
    assert!(a.errors.is_empty(), "{:?}", a.errors);
    assert_eq!(a.image, vec![0xDE, 0xAD, 0xBE, 0xEF, 0xA9, 0xFF]);
    assert_eq!(a.labels.address_for("after"), 4);
}

#[test]
fn missing_incbin_is_reported() {
    let a = assemble("incbin \"nothing.bin\"\n");
    assert_eq!(a.errors, vec!["Couldn't open file 'nothing.bin' for incbin statement".to_string()]);
}

#[test]
fn include_reads_the_other_file() {
    let mut files = HashMap::new();
    files.insert("other.s", b"nop\n".to_vec());
    let a = assemble_with("clc\n include \"other.s\"\n clc\n", &files);
    assert!(a.errors.is_empty(), "{:?}", a.errors);
    assert_eq!(a.image, vec![0x18, 0xEA, 0x18]);
}

#[test]
fn label_distance_is_encoded_length() {
    let a = assemble("origin $100\n first:\n lda #$1000\n nop\n lda $12\n second:\n");
    let first = a.labels.address_for("first");
    let second = a.labels.address_for("second");
    assert_eq!(first, 0x100);
    assert_eq!(second - first, 3 + 1 + 2);
}

#[test]
fn passes_agree_on_addresses() {
    let a = assemble("jmp there\n nop\n there:\n bra there\n");
    assert!(a.errors.is_empty(), "{:?}", a.errors);
    assert_eq!(a.labels.address_for("there"), 4);
    assert_eq!(a.image, vec![0x4C, 0x04, 0x00, 0xEA, 0x80, 0xFE]);
}

#[test]
fn hex_size_follows_digit_count() {
    let t = tokens("$01 $0001 $FF $00FF $000001 $00000001 $123");
    let sizes: Vec<ArgumentSize> = t[..7].iter().map(|x| literal(x).argument_size).collect();
    assert_eq!(
        sizes,
        vec![
            ArgumentSize::Word8,
            ArgumentSize::Word16,
            ArgumentSize::Word8,
            ArgumentSize::Word16,
            ArgumentSize::Word24,
            ArgumentSize::Word32,
            ArgumentSize::Word16
        ]
    );
    assert_eq!(literal(&t[1]).number, 1);
    assert_eq!(literal(&t[6]).number, 0x123);
}

#[test]
fn binary_and_decimal_literals() {
    let t = tokens("%101 %100000000 1 256 70000 16777216");
    assert_eq!(literal(&t[0]), NumberLiteral { number: 5, argument_size: ArgumentSize::Word8 });
    assert_eq!(literal(&t[1]), NumberLiteral { number: 256, argument_size: ArgumentSize::Word16 });
    assert_eq!(literal(&t[2]), NumberLiteral { number: 1, argument_size: ArgumentSize::Word8 });
    assert_eq!(literal(&t[3]), NumberLiteral { number: 256, argument_size: ArgumentSize::Word16 });
    assert_eq!(literal(&t[4]), NumberLiteral { number: 70000, argument_size: ArgumentSize::Word24 });
    assert_eq!(literal(&t[5]), NumberLiteral { number: 16777216, argument_size: ArgumentSize::Word32 });
}

#[test]
fn literal_too_large_reads_zero() {
    let t = tokens("$123456789 99999999999");
    assert_eq!(literal(&t[0]), NumberLiteral { number: 0, argument_size: ArgumentSize::Word32 });
    assert_eq!(literal(&t[1]).number, 0);
}

#[test]
fn token_classes() {
    let t = tokens("lda x foo: , # ( ) [ ] \"a b\" include incbin origin snesmap ? \"open");
    assert!(matches!(&t[0], TokenType::Opcode(s) if s == "lda"));
    assert!(matches!(&t[1], TokenType::Register(s) if s == "x"));
    assert!(matches!(&t[2], TokenType::Identifier(s) if s == "foo"));
    assert!(matches!(t[3], TokenType::Colon));
    assert!(matches!(t[4], TokenType::Comma));
    assert!(matches!(t[5], TokenType::Immediate));
    assert!(matches!(t[6], TokenType::LeftParen));
    assert!(matches!(t[7], TokenType::RightParen));
    assert!(matches!(t[8], TokenType::LeftBracket));
    assert!(matches!(t[9], TokenType::RightBracket));
    assert!(matches!(&t[10], TokenType::StringLiteral(s) if s == "a b"));
    assert!(matches!(t[11], TokenType::KeywordInclude));
    assert!(matches!(t[12], TokenType::KeywordIncbin));
    assert!(matches!(t[13], TokenType::KeywordOrigin));
    assert!(matches!(t[14], TokenType::KeywordSnesMap));
    assert!(matches!(t[15], TokenType::Invalid('?')));
    assert!(matches!(t[16], TokenType::Invalid('"')));
    assert!(matches!(t[17], TokenType::EndOfFile));
}

#[test]
fn comments_and_whitespace_are_skipped() {
    let t = tokens("  // one\n// two\n   // three\n\tnop // four\n");
    assert_eq!(t.len(), 2);
    assert!(matches!(&t[0], TokenType::Opcode(s) if s == "nop"));
    let a = assemble("// start\n  nop // after\n   // indented\n nop\n");
    assert_eq!(a.image, vec![0xEA, 0xEA]);
}

#[test]
fn end_of_file_repeats() {
    let system = snes_cpu();
    let mut lexer = Lexer::new(&system, "t.s".to_string(), "".chars().collect());
    assert!(matches!(lexer.get_next_token().ttype, TokenType::EndOfFile));
    assert!(matches!(lexer.get_next_token().ttype, TokenType::EndOfFile));
}

#[test]
fn lookahead_does_not_move() {
    let system = snes_cpu();
    let mut lexer = Lexer::new(&system, "t.s".to_string(), "nop clc sec".chars().collect());
    assert!(matches!(&lexer.lookahead(2).ttype, TokenType::Opcode(s) if s == "clc"));
    assert!(matches!(&lexer.lookahead(3).ttype, TokenType::Opcode(s) if s == "sec"));
    assert!(matches!(&lexer.get_next_token().ttype, TokenType::Opcode(s) if s == "nop"));
    lexer.reset();
    assert!(matches!(&lexer.get_next_token().ttype, TokenType::Opcode(s) if s == "nop"));
}

#[test]
fn token_positions() {
    let system = snes_cpu();
    let mut lexer = Lexer::new(&system, "t.s".to_string(), "nop\n  lda #1".chars().collect());
    let first = lexer.get_next_token();
    assert_eq!((first.line, first.start_column, first.end_column), (1, 1, 4));
    let second = lexer.get_next_token();
    assert_eq!((second.line, second.start_column, second.end_column, second.context_start), (2, 3, 6, 4));
}

#[test]
fn undefined_label_is_reported() {
    let a = assemble("lda missing\n");
    assert_eq!(a.errors, vec!["Label 'missing' not found.".to_string()]);
}

#[test]
fn register_in_immediate_is_reported() {
    let a = assemble("lda #x\n");
    assert_eq!(a.errors, vec!["immediate addressing mode does not support 'x' register argument.".to_string()]);
}

#[test]
fn unsupported_modes_are_reported() {
    assert_eq!(assemble("nop #$10").errors, vec!["opcode 'nop' does not support immediate addressing mode of size 8-bit.".to_string()]);
    assert_eq!(assemble("lda").errors, vec!["opcode 'lda' does not support implied addressing mode.".to_string()]);
    assert_eq!(assemble("jmp $10").errors, vec!["opcode 'jmp' does not support direct page addressing mode.".to_string()]);
    assert_eq!(assemble("sta $10,s").image, vec![0x83, 0x10]);
    assert_eq!(assemble("jmp $10,s").errors, vec!["opcode 'jmp' does not support stack relative mode.".to_string()]);
    assert_eq!(assemble("jmp $10,y").errors, vec!["opcode 'jmp' does not support 'y' indexed addressing mode.".to_string()]);
}

#[test]
fn other_forms_encode() {
    assert_eq!(assemble("lda ($10),y").image, vec![0xB1, 0x10]);
    assert_eq!(assemble("lda ($10,x)").image, vec![0xA1, 0x10]);
    assert_eq!(assemble("lda ($10)").image, vec![0xB2, 0x10]);
    assert_eq!(assemble("lda [$10]").image, vec![0xA7, 0x10]);
    assert_eq!(assemble("lda [$10],y").image, vec![0xB7, 0x10]);
    assert_eq!(assemble("lda ($10,s),y").image, vec![0xB3, 0x10]);
    assert_eq!(assemble("mvn $01,$02").image, vec![0x54, 0x01, 0x02]);
    assert_eq!(assemble("lda $1234,x").image, vec![0xBD, 0x34, 0x12]);
}

#[test]
fn parse_errors_are_reported() {
    let system = snes_cpu();
    let files = HashMap::new();
    let (_, errors) = parse(&system, "foo\n", &files);
    assert_eq!(errors, vec!["Expected a colon after this identifier.".to_string()]);
    let (_, errors) = parse(&system, "lda ($10\n", &files);
    assert_eq!(errors, vec!["no closing parenthesis found.".to_string()]);
    let (_, errors) = parse(&system, "snesmap midrom\n", &files);
    assert_eq!(errors, vec!["Expected lorom or hirom as argument to snesmap.".to_string()]);
    let (_, errors) = parse(&system, "?\n", &files);
    assert_eq!(errors, vec!["Invalid token '?' found.".to_string()]);
}

#[test]
fn collecting_twice_gives_the_same_labels() {
    let system = snes_cpu();
    let (tree, _) = parse(&system, "a:\n nop\n b:\n lda #$1000\n a:\n", &HashMap::new());
    let mut labels = SymbolTable::new();
    let mut pass = CollectLabelPass::new(&system);
    let once = pass.do_pass(tree.clone(), &mut labels);
    let after_once = (labels.address_for("a"), labels.address_for("b"));
    pass.do_pass(tree, &mut labels);
    assert_eq!(after_once, (4, 1));
    assert_eq!((labels.address_for("a"), labels.address_for("b")), after_once);
    assert_eq!(once.len(), 2);
}

#[test]
fn selection_twice_is_a_no_op() {
    let system = snes_cpu();
    let (tree, _) = parse(&system, "lda #$10\n nop\n", &HashMap::new());
    let mut labels = SymbolTable::new();
    let mut pass = InstructionToStatementPass::new(&system);
    let once = pass.do_pass(tree, &mut labels);
    let twice = pass.do_pass(once.clone(), &mut labels);
    assert!(!pass.has_errors());
    assert_eq!(format!("{:?}", once), format!("{:?}", twice));
}

#[test]
fn first_matching_entry_is_selected() {
    let system = snes_cpu();
    let (tree, _) = parse(&system, "lda $10\n", &HashMap::new());
    let mut labels = SymbolTable::new();
    let mut pass = InstructionToStatementPass::new(&system);
    let out = pass.do_pass(tree, &mut labels);
    match &out[0].expression {
        ParseExpression::FinalInstruction(FinalInstruction::SingleArgumentInstruction(info, _)) => {
            assert_eq!(info.opcode, 0xA5);
            assert!(std::ptr::eq(*info, &system.instructions[116]));
        }
        other => panic!("not bound: {:?}", other),
    }
}

#[test]
fn byte_order_of_operands() {
    let little = snes_cpu();
    let mut big = snes_cpu();
    big.is_big_endian = true;
    let w16 = NumberLiteral { number: 0x1234, argument_size: ArgumentSize::Word16 };
    let w24 = NumberLiteral { number: 0x123456, argument_size: ArgumentSize::Word24 };
    let w32 = NumberLiteral { number: 0x12345678, argument_size: ArgumentSize::Word32 };
    let w8 = NumberLiteral { number: 0x1FF, argument_size: ArgumentSize::Word8 };
    assert_eq!(write_number_literal(&little, &w16), vec![0x34, 0x12]);
    assert_eq!(write_number_literal(&little, &w24), vec![0x56, 0x34, 0x12]);
    assert_eq!(write_number_literal(&little, &w32), vec![0x78, 0x56, 0x34, 0x12]);
    assert_eq!(write_number_literal(&little, &w8), vec![0xFF]);
    assert_eq!(write_number_literal(&big, &w16), vec![0x12, 0x34]);
    assert_eq!(write_number_literal(&big, &w24), vec![0x12, 0x34, 0x56]);
    assert_eq!(write_number_literal(&big, &w32), vec![0x12, 0x34, 0x56, 0x78]);
    let wide = NumberLiteral { number: 0xABCDEF, argument_size: ArgumentSize::Word16 };
    assert_eq!(write_number_literal(&little, &wide), vec![0xEF, 0xCD]);
}

#[test]
fn instruction_bytes() {
    let system = snes_cpu();
    let info = &system.instructions[0];
    let one = zeal::parser::ParseArgument::NumberLiteral(NumberLiteral { number: 7, argument_size: ArgumentSize::Word8 });
    let f = FinalInstruction::TwoArgumentInstruction(info, one.clone(), one);
    assert_eq!(handle_final_instruction(&system, &f), vec![0x61, 7, 7]);
}

#[test]
fn memory_maps() {
    assert_eq!(map_default(0x12_3456), 0x12_3456);
    assert_eq!(map_snes_lorom(0x00_8000), 0);
    assert_eq!(map_snes_lorom(0x01_8000), 0x8000);
    assert_eq!(map_snes_lorom(0x80_FFFF), 0x7FFF);
    assert_eq!(map_snes_hirom(0xC0_1234), 0x1234);
    assert_eq!(map_snes_hirom(0x7F_FFFF), 0x3F_FFFF);
}

#[test]
fn hirom_origin_seeks() {
    let a = assemble("snesmap hirom\n origin $C00010\n nop\n");
    assert_eq!(a.image.len(), 0x11);
    assert_eq!(a.image[0x10], 0xEA);
}

#[test]
fn argument_sizes() {
    assert_eq!(argument_size_to_bit_size(ArgumentSize::Word24), 24);
    assert_eq!(argument_size_to_byte_size(ArgumentSize::Word32), 4);
    assert_eq!(number_to_argument_size(0xFF), ArgumentSize::Word8);
    assert_eq!(number_to_argument_size(0x100), ArgumentSize::Word16);
    assert_eq!(number_to_argument_size(0xFFFF), ArgumentSize::Word16);
    assert_eq!(number_to_argument_size(0x1_0000), ArgumentSize::Word24);
    assert_eq!(number_to_argument_size(0xFF_FFFF), ArgumentSize::Word24);
    assert_eq!(number_to_argument_size(0x100_0000), ArgumentSize::Word32);
    assert_eq!(snes_argument_size_to_addressing_mode(ArgumentSize::Word24), "absolute long");
}

#[test]
fn symbol_table_last_definition_wins() {
    let mut t = SymbolTable::new();
    assert!(!t.has_label("a"));
    assert_eq!(t.address_for("a"), 0);
    t.add_or_update_label("a", 1);
    t.add_or_update_label("b", 2);
    t.add_or_update_label("a", 3);
    assert!(t.has_label("a"));
    assert_eq!(t.address_for("a"), 3);
    assert_eq!(t.address_for("b"), 2);
}

#[test]
fn systems() {
    assert_eq!(supported_systems().len(), 1);
    assert_eq!(find_system(&"snes-cpu".to_string()).short_name, "snes-cpu");
    assert_eq!(find_system(&"z80".to_string()).short_name, "snes-cpu");
    let s = snes_cpu();
    assert_eq!(s.instructions.len(), 256);
    assert!(!s.is_big_endian);
    assert_eq!(s.registers, vec!["x".to_string(), "y".to_string(), "s".to_string()]);
}

fn run_pass<'a, P: TreePass<'a>>(pass: &mut P, tree: Vec<ParseNode<'a>>, labels: &mut SymbolTable) -> Vec<ParseNode<'a>> {
    TreePass::do_pass(pass, tree, labels)
}

#[test]
fn pass_trait_reports_errors() {
    let system = snes_cpu();
    let (tree, _) = parse(&system, "lda nowhere\n", &HashMap::new());
    let mut labels = SymbolTable::new();
    let mut pass = ResolveLabelPass::new(&system);
    run_pass(&mut pass, tree, &mut labels);
    assert!(TreePass::has_errors(&pass));
    assert_eq!(TreePass::get_error_messages(&pass).len(), 1);
}

#[test]
fn missing_include_is_reported() {
    let a = assemble("include \"absent.s\"\n nop\n");
    assert_eq!(a.errors, vec!["Couldn't open file 'absent.s' for include statement".to_string()]);
    assert_eq!(a.image, vec![0xEA]);
}

#[test]
fn unexpected_token_is_reported() {
    let a = assemble(", nop\n");
    assert_eq!(a.errors, vec!["unexpected token found.".to_string()]);
    assert_eq!(a.image, vec![0xEA]);
}

#[test]
fn long_branch_uses_sixteen_bits() {
    let a = assemble("brl target\n nop\n target:\n nop\n");
    assert!(a.errors.is_empty(), "{:?}", a.errors);
    assert_eq!(a.image, vec![0x82, 0x01, 0x00, 0xEA, 0xEA]);
}

#[test]
fn indexed_indirect_errors_name_the_register() {
    assert_eq!(
        assemble("lda ($10,y)").errors,
        vec!["opcode 'lda' does not support 'y' indexed indirect addressing mode.".to_string()]
    );
    assert_eq!(
        assemble("lda ($10),x").errors,
        vec!["opcode 'lda' does not support 'x' indirect indexed addressing mode.".to_string()]
    );
    assert_eq!(assemble("nop ($10)").errors, vec!["opcode 'nop' does not support indirect addressing mode.".to_string()]);
    assert_eq!(assemble("mvn $1000,$02").errors, vec!["opcode 'mvn' does not support block mode addressing mode.".to_string()]);
}

#[test]
fn label_operand_takes_table_size() {
    let a = assemble("lda #value\n value:\n");
    assert!(a.errors.is_empty(), "{:?}", a.errors);
    assert_eq!(a.labels.address_for("value"), 3);
    assert_eq!(a.image, vec![0xA9, 0x03]);
}

#[test]
fn invalid_token_spans_one_column() {
    let system = snes_cpu();
    let mut lexer = Lexer::new(&system, "t.s".to_string(), "  @ $1234".chars().collect());
    let invalid = lexer.get_next_token();
    assert!(matches!(invalid.ttype, TokenType::Invalid('@')));
    assert_eq!((invalid.start_column, invalid.end_column), (3, 4));
    let hex = lexer.get_next_token();
    assert_eq!((hex.start_column, hex.end_column), (5, 10));
    lexer.reset();
    let again = lexer.get_next_token();
    assert_eq!((again.line, again.start_column, again.context_start), (1, 3, 0));
}

#[test]
fn sample_with_two_errors() {
    let system = snes_cpu();
    let (tree, errors) = parse(&system, "@\nlda #\nnop\nclc\n", &HashMap::new());
    assert_eq!(errors.len(), 2);
    assert_eq!(errors[0], "Invalid token '@' found.".to_string());
    assert_eq!(tree.len(), 2);
}

fn parse_errors(source: &str) -> Vec<ErrorMessage> {
    let system = snes_cpu();
    let mut parser = Parser::new(&system);
    parser.set_current_input_file(&"main.s".to_string(), source.chars().collect());
    loop {
        match parser.parse_tree() {
            ParseStep::Finished(_) => break,
            ParseStep::NeedsFile(request) => parser.file_not_found(&request),
        }
    }
    parser.error_messages
}

#[test]
fn missing_parenthesis_points_at_the_parenthesis() {
    let errors = parse_errors("  lda ($10 nop\n");
    assert_eq!(errors.len(), 1);
    assert_eq!(errors[0].message, "no closing parenthesis found.");
    assert!(matches!(errors[0].token.ttype, TokenType::LeftParen));
    assert_eq!((errors[0].token.line, errors[0].token.start_column, errors[0].token.end_column), (1, 7, 8));
}

#[test]
fn errors_point_at_their_tokens() {
    let errors = parse_errors("@\nlda #\nnop\nclc\n");
    assert_eq!(errors.len(), 2);
    assert!(matches!(errors[0].token.ttype, TokenType::Invalid('@')));
    assert_eq!((errors[0].token.line, errors[0].token.start_column), (1, 1));
    assert_eq!(errors[1].message, "number expected as argument.");
    assert!(matches!(&errors[1].token.ttype, TokenType::Opcode(s) if s == "lda"));
    assert_eq!((errors[1].token.line, errors[1].token.start_column, errors[1].token.context_start), (2, 1, 2));
}

#[test]
fn lookahead_token_matches_the_token_read() {
    let system = snes_cpu();
    let mut lexer = Lexer::new(&system, "t.s".to_string(), "nop\n  \"a\nb\" clc".chars().collect());
    let ahead = lexer.lookahead(3);
    lexer.get_next_token();
    lexer.get_next_token();
    let read = lexer.get_next_token();
    assert_eq!(
        (ahead.line, ahead.start_column, ahead.end_column, ahead.context_start),
        (read.line, read.start_column, read.end_column, read.context_start)
    );
    assert_eq!((read.line, read.start_column), (3, 4));
}

#[test]
fn search_returns_the_first_matching_entry() {
    let system = snes_cpu();
    let pass = InstructionToStatementPass::new(&system);
    let query = vec![InstructionArgument::Number(ArgumentSize::Word16)];
    let found = pass.find_suitable_instruction(&"lda".to_string(), &[AddressingMode::Immediate], &query);
    assert_eq!(system.instructions[found.unwrap()].opcode, 0xA9);
    let again = pass.find_suitable_instruction(&"lda".to_string(), &[AddressingMode::Immediate], &query);
    assert_eq!(found, again);
    let single = vec![InstructionArgument::Number(ArgumentSize::Word8)];
    let dp = pass.find_suitable_instruction(&"lda".to_string(), &[AddressingMode::SingleArgument, AddressingMode::Relative], &single);
    assert_eq!(dp, Some(116));
    assert_eq!(pass.find_suitable_instruction(&"nop".to_string(), &[AddressingMode::Immediate], &single), None);
    assert!(pass.error_messages.is_empty());
}
