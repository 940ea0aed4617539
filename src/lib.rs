//! An assembler for the 65816 CPU of the Super Nintendo: a lexer, a parser,
//! three passes over the parse tree and the byte encoding of the result.

pub mod system_definition;
pub mod lexer;
pub mod parser;
pub mod snes_cpu;
pub mod symbol_table;
pub mod pass;
pub mod collect_label_pass;
pub mod resolve_label_pass;
pub mod instruction_statement_pass;
pub mod output_writer;
