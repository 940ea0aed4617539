//! What the three passes over the parse tree have in common.
use vstd::prelude::*;
use crate::parser::{ErrorMessage, ParseNode};
use crate::symbol_table::SymbolTable;

verus! {

/// A pass that consumes a parse tree and returns the next one, collecting
/// diagnostics as it goes.
pub trait TreePass<'a> {
    /// The diagnostics collected so far.
    spec fn error_list(&self) -> Seq<ErrorMessage>;

    fn has_errors(&self) -> (r: bool)
        ensures
            r == (self.error_list().len() > 0),
    ;

    fn get_error_messages(&self) -> (r: &Vec<ErrorMessage>)
        ensures
            r@ == self.error_list(),
    ;

    fn do_pass(&mut self, parse_tree: Vec<ParseNode<'a>>, symbol_table: &mut SymbolTable) -> (r: Vec<ParseNode<'a>>)
        requires
            old(symbol_table).wf(),
        ensures
            final(symbol_table).wf(),
    ;
}

} // verus!
