use vstd::prelude::*;
use crate::grammar::{p_units, ParseError};
use crate::node::{views, Node, NodeView};
use crate::tokenizer::TokenIter;
use super::Parser;

verus! {

impl Parser {
    /// `program = function*`: the functions up to the end of the tokens, in a block.
    pub fn program(&mut self) -> (r: Result<Node, ParseError>)
        requires
            old(self).wf(),
        ensures
            match p_units(old(self).toks(), old(self).pos(), old(self).table(), seq![]) {
                Ok(units) => r matches Ok(n) && n@ == NodeView::Block(units),
                Err(e) => r == Err::<Node, ParseError>(e),
            },
    {
        let ghost toks = self.toks();
        let ghost i0 = self.pos();
        let ghost funcs0 = self.table();
        let mut code: Vec<Node> = Vec::new();
        assert(views(code@) =~= Seq::<NodeView>::empty());
        while self.token_iter.pos < self.token_iter.tokens.len()
            invariant
                self.wf(),
                toks == self.toks(),
                toks == old(self).toks(),
                i0 == old(self).pos(),
                funcs0 == old(self).table(),
                p_units(toks, i0, funcs0, seq![]) == p_units(toks, self.pos(), self.table(), views(code@)),
            decreases toks.len() - self.pos(),
        {
            let f = match self.function() {
                Err(e) => {
                    return Err(e);
                },
                Ok(f) => f,
            };
            let ghost before = code@;
            code.push(f);
            assert(code@.drop_last() =~= before);
        }
        Ok(Node::Block(code))
    }
}

/// Parses the tokens from the cursor's position to the end into a program: a block of
/// the functions' nodes (`Empty` for a prototype).
pub fn parse(token_iter: TokenIter) -> (r: Result<Node, ParseError>)
    requires
        token_iter.wf(),
    ensures
        match p_units(token_iter.tokens@, token_iter.pos as int, seq![], seq![]) {
            Ok(units) => r matches Ok(n) && n@ == NodeView::Block(units),
            Err(e) => r == Err::<Node, ParseError>(e),
        },
{
    let mut parser = Parser::new(token_iter);
    assert(parser.table() =~= seq![]);
    parser.program()
}

} // verus!
