use vstd::prelude::*;
use crate::grammar::{p_block, p_items, ParseError};
use crate::node::{views, Node, NodeView};
use crate::token::Token;
use super::{stmt_parsed, Parser};

verus! {

impl Parser {
    /// `block = "{" statement* "}"`
    pub fn block(&mut self) -> (r: Result<Node, ParseError>)
        requires
            old(self).wf(),
        ensures
            stmt_parsed(r, p_block(old(self).toks(), old(self).pos(), old(self).scope(), old(self).table()), *old(self), *final(self)),
        decreases old(self).toks().len() - old(self).pos(), 1nat,
    {
        let ghost toks = self.toks();
        let ghost funcs = self.table();
        let ghost i0 = self.pos();
        if !matches!(self.peek(0), Token::LeftCurl) {
            return Err(ParseError::UnexpectedToken);
        }
        self.advance(1);
        let mut statements: Vec<Node> = Vec::new();
        assert(views(statements@) =~= Seq::<NodeView>::empty());
        loop
            invariant
                self.wf(),
                toks == self.toks(),
                toks == old(self).toks(),
                i0 == old(self).pos(),
                funcs == old(self).table(),
                self.functions == old(self).functions,
                i0 < self.pos(),
                p_block(toks, i0, old(self).scope(), funcs) == p_items(toks, self.pos(), self.scope(), views(statements@), funcs),
            decreases toks.len() - self.pos(),
        {
            if matches!(self.peek(0), Token::RightCurl) {
                self.advance(1);
                return Ok(Node::Block(statements));
            }
            let n = match self.statement() {
                Err(e) => {
                    return Err(e);
                },
                Ok(n) => n,
            };
            let ghost before = statements@;
            statements.push(n);
            assert(statements@.drop_last() =~= before);
        }
    }
}

} // verus!
