use vstd::prelude::*;
use crate::grammar::{ParseError, p_unary};
use crate::node::{BinaryType, Node, NodeView};
use crate::token::Token;
use super::{expr_parsed, Parser};

verus! {

impl Parser {
    /// `unary = ("+" | "-")? primary`
    pub fn unary(&mut self) -> (r: Result<Node, ParseError>)
        requires
            old(self).wf(),
        ensures
            expr_parsed(r, p_unary(old(self).toks(), old(self).pos(), old(self).local_vars@, old(self).table()), *old(self), *final(self)),
        decreases old(self).toks().len() - old(self).pos(), 5nat,
    {
        let t0 = self.peek(0);
        if matches!(t0, Token::Plus) {
            self.advance(1);
            self.primary()
        } else if matches!(t0, Token::Minus) {
            self.advance(1);
            let operand = match self.primary() {
                Err(e) => {
                    return Err(e);
                },
                Ok(n) => n,
            };
            let zero = Node::Num(0);
            assert(zero@ == NodeView::Num(0));
            Ok(Node::Binary(Box::new(zero), Box::new(operand), BinaryType::Sub))
        } else {
            self.primary()
        }
    }
}

} // verus!
