use vstd::prelude::*;
use crate::grammar::{ParseError, p_multiplicative, p_multiplicative_rest};
use crate::node::{BinaryType, Node};
use crate::token::Token;
use super::{expr_parsed, Parser};

verus! {

impl Parser {
    /// `multiplicative = unary (("*" | "/") unary)*`
    pub fn mul(&mut self) -> (r: Result<Node, ParseError>)
        requires
            old(self).wf(),
        ensures
            expr_parsed(r, p_multiplicative(old(self).toks(), old(self).pos(), old(self).local_vars@, old(self).table()), *old(self), *final(self)),
        decreases old(self).toks().len() - old(self).pos(), 7nat,
    {
        let ghost toks = self.toks();
        let ghost vars = self.local_vars@;
        let ghost funcs = self.table();
        let ghost i0 = self.pos();
        let mut node = match self.unary() {
            Err(e) => {
                return Err(e);
            },
            Ok(n) => n,
        };
        loop
            invariant
                self.wf(),
                self.toks() == toks,
                self.local_vars == old(self).local_vars,
                self.functions == old(self).functions,
                self.offset_last == old(self).offset_last,
                vars == self.local_vars@,
                funcs == self.table(),
                toks == old(self).toks(),
                i0 == old(self).pos(),
                i0 <= self.pos(),
                p_multiplicative(toks, i0, vars, funcs) == p_multiplicative_rest(toks, self.pos(), node@, vars, funcs),
            decreases toks.len() - self.pos(),
        {
            let t0 = self.peek(0);
            if matches!(t0, Token::Asterisk) || matches!(t0, Token::Slash) {
                let op = if matches!(t0, Token::Asterisk) {
                    BinaryType::Mul
                } else {
                    BinaryType::Div
                };
                self.advance(1);
                let rhs = match self.unary() {
                    Err(e) => {
                        return Err(e);
                    },
                    Ok(n) => n,
                };
                node = Node::Binary(Box::new(node), Box::new(rhs), op);
            } else {
                return Ok(node);
            }
        }
    }
}

} // verus!
