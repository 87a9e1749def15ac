use vstd::prelude::*;
use crate::grammar::{ParseError, p_additive, p_additive_rest};
use crate::node::{BinaryType, Node};
use crate::token::Token;
use super::{expr_parsed, Parser};

verus! {

impl Parser {
    /// `additive = multiplicative (("+" | "-") multiplicative)*`
    pub fn add(&mut self) -> (r: Result<Node, ParseError>)
        requires
            old(self).wf(),
        ensures
            expr_parsed(r, p_additive(old(self).toks(), old(self).pos(), old(self).local_vars@, old(self).table()), *old(self), *final(self)),
        decreases old(self).toks().len() - old(self).pos(), 9nat,
    {
        let ghost toks = self.toks();
        let ghost vars = self.local_vars@;
        let ghost funcs = self.table();
        let ghost i0 = self.pos();
        let mut node = match self.mul() {
            Err(e) => {
                return Err(e);
            },
            Ok(n) => n,
        };
        loop
            invariant
                self.wf(),
                self.toks() == toks,
                self.local_vars == old(self).local_vars,
                self.functions == old(self).functions,
                self.offset_last == old(self).offset_last,
                vars == self.local_vars@,
                funcs == self.table(),
                toks == old(self).toks(),
                i0 == old(self).pos(),
                i0 <= self.pos(),
                p_additive(toks, i0, vars, funcs) == p_additive_rest(toks, self.pos(), node@, vars, funcs),
            decreases toks.len() - self.pos(),
        {
            let t0 = self.peek(0);
            if matches!(t0, Token::Plus) || matches!(t0, Token::Minus) {
                let op = if matches!(t0, Token::Plus) {
                    BinaryType::Add
                } else {
                    BinaryType::Sub
                };
                self.advance(1);
                let rhs = match self.mul() {
                    Err(e) => {
                        return Err(e);
                    },
                    Ok(n) => n,
                };
                node = Node::Binary(Box::new(node), Box::new(rhs), op);
            } else {
                return Ok(node);
            }
        }
    }
}

} // verus!
