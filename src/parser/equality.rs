use vstd::prelude::*;
use crate::grammar::{ParseError, p_equality, p_equality_rest};
use crate::node::{BinaryType, Node};
use crate::token::Token;
use super::{expr_parsed, Parser};

verus! {

impl Parser {
    /// `equality = inequality (("==" | "!=") inequality)*`
    pub fn equality(&mut self) -> (r: Result<Node, ParseError>)
        requires
            old(self).wf(),
        ensures
            expr_parsed(r, p_equality(old(self).toks(), old(self).pos(), old(self).local_vars@, old(self).table()), *old(self), *final(self)),
        decreases old(self).toks().len() - old(self).pos(), 13nat,
    {
        let ghost toks = self.toks();
        let ghost vars = self.local_vars@;
        let ghost funcs = self.table();
        let ghost i0 = self.pos();
        let mut node = match self.inequality() {
            Err(e) => {
                return Err(e);
            },
            Ok(n) => n,
        };
        loop
            invariant
                self.wf(),
                self.toks() == toks,
                self.local_vars == old(self).local_vars,
                self.functions == old(self).functions,
                self.offset_last == old(self).offset_last,
                vars == self.local_vars@,
                funcs == self.table(),
                toks == old(self).toks(),
                i0 == old(self).pos(),
                i0 <= self.pos(),
                p_equality(toks, i0, vars, funcs) == p_equality_rest(toks, self.pos(), node@, vars, funcs),
            decreases toks.len() - self.pos(),
        {
            let t0 = self.peek(0);
            let t1 = self.peek(1);
            if (matches!(t0, Token::Equal) || matches!(t0, Token::Exclamation)) && matches!(t1, Token::Equal) {
                let op = if matches!(t0, Token::Equal) {
                    BinaryType::Equal
                } else {
                    BinaryType::NotEqual
                };
                self.advance(2);
                let rhs = match self.inequality() {
                    Err(e) => {
                        return Err(e);
                    },
                    Ok(n) => n,
                };
                node = Node::Binary(Box::new(node), Box::new(rhs), op);
            } else {
                return Ok(node);
            }
        }
    }
}

} // verus!
