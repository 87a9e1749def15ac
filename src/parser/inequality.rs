use vstd::prelude::*;
use crate::grammar::{ParseError, p_inequality, p_inequality_rest};
use crate::node::{BinaryType, Node};
use crate::token::Token;
use super::{expr_parsed, Parser};

verus! {

impl Parser {
    /// `inequality = additive (("<" | "<=" | ">" | ">=") additive)*`; `>` and `>=`
    /// swap their operands onto `<` and `<=`.
    pub fn inequality(&mut self) -> (r: Result<Node, ParseError>)
        requires
            old(self).wf(),
        ensures
            expr_parsed(r, p_inequality(old(self).toks(), old(self).pos(), old(self).local_vars@, old(self).table()), *old(self), *final(self)),
        decreases old(self).toks().len() - old(self).pos(), 11nat,
    {
        let ghost toks = self.toks();
        let ghost vars = self.local_vars@;
        let ghost funcs = self.table();
        let ghost i0 = self.pos();
        let mut node = match self.add() {
            Err(e) => {
                return Err(e);
            },
            Ok(n) => n,
        };
        loop
            invariant
                self.wf(),
                self.toks() == toks,
                self.local_vars == old(self).local_vars,
                self.functions == old(self).functions,
                self.offset_last == old(self).offset_last,
                vars == self.local_vars@,
                funcs == self.table(),
                toks == old(self).toks(),
                i0 == old(self).pos(),
                i0 <= self.pos(),
                p_inequality(toks, i0, vars, funcs) == p_inequality_rest(toks, self.pos(), node@, vars, funcs),
            decreases toks.len() - self.pos(),
        {
            let t0 = self.peek(0);
            if matches!(t0, Token::Lt) || matches!(t0, Token::Gt) {
                let greater = matches!(t0, Token::Gt);
                let strict = !(matches!(self.peek(1), Token::Equal));
                if strict {
                    self.advance(1);
                } else {
                    self.advance(2);
                }
                let rhs = match self.add() {
                    Err(e) => {
                        return Err(e);
                    },
                    Ok(n) => n,
                };
                let op = if strict {
                    BinaryType::Lt
                } else {
                    BinaryType::LtEq
                };
                node = if greater {
                    Node::Binary(Box::new(rhs), Box::new(node), op)
                } else {
                    Node::Binary(Box::new(node), Box::new(rhs), op)
                };
            } else {
                return Ok(node);
            }
        }
    }
}

} // verus!
