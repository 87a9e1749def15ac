use vstd::prelude::*;
use crate::grammar::{ParseError, p_assign, p_expr};
use crate::node::Node;
use crate::token::Token;
use super::{expr_parsed, Parser};

verus! {

impl Parser {
    /// `expr = assign`
    pub fn expression(&mut self) -> (r: Result<Node, ParseError>)
        requires
            old(self).wf(),
        ensures
            expr_parsed(r, p_expr(old(self).toks(), old(self).pos(), old(self).local_vars@, old(self).table()), *old(self), *final(self)),
        decreases old(self).toks().len() - old(self).pos(), 15nat,
    {
        self.assign()
    }
    /// `assign = equality ("=" assign)?`
    pub fn assign(&mut self) -> (r: Result<Node, ParseError>)
        requires
            old(self).wf(),
        ensures
            expr_parsed(r, p_assign(old(self).toks(), old(self).pos(), old(self).local_vars@, old(self).table()), *old(self), *final(self)),
        decreases old(self).toks().len() - old(self).pos(), 14nat,
    {
        let lhs = match self.equality() {
            Err(e) => {
                return Err(e);
            },
            Ok(n) => n,
        };
        if matches!(self.peek(0), Token::Equal) {
            self.advance(1);
            let rhs = match self.assign() {
                Err(e) => {
                    return Err(e);
                },
                Ok(n) => n,
            };
            Ok(Node::Assign(Box::new(lhs), Box::new(rhs)))
        } else {
            Ok(lhs)
        }
    }
}

} // verus!
