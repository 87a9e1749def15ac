use vstd::prelude::*;
use crate::grammar::{ParseError, p_args, p_args_rest, p_primary, tok};
use crate::node::{LVar, Node, NodeView};
use crate::token::Token;
use super::{expr_parsed, Parser};

verus! {

impl Parser {
    /// `primary = number | identifier ("(" arguments ")")? | "(" expr ")"`
    pub fn primary(&mut self) -> (r: Result<Node, ParseError>)
        requires
            old(self).wf(),
        ensures
            expr_parsed(r, p_primary(old(self).toks(), old(self).pos(), old(self).local_vars@, old(self).table()), *old(self), *final(self)),
        decreases old(self).toks().len() - old(self).pos(), 4nat,
    {
        match self.peek(0) {
            Token::Num(n) => {
                self.advance(1);
                Ok(Node::Num(n))
            },
            Token::LeftParen => self.parenthesized(),
            Token::Identity(name) => self.identifier(name),
            _ => Err(ParseError::UnexpectedToken),
        }
    }

    /// `"(" expr ")"`
    fn parenthesized(&mut self) -> (r: Result<Node, ParseError>)
        requires
            old(self).wf(),
            tok(old(self).toks(), old(self).pos()) is LeftParen,
        ensures
            expr_parsed(r, p_primary(old(self).toks(), old(self).pos(), old(self).local_vars@, old(self).table()), *old(self), *final(self)),
        decreases old(self).toks().len() - old(self).pos(), 3nat,
    {
        self.advance(1);
        let e = match self.expression() {
            Err(e) => {
                return Err(e);
            },
            Ok(n) => n,
        };
        if matches!(self.peek(0), Token::RightParen) {
            self.advance(1);
            Ok(e)
        } else {
            Err(ParseError::UnexpectedToken)
        }
    }

    /// A variable, or a call of a declared function.
    fn identifier(&mut self, name: String) -> (r: Result<Node, ParseError>)
        requires
            old(self).wf(),
            tok(old(self).toks(), old(self).pos()) == Token::Identity(name),
        ensures
            expr_parsed(r, p_primary(old(self).toks(), old(self).pos(), old(self).local_vars@, old(self).table()), *old(self), *final(self)),
        decreases old(self).toks().len() - old(self).pos(), 3nat,
    {
        if matches!(self.peek(1), Token::LeftParen) {
            if self.find_function(&name).is_none() {
                return Err(ParseError::UndeclaredFunction);
            }
            self.advance(2);
            let args = match self.call_args() {
                Err(e) => {
                    return Err(e);
                },
                Ok(a) => a,
            };
            Ok(Node::FunctionCall(name, args))
        } else {
            match self.find_variable(&name) {
                None => Err(ParseError::UndeclaredVariable),
                Some(v) => {
                    self.advance(1);
                    Ok(Node::LVar(v.offset, v.typename))
                },
            }
        }
    }

    /// The arguments of a call after its `(`, through the closing `)`.
    fn call_args(&mut self) -> (r: Result<Vec<Node>, ParseError>)
        requires
            old(self).wf(),
        ensures
            final(self).wf(),
            final(self).toks() == old(self).toks(),
            final(self).local_vars == old(self).local_vars,
            final(self).functions == old(self).functions,
            final(self).offset_last == old(self).offset_last,
            r is Ok ==> old(self).pos() <= final(self).pos(),
            match p_args(old(self).toks(), old(self).pos(), old(self).local_vars@, old(self).table()) {
                Ok((v, j)) => r matches Ok(args) && crate::node::views(args@) == v && final(self).pos() == j,
                Err(e) => r == Err::<Vec<Node>, ParseError>(e),
            },
        decreases old(self).toks().len() - old(self).pos(), 17nat,
    {
        let ghost toks = self.toks();
        let ghost vars = self.local_vars@;
        let ghost funcs = self.table();
        let ghost i0 = self.pos();
        let mut args: Vec<Node> = Vec::new();
        if matches!(self.peek(0), Token::RightParen) {
            self.advance(1);
            assert(crate::node::views(args@) =~= seq![]);
            return Ok(args);
        }
        let first = match self.expression() {
            Err(e) => {
                return Err(e);
            },
            Ok(n) => n,
        };
        args.push(first);
        proof {
            let s = args@;
            assert(s.drop_last() =~= Seq::<Node>::empty());
            assert(crate::node::views(Seq::<Node>::empty()) == Seq::<NodeView>::empty());
            assert(crate::node::views(s) == crate::node::views(s.drop_last()).push(
                crate::node::node_view(s.last()),
            ));
            assert(crate::node::views(args@) =~= seq![first@]);
        }
        loop
            invariant
                self.wf(),
                self.toks() == toks,
                self.local_vars == old(self).local_vars,
                self.functions == old(self).functions,
                self.offset_last == old(self).offset_last,
                vars == self.local_vars@,
                funcs == self.table(),
                toks == old(self).toks(),
                i0 == old(self).pos(),
                i0 <= self.pos(),
                p_args(toks, i0, vars, funcs) == p_args_rest(toks, self.pos(), crate::node::views(args@), vars, funcs),
            decreases toks.len() - self.pos(),
        {
            let t0 = self.peek(0);
            if matches!(t0, Token::RightParen) {
                self.advance(1);
                return Ok(args);
            } else if matches!(t0, Token::Comma) {
                self.advance(1);
                let arg = match self.expression() {
                    Err(e) => {
                        return Err(e);
                    },
                    Ok(n) => n,
                };
                let ghost before = args@;
                args.push(arg);
                assert(args@.drop_last() =~= before);
            } else {
                return Err(ParseError::UnexpectedToken);
            }
        }
    }
}

} // verus!
