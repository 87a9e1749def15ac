use vstd::prelude::*;
use crate::grammar::{
    p_condition, p_declaration_statement, p_expression_statement, p_for, p_for_header, p_if,
    p_optional, p_return, p_stmt, p_while, tok, ParseError,
};
use crate::node::Node;
use crate::token::{is_type_keyword, Token};
use super::{expr_parsed, stmt_parsed, Parser};

verus! {

impl Parser {
    /// One statement.
    pub fn statement(&mut self) -> (r: Result<Node, ParseError>)
        requires
            old(self).wf(),
        ensures
            stmt_parsed(r, p_stmt(old(self).toks(), old(self).pos(), old(self).scope(), old(self).table()), *old(self), *final(self)),
        decreases old(self).toks().len() - old(self).pos(), 2nat,
    {
        let t = self.peek(0);
        match t {
            Token::LeftCurl => self.block(),
            Token::Semicolon => {
                self.advance(1);
                Ok(Node::Empty)
            },
            Token::Return => self.return_statement(),
            Token::If => self.if_statement(),
            Token::While => self.while_statement(),
            Token::For => self.for_statement(),
            _ => {
                if t.is_type_keyword() {
                    self.declaration_statement()
                } else {
                    self.expression_statement()
                }
            },
        }
    }

    /// `declaration ";"`
    fn declaration_statement(&mut self) -> (r: Result<Node, ParseError>)
        requires
            old(self).wf(),
        ensures
            stmt_parsed(r, p_declaration_statement(old(self).toks(), old(self).pos(), old(self).scope()), *old(self), *final(self)),
    {
        let n = match self.declaration() {
            Err(e) => {
                return Err(e);
            },
            Ok(n) => n,
        };
        if !matches!(self.peek(0), Token::Semicolon) {
            return Err(ParseError::UnexpectedToken);
        }
        self.advance(1);
        Ok(n)
    }

    /// `expr ";"`
    fn expression_statement(&mut self) -> (r: Result<Node, ParseError>)
        requires
            old(self).wf(),
        ensures
            stmt_parsed(r, p_expression_statement(old(self).toks(), old(self).pos(), old(self).scope(), old(self).table()), *old(self), *final(self)),
    {
        let e = match self.expression() {
            Err(e) => {
                return Err(e);
            },
            Ok(n) => n,
        };
        if !matches!(self.peek(0), Token::Semicolon) {
            return Err(ParseError::UnexpectedToken);
        }
        self.advance(1);
        Ok(e)
    }

    /// `"return" expr? ";"`
    fn return_statement(&mut self) -> (r: Result<Node, ParseError>)
        requires
            old(self).wf(),
            tok(old(self).toks(), old(self).pos()) is Return,
        ensures
            stmt_parsed(r, p_return(old(self).toks(), old(self).pos(), old(self).scope(), old(self).table()), *old(self), *final(self)),
    {
        self.advance(1);
        if matches!(self.peek(0), Token::Semicolon) {
            self.advance(1);
            return Ok(Node::Return(None));
        }
        let e = match self.expression() {
            Err(e) => {
                return Err(e);
            },
            Ok(n) => n,
        };
        if !matches!(self.peek(0), Token::Semicolon) {
            return Err(ParseError::UnexpectedToken);
        }
        self.advance(1);
        Ok(Node::Return(Some(Box::new(e))))
    }

    /// `"(" expr ")"`: the condition of `if` and `while`.
    fn condition(&mut self) -> (r: Result<Node, ParseError>)
        requires
            old(self).wf(),
        ensures
            expr_parsed(r, p_condition(old(self).toks(), old(self).pos(), old(self).local_vars@, old(self).table()), *old(self), *final(self)),
    {
        if !matches!(self.peek(0), Token::LeftParen) {
            return Err(ParseError::UnexpectedToken);
        }
        self.advance(1);
        let c = match self.expression() {
            Err(e) => {
                return Err(e);
            },
            Ok(n) => n,
        };
        if !matches!(self.peek(0), Token::RightParen) {
            return Err(ParseError::UnexpectedToken);
        }
        self.advance(1);
        Ok(c)
    }

    #[verifier::rlimit(60)]
    /// `"if" "(" expr ")" statement ("else" statement)?`
    fn if_statement(&mut self) -> (r: Result<Node, ParseError>)
        requires
            old(self).wf(),
            tok(old(self).toks(), old(self).pos()) is If,
        ensures
            stmt_parsed(r, p_if(old(self).toks(), old(self).pos(), old(self).scope(), old(self).table()), *old(self), *final(self)),
        decreases old(self).toks().len() - old(self).pos(), 1nat,
    {
        self.advance(1);
        let c = match self.condition() {
            Err(e) => {
                return Err(e);
            },
            Ok(n) => n,
        };
        let t = match self.statement() {
            Err(e) => {
                return Err(e);
            },
            Ok(n) => n,
        };
        if matches!(self.peek(0), Token::Else) {
            self.advance(1);
            let o = match self.statement() {
                Err(e) => {
                    return Err(e);
                },
                Ok(n) => n,
            };
            Ok(Node::IfElse(Box::new(c), Box::new(t), Box::new(o)))
        } else {
            Ok(Node::If(Box::new(c), Box::new(t)))
        }
    }

    /// `"while" "(" expr ")" statement`
    fn while_statement(&mut self) -> (r: Result<Node, ParseError>)
        requires
            old(self).wf(),
            tok(old(self).toks(), old(self).pos()) is While,
        ensures
            stmt_parsed(r, p_while(old(self).toks(), old(self).pos(), old(self).scope(), old(self).table()), *old(self), *final(self)),
        decreases old(self).toks().len() - old(self).pos(), 1nat,
    {
        self.advance(1);
        let c = match self.condition() {
            Err(e) => {
                return Err(e);
            },
            Ok(n) => n,
        };
        let b = match self.statement() {
            Err(e) => {
                return Err(e);
            },
            Ok(n) => n,
        };
        Ok(Node::While(Box::new(c), Box::new(b)))
    }

    /// An expression that may be left out before `;` or `)`; `absent` stands for it.
    fn optional_expression(&mut self, absent: Node) -> (r: Result<Node, ParseError>)
        requires
            old(self).wf(),
        ensures
            expr_parsed(r, p_optional(old(self).toks(), old(self).pos(), old(self).local_vars@, old(self).table(), absent@), *old(self), *final(self)),
    {
        let t = self.peek(0);
        if matches!(t, Token::Semicolon) || matches!(t, Token::RightParen) {
            return Ok(absent);
        }
        self.expression()
    }

    #[verifier::rlimit(60)]
    /// The clauses of a `for` header after its `(`, through the `)`.
    fn for_header(&mut self) -> (r: Result<(Node, Node, Node), ParseError>)
        requires
            old(self).wf(),
        ensures
            final(self).wf(),
            final(self).toks() == old(self).toks(),
            final(self).local_vars == old(self).local_vars,
            final(self).functions == old(self).functions,
            final(self).offset_last == old(self).offset_last,
            r is Ok ==> old(self).pos() < final(self).pos(),
            match p_for_header(old(self).toks(), old(self).pos(), old(self).local_vars@, old(self).table()) {
                Ok((i, c, u, m)) => r matches Ok((ni, nc, nu)) && ni@ == i && nc@ == c && nu@ == u
                    && final(self).pos() == m,
                Err(e) => r matches Err(e2) && e2 == e,
            },
    {
        let init = match self.optional_expression(Node::Empty) {
            Err(e) => {
                return Err(e);
            },
            Ok(n) => n,
        };
        if !matches!(self.peek(0), Token::Semicolon) {
            return Err(ParseError::UnexpectedToken);
        }
        self.advance(1);
        let c = match self.optional_expression(Node::Boolean(true)) {
            Err(e) => {
                return Err(e);
            },
            Ok(n) => n,
        };
        if !matches!(self.peek(0), Token::Semicolon) {
            return Err(ParseError::UnexpectedToken);
        }
        self.advance(1);
        let u = match self.optional_expression(Node::Empty) {
            Err(e) => {
                return Err(e);
            },
            Ok(n) => n,
        };
        if !matches!(self.peek(0), Token::RightParen) {
            return Err(ParseError::UnexpectedToken);
        }
        self.advance(1);
        Ok((init, c, u))
    }

    #[verifier::rlimit(60)]
    /// `"for" "(" expr? ";" expr? ";" expr? ")" statement`
    fn for_statement(&mut self) -> (r: Result<Node, ParseError>)
        requires
            old(self).wf(),
            tok(old(self).toks(), old(self).pos()) is For,
        ensures
            stmt_parsed(r, p_for(old(self).toks(), old(self).pos(), old(self).scope(), old(self).table()), *old(self), *final(self)),
        decreases old(self).toks().len() - old(self).pos(), 1nat,
    {
        if !matches!(self.peek(1), Token::LeftParen) {
            return Err(ParseError::UnexpectedToken);
        }
        self.advance(2);
        let (init, c, u) = match self.for_header() {
            Err(e) => {
                return Err(e);
            },
            Ok(h) => h,
        };
        let b = match self.statement() {
            Err(e) => {
                return Err(e);
            },
            Ok(n) => n,
        };
        Ok(Node::For(Box::new(init), Box::new(c), Box::new(u), Box::new(b)))
    }
}

} // verus!
