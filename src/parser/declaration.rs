use vstd::prelude::*;
use crate::grammar::{p_declaration, p_signature, type_run_end, ParseError};
use crate::node::{LVar, Node};
use crate::token::Token;
use crate::typename::{parse_typename, sizeof, Typename};
use super::Parser;

verus! {

impl Parser {
    /// `type-keyword+ identifier`: the type they name and the identifier, with nothing
    /// bound.
    pub fn parse_declaration(&mut self) -> (r: Result<(Typename, String), ParseError>)
        requires
            old(self).wf(),
        ensures
            final(self).wf(),
            final(self).toks() == old(self).toks(),
            final(self).local_vars == old(self).local_vars,
            final(self).functions == old(self).functions,
            final(self).offset_last == old(self).offset_last,
            r is Ok ==> old(self).pos() < final(self).pos(),
            match p_signature(old(self).toks(), old(self).pos()) {
                Ok((t, name, j)) => r == Ok::<(Typename, String), ParseError>((t, name))
                    && final(self).pos() == j,
                Err(e) => r == Err::<(Typename, String), ParseError>(e),
            },
    {
        let ghost toks = self.toks();
        let ghost i0 = self.pos();
        let mut keywords: Vec<Token> = Vec::new();
        let n = self.token_iter.tokens.len();
        let start = self.token_iter.pos;
        let mut k: usize = 0;
        while k < n - start && self.peek(k).is_type_keyword()
            invariant
                self.wf(),
                toks == self.toks(),
                i0 == self.pos(),
                n == toks.len(),
                start == i0,
                i0 + k <= toks.len(),
                keywords@ == toks.subrange(i0, i0 + k),
                type_run_end(toks, i0) == type_run_end(toks, i0 + k),
            decreases toks.len() - (i0 + k),
        {
            keywords.push(self.peek(k));
            k += 1;
            assert(keywords@ =~= toks.subrange(i0, i0 + k));
        }
        if k == 0 {
            return Err(ParseError::UnexpectedToken);
        }
        let name = match self.peek(k) {
            Token::Identity(name) => name,
            _ => {
                return Err(ParseError::UnexpectedToken);
            },
        };
        let t = match parse_typename(keywords) {
            Err(e) => {
                return Err(ParseError::InvalidType(e));
            },
            Ok(t) => t,
        };
        self.advance(k + 1);
        Ok((t, name))
    }

    /// A declaration: binds the identifier at the next free offset, which advances by
    /// the size of its type.
    pub fn declaration_impl(&mut self) -> (r: Result<Typename, ParseError>)
        requires
            old(self).wf(),
        ensures
            final(self).wf(),
            final(self).toks() == old(self).toks(),
            final(self).functions == old(self).functions,
            r is Ok ==> old(self).pos() < final(self).pos(),
            match p_declaration(old(self).toks(), old(self).pos(), old(self).scope()) {
                Ok((j, t, sc)) => r == Ok::<Typename, ParseError>(t) && final(self).pos() == j
                    && final(self).scope() == sc,
                Err(e) => r == Err::<Typename, ParseError>(e),
            },
    {
        let (t, name) = match self.parse_declaration() {
            Err(e) => {
                return Err(e);
            },
            Ok(d) => d,
        };
        if matches!(t, Typename::Void) {
            return Err(ParseError::VoidVariable);
        }
        if self.find_variable(&name).is_some() {
            return Err(ParseError::DuplicateVariable);
        }
        let size = sizeof(&t);
        if self.offset_last > usize::MAX - size {
            return Err(ParseError::FrameTooLarge);
        }
        let ghost old_vars = self.local_vars@;
        self.local_vars.push((name, LVar { offset: self.offset_last, typename: t }));
        self.offset_last = self.offset_last + size;
        Ok(t)
    }

    /// A declaration statement's node (`Empty`), with the name bound.
    pub fn declaration(&mut self) -> (r: Result<Node, ParseError>)
        requires
            old(self).wf(),
        ensures
            final(self).wf(),
            final(self).toks() == old(self).toks(),
            final(self).functions == old(self).functions,
            match p_declaration(old(self).toks(), old(self).pos(), old(self).scope()) {
                Ok((j, _, sc)) => r matches Ok(n) && n is Empty && final(self).pos() == j
                    && final(self).scope() == sc,
                Err(e) => r == Err::<Node, ParseError>(e),
            },
    {
        match self.declaration_impl() {
            Err(e) => Err(e),
            Ok(_) => Ok(Node::Empty),
        }
    }
}

} // verus!
