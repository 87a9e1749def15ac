use vstd::prelude::*;
use crate::grammar::{find_fn, lookup_var, tok, FnSig, FnTable, PResult, ParseError, SResult, Scope};
use crate::node::{LVar, Node};
use crate::token::Token;
use crate::tokenizer::TokenIter;
use crate::typename::Typename;

mod add;
mod block;
mod declaration;
mod equality;
mod expression;
mod function;
mod inequality;
mod mul;
mod primary;
pub mod program;
mod statement;
mod unary;

verus! {

/// A declared function: its signature and whether a body was given.
pub struct Function {
    pub ret_typename: Typename,
    pub arg_typename: Vec<Typename>,
    pub defined: bool,
}

/// The mathematical form of a function table.
pub open spec fn fn_table(v: Seq<(String, Function)>) -> FnTable {
    Seq::new(
        v.len(),
        |k: int|
            (
                v[k].0@,
                FnSig {
                    ret: v[k].1.ret_typename,
                    params: v[k].1.arg_typename@,
                    defined: v[k].1.defined,
                },
            ),
    )
}

/// A recursive-descent parser over a token cursor. It owns the variables of the
/// function being parsed and the table of the functions declared so far.
pub struct Parser {
    pub token_iter: TokenIter,
    pub local_vars: Vec<(String, LVar)>,
    pub functions: Vec<(String, Function)>,
    pub offset_last: usize,
}

/// The parse of an expression by `new` from `old` is the one that `spec` gives, with
/// the variables and the function table left alone.
pub open spec fn expr_parsed(
    r: Result<Node, ParseError>,
    spec: PResult,
    old: Parser,
    new: Parser,
) -> bool {
    &&& new.wf()
    &&& new.toks() == old.toks()
    &&& new.local_vars == old.local_vars
    &&& new.functions == old.functions
    &&& new.offset_last == old.offset_last
    &&& r is Ok ==> old.pos() <= new.pos()
    &&& match spec {
        Ok((v, j)) => r matches Ok(n) && n@ == v && new.pos() == j,
        Err(e) => r == Err::<Node, ParseError>(e),
    }
}

/// The parse of a statement by `new` from `old` is the one that `spec` gives,
/// with the variables and offset that it leaves, and the function table left alone.
pub open spec fn stmt_parsed(
    r: Result<Node, ParseError>,
    spec: SResult,
    old: Parser,
    new: Parser,
) -> bool {
    &&& new.wf()
    &&& new.toks() == old.toks()
    &&& new.functions == old.functions
    &&& r is Ok ==> old.pos() < new.pos()
    &&& match spec {
        Ok((v, j, sc)) => r matches Ok(n) && n@ == v && new.pos() == j && new.scope() == sc,
        Err(e) => r == Err::<Node, ParseError>(e),
    }
}

impl Parser {
    pub open spec fn toks(&self) -> Seq<Token> {
        self.token_iter.tokens@
    }

    pub open spec fn pos(&self) -> int {
        self.token_iter.pos as int
    }

    pub open spec fn wf(&self) -> bool {
        self.token_iter.wf()
    }

    pub open spec fn scope(&self) -> Scope {
        Scope { vars: self.local_vars@, offset: self.offset_last }
    }

    pub open spec fn table(&self) -> FnTable {
        fn_table(self.functions@)
    }

    /// A parser at the start of `token_iter`, with no variables and no functions.
    pub fn new(token_iter: TokenIter) -> (r: Parser)
        requires
            token_iter.wf(),
        ensures
            r.wf(),
            r.token_iter == token_iter,
            r.local_vars@.len() == 0,
            r.functions@.len() == 0,
            r.offset_last == 0,
    {
        Parser { token_iter, local_vars: Vec::new(), functions: Vec::new(), offset_last: 0 }
    }

    /// The token `k` places ahead, or `Eof`.
    fn peek(&self, k: usize) -> (r: Token)
        requires
            self.wf(),
        ensures
            r == tok(self.toks(), self.pos() + k),
    {
        match self.token_iter.peep_at(k) {
            Some(t) => t.copied(),
            None => Token::Eof,
        }
    }

    /// Moves past `n` tokens that are known to be there.
    fn advance(&mut self, n: usize)
        requires
            old(self).wf(),
            old(self).pos() + n <= old(self).toks().len(),
        ensures
            final(self).wf(),
            final(self).pos() == old(self).pos() + n,
            final(self).toks() == old(self).toks(),
            final(self).local_vars == old(self).local_vars,
            final(self).functions == old(self).functions,
            final(self).offset_last == old(self).offset_last,
    {
        self.token_iter.ignore(n);
    }










    /// The variable declared under `name` in the current function.
    fn find_variable(&self, name: &String) -> (r: Option<LVar>)
        ensures
            r == lookup_var(self.local_vars@, name@),
    {
        let mut k = self.local_vars.len();
        assert(self.local_vars@.take(k as int) =~= self.local_vars@);
        while k > 0
            invariant
                k <= self.local_vars@.len(),
                lookup_var(self.local_vars@, name@) == lookup_var(self.local_vars@.take(k as int), name@),
            decreases k,
        {
            let ghost pre = self.local_vars@.take(k as int);
            assert(pre.drop_last() =~= self.local_vars@.take(k - 1));
            if self.local_vars[k - 1].0 == *name {
                return Some(self.local_vars[k - 1].1);
            }
            k -= 1;
        }
        None
    }

    /// The index of the entry for `name` in the function table.
    fn find_function(&self, name: &String) -> (r: Option<usize>)
        ensures
            r matches Some(k) ==> find_fn(self.table(), name@) == Some(k as int),
            r is None ==> find_fn(self.table(), name@) is None,
    {
        let ghost t = self.table();
        let mut k = self.functions.len();
        assert(t.take(k as int) =~= t);
        while k > 0
            invariant
                k <= self.functions@.len(),
                t == self.table(),
                find_fn(t, name@) == find_fn(t.take(k as int), name@),
            decreases k,
        {
            let ghost pre = t.take(k as int);
            assert(pre.drop_last() =~= t.take(k - 1));
            if self.functions[k - 1].0 == *name {
                return Some(k - 1);
            }
            k -= 1;
        }
        assert(t.take(0) =~= seq![]);
        None
    }
}

} // verus!
