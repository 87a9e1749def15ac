use vstd::prelude::*;
use crate::grammar::{lemma_find_fn, p_function, p_params, p_params_rest, register_definition, FnSig, ParseError};
use crate::node::Node;
use crate::token::Token;
use crate::typename::Typename;
use super::{fn_table, Function, Parser};

verus! {

fn copy_types(v: &Vec<Typename>) -> (r: Vec<Typename>)
    ensures
        r@ == v@,
{
    let mut out: Vec<Typename> = Vec::new();
    let mut k: usize = 0;
    while k < v.len()
        invariant
            k <= v@.len(),
            out@ == v@.take(k as int),
        decreases v@.len() - k,
    {
        out.push(v[k]);
        k += 1;
        assert(out@ =~= v@.take(k as int));
    }
    assert(v@.take(k as int) =~= v@);
    out
}

fn same_types(a: &Vec<Typename>, b: &Vec<Typename>) -> (r: bool)
    ensures
        r == (a@ == b@),
{
    if a.len() != b.len() {
        return false;
    }
    let mut k: usize = 0;
    while k < a.len()
        invariant
            a@.len() == b@.len(),
            k <= a@.len(),
            forall|j: int| 0 <= j < k ==> a@[j] == b@[j],
        decreases a@.len() - k,
    {
        if a[k] != b[k] {
            return false;
        }
        k += 1;
    }
    assert(a@ =~= b@);
    true
}

proof fn lemma_table_push(v: Seq<(String, Function)>, x: (String, Function))
    ensures
        fn_table(v.push(x)) == fn_table(v).push(
            (x.0@, FnSig { ret: x.1.ret_typename, params: x.1.arg_typename@, defined: x.1.defined }),
        ),
{
    assert(fn_table(v.push(x)) =~= fn_table(v).push(
        (x.0@, FnSig { ret: x.1.ret_typename, params: x.1.arg_typename@, defined: x.1.defined }),
    ));
}

proof fn lemma_table_update(v: Seq<(String, Function)>, k: int, x: (String, Function))
    requires
        0 <= k < v.len(),
    ensures
        fn_table(v.update(k, x)) == fn_table(v).update(
            k,
            (x.0@, FnSig { ret: x.1.ret_typename, params: x.1.arg_typename@, defined: x.1.defined }),
        ),
{
    assert(fn_table(v.update(k, x)) =~= fn_table(v).update(
        k,
        (x.0@, FnSig { ret: x.1.ret_typename, params: x.1.arg_typename@, defined: x.1.defined }),
    ));
}

impl Parser {
    /// The parameter list after a function's `(`, through the `)`; each parameter is
    /// bound as a variable.
    pub fn parse_arglist(&mut self) -> (r: Result<Vec<Typename>, ParseError>)
        requires
            old(self).wf(),
        ensures
            final(self).wf(),
            final(self).toks() == old(self).toks(),
            final(self).functions == old(self).functions,
            r is Ok ==> old(self).pos() < final(self).pos(),
            match p_params(old(self).toks(), old(self).pos(), old(self).scope()) {
                Ok((j, params, sc)) => r matches Ok(v) && v@ == params && final(self).pos() == j
                    && final(self).scope() == sc,
                Err(e) => r == Err::<Vec<Typename>, ParseError>(e),
            },
    {
        let ghost toks = self.toks();
        let ghost i0 = self.pos();
        let ghost sc0 = self.scope();
        let mut params: Vec<Typename> = Vec::new();
        if matches!(self.peek(0), Token::RightParen) {
            self.advance(1);
            assert(params@ =~= seq![]);
            return Ok(params);
        }
        let t = match self.declaration_impl() {
            Err(e) => {
                return Err(e);
            },
            Ok(t) => t,
        };
        params.push(t);
        assert(params@ =~= seq![t]);
        loop
            invariant
                self.wf(),
                toks == self.toks(),
                toks == old(self).toks(),
                i0 == old(self).pos(),
                sc0 == old(self).scope(),
                self.functions == old(self).functions,
                i0 <= self.pos(),
                p_params(toks, i0, sc0) == p_params_rest(toks, self.pos(), params@, self.scope()),
            decreases toks.len() - self.pos(),
        {
            let t0 = self.peek(0);
            if matches!(t0, Token::RightParen) {
                self.advance(1);
                return Ok(params);
            } else if matches!(t0, Token::Comma) {
                self.advance(1);
                let t = match self.declaration_impl() {
                    Err(e) => {
                        return Err(e);
                    },
                    Ok(t) => t,
                };
                params.push(t);
            } else {
                return Err(ParseError::UnexpectedToken);
            }
        }
    }

    /// Enters a definition of `name` in the function table.
    fn register_definition(&mut self, name: &String, ret: Typename, params: &Vec<Typename>) -> (r:
        Result<(), ParseError>)
        requires
            old(self).wf(),
        ensures
            final(self).wf(),
            final(self).token_iter == old(self).token_iter,
            final(self).local_vars == old(self).local_vars,
            final(self).offset_last == old(self).offset_last,
            match register_definition(old(self).table(), name@, FnSig { ret, params: params@, defined: true }) {
                Ok(t) => r is Ok && final(self).table() == t,
                Err(e) => r == Err::<(), ParseError>(e),
            },
    {
        let entry = Function { ret_typename: ret, arg_typename: copy_types(params), defined: true };
        proof {
            lemma_find_fn(self.table(), name@);
        }
        match self.find_function(name) {
            None => {
                proof {
                    lemma_table_push(self.functions@, (*name, entry));
                }
                self.functions.push((name.clone(), entry));
                Ok(())
            },
            Some(k) => {
                if self.functions[k].1.defined {
                    return Err(ParseError::FunctionRedefined);
                }
                if self.functions[k].1.ret_typename != ret || !same_types(
                    &self.functions[k].1.arg_typename,
                    params,
                ) {
                    return Err(ParseError::FunctionRedeclared);
                }
                proof {
                    lemma_table_update(self.functions@, k as int, (*name, entry));
                }
                self.functions.set(k, (name.clone(), entry));
                Ok(())
            },
        }
    }

    #[verifier::rlimit(60)]
    /// `function = declaration "(" parameters ")" (block | ";")`. The variables and the
    /// offset start afresh; the function is registered before its body is read.
    pub fn function(&mut self) -> (r: Result<Node, ParseError>)
        requires
            old(self).wf(),
        ensures
            final(self).wf(),
            final(self).toks() == old(self).toks(),
            r is Ok ==> old(self).pos() < final(self).pos(),
            match p_function(old(self).toks(), old(self).pos(), old(self).table()) {
                Ok((v, j, funcs)) => r matches Ok(n) && n@ == v && final(self).pos() == j
                    && final(self).table() == funcs,
                Err(e) => r == Err::<Node, ParseError>(e),
            },
    {
        proof {
            reveal(p_function);
        }
        self.local_vars = Vec::new();
        self.offset_last = 0;
        let (ret, name) = match self.parse_declaration() {
            Err(e) => {
                return Err(e);
            },
            Ok(d) => d,
        };
        if !matches!(self.peek(0), Token::LeftParen) {
            return Err(ParseError::UnexpectedToken);
        }
        self.advance(1);
        assert(self.local_vars@ =~= seq![]);
        let params = match self.parse_arglist() {
            Err(e) => {
                return Err(e);
            },
            Ok(p) => p,
        };
        if matches!(self.peek(0), Token::Semicolon) {
            if self.find_function(&name).is_some() {
                return Err(ParseError::FunctionRedeclared);
            }
            self.advance(1);
            let entry = Function { ret_typename: ret, arg_typename: params, defined: false };
            proof {
                lemma_table_push(self.functions@, (name, entry));
            }
            self.functions.push((name, entry));
            return Ok(Node::Empty);
        }
        match self.register_definition(&name, ret, &params) {
            Err(e) => {
                return Err(e);
            },
            Ok(()) => {},
        }
        let body = match self.block() {
            Err(e) => {
                return Err(e);
            },
            Ok(b) => b,
        };
        Ok(Node::Function(name, ret, params, Box::new(body), self.offset_last))
    }
}

} // verus!
