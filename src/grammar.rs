use vstd::prelude::*;
use crate::node::{BinaryType, LVar, NodeView};
use crate::token::{is_type_keyword, Token};
use crate::typename::{size_of, spec_parse_typename, TypeError, Typename};

verus! {

/// Why a token sequence is not a program.
#[derive(Clone, Copy, Debug, PartialEq, Eq, Structural)]
pub enum ParseError {
    /// A token other than the one the grammar requires, or the end of the input.
    UnexpectedToken,
    /// A name that is no local variable of the function.
    UndeclaredVariable,
    /// A call of a name that no declaration before it registered.
    UndeclaredFunction,
    /// A second declaration of a variable in one function.
    DuplicateVariable,
    /// A type specifier whose keywords conflict.
    InvalidType(TypeError),
    /// A variable or parameter of type `void`.
    VoidVariable,
    /// A prototype of a name already declared, or a definition whose signature
    /// differs from the prototype's.
    FunctionRedeclared,
    /// A second definition with a body.
    FunctionRedefined,
    /// The local variables of a function do not fit in memory.
    FrameTooLarge,
}

/// The signature of a declared function, and whether a body was given.
pub struct FnSig {
    pub ret: Typename,
    pub params: Seq<Typename>,
    pub defined: bool,
}

/// A table of functions: names with their signatures.
pub type FnTable = Seq<(Seq<char>, FnSig)>;

/// Local variables of a function, in order of declaration.
pub type Vars = Seq<(String, LVar)>;

/// A node and the position after it, or the first defect.
pub type PResult = Result<(NodeView, int), ParseError>;

/// The token at `i`, or `Eof` past either end.
pub open spec fn tok(toks: Seq<Token>, i: int) -> Token {
    if 0 <= i < toks.len() {
        toks[i]
    } else {
        Token::Eof
    }
}

/// The variable declared under `name`; the latest declaration wins.
pub open spec fn lookup_var(vars: Vars, name: Seq<char>) -> Option<LVar>
    decreases vars.len(),
{
    if vars.len() == 0 {
        None
    } else if vars.last().0@ == name {
        Some(vars.last().1)
    } else {
        lookup_var(vars.drop_last(), name)
    }
}

/// Index of the last entry for `name` in the function table.
pub open spec fn find_fn(funcs: FnTable, name: Seq<char>) -> Option<int>
    decreases funcs.len(),
{
    if funcs.len() == 0 {
        None
    } else if funcs.last().0 == name {
        Some(funcs.len() - 1)
    } else {
        find_fn(funcs.drop_last(), name)
    }
}

/// `j` is a position at or after `i` within the tokens. Parsing never moves backward
/// (the parser's contracts show it), so the rules below that check this never fail on
/// it; the checks make it evident that the recursion is well founded.
pub open spec fn within(toks: Seq<Token>, i: int, j: int) -> bool {
    i <= j <= toks.len()
}

/// `lhs op rhs` for a comparison written with `<`, `<=`, `>` or `>=`: the last two
/// are the first two with the operands swapped.
pub open spec fn comparison(lhs: NodeView, rhs: NodeView, strict: bool, greater: bool) -> NodeView {
    let op = if strict {
        BinaryType::Lt
    } else {
        BinaryType::LtEq
    };
    if greater {
        NodeView::Binary(Box::new(rhs), Box::new(lhs), op)
    } else {
        NodeView::Binary(Box::new(lhs), Box::new(rhs), op)
    }
}

/// `expr = assign`
pub open spec fn p_expr(toks: Seq<Token>, i: int, vars: Vars, funcs: FnTable) -> PResult
    decreases toks.len() - i, 15nat,
{
    p_assign(toks, i, vars, funcs)
}

/// `assign = equality ("=" assign)?`, right-associative.
pub open spec fn p_assign(toks: Seq<Token>, i: int, vars: Vars, funcs: FnTable) -> PResult
    decreases toks.len() - i, 14nat,
{
    match p_equality(toks, i, vars, funcs) {
        Err(e) => Err(e),
        Ok((lhs, j)) => if tok(toks, j) is Equal {
            if !within(toks, i, j) {
                Err(ParseError::UnexpectedToken)
            } else {
                match p_assign(toks, j + 1, vars, funcs) {
                    Err(e) => Err(e),
                    Ok((rhs, k)) => Ok((NodeView::Assign(Box::new(lhs), Box::new(rhs)), k)),
                }
            }
        } else {
            Ok((lhs, j))
        },
    }
}

/// `equality = inequality (("==" | "!=") inequality)*`
pub open spec fn p_equality(toks: Seq<Token>, i: int, vars: Vars, funcs: FnTable) -> PResult
    decreases toks.len() - i, 13nat,
{
    match p_inequality(toks, i, vars, funcs) {
        Err(e) => Err(e),
        Ok((lhs, j)) => if !within(toks, i, j) {
            Err(ParseError::UnexpectedToken)
        } else {
            p_equality_rest(toks, j, lhs, vars, funcs)
        },
    }
}

/// The `("==" | "!=") inequality` repetitions after `lhs`, folded to the left.
pub open spec fn p_equality_rest(
    toks: Seq<Token>,
    i: int,
    lhs: NodeView,
    vars: Vars,
    funcs: FnTable,
) -> PResult
    decreases toks.len() - i, 12nat,
{
    if (tok(toks, i) is Equal || tok(toks, i) is Exclamation) && tok(toks, i + 1) is Equal {
        let op = if tok(toks, i) is Equal {
            BinaryType::Equal
        } else {
            BinaryType::NotEqual
        };
        match p_inequality(toks, i + 2, vars, funcs) {
            Err(e) => Err(e),
            Ok((rhs, j)) => if !within(toks, i + 2, j) {
                Err(ParseError::UnexpectedToken)
            } else {
                p_equality_rest(
                    toks,
                    j,
                    NodeView::Binary(Box::new(lhs), Box::new(rhs), op),
                    vars,
                    funcs,
                )
            },
        }
    } else {
        Ok((lhs, i))
    }
}

/// `inequality = additive (("<" | "<=" | ">" | ">=") additive)*`
pub open spec fn p_inequality(toks: Seq<Token>, i: int, vars: Vars, funcs: FnTable) -> PResult
    decreases toks.len() - i, 11nat,
{
    match p_additive(toks, i, vars, funcs) {
        Err(e) => Err(e),
        Ok((lhs, j)) => if !within(toks, i, j) {
            Err(ParseError::UnexpectedToken)
        } else {
            p_inequality_rest(toks, j, lhs, vars, funcs)
        },
    }
}

/// The comparison repetitions after `lhs`, folded to the left.
pub open spec fn p_inequality_rest(
    toks: Seq<Token>,
    i: int,
    lhs: NodeView,
    vars: Vars,
    funcs: FnTable,
) -> PResult
    decreases toks.len() - i, 10nat,
{
    if tok(toks, i) is Lt || tok(toks, i) is Gt {
        let greater = tok(toks, i) is Gt;
        let strict = !(tok(toks, i + 1) is Equal);
        let start = if strict {
            i + 1
        } else {
            i + 2
        };
        match p_additive(toks, start, vars, funcs) {
            Err(e) => Err(e),
            Ok((rhs, j)) => if !within(toks, start, j) {
                Err(ParseError::UnexpectedToken)
            } else {
                p_inequality_rest(toks, j, comparison(lhs, rhs, strict, greater), vars, funcs)
            },
        }
    } else {
        Ok((lhs, i))
    }
}

/// `additive = multiplicative (("+" | "-") multiplicative)*`
pub open spec fn p_additive(toks: Seq<Token>, i: int, vars: Vars, funcs: FnTable) -> PResult
    decreases toks.len() - i, 9nat,
{
    match p_multiplicative(toks, i, vars, funcs) {
        Err(e) => Err(e),
        Ok((lhs, j)) => if !within(toks, i, j) {
            Err(ParseError::UnexpectedToken)
        } else {
            p_additive_rest(toks, j, lhs, vars, funcs)
        },
    }
}

/// The `("+" | "-") multiplicative` repetitions after `lhs`, folded to the left.
pub open spec fn p_additive_rest(
    toks: Seq<Token>,
    i: int,
    lhs: NodeView,
    vars: Vars,
    funcs: FnTable,
) -> PResult
    decreases toks.len() - i, 8nat,
{
    if tok(toks, i) is Plus || tok(toks, i) is Minus {
        let op = if tok(toks, i) is Plus {
            BinaryType::Add
        } else {
            BinaryType::Sub
        };
        match p_multiplicative(toks, i + 1, vars, funcs) {
            Err(e) => Err(e),
            Ok((rhs, j)) => if !within(toks, i + 1, j) {
                Err(ParseError::UnexpectedToken)
            } else {
                p_additive_rest(
                    toks,
                    j,
                    NodeView::Binary(Box::new(lhs), Box::new(rhs), op),
                    vars,
                    funcs,
                )
            },
        }
    } else {
        Ok((lhs, i))
    }
}

/// `multiplicative = unary (("*" | "/") unary)*`
pub open spec fn p_multiplicative(toks: Seq<Token>, i: int, vars: Vars, funcs: FnTable) -> PResult
    decreases toks.len() - i, 7nat,
{
    match p_unary(toks, i, vars, funcs) {
        Err(e) => Err(e),
        Ok((lhs, j)) => if !within(toks, i, j) {
            Err(ParseError::UnexpectedToken)
        } else {
            p_multiplicative_rest(toks, j, lhs, vars, funcs)
        },
    }
}

/// The `("*" | "/") unary` repetitions after `lhs`, folded to the left.
pub open spec fn p_multiplicative_rest(
    toks: Seq<Token>,
    i: int,
    lhs: NodeView,
    vars: Vars,
    funcs: FnTable,
) -> PResult
    decreases toks.len() - i, 6nat,
{
    if tok(toks, i) is Asterisk || tok(toks, i) is Slash {
        let op = if tok(toks, i) is Asterisk {
            BinaryType::Mul
        } else {
            BinaryType::Div
        };
        match p_unary(toks, i + 1, vars, funcs) {
            Err(e) => Err(e),
            Ok((rhs, j)) => if !within(toks, i + 1, j) {
                Err(ParseError::UnexpectedToken)
            } else {
                p_multiplicative_rest(
                    toks,
                    j,
                    NodeView::Binary(Box::new(lhs), Box::new(rhs), op),
                    vars,
                    funcs,
                )
            },
        }
    } else {
        Ok((lhs, i))
    }
}

/// `unary = ("+" | "-")? primary`; `-x` is `0 - x`.
pub open spec fn p_unary(toks: Seq<Token>, i: int, vars: Vars, funcs: FnTable) -> PResult
    decreases toks.len() - i, 5nat,
{
    if tok(toks, i) is Plus {
        p_primary(toks, i + 1, vars, funcs)
    } else if tok(toks, i) is Minus {
        match p_primary(toks, i + 1, vars, funcs) {
            Err(e) => Err(e),
            Ok((operand, j)) => Ok(
                (
                    NodeView::Binary(
                        Box::new(NodeView::Num(0)),
                        Box::new(operand),
                        BinaryType::Sub,
                    ),
                    j,
                ),
            ),
        }
    } else {
        p_primary(toks, i, vars, funcs)
    }
}

/// `primary = number | identifier ("(" arguments ")")? | "(" expr ")"`
pub open spec fn p_primary(toks: Seq<Token>, i: int, vars: Vars, funcs: FnTable) -> PResult
    decreases toks.len() - i, 4nat,
{
    match tok(toks, i) {
        Token::Num(n) => Ok((NodeView::Num(n), i + 1)),
        Token::LeftParen => match p_expr(toks, i + 1, vars, funcs) {
            Err(e) => Err(e),
            Ok((e, j)) => if tok(toks, j) is RightParen {
                Ok((e, j + 1))
            } else {
                Err(ParseError::UnexpectedToken)
            },
        },
        Token::Identity(name) => if tok(toks, i + 1) is LeftParen {
            if find_fn(funcs, name@) is None {
                Err(ParseError::UndeclaredFunction)
            } else {
                match p_args(toks, i + 2, vars, funcs) {
                    Err(e) => Err(e),
                    Ok((args, j)) => Ok((NodeView::FunctionCall(name@, args), j)),
                }
            }
        } else {
            match lookup_var(vars, name@) {
                None => Err(ParseError::UndeclaredVariable),
                Some(v) => Ok((NodeView::LVar(v.offset, v.typename), i + 1)),
            }
        },
        _ => Err(ParseError::UnexpectedToken),
    }
}

/// The arguments of a call after its `(`, through the closing `)`.
pub open spec fn p_args(toks: Seq<Token>, i: int, vars: Vars, funcs: FnTable) -> Result<
    (Seq<NodeView>, int),
    ParseError,
>
    decreases toks.len() - i, 17nat,
{
    if tok(toks, i) is RightParen {
        Ok((seq![], i + 1))
    } else {
        match p_expr(toks, i, vars, funcs) {
            Err(e) => Err(e),
            Ok((first, j)) => if !within(toks, i, j) {
                Err(ParseError::UnexpectedToken)
            } else {
                p_args_rest(toks, j, seq![first], vars, funcs)
            },
        }
    }
}

/// The `"," expr` repetitions and the closing `)` after the arguments `acc`.
pub open spec fn p_args_rest(
    toks: Seq<Token>,
    i: int,
    acc: Seq<NodeView>,
    vars: Vars,
    funcs: FnTable,
) -> Result<(Seq<NodeView>, int), ParseError>
    decreases toks.len() - i, 16nat,
{
    if tok(toks, i) is RightParen {
        Ok((acc, i + 1))
    } else if tok(toks, i) is Comma {
        match p_expr(toks, i + 1, vars, funcs) {
            Err(e) => Err(e),
            Ok((arg, j)) => if !within(toks, i + 1, j) {
                Err(ParseError::UnexpectedToken)
            } else {
                p_args_rest(toks, j, acc.push(arg), vars, funcs)
            },
        }
    } else {
        Err(ParseError::UnexpectedToken)
    }
}

/// End of the run of type keywords that starts at `i`.
pub open spec fn type_run_end(toks: Seq<Token>, i: int) -> int
    decreases toks.len() - i,
{
    if 0 <= i < toks.len() && is_type_keyword(toks[i]) {
        type_run_end(toks, i + 1)
    } else {
        i
    }
}

/// The state a function body is parsed in: its variables and the next free offset.
pub struct Scope {
    pub vars: Vars,
    pub offset: usize,
}

/// A type, the declared name, and the position after them.
pub type SigResult = Result<(Typename, String, int), ParseError>;

/// `type-keyword+ identifier`: the type the keywords name and the identifier.
pub open spec fn p_signature(toks: Seq<Token>, i: int) -> SigResult {
    let e = type_run_end(toks, i);
    if e <= i || !(tok(toks, e) is Identity) {
        Err(ParseError::UnexpectedToken)
    } else {
        match spec_parse_typename(toks.subrange(i, e)) {
            Err(te) => Err(ParseError::InvalidType(te)),
            Ok(t) => Ok((t, tok(toks, e)->Identity_0, e + 1)),
        }
    }
}

/// A declaration's position after it, type, and the scope with the name bound.
pub type DResult = Result<(int, Typename, Scope), ParseError>;

/// `declaration = type-keyword+ identifier`: binds the identifier at the next free
/// offset and advances the offset by the type's size.
pub open spec fn p_declaration(toks: Seq<Token>, i: int, sc: Scope) -> DResult {
    match p_signature(toks, i) {
        Err(e) => Err(e),
        Ok((t, name, j)) => if t is Void {
            Err(ParseError::VoidVariable)
        } else if lookup_var(sc.vars, name@) is Some {
            Err(ParseError::DuplicateVariable)
        } else if sc.offset + size_of(t) > usize::MAX {
            Err(ParseError::FrameTooLarge)
        } else {
            Ok(
                (
                    j,
                    t,
                    Scope {
                        vars: sc.vars.push((name, LVar { offset: sc.offset, typename: t })),
                        offset: (sc.offset + size_of(t)) as usize,
                    },
                ),
            )
        },
    }
}

/// A statement, the position after it, and the scope it leaves.
pub type SResult = Result<(NodeView, int, Scope), ParseError>;

/// `block = "{" statement* "}"`
pub open spec fn p_block(toks: Seq<Token>, i: int, sc: Scope, funcs: FnTable) -> SResult
    decreases toks.len() - i, 1nat,
{
    if tok(toks, i) is LeftCurl {
        p_items(toks, i + 1, sc, seq![], funcs)
    } else {
        Err(ParseError::UnexpectedToken)
    }
}

/// The statements of a block after `acc`, through the closing `}`.
pub open spec fn p_items(
    toks: Seq<Token>,
    i: int,
    sc: Scope,
    acc: Seq<NodeView>,
    funcs: FnTable,
) -> SResult
    decreases toks.len() - i, 3nat,
{
    if tok(toks, i) is RightCurl {
        Ok((NodeView::Block(acc), i + 1, sc))
    } else {
        match p_stmt(toks, i, sc, funcs) {
            Err(e) => Err(e),
            Ok((n, j, sc1)) => if !(i < j <= toks.len()) {
                Err(ParseError::UnexpectedToken)
            } else {
                p_items(toks, j, sc1, acc.push(n), funcs)
            },
        }
    }
}

/// An expression that may be left out before `stop`; `absent` stands for it then.
pub open spec fn p_optional(
    toks: Seq<Token>,
    i: int,
    vars: Vars,
    funcs: FnTable,
    absent: NodeView,
) -> PResult {
    if tok(toks, i) is Semicolon || tok(toks, i) is RightParen {
        Ok((absent, i))
    } else {
        p_expr(toks, i, vars, funcs)
    }
}

/// `statement = block | "return" expr? ";" | "if" "(" expr ")" statement ("else" statement)?
///            | "for" "(" expr? ";" expr? ";" expr? ")" statement
///            | "while" "(" expr ")" statement | declaration ";" | expr ";" | ";"`
pub open spec fn p_stmt(toks: Seq<Token>, i: int, sc: Scope, funcs: FnTable) -> SResult
    decreases toks.len() - i, 2nat,
{
    match tok(toks, i) {
        Token::LeftCurl => p_block(toks, i, sc, funcs),
        Token::Semicolon => Ok((NodeView::Empty, i + 1, sc)),
        Token::Return => p_return(toks, i, sc, funcs),
        Token::If => p_if(toks, i, sc, funcs),
        Token::While => p_while(toks, i, sc, funcs),
        Token::For => p_for(toks, i, sc, funcs),
        _ => if is_type_keyword(tok(toks, i)) {
            p_declaration_statement(toks, i, sc)
        } else {
            p_expression_statement(toks, i, sc, funcs)
        },
    }
}

/// `declaration ";"`: a statement that does nothing.
pub open spec fn p_declaration_statement(toks: Seq<Token>, i: int, sc: Scope) -> SResult {
    match p_declaration(toks, i, sc) {
        Err(e) => Err(e),
        Ok((j, _, sc1)) => if tok(toks, j) is Semicolon {
            Ok((NodeView::Empty, j + 1, sc1))
        } else {
            Err(ParseError::UnexpectedToken)
        },
    }
}

/// `expr ";"`
pub open spec fn p_expression_statement(toks: Seq<Token>, i: int, sc: Scope, funcs: FnTable) -> SResult {
    match p_expr(toks, i, sc.vars, funcs) {
        Err(e) => Err(e),
        Ok((e, j)) => if tok(toks, j) is Semicolon {
            Ok((e, j + 1, sc))
        } else {
            Err(ParseError::UnexpectedToken)
        },
    }
}

/// `"return" expr? ";"`, at the `return`.
pub open spec fn p_return(toks: Seq<Token>, i: int, sc: Scope, funcs: FnTable) -> SResult {
    if tok(toks, i + 1) is Semicolon {
        Ok((NodeView::Return(None), i + 2, sc))
    } else {
        match p_expr(toks, i + 1, sc.vars, funcs) {
            Err(e) => Err(e),
            Ok((e, j)) => if tok(toks, j) is Semicolon {
                Ok((NodeView::Return(Some(Box::new(e))), j + 1, sc))
            } else {
                Err(ParseError::UnexpectedToken)
            },
        }
    }
}

/// `"(" expr ")"` at `i`: the condition and the position after the `)`.
pub open spec fn p_condition(toks: Seq<Token>, i: int, vars: Vars, funcs: FnTable) -> PResult {
    if !(tok(toks, i) is LeftParen) {
        Err(ParseError::UnexpectedToken)
    } else {
        match p_expr(toks, i + 1, vars, funcs) {
            Err(e) => Err(e),
            Ok((c, j)) => if tok(toks, j) is RightParen && i <= j {
                Ok((c, j + 1))
            } else {
                Err(ParseError::UnexpectedToken)
            },
        }
    }
}

/// `"if" "(" expr ")" statement ("else" statement)?`, at the `if`.
pub open spec fn p_if(toks: Seq<Token>, i: int, sc: Scope, funcs: FnTable) -> SResult
    decreases toks.len() - i, 1nat,
{
    match p_condition(toks, i + 1, sc.vars, funcs) {
        Err(e) => Err(e),
        Ok((c, j)) => if !(i < j <= toks.len()) {
            Err(ParseError::UnexpectedToken)
        } else {
            match p_stmt(toks, j, sc, funcs) {
                Err(e) => Err(e),
                Ok((t, k, sc1)) => if tok(toks, k) is Else {
                    if !within(toks, i, k) {
                        Err(ParseError::UnexpectedToken)
                    } else {
                        match p_stmt(toks, k + 1, sc1, funcs) {
                            Err(e) => Err(e),
                            Ok((o, m, sc2)) => Ok(
                                (NodeView::IfElse(Box::new(c), Box::new(t), Box::new(o)), m, sc2),
                            ),
                        }
                    }
                } else {
                    Ok((NodeView::If(Box::new(c), Box::new(t)), k, sc1))
                },
            }
        },
    }
}

/// `"while" "(" expr ")" statement`, at the `while`.
pub open spec fn p_while(toks: Seq<Token>, i: int, sc: Scope, funcs: FnTable) -> SResult
    decreases toks.len() - i, 1nat,
{
    match p_condition(toks, i + 1, sc.vars, funcs) {
        Err(e) => Err(e),
        Ok((c, j)) => if !(i < j <= toks.len()) {
            Err(ParseError::UnexpectedToken)
        } else {
            match p_stmt(toks, j, sc, funcs) {
                Err(e) => Err(e),
                Ok((b, k, sc1)) => Ok((NodeView::While(Box::new(c), Box::new(b)), k, sc1)),
            }
        },
    }
}

/// The three clauses of a `for` header after its `(`, through the `)`: each may be
/// left out; a missing condition is the constant true.
pub open spec fn p_for_header(toks: Seq<Token>, i: int, vars: Vars, funcs: FnTable) -> Result<
    (NodeView, NodeView, NodeView, int),
    ParseError,
> {
    match p_optional(toks, i, vars, funcs, NodeView::Empty) {
        Err(e) => Err(e),
        Ok((init, j)) => if !(tok(toks, j) is Semicolon) {
            Err(ParseError::UnexpectedToken)
        } else {
            match p_optional(toks, j + 1, vars, funcs, NodeView::Boolean(true)) {
                Err(e) => Err(e),
                Ok((c, k)) => if !(tok(toks, k) is Semicolon) {
                    Err(ParseError::UnexpectedToken)
                } else {
                    match p_optional(toks, k + 1, vars, funcs, NodeView::Empty) {
                        Err(e) => Err(e),
                        Ok((u, m)) => if !(tok(toks, m) is RightParen) {
                            Err(ParseError::UnexpectedToken)
                        } else {
                            Ok((init, c, u, m + 1))
                        },
                    }
                },
            }
        },
    }
}

/// `"for" "(" expr? ";" expr? ";" expr? ")" statement`, at the `for`.
pub open spec fn p_for(toks: Seq<Token>, i: int, sc: Scope, funcs: FnTable) -> SResult
    decreases toks.len() - i, 1nat,
{
    if !(tok(toks, i + 1) is LeftParen) {
        Err(ParseError::UnexpectedToken)
    } else {
        match p_for_header(toks, i + 2, sc.vars, funcs) {
            Err(e) => Err(e),
            Ok((init, c, u, m)) => if !(i < m <= toks.len()) {
                Err(ParseError::UnexpectedToken)
            } else {
                match p_stmt(toks, m, sc, funcs) {
                    Err(e) => Err(e),
                    Ok((b, q, sc1)) => Ok(
                        (
                            NodeView::For(Box::new(init), Box::new(c), Box::new(u), Box::new(b)),
                            q,
                            sc1,
                        ),
                    ),
                }
            },
        }
    }
}

/// Parameter types, the position after the `)`, and the scope with them bound.
pub type PListResult = Result<(int, Seq<Typename>, Scope), ParseError>;

/// The parameter list after a function's `(`, through the closing `)`.
pub open spec fn p_params(toks: Seq<Token>, i: int, sc: Scope) -> PListResult {
    if tok(toks, i) is RightParen {
        Ok((i + 1, seq![], sc))
    } else {
        match p_declaration(toks, i, sc) {
            Err(e) => Err(e),
            Ok((j, t, sc1)) => if !within(toks, i, j) {
                Err(ParseError::UnexpectedToken)
            } else {
                p_params_rest(toks, j, seq![t], sc1)
            },
        }
    }
}

/// The `"," declaration` repetitions and the closing `)` after the parameters `acc`.
pub open spec fn p_params_rest(toks: Seq<Token>, i: int, acc: Seq<Typename>, sc: Scope) -> PListResult
    decreases toks.len() - i,
{
    if tok(toks, i) is RightParen {
        Ok((i + 1, acc, sc))
    } else if tok(toks, i) is Comma {
        match p_declaration(toks, i + 1, sc) {
            Err(e) => Err(e),
            Ok((j, t, sc1)) => if !within(toks, i + 1, j) {
                Err(ParseError::UnexpectedToken)
            } else {
                p_params_rest(toks, j, acc.push(t), sc1)
            },
        }
    } else {
        Err(ParseError::UnexpectedToken)
    }
}

/// The table after registering a definition of `name`: a new entry, or the prototype's
/// entry marked defined when the signatures agree.
pub open spec fn register_definition(funcs: FnTable, name: Seq<char>, sig: FnSig) -> Result<
    FnTable,
    ParseError,
> {
    match find_fn(funcs, name) {
        None => Ok(funcs.push((name, sig))),
        Some(k) => if funcs[k].1.defined {
            Err(ParseError::FunctionRedefined)
        } else if funcs[k].1.ret != sig.ret || funcs[k].1.params != sig.params {
            Err(ParseError::FunctionRedeclared)
        } else {
            Ok(funcs.update(k, (name, sig)))
        },
    }
}

/// A function, the position after it, and the function table afterwards.
pub type FResult = Result<(NodeView, int, FnTable), ParseError>;

/// `function = declaration "(" parameters ")" (block | ";")`. Each function starts
/// with no variables and offset zero; a prototype yields `Empty`. The function is
/// registered before its body, so the body may call it.
#[verifier::opaque]
pub open spec fn p_function(toks: Seq<Token>, i: int, funcs: FnTable) -> FResult {
    match p_signature(toks, i) {
        Err(err) => Err(err),
        Ok((ret, name, e)) => if !(tok(toks, e) is LeftParen) {
            Err(ParseError::UnexpectedToken)
        } else {
            match p_params(toks, e + 1, Scope { vars: seq![], offset: 0 }) {
                Err(err) => Err(err),
                Ok((p, params, sc)) => if tok(toks, p) is Semicolon {
                    if find_fn(funcs, name@) is Some {
                        Err(ParseError::FunctionRedeclared)
                    } else {
                        Ok(
                            (
                                NodeView::Empty,
                                p + 1,
                                funcs.push((name@, FnSig { ret, params, defined: false })),
                            ),
                        )
                    }
                } else {
                    match register_definition(funcs, name@, FnSig { ret, params, defined: true }) {
                        Err(err) => Err(err),
                        Ok(funcs1) => match p_block(toks, p, sc, funcs1) {
                            Err(err) => Err(err),
                            Ok((body, q, sc1)) => Ok(
                                (
                                    NodeView::Function(name@, ret, params, Box::new(body), sc1.offset),
                                    q,
                                    funcs1,
                                ),
                            ),
                        },
                    }
                },
            }
        },
    }
}

/// The functions from position `i` to the end of the tokens, after those in `acc`.
pub open spec fn p_units(toks: Seq<Token>, i: int, funcs: FnTable, acc: Seq<NodeView>) -> Result<
    Seq<NodeView>,
    ParseError,
>
    decreases toks.len() - i,
{
    if i >= toks.len() {
        Ok(acc)
    } else {
        match p_function(toks, i, funcs) {
            Err(e) => Err(e),
            Ok((f, j, funcs1)) => if !(i < j <= toks.len()) {
                Err(ParseError::UnexpectedToken)
            } else {
                p_units(toks, j, funcs1, acc.push(f))
            },
        }
    }
}

/// `program = function*`: a block of the functions' nodes.
pub open spec fn p_program(toks: Seq<Token>) -> Result<NodeView, ParseError> {
    match p_units(toks, 0, seq![], seq![]) {
        Err(e) => Err(e),
        Ok(units) => Ok(NodeView::Block(units)),
    }
}

/// `a > b` parses to the tree of `b < a`, and `a >= b` to that of `b <= a`: for
/// additive operands `a` (at `i`) and `b` (after the operator) with no further
/// comparison after them, the comparison is `<` or `<=` with the operands swapped.
pub proof fn lemma_greater_swaps_operands(
    toks: Seq<Token>,
    i: int,
    vars: Vars,
    funcs: FnTable,
    a: NodeView,
    j: int,
    b: NodeView,
    k: int,
    strict: bool,
)
    requires
        p_additive(toks, i, vars, funcs) == Ok::<(NodeView, int), ParseError>((a, j)),
        i <= j,
        tok(toks, j) is Gt,
        (tok(toks, j + 1) is Equal) == !strict,
        p_additive(toks, if strict { j + 1 } else { j + 2 }, vars, funcs) == Ok::<
            (NodeView, int),
            ParseError,
        >((b, k)),
        (if strict { j + 1 } else { j + 2 }) <= k <= toks.len(),
        !(tok(toks, k) is Lt),
        !(tok(toks, k) is Gt),
    ensures
        p_inequality(toks, i, vars, funcs) == Ok::<(NodeView, int), ParseError>(
            (comparison(b, a, strict, false), k),
        ),
        comparison(b, a, strict, false) == NodeView::Binary(
            Box::new(b),
            Box::new(a),
            if strict {
                BinaryType::Lt
            } else {
                BinaryType::LtEq
            },
        ),
{
    assert(j <= toks.len()) by {
        assert(0 <= j < toks.len());
    }
    let c = comparison(a, b, strict, true);
    assert(c == comparison(b, a, strict, false));
    assert(p_inequality_rest(toks, k, c, vars, funcs) == Ok::<(NodeView, int), ParseError>(
        (c, k),
    ));
    assert(p_inequality_rest(toks, j, a, vars, funcs) == p_inequality_rest(
        toks,
        k,
        c,
        vars,
        funcs,
    ));
}

/// The index that `find_fn` gives holds an entry for the name.
pub proof fn lemma_find_fn(funcs: FnTable, name: Seq<char>)
    ensures
        find_fn(funcs, name) matches Some(k) ==> 0 <= k < funcs.len() && funcs[k].0 == name,
    decreases funcs.len(),
{
    if funcs.len() > 0 && funcs.last().0 != name {
        lemma_find_fn(funcs.drop_last(), name);
    }
}

} // verus!
