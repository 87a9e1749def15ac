pub mod codegen;
pub mod grammar;
pub mod machine;
pub mod node;
pub mod parser;
pub mod register;
pub mod stack;
pub mod text;
pub mod token;
pub mod tokenizer;
pub mod typename;

use vstd::prelude::*;
use crate::codegen::{gen_program, generate, listing, GenError};
use crate::grammar::{p_units, ParseError};
use crate::node::{Node, NodeView};
use crate::parser::program::parse;
use crate::token::Token;
use crate::tokenizer::{lexes, tokenize};

verus! {

/// Why a source text does not compile.
#[derive(Clone, Copy, Debug, PartialEq, Eq, Structural)]
pub enum CompileError {
    Parse(ParseError),
    Generate(GenError),
}

/// Compiles a source text to assembly lines: its tokens are parsed into a program,
/// which is lowered to the header and one line per instruction. Either phase failing
/// fails the whole compilation, and nothing is produced.
pub fn compile(source: &str) -> (r: Result<Vec<String>, CompileError>)
    ensures
        exists|toks: Seq<Token>|
            #![trigger lexes(source@, 0, toks)]
            lexes(source@, 0, toks) && match p_units(toks, 0, seq![], seq![]) {
                Err(e) => r == Err::<Vec<String>, CompileError>(CompileError::Parse(e)),
                Ok(units) => exists|n: Node|
                    #![trigger gen_program(n, 0, 0)]
                    n@ == NodeView::Block(units) && match gen_program(n, 0, 0) {
                        Err(e) => r == Err::<Vec<String>, CompileError>(
                            CompileError::Generate(e),
                        ),
                        Ok((c, _, _)) => r matches Ok(lines) && listing(lines@, c),
                    },
            },
{
    let tokens = tokenize(source);
    let ghost toks = tokens.tokens@;
    let program = match parse(tokens) {
        Err(e) => {
            return Err(CompileError::Parse(e));
        },
        Ok(n) => n,
    };
    match generate(&program) {
        Err(e) => Err(CompileError::Generate(e)),
        Ok(lines) => Ok(lines),
    }
}

} // verus!
