use minicc::codegen::{gen_lval_ptr, generate, stack_align, CodeGenerator, GenError};
use minicc::compile;
use minicc::grammar::ParseError;
use minicc::node::{BinaryType, Node};
use minicc::parser::program::parse;
use minicc::tokenizer::tokenize;
use minicc::typename::{SignedFlag, Typename};
use minicc::CompileError;

fn lines(src: &str) -> Vec<String> {
    compile(src).expect("program should compile")
}

fn body_of(program: &Node) -> &Node {
    match program {
        Node::Block(units) => match &units[0] {
            Node::Function(_, _, _, body, _) => body,
            _ => panic!("not a function"),
        },
        _ => panic!("not a program"),
    }
}

fn returned(program: &Node) -> &Node {
    match body_of(program) {
        Node::Block(stmts) => match &stmts[0] {
            Node::Return(Some(e)) => e,
            _ => panic!("not a return"),
        },
        _ => panic!("not a block"),
    }
}

fn eval(n: &Node) -> i64 {
    match n {
        Node::Num(v) => *v as i64,
        Node::Binary(l, r, op) => {
            let (a, b) = (eval(l), eval(r));
            match op {
                BinaryType::Add => a + b,
                BinaryType::Sub => a - b,
                BinaryType::Mul => a * b,
                BinaryType::Div => a / b,
                BinaryType::Equal => (a == b) as i64,
                BinaryType::NotEqual => (a != b) as i64,
                BinaryType::Lt => (a < b) as i64,
                BinaryType::LtEq => (a <= b) as i64,
            }
        }
        _ => panic!("not arithmetic"),
    }
}

#[test]
fn minimal_program_exact_output() {
    let expected = vec![
        ".intel_syntax noprefix",
        ".globl main",
        "main:",
        "    endbr64",
        "    push rbp",
        "    mov rbp, rsp",
        "    push rdx",
        "    sub rsp, 0x0",
        "    push 0x0",
        "    pop rax",
        "    jmp .Lendfunc0",
        ".Lendfunc0:",
        "    add rsp, 0x0",
        "    pop rdx",
        "    pop rbp",
        "    ret",
    ];
    assert_eq!(lines("int main() { return 0; }"), expected);
}

#[test]
fn precedence_and_left_associativity() {
    let program = parse(tokenize("int main() { return 1+2*3-4/2; }")).unwrap();
    assert_eq!(eval(returned(&program)), 5);
    let program = parse(tokenize("int main() { return 10-3-2; }")).unwrap();
    assert_eq!(eval(returned(&program)), 5);
    let program = parse(tokenize("int main() { return (1+2)*3; }")).unwrap();
    assert_eq!(eval(returned(&program)), 9);
    let program = parse(tokenize("int main() { return -3+5; }")).unwrap();
    assert_eq!(eval(returned(&program)), 2);
}

#[test]
fn arithmetic_lowering() {
    let out = lines("int main() { return 7/2; }");
    let tail: Vec<&str> = out[8..16].iter().map(|s| s.as_str()).collect();
    assert_eq!(
        tail,
        vec![
            "    push 0x7",
            "    push 0x2",
            "    pop rdi",
            "    pop rax",
            "    cqo",
            "    idiv rdi",
            "    push rax",
            "    pop rax",
        ]
    );
}

#[test]
fn greater_than_swaps_operands() {
    assert_eq!(lines("int main() { return 3>5; }"), lines("int main() { return 5<3; }"));
    assert_eq!(lines("int main() { return 3>=5; }"), lines("int main() { return 5<=3; }"));
    let p = parse(tokenize("int main() { return 3>5; }")).unwrap();
    assert_eq!(eval(returned(&p)), 0);
    let p = parse(tokenize("int main() { return 5>3; }")).unwrap();
    assert_eq!(eval(returned(&p)), 1);
    match returned(&p) {
        Node::Binary(l, r, BinaryType::Lt) => {
            assert!(matches!(**l, Node::Num(3)));
            assert!(matches!(**r, Node::Num(5)));
        }
        _ => panic!("expected a swapped less-than"),
    }
}

#[test]
fn functions_have_separate_frames() {
    let src = "int f() { int x; x = 1; return x; } int main() { int x; x = 2; return x + f(); }";
    let program = parse(tokenize(src)).unwrap();
    match &program {
        Node::Block(units) => {
            assert_eq!(units.len(), 2);
            for u in units.iter() {
                match u {
                    Node::Function(_, _, _, body, size) => {
                        assert_eq!(*size, 4);
                        match &**body {
                            Node::Block(stmts) => match &stmts[1] {
                                Node::Assign(target, _) => {
                                    assert!(matches!(**target, Node::LVar(0, _)))
                                }
                                _ => panic!("expected an assignment"),
                            },
                            _ => panic!("expected a block"),
                        }
                    }
                    _ => panic!("expected a function"),
                }
            }
        }
        _ => panic!("expected a program"),
    }
    let out = lines(src);
    assert!(out.contains(&"    mov DWORD PTR [rbp-0x8], edi".to_string()));
    assert!(out.contains(&".Lendfunc0:".to_string()));
    assert!(out.contains(&".Lendfunc1:".to_string()));
}

#[test]
fn frame_alignment_values() {
    assert_eq!(stack_align(0), 0);
    assert_eq!(stack_align(8), 8);
    assert_eq!(stack_align(16), 16);
    assert_eq!(stack_align(17), 24);
    assert_eq!(stack_align(32), 32);
    assert_eq!(stack_align(1), 8);
    assert_eq!(stack_align(40), 40);
    assert_eq!(stack_align(9), 8);
    assert_eq!(stack_align(24), 24);
}

#[test]
fn call_arguments_right_to_left() {
    let src = "int f(int a, int b, int c); int main() { return f(1+1, 2, 1*3); }";
    let out = lines(src);
    let moves: Vec<&str> = out
        .iter()
        .map(|s| s.as_str())
        .filter(|s| s.starts_with("    mov r") && s.ends_with(", rax"))
        .collect();
    assert_eq!(moves, vec!["    mov rdx, rax", "    mov rsi, rax", "    mov rdi, rax"]);
    let plain = lines("int f(int a, int b, int c); int main() { return f(2, 2, 3); }");
    let plain_moves: Vec<&str> = plain
        .iter()
        .map(|s| s.as_str())
        .filter(|s| s.starts_with("    mov r") && s.ends_with(", rax"))
        .collect();
    assert_eq!(moves, plain_moves);
    assert!(out.contains(&"    call f".to_string()));
}

#[test]
fn parameters_are_stored_by_width() {
    let out = lines("int f(char a, long long b) { return a; }");
    assert!(out.contains(&"    mov BYTE PTR [rbp-0x8], dil".to_string()));
    assert!(out.contains(&"    mov QWORD PTR [rbp-0x9], rsi".to_string()));
    assert!(out.contains(&"    sub rsp, 0x8".to_string()));
    assert!(out.contains(&"    mov al, BYTE PTR [rbp-0x8]".to_string()));
}

#[test]
fn labels_are_unique_across_functions() {
    let out = lines("int f() { if (1) return 1; return 0; } int main() { while (0) ; if (1) return 2; else return 3; }");
    for label in [".Lend0:", ".Lbegin1:", ".Lend1:", ".Lelse2:", ".Lend2:"] {
        assert_eq!(out.iter().filter(|s| s.as_str() == label).count(), 1, "{}", label);
    }
}

#[test]
fn for_loop_parts_may_be_omitted() {
    let out = lines("int main() { int i; for (i = 0; i < 3; i = i + 1) ; for (;;) return 1; }");
    assert!(out.contains(&".Lbegin1:".to_string()));
    assert!(out.contains(&"    push 1".to_string()));
    let pushes = out.iter().filter(|s| s.starts_with("    push") && !s.contains("rbp") && !s.contains("rdx")).count();
    let pops = out.iter().filter(|s| s.starts_with("    pop") && !s.contains("rbp") && !s.contains("rdx")).count();
    assert_eq!(pushes, pops);
}

#[test]
fn invalid_lvalue_fails_generation() {
    assert_eq!(compile("int main() { 1 = 2; }"), Err(CompileError::Generate(GenError::InvalidLvalue)));
}

#[test]
fn undeclared_variable_fails_parsing() {
    assert_eq!(compile("int main() { return x; }"), Err(CompileError::Parse(ParseError::UndeclaredVariable)));
}

#[test]
fn duplicate_declaration_fails_parsing() {
    assert_eq!(compile("int main() { int a; int a; }"), Err(CompileError::Parse(ParseError::DuplicateVariable)));
    assert_eq!(compile("int main() { {int a;} {int a;} }"), Err(CompileError::Parse(ParseError::DuplicateVariable)));
}

#[test]
fn undeclared_function_fails_parsing() {
    assert_eq!(compile("int main() { return f(); }"), Err(CompileError::Parse(ParseError::UndeclaredFunction)));
}

#[test]
fn other_parse_errors() {
    assert_eq!(compile("int main() { return 1 }"), Err(CompileError::Parse(ParseError::UnexpectedToken)));
    assert_eq!(compile("int main() { void v; }"), Err(CompileError::Parse(ParseError::VoidVariable)));
    assert_eq!(
        compile("int main() { short long s; }"),
        Err(CompileError::Parse(ParseError::InvalidType(minicc::typename::TypeError::ShortAndLong)))
    );
    assert_eq!(compile("int f(); int f();"), Err(CompileError::Parse(ParseError::FunctionRedeclared)));
    assert_eq!(compile("int f() {} int f() {}"), Err(CompileError::Parse(ParseError::FunctionRedefined)));
    assert_eq!(compile("int f(int a); int f() {}"), Err(CompileError::Parse(ParseError::FunctionRedeclared)));
}

#[test]
fn prototype_then_definition_and_recursion() {
    assert!(compile("int f(int n); int f(int n) { if (n < 1) return 0; return f(n - 1); }").is_ok());
    assert!(compile("void g() { return; }").is_ok());
}

#[test]
fn too_many_arguments_fails_generation() {
    assert_eq!(
        compile("int f(); int main() { return f(1, 2, 3, 4, 5, 6, 7); }"),
        Err(CompileError::Generate(GenError::TooManyArguments))
    );
}

#[test]
fn generator_rejects_statement_in_expression_position() {
    let bad = Node::Block(vec![Node::Function(
        "main".to_string(),
        Typename::Integer(SignedFlag::Signed, 4),
        vec![],
        Box::new(Node::Return(Some(Box::new(Node::Empty)))),
        0,
    )]);
    assert_eq!(generate(&bad), Err(GenError::Malformed));
    let mut g = CodeGenerator::new();
    assert_eq!(g.gen_expression(&Node::Num(1)), Ok(()));
    assert_eq!(g.lines(), vec!["    push 0x1".to_string()]);
}

#[test]
fn lvalue_operand_text() {
    assert_eq!(gen_lval_ptr(0, &Typename::Integer(SignedFlag::Signed, 4)), "DWORD PTR [rbp-0x8]");
    assert_eq!(gen_lval_ptr(24, &Typename::Integer(SignedFlag::Unsigned, 8)), "QWORD PTR [rbp-0x20]");
    assert_eq!(gen_lval_ptr(0, &Typename::Void), "");
}

#[test]
fn oversized_frame_fails_generation() {
    let program = Node::Block(vec![Node::Function(
        "main".to_string(),
        Typename::Integer(SignedFlag::Signed, 4),
        vec![],
        Box::new(Node::Block(vec![])),
        usize::MAX,
    )]);
    assert_eq!(generate(&program), Err(GenError::FrameTooLarge));
}

#[test]
fn exhausted_label_counter_fails_generation() {
    let mut g = CodeGenerator::new();
    g.label_count = usize::MAX;
    let node = Node::While(Box::new(Node::Num(1)), Box::new(Node::Empty));
    assert_eq!(g.gen_statement(&node), Err(GenError::TooManyLabels));
}

#[test]
fn void_variable_in_tree_is_malformed() {
    let mut g = CodeGenerator::new();
    assert_eq!(g.gen_expression(&Node::LVar(0, Typename::Void)), Err(GenError::Malformed));
}
