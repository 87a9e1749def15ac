use vstd::prelude::*;
use vstd::string::*;
use crate::node::{is_expression, BinaryType, Node};
use crate::register::{register_name, Register};
use crate::text::{append_decimal, append_hex, decimal, hex};
use crate::typename::Typename;

verus! {

/// A jump target. Control-flow labels carry the compilation-wide counter, the
/// epilogue label the number of the function it ends.
#[derive(Clone, Copy, Debug, PartialEq, Eq, Structural)]
pub enum Label {
    Begin(usize),
    End(usize),
    Else(usize),
    EndFunc(usize),
}

/// One line of the emitted assembly (Intel syntax). Arithmetic works on `rax` and `rdi`.
#[derive(Debug)]
pub enum Instr {
    /// `name:`
    Symbol(String),
    /// `endbr64`
    EndBr,
    /// `push reg`
    Push(Register),
    /// `push imm` (hexadecimal)
    PushImm(i32),
    /// `push 1` or `push 0`
    PushBool(bool),
    /// `pop reg`
    Pop(Register),
    /// `mov dst, src` on whole registers
    Mov(Register, Register),
    /// `sub rsp, n`
    SubRsp(usize),
    /// `add rsp, n`
    AddRsp(usize),
    /// `mov [variable], reg` at the variable's width
    Store(usize, Typename, Register),
    /// `mov reg, [variable]` at the variable's width
    Load(Register, usize, Typename),
    /// `label:`
    Place(Label),
    /// `jmp label`
    Jmp(Label),
    /// `je label`
    Je(Label),
    /// `cmp rax, 0`
    CmpZero,
    /// `call name`
    Call(String),
    /// `ret`
    Ret,
    /// `add rax, rdi`
    Add,
    /// `sub rax, rdi`
    Sub,
    /// `imul rax, rdi`
    Imul,
    /// `cqo`
    Cqo,
    /// `idiv rdi`
    Idiv,
    /// `cmp rax, rdi`
    Cmp,
    /// `sete al`
    Sete,
    /// `setne al`
    Setne,
    /// `setl al`
    Setl,
    /// `setle al`
    Setle,
    /// `movzb rax, al`
    Movzb,
}

/// Why a tree cannot be lowered to assembly.
#[derive(Clone, Copy, Debug, PartialEq, Eq, Structural)]
pub enum GenError {
    /// The target of an assignment is not a variable.
    InvalidLvalue,
    /// A node stands where it cannot be generated, or a variable has no integer type.
    Malformed,
    /// A call or a definition with more than six arguments.
    TooManyArguments,
    /// The label counters are exhausted.
    TooManyLabels,
    /// The local variables do not fit in a frame.
    FrameTooLarge,
}

/// The most arguments passed in registers.
pub const MAX_REGISTER_ARGS: usize = 6;

/// Code and the next free control-flow label, or the first failure.
pub type GenResult = Result<(Seq<Instr>, usize), GenError>;

/// The register that carries argument `k` (0 to 5) of a call.
pub open spec fn arg_register(k: int) -> Register {
    if k == 0 {
        Register::RDI
    } else if k == 1 {
        Register::RSI
    } else if k == 2 {
        Register::RDX
    } else if k == 3 {
        Register::RCX
    } else if k == 4 {
        Register::Rn(8)
    } else {
        Register::Rn(9)
    }
}

/// A type that a variable may have: an integer of 1, 2, 4 or 8 bytes.
pub open spec fn var_type_ok(t: Typename) -> bool {
    match t {
        Typename::Integer(_, w) => w == 1 || w == 2 || w == 4 || w == 8,
        Typename::Void => false,
    }
}

/// Frame size for `size` bytes of locals: unchanged when a multiple of sixteen, else
/// rounded to the multiple of sixteen above and less eight, to offset the odd number
/// of eight-byte words the prologue pushes.
pub open spec fn align(size: nat) -> nat {
    if size % 16 == 0 {
        size
    } else {
        (16 * (size / 16 + 1) - 8) as nat
    }
}

/// The instructions that combine `rax` (left) and `rdi` (right) into `rax`.
pub open spec fn alu(op: BinaryType) -> Seq<Instr> {
    match op {
        BinaryType::Add => seq![Instr::Add],
        BinaryType::Sub => seq![Instr::Sub],
        BinaryType::Mul => seq![Instr::Imul],
        BinaryType::Div => seq![Instr::Cqo, Instr::Idiv],
        BinaryType::Equal => seq![Instr::Cmp, Instr::Sete, Instr::Movzb],
        BinaryType::NotEqual => seq![Instr::Cmp, Instr::Setne, Instr::Movzb],
        BinaryType::Lt => seq![Instr::Cmp, Instr::Setl, Instr::Movzb],
        BinaryType::LtEq => seq![Instr::Cmp, Instr::Setle, Instr::Movzb],
    }
}

/// `prefix` followed by what `r` generated.
pub open spec fn prepend(prefix: Seq<Instr>, r: GenResult) -> GenResult {
    match r {
        Ok((code, lc)) => Ok((prefix + code, lc)),
        Err(e) => Err(e),
    }
}

/// Code for an expression: it leaves the value on the operand stack.
pub open spec fn gen_expr(n: Node, lc: usize, lf: usize) -> GenResult
    decreases n,
{
    match n {
        Node::Num(v) => Ok((seq![Instr::PushImm(v)], lc)),
        Node::Boolean(b) => Ok((seq![Instr::PushBool(b)], lc)),
        Node::LVar(offset, t) => if var_type_ok(t) {
            Ok((seq![Instr::Load(Register::RAX, offset, t), Instr::Push(Register::RAX)], lc))
        } else {
            Err(GenError::Malformed)
        },
        Node::Unary(a, _) => gen_expr(*a, lc, lf),
        Node::Binary(l, r, op) => match gen_expr(*l, lc, lf) {
            Err(e) => Err(e),
            Ok((cl, lc1)) => match gen_expr(*r, lc1, lf) {
                Err(e) => Err(e),
                Ok((cr, lc2)) => Ok(
                    (
                        cl + cr + seq![Instr::Pop(Register::RDI), Instr::Pop(Register::RAX)] + alu(
                            op,
                        ) + seq![Instr::Push(Register::RAX)],
                        lc2,
                    ),
                ),
            },
        },
        Node::Assign(target, value) => match *target {
            Node::LVar(offset, t) => if !var_type_ok(t) {
                Err(GenError::Malformed)
            } else {
                match gen_expr(*value, lc, lf) {
                    Err(e) => Err(e),
                    Ok((cv, lc1)) => Ok(
                        (
                            cv + seq![
                                Instr::Pop(Register::RDI),
                                Instr::Store(offset, t, Register::RDI),
                                Instr::Push(Register::RDI),
                            ],
                            lc1,
                        ),
                    ),
                }
            },
            _ => Err(GenError::InvalidLvalue),
        },
        Node::FunctionCall(name, args) => if args@.len() > MAX_REGISTER_ARGS {
            Err(GenError::TooManyArguments)
        } else {
            match gen_args(args@, lc, lf) {
                Err(e) => Err(e),
                Ok((ca, lc1)) => Ok(
                    (ca + seq![Instr::Call(name), Instr::Push(Register::RAX)], lc1),
                ),
            }
        },
        _ => Err(GenError::Malformed),
    }
}

/// Code that evaluates the arguments right to left, moving each into its register.
pub open spec fn gen_args(args: Seq<Node>, lc: usize, lf: usize) -> GenResult
    decreases args,
{
    if args.len() == 0 {
        Ok((seq![], lc))
    } else {
        match gen_expr(args.last(), lc, lf) {
            Err(e) => Err(e),
            Ok((c, lc1)) => prepend(
                c + seq![
                    Instr::Pop(Register::RAX),
                    Instr::Mov(arg_register(args.len() - 1), Register::RAX),
                ],
                gen_args(args.drop_last(), lc1, lf),
            ),
        }
    }
}

/// The code that tests the value on top of the stack and jumps to `target` on zero.
pub open spec fn branch_if_zero(target: Label) -> Seq<Instr> {
    seq![Instr::Pop(Register::RAX), Instr::CmpZero, Instr::Je(target)]
}

/// Code for a node in statement position: it leaves the operand stack as it was.
/// An expression's value is discarded.
pub open spec fn gen_stmt(n: Node, lc: usize, lf: usize) -> GenResult
    decreases n,
{
    if is_expression(n) {
        match gen_expr(n, lc, lf) {
            Err(e) => Err(e),
            Ok((c, lc1)) => Ok((c + seq![Instr::Pop(Register::RAX)], lc1)),
        }
    } else {
        match n {
            Node::Empty => Ok((seq![], lc)),
            Node::Block(stmts) => gen_block(stmts@, lc, lf),
            Node::Return(None) => Ok((seq![Instr::Jmp(Label::EndFunc(lf))], lc)),
            Node::Return(Some(e)) => match gen_expr(*e, lc, lf) {
                Err(e) => Err(e),
                Ok((c, lc1)) => Ok(
                    (c + seq![Instr::Pop(Register::RAX), Instr::Jmp(Label::EndFunc(lf))], lc1),
                ),
            },
            Node::If(cond, then) => if lc == usize::MAX {
                Err(GenError::TooManyLabels)
            } else {
                match gen_expr(*cond, (lc + 1) as usize, lf) {
                    Err(e) => Err(e),
                    Ok((cc, lc1)) => match gen_stmt(*then, lc1, lf) {
                        Err(e) => Err(e),
                        Ok((ct, lc2)) => Ok(
                            (
                                cc + branch_if_zero(Label::End(lc)) + ct + seq![
                                    Instr::Place(Label::End(lc)),
                                ],
                                lc2,
                            ),
                        ),
                    },
                }
            },
            Node::IfElse(cond, then, other) => if lc == usize::MAX {
                Err(GenError::TooManyLabels)
            } else {
                match gen_expr(*cond, (lc + 1) as usize, lf) {
                    Err(e) => Err(e),
                    Ok((cc, lc1)) => match gen_stmt(*then, lc1, lf) {
                        Err(e) => Err(e),
                        Ok((ct, lc2)) => match gen_stmt(*other, lc2, lf) {
                            Err(e) => Err(e),
                            Ok((co, lc3)) => Ok(
                                (
                                    cc + branch_if_zero(Label::Else(lc)) + ct + seq![
                                        Instr::Jmp(Label::End(lc)),
                                        Instr::Place(Label::Else(lc)),
                                    ] + co + seq![Instr::Place(Label::End(lc))],
                                    lc3,
                                ),
                            ),
                        },
                    },
                }
            },
            Node::While(cond, body) => if lc == usize::MAX {
                Err(GenError::TooManyLabels)
            } else {
                match gen_expr(*cond, (lc + 1) as usize, lf) {
                    Err(e) => Err(e),
                    Ok((cc, lc1)) => match gen_stmt(*body, lc1, lf) {
                        Err(e) => Err(e),
                        Ok((cb, lc2)) => Ok(
                            (
                                seq![Instr::Place(Label::Begin(lc))] + cc + branch_if_zero(
                                    Label::End(lc),
                                ) + cb + seq![
                                    Instr::Jmp(Label::Begin(lc)),
                                    Instr::Place(Label::End(lc)),
                                ],
                                lc2,
                            ),
                        ),
                    },
                }
            },
            Node::For(init, cond, update, body) => if lc == usize::MAX {
                Err(GenError::TooManyLabels)
            } else {
                match gen_stmt(*init, (lc + 1) as usize, lf) {
                    Err(e) => Err(e),
                    Ok((ci, lc1)) => match gen_expr(*cond, lc1, lf) {
                        Err(e) => Err(e),
                        Ok((cc, lc2)) => match gen_stmt(*body, lc2, lf) {
                            Err(e) => Err(e),
                            Ok((cb, lc3)) => match gen_stmt(*update, lc3, lf) {
                                Err(e) => Err(e),
                                Ok((cu, lc4)) => Ok(
                                    (
                                        ci + seq![Instr::Place(Label::Begin(lc))] + cc
                                            + branch_if_zero(Label::End(lc)) + cb + cu + seq![
                                            Instr::Jmp(Label::Begin(lc)),
                                            Instr::Place(Label::End(lc)),
                                        ],
                                        lc4,
                                    ),
                                ),
                            },
                        },
                    },
                }
            },
            _ => Err(GenError::Malformed),
        }
    }
}

/// Code for a sequence of statements, in order.
pub open spec fn gen_block(stmts: Seq<Node>, lc: usize, lf: usize) -> GenResult
    decreases stmts,
{
    if stmts.len() == 0 {
        Ok((seq![], lc))
    } else {
        match gen_stmt(stmts[0], lc, lf) {
            Err(e) => Err(e),
            Ok((c, lc1)) => prepend(c, gen_block(stmts.drop_first(), lc1, lf)),
        }
    }
}

/// A jump target as it is written in the assembly.
pub open spec fn label_text(l: Label) -> Seq<char> {
    match l {
        Label::Begin(n) => ".Lbegin"@ + decimal(n as nat),
        Label::End(n) => ".Lend"@ + decimal(n as nat),
        Label::Else(n) => ".Lelse"@ + decimal(n as nat),
        Label::EndFunc(n) => ".Lendfunc"@ + decimal(n as nat),
    }
}

/// The size keyword of a memory operand `width` bytes wide.
pub open spec fn ptr_word(width: usize) -> Seq<char> {
    if width == 1 {
        "BYTE"@
    } else if width == 2 {
        "WORD"@
    } else if width == 4 {
        "DWORD"@
    } else if width == 8 {
        "QWORD"@
    } else {
        ""@
    }
}

/// The memory operand of the variable at `offset`: frame pointer less eight (the saved
/// scratch register) less the offset. Empty for a type that is not an integer.
pub open spec fn lval_ptr(offset: usize, t: Typename) -> Seq<char> {
    match t {
        Typename::Integer(_, w) => ptr_word(w) + " PTR [rbp-"@ + hex((offset + 8) as nat) + "]"@,
        Typename::Void => ""@,
    }
}

/// Byte width of a variable's type.
pub open spec fn width(t: Typename) -> usize {
    match t {
        Typename::Integer(_, w) => w,
        Typename::Void => 0,
    }
}

/// Registers that exist, and variables of integer type.
pub open spec fn instr_wf(i: Instr) -> bool {
    match i {
        Instr::Push(r) | Instr::Pop(r) => crate::register::register_wf(r),
        Instr::Mov(d, s) => crate::register::register_wf(d) && crate::register::register_wf(s),
        Instr::Store(_, t, r) | Instr::Load(r, _, t) => var_type_ok(t)
            && crate::register::register_wf(r),
        _ => true,
    }
}

/// The text of one instruction.
pub open spec fn render(i: Instr) -> Seq<char> {
    match i {
        Instr::Symbol(name) => name@ + ":"@,
        Instr::EndBr => "    endbr64"@,
        Instr::Push(r) => "    push "@ + register_name(r, 8),
        Instr::PushImm(v) => "    push "@ + hex(v as u32 as nat),
        Instr::PushBool(b) => if b {
            "    push 1"@
        } else {
            "    push 0"@
        },
        Instr::Pop(r) => "    pop "@ + register_name(r, 8),
        Instr::Mov(d, s) => "    mov "@ + register_name(d, 8) + ", "@ + register_name(s, 8),
        Instr::SubRsp(n) => "    sub rsp, "@ + hex(n as nat),
        Instr::AddRsp(n) => "    add rsp, "@ + hex(n as nat),
        Instr::Store(offset, t, r) => "    mov "@ + lval_ptr(offset, t) + ", "@ + register_name(
            r,
            width(t),
        ),
        Instr::Load(r, offset, t) => "    mov "@ + register_name(r, width(t)) + ", "@ + lval_ptr(
            offset,
            t,
        ),
        Instr::Place(l) => label_text(l) + ":"@,
        Instr::Jmp(l) => "    jmp "@ + label_text(l),
        Instr::Je(l) => "    je "@ + label_text(l),
        Instr::CmpZero => "    cmp rax, 0"@,
        Instr::Call(name) => "    call "@ + name@,
        Instr::Ret => "    ret"@,
        Instr::Add => "    add rax, rdi"@,
        Instr::Sub => "    sub rax, rdi"@,
        Instr::Imul => "    imul rax, rdi"@,
        Instr::Cqo => "    cqo"@,
        Instr::Idiv => "    idiv rdi"@,
        Instr::Cmp => "    cmp rax, rdi"@,
        Instr::Sete => "    sete al"@,
        Instr::Setne => "    setne al"@,
        Instr::Setl => "    setl al"@,
        Instr::Setle => "    setle al"@,
        Instr::Movzb => "    movzb rax, al"@,
    }
}

/// Frame size for `size` bytes of local variables (see `align`).
pub fn stack_align(size: usize) -> (r: usize)
    requires
        size <= usize::MAX - 16,
    ensures
        r == align(size as nat),
{
    if size % 16 == 0 {
        size
    } else {
        16 * ((size / 16) + 1) - 8
    }
}

fn ptr_word_str(w: usize) -> (r: &'static str)
    ensures
        r@ == ptr_word(w),
{
    if w == 1 {
        "BYTE"
    } else if w == 2 {
        "WORD"
    } else if w == 4 {
        "DWORD"
    } else if w == 8 {
        "QWORD"
    } else {
        ""
    }
}

/// The memory operand of a variable, as `render` writes it.
pub fn gen_lval_ptr(offset: usize, typename: &Typename) -> (r: String)
    ensures
        r@ == lval_ptr(offset, *typename),
{
    match typename {
        Typename::Integer(_, w) => {
            let mut s = String::from_str(ptr_word_str(*w));
            s.append(" PTR [rbp-");
            append_hex(&mut s, offset as u128 + 8);
            s.append("]");
            assert(s@ =~= lval_ptr(offset, *typename));
            s
        },
        Typename::Void => String::from_str(""),
    }
}

fn label_string(l: Label) -> (r: String)
    ensures
        r@ == label_text(l),
{
    let (mut s, n) = match l {
        Label::Begin(n) => (String::from_str(".Lbegin"), n),
        Label::End(n) => (String::from_str(".Lend"), n),
        Label::Else(n) => (String::from_str(".Lelse"), n),
        Label::EndFunc(n) => (String::from_str(".Lendfunc"), n),
    };
    append_decimal(&mut s, n as u128);
    s
}

fn register_operand(r: Register, w: usize) -> (s: String)
    requires
        crate::register::register_wf(r),
        crate::register::valid_width(w),
    ensures
        s@ == register_name(r, w),
{
    r.get_name(w)
}

/// The text of one instruction.
pub fn render_instr(i: &Instr) -> (r: String)
    requires
        instr_wf(*i),
    ensures
        r@ == render(*i),
{
    let mut s = String::new();
    match i {
        Instr::Symbol(name) => {
            s.append(name.as_str());
            s.append(":");
        },
        Instr::EndBr => s.append("    endbr64"),
        Instr::Push(r) => {
            s.append("    push ");
            s.append(register_operand(*r, 8).as_str());
        },
        Instr::PushImm(v) => {
            s.append("    push ");
            append_hex(&mut s, *v as u32 as u128);
        },
        Instr::PushBool(b) => {
            if *b {
                s.append("    push 1");
            } else {
                s.append("    push 0");
            }
        },
        Instr::Pop(r) => {
            s.append("    pop ");
            s.append(register_operand(*r, 8).as_str());
        },
        Instr::Mov(d, r) => {
            s.append("    mov ");
            s.append(register_operand(*d, 8).as_str());
            s.append(", ");
            s.append(register_operand(*r, 8).as_str());
        },
        Instr::SubRsp(n) => {
            s.append("    sub rsp, ");
            append_hex(&mut s, *n as u128);
        },
        Instr::AddRsp(n) => {
            s.append("    add rsp, ");
            append_hex(&mut s, *n as u128);
        },
        Instr::Store(offset, t, r) => {
            let w = match t {
                Typename::Integer(_, w) => *w,
                Typename::Void => 0,
            };
            s.append("    mov ");
            s.append(gen_lval_ptr(*offset, t).as_str());
            s.append(", ");
            s.append(register_operand(*r, w).as_str());
        },
        Instr::Load(r, offset, t) => {
            let w = match t {
                Typename::Integer(_, w) => *w,
                Typename::Void => 0,
            };
            s.append("    mov ");
            s.append(register_operand(*r, w).as_str());
            s.append(", ");
            s.append(gen_lval_ptr(*offset, t).as_str());
        },
        Instr::Place(l) => {
            s.append(label_string(*l).as_str());
            s.append(":");
        },
        Instr::Jmp(l) => {
            s.append("    jmp ");
            s.append(label_string(*l).as_str());
        },
        Instr::Je(l) => {
            s.append("    je ");
            s.append(label_string(*l).as_str());
        },
        Instr::CmpZero => s.append("    cmp rax, 0"),
        Instr::Call(name) => {
            s.append("    call ");
            s.append(name.as_str());
        },
        Instr::Ret => s.append("    ret"),
        Instr::Add => s.append("    add rax, rdi"),
        Instr::Sub => s.append("    sub rax, rdi"),
        Instr::Imul => s.append("    imul rax, rdi"),
        Instr::Cqo => s.append("    cqo"),
        Instr::Idiv => s.append("    idiv rdi"),
        Instr::Cmp => s.append("    cmp rax, rdi"),
        Instr::Sete => s.append("    sete al"),
        Instr::Setne => s.append("    setne al"),
        Instr::Setl => s.append("    setl al"),
        Instr::Setle => s.append("    setle al"),
        Instr::Movzb => s.append("    movzb rax, al"),
    }
    assert(s@ =~= render(*i));
    s
}

/// Stores of the register arguments into their slots, from parameter `k` on, the
/// slot of `k` at `offset`; `None` if a parameter has no integer type.
pub open spec fn param_stores(params: Seq<Typename>, k: int, offset: nat) -> Option<Seq<Instr>>
    decreases params.len() - k,
{
    if k < 0 || k >= params.len() {
        Some(seq![])
    } else if !var_type_ok(params[k]) {
        None
    } else {
        match param_stores(params, k + 1, (offset + width(params[k])) as nat) {
            None => None,
            Some(rest) => Some(
                seq![Instr::Store(offset as usize, params[k], arg_register(k))] + rest,
            ),
        }
    }
}

/// The code of a function definition: prologue, parameter stores, body, and the
/// shared epilogue labelled with the function's number `lf`.
pub open spec fn gen_function(n: Node, lc: usize, lf: usize) -> GenResult {
    match n {
        Node::Function(name, _, params, body, size) => if params@.len() > MAX_REGISTER_ARGS {
            Err(GenError::TooManyArguments)
        } else if size > usize::MAX - 16 {
            Err(GenError::FrameTooLarge)
        } else {
            match param_stores(params@, 0, 0) {
                None => Err(GenError::Malformed),
                Some(stores) => match gen_stmt(*body, lc, lf) {
                    Err(e) => Err(e),
                    Ok((cb, lc1)) => Ok(
                        (
                            seq![
                                Instr::Symbol(name),
                                Instr::EndBr,
                                Instr::Push(Register::RBP),
                                Instr::Mov(Register::RBP, Register::RSP),
                                Instr::Push(Register::RDX),
                                Instr::SubRsp(align(size as nat) as usize),
                            ] + stores + cb + seq![
                                Instr::Place(Label::EndFunc(lf)),
                                Instr::AddRsp(align(size as nat) as usize),
                                Instr::Pop(Register::RDX),
                                Instr::Pop(Register::RBP),
                                Instr::Ret,
                            ],
                            lc1,
                        ),
                    ),
                },
            }
        },
        _ => Err(GenError::Malformed),
    }
}

/// Code for the top-level items of a program, functions numbered from `lf` on;
/// prototypes (`Empty`) emit nothing. Also gives both counters afterwards.
pub open spec fn gen_units(units: Seq<Node>, lc: usize, lf: usize) -> Result<
    (Seq<Instr>, usize, usize),
    GenError,
>
    decreases units.len(),
{
    if units.len() == 0 {
        Ok((seq![], lc, lf))
    } else {
        match units[0] {
            Node::Empty => gen_units(units.drop_first(), lc, lf),
            Node::Function(..) => if lf == usize::MAX {
                Err(GenError::TooManyLabels)
            } else {
                match gen_function(units[0], lc, lf) {
                    Err(e) => Err(e),
                    Ok((c, lc1)) => match gen_units(units.drop_first(), lc1, (lf + 1) as usize) {
                        Err(e) => Err(e),
                        Ok((c2, lc2, lf2)) => Ok((c + c2, lc2, lf2)),
                    },
                }
            },
            _ => Err(GenError::Malformed),
        }
    }
}

/// Code for a program node: a block of function definitions and prototypes.
pub open spec fn gen_program(n: Node, lc: usize, lf: usize) -> Result<
    (Seq<Instr>, usize, usize),
    GenError,
> {
    match n {
        Node::Block(units) => gen_units(units@, lc, lf),
        _ => Err(GenError::Malformed),
    }
}

/// Lowers a syntax tree to assembly on an operand stack.
pub struct CodeGenerator {
    pub code: Vec<Instr>,
    /// Next control-flow label, unique over the whole compilation.
    pub label_count: usize,
    /// Frame size of the function being generated.
    pub rsp_sub_size: usize,
    /// Number of the function being generated, which names its epilogue.
    pub label_func: usize,
}

/// `after` holds the code that `spec` gives appended to that of `before`, with the
/// label counter advanced, when `spec` succeeds, and `r` is its error otherwise.
pub open spec fn emitted(
    r: Result<(), GenError>,
    spec: GenResult,
    before: CodeGenerator,
    after: CodeGenerator,
) -> bool {
    &&& after.label_func == before.label_func
    &&& after.wf()
    &&& match spec {
        Ok((c, lc)) => r is Ok && after.code@ == before.code@ + c && after.label_count == lc,
        Err(e) => r == Err::<(), GenError>(e),
    }
}

impl CodeGenerator {
    /// Every instruction emitted names existing registers and integer variables.
    pub open spec fn wf(&self) -> bool {
        forall|k: int| 0 <= k < self.code@.len() ==> instr_wf(#[trigger] self.code@[k])
    }

    /// A generator with no code and both counters at zero.
    pub fn new() -> (r: CodeGenerator)
        ensures
            r.code@.len() == 0,
            r.label_count == 0,
            r.label_func == 0,
            r.wf(),
    {
        CodeGenerator { code: Vec::new(), label_count: 0, rsp_sub_size: 0, label_func: 0 }
    }

    fn emit(&mut self, i: Instr)
        requires
            old(self).wf(),
            instr_wf(i),
        ensures
            final(self).wf(),
            final(self).code@ == old(self).code@.push(i),
            final(self).label_count == old(self).label_count,
            final(self).label_func == old(self).label_func,
    {
        self.code.push(i);
    }

    fn emit_branch_if_zero(&mut self, target: Label)
        requires
            old(self).wf(),
        ensures
            final(self).wf(),
            final(self).code@ == old(self).code@ + branch_if_zero(target),
            final(self).label_count == old(self).label_count,
            final(self).label_func == old(self).label_func,
    {
        self.emit(Instr::Pop(Register::RAX));
        self.emit(Instr::CmpZero);
        self.emit(Instr::Je(target));
        assert(self.code@ =~= old(self).code@ + branch_if_zero(target));
    }

    fn emit_alu(&mut self, op: BinaryType)
        requires
            old(self).wf(),
        ensures
            final(self).wf(),
            final(self).code@ == old(self).code@ + alu(op),
            final(self).label_count == old(self).label_count,
            final(self).label_func == old(self).label_func,
    {
        match op {
            BinaryType::Add => self.emit(Instr::Add),
            BinaryType::Sub => self.emit(Instr::Sub),
            BinaryType::Mul => self.emit(Instr::Imul),
            BinaryType::Div => {
                self.emit(Instr::Cqo);
                self.emit(Instr::Idiv);
            },
            BinaryType::Equal => {
                self.emit(Instr::Cmp);
                self.emit(Instr::Sete);
                self.emit(Instr::Movzb);
            },
            BinaryType::NotEqual => {
                self.emit(Instr::Cmp);
                self.emit(Instr::Setne);
                self.emit(Instr::Movzb);
            },
            BinaryType::Lt => {
                self.emit(Instr::Cmp);
                self.emit(Instr::Setl);
                self.emit(Instr::Movzb);
            },
            BinaryType::LtEq => {
                self.emit(Instr::Cmp);
                self.emit(Instr::Setle);
                self.emit(Instr::Movzb);
            },
        }
        assert(self.code@ =~= old(self).code@ + alu(op));
    }

    /// The register that carries argument `order` of a call.
    pub fn gen_function_arg_register(&self, order: usize) -> (r: Register)
        requires
            order < MAX_REGISTER_ARGS,
        ensures
            r == arg_register(order as int),
            crate::register::register_wf(r),
    {
        match order {
            0 => Register::RDI,
            1 => Register::RSI,
            2 => Register::RDX,
            3 => Register::RCX,
            4 => Register::Rn(8),
            _ => Register::Rn(9),
        }
    }

    /// Emits the code of an expression, which pushes its value.
    pub fn gen_expression(&mut self, node: &Node) -> (r: Result<(), GenError>)
        requires
            old(self).wf(),
        ensures
            emitted(r, gen_expr(*node, old(self).label_count, old(self).label_func), *old(self), *final(self)),
        decreases node, 0nat,
    {
        let ghost lc0 = self.label_count;
        let ghost lf = self.label_func;
        match node {
            Node::Num(v) => {
                self.emit(Instr::PushImm(*v));
                assert(self.code@ =~= old(self).code@ + seq![Instr::PushImm(*v)]);
                Ok(())
            },
            Node::Boolean(b) => {
                self.emit(Instr::PushBool(*b));
                assert(self.code@ =~= old(self).code@ + seq![Instr::PushBool(*b)]);
                Ok(())
            },
            Node::LVar(offset, t) => {
                if !type_is_var(t) {
                    return Err(GenError::Malformed);
                }
                self.emit(Instr::Load(Register::RAX, *offset, *t));
                self.emit(Instr::Push(Register::RAX));
                assert(self.code@ =~= old(self).code@ + seq![
                    Instr::Load(Register::RAX, *offset, *t),
                    Instr::Push(Register::RAX),
                ]);
                Ok(())
            },
            Node::Unary(a, _) => self.gen_expression(a),
            Node::Binary(l, r, op) => {
                match self.gen_expression(l) {
                    Err(e) => {
                        return Err(e);
                    },
                    Ok(()) => {},
                }
                let ghost c1 = self.code@;
                let ghost lc1 = self.label_count;
                match self.gen_expression(r) {
                    Err(e) => {
                        return Err(e);
                    },
                    Ok(()) => {},
                }
                let ghost c2 = self.code@;
                self.emit(Instr::Pop(Register::RDI));
                self.emit(Instr::Pop(Register::RAX));
                self.emit_alu(*op);
                self.emit(Instr::Push(Register::RAX));
                proof {
                    let (cl, _) = gen_expr(**l, lc0, lf)->Ok_0;
                    let (cr, _) = gen_expr(**r, lc1, lf)->Ok_0;
                    assert(self.code@ =~= old(self).code@ + (cl + cr + seq![
                        Instr::Pop(Register::RDI),
                        Instr::Pop(Register::RAX),
                    ] + alu(*op) + seq![Instr::Push(Register::RAX)]));
                }
                Ok(())
            },
            Node::Assign(target, value) => {
                match &**target {
                    Node::LVar(offset, t) => {
                        if !type_is_var(t) {
                            return Err(GenError::Malformed);
                        }
                        match self.gen_expression(value) {
                            Err(e) => {
                                return Err(e);
                            },
                            Ok(()) => {},
                        }
                        self.emit(Instr::Pop(Register::RDI));
                        self.emit(Instr::Store(*offset, *t, Register::RDI));
                        self.emit(Instr::Push(Register::RDI));
                        proof {
                            let (cv, _) = gen_expr(**value, lc0, lf)->Ok_0;
                            assert(self.code@ =~= old(self).code@ + (cv + seq![
                                Instr::Pop(Register::RDI),
                                Instr::Store(*offset, *t, Register::RDI),
                                Instr::Push(Register::RDI),
                            ]));
                        }
                        Ok(())
                    },
                    _ => Err(GenError::InvalidLvalue),
                }
            },
            Node::FunctionCall(name, args) => {
                if args.len() > MAX_REGISTER_ARGS {
                    return Err(GenError::TooManyArguments);
                }
                assert(args@.take(args@.len() as int) =~= args@);
                match self.gen_call_args(args, args.len()) {
                    Err(e) => {
                        return Err(e);
                    },
                    Ok(()) => {},
                }
                self.emit(Instr::Call(name.clone()));
                self.emit(Instr::Push(Register::RAX));
                proof {
                    let (ca, _) = gen_args(args@, lc0, lf)->Ok_0;
                    assert(self.code@ =~= old(self).code@ + (ca + seq![
                        Instr::Call(*name),
                        Instr::Push(Register::RAX),
                    ]));
                }
                Ok(())
            },
            _ => Err(GenError::Malformed),
        }
    }

    /// Emits the code of the first `k` arguments, the last of them first.
    fn gen_call_args(&mut self, args: &Vec<Node>, k: usize) -> (r: Result<(), GenError>)
        requires
            old(self).wf(),
            k <= args@.len(),
            k <= MAX_REGISTER_ARGS,
        ensures
            emitted(r, gen_args(args@.take(k as int), old(self).label_count, old(self).label_func), *old(self), *final(self)),
        decreases args, k,
    {
        let ghost s = args@.take(k as int);
        if k == 0 {
            assert(self.code@ =~= old(self).code@ + seq![]);
            return Ok(());
        }
        let ghost lc0 = self.label_count;
        let ghost lf = self.label_func;
        assert(s.last() == args@[k - 1]);
        assert(s.drop_last() =~= args@.take(k - 1));
        match self.gen_expression(&args[k - 1]) {
            Err(e) => {
                return Err(e);
            },
            Ok(()) => {},
        }
        let ghost c1 = self.code@;
        let reg = self.gen_function_arg_register(k - 1);
        self.emit(Instr::Pop(Register::RAX));
        self.emit(Instr::Mov(reg, Register::RAX));
        let ghost c2 = self.code@;
        let r = self.gen_call_args(args, k - 1);
        proof {
            let (c, lc1) = gen_expr(args@[k - 1], lc0, lf)->Ok_0;
            assert(c2 =~= old(self).code@ + (c + seq![
                Instr::Pop(Register::RAX),
                Instr::Mov(arg_register(s.len() - 1), Register::RAX),
            ]));
            match gen_args(args@.take(k - 1), lc1, lf) {
                Ok((c3, _)) => {
                    assert(self.code@ =~= old(self).code@ + ((c + seq![
                        Instr::Pop(Register::RAX),
                        Instr::Mov(arg_register(s.len() - 1), Register::RAX),
                    ]) + c3));
                },
                Err(_) => {},
            }
        }
        r
    }
}

impl CodeGenerator {
    /// Emits the code of a node in statement position; the operand stack is left as it
    /// was, an expression's value being popped.
    pub fn gen_statement(&mut self, node: &Node) -> (r: Result<(), GenError>)
        requires
            old(self).wf(),
        ensures
            emitted(r, gen_stmt(*node, old(self).label_count, old(self).label_func), *old(self), *final(self)),
        decreases node, 1nat,
    {
        let ghost lc0 = self.label_count;
        let ghost lf = self.label_func;
        if node.is_expression() {
            match self.gen_expression(node) {
                Err(e) => {
                    return Err(e);
                },
                Ok(()) => {},
            }
            self.emit(Instr::Pop(Register::RAX));
            proof {
                let (c, _) = gen_expr(*node, lc0, lf)->Ok_0;
                assert(self.code@ =~= old(self).code@ + (c + seq![Instr::Pop(Register::RAX)]));
            }
            return Ok(());
        }
        match node {
            Node::Empty => {
                assert(self.code@ =~= old(self).code@ + seq![]);
                Ok(())
            },
            Node::Block(stmts) => {
                assert(stmts@.skip(0) =~= stmts@);
                self.gen_block_from(stmts, 0)
            },
            Node::Return(_) => self.gen_return(node),
            Node::If(..) => self.gen_if(node),
            Node::IfElse(..) => self.gen_if_else(node),
            Node::While(..) => self.gen_while(node),
            Node::For(..) => self.gen_for(node),
            _ => Err(GenError::Malformed),
        }
    }

    /// `return`: the value, if any, into `rax`, then a jump to the epilogue.
    fn gen_return(&mut self, node: &Node) -> (r: Result<(), GenError>)
        requires
            old(self).wf(),
            *node is Return,
        ensures
            emitted(r, gen_stmt(*node, old(self).label_count, old(self).label_func), *old(self), *final(self)),
        decreases node, 0nat,
    {
        let ghost lc0 = self.label_count;
        match node {
            Node::Return(None) => {
                let lf = self.label_func;
                self.emit(Instr::Jmp(Label::EndFunc(lf)));
                assert(self.code@ =~= old(self).code@ + seq![Instr::Jmp(Label::EndFunc(lf))]);
                Ok(())
            },
            Node::Return(Some(e)) => {
                match self.gen_expression(e) {
                    Err(e) => {
                        return Err(e);
                    },
                    Ok(()) => {},
                }
                let lf = self.label_func;
                self.emit(Instr::Pop(Register::RAX));
                self.emit(Instr::Jmp(Label::EndFunc(lf)));
                proof {
                    let (c, _) = gen_expr(**e, lc0, lf)->Ok_0;
                    assert(self.code@ =~= old(self).code@ + (c + seq![
                        Instr::Pop(Register::RAX),
                        Instr::Jmp(Label::EndFunc(lf)),
                    ]));
                }
                Ok(())
            },
            _ => Err(GenError::Malformed),
        }
    }

    /// `if` without `else`.
    fn gen_if(&mut self, node: &Node) -> (r: Result<(), GenError>)
        requires
            old(self).wf(),
            *node is If,
        ensures
            emitted(r, gen_stmt(*node, old(self).label_count, old(self).label_func), *old(self), *final(self)),
        decreases node, 0nat,
    {
        let ghost lc0 = self.label_count;
        let ghost lf = self.label_func;
        match node {
            Node::If(cond, then) => {
                if self.label_count == usize::MAX {
                    return Err(GenError::TooManyLabels);
                }
                let label = self.label_count;
                self.label_count = label + 1;
                match self.gen_expression(cond) {
                    Err(e) => {
                        return Err(e);
                    },
                    Ok(()) => {},
                }
                let ghost lc1 = self.label_count;
                self.emit_branch_if_zero(Label::End(label));
                match self.gen_statement(then) {
                    Err(e) => {
                        return Err(e);
                    },
                    Ok(()) => {},
                }
                self.emit(Instr::Place(Label::End(label)));
                proof {
                    let (cc, _) = gen_expr(**cond, (lc0 + 1) as usize, lf)->Ok_0;
                    let (ct, _) = gen_stmt(**then, lc1, lf)->Ok_0;
                    assert(self.code@ =~= old(self).code@ + (cc + branch_if_zero(Label::End(label))
                        + ct + seq![Instr::Place(Label::End(label))]));
                }
                Ok(())
            },
            _ => Err(GenError::Malformed),
        }
    }

    /// `if` with `else`.
    fn gen_if_else(&mut self, node: &Node) -> (r: Result<(), GenError>)
        requires
            old(self).wf(),
            *node is IfElse,
        ensures
            emitted(r, gen_stmt(*node, old(self).label_count, old(self).label_func), *old(self), *final(self)),
        decreases node, 0nat,
    {
        let ghost lc0 = self.label_count;
        let ghost lf = self.label_func;
        match node {
            Node::IfElse(cond, then, other) => {
                if self.label_count == usize::MAX {
                    return Err(GenError::TooManyLabels);
                }
                let label = self.label_count;
                self.label_count = label + 1;
                match self.gen_expression(cond) {
                    Err(e) => {
                        return Err(e);
                    },
                    Ok(()) => {},
                }
                let ghost lc1 = self.label_count;
                self.emit_branch_if_zero(Label::Else(label));
                match self.gen_statement(then) {
                    Err(e) => {
                        return Err(e);
                    },
                    Ok(()) => {},
                }
                let ghost lc2 = self.label_count;
                self.emit(Instr::Jmp(Label::End(label)));
                self.emit(Instr::Place(Label::Else(label)));
                match self.gen_statement(other) {
                    Err(e) => {
                        return Err(e);
                    },
                    Ok(()) => {},
                }
                self.emit(Instr::Place(Label::End(label)));
                proof {
                    let (cc, _) = gen_expr(**cond, (lc0 + 1) as usize, lf)->Ok_0;
                    let (ct, _) = gen_stmt(**then, lc1, lf)->Ok_0;
                    let (co, _) = gen_stmt(**other, lc2, lf)->Ok_0;
                    assert(self.code@ =~= old(self).code@ + (cc + branch_if_zero(
                        Label::Else(label),
                    ) + ct + seq![Instr::Jmp(Label::End(label)), Instr::Place(Label::Else(label))]
                        + co + seq![Instr::Place(Label::End(label))]));
                }
                Ok(())
            },
            _ => Err(GenError::Malformed),
        }
    }

    /// `while` loop.
    fn gen_while(&mut self, node: &Node) -> (r: Result<(), GenError>)
        requires
            old(self).wf(),
            *node is While,
        ensures
            emitted(r, gen_stmt(*node, old(self).label_count, old(self).label_func), *old(self), *final(self)),
        decreases node, 0nat,
    {
        let ghost lc0 = self.label_count;
        let ghost lf = self.label_func;
        match node {
            Node::While(cond, body) => {
                if self.label_count == usize::MAX {
                    return Err(GenError::TooManyLabels);
                }
                let label = self.label_count;
                self.label_count = label + 1;
                self.emit(Instr::Place(Label::Begin(label)));
                match self.gen_expression(cond) {
                    Err(e) => {
                        return Err(e);
                    },
                    Ok(()) => {},
                }
                let ghost lc1 = self.label_count;
                self.emit_branch_if_zero(Label::End(label));
                match self.gen_statement(body) {
                    Err(e) => {
                        return Err(e);
                    },
                    Ok(()) => {},
                }
                self.emit(Instr::Jmp(Label::Begin(label)));
                self.emit(Instr::Place(Label::End(label)));
                proof {
                    let (cc, _) = gen_expr(**cond, (lc0 + 1) as usize, lf)->Ok_0;
                    let (cb, _) = gen_stmt(**body, lc1, lf)->Ok_0;
                    assert(self.code@ =~= old(self).code@ + (seq![Instr::Place(Label::Begin(label))]
                        + cc + branch_if_zero(Label::End(label)) + cb + seq![
                        Instr::Jmp(Label::Begin(label)),
                        Instr::Place(Label::End(label)),
                    ]));
                }
                Ok(())
            },
            _ => Err(GenError::Malformed),
        }
    }

    /// `for` loop; the parts left out are `Empty` or a constant condition.
    fn gen_for(&mut self, node: &Node) -> (r: Result<(), GenError>)
        requires
            old(self).wf(),
            *node is For,
        ensures
            emitted(r, gen_stmt(*node, old(self).label_count, old(self).label_func), *old(self), *final(self)),
        decreases node, 0nat,
    {
        let ghost lc0 = self.label_count;
        let ghost lf = self.label_func;
        match node {
            Node::For(init, cond, update, body) => {
                if self.label_count == usize::MAX {
                    return Err(GenError::TooManyLabels);
                }
                let label = self.label_count;
                self.label_count = label + 1;
                match self.gen_statement(init) {
                    Err(e) => {
                        return Err(e);
                    },
                    Ok(()) => {},
                }
                let ghost lc1 = self.label_count;
                self.emit(Instr::Place(Label::Begin(label)));
                match self.gen_expression(cond) {
                    Err(e) => {
                        return Err(e);
                    },
                    Ok(()) => {},
                }
                let ghost lc2 = self.label_count;
                self.emit_branch_if_zero(Label::End(label));
                match self.gen_statement(body) {
                    Err(e) => {
                        return Err(e);
                    },
                    Ok(()) => {},
                }
                let ghost lc3 = self.label_count;
                match self.gen_statement(update) {
                    Err(e) => {
                        return Err(e);
                    },
                    Ok(()) => {},
                }
                self.emit(Instr::Jmp(Label::Begin(label)));
                self.emit(Instr::Place(Label::End(label)));
                proof {
                    let (ci, _) = gen_stmt(**init, (lc0 + 1) as usize, lf)->Ok_0;
                    let (cc, _) = gen_expr(**cond, lc1, lf)->Ok_0;
                    let (cb, _) = gen_stmt(**body, lc2, lf)->Ok_0;
                    let (cu, _) = gen_stmt(**update, lc3, lf)->Ok_0;
                    assert(self.code@ =~= old(self).code@ + (ci + seq![
                        Instr::Place(Label::Begin(label)),
                    ] + cc + branch_if_zero(Label::End(label)) + cb + cu + seq![
                        Instr::Jmp(Label::Begin(label)),
                        Instr::Place(Label::End(label)),
                    ]));
                }
                Ok(())
            },
            _ => Err(GenError::Malformed),
        }
    }

    /// Emits the code of the statements from index `i` on, in order.
    fn gen_block_from(&mut self, stmts: &Vec<Node>, i: usize) -> (r: Result<(), GenError>)
        requires
            old(self).wf(),
            i <= stmts@.len(),
        ensures
            emitted(r, gen_block(stmts@.skip(i as int), old(self).label_count, old(self).label_func), *old(self), *final(self)),
        decreases stmts, stmts@.len() - i,
    {
        let ghost s = stmts@.skip(i as int);
        if i == stmts.len() {
            assert(self.code@ =~= old(self).code@ + seq![]);
            return Ok(());
        }
        let ghost lc0 = self.label_count;
        let ghost lf = self.label_func;
        assert(s[0] == stmts@[i as int]);
        assert(s.drop_first() =~= stmts@.skip(i + 1));
        match self.gen_statement(&stmts[i]) {
            Err(e) => {
                return Err(e);
            },
            Ok(()) => {},
        }
        let ghost c1 = self.code@;
        let r = self.gen_block_from(stmts, i + 1);
        proof {
            let (c, lc1) = gen_stmt(stmts@[i as int], lc0, lf)->Ok_0;
            match gen_block(stmts@.skip(i + 1), lc1, lf) {
                Ok((c2, _)) => {
                    assert(self.code@ =~= old(self).code@ + (c + c2));
                },
                Err(_) => {},
            }
        }
        r
    }
}

impl CodeGenerator {
    /// Emits the stores of the parameters from index `k` on, the slot of `k` at `offset`.
    fn gen_param_stores(&mut self, params: &Vec<Typename>, k: usize, offset: usize) -> (r: bool)
        requires
            old(self).wf(),
            k <= params@.len() <= MAX_REGISTER_ARGS,
            offset <= 8 * k,
        ensures
            final(self).wf(),
            final(self).label_count == old(self).label_count,
            final(self).label_func == old(self).label_func,
            r == param_stores(params@, k as int, offset as nat) is Some,
            r ==> final(self).code@ == old(self).code@ + param_stores(
                params@,
                k as int,
                offset as nat,
            )->Some_0,
        decreases params@.len() - k,
    {
        if k == params.len() {
            assert(self.code@ =~= old(self).code@ + seq![]);
            return true;
        }
        let t = params[k];
        if !type_is_var(&t) {
            return false;
        }
        let reg = self.gen_function_arg_register(k);
        self.emit(Instr::Store(offset, t, reg));
        let w = match t {
            Typename::Integer(_, w) => w,
            Typename::Void => 0,
        };
        let ok = self.gen_param_stores(params, k + 1, offset + w);
        proof {
            if ok {
                let rest = param_stores(params@, k + 1, (offset + w) as nat)->Some_0;
                assert(self.code@ =~= old(self).code@ + (seq![
                    Instr::Store(offset, t, arg_register(k as int)),
                ] + rest));
            }
        }
        ok
    }

    /// Emits a function definition numbered with the current function counter.
    fn gen_function(&mut self, node: &Node) -> (r: Result<(), GenError>)
        requires
            old(self).wf(),
        ensures
            emitted(r, gen_function(*node, old(self).label_count, old(self).label_func), *old(self), *final(self)),
    {
        match node {
            Node::Function(name, _, params, body, size) => {
                if params.len() > MAX_REGISTER_ARGS {
                    return Err(GenError::TooManyArguments);
                }
                if *size > usize::MAX - 16 {
                    return Err(GenError::FrameTooLarge);
                }
                let ghost lc0 = self.label_count;
                let ghost lf = self.label_func;
                let frame = stack_align(*size);
                self.rsp_sub_size = frame;
                self.emit(Instr::Symbol(name.clone()));
                self.emit(Instr::EndBr);
                self.emit(Instr::Push(Register::RBP));
                self.emit(Instr::Mov(Register::RBP, Register::RSP));
                self.emit(Instr::Push(Register::RDX));
                self.emit(Instr::SubRsp(frame));
                let ghost c1 = self.code@;
                if !self.gen_param_stores(params, 0, 0) {
                    return Err(GenError::Malformed);
                }
                let ghost c2 = self.code@;
                match self.gen_statement(body) {
                    Err(e) => {
                        return Err(e);
                    },
                    Ok(()) => {},
                }
                let ghost c3 = self.code@;
                let lf = self.label_func;
                self.emit(Instr::Place(Label::EndFunc(lf)));
                self.emit(Instr::AddRsp(frame));
                self.emit(Instr::Pop(Register::RDX));
                self.emit(Instr::Pop(Register::RBP));
                self.emit(Instr::Ret);
                proof {
                    let stores = param_stores(params@, 0, 0)->Some_0;
                    let (cb, _) = gen_stmt(**body, lc0, lf)->Ok_0;
                    assert(self.code@ =~= old(self).code@ + (seq![
                        Instr::Symbol(*name),
                        Instr::EndBr,
                        Instr::Push(Register::RBP),
                        Instr::Mov(Register::RBP, Register::RSP),
                        Instr::Push(Register::RDX),
                        Instr::SubRsp(align(*size as nat) as usize),
                    ] + stores + cb + seq![
                        Instr::Place(Label::EndFunc(lf)),
                        Instr::AddRsp(align(*size as nat) as usize),
                        Instr::Pop(Register::RDX),
                        Instr::Pop(Register::RBP),
                        Instr::Ret,
                    ]));
                }
                Ok(())
            },
            _ => Err(GenError::Malformed),
        }
    }

    /// Emits the top-level items from index `i` on.
    fn gen_units_from(&mut self, units: &Vec<Node>, i: usize) -> (r: Result<(), GenError>)
        requires
            old(self).wf(),
            i <= units@.len(),
        ensures
            final(self).wf(),
            match gen_units(units@.skip(i as int), old(self).label_count, old(self).label_func) {
                Ok((c, lc, lf)) => r is Ok && final(self).code@ == old(self).code@ + c
                    && final(self).label_count == lc && final(self).label_func == lf,
                Err(e) => r == Err::<(), GenError>(e),
            },
        decreases units@.len() - i,
    {
        let ghost s = units@.skip(i as int);
        if i == units.len() {
            assert(self.code@ =~= old(self).code@ + seq![]);
            return Ok(());
        }
        assert(s[0] == units@[i as int]);
        assert(s.drop_first() =~= units@.skip(i + 1));
        match &units[i] {
            Node::Empty => self.gen_units_from(units, i + 1),
            Node::Function(..) => {
                if self.label_func == usize::MAX {
                    return Err(GenError::TooManyLabels);
                }
                let ghost lc0 = self.label_count;
                let ghost lf0 = self.label_func;
                match self.gen_function(&units[i]) {
                    Err(e) => {
                        return Err(e);
                    },
                    Ok(()) => {},
                }
                self.label_func = self.label_func + 1;
                let ghost c1 = self.code@;
                let r = self.gen_units_from(units, i + 1);
                proof {
                    let (c, lc1) = gen_function(units@[i as int], lc0, lf0)->Ok_0;
                    match gen_units(units@.skip(i + 1), lc1, (lf0 + 1) as usize) {
                        Ok((c2, _, _)) => {
                            assert(self.code@ =~= old(self).code@ + (c + c2));
                        },
                        Err(_) => {},
                    }
                }
                r
            },
            _ => Err(GenError::Malformed),
        }
    }

    /// Emits a whole program: a block of function definitions and prototypes.
    pub fn gen(&mut self, node: &Node) -> (r: Result<(), GenError>)
        requires
            old(self).wf(),
        ensures
            final(self).wf(),
            match gen_program(*node, old(self).label_count, old(self).label_func) {
                Ok((c, lc, lf)) => r is Ok && final(self).code@ == old(self).code@ + c
                    && final(self).label_count == lc && final(self).label_func == lf,
                Err(e) => r == Err::<(), GenError>(e),
            },
    {
        match node {
            Node::Block(units) => {
                assert(units@.skip(0) =~= units@);
                self.gen_units_from(units, 0)
            },
            _ => Err(GenError::Malformed),
        }
    }

    /// The text of the code emitted so far, one line per instruction.
    pub fn lines(&self) -> (r: Vec<String>)
        requires
            self.wf(),
        ensures
            r@.len() == self.code@.len(),
            forall|k: int| 0 <= k < r@.len() ==> #[trigger] r@[k]@ == render(self.code@[k]),
    {
        let mut out: Vec<String> = Vec::new();
        let mut k: usize = 0;
        while k < self.code.len()
            invariant
                self.wf(),
                k <= self.code@.len(),
                out@.len() == k,
                forall|j: int| 0 <= j < k ==> #[trigger] out@[j]@ == render(self.code@[j]),
            decreases self.code@.len() - k,
        {
            out.push(render_instr(&self.code[k]));
            k += 1;
        }
        out
    }
}

/// The first two lines of every output: the syntax directive and the entry symbol.
pub open spec fn header() -> Seq<Seq<char>> {
    seq![".intel_syntax noprefix"@, ".globl main"@]
}

/// `lines` are the header followed by the text of each instruction of `c`.
pub open spec fn listing(lines: Seq<String>, c: Seq<Instr>) -> bool {
    &&& lines.len() == c.len() + 2
    &&& lines[0]@ == header()[0]
    &&& lines[1]@ == header()[1]
    &&& forall|k: int| 0 <= k < c.len() ==> #[trigger] lines[k + 2]@ == render(c[k])
}

/// Compiles a program tree to assembly lines: the header, then one line per
/// instruction of `gen_program`. Nothing is produced when generation fails.
pub fn generate(program: &Node) -> (r: Result<Vec<String>, GenError>)
    ensures
        match gen_program(*program, 0, 0) {
            Ok((c, _, _)) => r matches Ok(lines) && listing(lines@, c),
            Err(e) => r == Err::<Vec<String>, GenError>(e),
        },
{
    let mut generator = CodeGenerator::new();
    match generator.gen(program) {
        Err(e) => {
            return Err(e);
        },
        Ok(()) => {},
    }
    let body = generator.lines();
    let mut out: Vec<String> = Vec::new();
    out.push(String::from_str(".intel_syntax noprefix"));
    out.push(String::from_str(".globl main"));
    let mut k: usize = 0;
    while k < body.len()
        invariant
            out@.len() == k + 2,
            k <= body@.len(),
            out@[0]@ == header()[0],
            out@[1]@ == header()[1],
            forall|j: int| 0 <= j < k ==> #[trigger] out@[j + 2]@ == body@[j]@,
        decreases body@.len() - k,
    {
        out.push(body[k].clone());
        k += 1;
    }
    Ok(out)
}

fn type_is_var(t: &Typename) -> (r: bool)
    ensures
        r == var_type_ok(*t),
{
    match t {
        Typename::Integer(_, w) => *w == 1 || *w == 2 || *w == 4 || *w == 8,
        Typename::Void => false,
    }
}

} // verus!
