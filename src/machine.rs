use vstd::prelude::*;
use crate::codegen::{alu, arg_register, gen_args, gen_expr, Instr};
use crate::node::{BinaryType, Node};
use crate::register::Register;

verus! {

/// The part of the processor that arithmetic and argument code uses: the operand stack
/// (top last) and the registers, as signed 64-bit values.
pub struct Machine {
    pub stack: Seq<int>,
    pub rax: int,
    pub rdi: int,
    pub rsi: int,
    pub rdx: int,
    pub rcx: int,
    pub r8: int,
    pub r9: int,
}

/// The value in an argument register (`rdi`, `rsi`, `rdx`, `rcx`, `r8`, `r9`).
pub open spec fn arg_value(m: Machine, k: int) -> int {
    if k == 0 {
        m.rdi
    } else if k == 1 {
        m.rsi
    } else if k == 2 {
        m.rdx
    } else if k == 3 {
        m.rcx
    } else if k == 4 {
        m.r8
    } else {
        m.r9
    }
}

/// The machine with `v` written to the register of argument `k`.
pub open spec fn set_arg(m: Machine, k: int, v: int) -> Machine {
    if k == 0 {
        Machine { rdi: v, ..m }
    } else if k == 1 {
        Machine { rsi: v, ..m }
    } else if k == 2 {
        Machine { rdx: v, ..m }
    } else if k == 3 {
        Machine { rcx: v, ..m }
    } else if k == 4 {
        Machine { r8: v, ..m }
    } else {
        Machine { r9: v, ..m }
    }
}

/// Which argument a register carries, if any.
pub open spec fn arg_index(r: Register) -> Option<int> {
    match r {
        Register::RDI => Some(0),
        Register::RSI => Some(1),
        Register::RDX => Some(2),
        Register::RCX => Some(3),
        Register::Rn(8) => Some(4),
        Register::Rn(9) => Some(5),
        _ => None,
    }
}

/// `x` reduced to a signed 64-bit value, as the processor's arithmetic wraps.
pub open spec fn wrap64(x: int) -> int {
    let m = x % 0x1_0000_0000_0000_0000;
    if m >= 0x8000_0000_0000_0000 {
        m - 0x1_0000_0000_0000_0000
    } else {
        m
    }
}

/// A value that a 64-bit register holds.
pub open spec fn fits64(x: int) -> bool {
    i64::MIN <= x <= i64::MAX
}

/// Division rounding toward zero, as `idiv` computes it.
pub open spec fn tdiv(a: int, b: int) -> int {
    let q = (if a < 0 { -a } else { a }) / (if b < 0 { -b } else { b });
    if (a < 0) != (b < 0) {
        -q
    } else {
        q
    }
}

/// One instruction of arithmetic code; `None` where the processor would fault (an
/// empty stack, a quotient that is undefined or does not fit) or for an instruction
/// outside arithmetic code.
pub open spec fn step(m: Machine, i: Instr) -> Option<Machine> {
    match i {
        Instr::PushImm(v) => Some(Machine { stack: m.stack.push(v as int), ..m }),
        Instr::Push(Register::RAX) => Some(Machine { stack: m.stack.push(m.rax), ..m }),
        Instr::Pop(Register::RAX) => if m.stack.len() == 0 {
            None
        } else {
            Some(Machine { stack: m.stack.drop_last(), rax: m.stack.last(), ..m })
        },
        Instr::Pop(Register::RDI) => if m.stack.len() == 0 {
            None
        } else {
            Some(Machine { stack: m.stack.drop_last(), rdi: m.stack.last(), ..m })
        },
        Instr::Add => Some(Machine { rax: wrap64(m.rax + m.rdi), ..m }),
        Instr::Sub => Some(Machine { rax: wrap64(m.rax - m.rdi), ..m }),
        Instr::Imul => Some(Machine { rax: wrap64(m.rax * m.rdi), ..m }),
        Instr::Mov(d, Register::RAX) => match arg_index(d) {
            Some(k) => Some(set_arg(m, k, m.rax)),
            None => None,
        },
        Instr::Cqo => Some(
            Machine {
                rdx: if m.rax < 0 {
                    -1
                } else {
                    0
                },
                ..m
            },
        ),
        Instr::Idiv => if m.rdi == 0 || !fits64(tdiv(m.rax, m.rdi)) {
            None
        } else {
            Some(
                Machine {
                    rax: tdiv(m.rax, m.rdi),
                    rdx: m.rax - tdiv(m.rax, m.rdi) * m.rdi,
                    ..m
                },
            )
        },
        _ => None,
    }
}

/// The machine after running `c` from `m`, or `None` if it faults on the way.
pub open spec fn run(c: Seq<Instr>, m: Machine) -> Option<Machine>
    decreases c.len(),
{
    if c.len() == 0 {
        Some(m)
    } else {
        match run(c.drop_last(), m) {
            None => None,
            Some(m1) => step(m1, c.last()),
        }
    }
}

/// The value of an expression of integer literals and `+ - * /`, computed directly:
/// `None` if it divides by zero, if any intermediate value leaves the 64-bit range, or
/// if the expression holds anything else.
pub open spec fn eval(n: Node) -> Option<int>
    decreases n,
{
    match n {
        Node::Num(v) => Some(v as int),
        Node::Binary(l, r, op) => match (eval(*l), eval(*r)) {
            (Some(a), Some(b)) => {
                let v = match op {
                    BinaryType::Add => Some(a + b),
                    BinaryType::Sub => Some(a - b),
                    BinaryType::Mul => Some(a * b),
                    BinaryType::Div => if b == 0 {
                        None
                    } else {
                        Some(tdiv(a, b))
                    },
                    _ => None,
                };
                match v {
                    Some(x) => if fits64(x) {
                        Some(x)
                    } else {
                        None
                    },
                    None => None,
                }
            },
            _ => None,
        },
        _ => None,
    }
}

/// The expression divides somewhere; the division overwrites `rdx`.
pub open spec fn has_div(n: Node) -> bool
    decreases n,
{
    match n {
        Node::Binary(l, r, op) => op is Div || has_div(*l) || has_div(*r),
        _ => false,
    }
}

/// `m2` differs from `m` at most in `rax`, `rdi` and the stack, and in `rdx` when
/// `clobbers_rdx`.
pub open spec fn keeps_registers(m: Machine, m2: Machine, clobbers_rdx: bool) -> bool {
    &&& m2.rsi == m.rsi
    &&& m2.rcx == m.rcx
    &&& m2.r8 == m.r8
    &&& m2.r9 == m.r9
    &&& !clobbers_rdx ==> m2.rdx == m.rdx
}

/// Running consecutive code runs the first part, then the second from where it left.
pub proof fn lemma_run_concat(a: Seq<Instr>, b: Seq<Instr>, m: Machine)
    ensures
        run(a + b, m) == match run(a, m) {
            None => None,
            Some(m1) => run(b, m1),
        },
    decreases b.len(),
{
    if b.len() == 0 {
        assert(a + b =~= a);
    } else {
        assert((a + b).drop_last() =~= a + b.drop_last());
        assert((a + b).last() == b.last());
        lemma_run_concat(a, b.drop_last(), m);
    }
}

proof fn lemma_wrap_in_range(x: int)
    requires
        fits64(x),
    ensures
        wrap64(x) == x,
{
}

proof fn lemma_combine(op: BinaryType, m: Machine, a: int, b: int, v: int)
    requires
        op is Add || op is Sub || op is Mul || op is Div,
        fits64(a),
        fits64(b),
        fits64(v),
        v == match op {
            BinaryType::Add => a + b,
            BinaryType::Sub => a - b,
            BinaryType::Mul => a * b,
            _ => tdiv(a, b),
        },
        op is Div ==> b != 0,
    ensures
        run(
            seq![Instr::Pop(Register::RDI), Instr::Pop(Register::RAX)] + alu(op) + seq![
                Instr::Push(Register::RAX),
            ],
            Machine { stack: m.stack.push(a).push(b), ..m },
        ) matches Some(m2) && m2.stack == m.stack.push(v) && keeps_registers(m, m2, op is Div),
{
    let m0 = Machine { stack: m.stack.push(a).push(b), ..m };
    let pops = seq![Instr::Pop(Register::RDI), Instr::Pop(Register::RAX)];
    let push = seq![Instr::Push(Register::RAX)];
    reveal_with_fuel(run, 3);
    assert(m.stack.push(a).push(b).drop_last() =~= m.stack.push(a));
    assert(m.stack.push(a).drop_last() =~= m.stack);
    let m1 = Machine { stack: m.stack, rax: a, rdi: b, ..m };
    assert(run(pops, m0) == Some(m1));
    lemma_wrap_in_range(v);
    let m2 = if op is Div {
        Machine { rax: v, rdx: a - v * b, ..m1 }
    } else {
        Machine { rax: v, ..m1 }
    };
    assert(run(alu(op), m1) == Some(m2));
    assert(run(push, m2) == Some(Machine { stack: m.stack.push(v), ..m2 }));
    lemma_run_concat(pops, alu(op), m0);
    lemma_run_concat(pops + alu(op), push, m0);
}

/// The code of an arithmetic expression, run on any machine, pushes the value that
/// direct evaluation gives and leaves the stack below it as it was.
pub proof fn lemma_arithmetic_correct(n: Node, lc: usize, lf: usize, m: Machine)
    requires
        eval(n) is Some,
    ensures
        gen_expr(n, lc, lf) matches Ok((c, _)) && run(c, m) matches Some(m2) && m2.stack
            == m.stack.push(eval(n)->0) && keeps_registers(m, m2, has_div(n)),
    decreases n,
{
    match n {
        Node::Num(v) => {
            reveal_with_fuel(run, 2);
        },
        Node::Binary(l, r, op) => {
            let a = eval(*l)->0;
            let b = eval(*r)->0;
            lemma_arithmetic_correct(*l, lc, lf, m);
            let (cl, lc1) = gen_expr(*l, lc, lf)->Ok_0;
            let m1 = run(cl, m)->0;
            lemma_arithmetic_correct(*r, lc1, lf, m1);
            let (cr, _) = gen_expr(*r, lc1, lf)->Ok_0;
            let m2 = run(cr, m1)->0;
            let tail = seq![Instr::Pop(Register::RDI), Instr::Pop(Register::RAX)] + alu(op)
                + seq![Instr::Push(Register::RAX)];
            lemma_combine(op, Machine { stack: m.stack, ..m2 }, a, b, eval(n)->0);
            assert(has_div(n) == (op is Div || has_div(*l) || has_div(*r)));
            assert(Machine { stack: m.stack.push(a).push(b), ..Machine { stack: m.stack, ..m2 } } == m2);
            lemma_run_concat(cl, cr, m);
            lemma_run_concat(cl + cr, tail, m);
            assert(cl + cr + seq![Instr::Pop(Register::RDI), Instr::Pop(Register::RAX)] + alu(op)
                + seq![Instr::Push(Register::RAX)] =~= cl + cr + tail);
        },
        _ => {},
    }
}

/// Arguments that the register protocol passes intact: at most six, each an arithmetic
/// expression that evaluates, and, when there is a third argument, no division in the
/// first two (their code runs after the third is in `rdx`, which a division overwrites).
pub open spec fn args_computable(args: Seq<Node>) -> bool {
    &&& args.len() <= 6
    &&& forall|k: int| 0 <= k < args.len() ==> (#[trigger] eval(args[k])) is Some
    &&& args.len() > 2 ==> forall|k: int| 0 <= k < 2 ==> !has_div(#[trigger] args[k])
}

proof fn lemma_move_to_arg(m1: Machine, k: int)
    requires
        0 <= k < 6,
        m1.stack.len() > 0,
    ensures
        run(
            seq![Instr::Pop(Register::RAX), Instr::Mov(arg_register(k), Register::RAX)],
            m1,
        ) == Some(
            set_arg(
                Machine { stack: m1.stack.drop_last(), rax: m1.stack.last(), ..m1 },
                k,
                m1.stack.last(),
            ),
        ),
{
    reveal_with_fuel(run, 3);
    assert(arg_index(arg_register(k)) == Some(k));
}

/// Argument code leaves each argument's value in its register, whatever the
/// expressions that compute them: `f(1+1, 2, 1*3)` passes what `f(2, 2, 3)` passes.
/// The stack is as it was, and the registers of later arguments but `rdx` are untouched.
pub proof fn lemma_arguments_in_registers(args: Seq<Node>, lc: usize, lf: usize, m: Machine)
    requires
        args_computable(args),
    ensures
        gen_args(args, lc, lf) matches Ok((c, _)) && run(c, m) matches Some(m2) && m2.stack
            == m.stack && (forall|k: int|
            0 <= k < args.len() ==> arg_value(m2, k) == (#[trigger] eval(args[k]))->0) && (
        forall|j: int|
            1 <= j < 6 && j != 2 && args.len() <= j ==> #[trigger] arg_value(m2, j) == arg_value(
                m,
                j,
            )),
    decreases args.len(),
{
    if args.len() == 0 {
        assert(run(seq![], m) == Some(m));
    } else {
        let n = args.len();
        let last = args.last();
        let prefix = args.drop_last();
        assert(eval(args[n - 1]) is Some);
        lemma_arithmetic_correct(last, lc, lf, m);
        let (cl, lc1) = gen_expr(last, lc, lf)->Ok_0;
        let m1 = run(cl, m)->0;
        let v = eval(last)->0;
        let moves = seq![Instr::Pop(Register::RAX), Instr::Mov(arg_register(n - 1), Register::RAX)];
        assert(m1.stack.drop_last() =~= m.stack);
        lemma_move_to_arg(m1, n - 1);
        let m2 = set_arg(Machine { stack: m.stack, rax: v, ..m1 }, n - 1, v);
        assert(run(moves, m1) == Some(m2));
        assert(args_computable(prefix)) by {
            assert forall|k: int| 0 <= k < prefix.len() implies (#[trigger] eval(prefix[k])) is Some by {
                assert(prefix[k] == args[k]);
            }
            if prefix.len() > 2 {
                assert forall|k: int| 0 <= k < 2 implies !has_div(#[trigger] prefix[k]) by {
                    assert(prefix[k] == args[k]);
                }
            }
        }
        lemma_arguments_in_registers(prefix, lc1, lf, m2);
        let (cp, _) = gen_args(prefix, lc1, lf)->Ok_0;
        let m3 = run(cp, m2)->0;
        lemma_run_concat(cl, moves, m);
        lemma_run_concat(cl + moves, cp, m);
        assert(gen_args(args, lc, lf)->Ok_0.0 == cl + moves + cp);
        if n == 3 {
            assert forall|k: int| 0 <= k < prefix.len() implies (#[trigger] eval(prefix[k])) is Some
                && !has_div(prefix[k]) by {
                assert(prefix[k] == args[k]);
            }
            lemma_args_keep_rdx(prefix, lc1, lf, m2);
        }
        assert(arg_value(m3, n - 1) == v) by {
            if n == 1 {
                assert(cp == Seq::<Instr>::empty());
                assert(run(cp, m2) == Some(m2));
            }
        }
        assert forall|k: int| 0 <= k < args.len() implies arg_value(m3, k) == (#[trigger] eval(
            args[k],
        ))->0 by {
            if k < n - 1 {
                assert(prefix[k] == args[k]);
            }
        }
        assert forall|j: int| 1 <= j < 6 && j != 2 && args.len() <= j implies #[trigger] arg_value(
            m3,
            j,
        ) == arg_value(m, j) by {
            assert(arg_value(m3, j) == arg_value(m2, j));
        }
    }
}

/// Code for at most two arguments without division leaves `rdx` alone.
proof fn lemma_args_keep_rdx(args: Seq<Node>, lc: usize, lf: usize, m: Machine)
    requires
        args.len() <= 2,
        forall|k: int| 0 <= k < args.len() ==> (#[trigger] eval(args[k])) is Some,
        forall|k: int| 0 <= k < args.len() ==> !has_div(#[trigger] args[k]),
    ensures
        gen_args(args, lc, lf) matches Ok((c, _)) && run(c, m) matches Some(m2) && m2.rdx
            == m.rdx,
    decreases args.len(),
{
    if args.len() > 0 {
        let n = args.len();
        let last = args.last();
        let prefix = args.drop_last();
        assert(eval(args[n - 1]) is Some);
        assert(!has_div(args[n - 1]));
        lemma_arithmetic_correct(last, lc, lf, m);
        let (cl, lc1) = gen_expr(last, lc, lf)->Ok_0;
        let m1 = run(cl, m)->0;
        let v = eval(last)->0;
        let moves = seq![Instr::Pop(Register::RAX), Instr::Mov(arg_register(n - 1), Register::RAX)];
        lemma_move_to_arg(m1, n - 1);
        let m2 = set_arg(Machine { stack: m1.stack.drop_last(), rax: v, ..m1 }, n - 1, v);
        assert(run(moves, m1) == Some(m2));
        assert forall|k: int| 0 <= k < prefix.len() implies (#[trigger] eval(prefix[k])) is Some
            && !has_div(prefix[k]) by {
            assert(prefix[k] == args[k]);
        }
        lemma_args_keep_rdx(prefix, lc1, lf, m2);
        let (cp, _) = gen_args(prefix, lc1, lf)->Ok_0;
        lemma_run_concat(cl, moves, m);
        lemma_run_concat(cl + moves, cp, m);
    }
}

} // verus!
