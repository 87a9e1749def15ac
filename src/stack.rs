use vstd::prelude::*;
use crate::codegen::{
    align, alu, branch_if_zero, gen_args, gen_block, gen_expr, gen_function, gen_stmt,
    param_stores, Instr, Label,
};
use crate::register::Register;
use crate::node::{is_expression, Node};

verus! {

/// How an instruction changes the depth of the operand stack, in words.
pub open spec fn stack_effect(i: Instr) -> int {
    match i {
        Instr::Push(_) | Instr::PushImm(_) | Instr::PushBool(_) => 1,
        Instr::Pop(_) => -1,
        _ => 0,
    }
}

/// The net change in operand-stack depth over a run of instructions.
pub open spec fn stack_delta(c: Seq<Instr>) -> int
    decreases c.len(),
{
    if c.len() == 0 {
        0
    } else {
        stack_delta(c.drop_last()) + stack_effect(c.last())
    }
}

/// The depth change of consecutive code is the sum of the parts.
pub proof fn lemma_stack_delta_concat(a: Seq<Instr>, b: Seq<Instr>)
    ensures
        stack_delta(a + b) == stack_delta(a) + stack_delta(b),
    decreases b.len(),
{
    if b.len() == 0 {
        assert(a + b =~= a);
    } else {
        assert((a + b).drop_last() =~= a + b.drop_last());
        lemma_stack_delta_concat(a, b.drop_last());
    }
}

proof fn lemma_delta1(a: Instr)
    ensures
        stack_delta(seq![a]) == stack_effect(a),
{
    reveal_with_fuel(stack_delta, 2);
}

proof fn lemma_delta2(a: Instr, b: Instr)
    ensures
        stack_delta(seq![a, b]) == stack_effect(a) + stack_effect(b),
{
    reveal_with_fuel(stack_delta, 3);
}

proof fn lemma_delta3(a: Instr, b: Instr, c: Instr)
    ensures
        stack_delta(seq![a, b, c]) == stack_effect(a) + stack_effect(b) + stack_effect(c),
{
    reveal_with_fuel(stack_delta, 4);
}

proof fn lemma_alu_neutral(op: crate::node::BinaryType)
    ensures
        stack_delta(alu(op)) == 0,
{
    reveal_with_fuel(stack_delta, 4);
}

proof fn lemma_branch_pops(l: crate::codegen::Label)
    ensures
        stack_delta(branch_if_zero(l)) == -1,
{
    reveal_with_fuel(stack_delta, 4);
}

/// The code of an expression leaves exactly one more word on the operand stack.
pub proof fn lemma_expression_pushes_one(n: Node, lc: usize, lf: usize)
    ensures
        gen_expr(n, lc, lf) matches Ok((c, _)) ==> stack_delta(c) == 1,
    decreases n, 1nat,
{
    match n {
        Node::Num(v) => lemma_delta1(Instr::PushImm(v)),
        Node::Boolean(b) => lemma_delta1(Instr::PushBool(b)),
        Node::LVar(offset, t) => lemma_delta2(
            Instr::Load(crate::register::Register::RAX, offset, t),
            Instr::Push(crate::register::Register::RAX),
        ),
        Node::Unary(a, _) => lemma_expression_pushes_one(*a, lc, lf),
        Node::Binary(l, r, op) => {
            lemma_expression_pushes_one(*l, lc, lf);
            if let Ok((cl, lc1)) = gen_expr(*l, lc, lf) {
                lemma_expression_pushes_one(*r, lc1, lf);
                if let Ok((cr, _)) = gen_expr(*r, lc1, lf) {
                    let pops = seq![
                        Instr::Pop(crate::register::Register::RDI),
                        Instr::Pop(crate::register::Register::RAX),
                    ];
                    let push = seq![Instr::Push(crate::register::Register::RAX)];
                    lemma_alu_neutral(op);
                    lemma_delta2(
                        Instr::Pop(crate::register::Register::RDI),
                        Instr::Pop(crate::register::Register::RAX),
                    );
                    lemma_delta1(Instr::Push(crate::register::Register::RAX));
                    lemma_stack_delta_concat(cl, cr);
                    lemma_stack_delta_concat(cl + cr, pops);
                    lemma_stack_delta_concat(cl + cr + pops, alu(op));
                    lemma_stack_delta_concat(cl + cr + pops + alu(op), push);
                }
            }
        },
        Node::Assign(target, value) => {
            lemma_expression_pushes_one(*value, lc, lf);
            if let Ok((cv, _)) = gen_expr(*value, lc, lf) {
                if let Node::LVar(offset, t) = *target {
                    lemma_delta3(
                        Instr::Pop(crate::register::Register::RDI),
                        Instr::Store(offset, t, crate::register::Register::RDI),
                        Instr::Push(crate::register::Register::RDI),
                    );
                    lemma_stack_delta_concat(
                        cv,
                        seq![
                            Instr::Pop(crate::register::Register::RDI),
                            Instr::Store(offset, t, crate::register::Register::RDI),
                            Instr::Push(crate::register::Register::RDI),
                        ],
                    );
                }
            }
        },
        Node::FunctionCall(name, args) => {
            lemma_arguments_neutral(args@, lc, lf);
            if let Ok((ca, _)) = gen_args(args@, lc, lf) {
                lemma_delta2(Instr::Call(name), Instr::Push(crate::register::Register::RAX));
                lemma_stack_delta_concat(
                    ca,
                    seq![Instr::Call(name), Instr::Push(crate::register::Register::RAX)],
                );
            }
        },
        _ => {},
    }
}

/// Argument code moves each value into its register and leaves the stack as it was.
pub proof fn lemma_arguments_neutral(args: Seq<Node>, lc: usize, lf: usize)
    ensures
        gen_args(args, lc, lf) matches Ok((c, _)) ==> stack_delta(c) == 0,
    decreases args, 0nat,
{
    if args.len() > 0 {
        lemma_expression_pushes_one(args.last(), lc, lf);
        if let Ok((c, lc1)) = gen_expr(args.last(), lc, lf) {
            lemma_arguments_neutral(args.drop_last(), lc1, lf);
            if let Ok((c2, _)) = gen_args(args.drop_last(), lc1, lf) {
                let moves = seq![
                    Instr::Pop(crate::register::Register::RAX),
                    Instr::Mov(crate::codegen::arg_register(args.len() - 1), crate::register::Register::RAX),
                ];
                reveal_with_fuel(stack_delta, 3);
                lemma_stack_delta_concat(c, moves);
                lemma_stack_delta_concat(c + moves, c2);
            }
        }
    }
}

/// The code of every statement leaves the operand stack as deep as it found it.
pub proof fn lemma_statement_stack_neutral(n: Node, lc: usize, lf: usize)
    ensures
        gen_stmt(n, lc, lf) matches Ok((c, _)) ==> stack_delta(c) == 0,
    decreases n,
{
    if is_expression(n) {
        lemma_expression_pushes_one(n, lc, lf);
        if let Ok((c, _)) = gen_expr(n, lc, lf) {
            lemma_delta1(Instr::Pop(crate::register::Register::RAX));
            lemma_stack_delta_concat(c, seq![Instr::Pop(crate::register::Register::RAX)]);
        }
        return;
    }
    let next = (lc + 1) as usize;
    match n {
        Node::Block(stmts) => lemma_block_stack_neutral(stmts@, lc, lf),
        Node::Return(None) => lemma_delta1(Instr::Jmp(crate::codegen::Label::EndFunc(lf))),
        Node::Return(Some(e)) => {
            lemma_expression_pushes_one(*e, lc, lf);
            if let Ok((c, _)) = gen_expr(*e, lc, lf) {
                lemma_delta2(
                    Instr::Pop(crate::register::Register::RAX),
                    Instr::Jmp(crate::codegen::Label::EndFunc(lf)),
                );
                lemma_stack_delta_concat(
                    c,
                    seq![
                        Instr::Pop(crate::register::Register::RAX),
                        Instr::Jmp(crate::codegen::Label::EndFunc(lf)),
                    ],
                );
            }
        },
        Node::If(cond, then) => {
            lemma_expression_pushes_one(*cond, next, lf);
            if let Ok((cc, lc1)) = gen_expr(*cond, next, lf) {
                lemma_statement_stack_neutral(*then, lc1, lf);
                if let Ok((ct, _)) = gen_stmt(*then, lc1, lf) {
                    let b = branch_if_zero(crate::codegen::Label::End(lc));
                    lemma_branch_pops(crate::codegen::Label::End(lc));
                    lemma_delta1(Instr::Place(crate::codegen::Label::End(lc)));
                    lemma_stack_delta_concat(cc, b);
                    lemma_stack_delta_concat(cc + b, ct);
                    lemma_stack_delta_concat(
                        cc + b + ct,
                        seq![Instr::Place(crate::codegen::Label::End(lc))],
                    );
                }
            }
        },
        Node::IfElse(cond, then, other) => {
            lemma_expression_pushes_one(*cond, next, lf);
            if let Ok((cc, lc1)) = gen_expr(*cond, next, lf) {
                lemma_statement_stack_neutral(*then, lc1, lf);
                if let Ok((ct, lc2)) = gen_stmt(*then, lc1, lf) {
                    lemma_statement_stack_neutral(*other, lc2, lf);
                    if let Ok((co, _)) = gen_stmt(*other, lc2, lf) {
                        let b = branch_if_zero(crate::codegen::Label::Else(lc));
                        let mid = seq![
                            Instr::Jmp(crate::codegen::Label::End(lc)),
                            Instr::Place(crate::codegen::Label::Else(lc)),
                        ];
                        let end = seq![Instr::Place(crate::codegen::Label::End(lc))];
                        lemma_branch_pops(crate::codegen::Label::Else(lc));
                        lemma_delta2(
                            Instr::Jmp(crate::codegen::Label::End(lc)),
                            Instr::Place(crate::codegen::Label::Else(lc)),
                        );
                        lemma_delta1(Instr::Place(crate::codegen::Label::End(lc)));
                        lemma_stack_delta_concat(cc, b);
                        lemma_stack_delta_concat(cc + b, ct);
                        lemma_stack_delta_concat(cc + b + ct, mid);
                        lemma_stack_delta_concat(cc + b + ct + mid, co);
                        lemma_stack_delta_concat(cc + b + ct + mid + co, end);
                    }
                }
            }
        },
        Node::While(cond, body) => {
            lemma_expression_pushes_one(*cond, next, lf);
            if let Ok((cc, lc1)) = gen_expr(*cond, next, lf) {
                lemma_statement_stack_neutral(*body, lc1, lf);
                if let Ok((cb, _)) = gen_stmt(*body, lc1, lf) {
                    let begin = seq![Instr::Place(crate::codegen::Label::Begin(lc))];
                    let b = branch_if_zero(crate::codegen::Label::End(lc));
                    let end = seq![
                        Instr::Jmp(crate::codegen::Label::Begin(lc)),
                        Instr::Place(crate::codegen::Label::End(lc)),
                    ];
                    lemma_branch_pops(crate::codegen::Label::End(lc));
                    lemma_delta1(Instr::Place(crate::codegen::Label::Begin(lc)));
                    lemma_delta2(
                        Instr::Jmp(crate::codegen::Label::Begin(lc)),
                        Instr::Place(crate::codegen::Label::End(lc)),
                    );
                    lemma_stack_delta_concat(begin, cc);
                    lemma_stack_delta_concat(begin + cc, b);
                    lemma_stack_delta_concat(begin + cc + b, cb);
                    lemma_stack_delta_concat(begin + cc + b + cb, end);
                }
            }
        },
        Node::For(init, cond, update, body) => {
            lemma_statement_stack_neutral(*init, next, lf);
            if let Ok((ci, lc1)) = gen_stmt(*init, next, lf) {
                lemma_expression_pushes_one(*cond, lc1, lf);
                if let Ok((cc, lc2)) = gen_expr(*cond, lc1, lf) {
                    lemma_statement_stack_neutral(*body, lc2, lf);
                    if let Ok((cb, lc3)) = gen_stmt(*body, lc2, lf) {
                        lemma_statement_stack_neutral(*update, lc3, lf);
                        if let Ok((cu, _)) = gen_stmt(*update, lc3, lf) {
                            let begin = seq![Instr::Place(crate::codegen::Label::Begin(lc))];
                            let b = branch_if_zero(crate::codegen::Label::End(lc));
                            let end = seq![
                                Instr::Jmp(crate::codegen::Label::Begin(lc)),
                                Instr::Place(crate::codegen::Label::End(lc)),
                            ];
                            lemma_branch_pops(crate::codegen::Label::End(lc));
                            lemma_delta1(Instr::Place(crate::codegen::Label::Begin(lc)));
                            lemma_delta2(
                                Instr::Jmp(crate::codegen::Label::Begin(lc)),
                                Instr::Place(crate::codegen::Label::End(lc)),
                            );
                            lemma_stack_delta_concat(ci, begin);
                            lemma_stack_delta_concat(ci + begin, cc);
                            lemma_stack_delta_concat(ci + begin + cc, b);
                            lemma_stack_delta_concat(ci + begin + cc + b, cb);
                            lemma_stack_delta_concat(ci + begin + cc + b + cb, cu);
                            lemma_stack_delta_concat(ci + begin + cc + b + cb + cu, end);
                        }
                    }
                }
            }
        },
        _ => {},
    }
}

/// A block's statements together leave the operand stack as they found it.
pub proof fn lemma_block_stack_neutral(stmts: Seq<Node>, lc: usize, lf: usize)
    ensures
        gen_block(stmts, lc, lf) matches Ok((c, _)) ==> stack_delta(c) == 0,
    decreases stmts,
{
    if stmts.len() > 0 {
        lemma_statement_stack_neutral(stmts[0], lc, lf);
        if let Ok((c, lc1)) = gen_stmt(stmts[0], lc, lf) {
            lemma_block_stack_neutral(stmts.drop_first(), lc1, lf);
            if let Ok((c2, _)) = gen_block(stmts.drop_first(), lc1, lf) {
                lemma_stack_delta_concat(c, c2);
            }
        }
    }
}

proof fn lemma_param_stores_neutral(params: Seq<crate::typename::Typename>, k: int, offset: nat)
    ensures
        param_stores(params, k, offset) matches Some(c) ==> stack_delta(c) == 0,
    decreases params.len() - k,
{
    if 0 <= k < params.len() {
        let next = (offset + crate::codegen::width(params[k])) as nat;
        lemma_param_stores_neutral(params, k + 1, next);
        if let Some(rest) = param_stores(params, k + 1, next) {
            let store = Instr::Store(offset as usize, params[k], crate::codegen::arg_register(k));
            lemma_delta1(store);
            lemma_stack_delta_concat(seq![store], rest);
        }
    }
}

/// A whole function's code, prologue and epilogue included, leaves the stack as deep
/// as it found it: the frame pointer and the scratch register it saves, it restores.
pub proof fn lemma_function_stack_neutral(n: Node, lc: usize, lf: usize)
    ensures
        gen_function(n, lc, lf) matches Ok((c, _)) ==> stack_delta(c) == 0,
{
    if let Node::Function(name, _, params, body, size) = n {
        lemma_param_stores_neutral(params@, 0, 0);
        lemma_statement_stack_neutral(*body, lc, lf);
        if let (Some(stores), Ok((cb, _))) = (param_stores(params@, 0, 0), gen_stmt(*body, lc, lf)) {
            let frame = align(size as nat) as usize;
            let pro = seq![
                Instr::Symbol(name),
                Instr::EndBr,
                Instr::Push(Register::RBP),
                Instr::Mov(Register::RBP, Register::RSP),
                Instr::Push(Register::RDX),
                Instr::SubRsp(frame),
            ];
            let epi = seq![
                Instr::Place(Label::EndFunc(lf)),
                Instr::AddRsp(frame),
                Instr::Pop(Register::RDX),
                Instr::Pop(Register::RBP),
                Instr::Ret,
            ];
            assert(stack_delta(pro) == 2) by {
                reveal_with_fuel(stack_delta, 7);
            }
            assert(stack_delta(epi) == -2) by {
                reveal_with_fuel(stack_delta, 6);
            }
            lemma_stack_delta_concat(pro, stores);
            lemma_stack_delta_concat(pro + stores, cb);
            lemma_stack_delta_concat(pro + stores + cb, epi);
        }
    }
}

/// The frame size is the locals' size when that is a multiple of sixteen, and
/// otherwise eight short of a multiple of sixteen, so that together with the return
/// address, the saved frame pointer and the saved scratch register the stack pointer
/// is a multiple of sixteen inside the frame. For sizes one to eight past a multiple
/// of sixteen the frame also covers the locals.
pub proof fn lemma_frame_alignment(size: nat)
    ensures
        size % 16 == 0 ==> align(size) == size,
        size % 16 != 0 ==> align(size) % 16 == 8,
        size % 16 != 0 ==> (8 + 8 + 8 + align(size)) % 16 == 0,
        0 < size % 16 <= 8 ==> size <= align(size) < size + 8,
{
}

} // verus!
