use vstd::prelude::*;
use vstd::string::*;
use crate::text::{append_decimal, decimal};

verus! {

/// A general-purpose register of x86-64; `Rn(n)` is one of `r8` to `r15`.
#[derive(Clone, Copy, Debug, PartialEq, Eq, Structural)]
pub enum Register {
    RAX,
    RBX,
    RCX,
    RDX,
    RSI,
    RDI,
    RBP,
    RSP,
    Rn(usize),
}

/// An access width in bytes that a register supports.
pub open spec fn valid_width(size: usize) -> bool {
    size == 1 || size == 2 || size == 4 || size == 8
}

/// A register that exists.
pub open spec fn register_wf(r: Register) -> bool {
    match r {
        Register::Rn(n) => 8 <= n <= 15,
        _ => true,
    }
}

/// The suffix that selects the width of a numbered register.
pub open spec fn numbered_suffix(size: usize) -> Seq<char> {
    if size == 1 {
        "b"@
    } else if size == 2 {
        "w"@
    } else if size == 4 {
        "d"@
    } else {
        ""@
    }
}

/// The operand name of register `r` accessed at `size` bytes.
pub open spec fn register_name(r: Register, size: usize) -> Seq<char> {
    match r {
        Register::RAX => if size == 1 {
            "al"@
        } else if size == 2 {
            "ax"@
        } else if size == 4 {
            "eax"@
        } else {
            "rax"@
        },
        Register::RBX => if size == 1 {
            "bl"@
        } else if size == 2 {
            "bx"@
        } else if size == 4 {
            "ebx"@
        } else {
            "rbx"@
        },
        Register::RCX => if size == 1 {
            "cl"@
        } else if size == 2 {
            "cx"@
        } else if size == 4 {
            "ecx"@
        } else {
            "rcx"@
        },
        Register::RDX => if size == 1 {
            "dl"@
        } else if size == 2 {
            "dx"@
        } else if size == 4 {
            "edx"@
        } else {
            "rdx"@
        },
        Register::RSI => if size == 1 {
            "sil"@
        } else if size == 2 {
            "si"@
        } else if size == 4 {
            "esi"@
        } else {
            "rsi"@
        },
        Register::RDI => if size == 1 {
            "dil"@
        } else if size == 2 {
            "di"@
        } else if size == 4 {
            "edi"@
        } else {
            "rdi"@
        },
        Register::RBP => if size == 1 {
            "bpl"@
        } else if size == 2 {
            "bp"@
        } else if size == 4 {
            "ebp"@
        } else {
            "rbp"@
        },
        Register::RSP => if size == 1 {
            "spl"@
        } else if size == 2 {
            "sp"@
        } else if size == 4 {
            "esp"@
        } else {
            "rsp"@
        },
        Register::Rn(n) => "r"@ + decimal(n as nat) + numbered_suffix(size),
    }
}

fn pick(size: usize, b1: &str, b2: &str, b4: &str, b8: &str) -> (r: String)
    requires
        valid_width(size),
    ensures
        r@ == (if size == 1 {
            b1@
        } else if size == 2 {
            b2@
        } else if size == 4 {
            b4@
        } else {
            b8@
        }),
{
    if size == 1 {
        String::from_str(b1)
    } else if size == 2 {
        String::from_str(b2)
    } else if size == 4 {
        String::from_str(b4)
    } else {
        String::from_str(b8)
    }
}

impl Register {
    /// The name under which the register is accessed at `size` bytes.
    pub fn get_name(&self, size: usize) -> (r: String)
        requires
            valid_width(size),
            register_wf(*self),
        ensures
            r@ == register_name(*self, size),
    {
        match self {
            Register::RAX => pick(size, "al", "ax", "eax", "rax"),
            Register::RBX => pick(size, "bl", "bx", "ebx", "rbx"),
            Register::RCX => pick(size, "cl", "cx", "ecx", "rcx"),
            Register::RDX => pick(size, "dl", "dx", "edx", "rdx"),
            Register::RSI => pick(size, "sil", "si", "esi", "rsi"),
            Register::RDI => pick(size, "dil", "di", "edi", "rdi"),
            Register::RBP => pick(size, "bpl", "bp", "ebp", "rbp"),
            Register::RSP => pick(size, "spl", "sp", "esp", "rsp"),
            Register::Rn(n) => {
                let mut s = String::from_str("r");
                append_decimal(&mut s, *n as u128);
                s.append(pick(size, "b", "w", "d", "").as_str());
                s
            },
        }
    }
}

} // verus!
