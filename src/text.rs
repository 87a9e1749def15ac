use vstd::prelude::*;
use vstd::string::*;

verus! {

/// The character for a digit value below sixteen (lower-case letters past nine).
pub open spec fn digit_char(d: nat) -> char {
    if d < 10 {
        ((d + '0' as nat) as u8) as char
    } else {
        ((d - 10 + 'a' as nat) as u8) as char
    }
}

/// `n` written in decimal, most significant digit first, with no leading zeros.
pub open spec fn decimal(n: nat) -> Seq<char>
    decreases n,
{
    if n < 10 {
        seq![digit_char(n)]
    } else {
        decimal(n / 10) + seq![digit_char(n % 10)]
    }
}

/// The hexadecimal digits of `n`, most significant first, with no leading zeros.
pub open spec fn hex_digits(n: nat) -> Seq<char>
    decreases n,
{
    if n < 16 {
        seq![digit_char(n)]
    } else {
        hex_digits(n / 16) + seq![digit_char(n % 16)]
    }
}

/// `n` written in hexadecimal with a `0x` prefix, as Rust's `{:#x}` writes it.
pub open spec fn hex(n: nat) -> Seq<char> {
    seq!['0', 'x'] + hex_digits(n)
}

/// Appends the one character for digit value `d`.
fn append_digit(out: &mut String, d: u128)
    requires
        d < 16,
    ensures
        final(out)@ == old(out)@ + seq![digit_char(d as nat)],
{
    let table = "0123456789abcdef";
    proof {
        reveal_strlit("0123456789abcdef");
    }
    let one = table.substring_char(d as usize, d as usize + 1);
    assert(one@ =~= seq![digit_char(d as nat)]) by {
        assert(one@.len() == 1);
        assert(one@[0] == table@[d as int]);
    }
    out.append(one);
}

/// Appends `n` in decimal.
pub fn append_decimal(out: &mut String, n: u128)
    ensures
        final(out)@ == old(out)@ + decimal(n as nat),
    decreases n,
{
    if n < 10 {
        append_digit(out, n);
    } else {
        append_decimal(out, n / 10);
        append_digit(out, n % 10);
        assert(final(out)@ =~= old(out)@ + decimal(n as nat));
    }
}

fn append_hex_digits(out: &mut String, n: u128)
    ensures
        final(out)@ == old(out)@ + hex_digits(n as nat),
    decreases n,
{
    if n < 16 {
        append_digit(out, n);
    } else {
        append_hex_digits(out, n / 16);
        append_digit(out, n % 16);
        assert(final(out)@ =~= old(out)@ + hex_digits(n as nat));
    }
}

/// Appends `n` in hexadecimal with a `0x` prefix.
pub fn append_hex(out: &mut String, n: u128)
    ensures
        final(out)@ == old(out)@ + hex(n as nat),
{
    let prefix = "0x";
    proof {
        reveal_strlit("0x");
    }
    out.append(prefix);
    append_hex_digits(out, n);
    assert(final(out)@ =~= old(out)@ + hex(n as nat));
}

} // verus!
