//! Numbers written as text, for the messages that describe errors: decimal, signed decimal,
//! and lower-case hexadecimal with a `0x` prefix.
use vstd::prelude::*;
use vstd::string::StringExecFns;

verus! {

/// The digit character for `d` in base 16 (lower case).
pub open spec fn digit_char(d: int) -> char {
    if d == 0 { '0' } else if d == 1 { '1' } else if d == 2 { '2' } else if d == 3 { '3' }
    else if d == 4 { '4' } else if d == 5 { '5' } else if d == 6 { '6' } else if d == 7 { '7' }
    else if d == 8 { '8' } else if d == 9 { '9' } else if d == 10 { 'a' } else if d == 11 { 'b' }
    else if d == 12 { 'c' } else if d == 13 { 'd' } else if d == 14 { 'e' } else { 'f' }
}

/// `n` in base `radix` (10 or 16), most significant digit first, with no leading zeros.
pub open spec fn digits_text(n: nat, radix: nat) -> Seq<char>
    decreases n,
{
    if radix < 2 || n < radix {
        seq![digit_char(n as int)]
    } else {
        proof {
            assert(n / radix < n) by (nonlinear_arith)
                requires
                    radix >= 2,
                    n >= radix,
            ;
        }
        digits_text(n / radix, radix).push(digit_char((n % radix) as int))
    }
}

/// `n` as `{}` writes it.
pub open spec fn decimal_text(n: nat) -> Seq<char> {
    digits_text(n, 10)
}

/// `n` as `{:#x}` writes it.
pub open spec fn hex_text(n: nat) -> Seq<char> {
    seq!['0', 'x'] + digits_text(n, 16)
}

/// `n` as `{}` writes a signed integer.
pub open spec fn signed_text(n: int) -> Seq<char> {
    if n < 0 {
        seq!['-'] + decimal_text((-n) as nat)
    } else {
        decimal_text(n as nat)
    }
}

/// An optional number as `{:?}` writes it.
pub open spec fn option_text(n: Option<u32>) -> Seq<char> {
    match n {
        Some(v) => seq!['S', 'o', 'm', 'e', '('] + decimal_text(v as nat) + seq![')'],
        None => seq!['N', 'o', 'n', 'e'],
    }
}

fn digit_str(d: u64) -> (r: &'static str)
    requires d < 16,
    ensures r@ == seq![digit_char(d as int)],
{
    proof {
        reveal_strlit("0");
        reveal_strlit("1");
        reveal_strlit("2");
        reveal_strlit("3");
        reveal_strlit("4");
        reveal_strlit("5");
        reveal_strlit("6");
        reveal_strlit("7");
        reveal_strlit("8");
        reveal_strlit("9");
        reveal_strlit("a");
        reveal_strlit("b");
        reveal_strlit("c");
        reveal_strlit("d");
        reveal_strlit("e");
        reveal_strlit("f");
    }
    if d == 0 { "0" } else if d == 1 { "1" } else if d == 2 { "2" } else if d == 3 { "3" }
    else if d == 4 { "4" } else if d == 5 { "5" } else if d == 6 { "6" } else if d == 7 { "7" }
    else if d == 8 { "8" } else if d == 9 { "9" } else if d == 10 { "a" } else if d == 11 { "b" }
    else if d == 12 { "c" } else if d == 13 { "d" } else if d == 14 { "e" } else { "f" }
}

fn push_digits(s: &mut String, n: u64, radix: u64)
    requires radix == 10 || radix == 16,
    ensures final(s)@ == old(s)@ + digits_text(n as nat, radix as nat),
    decreases n,
{
    let ghost before = s@;
    if n >= radix {
        push_digits(s, n / radix, radix);
    }
    s.append(digit_str(n % radix));
    proof {
        assert(s@ =~= before + digits_text(n as nat, radix as nat));
    }
}

/// Appends `n` as `{}` writes it.
pub fn push_decimal(s: &mut String, n: u64)
    ensures final(s)@ == old(s)@ + decimal_text(n as nat),
{
    push_digits(s, n, 10);
}

/// Appends `n` as `{:#x}` writes it.
pub fn push_hex(s: &mut String, n: u64)
    ensures final(s)@ == old(s)@ + hex_text(n as nat),
{
    let ghost before = s@;
    proof {
        reveal_strlit("0x");
    }
    s.append("0x");
    push_digits(s, n, 16);
    proof {
        assert(s@ =~= before + hex_text(n as nat));
    }
}

/// Appends the signed `n` as `{}` writes it.
pub fn push_signed(s: &mut String, n: i64)
    ensures final(s)@ == old(s)@ + signed_text(n as int),
{
    let ghost before = s@;
    if n < 0 {
        proof {
            reveal_strlit("-");
        }
        s.append("-");
        let magnitude = (0 - (n as i128)) as u64;
        push_decimal(s, magnitude);
        proof {
            assert(s@ =~= before + signed_text(n as int));
        }
    } else {
        push_decimal(s, n as u64);
    }
}

/// Appends an optional number as `{:?}` writes it.
pub fn push_option(s: &mut String, n: Option<u32>)
    ensures final(s)@ == old(s)@ + option_text(n),
{
    let ghost before = s@;
    match n {
        Some(v) => {
            proof {
                reveal_strlit("Some(");
                reveal_strlit(")");
            }
            s.append("Some(");
            push_decimal(s, v as u64);
            s.append(")");
            proof {
                assert(s@ =~= before + option_text(n));
            }
        },
        None => {
            proof {
                reveal_strlit("None");
            }
            s.append("None");
        },
    }
}

} // verus!
