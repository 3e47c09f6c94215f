//! Rendering of the failure message.
//!
//! The byte count is shown with the largest binary prefix (1024-based) that
//! fits: counts under 1024 render as plain integers, scaled counts render
//! with two decimal digits unless the scaled value is an exact integer, in
//! which case no decimals are shown. The decimal digits are those of the
//! exact rational `size / 1024^k` rounded to the nearest hundredth, ties to
//! even — the rounding that fixed-precision formatting performs.

use vstd::prelude::*;
use vstd::arithmetic::div_mod::{lemma_div_denominator, lemma_fundamental_div_mod};
use vstd::string::StringExecFns;
use crate::meta::Layout;

verus! {

/// `1024^k`.
pub open spec fn pow1024(k: nat) -> nat
    decreases k,
{
    if k == 0 {
        1
    } else {
        1024 * pow1024((k - 1) as nat)
    }
}

/// How many times `size` can be divided by 1024 before falling under 1024:
/// the index of the binary prefix used to show it.
pub open spec fn scale_index(size: nat) -> nat
    decreases size,
{
    if size < 1024 {
        0
    } else {
        1 + scale_index(size / 1024)
    }
}

/// The lower-case binary prefix with index `k`; the table ends at `yi`.
pub open spec fn prefix_of(k: nat) -> Seq<char> {
    if k == 0 {
        Seq::empty()
    } else if k == 1 {
        "ki"@
    } else if k == 2 {
        "mi"@
    } else if k == 3 {
        "gi"@
    } else if k == 4 {
        "ti"@
    } else if k == 5 {
        "pi"@
    } else if k == 6 {
        "ei"@
    } else if k == 7 {
        "zi"@
    } else {
        "yi"@
    }
}

/// The decimal digit character for `d < 10`.
pub open spec fn dec_digit(d: nat) -> char {
    if d == 0 {
        '0'
    } else if d == 1 {
        '1'
    } else if d == 2 {
        '2'
    } else if d == 3 {
        '3'
    } else if d == 4 {
        '4'
    } else if d == 5 {
        '5'
    } else if d == 6 {
        '6'
    } else if d == 7 {
        '7'
    } else if d == 8 {
        '8'
    } else {
        '9'
    }
}

/// The decimal digits of `n`, most significant first.
pub open spec fn dec_str(n: nat) -> Seq<char>
    decreases n,
{
    if n < 10 {
        seq![dec_digit(n)]
    } else {
        dec_str(n / 10).push(dec_digit(n % 10))
    }
}

/// `a / b` rounded to the nearest integer, ties to the even quotient.
pub open spec fn div_round_even(a: nat, b: nat) -> nat
    recommends
        b > 0,
{
    let q = a / b;
    let r = a % b;
    if 2 * r < b {
        q
    } else if 2 * r > b {
        q + 1
    } else if q % 2 == 0 {
        q
    } else {
        q + 1
    }
}

/// The scaled value `size / 1024^k` in hundredths, correctly rounded.
pub open spec fn scaled_hundredths(size: nat, k: nat) -> nat {
    div_round_even(size * 100, pow1024(k))
}

/// The numeric portion of the message for a byte count of `size`.
pub open spec fn number_part(size: nat) -> Seq<char> {
    let k = scale_index(size);
    if k == 0 {
        dec_str(size)
    } else if size % pow1024(k) == 0 {
        dec_str(size / pow1024(k))
    } else {
        let h = scaled_hundredths(size, k);
        dec_str(h / 100).push('.').push(dec_digit((h % 100) / 10)).push(dec_digit(h % 10))
    }
}

/// The whole failure message for a byte count of `size` and a type whose
/// diagnostic name is `name`.
pub open spec fn message_of(size: nat, name: Seq<char>) -> Seq<char> {
    "memory allocation of "@ + number_part(size) + " "@ + prefix_of(scale_index(size))
        + "bytes (for type "@ + name + ") failed"@
}

/// `pow1024` never vanishes and grows with its argument.
proof fn lemma_pow1024_pos(k: nat)
    ensures
        pow1024(k) >= 1,
    decreases k,
{
    if k > 0 {
        lemma_pow1024_pos((k - 1) as nat);
    }
}

/// Beyond the `ei` prefix the scale no longer fits a `u64` byte count.
proof fn lemma_pow1024_overflows(k: nat)
    ensures
        k >= 7 ==> pow1024(k) > u64::MAX,
    decreases k,
{
    if k >= 8 {
        lemma_pow1024_overflows((k - 1) as nat);
    } else if k == 7 {
        reveal_with_fuel(pow1024, 8);
    }
}

/// The decimal digit character of `d < 10`, as a one-character string.
fn digit_str(d: u64) -> (r: &'static str)
    requires
        d < 10,
    ensures
        r@ == seq![dec_digit(d as nat)],
{
    let r: &'static str = if d == 0 {
        "0"
    } else if d == 1 {
        "1"
    } else if d == 2 {
        "2"
    } else if d == 3 {
        "3"
    } else if d == 4 {
        "4"
    } else if d == 5 {
        "5"
    } else if d == 6 {
        "6"
    } else if d == 7 {
        "7"
    } else if d == 8 {
        "8"
    } else {
        "9"
    };
    proof {
        reveal_strlit("0");
        reveal_strlit("1");
        reveal_strlit("2");
        reveal_strlit("3");
        reveal_strlit("4");
        reveal_strlit("5");
        reveal_strlit("6");
        reveal_strlit("7");
        reveal_strlit("8");
        reveal_strlit("9");
        assert(r@ =~= seq![dec_digit(d as nat)]);
    }
    r
}

/// The decimal digits of `n`.
fn dec_string(n: u64) -> (r: String)
    ensures
        r@ == dec_str(n as nat),
    decreases n,
{
    if n < 10 {
        let mut s = String::new();
        s.append(digit_str(n));
        proof {
            assert(s@ =~= dec_str(n as nat));
        }
        s
    } else {
        let mut s = dec_string(n / 10);
        s.append(digit_str(n % 10));
        proof {
            assert(s@ =~= dec_str(n as nat));
        }
        s
    }
}

/// The lower-case binary prefix with index `k`.
fn prefix_str(k: u64) -> (r: &'static str)
    requires
        1 <= k <= 6,
    ensures
        r@ == prefix_of(k as nat),
{
    if k == 1 {
        "ki"
    } else if k == 2 {
        "mi"
    } else if k == 3 {
        "gi"
    } else if k == 4 {
        "ti"
    } else if k == 5 {
        "pi"
    } else {
        "ei"
    }
}

/// Renders the message shown for a failed allocation of `layout.size` bytes
/// of a type whose diagnostic name is `name`.
pub fn render_message(layout: Layout, name: &str) -> (r: String)
    ensures
        r@ == message_of(layout.size as nat, name@),
{
    let s: u64 = layout.size as u64;
    let ghost size: nat = layout.size as nat;
    let mut k: u64 = 0;
    let mut pow: u64 = 1;
    let mut rest: u64 = s;
    while rest >= 1024
        invariant
            k <= 6,
            pow == pow1024(k as nat),
            rest as nat == size / pow1024(k as nat),
            scale_index(size) == k as nat + scale_index(rest as nat),
            s as nat == size,
        decreases rest,
    {
        proof {
            lemma_pow1024_pos(k as nat);
            // `rest >= 1024` forces the next scale to still fit the count.
            lemma_fundamental_div_mod(size as int, pow1024(k as nat) as int);
            assert(size >= 1024 * pow1024(k as nat)) by (nonlinear_arith)
                requires
                    size / pow1024(k as nat) >= 1024,
                    pow1024(k as nat) >= 1,
                    size as int == pow1024(k as nat) * (size as int / (pow1024(k as nat) as int))
                        + size as int % (pow1024(k as nat) as int),
            ;
            assert(pow1024((k + 1) as nat) == 1024 * pow1024(k as nat));
            lemma_pow1024_overflows((k + 1) as nat);
            assert(k + 1 <= 6);
            lemma_div_denominator(size as int, pow1024(k as nat) as int, 1024);
            assert(size / pow1024(k as nat) / 1024 == size / pow1024((k + 1) as nat));
        }
        rest = rest / 1024;
        pow = pow * 1024;
        k = k + 1;
    }
    proof {
        lemma_pow1024_pos(k as nat);
        assert(scale_index(rest as nat) == 0);
        assert(scale_index(size) == k as nat);
    }
    let num: String = if k == 0 {
        dec_string(s)
    } else if s % pow == 0 {
        dec_string(s / pow)
    } else {
        let a: u128 = (s as u128) * 100;
        let b: u128 = pow as u128;
        let q: u128 = a / b;
        let r: u128 = a % b;
        let h: u128 = if 2 * r < b {
            q
        } else if 2 * r > b {
            q + 1
        } else if q % 2 == 0 {
            q
        } else {
            q + 1
        };
        proof {
            assert(h == scaled_hundredths(size, k as nat));
            // The scaled value is under 1024, so its hundredths fit easily.
            lemma_fundamental_div_mod(size as int, pow1024(k as nat) as int);
            assert(size < 1024 * pow1024(k as nat)) by (nonlinear_arith)
                requires
                    size / pow1024(k as nat) < 1024,
                    pow1024(k as nat) >= 1,
                    size as int == pow1024(k as nat) * (size as int / (pow1024(k as nat) as int))
                        + size as int % (pow1024(k as nat) as int),
                    size as int % (pow1024(k as nat) as int) < pow1024(k as nat),
            ;
            assert(q < 102400) by (nonlinear_arith)
                requires
                    q == size * 100 / pow1024(k as nat),
                    size < 1024 * pow1024(k as nat),
                    pow1024(k as nat) >= 1,
            ;
        }
        let h64: u64 = h as u64;
        let whole: u64 = h64 / 100;
        let fr: u64 = h64 % 100;
        let mut num = dec_string(whole);
        num.append(".");
        num.append(digit_str(fr / 10));
        num.append(digit_str(fr % 10));
        proof {
            reveal_strlit(".");
            assert(num@ =~= number_part(size));
        }
        num
    };
    let mut out = String::new();
    out.append("memory allocation of ");
    out.append(num.as_str());
    out.append(" ");
    if k >= 1 {
        out.append(prefix_str(k));
    }
    out.append("bytes (for type ");
    out.append(name);
    out.append(") failed");
    proof {
        assert(out@ =~= message_of(size, name@));
    }
    out
}

} // verus!
